//! The course of one run, as a machine that the program drives.
//!
//! The program performs each action that the machine asks for (a repository
//! query, a diff command, the request to the service, a prompt, the commit) and
//! hands its result back as an event; the machine decides what comes next.
use vstd::prelude::*;
use crate::commit::{confirms, is_affirmative};
use crate::diff::DiffError;
use crate::reply::GenError;

verus! {

/// Where a run stands.
pub enum Stage {
    /// Waiting for the working tree's status.
    CheckingStatus,
    /// Waiting for the diff of the staged changes.
    ReadingStaged,
    /// Waiting for the diff of the unstaged changes.
    ReadingUnstaged,
    /// Waiting for the service's commit message.
    Generating,
    /// Waiting for the user's answer about `message`.
    Confirming { message: String },
    /// Waiting for the commit to finish.
    Committing,
    /// The run is over.
    Finished,
}

/// The result of an action, handed back by the program.
pub enum Event {
    /// The current directory is not inside a repository.
    NotRepository,
    /// The status query failed.
    StatusFailed { detail: String },
    /// The status query found `count` entries, untracked files included.
    StatusEntries { count: usize },
    /// The diff of the staged changes.
    StagedDiff { result: Result<String, DiffError> },
    /// The diff of the unstaged changes.
    UnstagedDiff { result: Result<String, DiffError> },
    /// The service's commit message, or why there is none.
    Generated { result: Result<String, GenError> },
    /// The line the user typed at the prompt.
    Answer { line: String },
    /// Whether the commit command succeeded.
    CommitDone { success: bool },
}

/// How a run ended.
pub enum Outcome {
    NoChanges,
    NoDiff,
    Declined,
    Committed,
    CommitFailed,
    NotRepository,
    StatusFailed { detail: String },
    DiffFailed { error: DiffError },
    GenerationFailed { error: GenError },
    /// An event came that the stage did not wait for.
    Unexpected,
}

/// What the program is to do next.
pub enum Action {
    /// Query the working tree's status, untracked files included.
    QueryStatus,
    /// Run the diff of the staged changes.
    ReadStagedDiff,
    /// Run the diff of the unstaged changes.
    ReadUnstagedDiff,
    /// Ask the service for a commit message for `diff`.
    Generate { diff: String },
    /// Show `message` and ask the user to confirm it.
    Confirm { message: String },
    /// Commit with `message`.
    Commit { message: String },
    /// End the run.
    Exit { outcome: Outcome },
    /// Nothing: the run is over.
    Idle,
}

/// Whether a run that ended so ends successfully.
pub open spec fn is_graceful(o: Outcome) -> bool {
    o is NoChanges || o is NoDiff || o is Declined || o is Committed || o is CommitFailed
}

/// The process's exit status for an outcome.
pub open spec fn exit_status(o: Outcome) -> i32 {
    if is_graceful(o) { 0 } else { 1 }
}

/// The stage in which a run starts.
pub open spec fn initial_stage() -> Stage {
    Stage::CheckingStatus
}

/// The end of a run with an outcome.
pub open spec fn finish(o: Outcome) -> (Stage, Action) {
    (Stage::Finished, Action::Exit { outcome: o })
}

/// The step from a stage on an event: the next stage and the action to perform.
pub open spec fn transition(stage: Stage, event: Event) -> (Stage, Action) {
    match stage {
        Stage::CheckingStatus => match event {
            Event::NotRepository => finish(Outcome::NotRepository),
            Event::StatusFailed { detail } => finish(Outcome::StatusFailed { detail }),
            Event::StatusEntries { count } => if count == 0 {
                finish(Outcome::NoChanges)
            } else {
                (Stage::ReadingStaged, Action::ReadStagedDiff)
            },
            _ => finish(Outcome::Unexpected),
        },
        Stage::ReadingStaged => match event {
            Event::StagedDiff { result } => match result {
                Err(error) => finish(Outcome::DiffFailed { error }),
                Ok(diff) => if diff@.len() == 0 {
                    (Stage::ReadingUnstaged, Action::ReadUnstagedDiff)
                } else {
                    (Stage::Generating, Action::Generate { diff })
                },
            },
            _ => finish(Outcome::Unexpected),
        },
        Stage::ReadingUnstaged => match event {
            Event::UnstagedDiff { result } => match result {
                Err(error) => finish(Outcome::DiffFailed { error }),
                Ok(diff) => if diff@.len() == 0 {
                    finish(Outcome::NoDiff)
                } else {
                    (Stage::Generating, Action::Generate { diff })
                },
            },
            _ => finish(Outcome::Unexpected),
        },
        Stage::Generating => match event {
            Event::Generated { result } => match result {
                Err(error) => finish(Outcome::GenerationFailed { error }),
                Ok(message) => (Stage::Confirming { message }, Action::Confirm { message }),
            },
            _ => finish(Outcome::Unexpected),
        },
        Stage::Confirming { message } => match event {
            Event::Answer { line } => if is_affirmative(line@) {
                (Stage::Committing, Action::Commit { message })
            } else {
                finish(Outcome::Declined)
            },
            _ => finish(Outcome::Unexpected),
        },
        Stage::Committing => match event {
            Event::CommitDone { success } => if success {
                finish(Outcome::Committed)
            } else {
                finish(Outcome::CommitFailed)
            },
            _ => finish(Outcome::Unexpected),
        },
        Stage::Finished => (Stage::Finished, Action::Idle),
    }
}

/// The actions of a run that meets `events` from `stage` on, one per event.
pub open spec fn run(stage: Stage, events: Seq<Event>) -> Seq<Action>
    decreases events.len(),
{
    if events.len() == 0 {
        Seq::empty()
    } else {
        let (next, action) = transition(stage, events[0]);
        seq![action] + run(next, events.drop_first())
    }
}

/// Starts a run: its first stage and its first action.
pub fn start() -> (r: (Stage, Action))
    ensures
        r.0 == initial_stage(),
        r.1 is QueryStatus,
{
    (Stage::CheckingStatus, Action::QueryStatus)
}

/// Takes one step of a run.
pub fn step(stage: Stage, event: Event) -> (r: (Stage, Action))
    ensures
        r == transition(stage, event),
{
    match stage {
        Stage::CheckingStatus => match event {
            Event::NotRepository => (Stage::Finished, Action::Exit { outcome: Outcome::NotRepository }),
            Event::StatusFailed { detail } => (
                Stage::Finished,
                Action::Exit { outcome: Outcome::StatusFailed { detail } },
            ),
            Event::StatusEntries { count } => if count == 0 {
                (Stage::Finished, Action::Exit { outcome: Outcome::NoChanges })
            } else {
                (Stage::ReadingStaged, Action::ReadStagedDiff)
            },
            _ => (Stage::Finished, Action::Exit { outcome: Outcome::Unexpected }),
        },
        Stage::ReadingStaged => match event {
            Event::StagedDiff { result } => match result {
                Err(error) => (Stage::Finished, Action::Exit { outcome: Outcome::DiffFailed { error } }),
                Ok(diff) => if diff.as_str().is_empty() {
                    (Stage::ReadingUnstaged, Action::ReadUnstagedDiff)
                } else {
                    (Stage::Generating, Action::Generate { diff })
                },
            },
            _ => (Stage::Finished, Action::Exit { outcome: Outcome::Unexpected }),
        },
        Stage::ReadingUnstaged => match event {
            Event::UnstagedDiff { result } => match result {
                Err(error) => (Stage::Finished, Action::Exit { outcome: Outcome::DiffFailed { error } }),
                Ok(diff) => if diff.as_str().is_empty() {
                    (Stage::Finished, Action::Exit { outcome: Outcome::NoDiff })
                } else {
                    (Stage::Generating, Action::Generate { diff })
                },
            },
            _ => (Stage::Finished, Action::Exit { outcome: Outcome::Unexpected }),
        },
        Stage::Generating => match event {
            Event::Generated { result } => match result {
                Err(error) => (
                    Stage::Finished,
                    Action::Exit { outcome: Outcome::GenerationFailed { error } },
                ),
                Ok(message) => {
                    let shown = message.clone();
                    (Stage::Confirming { message }, Action::Confirm { message: shown })
                },
            },
            _ => (Stage::Finished, Action::Exit { outcome: Outcome::Unexpected }),
        },
        Stage::Confirming { message } => match event {
            Event::Answer { line } => if confirms(line.as_str()) {
                (Stage::Committing, Action::Commit { message })
            } else {
                (Stage::Finished, Action::Exit { outcome: Outcome::Declined })
            },
            _ => (Stage::Finished, Action::Exit { outcome: Outcome::Unexpected }),
        },
        Stage::Committing => match event {
            Event::CommitDone { success } => if success {
                (Stage::Finished, Action::Exit { outcome: Outcome::Committed })
            } else {
                (Stage::Finished, Action::Exit { outcome: Outcome::CommitFailed })
            },
            _ => (Stage::Finished, Action::Exit { outcome: Outcome::Unexpected }),
        },
        Stage::Finished => (Stage::Finished, Action::Idle),
    }
}

/// The process's exit status for an outcome.
pub fn exit_code(outcome: &Outcome) -> (r: i32)
    ensures
        r == exit_status(*outcome),
{
    match outcome {
        Outcome::NoChanges | Outcome::NoDiff | Outcome::Declined | Outcome::Committed
        | Outcome::CommitFailed => 0,
        _ => 1,
    }
}

/// Whether an action reaches beyond the machine: a request to the service or a commit.
pub open spec fn reaches_out(a: Action) -> bool {
    a is Generate || a is Commit
}

/// Whether an action runs a diff command.
pub open spec fn reads_diff(a: Action) -> bool {
    a is ReadStagedDiff || a is ReadUnstagedDiff
}

/// Whether a run has passed the reading of diffs.
pub open spec fn is_past_diff(stage: Stage) -> bool {
    stage is Generating || stage is Confirming || stage is Committing || stage is Finished
}

/// A run meets one action per event.
pub proof fn lemma_run_len(stage: Stage, events: Seq<Event>)
    ensures
        run(stage, events).len() == events.len(),
    decreases events.len(),
{
    if events.len() > 0 {
        lemma_run_len(transition(stage, events[0]).0, events.drop_first());
    }
}

/// A run's first event decides its first action and the stage the rest starts from.
pub proof fn lemma_run_first(stage: Stage, event: Event, rest: Seq<Event>)
    ensures
        run(stage, seq![event] + rest) == seq![transition(stage, event).1] + run(
            transition(stage, event).0,
            rest,
        ),
{
    assert((seq![event] + rest).drop_first() =~= rest);
    assert((seq![event] + rest)[0] == event);
}

/// Once a run is over, no event makes it act.
pub proof fn lemma_finished_idle(events: Seq<Event>)
    ensures
        forall|i: int| 0 <= i < run(Stage::Finished, events).len() ==> #[trigger] run(Stage::Finished, events)[i] is Idle,
    decreases events.len(),
{
    if events.len() > 0 {
        lemma_finished_idle(events.drop_first());
        lemma_run_len(Stage::Finished, events.drop_first());
        assert(events =~= seq![events[0]] + events.drop_first());
        lemma_run_first(Stage::Finished, events[0], events.drop_first());
        let acts = run(Stage::Finished, events);
        assert forall|i: int| 0 <= i < acts.len() implies #[trigger] acts[i] is Idle by {
            if i > 0 {
                assert(acts[i] == run(Stage::Finished, events.drop_first())[i - 1]);
            }
        }
    }
}

/// Once a run has passed the reading of diffs, it runs no diff command again.
pub proof fn lemma_past_diff_reads_none(stage: Stage, events: Seq<Event>)
    requires
        is_past_diff(stage),
    ensures
        forall|i: int| 0 <= i < run(stage, events).len() ==> !reads_diff(#[trigger] run(stage, events)[i]),
    decreases events.len(),
{
    if events.len() > 0 {
        let (next, action) = transition(stage, events[0]);
        lemma_past_diff_reads_none(next, events.drop_first());
        lemma_run_len(next, events.drop_first());
        assert(events =~= seq![events[0]] + events.drop_first());
        lemma_run_first(stage, events[0], events.drop_first());
        let acts = run(stage, events);
        assert forall|i: int| 0 <= i < acts.len() implies !reads_diff(#[trigger] acts[i]) by {
            if i > 0 {
                assert(acts[i] == run(next, events.drop_first())[i - 1]);
            }
        }
    }
}

/// A working tree without status entries ends the run at once, successfully:
/// no request goes to the service and no commit is made, whatever follows.
pub proof fn clean_tree_ends_quietly(rest: Seq<Event>)
    ensures
        ({
            let acts = run(initial_stage(), seq![Event::StatusEntries { count: 0 }] + rest);
            &&& acts[0] == (Action::Exit { outcome: Outcome::NoChanges })
            &&& exit_status(Outcome::NoChanges) == 0
            &&& forall|i: int| 0 <= i < acts.len() ==> !reaches_out(#[trigger] acts[i])
        }),
{
    lemma_run_first(initial_stage(), Event::StatusEntries { count: 0 }, rest);
    lemma_finished_idle(rest);
    lemma_run_len(Stage::Finished, rest);
    let acts = run(initial_stage(), seq![Event::StatusEntries { count: 0 }] + rest);
    assert forall|i: int| 0 <= i < acts.len() implies !reaches_out(#[trigger] acts[i]) by {
        if i > 0 {
            assert(acts[i] == run(Stage::Finished, rest)[i - 1]);
        }
    }
}

/// Where both the staged and the unstaged diff are empty, the run ends
/// successfully without a request to the service, whatever follows.
pub proof fn empty_diffs_end_quietly(count: usize, staged: String, unstaged: String, rest: Seq<Event>)
    requires
        staged@.len() == 0,
        unstaged@.len() == 0,
    ensures
        ({
            let events = seq![
                Event::StatusEntries { count },
                Event::StagedDiff { result: Ok(staged) },
                Event::UnstagedDiff { result: Ok(unstaged) },
            ] + rest;
            let acts = run(initial_stage(), events);
            &&& acts[if count == 0 { 0 } else { 2 }] matches Action::Exit { outcome }
            &&& exit_status(acts[if count == 0 { 0 } else { 2 }]->outcome) == 0
            &&& forall|i: int| 0 <= i < acts.len() ==> !reaches_out(#[trigger] acts[i])
        }),
{
    let e0 = Event::StatusEntries { count };
    let e1 = Event::StagedDiff { result: Ok(staged) };
    let e2 = Event::UnstagedDiff { result: Ok(unstaged) };
    let events = seq![e0, e1, e2] + rest;
    assert(events =~= seq![e0] + (seq![e1] + (seq![e2] + rest)));
    let acts = run(initial_stage(), events);
    lemma_run_first(initial_stage(), e0, seq![e1] + (seq![e2] + rest));
    if count == 0 {
        let tail = seq![e1] + (seq![e2] + rest);
        lemma_finished_idle(tail);
        lemma_run_len(Stage::Finished, tail);
        assert forall|i: int| 0 <= i < acts.len() implies !reaches_out(#[trigger] acts[i]) by {
            if i > 0 {
                assert(acts[i] == run(Stage::Finished, tail)[i - 1]);
            }
        }
    } else {
        lemma_run_first(Stage::ReadingStaged, e1, seq![e2] + rest);
        lemma_run_first(Stage::ReadingUnstaged, e2, rest);
        lemma_finished_idle(rest);
        lemma_run_len(Stage::Finished, rest);
        assert forall|i: int| 0 <= i < acts.len() implies !reaches_out(#[trigger] acts[i]) by {
            if i > 2 {
                assert(acts[i] == run(Stage::Finished, rest)[i - 3]);
            }
        }
    }
}

/// Where the staged diff is not empty, it is the text sent to the service, and
/// the unstaged diff is never read.
pub proof fn staged_diff_is_sent(count: usize, staged: String, rest: Seq<Event>)
    requires
        count > 0,
        staged@.len() > 0,
    ensures
        ({
            let events = seq![
                Event::StatusEntries { count },
                Event::StagedDiff { result: Ok(staged) },
            ] + rest;
            let acts = run(initial_stage(), events);
            &&& acts[0] is ReadStagedDiff
            &&& acts[1] == (Action::Generate { diff: staged })
            &&& forall|i: int| 0 <= i < acts.len() ==> !(#[trigger] acts[i] is ReadUnstagedDiff)
        }),
{
    let e0 = Event::StatusEntries { count };
    let e1 = Event::StagedDiff { result: Ok(staged) };
    let events = seq![e0, e1] + rest;
    assert(events =~= seq![e0] + (seq![e1] + rest));
    let acts = run(initial_stage(), events);
    lemma_run_first(initial_stage(), e0, seq![e1] + rest);
    lemma_run_first(Stage::ReadingStaged, e1, rest);
    lemma_past_diff_reads_none(Stage::Generating, rest);
    lemma_run_len(Stage::Generating, rest);
    assert forall|i: int| 0 <= i < acts.len() implies !(#[trigger] acts[i] is ReadUnstagedDiff) by {
        if i > 1 {
            assert(acts[i] == run(Stage::Generating, rest)[i - 2]);
        }
    }
}

/// A failed generation ends the run with a failure: the user is never asked
/// and no commit is made, whatever follows.
pub proof fn failed_generation_asks_nothing(error: GenError, rest: Seq<Event>)
    ensures
        ({
            let acts = run(Stage::Generating, seq![Event::Generated { result: Err(error) }] + rest);
            &&& acts[0] == (Action::Exit { outcome: Outcome::GenerationFailed { error } })
            &&& exit_status(Outcome::GenerationFailed { error }) != 0
            &&& forall|i: int| 0 <= i < acts.len() ==> !(#[trigger] acts[i] is Confirm) && !(acts[i] is Commit)
        }),
{
    let e = Event::Generated { result: Err(error) };
    lemma_run_first(Stage::Generating, e, rest);
    lemma_finished_idle(rest);
    lemma_run_len(Stage::Finished, rest);
    let acts = run(Stage::Generating, seq![e] + rest);
    assert forall|i: int| 0 <= i < acts.len() implies !(#[trigger] acts[i] is Confirm) && !(acts[i] is Commit) by {
        if i > 0 {
            assert(acts[i] == run(Stage::Finished, rest)[i - 1]);
        }
    }
}

/// An affirmative answer commits with exactly the proposed message; any other
/// answer ends the run successfully without a commit, whatever follows.
pub proof fn commit_follows_answer(message: String, line: String, rest: Seq<Event>)
    ensures
        ({
            let acts = run(Stage::Confirming { message }, seq![Event::Answer { line }] + rest);
            &&& is_affirmative(line@) ==> acts[0] == (Action::Commit { message })
            &&& !is_affirmative(line@) ==> acts[0] == (Action::Exit { outcome: Outcome::Declined })
            &&& !is_affirmative(line@) ==> forall|i: int| 0 <= i < acts.len() ==> !(#[trigger] acts[i] is Commit)
            &&& exit_status(Outcome::Declined) == 0
        }),
{
    let stage = Stage::Confirming { message };
    let e = Event::Answer { line };
    lemma_run_first(stage, e, rest);
    if !is_affirmative(line@) {
        lemma_finished_idle(rest);
        lemma_run_len(Stage::Finished, rest);
        let acts = run(stage, seq![e] + rest);
        assert forall|i: int| 0 <= i < acts.len() implies !(#[trigger] acts[i] is Commit) by {
            if i > 0 {
                assert(acts[i] == run(Stage::Finished, rest)[i - 1]);
            }
        }
    }
}

} // verus!
