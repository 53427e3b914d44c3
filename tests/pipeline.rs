use commitgen::commit::{commit_args, confirms, is_yes_answer};
use commitgen::diff::{decode_diff, DiffError};
use commitgen::prompt::{build_request, user_prompt, MAX_TOKENS, PROMPT_HEAD, PROMPT_TAIL, SYSTEM_INSTRUCTION};
use commitgen::reply::{check_status, message_from_reply, settle_reply, ChatResponse, ContentBlock, GenError};
use commitgen::session::{exit_code, start, step, Action, Event, Outcome, Stage};

fn block(text: &str) -> ContentBlock {
    ContentBlock { text: text.to_string(), kind: "text".to_string() }
}

fn at_stage(stage: Stage, events: Vec<Event>) -> Vec<Action> {
    let mut stage = stage;
    let mut actions = Vec::new();
    for e in events {
        let (next, action) = step(stage, e);
        stage = next;
        actions.push(action);
    }
    actions
}

fn from_start(events: Vec<Event>) -> Vec<Action> {
    let (stage, first) = start();
    assert!(matches!(first, Action::QueryStatus));
    at_stage(stage, events)
}

fn reaches_out(a: &Action) -> bool {
    matches!(a, Action::Generate { .. } | Action::Commit { .. })
}

#[test]
fn decode_diff_reads_utf8_output() {
    let r = decode_diff(true, b"+ added line\n".to_vec());
    assert!(matches!(r, Ok(ref s) if s == "+ added line\n"));
}

#[test]
fn decode_diff_empty_output_is_empty_text() {
    let r = decode_diff(true, Vec::new());
    assert!(matches!(r, Ok(ref s) if s.is_empty()));
}

#[test]
fn decode_diff_failed_command() {
    let r = decode_diff(false, b"whatever".to_vec());
    assert!(matches!(r, Err(DiffError::CommandFailed)));
}

#[test]
fn decode_diff_invalid_utf8() {
    let r = decode_diff(true, vec![0x66, 0xff, 0xfe]);
    assert!(matches!(r, Err(DiffError::Encoding)));
}

#[test]
fn diff_error_messages() {
    assert_eq!(DiffError::CommandFailed.describe(), "Failed to execute git diff");
    let e = DiffError::Unavailable { detail: "no git".to_string() };
    assert_eq!(e.describe(), "Failed to run git diff: no git");
}

#[test]
fn prompt_holds_diff_verbatim() {
    let diff = "diff --git a/x b/x\n-'old'\n+\"new\" `$(rm -rf /)` \\n\t€\n";
    let p = user_prompt(diff);
    assert_eq!(p, format!("Generate a commit message for the following git diff:\n\n```\n{}\n```", diff));
    assert_eq!(&p[PROMPT_HEAD.len()..PROMPT_HEAD.len() + diff.len()], diff);
    assert!(p.ends_with(PROMPT_TAIL));
}

#[test]
fn request_has_one_user_message() {
    let r = build_request("sonnet-test-model", "+line");
    assert_eq!(r.model, "sonnet-test-model");
    assert_eq!(r.max_tokens, 1000);
    assert_eq!(r.max_tokens, MAX_TOKENS);
    assert_eq!(r.system, SYSTEM_INSTRUCTION);
    assert_eq!(r.messages.len(), 1);
    assert_eq!(r.messages[0].role, "user");
    assert_eq!(r.messages[0].content, user_prompt("+line"));
    assert!(r.messages[0].content.contains("+line"));
}

#[test]
fn response_first_block_trimmed() {
    let reply = ChatResponse { content: vec![block("Add foo\n\n- thing")] };
    let m = message_from_reply(&reply);
    assert!(matches!(m, Ok(ref s) if s == "Add foo\n\n- thing"));
    let padded = ChatResponse { content: vec![block("  \n Add foo\n\n- thing \n\n"), block("second")] };
    let m = message_from_reply(&padded);
    assert!(matches!(m, Ok(ref s) if s == "Add foo\n\n- thing"));
}

#[test]
fn response_without_content_fails() {
    let reply = ChatResponse { content: Vec::new() };
    let m = message_from_reply(&reply);
    assert!(matches!(m, Err(GenError::NoContent)));
    assert_eq!(GenError::NoContent.describe(), "No content received from the API");
}

#[test]
fn status_failure_carries_body() {
    let body = "{\"error\":{\"type\":\"authentication_error\"}}".to_string();
    let r = check_status(401, body.clone());
    match r {
        Some(e) => {
            assert!(matches!(e, GenError::Api { body: ref b } if *b == body));
            let text = e.describe();
            assert!(text.contains(&body));
            assert_eq!(text, format!("API request failed: {}", body));
        }
        None => panic!("a 401 must fail"),
    }
    assert!(check_status(500, "oops".to_string()).is_some());
    assert!(check_status(300, String::new()).is_some());
    assert!(check_status(199, String::new()).is_some());
    assert!(check_status(99, String::new()).is_some());
    assert!(check_status(1000, String::new()).is_some());
}

#[test]
fn status_success_range() {
    assert!(check_status(200, String::new()).is_none());
    assert!(check_status(201, String::new()).is_none());
    assert!(check_status(299, String::new()).is_none());
}

#[test]
fn confirmation_answers() {
    assert!(confirms("y"));
    assert!(confirms("Y"));
    assert!(confirms("y\n"));
    assert!(confirms("  Y \r\n"));
    assert!(!confirms(""));
    assert!(!confirms("\n"));
    assert!(!confirms("n"));
    assert!(!confirms("yes"));
    assert!(!confirms("yy"));
    assert!(is_yes_answer("y"));
    assert!(!is_yes_answer("Y"));
}

#[test]
fn commit_args_keep_message_whole() {
    let msg = "Fix user's parser\n\n- Handle 'quoted' input\n- Keep $HOME and `cmd` literal";
    let args = commit_args(msg);
    assert_eq!(args, vec!["commit".to_string(), "-m".to_string(), msg.to_string()]);
}

#[test]
fn clean_tree_exits_without_calls() {
    let acts = from_start(vec![Event::StatusEntries { count: 0 }, Event::Answer { line: "y".to_string() }]);
    assert!(matches!(acts[0], Action::Exit { outcome: Outcome::NoChanges }));
    assert_eq!(exit_code(&Outcome::NoChanges), 0);
    assert!(!acts.iter().any(reaches_out));
}

#[test]
fn not_a_repository_exits_one() {
    let acts = from_start(vec![Event::NotRepository]);
    match &acts[0] {
        Action::Exit { outcome } => {
            assert!(matches!(outcome, Outcome::NotRepository));
            assert_eq!(exit_code(outcome), 1);
        }
        _ => panic!("expected exit"),
    }
}

#[test]
fn empty_diffs_exit_without_request() {
    let acts = from_start(vec![
        Event::StatusEntries { count: 2 },
        Event::StagedDiff { result: Ok(String::new()) },
        Event::UnstagedDiff { result: Ok(String::new()) },
    ]);
    assert!(matches!(acts[0], Action::ReadStagedDiff));
    assert!(matches!(acts[1], Action::ReadUnstagedDiff));
    assert!(matches!(acts[2], Action::Exit { outcome: Outcome::NoDiff }));
    assert_eq!(exit_code(&Outcome::NoDiff), 0);
    assert!(!acts.iter().any(reaches_out));
}

#[test]
fn staged_diff_preferred() {
    let acts = from_start(vec![
        Event::StatusEntries { count: 1 },
        Event::StagedDiff { result: Ok("STAGED".to_string()) },
        Event::UnstagedDiff { result: Ok("UNSTAGED".to_string()) },
    ]);
    assert!(matches!(acts[1], Action::Generate { ref diff } if diff == "STAGED"));
    assert!(!acts.iter().any(|a| matches!(a, Action::ReadUnstagedDiff)));
    assert!(!acts.iter().any(|a| matches!(a, Action::Generate { diff } if diff == "UNSTAGED")));
}

#[test]
fn unstaged_diff_when_nothing_staged() {
    let acts = from_start(vec![
        Event::StatusEntries { count: 1 },
        Event::StagedDiff { result: Ok(String::new()) },
        Event::UnstagedDiff { result: Ok("UNSTAGED".to_string()) },
    ]);
    assert!(matches!(acts[2], Action::Generate { ref diff } if diff == "UNSTAGED"));
}

#[test]
fn diff_failure_exits_with_error() {
    let acts = from_start(vec![
        Event::StatusEntries { count: 1 },
        Event::StagedDiff { result: Err(DiffError::CommandFailed) },
    ]);
    match &acts[1] {
        Action::Exit { outcome } => {
            assert!(matches!(outcome, Outcome::DiffFailed { error: DiffError::CommandFailed }));
            assert_ne!(exit_code(outcome), 0);
        }
        _ => panic!("expected exit"),
    }
}

#[test]
fn generation_failure_skips_prompt() {
    let acts = at_stage(Stage::Generating, vec![
        Event::Generated { result: Err(GenError::NoContent) },
        Event::Answer { line: "y".to_string() },
    ]);
    match &acts[0] {
        Action::Exit { outcome } => {
            assert!(matches!(outcome, Outcome::GenerationFailed { error: GenError::NoContent }));
            assert_ne!(exit_code(outcome), 0);
        }
        _ => panic!("expected exit"),
    }
    assert!(!acts.iter().any(|a| matches!(a, Action::Confirm { .. } | Action::Commit { .. })));
}

#[test]
fn affirmative_answer_commits_message() {
    let msg = "Add 'quoted' thing\n\n- it's done";
    for answer in ["y", "Y", "y\n", "Y\n"] {
        let acts = at_stage(Stage::Generating, vec![
            Event::Generated { result: Ok(msg.to_string()) },
            Event::Answer { line: answer.to_string() },
            Event::CommitDone { success: true },
        ]);
        assert!(matches!(acts[0], Action::Confirm { ref message } if message == msg));
        match &acts[1] {
            Action::Commit { message } => {
                assert_eq!(commit_args(message), vec!["commit".to_string(), "-m".to_string(), msg.to_string()]);
            }
            _ => panic!("expected commit"),
        }
        assert!(matches!(acts[2], Action::Exit { outcome: Outcome::Committed }));
    }
}

#[test]
fn other_answers_do_not_commit() {
    for answer in ["", "\n", "n", "N", "yes", "no", "q"] {
        let acts = at_stage(Stage::Confirming { message: "Add foo".to_string() }, vec![
            Event::Answer { line: answer.to_string() },
            Event::CommitDone { success: true },
        ]);
        assert!(matches!(acts[0], Action::Exit { outcome: Outcome::Declined }));
        assert!(!acts.iter().any(|a| matches!(a, Action::Commit { .. })));
    }
    assert_eq!(exit_code(&Outcome::Declined), 0);
}

#[test]
fn failed_commit_still_exits_zero() {
    let acts = at_stage(Stage::Committing, vec![Event::CommitDone { success: false }]);
    assert!(matches!(acts[0], Action::Exit { outcome: Outcome::CommitFailed }));
    assert_eq!(exit_code(&Outcome::CommitFailed), 0);
}

#[test]
fn event_out_of_order_ends_run() {
    let acts = from_start(vec![Event::Answer { line: "y".to_string() }, Event::NotRepository]);
    assert!(matches!(acts[0], Action::Exit { outcome: Outcome::Unexpected }));
    assert!(matches!(acts[1], Action::Idle));
    assert_eq!(exit_code(&Outcome::Unexpected), 1);
}

#[test]
fn settle_reply_paths() {
    let ok = ChatResponse { content: vec![block("  Fix bar\n\n- detail\n")] };
    let r = settle_reply(200, "{...}".to_string(), Ok(ok));
    assert!(matches!(r, Ok(ref s) if s == "Fix bar\n\n- detail"));

    let r = settle_reply(200, "{}".to_string(), Ok(ChatResponse { content: Vec::new() }));
    assert!(matches!(r, Err(GenError::NoContent)));

    let r = settle_reply(200, "not json".to_string(), Err("expected value".to_string()));
    assert!(matches!(r, Err(GenError::Malformed { ref detail }) if detail == "expected value"));

    let r = settle_reply(529, "overloaded".to_string(), Ok(ChatResponse { content: vec![block("x")] }));
    match r {
        Err(e) => assert_eq!(e.describe(), "API request failed: overloaded"),
        Ok(_) => panic!("a 529 must fail"),
    }
}
