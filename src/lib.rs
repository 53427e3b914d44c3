//! Proposes a commit message for the pending changes of a working copy.
//!
//! The library holds every decision of a run: which diff is sent, how the
//! request to the text-generation service is framed, how its reply is read,
//! what the user's answer means and how the commit is invoked. The program
//! around it performs the repository queries, the network round trip and the
//! terminal interaction, and feeds their results back as events.
pub mod commit;
pub mod text;
pub mod diff;
pub mod prompt;
pub mod reply;
pub mod session;
