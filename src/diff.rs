//! Turning the output of a diff command into diff text.
use vstd::prelude::*;
use crate::text::{decode_utf8, utf8_decoded};

verus! {

/// Why no diff text could be had.
pub enum DiffError {
    /// The diff command ran and reported failure.
    CommandFailed,
    /// The diff command printed bytes that are not UTF-8.
    Encoding,
    /// The diff command could not be run at all.
    Unavailable { detail: String },
}

/// Reads the diff text out of a diff command's exit state and standard output.
pub fn decode_diff(success: bool, stdout: Vec<u8>) -> (r: Result<String, DiffError>)
    ensures
        !success ==> r matches Err(DiffError::CommandFailed),
        success ==> match utf8_decoded(stdout@) {
            Some(t) => r matches Ok(s) && s@ == t,
            None => r matches Err(DiffError::Encoding),
        },
{
    if !success {
        return Err(DiffError::CommandFailed);
    }
    match decode_utf8(stdout) {
        Some(s) => Ok(s),
        None => Err(DiffError::Encoding),
    }
}

/// The message that describes a diff failure.
pub open spec fn diff_error_text(e: DiffError) -> Seq<char> {
    match e {
        DiffError::CommandFailed => "Failed to execute git diff"@,
        DiffError::Encoding => "git diff printed text that is not UTF-8"@,
        DiffError::Unavailable { detail } => "Failed to run git diff: "@ + detail@,
    }
}

impl DiffError {
    /// The message shown to the user for this failure.
    pub fn describe(&self) -> (r: String)
        ensures
            r@ == diff_error_text(*self),
    {
        match self {
            DiffError::CommandFailed => String::from_str("Failed to execute git diff"),
            DiffError::Encoding => String::from_str("git diff printed text that is not UTF-8"),
            DiffError::Unavailable { detail } => {
                let mut s = String::from_str("Failed to run git diff: ");
                s.append(detail.as_str());
                s
            },
        }
    }
}

} // verus!
