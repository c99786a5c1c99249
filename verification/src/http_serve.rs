//! What a file server answers, once it is known what became of the file.
//!
//! Looking for the file and reading it are the caller's. The answer to each
//! outcome is decided here.

use vstd::prelude::*;
use vstd::string::StringExecFns;

verus! {

/// The status of an answer that carries the file.
pub const OK: u16 = 200;

/// The status of an answer for a file that does not exist.
pub const NOT_FOUND: u16 = 404;

/// The status of an answer for a file that could not be read.
pub const INTERNAL_SERVER_ERROR: u16 = 500;

/// What became of the file that was asked for.
#[derive(Clone, Debug, PartialEq, Eq)]
pub enum FileOutcome {
    /// No file is at the path.
    Missing,
    /// The file was read; its content is kept.
    Read(String),
    /// The file is there but reading it failed; the reason is kept.
    Failed(String),
}

/// The status that answers `outcome`.
pub open spec fn spec_status(outcome: FileOutcome) -> u16 {
    match outcome {
        FileOutcome::Missing => NOT_FOUND,
        FileOutcome::Read(_) => OK,
        FileOutcome::Failed(_) => INTERNAL_SERVER_ERROR,
    }
}

/// The body that answers `outcome` for the path `shown`.
pub open spec fn spec_body(shown: Seq<char>, outcome: FileOutcome) -> Seq<char> {
    match outcome {
        FileOutcome::Missing => "File "@ + shown + " not found"@,
        FileOutcome::Read(content) => content@,
        FileOutcome::Failed(reason) => "Error reading file: "@ + reason@,
    }
}

/// Answers a request for the file at the path `shown`: the content with
/// status 200 if it was read, else a line of explanation with 404 or 500.
pub fn file_reply(shown: &str, outcome: FileOutcome) -> (reply: (u16, String))
    ensures
        reply.0 == spec_status(outcome),
        reply.1@ == spec_body(shown@, outcome),
{
    match outcome {
        FileOutcome::Missing => {
            let mut body = "File ".to_owned();
            body.append(shown);
            body.append(" not found");
            (NOT_FOUND, body)
        },
        FileOutcome::Read(content) => (OK, content),
        FileOutcome::Failed(reason) => {
            let mut body = "Error reading file: ".to_owned();
            body.append(reason.as_str());
            (INTERNAL_SERVER_ERROR, body)
        },
    }
}

} // verus!
