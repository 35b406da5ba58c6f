//! What the outcome of running the external `ollama` program means.

use crate::error::Error;
use crate::text::{integer_text, integer_to_string};
use vstd::prelude::*;
use vstd::string::StringExecFns;

verus! {

/// Name of the external program that manages models.
pub const OLLAMA_PROGRAM: &'static str = "ollama";

/// The exit code reported for a child that ended without one, as happens
/// when a signal terminates it.
pub const NO_EXIT_CODE: i32 = -1;

/// The exit code a failure is reported with.
pub open spec fn reported_code(code: Option<i32>) -> int {
    match code {
        Some(code) => code as int,
        None => NO_EXIT_CODE as int,
    }
}

/// Detail text of the failure reported for a child that ended unsuccessfully.
pub open spec fn exit_failure_detail(code: Option<i32>) -> Seq<char> {
    "Ollama command failed with exit code "@ + integer_text(reported_code(code))
}

/// How a child process ended: with an exit code, or, as when a signal
/// terminated it, without one.
#[derive(Debug, Clone, Copy, PartialEq, Eq)]
pub struct Exit {
    /// The child's exit code, where it has one.
    pub code: Option<i32>,
}

impl Exit {
    /// Whether the child ended successfully, which is with exit code 0.
    pub open spec fn succeeded(self) -> bool {
        self.code == Some(0i32)
    }
}

/// Maps how the child ended to the result of the run: `Ok` for a child
/// that exited with code 0, `Error::Command` naming the exit code for any
/// other.
pub fn exit_result(exit: Exit) -> (result: Result<(), Error>)
    ensures
        exit.succeeded() ==> result is Ok,
        !exit.succeeded() ==> (result matches Err(Error::Command(detail)) && detail@
            == exit_failure_detail(exit.code)),
{
    let shown: i32 = match exit.code {
        Some(code) => code,
        None => NO_EXIT_CODE,
    };
    if exit.code.is_some() && shown == 0 {
        Ok(())
    } else {
        let digits = integer_to_string(shown);
        Err(
            Error::Command(
                String::from_str("Ollama command failed with exit code ").concat(digits.as_str()),
            ),
        )
    }
}

/// Maps what came of one attempt to run the external program to the result
/// of the run. `outcome` is how the child ended, or, where no child could be
/// started or waited for, the text of that failure, which gives `Error::Io`.
pub fn run_result(outcome: Result<Exit, String>) -> (result: Result<(), Error>)
    ensures
        match outcome {
            Ok(exit) => {
                &&& exit.succeeded() ==> result is Ok
                &&& !exit.succeeded() ==> (result matches Err(Error::Command(detail)) && detail@
                    == exit_failure_detail(exit.code))
            },
            Err(text) => result matches Err(Error::Io(detail)) && detail@ == text@,
        },
{
    match outcome {
        Ok(exit) => exit_result(exit),
        Err(text) => Err(Error::Io(text)),
    }
}

} // verus!
