//! The failures an invocation can end in.

use vstd::prelude::*;
use vstd::string::StringExecFns;

verus! {

/// Why an invocation failed. Each variant stands for one boundary the tool
/// crosses and carries the text that describes what went wrong there.
#[derive(Debug, PartialEq, Eq)]
pub enum Error {
    /// The HTTP request to the daemon could not be completed.
    Reqwest(String),
    /// The external program could not be started or waited for.
    Io(String),
    /// A JSON body could not be written or read.
    Serde(String),
    /// The external program ended with a failure status.
    Command(String),
}

impl Error {
    /// The detail text the failure carries.
    pub open spec fn detail(self) -> Seq<char> {
        match self {
            Error::Reqwest(detail) => detail@,
            Error::Io(detail) => detail@,
            Error::Serde(detail) => detail@,
            Error::Command(detail) => detail@,
        }
    }

    /// What each kind of failure is called in a report.
    pub open spec fn heading(self) -> Seq<char> {
        match self {
            Error::Reqwest(_) => "HTTP request failed: "@,
            Error::Io(_) => "IO error: "@,
            Error::Serde(_) => "JSON parsing error: "@,
            Error::Command(_) => "Ollama command failed: "@,
        }
    }

    /// The full description shown to the user: heading, then detail.
    pub open spec fn description(self) -> Seq<char> {
        self.heading() + self.detail()
    }

    /// Renders the description shown to the user.
    pub fn to_string(&self) -> (text: String)
        ensures
            text@ == self.description(),
    {
        match self {
            Error::Reqwest(detail) => String::from_str("HTTP request failed: ").concat(
                detail.as_str(),
            ),
            Error::Io(detail) => String::from_str("IO error: ").concat(detail.as_str()),
            Error::Serde(detail) => String::from_str("JSON parsing error: ").concat(
                detail.as_str(),
            ),
            Error::Command(detail) => String::from_str("Ollama command failed: ").concat(
                detail.as_str(),
            ),
        }
    }
}

} // verus!
