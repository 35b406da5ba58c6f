//! The system prompt that conditions a generation.

use crate::text::optional_text;
use vstd::prelude::*;
use vstd::string::StringExecFns;

verus! {

/// System prompt used when the caller gives none.
pub const DEFAULT_SYSTEM_PROMPT: &'static str = "You are an AI assistant. Respond helpfully.";

/// The system prompt a generation runs with, as a sequence of characters:
/// the caller's own text when there is one, the default otherwise.
pub open spec fn resolved_system(system: Option<Seq<char>>) -> Seq<char> {
    match system {
        Some(text) => text,
        None => DEFAULT_SYSTEM_PROMPT@,
    }
}

/// Picks the system prompt for a generation. A prompt given by the caller is
/// used verbatim; without one the default stands in.
pub fn resolve_system(system: Option<String>) -> (resolved: String)
    ensures
        resolved@ == resolved_system(optional_text(system)),
{
    match system {
        Some(text) => text,
        None => String::from_str(DEFAULT_SYSTEM_PROMPT),
    }
}

} // verus!
