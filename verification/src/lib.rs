//! Core logic of a small LLM-driven file assistant: extracting a structured
//! batch of file-system actions from loosely formatted model output,
//! validating every path against the working directory, and planning the
//! dispatch of each action with well-defined error semantics.

use vstd::prelude::*;

pub mod action;
pub mod catalogue;
pub mod chat;
pub mod dispatch;
pub mod extract;
pub mod extract_laws;
pub mod json;
pub mod json_laws;
pub mod parse;
pub mod sandbox;
pub mod tools;

verus! {

/// A character is JSON whitespace.
pub open spec fn is_json_ws(c: char) -> bool {
    c == ' ' || c == '\t' || c == '\n' || c == '\r'
}

/// Whitespace test used throughout the scanners and the parser.
pub fn json_ws(c: char) -> (r: bool)
    ensures
        r == is_json_ws(c),
{
    c == ' ' || c == '\t' || c == '\n' || c == '\r'
}

} // verus!
