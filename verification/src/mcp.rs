//! What an adapter to the tool protocol decides for a registry that the host has bound to
//! one participant, session and slot.

use crate::datum::outcome;
use crate::tools::ToolError;
use vstd::prelude::*;

verus! {

/// All tools are listed at once.
pub fn check_listing(has_cursor: bool) -> (r: Result<(), String>)
    ensures
        outcome(r) == if has_cursor {
            Err::<(), Seq<char>>("unsupported tool cursor"@)
        } else {
            Ok(())
        },
{
    if has_cursor {
        return Err("unsupported tool cursor".to_owned());
    }
    Ok(())
}

/// Calls are answered at once.
pub fn check_call(has_task: bool) -> (r: Result<(), String>)
    ensures
        outcome(r) == if has_task {
            Err::<(), Seq<char>>("MCP task execution is not supported"@)
        } else {
            Ok(())
        },
{
    if has_task {
        return Err("MCP task execution is not supported".to_owned());
    }
    Ok(())
}

/// The text that answers a call, and whether it tells of an error. A value is answered by
/// its JSON text.
pub fn call_result(result: Result<String, ToolError>) -> (r: (String, bool))
    ensures
        match result {
            Ok(text) => r.0@ == text@ && !r.1,
            Err(error) => r.0@ == error.deep_view().message() && r.1,
        },
{
    match result {
        Ok(text) => (text, false),
        Err(error) => (error.to_string(), true),
    }
}

} // verus!
