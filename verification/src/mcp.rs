//! The reply decision of the tool server reached through the gateway.

use vstd::prelude::*;

verus! {

/// What the tool server answers a request with.
#[derive(Debug, Clone, Copy, PartialEq, Eq, Structural)]
pub enum McpReply {
    /// the list of the tools it offers
    ListTools,
    /// the text `unknown command`
    UnknownCommand,
}

/// The text of the answer to an unknown request.
pub open spec fn unknown_command_text() -> Seq<char> {
    "unknown command"@
}

/// The answer to a request with the given payload: only `tools` is known.
pub fn mcp_reply(payload: &str) -> (r: McpReply)
    ensures
        r == if payload@ == "tools"@ { McpReply::ListTools } else { McpReply::UnknownCommand },
{
    if String::from_str(payload) == String::from_str("tools") {
        McpReply::ListTools
    } else {
        McpReply::UnknownCommand
    }
}

/// The text of the answer to an unknown request.
pub fn unknown_command() -> (s: String)
    ensures
        s@ == unknown_command_text(),
{
    String::from_str("unknown command")
}

} // verus!
