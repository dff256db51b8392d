//! Verified core of a Matrix relay: chat-command recognition, the reply and
//! message-content decisions of the chat side, the request/response protocol
//! of the control socket, and the Markdown listing of a tool server's tools.
use vstd::prelude::*;

pub mod control;
pub mod mcp;
pub mod messaging;
pub mod text;

verus! {

} // verus!
