use crate::command::Command;
use vstd::prelude::*;

verus! {

/// One inbound chat message together with its parsed command: the
/// conversation it arrived in, who sent it (absent for anonymous or system
/// senders), and when, as whole seconds since the Unix epoch in UTC.
#[derive(Debug)]
pub struct Msg {
    pub group_id: String,
    pub sender_username: Option<String>,
    pub ts: i64,
    pub cmd: Command,
}

/// A plain text reply to be delivered back into the same conversation.
#[derive(Debug)]
pub struct ReplyMsg {
    pub text: String,
}

} // verus!
