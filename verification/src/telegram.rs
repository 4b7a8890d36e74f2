//! The plain shapes exchanged with the chat collaborator. The
//! transport itself (polling, sending, keyboards) lives outside the
//! library; only these records cross the boundary.

use vstd::prelude::*;

verus! {

/// What kind of request a chat message carries.
#[derive(Debug, Clone, Copy, PartialEq, Eq, Structural)]
pub enum MsgType {
    /// Any plain message: answered with a status report.
    GenericMsg,
    /// The turn-on control.
    TurnOn,
    /// The refresh control: the existing message is edited in place.
    Update,
}

/// One inbound user request.
#[derive(Debug, Clone, Copy, PartialEq, Eq, Structural)]
pub struct UserMessage {
    /// Set when the request came from an interactive control, so the
    /// reply can edit that message instead of sending a new one.
    pub message_id: Option<i32>,
    pub user_id: u64,
    pub chat_id: i64,
    pub update: MsgType,
}

/// One outbound reply.
#[derive(Debug)]
pub struct OutgoingMessage {
    /// When set, the transport edits this message; otherwise it sends
    /// a fresh one.
    pub update_message_with_id: Option<i32>,
    pub chat_id: i64,
    pub text: String,
    pub send_buttons: bool,
}

impl Clone for OutgoingMessage {
    fn clone(&self) -> (r: Self)
        ensures
            r == *self,
    {
        OutgoingMessage {
            update_message_with_id: self.update_message_with_id,
            chat_id: self.chat_id,
            text: self.text.clone(),
            send_buttons: self.send_buttons,
        }
    }
}

} // verus!
