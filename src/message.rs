//! The events that travel through the hub.
use vstd::prelude::*;

verus! {

/// An event fanned out to every live session. Identifiers are UUIDs held as
/// their 128-bit value.
#[derive(Debug, Clone, PartialEq, Eq)]
pub enum WsMessage {
    TicketUpdate { ticket_id: u128, data: String },
    TypingIndicator { ticket_id: u128, user_id: u128, is_typing: bool },
    NewComment { ticket_id: u128, comment: String },
}

impl WsMessage {
    /// A copy of the event.
    pub fn duplicate(&self) -> (r: WsMessage)
        ensures
            r == *self,
    {
        match self {
            WsMessage::TicketUpdate { ticket_id, data } => WsMessage::TicketUpdate {
                ticket_id: *ticket_id,
                data: data.clone(),
            },
            WsMessage::TypingIndicator { ticket_id, user_id, is_typing } => WsMessage::TypingIndicator {
                ticket_id: *ticket_id,
                user_id: *user_id,
                is_typing: *is_typing,
            },
            WsMessage::NewComment { ticket_id, comment } => WsMessage::NewComment {
                ticket_id: *ticket_id,
                comment: comment.clone(),
            },
        }
    }

    /// The ticket that the event concerns.
    pub fn ticket_id(&self) -> (r: u128)
        ensures
            r == match *self {
                WsMessage::TicketUpdate { ticket_id, .. } => ticket_id,
                WsMessage::TypingIndicator { ticket_id, .. } => ticket_id,
                WsMessage::NewComment { ticket_id, .. } => ticket_id,
            },
    {
        match self {
            WsMessage::TicketUpdate { ticket_id, .. } => *ticket_id,
            WsMessage::TypingIndicator { ticket_id, .. } => *ticket_id,
            WsMessage::NewComment { ticket_id, .. } => *ticket_id,
        }
    }
}

} // verus!
