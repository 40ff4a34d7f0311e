//! Updates that come from the admin chat.

use crate::handlers::SendMessage;
use crate::handlers::SendMessageView;
use crate::services::message_link::MessageLink;
use crate::services::message_link::MessageLinkDirection;
use vstd::prelude::*;

pub mod block;
pub mod message;
pub mod unblock;
pub mod users;

verus! {

/// The answer to a command that was carried out.
pub const MESSAGE_OK: &'static str = "OK";

/// The answer to a command that names no known user.
pub const MESSAGE_NOT_FOUND: &'static str = "Not found";

/// How far a command that sets or lifts a block has come.
#[derive(Clone, Copy, Debug, PartialEq, Eq, Structural)]
pub enum BlockProgress {
    /// The command has arrived; nothing was done yet.
    Received,
    /// The lookup of the message replied to has returned this.
    Resolved(Option<MessageLink>),
    /// The directory was told, and has said whether it knows the user.
    Applied(bool),
}

/// What to do next for a command that sets or lifts a block.
#[derive(Debug)]
pub enum BlockStep {
    /// Look up the link of this message on this side.
    FindLink { chat_id: i64, message_id: i64, direction: MessageLinkDirection },
    /// Set the block state of this user in the directory.
    SetBlock { user_id: i64, value: bool },
    /// Send this answer; the command ends with it.
    SendMessage(SendMessage),
}

/// What a [`BlockStep`] holds, as plain values.
pub enum BlockStepView {
    FindLink { chat_id: i64, message_id: i64, direction: MessageLinkDirection },
    SetBlock { user_id: i64, value: bool },
    SendMessage(SendMessageView),
}

impl View for BlockStep {
    type V = BlockStepView;

    open spec fn view(&self) -> BlockStepView {
        match *self {
            BlockStep::FindLink { chat_id, message_id, direction } => BlockStepView::FindLink {
                chat_id,
                message_id,
                direction,
            },
            BlockStep::SetBlock { user_id, value } => BlockStepView::SetBlock { user_id, value },
            BlockStep::SendMessage(message) => BlockStepView::SendMessage(message@),
        }
    }
}

/// A plain answer to the command `message_id` in the chat `chat_id`.
pub open spec fn notice_view(chat_id: i64, message_id: i64, text: Seq<char>) -> SendMessageView {
    SendMessageView {
        chat_id,
        text,
        reply_to_message_id: Some(message_id),
        html: false,
        reply_markup: None,
    }
}

/// The answer that says whether the directory knew the user.
pub open spec fn outcome_text(found: bool) -> Seq<char> {
    if found {
        MESSAGE_OK@
    } else {
        MESSAGE_NOT_FOUND@
    }
}

/// A plain answer to the command `message_id` in the chat `chat_id`.
pub fn notice(chat_id: i64, message_id: i64, text: &str) -> (r: SendMessage)
    ensures
        r@ == notice_view(chat_id, message_id, text@),
{
    SendMessage {
        chat_id,
        text: String::from_str(text),
        reply_to_message_id: Some(message_id),
        html: false,
        reply_markup: None,
    }
}

/// The answer that says whether the directory knew the user.
pub fn outcome_notice(chat_id: i64, message_id: i64, found: bool) -> (r: SendMessage)
    ensures
        r@ == notice_view(chat_id, message_id, outcome_text(found)),
{
    if found {
        notice(chat_id, message_id, MESSAGE_OK)
    } else {
        notice(chat_id, message_id, MESSAGE_NOT_FOUND)
    }
}

} // verus!
