//! The command that blocks the sender of a forwarded message.

use crate::handlers::admin::notice;
use crate::handlers::admin::notice_view;
use crate::handlers::admin::outcome_notice;
use crate::handlers::admin::outcome_text;
use crate::handlers::admin::BlockProgress;
use crate::handlers::admin::BlockStep;
use crate::handlers::admin::BlockStepView;
use crate::handlers::admin::MESSAGE_NOT_FOUND;
use crate::handlers::Message;
use crate::handlers::MessageView;
use crate::services::message_link::MessageLinkDirection;
use crate::services::message_link::MessageLinkServiceError;
use crate::services::user::UserServiceError;
use vstd::prelude::*;

verus! {

/// The next step of a block command, sent in the chat `chat_id`.
///
/// The command counts only as a reply to a forwarded message. That message is looked up on
/// the admin side; the subscriber of its link is blocked; the answer says whether the
/// directory knew them. Without a reply, and without a link, the answer is "Not found" and
/// nobody is blocked.
pub open spec fn block_step(chat_id: i64, message: MessageView, progress: BlockProgress) -> BlockStepView {
    match progress {
        BlockProgress::Received => match message.reply_to {
            Some(parent) => BlockStepView::FindLink {
                chat_id: parent.chat_id,
                message_id: parent.id,
                direction: MessageLinkDirection::Admin,
            },
            None => BlockStepView::SendMessage(
                notice_view(chat_id, message.id, MESSAGE_NOT_FOUND@),
            ),
        },
        BlockProgress::Resolved(Some(link)) => BlockStepView::SetBlock {
            user_id: link.subscriber_user_id,
            value: true,
        },
        BlockProgress::Resolved(None) => BlockStepView::SendMessage(
            notice_view(chat_id, message.id, MESSAGE_NOT_FOUND@),
        ),
        BlockProgress::Applied(found) => BlockStepView::SendMessage(
            notice_view(chat_id, message.id, outcome_text(found)),
        ),
    }
}

/// Says what to do next for a block command, as [`block_step`] describes it.
pub fn handle(chat_id: i64, message: &Message, progress: BlockProgress) -> (r: BlockStep)
    ensures
        r@ == block_step(chat_id, message@, progress),
{
    match progress {
        BlockProgress::Received => match message.reply_to {
            Some(reply_to) => BlockStep::FindLink {
                chat_id: reply_to.chat_id,
                message_id: reply_to.id,
                direction: MessageLinkDirection::Admin,
            },
            None => BlockStep::SendMessage(notice(chat_id, message.id, MESSAGE_NOT_FOUND)),
        },
        BlockProgress::Resolved(Some(link)) => BlockStep::SetBlock {
            user_id: link.subscriber_user_id(),
            value: true,
        },
        BlockProgress::Resolved(None) => BlockStep::SendMessage(
            notice(chat_id, message.id, MESSAGE_NOT_FOUND),
        ),
        BlockProgress::Applied(found) => BlockStep::SendMessage(
            outcome_notice(chat_id, message.id, found),
        ),
    }
}

/// Why a block command was not carried out.
#[derive(Debug)]
pub enum BlockError {
    /// The message replied to could not be looked up.
    GetLink(MessageLinkServiceError),
    /// The answer could not be sent.
    SendMessage,
    /// The directory could not set the block.
    SetBlock(UserServiceError),
}

/// Says which error the failure of a step comes to; it names what the step was about.
pub fn failure(step: &BlockStep) -> (r: BlockError)
    ensures
        match (step@, r) {
            (
                BlockStepView::FindLink { chat_id, message_id, direction },
                BlockError::GetLink(source),
            ) => source == (MessageLinkServiceError::Find { chat_id, message_id, direction }),
            (
                BlockStepView::SetBlock { user_id, value },
                BlockError::SetBlock(UserServiceError::SetBlock { user_id: refused, value: wanted }),
            ) => refused == user_id && wanted == value,
            (BlockStepView::SendMessage(_), BlockError::SendMessage) => true,
            _ => false,
        },
{
    match step {
        BlockStep::FindLink { chat_id, message_id, direction } => BlockError::GetLink(
            MessageLinkServiceError::Find {
                chat_id: *chat_id,
                message_id: *message_id,
                direction: *direction,
            },
        ),
        BlockStep::SetBlock { user_id, value } => BlockError::SetBlock(
            UserServiceError::SetBlock { user_id: *user_id, value: *value },
        ),
        BlockStep::SendMessage(_) => BlockError::SendMessage,
    }
}

} // verus!
