//! The command that lifts a block.

use crate::handlers::admin::notice;
use crate::handlers::admin::notice_view;
use crate::handlers::admin::outcome_notice;
use crate::handlers::admin::outcome_text;
use crate::handlers::admin::BlockProgress;
use crate::handlers::admin::BlockStep;
use crate::handlers::admin::BlockStepView;
use crate::handlers::admin::MESSAGE_NOT_FOUND;
use crate::handlers::Message;
use crate::handlers::MessageView;
use crate::services::message_link::MessageLinkDirection;
use crate::services::message_link::MessageLinkServiceError;
use crate::services::user::UserServiceError;
use crate::text::integer_of_text;
use crate::text::parse_integer;
use vstd::prelude::*;

verus! {

/// The answer to an argument that is no user id.
pub const MESSAGE_INVALID_USER_ID: &'static str = "Invalid User ID";

/// The answer to a command that names nobody.
pub const MESSAGE_USER_ID_REQUIRED: &'static str = "User ID is required";

/// The next step of an unblock command, sent in the chat `chat_id` with the arguments
/// `args`.
///
/// The command names the user by the first argument, a user id, or else by replying to a
/// forwarded message, whose link is looked up on the admin side. An argument that is no
/// number, and a command with neither argument nor reply, get an answer that says so. A
/// reply to a message without a link gets "Not found". Otherwise the block of the user is
/// lifted, and the answer says whether the directory knew them.
pub open spec fn unblock_step(
    chat_id: i64,
    message: MessageView,
    args: Seq<Seq<char>>,
    progress: BlockProgress,
) -> BlockStepView {
    match progress {
        BlockProgress::Received => if args.len() > 0 {
            match integer_of_text(args[0]) {
                Some(user_id) => BlockStepView::SetBlock { user_id: user_id as i64, value: false },
                None => BlockStepView::SendMessage(
                    notice_view(chat_id, message.id, MESSAGE_INVALID_USER_ID@),
                ),
            }
        } else {
            match message.reply_to {
                Some(parent) => BlockStepView::FindLink {
                    chat_id: parent.chat_id,
                    message_id: parent.id,
                    direction: MessageLinkDirection::Admin,
                },
                None => BlockStepView::SendMessage(
                    notice_view(chat_id, message.id, MESSAGE_USER_ID_REQUIRED@),
                ),
            }
        },
        BlockProgress::Resolved(Some(link)) => BlockStepView::SetBlock {
            user_id: link.subscriber_user_id,
            value: false,
        },
        BlockProgress::Resolved(None) => BlockStepView::SendMessage(
            notice_view(chat_id, message.id, MESSAGE_NOT_FOUND@),
        ),
        BlockProgress::Applied(found) => BlockStepView::SendMessage(
            notice_view(chat_id, message.id, outcome_text(found)),
        ),
    }
}

/// The texts of the arguments of a command.
pub open spec fn args_view(args: Seq<String>) -> Seq<Seq<char>> {
    args.map_values(|arg: String| arg@)
}

/// Says what to do next for an unblock command, as [`unblock_step`] describes it.
pub fn handle(chat_id: i64, message: &Message, args: &Vec<String>, progress: BlockProgress) -> (r:
    BlockStep)
    ensures
        r@ == unblock_step(chat_id, message@, args_view(args@), progress),
{
    match progress {
        BlockProgress::Received => if args.len() > 0 {
            match parse_integer(args[0].as_str()) {
                Some(user_id) => BlockStep::SetBlock { user_id, value: false },
                None => BlockStep::SendMessage(
                    notice(chat_id, message.id, MESSAGE_INVALID_USER_ID),
                ),
            }
        } else {
            match message.reply_to {
                Some(reply_to) => BlockStep::FindLink {
                    chat_id: reply_to.chat_id,
                    message_id: reply_to.id,
                    direction: MessageLinkDirection::Admin,
                },
                None => BlockStep::SendMessage(
                    notice(chat_id, message.id, MESSAGE_USER_ID_REQUIRED),
                ),
            }
        },
        BlockProgress::Resolved(Some(link)) => BlockStep::SetBlock {
            user_id: link.subscriber_user_id(),
            value: false,
        },
        BlockProgress::Resolved(None) => BlockStep::SendMessage(
            notice(chat_id, message.id, MESSAGE_NOT_FOUND),
        ),
        BlockProgress::Applied(found) => BlockStep::SendMessage(
            outcome_notice(chat_id, message.id, found),
        ),
    }
}

/// Why an unblock command was not carried out.
#[derive(Debug)]
pub enum UnblockError {
    /// The message replied to could not be looked up.
    GetLink(MessageLinkServiceError),
    /// The directory could not lift the block.
    SetBlock(UserServiceError),
    /// The answer could not be sent.
    SendMessage,
}

/// Says which error the failure of a step comes to; it names what the step was about.
pub fn failure(step: &BlockStep) -> (r: UnblockError)
    ensures
        match (step@, r) {
            (
                BlockStepView::FindLink { chat_id, message_id, direction },
                UnblockError::GetLink(source),
            ) => source == (MessageLinkServiceError::Find { chat_id, message_id, direction }),
            (
                BlockStepView::SetBlock { user_id, value },
                UnblockError::SetBlock(
                    UserServiceError::SetBlock { user_id: refused, value: wanted },
                ),
            ) => refused == user_id && wanted == value,
            (BlockStepView::SendMessage(_), UnblockError::SendMessage) => true,
            _ => false,
        },
{
    match step {
        BlockStep::FindLink { chat_id, message_id, direction } => UnblockError::GetLink(
            MessageLinkServiceError::Find {
                chat_id: *chat_id,
                message_id: *message_id,
                direction: *direction,
            },
        ),
        BlockStep::SetBlock { user_id, value } => UnblockError::SetBlock(
            UserServiceError::SetBlock { user_id: *user_id, value: *value },
        ),
        BlockStep::SendMessage(_) => UnblockError::SendMessage,
    }
}

} // verus!
