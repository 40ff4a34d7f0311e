//! Replies written in the admin chat, on their way back to the subscriber.

use crate::handlers::CopyMessage;
use crate::handlers::CopyMessageView;
use crate::handlers::Message;
use crate::handlers::MessageView;
use crate::handlers::copy_view;
use crate::handlers::relay;
use crate::handlers::Outcome;
use crate::handlers::Progress;
use crate::handlers::Step;
use crate::handlers::StepView;
use crate::services::message_link::MessageLink;
use crate::services::message_link::MessageLinkDirection;
use crate::services::message_link::MessageLinkService;
use crate::services::message_link::MessageLinkServiceError;
use vstd::prelude::*;

verus! {

/// The next step in sending an admin's message back to a subscriber.
///
/// Only a reply goes anywhere. The message it replies to is looked up on the admin side.
/// Without a link the message is dropped. With one, it is copied into the subscriber's
/// chat as a reply to the linked message there, and once the copy is there, the admin's
/// message and the copy are linked, under the same subscriber.
pub open spec fn reply_step(message: MessageView, progress: Progress) -> StepView {
    match progress {
        Progress::Received => match message.reply_to {
            Some(parent) => StepView::FindLink {
                chat_id: parent.chat_id,
                message_id: parent.id,
                direction: MessageLinkDirection::Admin,
            },
            None => StepView::Done,
        },
        Progress::Resolved(Some(link)) => StepView::CopyMessage(
            CopyMessageView {
                chat_id: link.subscriber_chat_id,
                from_chat_id: link.admin_chat_id,
                message_id: message.id,
                reply_to_message_id: Some(link.subscriber_message_id),
                reply_markup: None,
            },
        ),
        Progress::Copied { parent: Some(link), message_id } => StepView::CreateLink(
            MessageLink {
                subscriber_user_id: link.subscriber_user_id,
                subscriber_chat_id: link.subscriber_chat_id,
                subscriber_message_id: message_id,
                admin_chat_id: link.admin_chat_id,
                admin_message_id: message.id,
            },
        ),
        _ => StepView::Done,
    }
}

/// Says what to do next for a message from the admin chat, as [`reply_step`] describes it.
pub fn handle(message: &Message, progress: Progress) -> (r: Step)
    ensures
        r@ == reply_step(message@, progress),
{
    match progress {
        Progress::Received => match message.reply_to {
            Some(reply_to) => Step::FindLink {
                chat_id: reply_to.chat_id,
                message_id: reply_to.id,
                direction: MessageLinkDirection::Admin,
            },
            None => Step::Done,
        },
        Progress::Resolved(Some(link)) => Step::CopyMessage(
            CopyMessage {
                chat_id: link.subscriber_chat_id(),
                from_chat_id: link.admin_chat_id(),
                message_id: message.id,
                reply_to_message_id: Some(link.subscriber_message_id()),
                reply_markup: None,
            },
        ),
        Progress::Copied { parent: Some(link), message_id } => Step::CreateLink(
            MessageLink::new(
                link.subscriber_user_id(),
                link.subscriber_chat_id(),
                message_id,
                link.admin_chat_id(),
                message.id,
            ),
        ),
        _ => Step::Done,
    }
}

/// Why an admin's message did not get through.
#[derive(Clone, Copy, Debug, PartialEq, Eq, Structural)]
pub enum MessageError {
    /// The copy was sent, but its link could not be added.
    CreateLink(MessageLinkServiceError),
    /// The copy could not be sent.
    ExecuteCopy,
    /// The message replied to could not be looked up.
    FindLink(MessageLinkServiceError),
}

/// The error that the failure of a step comes to; it names what the step was about. A
/// step that asks for nothing fails in no way.
pub open spec fn failure_of(step: StepView) -> Option<MessageError> {
    match step {
        StepView::FindLink { chat_id, message_id, direction } => Some(
            MessageError::FindLink(MessageLinkServiceError::Find { chat_id, message_id, direction }),
        ),
        StepView::CopyMessage(_) => Some(MessageError::ExecuteCopy),
        StepView::CreateLink(link) => Some(
            MessageError::CreateLink(MessageLinkServiceError::Create { link }),
        ),
        _ => None,
    }
}

/// Says which error the failure of a step comes to, as [`failure_of`] describes it.
pub fn failure(step: &Step) -> (r: Option<MessageError>)
    ensures
        r == failure_of(step@),
{
    match step {
        Step::FindLink { chat_id, message_id, direction } => Some(
            MessageError::FindLink(
                MessageLinkServiceError::Find {
                    chat_id: *chat_id,
                    message_id: *message_id,
                    direction: *direction,
                },
            ),
        ),
        Step::CopyMessage(_) => Some(MessageError::ExecuteCopy),
        Step::CreateLink(link) => Some(
            MessageError::CreateLink(MessageLinkServiceError::Create { link: *link }),
        ),
        _ => None,
    }
}

/// What answering with one message comes to, from its arrival to the end, on the link
/// store `links`, when the transport gives the copy the id `copied`, or fails to send it.
pub open spec fn answer_outcome(message: MessageView, links: Seq<MessageLink>, copied: Option<i64>) -> Outcome {
    relay(|progress: Progress| reply_step(message, progress), links, copied)
}

/// Sends one message of the admin back on a link store held in memory, with the answer of
/// the transport given beforehand: takes the steps one after the other, and returns the
/// copy that was ordered, if one was.
pub fn answer(message: &Message, links: &mut MessageLinkService, copied: Option<i64>) -> (r: Option<
    CopyMessage,
>)
    requires
        old(links).wf(),
    ensures
        final(links).wf(),
        final(links)@ == answer_outcome(message@, old(links)@, copied).links,
        copy_view(r) == answer_outcome(message@, old(links)@, copied).sent,
{
    let first = handle(message, Progress::Received);
    let (parent, second) = match first {
        Step::FindLink { chat_id, message_id, direction } => {
            let parent = links.find(chat_id, message_id, direction);
            (parent, handle(message, Progress::Resolved(parent)))
        },
        other => (None, other),
    };
    match second {
        Step::CopyMessage(copy) => {
            match copied {
                Some(message_id) => {
                    let last = handle(message, Progress::Copied { parent, message_id });
                    match last {
                        Step::CreateLink(link) => {
                            let _ = links.create(link);
                        },
                        _ => {},
                    }
                },
                None => {},
            }
            Some(copy)
        },
        _ => None,
    }
}

} // verus!
