//! Updates that come from a subscriber: everyone but the admin chat.

use crate::handlers::profile_button;
use crate::handlers::CopyMessage;
use crate::handlers::CopyMessageView;
use crate::handlers::Message;
use crate::handlers::MessageView;
use crate::handlers::copy_view;
use crate::handlers::relay;
use crate::handlers::Outcome;
use crate::handlers::Progress;
use crate::handlers::SendMessage;
use crate::handlers::SendMessageView;
use crate::handlers::Step;
use crate::handlers::StepView;
use crate::services::message_link::count_matches;
use crate::services::message_link::find_link;
use crate::services::message_link::lemma_each_link_found;
use crate::services::message_link::lemma_store_after;
use crate::services::message_link::links_unique;
use crate::services::message_link::store_after;
use crate::services::message_link::MessageLink;
use crate::services::message_link::MessageLinkDirection;
use crate::services::message_link::MessageLinkService;
use crate::services::message_link::MessageLinkServiceError;
use vstd::prelude::*;

verus! {

/// The message in the admin chat that the copy of a reply answers: the copy of the message
/// replied to, where that one has a link into this admin chat. A link that was recorded
/// for another admin chat counts as none.
pub open spec fn reply_target(admin_chat_id: i64, parent: Option<MessageLink>) -> Option<i64> {
    match parent {
        Some(link) => if link.admin_chat_id == admin_chat_id {
            Some(link.admin_message_id)
        } else {
            None
        },
        None => None,
    }
}

/// The next step in forwarding a subscriber's message to the admin chat.
///
/// A message without a sender is not forwarded. A reply has the message it replies to
/// looked up on the subscriber side first. Then the message is copied into the admin chat,
/// with the sender's profile control under it, as a reply to [`reply_target`] where there
/// is one. Once the copy is there, the message and the copy are linked.
pub open spec fn forward_step(admin_chat_id: i64, message: MessageView, progress: Progress) -> StepView {
    match message.user {
        None => StepView::NoUser,
        Some(user) => match progress {
            Progress::Received => match message.reply_to {
                Some(parent) => StepView::FindLink {
                    chat_id: parent.chat_id,
                    message_id: parent.id,
                    direction: MessageLinkDirection::Subscriber,
                },
                None => StepView::CopyMessage(
                    CopyMessageView {
                        chat_id: admin_chat_id,
                        from_chat_id: message.chat_id,
                        message_id: message.id,
                        reply_to_message_id: None,
                        reply_markup: Some(profile_button(user)),
                    },
                ),
            },
            Progress::Resolved(parent) => StepView::CopyMessage(
                CopyMessageView {
                    chat_id: admin_chat_id,
                    from_chat_id: message.chat_id,
                    message_id: message.id,
                    reply_to_message_id: reply_target(admin_chat_id, parent),
                    reply_markup: Some(profile_button(user)),
                },
            ),
            Progress::Copied { message_id, .. } => StepView::CreateLink(
                MessageLink {
                    subscriber_user_id: user.id,
                    subscriber_chat_id: message.chat_id,
                    subscriber_message_id: message.id,
                    admin_chat_id,
                    admin_message_id: message_id,
                },
            ),
        },
    }
}

/// Says what to do next for a subscriber's message, as [`forward_step`] describes it.
pub fn handle_message(admin_chat_id: i64, subscriber_message: &Message, progress: Progress) -> (r:
    Step)
    ensures
        r@ == forward_step(admin_chat_id, subscriber_message@, progress),
{
    let user = match &subscriber_message.user {
        Some(user) => user,
        None => {
            return Step::NoUser;
        },
    };
    let subscriber_chat_id = subscriber_message.chat_id;
    let reply_to_message_id = match progress {
        Progress::Received => match subscriber_message.reply_to {
            Some(parent) => {
                return Step::FindLink {
                    chat_id: parent.chat_id,
                    message_id: parent.id,
                    direction: MessageLinkDirection::Subscriber,
                };
            },
            None => None,
        },
        Progress::Resolved(parent) => match parent {
            Some(link) => if link.admin_chat_id() == admin_chat_id {
                Some(link.admin_message_id())
            } else {
                None
            },
            None => None,
        },
        Progress::Copied { parent: _, message_id } => {
            return Step::CreateLink(
                MessageLink::new(
                    user.id,
                    subscriber_chat_id,
                    subscriber_message.id,
                    admin_chat_id,
                    message_id,
                ),
            );
        },
    };
    Step::CopyMessage(
        CopyMessage {
            chat_id: admin_chat_id,
            from_chat_id: subscriber_chat_id,
            message_id: subscriber_message.id,
            reply_to_message_id,
            reply_markup: Some(user.profile_button()),
        },
    )
}

/// The greeting for a subscriber who starts the bot in the chat `chat_id`: the configured
/// text, sent as HTML; nothing where no greeting is configured.
pub fn handle_start(chat_id: i64, greeting: &Option<String>) -> (r: Option<SendMessage>)
    ensures
        match (r, *greeting) {
            (Some(message), Some(text)) => message@ == (SendMessageView {
                chat_id,
                text: text@,
                reply_to_message_id: None,
                html: true,
                reply_markup: None,
            }),
            (None, None) => true,
            _ => false,
        },
{
    match greeting {
        Some(text) => Some(
            SendMessage {
                chat_id,
                text: text.clone(),
                reply_to_message_id: None,
                html: true,
                reply_markup: None,
            },
        ),
        None => None,
    }
}

/// Why a subscriber's update was not handled.
#[derive(Clone, Copy, Debug, PartialEq, Eq, Structural)]
pub enum SubscriberError {
    /// The copy could not be sent.
    CopyMessage,
    /// The copy was sent, but its link could not be added.
    CreateLink(MessageLinkServiceError),
    /// The message replied to could not be looked up.
    FindLink(MessageLinkServiceError),
    /// The greeting could not be sent.
    Greet,
    /// The message names no sender.
    NoUser,
}

/// The error that a step comes to when it fails; it names what the step was about. The
/// step that finds no sender is an error as it stands.
pub open spec fn failure_of(step: StepView) -> Option<SubscriberError> {
    match step {
        StepView::FindLink { chat_id, message_id, direction } => Some(
            SubscriberError::FindLink(
                MessageLinkServiceError::Find { chat_id, message_id, direction },
            ),
        ),
        StepView::CopyMessage(_) => Some(SubscriberError::CopyMessage),
        StepView::CreateLink(link) => Some(
            SubscriberError::CreateLink(MessageLinkServiceError::Create { link }),
        ),
        StepView::NoUser => Some(SubscriberError::NoUser),
        StepView::Done => None,
    }
}

/// Says which error a step comes to when it fails, as [`failure_of`] describes it.
pub fn failure(step: &Step) -> (r: Option<SubscriberError>)
    ensures
        r == failure_of(step@),
{
    match step {
        Step::FindLink { chat_id, message_id, direction } => Some(
            SubscriberError::FindLink(
                MessageLinkServiceError::Find {
                    chat_id: *chat_id,
                    message_id: *message_id,
                    direction: *direction,
                },
            ),
        ),
        Step::CopyMessage(_) => Some(SubscriberError::CopyMessage),
        Step::CreateLink(link) => Some(
            SubscriberError::CreateLink(MessageLinkServiceError::Create { link: *link }),
        ),
        Step::NoUser => Some(SubscriberError::NoUser),
        Step::Done => None,
    }
}

/// What forwarding one message comes to, from its arrival to the end, on the link store
/// `links`, when the transport gives the copy the id `copied`, or fails to send it.
pub open spec fn forward_outcome(
    admin_chat_id: i64,
    message: MessageView,
    links: Seq<MessageLink>,
    copied: Option<i64>,
) -> Outcome {
    relay(|progress: Progress| forward_step(admin_chat_id, message, progress), links, copied)
}

/// Forwards one message on a link store held in memory, with the answer of the transport
/// given beforehand: takes the steps one after the other, and returns the copy that was
/// ordered, if one was.
pub fn forward(
    admin_chat_id: i64,
    subscriber_message: &Message,
    links: &mut MessageLinkService,
    copied: Option<i64>,
) -> (r: Option<CopyMessage>)
    requires
        old(links).wf(),
    ensures
        final(links).wf(),
        final(links)@ == forward_outcome(
            admin_chat_id,
            subscriber_message@,
            old(links)@,
            copied,
        ).links,
        copy_view(r) == forward_outcome(admin_chat_id, subscriber_message@, old(links)@, copied).sent,
{
    let first = handle_message(admin_chat_id, subscriber_message, Progress::Received);
    let (parent, second) = match first {
        Step::FindLink { chat_id, message_id, direction } => {
            let parent = links.find(chat_id, message_id, direction);
            (parent, handle_message(admin_chat_id, subscriber_message, Progress::Resolved(parent)))
        },
        other => (None, other),
    };
    match second {
        Step::CopyMessage(copy) => {
            match copied {
                Some(message_id) => {
                    let last = handle_message(
                        admin_chat_id,
                        subscriber_message,
                        Progress::Copied { parent, message_id },
                    );
                    match last {
                        Step::CreateLink(link) => {
                            let _ = links.create(link);
                        },
                        _ => {},
                    }
                },
                None => {},
            }
            Some(copy)
        },
        _ => None,
    }
}

/// The link of a message that was forwarded into the admin chat as the copy `copy_id`.
pub open spec fn forwarded_link(admin_chat_id: i64, message: MessageView, copy_id: i64) -> MessageLink {
    MessageLink {
        subscriber_user_id: message.user->0.id,
        subscriber_chat_id: message.chat_id,
        subscriber_message_id: message.id,
        admin_chat_id,
        admin_message_id: copy_id,
    }
}

/// The link store after the messages `messages` were forwarded one after the other, the
/// copy of each getting the id that stands at its place in `copies`.
pub open spec fn after_forwards(
    admin_chat_id: i64,
    links: Seq<MessageLink>,
    messages: Seq<MessageView>,
    copies: Seq<i64>,
) -> Seq<MessageLink>
    decreases messages.len(),
{
    if messages.len() == 0 || copies.len() == 0 {
        links
    } else {
        forward_outcome(
            admin_chat_id,
            messages.last(),
            after_forwards(admin_chat_id, links, messages.drop_last(), copies.drop_last()),
            Some(copies.last()),
        ).links
    }
}

/// Forwards add one link each at most, behind those that are there. Where as many links
/// were added as messages were forwarded, the link of each stands at its place.
proof fn lemma_after_forwards(
    admin_chat_id: i64,
    links: Seq<MessageLink>,
    messages: Seq<MessageView>,
    copies: Seq<i64>,
)
    requires
        links_unique(links),
        messages.len() == copies.len(),
    ensures
        ({
            let after = after_forwards(admin_chat_id, links, messages, copies);
            &&& links_unique(after)
            &&& links.len() <= after.len() <= links.len() + messages.len()
            &&& after.len() == links.len() + messages.len() ==> forall|j: int|
                0 <= j < messages.len() ==> #[trigger] after[links.len() + j] == forwarded_link(
                    admin_chat_id,
                    messages[j],
                    copies[j],
                )
        }),
    decreases messages.len(),
{
    if messages.len() > 0 {
        let front = messages.drop_last();
        let before = after_forwards(admin_chat_id, links, front, copies.drop_last());
        lemma_after_forwards(admin_chat_id, links, front, copies.drop_last());
        let after = after_forwards(admin_chat_id, links, messages, copies);
        let message = messages.last();
        if message.user is Some {
            let link = forwarded_link(admin_chat_id, message, copies.last());
            assert(after == store_after(before, link));
            lemma_store_after(before, link);
        } else {
            assert(after == before);
        }
        if after.len() == links.len() + messages.len() {
            assert forall|j: int| 0 <= j < messages.len() implies #[trigger] after[links.len() + j]
                == forwarded_link(admin_chat_id, messages[j], copies[j]) by {
                if j < front.len() {
                    assert(after[links.len() + j] == before[links.len() + j]);
                    assert(front[j] == messages[j]);
                    assert(copies.drop_last()[j] == copies[j]);
                }
            }
        }
    }
}

/// Forwards keep apart. After any number of forwards that added a link each, a lookup by
/// the copy of any of the messages, and a lookup by the message itself, returns the link
/// of that message and of no other, and it is the only link that the lookup matches.
pub proof fn lemma_forwards_keep_apart(
    admin_chat_id: i64,
    links: Seq<MessageLink>,
    messages: Seq<MessageView>,
    copies: Seq<i64>,
    k: int,
)
    requires
        links_unique(links),
        messages.len() == copies.len(),
        after_forwards(admin_chat_id, links, messages, copies).len() == links.len() + messages.len(),
        0 <= k < messages.len(),
    ensures
        ({
            let after = after_forwards(admin_chat_id, links, messages, copies);
            let link = forwarded_link(admin_chat_id, messages[k], copies[k]);
            &&& find_link(after, admin_chat_id, copies[k], MessageLinkDirection::Admin) == Some(link)
            &&& find_link(
                after,
                messages[k].chat_id,
                messages[k].id,
                MessageLinkDirection::Subscriber,
            ) == Some(link)
            &&& count_matches(after, admin_chat_id, copies[k], MessageLinkDirection::Admin) == 1
            &&& count_matches(
                after,
                messages[k].chat_id,
                messages[k].id,
                MessageLinkDirection::Subscriber,
            ) == 1
        }),
{
    lemma_after_forwards(admin_chat_id, links, messages, copies);
    let after = after_forwards(admin_chat_id, links, messages, copies);
    assert(after[links.len() + k] == forwarded_link(admin_chat_id, messages[k], copies[k]));
    lemma_each_link_found(after, links.len() + k);
}

} // verus!
