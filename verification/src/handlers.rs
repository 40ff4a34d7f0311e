//! What the bot decides on each inbound update. The transport that delivers the updates
//! and carries the operations out is not part of the library: a handler is asked what to
//! do next, given what has come back so far, and answers with one step.

use crate::handlers::admin::message::answer_outcome;
use crate::handlers::admin::users::buttons_of;
use crate::handlers::admin::users::PageButton;
use crate::handlers::admin::users::PageButtonView;
use crate::handlers::subscriber::forward_outcome;
use crate::services::message_link::find_link;
use crate::services::message_link::lemma_each_link_found;
use crate::services::message_link::lemma_store_after;
use crate::services::message_link::links_unique;
use crate::services::message_link::store_after;
use crate::services::message_link::MessageLink;
use crate::services::message_link::MessageLinkDirection;
use crate::services::user::full_name;
use crate::services::user::user_link;
use crate::services::user::User;
use crate::services::user::UserView;
use vstd::prelude::*;

pub mod admin;
pub mod subscriber;

verus! {

/// Where a message stands: its chat and its id in that chat.
#[derive(Clone, Copy, Debug, PartialEq, Eq, Structural)]
pub struct MessageRef {
    pub chat_id: i64,
    pub id: i64,
}

/// What the relay reads of an inbound message.
#[derive(Debug)]
pub struct Message {
    pub id: i64,
    pub chat_id: i64,
    /// Who sent it, where the update says so.
    pub user: Option<User>,
    /// The message it replies to, if it is a reply.
    pub reply_to: Option<MessageRef>,
}

/// What a [`Message`] holds, as plain values.
pub struct MessageView {
    pub id: i64,
    pub chat_id: i64,
    pub user: Option<UserView>,
    pub reply_to: Option<MessageRef>,
}

impl View for Message {
    type V = MessageView;

    open spec fn view(&self) -> MessageView {
        MessageView {
            id: self.id,
            chat_id: self.chat_id,
            user: match self.user {
                Some(user) => Some(user@),
                None => None,
            },
            reply_to: self.reply_to,
        }
    }
}

/// A control that opens a link.
#[derive(Debug)]
pub struct UrlButton {
    pub text: String,
    pub url: String,
}

/// What a [`UrlButton`] holds, as plain values.
pub struct UrlButtonView {
    pub text: Seq<char>,
    pub url: Seq<char>,
}

impl View for UrlButton {
    type V = UrlButtonView;

    open spec fn view(&self) -> UrlButtonView {
        UrlButtonView { text: self.text@, url: self.url@ }
    }
}

/// The order to copy a message into another chat.
#[derive(Debug)]
pub struct CopyMessage {
    /// The chat that receives the copy.
    pub chat_id: i64,
    /// The chat that holds the message.
    pub from_chat_id: i64,
    pub message_id: i64,
    /// The message in the receiving chat that the copy replies to.
    pub reply_to_message_id: Option<i64>,
    /// A control under the copy.
    pub reply_markup: Option<UrlButton>,
}

/// What a [`CopyMessage`] holds, as plain values.
pub struct CopyMessageView {
    pub chat_id: i64,
    pub from_chat_id: i64,
    pub message_id: i64,
    pub reply_to_message_id: Option<i64>,
    pub reply_markup: Option<UrlButtonView>,
}

impl View for CopyMessage {
    type V = CopyMessageView;

    open spec fn view(&self) -> CopyMessageView {
        CopyMessageView {
            chat_id: self.chat_id,
            from_chat_id: self.from_chat_id,
            message_id: self.message_id,
            reply_to_message_id: self.reply_to_message_id,
            reply_markup: match self.reply_markup {
                Some(button) => Some(button@),
                None => None,
            },
        }
    }
}

/// The rows of a keyboard, each control as plain values.
pub open spec fn keyboard_view(keyboard: Seq<Vec<PageButton>>) -> Seq<Seq<PageButtonView>> {
    keyboard.map_values(|row: Vec<PageButton>| buttons_of(row@))
}

/// The keyboard under a message, if it has one.
pub open spec fn markup_view(markup: Option<Vec<Vec<PageButton>>>) -> Option<
    Seq<Seq<PageButtonView>>,
> {
    match markup {
        Some(keyboard) => Some(keyboard_view(keyboard@)),
        None => None,
    }
}

/// The order to send a text into a chat.
#[derive(Debug)]
pub struct SendMessage {
    pub chat_id: i64,
    pub text: String,
    /// The message in that chat that the text replies to.
    pub reply_to_message_id: Option<i64>,
    /// Whether the text is HTML.
    pub html: bool,
    /// The rows of controls under the text.
    pub reply_markup: Option<Vec<Vec<PageButton>>>,
}

/// What a [`SendMessage`] holds, as plain values.
pub struct SendMessageView {
    pub chat_id: i64,
    pub text: Seq<char>,
    pub reply_to_message_id: Option<i64>,
    pub html: bool,
    pub reply_markup: Option<Seq<Seq<PageButtonView>>>,
}

impl View for SendMessage {
    type V = SendMessageView;

    open spec fn view(&self) -> SendMessageView {
        SendMessageView {
            chat_id: self.chat_id,
            text: self.text@,
            reply_to_message_id: self.reply_to_message_id,
            html: self.html,
            reply_markup: markup_view(self.reply_markup),
        }
    }
}

/// The order to replace the text of a message that the bot has sent.
#[derive(Debug)]
pub struct EditMessageText {
    pub chat_id: i64,
    pub message_id: i64,
    pub text: String,
    /// Whether the text is HTML.
    pub html: bool,
    /// The rows of controls under the text.
    pub reply_markup: Option<Vec<Vec<PageButton>>>,
}

/// What an [`EditMessageText`] holds, as plain values.
pub struct EditMessageTextView {
    pub chat_id: i64,
    pub message_id: i64,
    pub text: Seq<char>,
    pub html: bool,
    pub reply_markup: Option<Seq<Seq<PageButtonView>>>,
}

impl View for EditMessageText {
    type V = EditMessageTextView;

    open spec fn view(&self) -> EditMessageTextView {
        EditMessageTextView {
            chat_id: self.chat_id,
            message_id: self.message_id,
            text: self.text@,
            html: self.html,
            reply_markup: markup_view(self.reply_markup),
        }
    }
}

/// How far the relaying of one message has come.
#[derive(Clone, Copy, Debug, PartialEq, Eq, Structural)]
pub enum Progress {
    /// The message has arrived; nothing was done yet.
    Received,
    /// The lookup of the message replied to has returned this.
    Resolved(Option<MessageLink>),
    /// The copy was sent and has this id in the receiving chat. `parent` is what the
    /// lookup had returned, if one was made.
    Copied { parent: Option<MessageLink>, message_id: i64 },
}

/// What to do next for a message that is being relayed.
#[derive(Debug)]
pub enum Step {
    /// Look up the link of this message on this side.
    FindLink { chat_id: i64, message_id: i64, direction: MessageLinkDirection },
    /// Send this copy.
    CopyMessage(CopyMessage),
    /// Add this link to the store; the relaying ends with it.
    CreateLink(MessageLink),
    /// Nothing: the message has no destination.
    Done,
    /// Nothing can be done: the message names no sender.
    NoUser,
}

/// What a [`Step`] holds, as plain values.
pub enum StepView {
    FindLink { chat_id: i64, message_id: i64, direction: MessageLinkDirection },
    CopyMessage(CopyMessageView),
    CreateLink(MessageLink),
    Done,
    NoUser,
}

impl View for Step {
    type V = StepView;

    open spec fn view(&self) -> StepView {
        match *self {
            Step::FindLink { chat_id, message_id, direction } => StepView::FindLink {
                chat_id,
                message_id,
                direction,
            },
            Step::CopyMessage(copy) => StepView::CopyMessage(copy@),
            Step::CreateLink(link) => StepView::CreateLink(link),
            Step::Done => StepView::Done,
            Step::NoUser => StepView::NoUser,
        }
    }
}

/// Where the control under a forwarded message leads: to the user's public page where they
/// have a username, else to their profile by id.
pub open spec fn profile_url(user: UserView) -> Seq<char> {
    match user.username {
        Some(username) => "t.me/"@ + username,
        None => user_link(user.id),
    }
}

/// The control under a forwarded message: the sender's name, leading to their profile.
pub open spec fn profile_button(user: UserView) -> UrlButtonView {
    UrlButtonView { text: full_name(user.first_name, user.last_name), url: profile_url(user) }
}

impl User {
    /// The control that stands under a message forwarded from this user.
    pub fn profile_button(&self) -> (r: UrlButton)
        ensures
            r@ == profile_button(self@),
    {
        let url = match &self.username {
            Some(username) => String::from_str("t.me/").concat(username.as_str()),
            None => self.get_link(),
        };
        UrlButton { text: self.get_full_name(), url }
    }
}

/// The copy that was ordered, if one was, as plain values.
pub open spec fn copy_view(copy: Option<CopyMessage>) -> Option<CopyMessageView> {
    match copy {
        Some(copy) => Some(copy@),
        None => None,
    }
}

/// What the relaying of one message leaves behind.
pub struct Outcome {
    /// The copy that was ordered, if one was.
    pub sent: Option<CopyMessageView>,
    /// The link store afterwards.
    pub links: Seq<MessageLink>,
}

/// Relays one message from its arrival to the end: asks `handler` for each step, answers a
/// lookup from `links`, and a copy with `copied`, the id the transport gave to the copy, or
/// nothing where the transport failed.
pub open spec fn relay(
    handler: spec_fn(Progress) -> StepView,
    links: Seq<MessageLink>,
    copied: Option<i64>,
) -> Outcome {
    let first = handler(Progress::Received);
    let parent = match first {
        StepView::FindLink { chat_id, message_id, direction } => find_link(
            links,
            chat_id,
            message_id,
            direction,
        ),
        _ => None,
    };
    let second = match first {
        StepView::FindLink { .. } => handler(Progress::Resolved(parent)),
        _ => first,
    };
    match second {
        StepView::CopyMessage(copy) => match copied {
            Some(message_id) => match handler(Progress::Copied { parent, message_id }) {
                StepView::CreateLink(link) => Outcome {
                    sent: Some(copy),
                    links: store_after(links, link),
                },
                _ => Outcome { sent: Some(copy), links },
            },
            None => Outcome { sent: Some(copy), links },
        },
        _ => Outcome { sent: None, links },
    }
}

/// Replies reach the message they answer. Let a subscriber's message be forwarded and its
/// link added. Then a lookup of the copy on the admin side finds the coordinates of the
/// message, and an admin's reply to the copy is copied into the subscriber's chat as a
/// reply to the message.
pub proof fn lemma_reply_reaches_message(
    links: Seq<MessageLink>,
    admin_chat_id: i64,
    message: MessageView,
    copy_id: i64,
    reply: MessageView,
    answered: Option<i64>,
)
    requires
        links_unique(links),
        message.user is Some,
        forward_outcome(admin_chat_id, message, links, Some(copy_id)).links.len() == links.len() + 1,
        reply.reply_to == Some(MessageRef { chat_id: admin_chat_id, id: copy_id }),
    ensures
        ({
            let after = forward_outcome(admin_chat_id, message, links, Some(copy_id)).links;
            let back = answer_outcome(reply, after, answered);
            &&& links_unique(after)
            &&& find_link(after, admin_chat_id, copy_id, MessageLinkDirection::Admin) matches Some(
                link,
            ) && link.subscriber_chat_id == message.chat_id && link.subscriber_message_id
                == message.id
            &&& back.sent matches Some(copy) && copy.chat_id == message.chat_id
                && copy.reply_to_message_id == Some(message.id) && copy.message_id == reply.id
        }),
{
    let link = MessageLink {
        subscriber_user_id: message.user->0.id,
        subscriber_chat_id: message.chat_id,
        subscriber_message_id: message.id,
        admin_chat_id,
        admin_message_id: copy_id,
    };
    let after = forward_outcome(admin_chat_id, message, links, Some(copy_id)).links;
    assert(after == store_after(links, link));
    lemma_store_after(links, link);
    assert(after[links.len() as int] == link);
    lemma_each_link_found(after, links.len() as int);
}

/// An admin's reply to a message without a link goes nowhere: nothing is sent and the
/// link store stays as it is. The same holds of an admin's message that is no reply.
pub proof fn lemma_unlinked_reply_is_dropped(
    links: Seq<MessageLink>,
    reply: MessageView,
    answered: Option<i64>,
)
    requires
        reply.reply_to matches Some(parent) ==> find_link(
            links,
            parent.chat_id,
            parent.id,
            MessageLinkDirection::Admin,
        ) is None,
    ensures
        answer_outcome(reply, links, answered) == (Outcome { sent: None, links }),
{
}

} // verus!
