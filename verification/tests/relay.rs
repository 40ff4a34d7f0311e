use vincent::handlers::admin::block;
use vincent::handlers::admin::message;
use vincent::handlers::admin::message::MessageError;
use vincent::handlers::admin::unblock;
use vincent::handlers::admin::BlockProgress;
use vincent::handlers::admin::BlockStep;
use vincent::handlers::admin::MESSAGE_NOT_FOUND;
use vincent::handlers::admin::MESSAGE_OK;
use vincent::handlers::subscriber;
use vincent::handlers::subscriber::SubscriberError;
use vincent::handlers::CopyMessage;
use vincent::handlers::Message;
use vincent::handlers::MessageRef;
use vincent::handlers::Progress;
use vincent::handlers::Step;
use vincent::services::message_link::MessageLink;
use vincent::services::message_link::MessageLinkDirection;
use vincent::services::message_link::MessageLinkService;
use vincent::services::message_link::MessageLinkServiceError;
use vincent::services::user::User;
use vincent::services::user::UserService;
use vincent::services::user::UserServiceError;
use vincent::time::Timestamp;

const ADMIN: i64 = -100;

fn ann() -> User {
    User {
        id: 7,
        first_name: String::from("Ann"),
        last_name: Some(String::from("Lee")),
        username: Some(String::from("ann")),
    }
}

fn from_subscriber(id: i64, reply_to: Option<i64>) -> Message {
    Message {
        id,
        chat_id: 70,
        user: Some(ann()),
        reply_to: reply_to.map(|id| MessageRef { chat_id: 70, id }),
    }
}

fn from_admin(id: i64, reply_to: Option<i64>) -> Message {
    Message {
        id,
        chat_id: ADMIN,
        user: Some(User {
            id: 1,
            first_name: String::from("Admin"),
            last_name: None,
            username: None,
        }),
        reply_to: reply_to.map(|id| MessageRef { chat_id: ADMIN, id }),
    }
}

fn forward(links: &mut MessageLinkService, message: &Message, copied: Option<i64>) -> Option<CopyMessage> {
    subscriber::forward(ADMIN, message, links, copied)
}

fn answer(links: &mut MessageLinkService, reply: &Message, copied: Option<i64>) -> Option<CopyMessage> {
    message::answer(reply, links, copied)
}

#[test]
fn profile_control_leads_to_the_public_page() {
    let button = ann().profile_button();
    assert_eq!(button.text, "Ann Lee");
    assert_eq!(button.url, "t.me/ann");
    assert_eq!(ann().get_full_name(), "Ann Lee");
    assert_eq!(ann().get_link(), "tg://user?id=7");
}

#[test]
fn profile_control_falls_back_to_the_id() {
    let user = User {
        id: 42,
        first_name: String::from("Bo"),
        last_name: None,
        username: None,
    };
    let button = user.profile_button();
    assert_eq!(button.text, "Bo");
    assert_eq!(button.url, "tg://user?id=42");
}

#[test]
fn plain_message_is_copied_and_linked() {
    let mut links = MessageLinkService::new();
    let copy = forward(&mut links, &from_subscriber(1, None), Some(900)).unwrap();
    assert_eq!(copy.chat_id, ADMIN);
    assert_eq!(copy.from_chat_id, 70);
    assert_eq!(copy.message_id, 1);
    assert_eq!(copy.reply_to_message_id, None);
    let button = copy.reply_markup.unwrap();
    assert_eq!(button.text, "Ann Lee");
    assert_eq!(button.url, "t.me/ann");
    assert_eq!(links.len(), 1);
    assert_eq!(
        links.find(ADMIN, 900, MessageLinkDirection::Admin),
        Some(MessageLink::new(7, 70, 1, ADMIN, 900))
    );
}

#[test]
fn plain_message_needs_no_lookup() {
    match subscriber::handle_message(ADMIN, &from_subscriber(1, None), Progress::Received) {
        Step::CopyMessage(copy) => assert_eq!(copy.reply_to_message_id, None),
        other => panic!("unexpected step: {:?}", other),
    }
}

#[test]
fn reply_of_a_subscriber_is_looked_up_on_their_side() {
    match subscriber::handle_message(ADMIN, &from_subscriber(2, Some(1)), Progress::Received) {
        Step::FindLink { chat_id, message_id, direction } => {
            assert_eq!((chat_id, message_id), (70, 1));
            assert_eq!(direction, MessageLinkDirection::Subscriber);
        }
        other => panic!("unexpected step: {:?}", other),
    }
}

#[test]
fn reply_of_a_subscriber_answers_the_copy_of_its_parent() {
    let mut links = MessageLinkService::new();
    forward(&mut links, &from_subscriber(1, None), Some(900)).unwrap();
    let copy = forward(&mut links, &from_subscriber(2, Some(1)), Some(901)).unwrap();
    assert_eq!(copy.reply_to_message_id, Some(900));
    assert_eq!(copy.message_id, 2);
    assert_eq!(
        links.find(70, 2, MessageLinkDirection::Subscriber),
        Some(MessageLink::new(7, 70, 2, ADMIN, 901))
    );
}

#[test]
fn reply_to_an_unlinked_message_is_forwarded_plain() {
    let mut links = MessageLinkService::new();
    let copy = forward(&mut links, &from_subscriber(2, Some(1)), Some(901)).unwrap();
    assert_eq!(copy.reply_to_message_id, None);
    assert_eq!(links.len(), 1);
}

#[test]
fn link_into_another_admin_chat_counts_as_none() {
    let mut links = MessageLinkService::new();
    assert!(links.create(MessageLink::new(7, 70, 1, -200, 900)).is_ok());
    let copy = forward(&mut links, &from_subscriber(2, Some(1)), Some(901)).unwrap();
    assert_eq!(copy.chat_id, ADMIN);
    assert_eq!(copy.reply_to_message_id, None);
}

#[test]
fn message_without_sender_is_not_forwarded() {
    let mut links = MessageLinkService::new();
    let message = Message { id: 1, chat_id: 70, user: None, reply_to: None };
    for progress in [
        Progress::Received,
        Progress::Resolved(None),
        Progress::Copied { parent: None, message_id: 5 },
    ] {
        let step = subscriber::handle_message(ADMIN, &message, progress);
        assert!(matches!(step, Step::NoUser));
        assert_eq!(subscriber::failure(&step), Some(SubscriberError::NoUser));
    }
    assert!(forward(&mut links, &message, Some(900)).is_none());
    assert_eq!(links.len(), 0);
}

#[test]
fn steps_taken_by_hand_come_to_the_same() {
    let mut by_hand = MessageLinkService::new();
    let mut at_once = MessageLinkService::new();
    assert!(by_hand.create(MessageLink::new(7, 70, 1, ADMIN, 900)).is_ok());
    assert!(at_once.create(MessageLink::new(7, 70, 1, ADMIN, 900)).is_ok());
    let message = from_subscriber(2, Some(1));
    let parent = match subscriber::handle_message(ADMIN, &message, Progress::Received) {
        Step::FindLink { chat_id, message_id, direction } => by_hand.find(chat_id, message_id, direction),
        other => panic!("unexpected step: {:?}", other),
    };
    let copy = match subscriber::handle_message(ADMIN, &message, Progress::Resolved(parent)) {
        Step::CopyMessage(copy) => copy,
        other => panic!("unexpected step: {:?}", other),
    };
    match subscriber::handle_message(ADMIN, &message, Progress::Copied { parent, message_id: 901 }) {
        Step::CreateLink(link) => assert!(by_hand.create(link).is_ok()),
        other => panic!("unexpected step: {:?}", other),
    }
    let same = forward(&mut at_once, &message, Some(901)).unwrap();
    assert_eq!(copy.chat_id, same.chat_id);
    assert_eq!(copy.from_chat_id, same.from_chat_id);
    assert_eq!(copy.message_id, same.message_id);
    assert_eq!(copy.reply_to_message_id, same.reply_to_message_id);
    assert_eq!(by_hand.len(), at_once.len());
    assert_eq!(
        by_hand.find(ADMIN, 901, MessageLinkDirection::Admin),
        at_once.find(ADMIN, 901, MessageLinkDirection::Admin)
    );
}

#[test]
fn copy_that_cannot_be_linked_is_still_sent() {
    let mut links = MessageLinkService::new();
    forward(&mut links, &from_subscriber(1, None), Some(900)).unwrap();
    // the transport hands out an id that is taken already
    let copy = forward(&mut links, &from_subscriber(2, None), Some(900));
    assert!(copy.is_some());
    assert_eq!(links.len(), 1);
    assert_eq!(links.find(70, 2, MessageLinkDirection::Subscriber), None);
}

#[test]
fn failed_copy_leaves_no_link() {
    let mut links = MessageLinkService::new();
    let copy = forward(&mut links, &from_subscriber(1, None), None);
    assert!(copy.is_some());
    assert_eq!(links.len(), 0);
}

#[test]
fn admin_reply_reaches_the_message() {
    let mut links = MessageLinkService::new();
    forward(&mut links, &from_subscriber(1, None), Some(900)).unwrap();
    let found = links.find(ADMIN, 900, MessageLinkDirection::Admin).unwrap();
    assert_eq!(found.subscriber_chat_id(), 70);
    assert_eq!(found.subscriber_message_id(), 1);
    let copy = answer(&mut links, &from_admin(950, Some(900)), Some(3)).unwrap();
    assert_eq!(copy.chat_id, 70);
    assert_eq!(copy.from_chat_id, ADMIN);
    assert_eq!(copy.message_id, 950);
    assert_eq!(copy.reply_to_message_id, Some(1));
    assert!(copy.reply_markup.is_none());
    assert_eq!(links.len(), 2);
    assert_eq!(
        links.find(70, 3, MessageLinkDirection::Subscriber),
        Some(MessageLink::new(7, 70, 3, ADMIN, 950))
    );
}

#[test]
fn conversation_threads_both_ways() {
    let mut links = MessageLinkService::new();
    forward(&mut links, &from_subscriber(1, None), Some(900)).unwrap();
    answer(&mut links, &from_admin(950, Some(900)), Some(2)).unwrap();
    // the subscriber replies to the admin's answer
    let copy = forward(&mut links, &from_subscriber(3, Some(2)), Some(951)).unwrap();
    assert_eq!(copy.reply_to_message_id, Some(950));
    // and the admin replies to that
    let copy = answer(&mut links, &from_admin(952, Some(951)), Some(4)).unwrap();
    assert_eq!(copy.chat_id, 70);
    assert_eq!(copy.reply_to_message_id, Some(3));
    assert_eq!(links.len(), 4);
}

#[test]
fn admin_reply_to_an_unlinked_message_is_dropped() {
    let mut links = MessageLinkService::new();
    forward(&mut links, &from_subscriber(1, None), Some(900)).unwrap();
    let reply = from_admin(950, Some(899));
    assert!(answer(&mut links, &reply, Some(3)).is_none());
    assert_eq!(links.len(), 1);
    assert!(matches!(message::handle(&reply, Progress::Resolved(None)), Step::Done));
    assert_eq!(message::failure(&Step::Done), None);
}

#[test]
fn admin_message_that_is_no_reply_is_dropped() {
    let mut links = MessageLinkService::new();
    let note = from_admin(950, None);
    assert!(matches!(message::handle(&note, Progress::Received), Step::Done));
    assert!(answer(&mut links, &note, Some(3)).is_none());
    assert_eq!(links.len(), 0);
}

#[test]
fn admin_reply_is_looked_up_on_the_admin_side() {
    match message::handle(&from_admin(950, Some(900)), Progress::Received) {
        Step::FindLink { chat_id, message_id, direction } => {
            assert_eq!((chat_id, message_id), (ADMIN, 900));
            assert_eq!(direction, MessageLinkDirection::Admin);
        }
        other => panic!("unexpected step: {:?}", other),
    }
}

#[test]
fn failed_relay_step_names_its_error() {
    let find = Step::FindLink { chat_id: 1, message_id: 2, direction: MessageLinkDirection::Admin };
    let source = MessageLinkServiceError::Find { chat_id: 1, message_id: 2, direction: MessageLinkDirection::Admin };
    assert_eq!(message::failure(&find), Some(MessageError::FindLink(source)));
    assert_eq!(subscriber::failure(&find), Some(SubscriberError::FindLink(source)));
    let link = MessageLink::new(1, 2, 3, 4, 5);
    let create = Step::CreateLink(link);
    let source = MessageLinkServiceError::Create { link };
    assert_eq!(message::failure(&create), Some(MessageError::CreateLink(source)));
    assert_eq!(subscriber::failure(&create), Some(SubscriberError::CreateLink(source)));
    let copy = Step::CopyMessage(CopyMessage {
        chat_id: 1,
        from_chat_id: 2,
        message_id: 3,
        reply_to_message_id: None,
        reply_markup: None,
    });
    assert_eq!(message::failure(&copy), Some(MessageError::ExecuteCopy));
    assert_eq!(subscriber::failure(&copy), Some(SubscriberError::CopyMessage));
    assert_eq!(subscriber::failure(&Step::Done), None);
    assert_eq!(message::failure(&Step::NoUser), None);
}

#[test]
fn greeting_is_sent_where_there_is_one() {
    let greeting = Some(String::from("<b>Hello</b>"));
    let message = subscriber::handle_start(70, &greeting).unwrap();
    assert_eq!(message.chat_id, 70);
    assert_eq!(message.text, "<b>Hello</b>");
    assert_eq!(message.reply_to_message_id, None);
    assert!(message.html);
    assert!(message.reply_markup.is_none());
    assert!(subscriber::handle_start(70, &None).is_none());
}

fn notice(step: BlockStep) -> (i64, String, Option<i64>) {
    match step {
        BlockStep::SendMessage(message) => {
            assert!(!message.html);
            assert!(message.reply_markup.is_none());
            (message.chat_id, message.text, message.reply_to_message_id)
        }
        other => panic!("unexpected step: {:?}", other),
    }
}

#[test]
fn block_command_blocks_the_sender_of_the_forwarded_message() {
    let mut links = MessageLinkService::new();
    let mut users = UserService::new();
    assert!(users.save(ann(), Timestamp::from_micros(0).unwrap()).is_ok());
    forward(&mut links, &from_subscriber(1, None), Some(900)).unwrap();
    let command = from_admin(960, Some(900));
    let link = match block::handle(ADMIN, &command, BlockProgress::Received) {
        BlockStep::FindLink { chat_id, message_id, direction } => {
            assert_eq!(direction, MessageLinkDirection::Admin);
            links.find(chat_id, message_id, direction)
        }
        other => panic!("unexpected step: {:?}", other),
    };
    let found = match block::handle(ADMIN, &command, BlockProgress::Resolved(link)) {
        BlockStep::SetBlock { user_id, value } => {
            assert_eq!(user_id, 7);
            assert!(value);
            users.set_block(user_id, value)
        }
        other => panic!("unexpected step: {:?}", other),
    };
    assert!(found);
    assert!(matches!(users.is_blocked(7), Ok(true)));
    assert_eq!(
        notice(block::handle(ADMIN, &command, BlockProgress::Applied(found))),
        (ADMIN, String::from("OK"), Some(960))
    );
}

#[test]
fn block_command_answers_not_found() {
    let command = from_admin(960, None);
    assert_eq!(
        notice(block::handle(ADMIN, &command, BlockProgress::Received)),
        (ADMIN, String::from("Not found"), Some(960))
    );
    let command = from_admin(960, Some(900));
    assert_eq!(
        notice(block::handle(ADMIN, &command, BlockProgress::Resolved(None))),
        (ADMIN, String::from("Not found"), Some(960))
    );
    assert_eq!(
        notice(block::handle(ADMIN, &command, BlockProgress::Applied(false))),
        (ADMIN, String::from("Not found"), Some(960))
    );
    assert_eq!(MESSAGE_OK, "OK");
    assert_eq!(MESSAGE_NOT_FOUND, "Not found");
}

#[test]
fn unblock_command_by_reply() {
    let command = from_admin(961, Some(900));
    let args: Vec<String> = Vec::new();
    match unblock::handle(ADMIN, &command, &args, BlockProgress::Received) {
        BlockStep::FindLink { chat_id, message_id, direction } => {
            assert_eq!((chat_id, message_id), (ADMIN, 900));
            assert_eq!(direction, MessageLinkDirection::Admin);
        }
        other => panic!("unexpected step: {:?}", other),
    }
    let link = MessageLink::new(7, 70, 1, ADMIN, 900);
    match unblock::handle(ADMIN, &command, &args, BlockProgress::Resolved(Some(link))) {
        BlockStep::SetBlock { user_id, value } => {
            assert_eq!(user_id, 7);
            assert!(!value);
        }
        other => panic!("unexpected step: {:?}", other),
    }
    assert_eq!(
        notice(unblock::handle(ADMIN, &command, &args, BlockProgress::Resolved(None))),
        (ADMIN, String::from("Not found"), Some(961))
    );
    assert_eq!(
        notice(unblock::handle(ADMIN, &command, &args, BlockProgress::Applied(true))),
        (ADMIN, String::from("OK"), Some(961))
    );
    assert_eq!(
        notice(unblock::handle(ADMIN, &command, &args, BlockProgress::Applied(false))),
        (ADMIN, String::from("Not found"), Some(961))
    );
}

#[test]
fn unblock_command_by_user_id() {
    let command = from_admin(961, None);
    let args = vec![String::from("7"), String::from("ignored")];
    match unblock::handle(ADMIN, &command, &args, BlockProgress::Received) {
        BlockStep::SetBlock { user_id, value } => {
            assert_eq!(user_id, 7);
            assert!(!value);
        }
        other => panic!("unexpected step: {:?}", other),
    }
    let args = vec![String::from("-12")];
    match unblock::handle(ADMIN, &command, &args, BlockProgress::Received) {
        BlockStep::SetBlock { user_id, value } => {
            assert_eq!(user_id, -12);
            assert!(!value);
        }
        other => panic!("unexpected step: {:?}", other),
    }
}

#[test]
fn unblock_command_with_a_bad_argument_tells_the_admin() {
    let command = from_admin(961, Some(900));
    for arg in ["seven", "7.0", "", "99999999999999999999"] {
        let args = vec![String::from(arg)];
        assert_eq!(
            notice(unblock::handle(ADMIN, &command, &args, BlockProgress::Received)),
            (ADMIN, String::from("Invalid User ID"), Some(961))
        );
    }
}

#[test]
fn unblock_command_that_names_nobody_tells_the_admin() {
    let command = from_admin(961, None);
    let args: Vec<String> = Vec::new();
    assert_eq!(
        notice(unblock::handle(ADMIN, &command, &args, BlockProgress::Received)),
        (ADMIN, String::from("User ID is required"), Some(961))
    );
}

#[test]
fn failed_block_step_names_its_error() {
    let find = BlockStep::FindLink { chat_id: 1, message_id: 2, direction: MessageLinkDirection::Admin };
    let source = MessageLinkServiceError::Find { chat_id: 1, message_id: 2, direction: MessageLinkDirection::Admin };
    match block::failure(&find) {
        block::BlockError::GetLink(error) => assert_eq!(error, source),
        other => panic!("unexpected error: {:?}", other),
    }
    match unblock::failure(&find) {
        unblock::UnblockError::GetLink(error) => assert_eq!(error, source),
        other => panic!("unexpected error: {:?}", other),
    }
    let set = BlockStep::SetBlock { user_id: 7, value: true };
    match block::failure(&set) {
        block::BlockError::SetBlock(UserServiceError::SetBlock { user_id, value }) => {
            assert_eq!(user_id, 7);
            assert!(value);
        }
        other => panic!("unexpected error: {:?}", other),
    }
    let lift = BlockStep::SetBlock { user_id: 7, value: false };
    match unblock::failure(&lift) {
        unblock::UnblockError::SetBlock(UserServiceError::SetBlock { user_id, value }) => {
            assert_eq!(user_id, 7);
            assert!(!value);
        }
        other => panic!("unexpected error: {:?}", other),
    }
    let send = block::handle(ADMIN, &from_admin(1, None), BlockProgress::Received);
    assert!(matches!(block::failure(&send), block::BlockError::SendMessage));
    assert!(matches!(unblock::failure(&send), unblock::UnblockError::SendMessage));
}
