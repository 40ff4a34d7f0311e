use vincent::services::column_index;
use vincent::services::message_link::find_statement;
use vincent::services::message_link::insert_statement;
use vincent::services::message_link::MessageLink;
use vincent::services::message_link::MessageLinkDirection;
use vincent::services::message_link::MessageLinkService;
use vincent::services::message_link::MessageLinkServiceError;

#[test]
fn link_keeps_its_five_values() {
    let link = MessageLink::new(1, 2, 3, 4, 5);
    assert_eq!(link.subscriber_user_id(), 1);
    assert_eq!(link.subscriber_chat_id(), 2);
    assert_eq!(link.subscriber_message_id(), 3);
    assert_eq!(link.admin_chat_id(), 4);
    assert_eq!(link.admin_message_id(), 5);
    assert_eq!(link.params(), [1, 2, 3, 4, 5]);
}

#[test]
fn link_matches_by_side() {
    let link = MessageLink::new(1, 2, 3, 4, 5);
    assert!(link.is_match(4, 5, MessageLinkDirection::Admin));
    assert!(link.is_match(2, 3, MessageLinkDirection::Subscriber));
    assert!(!link.is_match(2, 3, MessageLinkDirection::Admin));
    assert!(!link.is_match(4, 5, MessageLinkDirection::Subscriber));
    assert!(!link.is_match(4, 6, MessageLinkDirection::Admin));
}

#[test]
fn empty_store_finds_nothing() {
    let store = MessageLinkService::new();
    assert_eq!(store.len(), 0);
    assert_eq!(store.find(1, 1, MessageLinkDirection::Admin), None);
    assert_eq!(store.find(1, 1, MessageLinkDirection::Subscriber), None);
}

#[test]
fn find_looks_on_the_side_asked_for() {
    let mut store = MessageLinkService::new();
    let link = MessageLink::new(7, 70, 1, -100, 900);
    assert_eq!(store.create(link), Ok(()));
    assert_eq!(store.find(-100, 900, MessageLinkDirection::Admin), Some(link));
    assert_eq!(store.find(70, 1, MessageLinkDirection::Subscriber), Some(link));
    assert_eq!(store.find(70, 1, MessageLinkDirection::Admin), None);
    assert_eq!(store.find(-100, 900, MessageLinkDirection::Subscriber), None);
}

#[test]
fn each_forward_is_found_by_its_own_pairs_only() {
    let mut store = MessageLinkService::new();
    let mut links = Vec::new();
    for n in 0..20 {
        let link = MessageLink::new(7 + n % 3, 70 + n % 3, n, -100, 900 + n);
        assert_eq!(store.create(link), Ok(()));
        links.push(link);
    }
    assert_eq!(store.len(), 20);
    for link in links {
        assert_eq!(
            store.find(link.admin_chat_id(), link.admin_message_id(), MessageLinkDirection::Admin),
            Some(link)
        );
        assert_eq!(
            store.find(link.subscriber_chat_id(), link.subscriber_message_id(), MessageLinkDirection::Subscriber),
            Some(link)
        );
    }
    assert_eq!(store.find(-100, 920, MessageLinkDirection::Admin), None);
}

#[test]
fn store_refuses_a_second_link_for_a_message() {
    let mut store = MessageLinkService::new();
    let first = MessageLink::new(7, 70, 1, -100, 900);
    assert_eq!(store.create(first), Ok(()));
    let same_admin_side = MessageLink::new(8, 80, 2, -100, 900);
    assert_eq!(
        store.create(same_admin_side),
        Err(MessageLinkServiceError::Create { link: same_admin_side })
    );
    let same_subscriber_side = MessageLink::new(7, 70, 1, -100, 901);
    assert_eq!(
        store.create(same_subscriber_side),
        Err(MessageLinkServiceError::Create { link: same_subscriber_side })
    );
    assert_eq!(store.len(), 1);
    assert_eq!(store.find(-100, 900, MessageLinkDirection::Admin), Some(first));
    assert_eq!(store.find(80, 2, MessageLinkDirection::Subscriber), None);
}

#[test]
fn same_message_id_in_another_chat_is_another_message() {
    let mut store = MessageLinkService::new();
    let first = MessageLink::new(7, 70, 1, -100, 900);
    let second = MessageLink::new(8, 80, 1, -100, 901);
    assert_eq!(store.create(first), Ok(()));
    assert_eq!(store.create(second), Ok(()));
    assert_eq!(store.find(70, 1, MessageLinkDirection::Subscriber), Some(first));
    assert_eq!(store.find(80, 1, MessageLinkDirection::Subscriber), Some(second));
}

#[test]
fn direction_names() {
    assert_eq!(MessageLinkDirection::Admin.name(), "admin");
    assert_eq!(MessageLinkDirection::Subscriber.name(), "subscriber");
}

#[test]
fn link_statements() {
    assert_eq!(
        insert_statement(),
        "INSERT INTO message_links (subscriber_user_id, subscriber_chat_id, subscriber_message_id, admin_chat_id, admin_message_id) VALUES ($1, $2, $3, $4, $5)"
    );
    assert_eq!(
        find_statement(MessageLinkDirection::Admin),
        "SELECT * FROM message_links WHERE admin_chat_id = $1 AND admin_message_id = $2"
    );
    assert_eq!(
        find_statement(MessageLinkDirection::Subscriber),
        "SELECT * FROM message_links WHERE subscriber_chat_id = $1 AND subscriber_message_id = $2"
    );
}

#[test]
fn column_is_found_by_name() {
    let columns = vec![
        String::from("id"),
        String::from("subscriber_chat_id"),
        String::from("admin_chat_id"),
    ];
    assert_eq!(column_index(&columns, "id"), Some(0));
    assert_eq!(column_index(&columns, "admin_chat_id"), Some(2));
    assert_eq!(column_index(&columns, "admin_message_id"), None);
    assert_eq!(column_index(&Vec::new(), "id"), None);
}

#[test]
fn last_column_of_a_name_wins() {
    let columns = vec![String::from("id"), String::from("name"), String::from("id")];
    assert_eq!(column_index(&columns, "id"), Some(2));
    assert_eq!(column_index(&columns, "name"), Some(1));
}
