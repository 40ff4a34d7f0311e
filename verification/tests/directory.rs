use vincent::services::user::count_statement;
use vincent::services::user::list_statement;
use vincent::services::user::page_offset;
use vincent::services::user::User;
use vincent::services::user::UserBlockFilter;
use vincent::services::user::UserInfo;
use vincent::services::user::UserInfoList;
use vincent::services::user::UserService;
use vincent::services::user::UserServiceError;
use vincent::services::user::ITEMS_PER_PAGE;
use vincent::time::Timestamp;

fn at(seconds: i64) -> Timestamp {
    Timestamp::from_micros(seconds * 1_000_000).unwrap()
}

fn user(id: i64, first_name: &str) -> User {
    User {
        id,
        first_name: String::from(first_name),
        last_name: None,
        username: None,
    }
}

fn ids(list: &UserInfoList) -> Vec<i64> {
    list.items().iter().map(|item| item.id).collect()
}

fn directory_of(count: i64) -> UserService {
    let mut users = UserService::new();
    for n in 1..=count {
        assert!(users.save(user(n, "User"), at(1000 + n)).is_ok());
    }
    users
}

#[test]
fn page_size_is_five() {
    assert_eq!(ITEMS_PER_PAGE, 5);
}

#[test]
fn first_sighting_adds_a_row() {
    let mut users = UserService::new();
    assert!(!users.is_exists(1));
    let seen = User {
        id: 1,
        first_name: String::from("Ann"),
        last_name: Some(String::from("Lee")),
        username: Some(String::from("ann")),
    };
    assert!(users.save(seen, at(1000)).is_ok());
    assert!(users.is_exists(1));
    let list = users.get_list(1, UserBlockFilter::All);
    assert_eq!(list.total_items(), 1);
    let row = &list.items()[0];
    assert_eq!(row.id, 1);
    assert_eq!(row.first_name, "Ann");
    assert_eq!(row.last_name, Some(String::from("Lee")));
    assert_eq!(row.username, Some(String::from("ann")));
    assert_eq!(row.created_at.micros(), 1_000_000_000);
    assert!(row.updated_at.is_none());
    assert!(!row.is_blocked);
}

#[test]
fn second_sighting_updates_the_one_row() {
    let mut users = UserService::new();
    assert!(users.save(user(1, "Ann"), at(1000)).is_ok());
    assert!(users.save(user(1, "Ann"), at(2000)).is_ok());
    let list = users.get_list(1, UserBlockFilter::All);
    assert_eq!(list.total_items(), 1);
    assert_eq!(list.items().len(), 1);
    let row = &list.items()[0];
    assert_eq!(row.id, 1);
    assert_eq!(row.first_name, "Ann");
    assert_eq!(row.last_name, None);
    assert_eq!(row.username, None);
    assert_eq!(row.created_at.micros(), 1_000_000_000);
    assert_eq!(row.updated_at.map(|time| time.micros()), Some(2_000_000_000));
    assert!(!row.is_blocked);
}

#[test]
fn later_sighting_takes_the_new_names_and_keeps_the_block() {
    let mut users = UserService::new();
    assert!(users.save(user(1, "Ann"), at(1000)).is_ok());
    assert!(users.block(1));
    let renamed = User {
        id: 1,
        first_name: String::from("Anna"),
        last_name: Some(String::from("Lee")),
        username: Some(String::from("anna")),
    };
    assert!(users.save(renamed, at(3000)).is_ok());
    let list = users.get_list(1, UserBlockFilter::All);
    let row = &list.items()[0];
    assert_eq!(row.first_name, "Anna");
    assert_eq!(row.last_name, Some(String::from("Lee")));
    assert_eq!(row.username, Some(String::from("anna")));
    assert_eq!(row.created_at.micros(), 1_000_000_000);
    assert_eq!(row.updated_at.map(|time| time.micros()), Some(3_000_000_000));
    assert!(row.is_blocked);
}

#[test]
fn unknown_user_has_no_block_state() {
    let users = directory_of(2);
    match users.is_blocked(9) {
        Err(UserServiceError::UnknownUser { user_id }) => assert_eq!(user_id, 9),
        other => panic!("unexpected answer: {:?}", other),
    }
}

#[test]
fn block_and_unblock_say_whether_the_user_is_known() {
    let mut users = directory_of(2);
    assert!(matches!(users.is_blocked(1), Ok(false)));
    assert!(users.block(1));
    assert!(matches!(users.is_blocked(1), Ok(true)));
    assert!(matches!(users.is_blocked(2), Ok(false)));
    assert!(users.block(1));
    assert!(matches!(users.is_blocked(1), Ok(true)));
    assert!(users.unblock(1));
    assert!(matches!(users.is_blocked(1), Ok(false)));
    assert!(!users.block(9));
    assert!(!users.unblock(9));
    assert!(!users.is_exists(9));
    assert_eq!(users.count(UserBlockFilter::All), 2);
}

#[test]
fn set_block_sets_either_state() {
    let mut users = directory_of(1);
    assert!(users.set_block(1, true));
    assert!(matches!(users.is_blocked(1), Ok(true)));
    assert!(users.set_block(1, false));
    assert!(matches!(users.is_blocked(1), Ok(false)));
    assert!(!users.set_block(2, true));
}

#[test]
fn listing_is_newest_first() {
    let mut users = UserService::new();
    assert!(users.save(user(1, "A"), at(2000)).is_ok());
    assert!(users.save(user(2, "B"), at(1000)).is_ok());
    assert!(users.save(user(3, "C"), at(3000)).is_ok());
    assert!(users.save(user(4, "D"), at(2000)).is_ok());
    let list = users.get_list(1, UserBlockFilter::All);
    assert_eq!(ids(&list), vec![3, 4, 1, 2]);
}

#[test]
fn twelve_users_fill_three_pages() {
    let users = directory_of(12);
    let first = users.get_list(1, UserBlockFilter::All);
    assert_eq!(first.page_number(), 1);
    assert_eq!(first.total_items(), 12);
    assert_eq!(first.total_pages(), 3);
    assert_eq!(ids(&first), vec![12, 11, 10, 9, 8]);
    let second = users.get_list(2, UserBlockFilter::All);
    assert_eq!(ids(&second), vec![7, 6, 5, 4, 3]);
    let third = users.get_list(3, UserBlockFilter::All);
    assert_eq!(ids(&third), vec![2, 1]);
    assert_eq!(third.total_items(), 12);
    assert_eq!(third.total_pages(), 3);
}

#[test]
fn page_out_of_range_is_empty_with_the_totals() {
    let users = directory_of(12);
    for page_number in [4, 5, 100, i64::MAX, 0, -1, i64::MIN] {
        let list = users.get_list(page_number, UserBlockFilter::All);
        assert_eq!(ids(&list), Vec::<i64>::new());
        assert_eq!(list.page_number(), page_number);
        assert_eq!(list.total_items(), 12);
        assert_eq!(list.total_pages(), 3);
        assert_eq!(list.block_filter(), UserBlockFilter::All);
    }
}

#[test]
fn count_and_page_go_by_the_same_filter() {
    let mut users = directory_of(12);
    for id in [2, 4, 6, 8, 10, 12, 11] {
        assert!(users.block(id));
    }
    assert_eq!(users.count(UserBlockFilter::All), 12);
    assert_eq!(users.count(UserBlockFilter::True), 7);
    assert_eq!(users.count(UserBlockFilter::False), 5);
    let blocked = users.get_list(1, UserBlockFilter::True);
    assert_eq!(blocked.total_items(), 7);
    assert_eq!(blocked.total_pages(), 2);
    assert_eq!(blocked.block_filter(), UserBlockFilter::True);
    assert_eq!(ids(&blocked), vec![12, 11, 10, 8, 6]);
    let rest = users.get_list(2, UserBlockFilter::True);
    assert_eq!(ids(&rest), vec![4, 2]);
    let free = users.get_list(1, UserBlockFilter::False);
    assert_eq!(free.total_items(), 5);
    assert_eq!(free.total_pages(), 1);
    assert_eq!(ids(&free), vec![9, 7, 5, 3, 1]);
    assert_eq!(ids(&users.get_list(2, UserBlockFilter::False)), Vec::<i64>::new());
}

#[test]
fn empty_directory_lists_nothing() {
    let users = UserService::new();
    let list = users.get_list(1, UserBlockFilter::All);
    assert_eq!(list.total_items(), 0);
    assert_eq!(list.total_pages(), 0);
    assert_eq!(list.items().len(), 0);
    assert_eq!(list.render(), "");
}

#[test]
fn pages_round_up() {
    let expected: Vec<(i64, i64)> = vec![
        (0, 0),
        (1, 1),
        (4, 1),
        (5, 1),
        (6, 2),
        (10, 2),
        (11, 3),
        (12, 3),
        (i64::MAX, 1844674407370955162),
        (-1, 0),
        (-4, 0),
        (-5, -1),
        (-6, -1),
        (i64::MIN, -1844674407370955161),
    ];
    for (total_items, pages) in expected {
        let list = UserInfoList::new(Vec::new(), 1, total_items, UserBlockFilter::All);
        assert_eq!(list.total_pages(), pages);
        assert_eq!(list.total_items(), total_items);
    }
}

#[test]
fn list_keeps_what_it_was_made_with() {
    let row = UserInfo {
        id: 3,
        first_name: String::from("Cy"),
        last_name: None,
        username: None,
        created_at: at(5),
        updated_at: None,
        is_blocked: true,
    };
    let list = UserInfoList::new(vec![row], 7, 31, UserBlockFilter::True);
    assert_eq!(list.page_number(), 7);
    assert_eq!(list.total_items(), 31);
    assert_eq!(list.total_pages(), 7);
    assert_eq!(list.block_filter(), UserBlockFilter::True);
    assert_eq!(list.items().len(), 1);
    assert_eq!(list.items()[0].id, 3);
}

#[test]
fn offset_of_a_page() {
    assert_eq!(page_offset(1), Some(0));
    assert_eq!(page_offset(2), Some(5));
    assert_eq!(page_offset(3), Some(10));
    assert_eq!(page_offset(0), None);
    assert_eq!(page_offset(-1), None);
    assert_eq!(page_offset(1844674407370955162), Some(9223372036854775805));
    assert_eq!(page_offset(1844674407370955163), None);
    assert_eq!(page_offset(i64::MAX), None);
}

#[test]
fn filter_clauses() {
    assert_eq!(UserBlockFilter::All.as_sql(), "");
    assert_eq!(UserBlockFilter::False.as_sql(), "WHERE is_blocked IS FALSE");
    assert_eq!(UserBlockFilter::True.as_sql(), "WHERE is_blocked IS TRUE");
}

#[test]
fn filter_admits_by_block_state() {
    assert!(UserBlockFilter::All.passes(true));
    assert!(UserBlockFilter::All.passes(false));
    assert!(UserBlockFilter::True.passes(true));
    assert!(!UserBlockFilter::True.passes(false));
    assert!(!UserBlockFilter::False.passes(true));
    assert!(UserBlockFilter::False.passes(false));
}

#[test]
fn filter_tokens() {
    assert_eq!(UserBlockFilter::try_from(None).unwrap(), UserBlockFilter::All);
    assert_eq!(
        UserBlockFilter::try_from(Some(&String::from("blocked"))).unwrap(),
        UserBlockFilter::True
    );
    assert_eq!(
        UserBlockFilter::try_from(Some(&String::from("!blocked"))).unwrap(),
        UserBlockFilter::False
    );
}

#[test]
fn unknown_filter_token_is_handed_back() {
    for token in ["", "Blocked", "blocked ", "all", "True"] {
        let error = UserBlockFilter::try_from(Some(&String::from(token))).unwrap_err();
        assert_eq!(error.0, token);
        assert_eq!(error.message(), format!("unknown filter value: {}", token));
    }
}

#[test]
fn user_statements() {
    assert_eq!(
        list_statement(UserBlockFilter::All),
        "SELECT * FROM users  ORDER BY created_at DESC LIMIT $1 OFFSET $2"
    );
    assert_eq!(
        list_statement(UserBlockFilter::True),
        "SELECT * FROM users WHERE is_blocked IS TRUE ORDER BY created_at DESC LIMIT $1 OFFSET $2"
    );
    assert_eq!(
        list_statement(UserBlockFilter::False),
        "SELECT * FROM users WHERE is_blocked IS FALSE ORDER BY created_at DESC LIMIT $1 OFFSET $2"
    );
    assert_eq!(count_statement(UserBlockFilter::All), "SELECT COUNT(*) FROM users ");
    assert_eq!(
        count_statement(UserBlockFilter::False),
        "SELECT COUNT(*) FROM users WHERE is_blocked IS FALSE"
    );
}

#[test]
fn user_copies_are_equal_in_every_field() {
    let first = User {
        id: 4,
        first_name: String::from("Di"),
        last_name: Some(String::from("Ng")),
        username: None,
    };
    let copy = first.clone();
    assert_eq!(copy.id, 4);
    assert_eq!(copy.first_name, "Di");
    assert_eq!(copy.last_name, Some(String::from("Ng")));
    assert_eq!(copy.username, None);
}
