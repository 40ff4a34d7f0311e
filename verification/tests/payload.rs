use serde_json::Value;
use vincent::handlers::admin::users::Page;
use vincent::services::user::UserBlockFilter;

fn filters() -> Vec<(UserBlockFilter, &'static str)> {
    vec![
        (UserBlockFilter::All, "All"),
        (UserBlockFilter::False, "False"),
        (UserBlockFilter::True, "True"),
    ]
}

#[test]
fn payload_is_json_with_the_number_and_the_filter() {
    for number in [0, 1, 7, -7, 1234567890123, i64::MAX, i64::MIN] {
        for (block_filter, name) in filters() {
            let text = Page { number, block_filter }.encode();
            let value: Value = serde_json::from_str(&text).unwrap();
            let mut expected = serde_json::Map::new();
            expected.insert(String::from("number"), Value::from(number));
            expected.insert(String::from("block_filter"), Value::from(name));
            assert_eq!(value, Value::Object(expected));
        }
    }
}

#[test]
fn payload_is_made_of_what_a_json_writer_gives_for_each_member() {
    for number in [0, 5, -5, i64::MAX, i64::MIN] {
        for (block_filter, name) in filters() {
            let written = format!(
                "{{{}:{},{}:{}}}",
                serde_json::to_string("number").unwrap(),
                serde_json::to_string(&number).unwrap(),
                serde_json::to_string("block_filter").unwrap(),
                serde_json::to_string(name).unwrap()
            );
            assert_eq!(Page { number, block_filter }.encode(), written);
            assert_eq!(Page::decode(&written), Some(Page { number, block_filter }));
        }
    }
}

#[test]
fn payload_fits_into_a_control() {
    // a control carries 64 bytes at most
    for (block_filter, _) in filters() {
        assert!(Page { number: i64::MIN, block_filter }.encode().len() <= 64);
        assert!(Page { number: i64::MAX, block_filter }.encode().len() <= 64);
    }
}
