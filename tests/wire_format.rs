use gcm::json::decimal;
use gcm::{DataMap, Message, NotificationBuilder, Priority};

#[test]
fn bare_message_has_only_its_target() {
    assert_eq!(Message::new("token").to_json(), r#"{"to":"token"}"#);
}

#[test]
fn bare_message_with_bare_notification() {
    let nm = NotificationBuilder::new("title").finalize();
    let msg = Message::new("token").notification(nm);
    assert_eq!(
        msg.to_json(),
        r#"{"to":"token","notification":{"title":"title","icon":"myicon"}}"#
    );
}

#[test]
fn bare_notification_has_title_and_icon() {
    let nm = NotificationBuilder::new("title").finalize();
    assert_eq!(nm.to_json(), r#"{"title":"title","icon":"myicon"}"#);
}

#[test]
fn priority_normal_is_lower_case() {
    let msg = Message::new("token").priority(Priority::Normal);
    assert_eq!(msg.to_json(), r#"{"to":"token","priority":"normal"}"#);
    assert_eq!(Priority::Normal.wire_name(), "normal");
}

#[test]
fn priority_high_is_lower_case() {
    let msg = Message::new("token").priority(Priority::High);
    assert_eq!(msg.to_json(), r#"{"to":"token","priority":"high"}"#);
    assert_eq!(Priority::High.wire_name(), "high");
}

#[test]
fn every_message_field_in_order() {
    let mut data = DataMap::new();
    data.insert("my", "data");
    data.insert("second", "value");
    let nm = NotificationBuilder::new("hi").sound("ping").finalize();
    let msg = Message::new("/topics/news")
        .registration_ids(vec!["a", "b"])
        .collapse_key("k")
        .priority(Priority::Normal)
        .content_available(true)
        .delay_while_idle(false)
        .time_to_live(-5)
        .restricted_package_name("p")
        .dry_run(true)
        .data(data)
        .notification(nm);
    assert_eq!(
        msg.to_json(),
        [
            r#"{"to":"/topics/news","registration_ids":["a","b"],"collapse_key":"k","#,
            r#""priority":"normal","content_available":true,"delay_while_idle":false,"#,
            r#""time_to_live":-5,"restricted_package_name":"p","dry_run":true,"#,
            r#""data":{"my":"data","second":"value"},"#,
            r#""notification":{"title":"hi","icon":"myicon","sound":"ping"}}"#,
        ]
        .concat()
    );
}

#[test]
fn every_notification_field_in_order() {
    let nm = NotificationBuilder::new("t")
        .title_loc_args(vec!["x", "y"])
        .title_loc_key("tk")
        .body_loc_args(vec![])
        .body_loc_key("bk")
        .click_action("open")
        .color("#ff0000")
        .tag("g")
        .badge("2")
        .sound("s")
        .icon("i")
        .body("b")
        .finalize();
    assert_eq!(
        nm.to_json(),
        [
            r#"{"title":"t","body":"b","icon":"i","sound":"s","badge":"2","tag":"g","#,
            r##""color":"#ff0000","click_action":"open","body_loc_key":"bk","body_loc_args":[],"##,
            r#""title_loc_key":"tk","title_loc_args":["x","y"]}"#,
        ]
        .concat()
    );
}

#[test]
fn strings_are_escaped() {
    let nm = NotificationBuilder::new("a\"b\\c\nd\te\u{1}f/\u{e9}").finalize();
    assert_eq!(
        nm.to_json(),
        "{\"title\":\"a\\\"b\\\\c\\nd\\te\\u0001f/\u{e9}\",\"icon\":\"myicon\"}"
    );
}

#[test]
fn data_keys_and_values_are_escaped() {
    let mut data = DataMap::new();
    data.insert("k\"", "v\r");
    let msg = Message::new("t").data(data);
    assert_eq!(msg.to_json(), "{\"to\":\"t\",\"data\":{\"k\\\"\":\"v\\r\"}}");
}

#[test]
fn empty_data_is_an_empty_object() {
    let msg = Message::new("t").data(DataMap::new());
    assert_eq!(msg.to_json(), r#"{"to":"t","data":{}}"#);
}

#[test]
fn empty_registration_ids_are_an_empty_array() {
    let msg = Message::new("t").registration_ids(vec![]);
    assert_eq!(msg.to_json(), r#"{"to":"t","registration_ids":[]}"#);
}

#[test]
fn time_to_live_in_decimal() {
    let msg = Message::new("t").time_to_live(2419200);
    assert_eq!(msg.to_json(), r#"{"to":"t","time_to_live":2419200}"#);
    let msg = Message::new("t").time_to_live(0);
    assert_eq!(msg.to_json(), r#"{"to":"t","time_to_live":0}"#);
}

#[test]
fn decimal_extremes() {
    assert_eq!(decimal(0), "0");
    assert_eq!(decimal(7), "7");
    assert_eq!(decimal(10), "10");
    assert_eq!(decimal(-2147483648), "-2147483648");
    assert_eq!(decimal(i64::MIN), "-9223372036854775808");
    assert_eq!(decimal(i64::MAX), "9223372036854775807");
}

#[test]
fn registration_ids_keep_their_order() {
    let msg = Message::new("t").registration_ids(vec!["c", "a", "b"]);
    assert_eq!(
        msg.get_registration_ids(),
        Some(&vec!["c".to_string(), "a".to_string(), "b".to_string()])
    );
}

#[test]
fn fresh_message_has_no_option_set() {
    let msg = Message::new("token");
    assert_eq!(msg.get_to(), "token");
    assert_eq!(msg.get_registration_ids(), None);
    assert_eq!(msg.get_collapse_key(), None);
    assert_eq!(msg.get_priority(), None);
    assert_eq!(msg.get_content_available(), None);
    assert_eq!(msg.get_delay_while_idle(), None);
    assert_eq!(msg.get_time_to_live(), None);
    assert_eq!(msg.get_restricted_package_name(), None);
    assert_eq!(msg.get_dry_run(), None);
    assert!(msg.get_data().is_none());
    assert!(msg.get_notification().is_none());
}

#[test]
fn fresh_notification_has_only_title_and_icon() {
    let nm = NotificationBuilder::new("title").finalize();
    assert_eq!(nm.title(), "title");
    assert_eq!(nm.icon(), "myicon");
    assert_eq!(nm.body(), None);
    assert_eq!(nm.sound(), None);
    assert_eq!(nm.badge(), None);
    assert_eq!(nm.tag(), None);
    assert_eq!(nm.color(), None);
    assert_eq!(nm.click_action(), None);
    assert_eq!(nm.body_loc_key(), None);
    assert_eq!(nm.body_loc_args(), None);
    assert_eq!(nm.title_loc_key(), None);
    assert_eq!(nm.title_loc_args(), None);
}

#[test]
fn loc_args_keep_their_order() {
    let nm = NotificationBuilder::new("t")
        .body_loc_args(vec!["3", "1", "2"])
        .title_loc_args(vec!["z", "y"])
        .finalize();
    assert_eq!(
        nm.body_loc_args(),
        Some(&vec!["3".to_string(), "1".to_string(), "2".to_string()])
    );
    assert_eq!(nm.title_loc_args(), Some(&vec!["z".to_string(), "y".to_string()]));
}

#[test]
fn finalize_twice_gives_equal_notifications() {
    let mut builder = NotificationBuilder::new("title");
    builder.body("body").body_loc_args(vec!["a", "b"]).tag("t");
    let first = builder.finalize();
    let second = builder.finalize();
    assert_eq!(first, second);
    assert_eq!(first.to_json(), second.to_json());
}

#[test]
fn builder_goes_on_after_finalize() {
    let mut builder = NotificationBuilder::new("title");
    let first = builder.finalize();
    builder.body("later");
    let second = builder.finalize();
    assert_eq!(first.body(), None);
    assert_eq!(second.body(), Some("later"));
}

#[test]
fn later_setting_replaces_earlier() {
    let msg = Message::new("t").collapse_key("a").collapse_key("b");
    assert_eq!(msg.get_collapse_key(), Some("b"));
}

#[test]
fn data_map_replaces_value_in_place() {
    let mut data = DataMap::new();
    assert_eq!(data.insert("a", "1"), None);
    assert_eq!(data.insert("b", "2"), None);
    assert_eq!(data.insert("a", "3"), Some("1".to_string()));
    assert_eq!(data.len(), 2);
    assert_eq!(data.get("a"), Some(&"3".to_string()));
    assert_eq!(data.get("c"), None);
    assert_eq!(data.to_json(), r#"{"a":"3","b":"2"}"#);
}

#[test]
fn authorization_header_carries_the_key() {
    assert_eq!(Message::authorization("abc123"), "key=abc123");
}

#[test]
fn priority_stays_absent_after_other_setters() {
    let msg = Message::new("t")
        .collapse_key("k")
        .dry_run(false)
        .time_to_live(60)
        .content_available(true);
    let json = msg.to_json();
    assert!(!json.contains("priority"));
    assert_eq!(
        json,
        r#"{"to":"t","collapse_key":"k","content_available":true,"time_to_live":60,"dry_run":false}"#
    );
}
