use nowplaying::monitoring::{
    client_directives, client_level, program_directives, program_level, DefaultLevel, LogMessage,
    MessageVisitor,
};
use nowplaying::registry::Registry;
use nowplaying::text::{joined, same_text, starts_with};

#[test]
fn fields_follow_the_message() {
    let mut visitor = MessageVisitor::new();
    visitor.record_debug("message", "started");
    visitor.record_str("name", "vlc");
    visitor.record_debug("count", "Some(3)");
    assert_eq!(visitor.text, "started name=vlc count=Some(3)");
}

#[test]
fn fields_without_a_message_begin_at_once() {
    let mut visitor = MessageVisitor::new();
    visitor.record_str("name", "vlc");
    visitor.record_str("message", "late");
    assert_eq!(visitor.text, "name=vlclate");
    let mut visitor = MessageVisitor::new();
    visitor.record_debug("count", "3");
    visitor.record_debug("size", "4");
    assert_eq!(visitor.text, "count=3 size=4");
}

fn log(secs: i64, nanos: u32) -> Option<LogMessage> {
    LogMessage::at("INFO".to_string(), "target".to_string(), "text".to_string(), secs, nanos)
}

#[test]
fn log_messages_bear_their_time() {
    let message = log(1_431_648_000, 0).unwrap();
    assert_eq!(message.level, "INFO");
    assert_eq!(message.target, "target");
    assert_eq!(message.message, "text");
    assert_eq!(message.timestamp, "2015-05-15T00:00:00+00:00");
    assert_eq!(log(0, 1).unwrap().timestamp, "1970-01-01T00:00:00.000000001+00:00");
    assert_eq!(log(253_402_300_799, 0).unwrap().timestamp, "9999-12-31T23:59:59+00:00");
}

#[test]
fn times_out_of_range_have_no_message() {
    assert!(log(i64::MAX, 0).is_none());
    assert!(log(0, 2_000_000_000).is_none());
}

#[test]
fn a_log_message_is_its_parts() {
    let message = LogMessage::new(
        "WARN".to_string(),
        "t".to_string(),
        "m".to_string(),
        "now".to_string(),
    );
    assert_eq!(message.level, "WARN");
    assert_eq!(message.timestamp, "now");
}

#[test]
fn directives_are_chosen() {
    let some = |text: &str| Some(text.to_string());
    assert_eq!(client_directives(some("a"), some("b")), "a");
    assert_eq!(client_directives(None, some("b")), "b");
    assert_eq!(client_directives(None, None), "n_nowplaying=info,nowplaying=info");
    assert_eq!(program_directives(some("b"), true), "b");
    assert_eq!(program_directives(None, true), "nowplaying=trace");
    assert_eq!(program_directives(None, false), "nowplaying=info");
    assert_eq!(program_level(true), DefaultLevel::Trace);
    assert_eq!(program_level(false), DefaultLevel::Info);
    assert_eq!(client_level(), DefaultLevel::Info);
}

#[test]
fn texts_are_compared_by_characters() {
    assert!(starts_with("größer", "grö"));
    assert!(starts_with("abc", ""));
    assert!(!starts_with("ab", "abc"));
    assert!(!starts_with("xbc", "ab"));
    assert!(same_text("größer", "größer"));
    assert!(!same_text("grö", "größer"));
    assert_eq!(joined("a", "b"), "ab");
}

#[test]
fn a_registry_keeps_one_handle_per_name() {
    let mut registry: Registry<u32> = Registry::new();
    assert_eq!(registry.insert("a".to_string(), 1), None);
    assert_eq!(registry.insert("b".to_string(), 2), None);
    assert_eq!(registry.insert("a".to_string(), 3), Some(1));
    assert_eq!(registry.len(), 2);
    assert_eq!(registry.get("a"), Some(&3));
    assert_eq!(registry.get("c"), None);
    assert!(registry.contains("b"));
    assert_eq!(registry.recipients(&None), vec![&3, &2]);
    assert_eq!(registry.recipients(&Some("b".to_string())), vec![&2]);
    assert_eq!(registry.remove("a"), Some(3));
    assert_eq!(registry.remove("a"), None);
    assert_eq!(registry.insert("c".to_string(), 4), None);
    assert_eq!(registry.retain(&vec!["c".to_string()]), vec![2]);
    assert_eq!(registry.take_all(), vec![4]);
    assert_eq!(registry.len(), 0);
}
