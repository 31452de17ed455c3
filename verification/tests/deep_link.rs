use outclash_lifecycle::context::LifecycleContext;
use outclash_lifecycle::deep_link::{
    capture_early_deep_link_from_args, dedup_key, is_deep_link_argument, subscription_parameter,
    take_early_deep_link, DedupEntry, DeepLinkDedupRecord, DeepLinkEvent, EarlyDeepLink, DEDUP_WINDOW_MS,
};
use outclash_lifecycle::link::{first_query_value, last_query_value, ParsedLink};
use outclash_lifecycle::text::{has_prefix, same_text};

fn pair(key: &str, value: &str) -> (String, String) {
    (key.to_string(), value.to_string())
}

fn strings(items: &[&str]) -> Vec<String> {
    items.iter().map(|s| s.to_string()).collect()
}

#[test]
fn text_helpers() {
    assert!(same_text("", ""));
    assert!(same_text("url", "url"));
    assert!(!same_text("url", "urL"));
    assert!(!same_text("url", "ur"));
    assert!(has_prefix("clash://x", "clash://"));
    assert!(has_prefix("abc", ""));
    assert!(has_prefix("abc", "abc"));
    assert!(!has_prefix("ab", "abc"));
    assert!(!has_prefix("xclash://", "clash://"));
    assert!(has_prefix("héllo", "hé"));
}

#[test]
fn recognizes_deep_link_arguments() {
    assert!(is_deep_link_argument("clash://install-config?url=a"));
    assert!(is_deep_link_argument("koala-clash://x"));
    assert!(is_deep_link_argument("outclash://"));
    assert!(!is_deep_link_argument("clash:/x"));
    assert!(!is_deep_link_argument("https://example.com"));
    assert!(!is_deep_link_argument("--clash://x"));
    assert!(!is_deep_link_argument(""));
}

#[test]
fn capture_takes_first_matching_argument() {
    let mut slot = EarlyDeepLink::new();
    let args = strings(&["/usr/bin/app", "--flag", "outclash://a?url=1", "clash://b"]);
    assert!(capture_early_deep_link_from_args(&mut slot, &args));
    assert_eq!(slot.pending.as_deref(), Some("outclash://a?url=1"));
}

#[test]
fn capture_without_link_keeps_slot() {
    let mut slot = EarlyDeepLink { pending: Some("clash://kept".to_string()) };
    let args = strings(&["/usr/bin/app", "--flag"]);
    assert!(!capture_early_deep_link_from_args(&mut slot, &args));
    assert_eq!(slot.pending.as_deref(), Some("clash://kept"));
    let mut empty = EarlyDeepLink::new();
    assert!(!capture_early_deep_link_from_args(&mut empty, &Vec::new()));
    assert_eq!(empty.pending, None);
}

#[test]
fn early_link_is_taken_once() {
    let mut slot = EarlyDeepLink::new();
    assert_eq!(take_early_deep_link(&mut slot), None);
    let args = strings(&["app", "koala-clash://x?url=u"]);
    capture_early_deep_link_from_args(&mut slot, &args);
    assert_eq!(take_early_deep_link(&mut slot), Some("koala-clash://x?url=u".to_string()));
    assert_eq!(slot.pending, None);
    assert_eq!(take_early_deep_link(&mut slot), None);
}

#[test]
fn query_values_first_and_last() {
    let link = ParsedLink {
        scheme: "clash".to_string(),
        query: vec![pair("url", "first"), pair("name", "n"), pair("url", "second")],
    };
    assert_eq!(first_query_value(&link, "url"), Some("first".to_string()));
    assert_eq!(last_query_value(&link, "url"), Some("second".to_string()));
    assert_eq!(first_query_value(&link, "name"), Some("n".to_string()));
    assert_eq!(last_query_value(&link, "name"), Some("n".to_string()));
    assert_eq!(first_query_value(&link, "missing"), None);
    assert_eq!(last_query_value(&link, "missing"), None);
    assert_eq!(subscription_parameter(&link), Some("first".to_string()));
    let bare = ParsedLink { scheme: "clash".to_string(), query: Vec::new() };
    assert_eq!(subscription_parameter(&bare), None);
}

#[test]
fn dedup_key_is_decoded_url_parameter() {
    assert_eq!(dedup_key("outclash://x?url=https%3A%2F%2Fa.b%2Fc&name=N"), "https://a.b/c");
    assert_eq!(dedup_key("clash://install-config?name=N&url=https://e.com/s"), "https://e.com/s");
}

#[test]
fn dedup_key_uses_first_url_parameter() {
    assert_eq!(dedup_key("clash://x?url=one&url=two"), "one");
}

#[test]
fn dedup_key_decodes_a_second_time() {
    assert_eq!(dedup_key("clash://x?url=https%253A%252F%252Fa.b"), "https://a.b");
    assert_eq!(dedup_key("clash://x?url=a%2Bb"), "a+b");
    assert_eq!(dedup_key("clash://x?url=a+b"), "a b");
}

#[test]
fn dedup_key_falls_back_to_raw_string() {
    assert_eq!(dedup_key("clash://x"), "clash://x");
    assert_eq!(dedup_key("clash://x?name=N"), "clash://x?name=N");
    assert_eq!(dedup_key("not a url at all"), "not a url at all");
    assert_eq!(dedup_key(""), "");
    assert_eq!(dedup_key("[\"clash://x?url=u\"]"), "[\"clash://x?url=u\"]");
}

#[test]
fn event_carries_raw_url_and_key() {
    let event = DeepLinkEvent::new("outclash://i?url=https%3A%2F%2Fexample.com%2Fsub&name=MyProfile".to_string());
    assert_eq!(event.raw_url, "outclash://i?url=https%3A%2F%2Fexample.com%2Fsub&name=MyProfile");
    assert_eq!(event.dedup_key, "https://example.com/sub");
}

#[test]
fn dedup_window_is_five_seconds() {
    assert_eq!(DEDUP_WINDOW_MS, 5000);
}

#[test]
fn same_key_within_five_seconds_is_dropped() {
    let mut record = DeepLinkDedupRecord::new();
    assert!(record.check_in("k", 1000));
    assert!(!record.check_in("k", 1000));
    assert!(!record.check_in("k", 5999));
    assert_eq!(record.last, Some(DedupEntry { key: "k".to_string(), seen_at: 1000 }));
}

#[test]
fn same_key_after_five_seconds_is_delivered() {
    let mut record = DeepLinkDedupRecord::new();
    assert!(record.check_in("k", 1000));
    assert!(record.check_in("k", 6000));
    assert_eq!(record.last, Some(DedupEntry { key: "k".to_string(), seen_at: 6000 }));
}

#[test]
fn dropped_event_does_not_refresh_the_slot() {
    let mut record = DeepLinkDedupRecord::new();
    assert!(record.check_in("k", 0));
    assert!(!record.check_in("k", 4000));
    assert!(record.check_in("k", 6000));
}

#[test]
fn other_key_overwrites_the_slot() {
    let mut record = DeepLinkDedupRecord::new();
    assert!(record.check_in("a", 0));
    assert!(record.check_in("b", 100));
    assert!(record.check_in("a", 200));
    assert_eq!(record.last, Some(DedupEntry { key: "a".to_string(), seen_at: 200 }));
}

#[test]
fn earlier_clock_reading_counts_as_no_time_passed() {
    let mut record = DeepLinkDedupRecord::new();
    assert!(record.check_in("k", 9000));
    assert!(!record.check_in("k", 10));
}

#[test]
fn context_starts_empty() {
    let context = LifecycleContext::new(42);
    assert!(!context.readiness.ready);
    assert!(!context.window_guard.in_progress);
    assert_eq!(context.window_guard.started_at, 42);
    assert_eq!(context.dedup.last, None);
    assert_eq!(context.early_link.pending, None);
    assert_eq!(context.version.version, None);
}
