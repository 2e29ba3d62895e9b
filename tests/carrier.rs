use aws_messaging_trace::attributes::{AttributeSet, AttributeValue};
use aws_messaging_trace::carrier::{MessageAttributesExtractor, MessageAttributesInjector};

fn make_attr(value: &str) -> AttributeValue {
    AttributeValue::text(value.to_string())
}

#[test]
fn test_injector_sets_string_attribute() {
    let mut attrs = AttributeSet::new();
    let mut injector = MessageAttributesInjector(&mut attrs);

    injector.set("traceparent", "00-abc123-def456-01".to_string());

    assert!(attrs.contains_key("traceparent"));
    let attr = attrs.get("traceparent").unwrap();
    assert_eq!(attr.data_type(), "String");
    assert_eq!(attr.string_value(), Some("00-abc123-def456-01"));
}

#[test]
fn test_injector_overwrites_existing_key() {
    let mut attrs = AttributeSet::new();
    let mut injector = MessageAttributesInjector(&mut attrs);

    injector.set("key", "value1".to_string());
    injector.set("key", "value2".to_string());

    assert_eq!(attrs.len(), 1);
    assert_eq!(attrs.get("key").unwrap().string_value(), Some("value2"));
}

#[test]
fn test_extractor_gets_existing_key() {
    let mut attrs = AttributeSet::new();
    attrs.insert("traceparent".to_string(), make_attr("00-abc123-def456-01"));

    let extractor = MessageAttributesExtractor(&attrs);

    assert_eq!(extractor.get("traceparent"), Some("00-abc123-def456-01"));
}

#[test]
fn test_extractor_returns_none_for_missing_key() {
    let attrs = AttributeSet::new();
    let extractor = MessageAttributesExtractor(&attrs);

    assert_eq!(extractor.get("nonexistent"), None);
}

#[test]
fn test_extractor_keys_returns_all_keys() {
    let mut attrs = AttributeSet::new();
    attrs.insert("key1".to_string(), make_attr("value1"));
    attrs.insert("key2".to_string(), make_attr("value2"));

    let extractor = MessageAttributesExtractor(&attrs);
    let mut keys = extractor.keys();
    keys.sort();

    assert_eq!(keys, vec!["key1", "key2"]);
}

#[test]
fn injected_value_reads_back() {
    let mut attrs = AttributeSet::new();
    MessageAttributesInjector(&mut attrs).set("tracestate", "dd=s:1".to_string());
    MessageAttributesInjector(&mut attrs).set("traceparent", "00-aaaa-bbbb-01".to_string());
    let extractor = MessageAttributesExtractor(&attrs);
    assert_eq!(extractor.get("traceparent"), Some("00-aaaa-bbbb-01"));
    assert_eq!(extractor.get("tracestate"), Some("dd=s:1"));
}

#[test]
fn overwrite_keeps_other_entries() {
    let mut attrs = AttributeSet::new();
    let mut injector = MessageAttributesInjector(&mut attrs);
    injector.set("a", "1".to_string());
    injector.set("k", "v1".to_string());
    injector.set("k", "v2".to_string());
    assert_eq!(attrs.len(), 2);
    let extractor = MessageAttributesExtractor(&attrs);
    assert_eq!(extractor.get("k"), Some("v2"));
    assert_eq!(extractor.get("a"), Some("1"));
}

#[test]
fn empty_value_round_trips() {
    let mut attrs = AttributeSet::new();
    MessageAttributesInjector(&mut attrs).set("baggage", String::new());
    assert_eq!(MessageAttributesExtractor(&attrs).get("baggage"), Some(""));
}

#[test]
fn binary_attribute_is_not_read_as_text() {
    let mut attrs = AttributeSet::new();
    attrs.insert("blob".to_string(), AttributeValue::binary(vec![1, 2, 3]));
    let extractor = MessageAttributesExtractor(&attrs);
    assert_eq!(extractor.get("blob"), None);
    assert_eq!(extractor.keys(), vec!["blob"]);
}

#[test]
fn non_text_type_with_string_value_is_absent() {
    let mut attrs = AttributeSet::new();
    let number = AttributeValue {
        data_type: "Number".to_string(),
        string_value: Some("42".to_string()),
        binary_value: None,
    };
    attrs.insert("count".to_string(), number);
    let extractor = MessageAttributesExtractor(&attrs);
    assert_eq!(extractor.get("count"), None);
    assert_eq!(attrs.get("count").unwrap().string_value(), Some("42"));
}

#[test]
fn keys_have_no_duplicates_whatever_the_order() {
    let mut first = AttributeSet::new();
    first.insert("x".to_string(), make_attr("1"));
    first.insert("y".to_string(), make_attr("2"));
    first.insert("x".to_string(), make_attr("3"));
    let mut second = AttributeSet::new();
    second.insert("y".to_string(), make_attr("2"));
    second.insert("x".to_string(), make_attr("3"));
    let mut a = MessageAttributesExtractor(&first).keys();
    let mut b = MessageAttributesExtractor(&second).keys();
    a.sort();
    b.sort();
    assert_eq!(a, vec!["x", "y"]);
    assert_eq!(a, b);
}

#[test]
fn keys_of_empty_set_is_empty() {
    let attrs = AttributeSet::new();
    assert!(MessageAttributesExtractor(&attrs).keys().is_empty());
    assert_eq!(attrs.len(), 0);
    assert!(!attrs.contains_key(""));
}
