use aws_messaging_trace::payload::{unwrap_envelope, Decoded, Payload};

fn sample() -> Payload {
    Payload {
        id: 1,
        content: "hello".to_string(),
        timestamp: "2024-01-01T00:00:00Z".to_string(),
    }
}

fn expect_payload(d: Decoded) -> Payload {
    match d {
        Decoded::Payload(p) => p,
        Decoded::Raw(s) => panic!("expected a payload, got raw text {}", s),
    }
}

fn expect_raw(d: Decoded) -> String {
    match d {
        Decoded::Payload(p) => panic!("expected raw text, got payload {}", p.id),
        Decoded::Raw(s) => s,
    }
}

#[test]
fn payload_json_is_exact() {
    assert_eq!(
        sample().to_json(),
        "{\"id\":1,\"content\":\"hello\",\"timestamp\":\"2024-01-01T00:00:00Z\"}"
    );
}

#[test]
fn payload_json_escapes_text() {
    let p = Payload {
        id: 4294967295,
        content: "say \"hi\"\n".to_string(),
        timestamp: "t".to_string(),
    };
    assert_eq!(
        p.to_json(),
        "{\"id\":4294967295,\"content\":\"say \\\"hi\\\"\\n\",\"timestamp\":\"t\"}"
    );
}

#[test]
fn payload_json_of_zero_id() {
    let p = Payload { id: 0, content: String::new(), timestamp: String::new() };
    assert_eq!(p.to_json(), "{\"id\":0,\"content\":\"\",\"timestamp\":\"\"}");
}

#[test]
fn subject_names_the_id() {
    assert_eq!(sample().subject(), "Message 1");
    let p = Payload { id: 907, content: String::new(), timestamp: String::new() };
    assert_eq!(p.subject(), "Message 907");
}

#[test]
fn payload_round_trips_through_json() {
    let p = Payload {
        id: 77,
        content: "with \"quotes\" and \\ slash".to_string(),
        timestamp: "2024-05-06T07:08:09+00:00".to_string(),
    };
    let back = Payload::from_json(&p.to_json()).unwrap();
    assert_eq!(back.id, 77);
    assert_eq!(back.content, p.content);
    assert_eq!(back.timestamp, p.timestamp);
}

#[test]
fn from_json_rejects_missing_or_wrong_members() {
    assert!(Payload::from_json("{\"id\":1,\"content\":\"a\"}").is_none());
    assert!(Payload::from_json("{\"id\":\"1\",\"content\":\"a\",\"timestamp\":\"t\"}").is_none());
    assert!(Payload::from_json("{\"id\":-1,\"content\":\"a\",\"timestamp\":\"t\"}").is_none());
    assert!(Payload::from_json("{\"id\":4294967296,\"content\":\"a\",\"timestamp\":\"t\"}").is_none());
    assert!(Payload::from_json("not json").is_none());
    assert!(Payload::from_json("").is_none());
}

#[test]
fn from_json_ignores_unknown_members() {
    let p = Payload::from_json("{\"extra\":true,\"timestamp\":\"t\",\"content\":\"c\",\"id\":9}").unwrap();
    assert_eq!(p.id, 9);
    assert_eq!(p.content, "c");
    assert_eq!(p.timestamp, "t");
}

#[test]
fn raw_payload_body_decodes_directly() {
    let p = expect_payload(unwrap_envelope(&sample().to_json()));
    assert_eq!(p.id, 1);
    assert_eq!(p.content, "hello");
    assert_eq!(p.timestamp, "2024-01-01T00:00:00Z");
}

#[test]
fn enveloped_payload_decodes_to_inner_payload() {
    let inner = "{\"id\":5,\"content\":\"inner\",\"timestamp\":\"2024-02-02T00:00:00Z\"}";
    let body = format!(
        "{{\"Type\":\"Notification\",\"MessageId\":\"m-1\",\"Message\":{:?},\"Subject\":\"Message 5\"}}",
        inner
    );
    let p = expect_payload(unwrap_envelope(&body));
    assert_eq!(p.id, 5);
    assert_eq!(p.content, "inner");
    assert_eq!(p.timestamp, "2024-02-02T00:00:00Z");
}

#[test]
fn envelope_with_unstructured_message_falls_back_to_it() {
    let body = "{\"Type\":\"Notification\",\"Message\":\"plain words\"}";
    assert_eq!(expect_raw(unwrap_envelope(body)), "plain words");
}

#[test]
fn unreadable_body_falls_back_to_raw_text() {
    assert_eq!(expect_raw(unwrap_envelope("just text")), "just text");
    assert_eq!(expect_raw(unwrap_envelope("{\"Message\":3}")), "{\"Message\":3}");
    assert_eq!(expect_raw(unwrap_envelope("")), "");
}
