use venta::{BuildError, ClientSpec, MessageBuilder, ProducedMessage, PubSubType, Pulsar, Source};

fn s(x: &str) -> String {
    x.to_string()
}

#[test]
fn missing_payload_is_refused() {
    assert_eq!(MessageBuilder::new().build().err(), Some(BuildError::MissingPayload));
    let r = MessageBuilder::new().timestamp(5).property(s("a"), s("b")).build_at(1);
    assert_eq!(r.err(), Some(BuildError::MissingPayload));
}

#[test]
fn text_payload_and_given_timestamp() {
    let m = MessageBuilder::new().text(b"hello".to_vec()).timestamp(42).build_at(7).unwrap();
    assert_eq!(m.data(), &b"hello".to_vec());
    assert_eq!(m.timestamp(), 42);
    assert_eq!(m.event_time(), 42);
}

#[test]
fn missing_timestamp_takes_the_clock() {
    let m = MessageBuilder::new().text(vec![1, 2]).build_at(1234).unwrap();
    assert_eq!(m.timestamp(), 1234);
    let m = MessageBuilder::new().text(vec![1, 2]).build().unwrap();
    assert!(m.timestamp() > 1_600_000_000_000);
}

#[test]
fn later_payload_replaces_earlier() {
    let m = MessageBuilder::new().text(vec![1]).text(vec![2, 3]).build_at(0).unwrap();
    assert_eq!(m.data(), &vec![2, 3]);
}

#[test]
fn properties_merge_by_key() {
    let m = MessageBuilder::new()
        .text(vec![0])
        .property(s("a"), s("1"))
        .property(s("b"), s("2"))
        .properties(vec![(s("a"), s("3")), (s("c"), s("4")), (s("c"), s("5"))])
        .build_at(0)
        .unwrap();
    assert_eq!(m.property(&s("a")), Some(&s("3")));
    assert_eq!(m.property(&s("b")), Some(&s("2")));
    assert_eq!(m.property(&s("c")), Some(&s("5")));
    assert_eq!(m.property(&s("d")), None);
}

#[test]
fn json_payload_is_encoded() {
    let m = MessageBuilder::new().json(&serde_json::Value::Bool(true)).build_at(0).unwrap();
    assert_eq!(m.data(), &b"true".to_vec());
    let v = serde_json::Value::Array(vec![serde_json::Value::from(1), serde_json::Value::from("x")]);
    let m = MessageBuilder::new().json(&v).build_at(0).unwrap();
    assert_eq!(m.data(), &b"[1,\"x\"]".to_vec());
}

#[test]
fn negative_timestamp_wraps_as_event_time() {
    let m = MessageBuilder::new().text(vec![]).timestamp(-1).build_at(0).unwrap();
    assert_eq!(m.event_time(), u64::MAX);
}

#[test]
fn produced_message_returns_its_destination() {
    let p = ProducedMessage::new(17u8).text(b"x".to_vec()).property(s("k"), s("v"));
    let (dest, m) = p.build().ok().unwrap();
    assert_eq!(dest, 17);
    assert_eq!(m.property(&s("k")), Some(&s("v")));
    let p = ProducedMessage::new(1u8).timestamp(3);
    assert_eq!(p.build().err(), Some(BuildError::MissingPayload));
}

#[test]
fn local_source_speaks_pulsar() {
    let spec = Source::Local.pulsar();
    assert_eq!(spec, ClientSpec { source: Source::Local, pubsub_type: PubSubType::Pulsar });
    assert_eq!(Source::Local.url(), "pulsar://127.0.0.1:6650");
    assert_eq!(Pulsar::local_url(), "pulsar://127.0.0.1:6650");
}

#[test]
fn property_pairs_hold_one_value_per_name() {
    let m = MessageBuilder::new()
        .text(vec![0])
        .property(s("a"), s("1"))
        .property(s("b"), s("2"))
        .property(s("a"), s("3"))
        .build_at(0)
        .unwrap();
    let mut pairs = m.property_pairs();
    pairs.sort();
    assert_eq!(pairs, vec![(s("a"), s("3")), (s("b"), s("2"))]);
    let m = MessageBuilder::new().text(vec![0]).build_at(0).unwrap();
    assert!(m.property_pairs().is_empty());
}

#[test]
fn failed_encoding_is_reported_by_build() {
    let r = MessageBuilder::new().encoded(Err(BuildError::SerializationError)).build_at(0);
    assert_eq!(r.err(), Some(BuildError::SerializationError));
    let m = MessageBuilder::new().encoded(Ok(vec![9, 8])).build_at(0).unwrap();
    assert_eq!(m.data(), &vec![9, 8]);
    let p = ProducedMessage::new(0u8).encoded(Err(BuildError::SerializationError));
    assert_eq!(p.build().err(), Some(BuildError::SerializationError));
}
