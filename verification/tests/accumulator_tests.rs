use os1::accumulator::{AccumulateError, Accumulator, Chunk, ControlFrame};
use os1::message::{Content, Kind, Role};

fn control(
    role: Option<Role>,
    kind: Option<Kind>,
    format: Option<&str>,
    content: Option<&str>,
    end: bool,
) -> Chunk {
    Chunk::Control(ControlFrame {
        role,
        kind,
        format: format.map(|s| s.to_string()),
        content: content.map(|s| s.to_string()),
        end,
    })
}

#[test]
fn accumulator_text_round_trip() {
    let mut acc = Accumulator::new();
    assert!(matches!(
        acc.accumulate(control(Some(Role::User), None, None, None, false)),
        Ok(None)
    ));
    assert!(matches!(
        acc.accumulate(control(None, Some(Kind::Text), None, None, false)),
        Ok(None)
    ));
    assert!(matches!(
        acc.accumulate(control(None, None, None, Some("hi"), false)),
        Ok(None)
    ));
    let out = acc.accumulate(control(None, None, None, None, true));
    let msg = out.expect("finalizes").expect("one message");
    assert_eq!(msg.role, Role::User);
    assert_eq!(msg.kind, Kind::Text);
    match &msg.content {
        Content::Text(t) => assert_eq!(t, "hi"),
        Content::Binary(_) => panic!("expected text content"),
    }
    // The accumulator reset to empty: an immediate end-of-message with
    // nothing accumulated cannot finalize.
    assert!(matches!(
        acc.accumulate(control(None, None, None, None, true)),
        Err(AccumulateError::MalformedMessage)
    ));
}

#[test]
fn accumulator_binary_append() {
    let mut acc = Accumulator::new();
    assert!(matches!(
        acc.accumulate(control(None, Some(Kind::Audio), Some("pcm16"), None, false)),
        Ok(None)
    ));
    assert!(matches!(acc.accumulate(Chunk::Bytes(vec![0x01, 0x02])), Ok(None)));
    assert!(matches!(acc.accumulate(Chunk::Bytes(vec![0x03])), Ok(None)));
    let msg = acc
        .accumulate(control(None, None, None, None, true))
        .expect("finalizes")
        .expect("one message");
    assert_eq!(msg.kind, Kind::Audio);
    assert_eq!(msg.role, Role::Assistant);
    match &msg.content {
        Content::Binary(b) => assert_eq!(b, &vec![0x01, 0x02, 0x03]),
        Content::Text(_) => panic!("expected binary content"),
    }
}

#[test]
fn binary_without_metadata_cannot_finalize() {
    let mut acc = Accumulator::new();
    assert!(matches!(acc.accumulate(Chunk::Bytes(vec![0x10])), Ok(None)));
    // No kind was ever supplied: the accumulator must not guess it.
    assert!(matches!(
        acc.accumulate(control(None, None, None, None, true)),
        Err(AccumulateError::MalformedMessage)
    ));
}

#[test]
fn binary_then_late_kind_finalizes() {
    let mut acc = Accumulator::new();
    assert!(matches!(acc.accumulate(Chunk::Bytes(vec![0x10, 0x11])), Ok(None)));
    let msg = acc
        .accumulate(control(None, Some(Kind::Audio), Some("pcm16"), None, true))
        .expect("finalizes")
        .expect("one message");
    assert_eq!(msg.kind, Kind::Audio);
    match &msg.content {
        Content::Binary(b) => assert_eq!(b, &vec![0x10, 0x11]),
        Content::Text(_) => panic!("expected binary content"),
    }
}

#[test]
fn kind_switch_binary_to_text_keeps_no_bytes() {
    let mut acc = Accumulator::new();
    assert!(matches!(acc.accumulate(Chunk::Bytes(vec![0x99, 0x98])), Ok(None)));
    // A text delta over a binary payload restarts the payload from the
    // delta alone.
    assert!(matches!(
        acc.accumulate(control(None, None, None, Some("fresh"), false)),
        Ok(None)
    ));
    let msg = acc
        .accumulate(control(None, Some(Kind::Text), None, None, true))
        .expect("finalizes")
        .expect("one message");
    match &msg.content {
        Content::Text(t) => assert_eq!(t, "fresh"),
        Content::Binary(_) => panic!("expected text content"),
    }
}

#[test]
fn kind_switch_text_to_binary_keeps_no_text() {
    let mut acc = Accumulator::new();
    assert!(matches!(
        acc.accumulate(control(None, None, None, Some("abc"), false)),
        Ok(None)
    ));
    // Bytes over a text payload restart the payload from the bytes
    // alone.
    assert!(matches!(acc.accumulate(Chunk::Bytes(vec![0x07])), Ok(None)));
    let msg = acc
        .accumulate(control(None, Some(Kind::Audio), Some("pcm16"), None, true))
        .expect("finalizes")
        .expect("one message");
    match &msg.content {
        Content::Binary(b) => assert_eq!(b, &vec![0x07]),
        Content::Text(_) => panic!("expected binary content"),
    }
}

#[test]
fn kind_content_mismatch_is_malformed() {
    let mut acc = Accumulator::new();
    assert!(matches!(acc.accumulate(Chunk::Bytes(vec![0x01])), Ok(None)));
    // Binary content cannot finalize as a text-kind message.
    assert!(matches!(
        acc.accumulate(control(None, Some(Kind::Text), None, None, true)),
        Err(AccumulateError::MalformedMessage)
    ));
}

#[test]
fn audio_without_format_is_malformed() {
    let mut acc = Accumulator::new();
    assert!(matches!(acc.accumulate(Chunk::Bytes(vec![0x01])), Ok(None)));
    assert!(matches!(
        acc.accumulate(control(None, Some(Kind::Audio), None, None, true)),
        Err(AccumulateError::MalformedMessage)
    ));
}

#[test]
fn text_deltas_append_in_order() {
    let mut acc = Accumulator::new();
    assert!(matches!(
        acc.accumulate(control(None, Some(Kind::Text), None, Some("one "), false)),
        Ok(None)
    ));
    assert!(matches!(
        acc.accumulate(control(None, None, None, Some("two"), false)),
        Ok(None)
    ));
    let msg = acc
        .accumulate(control(None, None, None, None, true))
        .expect("finalizes")
        .expect("one message");
    match &msg.content {
        Content::Text(t) => assert_eq!(t, "one two"),
        Content::Binary(_) => panic!("expected text content"),
    }
}

#[test]
fn metadata_merge_takes_latest_value() {
    let mut acc = Accumulator::new();
    assert!(matches!(
        acc.accumulate(control(Some(Role::System), Some(Kind::Text), None, Some("x"), false)),
        Ok(None)
    ));
    assert!(matches!(
        acc.accumulate(control(Some(Role::User), None, None, None, false)),
        Ok(None)
    ));
    let msg = acc
        .accumulate(control(None, None, None, None, true))
        .expect("finalizes")
        .expect("one message");
    assert_eq!(msg.role, Role::User);
    assert_eq!(msg.kind, Kind::Text);
}
