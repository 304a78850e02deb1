use base64::Engine;
use os1::audio::{decode_pcm16, encode_pcm16};
use os1::device::{Device, WireError};
use os1::images::{encode_image_to_base64, image_payload, CapturedImage};
use os1::message::{Content, Kind, Role};
use os1::wire::keepalive_payload;

#[test]
fn keepalive_payload_is_exact() {
    assert_eq!(keepalive_payload(), "{\"type\":\"KeepAlive\"}");
}

#[test]
fn keepalive_round_trips_through_the_parser() {
    let mut d = Device::new(64);
    // The payload the heartbeat sends is recognized as a keepalive by
    // the same wire parser, and touches nothing.
    let payload = keepalive_payload();
    match d.handle_wire_text(payload.as_str()) {
        Ok(None) => {},
        _ => panic!("a keepalive changes nothing and emits nothing"),
    }
}

#[test]
fn non_json_text_is_an_invalid_frame() {
    let mut d = Device::new(64);
    match d.handle_wire_text("not json at all") {
        Err(WireError::InvalidText) => {},
        _ => panic!("plain text is not a control frame"),
    }
    match d.handle_wire_text("[1,2,3]") {
        Err(WireError::InvalidText) => {},
        _ => panic!("a JSON array is not a control object"),
    }
}

#[test]
fn wire_text_frames_assemble_a_message() {
    let mut d = Device::new(64);
    assert!(matches!(d.handle_wire_text("{\"role\":\"user\"}"), Ok(None)));
    assert!(matches!(d.handle_wire_text("{\"type\":\"text\"}"), Ok(None)));
    assert!(matches!(d.handle_wire_text("{\"content\":\"hi\"}"), Ok(None)));
    let msg = d
        .handle_wire_text("{\"end\":true}")
        .expect("finalizes")
        .expect("one message");
    assert_eq!(msg.role, Role::User);
    assert_eq!(msg.kind, Kind::Text);
    match &msg.content {
        Content::Text(t) => assert_eq!(t, "hi"),
        Content::Binary(_) => panic!("expected text content"),
    }
}

#[test]
fn unrecognized_values_are_ignored_not_guessed() {
    let mut d = Device::new(64);
    assert!(matches!(d.handle_wire_text("{\"type\":\"bogus\",\"content\":\"x\"}"), Ok(None)));
    // The unknown type left the kind unset, so the message cannot
    // finalize.
    match d.handle_wire_text("{\"end\":true}") {
        Err(WireError::MalformedMessage) => {},
        _ => panic!("an unknown type must not become a kind"),
    }
}

#[test]
fn audio_message_reaches_the_playback_ring() {
    let mut d = Device::new(64);
    assert!(matches!(
        d.handle_wire_text("{\"type\":\"audio\",\"format\":\"pcm16\"}"),
        Ok(None)
    ));
    // 1 and -1 as little-endian PCM16.
    d.handle_wire_binary(vec![0x01, 0x00, 0xFF, 0xFF]);
    // A completed audio message is decoded into the ring, not handed
    // out as text.
    assert!(matches!(d.handle_wire_text("{\"end\":true}"), Ok(None)));
    let out = d.playback_tick(4);
    assert_eq!(out, vec![1i16, -1i16, 0i16, 0i16]);
}

#[test]
fn pcm16_codec_is_exact_and_round_trips() {
    let samples = vec![0i16, 1, -1, -32768, 32767, 256];
    let bytes = encode_pcm16(&samples);
    assert_eq!(
        bytes,
        vec![0x00, 0x00, 0x01, 0x00, 0xFF, 0xFF, 0x00, 0x80, 0xFF, 0x7F, 0x00, 0x01]
    );
    assert_eq!(decode_pcm16(&bytes), samples);
    // A trailing odd byte carries no complete sample.
    assert_eq!(decode_pcm16(&vec![0x01, 0x00, 0x7F]), vec![1i16]);
}

#[test]
fn image_data_uri_decodes_back_to_the_frame() {
    let image = CapturedImage {
        width: 2,
        height: 1,
        pixels: vec![255, 0, 0, 0, 0, 255],
        index: 0,
    };
    let uri = encode_image_to_base64(&image).expect("a tiny frame encodes");
    let prefix = "data:image/png;base64,";
    assert!(uri.starts_with(prefix));
    let png = base64::engine::general_purpose::STANDARD
        .decode(&uri[prefix.len()..])
        .expect("the suffix is base64");
    assert_eq!(&png[..4], &[0x89, b'P', b'N', b'G']);
    let decoded = image::load_from_memory(&png).expect("the bytes are a PNG").to_rgb8();
    assert_eq!(decoded.dimensions(), (2, 1));
    assert_eq!(decoded.into_raw(), vec![255, 0, 0, 0, 0, 255]);
}

#[test]
fn image_payload_is_the_documented_envelope() {
    let image = CapturedImage {
        width: 1,
        height: 1,
        pixels: vec![10, 20, 30],
        index: 0,
    };
    let payload = image_payload(&image).expect("a tiny frame encodes");
    let v: serde_json::Value = serde_json::from_str(&payload).expect("the envelope is JSON");
    assert_eq!(v.get("role").unwrap().as_str().unwrap(), "user");
    assert_eq!(v.get("type").unwrap().as_str().unwrap(), "image");
    assert_eq!(v.get("format").unwrap().as_str().unwrap(), "base64.png");
    let content = v.get("content").unwrap().as_str().unwrap();
    assert!(content.starts_with("data:image/png;base64,"));
    let expected_uri = encode_image_to_base64(&image).unwrap();
    assert_eq!(content, expected_uri);
}
