use os1::audio::{playback_fill, AudioRing};
use os1::connection::{conn_transition, ConnEvent, ConnState};
use os1::device::{record_audio, CaptureError, Device, StreamAction, WireError};
use os1::outbound::{OutboundItem, OutboundQueue};

#[test]
fn outbound_queue_is_fifo() {
    let mut q = OutboundQueue::new();
    q.enqueue(OutboundItem::Text("image a".to_string()));
    q.enqueue(OutboundItem::Text("image b".to_string()));
    q.enqueue(OutboundItem::Binary(vec![1, 2, 3]));
    match q.dequeue() {
        Some(OutboundItem::Text(s)) => assert_eq!(s, "image a"),
        _ => panic!("expected image a first"),
    }
    match q.dequeue() {
        Some(OutboundItem::Text(s)) => assert_eq!(s, "image b"),
        _ => panic!("expected image b second"),
    }
    match q.dequeue() {
        Some(OutboundItem::Binary(b)) => assert_eq!(b, vec![1, 2, 3]),
        _ => panic!("expected the audio blob last"),
    }
    assert!(q.dequeue().is_none());
}

#[test]
fn outbound_requeue_goes_first() {
    let mut q = OutboundQueue::new();
    q.enqueue(OutboundItem::Text("second".to_string()));
    q.requeue_front(OutboundItem::Text("first again".to_string()));
    match q.dequeue() {
        Some(OutboundItem::Text(s)) => assert_eq!(s, "first again"),
        _ => panic!("requeued item must come out first"),
    }
}

#[test]
fn images_precede_audio_of_the_same_turn() {
    let mut d = Device::new(64);
    d.fetch_image_from_camera(1, 1, vec![255, 0, 0]).expect("valid frame");
    d.fetch_image_from_camera(1, 1, vec![0, 255, 0]).expect("valid frame");
    let a = d.toggle_recording();
    assert_eq!(a, StreamAction::Play);
    d.queue_all_captured_images();
    record_audio(&mut d, &vec![1i16, 2i16]);
    match d.next_outbound() {
        Some(OutboundItem::Text(s)) => {
            assert!(s.starts_with("{\"role\":\"user\",\"type\":\"image\""))
        },
        _ => panic!("first image payload expected"),
    }
    match d.next_outbound() {
        Some(OutboundItem::Text(s)) => {
            assert!(s.starts_with("{\"role\":\"user\",\"type\":\"image\""))
        },
        _ => panic!("second image payload expected"),
    }
    match d.next_outbound() {
        Some(OutboundItem::Binary(b)) => assert_eq!(b, vec![1, 0, 2, 0]),
        _ => panic!("the audio blob comes after the images"),
    }
    assert!(d.next_outbound().is_none());
}

#[test]
fn record_audio_is_a_no_op_when_not_recording() {
    let mut d = Device::new(64);
    record_audio(&mut d, &vec![1i16, 2i16, 3i16]);
    assert!(d.next_outbound().is_none());
}

#[test]
fn toggle_recording_twice_is_one_resume_one_pause() {
    let mut d = Device::new(64);
    assert!(!d.recording());
    let first = d.toggle_recording();
    assert!(d.recording());
    let second = d.toggle_recording();
    assert!(!d.recording());
    assert_eq!(first, StreamAction::Play);
    assert_eq!(second, StreamAction::Pause);
}

#[test]
fn toggle_speaking_twice_is_one_pause_one_resume() {
    let mut d = Device::new(64);
    assert!(d.speaking());
    let first = d.toggle_speaking();
    assert!(!d.speaking());
    let second = d.toggle_speaking();
    assert!(d.speaking());
    assert_eq!(first, StreamAction::Pause);
    assert_eq!(second, StreamAction::Play);
}

#[test]
fn playback_tick_on_empty_ring_is_all_silence() {
    let mut d = Device::new(8);
    let out = d.playback_tick(5);
    assert_eq!(out, vec![0i16; 5]);
}

#[test]
fn playback_underrun_zero_fills_the_remainder() {
    let mut ring = AudioRing::new(8);
    assert!(ring.push_sample(10).is_none());
    assert!(ring.push_sample(20).is_none());
    assert!(ring.push_sample(30).is_none());
    let out = playback_fill(&mut ring, 5);
    assert_eq!(out, vec![10, 20, 30, 0, 0]);
    assert_eq!(ring.len(), 0);
}

#[test]
fn full_ring_overwrites_the_oldest_sample() {
    let mut ring = AudioRing::new(2);
    assert!(ring.push_sample(1).is_none());
    assert!(ring.push_sample(2).is_none());
    assert_eq!(ring.push_sample(3), Some(1));
    assert_eq!(ring.pop_sample(), Some(2));
    assert_eq!(ring.pop_sample(), Some(3));
    assert_eq!(ring.pop_sample(), None);
    assert_eq!(ring.capacity(), 2);
}

#[test]
fn reconnect_preserves_outbound_and_drops_partial() {
    let mut d = Device::new(64);
    d.send_message_to_server("one".to_string()).expect("queued");
    d.send_message_to_server("two".to_string()).expect("queued");
    // A partial binary message is under assembly when the wire drops.
    d.handle_wire_binary(vec![0x05, 0x06]);
    d.handle_connection_event(ConnEvent::Disconnected);
    assert_eq!(d.connection_state(), ConnState::Reconnecting);
    d.handle_connection_event(ConnEvent::Connected);
    assert_eq!(d.connection_state(), ConnState::Open);
    // The partial is gone: an end-of-message with no new content is
    // malformed, not a stale message.
    match d.handle_wire_text("{\"end\":true}") {
        Err(WireError::MalformedMessage) => {},
        _ => panic!("stale partial must not finalize"),
    }
    // The outbound items queued before the disconnect are still there,
    // in their original order.
    match d.next_outbound() {
        Some(OutboundItem::Text(s)) => assert_eq!(s, "one"),
        _ => panic!("first message preserved"),
    }
    match d.next_outbound() {
        Some(OutboundItem::Text(s)) => assert_eq!(s, "two"),
        _ => panic!("second message preserved"),
    }
}

#[test]
fn connection_losses_lead_to_reconnecting() {
    assert_eq!(conn_transition(ConnState::Connecting, ConnEvent::ConnectFailed), ConnState::Reconnecting);
    assert_eq!(conn_transition(ConnState::Open, ConnEvent::Closed), ConnState::Reconnecting);
    assert_eq!(conn_transition(ConnState::Open, ConnEvent::Disconnected), ConnState::Reconnecting);
    assert_eq!(conn_transition(ConnState::Reconnecting, ConnEvent::Connected), ConnState::Open);
    assert_eq!(conn_transition(ConnState::Open, ConnEvent::ShutdownRequested), ConnState::Closing);
    // Closing is absorbing: no event revives a session being torn down.
    assert_eq!(conn_transition(ConnState::Closing, ConnEvent::Connected), ConnState::Closing);
    assert_eq!(conn_transition(ConnState::Closing, ConnEvent::Disconnected), ConnState::Closing);
}

#[test]
fn invalid_camera_frame_is_rejected() {
    let mut d = Device::new(64);
    // Two bytes cannot be a 1x1 RGB frame.
    match d.fetch_image_from_camera(1, 1, vec![255, 0]) {
        Err(CaptureError::InvalidFrame) => {},
        Ok(()) => panic!("a short buffer must be rejected"),
    }
    // Zero dimensions are rejected too.
    match d.fetch_image_from_camera(0, 1, vec![]) {
        Err(CaptureError::InvalidFrame) => {},
        Ok(()) => panic!("a zero dimension must be rejected"),
    }
    d.queue_all_captured_images();
    assert!(d.next_outbound().is_none());
}
