//! Session façade: composes the accumulator, the outbound queue, the
//! capture queue, the audio ring and the connection state, and exposes
//! the toggle/record/capture/send operations the shell drives.
//!
//! Everything here is a decision or a data movement on plain values;
//! the shell performs the returned actions on the real devices and
//! hands back what the hardware and the wire produced.

use vstd::prelude::*;

use crate::accumulator::{
    append_bytes, empty_partial, step, Accumulator, AccumulateError, Chunk, ChunkView,
    ControlFrameView, PartialMessageView,
};
use crate::audio::{
    bytes_of_samples, encode_pcm16, decode_pcm16, filled_from_ring, playback_fill, ring_capacity,
    ring_samples, samples_of_bytes, AudioRing,
};
use crate::connection::{conn_transition, is_loss, next_state, ConnEvent, ConnState};
use crate::images::{
    image_payload, image_payload_of, image_wf, png_fits, CaptureImageQueue, CapturedImage,
    CapturedImageView,
};
use crate::message::{Content, ContentView, Kind, Message, MessageView};
use crate::outbound::{OutboundItem, OutboundItemView, OutboundQueue};
use crate::wire::{parse_text, parsed_of, ParsedText, ParsedTextView};

verus! {

/// What the façade asks the shell to do with a hardware stream.
#[derive(Clone, Copy, PartialEq, Eq, Structural, Debug)]
pub enum StreamAction {
    Play,
    Pause,
}

/// A camera hand-off was rejected: the dimensions and buffer length do
/// not describe a tightly packed RGB frame.
#[derive(Clone, Copy, PartialEq, Eq, Structural, Debug)]
pub enum CaptureError {
    InvalidFrame,
}

/// A wire text frame could not be used.
#[derive(Clone, Copy, PartialEq, Eq, Structural, Debug)]
pub enum WireError {
    /// The text held no JSON object; the frame is dropped.
    InvalidText,
    /// The end-of-message control could not finalize the partial
    /// message, which is dropped; the connection stays open.
    MalformedMessage,
}

/// The session façade.
pub struct Device {
    pub is_recording: bool,
    pub is_speaking: bool,
    pub conn_state: ConnState,
    pub accumulator: Accumulator,
    pub outbound: OutboundQueue,
    pub captured: CaptureImageQueue,
    pub audio_ring: AudioRing,
    pub next_image_index: u64,
}

/// Mathematical value of a `Device`.
pub struct DeviceView {
    pub is_recording: bool,
    pub is_speaking: bool,
    pub conn: ConnState,
    pub partial: PartialMessageView,
    pub outbound: Seq<OutboundItemView>,
    pub captured: Seq<CapturedImageView>,
    pub samples: Seq<i16>,
    pub ring_capacity: nat,
    pub next_image_index: u64,
}

impl View for Device {
    type V = DeviceView;

    open spec fn view(&self) -> DeviceView {
        DeviceView {
            is_recording: self.is_recording,
            is_speaking: self.is_speaking,
            conn: self.conn_state,
            partial: self.accumulator@,
            outbound: self.outbound@,
            captured: self.captured@,
            samples: ring_samples(self.audio_ring),
            ring_capacity: ring_capacity(self.audio_ring),
            next_image_index: self.next_image_index,
        }
    }
}

/// Validity of a session: captured frames are well formed with strictly
/// increasing indices below the next one, and the ring never holds more
/// than its capacity.
pub open spec fn device_wf(d: DeviceView) -> bool {
    &&& 1 <= d.ring_capacity
    &&& d.samples.len() <= d.ring_capacity
    &&& forall|i: int| 0 <= i < d.captured.len() ==> image_wf(#[trigger] d.captured[i])
    &&& forall|i: int|
        0 <= i < d.captured.len() ==> (#[trigger] d.captured[i]).index < d.next_image_index
    &&& forall|i: int, j: int|
        0 <= i < j < d.captured.len() ==> #[trigger] d.captured[i].index
            < #[trigger] d.captured[j].index
}

/// Validity does not depend on the flags, the connection state, the
/// partial message or the outbound queue: it carries over whenever the
/// capture queue and its index are unchanged and the ring stays within
/// its capacity.
pub proof fn lemma_wf_carries(d1: DeviceView, d2: DeviceView)
    requires
        device_wf(d1),
        d2.captured == d1.captured,
        d2.next_image_index == d1.next_image_index,
        d2.ring_capacity == d1.ring_capacity,
        d2.samples.len() <= d2.ring_capacity,
    ensures
        device_wf(d2),
{
    assert forall|i: int| 0 <= i < d2.captured.len() implies image_wf(#[trigger] d2.captured[i]) by {
        assert(image_wf(d1.captured[i]));
    }
    assert forall|i: int|
        0 <= i < d2.captured.len() implies (#[trigger] d2.captured[i]).index
        < d2.next_image_index by {
        assert(d1.captured[i].index < d1.next_image_index);
    }
    assert forall|i: int, j: int|
        0 <= i < j < d2.captured.len() implies #[trigger] d2.captured[i].index
        < #[trigger] d2.captured[j].index by {
        assert(d1.captured[i].index < d1.captured[j].index);
    }
}

/// Validity survives taking the oldest captured frame out.
pub proof fn lemma_wf_after_pop(d1: DeviceView, d2: DeviceView)
    requires
        device_wf(d1),
        d1.captured.len() > 0,
        d2.captured == d1.captured.drop_first(),
        d2.next_image_index == d1.next_image_index,
        d2.ring_capacity == d1.ring_capacity,
        d2.samples.len() <= d2.ring_capacity,
    ensures
        device_wf(d2),
{
    assert forall|i: int| 0 <= i < d2.captured.len() implies image_wf(#[trigger] d2.captured[i]) by {
        assert(d2.captured[i] == d1.captured[i + 1]);
        assert(image_wf(d1.captured[i + 1]));
    }
    assert forall|i: int|
        0 <= i < d2.captured.len() implies (#[trigger] d2.captured[i]).index
        < d2.next_image_index by {
        assert(d2.captured[i] == d1.captured[i + 1]);
        assert(d1.captured[i + 1].index < d1.next_image_index);
    }
    assert forall|i: int, j: int|
        0 <= i < j < d2.captured.len() implies #[trigger] d2.captured[i].index
        < #[trigger] d2.captured[j].index by {
        assert(d2.captured[i] == d1.captured[i + 1]);
        assert(d2.captured[j] == d1.captured[j + 1]);
        assert(d1.captured[i + 1].index < d1.captured[j + 1].index);
    }
}

/// The state a fresh session starts in: nothing queued, nothing under
/// assembly, the speaker running, the microphone paused, the connection
/// being established.
pub open spec fn fresh_device(cap: nat) -> DeviceView {
    DeviceView {
        is_recording: false,
        is_speaking: true,
        conn: ConnState::Connecting,
        partial: empty_partial(),
        outbound: Seq::<OutboundItemView>::empty(),
        captured: Seq::<CapturedImageView>::empty(),
        samples: Seq::<i16>::empty(),
        ring_capacity: cap,
        next_image_index: 0,
    }
}

/// One recording toggle: the flag flips, and the stream must be paused
/// when it was recording, resumed when it was not.
pub open spec fn toggle_recording_step(d: DeviceView) -> (DeviceView, StreamAction) {
    (
        DeviceView { is_recording: !d.is_recording, ..d },
        if d.is_recording {
            StreamAction::Pause
        } else {
            StreamAction::Play
        },
    )
}

/// One speaking toggle, symmetrically for the output stream.
pub open spec fn toggle_speaking_step(d: DeviceView) -> (DeviceView, StreamAction) {
    (
        DeviceView { is_speaking: !d.is_speaking, ..d },
        if d.is_speaking {
            StreamAction::Pause
        } else {
            StreamAction::Play
        },
    )
}

/// The ring after one sample is fed in: appended, displacing the oldest
/// sample when the ring is full.
pub open spec fn ring_push_one(s: Seq<i16>, x: i16, cap: nat) -> Seq<i16> {
    if s.len() < cap {
        s.push(x)
    } else {
        s.drop_first().push(x)
    }
}

/// The ring after a run of samples is fed in, in order.
pub open spec fn ring_push_all(s: Seq<i16>, xs: Seq<i16>, cap: nat) -> Seq<i16>
    decreases xs.len(),
{
    if xs.len() == 0 {
        s
    } else {
        ring_push_all(ring_push_one(s, xs.first(), cap), xs.drop_first(), cap)
    }
}

/// The bytes of a binary content; text content holds none.
pub open spec fn binary_of(c: ContentView) -> Seq<u8> {
    match c {
        ContentView::Binary(b) => b,
        ContentView::Text(_) => Seq::<u8>::empty(),
    }
}

/// View of what `handle_wire_text` returns.
pub open spec fn wire_result_view(r: Result<Option<Message>, WireError>) -> Result<
    Option<MessageView>,
    WireError,
> {
    match r {
        Ok(None) => Ok(None),
        Ok(Some(m)) => Ok(Some(m@)),
        Err(e) => Err(e),
    }
}

/// What one wire text frame does to the session, and what it emits.
/// A keepalive changes nothing; a control chunk steps the accumulator;
/// a completed audio message is decoded into the ring, any other
/// completed message is handed out to the text sink.
pub open spec fn text_step(d: DeviceView, t: Seq<char>) -> (
    DeviceView,
    Result<Option<MessageView>, WireError>,
) {
    match parsed_of(t) {
        ParsedTextView::NotJson => (d, Err(WireError::InvalidText)),
        ParsedTextView::KeepAlive => (d, Ok(None)),
        ParsedTextView::Control(c) => {
            let stepped = step(d.partial, ChunkView::Control(c));
            let d2 = DeviceView { partial: stepped.0, ..d };
            match stepped.1 {
                Ok(None) => (d2, Ok(None)),
                Ok(Some(m)) => {
                    if m.kind is Audio {
                        (
                            DeviceView {
                                samples: ring_push_all(
                                    d.samples,
                                    samples_of_bytes(binary_of(m.content)),
                                    d.ring_capacity,
                                ),
                                ..d2
                            },
                            Ok(None),
                        )
                    } else {
                        (d2, Ok(Some(m)))
                    }
                },
                Err(_) => (d2, Err(WireError::MalformedMessage)),
            }
        },
    }
}

/// What one connection lifecycle event does to the session: the state
/// machine advances, a loss of the wire drops the partial message under
/// assembly, and the outbound queue is preserved either way.
pub open spec fn conn_event_step(d: DeviceView, e: ConnEvent) -> DeviceView {
    DeviceView {
        conn: next_state(d.conn, e),
        partial: if is_loss(e) {
            empty_partial()
        } else {
            d.partial
        },
        ..d
    }
}

/// The serialized payloads of a run of captured frames, in capture
/// order; a frame whose encoding does not fit is skipped.
pub open spec fn payloads_of(images: Seq<CapturedImageView>) -> Seq<OutboundItemView>
    decreases images.len(),
{
    if images.len() == 0 {
        Seq::<OutboundItemView>::empty()
    } else {
        let rest = payloads_of(images.drop_first());
        if png_fits(images.first()) {
            seq![OutboundItemView::Text(image_payload_of(images.first()))] + rest
        } else {
            rest
        }
    }
}

impl Device {
    /// A fresh session.  The shell opens the real camera, streams and
    /// socket around it and reports their events; the capacity sizes
    /// the playback ring (the configured output latency in samples).
    pub fn new(ring_capacity: usize) -> (r: Device)
        requires
            1 <= ring_capacity,
        ensures
            r@ == fresh_device(ring_capacity as nat),
            device_wf(r@),
    {
        let d = Device {
            is_recording: false,
            is_speaking: true,
            conn_state: ConnState::Connecting,
            accumulator: Accumulator::new(),
            outbound: OutboundQueue::new(),
            captured: CaptureImageQueue::new(),
            audio_ring: AudioRing::new(ring_capacity),
            next_image_index: 0,
        };
        d
    }

    /// Flip the recording flag; the shell must apply the returned
    /// action to the input stream.
    pub fn toggle_recording(&mut self) -> (a: StreamAction)
        ensures
            (final(self)@, a) == toggle_recording_step(old(self)@),
            device_wf(old(self)@) ==> device_wf(final(self)@),
    {
        let a = if self.is_recording {
            StreamAction::Pause
        } else {
            StreamAction::Play
        };
        self.is_recording = !self.is_recording;
        proof {
            if device_wf(old(self)@) {
                lemma_wf_carries(old(self)@, self@);
            }
        }
        a
    }

    /// Flip the speaking flag; the shell must apply the returned action
    /// to the output stream.  While paused the ring keeps filling,
    /// bounded by its capacity.
    pub fn toggle_speaking(&mut self) -> (a: StreamAction)
        ensures
            (final(self)@, a) == toggle_speaking_step(old(self)@),
            device_wf(old(self)@) ==> device_wf(final(self)@),
    {
        let a = if self.is_speaking {
            StreamAction::Pause
        } else {
            StreamAction::Play
        };
        self.is_speaking = !self.is_speaking;
        proof {
            if device_wf(old(self)@) {
                lemma_wf_carries(old(self)@, self@);
            }
        }
        a
    }

    /// Take one frame handed over by the camera: validated, stamped
    /// with the next capture index and queued.  Never blocks; a buffer
    /// that does not describe a packed RGB frame is rejected.
    pub fn fetch_image_from_camera(&mut self, width: u32, height: u32, pixels: Vec<u8>) -> (r:
        Result<(), CaptureError>)
        requires
            device_wf(old(self)@),
            old(self)@.next_image_index < u64::MAX,
        ensures
            device_wf(final(self)@),
            ({
                let iv = CapturedImageView {
                    width,
                    height,
                    pixels: pixels@,
                    index: old(self)@.next_image_index,
                };
                if image_wf(iv) {
                    r is Ok && final(self)@ == (DeviceView {
                        captured: old(self)@.captured.push(iv),
                        next_image_index: (old(self)@.next_image_index + 1) as u64,
                        ..old(self)@
                    })
                } else {
                    r is Err && final(self)@ == old(self)@
                }
            }),
    {
        proof {
            assert((width as int) * (height as int) <= 0xffff_ffff * 0xffff_ffff)
                by (nonlinear_arith)
                requires
                    width as int <= 0xffff_ffff,
                    height as int <= 0xffff_ffff,
            ;
            assert(3 * ((width as int) * (height as int)) == 3 * (width as int) * (height as int))
                by (nonlinear_arith);
        }
        let area: u128 = (width as u128) * (height as u128);
        let expected: u128 = 3u128 * area;
        if width < 1 || height < 1 || (pixels.len() as u128) != expected {
            return Err(CaptureError::InvalidFrame);
        }
        let ghost pv = pixels@;
        let ghost prior = self@;
        let image = CapturedImage { width, height, pixels, index: self.next_image_index };
        self.captured.push_back(image);
        self.next_image_index = self.next_image_index + 1;
        proof {
            let iv = CapturedImageView { width, height, pixels: pv, index: prior.next_image_index };
            let c2 = self@.captured;
            assert(c2 == prior.captured.push(iv));
            assert forall|i: int| 0 <= i < c2.len() implies image_wf(#[trigger] c2[i]) by {
                if i < prior.captured.len() {
                    assert(c2[i] == prior.captured[i]);
                } else {
                    assert(c2[i] == iv);
                }
            }
            assert forall|i: int|
                0 <= i < c2.len() implies (#[trigger] c2[i]).index < self@.next_image_index by {
                if i < prior.captured.len() {
                    assert(c2[i] == prior.captured[i]);
                } else {
                    assert(c2[i] == iv);
                }
            }
            assert forall|i: int, j: int|
                0 <= i < j < c2.len() implies #[trigger] c2[i].index < #[trigger] c2[j].index by {
                assert(c2[i] == prior.captured[i]);
                if j < prior.captured.len() {
                    assert(c2[j] == prior.captured[j]);
                } else {
                    assert(c2[j] == iv);
                }
            }
        }
        Ok(())
    }

    /// Queue one captured frame's serialized payload.  A frame whose
    /// encoding does not fit is dropped, reported by the result.
    pub fn add_image_to_send_queue(&mut self, image: CapturedImage) -> (r: Result<
        (),
        CaptureError,
    >)
        requires
            image_wf(image@),
        ensures
            device_wf(old(self)@) ==> device_wf(final(self)@),
            png_fits(image@) ==> r is Ok && final(self)@ == (DeviceView {
                outbound: old(self)@.outbound.push(
                    OutboundItemView::Text(image_payload_of(image@)),
                ),
                ..old(self)@
            }),
            !png_fits(image@) ==> r is Err && final(self)@ == old(self)@,
    {
        let r = match image_payload(&image) {
            Some(payload) => {
                self.outbound.enqueue(OutboundItem::Text(payload));
                Ok(())
            },
            None => Err(CaptureError::InvalidFrame),
        };
        proof {
            if device_wf(old(self)@) {
                lemma_wf_carries(old(self)@, self@);
            }
        }
        r
    }

    /// Drain the capture queue strictly first-in first-out into the
    /// outbound queue, so every image of the turn precedes the audio
    /// and text queued after this call.
    pub fn queue_all_captured_images(&mut self)
        requires
            device_wf(old(self)@),
        ensures
            device_wf(final(self)@),
            final(self)@ == (DeviceView {
                captured: Seq::<CapturedImageView>::empty(),
                outbound: old(self)@.outbound + payloads_of(old(self)@.captured),
                ..old(self)@
            }),
    {
        while self.captured.len() > 0
            invariant
                device_wf(self@),
                self@.outbound + payloads_of(self@.captured) == old(self)@.outbound + payloads_of(
                    old(self)@.captured,
                ),
                self@.is_recording == old(self)@.is_recording,
                self@.is_speaking == old(self)@.is_speaking,
                self@.conn == old(self)@.conn,
                self@.partial == old(self)@.partial,
                self@.samples == old(self)@.samples,
                self@.ring_capacity == old(self)@.ring_capacity,
                self@.next_image_index == old(self)@.next_image_index,
            decreases self@.captured.len(),
        {
            let ghost before = self@;
            let popped = self.captured.pop_front();
            match popped {
                Some(image) => {
                    proof {
                        assert(image@ == before.captured.first());
                        assert(image_wf(image@));
                        lemma_wf_after_pop(before, self@);
                    }
                    let ghost mid = self@;
                    let _ = self.add_image_to_send_queue(image);
                    proof {
                        if png_fits(before.captured.first()) {
                            assert(self@.outbound =~= mid.outbound + seq![
                                OutboundItemView::Text(image_payload_of(before.captured.first())),
                            ]);
                            assert(self@.outbound + payloads_of(self@.captured) =~= mid.outbound
                                + payloads_of(before.captured));
                        } else {
                            assert(self@.outbound + payloads_of(self@.captured) =~= mid.outbound
                                + payloads_of(before.captured));
                        }
                    }
                },
                None => {
                    proof {
                        assert(false);
                    }
                },
            }
        }
        proof {
            assert(payloads_of(self@.captured) =~= Seq::<OutboundItemView>::empty());
            assert(self@.outbound =~= self@.outbound + payloads_of(self@.captured));
            assert(self@.captured =~= Seq::<CapturedImageView>::empty());
        }
    }

    /// Enqueue one serialized message for the server; the queue is
    /// unbounded, so this always succeeds.
    pub fn send_message_to_server(&mut self, message: String) -> (r: Result<(), String>)
        ensures
            r is Ok,
            final(self)@ == (DeviceView {
                outbound: old(self)@.outbound.push(OutboundItemView::Text(message@)),
                ..old(self)@
            }),
            device_wf(old(self)@) ==> device_wf(final(self)@),
    {
        self.outbound.enqueue(OutboundItem::Text(message));
        proof {
            if device_wf(old(self)@) {
                lemma_wf_carries(old(self)@, self@);
            }
        }
        Ok(())
    }

    /// Hand the sender the next outbound item, oldest first.
    pub fn next_outbound(&mut self) -> (r: Option<OutboundItem>)
        ensures
            device_wf(old(self)@) ==> device_wf(final(self)@),
            old(self)@.outbound.len() == 0 ==> r is None && final(self)@ == old(self)@,
            old(self)@.outbound.len() > 0 ==> match r {
                Some(item) => item@ == old(self)@.outbound.first() && final(self)@ == (DeviceView {
                    outbound: old(self)@.outbound.drop_first(),
                    ..old(self)@
                }),
                None => false,
            },
    {
        let r = self.outbound.dequeue();
        proof {
            if device_wf(old(self)@) {
                lemma_wf_carries(old(self)@, self@);
            }
        }
        r
    }

    /// Put an undelivered item back at the front of the outbound queue,
    /// to be retried once the connection is back; nothing is dropped.
    pub fn requeue_outbound(&mut self, item: OutboundItem)
        ensures
            device_wf(old(self)@) ==> device_wf(final(self)@),
            final(self)@ == (DeviceView {
                outbound: seq![item@] + old(self)@.outbound,
                ..old(self)@
            }),
    {
        self.outbound.requeue_front(item);
        proof {
            if device_wf(old(self)@) {
                lemma_wf_carries(old(self)@, self@);
            }
        }
    }

    /// Feed one wire binary frame to the accumulator: the bytes extend
    /// the binary payload under assembly (restarting it if it held
    /// text); binary content only finalizes on a later control frame.
    pub fn handle_wire_binary(&mut self, bytes: Vec<u8>)
        ensures
            device_wf(old(self)@) ==> device_wf(final(self)@),
            final(self)@ == (DeviceView {
                partial: append_bytes(old(self)@.partial, bytes@),
                ..old(self)@
            }),
    {
        let r = self.accumulator.accumulate(Chunk::Bytes(bytes));
        proof {
            assert(r is Ok);
            if device_wf(old(self)@) {
                lemma_wf_carries(old(self)@, self@);
            }
        }
    }

    /// Feed one wire text frame: parse it, let a control mapping step
    /// the accumulator, decode a completed audio message into the
    /// playback ring, and hand any other completed message out.
    pub fn handle_wire_text(&mut self, text: &str) -> (r: Result<Option<Message>, WireError>)
        requires
            device_wf(old(self)@),
        ensures
            device_wf(final(self)@),
            (final(self)@, wire_result_view(r)) == text_step(old(self)@, text@),
    {
        let parsed = parse_text(text);
        match parsed {
            ParsedText::NotJson => Err(WireError::InvalidText),
            ParsedText::KeepAlive => Ok(None),
            ParsedText::Control(c) => {
                let ghost cv = c@;
                let ghost prior = self@;
                let stepped = self.accumulator.accumulate(Chunk::Control(c));
                proof {
                    crate::accumulator::lemma_emitted_messages_well_formed(
                        prior.partial,
                        ChunkView::Control(cv),
                    );
                    lemma_wf_carries(prior, self@);
                }
                match stepped {
                    Ok(None) => Ok(None),
                    Ok(Some(m)) => {
                        let is_audio = match m.kind {
                            Kind::Audio => true,
                            _ => false,
                        };
                        if is_audio {
                            match m.content {
                                Content::Binary(b) => {
                                    let samples = decode_pcm16(&b);
                                    self.push_samples(&samples);
                                    Ok(None)
                                },
                                Content::Text(_) => {
                                    proof {
                                        assert(false);
                                    }
                                    Ok(None)
                                },
                            }
                        } else {
                            Ok(Some(m))
                        }
                    },
                    Err(_) => Err(WireError::MalformedMessage),
                }
            },
        }
    }

    /// Feed a run of decoded samples into the playback ring, in order,
    /// overwriting the oldest samples when the ring is full.
    fn push_samples(&mut self, samples: &Vec<i16>)
        requires
            device_wf(old(self)@),
        ensures
            device_wf(final(self)@),
            final(self)@ == (DeviceView {
                samples: ring_push_all(old(self)@.samples, samples@, old(self)@.ring_capacity),
                ..old(self)@
            }),
    {
        let ghost cap = old(self)@.ring_capacity;
        let ghost start = old(self)@.samples;
        proof {
            assert(samples@.skip(0) =~= samples@);
        }
        let mut i: usize = 0;
        while i < samples.len()
            invariant
                i <= samples@.len(),
                ring_capacity(self.audio_ring) == cap,
                ring_samples(self.audio_ring).len() <= cap,
                ring_push_all(ring_samples(self.audio_ring), samples@.skip(i as int), cap)
                    == ring_push_all(start, samples@, cap),
                self.is_recording == old(self).is_recording,
                self.is_speaking == old(self).is_speaking,
                self.conn_state == old(self).conn_state,
                self.accumulator@ == old(self).accumulator@,
                self.outbound@ == old(self).outbound@,
                self.captured@ == old(self).captured@,
                self.next_image_index == old(self).next_image_index,
            decreases samples@.len() - i,
        {
            let ghost cur = ring_samples(self.audio_ring);
            let ghost rest = samples@.skip(i as int);
            let s = samples[i];
            let _ = self.audio_ring.push_sample(s);
            proof {
                assert(rest.len() > 0);
                assert(rest.first() == samples@[i as int]);
                assert(rest.drop_first() =~= samples@.skip(i as int + 1));
                assert(ring_samples(self.audio_ring) == ring_push_one(cur, s, cap));
            }
            i = i + 1;
        }
        proof {
            assert(samples@.skip(samples@.len() as int) =~= Seq::<i16>::empty());
            lemma_wf_carries(old(self)@, self@);
        }
    }

    /// Apply one connection lifecycle event: the state machine
    /// advances; a loss of the wire drops the partial message under
    /// assembly while the outbound queue is preserved untouched.
    pub fn handle_connection_event(&mut self, e: ConnEvent)
        ensures
            device_wf(old(self)@) ==> device_wf(final(self)@),
            final(self)@ == conn_event_step(old(self)@, e),
    {
        self.conn_state = conn_transition(self.conn_state, e);
        let lost = match e {
            ConnEvent::ConnectFailed => true,
            ConnEvent::Closed => true,
            ConnEvent::Disconnected => true,
            _ => false,
        };
        if lost {
            self.accumulator.reset();
        }
        proof {
            if device_wf(old(self)@) {
                lemma_wf_carries(old(self)@, self@);
            }
        }
    }

    /// Fill one playback block of `n` samples from the ring, zero
    /// samples past an underrun; the remainder of the session is
    /// untouched.
    pub fn playback_tick(&mut self, n: usize) -> (out: Vec<i16>)
        ensures
            device_wf(old(self)@) ==> device_wf(final(self)@),
            out@.len() == n,
            ({
                let taken = filled_from_ring(n as nat, old(self)@.samples.len());
                &&& forall|j: int| 0 <= j < taken ==> out@[j] == old(self)@.samples[j]
                &&& forall|j: int| taken <= j < n ==> out@[j] == 0i16
                &&& final(self)@ == (DeviceView {
                    samples: old(self)@.samples.skip(taken as int),
                    ..old(self)@
                })
            }),
    {
        let out = playback_fill(&mut self.audio_ring, n);
        proof {
            if device_wf(old(self)@) {
                lemma_wf_carries(old(self)@, self@);
            }
        }
        out
    }

    /// Whether the session currently records the microphone.
    pub fn recording(&self) -> (r: bool)
        ensures
            r == self@.is_recording,
    {
        self.is_recording
    }

    /// Whether the output stream currently plays.
    pub fn speaking(&self) -> (r: bool)
        ensures
            r == self@.is_speaking,
    {
        self.is_speaking
    }

    /// The connection state, for the shell to reflect degraded service.
    pub fn connection_state(&self) -> (r: ConnState)
        ensures
            r == self@.conn,
    {
        self.conn_state
    }
}

/// One capture callback tick: when recording is active the block of
/// samples is encoded to the wire's PCM16 form and queued as one binary
/// item; when inactive the tick queues nothing.
pub fn record_audio(device: &mut Device, samples: &Vec<i16>)
    ensures
        device_wf(old(device)@) ==> device_wf(final(device)@),
        old(device)@.is_recording ==> final(device)@ == (DeviceView {
            outbound: old(device)@.outbound.push(
                OutboundItemView::Binary(bytes_of_samples(samples@)),
            ),
            ..old(device)@
        }),
        !old(device)@.is_recording ==> final(device)@ == old(device)@,
{
    if device.is_recording {
        let bytes = encode_pcm16(samples);
        device.outbound.enqueue(OutboundItem::Binary(bytes));
    }
    proof {
        if device_wf(old(device)@) {
            lemma_wf_carries(old(device)@, device@);
        }
    }
}

/// Toggling recording twice returns the session to its original state,
/// and the two actions handed to the shell are exactly one pause and
/// one resume — never a double-pause or double-resume.
pub proof fn lemma_toggle_recording_round_trip(d: DeviceView)
    ensures
        ({
            let first = toggle_recording_step(d);
            let second = toggle_recording_step(first.0);
            &&& second.0 == d
            &&& first.1 != second.1
            &&& (first.1 == StreamAction::Pause <==> d.is_recording)
        }),
{
}

/// Toggling speaking twice returns the session to its original state,
/// with exactly one pause and one resume, symmetrically.
pub proof fn lemma_toggle_speaking_round_trip(d: DeviceView)
    ensures
        ({
            let first = toggle_speaking_step(d);
            let second = toggle_speaking_step(first.0);
            &&& second.0 == d
            &&& first.1 != second.1
            &&& (first.1 == StreamAction::Pause <==> d.is_speaking)
        }),
{
}

/// Reconnecting preserves the outbound queue and drops the partial:
/// after any loss event the outbound items are exactly those from
/// before, in order, the partial message is gone, and an end-of-message
/// control arriving with no new content yields the malformed error —
/// never a message built from stale pre-disconnect bytes.
pub proof fn lemma_reconnect_preserves_outbound_drops_partial(
    d: DeviceView,
    e: ConnEvent,
    c: ControlFrameView,
)
    requires
        is_loss(e),
        c.end,
        c.content is None,
    ensures
        conn_event_step(d, e).outbound == d.outbound,
        conn_event_step(d, e).partial == empty_partial(),
        step(conn_event_step(d, e).partial, ChunkView::Control(c)).1 == Result::<
            Option<MessageView>,
            AccumulateError,
        >::Err(AccumulateError::MalformedMessage),
{
}

} // verus!
