//! Real-time audio plumbing: the bounded sample ring buffer that bridges
//! the network-receive path to the playback callback, and the PCM16
//! little-endian byte codec used on the wire.
//!
//! The ring buffer is the one collection the library takes from an
//! outside crate; its contents and capacity are named below and every
//! operation the library uses is specified over those names.

use ringbuf::Rb;
use vstd::prelude::*;

verus! {

/// Mono PCM, 16-bit samples, 44.1 kHz: the pipeline's native format.
pub const AUDIO_SAMPLE_RATE: u64 = 44100;

/// Number of interleaved channels (mono).
pub const AUDIO_CHANNELS: u64 = 1;

/// Bits per sample on the wire.
pub const AUDIO_FORMAT_BITS: u64 = 16;

/// Fixed-capacity single-producer/single-consumer sample buffer.  Holds
/// the ring buffer of the `ringbuf` crate behind a verified interface;
/// a full ring drops its oldest sample for the newest, bounding latency.
#[verifier::external_body]
pub struct AudioRing {
    rb: ringbuf::HeapRb<i16>,
}

/// The samples the ring holds, oldest first.
pub uninterp spec fn ring_samples(r: AudioRing) -> Seq<i16>;

/// The fixed capacity the ring was created with.
pub uninterp spec fn ring_capacity(r: AudioRing) -> nat;

impl AudioRing {
    /// Relies on `ringbuf::HeapRb::new`: an empty ring of the given
    /// capacity.  `new` panics on a zero capacity, which the caller
    /// rules out.
    #[verifier::external_body]
    pub fn new(capacity: usize) -> (r: AudioRing)
        requires
            1 <= capacity,
        ensures
            ring_samples(r) == Seq::<i16>::empty(),
            ring_capacity(r) == capacity,
    {
        AudioRing { rb: ringbuf::HeapRb::new(capacity) }
    }

    /// Relies on `ringbuf`'s `Rb::len`: the number of stored samples.
    #[verifier::external_body]
    pub fn len(&self) -> (r: usize)
        ensures
            r == ring_samples(*self).len(),
    {
        self.rb.len()
    }

    /// Relies on `ringbuf`'s `Rb::capacity`: the constant capacity.
    #[verifier::external_body]
    pub fn capacity(&self) -> (r: usize)
        ensures
            r == ring_capacity(*self),
    {
        self.rb.capacity()
    }

    /// Relies on `ringbuf`'s `Rb::push_overwrite`: appends the sample,
    /// first popping the oldest one when the ring is full, and returns
    /// the overwritten sample if that took place.
    #[verifier::external_body]
    pub fn push_sample(&mut self, s: i16) -> (r: Option<i16>)
        ensures
            ring_capacity(*final(self)) == ring_capacity(*old(self)),
            ring_samples(*final(self)).len() <= ring_capacity(*final(self)),
            ring_samples(*old(self)).len() < ring_capacity(*old(self)) ==> {
                &&& ring_samples(*final(self)) == ring_samples(*old(self)).push(s)
                &&& r is None
            },
            ring_samples(*old(self)).len() >= ring_capacity(*old(self)) ==> {
                &&& ring_samples(*final(self)) == ring_samples(*old(self)).drop_first().push(s)
                &&& r == Some(ring_samples(*old(self)).first())
            },
    {
        self.rb.push_overwrite(s)
    }

    /// Relies on `ringbuf`'s `Rb::pop`: removes and returns the oldest
    /// sample, or nothing when the ring is empty.
    #[verifier::external_body]
    pub fn pop_sample(&mut self) -> (r: Option<i16>)
        ensures
            ring_capacity(*final(self)) == ring_capacity(*old(self)),
            ring_samples(*old(self)).len() == 0 ==> {
                &&& r is None
                &&& ring_samples(*final(self)) == ring_samples(*old(self))
            },
            ring_samples(*old(self)).len() > 0 ==> {
                &&& r == Some(ring_samples(*old(self)).first())
                &&& ring_samples(*final(self)) == ring_samples(*old(self)).drop_first()
            },
    {
        self.rb.pop()
    }
}

/// How many of the requested samples a playback tick takes from the
/// ring: all of them, or however many the ring holds.
pub open spec fn filled_from_ring(requested: nat, available: nat) -> nat {
    if requested <= available {
        requested
    } else {
        available
    }
}

/// Fill one playback block of `n` samples: the first samples come from
/// the ring in order, and once the ring runs dry the remainder of the
/// block is silence (zero samples) — an underrun is not an error and
/// never blocks.
pub fn playback_fill(ring: &mut AudioRing, n: usize) -> (out: Vec<i16>)
    ensures
        out@.len() == n,
        ring_capacity(*final(ring)) == ring_capacity(*old(ring)),
        ({
            let taken = filled_from_ring(n as nat, ring_samples(*old(ring)).len());
            &&& forall|j: int|
                0 <= j < taken ==> out@[j] == ring_samples(*old(ring))[j]
            &&& forall|j: int| taken <= j < n ==> out@[j] == 0i16
            &&& ring_samples(*final(ring)) == ring_samples(*old(ring)).skip(taken as int)
        }),
{
    let ghost initial = ring_samples(*old(ring));
    let mut out: Vec<i16> = Vec::new();
    let mut i: usize = 0;
    while i < n
        invariant
            i <= n,
            out@.len() == i,
            ring_capacity(*ring) == ring_capacity(*old(ring)),
            ring_samples(*ring) == initial.skip(filled_from_ring(i as nat, initial.len()) as int),
            forall|j: int|
                0 <= j < filled_from_ring(i as nat, initial.len()) ==> out@[j] == initial[j],
            forall|j: int| filled_from_ring(i as nat, initial.len()) <= j < i ==> out@[j] == 0i16,
        decreases n - i,
    {
        let ghost k = filled_from_ring(i as nat, initial.len());
        match ring.pop_sample() {
            Some(s) => {
                proof {
                    assert(initial.skip(k as int).len() > 0);
                    assert(k < initial.len());
                    assert(s == initial.skip(k as int).first());
                    assert(s == initial[k as int]);
                    assert(initial.skip(k as int).drop_first() =~= initial.skip(k as int + 1));
                }
                out.push(s);
            },
            None => {
                proof {
                    assert(initial.skip(k as int).len() == 0);
                    assert(k >= initial.len());
                }
                out.push(0i16);
            },
        }
        i = i + 1;
    }
    out
}

/// The signed sample two little-endian bytes decode to.
pub open spec fn sample_of(lo: u8, hi: u8) -> i16 {
    if lo + 256 * hi < 32768 {
        (lo + 256 * hi) as i16
    } else {
        (lo + 256 * hi - 65536) as i16
    }
}

/// The unsigned 16-bit pattern of a signed sample.
pub open spec fn sample_bits(s: i16) -> int {
    if s >= 0 {
        s as int
    } else {
        s + 65536
    }
}

/// The samples a little-endian PCM16 byte run decodes to; a trailing
/// odd byte carries no complete sample and is ignored.
pub open spec fn samples_of_bytes(b: Seq<u8>) -> Seq<i16> {
    Seq::new(b.len() / 2, |i: int| sample_of(b[2 * i], b[2 * i + 1]))
}

/// The little-endian PCM16 byte run a sample sequence encodes to.
pub open spec fn bytes_of_samples(s: Seq<i16>) -> Seq<u8> {
    Seq::new(
        2 * s.len(),
        |i: int|
            if i % 2 == 0 {
                (sample_bits(s[i / 2]) % 256) as u8
            } else {
                (sample_bits(s[i / 2]) / 256) as u8
            },
    )
}

/// Decode a little-endian PCM16 byte run into samples.
pub fn decode_pcm16(bytes: &Vec<u8>) -> (out: Vec<i16>)
    ensures
        out@ == samples_of_bytes(bytes@),
{
    let nbytes: usize = bytes.len();
    let total: usize = nbytes / 2;
    let mut out: Vec<i16> = Vec::new();
    let mut i: usize = 0;
    while i < total
        invariant
            i <= total,
            nbytes == bytes@.len(),
            total == nbytes / 2,
            out@.len() == i,
            forall|j: int| 0 <= j < i ==> out@[j] == samples_of_bytes(bytes@)[j],
        decreases total - i,
    {
        proof {
            assert(2 * i + 1 < nbytes);
        }
        let lo = bytes[2 * i];
        let hi = bytes[2 * i + 1];
        let bits: u32 = lo as u32 + 256 * (hi as u32);
        let s: i16 = if bits < 32768 {
            bits as i16
        } else {
            (bits as i64 - 65536) as i16
        };
        proof {
            assert(s == sample_of(bytes@[2 * i as int], bytes@[2 * i as int + 1]));
        }
        out.push(s);
        i = i + 1;
    }
    proof {
        assert(out@ =~= samples_of_bytes(bytes@));
    }
    out
}

/// Encode samples into their little-endian PCM16 byte run.
pub fn encode_pcm16(samples: &Vec<i16>) -> (out: Vec<u8>)
    ensures
        out@ == bytes_of_samples(samples@),
{
    let mut out: Vec<u8> = Vec::new();
    let mut i: usize = 0;
    while i < samples.len()
        invariant
            i <= samples@.len(),
            out@.len() == 2 * i,
            forall|j: int| 0 <= j < 2 * i ==> out@[j] == bytes_of_samples(samples@)[j],
        decreases samples@.len() - i,
    {
        let s = samples[i];
        let bits: u32 = if s >= 0 {
            s as u32
        } else {
            (s as i64 + 65536) as u32
        };
        proof {
            assert(bits == sample_bits(samples@[i as int]));
        }
        out.push((bits % 256) as u8);
        out.push((bits / 256) as u8);
        i = i + 1;
    }
    proof {
        assert(out@ =~= bytes_of_samples(samples@));
    }
    out
}

/// Decoding inverts encoding: any sample sequence survives the trip
/// through its little-endian PCM16 byte run unchanged.
pub proof fn lemma_pcm16_round_trip(s: Seq<i16>)
    ensures
        samples_of_bytes(bytes_of_samples(s)) =~= s,
{
    let b = bytes_of_samples(s);
    assert forall|i: int| 0 <= i < s.len() implies samples_of_bytes(b)[i] == s[i] by {
        assert(b[2 * i] == (sample_bits(s[i]) % 256) as u8);
        assert(b[2 * i + 1] == (sample_bits(s[i]) / 256) as u8);
    }
}

} // verus!
