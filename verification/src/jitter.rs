//! The jitter buffer between the network-receive path and the audio
//! render path: a bounded FIFO queue of signed 16-bit samples, created
//! with a pre-loaded silence delay. Pushing never blocks (a sample is
//! dropped when the queue is full) and popping never blocks (silence is
//! substituted when the queue is empty). The queue itself is the ringbuf
//! crate's heap ring buffer, held behind trusted wrappers; both endpoints
//! are kept in one owner so that what the producer appends is exactly
//! what the consumer yields.

use vstd::prelude::*;

use crate::wire;

verus! {

use crate::wire::spec_samples_of_bytes;

/// A bounded single-producer single-consumer queue of samples with a
/// fixed playout delay. Holds the two endpoints of one ringbuf heap ring
/// buffer.
#[verifier::external_body]
pub struct JitterBuffer {
    producer: ringbuf::HeapProducer<i16>,
    consumer: ringbuf::HeapConsumer<i16>,
}

/// The samples the queue holds, oldest first.
pub uninterp spec fn spec_samples(jb: JitterBuffer) -> Seq<i16>;

/// The largest number of samples the queue can hold: the capacity it was
/// created with.
pub uninterp spec fn spec_capacity(jb: JitterBuffer) -> nat;

/// A queue never holds more than its capacity. Construction establishes
/// this and every operation preserves it.
pub open spec fn spec_wf(jb: JitterBuffer) -> bool {
    spec_samples(jb).len() <= spec_capacity(jb)
}

/// Relies on ringbuf's `HeapRb::new` and `SharedRb::split`: a queue of
/// the given capacity, created empty.
#[verifier::external_body]
fn rb_new(capacity: usize) -> (r: JitterBuffer)
    requires
        capacity > 0,
    ensures
        spec_samples(r) == Seq::<i16>::empty(),
        spec_capacity(r) == capacity,
{
    let (producer, consumer) = ringbuf::HeapRb::new(capacity).split();
    JitterBuffer { producer, consumer }
}

/// Relies on ringbuf's `Producer::push`: appends the sample when the
/// queue is not full, else returns it to the caller and changes nothing.
#[verifier::external_body]
fn rb_push(jb: &mut JitterBuffer, sample: i16) -> (r: bool)
    ensures
        spec_capacity(*final(jb)) == spec_capacity(*old(jb)),
        r == (spec_samples(*old(jb)).len() < spec_capacity(*old(jb))),
        r ==> spec_samples(*final(jb)) == spec_samples(*old(jb)).push(sample),
        !r ==> spec_samples(*final(jb)) == spec_samples(*old(jb)),
{
    jb.producer.push(sample).is_ok()
}

/// Relies on ringbuf's `Consumer::pop`: removes and returns the oldest
/// sample, or returns nothing when the queue is empty.
#[verifier::external_body]
fn rb_pop(jb: &mut JitterBuffer) -> (r: Option<i16>)
    ensures
        spec_capacity(*final(jb)) == spec_capacity(*old(jb)),
        spec_samples(*old(jb)).len() == 0 ==> r is None && spec_samples(*final(jb))
            == spec_samples(*old(jb)),
        spec_samples(*old(jb)).len() > 0 ==> r == Some(spec_samples(*old(jb))[0]) && spec_samples(
            *final(jb),
        ) == spec_samples(*old(jb)).drop_first(),
{
    jb.consumer.pop()
}

/// The playout delay in samples for a latency in milliseconds: the
/// latency's share of a second of frames, rounded, times the channels.
pub open spec fn spec_latency_samples(latency_ms: int, sample_rate: int, channels: int) -> int {
    ((latency_ms * sample_rate + 500) / 1000) * channels
}

impl JitterBuffer {
    /// A queue with room for twice the playout delay, pre-loaded with
    /// `latency_samples` silent samples.
    pub fn new(latency_samples: usize) -> (r: JitterBuffer)
        requires
            latency_samples > 0,
            2 * latency_samples <= usize::MAX,
        ensures
            spec_capacity(r) == 2 * latency_samples,
            spec_samples(r) == Seq::new(latency_samples as nat, |k: int| 0i16),
            spec_wf(r),
    {
        let mut jb = rb_new(2 * latency_samples);
        let mut i: usize = 0;
        while i < latency_samples
            invariant
                i <= latency_samples,
                spec_capacity(jb) == 2 * latency_samples,
                spec_samples(jb) =~= Seq::new(i as nat, |k: int| 0i16),
            decreases latency_samples - i,
        {
            let pushed = rb_push(&mut jb, 0);
            proof {
                assert(pushed);
                assert(spec_samples(jb) =~= Seq::new((i + 1) as nat, |k: int| 0i16));
            }
            i = i + 1;
        }
        proof {
            assert(spec_samples(jb) =~= Seq::new(latency_samples as nat, |k: int| 0i16));
        }
        jb
    }

    /// Append one sample; when the queue is full the sample is dropped
    /// and `false` comes back.
    pub fn push(&mut self, sample: i16) -> (r: bool)
        ensures
            spec_capacity(*final(self)) == spec_capacity(*old(self)),
            r == (spec_samples(*old(self)).len() < spec_capacity(*old(self))),
            r ==> spec_samples(*final(self)) == spec_samples(*old(self)).push(sample),
            !r ==> spec_samples(*final(self)) == spec_samples(*old(self)),
            spec_wf(*old(self)) ==> spec_wf(*final(self)),
    {
        rb_push(self, sample)
    }

    /// Remove and return the oldest sample, or nothing when empty.
    pub fn pop(&mut self) -> (r: Option<i16>)
        ensures
            spec_capacity(*final(self)) == spec_capacity(*old(self)),
            spec_samples(*old(self)).len() == 0 ==> r is None && spec_samples(*final(self))
                == spec_samples(*old(self)),
            spec_samples(*old(self)).len() > 0 ==> r == Some(spec_samples(*old(self))[0])
                && spec_samples(*final(self)) == spec_samples(*old(self)).drop_first(),
            spec_wf(*old(self)) ==> spec_wf(*final(self)),
    {
        rb_pop(self)
    }

    /// The render path's pop: the oldest sample, or silence when the
    /// queue is drained. Never blocks, never fails.
    pub fn pop_or_silence(&mut self) -> (r: i16)
        ensures
            spec_capacity(*final(self)) == spec_capacity(*old(self)),
            spec_samples(*old(self)).len() == 0 ==> r == 0 && spec_samples(*final(self))
                == spec_samples(*old(self)),
            spec_samples(*old(self)).len() > 0 ==> r == spec_samples(*old(self))[0]
                && spec_samples(*final(self)) == spec_samples(*old(self)).drop_first(),
            spec_wf(*old(self)) ==> spec_wf(*final(self)),
    {
        match rb_pop(self) {
            Some(sample) => sample,
            None => 0,
        }
    }

    /// The receive path's push of one packet payload: each little-endian
    /// byte pair becomes one sample, pushed in order; samples that meet a
    /// full queue are dropped. A trailing odd byte carries no sample.
    pub fn push_payload(&mut self, data: &[u8])
        requires
            spec_wf(*old(self)),
        ensures
            ({
                let dec = spec_samples_of_bytes(data@);
                let free = spec_capacity(*old(self)) - spec_samples(*old(self)).len();
                let taken = if dec.len() <= free {
                    dec.len() as int
                } else {
                    free
                };
                &&& spec_capacity(*final(self)) == spec_capacity(*old(self))
                &&& spec_samples(*final(self)) == spec_samples(*old(self)) + dec.take(taken)
                &&& spec_wf(*final(self))
            }),
    {
        let ghost dec = spec_samples_of_bytes(data@);
        let ghost free = spec_capacity(*old(self)) - spec_samples(*old(self)).len();
        let len = data.len();
        let pairs = len / 2;
        proof {
            assert(spec_samples(*self) =~= spec_samples(*old(self)) + dec.take(0));
        }
        let mut i: usize = 0;
        while i < pairs
            invariant
                i <= pairs,
                len == data@.len(),
                pairs == len / 2,
                dec == spec_samples_of_bytes(data@),
                free == spec_capacity(*old(self)) - spec_samples(*old(self)).len(),
                spec_capacity(*self) == spec_capacity(*old(self)),
                spec_samples(*self) == spec_samples(*old(self)) + dec.take(
                    if i <= free {
                        i as int
                    } else {
                        free
                    },
                ),
            decreases pairs - i,
        {
            proof {
                assert(2 * i + 1 < data@.len());
            }
            let b0 = data[2 * i];
            let b1 = data[2 * i + 1];
            let sample = wire::le_i16_from_bytes(b0, b1);
            proof {
                wire::lemma_i16_u16_round_trip();
                assert(seq![data@[2 * i], data@[2 * i + 1]] =~= seq![b0, b1]);
                assert(dec[i as int] == sample);
            }
            let ghost before = spec_samples(*self);
            let pushed = rb_push(self, sample);
            proof {
                if i < free {
                    assert(pushed);
                    assert(dec.take(i + 1) =~= dec.take(i as int).push(dec[i as int]));
                    assert(spec_samples(*self) =~= spec_samples(*old(self)) + dec.take(i + 1));
                } else {
                    assert(!pushed);
                }
            }
            i = i + 1;
        }
        proof {
            let taken = if dec.len() <= free {
                dec.len() as int
            } else {
                free
            };
            assert(dec.len() == pairs);
            assert(dec.take(
                if pairs <= free {
                    pairs as int
                } else {
                    free
                },
            ) =~= dec.take(taken));
        }
    }
}

/// Until a genuine sample is pushed, everything a fresh buffer can yield
/// is silence: each pre-loaded sample is zero.
pub proof fn lemma_initial_silence(jb: JitterBuffer, latency_samples: usize, i: int)
    requires
        spec_samples(jb) == Seq::new(latency_samples as nat, |k: int| 0i16),
        0 <= i < latency_samples,
    ensures
        spec_samples(jb)[i] == 0,
{
}

/// Build the jitter buffer for a stream configuration: the playout delay
/// is the rounded sample count for the latency, and the queue has room
/// for twice that delay.
pub fn start_buffer(latency_ms: u32, sample_rate: u32, channels: u16) -> (r: JitterBuffer)
    requires
        spec_latency_samples(latency_ms as int, sample_rate as int, channels as int) > 0,
        2 * spec_latency_samples(latency_ms as int, sample_rate as int, channels as int)
            <= usize::MAX,
    ensures
        ({
            let ls = spec_latency_samples(latency_ms as int, sample_rate as int, channels as int);
            &&& spec_capacity(r) == 2 * ls
            &&& spec_samples(r) == Seq::new(ls as nat, |k: int| 0i16)
            &&& spec_wf(r)
        }),
{
    proof {
        let lm = latency_ms as int;
        let sr = sample_rate as int;
        assert(lm * sr + 500 < 0xffff_ffff_ffff_ffff) by (nonlinear_arith)
            requires
                0 <= lm < 0x1_0000_0000,
                0 <= sr < 0x1_0000_0000,
        ;
    }
    let frames: u64 = (latency_ms as u64 * sample_rate as u64 + 500) / 1000;
    proof {
        assert(frames as int == (latency_ms as int * sample_rate as int + 500) / 1000);
        assert(frames as int * channels as int == spec_latency_samples(
            latency_ms as int,
            sample_rate as int,
            channels as int,
        ));
    }
    let ls_wide: u64 = frames * channels as u64;
    let latency_samples: usize = ls_wide as usize;
    JitterBuffer::new(latency_samples)
}

} // verus!
