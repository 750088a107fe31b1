//! The emitter's fragmentation of one capture buffer into protocol
//! frames: the buffer is cut into equally long chunks bounded by the
//! largest frame the audio sub-protocol allows, and each chunk becomes
//! one wire datagram; a trailing remainder shorter than one chunk is
//! dropped, never sent.

use vstd::prelude::*;

use crate::header::{Header, HeaderView, MAX_NUM_SAMPLES, spec_encode};
use crate::wire;

verus! {

use vstd::arithmetic::div_mod::{lemma_fundamental_div_mod, lemma_div_by_multiple,
    lemma_multiply_divide_lt, lemma_div_is_ordered, lemma_div_by_self, lemma_div_decreases,
    lemma_div_nonincreasing, lemma_fundamental_div_mod_converse_div, lemma_add_mod_noop};
use crate::wire::spec_le_samples;

/// How many chunks one capture buffer of `total` samples is cut into:
/// the least count that brings every chunk under the frame bound.
pub open spec fn spec_chunks_amount(total: int) -> int {
    total / (MAX_NUM_SAMPLES as int) + if total % (MAX_NUM_SAMPLES as int) > 0 {
        1int
    } else {
        0int
    }
}

/// How many samples each emitted chunk holds.
pub open spec fn spec_chunk_len(total: int) -> int {
    total / spec_chunks_amount(total)
}

/// For a non-empty buffer the chunk arithmetic is well defined: there is
/// at least one chunk, each chunk holds between 1 and 256 samples, and a
/// whole number of chunks fits in the buffer.
pub proof fn lemma_chunk_bounds(total: int)
    requires
        total > 0,
    ensures
        1 <= spec_chunks_amount(total),
        1 <= spec_chunk_len(total) <= 256,
        spec_chunk_len(total) <= total,
        1 <= total / spec_chunk_len(total),
{
    let m = MAX_NUM_SAMPLES as int;
    let q = total / m;
    let r = total % m;
    lemma_fundamental_div_mod(total, m);
    let chunks = spec_chunks_amount(total);
    if r == 0 {
        assert(total == m * q);
        assert(q >= 1);
        lemma_div_by_multiple(m, q);
        assert(spec_chunk_len(total) == (m * q) / q);
        assert(spec_chunk_len(total) == m);
    } else {
        assert(chunks == q + 1);
        if q > 0 {
            lemma_div_decreases(total, m);
        }
        assert(chunks <= total);
        lemma_div_by_self(chunks);
        lemma_div_is_ordered(chunks, total, chunks);
        assert(1 <= spec_chunk_len(total));
        assert(total < (q + 1) * m);
        lemma_multiply_divide_lt(total, q + 1, m);
        assert(spec_chunk_len(total) < m);
    }
    let cl = spec_chunk_len(total);
    lemma_div_nonincreasing(total, chunks);
    lemma_div_by_self(cl);
    lemma_div_is_ordered(cl, total, cl);
}

/// Number of chunks a buffer of `total_samples` samples is cut into.
pub fn chunks_amount(total_samples: usize) -> (r: usize)
    ensures
        r == spec_chunks_amount(total_samples as int),
{
    let mut chunks = total_samples / MAX_NUM_SAMPLES;
    if total_samples % MAX_NUM_SAMPLES > 0 {
        chunks = chunks + 1;
    }
    chunks
}

/// Number of samples in each emitted chunk.
pub fn chunk_len(total_samples: usize) -> (r: usize)
    requires
        total_samples > 0,
    ensures
        r == spec_chunk_len(total_samples as int),
{
    proof {
        lemma_chunk_bounds(total_samples as int);
    }
    total_samples / chunks_amount(total_samples)
}

/// The frame counter after `k` more frames, wrapping as a 32-bit counter.
pub open spec fn spec_wrap_add(fc: u32, k: int) -> u32 {
    ((fc + k) % 0x1_0000_0000) as u32
}

/// The wire samples-per-frame field every emitted frame carries: one less
/// than the per-channel sample count of a chunk.
pub open spec fn spec_frame_samples_field(total: int, channels: int) -> u8 {
    (spec_chunk_len(total) / channels - 1) as u8
}

/// The header an emitted frame carries: the template with the
/// samples-per-frame field set for this buffer and the frame counter of
/// this chunk.
pub open spec fn spec_frame_header(h: HeaderView, total: int, fc0: u32, i: int) -> HeaderView {
    HeaderView {
        num_samples: spec_frame_samples_field(total, h.num_channels + 1),
        frame_number: spec_wrap_add(fc0, i),
        ..h
    }
}

/// The full wire bytes of the `i`-th emitted frame.
pub open spec fn spec_frame_bytes(h: HeaderView, input: Seq<i16>, fc0: u32, i: int) -> Seq<u8> {
    let total = input.len() as int;
    let cl = spec_chunk_len(total);
    spec_encode(spec_frame_header(h, total, fc0, i)) + spec_le_samples(
        input.subrange(i * cl, (i + 1) * cl),
    )
}

/// Cut one capture buffer into chunks and build the wire datagram of each:
/// the header template with this chunk's frame number and samples-per-frame
/// field, followed by the chunk's samples as little-endian 16-bit PCM. The
/// frame counter advances once per emitted frame and wraps; a trailing
/// remainder shorter than one chunk is dropped.
pub fn make_frames(input: &[i16], header: &mut Header, frame_count: &mut u32) -> (r: Vec<Vec<u8>>)
    requires
        old(header)@.wf(),
        input@.len() > 0,
        spec_chunk_len(input@.len() as int) >= old(header)@.num_channels + 1,
    ensures
        ({
            let total = input@.len() as int;
            let n = total / spec_chunk_len(total);
            &&& r@.len() == n
            &&& forall|i: int|
                0 <= i < n ==> #[trigger] r@[i]@ == spec_frame_bytes(
                    old(header)@,
                    input@,
                    *old(frame_count),
                    i,
                )
            &&& *final(frame_count) == spec_wrap_add(*old(frame_count), n)
            &&& final(header)@ == spec_frame_header(old(header)@, total, *old(frame_count), n - 1)
            &&& final(header)@.wf()
        }),
{
    let ghost total = input@.len() as int;
    let ghost fc0 = *frame_count;
    let ghost h0 = old(header)@;
    proof {
        lemma_chunk_bounds(total);
    }
    let cl = chunk_len(input.len());
    let channels = header.num_channels() as usize;
    proof {
        lemma_div_by_self(channels as int);
        lemma_div_is_ordered(channels as int, cl as int, channels as int);
        lemma_div_nonincreasing(cl as int, channels as int);
    }
    let ns_count = cl / channels;
    let ns: u8 = (ns_count - 1) as u8;
    proof {
        assert(spec_frame_samples_field(total, h0.num_channels + 1) == ns);
    }
    let ghost n = total / (cl as int);
    let mut frames: Vec<Vec<u8>> = Vec::new();
    let mut i: usize = 0;
    let mut start: usize = 0;
    while start <= input.len() - cl
        invariant
            old(header)@ == h0,
            cl == spec_chunk_len(total),
            total == input@.len(),
            total > 0,
            1 <= cl <= 256,
            cl <= total,
            n == total / (cl as int),
            channels == h0.num_channels + 1,
            ns == spec_frame_samples_field(total, h0.num_channels + 1),
            start == i * cl,
            start <= total,
            i <= n,
            frames@.len() == i,
            forall|k: int|
                0 <= k < i ==> #[trigger] frames@[k]@ == spec_frame_bytes(h0, input@, fc0, k),
            *frame_count == spec_wrap_add(fc0, i as int),
            header@ == if i == 0 {
                h0
            } else {
                spec_frame_header(h0, total, fc0, i - 1)
            },
            header@.wf(),
        decreases input@.len() - start,
    {
        proof {
            assert((i + 1) * cl == i * cl + cl) by (nonlinear_arith);
            lemma_div_by_multiple((i + 1) as int, cl as int);
            lemma_div_is_ordered(((i + 1) * cl) as int, total, cl as int);
            assert(i + 1 <= n);
        }
        header.set_num_samples(ns);
        header.set_frame_number(*frame_count);
        proof {
            assert(header@ =~= spec_frame_header(h0, total, fc0, i as int));
        }
        let mut buf = header.encode();
        let end = start + cl;
        let ghost chunk = input@.subrange(start as int, end as int);
        let mut j = start;
        while j < end
            invariant
                start <= j <= end <= input@.len(),
                end == start + cl,
                chunk == input@.subrange(start as int, end as int),
                buf@.len() == 28 + 2 * (j - start),
                forall|m: int|
                    0 <= m < 28 ==> #[trigger] buf@[m] == spec_encode(
                        spec_frame_header(h0, total, fc0, i as int),
                    )[m],
                forall|m: int|
                    0 <= m < 2 * (j - start) ==> #[trigger] buf@[28 + m] == spec_le_samples(
                        chunk,
                    )[m],
            decreases end - j,
        {
            let (b0, b1) = wire::le_i16_to_bytes(input[j]);
            buf.push(b0);
            buf.push(b1);
            proof {
                let k = j - start;
                assert(chunk[k] == input@[j as int]);
                let w = vstd::bytes::spec_u16_to_le_bytes(wire::spec_u16_of_i16(chunk[k]));
                assert(b0 == w[0] && b1 == w[1]);
                assert((2 * k) / 2 == k && (2 * k) % 2 == 0);
                assert((2 * k + 1) / 2 == k && (2 * k + 1) % 2 == 1);
                assert(spec_le_samples(chunk)[2 * k] == w[0]);
                assert(spec_le_samples(chunk)[2 * k + 1] == w[1]);
            }
            j = j + 1;
        }
        proof {
            let fb = spec_frame_bytes(h0, input@, fc0, i as int);
            assert(chunk == input@.subrange(i * cl, (i + 1) * cl));
            assert(spec_le_samples(chunk).len() == 2 * cl);
            assert forall|x: int| 0 <= x < buf@.len() implies buf@[x] == fb[x] by {
                if x >= 28 {
                    assert(buf@[28 + (x - 28)] == spec_le_samples(chunk)[x - 28]);
                } else {
                    assert(buf@[x] == spec_encode(spec_frame_header(h0, total, fc0, i as int))[x]);
                }
            }
            assert(buf@ =~= fb);
        }
        frames.push(buf);
        let fc_now = *frame_count;
        *frame_count = fc_now.wrapping_add(1);
        proof {
            let m = 0x1_0000_0000int;
            lemma_add_mod_noop(fc0 + i, 1, m);
            assert(*frame_count == spec_wrap_add(fc0, i + 1));
        }
        i = i + 1;
        start = end;
    }
    proof {
        assert(start == i * cl);
        assert(total - i * cl < cl);
        assert(total - i * cl >= 0);
        lemma_fundamental_div_mod_converse_div(total, cl as int, i as int, total - i * cl);
        assert(i as int == n);
        assert(n >= 1);
    }
    frames
}

} // verus!
