//! DSD over PCM: one-bit audio in marked 24-bit frames.

use crate::bytes;
use crate::playback::upnp_dsp::wav;
use vstd::prelude::*;

verus! {

pub const DOP_WAV_CHANNELS: usize = 2;

pub const DOP_WAV_SAMPLE_BYTES: u64 = 3;

pub const DOP_WAV_FRAME_BYTES: u64 = 6;

/// The markers that alternate from frame to frame.
pub const DOP_MARKER_A: u8 = 0x05;

pub const DOP_MARKER_B: u8 = 0xfa;

/// The one-bit idle pattern.
pub const DOP_IDLE_BYTE: u8 = 0x69;

/// Whether the frame that holds a data byte carries the second marker.
pub open spec fn spec_phase_b(data_byte: int) -> bool {
    data_byte / 6 % 2 == 1
}

/// Whether the frame that holds a data byte carries the second marker.
pub fn dop_marker_phase_b_for_data_byte(data_byte: u64) -> (r: bool)
    ensures
        r == spec_phase_b(data_byte as int),
{
    (data_byte / DOP_WAV_FRAME_BYTES) % 2 == 1
}

/// The marker of the `frame`-th frame after the one at `start`.
pub open spec fn frame_marker(start: int, frame: int) -> u8 {
    if (start / 6 + frame) % 2 == 1 {
        DOP_MARKER_B
    } else {
        DOP_MARKER_A
    }
}

/// A left-justified 24-bit sample as three little-endian bytes, its top byte
/// replaced by the marker.
pub open spec fn marked_sample(sample: i32, marker: u8) -> Seq<u8> {
    let raw = bytes::two_complement(sample as int);
    seq![(raw / 0x100 % 256) as u8, (raw / 0x1_0000 % 256) as u8, marker]
}

/// Interleaved two-channel samples as marked bytes that begin at data byte
/// `start`.
pub open spec fn dop_data(samples: Seq<i32>, start: int) -> Seq<u8>
    decreases samples.len(),
{
    if samples.len() == 0 {
        Seq::empty()
    } else {
        dop_data(samples.drop_last(), start) + marked_sample(
            samples.last(),
            frame_marker(start, (samples.len() - 1) as int / 2),
        )
    }
}

pub proof fn lemma_dop_data_len(samples: Seq<i32>, start: int)
    ensures
        dop_data(samples, start).len() == samples.len() * 3,
    decreases samples.len(),
{
    if samples.len() > 0 {
        lemma_dop_data_len(samples.drop_last(), start);
    }
}

/// The marker sequence does not depend on how a stream is cut into chunks of
/// whole frames: each chunk continues where the one before it ended.
pub proof fn law_dop_data_concat(a: Seq<i32>, b: Seq<i32>, start: int)
    requires
        a.len() % 2 == 0,
    ensures
        dop_data(a + b, start) == dop_data(a, start) + dop_data(b, start + a.len() * 3),
    decreases b.len(),
{
    if b.len() == 0 {
        assert(a + b =~= a);
        assert(dop_data(a, start) + Seq::<u8>::empty() =~= dop_data(a, start));
    } else {
        assert((a + b).drop_last() =~= a + b.drop_last());
        law_dop_data_concat(a, b.drop_last(), start);
        let n = a.len() as int;
        let m = (b.len() - 1) as int;
        assert((n + m) / 2 == n / 2 + m / 2);
        assert((start + n * 3) / 6 == start / 6 + n / 2);
        assert(frame_marker(start, (n + m) / 2) == frame_marker(start + n * 3, m / 2));
        assert(dop_data(a + b, start) =~= dop_data(a, start) + dop_data(b, start + a.len() * 3));
    }
}

/// In every frame both channels carry the same marker, and the markers of
/// adjacent frames differ.
pub proof fn law_dop_markers_alternate(samples: Seq<i32>, start: int, frame: int)
    requires
        start >= 0,
        0 <= frame,
        2 * frame + 1 < samples.len(),
    ensures
        dop_data(samples, start)[6 * frame + 2] == frame_marker(start, frame),
        dop_data(samples, start)[6 * frame + 5] == frame_marker(start, frame),
        frame_marker(start, frame) != frame_marker(start, frame + 1),
{
    lemma_dop_byte(samples, start, 2 * frame);
    lemma_dop_byte(samples, start, 2 * frame + 1);
}

proof fn lemma_dop_byte(samples: Seq<i32>, start: int, i: int)
    requires
        0 <= i < samples.len(),
    ensures
        dop_data(samples, start)[3 * i + 2] == frame_marker(start, i / 2),
    decreases samples.len(),
{
    lemma_dop_data_len(samples, start);
    lemma_dop_data_len(samples.drop_last(), start);
    if i < samples.len() - 1 {
        lemma_dop_byte(samples.drop_last(), start, i);
    }
}

/// How many of `len` samples fit into `remaining_bytes` as whole frames.
pub open spec fn fitting_dop_samples(len: nat, remaining_bytes: nat) -> nat {
    let fit = wav::fitting_samples(len, remaining_bytes, 3);
    (fit - fit % 2) as nat
}

fn push_marked(out: &mut Vec<u8>, sample: i32, marker: u8)
    ensures
        final(out)@ == old(out)@ + marked_sample(sample, marker),
{
    let raw = bytes::as_unsigned(sample);
    out.push((raw / 0x100 % 256) as u8);
    out.push((raw / 0x1_0000 % 256) as u8);
    out.push(marker);
    proof {
        assert(out@ =~= old(out)@ + marked_sample(sample, marker));
    }
}

/// Appends the first `count` samples as marked bytes that begin at data byte
/// `start`.
fn push_dop(out: &mut Vec<u8>, samples: &[i32], count: usize, start: u64)
    requires
        count <= samples@.len(),
    ensures
        final(out)@ == old(out)@ + dop_data(samples@.take(count as int), start as int),
{
    let ghost before = out@;
    let first_b = dop_marker_phase_b_for_data_byte(start);
    let mut i: usize = 0;
    proof {
        assert(before + dop_data(samples@.take(0), start as int) =~= before);
    }
    while i < count
        invariant
            i <= count <= samples@.len(),
            first_b == spec_phase_b(start as int),
            out@ == before + dop_data(samples@.take(i as int), start as int),
        decreases count - i,
    {
        let odd_frame = (i / 2) % 2 == 1;
        let marker: u8 = if first_b != odd_frame {
            DOP_MARKER_B
        } else {
            DOP_MARKER_A
        };
        proof {
            assert(marker == frame_marker(start as int, i as int / 2));
            assert(samples@.take(i + 1).drop_last() =~= samples@.take(i as int));
        }
        push_marked(out, samples[i], marker);
        proof {
            assert(out@ =~= before + dop_data(samples@.take(i + 1), start as int));
        }
        i = i + 1;
    }
}

/// The marked bytes of as many whole frames as fit into `remaining_bytes`,
/// with the marker phase that the position `start_data_byte` calls for.
pub fn dop_samples_to_wav_bytes(
    samples: &[i32],
    remaining_bytes: u64,
    start_data_byte: u64,
) -> (r: Vec<u8>)
    ensures
        r@ == dop_data(
            samples@.take(fitting_dop_samples(samples@.len(), remaining_bytes as nat) as int),
            start_data_byte as int,
        ),
{
    let max_samples: u64 = remaining_bytes / DOP_WAV_SAMPLE_BYTES;
    let fit: usize = if samples.len() as u64 <= max_samples {
        samples.len()
    } else {
        max_samples as usize
    };
    let count: usize = fit - fit % 2;
    let mut out: Vec<u8> = Vec::new();
    push_dop(&mut out, samples, count, start_data_byte);
    proof {
        assert(Seq::<u8>::empty() + dop_data(samples@.take(count as int), start_data_byte as int)
            =~= dop_data(samples@.take(count as int), start_data_byte as int));
    }
    out
}

/// A left-justified idle sample.
pub const DOP_IDLE_SAMPLE: i32 = 0x0569_6900;

/// `frames` frames of idle samples.
pub open spec fn idle_samples(frames: nat) -> Seq<i32> {
    Seq::new(frames * 2, |i: int| DOP_IDLE_SAMPLE)
}

/// An idle sample carries the idle pattern in both data bytes.
pub proof fn law_idle_sample_bytes(marker: u8)
    ensures
        marked_sample(DOP_IDLE_SAMPLE, marker) == seq![DOP_IDLE_BYTE, DOP_IDLE_BYTE, marker],
{
    assert(marked_sample(DOP_IDLE_SAMPLE, marker) =~= seq![DOP_IDLE_BYTE, DOP_IDLE_BYTE, marker]);
}

/// Appends idle samples for as many whole frames as `data_len` bytes hold.
pub fn append_dop_idle_samples(out: &mut Vec<i32>, data_len: u64)
    requires
        data_len <= u32::MAX,
    ensures
        final(out)@ == old(out)@ + idle_samples((data_len / 6) as nat),
{
    let frames: u64 = data_len / DOP_WAV_FRAME_BYTES;
    let ghost start = out@;
    let count: u64 = frames * 2;
    let mut i: u64 = 0;
    proof {
        assert(start + idle_samples(frames as nat).take(0) =~= start);
    }
    while i < count
        invariant
            i <= count,
            count == frames * 2,
            out@ == start + idle_samples(frames as nat).take(i as int),
        decreases count - i,
    {
        out.push(DOP_IDLE_SAMPLE);
        proof {
            assert((start + idle_samples(frames as nat).take(i as int)).push(DOP_IDLE_SAMPLE)
                =~= start + idle_samples(frames as nat).take(i + 1));
        }
        i = i + 1;
    }
    proof {
        assert(idle_samples(frames as nat).take(count as int) =~= idle_samples(frames as nat));
    }
}

/// The marked bytes of `frames` idle frames from data byte `start` on.
pub fn idle_dop_bytes(frames: u64, start: u64) -> (r: Vec<u8>)
    requires
        frames <= 0x1000_0000,
    ensures
        r@ == dop_data(idle_samples(frames as nat), start as int),
{
    let mut samples: Vec<i32> = Vec::new();
    append_dop_idle_samples(&mut samples, frames * 6);
    proof {
        assert(Seq::<i32>::empty() + idle_samples(frames as nat) =~= idle_samples(frames as nat));
        assert(samples@.take(samples@.len() as int) =~= samples@);
    }
    let mut out: Vec<u8> = Vec::new();
    push_dop(&mut out, samples.as_slice(), samples.len(), start);
    proof {
        assert(Seq::<u8>::empty() + dop_data(idle_samples(frames as nat), start as int)
            =~= dop_data(idle_samples(frames as nat), start as int));
    }
    out
}

proof fn lemma_dop_sample(samples: Seq<i32>, start: int, i: int)
    requires
        0 <= i < samples.len(),
    ensures
        dop_data(samples, start).len() == 3 * samples.len(),
        dop_data(samples, start)[3 * i] == marked_sample(samples[i], 0)[0],
        dop_data(samples, start)[3 * i + 1] == marked_sample(samples[i], 0)[1],
        dop_data(samples, start)[3 * i + 2] == frame_marker(start, i / 2),
    decreases samples.len(),
{
    lemma_dop_data_len(samples, start);
    lemma_dop_data_len(samples.drop_last(), start);
    if i < samples.len() - 1 {
        lemma_dop_sample(samples.drop_last(), start, i);
    }
}

/// Sample `i` of marked audio takes three bytes: the two bytes of one-bit data
/// that it holds above its lowest byte, and the marker of its frame, which is
/// 0x05 in even frames of the whole stream and 0xfa in odd ones.
pub proof fn law_dop_sample_bytes(samples: Seq<i32>, start: int, i: int)
    requires
        0 <= start,
        0 <= i < samples.len(),
    ensures
        ({
            let data = dop_data(samples, start);
            &&& data.len() == 3 * samples.len()
            &&& data[3 * i] == samples[i] as int / 0x100 % 0x100
            &&& data[3 * i + 1] == samples[i] as int / 0x1_0000 % 0x100
            &&& data[3 * i + 2] == (if (start / 6 + i / 2) % 2 == 0 {
                0x05u8
            } else {
                0xfau8
            })
        }),
{
    lemma_dop_sample(samples, start, i);
    bytes::lemma_two_complement(samples[i]);
}

/// A frame of idle samples is the idle pattern under its marker.
pub proof fn law_idle_frames_are_idle(frames: nat, start: int, i: int)
    requires
        0 <= start,
        0 <= i < 2 * frames,
    ensures
        ({
            let data = dop_data(idle_samples(frames), start);
            &&& data.len() == 6 * frames
            &&& data[3 * i] == 0x69
            &&& data[3 * i + 1] == 0x69
        }),
{
    law_dop_sample_bytes(idle_samples(frames), start, i);
}

/// Marked audio is cut at whole frames: what is taken fits, and another frame
/// would not, or is not there.
pub proof fn law_fitting_dop_samples_fill_the_rest(len: nat, remaining_bytes: nat)
    ensures
        ({
            let fit = fitting_dop_samples(len, remaining_bytes);
            &&& fit % 2 == 0
            &&& fit <= len
            &&& fit * 3 <= remaining_bytes
            &&& fit + 2 > len || (fit + 2) * 3 > remaining_bytes
        }),
{
}

/// The frame that holds a byte carries the second marker exactly when the data
/// around it does: the markers take turns, beginning with the first.
pub proof fn law_phase_is_that_of_the_marker(data_byte: u64, r: bool)
    requires
        call_ensures(dop_marker_phase_b_for_data_byte, (data_byte,), r),
    ensures
        r ==> frame_marker(data_byte as int, 0) == 0xfa,
        !r ==> frame_marker(data_byte as int, 0) == 0x05,
        data_byte < 6 ==> !r,
        6 <= data_byte < 12 ==> r,
{
}

} // verus!
