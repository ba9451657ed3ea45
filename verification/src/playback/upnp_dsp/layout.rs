//! The byte layout of generated streams, and where a range begins in time.

use crate::audio::{Real64, TrackTags};
use crate::playback::upnp_dsp::plan::OutputModeForUpnp;
use crate::playback::upnp_dsp::range::GeneratedByteRange;
use crate::playback::upnp_dsp::wav;
use crate::protocol::source::SourceRef;
use crate::text;
use vstd::prelude::*;
use vstd::string::*;

verus! {

/// How long a marked stream idles before its program begins.
pub const DOP_WAV_LEAD_IN_MS: u64 = 150;

/// The bytes of idle frames before a marked program: whole frames for the
/// lead-in time. Plain PCM has none.
pub open spec fn spec_lead_in(mode: OutputModeForUpnp, sample_rate: u32, bit_depth: u32) -> int {
    if !mode.spec_is_dsd() || bit_depth != 24 || sample_rate == 0 {
        0
    } else {
        sample_rate * DOP_WAV_LEAD_IN_MS / 1_000 * 6
    }
}

/// The bytes of idle frames before a marked program.
pub fn generated_dop_lead_in_data_len(
    active_output_mode: OutputModeForUpnp,
    sample_rate: u32,
    bit_depth: u32,
) -> (r: u64)
    ensures
        r == spec_lead_in(active_output_mode, sample_rate, bit_depth),
        r <= sample_rate,
        r % 6 == 0,
{
    if !active_output_mode.is_dsd() || bit_depth != 24 || sample_rate == 0 {
        return 0;
    }
    let frames: u64 = sample_rate as u64 * DOP_WAV_LEAD_IN_MS / 1_000;
    frames * 6
}

/// The sizes of a generated stream's parts.
#[derive(Clone, Copy, Debug, PartialEq, Eq, Structural)]
pub struct GeneratedWavLayout {
    pub data_len: u64,
    pub program_data_len: u64,
    pub dop_lead_in_data_len: u64,
}

/// The layout for a program of `frames` frames: lead-in and program, as long
/// as the data length fits the header.
pub open spec fn spec_layout(
    frames: Option<u64>,
    sample_rate: u32,
    bit_depth: u32,
    mode: OutputModeForUpnp,
) -> Option<GeneratedWavLayout> {
    match frames {
        Some(n) => {
            let program = n * wav::frame_bytes(bit_depth);
            let lead_in = spec_lead_in(mode, sample_rate, bit_depth);
            if sample_rate > 0 && wav::wav_depth(bit_depth) && program + lead_in <= u32::MAX {
                Some(
                    GeneratedWavLayout {
                        data_len: (program + lead_in) as u64,
                        program_data_len: program as u64,
                        dop_lead_in_data_len: lead_in as u64,
                    },
                )
            } else {
                None
            }
        },
        None => None,
    }
}

/// The layout for a program of `frames` frames; `None` stands for a duration
/// that is unknown, not finite or not positive.
pub fn generated_wav_layout_for_duration(
    frames: Option<u64>,
    sample_rate: u32,
    bit_depth: u32,
    active_output_mode: OutputModeForUpnp,
) -> (r: Option<GeneratedWavLayout>)
    ensures
        r == spec_layout(frames, sample_rate, bit_depth, active_output_mode),
{
    let frames: u64 = match frames {
        Some(n) => n,
        None => return None,
    };
    if sample_rate == 0 || (bit_depth != 16 && bit_depth != 24 && bit_depth != 32) {
        return None;
    }
    let bytes_per_frame: u64 = (bit_depth / 4) as u64;
    let program_data_len: u64 = match frames.checked_mul(bytes_per_frame) {
        Some(len) => len,
        None => return None,
    };
    let dop_lead_in_data_len = generated_dop_lead_in_data_len(
        active_output_mode,
        sample_rate,
        bit_depth,
    );
    let data_len: u64 = match program_data_len.checked_add(dop_lead_in_data_len) {
        Some(len) => len,
        None => return None,
    };
    if data_len > 0xffff_ffff {
        return None;
    }
    Some(GeneratedWavLayout { data_len, program_data_len, dop_lead_in_data_len })
}

/// The tags that a source carries itself.
pub open spec fn spec_tags(source: SourceRef) -> TrackTags {
    match source {
        SourceRef::LocalTrack { title, artist, album, album_artist, duration_secs, .. } => TrackTags {
            title,
            artist,
            album,
            album_artist,
            duration_secs,
            sample_rate: None,
            bits_per_sample: None,
            channels: None,
        },
        SourceRef::QobuzTrack { title, artist, album, duration_secs, .. } => TrackTags {
            title,
            artist,
            album,
            album_artist: artist,
            duration_secs,
            sample_rate: None,
            bits_per_sample: None,
            channels: None,
        },
    }
}

/// The tags that a source carries itself.
pub fn tags_for_source_ref(source_ref: &SourceRef) -> (r: TrackTags)
    ensures
        r == spec_tags(*source_ref),
{
    match source_ref {
        SourceRef::LocalTrack { title, artist, album, album_artist, duration_secs, .. } => TrackTags {
            title: title.clone(),
            artist: artist.clone(),
            album: album.clone(),
            album_artist: album_artist.clone(),
            duration_secs: *duration_secs,
            sample_rate: None,
            bits_per_sample: None,
            channels: None,
        },
        SourceRef::QobuzTrack { title, artist, album, duration_secs, .. } => TrackTags {
            title: title.clone(),
            artist: artist.clone(),
            album: album.clone(),
            album_artist: artist.clone(),
            duration_secs: *duration_secs,
            sample_rate: None,
            bits_per_sample: None,
            channels: None,
        },
    }
}

/// What a generated stream announces: its tags, its length and its lead-in.
pub struct GeneratedWavMetadata {
    pub tags: TrackTags,
    pub byte_len: Option<u64>,
    pub dop_lead_in_data_len: u64,
}

/// The layout of a source's stream; a source without a duration has none.
pub open spec fn spec_source_layout(
    source: SourceRef,
    program_frames: Option<u64>,
    target_rate: u32,
    target_bits: u32,
    mode: OutputModeForUpnp,
) -> Option<GeneratedWavLayout> {
    if spec_tags(source).duration_secs is None {
        None
    } else {
        spec_layout(program_frames, target_rate, target_bits, mode)
    }
}

/// What the generated stream of a source announces, given how many frames its
/// duration covers at the target rate.
pub fn generated_wav_metadata_for_source(
    source_ref: &SourceRef,
    program_frames: Option<u64>,
    target_rate: u32,
    target_bits: u32,
    active_output_mode: OutputModeForUpnp,
) -> (r: Option<GeneratedWavMetadata>)
    ensures
        r is Some <==> spec_source_layout(
            *source_ref,
            program_frames,
            target_rate,
            target_bits,
            active_output_mode,
        ) is Some,
        r is Some ==> ({
            let layout = spec_source_layout(
                *source_ref,
                program_frames,
                target_rate,
                target_bits,
                active_output_mode,
            )->0;
            r->0 == (GeneratedWavMetadata {
                tags: spec_tags(*source_ref),
                byte_len: Some((44 + layout.data_len) as u64),
                dop_lead_in_data_len: layout.dop_lead_in_data_len,
            })
        }),
{
    let tags = tags_for_source_ref(source_ref);
    if tags.duration_secs.is_none() {
        return None;
    }
    match generated_wav_layout_for_duration(
        program_frames,
        target_rate,
        target_bits,
        active_output_mode,
    ) {
        Some(layout) => Some(
            GeneratedWavMetadata {
                tags,
                byte_len: Some(44 + layout.data_len),
                dop_lead_in_data_len: layout.dop_lead_in_data_len,
            },
        ),
        None => None,
    }
}

/// The program frame that a range begins in, when the source has to be moved
/// there: none for a range that begins in the header, the lead-in, or within
/// the first half second, which is rendered from the start.
pub open spec fn spec_seek_target(
    range: GeneratedByteRange,
    target_rate: u32,
    target_bits: u32,
    data_len: u64,
    lead_in: u64,
) -> Option<u64> {
    let wanted = if range.start - 44 < data_len {
        range.start - 44
    } else {
        data_len as int
    };
    let frame = (wanted - lead_in) / wav::frame_bytes(target_bits);
    if range.start <= 44 || target_rate == 0 || wanted <= lead_in || 2 * frame <= target_rate {
        None
    } else {
        Some(frame as u64)
    }
}

/// The program frame that a range begins in, when the source has to be moved
/// there.
pub fn generated_wav_seek_target(
    range: GeneratedByteRange,
    target_rate: u32,
    target_bits: u32,
    data_len: u64,
    dop_lead_in_data_len: u64,
) -> (r: Result<Option<u64>, String>)
    ensures
        r is Err <==> range.start > 44 && target_rate > 0 && !wav::wav_depth(target_bits),
        r is Err ==> r->Err_0@ == "unsupported generated UPnP WAV bit depth "@ + text::decimal(
            target_bits as nat,
        ),
        r is Ok ==> r->Ok_0 == spec_seek_target(
            range,
            target_rate,
            target_bits,
            data_len,
            dop_lead_in_data_len,
        ),
{
    if range.start <= 44 || target_rate == 0 {
        return Ok(None);
    }
    let bytes_per_frame = wav::generated_wav_bytes_per_frame(target_bits)?;
    let offset: u64 = range.start - 44;
    let requested_data_byte: u64 = if offset < data_len {
        offset
    } else {
        data_len
    };
    if requested_data_byte <= dop_lead_in_data_len {
        return Ok(None);
    }
    let target_frame: u64 = (requested_data_byte - dop_lead_in_data_len) / bytes_per_frame;
    if target_frame <= target_rate as u64 / 2 {
        return Ok(None);
    }
    Ok(Some(target_frame))
}

/// Where a producer continues after its source has been moved.
#[derive(Clone, Copy, Debug, PartialEq, Eq, Structural)]
pub struct GeneratedWavSeekPlan {
    pub target_frame: u64,
    pub cursor_frame: u64,
    pub cursor_data_bytes: u64,
}

/// The data position of a program frame, at most the end of the data.
pub open spec fn spec_cursor_bytes(
    cursor_frame: u64,
    target_bits: u32,
    data_len: u64,
    lead_in: u64,
) -> int {
    let at = cursor_frame * wav::frame_bytes(target_bits) + lead_in;
    if at <= data_len {
        at
    } else {
        data_len as int
    }
}

/// The plan for a range that begins in `target_frame`, when the source is
/// moved to `cursor_frame`, half a second before it.
pub fn generated_wav_seek_plan(
    target_frame: u64,
    cursor_frame: u64,
    target_bits: u32,
    data_len: u64,
    dop_lead_in_data_len: u64,
) -> (r: Result<GeneratedWavSeekPlan, String>)
    ensures
        r is Ok <==> wav::wav_depth(target_bits) && cursor_frame * wav::frame_bytes(target_bits)
            + dop_lead_in_data_len <= u64::MAX,
        r is Ok ==> r->Ok_0 == (GeneratedWavSeekPlan {
            target_frame,
            cursor_frame,
            cursor_data_bytes: spec_cursor_bytes(
                cursor_frame,
                target_bits,
                data_len,
                dop_lead_in_data_len,
            ) as u64,
        }),
        r is Err ==> r->Err_0@ == (if wav::wav_depth(target_bits) {
            "generated UPnP WAV seek cursor overflow"@
        } else {
            "unsupported generated UPnP WAV bit depth "@ + text::decimal(target_bits as nat)
        }),
{
    let bytes_per_frame = wav::generated_wav_bytes_per_frame(target_bits)?;
    let program: u64 = match cursor_frame.checked_mul(bytes_per_frame) {
        Some(bytes) => bytes,
        None => return Err("generated UPnP WAV seek cursor overflow".to_string()),
    };
    let at: u64 = match program.checked_add(dop_lead_in_data_len) {
        Some(bytes) => bytes,
        None => return Err("generated UPnP WAV seek cursor overflow".to_string()),
    };
    Ok(
        GeneratedWavSeekPlan {
            target_frame,
            cursor_frame,
            cursor_data_bytes: if at <= data_len {
                at
            } else {
                data_len
            },
        },
    )
}

/// A producer that is moved to the target frame or before it never starts
/// behind the first byte that the range asks for.
pub proof fn law_seek_cursor_precedes_range(
    range: GeneratedByteRange,
    target_rate: u32,
    target_bits: u32,
    data_len: u64,
    lead_in: u64,
    cursor_frame: u64,
)
    requires
        wav::wav_depth(target_bits),
        spec_seek_target(range, target_rate, target_bits, data_len, lead_in) is Some,
        cursor_frame <= spec_seek_target(range, target_rate, target_bits, data_len, lead_in)->0,
    ensures
        44 + spec_cursor_bytes(cursor_frame, target_bits, data_len, lead_in) <= range.start,
{
    let frame = spec_seek_target(range, target_rate, target_bits, data_len, lead_in)->0;
    let k = wav::frame_bytes(target_bits);
    let wanted = if range.start - 44 < data_len {
        range.start - 44
    } else {
        data_len as int
    };
    assert(k > 0);
    let q = (wanted - lead_in) / k;
    vstd::arithmetic::div_mod::lemma_fundamental_div_mod(wanted - lead_in, k);
    assert(q * k <= wanted - lead_in) by (nonlinear_arith)
        requires
            wanted - lead_in == k * q + (wanted - lead_in) % k,
            (wanted - lead_in) % k >= 0,
    ;
    assert(0 <= q <= wanted - lead_in) by (nonlinear_arith)
        requires
            q * k <= wanted - lead_in,
            k >= 1,
            wanted - lead_in >= 0,
            q >= 0 || k * q + k > wanted - lead_in,
            k * q + k > wanted - lead_in,
    ;
    assert(frame == q);
    assert(cursor_frame * k <= frame * k) by (nonlinear_arith)
        requires
            cursor_frame <= frame,
            k > 0,
    ;
}

/// Where a producer continues after a seek that ended on another position
/// than planned: `actual_frame` is the output frame of that position, known
/// when the seek stayed on the track and its time base is known.
pub fn seek_cursor_data_bytes(
    actual_frame: Option<u64>,
    target_bits: u32,
    data_len: u64,
    dop_lead_in_data_len: u64,
) -> (r: Option<u64>)
    ensures
        r is Some <==> actual_frame is Some && wav::wav_depth(target_bits) && actual_frame->0
            * wav::frame_bytes(target_bits) + dop_lead_in_data_len <= u64::MAX,
        r is Some ==> r->0 == spec_cursor_bytes(
            actual_frame->0,
            target_bits,
            data_len,
            dop_lead_in_data_len,
        ),
{
    match actual_frame {
        Some(frame) => match generated_wav_seek_plan(
            frame,
            frame,
            target_bits,
            data_len,
            dop_lead_in_data_len,
        ) {
            Ok(plan) => Some(plan.cursor_data_bytes),
            Err(_) => None,
        },
        None => None,
    }
}

/// A sample, with zero in place of what is not a finite number.
pub open spec fn spec_sanitized(x: Real64) -> Real64 {
    if x.spec_finite() {
        x
    } else {
        Real64::spec_zero()
    }
}

/// A sample, with zero in place of what is not a finite number.
pub fn sanitize_sample(x: Real64) -> (r: Real64)
    ensures
        r == spec_sanitized(x),
{
    if x.is_finite() {
        x
    } else {
        Real64::zero()
    }
}

/// The interleaved frames of two planes, as far as both reach.
pub open spec fn interleaved(left: Seq<Real64>, right: Seq<Real64>, frames: nat) -> Seq<Real64> {
    Seq::new(
        frames * 2,
        |i: int|
            if i % 2 == 0 {
                spec_sanitized(left[i / 2])
            } else {
                spec_sanitized(right[i / 2])
            },
    )
}

/// The interleaved frames of two planes; a mono source has one plane for
/// both channels.
pub fn interleave_planes(left: &[Real64], right: &[Real64]) -> (r: Vec<Real64>)
    ensures
        r@ == interleaved(
            left@,
            right@,
            (if left@.len() <= right@.len() {
                left@.len()
            } else {
                right@.len()
            }),
        ),
{
    let frames: usize = if left.len() <= right.len() {
        left.len()
    } else {
        right.len()
    };
    let mut out: Vec<Real64> = Vec::new();
    let mut i: usize = 0;
    while i < frames
        invariant
            i <= frames <= left@.len(),
            frames <= right@.len(),
            out@ =~= interleaved(left@, right@, i as nat),
        decreases frames - i,
    {
        out.push(sanitize_sample(left[i]));
        out.push(sanitize_sample(right[i]));
        i = i + 1;
    }
    out
}

/// A stream has a layout exactly when its rate is known, its depth is one of a
/// WAV file, and all its data fits the header's length field.
pub proof fn law_layout_exists_when_it_fits(
    frames: u64,
    sample_rate: u32,
    bit_depth: u32,
    mode: OutputModeForUpnp,
)
    requires
        mode is Pcm,
    ensures
        spec_layout(Some(frames), sample_rate, bit_depth, mode) is Some <==> sample_rate > 0 && (
        bit_depth == 16 || bit_depth == 24 || bit_depth == 32) && frames * 2 * (bit_depth / 8)
            <= 0xffff_ffff,
{
    lemma_frame_bytes_are_two_samples(frames as int, bit_depth);
}

proof fn lemma_frame_bytes_are_two_samples(frames: int, bit_depth: u32)
    requires
        frames >= 0,
    ensures
        bit_depth == 16 || bit_depth == 24 || bit_depth == 32 ==> frames * wav::frame_bytes(
            bit_depth,
        ) == frames * 2 * (bit_depth / 8),
{
    if bit_depth == 16 {
        assert(frames * 4 == frames * 2 * 2);
    } else if bit_depth == 24 {
        assert(frames * 6 == frames * 2 * 3);
    } else if bit_depth == 32 {
        assert(frames * 8 == frames * 2 * 4);
    }
}

/// The data of a stream are the idle frames and the program, two samples for
/// each frame of it.
pub proof fn law_layout_holds_program(
    frames: u64,
    sample_rate: u32,
    bit_depth: u32,
    mode: OutputModeForUpnp,
)
    requires
        spec_layout(Some(frames), sample_rate, bit_depth, mode) is Some,
    ensures
        ({
            let layout = spec_layout(Some(frames), sample_rate, bit_depth, mode)->0;
            &&& layout.program_data_len == frames * 2 * (bit_depth / 8)
            &&& layout.data_len == layout.dop_lead_in_data_len + layout.program_data_len
            &&& layout.data_len <= 0xffff_ffff
            &&& mode is Pcm ==> layout.dop_lead_in_data_len == 0
        }),
{
    lemma_frame_bytes_are_two_samples(frames as int, bit_depth);
    assert(0 <= frames * wav::frame_bytes(bit_depth)) by (nonlinear_arith)
        requires
            wav::frame_bytes(bit_depth) >= 0,
            frames >= 0,
    ;
    assert(0 <= spec_lead_in(mode, sample_rate, bit_depth));
}

/// A marked stream of 24 bits idles for as many whole frames as fit into 150
/// milliseconds.
pub proof fn law_lead_in_lasts_its_time(mode: OutputModeForUpnp, sample_rate: u32)
    requires
        !(mode is Pcm),
    ensures
        ({
            let bytes = spec_lead_in(mode, sample_rate, 24);
            let frames = bytes / 6;
            &&& bytes % 6 == 0
            &&& frames * 1_000 <= sample_rate * 150 < (frames + 1) * 1_000
        }),
{
}

/// The frame that a range is moved to holds the first byte that the range asks
/// for, or is the end of the data, and lies more than half a second into the
/// program.
pub proof fn law_seek_target_holds_first_byte(
    range: GeneratedByteRange,
    target_rate: u32,
    target_bits: u32,
    data_len: u64,
    lead_in: u64,
)
    requires
        wav::wav_depth(target_bits),
        spec_seek_target(range, target_rate, target_bits, data_len, lead_in) is Some,
    ensures
        ({
            let frame = spec_seek_target(range, target_rate, target_bits, data_len, lead_in)->0;
            let bytes = target_bits / 4;
            let first = 44 + lead_in + frame * bytes;
            &&& first <= range.start
            &&& first <= 44 + data_len
            &&& range.start < first + bytes || 44 + data_len < first + bytes
            &&& frame * 2 > target_rate
        }),
{
    let k = wav::frame_bytes(target_bits);
    let wanted = if range.start - 44 < data_len {
        range.start - 44
    } else {
        data_len as int
    };
    let q = (wanted - lead_in) / k;
    vstd::arithmetic::div_mod::lemma_fundamental_div_mod(wanted - lead_in, k);
    assert(0 <= (wanted - lead_in) % k < k);
    assert(0 <= q <= wanted - lead_in) by (nonlinear_arith)
        requires
            wanted - lead_in == k * q + (wanted - lead_in) % k,
            0 <= (wanted - lead_in) % k < k,
            k >= 1,
            wanted - lead_in >= 0,
    ;
    assert(q * k == k * q) by (nonlinear_arith);
}

/// A range that begins in the header, in the idle frames or in the first half
/// second of the program is rendered from the start, and every later one is
/// moved to.
pub proof fn law_early_ranges_are_not_moved(
    range: GeneratedByteRange,
    target_rate: u32,
    target_bits: u32,
    data_len: u64,
    lead_in: u64,
)
    requires
        wav::wav_depth(target_bits),
        target_rate > 0,
        range.start < 44 + data_len,
    ensures
        range.start <= 44 + lead_in ==> spec_seek_target(
            range,
            target_rate,
            target_bits,
            data_len,
            lead_in,
        ) is None,
        range.start < 44 + lead_in + (target_rate / 2) * (target_bits / 4) ==> spec_seek_target(
            range,
            target_rate,
            target_bits,
            data_len,
            lead_in,
        ) is None,
        range.start >= 44 + lead_in + (target_rate / 2 + 1) * (target_bits / 4)
            ==> spec_seek_target(range, target_rate, target_bits, data_len, lead_in) is Some,
{
    let k = wav::frame_bytes(target_bits);
    let half = (target_rate / 2) as int;
    assert(k == target_bits / 4);
    assert(half * (target_bits / 4) >= 0) by (nonlinear_arith)
        requires
            half >= 0,
    ;
    assert((half + 1) * k == half * k + k) by (nonlinear_arith);
    if range.start > 44 + lead_in {
        let at = range.start - 44 - lead_in;
        let q = at / k;
        vstd::arithmetic::div_mod::lemma_fundamental_div_mod(at, k);
        assert(0 <= at % k < k);
        if at < half * k {
            assert(q <= half) by (nonlinear_arith)
                requires
                    at == k * q + at % k,
                    at % k >= 0,
                    at < half * k,
                    k >= 1,
            ;
        }
        if at >= half * k + k {
            assert(q >= half + 1) by (nonlinear_arith)
                requires
                    at == k * q + at % k,
                    at % k < k,
                    at >= half * k + k,
                    k >= 1,
            ;
        }
    }
}

/// Within the data, each frame of the program begins where the idle frames and
/// the frames before it end.
pub proof fn law_frames_follow_each_other(
    frame: u64,
    target_bits: u32,
    data_len: u64,
    lead_in: u64,
)
    requires
        wav::wav_depth(target_bits),
        frame < u64::MAX,
    ensures
        lead_in <= data_len ==> spec_cursor_bytes(0, target_bits, data_len, lead_in) == lead_in,
        spec_cursor_bytes((frame + 1) as u64, target_bits, data_len, lead_in) < data_len
            ==> spec_cursor_bytes((frame + 1) as u64, target_bits, data_len, lead_in)
            == spec_cursor_bytes(frame, target_bits, data_len, lead_in) + 2 * (target_bits / 8),
        spec_cursor_bytes(frame, target_bits, data_len, lead_in) <= data_len,
{
    let k = wav::frame_bytes(target_bits);
    assert((frame + 1) * k == frame * k + k) by (nonlinear_arith);
    assert(0 * k == 0);
}

/// A source's stream shows the source's own title, artist, album and duration.
/// A track of the service has its artist for the album's artist too.
pub proof fn law_tags_are_those_of_the_source(source: SourceRef)
    ensures
        ({
            let tags = spec_tags(source);
            &&& tags.sample_rate is None
            &&& tags.bits_per_sample is None
            &&& tags.channels is None
            &&& source matches SourceRef::LocalTrack {
                title,
                artist,
                album,
                album_artist,
                duration_secs,
                ..
            } ==> tags.title == title && tags.artist == artist && tags.album == album
                && tags.album_artist == album_artist && tags.duration_secs == duration_secs
            &&& source matches SourceRef::QobuzTrack {
                title,
                artist,
                album,
                duration_secs,
                ..
            } ==> tags.title == title && tags.artist == artist && tags.album == album
                && tags.album_artist == artist && tags.duration_secs == duration_secs
        }),
{
}

/// The samples of a frame stand next to each other, the left one first; what
/// is not a finite number is silence.
pub proof fn law_frames_are_interleaved(
    left: Seq<Real64>,
    right: Seq<Real64>,
    frames: nat,
    k: int,
)
    requires
        0 <= k < frames,
        frames <= left.len(),
        frames <= right.len(),
    ensures
        interleaved(left, right, frames).len() == 2 * frames,
        left[k].spec_finite() ==> interleaved(left, right, frames)[2 * k] == left[k],
        right[k].spec_finite() ==> interleaved(left, right, frames)[2 * k + 1] == right[k],
        !left[k].spec_finite() ==> interleaved(left, right, frames)[2 * k].bits == 0,
        !right[k].spec_finite() ==> interleaved(left, right, frames)[2 * k + 1].bits == 0,
{
}

/// What is announced for a source is its own tags and the bytes of header, idle
/// frames and program; a source of unknown length announces nothing.
pub proof fn law_announced_length_is_that_of_the_stream(
    source: SourceRef,
    frames: u64,
    target_rate: u32,
    target_bits: u32,
    mode: OutputModeForUpnp,
    r: Option<GeneratedWavMetadata>,
)
    requires
        call_ensures(
            generated_wav_metadata_for_source,
            (&source, Some(frames), target_rate, target_bits, mode),
            r,
        ),
    ensures
        r is Some ==> {
            &&& r->0.byte_len is Some
            &&& r->0.byte_len->0 == 44 + r->0.dop_lead_in_data_len + frames * 2 * (target_bits / 8)
            &&& mode is Pcm ==> r->0.dop_lead_in_data_len == 0
            &&& r->0.tags.title == spec_tags(source).title
            &&& r->0.tags.duration_secs is Some
        },
        spec_tags(source).duration_secs is None ==> r is None,
{
    if r is Some {
        law_layout_holds_program(frames, target_rate, target_bits, mode);
    }
}

/// A plan to move keeps its frames and puts the cursor where the frame that the
/// source is moved to begins, or at the end of the data.
pub proof fn law_seek_plan_starts_at_its_frame(
    target_frame: u64,
    cursor_frame: u64,
    target_bits: u32,
    data_len: u64,
    lead_in: u64,
    r: Result<GeneratedWavSeekPlan, String>,
)
    requires
        call_ensures(
            generated_wav_seek_plan,
            (target_frame, cursor_frame, target_bits, data_len, lead_in),
            r,
        ),
        target_bits == 16 || target_bits == 24 || target_bits == 32,
        lead_in + cursor_frame * (target_bits / 4) <= u64::MAX,
    ensures
        r is Ok,
        r->Ok_0.target_frame == target_frame,
        r->Ok_0.cursor_frame == cursor_frame,
        r->Ok_0.cursor_data_bytes <= data_len,
        lead_in + cursor_frame * (target_bits / 4) <= data_len ==> r->Ok_0.cursor_data_bytes
            == lead_in + cursor_frame * (target_bits / 4),
        lead_in + cursor_frame * (target_bits / 4) > data_len ==> r->Ok_0.cursor_data_bytes
            == data_len,
{
    assert(wav::frame_bytes(target_bits) == target_bits / 4);
}

} // verus!
