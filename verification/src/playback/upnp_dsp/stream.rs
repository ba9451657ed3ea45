//! Production of generated streams: how a request is routed, and how the
//! produced audio becomes the bytes of the requested range.

use crate::audio::{DsdRate, FilterType};
use crate::playback::upnp_dsp::dop;
use crate::playback::upnp_dsp::layout;
use crate::playback::upnp_dsp::layout::GeneratedWavSeekPlan;
use crate::playback::upnp_dsp::plan;
use crate::playback::upnp_dsp::plan::UpnpDspRenderConfig;
use crate::playback::upnp_dsp::range;
use crate::playback::upnp_dsp::range::GeneratedByteRange;
use crate::playback::upnp_dsp::render;
use crate::playback::upnp_dsp::wav;
use crate::playback::upnp_target::UpnpRendererTarget;
use crate::protocol::playback::PlaybackConfig;
use crate::protocol::source::SourceRef;
use crate::text;
use vstd::prelude::*;
use vstd::string::*;

verus! {

/// A stream that was announced to a renderer and is produced on demand.
pub struct UpnpGeneratedDspStream {
    pub zone_id: String,
    pub source_ref: SourceRef,
    pub mime_type: String,
    pub byte_len: Option<u64>,
    pub dop_lead_in_data_len: u64,
    pub source_rate: u32,
    pub source_bits: u32,
    pub target_rate: u32,
    pub target_bits: u32,
    pub active_output_mode: Option<String>,
    pub target: UpnpRendererTarget,
    pub playback_config: PlaybackConfig,
}

/// The stream was announced as marked one-bit audio.
pub open spec fn spec_dop_bound(stream: UpnpGeneratedDspStream) -> bool {
    ||| stream.dop_lead_in_data_len > 0
    ||| stream.active_output_mode is Some && (stream.active_output_mode->0@ == "Dsd64"@
        || stream.active_output_mode->0@ == "Dsd128"@ || stream.active_output_mode->0@
        == "Dsd256"@)
}

/// Whether the stream was announced as marked one-bit audio.
pub fn generated_stream_is_dop_bound(stream: &UpnpGeneratedDspStream) -> (r: bool)
    ensures
        r == spec_dop_bound(*stream),
{
    if stream.dop_lead_in_data_len > 0 {
        return true;
    }
    match &stream.active_output_mode {
        Some(mode) => {
            let name = mode.as_str();
            *name == *"Dsd64" || *name == *"Dsd128" || *name == *"Dsd256"
        },
        None => false,
    }
}

/// A stream that is ready to be produced.
#[derive(Clone, Copy, Debug, PartialEq, Eq, Structural)]
pub struct OpenedStream {
    pub range: GeneratedByteRange,
    /// How many chunks may wait for the renderer.
    pub channel_capacity: usize,
}

/// Opens a range of a generated stream. Only WAV is generated, and the range
/// has to lie within the announced length.
pub fn generated_upnp_dsp_wav_stream(
    stream: &UpnpGeneratedDspStream,
    byte_start: u64,
    byte_end: u64,
) -> (r: Result<OpenedStream, String>)
    ensures
        r is Ok <==> stream.mime_type@ == "audio/wav"@ && stream.byte_len is Some && byte_start
            <= byte_end < stream.byte_len->0,
        r is Ok ==> r->Ok_0 == (OpenedStream {
            range: GeneratedByteRange { start: byte_start, end: byte_end },
            channel_capacity: if spec_dop_bound(*stream) {
                64
            } else {
                8
            },
        }) && r->Ok_0.range.wf(),
        r is Err ==> r->Err_0@ == (if stream.mime_type@ != "audio/wav"@ {
            "Generated UPnP DSP streaming only supports WAV PCM"@
        } else if stream.byte_len is None {
            "Generated UPnP WAV stream is missing byte length"@
        } else {
            "Generated UPnP DSP stream byte range is not satisfiable"@
        }),
{
    if *stream.mime_type.as_str() != *"audio/wav" {
        return Err("Generated UPnP DSP streaming only supports WAV PCM".to_string());
    }
    let byte_len: u64 = match stream.byte_len {
        Some(len) => len,
        None => return Err("Generated UPnP WAV stream is missing byte length".to_string()),
    };
    let range = GeneratedByteRange::validate(byte_start, byte_end, byte_len)?;
    let channel_capacity: usize = if generated_stream_is_dop_bound(stream) {
        64
    } else {
        8
    };
    Ok(OpenedStream { range, channel_capacity })
}

/// How the audio of a stream is produced.
pub enum StreamRoute {
    Pcm { data_len: u64 },
    Dop {
        data_len: u64,
        lead_in: u64,
        dsd_rate: DsdRate,
        dop_frame_rate: u32,
        filter_type: FilterType,
    },
}

/// Why a stream cannot be produced.
#[derive(Clone, Copy, Debug, PartialEq, Eq, Structural)]
pub enum StreamRouteError {
    /// The stream was announced without a length.
    MissingLength,
    /// The announced length is shorter than a header.
    TooSmall,
    /// The announced length does not fit a header.
    TooLarge,
    /// The source is one-bit audio itself.
    NativeDsdSource,
    /// The stream was announced as marked one-bit audio, but the probed
    /// source no longer gives that. Plain PCM must not take its place.
    DopMismatch,
}

/// How the audio of a stream is produced once its source has been probed.
pub open spec fn spec_route(
    stream: UpnpGeneratedDspStream,
    config: UpnpDspRenderConfig,
    source_rate: u32,
    source_bits: u32,
) -> Result<StreamRoute, StreamRouteError> {
    let policy = plan::spec_policy(
        config.output_mode,
        config.filter_type,
        source_rate,
        config.dsd_rules@,
    );
    let dop = plan::spec_dop(policy.output_mode, config.target, source_rate);
    if stream.byte_len is None {
        Err(StreamRouteError::MissingLength)
    } else if stream.byte_len->0 < 44 {
        Err(StreamRouteError::TooSmall)
    } else if stream.byte_len->0 - 44 > u32::MAX {
        Err(StreamRouteError::TooLarge)
    } else if source_bits == 1 {
        Err(StreamRouteError::NativeDsdSource)
    } else {
        let data_len = (stream.byte_len->0 - 44) as u64;
        if dop is Some && (dop->0).1 == stream.target_rate && stream.target_bits == 24 {
            Ok(
                StreamRoute::Dop {
                    data_len,
                    lead_in: if stream.dop_lead_in_data_len <= data_len {
                        stream.dop_lead_in_data_len
                    } else {
                        data_len
                    },
                    dsd_rate: (dop->0).0,
                    dop_frame_rate: (dop->0).1,
                    filter_type: policy.filter_type,
                },
            )
        } else if spec_dop_bound(stream) {
            Err(StreamRouteError::DopMismatch)
        } else {
            Ok(StreamRoute::Pcm { data_len })
        }
    }
}

/// How the audio of a stream is produced once its source has been probed.
pub fn route_generated_stream(
    stream: &UpnpGeneratedDspStream,
    config: &UpnpDspRenderConfig,
    source_rate: u32,
    source_bits: u32,
) -> (r: Result<StreamRoute, StreamRouteError>)
    ensures
        r == spec_route(*stream, *config, source_rate, source_bits),
{
    let byte_len: u64 = match stream.byte_len {
        Some(len) => len,
        None => return Err(StreamRouteError::MissingLength),
    };
    if byte_len < 44 {
        return Err(StreamRouteError::TooSmall);
    }
    let data_len: u64 = byte_len - 44;
    if data_len > 0xffff_ffff {
        return Err(StreamRouteError::TooLarge);
    }
    if source_bits == 1 {
        return Err(StreamRouteError::NativeDsdSource);
    }
    let policy = plan::dsd_policy_for_source(
        config.output_mode,
        &config.filter_type,
        source_rate,
        &config.dsd_rules,
    );
    match plan::dop_dsd_rate_for_target(policy.output_mode, &config.target, source_rate) {
        Some((dsd_rate, dop_frame_rate)) => {
            if dop_frame_rate == stream.target_rate && stream.target_bits == 24 {
                return Ok(
                    StreamRoute::Dop {
                        data_len,
                        lead_in: if stream.dop_lead_in_data_len <= data_len {
                            stream.dop_lead_in_data_len
                        } else {
                            data_len
                        },
                        dsd_rate,
                        dop_frame_rate,
                        filter_type: policy.filter_type,
                    },
                );
            }
        },
        None => {},
    }
    if generated_stream_is_dop_bound(stream) {
        return Err(StreamRouteError::DopMismatch);
    }
    Ok(StreamRoute::Pcm { data_len })
}

/// A stream that was announced as marked one-bit audio is produced as such or
/// not at all.
pub proof fn law_dop_stream_never_falls_back_to_pcm(
    stream: UpnpGeneratedDspStream,
    config: UpnpDspRenderConfig,
    source_rate: u32,
    source_bits: u32,
)
    requires
        spec_dop_bound(stream),
    ensures
        !(spec_route(stream, config, source_rate, source_bits) matches Ok(StreamRoute::Pcm { .. })),
{
}

/// A failed source seek ends the stream, unless the place to seek to lies
/// within the first two seconds: then everything is rendered from the start.
/// The place lies half a second before the target frame.
pub open spec fn spec_seek_failure_is_fatal(target_frame: u64, target_rate: u32) -> bool {
    2 * target_frame > 5 * target_rate
}

/// Whether a failed source seek ends the stream.
pub fn seek_failure_is_fatal(target_frame: u64, target_rate: u32) -> (r: bool)
    ensures
        r == spec_seek_failure_is_fatal(target_frame, target_rate),
{
    target_frame > target_rate as u64 * 5 / 2
}

/// What came of moving a source.
#[derive(Clone, Copy, Debug, PartialEq, Eq, Structural)]
pub enum SourceSeek {
    /// It stands at this output frame, where that is known.
    Moved { actual_frame: Option<u64> },
    /// It could not be moved, and stands at its start.
    Failed,
}

/// The data position that production continues from once its source was to be
/// moved: that of the frame it stands at, else that of the plan; the start,
/// after a failure that is forgiven; none, after one that ends the stream.
pub open spec fn spec_seek_cursor(
    seek: GeneratedWavSeekPlan,
    outcome: SourceSeek,
    target_rate: u32,
    target_bits: u32,
    data_len: u64,
    lead_in: u64,
) -> Option<int> {
    match outcome {
        SourceSeek::Moved { actual_frame: Some(frame) } => if wav::wav_depth(target_bits) && frame
            * wav::frame_bytes(target_bits) + lead_in <= u64::MAX {
            Some(layout::spec_cursor_bytes(frame, target_bits, data_len, lead_in))
        } else {
            Some(seek.cursor_data_bytes as int)
        },
        SourceSeek::Moved { actual_frame: None } => Some(seek.cursor_data_bytes as int),
        SourceSeek::Failed => if spec_seek_failure_is_fatal(seek.target_frame, target_rate) {
            None
        } else {
            Some(0)
        },
    }
}

/// The data position that production continues from once its source was to be
/// moved; none, when the stream ends there.
pub fn seek_cursor(
    seek: GeneratedWavSeekPlan,
    outcome: SourceSeek,
    target_rate: u32,
    target_bits: u32,
    data_len: u64,
    lead_in: u64,
) -> (r: Option<u64>)
    ensures
        (match r {
            Some(cursor) => Some(cursor as int),
            None => None,
        }) == spec_seek_cursor(seek, outcome, target_rate, target_bits, data_len, lead_in),
{
    match outcome {
        SourceSeek::Moved { actual_frame } => {
            match layout::seek_cursor_data_bytes(actual_frame, target_bits, data_len, lead_in) {
                Some(cursor) => Some(cursor),
                None => Some(seek.cursor_data_bytes),
            }
        },
        SourceSeek::Failed => if seek_failure_is_fatal(seek.target_frame, target_rate) {
            None
        } else {
            Some(0)
        },
    }
}

/// What the production of a PCM stream does next.
#[derive(Clone, Copy, Debug, PartialEq, Eq, Structural)]
pub enum PcmStage {
    Header,
    /// Decode a piece of the source and produce it.
    Program,
    /// Produce what the resampler still holds.
    Tail,
    /// Fill up with silence.
    Padding,
    Finish,
}

/// What the production of a marked stream does next.
#[derive(Clone, Copy, Debug, PartialEq, Eq, Structural)]
pub enum DopStage {
    Header,
    /// Idle until the program begins.
    LeadIn,
    /// Decode a piece of the source and produce it.
    Program,
    /// Produce what the resampler still holds.
    Tail,
    /// Produce what the modulators still hold.
    Flush,
    /// Idle up to the end.
    Padding,
    Finish,
}

/// What follows a stage of a PCM stream. A range within the header needs no
/// source; the program ends with the source or with the data.
pub open spec fn spec_pcm_stage_after(
    stage: PcmStage,
    range_complete: bool,
    program_over: bool,
    resampled: bool,
) -> PcmStage {
    match stage {
        PcmStage::Header => if range_complete {
            PcmStage::Finish
        } else {
            PcmStage::Program
        },
        PcmStage::Program => if !program_over {
            PcmStage::Program
        } else if resampled {
            PcmStage::Tail
        } else {
            PcmStage::Padding
        },
        PcmStage::Tail => PcmStage::Padding,
        PcmStage::Padding => PcmStage::Finish,
        PcmStage::Finish => PcmStage::Finish,
    }
}

/// What follows a stage of a marked stream. A range within header and lead-in
/// needs no source; the program ends with the source or with the data.
pub open spec fn spec_dop_stage_after(
    stage: DopStage,
    range_complete: bool,
    program_over: bool,
) -> DopStage {
    match stage {
        DopStage::Header => if range_complete {
            DopStage::Finish
        } else {
            DopStage::LeadIn
        },
        DopStage::LeadIn => if range_complete {
            DopStage::Finish
        } else {
            DopStage::Program
        },
        DopStage::Program => if program_over {
            DopStage::Tail
        } else {
            DopStage::Program
        },
        DopStage::Tail => DopStage::Flush,
        DopStage::Flush => DopStage::Padding,
        DopStage::Padding => DopStage::Finish,
        DopStage::Finish => DopStage::Finish,
    }
}

/// What the production of a PCM stream does after a stage.
pub fn stream_wav_dsp_blocking(
    producer: &WavProducer,
    stage: PcmStage,
    source_ended: bool,
    resampled: bool,
) -> (r: PcmStage)
    requires
        producer.wf(),
    ensures
        r == spec_pcm_stage_after(
            stage,
            producer.emitted >= producer.range.spec_len(),
            source_ended || producer.written >= producer.data_len,
            resampled,
        ),
{
    match stage {
        PcmStage::Header => if producer.range_complete() {
            PcmStage::Finish
        } else {
            PcmStage::Program
        },
        PcmStage::Program => if !source_ended && producer.written < producer.data_len {
            PcmStage::Program
        } else if resampled {
            PcmStage::Tail
        } else {
            PcmStage::Padding
        },
        PcmStage::Tail => PcmStage::Padding,
        PcmStage::Padding => PcmStage::Finish,
        PcmStage::Finish => PcmStage::Finish,
    }
}

/// What the production of a marked stream does after a stage.
pub fn stream_wav_dop_blocking(producer: &WavProducer, stage: DopStage, source_ended: bool) -> (r:
    DopStage)
    requires
        producer.wf(),
    ensures
        r == spec_dop_stage_after(
            stage,
            producer.emitted >= producer.range.spec_len(),
            source_ended || producer.written >= producer.data_len,
        ),
{
    match stage {
        DopStage::Header => if producer.range_complete() {
            DopStage::Finish
        } else {
            DopStage::LeadIn
        },
        DopStage::LeadIn => if producer.range_complete() {
            DopStage::Finish
        } else {
            DopStage::Program
        },
        DopStage::Program => if source_ended || producer.written >= producer.data_len {
            DopStage::Tail
        } else {
            DopStage::Program
        },
        DopStage::Tail => DopStage::Flush,
        DopStage::Flush => DopStage::Padding,
        DopStage::Padding => DopStage::Finish,
        DopStage::Finish => DopStage::Finish,
    }
}

/// A stream is only ever finished with its data complete, or with a range
/// that ends before the program: no stage but the padding, and those before
/// the program, lead there.
pub proof fn law_program_ends_in_padding(
    pcm: PcmStage,
    dop: DopStage,
    range_complete: bool,
    program_over: bool,
    resampled: bool,
)
    ensures
        spec_pcm_stage_after(pcm, range_complete, program_over, resampled) == PcmStage::Finish
            ==> pcm == PcmStage::Padding || pcm == PcmStage::Finish || (pcm == PcmStage::Header
            && range_complete),
        spec_dop_stage_after(dop, range_complete, program_over) == DopStage::Finish ==> dop
            == DopStage::Padding || dop == DopStage::Finish || ((dop == DopStage::Header || dop
            == DopStage::LeadIn) && range_complete),
{
}

/// The producer of one requested range of a generated stream.
#[derive(Clone, Copy, Debug, PartialEq, Eq, Structural)]
pub struct WavProducer {
    pub range: GeneratedByteRange,
    pub data_len: u64,
    /// The data position that production has reached.
    pub written: u64,
    /// How many bytes of the range have been handed out.
    pub emitted: u64,
}

impl WavProducer {
    pub open spec fn wf(self) -> bool {
        &&& self.range.wf()
        &&& self.data_len <= u32::MAX
        &&& self.written <= self.data_len
        &&& self.emitted <= 44 + self.written
    }

    /// `out` is what the range asks of `chunk`, and the producer has moved on
    /// by the chunk.
    pub open spec fn produced(
        before: WavProducer,
        after: WavProducer,
        chunk: Seq<u8>,
        out: Seq<u8>,
    ) -> bool {
        &&& out == range::clip(chunk, 44 + before.written, before.range)
        &&& after == WavProducer {
            written: (before.written + chunk.len()) as u64,
            emitted: (before.emitted + out.len()) as u64,
            ..before
        }
    }

    /// A producer whose source stands at the data position `cursor`.
    pub fn new(range: GeneratedByteRange, data_len: u64, cursor: u64) -> (r: WavProducer)
        requires
            range.wf(),
            data_len <= u32::MAX,
            cursor <= data_len,
        ensures
            r.wf(),
            r == (WavProducer { range, data_len, written: cursor, emitted: 0 }),
    {
        WavProducer { range, data_len, written: cursor, emitted: 0 }
    }

    /// Whether the whole range has been handed out.
    pub fn range_complete(&self) -> (r: bool)
        requires
            self.wf(),
        ensures
            r == (self.emitted >= self.range.spec_len()),
    {
        self.emitted >= self.range.len()
    }

    /// The part of the header that the range asks for.
    pub fn emit_header(&mut self, sample_rate: u32, bit_depth: u32) -> (r: Result<Vec<u8>, String>)
        requires
            old(self).wf(),
            old(self).emitted == 0,
        ensures
            final(self).wf(),
            r is Ok <==> wav::wav_header_fits(
                sample_rate,
                bit_depth,
                old(self).data_len as int,
            ),
            r is Ok ==> r->Ok_0@ == range::clip(
                wav::wav_header(
                    sample_rate as nat,
                    bit_depth as nat,
                    old(self).data_len as nat,
                ),
                0,
                old(self).range,
            ),
            r is Ok ==> *final(self) == (WavProducer {
                emitted: r->Ok_0@.len() as u64,
                ..*old(self)
            }),
            r is Err ==> *final(self) == *old(self) && r->Err_0@ == wav::wav_header_error(
                sample_rate,
                bit_depth,
                old(self).data_len as u32,
            ),
    {
        let header = match wav::wav_header_bytes(sample_rate, bit_depth, self.data_len as u32) {
            Ok(header) => header,
            Err(error) => return Err(error),
        };
        proof {
            wav::law_wav_header_len(sample_rate as nat, bit_depth as nat, self.data_len as nat);
        }
        let out = clipped(&header, 0, self.range);
        self.emitted = out.len() as u64;
        Ok(out)
    }

    /// Takes quantized samples and hands out what the range asks of them.
    /// Samples behind the end of the data are dropped.
    pub fn pcm_chunk(&mut self, samples: &[i32], bit_depth: u32) -> (r: Result<Vec<u8>, String>)
        requires
            old(self).wf(),
        ensures
            final(self).wf(),
            r is Err <==> samples@.len() > 0 && old(self).written < old(self).data_len
                && !wav::wav_depth(bit_depth),
            r is Err ==> *final(self) == *old(self) && r->Err_0@
                == "unsupported generated UPnP WAV bit depth "@ + text::decimal(bit_depth as nat),
            r is Ok ==> WavProducer::produced(
                *old(self),
                *final(self),
                (if samples@.len() > 0 && old(self).written < old(self).data_len {
                    wav::pcm_data(
                        samples@.take(
                            wav::fitting_samples(
                                samples@.len(),
                                (old(self).data_len - old(self).written) as nat,
                                (bit_depth / 8) as nat,
                            ) as int,
                        ),
                        (bit_depth / 8) as nat,
                    )
                } else {
                    Seq::empty()
                }),
                r->Ok_0@,
            ),
    {
        if samples.len() == 0 || self.written >= self.data_len {
            let none: Vec<u8> = Vec::new();
            return Ok(none);
        }
        let remaining: u64 = self.data_len - self.written;
        let chunk = match wav::pcm_samples_to_wav_bytes(samples, bit_depth, remaining) {
            Ok(chunk) => chunk,
            Err(error) => return Err(error),
        };
        proof {
            let k = (bit_depth / 8) as nat;
            let n = wav::fitting_samples(samples@.len(), remaining as nat, k);
            wav::lemma_pcm_data_len(samples@.take(n as int), k);
            assert(n * k <= remaining) by (nonlinear_arith)
                requires
                    n <= (remaining as nat) / k,
                    k > 0,
            ;
        }
        Ok(self.take_chunk(&chunk))
    }

    fn take_chunk(&mut self, chunk: &Vec<u8>) -> (r: Vec<u8>)
        requires
            old(self).wf(),
            old(self).written + chunk@.len() <= old(self).data_len,
        ensures
            final(self).wf(),
            WavProducer::produced(*old(self), *final(self), chunk@, r@),
    {
        let out = clipped(chunk, 44 + self.written, self.range);
        self.written = self.written + chunk.len() as u64;
        self.emitted = self.emitted + out.len() as u64;
        out
    }

    /// The length of the next piece of padding, with `remaining` bytes to fill.
    pub open spec fn padding_len(remaining: int) -> nat {
        if remaining < 65536 {
            remaining as nat
        } else {
            65536
        }
    }

    /// Fills up with silence, one piece at a time, until the data is complete.
    pub fn zero_padding_chunk(&mut self) -> (r: Option<Vec<u8>>)
        requires
            old(self).wf(),
        ensures
            final(self).wf(),
            r is None <==> old(self).written >= old(self).data_len,
            r is None ==> *final(self) == *old(self),
            r is Some ==> WavProducer::produced(
                *old(self),
                *final(self),
                Seq::new(
                    WavProducer::padding_len(old(self).data_len - old(self).written),
                    |i: int| 0u8,
                ),
                r->0@,
            ),
    {
        if self.written >= self.data_len {
            return None;
        }
        let remaining: u64 = self.data_len - self.written;
        let chunk_len: u64 = if remaining < 65536 {
            remaining
        } else {
            65536
        };
        let mut chunk: Vec<u8> = Vec::new();
        let mut i: u64 = 0;
        while i < chunk_len
            invariant
                i <= chunk_len <= 65536,
                chunk@ =~= Seq::new(i as nat, |j: int| 0u8),
            decreases chunk_len - i,
        {
            chunk.push(0);
            i = i + 1;
        }
        Some(self.take_chunk(&chunk))
    }

    /// Takes left-justified one-bit frames and hands out what the range asks
    /// of them, marked for their position.
    pub fn dop_chunk(&mut self, samples: &[i32]) -> (r: Vec<u8>)
        requires
            old(self).wf(),
        ensures
            final(self).wf(),
            WavProducer::produced(
                *old(self),
                *final(self),
                dop::dop_data(
                    samples@.take(
                        dop::fitting_dop_samples(
                            samples@.len(),
                            (old(self).data_len - old(self).written) as nat,
                        ) as int,
                    ),
                    old(self).written as int,
                ),
                r@,
            ),
    {
        let remaining: u64 = self.data_len - self.written;
        let chunk = dop::dop_samples_to_wav_bytes(samples, remaining, self.written);
        proof {
            let n = dop::fitting_dop_samples(samples@.len(), remaining as nat);
            dop::lemma_dop_data_len(samples@.take(n as int), self.written as int);
        }
        self.take_chunk(&chunk)
    }

    /// Idles up to the data position `end`, one piece of whole frames at a
    /// time.
    pub fn dop_idle_chunk(&mut self, end: u64) -> (r: Result<Option<Vec<u8>>, String>)
        requires
            old(self).wf(),
            end <= old(self).data_len,
        ensures
            final(self).wf(),
            r is Err <==> 0 < end - old(self).written < 6,
            r is Err ==> *final(self) == *old(self) && r->Err_0@
                == "Generated UPnP DoP WAV padding ended on a partial frame"@,
            r is Ok ==> (r->Ok_0 is None <==> old(self).written >= end),
            r is Ok && r->Ok_0 is None ==> *final(self) == *old(self),
            r is Ok && r->Ok_0 is Some ==> WavProducer::produced(
                *old(self),
                *final(self),
                dop::dop_data(
                    dop::idle_samples(WavProducer::padding_len(end - old(self).written) / 6),
                    old(self).written as int,
                ),
                r->Ok_0->0@,
            ),
    {
        if self.written >= end {
            return Ok(None);
        }
        let remaining: u64 = end - self.written;
        let span: u64 = if remaining < 65536 {
            remaining
        } else {
            65536
        };
        let frames: u64 = span / 6;
        if frames == 0 {
            return Err("Generated UPnP DoP WAV padding ended on a partial frame".to_string());
        }
        let chunk = dop::idle_dop_bytes(frames, self.written);
        proof {
            dop::lemma_dop_data_len(dop::idle_samples(frames as nat), self.written as int);
        }
        Ok(Some(self.take_chunk(&chunk)))
    }

    /// Ends production: the whole range must have been handed out.
    pub fn finish(&self, marked: bool) -> (r: Result<(), String>)
        requires
            self.wf(),
        ensures
            r is Ok <==> self.emitted >= self.range.spec_len(),
            r is Err ==> r->Err_0@ == (if marked {
                "Generated UPnP DoP stream ended before requested range: emitted "@
            } else {
                "Generated UPnP WAV stream ended before requested range: emitted "@
            }) + text::decimal(self.emitted as nat) + " of "@ + text::decimal(
                self.range.spec_len() as nat,
            ) + " bytes"@,
    {
        let len = self.range.len();
        if self.emitted >= len {
            return Ok(());
        }
        let mut message = if marked {
            "Generated UPnP DoP stream ended before requested range: emitted ".to_string()
        } else {
            "Generated UPnP WAV stream ended before requested range: emitted ".to_string()
        };
        text::push_decimal(&mut message, self.emitted);
        message.append(" of ");
        text::push_decimal(&mut message, len);
        message.append(" bytes");
        Err(message)
    }
}

/// What the range asks of a chunk at a stream position.
fn clipped(chunk: &Vec<u8>, at: u64, range: GeneratedByteRange) -> (r: Vec<u8>)
    requires
        at + chunk@.len() <= u64::MAX,
    ensures
        r@ == range::clip(chunk@, at as int, range),
        r@.len() <= chunk@.len(),
{
    let mut out: Vec<u8> = Vec::new();
    match range::generated_range_slice(chunk.as_slice(), at, range) {
        Some(slice) => {
            crate::bytes::push_bytes(&mut out, slice);
            proof {
                assert(Seq::<u8>::empty() + slice@ =~= slice@);
            }
        },
        None => {
            proof {
                assert(range::clip(chunk@, at as int, range) =~= Seq::<u8>::empty());
            }
        },
    }
    out
}

/// The chunks of a production, one behind the other.
pub open spec fn flat(chunks: Seq<Seq<u8>>) -> Seq<u8>
    decreases chunks.len(),
{
    if chunks.len() == 0 {
        Seq::empty()
    } else {
        flat(chunks.drop_last()) + chunks.last()
    }
}

/// What a producer hands out of its chunks, when the first one begins at the
/// stream position `at`.
pub open spec fn handed_out(chunks: Seq<Seq<u8>>, at: int, range: GeneratedByteRange) -> Seq<u8>
    decreases chunks.len(),
{
    if chunks.len() == 0 {
        Seq::empty()
    } else {
        handed_out(chunks.drop_last(), at, range) + range::clip(
            chunks.last(),
            at + flat(chunks.drop_last()).len(),
            range,
        )
    }
}

/// Cutting a production into chunks does not change what is handed out.
pub proof fn law_chunking_is_invisible(chunks: Seq<Seq<u8>>, at: int, range: GeneratedByteRange)
    ensures
        handed_out(chunks, at, range) == range::clip(flat(chunks), at, range),
    decreases chunks.len(),
{
    if chunks.len() == 0 {
        assert(range::clip(flat(chunks), at, range) =~= Seq::<u8>::empty());
    } else {
        law_chunking_is_invisible(chunks.drop_last(), at, range);
        range::law_clip_concat(flat(chunks.drop_last()), chunks.last(), at, range);
    }
}

/// A production from the start hands out exactly the requested bytes of
/// header and data.
pub proof fn law_full_production_serves_range(
    header: Seq<u8>,
    chunks: Seq<Seq<u8>>,
    range: GeneratedByteRange,
)
    requires
        header.len() == 44,
        range.wf(),
        range.end < 44 + flat(chunks).len(),
    ensures
        range::clip(header, 0, range) + handed_out(chunks, 44, range) == (header + flat(
            chunks,
        )).subrange(range.start as int, range.end + 1),
{
    law_chunking_is_invisible(chunks, 44, range);
    range::law_clip_concat(header, flat(chunks), 0, range);
    range::law_clip_whole(header + flat(chunks), range);
}

/// A production that starts at a later data position, because its source was
/// moved there, hands out the same bytes, as long as that position does not
/// lie behind the start of the range.
pub proof fn law_seeked_production_serves_range(
    header: Seq<u8>,
    data: Seq<u8>,
    cursor: nat,
    chunks: Seq<Seq<u8>>,
    range: GeneratedByteRange,
)
    requires
        header.len() == 44,
        range.wf(),
        cursor <= data.len(),
        flat(chunks) == data.skip(cursor as int),
        44 + cursor <= range.start,
        range.end < 44 + data.len(),
    ensures
        range::clip(header, 0, range) + handed_out(chunks, 44 + cursor as int, range) == (header
            + data).subrange(range.start as int, range.end + 1),
{
    law_chunking_is_invisible(chunks, 44 + cursor as int, range);
    assert(range::clip(header, 0, range) + range::clip(data.skip(cursor as int), 44 + cursor as int, range)
        =~= (header + data).subrange(range.start as int, range.end + 1));
}

/// A run of a producer: its state before and after each chunk, the chunks, and
/// what was handed out of each.
pub open spec fn is_run(
    states: Seq<WavProducer>,
    chunks: Seq<Seq<u8>>,
    outs: Seq<Seq<u8>>,
) -> bool {
    &&& states.len() == chunks.len() + 1
    &&& outs.len() == chunks.len()
    &&& forall|i: int|
        0 <= i < chunks.len() ==> #[trigger] states[i].written + chunks[i].len()
            <= states[i].data_len && WavProducer::produced(
            states[i],
            states[i + 1],
            chunks[i],
            outs[i],
        )
}

proof fn lemma_run(states: Seq<WavProducer>, chunks: Seq<Seq<u8>>, outs: Seq<Seq<u8>>)
    requires
        is_run(states, chunks, outs),
        states[0].wf(),
    ensures
        states.last().wf(),
        states.last().range == states[0].range,
        states.last().data_len == states[0].data_len,
        states.last().written == states[0].written + flat(chunks).len(),
        states.last().emitted == states[0].emitted + flat(outs).len(),
        flat(outs) == handed_out(chunks, 44 + states[0].written, states[0].range),
    decreases chunks.len(),
{
    if chunks.len() > 0 {
        let n = chunks.len() - 1;
        let before = states.drop_last();
        assert(is_run(before, chunks.drop_last(), outs.drop_last())) by {
            assert forall|i: int| 0 <= i < n implies #[trigger] before[i].written
                + chunks.drop_last()[i].len() <= before[i].data_len && WavProducer::produced(
                before[i],
                before[i + 1],
                chunks.drop_last()[i],
                outs.drop_last()[i],
            ) by {
                assert(states[i].written + chunks[i].len() <= states[i].data_len);
            }
        }
        lemma_run(before, chunks.drop_last(), outs.drop_last());
        assert(states[n as int].written + chunks[n as int].len() <= states[n as int].data_len);
        assert(states[n as int] == before.last());
        assert(outs[n as int].len() <= chunks[n as int].len());
    }
}

/// A run over all of the data hands out exactly the requested bytes of header
/// and data, and ends in success.
pub proof fn law_complete_run_serves_range(
    header: Seq<u8>,
    states: Seq<WavProducer>,
    chunks: Seq<Seq<u8>>,
    outs: Seq<Seq<u8>>,
)
    requires
        header.len() == 44,
        is_run(states, chunks, outs),
        states[0].wf(),
        states[0].written == 0,
        states[0].emitted == range::clip(header, 0, states[0].range).len(),
        states.last().written >= states[0].data_len,
        states[0].range.end < 44 + states[0].data_len,
    ensures
        range::clip(header, 0, states[0].range) + flat(outs) == (header + flat(chunks)).subrange(
            states[0].range.start as int,
            states[0].range.end + 1,
        ),
        states.last().emitted >= states.last().range.spec_len(),
{
    lemma_run(states, chunks, outs);
    law_full_production_serves_range(header, chunks, states[0].range);
    let served = range::clip(header, 0, states[0].range) + flat(outs);
    assert(served.len() == states[0].range.spec_len());
}

/// A run that begins where the source was moved to, in front of the range,
/// hands out the same bytes, and ends in success.
pub proof fn law_seeked_run_serves_range(
    header: Seq<u8>,
    data: Seq<u8>,
    states: Seq<WavProducer>,
    chunks: Seq<Seq<u8>>,
    outs: Seq<Seq<u8>>,
)
    requires
        header.len() == 44,
        is_run(states, chunks, outs),
        states[0].wf(),
        states[0].emitted == range::clip(header, 0, states[0].range).len(),
        data.len() == states[0].data_len,
        flat(chunks) == data.skip(states[0].written as int),
        44 + states[0].written <= states[0].range.start,
        states[0].range.end < 44 + states[0].data_len,
    ensures
        range::clip(header, 0, states[0].range) + flat(outs) == (header + data).subrange(
            states[0].range.start as int,
            states[0].range.end + 1,
        ),
        states.last().emitted >= states.last().range.spec_len(),
{
    lemma_run(states, chunks, outs);
    law_seeked_production_serves_range(
        header,
        data,
        states[0].written as nat,
        chunks,
        states[0].range,
    );
    let served = range::clip(header, 0, states[0].range) + flat(outs);
    assert(served.len() == states[0].range.spec_len());
}

/// Streams in a one-bit mode and streams with idle frames before their program
/// are bound to marked frames, and no others.
pub proof fn law_one_bit_streams_are_marked(
    stream: UpnpGeneratedDspStream,
    mode: plan::OutputModeForUpnp,
)
    requires
        stream.active_output_mode is Some,
        stream.active_output_mode->0@ == mode.spec_name(),
    ensures
        spec_dop_bound(stream) <==> stream.dop_lead_in_data_len > 0 || !(mode is Pcm),
{
    plan::law_output_mode_names_round_trip(mode);
    reveal_strlit("Pcm");
    reveal_strlit("Dsd64");
    reveal_strlit("Dsd128");
    reveal_strlit("Dsd256");
    assert("Pcm"@.len() == 3 && "Dsd64"@.len() == 5 && "Dsd128"@.len() == 6 && "Dsd256"@.len()
        == 6);
}

/// A range that lies within a stream of WAV is opened as it was asked for.
pub proof fn law_ranges_within_a_stream_are_opened(
    stream: UpnpGeneratedDspStream,
    byte_start: u64,
    byte_end: u64,
    r: Result<OpenedStream, String>,
)
    requires
        call_ensures(generated_upnp_dsp_wav_stream, (&stream, byte_start, byte_end), r),
    ensures
        stream.mime_type@ == "audio/wav"@ && stream.byte_len is Some && byte_start <= byte_end
            && byte_end < stream.byte_len->0 ==> r is Ok && r->Ok_0.range.start == byte_start
            && r->Ok_0.range.end == byte_end,
        stream.byte_len is None || byte_start > byte_end || byte_end >= stream.byte_len->0
            ==> r is Err,
{
}

/// What follows the header of a stream is its data; a stream that is shorter
/// than its header or longer than a header can say is refused, and so is a
/// source of one bit.
pub proof fn law_stream_data_follow_the_header(
    stream: UpnpGeneratedDspStream,
    config: UpnpDspRenderConfig,
    source_rate: u32,
    source_bits: u32,
)
    ensures
        match spec_route(stream, config, source_rate, source_bits) {
            Ok(StreamRoute::Pcm { data_len }) => {
                &&& stream.byte_len == Some((44 + data_len) as u64)
                &&& data_len <= 0xffff_ffff
                &&& source_bits != 1
            },
            Ok(StreamRoute::Dop { data_len, lead_in, dop_frame_rate, .. }) => {
                &&& stream.byte_len == Some((44 + data_len) as u64)
                &&& data_len <= 0xffff_ffff
                &&& source_bits != 1
                &&& lead_in <= data_len
                &&& lead_in <= stream.dop_lead_in_data_len
                &&& lead_in == data_len || lead_in == stream.dop_lead_in_data_len
                &&& dop_frame_rate == stream.target_rate
                &&& stream.target_bits == 24
            },
            Err(StreamRouteError::MissingLength) => stream.byte_len is None,
            Err(StreamRouteError::TooSmall) => stream.byte_len is Some && stream.byte_len->0 < 44,
            Err(StreamRouteError::TooLarge) => stream.byte_len is Some && stream.byte_len->0 - 44
                > 0xffff_ffff,
            Err(StreamRouteError::NativeDsdSource) => source_bits == 1,
            Err(StreamRouteError::DopMismatch) => spec_dop_bound(stream),
        },
        stream.byte_len is Some && 44 <= stream.byte_len->0 && stream.byte_len->0 - 44
            <= 0xffff_ffff && source_bits != 1 && !spec_dop_bound(stream) ==> spec_route(
            stream,
            config,
            source_rate,
            source_bits,
        ) is Ok,
{
}

/// A stream is marked exactly as its source is rendered: with the rate and the
/// filter of a marked file, or not at all.
pub proof fn law_stream_is_marked_as_its_file(
    stream: UpnpGeneratedDspStream,
    config: UpnpDspRenderConfig,
    source_rate: u32,
    source_bits: u32,
)
    ensures
        spec_route(stream, config, source_rate, source_bits) matches Ok(
            StreamRoute::Dop { dsd_rate, dop_frame_rate, filter_type, .. },
        ) ==> render::spec_render_route(config, source_rate) == (render::RenderRoute::DopWav {
            dsd_rate,
            dop_frame_rate,
            filter_type,
        }),
{
}

/// A failed move within the first two and a half seconds is made up for by
/// rendering from the start; a later one ends the stream.
pub proof fn law_late_seek_failures_are_fatal(target_frame: u64, target_rate: u32)
    ensures
        target_frame <= target_rate * 2 ==> !spec_seek_failure_is_fatal(target_frame, target_rate),
        target_rate > 0 && target_frame >= target_rate * 3 ==> spec_seek_failure_is_fatal(
            target_frame,
            target_rate,
        ),
        spec_seek_failure_is_fatal(target_frame, target_rate) <==> target_frame * 10
            > target_rate * 25,
{
}

/// After a move the producer continues where the source has come to, as far as
/// that is known, else where it was to go; after a failed move it begins at the
/// first byte or not at all.
pub proof fn law_producer_continues_where_source_is(
    seek: GeneratedWavSeekPlan,
    frame: u64,
    target_rate: u32,
    target_bits: u32,
    data_len: u64,
    lead_in: u64,
)
    requires
        wav::wav_depth(target_bits),
        lead_in <= data_len,
        frame * (target_bits / 4) + lead_in <= data_len,
    ensures
        spec_seek_cursor(
            seek,
            SourceSeek::Moved { actual_frame: Some(frame) },
            target_rate,
            target_bits,
            data_len,
            lead_in,
        ) == Some(lead_in + frame * (target_bits / 4)),
        spec_seek_cursor(
            seek,
            SourceSeek::Moved { actual_frame: None },
            target_rate,
            target_bits,
            data_len,
            lead_in,
        ) == Some(seek.cursor_data_bytes as int),
        ({
            let failed = spec_seek_cursor(
                seek,
                SourceSeek::Failed,
                target_rate,
                target_bits,
                data_len,
                lead_in,
            );
            failed is None || failed == Some(0int)
        }),
{
}

/// A stage never goes back, and none is left out but the tail of a stream that
/// is not resampled and what a complete range no longer needs.
pub proof fn law_stages_go_forward(
    range_complete: bool,
    program_over: bool,
    resampled: bool,
)
    ensures
        spec_pcm_stage_after(PcmStage::Header, false, program_over, resampled) is Program,
        spec_pcm_stage_after(PcmStage::Program, range_complete, false, resampled) is Program,
        spec_pcm_stage_after(PcmStage::Program, range_complete, true, true) is Tail,
        spec_pcm_stage_after(PcmStage::Program, range_complete, true, false) is Padding,
        spec_pcm_stage_after(PcmStage::Tail, range_complete, program_over, resampled) is Padding,
        spec_pcm_stage_after(PcmStage::Padding, range_complete, program_over, resampled) is Finish,
        spec_dop_stage_after(DopStage::Header, false, program_over) is LeadIn,
        spec_dop_stage_after(DopStage::LeadIn, false, program_over) is Program,
        spec_dop_stage_after(DopStage::Program, range_complete, false) is Program,
        spec_dop_stage_after(DopStage::Program, range_complete, true) is Tail,
        spec_dop_stage_after(DopStage::Tail, range_complete, program_over) is Flush,
        spec_dop_stage_after(DopStage::Flush, range_complete, program_over) is Padding,
        spec_dop_stage_after(DopStage::Padding, range_complete, program_over) is Finish,
{
}

} // verus!
