//! What a renderer is given for a source: the source itself, a file from the
//! cache, a stream that is generated on demand, or a file that is rendered
//! first.

use crate::audio::{DsdRate, FilterType, Real64, TrackCover, TrackTags};
use crate::bytes;
use crate::digest;
use crate::playback::source::QobuzPlayRequest;
use crate::playback::upnp_dsp::dop;
use crate::playback::upnp_dsp::flac;
use crate::playback::upnp_dsp::formats;
use crate::playback::upnp_dsp::layout;
use crate::playback::upnp_dsp::plan;
use crate::playback::upnp_dsp::plan::{OutputModeForUpnp, UpnpDspRenderConfig, UpnpRenderPlan};
use crate::playback::upnp_dsp::wav;
use crate::playback::upnp_target;
use crate::playback::upnp_target::{UpnpDspStreamingPolicy, UpnpRendererTarget};
use crate::protocol::playback::PlaybackConfig;
use crate::protocol::sink::UpnpPcmContainer;
use crate::protocol::source::SourceRef;
use crate::text;
use vstd::prelude::*;
use vstd::string::*;

verus! {

/// What a renderer can be given.
#[allow(inconsistent_fields)]
pub enum UpnpSource {
    LocalFile {
        source_ref: SourceRef,
        path: String,
        tags: TrackTags,
        cover: Option<TrackCover>,
        byte_len: Option<u64>,
        source_rate: u32,
        source_bits: u32,
    },
    RemoteStream {
        id: String,
        source_ref: SourceRef,
        stream_url: String,
        mime_type: String,
        byte_len: Option<u64>,
        art_url: Option<String>,
        tags: TrackTags,
        source_rate: u32,
        source_bits: u32,
        qobuz_resolve_ms: Option<u64>,
        asset_registration_ms: Option<u64>,
    },
    GeneratedDspStream {
        id: String,
        zone_id: String,
        source_ref: SourceRef,
        mime_type: String,
        tags: TrackTags,
        source_rate: u32,
        source_bits: u32,
        target_rate: u32,
        target_bits: u32,
        active_output_mode: Option<String>,
        byte_len: Option<u64>,
        dop_lead_in_data_len: u64,
        target: UpnpRendererTarget,
        playback_config: PlaybackConfig,
    },
}

/// What was decided for a source.
pub struct UpnpDspDecision {
    pub rendered: Option<UpnpSource>,
    pub render_signature: String,
    pub render_ms: Option<u64>,
    pub cache_hit: Option<bool>,
    pub render_or_stream_plan: Option<String>,
    pub cache_lookup_ms: Option<u64>,
    pub cache_wait_ms: Option<u64>,
    pub active_output_mode: String,
    pub source_rate: u32,
    pub source_bits: u32,
    pub output_rate: u32,
    pub output_bits: u32,
}

/// What a decoder says of a source.
pub struct MediaInfo {
    pub sample_rate: u32,
    pub bits_per_sample: u32,
    pub channels: u16,
    pub duration_secs: Option<Real64>,
}

/// What is known of a source beside its audio.
pub struct SourceMetadata {
    pub source_ref: SourceRef,
    pub tags: TrackTags,
    pub cover: Option<TrackCover>,
}

/// A file in the render cache.
pub struct RenderedFile {
    pub path: String,
    pub byte_len: Option<u64>,
    pub sample_rate: u32,
    pub bits_per_sample: u32,
    pub cache_hit: bool,
}

/// A rendered file together with what it was rendered from.
pub struct RenderedUpnpAsset {
    pub source_ref: SourceRef,
    pub path: String,
    pub tags: TrackTags,
    pub cover: Option<TrackCover>,
    pub byte_len: Option<u64>,
    pub source_rate: u32,
    pub source_bits: u32,
    pub output_rate: u32,
    pub output_bits: u32,
    pub output_kind: String,
    pub cache_hit: bool,
    pub cache_wait_ms: u64,
}

/// The label, signature, mode and rates of a decision.
pub open spec fn decides(
    d: UpnpDspDecision,
    label: Seq<char>,
    signature: Seq<char>,
    mode: OutputModeForUpnp,
    source: (u32, u32),
    output: (u32, u32),
) -> bool {
    &&& d.render_or_stream_plan is Some
    &&& d.render_or_stream_plan->0@ == label
    &&& d.render_signature@ == signature
    &&& d.active_output_mode@ == mode.spec_name()
    &&& (d.source_rate, d.source_bits) == source
    &&& (d.output_rate, d.output_bits) == output
}

/// The decision leaves the source as it is.
pub open spec fn serves_source(d: UpnpDspDecision) -> bool {
    &&& d.rendered is None
    &&& d.render_ms is None
    &&& d.cache_hit is None
    &&& d.cache_lookup_ms is None
    &&& d.cache_wait_ms is None
}

fn source_decision(
    label: &str,
    signature: String,
    mode: OutputModeForUpnp,
    rate: u32,
    bits: u32,
) -> (r: UpnpDspDecision)
    ensures
        serves_source(r),
        decides(r, label@, signature@, mode, (rate, bits), (rate, bits)),
{
    UpnpDspDecision {
        rendered: None,
        render_signature: signature,
        render_ms: None,
        cache_hit: None,
        render_or_stream_plan: Some(label.to_string()),
        cache_lookup_ms: None,
        cache_wait_ms: None,
        active_output_mode: mode.as_name().to_string(),
        source_rate: rate,
        source_bits: bits,
        output_rate: rate,
        output_bits: bits,
    }
}

/// The signature of a source that is served without a look at its format.
pub open spec fn blind_signature(
    source: SourceRef,
    config: UpnpDspRenderConfig,
    container: Seq<char>,
) -> Seq<char> {
    digest::fingerprint_text(
        plan::signature_preimage(
            source.spec_key(),
            0,
            0,
            0,
            plan::spec_normalized_bits(config.target_bit_depth),
            container,
            config,
        ),
    )
}

/// What to do next for a source.
pub enum RenderStep {
    /// Everything is decided.
    Decided(UpnpDspDecision),
    /// The format of the source is needed.
    ProbeSource,
    /// The render is planned; a file of it may be in the cache.
    ProbeCache(UpnpRenderPlan),
    /// The file has to be rendered.
    Render(UpnpRenderPlan),
}

/// The first step for a source. Renderer compatibility must not turn ordinary
/// passthrough playback into a full-track render, so without any processing
/// the source is served as it is.
pub fn rendered_upnp_source_if_needed(source_ref: &SourceRef, config: &UpnpDspRenderConfig) -> (r:
    RenderStep)
    ensures
        plan::spec_processing(*config) <==> r is ProbeSource,
        !plan::spec_processing(*config) ==> r is Decided && serves_source(r->Decided_0) && decides(
            r->Decided_0,
            "passthrough"@,
            blind_signature(*source_ref, *config, "passthrough"@),
            OutputModeForUpnp::Pcm,
            (0, 0),
            (0, 0),
        ),
{
    if plan::upnp_dsp_inactive(config) {
        let signature = plan::render_signature_for_plan(
            source_ref,
            0,
            0,
            0,
            plan::normalize_target_bit_depth(config.target_bit_depth),
            "passthrough",
            config,
        );
        return RenderStep::Decided(
            source_decision("passthrough", signature, OutputModeForUpnp::Pcm, 0, 0),
        );
    }
    RenderStep::ProbeSource
}

/// The step after the format of the source has been asked for. A source of
/// unknown format is served as it is, and so is one that needs no render.
pub fn after_source_probe(
    source_ref: &SourceRef,
    config: &UpnpDspRenderConfig,
    source_meta: Option<(u32, u32)>,
) -> (r: RenderStep)
    ensures
        source_meta is None ==> r is Decided && serves_source(r->Decided_0) && decides(
            r->Decided_0,
            "unknown_source_passthrough"@,
            blind_signature(*source_ref, *config, "unknown"@),
            OutputModeForUpnp::Pcm,
            (0, 0),
            (0, 0),
        ),
        source_meta is Some ==> ({
            let meta = source_meta->0;
            let shape = plan::plan_shape(*config, meta.0, meta.1);
            if shape.render_needed {
                r is ProbeCache && plan::plan_has_shape(
                    r->ProbeCache_0,
                    shape,
                    source_ref.spec_key(),
                    meta.0,
                    meta.1,
                    *config,
                )
            } else {
                r is Decided && serves_source(r->Decided_0) && decides(
                    r->Decided_0,
                    "passthrough"@,
                    digest::fingerprint_text(
                        plan::signature_preimage(
                            source_ref.spec_key(),
                            meta.0,
                            meta.1,
                            shape.output_rate,
                            shape.output_bits,
                            shape.container,
                            *config,
                        ),
                    ),
                    shape.mode,
                    meta,
                    meta,
                )
            }
        }),
{
    match source_meta {
        Some((rate, bits)) => {
            let planned = plan::render_plan_for_source(config, source_ref, rate, bits);
            if planned.render_needed {
                RenderStep::ProbeCache(planned)
            } else {
                RenderStep::Decided(
                    source_decision(
                        "passthrough",
                        planned.signature,
                        planned.active_output_mode,
                        rate,
                        bits,
                    ),
                )
            }
        },
        None => {
            let signature = plan::render_signature_for_plan(
                source_ref,
                0,
                0,
                0,
                plan::normalize_target_bit_depth(config.target_bit_depth),
                "unknown",
                config,
            );
            RenderStep::Decided(
                source_decision(
                    "unknown_source_passthrough",
                    signature,
                    OutputModeForUpnp::Pcm,
                    0,
                    0,
                ),
            )
        },
    }
}

/// The tags of a rendered file: those of the source with the rendered format,
/// and with the decoder's duration where the source has none.
pub open spec fn spec_rendered_tags(
    tags: TrackTags,
    rate: u32,
    bits: u32,
    info: MediaInfo,
) -> TrackTags {
    TrackTags {
        sample_rate: Some(rate),
        bits_per_sample: Some(bits),
        channels: Some(info.channels),
        duration_secs: if tags.duration_secs is None {
            info.duration_secs
        } else {
            tags.duration_secs
        },
        ..tags
    }
}

/// A rendered file together with what it was rendered from.
pub fn rendered_asset(
    request: SourceMetadata,
    source_info: MediaInfo,
    rendered: RenderedFile,
    output_kind: &str,
    cache_wait_ms: u64,
) -> (r: RenderedUpnpAsset)
    ensures
        r == (RenderedUpnpAsset {
            source_ref: request.source_ref,
            path: rendered.path,
            tags: spec_rendered_tags(
                request.tags,
                rendered.sample_rate,
                rendered.bits_per_sample,
                source_info,
            ),
            cover: request.cover,
            byte_len: rendered.byte_len,
            source_rate: source_info.sample_rate,
            source_bits: source_info.bits_per_sample,
            output_rate: rendered.sample_rate,
            output_bits: rendered.bits_per_sample,
            output_kind: r.output_kind,
            cache_hit: rendered.cache_hit,
            cache_wait_ms,
        }),
        r.output_kind@ == output_kind@,
{
    let mut tags = request.tags;
    tags.sample_rate = Some(rendered.sample_rate);
    tags.bits_per_sample = Some(rendered.bits_per_sample);
    tags.channels = Some(source_info.channels);
    if tags.duration_secs.is_none() {
        tags.duration_secs = source_info.duration_secs;
    }
    RenderedUpnpAsset {
        source_ref: request.source_ref,
        path: rendered.path,
        tags,
        cover: request.cover,
        byte_len: rendered.byte_len,
        source_rate: source_info.sample_rate,
        source_bits: source_info.bits_per_sample,
        output_rate: rendered.sample_rate,
        output_bits: rendered.bits_per_sample,
        output_kind: output_kind.to_string(),
        cache_hit: rendered.cache_hit,
        cache_wait_ms,
    }
}

/// The decision to serve a rendered file.
pub open spec fn serves_asset(d: UpnpDspDecision, asset: RenderedUpnpAsset) -> bool {
    d.rendered == Some(
        UpnpSource::LocalFile {
            source_ref: asset.source_ref,
            path: asset.path,
            tags: asset.tags,
            cover: asset.cover,
            byte_len: asset.byte_len,
            source_rate: asset.output_rate,
            source_bits: asset.output_bits,
        },
    )
}

fn asset_decision(
    asset: RenderedUpnpAsset,
    label: &str,
    planned: &UpnpRenderPlan,
    render_ms: u64,
    cache_lookup_ms: Option<u64>,
) -> (r: UpnpDspDecision)
    ensures
        serves_asset(r, asset),
        decides(
            r,
            label@,
            planned.signature@,
            planned.active_output_mode,
            (asset.source_rate, asset.source_bits),
            (asset.output_rate, asset.output_bits),
        ),
        r.render_ms == Some(render_ms),
        r.cache_hit == Some(asset.cache_hit),
        r.cache_lookup_ms == cache_lookup_ms,
        r.cache_wait_ms == Some(asset.cache_wait_ms),
{
    UpnpDspDecision {
        render_signature: planned.signature.clone(),
        render_ms: Some(render_ms),
        cache_hit: Some(asset.cache_hit),
        render_or_stream_plan: Some(label.to_string()),
        cache_lookup_ms,
        cache_wait_ms: Some(asset.cache_wait_ms),
        active_output_mode: planned.active_output_mode.as_name().to_string(),
        source_rate: asset.source_rate,
        source_bits: asset.source_bits,
        output_rate: asset.output_rate,
        output_bits: asset.output_bits,
        rendered: Some(
            UpnpSource::LocalFile {
                source_ref: asset.source_ref,
                path: asset.path,
                tags: asset.tags,
                cover: asset.cover,
                byte_len: asset.byte_len,
                source_rate: asset.output_rate,
                source_bits: asset.output_bits,
            },
        ),
    }
}

/// The tags of a local file, as its reference carries them.
pub open spec fn spec_file_tags(source: SourceRef) -> TrackTags {
    match source {
        SourceRef::LocalTrack { title, artist, album, duration_secs, .. } => TrackTags {
            title,
            artist,
            album,
            album_artist: None,
            duration_secs,
            sample_rate: None,
            bits_per_sample: None,
            channels: None,
        },
        SourceRef::QobuzTrack { .. } => layout::spec_tags(source),
    }
}

/// The tags of a source that is opened for rendering.
pub fn file_tags(source: &SourceRef) -> (r: TrackTags)
    ensures
        r == spec_file_tags(*source),
{
    match source {
        SourceRef::LocalTrack { title, artist, album, duration_secs, .. } => TrackTags {
            title: title.clone(),
            artist: artist.clone(),
            album: album.clone(),
            album_artist: None,
            duration_secs: *duration_secs,
            sample_rate: None,
            bits_per_sample: None,
            channels: None,
        },
        SourceRef::QobuzTrack { .. } => layout::tags_for_source_ref(source),
    }
}

/// The key under which renders of a local file are cached: its path, its size
/// and when it was modified, in seconds.
pub open spec fn spec_local_cache_key(path: Seq<char>, len: u64, modified: u64) -> Seq<char> {
    "local:"@ + path + ":"@ + text::decimal(len as nat) + ":"@ + text::decimal(modified as nat)
}

/// The key under which renders of a local file are cached; a streamed source
/// is looked up only once it is open.
pub fn local_source_cache_key_and_tags(
    source_ref: &SourceRef,
    path: &str,
    len: u64,
    modified: Option<u64>,
) -> (r: Option<(String, TrackTags)>)
    ensures
        r is Some <==> *source_ref is LocalTrack,
        r is Some ==> (r->0).0@ == spec_local_cache_key(path@, len, modified.unwrap_or(0))
            && (r->0).1 == spec_file_tags(*source_ref),
{
    match source_ref {
        SourceRef::LocalTrack { .. } => {
            let mut key = text::joined("local:", path);
            key.append(":");
            text::push_decimal(&mut key, len);
            key.append(":");
            text::push_decimal(
                &mut key,
                match modified {
                    Some(secs) => secs,
                    None => 0,
                },
            );
            Some((key, file_tags(source_ref)))
        },
        SourceRef::QobuzTrack { .. } => None,
    }
}

/// A finished render of a local file that was found in the cache.
pub struct CachedRender {
    pub path: String,
    pub byte_len: Option<u64>,
}

/// The media information that goes with a source of known format.
pub open spec fn assumed_info(rate: u32, bits: u32, duration: Option<Real64>) -> MediaInfo {
    MediaInfo { sample_rate: rate, bits_per_sample: bits, channels: 2, duration_secs: duration }
}

/// The decision serves a finished render from the cache.
pub open spec fn serves_completed_cache(
    d: UpnpDspDecision,
    source: SourceRef,
    planned: UpnpRenderPlan,
    rate: u32,
    bits: u32,
    cached: CachedRender,
    cache_lookup_ms: u64,
) -> bool {
    &&& d.rendered == Some(
        UpnpSource::LocalFile {
            source_ref: source,
            path: cached.path,
            tags: spec_rendered_tags(
                spec_file_tags(source),
                planned.output_rate,
                planned.output_bits,
                assumed_info(rate, bits, layout::spec_tags(source).duration_secs),
            ),
            cover: None,
            byte_len: cached.byte_len,
            source_rate: planned.output_rate,
            source_bits: planned.output_bits,
        },
    )
    &&& decides(
        d,
        "completed_cache"@,
        planned.signature@,
        planned.active_output_mode,
        (rate, bits),
        (planned.output_rate, planned.output_bits),
    )
    &&& d.render_ms == Some(0u64)
    &&& d.cache_hit == Some(true)
    &&& d.cache_lookup_ms == Some(cache_lookup_ms)
    &&& d.cache_wait_ms == Some(0u64)
}

/// The decision for a finished render that was found in the cache.
pub fn completed_local_render_cache_decision(
    source_ref: &SourceRef,
    planned: &UpnpRenderPlan,
    source_rate: u32,
    source_bits: u32,
    cached: CachedRender,
    cache_lookup_ms: u64,
) -> (r: UpnpDspDecision)
    ensures
        serves_completed_cache(
            r,
            *source_ref,
            *planned,
            source_rate,
            source_bits,
            cached,
            cache_lookup_ms,
        ),
{
    let asset = rendered_asset(
        SourceMetadata { source_ref: source_ref.clone(), tags: file_tags(source_ref), cover: None },
        MediaInfo {
            sample_rate: source_rate,
            bits_per_sample: source_bits,
            channels: 2,
            duration_secs: layout::tags_for_source_ref(source_ref).duration_secs,
        },
        RenderedFile {
            path: cached.path,
            byte_len: cached.byte_len,
            sample_rate: planned.output_rate,
            bits_per_sample: planned.output_bits,
            cache_hit: true,
        },
        planned.container.as_str(),
        0,
    );
    asset_decision(asset, "completed_cache", planned, 0, Some(cache_lookup_ms))
}

/// Generated streams are switched off by the setting `0`.
pub open spec fn spec_streaming_enabled(setting: Option<Seq<char>>) -> bool {
    setting is None || text::trimmed(setting->0) != "0"@
}

/// Whether generated streams are switched on.
pub fn generated_wav_streaming_enabled_for_upnp(setting: Option<&str>) -> (r: bool)
    ensures
        r == spec_streaming_enabled(text::opt_str(setting)),
{
    match setting {
        Some(value) => *value.trim() != *"0",
        None => true,
    }
}

/// A plan can be streamed as WAV: it renders PCM or marked one-bit audio from
/// a PCM source, its length is known, and the renderer takes WAV at that
/// format, or the plan is for WAV anyway.
pub open spec fn spec_can_stream(
    config: UpnpDspRenderConfig,
    source: SourceRef,
    planned: UpnpRenderPlan,
    source_bits: u32,
    program_frames: Option<u64>,
) -> bool {
    &&& planned.render_needed
    &&& planned.container@ != "dsf"@
    &&& source_bits != 1
    &&& wav::wav_depth(planned.output_bits)
    &&& layout::spec_source_layout(
        source,
        program_frames,
        planned.output_rate,
        planned.output_bits,
        planned.active_output_mode,
    ) is Some
    &&& (planned.container@ == "wav"@ || planned.container@ == "dop_wav"@
        || formats::spec_supports(
        config.target,
        UpnpPcmContainer::Wav,
        planned.output_rate,
        planned.output_bits as u8,
    ))
}

/// `streamed` is the plan for WAV in place of `planned`.
pub open spec fn is_wav_plan(
    streamed: UpnpRenderPlan,
    planned: UpnpRenderPlan,
    source: SourceRef,
    rate: u32,
    bits: u32,
    config: UpnpDspRenderConfig,
) -> bool {
    &&& streamed.render_needed
    &&& streamed.container@ == "wav"@
    &&& streamed.output_rate == planned.output_rate
    &&& streamed.output_bits == planned.output_bits
    &&& streamed.active_output_mode == planned.active_output_mode
    &&& streamed.signature@ == digest::fingerprint_text(
        plan::signature_preimage(
            source.spec_key(),
            rate,
            bits,
            planned.output_rate,
            planned.output_bits,
            "wav"@,
            config,
        ),
    )
}

/// The plan for a generated stream, if the render can be streamed.
pub fn progressive_wav_plan_for_source(
    config: &UpnpDspRenderConfig,
    source_ref: &SourceRef,
    planned: &UpnpRenderPlan,
    source_rate: u32,
    source_bits: u32,
    streaming_setting: Option<&str>,
    program_frames: Option<u64>,
) -> (r: Option<UpnpRenderPlan>)
    ensures
        r is Some <==> spec_streaming_enabled(text::opt_str(streaming_setting)) && spec_can_stream(
            *config,
            *source_ref,
            *planned,
            source_bits,
            program_frames,
        ),
        r is Some ==> is_wav_plan(
            r->0,
            *planned,
            *source_ref,
            source_rate,
            source_bits,
            *config,
        ),
{
    if !generated_wav_streaming_enabled_for_upnp(streaming_setting) || !planned.render_needed
        || source_bits == 1 {
        return None;
    }
    let container = planned.container.as_str();
    if *container == *"dsf" {
        return None;
    }
    if planned.output_bits != 16 && planned.output_bits != 24 && planned.output_bits != 32 {
        return None;
    }
    if layout::generated_wav_metadata_for_source(
        source_ref,
        program_frames,
        planned.output_rate,
        planned.output_bits,
        planned.active_output_mode,
    ).is_none() {
        return None;
    }
    let wav_already_selected = *container == *"wav" || *container == *"dop_wav";
    if !wav_already_selected && !formats::target_supports_pcm_container(
        &config.target,
        UpnpPcmContainer::Wav,
        planned.output_rate,
        planned.output_bits as u8,
    ) {
        return None;
    }
    Some(
        UpnpRenderPlan {
            render_needed: true,
            signature: plan::render_signature_for_plan(
                source_ref,
                source_rate,
                source_bits,
                planned.output_rate,
                planned.output_bits,
                "wav",
                config,
            ),
            output_rate: planned.output_rate,
            output_bits: planned.output_bits,
            active_output_mode: planned.active_output_mode,
            container: "wav".to_string(),
        },
    )
}

/// The decision announces a generated stream.
pub open spec fn serves_generated(
    d: UpnpDspDecision,
    zone_id: Seq<char>,
    source: SourceRef,
    target: UpnpRendererTarget,
    config: PlaybackConfig,
    streamed: UpnpRenderPlan,
    rate: u32,
    bits: u32,
    laid_out: layout::GeneratedWavLayout,
) -> bool {
    &&& d.rendered matches Some(
        UpnpSource::GeneratedDspStream {
            id,
            zone_id: zone,
            source_ref,
            mime_type,
            tags,
            source_rate,
            source_bits,
            target_rate,
            target_bits,
            active_output_mode,
            byte_len,
            dop_lead_in_data_len,
            target: to,
            playback_config,
        },
    )
    &&& id@ == digest::fingerprint_text(
        plan::asset_id_preimage(source.spec_key(), streamed.signature@),
    )
    &&& zone@ == zone_id
    &&& source_ref == source
    &&& mime_type@ == "audio/wav"@
    &&& tags == layout::spec_tags(source)
    &&& (source_rate, source_bits) == (rate, bits)
    &&& (target_rate, target_bits) == (streamed.output_rate, streamed.output_bits)
    &&& active_output_mode is Some
    &&& active_output_mode->0@ == streamed.active_output_mode.spec_name()
    &&& byte_len == Some((44 + laid_out.data_len) as u64)
    &&& dop_lead_in_data_len == laid_out.dop_lead_in_data_len
    &&& to.same_as(target)
    &&& playback_config.same_as(config)
    &&& decides(
        d,
        "progressive_wav_stream"@,
        streamed.signature@,
        streamed.active_output_mode,
        (rate, bits),
        (streamed.output_rate, streamed.output_bits),
    )
    &&& d.render_ms == Some(0u64)
    &&& d.cache_hit == Some(false)
    &&& d.cache_wait_ms == Some(0u64)
}

/// The decision to announce a generated stream, for a plan that renders WAV of
/// known length.
pub fn generated_wav_decision_for_plan(
    zone_id: &str,
    source_ref: &SourceRef,
    target: &UpnpRendererTarget,
    config: &PlaybackConfig,
    streamed: &UpnpRenderPlan,
    source_rate: u32,
    source_bits: u32,
    streaming_setting: Option<&str>,
    program_frames: Option<u64>,
) -> (r: Option<UpnpDspDecision>)
    ensures
        r is Some <==> spec_streaming_enabled(text::opt_str(streaming_setting))
            && streamed.render_needed && streamed.container@ == "wav"@
            && layout::spec_source_layout(
            *source_ref,
            program_frames,
            streamed.output_rate,
            streamed.output_bits,
            streamed.active_output_mode,
        ) is Some,
        r is Some ==> r->0.cache_lookup_ms is None && serves_generated(
            r->0,
            zone_id@,
            *source_ref,
            *target,
            *config,
            *streamed,
            source_rate,
            source_bits,
            layout::spec_source_layout(
                *source_ref,
                program_frames,
                streamed.output_rate,
                streamed.output_bits,
                streamed.active_output_mode,
            )->0,
        ),
{
    if !generated_wav_streaming_enabled_for_upnp(streaming_setting) {
        return None;
    }
    if !streamed.render_needed || *streamed.container.as_str() != *"wav" {
        return None;
    }
    let metadata = match layout::generated_wav_metadata_for_source(
        source_ref,
        program_frames,
        streamed.output_rate,
        streamed.output_bits,
        streamed.active_output_mode,
    ) {
        Some(metadata) => metadata,
        None => return None,
    };
    let id = plan::generated_dsp_asset_id(source_ref, streamed.signature.as_str());
    Some(
        UpnpDspDecision {
            rendered: Some(
                UpnpSource::GeneratedDspStream {
                    id,
                    zone_id: zone_id.to_string(),
                    source_ref: source_ref.clone(),
                    mime_type: "audio/wav".to_string(),
                    tags: metadata.tags,
                    source_rate,
                    source_bits,
                    target_rate: streamed.output_rate,
                    target_bits: streamed.output_bits,
                    active_output_mode: Some(streamed.active_output_mode.as_name().to_string()),
                    byte_len: metadata.byte_len,
                    dop_lead_in_data_len: metadata.dop_lead_in_data_len,
                    target: target.clone(),
                    playback_config: config.clone(),
                },
            ),
            render_signature: streamed.signature.clone(),
            render_ms: Some(0),
            cache_hit: Some(false),
            render_or_stream_plan: Some("progressive_wav_stream".to_string()),
            cache_lookup_ms: None,
            cache_wait_ms: Some(0),
            active_output_mode: streamed.active_output_mode.as_name().to_string(),
            source_rate,
            source_bits,
            output_rate: streamed.output_rate,
            output_bits: streamed.output_bits,
        },
    )
}

/// The step after the cache has been asked for a finished render: one that is
/// there is served; else a stream is generated where the policy allows it and
/// the plan can be streamed; else the file is rendered first.
pub fn after_cache_probe(
    zone_id: &str,
    source_ref: &SourceRef,
    target: &UpnpRendererTarget,
    config: &PlaybackConfig,
    render_config: &UpnpDspRenderConfig,
    planned: UpnpRenderPlan,
    source_rate: u32,
    source_bits: u32,
    policy: UpnpDspStreamingPolicy,
    cached: Option<CachedRender>,
    cache_lookup_ms: u64,
    streaming_setting: Option<&str>,
    program_frames: Option<u64>,
) -> (r: RenderStep)
    ensures
        cached is Some ==> r is Decided && serves_completed_cache(
            r->Decided_0,
            *source_ref,
            planned,
            source_rate,
            source_bits,
            cached->0,
            cache_lookup_ms,
        ),
        cached is None ==> ({
            let streams = policy == UpnpDspStreamingPolicy::Auto && spec_streaming_enabled(
                text::opt_str(streaming_setting),
            ) && spec_can_stream(*render_config, *source_ref, planned, source_bits, program_frames);
            &&& !streams ==> r == RenderStep::Render(planned)
            &&& streams ==> r is Decided && r->Decided_0.cache_lookup_ms == Some(cache_lookup_ms)
                && exists|streamed: UpnpRenderPlan| #[trigger]
                is_wav_plan(
                    streamed,
                    planned,
                    *source_ref,
                    source_rate,
                    source_bits,
                    *render_config,
                ) && serves_generated(
                    r->Decided_0,
                    zone_id@,
                    *source_ref,
                    *target,
                    *config,
                    streamed,
                    source_rate,
                    source_bits,
                    layout::spec_source_layout(
                        *source_ref,
                        program_frames,
                        planned.output_rate,
                        planned.output_bits,
                        planned.active_output_mode,
                    )->0,
                )
        }),
{
    match cached {
        Some(cached) => RenderStep::Decided(
            completed_local_render_cache_decision(
                source_ref,
                &planned,
                source_rate,
                source_bits,
                cached,
                cache_lookup_ms,
            ),
        ),
        None => {
            if policy == UpnpDspStreamingPolicy::Auto {
                match progressive_wav_plan_for_source(
                    render_config,
                    source_ref,
                    &planned,
                    source_rate,
                    source_bits,
                    streaming_setting,
                    program_frames,
                ) {
                    Some(streamed) => {
                        match generated_wav_decision_for_plan(
                            zone_id,
                            source_ref,
                            target,
                            config,
                            &streamed,
                            source_rate,
                            source_bits,
                            streaming_setting,
                            program_frames,
                        ) {
                            Some(decision) => {
                                let mut decision = decision;
                                decision.cache_lookup_ms = Some(cache_lookup_ms);
                                proof {
                                    assert(is_wav_plan(
                                        streamed,
                                        planned,
                                        *source_ref,
                                        source_rate,
                                        source_bits,
                                        *render_config,
                                    ));
                                }
                                return RenderStep::Decided(decision);
                            },
                            None => {},
                        }
                    },
                    None => {},
                }
            }
            RenderStep::Render(planned)
        },
    }
}

/// The decision for a file that was rendered for this request.
pub fn after_render(
    asset: RenderedUpnpAsset,
    planned: &UpnpRenderPlan,
    render_ms: u64,
    cache_lookup_ms: u64,
) -> (r: UpnpDspDecision)
    ensures
        serves_asset(r, asset),
        decides(
            r,
            "eager_render"@,
            planned.signature@,
            planned.active_output_mode,
            (asset.source_rate, asset.source_bits),
            (asset.output_rate, asset.output_bits),
        ),
        r.render_ms == Some(render_ms),
        r.cache_hit == Some(asset.cache_hit),
        r.cache_lookup_ms == Some(cache_lookup_ms),
        r.cache_wait_ms == Some(asset.cache_wait_ms),
{
    asset_decision(asset, "eager_render", planned, render_ms, Some(cache_lookup_ms))
}

/// How a decoded source is rendered.
pub enum RenderRoute {
    /// Marked one-bit audio in a WAV file.
    DopWav { dsd_rate: DsdRate, dop_frame_rate: u32, filter_type: FilterType },
    /// A one-bit file; when that fails, PCM takes its place.
    Dsf { dsd_rate: DsdRate, filter_type: FilterType },
    Pcm,
}

/// The route for a source of the decoded rate. A one-bit mode that the
/// renderer does not take ends in PCM.
pub open spec fn spec_render_route(config: UpnpDspRenderConfig, source_rate: u32) -> RenderRoute {
    let policy = plan::spec_policy(
        config.output_mode,
        config.filter_type,
        source_rate,
        config.dsd_rules@,
    );
    match plan::spec_dop(policy.output_mode, config.target, source_rate) {
        Some(dop) => RenderRoute::DopWav {
            dsd_rate: dop.0,
            dop_frame_rate: dop.1,
            filter_type: policy.filter_type,
        },
        None => match plan::spec_native_dsd(policy.output_mode, config.target) {
            Some(dsd_rate) => RenderRoute::Dsf { dsd_rate, filter_type: policy.filter_type },
            None => RenderRoute::Pcm,
        },
    }
}

/// The step of a blocking render once its cache entry is locked.
pub enum BlockingRender {
    /// Another request has finished the file meanwhile.
    Finished(RenderedUpnpAsset),
    /// The source has to be decoded.
    Decode(SourceMetadata),
}

/// Looks at the cache entry of a plan once more, now that it is locked: a file
/// that another request has finished is taken.
pub fn render_upnp_source_blocking(
    planned: &UpnpRenderPlan,
    metadata: SourceMetadata,
    source_rate: u32,
    source_bits: u32,
    finished: Option<CachedRender>,
    cache_wait_ms: u64,
) -> (r: BlockingRender)
    ensures
        finished is None ==> r == BlockingRender::Decode(metadata),
        finished is Some ==> r is Finished && r->Finished_0 == (RenderedUpnpAsset {
            source_ref: metadata.source_ref,
            path: finished->0.path,
            tags: spec_rendered_tags(
                metadata.tags,
                planned.output_rate,
                planned.output_bits,
                assumed_info(source_rate, source_bits, metadata.tags.duration_secs),
            ),
            cover: metadata.cover,
            byte_len: finished->0.byte_len,
            source_rate,
            source_bits,
            output_rate: planned.output_rate,
            output_bits: planned.output_bits,
            output_kind: r->Finished_0.output_kind,
            cache_hit: true,
            cache_wait_ms,
        }) && r->Finished_0.output_kind@ == plan::spec_output_kind(planned.container@),
{
    match finished {
        Some(file) => {
            let info = MediaInfo {
                sample_rate: source_rate,
                bits_per_sample: source_bits,
                channels: 2,
                duration_secs: metadata.tags.duration_secs,
            };
            let rendered = RenderedFile {
                path: file.path,
                byte_len: file.byte_len,
                sample_rate: planned.output_rate,
                bits_per_sample: planned.output_bits,
                cache_hit: true,
            };
            BlockingRender::Finished(
                rendered_asset(
                    metadata,
                    info,
                    rendered,
                    plan::output_kind_for_plan(planned),
                    cache_wait_ms,
                ),
            )
        },
        None => BlockingRender::Decode(metadata),
    }
}

/// The route for a source of the decoded rate.
pub fn render_route(config: &UpnpDspRenderConfig, source_rate: u32) -> (r: RenderRoute)
    ensures
        r == spec_render_route(*config, source_rate),
{
    let policy = plan::dsd_policy_for_source(
        config.output_mode,
        &config.filter_type,
        source_rate,
        &config.dsd_rules,
    );
    match plan::dop_dsd_rate_for_target(policy.output_mode, &config.target, source_rate) {
        Some((dsd_rate, dop_frame_rate)) => RenderRoute::DopWav {
            dsd_rate,
            dop_frame_rate,
            filter_type: policy.filter_type,
        },
        None => match plan::dsd_rate_for_target(policy.output_mode, &config.target) {
            Some(dsd_rate) => RenderRoute::Dsf { dsd_rate, filter_type: policy.filter_type },
            None => RenderRoute::Pcm,
        },
    }
}

/// What a decoder's header says of a source that can be rendered.
#[derive(Clone, Copy, Debug, PartialEq, Eq, Structural)]
pub struct DecodeHeader {
    pub source_rate: u32,
    pub source_bits: u32,
    pub channels: u16,
}

/// Reads a decoder's header: 44.1 kHz, 16 bits and two channels are assumed
/// where it is silent; more than two channels are refused.
pub fn decode_pcm_streaming_header(rate: Option<u32>, bits: Option<u32>, channels: Option<u16>)
    -> (r: Result<DecodeHeader, String>)
    ensures
        r is Ok <==> 1 <= channels.unwrap_or(2) <= 2,
        r is Ok ==> r->Ok_0 == (DecodeHeader {
            source_rate: rate.unwrap_or(44_100),
            source_bits: bits.unwrap_or(16),
            channels: channels.unwrap_or(2),
        }),
        r is Err ==> r->Err_0@ == "UPnP DSP supports mono or stereo PCM sources only"@,
{
    let channels: u16 = channels.unwrap_or(2);
    if channels == 0 || channels > 2 {
        return Err("UPnP DSP supports mono or stereo PCM sources only".to_string());
    }
    Ok(
        DecodeHeader {
            source_rate: rate.unwrap_or(44_100),
            source_bits: bits.unwrap_or(16),
            channels,
        },
    )
}

/// Reads a decoder's header for a complete render, which one-bit sources do
/// not have.
pub fn decode_pcm_header(rate: Option<u32>, bits: Option<u32>, channels: Option<u16>) -> (r: Result<
    DecodeHeader,
    String,
>)
    ensures
        r is Ok <==> 1 <= channels.unwrap_or(2) <= 2 && bits != Some(1u32),
        r is Ok ==> r->Ok_0 == (DecodeHeader {
            source_rate: rate.unwrap_or(44_100),
            source_bits: bits.unwrap_or(16),
            channels: channels.unwrap_or(2),
        }),
        r is Err ==> r->Err_0@ == (if 1 <= channels.unwrap_or(2) <= 2 {
            "UPnP DSP cannot process native DSD source files yet"@
        } else {
            "UPnP DSP supports mono or stereo PCM sources only"@
        }),
{
    let header = match decode_pcm_streaming_header(rate, bits, channels) {
        Ok(header) => header,
        Err(error) => return Err(error),
    };
    if header.source_bits == 1 {
        return Err("UPnP DSP cannot process native DSD source files yet".to_string());
    }
    Ok(header)
}

/// The bytes of a rendered PCM file in the container that the plan names.
pub fn encode_rendered_pcm(planned: &UpnpRenderPlan, samples: &[i32]) -> (r: Result<
    Vec<u8>,
    String,
>)
    requires
        planned.container@ == "flac"@ ==> samples@.len() % 2 == 0 && samples@.len() <= u32::MAX
            && flac::samples_fit(samples@, planned.output_bits) && wav::wav_depth(
            planned.output_bits,
        ),
    ensures
        plan::cache_extension(planned.container@) is None ==> r is Err && r->Err_0@
            == "unsupported UPnP DSP PCM container "@ + planned.container@,
        planned.container@ == "flac"@ ==> {
            &&& flac::flac_refusal(planned.output_rate, planned.output_bits) is Some ==> r is Err
            &&& r is Err ==> flac::flac_failed(
                r->Err_0@,
                planned.output_rate,
                planned.output_bits,
            )
            &&& r is Ok ==> flac::describes(
                r->Ok_0@,
                samples@,
                planned.output_rate,
                planned.output_bits,
                flac::FLAC_BLOCK_SIZE as nat,
            ) && r->Ok_0@.subrange(26, 42) == flac::flac_signal_md5(samples@, planned.output_bits)
        },
        planned.container@ != "flac"@ && plan::cache_extension(planned.container@) is Some ==> {
            &&& r is Ok <==> wav::wav_header_fits(
                planned.output_rate,
                planned.output_bits,
                samples@.len() * (planned.output_bits / 8),
            )
            &&& r is Ok ==> r->Ok_0@ == wav::wav_file(
                samples@,
                planned.output_rate as nat,
                planned.output_bits as nat,
            )
            &&& r is Err ==> r->Err_0@ == wav::wav_file_error(
                planned.output_rate,
                planned.output_bits,
            )
        },
{
    let container = planned.container.as_str();
    if *container == *"flac" {
        return flac::encode_flac_file(samples, planned.output_rate, planned.output_bits);
    }
    if *container == *"wav" || *container == *"dop_wav" {
        return wav::encode_wav_file(samples, planned.output_rate, planned.output_bits);
    }
    Err(text::joined("unsupported UPnP DSP PCM container ", container))
}

/// The samples of a marked file: the lead-in and the program, left-justified.
pub open spec fn dop_file_samples(
    program: Seq<i32>,
    mode: OutputModeForUpnp,
    frame_rate: u32,
) -> Seq<i32> {
    dop::idle_samples((layout::spec_lead_in(mode, frame_rate, 24) / 6) as nat) + program
}

/// The bytes of a file of marked one-bit audio: lead-in and program, with
/// markers that alternate from the first frame to the last.
#[verifier::spinoff_prover]
pub fn dop_wav_file_bytes(program: &[i32], mode: OutputModeForUpnp, dop_frame_rate: u32) -> (r:
    Result<Vec<u8>, String>)
    requires
        program@.len() % 2 == 0,
    ensures
        ({
            let samples = dop_file_samples(program@, mode, dop_frame_rate);
            &&& r is Ok <==> wav::wav_header_fits(dop_frame_rate, 24, samples.len() * 3int)
            &&& r is Ok ==> r->Ok_0@ == wav::wav_header(
                dop_frame_rate as nat,
                24,
                samples.len() * 3,
            ) + dop::dop_data(samples, 0)
            &&& r is Err ==> r->Err_0@ == wav::wav_file_error(dop_frame_rate, 24)
        }),
{
    let lead_in = layout::generated_dop_lead_in_data_len(mode, dop_frame_rate, 24);
    let ghost samples = dop_file_samples(program@, mode, dop_frame_rate);
    let mut all: Vec<i32> = Vec::new();
    dop::append_dop_idle_samples(&mut all, lead_in);
    let mut i: usize = 0;
    proof {
        assert(Seq::<i32>::empty() + dop::idle_samples((lead_in / 6) as nat) =~= dop::idle_samples(
            (lead_in / 6) as nat,
        ));
        assert(all@ + program@.take(0) =~= all@);
    }
    let ghost idle = all@;
    while i < program.len()
        invariant
            i <= program@.len(),
            all@ == idle + program@.take(i as int),
        decreases program@.len() - i,
    {
        all.push(program[i]);
        proof {
            assert(all@ =~= idle + program@.take(i + 1));
        }
        i = i + 1;
    }
    proof {
        assert(program@.take(i as int) =~= program@);
        assert(all@ =~= samples);
    }
    if dop_frame_rate.checked_mul(6).is_none() {
        return Err("UPnP DSP WAV byte rate overflow".to_string());
    }
    if all.len() as u64 > (0xffff_ffff - 36) / 3 {
        return Err("UPnP DSP WAV output is too large".to_string());
    }
    let data_len: u64 = all.len() as u64 * 3;
    let mut out = match wav::wav_header_bytes(dop_frame_rate, 24, data_len as u32) {
        Ok(header) => header,
        Err(error) => return Err(error),
    };
    let marked = dop::dop_samples_to_wav_bytes(all.as_slice(), data_len, 0);
    proof {
        assert(wav::fitting_samples(samples.len(), data_len as nat, 3) == samples.len());
        assert(all@.take(all@.len() as int) =~= all@);
    }
    crate::bytes::push_bytes(&mut out, marked.as_slice());
    Ok(out)
}

/// The error for a renderer that turns out to use another frame rate than
/// planned.
pub fn dop_frame_rate_mismatch(renderer_rate: u32, planned_rate: u32, generated: bool) -> (r:
    Option<String>)
    ensures
        r is None <==> renderer_rate == planned_rate,
        r is Some ==> r->0@ == (if generated {
            "Generated UPnP DoP frame rate mismatch: renderer="@ + text::decimal(
                renderer_rate as nat,
            ) + " stream="@ + text::decimal(planned_rate as nat)
        } else {
            "UPnP DoP frame rate mismatch: renderer="@ + text::decimal(renderer_rate as nat)
                + " plan="@ + text::decimal(planned_rate as nat)
        }),
{
    if renderer_rate == planned_rate {
        return None;
    }
    let mut message = if generated {
        "Generated UPnP DoP frame rate mismatch: renderer=".to_string()
    } else {
        "UPnP DoP frame rate mismatch: renderer=".to_string()
    };
    text::push_decimal(&mut message, renderer_rate as u64);
    if generated {
        message.append(" stream=");
    } else {
        message.append(" plan=");
    }
    text::push_decimal(&mut message, planned_rate as u64);
    Some(message)
}

/// How a source is opened for rendering.
pub enum SourceOpening {
    /// The file of a track in the library.
    File { track_id: i64 },
    /// A stream of the service, in the given format.
    Stream { request: QobuzPlayRequest, format_id: u32 },
}

/// How a source is opened for rendering. A stream is asked for in the format
/// that suits the renderer and the zone; a zone without settings is not hi-res.
pub fn source_request(
    source_ref: &SourceRef,
    target: &UpnpRendererTarget,
    hires_enabled: Option<bool>,
) -> (r: SourceOpening)
    ensures
        *source_ref is LocalTrack <==> r is File,
        r is File ==> source_ref.spec_local_track_id() == Some(r->track_id),
        r is Stream ==> ({
            let format_id = upnp_target::spec_qobuz_format_id(
                *target,
                hires_enabled.unwrap_or(false),
            );
            &&& r->format_id == format_id
            &&& *source_ref matches SourceRef::QobuzTrack {
                track_id,
                title,
                artist,
                album,
                album_id,
                image_url,
                duration_secs,
                radio,
                playlist_context,
                ..
            }
            &&& r->request == (QobuzPlayRequest {
                track_id,
                title,
                artist,
                album,
                album_id,
                image_url,
                duration_secs,
                format_id: Some(format_id),
                expected_current: None,
                radio_auto: radio,
                replace_current: false,
                playlist_context,
                queue: r->request.queue,
            })
            &&& r->request.queue@.len() == 0
        }),
{
    match source_ref {
        SourceRef::LocalTrack { track_id, .. } => SourceOpening::File { track_id: *track_id },
        SourceRef::QobuzTrack {
            track_id,
            title,
            artist,
            album,
            album_id,
            image_url,
            duration_secs,
            radio,
            playlist_context,
            ..
        } => {
            let format_id = upnp_target::qobuz_format_id_for_upnp_target(
                target,
                hires_enabled.unwrap_or(false),
            );
            SourceOpening::Stream {
                request: QobuzPlayRequest {
                    track_id: *track_id,
                    title: title.clone(),
                    artist: artist.clone(),
                    album: album.clone(),
                    album_id: album_id.clone(),
                    image_url: image_url.clone(),
                    duration_secs: *duration_secs,
                    format_id: Some(format_id),
                    expected_current: None,
                    radio_auto: *radio,
                    replace_current: false,
                    playlist_context: playlist_context.clone(),
                    queue: Vec::new(),
                },
                format_id,
            }
        },
    }
}

/// What is known of an opened source.
pub struct SourceRequest {
    pub source_ref: SourceRef,
    pub ext_hint: Option<String>,
    pub tags: TrackTags,
    pub cover: Option<TrackCover>,
    pub cache_key: String,
    pub source_rate: u32,
    pub source_bits: u32,
}

/// The key under which renders of a stream are cached.
pub open spec fn spec_stream_cache_key(
    track_id: u64,
    format_id: u32,
    display_name: Seq<char>,
) -> Seq<char> {
    "qobuz:"@ + text::decimal(track_id as nat) + ":"@ + text::decimal(format_id as nat) + ":"@
        + display_name
}

/// The opened file of a local track. The extension of its name stands in for
/// a missing hint.
pub fn opened_file(
    source_ref: &SourceRef,
    path: &str,
    path_extension: Option<String>,
    len: u64,
    modified: Option<u64>,
    known_source_meta: Option<(u32, u32)>,
) -> (r: Option<SourceRequest>)
    ensures
        r is Some <==> *source_ref is LocalTrack,
        r is Some ==> r->0 == (SourceRequest {
            source_ref: *source_ref,
            ext_hint: if source_ref->ext_hint is Some {
                source_ref->ext_hint
            } else {
                path_extension
            },
            tags: spec_file_tags(*source_ref),
            cover: None,
            cache_key: r->0.cache_key,
            source_rate: known_source_meta.unwrap_or((0, 0)).0,
            source_bits: known_source_meta.unwrap_or((0, 0)).1,
        }) && r->0.cache_key@ == spec_local_cache_key(path@, len, modified.unwrap_or(0)),
{
    let (source_rate, source_bits): (u32, u32) = known_source_meta.unwrap_or((0, 0));
    match source_ref {
        SourceRef::LocalTrack { ext_hint, .. } => {
            let ext_hint = match ext_hint {
                Some(hint) => Some(hint.clone()),
                None => path_extension,
            };
            match local_source_cache_key_and_tags(source_ref, path, len, modified) {
                Some((cache_key, tags)) => Some(
                    SourceRequest {
                        source_ref: source_ref.clone(),
                        ext_hint,
                        tags,
                        cover: None,
                        cache_key,
                        source_rate,
                        source_bits,
                    },
                ),
                None => None,
            }
        },
        SourceRef::QobuzTrack { .. } => None,
    }
}

/// The opened stream of a source.
pub fn opened_stream(
    source_ref: &SourceRef,
    format_id: u32,
    display_name: &str,
    ext: String,
    known_source_meta: Option<(u32, u32)>,
) -> (r: Option<SourceRequest>)
    ensures
        r is Some <==> *source_ref is QobuzTrack,
        r is Some ==> r->0 == (SourceRequest {
            source_ref: *source_ref,
            ext_hint: Some(ext),
            tags: layout::spec_tags(*source_ref),
            cover: None,
            cache_key: r->0.cache_key,
            source_rate: known_source_meta.unwrap_or((0, 0)).0,
            source_bits: known_source_meta.unwrap_or((0, 0)).1,
        }) && r->0.cache_key@ == spec_stream_cache_key(
            source_ref.spec_qobuz_track_id()->0,
            format_id,
            display_name@,
        ),
{
    let (source_rate, source_bits): (u32, u32) = known_source_meta.unwrap_or((0, 0));
    match source_ref {
        SourceRef::QobuzTrack { track_id, .. } => {
            let mut cache_key = "qobuz:".to_string();
            text::push_decimal(&mut cache_key, *track_id);
            cache_key.append(":");
            text::push_decimal(&mut cache_key, format_id as u64);
            cache_key.append(":");
            cache_key.append(display_name);
            Some(
                SourceRequest {
                    source_ref: source_ref.clone(),
                    ext_hint: Some(ext),
                    tags: layout::tags_for_source_ref(source_ref),
                    cover: None,
                    cache_key,
                    source_rate,
                    source_bits,
                },
            )
        },
        SourceRef::LocalTrack { .. } => None,
    }
}

/// A positive number of the library as a format field: its low 32 bits.
pub fn positive_i64_as_u32(value: Option<i64>) -> (r: Option<u32>)
    ensures
        r is Some <==> value is Some && value->0 > 0,
        r is Some ==> r->0 == value->0 % 0x1_0000_0000,
{
    match value {
        Some(value) => {
            if value > 0 {
                Some((value as u64 % 0x1_0000_0000) as u32)
            } else {
                None
            }
        },
        None => None,
    }
}

/// The format of a library track, where zero stands for what is not known. A
/// track that is not in the library has no format.
pub fn source_render_metadata(track: Option<(Option<i64>, Option<i64>)>) -> (r: Option<(u32, u32)>)
    ensures
        r is Some <==> track is Some,
        r is Some ==> (r->0).0 == (if (track->0).0 is Some && (track->0).0->0 > 0 {
            (track->0).0->0 % 0x1_0000_0000
        } else {
            0
        }) && (r->0).1 == (if (track->0).1 is Some && (track->0).1->0 > 0 {
            (track->0).1->0 % 0x1_0000_0000
        } else {
            0
        }),
{
    match track {
        Some((sample_rate, bit_depth)) => Some(
            (
                positive_i64_as_u32(sample_rate).unwrap_or(0),
                positive_i64_as_u32(bit_depth).unwrap_or(0),
            ),
        ),
        None => None,
    }
}

/// A rendered file shows the track's own tags with the format that was
/// rendered; the duration is that of the media where the track has none.
pub proof fn law_rendered_tags_show_the_render(
    tags: TrackTags,
    rate: u32,
    bits: u32,
    info: MediaInfo,
)
    ensures
        ({
            let shown = spec_rendered_tags(tags, rate, bits, info);
            &&& shown.title == tags.title
            &&& shown.artist == tags.artist
            &&& shown.album == tags.album
            &&& shown.album_artist == tags.album_artist
            &&& shown.sample_rate == Some(rate)
            &&& shown.bits_per_sample == Some(bits)
            &&& shown.channels == Some(info.channels)
            &&& tags.duration_secs is Some ==> shown.duration_secs == tags.duration_secs
            &&& tags.duration_secs is None ==> shown.duration_secs == info.duration_secs
        }),
{
}

/// A file is shown with the title, artist, album and duration of its source.
pub proof fn law_file_tags_are_those_of_the_source(source: SourceRef)
    ensures
        source matches SourceRef::LocalTrack { title, artist, album, duration_secs, .. } ==> {
            let tags = spec_file_tags(source);
            tags.title == title && tags.artist == artist && tags.album == album
                && tags.duration_secs == duration_secs && tags.album_artist is None
        },
        source matches SourceRef::QobuzTrack { title, artist, album, duration_secs, .. } ==> {
            let tags = spec_file_tags(source);
            tags.title == title && tags.artist == artist && tags.album == album
                && tags.duration_secs == duration_secs && tags.album_artist == artist
        },
{
}

/// What is served from the cache is the cached file, in the format of the plan,
/// for the source that was asked for.
pub proof fn law_cached_render_is_served(
    source: SourceRef,
    planned: UpnpRenderPlan,
    source_rate: u32,
    source_bits: u32,
    cached: CachedRender,
    cache_lookup_ms: u64,
    d: UpnpDspDecision,
)
    requires
        call_ensures(
            completed_local_render_cache_decision,
            (&source, &planned, source_rate, source_bits, cached, cache_lookup_ms),
            d,
        ),
    ensures
        d.source_rate == source_rate,
        d.source_bits == source_bits,
        d.output_rate == planned.output_rate,
        d.output_bits == planned.output_bits,
        d.render_signature@ == planned.signature@,
        d.active_output_mode@ == planned.active_output_mode.spec_name(),
        d.cache_hit == Some(true),
        d.cache_lookup_ms == Some(cache_lookup_ms),
        d.render_ms == Some(0u64),
        match d.rendered {
            Some(
                UpnpSource::LocalFile {
                    source_ref,
                    path,
                    tags,
                    byte_len,
                    source_rate: rate,
                    source_bits: bits,
                    ..
                },
            ) => {
                &&& source_ref == source
                &&& path@ == cached.path@
                &&& byte_len == cached.byte_len
                &&& rate == planned.output_rate
                &&& bits == planned.output_bits
                &&& tags.title == layout::spec_tags(source).title
                &&& tags.duration_secs == layout::spec_tags(source).duration_secs
                &&& tags.sample_rate == Some(planned.output_rate)
                &&& tags.bits_per_sample == Some(planned.output_bits)
            },
            _ => false,
        },
{
}

/// A file that was rendered is served in the format that it has, and reported
/// with how long the render and its waits took.
pub proof fn law_rendered_file_is_served(
    asset: RenderedUpnpAsset,
    planned: UpnpRenderPlan,
    render_ms: u64,
    cache_lookup_ms: u64,
    d: UpnpDspDecision,
)
    requires
        call_ensures(after_render, (asset, &planned, render_ms, cache_lookup_ms), d),
    ensures
        d.source_rate == asset.source_rate,
        d.source_bits == asset.source_bits,
        d.output_rate == asset.output_rate,
        d.output_bits == asset.output_bits,
        d.render_signature@ == planned.signature@,
        d.active_output_mode@ == planned.active_output_mode.spec_name(),
        d.render_ms == Some(render_ms),
        d.cache_lookup_ms == Some(cache_lookup_ms),
        d.cache_wait_ms == Some(asset.cache_wait_ms),
        d.cache_hit == Some(asset.cache_hit),
        match d.rendered {
            Some(
                UpnpSource::LocalFile {
                    source_ref,
                    path,
                    tags,
                    cover,
                    byte_len,
                    source_rate,
                    source_bits,
                },
            ) => {
                &&& source_ref == asset.source_ref
                &&& path == asset.path
                &&& tags == asset.tags
                &&& cover == asset.cover
                &&& byte_len == asset.byte_len
                &&& source_rate == asset.output_rate
                &&& source_bits == asset.output_bits
            },
            _ => false,
        },
{
}

/// A stream that is generated on demand announces the source's tags, the
/// planned format and the length of its header, idle frames and program.
pub proof fn law_generated_stream_is_announced(
    zone_id: &str,
    source: SourceRef,
    target: UpnpRendererTarget,
    config: PlaybackConfig,
    streamed: UpnpRenderPlan,
    source_rate: u32,
    source_bits: u32,
    streaming_setting: Option<&str>,
    program_frames: Option<u64>,
    r: Option<UpnpDspDecision>,
)
    requires
        call_ensures(
            generated_wav_decision_for_plan,
            (
                zone_id,
                &source,
                &target,
                &config,
                &streamed,
                source_rate,
                source_bits,
                streaming_setting,
                program_frames,
            ),
            r,
        ),
        r is Some,
    ensures
        r->0.source_rate == source_rate,
        r->0.source_bits == source_bits,
        r->0.output_rate == streamed.output_rate,
        r->0.output_bits == streamed.output_bits,
        r->0.render_signature@ == streamed.signature@,
        r->0.active_output_mode@ == streamed.active_output_mode.spec_name(),
        program_frames is Some,
        match r->0.rendered {
            Some(
                UpnpSource::GeneratedDspStream {
                    zone_id: zone,
                    source_ref,
                    mime_type,
                    tags,
                    source_rate: from_rate,
                    source_bits: from_bits,
                    target_rate,
                    target_bits,
                    active_output_mode,
                    byte_len,
                    dop_lead_in_data_len,
                    target: to,
                    playback_config,
                    ..
                },
            ) => {
                &&& zone@ == zone_id@
                &&& source_ref == source
                &&& mime_type@ == "audio/wav"@
                &&& tags.title == layout::spec_tags(source).title
                &&& tags.duration_secs == layout::spec_tags(source).duration_secs
                &&& from_rate == source_rate
                &&& from_bits == source_bits
                &&& target_rate == streamed.output_rate
                &&& target_bits == streamed.output_bits
                &&& active_output_mode is Some
                &&& active_output_mode->0@ == streamed.active_output_mode.spec_name()
                &&& byte_len is Some
                &&& byte_len->0 == 44 + dop_lead_in_data_len + program_frames->0 * 2 * (
                streamed.output_bits / 8)
                &&& streamed.active_output_mode is Pcm ==> dop_lead_in_data_len == 0
                &&& to.id@ == target.id@
                &&& to.max_sample_rate == target.max_sample_rate
                &&& playback_config.target_rate == config.target_rate
                &&& playback_config.eq.encoded@ == config.eq.encoded@
            },
            _ => false,
        },
{
    layout::law_layout_holds_program(
        program_frames->0,
        streamed.output_rate,
        streamed.output_bits,
        streamed.active_output_mode,
    );
}

/// One-bit files, one-bit sources and sources of unknown length are never
/// streamed while they are rendered; PCM and marked plans of a known length
/// are.
pub proof fn law_streams_need_a_known_length(
    config: UpnpDspRenderConfig,
    source: SourceRef,
    planned: UpnpRenderPlan,
    source_bits: u32,
    program_frames: Option<u64>,
)
    ensures
        ({
            let streams = spec_can_stream(config, source, planned, source_bits, program_frames);
            &&& planned.container@ == "dsf"@ || source_bits == 1 || !planned.render_needed
                || program_frames is None || layout::spec_tags(source).duration_secs is None
                ==> !streams
            &&& planned.render_needed && source_bits != 1 && planned.output_rate > 0 && (
            planned.output_bits == 16 || planned.output_bits == 24 || planned.output_bits == 32)
                && (planned.container@ == "wav"@ || planned.container@ == "dop_wav"@)
                && layout::spec_tags(source).duration_secs is Some && program_frames is Some
                && planned.active_output_mode is Pcm && program_frames->0 * 2 * (
            planned.output_bits / 8) <= 0xffff_ffff ==> streams
        }),
{
    reveal_strlit("dsf");
    reveal_strlit("wav");
    reveal_strlit("dop_wav");
    assert("wav"@[0] != "dsf"@[0] && "dop_wav"@.len() != "dsf"@.len());
    if program_frames is Some {
        layout::law_layout_exists_when_it_fits(
            program_frames->0,
            planned.output_rate,
            planned.output_bits,
            OutputModeForUpnp::Pcm,
        );
    }
}

/// Streaming is on unless the setting is a zero, with or without white space
/// around it.
pub proof fn law_streaming_is_switched_off_by_zero(before: Seq<char>, after: Seq<char>)
    requires
        forall|i: int| 0 <= i < before.len() ==> text::is_white_space(#[trigger] before[i]),
        forall|i: int| 0 <= i < after.len() ==> text::is_white_space(#[trigger] after[i]),
    ensures
        !spec_streaming_enabled(Some(before + "0"@ + after)),
        spec_streaming_enabled(Some(before + "1"@ + after)),
        spec_streaming_enabled(None),
{
    reveal_strlit("0");
    reveal_strlit("1");
    text::law_trimming_drops_surroundings(before, "0"@, after);
    text::law_trimming_drops_surroundings(before, "1"@, after);
    assert("0"@[0] != "1"@[0]);
}

/// What is rendered is what was planned: a marked stream of the planned frame
/// rate, a one-bit file, or PCM.
pub proof fn law_render_follows_its_plan(
    config: UpnpDspRenderConfig,
    source: SourceRef,
    source_rate: u32,
    source_bits: u32,
    planned: UpnpRenderPlan,
)
    requires
        call_ensures(
            plan::render_plan_for_source,
            (&config, &source, source_rate, source_bits),
            planned,
        ),
    ensures
        match spec_render_route(config, source_rate) {
            RenderRoute::DopWav { dsd_rate, dop_frame_rate, .. } => {
                &&& planned.container@ == "dop_wav"@
                &&& planned.output_rate == dop_frame_rate
                &&& planned.active_output_mode.spec_dsd_rate() == Some(dsd_rate)
            },
            RenderRoute::Dsf { dsd_rate, .. } => {
                &&& planned.container@ == "dsf"@
                &&& planned.active_output_mode.spec_dsd_rate() == Some(dsd_rate)
            },
            RenderRoute::Pcm => planned.active_output_mode is Pcm && planned.container@
                != "dop_wav"@ && planned.container@ != "dsf"@,
        },
{
    reveal_strlit("dop_wav");
    reveal_strlit("dsf");
    reveal_strlit("wav");
    reveal_strlit("flac");
    reveal_strlit("passthrough");
    assert("dop_wav"@.len() == 7 && "dsf"@.len() == 3 && "wav"@.len() == 3 && "flac"@.len() == 4);
    assert("passthrough"@.len() == 11);
    assert("wav"@[0] != "dsf"@[0]);
}

/// A changed file is rendered anew: files of different paths, lengths or times
/// of change are cached under different keys, where the rest is the same.
pub proof fn law_changed_file_is_cached_apart(
    path: Seq<char>,
    other_path: Seq<char>,
    len: u64,
    other_len: u64,
    modified: u64,
    other_modified: u64,
)
    requires
        path != other_path && len == other_len && modified == other_modified || path == other_path
            && len != other_len && modified == other_modified || path == other_path && len
            == other_len && modified != other_modified,
    ensures
        spec_local_cache_key(path, len, modified) != spec_local_cache_key(
            other_path,
            other_len,
            other_modified,
        ),
{
    let a = spec_local_cache_key(path, len, modified);
    let b = spec_local_cache_key(other_path, other_len, other_modified);
    let (la, lb) = (text::decimal(len as nat), text::decimal(other_len as nat));
    let (ma, mb) = (text::decimal(modified as nat), text::decimal(other_modified as nat));
    if a == b {
        if path != other_path {
            let after = ":"@ + la + ":"@ + ma;
            assert(a =~= "local:"@ + path + after);
            assert(b =~= "local:"@ + other_path + after);
            bytes::law_middle_cancels("local:"@, path, other_path, after);
        } else if len != other_len {
            let before = "local:"@ + path + ":"@;
            assert(a =~= before + la + (":"@ + ma));
            assert(b =~= before + lb + (":"@ + ma));
            bytes::law_middle_cancels(before, la, lb, ":"@ + ma);
            text::lemma_decimal_injective(len as nat, other_len as nat);
        } else {
            let before = "local:"@ + path + ":"@ + la + ":"@;
            let none = Seq::<char>::empty();
            assert(a =~= before + ma + none);
            assert(b =~= before + mb + none);
            bytes::law_middle_cancels(before, ma, mb, none);
            text::lemma_decimal_injective(modified as nat, other_modified as nat);
        }
    }
}

/// Different streamed tracks, and one track in different formats, are cached
/// under different keys.
pub proof fn law_streams_are_cached_apart(
    track: u64,
    other_track: u64,
    format: u32,
    other_format: u32,
    name: Seq<char>,
)
    requires
        track != other_track && format == other_format || track == other_track && format
            != other_format,
    ensures
        spec_stream_cache_key(track, format, name) != spec_stream_cache_key(
            other_track,
            other_format,
            name,
        ),
{
    let a = spec_stream_cache_key(track, format, name);
    let b = spec_stream_cache_key(other_track, other_format, name);
    let (ta, tb) = (text::decimal(track as nat), text::decimal(other_track as nat));
    let (fa, fb) = (text::decimal(format as nat), text::decimal(other_format as nat));
    if a == b {
        if track != other_track {
            let after = ":"@ + fa + ":"@ + name;
            assert(a =~= "qobuz:"@ + ta + after);
            assert(b =~= "qobuz:"@ + tb + after);
            bytes::law_middle_cancels("qobuz:"@, ta, tb, after);
            text::lemma_decimal_injective(track as nat, other_track as nat);
        } else {
            let before = "qobuz:"@ + ta + ":"@;
            let after = ":"@ + name;
            assert(a =~= before + fa + after);
            assert(b =~= before + fb + after);
            bytes::law_middle_cancels(before, fa, fb, after);
            text::lemma_decimal_injective(format as nat, other_format as nat);
        }
    }
}

/// A marked file holds its idle frames and then the program, whole and
/// unchanged.
pub proof fn law_marked_file_ends_in_program(
    program: Seq<i32>,
    mode: OutputModeForUpnp,
    frame_rate: u32,
)
    requires
        !(mode is Pcm),
    ensures
        ({
            let all = dop_file_samples(program, mode, frame_rate);
            let idle = all.len() - program.len();
            &&& idle >= 0
            &&& idle % 2 == 0
            &&& all.skip(idle) == program
            &&& (idle / 2) * 1_000 <= frame_rate * 150 < (idle / 2 + 1) * 1_000
        }),
{
    let all = dop_file_samples(program, mode, frame_rate);
    assert(all.skip(all.len() - program.len()) =~= program);
    layout::law_lead_in_lasts_its_time(mode, frame_rate);
}

/// A stream is opened for the track that the source names, with the source's
/// own tags.
pub proof fn law_opened_source_is_the_one_asked_for(
    source: SourceRef,
    target: UpnpRendererTarget,
    hires_enabled: Option<bool>,
    r: SourceOpening,
)
    requires
        call_ensures(source_request, (&source, &target, hires_enabled), r),
    ensures
        match (source, r) {
            (
                SourceRef::LocalTrack { track_id: asked, .. },
                SourceOpening::File { track_id },
            ) => track_id == asked,
            (
                SourceRef::QobuzTrack {
                    track_id,
                    title,
                    artist,
                    album,
                    album_id,
                    image_url,
                    duration_secs,
                    radio,
                    playlist_context,
                    ..
                },
                SourceOpening::Stream { request, format_id },
            ) => {
                &&& request.track_id == track_id
                &&& request.title == title
                &&& request.artist == artist
                &&& request.album == album
                &&& request.album_id == album_id
                &&& request.image_url == image_url
                &&& request.duration_secs == duration_secs
                &&& request.radio_auto == radio
                &&& request.playlist_context == playlist_context
                &&& request.format_id == Some(format_id)
                &&& request.queue@.len() == 0
            },
            _ => false,
        },
{
}

/// Rates and depths of the library that are positive and fit are taken as they
/// are; others count as unknown.
pub proof fn law_positive_numbers_are_kept(value: Option<i64>, r: Option<u32>)
    requires
        call_ensures(positive_i64_as_u32, (value,), r),
    ensures
        value matches Some(n) ==> (0 < n <= 0xffff_ffff ==> r is Some && r->0 == n),
        value matches Some(n) ==> (n <= 0 ==> r is None),
        value is None ==> r is None,
{
}

/// A source's rate and depth are those of its track, each in its own place.
pub proof fn law_track_formats_are_kept(
    track: Option<(Option<i64>, Option<i64>)>,
    r: Option<(u32, u32)>,
)
    requires
        call_ensures(source_render_metadata, (track,), r),
    ensures
        track matches Some((Some(rate), Some(depth))) ==> (0 < rate <= 0xffff_ffff && 0 < depth
            <= 0xffff_ffff ==> r is Some && (r->0).0 == rate && (r->0).1 == depth),
        track is None <==> r is None,
{
}

/// Files are decoded at their own rate, depth and channels; where a file does
/// not say, it counts as a compact disc's.
pub proof fn law_decoded_format_is_the_files_own(
    rate: u32,
    bits: u32,
    channels: u16,
    r: Result<DecodeHeader, String>,
)
    requires
        call_ensures(decode_pcm_header, (Some(rate), Some(bits), Some(channels)), r),
    ensures
        r is Ok <==> (channels == 1 || channels == 2) && bits != 1,
        r is Ok ==> r->Ok_0.source_rate == rate && r->Ok_0.source_bits == bits && r->Ok_0.channels
            == channels,
{
}

/// A file that is in the cache is served from it, whatever else could be done.
/// Otherwise a renderer that may get a stream gets one where that is possible,
/// and a render of the plan is made where it is not.
pub proof fn law_cache_comes_before_streams_and_renders(
    zone_id: &str,
    source: SourceRef,
    target: UpnpRendererTarget,
    config: PlaybackConfig,
    render_config: UpnpDspRenderConfig,
    planned: UpnpRenderPlan,
    source_rate: u32,
    source_bits: u32,
    policy: UpnpDspStreamingPolicy,
    cached: Option<CachedRender>,
    cache_lookup_ms: u64,
    streaming_setting: Option<&str>,
    program_frames: Option<u64>,
    r: RenderStep,
)
    requires
        call_ensures(
            after_cache_probe,
            (
                zone_id,
                &source,
                &target,
                &config,
                &render_config,
                planned,
                source_rate,
                source_bits,
                policy,
                cached,
                cache_lookup_ms,
                streaming_setting,
                program_frames,
            ),
            r,
        ),
    ensures
        cached is Some ==> match r {
            RenderStep::Decided(d) => {
                &&& d.cache_hit == Some(true)
                &&& d.output_rate == planned.output_rate
                &&& d.output_bits == planned.output_bits
                &&& d.source_rate == source_rate
                &&& d.source_bits == source_bits
                &&& d.cache_lookup_ms == Some(cache_lookup_ms)
                &&& match d.rendered {
                    Some(UpnpSource::LocalFile { path, source_ref, .. }) => path
                        == cached->0.path && source_ref == source,
                    _ => false,
                }
            },
            _ => false,
        },
        cached is None && policy is ForceCompletedRender ==> r == RenderStep::Render(planned),
        cached is None && program_frames is None ==> r == RenderStep::Render(planned),
        cached is None && streaming_setting is None && policy is Auto && spec_can_stream(
            render_config,
            source,
            planned,
            source_bits,
            program_frames,
        ) ==> match r {
            RenderStep::Decided(d) => {
                &&& d.cache_hit == Some(false)
                &&& d.output_rate == planned.output_rate
                &&& d.output_bits == planned.output_bits
                &&& d.cache_lookup_ms == Some(cache_lookup_ms)
                &&& d.rendered is Some && d.rendered->0 is GeneratedDspStream
            },
            _ => false,
        },
        r matches RenderStep::Render(p) ==> p == planned,
{
}

/// What is not processed is served as it is without looking at the source, and
/// what is is looked at first.
pub proof fn law_processing_looks_at_the_source(
    source: SourceRef,
    config: UpnpDspRenderConfig,
    r: RenderStep,
)
    requires
        call_ensures(rendered_upnp_source_if_needed, (&source, &config), r),
    ensures
        r is ProbeSource <==> config.upsampling_enabled || config.eq.enabled || !(
        config.output_mode is Pcm),
        !(r is ProbeSource) ==> r is Decided && r->Decided_0.rendered is None
            && r->Decided_0.render_ms is None && r->Decided_0.cache_hit is None,
{
}

/// A source whose format is unknown is served as it is; one whose plan needs a
/// render is looked up in the cache by that plan.
pub proof fn law_planned_renders_are_looked_up(
    source: SourceRef,
    config: UpnpDspRenderConfig,
    rate: u32,
    bits: u32,
    planned: UpnpRenderPlan,
    r: RenderStep,
)
    requires
        call_ensures(plan::render_plan_for_source, (&config, &source, rate, bits), planned),
        call_ensures(after_source_probe, (&source, &config, Some((rate, bits))), r),
    ensures
        planned.render_needed ==> match r {
            RenderStep::ProbeCache(p) => {
                &&& p.render_needed
                &&& p.output_rate == planned.output_rate
                &&& p.output_bits == planned.output_bits
                &&& p.container@ == planned.container@
                &&& p.active_output_mode == planned.active_output_mode
                &&& p.signature@ == planned.signature@
            },
            _ => false,
        },
        !planned.render_needed ==> match r {
            RenderStep::Decided(d) => {
                &&& d.rendered is None
                &&& d.source_rate == rate
                &&& d.source_bits == bits
                &&& d.output_rate == rate
                &&& d.output_bits == bits
                &&& d.render_signature@ == planned.signature@
            },
            _ => false,
        },
{
}

/// A stream in place of a planned render has the plan's rate, depth and mode,
/// as WAV.
pub proof fn law_streamed_plan_is_the_plan_as_wav(
    config: UpnpDspRenderConfig,
    source: SourceRef,
    planned: UpnpRenderPlan,
    source_rate: u32,
    source_bits: u32,
    streaming_setting: Option<&str>,
    program_frames: Option<u64>,
    r: Option<UpnpRenderPlan>,
)
    requires
        call_ensures(
            progressive_wav_plan_for_source,
            (
                &config,
                &source,
                &planned,
                source_rate,
                source_bits,
                streaming_setting,
                program_frames,
            ),
            r,
        ),
    ensures
        r is Some ==> {
            &&& r->0.render_needed
            &&& r->0.container@ == "wav"@
            &&& r->0.output_rate == planned.output_rate
            &&& r->0.output_bits == planned.output_bits
            &&& r->0.active_output_mode == planned.active_output_mode
        },
        streaming_setting is Some && streaming_setting->0@ == "0"@ ==> r is None,
        !planned.render_needed || source_bits == 1 || planned.container@ == "dsf"@ ==> r is None,
{
    reveal_strlit("0");
    text::law_trimmed("0"@);
}

/// A rendered file describes itself: where it is, what was rendered of which
/// source, and in which format.
pub proof fn law_rendered_asset_describes_the_file(
    request: SourceMetadata,
    source_info: MediaInfo,
    rendered: RenderedFile,
    output_kind: &str,
    cache_wait_ms: u64,
    r: RenderedUpnpAsset,
)
    requires
        call_ensures(
            rendered_asset,
            (request, source_info, rendered, output_kind, cache_wait_ms),
            r,
        ),
    ensures
        r.source_ref == request.source_ref,
        r.path == rendered.path,
        r.cover == request.cover,
        r.byte_len == rendered.byte_len,
        r.source_rate == source_info.sample_rate,
        r.source_bits == source_info.bits_per_sample,
        r.output_rate == rendered.sample_rate,
        r.output_bits == rendered.bits_per_sample,
        r.output_kind@ == output_kind@,
        r.cache_hit == rendered.cache_hit,
        r.cache_wait_ms == cache_wait_ms,
        r.tags.title == request.tags.title,
        r.tags.sample_rate == Some(rendered.sample_rate),
        r.tags.bits_per_sample == Some(rendered.bits_per_sample),
        r.tags.channels == Some(source_info.channels),
{
}

/// A render that another listener finished meanwhile is taken; otherwise the
/// source is decoded.
pub proof fn law_finished_render_is_taken(
    planned: UpnpRenderPlan,
    metadata: SourceMetadata,
    source_rate: u32,
    source_bits: u32,
    finished: Option<CachedRender>,
    cache_wait_ms: u64,
    r: BlockingRender,
)
    requires
        call_ensures(
            render_upnp_source_blocking,
            (&planned, metadata, source_rate, source_bits, finished, cache_wait_ms),
            r,
        ),
    ensures
        finished is None ==> r == BlockingRender::Decode(metadata),
        finished is Some ==> match r {
            BlockingRender::Finished(asset) => {
                &&& asset.path == finished->0.path
                &&& asset.byte_len == finished->0.byte_len
                &&& asset.source_ref == metadata.source_ref
                &&& asset.source_rate == source_rate
                &&& asset.source_bits == source_bits
                &&& asset.output_rate == planned.output_rate
                &&& asset.output_bits == planned.output_bits
                &&& asset.cache_hit
                &&& asset.cache_wait_ms == cache_wait_ms
            },
            _ => false,
        },
{
}

/// An opened file is rendered for its source, under a key of its path, length
/// and time of change; the source's own hint at its kind counts first.
pub proof fn law_opened_file_belongs_to_its_source(
    source: SourceRef,
    path: &str,
    path_extension: Option<String>,
    len: u64,
    modified: u64,
    rate: u32,
    bits: u32,
    r: Option<SourceRequest>,
)
    requires
        source is LocalTrack,
        call_ensures(
            opened_file,
            (&source, path, path_extension, len, Some(modified), Some((rate, bits))),
            r,
        ),
    ensures
        r is Some,
        r->0.source_ref == source,
        r->0.source_rate == rate,
        r->0.source_bits == bits,
        r->0.cache_key@ == spec_local_cache_key(path@, len, modified),
        source->LocalTrack_ext_hint is Some ==> r->0.ext_hint == source->LocalTrack_ext_hint,
        source->LocalTrack_ext_hint is None ==> r->0.ext_hint == path_extension,
        r->0.tags.title == source->LocalTrack_title,
{
}

/// An opened stream is rendered for its source, under a key of its track and
/// format.
pub proof fn law_opened_stream_belongs_to_its_source(
    source: SourceRef,
    format_id: u32,
    display_name: &str,
    ext: String,
    rate: u32,
    bits: u32,
    r: Option<SourceRequest>,
)
    requires
        source is QobuzTrack,
        call_ensures(
            opened_stream,
            (&source, format_id, display_name, ext, Some((rate, bits))),
            r,
        ),
    ensures
        r is Some,
        r->0.source_ref == source,
        r->0.ext_hint == Some(ext),
        r->0.source_rate == rate,
        r->0.source_bits == bits,
        r->0.cache_key@ == spec_stream_cache_key(
            source->QobuzTrack_track_id,
            format_id,
            display_name@,
        ),
        r->0.tags.title == source->QobuzTrack_title,
{
}

/// A marked stream is only sent at the rate that it was planned for.
pub proof fn law_marked_rates_agree(
    renderer_rate: u32,
    planned_rate: u32,
    generated: bool,
    r: Option<String>,
)
    requires
        call_ensures(dop_frame_rate_mismatch, (renderer_rate, planned_rate, generated), r),
    ensures
        r is None <==> renderer_rate == planned_rate,
{
}

} // verus!
