use fozmo::audio::{DitherMode, DitherPreference, DsdRate, FilterType, Real32, Real64};
use fozmo::playback::upnp_dsp::dop::{
    dop_samples_to_wav_bytes, DOP_WAV_FRAME_BYTES,
};
use fozmo::playback::upnp_dsp::formats::{
    parse_hz_rate_token, parse_khz_rate_token, pcm_bit_depth_from_protocol_text, pcm_rate_token,
    pcm_render_container_for_target, protocol_info_supports_pcm_container, target_supports_pcm_container,
};
use fozmo::playback::upnp_dsp::layout::{
    generated_dop_lead_in_data_len, generated_wav_metadata_for_source, generated_wav_seek_plan,
    generated_wav_seek_target, sanitize_sample, DOP_WAV_LEAD_IN_MS,
};
use fozmo::playback::upnp_dsp::plan::{
    cache_temp_file_name, dsd_rate_for_target, generated_dsp_asset_id, normalize_target_bit_depth,
    render_cache_lock, render_config_for, render_plan_for_source, render_signature_for_plan,
    rendered_cache_key, rendered_cache_path_for_plan, resolve_pcm_target_rate,
    upnp_pcm_dither_mode, OutputModeForUpnp, ResolvedNames, UpnpDspRenderConfig, UpnpRenderPlan,
    DEFAULT_RENDERED_PCM_BITS,
};
use fozmo::playback::upnp_dsp::range::{generated_range_slice, GeneratedByteRange};
use fozmo::playback::upnp_dsp::render::{
    after_cache_probe, encode_rendered_pcm, generated_wav_decision_for_plan,
    generated_wav_streaming_enabled_for_upnp, progressive_wav_plan_for_source,
    rendered_upnp_source_if_needed, RenderStep, UpnpSource,
};
use fozmo::playback::upnp_dsp::stream::{
    generated_stream_is_dop_bound, generated_upnp_dsp_wav_stream, route_generated_stream,
    StreamRoute, StreamRouteError, UpnpGeneratedDspStream, WavProducer,
};
use fozmo::playback::upnp_dsp::wav::{
    encode_wav_file, generated_wav_bytes_per_frame, pcm_samples_to_wav_bytes, wav_header_bytes,
};
use fozmo::playback::upnp_dsp::{dsf, flac};
use fozmo::playback::upnp_target::{UpnpDspStreamingPolicy, UpnpRendererTarget};
use fozmo::protocol::{
    CapabilityDetectionSource, CapabilityDetectionStatus, DsdSourceRule, EqConfig, Headroom,
    PlaybackConfig, SourceRef, UpnpPcmContainer, UpnpPcmContainerCapability,
};

fn real64(value: f64) -> Real64 {
    Real64 { bits: value.to_bits() }
}

fn real32(value: f32) -> Real32 {
    Real32 { bits: value.to_bits() }
}

fn target(sample_rate: u32, dsd: Option<u16>) -> UpnpRendererTarget {
    UpnpRendererTarget {
        id: "renderer".to_string(),
        name: "Renderer".to_string(),
        host: "127.0.0.1".to_string(),
        port: 1400,
        model: None,
        manufacturer: None,
        av_transport_control_url: "/AVTransport".to_string(),
        rendering_control_url: None,
        connection_manager_url: None,
        max_sample_rate: sample_rate,
        max_bit_depth: 24,
        max_dsd_rate: dsd,
        capability_detection_source: CapabilityDetectionSource::Probed,
        capability_detection_status: CapabilityDetectionStatus::Complete,
        capability_detection_message: None,
        protocol_info: Vec::new(),
        pcm_containers: Vec::new(),
    }
}

fn filter(name: &str) -> FilterType {
    FilterType { name: name.to_string() }
}

fn config(target: UpnpRendererTarget) -> UpnpDspRenderConfig {
    UpnpDspRenderConfig {
        filter_type: filter("Minimum16k"),
        target_rate: 0,
        target_bit_depth: DEFAULT_RENDERED_PCM_BITS,
        upsampling_enabled: true,
        output_mode: OutputModeForUpnp::Pcm,
        dsd_modulator: "EcDepth2".to_string(),
        dsd_isi_penalty: real32(0.0),
        dsd_rules: Vec::new(),
        dsd_rules_encoded: b"[]".to_vec(),
        headroom: Headroom { db: real32(0.0), unity: true },
        eq: EqConfig { enabled: false, encoded: Vec::new() },
        dither_mode: DitherPreference::Auto,
        target,
    }
}

fn wav_capability() -> UpnpPcmContainerCapability {
    UpnpPcmContainerCapability {
        container: UpnpPcmContainer::Wav,
        max_sample_rate: 192_000,
        max_bit_depth: 24,
    }
}

fn flac_capability() -> UpnpPcmContainerCapability {
    UpnpPcmContainerCapability {
        container: UpnpPcmContainer::Flac,
        max_sample_rate: 192_000,
        max_bit_depth: 24,
    }
}

fn dsd256_rule() -> DsdSourceRule {
    DsdSourceRule {
        source_rate: 44_100,
        filter_type: "Minimum16k".to_string(),
        output_mode: "Dsd256".to_string(),
        filter: Some(filter("Minimum16k")),
    }
}

fn dsd256_rule_encoded() -> Vec<u8> {
    b"[{\"source_rate\":44100,\"filter_type\":\"Minimum16k\",\"output_mode\":\"Dsd256\"}]".to_vec()
}

fn playback_config() -> PlaybackConfig {
    PlaybackConfig {
        filter_type: "Minimum16k".to_string(),
        target_rate: 192_000,
        target_bit_depth: 24,
        upsampling_enabled: true,
        exclusive: false,
        dither_mode: "Auto".to_string(),
        output_mode: "Pcm".to_string(),
        dsd_modulator: "EcDepth2".to_string(),
        dsd_isi_penalty: real32(0.0),
        dsd_rules: Vec::new(),
        dsd_rules_encoded: b"[]".to_vec(),
        headroom: Headroom { db: real32(0.0), unity: true },
        dsp_buffer_ms: 0,
        volume: real32(1.0),
        eq: EqConfig { enabled: false, encoded: Vec::new() },
        output_device: None,
    }
}

fn names() -> ResolvedNames {
    ResolvedNames {
        filter_type: filter("Minimum16k"),
        dsd_modulator: "EcDepth2".to_string(),
        dither_mode: DitherPreference::Auto,
    }
}

fn source_ref() -> SourceRef {
    SourceRef::LocalTrack {
        track_id: 1,
        file_name: None,
        title: Some("Track".to_string()),
        artist: Some("Artist".to_string()),
        album: Some("Album".to_string()),
        album_artist: None,
        album_id: None,
        art_id: None,
        duration_secs: Some(real64(180.0)),
        ext_hint: None,
        radio: false,
        radio_context: None,
        playlist_context: None,
    }
}

fn qobuz_source_ref() -> SourceRef {
    SourceRef::QobuzTrack {
        track_id: 1,
        title: Some("Qobuz Track".to_string()),
        artist: Some("Artist".to_string()),
        album: Some("Album".to_string()),
        album_id: Some("album".to_string()),
        image_url: None,
        duration_secs: Some(real64(180.0)),
        radio: false,
        radio_context: None,
        playlist_context: None,
    }
}

fn frames_at(rate: u32) -> Option<u64> {
    Some((180.0_f64 * rate as f64).round() as u64)
}

#[test]
fn upnp_dither_targets_16_bit_output_only() {
    assert_eq!(
        upnp_pcm_dither_mode(DitherPreference::Auto, 16),
        DitherMode::Shaped16
    );
    assert_eq!(
        upnp_pcm_dither_mode(DitherPreference::Tpdf, 16),
        DitherMode::Tpdf
    );
    assert_eq!(
        upnp_pcm_dither_mode(DitherPreference::Off, 16),
        DitherMode::Off
    );
    for bits in [24, 32] {
        assert_eq!(
            upnp_pcm_dither_mode(DitherPreference::Auto, bits),
            DitherMode::Off
        );
        assert_eq!(
            upnp_pcm_dither_mode(DitherPreference::Tpdf, bits),
            DitherMode::Off
        );
    }
}

fn float_to_pcm_i32(sample: f64, bits: u32) -> i32 {
    let peak = match bits {
        16 => 32_767.0,
        32 => 2_147_483_647.0,
        _ => 8_388_607.0,
    };
    (sample.clamp(-1.0, 1.0) * peak).round() as i32
}

#[test]
fn generated_wav_24_bit_quantization_is_unchanged() {
    let samples: Vec<f64> = (0..64).map(|n| (n as f64 / 64.0) - 0.5).collect();
    assert_eq!(upnp_pcm_dither_mode(DitherPreference::Auto, 24), DitherMode::Off);
    let quantized: Vec<i32> = samples.iter().map(|s| float_to_pcm_i32(*s, 24)).collect();
    let bytes = pcm_samples_to_wav_bytes(&quantized, 24, u64::from(u32::MAX))
        .expect("24-bit WAV bytes");

    for (i, sample) in samples.iter().enumerate() {
        let expected = float_to_pcm_i32(*sample, 24).to_le_bytes();
        assert_eq!(&bytes[i * 3..i * 3 + 3], &expected[..3]);
    }
}

#[test]
fn render_signature_distinguishes_dither_for_16_bit_only() {
    let source = source_ref();
    let base = config(target(48_000, None));
    let mut tpdf = config(target(48_000, None));
    tpdf.dither_mode = DitherPreference::Tpdf;

    let auto_16 = render_signature_for_plan(&source, 96_000, 24, 48_000, 16, "wav", &base);
    let tpdf_16 = render_signature_for_plan(&source, 96_000, 24, 48_000, 16, "wav", &tpdf);
    assert_ne!(auto_16, tpdf_16);

    let auto_24 = render_signature_for_plan(&source, 96_000, 24, 96_000, 24, "flac", &base);
    let tpdf_24 = render_signature_for_plan(&source, 96_000, 24, 96_000, 24, "flac", &tpdf);
    assert_eq!(auto_24, tpdf_24);
}

#[test]
fn pcm_auto_target_uses_renderer_cap() {
    let cfg = config(target(192_000, None));
    assert_eq!(resolve_pcm_target_rate(44_100, &cfg), 176_400);
    assert_eq!(resolve_pcm_target_rate(48_000, &cfg), 192_000);
}

#[test]
fn pcm_auto_target_keeps_rate_family_under_asymmetric_cap() {
    let cfg = config(target(192_000, None));
    assert_eq!(resolve_pcm_target_rate(88_200, &cfg), 176_400);
    assert_eq!(resolve_pcm_target_rate(96_000, &cfg), 192_000);
}

#[test]
fn unknown_caps_do_not_downsample_existing_hires_source() {
    let mut cfg = config(target(48_000, None));
    cfg.target.capability_detection_source = CapabilityDetectionSource::Fallback;
    cfg.target.capability_detection_status = CapabilityDetectionStatus::Unknown;
    assert_eq!(resolve_pcm_target_rate(192_000, &cfg), 192_000);
    assert_eq!(resolve_pcm_target_rate(44_100, &cfg), 44_100);
}

#[test]
fn dsd_requires_matching_renderer_capability() {
    assert_eq!(
        dsd_rate_for_target(OutputModeForUpnp::Dsd128, &target(192_000, Some(64))),
        None
    );
    assert_eq!(
        dsd_rate_for_target(OutputModeForUpnp::Dsd128, &target(192_000, Some(128))),
        Some(DsdRate::Dsd128)
    );
}

#[test]
fn dsd64_only_renderer_accepts_generated_dsd64() {
    assert_eq!(
        dsd_rate_for_target(OutputModeForUpnp::Dsd64, &target(192_000, Some(64))),
        Some(DsdRate::Dsd64)
    );
    assert_eq!(
        dsd_rate_for_target(OutputModeForUpnp::Dsd64, &target(192_000, Some(128))),
        Some(DsdRate::Dsd64)
    );
    assert_eq!(
        dsd_rate_for_target(OutputModeForUpnp::Dsd64, &target(192_000, None)),
        None
    );
}

#[test]
fn dsd64_uses_dop_wav_when_renderer_accepts_pcm_carrier() {
    let mut cfg = config(target(192_000, Some(64)));
    cfg.target.pcm_containers = vec![wav_capability()];
    cfg.output_mode = OutputModeForUpnp::Dsd64;

    let plan = render_plan_for_source(&cfg, &source_ref(), 96_000, 24);

    assert!(plan.render_needed);
    assert_eq!(plan.container, "dop_wav");
    assert_eq!(plan.output_rate, 192_000);
    assert_eq!(plan.output_bits, 24);
    assert_eq!(plan.active_output_mode, OutputModeForUpnp::Dsd64);
}

#[test]
fn dsd64_uses_dop_wav_with_calibrated_pcm_carrier_without_container_detail() {
    let mut cfg = config(target(192_000, Some(64)));
    cfg.output_mode = OutputModeForUpnp::Dsd64;

    let plan = render_plan_for_source(&cfg, &source_ref(), 96_000, 24);

    assert!(plan.render_needed);
    assert_eq!(plan.container, "dop_wav");
    assert_eq!(plan.output_rate, 192_000);
    assert_eq!(plan.output_bits, 24);
}

#[test]
fn dsd64_uses_dop_wav_even_when_pcm_upsampling_toggle_is_off() {
    let mut cfg = config(target(192_000, Some(64)));
    cfg.upsampling_enabled = false;
    cfg.output_mode = OutputModeForUpnp::Dsd64;

    let plan = render_plan_for_source(&cfg, &source_ref(), 44_100, 16);

    assert!(plan.render_needed);
    assert_eq!(plan.container, "dop_wav");
    assert_eq!(plan.output_rate, 176_400);
    assert_eq!(plan.output_bits, 24);
    assert_eq!(plan.active_output_mode, OutputModeForUpnp::Dsd64);
}

#[test]
fn dsd64_uses_dop_wav_with_open_ended_wav_protocol_info() {
    let mut cfg = config(target(192_000, Some(64)));
    cfg.target.protocol_info = vec!["http-get:*:audio/wav:*".to_string()];
    cfg.output_mode = OutputModeForUpnp::Dsd64;

    let plan = render_plan_for_source(&cfg, &source_ref(), 96_000, 24);

    assert!(plan.render_needed);
    assert_eq!(plan.container, "dop_wav");
    assert_eq!(plan.output_rate, 192_000);
    assert_eq!(plan.output_bits, 24);
}

#[test]
fn kef_dsd_preference_falls_back_to_pcm_instead_of_dop_wav() {
    let mut kef = target(192_000, None);
    kef.name = "KEF LSX".to_string();
    kef.manufacturer = Some("KEF".to_string());
    kef.model = Some("SP3994".to_string());
    kef.protocol_info = vec!["http-get:*:audio/flac:*".to_string()];
    kef.pcm_containers = vec![wav_capability()];
    let mut cfg = config(kef);
    cfg.output_mode = OutputModeForUpnp::Dsd64;

    let plan = render_plan_for_source(&cfg, &source_ref(), 44_100, 16);

    assert!(plan.render_needed);
    assert_eq!(plan.container, "wav");
    assert_eq!(plan.output_rate, 88_200);
    assert_eq!(plan.output_bits, 16);
    assert_eq!(plan.active_output_mode, OutputModeForUpnp::Pcm);
}

#[test]
fn kef_pcm_uses_seekable_16_bit_wav_even_without_upsampling() {
    let mut kef = target(192_000, None);
    kef.name = "KEF LSX".to_string();
    kef.manufacturer = Some("KEF".to_string());
    kef.protocol_info = vec!["http-get:*:audio/wav:*".to_string()];
    let mut cfg = config(kef);
    cfg.upsampling_enabled = false;
    cfg.output_mode = OutputModeForUpnp::Pcm;

    let plan = render_plan_for_source(&cfg, &source_ref(), 44_100, 24);

    assert!(plan.render_needed);
    assert_eq!(plan.container, "wav");
    assert_eq!(plan.output_rate, 44_100);
    assert_eq!(plan.output_bits, 16);
}

#[test]
fn inactive_kef_playback_uses_passthrough_without_eager_rendering() {
    let mut kef = target(192_000, None);
    kef.name = "KEF LSX".to_string();
    kef.manufacturer = Some("KEF".to_string());
    kef.protocol_info = vec!["http-get:*:audio/wav:*".to_string()];

    let mut playback = playback_config();
    playback.upsampling_enabled = false;
    playback.target_rate = 0;
    playback.target_bit_depth = 24;
    playback.output_mode = "Pcm".to_string();
    playback.headroom = Headroom { db: real32(0.0), unity: true };
    playback.eq.enabled = false;

    let render_config = render_config_for(&playback, names(), &kef);
    let decision = match rendered_upnp_source_if_needed(&source_ref(), &render_config) {
        RenderStep::Decided(decision) => decision,
        _ => panic!("inactive KEF playback should not open or decode the source"),
    };

    assert!(decision.rendered.is_none());
    assert_eq!(
        decision.render_or_stream_plan.as_deref(),
        Some("passthrough")
    );
    assert_eq!(decision.render_ms, None);
    assert_eq!(decision.cache_hit, None);
}

#[test]
fn dsd64_flac_only_renderer_uses_native_dsf_when_available() {
    let mut cfg = config(target(192_000, Some(64)));
    cfg.target.protocol_info = vec!["http-get:*:audio/flac:*".to_string()];
    cfg.output_mode = OutputModeForUpnp::Dsd64;

    let plan = render_plan_for_source(&cfg, &source_ref(), 96_000, 24);

    assert!(plan.render_needed);
    assert_eq!(plan.container, "dsf");
    assert_eq!(plan.output_rate, 3_072_000);
    assert_eq!(plan.output_bits, 1);
}

#[test]
fn dsd64_without_pcm_carrier_uses_native_dsf_when_available() {
    let mut cfg = config(target(96_000, Some(64)));
    cfg.output_mode = OutputModeForUpnp::Dsd64;

    let plan = render_plan_for_source(&cfg, &source_ref(), 96_000, 24);

    assert!(plan.render_needed);
    assert_eq!(plan.container, "dsf");
    assert_eq!(plan.output_rate, 3_072_000);
    assert_eq!(plan.output_bits, 1);
}

#[test]
fn pcm_render_container_uses_target_container_capabilities() {
    let mut flac_target = target(192_000, None);
    flac_target.pcm_containers = vec![flac_capability()];
    assert_eq!(
        pcm_render_container_for_target(192_000, 24, &flac_target),
        UpnpPcmContainer::Flac
    );

    let mut wav_target = target(192_000, None);
    wav_target.pcm_containers = vec![wav_capability()];
    assert_eq!(
        pcm_render_container_for_target(192_000, 24, &wav_target),
        UpnpPcmContainer::Wav
    );

    let unknown_target = target(192_000, None);
    assert_eq!(
        pcm_render_container_for_target(96_000, 24, &unknown_target),
        UpnpPcmContainer::Wav
    );
    assert_eq!(
        pcm_render_container_for_target(192_000, 24, &unknown_target),
        UpnpPcmContainer::Wav
    );
    assert_eq!(
        pcm_render_container_for_target(96_000, 32, &unknown_target),
        UpnpPcmContainer::Wav
    );
}

#[test]
fn generated_byte_range_rejects_invalid_windows() {
    assert_eq!(
        GeneratedByteRange::validate(5, 9, 10).unwrap(),
        GeneratedByteRange { start: 5, end: 9 }
    );
    assert!(GeneratedByteRange::validate(5, 4, 10).is_err());
    assert!(GeneratedByteRange::validate(10, 10, 10).is_err());
    assert!(GeneratedByteRange::validate(0, 0, 0).is_err());
}

#[test]
fn generated_range_slice_trims_absolute_chunks() {
    let bytes: Vec<u8> = (0..10).collect();
    let range = GeneratedByteRange { start: 3, end: 8 };

    assert_eq!(generated_range_slice(&bytes, 0, range), Some(&bytes[3..9]));
    assert_eq!(generated_range_slice(&bytes, 5, range), Some(&bytes[0..4]));
    assert_eq!(generated_range_slice(&bytes, 10, range), None);
}

fn dop_wav_markers(bytes: &[u8]) -> Vec<u8> {
    bytes
        .chunks_exact(6)
        .map(|frame| {
            assert_eq!(frame[2], frame[5], "left/right markers must match");
            frame[2]
        })
        .collect()
}

#[test]
fn dop_wav_bytes_are_restamped_for_absolute_range_phase() {
    let samples = [0_i32; 4];

    let from_start = dop_samples_to_wav_bytes(&samples, 12, 0);
    assert_eq!(dop_wav_markers(&from_start), vec![0x05, 0xFA]);

    let from_second_frame = dop_samples_to_wav_bytes(&samples, 12, DOP_WAV_FRAME_BYTES);
    assert_eq!(dop_wav_markers(&from_second_frame), vec![0xFA, 0x05]);
}

#[test]
fn generated_dop_idle_padding_uses_markered_silence_not_zero_pcm() {
    let range = GeneratedByteRange { start: 44, end: 55 };
    let mut producer = WavProducer::new(range, 12, 0);

    let bytes = producer
        .dop_idle_chunk(12)
        .expect("DoP idle padding")
        .expect("padding bytes");

    assert_eq!(producer.written, 12);
    assert_eq!(producer.emitted, 12);
    assert_ne!(&bytes[..], &[0_u8; 12]);
    assert_eq!(dop_wav_markers(&bytes), vec![0x05, 0xFA]);
}

/// Half a second before the target, in frames.
fn cursor_before(target_frame: u64, rate: u32) -> u64 {
    let seek_seconds = (target_frame as f64 / rate as f64 - 0.5).max(0.0);
    assert!((29.49..=29.51).contains(&seek_seconds));
    (seek_seconds * rate as f64).round() as u64
}

#[test]
fn generated_wav_seek_plan_maps_deep_range_to_output_time_with_preroll() {
    let bytes_per_frame = generated_wav_bytes_per_frame(24).unwrap();
    let target_frame = 192_000_u64 * 30;
    let range = GeneratedByteRange {
        start: 44 + target_frame * bytes_per_frame,
        end: 44 + target_frame * bytes_per_frame + 1023,
    };

    let frame = generated_wav_seek_target(range, 192_000, 24, u32::MAX as u64, 0)
        .unwrap()
        .expect("deep range should seek");
    let cursor = cursor_before(frame, 192_000);
    let plan = generated_wav_seek_plan(frame, cursor, 24, u32::MAX as u64, 0).unwrap();

    assert_eq!(plan.target_frame, target_frame);
    assert_eq!(plan.cursor_frame, 192_000_u64 * 29 + 96_000);
    assert!(plan.cursor_data_bytes < range.start - 44);
}

#[test]
fn generated_wav_seek_plan_does_not_seek_for_header_or_start() {
    assert!(
        generated_wav_seek_target(
            GeneratedByteRange { start: 0, end: 43 },
            192_000,
            24,
            4096,
            0
        )
        .unwrap()
        .is_none()
    );
    assert!(
        generated_wav_seek_target(
            GeneratedByteRange {
                start: 44,
                end: 1024
            },
            192_000,
            24,
            4096,
            0
        )
        .unwrap()
        .is_none()
    );
}

#[test]
fn generated_dop_wav_layout_includes_lead_in_without_changing_tags() {
    let source = qobuz_source_ref();
    let metadata = generated_wav_metadata_for_source(
        &source,
        frames_at(192_000),
        192_000,
        24,
        OutputModeForUpnp::Dsd64,
    )
    .expect("DoP metadata");
    let lead_in = metadata.dop_lead_in_data_len;

    assert_eq!(metadata.tags.duration_secs, Some(real64(180.0)));
    assert_eq!(
        lead_in,
        192_000 * DOP_WAV_FRAME_BYTES * DOP_WAV_LEAD_IN_MS / 1_000
    );
    assert_eq!(
        metadata.byte_len,
        Some(44 + (180.0_f64 * 192_000.0).round() as u64 * 6 + lead_in)
    );
}

#[test]
fn generated_dop_wav_seek_plan_subtracts_lead_in_for_source_time() {
    let lead_in = generated_dop_lead_in_data_len(OutputModeForUpnp::Dsd64, 192_000, 24);
    let target_frame = 192_000_u64 * 30;
    let range = GeneratedByteRange {
        start: 44 + lead_in + target_frame * DOP_WAV_FRAME_BYTES,
        end: 44 + lead_in + target_frame * DOP_WAV_FRAME_BYTES + 1023,
    };

    let frame = generated_wav_seek_target(range, 192_000, 24, u32::MAX as u64, lead_in)
        .unwrap()
        .expect("post lead-in range should seek");
    let cursor = cursor_before(frame, 192_000);
    let plan = generated_wav_seek_plan(frame, cursor, 24, u32::MAX as u64, lead_in).unwrap();

    assert_eq!(plan.target_frame, target_frame);
    assert_eq!(
        plan.cursor_data_bytes,
        lead_in + (192_000_u64 * 29 + 96_000) * 6
    );
    assert!(
        generated_wav_seek_target(
            GeneratedByteRange {
                start: 44,
                end: 44 + lead_in - 1
            },
            192_000,
            24,
            u32::MAX as u64,
            lead_in
        )
        .unwrap()
        .is_none()
    );
}

#[test]
fn bit_depth_change_is_passthrough_when_upsampling_disabled() {
    let mut cfg = config(target(192_000, None));
    cfg.upsampling_enabled = false;
    cfg.target_bit_depth = 24;

    let plan = render_plan_for_source(&cfg, &source_ref(), 44_100, 16);

    assert!(!plan.render_needed);
}

#[test]
fn bit_depth_change_forces_pcm_render_when_upsampling_enabled() {
    let mut cfg = config(target(192_000, None));
    cfg.upsampling_enabled = true;
    cfg.target_rate = 44_100;
    cfg.target_bit_depth = 24;

    let plan = render_plan_for_source(&cfg, &source_ref(), 44_100, 16);

    assert!(plan.render_needed);
}

#[test]
fn disabled_upsampling_ignores_headroom_for_passthrough_upnp() {
    let mut cfg = config(target(192_000, None));
    cfg.upsampling_enabled = false;
    cfg.target_rate = 0;
    cfg.target_bit_depth = 24;
    cfg.headroom = Headroom { db: real32(-4.0), unity: false };

    let plan = render_plan_for_source(&cfg, &source_ref(), 192_000, 24);

    assert!(!plan.render_needed);
}

#[test]
fn filter_only_equal_rate_pcm_is_passthrough() {
    let mut cfg = config(target(192_000, None));
    cfg.target_rate = 44_100;
    cfg.target_bit_depth = 16;
    cfg.upsampling_enabled = true;

    let plan = render_plan_for_source(&cfg, &source_ref(), 44_100, 16);
    cfg.filter_type = filter("Minimum16k");
    let filter_changed = render_plan_for_source(&cfg, &source_ref(), 44_100, 16);

    assert!(!plan.render_needed);
    assert!(!filter_changed.render_needed);
    assert_eq!(plan.signature, filter_changed.signature);
}

#[test]
fn dsd_rule_changes_render_signature() {
    let mut cfg = config(target(192_000, Some(256)));
    cfg.output_mode = OutputModeForUpnp::Dsd128;
    let base = render_plan_for_source(&cfg, &source_ref(), 44_100, 24).signature;
    cfg.dsd_rules = vec![dsd256_rule()];
    cfg.dsd_rules_encoded = dsd256_rule_encoded();

    let changed = render_plan_for_source(&cfg, &source_ref(), 44_100, 24).signature;

    assert_ne!(base, changed);
}

#[test]
fn dsd_rules_are_part_of_render_cache_key() {
    let mut cfg = config(target(192_000, Some(256)));
    let base_plan = render_plan_for_source(&cfg, &source_ref(), 44_100, 24);
    let base = rendered_cache_key("source", &cfg, &base_plan);
    cfg.dsd_rules = vec![dsd256_rule()];
    cfg.dsd_rules_encoded = dsd256_rule_encoded();

    let changed_plan = render_plan_for_source(&cfg, &source_ref(), 44_100, 24);
    let changed = rendered_cache_key("source", &cfg, &changed_plan);

    assert_ne!(base, changed);
}

#[test]
fn render_cache_key_changes_with_pcm_container() {
    let mut flac_cfg = config(target(192_000, None));
    flac_cfg.target.pcm_containers = vec![flac_capability()];
    flac_cfg.target_rate = 192_000;
    let flac_plan = render_plan_for_source(&flac_cfg, &source_ref(), 48_000, 24);

    let mut wav_cfg = config(target(192_000, None));
    wav_cfg.target.pcm_containers = vec![wav_capability()];
    wav_cfg.target_rate = 192_000;
    let wav_plan = render_plan_for_source(&wav_cfg, &source_ref(), 48_000, 24);

    assert_eq!(flac_plan.container, "flac");
    assert_eq!(wav_plan.container, "wav");
    assert_ne!(
        rendered_cache_key("source", &flac_cfg, &flac_plan),
        rendered_cache_key("source", &wav_cfg, &wav_plan)
    );
}

#[test]
fn render_cache_lock_reuses_matching_output_key() {
    let mut cfg = config(target(192_000, None));
    cfg.target_rate = 192_000;
    let plan = render_plan_for_source(&cfg, &source_ref(), 48_000, 24);
    let same = render_plan_for_source(&cfg, &source_ref(), 48_000, 24);
    let different = UpnpRenderPlan {
        output_rate: plan.output_rate.saturating_mul(2),
        ..plan.clone()
    };

    assert_eq!(
        render_cache_lock("source-key", &plan),
        render_cache_lock("source-key", &same)
    );
    assert_ne!(
        render_cache_lock("source-key", &plan),
        render_cache_lock("source-key", &different)
    );
}

fn planned(container: &str) -> UpnpRenderPlan {
    UpnpRenderPlan {
        render_needed: true,
        signature: "sig".to_string(),
        output_rate: 192_000,
        output_bits: 24,
        active_output_mode: OutputModeForUpnp::Pcm,
        container: container.to_string(),
    }
}

#[test]
fn rendered_pcm_cache_path_uses_selected_container_extension() {
    let flac = rendered_cache_path_for_plan("cache-key", &planned("flac")).expect("FLAC cache path");
    let wav = rendered_cache_path_for_plan("cache-key", &planned("wav")).expect("WAV cache path");

    assert!(flac.ends_with("cache-key-192000-24.flac"));
    assert!(wav.ends_with("cache-key-192000-24.wav"));
}

#[test]
fn render_needed_wav_plan_uses_progressive_generated_stream() {
    let mut cfg = config(target(192_000, None));
    cfg.target.pcm_containers = vec![wav_capability()];
    cfg.target_rate = 192_000;
    cfg.target_bit_depth = 24;
    let source = source_ref();
    let plan = render_plan_for_source(&cfg, &source, 96_000, 24);

    assert!(plan.render_needed);
    assert_eq!(plan.container, UpnpPcmContainer::Wav.as_str());

    let progressive_plan = progressive_wav_plan_for_source(
        &cfg,
        &source,
        &plan,
        96_000,
        24,
        None,
        frames_at(192_000),
    )
    .expect("progressive WAV plan");
    let decision = generated_wav_decision_for_plan(
        "zone",
        &source,
        &cfg.target,
        &playback_config(),
        &progressive_plan,
        96_000,
        24,
        None,
        frames_at(192_000),
    )
    .expect("generated stream decision");

    assert_eq!(
        decision.render_or_stream_plan.as_deref(),
        Some("progressive_wav_stream")
    );
    assert_eq!(decision.render_ms, Some(0));
    assert_eq!(decision.output_rate, 192_000);
    assert_eq!(decision.output_bits, 24);
    assert!(matches!(
        decision.rendered,
        Some(UpnpSource::GeneratedDspStream { .. })
    ));
}

#[test]
fn qobuz_wav_fallback_uses_progressive_generated_stream() {
    let mut cfg = config(target(192_000, None));
    cfg.target_rate = 192_000;
    cfg.target_bit_depth = 24;
    let source = qobuz_source_ref();
    let plan = render_plan_for_source(&cfg, &source, 96_000, 24);

    assert!(plan.render_needed);
    assert_eq!(plan.container, UpnpPcmContainer::Wav.as_str());

    let progressive_plan = progressive_wav_plan_for_source(
        &cfg,
        &source,
        &plan,
        96_000,
        24,
        None,
        frames_at(192_000),
    )
    .expect("progressive WAV plan");
    assert_eq!(progressive_plan.container, UpnpPcmContainer::Wav.as_str());

    let decision = generated_wav_decision_for_plan(
        "zone",
        &source,
        &cfg.target,
        &playback_config(),
        &progressive_plan,
        96_000,
        24,
        None,
        frames_at(192_000),
    )
    .expect("generated stream decision");

    assert_eq!(
        decision.render_or_stream_plan.as_deref(),
        Some("progressive_wav_stream")
    );
    assert!(matches!(
        decision.rendered,
        Some(UpnpSource::GeneratedDspStream { .. })
    ));
}

#[test]
fn qobuz_dop_wav_uses_progressive_generated_stream() {
    let mut cfg = config(target(192_000, Some(64)));
    cfg.output_mode = OutputModeForUpnp::Dsd64;
    let source = qobuz_source_ref();
    let plan = render_plan_for_source(&cfg, &source, 96_000, 24);

    assert!(plan.render_needed);
    assert_eq!(plan.container, "dop_wav");

    let progressive_plan = progressive_wav_plan_for_source(
        &cfg,
        &source,
        &plan,
        96_000,
        24,
        None,
        frames_at(192_000),
    )
    .expect("progressive DoP WAV plan");
    assert_eq!(progressive_plan.container, UpnpPcmContainer::Wav.as_str());
    assert_eq!(progressive_plan.output_rate, 192_000);
    assert_eq!(progressive_plan.output_bits, 24);
    assert_eq!(
        progressive_plan.active_output_mode,
        OutputModeForUpnp::Dsd64
    );

    let mut playback_config = playback_config();
    playback_config.output_mode = "Dsd64".to_string();
    let decision = generated_wav_decision_for_plan(
        "zone",
        &source,
        &cfg.target,
        &playback_config,
        &progressive_plan,
        96_000,
        24,
        None,
        frames_at(192_000),
    )
    .expect("generated stream decision");

    assert_eq!(
        decision.render_or_stream_plan.as_deref(),
        Some("progressive_wav_stream")
    );
    assert_eq!(decision.render_ms, Some(0));
    assert_eq!(decision.active_output_mode, "Dsd64");
    assert_eq!(decision.output_rate, 192_000);
    assert_eq!(decision.output_bits, 24);
    assert!(matches!(
        decision.rendered,
        Some(UpnpSource::GeneratedDspStream { .. })
    ));
}

#[test]
fn progressive_generated_stream_requires_known_duration() {
    let mut cfg = config(target(192_000, None));
    cfg.target.pcm_containers = vec![wav_capability()];
    cfg.target_rate = 192_000;
    cfg.target_bit_depth = 24;
    let mut source = source_ref();
    if let SourceRef::LocalTrack { duration_secs, .. } = &mut source {
        *duration_secs = None;
    }
    let plan = render_plan_for_source(&cfg, &source, 96_000, 24);

    assert!(plan.render_needed);
    assert!(
        progressive_wav_plan_for_source(&cfg, &source, &plan, 96_000, 24, None, None).is_none()
    );
}

#[test]
fn byte_range_errors_and_lengths() {
    assert_eq!(GeneratedByteRange { start: 3, end: 8 }.len(), 6);
    assert_eq!(
        GeneratedByteRange::validate(0, 9, 10).unwrap(),
        GeneratedByteRange { start: 0, end: 9 }
    );
}

#[test]
fn wav_header_spells_out_its_fields() {
    let header = wav_header_bytes(44_100, 16, 8).unwrap();
    assert_eq!(header.len(), 44);
    assert_eq!(&header[0..4], b"RIFF");
    assert_eq!(&header[4..8], &44u32.to_le_bytes());
    assert_eq!(&header[8..16], b"WAVEfmt ");
    assert_eq!(&header[16..20], &16u32.to_le_bytes());
    assert_eq!(&header[20..22], &1u16.to_le_bytes());
    assert_eq!(&header[22..24], &2u16.to_le_bytes());
    assert_eq!(&header[24..28], &44_100u32.to_le_bytes());
    assert_eq!(&header[28..32], &176_400u32.to_le_bytes());
    assert_eq!(&header[32..34], &4u16.to_le_bytes());
    assert_eq!(&header[34..36], &16u16.to_le_bytes());
    assert_eq!(&header[36..40], b"data");
    assert_eq!(&header[40..44], &8u32.to_le_bytes());
    assert!(wav_header_bytes(44_100, 20, 8).is_err());
}

#[test]
fn wav_files_hold_little_endian_samples() {
    let bytes = encode_wav_file(&[1, -2, 3, -4], 48_000, 16).unwrap();
    assert_eq!(&bytes[44..], &[1, 0, 254, 255, 3, 0, 252, 255]);
    let bytes = encode_wav_file(&[1, -2], 48_000, 24).unwrap();
    assert_eq!(&bytes[44..], &[1, 0, 0, 254, 255, 255]);
    let bytes = encode_wav_file(&[1, -2], 48_000, 32).unwrap();
    assert_eq!(&bytes[44..], &[1, 0, 0, 0, 254, 255, 255, 255]);
    assert!(encode_wav_file(&[1, -2], 48_000, 8).is_err());
}

#[test]
fn dsf_files_have_their_three_chunks() {
    let left = vec![0x11u8; 4096];
    let right = vec![0x22u8; 100];
    let bytes = dsf::dsf_file_bytes(2_822_400, &left, &right);
    assert_eq!(&bytes[0..4], b"DSD ");
    assert_eq!(&bytes[4..12], &28u64.to_le_bytes());
    assert_eq!(&bytes[12..20], &(bytes.len() as u64).to_le_bytes());
    assert_eq!(&bytes[28..32], b"fmt ");
    assert_eq!(&bytes[56..60], &2_822_400u32.to_le_bytes());
    assert_eq!(&bytes[80..84], b"data");
    assert_eq!(bytes.len(), 28 + 52 + 12 + 2 * 4096);
    assert_eq!(bytes[92], 0x11);
    assert_eq!(bytes[92 + 4096], 0x22);
    assert_eq!(bytes[92 + 4096 + 100], dsf::DSF_PAD_BYTE);
}

#[test]
fn flac_files_describe_their_signal() {
    let samples: Vec<i32> = (0..20_000).map(|n| (n % 200) - 100).collect();
    let bytes = flac::encode_flac_file(&samples, 44_100, 16).unwrap();
    assert_eq!(&bytes[0..4], b"fLaC");
    let block = u16::from_be_bytes([bytes[10], bytes[11]]);
    assert_eq!(block, 4096);
    let rate = (u32::from(bytes[18]) << 12) | (u32::from(bytes[19]) << 4) | (u32::from(bytes[20]) >> 4);
    assert_eq!(rate, 44_100);
    assert_eq!((bytes[20] >> 1) & 0x07, 1);
    let frames = u32::from_be_bytes([bytes[22], bytes[23], bytes[24], bytes[25]]);
    assert_eq!(frames, 10_000);
    assert_ne!(&bytes[26..42], &[0u8; 16]);
    let again = flac::encode_flac_file(&samples, 44_100, 16).unwrap();
    assert_eq!(&again[26..42], &bytes[26..42]);
    let mut other_samples = samples.clone();
    other_samples[0] = 99;
    let other = flac::encode_flac_file(&other_samples, 44_100, 16).unwrap();
    assert_ne!(&other[26..42], &bytes[26..42]);
    assert!(flac::encode_flac_file(&samples, 192_000, 16).is_err());
    assert!(flac::encode_flac_file(&samples, 96_000, 24).is_ok());
    assert!(flac::encode_flac_file(&[], 44_100, 16).is_ok());
}

#[test]
fn flac_refusals_name_what_is_wrong() {
    let rate = "encode UPnP DSP FLAC: verification error: `sample_rate` is not valid. reason: must be less than or equal to 96000";
    let depth = "encode UPnP DSP FLAC: verification error: `bits_per_sample` is not valid. reason: must be less than or equal to 25";
    assert_eq!(flac::encode_flac_file(&[1, 2], 96_001, 16).unwrap_err(), rate);
    assert_eq!(flac::encode_flac_file(&[1, 2], 192_000, 32).unwrap_err(), rate);
    assert_eq!(flac::encode_flac_file(&[1, 2], 96_000, 32).unwrap_err(), depth);
}

#[test]
fn flac_failures_name_their_step() {
    assert_eq!(flac::encoded_flac_file(Ok(vec![7, 8])).unwrap(), vec![7, 8]);
    let told = |failure| flac::encoded_flac_file(Err(failure)).unwrap_err();
    assert_eq!(
        told(flac::FlacFailure::Config("no".to_string())),
        "verify UPnP DSP FLAC config: no"
    );
    assert_eq!(told(flac::FlacFailure::Encode("no".to_string())), "encode UPnP DSP FLAC: no");
    assert_eq!(
        told(flac::FlacFailure::Write("no".to_string())),
        "write UPnP DSP FLAC bitstream: no"
    );
}

#[test]
fn rendered_pcm_is_encoded_in_its_container() {
    let wav = encode_rendered_pcm(&planned("wav"), &[1, 2]).unwrap();
    assert_eq!(&wav[44..], &[1, 0, 0, 2, 0, 0]);
    let odd = encode_rendered_pcm(&planned("wav"), &[1, 2, 3]).unwrap();
    assert_eq!(&odd[44..], &[1, 0, 0, 2, 0, 0, 3, 0, 0]);
    assert_eq!(
        encode_rendered_pcm(&planned("ogg"), &[1, 2]).unwrap_err(),
        "unsupported UPnP DSP PCM container ogg"
    );
    let mut plan = planned("flac");
    plan.output_rate = 96_000;
    let file = encode_rendered_pcm(&plan, &[0; 64]).unwrap();
    assert_eq!(&file[0..4], b"fLaC");
}

#[test]
fn signatures_and_cache_keys_are_fingerprints() {
    let cfg = config(target(48_000, None));
    let signature = render_signature_for_plan(&source_ref(), 96_000, 24, 48_000, 16, "wav", &cfg);
    let other = render_signature_for_plan(&qobuz_source_ref(), 96_000, 24, 48_000, 16, "wav", &cfg);
    assert_ne!(signature, other);
    assert_eq!(
        signature,
        render_signature_for_plan(&source_ref(), 96_000, 24, 48_000, 16, "wav", &cfg)
    );
    assert!(signature.chars().all(|c| c.is_ascii_alphanumeric() || c == '-' || c == '_'));
    let id = generated_dsp_asset_id(&source_ref(), &signature);
    assert_ne!(id, generated_dsp_asset_id(&qobuz_source_ref(), &signature));
}

#[test]
fn cache_files_are_written_under_another_name_first() {
    let temp = cache_temp_file_name(Some("key-192000-24.wav"), &[1, 2, 3, 4]);
    assert_ne!(temp, "key-192000-24.wav");
    assert_ne!(temp, cache_temp_file_name(Some("key-192000-24.wav"), &[4, 3, 2, 1]));
}

#[test]
fn protocol_texts_are_read() {
    assert_eq!(parse_hz_rate_token("96000"), Some(96_000));
    assert_eq!(parse_khz_rate_token("192"), Some(192_000));
    assert_eq!(pcm_rate_token(" 44.1kHz "), Some(44_100));
    assert_eq!(pcm_rate_token("96000Hz"), Some(96_000));
    assert_eq!(pcm_rate_token("nothing"), None);
    assert_eq!(pcm_bit_depth_from_protocol_text("audio/l24;rate=96000"), 24);
    assert!(!protocol_info_supports_pcm_container(
        "http-get:*:audio/wav:*",
        UpnpPcmContainer::Wav,
        44_100,
        16
    ));
    assert!(protocol_info_supports_pcm_container(
        "http-get:*:audio/wav:96kHz;24bit",
        UpnpPcmContainer::Wav,
        96_000,
        24
    ));
    assert!(!protocol_info_supports_pcm_container(
        "http-get:*:audio/wav:96kHz;24bit",
        UpnpPcmContainer::Wav,
        192_000,
        24
    ));
    assert!(!protocol_info_supports_pcm_container(
        "http-get:*:audio/flac:*",
        UpnpPcmContainer::Wav,
        44_100,
        16
    ));
    let mut renderer = target(192_000, None);
    renderer.pcm_containers = vec![wav_capability()];
    assert!(target_supports_pcm_container(&renderer, UpnpPcmContainer::Wav, 192_000, 24));
    assert!(!target_supports_pcm_container(&renderer, UpnpPcmContainer::Flac, 44_100, 16));
}

#[test]
fn depths_and_samples_are_made_safe() {
    assert_eq!(normalize_target_bit_depth(16), 16);
    assert_eq!(normalize_target_bit_depth(32), 32);
    assert_eq!(normalize_target_bit_depth(20), 24);
    assert_eq!(sanitize_sample(real64(f64::NAN)), real64(0.0));
    assert_eq!(sanitize_sample(real64(f64::INFINITY)), real64(0.0));
    assert_eq!(sanitize_sample(real64(0.25)), real64(0.25));
}

#[test]
fn streaming_setting_is_a_switch() {
    assert!(generated_wav_streaming_enabled_for_upnp(None));
    assert!(!generated_wav_streaming_enabled_for_upnp(Some("0")));
}

fn generated_stream(mode: Option<&str>) -> UpnpGeneratedDspStream {
    UpnpGeneratedDspStream {
        zone_id: "zone".to_string(),
        source_ref: source_ref(),
        mime_type: "audio/wav".to_string(),
        byte_len: Some(44 + 6 * 192_000),
        dop_lead_in_data_len: 0,
        source_rate: 96_000,
        source_bits: 24,
        target_rate: 192_000,
        target_bits: 24,
        active_output_mode: mode.map(str::to_string),
        target: target(192_000, None),
        playback_config: playback_config(),
    }
}

#[test]
fn generated_streams_open_on_valid_ranges_only() {
    let stream = generated_stream(Some("Pcm"));
    let opened = generated_upnp_dsp_wav_stream(&stream, 0, 99).unwrap();
    assert_eq!(opened.range, GeneratedByteRange { start: 0, end: 99 });
    assert!(opened.channel_capacity > 0);
    assert!(generated_upnp_dsp_wav_stream(&stream, 100, 99).is_err());
    let mut unknown = generated_stream(Some("Pcm"));
    unknown.byte_len = None;
    assert!(generated_upnp_dsp_wav_stream(&unknown, 0, 99).is_err());
}

#[test]
fn marked_stream_never_falls_back_to_pcm() {
    let cfg = config(target(192_000, None));
    let plain = generated_stream(Some("Pcm"));
    assert!(!generated_stream_is_dop_bound(&plain));
    assert!(matches!(
        route_generated_stream(&plain, &cfg, 96_000, 24),
        Ok(StreamRoute::Pcm { data_len: 1_152_000 })
    ));
    let marked = generated_stream(Some("Dsd64"));
    assert!(generated_stream_is_dop_bound(&marked));
    assert!(matches!(
        route_generated_stream(&marked, &cfg, 96_000, 24),
        Err(StreamRouteError::DopMismatch)
    ));
    let mut missing = generated_stream(Some("Pcm"));
    missing.byte_len = None;
    assert!(matches!(
        route_generated_stream(&missing, &cfg, 96_000, 24),
        Err(StreamRouteError::MissingLength)
    ));
    let mut small = generated_stream(Some("Pcm"));
    small.byte_len = Some(43);
    assert!(matches!(
        route_generated_stream(&small, &cfg, 96_000, 24),
        Err(StreamRouteError::TooSmall)
    ));
    let mut large = generated_stream(Some("Pcm"));
    large.byte_len = Some(44 + (1u64 << 33));
    assert!(matches!(
        route_generated_stream(&large, &cfg, 96_000, 24),
        Err(StreamRouteError::TooLarge)
    ));
    assert!(matches!(
        route_generated_stream(&plain, &cfg, 2_822_400, 1),
        Err(StreamRouteError::NativeDsdSource)
    ));
}

fn produced(range: GeneratedByteRange, chunk: usize) -> Vec<u8> {
    let samples: Vec<i32> = (0..32).collect();
    let mut producer = WavProducer::new(range, 128, 0);
    let mut out = producer.emit_header(48_000, 24).unwrap();
    for part in samples.chunks(chunk) {
        out.extend(producer.pcm_chunk(part, 24).unwrap());
    }
    while let Some(padding) = producer.zero_padding_chunk() {
        out.extend(padding);
    }
    assert!(producer.range_complete());
    producer.finish(false).unwrap();
    out
}

#[test]
fn production_serves_the_range_however_it_is_cut() {
    let whole = produced(GeneratedByteRange { start: 0, end: 171 }, 32);
    assert_eq!(whole.len(), 172);
    assert_eq!(whole, produced(GeneratedByteRange { start: 0, end: 171 }, 2));
    assert_eq!(
        produced(GeneratedByteRange { start: 10, end: 60 }, 4),
        whole[10..=60].to_vec()
    );
    assert_eq!(&whole[44..50], &[0, 0, 0, 1, 0, 0]);
    assert_eq!(&whole[140..], &[0u8; 32][..]);
}

#[test]
fn cached_render_wins_and_kef_renders_completely() {
    let mut cfg = config(target(192_000, None));
    cfg.target_rate = 192_000;
    let plan = render_plan_for_source(&cfg, &source_ref(), 96_000, 24);
    let step = after_cache_probe(
        "zone",
        &source_ref(),
        &cfg.target,
        &playback_config(),
        &cfg,
        plan.clone(),
        96_000,
        24,
        UpnpDspStreamingPolicy::ForceCompletedRender,
        None,
        5,
        None,
        frames_at(192_000),
    );
    assert!(matches!(step, RenderStep::Render(_)));
    let step = after_cache_probe(
        "zone",
        &source_ref(),
        &cfg.target,
        &playback_config(),
        &cfg,
        plan,
        96_000,
        24,
        UpnpDspStreamingPolicy::Auto,
        None,
        5,
        None,
        frames_at(192_000),
    );
    assert!(matches!(step, RenderStep::Decided(_)));
}
