use fozmo::audio::{DitherPreference, DsdRate, FilterType, Real32, Real64};
use fozmo::playback::upnp::{
    apply_pending_upnp_config_reapply, asset_render_signature, finish_upnp_asset,
    remote_upnp_source, source_render_signature, upnp_source_from_ref, ReapplyStep,
    ResolvedStream, UpnpAsset, UpnpSourceLookup, UpnpZoneSnapshot,
};
use fozmo::playback::upnp_dsp::dop::dop_samples_to_wav_bytes;
use fozmo::playback::upnp_dsp::dsf::dsf_file_bytes;
use fozmo::playback::upnp_dsp::layout::{
    generated_wav_seek_plan, interleave_planes, seek_cursor_data_bytes,
};
use fozmo::playback::upnp_dsp::plan::{
    passthrough_render_signature, render_signature_for_plan, rendered_dsf_cache_name,
    OutputModeForUpnp, UpnpDspRenderConfig, UpnpRenderPlan,
};
use fozmo::playback::upnp_dsp::range::GeneratedByteRange;
use fozmo::playback::upnp_dsp::render::{
    after_render, after_source_probe, decode_pcm_header, decode_pcm_streaming_header,
    dop_frame_rate_mismatch, dop_wav_file_bytes, opened_file, opened_stream, render_route,
    render_upnp_source_blocking, source_render_metadata, source_request, BlockingRender,
    CachedRender, RenderRoute, RenderStep, RenderedUpnpAsset, SourceMetadata, SourceOpening,
    UpnpDspDecision, UpnpSource,
};
use fozmo::playback::upnp_dsp::stream::{
    seek_cursor, seek_failure_is_fatal, stream_wav_dop_blocking, stream_wav_dsp_blocking, DopStage,
    PcmStage, SourceSeek, WavProducer,
};
use fozmo::playback::upnp_target::{merge_upnp_playback_target, UpnpRendererTarget};
use fozmo::protocol::signal::default_true;
use fozmo::protocol::{
    CapabilityDetectionSource, CapabilityDetectionStatus, EqConfig, Headroom, SourceRef,
};

fn real64(value: f64) -> Real64 {
    Real64 { bits: value.to_bits() }
}

fn target(dsd: Option<u16>) -> UpnpRendererTarget {
    UpnpRendererTarget {
        id: "renderer".to_string(),
        name: "Renderer".to_string(),
        host: "127.0.0.1".to_string(),
        port: 1400,
        model: None,
        manufacturer: None,
        av_transport_control_url: "/AVTransport".to_string(),
        rendering_control_url: None,
        connection_manager_url: None,
        max_sample_rate: 192_000,
        max_bit_depth: 24,
        max_dsd_rate: dsd,
        capability_detection_source: CapabilityDetectionSource::Probed,
        capability_detection_status: CapabilityDetectionStatus::Complete,
        capability_detection_message: None,
        protocol_info: Vec::new(),
        pcm_containers: Vec::new(),
    }
}

fn config(mode: OutputModeForUpnp, target: UpnpRendererTarget) -> UpnpDspRenderConfig {
    UpnpDspRenderConfig {
        filter_type: FilterType { name: "Minimum16k".to_string() },
        target_rate: 192_000,
        target_bit_depth: 24,
        upsampling_enabled: true,
        output_mode: mode,
        dsd_modulator: "EcDepth2".to_string(),
        dsd_isi_penalty: Real32 { bits: 0 },
        dsd_rules: Vec::new(),
        dsd_rules_encoded: b"[]".to_vec(),
        headroom: Headroom { db: Real32 { bits: 0 }, unity: true },
        eq: EqConfig { enabled: false, encoded: Vec::new() },
        dither_mode: DitherPreference::Auto,
        target,
    }
}

fn local(ext_hint: Option<&str>) -> SourceRef {
    SourceRef::LocalTrack {
        track_id: 7,
        file_name: None,
        title: Some("Title".to_string()),
        artist: Some("Artist".to_string()),
        album: None,
        album_artist: None,
        album_id: None,
        art_id: None,
        duration_secs: Some(real64(60.0)),
        ext_hint: ext_hint.map(str::to_string),
        radio: false,
        radio_context: None,
        playlist_context: None,
    }
}

fn streamed() -> SourceRef {
    SourceRef::QobuzTrack {
        track_id: 5,
        title: Some("Title".to_string()),
        artist: Some("Artist".to_string()),
        album: None,
        album_id: None,
        image_url: None,
        duration_secs: None,
        radio: true,
        radio_context: None,
        playlist_context: None,
    }
}

fn plan(container: &str) -> UpnpRenderPlan {
    UpnpRenderPlan {
        render_needed: true,
        signature: "signature".to_string(),
        output_rate: 192_000,
        output_bits: 24,
        active_output_mode: OutputModeForUpnp::Pcm,
        container: container.to_string(),
    }
}

fn decision(render_ms: Option<u64>) -> UpnpDspDecision {
    UpnpDspDecision {
        rendered: None,
        render_signature: "rendered".to_string(),
        render_ms,
        cache_hit: Some(true),
        render_or_stream_plan: Some("passthrough".to_string()),
        cache_lookup_ms: Some(1),
        cache_wait_ms: Some(2),
        active_output_mode: "Pcm".to_string(),
        source_rate: 44_100,
        source_bits: 16,
        output_rate: 192_000,
        output_bits: 24,
    }
}

fn asset() -> UpnpAsset {
    UpnpAsset {
        id: "asset".to_string(),
        source_ref: local(None),
        stream_url: "http://core.test/stream".to_string(),
        mime_type: "audio/flac".to_string(),
        byte_len: None,
        art_url: None,
        title: None,
        artist: None,
        album: None,
        duration_secs: None,
        source_rate: 96_000,
        target_rate: 96_000,
        source_bits: 24,
        target_bits: 24,
        active_output_mode: None,
        qobuz_resolve_ms: None,
        asset_registration_ms: None,
        render_signature: Some("new".to_string()),
        configured_render_signature: Some("new".to_string()),
        render_ms: Some(10),
        prepare_ms: Some(20),
        cache_hit: Some(false),
        render_or_stream_plan: None,
        cache_lookup_ms: None,
        cache_wait_ms: None,
    }
}

fn snapshot(source: Option<SourceRef>, signature: &str) -> UpnpZoneSnapshot {
    UpnpZoneSnapshot {
        state: "Playing".to_string(),
        current_source: source,
        active_render_signature: Some(signature.to_string()),
        configured_render_signature: None,
        last_render_ms: None,
        last_prepare_ms: None,
        last_cache_hit: None,
        position_secs: real64(12.0),
    }
}

#[test]
fn sources_are_opened_where_they_are() {
    assert!(matches!(
        source_request(&local(None), &target(None), None),
        SourceOpening::File { track_id: 7 }
    ));
    match source_request(&streamed(), &target(None), Some(false)) {
        SourceOpening::Stream { request, format_id } => {
            assert_eq!(format_id, 6);
            assert_eq!(request.format_id, Some(6));
            assert_eq!(request.track_id, 5);
            assert!(request.radio_auto);
            assert!(!request.replace_current);
        }
        SourceOpening::File { .. } => panic!("a stream is opened as a stream"),
    }
}

#[test]
fn opened_sources_have_a_cache_key() {
    let opened = opened_file(
        &local(None),
        "/music/a.flac",
        Some("flac".to_string()),
        10,
        Some(99),
        Some((44_100, 16)),
    )
    .unwrap();
    assert_eq!(opened.cache_key, "local:/music/a.flac:10:99");
    assert_eq!(opened.ext_hint.as_deref(), Some("flac"));
    assert_eq!((opened.source_rate, opened.source_bits), (44_100, 16));
    assert_eq!(opened.tags.title.as_deref(), Some("Title"));
    let hinted =
        opened_file(&local(Some("wav")), "/a", Some("flac".to_string()), 10, None, None).unwrap();
    assert_eq!(hinted.ext_hint.as_deref(), Some("wav"));
    assert_eq!(hinted.cache_key, "local:/a:10:0");
    assert_eq!((hinted.source_rate, hinted.source_bits), (0, 0));
    assert!(opened_file(&streamed(), "/a", None, 10, None, None).is_none());

    let opened = opened_stream(&streamed(), 27, "name", "flac".to_string(), None).unwrap();
    assert_eq!(opened.cache_key, "qobuz:5:27:name");
    assert_eq!(opened.ext_hint.as_deref(), Some("flac"));
    assert_eq!(opened.tags.album_artist.as_deref(), Some("Artist"));
    assert!(opened_stream(&local(None), 27, "name", "flac".to_string(), None).is_none());
}

#[test]
fn library_formats_may_be_unknown() {
    assert_eq!(source_render_metadata(None), None);
    assert_eq!(source_render_metadata(Some((Some(44_100), None))), Some((44_100, 0)));
    assert_eq!(source_render_metadata(Some((Some(-1), Some(24)))), Some((0, 24)));
}

#[test]
fn unknown_sources_are_served_as_they_are() {
    let config = config(OutputModeForUpnp::Pcm, target(None));
    match after_source_probe(&local(None), &config, None) {
        RenderStep::Decided(decision) => {
            assert_eq!(
                decision.render_or_stream_plan.as_deref(),
                Some("unknown_source_passthrough")
            );
            assert!(decision.rendered.is_none());
            assert_eq!(
                decision.render_signature,
                render_signature_for_plan(&local(None), 0, 0, 0, 24, "unknown", &config)
            );
        }
        _ => panic!("an unknown source is not rendered"),
    }
    assert!(matches!(
        after_source_probe(&local(None), &config, Some((96_000, 24))),
        RenderStep::ProbeCache(_)
    ));
}

#[test]
fn render_that_was_finished_meanwhile_is_taken() {
    let metadata = || SourceMetadata {
        source_ref: local(None),
        tags: fozmo::playback::upnp_dsp::layout::tags_for_source_ref(&local(None)),
        cover: None,
    };
    let finished = CachedRender { path: "/cache/a.wav".to_string(), byte_len: Some(1000) };
    match render_upnp_source_blocking(&plan("wav"), metadata(), 96_000, 24, Some(finished), 3) {
        BlockingRender::Finished(asset) => {
            assert_eq!(asset.path, "/cache/a.wav");
            assert_eq!(asset.byte_len, Some(1000));
            assert_eq!(asset.output_kind, "wav");
            assert_eq!((asset.source_rate, asset.output_rate), (96_000, 192_000));
            assert!(asset.cache_hit);
            assert_eq!(asset.cache_wait_ms, 3);
        }
        BlockingRender::Decode(_) => panic!("the file is there"),
    }
    assert!(matches!(
        render_upnp_source_blocking(&plan("wav"), metadata(), 96_000, 24, None, 3),
        BlockingRender::Decode(_)
    ));
}

#[test]
fn rendered_file_is_served_in_place_of_the_source() {
    let asset = RenderedUpnpAsset {
        source_ref: local(None),
        path: "/cache/a.flac".to_string(),
        tags: fozmo::playback::upnp_dsp::layout::tags_for_source_ref(&local(None)),
        cover: None,
        byte_len: Some(9),
        source_rate: 96_000,
        source_bits: 24,
        output_rate: 192_000,
        output_bits: 24,
        output_kind: "flac".to_string(),
        cache_hit: false,
        cache_wait_ms: 4,
    };
    let made = after_render(asset, &plan("flac"), 50, 6);
    assert_eq!(made.render_ms, Some(50));
    assert_eq!(made.cache_lookup_ms, Some(6));
    assert_eq!(made.cache_wait_ms, Some(4));
    assert_eq!(made.render_or_stream_plan.as_deref(), Some("eager_render"));
    match made.rendered {
        Some(UpnpSource::LocalFile { path, source_rate, .. }) => {
            assert_eq!(path, "/cache/a.flac");
            assert_eq!(source_rate, 192_000);
        }
        _ => panic!("the rendered file is served"),
    }
}

#[test]
fn decoded_sources_are_rendered_by_their_mode() {
    let pcm = config(OutputModeForUpnp::Pcm, target(None));
    assert!(matches!(render_route(&pcm, 44_100), RenderRoute::Pcm));
    let native = config(OutputModeForUpnp::Dsd64, target(Some(64)));
    match render_route(&native, 44_100) {
        RenderRoute::Dsf { dsd_rate, filter_type } => {
            assert_eq!(dsd_rate, DsdRate::Dsd64);
            assert_eq!(filter_type.name, "Minimum16k");
        }
        RenderRoute::DopWav { dsd_rate, dop_frame_rate, .. } => {
            assert_eq!(dsd_rate, DsdRate::Dsd64);
            assert_eq!(dop_frame_rate, 176_400);
        }
        RenderRoute::Pcm => panic!("the renderer takes one-bit audio"),
    }
}

#[test]
fn decoders_say_what_they_found() {
    let header = decode_pcm_header(None, None, None).unwrap();
    assert_eq!((header.source_rate, header.source_bits, header.channels), (44_100, 16, 2));
    assert_eq!(
        decode_pcm_header(Some(44_100), Some(16), Some(6)).unwrap_err(),
        "UPnP DSP supports mono or stereo PCM sources only"
    );
    assert_eq!(
        decode_pcm_header(Some(2_822_400), Some(1), Some(2)).unwrap_err(),
        "UPnP DSP cannot process native DSD source files yet"
    );
    assert!(decode_pcm_streaming_header(Some(2_822_400), Some(1), Some(2)).is_ok());
    assert!(decode_pcm_streaming_header(None, None, Some(0)).is_err());
}

#[test]
fn marked_files_idle_before_the_program() {
    let program = vec![0x0511_2200, 0x0533_4400];
    let file = dop_wav_file_bytes(&program, OutputModeForUpnp::Dsd64, 176_400).unwrap();
    let lead_in = 176_400 * 150 / 1000 * 6;
    assert_eq!(file.len(), 44 + lead_in + 6);
    assert_eq!(&file[44..50], &[0x69, 0x69, 0x05, 0x69, 0x69, 0x05]);
    assert_eq!(&file[50..56], &[0x69, 0x69, 0xfa, 0x69, 0x69, 0xfa]);
    let marker = if lead_in / 6 % 2 == 0 { 0x05 } else { 0xfa };
    assert_eq!(&file[44 + lead_in..], &[0x22, 0x11, marker, 0x44, 0x33, marker]);
}

#[test]
fn markers_continue_across_chunks() {
    let samples: Vec<i32> = (0..12).map(|i| i << 8).collect();
    let whole = dop_samples_to_wav_bytes(&samples, 1000, 0);
    let mut cut = dop_samples_to_wav_bytes(&samples[..4], 1000, 0);
    cut.extend(dop_samples_to_wav_bytes(&samples[4..], 1000, 12));
    assert_eq!(whole, cut);
    let markers: Vec<u8> = whole.chunks(6).map(|frame| frame[2]).collect();
    assert_eq!(markers, vec![0x05, 0xfa, 0x05, 0xfa, 0x05, 0xfa]);
}

#[test]
fn marked_chunks_are_clipped_to_the_range() {
    let range = GeneratedByteRange { start: 44, end: 67 };
    let mut producer = WavProducer::new(range, 24, 0);
    assert!(producer.emit_header(176_400, 24).unwrap().is_empty());
    let first = producer.dop_chunk(&[0x0011_2200, 0x0033_4400]);
    assert_eq!(first, vec![0x22, 0x11, 0x05, 0x44, 0x33, 0x05]);
    let idle = producer.dop_idle_chunk(24).unwrap().unwrap();
    assert_eq!(idle.len(), 18);
    assert_eq!(&idle[..6], &[0x69, 0x69, 0xfa, 0x69, 0x69, 0xfa]);
    assert!(producer.dop_idle_chunk(24).unwrap().is_none());
    assert!(producer.finish(true).is_ok());
}

#[test]
fn seeked_production_continues_where_the_source_is() {
    let range = GeneratedByteRange { start: 44 + 30, end: 44 + 59 };
    let samples: Vec<i32> = (0..20).collect();
    let mut whole = WavProducer::new(range, 60, 0);
    whole.emit_header(48_000, 24).unwrap();
    let expected = whole.pcm_chunk(&samples, 24).unwrap();
    let mut seeked = WavProducer::new(range, 60, 24);
    seeked.emit_header(48_000, 24).unwrap();
    let served = seeked.pcm_chunk(&samples[8..], 24).unwrap();
    assert_eq!(served, expected);
    assert!(seeked.finish(false).is_ok());
    let mut short = WavProducer::new(range, 60, 24);
    short.emit_header(48_000, 24).unwrap();
    assert_eq!(
        short.finish(false).unwrap_err(),
        "Generated UPnP WAV stream ended before requested range: emitted 0 of 30 bytes"
    );
}

#[test]
fn renderer_must_keep_the_planned_frame_rate() {
    assert_eq!(dop_frame_rate_mismatch(176_400, 176_400, true), None);
    assert_eq!(
        dop_frame_rate_mismatch(192_000, 176_400, true).as_deref(),
        Some("Generated UPnP DoP frame rate mismatch: renderer=192000 stream=176400")
    );
    assert_eq!(
        dop_frame_rate_mismatch(192_000, 176_400, false).as_deref(),
        Some("UPnP DoP frame rate mismatch: renderer=192000 plan=176400")
    );
}

#[test]
fn failed_seeks_near_the_start_are_forgiven() {
    assert!(!seek_failure_is_fatal(120_000, 48_000));
    assert!(seek_failure_is_fatal(120_001, 48_000));
    assert_eq!(seek_cursor_data_bytes(Some(10), 24, 1000, 12), Some(72));
    assert_eq!(seek_cursor_data_bytes(Some(1000), 24, 1000, 12), Some(1000));
    assert_eq!(seek_cursor_data_bytes(None, 24, 1000, 12), None);
    assert_eq!(seek_cursor_data_bytes(Some(u64::MAX), 24, 1000, 12), None);
}

#[test]
fn planes_are_interleaved_and_made_finite() {
    let left = [real64(0.5), real64(f64::NAN), real64(1.0)];
    let right = [real64(-0.5), real64(0.25)];
    let frames = interleave_planes(&left, &right);
    assert_eq!(frames, vec![real64(0.5), real64(-0.5), real64(0.0), real64(0.25)]);
}

#[test]
fn one_bit_files_are_named_and_sized() {
    assert_eq!(rendered_dsf_cache_name("key", DsdRate::Dsd128), "key-dsd128.dsf");
    let file = dsf_file_bytes(2_822_400, &[1, 2, 3], &[4]);
    assert_eq!(file.len(), 28 + 52 + 12 + 2 * 4096);
    assert_eq!(&file[92..96], &[1, 2, 3, 0x69]);
    assert_eq!(&file[92 + 4096..92 + 4098], &[4, 0x69]);
}

#[test]
fn assets_carry_the_decision() {
    let mut made = asset();
    finish_upnp_asset(&mut made, &decision(Some(5)), "signed".to_string(), 30);
    assert_eq!((made.source_rate, made.target_rate), (44_100, 192_000));
    assert_eq!(made.render_signature.as_deref(), Some("signed"));
    assert_eq!(made.configured_render_signature.as_deref(), Some("signed"));
    assert_eq!(made.prepare_ms, Some(30));
    assert_eq!(made.cache_hit, Some(true));
    let mut kept = asset();
    finish_upnp_asset(&mut kept, &decision(None), "signed".to_string(), 30);
    assert_eq!((kept.source_rate, kept.target_rate), (96_000, 96_000));
    assert_eq!(kept.active_output_mode.as_deref(), Some("Pcm"));
}

#[test]
fn signatures_are_those_of_the_render_or_of_the_source() {
    let config = config(OutputModeForUpnp::Pcm, target(None));
    let source = UpnpSource::LocalFile {
        source_ref: local(None),
        path: "/music/a.flac".to_string(),
        tags: fozmo::playback::upnp_dsp::layout::tags_for_source_ref(&local(None)),
        cover: None,
        byte_len: None,
        source_rate: 96_000,
        source_bits: 24,
    };
    assert_eq!(asset_render_signature(&decision(Some(5)), &source, &config), "rendered");
    assert_eq!(
        asset_render_signature(&decision(None), &source, &config),
        source_render_signature(&source, &config)
    );
    assert_eq!(
        source_render_signature(&source, &config),
        passthrough_render_signature(&local(None), 96_000, 24, &config)
    );
}

#[test]
fn renderers_fetch_files_and_streams() {
    assert!(matches!(
        upnp_source_from_ref(&local(None), &target(None), None),
        UpnpSourceLookup::File { track_id: 7 }
    ));
    assert!(matches!(
        upnp_source_from_ref(&streamed(), &target(None), None),
        UpnpSourceLookup::Stream { track_id: 5, format_id: 6 }
    ));
    let stream = ResolvedStream {
        format_id: 6,
        mime_type: "audio/flac".to_string(),
        byte_len: Some(123),
        sample_rate_hz: 44_100,
        bit_depth: 16,
    };
    let served = remote_upnp_source(&streamed(), 5, stream, "http://core.test/", "a/b", 7, 8);
    match served {
        UpnpSource::RemoteStream { stream_url, byte_len, source_rate, qobuz_resolve_ms, .. } => {
            assert!(stream_url.starts_with("http://core.test/"));
            assert!(stream_url.contains("a%2Fb"));
            assert_eq!(byte_len, Some(123));
            assert_eq!(source_rate, 44_100);
            assert_eq!(qobuz_resolve_ms, Some(7));
        }
        _ => panic!("a stream is served as a stream"),
    }
}

#[test]
fn changed_settings_switch_only_what_still_plays() {
    let playing = snapshot(Some(local(None)), "old");
    let step = |newest: bool, same_command: bool, current: Option<&UpnpZoneSnapshot>| {
        apply_pending_upnp_config_reapply(newest, same_command, current, &local(None), &asset())
    };
    assert!(matches!(step(false, true, Some(&playing)), ReapplyStep::Superseded));
    match step(true, true, Some(&playing)) {
        ReapplyStep::Switch { resume_position } => assert_eq!(resume_position, real64(12.0)),
        _ => panic!("a playing track is switched"),
    }
    let status = |step: ReapplyStep| match step {
        ReapplyStep::Finish(report) => report.status,
        _ => panic!("nothing is switched"),
    };
    assert_eq!(status(step(true, true, None)), "saved");
    assert_eq!(status(step(true, false, Some(&playing))), "stale");
    let other = snapshot(Some(streamed()), "old");
    assert_eq!(status(step(true, true, Some(&other))), "stale");
    let applied = snapshot(Some(local(None)), "new");
    assert_eq!(status(step(true, true, Some(&applied))), "applied");
}

#[test]
fn refreshing_twice_is_refreshing_once() {
    let mut live = target(Some(128));
    live.name = "Moved".to_string();
    live.host = "127.0.0.2".to_string();
    live.protocol_info = vec!["http-get:*:audio/wav:*".to_string()];
    let once = merge_upnp_playback_target(target(None), live.clone(), true);
    let twice =
        merge_upnp_playback_target(merge_upnp_playback_target(target(None), live.clone(), true), live, true);
    assert_eq!(once.host, "127.0.0.2");
    assert_eq!(twice.host, once.host);
    assert_eq!(twice.name, once.name);
    assert_eq!(twice.max_dsd_rate, once.max_dsd_rate);
    assert_eq!(twice.protocol_info, once.protocol_info);
}

#[test]
fn phase_profiles_are_kept_unless_said_otherwise() {
    assert!(default_true());
}

#[test]
fn production_goes_through_its_stages() {
    let range = GeneratedByteRange { start: 0, end: 67 };
    let mut producer = WavProducer::new(range, 24, 0);
    producer.emit_header(48_000, 24).unwrap();
    let after = |stage: PcmStage, ended: bool, resampled: bool| {
        stream_wav_dsp_blocking(&producer, stage, ended, resampled)
    };
    assert_eq!(after(PcmStage::Header, false, true), PcmStage::Program);
    assert_eq!(after(PcmStage::Program, false, true), PcmStage::Program);
    assert_eq!(after(PcmStage::Program, true, true), PcmStage::Tail);
    assert_eq!(after(PcmStage::Program, true, false), PcmStage::Padding);
    assert_eq!(after(PcmStage::Tail, false, true), PcmStage::Padding);
    assert_eq!(after(PcmStage::Padding, false, true), PcmStage::Finish);
    let after = |stage: DopStage| stream_wav_dop_blocking(&producer, stage, true);
    assert_eq!(after(DopStage::Header), DopStage::LeadIn);
    assert_eq!(after(DopStage::LeadIn), DopStage::Program);
    assert_eq!(after(DopStage::Program), DopStage::Tail);
    assert_eq!(after(DopStage::Tail), DopStage::Flush);
    assert_eq!(after(DopStage::Flush), DopStage::Padding);
    assert_eq!(after(DopStage::Padding), DopStage::Finish);
    assert_eq!(
        stream_wav_dop_blocking(&producer, DopStage::Program, false),
        DopStage::Program
    );

    let mut full = producer;
    full.pcm_chunk(&[0; 8], 24).unwrap();
    assert_eq!(
        stream_wav_dsp_blocking(&full, PcmStage::Program, false, false),
        PcmStage::Padding
    );
    let mut header_only = WavProducer::new(GeneratedByteRange { start: 0, end: 43 }, 24, 0);
    header_only.emit_header(48_000, 24).unwrap();
    assert_eq!(
        stream_wav_dsp_blocking(&header_only, PcmStage::Header, false, false),
        PcmStage::Finish
    );
    assert_eq!(
        stream_wav_dop_blocking(&header_only, DopStage::Header, false),
        DopStage::Finish
    );
}

#[test]
fn production_continues_where_the_source_was_moved_to() {
    let plan = generated_wav_seek_plan(1000, 900, 24, 100_000, 0).unwrap();
    let cursor = |outcome: SourceSeek, rate: u32| seek_cursor(plan, outcome, rate, 24, 100_000, 0);
    assert_eq!(cursor(SourceSeek::Moved { actual_frame: Some(950) }, 200), Some(5700));
    assert_eq!(cursor(SourceSeek::Moved { actual_frame: None }, 200), Some(5400));
    assert_eq!(cursor(SourceSeek::Failed, 200), None);
    assert_eq!(cursor(SourceSeek::Failed, 400), Some(0));
}
