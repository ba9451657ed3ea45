use fozmo::audio::Real64;
use fozmo::playback::error::PlaybackError;
use fozmo::playback::request::PlaybackGuard;
use fozmo::playback::sequencer::{PlaybackCommandSequencer, PlaybackRequestSequence};
use fozmo::playback::upnp::{
    after_config_switch, after_next_handoff, apply_rendered_signal_path_to_asset,
    begin_config_reapply, discarded_play, enqueue_upnp_config_reapply_for_zone, is_same_track,
    local_upnp_source, play_upnp_source_for_zone, positive_i64_as_u32,
    prewarm_upnp_source_for_zone, seek_upnp_with_dsp_fallback, upnp_qobuz_asset_id,
    upnp_qobuz_stream_url, upnp_queued_next_matches, ReapplyStart, UpnpAsset, UpnpPlayStage,
    UpnpPlayStep, UpnpZoneSnapshot,
};
use fozmo::playback::upnp_dsp::render::{UpnpDspDecision, UpnpSource};
use fozmo::playback::upnp_target::{
    apply_saved_upnp_capabilities, merge_upnp_playback_target, qobuz_format_id_for_upnp_target,
    upnp_dsp_streaming_policy_for_target, upnp_target_for_zone, UpnpDspStreamingPolicy,
    UpnpRenderer, UpnpRendererTarget,
};
use fozmo::protocol::{
    CapabilityDetectionSource, CapabilityDetectionStatus, SinkProtocol, SourceRef,
    ZoneUpnpCapabilities,
};

fn test_source_ref() -> SourceRef {
    local_source(1)
}

fn local_source(track_id: i64) -> SourceRef {
    SourceRef::LocalTrack {
        track_id,
        file_name: None,
        title: Some("Track".to_string()),
        artist: None,
        album: None,
        album_artist: None,
        album_id: None,
        art_id: None,
        duration_secs: None,
        ext_hint: None,
        radio: false,
        radio_context: None,
        playlist_context: None,
    }
}

fn test_upnp_target(id: &str, host: &str, control_url: &str) -> UpnpRendererTarget {
    UpnpRendererTarget {
        id: id.to_string(),
        name: "Renderer".to_string(),
        host: host.to_string(),
        port: 1400,
        model: None,
        manufacturer: None,
        av_transport_control_url: control_url.to_string(),
        rendering_control_url: None,
        connection_manager_url: None,
        max_sample_rate: 48_000,
        max_bit_depth: 16,
        max_dsd_rate: None,
        capability_detection_source: CapabilityDetectionSource::Fallback,
        capability_detection_status: CapabilityDetectionStatus::Unknown,
        capability_detection_message: None,
        protocol_info: Vec::new(),
        pcm_containers: Vec::new(),
    }
}

fn renderer_1() -> UpnpRendererTarget {
    let mut target = test_upnp_target("renderer-1", "127.0.0.1", "/AVTransport");
    target.max_sample_rate = 192_000;
    target.max_bit_depth = 24;
    target.capability_detection_source = CapabilityDetectionSource::Advertised;
    target.capability_detection_status = CapabilityDetectionStatus::Complete;
    target
}

#[test]
fn qobuz_upnp_stream_url_uses_path_tokens() {
    let url = upnp_qobuz_stream_url(
        "http://192.168.1.30:3001/",
        "qobuz-423765381-6",
        "abcDEF123",
        423765381,
    );

    assert_eq!(
        url,
        "http://192.168.1.30:3001/upnp/qobuz/qobuz-423765381-6/abcDEF123/423765381"
    );
    assert!(!url.contains('?'));
    assert!(!url.contains('&'));
}

#[test]
fn stream_urls_encode_what_a_path_cannot_hold() {
    assert_eq!(
        upnp_qobuz_stream_url("http://core.test", "a b/c", "t?k&n", 7),
        "http://core.test/upnp/qobuz/a%20b%2Fc/t%3Fk%26n/7"
    );
    assert_eq!(upnp_qobuz_asset_id(423765381, 6), "qobuz-423765381-6");
}

#[test]
fn kef_uses_completed_render_instead_of_progressive_wav() {
    let mut target = test_upnp_target("kef-lsx", "192.168.1.91", "/AVTransport");
    target.name = "KEF LSX".to_string();
    target.manufacturer = Some("KEF".to_string());

    assert_eq!(
        upnp_dsp_streaming_policy_for_target(&target),
        UpnpDspStreamingPolicy::ForceCompletedRender
    );
}

#[test]
fn non_kef_retains_progressive_dsp_streaming() {
    let target = test_upnp_target("renderer", "192.168.1.50", "/AVTransport");

    assert_eq!(
        upnp_dsp_streaming_policy_for_target(&target),
        UpnpDspStreamingPolicy::Auto
    );
}

#[test]
fn saved_upnp_capabilities_override_live_renderer_caps() {
    let mut target = renderer_1();
    target.max_dsd_rate = Some(64);

    let overridden = apply_saved_upnp_capabilities(
        target,
        Some(ZoneUpnpCapabilities {
            max_sample_rate: 96_000,
            max_bit_depth: 24,
            max_dsd_rate: None,
            pcm_containers: Vec::new(),
        }),
    );

    assert_eq!(overridden.max_sample_rate, 96_000);
    assert_eq!(overridden.max_bit_depth, 24);
    assert_eq!(overridden.max_dsd_rate, None);
}

#[test]
fn rendered_upnp_asset_keeps_source_and_output_signal_path() {
    let source_ref = test_source_ref();
    let mut asset = UpnpAsset {
        id: "asset".to_string(),
        source_ref: source_ref.clone(),
        stream_url: "http://127.0.0.1/upnp/stream/asset".to_string(),
        mime_type: "audio/flac".to_string(),
        byte_len: None,
        art_url: None,
        title: Some("Track".to_string()),
        artist: None,
        album: None,
        duration_secs: None,
        source_rate: 192_000,
        target_rate: 192_000,
        source_bits: 24,
        target_bits: 24,
        active_output_mode: None,
        qobuz_resolve_ms: None,
        asset_registration_ms: None,
        render_signature: None,
        configured_render_signature: None,
        render_ms: None,
        prepare_ms: None,
        cache_hit: None,
        render_or_stream_plan: None,
        cache_lookup_ms: None,
        cache_wait_ms: None,
    };
    let decision = UpnpDspDecision {
        rendered: None,
        render_signature: "sig".to_string(),
        render_ms: Some(12),
        cache_hit: Some(false),
        render_or_stream_plan: Some("eager_render".to_string()),
        cache_lookup_ms: Some(1),
        cache_wait_ms: Some(2),
        active_output_mode: "Pcm".to_string(),
        source_rate: 44_100,
        source_bits: 16,
        output_rate: 192_000,
        output_bits: 24,
    };

    apply_rendered_signal_path_to_asset(&mut asset, &decision);

    assert_eq!(asset.source_ref.key(), source_ref.key());
    assert_eq!(asset.source_rate, 44_100);
    assert_eq!(asset.source_bits, 16);
    assert_eq!(asset.target_rate, 192_000);
    assert_eq!(asset.target_bits, 24);
}

#[test]
fn qobuz_upnp_format_respects_toggle_and_renderer_caps() {
    let mut target = renderer_1();

    assert_eq!(qobuz_format_id_for_upnp_target(&target, false), 6);
    assert_eq!(qobuz_format_id_for_upnp_target(&target, true), 27);

    target.max_sample_rate = 96_000;
    assert_eq!(qobuz_format_id_for_upnp_target(&target, true), 7);

    target.max_sample_rate = 48_000;
    assert_eq!(qobuz_format_id_for_upnp_target(&target, true), 6);

    target.max_sample_rate = 192_000;
    target.max_bit_depth = 16;
    assert_eq!(qobuz_format_id_for_upnp_target(&target, true), 6);

    target.max_sample_rate = 48_000;
    target.max_bit_depth = 16;
    target.capability_detection_source = CapabilityDetectionSource::Fallback;
    assert_eq!(qobuz_format_id_for_upnp_target(&target, true), 6);

    target.capability_detection_source = CapabilityDetectionSource::Advertised;
    assert_eq!(qobuz_format_id_for_upnp_target(&target, true), 6);

    target.capability_detection_source = CapabilityDetectionSource::Fallback;
    target.manufacturer = Some("Sonos".to_string());
    assert_eq!(qobuz_format_id_for_upnp_target(&target, true), 6);
}

#[test]
fn live_upnp_target_refresh_improves_caps_without_fallback_downgrade() {
    let stored = test_upnp_target("renderer-1", "127.0.0.1", "/old/AVTransport");
    let mut live = stored.clone();
    live.av_transport_control_url = "/new/AVTransport".to_string();
    live.max_sample_rate = 192_000;
    live.max_bit_depth = 24;
    live.capability_detection_source = CapabilityDetectionSource::Probed;

    let refreshed = merge_upnp_playback_target(stored.clone(), live, false);
    assert_eq!(refreshed.av_transport_control_url, "/old/AVTransport");
    assert_eq!(refreshed.host, "127.0.0.1");
    assert_eq!(refreshed.port, 1400);
    assert_eq!(refreshed.max_sample_rate, 192_000);
    assert_eq!(refreshed.max_bit_depth, 24);
    assert_eq!(
        refreshed.capability_detection_source,
        CapabilityDetectionSource::Probed
    );

    let mut stored_probed = refreshed.clone();
    stored_probed.av_transport_control_url = "/saved/AVTransport".to_string();
    let mut live_fallback = stored.clone();
    live_fallback.av_transport_control_url = "/fresh/AVTransport".to_string();
    let refreshed = merge_upnp_playback_target(stored_probed, live_fallback, false);
    assert_eq!(refreshed.av_transport_control_url, "/saved/AVTransport");
    assert_eq!(refreshed.max_sample_rate, 192_000);
    assert_eq!(refreshed.max_bit_depth, 24);
    assert_eq!(
        refreshed.capability_detection_source,
        CapabilityDetectionSource::Probed
    );
}

fn online(target: UpnpRendererTarget) -> Vec<UpnpRenderer> {
    vec![UpnpRenderer { target, online: true }]
}

#[test]
fn live_upnp_target_refresh_rejects_same_id_different_origin() {
    let stored = test_upnp_target(
        "victim-udn",
        "192.168.1.10",
        "http://192.168.1.10:1400/AVTransport",
    );
    let mut spoof = stored.clone();
    spoof.host = "192.168.1.66".to_string();
    spoof.av_transport_control_url = "http://192.168.1.66:1400/AVTransport".to_string();
    spoof.max_sample_rate = 192_000;
    spoof.max_bit_depth = 24;
    spoof.capability_detection_source = CapabilityDetectionSource::Probed;

    let fresh = upnp_target_for_zone(Some(stored), online(spoof), None).unwrap();

    assert_eq!(fresh.target.host, "192.168.1.10");
    assert_eq!(
        fresh.target.av_transport_control_url,
        "http://192.168.1.10:1400/AVTransport"
    );
    assert_eq!(fresh.target.max_sample_rate, 48_000);
    assert_eq!(
        fresh.notices.last().map(String::as_str),
        Some("UPnP renderer identity changed; re-pair this zone before playback")
    );
}

#[test]
fn live_upnp_target_refresh_allows_verified_same_host_port_move() {
    let mut stored = test_upnp_target(
        "hegel-udn",
        "192.168.1.50",
        "http://192.168.1.50:38400/AVTransport",
    );
    stored.name = "Hegel H390".to_string();
    stored.port = 38400;
    stored.model = Some("H390".to_string());
    stored.manufacturer = Some("Hegel".to_string());
    stored.max_sample_rate = 192_000;
    stored.max_bit_depth = 24;
    stored.capability_detection_source = CapabilityDetectionSource::Probed;
    let mut live = stored.clone();
    live.port = 38401;
    live.av_transport_control_url = "http://192.168.1.50:38401/AVTransport".to_string();
    live.rendering_control_url = Some("http://192.168.1.50:38401/RenderingControl".to_string());
    live.max_sample_rate = 48_000;
    live.max_bit_depth = 16;
    live.capability_detection_source = CapabilityDetectionSource::Fallback;

    let target = upnp_target_for_zone(Some(stored), online(live), None).unwrap().target;

    assert_eq!(target.host, "192.168.1.50");
    assert_eq!(target.port, 38401);
    assert_eq!(
        target.av_transport_control_url,
        "http://192.168.1.50:38401/AVTransport"
    );
    assert_eq!(
        target.rendering_control_url.as_deref(),
        Some("http://192.168.1.50:38401/RenderingControl")
    );
    assert_eq!(target.max_sample_rate, 192_000);
    assert_eq!(target.max_bit_depth, 24);
    assert_eq!(
        target.capability_detection_source,
        CapabilityDetectionSource::Probed
    );
}

#[test]
fn live_upnp_target_refresh_rejects_unverified_same_host_port_move() {
    let mut stored = test_upnp_target(
        "hegel-udn",
        "192.168.1.50",
        "http://192.168.1.50:38400/AVTransport",
    );
    stored.name = "Hegel H390".to_string();
    stored.port = 38400;
    let mut live = stored.clone();
    live.name = "Different Renderer".to_string();
    live.port = 38401;
    live.av_transport_control_url = "http://192.168.1.50:38401/AVTransport".to_string();
    live.max_sample_rate = 192_000;
    live.max_bit_depth = 24;
    live.capability_detection_source = CapabilityDetectionSource::Probed;

    let fresh = upnp_target_for_zone(Some(stored), online(live), None).unwrap();

    assert_eq!(fresh.target.port, 38400);
    assert_eq!(
        fresh.target.av_transport_control_url,
        "http://192.168.1.50:38400/AVTransport"
    );
    assert_eq!(
        fresh.notices.last().map(String::as_str),
        Some(
            "UPnP renderer endpoint moved from 192.168.1.50:38400 to 192.168.1.50:38401 but could not be verified"
        )
    );
}

#[test]
fn live_upnp_target_refresh_allows_same_origin_capability_merge() {
    let stored = test_upnp_target(
        "victim-udn",
        "192.168.1.10",
        "http://192.168.1.10:1400/AVTransport",
    );
    let mut live = stored.clone();
    live.av_transport_control_url = "http://192.168.1.10:1400/fresh/AVTransport".to_string();
    live.max_sample_rate = 192_000;
    live.max_bit_depth = 24;
    live.capability_detection_source = CapabilityDetectionSource::Probed;

    let target = upnp_target_for_zone(Some(stored), online(live), None).unwrap().target;

    assert_eq!(
        target.av_transport_control_url,
        "http://192.168.1.10:1400/AVTransport"
    );
    assert_eq!(target.max_sample_rate, 192_000);
    assert_eq!(target.max_bit_depth, 24);
}

#[test]
fn zone_without_renderer_has_no_target() {
    assert!(upnp_target_for_zone(None, Vec::new(), None).is_err());
}

#[test]
fn superseded_play_is_discarded_at_every_stage() {
    let mut sequencer = PlaybackCommandSequencer::new();
    let old = PlaybackRequestSequence::new("client", 1);
    assert!(sequencer.accept(Some(&PlaybackRequestSequence::new("client", 2)), 10));
    let stale = PlaybackGuard::from_expected_sequence(Some(old));
    let free = PlaybackGuard::none();
    assert_eq!(
        play_upnp_source_for_zone(UpnpPlayStage::Resolved, &free, &sequencer, true),
        UpnpPlayStep::Prepare
    );
    assert_eq!(
        play_upnp_source_for_zone(UpnpPlayStage::Prepared, &free, &sequencer, true),
        UpnpPlayStep::Send
    );
    assert_eq!(
        play_upnp_source_for_zone(UpnpPlayStage::Sent, &free, &sequencer, true),
        UpnpPlayStep::Record
    );
    assert_eq!(
        play_upnp_source_for_zone(UpnpPlayStage::Prepared, &stale, &sequencer, true),
        UpnpPlayStep::Discard
    );
    let (_, error) = discarded_play(UpnpPlayStage::Prepared, true);
    assert!(matches!(error, PlaybackError::Conflict(_)));
}

#[test]
fn next_track_is_prewarmed_while_it_is_next() {
    let sequencer = PlaybackCommandSequencer::new();
    let queue = [local_source(2), local_source(3)];
    assert!(upnp_queued_next_matches(&queue, &local_source(2)));
    assert!(!upnp_queued_next_matches(&queue, &local_source(3)));
    assert!(is_same_track(Some(&local_source(2)), &local_source(2)));
    assert!(!is_same_track(None, &local_source(2)));
    let skipped = prewarm_upnp_source_for_zone(
        &queue,
        &local_source(3),
        true,
        &PlaybackGuard::none(),
        &sequencer,
        None,
        None,
    );
    assert!(!matches!(skipped, Ok(true)));
    assert!(matches!(after_next_handoff(Ok(())), Ok(None)));
}

#[test]
fn settings_are_reapplied_to_what_plays() {
    assert!(enqueue_upnp_config_reapply_for_zone(Some(SinkProtocol::UpnpAvRenderer)));
    assert!(!enqueue_upnp_config_reapply_for_zone(Some(SinkProtocol::SonosUpnp)));
    assert!(matches!(begin_config_reapply(None), ReapplyStart::Finish(_)));
    let snapshot = UpnpZoneSnapshot {
        state: "Playing".to_string(),
        current_source: Some(local_source(1)),
        active_render_signature: None,
        configured_render_signature: None,
        last_render_ms: None,
        last_prepare_ms: None,
        last_cache_hit: None,
        position_secs: Real64 { bits: 30.0f64.to_bits() },
    };
    match begin_config_reapply(Some(&snapshot)) {
        ReapplyStart::Prepare(source) => assert_eq!(source.key(), "local:1"),
        ReapplyStart::Finish(_) => panic!("playing zone is reconfigured"),
    }
    let end = after_config_switch(Ok(()), Real64 { bits: 30.0f64.to_bits() }).unwrap();
    assert_eq!(end.seek_to, Some(Real64 { bits: 30.0f64.to_bits() }));
    assert!(after_config_switch(Err("gone".to_string()), Real64 { bits: 0 }).is_err());
}

#[test]
fn seek_falls_back_to_a_completed_render() {
    let source = seek_upnp_with_dsp_fallback(
        true,
        Some("progressive_wav_stream"),
        Some(local_source(4)),
    );
    assert_eq!(source.map(|s| s.key()), Some("local:4".to_string()));
    assert!(seek_upnp_with_dsp_fallback(false, Some("progressive_wav_stream"), Some(local_source(4))).is_none());
}

#[test]
fn formats_come_from_the_library() {
    assert_eq!(positive_i64_as_u32(Some(44_100)), Some(44_100));
    assert_eq!(positive_i64_as_u32(Some(0)), None);
    assert_eq!(positive_i64_as_u32(Some(-1)), None);
    assert_eq!(positive_i64_as_u32(Some(i64::MAX)), Some(u32::MAX));
    match local_upnp_source(&local_source(1), "/music/a.flac".to_string(), Some(9), Some(44_100), Some(16)) {
        UpnpSource::LocalFile { path, byte_len, source_rate, source_bits, .. } => {
            assert_eq!(path, "/music/a.flac");
            assert_eq!(byte_len, Some(9));
            assert_eq!(source_rate, 44_100);
            assert_eq!(source_bits, 16);
        }
        _ => panic!("a file is served as a file"),
    }
}
