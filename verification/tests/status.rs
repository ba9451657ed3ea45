use fozmo::audio::{Real32, Real64, TrackTags};
use fozmo::playback::status::{
    build_status_response, build_status_response_for_zone, status_player,
    status_source_for_file_name, zones_to_refresh, BuildCapabilities, DeviceVolumeStatus,
    HegelVolume, LibraryTags, OutputDiagnostics, OutputMetrics, PlayerConfig, PlayerSignal,
    PlayerSnapshot, RemoteSnapshot, SonosSnapshot, StatusInputs, StatusPlayer, StatusResponse,
    UpnpSnapshot, ZonePlaybackSettings,
};
use fozmo::protocol::{
    AgentPlaybackState, DsdBufferHealth, DsdSourceRule, DspProfile, SinkProtocol, SourceRef,
    SyncSignalPath, ZoneCapabilities, ZoneProfile, ZoneStatus,
};

fn real64(value: f64) -> Real64 {
    Real64 { bits: value.to_bits() }
}

fn real32(value: f32) -> Real32 {
    Real32 { bits: value.to_bits() }
}

fn qobuz_source(track_id: u64, radio: bool) -> SourceRef {
    SourceRef::QobuzTrack {
        track_id,
        title: Some(format!("Track {track_id}")),
        artist: Some("Artist".to_string()),
        album: Some("Album".to_string()),
        album_id: Some("album".to_string()),
        image_url: None,
        duration_secs: Some(real64(180.0)),
        radio,
        radio_context: None,
        playlist_context: None,
    }
}

fn metrics() -> OutputMetrics {
    OutputMetrics {
        resample_time_ns: 0,
        dsd_upsample_time_ns: 0,
        dsd_modulate_time_ns: 0,
        dsd_output_pending_samples: 0,
        dsd_buffer_health: None,
        dsd_overbudget_blocks: 0,
        dsd_last_load: real32(0.0),
        dsd_recent_load_p95: real32(0.0),
        dsd_recent_load_p99: real32(0.0),
        block_duration_ns: 0,
        meter_l: real32(0.0),
        meter_r: real32(0.0),
        signal_peak: real32(0.0),
        signal_peak_max: real32(0.0),
        signal_clipping: false,
        signal_clip_events: 0,
        signal_clip_samples: 0,
        dsd_limiter_peak_ratio: real32(0.0),
        dsd_limiter_peak_ratio_max: real32(0.0),
        dsd_limiter_active: false,
        dsd_limiter_events: 0,
        dsd_limiter_samples: 0,
        underrun_events: 0,
        underrun_samples: 0,
    }
}

fn diagnostics() -> OutputDiagnostics {
    OutputDiagnostics {
        output_ring_fill_now_ms: real64(0.0),
        output_ring_fill_min_ms: real64(0.0),
        startup_ring_low_watermark_ms: real64(0.0),
        startup_ready_ms: 0,
        startup_first_render_block_ms: real64(0.0),
        startup_producer_over_budget_count: 0,
        startup_callback_gaps_ms: Vec::new(),
        underrun_count: 0,
        producer_over_budget_count: 0,
        max_render_block_ms: real64(0.0),
        max_audio_callback_gap_ms: real64(0.0),
        dsp_graph_rebuild_count: 0,
        sample_rate_change_count: 0,
        dop_alignment_reset_count: 0,
        coreaudio_dop_open_count: 0,
        coreaudio_dop_start_count: 0,
        coreaudio_dop_stop_count: 0,
        coreaudio_dop_drop_count: 0,
        coreaudio_dop_quiesce_count: 0,
        coreaudio_dop_last_lifecycle_event_id: 0,
        coreaudio_dop_last_lifecycle_at_ms: 0,
        reopen_reason_count: 0,
        last_reopen_reason_id: 0,
        last_reopen_reason_at_ms: 0,
        flush_reason_count: 0,
        last_flush_reason_id: 0,
        last_flush_reason_at_ms: 0,
        modulator_reset_count: 0,
        decoder_starved_count: 0,
        source_read_time_ms: real64(0.0),
        max_source_read_ms: real64(0.0),
        source_read_stall_count: 0,
        source_read_stall_last_at_ms: 0,
        decoder_decode_time_ms: real64(0.0),
        max_decoder_decode_ms: real64(0.0),
        decoder_decode_stall_count: 0,
        decoder_decode_stall_last_at_ms: 0,
        lock_wait_max_ms: real64(0.0),
    }
}

fn player(state: &str) -> PlayerSnapshot {
    PlayerSnapshot {
        state: state.to_string(),
        signal: PlayerSignal {
            src_path_kind: None,
            src_capped_fallback: false,
            src_phase_profile_preserved: true,
            src_ratio_num: 0,
            src_ratio_den: 0,
            output_notice_id: 0,
            dsd_stability_resets: 0,
            source_rate: 44_100,
            target_rate: 44_100,
            source_bits: 16,
            target_bits: 24,
            output_mode: "Pcm".to_string(),
            active_output_mode: "Pcm".to_string(),
            output_transport: "coreaudio".to_string(),
        },
        config: PlayerConfig {
            filter_type: Some("Split16k".to_string()),
            active_filter_type: None,
            dsd_modulator: "EcDepth2".to_string(),
            dsp_buffer_ms: 0,
            dsd_isi_penalty: real32(0.0),
            headroom_db: real32(0.0),
            exclusive: false,
            configured_target_rate: 0,
            upsampling_enabled: false,
            volume: real32(1.0),
        },
        position_secs: real64(3.0),
        duration_secs: real64(180.0),
        metrics: metrics(),
        diagnostics: diagnostics(),
        output_notice: None,
        file_name: None,
        track_tags: TrackTags {
            title: None,
            artist: None,
            album: None,
            album_artist: None,
            duration_secs: None,
            sample_rate: None,
            bits_per_sample: None,
            channels: None,
        },
        cover_version: 0,
        device_name: None,
    }
}

fn settings() -> ZonePlaybackSettings {
    ZonePlaybackSettings {
        filter_type: None,
        output_mode: None,
        dsd_modulator: None,
        dsp_buffer_ms: None,
        dsd_isi_penalty: None,
        headroom_db: None,
        exclusive: None,
        target_rate: None,
        target_bit_depth: None,
        upsampling_enabled: None,
        dsd_rules_enabled: false,
        dsd_rules: Vec::new(),
    }
}

fn no_tags() -> LibraryTags {
    LibraryTags { title: None, artist: None, album: None }
}

fn inputs(state: &str, protocol: Option<SinkProtocol>) -> StatusInputs {
    StatusInputs {
        capabilities: BuildCapabilities { names: Vec::new() },
        airplay_helper_state: "idle".to_string(),
        player: player(state),
        settings: settings(),
        zone_id: "zone".to_string(),
        zone_name: "Zone".to_string(),
        zone_protocol: protocol,
        cpu_percent: real32(1.0),
        player_source: None,
        track_tags: None,
        file_tags: no_tags(),
        remote: None,
        remote_source: None,
        active_source: None,
        remote_modulator: None,
        hegel: None,
        upnp_volume: None,
        airplay_volume: None,
        local_volume: DeviceVolumeStatus { supported: false, volume: None, message: None },
        browser_stream_signal: None,
    }
}

fn local(state: &str) -> StatusInputs {
    inputs(state, Some(SinkProtocol::LocalCoreAudio))
}

fn agent(playback: Option<AgentPlaybackState>, signal: Option<SyncSignalPath>) -> StatusInputs {
    let mut agent = inputs("Playing", Some(SinkProtocol::RemoteAgent));
    agent.remote = Some(RemoteSnapshot { signal_path: signal, buffer: None, playback });
    agent
}

fn status(inputs: StatusInputs) -> StatusResponse {
    build_status_response(inputs, None, None, None)
}

#[test]
fn stopped_local_status_does_not_report_default_signal_path() {
    let status = status(local("Stopped"));

    assert_eq!(status.state, "Stopped");
    assert!(status.file_name.is_none());
    assert!(status.current_source.is_none());
    assert_eq!(status.source_rate, 0);
    assert_eq!(status.target_rate, 0);
    assert_eq!(status.source_bits, 0);
    assert_eq!(status.target_bits, 0);
    assert!(status.metrics.dsd_buffer_health.is_none());
    assert_eq!(status.position_secs, real64(3.0));
}

#[test]
fn per_zone_hegel_assignment_reports_hegel_device_volume() {
    let mut inputs = local("Stopped");
    inputs.hegel = Some(HegelVolume { max_volume: 50, volume: Some(44) });

    let status = status(inputs);

    assert!(status.device_volume_supported);
    assert_eq!(status.device_volume, Some(real32(0.44)));
    assert_eq!(status.device_volume_max, Some(real32(0.5)));
    assert_eq!(
        status.device_volume_message.as_deref(),
        Some("Hegel volume; max 50%")
    );
}

fn dop_health(low_watermark_samples: u64, low_watermark_ms: f64) -> DsdBufferHealth {
    DsdBufferHealth {
        ring_capacity_samples: 1_411_200,
        ring_fill_samples: 705_600,
        ring_low_watermark_samples: low_watermark_samples,
        ring_capacity_ms: real64(1000.0),
        ring_fill_ms: real64(500.0),
        ring_low_watermark_ms: real64(low_watermark_ms),
        callback_frames: 8192,
        callback_ms: real64(11.609977),
        hardware_buffer_min_frames: 4096,
        hardware_buffer_max_frames: 16_384,
        hardware_buffer_frames: 8192,
        hardware_buffer_ms: real64(11.609977),
        ..DsdBufferHealth::default()
    }
}

#[test]
fn coreaudio_dop_status_reports_live_buffer_health() {
    let mut inputs = local("Playing");
    inputs.player.metrics.dsd_buffer_health = Some(dop_health(352_800, 250.0));
    inputs.player.diagnostics.output_ring_fill_now_ms = real64(500.0);
    inputs.player.diagnostics.output_ring_fill_min_ms = real64(250.0);

    let status = status(inputs);
    let health = status
        .metrics
        .dsd_buffer_health
        .expect("CoreAudio DoP status should include buffer health");

    assert_eq!(health.ring_capacity_samples, 1_411_200);
    assert_eq!(health.ring_fill_samples, 705_600);
    assert_eq!(health.ring_low_watermark_samples, 352_800);
    assert_eq!(health.ring_capacity_ms, real64(1000.0));
    assert_eq!(health.ring_fill_ms, real64(500.0));
    assert_eq!(health.ring_low_watermark_ms, real64(250.0));
    assert_eq!(status.diagnostics.output_ring_fill_now_ms, real64(500.0));
    assert_eq!(status.diagnostics.output_ring_fill_min_ms, real64(250.0));
    assert_eq!(health.hardware_buffer_min_frames, 4096);
    assert_eq!(health.hardware_buffer_max_frames, 16_384);
    assert_eq!(health.hardware_buffer_frames, 8192);
    assert_eq!(status.dop.ring_capacity_ms, real64(1000.0));
    assert_eq!(status.dop.ring_fill_ms, real64(500.0));
    assert_eq!(status.dop.ring_low_watermark_ms, real64(250.0));
    assert_eq!(status.dop.callback_frames, 8192);
    assert_eq!(status.dop.callback_ms, real64(11.609977));
    assert_eq!(status.dop.hardware_buffer_min_frames, 4096);
    assert_eq!(status.dop.hardware_buffer_max_frames, 16_384);
    assert_eq!(status.dop.hardware_buffer_frames, 8192);
    assert_eq!(status.dop.hardware_buffer_ms, real64(11.609977));
}

fn remote_song() -> AgentPlaybackState {
    AgentPlaybackState {
        state: "Playing".to_string(),
        current_source: None,
        file_name: Some("remote-track".to_string()),
        track_title: Some("Remote Song".to_string()),
        track_artist: Some("Remote Artist".to_string()),
        track_album: Some("Remote Album".to_string()),
        source_rate: 44_100,
        target_rate: 44_100,
        source_bits: 16,
        target_bits: 24,
        duration_secs: real64(180.0),
        position_secs: real64(1.0),
        volume: real32(1.0),
    }
}

#[test]
fn remote_agent_status_does_not_reuse_local_cover_version() {
    let mut inputs = agent(Some(remote_song()), None);
    inputs.player.cover_version = 42;

    let status = status(inputs);

    assert_eq!(status.zone_protocol, SinkProtocol::RemoteAgent);
    assert_eq!(status.track_title.as_deref(), Some("Remote Song"));
    assert_eq!(status.cover_version, 0);
}

#[test]
fn remote_agent_status_prefers_reported_source_identity() {
    let exact = qobuz_source(202, false);
    let mut playback = remote_song();
    playback.current_source = Some(exact.clone());
    playback.file_name = Some("duplicate display title".to_string());
    let mut inputs = agent(Some(playback), None);
    inputs.remote_source = Some(qobuz_source(7, false));

    let status = status(inputs);

    assert_eq!(
        status.current_source.map(|source| source.key()),
        Some(exact.key())
    );
}

#[test]
fn remote_agent_without_playback_snapshot_does_not_reuse_local_status() {
    let mut inputs = agent(None, None);
    inputs.player.cover_version = 42;

    let status = status(inputs);

    assert_eq!(status.zone_protocol, SinkProtocol::RemoteAgent);
    assert_eq!(status.state, "Stopped");
    assert!(status.file_name.is_none());
    assert!(status.current_source.is_none());
    assert_eq!(status.cover_version, 0);
}

#[test]
fn remote_agent_status_reports_saved_dsd_modulator_without_playback() {
    let mut inputs = agent(None, None);
    inputs.player.config.dsd_modulator = "Standard".to_string();
    inputs.settings.dsd_modulator = Some("EcDepth2".to_string());

    let status = status(inputs);

    assert_eq!(status.zone_protocol, SinkProtocol::RemoteAgent);
    assert_eq!(status.dsd_modulator, "EcDepth2");
}

#[test]
fn disabled_local_dsp_status_reports_saved_requested_settings() {
    let mut inputs = local("Stopped");
    inputs.settings = ZonePlaybackSettings {
        filter_type: Some("Minimum16k".to_string()),
        target_rate: Some(384_000),
        upsampling_enabled: Some(false),
        exclusive: Some(true),
        output_mode: Some("Dsd256".to_string()),
        dsd_modulator: Some("EcDepth2".to_string()),
        dsd_isi_penalty: Some(real32(0.012)),
        dsd_rules_enabled: true,
        dsd_rules: vec![DsdSourceRule {
            source_rate: 44_100,
            filter_type: "Split16k".to_string(),
            output_mode: "Dsd256".to_string(),
            filter: None,
        }],
        headroom_db: Some(real32(-6.0)),
        dsp_buffer_ms: Some(250),
        target_bit_depth: None,
    };

    let status = status(inputs);

    assert!(!status.upsampling_enabled);
    assert_eq!(status.filter_type, "Minimum16k");
    assert_eq!(status.configured_target_rate, 384_000);
    assert_eq!(status.dither_mode, "Auto");
    assert_eq!(status.output_mode, "Dsd256");
    assert_eq!(status.active_output_mode, "Pcm");
    assert_eq!(status.dsd_modulator, "EcDepth2");
    assert_eq!(status.dsd_isi_penalty, real32(0.012));
    assert!(status.dsd_rules_enabled);
    assert_eq!(status.dsd_rules.len(), 1);
    assert_eq!(status.headroom_db, real32(-6.0));
    assert_eq!(status.dsp_buffer_ms, 250);
    assert!(status.exclusive);
}

#[test]
fn disabled_remote_dsp_status_keeps_saved_requested_settings() {
    for playback in [None, Some(remote_song())] {
        let mut inputs = agent(
            playback,
            Some(SyncSignalPath {
                dsp_filter: "Split16k".to_string(),
                output_mode: Some("Pcm".to_string()),
                active_output_mode: Some("Pcm".to_string()),
                dsd_modulator: Some("EcDepth2".to_string()),
                ..SyncSignalPath::default()
            }),
        );
        inputs.settings.filter_type = Some("Minimum16k".to_string());
        inputs.settings.upsampling_enabled = Some(false);
        inputs.settings.output_mode = Some("Dsd256".to_string());
        inputs.settings.dsd_modulator = Some("EcDepth2".to_string());
        inputs.remote_modulator = Some("EcDepth2".to_string());

        let status = status(inputs);

        assert!(!status.upsampling_enabled);
        assert_eq!(status.filter_type, "Minimum16k");
        assert_eq!(status.output_mode, "Dsd256");
        assert_eq!(status.active_output_mode, "Pcm");
        assert_eq!(status.dsd_modulator, "EcDepth2");
    }
}

#[test]
fn remote_agent_status_reports_live_dsd_modulator_from_signal_path() {
    let mut playback = remote_song();
    playback.target_rate = 2_822_400;
    playback.target_bits = 1;
    let mut inputs = agent(
        Some(playback),
        Some(SyncSignalPath {
            dsd_modulator: Some("Standard".to_string()),
            ..SyncSignalPath::default()
        }),
    );
    inputs.settings.upsampling_enabled = Some(true);
    inputs.remote_modulator = Some("Standard".to_string());

    let status = status(inputs);

    assert_eq!(status.zone_protocol, SinkProtocol::RemoteAgent);
    assert_eq!(status.dsd_modulator, "Standard");
}

#[test]
fn remote_agent_status_reports_live_diagnostics_from_signal_path() {
    let mut playback = remote_song();
    playback.target_rate = 2_822_400;
    playback.target_bits = 1;
    let inputs = agent(
        Some(playback),
        Some(SyncSignalPath {
            dop_ring_capacity_ms: real64(1000.0),
            dop_ring_fill_ms: real64(10.0),
            dop_ring_low_watermark_ms: real64(5.0),
            dop_callback_frames: 4096,
            dop_callback_ms: real64(5.8),
            dop_hardware_buffer_min_frames: 512,
            dop_hardware_buffer_max_frames: 16_384,
            dop_hardware_buffer_frames: 4096,
            dop_hardware_buffer_ms: real64(5.8),
            dop_lock_miss_events: 10,
            dop_callback_deadline_miss_events: 11,
            dop_soft_callback_gap_125_events: 12,
            dop_soft_callback_gap_150_events: 13,
            dop_soft_callback_gap_175_events: 14,
            dop_last_soft_callback_gap_ms: real64(12.5),
            dop_last_soft_callback_gap_at_ms: 16,
            dop_ring_below_250ms_events: 17,
            dop_ring_below_100ms_events: 18,
            dop_ring_below_50ms_events: 19,
            dop_ring_below_callback_events: 20,
            dop_last_ring_pressure_at_ms: 21,
            dop_marker_error_events: 12,
            dop_program_idle_splice_events: 13,
            dop_repeated_payload_events: 14,
            dop_last_underrun_at_ms: 15,
            output_ring_fill_now_ms: real64(10.0),
            output_ring_fill_min_ms: real64(5.0),
            underrun_count: 1,
            producer_over_budget_count: 2,
            max_render_block_ms: real64(3.0),
            max_audio_callback_gap_ms: real64(4.0),
            dsp_graph_rebuild_count: 5,
            sample_rate_change_count: 6,
            dop_alignment_reset_count: 7,
            modulator_reset_count: 8,
            decoder_starved_count: 9,
            source_read_time_ms: real64(6.0),
            max_source_read_ms: real64(7.0),
            source_read_stall_count: 22,
            source_read_stall_last_at_ms: 23,
            decoder_decode_time_ms: real64(8.0),
            max_decoder_decode_ms: real64(9.0),
            decoder_decode_stall_count: 24,
            decoder_decode_stall_last_at_ms: 25,
            lock_wait_max_ms: real64(0.5),
            startup_callback_gaps_ms: vec![real64(1.5)],
            output_device: Some("Agent DAC".to_string()),
            ..SyncSignalPath::default()
        }),
    );

    let status = status(inputs);

    assert_eq!(status.zone_protocol, SinkProtocol::RemoteAgent);
    assert_eq!(status.diagnostics.output_ring_fill_now_ms, real64(10.0));
    assert_eq!(status.diagnostics.output_ring_fill_min_ms, real64(5.0));
    assert_eq!(status.dop.ring_capacity_ms, real64(1000.0));
    assert_eq!(status.dop.ring_fill_ms, real64(10.0));
    assert_eq!(status.dop.ring_low_watermark_ms, real64(5.0));
    assert_eq!(status.dop.callback_frames, 4096);
    assert_eq!(status.dop.callback_ms, real64(5.8));
    assert_eq!(status.dop.hardware_buffer_min_frames, 512);
    assert_eq!(status.dop.hardware_buffer_max_frames, 16_384);
    assert_eq!(status.dop.hardware_buffer_frames, 4096);
    assert_eq!(status.dop.hardware_buffer_ms, real64(5.8));
    assert_eq!(status.dop.lock_miss_events, 10);
    assert_eq!(status.dop.callback_deadline_miss_events, 11);
    assert_eq!(status.dop.soft_callback_gap_125_events, 12);
    assert_eq!(status.dop.soft_callback_gap_150_events, 13);
    assert_eq!(status.dop.soft_callback_gap_175_events, 14);
    assert_eq!(status.dop.last_soft_callback_gap_ms, real64(12.5));
    assert_eq!(status.dop.last_soft_callback_gap_at_ms, 16);
    assert_eq!(status.dop.ring_below_250ms_events, 17);
    assert_eq!(status.dop.ring_below_100ms_events, 18);
    assert_eq!(status.dop.ring_below_50ms_events, 19);
    assert_eq!(status.dop.ring_below_callback_events, 20);
    assert_eq!(status.dop.last_ring_pressure_at_ms, 21);
    assert_eq!(status.dop.marker_error_events, 12);
    assert_eq!(status.dop.program_idle_splice_events, 13);
    assert_eq!(status.dop.repeated_payload_events, 14);
    assert_eq!(status.dop.last_underrun_at_ms, 15);
    assert_eq!(status.diagnostics.underrun_count, 1);
    assert_eq!(status.diagnostics.producer_over_budget_count, 2);
    assert_eq!(status.diagnostics.max_render_block_ms, real64(3.0));
    assert_eq!(status.diagnostics.max_audio_callback_gap_ms, real64(4.0));
    assert_eq!(status.diagnostics.dsp_graph_rebuild_count, 5);
    assert_eq!(status.diagnostics.sample_rate_change_count, 6);
    assert_eq!(status.diagnostics.dop_alignment_reset_count, 7);
    assert_eq!(status.diagnostics.modulator_reset_count, 8);
    assert_eq!(status.diagnostics.decoder_starved_count, 9);
    assert_eq!(status.diagnostics.source_read_time_ms, real64(6.0));
    assert_eq!(status.diagnostics.max_source_read_ms, real64(7.0));
    assert_eq!(status.diagnostics.source_read_stall_count, 22);
    assert_eq!(status.diagnostics.source_read_stall_last_at_ms, 23);
    assert_eq!(status.diagnostics.decoder_decode_time_ms, real64(8.0));
    assert_eq!(status.diagnostics.max_decoder_decode_ms, real64(9.0));
    assert_eq!(status.diagnostics.decoder_decode_stall_count, 24);
    assert_eq!(status.diagnostics.decoder_decode_stall_last_at_ms, 25);
    assert_eq!(status.diagnostics.lock_wait_max_ms, real64(0.5));
    assert_eq!(status.diagnostics.startup_callback_gaps_ms, vec![real64(1.5)]);
    assert_eq!(status.selected_device.as_deref(), Some("Agent DAC"));
    assert!(status.remote_signal_path.is_some());
}

#[test]
fn playing_file_is_shown_with_library_names() {
    let mut inputs = local("Playing");
    inputs.player.file_name = Some("a.flac".to_string());
    inputs.player.track_tags.title = Some("File title".to_string());
    inputs.player.track_tags.album = Some("File album".to_string());
    inputs.file_tags.title = Some("Library title".to_string());
    inputs.player_source =
        status_source_for_file_name(None, Some(qobuz_source(4, false)));

    let status = status(inputs);

    assert_eq!(status.track_title.as_deref(), Some("Library title"));
    assert_eq!(status.track_album.as_deref(), Some("File album"));
    assert_eq!(status.current_source.map(|s| s.key()), Some("qobuz:4".to_string()));
    assert_eq!(status.filter_type, "Split16k");
    assert_eq!(status.active_filter_type, "Split16k");
    assert_eq!(status.configured_target_bit_depth, 24);
    assert_eq!(status.position_secs, real64(3.0));
}

#[test]
fn clearing_keeps_what_was_seen_of_the_source() {
    let mut inputs = local("Stopped");
    inputs.player.diagnostics.source_read_stall_count = 3;
    inputs.player.diagnostics.underrun_count = 4;
    inputs.player.metrics.signal_clip_events = 5;
    inputs.player.metrics.underrun_events = 6;

    let status = status(inputs);

    assert_eq!(status.diagnostics.source_read_stall_count, 3);
    assert_eq!(status.diagnostics.underrun_count, 0);
    assert_eq!(status.metrics.signal_clip_events, 0);
    assert_eq!(status.metrics.underrun_events, 6);
}

#[test]
fn device_volume_follows_the_protocol() {
    let shown = status(inputs("Playing", Some(SinkProtocol::AirPlay2)));
    assert!(shown.device_volume_supported);
    assert_eq!(
        shown.device_volume_message.as_deref(),
        Some("AirPlay receiver volume is unknown; current receiver volume will be preserved")
    );
    let shown = status(agent(None, None));
    assert!(!shown.device_volume_supported);
    assert_eq!(
        shown.device_volume_message.as_deref(),
        Some("Device volume for remote agents is not available from this control")
    );
}

fn sonos_snapshot() -> SonosSnapshot {
    SonosSnapshot {
        state: "Playing".to_string(),
        file_name: Some("song".to_string()),
        track_title: Some("Song".to_string()),
        track_artist: None,
        track_album: None,
        source_rate: 44_100,
        target_rate: 44_100,
        source_bits: 16,
        target_bits: 16,
        position_secs: real64(5.0),
        duration_secs: real64(100.0),
        volume: Some(real32(0.3)),
        notice: Some("grouped".to_string()),
    }
}

#[test]
fn speaker_status_is_that_of_the_speaker() {
    let zone = || inputs("Playing", Some(SinkProtocol::SonosUpnp));
    let shown =
        build_status_response(zone(), Some(sonos_snapshot()), None, Some(qobuz_source(1, false)));
    assert_eq!(shown.output_transport, "sonos_upnp");
    assert_eq!(shown.track_title.as_deref(), Some("Song"));
    assert_eq!(shown.volume, real32(0.3));
    assert_eq!(shown.current_source.map(|s| s.key()), Some("qobuz:1".to_string()));
    assert_eq!(shown.output_notice.as_deref(), Some("grouped"));
    let silent = build_status_response(zone(), None, None, None);
    assert_eq!(silent.state, "Stopped");
    assert_eq!(silent.position_secs, real64(0.0));
    assert_eq!(silent.output_transport, "sonos_upnp");
}

#[test]
fn renderer_status_is_that_of_the_renderer() {
    let snapshot = UpnpSnapshot {
        state: "Paused".to_string(),
        file_name: None,
        current_source: Some(qobuz_source(8, false)),
        track_title: None,
        track_artist: None,
        track_album: None,
        source_rate: 44_100,
        target_rate: 192_000,
        source_bits: 16,
        target_bits: 24,
        active_output_mode: Some("Dsd64".to_string()),
        position_secs: real64(5.0),
        duration_secs: real64(100.0),
        volume: None,
        playback_speed: Some("1".to_string()),
        notice: None,
        config_applied_to_current_playback: false,
        restart_pending: true,
        render_status: "rendering".to_string(),
        active_render_signature: Some("a".to_string()),
        configured_render_signature: Some("b".to_string()),
        last_render_ms: Some(1),
        last_prepare_ms: Some(2),
        last_cache_hit: Some(true),
        transport_pending: "seek".to_string(),
        transport_pending_position_secs: Some(real64(9.0)),
    };
    let shown = build_status_response(
        inputs("Playing", Some(SinkProtocol::UpnpAvRenderer)),
        None,
        Some(snapshot),
        None,
    );
    assert_eq!(shown.output_transport, "upnp_av_renderer");
    assert_eq!(shown.active_output_mode, "Dsd64");
    assert_eq!(shown.volume, real32(1.0));
    assert!(shown.upnp_restart_pending);
    assert_eq!(shown.upnp_render_status, "rendering");
    assert_eq!(shown.current_source.map(|s| s.key()), Some("qobuz:8".to_string()));
    assert_eq!(shown.transport_pending, "seek");
}

#[test]
fn missing_zone_has_no_status_of_its_own() {
    assert_eq!(
        build_status_response_for_zone(inputs("Playing", None), false, None, None, None).unwrap_err(),
        "Zone 'zone' is not available"
    );
    assert!(
        build_status_response_for_zone(inputs("Playing", None), true, None, None, None).is_ok()
    );
    assert_eq!(
        status_player(Some(SinkProtocol::RemoteAgent), true),
        Some(StatusPlayer::Active)
    );
    assert_eq!(
        status_player(Some(SinkProtocol::SonosUpnp), true),
        Some(StatusPlayer::OfZone)
    );
    assert_eq!(
        status_player(Some(SinkProtocol::UpnpAvRenderer), false),
        Some(StatusPlayer::Active)
    );
    assert_eq!(status_player(Some(SinkProtocol::LocalCoreAudio), false), None);
}

fn zone(id: &str, protocol: SinkProtocol, enabled: bool) -> ZoneProfile {
    ZoneProfile {
        id: id.to_string(),
        name: id.to_string(),
        protocol,
        agent_name: None,
        backend: None,
        capabilities: ZoneCapabilities::default(),
        dsp_profile: DspProfile::with_default_filter("Minimum16k"),
        status: ZoneStatus::Available,
        enabled,
        device_name: None,
        network_address: None,
        status_message: None,
        playing_state: None,
        track_title: None,
        airplay_default_volume: None,
        airplay_max_volume: None,
        airplay_last_volume: None,
        qobuz_hires_enabled: false,
        icon: None,
        device_type: None,
        hegel: None,
        upnp_calibrated_capabilities: None,
        browser: false,
        browser_stream: None,
    }
}

#[test]
fn enabled_zones_of_a_protocol_are_refreshed() {
    let zones = [
        zone("a", SinkProtocol::SonosUpnp, true),
        zone("b", SinkProtocol::SonosUpnp, false),
        zone("c", SinkProtocol::UpnpAvRenderer, true),
        zone("d", SinkProtocol::SonosUpnp, true),
    ];
    assert_eq!(zones_to_refresh(&zones, SinkProtocol::SonosUpnp), vec!["a", "d"]);
}
