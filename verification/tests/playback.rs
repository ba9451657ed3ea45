use fozmo::audio::{Real32, Real64};
use fozmo::playback::error::{PlaybackError, ResolveError};
use fozmo::playback::qobuz::{
    play_qobuz_request_for_zone, prefetch_qobuz_request_for_zone,
    qobuz_prefetch_command_expected_current, qobuz_queue_contains_track,
    qobuz_radio_next_request_from_source_for_zone, radio_exclude_track_ids, PrefetchRoute,
    RadioSeed,
};
use fozmo::playback::queue::{
    append_source_to_now_playing_queue, apply_zone_queue_sources, now_playing_queue_for_zone,
    qobuz_prefetch_track_for_queue_update, refresh_source_ref_metadata, set_zone_queue,
    shuffle_zone_queue, QueueRoute, QueuedSource, StoredQueue,
};
use fozmo::playback::queue_advance::{
    queue_is_exhausted, AdvanceContext, AdvanceStep, PlaybackOutcome, QueueAdvance,
};
use fozmo::playback::queue_state::{
    queue_item_source_key, queue_loop_enabled, rebuilt_queue_state, source_ref_queue_item,
    QueueItem, QueueKind, QueueState, StoredLocalTrack, StoredNumber,
};
use fozmo::playback::request::{PlaybackGuard, PlaybackRequest};
use fozmo::playback::resolver::{
    described_queue_source, existing_path, found_track, local_player_queue_items_from_sources,
    local_queue_entry_from_play_request, local_queue_item_from_source_ref,
    lookup_fallback_cover, resolve_music_file_name, resolve_track_path,
    source_ref_from_queue_request, PathLookup, PathStyle, PlayerQueueItem, QueueItemLookup,
    QueueRequestItem, TrackLookup,
};
use fozmo::playback::sequencer::{
    PlaybackCommandSequencer, PlaybackRequestSequence, MAX_PLAYBACK_SEQUENCE_CLIENTS,
};
use fozmo::playback::sinks::{
    after_mute, after_mute_query, after_renderer_handoff, begin_hegel_dop_mute_guard,
    clamp_volume, execute_immediate, fallback_tags, finish_hegel_dop_mute_guard, intent_command, next_on_sink,
    normalized_hegel_volume, persist_zone_loop_mode, play_remote_agent, play_source,
    set_device_volume, set_loop_mode, set_volume, sink_for_zone, stream_request,
    transport_command, zone_definition_kind, DeviceVolumeRoute, LoopMode, LoopRoute, MuteStep,
    PlayRoute, PlaybackIntent, SinkAdvance, SinkSupport, TransportCommand, TransportRoute,
    ZoneSink,
};
use fozmo::playback::sonos::{
    sonos_art_url, sonos_asset_file_name, sonos_prefetch_window, sonos_stream_url,
    SONOS_PREFETCH_WINDOW,
};
use fozmo::playback::source::{
    qobuz_play_request_from_source_ref, qobuz_queue_source_refs,
    qobuz_source_ref_from_play_request, source_ref_with_radio, QobuzPlayRequest,
};
use fozmo::playback::transfer::{
    after_transfer_play, seek_destination, transfer_destination, transfer_play_request,
    transfer_queue_sources, transfer_source, transfer_zone, TransferOutcomes, TransferRequest,
    TransferSourceAction, TransferStatus, TransferStep,
};
use fozmo::protocol::{
    CoreToAgentCommand, EqConfig, Headroom, PlaybackConfig, SinkProtocol, SourceRef,
};

fn real64(value: f64) -> Real64 {
    Real64 { bits: value.to_bits() }
}

fn real32(value: f32) -> Real32 {
    Real32 { bits: value.to_bits() }
}

fn qobuz_source(track_id: u64, radio: bool) -> SourceRef {
    SourceRef::QobuzTrack {
        track_id,
        title: Some(format!("Track {track_id}")),
        artist: Some("Artist".to_string()),
        album: Some("Album".to_string()),
        album_id: Some("album".to_string()),
        image_url: None,
        duration_secs: Some(real64(180.0)),
        radio,
        radio_context: None,
        playlist_context: None,
    }
}

fn local_source(track_id: i64, file_name: &str) -> SourceRef {
    SourceRef::LocalTrack {
        track_id,
        file_name: Some(file_name.to_string()),
        title: None,
        artist: None,
        album: None,
        album_artist: None,
        album_id: None,
        art_id: None,
        duration_secs: None,
        ext_hint: None,
        radio: false,
        radio_context: None,
        playlist_context: None,
    }
}

fn qobuz_play_request(track_id: u64) -> QobuzPlayRequest {
    QobuzPlayRequest {
        track_id,
        title: Some(format!("Track {track_id}")),
        artist: Some("Artist".to_string()),
        album: Some("Album".to_string()),
        album_id: Some("album".to_string()),
        image_url: None,
        duration_secs: Some(real64(180.0)),
        format_id: None,
        expected_current: None,
        radio_auto: false,
        replace_current: true,
        playlist_context: None,
        queue: Vec::new(),
    }
}

fn playback_config() -> PlaybackConfig {
    PlaybackConfig {
        filter_type: "Minimum16k".to_string(),
        target_rate: 0,
        target_bit_depth: 24,
        upsampling_enabled: false,
        exclusive: false,
        dither_mode: "Auto".to_string(),
        output_mode: "Pcm".to_string(),
        dsd_modulator: "EcDepth2".to_string(),
        dsd_isi_penalty: real32(0.0),
        dsd_rules: Vec::new(),
        dsd_rules_encoded: Vec::new(),
        headroom: Headroom { db: real32(0.0), unity: true },
        dsp_buffer_ms: 0,
        volume: real32(1.0),
        eq: EqConfig { enabled: false, encoded: Vec::new() },
        output_device: None,
    }
}

fn keys(sources: &[SourceRef]) -> Vec<String> {
    sources.iter().map(|source| source.key()).collect()
}

#[test]
fn zone_qobuz_play_rejects_stale_sequence_before_playback() {
    let mut sequencer = PlaybackCommandSequencer::new();
    let latest = PlaybackRequestSequence::new("client-a", 2);
    let stale = PlaybackRequestSequence::new("client-a", 1);
    assert!(sequencer.accept(Some(&latest), 1));

    let result = play_qobuz_request_for_zone(
        &mut sequencer,
        Some(stale),
        2,
        "profile",
        qobuz_play_request(11),
        true,
    );

    assert!(
        matches!(result, Err(PlaybackError::Conflict(message)) if message == "Playback changed")
    );
}

#[test]
fn qobuz_radio_next_yields_to_prefetched_queue() {
    assert!(
        qobuz_radio_next_request_from_source_for_zone(true, Some(1), &qobuz_source(1, true)).is_none()
    );
}

#[test]
fn qobuz_radio_next_respects_disabled_setting() {
    assert!(
        qobuz_radio_next_request_from_source_for_zone(false, Some(0), &qobuz_source(1, false))
            .is_none()
    );
}

#[test]
fn qobuz_radio_next_starts_from_the_track_or_its_artist() {
    assert!(matches!(
        qobuz_radio_next_request_from_source_for_zone(true, Some(0), &qobuz_source(1, false)),
        Some(RadioSeed::Track(1))
    ));
}

#[test]
fn remote_agent_qobuz_play_accepts_agent_current_file_name() {
    let mut sequencer = PlaybackCommandSequencer::new();
    let mut req = qobuz_play_request(11);
    req.expected_current = Some("Artist - Track 10".to_string());

    let request =
        play_qobuz_request_for_zone(&mut sequencer, None, 1, "profile", req, true).unwrap();
    let command =
        play_remote_agent(&request, &sequencer, playback_config(), "http://core.test").unwrap();

    assert!(matches!(
        command,
        CoreToAgentCommand::PlaySource { source_ref, .. } if source_ref.key() == "qobuz:11"
    ));
}

#[test]
fn changed_current_track_refuses_a_play() {
    let mut sequencer = PlaybackCommandSequencer::new();
    let mut req = qobuz_play_request(11);
    req.expected_current = Some("Artist - Track 10".to_string());
    let result = play_qobuz_request_for_zone(&mut sequencer, None, 1, "profile", req, false);
    assert!(
        matches!(result, Err(PlaybackError::Conflict(message)) if message == "Current track changed")
    );
}

#[test]
fn qobuz_prefetch_expected_current_accepts_source_key() {
    let expected = qobuz_prefetch_command_expected_current(
        true,
        Some("qobuz:10".to_string()),
        Some("Artist - Track 10".to_string()),
    )
    .expect("source-key expected_current should match active Qobuz source");

    assert_eq!(expected.as_deref(), Some("Artist - Track 10"));
}

#[test]
fn shuffle_zone_queue_excludes_active_source_from_upcoming_queue() {
    let current = qobuz_source(10, false);
    let next_a = qobuz_source(11, false);
    let next_b = qobuz_source(12, false);

    let shuffled = shuffle_zone_queue(
        vec![current.clone(), next_a.clone(), next_b.clone()],
        Some(&current),
    );

    let saved_keys = keys(&shuffled);
    assert_eq!(saved_keys.len(), 2);
    assert!(!saved_keys.contains(&current.key()));
    assert!(saved_keys.contains(&next_a.key()));
    assert!(saved_keys.contains(&next_b.key()));
}

#[test]
fn shuffle_keeps_every_track_and_changes_their_order() {
    let sources: Vec<SourceRef> = (0..200).map(|id| qobuz_source(id, false)).collect();
    let before = keys(&sources);
    let after = keys(&shuffle_zone_queue(sources, None));
    assert_ne!(before, after);
    let mut sorted_before = before.clone();
    let mut sorted_after = after.clone();
    sorted_before.sort();
    sorted_after.sort();
    assert_eq!(sorted_before, sorted_after);
}

#[test]
fn shuffle_zone_queue_rejects_stale_expected_current() {
    let result = apply_zone_queue_sources(Some(SinkProtocol::RemoteAgent), false, false);
    assert!(
        matches!(result, Err(PlaybackError::Conflict(message)) if message == "Current track changed")
    );
    assert_eq!(
        apply_zone_queue_sources(Some(SinkProtocol::RemoteAgent), false, true).unwrap(),
        QueueRoute::RemoteAgent
    );
    assert!(matches!(
        apply_zone_queue_sources(Some(SinkProtocol::LocalCoreAudio), false, true),
        Err(PlaybackError::ZoneNotAvailable)
    ));
}

#[test]
fn set_zone_queue_rejects_unresolved_items() {
    let item = QueueRequestItem::Local { file_name: None, track_id: Some(987_654) };
    assert!(matches!(
        source_ref_from_queue_request(&item),
        QueueItemLookup::Lookup(TrackLookup::ById(987_654))
    ));
    assert!(matches!(
        found_track::<SourceRef>(Ok(None)),
        Err(ResolveError::TrackNotFound)
    ));
    assert!(matches!(
        found_track::<SourceRef>(Err("broken".to_string())),
        Err(ResolveError::Library(message)) if message == "broken"
    ));
    let refused = set_zone_queue(vec![Some(qobuz_source(1, false)), None]).unwrap_err();
    assert_eq!(refused.message(), "Queue item is missing a playable source");
    assert_eq!(
        keys(&set_zone_queue(vec![Some(qobuz_source(1, false))]).unwrap()),
        vec!["qobuz:1"]
    );
}

fn stored_local(title: &str, track_id: u64) -> QueueItem {
    QueueItem::Stored {
        body: format!("{{\"title\":\"{title}\",\"ref\":{{\"track_id\":{track_id}}}}}"),
        resolved_source: None,
        service_track: None,
        local_track: Some(StoredLocalTrack { track_id: Some(StoredNumber::Unsigned(track_id)) }),
    }
}

#[test]
fn append_source_to_now_playing_queue_preserves_existing_back_stack() {
    let stored = QueueState {
        kind: Some(QueueKind::Local),
        cursor: Some(StoredNumber::Unsigned(1)),
        items: vec![stored_local("Previous", 1), stored_local("Current", 2)],
        loop_mode: Some("off".to_string()),
        rest: String::new(),
    };
    let radio = qobuz_source(3, true);

    let once = append_source_to_now_playing_queue(Some(stored), &radio);
    let saved = append_source_to_now_playing_queue(Some(once), &radio);

    assert_eq!(saved.cursor, Some(StoredNumber::Unsigned(1)));
    assert_eq!(saved.kind, Some(QueueKind::Mixed));
    assert_eq!(saved.items.len(), 3);
    match &saved.items[2] {
        QueueItem::Built(item) => {
            assert_eq!(item.source.kind(), "qobuz_track");
            assert!(item.source.is_radio());
        }
        QueueItem::Stored { .. } => panic!("the appended item is a built one"),
    }
}

#[test]
fn queue_loop_enabled_reads_persisted_loop_mode() {
    let first = qobuz_source(1, false);
    let state = QueueState {
        kind: Some(QueueKind::Qobuz),
        cursor: Some(StoredNumber::Unsigned(0)),
        items: vec![QueueItem::Built(source_ref_queue_item(&first))],
        loop_mode: Some("loop".to_string()),
        rest: String::new(),
    };

    assert!(queue_loop_enabled(Some(&state)));
    assert!(!queue_loop_enabled(None));
    let one = persist_zone_loop_mode(Some(state), LoopMode::One);
    assert!(!queue_loop_enabled(Some(&one)));
    let looped = persist_zone_loop_mode(None, LoopMode::Loop);
    assert!(queue_loop_enabled(Some(&looped)));
}

#[test]
fn qobuz_queue_update_prefers_active_track_when_loop_is_enabled() {
    let active = qobuz_source(20, false);
    let next = qobuz_source(21, false);

    let loop_track =
        qobuz_prefetch_track_for_queue_update(true, Some(&active), std::slice::from_ref(&next))
            .expect("loop should prefetch active qobuz track");
    let normal_track =
        qobuz_prefetch_track_for_queue_update(false, Some(&active), std::slice::from_ref(&next))
            .expect("normal mode should prefetch upcoming qobuz track");

    assert_eq!(loop_track.track_id, 20);
    assert_eq!(normal_track.track_id, 21);
}

#[test]
fn resolve_music_file_name_rejects_traversal() {
    let music_dir = "/tmp/music";

    assert!(resolve_music_file_name(PathStyle::Posix, music_dir, "../secret.flac").is_err());
    assert!(resolve_music_file_name(PathStyle::Posix, music_dir, "/etc/passwd").is_err());
    assert!(resolve_music_file_name(PathStyle::Posix, music_dir, "Album/track.flac").is_ok());
}

#[test]
fn fallback_cover_is_what_the_library_has() {
    let found = Ok(Some(("image/png".to_string(), vec![1, 2])));
    let cover = lookup_fallback_cover(found).unwrap();
    assert_eq!(cover.mime, "image/png");
    assert_eq!(cover.data, vec![1, 2]);
    assert!(lookup_fallback_cover(Ok(None)).is_none());
    assert!(lookup_fallback_cover(Err("unreadable".to_string())).is_none());
}

#[test]
fn backslashes_separate_where_the_system_says_so() {
    let windows =
        |dir: &str, name: &str| resolve_music_file_name(PathStyle::Windows, dir, name).ok();
    for name in ["..\\secret.flac", "a\\..\\b", ".\\a", "\\a", "\\\\host\\share", "C:\\a", "c:a"] {
        assert_eq!(windows("C:\\Music", name), None);
    }
    assert_eq!(
        windows("C:\\Music", "Album\\track.flac").as_deref(),
        Some("C:\\Music\\Album\\track.flac")
    );
    assert_eq!(windows("C:", "a.flac").as_deref(), Some("C:a.flac"));
    assert_eq!(
        windows("\\\\?\\C:\\Music", "Album/track.flac").as_deref(),
        Some("\\\\?\\C:\\Music\\Album\\track.flac")
    );
    assert_eq!(windows("\\\\?\\C:\\m", "a/./b").as_deref(), Some("\\\\?\\C:\\m\\a\\b"));
    assert_eq!(
        windows("\\\\?\\UNC\\host\\share\\\\m\\", "a//b/").as_deref(),
        Some("\\\\?\\UNC\\host\\share\\m\\a\\b")
    );
    assert_eq!(windows("\\\\?\\C:\\", "a").as_deref(), Some("\\\\?\\C:\\a"));
    assert_eq!(windows("\\\\?\\C:", "a").as_deref(), Some("\\\\?\\C:\\a"));
    assert_eq!(windows("C:\\m", "a/./b").as_deref(), Some("C:\\m\\a/./b"));
    let posix = resolve_music_file_name(PathStyle::Posix, "/tmp/music", "..\\secret.flac");
    assert_eq!(posix.unwrap(), "/tmp/music/..\\secret.flac");
}

#[test]
fn resolved_paths_are_below_the_music_directory() {
    assert_eq!(
        resolve_music_file_name(PathStyle::Posix, "/tmp/music", " Album/track.flac ").unwrap(),
        "/tmp/music/Album/track.flac"
    );
    for name in ["", "   ", ".", "./a", "a/..", "a/../b", ".."] {
        assert!(matches!(
            resolve_music_file_name(PathStyle::Posix, "/tmp/music", name),
            Err(ResolveError::InvalidFileName)
        ));
    }
    assert!(resolve_music_file_name(PathStyle::Posix, "/tmp/music", "a/..b").is_ok());
    assert!(matches!(
        resolve_track_path(PathStyle::Posix, "/tmp/music", Some(3), Some("../x")),
        Ok(PathLookup::Track(3))
    ));
    assert!(matches!(
        resolve_track_path(PathStyle::Posix, "/tmp/music", None, Some("a.flac")),
        Ok(PathLookup::Path(path)) if path == "/tmp/music/a.flac"
    ));
    assert!(matches!(resolve_track_path(PathStyle::Posix, "/tmp/music", None, None), Ok(PathLookup::Nowhere)));
    assert_eq!(existing_path("/a".to_string(), true, "\"/a\"").unwrap(), "/a");
    assert!(matches!(
        existing_path("/a".to_string(), false, "\"/a\""),
        Err(ResolveError::FileNotFound(message)) if message == "File \"/a\" not found"
    ));
}

#[test]
fn queue_local_source_with_file_name_is_rehydrated_from_library() {
    let mut stale = local_source(0, "01 Alpha.wav");
    if let SourceRef::LocalTrack { title, .. } = &mut stale {
        *title = Some("Stale title".to_string());
    }
    let item = QueueRequestItem::Source(stale);
    assert!(matches!(
        source_ref_from_queue_request(&item),
        QueueItemLookup::Lookup(TrackLookup::ByFileName(name)) if name == "01 Alpha.wav"
    ));
    let mut library = local_source(5, "01 Alpha.wav");
    if let SourceRef::LocalTrack { title, album, ext_hint, .. } = &mut library {
        *title = Some("Alpha".to_string());
        *album = Some("Album".to_string());
        *ext_hint = Some("wav".to_string());
    }

    let source = described_queue_source(&item, found_track(Ok(Some(library))).unwrap());

    match source {
        SourceRef::LocalTrack { track_id, file_name, title, album, ext_hint, .. } => {
            assert!(track_id > 0);
            assert_eq!(file_name.as_deref(), Some("01 Alpha.wav"));
            assert_eq!(title.as_deref(), Some("Alpha"));
            assert_eq!(album.as_deref(), Some("Album"));
            assert_eq!(ext_hint.as_deref(), Some("wav"));
        }
        SourceRef::QobuzTrack { .. } => panic!("expected local source"),
    }
}

fn player_item(path: &str) -> Option<PlayerQueueItem> {
    Some(PlayerQueueItem { file_path: path.to_string(), fallback_cover: None, fallback_tags: None })
}

#[test]
fn local_player_queue_items_stop_at_first_qobuz_source() {
    let sources = vec![
        local_source(1, "01 Alpha.wav"),
        qobuz_source(42, false),
        local_source(2, "02 Beta.wav"),
    ];
    let found = vec![
        player_item("/music/Artist/Album/01 Alpha.wav"),
        None,
        player_item("/music/Artist/Album/02 Beta.wav"),
    ];

    let queue = local_player_queue_items_from_sources(&sources, found);

    assert_eq!(queue.len(), 1);
    assert!(queue[0].file_path.ends_with("01 Alpha.wav"));
}

fn transfer_request(destination: &str, expected: Option<String>) -> TransferRequest {
    TransferRequest {
        destination_zone_id: destination.to_string(),
        source_action: TransferSourceAction::Pause,
        expected_current: expected,
    }
}

fn status(state: &str, source: Option<SourceRef>) -> TransferStatus {
    TransferStatus {
        state: state.to_string(),
        current_source: source,
        position_secs: real64(12.0),
        duration_secs: real64(180.0),
    }
}

#[test]
fn transfer_rejects_same_zone() {
    let result =
        transfer_destination("local-core", &transfer_request("local-core", None), true, true);
    assert!(matches!(result, Err(PlaybackError::BadRequest(_))));
}

#[test]
fn transfer_rejects_missing_current_source() {
    let result = transfer_source(
        &status("Stopped", None),
        None,
        &transfer_request("agent-kitchen", None),
        true,
        true,
    );
    assert!(matches!(result, Err(PlaybackError::Conflict(_))));
    let result = transfer_source(
        &status("Playing", None),
        None,
        &transfer_request("agent-kitchen", None),
        true,
        true,
    );
    assert!(matches!(result, Err(PlaybackError::Conflict(_))));
}

#[test]
fn transfer_remote_to_remote_moves_current_and_queue() {
    let current = qobuz_source(10, false);
    let next = qobuz_source(11, false);
    let req = transfer_request("agent-kitchen", Some(current.key()));
    let destination = transfer_destination("agent-lounge", &req, true, true).unwrap();
    let source =
        transfer_source(&status("Playing", None), Some(current.clone()), &req, true, true).unwrap();
    let queue = transfer_queue_sources(Vec::new(), vec![next.clone()], &source);
    let request = transfer_play_request(
        Some("profile-a".to_string()),
        "default",
        source.clone(),
        queue.clone(),
    );
    let sequencer = PlaybackCommandSequencer::new();

    match play_remote_agent(&request, &sequencer, playback_config(), "http://core.test").unwrap() {
        CoreToAgentCommand::PlaySource { source_ref, queue, .. } => {
            assert_eq!(source_ref.key(), current.key());
            assert_eq!(keys(&queue), vec![next.key()]);
        }
        other => panic!("expected destination play, got {other:?}"),
    }
    assert_eq!(seek_destination(real64(12.0)), Some(real64(12.0)));
    assert_eq!(seek_destination(real64(0.0)), None);
    assert_eq!(seek_destination(real64(f64::NAN)), None);
    assert_eq!(seek_destination(real64(f64::INFINITY)), None);
    let steps = after_transfer_play(&req, &status("Playing", None));
    assert_eq!(
        steps,
        vec![
            TransferStep::Seek { seconds: real64(12.0) },
            TransferStep::KeepQueueState,
            TransferStep::MoveListening {
                position_secs: real64(12.0),
                duration_secs: real64(180.0),
                playing: true,
            },
            TransferStep::ClearSourceQueue,
            TransferStep::PauseSource,
        ]
    );
    let mut outcomes = TransferOutcomes::new();
    for step in steps {
        outcomes.record(step, Ok(()));
    }
    let response = transfer_zone(
        "agent-lounge",
        destination,
        &req,
        &source,
        &queue,
        outcomes,
        Some("Playing".to_string()),
    )
    .unwrap();
    assert_eq!(response.source_key, current.key());
    assert_eq!(response.queued_count, 1);
    assert_eq!(response.destination_zone_id, "agent-kitchen");
    assert_eq!(response.seek_error, None);
    assert_eq!(response.source_queue_clear_error, None);
}

#[test]
fn transfer_pauses_its_source_only_when_asked() {
    let mut req = transfer_request("agent-kitchen", None);
    req.source_action = TransferSourceAction::KeepPlaying;
    let mut paused = status("Paused", None);
    paused.position_secs = real64(0.0);
    assert_eq!(
        after_transfer_play(&req, &paused),
        vec![
            TransferStep::KeepQueueState,
            TransferStep::MoveListening {
                position_secs: real64(0.0),
                duration_secs: real64(180.0),
                playing: false,
            },
            TransferStep::ClearSourceQueue,
        ]
    );
}

#[test]
fn transfer_reports_the_steps_that_failed() {
    let req = transfer_request("agent-kitchen", None);
    let report = |outcomes: TransferOutcomes| {
        transfer_zone(
            "agent-lounge",
            "agent-kitchen".to_string(),
            &req,
            &qobuz_source(10, false),
            &Vec::new(),
            outcomes,
            None,
        )
    };
    let failed = |text: &str| Err(PlaybackError::conflict(text));
    let mut outcomes = TransferOutcomes::new();
    outcomes.record(TransferStep::Seek { seconds: real64(1.0) }, failed("no seek"));
    outcomes.record(TransferStep::KeepQueueState, failed("not kept"));
    outcomes.record(TransferStep::ClearSourceQueue, failed("no clear"));
    let response = report(outcomes).unwrap();
    assert_eq!(response.seek_error.as_deref(), Some("no seek"));
    assert_eq!(response.source_queue_clear_error.as_deref(), Some("no clear"));
    assert_eq!(response.destination_state, "Unknown");
    let mut outcomes = TransferOutcomes::new();
    outcomes.record(TransferStep::PauseSource, failed("no pause"));
    assert!(matches!(report(outcomes), Err(PlaybackError::Conflict(text)) if text == "no pause"));
}

#[test]
fn transfer_rejects_expected_current_conflict() {
    let current = qobuz_source(10, false);
    let result = transfer_source(
        &status("Playing", None),
        Some(current),
        &transfer_request("agent-kitchen", Some("qobuz:999".to_string())),
        false,
        false,
    );
    assert!(matches!(result, Err(PlaybackError::Conflict(_))));
}

#[test]
fn moved_queue_does_not_repeat_the_track() {
    let current = qobuz_source(10, false);
    let queue = vec![qobuz_source(10, false), qobuz_source(10, false), qobuz_source(11, false)];
    let moved = transfer_queue_sources(queue, vec![qobuz_source(99, false)], &current);
    assert_eq!(keys(&moved), vec!["qobuz:11"]);
}

#[test]
fn sequencer_keeps_the_newest_number_of_each_client() {
    let mut sequencer = PlaybackCommandSequencer::new();
    let one = PlaybackRequestSequence::new("a", 1);
    let two = PlaybackRequestSequence::new("a", 2);
    assert!(sequencer.accept(None, 0));
    assert!(sequencer.accept(Some(&two), 1));
    assert!(!sequencer.accept(Some(&one), 2));
    assert!(sequencer.is_stale(Some(&one)));
    assert!(!sequencer.is_stale(Some(&two)));
    assert!(sequencer.is_current(&two));
    assert!(!sequencer.is_current(&one));
    assert!(sequencer.is_current(&PlaybackRequestSequence::new("b", 0)));
    assert_eq!(PlaybackRequestSequence::new(&"x".repeat(200), 1).client_id.len(), 128);
    for n in 0..MAX_PLAYBACK_SEQUENCE_CLIENTS {
        let client = format!("client-{n}");
        assert!(sequencer.accept(Some(&PlaybackRequestSequence::new(&client, 5)), 10 + n as u64));
    }
    assert_eq!(sequencer.entries.len(), MAX_PLAYBACK_SEQUENCE_CLIENTS);
    assert!(sequencer.is_current(&one));
    assert!(sequencer.is_stale(Some(&PlaybackRequestSequence::new("client-0", 4))));
}

fn advance_context(exhausted: bool, lastfm: bool) -> AdvanceContext {
    AdvanceContext::new(
        None,
        "default",
        Some(qobuz_source(1, false)),
        exhausted,
        lastfm,
    )
}

#[test]
fn radio_takes_over_when_the_queue_is_exhausted() {
    assert!(queue_is_exhausted(Some(&qobuz_source(1, false)), false, None));
    assert!(!queue_is_exhausted(Some(&qobuz_source(1, false)), true, Some(0)));
    assert!(queue_is_exhausted(None, true, Some(0)));
    assert!(!queue_is_exhausted(None, true, None));
    let context = advance_context(true, true);
    assert!(matches!(context.advance(), AdvanceStep::AskLastfm));
    let step = context.after_lastfm(
        Some(Some(qobuz_source(2, true))),
        Some(qobuz_source(1, false)),
        true,
    );
    match step {
        AdvanceStep::Done(QueueAdvance::Play { request, outcome, append_to_queue }) => {
            assert_eq!(request.source.key(), "qobuz:2");
            assert_eq!(request.profile_id, "default");
            assert!(request.queue.is_empty());
            assert!(request.radio_auto);
            assert_eq!(outcome, PlaybackOutcome::Completed);
            assert!(append_to_queue);
        }
        _ => panic!("a recommendation plays"),
    }
    assert!(matches!(
        context.after_lastfm(Some(Some(qobuz_source(2, true))), Some(qobuz_source(7, false)), true),
        AdvanceStep::Done(QueueAdvance::Completed)
    ));
    assert!(matches!(
        context.after_lastfm(None, None, true),
        AdvanceStep::AskArtistRadio
    ));
    assert!(matches!(
        context.after_artist_radio(Some(None), None),
        AdvanceStep::AskServiceRadio
    ));
    assert!(matches!(
        context.after_service_radio(Ok(None)),
        Ok(QueueAdvance::AdvanceSink { profile_id }) if profile_id == "default"
    ));
    assert!(matches!(
        context.after_service_radio(Err("offline".to_string())),
        Err(PlaybackError::Integration(_))
    ));
    assert!(matches!(
        advance_context(false, true).advance(),
        AdvanceStep::AskServiceRadio
    ));
}

#[test]
fn sinks_follow_the_protocol() {
    let all = SinkSupport { sonos: true, upnp: true };
    let none = SinkSupport { sonos: false, upnp: false };
    assert_eq!(sink_for_zone(Some(SinkProtocol::SonosUpnp), all).unwrap(), ZoneSink::Sonos);
    assert_eq!(sink_for_zone(Some(SinkProtocol::AsioOutput), none).unwrap(), ZoneSink::Local);
    assert_eq!(
        sink_for_zone(Some(SinkProtocol::SonosUpnp), none).unwrap_err().message(),
        "Sonos support was not compiled into this build"
    );
    assert_eq!(
        sink_for_zone(Some(SinkProtocol::UpnpAvRenderer), none).unwrap_err().message(),
        "UPnP support was not compiled into this build"
    );
    assert!(matches!(sink_for_zone(None, all), Err(PlaybackError::ZoneNotAvailable)));
    assert_eq!(play_source(ZoneSink::Local, &qobuz_source(1, false)), PlayRoute::LocalStream);
    assert_eq!(play_source(ZoneSink::Local, &local_source(1, "a")), PlayRoute::LocalFile);
    assert_eq!(play_source(ZoneSink::Upnp, &local_source(1, "a")), PlayRoute::Upnp);
    assert_eq!(zone_definition_kind(&SinkProtocol::AsioOutput), "asio");
}

#[test]
fn next_plays_the_head_of_the_queue() {
    let queue = vec![qobuz_source(2, true), qobuz_source(3, false)];
    match next_on_sink(ZoneSink::Local, "p".to_string(), queue, true, false).unwrap() {
        SinkAdvance::PlayHead { request } => {
            assert_eq!(request.source.key(), "qobuz:2");
            assert_eq!(keys(&request.queue), vec!["qobuz:3"]);
            assert!(!request.radio_auto);
        }
        _ => panic!("a streamed head is played"),
    }
    assert!(matches!(
        next_on_sink(ZoneSink::Local, "p".to_string(), Vec::new(), true, false),
        Err(PlaybackError::ZoneNotAvailable)
    ));
    assert!(matches!(
        next_on_sink(ZoneSink::Upnp, "p".to_string(), Vec::new(), true, false),
        Ok(SinkAdvance::Nothing)
    ));
    assert!(matches!(
        next_on_sink(ZoneSink::Upnp, "p".to_string(), Vec::new(), false, false),
        Ok(SinkAdvance::RendererNext)
    ));
    let request = after_renderer_handoff(
        false,
        "p".to_string(),
        vec![qobuz_source(2, true), qobuz_source(3, false)],
    )
    .unwrap();
    assert!(request.radio_auto);
    assert_eq!(keys(&request.queue), vec!["qobuz:3"]);
    assert!(after_renderer_handoff(true, "p".to_string(), vec![qobuz_source(2, true)]).is_none());
}

#[test]
fn transport_commands_reach_their_output() {
    let (route, ends) =
        transport_command(ZoneSink::RemoteAgent, TransportCommand::Stop, false).unwrap();
    assert!(matches!(route, TransportRoute::Agent(CoreToAgentCommand::Stop)));
    assert!(ends);
    let (route, ends) =
        transport_command(ZoneSink::Local, TransportCommand::Resume, true).unwrap();
    assert!(matches!(route, TransportRoute::Player { prepare_amplifier: true }));
    assert!(!ends);
    assert!(matches!(
        transport_command(ZoneSink::Local, TransportCommand::Pause, false),
        Err(PlaybackError::ZoneNotAvailable)
    ));
    let (route, _) = transport_command(
        ZoneSink::RemoteAgent,
        TransportCommand::Seek { seconds: real64(3.0) },
        false,
    )
    .unwrap();
    assert!(matches!(
        route,
        TransportRoute::Agent(CoreToAgentCommand::Seek { seconds }) if seconds == real64(3.0)
    ));
}

fn request(source: SourceRef) -> PlaybackRequest {
    PlaybackRequest {
        profile_id: "p".to_string(),
        source,
        queue: Vec::new(),
        radio_auto: false,
        guard: PlaybackGuard::none(),
        qobuz_request: None,
    }
}

#[test]
fn superseded_agent_play_is_refused() {
    let mut sequencer = PlaybackCommandSequencer::new();
    sequencer.accept(Some(&PlaybackRequestSequence::new("a", 2)), 1);
    let mut stale = request(qobuz_source(1, false));
    stale.guard =
        PlaybackGuard::from_expected_sequence(Some(PlaybackRequestSequence::new("a", 1)));
    let result = play_remote_agent(&stale, &sequencer, playback_config(), "http://core.test");
    assert!(
        matches!(result, Err(PlaybackError::Conflict(message)) if message == "Playback changed")
    );
}

#[test]
fn streams_are_requested_from_their_source() {
    let mut streamed = request(qobuz_source(9, false));
    let req = stream_request(&mut streamed).unwrap();
    assert_eq!(req.track_id, 9);
    assert_eq!(fallback_tags(&req).title.as_deref(), Some("Track 9"));
    let mut local = request(local_source(1, "a"));
    assert_eq!(
        stream_request(&mut local).unwrap_err().message(),
        "Qobuz source was not playable"
    );
}

#[test]
fn intents_have_names() {
    assert_eq!(intent_command(&PlaybackIntent::Next), "next");
    assert_eq!(
        intent_command(&PlaybackIntent::Play { request: request(qobuz_source(1, false)) }),
        "play"
    );
    assert_eq!(
        execute_immediate(&PlaybackIntent::SetLoopMode { mode: LoopMode::One }).unwrap(),
        LoopMode::One
    );
    assert_eq!(
        execute_immediate(&PlaybackIntent::Seek { seconds: real64(1.0) }).unwrap_err().message(),
        "Seek requires asynchronous execution"
    );
    assert_eq!(
        execute_immediate(&PlaybackIntent::Stop).unwrap_err().message(),
        "Playback intent requires asynchronous execution"
    );
}

#[test]
fn loop_modes_and_volumes_reach_their_output() {
    assert_eq!(
        set_loop_mode(ZoneSink::RemoteAgent, LoopMode::One, false).unwrap(),
        LoopRoute::Agent { repeat_one: true }
    );
    assert_eq!(set_loop_mode(ZoneSink::Upnp, LoopMode::One, false).unwrap(), LoopRoute::Nothing);
    assert!(matches!(
        set_loop_mode(ZoneSink::Local, LoopMode::Off, false),
        Err(PlaybackError::ZoneNotAvailable)
    ));
    let change = set_volume(real32(2.0));
    assert_eq!(change.player, real32(1.5));
    assert_eq!(change.speaker, real32(1.0));
    assert_eq!(set_volume(real32(-1.0)).player, real32(0.0));
    assert_eq!(set_volume(real32(f32::NAN)).speaker, real32(1.0));
    assert_eq!(set_volume(real32(0.25)).speaker, real32(0.25));
    let (route, volume) =
        set_device_volume(Ok(ZoneSink::Sonos), real32(1.5), false, None, false).unwrap();
    assert_eq!(route, DeviceVolumeRoute::Sonos);
    assert_eq!(volume, real32(1.0));
    let missing = || Err(PlaybackError::ZoneNotAvailable);
    assert!(matches!(
        set_device_volume(missing(), real32(f32::NAN), false, None, false),
        Err(PlaybackError::BadRequest(message)) if message == "Device volume must be finite"
    ));
    assert!(matches!(
        set_device_volume(missing(), real32(0.5), false, None, false),
        Err(PlaybackError::ZoneNotAvailable)
    ));
    assert_eq!(clamp_volume(real32(0.5), real32(-0.0)), real32(0.0));
    assert_eq!(clamp_volume(real32(0.5), real32(0.25)), real32(0.25));
    assert_eq!(normalized_hegel_volume(80, 50), 50);
    assert_eq!(normalized_hegel_volume(20, 50), 20);
}

#[test]
fn amplifier_is_muted_around_marked_playback() {
    assert!(matches!(
        begin_hegel_dop_mute_guard(true, false, None),
        MuteStep::NoGuard { note: None }
    ));
    assert!(matches!(
        begin_hegel_dop_mute_guard(true, true, None),
        MuteStep::NoGuard { note: Some("settings_missing") }
    ));
    assert!(matches!(
        after_mute_query(None, "h".to_string(), 1, 2),
        MuteStep::NoGuard { note: Some("query_failed") }
    ));
    assert!(matches!(after_mute_query(Some(Some(false)), "h".to_string(), 1, 2), MuteStep::Mute));
    match after_mute(true, "h".to_string(), 1, 2) {
        MuteStep::Guarded { note, guard } => {
            assert_eq!(note, "muted");
            let steps = finish_hegel_dop_mute_guard(Some(&guard)).unwrap();
            assert_eq!(steps.wait_for_play, Some(2));
            assert!(steps.unmute);
        }
        _ => panic!("a muted amplifier is guarded"),
    }
    assert!(finish_hegel_dop_mute_guard(None).is_none());
}

#[test]
fn now_playing_shows_fresh_metadata() {
    let mut fresh = local_source(5, "a.flac");
    if let SourceRef::LocalTrack { title, .. } = &mut fresh {
        *title = Some("Fresh".to_string());
    }
    let queued = source_ref_with_radio(local_source(5, "a.flac"), true);
    let shown = refresh_source_ref_metadata(queued, Some(fresh.clone()));
    assert!(shown.is_radio());
    assert!(matches!(&shown, SourceRef::LocalTrack { title: Some(title), .. } if title == "Fresh"));
    let response = now_playing_queue_for_zone(
        vec![QueuedSource { source: qobuz_source(2, false), found: None }],
        "Paused",
        Some(QueuedSource { source: local_source(5, "a.flac"), found: Some(fresh) }),
        Some(StoredQueue { state: rebuilt_queue_state(&qobuz_source(2, false), &[]), updated_at: 9 }),
    );
    assert_eq!(keys(&response.queued_sources), vec!["qobuz:2"]);
    assert_eq!(response.updated_at, Some(9));
    assert_eq!(response.current_source.map(|s| s.key()), Some("local:5".to_string()));
    let stopped = now_playing_queue_for_zone(
        Vec::new(),
        "Stopped",
        Some(QueuedSource { source: qobuz_source(1, false), found: None }),
        None,
    );
    assert!(stopped.current_source.is_none());
    assert!(stopped.state.is_none());
}

#[test]
fn queue_items_know_their_source() {
    assert_eq!(queue_item_source_key(&stored_local("A", 3)).as_deref(), Some("local:3"));
    let state = rebuilt_queue_state(&qobuz_source(1, false), &[local_source(2, "b")]);
    assert_eq!(state.kind, Some(QueueKind::Mixed));
    assert_eq!(state.items.len(), 2);
    assert_eq!(queue_item_source_key(&state.items[1]).as_deref(), Some("local:2"));
}

#[test]
fn requests_and_sources_convert_both_ways() {
    let queue = [qobuz_source(2, false), qobuz_source(3, true)];
    let req = qobuz_play_request_from_source_ref(&qobuz_source(1, false), &queue, true).unwrap();
    assert_eq!(req.track_id, 1);
    assert_eq!(qobuz_source_ref_from_play_request(&req).key(), "qobuz:1");
    assert_eq!(keys(&qobuz_queue_source_refs(&req)), vec!["qobuz:2", "qobuz:3"]);
    assert!(qobuz_play_request_from_source_ref(&local_source(1, "a"), &queue, true).is_none());
}

#[test]
fn prefetch_needs_a_queued_track_and_a_player() {
    let sequencer = PlaybackCommandSequencer::new();
    assert!(qobuz_queue_contains_track(&[qobuz_source(11, false)], 11));
    let queue = Ok(vec![qobuz_source(11, false)]);
    assert!(matches!(
        prefetch_qobuz_request_for_zone(
            &sequencer,
            None,
            &qobuz_play_request(11),
            &Err("no queue".to_string()),
            false,
            Some(SinkProtocol::UpnpAvRenderer),
            false,
        ),
        Err(PlaybackError::Library(message)) if message == "no queue"
    ));
    assert_eq!(
        prefetch_qobuz_request_for_zone(
            &sequencer,
            None,
            &qobuz_play_request(11),
            &queue,
            false,
            Some(SinkProtocol::UpnpAvRenderer),
            false,
        )
        .unwrap(),
        PrefetchRoute::Renderer
    );
    assert!(matches!(
        prefetch_qobuz_request_for_zone(
            &sequencer,
            None,
            &qobuz_play_request(11),
            &queue,
            false,
            Some(SinkProtocol::LocalCoreAudio),
            false,
        ),
        Err(PlaybackError::ZoneNotAvailable)
    ));
    assert_eq!(
        radio_exclude_track_ids(
            Some(1),
            Some(&qobuz_source(2, false)),
            &[qobuz_source(3, false), qobuz_source(1, false)],
            &[qobuz_source(4, false)],
        )
        .iter()
        .filter(|id| **id == 1)
        .count(),
        1
    );
}

#[test]
fn speakers_get_encoded_urls() {
    let url = sonos_stream_url("http://core.test", 5, "a b", "t/k");
    assert!(url.starts_with("http://core.test/"));
    assert!(url.contains("a%20b"));
    assert!(url.contains("t%2Fk"));
    assert!(sonos_art_url("http://core.test", "a b", "t").contains("a%20b"));
    assert_eq!(sonos_asset_file_name(None, "asset"), "sonos:asset");
    assert_eq!(sonos_asset_file_name(Some("Song".to_string()), "asset"), "Song");
    let queue: Vec<SourceRef> = (0..5).map(|id| qobuz_source(id, false)).collect();
    assert_eq!(sonos_prefetch_window(&queue).len(), SONOS_PREFETCH_WINDOW);
}

#[test]
fn appending_a_source_twice_appends_it_once() {
    let source = local_source(4, "d.flac");
    let once = append_source_to_now_playing_queue(None, &source);
    assert_eq!(once.items.len(), 1);
    assert_eq!(once.kind, Some(QueueKind::Local));
    let twice = append_source_to_now_playing_queue(Some(once), &source);
    assert_eq!(twice.items.len(), 1);
    assert_eq!(twice.kind, Some(QueueKind::Local));
    let mixed = append_source_to_now_playing_queue(Some(twice), &qobuz_source(5, false));
    assert_eq!(mixed.items.len(), 2);
    assert_eq!(mixed.kind, Some(QueueKind::Mixed));
}

#[test]
fn queued_files_are_looked_up_by_id_and_name() {
    assert_eq!(
        local_queue_item_from_source_ref(&local_source(4, "d.flac")),
        Some((Some(4), Some("d.flac".to_string())))
    );
    assert_eq!(
        local_queue_item_from_source_ref(&local_source(0, "d.flac")),
        Some((None, Some("d.flac".to_string())))
    );
    assert_eq!(local_queue_item_from_source_ref(&qobuz_source(4, false)), None);
    let path = || Some("/music/d.flac".to_string());
    let source = || Some(local_source(4, "d.flac"));
    let (item, found) = local_queue_entry_from_play_request(path(), source(), None).unwrap();
    assert_eq!(item.file_path, "/music/d.flac");
    assert!(item.fallback_tags.is_none());
    assert_eq!(found.key(), "local:4");
    assert!(local_queue_entry_from_play_request(None, source(), None).is_none());
    assert!(local_queue_entry_from_play_request(path(), None, None).is_none());
}
