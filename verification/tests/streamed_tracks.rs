use fozmo::audio::{Real64, TrackCover};
use fozmo::playback::error::PlaybackError;
use fozmo::playback::qobuz::{
    prefetch_qobuz_queue_track_into_player, prefetch_recheck, qobuz_repeat_current_prefetch_allowed,
    radio_exclude_track_ids, radio_prefetched_queue, radio_recommendation_request,
    sonos_prefetch_expected, unmarked_qobuz_play_would_replace_local_source, PrefetchRoute,
};
use fozmo::playback::queue::{player_queue_update, PlayerQueueUpdate};
use fozmo::playback::request::{PlaybackGuard, PlaybackRequest};
use fozmo::playback::sequencer::{PlaybackCommandSequencer, PlaybackRequestSequence};
use fozmo::playback::sinks::{
    intent_source_fields, local_track_is_radio, may_start, media_evidence_note, unmute_note,
    PlaybackIntent, StartStage,
};
use fozmo::playback::sonos::{
    play_sonos_source_for_zone, prefetch_sonos_next, sonos_local_source, sonos_source_from_ref,
    sonos_target_for_zone, SonosHandover, SonosSource,
};
use fozmo::playback::source::{
    qobuz_queue_track_from_source_ref, qobuz_track_id_from_source,
    source_ref_with_playlist_context, source_ref_with_radio, source_ref_with_radio_context,
    QobuzPlayRequest, QobuzTrack,
};
use fozmo::protocol::{PlaylistContext, RadioContext, RadioSeedContext, SourceRef};

fn real64(value: f64) -> Real64 {
    Real64 { bits: value.to_bits() }
}

fn streamed(track_id: u64) -> SourceRef {
    SourceRef::QobuzTrack {
        track_id,
        title: Some(format!("Track {track_id}")),
        artist: Some("Artist".to_string()),
        album: Some("Album".to_string()),
        album_id: None,
        image_url: Some("http://images.test/1.jpg".to_string()),
        duration_secs: Some(real64(180.0)),
        radio: false,
        radio_context: None,
        playlist_context: None,
    }
}

fn local(track_id: i64) -> SourceRef {
    SourceRef::LocalTrack {
        track_id,
        file_name: Some("a.flac".to_string()),
        title: Some("Title".to_string()),
        artist: Some("Artist".to_string()),
        album: Some("Album".to_string()),
        album_artist: None,
        album_id: None,
        art_id: None,
        duration_secs: Some(real64(60.0)),
        ext_hint: None,
        radio: false,
        radio_context: None,
        playlist_context: None,
    }
}

fn play_request(track_id: u64, replace_current: bool) -> QobuzPlayRequest {
    QobuzPlayRequest {
        track_id,
        title: None,
        artist: None,
        album: None,
        album_id: None,
        image_url: None,
        duration_secs: None,
        format_id: None,
        expected_current: None,
        radio_auto: false,
        replace_current,
        playlist_context: None,
        queue: Vec::new(),
    }
}

fn request(source: SourceRef, guard: PlaybackGuard) -> PlaybackRequest {
    PlaybackRequest {
        profile_id: "profile".to_string(),
        source,
        queue: vec![streamed(8)],
        radio_auto: false,
        guard,
        qobuz_request: None,
    }
}

fn is_conflict(error: PlaybackError, message: &str) -> bool {
    matches!(error, PlaybackError::Conflict(text) if text == message)
}

/// A sequencer that has seen number 2 of a client, and a guard of number 1.
fn superseded() -> (PlaybackCommandSequencer, PlaybackGuard) {
    let mut sequencer = PlaybackCommandSequencer::new();
    let older = PlaybackRequestSequence::new("client", 1);
    let newer = PlaybackRequestSequence::new("client", 2);
    assert!(sequencer.accept(Some(&older), 1));
    assert!(sequencer.accept(Some(&newer), 2));
    (sequencer, PlaybackGuard::from_expected_sequence(Some(older)))
}

#[test]
fn unmarked_play_does_not_stop_a_local_track() {
    let active = local(1);
    assert!(unmarked_qobuz_play_would_replace_local_source(&play_request(5, false), Some(&active)));
    assert!(!unmarked_qobuz_play_would_replace_local_source(&play_request(5, true), Some(&active)));
    let other = streamed(2);
    assert!(!unmarked_qobuz_play_would_replace_local_source(&play_request(5, false), Some(&other)));
    assert!(!unmarked_qobuz_play_would_replace_local_source(&play_request(5, false), None));
}

#[test]
fn repeated_track_may_be_prepared_again() {
    let active = streamed(5);
    assert!(qobuz_repeat_current_prefetch_allowed(true, Some(&active), 5));
    assert!(!qobuz_repeat_current_prefetch_allowed(true, Some(&active), 6));
    assert!(!qobuz_repeat_current_prefetch_allowed(false, Some(&active), 5));
    assert!(!qobuz_repeat_current_prefetch_allowed(true, Some(&local(5)), 5));
    assert!(!qobuz_repeat_current_prefetch_allowed(true, None, 5));
}

#[test]
fn prepared_radio_track_becomes_the_queue() {
    let queue = radio_prefetched_queue(PrefetchRoute::Player, true, streamed(5)).unwrap();
    assert_eq!(queue.len(), 1);
    assert_eq!(queue[0].key(), "qobuz:5");
    assert!(radio_prefetched_queue(PrefetchRoute::Player, false, streamed(5)).is_none());
    assert!(radio_prefetched_queue(PrefetchRoute::Renderer, true, streamed(5)).is_none());
}

#[test]
fn speaker_must_play_what_the_client_saw() {
    let current = Some("Now".to_string());
    assert_eq!(sonos_prefetch_expected(None, current.clone()).unwrap(), current);
    assert_eq!(sonos_prefetch_expected(current.clone(), current.clone()).unwrap(), current);
    let changed = sonos_prefetch_expected(Some("Before".to_string()), current);
    assert!(is_conflict(changed.unwrap_err(), "Current track changed"));
    let stopped = sonos_prefetch_expected(Some("Before".to_string()), None);
    assert!(is_conflict(stopped.unwrap_err(), "Current track changed"));
}

#[test]
fn prepared_track_is_checked_before_it_is_handed_over() {
    let sequencer = PlaybackCommandSequencer::new();
    assert!(prefetch_recheck(&PlaybackGuard::none(), &sequencer, true).is_ok());
    let moved = prefetch_recheck(&PlaybackGuard::none(), &sequencer, false);
    assert!(is_conflict(moved.unwrap_err(), "Playback changed"));
    let (sequencer, guard) = superseded();
    let stale = prefetch_recheck(&guard, &sequencer, true);
    assert!(is_conflict(stale.unwrap_err(), "Playback changed"));
}

#[test]
fn queued_track_is_prepared_behind_the_current_one() {
    let track = || qobuz_queue_track_from_source_ref(&streamed(5)).unwrap();
    let prepare = |available: bool, epoch: u64, matches: bool| {
        prefetch_qobuz_queue_track_into_player(
            available,
            epoch,
            7,
            matches,
            track(),
            "Now".to_string(),
            true,
        )
    };
    let made = prepare(true, 7, true).unwrap();
    assert_eq!(made.track_id, 5);
    assert_eq!(made.title.as_deref(), Some("Track 5"));
    assert_eq!(made.expected_current.as_deref(), Some("Now"));
    assert!(made.radio_auto);
    assert!(!made.replace_current);
    assert!(made.queue.is_empty());
    assert_eq!(prepare(false, 7, true).unwrap_err(), "Zone not available");
    assert_eq!(prepare(true, 8, true).unwrap_err(), "Playback changed");
    assert_eq!(prepare(true, 7, false).unwrap_err(), "Playback changed");
}

#[test]
fn recommendation_is_played_as_radio() {
    let recommended = |duration: u32| QobuzTrack {
        id: 9,
        title: "Next".to_string(),
        artist: "Artist".to_string(),
        album: "Album".to_string(),
        album_id: None,
        image_url: None,
        duration,
    };
    let made = radio_recommendation_request(Some(recommended(200))).unwrap();
    assert_eq!(made.track_id, 9);
    assert_eq!(made.title.as_deref(), Some("Next"));
    assert_eq!(made.duration_secs, Some(real64(200.0)));
    assert!(made.radio_auto);
    assert!(made.replace_current);
    let unknown = radio_recommendation_request(Some(recommended(0))).unwrap();
    assert_eq!(unknown.duration_secs, None);
    assert_eq!(
        radio_recommendation_request(None).unwrap_err(),
        "Qobuz radio returned no playable recommendation"
    );
}

#[test]
fn heard_tracks_are_excluded_once() {
    let queue = vec![streamed(3), local(4), streamed(2)];
    let recent = vec![streamed(3), streamed(6)];
    let ids = radio_exclude_track_ids(Some(1), Some(&streamed(2)), &queue, &recent);
    assert_eq!(ids, vec![1, 2, 3, 6]);
    let many: Vec<SourceRef> = (1..200).map(streamed).collect();
    assert_eq!(radio_exclude_track_ids(None, None, &many, &[]).len(), 100);
    assert!(radio_exclude_track_ids(Some(0), None, &[], &[]).is_empty());
}

#[test]
fn player_takes_files_or_prepares_a_stream() {
    let queue = vec![streamed(5)];
    let update = player_queue_update(false, Some(&streamed(1)), &queue, None, Some("Now".to_string()));
    match update {
        PlayerQueueUpdate::Prefetch { track, expected } => {
            assert_eq!(track.track_id, 5);
            assert_eq!(expected.as_deref(), Some("Now"));
        }
        PlayerQueueUpdate::SetQueue => panic!("a streaming player prepares the next stream"),
    }
    assert!(matches!(
        player_queue_update(false, Some(&local(1)), &queue, None, None),
        PlayerQueueUpdate::SetQueue
    ));
    assert!(matches!(
        player_queue_update(false, Some(&streamed(1)), &[local(2)], None, None),
        PlayerQueueUpdate::SetQueue
    ));
}

#[test]
fn intents_name_what_they_play() {
    let intent = PlaybackIntent::Play { request: request(streamed(5), PlaybackGuard::none()) };
    let fields = intent_source_fields(&intent);
    assert_eq!(fields.kind, "qobuz_track");
    assert_eq!(fields.qobuz_track_id, Some(5));
    assert_eq!(fields.local_track_id, None);
    assert_eq!(fields.queue_len, 1);
    let fields = intent_source_fields(&PlaybackIntent::Pause);
    assert_eq!(fields.kind, "none");
    assert_eq!(fields.queue_len, 0);
}

#[test]
fn player_starts_only_what_is_still_wanted() {
    let sequencer = PlaybackCommandSequencer::new();
    let free = PlaybackGuard::none();
    assert!(may_start(StartStage::Prepared, true, &free, &sequencer, false).is_ok());
    let changed = may_start(StartStage::Prepared, false, &free, &sequencer, false);
    assert!(is_conflict(changed.unwrap_err(), "Current track changed"));
    assert!(may_start(StartStage::Asked, true, &free, &sequencer, true).is_ok());
    let refused = may_start(StartStage::Asked, true, &free, &sequencer, false);
    assert!(is_conflict(refused.unwrap_err(), "Playback changed"));
    let (sequencer, guard) = superseded();
    let stale = may_start(StartStage::Prepared, true, &guard, &sequencer, false);
    assert!(is_conflict(stale.unwrap_err(), "Playback changed"));
}

#[test]
fn radio_sources_start_as_radio() {
    assert!(!local_track_is_radio(&request(local(1), PlaybackGuard::none())));
    let radio = source_ref_with_radio(local(1), true);
    assert!(local_track_is_radio(&request(radio, PlaybackGuard::none())));
    let mut marked = request(local(1), PlaybackGuard::none());
    marked.radio_auto = true;
    assert!(local_track_is_radio(&marked));
}

#[test]
fn mute_guard_leaves_notes() {
    assert_eq!(media_evidence_note(true), "media_ready");
    assert_eq!(media_evidence_note(false), "media_evidence_timeout");
    assert_eq!(unmute_note(true), "restored");
    assert_eq!(unmute_note(false), "restore_failed");
}

#[test]
fn speakers_play_files_and_streams() {
    assert_eq!(sonos_target_for_zone(Some(3)).unwrap(), 3);
    assert!(matches!(
        sonos_target_for_zone::<u8>(None),
        Err(PlaybackError::NotFound(message)) if message == "Sonos zone not available"
    ));
    let cover = TrackCover { mime: "image/png".to_string(), data: vec![1] };
    match sonos_local_source(&local(1), "/music/a.flac".to_string(), Some(cover)) {
        SonosSource::LocalFile { path, tags, cover } => {
            assert_eq!(path, "/music/a.flac");
            assert_eq!(tags.title.as_deref(), Some("Title"));
            assert_eq!(tags.duration_secs, None);
            assert_eq!(cover.map(|c| c.data), Some(vec![1]));
        }
        SonosSource::RemoteStream { .. } => panic!("a file is played as a file"),
    }
    let stream = |has_cover: bool| {
        sonos_source_from_ref(
            &streamed(5),
            5,
            "http://core.test/",
            "asset 1".to_string(),
            "t&k",
            "audio/flac".to_string(),
            44_100,
            16,
            has_cover,
        )
    };
    match stream(true) {
        SonosSource::RemoteStream { id, stream_url, art_url, source_rate, .. } => {
            assert_eq!(id, "asset 1");
            assert_eq!(
                stream_url,
                "http://core.test/sonos/qobuz/5?asset=asset%201&token=t%26k"
            );
            assert_eq!(
                art_url.as_deref(),
                Some("http://core.test/sonos/art/asset%201?token=t%26k")
            );
            assert_eq!(source_rate, 44_100);
        }
        SonosSource::LocalFile { .. } => panic!("a stream is played as a stream"),
    }
    match stream(false) {
        SonosSource::RemoteStream { art_url, .. } => {
            assert_eq!(art_url.as_deref(), Some("http://images.test/1.jpg"));
        }
        SonosSource::LocalFile { .. } => panic!("a stream is played as a stream"),
    }
}

#[test]
fn speakers_are_told_what_follows() {
    let (sequencer, guard) = superseded();
    assert!(play_sonos_source_for_zone(&PlaybackGuard::none(), &sequencer).is_ok());
    let stale = play_sonos_source_for_zone(&guard, &sequencer);
    assert!(is_conflict(stale.unwrap_err(), "Playback changed"));
    let free = PlaybackGuard::none();
    let step = |index: usize, prepared: bool, matches: bool| {
        prefetch_sonos_next(index, prepared, &free, &sequencer, matches)
    };
    assert_eq!(step(0, true, true), SonosHandover::SetNext);
    assert_eq!(step(1, true, true), SonosHandover::Append);
    assert_eq!(step(0, false, true), SonosHandover::StopWithNotice);
    assert_eq!(step(1, false, true), SonosHandover::Skip);
    assert_eq!(step(0, true, false), SonosHandover::Stop);
    assert_eq!(prefetch_sonos_next(1, true, &guard, &sequencer, true), SonosHandover::Stop);
}

#[test]
fn contexts_do_not_change_the_key() {
    let context = RadioContext {
        provider: "lastfm".to_string(),
        anchor: RadioSeedContext { title: None, artist: None, mbid: None },
        last_seed: RadioSeedContext { title: None, artist: None, mbid: None },
        hop: 1,
    };
    let source = source_ref_with_radio_context(streamed(5), Some(context));
    let list = PlaylistContext { playlist_id: " list ".to_string() };
    let source = source_ref_with_playlist_context(source, Some(list));
    assert_eq!(source.key(), "qobuz:5");
    assert_eq!(source.playlist_id(), Some("list"));
    assert_eq!(qobuz_track_id_from_source(&source), Some(5));
    assert_eq!(qobuz_track_id_from_source(&local(5)), None);
}
