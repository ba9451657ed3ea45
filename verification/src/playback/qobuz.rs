//! Streamed tracks: playing them, preparing the next one, and radio.

use crate::playback::error::{ErrorKind, PlaybackError};
use crate::playback::queue_state;
use crate::playback::request::{PlaybackGuard, PlaybackRequest};
use crate::playback::sequencer::{PlaybackCommandSequencer, PlaybackRequestSequence};
use crate::playback::source;
use crate::playback::source::{
    qobuz_play_request_from_source_ref, qobuz_queue_source_refs,
    qobuz_source_ref_from_play_request, qobuz_source_ref_from_track, QobuzPlayRequest,
    QobuzQueueTrack, QobuzTrack,
};
use crate::protocol::sink::SinkProtocol;
use crate::protocol::source::SourceRef;
use crate::text;
use vstd::prelude::*;

verus! {

/// A play command without the mark that it replaces what plays does not stop a
/// local track.
pub fn unmarked_qobuz_play_would_replace_local_source(
    req: &QobuzPlayRequest,
    active: Option<&SourceRef>,
) -> (r: bool)
    ensures
        r == (!req.replace_current && active is Some && *active->0 is LocalTrack),
{
    if req.replace_current {
        return false;
    }
    match active {
        Some(SourceRef::LocalTrack { .. }) => true,
        _ => false,
    }
}

/// `request` plays what a service request asks for.
pub open spec fn plays_request(
    request: PlaybackRequest,
    req: QobuzPlayRequest,
    profile_id: Seq<char>,
    sequence: Option<PlaybackRequestSequence>,
) -> bool {
    &&& request.profile_id@ == profile_id
    &&& request.source == source::spec_request_source(req)
    &&& request.queue@ == source::spec_request_queue(req)
    &&& request.radio_auto == req.radio_auto
    &&& request.guard.expected_sequence == sequence
    &&& request.qobuz_request == Some(req)
}

/// The playback request for a service request. Its number must be the newest
/// of its client, and the track that the client saw, if it says so, must still
/// be the current one. The number is noted before anything else.
pub fn play_qobuz_request_for_zone(
    sequencer: &mut PlaybackCommandSequencer,
    sequence: Option<PlaybackRequestSequence>,
    now: u64,
    profile_id: &str,
    req: QobuzPlayRequest,
    current_matches: bool,
) -> (r: Result<PlaybackRequest, PlaybackError>)
    requires
        old(sequencer).wf(),
    ensures
        final(sequencer).wf(),
        ({
            let stale = sequence is Some && old(sequencer).spec_stale(sequence->0);
            &&& stale ==> *final(sequencer) == *old(sequencer) && r is Err && r->Err_0.is(
                ErrorKind::Conflict,
                "Playback changed"@,
            )
            &&& sequence is None ==> *final(sequencer) == *old(sequencer)
            &&& sequence is Some && !stale ==> PlaybackCommandSequencer::noted(
                *old(sequencer),
                *final(sequencer),
                sequence->0,
                now,
            )
            &&& !stale && req.expected_current is Some && !current_matches ==> r is Err
                && r->Err_0.is(ErrorKind::Conflict, "Current track changed"@)
            &&& !stale && (req.expected_current is None || current_matches) ==> r is Ok
                && plays_request(r->Ok_0, req, profile_id@, sequence)
        }),
{
    let accepted = match &sequence {
        Some(numbered) => sequencer.accept(Some(numbered), now),
        None => true,
    };
    if !accepted {
        return Err(PlaybackError::conflict("Playback changed"));
    }
    if req.expected_current.is_some() && !current_matches {
        return Err(PlaybackError::conflict("Current track changed"));
    }
    let queue = qobuz_queue_source_refs(&req);
    let source = qobuz_source_ref_from_play_request(&req);
    let radio_auto = req.radio_auto;
    Ok(
        PlaybackRequest {
            profile_id: profile_id.to_string(),
            source,
            queue,
            radio_auto,
            guard: PlaybackGuard::from_expected_sequence(sequence),
            qobuz_request: Some(req),
        },
    )
}

/// The queue holds a streamed track.
pub open spec fn queue_has_track(queue: Seq<SourceRef>, track_id: u64) -> bool {
    exists|i: int|
        0 <= i < queue.len() && (#[trigger] queue[i]).spec_qobuz_track_id() == Some(track_id)
}

/// Whether the queue holds a streamed track.
pub fn qobuz_queue_contains_track(queue: &[SourceRef], track_id: u64) -> (r: bool)
    ensures
        r == queue_has_track(queue@, track_id),
{
    let mut i: usize = 0;
    while i < queue.len()
        invariant
            i <= queue@.len(),
            forall|k: int|
                0 <= k < i ==> (#[trigger] queue@[k]).spec_qobuz_track_id() != Some(track_id),
        decreases queue@.len() - i,
    {
        match queue[i].qobuz_track_id() {
            Some(id) => {
                if id == track_id {
                    return true;
                }
            },
            None => {},
        }
        i = i + 1;
    }
    false
}

/// Whether the current track may be prepared once more: the queue repeats, and
/// it is that track.
pub fn qobuz_repeat_current_prefetch_allowed(
    loop_enabled: bool,
    active: Option<&SourceRef>,
    track_id: u64,
) -> (r: bool)
    ensures
        r == (loop_enabled && active is Some && active->0.spec_qobuz_track_id() == Some(track_id)),
{
    if !loop_enabled {
        return false;
    }
    match active {
        Some(active) => match active.qobuz_track_id() {
            Some(id) => id == track_id,
            None => false,
        },
        None => false,
    }
}

/// Where a track is prepared.
#[derive(Clone, Copy, Debug, PartialEq, Eq, Structural)]
pub enum PrefetchRoute {
    Agent,
    Renderer,
    Sonos,
    Player,
}

pub open spec fn spec_prefetch_route(protocol: Option<SinkProtocol>) -> PrefetchRoute {
    match protocol {
        Some(SinkProtocol::RemoteAgent) => PrefetchRoute::Agent,
        Some(SinkProtocol::UpnpAvRenderer) => PrefetchRoute::Renderer,
        Some(SinkProtocol::SonosUpnp) => PrefetchRoute::Sonos,
        _ => PrefetchRoute::Player,
    }
}

/// The track is still wanted: it is queued, or it repeats, or nothing is
/// queued and radio goes on with it.
pub open spec fn still_wanted(
    queue: Seq<SourceRef>,
    track_id: u64,
    radio_auto: bool,
    repeats: bool,
) -> bool {
    repeats || (if queue.len() == 0 {
        radio_auto
    } else {
        queue_has_track(queue, track_id)
    })
}

/// Where a track is prepared. The command must not be stale, the queue must be
/// readable and the track still be wanted, and a zone that needs a player must
/// have one.
pub fn prefetch_qobuz_request_for_zone(
    sequencer: &PlaybackCommandSequencer,
    sequence: Option<&PlaybackRequestSequence>,
    req: &QobuzPlayRequest,
    queue: &Result<Vec<SourceRef>, String>,
    repeats: bool,
    protocol: Option<SinkProtocol>,
    player_available: bool,
) -> (r: Result<PrefetchRoute, PlaybackError>)
    requires
        sequencer.wf(),
    ensures
        ({
            let stale = sequence is Some && sequencer.spec_stale(*sequence->0);
            let wanted = queue is Ok && still_wanted(
                queue->Ok_0@,
                req.track_id,
                req.radio_auto,
                repeats,
            );
            let route = spec_prefetch_route(protocol);
            let missing = route == PrefetchRoute::Player && !player_available;
            &&& r is Ok <==> !stale && wanted && !missing
            &&& r is Ok ==> r->Ok_0 == route
            &&& stale ==> r is Err && r->Err_0.is(ErrorKind::Conflict, "Playback changed"@)
            &&& !stale && queue is Err ==> r is Err && r->Err_0.is(
                ErrorKind::Library,
                queue->Err_0@,
            )
            &&& !stale && queue is Ok && !wanted ==> r is Err && r->Err_0.is(
                ErrorKind::Conflict,
                "Track is no longer queued"@,
            )
            &&& !stale && wanted && missing ==> r is Err && r->Err_0 is ZoneNotAvailable
        }),
{
    if sequencer.is_stale(sequence) {
        return Err(PlaybackError::conflict("Playback changed"));
    }
    let queue = match queue {
        Ok(queue) => queue,
        Err(error) => return Err(PlaybackError::Library(error.clone())),
    };
    if queue.len() == 0 {
        if !req.radio_auto && !repeats {
            return Err(PlaybackError::conflict("Track is no longer queued"));
        }
    } else if !qobuz_queue_contains_track(queue.as_slice(), req.track_id) && !repeats {
        return Err(PlaybackError::conflict("Track is no longer queued"));
    }
    let route = match protocol {
        Some(SinkProtocol::RemoteAgent) => PrefetchRoute::Agent,
        Some(SinkProtocol::UpnpAvRenderer) => PrefetchRoute::Renderer,
        Some(SinkProtocol::SonosUpnp) => PrefetchRoute::Sonos,
        _ => PrefetchRoute::Player,
    };
    if route == PrefetchRoute::Player && !player_available {
        return Err(PlaybackError::ZoneNotAvailable);
    }
    Ok(route)
}

/// The queue that a prepared radio track becomes when nothing is queued; a
/// renderer is told of its next track another way.
pub fn radio_prefetched_queue(route: PrefetchRoute, queue_empty: bool, source: SourceRef) -> (r:
    Option<Vec<SourceRef>>)
    ensures
        r is Some <==> queue_empty && route != PrefetchRoute::Renderer,
        r is Some ==> r->0@ == seq![source],
{
    if !queue_empty || route == PrefetchRoute::Renderer {
        return None;
    }
    let mut queue: Vec<SourceRef> = Vec::new();
    queue.push(source);
    proof {
        assert(queue@ =~= seq![source]);
    }
    Some(queue)
}

/// The track that a speaker must be playing when the next one is prepared:
/// the one that the client saw, or the current one.
pub fn sonos_prefetch_expected(expected_current: Option<String>, current: Option<String>) -> (r:
    Result<Option<String>, PlaybackError>)
    ensures
        expected_current is None ==> r == Ok::<Option<String>, PlaybackError>(current),
        expected_current is Some && text::opt_text(current) == Some(expected_current->0@) ==> r
            == Ok::<Option<String>, PlaybackError>(expected_current),
        expected_current is Some && text::opt_text(current) != Some(expected_current->0@) ==> r
            is Err && r->Err_0.is(ErrorKind::Conflict, "Current track changed"@),
{
    match expected_current {
        Some(expected) => {
            let same = match &current {
                Some(playing) => *playing == expected,
                None => false,
            };
            if !same {
                return Err(PlaybackError::conflict("Current track changed"));
            }
            Ok(Some(expected))
        },
        None => Ok(current),
    }
}

/// Whether a prepared track may still be handed over: the command is current,
/// and playback has not moved on meanwhile.
pub fn prefetch_recheck(
    guard: &PlaybackGuard,
    sequencer: &PlaybackCommandSequencer,
    unchanged: bool,
) -> (r: Result<(), PlaybackError>)
    requires
        sequencer.wf(),
    ensures
        r is Ok <==> guard.spec_current(*sequencer) && unchanged,
        r is Err ==> r->Err_0.is(ErrorKind::Conflict, "Playback changed"@),
{
    if !guard.is_current(sequencer) || !unchanged {
        return Err(PlaybackError::conflict("Playback changed"));
    }
    Ok(())
}

/// The file name that the player must be playing when it takes the prepared
/// track: the client may have named the track by its key, so the player's own
/// name for it counts.
pub fn qobuz_prefetch_command_expected_current(
    current_matches: bool,
    expected_current: Option<String>,
    player_file_name: Option<String>,
) -> (r: Result<Option<String>, PlaybackError>)
    ensures
        r is Ok <==> current_matches,
        r is Err ==> r->Err_0.is(ErrorKind::Conflict, "Current track changed"@),
        r is Ok ==> r->Ok_0 == (if expected_current is None {
            None
        } else if player_file_name is Some {
            player_file_name
        } else {
            expected_current
        }),
{
    if !current_matches {
        return Err(PlaybackError::conflict("Current track changed"));
    }
    match expected_current {
        Some(expected) => Ok(
            Some(
                match player_file_name {
                    Some(name) => name,
                    None => expected,
                },
            ),
        ),
        None => Ok(None),
    }
}

/// `req` asks for a queued track behind the given current one.
pub open spec fn is_prefetch_request(
    req: QobuzPlayRequest,
    track: QobuzQueueTrack,
    expected_current: String,
    fallback_radio: bool,
) -> bool {
    &&& req == QobuzPlayRequest {
        track_id: track.track_id,
        title: track.title,
        artist: track.artist,
        album: track.album,
        album_id: track.album_id,
        image_url: track.image_url,
        duration_secs: track.duration_secs,
        format_id: track.format_id,
        expected_current: Some(expected_current),
        radio_auto: track.radio || fallback_radio,
        replace_current: false,
        playlist_context: track.playlist_context,
        queue: req.queue,
    }
    &&& req.queue@.len() == 0
}

/// The request for a queued track that is prepared behind the current one. The
/// player must be there, and still be playing what it played when the queue
/// was set.
pub fn prefetch_qobuz_queue_track_into_player(
    player_available: bool,
    epoch: u64,
    expected_epoch: u64,
    current_matches: bool,
    track: QobuzQueueTrack,
    expected_current: String,
    fallback_radio: bool,
) -> (r: Result<QobuzPlayRequest, String>)
    ensures
        r is Ok <==> player_available && epoch == expected_epoch && current_matches,
        r is Ok ==> is_prefetch_request(r->Ok_0, track, expected_current, fallback_radio),
        r is Err ==> r->Err_0@ == (if !player_available {
            "Zone not available"@
        } else {
            "Playback changed"@
        }),
{
    if !player_available {
        return Err("Zone not available".to_string());
    }
    if epoch != expected_epoch || !current_matches {
        return Err("Playback changed".to_string());
    }
    Ok(
        QobuzPlayRequest {
            track_id: track.track_id,
            title: track.title,
            artist: track.artist,
            album: track.album,
            album_id: track.album_id,
            image_url: track.image_url,
            duration_secs: track.duration_secs,
            format_id: track.format_id,
            expected_current: Some(expected_current),
            radio_auto: track.radio || fallback_radio,
            replace_current: false,
            playlist_context: track.playlist_context,
            queue: Vec::new(),
        },
    )
}

/// What the service's radio starts from.
#[derive(Debug)]
pub enum RadioSeed {
    Track(u64),
    Artist(String),
}

/// What the service's radio starts from, if it is wanted: it is switched on,
/// nothing is queued, and the active source gives a track or an artist. A
/// queue that cannot be read counts as empty.
pub fn qobuz_radio_next_request_from_source_for_zone(
    radio_enabled: bool,
    stored_queue_len: Option<usize>,
    active: &SourceRef,
) -> (r: Option<RadioSeed>)
    ensures
        ({
            let wanted = radio_enabled && !(stored_queue_len is Some && stored_queue_len->0 > 0);
            match *active {
                SourceRef::QobuzTrack { track_id, .. } => r == (if wanted {
                    Some(RadioSeed::Track(track_id))
                } else {
                    None
                }),
                SourceRef::LocalTrack { artist, .. } => {
                    &&& r is Some <==> wanted && queue_state::shown(artist) is Some
                    &&& r is Some ==> r->0 is Artist && r->0->Artist_0@ == queue_state::shown(
                        artist,
                    )->0
                },
            }
        }),
{
    if !radio_enabled {
        return None;
    }
    match stored_queue_len {
        Some(len) => {
            if len > 0 {
                return None;
            }
        },
        None => {},
    }
    match active {
        SourceRef::QobuzTrack { track_id, .. } => Some(RadioSeed::Track(*track_id)),
        SourceRef::LocalTrack { artist, .. } => match artist {
            Some(name) => {
                let trimmed = name.as_str().trim();
                if trimmed.is_empty() {
                    None
                } else {
                    Some(RadioSeed::Artist(trimmed.to_string()))
                }
            },
            None => None,
        },
    }
}

/// The request that plays what the radio recommended: the track, as radio,
/// with nothing behind it.
pub fn radio_recommendation_request(recommended: Option<QobuzTrack>) -> (r: Result<
    QobuzPlayRequest,
    String,
>)
    ensures
        r is Ok <==> recommended is Some,
        r is Err ==> r->Err_0@ == "Qobuz radio returned no playable recommendation"@,
        r is Ok ==> ({
            let track = recommended->0;
            &&& r->Ok_0.track_id == track.id
            &&& r->Ok_0.title == Some(track.title)
            &&& r->Ok_0.artist == Some(track.artist)
            &&& r->Ok_0.album == Some(track.album)
            &&& r->Ok_0.album_id == track.album_id
            &&& r->Ok_0.image_url == track.image_url
            &&& r->Ok_0.duration_secs is Some <==> track.duration > 0
            &&& track.duration > 0 ==> r->Ok_0.duration_secs->0.is_whole(track.duration)
            &&& r->Ok_0.radio_auto
            &&& r->Ok_0.replace_current
            &&& r->Ok_0.format_id is None
            &&& r->Ok_0.expected_current is None
            &&& r->Ok_0.playlist_context is None
            &&& r->Ok_0.queue@.len() == 0
        }),
{
    match recommended {
        Some(track) => {
            let source = qobuz_source_ref_from_track(&track, true);
            let none: Vec<SourceRef> = Vec::new();
            match qobuz_play_request_from_source_ref(&source, none.as_slice(), true) {
                Some(req) => Ok(req),
                None => Err("Qobuz radio recommendation was not playable".to_string()),
            }
        },
        None => Err("Qobuz radio returned no playable recommendation".to_string()),
    }
}

/// The positive ids among `ids`, each once, in the order of their first
/// occurrence.
pub open spec fn distinct_ids(ids: Seq<u64>) -> Seq<u64>
    decreases ids.len(),
{
    if ids.len() == 0 {
        Seq::empty()
    } else {
        let before = distinct_ids(ids.drop_last());
        if ids.last() > 0 && !before.contains(ids.last()) {
            before.push(ids.last())
        } else {
            before
        }
    }
}

/// The ids of the streamed sources, in order.
pub open spec fn track_ids(sources: Seq<SourceRef>) -> Seq<u64>
    decreases sources.len(),
{
    if sources.len() == 0 {
        Seq::empty()
    } else {
        let before = track_ids(sources.drop_last());
        match sources.last().spec_qobuz_track_id() {
            Some(id) => before.push(id),
            None => before,
        }
    }
}

fn has_id(ids: &Vec<u64>, id: u64) -> (r: bool)
    ensures
        r == ids@.contains(id),
{
    let mut i: usize = 0;
    while i < ids.len()
        invariant
            i <= ids@.len(),
            forall|k: int| 0 <= k < i ==> ids@[k] != id,
        decreases ids@.len() - i,
    {
        if ids[i] == id {
            proof {
                assert(ids@[i as int] == id);
            }
            return true;
        }
        i = i + 1;
    }
    false
}

fn push_distinct(out: &mut Vec<u64>, id: u64, Ghost(ids): Ghost<Seq<u64>>)
    requires
        old(out)@ == distinct_ids(ids),
    ensures
        final(out)@ == distinct_ids(ids.push(id)),
{
    proof {
        assert(ids.push(id).drop_last() =~= ids);
    }
    if id > 0 && !has_id(out, id) {
        out.push(id);
    }
}

fn push_tracks(out: &mut Vec<u64>, sources: &[SourceRef], Ghost(ids): Ghost<Seq<u64>>)
    requires
        old(out)@ == distinct_ids(ids),
    ensures
        final(out)@ == distinct_ids(ids + track_ids(sources@)),
{
    let mut i: usize = 0;
    proof {
        assert(ids + track_ids(sources@.take(0)) =~= ids);
    }
    while i < sources.len()
        invariant
            i <= sources@.len(),
            out@ == distinct_ids(ids + track_ids(sources@.take(i as int))),
        decreases sources@.len() - i,
    {
        let ghost so_far = ids + track_ids(sources@.take(i as int));
        proof {
            assert(sources@.take(i + 1).drop_last() =~= sources@.take(i as int));
        }
        match sources[i].qobuz_track_id() {
            Some(id) => {
                push_distinct(out, id, Ghost(so_far));
                proof {
                    assert(so_far.push(id) =~= ids + track_ids(sources@.take(i + 1)));
                }
            },
            None => {},
        }
        i = i + 1;
    }
    proof {
        assert(sources@.take(i as int) =~= sources@);
    }
}

/// What radio must not recommend again: the seed, what plays, what is queued
/// and what was played lately.
pub open spec fn heard_ids(
    seed: Option<u64>,
    active: Option<SourceRef>,
    queue: Seq<SourceRef>,
    recent: Seq<SourceRef>,
) -> Seq<u64> {
    (match seed {
        Some(id) => seq![id],
        None => Seq::empty(),
    }) + (match active {
        Some(s) => track_ids(seq![s]),
        None => Seq::empty(),
    }) + track_ids(queue) + track_ids(recent)
}

/// The first hundred of the ids, or all of them.
pub open spec fn at_most_hundred(ids: Seq<u64>) -> Seq<u64> {
    if ids.len() <= 100 {
        ids
    } else {
        ids.take(100)
    }
}

/// What radio must not recommend again: each id once, at most a hundred.
pub fn radio_exclude_track_ids(
    seed_track_id: Option<u64>,
    active: Option<&SourceRef>,
    queue: &[SourceRef],
    recent: &[SourceRef],
) -> (r: Vec<u64>)
    ensures
        r@ == at_most_hundred(
            distinct_ids(
                heard_ids(
                    seed_track_id,
                    (match active {
                        Some(s) => Some(*s),
                        None => None,
                    }),
                    queue@,
                    recent@,
                ),
            ),
        ),
{
    let mut out: Vec<u64> = Vec::new();
    let ghost mut ids: Seq<u64> = Seq::empty();
    match seed_track_id {
        Some(id) => {
            push_distinct(&mut out, id, Ghost(ids));
            proof {
                ids = ids.push(id);
            }
        },
        None => {},
    }
    let ghost seeded = (match seed_track_id {
        Some(id) => seq![id],
        None => Seq::empty(),
    });
    proof {
        assert(ids =~= seeded);
    }
    let ghost playing = (match active {
        Some(s) => track_ids(seq![*s]),
        None => Seq::empty(),
    });
    match active {
        Some(s) => match s.qobuz_track_id() {
            Some(id) => {
                push_distinct(&mut out, id, Ghost(ids));
                proof {
                    assert(seq![*s].drop_last() =~= Seq::<SourceRef>::empty());
                    assert(track_ids(Seq::<SourceRef>::empty()) =~= Seq::<u64>::empty());
                    assert(playing =~= seq![id]);
                    assert(ids.push(id) =~= seeded + playing);
                }
            },
            None => {
                proof {
                    assert(seq![*s].drop_last() =~= Seq::<SourceRef>::empty());
                    assert(track_ids(Seq::<SourceRef>::empty()) =~= Seq::<u64>::empty());
                    assert(seq![*s].last() == *s);
                    assert(playing =~= Seq::<u64>::empty());
                    assert(ids =~= seeded + playing);
                }
            },
        },
        None => {
            proof {
                assert(ids =~= seeded + playing);
            }
        },
    }
    proof {
        ids = seeded + playing;
    }
    push_tracks(&mut out, queue, Ghost(ids));
    proof {
        ids = ids + track_ids(queue@);
    }
    push_tracks(&mut out, recent, Ghost(ids));
    if out.len() > 100 {
        out.truncate(100);
    }
    out
}

/// No id is excluded twice, and none is zero.
pub proof fn law_excluded_ids_are_distinct(ids: Seq<u64>, i: int, j: int)
    requires
        0 <= i < j < at_most_hundred(distinct_ids(ids)).len(),
    ensures
        at_most_hundred(distinct_ids(ids))[i] != at_most_hundred(distinct_ids(ids))[j],
        at_most_hundred(distinct_ids(ids))[i] > 0,
        at_most_hundred(distinct_ids(ids)).len() <= 100,
{
    lemma_distinct(ids);
}

proof fn lemma_distinct(ids: Seq<u64>)
    ensures
        forall|i: int, j: int|
            0 <= i < j < distinct_ids(ids).len() ==> #[trigger] distinct_ids(ids)[i]
                != #[trigger] distinct_ids(ids)[j],
        forall|i: int| 0 <= i < distinct_ids(ids).len() ==> #[trigger] distinct_ids(ids)[i] > 0,
        forall|id: u64| id > 0 && ids.contains(id) ==> distinct_ids(ids).contains(id),
    decreases ids.len(),
{
    if ids.len() > 0 {
        let init = ids.drop_last();
        lemma_distinct(init);
        let before = distinct_ids(init);
        let after = distinct_ids(ids);
        assert forall|i: int, j: int| 0 <= i < j < after.len() implies #[trigger] after[i]
            != #[trigger] after[j] by {
            assert(after[i] == before[i]);
            if j < before.len() {
                assert(after[j] == before[j]);
            } else {
                assert(before.contains(before[i]));
            }
        }
        assert forall|id: u64| id > 0 && ids.contains(id) implies after.contains(id) by {
            let k = choose|k: int| 0 <= k < ids.len() && ids[k] == id;
            if k < init.len() {
                assert(init[k] == id);
                assert(init.contains(id));
                let m = choose|m: int| 0 <= m < before.len() && before[m] == id;
                assert(after[m] == id);
            } else if before.contains(id) {
                let m = choose|m: int| 0 <= m < before.len() && before[m] == id;
                assert(after[m] == id);
            } else {
                assert(after[after.len() - 1] == id);
            }
        }
    }
}

/// While at most a hundred tracks were heard, radio recommends none of them
/// again.
pub proof fn law_heard_tracks_are_excluded(
    seed: Option<u64>,
    active: Option<SourceRef>,
    queue: Seq<SourceRef>,
    recent: Seq<SourceRef>,
    id: u64,
)
    requires
        id > 0,
        heard_ids(seed, active, queue, recent).contains(id),
        distinct_ids(heard_ids(seed, active, queue, recent)).len() <= 100,
    ensures
        at_most_hundred(distinct_ids(heard_ids(seed, active, queue, recent))).contains(id),
{
    lemma_distinct(heard_ids(seed, active, queue, recent));
}

/// The seed of a radio is always excluded.
pub proof fn law_seed_is_excluded(
    seed: u64,
    active: Option<SourceRef>,
    queue: Seq<SourceRef>,
    recent: Seq<SourceRef>,
)
    requires
        seed > 0,
    ensures
        at_most_hundred(distinct_ids(heard_ids(Some(seed), active, queue, recent))).contains(seed),
{
    let ids = heard_ids(Some(seed), active, queue, recent);
    assert(ids[0] == seed);
    lemma_first_stays_first(ids);
    assert(distinct_ids(ids)[0] == seed);
    assert(at_most_hundred(distinct_ids(ids))[0] == seed);
}

proof fn lemma_first_stays_first(ids: Seq<u64>)
    requires
        ids.len() > 0,
        ids[0] > 0,
    ensures
        distinct_ids(ids).len() > 0,
        distinct_ids(ids)[0] == ids[0],
    decreases ids.len(),
{
    if ids.len() > 1 {
        lemma_first_stays_first(ids.drop_last());
    } else {
        assert(ids.drop_last() =~= Seq::<u64>::empty());
        assert(distinct_ids(ids.drop_last()) =~= Seq::<u64>::empty());
    }
}

/// A request is played for its listener as the track that it names, with its
/// queue, under its number.
pub proof fn law_request_is_played_as_named(
    request: PlaybackRequest,
    req: QobuzPlayRequest,
    profile_id: Seq<char>,
    sequence: Option<PlaybackRequestSequence>,
)
    requires
        plays_request(request, req, profile_id, sequence),
    ensures
        request.profile_id@ == profile_id,
        request.source.spec_qobuz_track_id() == Some(req.track_id),
        request.source->QobuzTrack_title == req.title,
        request.queue@.len() == req.queue@.len(),
        forall|i: int|
            0 <= i < req.queue@.len() ==> (#[trigger] request.queue@[i]).spec_qobuz_track_id()
                == Some(req.queue@[i].track_id),
        request.radio_auto == req.radio_auto,
        request.guard.expected_sequence == sequence,
        request.qobuz_request == Some(req),
{
}

/// A play that does not say so never replaces a track of the library.
pub proof fn law_library_tracks_are_not_replaced_unasked(
    req: QobuzPlayRequest,
    active: SourceRef,
    r: bool,
)
    requires
        call_ensures(unmarked_qobuz_play_would_replace_local_source, (&req, Some(&active)), r),
    ensures
        active is LocalTrack && !req.replace_current ==> r,
        active is QobuzTrack || req.replace_current ==> !r,
{
}

/// Each protocol is prefetched for where its sink is.
pub proof fn law_prefetch_goes_where_the_zone_plays(protocol: Option<SinkProtocol>)
    ensures
        spec_prefetch_route(protocol) is Agent <==> protocol == Some(SinkProtocol::RemoteAgent),
        spec_prefetch_route(protocol) is Renderer <==> protocol == Some(
            SinkProtocol::UpnpAvRenderer,
        ),
        spec_prefetch_route(protocol) is Sonos <==> protocol == Some(SinkProtocol::SonosUpnp),
{
}

/// A track is worth preparing while the queue holds it, while it repeats, or
/// while a radio fills an empty queue.
pub proof fn law_queued_tracks_are_still_wanted(
    queue: Seq<SourceRef>,
    track_id: u64,
    radio_auto: bool,
    i: int,
)
    ensures
        still_wanted(queue, track_id, radio_auto, true),
        0 <= i < queue.len() && queue[i].spec_qobuz_track_id() == Some(track_id) ==> still_wanted(
            queue,
            track_id,
            radio_auto,
            false,
        ),
        queue.len() > 0 && still_wanted(queue, track_id, radio_auto, false) ==> exists|k: int|
            0 <= k < queue.len() && (#[trigger] queue[k]).spec_qobuz_track_id() == Some(track_id),
        queue.len() == 0 ==> (still_wanted(queue, track_id, radio_auto, false) <==> radio_auto),
{
}

/// A repeating track may be prepared again only while it is the one that plays.
pub proof fn law_only_playing_track_repeats(
    loop_enabled: bool,
    active: SourceRef,
    track_id: u64,
    r: bool,
)
    requires
        call_ensures(
            qobuz_repeat_current_prefetch_allowed,
            (loop_enabled, Some(&active), track_id),
            r,
        ),
    ensures
        r <==> loop_enabled && active.spec_qobuz_track_id() == Some(track_id),
{
}

/// A prepared track is asked for with its own tags, behind the track that
/// plays, which it does not replace.
pub proof fn law_prepared_track_is_the_queued_one(
    player_available: bool,
    epoch: u64,
    expected_epoch: u64,
    current_matches: bool,
    track: QobuzQueueTrack,
    expected_current: String,
    fallback_radio: bool,
    r: Result<QobuzPlayRequest, String>,
)
    requires
        call_ensures(
            prefetch_qobuz_queue_track_into_player,
            (
                player_available,
                epoch,
                expected_epoch,
                current_matches,
                track,
                expected_current,
                fallback_radio,
            ),
            r,
        ),
    ensures
        r is Ok <==> player_available && epoch == expected_epoch && current_matches,
        r is Ok ==> {
            &&& r->Ok_0.track_id == track.track_id
            &&& r->Ok_0.title == track.title
            &&& r->Ok_0.artist == track.artist
            &&& r->Ok_0.album == track.album
            &&& r->Ok_0.album_id == track.album_id
            &&& r->Ok_0.image_url == track.image_url
            &&& r->Ok_0.duration_secs == track.duration_secs
            &&& r->Ok_0.format_id == track.format_id
            &&& r->Ok_0.playlist_context == track.playlist_context
            &&& r->Ok_0.expected_current == Some(expected_current)
            &&& r->Ok_0.radio_auto == (track.radio || fallback_radio)
            &&& !r->Ok_0.replace_current
            &&& r->Ok_0.queue@.len() == 0
        },
{
}

/// A radio goes on from the streamed track that plays, or from the artist of
/// the library's, once the queue is empty.
pub proof fn law_radio_goes_on_from_what_plays(
    stored_queue_len: Option<usize>,
    active: SourceRef,
    r: Option<RadioSeed>,
)
    requires
        call_ensures(
            qobuz_radio_next_request_from_source_for_zone,
            (true, stored_queue_len, &active),
            r,
        ),
    ensures
        stored_queue_len is Some && stored_queue_len->0 > 0 ==> r is None,
        stored_queue_len is None || stored_queue_len->0 == 0 ==> match active {
            SourceRef::QobuzTrack { track_id, .. } => r == Some(RadioSeed::Track(track_id)),
            SourceRef::LocalTrack { artist, .. } => {
                &&& artist is None ==> r is None
                &&& artist is Some && artist->0@.len() > 0 && text::is_trimmed(artist->0@) ==> r
                    is Some && r->0 is Artist && r->0->Artist_0@ == artist->0@
            },
        },
{
    if active is LocalTrack && active->LocalTrack_artist is Some {
        text::law_trimmed(active->LocalTrack_artist->0@);
    }
}

/// A recommended track is asked for as the service described it, for a radio.
pub proof fn law_recommended_track_is_requested(
    track: QobuzTrack,
    r: Result<QobuzPlayRequest, String>,
)
    requires
        call_ensures(radio_recommendation_request, (Some(track),), r),
    ensures
        r is Ok,
        r->Ok_0.track_id == track.id,
        r->Ok_0.title == Some(track.title),
        r->Ok_0.artist == Some(track.artist),
        r->Ok_0.album == Some(track.album),
        r->Ok_0.album_id == track.album_id,
        r->Ok_0.image_url == track.image_url,
        r->Ok_0.radio_auto,
{
}

proof fn lemma_track_ids(sources: Seq<SourceRef>, i: int, id: u64)
    requires
        0 <= i < sources.len(),
        sources[i].spec_qobuz_track_id() == Some(id),
    ensures
        track_ids(sources).contains(id),
    decreases sources.len(),
{
    let init = sources.drop_last();
    if i < init.len() {
        assert(init[i] == sources[i]);
        lemma_track_ids(init, i, id);
        let k = choose|k: int| 0 <= k < track_ids(init).len() && track_ids(init)[k] == id;
        assert(track_ids(sources)[k] == id);
    } else {
        assert(track_ids(sources).last() == id);
    }
}


/// What plays, what is queued and what was heard of late has been heard.
pub proof fn law_heard_tracks_are_known(
    seed: Option<u64>,
    active: Option<SourceRef>,
    queue: Seq<SourceRef>,
    recent: Seq<SourceRef>,
    id: u64,
    i: int,
)
    ensures
        ({
            let heard = heard_ids(seed, active, queue, recent);
            &&& seed == Some(id) ==> heard.contains(id)
            &&& active is Some && active->0.spec_qobuz_track_id() == Some(id) ==> heard.contains(id)
            &&& 0 <= i < queue.len() && queue[i].spec_qobuz_track_id() == Some(id)
                ==> heard.contains(id)
            &&& 0 <= i < recent.len() && recent[i].spec_qobuz_track_id() == Some(id)
                ==> heard.contains(id)
        }),
{
    let first = (match seed {
        Some(n) => seq![n],
        None => Seq::<u64>::empty(),
    });
    let second = (match active {
        Some(s) => track_ids(seq![s]),
        None => Seq::<u64>::empty(),
    });
    let third = track_ids(queue);
    let fourth = track_ids(recent);
    let heard = heard_ids(seed, active, queue, recent);
    assert(heard == first + second + third + fourth);
    if seed == Some(id) {
        assert(heard[0] == id);
    }
    if active is Some && active->0.spec_qobuz_track_id() == Some(id) {
        lemma_track_ids(seq![active->0], 0, id);
        let k = choose|k: int| 0 <= k < second.len() && second[k] == id;
        assert(heard[first.len() + k] == id);
    }
    if 0 <= i < queue.len() && queue[i].spec_qobuz_track_id() == Some(id) {
        lemma_track_ids(queue, i, id);
        let k = choose|k: int| 0 <= k < third.len() && third[k] == id;
        assert(heard[first.len() + second.len() + k] == id);
    }
    if 0 <= i < recent.len() && recent[i].spec_qobuz_track_id() == Some(id) {
        lemma_track_ids(recent, i, id);
        let k = choose|k: int| 0 <= k < fourth.len() && fourth[k] == id;
        assert(heard[first.len() + second.len() + third.len() + k] == id);
    }
}

proof fn lemma_distinct_adds_none(ids: Seq<u64>, id: u64)
    requires
        distinct_ids(ids).contains(id),
    ensures
        ids.contains(id),
    decreases ids.len(),
{
    if ids.len() > 0 {
        let init = ids.drop_last();
        if ids.last() == id {
            assert(ids[ids.len() - 1] == id);
        } else {
            let k = choose|k: int|
                0 <= k < distinct_ids(ids).len() && distinct_ids(ids)[k] == id;
            assert(distinct_ids(init)[k] == id);
            lemma_distinct_adds_none(init, id);
            let m = choose|m: int| 0 <= m < init.len() && init[m] == id;
            assert(ids[m] == id);
        }
    }
}

/// Nothing is excluded that was not heard.
pub proof fn law_only_heard_tracks_are_excluded(ids: Seq<u64>, id: u64)
    requires
        at_most_hundred(distinct_ids(ids)).contains(id),
    ensures
        ids.contains(id),
        id > 0,
{
    let kept = at_most_hundred(distinct_ids(ids));
    let k = choose|k: int| 0 <= k < kept.len() && kept[k] == id;
    assert(distinct_ids(ids)[k] == id);
    lemma_distinct_adds_none(ids, id);
    lemma_distinct(ids);
}

/// A track is prepared only while its command is not late and the queue still
/// wants it, and then where the zone plays.
pub proof fn law_only_wanted_tracks_are_prepared(
    sequencer: PlaybackCommandSequencer,
    req: QobuzPlayRequest,
    queue: Vec<SourceRef>,
    protocol: Option<SinkProtocol>,
    r: Result<PrefetchRoute, PlaybackError>,
)
    requires
        sequencer.wf(),
        call_ensures(
            prefetch_qobuz_request_for_zone,
            (
                &sequencer,
                None::<&PlaybackRequestSequence>,
                &req,
                &Ok::<Vec<SourceRef>, String>(queue),
                false,
                protocol,
                true,
            ),
            r,
        ),
    ensures
        queue@.len() > 0 ==> (r is Ok <==> exists|k: int|
            0 <= k < queue@.len() && (#[trigger] queue@[k]).spec_qobuz_track_id() == Some(
                req.track_id,
            )),
        queue@.len() == 0 ==> (r is Ok <==> req.radio_auto),
        r is Ok && protocol == Some(SinkProtocol::RemoteAgent) ==> r->Ok_0 is Agent,
        r is Ok && protocol == Some(SinkProtocol::UpnpAvRenderer) ==> r->Ok_0 is Renderer,
        r is Ok && protocol == Some(SinkProtocol::SonosUpnp) ==> r->Ok_0 is Sonos,
        r is Ok && protocol is None ==> r->Ok_0 is Player,
{
}

/// A track that a radio prepared becomes the queue where that was empty, except
/// on a renderer.
pub proof fn law_radio_track_becomes_queue(
    route: PrefetchRoute,
    queue_empty: bool,
    source: SourceRef,
    r: Option<Vec<SourceRef>>,
)
    requires
        call_ensures(radio_prefetched_queue, (route, queue_empty, source), r),
    ensures
        r is Some <==> queue_empty && !(route is Renderer),
        r is Some ==> r->0@.len() == 1 && r->0@[0] == source,
{
}

/// A track is prepared behind the track that is expected to play; another one
/// that plays by now is a conflict.
pub proof fn law_prepared_tracks_follow_the_expected_one(
    expected: String,
    current: String,
    r: Result<Option<String>, PlaybackError>,
)
    requires
        call_ensures(sonos_prefetch_expected, (Some(expected), Some(current)), r),
    ensures
        r is Ok <==> expected@ == current@,
        r is Ok ==> r->Ok_0 == Some(expected),
{
}

/// What a radio is asked to leave out has been heard, and all that was heard is
/// left out as long as that is at most a hundred tracks.
pub proof fn law_radio_leaves_out_what_was_heard(
    seed: Option<u64>,
    queue: &[SourceRef],
    recent: &[SourceRef],
    r: Vec<u64>,
    id: u64,
)
    requires
        call_ensures(radio_exclude_track_ids, (seed, None::<&SourceRef>, queue, recent), r),
        id > 0,
    ensures
        r@.len() <= 100,
        r@.contains(id) ==> heard_ids(seed, None, queue@, recent@).contains(id),
        seed == Some(id) ==> r@.contains(id),
        r@.len() < 100 && heard_ids(seed, None, queue@, recent@).contains(id) ==> r@.contains(id),
{
    let heard = heard_ids(seed, None, queue@, recent@);
    if r@.contains(id) {
        law_only_heard_tracks_are_excluded(heard, id);
    }
    if seed == Some(id) {
        law_seed_is_excluded(id, None, queue@, recent@);
    }
    if r@.len() < 100 && heard.contains(id) {
        law_heard_tracks_are_excluded(seed, None, queue@, recent@, id);
    }
}

} // verus!
