//! Changes to a zone's upcoming queue.

use crate::playback::error::{ErrorKind, PlaybackError};
use crate::playback::queue_state;
use crate::playback::queue_state::{
    append_source_to_now_playing_queue_state, default_now_playing_queue_state, QueueState,
};
use crate::playback::source;
use crate::playback::source::{
    qobuz_queue_track_from_source_ref, source_ref_with_radio, source_ref_with_radio_context,
    QobuzQueueTrack,
};
use crate::protocol::sink::SinkProtocol;
use crate::protocol::source::SourceRef;
use rand::seq::SliceRandom;
use vstd::prelude::*;

verus! {

/// `rand`'s `SliceRandom::shuffle` with the thread's generator: the items are
/// the same, in an order that depends on chance. It needs the system's source
/// of randomness.
#[verifier::external_body]
fn shuffle_sources(sources: &mut Vec<SourceRef>)
    ensures
        final(sources)@.to_multiset() == old(sources)@.to_multiset(),
{
    sources.shuffle(&mut rand::thread_rng());
}

/// The sources that are not the one playing.
pub open spec fn spec_upcoming(sources: Seq<SourceRef>, active: Option<SourceRef>) -> Seq<SourceRef> {
    match active {
        Some(playing) => sources.filter(|s: SourceRef| s.spec_key() != playing.spec_key()),
        None => sources,
    }
}

/// The sources that are not the one playing, in order.
pub fn normalize_upcoming_queue_sources(
    queue_sources: Vec<SourceRef>,
    active: Option<&SourceRef>,
) -> (r: Vec<SourceRef>)
    ensures
        r@ == spec_upcoming(
            queue_sources@,
            (match active {
                Some(s) => Some(*s),
                None => None,
            }),
        ),
{
    let playing = match active {
        Some(playing) => playing,
        None => return queue_sources,
    };
    let key = playing.key();
    let ghost keep = |s: SourceRef| s.spec_key() != playing.spec_key();
    let mut out: Vec<SourceRef> = Vec::new();
    let mut i: usize = 0;
    proof {
        reveal(Seq::filter);
    }
    while i < queue_sources.len()
        invariant
            i <= queue_sources@.len(),
            key@ == playing.spec_key(),
            keep == (|s: SourceRef| s.spec_key() != playing.spec_key()),
            out@ == queue_sources@.take(i as int).filter(keep),
        decreases queue_sources@.len() - i,
    {
        proof {
            reveal(Seq::filter);
            assert(queue_sources@.take(i + 1).drop_last() =~= queue_sources@.take(i as int));
        }
        if queue_sources[i].key() != key {
            out.push(queue_sources[i].clone());
        }
        i = i + 1;
    }
    proof {
        assert(queue_sources@.take(i as int) =~= queue_sources@);
    }
    out
}

/// The upcoming queue never holds the track that plays, and loses nothing
/// else.
pub proof fn law_upcoming_excludes_active(
    sources: Seq<SourceRef>,
    playing: SourceRef,
    source: SourceRef,
)
    ensures
        spec_upcoming(sources, Some(playing)).contains(source) <==> sources.contains(source)
            && source.spec_key() != playing.spec_key(),
        spec_upcoming(spec_upcoming(sources, Some(playing)), Some(playing)) == spec_upcoming(
            sources,
            Some(playing),
        ),
{
    let keep = |s: SourceRef| s.spec_key() != playing.spec_key();
    lemma_filter(sources, keep, source);
    let once = sources.filter(keep);
    assert forall|i: int| 0 <= i < once.len() implies keep(#[trigger] once[i]) by {
        lemma_filter(sources, keep, once[i]);
        assert(once.contains(once[i]));
    }
    lemma_filter_all(once, keep);
}

proof fn lemma_filter(s: Seq<SourceRef>, keep: spec_fn(SourceRef) -> bool, x: SourceRef)
    ensures
        s.filter(keep).contains(x) <==> s.contains(x) && keep(x),
    decreases s.len(),
{
    reveal(Seq::filter);
    if s.len() > 0 {
        let init = s.drop_last();
        let f = init.filter(keep);
        lemma_filter(init, keep, x);
        assert(s.contains(x) <==> init.contains(x) || s.last() == x) by {
            if s.contains(x) {
                let i = choose|i: int| 0 <= i < s.len() && s[i] == x;
                if i < init.len() {
                    assert(init[i] == x);
                }
            }
            if init.contains(x) {
                let i = choose|i: int| 0 <= i < init.len() && init[i] == x;
                assert(s[i] == x);
            }
            if s.last() == x {
                assert(s[s.len() - 1] == x);
            }
        }
        if keep(s.last()) {
            let g = f.push(s.last());
            assert(s.filter(keep) == g);
            assert(g.contains(x) <==> f.contains(x) || s.last() == x) by {
                if g.contains(x) {
                    let i = choose|i: int| 0 <= i < g.len() && g[i] == x;
                    if i < f.len() {
                        assert(f[i] == x);
                    }
                }
                if f.contains(x) {
                    let i = choose|i: int| 0 <= i < f.len() && f[i] == x;
                    assert(g[i] == x);
                }
                assert(g[g.len() - 1] == s.last());
            }
        }
    }
}

proof fn lemma_filter_all(s: Seq<SourceRef>, keep: spec_fn(SourceRef) -> bool)
    requires
        forall|i: int| 0 <= i < s.len() ==> keep(#[trigger] s[i]),
    ensures
        s.filter(keep) == s,
    decreases s.len(),
{
    reveal(Seq::filter);
    if s.len() > 0 {
        lemma_filter_all(s.drop_last(), keep);
        assert(s.drop_last().push(s.last()) =~= s);
    } else {
        assert(s.filter(keep) =~= s);
    }
}

/// The upcoming queue of a zone in another, random order. The track that plays
/// is not part of it.
pub fn shuffle_zone_queue(queue_sources: Vec<SourceRef>, active: Option<&SourceRef>) -> (r: Vec<
    SourceRef,
>)
    ensures
        r@.to_multiset() == spec_upcoming(
            queue_sources@,
            (match active {
                Some(s) => Some(*s),
                None => None,
            }),
        ).to_multiset(),
{
    let mut sources = normalize_upcoming_queue_sources(queue_sources, active);
    shuffle_sources(&mut sources);
    sources
}

/// Whatever the order, a shuffled queue does not hold the track that plays.
pub proof fn law_shuffle_excludes_active(
    before: Seq<SourceRef>,
    after: Seq<SourceRef>,
    playing: SourceRef,
    i: int,
)
    requires
        after.to_multiset() == spec_upcoming(before, Some(playing)).to_multiset(),
        0 <= i < after.len(),
    ensures
        after[i].spec_key() != playing.spec_key(),
        after.len() == spec_upcoming(before, Some(playing)).len(),
{
    broadcast use vstd::seq_lib::group_to_multiset_ensures;

    let upcoming = spec_upcoming(before, Some(playing));
    assert(after.contains(after[i]));
    assert(after.to_multiset().count(after[i]) > 0);
    assert(upcoming.contains(after[i]));
    law_upcoming_excludes_active(before, playing, after[i]);
    assert(after.to_multiset().len() == after.len());
    assert(upcoming.to_multiset().len() == upcoming.len());
}

/// The sources of a queue request, when every item could be resolved.
pub open spec fn all_resolved(items: Seq<Option<SourceRef>>) -> bool {
    forall|i: int| 0 <= i < items.len() ==> (#[trigger] items[i]) is Some
}

/// The sources of a queue request; every item has to be playable.
pub fn set_zone_queue(items: Vec<Option<SourceRef>>) -> (r: Result<Vec<SourceRef>, PlaybackError>)
    ensures
        r is Ok <==> all_resolved(items@),
        r is Ok ==> r->Ok_0@ == items@.map_values(|item: Option<SourceRef>| item->0),
        r is Err ==> r->Err_0.is(
            ErrorKind::BadRequest,
            "Queue item is missing a playable source"@,
        ),
{
    let mut out: Vec<SourceRef> = Vec::new();
    let mut i: usize = 0;
    while i < items.len()
        invariant
            i <= items@.len(),
            all_resolved(items@.take(i as int)),
            out@ =~= items@.take(i as int).map_values(|item: Option<SourceRef>| item->0),
        decreases items@.len() - i,
    {
        match &items[i] {
            Some(source) => {
                out.push(source.clone());
            },
            None => {
                proof {
                    assert(items@[i as int] is None);
                }
                return Err(PlaybackError::bad_request("Queue item is missing a playable source"));
            },
        }
        proof {
            assert forall|k: int| 0 <= k < i + 1 implies (#[trigger] items@.take(
                i + 1,
            )[k]) is Some by {
                if k < i {
                    assert(items@.take(i as int)[k] is Some);
                }
            }
        }
        i = i + 1;
    }
    proof {
        assert(items@.take(i as int) =~= items@);
    }
    Ok(out)
}

/// A queued source with fresh metadata: what the library says now, with the
/// radio mark and context of the queued one. A streamed source, or one that
/// the library no longer knows, stays as it is.
pub open spec fn spec_refreshed(queued: SourceRef, found: Option<SourceRef>) -> SourceRef {
    match queued {
        SourceRef::LocalTrack { radio_context, .. } => match found {
            Some(fresh) => source::spec_with_radio_context(
                source::spec_with_radio(fresh, queued.spec_is_radio()),
                radio_context,
            ),
            None => queued,
        },
        SourceRef::QobuzTrack { .. } => queued,
    }
}

/// A queued source with fresh metadata.
pub fn refresh_source_ref_metadata(queued: SourceRef, found: Option<SourceRef>) -> (r: SourceRef)
    ensures
        r == spec_refreshed(queued, found),
{
    let radio = queued.is_radio();
    let context = match &queued {
        SourceRef::LocalTrack { radio_context, .. } => radio_context.clone(),
        SourceRef::QobuzTrack { .. } => return queued,
    };
    match found {
        Some(fresh) => source_ref_with_radio_context(source_ref_with_radio(fresh, radio), context),
        None => queued,
    }
}

/// A queued source, with what the library has of its track now.
#[derive(Debug)]
pub struct QueuedSource {
    pub source: SourceRef,
    pub found: Option<SourceRef>,
}

/// Queued sources with fresh metadata.
pub open spec fn spec_refreshed_all(queued: Seq<QueuedSource>) -> Seq<SourceRef> {
    queued.map_values(|q: QueuedSource| spec_refreshed(q.source, q.found))
}

/// Queued sources with fresh metadata.
pub fn refreshed_sources(queued: Vec<QueuedSource>) -> (r: Vec<SourceRef>)
    ensures
        r@ == spec_refreshed_all(queued@),
{
    let mut out: Vec<SourceRef> = Vec::new();
    let mut i: usize = 0;
    while i < queued.len()
        invariant
            i <= queued@.len(),
            out@ == spec_refreshed_all(queued@.take(i as int)),
        decreases queued@.len() - i,
    {
        out.push(refresh_source_ref_metadata(queued[i].source.clone(), queued[i].found.clone()));
        i = i + 1;
        proof {
            assert(out@ =~= spec_refreshed_all(queued@.take(i as int)));
        }
    }
    proof {
        assert(queued@.take(i as int) =~= queued@);
    }
    out
}

/// A stored queue, with the time at which it was stored.
#[derive(Debug)]
pub struct StoredQueue {
    pub state: QueueState,
    pub updated_at: i64,
}

/// What plays on a zone, and what is to come.
#[derive(Debug)]
pub struct NowPlayingQueueResponse {
    pub state: Option<QueueState>,
    pub updated_at: Option<i64>,
    pub current_source: Option<SourceRef>,
    pub queued_sources: Vec<SourceRef>,
}

/// What plays on a zone, and what is to come, all with fresh metadata. The
/// stored queue is shown as it is, if there is one.
pub fn now_playing_queue_for_zone(
    queued: Vec<QueuedSource>,
    zone_state: &str,
    active: Option<QueuedSource>,
    stored: Option<StoredQueue>,
) -> (r: NowPlayingQueueResponse)
    ensures
        r.queued_sources@ == spec_refreshed_all(queued@),
        r.current_source == (match active {
            Some(q) => if zone_state@ == "Playing"@ || zone_state@ == "Paused"@ {
                Some(spec_refreshed(q.source, q.found))
            } else {
                None
            },
            None => None,
        }),
        match stored {
            Some(s) => r.state == Some(s.state) && r.updated_at == Some(s.updated_at),
            None => r.state is None && r.updated_at is None,
        },
{
    let queued_sources = refreshed_sources(queued);
    let current_source = match active {
        Some(q) => match live_current_source_for_zone(zone_state, Some(q.source)) {
            Some(source) => Some(refresh_source_ref_metadata(source, q.found)),
            None => None,
        },
        None => None,
    };
    let (state, updated_at) = match stored {
        Some(s) => (Some(s.state), Some(s.updated_at)),
        None => (None, None),
    };
    NowPlayingQueueResponse { state, updated_at, current_source, queued_sources }
}

/// Appends a source to a zone's stored queue, or to a fresh one where none is
/// stored.
pub fn append_source_to_now_playing_queue(stored: Option<QueueState>, source: &SourceRef) -> (r:
    QueueState)
    requires
        stored is Some ==> stored->0.items@.len() < i64::MAX,
    ensures
        stored is Some ==> queue_state::appended(stored->0, r, *source),
        stored is None ==> exists|fresh: QueueState| #[trigger]
            queue_state::is_default_state(fresh) && queue_state::appended(fresh, r, *source),
{
    let mut state = match stored {
        Some(state) => state,
        None => default_now_playing_queue_state(),
    };
    append_source_to_now_playing_queue_state(&mut state, source);
    state
}

/// The source that plays on a zone, when the zone is playing or paused.
pub fn live_current_source_for_zone(zone_state: &str, active: Option<SourceRef>) -> (r: Option<
    SourceRef,
>)
    ensures
        r == (if zone_state@ == "Playing"@ || zone_state@ == "Paused"@ {
            active
        } else {
            None
        }),
{
    if *zone_state != *"Playing" && *zone_state != *"Paused" {
        return None;
    }
    active
}

/// How a queue reaches its zone.
#[derive(Clone, Copy, Debug, PartialEq, Eq, Structural)]
pub enum QueueRoute {
    /// Store it, and prepare the next track on the speaker.
    Sonos,
    /// Store it, and send it to the agent.
    RemoteAgent,
    /// Store it, and hand it to the player.
    Player,
}

pub open spec fn spec_queue_route(protocol: Option<SinkProtocol>) -> QueueRoute {
    if protocol == Some(SinkProtocol::SonosUpnp) {
        QueueRoute::Sonos
    } else if protocol == Some(SinkProtocol::RemoteAgent) {
        QueueRoute::RemoteAgent
    } else {
        QueueRoute::Player
    }
}

/// How a queue reaches its zone. A zone that needs a player must have one, and
/// the track that the client saw must still be the current one.
pub fn apply_zone_queue_sources(
    protocol: Option<SinkProtocol>,
    player_available: bool,
    current_matches: bool,
) -> (r: Result<QueueRoute, PlaybackError>)
    ensures
        ({
            let route = spec_queue_route(protocol);
            let missing = route == QueueRoute::Player && !player_available;
            &&& r is Ok <==> !missing && current_matches
            &&& r is Ok ==> r->Ok_0 == route
            &&& missing ==> r is Err && r->Err_0 is ZoneNotAvailable
            &&& !missing && !current_matches ==> r is Err && r->Err_0.is(
                ErrorKind::Conflict,
                "Current track changed"@,
            )
        }),
{
    let route = match protocol {
        Some(SinkProtocol::SonosUpnp) => QueueRoute::Sonos,
        Some(SinkProtocol::RemoteAgent) => QueueRoute::RemoteAgent,
        _ => QueueRoute::Player,
    };
    if route == QueueRoute::Player && !player_available {
        return Err(PlaybackError::ZoneNotAvailable);
    }
    if !current_matches {
        return Err(PlaybackError::conflict("Current track changed"));
    }
    Ok(route)
}

/// The streamed track to prepare after the queue changed: the current one when
/// the queue repeats, else the next.
pub open spec fn spec_prefetch_track(
    loop_enabled: bool,
    active: Option<SourceRef>,
    queue: Seq<SourceRef>,
) -> Option<QobuzQueueTrack> {
    if loop_enabled {
        match active {
            Some(s) => source::spec_queue_track(s),
            None => None,
        }
    } else if queue.len() > 0 {
        source::spec_queue_track(queue[0])
    } else {
        None
    }
}

/// The streamed track to prepare after the queue changed.
pub fn qobuz_prefetch_track_for_queue_update(
    loop_enabled: bool,
    active_source: Option<&SourceRef>,
    queue_sources: &[SourceRef],
) -> (r: Option<QobuzQueueTrack>)
    ensures
        r == spec_prefetch_track(
            loop_enabled,
            (match active_source {
                Some(s) => Some(*s),
                None => None,
            }),
            queue_sources@,
        ),
{
    if loop_enabled {
        match active_source {
            Some(s) => qobuz_queue_track_from_source_ref(s),
            None => None,
        }
    } else if queue_sources.len() > 0 {
        qobuz_queue_track_from_source_ref(&queue_sources[0])
    } else {
        None
    }
}

/// What a local player does with a new queue.
pub enum PlayerQueueUpdate {
    /// Take the local files of the queue.
    SetQueue,
    /// Empty the stream queue and prepare this track behind the expected one.
    Prefetch { track: QobuzQueueTrack, expected: Option<String> },
}

/// What a local player does with a new queue: while it plays a stream, a
/// streamed track is prepared in place of a queue of files.
pub fn player_queue_update(
    loop_enabled: bool,
    active_source: Option<&SourceRef>,
    queue_sources: &[SourceRef],
    expected_current: Option<String>,
    current_file_name: Option<String>,
) -> (r: PlayerQueueUpdate)
    ensures
        ({
            let active = (match active_source {
                Some(s) => Some(*s),
                None => None,
            });
            let track = spec_prefetch_track(loop_enabled, active, queue_sources@);
            if active is Some && active->0 is QobuzTrack && track is Some {
                r == (PlayerQueueUpdate::Prefetch {
                    track: track->0,
                    expected: if expected_current is Some {
                        expected_current
                    } else {
                        current_file_name
                    },
                })
            } else {
                r is SetQueue
            }
        }),
{
    let streaming = match active_source {
        Some(SourceRef::QobuzTrack { .. }) => true,
        _ => false,
    };
    if streaming {
        match qobuz_prefetch_track_for_queue_update(loop_enabled, active_source, queue_sources) {
            Some(track) => {
                return PlayerQueueUpdate::Prefetch {
                    track,
                    expected: match expected_current {
                        Some(expected) => Some(expected),
                        None => current_file_name,
                    },
                };
            },
            None => {},
        }
    }
    PlayerQueueUpdate::SetQueue
}

/// While the queue does not repeat, its head is what is prepared: the track of
/// that id where it is streamed, nothing where it is a file, whatever else is
/// queued behind it and whatever plays.
pub proof fn law_head_of_queue_is_prepared(
    active: Option<SourceRef>,
    other_active: Option<SourceRef>,
    head: SourceRef,
    rest: Seq<SourceRef>,
    other_rest: Seq<SourceRef>,
)
    ensures
        ({
            let prepared = spec_prefetch_track(false, active, seq![head] + rest);
            &&& head is LocalTrack ==> prepared is None
            &&& head is QobuzTrack ==> prepared is Some && prepared->0.track_id
                == head->QobuzTrack_track_id && prepared->0.title == head->QobuzTrack_title
            &&& prepared == spec_prefetch_track(false, other_active, seq![head] + other_rest)
        }),
        spec_prefetch_track(false, active, Seq::empty()) is None,
{
    assert((seq![head] + rest)[0] == head);
    assert((seq![head] + other_rest)[0] == head);
}

/// While the queue repeats, the track that plays is what is prepared, whatever
/// is queued.
pub proof fn law_repeating_queue_prepares_current(
    current: SourceRef,
    queue: Seq<SourceRef>,
    other_queue: Seq<SourceRef>,
)
    ensures
        ({
            let prepared = spec_prefetch_track(true, Some(current), queue);
            &&& current is LocalTrack ==> prepared is None
            &&& current is QobuzTrack ==> prepared is Some && prepared->0.track_id
                == current->QobuzTrack_track_id
            &&& prepared == spec_prefetch_track(true, Some(current), other_queue)
        }),
        spec_prefetch_track(true, None, queue) is None,
{
}

/// Appending to a queue that is not empty does not change what is prepared.
pub proof fn law_appending_keeps_prepared_track(
    loop_enabled: bool,
    active: Option<SourceRef>,
    queue: Seq<SourceRef>,
    more: Seq<SourceRef>,
)
    requires
        queue.len() > 0,
    ensures
        spec_prefetch_track(loop_enabled, active, queue + more) == spec_prefetch_track(
            loop_enabled,
            active,
            queue,
        ),
{
    assert((queue + more)[0] == queue[0]);
}

/// A queue reaches a speaker, an agent or a player by the protocol of its
/// zone.
pub proof fn law_queue_goes_where_the_zone_plays(protocol: SinkProtocol)
    ensures
        spec_queue_route(Some(SinkProtocol::SonosUpnp)) == QueueRoute::Sonos,
        spec_queue_route(Some(SinkProtocol::RemoteAgent)) == QueueRoute::RemoteAgent,
        protocol != SinkProtocol::SonosUpnp && protocol != SinkProtocol::RemoteAgent
            ==> spec_queue_route(Some(protocol)) == QueueRoute::Player,
        spec_queue_route(None) == QueueRoute::Player,
{
}

proof fn lemma_filter_joined(
    a: Seq<SourceRef>,
    b: Seq<SourceRef>,
    keep: spec_fn(SourceRef) -> bool,
)
    ensures
        (a + b).filter(keep) == a.filter(keep) + b.filter(keep),
    decreases b.len(),
{
    reveal(Seq::filter);
    if b.len() == 0 {
        assert(a + b =~= a);
        assert(a.filter(keep) + b.filter(keep) =~= a.filter(keep));
    } else {
        lemma_filter_joined(a, b.drop_last(), keep);
        assert((a + b).drop_last() =~= a + b.drop_last());
        assert((a + b).last() == b.last());
        if keep(b.last()) {
            assert((a.filter(keep) + b.drop_last().filter(keep)).push(b.last()) =~= a.filter(keep)
                + b.drop_last().filter(keep).push(b.last()));
        }
    }
}

/// What comes next keeps the order of the queue: the upcoming part of two
/// queues that follow each other is the upcoming part of the first and then
/// that of the second, and a single source is kept unless it is playing.
pub proof fn law_upcoming_keeps_order(
    first: Seq<SourceRef>,
    second: Seq<SourceRef>,
    source: SourceRef,
    active: Option<SourceRef>,
)
    ensures
        spec_upcoming(first + second, active) == spec_upcoming(first, active) + spec_upcoming(
            second,
            active,
        ),
        spec_upcoming(seq![source], active) == (if active is Some && active->0.spec_key()
            == source.spec_key() {
            Seq::<SourceRef>::empty()
        } else {
            seq![source]
        }),
{
    match active {
        Some(playing) => {
            let keep = |s: SourceRef| s.spec_key() != playing.spec_key();
            lemma_filter_joined(first, second, keep);
            reveal_with_fuel(Seq::filter, 3);
            assert(seq![source].drop_last() =~= Seq::<SourceRef>::empty());
            assert(seq![source].filter(keep) =~= (if keep(source) {
                seq![source]
            } else {
                Seq::<SourceRef>::empty()
            }));
        },
        None => {},
    }
}

/// A queue is set in the order in which it was given, or not at all.
pub proof fn law_queue_is_set_in_order(
    items: Vec<Option<SourceRef>>,
    r: Result<Vec<SourceRef>, PlaybackError>,
    i: int,
)
    requires
        call_ensures(set_zone_queue, (items,), r),
        0 <= i < items@.len(),
    ensures
        items@[i] is None ==> r is Err,
        r is Ok ==> r->Ok_0@.len() == items@.len() && items@[i] == Some(r->Ok_0@[i]),
{
}

/// A queued track of the library is shown as the library has it now, and keeps
/// what the queue knows of how it came there. A streamed one stays as it is.
pub proof fn law_refreshing_keeps_how_it_came(queued: SourceRef, found: Option<SourceRef>)
    ensures
        queued is QobuzTrack || found is None ==> spec_refreshed(queued, found) == queued,
        queued is LocalTrack ==> (found matches Some(
            SourceRef::LocalTrack {
                track_id,
                title,
                artist,
                album,
                duration_secs,
                radio,
                radio_context,
                ..
            },
        ) ==> {
            let shown = spec_refreshed(queued, found);
            &&& shown is LocalTrack
            &&& shown.spec_local_track_id() == Some(track_id)
            &&& shown->LocalTrack_title == title
            &&& shown->LocalTrack_artist == artist
            &&& shown->LocalTrack_album == album
            &&& shown->LocalTrack_duration_secs == duration_secs
            &&& shown->LocalTrack_radio == (queued->LocalTrack_radio || radio)
            &&& queued->LocalTrack_radio_context is Some ==> shown->LocalTrack_radio_context
                == queued->LocalTrack_radio_context
            &&& queued->LocalTrack_radio_context is None ==> shown->LocalTrack_radio_context
                == radio_context
        }),
{
}

/// Every queued source is refreshed in its own place.
pub proof fn law_refreshed_queue_keeps_places(queued: Seq<QueuedSource>, i: int)
    requires
        0 <= i < queued.len(),
    ensures
        spec_refreshed_all(queued).len() == queued.len(),
        queued[i].found is None ==> spec_refreshed_all(queued)[i] == queued[i].source,
        spec_refreshed_all(queued)[i] == spec_refreshed(queued[i].source, queued[i].found),
{
}

/// A zone that neither plays nor pauses has no current source; one that does
/// has the active one.
pub proof fn law_current_source_is_the_active_one(
    queued: Vec<QueuedSource>,
    zone_state: &str,
    active: Option<QueuedSource>,
    stored: Option<StoredQueue>,
    r: NowPlayingQueueResponse,
)
    requires
        call_ensures(now_playing_queue_for_zone, (queued, zone_state, active, stored), r),
    ensures
        r.current_source is Some ==> active is Some && (zone_state@ == "Playing"@ || zone_state@
            == "Paused"@),
        active is Some && active->0.found is None && (zone_state@ == "Playing"@ || zone_state@
            == "Paused"@) ==> r.current_source == Some(active->0.source),
        r.queued_sources@.len() == queued@.len(),
        stored is Some ==> r.state == Some(stored->0.state) && r.updated_at == Some(
            stored->0.updated_at,
        ),
        stored is None ==> r.state is None && r.updated_at is None,
{
}

/// After a queue changed, its streamed head is what is prepared unless the
/// queue repeats, and then it is the track that plays.
pub proof fn law_changed_queue_prepares_its_head(
    loop_enabled: bool,
    active: SourceRef,
    queue: &[SourceRef],
    r: Option<QobuzQueueTrack>,
)
    requires
        call_ensures(
            qobuz_prefetch_track_for_queue_update,
            (loop_enabled, Some(&active), queue),
            r,
        ),
    ensures
        !loop_enabled && queue@.len() > 0 && queue@[0] is QobuzTrack ==> r is Some
            && r->0.track_id == queue@[0]->QobuzTrack_track_id,
        !loop_enabled && queue@.len() > 0 && queue@[0] is LocalTrack ==> r is None,
        !loop_enabled && queue@.len() == 0 ==> r is None,
        loop_enabled && active is QobuzTrack ==> r is Some && r->0.track_id
            == active->QobuzTrack_track_id,
        loop_enabled && active is LocalTrack ==> r is None,
{
}

/// Of a queue that does not hold what plays everything comes next, in order.
pub proof fn law_queue_without_active_is_upcoming(
    queue: Vec<SourceRef>,
    active: SourceRef,
    r: Vec<SourceRef>,
)
    requires
        call_ensures(normalize_upcoming_queue_sources, (queue, Some(&active)), r),
        forall|i: int| 0 <= i < queue@.len() ==> (#[trigger] queue@[i]).spec_key()
            != active.spec_key(),
    ensures
        r@ == queue@,
{
    let keep = |s: SourceRef| s.spec_key() != active.spec_key();
    lemma_filter_all(queue@, keep);
}

/// While a stream plays, a player prepares the streamed head of a new queue
/// behind what plays; in every other case it takes the queue.
pub proof fn law_player_prepares_behind_streams(
    active: SourceRef,
    queue: &[SourceRef],
    expected_current: Option<String>,
    current_file_name: Option<String>,
    r: PlayerQueueUpdate,
)
    requires
        call_ensures(
            player_queue_update,
            (false, Some(&active), queue, expected_current, current_file_name),
            r,
        ),
    ensures
        active is LocalTrack ==> r is SetQueue,
        queue@.len() == 0 || queue@[0] is LocalTrack ==> r is SetQueue,
        active is QobuzTrack && queue@.len() > 0 && queue@[0] is QobuzTrack ==> match r {
            PlayerQueueUpdate::Prefetch { track, expected } => {
                &&& track.track_id == queue@[0]->QobuzTrack_track_id
                &&& expected_current is Some ==> expected == expected_current
                &&& expected_current is None ==> expected == current_file_name
            },
            _ => false,
        },
{
}

/// Only a zone that plays or pauses has a live source, and then it is the
/// active one.
pub proof fn law_live_source_is_active(
    zone_state: &str,
    active: Option<SourceRef>,
    r: Option<SourceRef>,
)
    requires
        call_ensures(live_current_source_for_zone, (zone_state, active), r),
    ensures
        zone_state@ == "Playing"@ || zone_state@ == "Paused"@ ==> r == active,
        r is Some ==> r == active && (zone_state@ == "Playing"@ || zone_state@ == "Paused"@),
{
}

} // verus!
