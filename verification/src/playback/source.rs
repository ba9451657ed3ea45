//! Conversions between source references and streaming-service requests.

use crate::audio::Real64;
use crate::protocol::source::{PlaylistContext, RadioContext, SourceRef};
use vstd::prelude::*;

verus! {

/// A track that is queued behind a streaming request.
#[derive(Debug)]
pub struct QobuzQueueTrack {
    pub track_id: u64,
    pub title: Option<String>,
    pub artist: Option<String>,
    pub album: Option<String>,
    pub album_id: Option<String>,
    pub image_url: Option<String>,
    pub duration_secs: Option<Real64>,
    pub format_id: Option<u32>,
    pub radio: bool,
    pub playlist_context: Option<PlaylistContext>,
}

/// A request to play a streamed track.
#[derive(Debug)]
pub struct QobuzPlayRequest {
    pub track_id: u64,
    pub title: Option<String>,
    pub artist: Option<String>,
    pub album: Option<String>,
    pub album_id: Option<String>,
    pub image_url: Option<String>,
    pub duration_secs: Option<Real64>,
    pub format_id: Option<u32>,
    pub expected_current: Option<String>,
    pub radio_auto: bool,
    pub replace_current: bool,
    pub playlist_context: Option<PlaylistContext>,
    pub queue: Vec<QobuzQueueTrack>,
}

/// A track as the streaming service describes it.
#[derive(Debug)]
pub struct QobuzTrack {
    pub id: u64,
    pub title: String,
    pub artist: String,
    pub album: String,
    pub album_id: Option<String>,
    pub image_url: Option<String>,
    /// The duration in whole seconds; zero when it is not known.
    pub duration: u32,
}

/// The source that a play request asks for.
pub open spec fn spec_request_source(req: QobuzPlayRequest) -> SourceRef {
    SourceRef::QobuzTrack {
        track_id: req.track_id,
        title: req.title,
        artist: req.artist,
        album: req.album,
        album_id: req.album_id,
        image_url: req.image_url,
        duration_secs: req.duration_secs,
        radio: req.radio_auto,
        radio_context: None,
        playlist_context: req.playlist_context,
    }
}

/// The source that a play request asks for.
pub fn qobuz_source_ref_from_play_request(req: &QobuzPlayRequest) -> (r: SourceRef)
    ensures
        r == spec_request_source(*req),
{
    SourceRef::QobuzTrack {
        track_id: req.track_id,
        title: req.title.clone(),
        artist: req.artist.clone(),
        album: req.album.clone(),
        album_id: req.album_id.clone(),
        image_url: req.image_url.clone(),
        duration_secs: req.duration_secs,
        radio: req.radio_auto,
        radio_context: None,
        playlist_context: req.playlist_context.clone(),
    }
}

/// The source of a queued track, which a radio session marks as radio.
pub open spec fn spec_queue_source(track: QobuzQueueTrack, fallback_radio: bool) -> SourceRef {
    SourceRef::QobuzTrack {
        track_id: track.track_id,
        title: track.title,
        artist: track.artist,
        album: track.album,
        album_id: track.album_id,
        image_url: track.image_url,
        duration_secs: track.duration_secs,
        radio: track.radio || fallback_radio,
        radio_context: None,
        playlist_context: track.playlist_context,
    }
}

/// The source of a queued track.
pub fn qobuz_source_ref_from_queue_track(track: &QobuzQueueTrack, fallback_radio: bool) -> (r:
    SourceRef)
    ensures
        r == spec_queue_source(*track, fallback_radio),
{
    SourceRef::QobuzTrack {
        track_id: track.track_id,
        title: track.title.clone(),
        artist: track.artist.clone(),
        album: track.album.clone(),
        album_id: track.album_id.clone(),
        image_url: track.image_url.clone(),
        duration_secs: track.duration_secs,
        radio: track.radio || fallback_radio,
        radio_context: None,
        playlist_context: track.playlist_context.clone(),
    }
}

/// The source of a track of the service. A duration of zero is none.
pub fn qobuz_source_ref_from_track(track: &QobuzTrack, radio: bool) -> (r: SourceRef)
    ensures
        r == (SourceRef::QobuzTrack {
            track_id: track.id,
            title: Some(track.title),
            artist: Some(track.artist),
            album: Some(track.album),
            album_id: track.album_id,
            image_url: track.image_url,
            duration_secs: r->QobuzTrack_duration_secs,
            radio,
            radio_context: None,
            playlist_context: None,
        }),
        r->QobuzTrack_duration_secs is Some <==> track.duration > 0,
        track.duration > 0 ==> r->QobuzTrack_duration_secs->0.is_whole(track.duration),
{
    SourceRef::QobuzTrack {
        track_id: track.id,
        title: Some(track.title.clone()),
        artist: Some(track.artist.clone()),
        album: Some(track.album.clone()),
        album_id: track.album_id.clone(),
        image_url: track.image_url.clone(),
        duration_secs: if track.duration > 0 {
            Some(Real64::from_u32(track.duration))
        } else {
            None
        },
        radio,
        radio_context: None,
        playlist_context: None,
    }
}

/// The queue entry for a streamed source; a local track has none.
pub open spec fn spec_queue_track(source: SourceRef) -> Option<QobuzQueueTrack> {
    match source {
        SourceRef::QobuzTrack {
            track_id,
            title,
            artist,
            album,
            album_id,
            image_url,
            duration_secs,
            radio,
            playlist_context,
            ..
        } => Some(
            QobuzQueueTrack {
                track_id,
                title,
                artist,
                album,
                album_id,
                image_url,
                duration_secs,
                format_id: None,
                radio,
                playlist_context,
            },
        ),
        SourceRef::LocalTrack { .. } => None,
    }
}

/// The queue entry for a streamed source; a local track has none.
pub fn qobuz_queue_track_from_source_ref(source: &SourceRef) -> (r: Option<QobuzQueueTrack>)
    ensures
        r == spec_queue_track(*source),
{
    match source {
        SourceRef::QobuzTrack {
            track_id,
            title,
            artist,
            album,
            album_id,
            image_url,
            duration_secs,
            radio,
            playlist_context,
            ..
        } => Some(
            QobuzQueueTrack {
                track_id: *track_id,
                title: title.clone(),
                artist: artist.clone(),
                album: album.clone(),
                album_id: album_id.clone(),
                image_url: image_url.clone(),
                duration_secs: *duration_secs,
                format_id: None,
                radio: *radio,
                playlist_context: playlist_context.clone(),
            },
        ),
        SourceRef::LocalTrack { .. } => None,
    }
}

/// The queue entries of the streamed sources, in order.
pub open spec fn spec_queue_tracks(sources: Seq<SourceRef>) -> Seq<QobuzQueueTrack>
    decreases sources.len(),
{
    if sources.len() == 0 {
        Seq::empty()
    } else {
        let before = spec_queue_tracks(sources.drop_last());
        match spec_queue_track(sources.last()) {
            Some(track) => before.push(track),
            None => before,
        }
    }
}

/// The queue entries of the streamed sources, in order.
pub fn qobuz_queue_tracks(sources: &[SourceRef]) -> (r: Vec<QobuzQueueTrack>)
    ensures
        r@ == spec_queue_tracks(sources@),
{
    let mut out: Vec<QobuzQueueTrack> = Vec::new();
    let mut i: usize = 0;
    while i < sources.len()
        invariant
            i <= sources@.len(),
            out@ == spec_queue_tracks(sources@.take(i as int)),
        decreases sources@.len() - i,
    {
        proof {
            assert(sources@.take(i + 1).drop_last() =~= sources@.take(i as int));
        }
        match qobuz_queue_track_from_source_ref(&sources[i]) {
            Some(track) => {
                out.push(track);
            },
            None => {},
        }
        i = i + 1;
    }
    proof {
        assert(sources@.take(i as int) =~= sources@);
    }
    out
}

/// `req` asks to play `source` now, followed by the streamed sources of the
/// queue.
pub open spec fn is_request_for(
    req: QobuzPlayRequest,
    source: SourceRef,
    queue_sources: Seq<SourceRef>,
    radio_auto: bool,
) -> bool {
    &&& source matches SourceRef::QobuzTrack {
        track_id,
        title,
        artist,
        album,
        album_id,
        image_url,
        duration_secs,
        radio,
        playlist_context,
        ..
    }
    &&& req.track_id == track_id
    &&& req.title == title
    &&& req.artist == artist
    &&& req.album == album
    &&& req.album_id == album_id
    &&& req.image_url == image_url
    &&& req.duration_secs == duration_secs
    &&& req.format_id is None
    &&& req.expected_current is None
    &&& req.radio_auto == (radio_auto || radio)
    &&& req.replace_current
    &&& req.playlist_context == playlist_context
    &&& req.queue@ == spec_queue_tracks(queue_sources)
}

/// The request to play a streamed source now.
pub fn qobuz_play_request_from_source_ref(
    source: &SourceRef,
    queue_sources: &[SourceRef],
    radio_auto: bool,
) -> (r: Option<QobuzPlayRequest>)
    ensures
        r is Some <==> *source is QobuzTrack,
        r is Some ==> is_request_for(r->0, *source, queue_sources@, radio_auto),
{
    match source {
        SourceRef::QobuzTrack {
            track_id,
            title,
            artist,
            album,
            album_id,
            image_url,
            duration_secs,
            radio,
            playlist_context,
            ..
        } => Some(
            QobuzPlayRequest {
                track_id: *track_id,
                title: title.clone(),
                artist: artist.clone(),
                album: album.clone(),
                album_id: album_id.clone(),
                image_url: image_url.clone(),
                duration_secs: *duration_secs,
                format_id: None,
                expected_current: None,
                radio_auto: radio_auto || *radio,
                replace_current: true,
                playlist_context: playlist_context.clone(),
                queue: qobuz_queue_tracks(queue_sources),
            },
        ),
        SourceRef::LocalTrack { .. } => None,
    }
}

/// The sources that are queued behind a request.
pub open spec fn spec_request_queue(req: QobuzPlayRequest) -> Seq<SourceRef> {
    req.queue@.map_values(|track: QobuzQueueTrack| spec_queue_source(track, req.radio_auto))
}

/// The sources that are queued behind a request.
pub fn qobuz_queue_source_refs(req: &QobuzPlayRequest) -> (r: Vec<SourceRef>)
    ensures
        r@ == spec_request_queue(*req),
{
    let mut out: Vec<SourceRef> = Vec::new();
    let mut i: usize = 0;
    while i < req.queue.len()
        invariant
            i <= req.queue@.len(),
            out@ =~= spec_request_queue(*req).take(i as int),
        decreases req.queue@.len() - i,
    {
        out.push(qobuz_source_ref_from_queue_track(&req.queue[i], req.radio_auto));
        i = i + 1;
    }
    out
}

/// A streamed source that is neither radio nor recommended by one comes back
/// unchanged from the request that plays it.
pub proof fn law_request_round_trip(
    req: QobuzPlayRequest,
    source: SourceRef,
    queue: Seq<SourceRef>,
    radio_auto: bool,
)
    requires
        is_request_for(req, source, queue, radio_auto),
        source->QobuzTrack_radio_context is None,
    ensures
        spec_request_source(req).spec_key() == source.spec_key(),
        spec_request_source(req).spec_is_radio() == (radio_auto || source.spec_is_radio()),
        radio_auto ==> source.spec_is_radio() ==> spec_request_source(req) == source,
        !radio_auto ==> spec_request_source(req) == source,
{
}

/// The queue of a request keeps the order of the streamed sources, and each
/// keeps its key.
pub proof fn law_request_queue_keeps_streamed_sources(
    req: QobuzPlayRequest,
    source: SourceRef,
    queue: Seq<SourceRef>,
    radio_auto: bool,
)
    requires
        is_request_for(req, source, queue, radio_auto),
    ensures
        spec_request_queue(req).map_values(|s: SourceRef| s.spec_key()) == queue.filter(
            |s: SourceRef| s is QobuzTrack,
        ).map_values(|s: SourceRef| s.spec_key()),
{
    lemma_queue_tracks(queue, req.radio_auto);
    assert(spec_request_queue(req).map_values(|s: SourceRef| s.spec_key())
        =~= spec_queue_tracks(queue).map_values(
        |t: QobuzQueueTrack| spec_queue_source(t, req.radio_auto).spec_key(),
    ));
}

proof fn lemma_queue_tracks(sources: Seq<SourceRef>, radio: bool)
    ensures
        spec_queue_tracks(sources).map_values(
            |t: QobuzQueueTrack| spec_queue_source(t, radio).spec_key(),
        ) == sources.filter(|s: SourceRef| s is QobuzTrack).map_values(
            |s: SourceRef| s.spec_key(),
        ),
    decreases sources.len(),
{
    let f = |s: SourceRef| s is QobuzTrack;
    let key = |s: SourceRef| s.spec_key();
    let track_key = |t: QobuzQueueTrack| spec_queue_source(t, radio).spec_key();
    reveal(Seq::filter);
    if sources.len() == 0 {
        assert(spec_queue_tracks(sources).map_values(track_key) =~= sources.filter(f).map_values(
            key,
        ));
    } else {
        let init = sources.drop_last();
        lemma_queue_tracks(init, radio);
        let last = sources.last();
        match spec_queue_track(last) {
            Some(track) => {
                assert(spec_queue_tracks(sources).map_values(track_key) =~= spec_queue_tracks(
                    init,
                ).map_values(track_key).push(track_key(track)));
                assert(sources.filter(f).map_values(key) =~= init.filter(f).map_values(key).push(
                    key(last),
                ));
                assert(track_key(track) == key(last));
            },
            None => {},
        }
    }
}

/// The service's id of a source.
pub fn qobuz_track_id_from_source(source: &SourceRef) -> (r: Option<u64>)
    ensures
        r == source.spec_qobuz_track_id(),
{
    source.qobuz_track_id()
}

/// The source, marked as radio when `radio` says so; a mark is never taken
/// away.
pub open spec fn spec_with_radio(source: SourceRef, on: bool) -> SourceRef {
    match source {
        SourceRef::LocalTrack {
            track_id,
            file_name,
            title,
            artist,
            album,
            album_artist,
            album_id,
            art_id,
            duration_secs,
            ext_hint,
            radio,
            radio_context,
            playlist_context,
        } => SourceRef::LocalTrack {
            track_id,
            file_name,
            title,
            artist,
            album,
            album_artist,
            album_id,
            art_id,
            duration_secs,
            ext_hint,
            radio: radio || on,
            radio_context,
            playlist_context,
        },
        SourceRef::QobuzTrack {
            track_id,
            title,
            artist,
            album,
            album_id,
            image_url,
            duration_secs,
            radio,
            radio_context,
            playlist_context,
        } => SourceRef::QobuzTrack {
            track_id,
            title,
            artist,
            album,
            album_id,
            image_url,
            duration_secs,
            radio: radio || on,
            radio_context,
            playlist_context,
        },
    }
}

/// The source, marked as radio when `radio` says so.
pub fn source_ref_with_radio(source: SourceRef, radio: bool) -> (r: SourceRef)
    ensures
        r == spec_with_radio(source, radio),
{
    let mut source = source;
    match &mut source {
        SourceRef::LocalTrack { radio: mark, .. } => {
            *mark = *mark || radio;
        },
        SourceRef::QobuzTrack { radio: mark, .. } => {
            *mark = *mark || radio;
        },
    }
    source
}

/// The source with another radio context; none leaves it as it is.
pub open spec fn spec_with_radio_context(
    source: SourceRef,
    context: Option<RadioContext>,
) -> SourceRef {
    if context is None {
        source
    } else {
        match source {
            SourceRef::LocalTrack {
                track_id,
                file_name,
                title,
                artist,
                album,
                album_artist,
                album_id,
                art_id,
                duration_secs,
                ext_hint,
                radio,
                playlist_context,
                ..
            } => SourceRef::LocalTrack {
                track_id,
                file_name,
                title,
                artist,
                album,
                album_artist,
                album_id,
                art_id,
                duration_secs,
                ext_hint,
                radio,
                radio_context: context,
                playlist_context,
            },
            SourceRef::QobuzTrack {
                track_id,
                title,
                artist,
                album,
                album_id,
                image_url,
                duration_secs,
                radio,
                playlist_context,
                ..
            } => SourceRef::QobuzTrack {
                track_id,
                title,
                artist,
                album,
                album_id,
                image_url,
                duration_secs,
                radio,
                radio_context: context,
                playlist_context,
            },
        }
    }
}

/// The source with another radio context; none leaves it as it is.
pub fn source_ref_with_radio_context(source: SourceRef, radio_context: Option<RadioContext>) -> (r:
    SourceRef)
    ensures
        r == spec_with_radio_context(source, radio_context),
{
    let mut source = source;
    if radio_context.is_none() {
        return source;
    }
    match &mut source {
        SourceRef::LocalTrack { radio_context: context, .. } => {
            *context = radio_context;
        },
        SourceRef::QobuzTrack { radio_context: context, .. } => {
            *context = radio_context;
        },
    }
    source
}

/// The source with another playlist context; none leaves it as it is.
pub open spec fn spec_with_playlist_context(
    source: SourceRef,
    context: Option<PlaylistContext>,
) -> SourceRef {
    if context is None {
        source
    } else {
        match source {
            SourceRef::LocalTrack {
                track_id,
                file_name,
                title,
                artist,
                album,
                album_artist,
                album_id,
                art_id,
                duration_secs,
                ext_hint,
                radio,
                radio_context,
                ..
            } => SourceRef::LocalTrack {
                track_id,
                file_name,
                title,
                artist,
                album,
                album_artist,
                album_id,
                art_id,
                duration_secs,
                ext_hint,
                radio,
                radio_context,
                playlist_context: context,
            },
            SourceRef::QobuzTrack {
                track_id,
                title,
                artist,
                album,
                album_id,
                image_url,
                duration_secs,
                radio,
                radio_context,
                ..
            } => SourceRef::QobuzTrack {
                track_id,
                title,
                artist,
                album,
                album_id,
                image_url,
                duration_secs,
                radio,
                radio_context,
                playlist_context: context,
            },
        }
    }
}

/// The source with another playlist context; none leaves it as it is.
pub fn source_ref_with_playlist_context(
    source: SourceRef,
    playlist_context: Option<PlaylistContext>,
) -> (r: SourceRef)
    ensures
        r == spec_with_playlist_context(source, playlist_context),
{
    let mut source = source;
    if playlist_context.is_none() {
        return source;
    }
    match &mut source {
        SourceRef::LocalTrack { playlist_context: context, .. } => {
            *context = playlist_context;
        },
        SourceRef::QobuzTrack { playlist_context: context, .. } => {
            *context = playlist_context;
        },
    }
    source
}

/// Contexts and marks never change which track a source is.
pub proof fn law_contexts_keep_key(
    source: SourceRef,
    radio: bool,
    radio_context: Option<RadioContext>,
    playlist_context: Option<PlaylistContext>,
)
    ensures
        spec_with_radio(source, radio).spec_key() == source.spec_key(),
        spec_with_radio_context(source, radio_context).spec_key() == source.spec_key(),
        spec_with_playlist_context(source, playlist_context).spec_key() == source.spec_key(),
        source.spec_is_radio() ==> spec_with_radio(source, radio).spec_is_radio(),
        spec_with_radio(spec_with_radio(source, radio), radio) == spec_with_radio(source, radio),
{
}

/// The source of a request has each field of the request in its own place.
pub proof fn law_request_source_is_the_requested_track(req: QobuzPlayRequest)
    ensures
        match spec_request_source(req) {
            SourceRef::QobuzTrack {
                track_id,
                title,
                artist,
                album,
                album_id,
                image_url,
                duration_secs,
                radio,
                radio_context,
                playlist_context,
            } => {
                &&& track_id == req.track_id
                &&& title == req.title
                &&& artist == req.artist
                &&& album == req.album
                &&& album_id == req.album_id
                &&& image_url == req.image_url
                &&& duration_secs == req.duration_secs
                &&& radio == req.radio_auto
                &&& radio_context is None
                &&& playlist_context == req.playlist_context
            },
            _ => false,
        },
{
}

/// A request for a source asks for the source's track with the source's own
/// tags, and replaces what plays.
pub proof fn law_request_asks_for_the_source(
    req: QobuzPlayRequest,
    source: SourceRef,
    queue_sources: Seq<SourceRef>,
    radio_auto: bool,
)
    requires
        is_request_for(req, source, queue_sources, radio_auto),
    ensures
        Some(req.track_id) == source.spec_qobuz_track_id(),
        req.title == source->QobuzTrack_title,
        req.artist == source->QobuzTrack_artist,
        req.album == source->QobuzTrack_album,
        req.album_id == source->QobuzTrack_album_id,
        req.image_url == source->QobuzTrack_image_url,
        req.duration_secs == source->QobuzTrack_duration_secs,
        req.playlist_context == source->QobuzTrack_playlist_context,
        req.radio_auto == (radio_auto || source->QobuzTrack_radio),
        req.replace_current,
        req.expected_current is None,
{
}

/// A queued track and its source have the same fields, and a queued track
/// comes back from its source; one that a radio queued is marked so.
pub proof fn law_queued_tracks_keep_their_fields(track: QobuzQueueTrack, fallback_radio: bool)
    ensures
        ({
            let source = spec_queue_source(track, fallback_radio);
            let back = spec_queue_track(source);
            &&& source is QobuzTrack
            &&& source->QobuzTrack_track_id == track.track_id
            &&& source->QobuzTrack_title == track.title
            &&& source->QobuzTrack_artist == track.artist
            &&& source->QobuzTrack_album == track.album
            &&& source->QobuzTrack_album_id == track.album_id
            &&& source->QobuzTrack_image_url == track.image_url
            &&& source->QobuzTrack_duration_secs == track.duration_secs
            &&& source->QobuzTrack_playlist_context == track.playlist_context
            &&& source->QobuzTrack_radio == (track.radio || fallback_radio)
            &&& back is Some
            &&& back->0.track_id == track.track_id
            &&& back->0.title == track.title
            &&& back->0.artist == track.artist
            &&& back->0.album == track.album
            &&& back->0.album_id == track.album_id
            &&& back->0.image_url == track.image_url
            &&& back->0.duration_secs == track.duration_secs
            &&& back->0.playlist_context == track.playlist_context
            &&& back->0.radio == (track.radio || fallback_radio)
        }),
{
}

/// The queue of a request has its tracks in their order.
pub proof fn law_request_queue_keeps_order(req: QobuzPlayRequest, i: int)
    requires
        0 <= i < req.queue@.len(),
    ensures
        spec_request_queue(req).len() == req.queue@.len(),
        spec_request_queue(req)[i].spec_qobuz_track_id() == Some(req.queue@[i].track_id),
{
}

/// A track of the service becomes a source with the track's own tags, and with
/// a duration where the service knows one.
pub proof fn law_service_track_becomes_source(track: QobuzTrack, radio: bool, r: SourceRef)
    requires
        call_ensures(qobuz_source_ref_from_track, (&track, radio), r),
    ensures
        r is QobuzTrack,
        r->QobuzTrack_track_id == track.id,
        r->QobuzTrack_title == Some(track.title),
        r->QobuzTrack_artist == Some(track.artist),
        r->QobuzTrack_album == Some(track.album),
        r->QobuzTrack_album_id == track.album_id,
        r->QobuzTrack_image_url == track.image_url,
        r->QobuzTrack_radio == radio,
        r->QobuzTrack_duration_secs is Some <==> track.duration > 0,
{
}

/// Marking a source as the radio's, or giving it a context, leaves the track
/// and its tags alone.
pub proof fn law_marks_leave_tags_alone(
    source: SourceRef,
    radio: bool,
    radio_context: Option<RadioContext>,
    playlist_context: Option<PlaylistContext>,
)
    ensures
        ({
            let r = spec_with_playlist_context(
                spec_with_radio_context(spec_with_radio(source, radio), radio_context),
                playlist_context,
            );
            match (source, r) {
                (SourceRef::LocalTrack { .. }, SourceRef::LocalTrack { .. }) => {
                    &&& r->LocalTrack_track_id == source->LocalTrack_track_id
                    &&& r->LocalTrack_file_name == source->LocalTrack_file_name
                    &&& r->LocalTrack_title == source->LocalTrack_title
                    &&& r->LocalTrack_artist == source->LocalTrack_artist
                    &&& r->LocalTrack_album == source->LocalTrack_album
                    &&& r->LocalTrack_album_artist == source->LocalTrack_album_artist
                    &&& r->LocalTrack_album_id == source->LocalTrack_album_id
                    &&& r->LocalTrack_art_id == source->LocalTrack_art_id
                    &&& r->LocalTrack_duration_secs == source->LocalTrack_duration_secs
                    &&& r->LocalTrack_ext_hint == source->LocalTrack_ext_hint
                    &&& r->LocalTrack_radio == (source->LocalTrack_radio || radio)
                    &&& r->LocalTrack_radio_context == (if radio_context is Some {
                        radio_context
                    } else {
                        source->LocalTrack_radio_context
                    })
                    &&& r->LocalTrack_playlist_context == (if playlist_context is Some {
                        playlist_context
                    } else {
                        source->LocalTrack_playlist_context
                    })
                },
                (SourceRef::QobuzTrack { .. }, SourceRef::QobuzTrack { .. }) => {
                    &&& r->QobuzTrack_track_id == source->QobuzTrack_track_id
                    &&& r->QobuzTrack_title == source->QobuzTrack_title
                    &&& r->QobuzTrack_artist == source->QobuzTrack_artist
                    &&& r->QobuzTrack_album == source->QobuzTrack_album
                    &&& r->QobuzTrack_album_id == source->QobuzTrack_album_id
                    &&& r->QobuzTrack_image_url == source->QobuzTrack_image_url
                    &&& r->QobuzTrack_duration_secs == source->QobuzTrack_duration_secs
                    &&& r->QobuzTrack_radio == (source->QobuzTrack_radio || radio)
                    &&& r->QobuzTrack_radio_context == (if radio_context is Some {
                        radio_context
                    } else {
                        source->QobuzTrack_radio_context
                    })
                    &&& r->QobuzTrack_playlist_context == (if playlist_context is Some {
                        playlist_context
                    } else {
                        source->QobuzTrack_playlist_context
                    })
                },
                _ => false,
            }
        }),
{
}

} // verus!
