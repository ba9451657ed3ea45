//! Playback on Sonos speakers.

use crate::audio::{TrackCover, TrackTags};
use crate::bytes;
use crate::digest;
use crate::playback::error::{ErrorKind, PlaybackError};
use crate::playback::request::PlaybackGuard;
use crate::playback::sequencer::PlaybackCommandSequencer;
use crate::playback::upnp_dsp::layout;
use crate::protocol::source::SourceRef;
use crate::text;
use vstd::prelude::*;
use vstd::string::*;

verus! {

/// How many tracks a speaker is told of ahead of time.
pub const SONOS_PREFETCH_WINDOW: usize = 2;

/// What a speaker can be given.
#[allow(inconsistent_fields)]
pub enum SonosSource {
    LocalFile { path: String, tags: TrackTags, cover: Option<TrackCover> },
    RemoteStream {
        id: String,
        stream_url: String,
        mime_type: String,
        art_url: Option<String>,
        tags: TrackTags,
        source_rate: u32,
        source_bits: u32,
    },
}

/// The target of a zone, which must be bound to a speaker.
pub fn sonos_target_for_zone<T>(bound_target: Option<T>) -> (r: Result<T, PlaybackError>)
    ensures
        match bound_target {
            Some(target) => r == Ok::<T, PlaybackError>(target),
            None => r is Err && r->Err_0.is(ErrorKind::NotFound, "Sonos zone not available"@),
        },
{
    match bound_target {
        Some(target) => Ok(target),
        None => Err(PlaybackError::not_found("Sonos zone not available")),
    }
}

/// A prepared asset is only played while its command is current.
pub fn play_sonos_source_for_zone(guard: &PlaybackGuard, sequencer: &PlaybackCommandSequencer)
    -> (r: Result<(), PlaybackError>)
    requires
        sequencer.wf(),
    ensures
        r is Ok <==> guard.spec_current(*sequencer),
        r is Err ==> r->Err_0.is(ErrorKind::Conflict, "Playback changed"@),
{
    if !guard.is_current(sequencer) {
        return Err(PlaybackError::conflict("Playback changed"));
    }
    Ok(())
}

/// The name under which a speaker shows an asset.
pub fn sonos_asset_file_name(title: Option<String>, asset_id: &str) -> (r: String)
    ensures
        r@ == (match title {
            Some(t) => t@,
            None => "sonos:"@ + asset_id@,
        }),
{
    match title {
        Some(title) => title,
        None => text::joined("sonos:", asset_id),
    }
}

/// The tags of a local file for a speaker, which reads its length itself.
pub open spec fn spec_local_tags(source: SourceRef) -> TrackTags {
    TrackTags {
        album_artist: None,
        duration_secs: None,
        ..layout::spec_tags(source)
    }
}

/// A local file for a speaker.
pub fn sonos_local_source(source_ref: &SourceRef, path: String, cover: Option<TrackCover>) -> (r:
    SonosSource)
    ensures
        r == (SonosSource::LocalFile { path, tags: spec_local_tags(*source_ref), cover }),
{
    let mut tags = layout::tags_for_source_ref(source_ref);
    tags.album_artist = None;
    tags.duration_secs = None;
    SonosSource::LocalFile { path, tags, cover }
}

/// The address of a registered stream.
pub open spec fn spec_sonos_stream_url(
    base: Seq<char>,
    track_id: u64,
    asset_id: Seq<char>,
    token: Seq<char>,
) -> Seq<char> {
    text::without_trailing(base, '/') + "/sonos/qobuz/"@ + text::decimal(track_id as nat)
        + "?asset="@ + digest::percent_text(asset_id) + "&token="@ + digest::percent_text(token)
}

/// The address of a registered stream.
pub fn sonos_stream_url(public_base_url: &str, track_id: u64, asset_id: &str, token: &str) -> (r:
    String)
    ensures
        r@ == spec_sonos_stream_url(public_base_url@, track_id, asset_id@, token@),
{
    let mut url = text::trim_end_char(public_base_url, '/');
    url.append("/sonos/qobuz/");
    text::push_decimal(&mut url, track_id);
    url.append("?asset=");
    url.append(digest::percent_encode(asset_id).as_str());
    url.append("&token=");
    url.append(digest::percent_encode(token).as_str());
    url
}

/// The address of a registered cover.
pub open spec fn spec_sonos_art_url(
    base: Seq<char>,
    asset_id: Seq<char>,
    token: Seq<char>,
) -> Seq<char> {
    text::without_trailing(base, '/') + "/sonos/art/"@ + digest::percent_text(asset_id)
        + "?token="@ + digest::percent_text(token)
}

/// The address of a registered cover.
pub fn sonos_art_url(public_base_url: &str, asset_id: &str, token: &str) -> (r: String)
    ensures
        r@ == spec_sonos_art_url(public_base_url@, asset_id@, token@),
{
    let mut url = text::trim_end_char(public_base_url, '/');
    url.append("/sonos/art/");
    url.append(digest::percent_encode(asset_id).as_str());
    url.append("?token=");
    url.append(digest::percent_encode(token).as_str());
    url
}

/// A stream of the service for a speaker. A cover that could be fetched is
/// served from here; else the service's own address stands in.
pub fn sonos_source_from_ref(
    source_ref: &SourceRef,
    track_id: u64,
    public_base_url: &str,
    asset_id: String,
    token: &str,
    mime_type: String,
    source_rate: u32,
    source_bits: u32,
    has_cover: bool,
) -> (r: SonosSource)
    requires
        source_ref.spec_qobuz_track_id() == Some(track_id),
    ensures
        r is RemoteStream,
        r == (SonosSource::RemoteStream {
            id: asset_id,
            stream_url: r->stream_url,
            mime_type,
            art_url: r->art_url,
            tags: layout::spec_tags(*source_ref),
            source_rate,
            source_bits,
        }),
        r->stream_url@ == spec_sonos_stream_url(public_base_url@, track_id, asset_id@, token@),
        text::opt_text(r->art_url) == (if has_cover {
            Some(spec_sonos_art_url(public_base_url@, asset_id@, token@))
        } else {
            text::opt_text(source_ref->image_url)
        }),
{
    let stream_url = sonos_stream_url(public_base_url, track_id, asset_id.as_str(), token);
    let art_url = if has_cover {
        Some(sonos_art_url(public_base_url, asset_id.as_str(), token))
    } else {
        match source_ref {
            SourceRef::QobuzTrack { image_url, .. } => image_url.clone(),
            SourceRef::LocalTrack { .. } => None,
        }
    };
    SonosSource::RemoteStream {
        id: asset_id,
        stream_url,
        mime_type,
        art_url,
        tags: layout::tags_for_source_ref(source_ref),
        source_rate,
        source_bits,
    }
}

/// The sources of a queue that a speaker is told of ahead of time.
pub fn sonos_prefetch_window(queue_sources: &[SourceRef]) -> (r: Vec<SourceRef>)
    ensures
        r@ == (if queue_sources@.len() <= SONOS_PREFETCH_WINDOW {
            queue_sources@
        } else {
            queue_sources@.take(SONOS_PREFETCH_WINDOW as int)
        }),
{
    let count: usize = if queue_sources.len() <= SONOS_PREFETCH_WINDOW {
        queue_sources.len()
    } else {
        SONOS_PREFETCH_WINDOW
    };
    let mut out: Vec<SourceRef> = Vec::new();
    let mut i: usize = 0;
    while i < count
        invariant
            i <= count <= queue_sources@.len(),
            out@ =~= queue_sources@.take(i as int),
        decreases count - i,
    {
        out.push(queue_sources[i].clone());
        i = i + 1;
    }
    proof {
        if count == queue_sources@.len() {
            assert(queue_sources@.take(count as int) =~= queue_sources@);
        }
    }
    out
}

/// What happens to a track that a speaker is told of.
#[derive(Clone, Copy, Debug, PartialEq, Eq, Structural)]
pub enum SonosHandover {
    /// Make it the speaker's next track.
    SetNext,
    /// Append it behind the last one handed over.
    Append,
    /// Leave it out and go on with the one after it.
    Skip,
    /// Stop here.
    Stop,
    /// Stop here and leave a notice.
    StopWithNotice,
}

/// What happens to the `index`-th track of the window. The first one has to be
/// prepared, a later one may be left out; nothing is handed over once the
/// command is stale or the speaker has moved on.
pub fn prefetch_sonos_next(
    index: usize,
    prepared: bool,
    guard: &PlaybackGuard,
    sequencer: &PlaybackCommandSequencer,
    current_matches: bool,
) -> (r: SonosHandover)
    requires
        sequencer.wf(),
    ensures
        r == (if !prepared {
            if index == 0 {
                SonosHandover::StopWithNotice
            } else {
                SonosHandover::Skip
            }
        } else if !guard.spec_current(*sequencer) || !current_matches {
            SonosHandover::Stop
        } else if index == 0 {
            SonosHandover::SetNext
        } else {
            SonosHandover::Append
        }),
{
    if !prepared {
        return if index == 0 {
            SonosHandover::StopWithNotice
        } else {
            SonosHandover::Skip
        };
    }
    if !guard.is_current(sequencer) || !current_matches {
        return SonosHandover::Stop;
    }
    if index == 0 {
        SonosHandover::SetNext
    } else {
        SonosHandover::Append
    }
}

/// A file is shown with its source's title, artist and album; how long it is,
/// the speaker finds out.
pub proof fn law_speaker_shows_file_of_source(source: SourceRef)
    ensures
        spec_local_tags(source).title == layout::spec_tags(source).title,
        spec_local_tags(source).artist == layout::spec_tags(source).artist,
        spec_local_tags(source).album == layout::spec_tags(source).album,
        spec_local_tags(source).album_artist is None,
        spec_local_tags(source).duration_secs is None,
{
}

/// A stream is handed to the speaker under its own id, with its source's tags
/// and format, and with the service's art unless there is a cover of its own.
pub proof fn law_speaker_gets_stream_of_source(
    source: SourceRef,
    track_id: u64,
    public_base_url: &str,
    asset_id: String,
    token: &str,
    mime_type: String,
    source_rate: u32,
    source_bits: u32,
    has_cover: bool,
    r: SonosSource,
)
    requires
        source.spec_qobuz_track_id() == Some(track_id),
        call_ensures(
            sonos_source_from_ref,
            (
                &source,
                track_id,
                public_base_url,
                asset_id,
                token,
                mime_type,
                source_rate,
                source_bits,
                has_cover,
            ),
            r,
        ),
    ensures
        match r {
            SonosSource::RemoteStream {
                id,
                stream_url,
                mime_type: mime,
                art_url,
                tags,
                source_rate: rate,
                source_bits: bits,
            } => {
                &&& id == asset_id
                &&& mime == mime_type
                &&& rate == source_rate
                &&& bits == source_bits
                &&& tags.title == source->QobuzTrack_title
                &&& tags.artist == source->QobuzTrack_artist
                &&& tags.album == source->QobuzTrack_album
                &&& tags.duration_secs == source->QobuzTrack_duration_secs
                &&& stream_url@ == spec_sonos_stream_url(
                    public_base_url@,
                    track_id,
                    asset_id@,
                    token@,
                )
                &&& !has_cover ==> text::opt_text(art_url) == text::opt_text(
                    source->QobuzTrack_image_url,
                )
                &&& has_cover ==> art_url is Some
            },
            _ => false,
        },
{
}

/// Different tracks are fetched from different addresses, and slashes at the
/// end of the server's address do not matter.
pub proof fn law_tracks_are_fetched_apart(
    base: Seq<char>,
    track: u64,
    other: u64,
    asset_id: Seq<char>,
    token: Seq<char>,
)
    requires
        track != other,
    ensures
        spec_sonos_stream_url(base, track, asset_id, token) != spec_sonos_stream_url(
            base,
            other,
            asset_id,
            token,
        ),
        spec_sonos_stream_url(base.push('/'), track, asset_id, token) == spec_sonos_stream_url(
            base,
            track,
            asset_id,
            token,
        ),
        spec_sonos_art_url(base.push('/'), asset_id, token) == spec_sonos_art_url(
            base,
            asset_id,
            token,
        ),
{
    let a = spec_sonos_stream_url(base, track, asset_id, token);
    let b = spec_sonos_stream_url(base, other, asset_id, token);
    let before = text::without_trailing(base, '/') + "/sonos/qobuz/"@;
    let after = "?asset="@ + digest::percent_text(asset_id) + "&token="@ + digest::percent_text(
        token,
    );
    assert(base.push('/').drop_last() =~= base);
    if a == b {
        assert(a =~= before + text::decimal(track as nat) + after);
        assert(b =~= before + text::decimal(other as nat) + after);
        bytes::law_middle_cancels(
            before,
            text::decimal(track as nat),
            text::decimal(other as nat),
            after,
        );
        text::lemma_decimal_injective(track as nat, other as nat);
    }
}

/// The speaker is prepared for at most the next two sources, in their order.
pub proof fn law_speaker_prepares_the_next_two(queue: &[SourceRef], r: Vec<SourceRef>, i: int)
    requires
        call_ensures(sonos_prefetch_window, (queue,), r),
    ensures
        r@.len() <= 2,
        queue@.len() <= 2 ==> r@.len() == queue@.len(),
        queue@.len() > 2 ==> r@.len() == 2,
        0 <= i < r@.len() ==> r@[i] == queue@[i],
{
}

/// The first prepared source becomes the next one and the others follow it; a
/// changed playback stops the handover, and so does a first source that could
/// not be prepared.
pub proof fn law_handover_keeps_order(
    index: usize,
    prepared: bool,
    guard: PlaybackGuard,
    sequencer: PlaybackCommandSequencer,
    current_matches: bool,
    r: SonosHandover,
)
    requires
        sequencer.wf(),
        call_ensures(
            prefetch_sonos_next,
            (index, prepared, &guard, &sequencer, current_matches),
            r,
        ),
    ensures
        r is SetNext ==> index == 0 && prepared && current_matches,
        r is Append ==> index > 0 && prepared && current_matches,
        r is Skip <==> !prepared && index > 0,
        r is StopWithNotice <==> !prepared && index == 0,
        prepared && current_matches && guard.expected_sequence is None ==> (if index == 0 {
            r is SetNext
        } else {
            r is Append
        }),
        prepared && !current_matches ==> r is Stop,
{
}

} // verus!
