//! References to playable sources.

use crate::audio::Real64;
use crate::text;
use vstd::prelude::*;

verus! {

/// The track a radio recommendation started from.
#[derive(Debug, Default)]
pub struct RadioSeedContext {
    pub title: Option<String>,
    pub artist: Option<String>,
    pub mbid: Option<String>,
}

impl Clone for RadioSeedContext {
    fn clone(&self) -> (r: RadioSeedContext)
        ensures
            r == *self,
    {
        RadioSeedContext {
            title: self.title.clone(),
            artist: self.artist.clone(),
            mbid: self.mbid.clone(),
        }
    }
}

/// Where in a radio session a source was recommended.
#[derive(Debug, Default)]
pub struct RadioContext {
    pub provider: String,
    pub anchor: RadioSeedContext,
    pub last_seed: RadioSeedContext,
    pub hop: u32,
}

impl Clone for RadioContext {
    fn clone(&self) -> (r: RadioContext)
        ensures
            r == *self,
    {
        RadioContext {
            provider: self.provider.clone(),
            anchor: self.anchor.clone(),
            last_seed: self.last_seed.clone(),
            hop: self.hop,
        }
    }
}

/// The playlist that a source was queued from.
#[derive(Debug, Default)]
pub struct PlaylistContext {
    pub playlist_id: String,
}

impl Clone for PlaylistContext {
    fn clone(&self) -> (r: PlaylistContext)
        ensures
            r == *self,
    {
        PlaylistContext { playlist_id: self.playlist_id.clone() }
    }
}

/// A playable source: a track of the local library or of the streaming
/// service.
#[allow(inconsistent_fields)]
#[derive(Debug)]
pub enum SourceRef {
    LocalTrack {
        track_id: i64,
        file_name: Option<String>,
        title: Option<String>,
        artist: Option<String>,
        album: Option<String>,
        album_artist: Option<String>,
        album_id: Option<i64>,
        art_id: Option<i64>,
        duration_secs: Option<Real64>,
        ext_hint: Option<String>,
        radio: bool,
        radio_context: Option<RadioContext>,
        playlist_context: Option<PlaylistContext>,
    },
    QobuzTrack {
        track_id: u64,
        title: Option<String>,
        artist: Option<String>,
        album: Option<String>,
        album_id: Option<String>,
        image_url: Option<String>,
        duration_secs: Option<Real64>,
        radio: bool,
        radio_context: Option<RadioContext>,
        playlist_context: Option<PlaylistContext>,
    },
}

impl Clone for SourceRef {
    fn clone(&self) -> (r: SourceRef)
        ensures
            r == *self,
    {
        match self {
            SourceRef::LocalTrack {
                track_id,
                file_name,
                title,
                artist,
                album,
                album_artist,
                album_id,
                art_id,
                duration_secs,
                ext_hint,
                radio,
                radio_context,
                playlist_context,
            } => SourceRef::LocalTrack {
                track_id: *track_id,
                file_name: file_name.clone(),
                title: title.clone(),
                artist: artist.clone(),
                album: album.clone(),
                album_artist: album_artist.clone(),
                album_id: *album_id,
                art_id: *art_id,
                duration_secs: *duration_secs,
                ext_hint: ext_hint.clone(),
                radio: *radio,
                radio_context: radio_context.clone(),
                playlist_context: playlist_context.clone(),
            },
            SourceRef::QobuzTrack {
                track_id,
                title,
                artist,
                album,
                album_id,
                image_url,
                duration_secs,
                radio,
                radio_context,
                playlist_context,
            } => SourceRef::QobuzTrack {
                track_id: *track_id,
                title: title.clone(),
                artist: artist.clone(),
                album: album.clone(),
                album_id: album_id.clone(),
                image_url: image_url.clone(),
                duration_secs: *duration_secs,
                radio: *radio,
                radio_context: radio_context.clone(),
                playlist_context: playlist_context.clone(),
            },
        }
    }
}

/// The key of a local track.
pub open spec fn local_key(track_id: int) -> Seq<char> {
    "local:"@ + text::signed_decimal(track_id)
}

/// The key of a streaming track.
pub open spec fn qobuz_key(track_id: nat) -> Seq<char> {
    "qobuz:"@ + text::decimal(track_id)
}

/// The key of a local track.
pub fn local_key_text(track_id: i64) -> (r: String)
    ensures
        r@ == local_key(track_id as int),
{
    text::joined("local:", text::decimal_i64(track_id).as_str())
}

/// The key of a streaming track.
pub fn qobuz_key_text(track_id: u64) -> (r: String)
    ensures
        r@ == qobuz_key(track_id as nat),
{
    text::joined("qobuz:", text::decimal_u64(track_id).as_str())
}

impl SourceRef {
    pub open spec fn spec_kind(self) -> Seq<char> {
        match self {
            SourceRef::LocalTrack { .. } => "local_track"@,
            SourceRef::QobuzTrack { .. } => "qobuz_track"@,
        }
    }

    /// The kind of source, as clients see it.
    pub fn kind(&self) -> (r: &'static str)
        ensures
            r@ == self.spec_kind(),
    {
        match self {
            SourceRef::LocalTrack { .. } => "local_track",
            SourceRef::QobuzTrack { .. } => "qobuz_track",
        }
    }

    pub open spec fn spec_local_track_id(self) -> Option<i64> {
        match self {
            SourceRef::LocalTrack { track_id, .. } => Some(track_id),
            SourceRef::QobuzTrack { .. } => None,
        }
    }

    /// The library's track number, for a local track.
    pub fn local_track_id(&self) -> (r: Option<i64>)
        ensures
            r == self.spec_local_track_id(),
    {
        match self {
            SourceRef::LocalTrack { track_id, .. } => Some(*track_id),
            SourceRef::QobuzTrack { .. } => None,
        }
    }

    pub open spec fn spec_qobuz_track_id(self) -> Option<u64> {
        match self {
            SourceRef::QobuzTrack { track_id, .. } => Some(track_id),
            SourceRef::LocalTrack { .. } => None,
        }
    }

    /// The streaming service's track number, for a streaming track.
    pub fn qobuz_track_id(&self) -> (r: Option<u64>)
        ensures
            r == self.spec_qobuz_track_id(),
    {
        match self {
            SourceRef::QobuzTrack { track_id, .. } => Some(*track_id),
            SourceRef::LocalTrack { .. } => None,
        }
    }

    pub open spec fn spec_key(self) -> Seq<char> {
        match self {
            SourceRef::LocalTrack { track_id, .. } => local_key(track_id as int),
            SourceRef::QobuzTrack { track_id, .. } => qobuz_key(track_id as nat),
        }
    }

    /// The key that identifies the track across metadata changes.
    pub fn key(&self) -> (r: String)
        ensures
            r@ == self.spec_key(),
    {
        match self {
            SourceRef::LocalTrack { track_id, .. } => local_key_text(*track_id),
            SourceRef::QobuzTrack { track_id, .. } => qobuz_key_text(*track_id),
        }
    }

    pub open spec fn spec_is_radio(self) -> bool {
        match self {
            SourceRef::LocalTrack { radio, .. } => radio,
            SourceRef::QobuzTrack { radio, .. } => radio,
        }
    }

    /// Whether a radio recommended this source.
    pub fn is_radio(&self) -> (r: bool)
        ensures
            r == self.spec_is_radio(),
    {
        match self {
            SourceRef::LocalTrack { radio, .. } => *radio,
            SourceRef::QobuzTrack { radio, .. } => *radio,
        }
    }

    pub open spec fn spec_playlist_context(self) -> Option<PlaylistContext> {
        match self {
            SourceRef::LocalTrack { playlist_context, .. } => playlist_context,
            SourceRef::QobuzTrack { playlist_context, .. } => playlist_context,
        }
    }

    /// The trimmed playlist identifier, when it is not blank.
    pub open spec fn spec_playlist_id(self) -> Option<Seq<char>> {
        match self.spec_playlist_context() {
            Some(context) => if text::trimmed(context.playlist_id@).len() > 0 {
                Some(text::trimmed(context.playlist_id@))
            } else {
                None
            },
            None => None,
        }
    }

    /// The playlist that the source was queued from, when one is named.
    pub fn playlist_id(&self) -> (r: Option<&str>)
        ensures
            text::opt_str(r) == self.spec_playlist_id(),
    {
        let context: &Option<PlaylistContext> = match self {
            SourceRef::LocalTrack { playlist_context, .. } => playlist_context,
            SourceRef::QobuzTrack { playlist_context, .. } => playlist_context,
        };
        match context {
            Some(context) => {
                let id = context.playlist_id.as_str().trim();
                if id.is_empty() {
                    None
                } else {
                    Some(id)
                }
            },
            None => None,
        }
    }
}

/// Two sources have one key exactly when they are the same track: of one
/// kind, with one track number.
pub proof fn law_key_identifies_track(a: SourceRef, b: SourceRef)
    ensures
        a.spec_key() == b.spec_key() <==> a.spec_local_track_id() == b.spec_local_track_id()
            && a.spec_qobuz_track_id() == b.spec_qobuz_track_id(),
{
    reveal_strlit("local:");
    reveal_strlit("qobuz:");
    let x = a.spec_key();
    let y = b.spec_key();
    if x == y {
        assert(x[0] == y[0]);
        match a {
            SourceRef::LocalTrack { track_id: m, .. } => {
                assert(x[0] == 'l');
                match b {
                    SourceRef::LocalTrack { track_id: n, .. } => {
                        assert(x.skip(6) =~= text::signed_decimal(m as int));
                        assert(y.skip(6) =~= text::signed_decimal(n as int));
                        text::lemma_signed_decimal_injective(m as int, n as int);
                    },
                    SourceRef::QobuzTrack { .. } => {
                        assert(y[0] == 'q');
                    },
                }
            },
            SourceRef::QobuzTrack { track_id: m, .. } => {
                assert(x[0] == 'q');
                match b {
                    SourceRef::QobuzTrack { track_id: n, .. } => {
                        assert(x.skip(6) =~= text::decimal(m as nat));
                        assert(y.skip(6) =~= text::decimal(n as nat));
                        text::lemma_decimal_injective(m as nat, n as nat);
                    },
                    SourceRef::LocalTrack { .. } => {
                        assert(y[0] == 'l');
                    },
                }
            },
        }
    }
}

/// The key of a source says where the track is from and gives its number.
pub proof fn law_keys_give_origin_and_number(source: SourceRef)
    ensures
        source matches SourceRef::LocalTrack { track_id, radio, .. } ==> {
            &&& source.spec_key() == "local:"@ + text::signed_decimal(track_id as int)
            &&& source.spec_kind() == "local_track"@
            &&& source.spec_local_track_id() == Some(track_id)
            &&& source.spec_qobuz_track_id() is None
            &&& source.spec_is_radio() == radio
        },
        source matches SourceRef::QobuzTrack { track_id, radio, .. } ==> {
            &&& source.spec_key() == "qobuz:"@ + text::decimal(track_id as nat)
            &&& source.spec_kind() == "qobuz_track"@
            &&& source.spec_qobuz_track_id() == Some(track_id)
            &&& source.spec_local_track_id() is None
            &&& source.spec_is_radio() == radio
        },
{
}

/// A source that was queued from a playlist names it, without white space; a
/// blank name is none.
pub proof fn law_playlist_is_named(source: SourceRef)
    ensures
        source.spec_playlist_id() matches Some(id) ==> id.len() > 0 && text::is_trimmed(id),
        source matches SourceRef::LocalTrack { playlist_context: Some(context), .. } ==> (
        context.playlist_id@.len() > 0 && text::is_trimmed(context.playlist_id@)
            ==> source.spec_playlist_id() == Some(context.playlist_id@)),
        source matches SourceRef::QobuzTrack { playlist_context: Some(context), .. } ==> (
        context.playlist_id@.len() > 0 && text::is_trimmed(context.playlist_id@)
            ==> source.spec_playlist_id() == Some(context.playlist_id@)),
        source matches SourceRef::LocalTrack { playlist_context: None, .. }
            ==> source.spec_playlist_id() is None,
        source matches SourceRef::QobuzTrack { playlist_context: None, .. }
            ==> source.spec_playlist_id() is None,
{
    if source.spec_playlist_context() is Some {
        text::law_trimmed(source.spec_playlist_context()->0.playlist_id@);
    }
}

} // verus!
