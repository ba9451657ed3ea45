//! From requests to sources and files.

use crate::audio::{TrackCover, TrackTags};
use crate::playback::error::ResolveError;
use crate::playback::source;
use crate::playback::source::{
    source_ref_with_playlist_context, source_ref_with_radio, source_ref_with_radio_context,
};
use crate::protocol::source::SourceRef;
use crate::text;
use vstd::prelude::*;
use vstd::string::*;

verus! {

/// An item of a queue request: a source, or a reference to a local track.
pub enum QueueRequestItem {
    Source(SourceRef),
    Local { file_name: Option<String>, track_id: Option<i64> },
}

/// What has to be looked up in the library for a request.
#[derive(Debug)]
pub enum TrackLookup {
    ById(i64),
    ByFileName(String),
    /// The request names no track.
    Nothing,
}

/// The request looks up the id it gives, else the file name.
pub open spec fn looks_up(lookup: TrackLookup, track_id: Option<i64>, name: Option<Seq<char>>) -> bool {
    match lookup {
        TrackLookup::ById(id) => track_id == Some(id),
        TrackLookup::ByFileName(file) => track_id is None && name == Some(file@),
        TrackLookup::Nothing => track_id is None && name is None,
    }
}

/// What has to be looked up for a play request.
pub fn source_ref_from_play_request(track_id: Option<i64>, file_name: Option<&str>) -> (r:
    TrackLookup)
    ensures
        looks_up(r, track_id, text::opt_str(file_name)),
{
    match track_id {
        Some(id) => TrackLookup::ById(id),
        None => match file_name {
            Some(name) => TrackLookup::ByFileName(name.to_string()),
            None => TrackLookup::Nothing,
        },
    }
}

/// The track that a lookup found.
pub fn found_track<T>(found: Result<Option<T>, String>) -> (r: Result<T, ResolveError>)
    ensures
        match found {
            Ok(Some(track)) => r == Ok::<T, ResolveError>(track),
            Ok(None) => r is Err && r->Err_0 is TrackNotFound,
            Err(e) => r is Err && r->Err_0 == ResolveError::Library(e),
        },
{
    match found {
        Ok(Some(track)) => Ok(track),
        Ok(None) => Err(ResolveError::TrackNotFound),
        Err(error) => Err(ResolveError::Library(error)),
    }
}

/// A local reference with a track id that can be one.
pub open spec fn usable_id(track_id: i64) -> Option<i64> {
    if track_id > 0 {
        Some(track_id)
    } else {
        None
    }
}

/// What a queue item needs.
pub enum QueueItemLookup {
    /// The source can be queued as it is.
    Ready(SourceRef),
    /// A local track that the library has to describe.
    Lookup(TrackLookup),
}

/// What a queue item needs. A streamed source is taken as it is; what a client
/// says of a local track is not trusted beyond its id or file name.
pub fn source_ref_from_queue_request(item: &QueueRequestItem) -> (r: QueueItemLookup)
    ensures
        match *item {
            QueueRequestItem::Source(s) => match s {
                SourceRef::QobuzTrack { .. } => r == QueueItemLookup::Ready(s),
                SourceRef::LocalTrack { track_id, file_name, .. } => r is Lookup && looks_up(
                    r->Lookup_0,
                    usable_id(track_id),
                    text::opt_text(file_name),
                ),
            },
            QueueRequestItem::Local { file_name, track_id } => r is Lookup && looks_up(
                r->Lookup_0,
                track_id,
                text::opt_text(file_name),
            ),
        },
{
    match item {
        QueueRequestItem::Source(s) => match s {
            SourceRef::QobuzTrack { .. } => QueueItemLookup::Ready(s.clone()),
            SourceRef::LocalTrack { track_id, file_name, .. } => {
                let id = if *track_id > 0 {
                    Some(*track_id)
                } else {
                    None
                };
                QueueItemLookup::Lookup(source_ref_from_play_request(id, as_str(file_name)))
            },
        },
        QueueRequestItem::Local { file_name, track_id } => QueueItemLookup::Lookup(
            source_ref_from_play_request(*track_id, as_str(file_name)),
        ),
    }
}

fn as_str<'a>(o: &'a Option<String>) -> (r: Option<&'a str>)
    ensures
        text::opt_str(r) == text::opt_text(*o),
{
    match o {
        Some(t) => Some(t.as_str()),
        None => None,
    }
}

/// The source to queue for an item, once the library has described its track:
/// with the radio mark and the contexts that the client gave.
pub open spec fn spec_described(item: QueueRequestItem, found: SourceRef) -> SourceRef {
    match item {
        QueueRequestItem::Source(
            SourceRef::LocalTrack { radio, radio_context, playlist_context, .. },
        ) => source::spec_with_playlist_context(
            source::spec_with_radio_context(source::spec_with_radio(found, radio), radio_context),
            playlist_context,
        ),
        _ => found,
    }
}

/// The source to queue for an item, once the library has described its track.
pub fn described_queue_source(item: &QueueRequestItem, found: SourceRef) -> (r: SourceRef)
    ensures
        r == spec_described(*item, found),
{
    match item {
        QueueRequestItem::Source(s) => match s {
            SourceRef::LocalTrack { radio, radio_context, playlist_context, .. } =>
                source_ref_with_playlist_context(
                source_ref_with_radio_context(
                    source_ref_with_radio(found, *radio),
                    radio_context.clone(),
                ),
                playlist_context.clone(),
            ),
            SourceRef::QobuzTrack { .. } => found,
        },
        QueueRequestItem::Local { .. } => found,
    }
}

/// The track stays the one that the library found.
pub proof fn law_described_source_is_found_track(item: QueueRequestItem, found: SourceRef)
    ensures
        spec_described(item, found).spec_key() == found.spec_key(),
{
}

/// An item of a local player's queue.
#[derive(Debug)]
pub struct PlayerQueueItem {
    pub file_path: String,
    pub fallback_cover: Option<TrackCover>,
    pub fallback_tags: Option<TrackTags>,
}

/// What the file of a queued source is looked up by: the id of a local track,
/// where it has one, and its file name. A stream has no file.
pub fn local_queue_item_from_source_ref(source: &SourceRef) -> (r: Option<
    (Option<i64>, Option<String>),
>)
    ensures
        match *source {
            SourceRef::LocalTrack { track_id, file_name, .. } => r == Some(
                (
                    (if track_id > 0 {
                        Some(track_id)
                    } else {
                        None
                    }),
                    file_name,
                ),
            ),
            SourceRef::QobuzTrack { .. } => r is None,
        },
{
    match source {
        SourceRef::LocalTrack { track_id, file_name, .. } => {
            let known_id = if *track_id > 0 {
                Some(*track_id)
            } else {
                None
            };
            Some((known_id, file_name.clone()))
        },
        SourceRef::QobuzTrack { .. } => None,
    }
}

/// The entry of a player's queue for a track whose file and source were both
/// found.
pub fn local_queue_entry_from_play_request(
    path: Option<String>,
    source: Option<SourceRef>,
    fallback_cover: Option<TrackCover>,
) -> (r: Option<(PlayerQueueItem, SourceRef)>)
    ensures
        r is Some <==> path is Some && source is Some,
        r is Some ==> r->0 == (
            PlayerQueueItem { file_path: path->0, fallback_cover, fallback_tags: None },
            source->0,
        ),
{
    match path {
        Some(file_path) => match source {
            Some(source) => Some(
                (PlayerQueueItem { file_path, fallback_cover, fallback_tags: None }, source),
            ),
            None => None,
        },
        None => None,
    }
}

/// How many sources come before the first streamed one.
pub open spec fn local_prefix(sources: Seq<SourceRef>) -> nat
    decreases sources.len(),
{
    if sources.len() == 0 || sources[0] is QobuzTrack {
        0
    } else {
        1 + local_prefix(sources.skip(1))
    }
}

/// The items that were found, in order.
pub open spec fn found_items<T>(items: Seq<Option<T>>) -> Seq<T>
    decreases items.len(),
{
    if items.len() == 0 {
        Seq::empty()
    } else {
        match items.last() {
            Some(item) => found_items(items.drop_last()).push(item),
            None => found_items(items.drop_last()),
        }
    }
}

/// How many sources come before the first streamed one.
pub fn local_prefix_len(sources: &[SourceRef]) -> (r: usize)
    ensures
        r == local_prefix(sources@),
        r <= sources@.len(),
{
    let mut i: usize = 0;
    proof {
        assert(sources@.skip(0) =~= sources@);
    }
    while i < sources.len()
        invariant
            i <= sources@.len(),
            local_prefix(sources@) == i + local_prefix(sources@.skip(i as int)),
        decreases sources@.len() - i,
    {
        match &sources[i] {
            SourceRef::QobuzTrack { .. } => {
                return i;
            },
            SourceRef::LocalTrack { .. } => {},
        }
        proof {
            assert(sources@.skip(i as int).skip(1) =~= sources@.skip(i + 1));
        }
        i = i + 1;
    }
    i
}

/// The queue of a local player: the local tracks before the first streamed
/// source, as far as their files were found. `found` holds what was found for
/// each source.
pub fn local_player_queue_items_from_sources(
    sources: &[SourceRef],
    found: Vec<Option<PlayerQueueItem>>,
) -> (r: Vec<PlayerQueueItem>)
    requires
        found@.len() == sources@.len(),
    ensures
        r@ == found_items(found@.take(local_prefix(sources@) as int)),
{
    let count = local_prefix_len(sources);
    let ghost all = found@;
    let mut found = found;
    let mut out: Vec<PlayerQueueItem> = Vec::new();
    let mut i: usize = 0;
    proof {
        assert(all.skip(0) =~= all);
    }
    while i < count
        invariant
            i <= count <= all.len(),
            found@ == all.skip(i as int),
            out@ == found_items(all.take(i as int)),
        decreases count - i,
    {
        proof {
            assert(all.take(i + 1).drop_last() =~= all.take(i as int));
            assert(all.skip(i as int).remove(0) =~= all.skip(i + 1));
        }
        match found.remove(0) {
            Some(item) => {
                out.push(item);
            },
            None => {},
        }
        i = i + 1;
    }
    out
}

/// The cover that the library has for a file, so that art a user uploaded still
/// shows where the file itself has none. A library that cannot be read has
/// none either.
pub fn lookup_fallback_cover(found: Result<Option<(String, Vec<u8>)>, String>) -> (r: Option<
    TrackCover,
>)
    ensures
        r == (match found {
            Ok(Some(cover)) => Some(TrackCover { mime: cover.0, data: cover.1 }),
            _ => None,
        }),
{
    match found {
        Ok(Some((mime, data))) => Some(TrackCover { mime, data }),
        _ => None,
    }
}

/// How the system that files are on writes paths.
#[derive(Clone, Copy, Debug, PartialEq, Eq, Structural)]
pub enum PathStyle {
    /// Components end at a slash.
    Posix,
    /// Components end at a slash or a backslash, and a path may name a drive.
    Windows,
}

impl PathStyle {
    /// A character ends a component.
    pub open spec fn separates(self, c: char) -> bool {
        c == '/' || self == PathStyle::Windows && c == '\\'
    }

    /// A path begins with the letter of a drive.
    pub open spec fn names_drive(self, s: Seq<char>) -> bool {
        &&& self == PathStyle::Windows
        &&& s.len() >= 2
        &&& 'a' <= s[0] <= 'z' || 'A' <= s[0] <= 'Z'
        &&& s[1] == ':'
    }

    /// A path that the system takes letter by letter: in it only the backslash
    /// ends a component.
    pub open spec fn is_verbatim(self, s: Seq<char>) -> bool {
        &&& self == PathStyle::Windows
        &&& s.len() >= 4
        &&& s[0] == '\\'
        &&& s[1] == '\\'
        &&& s[2] == '?'
        &&& s[3] == '\\'
    }

    fn ends_component(self, c: char) -> (r: bool)
        ensures
            r == self.separates(c),
    {
        c == '/' || (self == PathStyle::Windows && c == '\\')
    }

    fn starts_at_drive(self, v: &Vec<char>) -> (r: bool)
        ensures
            r == self.names_drive(v@),
    {
        self == PathStyle::Windows && v.len() >= 2 && (('a' <= v[0] && v[0] <= 'z') || ('A' <= v[0]
            && v[0] <= 'Z')) && v[1] == ':'
    }

    fn taken_verbatim(self, v: &Vec<char>) -> (r: bool)
        ensures
            r == self.is_verbatim(v@),
    {
        self == PathStyle::Windows && v.len() >= 4 && v[0] == '\\' && v[1] == '\\' && v[2] == '?'
            && v[3] == '\\'
    }
}

/// A path component `..` begins at `i`.
pub open spec fn parent_at(style: PathStyle, s: Seq<char>, i: int) -> bool {
    &&& 0 <= i
    &&& i + 2 <= s.len()
    &&& i == 0 || style.separates(s[i - 1])
    &&& s[i] == '.'
    &&& s[i + 1] == '.'
    &&& i + 2 == s.len() || style.separates(s[i + 2])
}

/// A relative path of ordinary components: it is not empty, it does not start
/// at the root, at a drive or at the current directory, and it never goes up.
pub open spec fn is_plain_path(style: PathStyle, s: Seq<char>) -> bool {
    &&& s.len() > 0
    &&& !style.separates(s[0])
    &&& !style.names_drive(s)
    &&& !(s[0] == '.' && (s.len() == 1 || style.separates(s[1])))
    &&& forall|i: int| !#[trigger] parent_at(style, s, i)
}

/// Whether a path is a relative one of ordinary components.
pub fn plain_path(style: PathStyle, s: &str) -> (r: bool)
    ensures
        r == is_plain_path(style, s@),
{
    let v = text::chars_of(s);
    let n: usize = v.len();
    if n == 0 || style.ends_component(v[0]) || style.starts_at_drive(&v) {
        return false;
    }
    if v[0] == '.' && (n == 1 || style.ends_component(v[1])) {
        return false;
    }
    let mut i: usize = 0;
    while i < n
        invariant
            i <= n,
            n == v@.len(),
            v@ == s@,
            forall|k: int| 0 <= k < i ==> !#[trigger] parent_at(style, s@, k),
        decreases n - i,
    {
        let starts = i == 0 || style.ends_component(v[i - 1]);
        if starts && n - i >= 2 && v[i] == '.' && v[i + 1] == '.' && (n - i == 2
            || style.ends_component(v[i + 2])) {
            proof {
                assert(parent_at(style, s@, i as int));
            }
            return false;
        }
        i = i + 1;
    }
    true
}

/// What stands between a directory and a name below it.
pub open spec fn path_gap(style: PathStyle, dir: Seq<char>) -> Seq<char> {
    if dir.len() == 0 || style.separates(dir.last()) || dir.len() == 2 && style.names_drive(dir) {
        Seq::empty()
    } else if style == PathStyle::Windows {
        seq!['\\']
    } else {
        seq!['/']
    }
}

/// A character ends a component; in a verbatim path only the backslash does.
pub open spec fn cuts(c: char, verbatim: bool) -> bool {
    c == '\\' || !verbatim && c == '/'
}

/// Where the last component among the first `n` characters was cut off, or -1.
pub open spec fn last_cut(s: Seq<char>, n: int, verbatim: bool) -> int
    decreases n,
{
    if n <= 0 {
        -1
    } else if cuts(s[n - 1], verbatim) {
        n - 1
    } else {
        last_cut(s, n - 1, verbatim)
    }
}

/// What stands between two separators is a component, unless it is empty or,
/// in a path that is not verbatim, stands for the directory itself.
pub open spec fn is_component(piece: Seq<char>, verbatim: bool) -> bool {
    piece.len() > 0 && !(!verbatim && piece.len() == 1 && piece[0] == '.')
}

/// The components of the first `n` characters, in their order.
pub open spec fn components(s: Seq<char>, n: int, verbatim: bool) -> Seq<Seq<char>>
    decreases n,
{
    if n <= 0 {
        Seq::empty()
    } else {
        let cut = last_cut(s, n, verbatim);
        let before = if 0 <= cut < n {
            components(s, cut, verbatim)
        } else {
            Seq::empty()
        };
        let piece = s.subrange(cut + 1, n);
        if is_component(piece, verbatim) {
            before.push(piece)
        } else {
            before
        }
    }
}

/// A path with components below it, each behind a backslash.
pub open spec fn with_components(base: Seq<char>, pieces: Seq<Seq<char>>) -> Seq<char>
    decreases pieces.len(),
{
    if pieces.len() == 0 {
        base
    } else {
        with_components(base, pieces.drop_last()).push('\\') + pieces.last()
    }
}

/// The first backslash from `from` on, or the end.
pub open spec fn next_backslash(s: Seq<char>, from: int) -> int
    decreases s.len() - from,
{
    if from >= s.len() {
        s.len() as int
    } else if s[from] == '\\' {
        from
    } else {
        next_backslash(s, from + 1)
    }
}

/// How much of a verbatim path says where its components start: up to the
/// share on a server, the drive, or the name behind the question mark.
pub open spec fn verbatim_prefix_len(s: Seq<char>) -> int {
    if s.len() >= 8 && s[4] == 'U' && s[5] == 'N' && s[6] == 'C' && cuts(s[7], false) {
        let server = next_backslash(s, 8);
        let share = next_backslash(s, server + 1);
        if share > server + 1 {
            share
        } else {
            server
        }
    } else if PathStyle::Windows.names_drive(s.skip(4)) && (s.len() == 6 || cuts(s[6], false)) {
        6
    } else {
        next_backslash(s, 4)
    }
}

/// A verbatim directory with one backslash before each of its components.
pub open spec fn verbatim_dir(dir: Seq<char>) -> Seq<char> {
    let prefix = verbatim_prefix_len(dir);
    let rest = if prefix < dir.len() {
        dir.skip(prefix + 1)
    } else {
        Seq::empty()
    };
    with_components(dir.take(prefix), components(rest, rest.len() as int, true))
}

/// A name below a directory. Below a verbatim directory only the components of
/// the name stand, as nothing would resolve anything else there.
pub open spec fn path_below(style: PathStyle, dir: Seq<char>, name: Seq<char>) -> Seq<char> {
    if style.is_verbatim(dir) {
        with_components(verbatim_dir(dir), components(name, name.len() as int, false))
    } else {
        dir + path_gap(style, dir) + name
    }
}

proof fn lemma_last_cut(s: Seq<char>, start: int, n: int, verbatim: bool)
    requires
        0 <= start <= n <= s.len(),
        start == 0 || cuts(s[start - 1], verbatim),
        forall|k: int| start <= k < n ==> !cuts(#[trigger] s[k], verbatim),
    ensures
        last_cut(s, n, verbatim) == start - 1,
    decreases n,
{
    if start < n {
        lemma_last_cut(s, start, n - 1, verbatim);
    }
}

proof fn lemma_next_backslash(s: Seq<char>, from: int)
    requires
        0 <= from,
    ensures
        from <= s.len() ==> from <= next_backslash(s, from) <= s.len(),
        from > s.len() ==> next_backslash(s, from) == s.len(),
        next_backslash(s, from) < s.len() ==> s[next_backslash(s, from)] == '\\',
    decreases s.len() - from,
{
    if from < s.len() && s[from] != '\\' {
        lemma_next_backslash(s, from + 1);
    }
}

fn find_backslash(v: &Vec<char>, from: usize) -> (r: usize)
    requires
        from <= v@.len(),
    ensures
        r == next_backslash(v@, from as int),
        from <= r <= v@.len(),
{
    let mut i: usize = from;
    while i < v.len() && v[i] != '\\'
        invariant
            from <= i <= v@.len(),
            next_backslash(v@, i as int) == next_backslash(v@, from as int),
        decreases v@.len() - i,
    {
        i = i + 1;
    }
    i
}

fn verbatim_prefix(v: &Vec<char>) -> (r: usize)
    requires
        v@.len() >= 4,
    ensures
        r == verbatim_prefix_len(v@),
        4 <= r <= v@.len(),
{
    let n: usize = v.len();
    proof {
        assert(n >= 6 ==> v@.skip(4)[0] == v@[4] && v@.skip(4)[1] == v@[5]);
        lemma_next_backslash(v@, 4);
    }
    if n >= 8 && v[4] == 'U' && v[5] == 'N' && v[6] == 'C' && (v[7] == '\\' || v[7] == '/') {
        let server = find_backslash(v, 8);
        if server == n {
            proof {
                lemma_next_backslash(v@, n + 1);
            }
            return server;
        }
        let share = find_backslash(v, server + 1);
        return if share > server + 1 {
            share
        } else {
            server
        };
    }
    if n >= 6 && (('a' <= v[4] && v[4] <= 'z') || ('A' <= v[4] && v[4] <= 'Z')) && v[5] == ':' && (n
        == 6 || v[6] == '\\' || v[6] == '/') {
        return 6;
    }
    find_backslash(v, 4)
}

fn push_piece(path: &mut String, v: &Vec<char>, start: usize, end: usize, verbatim: bool)
    requires
        start <= end <= v@.len(),
        start == 0 || cuts(v@[start - 1], verbatim),
        forall|k: int| start <= k < end ==> !cuts(#[trigger] v@[k], verbatim),
    ensures
        forall|base: Seq<char>|
            old(path)@ == #[trigger] with_components(base, components(v@, start - 1, verbatim))
                ==> final(path)@ == with_components(base, components(v@, end as int, verbatim)),
{
    let ghost piece = v@.subrange(start as int, end as int);
    let ghost before = components(v@, start - 1, verbatim);
    proof {
        lemma_last_cut(v@, start as int, end as int, verbatim);
        if is_component(piece, verbatim) {
            assert(components(v@, end as int, verbatim) == before.push(piece));
            assert(before.push(piece).drop_last() =~= before);
        } else {
            assert(components(v@, end as int, verbatim) == before);
        }
    }
    if start == end || (!verbatim && end - start == 1 && v[start] == '.') {
        return;
    }
    path.push('\\');
    let text = text::text_of(v, start, end);
    path.append(text.as_str());
}

fn push_components(path: &mut String, v: &Vec<char>, verbatim: bool)
    ensures
        final(path)@ == with_components(
            old(path)@,
            components(v@, v@.len() as int, verbatim),
        ),
{
    let ghost base = path@;
    let mut start: usize = 0;
    let mut i: usize = 0;
    while i < v.len()
        invariant
            start <= i <= v@.len(),
            start == 0 || cuts(v@[start - 1], verbatim),
            forall|k: int| start <= k < i ==> !cuts(#[trigger] v@[k], verbatim),
            path@ == with_components(base, components(v@, start - 1, verbatim)),
        decreases v@.len() - i,
    {
        if v[i] == '\\' || (!verbatim && v[i] == '/') {
            push_piece(path, v, start, i, verbatim);
            start = i + 1;
        }
        i = i + 1;
    }
    push_piece(path, v, start, i, verbatim);
}

/// The path of a file name that a client gave, below the music directory.
/// Names that lead out of it are refused.
pub fn resolve_music_file_name(style: PathStyle, music_dir: &str, file_name: &str) -> (r: Result<
    String,
    ResolveError,
>)
    ensures
        r is Ok <==> is_plain_path(style, text::trimmed(file_name@)),
        r is Ok ==> r->Ok_0@ == path_below(style, music_dir@, text::trimmed(file_name@)),
        r is Err ==> r->Err_0 is InvalidFileName,
{
    let trimmed = file_name.trim();
    if !plain_path(style, trimmed) {
        return Err(ResolveError::InvalidFileName);
    }
    let dir = text::chars_of(music_dir);
    if style.taken_verbatim(&dir) {
        let prefix = verbatim_prefix(&dir);
        let mut path = text::text_of(&dir, 0, prefix);
        let rest = if prefix < dir.len() {
            text::text_of(&dir, prefix + 1, dir.len())
        } else {
            String::new()
        };
        proof {
            assert(path@ =~= music_dir@.take(prefix as int));
            assert(prefix < dir@.len() ==> rest@ =~= music_dir@.skip(prefix + 1));
            assert(prefix == dir@.len() ==> rest@ =~= Seq::<char>::empty());
        }
        push_components(&mut path, &text::chars_of(rest.as_str()), true);
        push_components(&mut path, &text::chars_of(trimmed), false);
        return Ok(path);
    }
    let mut path = music_dir.to_string();
    if dir.len() > 0 && !style.ends_component(dir[dir.len() - 1]) && !(dir.len() == 2
        && style.starts_at_drive(&dir)) {
        path.push(
            if style == PathStyle::Windows {
                '\\'
            } else {
                '/'
            },
        );
    }
    proof {
        assert(path@ =~= music_dir@ + path_gap(style, music_dir@));
    }
    path.append(trimmed);
    Ok(path)
}

/// Where the file of a track is looked for.
#[derive(Debug)]
pub enum PathLookup {
    /// The path that the library has for this track.
    Track(i64),
    /// This path.
    Path(String),
    /// Nowhere: neither a track nor a file was named.
    Nowhere,
}

/// Where the file of a track is looked for: under its id, else under its name
/// below the music directory.
pub fn resolve_track_path(
    style: PathStyle,
    music_dir: &str,
    track_id: Option<i64>,
    file_name: Option<&str>,
) -> (r: Result<PathLookup, ResolveError>)
    ensures
        match track_id {
            Some(id) => r is Ok && r->Ok_0 == PathLookup::Track(id),
            None => match file_name {
                Some(name) => {
                    &&& r is Ok <==> is_plain_path(style, text::trimmed(name@))
                    &&& r is Ok ==> r->Ok_0 is Path && r->Ok_0->Path_0@ == path_below(
                        style,
                        music_dir@,
                        text::trimmed(name@),
                    )
                    &&& r is Err ==> r->Err_0 is InvalidFileName
                },
                None => r is Ok && r->Ok_0 is Nowhere,
            },
        },
{
    match track_id {
        Some(id) => Ok(PathLookup::Track(id)),
        None => match file_name {
            Some(name) => match resolve_music_file_name(style, music_dir, name) {
                Ok(path) => Ok(PathLookup::Path(path)),
                Err(error) => Err(error),
            },
            None => Ok(PathLookup::Nowhere),
        },
    }
}

/// A path, if there is a file. `shown` is the path as it is shown in messages.
pub fn existing_path(path: String, exists: bool, shown: &str) -> (r: Result<String, ResolveError>)
    ensures
        exists ==> r == Ok::<String, ResolveError>(path),
        !exists ==> r is Err && r->Err_0 is FileNotFound && r->Err_0->FileNotFound_0@ == "File "@
            + shown@ + " not found"@,
{
    if exists {
        return Ok(path);
    }
    let mut message = "File ".to_string();
    message.append(shown);
    message.append(" not found");
    Err(ResolveError::FileNotFound(message))
}

/// Where a component stands in its path.
proof fn lemma_component_place(s: Seq<char>, n: int, verbatim: bool, k: int) -> (r: (int, int))
    requires
        0 <= n <= s.len(),
        0 <= k < components(s, n, verbatim).len(),
    ensures
        0 <= r.0 <= r.1 <= n,
        components(s, n, verbatim)[k] == s.subrange(r.0, r.1),
        r.0 == 0 || cuts(s[r.0 - 1], verbatim),
        r.1 == n || cuts(s[r.1], verbatim),
        forall|i: int| r.0 <= i < r.1 ==> !cuts(#[trigger] s[i], verbatim),
    decreases n,
{
    lemma_cut_is_last(s, n, verbatim);
    let cut = last_cut(s, n, verbatim);
    let before = if 0 <= cut < n {
        components(s, cut, verbatim)
    } else {
        Seq::empty()
    };
    if k < before.len() {
        lemma_component_place(s, cut, verbatim, k)
    } else {
        (cut + 1, n)
    }
}

proof fn lemma_cut_is_last(s: Seq<char>, n: int, verbatim: bool)
    requires
        0 <= n <= s.len(),
    ensures
        -1 <= last_cut(s, n, verbatim) < n || n == 0,
        n == 0 ==> last_cut(s, n, verbatim) == -1,
        last_cut(s, n, verbatim) >= 0 ==> cuts(s[last_cut(s, n, verbatim)], verbatim),
        forall|i: int|
            last_cut(s, n, verbatim) < i < n && 0 <= i ==> !cuts(#[trigger] s[i], verbatim),
    decreases n,
{
    if n > 0 && !cuts(s[n - 1], verbatim) {
        lemma_cut_is_last(s, n - 1, verbatim);
    }
}

/// Components that are not `..` lead nowhere up.
proof fn lemma_components_stay_below(base: Seq<char>, pieces: Seq<Seq<char>>, i: int)
    requires
        i >= base.len(),
        forall|k: int| 0 <= k < pieces.len() ==> (#[trigger] pieces[k]) != seq!['.', '.'],
        forall|k: int, j: int|
            0 <= k < pieces.len() && 0 <= j < pieces[k].len() ==> !cuts(
                #[trigger] pieces[k][j],
                false,
            ),
    ensures
        with_components(base, pieces).len() >= base.len(),
        with_components(base, pieces).take(base.len() as int) == base,
        !parent_at(PathStyle::Windows, with_components(base, pieces), i),
    decreases pieces.len(),
{
    let full = with_components(base, pieces);
    if pieces.len() == 0 {
        assert(full.take(base.len() as int) =~= base);
    } else {
        let rest = pieces.drop_last();
        let last = pieces.last();
        assert forall|k: int, j: int| 0 <= k < rest.len() && 0 <= j < rest[k].len() implies !cuts(
            #[trigger] rest[k][j],
            false,
        ) by {
            assert(rest[k] == pieces[k]);
            assert(!cuts(pieces[k][j], false));
        }
        lemma_components_stay_below(base, rest, i);
        let above = with_components(base, rest);
        assert(full.take(base.len() as int) =~= above.take(base.len() as int));
        assert forall|j: int| 0 <= j < last.len() implies full[above.len() + 1 + j] == last[j]
            && !cuts(#[trigger] last[j], false) by {
            assert(!cuts(pieces[pieces.len() - 1][j], false));
        }
        if parent_at(PathStyle::Windows, full, i) {
            if i < above.len() {
                assert(full[i + 1] == '.');
                assert(i + 2 <= above.len());
                assert(parent_at(PathStyle::Windows, above, i));
            } else {
                let j = i - above.len() - 1;
                assert(j >= 0);
                if j > 0 {
                    assert(!cuts(last[j - 1], false));
                }
                if last.len() > 2 {
                    assert(!cuts(last[2], false));
                }
                assert(last[0] == full[above.len() as int + 1]);
                assert(last[1] == full[above.len() as int + 2]);
                assert(last =~= seq!['.', '.']);
            }
        }
    }
}

/// The directory that a resolved path begins with: the music directory, which
/// is written with single separators where it is verbatim.
pub open spec fn resolved_dir(style: PathStyle, dir: Seq<char>) -> Seq<char> {
    if style.is_verbatim(dir) {
        verbatim_dir(dir)
    } else {
        dir
    }
}

/// A resolved path begins with the music directory, and none of its components
/// below it goes up.
pub proof fn law_resolved_path_stays_below(
    style: PathStyle,
    dir: Seq<char>,
    name: Seq<char>,
    i: int,
)
    requires
        is_plain_path(style, name),
        i >= resolved_dir(style, dir).len(),
    ensures
        path_below(style, dir, name).take(resolved_dir(style, dir).len() as int) == resolved_dir(
            style,
            dir,
        ),
        !parent_at(style, path_below(style, dir, name), i),
{
    let full = path_below(style, dir, name);
    if style.is_verbatim(dir) {
        let pieces = components(name, name.len() as int, false);
        assert forall|k: int| 0 <= k < pieces.len() implies (#[trigger] pieces[k]) != seq![
            '.',
            '.',
        ] by {
            let (a, b) = lemma_component_place(name, name.len() as int, false, k);
            if pieces[k] == seq!['.', '.'] {
                assert(name.subrange(a, b)[0] == '.' && name.subrange(a, b)[1] == '.');
                assert(name.subrange(a, b).len() == 2);
                assert(parent_at(style, name, a));
            }
        }
        assert forall|k: int, j: int| 0 <= k < pieces.len() && 0 <= j < pieces[k].len() implies !cuts(
            #[trigger] pieces[k][j],
            false,
        ) by {
            let (a, b) = lemma_component_place(name, name.len() as int, false, k);
            assert(pieces[k][j] == name[a + j]);
        }
        lemma_components_stay_below(verbatim_dir(dir), pieces, i);
    } else {
        let offset = full.len() - name.len();
        assert(full.take(dir.len() as int) =~= dir);
        assert(full.skip(offset) =~= name);
        if parent_at(style, full, i) {
            if i >= offset {
                assert(full[i] == name[i - offset]);
                assert(full[i + 1] == name[i - offset + 1]);
                if i > offset {
                    assert(full[i - 1] == name[i - offset - 1]);
                }
                if i + 2 < full.len() {
                    assert(full[i + 2] == name[i - offset + 2]);
                }
                assert(parent_at(style, name, i - offset));
            } else {
                assert(style.separates(full[i]));
            }
        }
    }
}

/// A track is looked up by its number where there is one, else by its name.
pub proof fn law_numbers_are_looked_up_first(
    track_id: Option<i64>,
    file_name: Option<&str>,
    r: TrackLookup,
)
    requires
        call_ensures(source_ref_from_play_request, (track_id, file_name), r),
    ensures
        track_id is Some ==> r == TrackLookup::ById(track_id->0),
        track_id is None && file_name is Some ==> r is ByFileName && r->ByFileName_0@
            == file_name->0@,
        track_id is None && file_name is None ==> r is Nothing,
{
}

/// A streamed source needs no lookup; a track of the library is looked up by
/// its number when that is one, else by its file name.
pub proof fn law_queued_sources_are_looked_up(source: SourceRef, r: QueueItemLookup)
    requires
        call_ensures(source_ref_from_queue_request, (&QueueRequestItem::Source(source),), r),
    ensures
        source is QobuzTrack ==> r == QueueItemLookup::Ready(source),
        source matches SourceRef::LocalTrack { track_id, file_name, .. } ==> match r {
            QueueItemLookup::Lookup(TrackLookup::ById(id)) => id == track_id && track_id > 0,
            QueueItemLookup::Lookup(TrackLookup::ByFileName(name)) => track_id <= 0
                && file_name is Some && file_name->0@ == name@,
            QueueItemLookup::Lookup(TrackLookup::Nothing) => track_id <= 0 && file_name is None,
            QueueItemLookup::Ready(_) => false,
        },
{
}

/// A queued track of the library keeps how it was queued: as a radio's, from a
/// radio's seed, or from a playlist.
pub proof fn law_described_source_keeps_how_it_was_queued(queued: SourceRef, found: SourceRef)
    requires
        queued is LocalTrack,
        found is LocalTrack,
    ensures
        ({
            let r = spec_described(QueueRequestItem::Source(queued), found);
            &&& r is LocalTrack
            &&& r->LocalTrack_track_id == found->LocalTrack_track_id
            &&& r->LocalTrack_title == found->LocalTrack_title
            &&& r->LocalTrack_artist == found->LocalTrack_artist
            &&& r->LocalTrack_album == found->LocalTrack_album
            &&& r->LocalTrack_duration_secs == found->LocalTrack_duration_secs
            &&& r->LocalTrack_radio == (found->LocalTrack_radio || queued->LocalTrack_radio)
            &&& queued->LocalTrack_radio_context is Some ==> r->LocalTrack_radio_context
                == queued->LocalTrack_radio_context
            &&& queued->LocalTrack_playlist_context is Some ==> r->LocalTrack_playlist_context
                == queued->LocalTrack_playlist_context
        }),
        forall|file_name: Option<String>, track_id: Option<i64>|
            #[trigger] spec_described(QueueRequestItem::Local { file_name, track_id }, found)
                == found,
{
}

/// A player is given the tracks of the library up to the first streamed one.
pub proof fn law_player_gets_tracks_up_to_first_stream(
    locals: Seq<SourceRef>,
    rest: Seq<SourceRef>,
)
    requires
        forall|i: int| 0 <= i < locals.len() ==> (#[trigger] locals[i]) is LocalTrack,
        rest.len() == 0 || rest[0] is QobuzTrack,
    ensures
        local_prefix(locals + rest) == locals.len(),
    decreases locals.len(),
{
    if locals.len() > 0 {
        assert((locals + rest)[0] == locals[0]);
        assert((locals + rest).skip(1) =~= locals.skip(1) + rest);
        assert forall|i: int| 0 <= i < locals.skip(1).len() implies (
        #[trigger] locals.skip(1)[i]) is LocalTrack by {
            assert(locals.skip(1)[i] == locals[i + 1]);
        }
        law_player_gets_tracks_up_to_first_stream(locals.skip(1), rest);
    } else {
        assert(locals + rest =~= rest);
    }
}

/// What was found is kept in its order, and what was not found is left out.
pub proof fn law_found_items_keep_order<T>(a: Seq<Option<T>>, b: Seq<Option<T>>, item: T)
    ensures
        found_items(a + b) == found_items(a) + found_items(b),
        found_items(seq![Some(item)]) == seq![item],
        found_items(seq![None::<T>]) == Seq::<T>::empty(),
    decreases b.len(),
{
    if b.len() == 0 {
        assert(a + b =~= a);
        assert(found_items(a) + found_items(b) =~= found_items(a));
    } else {
        law_found_items_keep_order(a, b.drop_last(), item);
        assert((a + b).drop_last() =~= a + b.drop_last());
        assert((a + b).last() == b.last());
        if b.last() is Some {
            assert((found_items(a) + found_items(b.drop_last())).push(b.last()->0)
                =~= found_items(a) + found_items(b.drop_last()).push(b.last()->0));
        }
    }
    let one = seq![Some(item)];
    let none = seq![None::<T>];
    assert(one.drop_last() =~= Seq::<Option<T>>::empty());
    assert(none.drop_last() =~= Seq::<Option<T>>::empty());
    assert(found_items(Seq::<Option<T>>::empty()) =~= Seq::<T>::empty());
    assert(found_items(one) =~= seq![item]);
}

/// A name without separators is a plain path, unless it stands for the
/// directory itself or the one above. A path from the root, or one that goes
/// up, is none.
pub proof fn law_plain_names_are_plain_paths(name: Seq<char>, rest: Seq<char>)
    ensures
        name.len() > 0 && !name.contains('/') && name != seq!['.'] && name != seq!['.', '.']
            ==> is_plain_path(PathStyle::Posix, name),
        !is_plain_path(PathStyle::Posix, seq!['/'] + rest),
        !is_plain_path(PathStyle::Windows, seq!['/'] + rest),
        !is_plain_path(PathStyle::Windows, seq!['\\'] + rest),
        !is_plain_path(PathStyle::Windows, seq!['C', ':'] + rest),
        !is_plain_path(PathStyle::Posix, seq!['.', '.', '/'] + rest),
        !is_plain_path(PathStyle::Windows, seq!['.', '.', '\\'] + rest),
        !is_plain_path(PathStyle::Posix, rest + seq!['/', '.', '.']),
        !is_plain_path(PathStyle::Windows, rest + seq!['\\', '.', '.']),
        !is_plain_path(PathStyle::Posix, Seq::empty()),
{
    if name.len() > 0 && !name.contains('/') && name != seq!['.'] && name != seq!['.', '.'] {
        assert forall|i: int| 0 <= i < name.len() implies name[i] != '/' by {
            assert(name.contains(name[i]));
        }
        assert forall|i: int| !#[trigger] parent_at(PathStyle::Posix, name, i) by {
            if parent_at(PathStyle::Posix, name, i) {
                assert(i == 0);
                assert(name =~= seq!['.', '.']);
            }
        }
        if name[0] == '.' && name.len() == 1 {
            assert(name =~= seq!['.']);
        }
    }
    assert(parent_at(PathStyle::Posix, seq!['.', '.', '/'] + rest, 0));
    assert(parent_at(PathStyle::Windows, seq!['.', '.', '\\'] + rest, 0));
    let n = rest.len() as int;
    assert(parent_at(PathStyle::Posix, rest + seq!['/', '.', '.'], n + 1));
    assert(parent_at(PathStyle::Windows, rest + seq!['\\', '.', '.'], n + 1));
}

/// A file is looked for right below the directory, with one separator between
/// the two.
pub proof fn law_files_lie_right_below(dir: Seq<char>, name: Seq<char>)
    requires
        dir.len() > 0,
    ensures
        dir.last() != '/' ==> path_below(PathStyle::Posix, dir, name) == dir + seq!['/'] + name,
        dir.last() == '/' ==> path_below(PathStyle::Posix, dir, name) == dir + name,
        dir.len() > 2 && dir.last() != '/' && dir.last() != '\\' && dir[0] != '\\' ==> path_below(
            PathStyle::Windows,
            dir,
            name,
        ) == dir + seq!['\\'] + name,
        dir.last() == '\\' && dir[0] != '\\' ==> path_below(PathStyle::Windows, dir, name) == dir
            + name,
{
    assert(dir + Seq::<char>::empty() =~= dir);
}

/// A file is resolved below the music directory by its name, without the white
/// space around it; a number is left to the library.
pub proof fn law_files_are_resolved_by_name(
    music_dir: &str,
    track_id: Option<i64>,
    file_name: &str,
    r: Result<PathLookup, ResolveError>,
)
    requires
        call_ensures(
            resolve_track_path,
            (PathStyle::Posix, music_dir, track_id, Some(file_name)),
            r,
        ),
        music_dir@.len() > 0,
        music_dir@.last() != '/',
        file_name@.len() > 0,
        text::is_trimmed(file_name@),
        !file_name@.contains('/'),
        file_name@ != seq!['.'],
        file_name@ != seq!['.', '.'],
    ensures
        track_id is Some ==> r is Ok && r->Ok_0 == PathLookup::Track(track_id->0),
        track_id is None ==> r is Ok && r->Ok_0 is Path && r->Ok_0->Path_0@ == music_dir@ + seq![
            '/',
        ] + file_name@,
{
    text::law_trimmed(file_name@);
    law_plain_names_are_plain_paths(file_name@, Seq::empty());
    law_files_lie_right_below(music_dir@, file_name@);
}

/// A path that exists is used as it is; one that does not is an error that
/// names the file.
pub proof fn law_missing_files_are_named(
    path: String,
    exists: bool,
    shown: &str,
    r: Result<String, ResolveError>,
)
    requires
        call_ensures(existing_path, (path, exists, shown), r),
    ensures
        r is Ok <==> exists,
        r is Ok ==> r->Ok_0 == path,
        r matches Err(ResolveError::FileNotFound(message)) ==> message@ == "File "@ + shown@
            + " not found"@,
        r is Err ==> r->Err_0 is FileNotFound,
{
}

/// A player's entry is the file and its source, with the cover that was found.
pub proof fn law_queue_entry_is_the_found_file(
    path: String,
    source: SourceRef,
    fallback_cover: Option<TrackCover>,
    r: Option<(PlayerQueueItem, SourceRef)>,
)
    requires
        call_ensures(
            local_queue_entry_from_play_request,
            (Some(path), Some(source), fallback_cover),
            r,
        ),
    ensures
        r is Some,
        (r->0).0.file_path == path,
        (r->0).0.fallback_cover == fallback_cover,
        (r->0).1 == source,
{
}

/// A track of the library is queued by its number when that is one, with its
/// file name; a streamed one is not.
pub proof fn law_library_tracks_are_queued_by_number(
    source: SourceRef,
    r: Option<(Option<i64>, Option<String>)>,
)
    requires
        call_ensures(local_queue_item_from_source_ref, (&source,), r),
    ensures
        source is QobuzTrack ==> r is None,
        source matches SourceRef::LocalTrack { track_id, file_name, .. } ==> {
            &&& r is Some
            &&& track_id > 0 ==> (r->0).0 == Some(track_id)
            &&& track_id <= 0 ==> (r->0).0 is None
            &&& (r->0).1 == file_name
        },
{
}

/// A cover that was found is used with its own type.
pub proof fn law_found_cover_is_used(
    found: Result<Option<(String, Vec<u8>)>, String>,
    r: Option<TrackCover>,
)
    requires
        call_ensures(lookup_fallback_cover, (found,), r),
    ensures
        r is Some <==> found is Ok && found->Ok_0 is Some,
        r is Some ==> r->0.mime == (found->Ok_0->0).0 && r->0.data == (found->Ok_0->0).1,
{
}

} // verus!
