//! The stored now-playing queue: what clients show as history, current track
//! and upcoming tracks.

use crate::audio::Real64;
use crate::protocol::source;
use crate::protocol::source::SourceRef;
use crate::text;
use vstd::prelude::*;
use vstd::string::*;

verus! {

/// A stored number, as far as it is a whole one.
#[derive(Clone, Copy, Debug, PartialEq, Eq, Structural)]
pub enum StoredNumber {
    Unsigned(u64),
    Negative(i64),
    /// A fraction, or no number at all.
    Other,
}

impl StoredNumber {
    pub open spec fn spec_u64(self) -> Option<u64> {
        match self {
            StoredNumber::Unsigned(n) => Some(n),
            _ => None,
        }
    }

    pub open spec fn spec_i64(self) -> Option<i64> {
        match self {
            StoredNumber::Unsigned(n) => if n <= i64::MAX {
                Some(n as i64)
            } else {
                None
            },
            StoredNumber::Negative(n) => Some(n),
            StoredNumber::Other => None,
        }
    }

    pub fn as_u64(self) -> (r: Option<u64>)
        ensures
            r == self.spec_u64(),
    {
        match self {
            StoredNumber::Unsigned(n) => Some(n),
            _ => None,
        }
    }

    pub fn as_i64(self) -> (r: Option<i64>)
        ensures
            r == self.spec_i64(),
    {
        match self {
            StoredNumber::Unsigned(n) => if n <= 0x7fff_ffff_ffff_ffff {
                Some(n as i64)
            } else {
                None
            },
            StoredNumber::Negative(n) => Some(n),
            StoredNumber::Other => None,
        }
    }
}

/// The ids that a stored item gives for a track of the service.
#[derive(Clone, Copy, Debug, PartialEq, Eq, Structural)]
pub struct StoredServiceTrack {
    pub track_id: Option<StoredNumber>,
    pub id: Option<StoredNumber>,
}

/// The id that a stored item gives for a local track.
#[derive(Clone, Copy, Debug, PartialEq, Eq, Structural)]
pub struct StoredLocalTrack {
    pub track_id: Option<StoredNumber>,
}

/// A queue item that was built for a source.
#[derive(Debug)]
pub struct SourceQueueItem {
    pub source: SourceRef,
    pub title: String,
    pub artist: String,
    pub album: String,
    /// Local tracks only.
    pub album_artist: Option<String>,
    pub filename: Option<String>,
    pub duration_secs: Real64,
}

/// An item of the stored queue.
#[derive(Debug)]
pub enum QueueItem {
    /// An item as a client stored it. Its text is kept as it is; the rest is
    /// what the queue reads of it.
    Stored {
        body: String,
        resolved_source: Option<SourceRef>,
        service_track: Option<StoredServiceTrack>,
        local_track: Option<StoredLocalTrack>,
    },
    Built(SourceQueueItem),
}

/// The kind of a queue.
#[derive(Clone, Copy, Debug, PartialEq, Eq, Structural)]
pub enum QueueKind {
    Local,
    Qobuz,
    Mixed,
}

/// The stored queue of a zone.
#[derive(Debug)]
pub struct QueueState {
    pub kind: Option<QueueKind>,
    pub cursor: Option<StoredNumber>,
    pub items: Vec<QueueItem>,
    pub loop_mode: Option<String>,
    /// Whatever else a client stored, kept as it is.
    pub rest: String,
}

/// The title of a source, or its id where it has none.
pub open spec fn spec_title(source: SourceRef) -> Seq<char> {
    match source {
        SourceRef::LocalTrack { track_id, title, .. } => match title {
            Some(t) => t@,
            None => "Track "@ + text::signed_decimal(track_id as int),
        },
        SourceRef::QobuzTrack { track_id, title, .. } => match title {
            Some(t) => t@,
            None => "Track "@ + text::decimal(track_id as nat),
        },
    }
}

pub open spec fn or_empty(o: Option<String>) -> Seq<char> {
    match o {
        Some(t) => t@,
        None => Seq::empty(),
    }
}

fn or_empty_text(o: &Option<String>) -> (r: String)
    ensures
        r@ == or_empty(*o),
{
    match o {
        Some(t) => t.clone(),
        None => String::new(),
    }
}

/// A name counts when something is left after trimming.
pub open spec fn shown(o: Option<String>) -> Option<Seq<char>> {
    match o {
        Some(t) => if text::trimmed(t@).len() == 0 {
            None
        } else {
            Some(text::trimmed(t@))
        },
        None => None,
    }
}

fn shown_text<'a>(o: &'a Option<String>) -> (r: Option<&'a str>)
    ensures
        text::opt_str(r) == shown(*o),
{
    match o {
        Some(t) => {
            let trimmed = t.as_str().trim();
            if trimmed.is_empty() {
                None
            } else {
                Some(trimmed)
            }
        },
        None => None,
    }
}

/// The name under which a streamed track is shown: artist and title, the title
/// alone, or its key.
pub open spec fn spec_display_name(
    track_id: u64,
    artist: Option<Seq<char>>,
    title: Option<Seq<char>>,
) -> Seq<char> {
    match title {
        Some(t) => match artist {
            Some(a) => a + " - "@ + t,
            None => t,
        },
        None => source::qobuz_key(track_id as nat),
    }
}

/// The file name of an item: the file of a local track, the display name of a
/// streamed one.
pub open spec fn spec_filename(source: SourceRef) -> Option<Seq<char>> {
    match source {
        SourceRef::LocalTrack { file_name, .. } => text::opt_text(file_name),
        SourceRef::QobuzTrack { track_id, artist, title, .. } => Some(
            spec_display_name(track_id, shown(artist), shown(title)),
        ),
    }
}

/// The file name of an item in a queue that was rebuilt for another zone: a
/// streamed track shows artist and title when it has both.
pub open spec fn spec_rebuilt_filename(source: SourceRef) -> Option<Seq<char>> {
    match source {
        SourceRef::LocalTrack { file_name, .. } => text::opt_text(file_name),
        SourceRef::QobuzTrack { track_id, artist, title, .. } => Some(
            if artist is Some && title is Some {
                artist->0@ + " - "@ + title->0@
            } else {
                source::qobuz_key(track_id as nat)
            },
        ),
    }
}

/// `item` shows `source`.
pub open spec fn shows(item: SourceQueueItem, source: SourceRef, filename: Option<Seq<char>>) -> bool {
    &&& item.source == source
    &&& item.title@ == spec_title(source)
    &&& text::opt_text(item.filename) == filename
    &&& match source {
        SourceRef::LocalTrack { artist, album, album_artist, duration_secs, .. } => {
            &&& item.artist@ == or_empty(artist)
            &&& item.album@ == or_empty(album)
            &&& text::opt_text(item.album_artist) == Some(
                if album_artist is Some {
                    album_artist->0@
                } else {
                    or_empty(artist)
                },
            )
            &&& item.duration_secs == duration_secs.unwrap_or(Real64::spec_zero())
        },
        SourceRef::QobuzTrack { artist, album, duration_secs, .. } => {
            &&& item.artist@ == or_empty(artist)
            &&& item.album@ == or_empty(album)
            &&& item.album_artist is None
            &&& item.duration_secs == duration_secs.unwrap_or(Real64::spec_zero())
        },
    }
}

fn title_text(title: &Option<String>, id: String) -> (r: String)
    ensures
        r@ == match *title {
            Some(t) => t@,
            None => "Track "@ + id@,
        },
{
    match title {
        Some(t) => t.clone(),
        None => text::joined("Track ", id.as_str()),
    }
}

fn item_for(source: &SourceRef, filename: Option<String>) -> (r: SourceQueueItem)
    ensures
        shows(r, *source, text::opt_text(filename)),
{
    match source {
        SourceRef::LocalTrack {
            track_id,
            title,
            artist,
            album,
            album_artist,
            duration_secs,
            ..
        } => SourceQueueItem {
            source: source.clone(),
            title: title_text(title, text::decimal_i64(*track_id)),
            artist: or_empty_text(artist),
            album: or_empty_text(album),
            album_artist: match album_artist {
                Some(name) => Some(name.clone()),
                None => Some(or_empty_text(artist)),
            },
            filename,
            duration_secs: duration_secs.unwrap_or(Real64::zero()),
        },
        SourceRef::QobuzTrack { track_id, title, artist, album, duration_secs, .. } =>
            SourceQueueItem {
            source: source.clone(),
            title: title_text(title, text::decimal_u64(*track_id)),
            artist: or_empty_text(artist),
            album: or_empty_text(album),
            album_artist: None,
            filename,
            duration_secs: duration_secs.unwrap_or(Real64::zero()),
        },
    }
}

/// The item that shows a source.
pub fn source_ref_queue_item(source: &SourceRef) -> (r: SourceQueueItem)
    ensures
        shows(r, *source, spec_filename(*source)),
{
    let filename = match source {
        SourceRef::LocalTrack { file_name, .. } => file_name.clone(),
        SourceRef::QobuzTrack { track_id, title, artist, .. } => {
            let name = match shown_text(title) {
                Some(title) => match shown_text(artist) {
                    Some(artist) => {
                        let mut name = artist.to_string();
                        name.append(" - ");
                        name.append(title);
                        name
                    },
                    None => title.to_string(),
                },
                None => source::qobuz_key_text(*track_id),
            };
            Some(name)
        },
    };
    item_for(source, filename)
}

/// The item that shows a source in a queue rebuilt for another zone.
pub fn rebuilt_queue_item(source: &SourceRef) -> (r: SourceQueueItem)
    ensures
        shows(r, *source, spec_rebuilt_filename(*source)),
{
    let filename = match source {
        SourceRef::LocalTrack { file_name, .. } => file_name.clone(),
        SourceRef::QobuzTrack { track_id, title, artist, .. } => {
            let name = match artist {
                Some(artist) => match title {
                    Some(title) => {
                        let mut name = artist.clone();
                        name.append(" - ");
                        name.append(title.as_str());
                        name
                    },
                    None => source::qobuz_key_text(*track_id),
                },
                None => source::qobuz_key_text(*track_id),
            };
            Some(name)
        },
    };
    item_for(source, filename)
}

/// The key of the track that an item shows, as far as it can be told: from the
/// source it was resolved to, else from the ids it gives.
pub open spec fn spec_item_key(item: QueueItem) -> Option<Seq<char>> {
    match item {
        QueueItem::Built(built) => Some(built.source.spec_key()),
        QueueItem::Stored { resolved_source, service_track, local_track, .. } => {
            let service_id = if service_track is None {
                None::<u64>
            } else if service_track->0.track_id is Some {
                service_track->0.track_id->0.spec_u64()
            } else if service_track->0.id is Some {
                service_track->0.id->0.spec_u64()
            } else {
                None::<u64>
            };
            if resolved_source is Some {
                Some(resolved_source->0.spec_key())
            } else if service_id is Some {
                Some(source::qobuz_key(service_id->0 as nat))
            } else if local_track is Some && local_track->0.track_id is Some
                && local_track->0.track_id->0.spec_i64() is Some {
                Some(source::local_key(local_track->0.track_id->0.spec_i64()->0 as int))
            } else {
                None
            }
        },
    }
}

/// The key of the track that an item shows, as far as it can be told.
pub fn queue_item_source_key(item: &QueueItem) -> (r: Option<String>)
    ensures
        text::opt_text(r) == spec_item_key(*item),
{
    match item {
        QueueItem::Built(built) => Some(built.source.key()),
        QueueItem::Stored { resolved_source, service_track, local_track, .. } => {
            match resolved_source {
                Some(source) => return Some(source.key()),
                None => {},
            }
            match service_track {
                Some(track) => {
                    let number = match track.track_id {
                        Some(number) => Some(number),
                        None => track.id,
                    };
                    match number {
                        Some(number) => match number.as_u64() {
                            Some(id) => return Some(source::qobuz_key_text(id)),
                            None => {},
                        },
                        None => {},
                    }
                },
                None => {},
            }
            match local_track {
                Some(track) => match track.track_id {
                    Some(number) => match number.as_i64() {
                        Some(id) => Some(source::local_key_text(id)),
                        None => None,
                    },
                    None => None,
                },
                None => None,
            }
        },
    }
}

/// What an item says of its track: a local one, a streamed one, or neither.
pub open spec fn spec_item_kind(item: QueueItem) -> Option<QueueKind> {
    match item {
        QueueItem::Built(built) => Some(source_kind(built.source)),
        QueueItem::Stored { resolved_source, service_track, local_track, .. } => {
            if resolved_source is Some {
                Some(source_kind(resolved_source->0))
            } else if service_track is Some {
                Some(QueueKind::Qobuz)
            } else if local_track is Some {
                Some(QueueKind::Local)
            } else {
                None
            }
        },
    }
}

pub open spec fn source_kind(source: SourceRef) -> QueueKind {
    match source {
        SourceRef::LocalTrack { .. } => QueueKind::Local,
        SourceRef::QobuzTrack { .. } => QueueKind::Qobuz,
    }
}

fn kind_of_source(source: &SourceRef) -> (r: QueueKind)
    ensures
        r == source_kind(*source),
{
    match source {
        SourceRef::LocalTrack { .. } => QueueKind::Local,
        SourceRef::QobuzTrack { .. } => QueueKind::Qobuz,
    }
}

fn kind_of_item(item: &QueueItem) -> (r: Option<QueueKind>)
    ensures
        r == spec_item_kind(*item),
{
    match item {
        QueueItem::Built(built) => Some(kind_of_source(&built.source)),
        QueueItem::Stored { resolved_source, service_track, local_track, .. } => {
            match resolved_source {
                Some(source) => return Some(kind_of_source(source)),
                None => {},
            }
            if service_track.is_some() {
                Some(QueueKind::Qobuz)
            } else if local_track.is_some() {
                Some(QueueKind::Local)
            } else {
                None
            }
        },
    }
}

/// Some item is of the kind.
pub open spec fn has_kind(items: Seq<QueueItem>, kind: QueueKind) -> bool {
    exists|i: int| 0 <= i < items.len() && spec_item_kind(#[trigger] items[i]) == Some(kind)
}

/// The kind of a queue: that of its items, mixed when both kinds occur.
pub open spec fn spec_queue_kind(items: Seq<QueueItem>) -> Option<QueueKind> {
    if has_kind(items, QueueKind::Local) && has_kind(items, QueueKind::Qobuz) {
        Some(QueueKind::Mixed)
    } else if has_kind(items, QueueKind::Local) {
        Some(QueueKind::Local)
    } else if has_kind(items, QueueKind::Qobuz) {
        Some(QueueKind::Qobuz)
    } else {
        None
    }
}

/// The kind of a queue.
pub fn queue_kind_for_items(items: &[QueueItem]) -> (r: Option<QueueKind>)
    ensures
        r == spec_queue_kind(items@),
{
    let mut has_local = false;
    let mut has_qobuz = false;
    let mut i: usize = 0;
    while i < items.len()
        invariant
            i <= items@.len(),
            has_local == exists|k: int|
                0 <= k < i && spec_item_kind(#[trigger] items@[k]) == Some(QueueKind::Local),
            has_qobuz == exists|k: int|
                0 <= k < i && spec_item_kind(#[trigger] items@[k]) == Some(QueueKind::Qobuz),
        decreases items@.len() - i,
    {
        let kind = kind_of_item(&items[i]);
        proof {
            assert(spec_item_kind(items@[i as int]) == kind);
        }
        match kind {
            Some(QueueKind::Local) => {
                has_local = true;
            },
            Some(QueueKind::Qobuz) => {
                has_qobuz = true;
            },
            _ => {},
        }
        i = i + 1;
    }
    if has_local && has_qobuz {
        Some(QueueKind::Mixed)
    } else if has_local {
        Some(QueueKind::Local)
    } else if has_qobuz {
        Some(QueueKind::Qobuz)
    } else {
        None
    }
}

/// The queue of a zone that has none stored.
pub open spec fn is_default_state(state: QueueState) -> bool {
    &&& state.kind is None
    &&& state.cursor == Some(StoredNumber::Negative((-1) as i64))
    &&& state.items@.len() == 0
    &&& text::opt_text(state.loop_mode) == Some("off"@)
    &&& state.rest@.len() == 0
}

/// The queue of a zone that has none stored.
pub fn default_now_playing_queue_state() -> (r: QueueState)
    ensures
        is_default_state(r),
{
    QueueState {
        kind: None,
        cursor: Some(StoredNumber::Negative(-1)),
        items: Vec::new(),
        loop_mode: Some("off".to_string()),
        rest: String::new(),
    }
}

/// A cursor points at an item, or before all of them.
pub open spec fn cursor_fits(cursor: Option<StoredNumber>, count: nat) -> bool {
    cursor is Some && cursor->0.spec_i64() is Some && -1 <= cursor->0.spec_i64()->0 < count
}

pub open spec fn is_loop_mode(mode: Option<String>) -> bool {
    text::opt_text(mode) == Some("off"@) || text::opt_text(mode) == Some("loop"@) || text::opt_text(
        mode,
    ) == Some("one"@)
}

/// The source is what the last item shows.
pub open spec fn ends_with(items: Seq<QueueItem>, source: SourceRef) -> bool {
    items.len() > 0 && spec_item_key(items.last()) == Some(source.spec_key())
}

/// `after` is `before` with `source` at its end. The items before it stay as
/// they are; a track is not added behind itself. What a client stored wrongly
/// is put right.
pub open spec fn appended(before: QueueState, after: QueueState, source: SourceRef) -> bool {
    &&& if ends_with(before.items@, source) {
        after.items@ == before.items@
    } else {
        &&& after.items@.len() == before.items@.len() + 1
        &&& after.items@.drop_last() == before.items@
        &&& after.items@.last() is Built
        &&& shows(after.items@.last()->Built_0, source, spec_filename(source))
    }
    &&& after.kind == spec_queue_kind(after.items@)
    &&& after.cursor == (if cursor_fits(before.cursor, after.items@.len()) {
        before.cursor
    } else {
        Some(StoredNumber::Negative((-1) as i64))
    })
    &&& text::opt_text(after.loop_mode) == (if is_loop_mode(before.loop_mode) {
        text::opt_text(before.loop_mode)
    } else {
        Some("off"@)
    })
    &&& after.rest == before.rest
}

/// Appends a source to the stored queue.
pub fn append_source_to_now_playing_queue_state(queue_state: &mut QueueState, source: &SourceRef)
    requires
        old(queue_state).items@.len() < i64::MAX,
    ensures
        appended(*old(queue_state), *final(queue_state), *source),
{
    let count: usize = queue_state.items.len();
    let repeated = if count == 0 {
        false
    } else {
        match queue_item_source_key(&queue_state.items[count - 1]) {
            Some(key) => key == source.key(),
            None => false,
        }
    };
    if !repeated {
        let item = source_ref_queue_item(source);
        queue_state.items.push(QueueItem::Built(item));
        proof {
            assert(queue_state.items@.drop_last() =~= old(queue_state).items@);
        }
    }
    queue_state.kind = queue_kind_for_items(queue_state.items.as_slice());
    let fits = match queue_state.cursor {
        Some(number) => match number.as_i64() {
            Some(cursor) => cursor >= -1 && cursor < queue_state.items.len() as i64,
            None => false,
        },
        None => false,
    };
    if !fits {
        queue_state.cursor = Some(StoredNumber::Negative(-1));
    }
    let known = match &queue_state.loop_mode {
        Some(mode) => {
            let mode = mode.as_str();
            *mode == *"off" || *mode == *"loop" || *mode == *"one"
        },
        None => false,
    };
    if !known {
        queue_state.loop_mode = Some("off".to_string());
    }
}

/// Appending the same source a second time changes nothing.
pub proof fn law_append_is_idempotent(
    before: QueueState,
    once: QueueState,
    twice: QueueState,
    source: SourceRef,
)
    requires
        appended(before, once, source),
        appended(once, twice, source),
    ensures
        twice.items@ == once.items@,
        twice.kind == once.kind,
        twice.cursor == once.cursor,
        text::opt_text(twice.loop_mode) == text::opt_text(once.loop_mode),
        twice.rest == once.rest,
{
}

/// Appending keeps the back stack: every item that was there stays where it
/// was, and so does a cursor that pointed at one.
pub proof fn law_append_keeps_back_stack(
    before: QueueState,
    after: QueueState,
    source: SourceRef,
    i: int,
)
    requires
        appended(before, after, source),
        0 <= i < before.items@.len(),
    ensures
        after.items@[i] == before.items@[i],
        cursor_fits(before.cursor, before.items@.len()) ==> after.cursor == before.cursor,
        spec_item_key(after.items@.last()) == Some(source.spec_key()),
{
    if !ends_with(before.items@, source) {
        assert(after.items@[i] == after.items@.drop_last()[i]);
    }
}

/// Whether the stored queue repeats as a whole.
pub fn queue_loop_enabled(state: Option<&QueueState>) -> (r: bool)
    ensures
        r == (state is Some && text::opt_text(state->0.loop_mode) == Some("loop"@)),
{
    match state {
        Some(state) => match &state.loop_mode {
            Some(mode) => *mode.as_str() == *"loop",
            None => false,
        },
        None => false,
    }
}

/// The items show the sources, one by one.
pub open spec fn items_show(items: Seq<QueueItem>, sources: Seq<SourceRef>) -> bool {
    &&& items.len() == sources.len()
    &&& forall|i: int|
        #![trigger items[i]]
        0 <= i < items.len() ==> items[i] is Built && shows(
            items[i]->Built_0,
            sources[i],
            spec_rebuilt_filename(sources[i]),
        )
}

/// The queue of a zone that took over a source and its queue.
pub fn rebuilt_queue_state(source: &SourceRef, queue: &[SourceRef]) -> (r: QueueState)
    ensures
        items_show(r.items@, seq![*source] + queue@),
        r.kind == spec_queue_kind(r.items@),
        r.cursor == Some(StoredNumber::Unsigned(0)),
        text::opt_text(r.loop_mode) == Some("off"@),
        r.rest@.len() == 0,
{
    let mut items: Vec<QueueItem> = Vec::new();
    items.push(QueueItem::Built(rebuilt_queue_item(source)));
    let ghost all = seq![*source] + queue@;
    let mut i: usize = 0;
    while i < queue.len()
        invariant
            i <= queue@.len(),
            all == seq![*source] + queue@,
            items_show(items@, all.take(i + 1)),
        decreases queue@.len() - i,
    {
        items.push(QueueItem::Built(rebuilt_queue_item(&queue[i])));
        proof {
            assert(all[i + 1] == queue@[i as int]);
        }
        i = i + 1;
    }
    proof {
        assert(all.take(i + 1) =~= all);
    }
    QueueState {
        kind: queue_kind_for_items(items.as_slice()),
        cursor: Some(StoredNumber::Unsigned(0)),
        items,
        loop_mode: Some("off".to_string()),
        rest: String::new(),
    }
}

/// A rebuilt queue is of the kind of the sources in it, whatever each item
/// looks like.
pub proof fn law_rebuilt_kind_follows_sources(items: Seq<QueueItem>, sources: Seq<SourceRef>)
    requires
        items_show(items, sources),
        sources.len() > 0,
    ensures
        (forall|i: int| 0 <= i < sources.len() ==> (#[trigger] sources[i]) is LocalTrack)
            ==> spec_queue_kind(items) == Some(QueueKind::Local),
        (forall|i: int| 0 <= i < sources.len() ==> (#[trigger] sources[i]) is QobuzTrack)
            ==> spec_queue_kind(items) == Some(QueueKind::Qobuz),
{
    assert(spec_item_kind(items[0]) == Some(source_kind(sources[0])));
    assert forall|i: int| 0 <= i < items.len() implies spec_item_kind(#[trigger] items[i]) == Some(
        source_kind(sources[i]),
    ) by {}
}

/// An item shows the title, artist, album and duration of its source; a source
/// without a title goes by its number.
pub proof fn law_items_show_their_source(
    item: SourceQueueItem,
    source: SourceRef,
    filename: Option<Seq<char>>,
)
    requires
        shows(item, source, filename),
    ensures
        item.source == source,
        source matches SourceRef::LocalTrack {
            track_id,
            title,
            artist,
            album,
            album_artist,
            duration_secs,
            ..
        } ==> {
            &&& title is Some ==> item.title@ == title->0@
            &&& title is None ==> item.title@ == "Track "@ + text::signed_decimal(track_id as int)
            &&& artist is Some ==> item.artist@ == artist->0@
            &&& artist is None ==> item.artist@.len() == 0
            &&& album is Some ==> item.album@ == album->0@
            &&& album is None ==> item.album@.len() == 0
            &&& album_artist is Some ==> item.album_artist is Some && item.album_artist->0@
                == album_artist->0@
            &&& duration_secs is Some ==> item.duration_secs == duration_secs->0
            &&& duration_secs is None ==> item.duration_secs.bits == 0
        },
        source matches SourceRef::QobuzTrack {
            track_id,
            title,
            artist,
            album,
            duration_secs,
            ..
        } ==> {
            &&& title is Some ==> item.title@ == title->0@
            &&& title is None ==> item.title@ == "Track "@ + text::decimal(track_id as nat)
            &&& artist is Some ==> item.artist@ == artist->0@
            &&& artist is None ==> item.artist@.len() == 0
            &&& album is Some ==> item.album@ == album->0@
            &&& album is None ==> item.album@.len() == 0
            &&& item.album_artist is None
            &&& duration_secs is Some ==> item.duration_secs == duration_secs->0
            &&& duration_secs is None ==> item.duration_secs.bits == 0
        },
{
}

/// An appended source is shown as the last item, and nothing is appended when
/// it is the last item already.
pub proof fn law_appended_source_is_last(
    before: QueueState,
    after: QueueState,
    source: SourceRef,
)
    requires
        appended(before, after, source),
    ensures
        spec_item_key(after.items@.last()) == Some(source.spec_key()),
        before.items@.len() > 0 && spec_item_key(before.items@.last()) == Some(source.spec_key())
            ==> after.items@ == before.items@,
        before.items@.len() == 0 || spec_item_key(before.items@.last()) != Some(source.spec_key())
            ==> {
            &&& after.items@.len() == before.items@.len() + 1
            &&& after.items@.last() is Built
            &&& after.items@.last()->Built_0.source == source
        },
        after.rest == before.rest,
{
}

/// After a source was appended the cursor lies within the queue or before its
/// first item; one that lay there stays, and any other goes before the first.
pub proof fn law_append_mends_the_cursor(before: QueueState, after: QueueState, source: SourceRef)
    requires
        appended(before, after, source),
    ensures
        after.cursor is Some,
        after.cursor->0.spec_i64() is Some,
        -1 <= after.cursor->0.spec_i64()->0 < after.items@.len(),
        before.cursor matches Some(StoredNumber::Unsigned(n)) ==> (n < before.items@.len()
            && before.items@.len() < i64::MAX ==> after.cursor == before.cursor),
        before.cursor is None ==> after.cursor == Some(StoredNumber::Negative((-1) as i64)),
{
}

/// Appending keeps how the queue repeats where that is known, and otherwise
/// does not repeat.
pub proof fn law_append_keeps_loop_mode(before: QueueState, after: QueueState, source: SourceRef)
    requires
        appended(before, after, source),
    ensures
        text::opt_text(before.loop_mode) == Some("off"@) || text::opt_text(before.loop_mode)
            == Some("loop"@) || text::opt_text(before.loop_mode) == Some("one"@) ==> text::opt_text(
            after.loop_mode,
        ) == text::opt_text(before.loop_mode),
        before.loop_mode is None ==> text::opt_text(after.loop_mode) == Some("off"@),
        text::opt_text(after.loop_mode) == Some("off"@) || text::opt_text(after.loop_mode) == Some(
            "loop"@,
        ) || text::opt_text(after.loop_mode) == Some("one"@),
{
}

/// A queue is mixed exactly when it holds items of both kinds.
pub proof fn law_mixed_queues_hold_both_kinds(items: Seq<QueueItem>, i: int, k: int)
    requires
        0 <= i < items.len(),
        0 <= k < items.len(),
    ensures
        spec_item_kind(items[i]) == Some(QueueKind::Local) && spec_item_kind(items[k]) == Some(
            QueueKind::Qobuz,
        ) ==> spec_queue_kind(items) == Some(QueueKind::Mixed),
        spec_queue_kind(items) == Some(QueueKind::Local) ==> spec_item_kind(items[i]) != Some(
            QueueKind::Qobuz,
        ),
        spec_queue_kind(items) == Some(QueueKind::Qobuz) ==> spec_item_kind(items[i]) != Some(
            QueueKind::Local,
        ),
        spec_queue_kind(items) is None ==> spec_item_kind(items[i]) != Some(QueueKind::Local)
            && spec_item_kind(items[i]) != Some(QueueKind::Qobuz),
        items[i] matches QueueItem::Built(built) ==> (built.source is LocalTrack ==> spec_item_kind(
            items[i],
        ) == Some(QueueKind::Local)) && (built.source is QobuzTrack ==> spec_item_kind(items[i])
            == Some(QueueKind::Qobuz)),
{
}

/// A stored item goes by the source that it resolves to, else by the number of
/// its streamed track, else by that of its track of the library.
pub proof fn law_items_go_by_their_source(
    body: String,
    source: SourceRef,
    service: u64,
    other: u64,
    local: u64,
)
    requires
        local <= i64::MAX,
    ensures
        ({
            let numbered = StoredServiceTrack {
                track_id: Some(StoredNumber::Unsigned(service)),
                id: Some(StoredNumber::Unsigned(other)),
            };
            let by_id = StoredServiceTrack {
                track_id: None,
                id: Some(StoredNumber::Unsigned(other)),
            };
            let on_disk = StoredLocalTrack { track_id: Some(StoredNumber::Unsigned(local)) };
            &&& spec_item_key(
                QueueItem::Stored {
                    body,
                    resolved_source: Some(source),
                    service_track: Some(numbered),
                    local_track: Some(on_disk),
                },
            ) == Some(source.spec_key())
            &&& spec_item_key(
                QueueItem::Stored {
                    body,
                    resolved_source: None,
                    service_track: Some(numbered),
                    local_track: Some(on_disk),
                },
            ) == Some(source::qobuz_key(service as nat))
            &&& spec_item_key(
                QueueItem::Stored {
                    body,
                    resolved_source: None,
                    service_track: Some(by_id),
                    local_track: Some(on_disk),
                },
            ) == Some(source::qobuz_key(other as nat))
            &&& spec_item_key(
                QueueItem::Stored {
                    body,
                    resolved_source: None,
                    service_track: None,
                    local_track: Some(on_disk),
                },
            ) == Some(source::local_key(local as int))
            &&& spec_item_key(
                QueueItem::Stored {
                    body,
                    resolved_source: None,
                    service_track: None,
                    local_track: None,
                },
            ) is None
        }),
{
}

/// A stored number is read as what it is wherever the kind of number asked for
/// can hold it.
pub proof fn law_stored_numbers_are_read_back(n: u64, negative: i64)
    ensures
        StoredNumber::Unsigned(n).spec_u64() == Some(n),
        n <= i64::MAX ==> StoredNumber::Unsigned(n).spec_i64() == Some(n as i64),
        n > i64::MAX ==> StoredNumber::Unsigned(n).spec_i64() is None,
        StoredNumber::Negative(negative).spec_i64() == Some(negative),
        StoredNumber::Negative(negative).spec_u64() is None,
        StoredNumber::Other.spec_u64() is None,
        StoredNumber::Other.spec_i64() is None,
{
}

/// A streamed track goes by its artist and title where both are there, by its
/// title where only that is, and by its key otherwise.
pub proof fn law_streamed_tracks_go_by_their_names(
    track_id: u64,
    artist: Seq<char>,
    title: Seq<char>,
)
    ensures
        spec_display_name(track_id, Some(artist), Some(title)) == artist + " - "@ + title,
        spec_display_name(track_id, None, Some(title)) == title,
        spec_display_name(track_id, Some(artist), None) == source::qobuz_key(track_id as nat),
        spec_display_name(track_id, None, None) == source::qobuz_key(track_id as nat),
{
}

/// A queue that is rebuilt begins with the source that plays, at which the
/// cursor stands, and goes on with the queued ones in their order.
pub proof fn law_rebuilt_queue_begins_with_source(
    source: SourceRef,
    queue: &[SourceRef],
    r: QueueState,
    i: int,
)
    requires
        call_ensures(rebuilt_queue_state, (&source, queue), r),
        0 <= i < queue@.len(),
    ensures
        r.items@.len() == queue@.len() + 1,
        spec_item_key(r.items@[0]) == Some(source.spec_key()),
        spec_item_key(r.items@[i + 1]) == Some(queue@[i].spec_key()),
        r.cursor is Some && r.cursor->0.spec_i64() == Some(0i64),
        text::opt_text(r.loop_mode) == Some("off"@),
{
    let all = seq![source] + queue@;
    assert(all[0] == source);
    assert(all[i + 1] == queue@[i]);
    assert(r.items@[0] is Built);
    assert(r.items@[i + 1] is Built);
}

/// Only a queue whose mode is that of repeating the whole queue repeats it.
pub proof fn law_only_loop_mode_repeats_queue(state: QueueState, r: bool)
    requires
        call_ensures(queue_loop_enabled, (Some(&state),), r),
    ensures
        text::opt_text(state.loop_mode) == Some("loop"@) ==> r,
        text::opt_text(state.loop_mode) == Some("off"@) ==> !r,
        text::opt_text(state.loop_mode) == Some("one"@) ==> !r,
        state.loop_mode is None ==> !r,
{
    reveal_strlit("off");
    reveal_strlit("loop");
    reveal_strlit("one");
    assert("off"@.len() == 3 && "loop"@.len() == 4 && "one"@.len() == 3);
}

} // verus!
