//! Order of playback commands: a client's late command never undoes a newer
//! one.

use crate::text;
use vstd::prelude::*;

verus! {

/// How many clients are remembered.
pub const MAX_PLAYBACK_SEQUENCE_CLIENTS: usize = 128;

/// A numbered command of a client.
#[derive(Debug)]
pub struct PlaybackRequestSequence {
    pub client_id: String,
    pub sequence: u64,
}

/// The part of a client's name that counts.
pub open spec fn spec_client_id(name: Seq<char>) -> Seq<char> {
    if name.len() <= 128 {
        name
    } else {
        name.take(128)
    }
}

impl Clone for PlaybackRequestSequence {
    fn clone(&self) -> (r: PlaybackRequestSequence)
        ensures
            r == *self,
    {
        PlaybackRequestSequence { client_id: self.client_id.clone(), sequence: self.sequence }
    }
}

impl PlaybackRequestSequence {
    /// A numbered command; long client names are cut.
    pub fn new(client_id: &str, sequence: u64) -> (r: PlaybackRequestSequence)
        ensures
            r.client_id@ == spec_client_id(client_id@),
            r.sequence == sequence,
    {
        let chars = text::chars_of(client_id);
        let kept: usize = if chars.len() <= 128 {
            chars.len()
        } else {
            128
        };
        let client_id = text::text_of(&chars, 0, kept);
        proof {
            assert(client_id@ =~= spec_client_id(chars@));
        }
        PlaybackRequestSequence { client_id, sequence }
    }
}

/// What is remembered of a client.
#[derive(Debug)]
pub struct SequenceEntry {
    pub client_id: String,
    pub sequence: u64,
    pub last_seen: u64,
}

/// The latest command number of each client, and when it was seen.
pub open spec fn entry_map(entries: Seq<SequenceEntry>) -> Map<Seq<char>, (u64, u64)>
    decreases entries.len(),
{
    if entries.len() == 0 {
        Map::empty()
    } else {
        entry_map(entries.drop_last()).insert(
            entries.last().client_id@,
            (entries.last().sequence, entries.last().last_seen),
        )
    }
}

/// Every client occurs once.
pub open spec fn distinct_clients(entries: Seq<SequenceEntry>) -> bool {
    forall|i: int, j: int|
        0 <= i < j < entries.len() ==> (#[trigger] entries[i]).client_id@ != (
        #[trigger] entries[j]).client_id@
}

proof fn lemma_entry_map(entries: Seq<SequenceEntry>)
    requires
        distinct_clients(entries),
    ensures
        forall|i: int|
            0 <= i < entries.len() ==> entry_map(entries).contains_key(
                (#[trigger] entries[i]).client_id@,
            ) && entry_map(entries)[entries[i].client_id@] == (
                entries[i].sequence,
                entries[i].last_seen,
            ),
        forall|id: Seq<char>|
            entry_map(entries).contains_key(id) ==> exists|i: int|
                0 <= i < entries.len() && (#[trigger] entries[i]).client_id@ == id,
    decreases entries.len(),
{
    if entries.len() > 0 {
        let init = entries.drop_last();
        lemma_entry_map(init);
        assert forall|i: int| 0 <= i < entries.len() implies entry_map(entries).contains_key(
            (#[trigger] entries[i]).client_id@,
        ) && entry_map(entries)[entries[i].client_id@] == (
            entries[i].sequence,
            entries[i].last_seen,
        ) by {
            if i < init.len() {
                assert(init[i] == entries[i]);
            }
        }
        assert forall|id: Seq<char>| entry_map(entries).contains_key(id) implies exists|i: int|
            0 <= i < entries.len() && (#[trigger] entries[i]).client_id@ == id by {
            if id != entries.last().client_id@ {
                assert(entry_map(init).contains_key(id));
                let i = choose|i: int| 0 <= i < init.len() && (#[trigger] init[i]).client_id@ == id;
                assert(entries[i] == init[i]);
            } else {
                assert(entries[entries.len() - 1].client_id@ == id);
            }
        }
    }
}

/// No client was seen before `id`.
pub open spec fn seen_longest_ago(all: Map<Seq<char>, (u64, u64)>, id: Seq<char>) -> bool {
    &&& all.contains_key(id)
    &&& forall|other: Seq<char>| #[trigger] all.contains_key(other) ==> all[id].1 <= all[other].1
}

/// The newest command of every client.
#[derive(Debug)]
pub struct PlaybackCommandSequencer {
    pub entries: Vec<SequenceEntry>,
}

impl View for PlaybackCommandSequencer {
    type V = Map<Seq<char>, (u64, u64)>;

    open spec fn view(&self) -> Map<Seq<char>, (u64, u64)> {
        entry_map(self.entries@)
    }
}

impl PlaybackCommandSequencer {
    pub open spec fn wf(self) -> bool {
        &&& distinct_clients(self.entries@)
        &&& self.entries@.len() <= MAX_PLAYBACK_SEQUENCE_CLIENTS
    }

    /// A newer command of the same client has been seen.
    pub open spec fn spec_stale(self, request: PlaybackRequestSequence) -> bool {
        self@.contains_key(request.client_id@) && request.sequence < self@[request.client_id@].0
    }

    /// The command is the newest of its client, and when it came from one
    /// client too many, one that was seen longest ago is forgotten.
    pub open spec fn noted(
        before: PlaybackCommandSequencer,
        after: PlaybackCommandSequencer,
        request: PlaybackRequestSequence,
        now: u64,
    ) -> bool {
        let all = before@.insert(request.client_id@, (request.sequence, now));
        if before@.contains_key(request.client_id@) || before.entries@.len()
            < MAX_PLAYBACK_SEQUENCE_CLIENTS {
            after@ == all
        } else {
            exists|gone: Seq<char>| #[trigger] seen_longest_ago(all, gone) && after@ == all.remove(gone)
        }
    }

    /// A sequencer that has seen nothing.
    pub fn new() -> (r: PlaybackCommandSequencer)
        ensures
            r.wf(),
            r@ == Map::<Seq<char>, (u64, u64)>::empty(),
    {
        PlaybackCommandSequencer { entries: Vec::new() }
    }

    fn position(&self, client_id: &String) -> (r: Option<usize>)
        requires
            distinct_clients(self.entries@),
        ensures
            match r {
                Some(i) => i < self.entries@.len() && self.entries@[i as int].client_id@
                    == client_id@,
                None => !self@.contains_key(client_id@),
            },
            r is Some ==> self@.contains_key(client_id@) && self@[client_id@] == (
                self.entries@[r->0 as int].sequence,
                self.entries@[r->0 as int].last_seen,
            ),
    {
        proof {
            lemma_entry_map(self.entries@);
        }
        let mut i: usize = 0;
        while i < self.entries.len()
            invariant
                i <= self.entries@.len(),
                distinct_clients(self.entries@),
                forall|k: int| 0 <= k < i ==> (#[trigger] self.entries@[k]).client_id@ != client_id@,
            decreases self.entries@.len() - i,
        {
            if self.entries[i].client_id == *client_id {
                proof {
                    lemma_entry_map(self.entries@);
                }
                return Some(i);
            }
            i = i + 1;
        }
        None
    }

    /// The entry that was seen longest ago.
    fn oldest(&self) -> (r: usize)
        requires
            self.entries@.len() > 0,
        ensures
            r < self.entries@.len(),
            forall|k: int|
                0 <= k < self.entries@.len() ==> self.entries@[r as int].last_seen <= (
                #[trigger] self.entries@[k]).last_seen,
    {
        let mut best: usize = 0;
        let mut i: usize = 1;
        while i < self.entries.len()
            invariant
                best < i <= self.entries@.len(),
                forall|k: int|
                    0 <= k < i ==> self.entries@[best as int].last_seen <= (
                    #[trigger] self.entries@[k]).last_seen,
            decreases self.entries@.len() - i,
        {
            if self.entries[i].last_seen < self.entries[best].last_seen {
                best = i;
            }
            i = i + 1;
        }
        best
    }

    /// Takes note of a command, unless a newer one of the same client has
    /// been seen. When there are too many clients, one that was seen longest
    /// ago is forgotten. A command without a number is always accepted.
    pub fn accept(&mut self, request: Option<&PlaybackRequestSequence>, now: u64) -> (r: bool)
        requires
            old(self).wf(),
        ensures
            final(self).wf(),
            r == (request is None || !old(self).spec_stale(*request->0)),
            request is None || !r ==> *final(self) == *old(self),
            request is Some && r ==> Self::noted(*old(self), *final(self), *request->0, now),
    {
        let request = match request {
            Some(request) => request,
            None => return true,
        };
        let ghost before = self.entries@;
        let ghost noted = self@.insert(request.client_id@, (request.sequence, now));
        proof {
            lemma_entry_map(before);
        }
        match self.position(&request.client_id) {
            Some(i) => {
                if request.sequence < self.entries[i].sequence {
                    return false;
                }
                let entry = SequenceEntry {
                    client_id: request.client_id.clone(),
                    sequence: request.sequence,
                    last_seen: now,
                };
                self.entries.set(i, entry);
                proof {
                    lemma_replaced(before, i as int, entry);
                }
            },
            None => {
                let entry = SequenceEntry {
                    client_id: request.client_id.clone(),
                    sequence: request.sequence,
                    last_seen: now,
                };
                self.entries.push(entry);
                let ghost pushed = self.entries@;
                proof {
                    assert(pushed.drop_last() =~= before);
                    assert(distinct_clients(pushed)) by {
                        assert forall|a: int, b: int| 0 <= a < b < pushed.len() implies (
                        #[trigger] pushed[a]).client_id@ != (#[trigger] pushed[b]).client_id@ by {
                            assert(pushed[a] == before[a]);
                            if b < before.len() {
                                assert(pushed[b] == before[b]);
                            }
                        }
                    }
                    assert(entry_map(pushed) == noted);
                }
                if self.entries.len() > MAX_PLAYBACK_SEQUENCE_CLIENTS {
                    let gone = self.oldest();
                    proof {
                        lemma_entry_map(pushed);
                        lemma_removed(pushed, gone as int);
                        let id = pushed[gone as int].client_id@;
                        assert(noted.contains_key(id));
                        assert forall|other: Seq<char>| #[trigger]
                            noted.contains_key(other) implies noted[id].1 <= noted[other].1 by {
                            let k = choose|k: int|
                                0 <= k < pushed.len() && (#[trigger] pushed[k]).client_id@ == other;
                            assert(pushed[gone as int].last_seen <= pushed[k].last_seen);
                        }
                    }
                    self.entries.remove(gone);
                    proof {
                        assert(self.entries@ =~= pushed.remove(gone as int));
                        assert(seen_longest_ago(noted, pushed[gone as int].client_id@));
                        assert(self@ == noted.remove(pushed[gone as int].client_id@));
                    }
                }
            },
        }
        true
    }

    /// No newer command of the same client has been seen.
    pub fn is_current(&self, expected: &PlaybackRequestSequence) -> (r: bool)
        requires
            self.wf(),
        ensures
            r == !self.spec_stale(*expected),
    {
        match self.position(&expected.client_id) {
            Some(i) => expected.sequence >= self.entries[i].sequence,
            None => true,
        }
    }

    /// A newer command of the same client has been seen. A command without a
    /// number is never stale.
    pub fn is_stale(&self, request: Option<&PlaybackRequestSequence>) -> (r: bool)
        requires
            self.wf(),
        ensures
            r == (request is Some && self.spec_stale(*request->0)),
    {
        match request {
            Some(request) => !self.is_current(request),
            None => false,
        }
    }
}

proof fn lemma_replaced(entries: Seq<SequenceEntry>, i: int, entry: SequenceEntry)
    requires
        distinct_clients(entries),
        0 <= i < entries.len(),
        entry.client_id@ == entries[i].client_id@,
    ensures
        distinct_clients(entries.update(i, entry)),
        entry_map(entries.update(i, entry)) == entry_map(entries).insert(
            entry.client_id@,
            (entry.sequence, entry.last_seen),
        ),
{
    let after = entries.update(i, entry);
    assert(distinct_clients(after)) by {
        assert forall|a: int, b: int| 0 <= a < b < after.len() implies (
        #[trigger] after[a]).client_id@ != (#[trigger] after[b]).client_id@ by {
            assert(entries[a].client_id@ == after[a].client_id@);
            assert(entries[b].client_id@ == after[b].client_id@);
        }
    }
    lemma_entry_map(entries);
    lemma_entry_map(after);
    let wanted = entry_map(entries).insert(entry.client_id@, (entry.sequence, entry.last_seen));
    assert forall|id: Seq<char>| entry_map(after).contains_key(id) <==> #[trigger]
        wanted.contains_key(id) by {
        if wanted.contains_key(id) {
            if id != entry.client_id@ {
                let k = choose|k: int|
                    0 <= k < entries.len() && (#[trigger] entries[k]).client_id@ == id;
                assert(after[k] == entries[k]);
            } else {
                assert(after[i].client_id@ == id);
            }
        }
        if entry_map(after).contains_key(id) {
            let k = choose|k: int| 0 <= k < after.len() && (#[trigger] after[k]).client_id@ == id;
            assert(entries[k].client_id@ == id);
        }
    }
    assert forall|id: Seq<char>| #[trigger] wanted.contains_key(id) implies entry_map(after)[id]
        == wanted[id] by {
        assert(entry_map(after).contains_key(id));
        let k = choose|k: int| 0 <= k < after.len() && (#[trigger] after[k]).client_id@ == id;
        assert(entries[k].client_id@ == id);
        if k == i {
            assert(after[k] == entry);
        } else {
            assert(after[k] == entries[k]);
            assert(id != entry.client_id@);
        }
    }
    assert(entry_map(after) =~= wanted);
}

proof fn lemma_removed(entries: Seq<SequenceEntry>, i: int)
    requires
        distinct_clients(entries),
        0 <= i < entries.len(),
    ensures
        distinct_clients(entries.remove(i)),
        entry_map(entries.remove(i)) == entry_map(entries).remove(entries[i].client_id@),
{
    let after = entries.remove(i);
    let shift = |k: int|
        if k < i {
            k
        } else {
            k + 1
        };
    assert(distinct_clients(after)) by {
        assert forall|a: int, b: int| 0 <= a < b < after.len() implies (
        #[trigger] after[a]).client_id@ != (#[trigger] after[b]).client_id@ by {
            assert(after[a] == entries[shift(a)]);
            assert(after[b] == entries[shift(b)]);
        }
    }
    lemma_entry_map(entries);
    lemma_entry_map(after);
    let wanted = entry_map(entries).remove(entries[i].client_id@);
    assert forall|id: Seq<char>| entry_map(after).contains_key(id) <==> #[trigger]
        wanted.contains_key(id) by {
        if wanted.contains_key(id) {
            let k = choose|k: int|
                0 <= k < entries.len() && (#[trigger] entries[k]).client_id@ == id;
            if k < i {
                assert(after[k] == entries[k]);
            } else {
                assert(after[k - 1] == entries[k]);
            }
        }
        if entry_map(after).contains_key(id) {
            let k = choose|k: int| 0 <= k < after.len() && (#[trigger] after[k]).client_id@ == id;
            assert(after[k] == entries[shift(k)]);
        }
    }
    assert forall|id: Seq<char>| #[trigger] wanted.contains_key(id) implies entry_map(after)[id]
        == wanted[id] by {
        assert(entry_map(after).contains_key(id));
        let k = choose|k: int| 0 <= k < after.len() && (#[trigger] after[k]).client_id@ == id;
        assert(after[k] == entries[shift(k)]);
    }
    assert(entry_map(after) =~= wanted);
}

/// Once a command has been noted, later than anything remembered, it is
/// current, and every older command of the same client is stale.
pub proof fn law_noted_command_supersedes_older(
    before: PlaybackCommandSequencer,
    after: PlaybackCommandSequencer,
    request: PlaybackRequestSequence,
    older: PlaybackRequestSequence,
    now: u64,
)
    requires
        before.wf(),
        PlaybackCommandSequencer::noted(before, after, request, now),
        forall|id: Seq<char>| #[trigger] before@.contains_key(id) ==> before@[id].1 < now,
        older.client_id@ == request.client_id@,
        older.sequence < request.sequence,
    ensures
        !after.spec_stale(request),
        after.spec_stale(older),
{
    let id = request.client_id@;
    let all = before@.insert(id, (request.sequence, now));
    if !before@.contains_key(id) && before.entries@.len() >= MAX_PLAYBACK_SEQUENCE_CLIENTS {
        let gone = choose|gone: Seq<char>| #[trigger]
            seen_longest_ago(all, gone) && after@ == all.remove(gone);
        lemma_entry_map(before.entries@);
        let other = before.entries@[0].client_id@;
        assert(before@.contains_key(other));
        assert(all.contains_key(other));
        assert(gone != id);
    }
}

/// A command number is never replaced by a smaller one of the same client, as
/// long as the client is remembered.
pub proof fn law_latest_number_never_falls(
    before: PlaybackCommandSequencer,
    after: PlaybackCommandSequencer,
    request: PlaybackRequestSequence,
    now: u64,
    client: Seq<char>,
)
    requires
        !before.spec_stale(request),
        PlaybackCommandSequencer::noted(before, after, request, now),
        before@.contains_key(client),
        after@.contains_key(client),
    ensures
        after@[client].0 >= before@[client].0,
{
}

/// A client goes by the first 128 characters of its name.
pub proof fn law_client_names_are_bounded(name: Seq<char>)
    ensures
        spec_client_id(name).len() <= 128,
        spec_client_id(name) == name.take(spec_client_id(name).len() as int),
        name.len() <= 128 ==> spec_client_id(name) == name,
        name.len() > 128 ==> spec_client_id(name).len() == 128,
{
    assert(name.take(name.len() as int) =~= name);
}

/// A command is late exactly when its client is known with a greater number:
/// the same number again, a greater one, and every command of an unknown client
/// are in time.
pub proof fn law_only_smaller_numbers_are_late(
    sequencer: PlaybackCommandSequencer,
    request: PlaybackRequestSequence,
)
    ensures
        !sequencer@.contains_key(request.client_id@) ==> !sequencer.spec_stale(request),
        sequencer@.contains_key(request.client_id@) ==> (sequencer.spec_stale(request)
            <==> request.sequence < sequencer@[request.client_id@].0),
{
}

/// A noted command changes nothing for the other clients that are still known,
/// and while there is room, or its client is known, all of them are.
pub proof fn law_noting_leaves_others_alone(
    before: PlaybackCommandSequencer,
    after: PlaybackCommandSequencer,
    request: PlaybackRequestSequence,
    now: u64,
    other: Seq<char>,
)
    requires
        PlaybackCommandSequencer::noted(before, after, request, now),
        other != request.client_id@,
    ensures
        after@.contains_key(other) ==> before@.contains_key(other) && after@[other]
            == before@[other],
        before@.contains_key(other) && (before.entries@.len() < 128 || before@.contains_key(
            request.client_id@,
        )) ==> after@.contains_key(other),
        before.entries@.len() < 128 || before@.contains_key(request.client_id@)
            ==> after@.contains_key(request.client_id@) && after@[request.client_id@] == (
            request.sequence,
            now,
        ),
{
}

/// Only the client that was seen longest ago is forgotten.
pub proof fn law_oldest_client_is_forgotten(
    before: PlaybackCommandSequencer,
    after: PlaybackCommandSequencer,
    request: PlaybackRequestSequence,
    now: u64,
    gone: Seq<char>,
    kept: Seq<char>,
)
    requires
        PlaybackCommandSequencer::noted(before, after, request, now),
        before@.contains_key(gone),
        !after@.contains_key(gone),
        before@.contains_key(kept),
        kept != request.client_id@,
    ensures
        before@[gone].1 <= before@[kept].1,
        kept != gone ==> after@.contains_key(kept),
{
    let all = before@.insert(request.client_id@, (request.sequence, now));
    if !(before@.contains_key(request.client_id@) || before.entries@.len()
        < MAX_PLAYBACK_SEQUENCE_CLIENTS) {
        let left = choose|left: Seq<char>| #[trigger]
            seen_longest_ago(all, left) && after@ == all.remove(left);
        assert(all.contains_key(gone));
        assert(left == gone);
        assert(all.contains_key(kept));
    }
}

} // verus!
