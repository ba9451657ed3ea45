//! Playback requests and the guard that ties them to a numbered command.

use crate::playback::sequencer::{PlaybackCommandSequencer, PlaybackRequestSequence};
use crate::playback::source::QobuzPlayRequest;
use crate::protocol::source::SourceRef;
use vstd::prelude::*;

verus! {

/// The command that a request belongs to, if it is numbered.
#[derive(Debug)]
pub struct PlaybackGuard {
    pub expected_sequence: Option<PlaybackRequestSequence>,
}

impl Clone for PlaybackGuard {
    fn clone(&self) -> (r: PlaybackGuard)
        ensures
            r == *self,
    {
        PlaybackGuard { expected_sequence: self.expected_sequence.clone() }
    }
}

impl PlaybackGuard {
    /// The guard does not object to going on.
    pub open spec fn spec_current(self, sequencer: PlaybackCommandSequencer) -> bool {
        self.expected_sequence is None || !sequencer.spec_stale(self.expected_sequence->0)
    }

    /// A guard that never objects.
    pub fn none() -> (r: PlaybackGuard)
        ensures
            r.expected_sequence is None,
    {
        PlaybackGuard { expected_sequence: None }
    }

    pub fn from_expected_sequence(expected_sequence: Option<PlaybackRequestSequence>) -> (r:
        PlaybackGuard)
        ensures
            r.expected_sequence == expected_sequence,
    {
        PlaybackGuard { expected_sequence }
    }

    /// Whether no newer command of the same client has been seen.
    pub fn is_current(&self, sequencer: &PlaybackCommandSequencer) -> (r: bool)
        requires
            sequencer.wf(),
        ensures
            r == self.spec_current(*sequencer),
    {
        match &self.expected_sequence {
            Some(expected) => sequencer.is_current(expected),
            None => true,
        }
    }

    pub fn expected_sequence(&self) -> (r: Option<&PlaybackRequestSequence>)
        ensures
            r is Some <==> self.expected_sequence is Some,
            r is Some ==> *r->0 == self.expected_sequence->0,
    {
        match &self.expected_sequence {
            Some(expected) => Some(expected),
            None => None,
        }
    }
}

/// A request to play a source on a zone.
#[derive(Debug)]
pub struct PlaybackRequest {
    pub profile_id: String,
    pub source: SourceRef,
    pub queue: Vec<SourceRef>,
    pub radio_auto: bool,
    pub guard: PlaybackGuard,
    pub qobuz_request: Option<QobuzPlayRequest>,
}

/// What a log line tells of a request.
pub struct SourceFields {
    pub kind: &'static str,
    pub local_track_id: Option<i64>,
    pub qobuz_track_id: Option<u64>,
    pub queue_len: usize,
}

impl PlaybackRequest {
    /// What a log line tells of the request.
    pub fn source_fields(&self) -> (r: SourceFields)
        ensures
            r.kind@ == self.source.spec_kind(),
            r.local_track_id == self.source.spec_local_track_id(),
            r.qobuz_track_id == self.source.spec_qobuz_track_id(),
            r.queue_len == self.queue@.len(),
    {
        SourceFields {
            kind: self.source.kind(),
            local_track_id: self.source.local_track_id(),
            qobuz_track_id: self.source.qobuz_track_id(),
            queue_len: self.queue.len(),
        }
    }
}

} // verus!
