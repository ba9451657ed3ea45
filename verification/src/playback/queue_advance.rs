//! What comes next on a zone: the queue, a radio recommendation, or whatever
//! the sink itself has queued.

use crate::playback::error::{ErrorKind, PlaybackError};
use crate::playback::request::{PlaybackGuard, PlaybackRequest};
use crate::playback::source;
use crate::playback::source::{
    qobuz_queue_source_refs, qobuz_source_ref_from_play_request, QobuzPlayRequest,
};
use crate::protocol::source::SourceRef;
use vstd::prelude::*;

verus! {

/// How a command ended.
#[derive(Clone, Copy, Debug, PartialEq, Eq, Structural)]
pub enum PlaybackOutcome {
    Completed,
    QobuzRadioAdvanced,
}

/// What a zone does next.
pub enum QueueAdvance {
    /// Nothing: playback has already moved on.
    Completed,
    /// Play this. A radio recommendation also joins the stored queue.
    Play { request: PlaybackRequest, outcome: PlaybackOutcome, append_to_queue: bool },
    /// Let the sink go to its next track.
    AdvanceSink { profile_id: String },
}

/// What is known when a zone is to advance.
pub struct AdvanceContext {
    pub profile_id: String,
    pub active_source: Option<SourceRef>,
    pub queue_exhausted: bool,
    pub lastfm_radio_enabled: bool,
}

/// Whom to ask next.
pub enum AdvanceStep {
    /// Last.fm, for a recommendation.
    AskLastfm,
    /// The local library, for another track of the artist.
    AskArtistRadio,
    /// The streaming service, for the next track of its radio.
    AskServiceRadio,
    Done(QueueAdvance),
}

/// Nothing is queued behind what plays. While something plays, that is whether
/// a later track is queued; else it is whether the stored queue is empty,
/// which an unreadable queue is not.
pub open spec fn spec_exhausted(
    active: bool,
    has_future_queue: bool,
    stored_queue_len: Option<usize>,
) -> bool {
    if active {
        !has_future_queue
    } else {
        stored_queue_len == Some(0usize)
    }
}

/// Whether nothing is queued behind what plays.
pub fn queue_is_exhausted(
    active_source: Option<&SourceRef>,
    has_future_queue: bool,
    stored_queue_len: Option<usize>,
) -> (r: bool)
    ensures
        r == spec_exhausted(active_source is Some, has_future_queue, stored_queue_len),
{
    match active_source {
        Some(_) => !has_future_queue,
        None => match stored_queue_len {
            Some(len) => len == 0,
            None => false,
        },
    }
}

/// The keys of two optional sources are the same.
pub open spec fn same_active(a: Option<SourceRef>, b: Option<SourceRef>) -> bool {
    match a {
        Some(x) => b is Some && x.spec_key() == b->0.spec_key(),
        None => b is None,
    }
}

fn is_same_active(a: &Option<SourceRef>, b: &Option<SourceRef>) -> (r: bool)
    ensures
        r == same_active(*a, *b),
{
    match a {
        Some(x) => match b {
            Some(y) => x.key() == y.key(),
            None => false,
        },
        None => b.is_none(),
    }
}

/// `request` plays a recommendation and nothing after it.
pub open spec fn is_radio_request(
    request: PlaybackRequest,
    profile_id: Seq<char>,
    source: SourceRef,
) -> bool {
    &&& request.profile_id@ == profile_id
    &&& request.source == source
    &&& request.queue@.len() == 0
    &&& request.radio_auto == source.spec_is_radio()
    &&& request.guard.expected_sequence is None
    &&& request.qobuz_request is None
}

/// The request that plays a recommendation.
pub fn radio_request(profile_id: &String, source: SourceRef) -> (r: PlaybackRequest)
    ensures
        is_radio_request(r, profile_id@, source),
{
    let radio_auto = source.is_radio();
    PlaybackRequest {
        profile_id: profile_id.clone(),
        source,
        queue: Vec::new(),
        radio_auto,
        guard: PlaybackGuard::none(),
        qobuz_request: None,
    }
}

/// The step plays a recommendation and adds it to the stored queue.
pub open spec fn plays_radio(step: AdvanceStep, profile_id: Seq<char>, source: SourceRef) -> bool {
    &&& step is Done
    &&& step->Done_0 matches QueueAdvance::Play { request, outcome, append_to_queue }
    &&& outcome == PlaybackOutcome::Completed
    &&& append_to_queue
    &&& is_radio_request(request, profile_id, source)
}

/// The step once Last.fm is out of the picture.
pub open spec fn falls_back(step: AdvanceStep, context: AdvanceContext) -> bool {
    if context.queue_exhausted && context.active_source is Some {
        step is AskArtistRadio
    } else {
        step is AskServiceRadio
    }
}

impl AdvanceContext {
    /// What is known when a zone is to advance; a zone without a listener uses
    /// the default profile.
    pub fn new(
        profile_id: Option<String>,
        default_profile_id: &str,
        active_source: Option<SourceRef>,
        queue_exhausted: bool,
        lastfm_radio_enabled: bool,
    ) -> (r: AdvanceContext)
        ensures
            r == (AdvanceContext {
                profile_id: r.profile_id,
                active_source,
                queue_exhausted,
                lastfm_radio_enabled,
            }),
            r.profile_id@ == (match profile_id {
                Some(id) => id@,
                None => default_profile_id@,
            }),
    {
        AdvanceContext {
            profile_id: match profile_id {
                Some(id) => id,
                None => default_profile_id.to_string(),
            },
            active_source,
            queue_exhausted,
            lastfm_radio_enabled,
        }
    }

    fn fallback(&self) -> (r: AdvanceStep)
        ensures
            falls_back(r, *self),
    {
        if self.queue_exhausted && self.active_source.is_some() {
            AdvanceStep::AskArtistRadio
        } else {
            AdvanceStep::AskServiceRadio
        }
    }

    /// The first step: radio is only asked once the queue is exhausted.
    pub fn advance(&self) -> (r: AdvanceStep)
        ensures
            self.queue_exhausted && self.lastfm_radio_enabled ==> r is AskLastfm,
            !(self.queue_exhausted && self.lastfm_radio_enabled) ==> falls_back(r, *self),
    {
        if self.queue_exhausted && self.lastfm_radio_enabled {
            return AdvanceStep::AskLastfm;
        }
        self.fallback()
    }

    /// The step after Last.fm has answered; `None` stands for a failure. When
    /// the track has changed meanwhile, there is nothing left to do; when
    /// something was queued meanwhile, the recommendation is dropped.
    pub fn after_lastfm(
        &self,
        answer: Option<Option<SourceRef>>,
        current_active: Option<SourceRef>,
        still_exhausted: bool,
    ) -> (r: AdvanceStep)
        ensures
            answer is None ==> falls_back(r, *self),
            answer is Some && !same_active(current_active, self.active_source) ==> r
                == AdvanceStep::Done(QueueAdvance::Completed),
            answer is Some && same_active(current_active, self.active_source) ==> (
            if answer->0 is Some && still_exhausted {
                plays_radio(r, self.profile_id@, answer->0->0)
            } else {
                falls_back(r, *self)
            }),
    {
        match answer {
            Some(found) => {
                if !is_same_active(&current_active, &self.active_source) {
                    return AdvanceStep::Done(QueueAdvance::Completed);
                }
                match found {
                    Some(source) => {
                        if still_exhausted {
                            return AdvanceStep::Done(
                                QueueAdvance::Play {
                                    request: radio_request(&self.profile_id, source),
                                    outcome: PlaybackOutcome::Completed,
                                    append_to_queue: true,
                                },
                            );
                        }
                    },
                    None => {},
                }
            },
            None => {},
        }
        self.fallback()
    }

    /// The step after the local library has answered; `None` stands for a
    /// failure.
    pub fn after_artist_radio(
        &self,
        answer: Option<Option<SourceRef>>,
        current_active: Option<SourceRef>,
    ) -> (r: AdvanceStep)
        ensures
            answer is None || answer->0 is None ==> r is AskServiceRadio,
            answer is Some && answer->0 is Some ==> (if same_active(
                current_active,
                self.active_source,
            ) {
                plays_radio(r, self.profile_id@, answer->0->0)
            } else {
                r == AdvanceStep::Done(QueueAdvance::Completed)
            }),
    {
        match answer {
            Some(Some(source)) => {
                if !is_same_active(&current_active, &self.active_source) {
                    return AdvanceStep::Done(QueueAdvance::Completed);
                }
                AdvanceStep::Done(
                    QueueAdvance::Play {
                        request: radio_request(&self.profile_id, source),
                        outcome: PlaybackOutcome::Completed,
                        append_to_queue: true,
                    },
                )
            },
            _ => AdvanceStep::AskServiceRadio,
        }
    }

    /// What a zone does after the streaming service has answered.
    pub fn after_service_radio(&self, answer: Result<Option<QobuzPlayRequest>, String>) -> (r:
        Result<QueueAdvance, PlaybackError>)
        ensures
            match answer {
                Ok(Some(found)) => {
                    &&& r is Ok
                    &&& r->Ok_0 matches QueueAdvance::Play { request, outcome, append_to_queue }
                    &&& outcome == PlaybackOutcome::QobuzRadioAdvanced
                    &&& !append_to_queue
                    &&& request.profile_id@ == self.profile_id@
                    &&& request.source == source::spec_request_source(found)
                    &&& request.queue@ == source::spec_request_queue(found)
                    &&& request.radio_auto == found.radio_auto
                    &&& request.guard.expected_sequence is None
                    &&& request.qobuz_request == Some(found)
                },
                Ok(None) => r is Ok && r->Ok_0 is AdvanceSink && r->Ok_0->AdvanceSink_profile_id@
                    == self.profile_id@,
                Err(error) => r is Err && r->Err_0.is(ErrorKind::Integration, error@),
            },
    {
        match answer {
            Ok(Some(found)) => {
                let queue = qobuz_queue_source_refs(&found);
                let source = qobuz_source_ref_from_play_request(&found);
                let radio_auto = found.radio_auto;
                Ok(
                    QueueAdvance::Play {
                        request: PlaybackRequest {
                            profile_id: self.profile_id.clone(),
                            source,
                            queue,
                            radio_auto,
                            guard: PlaybackGuard::none(),
                            qobuz_request: Some(found),
                        },
                        outcome: PlaybackOutcome::QobuzRadioAdvanced,
                        append_to_queue: false,
                    },
                )
            },
            Ok(None) => Ok(QueueAdvance::AdvanceSink { profile_id: self.profile_id.clone() }),
            Err(error) => Err(PlaybackError::Integration(error)),
        }
    }
}

/// A recommendation never plays while something is queued: radio is asked
/// only on an exhausted queue.
pub proof fn law_radio_waits_for_queue(context: AdvanceContext, first: AdvanceStep)
    requires
        !context.queue_exhausted,
        falls_back(first, context),
    ensures
        first is AskServiceRadio,
{
}

/// While something plays the queue is exhausted when nothing is to follow;
/// otherwise when the stored queue is known to be empty.
pub proof fn law_exhaustion(
    active: bool,
    has_future_queue: bool,
    stored_queue_len: Option<usize>,
)
    ensures
        active && has_future_queue ==> !spec_exhausted(active, has_future_queue, stored_queue_len),
        active && !has_future_queue ==> spec_exhausted(active, has_future_queue, stored_queue_len),
        !active && stored_queue_len is None ==> !spec_exhausted(
            active,
            has_future_queue,
            stored_queue_len,
        ),
        !active && stored_queue_len is Some ==> (spec_exhausted(
            active,
            has_future_queue,
            stored_queue_len,
        ) <==> stored_queue_len->0 == 0),
{
}

/// The listener's own radio is asked first where it is switched on and the
/// queue is exhausted, then the artist's while something plays, then the
/// service's.
pub proof fn law_radios_are_asked_in_order(context: AdvanceContext, r: AdvanceStep)
    requires
        call_ensures(AdvanceContext::advance, (&context,), r),
    ensures
        r is AskLastfm <==> context.queue_exhausted && context.lastfm_radio_enabled,
        r is AskArtistRadio <==> context.queue_exhausted && !context.lastfm_radio_enabled
            && context.active_source is Some,
        r is AskServiceRadio <==> !context.queue_exhausted || (!context.lastfm_radio_enabled
            && context.active_source is None),
{
}

/// What the listener's radio found is played, and queued, when the queue is
/// still exhausted and the same source is still active; another source that
/// became active meanwhile ends the search.
pub proof fn law_found_track_is_played(
    context: AdvanceContext,
    found: SourceRef,
    current_active: Option<SourceRef>,
    still_exhausted: bool,
    r: AdvanceStep,
)
    requires
        call_ensures(
            AdvanceContext::after_lastfm,
            (&context, Some(Some(found)), current_active, still_exhausted),
            r,
        ),
    ensures
        current_active == context.active_source && still_exhausted ==> match r {
            AdvanceStep::Done(QueueAdvance::Play { request, outcome, append_to_queue }) => {
                &&& request.source == found
                &&& request.profile_id@ == context.profile_id@
                &&& request.queue@.len() == 0
                &&& request.radio_auto == found.spec_is_radio()
                &&& append_to_queue
                &&& outcome is Completed
            },
            _ => false,
        },
        current_active is None != context.active_source is None ==> r == AdvanceStep::Done(
            QueueAdvance::Completed,
        ),
        current_active == context.active_source && !still_exhausted ==> r is AskArtistRadio
            || r is AskServiceRadio,
{
}

/// What the artist's radio found is played, and queued, while the same source
/// is active.
pub proof fn law_found_artist_track_is_played(
    context: AdvanceContext,
    found: SourceRef,
    current_active: Option<SourceRef>,
    r: AdvanceStep,
)
    requires
        call_ensures(
            AdvanceContext::after_artist_radio,
            (&context, Some(Some(found)), current_active),
            r,
        ),
    ensures
        current_active == context.active_source ==> match r {
            AdvanceStep::Done(QueueAdvance::Play { request, append_to_queue, .. }) => {
                &&& request.source == found
                &&& request.profile_id@ == context.profile_id@
                &&& append_to_queue
            },
            _ => false,
        },
        current_active is None != context.active_source is None ==> r == AdvanceStep::Done(
            QueueAdvance::Completed,
        ),
{
}

/// What the service's radio found is played as the service named it; where it
/// found nothing the sink goes on by itself.
pub proof fn law_service_track_is_played(
    context: AdvanceContext,
    answer: Result<Option<QobuzPlayRequest>, String>,
    r: Result<QueueAdvance, PlaybackError>,
)
    requires
        call_ensures(AdvanceContext::after_service_radio, (&context, answer), r),
    ensures
        answer matches Ok(Some(found)) ==> match r {
            Ok(QueueAdvance::Play { request, outcome, append_to_queue }) => {
                &&& request.source.spec_qobuz_track_id() == Some(found.track_id)
                &&& request.qobuz_request == Some(found)
                &&& request.queue@.len() == found.queue@.len()
                &&& request.profile_id@ == context.profile_id@
                &&& request.radio_auto == found.radio_auto
                &&& !append_to_queue
                &&& outcome is QobuzRadioAdvanced
            },
            _ => false,
        },
        answer matches Ok(None) ==> r is Ok && r->Ok_0 is AdvanceSink,
        answer is Err <==> r is Err,
{
}

} // verus!
