//! Moving playback from one zone to another.

use crate::audio::Real64;
use crate::playback::error::{ErrorKind, PlaybackError};
use crate::playback::request::{PlaybackGuard, PlaybackRequest};
use crate::protocol::source::SourceRef;
use crate::text;
use vstd::prelude::*;

verus! {

/// What becomes of the zone that playback is moved from.
#[derive(Clone, Copy, Debug, PartialEq, Eq, Structural)]
pub enum TransferSourceAction {
    Pause,
    KeepPlaying,
}

impl Default for TransferSourceAction {
    fn default() -> (r: TransferSourceAction)
        ensures
            r == TransferSourceAction::Pause,
    {
        TransferSourceAction::Pause
    }
}

/// A request to move playback to another zone.
#[derive(Debug)]
pub struct TransferRequest {
    pub destination_zone_id: String,
    pub source_action: TransferSourceAction,
    pub expected_current: Option<String>,
}

/// What a transfer did.
#[derive(Debug)]
pub struct TransferResponse {
    pub source_zone_id: String,
    pub destination_zone_id: String,
    pub source_action: TransferSourceAction,
    pub source_key: String,
    pub queued_count: usize,
    pub destination_state: String,
    pub seek_error: Option<String>,
    pub source_queue_clear_error: Option<String>,
}

/// The destination of a transfer: another zone than the source, and both must
/// be there.
pub fn transfer_destination(
    source_zone_id: &str,
    req: &TransferRequest,
    source_available: bool,
    destination_available: bool,
) -> (r: Result<String, PlaybackError>)
    ensures
        ({
            let destination = text::trimmed(req.destination_zone_id@);
            &&& r is Ok <==> destination.len() > 0 && destination != source_zone_id@
                && source_available && destination_available
            &&& r is Ok ==> r->Ok_0@ == destination
            &&& destination.len() == 0 ==> r is Err && r->Err_0.is(
                ErrorKind::BadRequest,
                "destination_zone_id is required"@,
            )
            &&& destination.len() > 0 && destination == source_zone_id@ ==> r is Err && r->Err_0.is(
                ErrorKind::BadRequest,
                "source and destination zones must differ"@,
            )
            &&& destination.len() > 0 && destination != source_zone_id@ && !(source_available
                && destination_available) ==> r is Err && r->Err_0 is ZoneNotAvailable
        }),
{
    let destination = req.destination_zone_id.as_str().trim();
    if destination.is_empty() {
        return Err(PlaybackError::bad_request("destination_zone_id is required"));
    }
    if *source_zone_id == *destination {
        return Err(PlaybackError::bad_request("source and destination zones must differ"));
    }
    if !source_available || !destination_available {
        return Err(PlaybackError::ZoneNotAvailable);
    }
    Ok(destination.to_string())
}

/// What the source zone is doing.
pub struct TransferStatus {
    pub state: String,
    pub current_source: Option<SourceRef>,
    pub position_secs: Real64,
    pub duration_secs: Real64,
}

/// The source that moves: what the zone reports, else what it was last asked
/// to play.
pub open spec fn spec_moving(status: TransferStatus, active: Option<SourceRef>) -> Option<
    SourceRef,
> {
    if status.current_source is Some {
        status.current_source
    } else {
        active
    }
}

/// The track that the client saw, when it said which.
pub open spec fn spec_expected(req: TransferRequest) -> Option<Seq<char>> {
    match req.expected_current {
        Some(name) => if text::trimmed(name@).len() > 0 {
            Some(text::trimmed(name@))
        } else {
            None
        },
        None => None,
    }
}

/// The source that moves. The zone must be playing or paused, and the track
/// that the client saw must still be the current one: `current_matches` says
/// so for the name as it was given, `trimmed_matches` for the trimmed name.
pub fn transfer_source(
    status: &TransferStatus,
    active: Option<SourceRef>,
    req: &TransferRequest,
    current_matches: bool,
    trimmed_matches: bool,
) -> (r: Result<SourceRef, PlaybackError>)
    ensures
        ({
            let busy = status.state@ == "Playing"@ || status.state@ == "Paused"@;
            let moving = spec_moving(*status, active);
            let expected = spec_expected(*req);
            let other = expected is Some && moving is Some && moving->0.spec_key() != expected->0
                && !trimmed_matches;
            &&& r is Ok <==> busy && current_matches && moving is Some && !other
            &&& r is Ok ==> r->Ok_0 == moving->0
            &&& !busy ==> r is Err && r->Err_0.is(
                ErrorKind::Conflict,
                "Source zone is not playing or paused"@,
            )
            &&& busy && (!current_matches || other) ==> r is Err && r->Err_0.is(
                ErrorKind::Conflict,
                "Current track changed"@,
            )
            &&& busy && current_matches && moving is None ==> r is Err && r->Err_0.is(
                ErrorKind::Conflict,
                "Source zone has no current source"@,
            )
        }),
{
    let state = status.state.as_str();
    if *state != *"Playing" && *state != *"Paused" {
        return Err(PlaybackError::conflict("Source zone is not playing or paused"));
    }
    if !current_matches {
        return Err(PlaybackError::conflict("Current track changed"));
    }
    let source = match &status.current_source {
        Some(source) => source.clone(),
        None => match active {
            Some(source) => source,
            None => return Err(PlaybackError::conflict("Source zone has no current source")),
        },
    };
    match &req.expected_current {
        Some(name) => {
            let expected = name.as_str().trim();
            if !expected.is_empty() && *source.key().as_str() != *expected && !trimmed_matches {
                return Err(PlaybackError::conflict("Current track changed"));
            }
        },
        None => {},
    }
    Ok(source)
}

/// The queue without the copies of a track at its head.
pub open spec fn without_head(queue: Seq<SourceRef>, source: SourceRef) -> Seq<SourceRef>
    decreases queue.len(),
{
    if queue.len() > 0 && queue[0].spec_key() == source.spec_key() {
        without_head(queue.skip(1), source)
    } else {
        queue
    }
}

/// The queue that moves: that of the session, else the stored one; the track
/// itself is not queued behind itself.
pub fn transfer_queue_sources(
    session_queue: Vec<SourceRef>,
    stored_queue: Vec<SourceRef>,
    source: &SourceRef,
) -> (r: Vec<SourceRef>)
    ensures
        r@ == without_head(
            (if session_queue@.len() > 0 {
                session_queue@
            } else {
                stored_queue@
            }),
            *source,
        ),
{
    let mut queue = if session_queue.len() > 0 {
        session_queue
    } else {
        stored_queue
    };
    let ghost all = queue@;
    let key = source.key();
    while queue.len() > 0 && queue[0].key() == key
        invariant
            key@ == source.spec_key(),
            without_head(queue@, *source) == without_head(all, *source),
        decreases queue@.len(),
    {
        proof {
            assert(queue@.remove(0) =~= queue@.skip(1));
        }
        queue.remove(0);
    }
    queue
}

/// What moves is the end of the queue, and it does not start with the track
/// that moves.
pub proof fn law_moved_queue_is_tail(queue: Seq<SourceRef>, source: SourceRef)
    ensures
        without_head(queue, source).len() <= queue.len(),
        without_head(queue, source) == queue.skip(queue.len() - without_head(queue, source).len()),
        without_head(queue, source).len() > 0 ==> without_head(queue, source)[0].spec_key()
            != source.spec_key(),
    decreases queue.len(),
{
    if queue.len() > 0 && queue[0].spec_key() == source.spec_key() {
        law_moved_queue_is_tail(queue.skip(1), source);
        let rest = without_head(queue.skip(1), source);
        assert(queue.skip(1).skip(queue.skip(1).len() - rest.len()) =~= queue.skip(
            queue.len() - rest.len(),
        ));
    } else {
        assert(queue.skip(0) =~= queue);
    }
}

/// The request that starts the destination.
pub fn transfer_play_request(
    profile_id: Option<String>,
    default_profile_id: &str,
    source: SourceRef,
    queue: Vec<SourceRef>,
) -> (r: PlaybackRequest)
    ensures
        r.profile_id@ == (match profile_id {
            Some(id) => id@,
            None => default_profile_id@,
        }),
        r.source == source,
        r.queue == queue,
        r.radio_auto == source.spec_is_radio(),
        r.guard.expected_sequence is None,
        r.qobuz_request is None,
{
    let radio_auto = source.is_radio();
    PlaybackRequest {
        profile_id: match profile_id {
            Some(id) => id,
            None => default_profile_id.to_string(),
        },
        source,
        queue,
        radio_auto,
        guard: PlaybackGuard::none(),
        qobuz_request: None,
    }
}

/// The position to seek to on the destination, if it is one.
pub fn seek_destination(position_secs: Real64) -> (r: Option<Real64>)
    ensures
        r == (if position_secs.spec_finite() && position_secs.spec_positive() {
            Some(position_secs)
        } else {
            None
        }),
{
    if position_secs.is_finite() && position_secs.is_positive() {
        Some(position_secs)
    } else {
        None
    }
}

/// A step of a transfer, after the destination has started to play.
#[derive(Clone, Copy, Debug, PartialEq, Eq, Structural)]
pub enum TransferStep {
    /// Seek the destination.
    Seek { seconds: Real64 },
    /// Give the destination the queue that clients see.
    KeepQueueState,
    /// Move the listening session from the source to the destination.
    MoveListening { position_secs: Real64, duration_secs: Real64, playing: bool },
    /// Make the queue of the source an empty one.
    ClearSourceQueue,
    /// Pause the source.
    PauseSource,
}

/// The steps that follow once the destination plays: it is sought to the
/// position of the source, takes over queue and session, the source loses its
/// queue, and pauses last where that was asked for.
pub open spec fn spec_steps(req: TransferRequest, status: TransferStatus) -> Seq<TransferStep> {
    (if status.position_secs.spec_finite() && status.position_secs.spec_positive() {
        seq![TransferStep::Seek { seconds: status.position_secs }]
    } else {
        Seq::empty()
    }) + seq![
        TransferStep::KeepQueueState,
        TransferStep::MoveListening {
            position_secs: status.position_secs,
            duration_secs: status.duration_secs,
            playing: status.state@ == "Playing"@,
        },
        TransferStep::ClearSourceQueue,
    ] + (if req.source_action == TransferSourceAction::Pause {
        seq![TransferStep::PauseSource]
    } else {
        Seq::empty()
    })
}

/// The steps that follow once the destination plays, in their order.
pub fn after_transfer_play(req: &TransferRequest, status: &TransferStatus) -> (r: Vec<TransferStep>)
    ensures
        r@ == spec_steps(*req, *status),
{
    let mut steps: Vec<TransferStep> = Vec::new();
    match seek_destination(status.position_secs) {
        Some(seconds) => steps.push(TransferStep::Seek { seconds }),
        None => {},
    }
    steps.push(TransferStep::KeepQueueState);
    steps.push(
        TransferStep::MoveListening {
            position_secs: status.position_secs,
            duration_secs: status.duration_secs,
            playing: *status.state.as_str() == *"Playing",
        },
    );
    steps.push(TransferStep::ClearSourceQueue);
    if req.source_action == TransferSourceAction::Pause {
        steps.push(TransferStep::PauseSource);
    }
    proof {
        assert(steps@ =~= spec_steps(*req, *status));
    }
    steps
}

/// Every transfer moves the session and clears the queue of its source, once.
/// The source is paused exactly where that was asked for, and only when its
/// session and queue are gone; the destination is sought exactly where the
/// source has a position.
pub proof fn law_transfer_leaves_source(req: TransferRequest, status: TransferStatus)
    ensures
        ({
            let steps = spec_steps(req, status);
            let moved = TransferStep::MoveListening {
                position_secs: status.position_secs,
                duration_secs: status.duration_secs,
                playing: status.state@ == "Playing"@,
            };
            &&& steps.no_duplicates()
            &&& steps.contains(moved)
            &&& forall|i: int|
                0 <= i < steps.len() && (#[trigger] steps[i]) is MoveListening ==> steps[i] == moved
            &&& steps.contains(TransferStep::ClearSourceQueue)
            &&& steps.contains(TransferStep::PauseSource) <==> req.source_action
                == TransferSourceAction::Pause
            &&& forall|i: int|
                0 <= i < steps.len() && #[trigger] steps[i] == TransferStep::PauseSource ==> i
                    == steps.len() - 1
            &&& forall|i: int|
                0 <= i < steps.len() && (#[trigger] steps[i]) is Seek ==> i == 0 && steps[i]
                    == (TransferStep::Seek { seconds: status.position_secs })
            &&& steps[0] is Seek <==> status.position_secs.spec_finite()
                && status.position_secs.spec_positive()
        }),
{
    let steps = spec_steps(req, status);
    let sought: int = if steps[0] is Seek {
        1
    } else {
        0
    };
    assert(steps[sought + 1] is MoveListening);
    assert(steps[sought + 2] == TransferStep::ClearSourceQueue);
    if req.source_action == TransferSourceAction::Pause {
        assert(steps[sought + 3] == TransferStep::PauseSource);
    }
}

/// How the steps of a transfer went that can fail. A step that was not taken
/// did not fail.
#[derive(Debug)]
pub struct TransferOutcomes {
    pub seek: Result<(), PlaybackError>,
    pub clear_source_queue: Result<(), PlaybackError>,
    pub pause_source: Result<(), PlaybackError>,
}

/// The outcomes with that of one more step. Taking over the queue and the
/// session does not fail a transfer.
pub open spec fn spec_record(
    outcomes: TransferOutcomes,
    step: TransferStep,
    outcome: Result<(), PlaybackError>,
) -> TransferOutcomes {
    match step {
        TransferStep::Seek { .. } => TransferOutcomes { seek: outcome, ..outcomes },
        TransferStep::ClearSourceQueue => TransferOutcomes {
            clear_source_queue: outcome,
            ..outcomes
        },
        TransferStep::PauseSource => TransferOutcomes { pause_source: outcome, ..outcomes },
        TransferStep::KeepQueueState | TransferStep::MoveListening { .. } => outcomes,
    }
}

/// The outcomes of steps that went like this.
pub open spec fn recorded(
    steps: Seq<TransferStep>,
    went: Seq<Result<(), PlaybackError>>,
) -> TransferOutcomes
    decreases steps.len(),
{
    if steps.len() == 0 || steps.len() != went.len() {
        TransferOutcomes { seek: Ok(()), clear_source_queue: Ok(()), pause_source: Ok(()) }
    } else {
        spec_record(recorded(steps.drop_last(), went.drop_last()), steps.last(), went.last())
    }
}

/// What is recorded of a transfer is how its own steps went: the source's
/// queue was cleared unless that step failed, the source was paused where it
/// was asked for unless that step failed, and nothing else fails a transfer.
pub proof fn law_outcomes_are_those_of_the_steps(
    req: TransferRequest,
    status: TransferStatus,
    went: Seq<Result<(), PlaybackError>>,
)
    requires
        went.len() == spec_steps(req, status).len(),
    ensures
        ({
            let steps = spec_steps(req, status);
            let outcomes = recorded(steps, went);
            &&& forall|i: int|
                0 <= i < steps.len() && #[trigger] steps[i] == TransferStep::ClearSourceQueue
                    ==> outcomes.clear_source_queue == went[i]
            &&& forall|i: int|
                0 <= i < steps.len() && #[trigger] steps[i] == TransferStep::PauseSource
                    ==> outcomes.pause_source == went[i]
            &&& req.source_action == TransferSourceAction::KeepPlaying
                ==> outcomes.pause_source is Ok
            &&& steps[0] is Seek ==> outcomes.seek == went[0]
            &&& !(steps[0] is Seek) ==> outcomes.seek is Ok
        }),
{
    let steps = spec_steps(req, status);
    reveal_with_fuel(recorded, 6);
    law_transfer_leaves_source(req, status);
}

impl TransferOutcomes {
    /// Nothing has failed yet.
    pub fn new() -> (r: TransferOutcomes)
        ensures
            r == recorded(Seq::empty(), Seq::empty()),
    {
        TransferOutcomes { seek: Ok(()), clear_source_queue: Ok(()), pause_source: Ok(()) }
    }

    /// Keeps how a step went. Taking over the queue and the session does not
    /// fail a transfer.
    pub fn record(&mut self, step: TransferStep, outcome: Result<(), PlaybackError>)
        ensures
            *final(self) == spec_record(*old(self), step, outcome),
    {
        match step {
            TransferStep::Seek { .. } => {
                self.seek = outcome;
            },
            TransferStep::ClearSourceQueue => {
                self.clear_source_queue = outcome;
            },
            TransferStep::PauseSource => {
                self.pause_source = outcome;
            },
            TransferStep::KeepQueueState | TransferStep::MoveListening { .. } => {},
        }
    }
}

/// The message of a step that failed.
pub open spec fn failed_message(outcome: Result<(), PlaybackError>) -> Option<Seq<char>> {
    match outcome {
        Ok(()) => None,
        Err(error) => Some(error.spec_message()),
    }
}

fn message_of(outcome: &Result<(), PlaybackError>) -> (r: Option<String>)
    ensures
        text::opt_text(r) == failed_message(*outcome),
{
    match outcome {
        Ok(()) => None,
        Err(error) => Some(error.message()),
    }
}

/// What a transfer reports when its steps are done: the track and the queue
/// that moved, and what did not work on the way. A source that was to pause
/// and did not is an error.
pub fn transfer_zone(
    source_zone_id: &str,
    destination_zone_id: String,
    req: &TransferRequest,
    source: &SourceRef,
    queue: &Vec<SourceRef>,
    outcomes: TransferOutcomes,
    destination_state: Option<String>,
) -> (r: Result<TransferResponse, PlaybackError>)
    ensures
        r is Ok <==> outcomes.pause_source is Ok,
        r is Err ==> r->Err_0 == outcomes.pause_source->Err_0,
        r is Ok ==> {
            &&& r->Ok_0.source_zone_id@ == source_zone_id@
            &&& r->Ok_0.destination_zone_id == destination_zone_id
            &&& r->Ok_0.source_action == req.source_action
            &&& r->Ok_0.source_key@ == source.spec_key()
            &&& r->Ok_0.queued_count == queue@.len()
            &&& r->Ok_0.destination_state@ == (match destination_state {
                Some(state) => state@,
                None => "Unknown"@,
            })
            &&& text::opt_text(r->Ok_0.seek_error) == failed_message(outcomes.seek)
            &&& text::opt_text(r->Ok_0.source_queue_clear_error) == failed_message(
                outcomes.clear_source_queue,
            )
        },
{
    match outcomes.pause_source {
        Ok(()) => {},
        Err(error) => return Err(error),
    }
    Ok(
        TransferResponse {
            source_zone_id: source_zone_id.to_string(),
            destination_zone_id,
            source_action: req.source_action,
            source_key: source.key(),
            queued_count: queue.len(),
            destination_state: match destination_state {
                Some(state) => state,
                None => "Unknown".to_string(),
            },
            seek_error: message_of(&outcomes.seek),
            source_queue_clear_error: message_of(&outcomes.clear_source_queue),
        },
    )
}

/// Playback moves to another zone that exists, named with or without white
/// space around it.
pub proof fn law_playback_moves_to_another_zone(
    source_zone_id: &str,
    req: TransferRequest,
    source_available: bool,
    destination_available: bool,
    r: Result<String, PlaybackError>,
)
    requires
        call_ensures(
            transfer_destination,
            (source_zone_id, &req, source_available, destination_available),
            r,
        ),
    ensures
        r is Ok ==> r->Ok_0@.len() > 0 && r->Ok_0@ != source_zone_id@ && source_available
            && destination_available,
        req.destination_zone_id@.len() > 0 && text::is_trimmed(req.destination_zone_id@)
            && req.destination_zone_id@ != source_zone_id@ && source_available
            && destination_available ==> r is Ok && r->Ok_0@ == req.destination_zone_id@,
{
    text::law_trimmed(req.destination_zone_id@);
}

/// What moves is what the zone says that it plays, else what is active there;
/// nothing moves from a zone that neither plays nor pauses, or once its track
/// has changed.
pub proof fn law_current_source_moves(
    status: TransferStatus,
    active: Option<SourceRef>,
    req: TransferRequest,
    current_matches: bool,
    trimmed_matches: bool,
    r: Result<SourceRef, PlaybackError>,
)
    requires
        call_ensures(
            transfer_source,
            (&status, active, &req, current_matches, trimmed_matches),
            r,
        ),
    ensures
        r is Ok ==> current_matches && (status.state@ == "Playing"@ || status.state@ == "Paused"@),
        r is Ok && status.current_source is Some ==> r->Ok_0 == status.current_source->0,
        r is Ok && status.current_source is None ==> active == Some(r->Ok_0),
        (status.state@ == "Playing"@ || status.state@ == "Paused"@) && current_matches
            && status.current_source is Some && req.expected_current is None ==> r is Ok,
        r is Ok && req.expected_current is Some && text::is_trimmed(req.expected_current->0@)
            && req.expected_current->0@.len() > 0 ==> r->Ok_0.spec_key()
            == req.expected_current->0@ || trimmed_matches,
{
    if req.expected_current is Some {
        text::law_trimmed(req.expected_current->0@);
    }
}

/// The queue that moves is the session's own where it has one, else the stored
/// one, in its order and from the first source on that is not the moving one.
pub proof fn law_queue_moves_in_order(
    session_queue: Vec<SourceRef>,
    stored_queue: Vec<SourceRef>,
    source: SourceRef,
    r: Vec<SourceRef>,
)
    requires
        call_ensures(transfer_queue_sources, (session_queue, stored_queue, &source), r),
    ensures
        session_queue@.len() > 0 && session_queue@[0].spec_key() != source.spec_key() ==> r@
            == session_queue@,
        session_queue@.len() == 0 && stored_queue@.len() > 0 && stored_queue@[0].spec_key()
            != source.spec_key() ==> r@ == stored_queue@,
        session_queue@.len() > 1 && session_queue@[0].spec_key() == source.spec_key()
            && session_queue@[1].spec_key() != source.spec_key() ==> r@ == session_queue@.skip(1),
{
    reveal_with_fuel(without_head, 3);
}

/// The moved playback is that of the source and its queue, for the listener
/// whose session it was.
pub proof fn law_moved_playback_is_the_same(
    profile_id: Option<String>,
    default_profile_id: &str,
    source: SourceRef,
    queue: Vec<SourceRef>,
    r: PlaybackRequest,
)
    requires
        call_ensures(transfer_play_request, (profile_id, default_profile_id, source, queue), r),
    ensures
        r.source == source,
        r.queue@ == queue@,
        profile_id is Some ==> r.profile_id@ == profile_id->0@,
        profile_id is None ==> r.profile_id@ == default_profile_id@,
        r.radio_auto == source.spec_is_radio(),
{
}

/// The destination is moved to the position of the source where there is one:
/// a finite number of seconds greater than zero.
pub proof fn law_destination_seeks_to_position(position_secs: Real64, r: Option<Real64>)
    requires
        call_ensures(seek_destination, (position_secs,), r),
    ensures
        r is Some ==> r->0 == position_secs,
        r is Some <==> 0 < position_secs.bits < 0x7ff0_0000_0000_0000,
{
    assert(position_secs.bits < 0x7ff0_0000_0000_0000 ==> position_secs.bits / 0x10_0000_0000_0000
        < 2047);
}

/// The answer names both zones, the source and how many sources moved with it,
/// and what failed on the way; only a source that could not be paused fails
/// the whole.
pub proof fn law_transfer_reports_what_moved(
    source_zone_id: &str,
    destination_zone_id: String,
    req: TransferRequest,
    source: SourceRef,
    queue: Vec<SourceRef>,
    outcomes: TransferOutcomes,
    destination_state: Option<String>,
    r: Result<TransferResponse, PlaybackError>,
)
    requires
        call_ensures(
            transfer_zone,
            (
                source_zone_id,
                destination_zone_id,
                &req,
                &source,
                &queue,
                outcomes,
                destination_state,
            ),
            r,
        ),
    ensures
        r is Ok <==> outcomes.pause_source is Ok,
        r is Ok ==> {
            &&& r->Ok_0.source_zone_id@ == source_zone_id@
            &&& r->Ok_0.destination_zone_id@ == destination_zone_id@
            &&& r->Ok_0.source_action == req.source_action
            &&& r->Ok_0.source_key@ == source.spec_key()
            &&& r->Ok_0.queued_count == queue@.len()
            &&& destination_state is Some ==> r->Ok_0.destination_state@ == destination_state->0@
            &&& r->Ok_0.seek_error is Some <==> outcomes.seek is Err
            &&& r->Ok_0.source_queue_clear_error is Some <==> outcomes.clear_source_queue is Err
            &&& outcomes.seek is Err ==> r->Ok_0.seek_error->0@
                == outcomes.seek->Err_0.spec_message()
        },
{
}

/// Each step's outcome is kept under its own name and touches no other.
pub proof fn law_outcomes_are_kept_apart(
    outcomes: TransferOutcomes,
    seconds: Real64,
    outcome: Result<(), PlaybackError>,
)
    ensures
        ({
            let seek = spec_record(outcomes, TransferStep::Seek { seconds }, outcome);
            let clear = spec_record(outcomes, TransferStep::ClearSourceQueue, outcome);
            let pause = spec_record(outcomes, TransferStep::PauseSource, outcome);
            &&& seek.seek == outcome
            &&& seek.clear_source_queue == outcomes.clear_source_queue
            &&& seek.pause_source == outcomes.pause_source
            &&& clear.clear_source_queue == outcome
            &&& clear.seek == outcomes.seek
            &&& clear.pause_source == outcomes.pause_source
            &&& pause.pause_source == outcome
            &&& pause.seek == outcomes.seek
            &&& pause.clear_source_queue == outcomes.clear_source_queue
        }),
{
}

} // verus!
