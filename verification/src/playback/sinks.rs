//! Sinks: which output a zone's commands go to, and what each output does
//! with them.

use crate::audio::{Real32, Real64, TrackTags};
use crate::playback::error::{ErrorKind, PlaybackError};
use crate::playback::queue_state;
use crate::playback::queue_state::{QueueState, StoredNumber};
use crate::playback::request::{PlaybackGuard, PlaybackRequest, SourceFields};
use crate::playback::sequencer::PlaybackCommandSequencer;
use crate::playback::source;
use crate::playback::source::{qobuz_play_request_from_source_ref, QobuzPlayRequest};
use crate::protocol::agent::CoreToAgentCommand;
use crate::protocol::playback::PlaybackConfig;
use crate::protocol::sink::SinkProtocol;
use crate::protocol::source::SourceRef;
use crate::text;
use vstd::prelude::*;

verus! {

/// The kinds of output.
#[derive(Clone, Copy, Debug, PartialEq, Eq, Structural)]
pub enum ZoneSink {
    Local,
    RemoteAgent,
    Sonos,
    Upnp,
}

impl ZoneSink {
    /// The name of the output.
    pub fn as_str(&self) -> (r: &'static str)
        ensures
            r@ == (match *self {
                ZoneSink::Local => "local"@,
                ZoneSink::RemoteAgent => "remote_agent"@,
                ZoneSink::Sonos => "sonos"@,
                ZoneSink::Upnp => "upnp"@,
            }),
    {
        match self {
            ZoneSink::Local => "local",
            ZoneSink::RemoteAgent => "remote_agent",
            ZoneSink::Sonos => "sonos",
            ZoneSink::Upnp => "upnp",
        }
    }
}

/// The outputs that a build supports.
#[derive(Clone, Copy, Debug, PartialEq, Eq, Structural)]
pub struct SinkSupport {
    pub sonos: bool,
    pub upnp: bool,
}

/// The output for a zone of the given protocol.
pub fn sink_for_zone(protocol: Option<SinkProtocol>, support: SinkSupport) -> (r: Result<
    ZoneSink,
    PlaybackError,
>)
    ensures
        match protocol {
            None => r is Err && r->Err_0 is ZoneNotAvailable,
            Some(SinkProtocol::RemoteAgent) => r == Ok::<ZoneSink, PlaybackError>(
                ZoneSink::RemoteAgent,
            ),
            Some(SinkProtocol::SonosUpnp) => if support.sonos {
                r == Ok::<ZoneSink, PlaybackError>(ZoneSink::Sonos)
            } else {
                r is Err && r->Err_0.is(
                    ErrorKind::BadRequest,
                    "Sonos support was not compiled into this build"@,
                )
            },
            Some(SinkProtocol::UpnpAvRenderer) => if support.upnp {
                r == Ok::<ZoneSink, PlaybackError>(ZoneSink::Upnp)
            } else {
                r is Err && r->Err_0.is(
                    ErrorKind::BadRequest,
                    "UPnP support was not compiled into this build"@,
                )
            },
            Some(_) => r == Ok::<ZoneSink, PlaybackError>(ZoneSink::Local),
        },
{
    match protocol {
        Some(SinkProtocol::RemoteAgent) => Ok(ZoneSink::RemoteAgent),
        Some(SinkProtocol::SonosUpnp) => {
            if support.sonos {
                Ok(ZoneSink::Sonos)
            } else {
                Err(PlaybackError::bad_request("Sonos support was not compiled into this build"))
            }
        },
        Some(SinkProtocol::UpnpAvRenderer) => {
            if support.upnp {
                Ok(ZoneSink::Upnp)
            } else {
                Err(PlaybackError::bad_request("UPnP support was not compiled into this build"))
            }
        },
        Some(_) => Ok(ZoneSink::Local),
        None => Err(PlaybackError::ZoneNotAvailable),
    }
}

/// How a queue repeats.
#[derive(Clone, Copy, Debug, PartialEq, Eq, Structural)]
pub enum LoopMode {
    Off,
    Loop,
    One,
}

impl LoopMode {
    pub open spec fn spec_name(self) -> Seq<char> {
        match self {
            LoopMode::Off => "off"@,
            LoopMode::Loop => "loop"@,
            LoopMode::One => "one"@,
        }
    }

    /// The name under which the mode is stored.
    pub fn as_str(&self) -> (r: &'static str)
        ensures
            r@ == self.spec_name(),
    {
        match self {
            LoopMode::Off => "off",
            LoopMode::Loop => "loop",
            LoopMode::One => "one",
        }
    }

    /// Whether a player repeats its track.
    pub fn repeat_one(&self) -> (r: bool)
        ensures
            r == (*self == LoopMode::One),
    {
        match self {
            LoopMode::One => true,
            _ => false,
        }
    }
}

/// What a zone is asked to do.
pub enum PlaybackIntent {
    Play { request: PlaybackRequest },
    Pause,
    Resume,
    Next,
    SetVolume { volume: Real32 },
    SetDeviceVolume { volume: Real32 },
    Seek { seconds: Real64 },
    Stop,
    SetLoopMode { mode: LoopMode },
}

/// The name of an intent in log lines.
pub fn intent_command(intent: &PlaybackIntent) -> (r: &'static str)
    ensures
        r@ == (match *intent {
            PlaybackIntent::Play { .. } => "play"@,
            PlaybackIntent::Pause => "pause"@,
            PlaybackIntent::Resume => "resume"@,
            PlaybackIntent::Stop => "stop"@,
            PlaybackIntent::Next => "next"@,
            PlaybackIntent::Seek { .. } => "seek"@,
            PlaybackIntent::SetLoopMode { .. } => "loop"@,
            PlaybackIntent::SetVolume { .. } => "volume"@,
            PlaybackIntent::SetDeviceVolume { .. } => "device_volume"@,
        }),
{
    match intent {
        PlaybackIntent::Play { .. } => "play",
        PlaybackIntent::Pause => "pause",
        PlaybackIntent::Resume => "resume",
        PlaybackIntent::Stop => "stop",
        PlaybackIntent::Next => "next",
        PlaybackIntent::Seek { .. } => "seek",
        PlaybackIntent::SetLoopMode { .. } => "loop",
        PlaybackIntent::SetVolume { .. } => "volume",
        PlaybackIntent::SetDeviceVolume { .. } => "device_volume",
    }
}

/// What a log line tells of an intent's source.
pub fn intent_source_fields(intent: &PlaybackIntent) -> (r: SourceFields)
    ensures
        match *intent {
            PlaybackIntent::Play { request } => {
                &&& r.kind@ == request.source.spec_kind()
                &&& r.local_track_id == request.source.spec_local_track_id()
                &&& r.qobuz_track_id == request.source.spec_qobuz_track_id()
                &&& r.queue_len == request.queue@.len()
            },
            _ => {
                &&& r.kind@ == "none"@
                &&& r.local_track_id is None
                &&& r.qobuz_track_id is None
                &&& r.queue_len == 0
            },
        },
{
    match intent {
        PlaybackIntent::Play { request } => request.source_fields(),
        _ => SourceFields {
            kind: "none",
            local_track_id: None,
            qobuz_track_id: None,
            queue_len: 0,
        },
    }
}

/// The loop mode of an intent that can be carried out at once; everything else
/// has to wait for the zone.
pub fn execute_immediate(intent: &PlaybackIntent) -> (r: Result<LoopMode, PlaybackError>)
    ensures
        match *intent {
            PlaybackIntent::SetLoopMode { mode } => r == Ok::<LoopMode, PlaybackError>(mode),
            PlaybackIntent::Seek { .. } => r is Err && r->Err_0.is(
                ErrorKind::BadRequest,
                "Seek requires asynchronous execution"@,
            ),
            _ => r is Err && r->Err_0.is(
                ErrorKind::BadRequest,
                "Playback intent requires asynchronous execution"@,
            ),
        },
{
    match intent {
        PlaybackIntent::SetLoopMode { mode } => Ok(*mode),
        PlaybackIntent::Seek { .. } => Err(
            PlaybackError::bad_request("Seek requires asynchronous execution"),
        ),
        _ => Err(PlaybackError::bad_request("Playback intent requires asynchronous execution")),
    }
}

/// How a source is played on an output.
#[derive(Clone, Copy, Debug, PartialEq, Eq, Structural)]
pub enum PlayRoute {
    RemoteAgent,
    Sonos,
    Upnp,
    LocalFile,
    LocalStream,
}

/// How a source is played on an output: only a local player tells files and
/// streams apart.
pub fn play_source(sink: ZoneSink, source: &SourceRef) -> (r: PlayRoute)
    ensures
        r == (match sink {
            ZoneSink::RemoteAgent => PlayRoute::RemoteAgent,
            ZoneSink::Sonos => PlayRoute::Sonos,
            ZoneSink::Upnp => PlayRoute::Upnp,
            ZoneSink::Local => if *source is LocalTrack {
                PlayRoute::LocalFile
            } else {
                PlayRoute::LocalStream
            },
        }),
{
    match sink {
        ZoneSink::RemoteAgent => PlayRoute::RemoteAgent,
        ZoneSink::Sonos => PlayRoute::Sonos,
        ZoneSink::Upnp => PlayRoute::Upnp,
        ZoneSink::Local => match source {
            SourceRef::LocalTrack { .. } => PlayRoute::LocalFile,
            SourceRef::QobuzTrack { .. } => PlayRoute::LocalStream,
        },
    }
}

/// What an output does to go to the next track.
pub enum SinkAdvance {
    /// Tell the agent, and note the change.
    AgentNext,
    /// Tell the speaker, and note the change.
    SonosNext,
    /// Ask the renderer to go on to this source, which it may have been handed.
    RendererHandoff { source: SourceRef },
    /// Tell the renderer, and note the change.
    RendererNext,
    /// Play the head of the queue.
    PlayHead { request: PlaybackRequest },
    /// Tell the player, and note the change.
    PlayerNext,
    /// Nothing: what plays goes on.
    Nothing,
}

/// `request` plays the head of a queue, followed by the rest of it.
pub open spec fn plays_head(
    request: PlaybackRequest,
    profile_id: Seq<char>,
    queue: Seq<SourceRef>,
    radio_auto: bool,
) -> bool {
    &&& queue.len() > 0
    &&& request.profile_id@ == profile_id
    &&& request.source == queue[0]
    &&& request.queue@ == queue.skip(1)
    &&& request.radio_auto == radio_auto
    &&& request.guard.expected_sequence is None
    &&& request.qobuz_request is None
}

fn head_request(profile_id: String, queue: Vec<SourceRef>, radio_auto: bool) -> (r: PlaybackRequest)
    requires
        queue@.len() > 0,
    ensures
        plays_head(r, profile_id@, queue@, radio_auto),
{
    let ghost all = queue@;
    let mut queue = queue;
    let source = queue.remove(0);
    proof {
        assert(queue@ =~= all.skip(1));
    }
    PlaybackRequest {
        profile_id,
        source,
        queue,
        radio_auto,
        guard: PlaybackGuard::none(),
        qobuz_request: None,
    }
}

/// What an output does to go to the next track. `queue` is the stored queue of
/// a renderer, or the session queue of a local player.
pub fn next_on_sink(
    sink: ZoneSink,
    profile_id: String,
    queue: Vec<SourceRef>,
    something_active: bool,
    player_available: bool,
) -> (r: Result<SinkAdvance, PlaybackError>)
    ensures
        match sink {
            ZoneSink::RemoteAgent => r is Ok && r->Ok_0 is AgentNext,
            ZoneSink::Sonos => r is Ok && r->Ok_0 is SonosNext,
            ZoneSink::Upnp => r is Ok && (if queue@.len() > 0 {
                r->Ok_0 == (SinkAdvance::RendererHandoff { source: queue@[0] })
            } else if something_active {
                r->Ok_0 is Nothing
            } else {
                r->Ok_0 is RendererNext
            }),
            ZoneSink::Local => if queue@.len() > 0 && queue@[0] is QobuzTrack {
                r is Ok && r->Ok_0 is PlayHead && plays_head(
                    r->Ok_0->PlayHead_request,
                    profile_id@,
                    queue@,
                    false,
                )
            } else if player_available {
                r is Ok && r->Ok_0 is PlayerNext
            } else {
                r is Err && r->Err_0 is ZoneNotAvailable
            },
        },
{
    match sink {
        ZoneSink::RemoteAgent => Ok(SinkAdvance::AgentNext),
        ZoneSink::Sonos => Ok(SinkAdvance::SonosNext),
        ZoneSink::Upnp => {
            if queue.len() > 0 {
                return Ok(SinkAdvance::RendererHandoff { source: queue[0].clone() });
            }
            if something_active {
                return Ok(SinkAdvance::Nothing);
            }
            Ok(SinkAdvance::RendererNext)
        },
        ZoneSink::Local => {
            let streamed = queue.len() > 0 && match &queue[0] {
                SourceRef::QobuzTrack { .. } => true,
                SourceRef::LocalTrack { .. } => false,
            };
            if streamed {
                return Ok(
                    SinkAdvance::PlayHead { request: head_request(profile_id, queue, false) },
                );
            }
            if !player_available {
                return Err(PlaybackError::ZoneNotAvailable);
            }
            Ok(SinkAdvance::PlayerNext)
        },
    }
}

/// What follows when the renderer did not go on by itself: the head of the
/// queue is played, and the rest of the queue is stored first.
pub fn after_renderer_handoff(
    went_on: bool,
    profile_id: String,
    queue: Vec<SourceRef>,
) -> (r: Option<PlaybackRequest>)
    requires
        queue@.len() > 0,
    ensures
        r is None <==> went_on,
        r is Some ==> plays_head(r->0, profile_id@, queue@, queue@[0].spec_is_radio()),
{
    if went_on {
        return None;
    }
    let radio_auto = queue[0].is_radio();
    Some(head_request(profile_id, queue, radio_auto))
}

/// Going on loses nothing: the played source and the new queue are the old
/// queue.
pub proof fn law_head_request_keeps_queue(
    request: PlaybackRequest,
    profile_id: Seq<char>,
    queue: Seq<SourceRef>,
    radio_auto: bool,
)
    requires
        plays_head(request, profile_id, queue, radio_auto),
    ensures
        seq![request.source] + request.queue@ == queue,
{
    assert(seq![request.source] + request.queue@ =~= queue);
}

/// A command on what plays.
#[derive(Clone, Copy, Debug, PartialEq, Eq, Structural)]
pub enum TransportCommand {
    Pause,
    Resume,
    Stop,
    Seek { seconds: Real64 },
}

/// Where a command on what plays goes.
pub enum TransportRoute {
    /// To the agent.
    Agent(CoreToAgentCommand),
    /// To the speaker.
    Sonos,
    /// To the renderer, with its amplifier muted meanwhile.
    Upnp,
    /// To the player; the amplifier may have to be prepared first.
    Player { prepare_amplifier: bool },
}

/// What an agent is told.
pub open spec fn spec_agent_command(command: TransportCommand) -> CoreToAgentCommand {
    match command {
        TransportCommand::Pause => CoreToAgentCommand::Pause,
        TransportCommand::Resume => CoreToAgentCommand::Resume,
        TransportCommand::Stop => CoreToAgentCommand::Stop,
        TransportCommand::Seek { seconds } => CoreToAgentCommand::Seek { seconds },
    }
}

/// Where a command on what plays goes. Only a stop ends the listening session,
/// and only playback that goes on again needs the amplifier.
pub fn transport_command(
    sink: ZoneSink,
    command: TransportCommand,
    player_available: bool,
) -> (r: Result<(TransportRoute, bool), PlaybackError>)
    ensures
        r is Err <==> sink == ZoneSink::Local && !player_available,
        r is Err ==> r->Err_0 is ZoneNotAvailable,
        r is Ok ==> r->Ok_0.0 == (match sink {
            ZoneSink::RemoteAgent => TransportRoute::Agent(spec_agent_command(command)),
            ZoneSink::Sonos => TransportRoute::Sonos,
            ZoneSink::Upnp => TransportRoute::Upnp,
            ZoneSink::Local => TransportRoute::Player {
                prepare_amplifier: command == TransportCommand::Resume,
            },
        }),
        r is Ok ==> r->Ok_0.1 == (command == TransportCommand::Stop),
{
    let ends_session = match command {
        TransportCommand::Stop => true,
        _ => false,
    };
    let route = match sink {
        ZoneSink::RemoteAgent => TransportRoute::Agent(
            match command {
                TransportCommand::Pause => CoreToAgentCommand::Pause,
                TransportCommand::Resume => CoreToAgentCommand::Resume,
                TransportCommand::Stop => CoreToAgentCommand::Stop,
                TransportCommand::Seek { seconds } => CoreToAgentCommand::Seek { seconds },
            },
        ),
        ZoneSink::Sonos => TransportRoute::Sonos,
        ZoneSink::Upnp => TransportRoute::Upnp,
        ZoneSink::Local => {
            if !player_available {
                return Err(PlaybackError::ZoneNotAvailable);
            }
            let prepare_amplifier = match command {
                TransportCommand::Resume => true,
                _ => false,
            };
            TransportRoute::Player { prepare_amplifier }
        },
    };
    Ok((route, ends_session))
}

/// What an agent is told to play a request, while the request is current.
pub fn play_remote_agent(
    request: &PlaybackRequest,
    sequencer: &PlaybackCommandSequencer,
    playback_config: PlaybackConfig,
    stream_base_url: &str,
) -> (r: Result<CoreToAgentCommand, PlaybackError>)
    requires
        sequencer.wf(),
    ensures
        r is Ok <==> request.guard.spec_current(*sequencer),
        r is Err ==> r->Err_0.is(ErrorKind::Conflict, "Playback changed"@),
        r is Ok ==> {
            &&& r->Ok_0 is PlaySource
            &&& r->Ok_0->PlaySource_source_ref == request.source
            &&& r->Ok_0->PlaySource_queue@ == request.queue@
            &&& r->Ok_0->PlaySource_playback_config == playback_config
            &&& r->Ok_0->PlaySource_stream_base_url@ == stream_base_url@
        },
{
    if !request.guard.is_current(sequencer) {
        return Err(PlaybackError::conflict("Playback changed"));
    }
    let queue = request.queue.clone();
    proof {
        assert(queue@ =~= request.queue@);
    }
    Ok(
        CoreToAgentCommand::PlaySource {
            source_ref: request.source.clone(),
            queue,
            playback_config,
            stream_base_url: stream_base_url.to_string(),
        },
    )
}

/// Where the start of a track stands.
#[derive(Clone, Copy, Debug, PartialEq, Eq, Structural)]
pub enum StartStage {
    /// Everything is prepared; the player's epoch is not reserved yet.
    Prepared,
    /// The player was asked to start, under the reserved epoch.
    Asked,
}

/// Whether a local player may go on starting a track. Before the epoch is
/// reserved, the expected track must still be the current one and the command
/// must be current; afterwards, the player must have taken it.
pub fn may_start(
    stage: StartStage,
    current_matches: bool,
    guard: &PlaybackGuard,
    sequencer: &PlaybackCommandSequencer,
    started: bool,
) -> (r: Result<(), PlaybackError>)
    requires
        sequencer.wf(),
    ensures
        match stage {
            StartStage::Prepared => {
                &&& r is Ok <==> current_matches && guard.spec_current(*sequencer)
                &&& !current_matches ==> r is Err && r->Err_0.is(
                    ErrorKind::Conflict,
                    "Current track changed"@,
                )
                &&& current_matches && !guard.spec_current(*sequencer) ==> r is Err && r->Err_0.is(
                    ErrorKind::Conflict,
                    "Playback changed"@,
                )
            },
            StartStage::Asked => {
                &&& r is Ok <==> started
                &&& r is Err ==> r->Err_0.is(ErrorKind::Conflict, "Playback changed"@)
            },
        },
{
    match stage {
        StartStage::Prepared => {
            if !current_matches {
                return Err(PlaybackError::conflict("Current track changed"));
            }
            if !guard.is_current(sequencer) {
                return Err(PlaybackError::conflict("Playback changed"));
            }
            Ok(())
        },
        StartStage::Asked => {
            if started {
                Ok(())
            } else {
                Err(PlaybackError::conflict("Playback changed"))
            }
        },
    }
}

/// Whether a started local track is noted as radio.
pub fn local_track_is_radio(request: &PlaybackRequest) -> (r: bool)
    ensures
        r == (request.radio_auto || request.source.spec_is_radio()),
{
    request.radio_auto || request.source.is_radio()
}

/// The service request of a stream: the one that came with the command, or
/// one made for its source and queue.
pub fn stream_request(request: &mut PlaybackRequest) -> (r: Result<QobuzPlayRequest, PlaybackError>)
    ensures
        final(request).qobuz_request is None,
        *final(request) == (PlaybackRequest { qobuz_request: None, ..*old(request) }),
        old(request).qobuz_request is Some ==> r == Ok::<QobuzPlayRequest, PlaybackError>(
            old(request).qobuz_request->0,
        ),
        old(request).qobuz_request is None && old(request).source is QobuzTrack ==> r is Ok
            && source::is_request_for(
            r->Ok_0,
            old(request).source,
            old(request).queue@,
            old(request).radio_auto,
        ),
        old(request).qobuz_request is None && old(request).source is LocalTrack ==> r is Err
            && r->Err_0.is(ErrorKind::BadRequest, "Qobuz source was not playable"@),
{
    match request.qobuz_request.take() {
        Some(given) => Ok(given),
        None => match qobuz_play_request_from_source_ref(
            &request.source,
            request.queue.as_slice(),
            request.radio_auto,
        ) {
            Some(made) => Ok(made),
            None => Err(PlaybackError::bad_request("Qobuz source was not playable")),
        },
    }
}

/// The tags that stand in for those a stream does not carry.
pub open spec fn spec_fallback_tags(req: QobuzPlayRequest) -> TrackTags {
    TrackTags {
        title: req.title,
        artist: req.artist,
        album: req.album,
        album_artist: req.artist,
        duration_secs: req.duration_secs,
        sample_rate: None,
        bits_per_sample: None,
        channels: None,
    }
}

/// The tags that stand in for those a stream does not carry.
pub fn fallback_tags(req: &QobuzPlayRequest) -> (r: TrackTags)
    ensures
        r == spec_fallback_tags(*req),
{
    TrackTags {
        title: req.title.clone(),
        artist: req.artist.clone(),
        album: req.album.clone(),
        album_artist: req.artist.clone(),
        duration_secs: req.duration_secs,
        sample_rate: None,
        bits_per_sample: None,
        channels: None,
    }
}

/// What an output does to repeat.
#[derive(Clone, Copy, Debug, PartialEq, Eq, Structural)]
pub enum LoopRoute {
    /// Tell the agent.
    Agent { repeat_one: bool },
    /// Tell the player, if there is one.
    Player { repeat_one: bool },
    Nothing,
}

/// What an output does to repeat. A speaker's shadow player may be missing, a
/// local one may not.
pub fn set_loop_mode(sink: ZoneSink, mode: LoopMode, player_available: bool) -> (r: Result<
    LoopRoute,
    PlaybackError,
>)
    ensures
        ({
            let repeat_one = mode == LoopMode::One;
            match sink {
                ZoneSink::RemoteAgent => r == Ok::<LoopRoute, PlaybackError>(
                    LoopRoute::Agent { repeat_one },
                ),
                ZoneSink::Upnp => r == Ok::<LoopRoute, PlaybackError>(LoopRoute::Nothing),
                ZoneSink::Sonos => r == Ok::<LoopRoute, PlaybackError>(
                    if player_available {
                        LoopRoute::Player { repeat_one }
                    } else {
                        LoopRoute::Nothing
                    },
                ),
                ZoneSink::Local => if player_available {
                    r == Ok::<LoopRoute, PlaybackError>(LoopRoute::Player { repeat_one })
                } else {
                    r is Err && r->Err_0 is ZoneNotAvailable
                },
            }
        }),
{
    let repeat_one = mode.repeat_one();
    match sink {
        ZoneSink::RemoteAgent => Ok(LoopRoute::Agent { repeat_one }),
        ZoneSink::Upnp => Ok(LoopRoute::Nothing),
        ZoneSink::Sonos => if player_available {
            Ok(LoopRoute::Player { repeat_one })
        } else {
            Ok(LoopRoute::Nothing)
        },
        ZoneSink::Local => if player_available {
            Ok(LoopRoute::Player { repeat_one })
        } else {
            Err(PlaybackError::ZoneNotAvailable)
        },
    }
}

/// Stores a loop mode in a zone's queue; a zone without one gets an empty
/// queue.
pub fn persist_zone_loop_mode(stored: Option<QueueState>, mode: LoopMode) -> (r: QueueState)
    ensures
        text::opt_text(r.loop_mode) == Some(mode.spec_name()),
        stored is Some ==> r == (QueueState { loop_mode: r.loop_mode, ..stored->0 }),
        stored is None ==> r.kind is None && r.cursor == Some(
            StoredNumber::Negative((-1) as i64),
        ) && r.items@.len() == 0 && r.rest@.len() == 0,
{
    let mut state = match stored {
        Some(state) => state,
        None => queue_state::default_now_playing_queue_state(),
    };
    state.loop_mode = Some(mode.as_str().to_string());
    state
}

/// A loop mode that was stored is read back: the queue repeats exactly in the
/// mode that says so.
pub proof fn law_stored_loop_mode_reads_back(state: QueueState, mode: LoopMode)
    requires
        text::opt_text(state.loop_mode) == Some(mode.spec_name()),
    ensures
        (text::opt_text(state.loop_mode) == Some("loop"@)) == (mode == LoopMode::Loop),
        queue_state::is_loop_mode(state.loop_mode),
{
    reveal_strlit("off");
    reveal_strlit("loop");
    reveal_strlit("one");
    assert("off"@.len() == 3);
    assert("loop"@.len() == 4);
    assert("one"@.len() == 3);
}

/// The name of a zone definition's kind.
pub open spec fn spec_definition_kind(protocol: SinkProtocol) -> Seq<char> {
    match protocol {
        SinkProtocol::RemoteAgent => "remote_agent"@,
        SinkProtocol::AirPlayCoreAudio => "airplay_coreaudio"@,
        SinkProtocol::AirPlayRaop => "airplay_raop"@,
        SinkProtocol::AirPlay2 => "airplay2"@,
        SinkProtocol::SonosUpnp => "sonos_upnp"@,
        SinkProtocol::UpnpAvRenderer => "upnp_av_renderer"@,
        SinkProtocol::AsioOutput => "asio"@,
        SinkProtocol::LocalCoreAudio => "local_coreaudio"@,
    }
}

/// The name of a zone definition's kind.
pub fn zone_definition_kind(protocol: &SinkProtocol) -> (r: &'static str)
    ensures
        r@ == spec_definition_kind(*protocol),
{
    match protocol {
        SinkProtocol::RemoteAgent => "remote_agent",
        SinkProtocol::AirPlayCoreAudio => "airplay_coreaudio",
        SinkProtocol::AirPlayRaop => "airplay_raop",
        SinkProtocol::AirPlay2 => "airplay2",
        SinkProtocol::SonosUpnp => "sonos_upnp",
        SinkProtocol::UpnpAvRenderer => "upnp_av_renderer",
        SinkProtocol::AsioOutput => "asio",
        SinkProtocol::LocalCoreAudio => "local_coreaudio",
    }
}

/// A limit of volumes: one that is not above zero is zero.
pub open spec fn spec_limit(max: Real32) -> Real32 {
    if 0x8000_0000 <= max.bits <= 0xff80_0000 {
        Real32::spec_zero()
    } else {
        max
    }
}

/// A volume within zero and `max`. Comparing the bit patterns of numbers that
/// are not negative compares the numbers; what is not a number stays as it is,
/// and limits nothing.
pub open spec fn spec_clamped(volume: Real32, max: Real32) -> Real32 {
    if 0x8000_0000 < volume.bits <= 0xff80_0000 {
        Real32::spec_zero()
    } else if spec_limit(max).bits < volume.bits <= 0x7f80_0000 {
        spec_limit(max)
    } else {
        volume
    }
}

/// A volume within zero and `max`.
pub fn clamp_volume(volume: Real32, max: Real32) -> (r: Real32)
    ensures
        r == spec_clamped(volume, max),
{
    let limit = if 0x8000_0000 <= max.bits && max.bits <= 0xff80_0000 {
        Real32::zero()
    } else {
        max
    };
    if 0x8000_0000 < volume.bits && volume.bits <= 0xff80_0000 {
        Real32::zero()
    } else if limit.bits < volume.bits && volume.bits <= 0x7f80_0000 {
        limit
    } else {
        volume
    }
}

/// The volumes that a set-volume command leads to.
#[derive(Clone, Copy, Debug, PartialEq, Eq, Structural)]
pub struct VolumeChange {
    /// What the player and the settings take: up to one and a half.
    pub player: Real32,
    /// What a network speaker takes: up to one.
    pub speaker: Real32,
}

/// The pattern is not a number: neither finite nor infinite.
pub open spec fn spec_nan32(x: Real32) -> bool {
    0x7f80_0000 < x.bits < 0x8000_0000 || 0xff80_0000 < x.bits
}

/// The volumes that a set-volume command leads to. A speaker takes the smaller
/// of the player's volume and one, which is one where the player's is not a
/// number.
pub fn set_volume(volume: Real32) -> (r: VolumeChange)
    ensures
        r.player == spec_clamped(volume, (Real32 { bits: 0x3fc0_0000 })),
        r.speaker == (if spec_nan32(r.player) {
            Real32 { bits: 0x3f80_0000 }
        } else {
            spec_clamped(r.player, (Real32 { bits: 0x3f80_0000 }))
        }),
{
    let player = clamp_volume(volume, Real32 { bits: 0x3fc0_0000 });
    let one = Real32 { bits: 0x3f80_0000 };
    if (0x7f80_0000 < player.bits && player.bits < 0x8000_0000) || 0xff80_0000 < player.bits {
        VolumeChange { player, speaker: one }
    } else {
        VolumeChange { player, speaker: clamp_volume(player, one) }
    }
}

/// How a device volume is set.
#[derive(Clone, Copy, Debug, PartialEq, Eq, Structural)]
pub enum DeviceVolumeRoute {
    Sonos,
    Upnp,
    /// The amplifier behind the player.
    Hegel,
    AirPlay,
    OutputDevice,
}

pub open spec fn spec_finite32(x: Real32) -> bool {
    x.bits / 0x80_0000 % 256 != 255
}

/// How a device volume is set, and to what.
pub fn set_device_volume(
    sink: Result<ZoneSink, PlaybackError>,
    volume: Real32,
    hegel_linked: bool,
    protocol: Option<SinkProtocol>,
    player_available: bool,
) -> (r: Result<(DeviceVolumeRoute, Real32), PlaybackError>)
    ensures
        ({
            let clamped = spec_clamped(volume, (Real32 { bits: 0x3f80_0000 }));
            let airplay = protocol == Some(SinkProtocol::AirPlayRaop) || protocol == Some(
                SinkProtocol::AirPlay2,
            );
            if !spec_finite32(volume) {
                r is Err && r->Err_0.is(ErrorKind::BadRequest, "Device volume must be finite"@)
            } else if sink is Err {
                r is Err && r->Err_0 == sink->Err_0
            } else {
                match sink->Ok_0 {
                    ZoneSink::RemoteAgent => r is Err && r->Err_0.is(
                        ErrorKind::BadRequest,
                        "Device volume for remote agents is not available from this control"@,
                    ),
                    ZoneSink::Sonos => r is Ok && r->Ok_0 == (DeviceVolumeRoute::Sonos, clamped),
                    ZoneSink::Upnp => r is Ok && r->Ok_0 == (DeviceVolumeRoute::Upnp, clamped),
                    ZoneSink::Local => if hegel_linked {
                        r is Ok && r->Ok_0 == (DeviceVolumeRoute::Hegel, clamped)
                    } else if !player_available {
                        r is Err && r->Err_0 is ZoneNotAvailable
                    } else if airplay {
                        r is Ok && r->Ok_0 == (DeviceVolumeRoute::AirPlay, clamped)
                    } else {
                        r is Ok && r->Ok_0 == (DeviceVolumeRoute::OutputDevice, clamped)
                    },
                }
            }
        }),
{
    if volume.bits / 0x80_0000 % 256 == 255 {
        return Err(PlaybackError::bad_request("Device volume must be finite"));
    }
    let volume = clamp_volume(volume, Real32 { bits: 0x3f80_0000 });
    let sink = match sink {
        Ok(sink) => sink,
        Err(error) => return Err(error),
    };
    match sink {
        ZoneSink::RemoteAgent => Err(
            PlaybackError::bad_request(
                "Device volume for remote agents is not available from this control",
            ),
        ),
        ZoneSink::Sonos => Ok((DeviceVolumeRoute::Sonos, volume)),
        ZoneSink::Upnp => Ok((DeviceVolumeRoute::Upnp, volume)),
        ZoneSink::Local => {
            if hegel_linked {
                return Ok((DeviceVolumeRoute::Hegel, volume));
            }
            if !player_available {
                return Err(PlaybackError::ZoneNotAvailable);
            }
            match protocol {
                Some(SinkProtocol::AirPlayRaop) => Ok((DeviceVolumeRoute::AirPlay, volume)),
                Some(SinkProtocol::AirPlay2) => Ok((DeviceVolumeRoute::AirPlay, volume)),
                _ => Ok((DeviceVolumeRoute::OutputDevice, volume)),
            }
        },
    }
}

/// The volume of an amplifier, in its own steps: never above its limit.
pub fn normalized_hegel_volume(requested_percent: u8, max_volume: u8) -> (r: u8)
    ensures
        r == (if requested_percent <= max_volume {
            requested_percent
        } else {
            max_volume
        }),
{
    if requested_percent <= max_volume {
        requested_percent
    } else {
        max_volume
    }
}

/// The amplifier that is muted while a renderer changes what it plays.
#[derive(Debug)]
pub struct HegelDopMuteGuard {
    pub host: String,
    pub port: u16,
    pub play_id: u64,
    pub restore_unmuted: bool,
}

/// The step of muting an amplifier.
pub enum MuteStep {
    /// No guard; a note, if there is anything to note.
    NoGuard { note: Option<&'static str> },
    /// Ask the amplifier whether it is muted.
    Query { host: String, port: u16 },
    /// Mute it.
    Mute,
    /// The guard stands.
    Guarded { note: &'static str, guard: HegelDopMuteGuard },
}

/// The first step of muting: only marked one-bit playback on an amplifier that
/// is set up needs it.
pub fn begin_hegel_dop_mute_guard(
    supported: bool,
    playback_uses_hegel_dop_wav: bool,
    settings: Option<(Option<String>, u16)>,
) -> (r: MuteStep)
    ensures
        !(supported && playback_uses_hegel_dop_wav) ==> r is NoGuard && r->NoGuard_note is None,
        supported && playback_uses_hegel_dop_wav && settings is None ==> r is NoGuard
            && text::opt_str(r->NoGuard_note) == Some("settings_missing"@),
        supported && playback_uses_hegel_dop_wav && settings is Some ==> r is Query && r->port == (
        settings->0).1 && r->host@ == queue_state::or_empty((settings->0).0),
{
    if !supported || !playback_uses_hegel_dop_wav {
        return MuteStep::NoGuard { note: None };
    }
    match settings {
        Some((host, port)) => MuteStep::Query {
            host: match host {
                Some(host) => host,
                None => String::new(),
            },
            port,
        },
        None => MuteStep::NoGuard { note: Some("settings_missing") },
    }
}

/// The step after the amplifier was asked; `None` stands for a failed query.
/// One that is muted already is left so.
pub fn after_mute_query(
    muted: Option<Option<bool>>,
    host: String,
    port: u16,
    play_id: u64,
) -> (r: MuteStep)
    ensures
        match muted {
            None => r is NoGuard && text::opt_str(r->NoGuard_note) == Some("query_failed"@),
            Some(None) => r is NoGuard && text::opt_str(r->NoGuard_note) == Some("mute_state_unknown"@),
            Some(Some(true)) => r is Guarded && r->Guarded_note@ == "already_muted"@ && r->guard
                == (HegelDopMuteGuard { host, port, play_id, restore_unmuted: false }),
            Some(Some(false)) => r is Mute,
        },
{
    match muted {
        None => MuteStep::NoGuard { note: Some("query_failed") },
        Some(None) => MuteStep::NoGuard { note: Some("mute_state_unknown") },
        Some(Some(is_muted)) => {
            if is_muted {
                MuteStep::Guarded {
                    note: "already_muted",
                    guard: HegelDopMuteGuard { host, port, play_id, restore_unmuted: false },
                }
            } else {
                MuteStep::Mute
            }
        },
    }
}

/// The step after the amplifier was muted. Only a guard that muted it will
/// unmute it.
pub fn after_mute(done: bool, host: String, port: u16, play_id: u64) -> (r: MuteStep)
    ensures
        done ==> r is Guarded && r->Guarded_note@ == "muted"@ && r->guard == (HegelDopMuteGuard {
            host,
            port,
            play_id,
            restore_unmuted: true,
        }),
        !done ==> r is NoGuard && text::opt_str(r->NoGuard_note) == Some("mute_failed"@),
{
    if done {
        MuteStep::Guarded {
            note: "muted",
            guard: HegelDopMuteGuard { host, port, play_id, restore_unmuted: true },
        }
    } else {
        MuteStep::NoGuard { note: Some("mute_failed") }
    }
}

/// How a guard ends.
pub struct UnmuteSteps {
    /// Wait for the renderer to fetch audio for this play first.
    pub wait_for_play: Option<u64>,
    pub unmute: bool,
}

/// How a guard ends: a play that is known has to show signs of life first, and
/// only an amplifier that the guard muted is unmuted.
pub fn finish_hegel_dop_mute_guard(guard: Option<&HegelDopMuteGuard>) -> (r: Option<UnmuteSteps>)
    ensures
        r is Some <==> guard is Some,
        r is Some ==> r->0.unmute == guard->0.restore_unmuted && r->0.wait_for_play == (if
        guard->0.play_id == 0 {
            None
        } else {
            Some(guard->0.play_id)
        }),
{
    match guard {
        Some(guard) => Some(
            UnmuteSteps {
                wait_for_play: if guard.play_id != 0 {
                    Some(guard.play_id)
                } else {
                    None
                },
                unmute: guard.restore_unmuted,
            },
        ),
        None => None,
    }
}

/// The note on what the renderer showed.
pub fn media_evidence_note(media_ready: bool) -> (r: &'static str)
    ensures
        r@ == (if media_ready {
            "media_ready"@
        } else {
            "media_evidence_timeout"@
        }),
{
    if media_ready {
        "media_ready"
    } else {
        "media_evidence_timeout"
    }
}

/// The note on unmuting.
pub fn unmute_note(restored: bool) -> (r: &'static str)
    ensures
        r@ == (if restored {
            "restored"@
        } else {
            "restore_failed"@
        }),
{
    if restored {
        "restored"
    } else {
        "restore_failed"
    }
}

/// Volumes from zero to the limit are kept, greater ones become the limit, and
/// negative ones become zero.
pub proof fn law_clamped_volume_lies_within_limit(volume: Real32, max: Real32)
    requires
        max.bits <= 0x7f80_0000,
    ensures
        volume.bits <= max.bits ==> spec_clamped(volume, max) == volume,
        max.bits <= volume.bits <= 0x7f80_0000 ==> spec_clamped(volume, max) == max,
        0x8000_0000 < volume.bits <= 0xff80_0000 ==> spec_clamped(volume, max).bits == 0,
{
}

/// Of two volumes that are not negative the greater one stays the greater one
/// or both become the limit.
pub proof fn law_clamping_keeps_order(quiet: Real32, loud: Real32, max: Real32)
    requires
        max.bits <= 0x7f80_0000,
        quiet.bits <= loud.bits <= 0x7f80_0000,
    ensures
        spec_clamped(quiet, max).bits <= spec_clamped(loud, max).bits <= max.bits,
{
}

/// The player takes volumes up to one and a half, a speaker up to one; both get
/// the same volume as long as the speaker can play it.
pub proof fn law_volume_reaches_player_and_speaker(volume: Real32, r: VolumeChange)
    requires
        call_ensures(set_volume, (volume,), r),
    ensures
        volume.bits <= 0x3fc0_0000 ==> r.player == volume,
        0x3fc0_0000 <= volume.bits <= 0x7f80_0000 ==> r.player.bits == 0x3fc0_0000,
        0x8000_0000 < volume.bits <= 0xff80_0000 ==> r.player.bits == 0 && r.speaker.bits == 0,
        volume.bits <= 0x3f80_0000 ==> r.speaker == volume,
        0x3f80_0000 <= volume.bits <= 0x7f80_0000 ==> r.speaker.bits == 0x3f80_0000,
{
}

/// A device gets the volume that was asked for, at most one; what is not a
/// finite number reaches no device.
pub proof fn law_device_gets_volume(
    sink: Result<ZoneSink, PlaybackError>,
    volume: Real32,
    hegel_linked: bool,
    protocol: Option<SinkProtocol>,
    player_available: bool,
    r: Result<(DeviceVolumeRoute, Real32), PlaybackError>,
)
    requires
        call_ensures(
            set_device_volume,
            (sink, volume, hegel_linked, protocol, player_available),
            r,
        ),
    ensures
        volume.bits == 0x7f80_0000 || volume.bits == 0xff80_0000 || volume.bits == 0x7fc0_0000
            ==> r is Err,
        r is Ok && volume.bits <= 0x3f80_0000 ==> r->Ok_0.1 == volume,
        r is Ok && 0x3f80_0000 <= volume.bits < 0x8000_0000 ==> r->Ok_0.1.bits == 0x3f80_0000,
        r is Ok && 0x8000_0000 < volume.bits ==> r->Ok_0.1.bits == 0,
        volume.bits <= 0x3f80_0000 && sink is Ok ==> match sink->Ok_0 {
            ZoneSink::Sonos => r is Ok && r->Ok_0.0 is Sonos,
            ZoneSink::Upnp => r is Ok && r->Ok_0.0 is Upnp,
            ZoneSink::RemoteAgent => r is Err,
            ZoneSink::Local => {
                &&& hegel_linked ==> r is Ok && r->Ok_0.0 is Hegel
                &&& !hegel_linked ==> (r is Ok <==> player_available)
                &&& !hegel_linked && player_available ==> (r->Ok_0.0 is AirPlay <==> (protocol
                    == Some(SinkProtocol::AirPlayRaop) || protocol == Some(SinkProtocol::AirPlay2)))
            },
        },
{
}

/// Every zone has the sink of its protocol; the protocols that a local player
/// speaks share one.
pub proof fn law_protocols_have_their_sinks(
    protocol: Option<SinkProtocol>,
    support: SinkSupport,
    r: Result<ZoneSink, PlaybackError>,
)
    requires
        call_ensures(sink_for_zone, (protocol, support), r),
    ensures
        r is Ok <==> protocol is Some && (protocol->0 is SonosUpnp ==> support.sonos) && (
        protocol->0 is UpnpAvRenderer ==> support.upnp),
        r is Ok ==> (r->Ok_0 is RemoteAgent <==> protocol->0 is RemoteAgent),
        r is Ok ==> (r->Ok_0 is Sonos <==> protocol->0 is SonosUpnp),
        r is Ok ==> (r->Ok_0 is Upnp <==> protocol->0 is UpnpAvRenderer),
{
}

/// Each sink is handed the command that was given, and only stopping ends the
/// listening session.
pub proof fn law_commands_reach_their_sinks(
    sink: ZoneSink,
    command: TransportCommand,
    player_available: bool,
    r: Result<(TransportRoute, bool), PlaybackError>,
)
    requires
        call_ensures(transport_command, (sink, command, player_available), r),
    ensures
        r is Ok <==> (sink is Local ==> player_available),
        r is Ok ==> (r->Ok_0.1 <==> command is Stop),
        r is Ok ==> (sink is Sonos <==> r->Ok_0.0 is Sonos),
        r is Ok ==> (sink is Upnp <==> r->Ok_0.0 is Upnp),
        r is Ok ==> (sink is Local <==> r->Ok_0.0 is Player),
        r is Ok && sink is Local ==> (r->Ok_0.0->prepare_amplifier <==> command is Resume),
        sink is RemoteAgent ==> r is Ok && match r->Ok_0.0 {
            TransportRoute::Agent(given) => {
                &&& given is Pause <==> command is Pause
                &&& given is Resume <==> command is Resume
                &&& given is Stop <==> command is Stop
                &&& command matches TransportCommand::Seek { seconds } ==> given == (
                CoreToAgentCommand::Seek { seconds })
            },
            _ => false,
        },
{
}

/// Only the mode that repeats one track makes a sink repeat.
pub proof fn law_only_repeat_one_repeats_on_sinks(
    sink: ZoneSink,
    mode: LoopMode,
    player_available: bool,
    r: Result<LoopRoute, PlaybackError>,
)
    requires
        call_ensures(set_loop_mode, (sink, mode, player_available), r),
    ensures
        r is Err <==> sink is Local && !player_available,
        r matches Ok(LoopRoute::Agent { repeat_one }) ==> (repeat_one <==> mode is One),
        r matches Ok(LoopRoute::Player { repeat_one }) ==> (repeat_one <==> mode is One),
        sink is RemoteAgent ==> r->Ok_0 is Agent,
        sink is Local && player_available ==> r->Ok_0 is Player,
        sink is Sonos ==> (r->Ok_0 is Player <==> player_available),
        sink is Upnp ==> r->Ok_0 is Nothing,
{
}

/// Skipping plays the head of the queue: on a renderer as a handoff, on the
/// local player as a stream of its own where the head is streamed.
pub proof fn law_skipping_plays_the_head(
    sink: ZoneSink,
    profile_id: String,
    queue: Vec<SourceRef>,
    something_active: bool,
    player_available: bool,
    r: Result<SinkAdvance, PlaybackError>,
)
    requires
        call_ensures(
            next_on_sink,
            (sink, profile_id, queue, something_active, player_available),
            r,
        ),
    ensures
        sink is RemoteAgent ==> r is Ok && r->Ok_0 is AgentNext,
        sink is Sonos ==> r is Ok && r->Ok_0 is SonosNext,
        sink is Upnp && queue@.len() > 0 ==> r == Ok::<SinkAdvance, PlaybackError>(
            SinkAdvance::RendererHandoff { source: queue@[0] },
        ),
        sink is Upnp && queue@.len() == 0 ==> r is Ok && (r->Ok_0 is RendererNext
            <==> !something_active),
        sink is Local && queue@.len() > 0 && queue@[0] is QobuzTrack ==> r is Ok && match r->Ok_0 {
            SinkAdvance::PlayHead { request } => {
                &&& request.source == queue@[0]
                &&& seq![request.source] + request.queue@ == queue@
                &&& request.profile_id@ == profile_id@
                &&& !request.radio_auto
            },
            _ => false,
        },
        sink is Local && (queue@.len() == 0 || queue@[0] is LocalTrack) ==> (r is Ok
            <==> player_available) && (r is Ok ==> r->Ok_0 is PlayerNext),
{
    if sink is Local && queue@.len() > 0 && queue@[0] is QobuzTrack {
        assert(seq![queue@[0]] + queue@.skip(1) =~= queue@);
    }
}

/// A stream shows the request's own title, artist, album and duration until the
/// stream brings its own.
pub proof fn law_fallback_tags_are_those_of_the_request(req: QobuzPlayRequest)
    ensures
        spec_fallback_tags(req).title == req.title,
        spec_fallback_tags(req).artist == req.artist,
        spec_fallback_tags(req).album == req.album,
        spec_fallback_tags(req).album_artist == req.artist,
        spec_fallback_tags(req).duration_secs == req.duration_secs,
{
}

/// An amplifier is set to the volume asked for as far as its limit allows.
pub proof fn law_amplifier_keeps_its_limit(requested_percent: u8, max_volume: u8, r: u8)
    requires
        call_ensures(normalized_hegel_volume, (requested_percent, max_volume), r),
    ensures
        r <= max_volume,
        r <= requested_percent,
        r == max_volume || r == requested_percent,
{
}

/// Zones of different protocols are stored under different kinds.
pub proof fn law_definition_kinds_differ(a: SinkProtocol, b: SinkProtocol)
    requires
        a != b,
    ensures
        spec_definition_kind(a) != spec_definition_kind(b),
{
    reveal_strlit("remote_agent");
    reveal_strlit("airplay_coreaudio");
    reveal_strlit("airplay_raop");
    reveal_strlit("airplay2");
    reveal_strlit("sonos_upnp");
    reveal_strlit("upnp_av_renderer");
    reveal_strlit("asio");
    reveal_strlit("local_coreaudio");
    assert("remote_agent"@.len() == 12 && "airplay_raop"@.len() == 12);
    assert("remote_agent"@[0] == 'r' && "airplay_raop"@[0] == 'a');
    assert("airplay_coreaudio"@.len() == 17);
    assert("airplay2"@.len() == 8);
    assert("sonos_upnp"@.len() == 10);
    assert("upnp_av_renderer"@.len() == 16);
    assert("asio"@.len() == 4);
    assert("local_coreaudio"@.len() == 15);
}

/// Each zone plays a source on its own sink; the local player takes files of
/// the library as files and everything else as streams.
pub proof fn law_sources_play_on_their_sink(sink: ZoneSink, source: SourceRef, r: PlayRoute)
    requires
        call_ensures(play_source, (sink, &source), r),
    ensures
        r is RemoteAgent <==> sink is RemoteAgent,
        r is Sonos <==> sink is Sonos,
        r is Upnp <==> sink is Upnp,
        r is LocalFile <==> sink is Local && source is LocalTrack,
        r is LocalStream <==> sink is Local && source is QobuzTrack,
{
}

/// An agent is told to play the source of the request with its queue, unless
/// the request is late.
pub proof fn law_agent_is_told_the_request(
    request: PlaybackRequest,
    sequencer: PlaybackCommandSequencer,
    playback_config: PlaybackConfig,
    stream_base_url: &str,
    r: Result<CoreToAgentCommand, PlaybackError>,
)
    requires
        sequencer.wf(),
        call_ensures(
            play_remote_agent,
            (&request, &sequencer, playback_config, stream_base_url),
            r,
        ),
    ensures
        request.guard.expected_sequence is None ==> r is Ok,
        r is Err <==> request.guard.expected_sequence is Some && sequencer.spec_stale(
            request.guard.expected_sequence->0,
        ),
        r is Ok ==> match r->Ok_0 {
            CoreToAgentCommand::PlaySource {
                source_ref,
                queue,
                playback_config: config,
                stream_base_url: url,
            } => {
                &&& source_ref == request.source
                &&& queue@ == request.queue@
                &&& config == playback_config
                &&& url@ == stream_base_url@
            },
            _ => false,
        },
{
}

/// A stream is started while the track before it is the expected one and its
/// command is not late.
pub proof fn law_stale_streams_are_not_started(
    current_matches: bool,
    guard: PlaybackGuard,
    sequencer: PlaybackCommandSequencer,
    started: bool,
    r: Result<(), PlaybackError>,
)
    requires
        sequencer.wf(),
        call_ensures(
            may_start,
            (StartStage::Prepared, current_matches, &guard, &sequencer, started),
            r,
        ),
    ensures
        r is Ok ==> current_matches,
        current_matches && guard.expected_sequence is None ==> r is Ok,
        current_matches && guard.expected_sequence is Some ==> (r is Ok <==> !sequencer.spec_stale(
            guard.expected_sequence->0,
        )),
{
}

/// Setting how a queue repeats stores just that.
pub proof fn law_loop_mode_is_stored(stored: QueueState, mode: LoopMode, r: QueueState)
    requires
        call_ensures(persist_zone_loop_mode, (Some(stored), mode), r),
    ensures
        mode is Off ==> text::opt_text(r.loop_mode) == Some("off"@),
        mode is Loop ==> text::opt_text(r.loop_mode) == Some("loop"@),
        mode is One ==> text::opt_text(r.loop_mode) == Some("one"@),
        r.items == stored.items,
        r.cursor == stored.cursor,
        r.kind == stored.kind,
        r.rest == stored.rest,
{
}

/// An amplifier that is muted already is left as it was; one that is not is
/// muted.
pub proof fn law_amplifier_is_left_as_it_was(
    muted: bool,
    host: String,
    port: u16,
    play_id: u64,
    r: MuteStep,
)
    requires
        call_ensures(after_mute_query, (Some(Some(muted)), host, port, play_id), r),
    ensures
        !muted ==> r is Mute,
        muted ==> r is Guarded && !r->guard.restore_unmuted && r->guard.host == host
            && r->guard.port == port && r->guard.play_id == play_id,
{
}

/// An amplifier that was muted for a start is unmuted behind the play that it
/// was muted for, and one that was muted already stays so.
pub proof fn law_muted_amplifier_is_unmuted(
    host: String,
    port: u16,
    play_id: u64,
    step: MuteStep,
    guard: HegelDopMuteGuard,
    r: Option<UnmuteSteps>,
)
    requires
        call_ensures(after_mute, (true, host, port, play_id), step),
        step is Guarded,
        guard == step->guard,
        call_ensures(finish_hegel_dop_mute_guard, (Some(&guard),), r),
    ensures
        r is Some,
        r->0.unmute,
        play_id != 0 ==> r->0.wait_for_play == Some(play_id),
        play_id == 0 ==> r->0.wait_for_play is None,
        guard.host == host && guard.port == port,
{
}

/// Only a marked stream to a supported amplifier with settings asks for its
/// state, at the configured address.
pub proof fn law_amplifier_is_asked_for_marked_streams(
    supported: bool,
    marked: bool,
    host: String,
    port: u16,
    r: MuteStep,
)
    requires
        call_ensures(
            begin_hegel_dop_mute_guard,
            (supported, marked, Some((Some(host), port))),
            r,
        ),
    ensures
        r is Query <==> supported && marked,
        r is Query ==> r->port == port && r->host@ == host@,
        !(supported && marked) ==> r is NoGuard,
{
}

} // verus!
