//! Messages between the core and remote agents.

use crate::audio::{Real32, Real64};
use crate::protocol::playback::PlaybackConfig;
use crate::protocol::signal::SyncSignalPath;
use crate::protocol::source::SourceRef;
use vstd::prelude::*;

verus! {

/// A command to an agent.
#[derive(Debug)]
pub enum CoreToAgentCommand {
    PlaySource {
        source_ref: SourceRef,
        queue: Vec<SourceRef>,
        playback_config: PlaybackConfig,
        stream_base_url: String,
    },
    PreFetch { source_ref: SourceRef, stream_base_url: String },
    Pause,
    Resume,
    Stop,
    Next,
    Seek { seconds: Real64 },
    SetQueue { queue: Vec<SourceRef> },
    SetLoopMode { repeat_one: bool },
    SetPlaybackConfig { playback_config: PlaybackConfig },
    /// Liveness marker for browser agents; it carries no state.
    Heartbeat,
}

/// What one output device of an agent can do.
#[derive(Clone, Debug)]
pub struct OutputDeviceCapabilities {
    pub name: String,
    pub backend: Option<String>,
    pub max_sample_rate: u32,
    pub max_bit_depth: u8,
    pub supports_dsd128: bool,
    pub supports_dsd256: bool,
}

/// What an agent can do.
#[derive(Clone, Debug)]
pub struct AgentCapabilities {
    pub output_devices: Vec<String>,
    pub output_device_capabilities: Vec<OutputDeviceCapabilities>,
    pub max_sample_rate: u32,
    pub max_bit_depth: u8,
    pub exclusive_supported: bool,
    pub supports_dsd128: bool,
    pub supports_dsd256: bool,
    /// True for in-browser agents. Browser zones are private to the browser
    /// session that registered them: they are hidden from other clients and
    /// can never become the server-wide active zone.
    pub browser: bool,
}

/// A message from an agent.
#[derive(Debug)]
pub enum AgentToCoreMessage {
    Register { agent_id: String, name: String, capabilities: AgentCapabilities },
    PlaybackState(AgentPlaybackState),
    BufferState(AgentBufferState),
    SyncSignalPath(SyncSignalPath),
}

/// What an agent reports of its playback.
#[derive(Debug, Default)]
pub struct AgentPlaybackState {
    pub state: String,
    /// The source that the agent renders; older agents omit it.
    pub current_source: Option<SourceRef>,
    pub file_name: Option<String>,
    pub track_title: Option<String>,
    pub track_artist: Option<String>,
    pub track_album: Option<String>,
    pub position_secs: Real64,
    pub duration_secs: Real64,
    pub source_rate: u32,
    pub target_rate: u32,
    pub source_bits: u32,
    pub target_bits: u32,
    pub volume: Real32,
}

/// What an agent reports of its buffer.
#[derive(Clone, Debug, Default)]
pub struct AgentBufferState {
    pub buffered_next: Option<String>,
    pub prefetching: bool,
    pub buffered_bytes: u64,
}

} // verus!
