//! The vocabulary that the core, its agents and its clients share.

pub mod agent;
pub mod playback;
pub mod signal;
pub mod sink;
pub mod source;
pub mod zone;

pub use agent::{
    AgentBufferState, AgentCapabilities, AgentPlaybackState, AgentToCoreMessage,
    CoreToAgentCommand, OutputDeviceCapabilities,
};
pub use playback::{DsdSourceRule, EqConfig, Headroom, PlaybackConfig};
pub use signal::{BrowserStreamSignal, DsdBufferHealth, SyncSignalPath};
pub use sink::{SinkProtocol, UpnpPcmContainer, UpnpPcmContainerCapability, system_audio_backend};
pub use source::{PlaylistContext, RadioContext, RadioSeedContext, SourceRef};
pub use zone::{
    BrowserStreamSettings, CapabilityDetectionSource, CapabilityDetectionStatus, DspProfile,
    ZoneCapabilities, ZoneHegelSettings, ZoneProfile, ZoneStatus, ZoneUpnpCapabilities,
};
