//! Playback: how requests become sound on a zone.

pub mod error;
pub mod qobuz;
pub mod queue;
pub mod queue_advance;
pub mod queue_state;
pub mod request;
pub mod resolver;
pub mod sequencer;
pub mod sinks;
pub mod sonos;
pub mod source;
pub mod status;
pub mod transfer;
pub mod upnp;
pub mod upnp_dsp;
pub mod upnp_target;
pub mod zone_service;
