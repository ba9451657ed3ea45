//! Playback core: zones, queues, sources, and the UPnP DSP byte pipeline.

pub mod audio;
pub mod bytes;
pub mod digest;
pub mod playback;
pub mod protocol;
pub mod rt_allocator;
pub mod text;
