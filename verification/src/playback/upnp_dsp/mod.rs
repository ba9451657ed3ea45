//! Rendering and streaming of processed audio for UPnP renderers.

pub mod dop;
pub mod dsf;
pub mod flac;
pub mod formats;
pub mod layout;
pub mod plan;
pub mod range;
pub mod render;
pub mod stream;
pub mod wav;
