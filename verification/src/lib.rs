//! Frame sources and frame delivery for a rotoscoping tool.
//!
//! A frame source turns a frame number into a decoded RGBA8 raster. A frame
//! cache keeps what was decoded, and a session keeps one display texture in
//! step with the frame that is to be shown, also across a change of source.

pub mod composition;
pub mod display_texture;
pub mod error;
pub mod frame;
pub mod frame_cache;
pub mod frame_provider;
pub mod session;
pub mod texture_image;
