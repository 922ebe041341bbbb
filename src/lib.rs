//! A safe layer over a depth-camera control library: stream kinds and formats,
//! the native-call guard, stream configuration and its resolution, the capture
//! pipeline's lifecycle, and typed frames.

pub mod kind;
pub mod error;
pub mod base;
pub mod config;
pub mod resolve;
pub mod frame_kind;
pub mod frame;
pub mod pipeline;
pub mod device;
