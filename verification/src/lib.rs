//! A real-time media bridge between a callback-driven computation core and
//! its two consumers: an audio output device and a display surface.
//!
//! The crate holds the verified heart of the pipeline: pixel-format
//! conversion, the audio buffer pool and FIFO transport, the video mailbox,
//! pixel-format negotiation, and the aspect-correct frame scaler.

pub mod audio;
pub mod format;
pub mod pipeline;
pub mod pixel;
pub mod video;
