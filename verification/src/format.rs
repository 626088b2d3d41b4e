//! Pixel-format negotiation.
//!
//! During initialization the computation core announces, through its
//! environment callback, which of a closed set of pixel layouts its frames
//! use. That choice fixes the bytes-per-pixel value the video path relies
//! on. An unknown format code is a fatal configuration error: the pipeline
//! cannot interpret frames without a known layout.

use vstd::prelude::*;

verus! {

/// Environment command: the core asks whether duplicate frames (a null
/// frame pointer) are acceptable. The answer is always yes.
pub const ENVIRONMENT_GET_CAN_DUPE: u32 = 3;

/// Environment command: the core announces the pixel format of its frames.
pub const ENVIRONMENT_SET_PIXEL_FORMAT: u32 = 10;

/// The closed set of frame-buffer pixel layouts a core may announce.
#[derive(Clone, Copy, Debug, PartialEq, Eq, Structural)]
pub enum CorePixelFormat {
    /// 16 bits per pixel: one unused bit, then 5-5-5 color.
    Argb1555,
    /// 32 bits per pixel: 8-8-8-8, top byte unused.
    Xrgb8888,
    /// 16 bits per pixel: 5-6-5 color, converted before display.
    Rgb565,
}

impl CorePixelFormat {
    /// How many bytes one pixel of this format occupies in a frame buffer.
    pub open spec fn spec_bytes_per_pixel(self) -> u8 {
        match self {
            CorePixelFormat::Argb1555 => 2,
            CorePixelFormat::Rgb565 => 2,
            CorePixelFormat::Xrgb8888 => 4,
        }
    }

    /// How many bytes one pixel of this format occupies in a frame buffer.
    pub fn bytes_per_pixel(self) -> (bytes: u8)
        ensures
            bytes == self.spec_bytes_per_pixel(),
    {
        match self {
            CorePixelFormat::Argb1555 => 2,
            CorePixelFormat::Rgb565 => 2,
            CorePixelFormat::Xrgb8888 => 4,
        }
    }

    /// The format a raw environment-callback code names, or `None` for a
    /// code outside the closed set.
    pub open spec fn spec_from_uint(value: u32) -> Option<CorePixelFormat> {
        match value {
            0u32 => Some(CorePixelFormat::Argb1555),
            1u32 => Some(CorePixelFormat::Xrgb8888),
            2u32 => Some(CorePixelFormat::Rgb565),
            _ => None,
        }
    }

    /// The format a raw environment-callback code names, or `None` for a
    /// code outside the closed set — a fatal configuration error for the
    /// caller.
    pub fn from_uint(value: u32) -> (format: Option<CorePixelFormat>)
        ensures
            format == CorePixelFormat::spec_from_uint(value),
    {
        match value {
            0 => Some(CorePixelFormat::Argb1555),
            1 => Some(CorePixelFormat::Xrgb8888),
            2 => Some(CorePixelFormat::Rgb565),
            _ => None,
        }
    }
}

/// The pixel format the pipeline currently assumes for incoming frames.
pub struct EmulatorPixelFormat(pub CorePixelFormat);

impl Default for EmulatorPixelFormat {
    /// Until a core announces otherwise, frames are assumed 32-bit.
    fn default() -> (format: Self)
        ensures
            format.0 == CorePixelFormat::Xrgb8888,
    {
        EmulatorPixelFormat(CorePixelFormat::Xrgb8888)
    }
}

/// What an environment callback invocation asks the frontend to do.
#[derive(Clone, Copy, Debug, PartialEq, Eq, Structural)]
pub enum EnvironmentAction {
    /// Write `true` into the core's flag: duplicate frames are accepted.
    AnswerCanDupe,
    /// Record the announced pixel format as a negotiation event.
    SetPixelFormat(CorePixelFormat),
    /// The announced format code is outside the closed set: fatal.
    InvalidPixelFormat,
    /// A command this frontend does not implement.
    Unhandled,
}

/// Decides what an environment callback must do, and what it returns to the
/// core, from the command code and the word the command's data points to.
/// `data` matters only to the pixel-format command. Only a successfully
/// recorded pixel format is acknowledged with `true`.
pub fn environment_decision(command: u32, data: u32) -> (decision: (EnvironmentAction, bool))
    ensures
        command == ENVIRONMENT_GET_CAN_DUPE ==> decision == (
            EnvironmentAction::AnswerCanDupe,
            false,
        ),
        command == ENVIRONMENT_SET_PIXEL_FORMAT ==> (match CorePixelFormat::spec_from_uint(data) {
            Some(format) => decision == (EnvironmentAction::SetPixelFormat(format), true),
            None => decision == (EnvironmentAction::InvalidPixelFormat, false),
        }),
        command != ENVIRONMENT_GET_CAN_DUPE && command != ENVIRONMENT_SET_PIXEL_FORMAT
            ==> decision == (EnvironmentAction::Unhandled, false),
{
    if command == ENVIRONMENT_GET_CAN_DUPE {
        (EnvironmentAction::AnswerCanDupe, false)
    } else if command == ENVIRONMENT_SET_PIXEL_FORMAT {
        match CorePixelFormat::from_uint(data) {
            Some(format) => (EnvironmentAction::SetPixelFormat(format), true),
            None => (EnvironmentAction::InvalidPixelFormat, false),
        }
    } else {
        (EnvironmentAction::Unhandled, false)
    }
}

} // verus!
