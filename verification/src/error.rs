//! What can go wrong in the engine.

use vstd::prelude::*;

verus! {

/// The failures that the engine reports to the control side.
#[derive(Clone, Copy, Debug, PartialEq, Eq, Structural)]
pub enum EngineError {
    /// No output device, no usable sample format, or the stream could not
    /// be built.
    DeviceError,
    /// The file could not be opened or decoded.
    DecodeError,
    /// The file's extension names no format that the engine plays.
    UnsupportedFormat,
    /// The source cannot be put at the position asked for.
    SeekError,
    /// The device thread is gone and takes no more commands.
    ChannelClosed,
    /// A render callback panicked while it held the position store.
    PositionStorePoisoned,
}

} // verus!
