//! The core of an audio playback engine: the render state that a hardware
//! callback drives, the sample source it draws from, the commands that
//! steer it and the position snapshot it publishes.
//!
//! Times are whole nanoseconds, speeds and gains are thousandths, and
//! samples are signed 16-bit integers, so every rule is exact.
//!
//! - [`track`] holds a decoded track and reads it as a stream for the
//!   device, at any speed, from any position.
//! - [`render`] holds the state of the callback: it applies commands,
//!   fills buffers and says what to publish.
//! - [`position`] holds the published snapshot and the clock arithmetic of
//!   its readers.
//! - [`command`] holds the commands, [`playback`] the control side's record
//!   and the commands behind its keys, [`format`] the formats by file
//!   name, and [`mp3`] the decoding of MP3 data.
//! - [`analysis`] cuts the windows that a spectrum is computed from.
//! - [`laws`] proves what holds of all of it together.

pub mod analysis;
pub mod arith;
pub mod command;
pub mod error;
pub mod format;
pub mod laws;
pub mod mp3;
pub mod playback;
pub mod position;
pub mod render;
pub mod track;
pub mod units;
