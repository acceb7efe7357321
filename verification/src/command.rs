//! The commands that the control side sends to the render state.

use vstd::prelude::*;
use crate::error::EngineError;
use crate::position::PlaybackPosition;
use crate::track::Track;
use crate::units::clamped;

verus! {

/// One order for the render state. Each is sent once and applied once, in
/// the order of sending.
#[derive(Debug)]
pub enum Command {
    /// Run playback.
    Play,
    /// Stop playback where it stands.
    Pause,
    /// Go to this instant of track time, in nanoseconds.
    Seek(i64),
    /// Replace the track by the one that was decoded, or by none where
    /// decoding failed.
    LoadMusic(Option<Track>),
    /// Set the gain, in thousandths.
    SetVolume(u32),
    /// Set the playback speed, in thousandths.
    SetSpeed(u32),
}

impl Command {
    /// A command is valid where the track it carries is.
    pub open spec fn wf(self) -> bool {
        self matches Command::LoadMusic(Some(track)) ==> track@.wf()
    }

    /// The snapshot that the control side puts in the position store
    /// before it sends the command: for a seek, that the target is being
    /// sought, so that no reader sees the place that playback is about to
    /// leave; for any other command, none.
    pub open spec fn announced(self) -> Option<PlaybackPosition> {
        match self {
            Command::Seek(target) => Some(
                PlaybackPosition::Seeking { target: clamped(target as int) as u64 },
            ),
            _ => None,
        }
    }

    /// See [`Command::announced`].
    pub fn announces(&self) -> (r: Option<PlaybackPosition>)
        ensures
            r == self.announced(),
    {
        match self {
            Command::Seek(target) => Some(PlaybackPosition::seeking(*target)),
            _ => None,
        }
    }

    /// The command that a load ends in, and what the load reports. A
    /// track that was decoded is sent on and the load has succeeded. A
    /// failure to decode is reported as it is, and the command then
    /// carries no track, so that playback falls silent.
    pub fn load(decoded: Result<Track, EngineError>) -> (r: (Command, Result<(), EngineError>))
        ensures
            decoded matches Ok(track) ==> r.0 == Command::LoadMusic(Some(track)) && r.1 is Ok,
            decoded matches Err(e) ==> r.0 == Command::LoadMusic(None) && r.1 == Err::<
                (),
                EngineError,
            >(e),
    {
        match decoded {
            Ok(track) => (Command::LoadMusic(Some(track)), Ok(())),
            Err(e) => (Command::LoadMusic(None), Err(e)),
        }
    }
}

} // verus!
