//! The playback position snapshot that the render state publishes and the
//! control side reads.

use vstd::prelude::*;
use crate::units::clamped;
use crate::units::clamp_to_zero;

verus! {

/// One published snapshot of where playback stands. Times are nanoseconds.
#[derive(Clone, Copy, Debug, PartialEq, Eq, Structural)]
pub enum PlaybackPosition {
    /// No track was loaded or started.
    NotStarted,
    /// A seek to `target` was asked for and is not confirmed yet.
    Seeking { target: u64 },
    /// Playback stands still at `position`.
    Paused { position: u64 },
    /// Playback runs: the track was at `position` at the instant `anchor`
    /// and moves `speed` thousandths of a nanosecond per nanosecond.
    Playing { position: u64, anchor: i64, speed: u32 },
}

impl PlaybackPosition {
    /// The track time that the snapshot stands for at the instant `now`:
    /// nothing before a track started, the frozen value while paused or
    /// seeking, and `position + speed * (now - anchor) / 1000` while
    /// playing, rounded down. An anchor later than `now` gives a value
    /// below `position`.
    pub open spec fn at(self, now: int) -> Option<int> {
        match self {
            PlaybackPosition::NotStarted => None,
            PlaybackPosition::Seeking { target } => Some(target as int),
            PlaybackPosition::Paused { position } => Some(position as int),
            PlaybackPosition::Playing { position, anchor, speed } => Some(
                position + speed * (now - anchor) / 1000,
            ),
        }
    }

    /// The content of the position store after a snapshot was published,
    /// or none was: the last snapshot wins, and without a new one the old
    /// one stays.
    pub open spec fn overwritten(self, published: Option<PlaybackPosition>) -> PlaybackPosition {
        match published {
            Some(snapshot) => snapshot,
            None => self,
        }
    }

    /// Puts what was published in the store, see
    /// [`PlaybackPosition::overwritten`].
    pub fn publish(&mut self, published: Option<PlaybackPosition>)
        ensures
            *final(self) == old(self).overwritten(published),
    {
        match published {
            Some(snapshot) => {
                *self = snapshot;
            },
            None => {},
        }
    }

    /// The snapshot that a seek request leaves until the render state
    /// confirms it: the target, no earlier than zero.
    pub fn seeking(target: i64) -> (r: PlaybackPosition)
        ensures
            r == (PlaybackPosition::Seeking { target: clamped(target as int) as u64 }),
    {
        PlaybackPosition::Seeking { target: clamp_to_zero(target) }
    }

    /// Whether the snapshot says that playback runs.
    pub fn is_playing(&self) -> (r: bool)
        ensures
            r == (self is Playing),
    {
        match self {
            PlaybackPosition::Playing { .. } => true,
            _ => false,
        }
    }

    /// The track time at the instant `now`, see [`PlaybackPosition::at`].
    pub fn music_position(&self, now: i64) -> (r: Option<i128>)
        ensures
            r is Some <==> self.at(now as int) is Some,
            r matches Some(p) ==> self.at(now as int) == Some(p as int),
    {
        match *self {
            PlaybackPosition::NotStarted => None,
            PlaybackPosition::Seeking { target } => Some(target as i128),
            PlaybackPosition::Paused { position } => {
                Some(position as i128)
            },
            PlaybackPosition::Playing { position, anchor, speed } => {
                let elapsed: i128 = now as i128 - anchor as i128;
                if elapsed >= 0 {
                    assert(speed * elapsed <= 0xffff_ffff * 0x1_0000_0000_0000_0000)
                        by (nonlinear_arith)
                        requires
                            0 <= elapsed <= 0x1_0000_0000_0000_0000,
                            speed <= 0xffff_ffff,
                    ;
                    assert(0 <= speed * elapsed) by (nonlinear_arith)
                        requires
                            0 <= elapsed,
                            0 <= speed,
                    ;
                    let gained: i128 = (speed as i128) * elapsed / 1000;
                    Some(position as i128 + gained)
                } else {
                    let behind: i128 = -elapsed;
                    assert(speed * behind <= 0xffff_ffff * 0x1_0000_0000_0000_0000)
                        by (nonlinear_arith)
                        requires
                            0 <= behind <= 0x1_0000_0000_0000_0000,
                            speed <= 0xffff_ffff,
                    ;
                    assert(0 <= speed * behind) by (nonlinear_arith)
                        requires
                            0 <= behind,
                            0 <= speed,
                    ;
                    assert(speed * elapsed == -(speed * behind)) by (nonlinear_arith)
                        requires
                            behind == -elapsed,
                    ;
                    let lost: i128 = ((speed as i128) * behind + 999) / 1000;
                    Some(position as i128 - lost)
                }
            },
        }
    }
}

} // verus!
