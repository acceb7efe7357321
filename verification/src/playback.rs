//! The control side's record of playback, and the commands that its keys
//! and buttons stand for.

use vstd::prelude::*;
use crate::command::Command;
use crate::position::PlaybackPosition;

verus! {

/// The step of a seek backward or forward: five seconds.
pub const SEEK_STEP: u64 = 5_000_000_000;

/// What the control side knows of playback: whether it runs, where it
/// stands, and the place that the listener marked. Times are nanoseconds.
#[derive(Clone, Copy, Debug, PartialEq, Eq, Structural)]
pub struct Playback {
    /// Whether playback runs.
    pub is_playing: bool,
    /// The track time at the last look at the position store.
    pub curr_pos: u64,
    /// The marked place.
    pub fav_part: u64,
}

/// The time `x` as a seek target: itself where it fits, else the latest
/// target there is.
pub open spec fn target_of(x: int) -> i64 {
    if x > i64::MAX {
        i64::MAX
    } else {
        x as i64
    }
}

/// See [`target_of`].
fn as_target(x: u64) -> (r: i64)
    ensures
        r == target_of(x as int),
{
    if x > i64::MAX as u64 {
        i64::MAX
    } else {
        x as i64
    }
}

impl Playback {
    /// The record before anything was played: stopped, at zero, with the
    /// mark at zero.
    pub fn new() -> (r: Playback)
        ensures
            r == (Playback { is_playing: false, curr_pos: 0, fav_part: 0 }),
    {
        Playback { is_playing: false, curr_pos: 0, fav_part: 0 }
    }

    /// Brings the record up to the snapshot as it reads at the instant
    /// `now`: playback runs where the snapshot says so, and stands at the
    /// snapshot's track time, taken as zero where there is none or where
    /// it is below zero, and as the largest time where it is above that.
    /// The mark stays.
    pub fn observe(&mut self, snapshot: PlaybackPosition, now: i64)
        ensures
            final(self).is_playing == (snapshot is Playing),
            final(self).curr_pos == match snapshot.at(now as int) {
                None => 0,
                Some(p) => if p < 0 {
                    0
                } else if p > u64::MAX {
                    u64::MAX as int
                } else {
                    p
                },
            },
            final(self).fav_part == old(self).fav_part,
    {
        self.is_playing = snapshot.is_playing();
        self.curr_pos = match snapshot.music_position(now) {
            None => 0,
            Some(p) => if p < 0 {
                0
            } else if p > u64::MAX as i128 {
                u64::MAX
            } else {
                p as u64
            },
        };
    }

    /// The play key: stops playback where it runs and starts it where it
    /// does not, and turns the flag over.
    pub fn toggle(&mut self) -> (cmd: Command)
        ensures
            final(self).is_playing == !old(self).is_playing,
            final(self).curr_pos == old(self).curr_pos,
            final(self).fav_part == old(self).fav_part,
            old(self).is_playing ==> cmd is Pause,
            !old(self).is_playing ==> cmd is Play,
    {
        self.is_playing = !self.is_playing;
        if self.is_playing {
            Command::Play
        } else {
            Command::Pause
        }
    }

    /// The left key: a seek to five seconds before the present position,
    /// or to the start where less than that was played.
    pub fn back(&self) -> (cmd: Command)
        ensures
            cmd matches Command::Seek(target) && target == if self.curr_pos > SEEK_STEP {
                target_of(self.curr_pos - SEEK_STEP)
            } else {
                0
            },
    {
        if self.curr_pos > SEEK_STEP {
            Command::Seek(as_target(self.curr_pos - SEEK_STEP))
        } else {
            Command::Seek(0)
        }
    }

    /// The right key: a seek to five seconds after the present position.
    pub fn forward(&self) -> (cmd: Command)
        ensures
            cmd matches Command::Seek(target) && target == target_of(self.curr_pos + SEEK_STEP),
    {
        if self.curr_pos > u64::MAX - SEEK_STEP {
            Command::Seek(i64::MAX)
        } else {
            Command::Seek(as_target(self.curr_pos + SEEK_STEP))
        }
    }

    /// Marks the present position.
    pub fn record_favourite(&mut self)
        ensures
            *final(self) == (Playback { fav_part: old(self).curr_pos, ..*old(self) }),
    {
        self.fav_part = self.curr_pos;
    }

    /// A seek to the marked place.
    pub fn play_favourite(&self) -> (cmd: Command)
        ensures
            cmd matches Command::Seek(target) && target == target_of(self.fav_part as int),
    {
        Command::Seek(as_target(self.fav_part))
    }
}

} // verus!
