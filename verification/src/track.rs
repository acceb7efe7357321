//! The sample source behind the render state: a decoded track that is read
//! as a stream in the output device's channel count and rate.
//!
//! The track keeps its own frames and a read head. Each output frame moves
//! the head by `sample_rate * speed / (out_rate * 1000)` source frames, so
//! a higher speed or a lower device rate walks the track faster. A frame
//! of the output holds, for each of its channels, the sample of the same
//! channel of the source frame under the head, or of the source's last
//! channel where it has fewer.

use vstd::prelude::*;
use vstd::arithmetic::div_mod::lemma_basic_div;
use vstd::arithmetic::div_mod::lemma_div_by_self;
use vstd::arithmetic::div_mod::lemma_fundamental_div_mod;
use vstd::arithmetic::div_mod::lemma_mod_bound;
use vstd::arithmetic::div_mod::lemma_mod_self_0;
use vstd::arithmetic::div_mod::lemma_small_mod;
use vstd::arithmetic::mul::lemma_mul_is_distributive_add_other_way;
use crate::arith::lemma_div_mod_split;
use crate::error::EngineError;
use crate::units::clamp_to_zero;
use crate::units::clamped;
use crate::units::frame_at;
use crate::units::frame_index;
use crate::units::saturated;

verus! {

/// What a [`Track`] is: its frames, its formats and where its head stands.
pub ghost struct TrackView {
    /// The decoded samples, interleaved by `channels`.
    pub samples: Seq<i16>,
    /// Channels of the source.
    pub channels: nat,
    /// Frames a second of the source.
    pub sample_rate: nat,
    /// Channels of the output.
    pub out_channels: nat,
    /// Frames a second of the output device.
    pub out_rate: nat,
    /// Playback speed in thousandths.
    pub speed: nat,
    /// The source frame under the head.
    pub cursor: nat,
    /// How far the head is into that frame, in units of
    /// `1 / (out_rate * 1000)` of a frame.
    pub phase: nat,
    /// The output channel that the next sample belongs to.
    pub lane: nat,
}

impl TrackView {
    /// The invariant of a track.
    pub open spec fn wf(self) -> bool {
        &&& 1 <= self.channels <= u16::MAX
        &&& 1 <= self.sample_rate <= u32::MAX
        &&& 1 <= self.out_channels <= u16::MAX
        &&& 1 <= self.out_rate <= u32::MAX
        &&& 1 <= self.speed <= u32::MAX
        &&& self.cursor <= u64::MAX
        &&& self.phase < self.grain()
        &&& self.lane < self.out_channels
        &&& self.samples.len() <= usize::MAX
    }

    /// Whole frames in the track.
    pub open spec fn frames(self) -> nat {
        self.samples.len() / self.channels
    }

    /// Parts that one source frame is divided into for the head.
    pub open spec fn grain(self) -> nat {
        self.out_rate * 1000
    }

    /// Parts by which one output frame moves the head.
    pub open spec fn stride(self) -> nat {
        self.sample_rate * self.speed
    }

    /// The source channel that feeds the output channel `lane`.
    pub open spec fn source_lane(self) -> nat {
        if self.lane < self.channels {
            self.lane
        } else {
            (self.channels - 1) as nat
        }
    }

    /// Whether the head is past the last frame.
    pub open spec fn ended(self) -> bool {
        self.cursor >= self.frames()
    }

    /// The sample under the head, or nothing past the end.
    pub open spec fn current(self) -> Option<i16> {
        if self.ended() {
            None
        } else {
            Some(self.samples[(self.cursor * self.channels + self.source_lane()) as int])
        }
    }

    /// The track after `n` samples were drawn: the lane has gone round
    /// `(lane + n) / out_channels` times, and each round moved the head by
    /// one stride. The cursor stays at the 64-bit limit once it gets there.
    pub open spec fn after(self, n: nat) -> TrackView {
        let slots = self.lane + n;
        let parts = self.phase + (slots / self.out_channels) * self.stride();
        TrackView {
            cursor: saturated(self.cursor + parts / self.grain()),
            phase: parts % self.grain(),
            lane: slots % self.out_channels,
            ..self
        }
    }

    /// The `n`-th sample that the track gives from here, counting from 0.
    pub open spec fn nth(self, n: nat) -> Option<i16> {
        self.after(n).current()
    }

    /// The track with its head on the frame that holds the instant `nanos`
    /// of track time.
    pub open spec fn sought(self, nanos: nat) -> TrackView {
        TrackView { cursor: frame_at(nanos, self.sample_rate), phase: 0, lane: 0, ..self }
    }

    /// The number of output frames that lie before the source frame under
    /// the head: the head's frame boundary, counted in the output.
    pub open spec fn reached(self) -> nat {
        self.cursor * self.grain() / self.stride()
    }

    /// Whether a seek to `nanos` can be honoured: the frame index and the
    /// count of output frames before it both fit in 64 bits.
    pub open spec fn seekable(self, nanos: nat) -> bool {
        &&& frame_at(nanos, self.sample_rate) <= u64::MAX
        &&& self.sought(nanos).reached() <= u64::MAX
    }

    /// The track as it is handed to a device of `channels` channels and
    /// `rate` frames a second at `speed` thousandths, the head unmoved but
    /// on a frame boundary and at the frame's first channel.
    pub open spec fn adapted(self, channels: nat, rate: nat, speed: nat) -> TrackView {
        TrackView { out_channels: channels, out_rate: rate, speed: speed, phase: 0, lane: 0, ..self }
    }

    /// The track as it is produced for `rate * 1000 / speed` frames a
    /// second, the head unmoved but on a frame boundary.
    pub open spec fn resampled(self, rate: nat, speed: nat) -> TrackView {
        TrackView { out_rate: rate, speed: speed, phase: 0, ..self }
    }

    /// Nothing moves while no sample is drawn.
    pub proof fn lemma_after_zero(self)
        requires
            self.wf(),
        ensures
            self.after(0) == self,
    {
        lemma_basic_div(self.lane as int, self.out_channels as int);
        lemma_small_mod(self.lane, self.out_channels);
        assert(0 * self.stride() == 0);
        lemma_basic_div(self.phase as int, self.grain() as int);
        lemma_small_mod(self.phase, self.grain());
    }

    /// Drawing keeps the invariant.
    pub proof fn lemma_after_wf(self, n: nat)
        requires
            self.wf(),
        ensures
            self.after(n).wf(),
    {
        let slots = self.lane + n;
        let parts = self.phase + (slots / self.out_channels) * self.stride();
        lemma_mod_bound(parts as int, self.grain() as int);
        lemma_mod_bound(slots as int, self.out_channels as int);
    }

    /// Drawing `a` samples and then `b` is drawing `a + b`.
    pub proof fn lemma_after_after(self, a: nat, b: nat)
        requires
            self.wf(),
        ensures
            self.after(a).after(b) == self.after(a + b),
    {
        let oc = self.out_channels as int;
        let grain = self.grain() as int;
        let stride = self.stride() as int;
        let slots1 = (self.lane + a) as int;
        let rounds1 = slots1 / oc;
        let parts1 = self.phase + rounds1 * stride;
        let mid = self.after(a);
        let slots2 = (mid.lane + b) as int;
        let rounds2 = slots2 / oc;
        let parts2 = mid.phase + rounds2 * stride;
        assert(0 <= rounds1 && 0 <= rounds2) by {
            vstd::arithmetic::div_mod::lemma_div_pos_is_pos(slots1, oc);
            vstd::arithmetic::div_mod::lemma_div_pos_is_pos(slots2, oc);
        }
        assert(0 <= rounds1 * stride && 0 <= rounds2 * stride) by (nonlinear_arith)
            requires
                0 <= rounds1,
                0 <= rounds2,
                0 <= stride,
        ;
        lemma_div_mod_split(slots1, b as int, oc);
        assert((rounds1 + rounds2) * stride == rounds1 * stride + rounds2 * stride) by {
            lemma_mul_is_distributive_add_other_way(stride, rounds1, rounds2);
        }
        lemma_div_mod_split(parts1, rounds2 * stride, grain);
        assert(0 <= parts1 / grain && 0 <= parts2 / grain) by {
            vstd::arithmetic::div_mod::lemma_div_pos_is_pos(parts1, grain);
            vstd::arithmetic::div_mod::lemma_div_pos_is_pos(parts2, grain);
        }
        let whole = self.after(a + b);
        assert(mid.after(b).lane == whole.lane);
        assert(mid.after(b).phase == whole.phase);
        assert(mid.after(b).cursor == whole.cursor);
    }

    /// A track whose head is past the end gives nothing from then on.
    pub proof fn lemma_ended_stays(self, n: nat)
        requires
            self.wf(),
            self.ended(),
        ensures
            self.after(n).ended(),
            self.nth(n) is None,
    {
        let slots = self.lane + n;
        let parts = self.phase + (slots / self.out_channels) * self.stride();
        vstd::arithmetic::div_mod::lemma_div_pos_is_pos(slots as int, self.out_channels as int);
        assert(0 <= (slots / self.out_channels) * self.stride()) by (nonlinear_arith)
            requires
                0 <= slots / self.out_channels,
                0 <= self.stride(),
        ;
        vstd::arithmetic::div_mod::lemma_div_pos_is_pos(parts as int, self.grain() as int);
        assert(self.frames() <= u64::MAX) by {
            vstd::arithmetic::div_mod::lemma_div_is_ordered_by_denominator(
                self.samples.len() as int,
                1,
                self.channels as int,
            );
            vstd::arithmetic::div_mod::lemma_div_basics(self.samples.len() as int);
        }
    }
}

/// A decoded track, read as a stream of samples for the output device.
#[derive(Debug)]
pub struct Track {
    samples: Vec<i16>,
    channels: u16,
    sample_rate: u32,
    out_channels: u16,
    out_rate: u32,
    speed: u32,
    cursor: u64,
    phase: u64,
    lane: u16,
}

impl View for Track {
    type V = TrackView;

    closed spec fn view(&self) -> TrackView {
        TrackView {
            samples: self.samples@,
            channels: self.channels as nat,
            sample_rate: self.sample_rate as nat,
            out_channels: self.out_channels as nat,
            out_rate: self.out_rate as nat,
            speed: self.speed as nat,
            cursor: self.cursor as nat,
            phase: self.phase as nat,
            lane: self.lane as nat,
        }
    }
}

impl Track {
    /// Every track is valid.
    #[verifier::type_invariant]
    closed spec fn valid(self) -> bool {
        self@.wf()
    }

    /// A track of the interleaved `samples`, at its start, to be played as
    /// it is: the output has the source's channels and rate, at speed one.
    /// There is no track without a channel or without a rate.
    pub fn new(samples: Vec<i16>, channels: u16, sample_rate: u32) -> (r: Option<Track>)
        ensures
            r is Some <==> channels >= 1 && sample_rate >= 1,
            r matches Some(t) ==> t@.wf() && t@ == (TrackView {
                samples: samples@,
                channels: channels as nat,
                sample_rate: sample_rate as nat,
                out_channels: channels as nat,
                out_rate: sample_rate as nat,
                speed: 1000,
                cursor: 0,
                phase: 0,
                lane: 0,
            }),
    {
        if channels == 0 || sample_rate == 0 {
            None
        } else {
            proof {
                vstd::std_specs::vec::axiom_spec_len(&samples);
            }
            Some(
                Track {
                    samples,
                    channels,
                    sample_rate,
                    out_channels: channels,
                    out_rate: sample_rate,
                    speed: 1000,
                    cursor: 0,
                    phase: 0,
                    lane: 0,
                },
            )
        }
    }

    /// Whole frames in the track.
    pub fn frame_count(&self) -> (r: usize)
        ensures
            r == self@.frames(),
            self@.wf(),
    {
        proof {
            use_type_invariant(self);
        }
        self.samples.len() / (self.channels as usize)
    }

    /// The decoded samples, interleaved by the channels of the source.
    pub fn samples(&self) -> (r: &Vec<i16>)
        ensures
            r@ == self@.samples,
    {
        &self.samples
    }

    /// Channels of the source.
    pub fn channels(&self) -> (r: u16)
        ensures
            r == self@.channels,
    {
        self.channels
    }

    /// Frames a second of the source.
    pub fn sample_rate(&self) -> (r: u32)
        ensures
            r == self@.sample_rate,
    {
        self.sample_rate
    }

    /// Hands the track to a device of `channels` channels and `rate`
    /// frames a second, at `speed` thousandths. Returns whether it did:
    /// none of the three may be zero, and nothing changes where one is.
    pub fn set_output(&mut self, channels: u16, rate: u32, speed: u32) -> (done: bool)
        ensures
            done == (channels >= 1 && rate >= 1 && speed >= 1),
            done ==> final(self)@ == old(self)@.adapted(
                channels as nat,
                rate as nat,
                speed as nat,
            ),
            !done ==> final(self)@ == old(self)@,
            final(self)@.wf(),
    {
        proof {
            use_type_invariant(&*self);
        }
        if channels == 0 || rate == 0 || speed == 0 {
            false
        } else {
            self.phase = 0;
            self.lane = 0;
            self.out_channels = channels;
            self.out_rate = rate;
            self.speed = speed;
            true
        }
    }

    /// Sets the rate that the stream is produced for to
    /// `hertz * 1000 / speed` frames a second: the device's rate divided
    /// by the playback speed. Returns whether it did: neither may be zero,
    /// and nothing changes where one is.
    pub fn set_output_sample_rate(&mut self, hertz: u32, speed: u32) -> (done: bool)
        ensures
            done == (hertz >= 1 && speed >= 1),
            done ==> final(self)@ == old(self)@.resampled(hertz as nat, speed as nat),
            !done ==> final(self)@ == old(self)@,
            final(self)@.wf(),
    {
        proof {
            use_type_invariant(&*self);
        }
        if hertz == 0 || speed == 0 {
            false
        } else {
            self.phase = 0;
            self.out_rate = hertz;
            self.speed = speed;
            true
        }
    }

    /// The next sample of the stream, or nothing past the end of the
    /// track. The head moves on either way.
    pub fn next(&mut self) -> (r: Option<i16>)
        ensures
            r == old(self)@.current(),
            final(self)@ == old(self)@.after(1),
            final(self)@.wf(),
    {
        proof {
            use_type_invariant(&*self);
        }
        let ghost before = self@;
        let frames: usize = self.samples.len() / (self.channels as usize);
        let sample = if self.cursor < frames as u64 {
            let lane: usize = if self.lane < self.channels {
                self.lane as usize
            } else {
                (self.channels - 1) as usize
            };
            let cursor: usize = self.cursor as usize;
            let channels: usize = self.channels as usize;
            let len: usize = self.samples.len();
            proof {
                lemma_fundamental_div_mod(len as int, channels as int);
                lemma_mod_bound(len as int, channels as int);
                assert((cursor + 1) * channels <= (len / channels) * channels)
                    by (nonlinear_arith)
                    requires
                        cursor + 1 <= len / channels,
                        0 < channels,
                ;
                assert((cursor + 1) * channels == cursor * channels + channels)
                    by (nonlinear_arith);
                assert((len / channels) * channels == channels * (len / channels))
                    by (nonlinear_arith);
                assert(0 <= cursor * channels) by (nonlinear_arith)
                    requires
                        0 <= cursor,
                        0 <= channels,
                ;
            }
            Some(self.samples[cursor * channels + lane])
        } else {
            None
        };
        proof {
            before.lemma_after_wf(1);
        }
        if self.lane + 1 < self.out_channels {
            proof {
                lemma_basic_div((before.lane + 1) as int, before.out_channels as int);
                lemma_small_mod(before.lane + 1, before.out_channels);
                assert(0 * before.stride() == 0);
                lemma_basic_div(before.phase as int, before.grain() as int);
                lemma_small_mod(before.phase, before.grain());
            }
            self.lane = self.lane + 1;
        } else {
            proof {
                lemma_div_by_self(before.out_channels as int);
                lemma_mod_self_0(before.out_channels as int);
                assert(1 * before.stride() == before.stride());
            }
            assert(self.sample_rate * self.speed <= 0xffff_ffff * 0xffff_ffff)
                by (nonlinear_arith)
                requires
                    self.sample_rate <= 0xffff_ffff,
                    self.speed <= 0xffff_ffff,
            ;
            let stride: u128 = (self.sample_rate as u128) * (self.speed as u128);
            let grain: u128 = (self.out_rate as u128) * 1000;
            let parts: u128 = self.phase as u128 + stride;
            let moved: u128 = parts / grain;
            let room: u64 = u64::MAX - self.cursor;
            proof {
                lemma_mod_bound(parts as int, grain as int);
            }
            self.lane = 0;
            self.cursor = if moved > room as u128 {
                u64::MAX
            } else {
                self.cursor + moved as u64
            };
            self.phase = (parts % grain) as u64;
        }
        sample
    }

    /// Puts the head on the last frame boundary at or before the instant
    /// `target` of track time, a target before the start counting as the
    /// start, and returns the number of output frames that lie before that
    /// boundary. A target past the end is honoured: the stream is then at
    /// its end. Fails, and leaves the track as it is, where the position
    /// does not fit the machine's counters.
    pub fn seek(&mut self, target: i64) -> (r: Result<u64, EngineError>)
        ensures
            r is Ok <==> old(self)@.seekable(clamped(target as int)),
            r matches Ok(reached) ==> final(self)@ == old(self)@.sought(clamped(target as int))
                && reached == final(self)@.reached(),
            r matches Err(e) ==> e == EngineError::SeekError && final(self)@ == old(self)@,
            final(self)@.wf(),
    {
        proof {
            use_type_invariant(&*self);
        }
        let nanos = clamp_to_zero(target);
        match frame_index(nanos, self.sample_rate) {
            None => Err(EngineError::SeekError),
            Some(cursor) => {
                assert(self.sample_rate * self.speed <= 0xffff_ffff * 0xffff_ffff)
                    by (nonlinear_arith)
                    requires
                        self.sample_rate <= 0xffff_ffff,
                        self.speed <= 0xffff_ffff,
                ;
                assert(1 <= self.sample_rate * self.speed) by (nonlinear_arith)
                    requires
                        1 <= self.sample_rate,
                        1 <= self.speed,
                ;
                let stride: u128 = (self.sample_rate as u128) * (self.speed as u128);
                let grain: u128 = (self.out_rate as u128) * 1000;
                assert(cursor * grain <= 0xffff_ffff_ffff_ffff * (0xffff_ffff * 1000))
                    by (nonlinear_arith)
                    requires
                        cursor <= 0xffff_ffff_ffff_ffff,
                        grain <= 0xffff_ffff * 1000,
                ;
                let reached: u128 = (cursor as u128) * grain / stride;
                if reached > u64::MAX as u128 {
                    Err(EngineError::SeekError)
                } else {
                    self.cursor = cursor;
                    self.phase = 0;
                    self.lane = 0;
                    Ok(reached as u64)
                }
            },
        }
    }
}

} // verus!
