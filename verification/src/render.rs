//! The render state: what the hardware callback owns and changes each time
//! the device asks for a buffer.
//!
//! One callback first applies every pending command in the order of
//! sending, then says where playback stands, then fills the buffer.

use std::collections::VecDeque;
use vstd::prelude::*;
use crate::command::Command;
use crate::error::EngineError;
use crate::position::PlaybackPosition;
use crate::track::Track;
use crate::track::TrackView;
use crate::units::clamp_to_zero;
use crate::units::clamped;
use crate::units::position_nanos;
use crate::units::position_of;
use crate::units::saturated;

verus! {

/// The stream format that was agreed with the output device.
#[derive(Clone, Copy, Debug, PartialEq, Eq, Structural)]
pub struct DeviceConfig {
    /// Frames a second.
    pub sample_rate: u32,
    /// Samples in a frame.
    pub channels: u16,
}

/// What a command did besides changing the state.
#[derive(Clone, Copy, Debug, PartialEq, Eq, Structural)]
pub struct Outcome {
    /// The snapshot to put in the position store, if any.
    pub publish: Option<PlaybackPosition>,
    /// The failure to report, if any.
    pub error: Option<EngineError>,
}

/// What one callback hands back besides the filled buffer.
#[derive(Debug)]
pub struct Report {
    /// The snapshot to put in the position store, if any. Later snapshots
    /// replace earlier ones, so this is the last one of the callback.
    pub publish: Option<PlaybackPosition>,
    /// The failures of the commands, in the order of the commands.
    pub errors: Vec<EngineError>,
}

/// The sample that goes out for `sample` at a gain of `volume`
/// thousandths: the product, rounded toward zero and kept inside the
/// 16-bit range. Nothing gives silence.
pub open spec fn amplified(sample: Option<i16>, volume: nat) -> i16 {
    match sample {
        None => 0i16,
        Some(s) => {
            let product = if s >= 0 {
                s * volume / 1000
            } else {
                -((-s) * volume / 1000)
            };
            if product > i16::MAX {
                i16::MAX
            } else if product < i16::MIN {
                i16::MIN
            } else {
                product as i16
            }
        },
    }
}

/// See [`amplified`].
pub fn amplify(sample: Option<i16>, volume: u32) -> (r: i16)
    ensures
        r == amplified(sample, volume as nat),
{
    match sample {
        None => 0,
        Some(s) => {
            let size: i64 = if s >= 0 {
                s as i64
            } else {
                -(s as i64)
            };
            assert(0 <= size * volume <= 0x8000 * 0xffff_ffff) by (nonlinear_arith)
                requires
                    0 <= size <= 0x8000,
                    0 <= volume <= 0xffff_ffff,
            ;
            let scaled: i64 = size * (volume as i64) / 1000;
            let product: i64 = if s >= 0 {
                scaled
            } else {
                -scaled
            };
            if product > i16::MAX as i64 {
                i16::MAX
            } else if product < i16::MIN as i64 {
                i16::MIN
            } else {
                product as i16
            }
        },
    }
}

/// The instant at which the first sample of a buffer is heard: the time of
/// the callback and the latency of the device's output after it, held at
/// the latest instant there is.
pub open spec fn anchor_of(callback: int, latency: int) -> int {
    if callback + latency > i64::MAX {
        i64::MAX as int
    } else {
        callback + latency
    }
}

/// See [`anchor_of`].
pub fn anchor(callback: i64, latency: u64) -> (r: i64)
    ensures
        r == anchor_of(callback as int, latency as int),
{
    let sum: i128 = callback as i128 + latency as i128;
    if sum > i64::MAX as i128 {
        i64::MAX
    } else {
        sum as i64
    }
}

/// What a [`RenderState`] is.
pub ghost struct RenderView {
    /// Frames a second of the device.
    pub rate: nat,
    /// Samples in a frame of the device.
    pub channels: nat,
    /// The track that is loaded, if any.
    pub track: Option<TrackView>,
    /// Whether playback runs.
    pub playing: bool,
    /// Frames that went out for the track so far.
    pub played: nat,
    /// Slots still to be left silent after a seek.
    pub skip: nat,
    /// Gain in thousandths.
    pub volume: nat,
    /// Playback speed in thousandths.
    pub speed: nat,
}

/// A state together with what came out on the way to it.
pub ghost struct Applied {
    pub state: RenderView,
    pub publish: Option<PlaybackPosition>,
    pub error: Option<EngineError>,
}

/// A state together with all that came out while the commands were
/// applied.
pub ghost struct Drained {
    pub state: RenderView,
    pub publish: Option<PlaybackPosition>,
    pub errors: Seq<EngineError>,
}

impl RenderView {
    /// The invariant of a render state: a device with a rate and a
    /// channel, a speed above zero, and a track that is produced for this
    /// device at this speed.
    pub open spec fn wf(self) -> bool {
        &&& 1 <= self.rate <= u32::MAX
        &&& 1 <= self.channels <= u16::MAX
        &&& 1 <= self.speed <= u32::MAX
        &&& self.volume <= u32::MAX
        &&& self.played <= u64::MAX
        &&& self.skip <= u64::MAX
        &&& self.track matches Some(track) ==> {
            &&& track.wf()
            &&& track.out_channels == self.channels
            &&& track.out_rate == self.rate
            &&& track.speed == self.speed
        }
    }

    /// The state of a device thread that has just started.
    pub open spec fn initial(rate: nat, channels: nat) -> RenderView {
        RenderView {
            rate,
            channels,
            track: None,
            playing: false,
            played: 0,
            skip: 0,
            volume: 1000,
            speed: 1000,
        }
    }

    /// The track time at which the next buffer starts.
    pub open spec fn position(self) -> nat {
        position_of(self.played, self.speed, self.rate)
    }

    /// The output frame that holds the instant `nanos` of track time at
    /// the present speed.
    pub open spec fn frame_of(self, nanos: nat) -> nat {
        nanos * self.rate / (self.speed * 1_000_000)
    }

    /// The slots to leave silent after a seek to `nanos` that put the
    /// track's head `reached` output frames in: the frames between the
    /// head and the target, each with all its channels.
    pub open spec fn shortfall(self, nanos: nat, reached: nat) -> nat {
        if self.frame_of(nanos) > reached {
            saturated(((self.frame_of(nanos) - reached) * self.channels) as nat)
        } else {
            0
        }
    }

    /// The snapshot of a state that stands still.
    pub open spec fn paused(self) -> PlaybackPosition {
        PlaybackPosition::Paused { position: self.position() as u64 }
    }

    /// What one command does.
    ///
    /// `Play` and `Pause` set the flag, and `Pause` publishes where
    /// playback stands. `Seek` without a track does nothing. With one, a
    /// seek that the track honours sets the played count to the frames
    /// before the head and the skip count to the shortfall, and publishes
    /// the target while playing and the new position while paused; one
    /// that it refuses reports the failure, leaves the state and, while
    /// paused, publishes the unchanged position again. `LoadMusic` puts
    /// the track, produced for this device at this speed, in place of the
    /// old one and starts counting anew; with no track the state has none.
    /// `SetVolume` sets the gain. `SetSpeed` sets the speed and has the
    /// track produced for it; a speed of zero is ignored.
    pub open spec fn applied(self, cmd: Command) -> Applied {
        match cmd {
            Command::Play => Applied {
                state: RenderView { playing: true, ..self },
                publish: None,
                error: None,
            },
            Command::Pause => Applied {
                state: RenderView { playing: false, ..self },
                publish: Some(self.paused()),
                error: None,
            },
            Command::Seek(target) => match self.track {
                None => Applied { state: self, publish: None, error: None },
                Some(track) => {
                    let nanos = clamped(target as int);
                    if track.seekable(nanos) {
                        let moved = track.sought(nanos);
                        let state = RenderView {
                            track: Some(moved),
                            played: moved.reached(),
                            skip: self.shortfall(nanos, moved.reached()),
                            ..self
                        };
                        Applied {
                            state,
                            publish: Some(
                                if self.playing {
                                    PlaybackPosition::Seeking { target: nanos as u64 }
                                } else {
                                    state.paused()
                                },
                            ),
                            error: None,
                        }
                    } else {
                        Applied {
                            state: self,
                            publish: if self.playing {
                                None
                            } else {
                                Some(self.paused())
                            },
                            error: Some(EngineError::SeekError),
                        }
                    }
                },
            },
            Command::LoadMusic(loaded) => Applied {
                state: RenderView {
                    track: match loaded {
                        Some(track) => Some(track@.adapted(self.channels, self.rate, self.speed)),
                        None => None,
                    },
                    played: 0,
                    skip: 0,
                    ..self
                },
                publish: None,
                error: None,
            },
            Command::SetVolume(gain) => Applied {
                state: RenderView { volume: gain as nat, ..self },
                publish: None,
                error: None,
            },
            Command::SetSpeed(factor) => Applied {
                state: if factor == 0 {
                    self
                } else {
                    RenderView {
                        speed: factor as nat,
                        track: match self.track {
                            Some(track) => Some(track.resampled(self.rate, factor as nat)),
                            None => None,
                        },
                        ..self
                    }
                },
                publish: None,
                error: None,
            },
        }
    }

    /// What a queue of commands does: each is applied to the state that
    /// the one before left, the first first. The snapshot is the last one
    /// that any of them published, and the failures come in the order of
    /// the commands.
    pub open spec fn drained(self, cmds: Seq<Command>) -> Drained
        decreases cmds.len(),
    {
        if cmds.len() == 0 {
            Drained { state: self, publish: None, errors: Seq::empty() }
        } else {
            let first = self.applied(cmds[0]);
            let rest = first.state.drained(cmds.subrange(1, cmds.len() as int));
            Drained {
                state: rest.state,
                publish: if rest.publish is Some {
                    rest.publish
                } else {
                    first.publish
                },
                errors: match first.error {
                    Some(e) => seq![e] + rest.errors,
                    None => rest.errors,
                },
            }
        }
    }

    /// Whether a buffer gets anything but silence: playback runs and a
    /// track is loaded.
    pub open spec fn audible(self) -> bool {
        self.playing && self.track is Some
    }

    /// The snapshot that a callback publishes before it fills the buffer:
    /// while audible, that playback runs from the present position at the
    /// instant `anchor`; else nothing.
    pub open spec fn running(self, anchor: int) -> Option<PlaybackPosition> {
        if self.audible() {
            Some(
                PlaybackPosition::Playing {
                    position: self.position() as u64,
                    anchor: anchor as i64,
                    speed: self.speed as u32,
                },
            )
        } else {
            None
        }
    }

    /// The snapshot that a callback at the instant `anchor` hands back for
    /// the store after it applied `cmds`: that playback runs, where it
    /// does, and else the last snapshot of the commands, if any.
    pub open spec fn reported(self, cmds: Seq<Command>, anchor: int) -> Option<PlaybackPosition> {
        match self.drained(cmds).state.running(anchor) {
            Some(running) => Some(running),
            None => self.drained(cmds).publish,
        }
    }

    /// The slots at the start of a buffer of `n` that the skip count
    /// silences.
    pub open spec fn skipped(self, n: nat) -> nat {
        if !self.audible() {
            0
        } else if self.skip < n {
            self.skip
        } else {
            n
        }
    }

    /// The slots of a buffer of `n` that are drawn from the track.
    pub open spec fn drawn(self, n: nat) -> nat {
        if self.audible() {
            (n - self.skipped(n)) as nat
        } else {
            0
        }
    }

    /// The sample in slot `i` of a buffer of `n`: silence while nothing is
    /// audible and in the skipped slots, then the track's samples in turn,
    /// each at the present gain, and silence again past the track's end.
    pub open spec fn slot(self, n: nat, i: int) -> i16 {
        if !self.audible() || i < self.skipped(n) {
            0
        } else {
            amplified(self.track->0.nth((i - self.skipped(n)) as nat), self.volume)
        }
    }

    /// The buffer of `n` slots that a callback fills.
    pub open spec fn buffer(self, n: nat) -> Seq<i16> {
        Seq::new(n, |i: int| self.slot(n, i))
    }

    /// The state after a buffer of `n` slots was filled: the skip count is
    /// down by the skipped slots, the track has given the drawn ones, and
    /// the played count is up by the whole frames among them, held at the
    /// 64-bit limit. Nothing changes while nothing is audible.
    pub open spec fn rendered(self, n: nat) -> RenderView {
        if !self.audible() {
            self
        } else {
            RenderView {
                skip: (self.skip - self.skipped(n)) as nat,
                track: Some(self.track->0.after(self.drawn(n))),
                played: saturated(self.played + self.drawn(n) / self.channels),
                ..self
            }
        }
    }
}

/// The state that the hardware callback owns: the track, the flags, the
/// counters and the settings. It is made once, when the device thread
/// starts, and changed only inside the callback.
#[derive(Debug)]
pub struct RenderState {
    device: DeviceConfig,
    current_track: Option<Track>,
    playing: bool,
    played_sample_count: u64,
    skip_sample_count: u64,
    volume: u32,
    speed: u32,
}

impl View for RenderState {
    type V = RenderView;

    closed spec fn view(&self) -> RenderView {
        RenderView {
            rate: self.device.sample_rate as nat,
            channels: self.device.channels as nat,
            track: match self.current_track {
                Some(track) => Some(track@),
                None => None,
            },
            playing: self.playing,
            played: self.played_sample_count as nat,
            skip: self.skip_sample_count as nat,
            volume: self.volume as nat,
            speed: self.speed as nat,
        }
    }
}

/// Fills the buffer with silence.
fn silence(buffer: &mut Vec<i16>)
    ensures
        final(buffer)@.len() == old(buffer)@.len(),
        forall|i: int| 0 <= i < final(buffer)@.len() ==> final(buffer)@[i] == 0,
{
    let n = buffer.len();
    let mut i: usize = 0;
    while i < n
        invariant
            i <= n,
            buffer@.len() == n,
            forall|j: int| 0 <= j < i ==> buffer@[j] == 0,
        decreases n - i,
    {
        buffer.set(i, 0);
        i = i + 1;
    }
}

impl RenderState {
    /// Every render state is valid.
    #[verifier::type_invariant]
    closed spec fn valid(self) -> bool {
        self@.wf()
    }

    /// The state for a device thread that has just started on `device`:
    /// no track, not playing, nothing played, unit gain and unit speed.
    /// There is none for a device without a rate or without a channel.
    pub fn new(device: DeviceConfig) -> (r: Result<RenderState, EngineError>)
        ensures
            r is Ok <==> device.sample_rate >= 1 && device.channels >= 1,
            r matches Ok(state) ==> state@.wf() && state@ == RenderView::initial(
                device.sample_rate as nat,
                device.channels as nat,
            ),
            r matches Err(e) ==> e == EngineError::DeviceError,
    {
        if device.sample_rate == 0 || device.channels == 0 {
            Err(EngineError::DeviceError)
        } else {
            Ok(
                RenderState {
                    device,
                    current_track: None,
                    playing: false,
                    played_sample_count: 0,
                    skip_sample_count: 0,
                    volume: 1000,
                    speed: 1000,
                },
            )
        }
    }

    /// Whether playback runs.
    pub fn is_playing(&self) -> (r: bool)
        ensures
            r == self@.playing,
    {
        self.playing
    }

    /// Whether a track is loaded.
    pub fn has_track(&self) -> (r: bool)
        ensures
            r == (self@.track is Some),
    {
        self.current_track.is_some()
    }

    /// Frames that went out for the track so far.
    pub fn played_sample_count(&self) -> (r: u64)
        ensures
            r == self@.played,
    {
        self.played_sample_count
    }

    /// Slots still to be left silent after a seek.
    pub fn skip_sample_count(&self) -> (r: u64)
        ensures
            r == self@.skip,
    {
        self.skip_sample_count
    }

    /// Gain in thousandths.
    pub fn volume(&self) -> (r: u32)
        ensures
            r == self@.volume,
    {
        self.volume
    }

    /// Playback speed in thousandths.
    pub fn speed(&self) -> (r: u32)
        ensures
            r == self@.speed,
    {
        self.speed
    }

    /// The track time at which the next buffer starts.
    pub fn position(&self) -> (r: u64)
        ensures
            r == self@.position(),
    {
        proof {
            use_type_invariant(self);
        }
        position_nanos(self.played_sample_count, self.speed, self.device.sample_rate)
    }

    /// The slots to leave silent after a seek, see
    /// [`RenderView::shortfall`].
    fn shortfall(&self, nanos: u64, reached: u64) -> (r: u64)
        ensures
            r == self@.shortfall(nanos as nat, reached as nat),
    {
        proof {
            use_type_invariant(self);
        }
        assert(nanos * self.device.sample_rate <= 0xffff_ffff_ffff_ffff * 0xffff_ffff)
            by (nonlinear_arith)
            requires
                nanos <= 0xffff_ffff_ffff_ffff,
                self.device.sample_rate <= 0xffff_ffff,
        ;
        let divisor: u128 = (self.speed as u128) * 1_000_000;
        let target: u128 = (nanos as u128) * (self.device.sample_rate as u128) / divisor;
        if target > reached as u128 {
            let gap: u128 = target - reached as u128;
            assert(gap * self.device.channels <= 0xffff_ffff_ffff_ffff * 0xffff_ffff * 0xffff)
                by (nonlinear_arith)
                requires
                    gap <= 0xffff_ffff_ffff_ffff * 0xffff_ffff,
                    self.device.channels <= 0xffff,
            ;
            let slots: u128 = gap * (self.device.channels as u128);
            if slots > u64::MAX as u128 {
                u64::MAX
            } else {
                slots as u64
            }
        } else {
            0
        }
    }

    /// Applies one command, see [`RenderView::applied`].
    pub fn apply(&mut self, cmd: Command) -> (out: Outcome)
        ensures
            final(self)@ == old(self)@.applied(cmd).state,
            out.publish == old(self)@.applied(cmd).publish,
            out.error == old(self)@.applied(cmd).error,
            final(self)@.wf(),
    {
        proof {
            use_type_invariant(&*self);
        }
        match cmd {
            Command::Play => {
                self.playing = true;
                Outcome { publish: None, error: None }
            },
            Command::Pause => {
                let position = self.position();
                self.playing = false;
                Outcome { publish: Some(PlaybackPosition::Paused { position }), error: None }
            },
            Command::Seek(target) => {
                let mut loaded: Option<Track> = None;
                core::mem::swap(&mut self.current_track, &mut loaded);
                match loaded {
                    None => Outcome { publish: None, error: None },
                    Some(mut track) => {
                        let result = track.seek(target);
                        self.current_track = Some(track);
                        match result {
                            Ok(reached) => {
                                let nanos = clamp_to_zero(target);
                                self.skip_sample_count = self.shortfall(nanos, reached);
                                self.played_sample_count = reached;
                                let publish = if self.playing {
                                    PlaybackPosition::Seeking { target: nanos }
                                } else {
                                    PlaybackPosition::Paused { position: self.position() }
                                };
                                Outcome { publish: Some(publish), error: None }
                            },
                            Err(e) => {
                                let publish = if self.playing {
                                    None
                                } else {
                                    Some(PlaybackPosition::Paused { position: self.position() })
                                };
                                Outcome { publish, error: Some(e) }
                            },
                        }
                    },
                }
            },
            Command::LoadMusic(loaded) => {
                match loaded {
                    Some(mut track) => {
                        track.set_output(self.device.channels, self.device.sample_rate, self.speed);
                        self.current_track = Some(track);
                    },
                    None => {
                        self.current_track = None;
                    },
                }
                self.played_sample_count = 0;
                self.skip_sample_count = 0;
                Outcome { publish: None, error: None }
            },
            Command::SetVolume(gain) => {
                self.volume = gain;
                Outcome { publish: None, error: None }
            },
            Command::SetSpeed(factor) => {
                if factor != 0 {
                    let mut loaded: Option<Track> = None;
                    core::mem::swap(&mut self.current_track, &mut loaded);
                    self.speed = factor;
                    match loaded {
                        None => {},
                        Some(mut track) => {
                            track.set_output_sample_rate(self.device.sample_rate, factor);
                            self.current_track = Some(track);
                        },
                    }
                }
                Outcome { publish: None, error: None }
            },
        }
    }

    /// Applies every pending command, the first first, and leaves the
    /// queue empty, see [`RenderView::drained`].
    pub fn drain(&mut self, pending: &mut VecDeque<Command>) -> (report: Report)
        ensures
            final(pending)@.len() == 0,
            final(self)@ == old(self)@.drained(old(pending)@).state,
            report.publish == old(self)@.drained(old(pending)@).publish,
            report.errors@ == old(self)@.drained(old(pending)@).errors,
            final(self)@.wf(),
    {
        let ghost total = self@.drained(pending@);
        let mut publish: Option<PlaybackPosition> = None;
        let mut errors: Vec<EngineError> = Vec::new();
        while pending.len() > 0
            invariant
                total.state == self@.drained(pending@).state,
                total.publish == if self@.drained(pending@).publish is Some {
                    self@.drained(pending@).publish
                } else {
                    publish
                },
                total.errors == errors@ + self@.drained(pending@).errors,
            decreases pending@.len(),
        {
            let ghost before = self@;
            let ghost queue = pending@;
            match pending.pop_front() {
                Some(cmd) => {
                    let out = self.apply(cmd);
                    proof {
                        let first = before.applied(cmd);
                        let rest = first.state.drained(pending@);
                        match first.error {
                            Some(e) => {
                                assert(errors@.push(e) + rest.errors == errors@ + (seq![e]
                                    + rest.errors));
                            },
                            None => {},
                        }
                    }
                    if out.publish.is_some() {
                        publish = out.publish;
                    }
                    match out.error {
                        Some(e) => {
                            errors.push(e);
                        },
                        None => {},
                    }
                },
                None => {},
            }
        }
        proof {
            use_type_invariant(&*self);
        }
        Report { publish, errors }
    }

    /// Fills every slot of the buffer and counts what went out, see
    /// [`RenderView::buffer`] and [`RenderView::rendered`].
    pub fn fill(&mut self, buffer: &mut Vec<i16>)
        ensures
            final(buffer)@ == old(self)@.buffer(old(buffer)@.len()),
            final(self)@ == old(self)@.rendered(old(buffer)@.len()),
            final(self)@.wf(),
    {
        proof {
            use_type_invariant(&*self);
        }
        let ghost start = self@;
        let n = buffer.len();
        if !self.playing {
            silence(buffer);
            assert(buffer@ =~= start.buffer(n as nat));
            return ;
        }
        let mut loaded: Option<Track> = None;
        core::mem::swap(&mut self.current_track, &mut loaded);
        match loaded {
            None => {
                silence(buffer);
                assert(buffer@ =~= start.buffer(n as nat));
            },
            Some(mut track) => {
                let ghost origin = track@;
                let mut skip: u64 = self.skip_sample_count;
                let mut drawn: usize = 0;
                let mut i: usize = 0;
                proof {
                    origin.lemma_after_zero();
                }
                while i < n
                    invariant
                        i <= n,
                        buffer@.len() == n,
                        start.wf(),
                        start.audible(),
                        start.track == Some(origin),
                        start.volume == self.volume,
                        start.skip >= i ==> skip == start.skip - i && drawn == 0,
                        start.skip < i ==> skip == 0 && drawn == i - start.skip,
                        track@ == origin.after(drawn as nat),
                        track@.wf(),
                        forall|j: int| 0 <= j < i ==> buffer@[j] == start.slot(n as nat, j),
                    decreases n - i,
                {
                    if skip > 0 {
                        skip = skip - 1;
                        buffer.set(i, 0);
                    } else {
                        proof {
                            origin.lemma_after_after(drawn as nat, 1);
                        }
                        let sample = track.next();
                        buffer.set(i, amplify(sample, self.volume));
                        drawn = drawn + 1;
                    }
                    i = i + 1;
                }
                let frames: u64 = (drawn / (self.device.channels as usize)) as u64;
                self.skip_sample_count = skip;
                self.played_sample_count = self.played_sample_count.saturating_add(frames);
                self.current_track = Some(track);
                assert(buffer@ =~= start.buffer(n as nat));
            },
        }
    }
}

/// One hardware callback, at the instant `callback` on a device whose
/// output is heard `latency` nanoseconds later. It applies every pending
/// command in the order of sending and leaves the queue empty; then, while
/// a track plays, it publishes that playback runs from the position at
/// which this buffer starts, as of the instant at which the buffer is
/// heard; then it fills every slot of the buffer. The report holds the
/// last snapshot that was published, if any, and the failures of the
/// commands.
pub fn render(
    audio: &mut RenderState,
    pending: &mut VecDeque<Command>,
    callback: i64,
    latency: u64,
    buffer: &mut Vec<i16>,
) -> (report: Report)
    ensures
        final(pending)@.len() == 0,
        final(audio)@ == old(audio)@.drained(old(pending)@).state.rendered(old(buffer)@.len()),
        final(buffer)@ == old(audio)@.drained(old(pending)@).state.buffer(old(buffer)@.len()),
        report.publish == old(audio)@.reported(
            old(pending)@,
            anchor_of(callback as int, latency as int),
        ),
        report.errors@ == old(audio)@.drained(old(pending)@).errors,
        final(audio)@.wf(),
{
    let drained = audio.drain(pending);
    let publish = if audio.playing && audio.current_track.is_some() {
        Some(
            PlaybackPosition::Playing {
                position: audio.position(),
                anchor: anchor(callback, latency),
                speed: audio.speed,
            },
        )
    } else {
        drained.publish
    };
    audio.fill(buffer);
    Report { publish, errors: drained.errors }
}

} // verus!
