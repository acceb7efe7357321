//! What holds of the engine as a whole, proved from the definitions of the
//! render state, the track and the position snapshot.

use vstd::prelude::*;
use crate::arith::lemma_div_monotone;
use crate::command::Command;
use crate::position::PlaybackPosition;
use crate::render::RenderView;
use crate::units::clamped;
use crate::units::frame_at;
use crate::units::position_of;

verus! {

/// Pausing twice is pausing once: the second `Pause` leaves the state that
/// the first one left and publishes the same snapshot, whether the two
/// come in one callback or in two.
pub proof fn law_pause_idempotent(s: RenderView)
    requires
        s.wf(),
    ensures
        s.applied(Command::Pause).state.applied(Command::Pause) == s.applied(Command::Pause),
        s.drained(seq![Command::Pause, Command::Pause]) == s.drained(seq![Command::Pause]),
{
    let once = s.applied(Command::Pause);
    let twice = seq![Command::Pause, Command::Pause];
    let single = seq![Command::Pause];
    assert(twice.subrange(1, 2) =~= single);
    assert(single.subrange(1, 1) =~= Seq::<Command>::empty());
    reveal_with_fuel(RenderView::drained, 3);
    assert(once.state.drained(single).state == once.state);
    assert(s.drained(twice).errors =~= s.drained(single).errors);
}

/// Pausing and resuming loses no position. After `Pause`, callbacks of any
/// size change nothing and fill their buffers with silence; after `Play`
/// the state stands where it stood at the pause. The snapshot of the pause
/// is frozen at that position, and the snapshot of the first callback after
/// the resume starts from it and adds only the time since that callback's
/// anchor, at the speed of playback.
pub proof fn law_pause_resume_continuous(s: RenderView, n: nat, anchor: i64, now: int)
    requires
        s.wf(),
    ensures
        ({
            let paused = s.applied(Command::Pause);
            let resumed = paused.state.rendered(n).applied(Command::Play).state;
            &&& paused.publish == Some(
                PlaybackPosition::Paused { position: s.position() as u64 },
            )
            &&& paused.state.rendered(n) == paused.state
            &&& forall|i: int| 0 <= i < n ==> paused.state.buffer(n)[i] == 0
            &&& resumed.playing
            &&& resumed.position() == s.position()
            &&& s.track is Some ==> resumed.running(anchor as int) is Some
                && resumed.running(anchor as int)->0.at(now) == Some(
                s.position() + s.speed * (now - anchor) / 1000,
            )
        }),
{
}

/// While playback runs, the position that a snapshot stands for never
/// goes back as time goes on.
pub proof fn law_playing_monotonic(position: u64, anchor: i64, speed: u32, earlier: int, later: int)
    requires
        earlier <= later,
    ensures
        ({
            let snapshot = PlaybackPosition::Playing { position, anchor, speed };
            snapshot.at(earlier)->0 <= snapshot.at(later)->0
        }),
{
    assert(speed * (earlier - anchor) <= speed * (later - anchor)) by (nonlinear_arith)
        requires
            earlier <= later,
            0 <= speed,
    ;
}

/// At twice the speed the position moves twice as fast: over the same
/// time since the anchor, a snapshot at speed two has gained exactly twice
/// what a snapshot at speed one has, and at any speed `v` the gain at `2v`
/// is twice the gain at `v` or one nanosecond more.
pub proof fn law_speed_doubles_rate(position: u64, anchor: i64, speed: u32, now: int)
    requires
        2 * speed <= u32::MAX,
    ensures
        ({
            let single = PlaybackPosition::Playing { position, anchor, speed: 1000 };
            let double = PlaybackPosition::Playing { position, anchor, speed: 2000 };
            double.at(now)->0 - position == 2 * (single.at(now)->0 - position)
        }),
        ({
            let slow = PlaybackPosition::Playing { position, anchor, speed };
            let fast = PlaybackPosition::Playing { position, anchor, speed: (2 * speed) as u32 };
            let gain = slow.at(now)->0 - position;
            2 * gain <= fast.at(now)->0 - position <= 2 * gain + 1
        }),
{
    let elapsed = now - anchor;
    assert(2000 * elapsed / 1000 == 2 * elapsed);
    assert(1000 * elapsed / 1000 == elapsed);
    let product = speed * elapsed;
    assert((2 * speed) * elapsed == 2 * product) by (nonlinear_arith)
        requires
            product == speed * elapsed,
    ;
}

/// `SetSpeed` takes effect in the next snapshot and in the track: after
/// it, the snapshot of a running state carries the new speed, and each
/// output frame moves the track's head in proportion to it.
pub proof fn law_set_speed_applies(s: RenderView, factor: u32, anchor: i64)
    requires
        s.wf(),
        factor >= 1,
        s.audible(),
    ensures
        ({
            let after = s.applied(Command::SetSpeed(factor)).state;
            &&& after.wf()
            &&& after.running(anchor as int) matches Some(
                PlaybackPosition::Playing { speed, .. },
            ) && speed == factor
            &&& after.track->0.stride() == s.track->0.sample_rate * factor
        }),
{
}

/// A seek to a time before the start is a seek to the start: it does what
/// `Seek(0)` does, and with a track loaded that is to stand at position
/// zero with nothing to skip.
pub proof fn law_seek_negative_clamps(s: RenderView, target: i64)
    requires
        s.wf(),
        target < 0,
    ensures
        s.applied(Command::Seek(target)) == s.applied(Command::Seek(0)),
        s.track is Some ==> {
            let after = s.applied(Command::Seek(target));
            &&& after.error is None
            &&& after.state.played == 0
            &&& after.state.skip == 0
            &&& after.state.position() == 0
            &&& after.publish == Some(
                if s.playing {
                    PlaybackPosition::Seeking { target: 0 }
                } else {
                    PlaybackPosition::Paused { position: 0 }
                },
            )
        },
{
    if s.track is Some {
        let track = s.track->0;
        assert(frame_at(0, track.sample_rate) == 0);
        assert(0 * track.grain() == 0);
        assert(1 <= track.stride()) by (nonlinear_arith)
            requires
                1 <= track.sample_rate,
                1 <= track.speed,
                track.stride() == track.sample_rate * track.speed,
        ;
        assert(0nat / track.stride() == 0) by (nonlinear_arith)
            requires
                1 <= track.stride(),
        ;
        assert(0 * s.rate == 0);
        assert(s.frame_of(0) == 0) by (nonlinear_arith)
            requires
                s.frame_of(0) == 0nat * s.rate / (s.speed * 1_000_000),
                1 <= s.speed,
        ;
        assert(0 * s.speed * 1_000_000 == 0);
        assert(position_of(0, s.speed, s.rate) == 0) by (nonlinear_arith)
            requires
                position_of(0, s.speed, s.rate) == crate::units::saturated(
                    0nat * s.speed * 1_000_000 / s.rate,
                ),
                1 <= s.rate,
        ;
    }
}

/// A seek past the end of the track is honoured, and leaves the track at
/// its end.
pub proof fn law_seek_past_end(s: RenderView, target: i64)
    requires
        s.wf(),
        s.track is Some,
        s.track->0.seekable(clamped(target as int)),
        frame_at(clamped(target as int), s.track->0.sample_rate) >= s.track->0.frames(),
    ensures
        ({
            let after = s.applied(Command::Seek(target));
            &&& after.error is None
            &&& after.state.wf()
            &&& after.state.playing == s.playing
            &&& after.state.track is Some
            &&& after.state.track->0.ended()
        }),
{
    lemma_applied_wf(s, Command::Seek(target));
}

/// Past the end of the track playback goes on in silence. A state whose
/// track is at its end fills every buffer with silence and is left by the
/// callback with its track at the end again, so that all later buffers are
/// silent too. Playback does not stop by itself: a state that was playing
/// still is, still publishes that it is, and its position does not go
/// back.
pub proof fn law_ended_is_silent(s: RenderView, n: nat, anchor: i64)
    requires
        s.wf(),
        s.track is Some,
        s.track->0.ended(),
    ensures
        forall|i: int| 0 <= i < n ==> s.buffer(n)[i] == 0,
        s.rendered(n).wf(),
        s.rendered(n).track is Some,
        s.rendered(n).track->0.ended(),
        s.rendered(n).playing == s.playing,
        s.playing ==> s.rendered(n).running(anchor as int) is Some,
        s.position() <= s.rendered(n).position(),
{
    lemma_rendered_wf(s, n);
    law_position_advances(s, n);
    if s.audible() {
        let track = s.track->0;
        track.lemma_ended_stays(s.drawn(n));
        assert forall|i: int| 0 <= i < n implies s.buffer(n)[i] == 0 by {
            if i >= s.skipped(n) {
                track.lemma_ended_stays((i - s.skipped(n)) as nat);
            }
        }
    }
}

/// Every command leaves a valid state valid.
pub proof fn lemma_applied_wf(s: RenderView, cmd: Command)
    requires
        s.wf(),
        cmd.wf(),
    ensures
        s.applied(cmd).state.wf(),
{
    match cmd {
        Command::Seek(target) => {
            if s.track is Some {
                let track = s.track->0;
                let nanos = clamped(target as int);
                assert(0 < track.grain());
            }
        },
        Command::LoadMusic(loaded) => {
            if loaded is Some {
                assert(0 < s.rate * 1000);
            }
        },
        Command::SetSpeed(factor) => {
            if s.track is Some {
                assert(0 < s.rate * 1000);
            }
        },
        _ => {},
    }
}

/// Every callback leaves a valid state valid.
pub proof fn lemma_rendered_wf(s: RenderView, n: nat)
    requires
        s.wf(),
    ensures
        s.rendered(n).wf(),
{
    if s.audible() {
        s.track->0.lemma_after_wf(s.drawn(n));
    }
}

/// From callback to callback the position at which a buffer starts never
/// goes back: filling a buffer does not lower it.
pub proof fn law_position_advances(s: RenderView, n: nat)
    requires
        s.wf(),
    ensures
        s.position() <= s.rendered(n).position(),
{
    if s.audible() {
        let later = s.rendered(n).played;
        assert(s.played <= later);
        assert(s.played * s.speed * 1_000_000 <= later * s.speed * 1_000_000)
            by (nonlinear_arith)
            requires
                s.played <= later,
                0 <= s.speed,
        ;
        lemma_div_monotone(
            (s.played * s.speed * 1_000_000) as int,
            (later * s.speed * 1_000_000) as int,
            s.rate as int,
        );
    }
}

/// A buffer is worth the track time of its frames. Below the limits of the
/// counters, filling a buffer while a track plays moves the position by
/// `frames * speed * 10^6 / rate` nanoseconds, where `frames` is the
/// number of whole frames that were not skipped, or by one nanosecond
/// more where the roundings add up. So the position moves in proportion
/// to the speed, and while nothing is audible it does not move at all.
pub proof fn law_buffer_is_worth(s: RenderView, n: nat)
    requires
        s.wf(),
        s.played + s.drawn(n) / s.channels <= u64::MAX,
        (s.played + s.drawn(n) / s.channels) * s.speed * 1_000_000 / s.rate <= u64::MAX,
    ensures
        ({
            let frames = s.drawn(n) / s.channels;
            let worth = frames * s.speed * 1_000_000 / s.rate;
            let moved = s.rendered(n).position() - s.position();
            &&& worth <= moved <= worth + 1
            &&& !s.audible() ==> moved == 0
        }),
{
    let frames = s.drawn(n) / s.channels;
    let before = s.played * s.speed * 1_000_000;
    let more = frames * s.speed * 1_000_000;
    law_position_advances(s, n);
    if s.audible() {
        assert((s.played + frames) * s.speed * 1_000_000 == before + more) by (nonlinear_arith)
            requires
                before == s.played * s.speed * 1_000_000,
                more == frames * s.speed * 1_000_000,
        ;
        vstd::arithmetic::div_mod::lemma_div_pos_is_pos(s.drawn(n) as int, s.channels as int);
        assert(0 <= more) by (nonlinear_arith)
            requires
                more == frames * s.speed * 1_000_000,
                0 <= frames,
                0 <= s.speed,
        ;
        assert(0 <= before) by (nonlinear_arith)
            requires
                before == s.played * s.speed * 1_000_000,
                0 <= s.played,
                0 <= s.speed,
        ;
        crate::arith::lemma_div_mod_split(before as int, more as int, s.rate as int);
        crate::arith::lemma_div_mod_split(more as int, (before % s.rate) as int, s.rate as int);
        vstd::arithmetic::div_mod::lemma_mod_bound(before as int, s.rate as int);
        vstd::arithmetic::div_mod::lemma_mod_bound(more as int, s.rate as int);
        vstd::arithmetic::div_mod::lemma_basic_div(
            (before % s.rate) as int,
            s.rate as int,
        );
        lemma_div_monotone(before as int, (before + more) as int, s.rate as int);
        // The quotient of the two remainders together is zero or one.
        let left = (more % s.rate + before % s.rate) as int;
        assert(left / (s.rate as int) <= 1) by {
            lemma_div_monotone(left, 2 * s.rate - 1, s.rate as int);
            vstd::arithmetic::div_mod::lemma_fundamental_div_mod_converse(
                2 * s.rate - 1,
                s.rate as int,
                1,
                s.rate - 1,
            );
        }
        vstd::arithmetic::div_mod::lemma_div_pos_is_pos(left, s.rate as int);
    } else {
        assert(0 * s.speed * 1_000_000 == 0);
    }
}

/// A load that failed leaves silence: after `LoadMusic` without a track
/// the state has none, and every buffer is silence until a track is
/// loaded.
pub proof fn law_failed_load_is_silent(s: RenderView, n: nat)
    requires
        s.wf(),
    ensures
        ({
            let after = s.applied(Command::LoadMusic(None)).state;
            &&& after.wf()
            &&& after.track is None
            &&& after.rendered(n) == after
            &&& forall|i: int| 0 <= i < n ==> after.buffer(n)[i] == 0
        }),
{
}

/// The track time between the instant `nanos` and the start of the output
/// frame that a seek to it lands on is less than one source frame and one
/// output frame: `q <= nanos <= q + 10^9 / source + speed * 10^6 / rate + 2`
/// where `q` is the position that stands for the frames before the head.
proof fn lemma_seek_error_bound(nanos: int, source: int, rate: int, speed: int)
    requires
        0 <= nanos,
        1 <= source,
        1 <= rate,
        1 <= speed,
    ensures
        ({
            let cursor = nanos * source / 1_000_000_000;
            let reached = cursor * (rate * 1000) / (source * speed);
            let q = reached * speed * 1_000_000 / rate;
            &&& 0 <= q <= nanos
            &&& nanos - q <= 1_000_000_000int / source + speed * 1_000_000 / rate + 2
        }),
{
    let ns = nanos * source;
    let cursor = ns / 1_000_000_000;
    let grain = rate * 1000;
    let stride = source * speed;
    let cg = cursor * grain;
    let reached = cg / stride;
    let rv = reached * speed * 1_000_000;
    let q = rv / rate;
    let sd = source * rate;
    let a = 1_000_000_000int / source;
    let b = speed * 1_000_000 / rate;
    assert(0 <= ns) by (nonlinear_arith)
        requires
            ns == nanos * source,
            0 <= nanos,
            0 <= source,
    ;
    assert(1 <= stride) by (nonlinear_arith)
        requires
            stride == source * speed,
            1 <= source,
            1 <= speed,
    ;
    assert(1 <= sd) by (nonlinear_arith)
        requires
            sd == source * rate,
            1 <= source,
            1 <= rate,
    ;
    assert(0 <= cursor);
    assert(0 <= cg) by (nonlinear_arith)
        requires
            cg == cursor * grain,
            0 <= cursor,
            0 <= grain,
    ;
    vstd::arithmetic::div_mod::lemma_fundamental_div_mod(cg, stride);
    vstd::arithmetic::div_mod::lemma_mod_bound(cg, stride);
    vstd::arithmetic::div_mod::lemma_div_pos_is_pos(cg, stride);
    assert(0 <= rv) by (nonlinear_arith)
        requires
            rv == reached * speed * 1_000_000,
            0 <= reached,
            0 <= speed,
    ;
    vstd::arithmetic::div_mod::lemma_fundamental_div_mod(rv, rate);
    vstd::arithmetic::div_mod::lemma_mod_bound(rv, rate);
    vstd::arithmetic::div_mod::lemma_div_pos_is_pos(rv, rate);
    vstd::arithmetic::div_mod::lemma_fundamental_div_mod(1_000_000_000, source);
    vstd::arithmetic::div_mod::lemma_mod_bound(1_000_000_000, source);
    vstd::arithmetic::div_mod::lemma_fundamental_div_mod(speed * 1_000_000, rate);
    vstd::arithmetic::div_mod::lemma_mod_bound(speed * 1_000_000, rate);
    // The three roundings, each as a pair of bounds on a product.
    let tr = stride * reached;
    let dq = rate * q;
    assert(tr <= cg < tr + stride);
    assert(dq <= rv < dq + rate);
    assert(1_000_000_000 * cursor <= ns < 1_000_000_000 * cursor + 1_000_000_000);
    // Both sides are brought to the common scale `source * rate`.
    assert(rv * source == tr * 1_000_000) by (nonlinear_arith)
        requires
            rv == reached * speed * 1_000_000,
            tr == (source * speed) * reached,
    ;
    assert(cg * 1_000_000 == (1_000_000_000 * cursor) * rate) by (nonlinear_arith)
        requires
            cg == cursor * (rate * 1000),
    ;
    assert(dq * source == q * sd) by (nonlinear_arith)
        requires
            dq == rate * q,
            sd == source * rate,
    ;
    assert(ns * rate == nanos * sd) by (nonlinear_arith)
        requires
            ns == nanos * source,
            sd == source * rate,
    ;
    assert(dq * source <= rv * source < dq * source + sd) by (nonlinear_arith)
        requires
            dq <= rv < dq + rate,
            1 <= source,
            sd == source * rate,
    ;
    assert((1_000_000_000 * cursor) * rate <= ns * rate < (1_000_000_000 * cursor) * rate
        + 1_000_000_000 * rate) by (nonlinear_arith)
        requires
            1_000_000_000 * cursor <= ns < 1_000_000_000 * cursor + 1_000_000_000,
            1 <= rate,
    ;
    assert(q * sd <= nanos * sd);
    assert(q <= nanos) by (nonlinear_arith)
        requires
            q * sd <= nanos * sd,
            1 <= sd,
    ;
    assert((a + 1) * source == source * a + source) by (nonlinear_arith);
    assert((b + 1) * rate == rate * b + rate) by (nonlinear_arith);
    assert(1_000_000_000 * rate < (a + 1) * sd) by (nonlinear_arith)
        requires
            1_000_000_000 < (a + 1) * source,
            1 <= rate,
            sd == source * rate,
    ;
    assert(stride * 1_000_000 < (b + 1) * sd) by (nonlinear_arith)
        requires
            speed * 1_000_000 < (b + 1) * rate,
            1 <= source,
            sd == source * rate,
            stride == source * speed,
    ;
    assert(nanos * sd < (q + a + b + 3) * sd) by (nonlinear_arith)
        requires
            nanos * sd < q * sd + sd + 1_000_000_000 * rate + stride * 1_000_000,
            1_000_000_000 * rate < (a + 1) * sd,
            stride * 1_000_000 < (b + 1) * sd,
    ;
    assert(nanos < q + a + b + 3) by (nonlinear_arith)
        requires
            nanos * sd < (q + a + b + 3) * sd,
            1 <= sd,
    ;
}

/// A seek lands on its target. With a track loaded, a seek that the track
/// honours reports no failure and leaves the state at a position that is
/// not after the target, taken as zero where it is negative, and before
/// it by less than one frame of the track and one frame of the output:
/// by at most `10^9 / sample_rate + speed * 10^6 / rate + 2` nanoseconds.
/// That position is what the control side then reads: frozen in the
/// snapshot of a paused state, and as the start of the running snapshot
/// that the callback of the seek publishes.
pub proof fn law_seek_lands_near_target(s: RenderView, target: i64, anchor: i64)
    requires
        s.wf(),
        s.track is Some,
        s.track->0.seekable(clamped(target as int)),
    ensures
        ({
            let nanos = clamped(target as int);
            let after = s.applied(Command::Seek(target));
            let landed = after.state.position();
            &&& after.error is None
            &&& after.state.wf()
            &&& landed <= nanos
            &&& nanos - landed <= 1_000_000_000nat / s.track->0.sample_rate + s.speed * 1_000_000
                / s.rate + 2
            &&& !s.playing ==> after.publish == Some(
                PlaybackPosition::Paused { position: landed as u64 },
            )
            &&& s.playing ==> after.publish == Some(
                PlaybackPosition::Seeking { target: nanos as u64 },
            ) && after.state.running(anchor as int) == Some(
                PlaybackPosition::Playing {
                    position: landed as u64,
                    anchor,
                    speed: s.speed as u32,
                },
            )
        }),
{
    let track = s.track->0;
    let nanos = clamped(target as int);
    lemma_applied_wf(s, Command::Seek(target));
    lemma_seek_error_bound(
        nanos as int,
        track.sample_rate as int,
        s.rate as int,
        s.speed as int,
    );
}

/// A seek is seen at once and stays seen. The control side announces the
/// seek in the position store and sends it; the next callback applies it
/// and hands back its snapshot. Whatever the store held, and whether or
/// not a track is loaded or playback runs, the store then stands for a
/// position that is not after the target, taken as zero where it is
/// negative, and before it by at most one frame of the track and one of
/// the output, unless the track refuses the seek.
pub proof fn law_seek_then_read(s: RenderView, store: PlaybackPosition, target: i64, anchor: i64)
    requires
        s.wf(),
        s.track matches Some(track) ==> track.seekable(clamped(target as int)),
    ensures
        ({
            let nanos = clamped(target as int);
            let seek = Command::Seek(target);
            let announced = store.overwritten(seek.announced());
            let read = announced.overwritten(s.reported(seq![seek], anchor as int)).at(
                anchor as int,
            );
            &&& announced.at(anchor as int) == Some(nanos as int)
            &&& read is Some
            &&& read->0 <= nanos
            &&& s.track is None ==> read->0 == nanos
            &&& s.track matches Some(track) ==> nanos - read->0 <= 1_000_000_000nat
                / track.sample_rate + s.speed * 1_000_000 / s.rate + 2
        }),
{
    let nanos = clamped(target as int);
    let seek = Command::Seek(target);
    let single = seq![seek];
    let step = s.applied(seek);
    let announced = store.overwritten(seek.announced());
    assert(single[0] == seek);
    assert(single.subrange(1, 1) =~= Seq::<Command>::empty());
    assert(step.state.drained(Seq::<Command>::empty()).state == step.state);
    assert(step.state.drained(Seq::<Command>::empty()).publish is None);
    assert(s.drained(single).state == step.state);
    assert(s.drained(single).publish == step.publish);
    assert(announced == PlaybackPosition::Seeking { target: nanos as u64 });
    let read = announced.overwritten(s.reported(single, anchor as int)).at(anchor as int);
    if s.track is Some {
        let track = s.track->0;
        let landed = step.state.position();
        law_seek_lands_near_target(s, target, anchor);
        if s.playing {
            assert(s.reported(single, anchor as int) == step.state.running(anchor as int));
            assert(s.speed * (anchor - anchor) / 1000 == 0);
        } else {
            assert(s.reported(single, anchor as int) == step.publish);
        }
        assert(read == Some(landed as int));
        assert(nanos - read->0 <= 1_000_000_000nat / track.sample_rate + s.speed * 1_000_000
            / s.rate + 2);
    } else {
        assert(s.reported(single, anchor as int) is None);
        assert(read == Some(nanos as int));
    }
}

/// Commands take effect in the order of sending, across callbacks as
/// within one: draining one queue and then another is draining the two as
/// one queue.
pub proof fn law_drain_in_order(s: RenderView, first: Seq<Command>, second: Seq<Command>)
    ensures
        ({
            let one = s.drained(first);
            let two = one.state.drained(second);
            let both = s.drained(first + second);
            &&& both.state == two.state
            &&& both.publish == if two.publish is Some {
                two.publish
            } else {
                one.publish
            }
            &&& both.errors == one.errors + two.errors
        }),
    decreases first.len(),
{
    let one = s.drained(first);
    let two = one.state.drained(second);
    let both = s.drained(first + second);
    if first.len() == 0 {
        assert(first + second =~= second);
        assert(both.errors =~= one.errors + two.errors);
    } else {
        let head = s.applied(first[0]);
        let tail = first.subrange(1, first.len() as int);
        assert((first + second)[0] == first[0]);
        assert((first + second).subrange(1, (first + second).len() as int) =~= tail + second);
        law_drain_in_order(head.state, tail, second);
        let rest = head.state.drained(tail);
        assert(both.errors =~= one.errors + two.errors);
    }
}

/// A seek and a play that are sent back to back are applied in that
/// order: the state is the one that `Play` leaves after `Seek`.
pub proof fn law_seek_then_play(s: RenderView, target: i64)
    ensures
        s.drained(seq![Command::Seek(target), Command::Play]).state == s.applied(
            Command::Seek(target),
        ).state.applied(Command::Play).state,
{
    let both = seq![Command::Seek(target), Command::Play];
    let last = seq![Command::Play];
    assert(both.subrange(1, 2) =~= last);
    assert(last.subrange(1, 1) =~= Seq::<Command>::empty());
    reveal_with_fuel(RenderView::drained, 3);
}

} // verus!
