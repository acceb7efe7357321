//! Units of time and rate, and the conversions between frames and time.

use vstd::prelude::*;

verus! {

/// Nanoseconds in one second.
pub const NANOS_PER_SECOND: u64 = 1_000_000_000;

/// The value that stands for a speed or a gain of exactly one.
pub const UNIT: u32 = 1000;

/// The later of `t` and zero.
pub open spec fn clamped(t: int) -> nat {
    if t < 0 {
        0
    } else {
        t as nat
    }
}

/// `x`, or the largest 64-bit value where `x` is above it.
pub open spec fn saturated(x: nat) -> nat {
    if x > u64::MAX {
        u64::MAX as nat
    } else {
        x
    }
}

/// The track time, in nanoseconds, at which a buffer starts after `played`
/// frames went out at `rate` frames a second and `speed` thousandths:
/// the seconds played, scaled by the speed, rounded down, and held at the
/// 64-bit limit.
pub open spec fn position_of(played: nat, speed: nat, rate: nat) -> nat {
    saturated(played * speed * 1_000_000 / rate)
}

/// The index of the frame that holds the instant `nanos` in a stream of
/// `rate` frames a second: the last frame boundary at or before it.
pub open spec fn frame_at(nanos: nat, rate: nat) -> nat {
    nanos * rate / 1_000_000_000
}

/// The later of a signed time and zero.
pub fn clamp_to_zero(t: i64) -> (r: u64)
    ensures
        r == clamped(t as int),
{
    if t < 0 {
        0
    } else {
        t as u64
    }
}

/// Track position after `played` frames, see [`position_of`].
pub fn position_nanos(played: u64, speed: u32, rate: u32) -> (r: u64)
    requires
        rate >= 1,
    ensures
        r == position_of(played as nat, speed as nat, rate as nat),
{
    let scaled: u128 = (speed as u128) * 1_000_000;
    assert(played as nat * speed as nat * 1_000_000 == played as nat * (speed as nat * 1_000_000))
        by (nonlinear_arith);
    assert(played as nat * (speed as nat * 1_000_000) <= 0xffff_ffff_ffff_ffff * (0xffff_ffff
        * 1_000_000)) by (nonlinear_arith)
        requires
            played <= 0xffff_ffff_ffff_ffff,
            speed <= 0xffff_ffff,
    ;
    let total: u128 = (played as u128) * scaled;
    let nanos: u128 = total / (rate as u128);
    if nanos > u64::MAX as u128 {
        u64::MAX
    } else {
        nanos as u64
    }
}

/// Frame that holds the instant `nanos`, see [`frame_at`]; `None` when the
/// index does not fit in 64 bits.
pub fn frame_index(nanos: u64, rate: u32) -> (r: Option<u64>)
    ensures
        r matches Some(f) ==> f == frame_at(nanos as nat, rate as nat),
        r is Some <==> frame_at(nanos as nat, rate as nat) <= u64::MAX,
{
    assert(nanos as nat * rate as nat <= 0xffff_ffff_ffff_ffff * 0xffff_ffff) by (nonlinear_arith)
        requires
            nanos <= 0xffff_ffff_ffff_ffff,
            rate <= 0xffff_ffff,
    ;
    let product: u128 = (nanos as u128) * (rate as u128);
    let index: u128 = product / 1_000_000_000;
    if index <= u64::MAX as u128 {
        Some(index as u64)
    } else {
        None
    }
}

} // verus!
