//! Cutting decoded audio into the pieces that a spectrum analysis reads:
//! the samples of one channel, and the window of them that starts at the
//! playback position.

use vstd::prelude::*;
use vstd::arithmetic::div_mod::lemma_fundamental_div_mod;
use vstd::arithmetic::div_mod::lemma_mod_bound;
use crate::units::frame_at;
use crate::units::frame_index;

verus! {

/// Milliseconds between two analyses.
pub const ANALYSIS_PERIOD: u64 = 100;

/// The number of samples that channel `c` has among `len` samples
/// interleaved by `channels`.
pub open spec fn channel_len(len: nat, channels: nat, c: nat) -> nat {
    if c < len {
        ((len - c - 1) / channels as int + 1) as nat
    } else {
        0
    }
}

/// The samples of channel `c` among samples interleaved by `channels`:
/// every `channels`-th one from the `c`-th on.
pub open spec fn channel_of(samples: Seq<i16>, channels: nat, c: nat) -> Seq<i16> {
    Seq::new(channel_len(samples.len(), channels, c), |k: int| samples[k * channels + c])
}

/// The samples of one channel, see [`channel_of`].
fn channel(samples: &Vec<i16>, channels: u16, c: u16) -> (r: Vec<i16>)
    requires
        c < channels,
    ensures
        r@ == channel_of(samples@, channels as nat, c as nat),
{
    let len = samples.len();
    let step = channels as usize;
    let first = c as usize;
    let mut out: Vec<i16> = Vec::new();
    if first >= len {
        assert(out@ =~= channel_of(samples@, channels as nat, c as nat));
        return out;
    }
    let last = (len - first - 1) / step;
    proof {
        lemma_fundamental_div_mod((len - first - 1) as int, step as int);
        lemma_mod_bound((len - first - 1) as int, step as int);
        assert(step * last == last * step) by (nonlinear_arith);
    }
    let mut k: usize = 0;
    while k <= last
        invariant
            len == samples@.len(),
            step == channels,
            first == c,
            step >= 1,
            last * step + first < len,
            last == (len - first - 1) / step as int,
            k <= last + 1,
            out@.len() == k,
            forall|j: int| 0 <= j < k ==> out@[j] == samples@[j * step + first],
        decreases last + 1 - k,
    {
        assert(0 <= k * step <= last * step) by (nonlinear_arith)
            requires
                0 <= k <= last,
                step >= 1,
        ;
        out.push(samples[k * step + first]);
        k = k + 1;
    }
    assert(out@ =~= channel_of(samples@, channels as nat, c as nat));
    out
}

/// Takes interleaved samples apart: one vector for each channel, see
/// [`channel_of`]. A last frame that is not whole gives its samples to the
/// channels it has. There is nothing to take apart without a channel.
pub fn split_channels(samples: &Vec<i16>, channels: u16) -> (r: Vec<Vec<i16>>)
    ensures
        r@.len() == channels,
        forall|c: int|
            0 <= c < channels ==> (#[trigger] r@[c])@ == channel_of(
                samples@,
                channels as nat,
                c as nat,
            ),
{
    let mut out: Vec<Vec<i16>> = Vec::new();
    let mut c: u16 = 0;
    while c < channels
        invariant
            c <= channels,
            out@.len() == c,
            forall|d: int|
                0 <= d < c ==> (#[trigger] out@[d])@ == channel_of(
                    samples@,
                    channels as nat,
                    d as nat,
                ),
        decreases channels - c,
    {
        out.push(channel(samples, channels, c));
        c = c + 1;
    }
    out
}

/// The length of an analysis window: half a second of frames, times the
/// number of channels.
pub fn window_size(sample_rate: u32, channels: u16) -> (r: u64)
    ensures
        r == (sample_rate / 2) * channels,
{
    assert((sample_rate / 2) * channels <= 0x7fff_ffff * 0xffff) by (nonlinear_arith)
        requires
            sample_rate / 2 <= 0x7fff_ffff,
            channels <= 0xffff,
    ;
    ((sample_rate / 2) as u64) * (channels as u64)
}

/// The `size` samples from `offset` on, or nothing where there are not
/// that many.
pub fn window(samples: &Vec<i16>, offset: u64, size: u64) -> (r: Option<Vec<i16>>)
    ensures
        r is Some <==> offset + size <= samples@.len(),
        r matches Some(w) ==> w@ == samples@.subrange(offset as int, offset + size),
{
    let len = samples.len();
    if offset > len as u64 || size > len as u64 - offset {
        return None;
    }
    let start = offset as usize;
    let count = size as usize;
    let mut out: Vec<i16> = Vec::new();
    let mut i: usize = 0;
    while i < count
        invariant
            i <= count,
            start + count <= len,
            len == samples@.len(),
            out@.len() == i,
            forall|j: int| 0 <= j < i ==> out@[j] == samples@[start + j],
        decreases count - i,
    {
        out.push(samples[start + i]);
        i = i + 1;
    }
    assert(out@ =~= samples@.subrange(offset as int, offset + size));
    Some(out)
}

/// The analysis window of one channel at the track time `position`, in
/// nanoseconds: the samples from the frame that holds that time on,
/// [`window_size`] of them, or nothing where the channel ends before.
pub fn window_at(channel: &Vec<i16>, position: u64, sample_rate: u32, channels: u16) -> (r: Option<
    Vec<i16>,
>)
    ensures
        ({
            let offset = frame_at(position as nat, sample_rate as nat);
            let size = (sample_rate / 2) * channels;
            &&& r is Some <==> offset + size <= channel@.len()
            &&& r matches Some(w) ==> w@ == channel@.subrange(offset as int, offset + size)
        }),
{
    let size = window_size(sample_rate, channels);
    let len = channel.len();
    match frame_index(position, sample_rate) {
        Some(offset) => window(channel, offset, size),
        None => {
            assert(frame_at(position as nat, sample_rate as nat) > len);
            None
        },
    }
}

/// The whole windows of `size` samples that `samples` holds, one after
/// the other; what is left after the last whole one is not a window.
/// There are no windows of no samples.
pub fn windows(samples: &Vec<i16>, size: usize) -> (r: Vec<Vec<i16>>)
    ensures
        size == 0 ==> r@.len() == 0,
        size > 0 ==> r@.len() == samples@.len() / size as nat,
        forall|k: int|
            0 <= k < r@.len() ==> (#[trigger] r@[k])@ == samples@.subrange(
                k * size,
                k * size + size,
            ),
{
    let mut out: Vec<Vec<i16>> = Vec::new();
    if size == 0 {
        return out;
    }
    let len = samples.len();
    let count = len / size;
    let mut k: usize = 0;
    proof {
        lemma_fundamental_div_mod(len as int, size as int);
        lemma_mod_bound(len as int, size as int);
    }
    while k < count
        invariant
            k <= count,
            size > 0,
            len == samples@.len(),
            count == len / size,
            size * count <= len,
            out@.len() == k,
            forall|j: int|
                0 <= j < k ==> (#[trigger] out@[j])@ == samples@.subrange(
                    j * size,
                    j * size + size,
                ),
        decreases count - k,
    {
        assert(k * size + size <= size * count) by (nonlinear_arith)
            requires
                k + 1 <= count,
                size > 0,
        ;
        assert(0 <= k * size) by (nonlinear_arith)
            requires
                0 <= k,
                0 <= size,
        ;
        match window(samples, (k * size) as u64, size as u64) {
            Some(w) => {
                out.push(w);
            },
            None => {},
        }
        k = k + 1;
    }
    out
}

/// Counts the time since the last analysis.
#[derive(Clone, Copy, Debug, PartialEq, Eq, Structural)]
pub struct AnalysisClock {
    /// Milliseconds since the last analysis.
    pub waited: u64,
}

impl AnalysisClock {
    /// A clock that has waited for nothing yet.
    pub fn new() -> (r: AnalysisClock)
        ensures
            r.waited == 0,
    {
        AnalysisClock { waited: 0 }
    }

    /// Adds the time since the last look and says whether an analysis is
    /// due: it is once more than [`ANALYSIS_PERIOD`] has gone by, and the
    /// count then starts anew.
    pub fn tick(&mut self, since_last: u64) -> (due: bool)
        ensures
            due == (old(self).waited + since_last > ANALYSIS_PERIOD),
            due ==> final(self).waited == 0,
            !due ==> final(self).waited == old(self).waited + since_last,
    {
        if since_last > ANALYSIS_PERIOD || self.waited > ANALYSIS_PERIOD - since_last {
            self.waited = 0;
            true
        } else {
            self.waited = self.waited + since_last;
            false
        }
    }
}

} // verus!
