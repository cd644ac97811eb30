//! Operations on mapped period views: interleaved sample buffers obtained
//! from a hardware ring for the duration of one transfer. A view holds
//! `frames * channels` samples (channel 0, channel 1, channel 0, ...).

use vstd::prelude::*;
use vstd::arithmetic::div_mod::lemma_fundamental_div_mod;
use vstd::arithmetic::div_mod::lemma_mod_bound;

verus! {

/// The smaller of two mathematical integers.
pub open spec fn min_int(a: int, b: int) -> int {
    if a <= b {
        a
    } else {
        b
    }
}

/// Write silence (all-zero samples) into a whole mapped playback view, as
/// the synchronizer's playback keep-alive and the initial playback fill
/// do. A view is never left partly written — that would desynchronize the
/// hardware ring. Returns the frames consumed: the requested count, or
/// fewer when the granted view is shorter.
pub fn write_silence(buf: &mut Vec<i32>, channels: usize, requested: usize) -> (frames: usize)
    requires
        channels > 0,
    ensures
        final(buf)@.len() == old(buf)@.len(),
        forall|i: int| 0 <= i < final(buf)@.len() ==> final(buf)@[i] == 0i32,
        frames == min_int(old(buf)@.len() as int / channels as int, requested as int),
{
    let n = buf.len();
    let mut i: usize = 0;
    while i < n
        invariant
            n == buf@.len(),
            buf@.len() == old(buf)@.len(),
            i <= n,
            forall|j: int| 0 <= j < i ==> buf@[j] == 0i32,
        decreases n - i,
    {
        buf.set(i, 0);
        i += 1;
    }
    let held = n / channels;
    if held < requested {
        held
    } else {
        requested
    }
}

/// Number of whole frames a capture keep-alive consumes: one requested
/// period, or fewer when the granted view is shorter.
pub open spec fn discard_frames(view_len: int, channels: int, period: int) -> int {
    min_int(view_len / channels, period)
}

/// The synchronizer's capture keep-alive: read and discard one period of
/// frames from a mapped capture view. Nothing is retained; the returned
/// frame count is what the hardware ring advances by on release.
pub fn discard_period(cbuf: &Vec<i32>, channels: usize, period: usize) -> (frames: usize)
    requires
        channels > 0,
    ensures
        frames == discard_frames(cbuf@.len() as int, channels as int, period as int),
{
    let avail = cbuf.len() / channels;
    if avail < period {
        avail
    } else {
        period
    }
}

/// How many whole frames one transfer copies: every frame both views have
/// room for, never a partial frame.
pub open spec fn copied_frames(capture_len: int, playback_len: int, channels: int) -> int {
    min_int(capture_len, playback_len) / channels
}

/// Copy interleaved samples from a mapped capture view into a mapped
/// playback view: `copied_frames` whole frames, byte-for-byte, leaving any
/// samples past the copied region untouched. Returns the frame count.
pub fn copy_period(cbuf: &Vec<i32>, pbuf: &mut Vec<i32>, channels: usize) -> (frames: usize)
    requires
        channels > 0,
    ensures
        final(pbuf)@.len() == old(pbuf)@.len(),
        frames == copied_frames(cbuf@.len() as int, old(pbuf)@.len() as int, channels as int),
        forall|i: int| 0 <= i < frames * channels ==> final(pbuf)@[i] == cbuf@[i],
        forall|i: int|
            frames * channels <= i < final(pbuf)@.len() ==> final(pbuf)@[i] == old(pbuf)@[i],
{
    let m = if cbuf.len() < pbuf.len() {
        cbuf.len()
    } else {
        pbuf.len()
    };
    let frames = m / channels;
    proof {
        lemma_fundamental_div_mod(m as int, channels as int);
        lemma_mod_bound(m as int, channels as int);
    }
    let samples = frames * channels;
    let mut i: usize = 0;
    while i < samples
        invariant
            samples <= m,
            m <= cbuf@.len(),
            m <= pbuf@.len(),
            pbuf@.len() == old(pbuf)@.len(),
            i <= samples,
            forall|j: int| 0 <= j < i ==> pbuf@[j] == cbuf@[j],
            forall|j: int| i <= j < pbuf@.len() ==> pbuf@[j] == old(pbuf)@[j],
        decreases samples - i,
    {
        pbuf.set(i, cbuf[i]);
        i += 1;
    }
    frames
}

} // verus!
