//! The steady-state transfer loop over one synced capture/playback pair.
//!
//! Each iteration polls both streams, decides whether to move audio, and —
//! when enough frames are ready on both sides — copies exactly one period
//! of interleaved samples from the capture ring to the playback ring. An
//! iteration that finds too few frames restarts immediately: the engine
//! busy-waits and never sleeps. The caller performs the device queries and
//! holds the mapped views; this module makes every decision and does the
//! copy.

use vstd::prelude::*;
use crate::buffer;
use crate::buffer::copied_frames;
use crate::buffer::min_int;
use crate::recovery::EngineError;
use vstd::arithmetic::div_mod::lemma_div_multiples_vanish;

verus! {

/// Whether one iteration with the given available-frame readings performs
/// a transfer: both readings positive and together covering at least one
/// whole period. Anything less moves nothing — transfers happen only in
/// whole-period units.
pub open spec fn spec_transfer_due(capture_avail: int, playback_avail: int, period: int) -> bool {
    capture_avail > 0 && playback_avail > 0 && min_int(capture_avail, playback_avail) >= period
}

/// What one poll of the transfer loop decides.
#[derive(Clone, Copy, Debug, PartialEq, Eq, Structural)]
pub enum PollDecision {
    /// The capture-side query failed: fatal, the engine stops.
    FatalCapture,
    /// The playback-side query failed: fatal, the engine stops.
    FatalPlayback,
    /// Too few frames on some side: restart the loop at once, moving
    /// nothing and never sleeping.
    Skip,
    /// Both sides hold at least one period: copy exactly one period.
    Transfer,
}

/// One synced capture/playback pair with its diagnostic counters.
pub struct Session {
    /// Configured period size, frames; the fixed transfer granule.
    pub period: usize,
    /// Interleaved channel count.
    pub channels: usize,
    /// Poll iterations taken, including ones that moved nothing.
    pub loops: i64,
    /// Completed period copies.
    pub transfers: i64,
}

impl Session {
    /// Structural soundness: positive geometry, and never more completed
    /// copies than iterations.
    pub open spec fn wf(self) -> bool {
        self.period > 0 && self.channels > 0 && 0 <= self.transfers <= self.loops
    }

    /// A fresh session right after synchronization: no iterations yet.
    pub fn new(period: usize, channels: usize) -> (s: Session)
        requires
            period > 0,
            channels > 0,
        ensures
            s.wf(),
            s.period == period,
            s.channels == channels,
            s.loops == 0,
            s.transfers == 0,
    {
        Session { period, channels, loops: 0, transfers: 0 }
    }

    /// One poll of the transfer loop. The readings come from the caller's
    /// availability queries, `None` standing for a failed query.
    ///
    /// A failed query is fatal and reported before the iteration counts;
    /// otherwise the iteration counts whether or not it transfers, and the
    /// decision is `Transfer` exactly when both sides hold at least one
    /// whole period.
    pub fn poll(&mut self, capture_avail: Option<i64>, playback_avail: Option<i64>) -> (d:
        PollDecision)
        requires
            old(self).wf(),
            old(self).loops < i64::MAX,
        ensures
            final(self).wf(),
            final(self).period == old(self).period,
            final(self).channels == old(self).channels,
            final(self).transfers == old(self).transfers,
            capture_avail is None ==> d == PollDecision::FatalCapture && *final(self) == *old(self),
            capture_avail is Some && playback_avail is None ==> d == PollDecision::FatalPlayback
                && *final(self) == *old(self),
            capture_avail is Some && playback_avail is Some ==> final(self).loops == old(
                self,
            ).loops + 1,
            capture_avail is Some && playback_avail is Some ==> (d == PollDecision::Transfer
                <==> spec_transfer_due(
                capture_avail->0 as int,
                playback_avail->0 as int,
                old(self).period as int,
            )),
            capture_avail is Some && playback_avail is Some ==> (d == PollDecision::Skip
                <==> !spec_transfer_due(
                capture_avail->0 as int,
                playback_avail->0 as int,
                old(self).period as int,
            )),
    {
        let capture = match capture_avail {
            None => {
                return PollDecision::FatalCapture;
            },
            Some(n) => n,
        };
        let playback = match playback_avail {
            None => {
                return PollDecision::FatalPlayback;
            },
            Some(n) => n,
        };
        self.loops = self.loops + 1;
        if capture <= 0 {
            return PollDecision::Skip;
        }
        if playback <= 0 {
            return PollDecision::Skip;
        }
        let usable = if capture < playback {
            capture
        } else {
            playback
        };
        if self.period as u64 <= usable as u64 {
            PollDecision::Transfer
        } else {
            PollDecision::Skip
        }
    }

    /// Perform the copy step of one `Transfer` iteration, inside the two
    /// mapped period views, and count it: every whole frame both views
    /// cover moves from the capture view to the playback view, and
    /// `transfers` grows by one exactly when any frame moved. When both
    /// views hold exactly the period the loop requested — the mapped-view
    /// guarantee — exactly one period moves.
    pub fn transfer_period(&mut self, cbuf: &Vec<i32>, pbuf: &mut Vec<i32>) -> (frames: usize)
        requires
            old(self).wf(),
            old(self).transfers < old(self).loops,
        ensures
            final(self).wf(),
            final(self).period == old(self).period,
            final(self).channels == old(self).channels,
            final(self).loops == old(self).loops,
            final(pbuf)@.len() == old(pbuf)@.len(),
            frames == copied_frames(
                cbuf@.len() as int,
                old(pbuf)@.len() as int,
                old(self).channels as int,
            ),
            forall|i: int| 0 <= i < frames * old(self).channels ==> final(pbuf)@[i] == cbuf@[i],
            forall|i: int|
                frames * old(self).channels <= i < final(pbuf)@.len() ==> final(pbuf)@[i] == old(
                    pbuf,
                )@[i],
            frames > 0 ==> final(self).transfers == old(self).transfers + 1,
            frames == 0 ==> final(self).transfers == old(self).transfers,
            cbuf@.len() == old(self).period * old(self).channels && old(pbuf)@.len() == old(
                self,
            ).period * old(self).channels ==> frames == old(self).period,
    {
        proof {
            let p = old(self).period as int;
            let c = old(self).channels as int;
            if cbuf@.len() == p * c && old(pbuf)@.len() == p * c {
                lemma_div_multiples_vanish(p, c);
                assert(c * p == p * c) by (nonlinear_arith);
            }
        }
        let frames = buffer::copy_period(cbuf, pbuf, self.channels);
        if frames > 0 {
            self.transfers = self.transfers + 1;
        }
        frames
    }
}

/// The fatal error a poll decision carries: a failed availability query on
/// either side ends the engine, and nothing else a poll decides does.
pub fn fatal_error(d: PollDecision) -> (r: Option<EngineError>)
    ensures
        d == PollDecision::FatalCapture ==> r == Some(EngineError::CaptureQuery),
        d == PollDecision::FatalPlayback ==> r == Some(EngineError::PlaybackQuery),
        d == PollDecision::Skip || d == PollDecision::Transfer ==> r is None,
{
    match d {
        PollDecision::FatalCapture => Some(EngineError::CaptureQuery),
        PollDecision::FatalPlayback => Some(EngineError::PlaybackQuery),
        PollDecision::Skip => None,
        PollDecision::Transfer => None,
    }
}

/// Quantization law: whatever the two availability readings, an iteration
/// over period-sized mapped views moves either exactly one period of
/// frames or none at all — never a count strictly between.
pub open spec fn frames_moved(capture_avail: int, playback_avail: int, period: int, channels: int) -> int {
    if spec_transfer_due(capture_avail, playback_avail, period) {
        copied_frames(period * channels, period * channels, channels)
    } else {
        0
    }
}

/// Proof of the quantization law for every reading pair and every positive
/// geometry.
pub proof fn lemma_quantization(capture_avail: int, playback_avail: int, period: int, channels: int)
    requires
        period > 0,
        channels > 0,
    ensures
        frames_moved(capture_avail, playback_avail, period, channels) == 0 || frames_moved(
            capture_avail,
            playback_avail,
            period,
            channels,
        ) == period,
{
    if spec_transfer_due(capture_avail, playback_avail, period) {
        lemma_div_multiples_vanish(period, channels);
        assert(channels * period == period * channels) by (nonlinear_arith);
    }
}

} // verus!
