//! Stream synchronizer: brings a capture stream and a playback stream from
//! "just started" to a state where both hold at least one full period of
//! frames, without stalling either side.
//!
//! The synchronizer is a state machine stepped once per poll. Each step
//! takes the two available-frame readings and decides, besides the next
//! state, which keep-alive actions the caller must perform this poll:
//! a silence write into the playback ring, a discard read from the capture
//! ring, or neither.

use vstd::prelude::*;

verus! {

/// Synchronizer state: which sides have been seen holding at least one
/// period of frames. `Synced` is terminal.
#[derive(Clone, Copy, Debug, PartialEq, Eq, Structural)]
pub enum SyncState {
    Unsynced,
    CaptureReady,
    PlaybackReady,
    Synced,
}

/// Whether the capture side has been marked ready.
pub open spec fn capture_marked(s: SyncState) -> bool {
    s == SyncState::CaptureReady || s == SyncState::Synced
}

/// Whether the playback side has been marked ready.
pub open spec fn playback_marked(s: SyncState) -> bool {
    s == SyncState::PlaybackReady || s == SyncState::Synced
}

/// The state holding exactly the given ready marks.
pub open spec fn state_of(capture: bool, playback: bool) -> SyncState {
    if capture && playback {
        SyncState::Synced
    } else if capture {
        SyncState::CaptureReady
    } else if playback {
        SyncState::PlaybackReady
    } else {
        SyncState::Unsynced
    }
}

/// One synchronizer poll: next state, whether to write one period of
/// silence into the playback ring, and whether to read and discard one
/// period from the capture ring. The keep-alive always works the ready
/// side's own ring.
///
/// Capture is considered first: when its reading covers a period it is
/// marked ready, and if playback is not yet ready one period is read and
/// discarded from the capture ring, so the filling ring does not overflow
/// while it waits. Then playback: when its reading covers a period it is
/// marked ready, and if capture is still not ready (including this poll's
/// marking, which suppresses the action) one period of silence goes into
/// the playback ring, so the draining ring does not underrun.
pub open spec fn spec_sync_step(s: SyncState, capture_avail: int, playback_avail: int, period: int) -> (
    SyncState,
    bool,
    bool,
) {
    let capture_before = capture_marked(s);
    let playback_before = playback_marked(s);
    let capture_after = capture_before || capture_avail >= period;
    let discard = capture_avail >= period && !playback_before;
    let playback_after = playback_before || playback_avail >= period;
    let write_silence = playback_avail >= period && !capture_after;
    (state_of(capture_after, playback_after), write_silence, discard)
}

/// Keep-alive actions one synchronizer poll asks the caller to perform.
#[derive(Clone, Copy, Debug, PartialEq, Eq, Structural)]
pub struct SyncActions {
    /// Write one period of silence into the playback ring.
    pub write_silence_playback: bool,
    /// Read and discard one period of frames from the capture ring.
    pub discard_capture: bool,
}

/// Step the synchronizer once with fresh available-frame readings.
/// A failed reading never reaches this function: a query failure aborts
/// synchronization before the step (it is fatal, not retried).
pub fn sync_step(s: SyncState, capture_avail: i64, playback_avail: i64, period: i64) -> (r: (
    SyncState,
    SyncActions,
))
    ensures
        ({
            let (s2, write_silence, discard) = spec_sync_step(
                s,
                capture_avail as int,
                playback_avail as int,
                period as int,
            );
            r.0 == s2 && r.1.write_silence_playback == write_silence && r.1.discard_capture
                == discard
        }),
{
    let capture_before = s == SyncState::CaptureReady || s == SyncState::Synced;
    let playback_before = s == SyncState::PlaybackReady || s == SyncState::Synced;
    let capture_after = capture_before || capture_avail >= period;
    let discard_capture = capture_avail >= period && !playback_before;
    let playback_after = playback_before || playback_avail >= period;
    let write_silence_playback = playback_avail >= period && !capture_after;
    let next = if capture_after && playback_after {
        SyncState::Synced
    } else if capture_after {
        SyncState::CaptureReady
    } else if playback_after {
        SyncState::PlaybackReady
    } else {
        SyncState::Unsynced
    };
    (next, SyncActions { write_silence_playback, discard_capture })
}

/// A poll on which both readings cover a period synchronizes from any
/// state: convergence takes at most one poll past the first such reading.
pub proof fn lemma_sync_step_converges(s: SyncState, capture_avail: int, playback_avail: int, period: int)
    requires
        capture_avail >= period,
        playback_avail >= period,
    ensures
        spec_sync_step(s, capture_avail, playback_avail, period).0 == SyncState::Synced,
{
}

/// Ready marks are sticky: a side once marked ready stays marked, whatever
/// later polls read.
pub proof fn lemma_sync_ready_sticky(s: SyncState, capture_avail: int, playback_avail: int, period: int)
    ensures
        capture_marked(s) ==> capture_marked(
            spec_sync_step(s, capture_avail, playback_avail, period).0,
        ),
        playback_marked(s) ==> playback_marked(
            spec_sync_step(s, capture_avail, playback_avail, period).0,
        ),
{
}

/// On a pre-`Synced` poll where capture is (still) ready and playback is
/// not yet, exactly one keep-alive fires: the discard read on capture,
/// draining the filling ring so it cannot overflow.
pub proof fn lemma_keep_alive_capture_ready(s: SyncState, capture_avail: int, playback_avail: int, period: int)
    requires
        capture_avail >= period,
        !playback_marked(s),
        playback_avail < period,
    ensures
        spec_sync_step(s, capture_avail, playback_avail, period).2 == true,
        spec_sync_step(s, capture_avail, playback_avail, period).1 == false,
        spec_sync_step(s, capture_avail, playback_avail, period).0 != SyncState::Synced,
{
}

/// On a pre-`Synced` poll where playback is (still) ready and capture is
/// not yet, exactly one keep-alive fires: the silence write into playback,
/// feeding the draining ring so it cannot underrun.
pub proof fn lemma_keep_alive_playback_ready(s: SyncState, capture_avail: int, playback_avail: int, period: int)
    requires
        playback_avail >= period,
        !capture_marked(s),
        capture_avail < period,
    ensures
        spec_sync_step(s, capture_avail, playback_avail, period).1 == true,
        spec_sync_step(s, capture_avail, playback_avail, period).2 == false,
        spec_sync_step(s, capture_avail, playback_avail, period).0 != SyncState::Synced,
{
}

/// The synchronizer run over a sequence of polls, each a pair of
/// available-frame readings (capture, playback).
pub open spec fn sync_run(s: SyncState, polls: Seq<(int, int)>, period: int) -> SyncState
    decreases polls.len(),
{
    if polls.len() == 0 {
        s
    } else {
        sync_run(
            spec_sync_step(s, polls[0].0, polls[0].1, period).0,
            polls.drop_first(),
            period,
        )
    }
}

/// Running the synchronizer over two poll sequences in turn is running it
/// over their concatenation.
pub proof fn lemma_sync_run_append(s: SyncState, a: Seq<(int, int)>, b: Seq<(int, int)>, period: int)
    ensures
        sync_run(s, a + b, period) == sync_run(sync_run(s, a, period), b, period),
    decreases a.len(),
{
    if a.len() == 0 {
        assert(a + b =~= b);
    } else {
        let s1 = spec_sync_step(s, a[0].0, a[0].1, period).0;
        assert((a + b).drop_first() =~= a.drop_first() + b);
        lemma_sync_run_append(s1, a.drop_first(), b, period);
    }
}

/// `Synced` is terminal: once reached, every later poll leaves it.
pub proof fn lemma_sync_run_stays_synced(polls: Seq<(int, int)>, period: int)
    ensures
        sync_run(SyncState::Synced, polls, period) == SyncState::Synced,
    decreases polls.len(),
{
    if polls.len() > 0 {
        lemma_sync_run_stays_synced(polls.drop_first(), period);
    }
}

/// Synchronization convergence: as soon as some poll reads at least one
/// period on both sides — under a monotonically non-decreasing hardware
/// model, a poll that must come — the synchronizer is `Synced` by the next
/// step and stays so: a finite, bounded number of polls.
pub proof fn lemma_sync_run_converges(s: SyncState, polls: Seq<(int, int)>, period: int, k: int)
    requires
        0 <= k < polls.len(),
        polls[k].0 >= period,
        polls[k].1 >= period,
    ensures
        forall|j: int|
            k < j <= polls.len() ==> sync_run(s, #[trigger] polls.take(j), period)
                == SyncState::Synced,
{
    assert forall|j: int| k < j <= polls.len() implies sync_run(
        s,
        #[trigger] polls.take(j),
        period,
    ) == SyncState::Synced by {
        let head = polls.take(k);
        let mid = polls.subrange(k, k + 1);
        let tail = polls.subrange(k + 1, j);
        assert(polls.take(j) =~= (head + mid) + tail);
        lemma_sync_run_append(s, head + mid, tail, period);
        lemma_sync_run_append(s, head, mid, period);
        let s_head = sync_run(s, head, period);
        let s_mid = spec_sync_step(s_head, polls[k].0, polls[k].1, period).0;
        assert(mid[0] == polls[k]);
        assert(mid.drop_first() =~= Seq::<(int, int)>::empty());
        assert(sync_run(s_head, mid, period) == sync_run(s_mid, mid.drop_first(), period));
        assert(sync_run(s_mid, mid.drop_first(), period) == s_mid);
        lemma_sync_step_converges(s_head, polls[k].0, polls[k].1, period);
        lemma_sync_run_stays_synced(tail, period);
        assert(sync_run(s, polls.take(j), period) == sync_run(s_mid, tail, period));
    }
}

/// Convergence under the hardware model: when both sides' readings only
/// grow from poll to poll, the synchronizer is `Synced` one poll after the
/// later of the two sides first covers a period, and stays so.
pub proof fn lemma_sync_run_converges_monotone(
    s: SyncState,
    polls: Seq<(int, int)>,
    period: int,
    i: int,
    j: int,
)
    requires
        0 <= i < polls.len(),
        0 <= j < polls.len(),
        forall|a: int, b: int|
            0 <= a <= b < polls.len() ==> (#[trigger] polls[a]).0 <= (#[trigger] polls[b]).0
                && polls[a].1 <= polls[b].1,
        polls[i].0 >= period,
        polls[j].1 >= period,
    ensures
        forall|m: int|
            (if i >= j {
                i
            } else {
                j
            }) < m <= polls.len() ==> sync_run(s, #[trigger] polls.take(m), period)
                == SyncState::Synced,
{
    let k = if i >= j {
        i
    } else {
        j
    };
    assert(polls[k].0 >= period);
    assert(polls[k].1 >= period);
    lemma_sync_run_converges(s, polls, period, k);
}

} // verus!
