//! XRun recovery policy: classifies a stream's reported run state and
//! decides whether to attempt recovery or to escalate to a fatal error.
//!
//! A stream found in `XRun` is recovered exactly once — one driver-level
//! buffer reset followed by an explicit start command — and a consecutive
//! `XRun` report, or a failure of either command, is fatal and never
//! retried automatically.

use vstd::prelude::*;

verus! {

/// Run state an audio stream reports.
#[derive(Clone, Copy, Debug, PartialEq, Eq, Structural)]
pub enum RunState {
    Idle,
    Running,
    XRun,
    Suspended,
    Fatal,
}

/// Why the engine stopped. Every variant is fatal: the engine never
/// continues past any of them.
#[derive(Clone, Copy, Debug, PartialEq, Eq, Structural)]
pub enum EngineError {
    /// Querying the capture stream's available frames failed.
    CaptureQuery,
    /// Querying the playback stream's available frames failed.
    PlaybackQuery,
    /// The driver-level buffer reset failed, or the stream reported XRun
    /// again right after a recovery.
    RecoverFailed,
    /// The explicit start command after a recovery failed.
    StartFailed,
}

/// What the caller must do after classifying a stream's run state.
#[derive(Clone, Copy, Debug, PartialEq, Eq, Structural)]
pub enum RecoveryDecision {
    /// The stream needs no recovery this poll.
    NoAction,
    /// Issue one driver-level buffer reset, then one start command.
    Recover,
    /// A consecutive XRun: recovery has already been tried once; escalate.
    Escalate,
}

/// Classification of one run-state report: the new "already attempted"
/// flag and the decision. An `XRun` report asks for one recovery when none
/// was attempted on the previous report, and escalates when one was; any
/// other state clears the flag.
pub open spec fn spec_recovery_step(attempted: bool, state: RunState) -> (bool, RecoveryDecision) {
    if state == RunState::XRun {
        if attempted {
            (true, RecoveryDecision::Escalate)
        } else {
            (true, RecoveryDecision::Recover)
        }
    } else {
        (false, RecoveryDecision::NoAction)
    }
}

/// Tracks whether the previous run-state report already led to a recovery
/// attempt, so that a second consecutive `XRun` escalates instead of
/// retrying.
pub struct RecoveryPolicy {
    /// Whether the previous report was an `XRun` that triggered a recovery.
    pub attempted: bool,
}

impl RecoveryPolicy {
    /// A fresh policy: no recovery attempted yet.
    pub fn new() -> (r: RecoveryPolicy)
        ensures
            r.attempted == false,
    {
        RecoveryPolicy { attempted: false }
    }

    /// Classify one run-state report and update the attempt tracking.
    pub fn on_state(&mut self, state: RunState) -> (d: RecoveryDecision)
        ensures
            (final(self).attempted, d) == spec_recovery_step(old(self).attempted, state),
    {
        if state == RunState::XRun {
            if self.attempted {
                RecoveryDecision::Escalate
            } else {
                self.attempted = true;
                RecoveryDecision::Recover
            }
        } else {
            self.attempted = false;
            RecoveryDecision::NoAction
        }
    }
}

/// Outcome the caller reports back after acting on `RecoveryDecision::Recover`.
#[derive(Clone, Copy, Debug, PartialEq, Eq, Structural)]
pub enum RecoveryOutcome {
    /// The buffer reset and the start command both succeeded.
    Recovered,
    /// The buffer reset itself failed; the start command was not issued.
    ResetFailed,
    /// The buffer reset succeeded but the start command failed.
    StartFailed,
}

/// Decide whether the engine continues after one recovery attempt: it
/// continues exactly when both the reset and the start succeeded; either
/// failure is fatal and is never retried.
pub fn after_recovery(outcome: RecoveryOutcome) -> (r: Result<(), EngineError>)
    ensures
        outcome == RecoveryOutcome::Recovered <==> r == Ok::<(), EngineError>(()),
        outcome == RecoveryOutcome::ResetFailed ==> r == Err::<(), EngineError>(
            EngineError::RecoverFailed,
        ),
        outcome == RecoveryOutcome::StartFailed ==> r == Err::<(), EngineError>(
            EngineError::StartFailed,
        ),
{
    match outcome {
        RecoveryOutcome::Recovered => Ok(()),
        RecoveryOutcome::ResetFailed => Err(EngineError::RecoverFailed),
        RecoveryOutcome::StartFailed => Err(EngineError::StartFailed),
    }
}

/// What the synchronizer does right after reaching `Synced`: recover the
/// capture stream exactly when it reports `XRun`; a playback stream not in
/// `Running` is only logged — no recovery is attempted on it.
#[derive(Clone, Copy, Debug, PartialEq, Eq, Structural)]
pub struct PostSyncActions {
    /// Recover and restart the capture stream.
    pub recover_capture: bool,
    /// Log that the playback stream failed to start; nothing more.
    pub log_playback_not_running: bool,
}

/// Classify both streams' run states at the `Synced` boundary.
pub fn post_sync_actions(capture_state: RunState, playback_state: RunState) -> (r: PostSyncActions)
    ensures
        r.recover_capture <==> capture_state == RunState::XRun,
        r.log_playback_not_running <==> playback_state != RunState::Running,
{
    PostSyncActions {
        recover_capture: capture_state == RunState::XRun,
        log_playback_not_running: !(playback_state == RunState::Running),
    }
}

} // verus!
