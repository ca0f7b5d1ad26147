//! The Scan Loop: the bounded, interruptible polling protocol that turns
//! single-shot capture-plus-decode into "watch the screen until a payload
//! appears or the budget runs out". The loop's decisions are made here, step
//! by step; performing a capture, a decode or a sleep happens outside.

use vstd::prelude::*;

use crate::errors::CaptureError;
use crate::errors::ScanError;

verus! {

/// The default seconds between attempts.
pub const DEFAULT_SCAN_INTERVAL: u64 = 2;

/// The default maximum number of attempts.
pub const DEFAULT_SCAN_ATTEMPTS: u32 = 90;

/// The scan budget: seconds between attempts and the attempt ceiling. Both
/// must be positive, or the scan fails before any capture.
#[derive(Debug, Clone, Copy, PartialEq, Eq)]
pub struct ScanBudget {
    pub interval: u64,
    pub attempts: u32,
}

impl ScanBudget {
    /// A budget the scan accepts.
    pub open spec fn valid(&self) -> bool {
        self.interval > 0 && self.attempts > 0
    }
}

/// What the scan is waiting for: the strict capture-then-decode sequencing
/// leaves no room for overlapping work.
#[derive(Debug, Clone, Copy, PartialEq, Eq)]
pub enum ScanPhase {
    /// A capture of the current attempt is in flight.
    AwaitCapture,
    /// The captured files are being decoded one by one.
    AwaitDecode,
    /// The scan ended, in success or failure; no further event is expected.
    Finished,
}

/// Where the scan stands: the current 1-based attempt, the captured files of
/// this attempt not yet decoded, and what event comes next.
#[derive(Debug)]
pub struct ScanState {
    pub budget: ScanBudget,
    pub attempt: u32,
    pub pending: Vec<String>,
    pub next: usize,
    pub phase: ScanPhase,
}

impl ScanState {
    /// The state invariant every step preserves.
    pub open spec fn wf(&self) -> bool {
        &&& self.budget.valid()
        &&& 1 <= self.attempt <= self.budget.attempts
        &&& self.next <= self.pending@.len()
    }
}

/// What the scan loop asks its driver to do next.
#[derive(Debug, PartialEq, Eq)]
pub enum ScanAction {
    /// Capture the screens for this attempt, then report the outcome.
    Capture { attempt: u32 },
    /// Decode this captured file, then report the outcome.
    Decode { path: String },
    /// No payload this attempt and more attempts remain: sleep, then capture.
    SleepThenCapture { secs: u64, attempt: u32 },
    /// A payload was found; the whole pipeline short-circuits.
    Succeed { payload: String },
    /// The scan is over without a payload: a terminal failure.
    Fail { error: ScanError },
}

/// Validates the budget and opens the scan. A zero interval or a zero
/// attempt ceiling is rejected immediately, before any capture; otherwise
/// the first action is capturing attempt 1.
pub fn scan_start(budget: ScanBudget) -> (r: Result<(ScanState, ScanAction), ScanError>)
    ensures
        r is Err <==> !budget.valid(),
        r matches Err(e) ==> e == ScanError::InvalidBudget,
        r matches Ok(p) ==> p.0.wf() && p.0.budget == budget && p.0.attempt == 1
            && p.0.pending@.len() == 0 && p.0.phase == ScanPhase::AwaitCapture && p.1 == (
        ScanAction::Capture { attempt: 1 }),
{
    if budget.interval == 0 || budget.attempts == 0 {
        return Err(ScanError::InvalidBudget);
    }
    let state = ScanState {
        budget,
        attempt: 1,
        pending: Vec::new(),
        next: 0,
        phase: ScanPhase::AwaitCapture,
    };
    Ok((state, ScanAction::Capture { attempt: 1 }))
}

/// Moves to the next attempt, or ends the scan: the expected outcome of a
/// user who has not yet shown the code is the exact "no valid QR found after
/// N attempts" failure, not a generic error.
fn attempt_exhausted(state: ScanState) -> (r: (ScanState, ScanAction))
    requires
        state.wf(),
    ensures
        r.0.wf(),
        r.0.budget == state.budget,
        state.attempt < state.budget.attempts ==> r.0.attempt == state.attempt + 1 && r.0.phase
            == ScanPhase::AwaitCapture && r.1 == (ScanAction::SleepThenCapture {
            secs: state.budget.interval,
            attempt: (state.attempt + 1) as u32,
        }),
        state.attempt == state.budget.attempts ==> r.0.attempt == state.attempt && r.0.phase
            == ScanPhase::Finished && r.1 == (ScanAction::Fail {
            error: ScanError::NoQrFound { attempts: state.budget.attempts },
        }),
{
    let ScanState { budget, attempt, pending: _, next: _, phase: _ } = state;
    if attempt < budget.attempts {
        let next_attempt = attempt + 1;
        (
            ScanState {
                budget,
                attempt: next_attempt,
                pending: Vec::new(),
                next: 0,
                phase: ScanPhase::AwaitCapture,
            },
            ScanAction::SleepThenCapture { secs: budget.interval, attempt: next_attempt },
        )
    } else {
        (
            ScanState { budget, attempt, pending: Vec::new(), next: 0, phase: ScanPhase::Finished },
            ScanAction::Fail { error: ScanError::NoQrFound { attempts: budget.attempts } },
        )
    }
}

/// Feeds the outcome of this attempt's capture into the scan. A capture
/// failure (all fallbacks exhausted) terminates the whole scan; captured
/// files are decoded one by one; an attempt with no files behaves like one
/// with no payload.
pub fn scan_on_capture(state: ScanState, outcome: Result<Vec<String>, CaptureError>) -> (r: (
    ScanState,
    ScanAction,
))
    requires
        state.wf(),
        state.phase == ScanPhase::AwaitCapture,
    ensures
        r.0.wf(),
        r.0.budget == state.budget,
        outcome matches Err(e) ==> r.0.phase == ScanPhase::Finished && r.1 == (ScanAction::Fail {
            error: ScanError::Capture { inner: e },
        }),
        outcome matches Ok(paths) ==> paths@.len() > 0 ==> r.0.attempt == state.attempt
            && r.0.pending == paths && r.0.next == 1 && r.0.phase == ScanPhase::AwaitDecode && (
        r.1 matches ScanAction::Decode { path } && path@ == paths@[0]@),
        outcome matches Ok(paths) ==> paths@.len() == 0 && state.attempt < state.budget.attempts
            ==> r.0.attempt == state.attempt + 1 && r.1 == (ScanAction::SleepThenCapture {
            secs: state.budget.interval,
            attempt: (state.attempt + 1) as u32,
        }),
        outcome matches Ok(paths) ==> paths@.len() == 0 && state.attempt == state.budget.attempts
            ==> r.1 == (ScanAction::Fail {
            error: ScanError::NoQrFound { attempts: state.budget.attempts },
        }),
{
    match outcome {
        Err(e) => {
            let ScanState { budget, attempt, pending, next, phase: _ } = state;
            let settled = ScanState { budget, attempt, pending, next, phase: ScanPhase::Finished };
            let action = ScanAction::Fail { error: ScanError::Capture { inner: e } };
            (settled, action)
        },
        Ok(paths) => {
            if paths.len() == 0 {
                attempt_exhausted(state)
            } else {
                let first = paths[0].clone();
                proof {
                    assert(first@ == paths@[0]@);
                }
                let ScanState { budget, attempt, pending: _, next: _, phase: _ } = state;
                (
                    ScanState {
                        budget,
                        attempt,
                        pending: paths,
                        next: 1,
                        phase: ScanPhase::AwaitDecode,
                    },
                    ScanAction::Decode { path: first },
                )
            }
        },
    }
}

/// Feeds one decode verdict into the scan: the first payload short-circuits
/// everything; absence moves to the next file, the next attempt, or — after
/// the final attempt — the budget-exhaustion failure.
pub fn scan_on_decode(state: ScanState, found: Option<String>) -> (r: (ScanState, ScanAction))
    requires
        state.wf(),
        state.phase == ScanPhase::AwaitDecode,
    ensures
        r.0.wf(),
        r.0.budget == state.budget,
        found matches Some(uri) ==> r.0.phase == ScanPhase::Finished && (
        r.1 matches ScanAction::Succeed { payload } && payload@ == uri@),
        found is None && state.next < state.pending@.len() ==> r.0.attempt == state.attempt
            && r.0.next == state.next + 1 && r.0.phase == ScanPhase::AwaitDecode && (
        r.1 matches ScanAction::Decode { path } && path@
            == state.pending@[state.next as int]@),
        found is None && state.next == state.pending@.len() && state.attempt
            < state.budget.attempts ==> r.0.attempt == state.attempt + 1 && r.1 == (
        ScanAction::SleepThenCapture {
            secs: state.budget.interval,
            attempt: (state.attempt + 1) as u32,
        }),
        found is None && state.next == state.pending@.len() && state.attempt
            == state.budget.attempts ==> r.1 == (ScanAction::Fail {
            error: ScanError::NoQrFound { attempts: state.budget.attempts },
        }),
{
    match found {
        Some(uri) => {
            let ScanState { budget, attempt, pending, next, phase: _ } = state;
            let settled = ScanState { budget, attempt, pending, next, phase: ScanPhase::Finished };
            let action = ScanAction::Succeed { payload: uri };
            (settled, action)
        },
        None => {
            if state.next < state.pending.len() {
                let path = state.pending[state.next].clone();
                proof {
                    assert(path@ == state.pending@[state.next as int]@);
                }
                let ScanState { budget, attempt, pending, next, phase } = state;
                (
                    ScanState { budget, attempt, pending, next: next + 1, phase },
                    ScanAction::Decode { path },
                )
            } else {
                attempt_exhausted(state)
            }
        },
    }
}

} // verus!
