//! The Display Capture Multiplexer: how many displays to capture, which
//! files to write, and the fallback chain between the external capture tool
//! and the library-based capture, as a step-by-step plan. The side effects
//! (spawning the tool, saving monitor images) happen outside; every decision
//! between them is made and verified here.

use vstd::prelude::*;
use vstd::string::StrSliceExecFns;
use vstd::string::StringExecFns;

use crate::errors::CaptureError;
use crate::strutil::ascii_trimmed;
use crate::strutil::dec_rep;
use crate::strutil::is_prefix_of;
use crate::strutil::line_bounds;
use crate::strutil::split_lines;
use crate::strutil::str_has_prefix;
use crate::strutil::trimmed_bounds;
use crate::strutil::u32_to_dec_string;
use crate::strutil::usize_to_dec_string;

verus! {

/// Pathological display metadata is clamped to this many displays.
pub const MAX_DETECTED_DISPLAYS: usize = 6;

/// The external capture tool is killed after this many seconds.
pub const SCREEN_CAPTURE_TIMEOUT_SECS: u64 = 12;

/// The capture tool's exit is polled this often, in milliseconds.
pub const SCREEN_CAPTURE_POLL_MS: u64 = 100;

/// A line that the display metadata query counts as one display: its first
/// non-whitespace text starts with `Resolution:`.
pub open spec fn is_resolution_line(line: Seq<char>) -> bool {
    is_prefix_of("Resolution:"@, ascii_trimmed(line))
}

/// How many lines of the metadata output name a resolution.
pub open spec fn resolution_line_count(s: Seq<char>) -> nat {
    split_lines(s).filter(|l: Seq<char>| is_resolution_line(l)).len()
}

fn line_is_resolution(s: &str, lo: usize, hi: usize) -> (r: bool)
    requires
        lo <= hi <= s@.len(),
    ensures
        r == is_resolution_line(s@.subrange(lo as int, hi as int)),
{
    let (a, b) = trimmed_bounds(s, lo, hi);
    let piece = s.substring_char(a, b);
    proof {
        assert(piece@ == ascii_trimmed(s@.subrange(lo as int, hi as int)));
    }
    str_has_prefix(piece, "Resolution:")
}

/// Counts the metadata lines that name a resolution, one per display.
pub fn count_resolution_lines(stdout: &str) -> (n: usize)
    ensures
        n == resolution_line_count(stdout@),
{
    let bounds = line_bounds(stdout);
    let ghost lines = split_lines(stdout@);
    let mut n: usize = 0;
    let mut i: usize = 0;
    proof {
        assert(lines.take(0).filter(|l: Seq<char>| is_resolution_line(l)) =~= Seq::<
            Seq<char>,
        >::empty());
    }
    while i < bounds.len()
        invariant
            0 <= i <= bounds@.len(),
            bounds@.len() == lines.len(),
            lines == split_lines(stdout@),
            forall|k: int|
                0 <= k < bounds@.len() ==> {
                    &&& 0 <= #[trigger] bounds@[k].0 <= bounds@[k].1 <= stdout@.len()
                    &&& stdout@.subrange(bounds@[k].0 as int, bounds@[k].1 as int) == lines[k]
                },
            n == lines.take(i as int).filter(|l: Seq<char>| is_resolution_line(l)).len(),
            n <= i,
        decreases bounds@.len() - i,
    {
        let (lo, hi) = bounds[i];
        proof {
            reveal_with_fuel(Seq::filter, 2);
            assert(lines.take(i + 1).drop_last() =~= lines.take(i as int));
            assert(lines.take(i + 1).last() == lines[i as int]);
        }
        if line_is_resolution(stdout, lo, hi) {
            n += 1;
        }
        i += 1;
    }
    proof {
        assert(lines.take(lines.len() as int) =~= lines);
    }
    n
}

/// The display count a metadata query yields: the resolution lines, at least
/// 1 (a display exists even when metadata omits its resolution), clamped to
/// the maximum.
pub open spec fn profiler_display_count(stdout: Seq<char>) -> int {
    let c = resolution_line_count(stdout);
    if c == 0 {
        1
    } else if c > 6 {
        6
    } else {
        c as int
    }
}

/// The display count the whole discovery yields: the metadata query when it
/// succeeded, else the library's monitor enumeration when it found any,
/// else exactly 1.
pub open spec fn resolved_display_count(profiler: Option<Seq<char>>, monitors: int) -> int {
    match profiler {
        Some(out) => profiler_display_count(out),
        None => if monitors > 0 {
            if monitors > 6 {
                6
            } else {
                monitors
            }
        } else {
            1
        },
    }
}

/// Display count discovery from what the platform reported: the metadata
/// query's stdout when it ran and succeeded, and the library's monitor count
/// (0 when enumeration failed or found nothing). Always 1 to 6.
pub fn resolve_display_count(profiler_stdout: Option<&String>, monitor_count: usize) -> (n: usize)
    ensures
        n == resolved_display_count(
            match profiler_stdout {
                Some(s) => Some(s@),
                None => None,
            },
            monitor_count as int,
        ),
        1 <= n <= MAX_DETECTED_DISPLAYS,
{
    match profiler_stdout {
        Some(out) => {
            let c = count_resolution_lines(out.as_str());
            if c == 0 {
                1
            } else if c > MAX_DETECTED_DISPLAYS {
                MAX_DETECTED_DISPLAYS
            } else {
                c
            }
        },
        None => {
            if monitor_count > 0 {
                if monitor_count > MAX_DETECTED_DISPLAYS {
                    MAX_DETECTED_DISPLAYS
                } else {
                    monitor_count
                }
            } else {
                1
            }
        },
    }
}

/// The file a multi-display capture writes for one display of one attempt.
pub open spec fn multi_screenshot_name(
    base_dir: Seq<char>,
    attempt: nat,
    display: nat,
) -> Seq<char> {
    base_dir + "/screen-"@ + dec_rep(attempt) + "-display-"@ + dec_rep(display) + ".png"@
}

/// The file a single-display capture writes for one attempt.
pub open spec fn single_screenshot_name(base_dir: Seq<char>, attempt: nat) -> Seq<char> {
    base_dir + "/screen-"@ + dec_rep(attempt) + ".png"@
}

/// Builds the deterministic per-display screenshot path.
pub fn multi_screenshot_path(base_dir: &str, attempt: u32, display: usize) -> (r: String)
    ensures
        r@ == multi_screenshot_name(base_dir@, attempt as nat, display as nat),
{
    let mut r = String::from_str(base_dir);
    r.append("/screen-");
    let a = u32_to_dec_string(attempt);
    r.append(a.as_str());
    r.append("-display-");
    let d = usize_to_dec_string(display);
    r.append(d.as_str());
    r.append(".png");
    r
}

/// Builds the deterministic single-display screenshot path.
pub fn single_screenshot_path(base_dir: &str, attempt: u32) -> (r: String)
    ensures
        r@ == single_screenshot_name(base_dir@, attempt as nat),
{
    let mut r = String::from_str(base_dir);
    r.append("/screen-");
    let a = u32_to_dec_string(attempt);
    r.append(a.as_str());
    r.append(".png");
    r
}

/// One outside action the capture plan asks for.
#[derive(Debug, Clone, PartialEq, Eq)]
pub enum CaptureRequest {
    /// Run the external capture tool once, writing all the named files.
    External { paths: Vec<String> },
    /// Capture every monitor with the capture library, saving each under the
    /// base directory with the attempt's deterministic multi-display names.
    Library,
}

/// What one outside capture action came to.
#[derive(Debug, Clone, PartialEq, Eq)]
pub enum CaptureOutcome {
    /// The external tool ran: exit status, or failure to run or finish.
    External { result: ExternalExit },
    /// The library capture ran: the files it saved, `None` when enumeration
    /// or any capture or save failed.
    Library { saved: Option<Vec<String>> },
}

/// How one external capture invocation ended.
#[derive(Debug, Clone, Copy, PartialEq, Eq)]
pub enum ExternalExit {
    Success,
    Failure,
    TimedOut,
}

/// Where the fallback chain stands.
#[derive(Debug, Clone, Copy, PartialEq, Eq)]
pub enum CaptureStage {
    /// Waiting for the one multi-file external invocation.
    MultiExternal,
    /// Waiting for the library-based per-monitor fallback.
    MultiLibrary,
    /// Waiting for the library-based capture tried first on one display.
    SingleLibrary,
    /// Waiting for the single-file external capture, the last resort.
    Single,
    /// The plan is finished; no further outcome is expected.
    Settled,
}

/// The capture plan for one attempt: which fallback is in flight and what
/// files the attempt writes.
pub struct CaptureAttempt {
    pub base_dir: String,
    pub attempt: u32,
    pub display_count: usize,
    pub stage: CaptureStage,
}

/// What the plan says to do next.
#[derive(Debug, PartialEq, Eq)]
pub enum CaptureStep {
    /// Perform this request, then report its outcome.
    Run { request: CaptureRequest },
    /// The attempt produced these files.
    Done { paths: Vec<String> },
    /// Every fallback is exhausted; the scan terminates with this failure.
    Fail { error: CaptureError },
}

/// The multi-display file list for an attempt: one file per display, 1-based.
pub open spec fn multi_paths_spec(base_dir: Seq<char>, attempt: nat, count: nat) -> Seq<Seq<char>>
{
    Seq::new(count, |i: int| multi_screenshot_name(base_dir, attempt, (i + 1) as nat))
}

fn build_multi_paths(base_dir: &str, attempt: u32, count: usize) -> (r: Vec<String>)
    ensures
        r.deep_view() == multi_paths_spec(base_dir@, attempt as nat, count as nat),
{
    let mut r: Vec<String> = Vec::new();
    let mut i: usize = 0;
    while i < count
        invariant
            0 <= i <= count,
            r@.len() == i,
            forall|k: int|
                0 <= k < r@.len() ==> #[trigger] r@[k]@ == multi_screenshot_name(
                    base_dir@,
                    attempt as nat,
                    (k + 1) as nat,
                ),
        decreases count - i,
    {
        let p = multi_screenshot_path(base_dir, attempt, i + 1);
        r.push(p);
        i += 1;
    }
    proof {
        assert(r.deep_view() =~= multi_paths_spec(base_dir@, attempt as nat, count as nat));
    }
    r
}

/// Begins the capture plan for one attempt, as the multiplexer's fallback
/// policy dictates: more than one display starts with the one multi-file
/// external invocation; one display starts with the library capture on
/// platforms where the external tool is not primary, else with the single
/// external capture.
pub fn capture_screens_for_attempt(
    base_dir: &str,
    attempt: u32,
    display_count: usize,
    library_first_for_single: bool,
) -> (r: (CaptureAttempt, CaptureStep))
    ensures
        r.0.base_dir@ == base_dir@,
        r.0.attempt == attempt,
        r.0.display_count == display_count,
        display_count > 1 ==> r.0.stage == CaptureStage::MultiExternal && (
        r.1 matches CaptureStep::Run {
            request: CaptureRequest::External { paths },
        } && paths.deep_view() == multi_paths_spec(base_dir@, attempt as nat, display_count as nat)),
        display_count <= 1 && library_first_for_single ==> r.0.stage == CaptureStage::SingleLibrary
            && r.1 == (CaptureStep::Run { request: CaptureRequest::Library }),
        display_count <= 1 && !library_first_for_single ==> r.0.stage == CaptureStage::Single && (
        r.1 matches CaptureStep::Run {
            request: CaptureRequest::External { paths },
        } && paths.deep_view() == seq![single_screenshot_name(base_dir@, attempt as nat)]),
{
    let owned_base = String::from_str(base_dir);
    if display_count > 1 {
        let paths = build_multi_paths(base_dir, attempt, display_count);
        let state = CaptureAttempt {
            base_dir: owned_base,
            attempt,
            display_count,
            stage: CaptureStage::MultiExternal,
        };
        (state, CaptureStep::Run { request: CaptureRequest::External { paths } })
    } else if library_first_for_single {
        let state = CaptureAttempt {
            base_dir: owned_base,
            attempt,
            display_count,
            stage: CaptureStage::SingleLibrary,
        };
        (state, CaptureStep::Run { request: CaptureRequest::Library })
    } else {
        let single = single_screenshot_path(base_dir, attempt);
        let mut paths: Vec<String> = Vec::new();
        paths.push(single);
        proof {
            assert(paths.deep_view() =~= seq![
                single_screenshot_name(base_dir@, attempt as nat),
            ]);
        }
        let state = CaptureAttempt {
            base_dir: owned_base,
            attempt,
            display_count,
            stage: CaptureStage::Single,
        };
        (state, CaptureStep::Run { request: CaptureRequest::External { paths } })
    }
}

/// The outcome a stage can be fed: the one of the request it issued; a
/// settled plan expects none.
pub open spec fn outcome_matches_stage(stage: CaptureStage, outcome: CaptureOutcome) -> bool {
    match stage {
        CaptureStage::MultiExternal | CaptureStage::Single => outcome matches
            CaptureOutcome::External { .. },
        CaptureStage::MultiLibrary | CaptureStage::SingleLibrary => outcome matches
            CaptureOutcome::Library { .. },
        CaptureStage::Settled => false,
    }
}

/// Feeds one outcome into the plan and yields the next step: a successful
/// multi-display capture finishes the attempt; a failed one falls back to the
/// library; a failed or empty library capture falls back to the single
/// capture; a failed single capture fails the attempt with the permission or
/// timeout diagnostic.
pub fn capture_next(state: CaptureAttempt, outcome: &CaptureOutcome) -> (r: (
    CaptureAttempt,
    CaptureStep,
))
    requires
        outcome_matches_stage(state.stage, *outcome),
    ensures
        r.0.base_dir@ == state.base_dir@,
        r.0.attempt == state.attempt,
        r.0.display_count == state.display_count,
        // a successful external capture settles the attempt with its files
        state.stage == CaptureStage::MultiExternal && (outcome matches CaptureOutcome::External {
            result: ExternalExit::Success,
        }) ==> r.0.stage == CaptureStage::Settled && (r.1 matches CaptureStep::Done { paths }
            && paths.deep_view() == multi_paths_spec(
            state.base_dir@,
            state.attempt as nat,
            state.display_count as nat,
        )),
        // a failed external multi capture falls back to the library
        state.stage == CaptureStage::MultiExternal && (outcome matches CaptureOutcome::External {
            result,
        } && result != ExternalExit::Success) ==> r.0.stage == CaptureStage::MultiLibrary && r.1
            == (CaptureStep::Run { request: CaptureRequest::Library }),
        // a library capture that saved files settles the attempt with them
        (state.stage == CaptureStage::MultiLibrary || state.stage == CaptureStage::SingleLibrary)
            && (outcome matches CaptureOutcome::Library { saved: Some(paths) } && paths@.len() > 0)
            ==> r.0.stage == CaptureStage::Settled && (r.1 matches CaptureStep::Done { paths: p }
            && p.deep_view() == (match outcome {
            CaptureOutcome::Library { saved: Some(q) } => q.deep_view(),
            _ => Seq::empty(),
        })),
        // a failed or empty library capture falls through to single capture
        (state.stage == CaptureStage::MultiLibrary || state.stage == CaptureStage::SingleLibrary)
            && (outcome matches CaptureOutcome::Library { saved } && (saved matches Some(paths)
            ==> paths@.len() == 0)) ==> r.0.stage == CaptureStage::Single && (
        r.1 matches CaptureStep::Run {
            request: CaptureRequest::External { paths },
        } && paths.deep_view() == seq![
            single_screenshot_name(state.base_dir@, state.attempt as nat),
        ]),
        // the single capture is the last resort: success settles, failure
        // fails the whole attempt with the exact diagnostic
        state.stage == CaptureStage::Single && (outcome matches CaptureOutcome::External {
            result: ExternalExit::Success,
        }) ==> r.0.stage == CaptureStage::Settled && (r.1 matches CaptureStep::Done { paths }
            && paths.deep_view() == seq![
            single_screenshot_name(state.base_dir@, state.attempt as nat),
        ]),
        state.stage == CaptureStage::Single && (outcome matches CaptureOutcome::External {
            result: ExternalExit::Failure,
        }) ==> r.0.stage == CaptureStage::Settled && r.1 == (CaptureStep::Fail {
            error: CaptureError::Failed,
        }),
        state.stage == CaptureStage::Single && (outcome matches CaptureOutcome::External {
            result: ExternalExit::TimedOut,
        }) ==> r.0.stage == CaptureStage::Settled && r.1 == (CaptureStep::Fail {
            error: CaptureError::TimedOut { seconds: SCREEN_CAPTURE_TIMEOUT_SECS },
        }),
{
    let CaptureAttempt { base_dir, attempt, display_count, stage } = state;
    match stage {
        CaptureStage::MultiExternal => {
            match outcome {
                CaptureOutcome::External { result: ExternalExit::Success } => {
                    let paths = build_multi_paths(base_dir.as_str(), attempt, display_count);
                    (
                        CaptureAttempt {
                            base_dir,
                            attempt,
                            display_count,
                            stage: CaptureStage::Settled,
                        },
                        CaptureStep::Done { paths },
                    )
                },
                _ => (
                    CaptureAttempt {
                        base_dir,
                        attempt,
                        display_count,
                        stage: CaptureStage::MultiLibrary,
                    },
                    CaptureStep::Run { request: CaptureRequest::Library },
                ),
            }
        },
        CaptureStage::MultiLibrary | CaptureStage::SingleLibrary => {
            match outcome {
                CaptureOutcome::Library { saved: Some(paths) } if paths.len() > 0 => {
                    let mut copied: Vec<String> = Vec::new();
                    let mut i: usize = 0;
                    while i < paths.len()
                        invariant
                            0 <= i <= paths@.len(),
                            copied@.len() == i,
                            forall|k: int|
                                0 <= k < i ==> #[trigger] copied@[k]@ == paths@[k]@,
                        decreases paths@.len() - i,
                    {
                        let one = paths[i].clone();
                        proof {
                            assert(one@ == paths@[i as int]@);
                        }
                        copied.push(one);
                        i += 1;
                    }
                    proof {
                        assert(copied.deep_view() =~= paths.deep_view());
                    }
                    (
                        CaptureAttempt {
                            base_dir,
                            attempt,
                            display_count,
                            stage: CaptureStage::Settled,
                        },
                        CaptureStep::Done { paths: copied },
                    )
                },
                _ => {
                    let single = single_screenshot_path(base_dir.as_str(), attempt);
                    let mut paths: Vec<String> = Vec::new();
                    paths.push(single);
                    proof {
                        assert(paths.deep_view() =~= seq![
                            single_screenshot_name(base_dir@, attempt as nat),
                        ]);
                    }
                    (
                        CaptureAttempt {
                            base_dir,
                            attempt,
                            display_count,
                            stage: CaptureStage::Single,
                        },
                        CaptureStep::Run { request: CaptureRequest::External { paths } },
                    )
                },
            }
        },
        CaptureStage::Single => {
            match outcome {
                CaptureOutcome::External { result: ExternalExit::Success } => {
                    let single = single_screenshot_path(base_dir.as_str(), attempt);
                    let mut paths: Vec<String> = Vec::new();
                    paths.push(single);
                    proof {
                        assert(paths.deep_view() =~= seq![
                            single_screenshot_name(base_dir@, attempt as nat),
                        ]);
                    }
                    (
                        CaptureAttempt {
                            base_dir,
                            attempt,
                            display_count,
                            stage: CaptureStage::Settled,
                        },
                        CaptureStep::Done { paths },
                    )
                },
                CaptureOutcome::External { result: ExternalExit::Failure } => (
                    CaptureAttempt {
                        base_dir,
                        attempt,
                        display_count,
                        stage: CaptureStage::Settled,
                    },
                    CaptureStep::Fail { error: CaptureError::Failed },
                ),
                CaptureOutcome::External { result: ExternalExit::TimedOut } => (
                    CaptureAttempt {
                        base_dir,
                        attempt,
                        display_count,
                        stage: CaptureStage::Settled,
                    },
                    CaptureStep::Fail {
                        error: CaptureError::TimedOut { seconds: SCREEN_CAPTURE_TIMEOUT_SECS },
                    },
                ),
                _ => (
                    CaptureAttempt {
                        base_dir,
                        attempt,
                        display_count,
                        stage: CaptureStage::Settled,
                    },
                    CaptureStep::Fail { error: CaptureError::Failed },
                ),
            }
        },
        CaptureStage::Settled => (
            CaptureAttempt { base_dir, attempt, display_count, stage: CaptureStage::Settled },
            CaptureStep::Fail { error: CaptureError::Failed },
        ),
    }
}

/// An external capture of the named files, rejected when no output file is
/// asked for.
pub fn capture_screen_images(paths: Vec<String>) -> (r: Result<CaptureRequest, CaptureError>)
    ensures
        paths@.len() == 0 <==> r is Err,
        r matches Err(e) ==> e == CaptureError::NoOutputPaths,
        r matches Ok(req) ==> req == (CaptureRequest::External { paths }),
{
    if paths.len() == 0 {
        Err(CaptureError::NoOutputPaths)
    } else {
        Ok(CaptureRequest::External { paths })
    }
}

/// An external capture of exactly one file.
pub fn capture_screen_image(path: String) -> (r: CaptureRequest)
    ensures
        r matches CaptureRequest::External { paths } && paths.deep_view() == seq![path@],
{
    let ghost p = path@;
    let mut paths: Vec<String> = Vec::new();
    paths.push(path);
    proof {
        assert(paths.deep_view() =~= seq![p]);
    }
    CaptureRequest::External { paths }
}

/// What the poll loop around a running capture process does next.
#[derive(Debug, Clone, Copy, PartialEq, Eq)]
pub enum CaptureWait {
    /// The process exited cleanly: the capture succeeded.
    Succeed,
    /// The process exited with a non-zero status: fail with the permission
    /// diagnostic.
    FailPermission,
    /// The process is still running within the budget: sleep this many
    /// milliseconds and poll again.
    Poll { sleep_ms: u64 },
    /// The process outlived its budget: kill it, reap it, and fail with the
    /// timeout diagnostic.
    KillAndTimeout,
}

/// The poll/kill policy around the external capture process: it may never
/// hang the scan loop. `exited` is the process status when it has exited
/// (`true` for success), `None` while it is still running.
pub fn capture_wait_step(elapsed_ms: u64, timeout_ms: u64, exited: Option<bool>) -> (r: CaptureWait)
    ensures
        exited == Some(true) ==> r == CaptureWait::Succeed,
        exited == Some(false) ==> r == CaptureWait::FailPermission,
        exited is None && elapsed_ms >= timeout_ms ==> r == CaptureWait::KillAndTimeout,
        exited is None && elapsed_ms < timeout_ms ==> r == (CaptureWait::Poll {
            sleep_ms: SCREEN_CAPTURE_POLL_MS,
        }),
{
    match exited {
        Some(true) => CaptureWait::Succeed,
        Some(false) => CaptureWait::FailPermission,
        None => {
            if elapsed_ms >= timeout_ms {
                CaptureWait::KillAndTimeout
            } else {
                CaptureWait::Poll { sleep_ms: SCREEN_CAPTURE_POLL_MS }
            }
        },
    }
}

} // verus!
