//! The decisions of one corrective run, as a state machine.
//!
//! The driver performs each [`Action`] that a step hands back and reports
//! what came of it as the next [`Event`]. The order is fixed: locate the
//! boot-time symbol, read it, take a snapshot, resynchronise, take a second
//! snapshot, write the corrected value once, then rewrite every audit log in
//! turn whatever became of the ones before.

use vstd::prelude::*;
use vstd::pervasive::unreached;
use vstd::string::StringExecFns;
use crate::correction::{correction_spec, corrected_boot_time};
use crate::drift::{compute_drift, elapsed_seconds, fits_i64, shift_of, ClockSnapshot, DriftResult};
use crate::fault::Fault;
use crate::output::{OutputExt, ToolOutput};
use crate::text::{decimal, decimal_string};

verus! {

/// Where a run stands: what it waits for, and what it has learnt so far.
pub enum Phase {
    AwaitLocate,
    AwaitBootTime,
    AwaitPreSnapshot { boot_time: u64 },
    AwaitSync { boot_time: u64, pre: ClockSnapshot },
    AwaitPostSnapshot { boot_time: u64, pre: ClockSnapshot },
    AwaitWrite { corrected: u64 },
    AwaitLog { corrected: u64, index: usize, failure: Option<Fault> },
    Done,
}

/// What came of the last action.
pub enum Event {
    Located,
    LocateFailed,
    BootTimeRead { value: u64 },
    ReadFailed,
    Snapshot { snapshot: ClockSnapshot },
    SyncExited { output: ToolOutput },
    Written,
    WriteFailed,
    LogRewritten { output: ToolOutput },
}

/// What the driver is to do next.
pub enum Action {
    /// Locate the kernel's boot-time symbol.
    Locate,
    /// Read the value at the located symbol.
    ReadBootTime,
    /// Read the monotonic and the wall clock, back to back.
    CaptureSnapshot,
    /// Run the synchronisation client once, with an empty environment.
    RunSync,
    /// Write `corrected` over the kernel's boot time; `drift` and `original`
    /// are what it was derived from.
    WriteBootTime { drift: DriftResult, original: u64, corrected: u64 },
    /// Run the log rewriter with these two arguments.
    RewriteLog { argument: String, path: String },
    /// Stop; the run succeeded or failed as `outcome` says.
    Finish { outcome: Result<(), Fault> },
}

/// One corrective run over a list of audit logs.
pub struct Correction {
    pub phase: Phase,
    pub log_files: Vec<String>,
}

/// The name of the kernel symbol that holds the boot time.
pub const BOOT_TIME_SYMBOL: &'static str = "boot_time";

/// The audit logs whose timestamps follow the boot time.
pub fn default_log_files() -> (r: Vec<String>)
    ensures
        r@.len() == 2,
        r@[0]@ == "/var/adm/utmpx"@,
        r@[1]@ == "/var/adm/wtmpx"@,
{
    let mut r: Vec<String> = Vec::new();
    r.push(String::from_str("/var/adm/utmpx"));
    r.push(String::from_str("/var/adm/wtmpx"));
    r
}

/// `a` runs the log rewriter on `path` with the decimal text of `corrected`.
pub open spec fn rewrites(a: Action, corrected: u64, path: String) -> bool {
    a matches Action::RewriteLog { argument, path: p } && argument@ == decimal(corrected as nat)
        && p@ == path@
}

/// The first log failure after one more rewrite: the one already recorded,
/// else this rewrite's own, if it failed.
pub open spec fn failure_after(
    failure: Option<Fault>,
    output: ToolOutput,
    path: String,
    recorded: Option<Fault>,
) -> bool {
    if failure is Some {
        recorded == failure
    } else if output.succeeded() {
        recorded is None
    } else {
        recorded matches Some(Fault::LogRewriteFailed { path: p, detail }) && p@ == path@
            && detail@ == output.info_spec()
    }
}

/// `a` ends the run with the outcome that a recorded failure calls for.
pub open spec fn finishes_with(a: Action, recorded: Option<Fault>) -> bool {
    a matches Action::Finish { outcome } && match recorded {
        None => outcome is Ok,
        Some(f) => outcome == Err::<(), Fault>(f),
    }
}

/// `a` ends the run with fault `f`.
pub open spec fn fails_with(n: Correction, a: Action, f: Fault) -> bool {
    n.phase is Done && a == (Action::Finish { outcome: Err(f) })
}

/// How one event moves the run from `c` to `n`, handing back `a`.
pub open spec fn transition(c: Correction, e: Event, n: Correction, a: Action) -> bool {
    &&& n.log_files == c.log_files
    &&& match c.phase {
        Phase::AwaitLocate => match e {
            Event::Located => n.phase is AwaitBootTime && a is ReadBootTime,
            _ => fails_with(n, a, Fault::SymbolNotFound),
        },
        Phase::AwaitBootTime => match e {
            Event::BootTimeRead { value } => n.phase == (Phase::AwaitPreSnapshot { boot_time: value })
                && a is CaptureSnapshot,
            _ => fails_with(n, a, Fault::KernelReadError),
        },
        Phase::AwaitPreSnapshot { boot_time } => match e {
            Event::Snapshot { snapshot } => n.phase == (Phase::AwaitSync { boot_time, pre: snapshot })
                && a is RunSync,
            _ => false,
        },
        Phase::AwaitSync { boot_time, pre } => match e {
            Event::SyncExited { output } => if output.succeeded() {
                n.phase == (Phase::AwaitPostSnapshot { boot_time, pre }) && a is CaptureSnapshot
            } else {
                n.phase is Done && (a matches Action::Finish {
                    outcome: Err(Fault::SyncFailed { detail }),
                } && detail@ == output.info_spec())
            },
            _ => false,
        },
        Phase::AwaitPostSnapshot { boot_time, pre } => match e {
            Event::Snapshot { snapshot: post } => if !fits_i64(shift_of(pre, post)) {
                fails_with(n, a, Fault::ArithmeticOverflow)
            } else {
                match correction_spec(boot_time, shift_of(pre, post) as i64) {
                    Err(f) => fails_with(n, a, f),
                    Ok(v) => n.phase == (Phase::AwaitWrite { corrected: v }) && (a matches Action::WriteBootTime {
                        drift,
                        original,
                        corrected,
                    } && drift.elapsed_process_seconds == elapsed_seconds(pre, post)
                        && drift.shift_seconds == shift_of(pre, post) && original == boot_time
                        && corrected == v),
                }
            },
            _ => false,
        },
        Phase::AwaitWrite { corrected } => match e {
            Event::Written => if c.log_files@.len() == 0 {
                n.phase is Done && finishes_with(a, None)
            } else {
                n.phase == (Phase::AwaitLog { corrected, index: 0, failure: None }) && rewrites(
                    a,
                    corrected,
                    c.log_files@[0],
                )
            },
            _ => fails_with(n, a, Fault::KernelWriteError),
        },
        Phase::AwaitLog { corrected, index, failure } => match e {
            Event::LogRewritten { output } => if index + 1 < c.log_files@.len() {
                n.phase matches Phase::AwaitLog { corrected: c2, index: i2, failure: recorded }
                    && c2 == corrected && i2 == index + 1
                    && failure_after(failure, output, c.log_files@[index as int], recorded)
                    && rewrites(a, corrected, c.log_files@[index + 1])
            } else {
                n.phase is Done && exists|recorded: Option<Fault>|
                    failure_after(failure, output, c.log_files@[index as int], recorded)
                        && #[trigger] finishes_with(a, recorded)
            },
            _ => false,
        },
        Phase::Done => false,
    }
}

/// A failed log rewrite does not stop the ones after it: whatever the
/// rewrite of one log gave, the run next rewrites the following log with the
/// same corrected boot time, and keeps the first failure for the end.
pub proof fn lemma_rewrites_continue_after_failure(c: Correction, e: Event, n: Correction, a: Action)
    requires
        c.phase matches Phase::AwaitLog { index, .. } && index + 1 < c.log_files@.len(),
        e is LogRewritten,
        transition(c, e, n, a),
    ensures
        c.phase matches Phase::AwaitLog { corrected, index, failure } && n.phase matches Phase::AwaitLog {
            corrected: c2,
            index: i2,
            failure: f2,
        } && c2 == corrected && i2 == index + 1 && rewrites(a, corrected, c.log_files@[index + 1])
            && (failure is Some ==> f2 == failure)
            && ((e matches Event::LogRewritten { output } && !output.succeeded() && failure is None)
                ==> (f2 matches Some(Fault::LogRewriteFailed { path, .. })
                    && path@ == c.log_files@[index as int]@)),
{
}

impl Correction {
    /// Every log index that the run waits on names a configured log.
    pub open spec fn wf(&self) -> bool {
        self.phase matches Phase::AwaitLog { index, .. } ==> index < self.log_files@.len()
    }

    /// Whether `e` answers the action the run is waiting on. A second
    /// snapshot must not read the monotonic clock behind the first.
    pub open spec fn accepts(&self, e: Event) -> bool {
        match self.phase {
            Phase::AwaitLocate => e is Located || e is LocateFailed,
            Phase::AwaitBootTime => e is BootTimeRead || e is ReadFailed,
            Phase::AwaitPreSnapshot { .. } => e is Snapshot,
            Phase::AwaitSync { .. } => e is SyncExited,
            Phase::AwaitPostSnapshot { pre, .. } => e matches Event::Snapshot { snapshot }
                && pre.monotonic_nanos <= snapshot.monotonic_nanos,
            Phase::AwaitWrite { .. } => e is Written || e is WriteFailed,
            Phase::AwaitLog { .. } => e is LogRewritten,
            Phase::Done => false,
        }
    }

    /// Starts a run over `log_files`; the first action locates the symbol.
    pub fn new(log_files: Vec<String>) -> (r: (Correction, Action))
        ensures
            r.0.phase is AwaitLocate,
            r.0.log_files == log_files,
            r.0.wf(),
            r.1 is Locate,
    {
        (Correction { phase: Phase::AwaitLocate, log_files }, Action::Locate)
    }

    /// Whether the run has stopped.
    pub fn is_done(&self) -> (r: bool)
        ensures
            r == self.phase is Done,
    {
        match self.phase {
            Phase::Done => true,
            _ => false,
        }
    }

    /// Tells whether `step` may be given `e` now.
    pub fn accepts_event(&self, e: &Event) -> (r: bool)
        ensures
            r == self.accepts(*e),
    {
        match &self.phase {
            Phase::AwaitLocate => match e {
                Event::Located | Event::LocateFailed => true,
                _ => false,
            },
            Phase::AwaitBootTime => match e {
                Event::BootTimeRead { .. } | Event::ReadFailed => true,
                _ => false,
            },
            Phase::AwaitPreSnapshot { .. } => match e {
                Event::Snapshot { .. } => true,
                _ => false,
            },
            Phase::AwaitSync { .. } => match e {
                Event::SyncExited { .. } => true,
                _ => false,
            },
            Phase::AwaitPostSnapshot { pre, .. } => match e {
                Event::Snapshot { snapshot } => pre.monotonic_nanos <= snapshot.monotonic_nanos,
                _ => false,
            },
            Phase::AwaitWrite { .. } => match e {
                Event::Written | Event::WriteFailed => true,
                _ => false,
            },
            Phase::AwaitLog { .. } => match e {
                Event::LogRewritten { .. } => true,
                _ => false,
            },
            Phase::Done => false,
        }
    }

    fn rewrite_action(corrected: u64, path: &String) -> (a: Action)
        ensures
            rewrites(a, corrected, *path),
    {
        Action::RewriteLog { argument: decimal_string(corrected), path: path.clone() }
    }

    /// Moves the run on by one event and says what to do next.
    pub fn step(self, e: Event) -> (r: (Correction, Action))
        requires
            self.wf(),
            self.accepts(e),
        ensures
            r.0.wf(),
            transition(self, e, r.0, r.1),
    {
        let Correction { phase, log_files } = self;
        match phase {
            Phase::AwaitLocate => match e {
                Event::Located => (Correction { phase: Phase::AwaitBootTime, log_files }, Action::ReadBootTime),
                _ => Self::fail(log_files, Fault::SymbolNotFound),
            },
            Phase::AwaitBootTime => match e {
                Event::BootTimeRead { value } => (
                    Correction { phase: Phase::AwaitPreSnapshot { boot_time: value }, log_files },
                    Action::CaptureSnapshot,
                ),
                _ => Self::fail(log_files, Fault::KernelReadError),
            },
            Phase::AwaitPreSnapshot { boot_time } => match e {
                Event::Snapshot { snapshot } => (
                    Correction { phase: Phase::AwaitSync { boot_time, pre: snapshot }, log_files },
                    Action::RunSync,
                ),
                _ => unreached(),
            },
            Phase::AwaitSync { boot_time, pre } => match e {
                Event::SyncExited { output } => {
                    if output.success() {
                        (
                            Correction { phase: Phase::AwaitPostSnapshot { boot_time, pre }, log_files },
                            Action::CaptureSnapshot,
                        )
                    } else {
                        let detail = output.info();
                        Self::fail(log_files, Fault::SyncFailed { detail })
                    }
                },
                _ => unreached(),
            },
            Phase::AwaitPostSnapshot { boot_time, pre } => match e {
                Event::Snapshot { snapshot: post } => match compute_drift(&pre, &post) {
                    Err(f) => Self::fail(log_files, f),
                    Ok(drift) => match corrected_boot_time(boot_time, drift.shift_seconds) {
                        Err(f) => Self::fail(log_files, f),
                        Ok(v) => (
                            Correction { phase: Phase::AwaitWrite { corrected: v }, log_files },
                            Action::WriteBootTime { drift, original: boot_time, corrected: v },
                        ),
                    },
                },
                _ => unreached(),
            },
            Phase::AwaitWrite { corrected } => match e {
                Event::Written => {
                    if log_files.len() == 0 {
                        (Correction { phase: Phase::Done, log_files }, Action::Finish { outcome: Ok(()) })
                    } else {
                        let a = Self::rewrite_action(corrected, &log_files[0]);
                        (Correction { phase: Phase::AwaitLog { corrected, index: 0, failure: None }, log_files }, a)
                    }
                },
                _ => Self::fail(log_files, Fault::KernelWriteError),
            },
            Phase::AwaitLog { corrected, index, failure } => match e {
                Event::LogRewritten { output } => {
                    let recorded = match failure {
                        Some(f) => Some(f),
                        None => {
                            if output.success() {
                                None
                            } else {
                                let detail = output.info();
                                Some(Fault::LogRewriteFailed { path: log_files[index].clone(), detail })
                            }
                        },
                    };
                    if index < log_files.len() - 1 {
                        let a = Self::rewrite_action(corrected, &log_files[index + 1]);
                        (
                            Correction {
                                phase: Phase::AwaitLog { corrected, index: index + 1, failure: recorded },
                                log_files,
                            },
                            a,
                        )
                    } else {
                        let outcome = match recorded {
                            None => Ok(()),
                            Some(f) => Err(f),
                        };
                        let a = Action::Finish { outcome };
                        assert(finishes_with(a, recorded));
                        (Correction { phase: Phase::Done, log_files }, a)
                    }
                },
                _ => unreached(),
            },
            Phase::Done => unreached(),
        }
    }

    fn fail(log_files: Vec<String>, f: Fault) -> (r: (Correction, Action))
        ensures
            r.0.log_files == log_files,
            r.0.phase is Done,
            r.1 == (Action::Finish { outcome: Err(f) }),
    {
        (Correction { phase: Phase::Done, log_files }, Action::Finish { outcome: Err(f) })
    }
}

} // verus!
