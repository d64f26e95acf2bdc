//! The ways a corrective run can fail.

use vstd::prelude::*;

verus! {

/// Why a run stopped short of a full correction.
pub enum Fault {
    /// The kernel has no symbol of the requested name.
    SymbolNotFound,
    /// The kernel value could not be read.
    KernelReadError,
    /// The kernel value could not be written.
    KernelWriteError,
    /// The synchronisation client exited unsuccessfully; `detail` describes how.
    SyncFailed { detail: String },
    /// The boot time, or the boot time plus the shift, does not fit a signed
    /// 64-bit word.
    ArithmeticOverflow,
    /// The corrected boot time would lie before the epoch.
    NegativeOrOutOfRange,
    /// Rewriting the audit log at `path` failed; `detail` describes how.
    LogRewriteFailed { path: String, detail: String },
}

} // verus!
