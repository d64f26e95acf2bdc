//! Correction of the kernel's recorded boot time after the wall clock has
//! been resynchronised, and of the audit logs that depend on it.
//!
//! The library holds every decision of one corrective run; the program
//! around it performs the kernel accesses, clock readings and subprocesses
//! that those decisions ask for.

pub mod text;
pub mod output;
pub mod fault;
pub mod drift;
pub mod correction;
pub mod run;
