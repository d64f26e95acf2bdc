//! Applying a shift to the recorded boot time.

use vstd::prelude::*;
use crate::fault::Fault;

verus! {

/// The boot time, or the boot time plus the shift, leaves the signed word.
pub open spec fn correction_overflows(boot_time: int, shift: int) -> bool {
    boot_time > i64::MAX || boot_time + shift > i64::MAX || boot_time + shift < i64::MIN
}

/// The outcome of correcting `boot_time` by `shift` seconds.
pub open spec fn correction_spec(boot_time: u64, shift: i64) -> Result<u64, Fault> {
    if correction_overflows(boot_time as int, shift as int) {
        Err(Fault::ArithmeticOverflow)
    } else if boot_time + shift < 0 {
        Err(Fault::NegativeOrOutOfRange)
    } else {
        Ok((boot_time + shift) as u64)
    }
}

/// Adds a signed shift to an unsigned boot time through the signed word,
/// failing on overflow and on a result before the epoch.
pub fn corrected_boot_time(boot_time: u64, shift: i64) -> (r: Result<u64, Fault>)
    ensures
        r == correction_spec(boot_time, shift),
{
    if boot_time > i64::MAX as u64 {
        return Err(Fault::ArithmeticOverflow);
    }
    match (boot_time as i64).checked_add(shift) {
        None => Err(Fault::ArithmeticOverflow),
        Some(v) => {
            if v < 0 {
                Err(Fault::NegativeOrOutOfRange)
            } else {
                Ok(v as u64)
            }
        },
    }
}

/// A zero shift leaves every boot time that the signed word holds unchanged.
pub proof fn lemma_zero_shift_identity(boot_time: u64)
    requires
        boot_time <= i64::MAX,
    ensures
        correction_spec(boot_time, 0) == Ok::<u64, Fault>(boot_time),
{
}

} // verus!
