//! Reload-value computation for the busy-wait delay timer.
//!
//! The system tick counter that performs the wait is a separate peripheral;
//! only the input validation and the reload arithmetic are logic of this
//! crate. The counter is 24 bits wide, so a requested duration whose reload
//! value exceeds that width is reported as an error rather than silently
//! truncated.

use vstd::prelude::*;

use crate::Error;

verus! {

/// Largest reload value the 24-bit system tick counter accepts.
pub const MAX_SYSTICK_RELOAD: u32 = 0x0100_0000;

/// Computes the timer reload value for a delay of `us` microseconds at a core
/// clock of `core_mhz` megahertz, or reports `Error::InvalidDelay` when the
/// product exceeds the 24-bit counter width.
pub fn delay_reload_value(us: u32, core_mhz: u32) -> (r: Result<u32, Error>)
    ensures
        us * core_mhz <= MAX_SYSTICK_RELOAD ==> r == Ok::<u32, Error>((us * core_mhz) as u32),
        us * core_mhz > MAX_SYSTICK_RELOAD ==> r == Err::<u32, Error>(Error::InvalidDelay),
{
    proof {
        assert(us as int * core_mhz as int <= 0xFFFF_FFFF * 0xFFFF_FFFF) by (nonlinear_arith)
            requires
                us <= 0xFFFF_FFFF,
                core_mhz <= 0xFFFF_FFFF,
        ;
    }
    let product: u64 = (us as u64) * (core_mhz as u64);
    if product > MAX_SYSTICK_RELOAD as u64 {
        Err(Error::InvalidDelay)
    } else {
        Ok(product as u32)
    }
}

} // verus!
