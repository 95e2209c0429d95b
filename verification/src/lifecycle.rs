//! The two decisions made around the toolkit's life: whether it came up, and
//! whether its event queue still has work.

use vstd::prelude::*;

verus! {

/// The status with which the toolkit reports that it is initialised, or that
/// events are pending.
pub const TOOLKIT_TRUE: i32 = 1;

/// Whether the status returned by the toolkit's initialisation check means
/// that the toolkit can be used.
pub fn init_check(status: i32) -> (usable: bool)
    ensures
        usable == (status == TOOLKIT_TRUE),
{
    status == TOOLKIT_TRUE
}

/// Whether another iteration of the toolkit's main loop is due, given its
/// answer to "are events pending?". Draining runs one iteration for as long
/// as this holds.
pub fn wait_for_cleanup(pending: i32) -> (iterate: bool)
    ensures
        iterate == (pending == TOOLKIT_TRUE),
{
    pending == TOOLKIT_TRUE
}

} // verus!
