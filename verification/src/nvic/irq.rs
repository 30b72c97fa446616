//! Interrupt numbers of the architectural exceptions. Device interrupts
//! count from zero; the exceptions of the core have negative numbers.

use vstd::prelude::*;

verus! {

/// The PendSV exception.
pub const PENDSV: i32 = -2;

/// The SysTick exception.
pub const SYSTICK: i32 = -1;

} // verus!
