//! What every memory-mapped device offers to the bus: reads and writes of
//! 32-bit registers, addressed by their offset in the device's bank.

use crate::system::System;
use vstd::prelude::*;
use vstd::string::StrSliceExecFns;

verus! {

/// An access to a register that the device does not implement.
#[derive(Clone, Copy, Debug, PartialEq, Eq, Structural)]
pub struct Unimplemented {
    /// Offset of the register in the device's bank.
    pub offset: u32,
}

/// A memory-mapped device.
pub trait Peripheral {
    /// The value of the register at `offset`.
    fn read(&mut self, sys: &System, offset: u32) -> Result<u32, Unimplemented>;

    /// Stores `value` in the register at `offset`.
    fn write(&mut self, sys: &System, offset: u32, value: u32) -> Result<(), Unimplemented>;
}

/// Whether `name` begins with `prefix`.
pub fn has_prefix(name: &str, prefix: &str) -> (r: bool)
    ensures
        r == prefix@.is_prefix_of(name@),
{
    let n: usize = name.unicode_len();
    let p: usize = prefix.unicode_len();
    if p > n {
        return false;
    }
    let mut i: usize = 0;
    while i < p
        invariant
            i <= p <= n,
            n == name@.len(),
            p == prefix@.len(),
            forall|j: int| 0 <= j < i ==> name@[j] == prefix@[j],
        decreases p - i,
    {
        if name.get_char(i) != prefix.get_char(i) {
            assert(name@.subrange(0, p as int)[i as int] != prefix@[i as int]);
            return false;
        }
        i += 1;
    }
    assert(name@.subrange(0, p as int) =~= prefix@);
    true
}

/// Whether `name` is exactly `wanted`.
pub fn is_named(name: &str, wanted: &str) -> (r: bool)
    ensures
        r == (name@ == wanted@),
{
    let same_length: bool = name.unicode_len() == wanted.unicode_len();
    if same_length && has_prefix(name, wanted) {
        assert(name@ =~= name@.subrange(0, wanted@.len() as int));
        true
    } else {
        proof {
            if name@ == wanted@ {
                assert(name@.subrange(0, wanted@.len() as int) =~= wanted@);
            }
        }
        false
    }
}

} // verus!
