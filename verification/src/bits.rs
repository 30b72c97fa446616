//! Facts about single bits of a 128-bit mask.

use vstd::prelude::*;

verus! {

/// Whether bit number `bit` of `mask` is set. Bit 0 is the least significant.
pub open spec fn bit_set(mask: u128, bit: u128) -> bool {
    (mask >> bit) & 1 == 1
}

/// Setting one bit changes that bit and no other.
pub proof fn lemma_set_bit(mask: u128, bit: u128)
    requires
        bit < 128,
    ensures
        forall|j: u128|
            j < 128 ==> (#[trigger] bit_set(mask | (1u128 << bit), j) <==> (j == bit || bit_set(
                mask,
                j,
            ))),
{
    assert(forall|j: u128|
        j < 128 && bit < 128 ==> ((#[trigger] ((mask | (1u128 << bit)) >> j)) & 1 == 1 <==> (j
            == bit || (mask >> j) & 1 == 1))) by (bit_vector);
}

/// Clearing one bit changes that bit and no other.
pub proof fn lemma_clear_bit(mask: u128, bit: u128)
    requires
        bit < 128,
    ensures
        forall|j: u128|
            j < 128 ==> (#[trigger] bit_set(mask & !(1u128 << bit), j) <==> (j != bit && bit_set(
                mask,
                j,
            ))),
{
    assert(forall|j: u128|
        j < 128 && bit < 128 ==> ((#[trigger] ((mask & !(1u128 << bit)) >> j)) & 1 == 1 <==> (j
            != bit && (mask >> j) & 1 == 1))) by (bit_vector);
}

/// The zero mask has no bit set.
pub proof fn lemma_zero_mask()
    ensures
        forall|j: u128| j < 128 ==> !#[trigger] bit_set(0u128, j),
{
    assert(forall|j: u128| j < 128 ==> (#[trigger] (0u128 >> j)) & 1 == 0) by (bit_vector);
}

/// The position of the lowest set bit of a nonzero mask.
pub fn lowest_set_bit(mask: u128) -> (bit: u32)
    requires
        mask != 0,
    ensures
        bit < 128,
        bit_set(mask, bit as u128),
        forall|j: u128| j < bit ==> !#[trigger] bit_set(mask, j),
{
    let lo: u64 = (mask & 0xffff_ffff_ffff_ffff) as u64;
    let hi: u64 = (mask >> 64) as u64;
    proof {
        vstd::std_specs::bits::axiom_u64_trailing_zeros(lo);
        vstd::std_specs::bits::axiom_u64_trailing_zeros(hi);
        // Bit `j` of the low half is bit `j` of the mask, and bit `j` of the
        // high half is bit `j + 64`.
        assert(forall|j: u64|
            j < 64 ==> (((#[trigger] (lo >> j)) & 1 == 1) <==> ((mask >> (j as u128)) & 1 == 1)))
            by (bit_vector)
            requires
                lo == (mask & 0xffff_ffff_ffff_ffff) as u64,
        ;
        assert(forall|j: u64|
            j < 64 ==> (((#[trigger] (hi >> j)) & 1 == 1) <==> ((mask >> ((j + 64) as u128)) & 1
                == 1))) by (bit_vector)
            requires
                hi == (mask >> 64) as u64,
        ;
        assert(lo == 0 && hi == 0 ==> mask == 0) by (bit_vector)
            requires
                lo == (mask & 0xffff_ffff_ffff_ffff) as u64,
                hi == (mask >> 64) as u64,
        ;
    }
    if lo != 0 {
        let tz: u32 = lo.trailing_zeros();
        proof {
            assert((lo >> (tz as u64)) & 1 == 1);
            assert forall|j: u128| j < tz implies !#[trigger] bit_set(mask, j) by {
                let j64: u64 = j as u64;
                assert((lo >> j64) & 1 == 0);
                assert(j64 as u128 == j);
            }
        }
        tz
    } else {
        let tz: u32 = hi.trailing_zeros();
        proof {
            assert((hi >> (tz as u64)) & 1 == 1);
            assert(bit_set(mask, ((tz as u64 + 64) as u128)));
            assert forall|j: u128| j < tz + 64 implies !#[trigger] bit_set(mask, j) by {
                if j < 64 {
                    let j64: u64 = j as u64;
                    assert((lo >> j64) & 1 == 0) by (bit_vector)
                        requires
                            lo == 0,
                    ;
                    assert(j64 as u128 == j);
                } else {
                    let j64: u64 = (j - 64) as u64;
                    assert((hi >> j64) & 1 == 0);
                    assert((j64 + 64) as u128 == j);
                }
            }
        }
        tz + 64
    }
}

} // verus!
