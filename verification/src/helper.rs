//! The highest-set-bit selector: the constant-time core of the scheduling
//! decision. A readiness bitmask goes in; the index of its most significant
//! set bit — the highest-priority ready task — comes out.

use vstd::prelude::*;
use vstd::std_specs::bits::axiom_u32_leading_zeros;
use vstd::std_specs::bits::u32_leading_zeros;

verus! {

/// True when bit `i` (0 = least significant) of `m` is set.
pub open spec fn bit_is_set(m: u32, i: u32) -> bool {
    i < 32 && (m >> i) & 1u32 == 1u32
}

/// `i` is the index of the most significant set bit of `m`: the bit is set,
/// and every bit above it is clear.
pub open spec fn is_msb(m: u32, i: u32) -> bool {
    bit_is_set(m, i) && (forall|j: u32| i < j < 32 ==> !bit_is_set(m, j))
}

/// Index of the most significant set bit of `val`; 0 when `val` is zero.
///
/// This is the scheduling tie-break rule: the numerically highest priority
/// wins. The all-zero fallback of 0 is what lets the scheduler resolve to the
/// idle task even when every task, idle included, has been blocked.
pub fn get_msb(val: u32) -> (r: usize)
    ensures
        r < 32,
        val == 0 ==> r == 0,
        val != 0 ==> is_msb(val, r as u32),
{
    proof {
        axiom_u32_leading_zeros(val);
    }
    let lz: u32 = val.leading_zeros();
    let mut res: usize = (32 - lz) as usize;
    if res > 0 {
        res = res - 1;
    }
    proof {
        if val != 0 {
            let k = (31 - u32_leading_zeros(val)) as u32;
            assert((val >> k) & 1u32 != 0u32 ==> (val >> k) & 1u32 == 1u32) by (bit_vector);
            assert(bit_is_set(val, k));
            assert forall|j: u32| k < j < 32 implies !bit_is_set(val, j) by {
                assert((val >> j) & 1u32 == 0u32);
            }
        }
    }
    res
}

/// ORing a one-bit mask into a word sets the requested bit.
pub proof fn lemma_or_sets_bit(a: u32, p: u32)
    by (bit_vector)
    requires
        p < 32,
    ensures
        bit_is_set(a | (1u32 << p), p),
{
}

/// OR never clears bits: once bit 0 — the idle task's bit — is set, ORing
/// any mask into the word keeps it set.
pub proof fn lemma_or_preserves_idle_bit(a: u32, m: u32)
    by (bit_vector)
    requires
        a & 1u32 == 1u32,
    ensures
        (a | m) & 1u32 == 1u32,
{
}

/// A mask with only its lowest bit set has exactly bit 0 as its most
/// significant set bit: when the idle task is the only ready task, the
/// selector resolves to priority 0.
pub proof fn lemma_idle_selected_when_alone(m: u32)
    by (bit_vector)
    requires
        m == 1u32,
    ensures
        is_msb(m, 0),
{
}

} // verus!
