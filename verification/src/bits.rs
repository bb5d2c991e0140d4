//! Single-bit operations on 16-bit endpoint masks.
//!
//! The controller reports per-endpoint interrupt state in 16-bit masks,
//! one bit per endpoint index. These helpers give those masks a
//! bit-indexed reading that the rest of the crate states its contracts
//! over.

use vstd::prelude::*;

verus! {

/// Whether bit `i` of `m` is set. Out-of-range indices read as clear.
pub open spec fn bit16(m: u16, i: int) -> bool {
    0 <= i < 16 && (m >> (i as u16)) & 1u16 == 1u16
}

proof fn lemma_or_bit(m: u16, i: u16, j: u16)
    by (bit_vector)
    requires
        i < 16,
        j < 16,
    ensures
        (((m | (1u16 << i)) >> j) & 1u16 == 1u16) <==> (((m >> j) & 1u16 == 1u16) || j == i),
{
}

proof fn lemma_and_not_bit(m: u16, i: u16, j: u16)
    by (bit_vector)
    requires
        i < 16,
        j < 16,
    ensures
        (((m & !(1u16 << i)) >> j) & 1u16 == 1u16) <==> (((m >> j) & 1u16 == 1u16) && j != i),
{
}

/// The all-clear mask has no bit set.
pub proof fn lemma_zero_bits()
    by (bit_vector)
    ensures
        forall|j: u16| (0u16 >> j) & 1u16 != 1u16,
{
}

/// Tests bit `i` of `m`.
pub fn test_bit16(m: u16, i: usize) -> (r: bool)
    requires
        i < 16,
    ensures
        r == bit16(m, i as int),
{
    (m >> (i as u16)) & 1 == 1
}

/// Returns `m` with bit `i` set.
pub fn set_bit16(m: u16, i: usize) -> (r: u16)
    requires
        i < 16,
    ensures
        forall|j: int| 0 <= j < 16 ==> (bit16(r, j) <==> (bit16(m, j) || j == i)),
{
    let r = m | (1u16 << (i as u16));
    proof {
        assert forall|j: int| 0 <= j < 16 implies (bit16(r, j) <==> (bit16(m, j) || j == i)) by {
            lemma_or_bit(m, i as u16, j as u16);
        }
    }
    r
}

/// Returns `m` with bit `i` cleared.
pub fn clear_bit16(m: u16, i: usize) -> (r: u16)
    requires
        i < 16,
    ensures
        forall|j: int| 0 <= j < 16 ==> (bit16(r, j) <==> (bit16(m, j) && j != i)),
{
    let r = m & !(1u16 << (i as u16));
    proof {
        assert forall|j: int| 0 <= j < 16 implies (bit16(r, j) <==> (bit16(m, j) && j != i)) by {
            lemma_and_not_bit(m, i as u16, j as u16);
        }
    }
    r
}

} // verus!
