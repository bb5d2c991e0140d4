//! The FIFO word budget.
//!
//! The controller's packet memory is a fixed pool of 4-byte words. The
//! receive FIFO (shared by all OUT endpoints, plus a fixed headroom) and
//! one transmit FIFO per IN endpoint are carved from it, and every
//! allocation must keep the carved total within the pool. The functions
//! here compute per-endpoint word counts and the sums the budget invariant
//! speaks of.

use vstd::prelude::*;

use crate::bits::{bit16, lemma_zero_bits, set_bit16};
use crate::types::{Direction, EndpointData};

verus! {

/// Words needed to hold `max_packet_size` bytes: the packet size rounded
/// up to whole 4-byte words.
pub open spec fn ceil_words(max_packet_size: u16) -> int {
    (max_packet_size + 3) / 4
}

/// FIFO words granted to an endpoint: OUT endpoints get exactly their
/// packet size in words; IN endpoints get at least 16 words, the hardware
/// minimum for a transmit FIFO.
pub open spec fn spec_fifo_size_words(dir: Direction, max_packet_size: u16) -> int {
    if dir == Direction::Out {
        ceil_words(max_packet_size)
    } else if ceil_words(max_packet_size) >= 16 {
        ceil_words(max_packet_size)
    } else {
        16
    }
}

/// Computes the FIFO word grant of one endpoint; see
/// [`spec_fifo_size_words`].
pub fn fifo_size_words_for(dir: Direction, max_packet_size: u16) -> (r: u16)
    ensures
        r as int == spec_fifo_size_words(dir, max_packet_size),
{
    let base: u16 = max_packet_size / 4 + if max_packet_size % 4 != 0 {
        1
    } else {
        0
    };
    assert(base as int == ceil_words(max_packet_size));
    if dir == Direction::Out {
        base
    } else if base >= 16 {
        base
    } else {
        16
    }
}

/// Words granted to one slot: zero where nothing is allocated.
pub open spec fn slot_words(e: Option<EndpointData>) -> int {
    match e {
        Some(d) => d.fifo_size_words as int,
        None => 0,
    }
}

/// Total FIFO words granted over a slot array.
pub open spec fn ep_words_sum(eps: Seq<Option<EndpointData>>) -> int
    decreases eps.len(),
{
    if eps.len() == 0 {
        0
    } else {
        ep_words_sum(eps.drop_last()) + slot_words(eps.last())
    }
}

/// Slot word counts are never negative, so neither is their sum.
pub proof fn lemma_ep_words_sum_nonneg(eps: Seq<Option<EndpointData>>)
    ensures
        ep_words_sum(eps) >= 0,
    decreases eps.len(),
{
    if eps.len() > 0 {
        lemma_ep_words_sum_nonneg(eps.drop_last());
    }
}

/// Appending one slot grows the sum by exactly that slot's words.
pub proof fn lemma_ep_words_sum_push(eps: Seq<Option<EndpointData>>, e: Option<EndpointData>)
    ensures
        ep_words_sum(eps.push(e)) == ep_words_sum(eps) + slot_words(e),
{
    assert(eps.push(e).drop_last() =~= eps);
    assert(eps.push(e).last() == e);
}

/// Unfolds the sum over a prefix one slot at a time.
pub proof fn lemma_ep_words_sum_take_succ(eps: Seq<Option<EndpointData>>, k: int)
    requires
        0 <= k < eps.len(),
    ensures
        ep_words_sum(eps.take(k + 1)) == ep_words_sum(eps.take(k)) + slot_words(eps[k]),
{
    let t = eps.take(k + 1);
    assert(t.drop_last() =~= eps.take(k));
    assert(t.last() == eps[k]);
}

/// A prefix of the array never sums to more than the whole array.
pub proof fn lemma_ep_words_sum_take_le(eps: Seq<Option<EndpointData>>, i: int)
    requires
        0 <= i <= eps.len(),
    ensures
        ep_words_sum(eps.take(i)) <= ep_words_sum(eps),
    decreases eps.len() - i,
{
    if i == eps.len() {
        assert(eps.take(i) =~= eps);
    } else {
        lemma_ep_words_sum_take_succ(eps, i);
        lemma_ep_words_sum_take_le(eps, i + 1);
        assert(slot_words(eps[i]) >= 0);
    }
}

/// Filling one slot grows the sum by exactly that slot's words.
pub proof fn lemma_ep_words_sum_update(eps: Seq<Option<EndpointData>>, i: int, e: Option<
    EndpointData,
>)
    requires
        0 <= i < eps.len(),
    ensures
        ep_words_sum(eps.update(i, e)) == ep_words_sum(eps) - slot_words(eps[i]) + slot_words(e),
    decreases eps.len(),
{
    let u = eps.update(i, e);
    if i == eps.len() - 1 {
        assert(u.drop_last() =~= eps.drop_last());
        assert(u.last() == e);
    } else {
        assert(u.drop_last() =~= eps.drop_last().update(i, e));
        assert(u.last() == eps.last());
        lemma_ep_words_sum_update(eps.drop_last(), i, e);
        assert(eps.drop_last()[i] == eps[i]);
    }
}

/// Sums the FIFO words granted over one slot array.
pub fn ep_fifo_size(eps: &Vec<Option<EndpointData>>) -> (r: u16)
    requires
        ep_words_sum(eps@) <= u16::MAX,
    ensures
        r as int == ep_words_sum(eps@),
{
    let mut sum: u16 = 0;
    let mut i: usize = 0;
    proof {
        assert(eps@.take(0) =~= Seq::<Option<EndpointData>>::empty());
    }
    while i < eps.len()
        invariant
            0 <= i <= eps@.len(),
            ep_words_sum(eps@) <= u16::MAX,
            sum as int == ep_words_sum(eps@.take(i as int)),
        decreases eps@.len() - i,
    {
        proof {
            lemma_ep_words_sum_take_succ(eps@, i as int);
            lemma_ep_words_sum_take_le(eps@, i as int + 1);
        }
        let w: u16 = match eps[i] {
            Some(d) => d.fifo_size_words,
            None => 0,
        };
        sum = sum + w;
        i = i + 1;
    }
    proof {
        assert(eps@.take(eps@.len() as int) =~= eps@);
    }
    sum
}

/// Builds the per-endpoint interrupt mask: bit `i` is set exactly where
/// slot `i` is allocated.
pub fn ep_irq_mask(eps: &Vec<Option<EndpointData>>) -> (r: u16)
    requires
        eps@.len() <= 16,
    ensures
        forall|j: int| 0 <= j < 16 ==> (bit16(r, j) <==> (j < eps@.len() && eps@[j] is Some)),
{
    let mut mask: u16 = 0;
    let mut i: usize = 0;
    proof {
        lemma_zero_bits();
        assert forall|j: int| 0 <= j < 16 implies !bit16(0u16, j) by {
            assert((0u16 >> (j as u16)) & 1u16 != 1u16);
        }
    }
    while i < eps.len()
        invariant
            0 <= i <= eps@.len(),
            eps@.len() <= 16,
            forall|j: int| 0 <= j < 16 ==> (bit16(mask, j) <==> (j < i && eps@[j] is Some)),
        decreases eps@.len() - i,
    {
        if eps[i].is_some() {
            mask = set_bit16(mask, i);
        }
        i = i + 1;
    }
    mask
}

} // verus!
