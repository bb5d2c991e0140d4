//! The allocator: assigns endpoint slots and partitions the FIFO budget
//! before the bus starts.
//!
//! Allocation is irrevocable — there is no deallocate operation, and the
//! device's endpoint map is fixed for the lifetime of the session. Every
//! successful allocation re-establishes the FIFO-budget invariant
//! (`RX_FIFO_EXTRA_SIZE_WORDS` plus all granted OUT and IN words stays
//! within the FIFO depth) and the buffer-pool invariant (carved regions
//! stay within the caller-supplied pool).

use vstd::prelude::*;

use crate::budget::{
    ep_fifo_size, ep_words_sum, fifo_size_words_for, lemma_ep_words_sum_nonneg,
    lemma_ep_words_sum_push, lemma_ep_words_sum_update, slot_words, spec_fifo_size_words,
};
use crate::bus::Bus;
use crate::caps::{CoreCapabilities, EP_OUT_BUFFER_EMPTY, RX_FIFO_EXTRA_SIZE_WORDS};
use crate::control::ControlPipe;
use crate::endpoint::Endpoint;
use crate::regs::spec_ep0_mpsiz;
use crate::state::State;
use crate::types::{
    Direction, EndpointAddress, EndpointAllocError, EndpointData, EndpointInfo, EndpointType,
    PhyType,
};
use vstd::pervasive::unreached;

verus! {

/// The endpoint allocator. Once `start` consumes it, the endpoint map is
/// final.
pub struct Driver {
    /// Capabilities of the core this driver serves.
    pub caps: CoreCapabilities,
    /// IN endpoint slots, indexed by endpoint number.
    pub ep_in: Vec<Option<EndpointData>>,
    /// OUT endpoint slots, indexed by endpoint number.
    pub ep_out: Vec<Option<EndpointData>>,
    /// Length of the caller-supplied receive buffer pool, in bytes.
    pub ep_out_buffer_len: usize,
    /// Bytes of the pool carved off so far; regions are never reused or
    /// resized.
    pub ep_out_buffer_offset: usize,
    /// The PHY the driver was initialised with.
    pub phy_type: PhyType,
}

/// A filled slot carries the FIFO word grant its direction and packet size
/// dictate.
pub open spec fn slot_sized(e: Option<EndpointData>, dir: Direction) -> bool {
    match e {
        Some(d) => d.fifo_size_words as int == spec_fifo_size_words(dir, d.max_packet_size),
        None => true,
    }
}

/// Every filled slot of the array is sized for its direction.
pub open spec fn slots_sized(eps: Seq<Option<EndpointData>>, dir: Direction) -> bool {
    forall|i: int| 0 <= i < eps.len() ==> slot_sized(#[trigger] eps[i], dir)
}

/// Whether slot `i` may take a request of type `ep_type`: it must be free,
/// and index 0 is reserved for the control pipe.
pub open spec fn slot_eligible(eps: Seq<Option<EndpointData>>, ep_type: EndpointType, i: int) -> bool {
    &&& 0 <= i < eps.len()
    &&& eps[i] is None
    &&& !(i == 0 && ep_type != EndpointType::Control)
}

/// Some slot may take the request.
pub open spec fn has_free_slot(eps: Seq<Option<EndpointData>>, ep_type: EndpointType) -> bool {
    exists|i: int| slot_eligible(eps, ep_type, i)
}

/// Slot `i` is the first that may take the request.
pub open spec fn is_first_free_slot(
    eps: Seq<Option<EndpointData>>,
    ep_type: EndpointType,
    i: int,
) -> bool {
    &&& slot_eligible(eps, ep_type, i)
    &&& forall|j: int| 0 <= j < i ==> !slot_eligible(eps, ep_type, j)
}

/// The slot record of a control endpoint of packet size
/// `max_packet_size` in direction `dir`.
pub open spec fn control_slot(dir: Direction, max_packet_size: u16) -> EndpointData {
    EndpointData {
        ep_type: EndpointType::Control,
        max_packet_size,
        fifo_size_words: spec_fifo_size_words(dir, max_packet_size) as u16,
    }
}

/// The other direction.
pub open spec fn other_dir(dir: Direction) -> Direction {
    if dir == Direction::Out {
        Direction::In
    } else {
        Direction::Out
    }
}

/// Whether `r` allocated endpoint index 0.
pub open spec fn allocated_at_zero(r: Result<Endpoint, EndpointAllocError>) -> bool {
    match r {
        Ok(ep) => ep.info.addr.index == 0,
        Err(_) => false,
    }
}

impl Driver {
    /// The slot array of one direction.
    pub open spec fn slots_of(self, dir: Direction) -> Seq<Option<EndpointData>> {
        if dir == Direction::Out {
            self.ep_out@
        } else {
            self.ep_in@
        }
    }

    /// FIFO words spoken for so far: the fixed receive headroom plus every
    /// granted OUT and IN word.
    pub open spec fn budget_used(self) -> int {
        RX_FIFO_EXTRA_SIZE_WORDS + ep_words_sum(self.ep_out@) + ep_words_sum(self.ep_in@)
    }

    /// Well-formedness: slot arrays sized to the capability table, every
    /// grant as its direction dictates, the FIFO budget within the pool,
    /// and the carved buffer regions within the caller's pool.
    pub open spec fn wf(self) -> bool {
        &&& self.caps.wf()
        &&& self.ep_in@.len() == self.caps.endpoint_count
        &&& self.ep_out@.len() == self.caps.endpoint_count
        &&& self.budget_used() <= self.caps.fifo_depth_words
        &&& self.ep_out_buffer_offset <= self.ep_out_buffer_len
        &&& slots_sized(self.ep_out@, Direction::Out)
        &&& slots_sized(self.ep_in@, Direction::In)
    }

    /// The buffer-pool check the allocator makes for this request.
    ///
    /// The check (and the later carving of a region) is gated on the IN
    /// direction, though OUT endpoints are the ones that receive into the
    /// pool; this reads as a direction inversion, and is kept exactly as
    /// the downstream consumer may rely on it. The test suite flags it as
    /// a case needing clarification.
    pub open spec fn pool_exhausted(self, dir: Direction, max_packet_size: u16) -> bool {
        dir == Direction::In && self.ep_out_buffer_offset + max_packet_size
            >= self.ep_out_buffer_len
    }

    /// Whether granting this request would break the FIFO-budget
    /// invariant.
    pub open spec fn budget_exceeded(self, dir: Direction, max_packet_size: u16) -> bool {
        spec_fifo_size_words(dir, max_packet_size) + self.budget_used()
            > self.caps.fifo_depth_words
    }

    /// No packet is staged in shared state: the build-phase condition
    /// under which endpoints are allocated.
    pub open spec fn rx_pristine(s: State) -> bool {
        forall|i: int| 0 <= i < s.ep_count() ==> s.ep_out_size@[i] == EP_OUT_BUFFER_EMPTY
    }

    /// Initialises the driver for the internal full-speed PHY.
    ///
    /// Pin multiplexing, interrupt registration and the buffer pool's
    /// storage stay with the embedder; the pool enters the model as its
    /// length.
    pub fn new_fs(caps: CoreCapabilities, ep_out_buffer_len: usize) -> (d: Driver)
        requires
            caps.wf(),
        ensures
            d.wf(),
            d.caps == caps,
            d.phy_type == PhyType::InternalFullSpeed,
            d.ep_out_buffer_len == ep_out_buffer_len,
            d.ep_out_buffer_offset == 0,
            forall|i: int| 0 <= i < caps.endpoint_count ==> d.ep_in@[i] is None,
            forall|i: int| 0 <= i < caps.endpoint_count ==> d.ep_out@[i] is None,
            d.budget_used() == RX_FIFO_EXTRA_SIZE_WORDS,
    {
        Driver {
            caps,
            ep_in: empty_slots(caps.endpoint_count),
            ep_out: empty_slots(caps.endpoint_count),
            ep_out_buffer_len,
            ep_out_buffer_offset: 0,
            phy_type: PhyType::InternalFullSpeed,
        }
    }

    /// Initialises the driver for an external ULPI high-speed PHY.
    ///
    /// The twelve ULPI pins are configured by the embedder; the allocator
    /// itself starts from the same empty endpoint map.
    pub fn new_hs_ulpi(caps: CoreCapabilities, ep_out_buffer_len: usize) -> (d: Driver)
        requires
            caps.wf(),
        ensures
            d.wf(),
            d.caps == caps,
            d.phy_type == PhyType::ExternalHighSpeed,
            d.ep_out_buffer_len == ep_out_buffer_len,
            d.ep_out_buffer_offset == 0,
            forall|i: int| 0 <= i < caps.endpoint_count ==> d.ep_in@[i] is None,
            forall|i: int| 0 <= i < caps.endpoint_count ==> d.ep_out@[i] is None,
            d.budget_used() == RX_FIFO_EXTRA_SIZE_WORDS,
    {
        Driver {
            caps,
            ep_in: empty_slots(caps.endpoint_count),
            ep_out: empty_slots(caps.endpoint_count),
            ep_out_buffer_len,
            ep_out_buffer_offset: 0,
            phy_type: PhyType::ExternalHighSpeed,
        }
    }

    /// Total words of the dedicated FIFO spoken for so far.
    pub fn allocated_fifo_words(&self) -> (r: u16)
        requires
            self.wf(),
        ensures
            r as int == self.budget_used(),
    {
        proof {
            lemma_ep_words_sum_nonneg(self.ep_out@);
            lemma_ep_words_sum_nonneg(self.ep_in@);
        }
        RX_FIFO_EXTRA_SIZE_WORDS + ep_fifo_size(&self.ep_out) + ep_fifo_size(&self.ep_in)
    }

    /// Allocates one endpoint: carve a receive region (under the
    /// direction gating described at [`Driver::pool_exhausted`]),
    /// grant the FIFO words the direction dictates, re-check the budget
    /// invariant, and take the first eligible slot. Fails — leaving the
    /// driver and the shared state untouched — exactly when the pool or
    /// the budget is exhausted or no eligible slot is free.
    pub fn alloc_endpoint(
        &mut self,
        state: &mut State,
        dir: Direction,
        ep_type: EndpointType,
        max_packet_size: u16,
        interval: u8,
    ) -> (r: Result<Endpoint, EndpointAllocError>)
        requires
            old(self).wf(),
            old(state).wf(),
            old(state).ep_count() == old(self).caps.endpoint_count,
            Self::rx_pristine(*old(state)),
        ensures
            final(self).wf(),
            final(state).wf(),
            final(state).ep_count() == old(state).ep_count(),
            Self::rx_pristine(*final(state)),
            alloc_post(
                *old(self),
                *final(self),
                *old(state),
                *final(state),
                dir,
                ep_type,
                max_packet_size,
                interval,
                r,
            ),
            allocated_at_zero(r) <==> (ep_type == EndpointType::Control && old(self).slots_of(
                dir,
            )[0] is None && !old(self).pool_exhausted(dir, max_packet_size) && !old(
                self,
            ).budget_exceeded(dir, max_packet_size)),
    {
        if dir == Direction::In {
            if max_packet_size as usize >= self.ep_out_buffer_len - self.ep_out_buffer_offset {
                return Err(EndpointAllocError);
            }
        }
        let fifo_size_words = fifo_size_words_for(dir, max_packet_size);

        if fifo_size_words as u32 + self.allocated_fifo_words() as u32 > self.caps.fifo_depth_words
            as u32 {
            proof {
                assert(old(self).budget_exceeded(dir, max_packet_size));
            }
            return Err(EndpointAllocError);
        }
        let index_opt = if dir == Direction::In {
            find_free_slot(&self.ep_in, ep_type)
        } else {
            find_free_slot(&self.ep_out, ep_type)
        };

        let index = match index_opt {
            Some(i) => i,
            None => {
                proof {
                    if ep_type == EndpointType::Control && old(self).slots_of(dir)[0] is None {
                        assert(slot_eligible(old(self).slots_of(dir), ep_type, 0));
                    }
                }
                return Err(EndpointAllocError);
            },
        };

        let data = EndpointData { ep_type, max_packet_size, fifo_size_words };
        if dir == Direction::In {
            self.ep_in[index] = Some(data);
        } else {
            self.ep_out[index] = Some(data);
        }
        proof {
            if dir == Direction::In {
                lemma_ep_words_sum_update(old(self).ep_in@, index as int, Some(data));
            } else {
                lemma_ep_words_sum_update(old(self).ep_out@, index as int, Some(data));
            }
        }

        if dir == Direction::In {
            // Bind the endpoint index to its carved pool region. The
            // capacity check above made this infallible.
            state.ep_out_buffers[index].capacity = max_packet_size;
            state.ep_out_buffers[index].data = Vec::new();
            self.ep_out_buffer_offset = self.ep_out_buffer_offset + max_packet_size as usize;
        }

        proof {
            if ep_type == EndpointType::Control && old(self).slots_of(dir)[0] is None {
                assert(slot_eligible(old(self).slots_of(dir), ep_type, 0));
                if index != 0 {
                    assert(!slot_eligible(old(self).slots_of(dir), ep_type, 0));
                }
            }
            if index == 0 {
                assert(slot_eligible(old(self).slots_of(dir), ep_type, 0));
            }
        }
        Ok(
            Endpoint {
                info: EndpointInfo {
                    addr: EndpointAddress::from_parts(index, dir),
                    ep_type,
                    max_packet_size,
                    interval,
                },
            },
        )
    }

    /// Allocates an IN endpoint.
    pub fn alloc_endpoint_in(
        &mut self,
        state: &mut State,
        ep_type: EndpointType,
        max_packet_size: u16,
        interval: u8,
    ) -> (r: Result<Endpoint, EndpointAllocError>)
        requires
            old(self).wf(),
            old(state).wf(),
            old(state).ep_count() == old(self).caps.endpoint_count,
            Self::rx_pristine(*old(state)),
        ensures
            final(self).wf(),
            final(state).wf(),
            final(state).ep_count() == old(state).ep_count(),
            Self::rx_pristine(*final(state)),
            alloc_post(
                *old(self),
                *final(self),
                *old(state),
                *final(state),
                Direction::In,
                ep_type,
                max_packet_size,
                interval,
                r,
            ),
    {
        self.alloc_endpoint(state, Direction::In, ep_type, max_packet_size, interval)
    }

    /// Finalises the allocator: allocates the control IN and OUT
    /// endpoints at index 0 and turns the fixed endpoint map into an
    /// immutable [`Bus`] and [`ControlPipe`] pair. The allocator is
    /// consumed and cannot be used again.
    ///
    /// Callers guarantee what the two control allocations need: index 0
    /// free in both directions, budget and pool room for both endpoints,
    /// and a packet size endpoint 0 can encode.
    pub fn start(self, state: &mut State, control_max_packet_size: u16) -> (r: (Bus, ControlPipe))
        requires
            self.wf(),
            old(state).wf(),
            old(state).ep_count() == self.caps.endpoint_count,
            Self::rx_pristine(*old(state)),
            self.ep_out@[0] is None,
            self.ep_in@[0] is None,
            spec_ep0_mpsiz(control_max_packet_size) is Some,
            spec_fifo_size_words(Direction::Out, control_max_packet_size) + spec_fifo_size_words(
                Direction::In,
                control_max_packet_size,
            ) + self.budget_used() <= self.caps.fifo_depth_words,
            self.ep_out_buffer_offset + control_max_packet_size < self.ep_out_buffer_len,
        ensures
            r.0.wf(),
            r.0.caps == self.caps,
            !r.0.enabled,
            r.0.ep_out@ == self.ep_out@.update(0, Some(control_slot(Direction::Out, control_max_packet_size))),
            r.0.ep_in@ == self.ep_in@.update(0, Some(control_slot(Direction::In, control_max_packet_size))),
            r.1.wf(),
            r.1.max_packet_size == control_max_packet_size,
            r.1.ep_out.info.ep_type == EndpointType::Control,
            r.1.ep_in.info.ep_type == EndpointType::Control,
            final(state).wf(),
            final(state).ep_count() == old(state).ep_count(),
            Self::rx_pristine(*final(state)),
            final(state).ep_out_buffers@[0].capacity == control_max_packet_size,
    {
        let mut this = self;
        let ghost pre = this;

        let r_out = this.alloc_endpoint(
            state,
            Direction::Out,
            EndpointType::Control,
            control_max_packet_size,
            0,
        );
        proof {
            assert(slot_eligible(pre.slots_of(Direction::Out), EndpointType::Control, 0));
        }
        let ep_out = match r_out {
            Ok(e) => e,
            Err(_) => unreached(),
        };
        proof {
            lemma_budget_invariant_exact(
                pre,
                this,
                *old(state),
                *state,
                Direction::Out,
                EndpointType::Control,
                control_max_packet_size,
                0,
                Ok(ep_out),
            );
        }

        let ghost mid = this;
        let ghost mid_s = *state;
        let r_in = this.alloc_endpoint(
            state,
            Direction::In,
            EndpointType::Control,
            control_max_packet_size,
            0,
        );
        proof {
            assert(slot_eligible(mid.slots_of(Direction::In), EndpointType::Control, 0));
        }
        let ep_in = match r_in {
            Ok(e) => e,
            Err(_) => unreached(),
        };

        (
            Bus { caps: this.caps, ep_in: this.ep_in, ep_out: this.ep_out, enabled: false },
            ControlPipe { max_packet_size: control_max_packet_size, ep_out, ep_in },
        )
    }

    /// Allocates an OUT endpoint.
    pub fn alloc_endpoint_out(
        &mut self,
        state: &mut State,
        ep_type: EndpointType,
        max_packet_size: u16,
        interval: u8,
    ) -> (r: Result<Endpoint, EndpointAllocError>)
        requires
            old(self).wf(),
            old(state).wf(),
            old(state).ep_count() == old(self).caps.endpoint_count,
            Self::rx_pristine(*old(state)),
        ensures
            final(self).wf(),
            final(state).wf(),
            final(state).ep_count() == old(state).ep_count(),
            Self::rx_pristine(*final(state)),
            alloc_post(
                *old(self),
                *final(self),
                *old(state),
                *final(state),
                Direction::Out,
                ep_type,
                max_packet_size,
                interval,
                r,
            ),
    {
        self.alloc_endpoint(state, Direction::Out, ep_type, max_packet_size, interval)
    }
}

/// Relation of allocator and shared state across one allocation request.
pub open spec fn alloc_post(
    pre: Driver,
    post: Driver,
    pre_s: State,
    post_s: State,
    dir: Direction,
    ep_type: EndpointType,
    max_packet_size: u16,
    interval: u8,
    r: Result<Endpoint, EndpointAllocError>,
) -> bool {
    &&& (r is Err <==> (pre.pool_exhausted(dir, max_packet_size) || pre.budget_exceeded(
        dir,
        max_packet_size,
    ) || !has_free_slot(pre.slots_of(dir), ep_type)))
    &&& (r is Err ==> post == pre && post_s == pre_s)
    &&& (match r {
        Ok(ep) => {
            let i = ep.info.addr.index as int;
            &&& is_first_free_slot(pre.slots_of(dir), ep_type, i)
            &&& ep.info.addr.direction == dir
            &&& ep.info.ep_type == ep_type
            &&& ep.info.max_packet_size == max_packet_size
            &&& ep.info.interval == interval
            &&& post.caps == pre.caps
            &&& post.phy_type == pre.phy_type
            &&& post.ep_out_buffer_len == pre.ep_out_buffer_len
            &&& post.slots_of(dir) == pre.slots_of(dir).update(
                i,
                Some(
                    EndpointData {
                        ep_type,
                        max_packet_size,
                        fifo_size_words: spec_fifo_size_words(dir, max_packet_size) as u16,
                    },
                ),
            )
            &&& post.slots_of(other_dir(dir)) == pre.slots_of(other_dir(dir))
            &&& (if dir == Direction::In {
                &&& post.ep_out_buffer_offset == pre.ep_out_buffer_offset + max_packet_size
                &&& post_s.ep_out_buffers@.len() == pre_s.ep_out_buffers@.len()
                &&& post_s.ep_out_buffers@[i].capacity == max_packet_size
                &&& post_s.ep_out_buffers@[i].data@.len() == 0
                &&& forall|j: int|
                    0 <= j < pre_s.ep_out_buffers@.len() && j != i
                        ==> post_s.ep_out_buffers@[j] == pre_s.ep_out_buffers@[j]
                &&& post_s.ep_out_size == pre_s.ep_out_size
                &&& post_s.ep_out_wakers == pre_s.ep_out_wakers
                &&& post_s.ep_in_wakers == pre_s.ep_in_wakers
                &&& post_s.ep0_setup_data == pre_s.ep0_setup_data
                &&& post_s.ep0_setup_ready == pre_s.ep0_setup_ready
                &&& post_s.bus_waker == pre_s.bus_waker
            } else {
                &&& post.ep_out_buffer_offset == pre.ep_out_buffer_offset
                &&& post_s == pre_s
            })
        },
        Err(_) => true,
    })
}

/// Finds the first slot that may take the request.
fn find_free_slot(eps: &Vec<Option<EndpointData>>, ep_type: EndpointType) -> (r: Option<usize>)
    ensures
        match r {
            Some(i) => is_first_free_slot(eps@, ep_type, i as int),
            None => !has_free_slot(eps@, ep_type),
        },
{
    let mut i: usize = 0;
    while i < eps.len()
        invariant
            0 <= i <= eps@.len(),
            forall|j: int| 0 <= j < i ==> !slot_eligible(eps@, ep_type, j),
        decreases eps@.len() - i,
    {
        if (i != 0 || ep_type == EndpointType::Control) && eps[i].is_none() {
            return Some(i);
        }
        i = i + 1;
    }
    None
}

/// An all-free slot array of `n` entries.
fn empty_slots(n: usize) -> (v: Vec<Option<EndpointData>>)
    ensures
        v@.len() == n,
        forall|i: int| 0 <= i < n ==> v@[i] is None,
        ep_words_sum(v@) == 0,
{
    let mut v: Vec<Option<EndpointData>> = Vec::new();
    let mut i: usize = 0;
    while i < n
        invariant
            0 <= i <= n,
            v@.len() == i,
            forall|j: int| 0 <= j < i ==> v@[j] is None,
            ep_words_sum(v@) == 0,
        decreases n - i,
    {
        proof {
            lemma_ep_words_sum_push(v@, None);
        }
        v.push(None);
        i = i + 1;
    }
    v
}

/// The FIFO-budget invariant is preserved by every successful allocation,
/// growing by exactly the granted words, and — pool and slot availability
/// aside — its preservation is exactly the condition under which the
/// request is accepted.
pub proof fn lemma_budget_invariant_exact(
    pre: Driver,
    post: Driver,
    pre_s: State,
    post_s: State,
    dir: Direction,
    ep_type: EndpointType,
    max_packet_size: u16,
    interval: u8,
    r: Result<Endpoint, EndpointAllocError>,
)
    requires
        pre.wf(),
        post.wf(),
        alloc_post(pre, post, pre_s, post_s, dir, ep_type, max_packet_size, interval, r),
    ensures
        r is Ok ==> post.budget_used() == pre.budget_used() + spec_fifo_size_words(
            dir,
            max_packet_size,
        ),
        r is Ok ==> post.budget_used() <= post.caps.fifo_depth_words,
        (!pre.pool_exhausted(dir, max_packet_size) && has_free_slot(pre.slots_of(dir), ep_type))
            ==> (r is Ok <==> pre.budget_used() + spec_fifo_size_words(dir, max_packet_size)
            <= pre.caps.fifo_depth_words),
{
    if r is Ok {
        let ep = r.unwrap();
        let i = ep.info.addr.index as int;
        let d = EndpointData {
            ep_type,
            max_packet_size,
            fifo_size_words: spec_fifo_size_words(dir, max_packet_size) as u16,
        };
        lemma_ep_words_sum_update(pre.slots_of(dir), i, Some(d));
        assert(slot_words(pre.slots_of(dir)[i]) == 0);
    }
}

/// Endpoint index 0 is allocated exactly for a Control-typed request that
/// finds index 0 free and passes the pool and budget checks; every other
/// combination deterministically fails to obtain index 0.
pub proof fn lemma_index_zero_iff_control(
    pre: Driver,
    post: Driver,
    pre_s: State,
    post_s: State,
    dir: Direction,
    ep_type: EndpointType,
    max_packet_size: u16,
    interval: u8,
    r: Result<Endpoint, EndpointAllocError>,
)
    requires
        pre.wf(),
        alloc_post(pre, post, pre_s, post_s, dir, ep_type, max_packet_size, interval, r),
    ensures
        allocated_at_zero(r) <==> (ep_type == EndpointType::Control && pre.slots_of(dir)[0] is None
            && !pre.pool_exhausted(dir, max_packet_size) && !pre.budget_exceeded(
            dir,
            max_packet_size,
        )),
{
    if ep_type == EndpointType::Control && pre.slots_of(dir)[0] is None && !pre.pool_exhausted(
        dir,
        max_packet_size,
    ) && !pre.budget_exceeded(dir, max_packet_size) {
        assert(slot_eligible(pre.slots_of(dir), ep_type, 0));
        assert(r is Ok);
    }
}

} // verus!
