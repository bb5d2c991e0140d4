//! Shared state: everything the interrupt handler and the suspended
//! transfer operations both touch.
//!
//! One `State` exists per physical peripheral, for its whole lifetime. In
//! the running driver its fields are atomics and interrupt-written
//! buffers, paired producer-release / consumer-acquire; here each wake
//! signal is modelled as a pending-wake flag, and each cross-context cell
//! as a plain field, so the handler's and the consumers' transitions can
//! be stated and checked directly.

use vstd::prelude::*;

use crate::caps::EP_OUT_BUFFER_EMPTY;

verus! {

/// The receive region bound to one OUT endpoint: a fixed slice of the
/// caller-supplied buffer pool, modelled as its size and current contents.
pub struct OutBuffer {
    /// Bytes the bound pool region can hold. Zero while no region is
    /// bound.
    pub capacity: u16,
    /// Bytes of the packet the interrupt handler last drained into the
    /// region.
    pub data: Vec<u8>,
}

/// Cross-context state of one peripheral.
pub struct State {
    /// The 8-byte SETUP staging buffer for endpoint 0.
    pub ep0_setup_data: Vec<u8>,
    /// Single-writer-single-reader flag: a staged SETUP packet awaits
    /// consumption.
    pub ep0_setup_ready: bool,
    /// Pending-wake flag of each IN endpoint.
    pub ep_in_wakers: Vec<bool>,
    /// Pending-wake flag of each OUT endpoint.
    pub ep_out_wakers: Vec<bool>,
    /// Receive region of each OUT endpoint.
    pub ep_out_buffers: Vec<OutBuffer>,
    /// Received-length slot of each OUT endpoint;
    /// [`EP_OUT_BUFFER_EMPTY`] means "no unread packet".
    pub ep_out_size: Vec<u16>,
    /// Pending-wake flag of the bus event consumer.
    pub bus_waker: bool,
}

impl State {
    /// Number of endpoint slots this state was sized for.
    pub open spec fn ep_count(self) -> int {
        self.ep_in_wakers@.len() as int
    }

    /// Well-formedness: the per-endpoint arrays agree on the endpoint
    /// count, the staging buffer holds exactly 8 bytes, and each
    /// received-length slot, when filled, matches the bytes actually
    /// staged and fits the bound region.
    pub open spec fn wf(self) -> bool {
        &&& self.ep0_setup_data@.len() == 8
        &&& self.ep_out_wakers@.len() == self.ep_count()
        &&& self.ep_out_buffers@.len() == self.ep_count()
        &&& self.ep_out_size@.len() == self.ep_count()
        &&& forall|i: int|
            0 <= i < self.ep_count() ==> #[trigger] self.ep_out_buffers@[i].data@.len()
                <= self.ep_out_buffers@[i].capacity
        &&& forall|i: int|
            0 <= i < self.ep_count() && #[trigger] self.ep_out_size@[i] != EP_OUT_BUFFER_EMPTY
                ==> self.ep_out_size@[i] as int == self.ep_out_buffers@[i].data@.len()
    }

    /// Fresh state: nothing staged, nothing bound, no wake pending.
    pub fn new(ep_count: usize) -> (s: State)
        ensures
            s.wf(),
            s.ep_count() == ep_count,
            !s.ep0_setup_ready,
            !s.bus_waker,
            forall|i: int| 0 <= i < ep_count ==> !(#[trigger] s.ep_in_wakers@[i]),
            forall|i: int| 0 <= i < ep_count ==> !(#[trigger] s.ep_out_wakers@[i]),
            forall|i: int|
                0 <= i < ep_count ==> (#[trigger] s.ep_out_size@[i]) == EP_OUT_BUFFER_EMPTY,
            forall|i: int| 0 <= i < ep_count ==> (#[trigger] s.ep_out_buffers@[i]).capacity == 0,
            forall|i: int| 0 <= i < ep_count ==> s.ep_out_buffers@[i].data@.len() == 0,
            forall|i: int| 0 <= i < 8 ==> s.ep0_setup_data@[i] == 0u8,
    {
        let mut setup: Vec<u8> = Vec::new();
        let mut k: usize = 0;
        while k < 8
            invariant
                0 <= k <= 8,
                setup@.len() == k,
                forall|i: int| 0 <= i < k ==> setup@[i] == 0u8,
            decreases 8 - k,
        {
            setup.push(0u8);
            k = k + 1;
        }
        let mut in_wakers: Vec<bool> = Vec::new();
        let mut out_wakers: Vec<bool> = Vec::new();
        let mut buffers: Vec<OutBuffer> = Vec::new();
        let mut sizes: Vec<u16> = Vec::new();
        let mut i: usize = 0;
        while i < ep_count
            invariant
                0 <= i <= ep_count,
                in_wakers@.len() == i,
                out_wakers@.len() == i,
                buffers@.len() == i,
                sizes@.len() == i,
                forall|j: int| 0 <= j < i ==> !(#[trigger] in_wakers@[j]),
                forall|j: int| 0 <= j < i ==> !(#[trigger] out_wakers@[j]),
                forall|j: int| 0 <= j < i ==> (#[trigger] sizes@[j]) == EP_OUT_BUFFER_EMPTY,
                forall|j: int| 0 <= j < i ==> (#[trigger] buffers@[j]).capacity == 0,
                forall|j: int| 0 <= j < i ==> buffers@[j].data@.len() == 0,
            decreases ep_count - i,
        {
            in_wakers.push(false);
            out_wakers.push(false);
            buffers.push(OutBuffer { capacity: 0, data: Vec::new() });
            sizes.push(EP_OUT_BUFFER_EMPTY);
            i = i + 1;
        }
        State {
            ep0_setup_data: setup,
            ep0_setup_ready: false,
            ep_in_wakers: in_wakers,
            ep_out_wakers: out_wakers,
            ep_out_buffers: buffers,
            ep_out_size: sizes,
            bus_waker: false,
        }
    }
}

} // verus!
