//! The control pipe: endpoint 0 IN and OUT orchestrated into the USB
//! control-transfer protocol (setup, data and status stages).

use vstd::prelude::*;

use crate::caps::EP_OUT_BUFFER_EMPTY;
use crate::endpoint::{read_post, write_actions, write_post, Endpoint, ReadPoll, WritePoll};
use crate::irq::{rx_post, RxAction, RxPacketStatus};
use crate::regs::RegAction;
use crate::state::State;
use crate::types::{Direction, EndpointError};

verus! {

/// Result of one `setup_step` iteration.
pub enum SetupPoll {
    /// The staged SETUP packet, taken and cleared.
    Ready([u8; 8]),
    /// No SETUP packet is staged; endpoint 0 OUT was re-armed and the
    /// caller must suspend until its wake signal fires.
    Pending,
}

/// The control pipe over the two endpoint 0 endpoints.
pub struct ControlPipe {
    /// Maximum packet size of the control endpoints.
    pub max_packet_size: u16,
    /// Endpoint 0 IN.
    pub ep_in: Endpoint,
    /// Endpoint 0 OUT.
    pub ep_out: Endpoint,
}

/// Relation of shared state and action trace across one `setup_step`
/// iteration.
pub open spec fn setup_post(
    pre: State,
    post: State,
    pre_t: Seq<RegAction>,
    post_t: Seq<RegAction>,
    r: SetupPoll,
) -> bool {
    if pre.ep0_setup_ready {
        &&& r matches SetupPoll::Ready(data) && data@ == pre.ep0_setup_data@
        &&& !post.ep0_setup_ready
        &&& post.ep0_setup_data == pre.ep0_setup_data
        &&& post.ep_out_buffers == pre.ep_out_buffers
        &&& post.ep_out_size == pre.ep_out_size
        &&& post.ep_out_wakers == pre.ep_out_wakers
        &&& post.ep_in_wakers == pre.ep_in_wakers
        &&& post.bus_waker == pre.bus_waker
        &&& post_t == pre_t
    } else {
        &&& r is Pending
        &&& post == pre
        &&& post_t == pre_t.push(RegAction::OutEpEnable { index: 0 })
    }
}

/// The status-stage acknowledgment: a zero-length IN transfer.
pub open spec fn accept_actions(index: usize) -> Seq<RegAction> {
    seq![RegAction::SetInTransferSize { index, len: 0 }, RegAction::InEpEnable { index }]
}

/// Programming the device address, then acknowledging the status stage —
/// in that order.
pub open spec fn set_address_actions(index: usize, address: u8) -> Seq<RegAction> {
    seq![RegAction::SetDeviceAddress { address }] + accept_actions(index)
}

/// Two SETUP events at endpoint 0 with no intervening `setup_step`: the
/// first is staged, the second dropped — never overwritten or queued —
/// `setup_step` yields the first event's payload, and the ready flag is
/// clear afterwards.
pub proof fn lemma_second_setup_dropped(
    s0: State,
    s1: State,
    s2: State,
    s3: State,
    d1: Seq<u8>,
    d2: Seq<u8>,
    a1: RxAction,
    a2: RxAction,
    pre_t: Seq<RegAction>,
    post_t: Seq<RegAction>,
    r: SetupPoll,
)
    requires
        !s0.ep0_setup_ready,
        rx_post(s0, s1, 0, RxPacketStatus::SetupDataRx, d1, a1),
        rx_post(s1, s2, 0, RxPacketStatus::SetupDataRx, d2, a2),
        setup_post(s2, s3, pre_t, post_t, r),
    ensures
        a1 == RxAction::StoredSetup,
        a2 == RxAction::DroppedSetup,
        r matches SetupPoll::Ready(data) && data@ == d1,
        !s3.ep0_setup_ready,
{
}

/// The address-register write stands strictly before the zero-length
/// status-stage write in everything `accept_set_address` appends.
pub proof fn lemma_address_before_status(
    pre: Seq<RegAction>,
    post: Seq<RegAction>,
    index: usize,
    address: u8,
)
    requires
        post == pre + set_address_actions(index, address),
    ensures
        post.len() == pre.len() + 3,
        post[pre.len() as int] == (RegAction::SetDeviceAddress { address }),
        post[pre.len() as int + 1] == (RegAction::SetInTransferSize { index, len: 0 }),
        post[pre.len() as int + 2] == (RegAction::InEpEnable { index }),
        exists|i: int, j: int|
            pre.len() <= i < j < post.len() && #[trigger] post[i] == (
            RegAction::SetDeviceAddress { address }) && #[trigger] post[j] == (
            RegAction::InEpEnable { index }),
{
    let a = pre.len() as int;
    assert(post[a] == RegAction::SetDeviceAddress { address });
    assert(post[a + 2] == RegAction::InEpEnable { index });
}

impl ControlPipe {
    /// Well-formedness: both endpoints stand at index 0 in their
    /// directions and share the pipe's maximum packet size.
    pub open spec fn wf(self) -> bool {
        &&& self.ep_in.info.addr.direction == Direction::In
        &&& self.ep_out.info.addr.direction == Direction::Out
        &&& self.ep_in.info.addr.index == 0
        &&& self.ep_out.info.addr.index == 0
        &&& self.ep_in.info.max_packet_size == self.max_packet_size
        &&& self.ep_out.info.max_packet_size == self.max_packet_size
    }

    /// Maximum packet size of the control endpoints.
    pub fn max_packet_size(&self) -> (r: usize)
        ensures
            r == self.max_packet_size as usize,
    {
        self.max_packet_size as usize
    }

    /// One iteration of the SETUP loop: when a packet is staged, take it
    /// and clear the ready flag; otherwise re-arm endpoint 0 OUT and
    /// suspend on its wake signal.
    pub fn setup_step(&self, state: &mut State, trace: &mut Vec<RegAction>) -> (r: SetupPoll)
        requires
            self.wf(),
            old(state).wf(),
            0 < old(state).ep_count(),
        ensures
            final(state).wf(),
            final(state).ep_count() == old(state).ep_count(),
            setup_post(*old(state), *final(state), old(trace)@, final(trace)@, r),
    {
        if state.ep0_setup_ready {
            let data: [u8; 8] = [
                state.ep0_setup_data[0],
                state.ep0_setup_data[1],
                state.ep0_setup_data[2],
                state.ep0_setup_data[3],
                state.ep0_setup_data[4],
                state.ep0_setup_data[5],
                state.ep0_setup_data[6],
                state.ep0_setup_data[7],
            ];
            state.ep0_setup_ready = false;
            proof {
                assert(data@ =~= old(state).ep0_setup_data@);
            }
            SetupPoll::Ready(data)
        } else {
            trace.push(RegAction::OutEpEnable { index: self.ep_out.info.addr.index });
            SetupPoll::Pending
        }
    }

    /// The data stage of a host-to-device transfer: one read iteration on
    /// endpoint 0 OUT.
    pub fn data_out(&self, state: &mut State, buf: &mut Vec<u8>, trace: &mut Vec<RegAction>) -> (r:
        ReadPoll)
        requires
            self.wf(),
            old(state).wf(),
            0 < old(state).ep_count(),
            old(state).ep_out_size@[0] != EP_OUT_BUFFER_EMPTY ==> old(buf)@.len() >= old(
                state,
            ).ep_out_size@[0],
        ensures
            final(state).wf(),
            final(state).ep_count() == old(state).ep_count(),
            read_post(
                0,
                *old(state),
                *final(state),
                old(buf)@,
                final(buf)@,
                old(trace)@,
                final(trace)@,
                r,
            ),
    {
        self.ep_out.read_step(state, buf, trace)
    }

    /// The data stage of a device-to-host transfer: one write iteration
    /// on endpoint 0 IN. After the final packet of the response the
    /// caller proceeds to [`ControlPipe::data_in_status_step`] to consume
    /// the mandatory status-stage handshake.
    pub fn data_in_write_step(
        &self,
        data: &Vec<u8>,
        fifo_space_words: u16,
        trace: &mut Vec<RegAction>,
    ) -> (r: Result<WritePoll, EndpointError>)
        requires
            self.wf(),
        ensures
            write_post(
                0,
                self.max_packet_size,
                data@,
                fifo_space_words,
                old(trace)@,
                final(trace)@,
                r,
            ),
    {
        self.ep_in.write_step(data, fifo_space_words, trace)
    }

    /// Consumes the zero-length status-stage handshake that follows the
    /// last packet of a device-to-host transfer: one zero-length read
    /// iteration on endpoint 0 OUT.
    pub fn data_in_status_step(&self, state: &mut State, trace: &mut Vec<RegAction>) -> (r:
        ReadPoll)
        requires
            self.wf(),
            old(state).wf(),
            0 < old(state).ep_count(),
            old(state).ep_out_size@[0] != EP_OUT_BUFFER_EMPTY ==> old(state).ep_out_size@[0] == 0,
        ensures
            final(state).wf(),
            final(state).ep_count() == old(state).ep_count(),
            old(state).ep_out_size@[0] != EP_OUT_BUFFER_EMPTY ==> {
                &&& r == ReadPoll::Ready(0usize)
                &&& final(state).ep_out_size@ == old(state).ep_out_size@.update(
                    0,
                    EP_OUT_BUFFER_EMPTY,
                )
                &&& final(state).ep_out_buffers == old(state).ep_out_buffers
                &&& final(state).ep_out_wakers == old(state).ep_out_wakers
                &&& final(state).ep_in_wakers == old(state).ep_in_wakers
                &&& final(state).ep0_setup_data == old(state).ep0_setup_data
                &&& final(state).ep0_setup_ready == old(state).ep0_setup_ready
                &&& final(state).bus_waker == old(state).bus_waker
                &&& final(trace)@ == old(trace)@
            },
            old(state).ep_out_size@[0] == EP_OUT_BUFFER_EMPTY ==> {
                &&& r is Pending
                &&& *final(state) == *old(state)
                &&& final(trace)@ == old(trace)@.push(RegAction::OutEpEnable { index: 0 })
            },
    {
        let mut empty: Vec<u8> = Vec::new();
        self.ep_out.read_step(state, &mut empty, trace)
    }

    /// Acknowledges the status stage: a zero-length IN transfer on
    /// endpoint 0.
    pub fn accept(&self, trace: &mut Vec<RegAction>)
        requires
            self.wf(),
        ensures
            final(trace)@ == old(trace)@ + accept_actions(self.ep_in.info.addr.index),
    {
        let empty: Vec<u8> = Vec::new();
        let _ = self.ep_in.write_step(&empty, 0, trace);
        proof {
            assert(write_actions(self.ep_in.info.addr.index, empty@)
                =~= accept_actions(self.ep_in.info.addr.index));
        }
    }

    /// Rejects the request: STALL on both endpoint 0 directions.
    pub fn reject(&self, trace: &mut Vec<RegAction>)
        requires
            self.wf(),
        ensures
            final(trace)@ == old(trace)@ + seq![
                RegAction::InEpSetStall { index: self.ep_in.info.addr.index, stalled: true },
                RegAction::OutEpSetStall { index: self.ep_out.info.addr.index, stalled: true },
            ],
    {
        trace.push(RegAction::InEpSetStall { index: self.ep_in.info.addr.index, stalled: true });
        trace.push(RegAction::OutEpSetStall { index: self.ep_out.info.addr.index, stalled: true });
        proof {
            assert(final(trace)@ =~= old(trace)@ + seq![
                RegAction::InEpSetStall { index: self.ep_in.info.addr.index, stalled: true },
                RegAction::OutEpSetStall { index: self.ep_out.info.addr.index, stalled: true },
            ]);
        }
    }

    /// Programs the device address, then acknowledges the status stage.
    ///
    /// The controller requires the address change to take effect only
    /// after the status-stage acknowledgment, so the order — address
    /// write first, zero-length write second — is load-bearing and must
    /// not be reversed; see [`lemma_address_before_status`].
    pub fn accept_set_address(&self, addr: u8, trace: &mut Vec<RegAction>)
        requires
            self.wf(),
        ensures
            final(trace)@ == old(trace)@ + set_address_actions(self.ep_in.info.addr.index, addr),
    {
        trace.push(RegAction::SetDeviceAddress { address: addr });
        self.accept(trace);
        proof {
            assert(final(trace)@ =~= old(trace)@ + set_address_actions(
                self.ep_in.info.addr.index,
                addr,
            ));
        }
    }
}

} // verus!
