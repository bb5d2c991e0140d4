//! The interrupt handler.
//!
//! Runs once per hardware interrupt, never blocks and never allocates a
//! resource the task side could race it for. One read of the core status
//! register is demultiplexed into up to three independent actions: masking
//! and signalling bus-level events, draining one receive-FIFO entry, and
//! acknowledging IN-endpoint interrupts. The hardware reads arrive here as
//! plain values; the resulting writes leave as an [`InterruptOutcome`].

use vstd::prelude::*;

use crate::bits::{bit16, clear_bit16, test_bit16};
use crate::caps::EP_OUT_BUFFER_EMPTY;
use crate::state::{OutBuffer, State};

verus! {

/// Bus- and FIFO-level bits of one core interrupt status read.
#[derive(Copy, Clone, Debug, PartialEq, Eq, Structural)]
pub struct CoreInterrupts {
    /// Wakeup detected.
    pub wkupint: bool,
    /// Suspend detected.
    pub usbsusp: bool,
    /// Bus reset detected.
    pub usbrst: bool,
    /// Enumeration done.
    pub enumdne: bool,
    /// The receive FIFO holds at least one status entry.
    pub rxflvl: bool,
    /// At least one IN endpoint raised an interrupt.
    pub iepint: bool,
}

/// Packet type of one receive-FIFO status entry.
#[derive(Copy, Clone, Debug, PartialEq, Eq, Structural)]
pub enum RxPacketStatus {
    /// A SETUP packet was received.
    SetupDataRx,
    /// An OUT data packet was received.
    OutDataRx,
    /// OUT transfer completed; informational.
    OutDataDone,
    /// SETUP stage completed; informational.
    SetupDataDone,
    /// A status the driver does not know.
    Unknown,
}

/// One receive-FIFO status entry together with the payload words behind
/// it.
pub struct RxEvent {
    /// Endpoint index the entry addresses.
    pub ep_num: usize,
    /// Packet type of the entry.
    pub pktsts: RxPacketStatus,
    /// Payload bytes; the byte count of the entry is its length.
    pub data: Vec<u8>,
}

/// What the handler did with one receive-FIFO entry.
#[derive(Copy, Clone, Debug, PartialEq, Eq, Structural)]
pub enum RxAction {
    /// A SETUP packet was staged and the endpoint 0 consumer signalled.
    StoredSetup,
    /// A SETUP packet arrived before the previous one was consumed; the
    /// new one was discarded and a diagnostic is owed.
    DroppedSetup,
    /// An OUT packet was drained into its endpoint's bound region and the
    /// consumer signalled.
    StoredOut,
    /// An OUT packet arrived before the previous one was read; the new one
    /// was discarded and a diagnostic is owed.
    DroppedOut,
    /// A transfer-done marker; no state change.
    Informational,
    /// A status entry the driver does not know; no state change.
    Unrecognized,
    /// The receive FIFO had no entry to pop.
    NoPacket,
}

/// Register writes one interrupt run asks of the embedder.
#[derive(Copy, Clone, Debug, PartialEq, Eq, Structural)]
pub struct InterruptOutcome {
    /// Clear the core interrupt mask before returning (a bus-level event
    /// was signalled and must not storm until consumed).
    pub core_irqs_masked: bool,
    /// What became of the receive-FIFO entry.
    pub rx: RxAction,
    /// New value of the "notify on transmit FIFO empty" request mask.
    pub diepempmsk: u16,
    /// Endpoints whose pending interrupt flags must be cleared by
    /// write-back.
    pub in_flags_cleared: u16,
}

/// The SETUP/OUT receive fields of `post` equal those of `pre`.
pub open spec fn rx_slots_same(pre: State, post: State) -> bool {
    &&& post.ep0_setup_data == pre.ep0_setup_data
    &&& post.ep0_setup_ready == pre.ep0_setup_ready
    &&& post.ep_out_buffers == pre.ep_out_buffers
    &&& post.ep_out_size == pre.ep_out_size
    &&& post.ep_out_wakers == pre.ep_out_wakers
}

/// Relation of the bus-level fields across one handler run.
pub open spec fn bus_irq_post(pre: State, post: State, masked: bool, ints: CoreInterrupts) -> bool {
    &&& masked == (ints.wkupint || ints.usbsusp || ints.usbrst || ints.enumdne)
    &&& post.bus_waker == (pre.bus_waker || masked)
}

/// Relation of the receive fields across the handling of one FIFO entry.
pub open spec fn rx_post(
    pre: State,
    post: State,
    ep_num: int,
    pktsts: RxPacketStatus,
    data: Seq<u8>,
    action: RxAction,
) -> bool {
    match pktsts {
        RxPacketStatus::SetupDataRx => if !pre.ep0_setup_ready {
            &&& action == RxAction::StoredSetup
            &&& post.ep0_setup_data@ == data
            &&& post.ep0_setup_ready
            &&& post.ep_out_wakers@ == pre.ep_out_wakers@.update(0, true)
            &&& post.ep_out_buffers == pre.ep_out_buffers
            &&& post.ep_out_size == pre.ep_out_size
        } else {
            action == RxAction::DroppedSetup && rx_slots_same(pre, post)
        },
        RxPacketStatus::OutDataRx => if pre.ep_out_size@[ep_num] == EP_OUT_BUFFER_EMPTY {
            &&& action == RxAction::StoredOut
            &&& post.ep_out_buffers@.len() == pre.ep_out_buffers@.len()
            &&& post.ep_out_buffers@[ep_num].data@ == data
            &&& post.ep_out_buffers@[ep_num].capacity == pre.ep_out_buffers@[ep_num].capacity
            &&& forall|j: int|
                0 <= j < pre.ep_out_buffers@.len() && j != ep_num
                    ==> post.ep_out_buffers@[j] == pre.ep_out_buffers@[j]
            &&& post.ep_out_size@ == pre.ep_out_size@.update(ep_num, data.len() as u16)
            &&& post.ep_out_wakers@ == pre.ep_out_wakers@.update(ep_num, true)
            &&& post.ep0_setup_data == pre.ep0_setup_data
            &&& post.ep0_setup_ready == pre.ep0_setup_ready
        } else {
            action == RxAction::DroppedOut && rx_slots_same(pre, post)
        },
        RxPacketStatus::OutDataDone => action == RxAction::Informational && rx_slots_same(pre, post),
        RxPacketStatus::SetupDataDone => action == RxAction::Informational && rx_slots_same(
            pre,
            post,
        ),
        RxPacketStatus::Unknown => action == RxAction::Unrecognized && rx_slots_same(pre, post),
    }
}

/// Relation of the receive fields when the FIFO may or may not have held
/// an entry.
pub open spec fn rx_opt_post(pre: State, post: State, rx: Option<RxEvent>, action: RxAction) -> bool {
    match rx {
        Some(ev) => rx_post(pre, post, ev.ep_num as int, ev.pktsts, ev.data@, action),
        None => action == RxAction::NoPacket && rx_slots_same(pre, post),
    }
}

/// Relation of the IN-endpoint fields and the notify-on-empty mask across
/// one handler run.
pub open spec fn in_irq_post(
    pre: State,
    post: State,
    handled: bool,
    pending: u16,
    txfe: u16,
    mask_pre: u16,
    mask_post: u16,
) -> bool {
    if handled {
        &&& forall|j: int|
            0 <= j < 16 ==> (bit16(mask_post, j) <==> (bit16(mask_pre, j) && !(bit16(pending, j)
                && bit16(txfe, j))))
        &&& post.ep_in_wakers@.len() == pre.ep_in_wakers@.len()
        &&& forall|j: int|
            0 <= j < pre.ep_in_wakers@.len() ==> #[trigger] post.ep_in_wakers@[j] == (
            pre.ep_in_wakers@[j] || bit16(pending, j))
    } else {
        mask_post == mask_pre && post.ep_in_wakers == pre.ep_in_wakers
    }
}

/// A receive-FIFO entry the hardware can actually deliver: the endpoint
/// index is in range, a SETUP packet is 8 bytes at endpoint 0, and an OUT
/// packet fits the bound receive region.
pub open spec fn rx_event_ok(s: State, ev: RxEvent) -> bool {
    &&& 0 <= ev.ep_num < s.ep_count()
    &&& ev.pktsts == RxPacketStatus::SetupDataRx ==> ev.ep_num == 0 && ev.data@.len() == 8
    &&& ev.pktsts == RxPacketStatus::OutDataRx ==> ev.data@.len()
        <= s.ep_out_buffers@[ev.ep_num as int].capacity && ev.data@.len() < EP_OUT_BUFFER_EMPTY
}

/// Copies a byte buffer.
fn copy_bytes(src: &Vec<u8>) -> (r: Vec<u8>)
    ensures
        r@ == src@,
{
    let mut r: Vec<u8> = Vec::new();
    let mut i: usize = 0;
    while i < src.len()
        invariant
            0 <= i <= src@.len(),
            r@ == src@.take(i as int),
        decreases src@.len() - i,
    {
        r.push(src[i]);
        proof {
            assert(r@ =~= src@.take(i as int + 1));
        }
        i = i + 1;
    }
    proof {
        assert(src@.take(src@.len() as int) =~= src@);
    }
    r
}

/// Handles the bus-level status bits: when any of reset, suspend, wakeup
/// or enumeration-done is pending, mask the whole core interrupt set (the
/// consumer re-arms it once it has observed the event) and signal the bus
/// consumer.
pub fn handle_bus_interrupt(state: &mut State, ints: CoreInterrupts) -> (masked: bool)
    ensures
        bus_irq_post(*old(state), *final(state), masked, ints),
        rx_slots_same(*old(state), *final(state)),
        final(state).ep_in_wakers == old(state).ep_in_wakers,
        final(state).wf() == old(state).wf(),
{
    if ints.wkupint || ints.usbsusp || ints.usbrst || ints.enumdne {
        state.bus_waker = true;
        true
    } else {
        false
    }
}

/// Handles one receive-FIFO status entry.
///
/// A SETUP packet is staged only while the previous one has been consumed;
/// an OUT packet is drained into its endpoint's bound region only while
/// the received-length slot is empty. In either busy case the packet is
/// discarded — the handler never overwrites, queues or blocks — and the
/// caller owes a diagnostic.
pub fn handle_rx_event(
    state: &mut State,
    ep_num: usize,
    pktsts: RxPacketStatus,
    data: &Vec<u8>,
) -> (action: RxAction)
    requires
        old(state).wf(),
        0 <= ep_num < old(state).ep_count(),
        pktsts == RxPacketStatus::SetupDataRx ==> ep_num == 0 && data@.len() == 8,
        pktsts == RxPacketStatus::OutDataRx ==> data@.len() <= old(
            state,
        ).ep_out_buffers@[ep_num as int].capacity && data@.len() < EP_OUT_BUFFER_EMPTY,
    ensures
        final(state).wf(),
        final(state).ep_count() == old(state).ep_count(),
        rx_post(*old(state), *final(state), ep_num as int, pktsts, data@, action),
        final(state).bus_waker == old(state).bus_waker,
        final(state).ep_in_wakers == old(state).ep_in_wakers,
{
    match pktsts {
        RxPacketStatus::SetupDataRx => {
            if !state.ep0_setup_ready {
                state.ep0_setup_data = copy_bytes(data);
                state.ep0_setup_ready = true;
                state.ep_out_wakers[0] = true;
                RxAction::StoredSetup
            } else {
                // A SETUP arrived before the previous one finished
                // processing; discard the FIFO words.
                RxAction::DroppedSetup
            }
        },
        RxPacketStatus::OutDataRx => {
            if state.ep_out_size[ep_num] == EP_OUT_BUFFER_EMPTY {
                let bytes = copy_bytes(data);
                let len = bytes.len() as u16;
                state.ep_out_buffers[ep_num].data = bytes;
                state.ep_out_size[ep_num] = len;
                state.ep_out_wakers[ep_num] = true;
                RxAction::StoredOut
            } else {
                // Receive overflow: the previous packet was not read yet;
                // discard the FIFO words.
                RxAction::DroppedOut
            }
        },
        RxPacketStatus::OutDataDone => RxAction::Informational,
        RxPacketStatus::SetupDataDone => RxAction::Informational,
        RxPacketStatus::Unknown => RxAction::Unrecognized,
    }
}

/// Handles the IN-endpoint interrupt bits: every pending endpoint has its
/// flags cleared by write-back and its consumer signalled; where the
/// "transmit FIFO empty" condition contributed, the endpoint's bit leaves
/// the notify-on-empty request mask.
pub fn handle_in_endpoint_interrupt(
    state: &mut State,
    pending: u16,
    txfe: u16,
    diepempmsk: u16,
) -> (mask_post: u16)
    requires
        old(state).wf(),
        old(state).ep_count() <= 16,
        forall|j: int| old(state).ep_count() <= j < 16 ==> !bit16(pending, j),
    ensures
        final(state).wf(),
        final(state).ep_count() == old(state).ep_count(),
        in_irq_post(*old(state), *final(state), true, pending, txfe, diepempmsk, mask_post),
        rx_slots_same(*old(state), *final(state)),
        final(state).bus_waker == old(state).bus_waker,
{
    let mut mask: u16 = diepempmsk;
    let mut i: usize = 0;
    let n = state.ep_in_wakers.len();
    while i < n
        invariant
            0 <= i <= n,
            n == state.ep_count(),
            n <= 16,
            state.wf(),
            forall|j: int|
                0 <= j < 16 ==> (bit16(mask, j) <==> (bit16(diepempmsk, j) && !(j < i && bit16(
                    pending,
                    j,
                ) && bit16(txfe, j)))),
            state.ep_in_wakers@.len() == old(state).ep_in_wakers@.len(),
            forall|j: int|
                0 <= j < i ==> #[trigger] state.ep_in_wakers@[j] == (old(state).ep_in_wakers@[j]
                    || bit16(pending, j)),
            forall|j: int| i <= j < n ==> state.ep_in_wakers@[j] == old(state).ep_in_wakers@[j],
            rx_slots_same(*old(state), *state),
            state.bus_waker == old(state).bus_waker,
        decreases n - i,
    {
        if test_bit16(pending, i) {
            if test_bit16(txfe, i) {
                mask = clear_bit16(mask, i);
            }
            state.ep_in_wakers[i] = true;
        }
        i = i + 1;
    }
    mask
}

/// One full interrupt run: bus bits, one receive-FIFO entry, IN-endpoint
/// bits, in that order.
///
/// The caller pops the receive-FIFO entry (with its payload words) and
/// reads the masks; this function makes every decision and reports the
/// owed register writes in the outcome.
pub fn on_interrupt(
    state: &mut State,
    ints: CoreInterrupts,
    rx: Option<RxEvent>,
    in_pending: u16,
    in_txfe: u16,
    diepempmsk: u16,
) -> (outcome: InterruptOutcome)
    requires
        old(state).wf(),
        old(state).ep_count() <= 16,
        ints.rxflvl <==> rx is Some,
        rx matches Some(ev) ==> rx_event_ok(*old(state), ev),
        ints.iepint ==> forall|j: int| old(state).ep_count() <= j < 16 ==> !bit16(in_pending, j),
    ensures
        final(state).wf(),
        final(state).ep_count() == old(state).ep_count(),
        bus_irq_post(*old(state), *final(state), outcome.core_irqs_masked, ints),
        rx_opt_post(*old(state), *final(state), rx, outcome.rx),
        in_irq_post(
            *old(state),
            *final(state),
            ints.iepint,
            in_pending,
            in_txfe,
            diepempmsk,
            outcome.diepempmsk,
        ),
        outcome.in_flags_cleared == if ints.iepint {
            in_pending
        } else {
            0u16
        },
{
    let core_irqs_masked = handle_bus_interrupt(state, ints);

    let rx_action = match &rx {
        Some(ev) => handle_rx_event(state, ev.ep_num, ev.pktsts, &ev.data),
        None => RxAction::NoPacket,
    };

    let (diepempmsk_post, in_flags_cleared) = if ints.iepint {
        let m = handle_in_endpoint_interrupt(state, in_pending, in_txfe, diepempmsk);
        (m, in_pending)
    } else {
        (diepempmsk, 0u16)
    };

    InterruptOutcome {
        core_irqs_masked,
        rx: rx_action,
        diepempmsk: diepempmsk_post,
        in_flags_cleared,
    }
}

} // verus!
