//! Endpoint transfer protocols.
//!
//! Each asynchronous operation of the driver is a suspension loop: check a
//! condition in shared state or a hardware reading, and either complete or
//! re-arm the hardware and suspend. The functions here are one iteration
//! of those loops — the embedder calls them from its poll loop, replaying
//! the appended [`RegAction`]s, until they report completion.

use vstd::prelude::*;

use crate::caps::EP_OUT_BUFFER_EMPTY;
use crate::irq::{rx_post, RxAction, RxPacketStatus};
use crate::regs::RegAction;
use crate::state::State;
use crate::types::{Direction, EndpointError, EndpointInfo};

verus! {

/// One endpoint of one direction, as handed to the device stack.
pub struct Endpoint {
    pub info: EndpointInfo,
}

/// Result of one `read_step` iteration.
#[derive(Copy, Clone, Debug, PartialEq, Eq, Structural)]
pub enum ReadPoll {
    /// A packet of this many bytes was copied out and the slot reset.
    Ready(usize),
    /// No packet is staged; the endpoint was re-armed and the caller must
    /// suspend until the OUT wake signal fires.
    Pending,
}

/// Result of one `write_step` iteration.
#[derive(Copy, Clone, Debug, PartialEq, Eq, Structural)]
pub enum WritePoll {
    /// The transmit FIFO lacks space; a FIFO-empty interrupt was requested
    /// and the caller must suspend until the IN wake signal fires.
    Pending,
    /// The transfer was programmed and every payload word pushed.
    Done,
}

/// Bytes `4k..4k+4` of `data` read as one little-endian FIFO word,
/// zero-padded past the end of the buffer.
pub open spec fn spec_byte_or_zero(data: Seq<u8>, i: int) -> int {
    if 0 <= i < data.len() {
        data[i] as int
    } else {
        0
    }
}

/// The `k`-th word pushed into the transmit FIFO for a payload.
pub open spec fn spec_fifo_word(data: Seq<u8>, k: int) -> u32 {
    (spec_byte_or_zero(data, 4 * k) + spec_byte_or_zero(data, 4 * k + 1) * 0x100
        + spec_byte_or_zero(data, 4 * k + 2) * 0x10000 + spec_byte_or_zero(data, 4 * k + 3)
        * 0x1000000) as u32
}

/// FIFO words needed to carry `len` bytes.
pub open spec fn spec_words_needed(len: int) -> int {
    (len + 3) / 4
}

/// The register writes of one completed IN transfer: program the transfer
/// size (a single packet of the exact byte length), clear NAK and enable
/// the endpoint, then push the payload words.
pub open spec fn write_actions(index: usize, data: Seq<u8>) -> Seq<RegAction> {
    seq![
        RegAction::SetInTransferSize { index, len: data.len() as u16 },
        RegAction::InEpEnable { index },
    ] + Seq::new(
        spec_words_needed(data.len() as int) as nat,
        |k: int| RegAction::PushTxFifoWord { index, word: spec_fifo_word(data, k) },
    )
}

/// Relation of shared state, caller buffer and action trace across one
/// `read_step` iteration on OUT endpoint `index`.
pub open spec fn read_post(
    index: int,
    pre_s: State,
    post_s: State,
    pre_b: Seq<u8>,
    post_b: Seq<u8>,
    pre_t: Seq<RegAction>,
    post_t: Seq<RegAction>,
    r: ReadPoll,
) -> bool {
    if pre_s.ep_out_size@[index] != EP_OUT_BUFFER_EMPTY {
        let len = pre_s.ep_out_size@[index] as int;
        &&& r == ReadPoll::Ready(pre_s.ep_out_size@[index] as usize)
        &&& post_b == pre_s.ep_out_buffers@[index].data@ + pre_b.skip(len)
        &&& post_s.ep_out_size@ == pre_s.ep_out_size@.update(index, EP_OUT_BUFFER_EMPTY)
        &&& post_s.ep_out_buffers == pre_s.ep_out_buffers
        &&& post_s.ep_out_wakers == pre_s.ep_out_wakers
        &&& post_s.ep_in_wakers == pre_s.ep_in_wakers
        &&& post_s.ep0_setup_data == pre_s.ep0_setup_data
        &&& post_s.ep0_setup_ready == pre_s.ep0_setup_ready
        &&& post_s.bus_waker == pre_s.bus_waker
        &&& post_t == pre_t
    } else {
        &&& r == ReadPoll::Pending
        &&& post_s == pre_s
        &&& post_b == pre_b
        &&& post_t == pre_t.push(RegAction::OutEpEnable { index: index as usize })
    }
}

/// Relation of the action trace across one `write_step` iteration on IN
/// endpoint `index` with maximum packet size `mps`.
pub open spec fn write_post(
    index: usize,
    mps: u16,
    data: Seq<u8>,
    space: u16,
    pre_t: Seq<RegAction>,
    post_t: Seq<RegAction>,
    r: Result<WritePoll, EndpointError>,
) -> bool {
    if data.len() > mps {
        r == Result::<WritePoll, EndpointError>::Err(EndpointError::BufferOverflow) && post_t
            == pre_t
    } else if data.len() > 0 && spec_words_needed(data.len() as int) > space {
        r == Result::<WritePoll, EndpointError>::Ok(WritePoll::Pending) && post_t == pre_t.push(
            RegAction::RequestTxFifoEmptyIrq { index },
        )
    } else {
        r == Result::<WritePoll, EndpointError>::Ok(WritePoll::Done) && post_t == pre_t
            + write_actions(index, data)
    }
}

/// After the interrupt handler records an OUT packet at an endpoint, the
/// next read on that endpoint returns exactly the recorded payload and
/// resets the received-length slot to empty; a second read with no
/// intervening hardware event re-arms the endpoint and suspends instead
/// of completing.
pub proof fn lemma_out_packet_read_round_trip(
    s0: State,
    s1: State,
    s2: State,
    s3: State,
    ep: int,
    data: Seq<u8>,
    action: RxAction,
    buf0: Seq<u8>,
    buf1: Seq<u8>,
    buf2: Seq<u8>,
    buf3: Seq<u8>,
    t0: Seq<RegAction>,
    t1: Seq<RegAction>,
    t2: Seq<RegAction>,
    t3: Seq<RegAction>,
    r1: ReadPoll,
    r2: ReadPoll,
)
    requires
        0 <= ep < s0.ep_count(),
        s0.wf(),
        data.len() < EP_OUT_BUFFER_EMPTY,
        s0.ep_out_size@[ep] == EP_OUT_BUFFER_EMPTY,
        rx_post(s0, s1, ep, RxPacketStatus::OutDataRx, data, action),
        read_post(ep, s1, s2, buf0, buf1, t0, t1, r1),
        read_post(ep, s2, s3, buf2, buf3, t2, t3, r2),
    ensures
        action == RxAction::StoredOut,
        r1 == ReadPoll::Ready(data.len() as usize),
        buf1 == data + buf0.skip(data.len() as int),
        r2 == ReadPoll::Pending,
        s3 == s2,
        t3 == t2.push(RegAction::OutEpEnable { index: ep as usize }),
{
    assert(s1.ep_out_size@[ep] == data.len() as u16);
    assert(s1.ep_out_size@[ep] != EP_OUT_BUFFER_EMPTY);
    assert(s2.ep_out_size@[ep] == EP_OUT_BUFFER_EMPTY);
}

/// An oversized write is rejected with `BufferOverflow` before anything
/// reaches the hardware: no action joins the trace.
pub proof fn lemma_oversized_write_rejected(
    index: usize,
    mps: u16,
    data: Seq<u8>,
    space: u16,
    pre_t: Seq<RegAction>,
    post_t: Seq<RegAction>,
    r: Result<WritePoll, EndpointError>,
)
    requires
        write_post(index, mps, data, space, pre_t, post_t, r),
        data.len() > mps,
    ensures
        r == Result::<WritePoll, EndpointError>::Err(EndpointError::BufferOverflow),
        post_t == pre_t,
{
}

impl Endpoint {
    /// The endpoint's static description.
    pub fn info(&self) -> (r: &EndpointInfo)
        ensures
            r == self.info,
    {
        &self.info
    }

    /// Endpoint enable reporting is not wired up; returns at once.
    pub fn wait_enabled(&self) {
    }

    /// One iteration of the OUT read loop: when a packet is staged, copy
    /// it into `buf`, reset the received-length slot to empty and
    /// complete; otherwise clear NAK and re-enable the endpoint
    /// (requesting another packet) and report `Pending`.
    pub fn read_step(&self, state: &mut State, buf: &mut Vec<u8>, trace: &mut Vec<RegAction>) -> (r:
        ReadPoll)
        requires
            self.info.addr.direction == Direction::Out,
            old(state).wf(),
            0 <= self.info.addr.index < old(state).ep_count(),
            old(state).ep_out_size@[self.info.addr.index as int] != EP_OUT_BUFFER_EMPTY ==> old(
                buf,
            )@.len() >= old(state).ep_out_size@[self.info.addr.index as int],
        ensures
            final(state).wf(),
            final(state).ep_count() == old(state).ep_count(),
            read_post(
                self.info.addr.index as int,
                *old(state),
                *final(state),
                old(buf)@,
                final(buf)@,
                old(trace)@,
                final(trace)@,
                r,
            ),
    {
        let index = self.info.addr.index;
        let len16 = state.ep_out_size[index];
        if len16 != EP_OUT_BUFFER_EMPTY {
            let len = len16 as usize;
            let mut k: usize = 0;
            while k < len
                invariant
                    0 <= k <= len,
                    state == old(state),
                    len == state.ep_out_size@[index as int] as int,
                    index < state.ep_count(),
                    state.wf(),
                    state.ep_out_size@[index as int] != EP_OUT_BUFFER_EMPTY,
                    buf@.len() == old(buf)@.len(),
                    old(buf)@.len() >= len,
                    forall|j: int|
                        0 <= j < k ==> buf@[j] == state.ep_out_buffers@[index as int].data@[j],
                    forall|j: int| k <= j < buf@.len() ==> buf@[j] == old(buf)@[j],
                decreases len - k,
            {
                let b = state.ep_out_buffers[index].data[k];
                buf[k] = b;
                k = k + 1;
            }
            state.ep_out_size[index] = EP_OUT_BUFFER_EMPTY;
            proof {
                assert(final(buf)@ =~= old(state).ep_out_buffers@[index as int].data@ + old(
                    buf,
                )@.skip(len as int));
            }
            ReadPoll::Ready(len)
        } else {
            trace.push(RegAction::OutEpEnable { index });
            ReadPoll::Pending
        }
    }

    /// One iteration of the IN write loop.
    ///
    /// A buffer larger than the endpoint's maximum packet size fails with
    /// `BufferOverflow` and touches no hardware. A non-empty buffer that
    /// does not fit the currently available transmit-FIFO space requests a
    /// FIFO-empty interrupt and reports `Pending`. Otherwise the transfer
    /// is programmed and the payload pushed, four zero-padded bytes per
    /// word; completion does not wait for the hardware's transmission
    /// acknowledgment.
    pub fn write_step(&self, buf: &Vec<u8>, fifo_space_words: u16, trace: &mut Vec<RegAction>) -> (
        r: Result<WritePoll, EndpointError>)
        requires
            self.info.addr.direction == Direction::In,
        ensures
            write_post(
                self.info.addr.index,
                self.info.max_packet_size,
                buf@,
                fifo_space_words,
                old(trace)@,
                final(trace)@,
                r,
            ),
    {
        let index = self.info.addr.index;
        if buf.len() > self.info.max_packet_size as usize {
            return Err(EndpointError::BufferOverflow);
        }
        let len = buf.len();
        let size_words = len / 4 + if len % 4 != 0 {
            1usize
        } else {
            0usize
        };
        assert(size_words == spec_words_needed(len as int));
        if len > 0 && size_words > fifo_space_words as usize {
            // Not enough space in the FIFO: ask to be woken when it
            // empties.
            trace.push(RegAction::RequestTxFifoEmptyIrq { index });
            return Ok(WritePoll::Pending);
        }
        trace.push(RegAction::SetInTransferSize { index, len: len as u16 });
        trace.push(RegAction::InEpEnable { index });
        let ghost header = old(trace)@ + seq![
            RegAction::SetInTransferSize { index, len: len as u16 },
            RegAction::InEpEnable { index },
        ];
        let mut k: usize = 0;
        while k < size_words
            invariant
                0 <= k <= size_words,
                len == buf@.len(),
                len <= u16::MAX,
                size_words == spec_words_needed(len as int),
                4 * size_words <= len + 3,
                trace@ == header + Seq::new(
                    k as nat,
                    |j: int| RegAction::PushTxFifoWord { index, word: spec_fifo_word(buf@, j) },
                ),
            decreases size_words - k,
        {
            let w = fifo_word(buf, k);
            trace.push(RegAction::PushTxFifoWord { index, word: w });
            proof {
                assert(trace@ =~= header + Seq::new(
                    (k + 1) as nat,
                    |j: int| RegAction::PushTxFifoWord { index, word: spec_fifo_word(buf@, j) },
                ));
            }
            k = k + 1;
        }
        proof {
            assert(final(trace)@ =~= old(trace)@ + write_actions(index, buf@));
        }
        Ok(WritePoll::Done)
    }
}

/// Reads payload bytes `4k..4k+4` as one FIFO word, zero-padding past the
/// end of the buffer.
fn fifo_word(buf: &Vec<u8>, k: usize) -> (w: u32)
    requires
        4 * k < buf@.len() + 4,
        buf@.len() <= u16::MAX,
    ensures
        w == spec_fifo_word(buf@, k as int),
{
    let base = 4 * k;
    let b0: u32 = if base < buf.len() {
        buf[base] as u32
    } else {
        0
    };
    let b1: u32 = if base + 1 < buf.len() {
        buf[base + 1] as u32
    } else {
        0
    };
    let b2: u32 = if base + 2 < buf.len() {
        buf[base + 2] as u32
    } else {
        0
    };
    let b3: u32 = if base + 3 < buf.len() {
        buf[base + 3] as u32
    } else {
        0
    };
    b0 + b1 * 0x100 + b2 * 0x10000 + b3 * 0x1000000
}

} // verus!
