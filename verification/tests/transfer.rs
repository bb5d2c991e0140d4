//! Endpoint transfer protocols: oversized writes, FIFO-space waiting,
//! payload word packing, and the OUT receive round trip.

use usb_otg::caps::EP_OUT_BUFFER_EMPTY;
use usb_otg::endpoint::{Endpoint, ReadPoll, WritePoll};
use usb_otg::irq::{handle_rx_event, RxAction, RxPacketStatus};
use usb_otg::regs::RegAction;
use usb_otg::state::State;
use usb_otg::types::{Direction, EndpointAddress, EndpointError, EndpointInfo, EndpointType};

fn in_endpoint(index: usize, mps: u16) -> Endpoint {
    Endpoint {
        info: EndpointInfo {
            addr: EndpointAddress::from_parts(index, Direction::In),
            ep_type: EndpointType::Bulk,
            max_packet_size: mps,
            interval: 0,
        },
    }
}

fn out_endpoint(index: usize, mps: u16) -> Endpoint {
    Endpoint {
        info: EndpointInfo {
            addr: EndpointAddress::from_parts(index, Direction::Out),
            ep_type: EndpointType::Bulk,
            max_packet_size: mps,
            interval: 0,
        },
    }
}

#[test]
fn oversized_write_fails_without_hardware_side_effects() {
    let ep = in_endpoint(1, 8);
    let mut trace: Vec<RegAction> = Vec::new();
    let r = ep.write_step(&vec![0u8; 9], 1000, &mut trace);
    assert_eq!(r, Err(EndpointError::BufferOverflow));
    assert!(trace.is_empty());
}

#[test]
fn write_at_exactly_max_packet_size_passes() {
    let ep = in_endpoint(1, 8);
    let mut trace: Vec<RegAction> = Vec::new();
    let r = ep.write_step(&vec![0u8; 8], 1000, &mut trace);
    assert_eq!(r, Ok(WritePoll::Done));
}

#[test]
fn write_waits_for_fifo_space() {
    let ep = in_endpoint(2, 64);
    let mut trace: Vec<RegAction> = Vec::new();
    // Five bytes need two words; one word of space is not enough.
    let r = ep.write_step(&vec![1, 2, 3, 4, 5], 1, &mut trace);
    assert_eq!(r, Ok(WritePoll::Pending));
    assert_eq!(trace, vec![RegAction::RequestTxFifoEmptyIrq { index: 2 }]);
    // The next iteration, with space available, transmits.
    let mut trace2: Vec<RegAction> = Vec::new();
    let r2 = ep.write_step(&vec![1, 2, 3, 4, 5], 2, &mut trace2);
    assert_eq!(r2, Ok(WritePoll::Done));
}

#[test]
fn write_packs_words_little_endian_zero_padded() {
    let ep = in_endpoint(1, 64);
    let mut trace: Vec<RegAction> = Vec::new();
    let r = ep.write_step(&vec![0x01, 0x02, 0x03, 0x04, 0x05], 16, &mut trace);
    assert_eq!(r, Ok(WritePoll::Done));
    assert_eq!(
        trace,
        vec![
            RegAction::SetInTransferSize { index: 1, len: 5 },
            RegAction::InEpEnable { index: 1 },
            RegAction::PushTxFifoWord { index: 1, word: 0x0403_0201 },
            RegAction::PushTxFifoWord { index: 1, word: 0x0000_0005 },
        ]
    );
}

#[test]
fn zero_length_write_programs_but_pushes_nothing() {
    let ep = in_endpoint(0, 64);
    let mut trace: Vec<RegAction> = Vec::new();
    // A zero-length packet never waits for FIFO space.
    let r = ep.write_step(&Vec::new(), 0, &mut trace);
    assert_eq!(r, Ok(WritePoll::Done));
    assert_eq!(
        trace,
        vec![
            RegAction::SetInTransferSize { index: 0, len: 0 },
            RegAction::InEpEnable { index: 0 },
        ]
    );
}

#[test]
fn recorded_out_packet_reads_back_exactly_once() {
    let mut s = State::new(4);
    s.ep_out_buffers[2].capacity = 64;
    let payload = vec![0xde, 0xad, 0xbe];

    let action = handle_rx_event(&mut s, 2, RxPacketStatus::OutDataRx, &payload);
    assert_eq!(action, RxAction::StoredOut);
    assert_eq!(s.ep_out_size[2], 3);
    assert!(s.ep_out_wakers[2]);

    let ep = out_endpoint(2, 64);
    let mut buf = vec![0u8; 8];
    let mut trace: Vec<RegAction> = Vec::new();
    let r = ep.read_step(&mut s, &mut buf, &mut trace);
    assert_eq!(r, ReadPoll::Ready(3));
    assert_eq!(&buf[..3], &payload[..]);
    assert_eq!(s.ep_out_size[2], EP_OUT_BUFFER_EMPTY);
    assert!(trace.is_empty());

    // A second read with no intervening hardware event suspends and
    // re-arms the endpoint instead of completing.
    let r2 = ep.read_step(&mut s, &mut buf, &mut trace);
    assert_eq!(r2, ReadPoll::Pending);
    assert_eq!(trace, vec![RegAction::OutEpEnable { index: 2 }]);
}

#[test]
fn out_packet_on_a_busy_slot_is_dropped() {
    let mut s = State::new(4);
    s.ep_out_buffers[1].capacity = 64;
    let first = vec![1, 2, 3, 4];
    let second = vec![9, 9];

    assert_eq!(
        handle_rx_event(&mut s, 1, RxPacketStatus::OutDataRx, &first),
        RxAction::StoredOut
    );
    // The slot still holds the first packet: the overflow is resolved by
    // dropping the newest event, never by overwriting.
    assert_eq!(
        handle_rx_event(&mut s, 1, RxPacketStatus::OutDataRx, &second),
        RxAction::DroppedOut
    );
    assert_eq!(s.ep_out_size[1], 4);
    assert_eq!(s.ep_out_buffers[1].data, first);
}

#[test]
fn done_markers_change_nothing() {
    let mut s = State::new(4);
    let none: Vec<u8> = Vec::new();
    assert_eq!(
        handle_rx_event(&mut s, 1, RxPacketStatus::OutDataDone, &none),
        RxAction::Informational
    );
    assert_eq!(
        handle_rx_event(&mut s, 1, RxPacketStatus::SetupDataDone, &none),
        RxAction::Informational
    );
    assert_eq!(s.ep_out_size[1], EP_OUT_BUFFER_EMPTY);
    assert!(!s.ep_out_wakers[1]);
}
