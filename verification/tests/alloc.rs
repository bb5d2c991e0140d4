//! Allocation: the FIFO word budget, the index-0 reservation, and the
//! buffer-pool gating.

use usb_otg::caps::{capabilities_of, ChipFamily, EP_OUT_BUFFER_EMPTY};
use usb_otg::driver::Driver;
use usb_otg::state::State;
use usb_otg::types::{Direction, EndpointType};

fn fresh() -> (Driver, State) {
    let caps = capabilities_of(ChipFamily::F4Late);
    assert_eq!(caps.fifo_depth_words, 320);
    assert_eq!(caps.endpoint_count, 6);
    let state = State::new(caps.endpoint_count);
    (Driver::new_fs(caps, 4096), state)
}

#[test]
fn fresh_driver_spends_only_the_rx_headroom() {
    let (d, _s) = fresh();
    assert_eq!(d.allocated_fifo_words(), 30);
    assert_eq!(d.ep_out_buffer_offset, 0);
}

#[test]
fn six_bulk_endpoints_of_64_bytes_consume_126_words() {
    // fifo_depth_words = 320: three OUT and three IN endpoints of 64
    // bytes cost 30 + 3*16 + 3*16 = 126 words.
    let (mut d, mut s) = fresh();
    for _ in 0..3 {
        d.alloc_endpoint(&mut s, Direction::Out, EndpointType::Bulk, 64, 0)
            .unwrap();
    }
    for _ in 0..3 {
        d.alloc_endpoint(&mut s, Direction::In, EndpointType::Bulk, 64, 0)
            .unwrap();
    }
    assert_eq!(d.allocated_fifo_words(), 126);
}

#[test]
fn budget_boundary_is_exact() {
    let (mut d, mut s) = fresh();
    for _ in 0..3 {
        d.alloc_endpoint(&mut s, Direction::Out, EndpointType::Bulk, 64, 0)
            .unwrap();
    }
    for _ in 0..3 {
        d.alloc_endpoint(&mut s, Direction::In, EndpointType::Bulk, 64, 0)
            .unwrap();
    }
    // 194 more words land exactly on the 320-word budget.
    d.alloc_endpoint(&mut s, Direction::In, EndpointType::Bulk, 776, 0)
        .unwrap();
    assert_eq!(d.allocated_fifo_words(), 320);
    // One more word would push past the budget.
    let r = d.alloc_endpoint(&mut s, Direction::Out, EndpointType::Bulk, 4, 0);
    assert!(r.is_err());
    // The failure changed nothing.
    assert_eq!(d.allocated_fifo_words(), 320);
}

#[test]
fn a_seventh_oversized_endpoint_fails() {
    let (mut d, mut s) = fresh();
    for _ in 0..3 {
        d.alloc_endpoint(&mut s, Direction::Out, EndpointType::Bulk, 64, 0)
            .unwrap();
    }
    for _ in 0..3 {
        d.alloc_endpoint(&mut s, Direction::In, EndpointType::Bulk, 64, 0)
            .unwrap();
    }
    // 126 words are spent; 784 bytes would need 196 of the 194 left.
    let r = d.alloc_endpoint(&mut s, Direction::In, EndpointType::Bulk, 784, 0);
    assert!(r.is_err());
    assert_eq!(d.allocated_fifo_words(), 126);
}

#[test]
fn index_zero_goes_to_control_only() {
    let (mut d, mut s) = fresh();
    // A bulk request skips the reserved slot 0.
    let bulk = d
        .alloc_endpoint(&mut s, Direction::Out, EndpointType::Bulk, 64, 0)
        .unwrap();
    assert_eq!(bulk.info.addr.index, 1);
    // A control request takes slot 0 while it is free.
    let ctrl = d
        .alloc_endpoint(&mut s, Direction::Out, EndpointType::Control, 64, 0)
        .unwrap();
    assert_eq!(ctrl.info.addr.index, 0);
    // With slot 0 occupied, a further control request scans on.
    let ctrl2 = d
        .alloc_endpoint(&mut s, Direction::Out, EndpointType::Control, 64, 0)
        .unwrap();
    assert_eq!(ctrl2.info.addr.index, 2);
}

#[test]
fn slots_exhaust_deterministically() {
    let caps = capabilities_of(ChipFamily::F4Early);
    assert_eq!(caps.endpoint_count, 4);
    let mut s = State::new(caps.endpoint_count);
    let mut d = Driver::new_fs(caps, 4096);
    for expect in 1..4 {
        let ep = d
            .alloc_endpoint(&mut s, Direction::In, EndpointType::Interrupt, 8, 10)
            .unwrap();
        assert_eq!(ep.info.addr.index, expect);
        assert_eq!(ep.info.interval, 10);
    }
    // Slots 1..3 are taken and 0 stays reserved.
    let r = d.alloc_endpoint(&mut s, Direction::In, EndpointType::Interrupt, 8, 10);
    assert!(r.is_err());
}

/// The pool-capacity check and the region binding are gated on the IN
/// direction, though OUT endpoints are the ones that receive into the
/// pool. This reads as a direction inversion; it is reproduced exactly,
/// and this test documents the behaviour as a case needing clarification
/// against the protocol consumer.
#[test]
fn pool_gating_follows_the_in_direction() {
    let caps = capabilities_of(ChipFamily::F4Late);
    let mut s = State::new(caps.endpoint_count);
    // A pool of 10 bytes cannot hold a 64-byte region, yet an OUT
    // allocation passes: the check only fires for IN.
    let mut d = Driver::new_fs(caps, 10);
    let out = d.alloc_endpoint(&mut s, Direction::Out, EndpointType::Bulk, 64, 0);
    assert!(out.is_ok());
    assert_eq!(d.ep_out_buffer_offset, 0);
    // The IN allocation is the one that trips it.
    let r = d.alloc_endpoint(&mut s, Direction::In, EndpointType::Bulk, 64, 0);
    assert!(r.is_err());
}

#[test]
fn in_allocation_carves_and_binds_a_region() {
    let (mut d, mut s) = fresh();
    let ep = d
        .alloc_endpoint(&mut s, Direction::In, EndpointType::Bulk, 64, 0)
        .unwrap();
    assert_eq!(ep.info.addr.index, 1);
    assert_eq!(d.ep_out_buffer_offset, 64);
    assert_eq!(s.ep_out_buffers[1].capacity, 64);
    let ep2 = d
        .alloc_endpoint(&mut s, Direction::In, EndpointType::Bulk, 32, 0)
        .unwrap();
    assert_eq!(ep2.info.addr.index, 2);
    assert_eq!(d.ep_out_buffer_offset, 96);
    assert_eq!(s.ep_out_buffers[2].capacity, 32);
}

#[test]
fn fresh_state_is_empty() {
    let s = State::new(6);
    assert!(!s.ep0_setup_ready);
    assert!(!s.bus_waker);
    for i in 0..6 {
        assert_eq!(s.ep_out_size[i], EP_OUT_BUFFER_EMPTY);
        assert!(!s.ep_in_wakers[i]);
        assert!(!s.ep_out_wakers[i]);
        assert_eq!(s.ep_out_buffers[i].capacity, 0);
    }
    assert_eq!(s.ep0_setup_data, vec![0u8; 8]);
}

#[test]
fn in_endpoints_get_the_sixteen_word_minimum() {
    let (mut d, mut s) = fresh();
    // 8 bytes round to 2 words for OUT but 16 for IN: the hardware
    // minimum transmit-FIFO grant.
    d.alloc_endpoint(&mut s, Direction::Out, EndpointType::Interrupt, 8, 1)
        .unwrap();
    assert_eq!(d.allocated_fifo_words(), 32);
    d.alloc_endpoint(&mut s, Direction::In, EndpointType::Interrupt, 8, 1)
        .unwrap();
    assert_eq!(d.allocated_fifo_words(), 48);
}
