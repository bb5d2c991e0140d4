//! The bus state machine, the hardware configuration plan, the bring-up
//! sequence, the interrupt handler, and the register-field encoders.

use usb_otg::bits::test_bit16;
use usb_otg::bus::{EpSetup, PollResult, TxFifoRegion};
use usb_otg::caps::{capabilities_of, ChipFamily};
use usb_otg::driver::Driver;
use usb_otg::irq::{on_interrupt, CoreInterrupts, RxAction, RxEvent, RxPacketStatus};
use usb_otg::regs::{calculate_trdt, ep0_mpsiz, ep0_mpsiz_supported, to_eptyp, trdt_for, RegAction};
use usb_otg::state::State;
use usb_otg::types::{
    Dir, Direction, EndpointAddress, EndpointType, Event, Hertz, In, NegotiatedSpeed, Out, PhyType,
};

fn quiet() -> CoreInterrupts {
    CoreInterrupts {
        wkupint: false,
        usbsusp: false,
        usbrst: false,
        enumdne: false,
        rxflvl: false,
        iepint: false,
    }
}

fn started() -> (usb_otg::bus::Bus, usb_otg::control::ControlPipe, State) {
    let caps = capabilities_of(ChipFamily::F4Late);
    let mut s = State::new(caps.endpoint_count);
    let mut d = Driver::new_fs(caps, 4096);
    d.alloc_endpoint(&mut s, Direction::In, EndpointType::Bulk, 64, 0)
        .unwrap();
    let (bus, pipe) = d.start(&mut s, 64);
    (bus, pipe, s)
}

#[test]
fn start_places_both_control_endpoints_at_index_zero() {
    let (bus, pipe, s) = started();
    assert_eq!(pipe.ep_in.info.addr.index, 0);
    assert_eq!(pipe.ep_out.info.addr.index, 0);
    assert_eq!(pipe.ep_in.info.ep_type, EndpointType::Control);
    assert_eq!(pipe.max_packet_size, 64);
    assert!(!bus.enabled);
    // The IN-side control allocation bound the endpoint 0 region.
    assert_eq!(s.ep_out_buffers[0].capacity, 64);
}

#[test]
fn configure_partitions_the_fifo_contiguously() {
    let (bus, _pipe, _s) = started();
    let plan = bus.configure();
    // Receive FIFO: 30 words of headroom plus the control OUT grant.
    assert_eq!(plan.rx_fifo_size_words, 46);
    // IN regions stack on top in index order: control 0 first, then the
    // bulk endpoint at index 1.
    assert_eq!(
        plan.tx_regions[0],
        Some(TxFifoRegion { start_addr: 46, depth_words: 16 })
    );
    assert_eq!(
        plan.tx_regions[1],
        Some(TxFifoRegion { start_addr: 62, depth_words: 16 })
    );
    for i in 2..6 {
        assert_eq!(plan.tx_regions[i], None);
    }
    // Endpoint 0 uses the encoded packet-size field.
    assert_eq!(
        plan.in_setup[0],
        Some(EpSetup::Control { mpsiz_code: 0b00, transfer_size: 64 })
    );
    assert_eq!(
        plan.in_setup[1],
        Some(EpSetup::Generic { eptyp: 2, max_packet_size: 64 })
    );
    assert_eq!(
        plan.out_setup[0],
        Some(EpSetup::Control { mpsiz_code: 0b00, transfer_size: 64 })
    );
    // Interrupts are unmasked for the allocated IN endpoints alone.
    assert!(test_bit16(plan.daintmsk_in, 0));
    assert!(test_bit16(plan.daintmsk_in, 1));
    for i in 2..16 {
        assert!(!test_bit16(plan.daintmsk_in, i));
    }
}

#[test]
fn poll_before_enable_synthesises_power_detection() {
    let (bus, _pipe, _s) = started();
    let mut trace: Vec<RegAction> = Vec::new();
    let step = bus.poll_step(
        quiet(),
        NegotiatedSpeed::FullSpeedInternal,
        Hertz(48_000_000),
        &mut trace,
    );
    assert_eq!(step.result, PollResult::Event(Event::PowerDetected));
    assert!(step.configure.is_none());
    assert!(trace.is_empty());
}

#[test]
fn poll_handles_reset_then_delivers_on_enumeration_done() {
    let (mut bus, _pipe, _s) = started();
    bus.enabled = true;
    let mut trace: Vec<RegAction> = Vec::new();
    let ints = CoreInterrupts { usbrst: true, enumdne: true, ..quiet() };
    let step = bus.poll_step(
        ints,
        NegotiatedSpeed::FullSpeedInternal,
        Hertz(48_000_000),
        &mut trace,
    );
    assert_eq!(step.result, PollResult::Event(Event::Reset));
    assert!(step.configure.is_some());
    assert_eq!(
        trace,
        vec![
            RegAction::SetDeviceAddress { address: 0 },
            RegAction::ClearResetFlag,
            RegAction::RestoreCoreIrqs,
            RegAction::SetTurnaroundTime { trdt: 0x6 },
            RegAction::ClearEnumDoneFlag,
            RegAction::RestoreCoreIrqs,
        ]
    );
}

#[test]
fn poll_reports_suspend_and_resume() {
    let (mut bus, _pipe, _s) = started();
    bus.enabled = true;
    let mut trace: Vec<RegAction> = Vec::new();
    let step = bus.poll_step(
        CoreInterrupts { usbsusp: true, ..quiet() },
        NegotiatedSpeed::FullSpeedInternal,
        Hertz(48_000_000),
        &mut trace,
    );
    assert_eq!(step.result, PollResult::Event(Event::Suspend));
    assert_eq!(
        trace,
        vec![RegAction::ClearSuspendFlag, RegAction::RestoreCoreIrqs]
    );

    let mut trace2: Vec<RegAction> = Vec::new();
    let step2 = bus.poll_step(
        CoreInterrupts { wkupint: true, ..quiet() },
        NegotiatedSpeed::FullSpeedInternal,
        Hertz(48_000_000),
        &mut trace2,
    );
    assert_eq!(step2.result, PollResult::Event(Event::Resume));
    assert_eq!(
        trace2,
        vec![RegAction::ClearWakeupFlag, RegAction::RestoreCoreIrqs]
    );

    let mut trace3: Vec<RegAction> = Vec::new();
    let step3 = bus.poll_step(
        quiet(),
        NegotiatedSpeed::FullSpeedInternal,
        Hertz(48_000_000),
        &mut trace3,
    );
    assert_eq!(step3.result, PollResult::Pending);
    assert!(trace3.is_empty());
}

#[test]
fn a_clock_too_slow_for_the_negotiated_speed_is_fatal() {
    let (mut bus, _pipe, _s) = started();
    bus.enabled = true;
    let mut trace: Vec<RegAction> = Vec::new();
    let step = bus.poll_step(
        CoreInterrupts { enumdne: true, ..quiet() },
        NegotiatedSpeed::FullSpeedInternal,
        Hertz(14_000_000),
        &mut trace,
    );
    assert_eq!(step.result, PollResult::Fatal);
    assert!(trace.is_empty());
}

#[test]
fn enable_orders_the_bring_up_and_connects_last() {
    let (mut bus, _pipe, _s) = started();
    let mut trace: Vec<RegAction> = Vec::new();
    bus.enable(0x0000_1200, &mut trace).unwrap();
    assert!(bus.enabled);
    assert_eq!(trace[8], RegAction::VbusDisableSensing);
    assert_eq!(trace.last(), Some(&RegAction::Connect));
    let disconnect = trace
        .iter()
        .position(|a| *a == RegAction::SoftDisconnect)
        .unwrap();
    let connect = trace.iter().position(|a| *a == RegAction::Connect).unwrap();
    assert!(disconnect < connect);
}

#[test]
fn enable_picks_the_vbus_strategy_by_core_id() {
    let (mut bus, _pipe, _s) = started();
    let mut trace: Vec<RegAction> = Vec::new();
    bus.enable(0x0000_2000, &mut trace).unwrap();
    assert_eq!(trace[8], RegAction::VbusForceBValid);
}

#[test]
fn enable_rejects_an_unknown_core_id() {
    let (mut bus, _pipe, _s) = started();
    let mut trace: Vec<RegAction> = Vec::new();
    let r = bus.enable(0x0000_4000, &mut trace);
    assert!(r.is_err());
    assert_eq!(r.unwrap_err().0, 0x0000_4000);
    assert!(!bus.enabled);
    // Only the actions up to the strategy choice were replayed.
    assert_eq!(trace.len(), 8);
    assert_eq!(trace[0], RegAction::EnableClock);
}

#[test]
fn stall_services_are_bounds_checked() {
    let (bus, _pipe, mut s) = started();
    let mut trace: Vec<RegAction> = Vec::new();
    // Out of range: a logged no-op that reports "stalled" defensively.
    bus.endpoint_set_stalled(
        &mut s,
        EndpointAddress::from_parts(9, Direction::Out),
        true,
        &mut trace,
    );
    assert!(trace.is_empty());
    assert!(bus.endpoint_is_stalled(EndpointAddress::from_parts(9, Direction::In), false));
    // In range: the register write is owed and the wake source signalled.
    bus.endpoint_set_stalled(
        &mut s,
        EndpointAddress::from_parts(1, Direction::In),
        true,
        &mut trace,
    );
    assert_eq!(
        trace,
        vec![RegAction::InEpSetStall { index: 1, stalled: true }]
    );
    assert!(s.ep_in_wakers[1]);
    assert!(!bus.endpoint_is_stalled(EndpointAddress::from_parts(1, Direction::In), false));
    assert!(bus.endpoint_is_stalled(EndpointAddress::from_parts(1, Direction::In), true));
}

#[test]
fn set_enabled_is_bounds_checked() {
    let (bus, _pipe, _s) = started();
    let mut trace: Vec<RegAction> = Vec::new();
    bus.endpoint_set_enabled(EndpointAddress::from_parts(7, Direction::Out), true, &mut trace);
    assert!(trace.is_empty());
    bus.endpoint_set_enabled(EndpointAddress::from_parts(2, Direction::Out), true, &mut trace);
    assert_eq!(
        trace,
        vec![RegAction::OutEpSetEnabled { index: 2, enabled: true }]
    );
}

#[test]
fn interrupt_run_masks_bus_bits_and_signals() {
    let mut s = State::new(6);
    let outcome = on_interrupt(
        &mut s,
        CoreInterrupts { usbrst: true, ..quiet() },
        None,
        0,
        0,
        0,
    );
    assert!(outcome.core_irqs_masked);
    assert!(s.bus_waker);
    assert_eq!(outcome.rx, RxAction::NoPacket);
}

#[test]
fn interrupt_run_clears_txfe_requests_and_wakes() {
    let mut s = State::new(6);
    let ints = CoreInterrupts { iepint: true, ..quiet() };
    let outcome = on_interrupt(&mut s, ints, None, 0b101, 0b100, 0b111);
    assert!(!outcome.core_irqs_masked);
    // Endpoint 2 reported "transmit FIFO empty", so its notify-on-empty
    // request is withdrawn; endpoint 0's request stays.
    assert_eq!(outcome.diepempmsk, 0b011);
    assert_eq!(outcome.in_flags_cleared, 0b101);
    assert!(s.ep_in_wakers[0]);
    assert!(!s.ep_in_wakers[1]);
    assert!(s.ep_in_wakers[2]);
}

#[test]
fn interrupt_run_stages_a_setup_packet() {
    let mut s = State::new(6);
    let ints = CoreInterrupts { rxflvl: true, ..quiet() };
    let rx = RxEvent {
        ep_num: 0,
        pktsts: RxPacketStatus::SetupDataRx,
        data: vec![1, 2, 3, 4, 5, 6, 7, 8],
    };
    let outcome = on_interrupt(&mut s, ints, Some(rx), 0, 0, 0);
    assert_eq!(outcome.rx, RxAction::StoredSetup);
    assert!(s.ep0_setup_ready);
    assert_eq!(s.ep0_setup_data, vec![1, 2, 3, 4, 5, 6, 7, 8]);
    assert!(s.ep_out_wakers[0]);
}

#[test]
fn ep0_packet_sizes_use_the_encoded_field() {
    assert_eq!(ep0_mpsiz(8), 0b11);
    assert_eq!(ep0_mpsiz(16), 0b10);
    assert_eq!(ep0_mpsiz(32), 0b01);
    assert_eq!(ep0_mpsiz(64), 0b00);
}

#[test]
fn eptyp_encodes_the_transfer_type() {
    assert_eq!(to_eptyp(EndpointType::Control), 0);
    assert_eq!(to_eptyp(EndpointType::Isochronous), 1);
    assert_eq!(to_eptyp(EndpointType::Bulk), 2);
    assert_eq!(to_eptyp(EndpointType::Interrupt), 3);
}

#[test]
fn turnaround_time_follows_the_clock_table() {
    let fs = NegotiatedSpeed::FullSpeedInternal;
    assert_eq!(calculate_trdt(fs, Hertz(14_200_000)), 0xF);
    assert_eq!(calculate_trdt(fs, Hertz(15_500_000)), 0xE);
    assert_eq!(calculate_trdt(fs, Hertz(17_000_000)), 0xD);
    assert_eq!(calculate_trdt(fs, Hertz(18_000_000)), 0xC);
    assert_eq!(calculate_trdt(fs, Hertz(19_000_000)), 0xB);
    assert_eq!(calculate_trdt(fs, Hertz(21_000_000)), 0xA);
    assert_eq!(calculate_trdt(fs, Hertz(23_000_000)), 0x9);
    assert_eq!(calculate_trdt(fs, Hertz(26_000_000)), 0x8);
    assert_eq!(calculate_trdt(fs, Hertz(30_000_000)), 0x7);
    assert_eq!(calculate_trdt(fs, Hertz(32_000_000)), 0x6);
    assert_eq!(calculate_trdt(fs, Hertz(216_000_000)), 0x6);
    assert_eq!(
        calculate_trdt(NegotiatedSpeed::FullSpeedExternal, Hertz(48_000_000)),
        0x6
    );
    assert_eq!(calculate_trdt(NegotiatedSpeed::HighSpeed, Hertz(30_000_000)), 0x9);
    // Fatal misconfigurations yield no turnaround time at all.
    assert_eq!(trdt_for(fs, Hertz(14_199_999)), None);
    assert_eq!(trdt_for(NegotiatedSpeed::HighSpeed, Hertz(29_999_999)), None);
    assert_eq!(trdt_for(NegotiatedSpeed::LowSpeed, Hertz(48_000_000)), None);
}

#[test]
fn ep0_supports_only_the_four_encoded_sizes() {
    assert!(ep0_mpsiz_supported(8));
    assert!(ep0_mpsiz_supported(16));
    assert!(ep0_mpsiz_supported(32));
    assert!(ep0_mpsiz_supported(64));
    assert!(!ep0_mpsiz_supported(0));
    assert!(!ep0_mpsiz_supported(63));
    assert!(!ep0_mpsiz_supported(128));
}

#[test]
fn direction_markers_name_their_directions() {
    assert_eq!(<Out as Dir>::dir(), Direction::Out);
    assert_eq!(<In as Dir>::dir(), Direction::In);
}

#[test]
fn constructors_record_the_phy() {
    let caps = capabilities_of(ChipFamily::F4Late);
    assert_eq!(Driver::new_fs(caps, 256).phy_type, PhyType::InternalFullSpeed);
    assert_eq!(
        Driver::new_hs_ulpi(caps, 256).phy_type,
        PhyType::ExternalHighSpeed
    );
}

#[test]
fn disable_gates_the_clock_and_clears_the_flag() {
    let (mut bus, _pipe, _s) = started();
    let mut trace: Vec<RegAction> = Vec::new();
    bus.enable(0x0000_1100, &mut trace).unwrap();
    assert!(bus.enabled);
    let mut trace2: Vec<RegAction> = Vec::new();
    bus.disable(&mut trace2);
    assert!(!bus.enabled);
    assert_eq!(trace2, vec![RegAction::EnableClock]);
    assert!(bus.remote_wakeup().is_err());
}

#[test]
fn capability_table_matches_the_chip_families() {
    let f1 = capabilities_of(ChipFamily::F1);
    assert_eq!((f1.fifo_depth_words, f1.endpoint_count), (128, 8));
    let g0 = capabilities_of(ChipFamily::G0);
    assert_eq!((g0.fifo_depth_words, g0.endpoint_count), (512, 8));
    let hs = capabilities_of(ChipFamily::F4LateHs);
    assert_eq!((hs.fifo_depth_words, hs.endpoint_count), (1024, 9));
}
