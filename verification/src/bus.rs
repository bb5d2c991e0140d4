//! The bus: bring-up, the enumeration/power state machine, and the
//! defensive per-endpoint register services.
//!
//! `poll_step` is one iteration of the bus event loop: the embedder reads
//! the core status bits (and, on enumeration done, the negotiated speed),
//! calls in, replays the appended actions and the configuration plan, and
//! either delivers the returned event or suspends on the bus wake signal.

use vstd::prelude::*;

use crate::bits::bit16;
use crate::budget::{
    ep_fifo_size, ep_irq_mask, ep_words_sum, lemma_ep_words_sum_nonneg,
    lemma_ep_words_sum_take_le, lemma_ep_words_sum_take_succ,
};
use crate::caps::{CoreCapabilities, RX_FIFO_EXTRA_SIZE_WORDS};
use crate::driver::slots_sized;
use crate::irq::CoreInterrupts;
use crate::regs::{
    ep0_mpsiz, spec_ep0_mpsiz, spec_eptyp, spec_trdt, to_eptyp, trdt_for, RegAction,
};
use crate::state::State;
use crate::types::{
    Direction, EndpointAddress, EndpointData, Event, Hertz, NegotiatedSpeed, UnknownCoreId,
    Unsupported,
};

verus! {

/// One transmit-FIFO region: where it starts and how many words it holds.
#[derive(Copy, Clone, Debug, PartialEq, Eq, Structural)]
pub struct TxFifoRegion {
    pub start_addr: u16,
    pub depth_words: u16,
}

/// Control/transfer-size programming of one endpoint.
///
/// Endpoint 0 is special: its maximum packet size field takes an encoded
/// enumeration rather than a byte count, and its transfer size is
/// programmed at configuration time.
#[derive(Copy, Clone, Debug, PartialEq, Eq, Structural)]
pub enum EpSetup {
    /// Endpoint 0 programming.
    Control { mpsiz_code: u16, transfer_size: u16 },
    /// Programming of any other endpoint; its transfer size is set per
    /// transfer.
    Generic { eptyp: u8, max_packet_size: u16 },
}

/// The register programming one hardware configuration pass asks of the
/// embedder, in application order: NAK every OUT endpoint, program the
/// receive FIFO size, program each transmit-FIFO region, program each
/// endpoint's control/transfer-size registers, then unmask the listed IN
/// endpoint interrupts.
#[derive(Debug)]
pub struct ConfigurePlan {
    /// Receive FIFO size: the fixed headroom plus every OUT grant.
    pub rx_fifo_size_words: u16,
    /// Transmit-FIFO region of each allocated IN endpoint, contiguous on
    /// top of the receive FIFO in ascending index order.
    pub tx_regions: Vec<Option<TxFifoRegion>>,
    /// Control-register programming of each allocated IN endpoint.
    pub in_setup: Vec<Option<EpSetup>>,
    /// Control-register programming of each allocated OUT endpoint.
    pub out_setup: Vec<Option<EpSetup>>,
    /// IN endpoint bits to unmask in the device interrupt mask.
    pub daintmsk_in: u16,
}

/// Result of one bus poll iteration.
#[derive(Copy, Clone, Debug, PartialEq, Eq, Structural)]
pub enum PollResult {
    /// Deliver this event to the device stack.
    Event(Event),
    /// No status bit is pending; suspend on the bus wake signal.
    Pending,
    /// The negotiated speed and operating clock do not admit a turnaround
    /// time: a fatal misconfiguration.
    Fatal,
}

/// Everything one bus poll iteration decided.
pub struct PollStep {
    /// The event to deliver, or why none can be.
    pub result: PollResult,
    /// Present exactly when a bus reset was handled: the hardware must be
    /// reconfigured from the descriptor tables before the actions of the
    /// trace are replayed.
    pub configure: Option<ConfigurePlan>,
}

/// The enumeration/power state machine and the endpoint register
/// services.
pub struct Bus {
    /// Capabilities of the core.
    pub caps: CoreCapabilities,
    /// IN endpoint descriptors, fixed at `start`.
    pub ep_in: Vec<Option<EndpointData>>,
    /// OUT endpoint descriptors, fixed at `start`.
    pub ep_out: Vec<Option<EndpointData>>,
    /// Whether `enable` has run; before that, polling reports power
    /// detection.
    pub enabled: bool,
}

/// Encoded endpoint 0 packet size, where one exists.
pub open spec fn ep0_code(max_packet_size: u16) -> u16 {
    match spec_ep0_mpsiz(max_packet_size) {
        Some(c) => c,
        None => 0,
    }
}

/// The programming one endpoint slot receives.
pub open spec fn spec_ep_setup(index: int, d: EndpointData) -> EpSetup {
    if index == 0 {
        EpSetup::Control { mpsiz_code: ep0_code(d.max_packet_size), transfer_size: d.max_packet_size }
    } else {
        EpSetup::Generic { eptyp: spec_eptyp(d.ep_type), max_packet_size: d.max_packet_size }
    }
}

/// Start of IN endpoint `i`'s transmit-FIFO region: on top of the receive
/// FIFO and of every lower-indexed region.
pub open spec fn tx_region_start(bus: Bus, i: int) -> int {
    RX_FIFO_EXTRA_SIZE_WORDS + ep_words_sum(bus.ep_out@) + ep_words_sum(bus.ep_in@.take(i))
}

/// What a correct configuration plan says of its bus.
pub open spec fn configure_post(bus: Bus, plan: ConfigurePlan) -> bool {
    &&& plan.rx_fifo_size_words as int == RX_FIFO_EXTRA_SIZE_WORDS + ep_words_sum(bus.ep_out@)
    &&& plan.tx_regions@.len() == bus.caps.endpoint_count
    &&& plan.in_setup@.len() == bus.caps.endpoint_count
    &&& plan.out_setup@.len() == bus.caps.endpoint_count
    &&& forall|i: int|
        0 <= i < bus.caps.endpoint_count ==> match bus.ep_in@[i] {
            Some(d) => #[trigger] plan.tx_regions@[i] == Some(
                TxFifoRegion {
                    start_addr: tx_region_start(bus, i) as u16,
                    depth_words: d.fifo_size_words,
                },
            ),
            None => plan.tx_regions@[i] is None,
        }
    &&& forall|i: int|
        0 <= i < bus.caps.endpoint_count ==> match bus.ep_in@[i] {
            Some(d) => #[trigger] plan.in_setup@[i] == Some(spec_ep_setup(i, d)),
            None => plan.in_setup@[i] is None,
        }
    &&& forall|i: int|
        0 <= i < bus.caps.endpoint_count ==> match bus.ep_out@[i] {
            Some(d) => #[trigger] plan.out_setup@[i] == Some(spec_ep_setup(i, d)),
            None => plan.out_setup@[i] is None,
        }
    &&& forall|j: int|
        0 <= j < 16 ==> (bit16(plan.daintmsk_in, j) <==> (j < bus.caps.endpoint_count
            && bus.ep_in@[j] is Some))
}

/// Actions replayed after a handled bus reset: reset the device address,
/// acknowledge the status bit, re-arm the core interrupt mask.
pub open spec fn reset_actions() -> Seq<RegAction> {
    seq![
        RegAction::SetDeviceAddress { address: 0 },
        RegAction::ClearResetFlag,
        RegAction::RestoreCoreIrqs,
    ]
}

/// The actions one poll iteration appends, by status-bit priority.
pub open spec fn poll_actions(
    enabled: bool,
    ints: CoreInterrupts,
    speed: NegotiatedSpeed,
    ahb_freq: Hertz,
) -> Seq<RegAction> {
    if !enabled {
        Seq::empty()
    } else {
        (if ints.usbrst {
            reset_actions()
        } else {
            Seq::empty()
        }) + (if ints.enumdne {
            match spec_trdt(speed, ahb_freq) {
                Some(t) => seq![
                    RegAction::SetTurnaroundTime { trdt: t },
                    RegAction::ClearEnumDoneFlag,
                    RegAction::RestoreCoreIrqs,
                ],
                None => Seq::empty(),
            }
        } else if ints.usbsusp {
            seq![RegAction::ClearSuspendFlag, RegAction::RestoreCoreIrqs]
        } else if ints.wkupint {
            seq![RegAction::ClearWakeupFlag, RegAction::RestoreCoreIrqs]
        } else {
            Seq::empty()
        })
    }
}

/// The outcome of one poll iteration, by status-bit priority: power
/// detection synthesised before enablement, then enumeration done
/// (delivered as a reset), suspend, resume; otherwise suspend the task.
pub open spec fn spec_poll_result(
    enabled: bool,
    ints: CoreInterrupts,
    speed: NegotiatedSpeed,
    ahb_freq: Hertz,
) -> PollResult {
    if !enabled {
        PollResult::Event(Event::PowerDetected)
    } else if ints.enumdne {
        match spec_trdt(speed, ahb_freq) {
            Some(_) => PollResult::Event(Event::Reset),
            None => PollResult::Fatal,
        }
    } else if ints.usbsusp {
        PollResult::Event(Event::Suspend)
    } else if ints.wkupint {
        PollResult::Event(Event::Resume)
    } else {
        PollResult::Pending
    }
}

/// First actions of the bring-up sequence, up to powering the
/// transceiver; the VBUS strategy choice follows them.
pub open spec fn enable_prefix() -> Seq<RegAction> {
    seq![
        RegAction::EnableClock,
        RegAction::ResetPeripheral,
        RegAction::WaitAhbIdle,
        RegAction::ForceDeviceMode,
        RegAction::WaitAhbIdle,
        RegAction::CoreSoftReset,
        RegAction::WaitSoftResetDone,
        RegAction::PowerUpTransceiver,
    ]
}

/// The VBUS-sense strategy of a silicon revision, or `None` for an id the
/// driver does not know.
pub open spec fn vbus_strategy(core_id: u32) -> Option<RegAction> {
    if core_id == 0x0000_1200 || core_id == 0x0000_1100 {
        Some(RegAction::VbusDisableSensing)
    } else if core_id == 0x0000_2000 || core_id == 0x0000_2100 || core_id == 0x0000_2300
        || core_id == 0x0000_3000 || core_id == 0x0000_3100 {
        Some(RegAction::VbusForceBValid)
    } else {
        None
    }
}

/// Last actions of the bring-up sequence; connecting comes strictly last.
pub open spec fn enable_suffix() -> Seq<RegAction> {
    seq![
        RegAction::EnablePhyClock,
        RegAction::SoftDisconnect,
        RegAction::SetSpeedAndFrameInterval,
        RegAction::UnmaskTransferCompleteIrq,
        RegAction::RestoreCoreIrqs,
        RegAction::ClearAllCoreFlags,
        RegAction::EnableGlobalIrq,
        RegAction::Connect,
    ]
}

/// Everything `enable` replays for a core id: the full bring-up for a
/// known revision, or the prefix up to the fatal strategy choice.
pub open spec fn enable_actions(core_id: u32) -> Seq<RegAction> {
    match vbus_strategy(core_id) {
        Some(a) => enable_prefix().push(a) + enable_suffix(),
        None => enable_prefix(),
    }
}

impl Bus {
    /// Well-formedness: the descriptor tables fit the capability entry,
    /// every grant is sized for its direction, the FIFO budget invariant
    /// holds, and any endpoint 0 descriptor has an encodable packet size.
    pub open spec fn wf(self) -> bool {
        &&& self.caps.wf()
        &&& self.ep_in@.len() == self.caps.endpoint_count
        &&& self.ep_out@.len() == self.caps.endpoint_count
        &&& RX_FIFO_EXTRA_SIZE_WORDS + ep_words_sum(self.ep_out@) + ep_words_sum(self.ep_in@)
            <= self.caps.fifo_depth_words
        &&& slots_sized(self.ep_out@, Direction::Out)
        &&& slots_sized(self.ep_in@, Direction::In)
        &&& (self.ep_in@[0] matches Some(d) ==> spec_ep0_mpsiz(d.max_packet_size) is Some)
        &&& (self.ep_out@[0] matches Some(d) ==> spec_ep0_mpsiz(d.max_packet_size) is Some)
    }

    /// Asks for the standard core interrupt mask to be restored.
    pub fn restore_irqs(trace: &mut Vec<RegAction>)
        ensures
            final(trace)@ == old(trace)@.push(RegAction::RestoreCoreIrqs),
    {
        trace.push(RegAction::RestoreCoreIrqs);
    }

    /// Re-derives the hardware configuration from the descriptor tables:
    /// the receive FIFO size from the OUT grants, contiguous transmit
    /// regions over the IN grants in ascending index order — their top
    /// provably within the FIFO budget — the per-endpoint control
    /// programming, and the IN interrupt mask.
    pub fn configure(&self) -> (plan: ConfigurePlan)
        requires
            self.wf(),
        ensures
            configure_post(*self, plan),
            plan.rx_fifo_size_words + ep_words_sum(self.ep_in@) <= self.caps.fifo_depth_words,
    {
        proof {
            lemma_ep_words_sum_nonneg(self.ep_out@);
            lemma_ep_words_sum_nonneg(self.ep_in@);
        }
        let rx_fifo_size_words = RX_FIFO_EXTRA_SIZE_WORDS + ep_fifo_size(&self.ep_out);

        let n = self.ep_in.len();
        let mut tx_regions: Vec<Option<TxFifoRegion>> = Vec::new();
        let mut fifo_top: u16 = rx_fifo_size_words;
        let mut i: usize = 0;
        proof {
            assert(self.ep_in@.take(0) =~= Seq::<Option<EndpointData>>::empty());
        }
        while i < n
            invariant
                0 <= i <= n,
                n == self.ep_in@.len(),
                self.wf(),
                rx_fifo_size_words as int == RX_FIFO_EXTRA_SIZE_WORDS + ep_words_sum(self.ep_out@),
                tx_regions@.len() == i,
                fifo_top as int == tx_region_start(*self, i as int),
                forall|j: int|
                    0 <= j < i ==> match self.ep_in@[j] {
                        Some(d) => #[trigger] tx_regions@[j] == Some(
                            TxFifoRegion {
                                start_addr: tx_region_start(*self, j) as u16,
                                depth_words: d.fifo_size_words,
                            },
                        ),
                        None => tx_regions@[j] is None,
                    },
            decreases n - i,
        {
            proof {
                lemma_ep_words_sum_take_succ(self.ep_in@, i as int);
                lemma_ep_words_sum_take_le(self.ep_in@, i as int + 1);
                lemma_ep_words_sum_take_le(self.ep_in@, i as int);
            }
            match self.ep_in[i] {
                Some(d) => {
                    tx_regions.push(
                        Some(TxFifoRegion { start_addr: fifo_top, depth_words: d.fifo_size_words }),
                    );
                    fifo_top = fifo_top + d.fifo_size_words;
                },
                None => {
                    tx_regions.push(None);
                },
            }
            i = i + 1;
        }

        let mut in_setup: Vec<Option<EpSetup>> = Vec::new();
        let mut k: usize = 0;
        while k < n
            invariant
                0 <= k <= n,
                n == self.ep_in@.len(),
                self.wf(),
                in_setup@.len() == k,
                forall|j: int|
                    0 <= j < k ==> match self.ep_in@[j] {
                        Some(d) => #[trigger] in_setup@[j] == Some(spec_ep_setup(j, d)),
                        None => in_setup@[j] is None,
                    },
            decreases n - k,
        {
            match self.ep_in[k] {
                Some(d) => {
                    if k == 0 {
                        in_setup.push(
                            Some(
                                EpSetup::Control {
                                    mpsiz_code: ep0_mpsiz(d.max_packet_size),
                                    transfer_size: d.max_packet_size,
                                },
                            ),
                        );
                    } else {
                        in_setup.push(
                            Some(
                                EpSetup::Generic {
                                    eptyp: to_eptyp(d.ep_type),
                                    max_packet_size: d.max_packet_size,
                                },
                            ),
                        );
                    }
                },
                None => {
                    in_setup.push(None);
                },
            }
            k = k + 1;
        }

        let mut out_setup: Vec<Option<EpSetup>> = Vec::new();
        let mut m: usize = 0;
        while m < n
            invariant
                0 <= m <= n,
                n == self.ep_out@.len(),
                self.wf(),
                out_setup@.len() == m,
                forall|j: int|
                    0 <= j < m ==> match self.ep_out@[j] {
                        Some(d) => #[trigger] out_setup@[j] == Some(spec_ep_setup(j, d)),
                        None => out_setup@[j] is None,
                    },
            decreases n - m,
        {
            match self.ep_out[m] {
                Some(d) => {
                    if m == 0 {
                        out_setup.push(
                            Some(
                                EpSetup::Control {
                                    mpsiz_code: ep0_mpsiz(d.max_packet_size),
                                    transfer_size: d.max_packet_size,
                                },
                            ),
                        );
                    } else {
                        out_setup.push(
                            Some(
                                EpSetup::Generic {
                                    eptyp: to_eptyp(d.ep_type),
                                    max_packet_size: d.max_packet_size,
                                },
                            ),
                        );
                    }
                },
                None => {
                    out_setup.push(None);
                },
            }
            m = m + 1;
        }

        let daintmsk_in = ep_irq_mask(&self.ep_in);

        ConfigurePlan { rx_fifo_size_words, tx_regions, in_setup, out_setup, daintmsk_in }
    }

    /// One iteration of the bus event loop.
    ///
    /// Inspects the status bits in priority order. A detected reset
    /// re-runs the hardware configuration and resets the device address
    /// without delivering an event of its own; enumeration done programs
    /// the turnaround time and is delivered as `Reset`; suspend and
    /// wakeup are acknowledged and delivered; with no bit pending the
    /// caller suspends. Each handled bit is cleared and the core
    /// interrupt mask re-armed.
    pub fn poll_step(
        &self,
        ints: CoreInterrupts,
        speed: NegotiatedSpeed,
        ahb_freq: Hertz,
        trace: &mut Vec<RegAction>,
    ) -> (r: PollStep)
        requires
            self.wf(),
        ensures
            r.result == spec_poll_result(self.enabled, ints, speed, ahb_freq),
            final(trace)@ == old(trace)@ + poll_actions(self.enabled, ints, speed, ahb_freq),
            r.configure is Some <==> (self.enabled && ints.usbrst),
            (r.configure matches Some(plan) ==> configure_post(*self, plan)),
    {
        if !self.enabled {
            // VBUS sensing is not implemented: report power at once.
            proof {
                assert(final(trace)@ =~= old(trace)@ + poll_actions(
                    self.enabled,
                    ints,
                    speed,
                    ahb_freq,
                ));
            }
            return PollStep { result: PollResult::Event(Event::PowerDetected), configure: None };
        }

        let mut configure: Option<ConfigurePlan> = None;
        if ints.usbrst {
            configure = Some(self.configure());
            trace.push(RegAction::SetDeviceAddress { address: 0 });
            trace.push(RegAction::ClearResetFlag);
            Self::restore_irqs(trace);
        }

        if ints.enumdne {
            match trdt_for(speed, ahb_freq) {
                Some(t) => {
                    trace.push(RegAction::SetTurnaroundTime { trdt: t });
                    trace.push(RegAction::ClearEnumDoneFlag);
                    Self::restore_irqs(trace);
                    proof {
                        assert(final(trace)@ =~= old(trace)@ + poll_actions(
                            self.enabled,
                            ints,
                            speed,
                            ahb_freq,
                        ));
                    }
                    return PollStep { result: PollResult::Event(Event::Reset), configure };
                },
                None => {
                    // The operating clock cannot meet the negotiated
                    // speed's turnaround time.
                    proof {
                        assert(final(trace)@ =~= old(trace)@ + poll_actions(
                            self.enabled,
                            ints,
                            speed,
                            ahb_freq,
                        ));
                    }
                    return PollStep { result: PollResult::Fatal, configure };
                },
            }
        }

        if ints.usbsusp {
            trace.push(RegAction::ClearSuspendFlag);
            Self::restore_irqs(trace);
            proof {
                assert(final(trace)@ =~= old(trace)@ + poll_actions(
                    self.enabled,
                    ints,
                    speed,
                    ahb_freq,
                ));
            }
            return PollStep { result: PollResult::Event(Event::Suspend), configure };
        }

        if ints.wkupint {
            trace.push(RegAction::ClearWakeupFlag);
            Self::restore_irqs(trace);
            proof {
                assert(final(trace)@ =~= old(trace)@ + poll_actions(
                    self.enabled,
                    ints,
                    speed,
                    ahb_freq,
                ));
            }
            return PollStep { result: PollResult::Event(Event::Resume), configure };
        }

        proof {
            assert(final(trace)@ =~= old(trace)@ + poll_actions(
                self.enabled,
                ints,
                speed,
                ahb_freq,
            ));
        }
        PollStep { result: PollResult::Pending, configure }
    }

    /// Full bring-up of the peripheral for the core revision `core_id`
    /// names: clocking, device mode, core soft reset, transceiver power,
    /// the revision's VBUS strategy, speed and interrupt programming, and
    /// finally presenting the device on the bus. An unknown revision is a
    /// fatal misconfiguration, reported after the actions up to the
    /// strategy choice.
    pub fn enable(&mut self, core_id: u32, trace: &mut Vec<RegAction>) -> (r: Result<
        (),
        UnknownCoreId,
    >)
        ensures
            r is Ok <==> vbus_strategy(core_id) is Some,
            final(trace)@ == old(trace)@ + enable_actions(core_id),
            r is Ok ==> final(self).enabled && final(self).caps == old(self).caps,
            r is Ok ==> final(self).ep_in == old(self).ep_in,
            r is Ok ==> final(self).ep_out == old(self).ep_out,
            r is Err ==> *final(self) == *old(self),
            r matches Err(e) ==> e.0 == core_id,
    {
        trace.push(RegAction::EnableClock);
        trace.push(RegAction::ResetPeripheral);
        trace.push(RegAction::WaitAhbIdle);
        trace.push(RegAction::ForceDeviceMode);
        trace.push(RegAction::WaitAhbIdle);
        trace.push(RegAction::CoreSoftReset);
        trace.push(RegAction::WaitSoftResetDone);
        trace.push(RegAction::PowerUpTransceiver);

        match core_id {
            0x0000_1200 | 0x0000_1100 => {
                // F429-like revisions switch VBUS sensing off wholesale.
                trace.push(RegAction::VbusDisableSensing);
            },
            0x0000_2000 | 0x0000_2100 | 0x0000_2300 | 0x0000_3000 | 0x0000_3100 => {
                // F446-like revisions carry the opposite-sense VBUS bit
                // and need a forced B-peripheral session.
                trace.push(RegAction::VbusForceBValid);
            },
            other => {
                proof {
                    assert(final(trace)@ =~= old(trace)@ + enable_actions(core_id));
                }
                return Err(UnknownCoreId(other));
            },
        }

        trace.push(RegAction::EnablePhyClock);
        trace.push(RegAction::SoftDisconnect);
        trace.push(RegAction::SetSpeedAndFrameInterval);
        trace.push(RegAction::UnmaskTransferCompleteIrq);
        Self::restore_irqs(trace);
        trace.push(RegAction::ClearAllCoreFlags);
        trace.push(RegAction::EnableGlobalIrq);
        trace.push(RegAction::Connect);

        self.enabled = true;
        proof {
            assert(final(trace)@ =~= old(trace)@ + enable_actions(core_id));
        }
        Ok(())
    }

    /// Re-enables the peripheral's clock gate and marks the bus disabled;
    /// there is no symmetric teardown of the bring-up sequence.
    pub fn disable(&mut self, trace: &mut Vec<RegAction>)
        ensures
            final(trace)@ == old(trace)@.push(RegAction::EnableClock),
            !final(self).enabled,
            final(self).caps == old(self).caps,
            final(self).ep_in == old(self).ep_in,
            final(self).ep_out == old(self).ep_out,
    {
        trace.push(RegAction::EnableClock);
        self.enabled = false;
    }

    /// Remote wakeup is not supported.
    pub fn remote_wakeup(&self) -> (r: Result<(), Unsupported>)
        ensures
            r is Err,
    {
        Err(Unsupported)
    }

    /// Sets or clears an endpoint's STALL bit and signals its wake source
    /// so a parked transfer re-evaluates. An out-of-range index is a
    /// logged no-op.
    pub fn endpoint_set_stalled(
        &self,
        state: &mut State,
        ep_addr: EndpointAddress,
        stalled: bool,
        trace: &mut Vec<RegAction>,
    )
        requires
            old(state).wf(),
            old(state).ep_count() == self.caps.endpoint_count,
        ensures
            final(state).wf(),
            final(state).ep_count() == old(state).ep_count(),
            ep_addr.index >= self.caps.endpoint_count ==> *final(state) == *old(state),
            ep_addr.index >= self.caps.endpoint_count ==> final(trace)@ == old(trace)@,
            ep_addr.index < self.caps.endpoint_count && ep_addr.direction == Direction::Out ==> {
                &&& final(trace)@ == old(trace)@.push(
                    RegAction::OutEpSetStall { index: ep_addr.index, stalled },
                )
                &&& final(state).ep_out_wakers@ == old(state).ep_out_wakers@.update(
                    ep_addr.index as int,
                    true,
                )
                &&& final(state).ep_in_wakers == old(state).ep_in_wakers
                &&& final(state).ep_out_buffers == old(state).ep_out_buffers
                &&& final(state).ep_out_size == old(state).ep_out_size
                &&& final(state).ep0_setup_data == old(state).ep0_setup_data
                &&& final(state).ep0_setup_ready == old(state).ep0_setup_ready
                &&& final(state).bus_waker == old(state).bus_waker
            },
            ep_addr.index < self.caps.endpoint_count && ep_addr.direction == Direction::In ==> {
                &&& final(trace)@ == old(trace)@.push(
                    RegAction::InEpSetStall { index: ep_addr.index, stalled },
                )
                &&& final(state).ep_in_wakers@ == old(state).ep_in_wakers@.update(
                    ep_addr.index as int,
                    true,
                )
                &&& final(state).ep_out_wakers == old(state).ep_out_wakers
                &&& final(state).ep_out_buffers == old(state).ep_out_buffers
                &&& final(state).ep_out_size == old(state).ep_out_size
                &&& final(state).ep0_setup_data == old(state).ep0_setup_data
                &&& final(state).ep0_setup_ready == old(state).ep0_setup_ready
                &&& final(state).bus_waker == old(state).bus_waker
            },
    {
        if ep_addr.index >= self.caps.endpoint_count {
            // Defensive no-op; a diagnostic is owed.
            return ;
        }
        match ep_addr.direction {
            Direction::Out => {
                trace.push(RegAction::OutEpSetStall { index: ep_addr.index, stalled });
                state.ep_out_wakers[ep_addr.index] = true;
            },
            Direction::In => {
                trace.push(RegAction::InEpSetStall { index: ep_addr.index, stalled });
                state.ep_in_wakers[ep_addr.index] = true;
            },
        }
    }

    /// Whether an endpoint is stalled, given the STALL bit the embedder
    /// read from the addressed endpoint's control register. An
    /// out-of-range index reports "stalled" defensively.
    pub fn endpoint_is_stalled(&self, ep_addr: EndpointAddress, hw_stall_bit: bool) -> (r: bool)
        ensures
            r == (ep_addr.index >= self.caps.endpoint_count || hw_stall_bit),
    {
        if ep_addr.index >= self.caps.endpoint_count {
            return true;
        }
        hw_stall_bit
    }

    /// Enables or disables an endpoint. An out-of-range index is a logged
    /// no-op.
    pub fn endpoint_set_enabled(
        &self,
        ep_addr: EndpointAddress,
        enabled: bool,
        trace: &mut Vec<RegAction>,
    )
        ensures
            ep_addr.index >= self.caps.endpoint_count ==> final(trace)@ == old(trace)@,
            ep_addr.index < self.caps.endpoint_count && ep_addr.direction == Direction::Out
                ==> final(trace)@ == old(trace)@.push(
                RegAction::OutEpSetEnabled { index: ep_addr.index, enabled },
            ),
            ep_addr.index < self.caps.endpoint_count && ep_addr.direction == Direction::In
                ==> final(trace)@ == old(trace)@.push(
                RegAction::InEpSetEnabled { index: ep_addr.index, enabled },
            ),
    {
        if ep_addr.index >= self.caps.endpoint_count {
            // Defensive no-op; a diagnostic is owed.
            return ;
        }
        match ep_addr.direction {
            Direction::Out => {
                trace.push(RegAction::OutEpSetEnabled { index: ep_addr.index, enabled });
            },
            Direction::In => {
                trace.push(RegAction::InEpSetEnabled { index: ep_addr.index, enabled });
            },
        }
    }
}

} // verus!
