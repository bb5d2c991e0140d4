//! Register-level vocabulary of the driver.
//!
//! [`RegAction`] names every write the driver performs on the controller,
//! as a plain value. Verified code appends actions to a trace (or returns
//! them in a plan struct); the embedder replays them onto the peripheral in
//! order. The functions below compute the encoded register fields whose
//! values the hardware dictates.

use vstd::prelude::*;

use crate::types::{Hertz, NegotiatedSpeed};

verus! {

/// One register write of the driver, in the order it must reach the
/// hardware.
#[derive(Copy, Clone, Debug, PartialEq, Eq, Structural)]
pub enum RegAction {
    /// Clear the core interrupt mask, silencing bus-level interrupts until
    /// the consumer has observed the event.
    MaskAllCoreIrqs,
    /// Restore the standard core interrupt mask.
    RestoreCoreIrqs,
    /// Acknowledge the reset-detected status bit.
    ClearResetFlag,
    /// Acknowledge the enumeration-done status bit.
    ClearEnumDoneFlag,
    /// Acknowledge the suspend-detected status bit.
    ClearSuspendFlag,
    /// Acknowledge the wakeup-detected status bit.
    ClearWakeupFlag,
    /// Program the device address field of the device configuration
    /// register.
    SetDeviceAddress { address: u8 },
    /// Program the bus turnaround time field.
    SetTurnaroundTime { trdt: u8 },
    /// Clear NAK and enable an OUT endpoint, requesting another packet.
    OutEpEnable { index: usize },
    /// Ask for a "transmit FIFO empty" interrupt for one IN endpoint.
    RequestTxFifoEmptyIrq { index: usize },
    /// Program an IN endpoint's transfer size: one packet of `len` bytes.
    SetInTransferSize { index: usize, len: u16 },
    /// Clear NAK and enable an IN endpoint.
    InEpEnable { index: usize },
    /// Push one word into an IN endpoint's dedicated transmit FIFO.
    PushTxFifoWord { index: usize, word: u32 },
    /// Set or clear the STALL bit of an IN endpoint.
    InEpSetStall { index: usize, stalled: bool },
    /// Set or clear the STALL bit of an OUT endpoint.
    OutEpSetStall { index: usize, stalled: bool },
    /// Enable or disable an IN endpoint.
    InEpSetEnabled { index: usize, enabled: bool },
    /// Enable or disable an OUT endpoint.
    OutEpSetEnabled { index: usize, enabled: bool },
    /// Enable the peripheral's clock domain.
    EnableClock,
    /// Pulse the peripheral's reset line.
    ResetPeripheral,
    /// Busy-wait until the AHB interface reports idle.
    WaitAhbIdle,
    /// Force device mode and select the internal full-speed PHY.
    ForceDeviceMode,
    /// Request a core soft reset.
    CoreSoftReset,
    /// Busy-wait until the core soft reset completes.
    WaitSoftResetDone,
    /// Power up the internal transceiver.
    PowerUpTransceiver,
    /// VBUS strategy of F429-like silicon: switch VBUS sensing off.
    VbusDisableSensing,
    /// VBUS strategy of F446-like silicon: disable VBUS detection and force
    /// a B-peripheral session.
    VbusForceBValid,
    /// Ungate the PHY clock.
    EnablePhyClock,
    /// Raise soft disconnect, hiding the device from the bus.
    SoftDisconnect,
    /// Program the frame interval and the device speed.
    SetSpeedAndFrameInterval,
    /// Unmask the transfer-complete IN endpoint interrupt.
    UnmaskTransferCompleteIrq,
    /// Acknowledge every core status bit.
    ClearAllCoreFlags,
    /// Unmask the global interrupt output.
    EnableGlobalIrq,
    /// Clear soft disconnect, presenting the device on the bus.
    Connect,
}

/// Hardware encoding of an endpoint 0 maximum packet size, or `None` where
/// the core supports no such size.
pub open spec fn spec_ep0_mpsiz(max_packet_size: u16) -> Option<u16> {
    match max_packet_size {
        8u16 => Some(0b11u16),
        16u16 => Some(0b10u16),
        32u16 => Some(0b01u16),
        64u16 => Some(0b00u16),
        _ => None,
    }
}

/// Encodes an endpoint 0 maximum packet size into the two-bit MPSIZ field.
///
/// The core only supports 8, 16, 32 and 64 bytes there; any other size is a
/// fatal misconfiguration, which callers must rule out beforehand (see
/// [`ep0_mpsiz_supported`]).
pub fn ep0_mpsiz(max_packet_size: u16) -> (r: u16)
    requires
        spec_ep0_mpsiz(max_packet_size) is Some,
    ensures
        Some(r) == spec_ep0_mpsiz(max_packet_size),
{
    match max_packet_size {
        8 => 0b11,
        16 => 0b10,
        32 => 0b01,
        _ => 0b00,
    }
}

/// Whether [`ep0_mpsiz`] accepts `max_packet_size`.
pub fn ep0_mpsiz_supported(max_packet_size: u16) -> (r: bool)
    ensures
        r == (spec_ep0_mpsiz(max_packet_size) is Some),
{
    max_packet_size == 8 || max_packet_size == 16 || max_packet_size == 32 || max_packet_size == 64
}

/// Hardware encoding of an endpoint transfer type (the EPTYP field).
pub open spec fn spec_eptyp(ep_type: crate::types::EndpointType) -> u8 {
    match ep_type {
        crate::types::EndpointType::Control => 0u8,
        crate::types::EndpointType::Isochronous => 1u8,
        crate::types::EndpointType::Bulk => 2u8,
        crate::types::EndpointType::Interrupt => 3u8,
    }
}

/// Encodes an endpoint transfer type into the EPTYP register field.
pub fn to_eptyp(ep_type: crate::types::EndpointType) -> (r: u8)
    ensures
        r == spec_eptyp(ep_type),
{
    match ep_type {
        crate::types::EndpointType::Control => 0,
        crate::types::EndpointType::Isochronous => 1,
        crate::types::EndpointType::Bulk => 2,
        crate::types::EndpointType::Interrupt => 3,
    }
}

/// The bus turnaround time for a negotiated speed and AHB clock, or `None`
/// where the clock is too slow for that speed (a fatal misconfiguration) or
/// the speed is not supported in device mode.
///
/// The piecewise table comes from the reference manuals of the F72xx, F429
/// and F446 parts.
pub open spec fn spec_trdt(speed: NegotiatedSpeed, ahb_freq: Hertz) -> Option<u8> {
    match speed {
        NegotiatedSpeed::HighSpeed => if ahb_freq.0 >= 30_000_000 {
            Some(0x9u8)
        } else {
            None
        },
        NegotiatedSpeed::FullSpeedExternal | NegotiatedSpeed::FullSpeedInternal => {
            if ahb_freq.0 < 14_200_000 {
                None
            } else if ahb_freq.0 < 15_000_000 {
                Some(0xFu8)
            } else if ahb_freq.0 < 16_000_000 {
                Some(0xEu8)
            } else if ahb_freq.0 < 17_200_000 {
                Some(0xDu8)
            } else if ahb_freq.0 < 18_500_000 {
                Some(0xCu8)
            } else if ahb_freq.0 < 20_000_000 {
                Some(0xBu8)
            } else if ahb_freq.0 < 21_800_000 {
                Some(0xAu8)
            } else if ahb_freq.0 < 24_000_000 {
                Some(0x9u8)
            } else if ahb_freq.0 < 27_500_000 {
                Some(0x8u8)
            } else if ahb_freq.0 < 32_000_000 {
                Some(0x7u8)
            } else {
                Some(0x6u8)
            }
        },
        NegotiatedSpeed::LowSpeed => None,
    }
}

/// Computes the bus turnaround time register field from the negotiated
/// speed and the AHB clock frequency.
///
/// A clock too slow for the negotiated speed, or a low-speed negotiation,
/// is a fatal misconfiguration; callers rule it out beforehand (see
/// [`trdt_for`]).
pub fn calculate_trdt(speed: NegotiatedSpeed, ahb_freq: Hertz) -> (r: u8)
    requires
        spec_trdt(speed, ahb_freq) is Some,
    ensures
        Some(r) == spec_trdt(speed, ahb_freq),
{
    match speed {
        NegotiatedSpeed::HighSpeed => 0x9,
        NegotiatedSpeed::FullSpeedExternal | NegotiatedSpeed::FullSpeedInternal => {
            if ahb_freq.0 < 15_000_000 {
                0xF
            } else if ahb_freq.0 < 16_000_000 {
                0xE
            } else if ahb_freq.0 < 17_200_000 {
                0xD
            } else if ahb_freq.0 < 18_500_000 {
                0xC
            } else if ahb_freq.0 < 20_000_000 {
                0xB
            } else if ahb_freq.0 < 21_800_000 {
                0xA
            } else if ahb_freq.0 < 24_000_000 {
                0x9
            } else if ahb_freq.0 < 27_500_000 {
                0x8
            } else if ahb_freq.0 < 32_000_000 {
                0x7
            } else {
                0x6
            }
        },
        NegotiatedSpeed::LowSpeed => 0,
    }
}

/// Total variant of [`calculate_trdt`]: `None` exactly where the speed and
/// clock pair is a fatal misconfiguration.
pub fn trdt_for(speed: NegotiatedSpeed, ahb_freq: Hertz) -> (r: Option<u8>)
    ensures
        r == spec_trdt(speed, ahb_freq),
{
    match speed {
        NegotiatedSpeed::HighSpeed => if ahb_freq.0 >= 30_000_000 {
            Some(0x9)
        } else {
            None
        },
        NegotiatedSpeed::FullSpeedExternal | NegotiatedSpeed::FullSpeedInternal => {
            if ahb_freq.0 < 14_200_000 {
                None
            } else {
                Some(calculate_trdt(speed, ahb_freq))
            }
        },
        NegotiatedSpeed::LowSpeed => None,
    }
}

} // verus!
