//! Plain data types shared by the driver core: directions, endpoint
//! descriptors, bus events and error values.

use vstd::prelude::*;

verus! {

/// Transfer direction of an endpoint, named from the host's point of view:
/// `Out` carries data towards the device, `In` towards the host.
#[derive(Copy, Clone, Debug, PartialEq, Eq, Structural)]
pub enum Direction {
    Out,
    In,
}

/// USB transfer type of an endpoint.
#[derive(Copy, Clone, Debug, PartialEq, Eq, Structural)]
pub enum EndpointType {
    Control,
    Isochronous,
    Bulk,
    Interrupt,
}

/// USB PHY type
#[derive(Copy, Clone, Debug, Eq, PartialEq, Structural)]
pub enum PhyType {
    /// Internal Full-Speed PHY
    ///
    /// Available on most High-Speed peripherals.
    InternalFullSpeed,
    /// Internal High-Speed PHY
    ///
    /// Available on a few STM32 chips.
    InternalHighSpeed,
    /// External ULPI High-Speed PHY
    ExternalHighSpeed,
}

/// Bus-level event reported by `Bus::poll_step`.
#[derive(Copy, Clone, Debug, PartialEq, Eq, Structural)]
pub enum Event {
    /// Device power was detected (synthesised on the first poll, since VBUS
    /// sensing is not implemented).
    PowerDetected,
    /// A bus reset finished enumerating; the device must start over.
    Reset,
    /// The bus went idle.
    Suspend,
    /// Activity resumed on a suspended bus.
    Resume,
}

/// Error returned by the endpoint transfer operations.
#[derive(Copy, Clone, Debug, PartialEq, Eq, Structural)]
pub enum EndpointError {
    /// The caller's buffer does not fit the endpoint's maximum packet size.
    BufferOverflow,
    /// The endpoint is not enabled.
    Disabled,
}

/// Error returned when an endpoint cannot be allocated.
#[derive(Copy, Clone, Debug, PartialEq, Eq, Structural)]
pub struct EndpointAllocError;

/// Marker for the host-to-device direction; see [`Dir`].
pub enum Out {
    Marker,
}

/// Marker for the device-to-host direction; see [`Dir`].
pub enum In {
    Marker,
}

/// Type-level direction marker, carried by code that is generic over the
/// transfer direction.
pub trait Dir {
    fn dir() -> Direction;
}

impl Dir for Out {
    fn dir() -> (d: Direction)
        ensures
            d == Direction::Out,
    {
        Direction::Out
    }
}

impl Dir for In {
    fn dir() -> (d: Direction)
        ensures
            d == Direction::In,
    {
        Direction::In
    }
}

/// Address of an endpoint: its index in the controller's endpoint table and
/// its transfer direction.
#[derive(Copy, Clone, Debug, PartialEq, Eq, Structural)]
pub struct EndpointAddress {
    pub index: usize,
    pub direction: Direction,
}

impl EndpointAddress {
    pub fn from_parts(index: usize, direction: Direction) -> (r: EndpointAddress)
        ensures
            r.index == index,
            r.direction == direction,
    {
        EndpointAddress { index, direction }
    }

    pub fn index(&self) -> (r: usize)
        ensures
            r == self.index,
    {
        self.index
    }

    pub fn direction(&self) -> (r: Direction)
        ensures
            r == self.direction,
    {
        self.direction
    }
}

/// Static description of an allocated endpoint, as handed to the device
/// stack.
#[derive(Copy, Clone, Debug, PartialEq, Eq, Structural)]
pub struct EndpointInfo {
    pub addr: EndpointAddress,
    pub ep_type: EndpointType,
    pub max_packet_size: u16,
    pub interval: u8,
}

/// Per-slot record kept by the allocator and the bus: what was allocated and
/// how many FIFO words it was granted.
#[derive(Copy, Clone, Debug, PartialEq, Eq, Structural)]
pub struct EndpointData {
    pub ep_type: EndpointType,
    pub max_packet_size: u16,
    pub fifo_size_words: u16,
}

/// Error of an operation the driver does not support.
#[derive(Copy, Clone, Debug, PartialEq, Eq, Structural)]
pub struct Unsupported;

/// The core-id register reported a silicon revision the bring-up sequence
/// does not know: a fatal misconfiguration.
#[derive(Copy, Clone, Debug, PartialEq, Eq, Structural)]
pub struct UnknownCoreId(pub u32);

/// A clock frequency in hertz.
#[derive(Copy, Clone, Debug, PartialEq, Eq, Structural)]
pub struct Hertz(pub u32);

/// Device speed negotiated during enumeration, as reported by the
/// controller's device-status register.
#[derive(Copy, Clone, Debug, PartialEq, Eq, Structural)]
pub enum NegotiatedSpeed {
    HighSpeed,
    FullSpeedExternal,
    LowSpeed,
    FullSpeedInternal,
}

} // verus!
