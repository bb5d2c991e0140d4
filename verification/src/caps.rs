//! Per-chip capability table: how deep the packet FIFO is, how many
//! endpoints the core exposes, and whether it is high-speed capable.
//!
//! The table replaces compile-time configuration: the embedder picks the
//! entry for its target once, at initialisation, and hands it to the
//! allocator.

use vstd::prelude::*;

verus! {

/// Words the receive FIFO needs on top of the largest OUT packet.
///
/// This margin does not correspond to a reference-manual formula; the
/// required number of words is higher than the manual indicates, and this
/// pessimistic value was figured out empirically.
pub const RX_FIFO_EXTRA_SIZE_WORDS: u16 = 30;

/// Sentinel stored in a per-endpoint received-length slot meaning "no
/// unread packet".
pub const EP_OUT_BUFFER_EMPTY: u16 = u16::MAX;

/// Endpoint interrupt masks are 16 bits wide, so no core exposes more than
/// 16 endpoints per direction.
pub const MAX_EP_COUNT: usize = 16;

/// Constants of one USB OTG core variant.
#[derive(Copy, Clone, Debug, PartialEq, Eq, Structural)]
pub struct CoreCapabilities {
    /// Total packet-FIFO memory, in 4-byte words.
    pub fifo_depth_words: u16,
    /// Number of endpoint slots per direction.
    pub endpoint_count: usize,
    /// Whether the core can run at high speed.
    pub high_speed: bool,
}

/// Families of STM32 parts whose OTG cores share one set of capabilities.
#[derive(Copy, Clone, Debug, PartialEq, Eq, Structural)]
pub enum ChipFamily {
    /// F1-series full-speed core.
    F1,
    /// F2 / F401 / F405 / F407 / F41x / F42x / F43x full-speed core.
    F4Early,
    /// F412 / F413 / F423 / F446 / F469 / F479 / F7 / L4 / U5 full-speed
    /// core.
    F4Late,
    /// G0x1 core.
    G0,
    /// F2 / F405 / F407 / F41x / F42x / F43x high-speed core.
    F4EarlyHs,
    /// F446 / F469 / F479 / F7 / H7 high-speed core.
    F4LateHs,
}

impl CoreCapabilities {
    /// A capability entry is well formed when its endpoint count fits the
    /// 16-bit per-endpoint interrupt masks, leaves room for the control
    /// endpoint, and its FIFO covers at least the fixed receive headroom.
    pub open spec fn wf(self) -> bool {
        &&& 1 <= self.endpoint_count <= MAX_EP_COUNT
        &&& self.fifo_depth_words >= RX_FIFO_EXTRA_SIZE_WORDS
    }
}

/// The capability entry for one chip family.
pub fn capabilities_of(family: ChipFamily) -> (r: CoreCapabilities)
    ensures
        r.wf(),
        r == spec_capabilities_of(family),
{
    match family {
        ChipFamily::F1 => CoreCapabilities { fifo_depth_words: 128, endpoint_count: 8, high_speed: false },
        ChipFamily::F4Early => CoreCapabilities { fifo_depth_words: 320, endpoint_count: 4, high_speed: false },
        ChipFamily::F4Late => CoreCapabilities { fifo_depth_words: 320, endpoint_count: 6, high_speed: false },
        ChipFamily::G0 => CoreCapabilities { fifo_depth_words: 512, endpoint_count: 8, high_speed: false },
        ChipFamily::F4EarlyHs => CoreCapabilities { fifo_depth_words: 1024, endpoint_count: 6, high_speed: false },
        ChipFamily::F4LateHs => CoreCapabilities { fifo_depth_words: 1024, endpoint_count: 9, high_speed: false },
    }
}

/// Specification mirror of [`capabilities_of`].
pub open spec fn spec_capabilities_of(family: ChipFamily) -> CoreCapabilities {
    match family {
        ChipFamily::F1 => CoreCapabilities { fifo_depth_words: 128, endpoint_count: 8, high_speed: false },
        ChipFamily::F4Early => CoreCapabilities { fifo_depth_words: 320, endpoint_count: 4, high_speed: false },
        ChipFamily::F4Late => CoreCapabilities { fifo_depth_words: 320, endpoint_count: 6, high_speed: false },
        ChipFamily::G0 => CoreCapabilities { fifo_depth_words: 512, endpoint_count: 8, high_speed: false },
        ChipFamily::F4EarlyHs => CoreCapabilities { fifo_depth_words: 1024, endpoint_count: 6, high_speed: false },
        ChipFamily::F4LateHs => CoreCapabilities { fifo_depth_words: 1024, endpoint_count: 9, high_speed: false },
    }
}

} // verus!
