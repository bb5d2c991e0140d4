//! Device-side driver core for a Synopsys-derived USB OTG full-speed
//! controller.
//!
//! The crate holds the hardware-independent engine of the driver: endpoint
//! and FIFO allocation under the controller's fixed word budget, the
//! interrupt handler's demultiplexing decisions, the bus enumeration state
//! machine, and the endpoint and control-pipe transfer protocols. Every
//! register access the driver performs is represented as a plain value
//! (a `RegAction` in an action trace, or a field of a plan struct), so that
//! an embedder can replay it onto the memory-mapped peripheral while the
//! decision logic itself stays verified.

pub mod bits;
pub mod budget;
pub mod bus;
pub mod caps;
pub mod control;
pub mod driver;
pub mod endpoint;
pub mod irq;
pub mod regs;
pub mod state;
pub mod types;
