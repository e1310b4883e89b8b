//! Core of a small embedded control system: a bounded command queue feeding a
//! cooperative scheduler, the peripheral models it drives (UART, GPIO, timer),
//! and the wire encoding of outbound messages.
//!
//! Everything here is chip-agnostic: hardware registers are modelled as plain
//! values, and the unverified glue around this library performs the actual
//! memory-mapped accesses that the verified logic decides on.

pub mod peripheral;
pub mod protocol;
pub mod queue;
pub mod system;

pub use peripheral::{Gpio, Timer, Uart};
pub use protocol::{Command, Message, PayloadOverflow};
pub use queue::{CommandQueue, QueueFull};
pub use system::{StepOutput, System};
