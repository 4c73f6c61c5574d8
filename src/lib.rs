//! Drivers for memory-mapped UARTs: the 8250/16550 family, the SiFive UART and
//! the Xilinx UART Lite / AXI 16550 soft cores.
//!
//! Every driver owns a register block behind [`bus::RegisterBus`] and keeps a
//! ghost log of the register accesses it made. Each operation's contract states
//! exactly which accesses it performs, how its result follows from the values
//! it read, and the states those accesses take the block through as the
//! block's own `read_spec` / `write_spec` describe them. On the in-memory
//! [`sim::RegisterFile`] these pin down every result and every final state.

pub mod axi16550;
pub mod bus;
pub mod fields;
pub mod lite;
pub mod sifive;
pub mod sim;
pub mod uart8250;
pub mod xps;

pub use axi16550::MmioUartAxi16550;
pub use bus::{Register, RegisterBus};
pub use fields::{ChipFifoInfo, InterruptType, LineControlError, Parity};
pub use lite::{MmioUartAxiLite, MmioUartXpsLite};
pub use sifive::MmioUartSifive;
pub use sim::RegisterFile;
pub use uart8250::{MmioUart8250, TransmitError};
pub use xps::MmioUartXPS;
