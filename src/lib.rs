//! Serial transceiver driver for the MK66 UART peripheral, with a diagnostic
//! text writer and the fault-report sequence built on top of it.

pub mod registers;
pub mod uart;
pub mod writer;
pub mod fault;
