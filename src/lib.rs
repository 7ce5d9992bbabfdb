//! Clock-tree control for an STM32L4 microcontroller, with the sequencing of
//! every register access proved correct.
//!
//! The library never touches hardware itself. Each clock operation is a
//! sequencer: it names the next register access to perform, takes the value
//! that access produced, and decides what comes next. The program that owns the
//! register blocks performs the accesses. The GPIO part computes the register
//! words a pin operation writes.

pub mod rcc;
pub mod access;
pub mod msi_update;
pub mod hsi_switch;
pub mod gpio;
pub mod timer;
pub mod pll_enable;
