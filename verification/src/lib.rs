//! Hardware abstraction for the general-purpose I/O pins and the countdown
//! timer of an EFM32 Happy Gecko microcontroller.
//!
//! The crate holds the decisions of the two services: which register
//! operation a pin transition asks for, and how a blocking wait is cut into
//! runs of the 24-bit counter. Carrying the operations out on the registers
//! is left to the caller, who hands back what the hardware reported.

pub mod delay;
pub mod gpio;
