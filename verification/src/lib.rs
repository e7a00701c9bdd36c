//! Clock switching for a microcontroller's peripheral clock domains, and an
//! interrupt-driven true-random-number-generator driver built on it.
//!
//! The clock-control backend and the generator's register block are modelled
//! as plain state, so that every operation — enabling or disabling a clock
//! line, deriving a peripheral's operating frequency, and the generator's
//! interrupt state machine — carries a proved contract.

pub mod periph;
pub mod rcc;
pub mod trng;
