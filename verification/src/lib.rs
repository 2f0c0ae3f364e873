//! Driver for banks of outputs wired behind serial-in/parallel-out shift
//! registers.
//!
//! The driver keeps a 64-bit image of the outputs and turns every change of
//! it into the exact sequence of GPIO line operations that clocks the image
//! into the hardware. It performs no I/O itself: an operation is handed out
//! as a [`run::Run`], which names one step at a time and is told how the
//! step went.

pub mod errors;
pub mod image;
pub mod line;
mod random;
pub mod commit;
pub mod controller;
pub mod run;
pub mod shift_register;

pub use crate::shift_register::{ShiftRegister, ShiftRegisterType};
