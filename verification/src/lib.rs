//! A chainable calculator over signed 32-bit integers, and a comparison of
//! two texts by their lines.
//!
//! A [`Calc`] holds one register: either a valid integer or the error that
//! ended the calculation. Every arithmetic fault is detected and classified;
//! once an error is in the register it stays there.
//!
//! A [`FileContent`] holds a text and gives the lines that it shares with
//! another.

pub mod accumulator;
pub mod args;
pub mod decimal;
pub mod error;
pub mod file_content;
pub mod laws;
pub mod register;

pub use accumulator::Calc;
pub use error::CalculationError;
pub use file_content::FileContent;
