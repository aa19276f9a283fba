//! Library behind a small loan/interest calculator: it pairs flat
//! command-line tokens into flag/value pairs, validates the three required
//! parameters (amount, annual interest rate, payment period), and resolves
//! period names (English or Spanish, any letter case) to a payment
//! frequency with its periods-per-year count.
//!
//! The IEEE-754 payment formulas themselves (periodic rate, periodic
//! payment, total cost) operate on `f64` values and live with the binary
//! around this library; everything here is exact string and integer logic.

pub mod args;
pub mod period;
pub mod text;
