//! Domain models for take-home calculations.
pub mod deduction;
pub mod household;
pub mod income;
pub mod state;
pub mod tax;
