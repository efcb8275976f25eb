//! Decision logic of a small trading service: position-sizing validation and
//! the valuation of a wallet's native coin balance across three chains.
//!
//! The library performs no input or output. Callers perform the upstream
//! requests that the library asks for and hand the replies back.

pub mod text;
pub mod chain;
pub mod number;
pub mod sizing;
pub mod decimal;
pub mod balance;
pub mod error;
pub mod address;
pub mod quote;
pub mod provider;
pub mod aggregator;
