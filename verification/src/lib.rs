//! A pay-per-use API gate: an internal GATE token bought with XLM, spent per
//! API call under an allowance, and paid out to developers as XLM revenue.

pub mod rules;
pub mod sums;
pub mod steps;
pub mod prices;
pub mod state;
pub mod gate;
pub mod laws;
