//! Fee routing for a quote-only liquidity position: harvested quote fees are
//! split pro rata among investors by the amount still locked in their vesting
//! streams, one bounded page of investors at a time, and the remainder goes to
//! the creator.

pub mod runtime;
pub mod errors;
pub mod constants;
pub mod calculations;
pub mod vesting;
pub mod distribution;
pub mod position;
pub mod claiming;
pub mod meteora;
