//! Decision engine for a single-offer peer-to-peer lending strategy.
//!
//! Each cycle the engine reconciles the funding wallet with the currently
//! active offer, discovers a representative lending rate from recent candle
//! history, and decides whether to leave the active offer standing, replace
//! it, or submit a new one. All monetary quantities are fixed-point integers:
//! amounts in units of [`model::AMOUNT_UNIT`], per-day rates and balance
//! fractions in units of [`model::RATE_SCALE`].

pub mod model;
pub mod rates;
pub mod strategies;
