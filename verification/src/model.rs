//! Data model of one evaluation cycle: wallet and offer snapshots, candle
//! history, and the decision the engine derives from them.
//!
//! Quantities are fixed-point integers. A currency amount `a` stands for the
//! real amount `a / AMOUNT_UNIT`; a per-day rate or a balance fraction `r`
//! stands for the real fraction `r / RATE_SCALE`.

use vstd::prelude::*;

verus! {

/// One whole unit of currency, in amount units (amounts carry six
/// fractional decimal digits).
pub const AMOUNT_UNIT: u64 = 1_000_000;

/// The fixed-point unit for per-day rates and balance fractions (nine
/// fractional decimal digits; a rate of 0.0005/day is `500_000`).
pub const RATE_SCALE: u64 = 1_000_000_000;

/// The kind of wallet an account holds funds in; only funding wallets
/// take part in lending.
#[derive(Debug, Clone, Copy, PartialEq, Eq, Structural)]
pub enum WalletKind {
    Exchange,
    Margin,
    Funding,
}

/// A read-only snapshot of one wallet, refreshed every cycle.
#[derive(Debug, Clone)]
pub struct Wallet {
    pub kind: WalletKind,
    pub currency: String,
    /// Total balance, in amount units.
    pub balance: u64,
    /// Unencumbered balance, in amount units.
    pub available_balance: u64,
}

/// A lending offer currently standing on the market.
#[derive(Debug, Clone, PartialEq, Eq)]
pub struct ActiveOffer {
    pub id: u64,
    pub currency: String,
    /// Offered amount, in amount units.
    pub amount: u64,
    /// Per-day rate, in units of [`RATE_SCALE`].
    pub rate: u64,
    /// Loan duration, in days.
    pub period: u8,
}

/// One OHLCV aggregate of the funding market; only the high is consumed.
#[derive(Debug, Clone, Copy)]
pub struct Candle {
    /// Bucket timestamp, in milliseconds.
    pub timestamp: u64,
    /// Highest rate seen in the bucket, in units of [`RATE_SCALE`].
    pub high: u64,
}

/// Why a cycle ends without touching the market.
#[derive(Debug, Clone, Copy, PartialEq, Eq, Structural)]
pub enum SkipReason {
    /// The usable balance is below the strategy's minimum loan size.
    InsufficientBalance,
    /// The standing offer already satisfies the acceptance thresholds.
    ActiveOfferAcceptable,
}

/// The action decided for one cycle; derived fresh every cycle, never kept.
#[derive(Debug, Clone, Copy, PartialEq, Eq, Structural)]
pub enum Decision {
    /// Leave the market untouched.
    Skip(SkipReason),
    /// Withdraw the standing offer and submit nothing.
    CancelOnly,
    /// Withdraw the standing offer and submit a fresh one.
    CancelAndSubmit { amount: u64, rate: u64, period: u8 },
    /// Submit a fresh offer; nothing was standing.
    SubmitOnly { amount: u64, rate: u64, period: u8 },
}

/// Why a cycle aborts; every failure is local to one strategy's one cycle.
#[derive(Debug, Clone, Copy, PartialEq, Eq, Structural)]
pub enum EvalError {
    /// No funding wallet exists for the configured currency.
    WalletNotFound,
    /// More than one offer is standing; all of them are to be withdrawn
    /// and the next cycle re-evaluates cleanly.
    DuplicateOfferDetected,
    /// Fewer candles came back than the configured rank needs.
    InsufficientData,
}

} // verus!
