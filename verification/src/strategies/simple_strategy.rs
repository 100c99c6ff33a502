//! The single-offer lending strategy: per cycle it reconciles wallet and
//! active offer, discovers a candidate rate from candle history, and decides
//! whether to leave the standing offer, replace it, or submit a new one.
//!
//! The strategy is a pure decision engine: it performs no market access of
//! its own. The caller fetches each snapshot, hands it in as a
//! [`CycleState`], and carries out whatever the returned [`Step`] asks for —
//! fetching candles for a period, or acting on a [`Decision`].

use vstd::arithmetic::div_mod::{lemma_div_is_ordered, lemma_div_multiples_vanish};
use vstd::arithmetic::mul::{lemma_mul_inequality, lemma_mul_is_commutative};
use vstd::prelude::*;

use crate::model::{
    ActiveOffer, Candle, Decision, EvalError, SkipReason, Wallet, WalletKind, AMOUNT_UNIT,
    RATE_SCALE,
};
use crate::rates::{discover_rate, discovered_rate, highs_of, nth_highest};
use crate::strategies::Strategy;

verus! {

/// What the engine keeps between observing the account and receiving the
/// candle history it asked for.
#[derive(Debug, Clone)]
pub struct Pending {
    /// Usable balance: unencumbered funds plus whatever the standing offer
    /// locks, in amount units.
    pub available_balance: u64,
    /// Total balance of the funding wallet, in amount units.
    pub total_balance: u64,
    /// The single standing offer, if one exists.
    pub active: Option<ActiveOffer>,
    /// The loan duration, in days, candles are wanted for.
    pub period: u8,
    /// Whether the one-shot retry at the two-day period was already taken.
    pub retried: bool,
}

/// What one evaluation step yields: either a final decision for this cycle,
/// or a request for candle history at `pending.period` days.
#[derive(Debug)]
pub enum Step {
    Decided(Decision),
    NeedCandles(Pending),
}

/// The state handed to one evaluation step.
#[derive(Debug)]
pub enum CycleState {
    /// The account snapshot taken at the start of a cycle: the funding
    /// wallet and every active offer observed for the currency.
    Observed { wallet: Wallet, offers: Vec<ActiveOffer> },
    /// The candle history fetched for an earlier [`Step::NeedCandles`].
    CandlesFetched { pending: Pending, candles: Vec<Candle> },
}

/// The amount locked in the standing offer, or zero without one.
pub open spec fn locked_amount(active: Option<ActiveOffer>) -> int {
    match active {
        Option::Some(a) => a.amount as int,
        Option::None => 0,
    }
}

/// The single standing offer of an observed offer list, if the list is
/// consistent (at most one entry).
pub open spec fn active_of(offers: Seq<ActiveOffer>) -> Option<ActiveOffer> {
    if offers.len() == 1 {
        Option::Some(offers[0])
    } else {
        Option::None
    }
}

/// What reconciling the observed offers yields: more than one standing
/// offer is an inconsistent state that aborts the cycle for remediation.
pub open spec fn offers_check(offers: Seq<ActiveOffer>) -> Result<Option<ActiveOffer>, EvalError> {
    if offers.len() > 1 {
        Err(EvalError::DuplicateOfferDetected)
    } else {
        Ok(active_of(offers))
    }
}

/// Whether `w` is the funding wallet of the given currency.
pub open spec fn wallet_matches(w: Wallet, currency: Seq<char>) -> bool {
    w.kind == WalletKind::Funding && w.currency@ == currency
}

/// The submitted rate: 99% of the discovered one, so an offer never sits at
/// the literal historical peak.
pub open spec fn spec_final_rate(rate: u64) -> int {
    rate * 99 / 100
}

/// The amount to lend: the available balance, capped by the configured
/// fraction of the total balance and raised to the minimum loan size.
pub open spec fn spec_loan_amount(min_amount: u64, available: u64, total: u64, percent: u64) -> int {
    let cap = total * percent / (RATE_SCALE as int);
    let liquid = if available <= cap {
        available as int
    } else {
        cap
    };
    if min_amount >= liquid {
        min_amount as int
    } else {
        liquid
    }
}

/// Whether the standing offer may stay: its rate lies within 1% of the
/// candidate rate and its amount is at most one currency unit above the
/// candidate amount. Only a decrease of the appropriate amount beyond one
/// unit forces a replacement; an increase alone never does.
pub open spec fn spec_offer_acceptable(active: ActiveOffer, loan_amount: int, rate: int) -> bool {
    let diff = if active.rate >= rate {
        active.rate - rate
    } else {
        rate - active.rate
    };
    !(diff * 100 > rate || active.amount > loan_amount + AMOUNT_UNIT)
}

/// A single-offer lending strategy's immutable configuration. One instance
/// runs per currency; the runner holds several, each with its own
/// credentials.
pub struct SimpleStrategy {
    /// The configured name of this strategy instance.
    pub name: String,
    /// The asset symbol this instance lends.
    pub currency: String,
    /// The minimum loan size, in amount units.
    pub min_amount: u64,
    /// The fraction of the total balance one loan may take, in units of
    /// [`RATE_SCALE`].
    pub max_balance_percent_per_loan: u64,
    /// The lowest acceptable per-day rate, in units of [`RATE_SCALE`].
    pub min_rate: u64,
    /// The desired loan duration, in days.
    pub target_period: u8,
    /// How many hours of candle history to look back over.
    pub monitored_window: u64,
    /// The 1-based rank of the candle high to select.
    pub nth_highest_candle: usize,
}

impl SimpleStrategy {
    /// A well-formed configuration: loans run at least two days, the rank
    /// is 1-based, and the balance fraction is at most one.
    pub open spec fn wf(self) -> bool {
        &&& self.target_period >= 2
        &&& self.nth_highest_candle >= 1
        &&& self.max_balance_percent_per_loan <= RATE_SCALE
    }

    pub fn new(
        name: String,
        currency: String,
        min_amount: u64,
        max_balance_percent_per_loan: u64,
        min_rate: u64,
        target_duration: u8,
        monitored_window: u64,
        nth_highest_candle: usize,
    ) -> (s: Self)
        requires
            target_duration >= 2,
            nth_highest_candle >= 1,
            max_balance_percent_per_loan <= RATE_SCALE,
        ensures
            s.name == name,
            s.currency == currency,
            s.min_amount == min_amount,
            s.max_balance_percent_per_loan == max_balance_percent_per_loan,
            s.min_rate == min_rate,
            s.target_period == target_duration,
            s.monitored_window == monitored_window,
            s.nth_highest_candle == nth_highest_candle,
            s.wf(),
    {
        SimpleStrategy {
            name,
            currency,
            min_amount,
            max_balance_percent_per_loan,
            min_rate,
            target_period: target_duration,
            monitored_window,
            nth_highest_candle,
        }
    }

    /// Picks the funding wallet of the configured currency out of a fetched
    /// wallet list: the first match in fetch order, or `WalletNotFound`.
    pub fn funding_wallet<'a>(&self, wallets: &'a Vec<Wallet>) -> (r: Result<&'a Wallet, EvalError>)
        ensures
            match r {
                Ok(w) => exists|i: int|
                    0 <= i < wallets@.len() && #[trigger] wallet_matches(wallets@[i], self.currency@)
                        && *w == wallets@[i] && (forall|j: int|
                        0 <= j < i ==> !wallet_matches(wallets@[j], self.currency@)),
                Err(e) => e == EvalError::WalletNotFound && (forall|i: int|
                    0 <= i < wallets@.len() ==> !wallet_matches(wallets@[i], self.currency@)),
            },
    {
        let mut i: usize = 0;
        while i < wallets.len()
            invariant
                i <= wallets@.len(),
                forall|j: int| 0 <= j < i ==> !wallet_matches(wallets@[j], self.currency@),
            decreases wallets@.len() - i,
        {
            let w = &wallets[i];
            if w.kind == WalletKind::Funding && w.currency == self.currency {
                assert(wallet_matches(wallets@[i as int], self.currency@));
                return Ok(w);
            }
            i = i + 1;
        }
        Err(EvalError::WalletNotFound)
    }

    /// Reconciles the observed offer list to at most one standing offer;
    /// two or more abort the cycle with `DuplicateOfferDetected`, and the
    /// caller then withdraws them all.
    pub fn active_offer(&self, offers: Vec<ActiveOffer>) -> (r: Result<
        Option<ActiveOffer>,
        EvalError,
    >)
        ensures
            r == offers_check(offers@),
    {
        if offers.len() > 1 {
            return Err(EvalError::DuplicateOfferDetected);
        }
        let mut offers = offers;
        Ok(offers.pop())
    }

    /// Derives `(available_balance, total_balance)` from the wallet and the
    /// standing offer. Funds locked in the offer count as available, because
    /// withdrawing it returns them instantly.
    pub fn compute_balances(&self, funding_wallet: &Wallet, active_offer: &Option<ActiveOffer>) -> (r:
        (u64, u64))
        requires
            funding_wallet.available_balance + locked_amount(*active_offer) <= u64::MAX,
        ensures
            r.0 == funding_wallet.available_balance + locked_amount(*active_offer),
            r.1 == funding_wallet.balance,
    {
        let locked: u64 = match active_offer {
            Some(a) => a.amount,
            None => 0,
        };
        (funding_wallet.available_balance + locked, funding_wallet.balance)
    }

    /// Where the monitored candle window starts: the configured number of
    /// hours before `now_ms` (both in milliseconds).
    pub fn lookback_start(&self, now_ms: u64) -> (r: u64)
        requires
            self.monitored_window * 3_600_000 <= now_ms,
        ensures
            r == now_ms - self.monitored_window * 3_600_000,
    {
        now_ms - self.monitored_window * 3_600_000
    }

    /// Selects the configured rank's high out of the fetched candles.
    pub fn get_highest_rate(&self, candles: &Vec<Candle>) -> (r: Result<u64, EvalError>)
        requires
            self.wf(),
        ensures
            r == discovered_rate(candles@, self.nth_highest_candle as int),
    {
        discover_rate(candles, self.nth_highest_candle)
    }

    /// The amount to lend, per [`spec_loan_amount`].
    pub fn loan_amount(&self, available_balance: u64, total_balance: u64) -> (r: u64)
        requires
            self.max_balance_percent_per_loan <= RATE_SCALE,
        ensures
            r == spec_loan_amount(
                self.min_amount,
                available_balance,
                total_balance,
                self.max_balance_percent_per_loan,
            ),
    {
        proof {
            let t = total_balance as int;
            let p = self.max_balance_percent_per_loan as int;
            let s = RATE_SCALE as int;
            lemma_mul_inequality(p, s, t);
            lemma_mul_is_commutative(p, t);
            lemma_mul_is_commutative(s, t);
            lemma_div_is_ordered(t * p, t * s, s);
            lemma_div_multiples_vanish(t, s);
        }
        let cap_wide: u128 = (total_balance as u128) * (self.max_balance_percent_per_loan as u128)
            / (RATE_SCALE as u128);
        let cap: u64 = cap_wide as u64;
        let liquid: u64 = if available_balance <= cap {
            available_balance
        } else {
            cap
        };
        if self.min_amount >= liquid {
            self.min_amount
        } else {
            liquid
        }
    }
}

/// The submitted rate, per [`spec_final_rate`]: 99% of `rate`, rounded down.
pub fn final_rate(rate: u64) -> (r: u64)
    ensures
        r == spec_final_rate(rate),
{
    proof {
        let x = rate as int;
        lemma_div_is_ordered(x * 99, x * 100, 100);
        lemma_mul_is_commutative(x, 100);
        lemma_div_multiples_vanish(x, 100);
    }
    ((rate as u128) * 99 / 100) as u64
}

/// Whether the standing offer may stay, per [`spec_offer_acceptable`].
pub fn offer_acceptable(active: &ActiveOffer, loan_amount: u64, rate: u64) -> (r: bool)
    ensures
        r == spec_offer_acceptable(*active, loan_amount as int, rate as int),
{
    let diff: u64 = if active.rate >= rate {
        active.rate - rate
    } else {
        rate - active.rate
    };
    let rate_far = (diff as u128) * 100 > (rate as u128);
    let amount_far = (active.amount as u128) > (loan_amount as u128) + (AMOUNT_UNIT as u128);
    !(rate_far || amount_far)
}

/// The decision taken once a rate is settled, per step 5 onward of the
/// cycle: discount the rate, clamp the amount, then compare against the
/// standing offer if one exists.
pub open spec fn spec_decide(s: SimpleStrategy, pending: Pending, rate: u64) -> Decision {
    let fr = spec_final_rate(rate);
    let loan = spec_loan_amount(
        s.min_amount,
        pending.available_balance,
        pending.total_balance,
        s.max_balance_percent_per_loan,
    );
    match pending.active {
        Option::Some(a) => {
            if spec_offer_acceptable(a, loan, fr) {
                Decision::Skip(SkipReason::ActiveOfferAcceptable)
            } else {
                Decision::CancelAndSubmit { amount: loan as u64, rate: fr as u64, period: pending.period }
            }
        },
        Option::None => Decision::SubmitOnly {
            amount: loan as u64,
            rate: fr as u64,
            period: pending.period,
        },
    }
}

impl SimpleStrategy {
    /// Turns a settled rate and the pending balances into this cycle's
    /// decision.
    pub fn decide(&self, pending: &Pending, rate: u64) -> (d: Decision)
        requires
            self.max_balance_percent_per_loan <= RATE_SCALE,
        ensures
            d == spec_decide(*self, *pending, rate),
    {
        let fr = final_rate(rate);
        let loan = self.loan_amount(pending.available_balance, pending.total_balance);
        match &pending.active {
            Some(a) => {
                if offer_acceptable(a, loan, fr) {
                    Decision::Skip(SkipReason::ActiveOfferAcceptable)
                } else {
                    Decision::CancelAndSubmit { amount: loan, rate: fr, period: pending.period }
                }
            },
            None => Decision::SubmitOnly { amount: loan, rate: fr, period: pending.period },
        }
    }
}

/// For a fixed total balance, balance fraction and minimum, the loan amount
/// never decreases when the available balance grows.
pub proof fn lemma_loan_amount_monotonic(
    min_amount: u64,
    available_lo: u64,
    available_hi: u64,
    total: u64,
    percent: u64,
)
    requires
        available_lo <= available_hi,
    ensures
        spec_loan_amount(min_amount, available_lo, total, percent) <= spec_loan_amount(
            min_amount,
            available_hi,
            total,
            percent,
        ),
{
}

/// The loan amount always lies between the minimum loan size and the larger
/// of that minimum and the configured fraction of the total balance.
pub proof fn lemma_loan_amount_bounds(min_amount: u64, available: u64, total: u64, percent: u64)
    ensures
        min_amount <= spec_loan_amount(min_amount, available, total, percent),
        spec_loan_amount(min_amount, available, total, percent) <= {
            let cap = total * percent / (RATE_SCALE as int);
            if min_amount >= cap {
                min_amount as int
            } else {
                cap
            }
        },
{
}

/// A standing offer that already satisfies the acceptance thresholds is
/// left standing: re-evaluating the same market inputs yields a skip, never
/// a cancel or a submission.
pub proof fn lemma_acceptable_offer_keeps_standing(
    s: SimpleStrategy,
    pending: Pending,
    a: ActiveOffer,
    rate: u64,
)
    requires
        pending.active == Option::Some(a),
        spec_offer_acceptable(
            a,
            spec_loan_amount(
                s.min_amount,
                pending.available_balance,
                pending.total_balance,
                s.max_balance_percent_per_loan,
            ),
            spec_final_rate(rate),
        ),
    ensures
        spec_decide(s, pending, rate) == Decision::Skip(SkipReason::ActiveOfferAcceptable),
{
}

/// Re-evaluating identical market inputs against a standing offer that
/// already satisfies the acceptance thresholds yields a skip — never a
/// cancel/submit pair. (With a one-shot retry still owed, the evaluation
/// first asks for the two-day history, exactly as the evaluation that
/// placed the offer did.)
pub proof fn lemma_reevaluation_keeps_acceptable_offer(
    s: SimpleStrategy,
    pending: Pending,
    a: ActiveOffer,
    candles: Vec<Candle>,
)
    requires
        pending.active == Option::Some(a),
        s.nth_highest_candle >= 1,
        candles@.len() >= s.nth_highest_candle,
        ({
            let rate = nth_highest(highs_of(candles@), s.nth_highest_candle as int);
            &&& !(rate < s.min_rate && pending.period > 2 && !pending.retried)
            &&& spec_offer_acceptable(
                a,
                spec_loan_amount(
                    s.min_amount,
                    pending.available_balance,
                    pending.total_balance,
                    s.max_balance_percent_per_loan,
                ),
                spec_final_rate(rate),
            )
        }),
    ensures
        s.decision_model(&CycleState::CandlesFetched { pending, candles }) == Ok::<
            Step,
            EvalError,
        >(Step::Decided(Decision::Skip(SkipReason::ActiveOfferAcceptable))),
{
}

/// The fallback to a two-day period is a one-shot bound, not a retry loop:
/// once the retry was taken, evaluating fetched candles never asks for
/// candles again — it fails or decides, whatever rate the history yields.
pub proof fn lemma_retry_is_one_shot(s: SimpleStrategy, pending: Pending, candles: Vec<Candle>)
    requires
        pending.retried,
    ensures
        !(s.decision_model(&CycleState::CandlesFetched { pending, candles }) matches Ok(
            Step::NeedCandles(_),
        )),
{
}

/// Observing two or more standing offers always aborts the cycle with
/// `DuplicateOfferDetected`, whatever the offers hold; the caller then
/// makes its single cancel-all call.
pub proof fn lemma_duplicate_offers_detected(
    s: SimpleStrategy,
    wallet: Wallet,
    offers: Vec<ActiveOffer>,
)
    requires
        offers@.len() >= 2,
    ensures
        s.decision_model(&CycleState::Observed { wallet, offers }) == Err::<Step, EvalError>(
            EvalError::DuplicateOfferDetected,
        ),
{
}

impl Strategy for SimpleStrategy {
    type State = CycleState;

    type Output = Result<Step, EvalError>;

    open spec fn evaluate_req(&self, state: &CycleState) -> bool {
        &&& self.wf()
        &&& match *state {
            CycleState::Observed { wallet, offers } => wallet.available_balance + locked_amount(
                active_of(offers@),
            ) <= u64::MAX,
            CycleState::CandlesFetched { .. } => true,
        }
    }

    open spec fn decision_model(&self, state: &CycleState) -> Result<Step, EvalError> {
        match *state {
            CycleState::Observed { wallet, offers } => match offers_check(offers@) {
                Result::Err(e) => Err(e),
                Result::Ok(active) => {
                    let available = (wallet.available_balance + locked_amount(active)) as u64;
                    if available < self.min_amount {
                        Ok(Step::Decided(Decision::Skip(SkipReason::InsufficientBalance)))
                    } else {
                        Ok(
                            Step::NeedCandles(
                                Pending {
                                    available_balance: available,
                                    total_balance: wallet.balance,
                                    active,
                                    period: self.target_period,
                                    retried: false,
                                },
                            ),
                        )
                    }
                },
            },
            CycleState::CandlesFetched { pending, candles } => match discovered_rate(
                candles@,
                self.nth_highest_candle as int,
            ) {
                Result::Err(e) => Err(e),
                Result::Ok(rate) => {
                    if rate < self.min_rate && pending.period > 2 && !pending.retried {
                        Ok(
                            Step::NeedCandles(
                                Pending {
                                    available_balance: pending.available_balance,
                                    total_balance: pending.total_balance,
                                    active: pending.active,
                                    period: 2,
                                    retried: true,
                                },
                            ),
                        )
                    } else {
                        Ok(Step::Decided(spec_decide(*self, pending, rate)))
                    }
                },
            },
        }
    }

    /// One evaluation step of the cycle's state machine: reconcile the
    /// account snapshot and either decide at once or ask for candles; then,
    /// on fetched candles, retry once at two days if the rate is below the
    /// configured minimum, else decide.
    fn evaluate(&self, state: CycleState) -> (out: Result<Step, EvalError>) {
        match state {
            CycleState::Observed { wallet, offers } => {
                let active = match self.active_offer(offers) {
                    Ok(a) => a,
                    Err(e) => {
                        return Err(e);
                    },
                };
                let balances = self.compute_balances(&wallet, &active);
                let available = balances.0;
                let total = balances.1;
                if available < self.min_amount {
                    Ok(Step::Decided(Decision::Skip(SkipReason::InsufficientBalance)))
                } else {
                    Ok(
                        Step::NeedCandles(
                            Pending {
                                available_balance: available,
                                total_balance: total,
                                active,
                                period: self.target_period,
                                retried: false,
                            },
                        ),
                    )
                }
            },
            CycleState::CandlesFetched { pending, candles } => {
                let rate = match self.get_highest_rate(&candles) {
                    Ok(r) => r,
                    Err(e) => {
                        return Err(e);
                    },
                };
                if rate < self.min_rate && pending.period > 2 && !pending.retried {
                    Ok(
                        Step::NeedCandles(
                            Pending {
                                available_balance: pending.available_balance,
                                total_balance: pending.total_balance,
                                active: pending.active,
                                period: 2,
                                retried: true,
                            },
                        ),
                    )
                } else {
                    Ok(Step::Decided(self.decide(&pending, rate)))
                }
            },
        }
    }
}

} // verus!
