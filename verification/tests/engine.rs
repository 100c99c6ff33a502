//! Tests of the decision engine on concrete cycles: rate discovery, balance
//! reconciliation, the clamp, the acceptance thresholds, the one-shot retry
//! and the end-to-end decisions.

use lendbot::model::{
    ActiveOffer, Candle, Decision, EvalError, SkipReason, Wallet, WalletKind, AMOUNT_UNIT,
    RATE_SCALE,
};
use lendbot::strategies::simple_strategy::{CycleState, Pending, SimpleStrategy, Step};
use lendbot::strategies::Strategy;

fn strategy(min_amount: u64, percent: u64, min_rate: u64, target_period: u8) -> SimpleStrategy {
    SimpleStrategy::new(
        String::from("test"),
        String::from("UST"),
        min_amount,
        percent,
        min_rate,
        target_period,
        24,
        2,
    )
}

fn candles(highs: &[u64]) -> Vec<Candle> {
    highs
        .iter()
        .enumerate()
        .map(|(i, h)| Candle { timestamp: i as u64 * 300_000, high: *h })
        .collect()
}

fn offer(amount: u64, rate: u64) -> ActiveOffer {
    ActiveOffer { id: 7, currency: String::from("UST"), amount, rate, period: 10 }
}

fn wallet(balance: u64, available: u64) -> Wallet {
    Wallet {
        kind: WalletKind::Funding,
        currency: String::from("UST"),
        balance,
        available_balance: available,
    }
}

#[test]
fn rate_selection_second_highest() {
    // Highs [1, 5, 3, 9, 2], rank 2: the second-highest high is 5.
    let s = strategy(50, RATE_SCALE, 0, 10);
    let r = s.get_highest_rate(&candles(&[1, 5, 3, 9, 2]));
    assert_eq!(r, Ok(5));
}

#[test]
fn rate_selection_ranks() {
    let cs = candles(&[1, 5, 3, 9, 2]);
    let top = SimpleStrategy::new(
        String::from("t"),
        String::from("UST"),
        0,
        0,
        0,
        2,
        1,
        1,
    );
    assert_eq!(top.get_highest_rate(&cs), Ok(9));
    let bottom = SimpleStrategy::new(
        String::from("t"),
        String::from("UST"),
        0,
        0,
        0,
        2,
        1,
        5,
    );
    assert_eq!(bottom.get_highest_rate(&cs), Ok(1));
}

#[test]
fn rate_selection_with_ties() {
    let s = strategy(0, 0, 0, 10);
    assert_eq!(s.get_highest_rate(&candles(&[7, 7, 3])), Ok(7));
}

#[test]
fn rate_selection_insufficient_history() {
    let s = strategy(0, 0, 0, 10);
    assert_eq!(s.get_highest_rate(&candles(&[4])), Err(EvalError::InsufficientData));
    assert_eq!(s.get_highest_rate(&candles(&[])), Err(EvalError::InsufficientData));
}

#[test]
fn sort_is_descending_with_duplicates() {
    let sorted = lendbot::rates::sort_rates_desc(&vec![1, 5, 3, 9, 2, 5]);
    assert_eq!(sorted, vec![9, 5, 5, 3, 2, 1]);
}

#[test]
fn balances_count_locked_funds_as_available() {
    let s = strategy(0, 0, 0, 10);
    let w = wallet(20 * AMOUNT_UNIT, 10 * AMOUNT_UNIT);
    let with_offer = s.compute_balances(&w, &Some(offer(5 * AMOUNT_UNIT, 1_000)));
    assert_eq!(with_offer, (15 * AMOUNT_UNIT, 20 * AMOUNT_UNIT));
    let without = s.compute_balances(&w, &None);
    assert_eq!(without, (10 * AMOUNT_UNIT, 20 * AMOUNT_UNIT));
}

#[test]
fn funding_wallet_takes_first_funding_match() {
    let s = strategy(0, 0, 0, 10);
    let wallets = vec![
        Wallet {
            kind: WalletKind::Exchange,
            currency: String::from("UST"),
            balance: 1,
            available_balance: 1,
        },
        Wallet {
            kind: WalletKind::Funding,
            currency: String::from("BTC"),
            balance: 2,
            available_balance: 2,
        },
        Wallet {
            kind: WalletKind::Funding,
            currency: String::from("UST"),
            balance: 3,
            available_balance: 3,
        },
        Wallet {
            kind: WalletKind::Funding,
            currency: String::from("UST"),
            balance: 4,
            available_balance: 4,
        },
    ];
    let found = s.funding_wallet(&wallets).expect("a funding wallet exists");
    assert_eq!(found.balance, 3);
}

#[test]
fn funding_wallet_absent() {
    let s = strategy(0, 0, 0, 10);
    let wallets = vec![Wallet {
        kind: WalletKind::Margin,
        currency: String::from("UST"),
        balance: 1,
        available_balance: 1,
    }];
    assert_eq!(s.funding_wallet(&wallets).err(), Some(EvalError::WalletNotFound));
    assert_eq!(s.funding_wallet(&Vec::new()).err(), Some(EvalError::WalletNotFound));
}

#[test]
fn active_offer_keeps_single_offer() {
    let s = strategy(0, 0, 0, 10);
    assert!(matches!(s.active_offer(Vec::new()), Ok(None)));
    let only = s.active_offer(vec![offer(5, 1_000)]).expect("one offer is consistent");
    assert_eq!(only.map(|o| o.id), Some(7));
}

#[test]
fn duplicate_offers_abort_for_remediation() {
    // Two or more standing offers always abort with DuplicateOfferDetected,
    // whatever they hold; the runner then withdraws them all at once.
    let s = strategy(0, 0, 0, 10);
    let r = s.active_offer(vec![offer(5, 1_000), offer(9, 2_000)]);
    assert_eq!(r, Err(EvalError::DuplicateOfferDetected));

    let out = s.evaluate(CycleState::Observed {
        wallet: wallet(100, 100),
        offers: vec![offer(1, 1), offer(2, 2), offer(3, 3)],
    });
    assert!(matches!(out, Err(EvalError::DuplicateOfferDetected)));
}

#[test]
fn final_rate_discounts_one_percent() {
    // 0.001/day discounted by 1%: 0.00099/day.
    assert_eq!(lendbot::strategies::simple_strategy::final_rate(1_000_000), 990_000);
    assert_eq!(lendbot::strategies::simple_strategy::final_rate(0), 0);
}

#[test]
fn loan_amount_clamps() {
    // min 50, cap = 90% of total.
    let s = strategy(50 * AMOUNT_UNIT, 900_000_000, 0, 10);
    // Available below the cap: the full available balance is lent.
    assert_eq!(s.loan_amount(100 * AMOUNT_UNIT, 200 * AMOUNT_UNIT), 100 * AMOUNT_UNIT);
    // Available above the cap: clamped to 90% of the total balance.
    assert_eq!(s.loan_amount(300 * AMOUNT_UNIT, 200 * AMOUNT_UNIT), 180 * AMOUNT_UNIT);
    // Both below the minimum: raised to the minimum loan size.
    assert_eq!(s.loan_amount(10 * AMOUNT_UNIT, 20 * AMOUNT_UNIT), 50 * AMOUNT_UNIT);
}

#[test]
fn loan_amount_monotonic_in_available_balance() {
    let s = strategy(50 * AMOUNT_UNIT, 900_000_000, 0, 10);
    let total = 200 * AMOUNT_UNIT;
    let mut last = 0;
    for available in [0, 40, 60, 80, 150, 200, 400] {
        let loan = s.loan_amount(available * AMOUNT_UNIT, total);
        assert!(loan >= last);
        assert!(loan >= 50 * AMOUNT_UNIT);
        assert!(loan <= 180 * AMOUNT_UNIT);
        last = loan;
    }
}

#[test]
fn acceptable_offer_is_left_standing() {
    // The standing offer equals what would be submitted: skip, no churn.
    let s = strategy(50 * AMOUNT_UNIT, 900_000_000, 0, 10);
    let pending = Pending {
        available_balance: 100 * AMOUNT_UNIT,
        total_balance: 200 * AMOUNT_UNIT,
        active: Some(offer(100 * AMOUNT_UNIT, 990_000)),
        period: 10,
        retried: false,
    };
    let out = s.evaluate(CycleState::CandlesFetched {
        pending,
        candles: candles(&[1_100_000, 1_000_000]),
    });
    match out {
        Ok(Step::Decided(d)) => {
            assert_eq!(d, Decision::Skip(SkipReason::ActiveOfferAcceptable))
        }
        other => panic!("expected a decision, got {other:?}"),
    }
}

#[test]
fn drifted_offer_is_replaced() {
    // The standing offer's rate is more than 1% away from the candidate.
    let s = strategy(50 * AMOUNT_UNIT, 900_000_000, 0, 10);
    let pending = Pending {
        available_balance: 100 * AMOUNT_UNIT,
        total_balance: 200 * AMOUNT_UNIT,
        active: Some(offer(100 * AMOUNT_UNIT, 2_000_000)),
        period: 10,
        retried: false,
    };
    let out = s.evaluate(CycleState::CandlesFetched {
        pending,
        candles: candles(&[1_100_000, 1_000_000]),
    });
    match out {
        Ok(Step::Decided(d)) => assert_eq!(
            d,
            Decision::CancelAndSubmit {
                amount: 100 * AMOUNT_UNIT,
                rate: 990_000,
                period: 10
            }
        ),
        other => panic!("expected a decision, got {other:?}"),
    }
}

#[test]
fn shrunken_amount_triggers_replacement_but_growth_does_not() {
    let s = strategy(50 * AMOUNT_UNIT, 900_000_000, 0, 10);
    // The standing offer lends two units more than now appropriate.
    let shrunk = Pending {
        available_balance: 100 * AMOUNT_UNIT,
        total_balance: 200 * AMOUNT_UNIT,
        active: Some(offer(102 * AMOUNT_UNIT, 990_000)),
        period: 10,
        retried: false,
    };
    let out = s.evaluate(CycleState::CandlesFetched {
        pending: shrunk,
        candles: candles(&[1_100_000, 1_000_000]),
    });
    assert!(matches!(
        out,
        Ok(Step::Decided(Decision::CancelAndSubmit { .. }))
    ));

    // The appropriate amount grew: that alone never forces a replacement.
    let grown = Pending {
        available_balance: 150 * AMOUNT_UNIT,
        total_balance: 200 * AMOUNT_UNIT,
        active: Some(offer(100 * AMOUNT_UNIT, 990_000)),
        period: 10,
        retried: false,
    };
    let out = s.evaluate(CycleState::CandlesFetched {
        pending: grown,
        candles: candles(&[1_100_000, 1_000_000]),
    });
    assert!(matches!(
        out,
        Ok(Step::Decided(Decision::Skip(SkipReason::ActiveOfferAcceptable)))
    ));
}

#[test]
fn acceptance_thresholds_are_strict() {
    let s = strategy(50 * AMOUNT_UNIT, 900_000_000, 0, 10);
    let candidate = candles(&[1_100_000, 1_000_000]); // final rate 990_000
    let eval = |active: ActiveOffer| {
        let pending = Pending {
            available_balance: 100 * AMOUNT_UNIT,
            total_balance: 200 * AMOUNT_UNIT,
            active: Some(active),
            period: 10,
            retried: false,
        };
        match s.evaluate(CycleState::CandlesFetched { pending, candles: candidate.clone() }) {
            Ok(Step::Decided(d)) => d,
            other => panic!("expected a decision, got {other:?}"),
        }
    };

    // Exactly 1% away in rate: still acceptable; one rate unit further is not.
    let at_edge = eval(offer(100 * AMOUNT_UNIT, 990_000 + 9_900));
    assert_eq!(at_edge, Decision::Skip(SkipReason::ActiveOfferAcceptable));
    let past_edge = eval(offer(100 * AMOUNT_UNIT, 990_000 + 9_901));
    assert!(matches!(past_edge, Decision::CancelAndSubmit { .. }));

    // Exactly one currency unit above the candidate amount: acceptable;
    // anything further forces a replacement.
    let one_unit_over = eval(offer(101 * AMOUNT_UNIT, 990_000));
    assert_eq!(one_unit_over, Decision::Skip(SkipReason::ActiveOfferAcceptable));
    let more_than_one = eval(offer(101 * AMOUNT_UNIT + 1, 990_000));
    assert!(matches!(more_than_one, Decision::CancelAndSubmit { .. }));
}

#[test]
fn retry_once_at_two_days_then_proceed() {
    // target_period 10, min_rate 0.001/day; period-10 history yields 0.0005:
    // exactly one retry at period 2; that yields 0.0004 and the engine
    // proceeds with it.
    let s = strategy(50 * AMOUNT_UNIT, 900_000_000, 1_000_000, 10);
    let first = s.evaluate(CycleState::Observed {
        wallet: wallet(200 * AMOUNT_UNIT, 100 * AMOUNT_UNIT),
        offers: Vec::new(),
    });
    let pending = match first {
        Ok(Step::NeedCandles(p)) => p,
        other => panic!("expected a candle request, got {other:?}"),
    };
    assert_eq!(pending.period, 10);
    assert!(!pending.retried);

    let second = s.evaluate(CycleState::CandlesFetched {
        pending,
        candles: candles(&[600_000, 500_000]),
    });
    let retry = match second {
        Ok(Step::NeedCandles(p)) => p,
        other => panic!("expected the one-shot retry, got {other:?}"),
    };
    assert_eq!(retry.period, 2);
    assert!(retry.retried);

    let third = s.evaluate(CycleState::CandlesFetched {
        pending: retry,
        candles: candles(&[450_000, 400_000]),
    });
    match third {
        // No further retry: the engine proceeds with 0.0004 discounted by 1%.
        Ok(Step::Decided(d)) => assert_eq!(
            d,
            Decision::SubmitOnly {
                amount: 100 * AMOUNT_UNIT,
                rate: 396_000,
                period: 2
            }
        ),
        other => panic!("expected a decision, got {other:?}"),
    }
}

#[test]
fn no_retry_when_rate_meets_minimum() {
    let s = strategy(50 * AMOUNT_UNIT, 900_000_000, 1_000_000, 10);
    let pending = Pending {
        available_balance: 100 * AMOUNT_UNIT,
        total_balance: 200 * AMOUNT_UNIT,
        active: None,
        period: 10,
        retried: false,
    };
    let out = s.evaluate(CycleState::CandlesFetched {
        pending,
        candles: candles(&[900_000, 1_000_000, 1_100_000]),
    });
    assert!(matches!(out, Ok(Step::Decided(Decision::SubmitOnly { .. }))));
}

#[test]
fn submits_when_no_offer_stands() {
    // available 100, min 50, discovered 0.001 -> SubmitOnly(100, 0.00099, 10).
    let s = strategy(50 * AMOUNT_UNIT, 900_000_000, 0, 10);
    let first = s.evaluate(CycleState::Observed {
        wallet: wallet(200 * AMOUNT_UNIT, 100 * AMOUNT_UNIT),
        offers: Vec::new(),
    });
    let pending = match first {
        Ok(Step::NeedCandles(p)) => p,
        other => panic!("expected a candle request, got {other:?}"),
    };
    assert_eq!(pending.available_balance, 100 * AMOUNT_UNIT);
    assert_eq!(pending.total_balance, 200 * AMOUNT_UNIT);
    let second = s.evaluate(CycleState::CandlesFetched {
        pending,
        candles: candles(&[1_100_000, 1_000_000]),
    });
    match second {
        Ok(Step::Decided(d)) => assert_eq!(
            d,
            Decision::SubmitOnly {
                amount: 100 * AMOUNT_UNIT,
                rate: 990_000,
                period: 10
            }
        ),
        other => panic!("expected a decision, got {other:?}"),
    }
}

#[test]
fn insufficient_balance_skips_without_market_access() {
    // available 10 < min 50: the cycle ends at once; no candle request and
    // no mutating step is ever asked of the runner.
    let s = strategy(50 * AMOUNT_UNIT, 900_000_000, 0, 10);
    let out = s.evaluate(CycleState::Observed {
        wallet: wallet(20 * AMOUNT_UNIT, 10 * AMOUNT_UNIT),
        offers: Vec::new(),
    });
    match out {
        Ok(Step::Decided(d)) => {
            assert_eq!(d, Decision::Skip(SkipReason::InsufficientBalance))
        }
        other => panic!("expected an immediate skip, got {other:?}"),
    }
}

#[test]
fn locked_funds_can_lift_balance_over_minimum() {
    // Available alone is short, but the standing offer's locked funds count.
    let s = strategy(50 * AMOUNT_UNIT, 900_000_000, 0, 10);
    let out = s.evaluate(CycleState::Observed {
        wallet: wallet(200 * AMOUNT_UNIT, 10 * AMOUNT_UNIT),
        offers: vec![offer(45 * AMOUNT_UNIT, 990_000)],
    });
    let pending = match out {
        Ok(Step::NeedCandles(p)) => p,
        other => panic!("expected a candle request, got {other:?}"),
    };
    assert_eq!(pending.available_balance, 55 * AMOUNT_UNIT);
    assert_eq!(pending.active.map(|o| o.amount), Some(45 * AMOUNT_UNIT));
}

#[test]
fn lookback_window_start() {
    let s = strategy(0, 0, 0, 10);
    // 24 hours in milliseconds before now.
    assert_eq!(s.lookback_start(100_000_000_000), 100_000_000_000 - 24 * 3_600_000);
}
