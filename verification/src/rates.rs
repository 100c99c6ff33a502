//! Rate discovery: select a representative lending rate from recent candle
//! history.
//!
//! The candle highs are ordered descending and the rate of a configurable
//! rank is taken (rank 1 is the maximum). Taking a rank below the top avoids
//! chasing a single transient spike that may not be fillable.

use vstd::prelude::*;
use vstd::relations::{sorted_by, total_ordering};
use vstd::seq_lib::group_to_multiset_ensures;
use vstd::seq_lib::lemma_sorted_unique;

use crate::model::{Candle, EvalError};

verus! {

/// The descending order on rates: `x` comes before `y` when `x >= y`.
pub open spec fn rate_order() -> spec_fn(u64, u64) -> bool {
    |x: u64, y: u64| x >= y
}

/// `rate_order` is a total ordering, so sorting by it is well defined and
/// any two descending-sorted permutations of the same values are equal.
pub proof fn lemma_rate_order_total()
    ensures
        total_ordering(rate_order()),
{
}

/// The values of `s`, reordered descending.
pub open spec fn sort_desc(s: Seq<u64>) -> Seq<u64> {
    s.sort_by(rate_order())
}

/// The `nth` highest value of `s`, 1-based: `nth_highest(s, 1)` is the
/// maximum.
pub open spec fn nth_highest(s: Seq<u64>, nth: int) -> u64 {
    sort_desc(s)[nth - 1]
}

/// What `sort_desc` yields: a descending-sorted sequence of the same values,
/// counted with multiplicity.
pub proof fn lemma_sort_desc_ensures(s: Seq<u64>)
    ensures
        sort_desc(s).to_multiset() == s.to_multiset(),
        sorted_by(sort_desc(s), rate_order()),
        sort_desc(s).len() == s.len(),
{
    broadcast use group_to_multiset_ensures;

    lemma_rate_order_total();
    s.lemma_sort_by_ensures(rate_order());
    assert(s.to_multiset().len() == s.len());
    assert(sort_desc(s).to_multiset().len() == sort_desc(s).len());
}

/// The selected rate is always one of the observed highs, never an
/// invented value.
pub proof fn lemma_nth_highest_is_observed(s: Seq<u64>, nth: int)
    requires
        1 <= nth <= s.len(),
    ensures
        s.contains(nth_highest(s, nth)),
{
    broadcast use group_to_multiset_ensures;

    lemma_sort_desc_ensures(s);
    let r = nth_highest(s, nth);
    assert(sort_desc(s)[nth - 1] == r);
    assert(sort_desc(s).contains(r));
    assert(sort_desc(s).to_multiset().count(r) > 0);
    assert(s.to_multiset().count(r) > 0);
}

/// What the 1-based rank means: the `nth` ranked values dominate the
/// selected one, and it dominates everything ranked at `nth` or below.
pub proof fn lemma_nth_highest_rank(s: Seq<u64>, nth: int)
    requires
        1 <= nth <= s.len(),
    ensures
        forall|i: int| 0 <= i < nth ==> sort_desc(s)[i] >= nth_highest(s, nth),
        forall|i: int| nth - 1 <= i < s.len() ==> sort_desc(s)[i] <= nth_highest(s, nth),
{
    lemma_sort_desc_ensures(s);
    assert forall|i: int| 0 <= i < nth implies sort_desc(s)[i] >= nth_highest(s, nth) by {
        if i < nth - 1 {
            assert(rate_order()(sort_desc(s)[i], sort_desc(s)[nth - 1]));
        }
    }
    assert forall|i: int| nth - 1 <= i < s.len() implies sort_desc(s)[i] <= nth_highest(
        s,
        nth,
    ) by {
        if nth - 1 < i {
            assert(rate_order()(sort_desc(s)[nth - 1], sort_desc(s)[i]));
        }
    }
}

/// Places `x` into the descending-sorted `v`, keeping it sorted.
fn sorted_insert(v: &mut Vec<u64>, x: u64)
    requires
        sorted_by(old(v)@, rate_order()),
    ensures
        sorted_by(final(v)@, rate_order()),
        final(v)@.to_multiset() == old(v)@.to_multiset().insert(x),
{
    let mut i: usize = 0;
    while i < v.len() && v[i] > x
        invariant
            v@ == old(v)@,
            i <= v@.len(),
            forall|j: int| 0 <= j < i ==> v@[j] > x,
        decreases v@.len() - i,
    {
        i = i + 1;
    }
    proof {
        broadcast use group_to_multiset_ensures;

        old(v)@.insert_ensures(i as int, x);
    }
    v.insert(i, x);
    assert(sorted_by(v@, rate_order())) by {
        assert forall|p: int, q: int| 0 <= p < q < v@.len() implies rate_order()(
            v@[p],
            v@[q],
        ) by {
            if q < i {
            } else if p < i && q == i {
                assert(v@[p] == old(v)@[p] && v@[p] > x);
            } else if p < i {
                assert(v@[p] == old(v)@[p] && v@[q] == old(v)@[q - 1]);
                assert(old(v)@[i as int] <= x);
            } else if p == i {
                assert(v@[q] == old(v)@[q - 1]);
                assert(i < old(v)@.len());
                assert(old(v)@[i as int] <= x);
                assert(rate_order()(old(v)@[i as int], old(v)@[q - 1]));
            } else {
                assert(v@[p] == old(v)@[p - 1] && v@[q] == old(v)@[q - 1]);
            }
        }
    }
}

/// Orders the values of `highs` descending.
pub fn sort_rates_desc(highs: &Vec<u64>) -> (r: Vec<u64>)
    ensures
        r@ == sort_desc(highs@),
{
    let mut acc: Vec<u64> = Vec::new();
    let mut i: usize = 0;
    proof {
        assert(highs@.subrange(0, 0) =~= Seq::<u64>::empty());
    }
    while i < highs.len()
        invariant
            i <= highs@.len(),
            sorted_by(acc@, rate_order()),
            acc@.to_multiset() == highs@.subrange(0, i as int).to_multiset(),
        decreases highs@.len() - i,
    {
        sorted_insert(&mut acc, highs[i]);
        proof {
            broadcast use group_to_multiset_ensures;

            assert(highs@.subrange(0, i + 1) =~= highs@.subrange(0, i as int).push(
                highs@[i as int],
            ));
        }
        i = i + 1;
    }
    proof {
        assert(highs@.subrange(0, highs@.len() as int) =~= highs@);
        lemma_sort_desc_ensures(highs@);
        lemma_rate_order_total();
        lemma_sorted_unique(acc@, sort_desc(highs@), rate_order());
    }
    acc
}

/// The highs of a candle sequence, in fetch order.
pub open spec fn highs_of(candles: Seq<Candle>) -> Seq<u64> {
    candles.map_values(|c: Candle| c.high)
}

/// What rate discovery yields on a fetched candle set: too short a history
/// is rejected, otherwise the high of the given 1-based rank is selected.
pub open spec fn discovered_rate(candles: Seq<Candle>, nth: int) -> Result<u64, EvalError> {
    if candles.len() < nth {
        Err(EvalError::InsufficientData)
    } else {
        Ok(nth_highest(highs_of(candles), nth))
    }
}

/// Selects the `nth_highest_candle`-ranked high of the fetched candles;
/// fails when fewer candles came back than the rank needs.
pub fn discover_rate(candles: &Vec<Candle>, nth_highest_candle: usize) -> (r: Result<
    u64,
    EvalError,
>)
    requires
        nth_highest_candle >= 1,
    ensures
        r == discovered_rate(candles@, nth_highest_candle as int),
{
    if candles.len() < nth_highest_candle {
        return Err(EvalError::InsufficientData);
    }
    let mut highs: Vec<u64> = Vec::new();
    let mut i: usize = 0;
    while i < candles.len()
        invariant
            i <= candles@.len(),
            highs@ == highs_of(candles@.subrange(0, i as int)),
        decreases candles@.len() - i,
    {
        highs.push(candles[i].high);
        proof {
            assert(highs_of(candles@.subrange(0, i + 1)) =~= highs_of(
                candles@.subrange(0, i as int),
            ).push(candles@[i as int].high));
        }
        i = i + 1;
    }
    proof {
        assert(candles@.subrange(0, candles@.len() as int) =~= candles@);
        lemma_sort_desc_ensures(highs@);
    }
    let sorted = sort_rates_desc(&highs);
    Ok(sorted[nth_highest_candle - 1])
}

} // verus!
