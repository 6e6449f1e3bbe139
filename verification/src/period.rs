use vstd::prelude::*;
use vstd::arithmetic::div_mod::{
    lemma_fundamental_div_mod, lemma_fundamental_div_mod_converse, lemma_div_is_ordered,
    lemma_div_pos_is_pos,
};
use vstd::arithmetic::mul::{lemma_mul_inequality, lemma_mul_is_commutative};

verus! {

/// Number of period slots of length `period` needed to cover `duration`
/// seconds: the duration divided by the period, rounded up.
pub open spec fn spec_period_slots(duration: int, period: int) -> int {
    duration / period + if duration % period == 0 { 0int } else { 1int }
}

/// Index of the period that `elapsed` seconds after the start fall into.
pub open spec fn spec_period_index(elapsed: int, period: int) -> int {
    elapsed / period
}

/// The number of period slots until expiry, rounded up.
pub fn period_slots(duration: u64, period: u64) -> (slots: u64)
    requires
        period > 0,
    ensures
        slots == spec_period_slots(duration as int, period as int),
{
    let whole: u64 = duration / period;
    if duration % period == 0 {
        whole
    } else {
        proof {
            lemma_fundamental_div_mod(duration as int, period as int);
            lemma_whole_periods_bound(duration as int, period as int);
        }
        whole + 1
    }
}

proof fn lemma_whole_periods_bound(d: int, p: int)
    requires
        d >= 0,
        p > 0,
        d % p != 0,
    ensures
        d / p < d,
{
    lemma_fundamental_div_mod(d, p);
    if d / p >= d {
        lemma_mul_inequality(1, p, d / p);
        lemma_mul_is_commutative(p, d / p);
    }
}

/// A covering: the slots span the whole duration, and one slot fewer would
/// not.
pub proof fn lemma_period_slots_cover(d: int, p: int)
    requires
        d >= 0,
        p > 0,
    ensures
        spec_period_slots(d, p) >= 0,
        p * spec_period_slots(d, p) >= d,
        p * (spec_period_slots(d, p) - 1) < d || d == 0,
        d > 0 ==> spec_period_slots(d, p) >= 1,
{
    lemma_fundamental_div_mod(d, p);
    lemma_div_pos_is_pos(d, p);
    assert(p * (d / p + 1) == p * (d / p) + p) by (nonlinear_arith);
    assert(p * (d / p - 1) == p * (d / p) - p) by (nonlinear_arith);
}

/// Any moment strictly before the end of a duration falls into one of its
/// period slots.
pub proof fn lemma_index_below_slots(x: int, d: int, p: int)
    requires
        0 <= x < d,
        p > 0,
    ensures
        0 <= spec_period_index(x, p) < spec_period_slots(d, p),
{
    lemma_div_is_ordered(x, d, p);
    lemma_div_pos_is_pos(x, p);
    if d % p == 0 {
        lemma_fundamental_div_mod(d, p);
        lemma_fundamental_div_mod(x, p);
        if x / p >= d / p {
            lemma_mul_inequality(d / p, x / p, p);
            lemma_mul_is_commutative(p, x / p);
            lemma_mul_is_commutative(p, d / p);
        }
    }
}

/// The slots are the duration divided by the period, rounded up:
/// `(d + p - 1) / p`.
pub proof fn lemma_period_slots_is_ceiling(d: int, p: int)
    requires
        d >= 0,
        p > 0,
    ensures
        spec_period_slots(d, p) == (d + p - 1) / p,
{
    lemma_fundamental_div_mod(d, p);
    let q = d / p;
    let r = d % p;
    assert(p * q == q * p) by (nonlinear_arith);
    if r == 0 {
        lemma_fundamental_div_mod_converse(d + p - 1, p, q, p - 1);
    } else {
        assert((q + 1) * p == q * p + p) by (nonlinear_arith);
        assert(p * q == q * p) by (nonlinear_arith);
        lemma_fundamental_div_mod_converse(d + p - 1, p, q + 1, r - 1);
    }
}

} // verus!
