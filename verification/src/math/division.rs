use vstd::arithmetic::div_mod::{
    lemma_div_is_ordered,
    lemma_fundamental_div_mod,
    lemma_mod_pos_bound,
};
use vstd::arithmetic::mul::lemma_mul_is_commutative;
use vstd::prelude::*;

verus! {

/// A quotient rounded down, times the divisor, is the largest multiple of
/// the divisor at or below the dividend.
pub proof fn lemma_floor_bounds(x: int, d: int)
    requires
        0 <= x,
        0 < d,
    ensures
        0 <= x / d,
        (x / d) * d <= x < (x / d) * d + d,
{
    lemma_fundamental_div_mod(x, d);
    lemma_mod_pos_bound(x, d);
    lemma_mul_is_commutative(d, x / d);
    if x / d < 0 {
        assert((x / d) * d <= -d) by (nonlinear_arith)
            requires
                x / d <= -1,
                d > 0,
        ;
    }
}

/// Whatever is at most `a` times the divisor has a quotient of at most `a`.
pub proof fn lemma_floor_at_most(x: int, d: int, a: int)
    requires
        0 <= x,
        0 < d,
        x <= a * d,
    ensures
        x / d <= a,
{
    lemma_floor_bounds(x, d);
    if x / d > a {
        assert((x / d) * d >= a * d + d) by (nonlinear_arith)
            requires
                x / d >= a + 1,
                d > 0,
        ;
    }
}

/// Whatever is below `a` times the divisor has a quotient below `a`.
pub proof fn lemma_floor_below(x: int, d: int, a: int)
    requires
        0 <= x,
        0 < d,
        x < a * d,
    ensures
        x / d < a,
{
    lemma_floor_bounds(x, d);
    if x / d >= a {
        assert((x / d) * d >= a * d) by (nonlinear_arith)
            requires
                x / d >= a,
                d > 0,
        ;
    }
}

/// Whatever is at most `a` times the divisor has a quotient, rounded up, of
/// at most `a`.
pub proof fn lemma_ceil_at_most(x: int, d: int, a: int)
    requires
        0 <= x,
        0 < d,
        x <= a * d,
    ensures
        (x + d - 1) / d <= a,
{
    assert((a + 1) * d == a * d + d) by (nonlinear_arith);
    lemma_floor_below(x + d - 1, d, a + 1);
}

/// A quotient rounded up times the divisor reaches the dividend.
pub proof fn lemma_ceil_reaches(x: int, d: int)
    requires
        0 <= x,
        0 < d,
    ensures
        ((x + d - 1) / d) * d >= x,
        x / d <= (x + d - 1) / d,
{
    lemma_floor_bounds(x + d - 1, d);
    lemma_div_is_ordered(x, x + d - 1, d);
}

/// Rounding down and rounding up both keep the order of the dividends.
pub proof fn lemma_quotients_ordered(x: int, y: int, d: int)
    requires
        0 <= x <= y,
        0 < d,
    ensures
        x / d <= y / d,
        (x + d - 1) / d <= (y + d - 1) / d,
        x / d <= (y + d - 1) / d,
{
    lemma_div_is_ordered(x, y, d);
    lemma_div_is_ordered(x + d - 1, y + d - 1, d);
    lemma_div_is_ordered(x, y + d - 1, d);
}

} // verus!
