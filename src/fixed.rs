use vstd::prelude::*;
use vstd::arithmetic::div_mod::{
    lemma_div_basics,
    lemma_div_by_multiple,
    lemma_div_is_ordered,
    lemma_div_is_ordered_by_denominator,
    lemma_div_pos_is_pos,
};

verus! {

/// Fixed-point one: a value `v` stands for `v / ONE`.
pub const ONE: i64 = 1024;

/// Integer division rounding toward zero, as Rust's `/` does, by a positive divisor.
pub open spec fn div_trunc(a: int, b: int) -> int {
    if a >= 0 {
        a / b
    } else {
        -((-a) / b)
    }
}

pub open spec fn clamp_unit(v: int) -> int {
    if v > ONE {
        ONE as int
    } else if v < -ONE {
        -ONE
    } else {
        v
    }
}

pub fn div_trunc_i64(a: i64, b: i64) -> (r: i64)
    requires
        b > 0,
        a > i64::MIN,
    ensures
        r == div_trunc(a as int, b as int),
{
    if a >= 0 {
        let q: u64 = (a as u64) / (b as u64);
        q as i64
    } else {
        let q: u64 = ((-a) as u64) / (b as u64);
        -(q as i64)
    }
}

/// A quotient by a positive divisor is no larger in magnitude than `m` when
/// the dividend is at most `m` divisors in magnitude.
pub proof fn lemma_div_trunc_bound(a: int, b: int, m: int)
    requires
        b > 0,
        0 <= m,
        -(m * b) <= a <= m * b,
    ensures
        -m <= div_trunc(a, b) <= m,
{
    lemma_div_by_multiple(m, b);
    if a >= 0 {
        lemma_div_is_ordered(a, m * b, b);
        lemma_div_pos_is_pos(a, b);
    } else {
        lemma_div_is_ordered(-a, m * b, b);
        lemma_div_pos_is_pos(-a, b);
    }
}

/// A quotient by a positive divisor is no larger in magnitude than the dividend.
pub proof fn lemma_div_trunc_shrinks(a: int, b: int)
    requires
        b >= 1,
    ensures
        -a <= div_trunc(a, b) <= a || a <= div_trunc(a, b) <= -a,
        a >= 0 ==> 0 <= div_trunc(a, b) <= a,
        a < 0 ==> a <= div_trunc(a, b) <= 0,
{
    lemma_div_basics(a);
    lemma_div_basics(-a);
    if a >= 0 {
        lemma_div_is_ordered_by_denominator(a, 1, b);
        lemma_div_pos_is_pos(a, b);
    } else {
        lemma_div_is_ordered_by_denominator(-a, 1, b);
        lemma_div_pos_is_pos(-a, b);
    }
}

/// Rounding toward zero commutes with negation.
pub proof fn lemma_div_trunc_neg(a: int, b: int)
    requires
        b > 0,
    ensures
        div_trunc(-a, b) == -div_trunc(a, b),
{
    lemma_div_basics(b);
    if a == 0 {
        assert(0int / b == 0);
    }
}

/// Magnitude of a product from the magnitudes of its factors.
pub proof fn lemma_mul_within(a: int, b: int, x: int, y: int)
    requires
        -x <= a <= x,
        -y <= b <= y,
    ensures
        -(x * y) <= a * b <= x * y,
{
    assert(-(x * y) <= a * b <= x * y) by (nonlinear_arith)
        requires
            -x <= a <= x,
            -y <= b <= y,
    ;
}

} // verus!
