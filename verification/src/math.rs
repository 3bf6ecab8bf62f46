use vstd::prelude::*;
use vstd::arithmetic::div_mod::{
    lemma_div_is_ordered, lemma_div_pos_is_pos, lemma_fundamental_div_mod,
    lemma_fundamental_div_mod_converse,
};
use vstd::arithmetic::mul::{lemma_mul_inequality, lemma_mul_is_commutative, lemma_mul_nonnegative};

verus! {

/// Sum of a sequence of balances, as an unbounded integer.
pub open spec fn sum(s: Seq<u64>) -> int
    decreases s.len(),
{
    if s.len() == 0 {
        0
    } else {
        sum(s.drop_last()) + s.last()
    }
}

pub proof fn lemma_sum_nonneg(s: Seq<u64>)
    ensures
        sum(s) >= 0,
    decreases s.len(),
{
    if s.len() > 0 {
        lemma_sum_nonneg(s.drop_last());
    }
}

/// Replacing one element changes the sum by the difference of the elements.
pub proof fn lemma_sum_update(s: Seq<u64>, i: int, v: u64)
    requires
        0 <= i < s.len(),
    ensures
        sum(s.update(i, v)) == sum(s) - s[i] + v,
    decreases s.len(),
{
    if i == s.len() - 1 {
        assert(s.update(i, v).drop_last() =~= s.drop_last());
    } else {
        lemma_sum_update(s.drop_last(), i, v);
        assert(s.update(i, v).drop_last() =~= s.drop_last().update(i, v));
    }
}

/// Every element is bounded by the sum of the whole sequence.
pub proof fn lemma_sum_elem(s: Seq<u64>, i: int)
    requires
        0 <= i < s.len(),
    ensures
        s[i] <= sum(s),
    decreases s.len(),
{
    lemma_sum_nonneg(s.drop_last());
    if i < s.len() - 1 {
        lemma_sum_elem(s.drop_last(), i);
    }
}

/// Two distinct elements together are bounded by the sum of the whole
/// sequence.
pub proof fn lemma_sum_pair(s: Seq<u64>, i: int, j: int)
    requires
        0 <= i < s.len(),
        0 <= j < s.len(),
        i != j,
    ensures
        s[i] + s[j] <= sum(s),
    decreases s.len(),
{
    if j == s.len() - 1 {
        lemma_sum_elem(s.drop_last(), i);
    } else if i == s.len() - 1 {
        lemma_sum_elem(s.drop_last(), j);
    } else {
        lemma_sum_pair(s.drop_last(), i, j);
    }
}

/// Appending an element adds it to the sum.
pub proof fn lemma_sum_push(s: Seq<u64>, v: u64)
    ensures
        sum(s.push(v)) == sum(s) + v,
{
    assert(s.push(v).drop_last() =~= s);
}

/// `floor(a * b / d)` lies between 0 and `a` whenever `b <= d`.
pub proof fn lemma_muldiv_le(a: int, b: int, d: int)
    requires
        0 <= a,
        0 <= b <= d,
        0 < d,
    ensures
        0 <= a * b / d <= a,
{
    lemma_mul_nonnegative(a, b);
    lemma_div_pos_is_pos(a * b, d);
    lemma_mul_inequality(b, d, a);
    lemma_mul_is_commutative(b, a);
    lemma_mul_is_commutative(d, a);
    lemma_div_is_ordered(a * b, a * d, d);
    assert(a * d / d == a) by (nonlinear_arith)
        requires
            0 < d,
    ;
}

/// `floor` division is monotone in the numerator product: growing the
/// factor `b` cannot shrink the quotient.
pub proof fn lemma_muldiv_mono(a: int, b1: int, b2: int, d: int)
    requires
        0 <= a,
        0 <= b1 <= b2,
        0 < d,
    ensures
        a * b1 / d <= a * b2 / d,
{
    lemma_mul_inequality(b1, b2, a);
    lemma_mul_is_commutative(b1, a);
    lemma_mul_is_commutative(b2, a);
    lemma_div_is_ordered(a * b1, a * b2, d);
}

/// Doubling the numerator doubles the quotient, up to one unit of
/// integer rounding.
pub proof fn lemma_div_double(x: int, d: int)
    requires
        0 <= x,
        0 < d,
    ensures
        2 * (x / d) <= (2 * x) / d,
        (2 * x) / d <= 2 * (x / d) + 1,
{
    let q = x / d;
    let r = x % d;
    lemma_fundamental_div_mod(x, d);
    if 2 * r < d {
        assert(2 * x == (2 * q) * d + 2 * r) by (nonlinear_arith)
            requires
                x == d * q + r,
        ;
        lemma_fundamental_div_mod_converse(2 * x, d, 2 * q, 2 * r);
    } else {
        assert(2 * x == (2 * q + 1) * d + (2 * r - d)) by (nonlinear_arith)
            requires
                x == d * q + r,
        ;
        lemma_fundamental_div_mod_converse(2 * x, d, 2 * q + 1, 2 * r - d);
    }
}

} // verus!
