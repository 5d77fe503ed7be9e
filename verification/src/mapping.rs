//! Linear range mapping: carries a value from one inclusive interval onto
//! another by linear interpolation, the transformation at the heart of the
//! status bar (progress within `[min, max]` becomes a percentage in `[0, 100]`).

use vstd::prelude::*;

verus! {

/// Largest magnitude a mapped value may have. Keeping every endpoint and
/// input inside `[-VAL_LIMIT, VAL_LIMIT]` guarantees that the intermediate
/// products of the interpolation fit in an `i64`.
pub const VAL_LIMIT: i64 = 1_000_000_000;

/// Whether `x` lies within the machine bound accepted by `map_range`.
pub open spec fn in_val_range(x: int) -> bool {
    -(VAL_LIMIT as int) <= x <= VAL_LIMIT as int
}

/// Integer division rounding toward zero (for a positive divisor), the
/// rounding the executable interpolation performs.
pub open spec fn div_trunc(n: int, m: int) -> int
    recommends
        m > 0,
{
    if n >= 0 {
        n / m
    } else {
        -((-n) / m)
    }
}

/// The linear mapping of `x` from the interval `[a, b]` onto `[c, d]`:
/// `c + (x - a) * (d - c) / (b - a)`, rounded toward zero.
/// No clamping is applied: an `x` outside `[a, b]` maps outside `[c, d]`.
pub open spec fn map_range_spec(x: int, a: int, b: int, c: int, d: int) -> int
    recommends
        a < b,
{
    c + div_trunc((x - a) * (d - c), b - a)
}

/// Maps `value` from the interval `from` onto the interval `to` by linear
/// interpolation, rounding toward zero. Out-of-interval inputs are mapped
/// linearly as well, not clamped.
pub fn map_range(value: i64, from: (i64, i64), to: (i64, i64)) -> (r: i64)
    requires
        in_val_range(value as int),
        in_val_range(from.0 as int),
        in_val_range(from.1 as int),
        in_val_range(to.0 as int),
        in_val_range(to.1 as int),
        from.0 < from.1,
    ensures
        r as int == map_range_spec(value as int, from.0 as int, from.1 as int, to.0 as int, to.1 as int),
{
    let (a, b) = from;
    let (c, d) = to;
    let dx: i64 = value - a;
    let dd: i64 = d - c;
    let den: i64 = b - a;
    proof {
        assert(-4_000_000_000_000_000_000 <= dx * dd <= 4_000_000_000_000_000_000) by (nonlinear_arith)
            requires
                -2_000_000_000 <= dx <= 2_000_000_000,
                -2_000_000_000 <= dd <= 2_000_000_000;
    }
    let num: i64 = dx * dd;
    let q: i64 = if num >= 0 {
        proof {
            vstd::arithmetic::div_mod::lemma_div_pos_is_pos(num as int, den as int);
            vstd::arithmetic::div_mod::lemma_div_is_ordered_by_denominator(num as int, 1, den as int);
            vstd::arithmetic::div_mod::lemma_div_basics(num as int);
        }
        num / den
    } else {
        let neg: i64 = -num;
        proof {
            vstd::arithmetic::div_mod::lemma_div_pos_is_pos(neg as int, den as int);
            vstd::arithmetic::div_mod::lemma_div_is_ordered_by_denominator(neg as int, 1, den as int);
            vstd::arithmetic::div_mod::lemma_div_basics(neg as int);
        }
        -(neg / den)
    };
    c + q
}

/// Truncating division by a positive divisor is monotone in the numerator.
pub proof fn lemma_div_trunc_ordered(n1: int, n2: int, m: int)
    requires
        m > 0,
        n1 <= n2,
    ensures
        div_trunc(n1, m) <= div_trunc(n2, m),
{
    if n1 >= 0 {
        vstd::arithmetic::div_mod::lemma_div_is_ordered(n1, n2, m);
    } else if n2 < 0 {
        vstd::arithmetic::div_mod::lemma_div_is_ordered(-n2, -n1, m);
    } else {
        vstd::arithmetic::div_mod::lemma_div_pos_is_pos(-n1, m);
        vstd::arithmetic::div_mod::lemma_div_pos_is_pos(n2, m);
    }
}

/// Truncating division cancels an exact multiple: `(m * k) / m == k` for `m > 0`.
pub proof fn lemma_div_trunc_multiples_vanish(k: int, m: int)
    requires
        m > 0,
    ensures
        div_trunc(m * k, m) == k,
{
    if k >= 0 {
        vstd::arithmetic::mul::lemma_mul_nonnegative(m, k);
        vstd::arithmetic::div_mod::lemma_div_multiples_vanish(k, m);
    } else {
        assert(m * k < 0) by (nonlinear_arith)
            requires
                m > 0,
                k < 0,
        ;
        assert(-(m * k) == m * (-k)) by (nonlinear_arith);
        vstd::arithmetic::div_mod::lemma_div_multiples_vanish(-k, m);
    }
}

/// Law: the mapping is exact at both interval endpoints. Mapping `a` from
/// `[a, b]` onto `[c, d]` gives exactly `c`, and mapping `b` gives exactly `d`.
pub proof fn lemma_map_range_endpoints(a: int, b: int, c: int, d: int)
    requires
        a < b,
    ensures
        map_range_spec(a, a, b, c, d) == c,
        map_range_spec(b, a, b, c, d) == d,
{
    let m = b - a;
    assert((a - a) * (d - c) == 0) by (nonlinear_arith);
    assert(div_trunc(0, m) == 0) by {
        vstd::arithmetic::div_mod::lemma_div_basics(m);
    }
    lemma_div_trunc_multiples_vanish(d - c, m);
}

/// Law: for an ordered source interval and an ordered target interval, the
/// mapping is monotone in its input.
pub proof fn lemma_map_range_monotonic(x1: int, x2: int, a: int, b: int, c: int, d: int)
    requires
        a < b,
        c < d,
        x1 <= x2,
    ensures
        map_range_spec(x1, a, b, c, d) <= map_range_spec(x2, a, b, c, d),
{
    vstd::arithmetic::mul::lemma_mul_inequality(x1 - a, x2 - a, d - c);
    lemma_div_trunc_ordered((x1 - a) * (d - c), (x2 - a) * (d - c), b - a);
}

} // verus!
