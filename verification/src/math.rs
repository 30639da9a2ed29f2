//! Saturating arithmetic, integer square roots and the pricing helpers of the exchanges.
use vstd::prelude::*;

verus! {

/// Basis-point denominator: 10 000 bips make a whole.
pub const BIPS_DENOMINATOR: u128 = 10_000;

/// Fixed-point precision of liquidity-reward indices.
pub const REWARD_PRECISION: u128 = 1_000_000_000;

/// `a * b`, or `u128::MAX` when the product does not fit.
pub open spec fn smul(a: u128, b: u128) -> u128 {
    if a * b > u128::MAX {
        u128::MAX
    } else {
        (a * b) as u128
    }
}

/// `a / b`, or 0 when `b` is 0.
pub open spec fn sdiv(a: u128, b: u128) -> u128 {
    if b == 0 {
        0
    } else {
        a / b
    }
}

/// `a + b`, or `u128::MAX` when the sum does not fit.
pub open spec fn sadd(a: u128, b: u128) -> u128 {
    if a + b > u128::MAX {
        u128::MAX
    } else {
        (a + b) as u128
    }
}

/// `a - b`, or 0 when `b > a`.
pub open spec fn ssub(a: u128, b: u128) -> u128 {
    if a < b {
        0
    } else {
        (a - b) as u128
    }
}

/// `|a - b|`.
pub open spec fn sabs_diff(a: u128, b: u128) -> u128 {
    if a < b {
        (b - a) as u128
    } else {
        (a - b) as u128
    }
}

/// Saturating multiplication.
pub fn sat_mul(a: u128, b: u128) -> (r: u128)
    ensures
        r == smul(a, b),
{
    match a.checked_mul(b) {
        Some(p) => p,
        None => u128::MAX,
    }
}

/// Division that yields 0 for a zero divisor.
pub fn div_or_zero(a: u128, b: u128) -> (r: u128)
    ensures
        r == sdiv(a, b),
{
    if b == 0 {
        0
    } else {
        a / b
    }
}

/// Saturating addition.
pub fn sat_add(a: u128, b: u128) -> (r: u128)
    ensures
        r == sadd(a, b),
{
    a.saturating_add(b)
}

/// Saturating subtraction.
pub fn sat_sub(a: u128, b: u128) -> (r: u128)
    ensures
        r == ssub(a, b),
{
    a.saturating_sub(b)
}

/// Absolute difference.
pub fn abs_diff(a: u128, b: u128) -> (r: u128)
    ensures
        r == sabs_diff(a, b),
{
    if a < b {
        b - a
    } else {
        a - b
    }
}

/// `r` is the integer square root of `n`, rounded down.
pub open spec fn is_floor_sqrt(r: int, n: int) -> bool {
    r * r <= n < (r + 1) * (r + 1)
}

/// The integer square root of `n`, rounded down (for `n >= 0`).
pub open spec fn floor_sqrt(n: int) -> int {
    choose|r: int| r >= 0 && is_floor_sqrt(r, n)
}

/// A root that satisfies the definition is the one `floor_sqrt` names.
pub proof fn lemma_floor_sqrt_is(r: int, n: int)
    requires
        r >= 0,
        is_floor_sqrt(r, n),
    ensures
        floor_sqrt(n) == r,
{
    let c = floor_sqrt(n);
    assert(c >= 0 && is_floor_sqrt(c, n));
    lemma_floor_sqrt_unique(c, r, n);
}

/// The floor square root is unique.
pub proof fn lemma_floor_sqrt_unique(r1: int, r2: int, n: int)
    requires
        r1 >= 0,
        r2 >= 0,
        is_floor_sqrt(r1, n),
        is_floor_sqrt(r2, n),
    ensures
        r1 == r2,
{
    if r1 < r2 {
        assert((r1 + 1) * (r1 + 1) <= r2 * r2) by (nonlinear_arith)
            requires
                r1 + 1 <= r2,
                r1 >= 0,
        ;
    } else if r2 < r1 {
        assert((r2 + 1) * (r2 + 1) <= r1 * r1) by (nonlinear_arith)
            requires
                r2 + 1 <= r1,
                r2 >= 0,
        ;
    }
}

proof fn lemma_div_bounds(n: int, x: int)
    requires
        n >= 0,
        x > 0,
    ensures
        x * (n / x) <= n < x * (n / x + 1),
        n / x >= 0,
{
    vstd::arithmetic::div_mod::lemma_fundamental_div_mod(n, x);
    vstd::arithmetic::div_mod::lemma_mod_pos_bound(n, x);
    vstd::arithmetic::div_mod::lemma_div_pos_is_pos(n, x);
    assert(x * (n / x + 1) == x * (n / x) + x) by (nonlinear_arith);
}

/// One Newton step from an over-estimate stays an over-estimate, and strictly
/// decreases while the estimate is too large.
proof fn lemma_newton_step(n: int, x: int)
    requires
        n > 0,
        x > 0,
        (x + 1) * (x + 1) > n,
    ensures
        ((x + n / x) / 2 + 1) * ((x + n / x) / 2 + 1) > n,
        (x + n / x) / 2 >= 1,
        x * x > n ==> (x + n / x) / 2 < x,
{
    let q = n / x;
    lemma_div_bounds(n, x);
    let y = (x + q) / 2;
    assert(2 * (y + 1) >= x + q + 1);
    assert(4 * ((y + 1) * (y + 1)) >= (x + q + 1) * (x + q + 1)) by (nonlinear_arith)
        requires
            2 * (y + 1) >= x + q + 1,
            x + q + 1 >= 0,
    ;
    assert((x + q + 1) * (x + q + 1) >= 4 * (x * (q + 1))) by (nonlinear_arith);
    assert(x * (q + 1) > n);
    assert((y + 1) * (y + 1) > n);
    if y == 0 {
        assert(n < 1);
    }
    if x * x > n {
        if q >= x {
            assert(x * q >= x * x) by (nonlinear_arith)
                requires
                    q >= x,
                    x > 0,
            ;
        }
        assert(q < x);
    }
}

/// When an over-estimate no longer decreases it is the floor square root.
proof fn lemma_newton_stop(n: int, x: int)
    requires
        n > 0,
        x > 0,
        (x + 1) * (x + 1) > n,
        (x + n / x) / 2 >= x,
    ensures
        is_floor_sqrt(x, n),
{
    lemma_newton_step(n, x);
}

/// The sum `x + n / x` of a Newton step fits in 128 bits.
proof fn lemma_newton_sum_fits(n: int, x: int)
    requires
        0 < n <= u128::MAX,
        x > 0,
        (x + 1) * (x + 1) > n,
        2 * x <= n + 1,
    ensures
        x + n / x <= u128::MAX,
{
    lemma_div_bounds(n, x);
    if x >= 2 {
        vstd::arithmetic::div_mod::lemma_div_is_ordered_by_denominator(n, 2, x);
        assert(n / x <= n / 2);
    } else {
        assert(x == 1);
        assert((x + 1) * (x + 1) == 4) by (nonlinear_arith)
            requires
                x == 1,
        ;
        assert(n <= 3);
        assert(n / 1 == n);
    }
}

/// Integer square root by Newton's method started from `value / 2`, rounded down.
pub fn integer_sqrt(value: u128) -> (r: u128)
    ensures
        is_floor_sqrt(r as int, value as int),
        r == floor_sqrt(value as int),
{
    if value <= 1 {
        assert(value * value == value && (value + 1) * (value + 1) > value) by (nonlinear_arith)
            requires
                value <= 1,
        ;
        proof {
            lemma_floor_sqrt_is(value as int, value as int);
        }
        return value;
    }
    let mut x0: u128 = value / 2;
    proof {
        let v = value as int;
        let h = x0 as int;
        assert(2 * (h + 1) >= v + 1);
        assert(4 * ((h + 1) * (h + 1)) >= (v + 1) * (v + 1)) by (nonlinear_arith)
            requires
                2 * (h + 1) >= v + 1,
                v >= 0,
        ;
        assert((v + 1) * (v + 1) > 4 * v) by (nonlinear_arith)
            requires
                v >= 2,
        ;
        lemma_newton_sum_fits(v, h);
    }
    let mut x1: u128 = (x0 + value / x0) / 2;
    while x1 < x0
        invariant
            value >= 2,
            x0 > 0,
            2 * x0 <= value,
            (x0 + 1) * (x0 + 1) > value,
            x1 == (x0 + value / x0) / 2,
        decreases x0,
    {
        proof {
            lemma_newton_step(value as int, x0 as int);
        }
        x0 = x1;
        proof {
            lemma_newton_sum_fits(value as int, x0 as int);
        }
        x1 = (x0 + value / x0) / 2;
    }
    proof {
        lemma_newton_stop(value as int, x0 as int);
        lemma_floor_sqrt_is(x0 as int, value as int);
    }
    x0
}

/// Integer square root by Newton's method started from `n`, rounded down.
pub fn isqrt(n: u128) -> (r: u128)
    requires
        n < u128::MAX,
    ensures
        is_floor_sqrt(r as int, n as int),
        r == floor_sqrt(n as int),
{
    if n == 0 {
        proof {
            lemma_floor_sqrt_is(0, 0);
        }
        return 0;
    }
    let mut x: u128 = n;
    let mut y: u128 = (x + 1) / 2;
    proof {
        vstd::arithmetic::div_mod::lemma_div_by_self(n as int);
        assert((n + 1) * (n + 1) > n) by (nonlinear_arith)
            requires
                n >= 1,
        ;
    }
    while y < x
        invariant
            n > 0,
            n < u128::MAX,
            0 < x <= n,
            x == n || 2 * x <= n + 1,
            x == n ==> y == (n + 1) / 2,
            (x + 1) * (x + 1) > n,
            y == (x + n / x) / 2,
        decreases x,
    {
        proof {
            lemma_newton_step(n as int, x as int);
        }
        x = y;
        proof {
            lemma_newton_sum_fits(n as int, x as int);
        }
        y = (x + n / x) / 2;
    }
    proof {
        lemma_newton_stop(n as int, x as int);
        lemma_floor_sqrt_is(x as int, n as int);
    }
    x
}

/// The two square-root routines agree wherever both apply.
pub proof fn lemma_sqrt_routines_agree(n: u128, a: u128, b: u128)
    requires
        is_floor_sqrt(a as int, n as int),
        is_floor_sqrt(b as int, n as int),
    ensures
        a == b,
{
    lemma_floor_sqrt_unique(a as int, b as int, n as int);
}

/// The weighted mean `(a*wa + b*wb) / (wa + wb)` with saturating products.
pub open spec fn spec_weighted_average(a: u128, b: u128, a_weight: u128, b_weight: u128) -> u128 {
    if a_weight + b_weight == 0 {
        0
    } else {
        sdiv(sadd(smul(a, a_weight), smul(b, b_weight)), (a_weight + b_weight) as u128)
    }
}

/// Weighted average of two prices; 0 when both weights are 0.
pub fn weighted_average(a: u128, b: u128, a_weight: u128, b_weight: u128) -> (r: u128)
    requires
        a_weight + b_weight <= u128::MAX,
    ensures
        r == spec_weighted_average(a, b, a_weight, b_weight),
{
    if a_weight + b_weight == 0 {
        return 0;
    }
    div_or_zero(sat_add(sat_mul(a, a_weight), sat_mul(b, b_weight)), a_weight + b_weight)
}

/// A weighted average of two equal values is that value, as long as no product saturates.
pub proof fn lemma_weighted_average_of_equal(a: u128, wa: u128, wb: u128)
    requires
        wa + wb > 0,
        wa + wb <= u128::MAX,
        a * wa + a * wb <= u128::MAX,
    ensures
        spec_weighted_average(a, a, wa, wb) == a,
{
    assert(a * wa <= u128::MAX && a * wb <= u128::MAX) by (nonlinear_arith)
        requires
            a * wa + a * wb <= u128::MAX,
            a >= 0,
            wa >= 0,
            wb >= 0,
    ;
    assert(a * wa + a * wb == a * (wa + wb)) by (nonlinear_arith);
    vstd::arithmetic::div_mod::lemma_div_multiples_vanish(a as int, (wa + wb) as int);
    assert((wa + wb) * a == a * (wa + wb)) by (nonlinear_arith);
}

/// Rewards accrued since `reward_debt` at the current `reward_index`.
pub open spec fn spec_pending_from_indices(lp_shares: u128, reward_index: u128, reward_debt: u128) -> u128 {
    ssub(smul(lp_shares, reward_index) / REWARD_PRECISION, reward_debt)
}

/// Rewards owed to `lp_shares` at `reward_index`, less what was already accounted.
pub fn pending_from_indices(lp_shares: u128, reward_index: u128, reward_debt: u128) -> (r: u128)
    ensures
        r == spec_pending_from_indices(lp_shares, reward_index, reward_debt),
{
    sat_sub(sat_mul(lp_shares, reward_index) / REWARD_PRECISION, reward_debt)
}

/// The reward debt of `lp_shares` at `reward_index`.
pub open spec fn spec_scaled_reward_debt(lp_shares: u128, reward_index: u128) -> u128 {
    smul(lp_shares, reward_index) / REWARD_PRECISION
}

/// Reward debt recorded for a position so that only later accruals count.
pub fn scaled_reward_debt(lp_shares: u128, reward_index: u128) -> (r: u128)
    ensures
        r == spec_scaled_reward_debt(lp_shares, reward_index),
{
    sat_mul(lp_shares, reward_index) / REWARD_PRECISION
}

/// A position whose debt was just set has nothing pending at the same index.
pub proof fn lemma_fresh_debt_has_nothing_pending(lp_shares: u128, reward_index: u128)
    ensures
        spec_pending_from_indices(
            lp_shares,
            reward_index,
            spec_scaled_reward_debt(lp_shares, reward_index),
        ) == 0,
{
}

/// Relative price move from `previous` to `current`, in bips, truncated to 32 bits;
/// 0 when either price is 0.
pub open spec fn spec_volatility_bips(previous: u128, current: u128) -> u32 {
    if previous == 0 || current == 0 {
        0
    } else {
        (smul(sabs_diff(previous, current), BIPS_DENOMINATOR) / previous) as u32
    }
}

/// Price volatility between two observations, in bips.
pub fn volatility_bips(previous: u128, current: u128) -> (r: u32)
    ensures
        r == spec_volatility_bips(previous, current),
{
    if previous == 0 || current == 0 {
        return 0;
    }
    let diff = abs_diff(previous, current);
    (sat_mul(diff, BIPS_DENOMINATOR) / previous) as u32
}

/// The pair with its smaller token first.
pub open spec fn spec_ordered_pair(base: u64, quote: u64) -> (u64, u64) {
    if base < quote {
        (base, quote)
    } else {
        (quote, base)
    }
}

/// Orders a token pair so that both orders map to the same key.
pub fn ordered_pair(base: u64, quote: u64) -> (r: (u64, u64))
    ensures
        r == spec_ordered_pair(base, quote),
{
    if base < quote {
        (base, quote)
    } else {
        (quote, base)
    }
}

/// A pair and its reverse have the same key.
pub proof fn lemma_ordered_pair_symmetric(a: u64, b: u64)
    ensures
        spec_ordered_pair(a, b) == spec_ordered_pair(b, a),
{
}

/// Proportional minting: `m`, the smaller of the floor quotients `⌊a·l / ra⌋` and
/// `⌊b·l / rb⌋` (each numerator saturating), is at most proportional on both sides, and
/// when neither numerator saturates, one more would exceed one of the two sides.
pub proof fn lemma_min_proportional(a: u128, ra: u128, b: u128, rb: u128, l: u128, m: u128)
    requires
        ra > 0,
        rb > 0,
        m == (if sdiv(smul(a, l), ra) <= sdiv(smul(b, l), rb) {
            sdiv(smul(a, l), ra)
        } else {
            sdiv(smul(b, l), rb)
        }),
    ensures
        m * ra <= a * l,
        m * rb <= b * l,
        a * l <= u128::MAX && b * l <= u128::MAX ==> (m + 1) * ra > a * l || (m + 1) * rb > b * l,
{
    let x = smul(a, l);
    let y = smul(b, l);
    let qa = x / ra;
    let qb = y / rb;
    vstd::arithmetic::div_mod::lemma_fundamental_div_mod(x as int, ra as int);
    vstd::arithmetic::div_mod::lemma_mod_pos_bound(x as int, ra as int);
    vstd::arithmetic::div_mod::lemma_fundamental_div_mod(y as int, rb as int);
    vstd::arithmetic::div_mod::lemma_mod_pos_bound(y as int, rb as int);
    assert(qa * ra <= x) by (nonlinear_arith)
        requires
            x == ra * qa + x % ra,
            x % ra >= 0,
    ;
    assert(qb * rb <= y) by (nonlinear_arith)
        requires
            y == rb * qb + y % rb,
            y % rb >= 0,
    ;
    assert((qa + 1) * ra > x) by (nonlinear_arith)
        requires
            x == ra * qa + x % ra,
            x % ra < ra,
    ;
    assert((qb + 1) * rb > y) by (nonlinear_arith)
        requires
            y == rb * qb + y % rb,
            y % rb < rb,
    ;
    assert(m * ra <= qa * ra) by (nonlinear_arith)
        requires
            m <= qa,
            ra > 0,
    ;
    assert(m * rb <= qb * rb) by (nonlinear_arith)
        requires
            m <= qb,
            rb > 0,
    ;
}

} // verus!
