//! Fixed-point arithmetic for physical quantities.
//!
//! Every quantity of the engine (moles, kelvins, litres, joules per kelvin,
//! kilopascals, plain ratios) is a signed count of millionths of its unit,
//! held in an `i64` and kept within `-LIMIT ..= LIMIT`.  Results that leave
//! that interval stick to the nearest end of it; quotients are rounded to the
//! nearest millionth, halves away from zero.
use vstd::arithmetic::div_mod::{
    lemma_div_multiples_vanish, lemma_fundamental_div_mod, lemma_fundamental_div_mod_converse,
    lemma_mod_multiples_basic, lemma_mod_pos_bound,
};
use vstd::arithmetic::mul::lemma_mul_is_commutative;
use vstd::prelude::*;

verus! {

/// Millionths per unit: the fixed-point value of `1.0`.
pub const SCALE: i64 = 1_000_000;

/// Largest magnitude a stored quantity can have (a thousand million units).
pub const LIMIT: i64 = 1_000_000_000_000_000;

/// Step to which exchanged amounts of gas are rounded: `0.0001`.
pub const QUANTUM: i64 = 100;

/// Whether `x` is a magnitude the engine stores.
pub open spec fn in_range(x: int) -> bool {
    -LIMIT <= x <= LIMIT
}

/// `x` brought into `-LIMIT ..= LIMIT`.
pub open spec fn clamp(x: int) -> i64 {
    if x < -LIMIT {
        (-LIMIT) as i64
    } else if x > LIMIT {
        LIMIT
    } else {
        x as i64
    }
}

/// Absolute value.
pub open spec fn magnitude(x: int) -> int {
    if x < 0 {
        -x
    } else {
        x
    }
}

/// The smaller of two integers.
pub open spec fn smaller(a: int, b: int) -> int {
    if a <= b {
        a
    } else {
        b
    }
}

/// The integer nearest to `n / d` for `n >= 0` and `d > 0`, halves rounded up.
pub open spec fn round_div_nat(n: int, d: int) -> int {
    n / d + if 2 * (n % d) >= d {
        1int
    } else {
        0int
    }
}

/// The integer nearest to `n / d`, halves rounded away from zero.  A zero
/// divisor yields zero here; `quot` gives that case its meaning.
pub open spec fn round_div(n: int, d: int) -> int {
    if d == 0 {
        0
    } else if (n < 0) == (d < 0) {
        round_div_nat(magnitude(n), magnitude(d))
    } else {
        -round_div_nat(magnitude(n), magnitude(d))
    }
}

/// The quotient `n / d` as the engine computes it: rounded to the nearest
/// integer and clamped.  Division by zero sticks to the limit on the side of
/// the dividend's sign, and `0 / 0` is `0`.
#[verifier::opaque]
pub open spec fn quot(n: int, d: int) -> i64 {
    if d != 0 {
        clamp(round_div(n, d))
    } else if n > 0 {
        LIMIT
    } else if n < 0 {
        (-LIMIT) as i64
    } else {
        0
    }
}

/// Fixed-point product `a * b`.
pub open spec fn fx_mul(a: int, b: int) -> i64 {
    quot(a * b, SCALE as int)
}

/// `x` rounded to the nearest multiple of `QUANTUM`, halves away from zero.
#[verifier::opaque]
pub open spec fn quantized(x: int) -> i64 {
    clamp(round_div(x, QUANTUM as int) * QUANTUM)
}

/// Bounds the product of two bounded integers.
pub proof fn lemma_product_bound(a: int, b: int, x: int, y: int)
    by (nonlinear_arith)
    requires
        -x <= a <= x,
        -y <= b <= y,
    ensures
        -(x * y) <= a * b <= x * y,
{
}

/// The product of two stored magnitudes stays below ten to the thirtieth.
pub proof fn lemma_range_product(a: int, b: int)
    requires
        in_range(a),
        in_range(b),
    ensures
        -1_000_000_000_000_000_000_000_000_000_000 <= a * b
            <= 1_000_000_000_000_000_000_000_000_000_000,
{
    lemma_product_bound(a, b, 1_000_000_000_000_000, 1_000_000_000_000_000);
}

/// A rounded quotient of non-negative numbers lies within half a divisor of
/// the exact one.
pub proof fn lemma_round_div_nat_error(n: int, d: int)
    requires
        n >= 0,
        d > 0,
    ensures
        round_div_nat(n, d) >= 0,
        -d <= 2 * (round_div_nat(n, d) * d - n) <= d,
        round_div_nat(n, d) <= n,
{
    lemma_fundamental_div_mod(n, d);
    lemma_mod_pos_bound(n, d);
    let q = n / d;
    let r = n % d;
    let p = q * d;
    assert(p == d * q && (q + 1) * d == p + d) by (nonlinear_arith)
        requires
            p == q * d,
    ;
    assert(q >= 0) by (nonlinear_arith)
        requires
            n == d * q + r,
            0 <= r < d,
            n >= 0,
    ;
    assert(p >= q) by (nonlinear_arith)
        requires
            p == q * d,
            q >= 0,
            d >= 1,
    ;
}

/// A rounded quotient times the divisor lies within half a divisor of the
/// dividend.
pub proof fn lemma_round_div_error(n: int, d: int)
    requires
        d != 0,
    ensures
        -magnitude(d) <= 2 * (round_div(n, d) * d - n) <= magnitude(d),
{
    let un = magnitude(n);
    let ud = magnitude(d);
    let q = round_div_nat(un, ud);
    lemma_round_div_nat_error(un, ud);
    assert(round_div(n, d) * d - n == q * ud - un || round_div(n, d) * d - n == -(q * ud - un))
        by (nonlinear_arith)
        requires
            un == magnitude(n),
            ud == magnitude(d),
            d != 0,
            round_div(n, d) == if (n < 0) == (d < 0) {
                q
            } else {
                -q
            },
    ;
}

/// A rounded quotient by a whole divisor is no larger in magnitude than the
/// dividend.
pub proof fn lemma_round_div_bounded(n: int, d: int)
    requires
        d != 0,
    ensures
        magnitude(round_div(n, d)) <= magnitude(n),
{
    lemma_round_div_nat_error(magnitude(n), magnitude(d));
}

/// Rounding to the quantum moves an amount by half a quantum at most.
pub proof fn lemma_quantized_bounded(x: int)
    ensures
        magnitude(quantized(x) as int) <= magnitude(x) + QUANTUM / 2,
{
    reveal(quantized);
    lemma_round_div_error(x, QUANTUM as int);
}

/// The only integer within less than half a divisor of the exact quotient is
/// the rounded quotient.
pub proof fn lemma_round_div_unique(n: int, d: int, x: int)
    requires
        d != 0,
        -magnitude(d) < 2 * (x * d - n) < magnitude(d),
    ensures
        round_div(n, d) == x,
{
    let q = round_div(n, d);
    lemma_round_div_error(n, d);
    assert(q == x) by (nonlinear_arith)
        requires
            d != 0,
            -magnitude(d) < 2 * (x * d - n) < magnitude(d),
            -magnitude(d) <= 2 * (q * d - n) <= magnitude(d),
    ;
}

/// A quotient of a dividend that is not negative by a positive divisor is
/// not negative, and no larger than the dividend.
pub proof fn lemma_quot_of_positive(n: int, d: int)
    requires
        n >= 0,
        d > 0,
    ensures
        0 <= round_div(n, d) <= n,
        0 <= quot(n, d) <= n,
{
    reveal(quot);
    lemma_round_div_nat_error(n, d);
}

/// Rounding to the quantum keeps an amount that is not negative from
/// becoming negative.
pub proof fn lemma_quantized_of_positive(x: int)
    requires
        x >= 0,
    ensures
        0 <= quantized(x) <= LIMIT,
{
    reveal(quantized);
    lemma_round_div_nat_error(x, QUANTUM as int);
}

/// Dividing an exact multiple gives the other factor back.
pub proof fn lemma_round_div_multiple(t: int, c: int)
    requires
        c != 0,
    ensures
        round_div(c * t, c) == t,
{
    let n = magnitude(c * t);
    let d = magnitude(c);
    let m = magnitude(t);
    assert(n == d * m && ((c * t < 0) == (c < 0) || t == 0) == (t >= 0)) by (nonlinear_arith)
        requires
            n == magnitude(c * t),
            d == magnitude(c),
            m == magnitude(t),
            c != 0,
    ;
    lemma_mul_is_commutative(d, m);
    lemma_div_multiples_vanish(m, d);
    lemma_mod_multiples_basic(m, d);
    assert(round_div_nat(n, d) == m);
    if t == 0 {
        assert(c * t == 0) by (nonlinear_arith)
            requires
                t == 0,
        ;
    }
}

/// Rounding to the quantum twice changes nothing more.
pub proof fn lemma_quantized_idempotent(x: int)
    ensures
        quantized(quantized(x) as int) == quantized(x),
        quantized(x) % QUANTUM == 0,
        in_range(quantized(x) as int),
{
    reveal(quantized);
    let k = round_div(x, QUANTUM as int);
    let y = quantized(x);
    // the clamped value is still a whole number of quanta
    let j: int = if k * QUANTUM < -LIMIT {
        -10_000_000_000_000int
    } else if k * QUANTUM > LIMIT {
        10_000_000_000_000int
    } else {
        k
    };
    assert(y == QUANTUM * j);
    lemma_round_div_multiple(j, QUANTUM as int);
    lemma_fundamental_div_mod_converse(y as int, QUANTUM as int, j, 0);
}

/// `x` brought into range.
pub fn saturate(x: i128) -> (r: i64)
    ensures
        r == clamp(x as int),
        in_range(r as int),
{
    if x < -(LIMIT as i128) {
        -LIMIT
    } else if x > LIMIT as i128 {
        LIMIT
    } else {
        x as i64
    }
}

/// The exact product of two machine integers.
pub fn product(a: i64, b: i64) -> (r: i128)
    ensures
        r == (a as int) * (b as int),
{
    proof {
        lemma_product_bound(
            a as int,
            b as int,
            0x8000_0000_0000_0000,
            0x8000_0000_0000_0000,
        );
    }
    (a as i128) * (b as i128)
}

/// A wide intermediate result times a factor of at most ten million.
pub fn times(x: i128, factor: i64) -> (r: i128)
    requires
        -15_000_000_000_000_000_000_000_000_000_000 <= x
            <= 15_000_000_000_000_000_000_000_000_000_000,
        -10_000_000 <= factor <= 10_000_000,
    ensures
        r == (x as int) * (factor as int),
{
    proof {
        lemma_product_bound(
            x as int,
            factor as int,
            15_000_000_000_000_000_000_000_000_000_000,
            10_000_000,
        );
    }
    x * (factor as i128)
}

/// Absolute value of a wide integer as an unsigned one.
fn unsigned_magnitude(x: i128) -> (r: u128)
    ensures
        r == magnitude(x as int),
{
    if x < 0 {
        ((-(x + 1)) as u128) + 1
    } else {
        x as u128
    }
}

/// The quotient of two magnitudes, rounded to the nearest integer.
fn nearest_quotient(un: u128, ud: u128) -> (r: u128)
    requires
        ud > 0,
        un <= 0x8000_0000_0000_0000_0000_0000_0000_0000,
    ensures
        r == round_div_nat(un as int, ud as int),
        r <= un,
{
    let whole: u128 = un / ud;
    let rest: u128 = un % ud;
    proof {
        lemma_round_div_nat_error(un as int, ud as int);
        lemma_fundamental_div_mod(un as int, ud as int);
    }
    if rest >= ud - rest {
        whole + 1
    } else {
        whole
    }
}

/// The quotient of two wide integers, rounded to the nearest integer.
pub fn round_divide(n: i128, d: i128) -> (r: i128)
    requires
        d != 0,
        n > i128::MIN,
    ensures
        r == round_div(n as int, d as int),
{
    let nearest: u128 = nearest_quotient(unsigned_magnitude(n), unsigned_magnitude(d));
    if (n < 0) == (d < 0) {
        nearest as i128
    } else {
        -(nearest as i128)
    }
}

/// The rounded, clamped quotient of two wide integers.
pub fn divide(n: i128, d: i128) -> (r: i64)
    ensures
        r == quot(n as int, d as int),
        in_range(r as int),
{
    proof {
        reveal(quot);
    }
    if d == 0 {
        return if n > 0 {
            LIMIT
        } else if n < 0 {
            -LIMIT
        } else {
            0
        };
    }
    let nearest: u128 = nearest_quotient(unsigned_magnitude(n), unsigned_magnitude(d));
    let bounded: i64 = if nearest > LIMIT as u128 {
        LIMIT
    } else {
        nearest as i64
    };
    if (n < 0) == (d < 0) {
        bounded
    } else {
        -bounded
    }
}

/// Fixed-point product of two quantities.
pub fn multiply(a: i64, b: i64) -> (r: i64)
    ensures
        r == fx_mul(a as int, b as int),
        in_range(r as int),
{
    divide(product(a, b), SCALE as i128)
}

/// Rounds an amount to the nearest ten-thousandth of a unit, halves away
/// from zero, so that exchanged amounts cannot dwindle for ever.
pub fn quantize(value: i64) -> (r: i64)
    ensures
        r == quantized(value as int),
        quantized(r as int) == r,
        in_range(r as int),
{
    let steps: i64 = divide(value as i128, QUANTUM as i128);
    proof {
        reveal(quot);
        reveal(quantized);
        lemma_quantized_idempotent(value as int);
        let k = round_div(value as int, QUANTUM as int);
        lemma_round_div_nat_error(magnitude(value as int), QUANTUM as int);
        assert(steps == clamp(k));
    }
    saturate((steps as i128) * (QUANTUM as i128))
}

} // verus!
