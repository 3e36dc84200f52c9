//! Integer arithmetic on 32-bit operands, with results reduced modulo 2^32.

use vstd::prelude::*;

verus! {

/// The number of values an `i32` can take.
pub open spec fn modulus() -> int {
    0x1_0000_0000
}

/// The one integer in the `i32` range that differs from `x` by a multiple of
/// 2^32. This is what two's-complement arithmetic keeps of an exact result.
pub open spec fn wrap(x: int) -> int {
    let r = x % modulus();
    if r > i32::MAX {
        r - modulus()
    } else {
        r
    }
}

/// The magnitude of `x`.
pub open spec fn magnitude(x: int) -> int {
    if x < 0 {
        -x
    } else {
        x
    }
}

/// The quotient of `a` by `b` rounded toward zero, for `b != 0`: the quotient
/// of the magnitudes, negated when the operands have opposite signs.
pub open spec fn truncated_quotient(a: int, b: int) -> int {
    let q = magnitude(a) / magnitude(b);
    if (a < 0) == (b < 0) {
        q
    } else {
        -q
    }
}

/// `a + b`, reduced into the `i32` range.
pub fn wrapping_sum(a: i32, b: i32) -> (r: i32)
    ensures
        r == wrap(a + b),
{
    a.wrapping_add(b)
}

/// `a - b`, reduced into the `i32` range.
pub fn wrapping_difference(a: i32, b: i32) -> (r: i32)
    ensures
        r == wrap(a - b),
{
    a.wrapping_sub(b)
}

/// `a * b`, reduced into the `i32` range.
pub fn wrapping_product(a: i32, b: i32) -> (r: i32)
    ensures
        r == wrap(a * b),
{
    a.wrapping_mul(b)
}

/// `a / b` rounded toward zero, reduced into the `i32` range. The reduction
/// matters for `i32::MIN / -1` only, whose exact quotient is 2^31.
pub fn wrapping_quotient(a: i32, b: i32) -> (r: i32)
    requires
        b != 0,
    ensures
        r == wrap(truncated_quotient(a as int, b as int)),
{
    match a.checked_div(b) {
        Some(q) => q,
        None => i32::MIN,
    }
}

/// A value that fits an `i32` is its own reduction: where the exact result
/// does not overflow, the reduced result is the exact one.
pub proof fn lemma_wrap_of_fitting(x: int)
    requires
        i32::MIN <= x <= i32::MAX,
    ensures
        wrap(x) == x,
{
    if x >= 0 {
        vstd::arithmetic::div_mod::lemma_small_mod(x as nat, modulus() as nat);
    } else {
        vstd::arithmetic::div_mod::lemma_small_mod((x + modulus()) as nat, modulus() as nat);
        vstd::arithmetic::div_mod::lemma_mod_add_multiples_vanish(x, modulus());
    }
}

/// The reduction of any integer fits an `i32` and differs from the integer by
/// a multiple of 2^32.
pub proof fn lemma_wrap_is_residue(x: int)
    ensures
        i32::MIN <= wrap(x) <= i32::MAX,
        (x - wrap(x)) % modulus() == 0,
{
    let m = modulus();
    let r = x % m;
    vstd::arithmetic::div_mod::lemma_fundamental_div_mod(x, m);
    assert(x - r == m * (x / m));
    vstd::arithmetic::div_mod::lemma_mod_multiples_basic(x / m, m);
    assert((x - r) % m == 0) by {
        vstd::arithmetic::mul::lemma_mul_is_commutative(m, x / m);
    }
    if r > i32::MAX {
        vstd::arithmetic::div_mod::lemma_mod_add_multiples_vanish(x - r, m);
        assert(x - (r - m) == m + (x - r));
    }
}

/// Rounding toward zero: the remainder that the quotient leaves is smaller in
/// magnitude than the divisor and never has the sign opposite to the dividend.
pub proof fn lemma_truncated_quotient_remainder(a: int, b: int)
    requires
        b != 0,
    ensures
        magnitude(a - truncated_quotient(a, b) * b) < magnitude(b),
        a >= 0 ==> a - truncated_quotient(a, b) * b >= 0,
        a <= 0 ==> a - truncated_quotient(a, b) * b <= 0,
{
    let ma = magnitude(a);
    let mb = magnitude(b);
    let q = ma / mb;
    vstd::arithmetic::div_mod::lemma_fundamental_div_mod(ma, mb);
    vstd::arithmetic::div_mod::lemma_mod_bound(ma, mb);
    let r = ma % mb;
    assert(ma == mb * q + r);
    assert(truncated_quotient(a, b) * b == if a < 0 {
        -(mb * q)
    } else {
        mb * q
    }) by (nonlinear_arith)
        requires
            mb == magnitude(b),
            truncated_quotient(a, b) == if (a < 0) == (b < 0) {
                q
            } else {
                -q
            },
    ;
}

/// The quotient of two `i32` values fits an `i32`, except for
/// `i32::MIN / -1`.
pub proof fn lemma_truncated_quotient_fits(a: int, b: int)
    requires
        i32::MIN <= a <= i32::MAX,
        i32::MIN <= b <= i32::MAX,
        b != 0,
        !(a == i32::MIN && b == -1),
    ensures
        i32::MIN <= truncated_quotient(a, b) <= i32::MAX,
{
    let ma = magnitude(a);
    let mb = magnitude(b);
    vstd::arithmetic::div_mod::lemma_div_pos_is_pos(ma, mb);
    vstd::arithmetic::div_mod::lemma_div_is_ordered_by_denominator(ma, 1, mb);
    vstd::arithmetic::div_mod::lemma_div_basics(ma);
    if mb >= 2 {
        vstd::arithmetic::div_mod::lemma_div_is_ordered_by_denominator(ma, 2, mb);
    }
}

} // verus!
