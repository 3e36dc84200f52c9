//! The four operations, each from a payload to an answer.

use crate::arith::{
    lemma_wrap_of_fitting, truncated_quotient, wrap, wrapping_difference, wrapping_product,
    wrapping_quotient, wrapping_sum,
};
use crate::decimal::{decimal, render};
use crate::params::CalcParams;
use crate::reply::{Reply, ReplyView};
use vstd::prelude::*;

verus! {

/// The body of the answer to a division by zero.
pub open spec fn division_by_zero_text() -> Seq<char> {
    "Cannot divide by zero"@
}

/// The answer that carries the integer `v`.
pub open spec fn result_reply(v: int) -> ReplyView {
    ReplyView { status: 200, body: decimal(v) }
}

/// The answer to an addition: the sum, reduced into the `i32` range.
pub open spec fn sum_reply(p: CalcParams) -> ReplyView {
    result_reply(wrap(p.a + p.b))
}

/// The answer to a subtraction: the difference, reduced into the `i32` range.
pub open spec fn difference_reply(p: CalcParams) -> ReplyView {
    result_reply(wrap(p.a - p.b))
}

/// The answer to a multiplication: the product, reduced into the `i32` range.
pub open spec fn product_reply(p: CalcParams) -> ReplyView {
    result_reply(wrap(p.a * p.b))
}

/// The answer to a division: a refusal where the divisor is zero, else the
/// quotient rounded toward zero, reduced into the `i32` range.
pub open spec fn quotient_reply(p: CalcParams) -> ReplyView {
    if p.b == 0 {
        ReplyView { status: 400, body: division_by_zero_text() }
    } else {
        result_reply(wrap(truncated_quotient(p.a as int, p.b as int)))
    }
}

/// Answers `a + b`.
pub fn add(form: &CalcParams) -> (r: Reply)
    ensures
        r@ == sum_reply(*form),
{
    Reply::ok(render(wrapping_sum(form.a, form.b)))
}

/// Answers `a - b`.
pub fn sub(form: &CalcParams) -> (r: Reply)
    ensures
        r@ == difference_reply(*form),
{
    Reply::ok(render(wrapping_difference(form.a, form.b)))
}

/// Answers `a * b`.
pub fn mul(form: &CalcParams) -> (r: Reply)
    ensures
        r@ == product_reply(*form),
{
    Reply::ok(render(wrapping_product(form.a, form.b)))
}

/// Answers `a / b`, or refuses where `b` is zero.
pub fn div(form: &CalcParams) -> (r: Reply)
    ensures
        r@ == quotient_reply(*form),
{
    if form.b == 0 {
        return Reply::bad_request("Cannot divide by zero");
    }
    Reply::ok(render(wrapping_quotient(form.a, form.b)))
}

/// Where the sum of the operands fits an `i32`, addition answers with status
/// 200 and the decimal text of the sum.
pub proof fn lemma_add_is_exact(p: CalcParams)
    requires
        i32::MIN <= p.a + p.b <= i32::MAX,
    ensures
        sum_reply(p) == (ReplyView { status: 200, body: decimal(p.a + p.b) }),
{
    lemma_wrap_of_fitting(p.a + p.b);
}

/// Where the difference of the operands fits an `i32`, subtraction answers
/// with status 200 and the decimal text of the difference.
pub proof fn lemma_sub_is_exact(p: CalcParams)
    requires
        i32::MIN <= p.a - p.b <= i32::MAX,
    ensures
        difference_reply(p) == (ReplyView { status: 200, body: decimal(p.a - p.b) }),
{
    lemma_wrap_of_fitting(p.a - p.b);
}

/// Where the product of the operands fits an `i32`, multiplication answers
/// with status 200 and the decimal text of the product.
pub proof fn lemma_mul_is_exact(p: CalcParams)
    requires
        i32::MIN <= p.a * p.b <= i32::MAX,
    ensures
        product_reply(p) == (ReplyView { status: 200, body: decimal(p.a * p.b) }),
{
    lemma_wrap_of_fitting(p.a * p.b);
}

/// Where the divisor is not zero and the quotient fits an `i32`, division
/// answers with status 200 and the decimal text of the quotient rounded
/// toward zero.
pub proof fn lemma_div_is_exact(p: CalcParams)
    requires
        p.b != 0,
        i32::MIN <= truncated_quotient(p.a as int, p.b as int) <= i32::MAX,
    ensures
        quotient_reply(p) == (ReplyView {
            status: 200,
            body: decimal(truncated_quotient(p.a as int, p.b as int)),
        }),
{
    lemma_wrap_of_fitting(truncated_quotient(p.a as int, p.b as int));
}

/// Whatever the dividend, division by zero is answered with status 400 and
/// the fixed message.
pub proof fn lemma_div_by_zero_is_refused(a: i32)
    ensures
        quotient_reply(CalcParams { a, b: 0 }) == (ReplyView {
            status: 400,
            body: "Cannot divide by zero"@,
        }),
{
}

} // verus!
