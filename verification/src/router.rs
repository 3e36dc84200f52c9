//! From a request to its answer: which operation a request names, and what
//! the service answers to a body sent to it.

use crate::decimal::decimal;
use crate::form::{decode, decoded, form_fields, Fields, FormError};
use crate::arith::truncated_quotient;
use crate::handlers::{
    difference_reply, lemma_add_is_exact, lemma_div_is_exact, lemma_mul_is_exact,
    lemma_sub_is_exact, product_reply, quotient_reply, sum_reply,
};
use crate::params::CalcParams;
use crate::reply::{Reply, ReplyView};
use crate::text::same_text;
use vstd::prelude::*;

verus! {

/// One of the four operations of the service.
#[derive(Clone, Copy, Debug, PartialEq, Eq, Structural)]
pub enum Operation {
    Add,
    Sub,
    Mul,
    Div,
}

/// The operation that lives at `path`, if one does.
pub open spec fn operation_at(path: Seq<char>) -> Option<Operation> {
    if path == "/add"@ {
        Some(Operation::Add)
    } else if path == "/sub"@ {
        Some(Operation::Sub)
    } else if path == "/mul"@ {
        Some(Operation::Mul)
    } else if path == "/div"@ {
        Some(Operation::Div)
    } else {
        None
    }
}

/// The operation that a request names: the one at its path, for the method
/// `POST` and no other.
pub open spec fn routed(method: Seq<char>, path: Seq<char>) -> Option<Operation> {
    if method == "POST"@ {
        operation_at(path)
    } else {
        None
    }
}

/// The body of the answer to a body that holds no payload.
pub open spec fn refusal_text(e: FormError) -> Seq<char> {
    match e {
        FormError::Undecodable => "Malformed form body"@,
        FormError::Repeated => "Repeated parameter"@,
        FormError::Missing => "Missing parameter"@,
        FormError::NotInteger => "Parameter is not an integer"@,
    }
}

/// The answer of an operation to a payload.
pub open spec fn applied(op: Operation, p: CalcParams) -> ReplyView {
    match op {
        Operation::Add => sum_reply(p),
        Operation::Sub => difference_reply(p),
        Operation::Mul => product_reply(p),
        Operation::Div => quotient_reply(p),
    }
}

/// The answer of an operation to a body with the given fields: a refusal
/// with status 400 where they hold no payload.
pub open spec fn response(op: Operation, fields: Option<Fields>) -> ReplyView {
    match decoded(fields) {
        Ok(p) => applied(op, p),
        Err(e) => ReplyView { status: 400, body: refusal_text(e) },
    }
}

/// The answer of the service to a request: status 404 with an empty body
/// where the request names no operation.
pub open spec fn answer(method: Seq<char>, path: Seq<char>, fields: Option<Fields>) -> ReplyView {
    match routed(method, path) {
        Some(op) => response(op, fields),
        None => ReplyView { status: 404, body: Seq::empty() },
    }
}

/// Finds the operation that a request names.
pub fn route(method: &str, path: &str) -> (r: Option<Operation>)
    ensures
        r == routed(method@, path@),
{
    if !same_text(method, "POST") {
        None
    } else if same_text(path, "/add") {
        Some(Operation::Add)
    } else if same_text(path, "/sub") {
        Some(Operation::Sub)
    } else if same_text(path, "/mul") {
        Some(Operation::Mul)
    } else if same_text(path, "/div") {
        Some(Operation::Div)
    } else {
        None
    }
}

/// Answers a payload with the given operation.
pub fn apply(op: Operation, form: &CalcParams) -> (r: Reply)
    ensures
        r@ == applied(op, *form),
{
    match op {
        Operation::Add => crate::handlers::add(form),
        Operation::Sub => crate::handlers::sub(form),
        Operation::Mul => crate::handlers::mul(form),
        Operation::Div => crate::handlers::div(form),
    }
}

/// The answer to a body that holds no payload.
pub fn refuse(e: FormError) -> (r: Reply)
    ensures
        r@ == (ReplyView { status: 400, body: refusal_text(e) }),
{
    match e {
        FormError::Undecodable => Reply::bad_request("Malformed form body"),
        FormError::Repeated => Reply::bad_request("Repeated parameter"),
        FormError::Missing => Reply::bad_request("Missing parameter"),
        FormError::NotInteger => Reply::bad_request("Parameter is not an integer"),
    }
}

/// Answers a request body with the given operation.
pub fn respond(op: Operation, body: &[u8]) -> (r: Reply)
    ensures
        r@ == response(op, form_fields(body@)),
{
    match decode(body) {
        Ok(form) => apply(op, &form),
        Err(e) => refuse(e),
    }
}

/// Answers a request.
pub fn serve(method: &str, path: &str, body: &[u8]) -> (r: Reply)
    ensures
        r@ == answer(method@, path@, form_fields(body@)),
{
    match route(method, path) {
        Some(op) => respond(op, body),
        None => Reply::not_found(),
    }
}

/// Each of the four paths, under the method `POST`, names its operation.
pub proof fn lemma_four_routes()
    ensures
        routed("POST"@, "/add"@) == Some(Operation::Add),
        routed("POST"@, "/sub"@) == Some(Operation::Sub),
        routed("POST"@, "/mul"@) == Some(Operation::Mul),
        routed("POST"@, "/div"@) == Some(Operation::Div),
{
    reveal_strlit("/add");
    reveal_strlit("/sub");
    reveal_strlit("/mul");
    reveal_strlit("/div");
    assert("/sub"@[1] != "/add"@[1]);
    assert("/mul"@[1] != "/add"@[1]);
    assert("/mul"@[1] != "/sub"@[1]);
    assert("/div"@[1] != "/add"@[1]);
    assert("/div"@[1] != "/sub"@[1]);
    assert("/div"@[1] != "/mul"@[1]);
}

/// A `POST` to `/add`, `/sub` or `/mul` whose body holds the payload `p` is
/// answered with status 200 and the decimal text of the exact result,
/// wherever that result fits an `i32`.
pub proof fn lemma_exact_answers(fields: Option<Fields>, p: CalcParams)
    requires
        decoded(fields) == Ok::<CalcParams, FormError>(p),
    ensures
        i32::MIN <= p.a + p.b <= i32::MAX ==> answer("POST"@, "/add"@, fields) == (ReplyView {
            status: 200,
            body: decimal(p.a + p.b),
        }),
        i32::MIN <= p.a - p.b <= i32::MAX ==> answer("POST"@, "/sub"@, fields) == (ReplyView {
            status: 200,
            body: decimal(p.a - p.b),
        }),
        i32::MIN <= p.a * p.b <= i32::MAX ==> answer("POST"@, "/mul"@, fields) == (ReplyView {
            status: 200,
            body: decimal(p.a * p.b),
        }),
{
    lemma_four_routes();
    if i32::MIN <= p.a + p.b <= i32::MAX {
        lemma_add_is_exact(p);
    }
    if i32::MIN <= p.a - p.b <= i32::MAX {
        lemma_sub_is_exact(p);
    }
    if i32::MIN <= p.a * p.b <= i32::MAX {
        lemma_mul_is_exact(p);
    }
}

/// A `POST` to `/div` whose body holds the payload `p`, with a divisor other
/// than zero and a quotient that fits an `i32`, is answered with status 200
/// and the decimal text of the quotient rounded toward zero.
pub proof fn lemma_exact_quotient_answer(fields: Option<Fields>, p: CalcParams)
    requires
        decoded(fields) == Ok::<CalcParams, FormError>(p),
        p.b != 0,
        i32::MIN <= truncated_quotient(p.a as int, p.b as int) <= i32::MAX,
    ensures
        answer("POST"@, "/div"@, fields) == (ReplyView {
            status: 200,
            body: decimal(truncated_quotient(p.a as int, p.b as int)),
        }),
{
    lemma_four_routes();
    lemma_div_is_exact(p);
}

/// A `POST` to `/div` whose body holds a payload with the divisor zero is
/// answered with status 400 and the fixed message, whatever the dividend.
pub proof fn lemma_zero_divisor_answer(fields: Option<Fields>, a: i32)
    requires
        decoded(fields) == Ok::<CalcParams, FormError>(CalcParams { a, b: 0 }),
    ensures
        answer("POST"@, "/div"@, fields) == (ReplyView {
            status: 400,
            body: "Cannot divide by zero"@,
        }),
{
    lemma_four_routes();
}

/// A body that holds no payload is answered with status 400 by every
/// operation.
pub proof fn lemma_malformed_is_refused(op: Operation, fields: Option<Fields>)
    requires
        decoded(fields) is Err,
    ensures
        response(op, fields).status == 400,
{
}

/// A request is answered with status 200 only if it names an operation and
/// its body holds a payload.
pub proof fn lemma_success_needs_payload(
    method: Seq<char>,
    path: Seq<char>,
    fields: Option<Fields>,
)
    requires
        answer(method, path, fields).status == 200,
    ensures
        routed(method, path) is Some,
        decoded(fields) is Ok,
{
}

} // verus!
