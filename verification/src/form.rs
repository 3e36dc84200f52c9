//! Decoding a form-encoded request body into the payload.
//!
//! Splitting the body into fields and undoing the percent-encoding is the
//! work of `serde_urlencoded`. Which fields make a payload is decided here:
//! exactly one field `a` and exactly one field `b`, each the decimal text of
//! an `i32`; fields of any other name are passed over.

use crate::decimal::{decimal, i32_of, lemma_decimal_reads_back, parse};
use crate::params::CalcParams;
use crate::text::same_text;
use vstd::prelude::*;

verus! {

/// The error of `serde_urlencoded`'s deserializer, carried through unread.
#[verifier::external_type_specification]
#[verifier::external_body]
pub struct ExDecodeError(serde_urlencoded::de::Error);

/// The fields of a body, in the order in which the body holds them: each a
/// name and a value, both decoded.
pub type Fields = Seq<(Seq<char>, Seq<char>)>;

/// The fields that `serde_urlencoded::from_bytes` reads from `body` as a list
/// of pairs of strings, or `None` where it reports an error.
pub uninterp spec fn form_fields(body: Seq<u8>) -> Option<Fields>;

/// Calls `serde_urlencoded::from_bytes` for a list of string pairs. The
/// contract claims only that the outcome is a function of the bytes: it is
/// the one that `form_fields` names.
#[verifier::external_body]
fn split_fields(body: &[u8]) -> (r: Result<Vec<(String, String)>, serde_urlencoded::de::Error>)
    ensures
        match r {
            Ok(pairs) => form_fields(body@) == Some(pairs.deep_view()),
            Err(_) => form_fields(body@) is None,
        },
{
    serde_urlencoded::from_bytes::<Vec<(String, String)>>(body)
}

/// Why a body holds no payload.
#[derive(Clone, Copy, Debug, PartialEq, Eq, Structural)]
pub enum FormError {
    /// The body could not be split into fields.
    Undecodable,
    /// The field `a` or the field `b` occurs more than once.
    Repeated,
    /// The field `a` or the field `b` does not occur.
    Missing,
    /// The value of `a` or of `b` is not the decimal text of an `i32`.
    NotInteger,
}

/// The name of the first operand's field.
pub open spec fn name_a() -> Seq<char> {
    seq!['a']
}

/// The name of the second operand's field.
pub open spec fn name_b() -> Seq<char> {
    seq!['b']
}

/// How many of the fields are called `name`.
pub open spec fn occurrences(fields: Fields, name: Seq<char>) -> nat
    decreases fields.len(),
{
    if fields.len() == 0 {
        0
    } else {
        occurrences(fields.drop_last(), name) + if fields.last().0 == name {
            1nat
        } else {
            0nat
        }
    }
}

/// The value of the last field called `name`; the empty text where there is
/// none. Where `name` occurs once, this is the value of that one field.
pub open spec fn value_of(fields: Fields, name: Seq<char>) -> Seq<char>
    decreases fields.len(),
{
    if fields.len() == 0 {
        Seq::empty()
    } else if fields.last().0 == name {
        fields.last().1
    } else {
        value_of(fields.drop_last(), name)
    }
}

/// The payload that the fields hold, or why they hold none. A repeated
/// operand is reported before a missing one, and a missing one before a
/// value that is no integer.
pub open spec fn params_of(fields: Fields) -> Result<CalcParams, FormError> {
    if occurrences(fields, name_a()) > 1 || occurrences(fields, name_b()) > 1 {
        Err(FormError::Repeated)
    } else if occurrences(fields, name_a()) == 0 || occurrences(fields, name_b()) == 0 {
        Err(FormError::Missing)
    } else {
        match (i32_of(value_of(fields, name_a())), i32_of(value_of(fields, name_b()))) {
            (Some(a), Some(b)) => Ok(CalcParams { a, b }),
            _ => Err(FormError::NotInteger),
        }
    }
}

/// The payload of a body whose fields are `fields`; `None` stands for a body
/// that could not be split.
pub open spec fn decoded(fields: Option<Fields>) -> Result<CalcParams, FormError> {
    match fields {
        Some(f) => params_of(f),
        None => Err(FormError::Undecodable),
    }
}

/// What an outcome of splitting a body holds, as the contracts see it.
pub open spec fn outcome_fields(
    outcome: Result<Vec<(String, String)>, serde_urlencoded::de::Error>,
) -> Option<Fields> {
    match outcome {
        Ok(pairs) => Some(pairs.deep_view()),
        Err(_) => None,
    }
}

/// Picks the payload out of the fields of a body.
pub fn select(pairs: &Vec<(String, String)>) -> (r: Result<CalcParams, FormError>)
    ensures
        r == params_of(pairs.deep_view()),
{
    let ghost fields = pairs.deep_view();
    let mut count_a: usize = 0;
    let mut count_b: usize = 0;
    let mut at_a: usize = 0;
    let mut at_b: usize = 0;
    let mut i: usize = 0;
    proof {
        reveal_strlit("a");
        reveal_strlit("b");
        assert(fields.take(0) =~= Seq::empty());
    }
    while i < pairs.len()
        invariant
            i <= pairs.len(),
            fields == pairs.deep_view(),
            "a"@ == name_a(),
            "b"@ == name_b(),
            count_a == occurrences(fields.take(i as int), name_a()),
            count_b == occurrences(fields.take(i as int), name_b()),
            count_a <= i,
            count_b <= i,
            count_a > 0 ==> at_a < i && fields[at_a as int].1 == value_of(
                fields.take(i as int),
                name_a(),
            ),
            count_b > 0 ==> at_b < i && fields[at_b as int].1 == value_of(
                fields.take(i as int),
                name_b(),
            ),
        decreases pairs.len() - i,
    {
        let key = pairs[i].0.as_str();
        proof {
            assert(fields.take(i + 1).drop_last() =~= fields.take(i as int));
            assert(fields.take(i + 1).last() == fields[i as int]);
            assert(fields[i as int].0 == key@);
        }
        if same_text(key, "a") {
            count_a = count_a + 1;
            at_a = i;
        }
        if same_text(key, "b") {
            count_b = count_b + 1;
            at_b = i;
        }
        i = i + 1;
    }
    assert(fields.take(i as int) =~= fields);
    if count_a > 1 || count_b > 1 {
        return Err(FormError::Repeated);
    }
    if count_a == 0 || count_b == 0 {
        return Err(FormError::Missing);
    }
    let a = parse(pairs[at_a].1.as_str());
    let b = parse(pairs[at_b].1.as_str());
    match (a, b) {
        (Some(a), Some(b)) => Ok(CalcParams { a, b }),
        _ => Err(FormError::NotInteger),
    }
}

/// The payload of an outcome of splitting a body.
pub fn interpret(outcome: Result<Vec<(String, String)>, serde_urlencoded::de::Error>) -> (r: Result<
    CalcParams,
    FormError,
>)
    ensures
        r == decoded(outcome_fields(outcome)),
{
    match outcome {
        Ok(pairs) => select(&pairs),
        Err(_) => Err(FormError::Undecodable),
    }
}

/// Decodes a request body into the payload.
pub fn decode(body: &[u8]) -> (r: Result<CalcParams, FormError>)
    ensures
        r == decoded(form_fields(body@)),
{
    interpret(split_fields(body))
}

/// A field `a` and a field `b` that hold the decimal texts of two `i32`
/// values hold the payload of those two values.
pub proof fn lemma_written_payload_is_read(p: CalcParams)
    ensures
        params_of(seq![(name_a(), decimal(p.a as int)), (name_b(), decimal(p.b as int))]) == Ok::<
            CalcParams,
            FormError,
        >(p),
{
    let first = (name_a(), decimal(p.a as int));
    let second = (name_b(), decimal(p.b as int));
    let fields = seq![first, second];
    assert(fields.drop_last() =~= seq![first]);
    assert(seq![first].drop_last() =~= Seq::empty());
    assert(name_a()[0] != name_b()[0]);
    reveal_with_fuel(occurrences, 3);
    reveal_with_fuel(value_of, 3);
    assert(occurrences(fields, name_a()) == 1);
    assert(occurrences(fields, name_b()) == 1);
    assert(value_of(fields, name_a()) == decimal(p.a as int));
    assert(value_of(fields, name_b()) == decimal(p.b as int));
    lemma_decimal_reads_back(p.a as int);
    lemma_decimal_reads_back(p.b as int);
}

} // verus!
