//! The payload of a request.

use vstd::prelude::*;

verus! {

/// The two operands of a request. Every pair of `i32` values is a payload.
#[derive(Clone, Copy, Debug, PartialEq, Eq, Structural)]
pub struct CalcParams {
    pub a: i32,
    pub b: i32,
}

impl CalcParams {
    /// The payload with operands `a` and `b`.
    pub fn new(a: i32, b: i32) -> (p: CalcParams)
        ensures
            p == (CalcParams { a, b }),
    {
        CalcParams { a, b }
    }
}

} // verus!
