//! What the service answers: a status code and a plain-text body.

use vstd::prelude::*;

verus! {

/// Status of an answer that carries a result.
pub const OK: u16 = 200;

/// Status of an answer to a request that cannot be served as it was sent.
pub const BAD_REQUEST: u16 = 400;

/// Status of an answer to a request that names no operation.
pub const NOT_FOUND: u16 = 404;

/// An answer as the contracts see it.
pub struct ReplyView {
    pub status: int,
    pub body: Seq<char>,
}

/// An answer: the HTTP status code and the text of the body.
#[derive(Debug, PartialEq, Eq)]
pub struct Reply {
    pub status: u16,
    pub body: String,
}

impl View for Reply {
    type V = ReplyView;

    open spec fn view(&self) -> ReplyView {
        ReplyView { status: self.status as int, body: self.body@ }
    }
}

impl Reply {
    /// The answer with status 200 and the given body.
    pub fn ok(body: String) -> (r: Reply)
        ensures
            r@ == (ReplyView { status: 200, body: body@ }),
    {
        Reply { status: OK, body }
    }

    /// The answer with status 400 and the given message as its body.
    pub fn bad_request(message: &str) -> (r: Reply)
        ensures
            r@ == (ReplyView { status: 400, body: message@ }),
    {
        Reply { status: BAD_REQUEST, body: String::from_str(message) }
    }

    /// The answer with status 404 and an empty body.
    pub fn not_found() -> (r: Reply)
        ensures
            r@ == (ReplyView { status: 404, body: Seq::<char>::empty() }),
    {
        Reply { status: NOT_FOUND, body: String::new() }
    }

    /// Whether the answer carries a result.
    pub fn is_ok(&self) -> (b: bool)
        ensures
            b == (self@.status == 200),
    {
        self.status == OK
    }
}

} // verus!
