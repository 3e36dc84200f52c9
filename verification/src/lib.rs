//! A four-operation integer calculator behind an HTTP form interface.
//!
//! A request names one of four operations by its path and carries two signed
//! 32-bit integers `a` and `b` in a form-encoded body. The answer is a status
//! code and a plain-text body. Everything between the raw request and the
//! answer is computed here and proved against the models in each module;
//! sockets and the HTTP framing are left to the program around the library.
//!
//! Overflow policy: every result is reduced modulo 2^32 into the `i32` range
//! (see [`arith::wrap`]). This covers `add`, `sub`, `mul`, and the single
//! overflowing quotient `i32::MIN / -1`.

pub mod arith;
pub mod decimal;
pub mod form;
pub mod handlers;
pub mod params;
pub mod reply;
pub mod router;
pub mod text;
