//! Client-side library for a hosted text-inference service: request builders,
//! response shapes, wire-format enumerations, and the decision logic of each
//! call (status handling, error envelopes, and the streaming event loop).
//!
//! Network transport, JSON encoding and the async runtime live outside this
//! crate; every function here is pure logic over plain values and is verified.

use vstd::prelude::*;

pub mod chat;
pub mod client;
pub mod completion;
pub mod embedding;
pub mod factuality;
pub mod image;
pub mod injection;
pub mod models;
pub mod pii;
pub mod rerank;
pub mod tokenize;
pub mod toxicity;
pub mod translate;

verus! {

/// Relies on str's PartialEq: two string slices compare equal exactly when
/// their character sequences are equal.
#[verifier::external_body]
pub(crate) fn str_eq(a: &str, b: &str) -> (r: bool)
    ensures
        r == (a@ == b@),
{
    a == b
}

} // verus!
