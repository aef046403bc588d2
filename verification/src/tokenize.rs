//! Data types used for the tokenize endpoint.

use vstd::prelude::*;

verus! {

/// Path to the tokenize endpoint.
pub fn path() -> (r: &'static str)
    ensures
        r@ == "/tokenize"@,
{
    "/tokenize"
}

/// Request type for the tokenize endpoint.
#[derive(Debug, Clone)]
pub struct Request {
    pub model: String,
    pub input: String,
}

impl Request {
    /// Creates a new request for token generation.
    pub fn new(model: String, input: String) -> (r: Request)
        ensures
            r.model == model,
            r.input == input,
    {
        Self { model, input }
    }
}

/// An individual token in the tokenize response.
#[derive(Debug, Clone)]
pub struct Tokens {
    pub id: i64,
    pub start: i64,
    pub end: i64,
    pub text: String,
}

/// Response type for the tokenize endpoint.
#[derive(Debug, Clone)]
pub struct Response {
    pub id: String,
    pub object: String,
    pub created: i64,
    pub model: String,
    pub tokens: Vec<Tokens>,
}

} // verus!
