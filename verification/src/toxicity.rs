//! Data types for the toxicity endpoint.

use vstd::prelude::*;

verus! {

/// Path to the toxicity endpoint.
pub fn path() -> (r: &'static str)
    ensures
        r@ == "/toxicity"@,
{
    "/toxicity"
}

/// Request type for the toxicity endpoint.
#[derive(Debug, Clone)]
pub struct Request {
    pub text: String,
}

impl Request {
    /// Creates a new request for a toxicity check.
    pub fn new(text: String) -> (r: Request)
        ensures
            r.text == text,
    {
        Self { text }
    }
}

/// An individual check from the toxicity endpoint. The score is carried as
/// the IEEE-754 bit pattern of the wire value; the transport layer converts.
#[derive(Debug, Clone)]
pub struct Check {
    pub score: u64,
    pub index: i64,
    pub status: String,
}

/// Response type for the toxicity endpoint.
#[derive(Debug, Clone)]
pub struct Response {
    pub id: String,
    pub object: String,
    pub created: i64,
    pub checks: Vec<Check>,
}

} // verus!
