//! Data types used for the factuality endpoint.

use vstd::prelude::*;

verus! {

/// Path to the factuality endpoint.
pub fn path() -> (r: &'static str)
    ensures
        r@ == "/factuality"@,
{
    "/factuality"
}

/// Request type for the factuality endpoint.
#[derive(Debug, Clone)]
pub struct Request {
    pub reference: String,
    pub text: String,
}

impl Request {
    /// Creates a new request for a factuality check.
    pub fn new(reference: String, text: String) -> (r: Request)
        ensures
            r.reference == reference,
            r.text == text,
    {
        Self { reference, text }
    }
}

/// Response type for the factuality endpoint.
#[derive(Debug, Clone)]
pub struct Response {
    pub id: String,
    pub object: String,
    pub created: i64,
    pub checks: Vec<Check>,
}

/// An individual check in the factuality response. The score is carried as
/// the IEEE-754 bit pattern of the wire value; the transport layer converts.
#[derive(Debug, Clone)]
pub struct Check {
    pub score: u64,
    pub index: i64,
}

} // verus!
