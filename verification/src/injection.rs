//! Data types used for the injection endpoint.

use vstd::prelude::*;

verus! {

/// Path to the injection endpoint.
pub fn path() -> (r: &'static str)
    ensures
        r@ == "/injection"@,
{
    "/injection"
}

/// Request type for the injection endpoint.
#[derive(Debug, Clone)]
pub struct Request {
    pub prompt: String,
    pub detect: bool,
}

impl Request {
    /// Creates a new request for injection detection.
    pub fn new(prompt: String, detect: bool) -> (r: Request)
        ensures
            r.prompt == prompt,
            r.detect == detect,
    {
        Self { prompt, detect }
    }
}

/// An individual check on the injection endpoint. The probability is carried
/// as the IEEE-754 bit pattern of the wire value; the transport layer
/// converts.
#[derive(Debug, Clone)]
pub struct Check {
    pub probability: u64,
    pub index: i64,
}

/// Response type for the injection endpoint.
#[derive(Debug, Clone)]
pub struct Response {
    pub id: String,
    pub object: String,
    pub created: String,
    pub checks: Vec<Check>,
}

} // verus!
