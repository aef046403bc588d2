//! Data types used for the rerank endpoint.

use vstd::prelude::*;

verus! {

/// Path to the rerank endpoint.
pub fn path() -> (r: &'static str)
    ensures
        r@ == "/rerank"@,
{
    "/rerank"
}

/// Request type for the rerank endpoint.
#[derive(Debug, Clone)]
pub struct Request {
    pub model: String,
    pub query: String,
    pub documents: Vec<String>,
    pub return_documents: bool,
}

impl Request {
    /// Creates a new request for reranking.
    pub fn new(
        model: String,
        query: String,
        documents: Vec<String>,
        return_documents: bool,
    ) -> (r: Request)
        ensures
            r.model == model,
            r.query == query,
            r.documents == documents,
            r.return_documents == return_documents,
    {
        Self { model, query, documents, return_documents }
    }
}

/// An individual rank in the rerank response. The relevance score is carried
/// as the IEEE-754 bit pattern of the wire value; the transport layer
/// converts.
#[derive(Debug, Clone)]
pub struct Results {
    pub index: i64,
    pub relevance_score: u64,
    pub text: String,
}

/// Response type for the rerank endpoint.
#[derive(Debug, Clone)]
pub struct Response {
    pub id: String,
    pub object: String,
    pub created: i64,
    pub model: String,
    pub results: Vec<Results>,
}

} // verus!
