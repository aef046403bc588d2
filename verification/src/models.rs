//! Model identifiers and the data types of the models-listing endpoint.

use vstd::prelude::*;

use crate::str_eq;

verus! {

/// Path to the models endpoint.
pub fn path() -> (r: &'static str)
    ensures
        r@ == "/models"@,
{
    "/models"
}

/// The request path for listing models, carrying the optional capability
/// filter as a query parameter.
pub fn path_with_capability(capability: &Option<String>) -> (r: String)
    ensures
        capability matches Some(c) ==> r@ == "/models?capability="@ + c@,
        capability is None ==> r@ == "/models"@,
{
    match capability {
        Some(c) => {
            let mut p = "/models?capability=".to_owned();
            p.append(c.as_str());
            p
        },
        None => "/models".to_owned(),
    }
}

/// Known model identifiers, with a passthrough variant so that an identifier
/// this library does not know still round-trips without loss.
#[derive(Debug, Clone, PartialEq, Eq)]
pub enum Model {
    Hermes2ProLlama38B,
    NeuralChat7B,
    Llava157Bhf,
    BridgetowerLargeItmMlmItc,
    BgeRerankerV2M3,
    Other(String),
}

/// The wire identifier that a model value serializes to.
pub open spec fn model_code(m: Model) -> Seq<char> {
    match m {
        Model::Hermes2ProLlama38B => "Hermes-2-Pro-Llama-3-8B"@,
        Model::NeuralChat7B => "Neural-Chat-7B"@,
        Model::Llava157Bhf => "llava-1.5-7b-hf"@,
        Model::BridgetowerLargeItmMlmItc => "bridgetower-large-itm-mlm-itc"@,
        Model::BgeRerankerV2M3 => "bge-reranker-v2-m3"@,
        Model::Other(s) => s@,
    }
}

/// The known variant that a wire identifier maps back to, if any.
pub open spec fn model_of_code(s: Seq<char>) -> Option<Model> {
    if s == "Hermes-2-Pro-Llama-3-8B"@ {
        Some(Model::Hermes2ProLlama38B)
    } else if s == "Neural-Chat-7B"@ {
        Some(Model::NeuralChat7B)
    } else if s == "llava-1.5-7b-hf"@ {
        Some(Model::Llava157Bhf)
    } else if s == "bridgetower-large-itm-mlm-itc"@ {
        Some(Model::BridgetowerLargeItmMlmItc)
    } else if s == "bge-reranker-v2-m3"@ {
        Some(Model::BgeRerankerV2M3)
    } else {
        None
    }
}

/// Holds when deserializing the wire identifier `s` yields the value `m`:
/// a known identifier maps to its variant, any other identifier is carried
/// through unchanged in `Model::Other`.
pub open spec fn model_decodes_to(s: Seq<char>, m: Model) -> bool {
    match model_of_code(s) {
        Some(k) => m == k,
        None => m matches Model::Other(t) && t@ == s,
    }
}

/// Serializes a model value to its wire identifier.
pub fn model_to_code(m: &Model) -> (r: String)
    ensures
        r@ == model_code(*m),
{
    match m {
        Model::Hermes2ProLlama38B => "Hermes-2-Pro-Llama-3-8B".to_owned(),
        Model::NeuralChat7B => "Neural-Chat-7B".to_owned(),
        Model::Llava157Bhf => "llava-1.5-7b-hf".to_owned(),
        Model::BridgetowerLargeItmMlmItc => "bridgetower-large-itm-mlm-itc".to_owned(),
        Model::BgeRerankerV2M3 => "bge-reranker-v2-m3".to_owned(),
        Model::Other(s) => s.clone(),
    }
}

/// Deserializes a wire identifier into a model value; an unrecognized
/// identifier becomes `Model::Other` carrying exactly that identifier.
pub fn model_from_code(s: &str) -> (m: Model)
    ensures
        model_decodes_to(s@, m),
{
    if str_eq(s, "Hermes-2-Pro-Llama-3-8B") {
        Model::Hermes2ProLlama38B
    } else if str_eq(s, "Neural-Chat-7B") {
        Model::NeuralChat7B
    } else if str_eq(s, "llava-1.5-7b-hf") {
        Model::Llava157Bhf
    } else if str_eq(s, "bridgetower-large-itm-mlm-itc") {
        Model::BridgetowerLargeItmMlmItc
    } else if str_eq(s, "bge-reranker-v2-m3") {
        Model::BgeRerankerV2M3
    } else {
        Model::Other(s.to_owned())
    }
}

/// Round-trip identity: whatever value a wire identifier deserializes to
/// serializes back to exactly that identifier.
pub proof fn lemma_model_round_trip(s: Seq<char>, m: Model)
    requires
        model_decodes_to(s, m),
    ensures
        model_code(m) == s,
{
}

/// Request type for the models-listing endpoint.
#[derive(Debug, Clone)]
pub struct Request {
    pub capability: Option<String>,
}

impl Request {
    /// Creates a new request for listing models, filtered to one capability.
    pub fn new(capability: String) -> (r: Request)
        ensures
            r.capability matches Some(c) && c == capability,
    {
        Self { capability: Some(capability) }
    }
}

/// The capabilities reported for a single model.
#[derive(Debug, Clone)]
pub struct ModelCapabilities {
    pub chat_completion: bool,
    pub chat_with_image: bool,
    pub completion: bool,
    pub embedding: bool,
    pub embedding_with_image: bool,
    pub tokenize: bool,
}

/// One model entry in the models-listing response.
#[derive(Debug, Clone)]
pub struct ModelData {
    pub id: String,
    pub object: String,
    pub created: String,
    pub owned_by: String,
    pub description: String,
    pub max_context_length: i64,
    pub prompt_format: String,
    pub capabilities: ModelCapabilities,
}

/// Response type for the models-listing endpoint.
#[derive(Debug, Clone)]
pub struct Response {
    pub object: String,
    pub data: Vec<ModelData>,
}

} // verus!
