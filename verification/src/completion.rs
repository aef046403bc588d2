//! Data types used for the base completion endpoint.

use vstd::prelude::*;

use crate::pii;

verus! {

/// Path to the completions endpoint.
pub fn path() -> (r: &'static str)
    ensures
        r@ == "/completions"@,
{
    "/completions"
}

/// Requests a PII check and an injection check on the inputs of a
/// completion request.
#[derive(Debug, Clone)]
pub struct RequestInput {
    pub block_prompt_injection: bool,
    pub pii: Option<pii::InputMethod>,
    pub pii_replace_method: Option<pii::ReplaceMethod>,
}

/// Requests checking the output of the request for factuality and toxicity.
#[derive(Debug, Clone)]
pub struct RequestOutput {
    pub factuality: bool,
    pub toxicity: bool,
}

/// A request for the base completion endpoint. Temperature and top-p are
/// carried as the IEEE-754 bit patterns of the wire values; the transport
/// layer converts.
#[derive(Debug, Clone)]
pub struct Request {
    pub model: String,
    pub prompt: String,
    pub max_tokens: Option<i64>,
    pub temperature: Option<u64>,
    pub top_p: Option<u64>,
    pub top_k: Option<i64>,
    pub input: Option<RequestInput>,
    pub output: Option<RequestOutput>,
}

/// The input options that result from applying `block` and `pii_opt` on top
/// of previously set input options: a missing group is created, PII
/// sub-fields are overwritten only when new ones are given, and the rest is
/// kept.
pub open spec fn merged_input(
    prior: Option<RequestInput>,
    block: bool,
    pii_opt: Option<(pii::InputMethod, pii::ReplaceMethod)>,
) -> RequestInput {
    let base = match prior {
        Some(x) => x,
        None => RequestInput { block_prompt_injection: false, pii: None, pii_replace_method: None },
    };
    match pii_opt {
        Some(p) => RequestInput {
            block_prompt_injection: block,
            pii: Some(p.0),
            pii_replace_method: Some(p.1),
        },
        None => RequestInput {
            block_prompt_injection: block,
            pii: base.pii,
            pii_replace_method: base.pii_replace_method,
        },
    }
}

/// The request that results from applying the input options `block` and
/// `pii_opt` to `req`: only the `input` group changes.
pub open spec fn input_applied(
    req: Request,
    block: bool,
    pii_opt: Option<(pii::InputMethod, pii::ReplaceMethod)>,
) -> Request {
    Request { input: Some(merged_input(req.input, block, pii_opt)), ..req }
}

/// The request that results from applying the output options to `req`: only
/// the `output` group changes, and both of its fields are overwritten.
pub open spec fn output_applied(
    req: Request,
    check_factuality: bool,
    check_toxicity: bool,
) -> Request {
    Request {
        output: Some(RequestOutput { factuality: check_factuality, toxicity: check_toxicity }),
        ..req
    }
}

impl Request {
    /// Creates a new request for completion; every tuning parameter starts
    /// unset.
    pub fn new(model: String, prompt: String) -> (r: Self)
        ensures
            r.model == model,
            r.prompt == prompt,
            r.max_tokens is None,
            r.temperature is None,
            r.top_p is None,
            r.top_k is None,
            r.input is None,
            r.output is None,
    {
        Self {
            model,
            prompt,
            max_tokens: None,
            temperature: None,
            top_p: None,
            top_k: None,
            input: None,
            output: None,
        }
    }

    /// Sets the max tokens for the request.
    pub fn max_tokens(self, max: i64) -> (r: Request)
        ensures
            r == (Request { max_tokens: Some(max), ..self }),
    {
        Self { max_tokens: Some(max), ..self }
    }

    /// Sets the temperature for the request, given as the IEEE-754 bit
    /// pattern of the value.
    pub fn temperature(self, temp: u64) -> (r: Request)
        ensures
            r == (Request { temperature: Some(temp), ..self }),
    {
        Self { temperature: Some(temp), ..self }
    }

    /// Sets the top-p for the request, given as the IEEE-754 bit pattern of
    /// the value.
    pub fn top_p(self, top: u64) -> (r: Request)
        ensures
            r == (Request { top_p: Some(top), ..self }),
    {
        Self { top_p: Some(top), ..self }
    }

    /// Sets the top-k for the request.
    pub fn top_k(self, top_k: i64) -> (r: Request)
        ensures
            r == (Request { top_k: Some(top_k), ..self }),
    {
        Self { top_k: Some(top_k), ..self }
    }

    /// Sets the input options of the request, to check for prompt injection
    /// and PII. An existing group is updated in place: the injection flag is
    /// always overwritten, the PII sub-fields only when `pii` is given.
    pub fn input(
        self,
        block_prompt_injection: bool,
        pii: Option<(pii::InputMethod, pii::ReplaceMethod)>,
    ) -> (r: Request)
        ensures
            r == input_applied(self, block_prompt_injection, pii),
    {
        let mut req = self;
        let prior = req.input;
        req.input = Some(
            match prior {
                Some(x) => {
                    match pii {
                        Some(p) => RequestInput {
                            block_prompt_injection,
                            pii: Some(p.0),
                            pii_replace_method: Some(p.1),
                        },
                        None => RequestInput {
                            block_prompt_injection,
                            pii: x.pii,
                            pii_replace_method: x.pii_replace_method,
                        },
                    }
                },
                None => {
                    match pii {
                        Some(p) => RequestInput {
                            block_prompt_injection,
                            pii: Some(p.0),
                            pii_replace_method: Some(p.1),
                        },
                        None => RequestInput {
                            block_prompt_injection,
                            pii: None,
                            pii_replace_method: None,
                        },
                    }
                },
            },
        );
        req
    }

    /// Sets the output options of the request, to check the response for
    /// factuality and toxicity. Both flags are always overwritten.
    pub fn output(self, check_factuality: bool, check_toxicity: bool) -> (r: Request)
        ensures
            r == output_applied(self, check_factuality, check_toxicity),
    {
        let mut req = self;
        req.output = Some(RequestOutput { factuality: check_factuality, toxicity: check_toxicity });
        req
    }
}

/// Law: applying the input options twice overwrites the injection flag and
/// the PII sub-fields with the later values, and touches nothing else on the
/// request; in particular previously set output checks are kept.
pub proof fn lemma_input_applied_twice(
    req: Request,
    b1: bool,
    p1: Option<(pii::InputMethod, pii::ReplaceMethod)>,
    b2: bool,
    p2: (pii::InputMethod, pii::ReplaceMethod),
)
    ensures
        ({
            let twice = input_applied(input_applied(req, b1, p1), b2, Some(p2));
            &&& twice.input matches Some(i) && i == RequestInput {
                block_prompt_injection: b2,
                pii: Some(p2.0),
                pii_replace_method: Some(p2.1),
            }
            &&& twice.output == req.output
            &&& twice.model == req.model
            &&& twice.prompt == req.prompt
            &&& twice.max_tokens == req.max_tokens
            &&& twice.temperature == req.temperature
            &&& twice.top_p == req.top_p
            &&& twice.top_k == req.top_k
        }),
{
}

/// A choice in the base completion response.
#[derive(Debug, Clone)]
pub struct Choice {
    pub text: String,
    pub index: i64,
}

/// Response type for the base completion endpoint.
#[derive(Debug, Clone)]
pub struct Response {
    pub id: String,
    pub object: String,
    pub model: String,
    pub created: i64,
    pub choices: Vec<Choice>,
}

} // verus!
