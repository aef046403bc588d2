//! Data types for the PII detection endpoint.

use vstd::prelude::*;

use crate::str_eq;

verus! {

/// Path to the PII endpoint.
pub fn path() -> (r: &'static str)
    ensures
        r@ == "/PII"@,
{
    "/PII"
}

/// The method used to check for PII on inputs for completion and chat
/// completion requests.
#[derive(Debug, Clone, PartialEq, Eq)]
pub enum InputMethod {
    Replace,
    Block,
}

/// The wire string that an input method serializes to.
pub open spec fn input_method_code(m: InputMethod) -> Seq<char> {
    match m {
        InputMethod::Replace => "replace"@,
        InputMethod::Block => "block"@,
    }
}

/// Serializes an input method to its wire string.
pub fn input_method_to_code(m: &InputMethod) -> (r: String)
    ensures
        r@ == input_method_code(*m),
{
    match m {
        InputMethod::Replace => "replace".to_owned(),
        InputMethod::Block => "block".to_owned(),
    }
}

/// Deserializes a wire string into an input method; this enumeration is
/// closed, so an unrecognized string yields `None`.
pub fn input_method_from_code(s: &str) -> (m: Option<InputMethod>)
    ensures
        m matches Some(k) ==> input_method_code(k) == s@,
        m is None ==> forall|k: InputMethod| input_method_code(k) != s@,
{
    if str_eq(s, "replace") {
        Some(InputMethod::Replace)
    } else if str_eq(s, "block") {
        Some(InputMethod::Block)
    } else {
        assert forall|k: InputMethod| input_method_code(k) != s@ by {
            match k {
                InputMethod::Replace => {},
                InputMethod::Block => {},
            }
        }
        None
    }
}

/// The different ways to replace PII information that is found.
#[derive(Debug, Clone, PartialEq, Eq)]
pub enum ReplaceMethod {
    Random,
    Mask,
    Category,
    Fake,
}

/// The wire string that a replace method serializes to.
pub open spec fn replace_method_code(m: ReplaceMethod) -> Seq<char> {
    match m {
        ReplaceMethod::Random => "random"@,
        ReplaceMethod::Mask => "mask"@,
        ReplaceMethod::Category => "category"@,
        ReplaceMethod::Fake => "fake"@,
    }
}

/// Serializes a replace method to its wire string.
pub fn replace_method_to_code(m: &ReplaceMethod) -> (r: String)
    ensures
        r@ == replace_method_code(*m),
{
    match m {
        ReplaceMethod::Random => "random".to_owned(),
        ReplaceMethod::Mask => "mask".to_owned(),
        ReplaceMethod::Category => "category".to_owned(),
        ReplaceMethod::Fake => "fake".to_owned(),
    }
}

/// Deserializes a wire string into a replace method; this enumeration is
/// closed, so an unrecognized string yields `None`.
pub fn replace_method_from_code(s: &str) -> (m: Option<ReplaceMethod>)
    ensures
        m matches Some(k) ==> replace_method_code(k) == s@,
        m is None ==> forall|k: ReplaceMethod| replace_method_code(k) != s@,
{
    if str_eq(s, "random") {
        Some(ReplaceMethod::Random)
    } else if str_eq(s, "mask") {
        Some(ReplaceMethod::Mask)
    } else if str_eq(s, "category") {
        Some(ReplaceMethod::Category)
    } else if str_eq(s, "fake") {
        Some(ReplaceMethod::Fake)
    } else {
        assert forall|k: ReplaceMethod| replace_method_code(k) != s@ by {
            match k {
                ReplaceMethod::Random => {},
                ReplaceMethod::Mask => {},
                ReplaceMethod::Category => {},
                ReplaceMethod::Fake => {},
            }
        }
        None
    }
}

/// Request type for the PII detection endpoint.
#[derive(Debug, Clone)]
pub struct Request {
    pub prompt: String,
    pub replace: bool,
    pub replace_method: ReplaceMethod,
}

impl Request {
    /// Creates a new request for PII checks.
    pub fn new(prompt: String, replace: bool, replace_method: ReplaceMethod) -> (r: Request)
        ensures
            r.prompt == prompt,
            r.replace == replace,
            r.replace_method == replace_method,
    {
        Self { prompt, replace, replace_method }
    }
}

/// An individual check from the PII detection endpoint.
#[derive(Debug, Clone)]
pub struct Check {
    pub new_prompt: String,
    pub index: i64,
    pub status: String,
}

/// Response type for the PII detection endpoint.
#[derive(Debug, Clone)]
pub struct Response {
    pub id: String,
    pub object: String,
    pub created: String,
    pub checks: Vec<Check>,
}

} // verus!
