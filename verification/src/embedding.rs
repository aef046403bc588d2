//! Data types used for the embedding endpoint.

use vstd::prelude::*;

use crate::str_eq;

verus! {

/// Path to the embedding endpoint.
pub fn path() -> (r: &'static str)
    ensures
        r@ == "/embeddings"@,
{
    "/embeddings"
}

/// The direction in which over-long embedding inputs are truncated.
#[derive(Debug, Clone, PartialEq, Eq)]
pub enum Direction {
    Right,
    Left,
}

/// The wire string that a truncation direction serializes to.
pub open spec fn direction_code(d: Direction) -> Seq<char> {
    match d {
        Direction::Right => "Right"@,
        Direction::Left => "Left"@,
    }
}

/// Serializes a truncation direction to its wire string.
pub fn direction_to_code(d: &Direction) -> (r: String)
    ensures
        r@ == direction_code(*d),
{
    match d {
        Direction::Right => "Right".to_owned(),
        Direction::Left => "Left".to_owned(),
    }
}

/// Deserializes a wire string into a truncation direction; this enumeration
/// is closed, so an unrecognized string yields `None`.
pub fn direction_from_code(s: &str) -> (d: Option<Direction>)
    ensures
        d matches Some(k) ==> direction_code(k) == s@,
        d is None ==> forall|k: Direction| direction_code(k) != s@,
{
    if str_eq(s, "Right") {
        Some(Direction::Right)
    } else if str_eq(s, "Left") {
        Some(Direction::Left)
    } else {
        assert forall|k: Direction| direction_code(k) != s@ by {
            match k {
                Direction::Right => {},
                Direction::Left => {},
            }
        }
        None
    }
}

/// Input data holding text and/or a base64 encoded image.
#[derive(Debug, Clone)]
pub struct Input {
    pub text: Option<String>,
    pub image: Option<String>,
}

/// Request type used for the embedding endpoint.
#[derive(Debug, Clone)]
pub struct Request {
    pub input: Vec<Input>,
    pub model: String,
    pub truncate: Option<bool>,
    pub truncate_direction: Option<Direction>,
}

impl Request {
    /// Creates a new request for embedding. Text and/or an image is
    /// specified.
    pub fn new(model: String, text: Option<String>, image: Option<String>) -> (r: Request)
        ensures
            r.model == model,
            r.input@.len() == 1,
            r.input@[0].text == text,
            r.input@[0].image == image,
            r.truncate is None,
            r.truncate_direction is None,
    {
        let mut input: Vec<Input> = Vec::new();
        input.push(Input { text, image });
        Self { model, input, truncate: None, truncate_direction: None }
    }

    /// Sets the truncate parameter and the truncate direction on the request.
    pub fn truncate(self, direction: Direction) -> (r: Request)
        ensures
            r.truncate matches Some(t) && t,
            r.truncate_direction matches Some(d) && d == direction,
            r.model == self.model,
            r.input@ == self.input@,
    {
        Self {
            truncate: Some(true),
            truncate_direction: Some(direction),
            ..self
        }
    }

    /// Adds one input to the request.
    pub fn add_input(self, text: Option<String>, image: Option<String>) -> (r: Request)
        ensures
            r.input@.len() == self.input@.len() + 1,
            r.input@ == self.input@.push(Input { text, image }),
            r.model == self.model,
            r.truncate == self.truncate,
            r.truncate_direction == self.truncate_direction,
    {
        let mut req = self;
        req.input.push(Input { text, image });
        req
    }

    /// Adds a list of inputs to the request.
    pub fn add_inputs(self, inputs: Vec<Input>) -> (r: Request)
        ensures
            r.input@ == self.input@ + inputs@,
            r.model == self.model,
            r.truncate == self.truncate,
            r.truncate_direction == self.truncate_direction,
    {
        let mut req = self;
        let ghost prior = req.input@;
        let ghost all = inputs@;
        let mut rest = inputs;
        while rest.len() > 0
            invariant
                req.input@ + rest@ =~= prior + all,
                req.model == self.model,
                req.truncate == self.truncate,
                req.truncate_direction == self.truncate_direction,
            decreases rest@.len(),
        {
            let item = rest.remove(0);
            req.input.push(item);
        }
        assert(req.input@ =~= prior + all);
        req
    }
}

/// The embedded data information for one response entry. The embedding
/// vector is carried as the IEEE-754 bit patterns of the wire values; the
/// transport layer converts.
#[derive(Debug, Clone)]
pub struct Data {
    pub index: i64,
    pub object: String,
    pub embedding: Vec<u64>,
}

/// The response returned from the embedding endpoint.
#[derive(Debug, Clone)]
pub struct Response {
    pub id: String,
    pub object: String,
    pub created: i64,
    pub model: String,
    pub data: Vec<Data>,
}

} // verus!
