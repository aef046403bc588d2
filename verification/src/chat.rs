//! Data types used for the chat endpoints: chat completions, chat vision and
//! chat events.

use vstd::prelude::*;

use crate::models;
use crate::pii;
use crate::str_eq;

verus! {

/// Path to the chat completions endpoint.
pub fn path() -> (r: &'static str)
    ensures
        r@ == "/chat/completions"@,
{
    "/chat/completions"
}

/// The role types for chat requests and responses.
#[derive(Debug, Clone, PartialEq, Eq)]
pub enum Roles {
    System,
    User,
    Assistant,
}

/// The wire string that a role serializes to.
pub open spec fn role_code(r: Roles) -> Seq<char> {
    match r {
        Roles::System => "system"@,
        Roles::User => "user"@,
        Roles::Assistant => "assistant"@,
    }
}

/// Serializes a role to its wire string.
pub fn role_to_code(r: &Roles) -> (c: String)
    ensures
        c@ == role_code(*r),
{
    match r {
        Roles::System => "system".to_owned(),
        Roles::User => "user".to_owned(),
        Roles::Assistant => "assistant".to_owned(),
    }
}

/// Deserializes a wire string into a role; this enumeration is closed, so an
/// unrecognized string yields `None`.
pub fn role_from_code(s: &str) -> (r: Option<Roles>)
    ensures
        r matches Some(k) ==> role_code(k) == s@,
        r is None ==> forall|k: Roles| role_code(k) != s@,
{
    if str_eq(s, "system") {
        Some(Roles::System)
    } else if str_eq(s, "user") {
        Some(Roles::User)
    } else if str_eq(s, "assistant") {
        Some(Roles::Assistant)
    } else {
        assert forall|k: Roles| role_code(k) != s@ by {
            match k {
                Roles::System => {},
                Roles::User => {},
                Roles::Assistant => {},
            }
        }
        None
    }
}

/// Requests a PII check and an injection check on the inputs of a chat
/// request.
#[derive(Debug, Clone)]
pub struct RequestInput {
    pub block_prompt_injection: bool,
    pub pii: Option<pii::InputMethod>,
    pub pii_replace_method: Option<pii::ReplaceMethod>,
}

/// Requests checking the output of the request for factuality and toxicity.
#[derive(Debug, Clone)]
pub struct RequestOutput {
    pub factuality: bool,
    pub toxicity: bool,
}

/// A data URI holding a base64 encoded image.
#[derive(Debug, Clone)]
pub struct ImageURL {
    pub url: String,
}

/// The content of one chat vision entry: a prompt or an image.
#[derive(Debug, Clone)]
pub struct Content {
    pub content_type: String,
    pub text: Option<String>,
    pub image_url: Option<ImageURL>,
}

/// Message used when calling chat vision.
#[derive(Debug, Clone)]
pub struct MessageVision {
    pub role: Roles,
    pub content: Vec<Content>,
}

/// A message in a chat request or response.
#[derive(Debug, Clone)]
pub struct Message {
    pub role: Roles,
    pub content: String,
    pub output: Option<String>,
}

/// A request for the chat endpoints. Temperature and top-p are carried as
/// the IEEE-754 bit patterns of the wire values; the transport layer
/// converts.
#[derive(Debug, Clone)]
pub struct Request<T> {
    pub model: models::Model,
    pub messages: Vec<T>,
    pub max_tokens: i64,
    pub temperature: u64,
    pub top_p: Option<u64>,
    pub input: Option<RequestInput>,
    pub output: Option<RequestOutput>,
    pub stream: bool,
}

/// The input options that result from applying `block` and `pii_opt` on top
/// of previously set input options: a missing group is created, PII
/// sub-fields are overwritten only when new ones are given, and the rest is
/// kept.
pub open spec fn merged_input(
    prior: Option<RequestInput>,
    block: bool,
    pii_opt: Option<(pii::InputMethod, pii::ReplaceMethod)>,
) -> RequestInput {
    let base = match prior {
        Some(x) => x,
        None => RequestInput { block_prompt_injection: false, pii: None, pii_replace_method: None },
    };
    match pii_opt {
        Some(p) => RequestInput {
            block_prompt_injection: block,
            pii: Some(p.0),
            pii_replace_method: Some(p.1),
        },
        None => RequestInput {
            block_prompt_injection: block,
            pii: base.pii,
            pii_replace_method: base.pii_replace_method,
        },
    }
}

/// The request that results from applying the input options `block` and
/// `pii_opt` to `req`: only the `input` group changes.
pub open spec fn input_applied<T>(
    req: Request<T>,
    block: bool,
    pii_opt: Option<(pii::InputMethod, pii::ReplaceMethod)>,
) -> Request<T> {
    Request { input: Some(merged_input(req.input, block, pii_opt)), ..req }
}

/// The request that results from applying the output options to `req`: only
/// the `output` group changes, and both of its fields are overwritten.
pub open spec fn output_applied<T>(
    req: Request<T>,
    check_factuality: bool,
    check_toxicity: bool,
) -> Request<T> {
    Request {
        output: Some(RequestOutput { factuality: check_factuality, toxicity: check_toxicity }),
        ..req
    }
}

impl<T> Request<T> {
    /// Creates a new request for chat, with the documented defaults.
    pub fn new(model: models::Model) -> (r: Self)
        ensures
            r.model == model,
            r.messages@.len() == 0,
            r.max_tokens == 100,
            r.temperature == 0,
            r.top_p is None,
            r.input is None,
            r.output is None,
            !r.stream,
    {
        Self {
            model,
            messages: Vec::new(),
            max_tokens: 100,
            temperature: 0,
            top_p: None,
            input: None,
            output: None,
            stream: false,
        }
    }

    /// Returns the request with the added message.
    pub fn with_message(self, msg: T) -> (r: Request<T>)
        ensures
            r.messages@ == self.messages@.push(msg),
            r.model == self.model,
            r.max_tokens == self.max_tokens,
            r.temperature == self.temperature,
            r.top_p == self.top_p,
            r.input == self.input,
            r.output == self.output,
            r.stream == self.stream,
    {
        let mut req = self;
        req.messages.push(msg);
        req
    }

    /// Returns the request with the list of messages appended in order.
    pub fn with_messages(self, messages: Vec<T>) -> (r: Request<T>)
        ensures
            r.messages@ == self.messages@ + messages@,
            r.model == self.model,
            r.max_tokens == self.max_tokens,
            r.temperature == self.temperature,
            r.top_p == self.top_p,
            r.input == self.input,
            r.output == self.output,
            r.stream == self.stream,
    {
        let mut req = self;
        let ghost prior = req.messages@;
        let ghost all = messages@;
        let mut rest = messages;
        while rest.len() > 0
            invariant
                req.messages@ + rest@ =~= prior + all,
                req.model == self.model,
                req.max_tokens == self.max_tokens,
                req.temperature == self.temperature,
                req.top_p == self.top_p,
                req.input == self.input,
                req.output == self.output,
                req.stream == self.stream,
            decreases rest@.len(),
        {
            let msg = rest.remove(0);
            req.messages.push(msg);
        }
        assert(req.messages@ =~= prior + all);
        req
    }

    /// Sets the max tokens for the request.
    pub fn max_tokens(self, max: i64) -> (r: Request<T>)
        ensures
            r.max_tokens == max,
            r.model == self.model,
            r.messages@ == self.messages@,
            r.temperature == self.temperature,
            r.top_p == self.top_p,
            r.input == self.input,
            r.output == self.output,
            r.stream == self.stream,
    {
        Self { max_tokens: max, ..self }
    }

    /// Sets the temperature for the request, given as the IEEE-754 bit
    /// pattern of the value.
    pub fn temperature(self, temp: u64) -> (r: Request<T>)
        ensures
            r.temperature == temp,
            r.model == self.model,
            r.messages@ == self.messages@,
            r.max_tokens == self.max_tokens,
            r.top_p == self.top_p,
            r.input == self.input,
            r.output == self.output,
            r.stream == self.stream,
    {
        Self { temperature: temp, ..self }
    }

    /// Sets the top-p for the request, given as the IEEE-754 bit pattern of
    /// the value.
    pub fn top_p(self, top: u64) -> (r: Request<T>)
        ensures
            r.top_p matches Some(t) && t == top,
            r.model == self.model,
            r.messages@ == self.messages@,
            r.max_tokens == self.max_tokens,
            r.temperature == self.temperature,
            r.input == self.input,
            r.output == self.output,
            r.stream == self.stream,
    {
        Self { top_p: Some(top), ..self }
    }

    /// Sets the input options of the request, to check for prompt injection
    /// and PII. An existing group is updated in place: the injection flag is
    /// always overwritten, the PII sub-fields only when `pii` is given.
    pub fn input(
        self,
        block_prompt_injection: bool,
        pii: Option<(pii::InputMethod, pii::ReplaceMethod)>,
    ) -> (r: Request<T>)
        ensures
            r == input_applied(self, block_prompt_injection, pii),
    {
        let mut req = self;
        let prior = req.input;
        req.input = Some(
            match prior {
                Some(x) => {
                    match pii {
                        Some(p) => RequestInput {
                            block_prompt_injection,
                            pii: Some(p.0),
                            pii_replace_method: Some(p.1),
                        },
                        None => RequestInput {
                            block_prompt_injection,
                            pii: x.pii,
                            pii_replace_method: x.pii_replace_method,
                        },
                    }
                },
                None => {
                    match pii {
                        Some(p) => RequestInput {
                            block_prompt_injection,
                            pii: Some(p.0),
                            pii_replace_method: Some(p.1),
                        },
                        None => RequestInput {
                            block_prompt_injection,
                            pii: None,
                            pii_replace_method: None,
                        },
                    }
                },
            },
        );
        req
    }

    /// Sets the output options of the request, to check the response for
    /// factuality and toxicity. Both flags are always overwritten.
    pub fn output(self, check_factuality: bool, check_toxicity: bool) -> (r: Request<T>)
        ensures
            r == output_applied(self, check_factuality, check_toxicity),
    {
        let mut req = self;
        req.output = Some(RequestOutput { factuality: check_factuality, toxicity: check_toxicity });
        req
    }

    /// Readies the request for a streaming call: the stream flag is raised
    /// and the output checks are cleared, since they are incompatible with
    /// streaming. Everything else is kept.
    pub fn for_streaming(self) -> (r: Request<T>)
        ensures
            r.stream,
            r.output is None,
            r.model == self.model,
            r.messages@ == self.messages@,
            r.max_tokens == self.max_tokens,
            r.temperature == self.temperature,
            r.top_p == self.top_p,
            r.input == self.input,
    {
        let mut req = self;
        req.stream = true;
        req.output = None;
        req
    }
}

impl Request<Message> {
    /// Adds a message to the request when making a chat completion call or
    /// a chat events call.
    pub fn add_message(self, role: Roles, prompt: String) -> (r: Request<Message>)
        ensures
            r.messages@ == self.messages@.push(
                Message { role, content: prompt, output: None },
            ),
            r.model == self.model,
            r.max_tokens == self.max_tokens,
            r.temperature == self.temperature,
            r.top_p == self.top_p,
            r.input == self.input,
            r.output == self.output,
            r.stream == self.stream,
    {
        let mut req = self;
        req.messages.push(Message { role, content: prompt, output: None });
        req
    }
}

impl Request<MessageVision> {
    /// Adds a message to the request when making a chat vision call: an
    /// image entry followed by a text entry, under one role.
    pub fn add_message(self, role: Roles, prompt: String, image_uri: String) -> (r: Request<
        MessageVision,
    >)
        ensures
            r.messages@.len() == self.messages@.len() + 1,
            r.messages@.drop_last() == self.messages@,
            is_vision_message(r.messages@.last(), role, prompt, image_uri),
            r.model == self.model,
            r.max_tokens == self.max_tokens,
            r.temperature == self.temperature,
            r.top_p == self.top_p,
            r.input == self.input,
            r.output == self.output,
            r.stream == self.stream,
    {
        let img_content = Content {
            content_type: "image_url".to_owned(),
            text: None,
            image_url: Some(ImageURL { url: image_uri }),
        };
        let txt_content = Content {
            content_type: "text".to_owned(),
            text: Some(prompt),
            image_url: None,
        };
        let mut content: Vec<Content> = Vec::new();
        content.push(img_content);
        content.push(txt_content);
        let mut req = self;
        req.messages.push(MessageVision { role, content });
        assert(req.messages@.drop_last() =~= self.messages@);
        req
    }
}

/// Holds when `m` is the chat vision message that carries `prompt` and
/// `image_uri` under `role`: exactly two content entries, the image first,
/// the text prompt second.
pub open spec fn is_vision_message(
    m: MessageVision,
    role: Roles,
    prompt: String,
    image_uri: String,
) -> bool {
    &&& m.role == role
    &&& m.content@.len() == 2
    &&& m.content@[0].content_type@ == "image_url"@
    &&& m.content@[0].text is None
    &&& m.content@[0].image_url matches Some(u) && u.url == image_uri
    &&& m.content@[1].content_type@ == "text"@
    &&& m.content@[1].text matches Some(t) && t == prompt
    &&& m.content@[1].image_url is None
}

/// Law: applying the input options twice overwrites the injection flag and
/// the PII sub-fields with the later values, and touches nothing else on the
/// request; in particular previously set output checks are kept.
pub proof fn lemma_input_applied_twice<T>(
    req: Request<T>,
    b1: bool,
    p1: Option<(pii::InputMethod, pii::ReplaceMethod)>,
    b2: bool,
    p2: (pii::InputMethod, pii::ReplaceMethod),
)
    ensures
        ({
            let twice = input_applied(input_applied(req, b1, p1), b2, Some(p2));
            &&& twice.input matches Some(i) && i == RequestInput {
                block_prompt_injection: b2,
                pii: Some(p2.0),
                pii_replace_method: Some(p2.1),
            }
            &&& twice.output == req.output
            &&& twice.model == req.model
            &&& twice.messages == req.messages
            &&& twice.max_tokens == req.max_tokens
            &&& twice.temperature == req.temperature
            &&& twice.top_p == req.top_p
            &&& twice.stream == req.stream
        }),
{
}

/// Law: the output options are independent of the input options: applying
/// output checks before or after the input options yields the same request.
pub proof fn lemma_input_output_commute<T>(
    req: Request<T>,
    block: bool,
    pii_opt: Option<(pii::InputMethod, pii::ReplaceMethod)>,
    check_factuality: bool,
    check_toxicity: bool,
)
    ensures
        input_applied(
            output_applied(req, check_factuality, check_toxicity),
            block,
            pii_opt,
        ) == output_applied(input_applied(req, block, pii_opt), check_factuality, check_toxicity),
{
}

/// A choice in the chat response.
#[derive(Debug, Clone)]
pub struct ResponseChoice {
    pub message: Message,
    pub index: i64,
    pub status: String,
}

/// Response returned from the chat completions endpoint.
#[derive(Debug, Clone)]
pub struct Response {
    pub id: String,
    pub object: String,
    pub created: i64,
    pub model: models::Model,
    pub choices: Vec<ResponseChoice>,
}

/// The content that is streamed in a chat events response.
#[derive(Debug, Clone)]
pub struct EventsDelta {
    pub content: String,
}

/// A choice in a chat events response. Log-probabilities are carried as the
/// IEEE-754 bit pattern of the wire value; the transport layer converts.
#[derive(Debug, Clone)]
pub struct ChoiceEvents {
    pub generated_text: Option<String>,
    pub index: i64,
    pub logprobs: u64,
    pub finish_reason: Option<String>,
    pub delta: EventsDelta,
}

/// Completion response returned from the chat events endpoint.
#[derive(Debug, Clone)]
pub struct ResponseEvents {
    pub id: String,
    pub object: String,
    pub created: i64,
    pub model: models::Model,
    pub choices: Vec<ChoiceEvents>,
}

} // verus!
