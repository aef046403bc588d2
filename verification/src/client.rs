//! Connectivity-facing types and the decision logic of every call against
//! the Prediction Guard API: configuration, the error envelope, status
//! handling, and the streaming event loop.
//!
//! The transport performs the I/O and the JSON coding; each decision it has
//! to make — what a status code means, what a streamed frame asks for, what
//! error a failed decode yields — is a verified function here.

use vstd::prelude::*;

use crate::chat;
use crate::str_eq;

verus! {

/// The error envelope returned from the API on a non-200 status.
#[derive(Debug, Clone)]
pub struct ApiError {
    pub error: String,
}

impl ApiError {
    /// The display form of the error.
    pub fn message(&self) -> (r: String)
        ensures
            r@ == "error "@ + self.error@,
    {
        let mut s = "error ".to_owned();
        s.append(self.error.as_str());
        s
    }
}

/// Prediction Guard configuration: the API key and the host URL.
#[derive(Debug, Clone)]
pub struct PgEnvironment {
    pub key: String,
    pub host: String,
}

impl PgEnvironment {
    /// Specify the Prediction Guard API configuration manually.
    pub fn new(key: String, host: String) -> (r: Self)
        ensures
            r.key == key,
            r.host == host,
    {
        Self { key, host }
    }
}

/// Joins the configured base URL with a capability path.
pub fn endpoint_url(base: &str, path: &str) -> (r: String)
    ensures
        r@ == base@ + path@,
{
    let mut url = base.to_owned();
    url.append(path);
    url
}

/// The outcome of decoding a JSON body, as the transport reports it: the
/// decoded value, or the decoder's failure text.
#[derive(Debug, Clone)]
pub enum Parse<T> {
    Parsed(T),
    Malformed(String),
}

/// The failure of one call: the service's own error envelope, a success
/// body that could not be decoded, or an error envelope that itself could
/// not be parsed.
#[derive(Debug, Clone)]
pub enum CallError {
    Api(ApiError),
    Decode(String),
    ErrorEnvelope(String),
}

impl CallError {
    /// The display form of the failure.
    pub fn message(&self) -> (r: String)
        ensures
            self matches CallError::Api(a) ==> r@ == "error "@ + a.error@,
            self matches CallError::Decode(m) ==> r@ == m@,
            self matches CallError::ErrorEnvelope(m) ==> r@ == "error parsing error response, "@
                + m@,
    {
        match self {
            CallError::Api(a) => a.message(),
            CallError::Decode(m) => m.clone(),
            CallError::ErrorEnvelope(m) => {
                let mut s = "error parsing error response, ".to_owned();
                s.append(m.as_str());
                s
            },
        }
    }
}

/// Whether an HTTP status is the one success status the API uses.
pub open spec fn spec_is_success(status: u16) -> bool {
    status == 200
}

/// Checks an HTTP status code: exactly 200 counts as success, anything else
/// is an error.
pub fn is_success_status(status: u16) -> (r: bool)
    ensures
        r == spec_is_success(status),
{
    status == 200
}

/// Completes a call whose HTTP status was 200: the call succeeds exactly
/// when the body decoded, and a decode failure is surfaced as a decode
/// error, distinct from a service-reported one.
pub fn accept_response<T>(body: Parse<T>) -> (r: Result<T, CallError>)
    ensures
        r is Ok <==> body is Parsed,
        body matches Parse::Parsed(v) ==> r matches Ok(x) && x == v,
        body matches Parse::Malformed(m) ==> r matches Err(e) && e == CallError::Decode(m),
{
    match body {
        Parse::Parsed(v) => Ok(v),
        Parse::Malformed(m) => Err(CallError::Decode(m)),
    }
}

/// Builds the typed error for a call whose HTTP status was not 200: the
/// decoded error envelope when the body parsed, and a parse-failure error
/// carrying the decoder's text when it did not.
pub fn reject_response(envelope: Parse<ApiError>) -> (e: CallError)
    ensures
        envelope matches Parse::Parsed(a) ==> e matches CallError::Api(b) && b == a,
        envelope matches Parse::Malformed(m) ==> e matches CallError::ErrorEnvelope(t) && t == m,
{
    match envelope {
        Parse::Parsed(a) => CallError::Api(a),
        Parse::Malformed(m) => CallError::ErrorEnvelope(m),
    }
}

/// What the stream loop does with one decision, executable form.
#[derive(Debug, Clone)]
pub enum StreamAction {
    /// Nothing to forward; keep consuming events.
    Ignore,
    /// Forward one text increment to the sink, then keep consuming.
    Deliver(String),
    /// A stop choice arrived: end the loop with this final response.
    Complete(chat::ResponseEvents),
    /// The literal done marker arrived: end the loop with no final response.
    CloseStream,
    /// A frame failed to decode: abort the loop with this error.
    Abort(ApiError),
}

/// What the stream loop does with one decision, specification form: text is
/// a character sequence.
pub enum SpecAction {
    Ignore,
    Deliver(Seq<char>),
    Complete(chat::ResponseEvents),
    CloseStream,
    Abort(Seq<char>),
}

/// The specification form of an executable stream action.
pub open spec fn action_view(a: StreamAction) -> SpecAction {
    match a {
        StreamAction::Ignore => SpecAction::Ignore,
        StreamAction::Deliver(s) => SpecAction::Deliver(s@),
        StreamAction::Complete(r) => SpecAction::Complete(r),
        StreamAction::CloseStream => SpecAction::CloseStream,
        StreamAction::Abort(e) => SpecAction::Abort(e.error@),
    }
}

/// Whether a streamed choice carries the terminal finish reason.
pub open spec fn is_stop_choice(c: chat::ChoiceEvents) -> bool {
    c.finish_reason matches Some(fr) && fr@ == "stop"@
}

/// The action the stream loop takes for one data frame: the literal done
/// marker closes the stream; a frame that fails to decode aborts; an event
/// with no choices is a skippable heartbeat; a stop choice completes the
/// stream with that response; anything else delivers the first choice's
/// delta content.
pub open spec fn frame_action_spec(data: Seq<char>, payload: Parse<chat::ResponseEvents>) -> SpecAction {
    if data == "[DONE]"@ {
        SpecAction::CloseStream
    } else {
        match payload {
            Parse::Parsed(r) => {
                if r.choices@.len() == 0 {
                    SpecAction::Ignore
                } else if is_stop_choice(r.choices@[0]) {
                    SpecAction::Complete(r)
                } else {
                    SpecAction::Deliver(r.choices@[0].delta.content@)
                }
            },
            Parse::Malformed(m) => SpecAction::Abort("error parsing stream response: "@ + m@),
        }
    }
}

/// Decides what to do with one streamed data frame, given its raw text and
/// the decode outcome the transport produced for it.
pub fn frame_action(data: &str, payload: Parse<chat::ResponseEvents>) -> (a: StreamAction)
    ensures
        action_view(a) == frame_action_spec(data@, payload),
{
    if str_eq(data, "[DONE]") {
        StreamAction::CloseStream
    } else {
        match payload {
            Parse::Parsed(r) => {
                if r.choices.len() == 0 {
                    StreamAction::Ignore
                } else {
                    let stop = match &r.choices[0].finish_reason {
                        Some(fr) => str_eq(fr.as_str(), "stop"),
                        None => false,
                    };
                    if stop {
                        StreamAction::Complete(r)
                    } else {
                        let content = r.choices[0].delta.content.clone();
                        StreamAction::Deliver(content)
                    }
                }
            },
            Parse::Malformed(m) => {
                let mut s = "error parsing stream response: ".to_owned();
                s.append(m.as_str());
                StreamAction::Abort(ApiError { error: s })
            },
        }
    }
}

/// One frame of an event stream, as the transport hands it over after SSE
/// framing: a comment, or a data frame with its raw text and the decode
/// outcome of that text.
#[derive(Debug, Clone)]
pub enum ScriptFrame {
    Comment,
    Data(String, Parse<chat::ResponseEvents>),
}

/// How one streaming call ends, executable form.
#[derive(Debug, Clone)]
pub enum StreamOutcome {
    /// A stop choice ended the stream: this is the final response.
    Final(chat::ResponseEvents),
    /// The literal done marker ended the stream: no final response.
    DoneMarker,
    /// The transport reported the stream closed: no final response.
    Closed,
    /// A frame failed to decode: the stream was aborted with this error.
    Failed(ApiError),
}

/// How one streaming call ends, specification form.
pub enum SpecOutcome {
    Final(chat::ResponseEvents),
    DoneMarker,
    Closed,
    Failed(Seq<char>),
}

/// The specification form of an executable stream outcome.
pub open spec fn outcome_view(o: StreamOutcome) -> SpecOutcome {
    match o {
        StreamOutcome::Final(r) => SpecOutcome::Final(r),
        StreamOutcome::DoneMarker => SpecOutcome::DoneMarker,
        StreamOutcome::Closed => SpecOutcome::Closed,
        StreamOutcome::Failed(e) => SpecOutcome::Failed(e.error@),
    }
}

/// The increments a stream of frames delivers to the sink, in server order,
/// up to the frame that ends the stream.
pub open spec fn spec_deliveries(frames: Seq<ScriptFrame>) -> Seq<Seq<char>>
    decreases frames.len(),
{
    if frames.len() == 0 {
        Seq::empty()
    } else {
        match frames[0] {
            ScriptFrame::Comment => spec_deliveries(frames.drop_first()),
            ScriptFrame::Data(data, payload) => {
                match frame_action_spec(data@, payload) {
                    SpecAction::Ignore => spec_deliveries(frames.drop_first()),
                    SpecAction::Deliver(s) => seq![s] + spec_deliveries(frames.drop_first()),
                    SpecAction::Complete(_) => Seq::empty(),
                    SpecAction::CloseStream => Seq::empty(),
                    SpecAction::Abort(_) => Seq::empty(),
                }
            },
        }
    }
}

/// How a stream of frames ends: the first terminal frame decides, and a
/// stream that runs out of frames counts as closed by the transport.
pub open spec fn spec_outcome(frames: Seq<ScriptFrame>) -> SpecOutcome
    decreases frames.len(),
{
    if frames.len() == 0 {
        SpecOutcome::Closed
    } else {
        match frames[0] {
            ScriptFrame::Comment => spec_outcome(frames.drop_first()),
            ScriptFrame::Data(data, payload) => {
                match frame_action_spec(data@, payload) {
                    SpecAction::Ignore => spec_outcome(frames.drop_first()),
                    SpecAction::Deliver(_) => spec_outcome(frames.drop_first()),
                    SpecAction::Complete(r) => SpecOutcome::Final(r),
                    SpecAction::CloseStream => SpecOutcome::DoneMarker,
                    SpecAction::Abort(m) => SpecOutcome::Failed(m),
                }
            },
        }
    }
}

/// Runs the streaming loop over a finite script of frames: the returned
/// vector holds exactly the increments delivered to the sink, in order, and
/// the outcome says how the stream ended. This is the callback delivery
/// mode, with the sink modelled as the collected vector.
#[verifier::loop_isolation(false)]
pub fn run_stream(frames: Vec<ScriptFrame>) -> (r: (Vec<String>, StreamOutcome))
    ensures
        r.0.deep_view() == spec_deliveries(frames@),
        outcome_view(r.1) == spec_outcome(frames@),
{
    let ghost all = frames@;
    let mut delivered: Vec<String> = Vec::new();
    let mut rest = frames;
    while rest.len() > 0
        invariant
            spec_deliveries(all) == delivered.deep_view() + spec_deliveries(rest@),
            spec_outcome(all) == spec_outcome(rest@),
        decreases rest@.len(),
    {
        let ghost prev = rest@;
        let frame = rest.remove(0);
        proof {
            assert(rest@ =~= prev.drop_first());
        }
        match frame {
            ScriptFrame::Comment => {},
            ScriptFrame::Data(data, payload) => {
                proof {
                    assert(prev[0] matches ScriptFrame::Data(d, p) && d == data && p == payload);
                }
                let act = frame_action(data.as_str(), payload);
                match act {
                    StreamAction::Ignore => {},
                    StreamAction::Deliver(s) => {
                        let ghost dv = delivered.deep_view();
                        delivered.push(s);
                        proof {
                            assert(delivered.deep_view() =~~= dv.push(s@));
                            assert(dv.push(s@) + spec_deliveries(rest@) =~~= dv + (seq![s@]
                                + spec_deliveries(rest@)));
                        }
                    },
                    StreamAction::Complete(resp) => {
                        proof {
                            assert(delivered.deep_view() + Seq::<Seq<char>>::empty()
                                =~~= delivered.deep_view());
                        }
                        return (delivered, StreamOutcome::Final(resp));
                    },
                    StreamAction::CloseStream => {
                        proof {
                            assert(delivered.deep_view() + Seq::<Seq<char>>::empty()
                                =~~= delivered.deep_view());
                        }
                        return (delivered, StreamOutcome::DoneMarker);
                    },
                    StreamAction::Abort(e) => {
                        proof {
                            assert(delivered.deep_view() + Seq::<Seq<char>>::empty()
                                =~~= delivered.deep_view());
                        }
                        return (delivered, StreamOutcome::Failed(e));
                    },
                }
            },
        }
    }
    proof {
        assert(delivered.deep_view() + Seq::<Seq<char>>::empty() =~~= delivered.deep_view());
    }
    (delivered, StreamOutcome::Closed)
}

/// The exact message sequence the async delivery mode pushes to the
/// consumer: the increments in order, then the reserved "STOP" sentinel
/// when the stream terminated via the done marker or a stop choice — and no
/// sentinel when the transport closed the stream or the loop aborted.
pub open spec fn spec_channel_messages(frames: Seq<ScriptFrame>) -> Seq<Seq<char>> {
    if spec_outcome(frames) is Final || spec_outcome(frames) is DoneMarker {
        spec_deliveries(frames).push("STOP"@)
    } else {
        spec_deliveries(frames)
    }
}

/// Runs the streaming loop in the async delivery mode over a finite script
/// of frames: the returned vector holds exactly the messages pushed onto
/// the consumer's channel, in order, sentinel included.
pub fn run_stream_channel(frames: Vec<ScriptFrame>) -> (r: (Vec<String>, StreamOutcome))
    ensures
        r.0.deep_view() == spec_channel_messages(frames@),
        outcome_view(r.1) == spec_outcome(frames@),
{
    let (mut msgs, outcome) = run_stream(frames);
    let send_sentinel = match &outcome {
        StreamOutcome::Final(_) => true,
        StreamOutcome::DoneMarker => true,
        StreamOutcome::Closed => false,
        StreamOutcome::Failed(_) => false,
    };
    if send_sentinel {
        let ghost dv = msgs.deep_view();
        msgs.push("STOP".to_owned());
        proof {
            assert(msgs.deep_view() =~~= dv.push("STOP"@));
        }
    }
    (msgs, outcome)
}

/// Law: in the async delivery mode, for a stream that terminates normally
/// (done marker or stop choice) and whose increments never equal the
/// reserved sentinel, the consumer observes "STOP" exactly once, and only
/// after every real increment.
pub proof fn lemma_sentinel_exactly_once(frames: Seq<ScriptFrame>)
    requires
        spec_outcome(frames) is Final || spec_outcome(frames) is DoneMarker,
        forall|i: int|
            0 <= i < spec_deliveries(frames).len() ==> spec_deliveries(frames)[i] != "STOP"@,
    ensures
        ({
            let msgs = spec_channel_messages(frames);
            &&& msgs.len() == spec_deliveries(frames).len() + 1
            &&& msgs[msgs.len() - 1] == "STOP"@
            &&& forall|i: int| 0 <= i < msgs.len() - 1 ==> msgs[i] != "STOP"@
        }),
{
}

/// Maps how a stream ended to the result of the streaming call: the final
/// response when a stop choice ended the stream, no response when the done
/// marker or the transport did, and the typed error when the loop aborted.
pub fn outcome_result(o: StreamOutcome) -> (r: Result<Option<chat::ResponseEvents>, ApiError>)
    ensures
        o matches StreamOutcome::Final(resp) ==> r matches Ok(x) && x matches Some(v) && v
            == resp,
        o is DoneMarker || o is Closed ==> (r matches Ok(x) && x is None),
        o matches StreamOutcome::Failed(e) ==> r matches Err(x) && x == e,
{
    match o {
        StreamOutcome::Final(resp) => Ok(Some(resp)),
        StreamOutcome::DoneMarker => Ok(None),
        StreamOutcome::Closed => Ok(None),
        StreamOutcome::Failed(e) => Err(e),
    }
}

} // verus!
