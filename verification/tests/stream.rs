use prediction_guard::chat::{ChoiceEvents, EventsDelta, ResponseEvents};
use prediction_guard::client::{
    frame_action, outcome_result, run_stream, run_stream_channel, Parse, ScriptFrame,
    StreamAction, StreamOutcome,
};
use prediction_guard::models::Model;

fn delta_events(content: &str, finish_reason: Option<&str>) -> ResponseEvents {
    ResponseEvents {
        id: "chat-i9UtWgZWWRoKrtoaH7uAj8ZOe41u7".to_string(),
        object: "chat.completion.chunk".to_string(),
        created: 1716927031,
        model: Model::NeuralChat7B,
        choices: vec![ChoiceEvents {
            generated_text: None,
            index: 0,
            logprobs: 0,
            finish_reason: finish_reason.map(|s| s.to_string()),
            delta: EventsDelta {
                content: content.to_string(),
            },
        }],
    }
}

fn delta_frame(content: &str) -> ScriptFrame {
    ScriptFrame::Data(
        format!("{{\"delta\":\"{content}\"}}"),
        Parse::Parsed(delta_events(content, None)),
    )
}

fn stop_frame() -> ScriptFrame {
    ScriptFrame::Data(
        "{\"finish_reason\":\"stop\"}".to_string(),
        Parse::Parsed(delta_events("", Some("stop"))),
    )
}

fn done_frame() -> ScriptFrame {
    ScriptFrame::Data(
        "[DONE]".to_string(),
        Parse::Malformed("expected value at line 1 column 1".to_string()),
    )
}

#[test]
fn stream_three_deltas_then_stop() {
    let frames = vec![
        delta_frame("Hello"),
        delta_frame(", "),
        delta_frame("world"),
        stop_frame(),
    ];

    let (delivered, outcome) = run_stream(frames);

    assert_eq!(delivered, vec!["Hello", ", ", "world"]);
    match outcome {
        StreamOutcome::Final(resp) => {
            assert_eq!(resp.choices[0].finish_reason.as_deref(), Some("stop"));
            assert!(!resp.id.is_empty());
        }
        other => panic!("expected a final response, got {:?}", other),
    }
}

#[test]
fn stream_done_marker_means_no_final_response() {
    let frames = vec![delta_frame("a"), delta_frame("b"), done_frame()];

    let (delivered, outcome) = run_stream(frames);

    assert_eq!(delivered, vec!["a", "b"]);
    assert!(matches!(outcome, StreamOutcome::DoneMarker));
    assert!(outcome_result(outcome).expect("not an error").is_none());
}

#[test]
fn stream_closed_by_transport_means_no_final_response() {
    let frames = vec![delta_frame("partial")];

    let (delivered, outcome) = run_stream(frames);

    assert_eq!(delivered, vec!["partial"]);
    assert!(matches!(outcome, StreamOutcome::Closed));
    assert!(outcome_result(outcome).expect("not an error").is_none());
}

#[test]
fn stream_comment_and_heartbeat_are_skipped() {
    let heartbeat = ScriptFrame::Data(
        "{\"choices\":[]}".to_string(),
        Parse::Parsed(ResponseEvents {
            id: "chat-heartbeat".to_string(),
            object: "chat.completion.chunk".to_string(),
            created: 1716927031,
            model: Model::NeuralChat7B,
            choices: vec![],
        }),
    );
    let frames = vec![
        ScriptFrame::Comment,
        heartbeat,
        delta_frame("only"),
        stop_frame(),
    ];

    let (delivered, outcome) = run_stream(frames);

    assert_eq!(delivered, vec!["only"]);
    assert!(matches!(outcome, StreamOutcome::Final(_)));
}

#[test]
fn stream_malformed_frame_aborts() {
    let frames = vec![
        delta_frame("kept"),
        ScriptFrame::Data(
            "not json".to_string(),
            Parse::Malformed("expected ident at line 1 column 2".to_string()),
        ),
        delta_frame("never seen"),
    ];

    let (delivered, outcome) = run_stream(frames);

    assert_eq!(delivered, vec!["kept"]);
    match outcome {
        StreamOutcome::Failed(e) => {
            assert_eq!(
                e.error,
                "error parsing stream response: expected ident at line 1 column 2"
            );
        }
        other => panic!("expected an abort, got {:?}", other),
    }
}

#[test]
fn stream_async_sentinel_once_after_increments() {
    let frames = vec![delta_frame("x"), delta_frame("y"), stop_frame()];

    let (messages, outcome) = run_stream_channel(frames);

    assert_eq!(messages, vec!["x", "y", "STOP"]);
    let stops = messages.iter().filter(|m| m.as_str() == "STOP").count();
    assert_eq!(stops, 1);
    assert_eq!(messages.last().map(String::as_str), Some("STOP"));
    assert!(matches!(outcome, StreamOutcome::Final(_)));
}

#[test]
fn stream_async_sentinel_after_done_marker() {
    let frames = vec![delta_frame("x"), done_frame()];

    let (messages, _outcome) = run_stream_channel(frames);

    assert_eq!(messages, vec!["x", "STOP"]);
}

#[test]
fn stream_async_no_sentinel_when_transport_closes() {
    let frames = vec![delta_frame("x")];

    let (messages, _outcome) = run_stream_channel(frames);

    assert_eq!(messages, vec!["x"]);
}

#[test]
fn frame_action_delivers_empty_content_for_absent_delta() {
    let action = frame_action("{}", Parse::Parsed(delta_events("", None)));
    match action {
        StreamAction::Deliver(content) => assert_eq!(content, ""),
        other => panic!("expected a delivery, got {:?}", other),
    }
}

#[test]
fn frame_action_done_marker_wins_over_payload() {
    let action = frame_action("[DONE]", Parse::Parsed(delta_events("late", None)));
    assert!(matches!(action, StreamAction::CloseStream));
}
