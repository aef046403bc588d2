use prediction_guard::client::{
    accept_response, endpoint_url, is_success_status, reject_response, ApiError, CallError,
    Parse, PgEnvironment,
};
use prediction_guard::completion;

#[test]
fn completion_success_body_accepted() {
    let body = completion::Response {
        id: "cmpl-6vw7vNwttbxjc86kikp9pGJqFcOaL".to_string(),
        object: "text_completion".to_string(),
        model: "Neural-Chat-7B".to_string(),
        created: 1716926174,
        choices: vec![completion::Choice {
            text: "if I continue to drink tea?".to_string(),
            index: 0,
        }],
    };

    assert!(is_success_status(200));
    let result = accept_response(Parse::Parsed(body));

    let resp = match result {
        Ok(r) => r,
        Err(e) => panic!("expected a response, got {:?}", e),
    };
    assert!(!resp.id.is_empty());
    assert!(!resp.object.is_empty());
    assert!(resp.created > 0);
    assert!(!resp.choices[0].text.is_empty());
}

#[test]
fn non_success_status_yields_api_error() {
    assert!(!is_success_status(400));
    let err = reject_response(Parse::Parsed(ApiError {
        error: "bad request".to_string(),
    }));

    match err {
        CallError::Api(a) => {
            assert_eq!(a.error, "bad request");
            assert_eq!(a.message(), "error bad request");
        }
        other => panic!("expected the service's error, got {:?}", other),
    }
}

#[test]
fn undecodable_success_body_is_a_decode_error() {
    let result = accept_response::<completion::Response>(Parse::Malformed(
        "missing field `id` at line 1 column 2".to_string(),
    ));

    match result {
        Err(CallError::Decode(m)) => {
            assert_eq!(m, "missing field `id` at line 1 column 2");
        }
        other => panic!("expected a decode error, got {:?}", other),
    }
}

#[test]
fn undecodable_error_envelope_is_reported_as_such() {
    let err = reject_response(Parse::Malformed("expected value at line 1 column 1".to_string()));

    match &err {
        CallError::ErrorEnvelope(m) => {
            assert_eq!(m, "expected value at line 1 column 1");
        }
        other => panic!("expected an envelope parse failure, got {:?}", other),
    }
    assert_eq!(
        err.message(),
        "error parsing error response, expected value at line 1 column 1"
    );
}

#[test]
fn endpoint_urls_join_base_and_path() {
    assert_eq!(
        endpoint_url("http://localhost:8080", "/completions"),
        "http://localhost:8080/completions"
    );
    assert_eq!(
        endpoint_url("https://api.example.test", prediction_guard::chat::path()),
        "https://api.example.test/chat/completions"
    );
    assert_eq!(prediction_guard::completion::path(), "/completions");
    assert_eq!(prediction_guard::embedding::path(), "/embeddings");
    assert_eq!(prediction_guard::factuality::path(), "/factuality");
    assert_eq!(prediction_guard::injection::path(), "/injection");
    assert_eq!(prediction_guard::pii::path(), "/PII");
    assert_eq!(prediction_guard::toxicity::path(), "/toxicity");
    assert_eq!(prediction_guard::translate::path(), "/translate");
    assert_eq!(prediction_guard::rerank::path(), "/rerank");
    assert_eq!(prediction_guard::tokenize::path(), "/tokenize");
    assert_eq!(prediction_guard::models::path(), "/models");
}

#[test]
fn status_codes_other_than_200_fail() {
    assert!(is_success_status(200));
    assert!(!is_success_status(201));
    assert!(!is_success_status(404));
    assert!(!is_success_status(500));
}

#[test]
fn environment_holds_key_and_host() {
    let env = PgEnvironment::new("api-key".to_string(), "http://localhost".to_string());
    assert_eq!(env.key, "api-key");
    assert_eq!(env.host, "http://localhost");
}

#[test]
fn simple_request_constructors() {
    let f = prediction_guard::factuality::Request::new(
        "The sky is blue.".to_string(),
        "The sky is green.".to_string(),
    );
    assert_eq!(f.reference, "The sky is blue.");
    assert_eq!(f.text, "The sky is green.");

    let i = prediction_guard::injection::Request::new("IGNORE ALL".to_string(), true);
    assert_eq!(i.prompt, "IGNORE ALL");
    assert!(i.detect);

    let t = prediction_guard::toxicity::Request::new("calm words".to_string());
    assert_eq!(t.text, "calm words");

    let tk = prediction_guard::tokenize::Request::new(
        "neural-chat-7b-v3-3".to_string(),
        "Tell me a joke.".to_string(),
    );
    assert_eq!(tk.model, "neural-chat-7b-v3-3");
    assert_eq!(tk.input, "Tell me a joke.");

    let p = prediction_guard::pii::Request::new(
        "My email is joe@gmail.com".to_string(),
        true,
        prediction_guard::pii::ReplaceMethod::Random,
    );
    assert_eq!(p.prompt, "My email is joe@gmail.com");
    assert!(p.replace);
    assert_eq!(p.replace_method, prediction_guard::pii::ReplaceMethod::Random);

    let r = prediction_guard::rerank::Request::new(
        "bge-reranker-v2-m3".to_string(),
        "What is Deep Learning?".to_string(),
        vec![
            "Deep Learning is pizza".to_string(),
            "Deep Learning is not pizza".to_string(),
        ],
        true,
    );
    assert_eq!(r.model, "bge-reranker-v2-m3");
    assert_eq!(r.documents.len(), 2);
    assert!(r.return_documents);

    let m = prediction_guard::models::Request::new("chat-completion".to_string());
    assert_eq!(m.capability.as_deref(), Some("chat-completion"));

    let tr = prediction_guard::translate::Request::new(
        "The rain in Spain stays mainly in the plain".to_string(),
        prediction_guard::translate::Language::English,
        prediction_guard::translate::Language::Spanish,
        true,
    );
    assert_eq!(tr.text, "The rain in Spain stays mainly in the plain");
    assert_eq!(tr.source_lang, prediction_guard::translate::Language::English);
    assert_eq!(tr.target_lang, prediction_guard::translate::Language::Spanish);
    assert!(tr.use_third_party_engine);
}

#[test]
fn models_path_carries_capability_filter() {
    assert_eq!(
        prediction_guard::models::path_with_capability(&Some("chat-completion".to_string())),
        "/models?capability=chat-completion"
    );
    assert_eq!(prediction_guard::models::path_with_capability(&None), "/models");
}
