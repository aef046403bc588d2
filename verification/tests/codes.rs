use prediction_guard::chat::{role_from_code, role_to_code, Roles};
use prediction_guard::embedding::{direction_from_code, direction_to_code, Direction};
use prediction_guard::models::{model_from_code, model_to_code, Model};
use prediction_guard::pii::{
    input_method_from_code, input_method_to_code, replace_method_from_code,
    replace_method_to_code, InputMethod, ReplaceMethod,
};
use prediction_guard::translate::{language_from_code, language_to_code, Language};

#[test]
fn language_codes_round_trip() {
    let codes = vec![
        "afr", "amh", "ara", "hye", "aze", "eus", "bel", "ben", "bos", "cat", "che", "chr",
        "zho", "hrv", "ces", "dan", "nld", "eng", "est", "fij", "fil", "fin", "fra", "glg",
        "kat", "deu", "ell", "guj", "hat", "heb", "hin", "hun", "isl", "ind", "gle", "ita",
        "jpn", "kan", "kaz", "kor", "lav", "lit", "mkd", "msa", "zlm", "mal", "mlt", "mar",
        "nep", "nor", "fas", "pol", "por", "ron", "rus", "smo", "srp", "slk", "slv", "chu",
        "spa", "swh", "swe", "tam", "tel", "tha", "tur", "ukr", "urd", "cym", "vie",
    ];
    for code in codes {
        let lang = language_from_code(code);
        assert!(!matches!(lang, Language::Other(_)));
        assert_eq!(language_to_code(&lang), code);
    }
}

#[test]
fn language_known_values() {
    assert_eq!(language_from_code("eng"), Language::English);
    assert_eq!(language_from_code("spa"), Language::Spanish);
    assert_eq!(language_to_code(&Language::English), "eng");
    assert_eq!(language_to_code(&Language::Spanish), "spa");
}

#[test]
fn language_unknown_passthrough() {
    let lang = language_from_code("tlh");
    assert_eq!(lang, Language::Other("tlh".to_string()));
    assert_eq!(language_to_code(&lang), "tlh");

    let empty = language_from_code("");
    assert_eq!(empty, Language::Other(String::new()));
    assert_eq!(language_to_code(&empty), "");
}

#[test]
fn model_codes_round_trip() {
    let codes = vec![
        "Hermes-2-Pro-Llama-3-8B",
        "Neural-Chat-7B",
        "llava-1.5-7b-hf",
        "bridgetower-large-itm-mlm-itc",
        "bge-reranker-v2-m3",
    ];
    for code in codes {
        let model = model_from_code(code);
        assert!(!matches!(model, Model::Other(_)));
        assert_eq!(model_to_code(&model), code);
    }
}

#[test]
fn model_unknown_passthrough() {
    let model = model_from_code("neural-chat-7b-v3-3");
    assert_eq!(model, Model::Other("neural-chat-7b-v3-3".to_string()));
    assert_eq!(model_to_code(&model), "neural-chat-7b-v3-3");
}

#[test]
fn role_codes_round_trip() {
    assert_eq!(role_to_code(&Roles::System), "system");
    assert_eq!(role_to_code(&Roles::User), "user");
    assert_eq!(role_to_code(&Roles::Assistant), "assistant");
    assert_eq!(role_from_code("system"), Some(Roles::System));
    assert_eq!(role_from_code("user"), Some(Roles::User));
    assert_eq!(role_from_code("assistant"), Some(Roles::Assistant));
    assert_eq!(role_from_code("moderator"), None);
}

#[test]
fn input_method_codes_round_trip() {
    assert_eq!(input_method_to_code(&InputMethod::Replace), "replace");
    assert_eq!(input_method_to_code(&InputMethod::Block), "block");
    assert_eq!(input_method_from_code("replace"), Some(InputMethod::Replace));
    assert_eq!(input_method_from_code("block"), Some(InputMethod::Block));
    assert_eq!(input_method_from_code("detect"), None);
}

#[test]
fn replace_method_codes_round_trip() {
    assert_eq!(replace_method_to_code(&ReplaceMethod::Random), "random");
    assert_eq!(replace_method_to_code(&ReplaceMethod::Mask), "mask");
    assert_eq!(replace_method_to_code(&ReplaceMethod::Category), "category");
    assert_eq!(replace_method_to_code(&ReplaceMethod::Fake), "fake");
    assert_eq!(replace_method_from_code("random"), Some(ReplaceMethod::Random));
    assert_eq!(replace_method_from_code("mask"), Some(ReplaceMethod::Mask));
    assert_eq!(replace_method_from_code("category"), Some(ReplaceMethod::Category));
    assert_eq!(replace_method_from_code("fake"), Some(ReplaceMethod::Fake));
    assert_eq!(replace_method_from_code("redact"), None);
}

#[test]
fn direction_codes_round_trip() {
    assert_eq!(direction_to_code(&Direction::Right), "Right");
    assert_eq!(direction_to_code(&Direction::Left), "Left");
    assert_eq!(direction_from_code("Right"), Some(Direction::Right));
    assert_eq!(direction_from_code("Left"), Some(Direction::Left));
    assert_eq!(direction_from_code("Up"), None);
}
