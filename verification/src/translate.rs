//! Data types used for the translate endpoint, and the language wire codes.

use vstd::prelude::*;

use crate::str_eq;

verus! {

/// Path to the translate endpoint.
pub fn path() -> (r: &'static str)
    ensures
        r@ == "/translate"@,
{
    "/translate"
}

/// Languages supported by the translate endpoint, with a passthrough variant
/// so that a code this library does not know still round-trips without loss.
#[derive(Debug, Clone, PartialEq, Eq)]
pub enum Language {
    Afrikanns,
    Amharic,
    Arabic,
    Armenian,
    Azerbaijan,
    Basque,
    Belarusian,
    Bengali,
    Bosnian,
    Catalan,
    Chechen,
    Cherokee,
    Chinese,
    Croatian,
    Czech,
    Danish,
    Dutch,
    English,
    Estonian,
    Fijian,
    Filipino,
    Finnish,
    French,
    Galician,
    Georgian,
    German,
    Greek,
    Gujarati,
    Haitian,
    Hebrew,
    Hindi,
    Hungarian,
    Icelandic,
    Indonesian,
    Irish,
    Italian,
    Japanese,
    Kannada,
    Kazakh,
    Korean,
    Latvian,
    Lithuanian,
    Macedonian,
    Malay1,
    Malay2,
    Malayalam,
    Maltese,
    Marathi,
    Nepali,
    Norwegian,
    Persian,
    Polish,
    Portuguese,
    Romanian,
    Russian,
    Samoan,
    Serbian,
    Slovak,
    Slovenian,
    Slavonic,
    Spanish,
    Swahili,
    Swedish,
    Tamil,
    Telugu,
    Thai,
    Turkish,
    Ukrainian,
    Urdu,
    Welsh,
    Vietnamese,
    Other(String),
}

/// The wire code that a language value serializes to.
pub open spec fn language_code(l: Language) -> Seq<char> {
    match l {
        Language::Afrikanns => "afr"@,
        Language::Amharic => "amh"@,
        Language::Arabic => "ara"@,
        Language::Armenian => "hye"@,
        Language::Azerbaijan => "aze"@,
        Language::Basque => "eus"@,
        Language::Belarusian => "bel"@,
        Language::Bengali => "ben"@,
        Language::Bosnian => "bos"@,
        Language::Catalan => "cat"@,
        Language::Chechen => "che"@,
        Language::Cherokee => "chr"@,
        Language::Chinese => "zho"@,
        Language::Croatian => "hrv"@,
        Language::Czech => "ces"@,
        Language::Danish => "dan"@,
        Language::Dutch => "nld"@,
        Language::English => "eng"@,
        Language::Estonian => "est"@,
        Language::Fijian => "fij"@,
        Language::Filipino => "fil"@,
        Language::Finnish => "fin"@,
        Language::French => "fra"@,
        Language::Galician => "glg"@,
        Language::Georgian => "kat"@,
        Language::German => "deu"@,
        Language::Greek => "ell"@,
        Language::Gujarati => "guj"@,
        Language::Haitian => "hat"@,
        Language::Hebrew => "heb"@,
        Language::Hindi => "hin"@,
        Language::Hungarian => "hun"@,
        Language::Icelandic => "isl"@,
        Language::Indonesian => "ind"@,
        Language::Irish => "gle"@,
        Language::Italian => "ita"@,
        Language::Japanese => "jpn"@,
        Language::Kannada => "kan"@,
        Language::Kazakh => "kaz"@,
        Language::Korean => "kor"@,
        Language::Latvian => "lav"@,
        Language::Lithuanian => "lit"@,
        Language::Macedonian => "mkd"@,
        Language::Malay1 => "msa"@,
        Language::Malay2 => "zlm"@,
        Language::Malayalam => "mal"@,
        Language::Maltese => "mlt"@,
        Language::Marathi => "mar"@,
        Language::Nepali => "nep"@,
        Language::Norwegian => "nor"@,
        Language::Persian => "fas"@,
        Language::Polish => "pol"@,
        Language::Portuguese => "por"@,
        Language::Romanian => "ron"@,
        Language::Russian => "rus"@,
        Language::Samoan => "smo"@,
        Language::Serbian => "srp"@,
        Language::Slovak => "slk"@,
        Language::Slovenian => "slv"@,
        Language::Slavonic => "chu"@,
        Language::Spanish => "spa"@,
        Language::Swahili => "swh"@,
        Language::Swedish => "swe"@,
        Language::Tamil => "tam"@,
        Language::Telugu => "tel"@,
        Language::Thai => "tha"@,
        Language::Turkish => "tur"@,
        Language::Ukrainian => "ukr"@,
        Language::Urdu => "urd"@,
        Language::Welsh => "cym"@,
        Language::Vietnamese => "vie"@,
        Language::Other(s) => s@,
    }
}

/// The known variant that a wire code maps back to, if any.
pub open spec fn language_of_code(s: Seq<char>) -> Option<Language> {
    if s == "afr"@ {
        Some(Language::Afrikanns)
    } else if s == "amh"@ {
        Some(Language::Amharic)
    } else if s == "ara"@ {
        Some(Language::Arabic)
    } else if s == "hye"@ {
        Some(Language::Armenian)
    } else if s == "aze"@ {
        Some(Language::Azerbaijan)
    } else if s == "eus"@ {
        Some(Language::Basque)
    } else if s == "bel"@ {
        Some(Language::Belarusian)
    } else if s == "ben"@ {
        Some(Language::Bengali)
    } else if s == "bos"@ {
        Some(Language::Bosnian)
    } else if s == "cat"@ {
        Some(Language::Catalan)
    } else if s == "che"@ {
        Some(Language::Chechen)
    } else if s == "chr"@ {
        Some(Language::Cherokee)
    } else if s == "zho"@ {
        Some(Language::Chinese)
    } else if s == "hrv"@ {
        Some(Language::Croatian)
    } else if s == "ces"@ {
        Some(Language::Czech)
    } else if s == "dan"@ {
        Some(Language::Danish)
    } else if s == "nld"@ {
        Some(Language::Dutch)
    } else if s == "eng"@ {
        Some(Language::English)
    } else if s == "est"@ {
        Some(Language::Estonian)
    } else if s == "fij"@ {
        Some(Language::Fijian)
    } else if s == "fil"@ {
        Some(Language::Filipino)
    } else if s == "fin"@ {
        Some(Language::Finnish)
    } else if s == "fra"@ {
        Some(Language::French)
    } else if s == "glg"@ {
        Some(Language::Galician)
    } else if s == "kat"@ {
        Some(Language::Georgian)
    } else if s == "deu"@ {
        Some(Language::German)
    } else if s == "ell"@ {
        Some(Language::Greek)
    } else if s == "guj"@ {
        Some(Language::Gujarati)
    } else if s == "hat"@ {
        Some(Language::Haitian)
    } else if s == "heb"@ {
        Some(Language::Hebrew)
    } else if s == "hin"@ {
        Some(Language::Hindi)
    } else if s == "hun"@ {
        Some(Language::Hungarian)
    } else if s == "isl"@ {
        Some(Language::Icelandic)
    } else if s == "ind"@ {
        Some(Language::Indonesian)
    } else if s == "gle"@ {
        Some(Language::Irish)
    } else if s == "ita"@ {
        Some(Language::Italian)
    } else if s == "jpn"@ {
        Some(Language::Japanese)
    } else if s == "kan"@ {
        Some(Language::Kannada)
    } else if s == "kaz"@ {
        Some(Language::Kazakh)
    } else if s == "kor"@ {
        Some(Language::Korean)
    } else if s == "lav"@ {
        Some(Language::Latvian)
    } else if s == "lit"@ {
        Some(Language::Lithuanian)
    } else if s == "mkd"@ {
        Some(Language::Macedonian)
    } else if s == "msa"@ {
        Some(Language::Malay1)
    } else if s == "zlm"@ {
        Some(Language::Malay2)
    } else if s == "mal"@ {
        Some(Language::Malayalam)
    } else if s == "mlt"@ {
        Some(Language::Maltese)
    } else if s == "mar"@ {
        Some(Language::Marathi)
    } else if s == "nep"@ {
        Some(Language::Nepali)
    } else if s == "nor"@ {
        Some(Language::Norwegian)
    } else if s == "fas"@ {
        Some(Language::Persian)
    } else if s == "pol"@ {
        Some(Language::Polish)
    } else if s == "por"@ {
        Some(Language::Portuguese)
    } else if s == "ron"@ {
        Some(Language::Romanian)
    } else if s == "rus"@ {
        Some(Language::Russian)
    } else if s == "smo"@ {
        Some(Language::Samoan)
    } else if s == "srp"@ {
        Some(Language::Serbian)
    } else if s == "slk"@ {
        Some(Language::Slovak)
    } else if s == "slv"@ {
        Some(Language::Slovenian)
    } else if s == "chu"@ {
        Some(Language::Slavonic)
    } else if s == "spa"@ {
        Some(Language::Spanish)
    } else if s == "swh"@ {
        Some(Language::Swahili)
    } else if s == "swe"@ {
        Some(Language::Swedish)
    } else if s == "tam"@ {
        Some(Language::Tamil)
    } else if s == "tel"@ {
        Some(Language::Telugu)
    } else if s == "tha"@ {
        Some(Language::Thai)
    } else if s == "tur"@ {
        Some(Language::Turkish)
    } else if s == "ukr"@ {
        Some(Language::Ukrainian)
    } else if s == "urd"@ {
        Some(Language::Urdu)
    } else if s == "cym"@ {
        Some(Language::Welsh)
    } else if s == "vie"@ {
        Some(Language::Vietnamese)
    } else {
        None
    }
}

/// Holds when deserializing the wire code `s` yields the value `l`: a known
/// code maps to its variant, any other code is carried through unchanged in
/// `Language::Other`.
pub open spec fn language_decodes_to(s: Seq<char>, l: Language) -> bool {
    match language_of_code(s) {
        Some(k) => l == k,
        None => l matches Language::Other(t) && t@ == s,
    }
}

/// Serializes a language value to its wire code.
pub fn language_to_code(l: &Language) -> (r: String)
    ensures
        r@ == language_code(*l),
{
    match l {
        Language::Afrikanns => "afr".to_owned(),
        Language::Amharic => "amh".to_owned(),
        Language::Arabic => "ara".to_owned(),
        Language::Armenian => "hye".to_owned(),
        Language::Azerbaijan => "aze".to_owned(),
        Language::Basque => "eus".to_owned(),
        Language::Belarusian => "bel".to_owned(),
        Language::Bengali => "ben".to_owned(),
        Language::Bosnian => "bos".to_owned(),
        Language::Catalan => "cat".to_owned(),
        Language::Chechen => "che".to_owned(),
        Language::Cherokee => "chr".to_owned(),
        Language::Chinese => "zho".to_owned(),
        Language::Croatian => "hrv".to_owned(),
        Language::Czech => "ces".to_owned(),
        Language::Danish => "dan".to_owned(),
        Language::Dutch => "nld".to_owned(),
        Language::English => "eng".to_owned(),
        Language::Estonian => "est".to_owned(),
        Language::Fijian => "fij".to_owned(),
        Language::Filipino => "fil".to_owned(),
        Language::Finnish => "fin".to_owned(),
        Language::French => "fra".to_owned(),
        Language::Galician => "glg".to_owned(),
        Language::Georgian => "kat".to_owned(),
        Language::German => "deu".to_owned(),
        Language::Greek => "ell".to_owned(),
        Language::Gujarati => "guj".to_owned(),
        Language::Haitian => "hat".to_owned(),
        Language::Hebrew => "heb".to_owned(),
        Language::Hindi => "hin".to_owned(),
        Language::Hungarian => "hun".to_owned(),
        Language::Icelandic => "isl".to_owned(),
        Language::Indonesian => "ind".to_owned(),
        Language::Irish => "gle".to_owned(),
        Language::Italian => "ita".to_owned(),
        Language::Japanese => "jpn".to_owned(),
        Language::Kannada => "kan".to_owned(),
        Language::Kazakh => "kaz".to_owned(),
        Language::Korean => "kor".to_owned(),
        Language::Latvian => "lav".to_owned(),
        Language::Lithuanian => "lit".to_owned(),
        Language::Macedonian => "mkd".to_owned(),
        Language::Malay1 => "msa".to_owned(),
        Language::Malay2 => "zlm".to_owned(),
        Language::Malayalam => "mal".to_owned(),
        Language::Maltese => "mlt".to_owned(),
        Language::Marathi => "mar".to_owned(),
        Language::Nepali => "nep".to_owned(),
        Language::Norwegian => "nor".to_owned(),
        Language::Persian => "fas".to_owned(),
        Language::Polish => "pol".to_owned(),
        Language::Portuguese => "por".to_owned(),
        Language::Romanian => "ron".to_owned(),
        Language::Russian => "rus".to_owned(),
        Language::Samoan => "smo".to_owned(),
        Language::Serbian => "srp".to_owned(),
        Language::Slovak => "slk".to_owned(),
        Language::Slovenian => "slv".to_owned(),
        Language::Slavonic => "chu".to_owned(),
        Language::Spanish => "spa".to_owned(),
        Language::Swahili => "swh".to_owned(),
        Language::Swedish => "swe".to_owned(),
        Language::Tamil => "tam".to_owned(),
        Language::Telugu => "tel".to_owned(),
        Language::Thai => "tha".to_owned(),
        Language::Turkish => "tur".to_owned(),
        Language::Ukrainian => "ukr".to_owned(),
        Language::Urdu => "urd".to_owned(),
        Language::Welsh => "cym".to_owned(),
        Language::Vietnamese => "vie".to_owned(),
        Language::Other(s) => s.clone(),
    }
}

/// Deserializes a wire code into a language value; an unrecognized code
/// becomes `Language::Other` carrying exactly that code.
pub fn language_from_code(s: &str) -> (l: Language)
    ensures
        language_decodes_to(s@, l),
{
    if str_eq(s, "afr") {
        Language::Afrikanns
    } else if str_eq(s, "amh") {
        Language::Amharic
    } else if str_eq(s, "ara") {
        Language::Arabic
    } else if str_eq(s, "hye") {
        Language::Armenian
    } else if str_eq(s, "aze") {
        Language::Azerbaijan
    } else if str_eq(s, "eus") {
        Language::Basque
    } else if str_eq(s, "bel") {
        Language::Belarusian
    } else if str_eq(s, "ben") {
        Language::Bengali
    } else if str_eq(s, "bos") {
        Language::Bosnian
    } else if str_eq(s, "cat") {
        Language::Catalan
    } else if str_eq(s, "che") {
        Language::Chechen
    } else if str_eq(s, "chr") {
        Language::Cherokee
    } else if str_eq(s, "zho") {
        Language::Chinese
    } else if str_eq(s, "hrv") {
        Language::Croatian
    } else if str_eq(s, "ces") {
        Language::Czech
    } else if str_eq(s, "dan") {
        Language::Danish
    } else if str_eq(s, "nld") {
        Language::Dutch
    } else if str_eq(s, "eng") {
        Language::English
    } else if str_eq(s, "est") {
        Language::Estonian
    } else if str_eq(s, "fij") {
        Language::Fijian
    } else if str_eq(s, "fil") {
        Language::Filipino
    } else if str_eq(s, "fin") {
        Language::Finnish
    } else if str_eq(s, "fra") {
        Language::French
    } else if str_eq(s, "glg") {
        Language::Galician
    } else if str_eq(s, "kat") {
        Language::Georgian
    } else if str_eq(s, "deu") {
        Language::German
    } else if str_eq(s, "ell") {
        Language::Greek
    } else if str_eq(s, "guj") {
        Language::Gujarati
    } else if str_eq(s, "hat") {
        Language::Haitian
    } else if str_eq(s, "heb") {
        Language::Hebrew
    } else if str_eq(s, "hin") {
        Language::Hindi
    } else if str_eq(s, "hun") {
        Language::Hungarian
    } else if str_eq(s, "isl") {
        Language::Icelandic
    } else if str_eq(s, "ind") {
        Language::Indonesian
    } else if str_eq(s, "gle") {
        Language::Irish
    } else if str_eq(s, "ita") {
        Language::Italian
    } else if str_eq(s, "jpn") {
        Language::Japanese
    } else if str_eq(s, "kan") {
        Language::Kannada
    } else if str_eq(s, "kaz") {
        Language::Kazakh
    } else if str_eq(s, "kor") {
        Language::Korean
    } else if str_eq(s, "lav") {
        Language::Latvian
    } else if str_eq(s, "lit") {
        Language::Lithuanian
    } else if str_eq(s, "mkd") {
        Language::Macedonian
    } else if str_eq(s, "msa") {
        Language::Malay1
    } else if str_eq(s, "zlm") {
        Language::Malay2
    } else if str_eq(s, "mal") {
        Language::Malayalam
    } else if str_eq(s, "mlt") {
        Language::Maltese
    } else if str_eq(s, "mar") {
        Language::Marathi
    } else if str_eq(s, "nep") {
        Language::Nepali
    } else if str_eq(s, "nor") {
        Language::Norwegian
    } else if str_eq(s, "fas") {
        Language::Persian
    } else if str_eq(s, "pol") {
        Language::Polish
    } else if str_eq(s, "por") {
        Language::Portuguese
    } else if str_eq(s, "ron") {
        Language::Romanian
    } else if str_eq(s, "rus") {
        Language::Russian
    } else if str_eq(s, "smo") {
        Language::Samoan
    } else if str_eq(s, "srp") {
        Language::Serbian
    } else if str_eq(s, "slk") {
        Language::Slovak
    } else if str_eq(s, "slv") {
        Language::Slovenian
    } else if str_eq(s, "chu") {
        Language::Slavonic
    } else if str_eq(s, "spa") {
        Language::Spanish
    } else if str_eq(s, "swh") {
        Language::Swahili
    } else if str_eq(s, "swe") {
        Language::Swedish
    } else if str_eq(s, "tam") {
        Language::Tamil
    } else if str_eq(s, "tel") {
        Language::Telugu
    } else if str_eq(s, "tha") {
        Language::Thai
    } else if str_eq(s, "tur") {
        Language::Turkish
    } else if str_eq(s, "ukr") {
        Language::Ukrainian
    } else if str_eq(s, "urd") {
        Language::Urdu
    } else if str_eq(s, "cym") {
        Language::Welsh
    } else if str_eq(s, "vie") {
        Language::Vietnamese
    } else {
        Language::Other(s.to_owned())
    }
}

/// Round-trip identity: whatever value a wire code deserializes to
/// serializes back to exactly that code.
pub proof fn lemma_language_round_trip(s: Seq<char>, l: Language)
    requires
        language_decodes_to(s, l),
    ensures
        language_code(l) == s,
{
}

/// Request type used for the translate endpoint.
#[derive(Debug, Clone)]
pub struct Request {
    pub text: String,
    pub source_lang: Language,
    pub target_lang: Language,
    pub use_third_party_engine: bool,
}

impl Request {
    /// Creates a new request for translation.
    pub fn new(
        text: String,
        source_lang: Language,
        target_lang: Language,
        use_third_party_engine: bool,
    ) -> (r: Request)
        ensures
            r.text == text,
            r.source_lang == source_lang,
            r.target_lang == target_lang,
            r.use_third_party_engine == use_third_party_engine,
    {
        Self { text, source_lang, target_lang, use_third_party_engine }
    }
}

/// Response type used for the translate endpoint. Scores are carried as the
/// IEEE-754 bit patterns of the wire values; the transport layer converts.
#[derive(Debug, Clone)]
pub struct Response {
    pub id: String,
    pub object: String,
    pub created: i64,
    pub best_translation: String,
    pub best_score: u64,
    pub best_translation_model: String,
    pub translations: Vec<Translation>,
}

/// One candidate translation in the translate response. The score is the
/// IEEE-754 bit pattern of the wire value.
#[derive(Debug, Clone)]
pub struct Translation {
    pub score: u64,
    pub translation: String,
    pub model: String,
    pub status: String,
}

} // verus!
