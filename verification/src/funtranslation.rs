//! The translation side of the service: the two supported translation
//! styles, request construction for the upstream translation API, and the
//! reading of its success counter.

use vstd::prelude::*;
use vstd::string::StringExecFns;

verus! {

/// Only two styles of translation are supported: Shakespeare and Yoda.
#[derive(Debug, Clone, Copy, PartialEq, Eq, Structural)]
pub enum TranslationMethod {
    Shakespeare,
    Yoda,
}

impl TranslationMethod {
    /// The canonical lowercase name of the style, as the upstream API
    /// spells it in its request paths.
    pub open spec fn spec_name(self) -> Seq<char> {
        match self {
            TranslationMethod::Shakespeare => "shakespeare"@,
            TranslationMethod::Yoda => "yoda"@,
        }
    }

    /// The canonical lowercase name of the style.
    pub fn name(&self) -> (r: &'static str)
        ensures
            r@ == self.spec_name(),
    {
        match self {
            TranslationMethod::Shakespeare => "shakespeare",
            TranslationMethod::Yoda => "yoda",
        }
    }
}

/// Failures of a translation attempt: the upstream was unreachable or
/// answered badly, or it answered well but translated nothing.
#[derive(Debug)]
pub enum TranslationError {
    FailedToFetchTranslation,
    UnsuccessfulTranslation,
}

/// The percent-encoded form of a text, with every character outside
/// ASCII alphanumerics encoded.
pub uninterp spec fn percent_encoded(s: Seq<char>) -> Seq<char>;

/// Relies on percent_encoding::utf8_percent_encode with the NON_ALPHANUMERIC
/// set: the encoding is a pure function of the input characters alone.
#[verifier::external_body]
fn percent_encode_text(text: &str) -> (r: String)
    ensures
        r@ == percent_encoded(text@),
{
    percent_encoding::utf8_percent_encode(text, percent_encoding::NON_ALPHANUMERIC).to_string()
}

/// The request path of a translation: the style's canonical lowercase name
/// followed by the fixed suffix.
pub fn translation_path(method: TranslationMethod) -> (r: String)
    ensures
        r@ == method.spec_name() + ".json"@,
{
    method.name().to_owned().concat(".json")
}

/// The query string of a translation request: the fixed parameter name
/// followed by the percent-encoded text.
pub fn translation_query(text: &str) -> (r: String)
    ensures
        r@ == "text="@ + percent_encoded(text@),
{
    let encoded = percent_encode_text(text);
    "text=".to_owned().concat(encoded.as_str())
}

/// Reads the upstream success counter: a zero counter means the request was
/// accepted but nothing was translated; a non-zero counter carries the
/// translated text through verbatim.
pub fn interpret_translation(total: usize, translated: String) -> (r: Result<
    String,
    TranslationError,
>)
    ensures
        total == 0 ==> (r matches Err(e) && e is UnsuccessfulTranslation),
        total != 0 ==> (r matches Ok(t) && t == translated),
{
    if total == 0 {
        Err(TranslationError::UnsuccessfulTranslation)
    } else {
        Ok(translated)
    }
}

/// A translation capability: the network-backed client and the test doubles
/// both stand behind this trait.
pub trait FunTranslationTrait {
    fn translate(&self, method: TranslationMethod, text: &str) -> Result<String, TranslationError>;
}

} // verus!
