//! The closed set of failure categories that every consumer of the scene
//! graph reports, together with the conversion of low-level string-decoding
//! failures into the `Primitive` category.

use vstd::prelude::*;

verus! {

/// Every failure the translation layer can surface, as a closed set of
/// categories. The string-bearing variants carry a human-readable message.
#[derive(Debug)]
pub enum RussimpError {
    Import(String),
    MetadataError(String),
    MaterialError(String),
    Primitive(String),
    TextureNotFound,
}

/// The result type shared by every fallible operation of the layer.
pub type Russult<T> = Result<T, RussimpError>;

#[verifier::external_type_specification]
#[verifier::external_body]
pub struct ExUtf8Error(std::str::Utf8Error);

/// The text that the decoder renders for a given UTF-8 failure. The
/// description is a fixed-format function of the error's own fields —
/// nothing else flows into it — so it gets a name rather than a
/// transcription.
pub uninterp spec fn utf8_message_of(error: std::str::Utf8Error) -> Seq<char>;

/// Relies on `<Utf8Error as ToString>::to_string` (through its `Display`
/// implementation) to render the decoder's description of the failure,
/// a fixed-format text determined by the error value alone.
#[verifier::external_body]
fn utf8_error_description(error: &std::str::Utf8Error) -> (result: String)
    ensures
        result@ == utf8_message_of(*error),
{
    error.to_string()
}

impl RussimpError {
    /// The text that `message` renders: the `Import` variant shows its own
    /// message, every other variant a fixed placeholder.
    pub open spec fn message_spec(&self) -> Seq<char> {
        match self {
            RussimpError::Import(content) => content@,
            _ => "unknown error"@,
        }
    }

    /// Renders the error for humans. Only the `Import` variant shows the
    /// message it carries; every other variant renders the fixed placeholder
    /// text, message-bearing or not.
    pub fn message(&self) -> (result: &str)
        ensures
            result@ == self.message_spec(),
    {
        match self {
            RussimpError::Import(content) => content.as_str(),
            _ => "unknown error",
        }
    }

    /// Lifts a failed UTF-8 decode of native text into the `Primitive`
    /// category, carrying exactly the decoder's message.
    pub fn from_utf8_error(error: &std::str::Utf8Error) -> (result: Self)
        ensures
            result matches RussimpError::Primitive(message) && message@ == utf8_message_of(
                *error,
            ),
    {
        RussimpError::Primitive(utf8_error_description(error))
    }
}

} // verus!
