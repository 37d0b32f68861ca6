//! Decoding one segment of a token into display text: base64url without
//! padding, then UTF-8, then JSON printed with two-space indentation.

use crate::text::{lemma_split_len, split, split_text};
use base64::Engine;
use vstd::prelude::*;
use vstd::utf8::{decode_utf8, valid_utf8};

verus! {

/// Why a segment could not be turned into display text.
#[derive(Clone, Copy, Debug, PartialEq, Eq, Structural)]
pub enum DecodeError {
    /// The segment is not base64url without padding.
    InvalidBase64,
    /// The decoded bytes are not UTF-8 text.
    InvalidUtf8,
    /// The text is not a JSON value.
    InvalidJson,
}

/// The error of `core::str::from_utf8`. Nothing is read from it.
#[verifier::external_type_specification]
#[verifier::external_body]
pub struct ExUtf8Error(core::str::Utf8Error);

/// A JSON value of `serde_json`. It is parsed and printed, never looked into.
#[verifier::external_type_specification]
#[verifier::external_body]
pub struct ExJsonValue(serde_json::Value);

/// The error of `serde_json`. Nothing is read from it.
#[verifier::external_type_specification]
#[verifier::external_body]
pub struct ExJsonError(serde_json::Error);

/// The bytes that `text` stands for in base64 with the URL-safe alphabet and
/// no padding, or `None` where `text` is no such encoding.
pub uninterp spec fn base64url_decoding(text: Seq<char>) -> Option<Seq<u8>>;

/// The JSON value that `text` denotes, or `None` where `text` is not JSON.
pub uninterp spec fn json_parsing(text: Seq<char>) -> Option<serde_json::Value>;

/// The text of `value` printed over several lines with two-space
/// indentation, or `None` where the printer gives up.
pub uninterp spec fn json_pretty_printing(value: serde_json::Value) -> Option<Seq<char>>;

/// `base64::Engine::decode` of the engine `URL_SAFE_NO_PAD`, with its error
/// dropped. Not proved: that its outcome depends on the text alone, which
/// `base64url_decoding` names.
#[verifier::external_body]
fn base64url_decode(text: &str) -> (outcome: Option<Vec<u8>>)
    ensures
        match outcome {
            Some(bytes) => base64url_decoding(text@) == Some(bytes@),
            None => base64url_decoding(text@) is None,
        },
{
    base64::engine::general_purpose::URL_SAFE_NO_PAD.decode(text).ok()
}

/// `core::str::from_utf8` succeeds on exactly the byte strings that are
/// UTF-8, and the text it returns is what those bytes decode to.
pub assume_specification<'a>[ core::str::from_utf8 ](bytes: &'a [u8]) -> (outcome: Result<
    &'a str,
    core::str::Utf8Error,
>)
    ensures
        outcome is Ok <==> valid_utf8(bytes@),
        outcome matches Ok(text) ==> text@ == decode_utf8(bytes@),
;

/// `serde_json::from_str` at the type `serde_json::Value`. Not proved: that
/// its outcome depends on the text alone, which `json_parsing` names.
#[verifier::external_body]
fn parse_json(text: &str) -> (outcome: Result<serde_json::Value, serde_json::Error>)
    ensures
        match outcome {
            Ok(value) => json_parsing(text@) == Some(value),
            Err(_) => json_parsing(text@) is None,
        },
{
    serde_json::from_str::<serde_json::Value>(text)
}

/// `serde_json::to_string_pretty` on a `serde_json::Value`. Not proved: that
/// its outcome depends on the value alone, which `json_pretty_printing`
/// names.
#[verifier::external_body]
fn print_json(value: &serde_json::Value) -> (outcome: Result<String, serde_json::Error>)
    ensures
        match outcome {
            Ok(text) => json_pretty_printing(*value) == Some(text@),
            Err(_) => json_pretty_printing(*value) is None,
        },
{
    serde_json::to_string_pretty(value)
}

/// What pretty-printing makes of JSON text: the parsed value printed again.
pub open spec fn pretty(text: Seq<char>) -> Option<Seq<char>> {
    match json_parsing(text) {
        Some(value) => json_pretty_printing(value),
        None => None,
    }
}

/// What decoding makes of the bytes of a segment.
pub open spec fn decoded_bytes(bytes: Seq<u8>) -> Result<Seq<char>, DecodeError> {
    if !valid_utf8(bytes) {
        Err(DecodeError::InvalidUtf8)
    } else {
        match pretty(decode_utf8(bytes)) {
            Some(text) => Ok(text),
            None => Err(DecodeError::InvalidJson),
        }
    }
}

/// What decoding makes of a segment.
pub open spec fn decoded_segment(segment: Seq<char>) -> Result<Seq<char>, DecodeError> {
    match base64url_decoding(segment) {
        None => Err(DecodeError::InvalidBase64),
        Some(bytes) => decoded_bytes(bytes),
    }
}

/// `outcome` with its text as a sequence of characters.
pub open spec fn as_text(outcome: Result<String, DecodeError>) -> Result<Seq<char>, DecodeError> {
    match outcome {
        Ok(text) => Ok(text@),
        Err(error) => Err(error),
    }
}

/// Parses `text` as JSON and prints the value with two-space indentation.
pub fn pretty_print(text: &str) -> (outcome: Result<String, DecodeError>)
    ensures
        match outcome {
            Ok(printed) => pretty(text@) == Some(printed@),
            Err(error) => error == DecodeError::InvalidJson && pretty(text@) is None,
        },
{
    match parse_json(text) {
        Err(_) => Err(DecodeError::InvalidJson),
        Ok(value) => match print_json(&value) {
            Err(_) => Err(DecodeError::InvalidJson),
            Ok(printed) => Ok(printed),
        },
    }
}

/// Reads the decoded bytes of a segment as UTF-8 text and pretty-prints the
/// JSON value they hold.
pub fn decode_bytes(bytes: &[u8]) -> (outcome: Result<String, DecodeError>)
    ensures
        as_text(outcome) == decoded_bytes(bytes@),
{
    match core::str::from_utf8(bytes) {
        Err(_) => Err(DecodeError::InvalidUtf8),
        Ok(text) => pretty_print(text),
    }
}

/// Decodes one segment of a token into pretty-printed JSON text.
pub fn decode_segment(segment: &str) -> (outcome: Result<String, DecodeError>)
    ensures
        as_text(outcome) == decoded_segment(segment@),
{
    match base64url_decode(segment) {
        None => Err(DecodeError::InvalidBase64),
        Some(bytes) => decode_bytes(bytes.as_slice()),
    }
}

/// The line shown in a pane in place of a segment that cannot be decoded.
pub open spec fn message_of(error: DecodeError) -> Seq<char> {
    match error {
        DecodeError::InvalidBase64 => "<this segment is not base64url text>"@,
        DecodeError::InvalidUtf8 => "<this segment does not hold UTF-8 text>"@,
        DecodeError::InvalidJson => "<this segment does not hold JSON>"@,
    }
}

/// The lines shown in a pane for a segment: the lines of its display text,
/// or one line that says why there is none.
pub open spec fn shown_lines(decoded: Result<Seq<char>, DecodeError>) -> Seq<Seq<char>> {
    match decoded {
        Ok(text) => split(text, '\n'),
        Err(error) => seq![message_of(error)],
    }
}

impl DecodeError {
    /// The line shown in a pane in place of a segment that cannot be decoded.
    pub fn message(&self) -> (text: &'static str)
        ensures
            text@ == message_of(*self),
    {
        match self {
            DecodeError::InvalidBase64 => "<this segment is not base64url text>",
            DecodeError::InvalidUtf8 => "<this segment does not hold UTF-8 text>",
            DecodeError::InvalidJson => "<this segment does not hold JSON>",
        }
    }
}

/// The lines to show in a pane for what decoding a segment gave. A segment
/// that cannot be decoded is shown as a message, not refused.
pub fn display_lines(decoded: Result<String, DecodeError>) -> (lines: Vec<String>)
    ensures
        lines.deep_view() == shown_lines(as_text(decoded)),
        lines.len() > 0,
{
    match decoded {
        Ok(text) => {
            proof {
                lemma_split_len(text@, '\n');
            }
            split_text(text.as_str(), '\n')
        },
        Err(error) => {
            let mut lines: Vec<String> = Vec::new();
            lines.push(error.message().to_owned());
            assert(lines.deep_view() == seq![message_of(error)]);
            lines
        },
    }
}

/// Printing again changes nothing, wherever the printed text reads back as
/// the value it was printed from.
pub proof fn lemma_printing_again_changes_nothing(text: Seq<char>)
    requires
        pretty(text) is Some,
        json_parsing(pretty(text)->0) == json_parsing(text),
    ensures
        pretty(pretty(text)->0) == pretty(text),
{
}

/// The display text of a segment is its own pretty-printing, wherever it
/// reads back as the value that the segment holds.
pub proof fn lemma_display_text_is_pretty(segment: Seq<char>)
    requires
        decoded_segment(segment) is Ok,
        json_parsing(decoded_segment(segment)->Ok_0) == json_parsing(
            decode_utf8(base64url_decoding(segment)->0),
        ),
    ensures
        pretty(decoded_segment(segment)->Ok_0) == Some(decoded_segment(segment)->Ok_0),
{
}

} // verus!
