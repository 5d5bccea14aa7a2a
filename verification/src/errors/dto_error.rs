//! The uniform error body and what a domain error must be able to tell.

use crate::status::StatusCode;
use crate::text::{decimal_text, digit_char, render_decimal};
use vstd::prelude::*;
use vstd::string::*;

verus! {

/// What every domain error can tell: how it is classified as an HTTP status
/// and how it describes itself to a reader.
pub trait DtoError {
    /// The status code under which the error is reported.
    fn status(&self) -> StatusCode;

    /// The human-readable description of the error.
    fn description(&self) -> String;
}

/// The body of an error reply: the numeric HTTP status and a message.
#[derive(Debug, PartialEq, Eq)]
pub struct ErrorDto {
    pub status: u16,
    pub message: String,
}

/// The character that writes a number below sixteen in base sixteen, in
/// lower case.
pub open spec fn hex_digit(n: nat) -> char {
    if n < 10 {
        digit_char(n)
    } else if n == 10 {
        'a'
    } else if n == 11 {
        'b'
    } else if n == 12 {
        'c'
    } else if n == 13 {
        'd'
    } else if n == 14 {
        'e'
    } else {
        'f'
    }
}

/// How one character stands inside a JSON string literal: the quote and
/// the backslash behind a backslash, five control characters by their
/// short escapes, every other character below the space as `\u00` and two
/// digits, and every other character as it is.
pub open spec fn escaped_char(c: char) -> Seq<char> {
    if c == '"' {
        seq!['\\', '"']
    } else if c == '\\' {
        seq!['\\', '\\']
    } else if c == '\u{8}' {
        seq!['\\', 'b']
    } else if c == '\t' {
        seq!['\\', 't']
    } else if c == '\n' {
        seq!['\\', 'n']
    } else if c == '\u{c}' {
        seq!['\\', 'f']
    } else if c == '\r' {
        seq!['\\', 'r']
    } else if (c as u32) < 32 {
        seq!['\\', 'u', '0', '0', hex_digit((c as u32 / 16) as nat), hex_digit((c as u32 % 16) as nat)]
    } else {
        seq![c]
    }
}

/// The characters of a text, each as it stands inside a JSON string
/// literal.
pub open spec fn escaped(text: Seq<char>) -> Seq<char>
    decreases text.len(),
{
    if text.len() == 0 {
        Seq::<char>::empty()
    } else {
        escaped(text.drop_last()) + escaped_char(text.last())
    }
}

/// The JSON string literal of a text: its escaped characters between two
/// quotes.
pub open spec fn json_string(text: Seq<char>) -> Seq<char> {
    seq!['"'] + escaped(text) + seq!['"']
}

/// Whether a character stands for itself inside a JSON string literal.
pub open spec fn is_plain_char(c: char) -> bool {
    (c as u32) >= 32 && c != '"' && c != '\\'
}

/// A text of plain characters is its own escaped form, so its literal is
/// the text between two quotes.
pub proof fn lemma_plain_text_quoted(text: Seq<char>)
    requires
        forall|i: int| 0 <= i < text.len() ==> is_plain_char(#[trigger] text[i]),
    ensures
        escaped(text) == text,
        json_string(text) == seq!['"'] + text + seq!['"'],
    decreases text.len(),
{
    if text.len() > 0 {
        let head = text.drop_last();
        assert forall|i: int| 0 <= i < head.len() implies is_plain_char(#[trigger] head[i]) by {
            assert(head[i] == text[i]);
        }
        lemma_plain_text_quoted(head);
        assert(is_plain_char(text.last()));
        assert(escaped(text) =~= text);
    }
}

/// `serde_json::Error`, the failure of an encoding. Nothing of it is read.
#[verifier::external_type_specification]
#[verifier::external_body]
pub struct ExJsonError(serde_json::Error);

/// Encodes `text` as a JSON string literal with `serde_json::to_string`.
///
/// Trusted, in two parts. The call writes a quote, the text with the
/// characters of its escape table escaped as `escaped_char` says, and a
/// quote. And the call succeeds: the encoder documents that it fails only
/// where a value's own `Serialize` fails or a map has a key that is no
/// string, and a text is neither; it is written into a vector in memory.
#[verifier::external_body]
fn json_quote(text: &str) -> (res: Result<String, serde_json::Error>)
    ensures
        res is Ok,
        res matches Ok(quoted) ==> quoted@ == json_string(text@),
{
    serde_json::to_string(text)
}

/// The JSON object with the members `status` and `message`, in this order
/// and without blanks, given the message as a JSON string literal.
pub open spec fn object_text(status: u16, quoted_message: Seq<char>) -> Seq<char> {
    "{\"status\":"@ + decimal_text(status as nat) + ",\"message\":"@ + quoted_message + "}"@
}

/// Writes the JSON object around a message that is already a JSON string
/// literal.
pub fn frame_object(status: u16, quoted_message: &str) -> (body: String)
    ensures
        body@ == object_text(status, quoted_message@),
{
    let mut body = String::from_str("{\"status\":");
    let number = render_decimal(status as u64);
    body.append(number.as_str());
    body.append(",\"message\":");
    body.append(quoted_message);
    body.append("}");
    body
}

/// The body of an error whose message holds only plain characters: the
/// message stands in it as it is, between two quotes.
pub proof fn lemma_plain_message_body(status: u16, message: Seq<char>)
    requires
        forall|i: int| 0 <= i < message.len() ==> is_plain_char(#[trigger] message[i]),
    ensures
        object_text(status, json_string(message)) == "{\"status\":"@ + decimal_text(status as nat)
            + ",\"message\":"@ + seq!['"'] + message + seq!['"'] + "}"@,
{
    lemma_plain_text_quoted(message);
    assert(object_text(status, json_string(message)) =~= "{\"status\":"@ + decimal_text(
        status as nat,
    ) + ",\"message\":"@ + seq!['"'] + message + seq!['"'] + "}"@);
}

impl ErrorDto {
    /// The JSON text of the body.
    pub open spec fn json_text(&self) -> Seq<char> {
        object_text(self.status, json_string(self.message@))
    }

    /// Serialises the body as JSON: the object with the status as a number
    /// and the message as a string, for every body. The result is an
    /// `Option` because the encoder of the message returns a `Result`.
    pub fn to_json(&self) -> (res: Option<String>)
        ensures
            res matches Some(body) && body@ == self.json_text(),
    {
        match json_quote(self.message.as_str()) {
            Ok(quoted) => Some(frame_object(self.status, quoted.as_str())),
            Err(_) => None,
        }
    }
}

} // verus!
