//! The normalising step: from a domain error to the reply that is sent and
//! the log entry that is written.

use crate::errors::dto_error::{json_string, object_text, DtoError, ErrorDto};
use crate::status::StatusCode;
use vstd::prelude::*;
use vstd::string::*;

verus! {

/// How the service was built: internal detail is shown to callers only in
/// development.
#[derive(Debug, Clone, Copy, PartialEq, Eq, Structural)]
pub enum BuildMode {
    Development,
    Production,
}

/// What a reply carries after its status line.
#[derive(Debug, PartialEq, Eq)]
pub enum Body {
    /// Nothing, and no content type.
    Empty,
    /// A JSON text, sent as `application/json`.
    Json(String),
    /// A plain text.
    Text(String),
}

/// A reply as plain values: the status and the body.
#[derive(Debug, PartialEq, Eq)]
pub struct Reply {
    pub status: StatusCode,
    pub body: Body,
}

/// What a `Body` holds, as mathematical values.
pub ghost enum BodyView {
    Empty,
    Json(Seq<char>),
    Text(Seq<char>),
}

/// What a `Reply` holds, as mathematical values.
pub ghost struct ReplyView {
    pub status: u16,
    pub body: BodyView,
}

impl View for Body {
    type V = BodyView;

    open spec fn view(&self) -> BodyView {
        match self {
            Body::Empty => BodyView::Empty,
            Body::Json(text) => BodyView::Json(text@),
            Body::Text(text) => BodyView::Text(text@),
        }
    }
}

impl View for Reply {
    type V = ReplyView;

    open spec fn view(&self) -> ReplyView {
        ReplyView { status: self.status@, body: self.body@ }
    }
}

impl Body {
    /// The content type that goes with the body, if it has one.
    pub fn content_type(&self) -> (header: Option<&'static str>)
        ensures
            self@ is Empty ==> header is None,
            self@ is Json ==> (header matches Some(v) && v@ == "application/json"@),
            self@ is Text ==> (header matches Some(v) && v@ == "text/plain; charset=utf-8"@),
    {
        match self {
            Body::Empty => None,
            Body::Json(_) => Some("application/json"),
            Body::Text(_) => Some("text/plain; charset=utf-8"),
        }
    }
}

/// The outcome of normalising one error: the reply to send, and the entry to
/// write to the log at error severity, if there is one.
#[derive(Debug, PartialEq, Eq)]
pub struct Normalized {
    pub reply: Reply,
    pub log: Option<String>,
}

/// The fixed message that stands in for internal detail.
pub open spec fn generic_message() -> Seq<char> {
    "Internal server error"@
}

/// The message that leaves the service: the description of the error, but
/// for an internal server error in production the fixed generic message.
pub open spec fn outward_message(status: u16, description: Seq<char>, mode: BuildMode) -> Seq<
    char,
> {
    if status == 500 && mode is Production {
        generic_message()
    } else {
        description
    }
}

/// The entry that an error leaves in the log: one for an internal server
/// error, with the full description in either mode, and none otherwise.
pub open spec fn log_entry(status: u16, description: Seq<char>) -> Option<Seq<char>> {
    if status == 500 {
        Some("Internal server error: "@ + description)
    } else {
        None
    }
}

/// The reply with no body.
pub open spec fn bare_reply(status: u16) -> ReplyView {
    ReplyView { status, body: BodyView::Empty }
}

/// The reply that carries the error body for `message` as JSON.
pub open spec fn json_reply(status: u16, message: Seq<char>) -> ReplyView {
    ReplyView { status, body: BodyView::Json(object_text(status, json_string(message))) }
}

/// The reply for an error of the given status, given what encoding its body
/// produced: the body under that status, or a bare internal server error
/// where the encoding failed.
pub open spec fn reply_for(status: u16, encoded: Option<Seq<char>>) -> ReplyView {
    match encoded {
        Some(body) => ReplyView { status, body: BodyView::Json(body) },
        None => bare_reply(500),
    }
}

/// Whether `outcome` is what normalising an error of this status and
/// description produces: the log entry of the error, and the JSON reply for
/// its outward message.
pub open spec fn normalizes(
    outcome: Normalized,
    status: u16,
    description: Seq<char>,
    mode: BuildMode,
) -> bool {
    &&& match log_entry(status, description) {
        Some(line) => outcome.log matches Some(entry) && entry@ == line,
        None => outcome.log is None,
    }
    &&& outcome.reply@ == json_reply(status, outward_message(status, description, mode))
}

/// Picks the message that leaves the service.
pub fn mask_message(status: StatusCode, description: String, mode: BuildMode) -> (message: String)
    ensures
        message@ == outward_message(status@, description@, mode),
{
    match mode {
        BuildMode::Production => {
            if status.is_internal_server_error() {
                String::from_str("Internal server error")
            } else {
                description
            }
        },
        BuildMode::Development => description,
    }
}

/// Writes the log entry of an error, if it has one.
pub fn error_log(status: StatusCode, description: &str) -> (log: Option<String>)
    ensures
        match log_entry(status@, description@) {
            Some(line) => log matches Some(entry) && entry@ == line,
            None => log is None,
        },
{
    if status.is_internal_server_error() {
        let mut line = String::from_str("Internal server error: ");
        line.append(description);
        Some(line)
    } else {
        None
    }
}

/// Builds the reply from the status and from what encoding the body
/// produced.
pub fn respond(status: StatusCode, encoded: Option<String>) -> (reply: Reply)
    ensures
        reply@ == reply_for(
            status@,
            match encoded {
                Some(body) => Some(body@),
                None => None,
            },
        ),
{
    match encoded {
        Some(body) => Reply { status, body: Body::Json(body) },
        None => Reply { status: StatusCode::internal_server_error(), body: Body::Empty },
    }
}

/// Normalises an error given by its status and description.
///
/// The full description goes to the log when the status is internal server
/// error; the caller gets the outward message in the uniform JSON body under
/// the same status. The body always encodes; the bare internal server
/// error that `respond` keeps for a failed encoding is never sent from here.
pub fn normalize(status: StatusCode, description: String, mode: BuildMode) -> (outcome: Normalized)
    ensures
        normalizes(outcome, status@, description@, mode),
{
    let log = error_log(status, description.as_str());
    let message = mask_message(status, description, mode);
    let dto = ErrorDto { status: status.as_u16(), message };
    let reply = respond(status, dto.to_json());
    Normalized { reply, log }
}

/// Whether `outcome` is what normalising the error `error` produces: the
/// outcome for a status that its `status` returns and a description that
/// its `description` returns.
pub open spec fn normalizes_error<E: DtoError>(outcome: Normalized, error: &E, mode: BuildMode) -> bool {
    exists|status: StatusCode, description: String|
        #![trigger call_ensures(E::status, (error,), status), call_ensures(E::description, (error,), description)]
        call_ensures(E::status, (error,), status) && call_ensures(
            E::description,
            (error,),
            description,
        ) && normalizes(outcome, status@, description@, mode)
}

/// Normalises a domain error: asks it for its status and its description,
/// once each, and normalises those.
pub fn into_response<E: DtoError>(error: &E, mode: BuildMode) -> (outcome: Normalized)
    ensures
        normalizes_error(outcome, error, mode),
{
    let status = error.status();
    let description = error.description();
    let ghost asked = description;
    let outcome = normalize(status, description, mode);
    assert(call_ensures(E::status, (error,), status) && call_ensures(
        E::description,
        (error,),
        asked,
    ) && normalizes(outcome, status@, asked@, mode));
    outcome
}

/// An internal server error shows callers the generic message in production
/// and its own description in development, and is logged once in either
/// mode: there is one log entry, and the reply carries the JSON body of
/// that message under 500.
pub proof fn lemma_internal_error_masked(outcome: Normalized, description: Seq<char>, mode: BuildMode)
    requires
        normalizes(outcome, 500, description, mode),
    ensures
        outcome.log matches Some(entry) && entry@ == "Internal server error: "@ + description,
        outcome.reply@.status == 500,
        outcome.reply@.body == BodyView::Json(
            object_text(
                500,
                json_string(
                    if mode is Production {
                        generic_message()
                    } else {
                        description
                    },
                ),
            ),
        ),
{
}

/// Any other error keeps its own message and its own status in the body,
/// in either mode, and leaves nothing in the log.
pub proof fn lemma_other_error_passes(
    outcome: Normalized,
    status: u16,
    description: Seq<char>,
    mode: BuildMode,
)
    requires
        status != 500,
        normalizes(outcome, status, description, mode),
    ensures
        outward_message(status, description, mode) == description,
        outcome.log is None,
        outcome.reply@.status == status,
        outcome.reply@.body == BodyView::Json(object_text(status, json_string(description))),
{
}

} // verus!
