//! The exchange with the platform that creates a tournament: what is sent,
//! and what the answer means. Sending is the caller's part.

use crate::decimal::{bool_text, bool_to_string, decimal, int_to_string};
use crate::tournament::Info;
use vstd::prelude::*;
use vstd::string::StringExecFns;

verus! {

/// `serde_json::Value`, a JSON document. Nothing inside it is known here: it
/// is read through `json_member` and `json_string`.
#[verifier::external_type_specification]
#[verifier::external_body]
pub struct ExJsonValue(serde_json::Value);

/// `serde_json::Error`, what `serde_json` reports of a text that is no JSON.
#[verifier::external_type_specification]
#[verifier::external_body]
pub struct ExJsonError(serde_json::Error);

/// What `serde_json::from_str` makes of a text: the JSON document that it
/// reads, or the error that it reports.
pub uninterp spec fn parsed_json(text: Seq<char>) -> Result<serde_json::Value, serde_json::Error>;

/// The message of a `serde_json::Error`, as its `Display` writes it: what is
/// wrong, and from which line and column on.
pub uninterp spec fn json_error_message(error: serde_json::Error) -> Seq<char>;

/// What `serde_json::Value::get` finds under a string key: the member that a
/// JSON object holds under it; `None` where the value is no object or holds
/// no such member.
pub uninterp spec fn json_member(value: serde_json::Value, key: Seq<char>) -> Option<
    serde_json::Value,
>;

/// What `serde_json::Value::as_str` gives: the text of a JSON string; `None`
/// for a value of any other kind.
pub uninterp spec fn json_string(value: serde_json::Value) -> Option<Seq<char>>;

/// `serde_json::from_str` at the type `serde_json::Value`. What is believed:
/// that the document, or the error in its place, depends on the text alone.
#[verifier::external_body]
fn json_from_str(text: &str) -> (r: Result<serde_json::Value, serde_json::Error>)
    ensures
        r == parsed_json(text@),
{
    serde_json::from_str::<serde_json::Value>(text)
}

/// `serde_json::Value::get` with a string key. What is believed: that the
/// member found, and whether there is one, depend on the value and the key
/// alone.
#[verifier::external_body]
fn json_get<'a>(value: &'a serde_json::Value, key: &str) -> (r: Option<&'a serde_json::Value>)
    ensures
        match r {
            Some(member) => json_member(*value, key@) == Some(*member),
            None => json_member(*value, key@) is None,
        },
{
    value.get(key)
}

/// `serde_json::Value::as_str`. What is believed: that the text, and whether
/// there is one, depend on the value alone.
#[verifier::external_body]
fn json_as_str<'a>(value: &'a serde_json::Value) -> (r: Option<&'a str>)
    ensures
        match r {
            Some(text) => json_string(*value) == Some(text@),
            None => json_string(*value) is None,
        },
{
    value.as_str()
}

/// How `reqwest::StatusCode` writes a status out, the number and then the
/// reason that belongs to it, as in `400 Bad Request`; `None` for a number
/// that is no status, below 100 or above 999.
pub uninterp spec fn status_line(status: u16) -> Option<Seq<char>>;

/// `reqwest::StatusCode::from_u16`, and the status written out by its
/// `Display`. What is believed: that the numbers from 100 to 999 are the
/// statuses, and that the text depends on the number alone.
#[verifier::external_body]
fn status_text(status: u16) -> (r: Option<String>)
    ensures
        r is Some <==> 100 <= status <= 999,
        match r {
            Some(text) => status_line(status) == Some(text@),
            None => status_line(status) is None,
        },
{
    match reqwest::StatusCode::from_u16(status) {
        Ok(code) => Some(code.to_string()),
        Err(_) => None,
    }
}

/// The `Display` of a `serde_json::Error`, by `to_string`. What is believed:
/// that the message depends on the error alone.
#[verifier::external_body]
fn json_error_text(error: &serde_json::Error) -> (text: String)
    ensures
        text@ == json_error_message(*error),
{
    error.to_string()
}

/// Why no tournament identifier came back.
#[derive(Debug, PartialEq, Eq)]
pub enum ApiError {
    /// The request did not go through, or the answer could not be read as JSON.
    Transport { cause: String },
    /// The platform answered with a status other than success.
    Rejected { status: u16, body: String },
    /// The platform answered with success, but the answer names no identifier.
    Malformed,
}

/// What came of sending a request.
#[derive(Debug, PartialEq, Eq)]
pub enum Exchange {
    /// The platform answered.
    Answered { status: u16, body: String },
    /// No answer was had.
    Failed { cause: String },
}

/// What is sent to create a tournament: a POST of `form`, URL-encoded, to
/// `url`, authorised by `bearer_token`.
#[derive(Debug, PartialEq, Eq)]
pub struct Request {
    pub url: String,
    pub bearer_token: String,
    pub form: Vec<(String, String)>,
}

/// A form's fields as pairs of texts.
pub open spec fn form_view(form: Seq<(String, String)>) -> Seq<(Seq<char>, Seq<char>)> {
    Seq::new(form.len(), |i: int| (form[i].0@, form[i].1@))
}

/// The form that describes a tournament: its nine fields in order, each value
/// written out as text.
pub open spec fn form_of(tour: Info) -> Seq<(Seq<char>, Seq<char>)> {
    seq![
        ("name"@, tour.name@),
        ("clockTime"@, decimal(tour.clock_time as int)),
        ("clockIncrement"@, decimal(tour.clock_increment as int)),
        ("minutes"@, decimal(tour.minutes as int)),
        ("startDate"@, decimal(tour.start_date as int)),
        ("variant"@, tour.variant@),
        ("rated"@, bool_text(tour.rated)),
        ("berserkable"@, bool_text(tour.berserkable)),
        ("conditions.minRating.rating"@, decimal(tour.min_rating as int)),
    ]
}

/// Whether an HTTP status reports success: 200 to 299.
pub open spec fn is_success(status: u16) -> bool {
    200 <= status < 300
}

/// The identifier that an answer's JSON document names: the text of the member
/// `id`, where the document is an object and that member a string.
pub open spec fn created_id(document: serde_json::Value) -> Option<Seq<char>> {
    match json_member(document, "id"@) {
        Some(member) => json_string(member),
        None => None,
    }
}

/// What reading an answer's body as JSON comes to: the identifier that the
/// document names, `None` where it names none, or the reader's message where
/// the body is no JSON.
pub open spec fn reading_of(body: Seq<char>) -> Result<Option<Seq<char>>, Seq<char>> {
    match parsed_json(body) {
        Ok(document) => Ok(created_id(document)),
        Err(error) => Err(json_error_message(error)),
    }
}

/// A status as it stands in a message: written out as `reqwest` does, or as
/// the bare number where it is no status.
pub open spec fn status_in_words(status: u16) -> Seq<char> {
    match status_line(status) {
        Some(text) => text,
        None => decimal(status as int),
    }
}

/// The message about an answer that reports no success: a heading, then the
/// status, then the body, each on a line of its own.
pub open spec fn rejection_text(status: Seq<char>, body: Seq<char>) -> Seq<char> {
    "Unsuccessful API request:\n"@ + status + "\n"@ + body
}

/// What the user is told of an error.
pub open spec fn message_of(error: ApiError) -> Seq<char> {
    match error {
        ApiError::Transport { cause } => cause@,
        ApiError::Rejected { status, body } => rejection_text(status_in_words(status), body@),
        ApiError::Malformed => "Could not retrieve ID after creating tournament."@,
    }
}

/// The message about an answer that reports no success, from the status
/// written out and the body.
pub fn rejection_message(status: &str, body: &str) -> (text: String)
    ensures
        text@ == rejection_text(status@, body@),
{
    let mut text = String::from_str("Unsuccessful API request:\n");
    text.append(status);
    text.append("\n");
    text.append(body);
    text
}

impl ApiError {
    /// What the user is told of the error.
    pub fn message(&self) -> (text: String)
        ensures
            text@ == message_of(*self),
    {
        match self {
            ApiError::Transport { cause } => String::from_str(cause.as_str()),
            ApiError::Rejected { status, body } => {
                let words = match status_text(*status) {
                    Some(text) => text,
                    None => int_to_string(*status as i64),
                };
                rejection_message(words.as_str(), body.as_str())
            },
            ApiError::Malformed => String::from_str(
                "Could not retrieve ID after creating tournament.",
            ),
        }
    }
}

/// Whether an HTTP status reports success.
pub fn status_is_success(status: u16) -> (r: bool)
    ensures
        r == is_success(status),
{
    200 <= status && status < 300
}

fn field(name: &str, value: String) -> (r: (String, String))
    ensures
        r.0@ == name@,
        r.1@ == value@,
{
    (String::from_str(name), value)
}

/// The form fields that describe `tour` to the platform.
pub fn tournament_form(tour: &Info) -> (form: Vec<(String, String)>)
    ensures
        form@.len() == 9,
        form_view(form@) == form_of(*tour),
{
    let mut form: Vec<(String, String)> = Vec::new();
    form.push(field("name", String::from_str(tour.name)));
    form.push(field("clockTime", int_to_string(tour.clock_time as i64)));
    form.push(field("clockIncrement", int_to_string(tour.clock_increment as i64)));
    form.push(field("minutes", int_to_string(tour.minutes as i64)));
    form.push(field("startDate", int_to_string(tour.start_date)));
    form.push(field("variant", String::from_str(tour.variant)));
    form.push(field("rated", bool_to_string(tour.rated)));
    form.push(field("berserkable", bool_to_string(tour.berserkable)));
    form.push(field("conditions.minRating.rating", int_to_string(tour.min_rating as i64)));
    form
}

/// The request that creates `tour`, made in the name of the owner of
/// `api_token`.
pub fn creation_request(tour: &Info, api_token: &str) -> (request: Request)
    ensures
        request.url@ == "https://lichess.org/api/tournament"@,
        request.bearer_token@ == api_token@,
        request.form@.len() == 9,
        form_view(request.form@) == form_of(*tour),
{
    Request {
        url: String::from_str("https://lichess.org/api/tournament"),
        bearer_token: String::from_str(api_token),
        form: tournament_form(tour),
    }
}

/// Reads an answer's body as JSON and looks for the identifier in it: `Err`
/// with the reader's message where the body is no JSON, `Ok(None)` where it is
/// JSON but names no identifier.
pub fn read_created_id(body: &str) -> (r: Result<Option<String>, String>)
    ensures
        match reading_of(body@) {
            Ok(Some(id)) => r matches Ok(Some(text)) && text@ == id,
            Ok(None) => r matches Ok(None),
            Err(message) => r matches Err(cause) && cause@ == message,
        },
{
    match json_from_str(body) {
        Err(error) => Err(json_error_text(&error)),
        Ok(document) => {
            match json_get(&document, "id") {
                None => Ok(None),
                Some(member) => match json_as_str(member) {
                    None => Ok(None),
                    Some(text) => Ok(Some(String::from_str(text))),
                },
            }
        },
    }
}

/// What a successful answer comes to, given what was read from its body: the
/// identifier where one was read, `Malformed` where the body names none, and
/// `Transport` with the reader's message where the body could not be read.
pub fn id_from_reading(reading: Result<Option<String>, String>) -> (r: Result<String, ApiError>)
    ensures
        match reading {
            Ok(Some(id)) => r matches Ok(text) && text@ == id@,
            Ok(None) => r matches Err(ApiError::Malformed),
            Err(cause) => r matches Err(ApiError::Transport { cause: text }) && text@ == cause@,
        },
{
    match reading {
        Ok(Some(id)) => Ok(id),
        Ok(None) => Err(ApiError::Malformed),
        Err(cause) => Err(ApiError::Transport { cause }),
    }
}

/// What an exchange comes to: the identifier of the tournament created, or why
/// there is none.
///
/// A request that did not go through is a `Transport` error with its cause. An
/// answer with a status other than success is `Rejected`, with the status and
/// the body as they came. An answer with success is read as JSON: it gives the
/// text of its string member `id`, is `Malformed` where it has no such member,
/// and a `Transport` error where it is no JSON.
pub fn creation_result(exchange: Exchange) -> (r: Result<String, ApiError>)
    ensures
        match exchange {
            Exchange::Failed { cause } => r matches Err(ApiError::Transport { cause: text })
                && text@ == cause@,
            Exchange::Answered { status, body } => if !is_success(status) {
                r matches Err(ApiError::Rejected { status: code, body: text }) && code == status
                    && text@ == body@
            } else {
                match reading_of(body@) {
                    Ok(Some(id)) => r matches Ok(text) && text@ == id,
                    Ok(None) => r matches Err(ApiError::Malformed),
                    Err(message) => r matches Err(ApiError::Transport { cause: text })
                        && text@ == message,
                }
            },
        },
{
    match exchange {
        Exchange::Failed { cause } => Err(ApiError::Transport { cause }),
        Exchange::Answered { status, body } => {
            if status_is_success(status) {
                id_from_reading(read_created_id(body.as_str()))
            } else {
                Err(ApiError::Rejected { status, body })
            }
        },
    }
}

} // verus!
