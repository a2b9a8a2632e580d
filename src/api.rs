//! The wire format of the text-generation service: the request body sent for
//! a prompt, and how an answer body becomes an outcome.
use crate::dispatch::{Outcome, OutcomeView};
use crate::opt_view;
use vstd::prelude::*;
use vstd::string::*;

verus! {

/// The lowercase hexadecimal digit for `n` (below 16).
pub open spec fn hex_digit(n: u32) -> char {
    seq!['0', '1', '2', '3', '4', '5', '6', '7', '8', '9', 'a', 'b', 'c', 'd', 'e', 'f'][n as int]
}

/// How one character is written inside a JSON string literal: the quote and
/// the backslash are escaped, the control characters below 0x20 take their
/// short escape or `\u00XX`, everything else is kept.
pub open spec fn json_escape_char(c: char) -> Seq<char> {
    let u = c as u32;
    if c == '"' {
        seq!['\\', '"']
    } else if c == '\\' {
        seq!['\\', '\\']
    } else if u == 0x08 {
        seq!['\\', 'b']
    } else if u == 0x09 {
        seq!['\\', 't']
    } else if u == 0x0A {
        seq!['\\', 'n']
    } else if u == 0x0C {
        seq!['\\', 'f']
    } else if u == 0x0D {
        seq!['\\', 'r']
    } else if u < 0x20 {
        seq!['\\', 'u', '0', '0', hex_digit(u / 16), hex_digit(u % 16)]
    } else {
        seq![c]
    }
}

/// The characters of `s`, each escaped for a JSON string literal.
pub open spec fn json_escaped(s: Seq<char>) -> Seq<char>
    decreases s.len(),
{
    if s.len() == 0 {
        Seq::empty()
    } else {
        json_escaped(s.drop_last()) + json_escape_char(s.last())
    }
}

/// The JSON string literal for `s`: its escaped characters between quotes.
pub open spec fn json_quoted(s: Seq<char>) -> Seq<char> {
    seq!['"'] + json_escaped(s) + seq!['"']
}

/// The member `key` of the top-level object of the JSON document `doc`, when
/// `doc` is one well-formed JSON object and that member is a JSON string.
pub uninterp spec fn json_string_member(doc: Seq<char>, key: Seq<char>) -> Option<Seq<char>>;

/// Relies on serde_json::to_string on a `str`: it writes the string as one
/// JSON string literal, escaping as `json_escape_char` says. Serializing a
/// `str` into memory has no failure case.
#[verifier::external_body]
fn quote_json(s: &str) -> (r: String)
    ensures
        r@ == json_quoted(s@),
{
    serde_json::to_string(s).unwrap_or_default()
}

/// Relies on serde_json::from_str into a `Value`: parses the whole of `doc`;
/// serde_json's `Map::get` then looks up the member `key` of its top-level
/// object, kept only when it is a JSON string.
#[verifier::external_body]
fn read_string_member(doc: &str, key: &str) -> (r: Option<String>)
    ensures
        opt_view(r) == json_string_member(doc@, key@),
{
    match serde_json::from_str::<serde_json::Value>(doc) {
        Ok(serde_json::Value::Object(m)) => match m.get(key) {
            Some(serde_json::Value::String(s)) => Some(s.clone()),
            _ => None,
        },
        _ => None,
    }
}

/// The body of the request for `prompt`: a JSON object carrying the model
/// identifier, the prompt, and `stream: false`.
pub open spec fn request_body_of(model: Seq<char>, prompt: Seq<char>) -> Seq<char> {
    "{\"model\":"@ + json_quoted(model) + ",\"prompt\":"@ + json_quoted(prompt) + ",\"stream\":false}"@
}

/// Builds the request body for `prompt` addressed to `model`.
pub fn request_body(model: &str, prompt: &str) -> (r: String)
    ensures
        r@ == request_body_of(model@, prompt@),
{
    let mut r = String::from_str("{\"model\":");
    let m = quote_json(model);
    r.append(m.as_str());
    r.append(",\"prompt\":");
    let p = quote_json(prompt);
    r.append(p.as_str());
    r.append(",\"stream\":false}");
    r
}

/// The outcome that a `response` member (or its absence) stands for.
pub open spec fn outcome_of_member(member: Option<Seq<char>>) -> OutcomeView {
    match member {
        Some(text) => OutcomeView::Reply(text),
        None => OutcomeView::Malformed,
    }
}

/// Turns the `response` member read from an answer into an outcome: a string
/// is the reply, anything else is a malformed answer.
pub fn outcome_from_member(member: Option<String>) -> (r: Outcome)
    ensures
        r@ == outcome_of_member(opt_view(member)),
{
    match member {
        Some(text) => Outcome::Reply(text),
        None => Outcome::Malformed,
    }
}

/// The outcome of an answer body: a reply when the body is a JSON object whose
/// `response` member is a string, a malformed answer otherwise (invalid JSON
/// included). Never anything partial.
pub fn parse_reply(body: &str) -> (r: Outcome)
    ensures
        r@ == outcome_of_member(json_string_member(body@, "response"@)),
{
    let member = read_string_member(body, "response");
    outcome_from_member(member)
}

/// The error entry text for a transport failure described by `detail`.
pub open spec fn transport_message(detail: Seq<char>) -> Seq<char> {
    "Failed to send request: "@ + detail
}

/// The outcome of a transport failure described by `detail`.
pub fn transport_failure(detail: &str) -> (r: Outcome)
    ensures
        r@ == OutcomeView::TransportError(transport_message(detail@)),
{
    let mut m = String::from_str("Failed to send request: ");
    m.append(detail);
    Outcome::TransportError(m)
}

} // verus!
