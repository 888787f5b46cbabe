//! The decisions of the local server that takes in transcribed text.

use crate::engine::same_text;
use crate::text::{
    chars_of, decimal, decimal_string, optional_text, starts_with_char, trim, trimmed,
};
use vstd::prelude::*;
use vstd::string::StringExecFns;

verus! {

/// The port on which the server listens.
pub const SERVER_PORT: u16 = 7891;

/// The address at which a server on `port` takes transcriptions.
pub open spec fn server_url_of(port: u16) -> Seq<char> {
    "http://127.0.0.1:"@ + decimal(port as nat) + "/transcription"@
}

/// The address to which transcriptions are to be posted.
pub fn get_server_url() -> (url: String)
    ensures
        url@ == server_url_of(SERVER_PORT),
{
    let mut url = String::from_str("http://127.0.0.1:");
    let port = decimal_string(SERVER_PORT as u128);
    url.append(port.as_str());
    url.append("/transcription");
    url
}

/// The address on which a server on `port` listens.
pub open spec fn bind_address_of(port: u16) -> Seq<char> {
    "127.0.0.1:"@ + decimal(port as nat)
}

/// The address on which the server listens.
pub fn server_bind_address() -> (address: String)
    ensures
        address@ == bind_address_of(SERVER_PORT),
{
    let mut address = String::from_str("127.0.0.1:");
    let port = decimal_string(SERVER_PORT as u128);
    address.append(port.as_str());
    address
}

/// An answer of the server: the HTTP status and the text of the body.
#[derive(Clone, Copy, Debug, PartialEq, Eq, Structural)]
pub enum Reply {
    /// 200, `OK`.
    Accepted,
    /// 405, `Method not allowed`.
    MethodNotAllowed,
    /// 404, `Not found`.
    NotFound,
    /// 400, `Failed to read body`.
    UnreadableBody,
    /// 400, `Empty transcription`.
    EmptyTranscription,
}

/// The HTTP status of an answer.
pub open spec fn status_of(reply: Reply) -> u16 {
    match reply {
        Reply::Accepted => 200,
        Reply::MethodNotAllowed => 405,
        Reply::NotFound => 404,
        Reply::UnreadableBody => 400,
        Reply::EmptyTranscription => 400,
    }
}

/// The text of the body of an answer.
pub open spec fn body_of(reply: Reply) -> Seq<char> {
    match reply {
        Reply::Accepted => "OK"@,
        Reply::MethodNotAllowed => "Method not allowed"@,
        Reply::NotFound => "Not found"@,
        Reply::UnreadableBody => "Failed to read body"@,
        Reply::EmptyTranscription => "Empty transcription"@,
    }
}

impl Reply {
    /// The HTTP status of the answer.
    pub fn status(&self) -> (status: u16)
        ensures
            status == status_of(*self),
    {
        match self {
            Reply::Accepted => 200,
            Reply::MethodNotAllowed => 405,
            Reply::NotFound => 404,
            Reply::UnreadableBody => 400,
            Reply::EmptyTranscription => 400,
        }
    }

    /// The text of the body of the answer.
    pub fn body(&self) -> (body: &'static str)
        ensures
            body@ == body_of(*self),
    {
        match self {
            Reply::Accepted => "OK",
            Reply::MethodNotAllowed => "Method not allowed",
            Reply::NotFound => "Not found",
            Reply::UnreadableBody => "Failed to read body",
            Reply::EmptyTranscription => "Empty transcription",
        }
    }
}

/// Whether a request is turned away before its body is read, and with
/// which answer: only a `POST` to `/transcription`, with or without a slash
/// at the end, is let in.
pub open spec fn refusal_of(is_post: bool, url: Seq<char>) -> Option<Reply> {
    if !is_post {
        Some(Reply::MethodNotAllowed)
    } else if url != "/transcription"@ && url != "/transcription/"@ {
        Some(Reply::NotFound)
    } else {
        None
    }
}

/// Decides whether a request is turned away before its body is read.
pub fn route_request(is_post: bool, url: &str) -> (refusal: Option<Reply>)
    ensures
        refusal == refusal_of(is_post, url@),
{
    if !is_post {
        Some(Reply::MethodNotAllowed)
    } else if !same_text(url, "/transcription") && !same_text(url, "/transcription/") {
        Some(Reply::NotFound)
    } else {
        None
    }
}

/// Whether a body is to be read as a JSON payload: it is when, white space
/// aside, it begins with an opening brace.
pub open spec fn looks_like_json(body: Seq<char>) -> bool {
    starts_with_char(trimmed(body), '{')
}

/// Decides whether a body is to be read as a JSON payload.
pub fn wants_json(body: &str) -> (json: bool)
    ensures
        json == looks_like_json(body@),
{
    let inner = trim(body);
    let chars = chars_of(inner.as_str());
    chars.len() > 0 && chars[0] == '{'
}

/// The transcribed text of a body: the text of its payload where the body
/// was read as one, and the body without the white space at its ends
/// otherwise.
pub open spec fn transcription_of(body: Seq<char>, payload_text: Option<Seq<char>>) -> Seq<char> {
    match payload_text {
        Some(text) => text,
        None => trimmed(body),
    }
}

/// What the server does with a request that was let in: it turns an empty
/// transcription away, and hands any other on.
pub open spec fn acceptance_of(text: Seq<char>) -> Reply {
    if text.len() == 0 {
        Reply::EmptyTranscription
    } else {
        Reply::Accepted
    }
}

/// Takes the transcribed text out of a body, where `payload_text` is the
/// text of the JSON payload if the body was read as one with success.
/// Returns the text with the answer to give: an empty text is turned away.
pub fn take_transcription(body: &str, payload_text: Option<String>) -> (taken: (String, Reply))
    ensures
        taken.0@ == transcription_of(body@, optional_text(payload_text)),
        taken.1 == acceptance_of(taken.0@),
{
    let text = match payload_text {
        Some(text) => text,
        None => trim(body),
    };
    let empty = text.as_str().is_empty();
    if empty {
        (text, Reply::EmptyTranscription)
    } else {
        (text, Reply::Accepted)
    }
}

} // verus!
