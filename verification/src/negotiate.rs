//! The session negotiator: what a reply of the registration endpoint means,
//! and what a reply to a roll means.

use vstd::prelude::*;
use vstd::string::*;
use vstd::utf8::{decode_utf8, valid_utf8};
use crate::error::Error;
use crate::json::{from_slice, get_text, member_text, parsed_bytes, text_view};
use crate::text::{decimal, from_utf8_lossy, lossy_text, push_decimal};

verus! {

/// A reply of the service, as plain values: the status, the bytes of the
/// authorization header if there is one, and the bytes of the body.
#[derive(Debug, Clone, PartialEq, Eq)]
pub struct Reply {
    pub status: u16,
    pub authorization: Option<Vec<u8>>,
    pub body: Vec<u8>,
}

/// Where the service stands: its base address without a trailing slash.
pub open spec fn base_url() -> Seq<char> {
    "http://localhost:8080"@
}

/// The address of the endpoint `path` of the service.
pub fn endpoint(path: &str) -> (url: String)
    ensures
        url@ == base_url() + path@,
{
    "http://localhost:8080".to_owned().concat(path)
}

/// The value of the authorization header that carries `token`.
pub fn bearer(token: &str) -> (value: String)
    ensures
        value@ == "Bearer "@ + token@,
{
    "Bearer ".to_owned().concat(token)
}

/// Whether `status` is a client error: the service refuses the request.
pub open spec fn is_client_error(status: u16) -> bool {
    400 <= status <= 499
}

/// Whether `status` is a server error.
pub open spec fn is_server_error(status: u16) -> bool {
    500 <= status <= 599
}

/// Whether `status` is a client or server error.
pub open spec fn is_error_status(status: u16) -> bool {
    is_client_error(status) || is_server_error(status)
}

/// The detail of the transport error for an error status.
pub open spec fn status_detail(status: u16) -> Seq<char> {
    "HTTP status "@ + decimal(status as nat)
}

/// The detail of the transport error for a body that cannot be used.
pub open spec fn body_detail() -> Seq<char> {
    "error decoding response body"@
}

/// What a registration reply means.
pub enum Negotiated {
    /// The service granted a session.
    Session { token: Seq<char>, room: Seq<char> },
    /// The service refused the form.
    InvalidForm,
    /// The reply carries no credential.
    MissingToken,
    /// The reply cannot be used.
    Transport { detail: Seq<char> },
}

/// What a registration reply means, given the credential read from its
/// header and the room read from its body. In this order:
///
/// - a client-error status: the form is invalid;
/// - a server-error status: a transport error that names the status;
/// - no credential: the token is missing;
/// - no room: a transport error for the body;
/// - else: the credential and the room.
pub open spec fn negotiated(status: u16, token: Option<Seq<char>>, room: Option<Seq<char>>) -> Negotiated {
    if is_client_error(status) {
        Negotiated::InvalidForm
    } else if is_server_error(status) {
        Negotiated::Transport { detail: status_detail(status) }
    } else {
        match token {
            None => Negotiated::MissingToken,
            Some(token) => match room {
                None => Negotiated::Transport { detail: body_detail() },
                Some(room) => Negotiated::Session { token, room },
            },
        }
    }
}

/// Whether `outcome` says what `meaning` says.
pub open spec fn agrees(outcome: Result<(String, String), Error>, meaning: Negotiated) -> bool {
    match outcome {
        Ok(pair) => meaning == (Negotiated::Session { token: pair.0@, room: pair.1@ }),
        Err(Error::InvalidForm) => meaning is InvalidForm,
        Err(Error::MissingToken) => meaning is MissingToken,
        Err(Error::Transport(detail)) => meaning == (Negotiated::Transport { detail: detail@ }),
        Err(_) => false,
    }
}

/// The room that a registration body names: the member `Room` of the
/// document that the body reads as.
pub open spec fn room_in(body: Seq<u8>) -> Option<Seq<char>> {
    match parsed_bytes(body) {
        Some(document) => member_text(document, "Room"@),
        None => None,
    }
}

/// The credential in a header: the header's bytes as text, which for
/// bytes that are valid UTF-8 is the characters they encode.
pub open spec fn token_in(authorization: Option<Vec<u8>>) -> Option<Seq<char>> {
    match authorization {
        Some(bytes) => Some(lossy_text(bytes@)),
        None => None,
    }
}

/// Reads the room that a registration body names.
pub fn read_room(body: &Vec<u8>) -> (room: Option<String>)
    ensures
        text_view(room) == room_in(body@),
{
    match from_slice(body.as_slice()) {
        Some(document) => get_text(&document, "Room"),
        None => None,
    }
}

/// Says what a registration reply means, from its status, the credential
/// read from its header and the room read from its body.
pub fn register_with(status: u16, token: Option<String>, room: Option<String>) -> (outcome: Result<
    (String, String),
    Error,
>)
    ensures
        agrees(outcome, negotiated(status, text_view(token), text_view(room))),
{
    if 400 <= status && status <= 499 {
        return Err(Error::InvalidForm);
    }
    if 500 <= status && status <= 599 {
        let mut detail = "HTTP status ".to_owned();
        push_decimal(&mut detail, status as u64);
        return Err(Error::Transport(detail));
    }
    match token {
        None => Err(Error::MissingToken),
        Some(token) => match room {
            None => Err(Error::Transport("error decoding response body".to_owned())),
            Some(room) => Ok((token, room)),
        },
    }
}

/// Whether the body of a registration reply is read at all: only where
/// the status is no error and the reply carries a credential.
pub open spec fn body_counts(status: u16, has_credential: bool) -> bool {
    !is_error_status(status) && has_credential
}

/// Whether the body of a registration reply is to be read, given the
/// status and whether the authorization header is there.
pub fn wants_body(status: u16, has_credential: bool) -> (wanted: bool)
    ensures
        wanted == body_counts(status, has_credential),
{
    !(400 <= status && status <= 599) && has_credential
}

/// Says what a registration reply means: the credential and the resolved
/// room, or why there is no session. The header and the body are read only
/// where the status is no error, the body only where there is a credential.
pub fn register(reply: &Reply) -> (outcome: Result<(String, String), Error>)
    ensures
        agrees(
            outcome,
            negotiated(reply.status, token_in(reply.authorization), room_in(reply.body@)),
        ),
        outcome matches Ok(pair) ==> (reply.authorization matches Some(bytes) && (valid_utf8(
            bytes@,
        ) ==> pair.0@ == decode_utf8(bytes@))),
{
    if !wants_body(reply.status, reply.authorization.is_some()) {
        return register_with(reply.status, None, None);
    }
    let token = match &reply.authorization {
        Some(bytes) => Some(from_utf8_lossy(bytes.as_slice())),
        None => None,
    };
    let room = read_room(&reply.body);
    register_with(reply.status, token, room)
}

/// Says what the reply to a roll means: an acknowledgement without a value,
/// or a transport error that names the error status.
pub fn roll(status: u16) -> (outcome: Result<(), Error>)
    ensures
        outcome is Ok <==> !is_error_status(status),
        outcome matches Err(error) ==> (error matches Error::Transport(detail) && detail@
            == status_detail(status)),
{
    if 400 <= status && status <= 599 {
        let mut detail = "HTTP status ".to_owned();
        push_decimal(&mut detail, status as u64);
        Err(Error::Transport(detail))
    } else {
        Ok(())
    }
}

} // verus!
