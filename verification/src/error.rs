//! The ways a session can end other than by running on.

use vstd::prelude::*;
use vstd::string::*;

verus! {

/// Why a step of the session did not succeed.
#[derive(Debug, Clone, PartialEq, Eq)]
pub enum Error {
    /// The user ended the form or the session: a normal outcome, no failure.
    Cancelled,
    /// The service rejected the submitted form; the form is shown again.
    InvalidForm,
    /// The service answered without a credential.
    MissingToken,
    /// The request did not get through, or the answer could not be used.
    Transport(String),
    /// The terminal could not be read or drawn.
    Io(String),
    /// The event stream broke.
    Stream(String),
    /// A roll event whose payload (held here) is not a roll.
    Decode(String),
}

/// The text that describes `error`.
pub open spec fn message_of(error: Error) -> Seq<char> {
    match error {
        Error::Cancelled => "Cancelled"@,
        Error::InvalidForm => "Invalid form"@,
        Error::MissingToken => "Error obtaining the token"@,
        Error::Transport(detail) => detail@,
        Error::Io(detail) => detail@,
        Error::Stream(detail) => "Error streaming events: "@ + detail@,
        Error::Decode(payload) => "Error decoding event: "@ + payload@,
    }
}

impl Error {
    /// Whether this is a failure. Only a cancellation is none.
    pub fn is_failure(&self) -> (b: bool)
        ensures
            b == !(*self is Cancelled),
    {
        match self {
            Error::Cancelled => false,
            _ => true,
        }
    }

    /// Whether the form may be shown again after this error.
    pub fn is_recoverable(&self) -> (b: bool)
        ensures
            b == (*self is InvalidForm),
    {
        match self {
            Error::InvalidForm => true,
            _ => false,
        }
    }

    /// The text that describes this error.
    pub fn message(&self) -> (text: String)
        ensures
            text@ == message_of(*self),
    {
        match self {
            Error::Cancelled => "Cancelled".to_owned(),
            Error::InvalidForm => "Invalid form".to_owned(),
            Error::MissingToken => "Error obtaining the token".to_owned(),
            Error::Transport(detail) => detail.clone(),
            Error::Io(detail) => detail.clone(),
            Error::Stream(detail) => "Error streaming events: ".to_owned().concat(detail.as_str()),
            Error::Decode(payload) => "Error decoding event: ".to_owned().concat(payload.as_str()),
        }
    }
}

} // verus!
