//! Why the server could not do what it was asked.

use crate::codec::{error_text, CodecError};
use vstd::prelude::*;
use vstd::string::*;

verus! {

/// Why a request failed, or why a connection was given up.
#[derive(Debug, PartialEq, Eq)]
pub enum SessionError {
    /// The request was not acceptable in the session's current state.
    Error(String),
    /// The credentials were wrong.
    AuthError(String),
    /// A message could not be read or written.
    ProtocolError(String),
    /// The stream failed.
    Io(String),
}

/// A `SessionError` as a mathematical value.
pub enum SessionErrorView {
    Error(Seq<char>),
    AuthError(Seq<char>),
    ProtocolError(Seq<char>),
    Io(Seq<char>),
}

impl View for SessionError {
    type V = SessionErrorView;

    open spec fn view(&self) -> SessionErrorView {
        match self {
            SessionError::Error(text) => SessionErrorView::Error(text@),
            SessionError::AuthError(text) => SessionErrorView::AuthError(text@),
            SessionError::ProtocolError(text) => SessionErrorView::ProtocolError(text@),
            SessionError::Io(text) => SessionErrorView::Io(text@),
        }
    }
}

/// The text that describes an error.
pub open spec fn session_error_text(error: SessionErrorView) -> Seq<char> {
    match error {
        SessionErrorView::Error(text) => text,
        SessionErrorView::AuthError(text) => "authentication error: "@ + text,
        SessionErrorView::ProtocolError(text) => "protocol error: "@ + text,
        SessionErrorView::Io(text) => "i/o error: "@ + text,
    }
}

impl Clone for SessionError {
    fn clone(&self) -> (copy: Self)
        ensures
            copy@ == self@,
    {
        match self {
            SessionError::Error(text) => SessionError::Error(text.clone()),
            SessionError::AuthError(text) => SessionError::AuthError(text.clone()),
            SessionError::ProtocolError(text) => SessionError::ProtocolError(text.clone()),
            SessionError::Io(text) => SessionError::Io(text.clone()),
        }
    }
}

impl SessionError {
    /// Describes the error in words.
    pub fn describe(&self) -> (text: String)
        ensures
            text@ == session_error_text(self@),
    {
        match self {
            SessionError::Error(text) => text.clone(),
            SessionError::AuthError(text) => String::from_str("authentication error: ").concat(
                text.as_str(),
            ),
            SessionError::ProtocolError(text) => String::from_str("protocol error: ").concat(
                text.as_str(),
            ),
            SessionError::Io(text) => String::from_str("i/o error: ").concat(text.as_str()),
        }
    }

    /// The error of a connection whose codec failed with `error`: a protocol
    /// error that carries the codec's description.
    pub fn from_codec(error: &CodecError) -> (res: SessionError)
        ensures
            res@ == SessionErrorView::ProtocolError(error_text(error@)),
    {
        SessionError::ProtocolError(error.describe())
    }
}

} // verus!
