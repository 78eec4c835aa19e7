//! The messages of the login protocol: what a client asks and what the server answers.

use vstd::prelude::*;
use vstd::string::*;

verus! {

/// How the client should take the user's input for a prompt.
#[derive(Debug, Clone, Copy, PartialEq, Eq, Structural)]
pub enum AuthMessageType {
    /// The input may be echoed.
    Visible,
    /// The input should be masked.
    Secret,
}

/// Why a request failed.
#[derive(Debug, Clone, Copy, PartialEq, Eq, Structural)]
pub enum ErrorType {
    /// The request was not acceptable in the session's current state.
    Error,
    /// The credentials were wrong.
    AuthError,
}

/// A message from the client to the server.
#[derive(Debug, PartialEq, Eq)]
pub enum Request {
    /// Begin a login attempt for `username`.
    CreateSession { username: String },
    /// Answer the most recent prompt; `None` means that no answer was supplied.
    PostAuthMessageResponse { response: Option<String> },
    /// Launch `cmd` as the authenticated session.
    StartSession { cmd: Vec<String> },
    /// Abandon the current attempt.
    CancelSession,
}

/// A message from the server to the client.
#[derive(Debug, PartialEq, Eq)]
pub enum Response {
    /// The request was accepted and nothing more is needed right now.
    Success,
    /// The server needs more input.
    AuthMessage { auth_message_type: AuthMessageType, auth_message: String },
    /// The request failed.
    Error { error_type: ErrorType, description: String },
}

/// A `Request` as a mathematical value.
pub enum RequestView {
    CreateSession { username: Seq<char> },
    PostAuthMessageResponse { response: Option<Seq<char>> },
    StartSession { cmd: Seq<Seq<char>> },
    CancelSession,
}

/// A `Response` as a mathematical value.
pub enum ResponseView {
    Success,
    AuthMessage { auth_message_type: AuthMessageType, auth_message: Seq<char> },
    Error { error_type: ErrorType, description: Seq<char> },
}

/// The text of an optional string.
pub open spec fn text_of(s: Option<String>) -> Option<Seq<char>> {
    match s {
        Some(s) => Some(s@),
        None => None,
    }
}

/// The texts of a list of strings, in order.
pub open spec fn texts_of(list: Seq<String>) -> Seq<Seq<char>> {
    Seq::new(list.len(), |i: int| list[i]@)
}

/// Tells whether `text` reads `word`.
pub fn reads(text: &String, word: &str) -> (same: bool)
    ensures
        same == (text@ == word@),
{
    let word = String::from_str(word);
    *text == word
}

impl View for Request {
    type V = RequestView;

    open spec fn view(&self) -> RequestView {
        match self {
            Request::CreateSession { username } => RequestView::CreateSession { username: username@ },
            Request::PostAuthMessageResponse { response } => RequestView::PostAuthMessageResponse {
                response: text_of(*response),
            },
            Request::StartSession { cmd } => RequestView::StartSession { cmd: texts_of(cmd@) },
            Request::CancelSession => RequestView::CancelSession,
        }
    }
}

impl View for Response {
    type V = ResponseView;

    open spec fn view(&self) -> ResponseView {
        match self {
            Response::Success => ResponseView::Success,
            Response::AuthMessage { auth_message_type, auth_message } => ResponseView::AuthMessage {
                auth_message_type: *auth_message_type,
                auth_message: auth_message@,
            },
            Response::Error { error_type, description } => ResponseView::Error {
                error_type: *error_type,
                description: description@,
            },
        }
    }
}

/// Copies a list of strings.
pub fn copy_texts(list: &Vec<String>) -> (copy: Vec<String>)
    ensures
        texts_of(copy@) == texts_of(list@),
{
    let mut copy: Vec<String> = Vec::new();
    let mut i: usize = 0;
    while i < list.len()
        invariant
            i <= list.len(),
            copy@.len() == i,
            forall|k: int| 0 <= k < i ==> (#[trigger] copy@[k])@ == list@[k]@,
        decreases list.len() - i,
    {
        copy.push(list[i].clone());
        i = i + 1;
    }
    assert(texts_of(copy@) =~= texts_of(list@));
    copy
}

impl Clone for Request {
    fn clone(&self) -> (copy: Self)
        ensures
            copy@ == self@,
    {
        match self {
            Request::CreateSession { username } => Request::CreateSession {
                username: username.clone(),
            },
            Request::PostAuthMessageResponse { response } => Request::PostAuthMessageResponse {
                response: match response {
                    Some(text) => Some(text.clone()),
                    None => None,
                },
            },
            Request::StartSession { cmd } => Request::StartSession { cmd: copy_texts(cmd) },
            Request::CancelSession => Request::CancelSession,
        }
    }
}

impl Clone for Response {
    fn clone(&self) -> (copy: Self)
        ensures
            copy@ == self@,
    {
        match self {
            Response::Success => Response::Success,
            Response::AuthMessage { auth_message_type, auth_message } => Response::AuthMessage {
                auth_message_type: *auth_message_type,
                auth_message: auth_message.clone(),
            },
            Response::Error { error_type, description } => Response::Error {
                error_type: *error_type,
                description: description.clone(),
            },
        }
    }
}

} // verus!
