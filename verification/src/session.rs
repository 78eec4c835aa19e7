//! The session of one connection: how far its login has come, and what each
//! request does to it.

use crate::error::{SessionError, SessionErrorView};
use crate::message::{reads, text_of, AuthMessageType};
use vstd::prelude::*;
use vstd::string::*;

verus! {

/// How long, in seconds, a wrong final answer is held back before it is
/// refused.
pub const AUTH_FAILURE_DELAY_SECS: u64 = 2;

/// How long, in seconds, starting the session takes.
pub const START_DELAY_SECS: u64 = 5;

/// What a request came to, and how long the caller must wait before it lets
/// the client know.
#[derive(Debug, PartialEq, Eq)]
pub struct Outcome {
    pub result: Result<(), SessionError>,
    pub delay_secs: u64,
}

/// An `Outcome` as a mathematical value.
pub struct OutcomeView {
    pub result: Result<(), SessionErrorView>,
    pub delay_secs: u64,
}

/// The result of a request, as a mathematical value.
pub open spec fn result_view(result: Result<(), SessionError>) -> Result<(), SessionErrorView> {
    match result {
        Ok(_) => Ok(()),
        Err(e) => Err(e@),
    }
}

impl View for Outcome {
    type V = OutcomeView;

    open spec fn view(&self) -> OutcomeView {
        OutcomeView { result: result_view(self.result), delay_secs: self.delay_secs }
    }
}

/// A session as a mathematical value.
pub struct ContextView {
    /// The user's name, once it has been given.
    pub user: Option<Seq<char>>,
    /// The password, once it has been given.
    pub password: Option<Seq<char>>,
    /// Whether all three answers were given and right.
    pub authenticated: bool,
}

/// An optional prompt, as a mathematical value.
pub open spec fn question_view(question: Option<(AuthMessageType, String)>) -> Option<
    (AuthMessageType, Seq<char>),
> {
    match question {
        Some((kind, text)) => Some((kind, text@)),
        None => None,
    }
}

impl ContextView {
    /// The session of a connection that has asked nothing yet.
    pub open spec fn fresh() -> ContextView {
        ContextView { user: None, password: None, authenticated: false }
    }

    /// What holds of every session: a password is only held together with a
    /// user, and a session is only authenticated while it holds both.
    pub open spec fn wf(self) -> bool {
        &&& self.password is Some ==> self.user is Some
        &&& self.authenticated ==> self.user is Some && self.password is Some
    }

    /// The session after `create_session`: it holds `username` as its user.
    pub open spec fn create_session(self, username: Seq<char>) -> ContextView {
        ContextView { user: Some(username), ..self }
    }

    /// What the session asks next: the user, then the password, then the sum;
    /// nothing once it is authenticated.
    pub open spec fn question(self) -> Option<(AuthMessageType, Seq<char>)> {
        if self.authenticated {
            None
        } else if self.user is None {
            Some((AuthMessageType::Visible, "User:"@))
        } else if self.password is None {
            Some((AuthMessageType::Secret, "Password:"@))
        } else {
            Some((AuthMessageType::Visible, "7 + 2:"@))
        }
    }

    /// Whether the session's user and password, with `answer` as the last
    /// answer, are the three that are accepted.
    pub open spec fn accepts(self, answer: Option<Seq<char>>) -> bool {
        &&& self.user == Some("user"@)
        &&& self.password == Some("password"@)
        &&& answer == Some("9"@)
    }

    /// The session after `post_response`, and what the request came to. An
    /// authenticated session refuses the answer. Else the answer fills the
    /// first of user and password that is missing. With both there it is the
    /// last answer: the right one authenticates the session, a wrong one is
    /// refused after the delay for failures.
    pub open spec fn post_response(self, answer: Option<Seq<char>>) -> (ContextView, OutcomeView) {
        if self.authenticated {
            (self, OutcomeView { result: Err(SessionErrorView::Error("wat"@)), delay_secs: 0 })
        } else if self.user is None {
            (ContextView { user: answer, ..self }, OutcomeView { result: Ok(()), delay_secs: 0 })
        } else if self.password is None {
            (
                ContextView { password: answer, ..self },
                OutcomeView { result: Ok(()), delay_secs: 0 },
            )
        } else if self.accepts(answer) {
            (
                ContextView { authenticated: true, ..self },
                OutcomeView { result: Ok(()), delay_secs: 0 },
            )
        } else {
            (
                self,
                OutcomeView {
                    result: Err(SessionErrorView::AuthError("nope"@)),
                    delay_secs: AUTH_FAILURE_DELAY_SECS,
                },
            )
        }
    }

    /// What `start` comes to: it succeeds, after the delay for starting, in an
    /// authenticated session, and is refused at once in any other.
    pub open spec fn start(self) -> OutcomeView {
        if self.authenticated {
            OutcomeView { result: Ok(()), delay_secs: START_DELAY_SECS }
        } else {
            OutcomeView { result: Err(SessionErrorView::Error("not yet dammit"@)), delay_secs: 0 }
        }
    }
}

/// The session of one connection.
pub struct Context {
    user: Option<String>,
    password: Option<String>,
    ok: bool,
}

impl View for Context {
    type V = ContextView;

    closed spec fn view(&self) -> ContextView {
        ContextView {
            user: text_of(self.user),
            password: text_of(self.password),
            authenticated: self.ok,
        }
    }
}

/// Tells whether `text` is there and reads `word`.
fn holds(text: &Option<String>, word: &str) -> (same: bool)
    ensures
        same == (text_of(*text) == Some(word@)),
{
    match text {
        Some(text) => reads(text, word),
        None => false,
    }
}

impl Context {
    #[verifier::type_invariant]
    spec fn inv(self) -> bool {
        self@.wf()
    }

    /// A fresh session.
    pub fn new() -> (ctx: Context)
        ensures
            ctx@ == ContextView::fresh(),
    {
        Context { user: None, password: None, ok: false }
    }

    /// Begins a login attempt for `username`. Always succeeds.
    pub fn create_session(&mut self, username: String) -> (res: Result<(), SessionError>)
        ensures
            res is Ok,
            final(self)@ == old(self)@.create_session(username@),
            final(self)@.wf(),
    {
        proof {
            use_type_invariant(&*self);
        }
        self.user = Some(username);
        Ok(())
    }

    /// Says what the session asks next. Always succeeds.
    pub fn get_question(&self) -> (res: Result<Option<(AuthMessageType, String)>, SessionError>)
        ensures
            res is Ok,
            question_view(res->Ok_0) == self@.question(),
    {
        if self.ok {
            Ok(None)
        } else if self.user.is_none() {
            Ok(Some((AuthMessageType::Visible, String::from_str("User:"))))
        } else if self.password.is_none() {
            Ok(Some((AuthMessageType::Secret, String::from_str("Password:"))))
        } else {
            Ok(Some((AuthMessageType::Visible, String::from_str("7 + 2:"))))
        }
    }

    /// Takes the answer to the last prompt.
    pub fn post_response(&mut self, response: Option<String>) -> (outcome: Outcome)
        ensures
            final(self)@ == old(self)@.post_response(text_of(response)).0,
            outcome@ == old(self)@.post_response(text_of(response)).1,
            final(self)@.wf(),
    {
        proof {
            use_type_invariant(&*self);
        }
        if self.ok {
            return Outcome {
                result: Err(SessionError::Error(String::from_str("wat"))),
                delay_secs: 0,
            };
        }
        if self.user.is_none() {
            self.user = response;
        } else if self.password.is_none() {
            self.password = response;
        } else {
            if !holds(&self.user, "user") || !holds(&self.password, "password") || !holds(
                &response,
                "9",
            ) {
                return Outcome {
                    result: Err(SessionError::AuthError(String::from_str("nope"))),
                    delay_secs: AUTH_FAILURE_DELAY_SECS,
                };
            }
            self.ok = true;
        }
        Outcome { result: Ok(()), delay_secs: 0 }
    }

    /// Asks to start the session's command. The session itself launches
    /// nothing, so the command is not looked at.
    pub fn start(&self, _cmd: Vec<String>) -> (outcome: Outcome)
        ensures
            outcome@ == self@.start(),
    {
        if !self.ok {
            return Outcome {
                result: Err(SessionError::Error(String::from_str("not yet dammit"))),
                delay_secs: 0,
            };
        }
        Outcome { result: Ok(()), delay_secs: START_DELAY_SECS }
    }

    /// Abandons the attempt: the session is fresh again. Always succeeds.
    pub fn cancel(&mut self) -> (res: Result<(), SessionError>)
        ensures
            res is Ok,
            final(self)@ == ContextView::fresh(),
    {
        *self = Context::new();
        Ok(())
    }
}

} // verus!
