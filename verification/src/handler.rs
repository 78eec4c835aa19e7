//! Serving one connection: what each request does to the connection's session,
//! and what is answered.

use crate::codec::{error_text, CodecError, CodecErrorView};
use crate::error::{session_error_text, SessionError, SessionErrorView};
use crate::message::{text_of, ErrorType, Request, RequestView, Response, ResponseView};
use crate::session::{Context, ContextView, OutcomeView};
use vstd::prelude::*;

verus! {

/// What the server does after one round with a connection.
#[derive(Debug, PartialEq, Eq)]
pub enum Step {
    /// Wait `delay_secs` seconds, send `response`, and read on.
    Reply { response: Response, delay_secs: u64 },
    /// The client hung up between messages: the connection ends in peace.
    Done,
    /// The connection is broken and is given up with this error.
    Failed(SessionError),
}

/// A `Step` as a mathematical value.
pub enum StepView {
    Reply { response: ResponseView, delay_secs: u64 },
    Done,
    Failed(SessionErrorView),
}

impl View for Step {
    type V = StepView;

    open spec fn view(&self) -> StepView {
        match self {
            Step::Reply { response, delay_secs } => StepView::Reply {
                response: response@,
                delay_secs: *delay_secs,
            },
            Step::Done => StepView::Done,
            Step::Failed(error) => StepView::Failed(error@),
        }
    }
}

/// What reading a request off a connection came to, as a mathematical value.
pub open spec fn event_view(event: Result<Request, CodecError>) -> Result<
    RequestView,
    CodecErrorView,
> {
    match event {
        Ok(request) => Ok(request@),
        Err(e) => Err(e@),
    }
}

/// Why a result failed, if it did.
pub open spec fn failure_of<T>(res: Result<T, SessionError>) -> Option<SessionErrorView> {
    match res {
        Ok(_) => None,
        Err(e) => Some(e@),
    }
}

/// The response that tells of a result: success, a failed authentication with
/// its message, or any other failure with its description.
pub open spec fn wrapped(failure: Option<SessionErrorView>) -> ResponseView {
    match failure {
        None => ResponseView::Success,
        Some(SessionErrorView::AuthError(text)) => ResponseView::Error {
            error_type: ErrorType::AuthError,
            description: text,
        },
        Some(e) => ResponseView::Error {
            error_type: ErrorType::Error,
            description: session_error_text(e),
        },
    }
}

/// The response that follows a request which went well: the session's next
/// prompt, or success where it asks nothing more.
pub open spec fn prompted(session: ContextView) -> ResponseView {
    match session.question() {
        Some((kind, text)) => ResponseView::AuthMessage {
            auth_message_type: kind,
            auth_message: text,
        },
        None => ResponseView::Success,
    }
}

/// The response and the delay that tell of an outcome which needs no prompt.
pub open spec fn told(outcome: OutcomeView) -> StepView {
    StepView::Reply {
        response: wrapped(
            match outcome.result {
                Ok(_) => None,
                Err(e) => Some(e),
            },
        ),
        delay_secs: outcome.delay_secs,
    }
}

/// The session after a request, and the response with its delay.
pub open spec fn answered(session: ContextView, request: RequestView) -> (ContextView, StepView) {
    match request {
        RequestView::CreateSession { username } => {
            let next = session.create_session(username);
            (next, StepView::Reply { response: prompted(next), delay_secs: 0 })
        },
        RequestView::PostAuthMessageResponse { response } => {
            let (next, outcome) = session.post_response(response);
            if outcome.result is Ok {
                (
                    next,
                    StepView::Reply { response: prompted(next), delay_secs: outcome.delay_secs },
                )
            } else {
                (next, told(outcome))
            }
        },
        RequestView::StartSession { cmd } => (session, told(session.start())),
        RequestView::CancelSession => (
            ContextView::fresh(),
            StepView::Reply { response: ResponseView::Success, delay_secs: 0 },
        ),
    }
}

/// The session after one round, and what the server does next. A request is
/// answered. A stream that closed between messages ends the connection in
/// peace; any other failure to read gives it up with a protocol error. Neither
/// touches the session.
pub open spec fn served(session: ContextView, event: Result<RequestView, CodecErrorView>) -> (
    ContextView,
    StepView,
) {
    match event {
        Ok(request) => answered(session, request),
        Err(CodecErrorView::Eof) => (session, StepView::Done),
        Err(e) => (session, StepView::Failed(SessionErrorView::ProtocolError(error_text(e)))),
    }
}

/// Puts a result into a response.
pub fn wrap_result<T>(res: Result<T, SessionError>) -> (response: Response)
    ensures
        response@ == wrapped(failure_of(res)),
{
    match res {
        Ok(_) => Response::Success,
        Err(SessionError::AuthError(msg)) => Response::Error {
            error_type: ErrorType::AuthError,
            description: msg,
        },
        Err(e) => Response::Error { error_type: ErrorType::Error, description: e.describe() },
    }
}

/// Asks the session for its next prompt and puts it into a response.
pub fn client_get_question(ctx: &Context) -> (response: Response)
    ensures
        response@ == prompted(ctx@),
{
    match ctx.get_question() {
        Ok(Some((auth_message_type, auth_message))) => Response::AuthMessage {
            auth_message_type,
            auth_message,
        },
        res => wrap_result(res),
    }
}

/// Serves one round of a connection: takes what reading a request came to,
/// lets the session act on the request, and says what the server does next.
pub fn client_handler(ctx: &mut Context, event: Result<Request, CodecError>) -> (step: Step)
    ensures
        final(ctx)@ == served(old(ctx)@, event_view(event)).0,
        step@ == served(old(ctx)@, event_view(event)).1,
{
    let req = match event {
        Ok(req) => req,
        Err(CodecError::Eof) => {
            return Step::Done;
        },
        Err(e) => {
            return Step::Failed(SessionError::from_codec(&e));
        },
    };
    match req {
        Request::CreateSession { username } => match ctx.create_session(username) {
            Ok(_) => Step::Reply { response: client_get_question(ctx), delay_secs: 0 },
            res => Step::Reply { response: wrap_result(res), delay_secs: 0 },
        },
        Request::PostAuthMessageResponse { response } => {
            let outcome = ctx.post_response(response);
            match outcome.result {
                Ok(_) => Step::Reply {
                    response: client_get_question(ctx),
                    delay_secs: outcome.delay_secs,
                },
                res => Step::Reply { response: wrap_result(res), delay_secs: outcome.delay_secs },
            }
        },
        Request::StartSession { cmd } => {
            let outcome = ctx.start(cmd);
            Step::Reply { response: wrap_result(outcome.result), delay_secs: outcome.delay_secs }
        },
        Request::CancelSession => Step::Reply {
            response: wrap_result(ctx.cancel()),
            delay_secs: 0,
        },
    }
}

} // verus!
