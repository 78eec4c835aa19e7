//! What holds of the codec's frames and of sessions, whatever the bytes, the
//! state and the request.

use crate::codec::{
    frame_read, message_read, message_written, truncated_text, CodecError, CodecErrorView, FuturesCodec,
};
use crate::error::SessionErrorView;
use crate::frame::{framed, lemma_prefix_roundtrip, prefix_of, prefix_value, MAX_BODY_LEN};
use crate::handler::{answered, served, StepView};
use crate::message::{AuthMessageType, ErrorType, RequestView, ResponseView};
use crate::json::{json_parsed, json_printed};
use crate::session::{ContextView, OutcomeView, AUTH_FAILURE_DELAY_SECS, START_DELAY_SECS};
use vstd::prelude::*;

verus! {

/// Reading the frame of a body gives the body back and leaves what followed
/// the frame.
pub proof fn lemma_frame_roundtrip(body: Seq<u8>, rest: Seq<u8>)
    requires
        body.len() <= MAX_BODY_LEN,
    ensures
        frame_read(framed(body) + rest) == (Ok::<Seq<u8>, CodecErrorView>(body), rest),
{
    lemma_prefix_roundtrip(body.len());
    let stream = framed(body) + rest;
    let prefix = prefix_of(body.len());
    assert(stream[0] == prefix[0] && stream[1] == prefix[1] && stream[2] == prefix[2] && stream[3]
        == prefix[3]);
    assert(prefix_value(stream) == body.len());
    assert(stream.subrange(4, 4 + body.len() as int) =~= body);
    assert(stream.skip(4 + body.len() as int) =~= rest);
}

/// A message that was written is read back as it was: whatever followed it on
/// the stream is left, and the result is the message, as far as `serde_json`
/// reads the text that it wrote for the message's document as that document.
pub proof fn lemma_message_roundtrip<M: FuturesCodec>(
    message: M::V,
    before: Seq<u8>,
    written: Result<(), CodecError>,
    appended: Seq<u8>,
    rest: Seq<u8>,
    read: Result<M, CodecError>,
)
    ensures
        ({
            &&& message_written(json_printed(M::spelled(message)), written, appended)
            &&& written is Ok
            &&& message_read::<M>(appended + rest, |doc: crate::json::JsonView| M::spelling(doc), read)
            &&& json_parsed(json_printed(M::spelled(message))->Some_0) == Some(M::spelled(message))
        }) ==> frame_read(appended + rest).1 == rest && read is Ok && read->Ok_0@ == message,
{
    let printed = json_printed(M::spelled(message));
    if printed is Some && printed->Some_0.len() <= MAX_BODY_LEN {
        lemma_frame_roundtrip(printed->Some_0, rest);
        M::lemma_spelling(message);
    }
}

/// A stream that closes after the length of a frame and before the end of its
/// body yields the error of a short read: not the end of the stream, and no
/// body. The stream stays where it was.
pub proof fn lemma_short_frame_is_refused(stream: Seq<u8>)
    requires
        4 <= stream.len() < 4 + prefix_value(stream),
    ensures
        frame_read(stream) == (
            Err::<Seq<u8>, CodecErrorView>(CodecErrorView::Io(truncated_text())),
            stream,
        ),
{
}

/// A stream that closes inside the length of a frame yields the same error.
pub proof fn lemma_short_prefix_is_refused(stream: Seq<u8>)
    requires
        0 < stream.len() < 4,
    ensures
        frame_read(stream) == (
            Err::<Seq<u8>, CodecErrorView>(CodecErrorView::Io(truncated_text())),
            stream,
        ),
{
}

/// A stream that closes before any byte of a frame yields the end of the
/// stream, and the server ends the connection in peace, the session untouched.
pub proof fn lemma_clean_end(session: ContextView)
    ensures
        frame_read(Seq::<u8>::empty()) == (
            Err::<Seq<u8>, CodecErrorView>(CodecErrorView::Eof),
            Seq::<u8>::empty(),
        ),
        served(session, Err(CodecErrorView::Eof)) == (session, StepView::Done),
{
}

/// A fresh session asks for the user; once it has the user, for the password;
/// once an answer has given the password, for the sum. An authenticated session
/// asks nothing.
pub proof fn lemma_challenge_order(
    username: Seq<char>,
    password: Seq<char>,
    session: ContextView,
)
    ensures
        ContextView::fresh().question() == Some((AuthMessageType::Visible, "User:"@)),
        ContextView::fresh().create_session(username).question() == Some(
            (AuthMessageType::Secret, "Password:"@),
        ),
        ContextView::fresh().create_session(username).post_response(Some(password)).0.question()
            == Some((AuthMessageType::Visible, "7 + 2:"@)),
        session.authenticated ==> session.question() is None,
{
}

/// With the right user and password, a wrong last answer is refused as a
/// failed authentication after the delay for failures and leaves the session
/// as it was; the right answer after it succeeds and authenticates the
/// session.
pub proof fn lemma_authentication_gate(session: ContextView, answer: Option<Seq<char>>)
    requires
        session.user == Some("user"@),
        session.password == Some("password"@),
        !session.authenticated,
        answer != Some("9"@),
    ensures
        session.post_response(answer) == (
            session,
            OutcomeView {
                result: Err(SessionErrorView::AuthError("nope"@)),
                delay_secs: AUTH_FAILURE_DELAY_SECS,
            },
        ),
        !session.post_response(answer).0.authenticated,
        session.post_response(answer).0.post_response(Some("9"@)) == (
            ContextView { authenticated: true, ..session },
            OutcomeView { result: Ok(()), delay_secs: 0 },
        ),
{
}

/// A session becomes authenticated by nothing but the last answer to a
/// session that holds the right user and password.
pub proof fn lemma_authenticated_only_by_answer(
    session: ContextView,
    event: Result<RequestView, CodecErrorView>,
)
    requires
        !session.authenticated,
        served(session, event).0.authenticated,
    ensures
        event matches Ok(RequestView::PostAuthMessageResponse { response }) && session.accepts(
            response,
        ),
{
}

/// An answer that is refused is answered only after the delay for failures,
/// and every other answer at once.
pub proof fn lemma_failure_is_paced(session: ContextView, answer: Option<Seq<char>>)
    ensures
        session.post_response(answer).1.result matches Err(SessionErrorView::AuthError(_))
            <==> session.post_response(answer).1.delay_secs == AUTH_FAILURE_DELAY_SECS,
        session.post_response(answer).1.delay_secs == AUTH_FAILURE_DELAY_SECS
            || session.post_response(answer).1.delay_secs == 0,
{
}

/// Cancelling makes any session fresh, and is answered with success.
pub proof fn lemma_cancel_resets(session: ContextView)
    ensures
        answered(session, RequestView::CancelSession) == (
            ContextView::fresh(),
            StepView::Reply { response: ResponseView::Success, delay_secs: 0 },
        ),
{
}

/// The steps that a run of rounds takes, from a session on.
pub open spec fn steps(session: ContextView, events: Seq<Result<RequestView, CodecErrorView>>) -> Seq<
    StepView,
>
    decreases events.len(),
{
    if events.len() == 0 {
        Seq::empty()
    } else {
        seq![served(session, events[0]).1] + steps(served(session, events[0]).0, events.skip(1))
    }
}

/// After a cancel, whatever the session was, every run of rounds goes as it
/// goes from a fresh session.
pub proof fn lemma_cancelled_is_as_new(
    session: ContextView,
    events: Seq<Result<RequestView, CodecErrorView>>,
)
    ensures
        steps(answered(session, RequestView::CancelSession).0, events) == steps(
            ContextView::fresh(),
            events,
        ),
{
}

/// Before authentication `start` is refused at once with a plain error, not
/// one of authentication; after it, `start` succeeds after the delay for
/// starting. Neither touches the session.
pub proof fn lemma_start_gate(session: ContextView, cmd: Seq<Seq<char>>)
    ensures
        !session.authenticated ==> session.start() == (OutcomeView {
            result: Err(SessionErrorView::Error("not yet dammit"@)),
            delay_secs: 0,
        }) && answered(session, RequestView::StartSession { cmd }) == (
            session,
            StepView::Reply {
                response: ResponseView::Error {
                    error_type: ErrorType::Error,
                    description: "not yet dammit"@,
                },
                delay_secs: 0,
            },
        ),
        session.authenticated ==> session.start() == (OutcomeView {
            result: Ok(()),
            delay_secs: START_DELAY_SECS,
        }) && answered(session, RequestView::StartSession { cmd }) == (
            session,
            StepView::Reply { response: ResponseView::Success, delay_secs: START_DELAY_SECS },
        ),
{
}

/// An authenticated session refuses every answer with a plain error and stays
/// as it was.
pub proof fn lemma_locked_after_authentication(session: ContextView, answer: Option<Seq<char>>)
    requires
        session.authenticated,
    ensures
        session.post_response(answer) == (
            session,
            OutcomeView { result: Err(SessionErrorView::Error("wat"@)), delay_secs: 0 },
        ),
        answered(session, RequestView::PostAuthMessageResponse { response: answer }) == (
            session,
            StepView::Reply {
                response: ResponseView::Error {
                    error_type: ErrorType::Error,
                    description: "wat"@,
                },
                delay_secs: 0,
            },
        ),
{
}

/// A fresh session is well formed, and every round leaves a well-formed
/// session well formed.
pub proof fn lemma_rounds_keep_wf(session: ContextView, event: Result<RequestView, CodecErrorView>)
    ensures
        ContextView::fresh().wf(),
        session.wf() ==> served(session, event).0.wf(),
{
}

/// The sessions of a server's connections, and a round on one of them: that
/// connection's session serves the round, and the server keeps what it became.
pub open spec fn served_on(
    sessions: Map<nat, ContextView>,
    connection: nat,
    event: Result<RequestView, CodecErrorView>,
) -> (Map<nat, ContextView>, StepView) {
    (
        sessions.insert(connection, served(sessions[connection], event).0),
        served(sessions[connection], event).1,
    )
}

/// A round on one connection is answered from that connection's session
/// alone, and leaves the session of every other connection as it was: rounds
/// on two connections come to the same in either order.
pub proof fn lemma_connections_are_isolated(
    sessions: Map<nat, ContextView>,
    a: nat,
    b: nat,
    event_a: Result<RequestView, CodecErrorView>,
    event_b: Result<RequestView, CodecErrorView>,
)
    requires
        a != b,
        sessions.dom().contains(a),
        sessions.dom().contains(b),
    ensures
        served_on(sessions, a, event_a).0[b] == sessions[b],
        served_on(sessions, a, event_a).1 == served(sessions[a], event_a).1,
        served_on(served_on(sessions, a, event_a).0, b, event_b).1 == served_on(
            sessions,
            b,
            event_b,
        ).1,
        served_on(served_on(sessions, a, event_a).0, b, event_b).0 == served_on(
            served_on(sessions, b, event_b).0,
            a,
            event_a,
        ).0,
{
    assert(served_on(served_on(sessions, a, event_a).0, b, event_b).0 =~= served_on(
        served_on(sessions, b, event_b).0,
        a,
        event_a,
    ).0);
}

} // verus!
