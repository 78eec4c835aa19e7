use fakegreet::error::SessionError;
use fakegreet::message::AuthMessageType;
use fakegreet::session::{Context, Outcome, AUTH_FAILURE_DELAY_SECS, START_DELAY_SECS};

fn some(s: &str) -> Option<String> {
    Some(s.to_string())
}

fn went_well() -> Outcome {
    Outcome { result: Ok(()), delay_secs: 0 }
}

fn refused() -> Outcome {
    Outcome { result: Err(SessionError::AuthError("nope".to_string())), delay_secs: 2 }
}

fn locked() -> Outcome {
    Outcome { result: Err(SessionError::Error("wat".to_string())), delay_secs: 0 }
}

fn too_early() -> Outcome {
    Outcome { result: Err(SessionError::Error("not yet dammit".to_string())), delay_secs: 0 }
}

fn started() -> Outcome {
    Outcome { result: Ok(()), delay_secs: 5 }
}

fn ask_user() -> Result<Option<(AuthMessageType, String)>, SessionError> {
    Ok(Some((AuthMessageType::Visible, "User:".to_string())))
}

fn ask_password() -> Result<Option<(AuthMessageType, String)>, SessionError> {
    Ok(Some((AuthMessageType::Secret, "Password:".to_string())))
}

fn ask_sum() -> Result<Option<(AuthMessageType, String)>, SessionError> {
    Ok(Some((AuthMessageType::Visible, "7 + 2:".to_string())))
}

fn authenticated() -> Context {
    let mut ctx = Context::new();
    assert_eq!(ctx.create_session("user".to_string()), Ok(()));
    assert_eq!(ctx.post_response(some("password")), went_well());
    assert_eq!(ctx.post_response(some("9")), went_well());
    ctx
}

#[test]
fn delays_are_two_and_five_seconds() {
    assert_eq!(AUTH_FAILURE_DELAY_SECS, 2);
    assert_eq!(START_DELAY_SECS, 5);
}

#[test]
fn prompts_come_in_order() {
    let mut ctx = Context::new();
    assert_eq!(ctx.get_question(), ask_user());
    assert_eq!(ctx.create_session("user".to_string()), Ok(()));
    assert_eq!(ctx.get_question(), ask_password());
    assert_eq!(ctx.post_response(some("password")), went_well());
    assert_eq!(ctx.get_question(), ask_sum());
    assert_eq!(ctx.post_response(some("9")), went_well());
    assert_eq!(ctx.get_question(), Ok(None));
}

#[test]
fn user_can_be_given_as_an_answer() {
    let mut ctx = Context::new();
    assert_eq!(ctx.post_response(some("user")), went_well());
    assert_eq!(ctx.get_question(), ask_password());
    assert_eq!(ctx.post_response(some("password")), went_well());
    assert_eq!(ctx.post_response(some("9")), went_well());
    assert_eq!(ctx.start(vec![]), started());
}

#[test]
fn an_answer_that_is_missing_fills_nothing() {
    let mut ctx = Context::new();
    assert_eq!(ctx.post_response(None), went_well());
    assert_eq!(ctx.get_question(), ask_user());
    assert_eq!(ctx.create_session("user".to_string()), Ok(()));
    assert_eq!(ctx.post_response(None), went_well());
    assert_eq!(ctx.get_question(), ask_password());
    assert_eq!(ctx.post_response(some("password")), went_well());
    assert_eq!(ctx.post_response(None), refused());
    assert_eq!(ctx.get_question(), ask_sum());
}

#[test]
fn wrong_answer_is_refused_and_right_answer_still_gets_in() {
    let mut ctx = Context::new();
    assert_eq!(ctx.create_session("user".to_string()), Ok(()));
    assert_eq!(ctx.post_response(some("password")), went_well());
    assert_eq!(ctx.post_response(some("10")), refused());
    assert_eq!(ctx.get_question(), ask_sum());
    assert_eq!(ctx.start(vec![]), too_early());
    assert_eq!(ctx.post_response(some("9")), went_well());
    assert_eq!(ctx.get_question(), Ok(None));
    assert_eq!(ctx.start(vec![]), started());
}

#[test]
fn wrong_user_or_password_is_refused_at_the_last_answer() {
    let mut ctx = Context::new();
    assert_eq!(ctx.create_session("root".to_string()), Ok(()));
    assert_eq!(ctx.post_response(some("password")), went_well());
    assert_eq!(ctx.post_response(some("9")), refused());
    assert_eq!(ctx.create_session("user".to_string()), Ok(()));
    assert_eq!(ctx.post_response(some("9")), went_well());

    let mut ctx = Context::new();
    assert_eq!(ctx.create_session("user".to_string()), Ok(()));
    assert_eq!(ctx.post_response(some("Password")), went_well());
    assert_eq!(ctx.post_response(some("9")), refused());
    assert_eq!(ctx.post_response(some("9")), refused());
    assert_eq!(ctx.get_question(), ask_sum());
}

#[test]
fn create_session_again_replaces_the_user_only() {
    let mut ctx = Context::new();
    assert_eq!(ctx.create_session("root".to_string()), Ok(()));
    assert_eq!(ctx.create_session("user".to_string()), Ok(()));
    assert_eq!(ctx.get_question(), ask_password());
    assert_eq!(ctx.post_response(some("password")), went_well());
    assert_eq!(ctx.create_session("user".to_string()), Ok(()));
    assert_eq!(ctx.get_question(), ask_sum());
    assert_eq!(ctx.post_response(some("9")), went_well());
    assert_eq!(ctx.create_session("root".to_string()), Ok(()));
    assert_eq!(ctx.get_question(), Ok(None));
    assert_eq!(ctx.start(vec![]), started());
}

#[test]
fn start_is_refused_until_authenticated() {
    let mut ctx = Context::new();
    assert_eq!(ctx.start(vec!["sh".to_string()]), too_early());
    assert_eq!(ctx.create_session("user".to_string()), Ok(()));
    assert_eq!(ctx.start(vec!["sh".to_string()]), too_early());
    assert_eq!(ctx.post_response(some("password")), went_well());
    assert_eq!(ctx.start(vec!["sh".to_string()]), too_early());
    assert_eq!(ctx.post_response(some("9")), went_well());
    assert_eq!(ctx.start(vec!["sh".to_string()]), started());
    assert_eq!(ctx.start(vec![]), started());
}

#[test]
fn answers_are_refused_once_authenticated() {
    let mut ctx = authenticated();
    assert_eq!(ctx.post_response(some("9")), locked());
    assert_eq!(ctx.post_response(None), locked());
    assert_eq!(ctx.get_question(), Ok(None));
    assert_eq!(ctx.start(vec![]), started());
}

#[test]
fn cancel_makes_the_session_fresh_from_any_state() {
    let mut ctx = Context::new();
    assert_eq!(ctx.cancel(), Ok(()));
    assert_eq!(ctx.get_question(), ask_user());

    assert_eq!(ctx.create_session("user".to_string()), Ok(()));
    assert_eq!(ctx.cancel(), Ok(()));
    assert_eq!(ctx.get_question(), ask_user());

    assert_eq!(ctx.create_session("user".to_string()), Ok(()));
    assert_eq!(ctx.post_response(some("password")), went_well());
    assert_eq!(ctx.cancel(), Ok(()));
    assert_eq!(ctx.get_question(), ask_user());

    let mut ctx = authenticated();
    assert_eq!(ctx.cancel(), Ok(()));
    assert_eq!(ctx.get_question(), ask_user());
    assert_eq!(ctx.start(vec![]), too_early());
    assert_eq!(ctx.create_session("user".to_string()), Ok(()));
    assert_eq!(ctx.get_question(), ask_password());
    assert_eq!(ctx.post_response(some("password")), went_well());
    assert_eq!(ctx.get_question(), ask_sum());
    assert_eq!(ctx.post_response(some("9")), went_well());
    assert_eq!(ctx.start(vec![]), started());
}

#[test]
fn two_sessions_do_not_see_each_other() {
    let mut one = Context::new();
    let mut two = Context::new();
    assert_eq!(one.create_session("user".to_string()), Ok(()));
    assert_eq!(two.get_question(), ask_user());
    assert_eq!(two.create_session("root".to_string()), Ok(()));
    assert_eq!(one.post_response(some("password")), went_well());
    assert_eq!(two.get_question(), ask_password());
    assert_eq!(two.post_response(some("password")), went_well());
    assert_eq!(one.post_response(some("9")), went_well());
    assert_eq!(two.post_response(some("9")), refused());
    assert_eq!(two.start(vec![]), too_early());
    assert_eq!(one.start(vec![]), started());
    assert_eq!(one.cancel(), Ok(()));
    assert_eq!(two.get_question(), ask_sum());
    assert_eq!(one.get_question(), ask_user());
}
