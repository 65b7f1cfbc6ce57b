use std::collections::VecDeque;

use gmutils::cert_server::Error;
use gmutils::email::{
    EmailAction, EmailEvent, EmailLogin, EmailSession, EmailSessionError, MoreAction,
};

fn api_error(code: &str, message: &str) -> Error {
    Error::Api { status: 401, code: code.to_string(), message: message.to_string() }
}

enum UiEvent {
    Email(&'static str),
    Code(&'static str),
    MoreOptions,
    Choose(&'static str),
    Confirm(bool),
}

/// What the server and the user do, and what was seen of it.
struct Script {
    ui: VecDeque<UiEvent>,
    sends: VecDeque<Result<(), Error>>,
    verifications: VecDeque<Result<String, Error>>,
    calls: Vec<String>,
    messages: Vec<String>,
    code_prompts: usize,
    confirmations: usize,
}

impl Script {
    fn new(ui: Vec<UiEvent>, verifications: Vec<Result<String, Error>>) -> Self {
        Script {
            ui: ui.into(),
            sends: VecDeque::new(),
            verifications: verifications.into(),
            calls: Vec::new(),
            messages: Vec::new(),
            code_prompts: 0,
            confirmations: 0,
        }
    }

    fn send_count(&self) -> usize {
        self.calls.iter().filter(|call| call.starts_with("send:")).count()
    }

    fn run(
        &mut self,
        email: Option<&str>,
        code: Option<&str>,
        interactive: bool,
    ) -> Result<String, EmailSessionError> {
        let (mut session, mut action) = EmailSession::start(
            EmailLogin::Account,
            email.map(str::to_owned),
            code.map(str::to_owned),
            interactive,
        );
        loop {
            let event = match action {
                EmailAction::PromptEmail => match self.ui.pop_front() {
                    Some(UiEvent::Email(email)) => EmailEvent::Email(email.to_owned()),
                    _ => panic!("expected a scripted email"),
                },
                EmailAction::SendCode { email } => {
                    self.calls.push(format!("send:{email}"));
                    match self.sends.pop_front().unwrap_or(Ok(())) {
                        Ok(()) => EmailEvent::Sent,
                        Err(error) => EmailEvent::SendFailed(error),
                    }
                }
                EmailAction::PromptCode => {
                    self.code_prompts += 1;
                    match self.ui.pop_front() {
                        Some(UiEvent::Code(code)) => EmailEvent::Code(code.to_owned()),
                        Some(UiEvent::MoreOptions) => EmailEvent::MoreOptions,
                        _ => panic!("expected a scripted verification code action"),
                    }
                }
                EmailAction::ChooseMore => match self.ui.pop_front() {
                    Some(UiEvent::Choose(label)) => {
                        EmailEvent::More(MoreAction::with_label(label).unwrap())
                    }
                    _ => panic!("expected a scripted more-options choice"),
                },
                EmailAction::Verify { login, email, code } => {
                    let login = match login {
                        EmailLogin::Account => "account",
                        EmailLogin::Domain(_) => "domain",
                    };
                    self.calls.push(format!("verify-{login}:{email}:{code}"));
                    match self.verifications.pop_front().unwrap() {
                        Ok(token) => EmailEvent::Verified(token),
                        Err(error) => EmailEvent::VerifyFailed(error),
                    }
                }
                EmailAction::ConfirmResend => {
                    self.confirmations += 1;
                    match self.ui.pop_front() {
                        Some(UiEvent::Confirm(answer)) => EmailEvent::ResendAnswer(answer),
                        _ => panic!("expected a scripted resend confirmation"),
                    }
                }
                EmailAction::Finish(result) => return result,
                EmailAction::Nothing => panic!("the session stands still"),
            };
            let step = session.next(event);
            self.messages.extend(step.notice);
            action = step.action;
        }
    }
}

fn accepting(ui: Vec<UiEvent>) -> Script {
    Script::new(ui, vec![Ok("token".to_owned())])
}

#[test]
fn interactive_session_sends_once_then_verifies() {
    let mut script =
        accepting(vec![UiEvent::Email("alice@example.test"), UiEvent::Code("123456")]);

    assert_eq!(script.run(None, None, true).unwrap(), "token");
    assert_eq!(
        script.calls,
        ["send:alice@example.test", "verify-account:alice@example.test:123456"]
    );
}

#[test]
fn invalid_prefilled_email_returns_to_email_input_before_sending() {
    let mut script =
        accepting(vec![UiEvent::Email("alice@example.test"), UiEvent::Code("123456")]);

    assert_eq!(script.run(Some("not-an-email"), None, true).unwrap(), "token");
    assert_eq!(
        script.calls,
        ["send:alice@example.test", "verify-account:alice@example.test:123456"]
    );
}

#[test]
fn question_mark_keeps_resend_change_email_and_cancel() {
    let mut script = accepting(vec![
        UiEvent::Email("old@example.test"),
        UiEvent::MoreOptions,
        UiEvent::Choose("Change email"),
        UiEvent::Email("new@example.test"),
        UiEvent::Code("123456"),
    ]);

    script.run(None, None, true).unwrap();

    assert_eq!(
        script.calls,
        [
            "send:old@example.test",
            "send:new@example.test",
            "verify-account:new@example.test:123456",
        ]
    );
}

#[test]
fn question_mark_can_resend_without_changing_email() {
    let mut script = accepting(vec![
        UiEvent::Email("alice@example.test"),
        UiEvent::MoreOptions,
        UiEvent::Choose("Resend verification code"),
        UiEvent::Code("123456"),
    ]);

    script.run(None, None, true).unwrap();

    assert_eq!(
        script.calls,
        [
            "send:alice@example.test",
            "send:alice@example.test",
            "verify-account:alice@example.test:123456",
        ]
    );
}

#[test]
fn question_mark_can_cancel_without_verifying() {
    let mut script = accepting(vec![
        UiEvent::Email("alice@example.test"),
        UiEvent::MoreOptions,
        UiEvent::Choose("Cancel"),
    ]);

    let error = script.run(None, None, true).unwrap_err();

    assert_eq!(error.to_text(), "Email verification was cancelled.");
    assert_eq!(script.calls, ["send:alice@example.test"]);
}

#[test]
fn invalid_code_reprompts_without_resending() {
    let mut script = Script::new(
        vec![
            UiEvent::Email("alice@example.test"),
            UiEvent::Code("111111"),
            UiEvent::Code("222222"),
        ],
        vec![
            Err(api_error("verify_code_invalid", "verification code is incorrect")),
            Ok("token".to_string()),
        ],
    );

    assert_eq!(script.run(None, None, true).unwrap(), "token");
    assert_eq!(script.send_count(), 1);
    assert_eq!(script.messages, ["verification code is incorrect"]);
}

#[test]
fn expired_code_resends_only_after_yes() {
    let mut script = Script::new(
        vec![
            UiEvent::Email("alice@example.test"),
            UiEvent::Code("111111"),
            UiEvent::Confirm(true),
            UiEvent::Code("222222"),
        ],
        vec![
            Err(api_error("verify_code_expired", "verification code expired")),
            Ok("token".to_string()),
        ],
    );

    script.run(None, None, true).unwrap();

    assert_eq!(script.send_count(), 2);
    assert_eq!(script.confirmations, 1);
}

#[test]
fn expired_code_no_returns_to_code_without_send() {
    let mut script = Script::new(
        vec![
            UiEvent::Email("alice@example.test"),
            UiEvent::Code("111111"),
            UiEvent::Confirm(false),
            UiEvent::Code("222222"),
        ],
        vec![
            Err(api_error("verify_code_expired", "verification code expired")),
            Ok("token".to_string()),
        ],
    );

    script.run(None, None, true).unwrap();

    assert_eq!(script.send_count(), 1);
}

#[test]
fn send_failure_does_not_enter_code_input_or_mark_sent() {
    let mut script = accepting(vec![UiEvent::Email("alice@example.test")]);
    script.sends =
        vec![Err(Error::Whatever { message: "network unavailable".to_owned() })].into();

    assert!(script.run(None, None, true).is_err());
    assert_eq!(script.send_count(), 1);
    assert_eq!(script.code_prompts, 0);
}

#[test]
fn noninteractive_email_requires_both_email_and_hidden_code_and_never_sends() {
    for (email, code) in [(None, None), (Some("a@b.test"), None), (None, Some("000000"))] {
        let mut script = accepting(vec![]);
        let error = match script.run(email, code, false) {
            Ok(_) => panic!("incomplete hidden test input unexpectedly authenticated"),
            Err(error) => error.to_text(),
        };
        assert!(
            !error.contains("--verify-code"),
            "hidden test input leaked into public error copy: {error}"
        );
        assert!(error.contains("interactive terminal"), "{error}");
    }

    let mut script = accepting(vec![]);
    script.run(Some("a@b.test"), Some("000000"), false).unwrap();
    assert_eq!(script.calls, ["verify-account:a@b.test:000000"]);
}

#[test]
fn every_choice_is_found_under_its_label() {
    for action in MoreAction::all() {
        assert_eq!(MoreAction::with_label(action.label()), Some(action));
    }
    assert_eq!(MoreAction::with_label("Nothing"), None);
}

#[test]
fn verifications_follow_the_last_send_to_their_address() {
    let (mut session, action) = EmailSession::start(EmailLogin::Account, None, None, true);
    assert_eq!(action, EmailAction::PromptEmail);
    let mut told = |event: EmailEvent| session.next(event).action;
    let send = |email: &str| EmailAction::SendCode { email: email.to_owned() };
    assert_eq!(told(EmailEvent::Email("a@b.test".to_owned())), send("a@b.test"));
    assert_eq!(told(EmailEvent::Sent), EmailAction::PromptCode);
    assert_eq!(told(EmailEvent::MoreOptions), EmailAction::ChooseMore);
    assert_eq!(told(EmailEvent::More(MoreAction::ChangeEmail)), EmailAction::PromptEmail);
    assert_eq!(told(EmailEvent::Email("c@d.test".to_owned())), send("c@d.test"));
    assert_eq!(told(EmailEvent::Sent), EmailAction::PromptCode);
    assert_eq!(
        told(EmailEvent::Code("123456".to_owned())),
        EmailAction::Verify {
            login: EmailLogin::Account,
            email: "c@d.test".to_owned(),
            code: "123456".to_owned(),
        }
    );
    assert_eq!(
        told(EmailEvent::Verified("token".to_owned())),
        EmailAction::Finish(Ok("token".to_owned()))
    );
    // The token ends the session, whatever it is told.
    assert_eq!(told(EmailEvent::Sent), EmailAction::Nothing);
    assert_eq!(told(EmailEvent::Code("123456".to_owned())), EmailAction::Nothing);
}
