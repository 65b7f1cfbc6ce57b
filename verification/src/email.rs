//! The email session: an address is asked for, a code is sent to it, and the code is verified.
//!
//! The session is a machine. It says what to do next, and is told what came of it.
use vstd::prelude::*;

use crate::cert_server::Error;
use crate::recovery::{classify_verify_submit_error, VerificationRecovery};
use crate::text::{copy_opt, opt_view, same};
use crate::validator::{email_address, is_valid_email};

verus! {

/// What a verified address gives access to.
#[derive(Debug, PartialEq, Eq)]
pub enum EmailLogin {
    Account,
    Domain(String),
}

impl EmailLogin {
    pub fn copy(&self) -> (r: EmailLogin)
        ensures
            r == *self,
    {
        match self {
            EmailLogin::Account => EmailLogin::Account,
            EmailLogin::Domain(domain) => EmailLogin::Domain(domain.clone()),
        }
    }
}

/// What the user can do instead of entering a code.
#[derive(Debug, Clone, Copy, PartialEq, Eq, Structural)]
pub enum MoreAction {
    Resend,
    ChangeEmail,
    Cancel,
}

impl MoreAction {
    pub open spec fn label_text(self) -> Seq<char> {
        match self {
            MoreAction::Resend => "Resend verification code"@,
            MoreAction::ChangeEmail => "Change email"@,
            MoreAction::Cancel => "Cancel"@,
        }
    }

    pub fn label(self) -> (r: &'static str)
        ensures
            r@ == self.label_text(),
    {
        match self {
            MoreAction::Resend => "Resend verification code",
            MoreAction::ChangeEmail => "Change email",
            MoreAction::Cancel => "Cancel",
        }
    }

    pub fn all() -> (r: [MoreAction; 3])
        ensures
            r@ == seq![MoreAction::Resend, MoreAction::ChangeEmail, MoreAction::Cancel],
    {
        [MoreAction::Resend, MoreAction::ChangeEmail, MoreAction::Cancel]
    }

    /// The action with a label.
    pub fn with_label(label: &str) -> (r: Option<MoreAction>)
        ensures
            match r {
                Some(action) => action.label_text() == label@,
                None => label@ != MoreAction::Resend.label_text() && label@
                    != MoreAction::ChangeEmail.label_text() && label@
                    != MoreAction::Cancel.label_text(),
            },
    {
        if same(label, "Resend verification code") {
            Some(MoreAction::Resend)
        } else if same(label, "Change email") {
            Some(MoreAction::ChangeEmail)
        } else if same(label, "Cancel") {
            Some(MoreAction::Cancel)
        } else {
            None
        }
    }
}

/// Why a session ended without a token.
#[derive(Debug, PartialEq, Eq)]
pub enum EmailSessionError {
    Cancelled,
    NonInteractivePairRequired,
    InvalidEmail,
    /// A prompt failed; the message says why.
    Prompt(String),
    Server(Error),
}

impl EmailSessionError {
    pub open spec fn words(self) -> Seq<char> {
        match self {
            EmailSessionError::Cancelled => "Email verification was cancelled."@,
            EmailSessionError::NonInteractivePairRequired => "Email verification requires an interactive terminal for this command."@,
            EmailSessionError::InvalidEmail => "Invalid email address. Please enter a valid email address."@,
            EmailSessionError::Prompt(message) => message@,
            EmailSessionError::Server(error) => error.words(),
        }
    }

    pub fn to_text(&self) -> (r: String)
        ensures
            r@ == self.words(),
    {
        match self {
            EmailSessionError::Cancelled => "Email verification was cancelled.".to_owned(),
            EmailSessionError::NonInteractivePairRequired => "Email verification requires an interactive terminal for this command.".to_owned(),
            EmailSessionError::InvalidEmail => "Invalid email address. Please enter a valid email address.".to_owned(),
            EmailSessionError::Prompt(message) => message.clone(),
            EmailSessionError::Server(error) => error.to_text(),
        }
    }
}

/// What the session waits for.
#[derive(Debug, Clone, Copy, PartialEq, Eq, Structural)]
pub enum EmailPhase {
    AskEmail,
    Sending,
    AskCode,
    AskMore,
    Verifying,
    AskResend,
    Done,
}

/// What came of an action.
#[derive(Debug)]
pub enum EmailEvent {
    Email(String),
    Sent,
    SendFailed(Error),
    Code(String),
    MoreOptions,
    More(MoreAction),
    Verified(String),
    VerifyFailed(Error),
    ResendAnswer(bool),
    PromptFailed(String),
}

/// What is to be done next.
#[derive(Debug, PartialEq, Eq)]
pub enum EmailAction {
    PromptEmail,
    SendCode { email: String },
    PromptCode,
    ChooseMore,
    Verify { login: EmailLogin, email: String, code: String },
    ConfirmResend,
    Finish(Result<String, EmailSessionError>),
    /// The session is over.
    Nothing,
}

/// An action, and a message of the server that is shown before it.
#[derive(Debug, PartialEq, Eq)]
pub struct EmailStep {
    pub notice: Option<String>,
    pub action: EmailAction,
}

#[derive(Debug)]
pub struct EmailSession {
    pub login: EmailLogin,
    pub interactive: bool,
    /// Whether the session was started with a code.
    pub code_given: bool,
    pub email: Option<String>,
    pub verify_code: Option<String>,
    /// The address that the last code was sent to.
    pub sent_to: Option<String>,
    pub phase: EmailPhase,
}

impl EmailSession {
    /// The last code was sent to the current address.
    pub open spec fn sent(self) -> bool {
        match (self.sent_to, self.email) {
            (Some(sent_to), Some(email)) => sent_to@ == email@,
            _ => false,
        }
    }

    pub open spec fn at(self, phase: EmailPhase) -> EmailSession {
        EmailSession { phase, ..self }
    }

    /// Where the session goes from what it knows: it needs an address, then a code that was
    /// sent to that address, then verifies the two.
    pub open spec fn onward(self) -> (EmailSession, EmailAction) {
        match self.email {
            None => (self.at(EmailPhase::AskEmail), EmailAction::PromptEmail),
            Some(email) => match self.verify_code {
                None => if self.sent() {
                    (self.at(EmailPhase::AskCode), EmailAction::PromptCode)
                } else {
                    (self.at(EmailPhase::Sending), EmailAction::SendCode { email })
                },
                Some(code) => (
                    self.at(EmailPhase::Verifying),
                    EmailAction::Verify { login: self.login, email, code },
                ),
            },
        }
    }

    /// The action that the session waits for.
    pub open spec fn pending(self) -> EmailAction {
        match (self.phase, self.email, self.verify_code) {
            (EmailPhase::Done, _, _) => EmailAction::Nothing,
            (EmailPhase::AskEmail, _, _) | (_, None, _) => EmailAction::PromptEmail,
            (EmailPhase::Sending, Some(email), _) => EmailAction::SendCode { email },
            (EmailPhase::AskMore, _, _) => EmailAction::ChooseMore,
            (EmailPhase::AskResend, _, _) => EmailAction::ConfirmResend,
            (EmailPhase::Verifying, Some(email), Some(code)) => EmailAction::Verify {
                login: self.login,
                email,
                code,
            },
            (_, _, _) => EmailAction::PromptCode,
        }
    }

    pub open spec fn ended(self, result: Result<String, EmailSessionError>) -> (
        EmailSession,
        EmailAction,
    ) {
        (self.at(EmailPhase::Done), EmailAction::Finish(result))
    }

    /// The session after a verification was refused.
    pub open spec fn after_refusal(self, error: Error) -> (EmailSession, EmailAction) {
        if !self.interactive {
            self.ended(Err(EmailSessionError::Server(error)))
        } else if error.refused(401, "verify_code_invalid"@) {
            (EmailSession { verify_code: None, ..self }).onward()
        } else if error.refused(401, "verify_code_expired"@) {
            (
                (EmailSession { verify_code: None, ..self }).at(EmailPhase::AskResend),
                EmailAction::ConfirmResend,
            )
        } else if error.refused(401, "domain_email_not_matched"@) {
            (EmailSession { email: None, verify_code: None, sent_to: None, ..self }).onward()
        } else {
            self.ended(Err(EmailSessionError::Server(error)))
        }
    }

    /// The message that is shown after a verification was refused and the session goes on.
    pub open spec fn refusal_notice(self, error: Error) -> Option<Seq<char>> {
        if self.interactive && (error.refused(401, "verify_code_invalid"@) || error.refused(
            401,
            "verify_code_expired"@,
        ) || error.refused(401, "domain_email_not_matched"@)) {
            Some(error.words())
        } else {
            None
        }
    }

    /// The session after an event, and the action that follows. An event that the session
    /// does not wait for changes nothing.
    pub open spec fn after(self, event: EmailEvent) -> (EmailSession, EmailAction) {
        match (self.phase, event) {
            (EmailPhase::AskEmail, EmailEvent::Email(email)) => {
                let sent_to = if self.code_given && self.verify_code is Some {
                    Some(email)
                } else {
                    self.sent_to
                };
                (EmailSession { email: Some(email), sent_to, ..self }).onward()
            },
            (EmailPhase::Sending, EmailEvent::Sent) => (EmailSession {
                sent_to: self.email,
                ..self
            }).onward(),
            (EmailPhase::Sending, EmailEvent::SendFailed(error)) => self.ended(
                Err(EmailSessionError::Server(error)),
            ),
            (EmailPhase::AskCode, EmailEvent::Code(code)) => (EmailSession {
                verify_code: Some(code),
                ..self
            }).onward(),
            (EmailPhase::AskCode, EmailEvent::MoreOptions) => (
                self.at(EmailPhase::AskMore),
                EmailAction::ChooseMore,
            ),
            (EmailPhase::AskMore, EmailEvent::More(MoreAction::Resend)) => (EmailSession {
                sent_to: None,
                ..self
            }).onward(),
            (EmailPhase::AskMore, EmailEvent::More(MoreAction::ChangeEmail)) => (EmailSession {
                email: None,
                sent_to: None,
                ..self
            }).onward(),
            (EmailPhase::AskMore, EmailEvent::More(MoreAction::Cancel)) => self.ended(
                Err(EmailSessionError::Cancelled),
            ),
            (EmailPhase::Verifying, EmailEvent::Verified(token)) => self.ended(Ok(token)),
            (EmailPhase::Verifying, EmailEvent::VerifyFailed(error)) => self.after_refusal(error),
            (EmailPhase::AskResend, EmailEvent::ResendAnswer(yes)) => (EmailSession {
                sent_to: if yes {
                    None
                } else {
                    self.sent_to
                },
                ..self
            }).onward(),
            (EmailPhase::AskEmail, EmailEvent::PromptFailed(message))
            | (EmailPhase::AskCode, EmailEvent::PromptFailed(message))
            | (EmailPhase::AskMore, EmailEvent::PromptFailed(message))
            | (EmailPhase::AskResend, EmailEvent::PromptFailed(message)) => self.ended(
                Err(EmailSessionError::Prompt(message)),
            ),
            (_, _) => (self, self.pending()),
        }
    }

    /// The message that is shown after an event.
    pub open spec fn notice_after(self, event: EmailEvent) -> Option<Seq<char>> {
        match (self.phase, event) {
            (EmailPhase::Verifying, EmailEvent::VerifyFailed(error)) => self.refusal_notice(error),
            _ => None,
        }
    }

    /// What holds of a session between its events. Codes are only asked for, and only
    /// verified, after one was sent to the current address.
    pub open spec fn wf(self) -> bool {
        match self.phase {
            EmailPhase::AskEmail => self.interactive && self.email is None && (self.verify_code
                is Some ==> self.code_given),
            EmailPhase::Sending => self.interactive && self.email is Some && self.verify_code
                is None,
            EmailPhase::AskCode | EmailPhase::AskMore | EmailPhase::AskResend => self.interactive
                && self.verify_code is None && self.sent(),
            EmailPhase::Verifying => self.email is Some && self.verify_code is Some && (
            self.interactive ==> self.sent()),
            EmailPhase::Done => true,
        }
    }

    /// A session as it starts, and its first action.
    pub open spec fn begun(
        login: EmailLogin,
        initial_email: Option<String>,
        initial_verify_code: Option<String>,
        interactive: bool,
    ) -> (EmailSession, EmailAction) {
        let valid = initial_email matches Some(email) && email_address(email@);
        let blank = EmailSession {
            login,
            interactive,
            code_given: initial_verify_code is Some,
            email: None,
            verify_code: None,
            sent_to: None,
            phase: EmailPhase::AskEmail,
        };
        if interactive {
            (EmailSession {
                email: if valid {
                    initial_email
                } else {
                    None
                },
                verify_code: initial_verify_code,
                sent_to: if initial_verify_code is Some {
                    initial_email
                } else {
                    None
                },
                ..blank
            }).onward()
        } else if initial_email is None || initial_verify_code is None {
            blank.ended(Err(EmailSessionError::NonInteractivePairRequired))
        } else if !valid {
            blank.ended(Err(EmailSessionError::InvalidEmail))
        } else {
            (EmailSession {
                email: initial_email,
                verify_code: initial_verify_code,
                ..blank
            }).onward()
        }
    }

    fn go_on(&mut self) -> (r: EmailAction)
        ensures
            (*final(self), r) == old(self).onward(),
    {
        match &self.email {
            None => {
                self.phase = EmailPhase::AskEmail;
                EmailAction::PromptEmail
            },
            Some(email) => {
                let email = email.clone();
                match &self.verify_code {
                    None => {
                        let sent = match &self.sent_to {
                            Some(sent_to) => same(sent_to, &email),
                            None => false,
                        };
                        if sent {
                            self.phase = EmailPhase::AskCode;
                            EmailAction::PromptCode
                        } else {
                            self.phase = EmailPhase::Sending;
                            EmailAction::SendCode { email }
                        }
                    },
                    Some(code) => {
                        let code = code.clone();
                        self.phase = EmailPhase::Verifying;
                        EmailAction::Verify { login: self.login.copy(), email, code }
                    },
                }
            },
        }
    }

    fn repeat(&self) -> (r: EmailAction)
        ensures
            r == self.pending(),
    {
        match (self.phase, &self.email, &self.verify_code) {
            (EmailPhase::Done, _, _) => EmailAction::Nothing,
            (EmailPhase::AskEmail, _, _) => EmailAction::PromptEmail,
            (_, None, _) => EmailAction::PromptEmail,
            (EmailPhase::Sending, Some(email), _) => EmailAction::SendCode { email: email.clone() },
            (EmailPhase::AskMore, _, _) => EmailAction::ChooseMore,
            (EmailPhase::AskResend, _, _) => EmailAction::ConfirmResend,
            (EmailPhase::Verifying, Some(email), Some(code)) => EmailAction::Verify {
                login: self.login.copy(),
                email: email.clone(),
                code: code.clone(),
            },
            (_, _, _) => EmailAction::PromptCode,
        }
    }

    fn end(&mut self, result: Result<String, EmailSessionError>) -> (r: EmailAction)
        ensures
            (*final(self), r) == old(self).ended(result),
    {
        self.phase = EmailPhase::Done;
        EmailAction::Finish(result)
    }

    /// Starts a session. Without a terminal it takes a valid address and a code, and verifies
    /// them; it neither asks nor sends. On a terminal a valid address and a code are taken
    /// where they are given, and what is missing is asked for.
    pub fn start(
        login: EmailLogin,
        initial_email: Option<String>,
        initial_verify_code: Option<String>,
        interactive: bool,
    ) -> (r: (EmailSession, EmailAction))
        ensures
            r == EmailSession::begun(login, initial_email, initial_verify_code, interactive),
            r.0.wf(),
    {
        let mut session = EmailSession {
            login,
            interactive,
            code_given: initial_verify_code.is_some(),
            email: None,
            verify_code: None,
            sent_to: None,
            phase: EmailPhase::AskEmail,
        };
        let valid = match &initial_email {
            Some(email) => is_valid_email(email),
            None => false,
        };
        if !interactive {
            if initial_email.is_none() || initial_verify_code.is_none() {
                let action = session.end(Err(EmailSessionError::NonInteractivePairRequired));
                return (session, action);
            }
            if !valid {
                let action = session.end(Err(EmailSessionError::InvalidEmail));
                return (session, action);
            }
            session.email = initial_email;
            session.verify_code = initial_verify_code;
            let action = session.go_on();
            return (session, action);
        }
        if initial_verify_code.is_some() {
            session.sent_to = copy_opt(&initial_email);
        }
        session.email = if valid {
            initial_email
        } else {
            None
        };
        session.verify_code = initial_verify_code;
        let action = session.go_on();
        (session, action)
    }

    /// Takes an event and gives the step that follows.
    pub fn next(&mut self, event: EmailEvent) -> (r: EmailStep)
        ensures
            (*final(self), r.action) == old(self).after(event),
            opt_view(r.notice) == old(self).notice_after(event),
    {
        let mut notice: Option<String> = None;
        let action = match (self.phase, event) {
            (EmailPhase::AskEmail, EmailEvent::Email(email)) => {
                if self.code_given && self.verify_code.is_some() {
                    self.sent_to = Some(email.clone());
                }
                self.email = Some(email);
                self.go_on()
            },
            (EmailPhase::Sending, EmailEvent::Sent) => {
                self.sent_to = copy_opt(&self.email);
                self.go_on()
            },
            (EmailPhase::Sending, EmailEvent::SendFailed(error)) => self.end(
                Err(EmailSessionError::Server(error)),
            ),
            (EmailPhase::AskCode, EmailEvent::Code(code)) => {
                self.verify_code = Some(code);
                self.go_on()
            },
            (EmailPhase::AskCode, EmailEvent::MoreOptions) => {
                self.phase = EmailPhase::AskMore;
                EmailAction::ChooseMore
            },
            (EmailPhase::AskMore, EmailEvent::More(MoreAction::Resend)) => {
                self.sent_to = None;
                self.go_on()
            },
            (EmailPhase::AskMore, EmailEvent::More(MoreAction::ChangeEmail)) => {
                self.email = None;
                self.sent_to = None;
                self.go_on()
            },
            (EmailPhase::AskMore, EmailEvent::More(MoreAction::Cancel)) => self.end(
                Err(EmailSessionError::Cancelled),
            ),
            (EmailPhase::Verifying, EmailEvent::Verified(token)) => self.end(Ok(token)),
            (EmailPhase::Verifying, EmailEvent::VerifyFailed(error)) => {
                if !self.interactive {
                    self.end(Err(EmailSessionError::Server(error)))
                } else {
                    match classify_verify_submit_error(&error) {
                        VerificationRecovery::RetryCode { message } => {
                            notice = Some(message);
                            self.verify_code = None;
                            self.go_on()
                        },
                        VerificationRecovery::OfferResend { message } => {
                            notice = Some(message);
                            self.verify_code = None;
                            self.phase = EmailPhase::AskResend;
                            EmailAction::ConfirmResend
                        },
                        VerificationRecovery::ChangeEmail { message } => {
                            notice = Some(message);
                            self.email = None;
                            self.verify_code = None;
                            self.sent_to = None;
                            self.go_on()
                        },
                        VerificationRecovery::Stop => self.end(
                            Err(EmailSessionError::Server(error)),
                        ),
                    }
                }
            },
            (EmailPhase::AskResend, EmailEvent::ResendAnswer(yes)) => {
                if yes {
                    self.sent_to = None;
                }
                self.go_on()
            },
            (EmailPhase::AskEmail, EmailEvent::PromptFailed(message)) => self.end(
                Err(EmailSessionError::Prompt(message)),
            ),
            (EmailPhase::AskCode, EmailEvent::PromptFailed(message)) => self.end(
                Err(EmailSessionError::Prompt(message)),
            ),
            (EmailPhase::AskMore, EmailEvent::PromptFailed(message)) => self.end(
                Err(EmailSessionError::Prompt(message)),
            ),
            (EmailPhase::AskResend, EmailEvent::PromptFailed(message)) => self.end(
                Err(EmailSessionError::Prompt(message)),
            ),
            (_, _) => self.repeat(),
        };
        EmailStep { notice, action }
    }
}

/// Every event keeps what holds of a session, and leaves alone whom it is for and whether
/// there is a terminal.
pub proof fn session_stays_well_formed(session: EmailSession, event: EmailEvent)
    requires
        session.wf(),
    ensures
        session.after(event).0.wf(),
        session.after(event).0.login == session.login,
        session.after(event).0.interactive == session.interactive,
{
}

/// A code is asked for, or given to the server on a terminal, only after one was sent to the
/// address that it is asked or given for.
pub proof fn codes_follow_a_send_to_the_same_address(session: EmailSession, event: EmailEvent)
    requires
        session.wf(),
        session.interactive,
    ensures
        session.after(event).1 is PromptCode ==> session.after(event).0.sent(),
        session.after(event).1 matches EmailAction::Verify { email, .. } ==> session.after(
            event,
        ).0.sent_to is Some && session.after(event).0.sent_to->0@ == email@,
{
    session_stays_well_formed(session, event);
}

/// After the session has started, a code is sent only to an address that was just entered, or
/// when the user asked for another code, or agreed to one.
pub proof fn codes_are_sent_only_on_request(session: EmailSession, event: EmailEvent)
    requires
        session.wf(),
        session.phase != EmailPhase::Sending,
        session.after(event).1 is SendCode,
    ensures
        event is Email || event == EmailEvent::More(MoreAction::Resend) || event
            == EmailEvent::ResendAnswer(true),
{
}

/// A refused offer to send another code leads back to the code prompt without a send.
pub proof fn declined_resend_asks_for_the_code_again(session: EmailSession)
    requires
        session.wf(),
        session.phase == EmailPhase::AskResend,
    ensures
        session.after(EmailEvent::ResendAnswer(false)).1 == EmailAction::PromptCode,
{
}

/// Without a terminal a session neither sends a code nor asks for anything.
pub proof fn sessions_without_terminal_only_verify(session: EmailSession, event: EmailEvent)
    requires
        session.wf(),
        !session.interactive,
    ensures
        ({
            let action = session.after(event).1;
            action is Verify || action is Finish || action is Nothing
        }),
{
}

/// A failed send ends the session before any code is asked for, and leaves the record of the
/// last send alone.
pub proof fn failed_send_ends_the_session(session: EmailSession, error: Error)
    requires
        session.phase == EmailPhase::Sending,
    ensures
        session.after(EmailEvent::SendFailed(error)).1 == EmailAction::Finish(
            Err(EmailSessionError::Server(error)),
        ),
        session.after(EmailEvent::SendFailed(error)).0.sent_to == session.sent_to,
{
}

/// Only the server's answer to a verification yields a token.
pub proof fn tokens_come_from_verification(session: EmailSession, event: EmailEvent, token: String)
    requires
        session.after(event).1 == EmailAction::Finish(Ok::<String, EmailSessionError>(token)),
    ensures
        session.phase == EmailPhase::Verifying && event == EmailEvent::Verified(token),
{
}

/// What a session is after some events, and the action that follows on the last of them.
pub open spec fn played(first: (EmailSession, EmailAction), events: Seq<EmailEvent>) -> (
    EmailSession,
    EmailAction,
)
    decreases events.len(),
{
    if events.len() == 0 {
        first
    } else {
        played(first, events.drop_last()).0.after(events.last())
    }
}

/// The action that stands before the event with an index.
pub open spec fn action_before(
    first: (EmailSession, EmailAction),
    events: Seq<EmailEvent>,
    index: int,
) -> EmailAction {
    played(first, events.take(index)).1
}

/// The index of the event that reports the last successful send.
pub open spec fn last_send(first: (EmailSession, EmailAction), events: Seq<EmailEvent>) -> Option<
    int,
>
    decreases events.len(),
{
    if events.len() == 0 {
        None
    } else if played(first, events.drop_last()).0.phase == EmailPhase::Sending && events.last()
        is Sent {
        Some(events.len() - 1)
    } else {
        last_send(first, events.drop_last())
    }
}

/// The index of the event that submitted the last code.
pub open spec fn last_code(first: (EmailSession, EmailAction), events: Seq<EmailEvent>) -> Option<
    int,
>
    decreases events.len(),
{
    if events.len() == 0 {
        None
    } else if played(first, events.drop_last()).0.phase == EmailPhase::AskCode && events.last()
        is Code {
        Some(events.len() - 1)
    } else {
        last_code(first, events.drop_last())
    }
}

/// No code is sent from the event behind an index on.
pub open spec fn nothing_sent_since(
    first: (EmailSession, EmailAction),
    events: Seq<EmailEvent>,
    index: int,
) -> bool {
    forall|k: int|
        index < k <= events.len() ==> !(#[trigger] action_before(first, events, k) is SendCode)
}

/// What the events of a session tell of its state: where the last send went, and where the
/// code comes from.
pub open spec fn history_fits(
    first: (EmailSession, EmailAction),
    given: Option<String>,
    events: Seq<EmailEvent>,
) -> bool {
    let (session, action) = played(first, events);
    let send = last_send(first, events);
    let code = last_code(first, events);
    let since = match send {
        Some(i) => i,
        None => -1,
    };
    &&& session.wf()
    &&& session.interactive
    &&& session.code_given == (given is Some)
    &&& (send matches Some(i) ==> 0 <= i < events.len() && events[i] is Sent)
    &&& (code matches Some(j) ==> 0 <= j < events.len() && events[j] is Code)
    &&& (session.phase != EmailPhase::Done ==> action == session.pending())
    &&& (session.phase == EmailPhase::Done ==> action is Finish || action is Nothing)
    &&& (session.phase != EmailPhase::Sending && session.phase != EmailPhase::Done
        ==> nothing_sent_since(first, events, since))
    &&& (session.phase != EmailPhase::Done ==> match (send, session.sent_to) {
        (Some(i), Some(sent_to)) => (action_before(first, events, i) matches EmailAction::SendCode {
            email,
        } && email@ == sent_to@),
        (None, Some(_)) => given is Some,
        (_, None) => true,
    })
    &&& (session.phase == EmailPhase::AskEmail && session.verify_code is Some ==> send is None
        && code is None && session.verify_code == given)
    &&& (session.phase == EmailPhase::Verifying ==> match code {
        Some(j) => since < j && events[j] == EmailEvent::Code(session.verify_code->0),
        None => send is None && session.verify_code == given,
    })
}

/// What stood before an event stays when more events follow.
proof fn earlier_actions_stay(
    first: (EmailSession, EmailAction),
    events: Seq<EmailEvent>,
    index: int,
)
    requires
        0 <= index < events.len(),
    ensures
        action_before(first, events.drop_last(), index) == action_before(first, events, index),
{
    assert(events.drop_last().take(index) =~= events.take(index));
}

proof fn histories_fit(
    login: EmailLogin,
    initial_email: Option<String>,
    given: Option<String>,
    events: Seq<EmailEvent>,
)
    ensures
        history_fits(EmailSession::begun(login, initial_email, given, true), given, events),
    decreases events.len(),
{
    let first = EmailSession::begun(login, initial_email, given, true);
    if events.len() == 0 {
        assert(events.take(0) =~= events);
        assert forall|k: int| -1 < k <= 0 implies action_before(first, events, k) == first.1 by {
            assert(k == 0);
        }
    } else {
        let before = events.drop_last();
        let event = events.last();
        histories_fit(login, initial_email, given, before);
        let (session, action) = played(first, before);
        session_stays_well_formed(session, event);
        assert(events.take(events.len() as int) =~= events);
        assert(before.take(before.len() as int) =~= before);
        assert(action_before(first, events, before.len() as int) == action) by {
            assert(events.take(before.len() as int) =~= before);
        }
        let since_before = match last_send(first, before) {
            Some(i) => i,
            None => -1,
        };
        if since_before >= 0 {
            earlier_actions_stay(first, events, since_before);
        }
        let next = session.after(event).0;
        if next.phase != EmailPhase::Sending && next.phase != EmailPhase::Done {
            let since = match last_send(first, events) {
                Some(i) => i,
                None => -1,
            };
            assert forall|k: int| since < k <= events.len() implies !(#[trigger] action_before(
                first,
                events,
                k,
            ) is SendCode) by {
                if k < events.len() {
                    earlier_actions_stay(first, events, k);
                    assert(!(action_before(first, before, k) is SendCode));
                }
            }
        }
    }
}

/// On a terminal every verification follows the last send of the session: that send succeeded,
/// went to the address that is verified, and no other follows it; the code was submitted after
/// it. Only where the session was started with a code may nothing have been sent yet; the code
/// is then the given one, or the one that was submitted last.
pub proof fn verifications_follow_the_last_send(
    login: EmailLogin,
    initial_email: Option<String>,
    given: Option<String>,
    events: Seq<EmailEvent>,
)
    ensures
        ({
            let first = EmailSession::begun(login, initial_email, given, true);
            played(first, events).1 matches EmailAction::Verify { login: asked, email, code } ==> {
                &&& asked == login
                &&& match (last_send(first, events), last_code(first, events)) {
                    (Some(i), Some(j)) => {
                        &&& 0 <= i < j < events.len()
                        &&& action_before(first, events, i) matches EmailAction::SendCode {
                            email: sent_to,
                        } && sent_to@ == email@
                        &&& events[i] is Sent
                        &&& events[j] == EmailEvent::Code(code)
                        &&& nothing_sent_since(first, events, i)
                    },
                    (Some(_), None) => false,
                    (None, Some(j)) => {
                        &&& given is Some
                        &&& 0 <= j < events.len()
                        &&& events[j] == EmailEvent::Code(code)
                        &&& nothing_sent_since(first, events, -1)
                    },
                    (None, None) => given == Some(code) && nothing_sent_since(first, events, -1),
                }
            }
        }),
{
    let first = EmailSession::begun(login, initial_email, given, true);
    histories_fit(login, initial_email, given, events);
    logins_stay(first, events);
}

proof fn logins_stay(first: (EmailSession, EmailAction), events: Seq<EmailEvent>)
    ensures
        played(first, events).0.login == first.0.login,
    decreases events.len(),
{
    if events.len() > 0 {
        logins_stay(first, events.drop_last());
    }
}

/// A token ends the session: it comes from the server's answer to a verification, and whatever
/// is told the session afterwards, nothing follows.
pub proof fn tokens_end_the_session(
    login: EmailLogin,
    initial_email: Option<String>,
    given: Option<String>,
    interactive: bool,
    events: Seq<EmailEvent>,
    more: Seq<EmailEvent>,
    token: String,
)
    requires
        played(EmailSession::begun(login, initial_email, given, interactive), events).1
            == EmailAction::Finish(Ok::<String, EmailSessionError>(token)),
    ensures
        ({
            let first = EmailSession::begun(login, initial_email, given, interactive);
            &&& events.len() > 0
            &&& events.last() == EmailEvent::Verified(token)
            &&& played(first, events.drop_last()).0.phase == EmailPhase::Verifying
            &&& more.len() > 0 ==> played(first, events + more).1 == EmailAction::Nothing
            &&& last_send(first, events + more) == last_send(first, events)
        }),
    decreases more.len(),
{
    let first = EmailSession::begun(login, initial_email, given, interactive);
    tokens_come_from_verification(
        played(first, events.drop_last()).0,
        events.last(),
        token,
    );
    if more.len() == 0 {
        assert(events + more =~= events);
    } else {
        assert((events + more).drop_last() =~= events + more.drop_last());
        assert((events + more).last() == more.last());
        finished_sessions_stay(first, events, more.drop_last());
        tokens_end_the_session(
            login,
            initial_email,
            given,
            interactive,
            events,
            more.drop_last(),
            token,
        );
    }
}

proof fn finished_sessions_stay(
    first: (EmailSession, EmailAction),
    events: Seq<EmailEvent>,
    more: Seq<EmailEvent>,
)
    requires
        played(first, events).0.phase == EmailPhase::Done,
    ensures
        played(first, events + more).0.phase == EmailPhase::Done,
    decreases more.len(),
{
    if more.len() == 0 {
        assert(events + more =~= events);
    } else {
        assert((events + more).drop_last() =~= events + more.drop_last());
        finished_sessions_stay(first, events, more.drop_last());
    }
}

/// What each answer leads to.
pub proof fn answers_take_their_course(session: EmailSession, email: String, code: String)
    requires
        session.wf(),
        session.interactive,
    ensures
        session.phase == EmailPhase::AskEmail && session.verify_code is None && session.sent_to
            is None ==> session.after(EmailEvent::Email(email)).1 == (EmailAction::SendCode {
            email,
        }),
        session.phase == EmailPhase::AskEmail ==> (session.verify_code matches Some(given)
            ==> session.after(EmailEvent::Email(email)).1 == (EmailAction::Verify {
            login: session.login,
            email,
            code: given,
        })),
        session.phase == EmailPhase::Sending ==> session.after(EmailEvent::Sent).1
            == EmailAction::PromptCode && session.after(EmailEvent::Sent).0.sent_to
            == session.email,
        session.phase == EmailPhase::AskCode ==> session.after(EmailEvent::Code(code)).1 == (
        EmailAction::Verify { login: session.login, email: session.email->0, code }),
        session.phase == EmailPhase::AskCode ==> session.after(EmailEvent::MoreOptions).1
            == EmailAction::ChooseMore,
        session.phase == EmailPhase::AskMore ==> session.after(
            EmailEvent::More(MoreAction::Resend),
        ).1 == (EmailAction::SendCode { email: session.email->0 }),
        session.phase == EmailPhase::AskMore ==> session.after(
            EmailEvent::More(MoreAction::ChangeEmail),
        ).1 == EmailAction::PromptEmail && session.after(
            EmailEvent::More(MoreAction::ChangeEmail),
        ).0.email is None,
        session.phase == EmailPhase::AskMore ==> session.after(
            EmailEvent::More(MoreAction::Cancel),
        ).1 == EmailAction::Finish(Err::<String, EmailSessionError>(EmailSessionError::Cancelled)),
        session.phase == EmailPhase::AskResend ==> session.after(
            EmailEvent::ResendAnswer(true),
        ).1 == (EmailAction::SendCode { email: session.email->0 }),
{
}

/// A token ends the session with it, and a failed question with its message.
pub proof fn verified_sessions_give_the_token(
    session: EmailSession,
    token: String,
    message: String,
)
    ensures
        session.phase == EmailPhase::Verifying ==> session.after(EmailEvent::Verified(token)).1
            == EmailAction::Finish(Ok::<String, EmailSessionError>(token)),
        session.phase == EmailPhase::AskEmail || session.phase == EmailPhase::AskCode
            || session.phase == EmailPhase::AskMore || session.phase == EmailPhase::AskResend
            ==> session.after(EmailEvent::PromptFailed(message)).1 == EmailAction::Finish(
            Err::<String, EmailSessionError>(EmailSessionError::Prompt(message)),
        ),
{
}

/// What a refusal leads to goes by its status and the code as it came: a wrong code is asked for
/// again, for an expired one the user is asked whether another is to be sent, an address that
/// does not belong to the identity is asked for again. Everything else, and every refusal
/// without a terminal, ends the session; only what does not end it is shown.
pub proof fn refusals_go_by_the_code(
    session: EmailSession,
    status: u16,
    code: String,
    message: String,
)
    requires
        session.wf(),
        session.phase == EmailPhase::Verifying,
    ensures
        ({
            let error = Error::Api { status, code, message };
            let (next, action) = session.after(EmailEvent::VerifyFailed(error));
            let notice = session.notice_after(EmailEvent::VerifyFailed(error));
            let again = session.interactive && status == 401;
            let invalid = again && (code@ == "1102"@ || code@ == "verify_code_invalid"@);
            let expired = again && (code@ == "1103"@ || code@ == "verify_code_expired"@);
            let foreign = again && (code@ == "1211"@ || code@ == "domain_email_not_matched"@);
            &&& (invalid ==> action == EmailAction::PromptCode && next.email == session.email)
            &&& (expired ==> action == EmailAction::ConfirmResend && next.email == session.email)
            &&& (foreign ==> action == EmailAction::PromptEmail && next.email is None
                && next.sent_to is None)
            &&& (!invalid && !expired && !foreign ==> action == EmailAction::Finish(
                Err::<String, EmailSessionError>(EmailSessionError::Server(error)),
            ))
            &&& (invalid || expired || foreign <==> notice is Some)
            &&& (notice matches Some(text) ==> text == message@)
        }),
{
    crate::cert_server::codes_have_a_number_and_a_name(code@);
    reveal_strlit("verify_code_invalid");
    reveal_strlit("verify_code_expired");
    reveal_strlit("domain_email_not_matched");
    reveal_strlit("1102");
    reveal_strlit("1103");
    reveal_strlit("1211");
    assert("verify_code_invalid"@.len() == 19);
    assert("verify_code_expired"@.len() == 19);
    assert("domain_email_not_matched"@.len() == 24);
    assert("1102"@.len() == 4);
    assert("1103"@.len() == 4);
    assert("1211"@.len() == 4);
    assert("verify_code_invalid"@[12] != "verify_code_expired"@[12]);
    assert("1102"@[3] != "1103"@[3]);
    assert("1102"@[1] != "1211"@[1]);
    assert("1103"@[1] != "1211"@[1]);
}

/// How a session begins: without a terminal the address and the code are both needed and the
/// address has to be one; on a terminal what is missing is asked for.
pub proof fn sessions_begin_with_what_is_given(
    login: EmailLogin,
    email: Option<String>,
    code: Option<String>,
    interactive: bool,
)
    ensures
        ({
            let action = EmailSession::begun(login, email, code, interactive).1;
            let valid = email matches Some(text) && email_address(text@);
            &&& (!interactive && (email is None || code is None) ==> action == EmailAction::Finish(
                Err::<String, EmailSessionError>(EmailSessionError::NonInteractivePairRequired),
            ))
            &&& (!interactive && email is Some && code is Some && !valid ==> action
                == EmailAction::Finish(
                Err::<String, EmailSessionError>(EmailSessionError::InvalidEmail),
            ))
            &&& (valid && code is Some ==> action == (EmailAction::Verify {
                login,
                email: email->0,
                code: code->0,
            }))
            &&& (interactive && valid && code is None ==> action == (EmailAction::SendCode {
                email: email->0,
            }))
            &&& (interactive && !valid ==> action == EmailAction::PromptEmail)
        }),
{
}

} // verus!
