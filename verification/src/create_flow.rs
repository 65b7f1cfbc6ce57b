//! The steps of the command that creates an identity.
//!
//! Both forms are machines: [`InteractiveCreate`] asks for what is missing and lets the user go
//! back, [`CreateRun`] takes what the command line gives. Each says what to do next, and is told
//! what came of it.
use vstd::prelude::*;

use crate::approval::{
    candidate_options, ApprovalHelperAction, ApprovalMenuOption, LocalApprovalCandidate,
};
use crate::auth::AuthMethod;
use crate::cert_server::{
    CertificateDetail, CreateDomainResponse, CreateSubdomainResponse, Error,
};
use crate::checkout::{checkout_state, classify_checkout, CheckoutState};
use crate::create::{
    build_create_approval_options, classify_create_error, create_plan_from_selection, email_plan,
    goes_back_to_email, is_seat_refusal, non_interactive_plan,
    resolve_non_interactive_approval_plan, seat_notice, seat_notice_text, seat_refusal,
    selected_plan, stays, CreateApprovalMenuAction, CreateApprovalPlan, CreateEmailAction,
    CreateError, CreateRecovery, CreateVerifyCodeAction, InteractiveCreateState, PlanView,
    StateView,
};
use crate::kind::IdentityKind;
use crate::prompt::MORE_OPTIONS_LABEL;
use crate::registration::{RegistrationError, RestartReason};
use crate::requests::{make_order, order_of, CertificateOrder};
use crate::target::{IdentityLevel, IdentityTarget};
use crate::text::{copy_opt, opt_view, same};

verus! {

/// What a command waits for.
#[derive(Debug, Clone, Copy, PartialEq, Eq, Structural)]
pub enum CreatePhase {
    AskTarget,
    AskKind,
    LoadParent,
    ChooseApproval,
    ChooseApprovalMore,
    Helper,
    AskEmail,
    ChooseEmailMore,
    Sending,
    Resending,
    AskCode,
    ChooseCodeMore,
    Preparing,
    CreatingRoot,
    PayingRoot,
    AskRestart,
    LoggingIn,
    RegisteringSub,
    CheckingParent,
    CreatingSub,
    Issuing,
    Saving,
    Epilogue,
    Done,
}

/// What came of an action.
#[derive(Debug)]
pub enum CreateEvent {
    Target(IdentityTarget),
    Kind(IdentityKind),
    /// How the parent stands on this device, and whether it is ready.
    Parent { ready: bool, candidate: Option<LocalApprovalCandidate> },
    /// The label that was chosen.
    Approval(String),
    ApprovalMore(CreateApprovalMenuAction),
    HelperDone(bool),
    Email(String),
    MoreOptions,
    EmailMore(CreateEmailAction),
    Sent,
    SendFailed(Error),
    Code(String),
    CodeMore(CreateVerifyCodeAction),
    /// The request for the key that was generated.
    Prepared { csr_pem: String },
    RootCreated(Result<CreateDomainResponse, Error>),
    CheckoutEnded(Result<CreateDomainResponse, Error>),
    Answer(bool),
    LoggedIn(Result<String, Error>),
    SubRegistered(Result<(), RegistrationError>),
    /// The parent is ready, or it is not and was looked for in this place.
    ParentChecked(Result<(), String>),
    SubCreated(Result<CreateSubdomainResponse, Error>),
    Issued(Result<CertificateDetail, Error>),
    Saved,
    EpilogueDone,
    /// A prompt or an access to this device failed.
    Failed(String),
}

/// What is to be done next.
#[derive(Debug)]
pub enum CreateAction {
    /// Asks for the name; the second time the last one is proposed.
    PromptTarget { again: bool },
    PromptKind { cursor: Option<IdentityKind> },
    LoadParent,
    ChooseApproval,
    ChooseApprovalMore,
    RunHelper { action: ApprovalHelperAction },
    PromptEmail { initial: Option<String> },
    ChooseEmailMore { can_switch: bool },
    SendCode { email: String },
    PromptCode,
    ChooseCodeMore,
    /// Checks that what is saved may be replaced, and generates the key and the request for a
    /// complete name.
    Prepare { domain: String, replace_local: bool },
    CreateRoot { domain: String, email: String, verify_code: String },
    /// Shows the payment instructions and waits for the checkout.
    Pay { url: String, checkout_token: String },
    AskRestart(RestartReason),
    Login { email: String, verify_code: String },
    /// Registers the sub-identity on a terminal, with checkout where it needs a seat.
    RegisterSub { access_token: String, target: IdentityTarget },
    CheckParent { target: IdentityTarget },
    CreateSub { access_token: String, target: IdentityTarget },
    /// Creates the sub-identity under its parent, which approves.
    CreateSubWithIdentity { auth_domain: String, target: IdentityTarget },
    IssueCert { access_token: String, order: CertificateOrder },
    IssueCertWithIdentity { auth_domain: String, order: CertificateOrder },
    Save { cert_pem: String },
    RunEpilogue,
    Finish(Result<(), CreateError>),
    Nothing,
}

/// An action, and what is shown before it.
#[derive(Debug)]
pub struct CreateStep {
    pub notice: Option<String>,
    pub action: CreateAction,
}

/// The command on a terminal.
#[derive(Debug)]
pub struct InteractiveCreate {
    pub auth: Option<AuthMethod>,
    /// Whether what is saved may be replaced.
    pub replace_local: bool,
    /// The name that the device has at the server.
    pub device_name: String,
    pub state: InteractiveCreateState,
    /// How the parent stood when it was last looked at.
    pub candidate: Option<LocalApprovalCandidate>,
    /// The request for the key that was generated for the target.
    pub csr_pem: Option<String>,
    /// The root identity that was created, while its checkout is waited for.
    pub created: Option<CreateDomainResponse>,
    pub access_token: Option<String>,
    pub phase: CreatePhase,
}

/// The command with its state as a view.
pub ghost struct FlowView {
    pub auth: Option<AuthMethod>,
    pub replace_local: bool,
    pub device_name: String,
    pub state: StateView,
    pub candidate: Option<LocalApprovalCandidate>,
    pub csr_pem: Option<String>,
    pub created: Option<CreateDomainResponse>,
    pub access_token: Option<String>,
    pub phase: CreatePhase,
}

impl View for InteractiveCreate {
    type V = FlowView;

    open spec fn view(&self) -> FlowView {
        FlowView {
            auth: self.auth,
            replace_local: self.replace_local,
            device_name: self.device_name,
            state: self.state@,
            candidate: self.candidate,
            csr_pem: self.csr_pem,
            created: self.created,
            access_token: self.access_token,
            phase: self.phase,
        }
    }
}

/// The complete name of a parent that is ready.
pub open spec fn ready_name(target: IdentityTarget, ready: bool) -> Option<Seq<char>> {
    match target.parent {
        Some(parent) => if ready {
            Some(parent.full@)
        } else {
            None
        },
        None => None,
    }
}

pub open spec fn parent_of(target: Option<IdentityTarget>) -> Option<String> {
    match target {
        Some(target) => match target.parent {
            Some(parent) => Some(parent.full),
            None => None,
        },
        None => None,
    }
}

/// The complete name of the parent of a sub-identity.
pub fn parent_domain(target: &Option<IdentityTarget>) -> (r: Option<String>)
    ensures
        r == parent_of(*target),
{
    match target {
        Some(target) => match &target.parent {
            Some(parent) => Some(parent.full.clone()),
            None => None,
        },
        None => None,
    }
}

impl FlowView {
    pub open spec fn order(self) -> Option<CertificateOrder> {
        order_of(self.state.target, self.state.kind, self.device_name, self.csr_pem)
    }

    /// The key is generated for the target; an earlier request is forgotten.
    pub open spec fn prepare(self) -> (FlowView, CreateAction) {
        match self.state.target {
            Some(target) => (
                (FlowView { csr_pem: None, ..self }).at(CreatePhase::Preparing),
                CreateAction::Prepare {
                    domain: target.name.full,
                    replace_local: self.replace_local,
                },
            ),
            None => (self, CreateAction::Nothing),
        }
    }

    /// The certificate is asked for with a token.
    pub open spec fn issue(self, access_token: String) -> (FlowView, CreateAction) {
        match self.order() {
            Some(order) => (
                self.at(CreatePhase::Issuing),
                CreateAction::IssueCert { access_token, order },
            ),
            None => (self, CreateAction::Nothing),
        }
    }

    /// The certificate is asked for, and the parent approves.
    pub open spec fn issue_with_identity(self) -> (FlowView, CreateAction) {
        match (self.order(), parent_of(self.state.target)) {
            (Some(order), Some(auth_domain)) => (
                self.at(CreatePhase::Issuing),
                CreateAction::IssueCertWithIdentity { auth_domain, order },
            ),
            (_, _) => (self, CreateAction::Nothing),
        }
    }

    /// The sub-identity is created, and the parent approves.
    pub open spec fn create_sub_with_identity(self) -> (FlowView, CreateAction) {
        match (self.state.target, parent_of(self.state.target)) {
            (Some(target), Some(auth_domain)) => (
                self.at(CreatePhase::CreatingSub),
                CreateAction::CreateSubWithIdentity { auth_domain, target },
            ),
            (_, _) => (self, CreateAction::Nothing),
        }
    }

    pub open spec fn at(self, phase: CreatePhase) -> FlowView {
        FlowView { phase, ..self }
    }

    pub open spec fn with(self, state: StateView) -> FlowView {
        FlowView { state, ..self }
    }

    pub open spec fn ended(self, result: Result<(), CreateError>) -> (FlowView, CreateAction) {
        (self.at(CreatePhase::Done), CreateAction::Finish(result))
    }

    /// Where the command goes once the approval is settled: a helper runs first, then the
    /// address and a code that was sent to it are needed where email approves.
    pub open spec fn proceed(self, plan: PlanView) -> (FlowView, CreateAction) {
        let email = plan.auth == AuthMethod::Email;
        match plan.helper {
            Some(action) => (self.at(CreatePhase::Helper), CreateAction::RunHelper { action }),
            None => if email && (self.state.email is None || self.state.email_prompt_required) {
                (
                    self.at(CreatePhase::AskEmail),
                    CreateAction::PromptEmail { initial: self.state.email },
                )
            } else if email && self.state.verify_code is None {
                if self.state.sent() {
                    (self.at(CreatePhase::AskCode), CreateAction::PromptCode)
                } else {
                    (
                        self.at(CreatePhase::Sending),
                        CreateAction::SendCode { email: self.state.email->0 },
                    )
                }
            } else {
                self.prepare()
            },
        }
    }

    /// Settles the approval and goes on; for a sub-identity the parent is looked at again.
    pub open spec fn settle(self, target: IdentityTarget, plan: PlanView) -> (
        FlowView,
        CreateAction,
    ) {
        let settled = self.with(StateView { plan: Some(plan), ..self.state });
        if target.level == IdentityLevel::SubIdentity {
            (settled.at(CreatePhase::LoadParent), CreateAction::LoadParent)
        } else {
            settled.proceed(plan)
        }
    }

    /// Where the command goes once the parent was looked at.
    pub open spec fn with_parent(
        self,
        target: IdentityTarget,
        ready: bool,
        candidate: Option<LocalApprovalCandidate>,
    ) -> (FlowView, CreateAction) {
        match (self.state.plan, self.auth) {
            (Some(plan), _) => self.proceed(plan),
            (None, Some(auth)) => match non_interactive_plan(
                target,
                Some(auth),
                ready_name(target, ready),
            ) {
                Ok(plan) => self.settle(target, plan),
                Err(error) => self.ended(Err(error)),
            },
            (None, None) => if target.level == IdentityLevel::SubIdentity {
                (
                    (FlowView { candidate, ..self }).at(CreatePhase::ChooseApproval),
                    CreateAction::ChooseApproval,
                )
            } else {
                self.settle(target, email_plan(None))
            },
        }
    }

    /// Where the command goes from what it knows: it needs a name, then a kind, then a way of
    /// approval.
    pub open spec fn onward(self) -> (FlowView, CreateAction) {
        match self.state.target {
            None => (
                self.at(CreatePhase::AskTarget),
                CreateAction::PromptTarget { again: false },
            ),
            Some(target) => if self.state.target_opening_required {
                (self.at(CreatePhase::AskTarget), CreateAction::PromptTarget { again: true })
            } else if self.state.kind is None || self.state.kind_prompt_required {
                (
                    self.at(CreatePhase::AskKind),
                    CreateAction::PromptKind { cursor: self.state.kind },
                )
            } else if target.level == IdentityLevel::SubIdentity {
                (self.at(CreatePhase::LoadParent), CreateAction::LoadParent)
            } else {
                self.with_parent(target, false, None)
            },
        }
    }

    /// After a refused code: it is asked for again, the address is asked for again, or the
    /// command ends.
    pub open spec fn refused(self, error: Error) -> (FlowView, CreateAction) {
        if stays(error) {
            self.with(StateView { verify_code: None, ..self.state }).onward()
        } else if goes_back_to_email(error) {
            self.with(self.state.back_to_email()).onward()
        } else {
            self.ended(Err(CreateError::Server(error)))
        }
    }

    /// The request for the root identity.
    pub open spec fn create_root(self, target: IdentityTarget) -> (FlowView, CreateAction) {
        match (self.state.email, self.state.verify_code) {
            (Some(email), Some(verify_code)) => (
                self.at(CreatePhase::CreatingRoot),
                CreateAction::CreateRoot { domain: target.name.full, email, verify_code },
            ),
            (None, _) => self.ended(Err(CreateError::EmailUnavailable)),
            (_, None) => self.ended(Err(CreateError::CodeUnavailable)),
        }
    }

    pub open spec fn login(self) -> (FlowView, CreateAction) {
        match (self.state.email, self.state.verify_code) {
            (Some(email), Some(verify_code)) => (
                self.at(CreatePhase::LoggingIn),
                CreateAction::Login { email, verify_code },
            ),
            (None, _) => self.ended(Err(CreateError::EmailUnavailable)),
            (_, None) => self.ended(Err(CreateError::CodeUnavailable)),
        }
    }

    /// After the root identity was created and paid for: the reply may bring a token.
    pub open spec fn root_created(self, created: CreateDomainResponse) -> (
        FlowView,
        CreateAction,
    ) {
        match created.auth {
            Some(auth) => self.issue(auth.access_token),
            None => self.login(),
        }
    }

    /// After the key was generated.
    pub open spec fn prepared(self, target: IdentityTarget) -> (FlowView, CreateAction) {
        if target.level == IdentityLevel::Identity {
            self.create_root(target)
        } else if self.state.plan matches Some(plan) && plan.auth == AuthMethod::Identity {
            (self.at(CreatePhase::CheckingParent), CreateAction::CheckParent { target })
        } else {
            self.login()
        }
    }

    /// After the user left the choice of the approval for another option.
    pub open spec fn left_approval(self, action: CreateApprovalMenuAction) -> FlowView {
        self.with(
            match action {
                CreateApprovalMenuAction::ChangeCertificateKind => self.state.back_to_kind(),
                CreateApprovalMenuAction::ChangeIdentityName => self.state.back_to_target(),
            },
        )
    }

    pub open spec fn left_email(self, action: CreateEmailAction) -> FlowView {
        self.with(
            match action {
                CreateEmailAction::SwitchVerificationMethod => self.state.back_to_approval(),
                CreateEmailAction::ChangeCertificateKind => self.state.back_to_kind(),
                CreateEmailAction::ChangeIdentityName => self.state.back_to_target(),
            },
        )
    }

    pub open spec fn left_code(self, action: CreateVerifyCodeAction) -> (FlowView, CreateAction) {
        match action {
            CreateVerifyCodeAction::ResendVerificationCode => match self.state.email {
                Some(email) => (
                    self.at(CreatePhase::Resending),
                    CreateAction::SendCode { email },
                ),
                None => self.ended(Err(CreateError::EmailUnavailable)),
            },
            CreateVerifyCodeAction::ChangeEmail => self.with(
                self.state.back_to_email(),
            ).onward(),
            CreateVerifyCodeAction::SwitchVerificationMethod => self.with(
                self.state.back_to_approval(),
            ).onward(),
            CreateVerifyCodeAction::ChangeCertificateKind => self.with(
                self.state.back_to_kind(),
            ).onward(),
            CreateVerifyCodeAction::ChangeIdentityName => self.with(
                self.state.back_to_target(),
            ).onward(),
            CreateVerifyCodeAction::ReturnToCreate { .. } => self.with(
                self.state.back_to_approval(),
            ).onward(),
        }
    }

    /// A name that differs from the last one makes everything after it unknown.
    pub open spec fn named(self, target: IdentityTarget) -> FlowView {
        let state = match self.state.target {
            None => StateView { target: Some(target), ..self.state },
            Some(last) => if target.name.full@ == last.name.full@ {
                self.state
            } else {
                (StateView { target: Some(target), ..self.state }).target_changed()
            },
        };
        self.with(StateView { target_opening_required: false, ..state })
    }

    /// What follows while the name, the kind and the approval are settled.
    pub open spec fn after_settling(self, event: CreateEvent) -> (FlowView, CreateAction) {
        match (self.phase, self.state.target, event) {
            (CreatePhase::AskTarget, _, CreateEvent::Target(target)) => self.named(target).onward(),
            (CreatePhase::AskKind, _, CreateEvent::Kind(kind)) => self.with(
                StateView { kind: Some(kind), kind_prompt_required: false, ..self.state },
            ).onward(),
            (CreatePhase::LoadParent, Some(target), CreateEvent::Parent { ready, candidate }) => self.with_parent(
                target,
                ready,
                candidate,
            ),
            (CreatePhase::ChooseApproval, Some(target), CreateEvent::Approval(label)) => if label@
                == MORE_OPTIONS_LABEL@ {
                (self.at(CreatePhase::ChooseApprovalMore), CreateAction::ChooseApprovalMore)
            } else {
                match selected_plan(
                    candidate_options("Verify with email"@, self.candidate),
                    label@,
                    ready_name(target, true),
                ) {
                    Ok(plan) => self.settle(target, plan),
                    Err(error) => self.ended(Err(error)),
                }
            },
            (CreatePhase::ChooseApprovalMore, _, CreateEvent::ApprovalMore(action)) => self.left_approval(
                action,
            ).onward(),
            (CreatePhase::Helper, Some(target), CreateEvent::HelperDone(done)) => match self.state.plan {
                Some(plan) => if done {
                    self.settle(
                        target,
                        PlanView { parent: plan.parent, auth: AuthMethod::Identity, helper: None },
                    )
                } else {
                    self.with(self.state.back_to_approval()).onward()
                },
                None => (self, CreateAction::Nothing),
            },
            (_, _, _) => (self, CreateAction::Nothing),
        }
    }

    /// What follows while the address and the code are asked for.
    pub open spec fn after_email(self, event: CreateEvent) -> (FlowView, CreateAction) {
        match (self.phase, self.state.target, event) {
            (CreatePhase::AskEmail, _, CreateEvent::Email(email)) => self.with(
                StateView { email: Some(email), email_prompt_required: false, ..self.state },
            ).onward(),
            (CreatePhase::AskEmail, Some(target), CreateEvent::MoreOptions) => (
                self.at(CreatePhase::ChooseEmailMore),
                CreateAction::ChooseEmailMore {
                    can_switch: target.level == IdentityLevel::SubIdentity,
                },
            ),
            (CreatePhase::ChooseEmailMore, _, CreateEvent::EmailMore(action)) => self.left_email(
                action,
            ).onward(),
            (CreatePhase::Sending, _, CreateEvent::Sent) => (
                self.with(StateView { sent_to: self.state.email, ..self.state }).at(
                    CreatePhase::AskCode,
                ),
                CreateAction::PromptCode,
            ),
            (CreatePhase::Sending, _, CreateEvent::SendFailed(error)) => if stays(error) {
                self.with(StateView { sent_to: self.state.email, ..self.state }).onward()
            } else if goes_back_to_email(error) {
                self.with(self.state.back_to_email()).onward()
            } else {
                self.ended(Err(CreateError::Server(error)))
            },
            (CreatePhase::Resending, _, CreateEvent::Sent) => self.with(
                StateView { sent_to: self.state.email, ..self.state },
            ).onward(),
            (CreatePhase::Resending, _, CreateEvent::SendFailed(error)) => if stays(error) {
                self.onward()
            } else if goes_back_to_email(error) {
                self.with(self.state.back_to_email()).onward()
            } else {
                self.ended(Err(CreateError::Server(error)))
            },
            (CreatePhase::AskCode, _, CreateEvent::Code(code)) => self.with(
                StateView { verify_code: Some(code), ..self.state },
            ).onward(),
            (CreatePhase::AskCode, _, CreateEvent::MoreOptions) => (
                self.at(CreatePhase::ChooseCodeMore),
                CreateAction::ChooseCodeMore,
            ),
            (CreatePhase::ChooseCodeMore, _, CreateEvent::CodeMore(action)) => self.left_code(action),
            (_, _, _) => (self, CreateAction::Nothing),
        }
    }

    /// What follows while a root identity is created and paid for, and while a token is asked for.
    pub open spec fn after_creating(self, event: CreateEvent) -> (FlowView, CreateAction) {
        match (self.phase, self.state.target, event) {
            (CreatePhase::Preparing, Some(target), CreateEvent::Prepared { csr_pem }) => (FlowView {
                csr_pem: Some(csr_pem),
                ..self
            }).prepared(target),
            (CreatePhase::CreatingRoot, _, CreateEvent::RootCreated(Ok(created))) => match created.payment_entry {
                None => self.root_created(created),
                Some(entry) => (
                    (FlowView { created: Some(created), ..self }).at(CreatePhase::PayingRoot),
                    CreateAction::Pay { url: entry.url, checkout_token: entry.checkout_token },
                ),
            },
            (CreatePhase::CreatingRoot, _, CreateEvent::RootCreated(Err(error))) => self.refused(
                error,
            ),
            (CreatePhase::PayingRoot, _, CreateEvent::CheckoutEnded(Err(error))) => self.ended(
                Err(CreateError::Server(error)),
            ),
            (CreatePhase::PayingRoot, _, CreateEvent::CheckoutEnded(Ok(completed))) => match (
                checkout_state(completed),
                self.created,
            ) {
                (CheckoutState::Completed, Some(created)) => self.root_created(created),
                (CheckoutState::Expired, _) => (
                    self.at(CreatePhase::AskRestart),
                    CreateAction::AskRestart(RestartReason::Expired),
                ),
                (CheckoutState::Cancelled, _) => (
                    self.at(CreatePhase::AskRestart),
                    CreateAction::AskRestart(RestartReason::Cancelled),
                ),
                (CheckoutState::Pending, _) => self.ended(
                    Err(CreateError::Registration(RegistrationError::CheckoutNotTerminal)),
                ),
                (_, _) => self.ended(
                    Err(CreateError::Registration(RegistrationError::CheckoutFailed)),
                ),
            },
            (CreatePhase::AskRestart, Some(target), CreateEvent::Answer(true)) => self.create_root(
                target,
            ),
            (CreatePhase::AskRestart, _, CreateEvent::Answer(false)) => self.ended(
                Err(CreateError::Registration(RegistrationError::NotCompleted)),
            ),
            (CreatePhase::LoggingIn, Some(target), CreateEvent::LoggedIn(Ok(access_token))) => if target.level
                == IdentityLevel::Identity {
                self.issue(access_token)
            } else {
                (
                    (FlowView { access_token: Some(access_token), ..self }).at(
                        CreatePhase::RegisteringSub,
                    ),
                    CreateAction::RegisterSub { access_token, target },
                )
            },
            (CreatePhase::LoggingIn, _, CreateEvent::LoggedIn(Err(error))) => self.refused(error),
            (_, _, _) => (self, CreateAction::Nothing),
        }
    }

    /// What follows while a sub-identity is created, and while the certificate is issued and saved.
    pub open spec fn after_issuing(self, event: CreateEvent) -> (FlowView, CreateAction) {
        match (self.phase, self.state.target, event) {
            (CreatePhase::RegisteringSub, _, CreateEvent::SubRegistered(Ok(()))) => match self.access_token {
                Some(access_token) => self.issue(access_token),
                None => (self, CreateAction::Nothing),
            },
            (CreatePhase::RegisteringSub, _, CreateEvent::SubRegistered(Err(error))) => self.ended(
                Err(
                    match error {
                        RegistrationError::MissingParent { error, .. } => CreateError::Server(error),
                        error => CreateError::Registration(error),
                    },
                ),
            ),
            (CreatePhase::CheckingParent, _, CreateEvent::ParentChecked(Ok(()))) => self.create_sub_with_identity(),
            (CreatePhase::CheckingParent, _, CreateEvent::ParentChecked(Err(_))) => self.with(
                self.state.back_to_approval(),
            ).onward(),
            (CreatePhase::CreatingSub, _, CreateEvent::SubCreated(Ok(_))) => self.issue_with_identity(),
            (CreatePhase::CreatingSub, _, CreateEvent::SubCreated(Err(error))) => if seat_refusal(
                error,
            ) {
                self.with(self.state.back_to_approval()).onward()
            } else {
                self.ended(Err(CreateError::Server(error)))
            },
            (CreatePhase::Issuing, _, CreateEvent::Issued(Ok(detail))) => (
                self.at(CreatePhase::Saving),
                CreateAction::Save { cert_pem: detail.cert_pem },
            ),
            (CreatePhase::Issuing, _, CreateEvent::Issued(Err(error))) => self.ended(
                Err(CreateError::Server(error)),
            ),
            (CreatePhase::Saving, _, CreateEvent::Saved) => (
                self.at(CreatePhase::Epilogue),
                CreateAction::RunEpilogue,
            ),
            (CreatePhase::Epilogue, _, CreateEvent::EpilogueDone) => self.ended(Ok(())),
            (_, _, _) => (self, CreateAction::Nothing),
        }
    }

    /// The command after an event, and the action that follows. An event that the command does
    /// not wait for changes nothing.
    pub open spec fn after(self, event: CreateEvent) -> (FlowView, CreateAction) {
        match (self.phase, event) {
            (CreatePhase::Done, _) => (self, CreateAction::Nothing),
            (_, CreateEvent::Failed(message)) => self.ended(Err(CreateError::Step(message))),
            (CreatePhase::AskTarget, event)
            | (CreatePhase::AskKind, event)
            | (CreatePhase::LoadParent, event)
            | (CreatePhase::ChooseApproval, event)
            | (CreatePhase::ChooseApprovalMore, event)
            | (CreatePhase::Helper, event) => self.after_settling(event),
            (CreatePhase::AskEmail, event)
            | (CreatePhase::ChooseEmailMore, event)
            | (CreatePhase::Sending, event)
            | (CreatePhase::Resending, event)
            | (CreatePhase::AskCode, event)
            | (CreatePhase::ChooseCodeMore, event) => self.after_email(event),
            (CreatePhase::Preparing, event)
            | (CreatePhase::CreatingRoot, event)
            | (CreatePhase::PayingRoot, event)
            | (CreatePhase::AskRestart, event)
            | (CreatePhase::LoggingIn, event) => self.after_creating(event),
            (_, event) => self.after_issuing(event),
        }
    }

    /// What is shown after an event: the message of a refusal after which the command goes on.
    pub open spec fn notice_after(self, event: CreateEvent) -> Option<Seq<char>> {
        match (self.phase, event) {
            (CreatePhase::Sending, CreateEvent::SendFailed(error))
            | (CreatePhase::Resending, CreateEvent::SendFailed(error))
            | (CreatePhase::CreatingRoot, CreateEvent::RootCreated(Err(error)))
            | (CreatePhase::LoggingIn, CreateEvent::LoggedIn(Err(error))) => if stays(error)
                || goes_back_to_email(error) {
                Some(error.words())
            } else {
                None
            },
            (CreatePhase::CreatingSub, CreateEvent::SubCreated(Err(error))) => match self.state.target {
                Some(target) => match target.parent {
                    Some(parent) => if seat_refusal(error) {
                        Some(seat_notice_text(target, parent))
                    } else {
                        None
                    },
                    None => None,
                },
                None => None,
            },
            (_, _) => None,
        }
    }

    /// What is known fits together: an approval is settled for a name and a kind that need not
    /// be asked for again, and email approves root identities.
    pub open spec fn consistent(self) -> bool {
        let state = self.state;
        &&& (state.target matches Some(target) ==> target.wf())
        &&& (state.plan matches Some(plan) ==> state.target is Some && state.kind is Some && (
        state.target->0.level == IdentityLevel::Identity ==> plan.auth == AuthMethod::Email
            && plan.helper is None) && !state.target_opening_required
            && !state.kind_prompt_required)
    }

    /// What holds between events. Email approves root identities, a code is only asked for
    /// after one was sent to the current address, and what is created has a name, a kind, an
    /// approval and a request.
    pub open spec fn wf(self) -> bool {
        let state = self.state;
        &&& self.consistent()
        &&& match self.phase {
            CreatePhase::AskTarget | CreatePhase::AskKind | CreatePhase::Done => true,
            CreatePhase::LoadParent
            | CreatePhase::ChooseApproval
            | CreatePhase::ChooseApprovalMore => state.target is Some && state.kind is Some
                && !state.target_opening_required && !state.kind_prompt_required
                && state.target->0.level == IdentityLevel::SubIdentity,
            CreatePhase::Helper => state.plan is Some && state.plan->0.helper is Some,
            CreatePhase::AskEmail | CreatePhase::ChooseEmailMore => state.plan is Some
                && state.plan->0.auth == AuthMethod::Email,
            CreatePhase::Sending => state.plan is Some && state.plan->0.auth == AuthMethod::Email
                && state.email is Some && state.verify_code is None,
            CreatePhase::Resending | CreatePhase::AskCode | CreatePhase::ChooseCodeMore => {
                &&& state.plan is Some
                &&& state.plan->0.auth == AuthMethod::Email
                &&& state.email is Some
                &&& state.verify_code is None
                &&& (state.sent())
            },
            CreatePhase::Preparing => self.approved(),
            CreatePhase::CreatingRoot
            | CreatePhase::PayingRoot
            | CreatePhase::AskRestart => self.ordered() && state.target->0.level
                == IdentityLevel::Identity && (self.phase == CreatePhase::PayingRoot
                ==> self.created is Some),
            CreatePhase::LoggingIn => self.ordered() && state.plan->0.auth == AuthMethod::Email,
            CreatePhase::RegisteringSub => self.ordered() && self.access_token is Some
                && state.target->0.level == IdentityLevel::SubIdentity,
            CreatePhase::CheckingParent | CreatePhase::CreatingSub => self.ordered()
                && state.plan->0.auth == AuthMethod::Identity,
            CreatePhase::Issuing | CreatePhase::Saving | CreatePhase::Epilogue => self.ordered(),
        }
    }

    /// The approval is settled, and the address and the code are known where email approves.
    pub open spec fn approved(self) -> bool {
        match self.state.plan {
            Some(plan) => plan.helper is None && (plan.auth == AuthMethod::Email
                ==> self.state.email is Some && self.state.verify_code is Some),
            None => false,
        }
    }

    /// The creation is approved, and what the certificate is asked for with is known.
    pub open spec fn ordered(self) -> bool {
        self.approved() && self.order() is Some
    }
}

impl InteractiveCreate {
    /// Starts the command with what its arguments gave.
    pub fn start(
        state: InteractiveCreateState,
        auth: Option<AuthMethod>,
        replace_local: bool,
        device_name: String,
    ) -> (r: (InteractiveCreate, CreateAction))
        requires
            state.target matches Some(target) ==> target.wf(),
            state.approval_plan is None,
        ensures
            (r.0@, r.1) == (FlowView {
                auth,
                replace_local,
                device_name,
                state: state@,
                candidate: None,
                csr_pem: None,
                created: None,
                access_token: None,
                phase: CreatePhase::AskTarget,
            }).onward(),
            r.0@.wf(),
    {
        let mut flow = InteractiveCreate {
            auth,
            replace_local,
            device_name,
            state,
            candidate: None,
            csr_pem: None,
            created: None,
            access_token: None,
            phase: CreatePhase::AskTarget,
        };
        let action = flow.go_on();
        (flow, action)
    }

    /// The options that the choice of the approval offers.
    pub fn approval_options(&self) -> (r: Vec<ApprovalMenuOption>)
        ensures
            crate::approval::option_views(r@) == candidate_options(
                "Verify with email"@,
                self.candidate,
            ),
    {
        build_create_approval_options(
            match &self.candidate {
                Some(candidate) => Some(candidate.copy()),
                None => None,
            },
        )
    }

    /// The parent that the approval rests on.
    pub fn parent_identity(&self) -> (r: Option<String>)
        ensures
            opt_view(r) == (match self@.state.plan {
                Some(plan) => plan.parent,
                None => None,
            }),
    {
        match &self.state.approval_plan {
            Some(plan) => copy_opt(&plan.parent_identity),
            None => None,
        }
    }

    fn end(&mut self, result: Result<(), CreateError>) -> (r: CreateAction)
        ensures
            (final(self)@, r) == old(self)@.ended(result),
    {
        self.phase = CreatePhase::Done;
        CreateAction::Finish(result)
    }

    fn order(&self) -> (r: Option<CertificateOrder>)
        ensures
            r == self@.order(),
    {
        make_order(&self.state.target, self.state.kind, &self.device_name, &self.csr_pem)
    }

    fn prepare(&mut self) -> (r: CreateAction)
        ensures
            (final(self)@, r) == old(self)@.prepare(),
    {
        let domain = match &self.state.target {
            Some(target) => target.name.full.clone(),
            None => {
                return CreateAction::Nothing;
            },
        };
        self.csr_pem = None;
        self.phase = CreatePhase::Preparing;
        CreateAction::Prepare { domain, replace_local: self.replace_local }
    }

    fn issue(&mut self, access_token: String) -> (r: CreateAction)
        ensures
            (final(self)@, r) == old(self)@.issue(access_token),
    {
        match self.order() {
            Some(order) => {
                self.phase = CreatePhase::Issuing;
                CreateAction::IssueCert { access_token, order }
            },
            None => CreateAction::Nothing,
        }
    }

    fn issue_with_identity(&mut self) -> (r: CreateAction)
        ensures
            (final(self)@, r) == old(self)@.issue_with_identity(),
    {
        match (self.order(), parent_domain(&self.state.target)) {
            (Some(order), Some(auth_domain)) => {
                self.phase = CreatePhase::Issuing;
                CreateAction::IssueCertWithIdentity { auth_domain, order }
            },
            (_, _) => CreateAction::Nothing,
        }
    }

    fn create_sub_with_identity(&mut self, target: Option<IdentityTarget>) -> (r: CreateAction)
        requires
            old(self)@.state.target == target,
        ensures
            (final(self)@, r) == old(self)@.create_sub_with_identity(),
    {
        let auth_domain = parent_domain(&target);
        match (target, auth_domain) {
            (Some(target), Some(auth_domain)) => {
                self.phase = CreatePhase::CreatingSub;
                CreateAction::CreateSubWithIdentity { auth_domain, target }
            },
            (_, _) => CreateAction::Nothing,
        }
    }

    fn proceed(&mut self, auth: AuthMethod, helper: Option<ApprovalHelperAction>) -> (r:
        CreateAction)
        requires
            old(self)@.state.plan is Some,
            old(self)@.state.plan->0.auth == auth,
            old(self)@.state.plan->0.helper == helper,
        ensures
            (final(self)@, r) == old(self)@.proceed(old(self)@.state.plan->0),
    {
        match helper {
            Some(action) => {
                self.phase = CreatePhase::Helper;
                return CreateAction::RunHelper { action };
            },
            None => {},
        }
        match auth {
            AuthMethod::Identity => {},
            AuthMethod::Email => {
                let email = copy_opt(&self.state.email);
                match email {
                    None => {
                        self.phase = CreatePhase::AskEmail;
                        return CreateAction::PromptEmail { initial: None };
                    },
                    Some(email) => {
                        if self.state.email_prompt_required {
                            self.phase = CreatePhase::AskEmail;
                            return CreateAction::PromptEmail { initial: Some(email) };
                        }
                        if self.state.verify_code.is_none() {
                            let sent = match &self.state.verification_code_sent_to {
                                Some(sent_to) => same(sent_to, &email),
                                None => false,
                            };
                            if sent {
                                self.phase = CreatePhase::AskCode;
                                return CreateAction::PromptCode;
                            }
                            self.phase = CreatePhase::Sending;
                            return CreateAction::SendCode { email };
                        }
                    },
                }
            },
        }
        self.prepare()
    }

    fn settle(&mut self, level: IdentityLevel, plan: CreateApprovalPlan) -> (r: CreateAction)
        requires
            old(self)@.state.target is Some,
            old(self)@.state.target->0.level == level,
        ensures
            (final(self)@, r) == old(self)@.settle(old(self)@.state.target->0, plan@),
    {
        let auth = plan.auth;
        let helper = plan.helper_action;
        self.state.approval_plan = Some(plan);
        match level {
            IdentityLevel::SubIdentity => {
                self.phase = CreatePhase::LoadParent;
                CreateAction::LoadParent
            },
            IdentityLevel::Identity => self.proceed(auth, helper),
        }
    }

    fn with_parent(
        &mut self,
        target: IdentityTarget,
        ready: bool,
        candidate: Option<LocalApprovalCandidate>,
    ) -> (r: CreateAction)
        requires
            target.wf(),
            old(self)@.state.target == Some(target),
        ensures
            (final(self)@, r) == old(self)@.with_parent(target, ready, candidate),
    {
        let settled = match &self.state.approval_plan {
            Some(plan) => Some((plan.auth, plan.helper_action)),
            None => None,
        };
        match settled {
            Some((auth, helper)) => {
                return self.proceed(auth, helper);
            },
            None => {},
        }
        match self.auth {
            Some(auth) => {
                let ready_parent: Option<&str> = match &target.parent {
                    Some(parent) => if ready {
                        Some(parent.as_full())
                    } else {
                        None
                    },
                    None => None,
                };
                match resolve_non_interactive_approval_plan(&target, Some(auth), ready_parent) {
                    Ok(plan) => self.settle(target.level, plan),
                    Err(error) => self.end(Err(error)),
                }
            },
            None => match target.level {
                IdentityLevel::SubIdentity => {
                    self.candidate = candidate;
                    self.phase = CreatePhase::ChooseApproval;
                    CreateAction::ChooseApproval
                },
                IdentityLevel::Identity => self.settle(
                    target.level,
                    CreateApprovalPlan {
                        parent_identity: None,
                        auth: AuthMethod::Email,
                        helper_action: None,
                    },
                ),
            },
        }
    }

    fn go_on(&mut self) -> (r: CreateAction)
        requires
            old(self)@.state.target matches Some(target) ==> target.wf(),
        ensures
            (final(self)@, r) == old(self)@.onward(),
    {
        let target = match &self.state.target {
            Some(target) => Some(target.copy()),
            None => None,
        };
        match target {
            None => {
                self.phase = CreatePhase::AskTarget;
                CreateAction::PromptTarget { again: false }
            },
            Some(target) => {
                if self.state.target_opening_required {
                    self.phase = CreatePhase::AskTarget;
                    CreateAction::PromptTarget { again: true }
                } else if self.state.kind.is_none() || self.state.kind_prompt_required {
                    self.phase = CreatePhase::AskKind;
                    CreateAction::PromptKind { cursor: self.state.kind }
                } else {
                    match target.level {
                        IdentityLevel::SubIdentity => {
                            self.phase = CreatePhase::LoadParent;
                            CreateAction::LoadParent
                        },
                        IdentityLevel::Identity => self.with_parent(target, false, None),
                    }
                }
            },
        }
    }

    fn refuse(&mut self, error: Error) -> (r: CreateStep)
        requires
            old(self)@.state.target matches Some(target) ==> target.wf(),
        ensures
            (final(self)@, r.action) == old(self)@.refused(error),
            opt_view(r.notice) == (if stays(error) || goes_back_to_email(error) {
                Some(error.words())
            } else {
                None
            }),
    {
        match classify_create_error(&error) {
            CreateRecovery::StayCurrentStep { message } => {
                self.state.verify_code = None;
                CreateStep { notice: Some(message), action: self.go_on() }
            },
            CreateRecovery::BackToEmail { message } => {
                self.state.revisit_email_prompt();
                CreateStep { notice: Some(message), action: self.go_on() }
            },
            CreateRecovery::Abort => CreateStep {
                notice: None,
                action: self.end(Err(CreateError::Server(error))),
            },
        }
    }

    fn create_root(&mut self, target: &IdentityTarget) -> (r: CreateAction)
        ensures
            (final(self)@, r) == old(self)@.create_root(*target),
    {
        match (copy_opt(&self.state.email), copy_opt(&self.state.verify_code)) {
            (Some(email), Some(verify_code)) => {
                self.phase = CreatePhase::CreatingRoot;
                CreateAction::CreateRoot {
                    domain: target.name.full.clone(),
                    email,
                    verify_code,
                }
            },
            (None, _) => self.end(Err(CreateError::EmailUnavailable)),
            (_, None) => self.end(Err(CreateError::CodeUnavailable)),
        }
    }

    fn login(&mut self) -> (r: CreateAction)
        ensures
            (final(self)@, r) == old(self)@.login(),
    {
        match (copy_opt(&self.state.email), copy_opt(&self.state.verify_code)) {
            (Some(email), Some(verify_code)) => {
                self.phase = CreatePhase::LoggingIn;
                CreateAction::Login { email, verify_code }
            },
            (None, _) => self.end(Err(CreateError::EmailUnavailable)),
            (_, None) => self.end(Err(CreateError::CodeUnavailable)),
        }
    }

    fn issue_or_login(&mut self, token: Option<String>) -> (r: CreateAction)
        ensures
            (final(self)@, r) == (match token {
                Some(access_token) => old(self)@.issue(access_token),
                None => old(self)@.login(),
            }),
    {
        match token {
            Some(access_token) => self.issue(access_token),
            None => self.login(),
        }
    }

    fn name(&mut self, target: IdentityTarget)
        ensures
            final(self)@ == old(self)@.named(target),
    {
        match &self.state.target {
            None => {
                self.state.target = Some(target);
            },
            Some(last) => {
                let unchanged = same(target.full_name(), last.full_name());
                if !unchanged {
                    self.state.target = Some(target);
                    self.state.reset_after_target_change();
                }
            },
        }
        self.state.target_opening_required = false;
    }

    fn leave_code(&mut self, action: CreateVerifyCodeAction) -> (r: CreateAction)
        requires
            old(self)@.state.target matches Some(target) ==> target.wf(),
        ensures
            (final(self)@, r) == old(self)@.left_code(action),
    {
        match action {
            CreateVerifyCodeAction::ResendVerificationCode => match copy_opt(&self.state.email) {
                Some(email) => {
                    self.phase = CreatePhase::Resending;
                    CreateAction::SendCode { email }
                },
                None => self.end(Err(CreateError::EmailUnavailable)),
            },
            CreateVerifyCodeAction::ChangeEmail => {
                self.state.revisit_email_prompt();
                self.go_on()
            },
            CreateVerifyCodeAction::SwitchVerificationMethod => {
                self.state.revisit_approval();
                self.go_on()
            },
            CreateVerifyCodeAction::ChangeCertificateKind => {
                self.state.revisit_kind_prompt();
                self.go_on()
            },
            CreateVerifyCodeAction::ChangeIdentityName => {
                self.state.revisit_target_prompt();
                self.go_on()
            },
            CreateVerifyCodeAction::ReturnToCreate { .. } => {
                self.state.revisit_approval();
                self.go_on()
            },
        }
    }

    fn choose_approval(&mut self, target: &IdentityTarget, label: &str) -> (r: CreateAction)
        requires
            old(self)@.state.target == Some(*target),
        ensures
            (final(self)@, r) == (match selected_plan(
                candidate_options("Verify with email"@, old(self)@.candidate),
                label@,
                ready_name(*target, true),
            ) {
                Ok(plan) => old(self)@.settle(*target, plan),
                Err(error) => old(self)@.ended(Err(error)),
            }),
    {
        let options = self.approval_options();
        let parent: Option<&str> = match &target.parent {
            Some(parent) => Some(parent.as_full()),
            None => None,
        };
        match create_plan_from_selection(&options, label, parent) {
            Ok(plan) => self.settle(target.level, plan),
            Err(error) => self.end(Err(error)),
        }
    }

    fn leave_approval(&mut self, action: CreateApprovalMenuAction)
        ensures
            final(self)@ == old(self)@.left_approval(action),
    {
        match action {
            CreateApprovalMenuAction::ChangeCertificateKind => self.state.revisit_kind_prompt(),
            CreateApprovalMenuAction::ChangeIdentityName => self.state.revisit_target_prompt(),
        }
    }

    fn leave_email(&mut self, action: CreateEmailAction)
        ensures
            final(self)@ == old(self)@.left_email(action),
    {
        match action {
            CreateEmailAction::SwitchVerificationMethod => self.state.revisit_approval(),
            CreateEmailAction::ChangeCertificateKind => self.state.revisit_kind_prompt(),
            CreateEmailAction::ChangeIdentityName => self.state.revisit_target_prompt(),
        }
    }

    fn helped(&mut self, level: IdentityLevel, done: bool) -> (r: CreateAction)
        requires
            old(self)@.state.target is Some,
            old(self)@.state.target->0.level == level,
            old(self)@.state.target->0.wf(),
        ensures
            (final(self)@, r) == (match old(self)@.state.plan {
                Some(plan) => if done {
                    old(self)@.settle(
                        old(self)@.state.target->0,
                        PlanView { parent: plan.parent, auth: AuthMethod::Identity, helper: None },
                    )
                } else {
                    old(self)@.with(old(self)@.state.back_to_approval()).onward()
                },
                None => (old(self)@, CreateAction::Nothing),
            }),
    {
        let parent = match &self.state.approval_plan {
            Some(plan) => copy_opt(&plan.parent_identity),
            None => {
                return CreateAction::Nothing;
            },
        };
        if done {
            self.settle(
                level,
                CreateApprovalPlan {
                    parent_identity: parent,
                    auth: AuthMethod::Identity,
                    helper_action: None,
                },
            )
        } else {
            self.state.revisit_approval();
            self.go_on()
        }
    }

    fn send_failed(&mut self, error: Error, first: bool) -> (r: CreateStep)
        requires
            old(self)@.state.target matches Some(target) ==> target.wf(),
        ensures
            (final(self)@, r.action) == (if stays(error) {
                (if first {
                    old(self)@.with(
                        StateView { sent_to: old(self)@.state.email, ..old(self)@.state },
                    )
                } else {
                    old(self)@
                }).onward()
            } else if goes_back_to_email(error) {
                old(self)@.with(old(self)@.state.back_to_email()).onward()
            } else {
                old(self)@.ended(Err(CreateError::Server(error)))
            }),
            opt_view(r.notice) == (if stays(error) || goes_back_to_email(error) {
                Some(error.words())
            } else {
                None
            }),
    {
        match classify_create_error(&error) {
            CreateRecovery::StayCurrentStep { message } => {
                if first {
                    self.state.verification_code_sent_to = copy_opt(&self.state.email);
                }
                CreateStep { notice: Some(message), action: self.go_on() }
            },
            CreateRecovery::BackToEmail { message } => {
                self.state.revisit_email_prompt();
                CreateStep { notice: Some(message), action: self.go_on() }
            },
            CreateRecovery::Abort => CreateStep {
                notice: None,
                action: self.end(Err(CreateError::Server(error))),
            },
        }
    }

    fn checkout_ended(&mut self, completed: &CreateDomainResponse) -> (r: CreateAction)
        ensures
            (final(self)@, r) == (match (checkout_state(*completed), old(self)@.created) {
                (CheckoutState::Completed, Some(created)) => old(self)@.root_created(created),
                (CheckoutState::Expired, _) => (
                    old(self)@.at(CreatePhase::AskRestart),
                    CreateAction::AskRestart(RestartReason::Expired),
                ),
                (CheckoutState::Cancelled, _) => (
                    old(self)@.at(CreatePhase::AskRestart),
                    CreateAction::AskRestart(RestartReason::Cancelled),
                ),
                (CheckoutState::Pending, _) => old(self)@.ended(
                    Err(CreateError::Registration(RegistrationError::CheckoutNotTerminal)),
                ),
                (_, _) => old(self)@.ended(
                    Err(CreateError::Registration(RegistrationError::CheckoutFailed)),
                ),
            }),
    {
        match classify_checkout(completed) {
            CheckoutState::Completed => {
                let token: Option<Option<String>> = match &self.created {
                    Some(created) => Some(
                        match &created.auth {
                            Some(auth) => Some(auth.access_token.clone()),
                            None => None,
                        },
                    ),
                    None => None,
                };
                match token {
                    Some(token) => self.issue_or_login(token),
                    None => self.end(
                        Err(CreateError::Registration(RegistrationError::CheckoutFailed)),
                    ),
                }
            },
            CheckoutState::Expired => {
                self.phase = CreatePhase::AskRestart;
                CreateAction::AskRestart(RestartReason::Expired)
            },
            CheckoutState::Cancelled => {
                self.phase = CreatePhase::AskRestart;
                CreateAction::AskRestart(RestartReason::Cancelled)
            },
            CheckoutState::Pending => self.end(
                Err(CreateError::Registration(RegistrationError::CheckoutNotTerminal)),
            ),
            CheckoutState::Failed => self.end(
                Err(CreateError::Registration(RegistrationError::CheckoutFailed)),
            ),
        }
    }

    fn root_created(&mut self, created: CreateDomainResponse) -> (r: CreateAction)
        ensures
            (final(self)@, r) == (match created.payment_entry {
                None => old(self)@.root_created(created),
                Some(entry) => (
                    (FlowView { created: Some(created), ..old(self)@ }).at(CreatePhase::PayingRoot),
                    CreateAction::Pay { url: entry.url, checkout_token: entry.checkout_token },
                ),
            }),
    {
        let payment: Option<(String, String)> = match &created.payment_entry {
            Some(entry) => Some((entry.url.clone(), entry.checkout_token.clone())),
            None => None,
        };
        match payment {
            Some((url, checkout_token)) => {
                self.created = Some(created);
                self.phase = CreatePhase::PayingRoot;
                CreateAction::Pay { url, checkout_token }
            },
            None => {
                let token = match created.auth {
                    Some(auth) => Some(auth.access_token),
                    None => None,
                };
                self.issue_or_login(token)
            },
        }
    }

    fn sub_created(&mut self, target: &IdentityTarget, reply: Result<CreateSubdomainResponse, Error>) -> (r: CreateStep)
        requires
            target.wf(),
            old(self)@.state.target == Some(*target),
        ensures
            (final(self)@, r.action) == (match reply {
                Ok(_) => old(self)@.issue_with_identity(),
                Err(error) => if seat_refusal(error) {
                    old(self)@.with(old(self)@.state.back_to_approval()).onward()
                } else {
                    old(self)@.ended(Err(CreateError::Server(error)))
                },
            }),
            opt_view(r.notice) == (match (reply, target.parent) {
                (Err(error), Some(parent)) => if seat_refusal(error) {
                    Some(seat_notice_text(*target, parent))
                } else {
                    None
                },
                _ => None,
            }),
    {
        match reply {
            Ok(_) => CreateStep { notice: None, action: self.issue_with_identity() },
            Err(error) => if is_seat_refusal(&error) {
                let notice = match &target.parent {
                    Some(parent) => Some(seat_notice(target, parent)),
                    None => None,
                };
                self.state.revisit_approval();
                CreateStep { notice, action: self.go_on() }
            } else {
                CreateStep { notice: None, action: self.end(Err(CreateError::Server(error))) }
            },
        }
    }

    fn settle_event(&mut self, target: Option<IdentityTarget>, event: CreateEvent) -> (r: CreateStep)
        requires
            old(self)@.wf(),
            old(self)@.state.target == target,
            event matches CreateEvent::Target(target) ==> target.wf(),
            old(self).phase == CreatePhase::AskTarget || old(self).phase == CreatePhase::AskKind || old(self).phase == CreatePhase::LoadParent || old(self).phase == CreatePhase::ChooseApproval || old(self).phase == CreatePhase::ChooseApprovalMore || old(self).phase == CreatePhase::Helper,
        ensures
            (final(self)@, r.action) == old(self)@.after_settling(event),
            event !is Failed ==> opt_view(r.notice) == old(self)@.notice_after(event),
    {
        let action = match (self.phase, target, event) {
            (CreatePhase::AskTarget, _, CreateEvent::Target(target)) => {
                self.name(target);
                self.go_on()
            },
            (CreatePhase::AskKind, _, CreateEvent::Kind(kind)) => {
                self.state.kind = Some(kind);
                self.state.kind_prompt_required = false;
                self.go_on()
            },
            (CreatePhase::LoadParent, Some(target), CreateEvent::Parent { ready, candidate }) => self.with_parent(
                target,
                ready,
                candidate,
            ),
            (CreatePhase::ChooseApproval, Some(target), CreateEvent::Approval(label)) => {
                if same(&label, MORE_OPTIONS_LABEL) {
                    self.phase = CreatePhase::ChooseApprovalMore;
                    CreateAction::ChooseApprovalMore
                } else {
                    self.choose_approval(&target, &label)
                }
            },
            (CreatePhase::ChooseApprovalMore, _, CreateEvent::ApprovalMore(action)) => {
                self.leave_approval(action);
                self.go_on()
            },
            (CreatePhase::Helper, Some(target), CreateEvent::HelperDone(done)) => self.helped(
                target.level,
                done,
            ),
            (_, _, _) => CreateAction::Nothing,
        };
        CreateStep { notice: None, action }
    }

    fn email_event(&mut self, target: Option<IdentityTarget>, event: CreateEvent) -> (r: CreateStep)
        requires
            old(self)@.wf(),
            old(self)@.state.target == target,
            event matches CreateEvent::Target(target) ==> target.wf(),
            old(self).phase == CreatePhase::AskEmail || old(self).phase == CreatePhase::ChooseEmailMore || old(self).phase == CreatePhase::Sending || old(self).phase == CreatePhase::Resending || old(self).phase == CreatePhase::AskCode || old(self).phase == CreatePhase::ChooseCodeMore,
        ensures
            (final(self)@, r.action) == old(self)@.after_email(event),
            event !is Failed ==> opt_view(r.notice) == old(self)@.notice_after(event),
    {
        let action = match (self.phase, target, event) {
            (CreatePhase::AskEmail, _, CreateEvent::Email(email)) => {
                self.state.email = Some(email);
                self.state.email_prompt_required = false;
                self.go_on()
            },
            (CreatePhase::AskEmail, Some(target), CreateEvent::MoreOptions) => {
                self.phase = CreatePhase::ChooseEmailMore;
                CreateAction::ChooseEmailMore {
                    can_switch: crate::create::can_switch_verification_method(&target),
                }
            },
            (CreatePhase::ChooseEmailMore, _, CreateEvent::EmailMore(action)) => {
                self.leave_email(action);
                self.go_on()
            },
            (CreatePhase::Sending, _, CreateEvent::Sent) => {
                self.state.verification_code_sent_to = copy_opt(&self.state.email);
                self.phase = CreatePhase::AskCode;
                CreateAction::PromptCode
            },
            (CreatePhase::Sending, _, CreateEvent::SendFailed(error)) => {
                return self.send_failed(error, true);
            },
            (CreatePhase::Resending, _, CreateEvent::Sent) => {
                self.state.verification_code_sent_to = copy_opt(&self.state.email);
                self.go_on()
            },
            (CreatePhase::Resending, _, CreateEvent::SendFailed(error)) => {
                return self.send_failed(error, false);
            },
            (CreatePhase::AskCode, _, CreateEvent::Code(code)) => {
                self.state.verify_code = Some(code);
                self.go_on()
            },
            (CreatePhase::AskCode, _, CreateEvent::MoreOptions) => {
                self.phase = CreatePhase::ChooseCodeMore;
                CreateAction::ChooseCodeMore
            },
            (CreatePhase::ChooseCodeMore, _, CreateEvent::CodeMore(action)) => self.leave_code(action),
            (_, _, _) => CreateAction::Nothing,
        };
        CreateStep { notice: None, action }
    }

    fn creating_event(&mut self, target: Option<IdentityTarget>, event: CreateEvent) -> (r: CreateStep)
        requires
            old(self)@.wf(),
            old(self)@.state.target == target,
            event matches CreateEvent::Target(target) ==> target.wf(),
            old(self).phase == CreatePhase::Preparing || old(self).phase == CreatePhase::CreatingRoot || old(self).phase == CreatePhase::PayingRoot || old(self).phase == CreatePhase::AskRestart || old(self).phase == CreatePhase::LoggingIn,
        ensures
            (final(self)@, r.action) == old(self)@.after_creating(event),
            event !is Failed ==> opt_view(r.notice) == old(self)@.notice_after(event),
    {
        let action = match (self.phase, target, event) {
            (CreatePhase::Preparing, Some(target), CreateEvent::Prepared { csr_pem }) => {
                self.csr_pem = Some(csr_pem);
                let by_identity = match &self.state.approval_plan {
                    Some(plan) => match plan.auth {
                        AuthMethod::Identity => true,
                        AuthMethod::Email => false,
                    },
                    None => false,
                };
                match target.level {
                    IdentityLevel::Identity => self.create_root(&target),
                    IdentityLevel::SubIdentity => if by_identity {
                        self.phase = CreatePhase::CheckingParent;
                        CreateAction::CheckParent { target }
                    } else {
                        self.login()
                    },
                }
            },
            (CreatePhase::CreatingRoot, _, CreateEvent::RootCreated(Ok(created))) => self.root_created(
                created,
            ),
            (CreatePhase::CreatingRoot, _, CreateEvent::RootCreated(Err(error))) => {
                return self.refuse(error);
            },
            (CreatePhase::PayingRoot, _, CreateEvent::CheckoutEnded(Err(error))) => self.end(
                Err(CreateError::Server(error)),
            ),
            (CreatePhase::PayingRoot, _, CreateEvent::CheckoutEnded(Ok(completed))) => self.checkout_ended(
                &completed,
            ),
            (CreatePhase::AskRestart, Some(target), CreateEvent::Answer(true)) => self.create_root(
                &target,
            ),
            (CreatePhase::AskRestart, _, CreateEvent::Answer(false)) => self.end(
                Err(CreateError::Registration(RegistrationError::NotCompleted)),
            ),
            (CreatePhase::LoggingIn, Some(target), CreateEvent::LoggedIn(Ok(access_token))) => match target.level {
                IdentityLevel::Identity => self.issue(access_token),
                IdentityLevel::SubIdentity => {
                    self.access_token = Some(access_token.clone());
                    self.phase = CreatePhase::RegisteringSub;
                    CreateAction::RegisterSub { access_token, target }
                },
            },
            (CreatePhase::LoggingIn, _, CreateEvent::LoggedIn(Err(error))) => {
                return self.refuse(error);
            },
            (_, _, _) => CreateAction::Nothing,
        };
        CreateStep { notice: None, action }
    }

    fn issuing_event(&mut self, target: Option<IdentityTarget>, event: CreateEvent) -> (r: CreateStep)
        requires
            old(self)@.wf(),
            old(self)@.state.target == target,
            event matches CreateEvent::Target(target) ==> target.wf(),
            old(self).phase == CreatePhase::RegisteringSub || old(self).phase == CreatePhase::CheckingParent || old(self).phase == CreatePhase::CreatingSub || old(self).phase == CreatePhase::Issuing || old(self).phase == CreatePhase::Saving || old(self).phase == CreatePhase::Epilogue,
        ensures
            (final(self)@, r.action) == old(self)@.after_issuing(event),
            event !is Failed ==> opt_view(r.notice) == old(self)@.notice_after(event),
    {
        let action = match (self.phase, target, event) {
            (CreatePhase::RegisteringSub, _, CreateEvent::SubRegistered(Ok(()))) => match copy_opt(
                &self.access_token,
            ) {
                Some(access_token) => self.issue(access_token),
                None => CreateAction::Nothing,
            },
            (CreatePhase::RegisteringSub, _, CreateEvent::SubRegistered(Err(error))) => match error {
                RegistrationError::MissingParent { error, .. } => self.end(
                    Err(CreateError::Server(error)),
                ),
                error => self.end(Err(CreateError::Registration(error))),
            },
            (CreatePhase::CheckingParent, target, CreateEvent::ParentChecked(Ok(()))) => self.create_sub_with_identity(
                target,
            ),
            (CreatePhase::CheckingParent, _, CreateEvent::ParentChecked(Err(_))) => {
                self.state.revisit_approval();
                self.go_on()
            },
            (CreatePhase::CreatingSub, Some(target), CreateEvent::SubCreated(reply)) => {
                return self.sub_created(&target, reply);
            },
            (CreatePhase::Issuing, _, CreateEvent::Issued(Ok(detail))) => {
                self.phase = CreatePhase::Saving;
                CreateAction::Save { cert_pem: detail.cert_pem }
            },
            (CreatePhase::Issuing, _, CreateEvent::Issued(Err(error))) => self.end(
                Err(CreateError::Server(error)),
            ),
            (CreatePhase::Saving, _, CreateEvent::Saved) => {
                self.phase = CreatePhase::Epilogue;
                CreateAction::RunEpilogue
            },
            (CreatePhase::Epilogue, _, CreateEvent::EpilogueDone) => self.end(Ok(())),
            (_, _, _) => CreateAction::Nothing,
        };
        CreateStep { notice: None, action }
    }

    /// Takes an event and gives the step that follows.
    pub fn next(&mut self, event: CreateEvent) -> (r: CreateStep)
        requires
            old(self)@.wf(),
            event matches CreateEvent::Target(target) ==> target.wf(),
        ensures
            (final(self)@, r.action) == old(self)@.after(event),
            opt_view(r.notice) == old(self)@.notice_after(event),
    {
        let target = match &self.state.target {
            Some(target) => Some(target.copy()),
            None => None,
        };
        match (self.phase, event) {
            (CreatePhase::Done, _) => CreateStep { notice: None, action: CreateAction::Nothing },
            (_, CreateEvent::Failed(message)) => CreateStep {
                notice: None,
                action: self.end(Err(CreateError::Step(message))),
            },
            (CreatePhase::AskTarget, event) => self.settle_event(target, event),
            (CreatePhase::AskKind, event) => self.settle_event(target, event),
            (CreatePhase::LoadParent, event) => self.settle_event(target, event),
            (CreatePhase::ChooseApproval, event) => self.settle_event(target, event),
            (CreatePhase::ChooseApprovalMore, event) => self.settle_event(target, event),
            (CreatePhase::Helper, event) => self.settle_event(target, event),
            (CreatePhase::AskEmail, event) => self.email_event(target, event),
            (CreatePhase::ChooseEmailMore, event) => self.email_event(target, event),
            (CreatePhase::Sending, event) => self.email_event(target, event),
            (CreatePhase::Resending, event) => self.email_event(target, event),
            (CreatePhase::AskCode, event) => self.email_event(target, event),
            (CreatePhase::ChooseCodeMore, event) => self.email_event(target, event),
            (CreatePhase::Preparing, event) => self.creating_event(target, event),
            (CreatePhase::CreatingRoot, event) => self.creating_event(target, event),
            (CreatePhase::PayingRoot, event) => self.creating_event(target, event),
            (CreatePhase::AskRestart, event) => self.creating_event(target, event),
            (CreatePhase::LoggingIn, event) => self.creating_event(target, event),
            (_, event) => self.issuing_event(target, event),
        }
    }
}


/// What is asked of the server is what was settled: every action that creates, registers or
/// certifies names the target, its kind, the device and the request of the key that was
/// generated for it.
pub open spec fn carries_what_was_settled(flow: FlowView, action: CreateAction) -> bool {
    match action {
        CreateAction::Prepare { domain, replace_local } => flow.state.target is Some && domain
            == flow.state.target->0.name.full && replace_local == flow.replace_local,
        CreateAction::CreateRoot { domain, email, verify_code } => flow.state.target is Some
            && domain == flow.state.target->0.name.full && flow.state.email == Some(email)
            && flow.state.verify_code == Some(verify_code),
        CreateAction::RegisterSub { target, .. } => flow.state.target == Some(target),
        CreateAction::CreateSubWithIdentity { auth_domain, target } => flow.state.target == Some(
            target,
        ) && parent_of(flow.state.target) == Some(auth_domain),
        CreateAction::IssueCert { order, .. } => flow.order() == Some(order),
        CreateAction::IssueCertWithIdentity { auth_domain, order } => flow.order() == Some(order)
            && parent_of(flow.state.target) == Some(auth_domain),
        _ => true,
    }
}

/// What an action that follows may rest on.
pub open spec fn action_is_grounded(flow: FlowView, action: CreateAction) -> bool {
    &&& flow.wf()
    &&& (action is PromptCode ==> flow.state.sent())
    &&& (action is IssueCert || action is IssueCertWithIdentity ==> flow.approved())
    &&& (action is IssueCertWithIdentity ==> flow.state.plan->0.auth == AuthMethod::Identity)
    &&& carries_what_was_settled(flow, action)
    &&& (action != CreateAction::Finish(Ok::<(), CreateError>(())))
    &&& !(action is Save)
    &&& !(action is RunEpilogue)
}

proof fn proceeding_is_grounded(flow: FlowView, plan: PlanView)
    requires
        flow.consistent(),
        flow.state.plan == Some(plan),
    ensures
        action_is_grounded(flow.proceed(plan).0, flow.proceed(plan).1),
{
}

proof fn settling_is_grounded(flow: FlowView, target: IdentityTarget, plan: PlanView)
    requires
        flow.consistent(),
        flow.state.target == Some(target),
        flow.state.kind is Some,
        !flow.state.target_opening_required,
        !flow.state.kind_prompt_required,
        target.level == IdentityLevel::Identity ==> plan.auth == AuthMethod::Email && plan.helper
            is None,
    ensures
        action_is_grounded(flow.settle(target, plan).0, flow.settle(target, plan).1),
{
    let settled = flow.with(StateView { plan: Some(plan), ..flow.state });
    if target.level == IdentityLevel::Identity {
        proceeding_is_grounded(settled, plan);
    }
}

proof fn looking_at_the_parent_is_grounded(
    flow: FlowView,
    target: IdentityTarget,
    ready: bool,
    candidate: Option<LocalApprovalCandidate>,
)
    requires
        flow.consistent(),
        flow.state.target == Some(target),
        flow.state.kind is Some,
        !flow.state.target_opening_required,
        !flow.state.kind_prompt_required,
    ensures
        action_is_grounded(
            flow.with_parent(target, ready, candidate).0,
            flow.with_parent(target, ready, candidate).1,
        ),
{
    match (flow.state.plan, flow.auth) {
        (Some(plan), _) => {
            proceeding_is_grounded(flow, plan);
        },
        (None, Some(auth)) => {
            match non_interactive_plan(target, Some(auth), ready_name(target, ready)) {
                Ok(plan) => {
                    settling_is_grounded(flow, target, plan);
                },
                Err(_) => {},
            }
        },
        (None, None) => {
            if target.level == IdentityLevel::Identity {
                settling_is_grounded(flow, target, email_plan(None));
            }
        },
    }
}

proof fn going_on_is_grounded(flow: FlowView)
    requires
        flow.consistent(),
    ensures
        action_is_grounded(flow.onward().0, flow.onward().1),
{
    match flow.state.target {
        None => {},
        Some(target) => {
            if !flow.state.target_opening_required && flow.state.kind is Some
                && !flow.state.kind_prompt_required && target.level == IdentityLevel::Identity {
                looking_at_the_parent_is_grounded(flow, target, false, None);
            }
        },
    }
}

proof fn settling_events_are_grounded(flow: FlowView, event: CreateEvent)
    requires
        flow.wf(),
        event matches CreateEvent::Target(target) ==> target.wf(),
        flow.phase == CreatePhase::AskTarget || flow.phase == CreatePhase::AskKind || flow.phase
            == CreatePhase::LoadParent || flow.phase == CreatePhase::ChooseApproval || flow.phase
            == CreatePhase::ChooseApprovalMore || flow.phase == CreatePhase::Helper,
    ensures
        action_is_grounded(flow.after_settling(event).0, flow.after_settling(event).1),
{
    match (flow.phase, flow.state.target, event) {
        (CreatePhase::AskTarget, _, CreateEvent::Target(target)) => {
            going_on_is_grounded(flow.named(target));
        },
        (CreatePhase::AskKind, _, CreateEvent::Kind(kind)) => {
            going_on_is_grounded(
                flow.with(
                    StateView { kind: Some(kind), kind_prompt_required: false, ..flow.state },
                ),
            );
        },
        (CreatePhase::LoadParent, Some(target), CreateEvent::Parent { ready, candidate }) => {
            looking_at_the_parent_is_grounded(flow, target, ready, candidate);
        },
        (CreatePhase::ChooseApproval, Some(target), CreateEvent::Approval(label)) => {
            match selected_plan(
                candidate_options("Verify with email"@, flow.candidate),
                label@,
                ready_name(target, true),
            ) {
                Ok(plan) => {
                    settling_is_grounded(flow, target, plan);
                },
                Err(_) => {},
            }
        },
        (CreatePhase::ChooseApprovalMore, _, CreateEvent::ApprovalMore(action)) => {
            going_on_is_grounded(flow.left_approval(action));
        },
        (CreatePhase::Helper, Some(target), CreateEvent::HelperDone(done)) => {
            let plan = flow.state.plan->0;
            if done {
                settling_is_grounded(
                    flow,
                    target,
                    PlanView { parent: plan.parent, auth: AuthMethod::Identity, helper: None },
                );
            } else {
                going_on_is_grounded(flow.with(flow.state.back_to_approval()));
            }
        },
        (_, _, _) => {},
    }
}

proof fn email_events_are_grounded(flow: FlowView, event: CreateEvent)
    requires
        flow.wf(),
        flow.phase == CreatePhase::AskEmail || flow.phase == CreatePhase::ChooseEmailMore
            || flow.phase == CreatePhase::Sending || flow.phase == CreatePhase::Resending
            || flow.phase == CreatePhase::AskCode || flow.phase == CreatePhase::ChooseCodeMore,
    ensures
        action_is_grounded(flow.after_email(event).0, flow.after_email(event).1),
{
    let state = flow.state;
    let resent = StateView { sent_to: state.email, ..state };
    match (flow.phase, event) {
        (CreatePhase::AskEmail, CreateEvent::Email(email)) => {
            going_on_is_grounded(
                flow.with(StateView { email: Some(email), email_prompt_required: false, ..state }),
            );
        },
        (CreatePhase::ChooseEmailMore, CreateEvent::EmailMore(action)) => {
            going_on_is_grounded(flow.left_email(action));
        },
        (CreatePhase::Sending, CreateEvent::SendFailed(_)) => {
            going_on_is_grounded(flow.with(resent));
            going_on_is_grounded(flow.with(state.back_to_email()));
        },
        (CreatePhase::Resending, CreateEvent::Sent) => {
            going_on_is_grounded(flow.with(resent));
        },
        (CreatePhase::Resending, CreateEvent::SendFailed(_)) => {
            going_on_is_grounded(flow);
            going_on_is_grounded(flow.with(state.back_to_email()));
        },
        (CreatePhase::AskCode, CreateEvent::Code(code)) => {
            going_on_is_grounded(flow.with(StateView { verify_code: Some(code), ..state }));
        },
        (CreatePhase::ChooseCodeMore, CreateEvent::CodeMore(action)) => {
            going_on_is_grounded(flow.with(state.back_to_email()));
            going_on_is_grounded(flow.with(state.back_to_approval()));
            going_on_is_grounded(flow.with(state.back_to_kind()));
            going_on_is_grounded(flow.with(state.back_to_target()));
        },
        (_, _) => {},
    }
}

proof fn refusals_are_grounded(flow: FlowView, error: Error)
    requires
        flow.consistent(),
    ensures
        action_is_grounded(flow.refused(error).0, flow.refused(error).1),
{
    going_on_is_grounded(flow.with(StateView { verify_code: None, ..flow.state }));
    going_on_is_grounded(flow.with(flow.state.back_to_email()));
}

proof fn creating_events_are_grounded(flow: FlowView, event: CreateEvent)
    requires
        flow.wf(),
        flow.phase == CreatePhase::Preparing || flow.phase == CreatePhase::CreatingRoot
            || flow.phase == CreatePhase::PayingRoot || flow.phase == CreatePhase::AskRestart
            || flow.phase == CreatePhase::LoggingIn,
    ensures
        action_is_grounded(flow.after_creating(event).0, flow.after_creating(event).1),
{
    match (flow.phase, event) {
        (CreatePhase::CreatingRoot, CreateEvent::RootCreated(Err(error))) => {
            refusals_are_grounded(flow, error);
        },
        (CreatePhase::LoggingIn, CreateEvent::LoggedIn(Err(error))) => {
            refusals_are_grounded(flow, error);
        },
        (_, _) => {},
    }
}

proof fn issuing_events_are_grounded(flow: FlowView, event: CreateEvent)
    requires
        flow.wf(),
        flow.phase == CreatePhase::RegisteringSub || flow.phase == CreatePhase::CheckingParent
            || flow.phase == CreatePhase::CreatingSub || flow.phase == CreatePhase::Issuing
            || flow.phase == CreatePhase::Saving || flow.phase == CreatePhase::Epilogue,
    ensures
        flow.after_issuing(event).0.wf(),
        ({
            ||| flow.phase == CreatePhase::Epilogue && event is EpilogueDone
            ||| flow.phase == CreatePhase::Issuing && (event matches CreateEvent::Issued(Ok(_)))
                && flow.after_issuing(event).1 is Save
            ||| flow.phase == CreatePhase::Saving && event is Saved && flow.after_issuing(event).1
                is RunEpilogue
            ||| action_is_grounded(flow.after_issuing(event).0, flow.after_issuing(event).1)
        }),
{
    going_on_is_grounded(flow.with(flow.state.back_to_approval()));
}

/// Every event keeps what holds of the command. A code is asked for only after one was sent to
/// the current address. A certificate is requested only for an approved creation: no helper is
/// left to run, and the address and the code are known where email approves. What is asked of the
/// server is what was settled. Nothing but an issued certificate is saved, the last questions
/// come only behind the save, and only a saved identity ends the command with success.
pub proof fn create_keeps_its_promises(flow: FlowView, event: CreateEvent)
    requires
        flow.wf(),
        event matches CreateEvent::Target(target) ==> target.wf(),
    ensures
        flow.after(event).0.wf(),
        flow.after(event).1 is PromptCode ==> flow.after(event).0.state.sent(),
        flow.after(event).1 is IssueCert || flow.after(event).1 is IssueCertWithIdentity
            ==> flow.after(event).0.approved(),
        flow.after(event).1 is IssueCertWithIdentity ==> flow.after(event).0.state.plan->0.auth
            == AuthMethod::Identity,
        carries_what_was_settled(flow.after(event).0, flow.after(event).1),
        flow.after(event).1 == CreateAction::Finish(Ok::<(), CreateError>(())) ==> flow.phase
            == CreatePhase::Epilogue && event is EpilogueDone,
        flow.after(event).1 is Save ==> flow.phase == CreatePhase::Issuing && (
        event matches CreateEvent::Issued(Ok(_))),
        flow.after(event).1 is RunEpilogue ==> flow.phase == CreatePhase::Saving && event is Saved,
{
    match flow.phase {
        CreatePhase::Done => {},
        CreatePhase::AskTarget
        | CreatePhase::AskKind
        | CreatePhase::LoadParent
        | CreatePhase::ChooseApproval
        | CreatePhase::ChooseApprovalMore
        | CreatePhase::Helper => {
            settling_events_are_grounded(flow, event);
        },
        CreatePhase::AskEmail
        | CreatePhase::ChooseEmailMore
        | CreatePhase::Sending
        | CreatePhase::Resending
        | CreatePhase::AskCode
        | CreatePhase::ChooseCodeMore => {
            email_events_are_grounded(flow, event);
        },
        CreatePhase::Preparing
        | CreatePhase::CreatingRoot
        | CreatePhase::PayingRoot
        | CreatePhase::AskRestart
        | CreatePhase::LoggingIn => {
            creating_events_are_grounded(flow, event);
        },
        _ => {
            issuing_events_are_grounded(flow, event);
        },
    }
}

/// Another name makes the kind, the approval, the address and the code unknown; the same name
/// again leaves everything as it was.
pub proof fn another_name_starts_over(flow: FlowView, target: IdentityTarget)
    requires
        flow.state.target is Some,
    ensures
        ({
            let state = flow.named(target).state;
            if target.name.full@ == flow.state.target->0.name.full@ {
                state == (StateView { target_opening_required: false, ..flow.state })
            } else {
                state.target == Some(target) && state.kind is None && state.plan is None
                    && state.email is None && state.verify_code is None && state.sent_to is None
            }
        }),
{
}

/// What is saved is the certificate that the server has just issued, and it is saved before the
/// last questions.
pub proof fn issued_certificates_are_saved(flow: FlowView, event: CreateEvent)
    requires
        flow.wf(),
        flow.phase == CreatePhase::Issuing || flow.phase == CreatePhase::Saving || flow.phase
            == CreatePhase::Epilogue,
        event !is Failed,
    ensures
        flow.phase == CreatePhase::Issuing ==> (event matches CreateEvent::Issued(Ok(detail))
            ==> flow.after(event).1 == (CreateAction::Save { cert_pem: detail.cert_pem })
            && flow.after(event).0.phase == CreatePhase::Saving),
        flow.phase == CreatePhase::Issuing ==> (event matches CreateEvent::Issued(Err(error))
            ==> flow.after(event).1 == CreateAction::Finish(
            Err::<(), CreateError>(CreateError::Server(error)),
        )),
        flow.phase == CreatePhase::Saving && event is Saved ==> flow.after(event).1 is RunEpilogue
            && flow.after(event).0.phase == CreatePhase::Epilogue,
        flow.phase == CreatePhase::Epilogue && event is EpilogueDone ==> (flow.after(
            event,
        ).1 matches CreateAction::Finish(Ok(()))),
        flow.after(event).1 is Save ==> flow.phase == CreatePhase::Issuing,
        flow.after(event).1 is RunEpilogue ==> flow.phase == CreatePhase::Saving && event is Saved,
{
}

/// Once the key is there, a root identity is created with the address and the code, a
/// sub-identity that its parent approves is created by the parent once that was looked at, and
/// any other is created with a token.
pub proof fn prepared_identities_are_created(flow: FlowView, csr_pem: String)
    requires
        flow.wf(),
        flow.phase == CreatePhase::Preparing,
    ensures
        ({
            let (next, action) = flow.after(CreateEvent::Prepared { csr_pem });
            let target = flow.state.target->0;
            &&& next.csr_pem == Some(csr_pem)
            &&& (target.level == IdentityLevel::Identity ==> action == (CreateAction::CreateRoot {
                domain: target.name.full,
                email: flow.state.email->0,
                verify_code: flow.state.verify_code->0,
            }) && next.phase == CreatePhase::CreatingRoot)
            &&& (target.level == IdentityLevel::SubIdentity && flow.state.plan->0.auth
                == AuthMethod::Identity ==> action == (CreateAction::CheckParent { target })
                && next.phase == CreatePhase::CheckingParent)
            &&& (target.level == IdentityLevel::SubIdentity && flow.state.plan->0.auth
                == AuthMethod::Email ==> action == (CreateAction::Login {
                email: flow.state.email->0,
                verify_code: flow.state.verify_code->0,
            }) && next.phase == CreatePhase::LoggingIn)
        }),
{
}

/// A created root identity is paid for where the reply asks for that, and certified with the
/// token of the reply, or with one of a login.
pub proof fn created_roots_are_paid_for_and_certified(
    flow: FlowView,
    reply: Result<CreateDomainResponse, Error>,
)
    requires
        flow.wf(),
        flow.phase == CreatePhase::CreatingRoot,
    ensures
        ({
            let (next, action) = flow.after(CreateEvent::RootCreated(reply));
            match reply {
                Ok(created) => match (created.payment_entry, created.auth) {
                    (Some(entry), _) => action == (CreateAction::Pay {
                        url: entry.url,
                        checkout_token: entry.checkout_token,
                    }) && next.created == Some(created) && next.phase == CreatePhase::PayingRoot,
                    (None, Some(auth)) => (action matches CreateAction::IssueCert {
                        access_token,
                        ..
                    } && access_token == auth.access_token),
                    (None, None) => action == (CreateAction::Login {
                        email: flow.state.email->0,
                        verify_code: flow.state.verify_code->0,
                    }),
                },
                Err(error) => !stays(error) && !goes_back_to_email(error) ==> action
                    == CreateAction::Finish(Err::<(), CreateError>(CreateError::Server(error))),
            }
        }),
{
}

/// What the end of a checkout leads to.
pub proof fn paid_checkouts_are_certified(
    flow: FlowView,
    completed: Result<CreateDomainResponse, Error>,
)
    requires
        flow.wf(),
        flow.phase == CreatePhase::PayingRoot,
    ensures
        ({
            let (next, action) = flow.after(CreateEvent::CheckoutEnded(completed));
            match completed {
                Err(error) => action == CreateAction::Finish(
                    Err::<(), CreateError>(CreateError::Server(error)),
                ),
                Ok(reply) => {
                    let state = checkout_state(reply);
                    &&& (state == CheckoutState::Completed ==> match flow.created->0.auth {
                        Some(auth) => action matches CreateAction::IssueCert { access_token, .. }
                            && access_token == auth.access_token,
                        None => action is Login,
                    })
                    &&& (action is IssueCert || action is Login ==> state
                        == CheckoutState::Completed)
                    &&& (action == CreateAction::AskRestart(RestartReason::Expired) <==> state
                        == CheckoutState::Expired)
                    &&& (action == CreateAction::AskRestart(RestartReason::Cancelled) <==> state
                        == CheckoutState::Cancelled)
                    &&& (action is AskRestart ==> next.phase == CreatePhase::AskRestart)
                    &&& (state == CheckoutState::Pending ==> action == CreateAction::Finish(
                        Err::<(), CreateError>(
                            CreateError::Registration(RegistrationError::CheckoutNotTerminal),
                        ),
                    ))
                    &&& (state == CheckoutState::Failed ==> action == CreateAction::Finish(
                        Err::<(), CreateError>(
                            CreateError::Registration(RegistrationError::CheckoutFailed),
                        ),
                    ))
                },
            }
        }),
{
}

/// A new checkout starts with the same root identity; declining it ends the command.
pub proof fn checkouts_are_restarted_on_a_yes(flow: FlowView, yes: bool)
    requires
        flow.wf(),
        flow.phase == CreatePhase::AskRestart,
    ensures
        yes ==> flow.after(CreateEvent::Answer(yes)).1 == (CreateAction::CreateRoot {
            domain: flow.state.target->0.name.full,
            email: flow.state.email->0,
            verify_code: flow.state.verify_code->0,
        }),
        !yes ==> flow.after(CreateEvent::Answer(yes)).1 == CreateAction::Finish(
            Err::<(), CreateError>(CreateError::Registration(RegistrationError::NotCompleted)),
        ),
{
}

/// A login gives the token with which a root identity is certified, and a sub-identity is
/// registered and then certified.
pub proof fn tokens_are_used_as_they_came(flow: FlowView, token: String)
    requires
        flow.wf(),
    ensures
        flow.phase == CreatePhase::LoggingIn ==> ({
            let (next, action) = flow.after(CreateEvent::LoggedIn(Ok(token)));
            if flow.state.target->0.level == IdentityLevel::Identity {
                action matches CreateAction::IssueCert { access_token, .. } && access_token == token
            } else {
                action == (CreateAction::RegisterSub {
                    access_token: token,
                    target: flow.state.target->0,
                }) && next.access_token == Some(token) && next.phase == CreatePhase::RegisteringSub
            }
        }),
        flow.phase == CreatePhase::RegisteringSub ==> ({
            let action = flow.after(CreateEvent::SubRegistered(Ok(()))).1;
            action matches CreateAction::IssueCert { access_token, .. } && flow.access_token
                == Some(access_token)
        }),
{
}

/// How a sub-identity is created by its parent, and what its refusals lead to.
pub proof fn parents_create_their_sub_identities(
    flow: FlowView,
    checked: Result<(), String>,
    reply: Result<CreateSubdomainResponse, Error>,
    registered: RegistrationError,
)
    requires
        flow.wf(),
    ensures
        flow.phase == CreatePhase::CheckingParent && checked is Ok ==> flow.after(
            CreateEvent::ParentChecked(checked),
        ).1 is CreateSubWithIdentity && flow.after(CreateEvent::ParentChecked(checked)).0.phase
            == CreatePhase::CreatingSub,
        flow.phase == CreatePhase::CheckingParent && checked is Err ==> flow.after(
            CreateEvent::ParentChecked(checked),
        ).0.state.plan is None && flow.after(CreateEvent::ParentChecked(checked)).0.state.target
            == flow.state.target,
        flow.phase == CreatePhase::CreatingSub && reply is Ok ==> flow.after(
            CreateEvent::SubCreated(reply),
        ).1 is IssueCertWithIdentity,
        flow.phase == CreatePhase::CreatingSub ==> (reply matches Err(error) ==> if crate::text::contains_text(
            error.words(),
            "subdomain quota exceeded"@,
        ) {
            flow.after(CreateEvent::SubCreated(reply)).0.state.plan is None
        } else {
            flow.after(CreateEvent::SubCreated(reply)).1 == CreateAction::Finish(
                Err::<(), CreateError>(CreateError::Server(error)),
            )
        }),
        flow.phase == CreatePhase::RegisteringSub ==> flow.after(
            CreateEvent::SubRegistered(Err(registered)),
        ).1 == CreateAction::Finish(
            Err::<(), CreateError>(
                match registered {
                    RegistrationError::MissingParent { error, .. } => CreateError::Server(error),
                    other => CreateError::Registration(other),
                },
            ),
        ),
{
}

/// Answers are kept as they were given, and codes are sent to the address that was given last.
pub proof fn answers_are_kept(flow: FlowView, event: CreateEvent)
    requires
        flow.wf(),
        flow.phase == CreatePhase::AskKind || flow.phase == CreatePhase::AskEmail || flow.phase
            == CreatePhase::AskCode || flow.phase == CreatePhase::Sending,
        event !is Failed,
    ensures
        flow.phase == CreatePhase::AskKind ==> (event matches CreateEvent::Kind(kind)
            ==> flow.after(event).0.state.kind == Some(kind) && flow.after(event).0.state.target
            == flow.state.target && !flow.after(event).0.state.kind_prompt_required),
        flow.phase == CreatePhase::AskEmail ==> (event matches CreateEvent::Email(email)
            ==> flow.after(event).0.state.email == Some(email)),
        flow.phase == CreatePhase::AskCode ==> (event matches CreateEvent::Code(code)
            ==> flow.after(event).0.state.verify_code == Some(code) && flow.after(
            event,
        ).0.state.email == flow.state.email),
        flow.phase == CreatePhase::Sending && event is Sent ==> flow.after(event).0.state.sent_to
            == flow.state.email && flow.after(event).1 is PromptCode,
        flow.after(event).1 matches CreateAction::SendCode { email } ==> flow.after(
            event,
        ).0.state.email == Some(email),
        flow.phase == CreatePhase::AskEmail && event is MoreOptions ==> flow.after(event).1 == (
        CreateAction::ChooseEmailMore {
            can_switch: flow.state.target->0.level == IdentityLevel::SubIdentity,
        }),
        flow.phase == CreatePhase::AskCode && event is MoreOptions ==> flow.after(event).1
            is ChooseCodeMore,
{
}

/// What is asked for first: a name, then a kind, then the parent of a sub-identity is looked at,
/// and a root identity goes on with its address.
pub proof fn questions_come_in_order(flow: FlowView)
    requires
        flow.consistent(),
        flow.auth is None,
    ensures
        flow.state.target is None ==> flow.onward().1 == (CreateAction::PromptTarget {
            again: false,
        }),
        flow.state.target is Some && flow.state.target_opening_required ==> flow.onward().1 == (
        CreateAction::PromptTarget { again: true }),
        flow.state.target is Some && !flow.state.target_opening_required && (flow.state.kind is None
            || flow.state.kind_prompt_required) ==> flow.onward().1 == (CreateAction::PromptKind {
            cursor: flow.state.kind,
        }),
        flow.state.target is Some && !flow.state.target_opening_required && flow.state.kind is Some
            && !flow.state.kind_prompt_required && flow.state.target->0.level
            == IdentityLevel::SubIdentity ==> flow.onward().1 is LoadParent,
        flow.state.target is Some && !flow.state.target_opening_required && flow.state.kind is Some
            && !flow.state.kind_prompt_required && flow.state.target->0.level
            == IdentityLevel::Identity ==> {
            &&& flow.onward().0.state.plan matches Some(plan) && plan.auth == AuthMethod::Email
            &&& (flow.state.email is None || flow.state.email_prompt_required ==> flow.onward().1
                == (CreateAction::PromptEmail { initial: flow.state.email }))
            &&& (flow.state.email is Some && !flow.state.email_prompt_required
                && flow.state.verify_code is Some ==> flow.onward().1 is Prepare)
            &&& (flow.state.email is Some && !flow.state.email_prompt_required
                && flow.state.verify_code is None && !flow.state.sent() ==> flow.onward().1 == (
            CreateAction::SendCode { email: flow.state.email->0 }))
            &&& (flow.state.email is Some && !flow.state.email_prompt_required
                && flow.state.verify_code is None && flow.state.sent() ==> flow.onward().1
                is PromptCode)
        },
{
}

/// What follows once the parent was looked at and an approval was settled before: a helper runs
/// first, a parent that approves needs neither address nor code.
pub proof fn settled_approvals_go_on(
    flow: FlowView,
    ready: bool,
    candidate: Option<LocalApprovalCandidate>,
)
    requires
        flow.wf(),
        flow.phase == CreatePhase::LoadParent,
    ensures
        ({
            let action = flow.after(CreateEvent::Parent { ready, candidate }).1;
            &&& (flow.state.plan matches Some(plan) && plan.helper is Some ==> action == (
            CreateAction::RunHelper { action: flow.state.plan->0.helper->0 }))
            &&& (flow.state.plan matches Some(plan) && plan.helper is None && plan.auth
                == AuthMethod::Identity ==> action is Prepare)
            &&& (flow.state.plan is None && flow.auth is None ==> action is ChooseApproval
                && flow.after(CreateEvent::Parent { ready, candidate }).0.candidate == candidate)
        }),
{
}

/// What the other options lead to: each asks again for what it names, and for what rests on it.
pub proof fn other_options_ask_again(flow: FlowView)
    requires
        flow.wf(),
    ensures
        flow.phase == CreatePhase::ChooseApprovalMore ==> flow.after(
            CreateEvent::ApprovalMore(CreateApprovalMenuAction::ChangeIdentityName),
        ).1 == (CreateAction::PromptTarget { again: true }),
        flow.phase == CreatePhase::ChooseApprovalMore ==> flow.after(
            CreateEvent::ApprovalMore(CreateApprovalMenuAction::ChangeCertificateKind),
        ).1 == (CreateAction::PromptKind { cursor: flow.state.kind }),
        flow.phase == CreatePhase::ChooseEmailMore ==> flow.after(
            CreateEvent::EmailMore(CreateEmailAction::ChangeIdentityName),
        ).1 == (CreateAction::PromptTarget { again: true }),
        flow.phase == CreatePhase::ChooseEmailMore ==> flow.after(
            CreateEvent::EmailMore(CreateEmailAction::ChangeCertificateKind),
        ).1 == (CreateAction::PromptKind { cursor: flow.state.kind }),
        flow.phase == CreatePhase::ChooseCodeMore ==> (flow.state.email matches Some(email)
            ==> flow.after(
            CreateEvent::CodeMore(CreateVerifyCodeAction::ResendVerificationCode),
        ).1 == (CreateAction::SendCode { email })),
{
}

/// What a code that could not be sent leads to goes by the reply.
pub proof fn failed_sends_end_the_command(flow: FlowView, error: Error)
    requires
        flow.wf(),
        flow.phase == CreatePhase::Sending || flow.phase == CreatePhase::Resending,
        !stays(error),
        !goes_back_to_email(error),
    ensures
        flow.after(CreateEvent::SendFailed(error)).1 == CreateAction::Finish(
            Err::<(), CreateError>(CreateError::Server(error)),
        ),
{
}

/// What a certificate is asked for with is what was settled: the name, the kind, the device and
/// the request of the key.
pub proof fn orders_name_what_was_settled(flow: FlowView)
    ensures
        flow.order() is Some <==> flow.state.target is Some && flow.state.kind is Some
            && flow.csr_pem is Some,
        flow.order() matches Some(order) ==> order.domain == flow.state.target->0.name.full
            && order.kind == flow.state.kind->0 && order.device_name == flow.device_name
            && order.csr_pem == flow.csr_pem->0,
{
}

} // verus!
