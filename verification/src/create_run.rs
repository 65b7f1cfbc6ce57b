//! Creating an identity with what the command line gives.
//!
//! The command is a machine: it says what to do next, and is told what came of it. It asks only
//! for what the arguments leave open, and never goes back.
use vstd::prelude::*;

use crate::approval::{
    build_options_for_candidate, option_views, ApprovalHelperAction, ApprovalMenuOption,
    HelperView, LocalApprovalCandidate, OptionView,
};
use crate::auth::AuthMethod;
use crate::cert_server::CreateDomainResponse;
use crate::checkout::{checkout_state, classify_checkout, CheckoutState};
use crate::create::{
    create_plan_from_selection, ensure_non_interactive_sub_identity_checkout_not_required,
    non_interactive_plan, plan_view, resolve_non_interactive_approval_plan, selected_plan, Create,
    CreateApprovalPlan, CreateError, PlanView,
};
use crate::create_flow::{
    parent_domain, parent_of, ready_name, CreateAction, CreateEvent, CreatePhase,
};
use crate::kind::IdentityKind;
use crate::registration::{ensure_non_interactive_root_checkout_not_required, RegistrationError};
use crate::requests::{make_order, order_of, CertificateOrder};
use crate::target::{wf_name_len, IdentityLevel, IdentityName, IdentityTarget};
use crate::text::{copy_opt, opt_view};

verus! {

/// What a terminal offers where nothing was asked for: the parent itself where it is ready,
/// otherwise an application for it.
pub open spec fn parent_options(parent: IdentityName, ready: bool) -> Seq<OptionView> {
    let email = OptionView::Email { label: "Verify with email"@ };
    if ready {
        seq![
            OptionView::DirectLocal { short_name: parent.partial(), auth_domain: parent.full@ },
            email,
        ]
    } else {
        seq![
            email,
            OptionView::Helper(
                HelperView {
                    action: ApprovalHelperAction::Apply,
                    short_name: parent.partial(),
                    auth_domain: parent.full@,
                    detail: None,
                },
            ),
        ]
    }
}

/// The options that a terminal offers where nothing was asked for.
pub fn build_parent_options(parent: &IdentityName, ready: bool) -> (r: Vec<ApprovalMenuOption>)
    requires
        parent.wf(),
    ensures
        option_views(r@) == parent_options(*parent, ready),
{
    proof {
        wf_name_len(*parent);
    }
    let short_name = parent.as_partial().to_owned();
    let auth_domain = parent.full.clone();
    let candidate = if ready {
        LocalApprovalCandidate::ready(short_name, auth_domain)
    } else {
        LocalApprovalCandidate::missing(short_name, auth_domain)
    };
    build_options_for_candidate("Verify with email".to_owned(), Some(candidate))
}

/// The command with its arguments.
#[derive(Debug)]
pub struct CreateRun {
    pub command: Create,
    pub interactive: bool,
    /// The name that the device has at the server.
    pub device_name: String,
    pub target: Option<IdentityTarget>,
    pub kind: Option<IdentityKind>,
    /// Whether the parent was ready when it was looked at.
    pub parent_ready: bool,
    pub approval_plan: Option<CreateApprovalPlan>,
    pub email: Option<String>,
    pub verify_code: Option<String>,
    /// The request for the key that was generated.
    pub csr_pem: Option<String>,
    pub created: Option<CreateDomainResponse>,
    pub access_token: Option<String>,
    pub phase: CreatePhase,
}

/// The command with its plan as a view.
pub ghost struct RunView {
    pub command: Create,
    pub interactive: bool,
    pub device_name: String,
    pub target: Option<IdentityTarget>,
    pub kind: Option<IdentityKind>,
    pub parent_ready: bool,
    pub plan: Option<PlanView>,
    pub email: Option<String>,
    pub verify_code: Option<String>,
    pub csr_pem: Option<String>,
    pub created: Option<CreateDomainResponse>,
    pub access_token: Option<String>,
    pub phase: CreatePhase,
}

impl View for CreateRun {
    type V = RunView;

    open spec fn view(&self) -> RunView {
        RunView {
            command: self.command,
            interactive: self.interactive,
            device_name: self.device_name,
            target: self.target,
            kind: self.kind,
            parent_ready: self.parent_ready,
            plan: plan_view(self.approval_plan),
            email: self.email,
            verify_code: self.verify_code,
            csr_pem: self.csr_pem,
            created: self.created,
            access_token: self.access_token,
            phase: self.phase,
        }
    }
}

impl RunView {
    pub open spec fn at(self, phase: CreatePhase) -> RunView {
        RunView { phase, ..self }
    }

    pub open spec fn ended(self, result: Result<(), CreateError>) -> (RunView, CreateAction) {
        (self.at(CreatePhase::Done), CreateAction::Finish(result))
    }

    pub open spec fn root(self) -> bool {
        self.target matches Some(target) && target.level == IdentityLevel::Identity
    }

    pub open spec fn order(self) -> Option<CertificateOrder> {
        order_of(self.target, self.kind, self.device_name, self.csr_pem)
    }

    /// The key is generated for the target.
    pub open spec fn prepare(self) -> (RunView, CreateAction) {
        match self.target {
            Some(target) => (
                self.at(CreatePhase::Preparing),
                CreateAction::Prepare {
                    domain: target.name.full,
                    replace_local: self.command.replace_local,
                },
            ),
            None => (self, CreateAction::Nothing),
        }
    }

    /// The certificate is asked for with a token.
    pub open spec fn issue(self, access_token: String) -> (RunView, CreateAction) {
        match self.order() {
            Some(order) => (
                self.at(CreatePhase::Issuing),
                CreateAction::IssueCert { access_token, order },
            ),
            None => (self, CreateAction::Nothing),
        }
    }

    /// The certificate is asked for, and the parent approves.
    pub open spec fn issue_with_identity(self) -> (RunView, CreateAction) {
        match (self.order(), parent_of(self.target)) {
            (Some(order), Some(auth_domain)) => (
                self.at(CreatePhase::Issuing),
                CreateAction::IssueCertWithIdentity { auth_domain, order },
            ),
            (_, _) => (self, CreateAction::Nothing),
        }
    }

    /// The sub-identity is created with a token.
    pub open spec fn create_sub(self, access_token: String) -> (RunView, CreateAction) {
        match self.target {
            Some(target) => (
                (RunView { access_token: Some(access_token), ..self }).at(CreatePhase::CreatingSub),
                CreateAction::CreateSub { access_token, target },
            ),
            None => (self, CreateAction::Nothing),
        }
    }

    /// The sub-identity is created, and the parent approves.
    pub open spec fn create_sub_with_identity(self) -> (RunView, CreateAction) {
        match (self.target, parent_of(self.target)) {
            (Some(target), Some(auth_domain)) => (
                self.at(CreatePhase::CreatingSub),
                CreateAction::CreateSubWithIdentity { auth_domain, target },
            ),
            (_, _) => (self, CreateAction::Nothing),
        }
    }

    /// The address and the code are given to the server.
    pub open spec fn submit(self) -> (RunView, CreateAction) {
        match (self.email, self.verify_code) {
            (Some(email), Some(verify_code)) => if self.root() {
                (
                    self.at(CreatePhase::CreatingRoot),
                    CreateAction::CreateRoot {
                        domain: self.target->0.name.full,
                        email,
                        verify_code,
                    },
                )
            } else {
                self.login()
            },
            (None, _) => self.ended(Err(CreateError::EmailUnavailable)),
            (_, None) => self.ended(Err(CreateError::CodeUnavailable)),
        }
    }

    pub open spec fn login(self) -> (RunView, CreateAction) {
        match (self.email, self.verify_code) {
            (Some(email), Some(verify_code)) => (
                self.at(CreatePhase::LoggingIn),
                CreateAction::Login { email, verify_code },
            ),
            (None, _) => self.ended(Err(CreateError::EmailUnavailable)),
            (_, None) => self.ended(Err(CreateError::CodeUnavailable)),
        }
    }

    /// Asks for the address, sends a code, or goes on with the code that is given.
    pub open spec fn by_email(self) -> (RunView, CreateAction) {
        match self.email {
            None => (
                self.at(CreatePhase::AskEmail),
                CreateAction::PromptEmail { initial: None },
            ),
            Some(email) => if self.command.send_code || self.verify_code is None {
                (self.at(CreatePhase::Sending), CreateAction::SendCode { email })
            } else {
                self.submit()
            },
        }
    }

    /// Once the approval is settled: a code is sent and nothing else where that is asked for;
    /// otherwise a helper runs first, and the key is generated.
    pub open spec fn settle(self, plan: PlanView) -> (RunView, CreateAction) {
        let settled = RunView { plan: Some(plan), ..self };
        if self.command.send_code {
            if self.command.auth == Some(AuthMethod::Email) {
                settled.by_email()
            } else {
                settled.ended(Err(CreateError::SendCodeNeedsEmailAuth))
            }
        } else {
            match (plan.helper, plan.parent) {
                (None, _) => settled.prepare(),
                (Some(_), None) => settled.ended(Err(CreateError::HelperParentMissing)),
                (Some(action), Some(_)) => (
                    settled.at(CreatePhase::Helper),
                    CreateAction::RunHelper { action },
                ),
            }
        }
    }

    /// Once the parent was looked at: a terminal is asked how to approve a sub-identity where
    /// the arguments do not say.
    pub open spec fn with_parent(self, target: IdentityTarget, ready: bool) -> (
        RunView,
        CreateAction,
    ) {
        if self.interactive && self.command.auth is None && target.level
            == IdentityLevel::SubIdentity {
            (
                (RunView { parent_ready: ready, ..self }).at(CreatePhase::ChooseApproval),
                CreateAction::ChooseApproval,
            )
        } else {
            match non_interactive_plan(target, self.command.auth, ready_name(target, ready)) {
                Ok(plan) => self.settle(plan),
                Err(error) => self.ended(Err(error)),
            }
        }
    }

    /// The name comes first, then the kind, then the parent of a sub-identity.
    pub open spec fn onward(self) -> (RunView, CreateAction) {
        match (self.target, self.kind) {
            (None, _) => (
                self.at(CreatePhase::AskTarget),
                CreateAction::PromptTarget { again: false },
            ),
            (_, None) => (
                self.at(CreatePhase::AskKind),
                CreateAction::PromptKind { cursor: None },
            ),
            (Some(target), Some(_)) => if target.level == IdentityLevel::SubIdentity {
                (self.at(CreatePhase::LoadParent), CreateAction::LoadParent)
            } else {
                self.with_parent(target, false)
            },
        }
    }

    /// After a root identity was created and paid for: the reply may bring a token.
    pub open spec fn root_created(self, created: CreateDomainResponse) -> (RunView, CreateAction) {
        match created.auth {
            Some(auth) => self.issue(auth.access_token),
            None => self.login(),
        }
    }

    /// What follows until the approval is settled and the key is generated.
    pub open spec fn after_settling(self, event: CreateEvent) -> (RunView, CreateAction) {
        match (self.phase, self.target, event) {
            (CreatePhase::AskTarget, _, CreateEvent::Target(target)) => (RunView {
                target: Some(target),
                ..self
            }).onward(),
            (CreatePhase::AskKind, _, CreateEvent::Kind(kind)) => (RunView {
                kind: Some(kind),
                ..self
            }).onward(),
            (CreatePhase::LoadParent, Some(target), CreateEvent::Parent { ready, .. }) => self.with_parent(
                target,
                ready,
            ),
            (CreatePhase::ChooseApproval, Some(target), CreateEvent::Approval(label)) => match target.parent {
                Some(parent) => match selected_plan(
                    parent_options(parent, self.parent_ready),
                    label@,
                    Some(parent.full@),
                ) {
                    Ok(plan) => self.settle(plan),
                    Err(error) => self.ended(Err(error)),
                },
                None => (self, CreateAction::Nothing),
            },
            (CreatePhase::Helper, _, CreateEvent::HelperDone(done)) => if done {
                self.prepare()
            } else {
                self.ended(Err(CreateError::Cancelled))
            },
            (CreatePhase::Preparing, Some(target), CreateEvent::Prepared { csr_pem }) => match self.plan {
                Some(plan) => {
                    let prepared = RunView { csr_pem: Some(csr_pem), ..self };
                    if !self.root() && plan.auth == AuthMethod::Identity {
                        (
                            prepared.at(CreatePhase::CheckingParent),
                            CreateAction::CheckParent { target },
                        )
                    } else {
                        prepared.by_email()
                    }
                },
                None => (self, CreateAction::Nothing),
            },
            (CreatePhase::AskEmail, _, CreateEvent::Email(email)) => (RunView {
                email: Some(email),
                ..self
            }).by_email(),
            (CreatePhase::Sending, _, CreateEvent::Sent) => if self.command.send_code {
                self.ended(Ok(()))
            } else {
                (self.at(CreatePhase::AskCode), CreateAction::PromptCode)
            },
            (CreatePhase::Sending, _, CreateEvent::SendFailed(error)) => self.ended(
                Err(CreateError::Server(error)),
            ),
            (CreatePhase::AskCode, _, CreateEvent::Code(code)) => (RunView {
                verify_code: Some(code),
                ..self
            }).submit(),
            (_, _, _) => (self, CreateAction::Nothing),
        }
    }

    /// What follows while the identity is created.
    pub open spec fn after_creating(self, event: CreateEvent) -> (RunView, CreateAction) {
        match (self.phase, self.target, event) {
            (CreatePhase::CreatingRoot, Some(target), CreateEvent::RootCreated(Ok(created))) => match created.payment_entry {
                None => self.root_created(created),
                Some(entry) => if !self.interactive && checkout_state(created)
                    != CheckoutState::Completed {
                    self.ended(
                        Err(
                            CreateError::Registration(
                                RegistrationError::CheckoutRequired { target: target.name },
                            ),
                        ),
                    )
                } else {
                    (
                        (RunView { created: Some(created), ..self }).at(CreatePhase::PayingRoot),
                        CreateAction::Pay { url: entry.url, checkout_token: entry.checkout_token },
                    )
                },
            },
            (CreatePhase::CreatingRoot, _, CreateEvent::RootCreated(Err(error))) => self.ended(
                Err(CreateError::Server(error)),
            ),
            (CreatePhase::PayingRoot, _, CreateEvent::CheckoutEnded(Err(error))) => self.ended(
                Err(CreateError::Server(error)),
            ),
            (CreatePhase::PayingRoot, _, CreateEvent::CheckoutEnded(Ok(completed))) => match (
                checkout_state(completed),
                self.created,
            ) {
                (CheckoutState::Completed, Some(created)) => self.root_created(created),
                (CheckoutState::Expired, _) => self.ended(Err(CreateError::CheckoutExpired)),
                (CheckoutState::Cancelled, _) => self.ended(Err(CreateError::CheckoutCancelled)),
                (CheckoutState::Pending, _) => self.ended(
                    Err(CreateError::Registration(RegistrationError::CheckoutNotTerminal)),
                ),
                (_, _) => self.ended(
                    Err(CreateError::Registration(RegistrationError::CheckoutFailed)),
                ),
            },
            (CreatePhase::LoggingIn, _, CreateEvent::LoggedIn(Ok(access_token))) => if self.root() {
                self.issue(access_token)
            } else {
                self.create_sub(access_token)
            },
            (CreatePhase::LoggingIn, _, CreateEvent::LoggedIn(Err(error))) => self.ended(
                Err(CreateError::Server(error)),
            ),
            (CreatePhase::CheckingParent, _, CreateEvent::ParentChecked(Ok(()))) => self.create_sub_with_identity(),
            (CreatePhase::CheckingParent, Some(target), CreateEvent::ParentChecked(Err(path))) => self.ended(
                Err(CreateError::ParentNotReadyAt { target, path }),
            ),
            (CreatePhase::CreatingSub, Some(target), CreateEvent::SubCreated(Ok(response))) => if response.invoice
                is Some {
                self.ended(Err(CreateError::SubCheckoutRequired { target }))
            } else {
                match self.access_token {
                    Some(access_token) => self.issue(access_token),
                    None => self.issue_with_identity(),
                }
            },
            (CreatePhase::CreatingSub, _, CreateEvent::SubCreated(Err(error))) => self.ended(
                Err(CreateError::Server(error)),
            ),
            (CreatePhase::Issuing, _, CreateEvent::Issued(Ok(detail))) => (
                self.at(CreatePhase::Saving),
                CreateAction::Save { cert_pem: detail.cert_pem },
            ),
            (CreatePhase::Issuing, _, CreateEvent::Issued(Err(error))) => self.ended(
                Err(CreateError::Server(error)),
            ),
            (CreatePhase::Saving, _, CreateEvent::Saved) => (
                self.at(CreatePhase::Epilogue),
                CreateAction::RunEpilogue,
            ),
            (CreatePhase::Epilogue, _, CreateEvent::EpilogueDone) => self.ended(Ok(())),
            (_, _, _) => (self, CreateAction::Nothing),
        }
    }

    /// Whether the approval is still being settled.
    pub open spec fn settling(self) -> bool {
        match self.phase {
            CreatePhase::AskTarget
            | CreatePhase::AskKind
            | CreatePhase::LoadParent
            | CreatePhase::ChooseApproval
            | CreatePhase::Helper
            | CreatePhase::Preparing
            | CreatePhase::AskEmail
            | CreatePhase::Sending
            | CreatePhase::AskCode => true,
            _ => false,
        }
    }

    /// What holds between events: the name, the kind and the approval are known once they were
    /// settled, and what the certificate is asked for with is known once the key was generated.
    /// A run that only sends a code never gets that far.
    pub open spec fn wf(self) -> bool {
        &&& (self.target matches Some(target) ==> target.wf())
        &&& match self.phase {
            CreatePhase::AskTarget | CreatePhase::Done => true,
            CreatePhase::AskKind => self.target is Some,
            CreatePhase::LoadParent | CreatePhase::ChooseApproval => self.target is Some
                && self.kind is Some,
            CreatePhase::Helper | CreatePhase::Preparing => self.settled()
                && !self.command.send_code,
            CreatePhase::AskEmail => self.settled() && (self.command.send_code || self.order()
                is Some),
            CreatePhase::Sending => self.settled() && (self.command.send_code || self.order()
                is Some) && self.email is Some,
            CreatePhase::AskCode => self.settled() && !self.command.send_code && self.order()
                is Some && self.email is Some,
            CreatePhase::CreatingRoot | CreatePhase::PayingRoot => self.order() is Some
                && self.root(),
            CreatePhase::LoggingIn | CreatePhase::Issuing => self.order() is Some,
            CreatePhase::CheckingParent | CreatePhase::CreatingSub => self.order() is Some
                && !self.root(),
            CreatePhase::Saving | CreatePhase::Epilogue => self.order() is Some,
            _ => false,
        }
    }

    pub open spec fn settled(self) -> bool {
        self.target is Some && self.kind is Some && self.plan is Some
    }

    /// The command after an event, and the action that follows. An event that the command does
    /// not wait for changes nothing.
    pub open spec fn after(self, event: CreateEvent) -> (RunView, CreateAction) {
        match (self.phase, event) {
            (CreatePhase::Done, _) => (self, CreateAction::Nothing),
            (_, CreateEvent::Failed(message)) => self.ended(Err(CreateError::Step(message))),
            (_, event) => if self.settling() {
                self.after_settling(event)
            } else {
                self.after_creating(event)
            },
        }
    }
}

impl CreateRun {
    /// Starts the command with what its arguments gave.
    pub fn start(
        command: Create,
        target: Option<IdentityTarget>,
        kind: Option<IdentityKind>,
        device_name: String,
        interactive: bool,
    ) -> (r: (CreateRun, CreateAction))
        requires
            target matches Some(target) ==> target.wf(),
        ensures
            (r.0@, r.1) == (RunView {
                command,
                interactive,
                device_name,
                target,
                kind,
                parent_ready: false,
                plan: None,
                email: command.email,
                verify_code: command.verify_code,
                csr_pem: None,
                created: None,
                access_token: None,
                phase: CreatePhase::AskTarget,
            }).onward(),
            r.0@.wf(),
    {
        let email = copy_opt(&command.email);
        let verify_code = copy_opt(&command.verify_code);
        let mut run = CreateRun {
            command,
            interactive,
            device_name,
            target,
            kind,
            parent_ready: false,
            approval_plan: None,
            email,
            verify_code,
            csr_pem: None,
            created: None,
            access_token: None,
            phase: CreatePhase::AskTarget,
        };
        let action = run.go_on();
        (run, action)
    }

    /// The parent that the approval rests on.
    pub fn parent_identity(&self) -> (r: Option<String>)
        ensures
            opt_view(r) == (match self@.plan {
                Some(plan) => plan.parent,
                None => None,
            }),
    {
        match &self.approval_plan {
            Some(plan) => copy_opt(&plan.parent_identity),
            None => None,
        }
    }

    fn end(&mut self, result: Result<(), CreateError>) -> (r: CreateAction)
        ensures
            (final(self)@, r) == old(self)@.ended(result),
    {
        self.phase = CreatePhase::Done;
        CreateAction::Finish(result)
    }

    fn order(&self) -> (r: Option<CertificateOrder>)
        ensures
            r == self@.order(),
    {
        make_order(&self.target, self.kind, &self.device_name, &self.csr_pem)
    }

    fn prepare(&mut self) -> (r: CreateAction)
        ensures
            (final(self)@, r) == old(self)@.prepare(),
    {
        let domain = match &self.target {
            Some(target) => target.name.full.clone(),
            None => {
                return CreateAction::Nothing;
            },
        };
        self.phase = CreatePhase::Preparing;
        CreateAction::Prepare { domain, replace_local: self.command.replace_local }
    }

    fn issue(&mut self, access_token: String) -> (r: CreateAction)
        ensures
            (final(self)@, r) == old(self)@.issue(access_token),
    {
        match self.order() {
            Some(order) => {
                self.phase = CreatePhase::Issuing;
                CreateAction::IssueCert { access_token, order }
            },
            None => CreateAction::Nothing,
        }
    }

    fn issue_with_identity(&mut self) -> (r: CreateAction)
        ensures
            (final(self)@, r) == old(self)@.issue_with_identity(),
    {
        match (self.order(), parent_domain(&self.target)) {
            (Some(order), Some(auth_domain)) => {
                self.phase = CreatePhase::Issuing;
                CreateAction::IssueCertWithIdentity { auth_domain, order }
            },
            (_, _) => CreateAction::Nothing,
        }
    }

    fn create_sub(&mut self, target: Option<IdentityTarget>, access_token: String) -> (r:
        CreateAction)
        requires
            old(self)@.target == target,
        ensures
            (final(self)@, r) == old(self)@.create_sub(access_token),
    {
        match target {
            Some(target) => {
                self.access_token = Some(access_token.clone());
                self.phase = CreatePhase::CreatingSub;
                CreateAction::CreateSub { access_token, target }
            },
            None => CreateAction::Nothing,
        }
    }

    fn create_sub_with_identity(&mut self, target: Option<IdentityTarget>) -> (r: CreateAction)
        requires
            old(self)@.target == target,
        ensures
            (final(self)@, r) == old(self)@.create_sub_with_identity(),
    {
        let auth_domain = parent_domain(&target);
        match (target, auth_domain) {
            (Some(target), Some(auth_domain)) => {
                self.phase = CreatePhase::CreatingSub;
                CreateAction::CreateSubWithIdentity { auth_domain, target }
            },
            (_, _) => CreateAction::Nothing,
        }
    }

    /// The complete name of a root identity.
    fn root_domain(&self) -> (r: Option<String>)
        ensures
            r == (if self@.root() {
                Some(self@.target->0.name.full)
            } else {
                None
            }),
    {
        match &self.target {
            Some(target) => match target.level {
                IdentityLevel::Identity => Some(target.name.full.clone()),
                IdentityLevel::SubIdentity => None,
            },
            None => None,
        }
    }

    fn is_root(&self) -> (r: bool)
        ensures
            r == self@.root(),
    {
        match &self.target {
            Some(target) => match target.level {
                IdentityLevel::Identity => true,
                IdentityLevel::SubIdentity => false,
            },
            None => false,
        }
    }

    fn login(&mut self) -> (r: CreateAction)
        ensures
            (final(self)@, r) == old(self)@.login(),
    {
        match (copy_opt(&self.email), copy_opt(&self.verify_code)) {
            (Some(email), Some(verify_code)) => {
                self.phase = CreatePhase::LoggingIn;
                CreateAction::Login { email, verify_code }
            },
            (None, _) => self.end(Err(CreateError::EmailUnavailable)),
            (_, None) => self.end(Err(CreateError::CodeUnavailable)),
        }
    }

    fn submit(&mut self) -> (r: CreateAction)
        ensures
            (final(self)@, r) == old(self)@.submit(),
    {
        match (copy_opt(&self.email), copy_opt(&self.verify_code)) {
            (Some(email), Some(verify_code)) => match self.root_domain() {
                Some(domain) => {
                    self.phase = CreatePhase::CreatingRoot;
                    CreateAction::CreateRoot { domain, email, verify_code }
                },
                None => self.login(),
            },
            (None, _) => self.end(Err(CreateError::EmailUnavailable)),
            (_, None) => self.end(Err(CreateError::CodeUnavailable)),
        }
    }

    fn by_email(&mut self) -> (r: CreateAction)
        ensures
            (final(self)@, r) == old(self)@.by_email(),
    {
        match copy_opt(&self.email) {
            None => {
                self.phase = CreatePhase::AskEmail;
                CreateAction::PromptEmail { initial: None }
            },
            Some(email) => if self.command.send_code || self.verify_code.is_none() {
                self.phase = CreatePhase::Sending;
                CreateAction::SendCode { email }
            } else {
                self.submit()
            },
        }
    }

    fn settle(&mut self, plan: CreateApprovalPlan) -> (r: CreateAction)
        ensures
            (final(self)@, r) == old(self)@.settle(plan@),
    {
        let helper = plan.helper_action;
        let has_parent = plan.parent_identity.is_some();
        self.approval_plan = Some(plan);
        if self.command.send_code {
            match self.command.auth {
                Some(AuthMethod::Email) => self.by_email(),
                _ => self.end(Err(CreateError::SendCodeNeedsEmailAuth)),
            }
        } else {
            match helper {
                None => self.prepare(),
                Some(action) => if has_parent {
                    self.phase = CreatePhase::Helper;
                    CreateAction::RunHelper { action }
                } else {
                    self.end(Err(CreateError::HelperParentMissing))
                },
            }
        }
    }

    fn with_parent(&mut self, target: &IdentityTarget, ready: bool) -> (r: CreateAction)
        requires
            target.wf(),
        ensures
            (final(self)@, r) == old(self)@.with_parent(*target, ready),
    {
        let sub = match target.level {
            IdentityLevel::SubIdentity => true,
            IdentityLevel::Identity => false,
        };
        if self.interactive && self.command.auth.is_none() && sub {
            self.parent_ready = ready;
            self.phase = CreatePhase::ChooseApproval;
            return CreateAction::ChooseApproval;
        }
        let ready_parent: Option<&str> = match &target.parent {
            Some(parent) => if ready {
                Some(parent.as_full())
            } else {
                None
            },
            None => None,
        };
        match resolve_non_interactive_approval_plan(target, self.command.auth, ready_parent) {
            Ok(plan) => self.settle(plan),
            Err(error) => self.end(Err(error)),
        }
    }

    fn go_on(&mut self) -> (r: CreateAction)
        requires
            old(self)@.target matches Some(target) ==> target.wf(),
        ensures
            (final(self)@, r) == old(self)@.onward(),
    {
        let target = match &self.target {
            Some(target) => target.copy(),
            None => {
                self.phase = CreatePhase::AskTarget;
                return CreateAction::PromptTarget { again: false };
            },
        };
        if self.kind.is_none() {
            self.phase = CreatePhase::AskKind;
            return CreateAction::PromptKind { cursor: None };
        }
        match target.level {
            IdentityLevel::SubIdentity => {
                self.phase = CreatePhase::LoadParent;
                CreateAction::LoadParent
            },
            IdentityLevel::Identity => self.with_parent(&target, false),
        }
    }

    fn choose_approval(&mut self, parent: &IdentityName, label: &str) -> (r: CreateAction)
        requires
            parent.wf(),
        ensures
            (final(self)@, r) == (match selected_plan(
                parent_options(*parent, old(self)@.parent_ready),
                label@,
                Some(parent.full@),
            ) {
                Ok(plan) => old(self)@.settle(plan),
                Err(error) => old(self)@.ended(Err(error)),
            }),
    {
        let options = build_parent_options(parent, self.parent_ready);
        match create_plan_from_selection(&options, label, Some(parent.as_full())) {
            Ok(plan) => self.settle(plan),
            Err(error) => self.end(Err(error)),
        }
    }

    fn settle_event(&mut self, target: Option<IdentityTarget>, event: CreateEvent) -> (r:
        CreateAction)
        requires
            old(self)@.target == target,
            target matches Some(target) ==> target.wf(),
            event matches CreateEvent::Target(target) ==> target.wf(),
        ensures
            (final(self)@, r) == old(self)@.after_settling(event),
    {
        match (self.phase, target, event) {
            (CreatePhase::AskTarget, _, CreateEvent::Target(target)) => {
                self.target = Some(target);
                self.go_on()
            },
            (CreatePhase::AskKind, _, CreateEvent::Kind(kind)) => {
                self.kind = Some(kind);
                self.go_on()
            },
            (CreatePhase::LoadParent, Some(target), CreateEvent::Parent { ready, .. }) => self.with_parent(
                &target,
                ready,
            ),
            (CreatePhase::ChooseApproval, Some(target), CreateEvent::Approval(label)) => match &target.parent {
                Some(parent) => self.choose_approval(parent, &label),
                None => CreateAction::Nothing,
            },
            (CreatePhase::Helper, _, CreateEvent::HelperDone(done)) => if done {
                self.prepare()
            } else {
                self.end(Err(CreateError::Cancelled))
            },
            (CreatePhase::Preparing, Some(target), CreateEvent::Prepared { csr_pem }) => {
                let by_identity = match &self.approval_plan {
                    Some(plan) => match plan.auth {
                        AuthMethod::Identity => true,
                        AuthMethod::Email => false,
                    },
                    None => {
                        return CreateAction::Nothing;
                    },
                };
                self.csr_pem = Some(csr_pem);
                if by_identity && !self.is_root() {
                    self.phase = CreatePhase::CheckingParent;
                    CreateAction::CheckParent { target }
                } else {
                    self.by_email()
                }
            },
            (CreatePhase::AskEmail, _, CreateEvent::Email(email)) => {
                self.email = Some(email);
                self.by_email()
            },
            (CreatePhase::Sending, _, CreateEvent::Sent) => if self.command.send_code {
                self.end(Ok(()))
            } else {
                self.phase = CreatePhase::AskCode;
                CreateAction::PromptCode
            },
            (CreatePhase::Sending, _, CreateEvent::SendFailed(error)) => self.end(
                Err(CreateError::Server(error)),
            ),
            (CreatePhase::AskCode, _, CreateEvent::Code(code)) => {
                self.verify_code = Some(code);
                self.submit()
            },
            (_, _, _) => CreateAction::Nothing,
        }
    }

    fn issue_or_login(&mut self, token: Option<String>) -> (r: CreateAction)
        ensures
            (final(self)@, r) == (match token {
                Some(access_token) => old(self)@.issue(access_token),
                None => old(self)@.login(),
            }),
    {
        match token {
            Some(access_token) => self.issue(access_token),
            None => self.login(),
        }
    }

    fn checkout_ended(&mut self, completed: &CreateDomainResponse) -> (r: CreateAction)
        ensures
            (final(self)@, r) == (match (checkout_state(*completed), old(self)@.created) {
                (CheckoutState::Completed, Some(created)) => old(self)@.root_created(created),
                (CheckoutState::Expired, _) => old(self)@.ended(Err(CreateError::CheckoutExpired)),
                (CheckoutState::Cancelled, _) => old(self)@.ended(
                    Err(CreateError::CheckoutCancelled),
                ),
                (CheckoutState::Pending, _) => old(self)@.ended(
                    Err(CreateError::Registration(RegistrationError::CheckoutNotTerminal)),
                ),
                (_, _) => old(self)@.ended(
                    Err(CreateError::Registration(RegistrationError::CheckoutFailed)),
                ),
            }),
    {
        match classify_checkout(completed) {
            CheckoutState::Completed => {
                let token: Option<Option<String>> = match &self.created {
                    Some(created) => Some(
                        match &created.auth {
                            Some(auth) => Some(auth.access_token.clone()),
                            None => None,
                        },
                    ),
                    None => None,
                };
                match token {
                    Some(token) => self.issue_or_login(token),
                    None => self.end(
                        Err(CreateError::Registration(RegistrationError::CheckoutFailed)),
                    ),
                }
            },
            CheckoutState::Expired => self.end(Err(CreateError::CheckoutExpired)),
            CheckoutState::Cancelled => self.end(Err(CreateError::CheckoutCancelled)),
            CheckoutState::Pending => self.end(
                Err(CreateError::Registration(RegistrationError::CheckoutNotTerminal)),
            ),
            CheckoutState::Failed => self.end(
                Err(CreateError::Registration(RegistrationError::CheckoutFailed)),
            ),
        }
    }

    fn root_created(&mut self, target: &IdentityTarget, created: CreateDomainResponse) -> (r:
        CreateAction)
        requires
            old(self).phase == CreatePhase::CreatingRoot,
            old(self)@.target == Some(*target),
        ensures
            (final(self)@, r) == old(self)@.after_creating(CreateEvent::RootCreated(Ok(created))),
    {
        let payment: Option<(String, String)> = match &created.payment_entry {
            Some(entry) => Some((entry.url.clone(), entry.checkout_token.clone())),
            None => None,
        };
        match payment {
            Some((url, checkout_token)) => {
                if !self.interactive {
                    match ensure_non_interactive_root_checkout_not_required(target, &created) {
                        Err(error) => {
                            return self.end(Err(CreateError::Registration(error)));
                        },
                        Ok(()) => {},
                    }
                }
                self.created = Some(created);
                self.phase = CreatePhase::PayingRoot;
                CreateAction::Pay { url, checkout_token }
            },
            None => {
                let token = match created.auth {
                    Some(auth) => Some(auth.access_token),
                    None => None,
                };
                self.issue_or_login(token)
            },
        }
    }

    fn creating_event(&mut self, target: Option<IdentityTarget>, event: CreateEvent) -> (r:
        CreateAction)
        requires
            old(self)@.target == target,
        ensures
            (final(self)@, r) == old(self)@.after_creating(event),
    {
        match (self.phase, target, event) {
            (CreatePhase::CreatingRoot, Some(target), CreateEvent::RootCreated(Ok(created))) => self.root_created(
                &target,
                created,
            ),
            (CreatePhase::CreatingRoot, _, CreateEvent::RootCreated(Err(error))) => self.end(
                Err(CreateError::Server(error)),
            ),
            (CreatePhase::PayingRoot, _, CreateEvent::CheckoutEnded(Err(error))) => self.end(
                Err(CreateError::Server(error)),
            ),
            (CreatePhase::PayingRoot, _, CreateEvent::CheckoutEnded(Ok(completed))) => self.checkout_ended(
                &completed,
            ),
            (CreatePhase::LoggingIn, target, CreateEvent::LoggedIn(Ok(access_token))) => {
                if self.is_root() {
                    self.issue(access_token)
                } else {
                    self.create_sub(target, access_token)
                }
            },
            (CreatePhase::LoggingIn, _, CreateEvent::LoggedIn(Err(error))) => self.end(
                Err(CreateError::Server(error)),
            ),
            (CreatePhase::CheckingParent, target, CreateEvent::ParentChecked(Ok(()))) => self.create_sub_with_identity(
                target,
            ),
            (CreatePhase::CheckingParent, Some(target), CreateEvent::ParentChecked(Err(path))) => self.end(
                Err(CreateError::ParentNotReadyAt { target, path }),
            ),
            (CreatePhase::CreatingSub, Some(target), CreateEvent::SubCreated(Ok(response))) => {
                match ensure_non_interactive_sub_identity_checkout_not_required(
                    &target,
                    &response,
                ) {
                    Err(error) => self.end(Err(error)),
                    Ok(()) => match copy_opt(&self.access_token) {
                        Some(access_token) => self.issue(access_token),
                        None => self.issue_with_identity(),
                    },
                }
            },
            (CreatePhase::CreatingSub, _, CreateEvent::SubCreated(Err(error))) => self.end(
                Err(CreateError::Server(error)),
            ),
            (CreatePhase::Issuing, _, CreateEvent::Issued(Ok(detail))) => {
                self.phase = CreatePhase::Saving;
                CreateAction::Save { cert_pem: detail.cert_pem }
            },
            (CreatePhase::Issuing, _, CreateEvent::Issued(Err(error))) => self.end(
                Err(CreateError::Server(error)),
            ),
            (CreatePhase::Saving, _, CreateEvent::Saved) => {
                self.phase = CreatePhase::Epilogue;
                CreateAction::RunEpilogue
            },
            (CreatePhase::Epilogue, _, CreateEvent::EpilogueDone) => self.end(Ok(())),
            (_, _, _) => CreateAction::Nothing,
        }
    }

    /// Takes an event and gives the action that follows.
    pub fn next(&mut self, event: CreateEvent) -> (r: CreateAction)
        requires
            old(self)@.wf(),
            event matches CreateEvent::Target(target) ==> target.wf(),
        ensures
            (final(self)@, r) == old(self)@.after(event),
            final(self)@.wf(),
    {
        proof {
            runs_stay_well_formed(self@, event);
        }
        let target = match &self.target {
            Some(target) => Some(target.copy()),
            None => None,
        };
        match (self.phase, event) {
            (CreatePhase::Done, _) => CreateAction::Nothing,
            (_, CreateEvent::Failed(message)) => self.end(Err(CreateError::Step(message))),
            (CreatePhase::AskTarget, event) => self.settle_event(target, event),
            (CreatePhase::AskKind, event) => self.settle_event(target, event),
            (CreatePhase::LoadParent, event) => self.settle_event(target, event),
            (CreatePhase::ChooseApproval, event) => self.settle_event(target, event),
            (CreatePhase::Helper, event) => self.settle_event(target, event),
            (CreatePhase::Preparing, event) => self.settle_event(target, event),
            (CreatePhase::AskEmail, event) => self.settle_event(target, event),
            (CreatePhase::Sending, event) => self.settle_event(target, event),
            (CreatePhase::AskCode, event) => self.settle_event(target, event),
            (_, event) => self.creating_event(target, event),
        }
    }
}

/// What is asked of the server is what was settled: every action that generates, creates or
/// certifies names the target, its kind, the device and the request of the key that was
/// generated for it.
pub open spec fn carries_what_was_settled(run: RunView, action: CreateAction) -> bool {
    match action {
        CreateAction::Prepare { domain, replace_local } => run.target is Some && domain
            == run.target->0.name.full && replace_local == run.command.replace_local,
        CreateAction::CreateRoot { domain, email, verify_code } => run.root() && domain
            == run.target->0.name.full && run.email == Some(email) && run.verify_code == Some(
            verify_code,
        ),
        CreateAction::CreateSub { access_token, target } => run.target == Some(target)
            && run.access_token == Some(access_token),
        CreateAction::CreateSubWithIdentity { auth_domain, target } => run.target == Some(target)
            && parent_of(run.target) == Some(auth_domain),
        CreateAction::IssueCert { order, .. } => run.order() == Some(order),
        CreateAction::IssueCertWithIdentity { auth_domain, order } => run.order() == Some(order)
            && parent_of(run.target) == Some(auth_domain),
        _ => true,
    }
}

/// What holds after a step that started from a run.
pub open spec fn is_sound(run: RunView, next: RunView, action: CreateAction) -> bool {
    &&& next.wf()
    &&& next.command == run.command
    &&& next.device_name == run.device_name
    &&& carries_what_was_settled(next, action)
}

/// What does not belong to the end of the command.
pub open spec fn is_early(action: CreateAction) -> bool {
    !(action is Save) && !(action is RunEpilogue) && !(action matches CreateAction::Finish(Ok(())))
}

proof fn emailing_is_sound(run: RunView)
    requires
        run.target matches Some(target) ==> target.wf(),
        run.settled(),
        run.command.send_code || run.order() is Some,
    ensures
        is_sound(run, run.by_email().0, run.by_email().1),
        is_early(run.by_email().1),
{
}

proof fn settling_is_sound(run: RunView, plan: PlanView)
    requires
        run.target matches Some(target) ==> target.wf(),
        run.target is Some,
        run.kind is Some,
    ensures
        is_sound(run, run.settle(plan).0, run.settle(plan).1),
        is_early(run.settle(plan).1),
{
    let settled = RunView { plan: Some(plan), ..run };
    if run.command.send_code {
        emailing_is_sound(settled);
    }
}

proof fn looking_at_the_parent_is_sound(run: RunView, target: IdentityTarget, ready: bool)
    requires
        run.target == Some(target),
        target.wf(),
        run.kind is Some,
    ensures
        is_sound(run, run.with_parent(target, ready).0, run.with_parent(target, ready).1),
        is_early(run.with_parent(target, ready).1),
{
    match non_interactive_plan(target, run.command.auth, ready_name(target, ready)) {
        Ok(plan) => {
            settling_is_sound(run, plan);
        },
        Err(_) => {},
    }
}

proof fn going_on_is_sound(run: RunView)
    requires
        run.target matches Some(target) ==> target.wf(),
    ensures
        is_sound(run, run.onward().0, run.onward().1),
        is_early(run.onward().1),
{
    if run.target is Some && run.kind is Some {
        looking_at_the_parent_is_sound(run, run.target->0, false);
    }
}

proof fn settling_events_are_sound(run: RunView, event: CreateEvent)
    requires
        run.wf(),
        run.settling(),
        event matches CreateEvent::Target(target) ==> target.wf(),
    ensures
        is_sound(run, run.after_settling(event).0, run.after_settling(event).1),
        (run.phase == CreatePhase::Sending && event is Sent && run.command.send_code) || is_early(
            run.after_settling(event).1,
        ),
{
    match (run.phase, run.target, event) {
        (CreatePhase::AskTarget, _, CreateEvent::Target(target)) => {
            going_on_is_sound(RunView { target: Some(target), ..run });
        },
        (CreatePhase::AskKind, _, CreateEvent::Kind(kind)) => {
            going_on_is_sound(RunView { kind: Some(kind), ..run });
        },
        (CreatePhase::LoadParent, Some(target), CreateEvent::Parent { ready, .. }) => {
            looking_at_the_parent_is_sound(run, target, ready);
        },
        (CreatePhase::ChooseApproval, Some(target), CreateEvent::Approval(label)) => {
            match target.parent {
                Some(parent) => match selected_plan(
                    parent_options(parent, run.parent_ready),
                    label@,
                    Some(parent.full@),
                ) {
                    Ok(plan) => {
                        settling_is_sound(run, plan);
                    },
                    Err(_) => {},
                },
                None => {},
            }
        },
        (CreatePhase::Preparing, Some(_), CreateEvent::Prepared { csr_pem }) => {
            emailing_is_sound(RunView { csr_pem: Some(csr_pem), ..run });
        },
        (CreatePhase::AskEmail, _, CreateEvent::Email(email)) => {
            emailing_is_sound(RunView { email: Some(email), ..run });
        },
        (_, _, _) => {},
    }
}

proof fn creating_events_are_sound(run: RunView, event: CreateEvent)
    requires
        run.wf(),
        !run.settling(),
    ensures
        is_sound(run, run.after_creating(event).0, run.after_creating(event).1),
        ({
            ||| run.phase == CreatePhase::Issuing && (event matches CreateEvent::Issued(Ok(_)))
                && run.after_creating(event).1 is Save
            ||| run.phase == CreatePhase::Saving && event is Saved && run.after_creating(event).1
                is RunEpilogue
            ||| run.phase == CreatePhase::Epilogue && event is EpilogueDone && run.after_creating(
                event,
            ).1 is Finish
            ||| is_early(run.after_creating(event).1)
        }),
{
}

/// Every event keeps what holds of the command, and what is asked of the server is what was
/// settled.
pub proof fn runs_stay_well_formed(run: RunView, event: CreateEvent)
    requires
        run.wf(),
        event matches CreateEvent::Target(target) ==> target.wf(),
    ensures
        is_sound(run, run.after(event).0, run.after(event).1),
{
    if run.settling() {
        settling_events_are_sound(run, event);
    } else {
        creating_events_are_sound(run, event);
    }
}

/// A command that only sends a code creates nothing: while it runs it neither generates a key
/// nor asks the server for an identity or a certificate, and it does not reach the steps after
/// those.
pub proof fn sending_a_code_creates_nothing(run: RunView, event: CreateEvent)
    requires
        run.command.send_code,
        run.settling() && run.phase != CreatePhase::Preparing && run.phase != CreatePhase::Helper
            && run.phase != CreatePhase::AskCode || run.phase == CreatePhase::Done,
    ensures
        ({
            let (next, action) = run.after(event);
            &&& next.command == run.command
            &&& (next.settling() && next.phase != CreatePhase::Preparing && next.phase
                != CreatePhase::Helper && next.phase != CreatePhase::AskCode || next.phase
                == CreatePhase::Done)
            &&& !(action is Prepare) && !(action is CreateRoot) && !(action is Login)
            &&& !(action is IssueCert) && !(action is IssueCertWithIdentity)
        }),
{
}

/// Without a terminal nothing is left to be paid: the command ends before a checkout that is
/// not complete.
pub proof fn runs_without_terminal_do_not_pay(run: RunView, event: CreateEvent)
    requires
        !run.interactive,
        run.after(event).1 is Pay,
    ensures
        event matches CreateEvent::RootCreated(Ok(created)) && checkout_state(created)
            == CheckoutState::Completed,
{
}

/// What is saved is the certificate that the server has just issued, then come the last
/// questions, and then the command succeeds.
pub proof fn issued_certificates_are_saved(run: RunView, event: CreateEvent)
    ensures
        run.phase == CreatePhase::Issuing ==> (event matches CreateEvent::Issued(Ok(detail))
            ==> run.after(event).1 == (CreateAction::Save { cert_pem: detail.cert_pem })
            && run.after(event).0.phase == CreatePhase::Saving),
        run.phase == CreatePhase::Issuing ==> (event matches CreateEvent::Issued(Err(error))
            ==> run.after(event).1 == CreateAction::Finish(
            Err::<(), CreateError>(CreateError::Server(error)),
        )),
        run.phase == CreatePhase::Saving && event is Saved ==> run.after(event).1 is RunEpilogue
            && run.after(event).0.phase == CreatePhase::Epilogue,
        run.phase == CreatePhase::Epilogue && event is EpilogueDone ==> (run.after(
            event,
        ).1 matches CreateAction::Finish(Ok(()))),
{
}

/// Nothing but an issued certificate is saved, the last questions come only behind the save, and
/// the command succeeds only behind these, or, where a code was to be sent and nothing else,
/// behind the send.
pub proof fn success_follows_the_last_questions(run: RunView, event: CreateEvent)
    requires
        run.wf(),
        event matches CreateEvent::Target(target) ==> target.wf(),
    ensures
        run.after(event).1 is Save ==> run.phase == CreatePhase::Issuing && (
        event matches CreateEvent::Issued(Ok(_))),
        run.after(event).1 is RunEpilogue ==> run.phase == CreatePhase::Saving && event is Saved,
        run.after(event).1 matches CreateAction::Finish(Ok(())) ==> (run.phase
            == CreatePhase::Epilogue && event is EpilogueDone) || (run.phase == CreatePhase::Sending
            && event is Sent && run.command.send_code),
{
    if run.phase != CreatePhase::Done && !(event is Failed) {
        if run.settling() {
            settling_events_are_sound(run, event);
        } else {
            creating_events_are_sound(run, event);
        }
    }
}

/// Once the key is there, the parent is looked at where it approves, otherwise email does.
pub proof fn prepared_identities_are_created(run: RunView, csr_pem: String)
    requires
        run.wf(),
        run.phase == CreatePhase::Preparing,
    ensures
        ({
            let (next, action) = run.after(CreateEvent::Prepared { csr_pem });
            let target = run.target->0;
            let parent = target.level == IdentityLevel::SubIdentity && run.plan->0.auth
                == AuthMethod::Identity;
            &&& next.csr_pem == Some(csr_pem)
            &&& (parent <==> action is CheckParent)
            &&& (parent ==> action == (CreateAction::CheckParent { target }))
            &&& (!parent && run.email is None ==> action is PromptEmail)
            &&& (!parent ==> (run.email matches Some(email) ==> run.verify_code is None ==> action
                == (CreateAction::SendCode { email })))
            &&& (!parent && run.email is Some && run.verify_code is Some ==> if target.level
                == IdentityLevel::Identity {
                action == (CreateAction::CreateRoot {
                    domain: target.name.full,
                    email: run.email->0,
                    verify_code: run.verify_code->0,
                })
            } else {
                action == (CreateAction::Login {
                    email: run.email->0,
                    verify_code: run.verify_code->0,
                })
            })
        }),
{
}

/// How a root identity is created: it is paid for on a terminal, and certified with the token of
/// the reply or of a login.
pub proof fn created_roots_are_certified(
    run: RunView,
    created: CreateDomainResponse,
    completed: CreateDomainResponse,
    error: crate::cert_server::Error,
)
    requires
        run.wf(),
    ensures
        run.phase == CreatePhase::CreatingRoot ==> ({
            let (next, action) = run.after(CreateEvent::RootCreated(Ok(created)));
            match (created.payment_entry, created.auth) {
                (Some(entry), _) => if !run.interactive && checkout_state(created)
                    != CheckoutState::Completed {
                    action == CreateAction::Finish(
                        Err::<(), CreateError>(
                            CreateError::Registration(
                                RegistrationError::CheckoutRequired { target: run.target->0.name },
                            ),
                        ),
                    )
                } else {
                    action == (CreateAction::Pay {
                        url: entry.url,
                        checkout_token: entry.checkout_token,
                    }) && next.created == Some(created) && next.phase == CreatePhase::PayingRoot
                },
                (None, Some(auth)) => action matches CreateAction::IssueCert { access_token, .. }
                    && access_token == auth.access_token,
                (None, None) => action is Login || action is Finish,
            }
        }),
        run.phase == CreatePhase::CreatingRoot ==> run.after(
            CreateEvent::RootCreated(Err(error)),
        ).1 == CreateAction::Finish(Err::<(), CreateError>(CreateError::Server(error))),
        run.phase == CreatePhase::PayingRoot ==> ({
            let action = run.after(CreateEvent::CheckoutEnded(Ok(completed))).1;
            let state = checkout_state(completed);
            &&& (state == CheckoutState::Completed ==> (run.created matches Some(reply) ==> (
            reply.auth matches Some(auth) ==> (action matches CreateAction::IssueCert {
                access_token,
                ..
            } && access_token == auth.access_token))))
            &&& (action is IssueCert || action is Login ==> state == CheckoutState::Completed)
            &&& (state == CheckoutState::Expired ==> action == CreateAction::Finish(
                Err::<(), CreateError>(CreateError::CheckoutExpired),
            ))
            &&& (state == CheckoutState::Cancelled ==> action == CreateAction::Finish(
                Err::<(), CreateError>(CreateError::CheckoutCancelled),
            ))
            &&& (state == CheckoutState::Pending ==> action == CreateAction::Finish(
                Err::<(), CreateError>(
                    CreateError::Registration(RegistrationError::CheckoutNotTerminal),
                ),
            ))
        }),
        run.phase == CreatePhase::PayingRoot ==> run.after(
            CreateEvent::CheckoutEnded(Err(error)),
        ).1 == CreateAction::Finish(Err::<(), CreateError>(CreateError::Server(error))),
{
}

/// A token certifies a root identity, and creates a sub-identity that is then certified with the
/// same token; a sub-identity that its parent created is certified by the parent. A sub-identity
/// that has to be paid for ends the command.
pub proof fn sub_identities_are_created_then_certified(
    run: RunView,
    token: String,
    reply: crate::cert_server::CreateSubdomainResponse,
    error: crate::cert_server::Error,
    path: String,
)
    requires
        run.wf(),
    ensures
        run.phase == CreatePhase::LoggingIn ==> ({
            let (next, action) = run.after(CreateEvent::LoggedIn(Ok(token)));
            if run.target->0.level == IdentityLevel::Identity {
                action matches CreateAction::IssueCert { access_token, .. } && access_token == token
            } else {
                action == (CreateAction::CreateSub { access_token: token, target: run.target->0 })
                    && next.access_token == Some(token) && next.phase == CreatePhase::CreatingSub
            }
        }),
        run.phase == CreatePhase::LoggingIn ==> run.after(CreateEvent::LoggedIn(Err(error))).1
            == CreateAction::Finish(Err::<(), CreateError>(CreateError::Server(error))),
        run.phase == CreatePhase::CheckingParent ==> run.after(
            CreateEvent::ParentChecked(Ok(())),
        ).1 is CreateSubWithIdentity,
        run.phase == CreatePhase::CheckingParent ==> run.after(
            CreateEvent::ParentChecked(Err(path)),
        ).1 == CreateAction::Finish(
            Err::<(), CreateError>(CreateError::ParentNotReadyAt { target: run.target->0, path }),
        ),
        run.phase == CreatePhase::CreatingSub ==> ({
            let action = run.after(CreateEvent::SubCreated(Ok(reply))).1;
            if reply.invoice is Some {
                action == CreateAction::Finish(
                    Err::<(), CreateError>(
                        CreateError::SubCheckoutRequired { target: run.target->0 },
                    ),
                )
            } else {
                match run.access_token {
                    Some(kept) => action matches CreateAction::IssueCert { access_token, .. }
                        && access_token == kept,
                    None => action is IssueCertWithIdentity,
                }
            }
        }),
        run.phase == CreatePhase::CreatingSub ==> run.after(
            CreateEvent::SubCreated(Err(error)),
        ).1 == CreateAction::Finish(Err::<(), CreateError>(CreateError::Server(error))),
{
}

/// What a run is told is kept, and what it asks for comes in order: name, kind, parent, approval.
pub proof fn answers_are_kept(run: RunView, event: CreateEvent)
    requires
        run.wf(),
        run.phase == CreatePhase::AskKind || run.phase == CreatePhase::AskEmail || run.phase
            == CreatePhase::AskCode || run.phase == CreatePhase::Sending || run.phase
            == CreatePhase::Helper,
        event !is Failed,
    ensures
        run.phase == CreatePhase::AskKind ==> (event matches CreateEvent::Kind(kind) ==> run.after(
            event,
        ).0.kind == Some(kind)),
        run.phase == CreatePhase::AskEmail ==> (event matches CreateEvent::Email(email)
            ==> run.after(event).0.email == Some(email)),
        run.phase == CreatePhase::AskCode ==> (event matches CreateEvent::Code(code) ==> run.after(
            event,
        ).0.verify_code == Some(code) && (run.after(event).1 is CreateRoot || run.after(event).1
            is Login)),
        run.phase == CreatePhase::Sending && event is Sent ==> if run.command.send_code {
            run.after(event).1 matches CreateAction::Finish(Ok(()))
        } else {
            run.after(event).1 is PromptCode
        },
        run.phase == CreatePhase::Sending ==> (event matches CreateEvent::SendFailed(error)
            ==> run.after(event).1 == CreateAction::Finish(
            Err::<(), CreateError>(CreateError::Server(error)),
        )),
        run.phase == CreatePhase::Helper && event == CreateEvent::HelperDone(true) ==> run.after(
            event,
        ).1 is Prepare,
        run.phase == CreatePhase::Helper && event == CreateEvent::HelperDone(false) ==> run.after(
            event,
        ).1 == CreateAction::Finish(Err::<(), CreateError>(CreateError::Cancelled)),
        run.after(event).1 matches CreateAction::SendCode { email } ==> run.after(event).0.email
            == Some(email),
{
}

/// What a terminal is offered: the parent itself only where it is ready, otherwise an
/// application for it; email always.
pub proof fn parents_are_offered_where_ready(parent: IdentityName, ready: bool)
    ensures
        parent_options(parent, ready).len() == 2,
        ready ==> parent_options(parent, ready)[0] == (OptionView::DirectLocal {
            short_name: parent.partial(),
            auth_domain: parent.full@,
        }) && parent_options(parent, ready)[1] is Email,
        !ready ==> parent_options(parent, ready)[0] is Email && (parent_options(
            parent,
            ready,
        )[1] matches OptionView::Helper(helper) && helper.action == ApprovalHelperAction::Apply
            && helper.auth_domain == parent.full@ && helper.short_name == parent.partial()),
{
}

/// What is asked for comes in order: the name, the kind, then the parent of a sub-identity.
pub proof fn questions_come_in_order(run: RunView)
    ensures
        run.target is None ==> run.onward().1 == (CreateAction::PromptTarget { again: false }),
        run.target is Some && run.kind is None ==> run.onward().1 == (CreateAction::PromptKind {
            cursor: None,
        }),
        run.kind is Some ==> (run.target matches Some(target) ==> target.level
            == IdentityLevel::SubIdentity ==> run.onward().1 is LoadParent),
        run.kind is Some ==> (run.target matches Some(target) ==> target.level
            == IdentityLevel::Identity ==> !(run.onward().1 is LoadParent) && !(run.onward().1
            is ChooseApproval)),
        run.kind is Some && !run.command.send_code && run.command.auth != Some(AuthMethod::Identity)
            ==> (run.target matches Some(target) ==> target.level == IdentityLevel::Identity
            && target.parent is None ==> (run.onward().1 matches CreateAction::Prepare {
            domain,
            replace_local,
        } && domain == target.name.full && replace_local == run.command.replace_local)),
        run.kind is Some && run.command.auth == Some(AuthMethod::Identity) ==> (
        run.target matches Some(target) ==> target.level == IdentityLevel::Identity
            && target.parent is None ==> run.onward().1 == CreateAction::Finish(
            Err::<(), CreateError>(CreateError::RootNeedsEmail { target }),
        )),
{
}

/// Once the approval is settled: a run that is to send a code needs email for its approval and
/// sends one; any other runs the helper first, or generates the key.
pub proof fn settled_approvals_go_on(run: RunView, plan: PlanView)
    requires
        run.target is Some,
    ensures
        run.command.send_code && run.command.auth != Some(AuthMethod::Email) ==> run.settle(plan).1
            == CreateAction::Finish(Err::<(), CreateError>(CreateError::SendCodeNeedsEmailAuth)),
        run.command.send_code && run.command.auth == Some(AuthMethod::Email) ==> (
        run.email matches Some(email) ==> run.settle(plan).1 == (CreateAction::SendCode { email })),
        run.command.send_code && run.command.auth == Some(AuthMethod::Email) && run.email is None
            ==> run.settle(plan).1 == (CreateAction::PromptEmail { initial: None }),
        !run.command.send_code && plan.helper is None ==> run.settle(plan).1 is Prepare,
        !run.command.send_code && plan.parent is Some ==> (plan.helper matches Some(action)
            ==> run.settle(plan).1 == (CreateAction::RunHelper { action })),
        !run.command.send_code && plan.parent is None && plan.helper is Some ==> run.settle(plan).1
            == CreateAction::Finish(Err::<(), CreateError>(CreateError::HelperParentMissing)),
        run.settle(plan).0.plan == Some(plan),
{
}

/// Whether a terminal is asked how to approve: only for a sub-identity, and only where the
/// arguments do not say.
pub proof fn approvals_are_asked_for_where_open(run: RunView, target: IdentityTarget, ready: bool)
    ensures
        run.with_parent(target, ready).1 is ChooseApproval <==> run.interactive && run.command.auth
            is None && target.level == IdentityLevel::SubIdentity,
        run.with_parent(target, ready).1 is ChooseApproval ==> run.with_parent(
            target,
            ready,
        ).0.parent_ready == ready,
{
}

/// What a certificate is asked for with is what was settled: the name, the kind, the device and
/// the request of the key.
pub proof fn orders_name_what_was_settled(run: RunView)
    ensures
        run.order() is Some <==> run.target is Some && run.kind is Some && run.csr_pem is Some,
        run.order() matches Some(order) ==> order.domain == run.target->0.name.full && order.kind
            == run.kind->0 && order.device_name == run.device_name && order.csr_pem
            == run.csr_pem->0,
{
}

} // verus!
