//! Applying for a certificate: the identity is settled, what is saved of it is only replaced
//! with consent, the application is approved by an identity on this device or by email, a
//! sub-identity that does not exist yet is registered, and the certificate is saved.
//!
//! The command is a machine: it says what to do next, and is told what came of it.
use vstd::prelude::*;

use crate::auth::{classify_identity_attempt, disposition, AuthAttemptDisposition};
use crate::auth_plan::CandidateEvent;
use crate::cert_server::{CertificateDetail, Error};
use crate::email::EmailSessionError;
use crate::kind::{kind_named, IdentityKind};
use crate::local::LocalIdentitySummary;
use crate::registration::{is_subdomain_quota_exceeded, RegistrationError};
use crate::requests::{make_order, order_of, CertificateOrder};
use crate::target::{
    availability_state, is_parsed, remote_state_from_availability, replacement_requirement,
    wf_name_len, IdentityLevel, IdentityTarget, ParseIdentityTargetError, RemoteTargetState,
    ReplacementRequirement, ResolvedApplyTarget,
};
use crate::text::{copy_opt, opt_view, same};

verus! {

/// The arguments of the command.
#[derive(Debug, PartialEq, Eq)]
pub struct Apply {
    pub name: Option<String>,
    pub kind: Option<String>,
    pub force: bool,
    pub device_name: Option<String>,
    pub email: Option<String>,
    pub verify_code: Option<String>,
}

/// How the application is approved.
#[derive(Debug, PartialEq, Eq)]
pub enum ApplyApprovalPlan {
    Email,
    DirectIdentity { auth_domain: String },
}

/// What happens to an application for an identity that does not exist.
#[derive(Debug, Clone, Copy, PartialEq, Eq, Structural)]
pub enum MissingTargetAction {
    Register,
    Reject,
}

/// Whether an identity is saved for the first time.
#[derive(Debug, Clone, Copy, PartialEq, Eq, Structural)]
pub enum LocalIdentitySave {
    New,
    Replace,
}

impl LocalIdentitySave {
    pub fn created_new_identity(self) -> (r: bool)
        ensures
            r == (self == LocalIdentitySave::New),
    {
        match self {
            LocalIdentitySave::New => true,
            LocalIdentitySave::Replace => false,
        }
    }
}

/// A sub-identity that does not exist is registered; a root identity only in a continued test
/// run.
pub open spec fn missing_action(level: IdentityLevel, continued: bool) -> MissingTargetAction {
    if level == IdentityLevel::SubIdentity || continued {
        MissingTargetAction::Register
    } else {
        MissingTargetAction::Reject
    }
}

/// What happens to an application for an identity that does not exist.
pub fn missing_target_action(target: &IdentityTarget, private_test_continuation: bool) -> (r:
    MissingTargetAction)
    ensures
        r == missing_action(target.level, private_test_continuation),
{
    match target.level() {
        IdentityLevel::SubIdentity => MissingTargetAction::Register,
        IdentityLevel::Identity => if private_test_continuation {
            MissingTargetAction::Register
        } else {
            MissingTargetAction::Reject
        },
    }
}

/// A run that was given a code continues a test.
pub fn private_test_root_registration(command: &Apply) -> (r: bool)
    ensures
        r == (command.verify_code is Some),
{
    command.verify_code.is_some()
}

/// Why an application ended without a certificate.
#[derive(Debug)]
pub enum ApplyError {
    /// There is no terminal to ask for the identity.
    NameRequired,
    /// There is no terminal to ask whether what is saved may be replaced.
    ForceRequired,
    InvalidKind { value: String },
    Cancelled,
    UnsupportedAvailability { availability: String },
    NoCandidate,
    MissingRoot { target: IdentityTarget },
    NeedsInteractiveEmail { target: IdentityTarget },
    Email(EmailSessionError),
    Registration(RegistrationError),
    Server(Error),
    /// A prompt or an access to this device failed; the message says why.
    Step(String),
}

impl ApplyError {
    pub open spec fn wf(self) -> bool {
        match self {
            ApplyError::MissingRoot { target } => target.wf(),
            ApplyError::NeedsInteractiveEmail { target } => target.wf(),
            ApplyError::Registration(error) => error.wf(),
            _ => true,
        }
    }

    pub open spec fn words(self) -> Seq<char> {
        match self {
            ApplyError::NameRequired => "non-interactive terminal, use IDENTITY to provide input"@,
            ApplyError::ForceRequired => "non-interactive terminal, use --force to provide input"@,
            ApplyError::InvalidKind { value } => "identity kind "@ + value@
                + " is invalid; use primary or secondary"@,
            ApplyError::Cancelled => "apply was cancelled"@,
            ApplyError::UnsupportedAvailability {
                availability,
            } => "cert server returned unsupported domain availability: "@ + availability@,
            ApplyError::NoCandidate => "no authentication candidate is available"@,
            ApplyError::MissingRoot { target } => target.short()
                + " does not exist yet. Apply can register a missing sub-identity, but not a new root identity."@,
            ApplyError::NeedsInteractiveEmail { target } => "registering "@ + target.short()
                + " requires interactive email verification"@,
            ApplyError::Email(error) => error.words(),
            ApplyError::Registration(error) => error.words(),
            ApplyError::Server(error) => error.words(),
            ApplyError::Step(message) => message@,
        }
    }

    pub fn to_text(&self) -> (r: String)
        requires
            self.wf(),
        ensures
            r@ == self.words(),
    {
        match self {
            ApplyError::NameRequired => "non-interactive terminal, use IDENTITY to provide input".to_owned(),
            ApplyError::ForceRequired => "non-interactive terminal, use --force to provide input".to_owned(),
            ApplyError::InvalidKind { value } => {
                let mut r = "identity kind ".to_owned();
                r.append(value);
                r.append(" is invalid; use primary or secondary");
                r
            },
            ApplyError::Cancelled => "apply was cancelled".to_owned(),
            ApplyError::UnsupportedAvailability { availability } => {
                let mut r = "cert server returned unsupported domain availability: ".to_owned();
                r.append(availability);
                r
            },
            ApplyError::NoCandidate => "no authentication candidate is available".to_owned(),
            ApplyError::MissingRoot { target } => {
                proof {
                    wf_name_len(target.name);
                }
                let mut r = target.short_name().to_owned();
                r.append(
                    " does not exist yet. Apply can register a missing sub-identity, but not a new root identity.",
                );
                r
            },
            ApplyError::NeedsInteractiveEmail { target } => {
                proof {
                    wf_name_len(target.name);
                }
                let mut r = "registering ".to_owned();
                r.append(target.short_name());
                r.append(" requires interactive email verification");
                r
            },
            ApplyError::Email(error) => error.to_text(),
            ApplyError::Registration(error) => error.to_text(),
            ApplyError::Server(error) => error.to_text(),
            ApplyError::Step(message) => message.clone(),
        }
    }
}

/// Why an application for a root identity that does not exist is refused.
pub fn missing_root_target_error(target: &IdentityTarget) -> (r: ApplyError)
    ensures
        r == (ApplyError::MissingRoot { target: *target }),
{
    ApplyError::MissingRoot { target: target.copy() }
}

/// A failed registration is reported as it is.
pub fn preserve_apply_registration_error(error: RegistrationError) -> (r: ApplyError)
    ensures
        r == ApplyError::Registration(error),
        r.words() == error.words(),
{
    ApplyError::Registration(error)
}

pub open spec fn is_missing(error: Error) -> bool {
    disposition(error) == AuthAttemptDisposition::ReplanMissingTarget
}

pub fn is_domain_not_found(error: &Error) -> (r: bool)
    ensures
        r == is_missing(*error),
{
    match classify_identity_attempt(error) {
        AuthAttemptDisposition::ReplanMissingTarget => true,
        _ => false,
    }
}

pub open spec fn candidate_plan(candidate: CandidateEvent) -> Result<
    ApplyApprovalPlan,
    ApplyError,
> {
    match candidate {
        CandidateEvent::Identity { full_name, .. } => Ok(
            ApplyApprovalPlan::DirectIdentity { auth_domain: full_name },
        ),
        CandidateEvent::Email => Ok(ApplyApprovalPlan::Email),
        _ => Err(ApplyError::NoCandidate),
    }
}

/// The approval behind the first proof that can be tried. Warnings are shown while it is looked
/// for, and are none.
pub fn approval_plan_from_candidate(candidate: CandidateEvent) -> (r: Result<
    ApplyApprovalPlan,
    ApplyError,
>)
    requires
        candidate !is Warning,
    ensures
        r == candidate_plan(candidate),
{
    match candidate {
        CandidateEvent::Identity { full_name, .. } => Ok(
            ApplyApprovalPlan::DirectIdentity { auth_domain: full_name },
        ),
        CandidateEvent::Email => Ok(ApplyApprovalPlan::Email),
        _ => Err(ApplyError::NoCandidate),
    }
}

/// What is shown when the command starts.
pub fn apply_identity_name_opening() -> (r: &'static str)
    ensures
        r@ == "Applying identity, generating ECC key pair locally, then requesting and deploying certificate."@,
{
    "Applying identity, generating ECC key pair locally, then requesting and deploying certificate."
}

pub open spec fn unavailable_text() -> Seq<char> {
    "Sorry, this name is not available. Please try another one."@
}

/// What is shown where a name cannot be had.
pub fn interactive_name_unavailable_message() -> (r: &'static str)
    ensures
        r@ == unavailable_text(),
{
    "Sorry, this name is not available. Please try another one."
}

pub open spec fn registered_text() -> Seq<char> {
    "This new name is yours now."@
}

/// What is shown once an identity was registered.
pub fn new_identity_confirmation_message() -> (r: &'static str)
    ensures
        r@ == registered_text(),
{
    "This new name is yours now."
}

/// The target that the arguments name, where they name one.
pub fn explicit_target_from_command(command: &Apply) -> (r: Result<
    Option<IdentityTarget>,
    ParseIdentityTargetError,
>)
    ensures
        match (command.name, r) {
            (None, r) => r == Ok::<Option<IdentityTarget>, ParseIdentityTargetError>(None),
            (Some(name), Ok(target)) => target is Some && is_parsed(name@, Ok(target->0)),
            (Some(name), Err(error)) => is_parsed(name@, Err(error)),
        },
{
    match &command.name {
        None => Ok(None),
        Some(name) => match IdentityTarget::parse(name) {
            Ok(target) => Ok(Some(target)),
            Err(error) => Err(error),
        },
    }
}

pub open spec fn replaces(local: Option<LocalIdentitySummary>) -> LocalIdentitySave {
    if local is Some {
        LocalIdentitySave::Replace
    } else {
        LocalIdentitySave::New
    }
}

/// What is saved is only replaced with consent where it is worth something.
pub open spec fn needs_consent(local: Option<LocalIdentitySummary>, force: bool) -> bool {
    !force && local is Some && (local->0.status is Ready || local->0.status is Expired)
}

/// How the certificate will be saved, and whether the user has to agree first.
#[derive(Debug, Clone, Copy, PartialEq, Eq, Structural)]
pub struct ReplacementDecision {
    pub save: LocalIdentitySave,
    pub confirm: bool,
}

/// Decides before anything is done whether what is saved may be replaced. Without a terminal
/// only `--force` agrees to that.
pub fn authorize_local_replacement(resolved: &ResolvedApplyTarget, force: bool, interactive: bool) -> (r:
    Result<ReplacementDecision, ApplyError>)
    ensures
        r == (if needs_consent(resolved.local, force) && !interactive {
            Err::<ReplacementDecision, ApplyError>(ApplyError::ForceRequired)
        } else {
            Ok(
                ReplacementDecision {
                    save: replaces(resolved.local),
                    confirm: needs_consent(resolved.local, force),
                },
            )
        }),
{
    let save = if resolved.local.is_some() {
        LocalIdentitySave::Replace
    } else {
        LocalIdentitySave::New
    };
    let local: Option<&LocalIdentitySummary> = match &resolved.local {
        Some(local) => Some(local),
        None => None,
    };
    let confirm = match replacement_requirement(local) {
        ReplacementRequirement::NotNeeded => false,
        ReplacementRequirement::Confirm => !force,
    };
    if confirm && !interactive {
        return Err(ApplyError::ForceRequired);
    }
    Ok(ReplacementDecision { save, confirm })
}

/// How an identity that does not exist is registered after an email login.
#[derive(Debug, Clone, Copy, PartialEq, Eq, Structural)]
pub enum RegistrationWay {
    RootOnTerminal,
    RootWithoutTerminal,
    SubOnTerminal,
    SubWithoutTerminal,
}

pub open spec fn way(level: IdentityLevel, interactive: bool) -> RegistrationWay {
    match (level, interactive) {
        (IdentityLevel::Identity, true) => RegistrationWay::RootOnTerminal,
        (IdentityLevel::Identity, false) => RegistrationWay::RootWithoutTerminal,
        (IdentityLevel::SubIdentity, true) => RegistrationWay::SubOnTerminal,
        (IdentityLevel::SubIdentity, false) => RegistrationWay::SubWithoutTerminal,
    }
}

/// How an identity that does not exist is registered after an email login.
pub fn registration_way(target: &IdentityTarget, interactive: bool) -> (r: RegistrationWay)
    ensures
        r == way(target.level, interactive),
{
    match (target.level(), interactive) {
        (IdentityLevel::Identity, true) => RegistrationWay::RootOnTerminal,
        (IdentityLevel::Identity, false) => RegistrationWay::RootWithoutTerminal,
        (IdentityLevel::SubIdentity, true) => RegistrationWay::SubOnTerminal,
        (IdentityLevel::SubIdentity, false) => RegistrationWay::SubWithoutTerminal,
    }
}

/// A sub-identity that exists already need not be registered.
pub open spec fn sub_identity_exists(reply: Result<(), Error>) -> bool {
    match reply {
        Ok(()) => true,
        Err(Error::Api { code, .. }) => code@ == "subdomain_conflict"@,
        Err(_) => false,
    }
}

/// What the reply to the registration of a sub-identity by its parent means.
pub fn ensure_sub_identity_exists_with_identity(reply: Result<(), Error>) -> (r: Result<
    (),
    Error,
>)
    ensures
        sub_identity_exists(reply) ==> r is Ok,
        !sub_identity_exists(reply) ==> r == reply,
{
    match reply {
        Ok(()) => Ok(()),
        Err(error) => {
            let conflict = match &error {
                Error::Api { code, .. } => same(code, "subdomain_conflict"),
                _ => false,
            };
            if conflict {
                Ok(())
            } else {
                Err(error)
            }
        },
    }
}

pub open spec fn root_fallback_text(target: IdentityTarget) -> Seq<char> {
    "Registering "@ + target.short()
        + " requires email verification.\nFalling back to email verification."@
}

pub open spec fn seat_fallback_text(target: IdentityTarget) -> Seq<char> {
    "Creating "@ + target.short() + " exceeded the sub-identity quota under "@ + (
    match target.parent {
        Some(parent) => parent.partial(),
        None => "<parent>"@,
    }) + ".\nFalling back to email verification."@
}

fn root_fallback_notice(target: &IdentityTarget) -> (r: String)
    requires
        target.wf(),
    ensures
        r@ == root_fallback_text(*target),
{
    proof {
        wf_name_len(target.name);
    }
    let mut r = "Registering ".to_owned();
    r.append(target.short_name());
    r.append(" requires email verification.\nFalling back to email verification.");
    r
}

fn seat_fallback_notice(target: &IdentityTarget) -> (r: String)
    requires
        target.wf(),
    ensures
        r@ == seat_fallback_text(*target),
{
    proof {
        wf_name_len(target.name);
    }
    let mut r = "Creating ".to_owned();
    r.append(target.short_name());
    r.append(" exceeded the sub-identity quota under ");
    match &target.parent {
        Some(parent) => {
            proof {
                wf_name_len(*parent);
            }
            r.append(parent.as_partial());
        },
        None => {
            r.append("<parent>");
        },
    }
    r.append(".\nFalling back to email verification.");
    r
}

/// What the command waits for.
#[derive(Debug, Clone, Copy, PartialEq, Eq, Structural)]
pub enum ApplyPhase {
    AskTarget,
    LoadLocal,
    Inspecting,
    AskReplacement,
    AskKind,
    FindCandidate,
    Preparing,
    EmailSession,
    Issuing,
    IssuingWithIdentity,
    Registering,
    RegisteringWithIdentity,
    Saving,
    Welcome,
    Epilogue,
    Done,
}

/// What came of an action.
#[derive(Debug)]
pub enum ApplyEvent {
    Target(IdentityTarget),
    Local(Option<LocalIdentitySummary>),
    Inspected { local: Option<LocalIdentitySummary>, availability: Result<String, Error> },
    Answer(bool),
    Kind(IdentityKind),
    Candidate(CandidateEvent),
    /// The request for the key that was generated.
    Prepared { csr_pem: String },
    Token(Result<String, EmailSessionError>),
    Issued(Result<CertificateDetail, Error>),
    Registered(Result<(), RegistrationError>),
    SubRegistered(Result<(), Error>),
    Saved,
    WelcomeDone,
    EpilogueDone,
    /// A prompt or an access to this device failed.
    Failed(String),
}

/// What is to be done next.
#[derive(Debug)]
pub enum ApplyAction {
    PromptTarget,
    /// Loads what is saved of the target.
    LoadLocal,
    /// Loads what is saved of the target, and asks the server about its name.
    Inspect { target: IdentityTarget },
    ConfirmReplacement,
    PromptKind,
    /// Looks for the first proof that can be tried, given what the server knows.
    FindCandidate { remote: RemoteTargetState },
    /// Generates the key and the request for a complete name.
    Prepare { domain: String },
    RunEmailSession,
    IssueCert { access_token: String, order: CertificateOrder },
    IssueCertWithIdentity { auth_domain: String, order: CertificateOrder },
    Register { access_token: String, target: IdentityTarget, way: RegistrationWay },
    /// Registers the sub-identity under its parent, which approves.
    RegisterWithIdentity { auth_domain: String, target: IdentityTarget },
    Save { cert_pem: String },
    /// Creates the welcome page of a new identity; for another one there is nothing to do.
    CreateWelcome { new_identity: bool },
    RunEpilogue,
    Finish(Result<(), ApplyError>),
    Nothing,
}

/// An action, and what is shown before it.
#[derive(Debug)]
pub struct ApplyStep {
    pub notice: Option<String>,
    pub action: ApplyAction,
}

#[derive(Debug)]
pub struct ApplyFlow {
    pub interactive: bool,
    pub force: bool,
    /// Whether the run continues a test, and may register a root identity.
    pub continued: bool,
    /// The kind that the arguments name.
    pub given_kind: Option<String>,
    /// The name that the device has at the server.
    pub device_name: String,
    pub target: Option<IdentityTarget>,
    pub remote: RemoteTargetState,
    pub save: LocalIdentitySave,
    pub kind: Option<IdentityKind>,
    pub plan: Option<ApplyApprovalPlan>,
    /// The request for the key that was generated last.
    pub csr_pem: Option<String>,
    pub access_token: Option<String>,
    /// Whether the identity was registered in this run.
    pub registered: bool,
    pub phase: ApplyPhase,
}

impl ApplyFlow {
    pub open spec fn at(self, phase: ApplyPhase) -> ApplyFlow {
        ApplyFlow { phase, ..self }
    }

    pub open spec fn ended(self, result: Result<(), ApplyError>) -> (ApplyFlow, ApplyAction) {
        (self.at(ApplyPhase::Done), ApplyAction::Finish(result))
    }

    /// Once replacing is settled: the kind comes from the arguments or is asked for.
    pub open spec fn settle_kind(self) -> (ApplyFlow, ApplyAction) {
        match self.given_kind {
            None => (self.at(ApplyPhase::AskKind), ApplyAction::PromptKind),
            Some(value) => match kind_named(value@) {
                Some(kind) => (ApplyFlow { kind: Some(kind), ..self }).find_candidate(),
                None => self.ended(Err(ApplyError::InvalidKind { value })),
            },
        }
    }

    pub open spec fn find_candidate(self) -> (ApplyFlow, ApplyAction) {
        (
            self.at(ApplyPhase::FindCandidate),
            ApplyAction::FindCandidate { remote: self.remote },
        )
    }

    /// Once the target is settled: what is saved of it is only replaced with consent.
    pub open spec fn resolved(
        self,
        remote: RemoteTargetState,
        local: Option<LocalIdentitySummary>,
    ) -> (ApplyFlow, ApplyAction) {
        let settled = ApplyFlow { remote, save: replaces(local), ..self };
        if needs_consent(local, self.force) {
            if self.interactive {
                (settled.at(ApplyPhase::AskReplacement), ApplyAction::ConfirmReplacement)
            } else {
                settled.ended(Err(ApplyError::ForceRequired))
            }
        } else {
            settled.settle_kind()
        }
    }

    /// What the certificate is asked for with, once all of it is known.
    pub open spec fn order(self) -> Option<CertificateOrder> {
        order_of(self.target, self.kind, self.device_name, self.csr_pem)
    }

    /// The key is generated for the target.
    pub open spec fn prepare(self) -> (ApplyFlow, ApplyAction) {
        match self.target {
            Some(target) => (
                self.at(ApplyPhase::Preparing),
                ApplyAction::Prepare { domain: target.name.full },
            ),
            None => (self, ApplyAction::Nothing),
        }
    }

    /// The certificate is asked for with a token.
    pub open spec fn issue(self, access_token: String) -> (ApplyFlow, ApplyAction) {
        match self.order() {
            Some(order) => (
                self.at(ApplyPhase::Issuing),
                ApplyAction::IssueCert { access_token, order },
            ),
            None => (self, ApplyAction::Nothing),
        }
    }

    /// The certificate is asked for, and an identity on this device approves.
    pub open spec fn issue_with_identity(self, auth_domain: String) -> (ApplyFlow, ApplyAction) {
        match self.order() {
            Some(order) => (
                self.at(ApplyPhase::IssuingWithIdentity),
                ApplyAction::IssueCertWithIdentity { auth_domain, order },
            ),
            None => (self, ApplyAction::Nothing),
        }
    }

    /// Once the key is generated: email or an identity on this device approves.
    pub open spec fn approve(self) -> (ApplyFlow, ApplyAction) {
        match self.plan {
            Some(ApplyApprovalPlan::Email) => (
                self.at(ApplyPhase::EmailSession),
                ApplyAction::RunEmailSession,
            ),
            Some(ApplyApprovalPlan::DirectIdentity { auth_domain }) => self.issue_with_identity(
                auth_domain,
            ),
            None => (self, ApplyAction::Nothing),
        }
    }

    /// Email approves instead of the identity; the key is generated anew.
    pub open spec fn fall_back_to_email(self) -> (ApplyFlow, ApplyAction) {
        (ApplyFlow { plan: Some(ApplyApprovalPlan::Email), ..self }).prepare()
    }

    /// After a name was looked up online: one that cannot be had is asked for again.
    pub open spec fn inspected(
        self,
        local: Option<LocalIdentitySummary>,
        availability: Result<String, Error>,
    ) -> (ApplyFlow, ApplyAction) {
        match availability {
            Err(error) => if error.code() == Some("domain_invalid"@) {
                (self.at(ApplyPhase::AskTarget), ApplyAction::PromptTarget)
            } else {
                self.ended(Err(ApplyError::Server(error)))
            },
            Ok(availability) => match availability_state(availability@) {
                None => self.ended(Err(ApplyError::UnsupportedAvailability { availability })),
                Some(RemoteTargetState::Unavailable) => (
                    self.at(ApplyPhase::AskTarget),
                    ApplyAction::PromptTarget,
                ),
                Some(remote) => self.resolved(remote, local),
            },
        }
    }

    /// After an identity approved and the target does not exist.
    pub open spec fn missing_with_identity(self, target: IdentityTarget, auth_domain: String) -> (
        ApplyFlow,
        ApplyAction,
    ) {
        if missing_action(target.level, self.continued) == MissingTargetAction::Reject {
            self.ended(Err(ApplyError::MissingRoot { target }))
        } else if target.level == IdentityLevel::SubIdentity {
            (
                self.at(ApplyPhase::RegisteringWithIdentity),
                ApplyAction::RegisterWithIdentity { auth_domain, target },
            )
        } else if self.interactive {
            self.fall_back_to_email()
        } else {
            self.ended(Err(ApplyError::NeedsInteractiveEmail { target }))
        }
    }

    /// What follows until the approval starts.
    pub open spec fn after_settling(self, event: ApplyEvent) -> (ApplyFlow, ApplyAction) {
        match (self.phase, event) {
            (ApplyPhase::AskTarget, ApplyEvent::Target(target)) => (
                (ApplyFlow { target: Some(target), ..self }).at(ApplyPhase::Inspecting),
                ApplyAction::Inspect { target },
            ),
            (ApplyPhase::LoadLocal, ApplyEvent::Local(local)) => self.resolved(
                RemoteTargetState::Unknown,
                local,
            ),
            (ApplyPhase::Inspecting, ApplyEvent::Inspected { local, availability }) => self.inspected(
                local,
                availability,
            ),
            (ApplyPhase::AskReplacement, ApplyEvent::Answer(yes)) => if yes {
                self.settle_kind()
            } else {
                self.ended(Err(ApplyError::Cancelled))
            },
            (ApplyPhase::AskKind, ApplyEvent::Kind(kind)) => (ApplyFlow {
                kind: Some(kind),
                ..self
            }).find_candidate(),
            (ApplyPhase::FindCandidate, ApplyEvent::Candidate(candidate)) => match candidate_plan(
                candidate,
            ) {
                Ok(plan) => (ApplyFlow { plan: Some(plan), ..self }).prepare(),
                Err(error) => self.ended(Err(error)),
            },
            (ApplyPhase::Preparing, ApplyEvent::Prepared { csr_pem }) => (ApplyFlow {
                csr_pem: Some(csr_pem),
                ..self
            }).approve(),
            (_, _) => (self, ApplyAction::Nothing),
        }
    }

    /// What follows while the certificate is requested and saved.
    pub open spec fn after_approving(self, event: ApplyEvent) -> (ApplyFlow, ApplyAction) {
        match (self.phase, self.target, event) {
            (ApplyPhase::EmailSession, _, ApplyEvent::Token(Ok(access_token))) => (ApplyFlow {
                access_token: Some(access_token),
                ..self
            }).issue(access_token),
            (ApplyPhase::EmailSession, _, ApplyEvent::Token(Err(error))) => self.ended(
                Err(ApplyError::Email(error)),
            ),
            (ApplyPhase::Issuing, _, ApplyEvent::Issued(Ok(detail)))
            | (ApplyPhase::IssuingWithIdentity, _, ApplyEvent::Issued(Ok(detail))) => (
                self.at(ApplyPhase::Saving),
                ApplyAction::Save { cert_pem: detail.cert_pem },
            ),
            (ApplyPhase::Issuing, Some(target), ApplyEvent::Issued(Err(error))) => match (
                !self.registered && is_missing(error),
                self.access_token,
            ) {
                (true, Some(access_token)) => if missing_action(target.level, self.continued)
                    == MissingTargetAction::Reject {
                    self.ended(Err(ApplyError::MissingRoot { target }))
                } else {
                    (
                        self.at(ApplyPhase::Registering),
                        ApplyAction::Register {
                            access_token,
                            target,
                            way: way(target.level, self.interactive),
                        },
                    )
                },
                (_, _) => self.ended(Err(ApplyError::Server(error))),
            },
            (ApplyPhase::IssuingWithIdentity, Some(target), ApplyEvent::Issued(Err(error))) => match (
                !self.registered && is_missing(error),
                self.plan,
            ) {
                (true, Some(ApplyApprovalPlan::DirectIdentity { auth_domain })) => self.missing_with_identity(
                    target,
                    auth_domain,
                ),
                (_, _) => self.ended(Err(ApplyError::Server(error))),
            },
            (ApplyPhase::Registering, _, ApplyEvent::Registered(Ok(()))) => match self.access_token {
                Some(access_token) => (ApplyFlow { registered: true, ..self }).issue(access_token),
                None => (self, ApplyAction::Nothing),
            },
            (ApplyPhase::Registering, _, ApplyEvent::Registered(Err(error))) => self.ended(
                Err(ApplyError::Registration(error)),
            ),
            (ApplyPhase::RegisteringWithIdentity, _, ApplyEvent::SubRegistered(reply)) => if sub_identity_exists(
            reply) {
                match self.plan {
                    Some(ApplyApprovalPlan::DirectIdentity { auth_domain }) => (ApplyFlow {
                        registered: true,
                        ..self
                    }).issue_with_identity(auth_domain),
                    _ => (self, ApplyAction::Nothing),
                }
            } else if self.interactive && reply->Err_0.code() == Some("subdomain_quota_exceeded"@) {
                self.fall_back_to_email()
            } else {
                self.ended(Err(ApplyError::Server(reply->Err_0)))
            },
            (ApplyPhase::Saving, _, ApplyEvent::Saved) => (
                self.at(ApplyPhase::Welcome),
                ApplyAction::CreateWelcome { new_identity: self.save == LocalIdentitySave::New },
            ),
            (ApplyPhase::Welcome, _, ApplyEvent::WelcomeDone) => (
                self.at(ApplyPhase::Epilogue),
                ApplyAction::RunEpilogue,
            ),
            (ApplyPhase::Epilogue, _, ApplyEvent::EpilogueDone) => self.ended(Ok(())),
            (_, _, _) => (self, ApplyAction::Nothing),
        }
    }

    /// Whether the approval has not started.
    pub open spec fn settling(self) -> bool {
        match self.phase {
            ApplyPhase::AskTarget
            | ApplyPhase::LoadLocal
            | ApplyPhase::Inspecting
            | ApplyPhase::AskReplacement
            | ApplyPhase::AskKind
            | ApplyPhase::FindCandidate
            | ApplyPhase::Preparing => true,
            _ => false,
        }
    }

    /// The command after an event, and the action that follows. An event that the command does
    /// not wait for changes nothing.
    pub open spec fn after(self, event: ApplyEvent) -> (ApplyFlow, ApplyAction) {
        match (self.phase, event) {
            (ApplyPhase::Done, _) => (self, ApplyAction::Nothing),
            (_, ApplyEvent::Failed(message)) => self.ended(Err(ApplyError::Step(message))),
            (_, event) => if self.settling() {
                self.after_settling(event)
            } else {
                self.after_approving(event)
            },
        }
    }

    /// What is shown after an event.
    pub open spec fn notice_after(self, event: ApplyEvent) -> Option<Seq<char>> {
        match (self.phase, self.target, event) {
            (ApplyPhase::Inspecting, _, ApplyEvent::Inspected { availability: Err(error), .. }) => if error.code()
                == Some("domain_invalid"@) {
                Some(unavailable_text())
            } else {
                None
            },
            (ApplyPhase::Inspecting, _, ApplyEvent::Inspected { availability: Ok(name), .. }) => if availability_state(
            name@) == Some(RemoteTargetState::Unavailable) {
                Some(unavailable_text())
            } else {
                None
            },
            (ApplyPhase::IssuingWithIdentity, Some(target), ApplyEvent::Issued(Err(error))) => if !self.registered
                && is_missing(error) && (self.plan matches Some(
                ApplyApprovalPlan::DirectIdentity { .. },
            )) && missing_action(target.level, self.continued) == MissingTargetAction::Register
                && target.level == IdentityLevel::Identity && self.interactive {
                Some(root_fallback_text(target))
            } else {
                None
            },
            (ApplyPhase::Registering, _, ApplyEvent::Registered(Ok(()))) => if self.access_token
                is Some {
                Some(registered_text())
            } else {
                None
            },
            (ApplyPhase::RegisteringWithIdentity, Some(target), ApplyEvent::SubRegistered(reply)) => if sub_identity_exists(
            reply) {
                if self.plan matches Some(ApplyApprovalPlan::DirectIdentity { .. }) {
                    Some(registered_text())
                } else {
                    None
                }
            } else if self.interactive && reply->Err_0.code() == Some("subdomain_quota_exceeded"@) {
                Some(seat_fallback_text(target))
            } else {
                None
            },
            (_, _, _) => None,
        }
    }

    /// What holds between events: the target is known once it was asked for, and what approves
    /// and what the certificate is asked for with are known while it is requested.
    pub open spec fn wf(self) -> bool {
        &&& (self.target matches Some(target) ==> target.wf())
        &&& match self.phase {
            ApplyPhase::AskTarget => self.interactive,
            ApplyPhase::Done => true,
            ApplyPhase::LoadLocal => self.target is Some,
            ApplyPhase::Inspecting | ApplyPhase::AskReplacement => self.target is Some
                && self.interactive,
            ApplyPhase::AskKind => self.target is Some,
            ApplyPhase::FindCandidate => self.target is Some && self.kind is Some,
            ApplyPhase::Preparing | ApplyPhase::Saving | ApplyPhase::Welcome
            | ApplyPhase::Epilogue => self.target is Some && self.kind is Some && self.plan is Some,
            ApplyPhase::EmailSession => self.order() is Some && self.plan == Some(
                ApplyApprovalPlan::Email,
            ),
            ApplyPhase::Issuing | ApplyPhase::Registering => self.order() is Some && self.plan
                == Some(ApplyApprovalPlan::Email) && self.access_token is Some,
            ApplyPhase::IssuingWithIdentity | ApplyPhase::RegisteringWithIdentity => self.order()
                is Some && self.plan matches Some(ApplyApprovalPlan::DirectIdentity { .. }),
        }
    }

    /// Starts the command. Without a terminal the arguments have to name the identity.
    pub fn start(
        command: &Apply,
        target: Option<IdentityTarget>,
        device_name: String,
        interactive: bool,
    ) -> (r: (ApplyFlow, ApplyAction))
        requires
            target matches Some(target) ==> target.wf(),
        ensures
            r.0.wf(),
            ({
                let blank = ApplyFlow {
                    interactive,
                    force: command.force,
                    continued: command.verify_code is Some,
                    given_kind: command.kind,
                    device_name,
                    target,
                    remote: RemoteTargetState::Unknown,
                    save: LocalIdentitySave::New,
                    kind: None,
                    plan: None,
                    csr_pem: None,
                    access_token: None,
                    registered: false,
                    phase: ApplyPhase::AskTarget,
                };
                r == (if target is Some {
                    (blank.at(ApplyPhase::LoadLocal), ApplyAction::LoadLocal)
                } else if interactive {
                    (blank, ApplyAction::PromptTarget)
                } else {
                    blank.ended(Err(ApplyError::NameRequired))
                })
            }),
    {
        let named = target.is_some();
        let mut flow = ApplyFlow {
            interactive,
            force: command.force,
            continued: private_test_root_registration(command),
            given_kind: copy_opt(&command.kind),
            device_name,
            target,
            remote: RemoteTargetState::Unknown,
            save: LocalIdentitySave::New,
            kind: None,
            plan: None,
            csr_pem: None,
            access_token: None,
            registered: false,
            phase: ApplyPhase::AskTarget,
        };
        if named {
            flow.phase = ApplyPhase::LoadLocal;
            (flow, ApplyAction::LoadLocal)
        } else if interactive {
            (flow, ApplyAction::PromptTarget)
        } else {
            let action = flow.end(Err(ApplyError::NameRequired));
            (flow, action)
        }
    }

    fn end(&mut self, result: Result<(), ApplyError>) -> (r: ApplyAction)
        ensures
            (*final(self), r) == old(self).ended(result),
    {
        self.phase = ApplyPhase::Done;
        ApplyAction::Finish(result)
    }

    fn search(&mut self) -> (r: ApplyAction)
        ensures
            (*final(self), r) == old(self).find_candidate(),
    {
        self.phase = ApplyPhase::FindCandidate;
        ApplyAction::FindCandidate { remote: self.remote }
    }

    fn take_kind(&mut self) -> (r: ApplyAction)
        ensures
            (*final(self), r) == old(self).settle_kind(),
    {
        match copy_opt(&self.given_kind) {
            None => {
                self.phase = ApplyPhase::AskKind;
                ApplyAction::PromptKind
            },
            Some(value) => match IdentityKind::named(&value) {
                Some(kind) => {
                    self.kind = Some(kind);
                    self.search()
                },
                None => self.end(Err(ApplyError::InvalidKind { value })),
            },
        }
    }

    fn resolve(&mut self, remote: RemoteTargetState, local: Option<LocalIdentitySummary>) -> (r:
        ApplyAction)
        ensures
            (*final(self), r) == old(self).resolved(remote, local),
    {
        self.remote = remote;
        self.save = if local.is_some() {
            LocalIdentitySave::Replace
        } else {
            LocalIdentitySave::New
        };
        let saved: Option<&LocalIdentitySummary> = match &local {
            Some(local) => Some(local),
            None => None,
        };
        let confirm = match replacement_requirement(saved) {
            ReplacementRequirement::NotNeeded => false,
            ReplacementRequirement::Confirm => !self.force,
        };
        if !confirm {
            self.take_kind()
        } else if self.interactive {
            self.phase = ApplyPhase::AskReplacement;
            ApplyAction::ConfirmReplacement
        } else {
            self.end(Err(ApplyError::ForceRequired))
        }
    }

    fn order_now(&self) -> (r: Option<CertificateOrder>)
        ensures
            r == self.order(),
    {
        make_order(&self.target, self.kind, &self.device_name, &self.csr_pem)
    }

    fn prepare_now(&mut self) -> (r: ApplyAction)
        ensures
            (*final(self), r) == old(self).prepare(),
    {
        let domain = match &self.target {
            Some(target) => Some(target.name.full.clone()),
            None => None,
        };
        match domain {
            Some(domain) => {
                self.phase = ApplyPhase::Preparing;
                ApplyAction::Prepare { domain }
            },
            None => ApplyAction::Nothing,
        }
    }

    fn issue_now(&mut self, access_token: String) -> (r: ApplyAction)
        ensures
            (*final(self), r) == old(self).issue(access_token),
    {
        match self.order_now() {
            Some(order) => {
                self.phase = ApplyPhase::Issuing;
                ApplyAction::IssueCert { access_token, order }
            },
            None => ApplyAction::Nothing,
        }
    }

    fn issue_with_identity_now(&mut self, auth_domain: String) -> (r: ApplyAction)
        ensures
            (*final(self), r) == old(self).issue_with_identity(auth_domain),
    {
        match self.order_now() {
            Some(order) => {
                self.phase = ApplyPhase::IssuingWithIdentity;
                ApplyAction::IssueCertWithIdentity { auth_domain, order }
            },
            None => ApplyAction::Nothing,
        }
    }

    fn fall_back(&mut self) -> (r: ApplyAction)
        ensures
            (*final(self), r) == old(self).fall_back_to_email(),
    {
        self.plan = Some(ApplyApprovalPlan::Email);
        self.prepare_now()
    }

    fn inspect(
        &mut self,
        local: Option<LocalIdentitySummary>,
        availability: Result<String, Error>,
    ) -> (r: ApplyStep)
        requires
            old(self).phase == ApplyPhase::Inspecting,
        ensures
            (*final(self), r.action) == old(self).inspected(local, availability),
            opt_view(r.notice) == old(self).notice_after(
                ApplyEvent::Inspected { local, availability },
            ),
    {
        match availability {
            Err(error) => if error.is_api_code("domain_invalid") {
                self.phase = ApplyPhase::AskTarget;
                ApplyStep {
                    notice: Some(interactive_name_unavailable_message().to_owned()),
                    action: ApplyAction::PromptTarget,
                }
            } else {
                ApplyStep { notice: None, action: self.end(Err(ApplyError::Server(error))) }
            },
            Ok(availability) => match remote_state_from_availability(&availability) {
                Err(_) => ApplyStep {
                    notice: None,
                    action: self.end(Err(ApplyError::UnsupportedAvailability { availability })),
                },
                Ok(RemoteTargetState::Unavailable) => {
                    self.phase = ApplyPhase::AskTarget;
                    ApplyStep {
                        notice: Some(interactive_name_unavailable_message().to_owned()),
                        action: ApplyAction::PromptTarget,
                    }
                },
                Ok(remote) => ApplyStep { notice: None, action: self.resolve(remote, local) },
            },
        }
    }

    fn approve_now(&mut self) -> (r: ApplyAction)
        ensures
            (*final(self), r) == old(self).approve(),
    {
        let domain: Option<Option<String>> = match &self.plan {
            Some(ApplyApprovalPlan::Email) => Some(None),
            Some(ApplyApprovalPlan::DirectIdentity { auth_domain }) => Some(
                Some(auth_domain.clone()),
            ),
            None => None,
        };
        match domain {
            Some(None) => {
                self.phase = ApplyPhase::EmailSession;
                ApplyAction::RunEmailSession
            },
            Some(Some(auth_domain)) => self.issue_with_identity_now(auth_domain),
            None => ApplyAction::Nothing,
        }
    }

    fn settle_event(&mut self, event: ApplyEvent) -> (r: ApplyStep)
        requires
            old(self).wf(),
            old(self).settling(),
            event matches ApplyEvent::Target(target) ==> target.wf(),
            event matches ApplyEvent::Candidate(candidate) ==> candidate !is Warning,
        ensures
            (*final(self), r.action) == old(self).after_settling(event),
            opt_view(r.notice) == old(self).notice_after(event),
    {
        let action = match (self.phase, event) {
            (ApplyPhase::AskTarget, ApplyEvent::Target(target)) => {
                self.target = Some(target.copy());
                self.phase = ApplyPhase::Inspecting;
                ApplyAction::Inspect { target }
            },
            (ApplyPhase::LoadLocal, ApplyEvent::Local(local)) => self.resolve(
                RemoteTargetState::Unknown,
                local,
            ),
            (ApplyPhase::Inspecting, ApplyEvent::Inspected { local, availability }) => {
                return self.inspect(local, availability);
            },
            (ApplyPhase::AskReplacement, ApplyEvent::Answer(yes)) => if yes {
                self.take_kind()
            } else {
                self.end(Err(ApplyError::Cancelled))
            },
            (ApplyPhase::AskKind, ApplyEvent::Kind(kind)) => {
                self.kind = Some(kind);
                self.search()
            },
            (ApplyPhase::FindCandidate, ApplyEvent::Candidate(candidate)) => match approval_plan_from_candidate(
                candidate,
            ) {
                Ok(plan) => {
                    self.plan = Some(plan);
                    self.prepare_now()
                },
                Err(error) => self.end(Err(error)),
            },
            (ApplyPhase::Preparing, ApplyEvent::Prepared { csr_pem }) => {
                self.csr_pem = Some(csr_pem);
                self.approve_now()
            },
            (_, _) => ApplyAction::Nothing,
        };
        ApplyStep { notice: None, action }
    }

    fn missing(&mut self, target: &IdentityTarget, auth_domain: String) -> (r: ApplyStep)
        requires
            target.wf(),
        ensures
            (*final(self), r.action) == old(self).missing_with_identity(*target, auth_domain),
            opt_view(r.notice) == (if missing_action(target.level, old(self).continued)
                == MissingTargetAction::Register && target.level == IdentityLevel::Identity && old(
                self,
            ).interactive {
                Some(root_fallback_text(*target))
            } else {
                None
            }),
    {
        match missing_target_action(target, self.continued) {
            MissingTargetAction::Reject => ApplyStep {
                notice: None,
                action: self.end(Err(missing_root_target_error(target))),
            },
            MissingTargetAction::Register => match target.level() {
                IdentityLevel::SubIdentity => {
                    self.phase = ApplyPhase::RegisteringWithIdentity;
                    ApplyStep {
                        notice: None,
                        action: ApplyAction::RegisterWithIdentity {
                            auth_domain,
                            target: target.copy(),
                        },
                    }
                },
                IdentityLevel::Identity => if self.interactive {
                    ApplyStep {
                        notice: Some(root_fallback_notice(target)),
                        action: self.fall_back(),
                    }
                } else {
                    ApplyStep {
                        notice: None,
                        action: self.end(
                            Err(ApplyError::NeedsInteractiveEmail { target: target.copy() }),
                        ),
                    }
                },
            },
        }
    }

    fn refused_issue(&mut self, target: &IdentityTarget, error: Error) -> (r: ApplyStep)
        requires
            target.wf(),
            old(self).target == Some(*target),
            old(self).phase == ApplyPhase::Issuing || old(self).phase
                == ApplyPhase::IssuingWithIdentity,
        ensures
            (*final(self), r.action) == old(self).after_approving(ApplyEvent::Issued(Err(error))),
            opt_view(r.notice) == old(self).notice_after(ApplyEvent::Issued(Err(error))),
    {
        if self.registered || !is_domain_not_found(&error) {
            return ApplyStep { notice: None, action: self.end(Err(ApplyError::Server(error))) };
        }
        match self.phase {
            ApplyPhase::Issuing => match copy_opt(&self.access_token) {
                None => ApplyStep { notice: None, action: self.end(Err(ApplyError::Server(error))) },
                Some(access_token) => match missing_target_action(target, self.continued) {
                    MissingTargetAction::Reject => ApplyStep {
                        notice: None,
                        action: self.end(Err(missing_root_target_error(target))),
                    },
                    MissingTargetAction::Register => {
                        self.phase = ApplyPhase::Registering;
                        ApplyStep {
                            notice: None,
                            action: ApplyAction::Register {
                                access_token,
                                target: target.copy(),
                                way: registration_way(target, self.interactive),
                            },
                        }
                    },
                },
            },
            _ => {
                let domain = match &self.plan {
                    Some(ApplyApprovalPlan::DirectIdentity { auth_domain }) => Some(
                        auth_domain.clone(),
                    ),
                    _ => None,
                };
                match domain {
                    Some(auth_domain) => self.missing(target, auth_domain),
                    None => ApplyStep {
                        notice: None,
                        action: self.end(Err(ApplyError::Server(error))),
                    },
                }
            },
        }
    }

    fn sub_registered(&mut self, target: &IdentityTarget, reply: Result<(), Error>) -> (r:
        ApplyStep)
        requires
            target.wf(),
            old(self).target == Some(*target),
            old(self).phase == ApplyPhase::RegisteringWithIdentity,
        ensures
            (*final(self), r.action) == old(self).after_approving(ApplyEvent::SubRegistered(reply)),
            opt_view(r.notice) == old(self).notice_after(ApplyEvent::SubRegistered(reply)),
    {
        match ensure_sub_identity_exists_with_identity(reply) {
            Ok(()) => {
                let domain = match &self.plan {
                    Some(ApplyApprovalPlan::DirectIdentity { auth_domain }) => Some(
                        auth_domain.clone(),
                    ),
                    _ => None,
                };
                match domain {
                    Some(auth_domain) => {
                        self.registered = true;
                        ApplyStep {
                            notice: Some(new_identity_confirmation_message().to_owned()),
                            action: self.issue_with_identity_now(auth_domain),
                        }
                    },
                    None => ApplyStep { notice: None, action: ApplyAction::Nothing },
                }
            },
            Err(error) => if self.interactive && is_subdomain_quota_exceeded(&error) {
                ApplyStep { notice: Some(seat_fallback_notice(target)), action: self.fall_back() }
            } else {
                ApplyStep { notice: None, action: self.end(Err(ApplyError::Server(error))) }
            },
        }
    }

    fn approve_event(&mut self, target: Option<IdentityTarget>, event: ApplyEvent) -> (r:
        ApplyStep)
        requires
            old(self).target == target,
            target matches Some(target) ==> target.wf(),
            !old(self).settling(),
            event !is Failed,
            old(self).phase == ApplyPhase::RegisteringWithIdentity ==> target is Some,
        ensures
            (*final(self), r.action) == old(self).after_approving(event),
            opt_view(r.notice) == old(self).notice_after(event),
    {
        let action = match (self.phase, target, event) {
            (ApplyPhase::EmailSession, _, ApplyEvent::Token(Ok(access_token))) => {
                self.access_token = Some(access_token.clone());
                self.issue_now(access_token)
            },
            (ApplyPhase::EmailSession, _, ApplyEvent::Token(Err(error))) => self.end(
                Err(ApplyError::Email(error)),
            ),
            (ApplyPhase::Issuing, _, ApplyEvent::Issued(Ok(detail))) => {
                self.phase = ApplyPhase::Saving;
                ApplyAction::Save { cert_pem: detail.cert_pem }
            },
            (ApplyPhase::IssuingWithIdentity, _, ApplyEvent::Issued(Ok(detail))) => {
                self.phase = ApplyPhase::Saving;
                ApplyAction::Save { cert_pem: detail.cert_pem }
            },
            (ApplyPhase::Issuing, Some(target), ApplyEvent::Issued(Err(error))) => {
                return self.refused_issue(&target, error);
            },
            (ApplyPhase::IssuingWithIdentity, Some(target), ApplyEvent::Issued(Err(error))) => {
                return self.refused_issue(&target, error);
            },
            (ApplyPhase::Registering, _, ApplyEvent::Registered(Ok(()))) => match copy_opt(
                &self.access_token,
            ) {
                Some(access_token) => {
                    self.registered = true;
                    return ApplyStep {
                        notice: Some(new_identity_confirmation_message().to_owned()),
                        action: self.issue_now(access_token),
                    };
                },
                None => ApplyAction::Nothing,
            },
            (ApplyPhase::Registering, _, ApplyEvent::Registered(Err(error))) => self.end(
                Err(preserve_apply_registration_error(error)),
            ),
            (ApplyPhase::RegisteringWithIdentity, Some(target), ApplyEvent::SubRegistered(reply)) => {
                return self.sub_registered(&target, reply);
            },
            (ApplyPhase::Saving, _, ApplyEvent::Saved) => {
                self.phase = ApplyPhase::Welcome;
                ApplyAction::CreateWelcome { new_identity: self.save.created_new_identity() }
            },
            (ApplyPhase::Welcome, _, ApplyEvent::WelcomeDone) => {
                self.phase = ApplyPhase::Epilogue;
                ApplyAction::RunEpilogue
            },
            (ApplyPhase::Epilogue, _, ApplyEvent::EpilogueDone) => self.end(Ok(())),
            (_, _, _) => ApplyAction::Nothing,
        };
        ApplyStep { notice: None, action }
    }

    /// Takes an event and gives the step that follows.
    pub fn next(&mut self, event: ApplyEvent) -> (r: ApplyStep)
        requires
            old(self).wf(),
            event matches ApplyEvent::Target(target) ==> target.wf(),
            event matches ApplyEvent::Candidate(candidate) ==> candidate !is Warning,
        ensures
            (*final(self), r.action) == old(self).after(event),
            opt_view(r.notice) == (if event is Failed {
                None
            } else {
                old(self).notice_after(event)
            }),
    {
        let target = match &self.target {
            Some(target) => Some(target.copy()),
            None => None,
        };
        match (self.phase, event) {
            (ApplyPhase::Done, _) => ApplyStep { notice: None, action: ApplyAction::Nothing },
            (_, ApplyEvent::Failed(message)) => ApplyStep {
                notice: None,
                action: self.end(Err(ApplyError::Step(message))),
            },
            (ApplyPhase::AskTarget, event) => self.settle_event(event),
            (ApplyPhase::LoadLocal, event) => self.settle_event(event),
            (ApplyPhase::Inspecting, event) => self.settle_event(event),
            (ApplyPhase::AskReplacement, event) => self.settle_event(event),
            (ApplyPhase::AskKind, event) => self.settle_event(event),
            (ApplyPhase::FindCandidate, event) => self.settle_event(event),
            (ApplyPhase::Preparing, event) => self.settle_event(event),
            (_, event) => self.approve_event(target, event),
        }
    }
}

proof fn settling_keeps_wf(flow: ApplyFlow, event: ApplyEvent)
    requires
        flow.wf(),
        flow.settling(),
        event matches ApplyEvent::Target(target) ==> target.wf(),
    ensures
        flow.after_settling(event).0.wf(),
{
}

proof fn approving_keeps_wf(flow: ApplyFlow, event: ApplyEvent)
    requires
        flow.wf(),
        !flow.settling(),
    ensures
        flow.after_approving(event).0.wf(),
{
}

/// Every event keeps what holds of the command.
pub proof fn apply_stays_well_formed(flow: ApplyFlow, event: ApplyEvent)
    requires
        flow.wf(),
        event matches ApplyEvent::Target(target) ==> target.wf(),
    ensures
        flow.after(event).0.wf(),
{
    if flow.settling() {
        settling_keeps_wf(flow, event);
    } else {
        approving_keeps_wf(flow, event);
    }
}

/// Nothing is generated, requested or registered before the replacement of what is saved is
/// settled: from the event that tells what is saved, a certificate worth keeping leads to the
/// question, or without a terminal to the end.
pub proof fn replacement_is_settled_first(flow: ApplyFlow, local: Option<LocalIdentitySummary>)
    requires
        flow.wf(),
        flow.phase == ApplyPhase::LoadLocal,
        needs_consent(local, flow.force),
    ensures
        flow.after(ApplyEvent::Local(local)).1 == (if flow.interactive {
            ApplyAction::ConfirmReplacement
        } else {
            ApplyAction::Finish(Err(ApplyError::ForceRequired))
        }),
{
}

/// A certificate is asked for with the complete name and the kind that were settled, under the
/// name that the device had from the start, and with the request of the key that was generated
/// last; what is generated and registered is for the settled target.
pub proof fn orders_name_what_was_settled(flow: ApplyFlow, event: ApplyEvent)
    requires
        flow.wf(),
    ensures
        flow.after(event).0.device_name == flow.device_name,
        flow.after(event).0.csr_pem == (match (flow.phase, event) {
            (ApplyPhase::Preparing, ApplyEvent::Prepared { csr_pem }) => Some(csr_pem),
            (_, _) => flow.csr_pem,
        }),
        flow.after(event).1 matches ApplyAction::IssueCert { access_token, order } ==> flow.after(
            event,
        ).0.order() == Some(order) && flow.after(event).0.access_token == Some(access_token),
        flow.after(event).1 matches ApplyAction::IssueCertWithIdentity { auth_domain, order }
            ==> flow.after(event).0.order() == Some(order) && flow.after(event).0.plan == Some(
            ApplyApprovalPlan::DirectIdentity { auth_domain },
        ),
        flow.after(event).1 matches ApplyAction::Prepare { domain } ==> flow.target is Some
            && domain == flow.target->0.name.full,
        flow.after(event).1 matches ApplyAction::Register { target, .. } ==> flow.target == Some(
            target,
        ),
        flow.after(event).1 matches ApplyAction::RegisterWithIdentity { target, .. }
            ==> flow.target == Some(target),
{
}

/// A root identity is never registered but in a continued test run.
pub proof fn roots_are_registered_only_in_tests(flow: ApplyFlow, event: ApplyEvent)
    requires
        flow.wf(),
        flow.target is Some,
        flow.target->0.level == IdentityLevel::Identity,
        !flow.continued,
        !flow.settling(),
        event !is Failed,
    ensures
        flow.after(event).1 !is Register,
        flow.phase != ApplyPhase::RegisteringWithIdentity ==> flow.after(event).1
            !is RegisterWithIdentity,
{
}

/// The certificate is requested at most once more after a registration: a second refusal ends
/// the command.
pub proof fn registration_is_tried_once(flow: ApplyFlow, error: Error)
    requires
        flow.wf(),
        flow.registered,
        flow.phase == ApplyPhase::Issuing || flow.phase == ApplyPhase::IssuingWithIdentity,
    ensures
        flow.after(ApplyEvent::Issued(Err(error))).1 == ApplyAction::Finish(
            Err(ApplyError::Server(error)),
        ),
{
}

/// What is saved is the certificate that the server has just issued, whoever approved; nothing
/// else is ever saved.
pub proof fn issued_certificates_are_saved(flow: ApplyFlow, event: ApplyEvent)
    ensures
        (flow.phase == ApplyPhase::Issuing || flow.phase == ApplyPhase::IssuingWithIdentity) ==> (
        event matches ApplyEvent::Issued(Ok(detail)) ==> flow.after(event).1 == (
        ApplyAction::Save { cert_pem: detail.cert_pem }) && flow.after(event).0.phase
            == ApplyPhase::Saving),
        flow.after(event).1 matches ApplyAction::Save { cert_pem } ==> (flow.phase
            == ApplyPhase::Issuing || flow.phase == ApplyPhase::IssuingWithIdentity) && (
        event matches ApplyEvent::Issued(Ok(detail)) && cert_pem == detail.cert_pem),
{
}

/// Behind the save come the welcome page, the last questions and the end, in this order.
pub proof fn success_follows_the_save(flow: ApplyFlow, event: ApplyEvent)
    ensures
        flow.phase == ApplyPhase::Saving && event is Saved ==> flow.after(event).1 == (
        ApplyAction::CreateWelcome { new_identity: flow.save == LocalIdentitySave::New })
            && flow.after(event).0.phase == ApplyPhase::Welcome,
        flow.phase == ApplyPhase::Welcome && event is WelcomeDone ==> flow.after(event).1
            is RunEpilogue && flow.after(event).0.phase == ApplyPhase::Epilogue,
        flow.phase == ApplyPhase::Epilogue && event is EpilogueDone ==> (flow.after(
            event,
        ).1 matches ApplyAction::Finish(Ok(()))),
{
}

proof fn settling_ends_nothing(flow: ApplyFlow, event: ApplyEvent)
    ensures
        !(flow.after_settling(event).1 is CreateWelcome),
        !(flow.after_settling(event).1 is RunEpilogue),
        !(flow.after_settling(event).1 matches ApplyAction::Finish(Ok(()))),
{
}

proof fn approving_ends_last(flow: ApplyFlow, event: ApplyEvent)
    ensures
        flow.after_approving(event).1 is CreateWelcome ==> flow.phase == ApplyPhase::Saving && event
            is Saved,
        flow.after_approving(event).1 is RunEpilogue ==> flow.phase == ApplyPhase::Welcome && event
            is WelcomeDone,
{
}

proof fn approving_succeeds_last(flow: ApplyFlow, event: ApplyEvent)
    ensures
        flow.after_approving(event).1 matches ApplyAction::Finish(Ok(())) ==> flow.phase
            == ApplyPhase::Epilogue && event is EpilogueDone,
{
}

/// The welcome page and the last questions come only behind the save, and the command succeeds
/// only behind the last questions.
pub proof fn success_follows_the_last_questions(flow: ApplyFlow, event: ApplyEvent)
    ensures
        flow.after(event).1 is CreateWelcome ==> flow.phase == ApplyPhase::Saving && event is Saved,
        flow.after(event).1 is RunEpilogue ==> flow.phase == ApplyPhase::Welcome && event
            is WelcomeDone,
        flow.after(event).1 matches ApplyAction::Finish(Ok(())) ==> flow.phase
            == ApplyPhase::Epilogue && event is EpilogueDone,
{
    if flow.phase != ApplyPhase::Done && !(event is Failed) {
        if flow.settling() {
            settling_ends_nothing(flow, event);
        } else {
            approving_ends_last(flow, event);
            approving_succeeds_last(flow, event);
        }
    }
}

/// The phases behind the issue are reached one after the other only.
pub proof fn the_end_is_reached_step_by_step(flow: ApplyFlow, event: ApplyEvent)
    requires
        flow.wf(),
    ensures
        flow.after(event).0.phase == ApplyPhase::Epilogue ==> flow.phase == ApplyPhase::Epilogue
            || flow.phase == ApplyPhase::Welcome,
        flow.after(event).0.phase == ApplyPhase::Welcome ==> flow.phase == ApplyPhase::Welcome
            || flow.phase == ApplyPhase::Saving,
        flow.after(event).0.phase == ApplyPhase::Saving ==> flow.phase == ApplyPhase::Saving || (
        event matches ApplyEvent::Issued(Ok(_))),
{
}

/// A certificate is asked for with a token only behind the email session that gave it, or once
/// the identity was registered with it; and as an identity only behind the preparation, or once
/// that identity registered the sub-identity.
pub proof fn certificates_are_asked_for_when_approved(flow: ApplyFlow, event: ApplyEvent)
    requires
        flow.wf(),
    ensures
        flow.after(event).1 matches ApplyAction::IssueCert { access_token, .. } ==> {
            ||| flow.phase == ApplyPhase::EmailSession && event == ApplyEvent::Token(
                Ok(access_token),
            )
            ||| flow.phase == ApplyPhase::Registering && (event matches ApplyEvent::Registered(
                Ok(()),
            )) && flow.access_token == Some(access_token)
        },
        flow.phase == ApplyPhase::EmailSession ==> (event matches ApplyEvent::Token(Ok(token))
            ==> (flow.after(event).1 matches ApplyAction::IssueCert { access_token, .. }
            && access_token == token)),
        flow.phase == ApplyPhase::EmailSession ==> (event matches ApplyEvent::Token(Err(error))
            ==> flow.after(event).1 == ApplyAction::Finish(
            Err::<(), ApplyError>(ApplyError::Email(error)),
        )),
        flow.after(event).1 is IssueCertWithIdentity ==> {
            ||| flow.phase == ApplyPhase::Preparing && event is Prepared
            ||| flow.phase == ApplyPhase::RegisteringWithIdentity && event is SubRegistered
        },
        flow.phase == ApplyPhase::Preparing && event is Prepared ==> (match flow.plan {
            Some(ApplyApprovalPlan::Email) => flow.after(event).1 is RunEmailSession,
            Some(ApplyApprovalPlan::DirectIdentity { auth_domain }) => flow.after(
                event,
            ).1 matches ApplyAction::IssueCertWithIdentity { auth_domain: asked, .. } && asked
                == auth_domain,
            None => true,
        }),
        flow.after(event).1 is RunEmailSession ==> flow.phase == ApplyPhase::Preparing && event
            is Prepared,
        flow.phase == ApplyPhase::Registering ==> (event matches ApplyEvent::Registered(
            Err(error),
        ) ==> flow.after(event).1 == ApplyAction::Finish(
            Err::<(), ApplyError>(ApplyError::Registration(error)),
        )),
        flow.phase == ApplyPhase::Registering ==> (event matches ApplyEvent::Registered(Ok(()))
            ==> flow.after(event).1 is IssueCert && flow.after(event).0.registered),
{
}

/// What follows where the server does not know the identity: a sub-identity is registered, a
/// root identity only in a continued test run, and every other refusal ends the command with
/// the reply.
pub proof fn unknown_identities_are_registered(flow: ApplyFlow, error: Error)
    requires
        flow.wf(),
        flow.phase == ApplyPhase::Issuing || flow.phase == ApplyPhase::IssuingWithIdentity,
    ensures
        ({
            let (next, action) = flow.after(ApplyEvent::Issued(Err(error)));
            let target = flow.target->0;
            let sub = target.level == IdentityLevel::SubIdentity;
            if flow.registered || !is_missing(error) {
                action == ApplyAction::Finish(Err::<(), ApplyError>(ApplyError::Server(error)))
            } else if !sub && !flow.continued {
                action == ApplyAction::Finish(
                    Err::<(), ApplyError>(ApplyError::MissingRoot { target }),
                )
            } else if flow.phase == ApplyPhase::Issuing {
                &&& action matches ApplyAction::Register { access_token, target: missing, way }
                &&& Some(access_token) == flow.access_token
                &&& missing == target
                &&& (way == RegistrationWay::SubOnTerminal <==> sub && flow.interactive)
                &&& (way == RegistrationWay::SubWithoutTerminal <==> sub && !flow.interactive)
                &&& (way == RegistrationWay::RootOnTerminal <==> !sub && flow.interactive)
                &&& (way == RegistrationWay::RootWithoutTerminal <==> !sub && !flow.interactive)
            } else if sub {
                &&& action matches ApplyAction::RegisterWithIdentity { auth_domain, target: missing }
                &&& missing == target
                &&& flow.plan == Some(ApplyApprovalPlan::DirectIdentity { auth_domain })
            } else if flow.interactive {
                &&& action is Prepare
                &&& next.plan == Some(ApplyApprovalPlan::Email)
            } else {
                action == ApplyAction::Finish(
                    Err::<(), ApplyError>(ApplyError::NeedsInteractiveEmail { target }),
                )
            }
        }),
{
}

/// Only a refusal with the status 404 and the code of an unknown domain says that an identity
/// does not exist.
pub proof fn missing_identities_are_told_by_their_code(error: Error)
    ensures
        is_missing(error) <==> (error matches Error::Api { status, code, .. } && status == 404 && (
        code@ == "domain_not_found"@ || code@ == "1202"@)),
{
    crate::auth::dispositions_go_by_the_code(error);
}

/// What a parent's registration of its sub-identity leads to: one that exists is certified, no
/// seat left leads a terminal to email, and every other refusal ends the command.
pub proof fn registrations_by_the_parent(flow: ApplyFlow, reply: Result<(), Error>)
    requires
        flow.wf(),
        flow.phase == ApplyPhase::RegisteringWithIdentity,
    ensures
        ({
            let (next, action) = flow.after(ApplyEvent::SubRegistered(reply));
            match reply {
                Ok(()) => action is IssueCertWithIdentity && next.registered,
                Err(error) => if error matches Error::Api { code, .. } && code@
                    == "subdomain_conflict"@ {
                    action is IssueCertWithIdentity && next.registered
                } else if flow.interactive && error.code() == Some("subdomain_quota_exceeded"@) {
                    action is Prepare && next.plan == Some(ApplyApprovalPlan::Email)
                } else {
                    action == ApplyAction::Finish(
                        Err::<(), ApplyError>(ApplyError::Server(error)),
                    )
                },
            }
        }),
{
}

/// The way to the key: what is saved is looked at, replacing it needs consent where it is ready
/// or has expired and is not forced, then the kind is settled, then who approves.
pub proof fn settling_takes_its_course(flow: ApplyFlow, event: ApplyEvent)
    requires
        flow.wf(),
        flow.phase != ApplyPhase::Done,
    ensures
        flow.phase == ApplyPhase::LoadLocal ==> (event matches ApplyEvent::Local(local)
            ==> flow.after(event).0.remote == RemoteTargetState::Unknown && flow.after(
            event,
        ).0.save == (if local is Some {
            LocalIdentitySave::Replace
        } else {
            LocalIdentitySave::New
        })),
        flow.phase == ApplyPhase::LoadLocal ==> (event matches ApplyEvent::Local(local) ==> (
        flow.after(event).1 is ConfirmReplacement <==> flow.interactive && !flow.force && (
        local matches Some(summary) && (summary.status is Ready || summary.status is Expired)))),
        flow.phase == ApplyPhase::LoadLocal ==> (event matches ApplyEvent::Local(local) ==> (
        flow.after(event).1 == ApplyAction::Finish(
            Err::<(), ApplyError>(ApplyError::ForceRequired),
        ) <==> !flow.interactive && !flow.force && (local matches Some(summary) && (
        summary.status is Ready || summary.status is Expired)))),
        flow.phase == ApplyPhase::AskReplacement && event == ApplyEvent::Answer(false)
            ==> flow.after(event).1 == ApplyAction::Finish(
            Err::<(), ApplyError>(ApplyError::Cancelled),
        ),
        flow.phase == ApplyPhase::AskReplacement && event == ApplyEvent::Answer(true) ==> {
            ||| flow.after(event).1 is PromptKind && flow.given_kind is None
            ||| flow.after(event).1 is FindCandidate && flow.given_kind is Some
            ||| flow.after(event).1 matches ApplyAction::Finish(Err(ApplyError::InvalidKind {
                value,
            })) && flow.given_kind == Some(value)
        },
        flow.phase == ApplyPhase::AskKind ==> (event matches ApplyEvent::Kind(kind) ==> flow.after(
            event,
        ).0.kind == Some(kind) && flow.after(event).1 == (ApplyAction::FindCandidate {
            remote: flow.remote,
        })),
        flow.phase == ApplyPhase::FindCandidate ==> (event matches ApplyEvent::Candidate(
            CandidateEvent::Email,
        ) ==> flow.after(event).1 is Prepare && flow.after(event).0.plan == Some(
            ApplyApprovalPlan::Email,
        )),
        flow.phase == ApplyPhase::FindCandidate ==> (event matches ApplyEvent::Candidate(
            CandidateEvent::Identity { full_name, .. },
        ) ==> flow.after(event).1 is Prepare && flow.after(event).0.plan == Some(
            ApplyApprovalPlan::DirectIdentity { auth_domain: full_name },
        )),
        flow.after(event).1 is Prepare ==> flow.after(event).0.phase == ApplyPhase::Preparing && (
        flow.phase == ApplyPhase::FindCandidate || flow.phase == ApplyPhase::IssuingWithIdentity
            || flow.phase == ApplyPhase::RegisteringWithIdentity),
        flow.after(event).1 is FindCandidate ==> flow.after(event).0.kind is Some,
        event matches ApplyEvent::Failed(message) ==> flow.after(event).1 == ApplyAction::Finish(
            Err::<(), ApplyError>(ApplyError::Step(message)),
        ),
{
}

/// The kind that the arguments name is the one that is applied for.
pub proof fn named_kinds_are_applied_for(flow: ApplyFlow, event: ApplyEvent)
    requires
        flow.wf(),
        flow.given_kind is Some,
        flow.phase == ApplyPhase::AskReplacement || flow.phase == ApplyPhase::LoadLocal
            || flow.phase == ApplyPhase::Inspecting,
        flow.after(event).1 is FindCandidate,
    ensures
        flow.given_kind->0@ == "primary"@ ==> flow.after(event).0.kind == Some(
            IdentityKind::Primary,
        ),
        flow.given_kind->0@ == "secondary"@ ==> flow.after(event).0.kind == Some(
            IdentityKind::Secondary,
        ),
        flow.given_kind->0@ == "primary"@ || flow.given_kind->0@ == "secondary"@,
{
    reveal_strlit("primary");
    reveal_strlit("secondary");
    assert("primary"@.len() != "secondary"@.len());
}

/// A name that was looked up is asked for again where it cannot be had; one that can is settled
/// with what the server said of it.
pub proof fn looked_up_names_are_settled(
    flow: ApplyFlow,
    local: Option<LocalIdentitySummary>,
    availability: Result<String, Error>,
)
    requires
        flow.wf(),
        flow.phase == ApplyPhase::Inspecting,
    ensures
        ({
            let (next, action) = flow.after(ApplyEvent::Inspected { local, availability });
            match availability {
                Err(error) => if error.code() == Some("domain_invalid"@) {
                    action is PromptTarget && next.phase == ApplyPhase::AskTarget
                } else {
                    action == ApplyAction::Finish(
                        Err::<(), ApplyError>(ApplyError::Server(error)),
                    )
                },
                Ok(word) => {
                    &&& (action is PromptTarget <==> word@ == "unavailable"@ || word@
                        == "reserved"@)
                    &&& (action is PromptTarget ==> next.phase == ApplyPhase::AskTarget)
                    &&& (word@ == "available"@ ==> next.remote == RemoteTargetState::Missing)
                    &&& (word@ == "conflict"@ ==> next.remote == RemoteTargetState::Exists)
                    &&& (word@ == "available"@ || word@ == "conflict"@ ==> next.save == (
                    if local is Some {
                        LocalIdentitySave::Replace
                    } else {
                        LocalIdentitySave::New
                    }))
                    &&& (action == ApplyAction::Finish(
                        Err::<(), ApplyError>(
                            ApplyError::UnsupportedAvailability { availability: word },
                        ),
                    ) <==> word@ != "available"@ && word@ != "conflict"@ && word@ != "reserved"@
                        && word@ != "unavailable"@)
                },
            }
        }),
{
    reveal_strlit("available");
    reveal_strlit("unavailable");
    reveal_strlit("reserved");
    reveal_strlit("conflict");
    assert("available"@.len() == 9);
    assert("unavailable"@.len() == 11);
    assert("reserved"@[0] != "conflict"@[0]);
    assert("reserved"@.len() == 8);
    assert("conflict"@.len() == 8);
}

/// A name that is not to be had, and a registration that was done, are told; what falls back to
/// email is told with its reason.
pub proof fn notices_tell_what_happened(flow: ApplyFlow, event: ApplyEvent)
    requires
        flow.wf(),
    ensures
        flow.notice_after(event) is Some ==> flow.phase == ApplyPhase::Inspecting || flow.phase
            == ApplyPhase::IssuingWithIdentity || flow.phase == ApplyPhase::Registering
            || flow.phase == ApplyPhase::RegisteringWithIdentity,
        flow.phase == ApplyPhase::Registering && (event matches ApplyEvent::Registered(Ok(())))
            ==> flow.notice_after(event) == Some("This new name is yours now."@),
        flow.phase == ApplyPhase::Inspecting ==> (event matches ApplyEvent::Inspected {
            availability: Ok(word),
            ..
        } ==> (flow.notice_after(event) is Some <==> word@ == "reserved"@ || word@
            == "unavailable"@)),
        flow.phase == ApplyPhase::Inspecting ==> (event matches ApplyEvent::Inspected {
            availability: Err(Error::Api { code, .. }),
            ..
        } ==> (flow.notice_after(event) is Some <==> code@ == "1201"@ || code@
            == "domain_invalid"@)),
        flow.notice_after(event) is Some && flow.phase == ApplyPhase::Inspecting
            ==> flow.notice_after(event) == Some(
            "Sorry, this name is not available. Please try another one."@,
        ),
{
    if let ApplyEvent::Inspected { availability, .. } = event {
        match availability {
            Ok(word) => {
                crate::target::availability_goes_by_its_word(word@);
            },
            Err(error) => {
                if let Error::Api { code, .. } = error {
                    crate::cert_server::codes_have_a_number_and_a_name(code@);
                }
            },
        }
    }
}

/// Falling back to email is told where a root identity cannot be registered by another, and
/// where the parent has no seat left; only on a terminal.
pub proof fn fallbacks_to_email_are_told(
    flow: ApplyFlow,
    target: IdentityTarget,
    status: u16,
    code: String,
    message: String,
)
    requires
        flow.target == Some(target),
    ensures
        ({
            let error = Error::Api { status, code, message };
            let seats = code@ == "1304"@ || code@ == "subdomain_quota_exceeded"@;
            &&& (flow.phase == ApplyPhase::RegisteringWithIdentity && seats && flow.interactive
                ==> flow.notice_after(ApplyEvent::SubRegistered(Err(error))) is Some)
            &&& (flow.phase == ApplyPhase::RegisteringWithIdentity && code@ != "subdomain_conflict"@
                && (!seats || !flow.interactive) ==> flow.notice_after(
                ApplyEvent::SubRegistered(Err(error)),
            ) is None)
            &&& (flow.phase == ApplyPhase::IssuingWithIdentity && (target.level
                == IdentityLevel::SubIdentity || !flow.interactive || flow.registered)
                ==> flow.notice_after(ApplyEvent::Issued(Err(error))) is None)
            &&& (flow.phase == ApplyPhase::IssuingWithIdentity && target.level
                == IdentityLevel::Identity && flow.interactive && !flow.registered && flow.continued
                && is_missing(error) && (flow.plan matches Some(
                ApplyApprovalPlan::DirectIdentity { .. },
            )) ==> flow.notice_after(ApplyEvent::Issued(Err(error))) is Some)
        }),
{
    crate::cert_server::codes_have_a_number_and_a_name(code@);
    reveal_strlit("1304");
    reveal_strlit("subdomain_quota_exceeded");
    reveal_strlit("subdomain_conflict");
    assert("1304"@.len() == 4);
    assert("subdomain_quota_exceeded"@.len() == 24);
    assert("subdomain_conflict"@.len() == 18);
}

} // verus!
