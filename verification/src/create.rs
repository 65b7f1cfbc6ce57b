//! Creating an identity: its name and kind are settled, the creation is approved by email or by
//! the parent on this device, the identity is created and paid for where that is asked, and its
//! certificate is issued and saved.
//!
//! The steps of the command and their order stand in [`crate::create_flow`].
use vstd::prelude::*;

use crate::approval::{
    build_options_for_candidate, candidate_options, option_views, ApprovalHelperAction,
    ApprovalMenuOption, LocalApprovalCandidate, OptionView,
};
use crate::auth::AuthMethod;
use crate::cert_server::{CreateSubdomainResponse, Error, InvoiceDetail, SubdomainQuotaQuote};
use crate::kind::{IdentityKind, ParseIdentityKindError};
use crate::local::{LocalIdentityStatus, LocalIdentitySummary};
use crate::recovery::{classify_verify_submit_error, VerificationRecovery};
use crate::registration::{format_minor_amount, minor_amount, RegistrationError};
use crate::target::{
    dhttp_full_name, is_parsed, names_target, partial_of, wf_name_len, IdentityLevel,
    IdentityName, IdentityTarget, ParseIdentityTargetError,
};
use crate::text::{contains_text, copy_opt, has_text, opt_view, same};

verus! {

/// The arguments of the command.
#[derive(Debug, PartialEq, Eq)]
pub struct Create {
    pub name: Option<String>,
    pub kind: Option<String>,
    pub replace_local: bool,
    pub device_name: Option<String>,
    pub email: Option<String>,
    pub send_code: bool,
    pub verify_code: Option<String>,
    pub auth: Option<AuthMethod>,
}

/// How the creation is approved.
#[derive(Debug, PartialEq, Eq)]
pub struct CreateApprovalPlan {
    pub parent_identity: Option<String>,
    pub auth: AuthMethod,
    pub helper_action: Option<ApprovalHelperAction>,
}

/// A plan with its text as a sequence.
pub ghost struct PlanView {
    pub parent: Option<Seq<char>>,
    pub auth: AuthMethod,
    pub helper: Option<ApprovalHelperAction>,
}

impl View for CreateApprovalPlan {
    type V = PlanView;

    open spec fn view(&self) -> PlanView {
        PlanView {
            parent: opt_view(self.parent_identity),
            auth: self.auth,
            helper: self.helper_action,
        }
    }
}

pub open spec fn plan_view(plan: Option<CreateApprovalPlan>) -> Option<PlanView> {
    match plan {
        Some(plan) => Some(plan@),
        None => None,
    }
}

pub open spec fn planned(result: Result<CreateApprovalPlan, CreateError>) -> Result<
    PlanView,
    CreateError,
> {
    match result {
        Ok(plan) => Ok(plan@),
        Err(error) => Err(error),
    }
}

/// Approval by email alone.
pub open spec fn email_plan(parent: Option<Seq<char>>) -> PlanView {
    PlanView { parent, auth: AuthMethod::Email, helper: None }
}

/// Why an identity was not created.
#[derive(Debug)]
pub enum CreateError {
    Target(ParseIdentityTargetError),
    Kind(ParseIdentityKindError),
    RootNeedsEmail { target: IdentityTarget },
    ParentNotReady { target: IdentityTarget },
    ParentNotReadyAt { target: IdentityTarget, path: String },
    AuthRequired { target: IdentityTarget },
    ApprovalUnavailable,
    HelperParentMissing,
    SendCodeNeedsEmailAuth,
    Cancelled,
    EmailUnavailable,
    CodeUnavailable,
    SubCheckoutRequired { target: IdentityTarget },
    CheckoutExpired,
    CheckoutCancelled,
    Registration(RegistrationError),
    Server(Error),
    /// A prompt or an access to this device failed; the message says why.
    Step(String),
}

impl CreateError {
    pub open spec fn wf(self) -> bool {
        match self {
            CreateError::RootNeedsEmail { target } => target.wf(),
            CreateError::ParentNotReady { target } => target.wf(),
            CreateError::ParentNotReadyAt { target, .. } => target.wf(),
            CreateError::AuthRequired { target } => target.wf(),
            CreateError::SubCheckoutRequired { target } => target.wf(),
            CreateError::Registration(error) => error.wf(),
            _ => true,
        }
    }

    pub open spec fn words(self) -> Seq<char> {
        match self {
            CreateError::Target(error) => error.words(),
            CreateError::Kind(ParseIdentityKindError::Invalid { value }) => "identity kind "@
                + value@ + " is invalid; use primary or secondary"@,
            CreateError::RootNeedsEmail { target } => "creating "@ + target.short()
                + " requires email verification; rerun without --auth or use --auth email instead of --auth identity"@,
            CreateError::ParentNotReady { target } => "creating "@ + target.short()
                + " with --auth identity requires a ready local parent identity on this device"@,
            CreateError::ParentNotReadyAt { target, path } => "creating "@ + target.short()
                + " with --auth identity requires a ready local parent identity at "@ + path@,
            CreateError::AuthRequired { target } => "creating "@ + target.short()
                + " non-interactively requires choosing an approval path; rerun with --auth email or --auth identity"@,
            CreateError::ApprovalUnavailable => "selected approval path is unavailable"@,
            CreateError::HelperParentMissing => "helper apply path is missing its parent identity"@,
            CreateError::SendCodeNeedsEmailAuth => "--send-code requires --auth email"@,
            CreateError::Cancelled => "create was cancelled"@,
            CreateError::EmailUnavailable => "interactive create email is unavailable"@,
            CreateError::CodeUnavailable => "interactive create verification code is unavailable"@,
            CreateError::SubCheckoutRequired { target } => "creating "@ + target.short()
                + " requires interactive checkout; rerun this command in an interactive terminal to expand the parent identity quota"@,
            CreateError::CheckoutExpired => "checkout expired before payment completed"@,
            CreateError::CheckoutCancelled => "checkout was cancelled"@,
            CreateError::Registration(error) => error.words(),
            CreateError::Server(error) => error.words(),
            CreateError::Step(message) => message@,
        }
    }

    fn about(target: &IdentityTarget, rest: &str) -> (r: String)
        requires
            target.wf(),
        ensures
            r@ == "creating "@ + target.short() + rest@,
    {
        proof {
            wf_name_len(target.name);
        }
        let mut r = "creating ".to_owned();
        r.append(target.short_name());
        r.append(rest);
        r
    }

    pub fn to_text(&self) -> (r: String)
        requires
            self.wf(),
        ensures
            r@ == self.words(),
    {
        match self {
            CreateError::Target(error) => error.to_text(),
            CreateError::Kind(error) => error.to_text(),
            CreateError::RootNeedsEmail { target } => CreateError::about(
                target,
                " requires email verification; rerun without --auth or use --auth email instead of --auth identity",
            ),
            CreateError::ParentNotReady { target } => CreateError::about(
                target,
                " with --auth identity requires a ready local parent identity on this device",
            ),
            CreateError::ParentNotReadyAt { target, path } => {
                let mut r = CreateError::about(
                    target,
                    " with --auth identity requires a ready local parent identity at ",
                );
                r.append(path);
                r
            },
            CreateError::AuthRequired { target } => CreateError::about(
                target,
                " non-interactively requires choosing an approval path; rerun with --auth email or --auth identity",
            ),
            CreateError::ApprovalUnavailable => "selected approval path is unavailable".to_owned(),
            CreateError::HelperParentMissing => "helper apply path is missing its parent identity".to_owned(),
            CreateError::SendCodeNeedsEmailAuth => "--send-code requires --auth email".to_owned(),
            CreateError::Cancelled => "create was cancelled".to_owned(),
            CreateError::EmailUnavailable => "interactive create email is unavailable".to_owned(),
            CreateError::CodeUnavailable => "interactive create verification code is unavailable".to_owned(),
            CreateError::SubCheckoutRequired { target } => CreateError::about(
                target,
                " requires interactive checkout; rerun this command in an interactive terminal to expand the parent identity quota",
            ),
            CreateError::CheckoutExpired => "checkout expired before payment completed".to_owned(),
            CreateError::CheckoutCancelled => "checkout was cancelled".to_owned(),
            CreateError::Registration(error) => error.to_text(),
            CreateError::Server(error) => error.to_text(),
            CreateError::Step(message) => message.clone(),
        }
    }
}

/// Where the user can go instead of entering an address.
#[derive(Debug, Clone, Copy, PartialEq, Eq, Structural)]
pub enum CreateEmailAction {
    SwitchVerificationMethod,
    ChangeCertificateKind,
    ChangeIdentityName,
}

impl CreateEmailAction {
    pub open spec fn label_text(self) -> Seq<char> {
        match self {
            CreateEmailAction::SwitchVerificationMethod => "Switch verification method (go back to verification method selection)"@,
            CreateEmailAction::ChangeCertificateKind => "Change certificate kind (go back to identity kind)"@,
            CreateEmailAction::ChangeIdentityName => "Change identity name (go back to identity name)"@,
        }
    }

    pub fn label(&self) -> (r: String)
        ensures
            r@ == self.label_text(),
    {
        match self {
            CreateEmailAction::SwitchVerificationMethod => "Switch verification method (go back to verification method selection)".to_owned(),
            CreateEmailAction::ChangeCertificateKind => "Change certificate kind (go back to identity kind)".to_owned(),
            CreateEmailAction::ChangeIdentityName => "Change identity name (go back to identity name)".to_owned(),
        }
    }
}

pub open spec fn email_actions(can_switch: bool) -> Seq<CreateEmailAction> {
    if can_switch {
        seq![
            CreateEmailAction::SwitchVerificationMethod,
            CreateEmailAction::ChangeCertificateKind,
            CreateEmailAction::ChangeIdentityName,
        ]
    } else {
        seq![CreateEmailAction::ChangeCertificateKind, CreateEmailAction::ChangeIdentityName]
    }
}

/// The other options of the address prompt, in the order in which they are shown.
pub fn create_email_actions(can_switch_verification_method: bool) -> (r: Vec<CreateEmailAction>)
    ensures
        r@ == email_actions(can_switch_verification_method),
{
    let mut actions: Vec<CreateEmailAction> = Vec::new();
    if can_switch_verification_method {
        actions.push(CreateEmailAction::SwitchVerificationMethod);
    }
    actions.push(CreateEmailAction::ChangeCertificateKind);
    actions.push(CreateEmailAction::ChangeIdentityName);
    actions
}

/// Where the user can go instead of entering a code.
#[derive(Debug, PartialEq, Eq)]
pub enum CreateVerifyCodeAction {
    ResendVerificationCode,
    ChangeEmail,
    SwitchVerificationMethod,
    ChangeCertificateKind,
    ChangeIdentityName,
    ReturnToCreate { target_name: String },
}

impl CreateVerifyCodeAction {
    pub open spec fn label_text(self) -> Seq<char> {
        match self {
            CreateVerifyCodeAction::ResendVerificationCode => "Resend verification code"@,
            CreateVerifyCodeAction::ChangeEmail => "Send code to another email (go back to email)"@,
            CreateVerifyCodeAction::SwitchVerificationMethod => "Switch verification method (go back to verification method selection)"@,
            CreateVerifyCodeAction::ChangeCertificateKind => "Change certificate kind (go back to identity kind)"@,
            CreateVerifyCodeAction::ChangeIdentityName => "Change identity name (go back to identity name)"@,
            CreateVerifyCodeAction::ReturnToCreate { target_name } => "Return to create "@
                + target_name@,
        }
    }

    pub fn label(&self) -> (r: String)
        ensures
            r@ == self.label_text(),
    {
        match self {
            CreateVerifyCodeAction::ResendVerificationCode => "Resend verification code".to_owned(),
            CreateVerifyCodeAction::ChangeEmail => "Send code to another email (go back to email)".to_owned(),
            CreateVerifyCodeAction::SwitchVerificationMethod => "Switch verification method (go back to verification method selection)".to_owned(),
            CreateVerifyCodeAction::ChangeCertificateKind => "Change certificate kind (go back to identity kind)".to_owned(),
            CreateVerifyCodeAction::ChangeIdentityName => "Change identity name (go back to identity name)".to_owned(),
            CreateVerifyCodeAction::ReturnToCreate { target_name } => {
                let mut r = "Return to create ".to_owned();
                r.append(target_name);
                r
            },
        }
    }
}

/// The other options of the code prompt, in the order in which they are shown. The way back to
/// another command comes last, where there is one.
pub fn create_verify_code_actions(return_target_name: Option<&str>) -> (r: Vec<
    CreateVerifyCodeAction,
>)
    ensures
        r@.len() == (if return_target_name is Some {
            6nat
        } else {
            5nat
        }),
        r@.take(5) == seq![
            CreateVerifyCodeAction::ResendVerificationCode,
            CreateVerifyCodeAction::ChangeEmail,
            CreateVerifyCodeAction::SwitchVerificationMethod,
            CreateVerifyCodeAction::ChangeCertificateKind,
            CreateVerifyCodeAction::ChangeIdentityName,
        ],
        return_target_name matches Some(name) ==> (r@[5] matches CreateVerifyCodeAction::ReturnToCreate {
            target_name,
        } && target_name@ == name@),
{
    let mut actions: Vec<CreateVerifyCodeAction> = Vec::new();
    actions.push(CreateVerifyCodeAction::ResendVerificationCode);
    actions.push(CreateVerifyCodeAction::ChangeEmail);
    actions.push(CreateVerifyCodeAction::SwitchVerificationMethod);
    actions.push(CreateVerifyCodeAction::ChangeCertificateKind);
    actions.push(CreateVerifyCodeAction::ChangeIdentityName);
    match return_target_name {
        Some(name) => {
            actions.push(CreateVerifyCodeAction::ReturnToCreate { target_name: name.to_owned() });
        },
        None => {},
    }
    actions
}

/// Where the user can go instead of choosing a way of approval.
#[derive(Debug, Clone, Copy, PartialEq, Eq, Structural)]
pub enum CreateApprovalMenuAction {
    ChangeCertificateKind,
    ChangeIdentityName,
}

impl CreateApprovalMenuAction {
    pub open spec fn label_text(self) -> Seq<char> {
        match self {
            CreateApprovalMenuAction::ChangeCertificateKind => "Change certificate kind (go back to identity kind)"@,
            CreateApprovalMenuAction::ChangeIdentityName => "Change identity name (go back to identity name)"@,
        }
    }

    pub fn label(self) -> (r: String)
        ensures
            r@ == self.label_text(),
    {
        match self {
            CreateApprovalMenuAction::ChangeCertificateKind => "Change certificate kind (go back to identity kind)".to_owned(),
            CreateApprovalMenuAction::ChangeIdentityName => "Change identity name (go back to identity name)".to_owned(),
        }
    }
}

/// Why the arguments were refused: the name comes first, then the kind.
pub open spec fn names_refused(command: Create, error: CreateError) -> bool {
    match error {
        CreateError::Target(error) => command.name matches Some(name) && is_parsed(
            name@,
            Err(error),
        ),
        CreateError::Kind(ParseIdentityKindError::Invalid { value }) => (command.name matches Some(
            name,
        ) ==> names_target(name@)) && command.kind is Some && command.kind->0@ != "primary"@
            && command.kind->0@ != "secondary"@ && value@ == command.kind->0@,
        _ => false,
    }
}

/// What is read from the arguments: the target and the kind, where they are given.
pub fn read_create_names(command: &Create) -> (r: Result<
    (Option<IdentityTarget>, Option<IdentityKind>),
    CreateError,
>)
    ensures
        match r {
            Ok((target, kind)) => {
                &&& (target is Some == command.name is Some)
                &&& (kind is Some == command.kind is Some)
                &&& (target matches Some(target) ==> is_parsed(command.name->0@, Ok(target)))
                &&& (kind matches Some(kind) ==> command.kind->0@ == kind.wire_name())
            },
            Err(error) => names_refused(*command, error),
        },
{
    let target = match &command.name {
        Some(name) => match IdentityTarget::parse(name) {
            Ok(target) => Some(target),
            Err(error) => {
                return Err(CreateError::Target(error));
            },
        },
        None => None,
    };
    let kind = match &command.kind {
        Some(kind) => match IdentityKind::parse(kind) {
            Ok(kind) => Some(kind),
            Err(error) => {
                return Err(CreateError::Kind(error));
            },
        },
        None => None,
    };
    Ok((target, kind))
}

/// What is known so far, and what has to be asked again.
#[derive(Debug)]
pub struct InteractiveCreateState {
    pub target: Option<IdentityTarget>,
    pub target_opening_required: bool,
    pub kind: Option<IdentityKind>,
    pub kind_prompt_required: bool,
    pub approval_plan: Option<CreateApprovalPlan>,
    pub email: Option<String>,
    pub email_prompt_required: bool,
    pub verify_code: Option<String>,
    pub verification_code_sent_to: Option<String>,
}

/// The state with its plan as a view.
pub ghost struct StateView {
    pub target: Option<IdentityTarget>,
    pub target_opening_required: bool,
    pub kind: Option<IdentityKind>,
    pub kind_prompt_required: bool,
    pub plan: Option<PlanView>,
    pub email: Option<String>,
    pub email_prompt_required: bool,
    pub verify_code: Option<String>,
    pub sent_to: Option<String>,
}

impl View for InteractiveCreateState {
    type V = StateView;

    open spec fn view(&self) -> StateView {
        StateView {
            target: self.target,
            target_opening_required: self.target_opening_required,
            kind: self.kind,
            kind_prompt_required: self.kind_prompt_required,
            plan: plan_view(self.approval_plan),
            email: self.email,
            email_prompt_required: self.email_prompt_required,
            verify_code: self.verify_code,
            sent_to: self.verification_code_sent_to,
        }
    }
}

impl StateView {
    /// Another address: the code and the record of its send are forgotten.
    pub open spec fn email_changed(self) -> StateView {
        StateView { verify_code: None, sent_to: None, ..self }
    }

    /// Another way of approval: the address is asked for again.
    pub open spec fn approval_changed(self) -> StateView {
        (StateView { email: None, email_prompt_required: true, ..self }).email_changed()
    }

    pub open spec fn kind_changed(self) -> StateView {
        (StateView { kind_prompt_required: false, plan: None, ..self }).approval_changed()
    }

    pub open spec fn target_changed(self) -> StateView {
        StateView {
            target_opening_required: true,
            ..(StateView { kind: None, ..self }).kind_changed()
        }
    }

    /// Back to the choice of the approval.
    pub open spec fn back_to_approval(self) -> StateView {
        (StateView { plan: None, ..self }).approval_changed()
    }

    pub open spec fn back_to_target(self) -> StateView {
        StateView {
            kind: None,
            kind_prompt_required: true,
            target_opening_required: true,
            ..self.back_to_approval()
        }
    }

    pub open spec fn back_to_kind(self) -> StateView {
        StateView { kind_prompt_required: true, ..self.back_to_approval() }
    }

    pub open spec fn back_to_email(self) -> StateView {
        StateView { email_prompt_required: true, ..self.email_changed() }
    }

    /// The last code was sent to the current address.
    pub open spec fn sent(self) -> bool {
        match (self.sent_to, self.email) {
            (Some(sent_to), Some(email)) => sent_to@ == email@,
            _ => false,
        }
    }
}

impl InteractiveCreateState {
    pub fn from_command(command: &Create) -> (r: Result<InteractiveCreateState, CreateError>)
        ensures
            match r {
                Ok(state) => {
                    &&& state.target is Some == command.name is Some
                    &&& (state.target matches Some(target) ==> is_parsed(
                        command.name->0@,
                        Ok(target),
                    ))
                    &&& state.kind is Some == command.kind is Some
                    &&& (state.kind matches Some(kind) ==> command.kind->0@ == kind.wire_name())
                    &&& state@ == (StateView {
                        target: state.target,
                        target_opening_required: command.name is None,
                        kind: state.kind,
                        kind_prompt_required: command.kind is None,
                        plan: None,
                        email: command.email,
                        email_prompt_required: command.email is None,
                        verify_code: command.verify_code,
                        sent_to: None,
                    })
                },
                Err(error) => names_refused(*command, error),
            },
    {
        match read_create_names(command) {
            Err(error) => Err(error),
            Ok((target, kind)) => Ok(
                InteractiveCreateState {
                    target,
                    target_opening_required: command.name.is_none(),
                    kind,
                    kind_prompt_required: command.kind.is_none(),
                    approval_plan: None,
                    email: copy_opt(&command.email),
                    email_prompt_required: command.email.is_none(),
                    verify_code: copy_opt(&command.verify_code),
                    verification_code_sent_to: None,
                },
            ),
        }
    }

    pub fn reset_after_target_change(&mut self)
        ensures
            final(self)@ == old(self)@.target_changed(),
    {
        self.kind = None;
        self.kind_prompt_required = true;
        self.reset_after_kind_change();
        self.target_opening_required = true;
    }

    pub fn reset_after_kind_change(&mut self)
        ensures
            final(self)@ == old(self)@.kind_changed(),
    {
        self.kind_prompt_required = false;
        self.approval_plan = None;
        self.reset_after_approval_change();
    }

    pub fn reset_after_approval_change(&mut self)
        ensures
            final(self)@ == old(self)@.approval_changed(),
    {
        self.email = None;
        self.email_prompt_required = true;
        self.reset_after_email_change();
    }

    pub fn reset_after_email_change(&mut self)
        ensures
            final(self)@ == old(self)@.email_changed(),
    {
        self.verify_code = None;
        self.verification_code_sent_to = None;
    }

    pub fn revisit_target_prompt(&mut self)
        ensures
            final(self)@ == old(self)@.back_to_target(),
    {
        self.kind = None;
        self.kind_prompt_required = true;
        self.approval_plan = None;
        self.reset_after_approval_change();
        self.target_opening_required = true;
    }

    pub fn revisit_kind_prompt(&mut self)
        ensures
            final(self)@ == old(self)@.back_to_kind(),
    {
        self.approval_plan = None;
        self.reset_after_approval_change();
        self.kind_prompt_required = true;
    }

    pub fn revisit_approval(&mut self)
        ensures
            final(self)@ == old(self)@.back_to_approval(),
    {
        self.approval_plan = None;
        self.reset_after_approval_change();
    }

    pub fn revisit_email_prompt(&mut self)
        ensures
            final(self)@ == old(self)@.back_to_email(),
    {
        self.reset_after_email_change();
        self.email_prompt_required = true;
    }
}

/// What a refusal of the server means for the steps of the command.
#[derive(Debug, PartialEq, Eq)]
pub enum CreateRecovery {
    StayCurrentStep { message: String },
    BackToEmail { message: String },
    Abort,
}

/// A code that is wrong or expired is asked for again, an address that does not belong to the
/// identity is asked for again, and everything else ends the command.
pub open spec fn stays(error: Error) -> bool {
    error.refused(401, "verify_code_invalid"@) || error.refused(401, "verify_code_expired"@)
}

pub open spec fn goes_back_to_email(error: Error) -> bool {
    !stays(error) && error.refused(401, "domain_email_not_matched"@)
}

/// What a refusal of the server means for the steps of the command.
pub fn classify_create_error(error: &Error) -> (r: CreateRecovery)
    ensures
        match r {
            CreateRecovery::StayCurrentStep { message } => stays(*error) && message@
                == error.words(),
            CreateRecovery::BackToEmail { message } => goes_back_to_email(*error) && message@
                == error.words(),
            CreateRecovery::Abort => !stays(*error) && !goes_back_to_email(*error),
        },
{
    match classify_verify_submit_error(error) {
        VerificationRecovery::RetryCode { message } => CreateRecovery::StayCurrentStep { message },
        VerificationRecovery::OfferResend { message } => CreateRecovery::StayCurrentStep { message },
        VerificationRecovery::ChangeEmail { message } => CreateRecovery::BackToEmail { message },
        VerificationRecovery::Stop => CreateRecovery::Abort,
    }
}

/// Takes a recovery over into the state; tells whether the command goes on.
pub fn apply_verification_recovery(
    state: &mut InteractiveCreateState,
    recovery: &CreateRecovery,
) -> (r: bool)
    ensures
        r == !(*recovery is Abort),
        final(state)@ == (if *recovery is BackToEmail {
            old(state)@.back_to_email()
        } else {
            old(state)@
        }),
{
    match recovery {
        CreateRecovery::StayCurrentStep { .. } => true,
        CreateRecovery::BackToEmail { .. } => {
            state.revisit_email_prompt();
            true
        },
        CreateRecovery::Abort => false,
    }
}

/// The ways of approval that are offered.
pub fn build_create_approval_options(candidate: Option<LocalApprovalCandidate>) -> (r: Vec<
    ApprovalMenuOption,
>)
    ensures
        option_views(r@) == candidate_options("Verify with email"@, candidate),
{
    build_options_for_candidate("Verify with email".to_owned(), candidate)
}

/// The first option that shows this label.
pub open spec fn option_labelled(options: Seq<OptionView>, label: Seq<char>) -> Option<OptionView>
    decreases options.len(),
{
    if options.len() == 0 {
        None
    } else if options[0].label_text() == label {
        Some(options[0])
    } else {
        option_labelled(options.drop_first(), label)
    }
}

/// The plan that an option stands for.
pub open spec fn option_plan(option: OptionView, parent: Option<Seq<char>>) -> PlanView {
    match option {
        OptionView::Email { .. } => email_plan(parent),
        OptionView::DirectLocal { auth_domain, .. } => PlanView {
            parent: Some(auth_domain),
            auth: AuthMethod::Identity,
            helper: None,
        },
        OptionView::Helper(helper) => PlanView {
            parent: Some(helper.auth_domain),
            auth: AuthMethod::Identity,
            helper: Some(helper.action),
        },
    }
}

pub open spec fn selected_plan(
    options: Seq<OptionView>,
    label: Seq<char>,
    parent: Option<Seq<char>>,
) -> Result<PlanView, CreateError> {
    match option_labelled(options, label) {
        Some(option) => Ok(option_plan(option, parent)),
        None => Err(CreateError::ApprovalUnavailable),
    }
}

/// The plan behind the chosen label.
pub fn create_plan_from_selection(
    options: &Vec<ApprovalMenuOption>,
    selected: &str,
    parent_identity: Option<&str>,
) -> (r: Result<CreateApprovalPlan, CreateError>)
    ensures
        planned(r) == selected_plan(
            option_views(options@),
            selected@,
            match parent_identity {
                Some(parent) => Some(parent@),
                None => None,
            },
        ),
{
    let ghost all = option_views(options@);
    let mut i: usize = 0;
    assert(all.skip(0) == all);
    while i < options.len()
        invariant
            i <= options@.len(),
            all == option_views(options@),
            option_labelled(all, selected@) == option_labelled(all.skip(i as int), selected@),
        decreases options.len() - i,
    {
        assert(all.skip(i as int)[0] == options@[i as int]@);
        assert(all.skip(i as int).drop_first() == all.skip(i + 1));
        if same(&options[i].label(), selected) {
            return match &options[i] {
                ApprovalMenuOption::Email { .. } => Ok(
                    CreateApprovalPlan {
                        parent_identity: match parent_identity {
                            Some(parent) => Some(parent.to_owned()),
                            None => None,
                        },
                        auth: AuthMethod::Email,
                        helper_action: None,
                    },
                ),
                ApprovalMenuOption::DirectLocal(local) => Ok(
                    CreateApprovalPlan {
                        parent_identity: Some(local.auth_domain.clone()),
                        auth: AuthMethod::Identity,
                        helper_action: None,
                    },
                ),
                ApprovalMenuOption::Helper(helper) => Ok(
                    CreateApprovalPlan {
                        parent_identity: Some(helper.auth_domain.clone()),
                        auth: AuthMethod::Identity,
                        helper_action: Some(helper.action),
                    },
                ),
            };
        }
        i += 1;
    }
    Err(CreateError::ApprovalUnavailable)
}

/// Whether this is how a saved parent can take part in the approval.
pub open spec fn is_candidate(
    candidate: LocalApprovalCandidate,
    summary: LocalIdentitySummary,
) -> bool {
    match summary.status {
        LocalIdentityStatus::Ready { .. } => candidate matches LocalApprovalCandidate::Ready {
            short_name,
            auth_domain,
        } && short_name@ == summary.target.short() && auth_domain@
            == summary.target.name.full@,
        LocalIdentityStatus::Expired { .. } => candidate matches LocalApprovalCandidate::Expired {
            short_name,
            auth_domain,
            can_renew: true,
            can_reapply: true,
        } && short_name@ == summary.target.short() && auth_domain@
            == summary.target.name.full@,
        LocalIdentityStatus::Incomplete {
            detail: why,
        } => candidate matches LocalApprovalCandidate::Incomplete {
            short_name,
            auth_domain,
            detail,
        } && short_name@ == summary.target.short() && auth_domain@
            == summary.target.name.full@ && detail == why,
        LocalIdentityStatus::Invalid {
            detail: why,
        } => candidate matches LocalApprovalCandidate::Invalid {
            short_name,
            auth_domain,
            detail,
        } && short_name@ == summary.target.short() && auth_domain@
            == summary.target.name.full@ && detail == why,
    }
}

/// How a saved parent can take part in the approval.
pub fn create_candidate_from_summary(summary: &LocalIdentitySummary) -> (r:
    LocalApprovalCandidate)
    requires
        summary.target.wf(),
    ensures
        is_candidate(r, *summary),
{
    proof {
        wf_name_len(summary.target.name);
    }
    let short_name = summary.target.short_name().to_owned();
    let auth_domain = summary.target.name.full.clone();
    match &summary.status {
        LocalIdentityStatus::Ready { .. } => LocalApprovalCandidate::ready(
            short_name,
            auth_domain,
        ),
        LocalIdentityStatus::Expired { .. } => LocalApprovalCandidate::expired(
            short_name,
            auth_domain,
            true,
            true,
        ),
        LocalIdentityStatus::Incomplete { detail } => LocalApprovalCandidate::incomplete(
            short_name,
            auth_domain,
            detail.clone(),
        ),
        LocalIdentityStatus::Invalid { detail } => LocalApprovalCandidate::invalid(
            short_name,
            auth_domain,
            detail.clone(),
        ),
    }
}

/// How the parent of a sub-identity can take part in its approval, by what is saved of the
/// parent on this device. A root identity has no parent.
pub fn resolve_parent_candidate(
    target: &IdentityTarget,
    saved: Option<&LocalIdentitySummary>,
) -> (r: Option<LocalApprovalCandidate>)
    requires
        target.wf(),
        saved matches Some(summary) ==> summary.target.wf(),
    ensures
        match (target.parent, saved) {
            (None, _) => r is None,
            (Some(parent), None) => r matches Some(LocalApprovalCandidate::Missing {
                short_name,
                auth_domain,
            }) && short_name@ == parent.partial() && auth_domain@ == parent.full@,
            (Some(_), Some(summary)) => r matches Some(candidate) && is_candidate(
                candidate,
                *summary,
            ),
        },
{
    match (target.parent(), saved) {
        (None, _) => None,
        (Some(parent), None) => {
            proof {
                wf_name_len(*parent);
            }
            Some(
                LocalApprovalCandidate::missing(
                    parent.as_partial().to_owned(),
                    parent.as_full().to_owned(),
                ),
            )
        },
        (Some(_), Some(summary)) => Some(create_candidate_from_summary(summary)),
    }
}

/// The parent of a sub-identity, where it is saved on this device and ready.
pub fn resolve_ready_parent_identity(
    target: &IdentityTarget,
    saved: Option<&LocalIdentitySummary>,
) -> (r: Option<IdentityName>)
    ensures
        r == match (target.level, saved) {
            (IdentityLevel::SubIdentity, Some(summary)) => if summary.status is Ready {
                target.parent
            } else {
                None
            },
            (_, _) => None,
        },
{
    match (target.level(), saved) {
        (IdentityLevel::SubIdentity, Some(summary)) => {
            if summary.status.is_ready() {
                match target.parent() {
                    Some(parent) => Some(parent.copy()),
                    None => None,
                }
            } else {
                None
            }
        },
        (_, _) => None,
    }
}

/// Whether the saved parent can approve: where it is not ready, the error tells where it is
/// saved.
pub fn ensure_parent_identity_ready(saved: &LocalIdentitySummary) -> (r: Result<(), String>)
    ensures
        match r {
            Ok(()) => saved.status is Ready,
            Err(path) => saved.status !is Ready && path@ == saved.dir@,
        },
{
    if saved.status.is_ready() {
        Ok(())
    } else {
        Err(saved.dir.clone())
    }
}

/// The plan that needs no question. A root identity is approved by email. A sub-identity is
/// approved as it was asked for; by its parent only where that is ready on this device. Where
/// the parent is ready and nothing was asked for, the choice is not made silently.
pub open spec fn non_interactive_plan(
    target: IdentityTarget,
    requested: Option<AuthMethod>,
    ready_parent: Option<Seq<char>>,
) -> Result<PlanView, CreateError> {
    match target.parent {
        None => match requested {
            Some(AuthMethod::Identity) => Err(CreateError::RootNeedsEmail { target }),
            _ => Ok(email_plan(None)),
        },
        Some(parent) => match (requested, ready_parent) {
            (Some(AuthMethod::Identity), None) => Err(CreateError::ParentNotReady { target }),
            (Some(AuthMethod::Identity), Some(ready)) => Ok(
                PlanView { parent: Some(ready), auth: AuthMethod::Identity, helper: None },
            ),
            (None, Some(_)) => Err(CreateError::AuthRequired { target }),
            (_, _) => Ok(email_plan(Some(parent.partial()))),
        },
    }
}

/// The plan that needs no question.
pub fn resolve_non_interactive_approval_plan(
    target: &IdentityTarget,
    requested_auth: Option<AuthMethod>,
    ready_parent_identity: Option<&str>,
) -> (r: Result<CreateApprovalPlan, CreateError>)
    requires
        target.wf(),
    ensures
        planned(r) == non_interactive_plan(
            *target,
            requested_auth,
            match ready_parent_identity {
                Some(ready) => Some(ready@),
                None => None,
            },
        ),
{
    match &target.parent {
        None => match requested_auth {
            Some(AuthMethod::Identity) => Err(
                CreateError::RootNeedsEmail { target: target.copy() },
            ),
            _ => Ok(
                CreateApprovalPlan {
                    parent_identity: None,
                    auth: AuthMethod::Email,
                    helper_action: None,
                },
            ),
        },
        Some(parent) => {
            proof {
                wf_name_len(*parent);
            }
            match (requested_auth, ready_parent_identity) {
                (Some(AuthMethod::Identity), None) => Err(
                    CreateError::ParentNotReady { target: target.copy() },
                ),
                (Some(AuthMethod::Identity), Some(ready)) => Ok(
                    CreateApprovalPlan {
                        parent_identity: Some(ready.to_owned()),
                        auth: AuthMethod::Identity,
                        helper_action: None,
                    },
                ),
                (None, Some(_)) => Err(CreateError::AuthRequired { target: target.copy() }),
                (_, _) => Ok(
                    CreateApprovalPlan {
                        parent_identity: Some(parent.as_partial().to_owned()),
                        auth: AuthMethod::Email,
                        helper_action: None,
                    },
                ),
            }
        },
    }
}

/// A sub-identity that needs another seat is not created without a terminal.
pub fn ensure_non_interactive_sub_identity_checkout_not_required(
    target: &IdentityTarget,
    response: &CreateSubdomainResponse,
) -> (r: Result<(), CreateError>)
    ensures
        match r {
            Ok(()) => response.invoice is None,
            Err(error) => response.invoice is Some && error == (CreateError::SubCheckoutRequired {
                target: *target,
            }),
        },
{
    if response.invoice.is_some() {
        return Err(CreateError::SubCheckoutRequired { target: target.copy() });
    }
    Ok(())
}

/// What is shown before the name is asked for.
pub fn create_identity_name_opening() -> (r: &'static str)
    ensures
        r@ == "Create a new identity for this device.\n\nThis will create a new identity or sub-identity, complete the required verification,\nand save it on this device.\n\nUse a dotted name:\n  <given_name>.<surname>\n\nFor example:\n  alice.smith\n\nTo create a sub-identity, add one more name before it:\n  phone.alice.smith"@,
{
    "Create a new identity for this device.\n\nThis will create a new identity or sub-identity, complete the required verification,\nand save it on this device.\n\nUse a dotted name:\n  <given_name>.<surname>\n\nFor example:\n  alice.smith\n\nTo create a sub-identity, add one more name before it:\n  phone.alice.smith"
}

/// Only a sub-identity can be approved in more than one way.
pub fn can_switch_verification_method(target: &IdentityTarget) -> (r: bool)
    ensures
        r == (target.level == IdentityLevel::SubIdentity),
{
    match target.level() {
        IdentityLevel::SubIdentity => true,
        IdentityLevel::Identity => false,
    }
}

/// The question how the creation is verified.
pub fn approval_question(target: &IdentityTarget) -> (r: String)
    requires
        target.wf(),
    ensures
        r@ == "Choose how to verify creating "@ + target.short() + ":"@,
{
    proof {
        wf_name_len(target.name);
    }
    let mut r = "Choose how to verify creating ".to_owned();
    r.append(target.short_name());
    r.append(":");
    r
}

/// The question whether another seat is to be paid for.
pub fn seat_question(target: &IdentityTarget, parent: &IdentityName) -> (r: String)
    requires
        target.wf(),
        parent.wf(),
    ensures
        r@ == "Creating "@ + target.short() + " needs one more sub-identity slot under "@
            + parent.partial() + ". Start checkout now?"@,
{
    proof {
        wf_name_len(target.name);
        wf_name_len(*parent);
    }
    let mut r = "Creating ".to_owned();
    r.append(target.short_name());
    r.append(" needs one more sub-identity slot under ");
    r.append(parent.as_partial());
    r.append(". Start checkout now?");
    r
}

/// What the user reads where a root identity has to be paid for.
pub fn root_payment_block(target: &IdentityTarget, url: &str) -> (r: String)
    requires
        target.wf(),
    ensures
        r@ == "Payment is required to create "@ + target.short()
            + ".\n\nOpen this checkout page to continue:\n  "@ + url@,
{
    proof {
        wf_name_len(target.name);
    }
    let mut r = "Payment is required to create ".to_owned();
    r.append(target.short_name());
    r.append(".\n\nOpen this checkout page to continue:\n  ");
    r.append(url);
    r
}

/// What the user reads where another seat has to be paid for.
pub fn seat_payment_block(
    target: &IdentityTarget,
    invoice: &InvoiceDetail,
    quote: &SubdomainQuotaQuote,
) -> (r: String)
    requires
        target.wf(),
        quote.due > i64::MIN,
    ensures
        r@ == "Adding one more sub-identity slot is required to create "@ + target.short()
            + ".\n\nAmount due now: "@ + quote.currency@ + " "@ + minor_amount(quote.due as int)
            + "\nOpen this checkout page to continue:\n  "@ + invoice.url@,
{
    proof {
        wf_name_len(target.name);
    }
    let mut r = "Adding one more sub-identity slot is required to create ".to_owned();
    r.append(target.short_name());
    r.append(".\n\nAmount due now: ");
    r.append(&quote.currency);
    r.append(" ");
    r.append(&format_minor_amount(quote.due));
    r.append("\nOpen this checkout page to continue:\n  ");
    r.append(&invoice.url);
    r
}

/// The name of a parent as the user knows it: without the suffix, where it is a name at all.
pub open spec fn shown_name(identity: Seq<char>) -> Seq<char> {
    if names_target(identity) {
        partial_of(dhttp_full_name(identity)->0)
    } else {
        identity
    }
}

/// What the user reads before the parent is applied for.
pub fn helper_apply_block(target: &IdentityTarget, parent_identity: &str, replace_local: bool) -> (r:
    String)
    requires
        target.wf(),
    ensures
        r@ == "This command needs "@ + shown_name(parent_identity@)
            + " available on this device first.\n\nTo continue creating "@ + target.short()
            + ", it will "@ + (if replace_local {
            "re-apply"@
        } else {
            "apply"@
        }) + " "@ + shown_name(parent_identity@)
            + " on this device, then return here and continue verification."@,
{
    proof {
        wf_name_len(target.name);
    }
    let parent = match IdentityTarget::parse(parent_identity) {
        Ok(parent) => {
            proof {
                wf_name_len(parent.name);
            }
            parent.short_name().to_owned()
        },
        Err(_) => parent_identity.to_owned(),
    };
    let mut r = "This command needs ".to_owned();
    r.append(&parent);
    r.append(" available on this device first.\n\nTo continue creating ");
    r.append(target.short_name());
    r.append(", it will ");
    if replace_local {
        r.append("re-apply");
    } else {
        r.append("apply");
    }
    r.append(" ");
    r.append(&parent);
    r.append(" on this device, then return here and continue verification.");
    r
}

pub open spec fn seat_refusal(error: Error) -> bool {
    contains_text(error.words(), "subdomain quota exceeded"@)
}

/// Whether the parent could not approve for want of a seat.
pub fn is_seat_refusal(error: &Error) -> (r: bool)
    ensures
        r == seat_refusal(*error),
{
    has_text(&error.to_text(), "subdomain quota exceeded")
}

pub open spec fn seat_notice_text(target: IdentityTarget, parent: IdentityName) -> Seq<char> {
    "Creating "@ + target.short() + " needs checkout to add one more sub-identity slot under "@
        + parent.partial() + ".\nChoose email verification to continue with checkout."@
}

/// What the user reads where the parent could not approve for want of a seat.
pub fn seat_notice(target: &IdentityTarget, parent: &IdentityName) -> (r: String)
    requires
        target.wf(),
        parent.wf(),
    ensures
        r@ == seat_notice_text(*target, *parent),
{
    proof {
        wf_name_len(target.name);
        wf_name_len(*parent);
    }
    let mut r = "Creating ".to_owned();
    r.append(target.short_name());
    r.append(" needs checkout to add one more sub-identity slot under ");
    r.append(parent.as_partial());
    r.append(".\nChoose email verification to continue with checkout.");
    r
}

/// Going back forgets what comes behind the step, and nothing before it.
pub proof fn going_back_keeps_what_came_before(state: StateView)
    ensures
        ({
            let next = state.back_to_email();
            &&& next.target == state.target && next.kind == state.kind && next.plan == state.plan
            &&& next.email == state.email && next.email_prompt_required
            &&& next.verify_code is None && next.sent_to is None
            &&& next.target_opening_required == state.target_opening_required
            &&& next.kind_prompt_required == state.kind_prompt_required
        }),
        ({
            let next = state.back_to_approval();
            &&& next.target == state.target && next.kind == state.kind && next.plan is None
            &&& next.email is None && next.email_prompt_required
            &&& next.verify_code is None && next.sent_to is None
            &&& next.target_opening_required == state.target_opening_required
            &&& next.kind_prompt_required == state.kind_prompt_required
        }),
        ({
            let next = state.back_to_kind();
            &&& next.target == state.target && next.kind == state.kind && next.kind_prompt_required
            &&& next.plan is None && next.email is None && next.verify_code is None && next.sent_to
                is None
            &&& next.target_opening_required == state.target_opening_required
        }),
        ({
            let next = state.back_to_target();
            &&& next.target == state.target && next.target_opening_required
            &&& next.kind is None && next.kind_prompt_required
            &&& next.plan is None && next.email is None && next.verify_code is None && next.sent_to
                is None
        }),
{
}

/// A code is asked for again where it was wrong or had expired, the address where it does not
/// belong to the identity, by the status and the code as they came.
pub proof fn refused_codes_are_asked_for_again(error: Error)
    ensures
        stays(error) <==> (error matches Error::Api { status, code, .. } && status == 401 && (code@
            == "verify_code_invalid"@ || code@ == "1102"@ || code@ == "verify_code_expired"@
            || code@ == "1103"@)),
        goes_back_to_email(error) <==> (error matches Error::Api { status, code, .. } && status
            == 401 && (code@ == "domain_email_not_matched"@ || code@ == "1211"@)),
{
    if let Error::Api { code, .. } = error {
        crate::cert_server::codes_have_a_number_and_a_name(code@);
    reveal_strlit("verify_code_invalid");
    reveal_strlit("verify_code_expired");
    reveal_strlit("domain_email_not_matched");
    assert("verify_code_invalid"@.len() == 19);
    assert("verify_code_expired"@.len() == 19);
    assert("domain_email_not_matched"@.len() == 24);
    assert("verify_code_invalid"@[12] != "verify_code_expired"@[12]);
    }
}

/// The first option with the chosen label is the one that is taken.
pub proof fn the_chosen_option_is_taken(options: Seq<OptionView>, label: Seq<char>, i: int)
    requires
        0 <= i < options.len(),
        options[i].label_text() == label,
        forall|j: int| 0 <= j < i ==> (#[trigger] options[j]).label_text() != label,
    ensures
        option_labelled(options, label) == Some(options[i]),
    decreases options.len(),
{
    if i > 0 {
        let rest = options.drop_first();
        assert(options[0].label_text() != label);
        assert(rest[i - 1] == options[i]);
        assert forall|j: int| 0 <= j < i - 1 implies (#[trigger] rest[j]).label_text() != label by {
            assert(rest[j] == options[j + 1]);
        }
        the_chosen_option_is_taken(rest, label, i - 1);
    }
}

/// A label that no option has is refused.
pub proof fn unknown_labels_are_refused(
    options: Seq<OptionView>,
    label: Seq<char>,
    parent: Option<Seq<char>>,
)
    requires
        forall|j: int| 0 <= j < options.len() ==> (#[trigger] options[j]).label_text() != label,
    ensures
        selected_plan(options, label, parent) == Err::<PlanView, CreateError>(
            CreateError::ApprovalUnavailable,
        ),
    decreases options.len(),
{
    if options.len() > 0 {
        let rest = options.drop_first();
        assert(options[0].label_text() != label);
        assert forall|j: int| 0 <= j < rest.len() implies (#[trigger] rest[j]).label_text()
            != label by {
            assert(rest[j] == options[j + 1]);
        }
        unknown_labels_are_refused(rest, label, parent);
    }
}

/// What an option stands for: email approves by email, a saved identity approves itself, and a
/// helper makes that identity ready first.
pub proof fn options_stand_for_their_approval(option: OptionView, parent: Option<Seq<char>>)
    ensures
        option_plan(option, parent).auth == AuthMethod::Email <==> option is Email,
        option is Email ==> option_plan(option, parent).parent == parent,
        option_plan(option, parent).helper is Some <==> option is Helper,
        option matches OptionView::DirectLocal { auth_domain, .. } ==> option_plan(
            option,
            parent,
        ).parent == Some(auth_domain),
        option matches OptionView::Helper(helper) ==> option_plan(option, parent).parent == Some(
            helper.auth_domain,
        ) && option_plan(option, parent).helper == Some(helper.action),
{
}

/// Without a question a root identity is approved by email, and a sub-identity by its parent
/// only where that was asked for and the parent is ready; where the parent is ready and nothing
/// was asked for, the user has to choose.
pub proof fn approvals_without_a_question(
    target: IdentityTarget,
    requested: Option<AuthMethod>,
    ready: Option<Seq<char>>,
)
    requires
        target.wf(),
    ensures
        ({
            let plan = non_interactive_plan(target, requested, ready);
            let sub = target.level == IdentityLevel::SubIdentity;
            &&& (plan matches Ok(p) ==> p.helper is None)
            &&& (plan matches Ok(p) && p.auth == AuthMethod::Identity <==> sub && requested == Some(
                AuthMethod::Identity,
            ) && ready is Some)
            &&& (plan matches Ok(p) && p.auth == AuthMethod::Identity ==> plan->Ok_0.parent == ready)
            &&& (plan matches Ok(p) && p.auth == AuthMethod::Email <==> (requested == Some(
                AuthMethod::Email,
            ) || (requested is None && (!sub || ready is None))))
            &&& (plan == Err::<PlanView, CreateError>(CreateError::RootNeedsEmail { target })
                <==> !sub && requested == Some(AuthMethod::Identity))
            &&& (plan == Err::<PlanView, CreateError>(CreateError::ParentNotReady { target })
                <==> sub && requested == Some(AuthMethod::Identity) && ready is None)
            &&& (plan == Err::<PlanView, CreateError>(CreateError::AuthRequired { target })
                <==> sub && requested is None && ready is Some)
        }),
{
}

/// What another name, another kind, another approval and another address make unknown.
pub proof fn changes_forget_what_rests_on_them(state: StateView)
    ensures
        state.email_changed() == (StateView { verify_code: None, sent_to: None, ..state }),
        state.approval_changed() == (StateView {
            email: None,
            email_prompt_required: true,
            verify_code: None,
            sent_to: None,
            ..state
        }),
        state.kind_changed() == (StateView {
            kind_prompt_required: false,
            plan: None,
            email: None,
            email_prompt_required: true,
            verify_code: None,
            sent_to: None,
            ..state
        }),
        state.target_changed() == (StateView {
            target_opening_required: true,
            kind: None,
            kind_prompt_required: false,
            plan: None,
            email: None,
            email_prompt_required: true,
            verify_code: None,
            sent_to: None,
            ..state
        }),
{
}

/// A saved parent is offered by its status, under its own name.
pub proof fn parents_are_candidates_by_their_status(
    candidate: LocalApprovalCandidate,
    summary: LocalIdentitySummary,
)
    requires
        is_candidate(candidate, summary),
    ensures
        candidate is Ready <==> summary.status is Ready,
        candidate is Expired <==> summary.status is Expired,
        candidate is Incomplete <==> summary.status is Incomplete,
        candidate is Invalid <==> summary.status is Invalid,
        candidate matches LocalApprovalCandidate::Expired { can_renew, can_reapply, .. }
            ==> can_renew && can_reapply,
        candidate matches LocalApprovalCandidate::Ready { short_name, auth_domain } ==> short_name@
            == summary.target.short() && auth_domain@ == summary.target.name.full@,
{
}

/// Only a sub-identity can be approved in another way than by email.
pub proof fn only_sub_identities_switch(can_switch: bool)
    ensures
        email_actions(can_switch).contains(CreateEmailAction::SwitchVerificationMethod)
            <==> can_switch,
        email_actions(can_switch).len() == if can_switch {
            3int
        } else {
            2int
        },
        email_actions(can_switch).last() == CreateEmailAction::ChangeIdentityName,
        email_actions(can_switch)[email_actions(can_switch).len() - 2]
            == CreateEmailAction::ChangeCertificateKind,
{
    if can_switch {
        assert(email_actions(can_switch)[0] == CreateEmailAction::SwitchVerificationMethod);
    }
}

/// A name is shown in its short form where it names an identity, and as it is where it does not.
pub proof fn names_are_shown_short(identity: Seq<char>, short: Seq<char>)
    ensures
        names_target(identity) && dhttp_full_name(identity) == Some(short + ".dhttp.net"@)
            ==> shown_name(identity) == short,
        !names_target(identity) ==> shown_name(identity) == identity,
{
    reveal_strlit(".dhttp.net");
    assert(".dhttp.net"@.len() == 10);
    assert((short + ".dhttp.net"@).take(short.len() as int) =~= short);
}

/// Arguments are refused for a name that is none, or, with a name that is one, for a kind that
/// is none; the kind is told as it was given.
pub proof fn refused_arguments_are_told(command: Create, error: CreateError)
    requires
        names_refused(command, error),
    ensures
        error is Target || error is Kind,
        error is Target ==> (command.name matches Some(name) && !names_target(name@)),
        error matches CreateError::Kind(ParseIdentityKindError::Invalid { value }) ==> (
        command.kind matches Some(kind) && value@ == kind@ && kind@ != "primary"@ && kind@
            != "secondary"@) && (command.name matches Some(name) ==> names_target(name@)),
{
}

/// A parent that cannot be used is offered under its own name, with the reason as it is known.
pub proof fn unusable_parents_tell_why(
    candidate: LocalApprovalCandidate,
    summary: LocalIdentitySummary,
)
    requires
        is_candidate(candidate, summary),
    ensures
        candidate matches LocalApprovalCandidate::Incomplete { short_name, auth_domain, detail }
            ==> short_name@ == summary.target.short() && auth_domain@ == summary.target.name.full@
            && summary.status == (LocalIdentityStatus::Incomplete { detail }),
        candidate matches LocalApprovalCandidate::Invalid { short_name, auth_domain, detail }
            ==> short_name@ == summary.target.short() && auth_domain@ == summary.target.name.full@
            && summary.status == (LocalIdentityStatus::Invalid { detail }),
        candidate matches LocalApprovalCandidate::Expired { short_name, auth_domain, .. }
            ==> short_name@ == summary.target.short() && auth_domain@ == summary.target.name.full@,
{
}

} // verus!
