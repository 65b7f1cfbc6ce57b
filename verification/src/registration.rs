//! Registering an identity with the certificate server, and paying for it where that is asked.
use vstd::prelude::*;

use crate::cert_server::{
    CreateDomainResponse, CreateSubdomainAttempt, CreateSubdomainResponse, Error, InvoiceDetail,
    SubdomainQuotaQuote,
};
use crate::checkout::{
    checkout_state, classify_checkout, payment_block, payment_instruction_block_or_link,
    payment_link_block, payment_link_only_instruction_block, qr_text, CheckoutState,
};
use crate::target::{wf_name_len, IdentityName, IdentityTarget};
use crate::text::{decimal_i64, decimal_int, same, two_digit_text, two_digits};

verus! {

pub fn is_domain_not_found(error: &Error) -> (r: bool)
    ensures
        r == (error.code() == Some("domain_not_found"@)),
{
    error.is_api_code("domain_not_found")
}

pub fn is_domain_conflict(error: &Error) -> (r: bool)
    ensures
        r == (error.code() == Some("domain_conflict"@)),
{
    error.is_api_code("domain_conflict")
}

pub fn is_subdomain_quota_exceeded(error: &Error) -> (r: bool)
    ensures
        r == (error.code() == Some("subdomain_quota_exceeded"@)),
{
    error.is_api_code("subdomain_quota_exceeded")
}

/// What is shown while an identity is created, of either level.
pub fn create_identity_progress_message() -> (r: &'static str)
    ensures
        r@ == "Creating identity..."@,
{
    "Creating identity..."
}

pub open spec fn missing_parent_text(target: Seq<char>, parent: Seq<char>) -> Seq<char> {
    "Cannot register "@ + target + " because its parent identity, "@ + parent
        + ", does not exist."@
}

pub fn missing_parent_identity_message(target: &IdentityTarget, parent: &str) -> (r: String)
    requires
        target.wf(),
    ensures
        r@ == missing_parent_text(target.short(), parent@),
{
    proof {
        wf_name_len(target.name);
    }
    let mut r = "Cannot register ".to_owned();
    r.append(target.short_name());
    r.append(" because its parent identity, ");
    r.append(parent);
    r.append(", does not exist.");
    r
}

/// Why an identity was not registered.
#[derive(Debug)]
pub enum RegistrationError {
    Server(Error),
    MissingParent { target: IdentityName, parent: IdentityName, error: Error },
    /// Payment is needed, and there is no terminal to ask for it.
    CheckoutRequired { target: IdentityName },
    QuotaCheckoutRequired { target: IdentityName },
    /// The user did not start another checkout.
    NotCompleted,
    CheckoutNotTerminal,
    CheckoutFailed,
    QuoteChanged,
    NoInvoice,
    Prompt(String),
}

impl RegistrationError {
    pub open spec fn wf(self) -> bool {
        match self {
            RegistrationError::MissingParent { target, parent, .. } => target.wf() && parent.wf(),
            RegistrationError::CheckoutRequired { target } => target.wf(),
            RegistrationError::QuotaCheckoutRequired { target } => target.wf(),
            _ => true,
        }
    }

    pub open spec fn words(self) -> Seq<char> {
        match self {
            RegistrationError::Server(error) => error.words(),
            RegistrationError::MissingParent { target, parent, .. } => missing_parent_text(
                target.partial(),
                parent.partial(),
            ),
            RegistrationError::CheckoutRequired { target } => "creating "@ + target.partial()
                + " requires interactive checkout; rerun this command in an interactive terminal to complete payment"@,
            RegistrationError::QuotaCheckoutRequired { target } => "creating "@ + target.partial()
                + " exceeded the sub-identity quota and requires interactive checkout; rerun this command in an interactive terminal to expand the parent identity quota"@,
            RegistrationError::NotCompleted => "checkout was not completed"@,
            RegistrationError::CheckoutNotTerminal => "checkout did not reach a terminal state"@,
            RegistrationError::CheckoutFailed => "checkout failed or returned an unsupported terminal state"@,
            RegistrationError::QuoteChanged => "subdomain quota expansion quote changed during checkout"@,
            RegistrationError::NoInvoice => "quota expansion checkout did not return an invoice number"@,
            RegistrationError::Prompt(message) => message@,
        }
    }

    pub fn to_text(&self) -> (r: String)
        requires
            self.wf(),
        ensures
            r@ == self.words(),
    {
        match self {
            RegistrationError::Server(error) => error.to_text(),
            RegistrationError::MissingParent { target, parent, .. } => {
                proof {
                    wf_name_len(*target);
                    wf_name_len(*parent);
                }
                let mut r = "Cannot register ".to_owned();
                r.append(target.as_partial());
                r.append(" because its parent identity, ");
                r.append(parent.as_partial());
                r.append(", does not exist.");
                r
            },
            RegistrationError::CheckoutRequired { target } => {
                proof {
                    wf_name_len(*target);
                }
                let mut r = "creating ".to_owned();
                r.append(target.as_partial());
                r.append(
                    " requires interactive checkout; rerun this command in an interactive terminal to complete payment",
                );
                r
            },
            RegistrationError::QuotaCheckoutRequired { target } => {
                proof {
                    wf_name_len(*target);
                }
                let mut r = "creating ".to_owned();
                r.append(target.as_partial());
                r.append(
                    " exceeded the sub-identity quota and requires interactive checkout; rerun this command in an interactive terminal to expand the parent identity quota",
                );
                r
            },
            RegistrationError::NotCompleted => "checkout was not completed".to_owned(),
            RegistrationError::CheckoutNotTerminal => "checkout did not reach a terminal state".to_owned(),
            RegistrationError::CheckoutFailed => "checkout failed or returned an unsupported terminal state".to_owned(),
            RegistrationError::QuoteChanged => "subdomain quota expansion quote changed during checkout".to_owned(),
            RegistrationError::NoInvoice => "quota expansion checkout did not return an invoice number".to_owned(),
            RegistrationError::Prompt(message) => message.clone(),
        }
    }
}

/// Without a terminal only a root identity that needs no payment is created.
pub fn ensure_non_interactive_root_checkout_not_required(
    target: &IdentityTarget,
    response: &CreateDomainResponse,
) -> (r: Result<(), RegistrationError>)
    ensures
        match r {
            Ok(()) => checkout_state(*response) == CheckoutState::Completed,
            Err(error) => checkout_state(*response) != CheckoutState::Completed && error
                == (RegistrationError::CheckoutRequired { target: target.name }),
        },
{
    match classify_checkout(response) {
        CheckoutState::Completed => Ok(()),
        _ => Err(RegistrationError::CheckoutRequired { target: target.name.copy() }),
    }
}

/// Without a terminal only a sub-identity that needs no payment is created.
pub fn ensure_non_interactive_sub_identity_checkout_not_required(
    target: &IdentityTarget,
    response: &CreateSubdomainResponse,
) -> (r: Result<(), RegistrationError>)
    ensures
        match r {
            Ok(()) => response.invoice is None,
            Err(error) => response.invoice is Some && error
                == (RegistrationError::QuotaCheckoutRequired { target: target.name }),
        },
{
    if response.invoice.is_some() {
        return Err(RegistrationError::QuotaCheckoutRequired { target: target.name.copy() });
    }
    Ok(())
}

/// A summary of what is paid for, and the payment instructions; they hold a QR code only where
/// that is wanted and the link fits one.
pub open spec fn checkout_block(summary: Seq<char>, url: Seq<char>, with_qr: bool) -> Seq<char> {
    summary + "\n\n"@ + (match (with_qr, qr_text(url)) {
        (true, Some(qr)) => payment_block(qr, url),
        _ => payment_link_block(url),
    })
}

pub fn checkout_instruction_block(summary: &str, url: &str, include_qr: bool) -> (r: String)
    ensures
        r@ == checkout_block(summary@, url@, include_qr),
{
    let mut r = summary.to_owned();
    r.append("\n\n");
    if include_qr {
        r.append(&payment_instruction_block_or_link(url));
    } else {
        r.append(&payment_link_only_instruction_block(url));
    }
    r
}

pub open spec fn root_summary(target: Seq<char>) -> Seq<char> {
    "Payment is required to create "@ + target + "."@
}

pub fn root_checkout_summary(target: &IdentityTarget) -> (r: String)
    requires
        target.wf(),
    ensures
        r@ == root_summary(target.short()),
{
    proof {
        wf_name_len(target.name);
    }
    let mut r = "Payment is required to create ".to_owned();
    r.append(target.short_name());
    r.append(".");
    r
}

/// What the user reads where a root identity has to be paid for.
pub fn root_checkout_instruction_block(
    target: &IdentityTarget,
    response: &CreateDomainResponse,
    include_qr: bool,
) -> (r: Option<String>)
    requires
        target.wf(),
    ensures
        match response.payment_entry {
            Some(entry) => r matches Some(block) && block@ == checkout_block(
                root_summary(target.short()),
                entry.url@,
                include_qr,
            ),
            None => r is None,
        },
{
    match &response.payment_entry {
        Some(entry) => Some(
            checkout_instruction_block(&root_checkout_summary(target), &entry.url, include_qr),
        ),
        None => None,
    }
}

/// An amount of cents, divided towards zero into whole units and two digits.
pub open spec fn minor_amount(amount: int) -> Seq<char> {
    if amount < 0 {
        decimal_int(-((-amount) / 100)) + "."@ + two_digits(((-amount) % 100) as nat)
    } else {
        decimal_int(amount / 100) + "."@ + two_digits((amount % 100) as nat)
    }
}

/// An amount of cents in whole units with two decimals.
pub fn format_minor_amount(amount: i64) -> (r: String)
    requires
        amount > i64::MIN,
    ensures
        r@ == minor_amount(amount as int),
{
    let positive: i64 = if amount < 0 {
        -amount
    } else {
        amount
    };
    let units: i64 = positive / 100;
    let cents: u64 = (positive % 100) as u64;
    let major: i64 = if amount < 0 {
        -units
    } else {
        units
    };
    let mut r = decimal_i64(major);
    r.append(".");
    r.append(&two_digit_text(cents));
    r
}

pub open spec fn subdomain_summary(target: Seq<char>, quote: SubdomainQuotaQuote) -> Seq<char> {
    "Creating "@ + target
        + " exceeded the sub-identity quota.\n\nAmount due now to expand and continue: "@
        + quote.currency@ + " "@ + minor_amount(quote.due as int)
}

pub fn subdomain_checkout_summary(target: &IdentityTarget, quote: &SubdomainQuotaQuote) -> (r:
    String)
    requires
        target.wf(),
        quote.due > i64::MIN,
    ensures
        r@ == subdomain_summary(target.short(), *quote),
{
    proof {
        wf_name_len(target.name);
    }
    let mut r = "Creating ".to_owned();
    r.append(target.short_name());
    r.append(" exceeded the sub-identity quota.\n\nAmount due now to expand and continue: ");
    r.append(&quote.currency);
    r.append(" ");
    r.append(&format_minor_amount(quote.due));
    r
}

/// What the user reads where more seats have to be paid for.
pub fn subdomain_checkout_instruction_block(
    target: &IdentityTarget,
    invoice: &InvoiceDetail,
    quote: &SubdomainQuotaQuote,
    include_qr: bool,
) -> (r: String)
    requires
        target.wf(),
        quote.due > i64::MIN,
    ensures
        r@ == checkout_block(
            subdomain_summary(target.short(), *quote),
            invoice.url@,
            include_qr,
        ),
{
    checkout_instruction_block(
        &subdomain_checkout_summary(target, quote),
        &invoice.url,
        include_qr,
    )
}

/// Registers a root identity without a terminal. An identity that exists is no failure.
pub fn ensure_identity_exists_with_token(
    target: &IdentityTarget,
    reply: Result<CreateDomainResponse, Error>,
) -> (r: Result<(), RegistrationError>)
    ensures
        match reply {
            Ok(response) => if checkout_state(response) == CheckoutState::Completed {
                r is Ok
            } else {
                r == Err::<(), RegistrationError>(
                    RegistrationError::CheckoutRequired { target: target.name },
                )
            },
            Err(error) => if error.code() == Some("domain_conflict"@) {
                r is Ok
            } else {
                r == Err::<(), RegistrationError>(RegistrationError::Server(error))
            },
        },
{
    match reply {
        Ok(response) => ensure_non_interactive_root_checkout_not_required(target, &response),
        Err(error) => if is_domain_conflict(&error) {
            Ok(())
        } else {
            Err(RegistrationError::Server(error))
        },
    }
}

/// Registers a sub-identity without a terminal.
pub fn create_sub_identity_with_token(
    target: &IdentityTarget,
    parent: &IdentityName,
    reply: Result<CreateSubdomainResponse, Error>,
) -> (r: Result<CreateSubdomainResponse, RegistrationError>)
    ensures
        match reply {
            Ok(response) => r == Ok::<CreateSubdomainResponse, RegistrationError>(response),
            Err(error) => r == Err::<CreateSubdomainResponse, RegistrationError>(
                sub_identity_refusal(error, target.name, *parent),
            ),
        },
{
    match reply {
        Ok(response) => Ok(response),
        Err(error) => Err(refuse_sub_identity(error, &target.name, parent)),
    }
}

/// What a refused sub-identity means: a parent that does not exist is named.
pub open spec fn sub_identity_refusal(error: Error, target: IdentityName, parent: IdentityName) ->
    RegistrationError {
    if error.code() == Some("domain_not_found"@) {
        RegistrationError::MissingParent { target, parent, error }
    } else {
        RegistrationError::Server(error)
    }
}

fn refuse_sub_identity(error: Error, target: &IdentityName, parent: &IdentityName) -> (r:
    RegistrationError)
    ensures
        r == sub_identity_refusal(error, *target, *parent),
{
    if is_domain_not_found(&error) {
        RegistrationError::MissingParent { target: target.copy(), parent: parent.copy(), error }
    } else {
        RegistrationError::Server(error)
    }
}

/// What a checkout is restarted for.
#[derive(Debug, Clone, Copy, PartialEq, Eq, Structural)]
pub enum RestartReason {
    Expired,
    Cancelled,
}

pub open spec fn root_restart_text(reason: RestartReason) -> Seq<char> {
    match reason {
        RestartReason::Expired => "This checkout expired. Start a new checkout for this identity?"@,
        RestartReason::Cancelled => "This checkout was cancelled. Start a new checkout for this identity?"@,
    }
}

/// The question after a checkout of a root identity ended unpaid.
pub fn root_restart_question(reason: RestartReason) -> (r: &'static str)
    ensures
        r@ == root_restart_text(reason),
{
    match reason {
        RestartReason::Expired => "This checkout expired. Start a new checkout for this identity?",
        RestartReason::Cancelled => "This checkout was cancelled. Start a new checkout for this identity?",
    }
}

#[derive(Debug, Clone, Copy, PartialEq, Eq, Structural)]
pub enum RootPhase {
    Creating,
    Paying,
    AskRestart,
    Done,
}

#[derive(Debug)]
pub enum RootEvent {
    Created(Result<CreateDomainResponse, Error>),
    CheckoutEnded(Result<CreateDomainResponse, Error>),
    Answer(bool),
    PromptFailed(String),
}

#[derive(Debug)]
pub enum RootAction {
    Create,
    /// Shows the payment instructions of this reply and waits for its checkout.
    Pay(CreateDomainResponse),
    AskRestart(RestartReason),
    Finish(Result<(), RegistrationError>),
    Nothing,
}

/// What follows on an event while a root identity is registered on a terminal. An identity
/// that exists is no failure, one that needs no payment is done, and a checkout that expired
/// or was cancelled may be started again.
pub open spec fn root_after(phase: RootPhase, event: RootEvent) -> (RootPhase, RootAction) {
    match (phase, event) {
        (RootPhase::Creating, RootEvent::Created(Ok(response))) => if response.payment_entry is None {
            (RootPhase::Done, RootAction::Finish(Ok(())))
        } else {
            (RootPhase::Paying, RootAction::Pay(response))
        },
        (RootPhase::Creating, RootEvent::Created(Err(error))) => (
            RootPhase::Done,
            RootAction::Finish(
                if error.code() == Some("domain_conflict"@) {
                    Ok(())
                } else {
                    Err(RegistrationError::Server(error))
                },
            ),
        ),
        (RootPhase::Paying, RootEvent::CheckoutEnded(Err(error))) => (
            RootPhase::Done,
            RootAction::Finish(Err(RegistrationError::Server(error))),
        ),
        (RootPhase::Paying, RootEvent::CheckoutEnded(Ok(response))) => match checkout_state(
            response,
        ) {
            CheckoutState::Completed => (RootPhase::Done, RootAction::Finish(Ok(()))),
            CheckoutState::Expired => (
                RootPhase::AskRestart,
                RootAction::AskRestart(RestartReason::Expired),
            ),
            CheckoutState::Cancelled => (
                RootPhase::AskRestart,
                RootAction::AskRestart(RestartReason::Cancelled),
            ),
            CheckoutState::Pending => (
                RootPhase::Done,
                RootAction::Finish(Err(RegistrationError::CheckoutNotTerminal)),
            ),
            CheckoutState::Failed => (
                RootPhase::Done,
                RootAction::Finish(Err(RegistrationError::CheckoutFailed)),
            ),
        },
        (RootPhase::AskRestart, RootEvent::Answer(true)) => (
            RootPhase::Creating,
            RootAction::Create,
        ),
        (RootPhase::AskRestart, RootEvent::Answer(false)) => (
            RootPhase::Done,
            RootAction::Finish(Err(RegistrationError::NotCompleted)),
        ),
        (RootPhase::AskRestart, RootEvent::PromptFailed(message)) => (
            RootPhase::Done,
            RootAction::Finish(Err(RegistrationError::Prompt(message))),
        ),
        (phase, _) => (phase, RootAction::Nothing),
    }
}

/// Takes an event while a root identity is registered on a terminal; the registration starts
/// in [`RootPhase::Creating`].
pub fn next_root_action(phase: RootPhase, event: RootEvent) -> (r: (RootPhase, RootAction))
    ensures
        r == root_after(phase, event),
{
    match (phase, event) {
        (RootPhase::Creating, RootEvent::Created(Ok(response))) => {
            if response.payment_entry.is_none() {
                (RootPhase::Done, RootAction::Finish(Ok(())))
            } else {
                (RootPhase::Paying, RootAction::Pay(response))
            }
        },
        (RootPhase::Creating, RootEvent::Created(Err(error))) => {
            if is_domain_conflict(&error) {
                (RootPhase::Done, RootAction::Finish(Ok(())))
            } else {
                (RootPhase::Done, RootAction::Finish(Err(RegistrationError::Server(error))))
            }
        },
        (RootPhase::Paying, RootEvent::CheckoutEnded(Err(error))) => (
            RootPhase::Done,
            RootAction::Finish(Err(RegistrationError::Server(error))),
        ),
        (RootPhase::Paying, RootEvent::CheckoutEnded(Ok(response))) => match classify_checkout(
            &response,
        ) {
            CheckoutState::Completed => (RootPhase::Done, RootAction::Finish(Ok(()))),
            CheckoutState::Expired => (
                RootPhase::AskRestart,
                RootAction::AskRestart(RestartReason::Expired),
            ),
            CheckoutState::Cancelled => (
                RootPhase::AskRestart,
                RootAction::AskRestart(RestartReason::Cancelled),
            ),
            CheckoutState::Pending => (
                RootPhase::Done,
                RootAction::Finish(Err(RegistrationError::CheckoutNotTerminal)),
            ),
            CheckoutState::Failed => (
                RootPhase::Done,
                RootAction::Finish(Err(RegistrationError::CheckoutFailed)),
            ),
        },
        (RootPhase::AskRestart, RootEvent::Answer(true)) => (
            RootPhase::Creating,
            RootAction::Create,
        ),
        (RootPhase::AskRestart, RootEvent::Answer(false)) => (
            RootPhase::Done,
            RootAction::Finish(Err(RegistrationError::NotCompleted)),
        ),
        (RootPhase::AskRestart, RootEvent::PromptFailed(message)) => (
            RootPhase::Done,
            RootAction::Finish(Err(RegistrationError::Prompt(message))),
        ),
        (phase, _) => (phase, RootAction::Nothing),
    }
}

/// A registration on a terminal succeeds only where the server says that the identity exists,
/// needs no payment, or was paid for.
pub proof fn root_success_is_confirmed(phase: RootPhase, event: RootEvent)
    requires
        root_after(phase, event).1 == RootAction::Finish(Ok::<(), RegistrationError>(())),
    ensures
        match event {
            RootEvent::Created(Ok(response)) => response.payment_entry is None,
            RootEvent::Created(Err(error)) => error.code() == Some("domain_conflict"@),
            RootEvent::CheckoutEnded(Ok(response)) => checkout_state(response)
                == CheckoutState::Completed,
            _ => false,
        },
{
}

/// How the payment for more seats ended.
#[derive(Debug, Clone, Copy, PartialEq, Eq, Structural)]
pub enum InvoiceState {
    Paid,
    Expired,
    Cancelled,
    Open,
}

pub open spec fn invoice_end(status: Seq<char>) -> InvoiceState {
    if status == "paid"@ {
        InvoiceState::Paid
    } else if status == "expired"@ {
        InvoiceState::Expired
    } else if status == "cancelled"@ || status == "canceled"@ {
        InvoiceState::Cancelled
    } else {
        InvoiceState::Open
    }
}

/// How the payment for more seats stands.
pub fn classify_invoice(invoice: &InvoiceDetail) -> (r: InvoiceState)
    ensures
        r == invoice_end(invoice.status@),
{
    let status = invoice.status.as_str();
    if same(status, "paid") {
        InvoiceState::Paid
    } else if same(status, "expired") {
        InvoiceState::Expired
    } else if same(status, "cancelled") || same(status, "canceled") {
        InvoiceState::Cancelled
    } else {
        InvoiceState::Open
    }
}

pub open spec fn seat_restart_text(reason: RestartReason) -> Seq<char> {
    match reason {
        RestartReason::Expired => "This checkout expired. Start a new checkout for this sub-identity slot?"@,
        RestartReason::Cancelled => "This checkout was cancelled. Start a new checkout for this sub-identity slot?"@,
    }
}

/// The question after a checkout of a seat ended unpaid.
pub fn seat_restart_question(reason: RestartReason) -> (r: &'static str)
    ensures
        r@ == seat_restart_text(reason),
{
    match reason {
        RestartReason::Expired => "This checkout expired. Start a new checkout for this sub-identity slot?",
        RestartReason::Cancelled => "This checkout was cancelled. Start a new checkout for this sub-identity slot?",
    }
}

/// The question whether more seats are to be paid for.
pub fn expand_question(target: &IdentityTarget, parent: &IdentityName) -> (r: String)
    requires
        target.wf(),
        parent.wf(),
    ensures
        r@ == "Creating "@ + target.short() + " exceeded the sub-identity quota under "@
            + parent.partial() + ". Expand quota and continue?"@,
{
    proof {
        wf_name_len(target.name);
        wf_name_len(*parent);
    }
    let mut r = "Creating ".to_owned();
    r.append(target.short_name());
    r.append(" exceeded the sub-identity quota under ");
    r.append(parent.as_partial());
    r.append(". Expand quota and continue?");
    r
}

#[derive(Debug, Clone, Copy, PartialEq, Eq, Structural)]
pub enum SubPhase {
    Creating,
    AskExpand,
    Expanding,
    LoadInvoice,
    WaitInvoice,
    Sleeping,
    AskRestart,
    Done,
}

#[derive(Debug)]
pub enum SubEvent {
    Created(Result<CreateSubdomainAttempt, Error>),
    Invoice(Result<InvoiceDetail, Error>),
    Slept,
    Answer(bool),
    PromptFailed(String),
}

#[derive(Debug)]
pub enum SubAction {
    /// Requests the sub-identity with this label under its parent, with the amount that the
    /// user agreed to where there is one.
    Create { parent: String, label: String, expand_for: Option<i64> },
    AskExpand,
    LoadInvoice { number: String },
    /// Shows the payment instructions of this invoice, and asks for it again.
    Pay { invoice: InvoiceDetail, number: String },
    Poll { number: String },
    Sleep { seconds: u64 },
    AskRestart(RestartReason),
    Finish(Result<CreateSubdomainResponse, RegistrationError>),
    Nothing,
}

/// The registration of a sub-identity on a terminal.
#[derive(Debug)]
pub struct SubRegistration {
    pub target: IdentityName,
    pub parent: IdentityName,
    /// What the sub-identity is called under its parent.
    pub label: String,
    /// The offer that the user is paying for.
    pub quote: Option<SubdomainQuotaQuote>,
    /// The number of the invoice that is being paid.
    pub invoice: Option<String>,
    pub phase: SubPhase,
}

impl SubRegistration {
    pub open spec fn at(self, phase: SubPhase) -> SubRegistration {
        SubRegistration { phase, ..self }
    }

    pub open spec fn ended(self, result: Result<CreateSubdomainResponse, RegistrationError>) -> (
        SubRegistration,
        SubAction,
    ) {
        (self.at(SubPhase::Done), SubAction::Finish(result))
    }

    /// The request for the sub-identity.
    pub open spec fn creation(self, expand_for: Option<i64>) -> SubAction {
        SubAction::Create { parent: self.parent.full, label: self.label, expand_for }
    }

    /// Requests the sub-identity for the amount of the offer.
    pub open spec fn expanding(self) -> (SubRegistration, SubAction) {
        match self.quote {
            Some(quote) => (
                self.at(SubPhase::Expanding),
                self.creation(Some(quote.due)),
            ),
            None => (self, SubAction::Nothing),
        }
    }

    /// What follows on an event. A sub-identity that needs no seat is done. Otherwise the user
    /// is asked, the seat is requested for the offered amount, and the invoice is waited for;
    /// once it is paid the sub-identity is requested again.
    pub open spec fn after(self, event: SubEvent) -> (SubRegistration, SubAction) {
        match (self.phase, event) {
            (SubPhase::Creating, SubEvent::Created(Ok(CreateSubdomainAttempt::Created(response)))) => self.ended(
                Ok(response),
            ),
            (
                SubPhase::Creating,
                SubEvent::Created(Ok(CreateSubdomainAttempt::QuotaExceeded(quote))),
            ) => (
                SubRegistration { quote: Some(quote), phase: SubPhase::AskExpand, ..self },
                SubAction::AskExpand,
            ),
            (SubPhase::Creating, SubEvent::Created(Err(error))) => self.ended(
                Err(sub_identity_refusal(error, self.target, self.parent)),
            ),
            (SubPhase::AskExpand, SubEvent::Answer(true)) => self.expanding(),
            (SubPhase::AskRestart, SubEvent::Answer(true)) => self.expanding(),
            (SubPhase::AskExpand, SubEvent::Answer(false))
            | (SubPhase::AskRestart, SubEvent::Answer(false)) => self.ended(
                Err(RegistrationError::NotCompleted),
            ),
            (SubPhase::AskExpand, SubEvent::PromptFailed(message))
            | (SubPhase::AskRestart, SubEvent::PromptFailed(message)) => self.ended(
                Err(RegistrationError::Prompt(message)),
            ),
            (SubPhase::Expanding, SubEvent::Created(Err(error))) => self.ended(
                Err(RegistrationError::Server(error)),
            ),
            (
                SubPhase::Expanding,
                SubEvent::Created(Ok(CreateSubdomainAttempt::QuotaExceeded(_))),
            ) => self.ended(Err(RegistrationError::QuoteChanged)),
            (SubPhase::Expanding, SubEvent::Created(Ok(CreateSubdomainAttempt::Created(response)))) => match response.invoice {
                Some(invoice) => (
                    SubRegistration {
                        invoice: Some(invoice.number),
                        phase: SubPhase::LoadInvoice,
                        ..self
                    },
                    SubAction::LoadInvoice { number: invoice.number },
                ),
                None => self.ended(Err(RegistrationError::NoInvoice)),
            },
            (SubPhase::LoadInvoice, SubEvent::Invoice(Ok(invoice))) => match self.invoice {
                Some(number) => (
                    self.at(SubPhase::WaitInvoice),
                    SubAction::Pay { invoice, number },
                ),
                None => (self, SubAction::Nothing),
            },
            (SubPhase::LoadInvoice, SubEvent::Invoice(Err(error)))
            | (SubPhase::WaitInvoice, SubEvent::Invoice(Err(error))) => self.ended(
                Err(RegistrationError::Server(error)),
            ),
            (SubPhase::WaitInvoice, SubEvent::Invoice(Ok(invoice))) => match invoice_end(
                invoice.status@,
            ) {
                InvoiceState::Paid => (
                    self.at(SubPhase::Creating),
                    self.creation(None),
                ),
                InvoiceState::Expired => (
                    self.at(SubPhase::AskRestart),
                    SubAction::AskRestart(RestartReason::Expired),
                ),
                InvoiceState::Cancelled => (
                    self.at(SubPhase::AskRestart),
                    SubAction::AskRestart(RestartReason::Cancelled),
                ),
                InvoiceState::Open => (
                    self.at(SubPhase::Sleeping),
                    SubAction::Sleep { seconds: 3 },
                ),
            },
            (SubPhase::Sleeping, SubEvent::Slept) => match self.invoice {
                Some(number) => (self.at(SubPhase::WaitInvoice), SubAction::Poll { number }),
                None => (self, SubAction::Nothing),
            },
            (_, _) => (self, SubAction::Nothing),
        }
    }

    /// What is being paid is known while it is paid.
    pub open spec fn wf(self) -> bool {
        match self.phase {
            SubPhase::AskExpand | SubPhase::Expanding => self.quote is Some,
            SubPhase::LoadInvoice | SubPhase::WaitInvoice | SubPhase::Sleeping
            | SubPhase::AskRestart => self.quote is Some && self.invoice is Some,
            _ => true,
        }
    }

    pub fn start(target: IdentityName, parent: IdentityName, label: String) -> (r: (
        SubRegistration,
        SubAction,
    ))
        ensures
            r.0 == (SubRegistration {
                target,
                parent,
                label,
                quote: None,
                invoice: None,
                phase: SubPhase::Creating,
            }),
            r.1 == r.0.creation(None),
    {
        let registration = SubRegistration {
            target,
            parent,
            label,
            quote: None,
            invoice: None,
            phase: SubPhase::Creating,
        };
        let action = registration.create(None);
        (registration, action)
    }

    fn create(&self, expand_for: Option<i64>) -> (r: SubAction)
        ensures
            r == self.creation(expand_for),
    {
        SubAction::Create {
            parent: self.parent.full.clone(),
            label: self.label.clone(),
            expand_for,
        }
    }

    fn end(&mut self, result: Result<CreateSubdomainResponse, RegistrationError>) -> (r: SubAction)
        ensures
            (*final(self), r) == old(self).ended(result),
    {
        self.phase = SubPhase::Done;
        SubAction::Finish(result)
    }

    fn expand(&mut self) -> (r: SubAction)
        ensures
            (*final(self), r) == old(self).expanding(),
    {
        let due = match &self.quote {
            Some(quote) => Some(quote.due),
            None => None,
        };
        match due {
            Some(due) => {
                self.phase = SubPhase::Expanding;
                self.create(Some(due))
            },
            None => SubAction::Nothing,
        }
    }

    /// Takes an event and gives the action that follows.
    pub fn next(&mut self, event: SubEvent) -> (r: SubAction)
        ensures
            (*final(self), r) == old(self).after(event),
    {
        let number = crate::text::copy_opt(&self.invoice);
        match (self.phase, event) {
            (SubPhase::Creating, SubEvent::Created(Ok(CreateSubdomainAttempt::Created(response)))) => self.end(
                Ok(response),
            ),
            (
                SubPhase::Creating,
                SubEvent::Created(Ok(CreateSubdomainAttempt::QuotaExceeded(quote))),
            ) => {
                self.quote = Some(quote);
                self.phase = SubPhase::AskExpand;
                SubAction::AskExpand
            },
            (SubPhase::Creating, SubEvent::Created(Err(error))) => {
                let refusal = refuse_sub_identity(error, &self.target, &self.parent);
                self.end(Err(refusal))
            },
            (SubPhase::AskExpand, SubEvent::Answer(true)) => self.expand(),
            (SubPhase::AskRestart, SubEvent::Answer(true)) => self.expand(),
            (SubPhase::AskExpand, SubEvent::Answer(false)) => self.end(
                Err(RegistrationError::NotCompleted),
            ),
            (SubPhase::AskRestart, SubEvent::Answer(false)) => self.end(
                Err(RegistrationError::NotCompleted),
            ),
            (SubPhase::AskExpand, SubEvent::PromptFailed(message)) => self.end(
                Err(RegistrationError::Prompt(message)),
            ),
            (SubPhase::AskRestart, SubEvent::PromptFailed(message)) => self.end(
                Err(RegistrationError::Prompt(message)),
            ),
            (SubPhase::Expanding, SubEvent::Created(Err(error))) => self.end(
                Err(RegistrationError::Server(error)),
            ),
            (
                SubPhase::Expanding,
                SubEvent::Created(Ok(CreateSubdomainAttempt::QuotaExceeded(_))),
            ) => self.end(Err(RegistrationError::QuoteChanged)),
            (SubPhase::Expanding, SubEvent::Created(Ok(CreateSubdomainAttempt::Created(response)))) => match response.invoice {
                Some(invoice) => {
                    self.invoice = Some(invoice.number.clone());
                    self.phase = SubPhase::LoadInvoice;
                    SubAction::LoadInvoice { number: invoice.number }
                },
                None => self.end(Err(RegistrationError::NoInvoice)),
            },
            (SubPhase::LoadInvoice, SubEvent::Invoice(Ok(invoice))) => match number {
                Some(number) => {
                    self.phase = SubPhase::WaitInvoice;
                    SubAction::Pay { invoice, number }
                },
                None => SubAction::Nothing,
            },
            (SubPhase::LoadInvoice, SubEvent::Invoice(Err(error))) => self.end(
                Err(RegistrationError::Server(error)),
            ),
            (SubPhase::WaitInvoice, SubEvent::Invoice(Err(error))) => self.end(
                Err(RegistrationError::Server(error)),
            ),
            (SubPhase::WaitInvoice, SubEvent::Invoice(Ok(invoice))) => match classify_invoice(
                &invoice,
            ) {
                InvoiceState::Paid => {
                    self.phase = SubPhase::Creating;
                    self.create(None)
                },
                InvoiceState::Expired => {
                    self.phase = SubPhase::AskRestart;
                    SubAction::AskRestart(RestartReason::Expired)
                },
                InvoiceState::Cancelled => {
                    self.phase = SubPhase::AskRestart;
                    SubAction::AskRestart(RestartReason::Cancelled)
                },
                InvoiceState::Open => {
                    self.phase = SubPhase::Sleeping;
                    SubAction::Sleep { seconds: 3 }
                },
            },
            (SubPhase::Sleeping, SubEvent::Slept) => match number {
                Some(number) => {
                    self.phase = SubPhase::WaitInvoice;
                    SubAction::Poll { number }
                },
                None => SubAction::Nothing,
            },
            (_, _) => SubAction::Nothing,
        }
    }
}

/// Every event keeps what is known about what is being paid.
pub proof fn sub_registration_stays_well_formed(registration: SubRegistration, event: SubEvent)
    requires
        registration.wf(),
    ensures
        registration.after(event).0.wf(),
        registration.after(event).0.target == registration.target,
        registration.after(event).0.parent == registration.parent,
{
}

/// Seats are only paid for at the price that was offered, and only after the user agreed.
pub proof fn seats_are_bought_only_on_consent(registration: SubRegistration, event: SubEvent, amount: i64)
    requires
        registration.wf(),
        registration.after(event).1 matches SubAction::Create { expand_for: Some(bought), .. }
            && bought == amount,
    ensures
        event == SubEvent::Answer(true),
        registration.quote is Some && registration.quote->0.due == amount,
{
}

/// A root identity is created again only where the user agrees to a new checkout; it is paid for
/// only where the reply asks for that; and the question names why the last checkout ended.
pub proof fn roots_are_paid_for_or_restarted(phase: RootPhase, event: RootEvent)
    ensures
        root_after(phase, event).1 is Create <==> phase == RootPhase::AskRestart && event
            == RootEvent::Answer(true),
        root_after(phase, event).1 is Create ==> root_after(phase, event).0 == RootPhase::Creating,
        root_after(phase, event).1 matches RootAction::Pay(response) ==> phase
            == RootPhase::Creating && event == RootEvent::Created(Ok(response))
            && response.payment_entry is Some && root_after(phase, event).0 == RootPhase::Paying,
        phase == RootPhase::Creating ==> (event matches RootEvent::Created(Ok(response))
            ==> response.payment_entry is Some ==> root_after(phase, event).1 == RootAction::Pay(
            response,
        )),
        phase == RootPhase::Creating ==> (event matches RootEvent::Created(Ok(response))
            ==> response.payment_entry is None ==> (root_after(
            phase,
            event,
        ).1 matches RootAction::Finish(Ok(())))),
        phase == RootPhase::Creating ==> (event matches RootEvent::Created(Err(error)) ==> (
        if error.code() == Some("domain_conflict"@) {
            root_after(phase, event).1 == RootAction::Finish(Ok::<(), RegistrationError>(()))
        } else {
            root_after(phase, event).1 == RootAction::Finish(
                Err::<(), RegistrationError>(RegistrationError::Server(error)),
            )
        })),
        root_after(phase, event).1 matches RootAction::AskRestart(reason) ==> phase
            == RootPhase::Paying && root_after(phase, event).0 == RootPhase::AskRestart && (
        event matches RootEvent::CheckoutEnded(Ok(response)) && (reason == RestartReason::Expired
            <==> checkout_state(response) == CheckoutState::Expired) && (reason
            == RestartReason::Cancelled <==> checkout_state(response) == CheckoutState::Cancelled)),
        phase == RootPhase::Paying ==> (event matches RootEvent::CheckoutEnded(Ok(response))
            ==> match checkout_state(response) {
            CheckoutState::Completed => root_after(phase, event).1 == RootAction::Finish(
                Ok::<(), RegistrationError>(()),
            ),
            CheckoutState::Pending => root_after(phase, event).1 == RootAction::Finish(
                Err::<(), RegistrationError>(RegistrationError::CheckoutNotTerminal),
            ),
            CheckoutState::Failed => root_after(phase, event).1 == RootAction::Finish(
                Err::<(), RegistrationError>(RegistrationError::CheckoutFailed),
            ),
            _ => root_after(phase, event).1 is AskRestart,
        }),
        phase == RootPhase::Paying ==> (event matches RootEvent::CheckoutEnded(Err(error))
            ==> root_after(phase, event).1 == RootAction::Finish(
            Err::<(), RegistrationError>(RegistrationError::Server(error)),
        )),
        phase == RootPhase::AskRestart && event == RootEvent::Answer(false) ==> root_after(
            phase,
            event,
        ).1 == RootAction::Finish(Err::<(), RegistrationError>(RegistrationError::NotCompleted)),
        phase == RootPhase::AskRestart ==> (event matches RootEvent::PromptFailed(message)
            ==> root_after(phase, event).1 == RootAction::Finish(
            Err::<(), RegistrationError>(RegistrationError::Prompt(message)),
        )),
        root_after(phase, event).1 is Finish ==> root_after(phase, event).0 == RootPhase::Done,
        phase == RootPhase::Done ==> root_after(phase, event) == (phase, RootAction::Nothing),
{
}

/// An invoice counts as paid, expired or cancelled only where its status says exactly that.
pub proof fn invoices_end_by_their_status(status: Seq<char>)
    ensures
        invoice_end(status) == InvoiceState::Paid <==> status == "paid"@,
        invoice_end(status) == InvoiceState::Expired <==> status == "expired"@,
        invoice_end(status) == InvoiceState::Cancelled <==> status == "cancelled"@ || status
            == "canceled"@,
{
    reveal_strlit("paid");
    reveal_strlit("expired");
    reveal_strlit("cancelled");
    reveal_strlit("canceled");
    assert("paid"@.len() == 4);
    assert("expired"@.len() == 7);
    assert("cancelled"@.len() == 9);
    assert("canceled"@.len() == 8);
}

/// A sub-identity that was created without a need for seats is done; one that was refused is
/// told why; and a missing parent is named.
pub proof fn sub_identities_are_done_when_created(registration: SubRegistration, event: SubEvent)
    ensures
        registration.after(event).1 matches SubAction::Finish(Ok(response)) ==> registration.phase
            == SubPhase::Creating && event == SubEvent::Created(
            Ok(CreateSubdomainAttempt::Created(response)),
        ),
        registration.phase == SubPhase::Creating ==> (event matches SubEvent::Created(
            Ok(CreateSubdomainAttempt::Created(response)),
        ) ==> registration.after(event).1 == SubAction::Finish(
            Ok::<CreateSubdomainResponse, RegistrationError>(response),
        )),
        registration.phase == SubPhase::Creating ==> (event matches SubEvent::Created(Err(error))
            ==> registration.after(event).1 == SubAction::Finish(
            Err::<CreateSubdomainResponse, RegistrationError>(
                if error.code() == Some("domain_not_found"@) {
                    RegistrationError::MissingParent {
                        target: registration.target,
                        parent: registration.parent,
                        error,
                    }
                } else {
                    RegistrationError::Server(error)
                },
            ),
        )),
        registration.after(event).1 is Finish ==> registration.after(event).0.phase
            == SubPhase::Done,
        registration.phase == SubPhase::Done ==> registration.after(event) == (
            registration,
            SubAction::Nothing,
        ),
{
}

/// How a seat is bought: the user is asked, the offered amount is requested, its invoice is
/// loaded, shown and polled every three seconds until it is paid, and only then is the
/// sub-identity requested again; an invoice that ended unpaid is asked about.
pub proof fn seats_are_bought_step_by_step(registration: SubRegistration, event: SubEvent)
    requires
        registration.wf(),
    ensures
        registration.after(event).1 is AskExpand <==> registration.phase == SubPhase::Creating && (
        event matches SubEvent::Created(Ok(CreateSubdomainAttempt::QuotaExceeded(_)))),
        registration.phase == SubPhase::Creating ==> (event matches SubEvent::Created(
            Ok(CreateSubdomainAttempt::QuotaExceeded(quote)),
        ) ==> registration.after(event).0.quote == Some(quote) && registration.after(event).0.phase
            == SubPhase::AskExpand),
        (registration.phase == SubPhase::AskExpand || registration.phase == SubPhase::AskRestart)
            && event == SubEvent::Answer(true) ==> registration.after(event).1 == (
        SubAction::Create {
            parent: registration.parent.full,
            label: registration.label,
            expand_for: Some(registration.quote->0.due),
        }) && registration.after(event).0.phase == SubPhase::Expanding,
        registration.after(event).1 matches SubAction::Create { parent, label, expand_for }
            ==> parent == registration.parent.full && label == registration.label && (expand_for
            is None <==> registration.phase == SubPhase::WaitInvoice && (
        event matches SubEvent::Invoice(Ok(invoice)) && invoice.status@ == "paid"@)),
        registration.phase == SubPhase::WaitInvoice ==> (event matches SubEvent::Invoice(
            Ok(invoice),
        ) ==> invoice.status@ == "paid"@ ==> registration.after(event).1 is Create
            && registration.after(event).0.phase == SubPhase::Creating),
        registration.phase == SubPhase::Expanding ==> (event matches SubEvent::Created(
            Ok(CreateSubdomainAttempt::Created(response)),
        ) ==> match response.invoice {
            Some(invoice) => registration.after(event).1 == (SubAction::LoadInvoice {
                number: invoice.number,
            }) && registration.after(event).0.invoice == Some(invoice.number) && registration.after(
                event,
            ).0.phase == SubPhase::LoadInvoice,
            None => registration.after(event).1 == SubAction::Finish(
                Err::<CreateSubdomainResponse, RegistrationError>(RegistrationError::NoInvoice),
            ),
        }),
        registration.phase == SubPhase::Expanding ==> (event matches SubEvent::Created(
            Ok(CreateSubdomainAttempt::QuotaExceeded(_)),
        ) ==> registration.after(event).1 == SubAction::Finish(
            Err::<CreateSubdomainResponse, RegistrationError>(RegistrationError::QuoteChanged),
        )),
        registration.after(event).1 is LoadInvoice ==> registration.phase == SubPhase::Expanding,
        registration.phase == SubPhase::LoadInvoice ==> (event matches SubEvent::Invoice(
            Ok(invoice),
        ) ==> registration.after(event).1 == (SubAction::Pay {
            invoice,
            number: registration.invoice->0,
        }) && registration.after(event).0.phase == SubPhase::WaitInvoice),
        registration.after(event).1 is Pay ==> registration.phase == SubPhase::LoadInvoice,
        registration.after(event).1 matches SubAction::Sleep { seconds } ==> seconds == 3
            && registration.phase == SubPhase::WaitInvoice && registration.after(event).0.phase
            == SubPhase::Sleeping,
        registration.phase == SubPhase::Sleeping && event is Slept ==> registration.after(event).1
            == (SubAction::Poll { number: registration.invoice->0 }) && registration.after(
            event,
        ).0.phase == SubPhase::WaitInvoice,
        registration.after(event).1 is Poll ==> registration.phase == SubPhase::Sleeping,
{
    if let SubEvent::Invoice(Ok(invoice)) = event {
        invoices_end_by_their_status(invoice.status@);
    }
}

/// How the purchase of a seat ends without one: declined, refused, or asked about again.
pub proof fn unpaid_seats_are_asked_about(registration: SubRegistration, event: SubEvent)
    requires
        registration.wf(),
    ensures
        registration.phase == SubPhase::WaitInvoice ==> (event matches SubEvent::Invoice(
            Ok(invoice),
        ) ==> (registration.after(event).1 == SubAction::AskRestart(RestartReason::Expired)
            <==> invoice.status@ == "expired"@)),
        registration.phase == SubPhase::WaitInvoice ==> (event matches SubEvent::Invoice(
            Ok(invoice),
        ) ==> (registration.after(event).1 == SubAction::AskRestart(RestartReason::Cancelled)
            <==> invoice.status@ == "cancelled"@ || invoice.status@ == "canceled"@)),
        registration.phase == SubPhase::WaitInvoice ==> (event matches SubEvent::Invoice(
            Ok(invoice),
        ) ==> (registration.after(event).1 is Sleep <==> invoice.status@ != "paid"@
            && invoice.status@ != "expired"@ && invoice.status@ != "cancelled"@ && invoice.status@
            != "canceled"@)),
        registration.after(event).1 is AskRestart ==> registration.phase == SubPhase::WaitInvoice
            && registration.after(event).0.phase == SubPhase::AskRestart,
        (registration.phase == SubPhase::AskExpand || registration.phase == SubPhase::AskRestart)
            && event == SubEvent::Answer(false) ==> registration.after(event).1
            == SubAction::Finish(
            Err::<CreateSubdomainResponse, RegistrationError>(RegistrationError::NotCompleted),
        ),
        (registration.phase == SubPhase::AskExpand || registration.phase == SubPhase::AskRestart)
            ==> (event matches SubEvent::PromptFailed(message) ==> registration.after(event).1
            == SubAction::Finish(
            Err::<CreateSubdomainResponse, RegistrationError>(RegistrationError::Prompt(message)),
        )),
        (registration.phase == SubPhase::LoadInvoice || registration.phase
            == SubPhase::WaitInvoice) ==> (event matches SubEvent::Invoice(Err(error))
            ==> registration.after(event).1 == SubAction::Finish(
            Err::<CreateSubdomainResponse, RegistrationError>(RegistrationError::Server(error)),
        )),
        registration.phase == SubPhase::Expanding ==> (event matches SubEvent::Created(Err(error))
            ==> registration.after(event).1 == SubAction::Finish(
            Err::<CreateSubdomainResponse, RegistrationError>(RegistrationError::Server(error)),
        )),
        registration.after(event).0.label == registration.label,
{
    if let SubEvent::Invoice(Ok(invoice)) = event {
        invoices_end_by_their_status(invoice.status@);
    }
}

/// An amount of cents reads as whole units, a point, and two digits of cents.
pub proof fn amounts_are_cents(units: int, cents: int)
    requires
        0 <= units,
        0 <= cents < 100,
    ensures
        minor_amount(100 * units + cents) == decimal_int(units) + "."@ + two_digits(cents as nat),
        minor_amount(-(100 * units + cents)) == decimal_int(-units) + "."@ + two_digits(
            cents as nat,
        ),
{
    let n = 100 * units + cents;
    assert(n / 100 == units && n % 100 == cents) by (nonlinear_arith)
        requires
            n == 100 * units + cents,
            0 <= cents < 100,
            0 <= units,
    ;
}

/// The payment instructions name the link, and stand behind the summary of what is paid for.
pub proof fn payment_blocks_name_the_link(summary: Seq<char>, url: Seq<char>, with_qr: bool)
    ensures
        crate::text::starts_with(checkout_block(summary, url, with_qr), summary),
        crate::text::ends_with(checkout_block(summary, url, with_qr), url),
{
    let block = checkout_block(summary, url, with_qr);
    assert(block.take(summary.len() as int) =~= summary);
    assert(block.skip(block.len() - url.len()) =~= url);
}

/// What is asked before a checkout starts anew names why it ended and what it was for.
pub proof fn restarts_say_why(reason: RestartReason)
    ensures
        reason == RestartReason::Expired ==> root_restart_text(reason)
            == "This checkout expired. Start a new checkout for this identity?"@
            && seat_restart_text(reason)
            == "This checkout expired. Start a new checkout for this sub-identity slot?"@,
        reason == RestartReason::Cancelled ==> root_restart_text(reason)
            == "This checkout was cancelled. Start a new checkout for this identity?"@
            && seat_restart_text(reason)
            == "This checkout was cancelled. Start a new checkout for this sub-identity slot?"@,
{
}

} // verus!
