//! Renewing the certificate of a saved identity.
use vstd::prelude::*;

use crate::auth::{classify_identity_attempt, disposition, AuthAttemptDisposition};
use crate::auth_plan::{
    candidate_specs, candidates_for, unusable_warning, AuthCandidateRunner, AuthCandidateSpec,
    CandidateEvent, CandidateStep,
};
use crate::cert_server::{CertificateDetail, Error};
use crate::email::EmailSessionError;
use crate::install::InstallExpectation;
use crate::key_material::{PendingError, PendingRenewal};
use crate::kind::IdentityKind;
use crate::local::{
    IdentityUsage, LocalIdentityAssessment, LocalIdentityStatus, LocalIdentitySummary,
    LocalInventory, LocalInventoryGroup, LocalInventoryRoot,
};
use crate::target::{wf_name_len, IdentityName, IdentityTarget, RemoteTargetState};
use crate::text::{decimal_i64, decimal_int, decimal_of, decimal_u64, opt_view};

verus! {

/// The line that reports a renewal.
pub const RENEWED: &'static str = "✔ Identity successfully renewed on this device.";

/// Certificates are renewed in the last fifteen days of their validity.
pub const RENEWAL_THRESHOLD_SECONDS: i64 = 1_296_000;

pub fn renew_not_saved_root_message(short_name: &str) -> (r: String)
    ensures
        r@ == "Failed to renew: "@ + short_name@ + " not found!"@,
{
    let mut r = "Failed to renew: ".to_owned();
    r.append(short_name);
    r.append(" not found!");
    r
}

/// The difference of two timestamps, held within the range of timestamps.
pub open spec fn saturating_difference(a: i64, b: i64) -> int {
    if a - b > i64::MAX {
        i64::MAX as int
    } else if a - b < i64::MIN {
        i64::MIN as int
    } else {
        a - b
    }
}

fn difference(a: i64, b: i64) -> (r: i64)
    ensures
        r == saturating_difference(a, b),
{
    let exact: i128 = a as i128 - b as i128;
    if exact > i64::MAX as i128 {
        i64::MAX
    } else if exact < i64::MIN as i128 {
        i64::MIN
    } else {
        exact as i64
    }
}

/// A certificate is due for renewal when less than the threshold is left of its validity, or
/// when that is unknown.
pub open spec fn due(expires_at: Option<i64>, now: i64) -> bool {
    match expires_at {
        Some(expires_at) => expires_at - now < RENEWAL_THRESHOLD_SECONDS,
        None => true,
    }
}

pub fn renewal_is_due(expires_at: Option<i64>, now: i64) -> (r: bool)
    ensures
        r == due(expires_at, now),
{
    match expires_at {
        Some(expires_at) => difference(expires_at, now) < RENEWAL_THRESHOLD_SECONDS,
        None => true,
    }
}

/// What is due stays due as time goes by.
pub proof fn renewal_stays_due(expires_at: Option<i64>, now: i64, later: i64)
    requires
        due(expires_at, now),
        now <= later,
    ensures
        due(expires_at, later),
{
}

/// The whole days in a span of seconds; a negative span is rounded towards zero.
pub open spec fn whole_days(seconds: int) -> int {
    if seconds < 0 {
        -((-seconds) / 86400)
    } else {
        seconds / 86400
    }
}

/// The line that reports a renewal that is not due.
pub open spec fn not_due_text(short_name: Seq<char>, expires_at: i64, now: i64) -> Seq<char> {
    let days = whole_days(saturating_difference(expires_at, now));
    "Renewal skipped: "@ + short_name + " is valid for "@ + decimal_int(days) + " more "@ + (if days
        == 1 {
        "day"@
    } else {
        "days"@
    }) + "."@
}

fn days_in(seconds: i64) -> (r: i64)
    ensures
        r == whole_days(seconds as int),
{
    if seconds < 0 {
        let positive: i128 = -(seconds as i128);
        let days: i128 = positive / 86400;
        assert(0 <= days <= positive);
        (-days) as i64
    } else {
        seconds / 86400
    }
}

pub fn renew_not_due_message(short_name: &str, expires_at: i64, now: i64) -> (r: String)
    ensures
        r@ == not_due_text(short_name@, expires_at, now),
{
    let days_left: i64 = days_in(difference(expires_at, now));
    let day_label = if days_left == 1 {
        "day"
    } else {
        "days"
    };
    let mut r = "Renewal skipped: ".to_owned();
    r.append(short_name);
    r.append(" is valid for ");
    r.append(&decimal_i64(days_left));
    r.append(" more ");
    r.append(day_label);
    r.append(".");
    r
}

/// Why an identity was not renewed.
#[derive(Debug)]
pub enum RenewError {
    NotReady { target: IdentityName, status: LocalIdentityStatus },
    Unrecoverable { target: IdentityName },
    /// The server refused the renewal of this identity.
    Refused { error: Error, target: IdentityName },
    /// The last proof that was tried was rejected.
    Rejected { error: Error },
    NoCandidate,
    Email(EmailSessionError),
    Pending(PendingError),
    Install(crate::install::Error),
    Other { message: String },
    Batch { failures: usize, total: usize },
}

/// The message of a refused renewal; where the certificate chain is gone it says how to get a
/// new one.
pub open spec fn refusal_words(error: Error, target: Seq<char>) -> Seq<char> {
    if error.refused(404, "cert_sequence_not_found"@) {
        error.words() + "\nRun `genmeta identity apply "@ + target
            + "` to request a new certificate chain."@
    } else {
        error.words()
    }
}

/// The message of a refused renewal.
pub fn renew_remote_error(error: &Error, target: &str) -> (r: String)
    ensures
        r@ == refusal_words(*error, target@),
{
    let mut r = error.to_text();
    if error.is_api(404, "cert_sequence_not_found") {
        r.append("\nRun `genmeta identity apply ");
        r.append(target);
        r.append("` to request a new certificate chain.");
    }
    r
}

/// A domain that has expired or was revoked is not renewed automatically any more.
pub open spec fn ends_automatic_renewal(error: Error) -> bool {
    error.code() == Some("domain_expired"@) || error.code() == Some("domain_revoked"@)
}

pub fn stops_automatic_renewal(error: &Error) -> (r: bool)
    ensures
        r == ends_automatic_renewal(*error),
{
    error.is_api_code("domain_expired") || error.is_api_code("domain_revoked")
}

impl RenewError {
    pub open spec fn wf(self) -> bool {
        match self {
            RenewError::NotReady { target, .. } => target.wf(),
            RenewError::Unrecoverable { target } => target.wf(),
            RenewError::Refused { target, .. } => target.wf(),
            _ => true,
        }
    }

    pub open spec fn words(self) -> Seq<char> {
        match self {
            RenewError::NotReady { target, status } => "Failed to renew: "@ + target.partial()
                + " is "@ + status.label_text()
                + "; use --force only if its certificate remains readable."@,
            RenewError::Unrecoverable { target } => "Failed to renew: "@ + target.partial()
                + " does not contain a readable certificate with recoverable target and chain metadata."@,
            RenewError::Refused { error, target } => refusal_words(error, target.partial()),
            RenewError::Rejected { error } => error.words(),
            RenewError::NoCandidate => "no authentication candidate is available"@,
            RenewError::Email(error) => error.words(),
            RenewError::Pending(error) => error.words(),
            RenewError::Install(error) => error.message@,
            RenewError::Other { message } => message@,
            RenewError::Batch { failures, total } => "Failed to renew "@ + decimal_of(
                failures as nat,
            ) + " of "@ + decimal_of(total as nat) + " identities."@,
        }
    }

    pub fn to_text(&self) -> (r: String)
        requires
            self.wf(),
        ensures
            r@ == self.words(),
    {
        match self {
            RenewError::NotReady { target, status } => {
                proof {
                    wf_name_len(*target);
                }
                let mut r = "Failed to renew: ".to_owned();
                r.append(target.as_partial());
                r.append(" is ");
                r.append(status.label());
                r.append("; use --force only if its certificate remains readable.");
                r
            },
            RenewError::Unrecoverable { target } => {
                proof {
                    wf_name_len(*target);
                }
                let mut r = "Failed to renew: ".to_owned();
                r.append(target.as_partial());
                r.append(
                    " does not contain a readable certificate with recoverable target and chain metadata.",
                );
                r
            },
            RenewError::Refused { error, target } => {
                proof {
                    wf_name_len(*target);
                }
                renew_remote_error(error, target.as_partial())
            },
            RenewError::Rejected { error } => error.to_text(),
            RenewError::NoCandidate => "no authentication candidate is available".to_owned(),
            RenewError::Email(error) => error.to_text(),
            RenewError::Pending(error) => error.to_text(),
            RenewError::Install(error) => error.to_text(),
            RenewError::Other { message } => message.clone(),
            RenewError::Batch { failures, total } => {
                let mut r = "Failed to renew ".to_owned();
                r.append(&decimal_u64(*failures as u64));
                r.append(" of ");
                r.append(&decimal_u64(*total as u64));
                r.append(" identities.");
                r
            },
        }
    }
}

/// The certificate chain that is renewed.
#[derive(Debug, PartialEq, Eq)]
pub struct RenewPreflight {
    pub target: IdentityTarget,
    pub kind: IdentityKind,
    pub sequence: u32,
}

/// The kind of certificate with a usage.
pub open spec fn usage_kind(usage: IdentityUsage) -> IdentityKind {
    match usage {
        IdentityUsage::BothClientAndServer => IdentityKind::Primary,
        IdentityUsage::ClientOnly => IdentityKind::Secondary,
    }
}

fn kind_of_usage(usage: IdentityUsage) -> (r: IdentityKind)
    ensures
        r == usage_kind(usage),
{
    match usage {
        IdentityUsage::BothClientAndServer => IdentityKind::Primary,
        IdentityUsage::ClientOnly => IdentityKind::Secondary,
    }
}

impl RenewPreflight {
    /// The chain to renew for a saved identity. One that is neither ready nor expired is only
    /// renewed by force, and none whose certificate does not tell its usage and sequence.
    pub fn from_summary(summary: &LocalIdentitySummary, force: bool) -> (r: Result<Self, RenewError>)
        ensures
            ({
                let usable = summary.status is Ready || summary.status is Expired || force;
                match r {
                    Ok(preflight) => usable && summary.usage is Some && summary.sequence is Some
                        && preflight.target == summary.target && preflight.kind == usage_kind(
                        summary.usage->0,
                    ) && preflight.sequence == summary.sequence->0,
                    Err(RenewError::NotReady { target, status }) => !usable && target
                        == summary.target.name && status == summary.status,
                    Err(RenewError::Unrecoverable { target }) => usable && (summary.usage is None
                        || summary.sequence is None) && target == summary.target.name,
                    Err(_) => false,
                }
            }),
    {
        let sound = match &summary.status {
            LocalIdentityStatus::Ready { .. } => true,
            LocalIdentityStatus::Expired { .. } => true,
            _ => false,
        };
        if !sound && !force {
            return Err(
                RenewError::NotReady {
                    target: summary.target.name.copy(),
                    status: summary.status.copy(),
                },
            );
        }
        match (summary.usage, summary.sequence) {
            (Some(usage), Some(sequence)) => Ok(
                RenewPreflight {
                    target: summary.target.copy(),
                    kind: kind_of_usage(usage),
                    sequence,
                },
            ),
            _ => Err(RenewError::Unrecoverable { target: summary.target.name.copy() }),
        }
    }

    /// The certificate on disk is the one that is to be renewed.
    pub open spec fn confirmed_by(self, assessment: LocalIdentityAssessment) -> bool {
        &&& assessment.certificate_target_matches == Some(true)
        &&& assessment.usage is Some
        &&& usage_kind(assessment.usage->0) == self.kind
        &&& assessment.sequence == Some(self.sequence)
    }

    /// Checks that the certificate on disk is the one that is to be renewed.
    pub fn validate_assessment(&self, assessment: &LocalIdentityAssessment) -> (r: Result<
        (),
        RenewError,
    >)
        ensures
            match r {
                Ok(()) => self.confirmed_by(*assessment),
                Err(RenewError::Unrecoverable { target }) => !self.confirmed_by(*assessment)
                    && target == self.target.name,
                Err(_) => false,
            },
    {
        let matches = match assessment.certificate_target_matches {
            Some(matches) => matches,
            None => false,
        };
        let kind = match assessment.usage {
            Some(usage) => kind_of_usage(usage) == self.kind,
            None => false,
        };
        let sequence = match assessment.sequence {
            Some(sequence) => sequence == self.sequence,
            None => false,
        };
        if matches && kind && sequence {
            Ok(())
        } else {
            Err(RenewError::Unrecoverable { target: self.target.name.copy() })
        }
    }

    pub fn certificate_kind(&self) -> (r: &'static str)
        ensures
            r@ == self.kind.wire_name(),
    {
        self.kind.as_str()
    }

    pub fn copy(&self) -> (r: RenewPreflight)
        ensures
            r == *self,
    {
        RenewPreflight { target: self.target.copy(), kind: self.kind, sequence: self.sequence }
    }

    /// What the renewed certificate has to be.
    pub fn expectation(&self) -> (r: InstallExpectation)
        ensures
            r.target == self.target.name,
            r.kind == self.kind,
            r.sequence == Some(self.sequence),
    {
        InstallExpectation {
            target: self.target.name.copy(),
            kind: self.kind,
            sequence: Some(self.sequence),
        }
    }
}

/// What was found for the identity that is to be renewed.
pub fn resolve_preflight(
    name: &IdentityName,
    summary: Option<&LocalIdentitySummary>,
    assessment: &LocalIdentityAssessment,
    force: bool,
) -> (r: Result<(RenewPreflight, Option<i64>), RenewError>)
    requires
        name.wf(),
    ensures
        match summary {
            None => r matches Err(RenewError::Other { message }) && message@ == "Failed to renew: "@
                + name.partial() + " not found!"@,
            Some(summary) => match r {
                Ok((preflight, expires_at)) => {
                    &&& summary.status is Ready || summary.status is Expired || force
                    &&& preflight.target == summary.target
                    &&& summary.usage is Some && preflight.kind == usage_kind(summary.usage->0)
                    &&& summary.sequence == Some(preflight.sequence)
                    &&& preflight.confirmed_by(*assessment)
                    &&& expires_at == summary.expires_at
                },
                Err(RenewError::NotReady { target, status }) => target == summary.target.name
                    && status == summary.status && summary.status !is Ready && summary.status
                    !is Expired && !force,
                Err(RenewError::Unrecoverable { target }) => target == summary.target.name && (
                summary.usage is None || summary.sequence is None || !(RenewPreflight {
                    target: summary.target,
                    kind: usage_kind(summary.usage->0),
                    sequence: summary.sequence->0,
                }).confirmed_by(*assessment)),
                Err(_) => false,
            },
        },
{
    match summary {
        None => {
            proof {
                wf_name_len(*name);
            }
            Err(RenewError::Other { message: renew_not_saved_root_message(name.as_partial()) })
        },
        Some(summary) => match RenewPreflight::from_summary(summary, force) {
            Err(error) => Err(error),
            Ok(preflight) => match preflight.validate_assessment(assessment) {
                Err(error) => Err(error),
                Ok(()) => Ok((preflight, summary.expires_at)),
            },
        },
    }
}

/// The request that a renewal sends. The key makes repeated requests count as one.
#[derive(Debug)]
pub struct CertificateRenewalRequest {
    pub domain: String,
    pub kind: String,
    pub sequence: u32,
    pub device_name: Option<String>,
    pub csr: String,
    pub idempotency_key: Option<String>,
}

/// The request for the renewal of a chain with pending material.
pub fn renewal_request(preflight: &RenewPreflight, pending: &PendingRenewal) -> (r:
    CertificateRenewalRequest)
    ensures
        r.domain@ == preflight.target.name.full@,
        r.kind@ == preflight.kind.wire_name(),
        r.sequence == preflight.sequence,
        opt_view(r.device_name) == Some(pending.device_name@),
        r.csr@ == pending.csr_pem@,
        opt_view(r.idempotency_key) == Some(pending.operation_key@),
{
    CertificateRenewalRequest {
        domain: preflight.target.full_name().to_owned(),
        kind: preflight.certificate_kind().to_owned(),
        sequence: preflight.sequence,
        device_name: Some(pending.device_name().to_owned()),
        csr: pending.csr_pem().to_owned(),
        idempotency_key: Some(pending.operation_key().to_owned()),
    }
}

/// Where the walk through the proofs of a renewal stands.
#[derive(Debug)]
pub enum RenewRequestPhase {
    LoadIdentity,
    /// A renewal was requested with this identity.
    TryIdentity(IdentityName),
    EmailSession,
    TryToken,
    Done,
}

/// What came of an action.
#[derive(Debug)]
pub enum RenewRequestEvent {
    Loaded(Option<LocalIdentitySummary>),
    LoadFailed { message: String },
    Issued(CertificateDetail),
    Refused(Error),
    EmailFinished(Result<String, EmailSessionError>),
}

/// What a renewal does next.
#[derive(Debug)]
pub enum RenewRequestAction {
    Load(IdentityName),
    RequestWithIdentity(IdentityName),
    RunEmailSession { domain: String },
    RequestWithToken { token: String },
    /// Ends; where `stop_automatic` holds, automatic renewal of the identity is stopped first.
    Finish { result: Result<CertificateDetail, RenewError>, stop_automatic: bool },
    /// The event was not waited for.
    Nothing,
}

#[derive(Debug)]
pub struct RenewRequestStep {
    pub warning: Option<String>,
    pub action: RenewRequestAction,
}

/// A renewal that is being requested, one proof after the other.
#[derive(Debug)]
pub struct RenewRequest {
    pub preflight: RenewPreflight,
    pub candidates: AuthCandidateRunner,
    pub last_rejection: Option<Error>,
    pub phase: RenewRequestPhase,
}

pub ghost struct RenewRequestView {
    pub preflight: RenewPreflight,
    pub pending: Seq<AuthCandidateSpec>,
    pub last_rejection: Option<Error>,
    pub phase: RenewRequestPhase,
}

impl View for RenewRequest {
    type V = RenewRequestView;

    open spec fn view(&self) -> RenewRequestView {
        RenewRequestView {
            preflight: self.preflight,
            pending: self.candidates.pending@,
            last_rejection: self.last_rejection,
            phase: self.phase,
        }
    }
}

impl RenewRequestView {
    pub open spec fn at(self, phase: RenewRequestPhase) -> RenewRequestView {
        RenewRequestView { phase, ..self }
    }

    pub open spec fn ended(
        self,
        result: Result<CertificateDetail, RenewError>,
        stop_automatic: bool,
    ) -> (RenewRequestView, RenewRequestAction) {
        (
            self.at(RenewRequestPhase::Done),
            RenewRequestAction::Finish { result, stop_automatic },
        )
    }

    /// Goes to the next proof.
    pub open spec fn onward(self) -> (RenewRequestView, RenewRequestAction) {
        if self.pending.len() == 0 {
            self.ended(
                Err(
                    match self.last_rejection {
                        Some(error) => RenewError::Rejected { error },
                        None => RenewError::NoCandidate,
                    },
                ),
                false,
            )
        } else {
            let rest = RenewRequestView { pending: self.pending.skip(1), ..self };
            match self.pending[0] {
                AuthCandidateSpec::Identity(name) => (
                    rest.at(RenewRequestPhase::LoadIdentity),
                    RenewRequestAction::Load(name),
                ),
                AuthCandidateSpec::Email => (
                    rest.at(RenewRequestPhase::EmailSession),
                    RenewRequestAction::RunEmailSession { domain: self.preflight.target.name.full },
                ),
            }
        }
    }

    /// The server refused the renewal for good.
    pub open spec fn refused(self, error: Error) -> (RenewRequestView, RenewRequestAction) {
        self.ended(
            Err(RenewError::Refused { error, target: self.preflight.target.name }),
            ends_automatic_renewal(error),
        )
    }

    /// What follows on an event. Identities are tried in order; only a rejected proof leads to
    /// the next one, every other refusal ends the renewal. A refusal after the email session
    /// ends it too.
    pub open spec fn after(self, event: RenewRequestEvent) -> (
        RenewRequestView,
        RenewRequestAction,
    ) {
        match (self.phase, event) {
            (RenewRequestPhase::LoadIdentity, RenewRequestEvent::Loaded(loaded)) => match loaded {
                Some(summary) => if summary.status is Ready {
                    (
                        self.at(RenewRequestPhase::TryIdentity(summary.target.name)),
                        RenewRequestAction::RequestWithIdentity(summary.target.name),
                    )
                } else {
                    self.onward()
                },
                None => self.onward(),
            },
            (
                RenewRequestPhase::LoadIdentity,
                RenewRequestEvent::LoadFailed { message },
            ) => self.ended(Err(RenewError::Other { message }), false),
            (RenewRequestPhase::TryIdentity(_), RenewRequestEvent::Issued(detail)) => self.ended(
                Ok(detail),
                false,
            ),
            (RenewRequestPhase::TryIdentity(_), RenewRequestEvent::Refused(error)) => if disposition(
                error,
            ) == AuthAttemptDisposition::TryNext {
                (RenewRequestView { last_rejection: Some(error), ..self }).onward()
            } else {
                self.refused(error)
            },
            (RenewRequestPhase::EmailSession, RenewRequestEvent::EmailFinished(result)) => match result {
                Ok(token) => (
                    self.at(RenewRequestPhase::TryToken),
                    RenewRequestAction::RequestWithToken { token },
                ),
                Err(error) => self.ended(Err(RenewError::Email(error)), false),
            },
            (RenewRequestPhase::TryToken, RenewRequestEvent::Issued(detail)) => self.ended(
                Ok(detail),
                false,
            ),
            (RenewRequestPhase::TryToken, RenewRequestEvent::Refused(error)) => self.refused(error),
            _ => (self, RenewRequestAction::Nothing),
        }
    }

    /// The warning that is printed after an event: about an identity that cannot be used, or
    /// a proof that was rejected.
    pub open spec fn warning_after(self, event: RenewRequestEvent) -> Option<Seq<char>> {
        match (self.phase, event) {
            (
                RenewRequestPhase::LoadIdentity,
                RenewRequestEvent::Loaded(Some(summary)),
            ) => if summary.status is Ready {
                None
            } else {
                Some(unusable_warning(summary, self.pending))
            },
            (
                RenewRequestPhase::TryIdentity(name),
                RenewRequestEvent::Refused(error),
            ) => if disposition(error) == AuthAttemptDisposition::TryNext {
                Some(rejection_warning(name.partial(), error))
            } else {
                None
            },
            _ => None,
        }
    }

    /// All names are complete.
    pub open spec fn wf(self) -> bool {
        &&& self.preflight.target.wf()
        &&& forall|i: int|
            0 <= i < self.pending.len() ==> (#[trigger] self.pending[i] matches AuthCandidateSpec::Identity(
                name,
            ) ==> name.wf())
        &&& self.phase matches RenewRequestPhase::TryIdentity(name) ==> name.wf()
    }
}

/// The warning about a rejected proof.
pub open spec fn rejection_warning(name: Seq<char>, error: Error) -> Seq<char> {
    "Cannot authenticate with "@ + name + ": "@ + error.words()
        + "; trying the next authentication method"@
}

/// The warning about a rejected proof.
pub fn auth_rejection_text(name: &str, error: &Error) -> (r: String)
    ensures
        r@ == rejection_warning(name@, *error),
{
    let mut r = "Cannot authenticate with ".to_owned();
    r.append(name);
    r.append(": ");
    r.append(&error.to_text());
    r.append("; trying the next authentication method");
    r
}

pub open spec fn event_wf(event: RenewRequestEvent) -> bool {
    event matches RenewRequestEvent::Loaded(Some(summary)) ==> summary.target.wf()
}

impl RenewRequest {
    /// Starts with the first proof for the identity, which exists on the server.
    pub fn start(preflight: RenewPreflight) -> (r: (RenewRequest, RenewRequestAction))
        requires
            preflight.target.wf(),
        ensures
            r.0@.wf(),
            (r.0@, r.1) == (RenewRequestView {
                preflight,
                pending: candidates_for(preflight.target, RemoteTargetState::Exists),
                last_rejection: None,
                phase: RenewRequestPhase::Done,
            }).onward(),
    {
        let candidates = AuthCandidateRunner::new(
            candidate_specs(&preflight.target, RemoteTargetState::Exists),
        );
        let mut request = RenewRequest {
            preflight,
            candidates,
            last_rejection: None,
            phase: RenewRequestPhase::Done,
        };
        let action = request.go_on();
        (request, action)
    }

    fn end(&mut self, result: Result<CertificateDetail, RenewError>, stop_automatic: bool) -> (r:
        RenewRequestAction)
        ensures
            (final(self)@, r) == old(self)@.ended(result, stop_automatic),
    {
        self.phase = RenewRequestPhase::Done;
        RenewRequestAction::Finish { result, stop_automatic }
    }

    fn refuse(&mut self, error: Error) -> (r: RenewRequestAction)
        ensures
            (final(self)@, r) == old(self)@.refused(error),
    {
        let stop = stops_automatic_renewal(&error);
        let target = self.preflight.target.name.copy();
        self.end(Err(RenewError::Refused { error, target }), stop)
    }

    fn go_on(&mut self) -> (r: RenewRequestAction)
        requires
            old(self)@.wf(),
        ensures
            (final(self)@, r) == old(self)@.onward(),
            final(self)@.wf(),
    {
        match self.candidates.next() {
            CandidateStep::Load(name) => {
                self.phase = RenewRequestPhase::LoadIdentity;
                RenewRequestAction::Load(name)
            },
            CandidateStep::Event(CandidateEvent::Email) => {
                self.phase = RenewRequestPhase::EmailSession;
                RenewRequestAction::RunEmailSession {
                    domain: self.preflight.target.name.full.clone(),
                }
            },
            CandidateStep::Event(_) => {
                let rejection = self.last_rejection.take();
                let error = match rejection {
                    Some(error) => {
                        self.last_rejection = Some(copy_error(&error));
                        RenewError::Rejected { error }
                    },
                    None => RenewError::NoCandidate,
                };
                self.end(Err(error), false)
            },
        }
    }

    /// Takes what came of an action and gives the next one.
    pub fn next(&mut self, event: RenewRequestEvent) -> (r: RenewRequestStep)
        requires
            old(self)@.wf(),
            event_wf(event),
        ensures
            final(self)@.wf(),
            (final(self)@, r.action) == old(self)@.after(event),
            opt_view(r.warning) == old(self)@.warning_after(event),
    {
        let mut warning: Option<String> = None;
        let ghost before = self@;
        let action = match (&self.phase, event) {
            (RenewRequestPhase::LoadIdentity, RenewRequestEvent::Loaded(loaded)) => match loaded {
                Some(summary) => {
                    if summary.status.is_ready() {
                        let name = summary.target.name.copy();
                        self.phase = RenewRequestPhase::TryIdentity(name.copy());
                        RenewRequestAction::RequestWithIdentity(name)
                    } else {
                        warning = Some(self.candidates.warning_for(&summary));
                        self.go_on()
                    }
                },
                None => self.go_on(),
            },
            (
                RenewRequestPhase::LoadIdentity,
                RenewRequestEvent::LoadFailed { message },
            ) => self.end(Err(RenewError::Other { message }), false),
            (RenewRequestPhase::TryIdentity(_), RenewRequestEvent::Issued(detail)) => self.end(
                Ok(detail),
                false,
            ),
            (RenewRequestPhase::TryIdentity(name), RenewRequestEvent::Refused(error)) => {
                match classify_identity_attempt(&error) {
                    AuthAttemptDisposition::TryNext => {
                        proof {
                            wf_name_len(*name);
                        }
                        warning = Some(auth_rejection_text(name.as_partial(), &error));
                        self.last_rejection = Some(error);
                        self.go_on()
                    },
                    _ => self.refuse(error),
                }
            },
            (RenewRequestPhase::EmailSession, RenewRequestEvent::EmailFinished(result)) => match result {
                Ok(token) => {
                    self.phase = RenewRequestPhase::TryToken;
                    RenewRequestAction::RequestWithToken { token }
                },
                Err(error) => self.end(Err(RenewError::Email(error)), false),
            },
            (RenewRequestPhase::TryToken, RenewRequestEvent::Issued(detail)) => self.end(
                Ok(detail),
                false,
            ),
            (RenewRequestPhase::TryToken, RenewRequestEvent::Refused(error)) => self.refuse(error),
            _ => RenewRequestAction::Nothing,
        };
        RenewRequestStep { warning, action }
    }
}

fn copy_error(error: &Error) -> (r: Error)
    ensures
        r == *error,
{
    match error {
        Error::Request { message } => Error::Request { message: message.clone() },
        Error::Api { status, code, message } => Error::Api {
            status: *status,
            code: code.clone(),
            message: message.clone(),
        },
        Error::Json => Error::Json,
        Error::DhttpEndpoint => Error::DhttpEndpoint,
        Error::DhttpEndpointFromProfile { identity } => Error::DhttpEndpointFromProfile {
            identity: *identity,
        },
        Error::DhttpRequest => Error::DhttpRequest,
        Error::DhttpRead => Error::DhttpRead,
        Error::IdentityFallbackUnavailable => Error::IdentityFallbackUnavailable,
        Error::Whatever { message } => Error::Whatever { message: message.clone() },
    }
}

/// The next proof is tried only after the one before it was explicitly rejected or could not
/// be used.
pub proof fn next_proof_needs_a_rejection(request: RenewRequestView, event: RenewRequestEvent)
    requires
        request.phase is TryIdentity,
        !(request.after(event).1 is Finish) && !(request.after(event).1 is Nothing),
    ensures
        event matches RenewRequestEvent::Refused(error) && disposition(error)
            == AuthAttemptDisposition::TryNext,
{
}

/// Each event takes at most one proof off the list, so that the walk comes to an end.
pub proof fn proofs_are_used_up(request: RenewRequestView, event: RenewRequestEvent)
    ensures
        request.after(event).0.pending == request.pending || (request.pending.len() > 0
            && request.after(event).0.pending == request.pending.skip(1)),
{
}

/// A renewal that the server has ended for good stops automatic renewal; no other failure
/// does.
pub proof fn automatic_renewal_stops_only_for_ended_domains(
    request: RenewRequestView,
    event: RenewRequestEvent,
)
    requires
        request.after(event).1 matches RenewRequestAction::Finish { stop_automatic, .. }
            && stop_automatic,
    ensures
        event matches RenewRequestEvent::Refused(error) && ends_automatic_renewal(error),
{
}

/// Where the renewal of one identity stands.
#[derive(Debug, Clone, Copy, PartialEq, Eq, Structural)]
pub enum RenewOnePhase {
    LoadPending,
    CreatePending,
    Request,
    Install,
    RemovePending,
    Done,
}

/// What came of an action.
#[derive(Debug)]
pub enum RenewOneEvent {
    /// What pending material there is, and the time.
    PendingLoaded { pending: Option<PendingRenewal>, now: i64 },
    PendingCreated(PendingRenewal),
    PendingFailed(PendingError),
    Issued(CertificateDetail),
    RequestFailed(RenewError),
    Installed,
    InstallFailed(crate::install::Error),
    /// The installed material was removed from the pending place, or could not be.
    Removed,
}

/// What the renewal of one identity does next.
#[derive(Debug)]
pub enum RenewOneAction {
    LoadPending,
    CreatePending,
    Request,
    Install { detail: CertificateDetail, expected: InstallExpectation },
    RemovePending,
    /// Ends without a renewal because none is due; this line is printed, and the identity is
    /// renewed automatically from now on.
    Skip { line: String },
    /// Ends with a renewed identity; the line [`RENEWED`] is printed, and the identity is
    /// renewed automatically from now on.
    Renewed,
    Fail(RenewError),
    Nothing,
}

/// The renewal of one identity. Material of an earlier attempt is used again, so that the
/// server sees one request.
#[derive(Debug)]
pub struct RenewOne {
    pub preflight: RenewPreflight,
    pub expires_at: Option<i64>,
    pub force: bool,
    pub pending: Option<PendingRenewal>,
    pub phase: RenewOnePhase,
}

impl RenewOne {
    pub open spec fn at(self, phase: RenewOnePhase) -> RenewOne {
        RenewOne { phase, ..self }
    }

    /// Nothing is requested where no material is pending, none is forced, and none is due.
    pub open spec fn skips(self, pending: Option<PendingRenewal>, now: i64) -> bool {
        pending is None && !self.force && !due(self.expires_at, now)
    }

    /// The state after an event.
    pub open spec fn after(self, event: RenewOneEvent) -> RenewOne {
        match (self.phase, event) {
            (RenewOnePhase::LoadPending, RenewOneEvent::PendingLoaded { pending, now }) => {
                if self.skips(pending, now) {
                    self.at(RenewOnePhase::Done)
                } else if pending is Some {
                    (RenewOne { pending, ..self }).at(RenewOnePhase::Request)
                } else {
                    self.at(RenewOnePhase::CreatePending)
                }
            },
            (RenewOnePhase::CreatePending, RenewOneEvent::PendingCreated(pending)) => (RenewOne {
                pending: Some(pending),
                ..self
            }).at(RenewOnePhase::Request),
            (RenewOnePhase::LoadPending, RenewOneEvent::PendingFailed(_))
            | (RenewOnePhase::CreatePending, RenewOneEvent::PendingFailed(_))
            | (RenewOnePhase::Request, RenewOneEvent::RequestFailed(_))
            | (RenewOnePhase::Install, RenewOneEvent::InstallFailed(_))
            | (RenewOnePhase::RemovePending, RenewOneEvent::Removed) => self.at(
                RenewOnePhase::Done,
            ),
            (RenewOnePhase::Request, RenewOneEvent::Issued(_)) => self.at(RenewOnePhase::Install),
            (RenewOnePhase::Install, RenewOneEvent::Installed) => self.at(
                RenewOnePhase::RemovePending,
            ),
            (_, _) => self,
        }
    }

    /// `action` is what follows on an event.
    pub open spec fn answers(self, event: RenewOneEvent, action: RenewOneAction) -> bool {
        match (self.phase, event) {
            (RenewOnePhase::LoadPending, RenewOneEvent::PendingLoaded { pending, now }) => {
                if self.skips(pending, now) {
                    action matches RenewOneAction::Skip { line } && line@ == not_due_text(
                        self.preflight.target.short(),
                        self.expires_at->0,
                        now,
                    )
                } else if pending is Some {
                    action == RenewOneAction::Request
                } else {
                    action == RenewOneAction::CreatePending
                }
            },
            (RenewOnePhase::CreatePending, RenewOneEvent::PendingCreated(_)) => action
                == RenewOneAction::Request,
            (RenewOnePhase::LoadPending, RenewOneEvent::PendingFailed(error))
            | (RenewOnePhase::CreatePending, RenewOneEvent::PendingFailed(error)) => action
                == RenewOneAction::Fail(RenewError::Pending(error)),
            (RenewOnePhase::Request, RenewOneEvent::Issued(detail)) => action matches RenewOneAction::Install {
                detail: d,
                expected,
            } && d == detail && expected.target == self.preflight.target.name && expected.kind
                == self.preflight.kind && expected.sequence == Some(self.preflight.sequence),
            (RenewOnePhase::Request, RenewOneEvent::RequestFailed(error)) => action
                == RenewOneAction::Fail(error),
            (RenewOnePhase::Install, RenewOneEvent::Installed) => action
                == RenewOneAction::RemovePending,
            (RenewOnePhase::Install, RenewOneEvent::InstallFailed(error)) => action
                == RenewOneAction::Fail(RenewError::Install(error)),
            (RenewOnePhase::RemovePending, RenewOneEvent::Removed) => action
                == RenewOneAction::Renewed,
            (_, _) => action == RenewOneAction::Nothing,
        }
    }

    pub fn start(preflight: RenewPreflight, expires_at: Option<i64>, force: bool) -> (r: (
        RenewOne,
        RenewOneAction,
    ))
        ensures
            r.0 == (RenewOne {
                preflight,
                expires_at,
                force,
                pending: None,
                phase: RenewOnePhase::LoadPending,
            }),
            r.1 == RenewOneAction::LoadPending,
    {
        (
            RenewOne {
                preflight,
                expires_at,
                force,
                pending: None,
                phase: RenewOnePhase::LoadPending,
            },
            RenewOneAction::LoadPending,
        )
    }

    /// Takes what came of an action and gives the next one.
    pub fn next(&mut self, event: RenewOneEvent) -> (r: RenewOneAction)
        requires
            old(self).preflight.target.wf(),
        ensures
            *final(self) == old(self).after(event),
            old(self).answers(event, r),
    {
        match (self.phase, event) {
            (RenewOnePhase::LoadPending, RenewOneEvent::PendingLoaded { pending, now }) => {
                if pending.is_none() && !self.force && !renewal_is_due(self.expires_at, now) {
                    self.phase = RenewOnePhase::Done;
                    proof {
                        wf_name_len(self.preflight.target.name);
                    }
                    let expires_at: i64 = match self.expires_at {
                        Some(expires_at) => expires_at,
                        None => now,
                    };
                    let line = renew_not_due_message(
                        self.preflight.target.short_name(),
                        expires_at,
                        now,
                    );
                    return RenewOneAction::Skip { line };
                }
                if pending.is_some() {
                    self.pending = pending;
                    self.phase = RenewOnePhase::Request;
                    RenewOneAction::Request
                } else {
                    self.phase = RenewOnePhase::CreatePending;
                    RenewOneAction::CreatePending
                }
            },
            (RenewOnePhase::CreatePending, RenewOneEvent::PendingCreated(pending)) => {
                self.pending = Some(pending);
                self.phase = RenewOnePhase::Request;
                RenewOneAction::Request
            },
            (RenewOnePhase::LoadPending, RenewOneEvent::PendingFailed(error)) => {
                self.phase = RenewOnePhase::Done;
                RenewOneAction::Fail(RenewError::Pending(error))
            },
            (RenewOnePhase::CreatePending, RenewOneEvent::PendingFailed(error)) => {
                self.phase = RenewOnePhase::Done;
                RenewOneAction::Fail(RenewError::Pending(error))
            },
            (RenewOnePhase::Request, RenewOneEvent::Issued(detail)) => {
                self.phase = RenewOnePhase::Install;
                RenewOneAction::Install { detail, expected: self.preflight.expectation() }
            },
            (RenewOnePhase::Request, RenewOneEvent::RequestFailed(error)) => {
                self.phase = RenewOnePhase::Done;
                RenewOneAction::Fail(error)
            },
            (RenewOnePhase::Install, RenewOneEvent::Installed) => {
                self.phase = RenewOnePhase::RemovePending;
                RenewOneAction::RemovePending
            },
            (RenewOnePhase::Install, RenewOneEvent::InstallFailed(error)) => {
                self.phase = RenewOnePhase::Done;
                RenewOneAction::Fail(RenewError::Install(error))
            },
            (RenewOnePhase::RemovePending, RenewOneEvent::Removed) => {
                self.phase = RenewOnePhase::Done;
                RenewOneAction::Renewed
            },
            (_, _) => RenewOneAction::Nothing,
        }
    }
}

/// Material that is pending is used again: where some was loaded, no other is created, and it
/// stays until it is installed.
pub proof fn pending_material_is_reused(renewal: RenewOne, event: RenewOneEvent)
    requires
        renewal.phase == RenewOnePhase::Request || renewal.phase == RenewOnePhase::Install,
    ensures
        renewal.after(event).pending == renewal.pending,
        renewal.after(event).phase != RenewOnePhase::CreatePending,
{
}

/// Pending material is removed only after the certificate for it was installed.
pub proof fn pending_material_outlives_the_install(renewal: RenewOne, event: RenewOneEvent)
    requires
        renewal.answers(event, RenewOneAction::RemovePending),
    ensures
        renewal.phase == RenewOnePhase::Install && event == RenewOneEvent::Installed,
{
}

/// The targets of a group: its root where it is saved here, then its sub-identities.
pub open spec fn group_targets(group: LocalInventoryGroup) -> Seq<IdentityTarget> {
    let children = group.children@.map_values(|summary: LocalIdentitySummary| summary.target);
    match group.root {
        LocalInventoryRoot::Saved(summary) => seq![summary.target] + children,
        LocalInventoryRoot::Organization { .. } => children,
    }
}

pub open spec fn targets_of(groups: Seq<LocalInventoryGroup>) -> Seq<IdentityTarget>
    decreases groups.len(),
{
    if groups.len() == 0 {
        Seq::<IdentityTarget>::empty()
    } else {
        targets_of(groups.drop_last()) + group_targets(groups.last())
    }
}

/// All saved identities, in the order of the inventory.
pub fn inventory_targets(inventory: &LocalInventory) -> (r: Vec<IdentityTarget>)
    ensures
        r@ == targets_of(inventory.groups@),
{
    let mut targets: Vec<IdentityTarget> = Vec::new();
    let groups = &inventory.groups;
    let mut g: usize = 0;
    while g < groups.len()
        invariant
            g <= groups@.len(),
            targets@ == targets_of(groups@.take(g as int)),
        decreases groups@.len() - g,
    {
        let group = &groups[g];
        if let LocalInventoryRoot::Saved(summary) = &group.root {
            targets.push(summary.target.copy());
        }
        let ghost start = targets@;
        let children = &group.children;
        let ghost mapped = children@.map_values(|summary: LocalIdentitySummary| summary.target);
        assert(start == start + mapped.take(0));
        let mut c: usize = 0;
        while c < children.len()
            invariant
                c <= children@.len(),
                mapped == children@.map_values(|summary: LocalIdentitySummary| summary.target),
                targets@ == start + mapped.take(c as int),
            decreases children@.len() - c,
        {
            targets.push(children[c].target.copy());
            assert(mapped.take(c + 1) == mapped.take(c as int).push(mapped[c as int]));
            c += 1;
        }
        assert(mapped.take(c as int) == mapped);
        assert(groups@.take(g + 1).drop_last() == groups@.take(g as int));
        assert(groups@.take(g + 1).last() == *group);
        assert(targets@ == targets_of(groups@.take(g as int)) + group_targets(*group));
        g += 1;
    }
    assert(groups@.take(groups@.len() as int) == groups@);
    targets
}

/// What a batch of renewals does next with the identity at an index, or how it ends.
#[derive(Debug)]
pub enum RenewAllAction {
    /// No identity is saved here.
    NothingSaved,
    CheckEnabled { index: usize },
    Renew { index: usize },
    Finish(Result<(), RenewError>),
    Nothing,
}

#[derive(Debug)]
pub enum RenewAllEvent {
    /// Whether automatic renewal is enabled for the identity, or why that is unknown.
    Enabled(Result<bool, String>),
    /// The identity was renewed or did not need it, or why it was not.
    Renewed(Result<(), String>),
}

#[derive(Debug)]
pub struct RenewAllStep {
    /// A line that is printed first.
    pub line: Option<String>,
    /// A warning that is printed first.
    pub warning: Option<String>,
    pub action: RenewAllAction,
}

/// A batch of renewals. One that fails does not stop the others.
#[derive(Debug)]
pub struct RenewAll {
    pub targets: Vec<IdentityTarget>,
    pub index: usize,
    pub failures: usize,
    /// Whether automatic renewal of the identity at the index is known to be enabled.
    pub checked: bool,
}

pub open spec fn all_targets_wf(targets: Seq<IdentityTarget>) -> bool {
    forall|i: int| 0 <= i < targets.len() ==> (#[trigger] targets[i]).wf()
}

impl RenewAll {
    pub open spec fn wf(self) -> bool {
        &&& self.failures <= self.index <= self.targets@.len()
        &&& all_targets_wf(self.targets@)
        &&& self.checked ==> self.index < self.targets@.len()
    }

    /// The action for the identity at the index, or the end.
    pub open spec fn awaited(self) -> RenewAllAction {
        if self.index < self.targets@.len() {
            RenewAllAction::CheckEnabled { index: self.index }
        } else if self.failures > 0 {
            RenewAllAction::Finish(
                Err(
                    RenewError::Batch {
                        failures: self.failures,
                        total: self.targets@.len() as usize,
                    },
                ),
            )
        } else {
            RenewAllAction::Finish(Ok(()))
        }
    }

    /// The batch after the identity at the index was dealt with.
    pub open spec fn past(self, failed: bool) -> RenewAll {
        RenewAll {
            index: (self.index + 1) as usize,
            failures: (self.failures + (if failed {
                1int
            } else {
                0int
            })) as usize,
            checked: false,
            ..self
        }
    }

    /// What follows on an event. Identities that are not renewed automatically are passed
    /// over; failures are counted.
    pub open spec fn after(self, event: RenewAllEvent) -> (RenewAll, RenewAllAction) {
        if self.index >= self.targets@.len() {
            (self, RenewAllAction::Nothing)
        } else {
            match (self.checked, event) {
                (false, RenewAllEvent::Enabled(Ok(true))) => (
                    RenewAll { checked: true, ..self },
                    RenewAllAction::Renew { index: self.index },
                ),
                (false, RenewAllEvent::Enabled(Ok(false))) => (
                    self.past(false),
                    self.past(false).awaited(),
                ),
                (false, RenewAllEvent::Enabled(Err(_))) => (
                    self.past(true),
                    self.past(true).awaited(),
                ),
                (true, RenewAllEvent::Renewed(result)) => (
                    self.past(result is Err),
                    self.past(result is Err).awaited(),
                ),
                _ => (self, RenewAllAction::Nothing),
            }
        }
    }

    /// The line and the warning that are printed after an event.
    pub open spec fn output_after(self, event: RenewAllEvent) -> (
        Option<Seq<char>>,
        Option<Seq<char>>,
    ) {
        let name = self.targets@[self.index as int].short();
        if self.index >= self.targets@.len() {
            (None, None)
        } else {
            match (self.checked, event) {
                (false, RenewAllEvent::Enabled(Ok(false))) => (
                    Some("Renewal skipped: automatic renewal is disabled for "@ + name + "."@),
                    None,
                ),
                (false, RenewAllEvent::Enabled(Err(error))) => (
                    None,
                    Some(
                        "Could not inspect automatic renewal state for "@ + name + ": "@ + error@,
                    ),
                ),
                (true, RenewAllEvent::Renewed(Err(error))) => (
                    None,
                    Some("Renewal failed for "@ + name + ": "@ + error@),
                ),
                _ => (None, None),
            }
        }
    }

    pub fn start(targets: Vec<IdentityTarget>) -> (r: (RenewAll, RenewAllAction))
        requires
            all_targets_wf(targets@),
        ensures
            r.0 == (RenewAll { targets, index: 0, failures: 0, checked: false }),
            r.0.wf(),
            r.1 == (if targets@.len() == 0 {
                RenewAllAction::NothingSaved
            } else {
                RenewAllAction::CheckEnabled { index: 0 }
            }),
    {
        let action = if targets.len() == 0 {
            RenewAllAction::NothingSaved
        } else {
            RenewAllAction::CheckEnabled { index: 0 }
        };
        (RenewAll { targets, index: 0, failures: 0, checked: false }, action)
    }

    fn pass(&mut self, failed: bool) -> (r: RenewAllAction)
        requires
            old(self).wf(),
            old(self).index < old(self).targets@.len(),
        ensures
            *final(self) == old(self).past(failed),
            r == final(self).awaited(),
            final(self).wf(),
    {
        let total: usize = self.targets.len();
        self.checked = false;
        self.index = self.index + 1;
        if failed {
            self.failures = self.failures + 1;
        }
        if self.index < total {
            RenewAllAction::CheckEnabled { index: self.index }
        } else if self.failures > 0 {
            RenewAllAction::Finish(Err(RenewError::Batch { failures: self.failures, total }))
        } else {
            RenewAllAction::Finish(Ok(()))
        }
    }

    /// Takes what came of an action and gives the next one.
    pub fn next(&mut self, event: RenewAllEvent) -> (r: RenewAllStep)
        requires
            old(self).wf(),
        ensures
            final(self).wf(),
            (*final(self), r.action) == old(self).after(event),
            (opt_view(r.line), opt_view(r.warning)) == old(self).output_after(event),
    {
        if self.index >= self.targets.len() {
            return RenewAllStep { line: None, warning: None, action: RenewAllAction::Nothing };
        }
        proof {
            assert(self.targets@[self.index as int].wf());
            wf_name_len(self.targets@[self.index as int].name);
        }
        let mut line: Option<String> = None;
        let mut warning: Option<String> = None;
        let name = self.targets[self.index].short_name().to_owned();
        let action = match (self.checked, event) {
            (false, RenewAllEvent::Enabled(Ok(true))) => {
                self.checked = true;
                RenewAllAction::Renew { index: self.index }
            },
            (false, RenewAllEvent::Enabled(Ok(false))) => {
                let mut text = "Renewal skipped: automatic renewal is disabled for ".to_owned();
                text.append(&name);
                text.append(".");
                line = Some(text);
                self.pass(false)
            },
            (false, RenewAllEvent::Enabled(Err(error))) => {
                let mut text = "Could not inspect automatic renewal state for ".to_owned();
                text.append(&name);
                text.append(": ");
                text.append(&error);
                warning = Some(text);
                self.pass(true)
            },
            (true, RenewAllEvent::Renewed(Ok(()))) => self.pass(false),
            (true, RenewAllEvent::Renewed(Err(error))) => {
                let mut text = "Renewal failed for ".to_owned();
                text.append(&name);
                text.append(": ");
                text.append(&error);
                warning = Some(text);
                self.pass(true)
            },
            _ => RenewAllAction::Nothing,
        };
        RenewAllStep { line, warning, action }
    }
}

/// A failure does not keep the identities after it from being dealt with: each event moves on
/// by at most one identity, and the batch only ends after the last.
pub proof fn batches_reach_every_identity(batch: RenewAll, event: RenewAllEvent)
    requires
        batch.wf(),
    ensures
        batch.after(event).0.targets == batch.targets,
        batch.index <= batch.after(event).0.index <= batch.index + 1,
        batch.after(event).1 is Finish ==> batch.after(event).0.index == batch.targets@.len(),
{
    assert(batch.targets.len() == batch.targets@.len());
}

/// The warning that automatic renewal could not be stopped for an identity.
pub fn disable_failed_warning(short_name: &str, error: &str) -> (r: String)
    ensures
        r@ == "Automatic certificate renewal could not be disabled for "@ + short_name@ + ": "@
            + error@,
{
    let mut r = "Automatic certificate renewal could not be disabled for ".to_owned();
    r.append(short_name);
    r.append(": ");
    r.append(error);
    r
}

/// The warning that automatic renewal could not be started for an identity.
pub fn enable_failed_warning(short_name: &str, error: &str) -> (r: String)
    ensures
        r@ == "Automatic certificate renewal could not be enabled for "@ + short_name@ + ": "@
            + error@,
{
    let mut r = "Automatic certificate renewal could not be enabled for ".to_owned();
    r.append(short_name);
    r.append(": ");
    r.append(error);
    r
}

/// Certificates are renewed in the last fifteen days of their validity, and where nothing is
/// known of it.
pub proof fn renewals_are_due_fifteen_days_ahead(expires_at: i64, now: i64)
    ensures
        due(Some(expires_at), now) <==> expires_at - now < 15 * 24 * 60 * 60,
        due(None, now),
{
}

/// The days that are told are whole: they do not exceed what is left, and a day more would.
pub proof fn days_are_rounded_towards_zero(seconds: int)
    ensures
        seconds >= 0 ==> 86400 * whole_days(seconds) <= seconds < 86400 * (whole_days(seconds) + 1),
        seconds < 0 ==> 86400 * (whole_days(seconds) - 1) < seconds <= 86400 * whole_days(seconds),
{
}

/// Only the codes of a domain that has expired or was revoked end its automatic renewal.
pub proof fn automatic_renewal_ends_with_the_domain(error: Error)
    ensures
        ends_automatic_renewal(error) <==> (error matches Error::Api { code, .. } && (code@
            == "domain_expired"@ || code@ == "1212"@ || code@ == "domain_revoked"@ || code@
            == "1213"@)),
{
    if let Error::Api { code, .. } = error {
        crate::cert_server::codes_have_a_number_and_a_name(code@);
    }
}

/// The way to a new chain is told only where the server does not know the old one.
pub proof fn refusals_tell_the_way_out(error: Error, target: Seq<char>)
    ensures
        (error matches Error::Api { status, code, .. } && status == 404 && (code@
            == "cert_sequence_not_found"@ || code@ == "1407"@)) ==> refusal_words(error, target)
            == error.words() + "\nRun `genmeta identity apply "@ + target
            + "` to request a new certificate chain."@,
        !(error matches Error::Api { status, code, .. } && status == 404 && (code@
            == "cert_sequence_not_found"@ || code@ == "1407"@)) ==> refusal_words(error, target)
            == error.words(),
{
    if let Error::Api { code, .. } = error {
        crate::cert_server::codes_have_a_number_and_a_name(code@);
    }
}

/// The kind that is renewed is the one that the saved certificate is used as.
pub proof fn kinds_follow_the_usage(
    usage: IdentityUsage,
    preflight: RenewPreflight,
    assessment: LocalIdentityAssessment,
)
    ensures
        usage_kind(usage) == IdentityKind::Primary <==> usage == IdentityUsage::BothClientAndServer,
        usage_kind(usage) == IdentityKind::Secondary <==> usage == IdentityUsage::ClientOnly,
        preflight.confirmed_by(assessment) <==> assessment.certificate_target_matches == Some(true)
            && assessment.sequence == Some(preflight.sequence) && (if preflight.kind
            == IdentityKind::Primary {
            assessment.usage == Some(IdentityUsage::BothClientAndServer)
        } else {
            assessment.usage == Some(IdentityUsage::ClientOnly)
        }),
{
}

/// A renewal is reported only behind the removal of its material, that only behind the install
/// of what was issued, and that only behind a request with material that was loaded or created.
pub proof fn renewals_are_reported_last(
    renewal: RenewOne,
    event: RenewOneEvent,
    action: RenewOneAction,
)
    requires
        renewal.answers(event, action),
    ensures
        action is Renewed ==> renewal.phase == RenewOnePhase::RemovePending && event is Removed,
        renewal.phase == RenewOnePhase::RemovePending && event is Removed ==> action is Renewed
            && renewal.after(event).phase == RenewOnePhase::Done,
        action is RemovePending ==> renewal.phase == RenewOnePhase::Install && event is Installed,
        renewal.phase == RenewOnePhase::Install && event is Installed ==> action is RemovePending
            && renewal.after(event).phase == RenewOnePhase::RemovePending,
        renewal.phase != RenewOnePhase::RemovePending && renewal.after(event).phase
            == RenewOnePhase::RemovePending ==> renewal.phase == RenewOnePhase::Install && event
            is Installed,
        renewal.phase != RenewOnePhase::Install && renewal.after(event).phase
            == RenewOnePhase::Install ==> renewal.phase == RenewOnePhase::Request && event
            is Issued,
        renewal.phase != RenewOnePhase::Request && renewal.after(event).phase
            == RenewOnePhase::Request ==> (renewal.phase == RenewOnePhase::LoadPending
            || renewal.phase == RenewOnePhase::CreatePending) && renewal.after(event).pending
            is Some && action is Request,
        renewal.phase != RenewOnePhase::CreatePending && renewal.after(event).phase
            == RenewOnePhase::CreatePending ==> renewal.phase == RenewOnePhase::LoadPending,
        renewal.after(event).phase == RenewOnePhase::LoadPending ==> renewal.phase
            == RenewOnePhase::LoadPending,
        renewal.phase == RenewOnePhase::Done ==> action is Nothing && renewal.after(event)
            == renewal,
        renewal.after(event).preflight == renewal.preflight,
        renewal.after(event).expires_at == renewal.expires_at,
        renewal.after(event).force == renewal.force,
{
}

/// What a renewal does with what it is told: material that is there is requested with, a new one
/// is made only where a renewal is forced or due, what was issued is installed for the chain
/// that is renewed, and every failure ends the renewal as it is.
pub proof fn renewals_take_their_course(
    renewal: RenewOne,
    event: RenewOneEvent,
    action: RenewOneAction,
)
    requires
        renewal.answers(event, action),
    ensures
        renewal.phase == RenewOnePhase::LoadPending ==> (event matches RenewOneEvent::PendingLoaded {
            pending: Some(material),
            ..
        } ==> action is Request && renewal.after(event).phase == RenewOnePhase::Request
            && renewal.after(event).pending == Some(material)),
        renewal.phase == RenewOnePhase::LoadPending ==> (event matches RenewOneEvent::PendingLoaded {
            pending: None,
            now,
        } ==> (if !renewal.force && (renewal.expires_at matches Some(end) && end - now >= 15 * 24
            * 60 * 60) {
            action is Skip && renewal.after(event).phase == RenewOnePhase::Done
        } else {
            action is CreatePending && renewal.after(event).phase == RenewOnePhase::CreatePending
        })),
        renewal.phase == RenewOnePhase::CreatePending ==> (
        event matches RenewOneEvent::PendingCreated(material) ==> action is Request
            && renewal.after(event).phase == RenewOnePhase::Request && renewal.after(event).pending
            == Some(material)),
        renewal.phase == RenewOnePhase::Request ==> (event matches RenewOneEvent::Issued(detail)
            ==> (action matches RenewOneAction::Install { detail: given, expected } && given
            == detail && expected.target == renewal.preflight.target.name && expected.kind
            == renewal.preflight.kind && expected.sequence == Some(renewal.preflight.sequence))
            && renewal.after(event).phase == RenewOnePhase::Install),
        action is Install ==> renewal.phase == RenewOnePhase::Request && event is Issued,
        renewal.phase == RenewOnePhase::Request ==> (event matches RenewOneEvent::RequestFailed(
            error,
        ) ==> action == RenewOneAction::Fail(error) && renewal.after(event).phase
            == RenewOnePhase::Done),
        renewal.phase == RenewOnePhase::Install ==> (event matches RenewOneEvent::InstallFailed(
            error,
        ) ==> action == RenewOneAction::Fail(RenewError::Install(error)) && renewal.after(
            event,
        ).phase == RenewOnePhase::Done),
        renewal.phase == RenewOnePhase::LoadPending || renewal.phase
            == RenewOnePhase::CreatePending ==> (event matches RenewOneEvent::PendingFailed(error)
            ==> action == RenewOneAction::Fail(RenewError::Pending(error)) && renewal.after(
            event,
        ).phase == RenewOnePhase::Done),
        action is Fail ==> event is PendingFailed || event is RequestFailed || event
            is InstallFailed,
        action is Skip ==> (event matches RenewOneEvent::PendingLoaded { pending: None, .. }),
{
}

/// The certificate that a request ends with is the one that the server issued, to an identity
/// or to a token.
pub proof fn requests_end_with_what_was_issued(request: RenewRequestView, event: RenewRequestEvent)
    ensures
        request.after(event).1 matches RenewRequestAction::Finish { result: Ok(detail), .. }
            ==> event == RenewRequestEvent::Issued(detail) && (request.phase is TryIdentity
            || request.phase is TryToken),
        request.phase is TryIdentity || request.phase is TryToken ==> (
        event matches RenewRequestEvent::Issued(detail) ==> request.after(event).1 == (
        RenewRequestAction::Finish { result: Ok(detail), stop_automatic: false })),
        request.phase is TryToken ==> (event matches RenewRequestEvent::Refused(error)
            ==> request.after(event).1 == (RenewRequestAction::Finish {
            result: Err(RenewError::Refused { error, target: request.preflight.target.name }),
            stop_automatic: ends_automatic_renewal(error),
        })),
        request.phase is TryIdentity ==> (event matches RenewRequestEvent::Refused(error)
            ==> disposition(error) != AuthAttemptDisposition::TryNext ==> request.after(event).1
            == (RenewRequestAction::Finish {
            result: Err(RenewError::Refused { error, target: request.preflight.target.name }),
            stop_automatic: ends_automatic_renewal(error),
        })),
        request.phase is EmailSession ==> (event matches RenewRequestEvent::EmailFinished(
            Err(error),
        ) ==> request.after(event).1 == (RenewRequestAction::Finish {
            result: Err(RenewError::Email(error)),
            stop_automatic: false,
        })),
        request.phase is LoadIdentity ==> (event matches RenewRequestEvent::LoadFailed { message }
            ==> request.after(event).1 == (RenewRequestAction::Finish {
            result: Err(RenewError::Other { message }),
            stop_automatic: false,
        })),
        request.after(event).0.preflight == request.preflight,
{
}

/// Proofs are tried in their order: an identity that is ready is asked to approve, one that is
/// not is passed over, and email approves for the identity itself.
pub proof fn proofs_are_tried_in_order(request: RenewRequestView, event: RenewRequestEvent)
    ensures
        request.after(event).1 matches RenewRequestAction::RequestWithIdentity(name)
            ==> request.phase is LoadIdentity && (event matches RenewRequestEvent::Loaded(
            Some(summary),
        ) && summary.status is Ready && name == summary.target.name),
        request.phase is LoadIdentity ==> (event matches RenewRequestEvent::Loaded(Some(summary))
            ==> summary.status is Ready ==> request.after(event).1
            == RenewRequestAction::RequestWithIdentity(summary.target.name) && request.after(
            event,
        ).0.pending == request.pending),
        request.after(event).1 matches RenewRequestAction::RequestWithToken { token }
            ==> request.phase is EmailSession && event == RenewRequestEvent::EmailFinished(
            Ok(token),
        ),
        request.phase is EmailSession ==> (event matches RenewRequestEvent::EmailFinished(
            Ok(token),
        ) ==> request.after(event).1 == (RenewRequestAction::RequestWithToken { token })),
        request.after(event).1 matches RenewRequestAction::Load(name) ==> request.pending.len() > 0
            && request.pending[0] == AuthCandidateSpec::Identity(name) && request.after(
            event,
        ).0.pending == request.pending.skip(1),
        request.after(event).1 matches RenewRequestAction::RunEmailSession { domain }
            ==> request.pending.len() > 0 && request.pending[0] is Email && domain
            == request.preflight.target.name.full,
        request.phase is LoadIdentity && request.pending.len() > 0 ==> (
        event matches RenewRequestEvent::Loaded(loaded) ==> !(loaded matches Some(summary)
            && summary.status is Ready) ==> request.after(event).1 is Load || request.after(event).1
            is RunEmailSession),
        request.phase is TryIdentity && request.pending.len() > 0 ==> (
        event matches RenewRequestEvent::Refused(error) ==> disposition(error)
            == AuthAttemptDisposition::TryNext ==> request.after(event).1 is Load || request.after(
            event,
        ).1 is RunEmailSession),
        request.phase is TryIdentity && request.pending.len() == 0 ==> (
        event matches RenewRequestEvent::Refused(error) ==> disposition(error)
            == AuthAttemptDisposition::TryNext ==> request.after(event).1 == (
        RenewRequestAction::Finish {
            result: Err(RenewError::Rejected { error }),
            stop_automatic: false,
        })),
        request.phase is LoadIdentity && request.pending.len() == 0 ==> (
        event matches RenewRequestEvent::Loaded(None) ==> request.after(event).1 == (
        RenewRequestAction::Finish {
            result: Err(
                match request.last_rejection {
                    Some(error) => RenewError::Rejected { error },
                    None => RenewError::NoCandidate,
                },
            ),
            stop_automatic: false,
        })),
{
}

/// A batch renews the identities that are renewed automatically, one after the other, counts
/// those that failed, and succeeds only where none did.
pub proof fn batches_count_their_failures(batch: RenewAll, event: RenewAllEvent)
    requires
        batch.wf(),
    ensures
        ({
            let (next, action) = batch.after(event);
            let over = batch.index == batch.targets@.len();
            let failed = if batch.checked {
                event matches RenewAllEvent::Renewed(Err(_))
            } else {
                event matches RenewAllEvent::Enabled(Err(_))
            };
            let done = if batch.checked {
                event is Renewed
            } else {
                event matches RenewAllEvent::Enabled(outcome) && outcome != Ok::<bool, String>(true)
            };
            &&& (action is Renew <==> !over && !batch.checked && event == RenewAllEvent::Enabled(
                Ok(true),
            ))
            &&& (action matches RenewAllAction::Renew { index } ==> index == batch.index
                && next.index == batch.index && next.checked && next.failures == batch.failures)
            &&& (!over && done ==> next.index == batch.index + 1 && !next.checked && next.failures
                == batch.failures + (if failed {
                1int
            } else {
                0int
            }))
            &&& (!over && done && batch.index + 1 < batch.targets@.len() ==> action == (
            RenewAllAction::CheckEnabled { index: (batch.index + 1) as usize }))
            &&& (!over && done && batch.index + 1 == batch.targets@.len() ==> if next.failures == 0 {
                action == RenewAllAction::Finish(Ok::<(), RenewError>(()))
            } else {
                action == RenewAllAction::Finish(
                    Err::<(), RenewError>(
                        RenewError::Batch { failures: next.failures, total: next.index },
                    ),
                )
            })
            &&& (over ==> action is Nothing && next == batch)
        }),
{
    assert(batch.targets.len() == batch.targets@.len());
}

/// The saved identities of the inventory come group by group, and in each the root before its
/// sub-identities.
pub proof fn groups_are_listed_in_order(
    first: Seq<LocalInventoryGroup>,
    second: Seq<LocalInventoryGroup>,
    group: LocalInventoryGroup,
    i: int,
)
    ensures
        targets_of(Seq::empty()).len() == 0,
        targets_of(first + second) == targets_of(first) + targets_of(second),
        group.root matches LocalInventoryRoot::Saved(summary) ==> {
            &&& targets_of(seq![group]).len() == group.children@.len() + 1
            &&& targets_of(seq![group])[0] == summary.target
            &&& (0 <= i < group.children@.len() ==> targets_of(seq![group])[i + 1]
                == group.children@[i].target)
        },
        group.root is Organization ==> {
            &&& targets_of(seq![group]).len() == group.children@.len()
            &&& (0 <= i < group.children@.len() ==> targets_of(seq![group])[i]
                == group.children@[i].target)
        },
    decreases second.len(),
{
    let alone = seq![group];
    assert(alone.drop_last() =~= Seq::empty());
    assert(alone.last() == group);
    assert(targets_of(alone.drop_last()) =~= Seq::empty());
    if second.len() == 0 {
        assert(first + second =~= first);
        assert(targets_of(first) + targets_of(second) =~= targets_of(first));
    } else {
        groups_are_listed_in_order(first, second.drop_last(), group, i);
        assert((first + second).drop_last() =~= first + second.drop_last());
        assert((first + second).last() == second.last());
        assert(targets_of(first + second) =~= targets_of(first) + targets_of(second));
    }
}

/// What a run over all identities shows names the identity that it is about.
pub proof fn batches_tell_what_happened(all: RenewAll, error: String)
    requires
        all.index < all.targets@.len(),
    ensures
        ({
            let name = all.targets@[all.index as int].short();
            &&& (!all.checked ==> all.output_after(RenewAllEvent::Enabled(Ok(false))) == (
                Some("Renewal skipped: automatic renewal is disabled for "@ + name + "."@),
                None::<Seq<char>>,
            ))
            &&& (!all.checked ==> all.output_after(RenewAllEvent::Enabled(Err(error))) == (
                None::<Seq<char>>,
                Some("Could not inspect automatic renewal state for "@ + name + ": "@ + error@),
            ))
            &&& (!all.checked ==> all.output_after(RenewAllEvent::Enabled(Ok(true))) == (
                None::<Seq<char>>,
                None::<Seq<char>>,
            ))
            &&& (all.checked ==> all.output_after(RenewAllEvent::Renewed(Err(error))) == (
                None::<Seq<char>>,
                Some("Renewal failed for "@ + name + ": "@ + error@),
            ))
            &&& (all.checked ==> all.output_after(RenewAllEvent::Renewed(Ok(()))) == (
                None::<Seq<char>>,
                None::<Seq<char>>,
            ))
        }),
{
}

/// A warning is shown where a proof could not be used, and only there.
pub proof fn unusable_proofs_are_warned_about(request: RenewRequestView, event: RenewRequestEvent)
    ensures
        request.warning_after(event) is Some <==> (request.phase is LoadIdentity && (
        event matches RenewRequestEvent::Loaded(Some(summary)) && !(summary.status is Ready))) || (
        request.phase is TryIdentity && (event matches RenewRequestEvent::Refused(error)
            && disposition(error) == AuthAttemptDisposition::TryNext)),
{
}

/// What is shown for a renewal that is not due tells the days that are left.
pub proof fn skipped_renewals_tell_the_days(short_name: Seq<char>, expires_at: i64, now: i64)
    requires
        0 <= expires_at - now <= i64::MAX,
    ensures
        ({
            let days = (expires_at - now) / 86400;
            not_due_text(short_name, expires_at, now) == "Renewal skipped: "@ + short_name
                + " is valid for "@ + decimal_int(days) + " more "@ + (if days == 1 {
                "day"@
            } else {
                "days"@
            }) + "."@
        }),
{
}

} // verus!
