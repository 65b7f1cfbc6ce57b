use gmutils::apply::{
    apply_identity_name_opening, approval_plan_from_candidate, authorize_local_replacement,
    ensure_sub_identity_exists_with_identity, explicit_target_from_command,
    interactive_name_unavailable_message, missing_root_target_error, missing_target_action,
    new_identity_confirmation_message, preserve_apply_registration_error,
    private_test_root_registration, Apply, ApplyAction, ApplyApprovalPlan, ApplyError, ApplyEvent,
    ApplyFlow, LocalIdentitySave, MissingTargetAction, RegistrationWay,
};
use gmutils::auth_plan::CandidateEvent;
use gmutils::cert_server::{CertificateDetail, Error};
use gmutils::kind::IdentityKind;
use gmutils::local::{IdentityUsage, LocalIdentityStatus, LocalIdentitySummary};
use gmutils::registration::{is_subdomain_quota_exceeded, RegistrationError};
use gmutils::requests::CertificateOrder;
use gmutils::target::{IdentityTarget, RemoteTargetState, ResolvedApplyTarget};

fn command(name: &str) -> Apply {
    Apply {
        name: Some(name.to_string()),
        kind: Some("primary".to_string()),
        force: false,
        device_name: None,
        email: None,
        verify_code: None,
    }
}

fn target(name: &str) -> IdentityTarget {
    IdentityTarget::parse(name).unwrap()
}

fn summary(status: LocalIdentityStatus) -> LocalIdentitySummary {
    LocalIdentitySummary {
        target: target("alice.smith"),
        certificate_chain: Some("primary:0".to_owned()),
        usage: Some(IdentityUsage::BothClientAndServer),
        sequence: Some(0),
        valid_from: Some(1_700_000_000),
        expires_at: Some(1_900_000_000),
        issuer: None,
        status,
        dir: "/tmp/alice.smith".to_owned(),
        is_default: false,
    }
}

fn ready() -> LocalIdentitySummary {
    summary(LocalIdentityStatus::Ready { expires_at: 1_900_000_000 })
}

fn resolved_with(status: Option<LocalIdentityStatus>) -> ResolvedApplyTarget {
    ResolvedApplyTarget {
        target: target("alice.smith"),
        remote: RemoteTargetState::Unknown,
        local: status.map(summary),
    }
}

fn api(status: u16, code: &str) -> Error {
    Error::Api { status, code: code.to_owned(), message: code.to_owned() }
}

fn certificate() -> CertificateDetail {
    CertificateDetail {
        domain: "alice.smith.dhttp.net".to_owned(),
        device_name: None,
        sequence: 0,
        kind: "primary".to_owned(),
        serial_number: None,
        ski: None,
        ski_version: None,
        status: "active".to_owned(),
        csr: String::new(),
        cert_pem: "PEM".to_owned(),
        issued_at: 0,
        valid_not_after: 0,
        created_at: 0,
    }
}

#[test]
fn replacement_authorization_prevents_noninteractive_side_effects_without_force() {
    let error = authorize_local_replacement(
        &resolved_with(Some(LocalIdentityStatus::Ready { expires_at: 1_900_000_000 })),
        false,
        false,
    )
    .unwrap_err();
    assert!(error.to_text().contains("--force"), "{}", error.to_text());

    assert_eq!(
        authorize_local_replacement(
            &resolved_with(Some(LocalIdentityStatus::Invalid {
                detail: "certificate is unreadable".to_string(),
            })),
            false,
            false,
        )
        .unwrap()
        .save,
        LocalIdentitySave::Replace
    );
    assert_eq!(
        authorize_local_replacement(&resolved_with(None), false, false).unwrap().save,
        LocalIdentitySave::New
    );
}

fn start(
    command: &Apply,
    target: Option<IdentityTarget>,
    interactive: bool,
) -> (ApplyFlow, ApplyAction) {
    ApplyFlow::start(command, target, "laptop".to_owned(), interactive)
}

fn prepared() -> ApplyEvent {
    ApplyEvent::Prepared { csr_pem: "CSR".to_owned() }
}

/// The order for a name and a kind, from this device and with the request that was made.
fn order(domain: &str, kind: IdentityKind) -> CertificateOrder {
    CertificateOrder {
        domain: domain.to_owned(),
        kind,
        device_name: "laptop".to_owned(),
        csr_pem: "CSR".to_owned(),
    }
}

#[test]
fn explicit_target_skips_advisory_remote_inspection() {
    let named = explicit_target_from_command(&command("alice.smith")).unwrap();
    let (mut flow, action) = start(&command("alice.smith"), named, false);
    assert!(matches!(action, ApplyAction::LoadLocal));
    flow.next(ApplyEvent::Local(None));
    assert_eq!(flow.remote, RemoteTargetState::Unknown);
}

#[test]
fn explicit_target_from_command_returns_none_without_name() {
    let target = explicit_target_from_command(&Apply {
        name: None,
        kind: None,
        force: false,
        device_name: None,
        email: None,
        verify_code: None,
    })
    .unwrap();

    assert!(target.is_none());
}

#[test]
fn root_apply_without_local_auth_defaults_to_email_non_interactively() {
    assert_eq!(
        approval_plan_from_candidate(CandidateEvent::Email).unwrap(),
        ApplyApprovalPlan::Email,
    );
}

#[test]
fn root_apply_prefers_ready_local_auth_non_interactively() {
    assert_eq!(
        approval_plan_from_candidate(CandidateEvent::Identity {
            short_name: "alice.smith".to_string(),
            full_name: "alice.smith.dhttp.net".to_string(),
        })
        .unwrap(),
        ApplyApprovalPlan::DirectIdentity { auth_domain: "alice.smith.dhttp.net".to_string() },
    );
}

#[test]
fn sub_identity_apply_automatically_uses_ready_parent() {
    assert_eq!(
        approval_plan_from_candidate(CandidateEvent::Identity {
            short_name: "alice.smith".to_string(),
            full_name: "alice.smith.dhttp.net".to_string(),
        })
        .unwrap(),
        ApplyApprovalPlan::DirectIdentity { auth_domain: "alice.smith.dhttp.net".to_string() },
    );
}

#[test]
fn no_candidate_is_an_error() {
    assert!(matches!(
        approval_plan_from_candidate(CandidateEvent::Exhausted),
        Err(ApplyError::NoCandidate)
    ));
}

#[test]
fn apply_identity_name_opening_matches_spec_copy() {
    assert_eq!(
        apply_identity_name_opening(),
        "Applying identity, generating ECC key pair locally, then requesting and deploying certificate."
    );
}

#[test]
fn interactive_name_check_copy_matches_spec() {
    assert_eq!(
        interactive_name_unavailable_message(),
        "Sorry, this name is not available. Please try another one."
    );
}

#[test]
fn newly_registered_identity_uses_the_approved_confirmation() {
    assert_eq!(new_identity_confirmation_message(), "This new name is yours now.");
}

#[test]
fn missing_sub_identity_registration_is_implicit() {
    assert_eq!(
        missing_target_action(&target("phone.alice.smith"), false),
        MissingTargetAction::Register
    );
}

#[test]
fn root_registration_requires_the_private_test_continuation() {
    let target = target("alice.smith");

    assert_eq!(missing_target_action(&target, false), MissingTargetAction::Reject);
    assert_eq!(missing_target_action(&target, true), MissingTargetAction::Register);
}

#[test]
fn missing_root_error_does_not_advertise_private_root_registration() {
    assert_eq!(
        missing_root_target_error(&target("alice.smith")).to_text(),
        "alice.smith does not exist yet. Apply can register a missing sub-identity, but not a new root identity."
    );
}

#[test]
fn starter_domain_limit_registration_error_keeps_the_certserver_problem_message() {
    let error = preserve_apply_registration_error(RegistrationError::Server(Error::Api {
        status: 409,
        code: "starter_domain_limit_reached".to_string(),
        message: "starter plan is limited to 3 free domains per account".to_string(),
    }));
    assert_eq!(error.to_text(), "starter plan is limited to 3 free domains per account");
    assert!(matches!(
        error,
        ApplyError::Registration(RegistrationError::Server(source))
            if source.is_api_code("starter_domain_limit_reached")
    ));
}

#[test]
fn subdomain_quota_helper_matches_api_code_only() {
    assert!(is_subdomain_quota_exceeded(&Error::Api {
        status: 422,
        code: "subdomain_quota_exceeded".to_string(),
        message: "subdomain quota exceeded".to_string(),
    }));
    assert!(!is_subdomain_quota_exceeded(&Error::Api {
        status: 422,
        code: "domain_not_found".to_string(),
        message: "domain not found".to_string(),
    }));
}

#[test]
fn an_existing_sub_identity_is_no_failure() {
    assert!(ensure_sub_identity_exists_with_identity(Ok(())).is_ok());
    assert!(ensure_sub_identity_exists_with_identity(Err(api(500, "internal_error"))).is_err());
}

#[test]
fn an_identity_is_applied_with_the_proof_of_its_parent() {
    let (mut flow, _) =
        start(&command("phone.alice.smith"), Some(target("phone.alice.smith")), false);
    let step = flow.next(ApplyEvent::Local(None));
    assert!(matches!(
        step.action,
        ApplyAction::FindCandidate { remote: RemoteTargetState::Unknown }
    ));
    let step = flow.next(ApplyEvent::Candidate(CandidateEvent::Identity {
        short_name: "alice.smith".to_owned(),
        full_name: "alice.smith.dhttp.net".to_owned(),
    }));
    assert!(matches!(
        &step.action,
        ApplyAction::Prepare { domain } if domain == "phone.alice.smith.dhttp.net"
    ));
    let step = flow.next(prepared());
    assert!(matches!(
        &step.action,
        ApplyAction::IssueCertWithIdentity { auth_domain, order: asked }
            if auth_domain == "alice.smith.dhttp.net"
                && *asked == order("phone.alice.smith.dhttp.net", IdentityKind::Primary)
    ));
    // The server does not know the sub-identity yet: it is registered, once.
    let step = flow.next(ApplyEvent::Issued(Err(api(404, "domain_not_found"))));
    assert!(matches!(
        &step.action,
        ApplyAction::RegisterWithIdentity { auth_domain, target: missing }
            if auth_domain == "alice.smith.dhttp.net" && *missing == target("phone.alice.smith")
    ));
    let step = flow.next(ApplyEvent::SubRegistered(Ok(())));
    assert!(matches!(
        &step.action,
        ApplyAction::IssueCertWithIdentity { order: asked, .. }
            if *asked == order("phone.alice.smith.dhttp.net", IdentityKind::Primary)
    ));
    let step = flow.next(ApplyEvent::Issued(Ok(certificate())));
    assert!(matches!(&step.action, ApplyAction::Save { cert_pem } if cert_pem == "PEM"));
    let step = flow.next(ApplyEvent::Saved);
    assert!(matches!(step.action, ApplyAction::CreateWelcome { new_identity: true }));
    let step = flow.next(ApplyEvent::WelcomeDone);
    assert!(matches!(step.action, ApplyAction::RunEpilogue));
    let step = flow.next(ApplyEvent::EpilogueDone);
    assert!(matches!(step.action, ApplyAction::Finish(Ok(()))));
}

#[test]
fn a_missing_root_is_not_registered_outside_of_tests() {
    assert!(!private_test_root_registration(&command("alice.smith")));
    let (mut flow, _) = start(&command("alice.smith"), Some(target("alice.smith")), false);
    flow.next(ApplyEvent::Local(None));
    flow.next(ApplyEvent::Candidate(CandidateEvent::Email));
    flow.next(prepared());
    let step = flow.next(ApplyEvent::Token(Ok("token".to_owned())));
    assert!(matches!(
        &step.action,
        ApplyAction::IssueCert { access_token, order: asked }
            if access_token == "token"
                && *asked == order("alice.smith.dhttp.net", IdentityKind::Primary)
    ));
    let step = flow.next(ApplyEvent::Issued(Err(api(404, "domain_not_found"))));
    assert!(matches!(
        step.action,
        ApplyAction::Finish(Err(ApplyError::MissingRoot { .. }))
    ));
}

#[test]
fn a_ready_identity_is_kept_unless_it_is_given_up() {
    let (mut flow, _) = start(&command("alice.smith"), Some(target("alice.smith")), false);
    let step = flow.next(ApplyEvent::Local(Some(ready())));
    assert!(matches!(step.action, ApplyAction::Finish(Err(ApplyError::ForceRequired))));

    let (mut flow, _) = start(&command("alice.smith"), Some(target("alice.smith")), true);
    let step = flow.next(ApplyEvent::Local(Some(ready())));
    assert!(matches!(step.action, ApplyAction::ConfirmReplacement));
    let step = flow.next(ApplyEvent::Answer(false));
    assert!(matches!(step.action, ApplyAction::Finish(Err(ApplyError::Cancelled))));
}

#[test]
fn unavailable_names_are_asked_for_again() {
    let (mut flow, action) =
        start(&Apply { name: None, kind: None, ..command("x") }, None, true);
    assert!(matches!(action, ApplyAction::PromptTarget));
    let step = flow.next(ApplyEvent::Target(target("alice.smith")));
    assert!(matches!(
        &step.action,
        ApplyAction::Inspect { target: named } if *named == target("alice.smith")
    ));
    let step = flow.next(ApplyEvent::Inspected {
        local: None,
        availability: Ok("unavailable".to_owned()),
    });
    assert!(matches!(step.action, ApplyAction::PromptTarget), "{:?}", step.action);
}

#[test]
fn names_are_needed_without_a_terminal() {
    let (_, action) = start(&Apply { name: None, ..command("x") }, None, false);
    assert!(matches!(action, ApplyAction::Finish(Err(ApplyError::NameRequired))));
}

#[test]
fn a_new_sub_identity_is_registered_with_the_token() {
    let (mut flow, _) =
        start(&command("phone.alice.smith"), Some(target("phone.alice.smith")), true);
    flow.next(ApplyEvent::Local(None));
    flow.next(ApplyEvent::Candidate(CandidateEvent::Email));
    flow.next(prepared());
    flow.next(ApplyEvent::Token(Ok("token".to_owned())));
    let step = flow.next(ApplyEvent::Issued(Err(api(404, "1202"))));
    assert!(
        matches!(
            &step.action,
            ApplyAction::Register {
                access_token,
                target: missing,
                way: RegistrationWay::SubOnTerminal,
            } if access_token == "token" && *missing == target("phone.alice.smith")
        ),
        "{:?}",
        step.action
    );
    let step = flow.next(ApplyEvent::Registered(Err(RegistrationError::NoInvoice)));
    assert!(matches!(
        step.action,
        ApplyAction::Finish(Err(ApplyError::Registration(RegistrationError::NoInvoice)))
    ));
}
