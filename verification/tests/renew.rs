use gmutils::cert_server::{CertificateDetail, Error};
use gmutils::install::InstallFault;
use gmutils::key_material::{PendingError, PendingRenewal};
use gmutils::kind::IdentityKind;
use gmutils::local::{
    build_inventory, IdentityUsage, LocalIdentityAssessment, LocalIdentityMaterialState,
    LocalIdentityStatus, LocalIdentitySummary,
};
use gmutils::renew::{
    auth_rejection_text, inventory_targets, renew_not_due_message, renew_not_saved_root_message,
    renew_remote_error, renewal_is_due, renewal_request, resolve_preflight,
    stops_automatic_renewal, RenewAll, RenewAllAction, RenewAllEvent, RenewError, RenewOne,
    RenewOneAction, RenewOneEvent, RenewPreflight, RenewRequest, RenewRequestAction,
    RenewRequestEvent, RENEWED,
};
use gmutils::target::{IdentityName, IdentityTarget};

const DAY: i64 = 24 * 60 * 60;

fn summary(status: LocalIdentityStatus, facts: bool) -> LocalIdentitySummary {
    LocalIdentitySummary {
        target: IdentityTarget::parse("alice.smith").unwrap(),
        certificate_chain: None,
        usage: facts.then_some(IdentityUsage::ClientOnly),
        sequence: facts.then_some(2),
        valid_from: Some(1_700_000_000),
        expires_at: Some(1_900_000_000),
        issuer: None,
        status,
        dir: "/tmp/alice.smith".to_owned(),
        is_default: false,
    }
}

fn ready() -> LocalIdentitySummary {
    summary(LocalIdentityStatus::Ready { expires_at: 1_900_000_000 }, true)
}

fn api(status: u16, code: &str, message: &str) -> Error {
    Error::Api { status, code: code.to_string(), message: message.to_string() }
}

fn preflight() -> RenewPreflight {
    RenewPreflight::from_summary(&ready(), false).unwrap()
}

fn pending() -> PendingRenewal {
    PendingRenewal {
        target: "alice.smith.dhttp.net".to_owned(),
        kind: "secondary".to_owned(),
        sequence: 2,
        device_name: "laptop".to_owned(),
        operation_key: "operation".to_owned(),
        key_pem: "KEY".to_owned(),
        csr_pem: "CSR".to_owned(),
    }
}

fn certificate() -> CertificateDetail {
    CertificateDetail {
        domain: "alice.smith.dhttp.net".to_owned(),
        device_name: None,
        sequence: 2,
        kind: "secondary".to_owned(),
        serial_number: None,
        ski: None,
        ski_version: None,
        status: "active".to_owned(),
        csr: "CSR".to_owned(),
        cert_pem: "PEM".to_owned(),
        issued_at: 0,
        valid_not_after: 0,
        created_at: 0,
    }
}

#[test]
fn renewal_is_due_only_within_fifteen_days_or_when_expiry_is_unknown() {
    let now = 1_800_000_000;

    assert!(renewal_is_due(None, now));
    assert!(renewal_is_due(Some(now - 1), now));
    assert!(renewal_is_due(Some(now + 15 * DAY - 1), now));
    assert!(!renewal_is_due(Some(now + 15 * DAY), now));
    assert!(!renewal_is_due(Some(now + 30 * DAY), now));
}

#[test]
fn batch_targets_follow_the_deterministic_inventory_order() {
    let alice = ready();
    let mut bob = alice.copy();
    bob.target = IdentityTarget::parse("bob.smith").unwrap();
    let inventory = build_inventory(vec![bob, alice]);

    let names = inventory_targets(&inventory)
        .into_iter()
        .map(|target| target.short_name().to_string())
        .collect::<Vec<_>>();
    assert_eq!(names, ["alice.smith", "bob.smith"]);
}

#[test]
fn not_due_message_reports_remaining_days_and_force_hint() {
    let now = 1_800_000_000;

    assert_eq!(
        renew_not_due_message("alice.smith", now + 20 * DAY, now),
        "Renewal skipped: alice.smith is valid for 20 more days."
    );
    assert_eq!(
        renew_not_due_message("alice.smith", now + 15 * DAY, now),
        "Renewal skipped: alice.smith is valid for 15 more days."
    );
}

#[test]
fn renew_preflight_accepts_healthy_near_expiry_and_expired_without_force() {
    for summary in [
        summary(LocalIdentityStatus::Ready { expires_at: 1_900_000_000 }, true),
        summary(LocalIdentityStatus::Ready { expires_at: 1_800_000_001 }, true),
        summary(LocalIdentityStatus::Expired { expired_at: 1_700_000_000 }, true),
    ] {
        let preflight = RenewPreflight::from_summary(&summary, false).unwrap();
        assert_eq!(preflight.kind, IdentityKind::Secondary);
        assert_eq!(preflight.sequence, 2);
    }
}

#[test]
fn renew_maps_certificate_usage_to_server_kind() {
    let mut primary = ready();
    primary.usage = Some(IdentityUsage::BothClientAndServer);
    let primary = RenewPreflight::from_summary(&primary, false).unwrap();
    assert_eq!(primary.certificate_kind(), "primary");

    let secondary = RenewPreflight::from_summary(&ready(), false).unwrap();
    assert_eq!(secondary.certificate_kind(), "secondary");
}

#[test]
fn force_only_recovers_nonready_material_with_certificate_facts() {
    let incomplete = summary(
        LocalIdentityStatus::Incomplete { detail: "private key missing".to_string() },
        true,
    );
    let invalid = summary(
        LocalIdentityStatus::Invalid {
            detail: "certificate does not match local key".to_string(),
        },
        true,
    );
    let missing_certificate = summary(
        LocalIdentityStatus::Incomplete { detail: "certificate missing".to_string() },
        false,
    );

    assert!(RenewPreflight::from_summary(&incomplete, false).is_err());
    assert!(RenewPreflight::from_summary(&incomplete, true).is_ok());
    assert!(RenewPreflight::from_summary(&invalid, true).is_ok());
    assert!(RenewPreflight::from_summary(&missing_certificate, true).is_err());
}

#[test]
fn missing_chain_error_keeps_server_message_and_appends_apply_hint() {
    let error = api(404, "cert_sequence_not_found", "certificate chain was not found");
    assert_eq!(
        renew_remote_error(&error, "alice.smith"),
        "certificate chain was not found\nRun `genmeta identity apply alice.smith` to request a new certificate chain."
    );
}

#[test]
fn server_failure_with_reused_code_does_not_offer_apply_recovery() {
    let error = api(500, "cert_sequence_not_found", "internal server error");

    assert_eq!(renew_remote_error(&error, "alice.smith"), "internal server error");
}

#[test]
fn expired_and_revoked_domains_stop_automatic_renewal() {
    for code in ["domain_expired", "domain_revoked", "1212", "1213"] {
        let error = api(409, code, "terminal domain state");
        assert!(stops_automatic_renewal(&error), "code {code}");
    }

    let retryable = api(409, "certificate_renewal_not_due", "renewal is not due");
    assert!(!stops_automatic_renewal(&retryable));
}

#[test]
fn renew_not_saved_message_matches_the_edited_document() {
    assert_eq!(
        renew_not_saved_root_message("alice.ma"),
        "Failed to renew: alice.ma not found!"
    );
}

#[test]
fn renew_reports_saved_local_requirement_before_network_or_email() {
    let name = IdentityName::parse("alice.smith").unwrap();
    let assessment = LocalIdentityAssessment {
        certificate: LocalIdentityMaterialState::Missing("certificate missing"),
        private_key: LocalIdentityMaterialState::Missing("private key missing"),
        certificate_chain: None,
        usage: None,
        sequence: None,
        certificate_target_matches: None,
        expires_at: None,
    };
    let error = resolve_preflight(&name, None, &assessment, false).unwrap_err();

    assert_eq!(error.to_text(), "Failed to renew: alice.smith not found!");
}

#[test]
fn renewed_success_copy_is_visible_and_stable() {
    assert_eq!(RENEWED, "✔ Identity successfully renewed on this device.");
}

#[test]
fn renewal_requests_hold_the_pending_material() {
    let request = renewal_request(&preflight(), &pending());
    assert_eq!(request.domain, "alice.smith.dhttp.net");
    assert_eq!(request.kind, "secondary");
    assert_eq!(request.sequence, 2);
    assert_eq!(request.device_name.as_deref(), Some("laptop"));
    assert_eq!(request.csr, "CSR");
    assert_eq!(request.idempotency_key.as_deref(), Some("operation"));
}

#[test]
fn a_rejected_proof_is_followed_by_the_next() {
    let (mut run, action) = RenewRequest::start(preflight());
    assert!(matches!(&action, RenewRequestAction::Load(name) if name.as_partial() == "alice.smith"));
    let step = run.next(RenewRequestEvent::Loaded(Some(ready())));
    assert!(matches!(step.action, RenewRequestAction::RequestWithIdentity(_)));
    let rejection = api(401, "unauthorized", "who are you");
    let step = run.next(RenewRequestEvent::Refused(rejection.clone()));
    assert_eq!(step.warning, Some(auth_rejection_text("alice.smith", &rejection)));
    assert!(matches!(
        &step.action,
        RenewRequestAction::RunEmailSession { domain } if domain == "alice.smith.dhttp.net"
    ));
    let step = run.next(RenewRequestEvent::EmailFinished(Ok("token".to_owned())));
    assert!(matches!(&step.action, RenewRequestAction::RequestWithToken { token } if token == "token"));
    let step = run.next(RenewRequestEvent::Issued(certificate()));
    assert!(matches!(
        step.action,
        RenewRequestAction::Finish { result: Ok(_), stop_automatic: false }
    ));
}

#[test]
fn ended_domains_end_the_request_and_automatic_renewal() {
    let (mut run, _) = RenewRequest::start(preflight());
    run.next(RenewRequestEvent::Loaded(Some(ready())));
    let step = run.next(RenewRequestEvent::Refused(api(409, "domain_expired", "over")));
    assert!(matches!(
        step.action,
        RenewRequestAction::Finish { result: Err(RenewError::Refused { .. }), stop_automatic: true }
    ));
}

#[test]
fn identities_that_are_not_due_are_skipped() {
    let now = 1_800_000_000;
    let (mut run, action) = RenewOne::start(preflight(), Some(now + 30 * DAY), false);
    assert!(matches!(action, RenewOneAction::LoadPending));
    let action = run.next(RenewOneEvent::PendingLoaded { pending: None, now });
    assert!(matches!(
        &action,
        RenewOneAction::Skip { line }
            if line == "Renewal skipped: alice.smith is valid for 30 more days."
    ));

    let (mut run, _) = RenewOne::start(preflight(), Some(now + 30 * DAY), true);
    let action = run.next(RenewOneEvent::PendingLoaded { pending: None, now });
    assert!(matches!(action, RenewOneAction::CreatePending));
}

#[test]
fn pending_material_is_reused_and_kept_until_it_is_installed() {
    let now = 1_800_000_000;
    let (mut run, _) = RenewOne::start(preflight(), Some(now), false);
    let action = run.next(RenewOneEvent::PendingLoaded { pending: Some(pending()), now });
    assert!(matches!(action, RenewOneAction::Request));
    let action = run.next(RenewOneEvent::Issued(certificate()));
    assert!(matches!(action, RenewOneAction::Install { .. }));
    let action = run.next(RenewOneEvent::Installed);
    assert!(matches!(action, RenewOneAction::RemovePending));
    let action = run.next(RenewOneEvent::Removed);
    assert!(matches!(action, RenewOneAction::Renewed));

    let (mut run, _) = RenewOne::start(preflight(), Some(now), false);
    run.next(RenewOneEvent::PendingLoaded { pending: Some(pending()), now });
    run.next(RenewOneEvent::Issued(certificate()));
    let action = run.next(RenewOneEvent::InstallFailed(gmutils::install::Error {
        fault: InstallFault::UntrustedCertificate,
        message: "not trusted".to_owned(),
    }));
    assert!(matches!(action, RenewOneAction::Fail(RenewError::Install(_))));

    let (mut run, _) = RenewOne::start(preflight(), Some(now), false);
    let action = run.next(RenewOneEvent::PendingFailed(PendingError::Disappeared));
    assert!(matches!(action, RenewOneAction::Fail(RenewError::Pending(_))));
}

#[test]
fn a_batch_reaches_every_identity() {
    let targets = ["alice.smith", "bob.smith", "carol.smith"]
        .iter()
        .map(|name| IdentityTarget::parse(name).unwrap())
        .collect();
    let (mut run, mut action) = RenewAll::start(targets);
    let mut renewed = Vec::new();
    let result = loop {
        match action {
            RenewAllAction::CheckEnabled { index } => {
                action = run.next(RenewAllEvent::Enabled(Ok(index != 1))).action;
            }
            RenewAllAction::Renew { index } => {
                renewed.push(index);
                let outcome = if index == 0 { Err("refused".to_owned()) } else { Ok(()) };
                action = run.next(RenewAllEvent::Renewed(outcome)).action;
            }
            RenewAllAction::Finish(result) => break result,
            other => panic!("unexpected action: {other:?}"),
        }
    };
    assert_eq!(renewed, [0, 2]);
    assert!(matches!(result, Err(RenewError::Batch { failures: 1, total: 3 })), "{result:?}");
    let (_, action) = RenewAll::start(Vec::new());
    assert!(matches!(action, RenewAllAction::NothingSaved));
}
