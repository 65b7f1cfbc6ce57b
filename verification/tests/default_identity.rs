use gmutils::default_identity::{
    default_not_found_message, default_report, default_set_decision, default_to_set,
    resolve_default_target_name, DefaultError, DefaultSetDecision,
};
use gmutils::local::{IdentityUsage, LocalIdentityStatus, LocalIdentitySummary};
use gmutils::target::{IdentityName, IdentityTarget};

fn summary(status: LocalIdentityStatus) -> LocalIdentitySummary {
    LocalIdentitySummary {
        target: IdentityTarget::parse("alice.smith").unwrap(),
        certificate_chain: Some("primary:0".to_owned()),
        usage: Some(IdentityUsage::BothClientAndServer),
        sequence: Some(0),
        valid_from: Some(1_700_000_000),
        expires_at: Some(1_900_000_000),
        issuer: None,
        status,
        dir: "/tmp/alice.smith".to_owned(),
        is_default: false,
    }
}

fn ready() -> LocalIdentitySummary {
    summary(LocalIdentityStatus::Ready { expires_at: 1_900_000_000 })
}

#[test]
fn missing_default_target_matches_the_edited_document() {
    assert_eq!(
        default_not_found_message("alice.smith"),
        "Failed to set default identity: alice.smith not found!"
    );
}

#[test]
fn default_setter_requires_force_for_every_nonready_status() {
    assert_eq!(default_set_decision(&ready(), false), DefaultSetDecision::Allow);

    for nonready in [
        LocalIdentityStatus::Expired { expired_at: 1_700_000_000 },
        LocalIdentityStatus::Invalid { detail: "certificate is invalid".to_string() },
        LocalIdentityStatus::Incomplete { detail: "private key is missing".to_string() },
    ] {
        let summary = summary(nonready);
        assert_eq!(default_set_decision(&summary, false), DefaultSetDecision::RequireForce);
        assert_eq!(default_set_decision(&summary, true), DefaultSetDecision::Allow);
    }
}

#[test]
fn default_reports_unsaved_identity_non_interactively() {
    for force in [false, true] {
        let target = IdentityTarget::parse("alice.smith").unwrap();
        let error = default_to_set(target, None, force).unwrap_err();
        assert_eq!(
            error.to_text(),
            "Failed to set default identity: alice.smith not found!"
        );
    }
}

#[test]
fn default_named_saved_identity_sets_default_non_interactively() {
    let target = IdentityTarget::parse("alice.smith").unwrap();
    let saved = summary(LocalIdentityStatus::Incomplete { detail: "certificate missing".to_owned() });
    let name = default_to_set(target, Some(saved), true).unwrap();
    assert_eq!(name.as_partial(), "alice.smith");
}

#[test]
fn nothing_is_set_over_an_unready_identity_without_force() {
    let target = IdentityTarget::parse("alice.smith").unwrap();
    let saved = summary(LocalIdentityStatus::Expired { expired_at: 1_700_000_000 });
    assert!(matches!(
        default_to_set(target, Some(saved), false),
        Err(DefaultError::NotReady { .. })
    ));
}

#[test]
fn queries_need_a_configured_default() {
    assert!(matches!(resolve_default_target_name(None), Err(DefaultError::NoneConfigured)));
    let name = IdentityName::parse("alice.smith").unwrap();
    assert_eq!(resolve_default_target_name(Some(name)).unwrap().as_full(), "alice.smith.dhttp.net");
    assert!(default_report(&ready(), false, false).contains("alice.smith"));
    assert!(default_report(&ready(), true, false).contains("/tmp/alice.smith"));
}
