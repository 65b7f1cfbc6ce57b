use gmutils::local::{IdentityUsage, LocalIdentityStatus, LocalIdentitySummary};
use gmutils::target::{
    remote_state_from_availability, replacement_requirement, IdentityLevel, IdentityName,
    IdentityTarget, RemoteTargetState, ReplacementRequirement,
};

fn summary(status: LocalIdentityStatus) -> LocalIdentitySummary {
    LocalIdentitySummary {
        target: IdentityTarget::parse("alice.smith").unwrap(),
        certificate_chain: Some("primary:0".to_owned()),
        usage: Some(IdentityUsage::BothClientAndServer),
        sequence: Some(0),
        valid_from: Some(1_700_000_000),
        expires_at: Some(1_900_000_000),
        issuer: None,
        status,
        dir: "/tmp/alice.smith".to_owned(),
        is_default: false,
    }
}

#[test]
fn availability_maps_existing_and_missing_targets_without_rejecting_apply() {
    assert_eq!(
        remote_state_from_availability("conflict").unwrap(),
        RemoteTargetState::Exists
    );
    assert_eq!(
        remote_state_from_availability("available").unwrap(),
        RemoteTargetState::Missing
    );
    assert_eq!(
        remote_state_from_availability("reserved").unwrap(),
        RemoteTargetState::Unavailable
    );
    assert_eq!(
        remote_state_from_availability("unavailable").unwrap(),
        RemoteTargetState::Unavailable
    );
}

#[test]
fn unknown_availability_is_told() {
    let error = remote_state_from_availability("odd").unwrap_err();
    assert!(error.to_text().contains("odd"), "{}", error.to_text());
}

#[test]
fn replacement_decision_only_blocks_ready_and_expired_material() {
    let ready = summary(LocalIdentityStatus::Ready { expires_at: 1_900_000_000 });
    let expired = summary(LocalIdentityStatus::Expired { expired_at: 1_600_000_000 });
    let invalid = summary(LocalIdentityStatus::Invalid {
        detail: "certificate is unreadable".to_string(),
    });
    let incomplete = summary(LocalIdentityStatus::Incomplete {
        detail: "private key is missing".to_string(),
    });

    assert_eq!(replacement_requirement(None), ReplacementRequirement::NotNeeded);
    assert_eq!(replacement_requirement(Some(&ready)), ReplacementRequirement::Confirm);
    assert_eq!(replacement_requirement(Some(&expired)), ReplacementRequirement::Confirm);
    assert_eq!(replacement_requirement(Some(&invalid)), ReplacementRequirement::NotNeeded);
    assert_eq!(replacement_requirement(Some(&incomplete)), ReplacementRequirement::NotNeeded);
}

#[test]
fn parses_short_and_full_identity_names() {
    let identity = IdentityTarget::parse("alice.smith").unwrap();
    assert_eq!(identity.level(), IdentityLevel::Identity);
    assert_eq!(identity.short_name(), "alice.smith");
    assert_eq!(identity.full_name(), "alice.smith.dhttp.net");
    assert_eq!(identity.parent(), None);

    let sub_identity = IdentityTarget::parse("phone.alice.smith.dhttp.net").unwrap();
    assert_eq!(sub_identity.level(), IdentityLevel::SubIdentity);
    assert_eq!(sub_identity.short_name(), "phone.alice.smith");
    assert_eq!(sub_identity.full_name(), "phone.alice.smith.dhttp.net");
    assert_eq!(
        sub_identity.parent().unwrap(),
        &IdentityName::parse("alice.smith").unwrap(),
    );
}

#[test]
fn names_are_found_under_both_of_their_forms() {
    let short = IdentityTarget::parse("phone.alice.smith").unwrap();
    let full = IdentityTarget::parse("phone.alice.smith.dhttp.net").unwrap();
    assert_eq!(short, full);
    assert_eq!(IdentityTarget::parse(short.full_name()).unwrap(), short);
}

#[test]
fn rejects_unsupported_identity_depths() {
    for input in ["alice", "one.two.three.four"] {
        let error = IdentityTarget::parse(input).unwrap_err();
        assert_eq!(error.to_text(), "This name must match [handle.]your.name.");
    }
}

#[test]
fn direct_name_errors_use_the_same_copy_as_the_prompt() {
    assert_eq!(
        IdentityTarget::parse("alice!.smith").unwrap_err().to_text(),
        "This name contains unsupported special characters."
    );
}

#[test]
fn prompt_errors_use_the_approved_name_language() {
    assert_eq!(
        IdentityTarget::parse("alice").unwrap_err().prompt_message(),
        "This name must match [handle.]your.name."
    );
    assert_eq!(
        IdentityTarget::parse("alice!.smith").unwrap_err().prompt_message(),
        "This name contains unsupported special characters."
    );
}

#[test]
fn extracts_sub_identity_label_from_first_label() {
    let identity = IdentityTarget::parse("phone.alice.smith").unwrap();
    assert_eq!(identity.sub_identity_label(), Some("phone".to_owned()));

    let root_identity = IdentityTarget::parse("alice.smith").unwrap();
    assert_eq!(root_identity.sub_identity_label(), None);
}
