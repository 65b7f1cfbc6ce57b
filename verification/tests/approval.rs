use gmutils::approval::{
    build_approval_options, build_options_for_candidate, ApprovalDirectLocal, ApprovalHelperOption,
    ApprovalMenuOption, ApprovalMenuSpec, LocalApprovalCandidate,
};

fn apply(name: &str) -> ApprovalHelperOption {
    ApprovalHelperOption::apply_for(name.to_owned(), name.to_owned())
}

fn reapply(name: &str, detail: &str) -> ApprovalHelperOption {
    ApprovalHelperOption::reapply_for(name.to_owned(), name.to_owned(), detail.to_owned())
}

fn renew(name: &str) -> ApprovalHelperOption {
    ApprovalHelperOption::renew_for(name.to_owned(), name.to_owned())
}

fn labels(options: &[ApprovalMenuOption]) -> Vec<String> {
    options.iter().map(ApprovalMenuOption::label).collect()
}

#[test]
fn direct_local_hides_helper_options() {
    let options = build_approval_options(ApprovalMenuSpec {
        email_label: "Verify with email".to_string(),
        direct_local: vec![ApprovalDirectLocal::new(
            "alice.smith".to_owned(),
            "alice.smith".to_owned(),
        )],
        helpers: vec![apply("alice.smith")],
    });

    assert_eq!(
        labels(&options),
        vec![
            "Verify with alice.smith on local device".to_string(),
            "Verify with email".to_string(),
        ]
    );
}

#[test]
fn expired_identity_sorts_renew_before_reapply() {
    let options = build_approval_options(ApprovalMenuSpec {
        email_label: "Verify with email".to_string(),
        direct_local: vec![],
        helpers: vec![reapply("alice.smith", "expired local identity"), renew("alice.smith")],
    });

    assert_eq!(
        labels(&options),
        vec![
            "Verify with email".to_string(),
            "Renew alice.smith on this device, then verify with alice.smith".to_string(),
            "Re-apply alice.smith to this device, then verify with alice.smith".to_string(),
        ]
    );
}

#[test]
fn missing_local_identity_uses_apply_copy() {
    let option = apply("alice.smith");

    assert_eq!(
        option.label(),
        "Apply alice.smith to this device, then verify with alice.smith"
    );
}

#[test]
fn each_state_of_a_candidate_has_its_menu() {
    let short = || "alice.smith".to_owned();
    let full = || "alice.smith.dhttp.net".to_owned();
    let menu = |candidate| {
        labels(&build_options_for_candidate("Verify with email".to_owned(), candidate))
    };
    assert_eq!(menu(None), ["Verify with email"]);
    assert_eq!(
        menu(Some(LocalApprovalCandidate::ready(short(), full()))),
        ["Verify with alice.smith on local device", "Verify with email"]
    );
    assert_eq!(
        menu(Some(LocalApprovalCandidate::expired(short(), full(), true, true))).len(),
        3
    );
    assert_eq!(
        menu(Some(LocalApprovalCandidate::incomplete(short(), full(), "no key".to_owned()))).len(),
        2
    );
    assert_eq!(
        menu(Some(LocalApprovalCandidate::invalid(short(), full(), "bad".to_owned()))).len(),
        2
    );
    assert_eq!(
        menu(Some(LocalApprovalCandidate::missing(short(), full()))),
        [
            "Verify with email",
            "Apply alice.smith to this device, then verify with alice.smith"
        ]
    );
}
