use gmutils::approval::{ApprovalMenuOption, LocalApprovalCandidate};
use gmutils::auth::AuthMethod;
use gmutils::cert_server::Error;
use gmutils::create::{
    apply_verification_recovery, build_create_approval_options, classify_create_error,
    create_email_actions, create_identity_name_opening, create_plan_from_selection,
    create_verify_code_actions, ensure_parent_identity_ready, read_create_names,
    resolve_non_interactive_approval_plan, resolve_parent_candidate,
    resolve_ready_parent_identity, Create, CreateApprovalPlan, CreateEmailAction, CreateError, CreateRecovery, CreateVerifyCodeAction,
    InteractiveCreateState,
};
use gmutils::local::{LocalIdentityStatus, LocalIdentitySummary};
use gmutils::target::IdentityTarget;

fn command() -> Create {
    Create {
        name: Some("alice.smith".to_string()),
        kind: Some("primary".to_string()),
        replace_local: false,
        device_name: None,
        email: Some("alice@example.test".to_string()),
        send_code: false,
        verify_code: None,
        auth: None,
    }
}

fn labels(options: &[ApprovalMenuOption]) -> Vec<String> {
    options.iter().map(ApprovalMenuOption::label).collect()
}

#[test]
fn stay_recovery_keeps_create_verify_state() {
    let mut state = InteractiveCreateState::from_command(&command()).unwrap();
    state.verify_code = Some("123456".to_string());
    state.verification_code_sent_to = Some("alice@example.test".to_string());

    apply_verification_recovery(
        &mut state,
        &CreateRecovery::StayCurrentStep { message: "retry later".to_owned() },
    );

    assert_eq!(state.verify_code.as_deref(), Some("123456"));
    assert_eq!(state.verification_code_sent_to.as_deref(), Some("alice@example.test"));
}

#[test]
fn back_to_email_recovery_reopens_email_prompt() {
    let mut state = InteractiveCreateState::from_command(&command()).unwrap();
    state.email_prompt_required = false;

    apply_verification_recovery(
        &mut state,
        &CreateRecovery::BackToEmail { message: "start over".to_owned() },
    );

    assert!(state.email_prompt_required);
    assert!(state.verify_code.is_none());
}

#[test]
fn root_identity_defaults_to_email_auth_non_interactively() {
    let target = IdentityTarget::parse("alice.smith").unwrap();
    assert_eq!(
        resolve_non_interactive_approval_plan(&target, None, None).unwrap(),
        CreateApprovalPlan {
            parent_identity: None,
            auth: AuthMethod::Email,
            helper_action: None,
        }
    );
}

#[test]
fn root_identity_rejects_identity_auth() {
    let target = IdentityTarget::parse("alice.smith").unwrap();
    let error =
        resolve_non_interactive_approval_plan(&target, Some(AuthMethod::Identity), None)
            .unwrap_err();
    let rendered = error.to_text();
    assert!(rendered.contains("email verification"), "{rendered}");
    assert!(rendered.contains("--auth identity"), "{rendered}");
}

#[test]
fn sub_identity_with_ready_parent_requires_explicit_auth_non_interactively() {
    let target = IdentityTarget::parse("phone.alice.smith").unwrap();
    let error =
        resolve_non_interactive_approval_plan(&target, None, Some("alice.smith")).unwrap_err();
    let rendered = error.to_text();
    assert!(rendered.contains("--auth email"), "{rendered}");
    assert!(rendered.contains("--auth identity"), "{rendered}");
}

#[test]
fn sub_identity_identity_auth_targets_parent_identity() {
    let target = IdentityTarget::parse("phone.alice.smith").unwrap();
    assert_eq!(
        resolve_non_interactive_approval_plan(
            &target,
            Some(AuthMethod::Identity),
            Some("alice.smith"),
        )
        .unwrap(),
        CreateApprovalPlan {
            parent_identity: Some("alice.smith".to_string()),
            auth: AuthMethod::Identity,
            helper_action: None,
        }
    );
}

#[test]
fn sub_identity_email_auth_is_allowed() {
    let target = IdentityTarget::parse("phone.alice.smith").unwrap();
    assert_eq!(
        resolve_non_interactive_approval_plan(&target, Some(AuthMethod::Email), None).unwrap(),
        CreateApprovalPlan {
            parent_identity: Some("alice.smith".to_string()),
            auth: AuthMethod::Email,
            helper_action: None,
        }
    );
}

#[test]
fn sub_identity_without_ready_parent_defaults_to_email_non_interactively() {
    let target = IdentityTarget::parse("phone.alice.smith").unwrap();
    assert_eq!(
        resolve_non_interactive_approval_plan(&target, None, None).unwrap(),
        CreateApprovalPlan {
            parent_identity: Some("alice.smith".to_string()),
            auth: AuthMethod::Email,
            helper_action: None,
        }
    );
}

#[test]
fn sub_identity_identity_auth_requires_ready_local_parent() {
    let target = IdentityTarget::parse("phone.alice.smith").unwrap();
    let error =
        resolve_non_interactive_approval_plan(&target, Some(AuthMethod::Identity), None)
            .unwrap_err();
    let rendered = error.to_text();
    assert!(rendered.contains("ready local parent identity"), "{rendered}");
    assert!(rendered.contains("phone.alice.smith"), "{rendered}");
}

#[test]
fn create_identity_name_opening_matches_spec_copy() {
    let opening = create_identity_name_opening();
    assert!(opening.contains("Create a new identity for this device."));
    assert!(opening.contains("<given_name>.<surname>"));
    assert!(opening.contains("alice.smith"));
    assert!(opening.contains("phone.alice.smith"));
}

#[test]
fn create_subidentity_with_ready_parent_shows_local_before_email() {
    let options = build_create_approval_options(Some(LocalApprovalCandidate::ready(
        "alice.smith".to_owned(),
        "alice.smith.dhttp.net".to_owned(),
    )));

    assert_eq!(
        labels(&options),
        vec![
            "Verify with alice.smith on local device".to_string(),
            "Verify with email".to_string(),
        ]
    );
}

#[test]
fn create_subidentity_with_missing_parent_uses_apply_copy() {
    let options = build_create_approval_options(Some(LocalApprovalCandidate::missing(
        "alice.smith".to_owned(),
        "alice.smith.dhttp.net".to_owned(),
    )));

    assert_eq!(
        labels(&options),
        vec![
            "Verify with email".to_string(),
            "Apply alice.smith to this device, then verify with alice.smith".to_string(),
        ]
    );
}

#[test]
fn create_email_actions_use_explicit_return_point_copy() {
    assert_eq!(
        create_email_actions(true),
        vec![
            CreateEmailAction::SwitchVerificationMethod,
            CreateEmailAction::ChangeCertificateKind,
            CreateEmailAction::ChangeIdentityName,
        ]
    );
    assert_eq!(
        create_email_actions(true).into_iter().map(|action| action.label()).collect::<Vec<_>>(),
        vec![
            "Switch verification method (go back to verification method selection)".to_string(),
            "Change certificate kind (go back to identity kind)".to_string(),
            "Change identity name (go back to identity name)".to_string(),
        ]
    );
}

#[test]
fn create_verify_code_actions_include_resend_and_explicit_return_points() {
    assert_eq!(
        create_verify_code_actions(Some("phone.alice.smith")),
        vec![
            CreateVerifyCodeAction::ResendVerificationCode,
            CreateVerifyCodeAction::ChangeEmail,
            CreateVerifyCodeAction::SwitchVerificationMethod,
            CreateVerifyCodeAction::ChangeCertificateKind,
            CreateVerifyCodeAction::ChangeIdentityName,
            CreateVerifyCodeAction::ReturnToCreate {
                target_name: "phone.alice.smith".to_string(),
            },
        ]
    );
    assert_eq!(
        create_verify_code_actions(Some("phone.alice.smith"))
            .into_iter()
            .map(|action| action.label())
            .collect::<Vec<_>>(),
        vec![
            "Resend verification code".to_string(),
            "Send code to another email (go back to email)".to_string(),
            "Switch verification method (go back to verification method selection)".to_string(),
            "Change certificate kind (go back to identity kind)".to_string(),
            "Change identity name (go back to identity name)".to_string(),
            "Return to create phone.alice.smith".to_string(),
        ]
    );
}

#[test]
fn names_on_the_command_line_are_read() {
    let (target, kind) = read_create_names(&command()).unwrap();
    assert_eq!(target.unwrap().short_name(), "alice.smith");
    assert_eq!(kind.unwrap().as_str(), "primary");
    let odd = Create { kind: Some("third".to_owned()), ..command() };
    assert!(matches!(read_create_names(&odd), Err(CreateError::Kind(_))));
    let deep = Create { name: Some("a.b.c.d".to_owned()), ..command() };
    assert!(matches!(read_create_names(&deep), Err(CreateError::Target(_))));
}

#[test]
fn selections_are_plans() {
    let options = build_create_approval_options(Some(LocalApprovalCandidate::ready(
        "alice.smith".to_owned(),
        "alice.smith.dhttp.net".to_owned(),
    )));
    let plan = create_plan_from_selection(
        &options,
        "Verify with alice.smith on local device",
        Some("alice.smith"),
    )
    .unwrap();
    assert_eq!(plan.auth, AuthMethod::Identity);
    assert!(create_plan_from_selection(&options, "Verify with smoke", None).is_err());
}

#[test]
fn refusals_of_a_code_have_a_way_back() {
    let api = |code: &str| Error::Api {
        status: 401,
        code: code.to_owned(),
        message: code.to_owned(),
    };
    assert!(matches!(
        classify_create_error(&api("verify_code_invalid")),
        CreateRecovery::StayCurrentStep { .. }
    ));
    assert!(matches!(
        classify_create_error(&api("domain_email_not_matched")),
        CreateRecovery::BackToEmail { .. }
    ));
    assert!(matches!(classify_create_error(&api("internal_error")), CreateRecovery::Abort));
}

#[test]
fn resets_forget_what_depended_on_the_answer() {
    let mut state = InteractiveCreateState::from_command(&command()).unwrap();
    state.verify_code = Some("123456".to_owned());
    state.verification_code_sent_to = Some("alice@example.test".to_owned());
    state.reset_after_email_change();
    assert!(state.verify_code.is_none());
    assert!(state.verification_code_sent_to.is_none());
    state.reset_after_target_change();
    assert!(state.kind.is_none() && state.approval_plan.is_none());
}

fn saved_parent(status: LocalIdentityStatus) -> LocalIdentitySummary {
    LocalIdentitySummary {
        target: IdentityTarget::parse("alice.smith").unwrap(),
        certificate_chain: None,
        usage: None,
        sequence: None,
        valid_from: None,
        expires_at: None,
        issuer: None,
        status,
        dir: "/home/alice/.dhttp/alice.smith".to_string(),
        is_default: false,
    }
}

#[test]
fn parents_take_part_by_what_is_saved_of_them() {
    let phone = IdentityTarget::parse("phone.alice.smith").unwrap();
    let root = IdentityTarget::parse("alice.smith").unwrap();
    let ready = saved_parent(LocalIdentityStatus::Ready { expires_at: 1 });
    let expired = saved_parent(LocalIdentityStatus::Expired { expired_at: 1 });

    assert_eq!(resolve_parent_candidate(&root, Some(&ready)), None);
    assert_eq!(
        resolve_parent_candidate(&phone, None),
        Some(LocalApprovalCandidate::missing(
            "alice.smith".to_string(),
            "alice.smith.dhttp.net".to_string()
        ))
    );
    assert_eq!(
        resolve_parent_candidate(&phone, Some(&expired)),
        Some(LocalApprovalCandidate::expired(
            "alice.smith".to_string(),
            "alice.smith.dhttp.net".to_string(),
            true,
            true
        ))
    );

    assert_eq!(resolve_ready_parent_identity(&root, Some(&ready)), None);
    assert_eq!(resolve_ready_parent_identity(&phone, None), None);
    assert_eq!(resolve_ready_parent_identity(&phone, Some(&expired)), None);
    assert_eq!(
        resolve_ready_parent_identity(&phone, Some(&ready)).map(|name| name.full),
        Some("alice.smith.dhttp.net".to_string())
    );

    assert_eq!(ensure_parent_identity_ready(&ready), Ok(()));
    assert_eq!(
        ensure_parent_identity_ready(&expired),
        Err("/home/alice/.dhttp/alice.smith".to_string())
    );
}
