use gmutils::approval::{ApprovalMenuOption, LocalApprovalCandidate};
use gmutils::auth::AuthMethod;
use gmutils::cert_server::{
    CertificateDetail, CreateDomainAuthInfo, CreateDomainResponse, CreateSubdomainResponse,
    DomainQuotes, Error, PaymentEntryInfo, SubdomainCertQuota,
};
use gmutils::create::{Create, CreateEmailAction, CreateError, InteractiveCreateState};
use gmutils::create_flow::{CreateAction, CreateEvent, InteractiveCreate};
use gmutils::create_run::{build_parent_options, CreateRun};
use gmutils::kind::IdentityKind;
use gmutils::requests::CertificateOrder;
use gmutils::target::{IdentityName, IdentityTarget};

fn command(name: Option<&str>) -> Create {
    Create {
        name: name.map(str::to_owned),
        kind: None,
        replace_local: false,
        device_name: None,
        email: None,
        send_code: false,
        verify_code: None,
        auth: None,
    }
}

fn target(name: &str) -> IdentityTarget {
    IdentityTarget::parse(name).unwrap()
}

fn domain(next_action: &str) -> CreateDomainResponse {
    CreateDomainResponse {
        domain: "alice.smith.dhttp.net".to_owned(),
        quotes: DomainQuotes {
            currency: "USD".to_owned(),
            monthly: 9900,
            yearly: 99000,
            default_billing_cycle: "yearly".to_owned(),
        },
        reservation: None,
        payment_entry: Some(PaymentEntryInfo {
            url: "https://pay.example.com".to_owned(),
            checkout_token: "tok_123".to_owned(),
            expires_at: 0,
        }),
        next_action: next_action.to_owned(),
        selected_billing_cycle: None,
        subscription: None,
        invoice: None,
        auth: Some(CreateDomainAuthInfo {
            email: "alice@example.test".to_owned(),
            is_new_user: true,
            access_token: "token".to_owned(),
            token_expires_at: 0,
        }),
    }
}

fn subdomain() -> CreateSubdomainResponse {
    CreateSubdomainResponse {
        domain: "phone.alice.smith.dhttp.net".to_owned(),
        parent: "alice.smith.dhttp.net".to_owned(),
        status: "active".to_owned(),
        expires_at: None,
        cert: SubdomainCertQuota { limit: 1, used: 0 },
        url: String::new(),
        certs_url: String::new(),
        created_at: 0,
        invoice: None,
    }
}

fn certificate() -> CertificateDetail {
    CertificateDetail {
        domain: "alice.smith.dhttp.net".to_owned(),
        device_name: None,
        sequence: 0,
        kind: "primary".to_owned(),
        serial_number: None,
        ski: None,
        ski_version: None,
        status: "active".to_owned(),
        csr: String::new(),
        cert_pem: "PEM".to_owned(),
        issued_at: 0,
        valid_not_after: 0,
        created_at: 0,
    }
}

fn prepared() -> CreateEvent {
    CreateEvent::Prepared { csr_pem: "CSR".to_owned() }
}

/// The order for a name and a kind, from this device and with the request that was made.
fn order(domain: &str, kind: IdentityKind) -> CertificateOrder {
    CertificateOrder {
        domain: domain.to_owned(),
        kind,
        device_name: "laptop".to_owned(),
        csr_pem: "CSR".to_owned(),
    }
}

fn labels(options: &[ApprovalMenuOption]) -> Vec<String> {
    options.iter().map(ApprovalMenuOption::label).collect()
}

fn start(name: Option<&str>) -> (InteractiveCreate, CreateAction) {
    let state = InteractiveCreateState::from_command(&command(name)).unwrap();
    InteractiveCreate::start(state, None, true, "laptop".to_owned())
}

#[test]
fn a_root_is_created_paid_for_and_saved() {
    let (mut flow, action) = start(None);
    assert!(matches!(action, CreateAction::PromptTarget { again: false }), "{action:?}");
    let step = flow.next(CreateEvent::Target(target("alice.smith")));
    assert!(matches!(step.action, CreateAction::PromptKind { .. }), "{:?}", step.action);
    let step = flow.next(CreateEvent::Kind(IdentityKind::Primary));
    assert!(matches!(step.action, CreateAction::PromptEmail { .. }), "{:?}", step.action);
    let step = flow.next(CreateEvent::Email("alice@example.test".to_owned()));
    assert!(
        matches!(&step.action, CreateAction::SendCode { email } if email == "alice@example.test"),
        "{:?}",
        step.action
    );
    let step = flow.next(CreateEvent::Sent);
    assert!(matches!(step.action, CreateAction::PromptCode), "{:?}", step.action);
    let step = flow.next(CreateEvent::Code("123456".to_owned()));
    assert!(
        matches!(
            &step.action,
            CreateAction::Prepare { domain, replace_local: true }
                if domain == "alice.smith.dhttp.net"
        ),
        "{:?}",
        step.action
    );
    let step = flow.next(prepared());
    assert!(
        matches!(
            &step.action,
            CreateAction::CreateRoot { domain, email, verify_code }
                if domain == "alice.smith.dhttp.net"
                    && email == "alice@example.test"
                    && verify_code == "123456"
        ),
        "{:?}",
        step.action
    );
    let step = flow.next(CreateEvent::RootCreated(Ok(domain("payment"))));
    assert!(
        matches!(
            &step.action,
            CreateAction::Pay { checkout_token, .. } if checkout_token == "tok_123"
        ),
        "{:?}",
        step.action
    );
    let step = flow.next(CreateEvent::CheckoutEnded(Ok(domain("completed"))));
    assert!(
        matches!(
            &step.action,
            CreateAction::IssueCert { access_token, order: asked }
                if access_token == "token"
                    && *asked == order("alice.smith.dhttp.net", IdentityKind::Primary)
        ),
        "{:?}",
        step.action
    );
    let step = flow.next(CreateEvent::Issued(Ok(certificate())));
    assert!(matches!(&step.action, CreateAction::Save { cert_pem } if cert_pem == "PEM"));
    let step = flow.next(CreateEvent::Saved);
    assert!(matches!(step.action, CreateAction::RunEpilogue));
    let step = flow.next(CreateEvent::EpilogueDone);
    assert!(matches!(step.action, CreateAction::Finish(Ok(()))));
}

#[test]
fn a_ready_parent_approves_a_sub_identity() {
    let (mut flow, _) = start(Some("phone.alice.smith"));
    let step = flow.next(CreateEvent::Kind(IdentityKind::Secondary));
    assert!(matches!(step.action, CreateAction::LoadParent), "{:?}", step.action);
    let step = flow.next(CreateEvent::Parent {
        ready: true,
        candidate: Some(LocalApprovalCandidate::ready(
            "alice.smith".to_owned(),
            "alice.smith.dhttp.net".to_owned(),
        )),
    });
    assert!(matches!(step.action, CreateAction::ChooseApproval), "{:?}", step.action);
    assert_eq!(
        labels(&flow.approval_options()),
        ["Verify with alice.smith on local device", "Verify with email"]
    );
    let step =
        flow.next(CreateEvent::Approval("Verify with alice.smith on local device".to_owned()));
    // The parent is looked at again before its proof is used.
    assert!(matches!(step.action, CreateAction::LoadParent), "{:?}", step.action);
    let step = flow.next(CreateEvent::Parent { ready: true, candidate: None });
    assert!(
        matches!(
            &step.action,
            CreateAction::Prepare { domain, .. } if domain == "phone.alice.smith.dhttp.net"
        ),
        "{:?}",
        step.action
    );
    assert_eq!(flow.parent_identity().as_deref(), Some("alice.smith.dhttp.net"));
    assert_eq!(flow.state.approval_plan.as_ref().unwrap().auth, AuthMethod::Identity);
    let step = flow.next(prepared());
    assert!(
        matches!(
            &step.action,
            CreateAction::CheckParent { target: child } if *child == target("phone.alice.smith")
        ),
        "{:?}",
        step.action
    );
    let step = flow.next(CreateEvent::ParentChecked(Ok(())));
    assert!(
        matches!(
            &step.action,
            CreateAction::CreateSubWithIdentity { auth_domain, target: child }
                if auth_domain == "alice.smith.dhttp.net"
                    && *child == target("phone.alice.smith")
        ),
        "{:?}",
        step.action
    );
    let step = flow.next(CreateEvent::SubCreated(Ok(subdomain())));
    assert!(
        matches!(
            &step.action,
            CreateAction::IssueCertWithIdentity { auth_domain, order: asked }
                if auth_domain == "alice.smith.dhttp.net"
                    && *asked == order("phone.alice.smith.dhttp.net", IdentityKind::Secondary)
        ),
        "{:?}",
        step.action
    );
}

#[test]
fn a_sub_identity_is_created_and_certified_with_the_token() {
    let command = Create {
        kind: Some("secondary".to_owned()),
        replace_local: true,
        email: Some("alice@example.test".to_owned()),
        verify_code: Some("123456".to_owned()),
        auth: Some(AuthMethod::Email),
        ..command(Some("phone.alice.smith"))
    };
    let (mut run, action) = CreateRun::start(
        command,
        Some(target("phone.alice.smith")),
        Some(IdentityKind::Secondary),
        "laptop".to_owned(),
        false,
    );
    assert!(matches!(action, CreateAction::LoadParent), "{action:?}");
    let action = run.next(CreateEvent::Parent { ready: false, candidate: None });
    assert!(
        matches!(
            &action,
            CreateAction::Prepare { domain, replace_local: true }
                if domain == "phone.alice.smith.dhttp.net"
        ),
        "{action:?}"
    );
    let action = run.next(prepared());
    assert!(matches!(action, CreateAction::Login { .. }), "{action:?}");
    let action = run.next(CreateEvent::LoggedIn(Ok("token".to_owned())));
    assert!(
        matches!(
            &action,
            CreateAction::CreateSub { access_token, target: child }
                if access_token == "token" && *child == target("phone.alice.smith")
        ),
        "{action:?}"
    );
    let action = run.next(CreateEvent::SubCreated(Ok(subdomain())));
    assert!(
        matches!(
            &action,
            CreateAction::IssueCert { access_token, order: asked }
                if access_token == "token"
                    && *asked == order("phone.alice.smith.dhttp.net", IdentityKind::Secondary)
        ),
        "{action:?}"
    );
}

#[test]
fn another_name_forgets_the_answers_to_the_old_one() {
    let (mut flow, _) = start(None);
    flow.next(CreateEvent::Target(target("alice.smith")));
    flow.next(CreateEvent::Kind(IdentityKind::Primary));
    flow.next(CreateEvent::MoreOptions);
    let step = flow.next(CreateEvent::EmailMore(CreateEmailAction::ChangeIdentityName));
    assert!(matches!(step.action, CreateAction::PromptTarget { .. }), "{:?}", step.action);
    flow.next(CreateEvent::Target(target("bob.smith")));
    assert!(flow.state.kind.is_none());
    assert!(flow.state.email.is_none());
}

#[test]
fn a_refused_code_is_asked_for_again() {
    let (mut flow, _) = start(None);
    flow.next(CreateEvent::Target(target("alice.smith")));
    flow.next(CreateEvent::Kind(IdentityKind::Primary));
    flow.next(CreateEvent::Email("alice@example.test".to_owned()));
    flow.next(CreateEvent::Sent);
    flow.next(CreateEvent::Code("111111".to_owned()));
    flow.next(prepared());
    let step = flow.next(CreateEvent::RootCreated(Err(Error::Api {
        status: 401,
        code: "verify_code_invalid".to_owned(),
        message: "verification code is incorrect".to_owned(),
    })));
    assert_eq!(step.notice.as_deref(), Some("verification code is incorrect"));
    assert!(matches!(step.action, CreateAction::PromptCode), "{:?}", step.action);
}

#[test]
fn a_command_that_sends_a_code_stops_there() {
    let command = Create {
        kind: Some("primary".to_owned()),
        email: Some("alice@example.test".to_owned()),
        send_code: true,
        auth: Some(AuthMethod::Email),
        ..command(Some("alice.smith"))
    };
    let (mut run, action) = CreateRun::start(
        command,
        Some(target("alice.smith")),
        Some(IdentityKind::Primary),
        "laptop".to_owned(),
        false,
    );
    assert!(
        matches!(&action, CreateAction::SendCode { email } if email == "alice@example.test"),
        "{action:?}"
    );
    let action = run.next(CreateEvent::Sent);
    assert!(matches!(action, CreateAction::Finish(Ok(()))), "{action:?}");
}

#[test]
fn a_code_is_sent_only_where_email_approves() {
    let command = Create {
        kind: Some("primary".to_owned()),
        email: Some("alice@example.test".to_owned()),
        send_code: true,
        ..command(Some("alice.smith"))
    };
    let (_, action) = CreateRun::start(
        command,
        Some(target("alice.smith")),
        Some(IdentityKind::Primary),
        "laptop".to_owned(),
        false,
    );
    match action {
        CreateAction::Finish(Err(error)) => {
            assert_eq!(error.to_text(), "--send-code requires --auth email")
        }
        other => panic!("unexpected action: {other:?}"),
    }
}

#[test]
fn a_command_without_terminal_does_not_pay() {
    let command = Create {
        kind: Some("primary".to_owned()),
        email: Some("alice@example.test".to_owned()),
        verify_code: Some("123456".to_owned()),
        ..command(Some("alice.smith"))
    };
    let (mut run, action) = CreateRun::start(
        command,
        Some(target("alice.smith")),
        Some(IdentityKind::Primary),
        "laptop".to_owned(),
        false,
    );
    assert!(
        matches!(
            &action,
            CreateAction::Prepare { domain, replace_local: false }
                if domain == "alice.smith.dhttp.net"
        ),
        "{action:?}"
    );
    let action = run.next(prepared());
    assert!(matches!(action, CreateAction::CreateRoot { .. }), "{action:?}");
    let action = run.next(CreateEvent::RootCreated(Ok(domain("payment"))));
    assert!(
        matches!(action, CreateAction::Finish(Err(CreateError::Registration(_)))),
        "{action:?}"
    );
}

#[test]
fn parents_are_offered_first_where_they_are_ready() {
    let parent = IdentityName::parse("alice.smith").unwrap();
    assert_eq!(build_parent_options(&parent, true).len(), 2);
    assert!(!build_parent_options(&parent, false).is_empty());
}
