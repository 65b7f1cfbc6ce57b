use gmutils::cert_server::{
    CreateDomainResponse, CreateSubdomainAttempt, CreateSubdomainResponse, DomainQuotes, Error,
    InvoiceDetail, PaymentEntryInfo, SubdomainCertQuota, SubdomainInvoice, SubdomainQuotaQuote,
};
use gmutils::registration::{
    classify_invoice, create_identity_progress_message, create_sub_identity_with_token,
    ensure_identity_exists_with_token, ensure_non_interactive_root_checkout_not_required,
    ensure_non_interactive_sub_identity_checkout_not_required, format_minor_amount,
    missing_parent_identity_message, next_root_action, root_checkout_instruction_block,
    subdomain_checkout_summary, InvoiceState, RegistrationError, RootAction, RootEvent, RootPhase,
    SubAction, SubEvent, SubRegistration,
};
use gmutils::target::{IdentityName, IdentityTarget};

fn target(name: &str) -> IdentityTarget {
    IdentityTarget::parse(name).unwrap()
}

fn name(text: &str) -> IdentityName {
    IdentityName::parse(text).unwrap()
}

fn domain_response(next_action: &str, paid: bool) -> CreateDomainResponse {
    CreateDomainResponse {
        domain: "alice.smith.dhttp.net".to_owned(),
        quotes: DomainQuotes {
            currency: "USD".to_owned(),
            monthly: 9900,
            yearly: 99000,
            default_billing_cycle: "yearly".to_owned(),
        },
        reservation: None,
        payment_entry: paid.then_some(PaymentEntryInfo {
            url: "https://pay.example.com".to_owned(),
            checkout_token: "tok_123".to_owned(),
            expires_at: 123456,
        }),
        next_action: next_action.to_owned(),
        selected_billing_cycle: None,
        subscription: None,
        invoice: None,
        auth: None,
    }
}

fn subdomain_response(status: &str, invoice: Option<&str>) -> CreateSubdomainResponse {
    CreateSubdomainResponse {
        domain: "phone.alice.smith.dhttp.net".to_owned(),
        parent: "alice.smith.dhttp.net".to_owned(),
        status: status.to_owned(),
        expires_at: Some(1794305532),
        cert: SubdomainCertQuota { limit: 1, used: 0 },
        url: "/v2/subdomain?parent=alice.smith.dhttp.net&domain=phone.alice.smith.dhttp.net"
            .to_owned(),
        certs_url: "/v2/cert?domain=phone.alice.smith.dhttp.net".to_owned(),
        created_at: 1794305532,
        invoice: invoice.map(|number| SubdomainInvoice {
            number: number.to_owned(),
            amount: 500,
            currency: "USD".to_owned(),
        }),
    }
}

fn quote() -> SubdomainQuotaQuote {
    SubdomainQuotaQuote {
        domain: "phone.alice.smith.dhttp.net".to_owned(),
        due: 500,
        currency: "USD".to_owned(),
        days_left: 120,
        days_total: 365,
        renewal: 1200,
    }
}

fn invoice(status: &str) -> InvoiceDetail {
    InvoiceDetail {
        invoice_no: "INV-123".to_owned(),
        domain: "alice.smith.dhttp.net".to_owned(),
        status: status.to_owned(),
        amount: 500,
        currency: "USD".to_owned(),
        url: "https://pay.example.com".to_owned(),
        expires_at: None,
        updated_at: None,
    }
}

fn api(status: u16, code: &str) -> Error {
    Error::Api { status, code: code.to_owned(), message: code.to_owned() }
}

#[test]
fn root_and_sub_identity_creation_share_the_approved_progress_copy() {
    assert_eq!(create_identity_progress_message(), "Creating identity...");
}

#[test]
fn missing_parent_does_not_offer_to_create_a_root_identity() {
    let target = target("phone.alice.smith");
    let parent = target.parent().unwrap();

    assert_eq!(
        missing_parent_identity_message(&target, parent.as_partial()),
        "Cannot register phone.alice.smith because its parent identity, alice.smith, does not exist."
    );
}

#[test]
fn completed_root_identity_create_does_not_require_interactive_checkout() {
    ensure_non_interactive_root_checkout_not_required(
        &target("alice.smith"),
        &domain_response("completed", false),
    )
    .unwrap();
}

#[test]
fn payment_required_root_identity_create_requires_interactive_checkout() {
    let error = ensure_non_interactive_root_checkout_not_required(
        &target("alice.smith"),
        &domain_response("payment", true),
    )
    .unwrap_err();
    let rendered = error.to_text();
    assert!(rendered.contains("interactive checkout"), "{rendered}");
    assert!(rendered.contains("alice.smith"), "{rendered}");
}

#[test]
fn direct_sub_identity_create_does_not_require_interactive_checkout() {
    ensure_non_interactive_sub_identity_checkout_not_required(
        &target("phone.alice.smith"),
        &subdomain_response("active", None),
    )
    .unwrap();
}

#[test]
fn quota_expansion_sub_identity_create_requires_interactive_checkout() {
    let error = ensure_non_interactive_sub_identity_checkout_not_required(
        &target("phone.alice.smith"),
        &subdomain_response("pending", Some("INV-123")),
    )
    .unwrap_err();
    let rendered = error.to_text();
    assert!(rendered.contains("interactive checkout"), "{rendered}");
    assert!(rendered.contains("phone.alice.smith"), "{rendered}");
}

#[test]
fn amounts_are_told_with_two_decimals() {
    assert_eq!(format_minor_amount(500), "5.00");
    assert_eq!(format_minor_amount(7), "0.07");
    assert_eq!(format_minor_amount(-1234), "-12.34");
    assert!(subdomain_checkout_summary(&target("phone.alice.smith"), &quote()).contains("5.00"));
}

#[test]
fn instructions_need_something_to_pay() {
    let target = target("alice.smith");
    assert!(
        root_checkout_instruction_block(&target, &domain_response("completed", false), false)
            .is_none()
    );
    let block =
        root_checkout_instruction_block(&target, &domain_response("payment", true), false).unwrap();
    assert!(block.contains("https://pay.example.com"), "{block}");
}

#[test]
fn a_reply_without_terminal_is_final() {
    let root = target("alice.smith");
    assert!(ensure_identity_exists_with_token(&root, Ok(domain_response("completed", false))).is_ok());
    assert!(matches!(
        ensure_identity_exists_with_token(&root, Ok(domain_response("payment", true))),
        Err(RegistrationError::CheckoutRequired { .. })
    ));
    let child = target("phone.alice.smith");
    let parent = name("alice.smith");
    assert!(create_sub_identity_with_token(&child, &parent, Ok(subdomain_response("active", None))).is_ok());
    assert!(matches!(
        create_sub_identity_with_token(&child, &parent, Err(api(404, "domain_not_found"))),
        Err(RegistrationError::MissingParent { .. })
    ));
}

#[test]
fn a_root_is_only_reported_once_its_checkout_completed() {
    let (phase, action) = next_root_action(
        RootPhase::Creating,
        RootEvent::Created(Ok(domain_response("payment", true))),
    );
    assert!(matches!(action, RootAction::Pay(_)));
    let (phase, action) =
        next_root_action(phase, RootEvent::CheckoutEnded(Ok(domain_response("completed", false))));
    assert!(matches!(action, RootAction::Finish(Ok(()))), "{action:?}");
    assert_eq!(phase, RootPhase::Done);
}

#[test]
fn invoices_are_told_apart() {
    assert_eq!(classify_invoice(&invoice("paid")), InvoiceState::Paid);
    assert_eq!(classify_invoice(&invoice("expired")), InvoiceState::Expired);
    assert_eq!(classify_invoice(&invoice("cancelled")), InvoiceState::Cancelled);
    assert_eq!(classify_invoice(&invoice("open")), InvoiceState::Open);
}

fn start_sub() -> (SubRegistration, SubAction) {
    let (target, parent) = (name("phone.alice.smith"), name("alice.smith"));
    SubRegistration::start(target, parent, "phone".to_owned())
}

#[test]
fn seats_are_bought_after_a_yes() {
    let (mut run, action) = start_sub();
    assert!(matches!(
        &action,
        SubAction::Create { parent, label, expand_for: None }
            if parent == "alice.smith.dhttp.net" && label == "phone"
    ));
    let action =
        run.next(SubEvent::Created(Ok(CreateSubdomainAttempt::QuotaExceeded(quote()))));
    assert!(matches!(action, SubAction::AskExpand));
    let action = run.next(SubEvent::Answer(true));
    assert!(matches!(
        &action,
        SubAction::Create { parent, label, expand_for: Some(500) }
            if parent == "alice.smith.dhttp.net" && label == "phone"
    ));
    let action = run.next(SubEvent::Created(Ok(CreateSubdomainAttempt::Created(
        subdomain_response("pending", Some("INV-123")),
    ))));
    assert!(matches!(&action, SubAction::LoadInvoice { number } if number == "INV-123"));
    let action = run.next(SubEvent::Invoice(Ok(invoice("open"))));
    assert!(matches!(action, SubAction::Pay { .. }), "{action:?}");
}

#[test]
fn declined_seats_are_not_bought() {
    let (mut run, _) = start_sub();
    run.next(SubEvent::Created(Ok(CreateSubdomainAttempt::QuotaExceeded(quote()))));
    let action = run.next(SubEvent::Answer(false));
    assert!(matches!(action, SubAction::Finish(Err(_))), "{action:?}");
}
