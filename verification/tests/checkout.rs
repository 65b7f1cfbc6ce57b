use gmutils::cert_server::{
    CreateDomainResponse, DomainQuotes, Error, InvoiceInfo, PaymentEntryInfo, ReservationInfo,
};
use gmutils::checkout::{
    checkout_deadline, checkout_wait_duration, classify_checkout, next_checkout_action,
    payment_block_with, payment_instruction_block, payment_instruction_block_or_link,
    print_payment_instructions, render_terminal_qr, start_checkout_wait, CheckoutAction,
    CheckoutEvent, CheckoutState,
};

fn response(next_action: &str) -> CreateDomainResponse {
    CreateDomainResponse {
        domain: "alice.smith.dhttp.net".to_owned(),
        quotes: DomainQuotes {
            currency: "USD".to_owned(),
            monthly: 9900,
            yearly: 99000,
            default_billing_cycle: "yearly".to_owned(),
        },
        reservation: None,
        payment_entry: None,
        next_action: next_action.to_owned(),
        selected_billing_cycle: None,
        subscription: None,
        invoice: None,
        auth: None,
    }
}

fn invoiced(next_action: &str, status: &str) -> CreateDomainResponse {
    CreateDomainResponse {
        invoice: Some(InvoiceInfo {
            number: "INV1".to_owned(),
            status: status.to_owned(),
            amount: 9900,
            currency: "USD".to_owned(),
            billing_cycle: None,
            expires_at: None,
            paid_at: None,
        }),
        ..response(next_action)
    }
}

fn reserved(status: &str) -> CreateDomainResponse {
    CreateDomainResponse {
        reservation: Some(ReservationInfo {
            reservation_no: "RSV1".to_owned(),
            status: status.to_owned(),
            expires_at: 0,
        }),
        ..response("payment")
    }
}

#[test]
fn completed_next_action_is_terminal() {
    assert_eq!(classify_checkout(&response("completed")), CheckoutState::Completed);
}

#[test]
fn expired_invoice_is_terminal() {
    assert_eq!(classify_checkout(&invoiced("payment", "expired")), CheckoutState::Expired);
}

#[test]
fn terminal_qr_uses_the_compact_stable_layout() {
    let qr = render_terminal_qr("https://pay.example.test/checkout/ckt_123").unwrap();
    let rows = qr.lines().count();
    let columns = qr.lines().map(str::chars).map(Iterator::count).max().unwrap();

    assert!(rows <= 24, "QR uses {rows} terminal rows");
    assert!(columns <= 64, "QR uses {columns} terminal columns");
}

#[test]
fn payment_block_keeps_instruction_qr_and_link_in_order() {
    let rendered = payment_instruction_block("https://pay.example.test/checkout/ckt_123").unwrap();
    let notice = rendered.find("[!] Please complete your payment within 15 minutes.").unwrap();
    let instruction = rendered.find("Open the link, or scan the QR code below").unwrap();
    let qr = rendered.find('█').unwrap();
    let link = rendered.find("Link: https://pay.example.test/checkout/ckt_123").unwrap();

    assert!(notice < instruction && instruction < qr && qr < link, "{rendered}");
    assert!(!rendered.contains("Open the link below, or scan the QR code above"));
}

#[test]
fn payment_block_indents_every_qr_row_by_four_spaces() {
    let rendered = payment_instruction_block("https://pay.example.test/checkout").unwrap();
    let qr = rendered
        .split_once("Open the link, or scan the QR code below\n\n")
        .unwrap()
        .1
        .split_once("\n\n    Link: https://pay.example.test/checkout")
        .unwrap()
        .0;

    assert!(!qr.is_empty());
    assert!(qr.lines().all(|line| line.starts_with("    ")), "{rendered}");
}

#[test]
fn payment_block_falls_back_to_the_link_only_when_qr_encoding_is_impossible() {
    let url = format!("https://pay.example.test/{}", "x".repeat(10_000));
    let block = payment_instruction_block_or_link(&url);

    assert!(!block.contains(['▀', '▄', '█']));
    assert!(block.contains("Open the link below\n"));
    assert!(block.contains(&format!("Link: {url}")));
}

#[test]
fn unknown_invoice_state_is_a_terminal_failure() {
    assert_eq!(classify_checkout(&invoiced("payment", "surprising")), CheckoutState::Failed);
}

#[test]
fn checkout_wait_uses_the_server_deadline_with_a_fifteen_minute_cap() {
    assert_eq!(checkout_wait_duration(999, 1_000), 0);
    assert_eq!(checkout_wait_duration(1_030, 1_000), 30);
    assert_eq!(checkout_wait_duration(3_000, 1_000), 15 * 60);
}

#[test]
fn waits_at_the_ends_of_time_do_not_overflow() {
    assert_eq!(checkout_wait_duration(i64::MAX, i64::MIN), 900);
    assert_eq!(checkout_wait_duration(i64::MIN, i64::MAX), 0);
    assert_eq!(checkout_deadline(100), 1_000);
    assert_eq!(checkout_deadline(i64::MAX), i64::MAX);
}

#[test]
fn blocks_hold_the_code_the_notice_and_the_link() {
    assert_eq!(
        payment_block_with("ab\ncd\n\n", "https://pay.test"),
        "[!] Please complete your payment within 15 minutes.\n    Open the link, or scan the QR code below\n\n    ab\n    cd\n\n    Link: https://pay.test"
    );
    let mut reply = response("payment");
    assert!(print_payment_instructions(&reply).is_none());
    reply.payment_entry = Some(PaymentEntryInfo {
        url: "https://pay.test".to_owned(),
        checkout_token: "ckt".to_owned(),
        expires_at: 0,
    });
    assert!(print_payment_instructions(&reply).unwrap().ends_with("Link: https://pay.test"));
}

#[test]
fn reservations_and_next_actions_decide_without_an_invoice() {
    assert_eq!(classify_checkout(&reserved("reserved")), CheckoutState::Pending);
    assert_eq!(classify_checkout(&reserved("expired")), CheckoutState::Expired);
    assert_eq!(classify_checkout(&reserved("canceled")), CheckoutState::Cancelled);
    assert_eq!(classify_checkout(&reserved("odd")), CheckoutState::Failed);
    assert_eq!(classify_checkout(&response("pending")), CheckoutState::Pending);
    assert_eq!(classify_checkout(&response("odd")), CheckoutState::Failed);
    assert_eq!(classify_checkout(&invoiced("payment", "paid")), CheckoutState::Completed);
    assert_eq!(classify_checkout(&invoiced("payment", "open")), CheckoutState::Pending);
}

#[test]
fn pending_checkouts_are_asked_about_again() {
    assert!(matches!(start_checkout_wait(10, 9), CheckoutAction::Poll));
    assert!(matches!(start_checkout_wait(10, 10), CheckoutAction::Finish(Err(_))));
    assert!(matches!(
        next_checkout_action(CheckoutEvent::Reply(Ok(response("pending")))),
        CheckoutAction::Sleep { seconds: 3 }
    ));
    assert!(matches!(next_checkout_action(CheckoutEvent::Slept), CheckoutAction::Poll));
    assert!(matches!(
        next_checkout_action(CheckoutEvent::Reply(Ok(response("completed")))),
        CheckoutAction::Finish(Ok(_))
    ));
    for (event, message) in [
        (CheckoutEvent::TimedOut, "checkout expired before payment was completed"),
        (
            CheckoutEvent::Reply(Ok(reserved("cancelled"))),
            "checkout was cancelled before payment was completed",
        ),
        (
            CheckoutEvent::Reply(Ok(response("odd"))),
            "checkout failed or returned an unsupported terminal state",
        ),
        (
            CheckoutEvent::Reply(Err(Error::Whatever { message: "unreachable".to_owned() })),
            "unreachable",
        ),
    ] {
        match next_checkout_action(event) {
            CheckoutAction::Finish(Err(error)) => assert_eq!(error.to_text(), message),
            other => panic!("unexpected action: {other:?}"),
        }
    }
}
