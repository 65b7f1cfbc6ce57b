use gmutils::cert_server::{Error, InvoiceDetail, SubdomainQuotaQuote};
use gmutils::create::{
    approval_question, can_switch_verification_method, helper_apply_block, is_seat_refusal,
    root_payment_block, seat_notice, seat_payment_block, seat_question,
};
use gmutils::output::format_safekeeping_reminder;
use gmutils::registration::{
    expand_question, root_restart_question, seat_restart_question,
    subdomain_checkout_instruction_block, RestartReason,
};
use gmutils::renew::{disable_failed_warning, enable_failed_warning};
use gmutils::target::{IdentityName, IdentityTarget};

fn phone() -> IdentityTarget {
    IdentityTarget::parse("phone.alice.smith").unwrap()
}

fn alice() -> IdentityName {
    IdentityName::parse("alice.smith").unwrap()
}

fn quote(due: i64) -> SubdomainQuotaQuote {
    SubdomainQuotaQuote {
        domain: "alice.smith.dhttp.net".to_string(),
        due,
        currency: "USD".to_string(),
        days_left: 1,
        days_total: 30,
        renewal: 500,
    }
}

fn invoice() -> InvoiceDetail {
    InvoiceDetail {
        invoice_no: "I-1".to_string(),
        domain: "alice.smith.dhttp.net".to_string(),
        status: "open".to_string(),
        amount: 250,
        currency: "USD".to_string(),
        url: "https://pay.example.test/I-1".to_string(),
        expires_at: None,
        updated_at: None,
    }
}

#[test]
fn creation_questions_name_the_identity() {
    assert_eq!(approval_question(&phone()), "Choose how to verify creating phone.alice.smith:");
    assert_eq!(
        seat_question(&phone(), &alice()),
        "Creating phone.alice.smith needs one more sub-identity slot under alice.smith. Start \
         checkout now?"
    );
    assert_eq!(
        expand_question(&phone(), &alice()),
        "Creating phone.alice.smith exceeded the sub-identity quota under alice.smith. Expand \
         quota and continue?"
    );
    assert_eq!(
        seat_notice(&phone(), &alice()),
        "Creating phone.alice.smith needs checkout to add one more sub-identity slot under \
         alice.smith.\nChoose email verification to continue with checkout."
    );
    assert!(can_switch_verification_method(&phone()));
    assert!(!can_switch_verification_method(&IdentityTarget::parse("alice.smith").unwrap()));
}

#[test]
fn payments_are_explained() {
    assert_eq!(
        root_payment_block(&phone(), "https://pay.example.test"),
        "Payment is required to create phone.alice.smith.\n\nOpen this checkout page to \
         continue:\n  https://pay.example.test"
    );
    assert_eq!(
        seat_payment_block(&phone(), &invoice(), &quote(250)),
        "Adding one more sub-identity slot is required to create phone.alice.smith.\n\nAmount \
         due now: USD 2.50\nOpen this checkout page to continue:\n  https://pay.example.test/I-1"
    );
    assert_eq!(
        subdomain_checkout_instruction_block(&phone(), &invoice(), &quote(1005), false),
        "Creating phone.alice.smith exceeded the sub-identity quota.\n\nAmount due now to expand \
         and continue: USD 10.05\n\n[!] Please complete your payment within 15 minutes.\n    Open \
         the link below\n\n    Link: https://pay.example.test/I-1"
    );
}

#[test]
fn helpers_say_what_they_do_to_the_parent() {
    assert_eq!(
        helper_apply_block(&phone(), "alice.smith.dhttp.net", true),
        "This command needs alice.smith available on this device first.\n\nTo continue creating \
         phone.alice.smith, it will re-apply alice.smith on this device, then return here and \
         continue verification."
    );
    assert!(helper_apply_block(&phone(), "not a name", false).contains("will apply not a name on"));
}

#[test]
fn seats_are_refused_by_their_message() {
    let refusal = |message: &str| Error::Api {
        status: 422,
        code: "1304".to_string(),
        message: message.to_string(),
    };
    assert!(is_seat_refusal(&refusal("subdomain quota exceeded")));
    assert!(!is_seat_refusal(&refusal("no")));
}

#[test]
fn ended_checkouts_can_be_started_again() {
    assert_eq!(
        root_restart_question(RestartReason::Expired),
        "This checkout expired. Start a new checkout for this identity?"
    );
    assert_eq!(
        root_restart_question(RestartReason::Cancelled),
        "This checkout was cancelled. Start a new checkout for this identity?"
    );
    assert_eq!(
        seat_restart_question(RestartReason::Expired),
        "This checkout expired. Start a new checkout for this sub-identity slot?"
    );
    assert_eq!(
        seat_restart_question(RestartReason::Cancelled),
        "This checkout was cancelled. Start a new checkout for this sub-identity slot?"
    );
}

#[test]
fn warnings_about_the_schedule_name_the_identity() {
    assert_eq!(
        disable_failed_warning("alice.smith", "no"),
        "Automatic certificate renewal could not be disabled for alice.smith: no"
    );
    assert_eq!(
        enable_failed_warning("alice.smith", "no"),
        "Automatic certificate renewal could not be enabled for alice.smith: no"
    );
    assert_eq!(format_safekeeping_reminder(false), "Keep this identity material safe");
}
