use gmutils::cert_server::Error;
use gmutils::epilogue::{
    default_not_updated_message, run_lifecycle_epilogue, suggest_default_change,
    DefaultSuggestion,
};
use gmutils::kind::{IdentityKind, ParseIdentityKindError};
use gmutils::progress::ProgressCopy;
use gmutils::prompt::{
    accepts_or_asks_for_options, code_prompt_accepts, email_prompt_accepts, kind_cursor,
    require_interactive, text_prompt_result, PromptFailure, PromptFault, TextPromptResult,
    MORE_OPTIONS_LABEL,
};
use gmutils::recovery::{classify_verify_submit_error, VerificationRecovery};
use gmutils::transcript::{block_lines, warning_text};
use gmutils::validator::{
    is_valid_email, is_valid_email_domain, validate_dhttp_label, validate_kind, EmailValidator,
    KindValidator,
};

#[test]
fn suggestion_defaults_and_help_match_current_default_state() {
    assert_eq!(
        suggest_default_change("alice.smith", None),
        Some(DefaultSuggestion {
            question: "Set this name(alice.smith) as default?".to_string(),
            help: "current: none".to_string(),
            default: true,
        })
    );
    assert_eq!(
        suggest_default_change("alice.smith", Some("meng.lin")),
        Some(DefaultSuggestion {
            question: "Set this name(alice.smith) as default?".to_string(),
            help: "current: meng.lin".to_string(),
            default: false,
        })
    );
    assert_eq!(suggest_default_change("alice.smith", Some("alice.smith")), None);
}

#[test]
fn non_interactive_lifecycle_epilogue_keeps_default_unset_when_none_exists() {
    assert_eq!(run_lifecycle_epilogue("alice.smith", None, false), None);
    assert!(run_lifecycle_epilogue("alice.smith", None, true).is_some());
    assert!(!default_not_updated_message().is_empty());
}

#[test]
fn parses_primary_and_secondary() {
    assert_eq!(IdentityKind::parse("primary").unwrap(), IdentityKind::Primary);
    assert_eq!(IdentityKind::parse("secondary").unwrap(), IdentityKind::Secondary);
}

#[test]
fn other_kinds_are_refused() {
    assert_eq!(
        IdentityKind::parse("third"),
        Err(ParseIdentityKindError::Invalid { value: "third".to_owned() })
    );
    assert_eq!(IdentityKind::named("third"), None);
    assert_eq!(IdentityKind::named("primary"), Some(IdentityKind::Primary));
}

#[test]
fn keeps_wire_labels_separate_from_user_facing_usage_copy() {
    assert_eq!(IdentityKind::Primary.as_str(), "primary");
    assert_eq!(IdentityKind::Secondary.as_str(), "secondary");
    assert_eq!(IdentityKind::Primary.ski_flag(), "0");
    assert_eq!(IdentityKind::Secondary.ski_flag(), "1");
    assert_eq!(IdentityKind::from_ski_flag("0"), Some(IdentityKind::Primary));
    assert_eq!(IdentityKind::from_ski_flag("1"), Some(IdentityKind::Secondary));
    assert_eq!(IdentityKind::from_ski_flag("2"), None);
}

#[test]
fn key_and_certificate_completions_are_stable() {
    assert_eq!(
        ProgressCopy::generate_key().completion_message(),
        Some("✔ Generate secp384r1 ECC key pair locally.")
    );
    assert_eq!(
        ProgressCopy::request_cert().completion_message(),
        Some("✔ Generate CSR locally and request certificate.")
    );
    assert_eq!(
        ProgressCopy::renew_identity().completion_message(),
        Some("✔ Generate CSR locally and request certificate.")
    );

    assert_eq!(
        ProgressCopy::request_cert().running,
        "Generating CSR locally and requesting certificate..."
    );
    assert_eq!(ProgressCopy::renew_identity().running, "Renewing identity...");
}

#[test]
fn transient_progress_has_no_completion_copy() {
    for copy in [
        ProgressCopy::check_name(),
        ProgressCopy::send_code(),
        ProgressCopy::verify_email(),
        ProgressCopy::wait_for_payment(),
        ProgressCopy::save_default(),
    ] {
        assert_eq!(copy.completion_message(), None, "copy: {copy:?}");
    }
}

#[test]
fn failed_steps_complete_without_a_line() {
    assert_eq!(ProgressCopy::generate_key().finish(false), None);
    assert_eq!(
        ProgressCopy::generate_key().finish(true),
        Some("✔ Generate secp384r1 ECC key pair locally.")
    );
}

fn api(status: u16, code: &str, message: &str) -> Error {
    Error::Api { status, code: code.to_string(), message: message.to_string() }
}

#[test]
fn only_invalid_expired_and_email_mismatch_are_recoverable() {
    assert_eq!(
        classify_verify_submit_error(&api(
            401,
            "verify_code_invalid",
            "verification code is incorrect",
        )),
        VerificationRecovery::RetryCode { message: "verification code is incorrect".to_string() }
    );
    assert_eq!(
        classify_verify_submit_error(&api(401, "verify_code_expired", "verification code expired")),
        VerificationRecovery::OfferResend { message: "verification code expired".to_string() }
    );
    assert_eq!(
        classify_verify_submit_error(&api(
            401,
            "domain_email_not_matched",
            "email does not match this identity",
        )),
        VerificationRecovery::ChangeEmail {
            message: "email does not match this identity".to_string(),
        }
    );
}

#[test]
fn numeric_codes_select_the_same_recovery_without_exposing_the_wire_code() {
    assert_eq!(
        classify_verify_submit_error(&api(401, "1102", "verification code is incorrect")),
        VerificationRecovery::RetryCode { message: "verification code is incorrect".to_string() }
    );
    assert_eq!(
        classify_verify_submit_error(&api(401, "1103", "verification code expired")),
        VerificationRecovery::OfferResend { message: "verification code expired".to_string() }
    );
}

#[test]
fn limits_blocks_server_and_unknown_errors_stop() {
    for error in [
        api(429, "verify_code_too_frequent", "try later"),
        api(429, "verify_code_attempt_exceeded", "try later"),
        api(429, "verify_code_rate_limited", "try later"),
        api(403, "user_blocked", "user is blocked"),
        api(500, "internal_error", "boom"),
        api(409, "future_code", "future problem"),
    ] {
        assert_eq!(classify_verify_submit_error(&error), VerificationRecovery::Stop);
    }
}

#[test]
fn block_lines_preserve_internal_blank_lines() {
    assert_eq!(
        block_lines("Open this checkout page to continue:\n\n  https://example.test"),
        vec![
            "Open this checkout page to continue:".to_string(),
            "".to_string(),
            "  https://example.test".to_string(),
        ]
    );
}

#[test]
fn warning_prefix_is_stable() {
    assert_eq!("WARN: already prefixed".strip_prefix("WARN: "), Some("already prefixed"));
    assert_eq!(warning_text("WARN: already prefixed"), "WARN: already prefixed");
    assert_eq!(warning_text("not prefixed"), "WARN: not prefixed");
}

#[test]
fn question_mark_bypasses_inner_validation() {
    assert!(accepts_or_asks_for_options("?", false));
    assert!(!accepts_or_asks_for_options("value", false));
    assert!(accepts_or_asks_for_options("value", true));
}

#[test]
fn more_options_label_matches_spec_copy() {
    assert_eq!(MORE_OPTIONS_LABEL, "More options...");
}

#[test]
fn prompts_take_answers_and_question_marks() {
    assert!(matches!(text_prompt_result("?".to_owned()), TextPromptResult::MoreOptions));
    assert!(matches!(
        text_prompt_result("123456".to_owned()),
        TextPromptResult::Submitted(code) if code == "123456"
    ));
    assert!(email_prompt_accepts("alice@example.com") && email_prompt_accepts("?"));
    assert!(!email_prompt_accepts("alice"));
    assert!(code_prompt_accepts("?") && !code_prompt_accepts(""));
    assert_eq!(kind_cursor(None), 0);
    assert_eq!(kind_cursor(Some(IdentityKind::Secondary)), 1);
    let failure = PromptFailure::NotInteractive { hint: "pass --email".to_owned() };
    assert!(failure.to_text().contains("pass --email"), "{}", failure.to_text());
}

#[test]
fn given_name_accepts_dns_label() {
    assert_eq!(validate_dhttp_label("alice"), Ok(()));
    assert_eq!(validate_dhttp_label("alice-1"), Ok(()));
}

#[test]
fn given_name_rejects_empty_or_dot() {
    assert!(validate_dhttp_label("").is_err());
    assert!(validate_dhttp_label("alice.smith").is_err());
}

#[test]
fn kind_accepts_primary_secondary() {
    assert_eq!(validate_kind("primary"), Ok(()));
    assert_eq!(validate_kind("secondary"), Ok(()));
    assert!(validate_kind("device").is_err());
    assert!(KindValidator.validate("device").is_err());
}

#[test]
fn email_validation_matches_the_certserver_boundary() {
    for valid in [
        "alice@example.com",
        "Alice@Example.COM",
        "alice.example+billing@example.com",
        "  alice@example.com  ",
    ] {
        assert!(is_valid_email(valid), "expected valid email: {valid}");
    }

    let too_long_local = format!("{}@example.com", "a".repeat(65));
    let too_long_address = format!("{}@example.com", "a".repeat(243));
    for invalid in [
        "".to_string(),
        "alice".to_string(),
        "@example.com".to_string(),
        "alice@".to_string(),
        "alice@example@com".to_string(),
        ".alice@example.com".to_string(),
        "alice.@example.com".to_string(),
        "alice..billing@example.com".to_string(),
        "luffy.a@b".to_string(),
        "alice@.example.com".to_string(),
        "alice@-example.com".to_string(),
        "alice@example-.com".to_string(),
        "alice@bad_domain.com".to_string(),
        "alice@example..com".to_string(),
        too_long_local,
        too_long_address,
    ] {
        assert!(!is_valid_email(&invalid), "expected invalid email: {invalid}");
    }
    assert!(is_valid_email_domain("example.com") && !is_valid_email_domain("b"));
}

#[test]
fn invalid_email_uses_the_approved_actionable_copy() {
    assert_eq!(
        EmailValidator.validate("luffy.a@b"),
        Err("Invalid email address. Please enter a valid email address.".to_owned())
    );
}

#[test]
fn answers_that_need_a_terminal_hint_at_the_argument() {
    assert_eq!(require_interactive(Ok(7), "--kind").unwrap(), 7);
    let failure = require_interactive::<()>(Err(PromptFault::NotTty), "--kind").unwrap_err();
    assert_eq!(failure.to_text(), "non-interactive terminal, use --kind to provide input");
    let fault = PromptFault::Other { message: "broken pipe".to_owned() };
    match require_interactive::<()>(Err(fault), "--kind").unwrap_err() {
        PromptFailure::Prompt { message } => assert_eq!(message, "broken pipe"),
        other => panic!("unexpected failure: {other:?}"),
    }
}

#[test]
fn addresses_are_compared_without_regard_to_case() {
    for (small, large) in [("a.b@c.test", "A.B@C.TEST"), ("not-an-email", "NOT-AN-EMAIL")] {
        assert_eq!(
            EmailValidator.validate(small).is_ok(),
            EmailValidator.validate(large).is_ok(),
            "{small}"
        );
    }
    assert!(EmailValidator.validate("A.B@C.TEST").is_ok());
}
