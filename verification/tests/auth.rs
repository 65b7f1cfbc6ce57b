use gmutils::auth::{classify_identity_attempt, AuthAttemptDisposition};
use gmutils::cert_server::Error;

fn api(status: u16, code: &str) -> Error {
    Error::Api { status, code: code.to_string(), message: code.to_string() }
}

#[test]
fn only_explicit_auth_rejection_can_try_the_next_proof() {
    assert_eq!(
        classify_identity_attempt(&api(401, "unauthorized")),
        AuthAttemptDisposition::TryNext
    );
    assert_eq!(classify_identity_attempt(&api(401, "1002")), AuthAttemptDisposition::TryNext);
    assert_eq!(
        classify_identity_attempt(&api(403, "domain_forbidden")),
        AuthAttemptDisposition::TryNext
    );
    assert_eq!(
        classify_identity_attempt(&api(500, "internal_error")),
        AuthAttemptDisposition::Terminal
    );
    assert_eq!(
        classify_identity_attempt(&api(409, "future_code")),
        AuthAttemptDisposition::Terminal
    );
    assert_eq!(
        classify_identity_attempt(&api(500, "unauthorized")),
        AuthAttemptDisposition::Terminal
    );
}

#[test]
fn missing_apply_target_is_replanned_separately() {
    assert_eq!(
        classify_identity_attempt(&api(404, "domain_not_found")),
        AuthAttemptDisposition::ReplanMissingTarget
    );
    assert_eq!(
        classify_identity_attempt(&api(404, "1202")),
        AuthAttemptDisposition::ReplanMissingTarget
    );
    assert_eq!(
        classify_identity_attempt(&api(404, "cert_sequence_not_found")),
        AuthAttemptDisposition::Terminal
    );
    assert_eq!(
        classify_identity_attempt(&api(500, "domain_not_found")),
        AuthAttemptDisposition::Terminal
    );
}

#[test]
fn selected_profile_load_failure_can_try_the_next_proof() {
    let error = Error::DhttpEndpointFromProfile { identity: true };
    assert_eq!(classify_identity_attempt(&error), AuthAttemptDisposition::TryNext);
    let error = Error::DhttpEndpointFromProfile { identity: false };
    assert_eq!(classify_identity_attempt(&error), AuthAttemptDisposition::Terminal);
}
