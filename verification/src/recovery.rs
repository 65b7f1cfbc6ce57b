//! What to do after a verification code was refused.
use vstd::prelude::*;

use crate::cert_server::Error;

verus! {

#[derive(Debug, PartialEq, Eq)]
pub enum VerificationRecovery {
    RetryCode { message: String },
    OfferResend { message: String },
    ChangeEmail { message: String },
    Stop,
}

/// `recovery` is what follows on `error`: a wrong code is asked for again, an expired one may
/// be sent again, an address that does not belong to the identity is asked for again, and
/// everything else ends the session.
pub open spec fn recovers(error: Error, recovery: VerificationRecovery) -> bool {
    if error.refused(401, "verify_code_invalid"@) {
        recovery matches VerificationRecovery::RetryCode { message } && message@ == error.words()
    } else if error.refused(401, "verify_code_expired"@) {
        recovery matches VerificationRecovery::OfferResend { message } && message@ == error.words()
    } else if error.refused(401, "domain_email_not_matched"@) {
        recovery matches VerificationRecovery::ChangeEmail { message } && message@ == error.words()
    } else {
        recovery == VerificationRecovery::Stop
    }
}

/// What to do after this error.
pub fn classify_verify_submit_error(error: &Error) -> (r: VerificationRecovery)
    ensures
        recovers(*error, r),
{
    if error.is_api(401, "verify_code_invalid") {
        VerificationRecovery::RetryCode { message: error.to_text() }
    } else if error.is_api(401, "verify_code_expired") {
        VerificationRecovery::OfferResend { message: error.to_text() }
    } else if error.is_api(401, "domain_email_not_matched") {
        VerificationRecovery::ChangeEmail { message: error.to_text() }
    } else {
        VerificationRecovery::Stop
    }
}

/// What follows on a refused code by the status and the code of the reply as they came.
pub proof fn recoveries_go_by_the_code(error: Error, recovery: VerificationRecovery)
    requires
        recovers(error, recovery),
    ensures
        recovery is RetryCode <==> (error matches Error::Api { status, code, .. } && status == 401
            && (code@ == "verify_code_invalid"@ || code@ == "1102"@)),
        recovery is OfferResend <==> (error matches Error::Api { status, code, .. } && status == 401
            && (code@ == "verify_code_expired"@ || code@ == "1103"@)),
        recovery is ChangeEmail <==> (error matches Error::Api { status, code, .. } && status == 401
            && (code@ == "domain_email_not_matched"@ || code@ == "1211"@)),
        recovery matches VerificationRecovery::RetryCode { message } ==> message@ == error.words(),
        recovery matches VerificationRecovery::OfferResend { message } ==> message@
            == error.words(),
        recovery matches VerificationRecovery::ChangeEmail { message } ==> message@
            == error.words(),
{
    if let Error::Api { code, .. } = error {
        crate::cert_server::codes_have_a_number_and_a_name(code@);
    reveal_strlit("verify_code_invalid");
    reveal_strlit("verify_code_expired");
    reveal_strlit("domain_email_not_matched");
    assert("verify_code_invalid"@.len() == 19);
    assert("verify_code_expired"@.len() == 19);
    assert("domain_email_not_matched"@.len() == 24);
    assert("verify_code_invalid"@[12] != "verify_code_expired"@[12]);
    }
}

} // verus!
