//! What a failed attempt to prove an identity means for the attempts after it.
use vstd::prelude::*;

use crate::cert_server::Error;

verus! {

/// How a new identity is approved.
#[derive(Debug, Clone, Copy, PartialEq, Eq, Structural)]
pub enum AuthMethod {
    Email,
    Identity,
}

#[derive(Debug, Clone, Copy, PartialEq, Eq, Structural)]
pub enum AuthAttemptDisposition {
    /// The proof was rejected; another one may do.
    TryNext,
    /// The target does not exist.
    ReplanMissingTarget,
    /// No other proof would help.
    Terminal,
}

/// Only an explicit rejection of the proof, or a proof that could not be loaded, lets the
/// next proof be tried.
pub open spec fn disposition(error: Error) -> AuthAttemptDisposition {
    if error.refused(401, "unauthorized"@) || error.refused(403, "domain_forbidden"@) || error
        == (Error::DhttpEndpointFromProfile { identity: true }) {
        AuthAttemptDisposition::TryNext
    } else if error.refused(404, "domain_not_found"@) {
        AuthAttemptDisposition::ReplanMissingTarget
    } else {
        AuthAttemptDisposition::Terminal
    }
}

/// What a failed attempt means for the attempts after it.
pub fn classify_identity_attempt(error: &Error) -> (r: AuthAttemptDisposition)
    ensures
        r == disposition(*error),
{
    if error.is_api(401, "unauthorized") || error.is_api(403, "domain_forbidden") {
        return AuthAttemptDisposition::TryNext;
    }
    if error.is_api(404, "domain_not_found") {
        return AuthAttemptDisposition::ReplanMissingTarget;
    }
    match error {
        Error::DhttpEndpointFromProfile { identity } => if *identity {
            AuthAttemptDisposition::TryNext
        } else {
            AuthAttemptDisposition::Terminal
        },
        _ => AuthAttemptDisposition::Terminal,
    }
}

/// What a refusal means by its status and by its code as it came: only a proof that the server
/// does not accept, and an identity that could not be loaded, let the next proof be tried, and
/// only an identity that the server does not know counts as missing.
pub proof fn dispositions_go_by_the_code(error: Error)
    ensures
        match error {
            Error::Api { status, code, .. } => {
                &&& (disposition(error) == AuthAttemptDisposition::TryNext <==> (status == 401 && (
                code@ == "unauthorized"@ || code@ == "1002"@)) || (status == 403 && (code@
                    == "domain_forbidden"@ || code@ == "1203"@)))
                &&& (disposition(error) == AuthAttemptDisposition::ReplanMissingTarget <==> status
                    == 404 && (code@ == "domain_not_found"@ || code@ == "1202"@))
            },
            Error::DhttpEndpointFromProfile { identity } => disposition(error) == (if identity {
                AuthAttemptDisposition::TryNext
            } else {
                AuthAttemptDisposition::Terminal
            }),
            _ => disposition(error) == AuthAttemptDisposition::Terminal,
        },
{
    if let Error::Api { code, .. } = error {
        crate::cert_server::codes_have_a_number_and_a_name(code@);
    }
}

} // verus!
