//! What is shown while a step runs, and what stays of it.
use vstd::prelude::*;

verus! {

#[derive(Debug, Clone, Copy, PartialEq, Eq, Structural)]
pub enum CompletionPolicy {
    /// The line disappears when the step is done.
    Clear,
    /// Another line stays when the step is done.
    Retain,
}

#[derive(Debug, Clone, Copy)]
pub struct ProgressCopy {
    pub running: &'static str,
    pub success: &'static str,
    pub completion: CompletionPolicy,
}

impl ProgressCopy {
    pub fn clear(running: &'static str) -> (r: Self)
        ensures
            r.running@ == running@,
            r.kept() is None,
    {
        ProgressCopy { running, success: "", completion: CompletionPolicy::Clear }
    }

    pub fn retain(running: &'static str, success: &'static str) -> (r: Self)
        ensures
            r.running@ == running@,
            r.kept() == Some(success@),
    {
        ProgressCopy { running, success, completion: CompletionPolicy::Retain }
    }

    /// The line that stays.
    pub open spec fn kept(self) -> Option<Seq<char>> {
        match self.completion {
            CompletionPolicy::Clear => None,
            CompletionPolicy::Retain => Some(self.success@),
        }
    }

    /// The line that stays.
    pub fn completion_message(self) -> (r: Option<&'static str>)
        ensures
            match r {
                Some(message) => self.kept() == Some(message@),
                None => self.kept() is None,
            },
    {
        match self.completion {
            CompletionPolicy::Clear => None,
            CompletionPolicy::Retain => Some(self.success),
        }
    }

    /// The line that stays of a step; a failed step leaves none.
    pub fn finish(self, succeeded: bool) -> (r: Option<&'static str>)
        ensures
            match r {
                Some(message) => succeeded && self.kept() == Some(message@),
                None => !succeeded || self.kept() is None,
            },
    {
        if succeeded {
            self.completion_message()
        } else {
            None
        }
    }

    pub fn check_name() -> (r: Self)
        ensures
            r.running@ == "Checking the validity of this name..."@,
            r.kept() is None,
    {
        ProgressCopy::clear("Checking the validity of this name...")
    }

    pub fn send_code() -> (r: Self)
        ensures
            r.running@ == "Sending verification code..."@,
            r.kept() is None,
    {
        ProgressCopy::clear("Sending verification code...")
    }

    pub fn verify_email() -> (r: Self)
        ensures
            r.running@ == "Verifying with email..."@,
            r.kept() is None,
    {
        ProgressCopy::clear("Verifying with email...")
    }

    pub fn generate_key() -> (r: Self)
        ensures
            r.running@ == "Generating secp384r1 ECC key pair locally..."@,
            r.kept() == Some("✔ Generate secp384r1 ECC key pair locally."@),
    {
        ProgressCopy::retain(
            "Generating secp384r1 ECC key pair locally...",
            "✔ Generate secp384r1 ECC key pair locally.",
        )
    }

    pub fn request_cert() -> (r: Self)
        ensures
            r.running@ == "Generating CSR locally and requesting certificate..."@,
            r.kept() == Some("✔ Generate CSR locally and request certificate."@),
    {
        ProgressCopy::retain(
            "Generating CSR locally and requesting certificate...",
            "✔ Generate CSR locally and request certificate.",
        )
    }

    pub fn wait_for_payment() -> (r: Self)
        ensures
            r.running@ == "Waiting for payment completion..."@,
            r.kept() is None,
    {
        ProgressCopy::clear("Waiting for payment completion...")
    }

    pub fn renew_identity() -> (r: Self)
        ensures
            r.running@ == "Renewing identity..."@,
            r.kept() == Some("✔ Generate CSR locally and request certificate."@),
    {
        ProgressCopy::retain(
            "Renewing identity...",
            "✔ Generate CSR locally and request certificate.",
        )
    }

    pub fn save_default() -> (r: Self)
        ensures
            r.running@ == "Saving default identity..."@,
            r.kept() is None,
    {
        ProgressCopy::clear("Saving default identity...")
    }
}

} // verus!
