//! Checking an issued certificate before it is installed.
use vstd::prelude::*;

use crate::cert_server::CertificateDetail;
use crate::kind::IdentityKind;
use crate::local::{leaf_metadata, read_leaf_metadata};
use crate::local_identity::{key_matches_der, private_key_matches_certificate_der};
use crate::target::IdentityName;
use crate::text::{decimal_of, decimal_u64, same, split_on};

verus! {

/// What the certificate was asked for.
#[derive(Debug)]
pub struct InstallExpectation {
    pub target: IdentityName,
    pub kind: IdentityKind,
    pub sequence: Option<u32>,
}

/// What is wrong with an issued certificate.
#[derive(Debug, Clone, Copy, PartialEq, Eq, Structural)]
pub enum InstallFault {
    ResponseTargetName,
    ResponseUsage,
    ResponseSequence,
    MissingResponseMetadata,
    InvalidResponseMetadata,
    ParseCertificatePem,
    EmptyCertificateChain,
    ParseLeafCertificate,
    ParseSubjectAlternativeName,
    MissingTargetName,
    LeafMetadata,
    ResponseMetadataMismatch,
    LeafMetadataUsage,
    LeafMetadataSequence,
    ParsePrivateKey,
    ComparePrivateKey,
    PrivateKeyMismatch,
    UntrustedCertificate,
    SaveIdentity,
}

/// What is wrong with an issued certificate, in the words for the user.
#[derive(Debug, PartialEq, Eq)]
pub struct Error {
    pub fault: InstallFault,
    pub message: String,
}

impl Error {
    pub fn to_text(&self) -> (r: String)
        ensures
            r@ == self.message@,
    {
        self.message.clone()
    }
}

/// The views of a sequence of byte vectors.
pub open spec fn byte_views(v: Seq<Vec<u8>>) -> Seq<Seq<u8>> {
    v.map_values(|bytes: Vec<u8>| bytes@)
}

/// The views of a sequence of optional strings.
pub open spec fn name_views(v: Seq<Option<String>>) -> Seq<Option<Seq<char>>> {
    v.map_values(|name: Option<String>| crate::text::opt_view(name))
}

/// The certificates of a PEM file in DER, `None` where the file is no PEM.
pub uninterp spec fn pem_certificates(pem: Seq<u8>) -> Option<Seq<Seq<u8>>>;

/// The private key of a PEM file in DER, `None` where the file holds none.
pub uninterp spec fn pem_private_key(pem: Seq<u8>) -> Option<Seq<u8>>;

/// The alternative names of a certificate, with the text of those that are DNS names; none
/// where the certificate has no such extension. `None` where the bytes are no certificate,
/// `Some(None)` where the names cannot be read.
pub uninterp spec fn alternative_names(der: Seq<u8>) -> Option<Option<Seq<Option<Seq<char>>>>>;

/// The number that a sequence of decimal digits stands for.
pub open spec fn digits_value(digits: Seq<char>) -> nat
    decreases digits.len(),
{
    if digits.len() == 0 {
        0
    } else {
        10 * digits_value(digits.drop_last()) + (digits.last() as nat - '0' as nat) as nat
    }
}

/// The number in a text of decimal digits that a plus sign may lead.
pub open spec fn number_in(text: Seq<char>) -> Option<nat> {
    let digits = if text.len() > 0 && text[0] == '+' {
        text.skip(1)
    } else {
        text
    };
    if digits.len() > 0 && (forall|i: int|
        0 <= i < digits.len() ==> '0' <= #[trigger] digits[i] <= '9') {
        Some(digits_value(digits))
    } else {
        None
    }
}

/// The hash of an owner: 64 hexadecimal digits without capitals.
pub open spec fn is_owner_hash(text: Seq<char>) -> bool {
    text.len() == 64 && forall|i: int|
        0 <= i < text.len() ==> ('0' <= #[trigger] text[i] <= '9' || 'a' <= text[i] <= 'f')
}

/// The parts of a DHTTP subject key identifier, which stand between colons: the sequence, `0`
/// or `1` for whether the certificate is for clients only, and the hash of the owner. `None`
/// where the text is no such identifier.
pub open spec fn identifier_parts(text: Seq<char>) -> Option<(u32, bool, Seq<char>)> {
    let fields = split_on(text, ':');
    if fields.len() != 3 {
        None
    } else {
        match number_in(fields[0]) {
            Some(sequence) => if sequence <= i32::MAX && (fields[1] == "0"@ || fields[1] == "1"@)
                && is_owner_hash(fields[2]) {
                Some((sequence as u32, fields[1] == "1"@, fields[2]))
            } else {
                None
            },
            None => None,
        }
    }
}

/// Calls `CertificateDer::pem_slice_iter` and collects the certificates. The name
/// `pem_certificates` stands for the result.
#[verifier::external_body]
pub(crate) fn read_pem_certificates(pem: &[u8]) -> (r: Option<Vec<Vec<u8>>>)
    ensures
        match r {
            Some(certs) => pem_certificates(pem@) == Some(byte_views(certs@)),
            None => pem_certificates(pem@) is None,
        },
{
    let certs: Result<Vec<rustls::pki_types::CertificateDer>, rustls::pki_types::pem::Error> =
        rustls::pki_types::pem::PemObject::pem_slice_iter(pem).collect();
    certs.ok().map(|certs| certs.iter().map(|cert| cert.as_ref().to_vec()).collect())
}

/// Calls `PrivateKeyDer::from_pem_slice`. The name `pem_private_key` stands for the result.
#[verifier::external_body]
pub(crate) fn read_pem_private_key(pem: &[u8]) -> (r: Option<Vec<u8>>)
    ensures
        match r {
            Some(key) => pem_private_key(pem@) == Some(key@),
            None => pem_private_key(pem@) is None,
        },
{
    let key: Result<rustls::pki_types::PrivateKeyDer, rustls::pki_types::pem::Error> =
        rustls::pki_types::pem::PemObject::from_pem_slice(pem);
    key.ok().map(|key| key.secret_der().to_vec())
}

/// Calls `x509_parser::parse_x509_certificate` and `subject_alternative_name`. The name
/// `alternative_names` stands for the result.
#[verifier::external_body]
pub(crate) fn read_alternative_names(der: &[u8]) -> (r: Option<Option<Vec<Option<String>>>>)
    ensures
        match r {
            None => alternative_names(der@) is None,
            Some(None) => alternative_names(der@) == Some(None::<Seq<Option<Seq<char>>>>),
            Some(Some(names)) => alternative_names(der@) == Some(Some(name_views(names@))),
        },
{
    let (_, certificate) = x509_parser::parse_x509_certificate(der).ok()?;
    let extension = certificate.subject_alternative_name().ok();
    Some(extension.map(|found| match found {
        None => Vec::new(),
        Some(names) => names.value.general_names.iter().map(|name| match name {
            x509_parser::extensions::GeneralName::DNSName(text) => Some(text.to_string()),
            _ => None,
        }).collect(),
    }))
}

/// Calls `DhttpSubjectKeyIdentifier::try_from_subject_key_identifier_bytes` and takes the
/// identifier apart. It splits the text at its colons, and takes exactly three parts: a
/// sequence that `u64` parses, of 31 bits at most, the flag, and the hash in small letters.
#[verifier::external_body]
pub(crate) fn read_identifier(text: &str) -> (r: Option<(u32, bool, String)>)
    ensures
        match r {
            Some((sequence, client_only, owner)) => identifier_parts(text@) == Some(
                (sequence, client_only, owner@),
            ),
            None => identifier_parts(text@) is None,
        },
{
    let identifier = dhttp_identity::certificate::DhttpSubjectKeyIdentifier::try_from_subject_key_identifier_bytes(
        text.as_bytes(),
    ).ok()?;
    let client_only = match identifier.chain().usage() {
        dhttp_identity::certificate::CertificateUsage::ClientOnly => true,
        dhttp_identity::certificate::CertificateUsage::ClientAndServer => false,
    };
    Some((identifier.chain().sequence().get(), client_only, identifier.owner_hash().as_str().to_owned()))
}

/// The kind with a wire name.
pub open spec fn kind_of(text: Seq<char>) -> Option<IdentityKind> {
    if text == "primary"@ {
        Some(IdentityKind::Primary)
    } else if text == "secondary"@ {
        Some(IdentityKind::Secondary)
    } else {
        None
    }
}

pub fn parse_kind(kind: &str) -> (r: Option<IdentityKind>)
    ensures
        r == kind_of(kind@),
{
    if same(kind, "primary") {
        Some(IdentityKind::Primary)
    } else if same(kind, "secondary") {
        Some(IdentityKind::Secondary)
    } else {
        None
    }
}

/// Certificates of the second kind are for clients only.
pub open spec fn kind_is_client_only(kind: IdentityKind) -> bool {
    kind == IdentityKind::Secondary
}

/// What is wrong with the answer itself: it is for another name, of another kind or of
/// another sequence, or its metadata is missing or unreadable.
pub open spec fn response_fault(detail: CertificateDetail, expected: InstallExpectation) -> Option<
    InstallFault,
> {
    if detail.domain@ != expected.target.full@ {
        Some(InstallFault::ResponseTargetName)
    } else if kind_of(detail.kind@) != Some(expected.kind) {
        Some(InstallFault::ResponseUsage)
    } else if expected.sequence is Some && expected.sequence->0 != detail.sequence {
        Some(InstallFault::ResponseSequence)
    } else if detail.ski is None {
        Some(InstallFault::MissingResponseMetadata)
    } else if identifier_parts(detail.ski->0@) is None {
        Some(InstallFault::InvalidResponseMetadata)
    } else {
        None
    }
}

/// A name is among the DNS names of a certificate.
pub open spec fn names_target(names: Seq<Option<Seq<char>>>, target: Seq<char>) -> bool {
    exists|i: int| 0 <= i < names.len() && #[trigger] names[i] == Some(target)
}

/// What is wrong with the leaf certificate: it is unreadable, does not name the target, or
/// carries other metadata than the answer.
pub open spec fn leaf_fault(
    leaf: Seq<u8>,
    detail: CertificateDetail,
    expected: InstallExpectation,
) -> Option<InstallFault> {
    match alternative_names(leaf) {
        None => Some(InstallFault::ParseLeafCertificate),
        Some(None) => Some(InstallFault::ParseSubjectAlternativeName),
        Some(Some(names)) => if !names_target(names, expected.target.full@) {
            Some(InstallFault::MissingTargetName)
        } else {
            match leaf_metadata(leaf) {
                None => Some(InstallFault::LeafMetadata),
                Some((sequence, client_only, owner, _)) => if identifier_parts(detail.ski->0@)
                    != Some((sequence, client_only, owner)) {
                    Some(InstallFault::ResponseMetadataMismatch)
                } else if client_only != kind_is_client_only(expected.kind) {
                    Some(InstallFault::LeafMetadataUsage)
                } else if sequence != detail.sequence {
                    Some(InstallFault::LeafMetadataSequence)
                } else {
                    None
                },
            }
        },
    }
}

/// What is wrong with the private key: it is unreadable, cannot be compared, or belongs to
/// another certificate.
pub open spec fn key_fault(leaf: Seq<u8>, key: Option<Seq<u8>>) -> Option<InstallFault> {
    match key {
        None => Some(InstallFault::ParsePrivateKey),
        Some(key) => match key_matches_der(key, leaf) {
            Err(_) => Some(InstallFault::ComparePrivateKey),
            Ok(false) => Some(InstallFault::PrivateKeyMismatch),
            Ok(true) => None,
        },
    }
}

/// The first thing wrong with an issued certificate: with the answer, with the chain in it,
/// with the leaf, with the key, in this order.
pub open spec fn install_fault(
    detail: CertificateDetail,
    expected: InstallExpectation,
    chain: Option<Seq<Seq<u8>>>,
    key: Option<Seq<u8>>,
) -> Option<InstallFault> {
    match response_fault(detail, expected) {
        Some(fault) => Some(fault),
        None => match chain {
            None => Some(InstallFault::ParseCertificatePem),
            Some(chain) => if chain.len() == 0 {
                Some(InstallFault::EmptyCertificateChain)
            } else {
                match leaf_fault(chain[0], detail, expected) {
                    Some(fault) => Some(fault),
                    None => key_fault(chain[0], key),
                }
            },
        },
    }
}

/// What the user reads about a fault.
pub open spec fn fault_words(
    fault: InstallFault,
    detail: CertificateDetail,
    expected: InstallExpectation,
) -> Seq<char> {
    match fault {
        InstallFault::ResponseTargetName => "certificate response target name "@ + detail.domain@
            + " does not match expected target name "@ + expected.target.full@,
        InstallFault::ResponseUsage => "certificate response usage "@ + detail.kind@
            + " does not match expected usage "@ + expected.kind.wire_name(),
        InstallFault::ResponseSequence => "certificate response sequence "@ + decimal_of(
            detail.sequence as nat,
        ) + " does not match expected sequence "@ + decimal_of(
            match expected.sequence {
                Some(sequence) => sequence as nat,
                None => 0,
            },
        ),
        InstallFault::MissingResponseMetadata => "certificate response is missing DHTTP certificate metadata"@,
        InstallFault::InvalidResponseMetadata => "certificate response contains invalid DHTTP certificate metadata"@,
        InstallFault::ParseCertificatePem => "failed to parse certificate PEM chain"@,
        InstallFault::EmptyCertificateChain => "certificate PEM chain is empty"@,
        InstallFault::ParseLeafCertificate => "failed to parse leaf certificate"@,
        InstallFault::ParseSubjectAlternativeName => "failed to parse leaf certificate subject alternative names"@,
        InstallFault::MissingTargetName => "leaf certificate does not contain expected target name "@
            + expected.target.full@,
        InstallFault::LeafMetadata => "leaf certificate is missing or has invalid DHTTP certificate metadata"@,
        InstallFault::ResponseMetadataMismatch => "certificate response DHTTP certificate metadata does not match the leaf"@,
        InstallFault::LeafMetadataUsage => "leaf DHTTP certificate metadata usage does not match the response"@,
        InstallFault::LeafMetadataSequence => "leaf DHTTP certificate metadata sequence does not match the response"@,
        InstallFault::ParsePrivateKey => "failed to parse generated private key"@,
        InstallFault::ComparePrivateKey => "failed to compare generated private key with leaf certificate"@,
        InstallFault::PrivateKeyMismatch => "leaf certificate does not match the generated private key"@,
        InstallFault::UntrustedCertificate => "certificate chain is not trusted by the DHTTP root"@,
        InstallFault::SaveIdentity => "failed to install validated identity"@,
    }
}

/// What the user reads about a fault.
pub fn describe_fault(
    fault: InstallFault,
    detail: &CertificateDetail,
    expected: &InstallExpectation,
) -> (r: String)
    ensures
        r@ == fault_words(fault, *detail, *expected),
{
    match fault {
        InstallFault::ResponseTargetName => {
            let mut r = "certificate response target name ".to_owned();
            r.append(&detail.domain);
            r.append(" does not match expected target name ");
            r.append(&expected.target.full);
            r
        },
        InstallFault::ResponseUsage => {
            let mut r = "certificate response usage ".to_owned();
            r.append(&detail.kind);
            r.append(" does not match expected usage ");
            r.append(expected.kind.as_str());
            r
        },
        InstallFault::ResponseSequence => {
            let mut r = "certificate response sequence ".to_owned();
            r.append(&decimal_u64(detail.sequence as u64));
            r.append(" does not match expected sequence ");
            let wanted: u64 = match expected.sequence {
                Some(sequence) => sequence as u64,
                None => 0,
            };
            r.append(&decimal_u64(wanted));
            r
        },
        InstallFault::MissingResponseMetadata => "certificate response is missing DHTTP certificate metadata".to_owned(),
        InstallFault::InvalidResponseMetadata => "certificate response contains invalid DHTTP certificate metadata".to_owned(),
        InstallFault::ParseCertificatePem => "failed to parse certificate PEM chain".to_owned(),
        InstallFault::EmptyCertificateChain => "certificate PEM chain is empty".to_owned(),
        InstallFault::ParseLeafCertificate => "failed to parse leaf certificate".to_owned(),
        InstallFault::ParseSubjectAlternativeName => "failed to parse leaf certificate subject alternative names".to_owned(),
        InstallFault::MissingTargetName => {
            let mut r = "leaf certificate does not contain expected target name ".to_owned();
            r.append(&expected.target.full);
            r
        },
        InstallFault::LeafMetadata => "leaf certificate is missing or has invalid DHTTP certificate metadata".to_owned(),
        InstallFault::ResponseMetadataMismatch => "certificate response DHTTP certificate metadata does not match the leaf".to_owned(),
        InstallFault::LeafMetadataUsage => "leaf DHTTP certificate metadata usage does not match the response".to_owned(),
        InstallFault::LeafMetadataSequence => "leaf DHTTP certificate metadata sequence does not match the response".to_owned(),
        InstallFault::ParsePrivateKey => "failed to parse generated private key".to_owned(),
        InstallFault::ComparePrivateKey => "failed to compare generated private key with leaf certificate".to_owned(),
        InstallFault::PrivateKeyMismatch => "leaf certificate does not match the generated private key".to_owned(),
        InstallFault::UntrustedCertificate => "certificate chain is not trusted by the DHTTP root".to_owned(),
        InstallFault::SaveIdentity => "failed to install validated identity".to_owned(),
    }
}

fn has_target_name(names: &Vec<Option<String>>, target: &str) -> (r: bool)
    ensures
        r == names_target(name_views(names@), target@),
{
    let ghost all = name_views(names@);
    let mut i: usize = 0;
    while i < names.len()
        invariant
            i <= names@.len(),
            all == name_views(names@),
            forall|j: int| 0 <= j < i ==> #[trigger] all[j] != Some(target@),
        decreases names@.len() - i,
    {
        assert(all[i as int] == crate::text::opt_view(names@[i as int]));
        if let Some(name) = &names[i] {
            if same(name, target) {
                assert(all[i as int] == Some(target@));
                return true;
            }
        }
        i += 1;
    }
    false
}

/// Whether a certificate names an identity, where its alternative names can be read.
pub fn certificate_names_target(leaf: &[u8], target: &IdentityName) -> (r: Option<bool>)
    ensures
        r == match alternative_names(leaf@) {
            Some(Some(names)) => Some(names_target(names, target.full@)),
            _ => None,
        },
{
    match read_alternative_names(leaf) {
        Some(Some(names)) => Some(has_target_name(&names, &target.full)),
        _ => None,
    }
}

fn check_response(detail: &CertificateDetail, expected: &InstallExpectation) -> (r: Option<
    InstallFault,
>)
    ensures
        r == response_fault(*detail, *expected),
{
    if !same(&detail.domain, &expected.target.full) {
        return Some(InstallFault::ResponseTargetName);
    }
    match parse_kind(&detail.kind) {
        None => {
            return Some(InstallFault::ResponseUsage);
        },
        Some(kind) => {
            if kind != expected.kind {
                return Some(InstallFault::ResponseUsage);
            }
        },
    }
    if let Some(sequence) = expected.sequence {
        if sequence != detail.sequence {
            return Some(InstallFault::ResponseSequence);
        }
    }
    match &detail.ski {
        None => Some(InstallFault::MissingResponseMetadata),
        Some(ski) => match read_identifier(ski) {
            None => Some(InstallFault::InvalidResponseMetadata),
            Some(_) => None,
        },
    }
}

fn check_leaf(leaf: &[u8], detail: &CertificateDetail, expected: &InstallExpectation) -> (r: Option<
    InstallFault,
>)
    requires
        response_fault(*detail, *expected) is None,
    ensures
        r == leaf_fault(leaf@, *detail, *expected),
{
    match read_alternative_names(leaf) {
        None => Some(InstallFault::ParseLeafCertificate),
        Some(None) => Some(InstallFault::ParseSubjectAlternativeName),
        Some(Some(names)) => {
            if !has_target_name(&names, &expected.target.full) {
                return Some(InstallFault::MissingTargetName);
            }
            match read_leaf_metadata(leaf) {
                None => Some(InstallFault::LeafMetadata),
                Some(metadata) => {
                    let same_identifier = match &detail.ski {
                        None => false,
                        Some(ski) => match read_identifier(ski) {
                            None => false,
                            Some((sequence, client_only, owner)) => sequence == metadata.sequence
                                && client_only == metadata.client_only && same(
                                &owner,
                                &metadata.owner_hash,
                            ),
                        },
                    };
                    if !same_identifier {
                        Some(InstallFault::ResponseMetadataMismatch)
                    } else if metadata.client_only != (expected.kind == IdentityKind::Secondary) {
                        Some(InstallFault::LeafMetadataUsage)
                    } else if metadata.sequence != detail.sequence {
                        Some(InstallFault::LeafMetadataSequence)
                    } else {
                        None
                    }
                },
            }
        },
    }
}

/// The first thing wrong with an issued certificate whose chain and key were taken out of
/// their files.
pub fn find_install_fault(
    detail: &CertificateDetail,
    expected: &InstallExpectation,
    chain: Option<&Vec<Vec<u8>>>,
    key: Option<&Vec<u8>>,
) -> (r: Option<InstallFault>)
    ensures
        r == install_fault(
            *detail,
            *expected,
            match chain {
                Some(chain) => Some(byte_views(chain@)),
                None => None,
            },
            match key {
                Some(key) => Some(key@),
                None => None,
            },
        ),
{
    if let Some(fault) = check_response(detail, expected) {
        return Some(fault);
    }
    match chain {
        None => Some(InstallFault::ParseCertificatePem),
        Some(chain) => {
            assert(byte_views(chain@).len() == chain@.len());
            if chain.len() == 0 {
                return Some(InstallFault::EmptyCertificateChain);
            }
            assert(byte_views(chain@)[0] == chain@[0]@);
            let leaf = chain[0].as_slice();
            if let Some(fault) = check_leaf(leaf, detail, expected) {
                return Some(fault);
            }
            match key {
                None => Some(InstallFault::ParsePrivateKey),
                Some(key) => match private_key_matches_certificate_der(key.as_slice(), leaf) {
                    Err(_) => Some(InstallFault::ComparePrivateKey),
                    Ok(false) => Some(InstallFault::PrivateKeyMismatch),
                    Ok(true) => None,
                },
            }
        },
    }
}

pub open spec fn detail_fault(
    detail: CertificateDetail,
    expected: InstallExpectation,
    key_pem: Seq<char>,
) -> Option<InstallFault> {
    install_fault(
        detail,
        expected,
        pem_certificates(vstd::utf8::encode_utf8(detail.cert_pem@)),
        pem_private_key(vstd::utf8::encode_utf8(key_pem)),
    )
}

/// Checks an issued certificate and gives back its chain in DER, leaf first, whose trust is
/// then left to decide.
pub fn validate_install(
    detail: &CertificateDetail,
    expected: &InstallExpectation,
    key_pem: &str,
) -> (r: Result<Vec<Vec<u8>>, Error>)
    ensures
        match r {
            Ok(chain) => detail_fault(*detail, *expected, key_pem@) is None && pem_certificates(
                vstd::utf8::encode_utf8(detail.cert_pem@),
            ) == Some(byte_views(chain@)) && chain@.len() > 0,
            Err(error) => detail_fault(*detail, *expected, key_pem@) == Some(error.fault)
                && error.message@ == fault_words(error.fault, *detail, *expected),
        },
{
    let chain = read_pem_certificates(detail.cert_pem.as_str().as_bytes());
    let key = read_pem_private_key(key_pem.as_bytes());
    let chain_ref = match &chain {
        Some(chain) => Some(chain),
        None => None,
    };
    let key_ref = match &key {
        Some(key) => Some(key),
        None => None,
    };
    match find_install_fault(detail, expected, chain_ref, key_ref) {
        Some(fault) => Err(Error { fault, message: describe_fault(fault, detail, expected) }),
        None => match chain {
            Some(chain) => {
                assert(byte_views(chain@).len() == chain@.len());
                Ok(chain)
            },
            None => Err(
                Error {
                    fault: InstallFault::ParseCertificatePem,
                    message: describe_fault(InstallFault::ParseCertificatePem, detail, expected),
                },
            ),
        },
    }
}

/// Checks an issued certificate. `trusted` tells whether the chain was found to lead to the
/// DHTTP root; it only counts where nothing else is wrong.
pub fn validate_install_with_verifier(
    detail: &CertificateDetail,
    expected: &InstallExpectation,
    key_pem: &str,
    trusted: bool,
) -> (r: Result<(), Error>)
    ensures
        match r {
            Ok(()) => detail_fault(*detail, *expected, key_pem@) is None && trusted,
            Err(error) => error.message@ == fault_words(error.fault, *detail, *expected) && match
                detail_fault(*detail, *expected, key_pem@) {
                Some(fault) => error.fault == fault,
                None => !trusted && error.fault == InstallFault::UntrustedCertificate,
            },
        },
{
    match validate_install(detail, expected, key_pem) {
        Err(error) => Err(error),
        Ok(_) => if trusted {
            Ok(())
        } else {
            Err(
                Error {
                    fault: InstallFault::UntrustedCertificate,
                    message: describe_fault(InstallFault::UntrustedCertificate, detail, expected),
                },
            )
        },
    }
}

/// What an accepted certificate is known to be: for the name, the kind and the sequence that
/// it was asked for, with a leaf that names the target and belongs to the key.
pub proof fn accepted_certificates_are_the_expected_ones(
    detail: CertificateDetail,
    expected: InstallExpectation,
    chain: Seq<Seq<u8>>,
    key: Seq<u8>,
)
    requires
        install_fault(detail, expected, Some(chain), Some(key)) is None,
    ensures
        detail.domain@ == expected.target.full@,
        kind_of(detail.kind@) == Some(expected.kind),
        expected.sequence is Some ==> detail.sequence == expected.sequence->0,
        chain.len() > 0,
        names_target(alternative_names(chain[0])->0->0, expected.target.full@),
        leaf_metadata(chain[0]) matches Some(metadata) && metadata.0 == detail.sequence
            && metadata.1 == kind_is_client_only(expected.kind),
        key_matches_der(key, chain[0]) == Ok::<bool, crate::local_identity::Error>(true),
{
}

/// A certificate that answers the request in every respect is accepted.
pub proof fn expected_certificates_are_accepted(
    detail: CertificateDetail,
    expected: InstallExpectation,
    chain: Seq<Seq<u8>>,
    key: Seq<u8>,
    names: Seq<Option<Seq<char>>>,
    owner: Seq<char>,
    label: Seq<char>,
    i: int,
)
    requires
        detail.domain@ == expected.target.full@,
        expected.kind == IdentityKind::Primary ==> detail.kind@ == "primary"@,
        expected.kind == IdentityKind::Secondary ==> detail.kind@ == "secondary"@,
        expected.sequence matches Some(sequence) ==> sequence == detail.sequence,
        detail.ski matches Some(ski) && identifier_parts(ski@) == Some(
            (detail.sequence, expected.kind == IdentityKind::Secondary, owner),
        ),
        chain.len() > 0,
        alternative_names(chain[0]) == Some(Some(names)),
        0 <= i < names.len(),
        names[i] == Some(expected.target.full@),
        leaf_metadata(chain[0]) == Some(
            (detail.sequence, expected.kind == IdentityKind::Secondary, owner, label),
        ),
        key_matches_der(key, chain[0]) == Ok::<bool, crate::local_identity::Error>(true),
    ensures
        install_fault(detail, expected, Some(chain), Some(key)) is None,
{
    reveal_strlit("primary");
    reveal_strlit("secondary");
    assert("primary"@.len() == 7);
    assert("secondary"@.len() == 9);
}

/// What is wrong with the reply is told first, in order: the name, the usage, the sequence, and
/// what it says of the certificate.
pub proof fn faults_of_the_reply_come_first(
    detail: CertificateDetail,
    expected: InstallExpectation,
    chain: Option<Seq<Seq<u8>>>,
    key: Option<Seq<u8>>,
)
    ensures
        ({
            let fault = install_fault(detail, expected, chain, key);
            let named = detail.domain@ == expected.target.full@;
            let kind = match expected.kind {
                IdentityKind::Primary => detail.kind@ == "primary"@,
                IdentityKind::Secondary => detail.kind@ == "secondary"@,
            };
            let counted = expected.sequence is None || expected.sequence == Some(detail.sequence);
            let readable = detail.ski matches Some(ski) && identifier_parts(ski@) is Some;
            &&& (fault == Some(InstallFault::ResponseTargetName) <==> !named)
            &&& (fault == Some(InstallFault::ResponseUsage) <==> named && !kind)
            &&& (fault == Some(InstallFault::ResponseSequence) <==> named && kind && !counted)
            &&& (fault == Some(InstallFault::MissingResponseMetadata) <==> named && kind && counted
                && detail.ski is None)
            &&& (fault == Some(InstallFault::InvalidResponseMetadata) <==> named && kind && counted
                && detail.ski is Some && !readable)
            &&& (fault == Some(InstallFault::ParseCertificatePem) <==> named && kind && counted
                && readable && chain is None)
            &&& (fault == Some(InstallFault::EmptyCertificateChain) <==> named && kind && counted
                && readable && (chain matches Some(certs) && certs.len() == 0))
        }),
{
    reveal_strlit("primary");
    reveal_strlit("secondary");
    assert("primary"@.len() == 7);
    assert("secondary"@.len() == 9);
}

/// A certificate that names another identity, or does not fit the key, is never accepted.
pub proof fn foreign_certificates_are_refused(
    detail: CertificateDetail,
    expected: InstallExpectation,
    chain: Seq<Seq<u8>>,
    key: Option<Seq<u8>>,
)
    requires
        chain.len() > 0,
    ensures
        alternative_names(chain[0]) matches Some(Some(names)) ==> (forall|i: int|
            0 <= i < names.len() ==> #[trigger] names[i] != Some(expected.target.full@))
            ==> install_fault(detail, expected, Some(chain), key) is Some,
        alternative_names(chain[0]) is None || alternative_names(chain[0]) == Some(
            None::<Seq<Option<Seq<char>>>>,
        ) ==> install_fault(detail, expected, Some(chain), key) is Some,
        leaf_metadata(chain[0]) is None ==> install_fault(detail, expected, Some(chain), key)
            is Some,
        key is None ==> install_fault(detail, expected, Some(chain), key) is Some,
        key matches Some(der) ==> key_matches_der(der, chain[0]) != Ok::<
            bool,
            crate::local_identity::Error,
        >(true) ==> install_fault(detail, expected, Some(chain), key) is Some,
{
}

/// The identifier of a certificate is a sequence number, the usage and the owner, with colons
/// between them.
pub proof fn identifiers_are_read_as_written(sequence: u32, client_only: bool, owner: Seq<char>)
    requires
        sequence <= i32::MAX,
        owner.len() == 64,
        forall|i: int|
            0 <= i < owner.len() ==> ('0' <= #[trigger] owner[i] <= '9' || 'a' <= owner[i] <= 'f'),
    ensures
        identifier_parts(
            decimal_of(sequence as nat) + seq![':'] + (if client_only {
                "1"@
            } else {
                "0"@
            }) + seq![':'] + owner,
        ) == Some((sequence, client_only, owner)),
{
    reveal_strlit("0");
    reveal_strlit("1");
    assert("0"@.len() == 1);
    assert("1"@.len() == 1);
    assert("0"@[0] != "1"@[0]);
    let digits = decimal_of(sequence as nat);
    let flag = if client_only {
        "1"@
    } else {
        "0"@
    };
    crate::text::decimals_stand_for_their_number(sequence as nat);
    let empty = Seq::<char>::empty();
    assert(split_on(empty, ':') =~= seq![empty]);
    crate::text::split_of_longer(empty, digits, ':');
    assert(empty + digits =~= digits);
    assert(split_on(digits, ':') =~= seq![digits]);
    let first = digits + seq![':'];
    assert(first.drop_last() =~= digits);
    assert(split_on(first, ':') =~= seq![digits, empty]);
    crate::text::split_of_longer(first, flag, ':');
    assert(empty + flag =~= flag);
    assert(split_on(first + flag, ':') =~= seq![digits, flag]);
    let second = first + flag + seq![':'];
    assert(second.drop_last() =~= first + flag);
    assert(split_on(second, ':') =~= seq![digits, flag, empty]);
    crate::text::split_of_longer(second, owner, ':');
    assert(empty + owner =~= owner);
    assert(split_on(second + owner, ':') =~= seq![digits, flag, owner]);
    assert(digits[0] != '+');
}

/// What is wrong with the certificate itself is told in this order: it cannot be read, its names
/// cannot, it names another identity, it does not name its chain, the reply says otherwise of
/// it, the usage differs, the sequence differs; the key comes last.
pub proof fn faults_of_the_certificate_come_in_order(
    detail: CertificateDetail,
    expected: InstallExpectation,
    chain: Seq<Seq<u8>>,
    key: Option<Seq<u8>>,
    ski: String,
    names: Seq<Option<Seq<char>>>,
    metadata: (u32, bool, Seq<char>, Seq<char>),
)
    requires
        response_fault(detail, expected) is None,
        detail.ski == Some(ski),
        chain.len() > 0,
    ensures
        ({
            let fault = install_fault(detail, expected, Some(chain), key);
            let named = exists|i: int|
                0 <= i < names.len() && #[trigger] names[i] == Some(expected.target.full@);
            let readable = alternative_names(chain[0]) == Some(Some(names));
            let known = leaf_metadata(chain[0]) == Some(metadata);
            let told = identifier_parts(ski@) == Some((metadata.0, metadata.1, metadata.2));
            let used = metadata.1 == (expected.kind == IdentityKind::Secondary);
            let counted = metadata.0 == detail.sequence;
            &&& (alternative_names(chain[0]) is None ==> fault == Some(
                InstallFault::ParseLeafCertificate,
            ))
            &&& (alternative_names(chain[0]) == Some(None::<Seq<Option<Seq<char>>>>) ==> fault
                == Some(InstallFault::ParseSubjectAlternativeName))
            &&& (readable && !named ==> fault == Some(InstallFault::MissingTargetName))
            &&& (readable && named && leaf_metadata(chain[0]) is None ==> fault == Some(
                InstallFault::LeafMetadata,
            ))
            &&& (readable && named && known && !told ==> fault == Some(
                InstallFault::ResponseMetadataMismatch,
            ))
            &&& (readable && named && known && told && !used ==> fault == Some(
                InstallFault::LeafMetadataUsage,
            ))
            &&& (readable && named && known && told && used && !counted ==> fault == Some(
                InstallFault::LeafMetadataSequence,
            ))
            &&& (readable && named && known && told && used && counted && key is None ==> fault
                == Some(InstallFault::ParsePrivateKey))
            &&& (readable && named && known && told && used && counted ==> (key matches Some(der)
                ==> key_matches_der(der, chain[0]) is Err ==> fault == Some(
                InstallFault::ComparePrivateKey,
            )))
            &&& (readable && named && known && told && used && counted ==> (key matches Some(der)
                ==> key_matches_der(der, chain[0]) == Ok::<bool, crate::local_identity::Error>(
                false,
            ) ==> fault == Some(InstallFault::PrivateKeyMismatch)))
        }),
{
}

/// A kind is told by its word.
pub proof fn kinds_are_told_by_their_word(text: Seq<char>)
    ensures
        kind_of(text) == Some(IdentityKind::Primary) <==> text == "primary"@,
        kind_of(text) == Some(IdentityKind::Secondary) <==> text == "secondary"@,
        kind_is_client_only(IdentityKind::Secondary),
        !kind_is_client_only(IdentityKind::Primary),
{
    reveal_strlit("primary");
    reveal_strlit("secondary");
    assert("primary"@.len() == 7);
    assert("secondary"@.len() == 9);
}

/// Digits are read by tens, with or without a plus sign.
pub proof fn digits_are_read_by_tens(digits: Seq<char>, c: char)
    requires
        '0' <= c <= '9',
    ensures
        digits_value(Seq::<char>::empty()) == 0,
        digits_value(digits.push(c)) == 10 * digits_value(digits) + (c as int - 48),
        number_in(Seq::<char>::empty()) is None,
        number_in(seq![c]) == Some((c as int - 48) as nat),
        number_in(seq!['+', c]) == Some((c as int - 48) as nat),
{
    assert(digits.push(c).drop_last() =~= digits);
    reveal_with_fuel(digits_value, 3);
    assert(seq![c].drop_last() =~= Seq::<char>::empty());
    assert(seq!['+', c].skip(1) =~= seq![c]);
}

} // verus!
