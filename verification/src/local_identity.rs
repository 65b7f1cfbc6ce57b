//! Whether a private key belongs to a certificate.
use vstd::prelude::*;

verus! {

/// Why a key and a certificate could not be compared.
#[derive(Debug, Clone, Copy, PartialEq, Eq, Structural)]
pub enum Error {
    ParseCertificatePem,
    ParseCertificate,
    ParsePrivateKey,
    EncodePublicKey,
}

impl Error {
    pub fn to_text(self) -> (r: String)
        ensures
            r@ == (match self {
                Error::ParseCertificatePem => "failed to parse certificate PEM"@,
                Error::ParseCertificate => "failed to parse X.509 certificate"@,
                Error::ParsePrivateKey => "failed to parse private key"@,
                Error::EncodePublicKey => "failed to encode private key public key"@,
            }),
    {
        match self {
            Error::ParseCertificatePem => "failed to parse certificate PEM".to_owned(),
            Error::ParseCertificate => "failed to parse X.509 certificate".to_owned(),
            Error::ParsePrivateKey => "failed to parse private key".to_owned(),
            Error::EncodePublicKey => "failed to encode private key public key".to_owned(),
        }
    }
}

/// The contents of the first PEM block of a file, `None` where it has none.
pub uninterp spec fn pem_contents(pem: Seq<u8>) -> Option<Seq<u8>>;

/// The public key, the start and the end of the validity and the issuer of a certificate in
/// DER: the raw public key information, two Unix timestamps and the distinguished name as text.
/// `None` where the bytes are no certificate.
pub uninterp spec fn x509_fields(der: Seq<u8>) -> Option<(Seq<u8>, i64, i64, Seq<char>)>;

/// The public key information that belongs to a P-384 private key in PKCS#8 DER: `None` where
/// the bytes are no such key, `Some(None)` where its public key cannot be encoded.
pub uninterp spec fn p384_public_key(key_der: Seq<u8>) -> Option<Option<Seq<u8>>>;

/// Calls `x509_parser::pem::parse_x509_pem` and gives back the contents of the block that it
/// found. The name `pem_contents` stands for the result.
#[verifier::external_body]
pub(crate) fn read_pem(pem: &[u8]) -> (r: Option<Vec<u8>>)
    ensures
        match r {
            Some(contents) => pem_contents(pem@) == Some(contents@),
            None => pem_contents(pem@) is None,
        },
{
    x509_parser::pem::parse_x509_pem(pem).ok().map(|(_, block)| block.contents)
}

/// Calls `x509_parser::parse_x509_certificate` and gives back the raw public key information,
/// the two ends of the validity and the text of the issuer. The name `x509_fields` stands for
/// the result.
#[verifier::external_body]
pub(crate) fn read_certificate(der: &[u8]) -> (r: Option<(Vec<u8>, i64, i64, String)>)
    ensures
        match r {
            Some((key, from, to, issuer)) => x509_fields(der@) == Some((key@, from, to, issuer@)),
            None => x509_fields(der@) is None,
        },
{
    let (_, certificate) = x509_parser::parse_x509_certificate(der).ok()?;
    let validity = certificate.validity();
    Some((
        certificate.public_key().raw.to_vec(),
        validity.not_before.timestamp(),
        validity.not_after.timestamp(),
        certificate.issuer().to_string(),
    ))
}

/// Calls `p384::ecdsa::SigningKey::from_pkcs8_der` and encodes the verifying key with
/// `to_public_key_der`. The name `p384_public_key` stands for the result.
#[verifier::external_body]
pub(crate) fn derive_public_key(key_der: &[u8]) -> (r: Option<Option<Vec<u8>>>)
    ensures
        match r {
            None => p384_public_key(key_der@) is None,
            Some(None) => p384_public_key(key_der@) == Some(None::<Seq<u8>>),
            Some(Some(key)) => p384_public_key(key_der@) == Some(Some(key@)),
        },
{
    let key = <p384::ecdsa::SigningKey as pkcs8::DecodePrivateKey>::from_pkcs8_der(key_der).ok()?;
    let public = pkcs8::EncodePublicKey::to_public_key_der(key.verifying_key());
    Some(public.ok().map(|document| document.as_bytes().to_vec()))
}

/// What comparing a certificate with a key gives. `certificate` is the public key in the
/// certificate, where there is a certificate that holds one; `key` is the public key that
/// belongs to the private key, where there is one that can be encoded.
pub open spec fn comparison(
    certificate: Option<Seq<u8>>,
    key: Option<Option<Seq<u8>>>,
) -> Result<bool, Error> {
    match (certificate, key) {
        (None, _) => Err(Error::ParseCertificate),
        (Some(_), None) => Err(Error::ParsePrivateKey),
        (Some(_), Some(None)) => Err(Error::EncodePublicKey),
        (Some(certificate), Some(Some(key))) => Ok(certificate == key),
    }
}

pub open spec fn certificate_key(der: Seq<u8>) -> Option<Seq<u8>> {
    match x509_fields(der) {
        Some((key, _, _, _)) => Some(key),
        None => None,
    }
}

/// What comparing a private key with a certificate in DER gives.
pub open spec fn key_matches_der(key_der: Seq<u8>, cert_der: Seq<u8>) -> Result<bool, Error> {
    comparison(certificate_key(cert_der), p384_public_key(key_der))
}

/// What comparing a private key with a certificate in PEM gives.
pub open spec fn key_matches_pem(key_der: Seq<u8>, cert_pem: Seq<u8>) -> Result<bool, Error> {
    match pem_contents(cert_pem) {
        Some(der) => key_matches_der(key_der, der),
        None => Err(Error::ParseCertificatePem),
    }
}

/// Whether two sequences of bytes are the same.
pub fn same_bytes(a: &Vec<u8>, b: &Vec<u8>) -> (r: bool)
    ensures
        r == (a@ == b@),
{
    if a.len() != b.len() {
        return false;
    }
    let mut i: usize = 0;
    while i < a.len()
        invariant
            i <= a@.len(),
            a@.len() == b@.len(),
            forall|j: int| 0 <= j < i ==> a@[j] == b@[j],
        decreases a@.len() - i,
    {
        if a[i] != b[i] {
            return false;
        }
        i += 1;
    }
    assert(a@ == b@);
    true
}

/// Compares the public key in a certificate with the one that belongs to a private key, each
/// where it could be read.
pub fn compare_public_keys(certificate: Option<Vec<u8>>, key: Option<Option<Vec<u8>>>) -> (r:
    Result<bool, Error>)
    ensures
        r == comparison(
            match certificate {
                Some(key) => Some(key@),
                None => None,
            },
            match key {
                Some(Some(key)) => Some(Some(key@)),
                Some(None) => Some(None),
                None => None,
            },
        ),
{
    match certificate {
        None => Err(Error::ParseCertificate),
        Some(certificate) => match key {
            None => Err(Error::ParsePrivateKey),
            Some(None) => Err(Error::EncodePublicKey),
            Some(Some(key)) => Ok(same_bytes(&certificate, &key)),
        },
    }
}

/// Whether a private key belongs to a certificate in DER.
pub fn private_key_matches_certificate_der(key_der: &[u8], cert_der: &[u8]) -> (r: Result<
    bool,
    Error,
>)
    ensures
        r == key_matches_der(key_der@, cert_der@),
{
    let certificate = match read_certificate(cert_der) {
        Some((key, _, _, _)) => Some(key),
        None => None,
    };
    compare_public_keys(certificate, derive_public_key(key_der))
}

/// Whether a private key belongs to a certificate in PEM.
pub fn private_key_matches_certificate(key_der: &[u8], cert_pem: &[u8]) -> (r: Result<bool, Error>)
    ensures
        r == key_matches_pem(key_der@, cert_pem@),
{
    match read_pem(cert_pem) {
        None => Err(Error::ParseCertificatePem),
        Some(der) => private_key_matches_certificate_der(key_der, der.as_slice()),
    }
}

/// Since when a certificate in DER is valid, and who issued it.
pub fn certificate_origin(cert_der: &[u8]) -> (r: Option<(i64, String)>)
    ensures
        match x509_fields(cert_der@) {
            Some((_, from, _, issuer)) => r matches Some(origin) && origin.0 == from && origin.1@
                == issuer,
            None => r is None,
        },
{
    match read_certificate(cert_der) {
        Some((_, from, _, issuer)) => Some((from, issuer)),
        None => None,
    }
}

/// A key fits a certificate where the certificate holds its public key; what cannot be read is
/// told, the certificate before the key.
pub proof fn keys_fit_certificates_that_hold_them(key_der: Seq<u8>, cert_der: Seq<u8>)
    ensures
        key_matches_der(key_der, cert_der) == Ok::<bool, Error>(true) <==> (x509_fields(
            cert_der,
        ) matches Some(fields) && p384_public_key(key_der) == Some(Some(fields.0))),
        key_matches_der(key_der, cert_der) == Err::<bool, Error>(Error::ParseCertificate)
            <==> x509_fields(cert_der) is None,
        key_matches_der(key_der, cert_der) == Err::<bool, Error>(Error::ParsePrivateKey)
            <==> x509_fields(cert_der) is Some && p384_public_key(key_der) is None,
        key_matches_der(key_der, cert_der) == Err::<bool, Error>(Error::EncodePublicKey)
            <==> x509_fields(cert_der) is Some && p384_public_key(key_der) == Some(
            None::<Seq<u8>>,
        ),
{
}

/// A certificate in text form is the one it holds.
pub proof fn texts_hold_certificates(key_der: Seq<u8>, cert_pem: Seq<u8>)
    ensures
        pem_contents(cert_pem) is None <==> key_matches_pem(key_der, cert_pem) == Err::<
            bool,
            Error,
        >(Error::ParseCertificatePem),
        pem_contents(cert_pem) matches Some(der) ==> key_matches_pem(key_der, cert_pem)
            == key_matches_der(key_der, der),
{
}

} // verus!
