use std::sync::atomic::{AtomicUsize, Ordering};
use std::sync::Arc;

use gmutils::cert_server::CertificateDetail;
use gmutils::install::{
    certificate_names_target, find_install_fault, parse_kind, validate_install, validate_install_with_verifier,
    InstallExpectation, InstallFault,
};
use gmutils::key_material::{
    load_pending, operation_key_from_private_key, CommitAction, CommitEvent, KeyMaterialError,
    KeyMaterialGenerator, LazyKeyMaterial, MissingMaterial, OperationKeyError, PendingCommit, PendingError, PendingFile, PendingRenewal,
};
use gmutils::kind::IdentityKind;
use gmutils::local::{
    assess_profile, certificate_chain_key_from_identity, certificate_state_from_error,
    classify_status, CertificateChainKey, LoadFailure, LocalIdentityMaterialState,
    LocalIdentityStatus, ProfileMaterial,
};
use gmutils::local_identity::{
    certificate_origin, private_key_matches_certificate, private_key_matches_certificate_der, Error,
};
use gmutils::target::IdentityName;

const SKI: &str = "7:0:0123456789abcdef0123456789abcdef0123456789abcdef0123456789abcdef";

fn der(tag: u8, content: &[u8]) -> Vec<u8> {
    let mut out = vec![tag];
    let len = content.len();
    if len < 0x80 {
        out.push(len as u8);
    } else if len < 0x100 {
        out.extend([0x81, len as u8]);
    } else {
        out.extend([0x82, (len >> 8) as u8, len as u8]);
    }
    out.extend_from_slice(content);
    out
}

fn sequence(parts: &[Vec<u8>]) -> Vec<u8> {
    der(0x30, &parts.concat())
}

fn extension(id: u8, value: &[u8]) -> Vec<u8> {
    sequence(&[der(0x06, &[0x55, 0x1d, id]), der(0x04, value)])
}

fn key(seed: u8) -> p384::SecretKey {
    p384::SecretKey::from_slice(&[seed; 48]).unwrap()
}

fn key_der(seed: u8) -> Vec<u8> {
    pkcs8::EncodePrivateKey::to_pkcs8_der(&key(seed)).unwrap().as_bytes().to_vec()
}

fn key_pem(seed: u8) -> String {
    pem("PRIVATE KEY", &key_der(seed))
}

/// A certificate for a key, with an identifier and alternative names. Its signature is empty.
fn certificate(seed: u8, identifier: &str, names: &[&str]) -> Vec<u8> {
    let public = pkcs8::EncodePublicKey::to_public_key_der(&key(seed).public_key()).unwrap();
    let algorithm = sequence(&[der(0x06, &[0x2a, 0x86, 0x48, 0xce, 0x3d, 0x04, 0x03, 0x03])]);
    let names: Vec<Vec<u8>> = names.iter().map(|name| der(0x82, name.as_bytes())).collect();
    let extensions = sequence(&[
        extension(0x0e, &der(0x04, identifier.as_bytes())),
        extension(0x11, &sequence(&names)),
    ]);
    let body = sequence(&[
        der(0xa0, &der(0x02, &[2])),
        der(0x02, &[1]),
        algorithm.clone(),
        sequence(&[der(
            0x31,
            &sequence(&[der(0x06, &[0x55, 0x04, 0x03]), der(0x0c, b"Test CA")]),
        )]),
        sequence(&[der(0x17, b"250101000000Z"), der(0x17, b"350101000000Z")]),
        sequence(&[]),
        public.as_bytes().to_vec(),
        der(0xa3, &extensions),
    ]);
    sequence(&[body, algorithm, der(0x03, &[0])])
}

fn pem(label: &str, content: &[u8]) -> String {
    let encoded =
        base64::Engine::encode(&base64::engine::general_purpose::STANDARD, content);
    let mut out = format!("-----BEGIN {label}-----\n");
    for line in encoded.as_bytes().chunks(64) {
        out.push_str(std::str::from_utf8(line).unwrap());
        out.push('\n');
    }
    out.push_str(&format!("-----END {label}-----\n"));
    out
}

fn leaf() -> Vec<u8> {
    certificate(1, SKI, &["alice.smith.dhttp.net"])
}

fn detail() -> CertificateDetail {
    CertificateDetail {
        domain: "alice.smith.dhttp.net".to_string(),
        device_name: Some("test device".to_string()),
        sequence: 7,
        kind: "primary".to_string(),
        serial_number: None,
        ski: Some(SKI.to_string()),
        ski_version: Some("1".to_string()),
        status: "active".to_string(),
        csr: String::new(),
        cert_pem: pem("CERTIFICATE", &leaf()),
        issued_at: 0,
        valid_not_after: i64::MAX,
        created_at: 0,
    }
}

fn expectation(name: &str) -> InstallExpectation {
    InstallExpectation {
        target: IdentityName::parse(name).unwrap(),
        kind: IdentityKind::Primary,
        sequence: Some(7),
    }
}

fn assert_validation_error(
    detail: &CertificateDetail,
    expected: &InstallExpectation,
    key: &str,
    expected_message: &str,
) {
    let error = validate_install_with_verifier(detail, expected, key, true)
        .expect_err("the certificate must fail validation")
        .to_text();
    assert!(error.contains(expected_message), "expected {expected_message:?} in {error}");
}

#[test]
fn install_validation_rejects_mismatched_target_kind_sequence_key_and_metadata() {
    let expected = expectation("alice.smith");
    let right_key = key_pem(1);
    validate_install_with_verifier(&detail(), &expected, &right_key, true).unwrap();
    validate_install_with_verifier(
        &detail(),
        &InstallExpectation { sequence: None, ..expectation("alice.smith") },
        &right_key,
        true,
    )
    .unwrap();

    let mut other_target = detail();
    other_target.domain = "other.smith.dhttp.net".to_string();
    assert_validation_error(&other_target, &expected, &right_key, "target name");
    assert_validation_error(&other_target, &expectation("other.smith"), &right_key, "target name");

    let mut other_kind = detail();
    other_kind.kind = "secondary".to_string();
    assert_validation_error(&other_kind, &expected, &right_key, "usage");
    let secondary_expected =
        InstallExpectation { kind: IdentityKind::Secondary, ..expectation("alice.smith") };
    assert_validation_error(&other_kind, &secondary_expected, &right_key, "usage");

    let other_sequence = InstallExpectation { sequence: Some(8), ..expectation("alice.smith") };
    assert_validation_error(&detail(), &other_sequence, &right_key, "sequence");
    let mut other_sequence_detail = detail();
    other_sequence_detail.sequence = 8;
    assert_validation_error(&other_sequence_detail, &other_sequence, &right_key, "sequence");
    assert_validation_error(&detail(), &expected, &key_pem(2), "private key");

    let mut missing_response_ski = detail();
    missing_response_ski.ski = None;
    assert_validation_error(
        &missing_response_ski,
        &expected,
        &right_key,
        "DHTTP certificate metadata",
    );

    let mut malformed_leaf_ski = detail();
    malformed_leaf_ski.cert_pem =
        pem("CERTIFICATE", &certificate(1, "nonsense", &["alice.smith.dhttp.net"]));
    assert_validation_error(
        &malformed_leaf_ski,
        &expected,
        &right_key,
        "DHTTP certificate metadata",
    );
}

#[test]
fn production_trust_rejects_a_chain_outside_the_dhttp_root() {
    let error =
        validate_install_with_verifier(&detail(), &expectation("alice.smith"), &key_pem(1), false)
            .unwrap_err();

    assert_eq!(error.fault, InstallFault::UntrustedCertificate);
    assert!(error.to_text().contains("trusted"), "{}", error.to_text());
}

#[test]
fn failed_validation_never_creates_or_saves_a_profile() {
    let mut invalid = detail();
    invalid.domain = "other.smith.dhttp.net".to_string();
    assert!(validate_install(&invalid, &expectation("alice.smith"), &key_pem(1)).is_err());
}

#[test]
fn validation_hands_out_the_chain_that_it_checked() {
    let chain = validate_install(&detail(), &expectation("alice.smith"), &key_pem(1)).unwrap();
    assert_eq!(chain, vec![leaf()]);
}

#[test]
fn each_fault_of_an_install_is_told() {
    let fault = |detail: &CertificateDetail, key: &str| {
        validate_install(detail, &expectation("alice.smith"), key).unwrap_err().fault
    };
    let right_key = key_pem(1);
    let with_cert = |cert_pem: String| CertificateDetail { cert_pem, ..detail() };

    assert_eq!(fault(&with_cert(String::new()), &right_key), InstallFault::EmptyCertificateChain);
    assert_eq!(
        fault(&with_cert("-----BEGIN CERTIFICATE-----\n!\n-----END CERTIFICATE-----\n".to_owned()), &right_key),
        InstallFault::ParseCertificatePem
    );
    assert_eq!(
        fault(&with_cert(pem("CERTIFICATE", b"nothing")), &right_key),
        InstallFault::ParseLeafCertificate
    );
    assert_eq!(
        fault(
            &with_cert(pem("CERTIFICATE", &certificate(1, SKI, &["bob.smith.dhttp.net"]))),
            &right_key
        ),
        InstallFault::MissingTargetName
    );
    let other_ski = SKI.replace("0123", "ffff");
    assert_eq!(
        fault(
            &with_cert(pem(
                "CERTIFICATE",
                &certificate(1, &other_ski, &["alice.smith.dhttp.net"])
            )),
            &right_key
        ),
        InstallFault::ResponseMetadataMismatch
    );
    let bad_ski = CertificateDetail { ski: Some("nonsense".to_owned()), ..detail() };
    assert_eq!(fault(&bad_ski, &right_key), InstallFault::InvalidResponseMetadata);
    assert_eq!(fault(&detail(), "no key"), InstallFault::ParsePrivateKey);
    assert_eq!(fault(&detail(), &key_pem(2)), InstallFault::PrivateKeyMismatch);
    assert_eq!(parse_kind("secondary"), Some(IdentityKind::Secondary));
    assert_eq!(parse_kind("odd"), None);
}

#[test]
fn identifiers_have_three_parts_between_colons() {
    let hash = "0123456789abcdef0123456789abcdef0123456789abcdef0123456789abcdef";
    let fault = |ski: &str| {
        let detail = CertificateDetail { ski: Some(ski.to_owned()), ..detail() };
        find_install_fault(
            &detail,
            &expectation("alice.smith"),
            Some(&vec![leaf()]),
            Some(&key_der(1)),
        )
    };
    for same in [format!("7:0:{hash}"), format!("+7:0:{hash}"), format!("007:0:{hash}")] {
        assert_eq!(fault(&same), None, "{same}");
    }
    for other in [
        format!("8:0:{hash}"),
        format!("7:1:{hash}"),
        format!("2147483647:0:{hash}"),
        format!("7:0:{}", hash.replace('0', "1")),
    ] {
        assert_eq!(fault(&other), Some(InstallFault::ResponseMetadataMismatch), "{other}");
    }
    for broken in [
        format!("7:0:{hash}:"),
        format!("7:{hash}"),
        format!("2147483648:0:{hash}"),
        format!("-7:0:{hash}"),
        format!(":0:{hash}"),
        format!("+:0:{hash}"),
        format!(" 7:0:{hash}"),
        format!("7:2:{hash}"),
        format!("7:0:{}", hash.to_uppercase()),
        format!("7:0:{}", &hash[1..]),
    ] {
        assert_eq!(fault(&broken), Some(InstallFault::InvalidResponseMetadata), "{broken}");
    }
}

#[test]
fn faults_are_found_in_what_was_read() {
    let chain = vec![leaf()];
    let expected = expectation("alice.smith");
    assert_eq!(
        find_install_fault(&detail(), &expected, Some(&chain), Some(&key_der(1))),
        None
    );
    assert_eq!(
        find_install_fault(&detail(), &expected, None, Some(&key_der(1))),
        Some(InstallFault::ParseCertificatePem)
    );
    assert_eq!(
        find_install_fault(&detail(), &expected, Some(&chain), None),
        Some(InstallFault::ParsePrivateKey)
    );
    assert_eq!(
        find_install_fault(&detail(), &expected, Some(&chain), Some(&b"no key".to_vec())),
        Some(InstallFault::ComparePrivateKey)
    );
}

#[test]
fn certificate_chain_key_from_identity_reads_dhttp_ski() {
    let identifier = SKI.replace("7:0:", "0:0:");
    let leaf = certificate(1, &identifier, &["client.example.com.dhttp.net"]);
    let chain_key = certificate_chain_key_from_identity(&leaf).unwrap();

    assert_eq!(chain_key, CertificateChainKey { sequence: 0, client_only: false });
    assert!(certificate_chain_key_from_identity(b"no certificate").is_none());
}

#[test]
fn key_match_helper_rejects_invalid_material() {
    assert!(private_key_matches_certificate(b"not a key", b"not a cert").is_err());
}

#[test]
fn keys_are_compared_with_certificates() {
    let cert_pem = pem("CERTIFICATE", &leaf());
    assert_eq!(private_key_matches_certificate(&key_der(1), cert_pem.as_bytes()), Ok(true));
    assert_eq!(private_key_matches_certificate(&key_der(2), cert_pem.as_bytes()), Ok(false));
    assert_eq!(
        private_key_matches_certificate(b"", cert_pem.as_bytes()),
        Err(Error::ParsePrivateKey)
    );
    assert_eq!(private_key_matches_certificate(&key_der(1), b""), Err(Error::ParseCertificatePem));
    assert_eq!(
        private_key_matches_certificate_der(&key_der(1), b"nothing"),
        Err(Error::ParseCertificate)
    );
    assert_eq!(private_key_matches_certificate_der(&key_der(1), &leaf()), Ok(true));
}

#[test]
fn certificates_tell_their_origin_and_names() {
    assert_eq!(certificate_origin(&leaf()), Some((1735689600, "CN=Test CA".to_string())));
    assert_eq!(certificate_origin(b"nothing"), None);
    let alice = IdentityName::parse("alice.smith").unwrap();
    let bob = IdentityName::parse("bob.smith").unwrap();
    assert_eq!(certificate_names_target(&leaf(), &alice), Some(true));
    assert_eq!(certificate_names_target(&leaf(), &bob), Some(false));
    assert_eq!(certificate_names_target(b"nothing", &alice), None);
}

#[test]
fn profiles_are_assessed_by_their_files() {
    let cert_pem = pem("CERTIFICATE", &leaf()).into_bytes();
    let complete = ProfileMaterial {
        certs: Ok(vec![leaf()]),
        cert_pem: Some(cert_pem.clone()),
        key: Ok(key_der(1)),
    };
    let assessment = assess_profile(&complete, Some(true));
    assert_eq!(assessment.sequence, Some(7));
    // The certificate ends with the year 2034.
    assert_eq!(assessment.expires_at, Some(2_051_222_400));
    assert_eq!(
        classify_status(&assessment, 2_051_222_399),
        LocalIdentityStatus::Ready { expires_at: 2_051_222_400 }
    );
    assert_eq!(
        classify_status(&assessment, 2_051_222_400),
        LocalIdentityStatus::Expired { expired_at: 2_051_222_400 }
    );

    let without_key = ProfileMaterial {
        certs: Ok(vec![leaf()]),
        cert_pem: Some(cert_pem.clone()),
        key: Err(LoadFailure::NotFound),
    };
    assert!(matches!(
        classify_status(&assess_profile(&without_key, Some(true)), 0),
        LocalIdentityStatus::Incomplete { .. }
    ));
    let with_other_key = ProfileMaterial {
        certs: Ok(vec![leaf()]),
        cert_pem: Some(cert_pem),
        key: Ok(key_der(2)),
    };
    assert!(matches!(
        classify_status(&assess_profile(&with_other_key, Some(true)), 0),
        LocalIdentityStatus::Invalid { .. }
    ));
    assert!(matches!(
        certificate_state_from_error(LoadFailure::NotFound),
        LocalIdentityMaterialState::Missing(_)
    ));
}

#[derive(Clone, Default)]
struct CountingGenerator {
    key_calls: Arc<AtomicUsize>,
    csr_calls: Arc<AtomicUsize>,
}

impl CountingGenerator {
    fn key_calls(&self) -> usize {
        self.key_calls.load(Ordering::SeqCst)
    }

    fn csr_calls(&self) -> usize {
        self.csr_calls.load(Ordering::SeqCst)
    }
}

impl KeyMaterialGenerator for CountingGenerator {
    fn generate_key(&mut self) -> Result<String, String> {
        self.key_calls.fetch_add(1, Ordering::SeqCst);
        Ok("test-key".to_string())
    }

    fn generate_csr(&mut self, key_pem: &str, full_name: &str) -> Result<String, String> {
        self.csr_calls.fetch_add(1, Ordering::SeqCst);
        Ok(format!("csr:{key_pem}:{full_name}"))
    }
}

#[test]
fn lazy_material_generates_one_key_and_one_csr_across_retries() {
    let generator = CountingGenerator::default();
    let name = IdentityName::parse("alice.smith").unwrap();
    let mut material = LazyKeyMaterial::new(name, generator.clone());

    let first = material.csr_pem().unwrap();
    let second = material.csr_pem().unwrap();

    assert_eq!(first, second);
    assert_eq!(first, "csr:test-key:alice.smith.dhttp.net");
    assert_eq!(material.key_pem().map(String::as_str), Some("test-key"));
    assert_eq!(generator.key_calls(), 1);
    assert_eq!(generator.csr_calls(), 1);
    assert_eq!(material.ensure_key().unwrap(), "test-key");
    assert_eq!(generator.key_calls(), 1);
}

#[test]
fn constructing_lazy_material_has_no_crypto_side_effect() {
    let generator = CountingGenerator::default();
    let name = IdentityName::parse("alice.smith").unwrap();
    let material = LazyKeyMaterial::new(name, generator.clone());

    assert_eq!(generator.key_calls(), 0);
    assert_eq!(generator.csr_calls(), 0);
    assert_eq!(material.missing(), Some(MissingMaterial::Key));
}

#[test]
fn generated_material_is_kept() {
    let mut material = LazyKeyMaterial::for_name(IdentityName::parse("alice.smith").unwrap());

    let first = material.csr_pem().unwrap();
    let key = material.key_pem().unwrap().clone();
    let second = material.csr_pem().unwrap();

    assert_eq!(first, second);
    assert_eq!(material.key_pem(), Some(&key));
    assert_eq!(material.ensure_key().unwrap(), key);
    assert!(first.contains("CERTIFICATE REQUEST"), "{first}");
    assert!(key.contains("PRIVATE KEY"));
    assert_eq!(material.missing(), None);
}

#[test]
fn failed_material_is_told() {
    let mut material = LazyKeyMaterial::for_name(IdentityName::parse("alice.smith").unwrap());
    material.store_key("no key".to_owned());
    let error = material.csr_pem().unwrap_err();
    assert_eq!(error.to_text(), "failed to generate CSR");
    let error = KeyMaterialError::GenerateKey(String::new());
    assert_eq!(error.to_text(), "failed to generate private key");
}

#[test]
fn renewals_are_generated_for_their_chain() {
    let name = IdentityName::parse("alice.smith").unwrap();
    let made = PendingRenewal::generate(&name, "primary", 7, "test laptop").unwrap();
    assert_eq!(made.target, "alice.smith.dhttp.net");
    assert_eq!((made.kind.as_str(), made.sequence), ("primary", 7));
    assert_eq!(made.device_name(), "test laptop");
    assert_eq!(made.operation_key(), operation_key_from_private_key(made.key_pem()).unwrap());
    let mut material = LazyKeyMaterial::for_name(IdentityName::parse("alice.smith").unwrap());
    material.store_key(made.key_pem().to_owned());
    assert_eq!(made.csr_pem(), material.csr_pem().unwrap());

    let of_key = PendingRenewal::for_key(&name, "primary", 7, "test laptop", key_pem(1)).unwrap();
    assert_eq!(of_key.key_pem(), key_pem(1));
    assert_eq!(
        of_key.operation_key(),
        operation_key_from_private_key(&key_pem(1)).unwrap()
    );
    assert!(PendingRenewal::for_key(&name, "primary", 7, "laptop", "no key".to_owned()).is_err());
}

#[test]
fn requests_are_made_for_their_key_and_name() {
    let request = |seed: u8, name: &str| {
        let mut material = LazyKeyMaterial::for_name(IdentityName::parse(name).unwrap());
        material.store_key(key_pem(seed));
        material.csr_pem().unwrap()
    };
    assert_eq!(request(1, "alice.smith"), request(1, "alice.smith"));
    assert_ne!(request(1, "alice.smith"), request(2, "alice.smith"));
    assert_ne!(request(1, "alice.smith"), request(1, "bob.smith"));
    let mut material = LazyKeyMaterial::for_name(IdentityName::parse("alice.smith").unwrap());
    material.store_key("no key".to_owned());
    assert!(material.csr_pem().is_err());
}

#[test]
fn material_at_hand_is_kept() {
    let mut material = LazyKeyMaterial::for_name(IdentityName::parse("alice.smith").unwrap());
    material.store_key("test-key".to_owned());
    assert_eq!(material.missing(), Some(MissingMaterial::Csr));
    material.store_csr("test-csr".to_owned());
    assert_eq!(material.csr_pem().unwrap(), "test-csr");
}

#[test]
fn renewals_are_named_after_their_key() {
    let name = operation_key_from_private_key(&key_pem(1)).unwrap();
    assert_eq!(operation_key_from_private_key(&key_pem(1)).unwrap(), name);
    assert_ne!(operation_key_from_private_key(&key_pem(2)).unwrap(), name);
    assert!(name.is_ascii() && !name.contains(['+', '/', '=']), "{name}");
    assert!(name.starts_with("renew-v1-MHYwEAYHKoZIzj0CAQYFK4EEACIDYgAE"), "{name}");
    assert_eq!(name.len(), 169);
    assert_eq!(
        operation_key_from_private_key("no key"),
        Err(OperationKeyError::ParsePrivateKey)
    );
}

fn pending() -> PendingRenewal {
    PendingRenewal::assemble(
        "alice.smith.dhttp.net",
        "primary",
        7,
        "test laptop",
        key_pem(1),
        "CSR".to_owned(),
    )
    .unwrap()
}

fn load(file: PendingFile, kind: &str, sequence: u32) -> Result<Option<PendingRenewal>, PendingError> {
    load_pending(file, "alice.smith.dhttp.net", kind, sequence, "/home/pending.json")
}

#[test]
fn pending_renewal_survives_reload_and_is_removed_after_install() {
    let created = pending();
    let file = PendingFile::Found { mode: 0o100600, content: Ok(pending()) };
    let loaded = load(file, "primary", 7).unwrap().expect("pending renewal should be reloadable");

    assert_eq!(loaded.operation_key(), created.operation_key());
    assert_eq!(loaded.key_pem(), created.key_pem());
    assert_eq!(loaded.csr_pem(), created.csr_pem());
    assert_eq!(loaded.device_name(), "test laptop");

    assert!(load(PendingFile::NotFound, "primary", 7).unwrap().is_none());
}

#[test]
fn pending_renewal_can_be_cleared_before_installing_another_chain() {
    assert!(load(PendingFile::NotFound, "secondary", 0).unwrap().is_none());
    let file = PendingFile::Found { mode: 0o100600, content: Ok(pending()) };
    assert!(matches!(load(file, "secondary", 0), Err(PendingError::AnotherChain { .. })));
}

#[test]
fn pending_files_have_to_be_private_and_complete() {
    let file = PendingFile::Found { mode: 0o100644, content: Ok(pending()) };
    assert!(matches!(load(file, "primary", 7), Err(PendingError::UnsafePermissions { .. })));
    let file = PendingFile::Found {
        mode: 0o100600,
        content: Ok(PendingRenewal { csr_pem: String::new(), ..pending() }),
    };
    assert!(matches!(load(file, "primary", 7), Err(PendingError::Incomplete { .. })));
    let file = PendingFile::Unreadable { message: "denied".to_owned() };
    assert!(load(file, "primary", 7).is_err());
    let file = PendingFile::Found { mode: 0o100600, content: Err("no json".to_owned()) };
    assert!(load(file, "primary", 7).is_err());
}

#[test]
fn pending_renewals_are_committed_before_they_are_used() {
    let (mut commit, mut action) = PendingCommit::start(pending());
    let mut steps = Vec::new();
    let finished = loop {
        match action {
            CommitAction::Finish { result, discard_temporary } => {
                assert!(!discard_temporary);
                break result.unwrap();
            }
            CommitAction::Nothing => panic!("the commit stands still"),
            step => {
                steps.push(format!("{step:?}"));
                action = commit.next(CommitEvent::Succeeded);
            }
        }
    };
    assert_eq!(finished.device_name(), "test laptop");
    assert_eq!(
        steps,
        [
            "CreateTemporary",
            "WriteTemporary",
            "Link",
            "SyncDirectory",
            "RemoveTemporary",
            "SyncDirectory"
        ]
    );
}

#[test]
fn a_pending_renewal_that_is_already_there_wins() {
    let (mut commit, _) = PendingCommit::start(pending());
    commit.next(CommitEvent::Succeeded);
    commit.next(CommitEvent::Succeeded);
    let mut action = commit.next(CommitEvent::AlreadyExists);
    let mut rounds = 0;
    while !matches!(action, CommitAction::LoadExisting) {
        rounds += 1;
        assert!(rounds < 5, "{action:?}");
        action = commit.next(CommitEvent::Succeeded);
    }
    let existing = PendingRenewal { device_name: "desktop".to_owned(), ..pending() };
    match commit.next(CommitEvent::Loaded(Ok(Some(existing)))) {
        CommitAction::Finish { result, .. } => assert_eq!(result.unwrap().device_name(), "desktop"),
        other => panic!("unexpected action: {other:?}"),
    }
}
