//! End-to-end tests of certificate loading and the PKCS#7 engine, with
//! identities generated freshly for each test.
use exopenssl::errors::CryptoError;
use exopenssl::pkcs7;
use exopenssl::pkcs7::smime;
use exopenssl::pkey;
use exopenssl::pkey::PKeyResource;
use exopenssl::x509;
use exopenssl::x509::X509Resource;

use openssl::asn1::Asn1Time;
use openssl::bn::BigNum;
use openssl::bn::MsbOption;
use openssl::hash::MessageDigest;
use openssl::pkey::PKey;
use openssl::rsa::Rsa;
use openssl::symm::Cipher;
use openssl::x509::extension::BasicConstraints;
use openssl::x509::X509;
use openssl::x509::X509NameBuilder;

/// Generates a fresh self-signed identity and returns its certificate and
/// private key as PEM text.
fn make_identity_pem(common_name: &str) -> (String, String) {
    let rsa = Rsa::generate(2048).unwrap();
    let key = PKey::from_rsa(rsa).unwrap();

    let mut name = X509NameBuilder::new().unwrap();
    name.append_entry_by_text("CN", common_name).unwrap();
    let name = name.build();

    let mut builder = X509::builder().unwrap();
    builder.set_version(2).unwrap();
    let mut serial = BigNum::new().unwrap();
    serial.rand(128, MsbOption::MAYBE_ZERO, false).unwrap();
    let serial = serial.to_asn1_integer().unwrap();
    builder.set_serial_number(&serial).unwrap();
    builder.set_subject_name(&name).unwrap();
    builder.set_issuer_name(&name).unwrap();
    builder.set_not_before(&Asn1Time::days_from_now(0).unwrap()).unwrap();
    builder.set_not_after(&Asn1Time::days_from_now(365).unwrap()).unwrap();
    builder.set_pubkey(&key).unwrap();
    let constraints = BasicConstraints::new().critical().ca().build().unwrap();
    builder.append_extension(constraints).unwrap();
    builder.sign(&key, MessageDigest::sha256()).unwrap();
    let cert = builder.build();

    let cert_pem = String::from_utf8(cert.to_pem().unwrap()).unwrap();
    let key_pem = String::from_utf8(key.private_key_to_pem_pkcs8().unwrap()).unwrap();
    (cert_pem, key_pem)
}

/// Loads a generated identity through the library's own PEM readers.
fn load_identity(common_name: &str) -> (Vec<X509Resource>, PKeyResource) {
    let (cert_pem, key_pem) = make_identity_pem(common_name);
    let certs = x509::pem_read(&cert_pem).expect("generated certificate must load");
    assert_eq!(certs.len(), 1);
    let key = pkey::pem_read(&key_pem).expect("generated key must load");
    (certs, key)
}

fn expect_err<T>(outcome: Result<T, CryptoError>) -> CryptoError {
    match outcome {
        Ok(_) => panic!("expected an error"),
        Err(e) => e,
    }
}

fn names(list: &[&str]) -> Vec<String> {
    list.iter().map(|s| s.to_string()).collect()
}

#[test]
fn empty_pem_loads_zero_certificates() {
    let certs = x509::pem_read("").expect("empty input is not an error");
    assert!(certs.is_empty());
}

#[test]
fn malformed_pem_is_a_parse_error_with_records() {
    let err = expect_err(x509::pem_read(
        "-----BEGIN CERTIFICATE-----\nnot base64!!\n-----END CERTIFICATE-----\n",
    ));
    match err {
        CryptoError::ParseError(records) => {
            assert!(!records.is_empty());
            let first = &records[0];
            assert!(first.code != 0);
            assert!(!first.file.is_empty() || first.reason.is_some());
        },
        other => panic!("expected ParseError, got {:?}", other),
    }
}

#[test]
fn malformed_block_among_valid_ones_fails_the_whole_call() {
    let (cert_pem, _) = make_identity_pem("good");
    let mixed = format!(
        "{}-----BEGIN CERTIFICATE-----\nnot base64!!\n-----END CERTIFICATE-----\n",
        cert_pem
    );
    assert!(matches!(x509::pem_read(&mixed), Err(CryptoError::ParseError(_))));
}

#[test]
fn two_certificates_load_in_file_order() {
    let (first_pem, _) = make_identity_pem("first");
    let (second_pem, _) = make_identity_pem("second");
    let both = format!("{}{}", first_pem, second_pem);
    let certs = x509::pem_read(&both).unwrap();
    assert_eq!(certs.len(), 2);
}

#[test]
fn private_key_loads_and_garbage_does_not() {
    let (_, key_pem) = make_identity_pem("keyholder");
    assert!(pkey::pem_read(&key_pem).is_ok());
    match expect_err(pkey::pem_read("no key here")) {
        CryptoError::ParseError(records) => assert!(!records.is_empty()),
        other => panic!("expected ParseError, got {:?}", other),
    }
}

#[test]
fn multiple_private_key_blocks_are_ambiguous() {
    let (_, first_key) = make_identity_pem("one");
    let (_, second_key) = make_identity_pem("two");
    let both = format!("{}{}", first_key, second_key);
    assert!(matches!(pkey::pem_read(&both), Err(CryptoError::AmbiguousKey)));
    let doubled = format!("{}{}", first_key, first_key);
    assert!(matches!(pkey::pem_read(&doubled), Err(CryptoError::AmbiguousKey)));
}

#[test]
fn passphrase_protected_key_pem_is_rejected() {
    let rsa = Rsa::generate(2048).unwrap();
    let key = PKey::from_rsa(rsa.clone()).unwrap();
    let pkcs8 = key
        .private_key_to_pem_pkcs8_passphrase(Cipher::aes_128_cbc(), b"secret")
        .unwrap();
    let pkcs8 = String::from_utf8(pkcs8).unwrap();
    assert!(pkcs8.contains("ENCRYPTED PRIVATE KEY"));
    assert!(matches!(pkey::pem_read(&pkcs8), Err(CryptoError::EncryptedPem)));

    let legacy = rsa
        .private_key_to_pem_passphrase(Cipher::aes_128_cbc(), b"secret")
        .unwrap();
    let legacy = String::from_utf8(legacy).unwrap();
    assert!(legacy.contains("Proc-Type:"));
    assert!(matches!(pkey::pem_read(&legacy), Err(CryptoError::EncryptedPem)));
}

#[test]
fn encryption_header_rejects_certificate_pem() {
    let (cert_pem, _) = make_identity_pem("holder");
    let with_header = format!("Proc-Type: 4,ENCRYPTED\n{}", cert_pem);
    assert!(matches!(
        x509::pem_read(&with_header),
        Err(CryptoError::EncryptedPem)
    ));
}

#[test]
fn encrypt_then_decrypt_recovers_the_payload() {
    let (certs, key) = load_identity("recipient");
    let payload: &[u8] = b"attack at dawn";
    let sealed = pkcs7::encrypt(&certs, payload, "des_ede3_cbc", &names(&["binary"])).unwrap();
    let plain = pkcs7::decrypt(&sealed, &key, &certs[0]).unwrap();
    assert_eq!(plain, payload);
}

#[test]
fn decrypt_with_the_wrong_key_fails() {
    let (certs, _) = load_identity("intended");
    let (other_certs, other_key) = load_identity("outsider");
    let sealed = pkcs7::encrypt(&certs, b"secret", "des_ede3_cbc", &names(&["binary"])).unwrap();
    match pkcs7::decrypt(&sealed, &other_key, &other_certs[0]) {
        Err(CryptoError::EngineError(records)) => assert!(!records.is_empty()),
        other => panic!("expected EngineError, got {:?}", other.map(|_| ())),
    }
}

#[test]
fn sign_detached_then_verify_with_the_content() {
    let (certs, key) = load_identity("signer");
    let content: &[u8] = b"signed message";
    let flags = names(&["detached", "binary"]);
    let extras: Vec<X509Resource> = Vec::new();
    let signed = pkcs7::sign(&certs[0], &key, &extras, content, &flags).unwrap();
    let (verified, recovered) =
        pkcs7::verify(&signed, &extras, &certs, Some(content), &flags).unwrap();
    assert!(verified);
    assert_eq!(recovered, content);
}

#[test]
fn sign_attached_then_verify_without_detached_content() {
    let (certs, key) = load_identity("signer");
    let content: &[u8] = b"embedded message";
    let flags = names(&["binary"]);
    let extras: Vec<X509Resource> = Vec::new();
    let signed = pkcs7::sign(&certs[0], &key, &extras, content, &flags).unwrap();
    let (verified, recovered) = pkcs7::verify(&signed, &extras, &certs, None, &flags).unwrap();
    assert!(verified);
    assert_eq!(recovered, content);
}

#[test]
fn verification_fails_on_substituted_detached_content() {
    let (certs, key) = load_identity("signer");
    let flags = names(&["detached", "binary"]);
    let extras: Vec<X509Resource> = Vec::new();
    let signed = pkcs7::sign(&certs[0], &key, &extras, b"original bytes", &flags).unwrap();
    let outcome = pkcs7::verify(&signed, &extras, &certs, Some(b"tampered bytes"), &flags);
    assert!(matches!(outcome, Err(CryptoError::EngineError(_))));
}

#[test]
fn verification_fails_when_the_signer_is_untrusted() {
    let (certs, key) = load_identity("signer");
    let (stranger_certs, _) = load_identity("stranger");
    let flags = names(&["binary"]);
    let extras: Vec<X509Resource> = Vec::new();
    let signed = pkcs7::sign(&certs[0], &key, &extras, b"message", &flags).unwrap();
    let empty_store: Vec<X509Resource> = Vec::new();
    assert!(matches!(
        pkcs7::verify(&signed, &extras, &empty_store, None, &flags),
        Err(CryptoError::EngineError(_))
    ));
    assert!(matches!(
        pkcs7::verify(&signed, &extras, &stranger_certs, None, &flags),
        Err(CryptoError::EngineError(_))
    ));
}

#[test]
fn noverify_skips_chain_trust_but_still_checks_signatures() {
    let (certs, key) = load_identity("signer");
    let extras: Vec<X509Resource> = Vec::new();
    let empty_store: Vec<X509Resource> = Vec::new();

    let attached = pkcs7::sign(&certs[0], &key, &extras, b"message", &names(&["binary"])).unwrap();
    let relaxed = names(&["binary", "noverify"]);
    let (verified, recovered) =
        pkcs7::verify(&attached, &extras, &empty_store, None, &relaxed).unwrap();
    assert!(verified);
    assert_eq!(recovered, b"message");

    let detached_flags = names(&["detached", "binary"]);
    let detached = pkcs7::sign(&certs[0], &key, &extras, b"original", &detached_flags).unwrap();
    let relaxed_detached = names(&["detached", "binary", "noverify"]);
    let outcome =
        pkcs7::verify(&detached, &extras, &empty_store, Some(b"tampered"), &relaxed_detached);
    assert!(matches!(outcome, Err(CryptoError::EngineError(_))));
}

#[test]
fn smime_round_trip_for_a_detached_signature() {
    let (certs, key) = load_identity("signer");
    let content: &[u8] = b"wire message";
    let flags = names(&["stream", "detached"]);
    let extras: Vec<X509Resource> = Vec::new();
    let signed = pkcs7::sign(&certs[0], &key, &extras, content, &flags).unwrap();
    let wire = smime::write(&signed, content, &flags).unwrap();
    let text = String::from_utf8(wire).unwrap();
    let (reread, recovered) = smime::read(&text).unwrap();
    assert_eq!(recovered, content);
    let (verified, output) =
        pkcs7::verify(&reread, &extras, &certs, Some(content), &flags).unwrap();
    assert!(verified);
    assert_eq!(output, content);
}

#[test]
fn smime_round_trip_for_an_encrypted_structure() {
    let (certs, key) = load_identity("recipient");
    let payload: &[u8] = b"sealed wire message";
    let sealed = pkcs7::encrypt(&certs, payload, "des_ede3_cbc", &names(&["stream"])).unwrap();
    let wire = smime::write(&sealed, payload, &names(&["stream"])).unwrap();
    let text = String::from_utf8(wire).unwrap();
    let (reread, _) = smime::read(&text).unwrap();
    let plain = pkcs7::decrypt(&reread, &key, &certs[0]).unwrap();
    assert_eq!(plain, payload);
}

#[test]
fn smime_read_rejects_malformed_text() {
    assert!(matches!(
        smime::read("this is not S/MIME at all"),
        Err(CryptoError::ParseError(_))
    ));
}

#[test]
fn empty_option_set_is_rejected_by_all_four_operations() {
    let (certs, key) = load_identity("party");
    let empty: Vec<String> = Vec::new();
    let extras: Vec<X509Resource> = Vec::new();

    let rejected = |outcome: Option<CryptoError>| match outcome {
        Some(CryptoError::InvalidOption(tok)) => assert!(tok.is_none()),
        other => panic!("expected InvalidOption(None), got {:?}", other),
    };

    rejected(pkcs7::encrypt(&certs, b"x", "des_ede3_cbc", &empty).err());
    rejected(pkcs7::sign(&certs[0], &key, &extras, b"x", &empty).err());

    let signed = pkcs7::sign(&certs[0], &key, &extras, b"x", &names(&["binary"])).unwrap();
    rejected(pkcs7::verify(&signed, &extras, &certs, None, &empty).err());
    rejected(smime::write(&signed, b"x", &empty).err());
}

#[test]
fn unknown_option_is_rejected_before_any_engine_call() {
    let (certs, key) = load_identity("party");
    let extras: Vec<X509Resource> = Vec::new();
    let bad = names(&["binary", "bogus"]);
    match expect_err(pkcs7::encrypt(&certs, b"x", "des_ede3_cbc", &bad)) {
        CryptoError::InvalidOption(tok) => assert_eq!(tok.as_deref(), Some("bogus")),
        other => panic!("expected InvalidOption, got {:?}", other),
    }
    match expect_err(pkcs7::sign(&certs[0], &key, &extras, b"x", &bad)) {
        CryptoError::InvalidOption(tok) => assert_eq!(tok.as_deref(), Some("bogus")),
        other => panic!("expected InvalidOption, got {:?}", other),
    }
}

#[test]
fn unknown_cipher_is_rejected_with_its_name() {
    let (certs, _) = load_identity("party");
    match expect_err(pkcs7::encrypt(&certs, b"x", "rot13", &names(&["binary"]))) {
        CryptoError::InvalidOption(tok) => assert_eq!(tok.as_deref(), Some("rot13")),
        other => panic!("expected InvalidOption, got {:?}", other),
    }
}

#[test]
fn error_records_carry_the_engine_diagnosis() {
    let err = expect_err(x509::pem_read(
        "-----BEGIN CERTIFICATE-----\nnot base64!!\n-----END CERTIFICATE-----\n",
    ));
    let records = match err {
        CryptoError::ParseError(records) => records,
        other => panic!("expected ParseError, got {:?}", other),
    };
    assert!(!records.is_empty());
    let reasons: Vec<&str> = records.iter().filter_map(|r| r.reason.as_deref()).collect();
    assert!(!reasons.is_empty(), "a PEM failure names at least one reason");
}
