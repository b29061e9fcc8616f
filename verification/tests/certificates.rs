use std::time::{SystemTime, UNIX_EPOCH};

use rcgen::{CertificateParams, DistinguishedName, DnType, Issuer, KeyPair};
use rust_connect::error::Error;
use rust_connect::outside::Moment;
use rust_connect::protocol::cert_store::{Directory, FileOp};
use rust_connect::protocol::certificate::{
    build_certificate, extract_cn_from_der, is_valid_at, parse_x509_der,
};
use rust_connect::protocol::crypto::CertificateManager;
use rust_connect::protocol::device_id::validate_device_id;
use rust_connect::protocol::pem::{der_to_pem, pem_to_der};
use rust_connect::protocol::verification_key::key_of_digest;
use x509_parser::oid_registry::{
    OID_X509_COMMON_NAME, OID_X509_ORGANIZATIONAL_UNIT, OID_X509_ORGANIZATION_NAME,
};
use x509_parser::prelude::{parse_x509_certificate, ASN1Time, GeneralName};
use x509_parser::public_key::PublicKey;

fn setup() -> CertificateManager {
    CertificateManager::new("/var/lib/certs".to_string())
}

/// The DER inside a PEM file, read independently of the library.
fn der_of(pem: &[u8]) -> Vec<u8> {
    x509_parser::pem::parse_x509_pem(pem)
        .expect("parse certificate PEM")
        .1
        .contents
}

fn now_unix() -> i64 {
    SystemTime::now()
        .duration_since(UNIX_EPOCH)
        .expect("read system time")
        .as_secs() as i64
}

fn generated(manager: &CertificateManager, id: &str) -> (Vec<u8>, Vec<u8>) {
    manager
        .generate_certificate(id, "Test Device")
        .expect("generate test certificate")
}

#[test]
fn test_generate_certificate() {
    let manager = setup();

    let result = manager.generate_certificate("test-device-idaaaaaaaaaaaaaaaaaa", "Test Device");
    assert!(result.is_ok());

    let (cert_pem, key_pem) = result.expect("generate test certificate");
    assert!(!cert_pem.is_empty());
    assert!(!key_pem.is_empty());
}

#[test]
fn test_store_and_load_certificate() {
    let mut manager = setup();
    let (cert_pem, key_pem) = generated(&manager, "test-device-idaaaaaaaaaaaaaaaaaa");

    let result = manager.store_certificate("test-device-idaaaaaaaaaaaaaaaaaa", &cert_pem, &key_pem);
    assert!(result.is_ok());

    let result = manager.load_certificate("test-device-idaaaaaaaaaaaaaaaaaa");
    assert!(result.is_ok());

    let (loaded_cert, loaded_key) = result.expect("load test certificate");
    assert_eq!(cert_pem, loaded_cert);
    assert_eq!(key_pem, loaded_key);
}

#[test]
fn test_validate_certificate() {
    let manager = setup();
    let (cert_pem, key_pem) = generated(&manager, "test-device-idaaaaaaaaaaaaaaaaaa");
    let result = manager.validate_certificate(&cert_pem, &key_pem);
    assert!(result.is_ok());
}

#[test]
fn test_validate_invalid_certificate() {
    let manager = setup();
    let result = manager.validate_certificate(b"invalid", b"invalid");
    assert!(result.is_err());
}

#[test]
fn a_certificate_with_another_key_is_refused() {
    let manager = setup();
    let (cert_pem, _) = generated(&manager, "test-device-idaaaaaaaaaaaaaaaaaa");
    let (_, other_key) = generated(&manager, "test-device-idaaaaaaaaaaaaaaaaaa");
    assert!(manager.validate_certificate(&cert_pem, &other_key).is_err());
    assert!(manager.validate_certificate(&cert_pem, b"no key").is_err());
}

#[test]
fn test_has_certificate() {
    let mut manager = setup();
    assert!(!manager.has_certificate("test-device-idaaaaaaaaaaaaaaaaaa"));

    let (cert_pem, key_pem) = generated(&manager, "test-device-idaaaaaaaaaaaaaaaaaa");
    manager
        .store_certificate("test-device-idaaaaaaaaaaaaaaaaaa", &cert_pem, &key_pem)
        .expect("store test certificate");

    assert!(manager.has_certificate("test-device-idaaaaaaaaaaaaaaaaaa"));
}

#[test]
fn test_delete_certificate() {
    let mut manager = setup();
    let (cert_pem, key_pem) = generated(&manager, "test-device-idaaaaaaaaaaaaaaaaaa");
    manager
        .store_certificate("test-device-idaaaaaaaaaaaaaaaaaa", &cert_pem, &key_pem)
        .expect("store test certificate");
    assert!(manager.has_certificate("test-device-idaaaaaaaaaaaaaaaaaa"));

    let result = manager.delete_certificate("test-device-idaaaaaaaaaaaaaaaaaa");
    assert!(result.is_ok());
    assert!(!manager.has_certificate("test-device-idaaaaaaaaaaaaaaaaaa"));
}

#[test]
fn test_load_nonexistent_certificate() {
    let manager = setup();
    let result = manager.load_certificate("nonexistentaaaaaaaaaaaaaaaaaaaaa");
    assert!(result.is_err());
}

#[test]
fn test_compute_fingerprint() {
    let manager = setup();
    let (cert_pem, _) = generated(&manager, "fp-testaaaaaaaaaaaaaaaaaaaaaaaaa");
    let cert_der = der_of(&cert_pem);

    let fp1 = CertificateManager::compute_fingerprint(&cert_der).expect("compute fingerprint");
    let fp2 = CertificateManager::compute_fingerprint(&cert_der).expect("compute fingerprint");

    assert_eq!(fp1, fp2);
    assert_eq!(fp1.len(), 64);
}

#[test]
fn fingerprints_are_sha256_in_lower_hex() {
    assert_eq!(
        CertificateManager::compute_fingerprint(b"abc").expect("compute fingerprint"),
        "ba7816bf8f01cfea414140de5dae2223b00361a396177a9cb410ff61f20015ad"
    );
}

#[test]
fn test_tofu_first_connection_stores_fingerprint() {
    let mut manager = setup();
    let (cert_pem, _) = generated(&manager, "tofu-deviceaaaaaaaaaaaaaaaaaaaaa");
    let cert_der = der_of(&cert_pem);

    assert!(!manager.has_peer_fingerprint("tofu-deviceaaaaaaaaaaaaaaaaaaaaa"));

    manager
        .store_peer_certificate("tofu-deviceaaaaaaaaaaaaaaaaaaaaa", &cert_der)
        .expect("store peer certificate");

    assert!(manager.has_peer_fingerprint("tofu-deviceaaaaaaaaaaaaaaaaaaaaa"));
    let stored_fp = manager
        .load_peer_fingerprint("tofu-deviceaaaaaaaaaaaaaaaaaaaaa")
        .expect("load peer fingerprint");
    let expected_fp =
        CertificateManager::compute_fingerprint(&cert_der).expect("compute fingerprint");
    assert_eq!(stored_fp, expected_fp);
}

#[test]
fn test_tofu_reconnect_same_cert_succeeds() {
    let mut manager = setup();
    let (cert_pem, _) = generated(&manager, "reconnect-deviceaaaaaaaaaaaaaaaa");
    let cert_der = der_of(&cert_pem);

    manager
        .store_peer_certificate("reconnect-deviceaaaaaaaaaaaaaaaa", &cert_der)
        .expect("store peer certificate");
    let result = manager.store_peer_certificate("reconnect-deviceaaaaaaaaaaaaaaaa", &cert_der);
    assert!(result.is_ok());
}

#[test]
fn test_tofu_reconnect_different_cert_fails() {
    let mut manager = setup();
    let (cert_pem1, _) = generated(&manager, "mitm-deviceaaaaaaaaaaaaaaaaaaaaa");
    let (cert_pem2, _) = generated(&manager, "mitm-deviceaaaaaaaaaaaaaaaaaaaaa");
    let cert_der1 = der_of(&cert_pem1);
    let cert_der2 = der_of(&cert_pem2);

    manager
        .store_peer_certificate("mitm-deviceaaaaaaaaaaaaaaaaaaaaa", &cert_der1)
        .expect("store peer certificate");
    let result = manager.store_peer_certificate("mitm-deviceaaaaaaaaaaaaaaaaaaaaa", &cert_der2);
    assert!(result.is_err());
    assert!(result
        .unwrap_err()
        .message()
        .contains("fingerprint mismatch"));
}

#[test]
fn test_verify_peer_fingerprint_not_found() {
    let manager = setup();
    let result = manager.verify_peer_fingerprint("unknownaaaaaaaaaaaaaaaaaaaaaaaaa", b"fake_der");
    assert!(result.is_err());
}

#[test]
fn test_validate_device_id_valid() {
    assert!(validate_device_id(&"a".repeat(32)).is_ok());
    assert!(validate_device_id(&"a".repeat(36)).is_ok());
    assert!(validate_device_id(&"a".repeat(38)).is_ok());
    assert!(validate_device_id("0123456789abcdef0123456789abcdef").is_ok());
    assert!(validate_device_id("9f1cb61f-2cbf-4608-9ba6-b4576f03553a").is_ok());
}

#[test]
fn test_validate_device_id_too_short() {
    assert!(validate_device_id("").is_err());
    assert!(validate_device_id("a").is_err());
    assert!(validate_device_id("abc-123").is_err());
    assert!(validate_device_id(&"a".repeat(31)).is_err());
}

#[test]
fn test_validate_device_id_too_long() {
    assert!(validate_device_id(&"x".repeat(39)).is_err());
    assert!(validate_device_id(&"x".repeat(129)).is_err());
}

#[test]
fn test_validate_device_id_path_traversal() {
    assert!(validate_device_id("../etc/passwdaaaaaaaaaaaaaaaaaaa").is_err());
    assert!(validate_device_id("foo/baraaaaaaaaaaaaaaaaaaaaaaaaa").is_err());
    assert!(validate_device_id("foo\\baraaaaaaaaaaaaaaaaaaaaaaaaa").is_err());
    assert!(validate_device_id("foo/..baraaaaaaaaaaaaaaaaaaaaaaa").is_err());
    assert!(validate_device_id("foo\0baraaaaaaaaaaaaaaaaaaaaaaaaa").is_err());
    assert!(validate_device_id("foo..baraaaaaaaaaaaaaaaaaaaaaaaa").is_err());
}

#[test]
fn device_ids_are_ascii() {
    assert!(validate_device_id(&"é".repeat(32)).is_err());
    assert!(validate_device_id(&format!("{}é", "a".repeat(32))).is_err());
}

#[test]
fn test_extract_cn_no_cn_field() {
    let mut manager = setup();
    manager.init().expect("initialize certificate manager");

    let (cert_pem, key_pem) = manager
        .generate_certificate("has-cn", "CN Device")
        .expect("generate test certificate");
    let key = KeyPair::from_pem(std::str::from_utf8(&key_pem).expect("PEM text"))
        .expect("parse private key PEM");
    let mut issuer_params = CertificateParams::default();
    issuer_params
        .distinguished_name
        .push(DnType::CommonName, "has-cn");
    let issuer = Issuer::from_params(&issuer_params, &key);
    let mut params = CertificateParams::default();
    params.distinguished_name = DistinguishedName::new();
    params
        .distinguished_name
        .push(DnType::OrganizationName, "Test Org");
    let cert_der = params.signed_by(&key, &issuer).expect("sign certificate");

    let issuer_of_der = |der: &[u8]| {
        let (_, cert) = parse_x509_certificate(der).expect("parse certificate");
        let name = cert.issuer().iter_common_name().next().expect("issuer");
        name.as_str().expect("issuer text").to_string()
    };
    assert_eq!(issuer_of_der(&der_of(&cert_pem)), "has-cn");
    assert_eq!(issuer_of_der(cert_der.der()), "has-cn");

    let result = extract_cn_from_der(cert_der.der());
    assert!(result.is_err());
    let msg = result.unwrap_err().message();
    assert!(msg.contains("no Common Name"));
}

#[test]
fn test_extract_cn_invalid_der() {
    let result = extract_cn_from_der(b"this is not a valid DER certificate");
    assert!(result.is_err());
    let msg = result.unwrap_err().message();
    assert!(msg.contains("Failed to parse DER"));
}

#[test]
fn the_common_name_is_the_device_id() {
    let manager = setup();
    let (cert_pem, _) = generated(&manager, "test-device-idaaaaaaaaaaaaaaaaaa");
    assert_eq!(
        extract_cn_from_der(&der_of(&cert_pem)).expect("common name"),
        "test-device-idaaaaaaaaaaaaaaaaaa"
    );
}

#[test]
fn test_ensure_certificate_creates_when_missing() {
    let mut cm = setup();
    assert!(!cm.has_certificate("new-deviceaaaaaaaaaaaaaaaaaaaaaa"));
    cm.ensure_certificate("new-deviceaaaaaaaaaaaaaaaaaaaaaa", "Test Device")
        .expect("ensure certificate");
    assert!(cm.has_certificate("new-deviceaaaaaaaaaaaaaaaaaaaaaa"));
}

#[test]
fn test_ensure_certificate_skips_when_exists() {
    let mut cm = setup();
    let (cert1, key1) = generated(&cm, "existing-deviceaaaaaaaaaaaaaaaaa");
    cm.store_certificate("existing-deviceaaaaaaaaaaaaaaaaa", &cert1, &key1)
        .expect("store test certificate");

    cm.ensure_certificate("existing-deviceaaaaaaaaaaaaaaaaa", "Test Device")
        .expect("ensure certificate");

    let (cert2, _key2) = cm
        .load_certificate("existing-deviceaaaaaaaaaaaaaaaaa")
        .expect("load test certificate");
    assert_eq!(
        cert1, cert2,
        "ensure_certificate should not overwrite existing cert"
    );
}

#[test]
fn test_delete_peer_certificate() {
    let mut cm = setup();
    let (cert_pem, _) = generated(&cm, "peer-deviceaaaaaaaaaaaaaaaaaaaaa");
    let cert_der = der_of(&cert_pem);
    cm.store_peer_certificate("peer-deviceaaaaaaaaaaaaaaaaaaaaa", &cert_der)
        .expect("store peer certificate");
    assert!(cm.has_peer_certificate("peer-deviceaaaaaaaaaaaaaaaaaaaaa"));

    cm.delete_peer_certificate("peer-deviceaaaaaaaaaaaaaaaaaaaaa")
        .expect("delete peer certificate");
    assert!(!cm.has_peer_certificate("peer-deviceaaaaaaaaaaaaaaaaaaaaa"));
    assert!(!cm.has_peer_fingerprint("peer-deviceaaaaaaaaaaaaaaaaaaaaa"));
}

#[test]
fn test_delete_peer_certificate_nonexistent() {
    let mut cm = setup();
    assert!(cm
        .delete_peer_certificate("no-such-peeraaaaaaaaaaaaaaaaaaaa")
        .is_ok());
}

#[test]
fn test_load_peer_fingerprint() {
    let mut cm = setup();
    let fp = "abcdef1234567890";
    cm.store_peer_fingerprint("fp-deviceaaaaaaaaaaaaaaaaaaaaaaa", fp)
        .expect("store peer fingerprint");

    let loaded = cm
        .load_peer_fingerprint("fp-deviceaaaaaaaaaaaaaaaaaaaaaaa")
        .expect("load peer fingerprint");
    assert_eq!(loaded, fp);
}

#[test]
fn test_load_peer_fingerprint_not_found() {
    let cm = setup();
    let result = cm.load_peer_fingerprint("no-fingerprintaaaaaaaaaaaaaaaaaa");
    assert!(result.is_err());
    let msg = result.unwrap_err().message();
    assert!(msg.contains("No stored fingerprint"));
}

#[test]
fn test_compute_verification_key_deterministic() {
    let cert_a = b"-----BEGIN CERTIFICATE-----\nA\n-----END CERTIFICATE-----\n";
    let cert_b = b"-----BEGIN CERTIFICATE-----\nB\n-----END CERTIFICATE-----\n";
    let ts = 1700000000i64;

    let key1 = CertificateManager::compute_verification_key(cert_a, cert_b, ts);
    let key2 = CertificateManager::compute_verification_key(cert_b, cert_a, ts);
    assert_eq!(key1, key2, "verification key must be symmetric");
    assert_eq!(key1.len(), 8, "verification key must be 8 hex chars");
}

#[test]
fn test_compute_verification_key_different_timestamp() {
    let cert_a = b"-----BEGIN CERTIFICATE-----\nA\n-----END CERTIFICATE-----\n";
    let cert_b = b"-----BEGIN CERTIFICATE-----\nB\n-----END CERTIFICATE-----\n";

    let key1 = CertificateManager::compute_verification_key(cert_a, cert_b, 1700000000);
    let key2 = CertificateManager::compute_verification_key(cert_a, cert_b, 1700000001);
    assert_ne!(
        key1, key2,
        "different timestamps must produce different keys"
    );
}

#[test]
fn test_compute_verification_key_different_certs() {
    let cert_a = b"-----BEGIN CERTIFICATE-----\nA\n-----END CERTIFICATE-----\n";
    let cert_b = b"-----BEGIN CERTIFICATE-----\nB\n-----END CERTIFICATE-----\n";
    let cert_c = b"-----BEGIN CERTIFICATE-----\nC\n-----END CERTIFICATE-----\n";
    let ts = 1700000000i64;

    let key1 = CertificateManager::compute_verification_key(cert_a, cert_b, ts);
    let key2 = CertificateManager::compute_verification_key(cert_a, cert_c, ts);
    assert_ne!(key1, key2, "different certs must produce different keys");
}

#[test]
fn test_compute_verification_key_hex_format() {
    let cert_a = b"-----BEGIN CERTIFICATE-----\nA\n-----END CERTIFICATE-----\n";
    let cert_b = b"-----BEGIN CERTIFICATE-----\nB\n-----END CERTIFICATE-----\n";
    let ts = 1700000000i64;

    let key = CertificateManager::compute_verification_key(cert_a, cert_b, ts);
    assert!(
        key.chars()
            .all(|c| c.is_ascii_hexdigit() && !c.is_ascii_lowercase()),
        "verification key must be UPPERCASE hex (Android format), got {}",
        key
    );
}

#[test]
fn test_compute_verification_key_android_conformance_vector() {
    let pubkey_a: Vec<u8> = (0x01u8..=0x20).collect();
    let pubkey_b: Vec<u8> = (0xA0u8..=0xBF).collect();
    let ts = 1700000000i64;

    let key = CertificateManager::compute_verification_key(&pubkey_a, &pubkey_b, ts);
    assert_eq!(key, "D95DFF82", "must match the Android SAS algorithm");
    let key_swapped = CertificateManager::compute_verification_key(&pubkey_b, &pubkey_a, ts);
    assert_eq!(key_swapped, "D95DFF82");
}

#[test]
fn test_extract_pubkey_der_roundtrip() {
    let manager = setup();
    let (cert_pem, key_pem) = generated(&manager, "pubkey-deviceaaaaaaaaaaaaaaaaaaa");
    let cert_der = der_of(&cert_pem);

    let pubkey_der =
        CertificateManager::extract_pubkey_der(&cert_der).expect("extract public key DER");

    let key = KeyPair::from_pem(std::str::from_utf8(&key_pem).expect("PEM text"))
        .expect("parse private key PEM");
    let expected = rcgen::PublicKeyData::subject_public_key_info(&key);
    assert_eq!(pubkey_der, expected);
    assert!(!pubkey_der.is_empty());
}

#[test]
fn test_store_peer_certificate_mismatch_leaves_stored_cert_untouched() {
    let mut manager = setup();
    let peer_id = "verify-first-deviceaaaaaaaaaaaaaaa";
    let (cert_pem1, _) = generated(&manager, peer_id);
    let (cert_pem2, _) = generated(&manager, peer_id);
    let cert_der1 = der_of(&cert_pem1);
    let cert_der2 = der_of(&cert_pem2);

    manager
        .store_peer_certificate(peer_id, &cert_der1)
        .expect("store peer certificate");
    assert!(manager.store_peer_certificate(peer_id, &cert_der2).is_err());

    let stored_pem = manager
        .load_peer_certificate_pem(peer_id)
        .expect("load peer certificate PEM");
    assert_eq!(
        der_of(&stored_pem),
        cert_der1,
        "a rejected certificate must never replace the stored one"
    );
    assert_eq!(
        String::from_utf8(stored_pem).expect("text").lines().collect::<Vec<_>>(),
        String::from_utf8(cert_pem1).expect("text").lines().collect::<Vec<_>>()
    );
}

#[test]
fn test_generate_certificate_not_before_one_year_back() {
    let manager = setup();
    let (cert_pem, _) = generated(&manager, "validity-deviceaaaaaaaaaaaaaaaaaa");
    let der = der_of(&cert_pem);
    let (_, cert) = parse_x509_certificate(&der).expect("parse certificate");
    let not_before = cert.validity().not_before.timestamp();

    let almost_a_year_ago = now_unix() - 360 * 24 * 60 * 60;
    let over_a_year_ago = now_unix() - 370 * 24 * 60 * 60;
    assert!(
        not_before < almost_a_year_ago,
        "notBefore must be about a year in the past"
    );
    assert!(
        not_before > over_a_year_ago,
        "notBefore must not be more than a year in the past"
    );
}

/// A certificate for `id` over an existing key, with its validity given by years.
fn certificate_between(id: &str, key_pem: &[u8], from: i32, to: i32) -> Vec<u8> {
    let key = KeyPair::from_pem(std::str::from_utf8(key_pem).expect("PEM text"))
        .expect("parse private key PEM");
    let mut params = CertificateParams::default();
    params.distinguished_name.push(DnType::CommonName, id);
    params.not_before = rcgen::date_time_ymd(from, 1, 1);
    params.not_after = rcgen::date_time_ymd(to, 1, 1);
    params
        .self_signed(&key)
        .expect("sign certificate")
        .pem()
        .into_bytes()
}

#[test]
fn test_ensure_own_certificate_regenerates_expired() {
    let mut manager = setup();
    let device_id = "expiry-deviceaaaaaaaaaaaaaaaaaaaa";
    let (_, key_pem) = generated(&manager, device_id);
    let expired_pem = certificate_between(device_id, &key_pem, 2019, 2020);
    manager
        .store_own_certificate(&expired_pem, &key_pem)
        .expect("store own certificate");
    assert!(manager.has_own_certificate());

    manager
        .ensure_own_certificate(device_id, "Expiry")
        .expect("ensure own certificate");

    let (new_pem, _) = manager
        .load_own_certificate()
        .expect("load own certificate");
    assert_ne!(
        new_pem, expired_pem,
        "an expired own certificate must be regenerated"
    );
    let der = der_of(&new_pem);
    let (_, new_cert) = parse_x509_certificate(&der).expect("parse certificate");
    assert!(
        new_cert.validity().not_after.timestamp() > now_unix(),
        "the regenerated certificate must be valid"
    );
}

#[test]
fn test_ensure_own_certificate_keeps_valid_cert() {
    let mut manager = setup();
    let device_id = "keep-device-aaaaaaaaaaaaaaaaaaaa";
    manager
        .ensure_own_certificate(device_id, "Keep")
        .expect("ensure own certificate");
    let (pem1, _) = manager
        .load_own_certificate()
        .expect("load own certificate");

    manager
        .ensure_own_certificate(device_id, "Keep")
        .expect("ensure own certificate");
    let (pem2, _) = manager
        .load_own_certificate()
        .expect("load own certificate");
    assert_eq!(pem1, pem2, "a valid own certificate must not be replaced");
}

/// Replays operations on an image of the directory.
fn replay(dir: &mut Directory, ops: &[FileOp]) {
    for op in ops {
        dir.apply(op);
    }
}

#[test]
fn test_store_own_certificate_key_is_owner_only() {
    let mut manager = setup();
    let (cert_pem, key_pem) = generated(&manager, "test-device-idaaaaaaaaaaaaaaaaaa");
    manager
        .store_own_certificate(&cert_pem, &key_pem)
        .expect("store own certificate");

    let mut disk = Directory::absent();
    replay(&mut disk, &manager.take_pending());
    assert!(disk.present);
    assert!(disk.owner_only, "certs dir must be owner-only");
    assert!(
        disk.files.get("own.key").expect("own.key").owner_only,
        "own.key must be owner-only"
    );
    assert_eq!(disk.read("own.crt").expect("own.crt"), cert_pem);
    assert_eq!(disk.read("own.key").expect("own.key"), key_pem);
}

#[test]
fn test_adopt_legacy_own_certificate_tightens_key_permissions() {
    let mut manager = setup();
    let device_id = "legacy-device-aaaaaaaaaaaaaaaaaa";
    let (cert_pem, key_pem) = generated(&manager, device_id);
    let mut dir = Directory::absent();
    dir.present = true;
    dir.put(format!("{}.crt", device_id), cert_pem.clone(), false);
    dir.put(format!("{}.key", device_id), key_pem, false);
    manager.load(dir);

    let adopted = manager
        .adopt_legacy_own_certificate(device_id)
        .expect("adopt legacy certificate");
    assert!(adopted);

    let mut disk = Directory::absent();
    disk.present = true;
    disk.put(format!("{}.crt", device_id), cert_pem.clone(), false);
    disk.put(format!("{}.key", device_id), b"key".to_vec(), false);
    replay(&mut disk, &manager.take_pending());
    assert!(
        disk.files.get("own.key").expect("own.key").owner_only,
        "adopted own.key must be owner-only"
    );
    assert_eq!(disk.read("own.crt").expect("own.crt"), cert_pem);
    assert!(!disk.has(&format!("{}.key", device_id)));
    assert!(!manager
        .adopt_legacy_own_certificate(device_id)
        .expect("nothing left to adopt"));
    assert_eq!(
        manager.own_certificate_cn().expect("own name").as_deref(),
        Some(device_id)
    );
}

#[test]
fn test_pem_to_der_rejects_multi_certificate_bundle() {
    let manager = setup();
    let (cert_pem, _) = generated(&manager, "bundle-deviceaaaaaaaaaaaaaaaaaaa");

    let single = pem_to_der(&cert_pem).expect("one certificate must still decode");
    assert!(!single.is_empty());
    assert_eq!(single, der_of(&cert_pem));

    let mut bundle = cert_pem.clone();
    if !bundle.ends_with(b"\n") {
        bundle.push(b'\n');
    }
    bundle.extend_from_slice(&cert_pem);

    let err = pem_to_der(&bundle).expect_err("a two-certificate bundle must be rejected");
    assert!(
        err.message().contains("exactly one"),
        "the error must name the single-certificate contract, got: {err:?}"
    );
}

#[test]
fn pem_comes_back_as_it_went() {
    let der: Vec<u8> = (0u8..=255).collect();
    let pem = der_to_pem(&der).expect("encode");
    let text = String::from_utf8(pem.clone()).expect("text");
    assert!(text.starts_with("-----BEGIN CERTIFICATE-----\n"));
    assert!(text.ends_with("-----END CERTIFICATE-----\n"));
    assert!(text.lines().all(|l| l.len() <= 64));
    assert_eq!(pem_to_der(&pem).expect("decode"), der);
    assert_eq!(der_of(&pem), der);
}

#[test]
fn malformed_pem_is_refused() {
    for bad in [
        &b"-----BEGIN CERTIFICATE-----\n!!!!\n-----END CERTIFICATE-----\n"[..],
        &[0xFFu8, 0xFE][..],
    ] {
        assert!(matches!(pem_to_der(bad), Err(Error::CertificateError(_))));
    }
}

#[test]
fn pem_ends_with_the_file_at_the_latest() {
    assert_eq!(pem_to_der(b"no markers").expect("nothing"), Vec::<u8>::new());
    assert_eq!(
        pem_to_der(b"-----BEGIN CERTIFICATE-----\r\n  AAEC \r\n").expect("decode"),
        vec![0, 1, 2]
    );
}

#[test]
fn test_generated_cert_carries_device_id_san() {
    let manager = setup();
    let device_id = "rust-connect-cert-test-123456789";
    let (cert_pem, _) = generated(&manager, device_id);

    let cert_der = pem_to_der(&cert_pem).expect("parse generated cert PEM to DER");
    let (_, cert) = parse_x509_certificate(&cert_der).expect("parse generated cert DER");

    let cn = cert
        .subject()
        .iter_common_name()
        .next()
        .and_then(|cn| cn.as_str().ok())
        .map(|s| s.to_string())
        .expect("cert has a CN");
    assert_eq!(cn, device_id, "CN must remain the device id");

    let attr_oids: Vec<_> = cert
        .subject()
        .iter_attributes()
        .map(|a| a.attr_type().clone())
        .collect();
    assert!(
        attr_oids.len() >= 3,
        "expected at least CN, OU, O in subject, got {} attributes",
        attr_oids.len()
    );
    assert_eq!(attr_oids[0], OID_X509_COMMON_NAME, "first RDN must be CN");
    assert_eq!(
        attr_oids[1], OID_X509_ORGANIZATIONAL_UNIT,
        "second RDN must be OU"
    );
    assert_eq!(
        attr_oids[2], OID_X509_ORGANIZATION_NAME,
        "third RDN must be O"
    );

    let san = cert
        .subject_alternative_name()
        .expect("parse SAN extension")
        .expect("cert must carry a subjectAltName (R1)");
    assert_eq!(san.value.general_names.len(), 1, "exactly one SAN entry");
    match &san.value.general_names[0] {
        GeneralName::DNSName(name) => assert_eq!(
            name.to_string(),
            device_id,
            "SAN dNSName must equal the device id verbatim"
        ),
        other => panic!("SAN entry must be dNSName, got {:?}", other),
    }
}

#[test]
fn test_generated_cert_san_accepts_underscore_id() {
    let manager = setup();
    let device_id = "rust_connect_test_device_aaaaaaa";
    let (cert_pem, _) = generated(&manager, device_id);

    let cert_der = pem_to_der(&cert_pem).expect("parse generated cert PEM to DER");
    let (_, cert) = parse_x509_certificate(&cert_der).expect("parse generated cert DER");

    let san = cert
        .subject_alternative_name()
        .expect("parse SAN extension")
        .expect("cert must carry a subjectAltName for the underscore id");
    assert_eq!(san.value.general_names.len(), 1);
    match &san.value.general_names[0] {
        GeneralName::DNSName(name) => assert_eq!(
            name.to_string(),
            device_id,
            "SAN dNSName must carry the underscore-bearing id verbatim"
        ),
        other => panic!("SAN entry must be dNSName, got {:?}", other),
    }
}

#[test]
fn test_generated_cert_validity_and_serial_unchanged_after_san() {
    let manager = setup();
    let device_id = "validity-and-serial-deviceaaaaaaaaa";
    let (cert_pem, _) = generated(&manager, device_id);

    let almost_ten_years = now_unix() + 9 * 365 * 24 * 60 * 60;
    let over_ten_years = now_unix() + 10 * 365 * 24 * 60 * 60 + 60 * 24 * 60 * 60;
    let cert_der = pem_to_der(&cert_pem).expect("parse generated cert PEM to DER");
    let (_, cert) = parse_x509_certificate(&cert_der).expect("parse generated cert DER");
    let not_after = cert.validity().not_after.timestamp();
    assert!(
        not_after > almost_ten_years,
        "notAfter must be roughly 10y ahead of now"
    );
    assert!(
        not_after < over_ten_years,
        "notAfter must not be more than ~10y ahead of now"
    );
    assert_eq!(
        cert.raw_serial().len(),
        20,
        "serial must be 20 bytes (RFC 3280)"
    );
}

/// The validity of the certificate that is made at `seconds`.
fn validity_at(seconds: i64) -> (i64, i64) {
    let id = "dated-device-aaaaaaaaaaaaaaaaaaaaaa";
    let (_, key_pem) = generated(&setup(), id);
    let key = String::from_utf8(key_pem).expect("key text");
    let now = Moment { seconds, nanos: 0 };
    let (cert_pem, _) =
        build_certificate(id, Ok(key), Ok(vec![0xFF; 20]), now).expect("build certificate");
    let der = der_of(&cert_pem);
    let (_, cert) = parse_x509_certificate(&der).expect("parse certificate");
    assert_eq!(cert.raw_serial()[0], 0x7F);
    (
        cert.validity().not_before.timestamp(),
        cert.validity().not_after.timestamp(),
    )
}

#[test]
fn certificates_are_valid_for_whole_days() {
    // 2023-11-14 22:13:20: from 2022-11-14 to 2033-11-11.
    assert_eq!(validity_at(1_700_000_000), (1_668_384_000, 2_015_280_000));
    // 2024-02-29 00:00:00: from 2023-03-01 to 2034-02-26.
    assert_eq!(validity_at(1_709_164_800), (1_677_628_800, 2_024_524_800));
}

#[test]
fn dates_beyond_the_year_9999_are_in_no_certificate() {
    let id = "dated-device-aaaaaaaaaaaaaaaaaaaaaa";
    let (_, key_pem) = generated(&setup(), id);
    let key = String::from_utf8(key_pem).expect("key text");
    let now = Moment {
        seconds: 253_402_300_799,
        nanos: 0,
    };
    assert!(matches!(
        build_certificate(id, Ok(key), Ok(vec![1; 20]), now),
        Err(Error::TlsError(_))
    ));
}

#[test]
fn a_device_id_that_is_no_ascii_gets_no_certificate() {
    let manager = setup();
    match manager.generate_certificate("gerät", "Test") {
        Err(Error::TlsError(message)) => assert!(message.contains("IA5String")),
        other => panic!("expected TlsError, got {other:?}"),
    }
}

#[test]
fn validity_includes_its_ends() {
    let manager = setup();
    let (_, key_pem) = generated(&manager, "test-device-idaaaaaaaaaaaaaaaaaa");
    let pem = certificate_between("test-device-idaaaaaaaaaaaaaaaaaa", &key_pem, 2020, 2021);
    let cert = parse_x509_der(&der_of(&pem)).expect("parse");
    let at = |seconds: i64, nanos: u32| Moment { seconds, nanos };
    assert!(!is_valid_at(&cert, at(1_577_836_799, 999_999_999)));
    assert!(is_valid_at(&cert, at(1_577_836_800, 0)));
    assert!(is_valid_at(&cert, at(1_609_459_200, 0)));
    assert!(!is_valid_at(&cert, at(1_609_459_200, 1)));
}

/// Replaces the part `from` of a certificate by `to`, and mends the lengths of
/// what it stands in.
fn patched(der: &[u8], from: &[u8], to: &[u8]) -> Vec<u8> {
    let at = der
        .windows(from.len())
        .position(|w| w == from)
        .expect("part");
    let mut out = der[..at].to_vec();
    out.extend_from_slice(to);
    out.extend_from_slice(&der[at + from.len()..]);
    // The certificate and its signed part, each with a length of two bytes.
    for header in [0, 4] {
        assert_eq!(&out[header..header + 2], &[0x30, 0x82]);
        let len = u16::from_be_bytes([out[header + 2], out[header + 3]]);
        let grown = usize::from(len) + to.len() - from.len();
        let bytes = u16::try_from(grown).expect("length").to_be_bytes();
        out[header + 2] = bytes[0];
        out[header + 3] = bytes[1];
    }
    out
}

#[test]
fn validity_counts_fractions_of_a_second() {
    let id = "test-device-idaaaaaaaaaaaaaaaaaa";
    let (_, key_pem) = generated(&setup(), id);
    let pem = certificate_between(id, &key_pem, 2051, 2052);
    let der = patched(
        &der_of(&pem),
        b"\x30\x22\x18\x0f20510101000000Z\x18\x0f20520101000000Z",
        b"\x30\x26\x18\x1120510101000000.5Z\x18\x1120520101000000.5Z",
    );
    let cert = parse_x509_der(&der).expect("parse");
    assert_eq!(cert.not_before.nanos, 500_000_000);
    let (first, last) = (2_556_144_000, 2_587_680_000);
    assert_eq!((cert.not_before.seconds, cert.not_after.seconds), (first, last));
    let at = |seconds: i64, nanos: u32| Moment { seconds, nanos };
    assert!(!is_valid_at(&cert, at(first, 200_000_000)));
    assert!(is_valid_at(&cert, at(first, 500_000_000)));
    assert!(is_valid_at(&cert, at(last, 200_000_000)));
    assert!(is_valid_at(&cert, at(last, 500_000_000)));
    assert!(!is_valid_at(&cert, at(last, 500_000_001)));
}

#[test]
fn a_start_in_the_longer_form_comes_after_its_own_time() {
    let id = "test-device-idaaaaaaaaaaaaaaaaaa";
    let (_, key_pem) = generated(&setup(), id);
    let pem = certificate_between(id, &key_pem, 2020, 2021);
    let der = patched(
        &der_of(&pem),
        b"\x30\x1e\x17\x0d200101000000Z\x17\x0d210101000000Z",
        b"\x30\x22\x18\x0f20200101000000Z\x18\x0f20210101000000Z",
    );
    let cert = parse_x509_der(&der).expect("parse");
    let (_, parsed) = parse_x509_certificate(&der).expect("parse");
    for (seconds, valid) in [
        (1_577_836_799, false),
        (1_577_836_800, false),
        (1_577_836_801, true),
        (1_609_459_200, true),
        (1_609_459_201, false),
    ] {
        let time = ASN1Time::from_timestamp(seconds).expect("time");
        assert_eq!(parsed.validity().is_valid_at(time), valid);
        assert_eq!(is_valid_at(&cert, Moment { seconds, nanos: 0 }), valid);
    }
}

#[test]
fn a_key_matches_whatever_its_algorithm_is_called() {
    let manager = setup();
    let (cert_pem, key_pem) = generated(&manager, "test-device-idaaaaaaaaaaaaaaaaaa");
    let der = patched(
        &der_of(&cert_pem),
        b"\x06\x09\x2a\x86\x48\x86\xf7\x0d\x01\x01\x01",
        b"\x06\x09\x2a\x86\x48\x86\xf7\x0d\x01\x01\x0a",
    );
    let pem = der_to_pem(&der).expect("encode");
    manager
        .validate_certificate(&pem, &key_pem)
        .expect("the same RSA key under another name");
}

#[test]
fn a_point_matches_in_either_form() {
    let manager = setup();
    let key = KeyPair::generate().expect("generate key");
    let key_pem = key.serialize_pem();
    let mut params = CertificateParams::default();
    params
        .distinguished_name
        .push(DnType::CommonName, "c".repeat(300));
    let cert = params.self_signed(&key).expect("sign certificate");
    manager
        .validate_certificate(cert.pem().as_bytes(), key_pem.as_bytes())
        .expect("both coordinates");

    let long = rcgen::PublicKeyData::subject_public_key_info(&key);
    let point = long[long.len() - 65..].to_vec();
    let with_sign = |sign: u8| {
        let mut short = long[..long.len() - 68].to_vec();
        short[1] -= 32;
        short.extend_from_slice(&[0x03, 0x22, 0x00, sign]);
        short.extend_from_slice(&point[1..33]);
        let der = patched(cert.der(), &long, &short);
        let pem = der_to_pem(&der).expect("encode");
        manager.validate_certificate(&pem, key_pem.as_bytes())
    };
    let odd = point[64] % 2;
    with_sign(2 + odd).expect("one coordinate and a sign");
    assert!(matches!(
        with_sign(3 - odd),
        Err(Error::Validation { field: Some(_), .. })
    ));
}

#[test]
fn keys_have_2048_bits_and_sign_with_sha512() {
    let (cert_pem, _) = generated(&setup(), "test-device-idaaaaaaaaaaaaaaaaaa");
    let der = der_of(&cert_pem);
    let (_, cert) = parse_x509_certificate(&der).expect("parse");
    match cert.public_key().parsed().expect("public key") {
        PublicKey::RSA(key) => assert_eq!(key.key_size(), 2048),
        other => panic!("expected an RSA key, got {other:?}"),
    }
    assert_eq!(
        cert.signature_algorithm.algorithm.to_id_string(),
        "1.2.840.113549.1.1.13"
    );
}

#[test]
fn a_key_is_the_start_of_a_digest() {
    assert_eq!(key_of_digest(&[0xDE, 0xAD, 0x0B, 0xEF, 0x55]), "DEAD0BEF");
}

#[test]
fn known_peers_are_those_with_a_certificate() {
    let mut manager = setup();
    let peer = "peer-deviceaaaaaaaaaaaaaaaaaaaaa";
    let (cert_pem, _) = generated(&manager, peer);
    assert!(manager.list_known_peers().expect("list").is_empty());
    manager
        .store_peer_certificate(peer, &der_of(&cert_pem))
        .expect("store peer certificate");
    assert_eq!(
        manager.list_known_peers().expect("list"),
        vec![peer.to_string()]
    );
}

#[test]
fn paths_stay_in_the_directory() {
    let manager = setup();
    let id = "test-device-idaaaaaaaaaaaaaaaaaa";
    assert_eq!(
        manager.cert_path(id).expect("path"),
        "/var/lib/certs/test-device-idaaaaaaaaaaaaaaaaaa.crt"
    );
    assert_eq!(manager.own_key_path(), "/var/lib/certs/own.key");
    assert!(manager.cert_path("../own").is_err());
}

#[test]
fn operations_bring_the_disk_to_where_the_image_is() {
    let mut manager = setup();
    let id = "test-device-idaaaaaaaaaaaaaaaaaa";
    let (cert_pem, key_pem) = generated(&manager, id);
    manager
        .store_certificate(id, &cert_pem, &key_pem)
        .expect("store test certificate");
    let mut disk = Directory::absent();
    replay(&mut disk, &manager.take_pending());

    let mut again = setup();
    again.load(disk);
    let (loaded_cert, loaded_key) = again.load_certificate(id).expect("load");
    assert_eq!(loaded_cert, cert_pem);
    assert_eq!(loaded_key, key_pem);
}
