use p384::ecdsa::signature::hazmat::PrehashSigner;
use p384::ecdsa::SigningKey;
use sev_core::records::{GuestPolicy, KeyInfo, PlatformInfo};
use sev_core::report::{AttestationReport, Signature, TcbVersion};
use sev_core::Error;
use sha2::{Digest, Sha384};

#[test]
fn test_attestation_report() {
    let expected: AttestationReport = AttestationReport {
        version: 0,
        guest_svn: 0,
        policy: GuestPolicy(0),
        family_id: [0; 16],
        image_id: [0; 16],
        vmpl: 0,
        sig_algo: 0,
        current_tcb: TcbVersion::default(),
        plat_info: PlatformInfo::default(),
        key_info: KeyInfo::default(),
        _reserved_0: 0,
        report_data: [0; 64],
        measurement: [0; 48],
        host_data: [0; 32],
        id_key_digest: [0; 48],
        author_key_digest: [0; 48],
        report_id: [0; 32],
        report_id_ma: [0; 32],
        reported_tcb: TcbVersion::default(),
        _reserved_1: [0; 24],
        chip_id: [0; 64],
        committed_tcb: TcbVersion::default(),
        current_build: 0,
        current_minor: 0,
        current_major: 0,
        _reserved_2: 0,
        committed_build: 0,
        committed_minor: 0,
        committed_major: 0,
        _reserved_3: 0,
        launch_tcb: TcbVersion::default(),
        _reserved_4: [0; 168],
        signature: Signature::default(),
    };

    assert_eq!(AttestationReport::default(), expected);
}

#[test]
fn test_attestation_report_default() {
    let expected: AttestationReport = AttestationReport {
        version: Default::default(),
        guest_svn: Default::default(),
        policy: GuestPolicy::default(),
        family_id: Default::default(),
        image_id: Default::default(),
        vmpl: Default::default(),
        sig_algo: Default::default(),
        current_tcb: TcbVersion::default(),
        plat_info: PlatformInfo::default(),
        key_info: KeyInfo::default(),
        _reserved_0: Default::default(),
        report_data: [0; 64],
        measurement: [0; 48],
        host_data: Default::default(),
        id_key_digest: [0; 48],
        author_key_digest: [0; 48],
        report_id: Default::default(),
        report_id_ma: Default::default(),
        reported_tcb: TcbVersion::default(),
        _reserved_1: Default::default(),
        chip_id: [0; 64],
        committed_tcb: TcbVersion::default(),
        current_build: Default::default(),
        current_minor: Default::default(),
        current_major: Default::default(),
        _reserved_2: Default::default(),
        committed_build: Default::default(),
        committed_minor: Default::default(),
        committed_major: Default::default(),
        _reserved_3: Default::default(),
        launch_tcb: TcbVersion::default(),
        _reserved_4: [0; 168],
        signature: Signature::default(),
    };

    assert_eq!(AttestationReport::default(), expected);
}

#[test]
fn test_attestation_report_clone() {
    let expected: AttestationReport = AttestationReport::default();

    let copy: AttestationReport = expected;

    assert_eq!(expected, copy);
}

#[test]
fn test_attestation_report_copy() {
    let expected: AttestationReport = AttestationReport::default();

    let copy: AttestationReport = expected;

    assert_eq!(expected, copy);
}

#[test]
fn test_attestation_report_serialization() {
    let original: AttestationReport = AttestationReport {
        version: 2,
        guest_svn: 1,
        policy: GuestPolicy(3),
        family_id: [1; 16],
        image_id: [2; 16],
        ..Default::default()
    };

    let binary = original.to_bytes();
    let from_binary: AttestationReport = AttestationReport::from_bytes(&binary).unwrap();
    assert_eq!(original, from_binary);
}

#[test]
fn test_attestation_report_fields() {
    let report: AttestationReport = AttestationReport {
        version: 2,
        guest_svn: 1,
        vmpl: 3,
        ..Default::default()
    };
    assert_eq!(report.version, 2);
    assert_eq!(report.guest_svn, 1);
    assert_eq!(report.vmpl, 3);
    assert_eq!(report.measurement, [0; 48]);
}

#[test]
fn test_report_default_serializes_to_zeroed_layout() {
    // The zeroed report serializes to exactly 1184 bytes, all zero, and
    // every named field, the signature's R and S included, reads back zero.
    let report = AttestationReport::default();
    let bytes = report.to_bytes();

    assert_eq!(bytes.len(), 1184);
    assert!(bytes.iter().all(|b| *b == 0));
    assert_eq!(report.version, 0);
    assert_eq!(report.guest_svn, 0);
    assert_eq!(report.policy, GuestPolicy(0));
    assert_eq!(report.vmpl, 0);
    assert_eq!(report.sig_algo, 0);
    assert_eq!(report.plat_info, PlatformInfo(0));
    assert_eq!(report.key_info, KeyInfo(0));
    assert_eq!(report.signature.r, [0u8; 72]);
    assert_eq!(report.signature.s, [0u8; 72]);
}

#[test]
fn test_report_from_bytes_rejects_wrong_size() {
    assert!(AttestationReport::from_bytes(&[0u8; 1183]).is_none());
    assert!(AttestationReport::from_bytes(&[0u8; 1185]).is_none());
    assert!(AttestationReport::from_bytes(&[]).is_none());
}

#[test]
fn test_report_round_trip_boundary_bytes() {
    // Every byte position, reserved regions included, survives the round
    // trip: deserialize a counter pattern and serialize it back.
    let mut bytes = [0u8; 1184];
    for (i, b) in bytes.iter_mut().enumerate() {
        *b = (i % 251) as u8;
    }
    let report = AttestationReport::from_bytes(&bytes).unwrap();
    assert_eq!(report.to_bytes(), bytes.to_vec());
}

/// A deterministic P-384 signing key for the signature tests.
fn test_signing_key() -> SigningKey {
    let mut secret = [0u8; 48];
    for (i, b) in secret.iter_mut().enumerate() {
        *b = (i + 1) as u8;
    }
    SigningKey::from_slice(&secret).unwrap()
}

/// Sign `report` over its measurable prefix and place the signature in its
/// little-endian wire fields.
fn sign_report(report: &mut AttestationReport, key: &SigningKey) {
    let bytes = report.to_bytes();
    let digest = Sha384::digest(&bytes[..0x2a0]);
    let sig: p384::ecdsa::Signature = key.sign_prehash(&digest).unwrap();
    let sig_bytes = sig.to_bytes();

    let mut r = [0u8; 72];
    let mut s = [0u8; 72];
    for i in 0..48 {
        r[i] = sig_bytes[47 - i];
        s[i] = sig_bytes[95 - i];
    }
    report.signature = Signature { r, s, _reserved: [0; 368] };
}

#[test]
fn test_report_verify_accepts_signed_report() {
    let key = test_signing_key();
    let mut report = AttestationReport {
        version: 2,
        guest_svn: 7,
        policy: GuestPolicy(0x31337),
        report_data: [0xAB; 64],
        ..Default::default()
    };
    sign_report(&mut report, &key);

    let vek = key.verifying_key().to_sec1_point(false);
    assert_eq!(report.verify(vek.as_ref()), Ok(()));
}

#[test]
fn test_report_verify_rejects_tampered_report() {
    let key = test_signing_key();
    let mut report = AttestationReport::default();
    sign_report(&mut report, &key);
    let vek = key.verifying_key().to_sec1_point(false);
    assert_eq!(report.verify(vek.as_ref()), Ok(()));

    // Any change inside the measured prefix must invalidate the signature.
    let mut tampered = report;
    tampered.guest_svn = 1;
    assert_eq!(tampered.verify(vek.as_ref()), Err(Error::Verification));

    let mut tampered = report;
    tampered.measurement[0] ^= 1;
    assert_eq!(tampered.verify(vek.as_ref()), Err(Error::Verification));

    // A wrong key must not accept the report either.
    let mut other_secret = [7u8; 48];
    other_secret[0] = 1;
    let other = SigningKey::from_slice(&other_secret).unwrap();
    let other_vek = other.verifying_key().to_sec1_point(false);
    assert_eq!(report.verify(other_vek.as_ref()), Err(Error::Verification));
}

#[test]
fn test_report_verify_rejects_malformed_inputs() {
    let key = test_signing_key();
    let mut report = AttestationReport::default();
    sign_report(&mut report, &key);

    // A key that is no SEC1 point is a crypto error, not a verification
    // failure.
    assert_eq!(report.verify(&[1, 2, 3]), Err(Error::Crypto));

    // An all-zero signature is out of range for P-384 and must be rejected
    // as malformed.
    let vek = key.verifying_key().to_sec1_point(false);
    let zeroed = AttestationReport::default();
    assert_eq!(zeroed.verify(vek.as_ref()), Err(Error::Crypto));
}
