use sev_core::key::Key;
use sev_core::session::{
    Build, HeaderFlags, Measurement, Policy, Session, Version,
};
use hmac::{Hmac, KeyInit, Mac};
use sev_core::Error;
use sha2::{Digest, Sha256};

const DIGEST_EMPTY: [u8; 32] = [
    0xe3, 0xb0, 0xc4, 0x42, 0x98, 0xfc, 0x1c, 0x14, 0x9a, 0xfb, 0xf4, 0xc8, 0x99, 0x6f, 0xb9,
    0x24, 0x27, 0xae, 0x41, 0xe4, 0x64, 0x9b, 0x93, 0x4c, 0xa4, 0x95, 0x99, 0x1b, 0x78, 0x52,
    0xb8, 0x55,
];

const MEASURE: [u8; 32] = [
    0x6f, 0xaa, 0xb2, 0xda, 0xae, 0x38, 0x9b, 0xcd, 0x34, 0x05, 0xa0, 0x5d, 0x6c, 0xaf, 0xe3,
    0x3c, 0x04, 0x14, 0xf7, 0xbe, 0xdd, 0x0b, 0xae, 0x19, 0xba, 0x5f, 0x38, 0xb7, 0xfd, 0x16,
    0x64, 0xea,
];

const MNONCE: [u8; 16] = [
    0x4f, 0xbe, 0x0b, 0xed, 0xba, 0xd6, 0xc8, 0x6a, 0xe8, 0xf6, 0x89, 0x71, 0xd1, 0x03, 0xe5,
    0x54,
];

const TIK: [u8; 16] = [
    0x66, 0x32, 0x0d, 0xb7, 0x31, 0x58, 0xa3, 0x5a, 0x25, 0x5d, 0x05, 0x17, 0x58, 0xe9, 0x5e,
    0xd4,
];

fn test_build() -> Build {
    Build { version: Version { major: 0x00, minor: 0x12 }, build: 0x0f }
}

fn test_measurement() -> Measurement {
    Measurement { measure: MEASURE.to_vec(), mnonce: MNONCE.to_vec() }
}

#[test]
fn session() {
    let session = Session::from_keys(
        Policy::default(),
        Key::new(vec![0u8; 16]),
        Key::new(vec![0u8; 16]),
    );

    let launch = session.session([0u8; 16], [0u8; 16], Key::zeroed(16));

    assert_eq!(launch.wrap_iv, [0u8; 16]);

    assert_eq!(launch.nonce, [0u8; 16]);

    assert_eq!(
        launch.wrap_tk,
        [
            0x21, 0x37, 0xbc, 0x7f, 0x9b, 0xb8, 0xbd, 0x7c, 0x3e, 0x55, 0xa5, 0x76, 0xa1, 0x5d,
            0x34, 0x54, 0xb3, 0x85, 0x6b, 0x8b, 0xa2, 0x7a, 0xfa, 0xdf, 0x46, 0xdc, 0xfe, 0xe9,
            0xf0, 0x2c, 0x02, 0xc4,
        ]
    );

    assert_eq!(
        launch.wrap_mac,
        [
            0x31, 0x76, 0xc0, 0x75, 0x27, 0x38, 0xbd, 0x9d, 0x5e, 0x86, 0x68, 0x95, 0x34, 0x02,
            0x0f, 0x52, 0x8c, 0x08, 0x8f, 0x16, 0x23, 0x88, 0x26, 0xb0, 0x00, 0xb3, 0x27, 0xde,
            0xe6, 0xae, 0xed, 0x7d,
        ]
    );

    assert_eq!(
        launch.policy_mac,
        [
            0xaa, 0x78, 0x55, 0xe1, 0x38, 0x39, 0xdd, 0x76, 0x7c, 0xd5, 0xda, 0x7c, 0x1f, 0xf5,
            0x03, 0x65, 0x40, 0xc9, 0x26, 0x4b, 0x7a, 0x80, 0x30, 0x29, 0x31, 0x5e, 0x55, 0x37,
            0x52, 0x87, 0xb4, 0xaf,
        ]
    );
}

#[test]
fn verify() {
    let digest = DIGEST_EMPTY;

    let measurement = test_measurement();

    let policy = Policy::default();

    let tek = Key::new(vec![0u8; 16]);
    let tik = Key::new(TIK.to_vec());

    let session = Session::from_keys(policy, tek, tik);
    let build = test_build();

    session.verify(&digest, build, measurement).unwrap();
}

#[test]
fn test_end_to_end_measure_verify() {
    // Walk the whole state machine: construct, start, measure an empty
    // buffer, and verify against the known-good measurement for the
    // SHA-256 digest of nothing.
    let session = Session::from_keys(
        Policy::default(),
        Key::new(vec![0u8; 16]),
        Key::new(TIK.to_vec()),
    );

    let start = session.start(Key::zeroed(16)).unwrap();
    assert_eq!(start.policy, Policy::default());
    assert_eq!(start.session.nonce.len(), 16);
    assert_eq!(start.session.wrap_iv.len(), 16);
    assert_eq!(start.session.wrap_tk.len(), 32);

    let measuring = session.measure();
    let verified = measuring.verify(test_build(), test_measurement()).unwrap();

    // The verified session carries the agreed measurement into the secret
    // packet MAC.
    let secret = verified.secret_with_iv(HeaderFlags::default(), [0u8; 16], b"launch secret");
    assert_eq!(secret.ciphertext.len(), 13);
}

#[test]
fn test_verify_rejects_tampering() {
    // Any single altered byte of digest, firmware version or nonce, and
    // any flipped policy bit, must make verification fail.
    let build = test_build();

    let fresh = |policy: Policy| {
        Session::from_keys(policy, Key::new(vec![0u8; 16]), Key::new(TIK.to_vec()))
    };

    // The untouched inputs pass.
    assert!(fresh(Policy::default())
        .verify(&DIGEST_EMPTY, build, test_measurement())
        .is_ok());

    // Flip each bit of the 4-byte policy wire form.
    for bit in 0..16 {
        let policy = Policy { flags: 1u16 << bit, ..Policy::default() };
        let r = fresh(policy).verify(&DIGEST_EMPTY, build, test_measurement());
        assert!(matches!(r, Err(Error::Verification)));
    }
    for bit in 0..8 {
        let policy = Policy {
            minfw: Version { major: 1u8 << bit, minor: 0 },
            ..Policy::default()
        };
        let r = fresh(policy).verify(&DIGEST_EMPTY, build, test_measurement());
        assert!(matches!(r, Err(Error::Verification)));
        let policy = Policy {
            minfw: Version { major: 0, minor: 1u8 << bit },
            ..Policy::default()
        };
        let r = fresh(policy).verify(&DIGEST_EMPTY, build, test_measurement());
        assert!(matches!(r, Err(Error::Verification)));
    }

    // Alter one byte of the digest.
    for i in 0..32 {
        let mut digest = DIGEST_EMPTY;
        digest[i] ^= 1;
        let r = fresh(Policy::default()).verify(&digest, build, test_measurement());
        assert!(matches!(r, Err(Error::Verification)));
    }

    // Alter one byte of the measurement nonce.
    for i in 0..16 {
        let mut msr = test_measurement();
        msr.mnonce[i] ^= 1;
        let r = fresh(Policy::default()).verify(&DIGEST_EMPTY, build, msr);
        assert!(matches!(r, Err(Error::Verification)));
    }

    // Alter the firmware version.
    let wrong_build = Build { version: Version { major: 1, minor: 0x12 }, build: 0x0f };
    let r = fresh(Policy::default()).verify(&DIGEST_EMPTY, wrong_build, test_measurement());
    assert!(matches!(r, Err(Error::Verification)));
}

#[test]
fn test_measuring_buffer_matches_external_digest() {
    // Feeding bytes through update_data, in pieces, must verify against a
    // measurement computed independently over the SHA-256 digest of the
    // same bytes, and agree with the externally-supplied-digest path.
    let data = b"firmware blob for measurement";
    let digest = Sha256::digest(data);

    let mut mac = Hmac::<Sha256>::new_from_slice(&TIK).unwrap();
    mac.update(&[0x04]);
    mac.update(&[0x00, 0x12, 0x0f]);
    mac.update(&[0, 0, 0, 0]);
    mac.update(&digest);
    mac.update(&MNONCE);
    let msr = Measurement {
        measure: mac.finalize().into_bytes().to_vec(),
        mnonce: MNONCE.to_vec(),
    };

    let tek = || Key::new(vec![0u8; 16]);
    let tik = || Key::new(TIK.to_vec());

    let mut measuring = Session::from_keys(Policy::default(), tek(), tik()).measure();
    measuring.update_data(&data[..7]);
    measuring.update_data(&data[7..]);
    assert!(measuring.verify(test_build(), msr.clone()).is_ok());

    let with_digest = Session::from_keys(Policy::default(), tek(), tik())
        .measure()
        .verify_with_digest(test_build(), msr, &digest);
    assert!(with_digest.is_ok());

    // The empty buffer verifies against the golden measurement for the
    // digest of nothing.
    let empty_buffered = Session::from_keys(Policy::default(), tek(), tik())
        .measure()
        .verify(test_build(), test_measurement());
    assert!(empty_buffered.is_ok());
}

#[test]
fn test_mock_verify_bypasses_comparison() {
    // The explicit bypass accepts any measurement without comparison.
    let msr = Measurement { measure: vec![0xEE; 32], mnonce: vec![0x11; 16] };
    let verified = Session::from_keys(
        Policy::default(),
        Key::new(vec![0u8; 16]),
        Key::new(vec![0u8; 16]),
    )
    .mock_verify(msr);

    let secret = verified.secret_with_iv(HeaderFlags::default(), [0u8; 16], b"x");
    assert_eq!(secret.ciphertext.len(), 1);
}

#[test]
fn test_secret_packet_shape_and_ctr_involution() {
    // The ciphertext is exactly as long as the plaintext, carries the
    // caller's flags and counter block, and enciphering it again under the
    // same key and counter block gives the plaintext back: the cipher is a
    // pure keystream XOR, so the wrapper cannot be handing its input back.
    let verified = Session::from_keys(
        Policy::default(),
        Key::new(vec![3u8; 16]),
        Key::new(TIK.to_vec()),
    )
    .mock_verify(test_measurement());

    let plaintext = b"the launch secret to inject";
    let flags = HeaderFlags(0xA5A5A5A5);
    let iv = [9u8; 16];

    let packet = verified.secret_with_iv(flags, iv, plaintext);
    assert_eq!(packet.header.flags, flags);
    assert_eq!(packet.header.iv, iv.to_vec());
    assert_eq!(packet.header.mac.len(), 32);
    assert_eq!(packet.ciphertext.len(), plaintext.len());
    assert_ne!(packet.ciphertext, plaintext.to_vec());

    let unwrapped = verified.secret_with_iv(flags, iv, &packet.ciphertext);
    assert_eq!(unwrapped.ciphertext, plaintext.to_vec());

    // Determinism: the same inputs give the same packet.
    let again = verified.secret_with_iv(flags, iv, plaintext);
    assert_eq!(again, packet);

    // The drawn-counter-block variant produces a fresh 16-byte counter
    // block and the same shape.
    let drawn = verified.secret(flags, plaintext).unwrap();
    assert_eq!(drawn.header.iv.len(), 16);
    assert_eq!(drawn.ciphertext.len(), plaintext.len());
}

#[test]
fn test_derive_is_deterministic_and_label_bound() {
    // The KDF is a pure function of secret, length, context and label, and
    // distinct labels or contexts give different outputs.
    let secret = Key::new(vec![0x42; 16]);

    let a = secret.derive(16, &[1, 2, 3], b"label-one");
    let b = secret.derive(16, &[1, 2, 3], b"label-one");
    assert_eq!(a.as_slice(), b.as_slice());

    let c = secret.derive(16, &[1, 2, 3], b"label-two");
    assert_ne!(a.as_slice(), c.as_slice());

    let d = secret.derive(16, &[1, 2, 4], b"label-one");
    assert_ne!(a.as_slice(), d.as_slice());

    // Lengths other than one block: truncation and multi-block outputs.
    let short = secret.derive(5, &[], b"label-one");
    assert_eq!(short.as_slice().len(), 5);
    let long = secret.derive(80, &[], b"label-one");
    assert_eq!(long.as_slice().len(), 80);
    // The requested length is mixed into every block, so outputs of
    // different lengths are independent, and successive blocks differ.
    let one_block = secret.derive(32, &[], b"label-one");
    assert_ne!(&long.as_slice()[..32], one_block.as_slice());
    assert_ne!(&long.as_slice()[..32], &long.as_slice()[32..64]);
}

#[test]
fn test_try_from_draws_fresh_keys() {
    // Fresh sessions draw their transport keys from the entropy source;
    // two sessions agreeing on 32 key bytes would be astronomically
    // unlikely.
    let a = Session::try_from(Policy::default()).unwrap();
    let b = Session::try_from(Policy::default()).unwrap();

    let launch_a = a.session([0u8; 16], [0u8; 16], Key::zeroed(16));
    let launch_b = b.session([0u8; 16], [0u8; 16], Key::zeroed(16));
    assert_ne!(launch_a.wrap_tk, launch_b.wrap_tk);
}

#[test]
fn test_start_draws_fresh_nonce_and_iv() {
    let session = Session::from_keys(
        Policy::default(),
        Key::new(vec![0u8; 16]),
        Key::new(vec![0u8; 16]),
    );

    let a = session.start(Key::zeroed(16)).unwrap();
    let b = session.start(Key::zeroed(16)).unwrap();

    // Nonce and counter block are drawn per call; a repeat would be a
    // protocol violation.
    assert_ne!((a.session.nonce.clone(), a.session.wrap_iv.clone()),
               (b.session.nonce.clone(), b.session.wrap_iv.clone()));

    // The descriptor is consistent with the deterministic computation for
    // the drawn nonce and counter block.
    let mut nonce = [0u8; 16];
    nonce.copy_from_slice(&a.session.nonce);
    let mut iv = [0u8; 16];
    iv.copy_from_slice(&a.session.wrap_iv);
    let recomputed = session.session(nonce, iv, Key::zeroed(16));
    assert_eq!(recomputed, a.session);
}

#[test]
fn test_policy_wire_bytes() {
    // The policy serializes field by field, little-endian, into four bytes.
    let policy = Policy { flags: 0x0201, minfw: Version { major: 3, minor: 4 } };
    assert_eq!(policy.bytes(), vec![0x01, 0x02, 3, 4]);
    assert_eq!(Policy::default().bytes(), vec![0, 0, 0, 0]);
}

#[test]
fn test_session_descriptor_nonzero_golden() {
    // A second fixed vector with nothing zero, so that a derivation chain
    // that merely happens to agree on all-zero inputs cannot pass: distinct
    // shared secret, nonce, counter block, transport keys and policy.
    let session = Session::from_keys(
        Policy { flags: 1, minfw: Version { major: 0, minor: 0x12 } },
        Key::new(vec![4u8; 16]),
        Key::new(vec![5u8; 16]),
    );

    let launch = session.session([2u8; 16], [3u8; 16], Key::new(vec![1u8; 16]));

    assert_eq!(launch.nonce, [2u8; 16]);
    assert_eq!(launch.wrap_iv, [3u8; 16]);
    assert_eq!(
        launch.wrap_tk,
        [
            0xb7, 0x75, 0xf2, 0x53, 0xaf, 0x3c, 0x9c, 0x40, 0x0d, 0x56, 0x46, 0x16, 0x40, 0x52,
            0xd9, 0xde, 0x2f, 0xcf, 0xc8, 0x20, 0x8a, 0x75, 0x8d, 0xec, 0xa4, 0x79, 0xb8, 0x3c,
            0x51, 0x74, 0x2d, 0xee,
        ]
    );
    assert_eq!(
        launch.wrap_mac,
        [
            0x86, 0x6f, 0x99, 0xbd, 0xc1, 0x2d, 0x61, 0x08, 0x69, 0xd4, 0xf2, 0xee, 0x48, 0x55,
            0xb4, 0x3d, 0x4c, 0x11, 0x84, 0xd7, 0x5c, 0x72, 0xaa, 0xaa, 0x8f, 0x6e, 0x1d, 0x40,
            0xa3, 0x85, 0xa4, 0x71,
        ]
    );
    assert_eq!(
        launch.policy_mac,
        [
            0xcc, 0x14, 0x27, 0xee, 0xb9, 0xd3, 0x76, 0x60, 0x56, 0xd6, 0xd1, 0x21, 0xbf, 0x18,
            0xd9, 0x52, 0xe6, 0xc5, 0xe2, 0x4b, 0x6e, 0xf5, 0x39, 0x44, 0xf2, 0xbd, 0x4e, 0xd4,
            0x8f, 0x88, 0xe3, 0x55,
        ]
    );
}

#[test]
fn test_key_material_construction() {
    // Construction fixes the length; zero-length and multi-chunk random
    // lengths are all honoured exactly.
    assert_eq!(Key::zeroed(16).as_slice(), &[0u8; 16]);
    assert_eq!(Key::zeroed(0).as_slice(), &[]);
    assert_eq!(Key::new(vec![7, 8, 9]).as_slice(), &[7, 8, 9]);

    assert_eq!(Key::random(0).unwrap().as_slice().len(), 0);
    assert_eq!(Key::random(16).unwrap().as_slice().len(), 16);
    assert_eq!(Key::random(33).unwrap().as_slice().len(), 33);

    // Deriving zero bytes is the empty key.
    let secret = Key::new(vec![0x42; 16]);
    assert_eq!(secret.derive(0, &[], b"label").as_slice().len(), 0);
}
