use tee_device::device::{TestResult, ecdh_secrets_verdict};
use tee_device::keys::SlotKeypair;
use tee_device::text::{bytes_to_hex, u8_decimal};

#[test]
fn sign_round_trip() {
    let keypair = SlotKeypair::generate();
    let message = b"hello world".to_vec();
    let signature = keypair.sign(&message).expect("signing succeeds");
    assert!(keypair.verify(&message, &signature));
}

#[test]
fn any_flipped_signature_byte_fails_verification() {
    let keypair = SlotKeypair::generate();
    let message = b"hello world".to_vec();
    let signature = keypair.sign(&message).expect("signing succeeds");
    for i in 0..signature.len() {
        let mut tampered = signature.clone();
        tampered[i] ^= 0x01;
        assert!(!keypair.verify(&message, &tampered));
    }
}

#[test]
fn any_flipped_message_byte_fails_verification() {
    let keypair = SlotKeypair::generate();
    let message = b"hello world".to_vec();
    let signature = keypair.sign(&message).expect("signing succeeds");
    for i in 0..message.len() {
        let mut tampered = message.clone();
        tampered[i] ^= 0x01;
        assert!(!keypair.verify(&tampered, &signature));
    }
}

#[test]
fn ecdh_is_symmetric() {
    let a = SlotKeypair::generate();
    let b = SlotKeypair::generate();
    let ab = a.ecdh(&b).expect("key agreement succeeds");
    let ba = b.ecdh(&a).expect("key agreement succeeds");
    assert_eq!(ab, ba);
    assert!(!ab.is_empty());
}

#[test]
fn ecdh_with_different_peers_differs() {
    let a = SlotKeypair::generate();
    let b = SlotKeypair::generate();
    let c = SlotKeypair::generate();
    assert_ne!(b.compact_bytes(), c.compact_bytes());
    let ab = a.ecdh(&b).expect("key agreement succeeds");
    let ac = a.ecdh(&c).expect("key agreement succeeds");
    assert_ne!(ab, ac);
}

#[test]
fn generated_keypairs_are_distinct() {
    let a = SlotKeypair::generate();
    let b = SlotKeypair::generate();
    assert_ne!(a.compact_bytes(), b.compact_bytes());
}

#[test]
fn duplicated_keypair_matches_the_original() {
    let a = SlotKeypair::generate();
    let d = a.dup();
    assert_eq!(a.compact_bytes(), d.compact_bytes());
    let message = b"hello world".to_vec();
    let signature = d.sign(&message).expect("signing succeeds");
    assert!(a.verify(&message, &signature));
}

#[test]
fn verdict_on_equal_secrets_passes() {
    let device_secret = vec![0x01u8, 0x02, 0x03];
    let other_secret = vec![0x01u8, 0x02, 0x03];
    let result = ecdh_secrets_verdict(&device_secret, &other_secret);
    match result {
        TestResult::Pass(value) => assert_eq!(value, "ok"),
        other => panic!("equal secrets did not pass: {:?}", other),
    }
}

#[test]
fn verdict_on_diverging_secrets_renders_both_in_hex() {
    let device_secret = vec![0x01u8, 0x02];
    let other_secret = vec![0xabu8, 0x00, 0xff];
    let result = ecdh_secrets_verdict(&device_secret, &other_secret);
    match result {
        TestResult::Mismatch { expected, actual } => {
            assert_eq!(expected, "0x0102");
            assert_eq!(actual, "0xab00ff");
            assert_ne!(expected, actual);
            assert!(expected[2..].chars().all(|c| c.is_ascii_hexdigit()));
            assert!(actual[2..].chars().all(|c| c.is_ascii_hexdigit()));
        },
        other => panic!("diverging secrets did not mismatch: {:?}", other),
    }
}

#[test]
fn hex_rendering_is_exact() {
    assert_eq!(bytes_to_hex(&vec![]), "0x");
    assert_eq!(bytes_to_hex(&vec![0x00u8, 0xab, 0x7f]), "0x00ab7f");
}

#[test]
fn decimal_rendering_is_exact() {
    assert_eq!(u8_decimal(0), "0");
    assert_eq!(u8_decimal(9), "9");
    assert_eq!(u8_decimal(10), "10");
    assert_eq!(u8_decimal(42), "42");
    assert_eq!(u8_decimal(100), "100");
    assert_eq!(u8_decimal(255), "255");
}
