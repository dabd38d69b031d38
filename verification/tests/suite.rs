use tee_device::Error;
use tee_device::device::{Device, Test, TestResult};
use tee_device::element::{MemElement, SecureElement};

#[test]
fn test_names() {
    assert_eq!(Test::MinerKey(3).name(), "miner_key(3)");
    assert_eq!(Test::Sign(0).name(), "sign(0)");
    assert_eq!(Test::Ecdh(5).name(), "ecdh(5)");
    assert_eq!(Test::MinerKey(42).name(), "miner_key(42)");
    assert_eq!(Test::Sign(255).name(), "sign(255)");
}

#[test]
fn device_info_and_config() {
    let device = Device::new(9);
    let info = device.get_info().expect("info is always available");
    assert_eq!(info.slot, 9);
    assert!(device.get_config().is_ok());
}

#[test]
fn fixed_test_list_in_order() {
    let device = Device::new(0);
    let tests = device.get_tests();
    assert_eq!(tests.len(), 3);
    assert!(matches!(tests[0], Test::MinerKey(0)));
    assert!(matches!(tests[1], Test::Sign(0)));
    assert!(matches!(tests[2], Test::Ecdh(0)));
}

#[test]
fn end_to_end_all_tests_pass() {
    let mut element = MemElement::new();
    let device = Device::new(0);
    let keypair = device.provision(&mut element).expect("provisioning succeeds");
    let tests = device.get_tests();
    let mut outcomes = Vec::new();
    for test in &tests {
        outcomes.push(test.run(&mut element));
    }
    match &outcomes[0] {
        TestResult::Pass(value) => assert_eq!(*value, keypair.public_b58()),
        other => panic!("miner key test did not pass: {:?}", other),
    }
    match &outcomes[1] {
        TestResult::Pass(value) => assert_eq!(value, "ok"),
        other => panic!("sign test did not pass: {:?}", other),
    }
    match &outcomes[2] {
        TestResult::Pass(value) => assert_eq!(value, "ok"),
        other => panic!("ecdh test did not pass: {:?}", other),
    }
}

#[test]
fn end_to_end_corrupted_key_is_a_format_failure() {
    let mut element = MemElement::new();
    let device = Device::new(0);
    device.provision(&mut element).expect("provisioning succeeds");
    element.corrupt_slot(0);
    let result = Test::MinerKey(0).run(&mut element);
    assert!(matches!(result, TestResult::Fail(Error::Format)));
}

#[test]
fn tests_fail_on_a_vacant_slot() {
    let mut element = MemElement::new();
    for test in &Device::new(4).get_tests() {
        let result = test.run(&mut element);
        assert!(matches!(result, TestResult::Fail(Error::Hardware)));
    }
}

#[test]
fn miner_key_rendering_decodes_back_to_the_stored_key() {
    let mut element = MemElement::new();
    let device = Device::new(0);
    let keypair = device.provision(&mut element).expect("provisioning succeeds");
    let result = Test::MinerKey(0).run(&mut element);
    let rendered = match result {
        TestResult::Pass(value) => value,
        other => panic!("miner key test did not pass: {:?}", other),
    };
    let decoded: helium_crypto::PublicKey = rendered.parse().expect("pass value is base58-check");
    assert_eq!(&decoded.to_vec(), keypair.compact_bytes());
}
