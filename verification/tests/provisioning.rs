use tee_device::Error;
use tee_device::device::Device;
use tee_device::element::{MemElement, SecureElement};
use tee_device::manager::{compact_key_in_slot, generate_compact_key_in_slot};

#[test]
fn provision_first_try() {
    let mut element = MemElement::new();
    let device = Device::new(0);
    let keypair = device.provision(&mut element).expect("provisioning succeeds");
    assert!(!keypair.compact_bytes().is_empty());
    assert_eq!(element.generate_call_count(), 1);
    assert_eq!(element.delete_call_count(), 0);
}

#[test]
fn provision_retries_twice() {
    let mut element = MemElement::new();
    element.set_read_failures(2);
    let device = Device::new(0);
    let result = device.provision(&mut element);
    assert!(result.is_ok());
    assert_eq!(element.generate_call_count(), 3);
    assert_eq!(element.delete_call_count(), 2);
}

#[test]
fn provision_retries_to_the_limit() {
    let mut element = MemElement::new();
    element.set_read_failures(10);
    let device = Device::new(7);
    let result = device.provision(&mut element);
    assert!(result.is_ok());
    assert_eq!(element.generate_call_count(), 11);
    assert_eq!(element.delete_call_count(), 10);
}

#[test]
fn provision_gives_up_after_eleven_attempts() {
    let mut element = MemElement::new();
    element.set_read_failures(11);
    let device = Device::new(0);
    let result = device.provision(&mut element);
    assert!(matches!(result, Err(Error::Hardware)));
    assert_eq!(element.generate_call_count(), 11);
    assert_eq!(element.delete_call_count(), 10);
}

#[test]
fn provision_stops_when_generation_fails() {
    let mut element = MemElement::new();
    element.set_generate_works(false);
    let device = Device::new(0);
    let result = device.provision(&mut element);
    assert!(matches!(result, Err(Error::Hardware)));
    assert_eq!(element.generate_call_count(), 1);
    assert_eq!(element.delete_call_count(), 0);
}

#[test]
fn provision_aborts_when_cleanup_fails() {
    let mut element = MemElement::new();
    element.set_read_failures(1);
    element.set_delete_works(false);
    let device = Device::new(0);
    let result = device.provision(&mut element);
    assert!(matches!(result, Err(Error::Hardware)));
    assert_eq!(element.generate_call_count(), 1);
    assert_eq!(element.delete_call_count(), 1);
}

#[test]
fn retrieve_equals_provision_without_create() {
    let mut element = MemElement::new();
    element.generate_keypair(5).expect("generation succeeds");
    let retrieved = compact_key_in_slot(&mut element, 5).expect("slot holds a keypair");
    let device = Device::new(5);
    let provisioned = device
        .get_keypair(&mut element, false)
        .expect("slot still holds a keypair");
    assert_eq!(retrieved.compact_bytes(), provisioned.compact_bytes());
}

#[test]
fn retrieve_vacant_slot_is_a_hardware_error() {
    let mut element = MemElement::new();
    let result = compact_key_in_slot(&mut element, 3);
    assert!(matches!(result, Err(Error::Hardware)));
}

#[test]
fn retrieve_reports_injected_failure() {
    let mut element = MemElement::new();
    element.generate_keypair(0).expect("generation succeeds");
    element.set_read_failures(1);
    let result = compact_key_in_slot(&mut element, 0);
    assert!(result.is_err());
    let result = compact_key_in_slot(&mut element, 0);
    assert!(result.is_ok());
}

#[test]
fn retrieve_corrupted_slot_is_a_format_error() {
    let mut element = MemElement::new();
    element.generate_keypair(0).expect("generation succeeds");
    element.corrupt_slot(0);
    let result = compact_key_in_slot(&mut element, 0);
    assert!(matches!(result, Err(Error::Format)));
}

#[test]
fn provisioning_replaces_a_corrupted_slot() {
    let mut element = MemElement::new();
    element.generate_keypair(0).expect("generation succeeds");
    element.corrupt_slot(0);
    let result = generate_compact_key_in_slot(&mut element, 0);
    assert!(result.is_ok());
    assert!(compact_key_in_slot(&mut element, 0).is_ok());
}
