//! The device surface: a slot-addressed secure-element identity, its
//! info/config snapshots, and the fixed self-test suite that validates key
//! retrieval, signing and key agreement against the element.

use vstd::prelude::*;

use crate::Error;
use crate::element::{ElementModel, SecureElement, SlotContent, slot_content};
use crate::keys::{SlotKeypair, b58_of, sig_verifies};
use crate::manager::{
    compact_key_in_slot, generate_compact_key_in_slot, keypair_result, provision_budget_ok,
};
use crate::text::{bytes_equal, bytes_to_hex, dec_digits, hex_render, u8_decimal};

verus! {

/// A single addressable secure-element identity.
#[derive(Debug)]
pub struct Device {
    /// The hardware slot index this device's keypair lives in.
    pub slot: u8,
}

/// Read-only snapshot describing a device.
#[derive(Debug, Clone, Copy, PartialEq, Eq, Structural)]
pub struct Info {
    /// The device's slot index.
    pub slot: u8,
}

/// Device configuration; no fields yet.
#[derive(Debug, Clone, Copy, PartialEq, Eq, Structural)]
pub struct Config {}

/// One self-test, tagged with the slot it exercises.
#[derive(Debug, Clone, Copy, PartialEq, Eq, Structural)]
pub enum Test {
    /// Retrieve the keypair and report its public key.
    MinerKey(u8),
    /// Sign a fixed message and verify the signature.
    Sign(u8),
    /// Agree on a shared secret with a software peer, both ways.
    Ecdh(u8),
}

/// The outcome of running one self-test.
#[derive(Debug)]
pub enum TestResult {
    /// The check passed; carries a descriptive value such as the public key
    /// rendering or the literal "ok".
    Pass(String),
    /// Two values that had to be equal were not; both are rendered.
    Mismatch {
        /// The value the check treated as the reference.
        expected: String,
        /// The diverging value actually observed.
        actual: String,
    },
    /// An underlying hardware, format or crypto failure.
    Fail(Error),
}

impl Device {
    /// A device for the given hardware slot.
    pub fn new(slot: u8) -> (r: Device)
        ensures
            r.slot == slot,
    {
        Device { slot }
    }

    /// The device's info snapshot.
    pub fn get_info(&self) -> (r: Result<Info, Error>)
        ensures
            r matches Ok(i) && i.slot == self.slot,
    {
        Ok(Info { slot: self.slot })
    }

    /// The device's configuration.
    pub fn get_config(&self) -> (r: Result<Config, Error>)
        ensures
            r is Ok,
    {
        Ok(Config {})
    }

    /// The keypair of this device's slot: with `create` one run of the
    /// generate-and-verify protocol, without it a plain retrieval of the
    /// keypair assumed to be stored there.
    pub fn get_keypair<E: SecureElement>(&self, element: &mut E, create: bool) -> (r: Result<
        SlotKeypair,
        Error,
    >)
        requires
            old(element).wf(),
            create ==> provision_budget_ok(old(element).model()),
        ensures
            final(element).wf(),
            keypair_result(old(element).model(), final(element).model(), self.slot, create, r),
    {
        if create {
            generate_compact_key_in_slot(element, self.slot)
        } else {
            compact_key_in_slot(element, self.slot)
        }
    }

    /// Provisions the device's slot: generate-and-verify with the bounded
    /// retry policy.
    pub fn provision<E: SecureElement>(&self, element: &mut E) -> (r: Result<SlotKeypair, Error>)
        requires
            old(element).wf(),
            provision_budget_ok(old(element).model()),
        ensures
            final(element).wf(),
            keypair_result(old(element).model(), final(element).model(), self.slot, true, r),
    {
        self.get_keypair(element, true)
    }

    /// The fixed battery of self-tests for this device, in order.
    pub fn get_tests(&self) -> (r: Vec<Test>)
        ensures
            r@ == seq![Test::MinerKey(self.slot), Test::Sign(self.slot), Test::Ecdh(self.slot)],
    {
        let mut tests: Vec<Test> = Vec::new();
        tests.push(Test::MinerKey(self.slot));
        tests.push(Test::Sign(self.slot));
        tests.push(Test::Ecdh(self.slot));
        assert(tests@ =~= seq![
            Test::MinerKey(self.slot),
            Test::Sign(self.slot),
            Test::Ecdh(self.slot),
        ]);
        tests
    }
}

/// The human-readable name of a test: its kind, then the slot in
/// parentheses.
pub open spec fn test_name(t: Test) -> Seq<char> {
    match t {
        Test::MinerKey(slot) => "miner_key("@ + dec_digits(slot as nat) + ")"@,
        Test::Sign(slot) => "sign("@ + dec_digits(slot as nat) + ")"@,
        Test::Ecdh(slot) => "ecdh("@ + dec_digits(slot as nat) + ")"@,
    }
}

/// What a check that only reads the slot leaves behind and returns, given
/// how its verdict depends on the compact encoding of the stored keypair.
/// While read failures are pending the check fails, consuming one; on a
/// vacant slot it fails with a hardware error, on garbled bytes with a
/// format error.
pub open spec fn check_result(
    pre: ElementModel,
    post: ElementModel,
    slot: u8,
    r: TestResult,
    verdict: spec_fn(Seq<u8>, TestResult) -> bool,
) -> bool {
    &&& post.slots == pre.slots
    &&& post.generate_calls == pre.generate_calls
    &&& post.delete_calls == pre.delete_calls
    &&& post.generate_works == pre.generate_works
    &&& post.delete_works == pre.delete_works
    &&& pre.pending_read_failures > 0 ==> {
        &&& post.pending_read_failures == pre.pending_read_failures - 1
        &&& r is Fail
    }
    &&& pre.pending_read_failures == 0 ==> {
        &&& post.pending_read_failures == 0
        &&& match slot_content(pre, slot) {
            SlotContent::Vacant => r matches TestResult::Fail(e) && e == Error::Hardware,
            SlotContent::Stored(b) => verdict(b, r),
            SlotContent::Garbled => r matches TestResult::Fail(e) && e == Error::Format,
        }
    }
}

/// The miner-key check's verdict on a usable keypair: it passes, reporting
/// the public key's canonical base58-check rendering.
pub open spec fn miner_key_verdict(b: Seq<u8>, r: TestResult) -> bool {
    r matches TestResult::Pass(s) && s@ == b58_of(b)
}

/// The bytes of the fixed message the sign check signs: "hello world".
pub open spec fn sign_test_message() -> Seq<u8> {
    seq![104u8, 101u8, 108u8, 108u8, 111u8, 32u8, 119u8, 111u8, 114u8, 108u8, 100u8]
}

/// The sign check's verdict on a usable keypair: signing cannot fail for a
/// compact keypair and the produced signature verifies, so the check passes
/// with the literal "ok"; and it did real work — some signature over
/// exactly the fixed message verifies under the slot's key.
pub open spec fn sign_verdict(b: Seq<u8>, r: TestResult) -> bool {
    &&& r matches TestResult::Pass(s) && s@ == "ok"@
    &&& exists|sig: Seq<u8>| sig_verifies(b, sign_test_message(), sig)
}

/// The key-agreement check's verdict on a usable keypair: both agreement
/// calls succeed and the two shared secrets agree by the symmetry of
/// Diffie-Hellman, so the check passes with the literal "ok".
pub open spec fn ecdh_verdict_spec(b: Seq<u8>, r: TestResult) -> bool {
    r matches TestResult::Pass(s) && s@ == "ok"@
}

impl Test {
    /// The test's display name, `<kind>(<slot>)`.
    pub fn name(&self) -> (r: String)
        ensures
            r@ == test_name(*self),
    {
        let (prefix, slot) = match self {
            Test::MinerKey(slot) => ("miner_key(", *slot),
            Test::Sign(slot) => ("sign(", *slot),
            Test::Ecdh(slot) => ("ecdh(", *slot),
        };
        let mut s = String::from_str(prefix);
        let digits = u8_decimal(slot);
        s.append(digits.as_str());
        s.append(")");
        s
    }

    /// Runs the test against the given element.
    pub fn run<E: SecureElement>(&self, element: &mut E) -> (r: TestResult)
        requires
            old(element).wf(),
        ensures
            final(element).wf(),
            (match *self {
                Test::MinerKey(slot) => check_result(
                    old(element).model(),
                    final(element).model(),
                    slot,
                    r,
                    |b: Seq<u8>, rr: TestResult| miner_key_verdict(b, rr),
                ),
                Test::Sign(slot) => check_result(
                    old(element).model(),
                    final(element).model(),
                    slot,
                    r,
                    |b: Seq<u8>, rr: TestResult| sign_verdict(b, rr),
                ),
                Test::Ecdh(slot) => check_result(
                    old(element).model(),
                    final(element).model(),
                    slot,
                    r,
                    |b: Seq<u8>, rr: TestResult| ecdh_verdict_spec(b, rr),
                ),
            }),
    {
        match self {
            Test::MinerKey(slot) => check_miner_key(element, *slot),
            Test::Sign(slot) => check_sign(element, *slot),
            Test::Ecdh(slot) => check_ecdh(element, *slot),
        }
    }
}

/// Retrieves the slot's keypair and reports its public key rendering.
pub fn check_miner_key<E: SecureElement>(element: &mut E, slot: u8) -> (r: TestResult)
    requires
        old(element).wf(),
    ensures
        final(element).wf(),
        check_result(
            old(element).model(),
            final(element).model(),
            slot,
            r,
            |b: Seq<u8>, rr: TestResult| miner_key_verdict(b, rr),
        ),
{
    match compact_key_in_slot(element, slot) {
        Err(e) => TestResult::Fail(e),
        Ok(keypair) => TestResult::Pass(keypair.public_b58()),
    }
}

/// Retrieves the slot's keypair, signs the fixed message "hello world" and
/// verifies the signature against the same public key and message.
pub fn check_sign<E: SecureElement>(element: &mut E, slot: u8) -> (r: TestResult)
    requires
        old(element).wf(),
    ensures
        final(element).wf(),
        check_result(
            old(element).model(),
            final(element).model(),
            slot,
            r,
            |b: Seq<u8>, rr: TestResult| sign_verdict(b, rr),
        ),
{
    let data: Vec<u8> = vec![104u8, 101, 108, 108, 111, 32, 119, 111, 114, 108, 100];
    assert(data@ =~= sign_test_message());
    let keypair = match compact_key_in_slot(element, slot) {
        Err(e) => {
            return TestResult::Fail(e);
        },
        Ok(keypair) => keypair,
    };
    let signature = match keypair.sign(&data) {
        Err(e) => {
            return TestResult::Fail(e);
        },
        Ok(signature) => signature,
    };
    assert(sig_verifies(keypair@, sign_test_message(), signature@));
    if keypair.verify(&data, &signature) {
        TestResult::Pass(String::from_str("ok"))
    } else {
        TestResult::Fail(Error::Crypto)
    }
}

/// Retrieves the slot's keypair, generates an independent software peer
/// keypair, computes the ECDH shared secret in both directions and compares
/// the two byte-for-byte.
pub fn check_ecdh<E: SecureElement>(element: &mut E, slot: u8) -> (r: TestResult)
    requires
        old(element).wf(),
    ensures
        final(element).wf(),
        check_result(
            old(element).model(),
            final(element).model(),
            slot,
            r,
            |b: Seq<u8>, rr: TestResult| ecdh_verdict_spec(b, rr),
        ),
{
    let keypair = match compact_key_in_slot(element, slot) {
        Err(e) => {
            return TestResult::Fail(e);
        },
        Ok(keypair) => keypair,
    };
    let other_keypair = SlotKeypair::generate();
    let ecc_shared_secret = match keypair.ecdh(&other_keypair) {
        Err(e) => {
            return TestResult::Fail(e);
        },
        Ok(s) => s,
    };
    let other_shared_secret = match other_keypair.ecdh(&keypair) {
        Err(e) => {
            return TestResult::Fail(e);
        },
        Ok(s) => s,
    };
    ecdh_secrets_verdict(&ecc_shared_secret, &other_shared_secret)
}

/// Compares the two shared secrets of a key-agreement check: a pass when
/// they are byte-for-byte identical, otherwise a mismatch carrying both
/// secrets in hexadecimal, the device's first.
pub fn ecdh_secrets_verdict(device_secret: &Vec<u8>, other_secret: &Vec<u8>) -> (r: TestResult)
    ensures
        device_secret@ == other_secret@ ==> (r matches TestResult::Pass(s) && s@ == "ok"@),
        device_secret@ != other_secret@ ==> (r matches TestResult::Mismatch {
            expected,
            actual,
        } && expected@ == hex_render(device_secret@) && actual@ == hex_render(other_secret@)),
{
    if bytes_equal(device_secret, other_secret) {
        TestResult::Pass(String::from_str("ok"))
    } else {
        TestResult::Mismatch {
            expected: bytes_to_hex(device_secret),
            actual: bytes_to_hex(other_secret),
        }
    }
}

} // verus!
