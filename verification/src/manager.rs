//! The slot key manager: reading back the keypair a hardware slot holds,
//! and the generate-and-verify provisioning protocol with its bounded
//! retry/cleanup policy.

use vstd::prelude::*;

use crate::Error;
use crate::element::{
    ElementModel, SecureElement, SlotContent, knobs_preserved, read_result, slot_content,
};
use crate::keys::SlotKeypair;

verus! {

/// How many additional generation attempts provisioning makes after the
/// first one.
pub const RETRY_BUDGET: u32 = 10;

/// Headroom on the element's call counters so that one whole provisioning
/// run cannot overflow them.
pub open spec fn provision_budget_ok(m: ElementModel) -> bool {
    &&& m.generate_calls + 11 <= u64::MAX as nat
    &&& m.delete_calls + 10 <= u64::MAX as nat
}

/// What one run of the generate-and-verify protocol does and returns, as a
/// function of the element's starting state. Writing `k` for the pending
/// read failures at entry:
/// - if generation itself fails, the protocol stops at once after that one
///   generation call;
/// - if at most 10 reads were going to fail (and cleanup works where it is
///   needed), the protocol succeeds after exactly `k + 1` generation calls
///   and `k` deletion calls, returning the keypair now stored in the slot;
/// - if cleanup fails after a failed read, that deletion failure aborts the
///   protocol;
/// - if 11 or more reads were going to fail, the protocol gives up after
///   exactly 11 generation calls and 10 deletion calls, returning the last
///   retrieval error.
pub open spec fn provision_result(
    pre: ElementModel,
    post: ElementModel,
    slot: u8,
    r: Result<SlotKeypair, Error>,
) -> bool {
    let k = pre.pending_read_failures;
    &&& knobs_preserved(pre, post)
    &&& (!pre.generate_works ==> {
        &&& r matches Err(e) && e == Error::Hardware
        &&& post.generate_calls == pre.generate_calls + 1
        &&& post.delete_calls == pre.delete_calls
        &&& post.pending_read_failures == k
        &&& post.slots == pre.slots
    })
    &&& (pre.generate_works && k <= 10 && (k == 0 || pre.delete_works) ==> {
        &&& r matches Ok(kp) && (exists|b: Seq<u8>|
            kp@ == b && post.slots == pre.slots.insert(slot, SlotContent::Stored(b)))
        &&& post.generate_calls == pre.generate_calls + k + 1
        &&& post.delete_calls == pre.delete_calls + k
        &&& post.pending_read_failures == 0
    })
    &&& (pre.generate_works && k >= 1 && !pre.delete_works ==> {
        &&& r matches Err(e) && e == Error::Hardware
        &&& post.generate_calls == pre.generate_calls + 1
        &&& post.delete_calls == pre.delete_calls + 1
        &&& post.pending_read_failures == k - 1
        &&& (exists|b: Seq<u8>| post.slots == pre.slots.insert(slot, SlotContent::Stored(b)))
    })
    &&& (pre.generate_works && pre.delete_works && k >= 11 ==> {
        &&& r is Err
        &&& post.generate_calls == pre.generate_calls + 11
        &&& post.delete_calls == pre.delete_calls + 10
        &&& post.pending_read_failures == k - 11
        &&& (exists|b: Seq<u8>| post.slots == pre.slots.insert(slot, SlotContent::Stored(b)))
    })
}

/// Reads back the keypair currently stored in `slot`, assumed to already
/// exist; its hardware representation is adapted into the crate's keypair
/// handle. Fails with a hardware error if the slot is vacant or the element
/// fails, and with a format error if the stored bytes do not decode.
pub fn compact_key_in_slot<E: SecureElement>(element: &mut E, slot: u8) -> (r: Result<
    SlotKeypair,
    Error,
>)
    requires
        old(element).wf(),
    ensures
        final(element).wf(),
        read_result(old(element).model(), final(element).model(), slot, r),
{
    element.read_keypair(slot)
}

/// Runs the generate-and-verify protocol in `slot`: generate a fresh
/// keypair, read it back to confirm it is usable, and on a failed read
/// delete the slot's contents and retry, at most [`RETRY_BUDGET`] more
/// times. A deletion failure during cleanup aborts the whole run.
pub fn generate_compact_key_in_slot<E: SecureElement>(element: &mut E, slot: u8) -> (r: Result<
    SlotKeypair,
    Error,
>)
    requires
        old(element).wf(),
        provision_budget_ok(old(element).model()),
    ensures
        final(element).wf(),
        provision_result(old(element).model(), final(element).model(), slot, r),
{
    let ghost pre = old(element).model();
    let mut try_count: u32 = RETRY_BUDGET;
    loop
        invariant
            pre == old(element).model(),
            element.wf(),
            try_count <= 10,
            provision_budget_ok(pre),
            knobs_preserved(pre, element.model()),
            element.model().generate_calls == pre.generate_calls + (10 - try_count),
            element.model().delete_calls == pre.delete_calls + (10 - try_count),
            element.model().pending_read_failures == pre.pending_read_failures - (10
                - try_count),
            try_count < 10 ==> {
                &&& pre.generate_works
                &&& pre.delete_works
                &&& pre.pending_read_failures >= 10 - try_count
                &&& element.model().slots == pre.slots.insert(slot, SlotContent::Vacant)
            },
            try_count == 10 ==> element.model().slots == pre.slots,
        decreases try_count,
    {
        let ghost rounds: nat = (10 - try_count) as nat;
        let ghost head = element.model();
        match element.generate_keypair(slot) {
            Ok(()) => (),
            Err(e) => {
                return Err(e);
            },
        }
        let ghost b = choose|b: Seq<u8>|
            element.model().slots == head.slots.insert(slot, SlotContent::Stored(b));
        assert(element.model().slots == pre.slots.insert(slot, SlotContent::Stored(b))) by {
            if try_count < 10 {
                assert(head.slots == pre.slots.insert(slot, SlotContent::Vacant));
                assert(pre.slots.insert(slot, SlotContent::Vacant).insert(
                    slot,
                    SlotContent::Stored(b),
                ) =~= pre.slots.insert(slot, SlotContent::Stored(b)));
            }
        }
        assert(slot_content(element.model(), slot) == SlotContent::Stored(b));
        let ghost mid = element.model();
        match element.read_keypair(slot) {
            Ok(keypair) => {
                assert(mid.pending_read_failures == 0);
                assert(pre.pending_read_failures == rounds);
                return Ok(keypair);
            },
            Err(err) => {
                assert(mid.pending_read_failures > 0);
                assert(pre.pending_read_failures > rounds);
                if try_count == 0 {
                    assert(pre.pending_read_failures >= 11);
                    return Err(err);
                }
                try_count = try_count - 1;
                match element.delete_keypair(slot) {
                    Ok(()) => (),
                    Err(e) => {
                        assert(!pre.delete_works);
                        assert(rounds == 0);
                        return Err(e);
                    },
                }
                assert(element.model().slots =~= pre.slots.insert(slot, SlotContent::Vacant));
            },
        }
    }
}

/// Retrieval and provisioning without creation coincide: asking to provision
/// without creating a key places exactly the retrieval contract on the call.
/// In particular, on a slot holding a usable keypair both return a keypair
/// with the same compact public encoding.
pub proof fn lemma_retrieve_provision_equivalence(
    pre: ElementModel,
    post: ElementModel,
    slot: u8,
    create: bool,
    r: Result<SlotKeypair, Error>,
)
    requires
        !create,
    ensures
        keypair_result(pre, post, slot, create, r) == read_result(pre, post, slot, r),
{
}

/// Retrieval is deterministic in the element's state: two reads of the same
/// slot from the same starting state, with no pending read failures, either
/// both fail or both return keypairs with bit-identical compact public
/// encodings.
pub proof fn lemma_retrieve_deterministic(
    pre: ElementModel,
    post1: ElementModel,
    post2: ElementModel,
    slot: u8,
    r1: Result<SlotKeypair, Error>,
    r2: Result<SlotKeypair, Error>,
)
    requires
        read_result(pre, post1, slot, r1),
        read_result(pre, post2, slot, r2),
        pre.pending_read_failures == 0,
    ensures
        r1 is Ok <==> r2 is Ok,
        (r1 is Ok && r2 is Ok) ==> r1->Ok_0@ == r2->Ok_0@,
{
}

/// What a keypair request does: with `create` it is one run of the
/// provisioning protocol, without it a plain retrieval.
pub open spec fn keypair_result(
    pre: ElementModel,
    post: ElementModel,
    slot: u8,
    create: bool,
    r: Result<SlotKeypair, Error>,
) -> bool {
    if create {
        provision_result(pre, post, slot, r)
    } else {
        read_result(pre, post, slot, r)
    }
}

} // verus!
