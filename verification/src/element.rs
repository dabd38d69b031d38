//! The secure-element capability boundary.
//!
//! A secure element is a set of numbered slots, each holding at most one
//! keypair, reached through three narrow operations: generate a keypair into
//! a slot, delete a slot's contents, and read the keypair currently stored
//! in a slot. [`SecureElement`] states the behaviour of those operations
//! over an abstract [`ElementModel`]; [`MemElement`] is an in-memory element
//! proved against that contract, with knobs to inject the retrieval and
//! hardware failures that the provisioning protocol must survive.

use vstd::prelude::*;

use crate::Error;
use crate::keys::SlotKeypair;

verus! {

/// What one hardware slot holds.
pub ghost enum SlotContent {
    /// Nothing is stored in the slot.
    Vacant,
    /// A usable keypair whose compact public encoding is the given bytes.
    Stored(Seq<u8>),
    /// Bytes that do not decode into a usable keypair.
    Garbled,
}

/// The abstract state of a secure element: its slots, and the behaviour its
/// driver will exhibit on the next calls.
///
/// The model is deliberately deterministic, which is what makes the exact
/// retry bound of the provisioning protocol statable. A generation that
/// yields an unusable key is modelled in the read channel — the read that
/// would confirm it fails, consuming one pending failure — while the slot's
/// abstract content stays `Stored`: content here means "the element will
/// serve this keypair once the pending read failures are exhausted", not a
/// claim about raw bytes. `Garbled` models persistent corruption. The two
/// `works` knobs are failure modes held fixed across calls: they cover
/// elements whose generation and deletion either succeed throughout or fail
/// from the start, which suffices because the provisioning protocol aborts
/// at the first failure of either operation.
pub ghost struct ElementModel {
    /// Slot contents, by slot index.
    pub slots: Map<u8, SlotContent>,
    /// How many of the coming reads fail before reads succeed again.
    pub pending_read_failures: nat,
    /// Whether keypair generation calls succeed.
    pub generate_works: bool,
    /// Whether keypair deletion calls succeed.
    pub delete_works: bool,
    /// How many generation calls the element has served.
    pub generate_calls: nat,
    /// How many deletion calls the element has served.
    pub delete_calls: nat,
}

/// The content of a slot, vacant where the model's map says nothing.
pub open spec fn slot_content(m: ElementModel, slot: u8) -> SlotContent {
    if m.slots.dom().contains(slot) {
        m.slots[slot]
    } else {
        SlotContent::Vacant
    }
}

/// The failure knobs of the element are not changed by driver calls.
pub open spec fn knobs_preserved(pre: ElementModel, post: ElementModel) -> bool {
    &&& post.generate_works == pre.generate_works
    &&& post.delete_works == pre.delete_works
}

/// What a single read of a slot does and returns: it never changes slot
/// contents or the call counters; while read failures are pending it fails,
/// consuming one; otherwise its outcome is decided by the slot's content.
pub open spec fn read_result(
    pre: ElementModel,
    post: ElementModel,
    slot: u8,
    r: Result<SlotKeypair, Error>,
) -> bool {
    &&& knobs_preserved(pre, post)
    &&& post.slots == pre.slots
    &&& post.generate_calls == pre.generate_calls
    &&& post.delete_calls == pre.delete_calls
    &&& pre.pending_read_failures > 0 ==> {
        &&& post.pending_read_failures == pre.pending_read_failures - 1
        &&& r is Err
    }
    &&& pre.pending_read_failures == 0 ==> {
        &&& post.pending_read_failures == 0
        &&& match slot_content(pre, slot) {
            SlotContent::Vacant => r matches Err(e) && e == Error::Hardware,
            SlotContent::Stored(b) => r matches Ok(kp) && kp@ == b,
            SlotContent::Garbled => r matches Err(e) && e == Error::Format,
        }
    }
}

/// The narrow driver interface of a secure element.
///
/// Verified code reaches hardware only through these three operations. An
/// element also carries a well-formedness condition `wf` that every
/// operation preserves.
pub trait SecureElement: Sized {
    /// The implementation's internal consistency condition.
    spec fn wf(&self) -> bool;

    /// The abstract state this element currently is in.
    spec fn model(&self) -> ElementModel;

    /// Overwrites `slot` with a freshly generated keypair.
    fn generate_keypair(&mut self, slot: u8) -> (r: Result<(), Error>)
        requires
            old(self).wf(),
            old(self).model().generate_calls < u64::MAX as nat,
        ensures
            final(self).wf(),
            knobs_preserved(old(self).model(), final(self).model()),
            final(self).model().generate_calls == old(self).model().generate_calls + 1,
            final(self).model().delete_calls == old(self).model().delete_calls,
            final(self).model().pending_read_failures == old(
                self,
            ).model().pending_read_failures,
            r is Ok <==> old(self).model().generate_works,
            r matches Err(e) ==> e == Error::Hardware,
            r is Ok ==> exists|b: Seq<u8>|
                final(self).model().slots == old(self).model().slots.insert(
                    slot,
                    SlotContent::Stored(b),
                ),
            r is Err ==> final(self).model().slots == old(self).model().slots,
    ;

    /// Erases whatever `slot` holds.
    fn delete_keypair(&mut self, slot: u8) -> (r: Result<(), Error>)
        requires
            old(self).wf(),
            old(self).model().delete_calls < u64::MAX as nat,
        ensures
            final(self).wf(),
            knobs_preserved(old(self).model(), final(self).model()),
            final(self).model().delete_calls == old(self).model().delete_calls + 1,
            final(self).model().generate_calls == old(self).model().generate_calls,
            final(self).model().pending_read_failures == old(
                self,
            ).model().pending_read_failures,
            r is Ok <==> old(self).model().delete_works,
            r matches Err(e) ==> e == Error::Hardware,
            r is Ok ==> final(self).model().slots == old(self).model().slots.insert(
                slot,
                SlotContent::Vacant,
            ),
            r is Err ==> final(self).model().slots == old(self).model().slots,
    ;

    /// Reads the keypair currently stored in `slot`.
    fn read_keypair(&mut self, slot: u8) -> (r: Result<SlotKeypair, Error>)
        requires
            old(self).wf(),
        ensures
            final(self).wf(),
            read_result(old(self).model(), final(self).model(), slot, r),
    ;
}

/// One slot of the in-memory element.
enum SlotEntry {
    /// Nothing stored.
    Vacant,
    /// A stored, usable keypair.
    Stored(SlotKeypair),
    /// Stored bytes that do not decode into a keypair.
    Garbled,
}

/// What a stored entry stands for in the model.
spec fn entry_content(e: SlotEntry) -> SlotContent {
    match e {
        SlotEntry::Vacant => SlotContent::Vacant,
        SlotEntry::Stored(kp) => SlotContent::Stored(kp@),
        SlotEntry::Garbled => SlotContent::Garbled,
    }
}

/// An in-memory secure element: one entry per possible slot index, plus
/// knobs to make reads, generation or deletion fail, and counters of the
/// generation and deletion calls served.
pub struct MemElement {
    entries: Vec<SlotEntry>,
    read_failures: u32,
    generate_works: bool,
    delete_works: bool,
    generate_calls: u64,
    delete_calls: u64,
}

impl MemElement {
    /// A fresh element: every slot vacant, every operation succeeding, no
    /// calls served yet.
    pub fn new() -> (r: MemElement)
        ensures
            r.wf(),
            r.model().pending_read_failures == 0,
            r.model().generate_works,
            r.model().delete_works,
            r.model().generate_calls == 0,
            r.model().delete_calls == 0,
            forall|slot: u8| slot_content(r.model(), slot) == SlotContent::Vacant,
    {
        let mut entries: Vec<SlotEntry> = Vec::new();
        let mut i: usize = 0;
        while i < 256
            invariant
                i <= 256,
                entries@.len() == i,
                forall|j: int|
                    0 <= j < i ==> entry_content(#[trigger] entries@[j]) == SlotContent::Vacant,
            decreases 256 - i,
        {
            entries.push(SlotEntry::Vacant);
            i = i + 1;
        }
        let r = MemElement {
            entries,
            read_failures: 0,
            generate_works: true,
            delete_works: true,
            generate_calls: 0,
            delete_calls: 0,
        };
        assert forall|slot: u8| slot_content(r.model(), slot) == SlotContent::Vacant by {
            assert(entry_content(r.entries@[slot as int]) == SlotContent::Vacant);
        }
        r
    }

    /// Makes the next `n` reads fail before reads succeed again.
    pub fn set_read_failures(&mut self, n: u32)
        requires
            old(self).wf(),
        ensures
            final(self).wf(),
            final(self).model() == (ElementModel {
                pending_read_failures: n as nat,
                ..old(self).model()
            }),
    {
        self.read_failures = n;
    }

    /// Makes keypair generation succeed or fail from now on.
    pub fn set_generate_works(&mut self, works: bool)
        requires
            old(self).wf(),
        ensures
            final(self).wf(),
            final(self).model() == (ElementModel { generate_works: works, ..old(self).model() }),
    {
        self.generate_works = works;
    }

    /// Makes keypair deletion succeed or fail from now on.
    pub fn set_delete_works(&mut self, works: bool)
        requires
            old(self).wf(),
        ensures
            final(self).wf(),
            final(self).model() == (ElementModel { delete_works: works, ..old(self).model() }),
    {
        self.delete_works = works;
    }

    /// How many generation calls the element has served.
    pub fn generate_call_count(&self) -> (r: u64)
        ensures
            r as nat == self.model().generate_calls,
    {
        self.generate_calls
    }

    /// How many deletion calls the element has served.
    pub fn delete_call_count(&self) -> (r: u64)
        ensures
            r as nat == self.model().delete_calls,
    {
        self.delete_calls
    }

    /// Replaces the bytes stored in `slot` with bytes that do not decode
    /// into a keypair.
    pub fn corrupt_slot(&mut self, slot: u8)
        requires
            old(self).wf(),
        ensures
            final(self).wf(),
            final(self).model() == (ElementModel {
                slots: old(self).model().slots.insert(slot, SlotContent::Garbled),
                ..old(self).model()
            }),
    {
        self.entries.set(slot as usize, SlotEntry::Garbled);
        assert(final(self).model().slots =~= old(self).model().slots.insert(
            slot,
            SlotContent::Garbled,
        ));
    }
}

impl SecureElement for MemElement {
    closed spec fn wf(&self) -> bool {
        self.entries@.len() == 256
    }

    closed spec fn model(&self) -> ElementModel {
        ElementModel {
            slots: Map::new(|slot: u8| true, |slot: u8| entry_content(self.entries@[slot as int])),
            pending_read_failures: self.read_failures as nat,
            generate_works: self.generate_works,
            delete_works: self.delete_works,
            generate_calls: self.generate_calls as nat,
            delete_calls: self.delete_calls as nat,
        }
    }

    fn generate_keypair(&mut self, slot: u8) -> (r: Result<(), Error>) {
        self.generate_calls = self.generate_calls + 1;
        if !self.generate_works {
            assert(final(self).model().slots =~= old(self).model().slots);
            return Err(Error::Hardware);
        }
        let kp = SlotKeypair::generate();
        let ghost b = kp@;
        self.entries.set(slot as usize, SlotEntry::Stored(kp));
        assert(final(self).model().slots =~= old(self).model().slots.insert(
            slot,
            SlotContent::Stored(b),
        ));
        Ok(())
    }

    fn delete_keypair(&mut self, slot: u8) -> (r: Result<(), Error>) {
        self.delete_calls = self.delete_calls + 1;
        if !self.delete_works {
            assert(final(self).model().slots =~= old(self).model().slots);
            return Err(Error::Hardware);
        }
        self.entries.set(slot as usize, SlotEntry::Vacant);
        assert(final(self).model().slots =~= old(self).model().slots.insert(
            slot,
            SlotContent::Vacant,
        ));
        Ok(())
    }

    fn read_keypair(&mut self, slot: u8) -> (r: Result<SlotKeypair, Error>) {
        if self.read_failures > 0 {
            self.read_failures = self.read_failures - 1;
            assert(final(self).model().slots =~= old(self).model().slots);
            return Err(Error::Hardware);
        }
        assert(final(self).model().slots =~= old(self).model().slots);
        assert(slot_content(self.model(), slot) == entry_content(self.entries@[slot as int]));
        match &self.entries[slot as usize] {
            SlotEntry::Vacant => Err(Error::Hardware),
            SlotEntry::Garbled => Err(Error::Format),
            SlotEntry::Stored(kp) => Ok(kp.dup()),
        }
    }
}

} // verus!
