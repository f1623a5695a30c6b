//! The reference counts that the native framework keeps, as a model.
//!
//! [`LedgerModel`] is the mathematical account: which resources are alive,
//! how many references each has, and how many create, retain, release and
//! destroy events there have been.  The laws of handle ownership are stated
//! and proved over it.  [`RefLedger`] is the same account kept in memory: a
//! stand-in for the native framework wherever the real one is not at hand.

use std::collections::HashMap;
use vstd::prelude::*;

use crate::handle::{Address, Handle, NativeCall};

verus! {

broadcast use vstd::std_specs::hash::group_hash_axioms;

/// Live resources with their reference counts, and the events so far.
pub struct LedgerModel {
    /// The references outstanding on each live resource, by raw address.
    pub counts: Map<usize, nat>,
    /// How many resources were created.
    pub created: nat,
    /// How many references were added by retain.
    pub retained: nat,
    /// How many references were dropped by release.
    pub released: nat,
    /// How many resources were destroyed.
    pub destroyed: nat,
}

impl LedgerModel {
    /// Nothing alive, nothing counted.
    pub open spec fn empty() -> LedgerModel {
        LedgerModel { counts: Map::empty(), created: 0, retained: 0, released: 0, destroyed: 0 }
    }

    /// A live resource has at least one reference.
    pub open spec fn well_formed(self) -> bool {
        forall|raw: usize| #[trigger] self.counts.contains_key(raw) ==> self.counts[raw] >= 1
    }

    pub open spec fn is_live(self, raw: usize) -> bool {
        self.counts.contains_key(raw)
    }

    /// The references outstanding on the resource at `raw`: none if it is
    /// not alive.
    pub open spec fn references(self, raw: usize) -> nat {
        if self.counts.contains_key(raw) {
            self.counts[raw]
        } else {
            0
        }
    }

    /// A native factory made a resource at `raw`: it starts with the one
    /// reference that the factory's caller receives.
    pub open spec fn create(self, raw: usize) -> LedgerModel {
        LedgerModel {
            counts: self.counts.insert(raw, 1),
            created: self.created + 1,
            ..self
        }
    }

    pub open spec fn retain(self, raw: usize) -> LedgerModel {
        LedgerModel {
            counts: self.counts.insert(raw, self.counts[raw] + 1),
            retained: self.retained + 1,
            ..self
        }
    }

    /// Dropping the last reference destroys the resource.
    pub open spec fn release(self, raw: usize) -> LedgerModel {
        if self.counts[raw] <= 1 {
            LedgerModel {
                counts: self.counts.remove(raw),
                released: self.released + 1,
                destroyed: self.destroyed + 1,
                ..self
            }
        } else {
            LedgerModel {
                counts: self.counts.insert(raw, (self.counts[raw] - 1) as nat),
                released: self.released + 1,
                ..self
            }
        }
    }

    /// The account after the native framework has served `call`.  A call on
    /// a resource that is not alive has no defined effect natively; here it
    /// changes nothing.
    pub open spec fn apply(self, call: NativeCall) -> LedgerModel {
        let raw = call.spec_address().spec_raw();
        if !self.is_live(raw) {
            self
        } else {
            match call {
                NativeCall::Retain(_) => self.retain(raw),
                NativeCall::Release(_) => self.release(raw),
            }
        }
    }

    /// Creation and every served call keep the account well formed.
    pub proof fn lemma_steps_keep_well_formed(self, raw: usize, call: NativeCall)
        requires
            self.well_formed(),
        ensures
            self.create(raw).well_formed(),
            self.apply(call).well_formed(),
    {
    }

    /// A resource fresh from its factory carries exactly one reference: it
    /// is alive with a count of one, and the release of the one handle that
    /// the factory's caller holds destroys it.
    pub proof fn lemma_created_starts_with_one_reference(self, handle: Handle)
        requires
            !self.is_live(handle.spec_address().spec_raw()),
        ensures
            ({
                let raw = handle.spec_address().spec_raw();
                let made = self.create(raw);
                let ended = made.apply(NativeCall::Release(handle.spec_address()));
                &&& made.is_live(raw)
                &&& made.references(raw) == 1
                &&& !ended.is_live(raw)
                &&& ended.destroyed == self.destroyed + 1
                &&& ended.released == self.released + 1
            }),
    {
    }

    /// A second handle, duplicated from one on a live resource or wrapped
    /// from a borrowed address, can be released without harm to the first:
    /// after its retain and its release every resource has the references it
    /// had before, and nothing was destroyed.
    pub proof fn lemma_retain_then_release_restores(self, address: Address)
        requires
            self.well_formed(),
            self.is_live(address.spec_raw()),
        ensures
            ({
                let after = self.apply(NativeCall::Retain(address)).apply(
                    NativeCall::Release(address),
                );
                &&& after.counts == self.counts
                &&& after.is_live(address.spec_raw())
                &&& after.destroyed == self.destroyed
                &&& after.created == self.created
                &&& after.retained == self.retained + 1
                &&& after.released == self.released + 1
            }),
    {
        let raw = address.spec_raw();
        let kept = self.apply(NativeCall::Retain(address));
        let after = kept.apply(NativeCall::Release(address));
        assert(kept.counts[raw] == self.counts[raw] + 1);
        assert(after.counts =~= self.counts);
    }

    /// Ending a handle costs its resource exactly one reference and counts
    /// as exactly one release, whatever else is alive.
    pub proof fn lemma_release_drops_one_reference(self, handle: Handle)
        requires
            self.well_formed(),
            self.is_live(handle.spec_address().spec_raw()),
        ensures
            ({
                let raw = handle.spec_address().spec_raw();
                let after = self.apply(NativeCall::Release(handle.spec_address()));
                &&& after.released == self.released + 1
                &&& after.retained == self.retained
                &&& after.created == self.created
                &&& after.destroyed <= self.destroyed + 1
                &&& after.references(raw) + 1 == self.references(raw)
                &&& forall|other: usize|
                    other != raw ==> after.references(other) == self.references(other)
            }),
    {
    }

    /// Two handles on one resource, the second made by duplicating the
    /// first: the first release leaves the resource alive, the second
    /// destroys it, and it is destroyed once.
    pub proof fn lemma_two_owners_destroy_once(self, address: Address)
        requires
            !self.is_live(address.spec_raw()),
        ensures
            ({
                let raw = address.spec_raw();
                let shared = self.create(raw).apply(NativeCall::Retain(address));
                let one_left = shared.apply(NativeCall::Release(address));
                let none_left = one_left.apply(NativeCall::Release(address));
                &&& shared.references(raw) == 2
                &&& one_left.is_live(raw)
                &&& one_left.destroyed == self.destroyed
                &&& !none_left.is_live(raw)
                &&& none_left.destroyed == self.destroyed + 1
            }),
    {
    }
}

/// Why the ledger did not serve a request.
#[derive(Clone, Copy, Debug, PartialEq, Eq, Structural)]
pub enum LedgerError {
    /// The address names no live resource: it was never created, or it was
    /// destroyed already.
    InvalidHandle,
    /// A resource is alive at the address already.
    AddressInUse,
    /// A counter is at the end of its range.
    CounterOverflow,
}

/// The account of [`LedgerModel`], kept in memory.
pub struct RefLedger {
    counts: HashMap<usize, u64>,
    created: u64,
    retained: u64,
    released: u64,
    destroyed: u64,
}

impl View for RefLedger {
    type V = LedgerModel;

    closed spec fn view(&self) -> LedgerModel {
        LedgerModel {
            counts: Map::new(
                |raw: usize| self.counts@.contains_key(raw),
                |raw: usize| self.counts@[raw] as nat,
            ),
            created: self.created as nat,
            retained: self.retained as nat,
            released: self.released as nat,
            destroyed: self.destroyed as nat,
        }
    }
}

impl RefLedger {
    /// Every live resource is recorded with at least one reference.
    pub closed spec fn well_formed(&self) -> bool {
        forall|raw: usize| #[trigger] self.counts@.contains_key(raw) ==> self.counts@[raw] >= 1
    }

    /// A well-formed ledger holds a well-formed account.
    pub proof fn lemma_view_well_formed(&self)
        requires
            self.well_formed(),
        ensures
            self@.well_formed(),
    {
    }

    /// Whether `call` can be counted without a counter leaving its range.
    pub open spec fn has_room_for(self, call: NativeCall) -> bool {
        let raw = call.spec_address().spec_raw();
        match call {
            NativeCall::Retain(_) => self@.references(raw) < u64::MAX && self@.retained < u64::MAX,
            NativeCall::Release(_) => self@.released < u64::MAX && self@.destroyed < u64::MAX,
        }
    }

    pub fn new() -> (ledger: RefLedger)
        ensures
            ledger.well_formed(),
            ledger@ == LedgerModel::empty(),
    {
        let ledger = RefLedger {
            counts: HashMap::new(),
            created: 0,
            retained: 0,
            released: 0,
            destroyed: 0,
        };
        assert(ledger@.counts =~= Map::<usize, nat>::empty());
        ledger
    }

    /// A ledger with nothing alive that goes on from counts of events taken
    /// earlier.
    pub fn with_events(created: u64, retained: u64, released: u64, destroyed: u64) -> (ledger:
        RefLedger)
        ensures
            ledger.well_formed(),
            ledger@ == (LedgerModel {
                counts: Map::<usize, nat>::empty(),
                created: created as nat,
                retained: retained as nat,
                released: released as nat,
                destroyed: destroyed as nat,
            }),
    {
        let ledger = RefLedger { counts: HashMap::new(), created, retained, released, destroyed };
        assert(ledger@.counts =~= Map::<usize, nat>::empty());
        ledger
    }

    /// Records that a native factory made a resource at `address`.
    pub fn create(&mut self, address: Address) -> (outcome: Result<(), LedgerError>)
        requires
            old(self).well_formed(),
        ensures
            final(self).well_formed(),
            match outcome {
                Ok(()) => !old(self)@.is_live(address.spec_raw()) && old(self)@.created < u64::MAX
                    && final(self)@ == old(self)@.create(address.spec_raw()),
                Err(LedgerError::AddressInUse) => old(self)@.is_live(address.spec_raw())
                    && final(self)@ == old(self)@,
                Err(LedgerError::CounterOverflow) => !old(self)@.is_live(address.spec_raw())
                    && old(self)@.created == u64::MAX && final(self)@ == old(self)@,
                Err(LedgerError::InvalidHandle) => false,
            },
    {
        let raw = address.raw();
        if self.counts.contains_key(&raw) {
            return Err(LedgerError::AddressInUse);
        }
        if self.created == u64::MAX {
            return Err(LedgerError::CounterOverflow);
        }
        self.counts.insert(raw, 1);
        self.created = self.created + 1;
        assert(self@.counts =~= old(self)@.create(raw).counts);
        Ok(())
    }

    /// Serves one retain or release as the native framework would.
    pub fn perform(&mut self, call: NativeCall) -> (outcome: Result<(), LedgerError>)
        requires
            old(self).well_formed(),
        ensures
            final(self).well_formed(),
            match outcome {
                Ok(()) => old(self)@.is_live(call.spec_address().spec_raw()) && old(
                    self,
                ).has_room_for(call) && final(self)@ == old(self)@.apply(call),
                Err(LedgerError::InvalidHandle) => !old(self)@.is_live(
                    call.spec_address().spec_raw(),
                ) && final(self)@ == old(self)@,
                Err(LedgerError::CounterOverflow) => old(self)@.is_live(
                    call.spec_address().spec_raw(),
                ) && !old(self).has_room_for(call) && final(self)@ == old(self)@,
                Err(LedgerError::AddressInUse) => false,
            },
    {
        let raw = call.address().raw();
        let count: u64 = match self.counts.get(&raw) {
            Some(count) => *count,
            None => {
                return Err(LedgerError::InvalidHandle);
            },
        };
        match call {
            NativeCall::Retain(_) => {
                if count == u64::MAX || self.retained == u64::MAX {
                    return Err(LedgerError::CounterOverflow);
                }
                self.counts.insert(raw, count + 1);
                self.retained = self.retained + 1;
                assert(self@.counts =~= old(self)@.retain(raw).counts);
            },
            NativeCall::Release(_) => {
                if self.released == u64::MAX || self.destroyed == u64::MAX {
                    return Err(LedgerError::CounterOverflow);
                }
                if count == 1 {
                    self.counts.remove(&raw);
                    self.destroyed = self.destroyed + 1;
                } else {
                    self.counts.insert(raw, count - 1);
                }
                self.released = self.released + 1;
                assert(self@.counts =~= old(self)@.release(raw).counts);
            },
        }
        Ok(())
    }

    /// The references outstanding on the resource at `address`: none if it
    /// is not alive.
    pub fn references(&self, address: Address) -> (count: u64)
        ensures
            count == self@.references(address.spec_raw()),
    {
        let raw = address.raw();
        match self.counts.get(&raw) {
            Some(count) => *count,
            None => 0,
        }
    }

    pub fn is_live(&self, address: Address) -> (live: bool)
        ensures
            live == self@.is_live(address.spec_raw()),
    {
        let raw = address.raw();
        self.counts.contains_key(&raw)
    }

    /// How many resources are alive.
    pub fn live_resources(&self) -> (count: usize)
        ensures
            count == self@.counts.dom().len(),
    {
        assert(self@.counts.dom() =~= self.counts@.dom());
        self.counts.len()
    }

    pub fn created(&self) -> (count: u64)
        ensures
            count == self@.created,
    {
        self.created
    }

    pub fn retained(&self) -> (count: u64)
        ensures
            count == self@.retained,
    {
        self.retained
    }

    pub fn released(&self) -> (count: u64)
        ensures
            count == self@.released,
    {
        self.released
    }

    pub fn destroyed(&self) -> (count: u64)
        ensures
            count == self@.destroyed,
    {
        self.destroyed
    }
}

} // verus!
