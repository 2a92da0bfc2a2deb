//! The entity registry: allocates device handles, stores one record per live
//! device, keeps the presentation list in discovery order, and tracks the
//! aggregated group's membership and shared state.
//!
//! A handle is valid from its allocation to the next `clear`; a lookup with a
//! cleared or unknown handle reports "not found" instead of faulting.

use vstd::prelude::*;
use crate::device::DeviceRecord;
use crate::slots::{
    entity_id, live_ids, null_index, records_clear, records_get, records_insert, records_new,
    records_of, slot_index, slot_space, slots_clear, slots_contains, slots_insert, slots_new,
    EntitySlots, RecordSlots,
};

verus! {

/// Most allocations the registry accepts over its lifetime; at this bound the
/// underlying slot map could be full.
pub const MAX_ALLOCS: u64 = 0xffff_fffe;

pub struct Registry {
    /// Handle allocator; a handle is live until the next `clear`.
    pub slots: EntitySlots,
    /// One record per live handle.
    pub records: RecordSlots,
    /// Live handles in discovery order: the presentation list.
    pub order: Vec<slotmap::DefaultKey>,
    /// Handles of the aggregated group, in discovery order.
    pub group_members: Vec<slotmap::DefaultKey>,
    /// The group's one shared upgrade decision.
    pub group_upgradeable: bool,
    /// The group's one shared firmware digest: the latest one any member
    /// reported.
    pub group_digest: Option<String>,
    /// Handles allocated since creation; bounds the slot space used.
    pub allocs: u64,
}

impl Registry {
    /// The identities of the currently live handles.
    pub open spec fn live(self) -> Set<u64> {
        live_ids(self.slots)
    }

    /// The record table, keyed by handle identity.
    pub open spec fn table(self) -> Map<u64, DeviceRecord> {
        records_of(self.records)
    }

    /// The presentation list as handle identities.
    pub open spec fn order_ids(self) -> Seq<u64> {
        self.order@.map_values(|k: slotmap::DefaultKey| entity_id(k))
    }

    /// The group membership as handle identities.
    pub open spec fn group_ids(self) -> Seq<u64> {
        self.group_members@.map_values(|k: slotmap::DefaultKey| entity_id(k))
    }

    /// Well-formedness: records exist exactly for live handles; live handles
    /// occupy pairwise distinct slots and never the null slot; the
    /// presentation list enumerates the live handles once each; group members
    /// are live, listed once each, and are exactly the records marked grouped.
    pub open spec fn wf(self) -> bool {
        &&& self.table().dom() =~= self.live()
        &&& forall|j: u64|
            self.live().contains(j) ==> slot_index(j) != null_index() && slot_index(j) != 0
        &&& forall|j1: u64, j2: u64|
            self.live().contains(j1) && self.live().contains(j2) && j1 != j2
                ==> slot_index(j1) != slot_index(j2)
        &&& self.order_ids().no_duplicates()
        &&& self.order_ids().to_set() =~= self.live()
        &&& self.group_ids().no_duplicates()
        &&& forall|i: int|
            0 <= i < self.group_ids().len() ==> self.live().contains(self.group_ids()[i])
        &&& forall|j: u64|
            self.live().contains(j)
                ==> (self.table()[j].grouped <==> self.group_ids().contains(j))
        &&& slot_space(self.slots) <= self.allocs + 1
    }

    /// True when nothing is registered.
    pub open spec fn is_empty(self) -> bool {
        &&& self.live() =~= Set::<u64>::empty()
        &&& self.order_ids() =~= Seq::<u64>::empty()
        &&& self.group_ids() =~= Seq::<u64>::empty()
        &&& !self.group_upgradeable
        &&& self.group_digest is None
    }

    /// A fresh, empty registry.
    pub fn new() -> (r: Registry)
        ensures
            r.wf(),
            r.is_empty(),
            r.allocs == 0,
    {
        let r = Registry {
            slots: slots_new(),
            records: records_new(),
            order: Vec::new(),
            group_members: Vec::new(),
            group_upgradeable: false,
            group_digest: None,
            allocs: 0,
        };
        proof {
            assert(r.order_ids() =~= Seq::<u64>::empty());
            assert(r.group_ids() =~= Seq::<u64>::empty());
            assert(r.order_ids().to_set() =~= r.live());
        }
        r
    }

    /// Allocates a fresh handle and stores its record. The handle is new: it
    /// is not live before the call, and every other record is untouched.
    pub fn insert(&mut self, rec: DeviceRecord) -> (k: slotmap::DefaultKey)
        requires
            old(self).wf(),
            old(self).allocs < MAX_ALLOCS,
            !rec.grouped,
        ensures
            final(self).wf(),
            !old(self).live().contains(entity_id(k)),
            final(self).live() == old(self).live().insert(entity_id(k)),
            final(self).table() == old(self).table().insert(entity_id(k), rec),
            final(self).order@ == old(self).order@.push(k),
            final(self).group_members == old(self).group_members,
            final(self).group_upgradeable == old(self).group_upgradeable,
            final(self).group_digest == old(self).group_digest,
            final(self).allocs == old(self).allocs + 1,
    {
        let k = slots_insert(&mut self.slots);
        records_insert(&mut self.records, k, rec);
        self.order.push(k);
        self.allocs = self.allocs + 1;
        proof {
            let id = entity_id(k);
            assert(self.order_ids() =~= old(self).order_ids().push(id));
            assert(self.order_ids().to_set() =~= self.live()) by {
                assert forall|j: u64| self.order_ids().contains(j) implies self.live().contains(
                    j,
                ) by {
                    if j != id {
                        assert(old(self).order_ids().contains(j));
                    }
                };
                assert forall|j: u64| self.live().contains(j) implies self.order_ids().contains(
                    j,
                ) by {
                    if j == id {
                        assert(self.order_ids()[self.order_ids().len() - 1] == id);
                    } else {
                        assert(old(self).order_ids().contains(j));
                        let i = choose|i: int|
                            0 <= i < old(self).order_ids().len() && old(self).order_ids()[i] == j;
                        assert(self.order_ids()[i] == j);
                    }
                };
            };
            assert(!old(self).order_ids().contains(id));
            assert(self.group_ids() =~= old(self).group_ids());
            assert forall|j: u64|
                self.live().contains(j) implies (self.table()[j].grouped
                <==> self.group_ids().contains(j)) by {
                if j != id {
                    assert(old(self).live().contains(j));
                }
            };
            assert(self.table().dom() =~= self.live());
        }
        k
    }

    /// Whether the handle is currently live.
    pub fn contains(&self, k: slotmap::DefaultKey) -> (r: bool)
        requires
            self.wf(),
        ensures
            r == self.live().contains(entity_id(k)),
    {
        slots_contains(&self.slots, k)
    }

    /// The handle's record, or `None` for a cleared or unknown handle.
    pub fn get(&self, k: slotmap::DefaultKey) -> (r: Option<&DeviceRecord>)
        requires
            self.wf(),
        ensures
            match r {
                Some(v) => self.live().contains(entity_id(k)) && *v == self.table()[entity_id(
                    k,
                )],
                None => !self.live().contains(entity_id(k)),
            },
    {
        records_get(&self.records, k)
    }

    /// Replaces the record of a live handle; with a cleared or unknown handle
    /// this is a no-op, not a fault. The record's group membership cannot
    /// change this way.
    pub fn set(&mut self, k: slotmap::DefaultKey, rec: DeviceRecord)
        requires
            old(self).wf(),
            old(self).live().contains(entity_id(k)) ==> rec.grouped == old(self).table()[entity_id(
                k,
            )].grouped,
        ensures
            final(self).wf(),
            old(self).live().contains(entity_id(k)) ==> final(self).table() == old(
                self,
            ).table().insert(entity_id(k), rec),
            !old(self).live().contains(entity_id(k)) ==> final(self).table() == old(self).table(),
            final(self).live() == old(self).live(),
            final(self).order == old(self).order,
            final(self).group_members == old(self).group_members,
            final(self).group_upgradeable == old(self).group_upgradeable,
            final(self).group_digest == old(self).group_digest,
            final(self).allocs == old(self).allocs,
    {
        if slots_contains(&self.slots, k) {
            records_insert(&mut self.records, k, rec);
            proof {
                assert(self.table().dom() =~= self.live());
            }
        }
    }

    /// Marks a live handle as whole-system firmware; a no-op for a cleared or
    /// unknown handle.
    pub fn mark_system(&mut self, k: slotmap::DefaultKey)
        requires
            old(self).wf(),
        ensures
            final(self).wf(),
            old(self).live().contains(entity_id(k)) ==> final(self).table() == old(
                self,
            ).table().insert(
                entity_id(k),
                DeviceRecord { is_system: true, ..old(self).table()[entity_id(k)] },
            ),
            !old(self).live().contains(entity_id(k)) ==> final(self).table() == old(self).table(),
            final(self).live() == old(self).live(),
            final(self).order == old(self).order,
            final(self).group_members == old(self).group_members,
            final(self).group_upgradeable == old(self).group_upgradeable,
            final(self).group_digest == old(self).group_digest,
            final(self).allocs == old(self).allocs,
    {
        let current = records_get(&self.records, k);
        match current {
            Some(rec) => {
                let updated = DeviceRecord { is_system: true, ..rec.duplicate() };
                records_insert(&mut self.records, k, updated);
                proof {
                    assert(self.table().dom() =~= self.live());
                }
            },
            None => {},
        }
    }

    /// Whether the handle is live and marked as whole-system firmware.
    pub fn is_system(&self, k: slotmap::DefaultKey) -> (r: bool)
        requires
            self.wf(),
        ensures
            r == (self.live().contains(entity_id(k)) && self.table()[entity_id(k)].is_system),
    {
        match records_get(&self.records, k) {
            Some(rec) => rec.is_system,
            None => false,
        }
    }

    /// Adds a live handle to the aggregated group and marks its record
    /// grouped; a no-op for a cleared or unknown handle, or one already in
    /// the group.
    pub fn insert_into_group(&mut self, k: slotmap::DefaultKey)
        requires
            old(self).wf(),
        ensures
            final(self).wf(),
            final(self).live() == old(self).live(),
            final(self).order == old(self).order,
            final(self).group_upgradeable == old(self).group_upgradeable,
            final(self).group_digest == old(self).group_digest,
            final(self).allocs == old(self).allocs,
            old(self).live().contains(entity_id(k)) && !old(self).group_ids().contains(entity_id(
                k,
            )) ==> final(self).group_members@ == old(self).group_members@.push(k)
                && final(self).table() == old(self).table().insert(
                entity_id(k),
                DeviceRecord { grouped: true, ..old(self).table()[entity_id(k)] },
            ),
            !(old(self).live().contains(entity_id(k)) && !old(self).group_ids().contains(entity_id(
                k,
            ))) ==> final(self).group_members == old(self).group_members && final(self).table()
                == old(self).table(),
    {
        let current = records_get(&self.records, k);
        match current {
            Some(rec) => {
                if !rec.grouped {
                    let updated = DeviceRecord { grouped: true, ..rec.duplicate() };
                    records_insert(&mut self.records, k, updated);
                    self.group_members.push(k);
                    proof {
                        let id = entity_id(k);
                        assert(self.group_ids() =~= old(self).group_ids().push(id));
                        assert(self.table().dom() =~= self.live());
                        assert forall|j: u64|
                            self.live().contains(j) implies (self.table()[j].grouped
                            <==> self.group_ids().contains(j)) by {
                            if j == id {
                                assert(self.group_ids()[self.group_ids().len() - 1] == id);
                            } else {
                                assert(old(self).group_ids().contains(j)
                                    == self.group_ids().contains(j)) by {
                                    if self.group_ids().contains(j) {
                                        let i = choose|i: int|
                                            0 <= i < self.group_ids().len() && self.group_ids()[i]
                                                == j;
                                        assert(i < old(self).group_ids().len());
                                        assert(old(self).group_ids()[i] == j);
                                    }
                                    if old(self).group_ids().contains(j) {
                                        let i = choose|i: int|
                                            0 <= i < old(self).group_ids().len() && old(
                                                self,
                                            ).group_ids()[i] == j;
                                        assert(self.group_ids()[i] == j);
                                    }
                                };
                            }
                        };
                    }
                } else {
                    proof {
                        assert(old(self).group_ids().contains(entity_id(k)));
                    }
                }
            },
            None => {},
        }
    }

    /// The aggregated group's members, in discovery order.
    pub fn group_members(&self) -> (r: &Vec<slotmap::DefaultKey>)
        ensures
            r == self.group_members,
    {
        &self.group_members
    }

    /// How many devices are listed.
    pub fn len(&self) -> (r: usize)
        ensures
            r == self.order_ids().len(),
    {
        self.order.len()
    }

    /// Invalidates every handle and empties records, presentation list, group
    /// membership and group state, atomically from the caller's view.
    pub fn clear(&mut self)
        requires
            old(self).wf(),
        ensures
            final(self).wf(),
            final(self).is_empty(),
            final(self).allocs == old(self).allocs,
    {
        slots_clear(&mut self.slots);
        records_clear(&mut self.records);
        self.order = Vec::new();
        self.group_members = Vec::new();
        self.group_upgradeable = false;
        self.group_digest = None;
        proof {
            assert(self.order_ids() =~= Seq::<u64>::empty());
            assert(self.group_ids() =~= Seq::<u64>::empty());
            assert(self.order_ids().to_set() =~= self.live());
            assert(self.table().dom() =~= self.live());
        }
    }
}

} // verus!
