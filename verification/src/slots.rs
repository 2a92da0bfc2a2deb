//! Trusted boundary around the `slotmap` crate.
//!
//! The registry allocates device handles from a `slotmap::SlotMap` and keeps
//! per-device records in a `slotmap::SecondaryMap`. Both collections are
//! opaque to the verifier; each operation the registry needs is wrapped here
//! with a contract that states what the collection's source shows. A key is
//! identified in specifications by `entity_id`, the 64-bit value that
//! `slotmap::KeyData::as_ffi` computes from its slot index and version.

use vstd::prelude::*;
use crate::device::DeviceRecord;

verus! {

#[verifier::external_type_specification]
#[verifier::external_body]
pub struct ExDefaultKey(slotmap::DefaultKey);

/// The 64-bit identity of a key: the result of `slotmap::KeyData::as_ffi`,
/// `(version << 32) | index`, a function of the key alone. Distinct keys have
/// distinct identities, since `as_ffi` encodes both fields injectively.
pub uninterp spec fn entity_id(k: slotmap::DefaultKey) -> u64;

/// The slot index encoded in a key identity: its low 32 bits.
pub open spec fn slot_index(id: u64) -> u64 {
    id & 0xffff_ffffu64
}

/// The index that `slotmap` reserves for the null key.
pub open spec fn null_index() -> u64 {
    0xffff_ffffu64
}

/// Relies on `slotmap::Key::data` and `slotmap::KeyData::as_ffi`: together
/// they read the key's slot index and version as one 64-bit value.
#[verifier::external_body]
pub fn key_value(k: slotmap::DefaultKey) -> (r: u64)
    ensures
        r == entity_id(k),
{
    slotmap::Key::data(&k).as_ffi()
}

/// Relies on `slotmap::DefaultKey`'s derived `Clone`, which copies the key.
pub assume_specification[ <slotmap::DefaultKey as Clone>::clone ](
    k: &slotmap::DefaultKey,
) -> (r: slotmap::DefaultKey)
    ensures
        r == *k,
;

/// Handle allocator for the registry: a `slotmap::SlotMap` whose keys are the
/// device entities; the stored unit values are unused.
#[verifier::external_body]
pub struct EntitySlots {
    inner: slotmap::SlotMap<slotmap::DefaultKey, ()>,
}

/// The identities of the keys currently live in the allocator: the occupied
/// slots, each keyed by its index and current version.
pub uninterp spec fn live_ids(s: EntitySlots) -> Set<u64>;

/// The number of slots the allocator has ever created, vacant ones included;
/// `slotmap::SlotMap` panics on insertion only once this reaches `u32::MAX`.
pub uninterp spec fn slot_space(s: EntitySlots) -> nat;

/// Relies on `slotmap::SlotMap::new`: an empty map holding only the one
/// sentinel slot it is created with.
#[verifier::external_body]
pub fn slots_new() -> (r: EntitySlots)
    ensures
        live_ids(r) == Set::<u64>::empty(),
        slot_space(r) == 1,
{
    EntitySlots { inner: slotmap::SlotMap::new() }
}

/// Relies on `slotmap::SlotMap::insert`: it occupies a vacant slot (or pushes
/// one new slot), so the returned key's identity is new, its slot index is
/// shared with no live key, and is neither the null index nor index 0 — the
/// sentinel slot, which starts outside the free list and is never re-linked
/// or pushed. No other live key changes.
#[verifier::external_body]
pub fn slots_insert(s: &mut EntitySlots) -> (k: slotmap::DefaultKey)
    requires
        slot_space(*old(s)) < 0xffff_ffffnat,
    ensures
        !live_ids(*old(s)).contains(entity_id(k)),
        live_ids(*final(s)) == live_ids(*old(s)).insert(entity_id(k)),
        slot_space(*final(s)) <= slot_space(*old(s)) + 1,
        slot_index(entity_id(k)) != null_index(),
        slot_index(entity_id(k)) != 0,
        forall|j: u64|
            live_ids(*old(s)).contains(j) ==> slot_index(j) != slot_index(entity_id(k)),
{
    s.inner.insert(())
}

/// Relies on `slotmap::SlotMap::contains_key`: true exactly when the key's
/// slot is occupied under the key's own version, i.e. the key is live.
#[verifier::external_body]
pub fn slots_contains(s: &EntitySlots, k: slotmap::DefaultKey) -> (r: bool)
    ensures
        r == live_ids(*s).contains(entity_id(k)),
{
    s.inner.contains_key(k)
}

/// Relies on `slotmap::SlotMap::clear`: it vacates every slot, keeping the
/// allocation, so no key remains live and no slot is added.
#[verifier::external_body]
pub fn slots_clear(s: &mut EntitySlots)
    ensures
        live_ids(*final(s)) == Set::<u64>::empty(),
        slot_space(*final(s)) <= slot_space(*old(s)),
{
    s.inner.clear()
}

/// Per-entity record storage: a `slotmap::SecondaryMap` from device entities
/// to their records.
#[verifier::external_body]
pub struct RecordSlots {
    inner: slotmap::SecondaryMap<slotmap::DefaultKey, DeviceRecord>,
}

/// The contents of the record storage: each occupied slot's value, keyed by
/// the identity (index and stored version) under which it was inserted.
pub uninterp spec fn records_of(s: RecordSlots) -> Map<u64, DeviceRecord>;

/// True of an empty record table.
pub open spec fn records_empty(m: Map<u64, DeviceRecord>) -> bool {
    m =~= Map::empty()
}

/// Relies on `slotmap::SecondaryMap::new`: an empty map.
#[verifier::external_body]
pub fn records_new() -> (r: RecordSlots)
    ensures
        records_empty(records_of(r)),
{
    RecordSlots { inner: slotmap::SecondaryMap::new() }
}

/// Relies on `slotmap::SecondaryMap::insert`. For a non-null key whose slot
/// holds no entry of another version, the slot comes to hold this value under
/// the key's version: either the slot was vacant, or it already held an entry
/// under this same key and the value is replaced. Entries of other keys keep
/// distinct slots, so they are unchanged. Slot index 0 is excluded so that
/// every entry lies at an index `clear`'s drain visits.
#[verifier::external_body]
pub fn records_insert(s: &mut RecordSlots, k: slotmap::DefaultKey, v: DeviceRecord)
    requires
        slot_index(entity_id(k)) != null_index(),
        slot_index(entity_id(k)) != 0,
        forall|j: u64|
            records_of(*old(s)).dom().contains(j)
                && slot_index(j) == slot_index(entity_id(k)) ==> j == entity_id(k),
    ensures
        records_of(*final(s)) == records_of(*old(s)).insert(entity_id(k), v),
{
    s.inner.insert(k, v);
}

/// Relies on `slotmap::SecondaryMap::get`: it returns the slot's value exactly
/// when the slot is occupied under the key's own version, which is exactly
/// when an entry was inserted under this key's identity and not overwritten.
#[verifier::external_body]
pub fn records_get(s: &RecordSlots, k: slotmap::DefaultKey) -> (r: Option<&DeviceRecord>)
    ensures
        match r {
            Some(v) => records_of(*s).dom().contains(entity_id(k))
                && *v == records_of(*s)[entity_id(k)],
            None => !records_of(*s).dom().contains(entity_id(k)),
        },
{
    s.inner.get(k)
}

/// Relies on `slotmap::SecondaryMap::clear`: its drain vacates every slot
/// from index 1 up, and `records_insert` admits no entry at index 0, so no
/// entry survives.
#[verifier::external_body]
pub fn records_clear(s: &mut RecordSlots)
    ensures
        records_empty(records_of(*final(s))),
{
    s.inner.clear()
}

} // verus!
