//! The slot map that hands out asset keys, and what the asset container asks of it.
#![allow(deprecated)]
use std::collections::HashMap;

use slotmap::{DefaultKey, HopSlotMap, Key, KeyData};
use vstd::prelude::*;

use crate::assets::handle::is_key_code;
use crate::assets::storage::{is_live, AssetEntry};

verus! {

/// A `HopSlotMap` that only hands out keys. The map type is bounded by a trait
/// of the slotmap crate, which a declared outside type cannot carry, so the map
/// is kept in this opaque wrapper.
#[verifier::external_body]
pub struct KeySlots {
    slots: HopSlotMap<DefaultKey, ()>,
}

/// The codes (`KeyData::as_ffi`) of the keys that are live in the slot map.
pub uninterp spec fn slot_keys(slots: KeySlots) -> Set<u64>;

/// The version of each slot that holds or once held a key, by slot index (the
/// sentinel slot 0 is left out). A slot's version is odd while it holds a key
/// and even while it is vacant.
pub uninterp spec fn slot_versions(slots: KeySlots) -> Map<u32, u32>;

/// The slot index a key code names: its lower 32 bits.
pub open spec fn code_index(code: u64) -> u32 {
    (code % 0x1_0000_0000) as u32
}

/// The slot version a key code names: its upper 32 bits.
pub open spec fn code_version(code: u64) -> u32 {
    (code / 0x1_0000_0000) as u32
}

/// The code of the key for slot `idx` at `version`.
pub open spec fn key_code(idx: u32, version: u32) -> u64 {
    (version * 0x1_0000_0000 + idx) as u64
}

/// A slot's version after its key is removed: one more, wrapping around.
pub open spec fn bumped(version: u32) -> u32 {
    if version == 0xFFFF_FFFF {
        0
    } else {
        (version + 1) as u32
    }
}

/// The live keys are exactly the codes of the occupied slots, each at the
/// slot's current version.
pub open spec fn slots_agree(keys: Set<u64>, versions: Map<u32, u32>) -> bool {
    forall|code: u64|
        #[trigger] keys.contains(code) <==> versions.contains_key(code_index(code))
            && versions[code_index(code)] % 2 == 1 && versions[code_index(code)] == code_version(
            code,
        )
}

/// The versions after `retain`: each occupied slot whose key is not kept has
/// its version bumped.
pub open spec fn retained_versions(versions: Map<u32, u32>, kept: Set<u64>) -> Map<u32, u32> {
    Map::new(
        |i: u32| versions.contains_key(i),
        |i: u32|
            if versions[i] % 2 == 1 && !kept.contains(key_code(i, versions[i])) {
                bumped(versions[i])
            } else {
                versions[i]
            },
    )
}

/// `HopSlotMap::new`: the new map holds no key and has no slot besides the
/// sentinel.
#[verifier::external_body]
pub fn new_slots() -> (slots: KeySlots)
    ensures
        slot_keys(slots) == Set::<u64>::empty(),
        slot_versions(slots).dom() == Set::<u32>::empty(),
        slots_agree(slot_keys(slots), slot_versions(slots)),
{
    KeySlots { slots: HopSlotMap::new() }
}

/// `HopSlotMap::insert`, returning the code of the new key. The key is not one of
/// the live keys, and its version, the upper half of the code, is odd. With no
/// vacant slot a new slot is added at version 1; otherwise a vacant slot (even
/// version) is reused at one version more. The map panics when it already holds
/// 2^32 - 2 keys, so that input is excluded.
#[verifier::external_body]
pub fn insert_slot(slots: &mut KeySlots) -> (code: u64)
    requires
        slot_keys(*old(slots)).finite(),
        slot_keys(*old(slots)).len() < 0xFFFF_FFFE,
    ensures
        is_key_code(code),
        !slot_keys(*old(slots)).contains(code),
        slot_keys(*final(slots)) == slot_keys(*old(slots)).insert(code),
        slot_versions(*final(slots)) == slot_versions(*old(slots)).insert(
            code_index(code),
            code_version(code),
        ),
        slot_versions(*old(slots)).contains_key(code_index(code)) ==> slot_versions(
            *old(slots),
        )[code_index(code)] % 2 == 0 && code_version(code) == slot_versions(
            *old(slots),
        )[code_index(code)] + 1,
        !slot_versions(*old(slots)).contains_key(code_index(code)) ==> code_version(code) == 1,
        slots_agree(slot_keys(*final(slots)), slot_versions(*final(slots))),
{
    slots.slots.insert(()).data().as_ffi()
}

/// `HopSlotMap::remove` of the key with the given code (`KeyData::from_ffi`,
/// which gives back the key that the code was made from). A live key's slot
/// gets its version bumped; any other code changes nothing.
#[verifier::external_body]
pub fn remove_slot(slots: &mut KeySlots, code: u64)
    requires
        is_key_code(code),
    ensures
        slot_keys(*final(slots)) == slot_keys(*old(slots)).remove(code),
        slot_versions(*final(slots)) == if slot_keys(*old(slots)).contains(code) {
            slot_versions(*old(slots)).insert(
                code_index(code),
                bumped(slot_versions(*old(slots))[code_index(code)]),
            )
        } else {
            slot_versions(*old(slots))
        },
        slots_agree(slot_keys(*final(slots)), slot_versions(*final(slots))),
{
    slots.slots.remove(DefaultKey::from(KeyData::from_ffi(code)));
}

/// `HopSlotMap::retain`, keeping exactly the keys whose code is a key of
/// `entries`; the slots of the keys it drops get their versions bumped.
#[verifier::external_body]
pub fn retain_slots<A>(slots: &mut KeySlots, entries: &HashMap<u64, AssetEntry<A>>)
    ensures
        slot_keys(*final(slots)) == slot_keys(*old(slots)).filter(|code: u64| entries@.contains_key(code)),
        slot_versions(*final(slots)) == retained_versions(slot_versions(*old(slots)), entries@.dom()),
        slots_agree(slot_keys(*final(slots)), slot_versions(*final(slots))),
{
    slots.slots.retain(|key, _| is_live(entries, key.data().as_ffi()));
}

} // verus!
