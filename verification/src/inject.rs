//! A registry of type-erased objects, keyed by the type under which they were stored.
use std::any::TypeId;
use std::sync::{Arc, RwLock};

use vstd::prelude::*;

verus! {

#[verifier::external_type_specification]
#[verifier::external_body]
pub struct ExTypeId(TypeId);

#[verifier::external_type_specification]
#[verifier::external_body]
#[verifier::reject_recursive_types(T)]
pub struct ExRwLock<T: ?Sized>(RwLock<T>);

/// One object whose static type has been erased: a `Box<dyn Any>`, kept behind
/// an opaque wrapper so that contracts treat it as a single value.
#[verifier::external_body]
pub struct Erased {
    value: Box<dyn std::any::Any>,
}

/// `TypeId::of::<T>()`. Nothing is stated of the result: which identifier belongs
/// to which type cannot be named in a contract.
#[verifier::external_body]
fn type_key<T: ?Sized + 'static>() -> (key: TypeId) {
    TypeId::of::<T>()
}

/// `<TypeId as PartialEq>::eq`: two type identifiers compare equal exactly when
/// they are the same value.
#[verifier::external_body]
fn same_type(a: &TypeId, b: &TypeId) -> (same: bool)
    ensures
        same == (*a == *b),
{
    *a == *b
}

/// `Box::new` followed by the unsizing coercion to `Box<dyn Any>`.
#[verifier::external_body]
fn erase<T: 'static>(item: T) -> (erased: Erased) {
    Erased { value: Box::new(item) }
}

/// `<dyn Any>::downcast_ref::<T>`. Which type an erased object holds is not
/// stated, so nothing is promised of the result.
#[verifier::external_body]
fn erased_ref<T: 'static>(erased: &Erased) -> (r: Option<&T>) {
    erased.value.downcast_ref::<T>()
}

/// `<dyn Any>::downcast_mut::<T>`. Nothing is promised of the result.
#[verifier::external_body]
fn erased_mut<T: 'static>(erased: &mut Erased) -> (r: Option<&mut T>) {
    erased.value.downcast_mut::<T>()
}

/// `<dyn Any>::downcast_ref::<Box<T>>`, then a dereference of the inner box to
/// reach the (possibly unsized) object. Nothing is promised of the result.
#[verifier::external_body]
fn erased_boxed_ref<T: ?Sized + 'static>(erased: &Erased) -> (r: Option<&T>) {
    match erased.value.downcast_ref::<Box<T>>() {
        Some(inner) => Some(&**inner),
        None => None,
    }
}

/// `<dyn Any>::downcast_mut::<Box<T>>`, then a dereference of the inner box.
/// Nothing is promised of the result.
#[verifier::external_body]
fn erased_boxed_mut<T: ?Sized + 'static>(erased: &mut Erased) -> (r: Option<&mut T>) {
    match erased.value.downcast_mut::<Box<T>>() {
        Some(inner) => Some(&mut **inner),
        None => None,
    }
}

/// `RwLock::new`.
#[verifier::external_body]
fn new_lock<T>(item: T) -> (lock: RwLock<T>) {
    RwLock::new(item)
}

/// `RwLock::get_mut`: the object inside the lock, reached through the exclusive
/// borrow. No locking takes place, so the call neither blocks nor panics; a lock
/// that a panicking thread poisoned still hands out its object. What the lock
/// holds is opaque, so nothing is stated of the result.
#[verifier::external_body]
fn lock_mut<T>(lock: &mut RwLock<T>) -> (inner: &mut T) {
    match lock.get_mut() {
        Ok(inner) => inner,
        Err(poisoned) => poisoned.into_inner(),
    }
}

/// An erased object together with the identifier of the type it was stored under.
pub struct ErasedSlot {
    pub key: TypeId,
    pub value: Erased,
}

/// The map from type identifiers to erased objects that a list of slots stands for.
pub open spec fn slot_map(slots: Seq<ErasedSlot>) -> Map<TypeId, Erased>
    decreases slots.len(),
{
    if slots.len() == 0 {
        Map::empty()
    } else {
        slot_map(slots.drop_last()).insert(slots.last().key, slots.last().value)
    }
}

/// No type identifier occurs in two slots.
pub open spec fn keys_unique(slots: Seq<ErasedSlot>) -> bool {
    forall|i: int, j: int|
        0 <= i < slots.len() && 0 <= j < slots.len() && i != j ==> slots[i].key != slots[j].key
}

/// The domain of the map is the set of keys in the slots.
pub proof fn lemma_slot_map_domain(slots: Seq<ErasedSlot>, key: TypeId)
    ensures
        slot_map(slots).contains_key(key) <==> exists|i: int|
            0 <= i < slots.len() && #[trigger] slots[i].key == key,
    decreases slots.len(),
{
    if slots.len() > 0 {
        let init = slots.drop_last();
        lemma_slot_map_domain(init, key);
        if slot_map(slots).contains_key(key) {
            if key != slots.last().key {
                let i: int = choose|i: int| 0 <= i < init.len() && #[trigger] init[i].key == key;
                assert(slots[i].key == key);
            } else {
                assert(slots[slots.len() - 1].key == key);
            }
        }
        if exists|i: int| 0 <= i < slots.len() && #[trigger] slots[i].key == key {
            let i: int = choose|i: int| 0 <= i < slots.len() && #[trigger] slots[i].key == key;
            if i < slots.len() - 1 {
                assert(init[i].key == key);
            }
        }
    }
}

/// With unique keys, the map sends the key of slot `i` to the value of slot `i`.
pub proof fn lemma_slot_map_value(slots: Seq<ErasedSlot>, i: int)
    requires
        keys_unique(slots),
        0 <= i < slots.len(),
    ensures
        slot_map(slots).contains_key(slots[i].key),
        slot_map(slots)[slots[i].key] == slots[i].value,
    decreases slots.len(),
{
    let init = slots.drop_last();
    if i < slots.len() - 1 {
        assert(keys_unique(init));
        lemma_slot_map_value(init, i);
        assert(slots[i].key != slots.last().key);
    }
}

/// Replacing the value of one slot replaces the value of its key in the map.
pub proof fn lemma_slot_map_update(slots: Seq<ErasedSlot>, i: int, value: Erased)
    requires
        keys_unique(slots),
        0 <= i < slots.len(),
    ensures
        slot_map(slots.update(i, ErasedSlot { key: slots[i].key, value })) == slot_map(
            slots,
        ).insert(slots[i].key, value),
    decreases slots.len(),
{
    let new_slots = slots.update(i, ErasedSlot { key: slots[i].key, value });
    let init = slots.drop_last();
    if i == slots.len() - 1 {
        assert(new_slots.drop_last() =~= init);
        lemma_slot_map_domain(init, slots[i].key);
        if slot_map(init).contains_key(slots[i].key) {
            let j: int = choose|j: int| 0 <= j < init.len() && #[trigger] init[j].key == slots[i].key;
            assert(slots[j].key == slots[i].key);
        }
        assert(slot_map(new_slots) =~= slot_map(slots).insert(slots[i].key, value));
    } else {
        assert(keys_unique(init));
        lemma_slot_map_update(init, i, value);
        assert(new_slots.drop_last() =~= init.update(i, ErasedSlot { key: slots[i].key, value }));
        assert(slots[i].key != slots.last().key);
        assert(slot_map(new_slots) =~= slot_map(slots).insert(slots[i].key, value));
    }
}

/// Replacing the value of one slot, whatever the new value, keeps the domain of the map.
pub proof fn lemma_slot_map_update_keeps_domain(slots: Seq<ErasedSlot>, i: int)
    requires
        keys_unique(slots),
        0 <= i < slots.len(),
    ensures
        forall|value: Erased|
            #![trigger slots.update(i, ErasedSlot { key: slots[i].key, value })]
            slot_map(slots.update(i, ErasedSlot { key: slots[i].key, value })).dom() == slot_map(
                slots,
            ).dom() && keys_unique(slots.update(i, ErasedSlot { key: slots[i].key, value })),
{
    assert forall|value: Erased|
        #![trigger slots.update(i, ErasedSlot { key: slots[i].key, value })]
        slot_map(slots.update(i, ErasedSlot { key: slots[i].key, value })).dom() == slot_map(
            slots,
        ).dom() && keys_unique(slots.update(i, ErasedSlot { key: slots[i].key, value })) by {
        lemma_slot_map_update(slots, i, value);
        lemma_slot_map_value(slots, i);
        assert(slot_map(slots).insert(slots[i].key, value).dom() =~= slot_map(slots).dom());
    }
}

/// Where `key` is absent, the position at which it would be found.
fn find_slot(slots: &Vec<ErasedSlot>, key: &TypeId) -> (found: Option<usize>)
    ensures
        match found {
            Some(i) => i < slots.len() && slots@[i as int].key == *key,
            None => forall|i: int| 0 <= i < slots.len() ==> slots@[i].key != *key,
        },
{
    let mut i: usize = 0;
    while i < slots.len()
        invariant
            i <= slots.len(),
            forall|j: int| 0 <= j < i ==> slots@[j].key != *key,
        decreases slots.len() - i,
    {
        if same_type(&slots[i].key, key) {
            return Some(i);
        }
        i = i + 1;
    }
    None
}

/// Store `value` under `key`, replacing what was stored under it before.
fn store_slot(slots: &mut Vec<ErasedSlot>, key: TypeId, value: Erased)
    requires
        keys_unique(old(slots)@),
    ensures
        keys_unique(final(slots)@),
        slot_map(final(slots)@) == slot_map(old(slots)@).insert(key, value),
{
    match find_slot(slots, &key) {
        Some(i) => {
            proof {
                lemma_slot_map_update(slots@, i as int, value);
            }
            slots.set(i, ErasedSlot { key, value });
        },
        None => {
            let ghost before = slots@;
            slots.push(ErasedSlot { key, value });
            assert(slots@.drop_last() =~= before);
        },
    }
}

/// The object stored under `key`, if any.
fn lookup_slot<'a>(slots: &'a Vec<ErasedSlot>, key: &TypeId) -> (found: Option<&'a Erased>)
    requires
        keys_unique(slots@),
    ensures
        match found {
            Some(value) => slot_map(slots@).contains_key(*key) && slot_map(slots@)[*key]
                == *value,
            None => !slot_map(slots@).contains_key(*key),
        },
{
    proof {
        lemma_slot_map_domain(slots@, *key);
    }
    match find_slot(slots, key) {
        Some(i) => {
            proof {
                lemma_slot_map_value(slots@, i as int);
            }
            Some(&slots[i].value)
        },
        None => None,
    }
}

/// A registry is a container for type-erased structs. It can store any struct,
/// or any boxed trait object, which can then be queried again by calling
/// `get::<T>()` for a regular struct or `get_dyn::<dyn Trait>()` for trait objects.
pub struct ErasedStorage {
    dyn_items: Vec<ErasedSlot>,
    items: Vec<ErasedSlot>,
}

impl ErasedStorage {
    /// The objects stored with `put`, by the identifier of their type.
    pub closed spec fn items(&self) -> Map<TypeId, Erased> {
        slot_map(self.items@)
    }

    /// The trait objects stored with `put_dyn`, by the identifier of the trait object type.
    pub closed spec fn dyn_items(&self) -> Map<TypeId, Erased> {
        slot_map(self.dyn_items@)
    }

    /// No type occurs twice in either registry.
    pub closed spec fn wf(&self) -> bool {
        keys_unique(self.items@) && keys_unique(self.dyn_items@)
    }

    /// Create a new, empty registry.
    pub fn new() -> (storage: Self)
        ensures
            storage.wf(),
            storage.items() == Map::<TypeId, Erased>::empty(),
            storage.dyn_items() == Map::<TypeId, Erased>::empty(),
    {
        ErasedStorage { dyn_items: Vec::new(), items: Vec::new() }
    }

    /// Put a static type `T` into the registry, replacing an earlier object of
    /// the same type. It can be retrieved back by calling `get::<T>()`.
    pub fn put<T: 'static>(&mut self, item: T)
        requires
            old(self).wf(),
        ensures
            final(self).wf(),
            exists|key: TypeId, value: Erased|
                final(self).items() == old(self).items().insert(key, value),
            final(self).dyn_items() == old(self).dyn_items(),
    {
        let key = type_key::<T>();
        let value = erase(item);
        store_slot(&mut self.items, key, value);
        assert(self.items() == old(self).items().insert(key, value));
    }

    /// Put a static type `T` into the registry, behind a reader-writer lock.
    /// It can be reached with `read_sync::<T>()` and `write_sync::<T>()`.
    pub fn put_sync<T: 'static>(&mut self, item: T)
        requires
            old(self).wf(),
        ensures
            final(self).wf(),
            exists|key: TypeId, value: Erased|
                final(self).items() == old(self).items().insert(key, value),
            final(self).dyn_items() == old(self).dyn_items(),
    {
        self.put(new_lock(item));
    }

    /// Put a boxed trait object into the registry. If called with `dyn MyTrait`,
    /// this takes a `Box<dyn MyTrait>`, which can be queried back with
    /// `get_dyn::<dyn MyTrait>()`.
    pub fn put_dyn<T: ?Sized + 'static>(&mut self, item: Box<T>)
        requires
            old(self).wf(),
        ensures
            final(self).wf(),
            exists|key: TypeId, value: Erased|
                final(self).dyn_items() == old(self).dyn_items().insert(key, value),
            final(self).items() == old(self).items(),
    {
        let key = type_key::<T>();
        let value = erase(item);
        store_slot(&mut self.dyn_items, key, value);
        assert(self.dyn_items() == old(self).dyn_items().insert(key, value));
    }

    /// Get the registered object for `T`, or `None` if it didn't exist.
    pub fn get<T: 'static>(&self) -> (found: Option<&T>)
        requires
            self.wf(),
        ensures
            found is Some ==> exists|key: TypeId| self.items().contains_key(key),
    {
        let key = type_key::<T>();
        match lookup_slot(&self.items, &key) {
            Some(value) => {
                assert(self.items().contains_key(key));
                erased_ref::<T>(value)
            },
            None => None,
        }
    }

    /// Read a synchronized object stored in the registry with `put_sync`, or
    /// `None` if there is none. The registry is borrowed exclusively, which gives
    /// exclusive access to the lock, so the object is reached without locking.
    pub fn read_sync<T: 'static>(&mut self) -> (found: Option<&T>)
        requires
            old(self).wf(),
        ensures
            final(self).wf(),
            final(self).items().dom() == old(self).items().dom(),
            final(self).dyn_items() == old(self).dyn_items(),
            found is Some ==> exists|key: TypeId| old(self).items().contains_key(key),
    {
        match self.get_mut::<RwLock<T>>() {
            Some(lock) => Some(&*lock_mut(lock)),
            None => None,
        }
    }

    /// Modify a synchronized object stored in the registry with `put_sync`, or
    /// `None` if there is none. As with `read_sync`, no locking takes place.
    pub fn write_sync<T: 'static>(&mut self) -> (found: Option<&mut T>)
        requires
            old(self).wf(),
        ensures
            final(self).wf(),
            final(self).items().dom() == old(self).items().dom(),
            final(self).dyn_items() == old(self).dyn_items(),
            found is Some ==> exists|key: TypeId| old(self).items().contains_key(key),
    {
        match self.get_mut::<RwLock<T>>() {
            Some(lock) => Some(lock_mut(lock)),
            None => None,
        }
    }

    /// Get a mutable reference to the registered object for `T`, or `None` if it didn't exist.
    pub fn get_mut<T: 'static>(&mut self) -> (found: Option<&mut T>)
        requires
            old(self).wf(),
        ensures
            final(self).wf(),
            final(self).items().dom() == old(self).items().dom(),
            final(self).dyn_items() == old(self).dyn_items(),
            found is Some ==> exists|key: TypeId| old(self).items().contains_key(key),
    {
        let key = type_key::<T>();
        match find_slot(&self.items, &key) {
            Some(i) => {
                proof {
                    lemma_slot_map_value(self.items@, i as int);
                    lemma_slot_map_update_keeps_domain(self.items@, i as int);
                    assert(self.items().contains_key(key));
                }
                let slot = &mut self.items[i];
                erased_mut::<T>(&mut slot.value)
            },
            None => None,
        }
    }

    /// Get the registered implementation for `dyn MyTrait`, or `None` if it didn't exist.
    pub fn get_dyn<T: ?Sized + 'static>(&self) -> (found: Option<&T>)
        requires
            self.wf(),
        ensures
            found is Some ==> exists|key: TypeId| self.dyn_items().contains_key(key),
    {
        let key = type_key::<T>();
        match lookup_slot(&self.dyn_items, &key) {
            Some(value) => {
                assert(self.dyn_items().contains_key(key));
                erased_boxed_ref::<T>(value)
            },
            None => None,
        }
    }

    /// Get a mutable reference to the registered implementation for `dyn MyTrait`,
    /// or `None` if it didn't exist.
    pub fn get_dyn_mut<T: ?Sized + 'static>(&mut self) -> (found: Option<&mut T>)
        requires
            old(self).wf(),
        ensures
            final(self).wf(),
            final(self).dyn_items().dom() == old(self).dyn_items().dom(),
            final(self).items() == old(self).items(),
            found is Some ==> exists|key: TypeId| old(self).dyn_items().contains_key(key),
    {
        let key = type_key::<T>();
        match find_slot(&self.dyn_items, &key) {
            Some(i) => {
                proof {
                    lemma_slot_map_value(self.dyn_items@, i as int);
                    lemma_slot_map_update_keeps_domain(self.dyn_items@, i as int);
                    assert(self.dyn_items().contains_key(key));
                }
                let slot = &mut self.dyn_items[i];
                erased_boxed_mut::<T>(&mut slot.value)
            },
            None => None,
        }
    }
}

/// The dependency-injection container shared between systems: a registry behind
/// a reader-writer lock, reference counted so that it can be cloned cheaply.
#[derive(Clone)]
pub struct DI(pub Arc<RwLock<ErasedStorage>>);

impl DI {
    /// Create a container holding an empty registry.
    pub fn new() -> (di: Self) {
        DI(Arc::new(new_lock(ErasedStorage::new())))
    }
}

impl Default for DI {
    /// A container holding an empty registry.
    fn default() -> (di: Self) {
        DI::new()
    }
}

impl std::ops::Deref for DI {
    type Target = Arc<RwLock<ErasedStorage>>;

    fn deref(&self) -> (target: &Self::Target)
        ensures
            *target == self.0,
    {
        &self.0
    }
}

} // verus!
