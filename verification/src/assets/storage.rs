//! The container that stores all assets of one type, each of which is pending,
//! failed or ready.
use std::collections::HashMap;

use vstd::prelude::*;

use crate::assets::handle::{is_key_code, Handle};
use crate::assets::slots::{
    bumped, code_index, code_version, insert_slot, key_code, new_slots, remove_slot, retain_slots, slot_keys,
    slot_versions, slots_agree, KeySlots,
};

verus! {

broadcast use vstd::std_specs::hash::group_hash_axioms;

#[verifier::external_type_specification]
#[verifier::external_body]
pub struct ExAnyhowError(anyhow::Error);

/// An entry in the asset storage.
pub enum AssetEntry<A> {
    /// The asset is still being loaded.
    Pending,
    /// Loading the asset failed with this error.
    Failed(anyhow::Error),
    /// The asset was loaded.
    Ready(A),
}

/// Either a reference to an asset, or a marker indicating that the asset is still loading.
pub enum AssetRef<'a, A> {
    Pending,
    Failed(&'a anyhow::Error),
    Ready(&'a A),
}

/// What polling an asset tells a caller who waits for it.
#[derive(Debug, Clone, Copy, PartialEq, Eq, Structural)]
pub enum PollResult {
    /// Still loading: poll again later.
    Pending,
    /// Failed, or no longer stored: polling will never succeed.
    Failed,
    /// Loaded: the asset can be used now.
    Ready,
}

/// A reference describes an entry when both are in the same state and refer to
/// the same error or asset.
pub open spec fn describes<A>(r: AssetRef<A>, entry: AssetEntry<A>) -> bool {
    match (r, entry) {
        (AssetRef::Pending, AssetEntry::Pending) => true,
        (AssetRef::Failed(err), AssetEntry::Failed(e)) => *err == e,
        (AssetRef::Ready(asset), AssetEntry::Ready(a)) => *asset == a,
        _ => false,
    }
}

/// The entry that a finished load leaves behind.
pub open spec fn loaded_entry<A>(result: Result<A, anyhow::Error>) -> AssetEntry<A> {
    match result {
        Ok(value) => AssetEntry::Ready(value),
        Err(err) => AssetEntry::Failed(err),
    }
}

/// What polling the asset with key `code` in `entries` gives.
pub open spec fn poll_status<A>(entries: Map<u64, AssetEntry<A>>, code: u64) -> PollResult {
    if !entries.contains_key(code) {
        PollResult::Failed
    } else {
        match entries[code] {
            AssetEntry::Pending => PollResult::Pending,
            AssetEntry::Failed(_) => PollResult::Failed,
            AssetEntry::Ready(_) => PollResult::Ready,
        }
    }
}

/// The asset with key `code` is stored and ready.
pub open spec fn ready_in<A>(entries: Map<u64, AssetEntry<A>>, code: u64) -> bool {
    entries.contains_key(code) && entries[code] is Ready
}

/// The entries that `clear_failed_assets` keeps.
pub open spec fn without_failed<A>(entries: Map<u64, AssetEntry<A>>) -> Map<u64, AssetEntry<A>> {
    entries.restrict(entries.dom().filter(|code: u64| !(entries[code] is Failed)))
}

/// The entries after recording finished loads in order: the result of each
/// load replaces the entry of its asset.
pub open spec fn recorded<A>(
    entries: Map<u64, AssetEntry<A>>,
    loads: Seq<(Handle<A>, Result<A, anyhow::Error>)>,
) -> Map<u64, AssetEntry<A>>
    decreases loads.len(),
{
    if loads.len() == 0 {
        entries
    } else {
        recorded(entries.insert(loads[0].0.code(), loaded_entry(loads[0].1)), loads.drop_first())
    }
}

/// Every load is for an asset stored in `entries`.
pub open spec fn loads_stored<A>(
    entries: Map<u64, AssetEntry<A>>,
    loads: Seq<(Handle<A>, Result<A, anyhow::Error>)>,
) -> bool {
    forall|i: int| 0 <= i < loads.len() ==> entries.contains_key(#[trigger] loads[i].0.code())
}

impl<A> AssetEntry<A> {
    /// Obtain an AssetRef from this entry.
    pub fn as_ref(&self) -> (r: AssetRef<'_, A>)
        ensures
            describes(r, *self),
    {
        match self {
            AssetEntry::Pending => AssetRef::Pending,
            AssetEntry::Failed(err) => AssetRef::Failed(err),
            AssetEntry::Ready(asset) => AssetRef::Ready(asset),
        }
    }

    /// Whether `clear_failed_assets` keeps this entry: it did not fail.
    pub fn is_kept(&self) -> (kept: bool)
        ensures
            kept == !(*self is Failed),
    {
        !self.is_failed()
    }

    /// Whether loading failed.
    pub fn is_failed(&self) -> (failed: bool)
        ensures
            failed == (*self is Failed),
    {
        match self {
            AssetEntry::Failed(_) => true,
            _ => false,
        }
    }
}

/// Whether `code` is the key of a stored entry.
pub fn is_live<A>(entries: &HashMap<u64, AssetEntry<A>>, code: u64) -> (live: bool)
    ensures
        live == entries@.contains_key(code),
{
    entries.contains_key(&code)
}

/// `HashMap::retain`, keeping the entries that did not fail (the predicate is
/// [`AssetEntry::is_kept`], which does not change the entry).
#[verifier::external_body]
fn retain_unfailed<A>(entries: &mut HashMap<u64, AssetEntry<A>>)
    ensures
        final(entries)@ == without_failed(old(entries)@),
{
    entries.retain(|_, entry| entry.is_kept());
}

/// Stores all assets of a given type. Each asset is reached by a handle whose
/// code is a live key of the slot map.
pub struct AssetContainer<A> {
    slots: KeySlots,
    entries: HashMap<u64, AssetEntry<A>>,
}

impl<A> AssetContainer<A> {
    /// The stored entries, by the code of their handle.
    pub closed spec fn view(&self) -> Map<u64, AssetEntry<A>> {
        self.entries@
    }

    /// `code` is a key code whose slot the container has used.
    pub closed spec fn has_slot(&self, code: u64) -> bool {
        is_key_code(code) && slot_versions(self.slots).contains_key(code_index(code))
    }

    /// How often the slot of `code` has changed hands since `code` named its
    /// current key, counted modulo 2^32: every key handed out for the slot and
    /// every key removed from it counts one. It is 0 while `code` is the slot's
    /// current key.
    pub closed spec fn slot_age(&self, code: u64) -> int {
        (slot_versions(self.slots)[code_index(code)] as int - code_version(code) as int
            + 0x1_0000_0000) % 0x1_0000_0000
    }

    /// The code of the key that the slot of `code` holds, or held last.
    pub closed spec fn slot_holder(&self, code: u64) -> u64 {
        key_code(code_index(code), slot_versions(self.slots)[code_index(code)])
    }

    /// `code` named a key of this container that is gone, and the slot has not
    /// come round to it again: it will not be handed out as long as this holds.
    pub open spec fn retired(&self, code: u64) -> bool {
        self.has_slot(code) && 1 <= self.slot_age(code) <= 0xFFFF_FFFE
    }

    /// The slot map's live keys are exactly the stored entries.
    pub closed spec fn wf(&self) -> bool {
        &&& slot_keys(self.slots) == self.entries@.dom()
        &&& slots_agree(slot_keys(self.slots), slot_versions(self.slots))
        &&& forall|code: u64| #[trigger] self.entries@.contains_key(code) ==> is_key_code(code)
    }

    /// An empty container.
    pub fn new() -> (container: Self)
        ensures
            container.wf(),
            container.view() == Map::<u64, AssetEntry<A>>::empty(),
            forall|code: u64| !container.has_slot(code),
    {
        let container = AssetContainer { slots: new_slots(), entries: HashMap::new() };
        assert(slot_keys(container.slots) =~= container.entries@.dom());
        container
    }

    /// The number of stored assets.
    pub fn len(&self) -> (n: usize)
        ensures
            n == self.view().len(),
    {
        self.entries.len()
    }

    /// Store a new pending asset and return its handle. The handle is fresh: no
    /// stored asset has it, and no retired handle is handed out again. The slot
    /// it takes ages by one; every other slot keeps its age.
    pub fn insert_pending(&mut self) -> (handle: Handle<A>)
        requires
            old(self).wf(),
            old(self).view().len() < 0xFFFF_FFFE,
        ensures
            final(self).wf(),
            !old(self).view().contains_key(handle.code()),
            final(self).view() == old(self).view().insert(handle.code(), AssetEntry::Pending),
            forall|code: u64| #[trigger] old(self).retired(code) ==> handle.code() != code,
            final(self).has_slot(handle.code()) && final(self).slot_age(handle.code()) == 0,
            forall|code: u64|
                #[trigger] old(self).has_slot(code) ==> final(self).has_slot(code) && final(self).slot_age(code) == if code_index(code) == code_index(handle.code()) {
                    (old(self).slot_age(code) + 1) % 0x1_0000_0000
                } else {
                    old(self).slot_age(code)
                },
    {
        let code: u64 = insert_slot(&mut self.slots);
        self.entries.insert(code, AssetEntry::Pending);
        assert(slot_keys(self.slots) =~= self.entries@.dom());
        assert forall|c: u64| #[trigger] old(self).retired(c) implies code != c by {
            if code_index(c) == code_index(code) {
                assert(code_version(code) != code_version(c));
            }
        }
        Handle::from_code(code)
    }

    /// Record the outcome of loading the asset behind `handle`.
    pub fn resolve(&mut self, handle: Handle<A>, result: Result<A, anyhow::Error>)
        requires
            old(self).wf(),
            old(self).view().contains_key(handle.code()),
        ensures
            final(self).wf(),
            final(self).view() == old(self).view().insert(handle.code(), loaded_entry(result)),
            forall|code: u64|
                #[trigger] final(self).has_slot(code) == old(self).has_slot(code) && final(self).slot_age(code) == old(self).slot_age(code),
    {
        let code: u64 = handle.key_code();
        let entry = match result {
            Ok(value) => AssetEntry::Ready(value),
            Err(err) => AssetEntry::Failed(err),
        };
        self.entries.insert(code, entry);
        assert(slot_keys(self.slots) =~= self.entries@.dom());
    }

    /// Record finished loads in the order given: the result of each load
    /// replaces the entry of its asset. Every load must be for a stored asset.
    pub fn record_loads(&mut self, loads: Vec<(Handle<A>, Result<A, anyhow::Error>)>)
        requires
            old(self).wf(),
            loads_stored(old(self).view(), loads@),
        ensures
            final(self).wf(),
            final(self).view() == recorded(old(self).view(), loads@),
            forall|code: u64|
                #[trigger] final(self).has_slot(code) == old(self).has_slot(code) && final(self).slot_age(code) == old(self).slot_age(code),
    {
        let mut loads = loads;
        let ghost all = loads@;
        let ghost live = self.view().dom();
        while loads.len() > 0
            invariant
                self.wf(),
                self.view().dom() == live,
                loads_stored(self.view(), loads@),
                recorded(self.view(), loads@) == recorded(old(self).view(), all),
                forall|code: u64|
                    #[trigger] self.has_slot(code) == old(self).has_slot(code) && self.slot_age(code)
                        == old(self).slot_age(code),
            decreases loads.len(),
        {
            let ghost before = loads@;
            let (handle, result) = loads.remove(0);
            assert(loads@ =~= before.drop_first());
            assert(before[0].0.code() == handle.code());
            self.resolve(handle, result);
            assert(self.view().dom() =~= live);
            assert forall|i: int| 0 <= i < loads@.len() implies self.view().contains_key(
                #[trigger] loads@[i].0.code(),
            ) by {
                assert(loads@[i] == before[i + 1]);
            }
        }
    }

    /// The entry behind `handle`, or `None` if no asset has this handle.
    pub fn get(&self, handle: Handle<A>) -> (r: Option<AssetRef<'_, A>>)
        ensures
            match r {
                Some(r) => self.view().contains_key(handle.code()) && describes(
                    r,
                    self.view()[handle.code()],
                ),
                None => !self.view().contains_key(handle.code()),
            },
    {
        let code: u64 = handle.key_code();
        match self.entries.get(&code) {
            Some(entry) => Some(entry.as_ref()),
            None => None,
        }
    }

    /// Calls `f` with the entry behind `handle` and returns its result. Does not
    /// call `f` if no asset has this handle, and returns `None` instead.
    pub fn with<R, F: FnOnce(AssetRef<A>) -> R>(&self, handle: Handle<A>, f: F) -> (r: Option<R>)
        requires
            forall|entry: AssetRef<A>| f.requires((entry,)),
        ensures
            match r {
                Some(out) => self.view().contains_key(handle.code()) && exists|entry: AssetRef<A>|
                    describes(entry, self.view()[handle.code()]) && f.ensures((entry,), out),
                None => !self.view().contains_key(handle.code()),
            },
    {
        match self.get(handle) {
            Some(entry) => Some(f(entry)),
            None => None,
        }
    }

    /// Calls `f` with the asset behind `handle` and returns its result. Does not
    /// call `f` if the asset was not found, failed, or is not ready yet, and
    /// returns `None` instead.
    pub fn with_if_ready<R, F: FnOnce(&A) -> R>(&self, handle: Handle<A>, f: F) -> (r: Option<R>)
        requires
            forall|asset: &A| f.requires((asset,)),
        ensures
            match r {
                Some(out) => ready_in(self.view(), handle.code()) && f.ensures(
                    (&self.view()[handle.code()]->Ready_0,),
                    out,
                ),
                None => !ready_in(self.view(), handle.code()),
            },
    {
        match self.get(handle) {
            Some(AssetRef::Ready(asset)) => Some(f(asset)),
            _ => None,
        }
    }

    /// Check if an asset is ready: `false` while it is pending, after it
    /// failed to load, and when no asset has this handle.
    pub fn is_ready(&self, handle: Handle<A>) -> (ready: bool)
        ensures
            ready == ready_in(self.view(), handle.code()),
    {
        match self.get(handle) {
            Some(AssetRef::Ready(_)) => true,
            _ => false,
        }
    }

    /// The state of the asset as seen by a caller who waits for it: an asset
    /// that is no longer stored counts as failed.
    pub fn poll(&self, handle: Handle<A>) -> (status: PollResult)
        ensures
            status == poll_status(self.view(), handle.code()),
    {
        match self.get(handle) {
            None => PollResult::Failed,
            Some(AssetRef::Pending) => PollResult::Pending,
            Some(AssetRef::Failed(_)) => PollResult::Failed,
            Some(AssetRef::Ready(_)) => PollResult::Ready,
        }
    }

    /// Frees up memory used by asset entries that failed to load.
    pub fn clear_failed_assets(&mut self)
        requires
            old(self).wf(),
        ensures
            final(self).wf(),
            final(self).view() == without_failed(old(self).view()),
            forall|code: u64|
                #[trigger] old(self).has_slot(code) ==> final(self).has_slot(code) && final(self).slot_age(code) == if old(self).view().contains_key(old(self).slot_holder(code))
                    && old(self).view()[old(self).slot_holder(code)] is Failed {
                    (old(self).slot_age(code) + 1) % 0x1_0000_0000
                } else {
                    old(self).slot_age(code)
                },
    {
        retain_unfailed(&mut self.entries);
        retain_slots(&mut self.slots, &self.entries);
        assert(slot_keys(self.slots) =~= self.entries@.dom());
    }

    /// Immediately delete an asset. Its handle is retired: the slot's age for it
    /// becomes 1, so it is not handed out again until the slot has changed hands
    /// 2^32 - 2 more times.
    pub fn delete_asset(&mut self, handle: Handle<A>)
        requires
            old(self).wf(),
        ensures
            final(self).wf(),
            final(self).view() == old(self).view().remove(handle.code()),
            forall|code: u64|
                #[trigger] old(self).has_slot(code) ==> final(self).has_slot(code) && final(self).slot_age(code) == if old(self).view().contains_key(handle.code()) && code_index(
                    code,
                ) == code_index(handle.code()) {
                    (old(self).slot_age(code) + 1) % 0x1_0000_0000
                } else {
                    old(self).slot_age(code)
                },
            old(self).view().contains_key(handle.code()) ==> final(self).has_slot(handle.code())
                && final(self).slot_age(handle.code()) == 1,
    {
        let code: u64 = handle.key_code();
        remove_slot(&mut self.slots, code);
        self.entries.remove(&code);
        assert(slot_keys(self.slots) =~= self.entries@.dom());
    }
}


/// A freshly loaded asset is pending, so it is not ready and waiting for it
/// continues.
pub proof fn law_new_asset_is_pending<A>(entries: Map<u64, AssetEntry<A>>, code: u64)
    ensures
        poll_status(entries.insert(code, AssetEntry::Pending), code) == PollResult::Pending,
        !ready_in(entries.insert(code, AssetEntry::Pending), code),
{
}

/// After a successful load the asset is ready and is the loaded value; after a
/// failed load it is not ready and waiting for it stops.
pub proof fn law_resolved_asset<A>(entries: Map<u64, AssetEntry<A>>, code: u64, result: Result<A, anyhow::Error>)
    ensures
        result is Ok ==> ready_in(entries.insert(code, loaded_entry(result)), code)
            && entries.insert(code, loaded_entry(result))[code]->Ready_0 == result->Ok_0,
        result is Ok ==> poll_status(entries.insert(code, loaded_entry(result)), code)
            == PollResult::Ready,
        result is Err ==> !ready_in(entries.insert(code, loaded_entry(result)), code),
        result is Err ==> poll_status(entries.insert(code, loaded_entry(result)), code)
            == PollResult::Failed,
{
}

/// Resolving or deleting one asset leaves every other asset as it was.
pub proof fn law_other_assets_unchanged<A>(entries: Map<u64, AssetEntry<A>>, code: u64, other: u64, entry: AssetEntry<A>)
    requires
        other != code,
    ensures
        poll_status(entries.insert(code, entry), other) == poll_status(entries, other),
        ready_in(entries.insert(code, entry), other) == ready_in(entries, other),
        poll_status(entries.remove(code), other) == poll_status(entries, other),
        ready_in(entries.remove(code), other) == ready_in(entries, other),
{
}

/// A deleted asset is gone: waiting for it stops as for a failed load.
pub proof fn law_deleted_asset_is_gone<A>(entries: Map<u64, AssetEntry<A>>, code: u64)
    ensures
        !entries.remove(code).contains_key(code),
        poll_status(entries.remove(code), code) == PollResult::Failed,
        !ready_in(entries.remove(code), code),
{
}

/// Clearing failed assets removes exactly the failed ones and keeps every other
/// asset, with its state, as it was.
pub proof fn law_clear_failed_keeps_the_rest<A>(entries: Map<u64, AssetEntry<A>>, code: u64)
    ensures
        without_failed(entries).contains_key(code) <==> entries.contains_key(code)
            && !(entries[code] is Failed),
        without_failed(entries).contains_key(code) ==> without_failed(entries)[code]
            == entries[code],
        ready_in(without_failed(entries), code) == ready_in(entries, code),
{
}

/// Two handles handed out one after the other differ: the second load's handle
/// is fresh in a container that already holds the first.
pub proof fn law_handles_are_distinct<A>(entries: Map<u64, AssetEntry<A>>, first: u64, second: u64)
    requires
        !entries.insert(first, AssetEntry::Pending).contains_key(second),
    ensures
        first != second,
{
}

/// Whether some load in `loads` is for the asset with key `code`.
pub open spec fn has_load_for<A>(loads: Seq<(Handle<A>, Result<A, anyhow::Error>)>, code: u64) -> bool {
    exists|i: int| 0 <= i < loads.len() && #[trigger] loads[i].0.code() == code
}

/// Recording finished loads for stored assets neither adds nor removes an
/// asset, and an asset that no load is for keeps its entry.
pub proof fn law_recording_keeps_assets<A>(
    entries: Map<u64, AssetEntry<A>>,
    loads: Seq<(Handle<A>, Result<A, anyhow::Error>)>,
)
    requires
        loads_stored(entries, loads),
    ensures
        recorded(entries, loads).dom() == entries.dom(),
        forall|code: u64|
            entries.contains_key(code) && !has_load_for(loads, code) ==> #[trigger] recorded(
                entries,
                loads,
            )[code] == entries[code],
    decreases loads.len(),
{
    if loads.len() > 0 {
        let code = loads[0].0.code();
        let next = entries.insert(code, loaded_entry(loads[0].1));
        let rest = loads.drop_first();
        assert(entries.contains_key(loads[0].0.code()));
        assert(next.dom() =~= entries.dom());
        assert forall|i: int| 0 <= i < rest.len() implies next.contains_key(
            #[trigger] rest[i].0.code(),
        ) by {
            assert(rest[i] == loads[i + 1]);
            assert(entries.contains_key(loads[i + 1].0.code()));
        }
        law_recording_keeps_assets(next, rest);
        assert forall|c: u64|
            entries.contains_key(c) && !has_load_for(loads, c) implies #[trigger] recorded(
                entries,
                loads,
            )[c] == entries[c] by {
            assert(loads[0].0.code() == code);
            if has_load_for(rest, c) {
                let j = choose|j: int| 0 <= j < rest.len() && #[trigger] rest[j].0.code() == c;
                assert(loads[j + 1].0.code() == c);
            }
        }
    }
}

} // verus!
