//! Typed handles to assets in an [`AssetContainer`](crate::assets::storage::AssetContainer).
use std::marker::PhantomData;

use vstd::prelude::*;

verus! {

/// Whether a 64-bit number is the code of a slot key: the upper half holds the
/// key's version, which is always odd.
pub open spec fn is_key_code(code: u64) -> bool {
    (code / 0x1_0000_0000) % 2 == 1
}

/// The code of the null key: it is never handed out for a live asset.
pub const NULL_KEY_CODE: u64 = 0x1_FFFF_FFFF;

/// A handle to an asset of type `A`. It is only obtained from a container, which
/// hands out the code of a fresh slot key, or as the null handle.
#[derive(Debug, Hash, PartialOrd, Ord)]
pub struct Handle<A> {
    data: u64,
    _marker: PhantomData<A>,
}

impl<A> Handle<A> {
    #[verifier::type_invariant]
    spec fn valid_code(self) -> bool {
        is_key_code(self.data)
    }

    /// The slot key code this handle refers to.
    pub closed spec fn code(self) -> u64 {
        self.data
    }

    /// A handle to the slot with the given key code.
    pub(crate) fn from_code(code: u64) -> (handle: Self)
        requires
            is_key_code(code),
        ensures
            handle.code() == code,
    {
        Handle { data: code, _marker: PhantomData }
    }

    /// The slot key code this handle refers to.
    pub fn key_code(&self) -> (code: u64)
        ensures
            code == self.code(),
            is_key_code(code),
    {
        proof {
            use_type_invariant(self);
        }
        self.data
    }
}

impl<A> Clone for Handle<A> {
    fn clone(&self) -> (copy: Self)
        ensures
            copy == *self,
    {
        proof {
            use_type_invariant(self);
        }
        Handle { data: self.data, _marker: PhantomData }
    }
}

impl<A> Copy for Handle<A> {
}

impl<A> PartialEq for Handle<A> {
    fn eq(&self, other: &Self) -> (same: bool) {
        self.data == other.data
    }
}

impl<A> vstd::std_specs::cmp::PartialEqSpecImpl for Handle<A> {
    open spec fn obeys_eq_spec() -> bool {
        true
    }

    open spec fn eq_spec(&self, other: &Self) -> bool {
        self.code() == other.code()
    }
}

impl<A> Eq for Handle<A> {
}

impl<A> Default for Handle<A> {
    /// The null handle, which refers to no asset.
    fn default() -> (handle: Self)
        ensures
            handle.code() == NULL_KEY_CODE,
    {
        Handle { data: NULL_KEY_CODE, _marker: PhantomData }
    }
}

} // verus!
