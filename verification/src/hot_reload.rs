//! Pipeline builders whose shaders are reloaded when their source changes.
use vstd::prelude::*;

verus! {

/// Conversion of a pipeline builder into one whose shaders are hot-reloaded.
pub trait IntoDynamic {
    type Target;

    fn into_dynamic(self) -> Self::Target;
}

} // verus!
