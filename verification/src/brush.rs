//! Terrain brushes.
use vstd::prelude::*;

verus! {

/// The brush that evens out the terrain height around the cursor.
#[derive(Copy, Clone, Debug, Default)]
pub struct Equalize {}

} // verus!
