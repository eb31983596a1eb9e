//! The hart state management extension. Only its id is fixed here; no call
//! of it is made yet.

use vstd::prelude::*;

verus! {

/// The id of the hart state management extension.
pub const EID: usize = 0x48534D;

} // verus!
