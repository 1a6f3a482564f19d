//! Small items that the other modules share.

use vstd::prelude::*;

verus! {

/// A wrapper around a value of another type, for giving it impls of its own.
pub struct W<T>(pub T);

} // verus!
