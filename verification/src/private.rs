use vstd::prelude::*;

verus! {

/// Keeps the kinds of environments and transactions a closed set.
pub trait Sealed {

}

} // verus!
