//! Keeps the traits of this crate closed to other crates.

use vstd::prelude::*;

verus! {

/// Implemented only inside this crate, so that every implementation of a
/// trait that builds on it has been verified against that trait's contract.
pub trait Sealed {

}

} // verus!
