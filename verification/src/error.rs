//! The one way an operation can fail.

use vstd::prelude::*;

verus! {

/// Why an operation on the peripheral failed.
#[derive(Debug, PartialEq, Eq)]
pub enum Error<E> {
    /// The link reported a failure; the value is what it reported.
    CommError(E),
}

} // verus!
