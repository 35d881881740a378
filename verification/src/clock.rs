//! The monotonic clock of the standard library, as the library sees it.

use vstd::prelude::*;
pub use std::time::Instant;

verus! {

/// A point of the monotonic clock; Verus sees nothing inside it.
#[verifier::external_type_specification]
#[verifier::external_body]
pub struct ExInstant(std::time::Instant);

/// The current instant, read through `std::time::Instant::now`. What the
/// clock shows depends on when it is read, so nothing is claimed of it.
#[verifier::external_body]
pub(crate) fn now() -> (res: Instant) {
    Instant::now()
}

} // verus!
