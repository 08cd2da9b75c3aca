//! The severity at which status lines are emitted.

use vstd::prelude::*;

verus! {

/// `log::Level` is carried through unchanged and handed to the sink.
#[verifier::external_type_specification]
pub struct ExLevel(log::Level);

} // verus!
