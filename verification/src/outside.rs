//! The types of other crates that values of this library pass through.

use vstd::prelude::*;

verus! {

/// A parsed binary, of `walrus`.
#[verifier::external_type_specification]
#[verifier::external_body]
pub struct ExModule(walrus::Module);

} // verus!
