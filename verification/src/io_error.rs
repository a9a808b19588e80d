//! Errors of input and output.

use vstd::prelude::*;

verus! {

/// An error of input or output, of the standard library.
#[verifier::external_type_specification]
#[verifier::external_body]
pub struct ExIoError(std::io::Error);

} // verus!
