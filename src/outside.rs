//! Declarations of the outside error types that the session and password
//! code passes through.
use vstd::prelude::*;

verus! {

#[verifier::external_type_specification]
#[verifier::external_body]
pub struct ExArgonError(argon2::Error);

#[verifier::external_type_specification]
#[verifier::external_body]
pub struct ExFailureError(failure::Error);

} // verus!
