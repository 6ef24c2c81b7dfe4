//! Soroban host types that event payloads carry.
//!
//! Both are handles into the contract environment: the library never looks
//! inside them, it only carries them from an event into its payload.

use vstd::prelude::*;

verus! {

/// `soroban_sdk::Address`, an account or contract address.
#[verifier::external_type_specification]
#[verifier::external_body]
pub struct ExAddress(soroban_sdk::Address);

/// `soroban_sdk::String`, a string held by the contract environment.
#[verifier::external_type_specification]
#[verifier::external_body]
pub struct ExSorobanString(soroban_sdk::String);

/// `Clone::clone` on `soroban_sdk::Address`.
///
/// Trusted: the clone is claimed equal to the original. `Address` derives
/// `Clone` over its environment handle and its object handle, so the copy
/// refers to the same host object.
pub assume_specification[ <soroban_sdk::Address as Clone>::clone ](
    a: &soroban_sdk::Address,
) -> (r: soroban_sdk::Address)
    ensures
        r == *a,
;

/// `Clone::clone` on `soroban_sdk::String`.
///
/// Trusted: the clone is claimed equal to the original. `String` derives
/// `Clone` over its environment handle and its object handle, so the copy
/// refers to the same host object.
pub assume_specification[ <soroban_sdk::String as Clone>::clone ](
    s: &soroban_sdk::String,
) -> (r: soroban_sdk::String)
    ensures
        r == *s,
;

} // verus!
