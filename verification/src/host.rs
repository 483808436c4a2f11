//! The outside type that the escrow's data carries: Soroban's `Address`.

use vstd::prelude::*;

verus! {

/// A Soroban address, carried through opaquely.
#[verifier::external_type_specification]
#[verifier::external_body]
pub struct ExAddress(soroban_sdk::Address);

/// `Address::clone` in soroban-sdk is derived: it copies the environment handle
/// and the handle of the same host address object. The copy is claimed to be
/// the same address as the original.
pub assume_specification[<soroban_sdk::Address as Clone>::clone](a: &soroban_sdk::Address) -> (r: soroban_sdk::Address)
    ensures
        r == *a,
;

} // verus!
