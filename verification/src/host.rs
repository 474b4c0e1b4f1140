//! The calls this library makes into `soroban_sdk`.
//!
//! Nothing in this file is proved: each contract below is taken from the
//! behaviour of the named host function. A `Symbol` is regarded as the short
//! string it stands for and an `Address` as the identity it names, so two
//! handles to the same string, or to the same identity, are the same value in
//! every contract of this crate.
//!
//! The host may end a whole invocation when its budget is spent. That is the
//! host's failure, not a result of the call, and no contract speaks of it.

use soroban_sdk::{Address, Env, Symbol};
use vstd::prelude::*;

verus! {

#[verifier::external_type_specification]
#[verifier::external_body]
pub struct ExEnv(soroban_sdk::Env);

#[verifier::external_type_specification]
#[verifier::external_body]
pub struct ExSymbol(soroban_sdk::Symbol);

#[verifier::external_type_specification]
#[verifier::external_body]
pub struct ExAddress(soroban_sdk::Address);

/// `Symbol::clone`: the copy stands for the same string as the symbol it was made from.
pub assume_specification[ <Symbol as Clone>::clone ](symbol: &Symbol) -> (copy: Symbol)
    ensures
        copy == *symbol,
;

/// `Address::clone`: the copy names the same identity as the address it was made from.
pub assume_specification[ <Address as Clone>::clone ](address: &Address) -> (copy: Address)
    ensures
        copy == *address,
;

/// `Symbol`'s `==`, which compares the strings that the two symbols stand
/// for: it holds exactly when they are the same string.
#[verifier::external_body]
pub(crate) fn same_symbol(left: &Symbol, right: &Symbol) -> (same: bool)
    ensures
        same == (*left == *right),
{
    left == right
}

/// `Ledger::timestamp`, read through `Env::ledger`: the close time of the
/// current ledger. It is whatever the host reports, so nothing is claimed of
/// the number.
#[verifier::external_body]
pub(crate) fn ledger_timestamp(env: &Env) -> (now: u64) {
    env.ledger().timestamp()
}

} // verus!
