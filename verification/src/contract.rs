//! Contract identity and migration.

use crate::error::ContractError;
use vstd::prelude::*;

verus! {

/// The contract name under which the only migratable version was stored.
pub open spec fn migratable_contract() -> Seq<char> {
    "crates.io:swap-contract"@
}

/// The only version from which the contract migrates.
pub open spec fn migratable_version() -> Seq<char> {
    "1.0.1"@
}

/// Migration is allowed only from version 1.0.1 of `crates.io:swap-contract`.
pub fn check_migration(previous_contract: &str, previous_version: &str) -> (r: Result<(), ContractError>)
    ensures
        r is Ok <==> (previous_contract@ == migratable_contract() && previous_version@
            == migratable_version()),
        r is Err ==> (r matches Err(ContractError::MigrationError {  })),
{
    let contract = previous_contract.to_owned();
    let version = previous_version.to_owned();
    if contract == "crates.io:swap-contract".to_owned() {
        if version == "1.0.1".to_owned() {
            return Ok(());
        }
    }
    Err(ContractError::MigrationError {  })
}

} // verus!
