//! Parameters of instantiation and migration.

use vstd::prelude::*;

verus! {

/// Who receives the relayer share of trading fees.
#[derive(Debug)]
pub enum FeeRecipient {
    /// A given address.
    Address(String),
    /// The swap contract itself, which passes the fee discount on to swappers.
    SwapContract,
}

/// The parameters of instantiation.
#[derive(Debug)]
pub struct InstantiateMsg {
    pub fee_recipient: FeeRecipient,
    pub admin: String,
}

/// The parameters of migration (there are none).
#[derive(Debug)]
pub struct MigrateMsg {}

/// The address that a fee recipient stands for, given the contract's own address.
pub open spec fn fee_recipient_address(fee_recipient: FeeRecipient, contract_address: Seq<char>) -> Seq<
    char,
> {
    match fee_recipient {
        FeeRecipient::Address(addr) => addr@,
        FeeRecipient::SwapContract => contract_address,
    }
}

impl FeeRecipient {
    /// The address that receives fees.
    pub fn into_address(self, contract_address: String) -> (r: String)
        ensures
            r@ == fee_recipient_address(self, contract_address@),
    {
        match self {
            FeeRecipient::Address(addr) => addr,
            FeeRecipient::SwapContract => contract_address,
        }
    }
}

} // verus!
