//! Errors of the swap contract.

use crate::decimal::Dec;
use vstd::prelude::*;

verus! {

/// A generic failure with a message, as the chain's standard error carries it.
#[derive(Debug)]
pub enum StdError {
    GenericErr { msg: String },
}

/// Every way in which a contract call can fail.
#[derive(Debug)]
pub enum ContractError {
    Std(StdError),
    Unauthorized {},
    CustomError { val: String },
    SubMsgFailure(String),
    UnrecognizedReply(u64),
    ReplyParseFailure { id: u64, err: String },
    MinOutputAmountNotReached(Dec),
    InsufficientFundsProvided(Dec, Dec),
    MigrationError {},
}

/// The error is a generic standard error carrying exactly this message.
pub open spec fn is_generic_err(e: ContractError, msg: Seq<char>) -> bool {
    e matches ContractError::Std(StdError::GenericErr { msg: m }) && m@ == msg
}

/// The error is a custom error carrying exactly this message.
pub open spec fn is_custom_error(e: ContractError, msg: Seq<char>) -> bool {
    e matches ContractError::CustomError { val } && val@ == msg
}

/// A generic standard error with the given message.
pub fn generic_err(msg: &str) -> (e: ContractError)
    ensures
        is_generic_err(e, msg@),
{
    ContractError::Std(StdError::GenericErr { msg: msg.to_owned() })
}

/// A custom error with the given message.
pub fn custom_error(msg: &str) -> (e: ContractError)
    ensures
        is_custom_error(e, msg@),
{
    ContractError::CustomError { val: msg.to_owned() }
}

} // verus!
