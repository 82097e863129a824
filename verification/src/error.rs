//! Why a message is not served.

use vstd::prelude::*;

use cosmwasm_std::StdError;

use crate::model::Refusal;

verus! {

/// The failures of the ledger. Each ends the message it occurs in.
#[derive(Debug)]
pub enum ContractError {
    /// The sender is neither the owner nor a spender the owner has granted.
    Unauthorized {},
    /// The host's validator rejected an address; its error is inside.
    InvalidAddress(StdError),
    /// A deposit came without exactly one coin of the accepted
    /// denomination.
    InvalidFunds {},
    /// The owner holds less than the amount to spend.
    InsufficientBalance {},
    /// The balance to credit would exceed what 128 bits hold.
    Overflow {},
    /// The store failed; its error is inside.
    Std(StdError),
}

impl ContractError {
    /// The refusal that this error reports, where the ledger itself, and
    /// not the host, turned the message away.
    pub open spec fn refusal(self) -> Option<Refusal> {
        match self {
            ContractError::Unauthorized {  } => Some(Refusal::Unauthorized),
            ContractError::InvalidFunds {  } => Some(Refusal::InvalidFunds),
            ContractError::InsufficientBalance {  } => Some(Refusal::InsufficientBalance),
            ContractError::Overflow {  } => Some(Refusal::Overflow),
            ContractError::InvalidAddress(_) => None,
            ContractError::Std(_) => None,
        }
    }
}

} // verus!
