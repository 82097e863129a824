use vstd::prelude::*;

verus! {

/// The messages that read the ledger.
#[derive(Clone, Debug, PartialEq)]
pub enum QueryMsg {
    /// The balance of `owner`; an address without a balance holds 0.
    Balance { owner: String },
    /// Whether `owner` lets `spender` spend.
    IsAuthorized { owner: String, spender: String },
}

} // verus!
