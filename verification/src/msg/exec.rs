use vstd::prelude::*;

verus! {

/// The messages that change the ledger.
#[derive(Clone, Debug, PartialEq)]
pub enum ExecuteMsg {
    /// Credits the sender with the funds attached to the message: exactly
    /// one coin, of the accepted denomination.
    Deposit {},
    /// Lets `spender` spend from the sender's balance.
    AuthorizeSpender { spender: String },
    /// Withdraws the sender's grant to `spender`.
    RevokeSpender { spender: String },
    /// Moves `amount` from the balance of `owner` to the sender's. The
    /// sender is the owner or a spender the owner has authorized.
    SpendFrom { owner: String, amount: u128 },
}

} // verus!
