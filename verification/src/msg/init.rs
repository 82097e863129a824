use vstd::prelude::*;

verus! {

/// Sets the ledger up, once, before any other message.
#[derive(Clone, Debug, PartialEq)]
pub struct InstantiateMsg {
    /// The administrator's address; it is validated before it is stored.
    pub admin: String,
    /// The one denomination that deposits are accepted in, such as
    /// "uatom".
    pub denom: String,
}

} // verus!
