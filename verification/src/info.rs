//! What accompanies a message: who sent it and what was paid with it.

use vstd::prelude::*;

verus! {

/// An amount of one denomination.
#[derive(Clone, Debug, PartialEq, Eq)]
pub struct Coin {
    pub denom: String,
    pub amount: u128,
}

impl View for Coin {
    type V = (Seq<char>, u128);

    open spec fn view(&self) -> (Seq<char>, u128) {
        (self.denom@, self.amount)
    }
}

/// The sender of a message, as the host has authenticated it, and the
/// funds the host has moved along with the message.
#[derive(Clone, Debug, PartialEq, Eq)]
pub struct MessageInfo {
    pub sender: String,
    pub funds: Vec<Coin>,
}

impl MessageInfo {
    /// The attached funds, each as its denomination and amount.
    pub open spec fn funds_view(&self) -> Seq<(Seq<char>, u128)> {
        self.funds@.map_values(|coin: Coin| coin@)
    }
}

} // verus!
