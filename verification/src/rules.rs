//! The decisions of the ledger, each on plain values: what the store and
//! the message hold goes in, the verdict comes out.

use vstd::prelude::*;

use crate::error::ContractError;
use crate::info::Coin;

verus! {

/// The one coin attached to a deposit. Anything but exactly one coin is
/// invalid funds.
pub fn single_coin(funds: &Vec<Coin>) -> (r: Result<&Coin, ContractError>)
    ensures
        match r {
            Ok(coin) => funds@.len() == 1 && *coin == funds@[0],
            Err(e) => funds@.len() != 1 && e == (ContractError::InvalidFunds {  }),
        },
{
    if funds.len() == 1 {
        Ok(&funds[0])
    } else {
        Err(ContractError::InvalidFunds {  })
    }
}

/// The amount of `coin`, provided it is of the accepted denomination;
/// invalid funds otherwise.
pub fn amount_in(coin: &Coin, accepted: &String) -> (r: Result<u128, ContractError>)
    ensures
        r == (if coin.denom@ == accepted@ {
            Ok::<u128, ContractError>(coin.amount)
        } else {
            Err(ContractError::InvalidFunds {  })
        }),
{
    if coin.denom == *accepted {
        Ok(coin.amount)
    } else {
        Err(ContractError::InvalidFunds {  })
    }
}

/// Whether a spend may go ahead: the sender is the owner, or the owner
/// has granted the sender. Unauthorized otherwise.
pub fn check_spender(is_owner: bool, granted: bool) -> (r: Result<(), ContractError>)
    ensures
        r == (if is_owner || granted {
            Ok::<(), ContractError>(())
        } else {
            Err(ContractError::Unauthorized {  })
        }),
{
    if is_owner || granted {
        Ok(())
    } else {
        Err(ContractError::Unauthorized {  })
    }
}

/// What is left of `balance` after `amount` is taken from it;
/// insufficient balance where it holds less.
pub fn debit(balance: u128, amount: u128) -> (r: Result<u128, ContractError>)
    ensures
        r == (if balance >= amount {
            Ok::<u128, ContractError>((balance - amount) as u128)
        } else {
            Err(ContractError::InsufficientBalance {  })
        }),
{
    if balance >= amount {
        Ok(balance - amount)
    } else {
        Err(ContractError::InsufficientBalance {  })
    }
}

/// What `balance` becomes when `amount` is added to it; overflow where
/// the sum does not fit in 128 bits.
pub fn credit(balance: u128, amount: u128) -> (r: Result<u128, ContractError>)
    ensures
        r == (if balance + amount <= u128::MAX {
            Ok::<u128, ContractError>((balance + amount) as u128)
        } else {
            Err(ContractError::Overflow {  })
        }),
{
    match balance.checked_add(amount) {
        Some(sum) => Ok(sum),
        None => Err(ContractError::Overflow {  }),
    }
}

} // verus!
