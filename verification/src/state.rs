//! The ledger store: balances and grants, read and written one entry at a
//! time, an absent entry reading as zero or as no grant.

use vstd::prelude::*;

use cosmwasm_std::StdError;

use crate::host::{
    fits_grant_key, generic_err, load_denom, may_load_balance, may_load_grant, remove_grant,
    save_balance, save_grant, stored_admin, stored_balances, stored_denom, stored_grants,
    valid_addresses, visible_admin, visible_balances, visible_denom, visible_grants,
    visible_valid_addresses, Ledger, LedgerView, MAX_OWNER_LEN,
};
use crate::model::LedgerState;

verus! {

impl<'a> Ledger<'a> {
    /// What the store behind this handle holds.
    pub open spec fn state(&self) -> LedgerState {
        LedgerState {
            balances: stored_balances(*self),
            grants: stored_grants(*self),
            admin: stored_admin(*self),
            denom: stored_denom(*self),
            valid: valid_addresses(*self),
        }
    }
}

impl<'a> LedgerView<'a> {
    /// What this handle shows of the store.
    pub open spec fn state(&self) -> LedgerState {
        LedgerState {
            balances: visible_balances(*self),
            grants: visible_grants(*self),
            admin: visible_admin(*self),
            denom: visible_denom(*self),
            valid: visible_valid_addresses(*self),
        }
    }
}

/// Reads the balance of `account`, 0 where it has no entry. The read
/// fails exactly where the account has an entry that cannot be read as an
/// amount.
pub fn get_balance(view: &LedgerView, account: &str) -> (r: Result<u128, StdError>)
    ensures
        r is Ok <==> view.state().balance_readable(account@),
        r matches Ok(amount) ==> amount == view.state().balance(account@),
{
    match may_load_balance(view, account) {
        Ok(Some(amount)) => Ok(amount),
        Ok(None) => Ok(0),
        Err(e) => Err(e),
    }
}

/// Writes `amount` as the balance of `account`, over whatever entry the
/// account had. The write does not fail.
pub fn set_balance(ledger: &mut Ledger, account: &str, amount: u128) -> (r: Result<(), StdError>)
    ensures
        r is Ok,
        final(ledger).state() == old(ledger).state().with_balance(account@, amount),
{
    save_balance(ledger, account, amount)
}

/// Whether the store can key a grant by `owner`.
pub fn owner_fits(owner: &str) -> (fits: bool)
    ensures
        fits == fits_grant_key(owner@),
{
    owner.as_bytes().len() <= MAX_OWNER_LEN
}

/// Reads whether `owner` lets `spender` spend, `false` where the pair has
/// no entry. The read fails exactly where the owner is too long for the
/// store's keys or the pair has an entry that cannot be read as a flag.
pub fn get_grant(view: &LedgerView, owner: &str, spender: &str) -> (r: Result<bool, StdError>)
    ensures
        r is Ok <==> fits_grant_key(owner@) && view.state().grant_readable(owner@, spender@),
        r matches Ok(flag) ==> flag == view.state().granted(owner@, spender@),
{
    if !owner_fits(owner) {
        return Err(generic_err("owner too long for a grant key"));
    }
    match may_load_grant(view, owner, spender) {
        Ok(Some(flag)) => Ok(flag),
        Ok(None) => Ok(false),
        Err(e) => Err(e),
    }
}

/// Writes whether `owner` lets `spender` spend: a grant is stored as
/// `true`, and a withdrawn grant by removing the entry. The write fails
/// exactly where the owner is too long for the store's keys, and then it
/// changes nothing.
pub fn set_grant(
    ledger: &mut Ledger,
    owner: &str,
    spender: &str,
    flag: bool,
) -> (r: Result<(), StdError>)
    ensures
        r is Ok ==> final(ledger).state() == (if flag {
            old(ledger).state().authorize(owner@, spender@)
        } else {
            old(ledger).state().revoke(owner@, spender@)
        }),
        r is Err ==> final(ledger).state() == old(ledger).state(),
        r is Ok <==> fits_grant_key(owner@),
{
    if !owner_fits(owner) {
        return Err(generic_err("owner too long for a grant key"));
    }
    if flag {
        save_grant(ledger, owner, spender, true)
    } else {
        remove_grant(ledger, owner, spender);
        Ok(())
    }
}

/// Reads the denomination that deposits are accepted in. The read fails
/// exactly where the store holds none: setup has not stored one, or the
/// entry cannot be read as text.
pub fn get_denom(view: &LedgerView) -> (r: Result<String, StdError>)
    ensures
        r is Ok <==> view.state().denom is Some,
        r matches Ok(denom) ==> view.state().denom == Some(denom@),
{
    load_denom(view)
}

} // verus!
