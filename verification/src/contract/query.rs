//! The messages that read the ledger. They change nothing.

use vstd::prelude::*;

use cosmwasm_std::{Env, StdError};

use crate::host::{
    addr_validate, fits_grant_key, json_amount, json_flag, to_json_amount, to_json_flag,
    LedgerView,
};
use crate::model::LedgerState;
use crate::msg::query::QueryMsg;
use crate::state::{get_balance, get_grant};

verus! {

/// The answer to `msg` on a ledger in `state`, as JSON.
pub open spec fn answer(state: LedgerState, msg: QueryMsg) -> Seq<u8> {
    match msg {
        QueryMsg::Balance { owner } => json_amount(state.balance(owner@) as u128),
        QueryMsg::IsAuthorized { owner, spender } => json_flag(state.granted(owner@, spender@)),
    }
}

/// Whether `msg` has an answer on a ledger in `state`: the validator
/// accepts every address in it, and the entry asked for can be read,
/// which for a grant takes an owner that the store can key.
pub open spec fn answerable(state: LedgerState, msg: QueryMsg) -> bool {
    match msg {
        QueryMsg::Balance { owner } => balance_answerable(state, owner@),
        QueryMsg::IsAuthorized { owner, spender } => grant_answerable(state, owner@, spender@),
    }
}

/// Whether the balance of `owner` can be told: the validator accepts the
/// address, and its entry, if it has one, reads as an amount.
pub open spec fn balance_answerable(state: LedgerState, owner: Seq<char>) -> bool {
    state.valid.contains(owner) && state.balance_readable(owner)
}

/// Whether the grant of the pair can be told: the validator accepts both
/// addresses, the store can key the owner, and the entry of the pair, if
/// it has one, reads as a flag.
pub open spec fn grant_answerable(
    state: LedgerState,
    owner: Seq<char>,
    spender: Seq<char>,
) -> bool {
    &&& state.valid.contains(owner)
    &&& state.valid.contains(spender)
    &&& fits_grant_key(owner)
    &&& state.grant_readable(owner, spender)
}

/// Answers one message with the JSON of what the ledger holds. It fails
/// exactly where the message has no answer: on an address that the
/// validator turns away, and on an entry that cannot be read.
pub fn query(view: LedgerView, _env: Env, msg: QueryMsg) -> (r: Result<Vec<u8>, StdError>)
    ensures
        r is Ok <==> answerable(view.state(), msg),
        r matches Ok(bytes) ==> bytes@ == answer(view.state(), msg),
{
    match msg {
        QueryMsg::Balance { owner } => query_balance(&view, owner),
        QueryMsg::IsAuthorized { owner, spender } => query_is_authorized(&view, owner, spender),
    }
}

/// The balance of `owner` as JSON: a decimal string. It fails exactly
/// where the balance cannot be told.
pub fn query_balance(view: &LedgerView, owner: String) -> (r: Result<Vec<u8>, StdError>)
    ensures
        r is Ok <==> balance_answerable(view.state(), owner@),
        r matches Ok(bytes) ==> bytes@ == json_amount(view.state().balance(owner@) as u128),
{
    let balance = balance_of(view, owner.as_str())?;
    to_json_amount(balance)
}

/// Whether `owner` lets `spender` spend, as JSON: `true` or `false`. It
/// fails exactly where the grant cannot be told.
pub fn query_is_authorized(
    view: &LedgerView,
    owner: String,
    spender: String,
) -> (r: Result<Vec<u8>, StdError>)
    ensures
        r is Ok <==> grant_answerable(view.state(), owner@, spender@),
        r matches Ok(bytes) ==> bytes@ == json_flag(view.state().granted(owner@, spender@)),
{
    let authorized = is_authorized(view, owner.as_str(), spender.as_str())?;
    to_json_flag(authorized)
}

/// The balance of `owner`: 0 for a valid address that holds none. It
/// fails exactly where the balance cannot be told.
pub fn balance_of(view: &LedgerView, owner: &str) -> (r: Result<u128, StdError>)
    ensures
        r is Ok <==> balance_answerable(view.state(), owner@),
        r matches Ok(amount) ==> amount == view.state().balance(owner@),
{
    let owner_addr = addr_validate(view, owner)?;
    get_balance(view, owner_addr.as_str())
}

/// Whether `owner` lets `spender` spend: `false` for two valid addresses
/// without a grant. It fails exactly where the grant cannot be told.
pub fn is_authorized(view: &LedgerView, owner: &str, spender: &str) -> (r: Result<bool, StdError>)
    ensures
        r is Ok <==> grant_answerable(view.state(), owner@, spender@),
        r matches Ok(flag) ==> flag == view.state().granted(owner@, spender@),
{
    let owner_addr = addr_validate(view, owner)?;
    let spender_addr = addr_validate(view, spender)?;
    get_grant(view, owner_addr.as_str(), spender_addr.as_str())
}

} // verus!
