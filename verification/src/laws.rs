//! What holds of the ledger whatever requests it serves.
//!
//! The laws are stated over [`LedgerState`], in the terms in which the
//! entry points state what they do, so each holds of every ledger that is
//! changed through them.

use vstd::prelude::*;

use crate::contract::exec::{host_failure, served};
use crate::error::ContractError;
use crate::model::{held, total, Identity, LedgerState, Refusal, Request};
use crate::response::Response;

verus! {

/// The sum of a finite map of balances is the value at any one of its
/// keys plus the sum of the rest.
pub proof fn total_split(balances: Map<Identity, Option<u128>>, account: Identity)
    requires
        balances.dom().finite(),
        balances.contains_key(account),
    ensures
        total(balances) == held(balances[account]) + total(balances.remove(account)),
    decreases balances.dom().len(),
{
    let first = balances.dom().choose();
    if first != account {
        let rest = balances.remove(first);
        total_split(rest, account);
        total_split(balances.remove(account), first);
        assert(rest.remove(account) =~= balances.remove(account).remove(first));
    }
}

/// Setting one balance changes the sum by the difference between the new
/// value and what the account held before.
pub proof fn total_after_write(
    balances: Map<Identity, Option<u128>>,
    account: Identity,
    amount: u128,
)
    requires
        balances.dom().finite(),
    ensures
        balances.insert(account, Some(amount)).dom().finite(),
        total(balances.insert(account, Some(amount))) + (if balances.contains_key(account) {
            held(balances[account])
        } else {
            0
        }) == total(balances) + amount,
{
    let written = balances.insert(account, Some(amount));
    total_split(written, account);
    assert(written.remove(account) =~= balances.remove(account));
    if balances.contains_key(account) {
        total_split(balances, account);
    } else {
        assert(balances.remove(account) =~= balances);
    }
}

/// Serving one request raises the sum of all balances by exactly what the
/// request deposits: a spend moves value, and only an accepted deposit
/// creates it.
pub proof fn step_conserves(state: LedgerState, request: Request)
    requires
        state.balances.dom().finite(),
    ensures
        state.apply(request).balances.dom().finite(),
        state.apply(request).total() == state.total() + state.minted(request),
{
    if state.refusal(request) is None {
        match request {
            Request::Deposit { caller, funds } => {
                let amount = state.accepted_amount(funds).unwrap();
                total_after_write(state.balances, caller, (state.balance(caller) + amount) as u128);
            },
            Request::Authorize { .. } => {},
            Request::Revoke { .. } => {},
            Request::Spend { caller, owner, amount } => {
                let debited = state.debit(owner, amount);
                total_after_write(state.balances, owner, (state.balance(owner) - amount) as u128);
                total_after_write(
                    debited.balances,
                    caller,
                    (debited.balance(caller) + amount) as u128,
                );
            },
        }
    }
}

/// Conservation: after any sequence of requests the sum of all balances
/// is what it was before plus the amounts of the deposits that were
/// accepted.
pub proof fn conservation(state: LedgerState, requests: Seq<Request>)
    requires
        state.balances.dom().finite(),
    ensures
        state.run(requests).balances.dom().finite(),
        state.run(requests).total() == state.total() + state.deposited(requests),
    decreases requests.len(),
{
    if requests.len() > 0 {
        conservation(state, requests.drop_last());
        step_conserves(state.run(requests.drop_last()), requests.last());
    }
}

/// Conservation from an empty ledger: the sum of all balances equals the
/// sum of all accepted deposits.
pub proof fn conservation_from_empty(state: LedgerState, requests: Seq<Request>)
    requires
        state.balances == Map::<Identity, Option<u128>>::empty(),
    ensures
        state.run(requests).total() == state.deposited(requests),
{
    conservation(state, requests);
}

/// Non-negativity: after any sequence of requests no balance is below
/// zero.
pub proof fn balances_never_negative(state: LedgerState, requests: Seq<Request>, account: Identity)
    ensures
        state.run(requests).balance(account) >= 0,
{
}

/// A spend that is served takes no more than the owner holds. Between two
/// accounts it takes `amount` from the owner and gives it to the caller;
/// no other balance moves and no grant changes.
pub proof fn spend_moves_amount(
    state: LedgerState,
    caller: Identity,
    owner: Identity,
    amount: u128,
    other: Identity,
)
    requires
        state.spend_refusal(caller, owner, amount) is None,
    ensures
        amount <= state.balance(owner),
        caller != owner ==> state.spend(caller, owner, amount).balance(owner) == state.balance(
            owner,
        ) - amount,
        caller != owner ==> state.spend(caller, owner, amount).balance(caller) == state.balance(
            caller,
        ) + amount,
        other != caller && other != owner ==> state.spend(caller, owner, amount).balance(other)
            == state.balance(other),
        state.spend(caller, owner, amount).grants == state.grants,
{
}

/// Authorization: a spend by someone other than the owner is turned away
/// as unauthorized exactly where no grant is in force, and it is served
/// exactly where a grant is in force, the owner holds the amount and the
/// caller's balance has room for it.
pub proof fn spend_needs_grant(state: LedgerState, caller: Identity, owner: Identity, amount: u128)
    requires
        caller != owner,
    ensures
        state.spend_refusal(caller, owner, amount) == Some(Refusal::Unauthorized)
            <==> !state.granted(owner, caller),
        state.spend_refusal(caller, owner, amount) is None <==> state.granted(owner, caller)
            && state.balance(owner) >= amount && state.balance(caller) + amount <= u128::MAX,
{
}

/// An authorization and a revocation are always served, and each decides
/// the grant of its own pair; no other request touches that grant.
pub proof fn grant_follows_owner(
    state: LedgerState,
    request: Request,
    owner: Identity,
    spender: Identity,
)
    ensures
        request == (Request::Authorize { owner, spender }) ==> state.refusal(request) is None
            && state.apply(request).granted(owner, spender),
        request == (Request::Revoke { owner, spender }) ==> state.refusal(request) is None
            && !state.apply(request).granted(owner, spender),
        request != (Request::Authorize { owner, spender }) && request != (Request::Revoke {
            owner,
            spender,
        }) ==> state.apply(request).granted(owner, spender) == state.granted(owner, spender),
{
}

/// After any sequence of requests a grant is in force exactly where the
/// owner's last word on it was an authorization.
pub proof fn grant_is_last_word(
    state: LedgerState,
    requests: Seq<Request>,
    owner: Identity,
    spender: Identity,
)
    ensures
        state.run(requests).granted(owner, spender) == state.last_word(requests, owner, spender),
    decreases requests.len(),
{
    if requests.len() > 0 {
        grant_is_last_word(state, requests.drop_last(), owner, spender);
        grant_follows_owner(state.run(requests.drop_last()), requests.last(), owner, spender);
    }
}

/// Authorization after any sequence of requests: a spend by someone other
/// than the owner is turned away as unauthorized exactly where the owner
/// never authorized the caller, or revoked the caller after the last
/// authorization.
pub proof fn authorization_after_run(
    state: LedgerState,
    requests: Seq<Request>,
    caller: Identity,
    owner: Identity,
    amount: u128,
)
    requires
        caller != owner,
    ensures
        state.run(requests).spend_refusal(caller, owner, amount) == Some(Refusal::Unauthorized)
            <==> !state.last_word(requests, owner, caller),
{
    grant_is_last_word(state, requests, owner, caller);
}

/// Idempotent revoke: a revocation is served whether or not the grant
/// exists and leaves the pair without one. Where there was none to begin
/// with, every grant reads as before. Revoking twice is revoking once,
/// and no balance moves.
pub proof fn revoke_is_idempotent(
    state: LedgerState,
    owner: Identity,
    spender: Identity,
    any_owner: Identity,
    any_spender: Identity,
)
    ensures
        state.refusal(Request::Revoke { owner, spender }) is None,
        !state.revoke(owner, spender).granted(owner, spender),
        !state.granted(owner, spender) ==> state.revoke(owner, spender).granted(
            any_owner,
            any_spender,
        ) == state.granted(any_owner, any_spender),
        state.revoke(owner, spender).revoke(owner, spender) == state.revoke(owner, spender),
        state.revoke(owner, spender).balances == state.balances,
{
    assert(state.grants.remove((owner, spender)).remove((owner, spender)) =~= state.grants.remove(
        (owner, spender),
    ));
}

/// Self-spend: an account that spends from itself no more than it holds
/// is served without any grant, and every balance and grant reads as
/// before.
pub proof fn self_spend_changes_nothing(
    state: LedgerState,
    account: Identity,
    amount: u128,
    other: Identity,
)
    requires
        state.balance(account) >= amount,
    ensures
        state.spend_refusal(account, account, amount) is None,
        state.spend(account, account, amount).balance(other) == state.balance(other),
        state.spend(account, account, amount).grants == state.grants,
{
}

/// A self-spend of more than the account holds is turned away for
/// insufficient balance, like any other overdraft.
pub proof fn self_spend_checks_balance(state: LedgerState, account: Identity, amount: u128)
    requires
        state.balance(account) < amount,
    ensures
        state.spend_refusal(account, account, amount) == Some(Refusal::InsufficientBalance),
{
}

/// Atomicity on failure: a request that is turned away leaves the whole
/// ledger as it was.
pub proof fn refused_request_changes_nothing(state: LedgerState, request: Request)
    requires
        state.refusal(request) is Some,
    ensures
        state.apply(request) == state,
{
}

/// A message is served exactly where neither the host nor the ledger's
/// rules have anything against it, and then it takes the ledger where the
/// model says, so every law above holds of it. A message that fails in
/// any way changes nothing.
pub proof fn served_follows_model(
    before: LedgerState,
    after: LedgerState,
    request: Request,
    r: Result<Response, ContractError>,
)
    requires
        served(before, after, request, r),
    ensures
        r is Ok <==> host_failure(before, request) is None && before.refusal(request) is None,
        r is Ok ==> after == before.apply(request),
        r matches Err(e) ==> (e.refusal() is Some ==> e.refusal() == before.refusal(request)
            && after == before.apply(request)),
        r is Err ==> after == before,
{
}

/// Serving a message never makes value but by an accepted deposit, and
/// loses none: the sum of all balances rises by the deposit where one is
/// accepted and stays as it was otherwise.
pub proof fn served_conserves(
    before: LedgerState,
    after: LedgerState,
    request: Request,
    r: Result<Response, ContractError>,
)
    requires
        before.balances.dom().finite(),
        served(before, after, request, r),
    ensures
        after.balances.dom().finite(),
        r is Ok ==> after.total() == before.total() + before.minted(request),
        r is Err ==> after.total() == before.total(),
{
    step_conserves(before, request);
}

} // verus!
