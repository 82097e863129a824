//! The messages that change the ledger: deposit, authorize, revoke and
//! spend.

use vstd::prelude::*;

use cosmwasm_std::Env;

use crate::decimal::{decimal_text, to_decimal};
use crate::error::ContractError;
use crate::host::{fits_grant_key, Ledger};
use crate::identity::validate;
use crate::info::MessageInfo;
use crate::model::{LedgerState, Request};
use crate::msg::exec::ExecuteMsg;
use crate::response::Response;
use crate::rules::{amount_in, check_spender, credit, debit, single_coin};
use crate::state::{get_balance, get_denom, get_grant, set_balance, set_grant};

verus! {

/// The request that `msg` makes when it comes with `info`.
pub open spec fn request_of(info: MessageInfo, msg: ExecuteMsg) -> Request {
    match msg {
        ExecuteMsg::Deposit {  } => Request::Deposit {
            caller: info.sender@,
            funds: info.funds_view(),
        },
        ExecuteMsg::AuthorizeSpender { spender } => Request::Authorize {
            owner: info.sender@,
            spender: spender@,
        },
        ExecuteMsg::RevokeSpender { spender } => Request::Revoke {
            owner: info.sender@,
            spender: spender@,
        },
        ExecuteMsg::SpendFrom { owner, amount } => Request::Spend {
            caller: info.sender@,
            owner: owner@,
            amount,
        },
    }
}

/// The attributes that a served `request` emits.
pub open spec fn receipt(request: Request) -> Seq<(Seq<char>, Seq<char>)> {
    match request {
        Request::Deposit { caller, .. } => seq![("action"@, "deposit"@), ("from"@, caller)],
        Request::Authorize { owner, spender } => seq![
            ("action"@, "authorize_spender"@),
            ("owner"@, owner),
            ("spender"@, spender),
        ],
        Request::Revoke { owner, spender } => seq![
            ("action"@, "revoke_spender"@),
            ("owner"@, owner),
            ("spender"@, spender),
        ],
        Request::Spend { caller, owner, amount } => seq![
            ("action"@, "spend_from"@),
            ("owner"@, owner),
            ("spender"@, caller),
            ("amount"@, decimal_text(amount as nat)),
        ],
    }
}

/// What the host has against a request, as distinct from the ledger's
/// own rules.
pub enum HostFailure {
    /// The validator turns an address of the request away.
    InvalidAddress,
    /// The store cannot give an entry that the request needs: the entry
    /// cannot be read, the accepted denomination is missing, or the owner
    /// is too long to key a grant.
    Store,
}

/// Whether the store can give the grant of the pair: it can key the
/// owner, and the entry, if there is one, reads as a flag.
pub open spec fn grant_at_hand(state: LedgerState, owner: Seq<char>, spender: Seq<char>) -> bool {
    fits_grant_key(owner) && state.grant_readable(owner, spender)
}

/// What the host has against a deposit, if anything, at the point where
/// it is asked: the denomination is read once the funds are known to be
/// one coin, and the caller's balance once the coin is known to be of
/// that denomination.
pub open spec fn deposit_host_failure(
    state: LedgerState,
    caller: Seq<char>,
    funds: Seq<(Seq<char>, u128)>,
) -> Option<HostFailure> {
    if funds.len() != 1 {
        None
    } else if state.denom is None {
        Some(HostFailure::Store)
    } else if state.denom != Some(funds[0].0) {
        None
    } else if !state.balance_readable(caller) {
        Some(HostFailure::Store)
    } else {
        None
    }
}

/// What the host has against a grant or its withdrawal, if anything: the
/// spender is validated first, then the owner must fit the store's keys.
pub open spec fn grant_host_failure(
    state: LedgerState,
    owner: Seq<char>,
    spender: Seq<char>,
) -> Option<HostFailure> {
    if !state.valid.contains(spender) {
        Some(HostFailure::InvalidAddress)
    } else if !fits_grant_key(owner) {
        Some(HostFailure::Store)
    } else {
        None
    }
}

/// What the host has against a spend, if anything, at the point where it
/// is asked: the owner is validated first; the grant is read next,
/// whoever the caller is; the owner's balance is read only for a caller
/// who may spend, and the caller's balance only where the owner holds the
/// amount and is not the caller.
pub open spec fn spend_host_failure(
    state: LedgerState,
    caller: Seq<char>,
    owner: Seq<char>,
    amount: u128,
) -> Option<HostFailure> {
    if !state.valid.contains(owner) {
        Some(HostFailure::InvalidAddress)
    } else if !grant_at_hand(state, owner, caller) {
        Some(HostFailure::Store)
    } else if !state.may_spend(caller, owner) {
        None
    } else if !state.balance_readable(owner) {
        Some(HostFailure::Store)
    } else if state.balance(owner) < amount {
        None
    } else if caller != owner && !state.balance_readable(caller) {
        Some(HostFailure::Store)
    } else {
        None
    }
}

/// What the host has against `request` on a ledger in `state`, if it
/// comes to be asked before one of the ledger's rules turns the request
/// away.
pub open spec fn host_failure(state: LedgerState, request: Request) -> Option<HostFailure> {
    match request {
        Request::Deposit { caller, funds } => deposit_host_failure(state, caller, funds),
        Request::Authorize { owner, spender } => grant_host_failure(state, owner, spender),
        Request::Revoke { owner, spender } => grant_host_failure(state, owner, spender),
        Request::Spend { caller, owner, amount } => spend_host_failure(
            state,
            caller,
            owner,
            amount,
        ),
    }
}

/// What serving `request` does, from the ledger `before` to the ledger
/// `after` and the result `r`. The ledger before and the request decide
/// all of it, but for what the host's errors hold inside.
///
/// - The validator turns an address away: the error is an invalid
///   address, and the ledger is unchanged.
/// - The store cannot give what the request needs: the error is the
///   store's, and the ledger is unchanged.
/// - One of the ledger's own rules stands against the request: the error
///   is the one the rules give, and the ledger is unchanged.
/// - Otherwise the request is served: the ledger is as the request leaves
///   it, and the response carries the request's attributes.
pub open spec fn served(
    before: LedgerState,
    after: LedgerState,
    request: Request,
    r: Result<Response, ContractError>,
) -> bool {
    match host_failure(before, request) {
        Some(HostFailure::InvalidAddress) => {
            &&& r matches Err(ContractError::InvalidAddress(_))
            &&& after == before
        },
        Some(HostFailure::Store) => {
            &&& r matches Err(ContractError::Std(_))
            &&& after == before
        },
        None => match before.refusal(request) {
            Some(refusal) => {
                &&& r matches Err(e) && e.refusal() == Some(refusal)
                &&& after == before
            },
            None => {
                &&& r matches Ok(response) && response@ == receipt(request)
                &&& after == before.apply(request)
            },
        },
    }
}

/// Serves one message: the ledger is changed as the message asks, or the
/// message is turned away and the ledger left as it was. Which of the two,
/// and with what error, is decided by the ledger before and the message.
pub fn execute(
    ledger: &mut Ledger,
    _env: Env,
    info: MessageInfo,
    msg: ExecuteMsg,
) -> (r: Result<Response, ContractError>)
    ensures
        served(old(ledger).state(), final(ledger).state(), request_of(info, msg), r),
{
    match msg {
        ExecuteMsg::Deposit {  } => execute_deposit(ledger, info),
        ExecuteMsg::AuthorizeSpender { spender } => execute_authorize_spender(
            ledger,
            info,
            spender,
        ),
        ExecuteMsg::RevokeSpender { spender } => execute_revoke_spender(ledger, info, spender),
        ExecuteMsg::SpendFrom { owner, amount } => execute_spend_from(ledger, info, owner, amount),
    }
}

/// Credits the sender with the attached funds: exactly one coin, of the
/// accepted denomination. Nobody is asked for leave: a deposit goes to
/// the sender's own balance.
pub fn execute_deposit(
    ledger: &mut Ledger,
    info: MessageInfo,
) -> (r: Result<Response, ContractError>)
    ensures
        served(
            old(ledger).state(),
            final(ledger).state(),
            Request::Deposit { caller: info.sender@, funds: info.funds_view() },
            r,
        ),
{
    let coin = single_coin(&info.funds)?;
    let denom = match get_denom(&ledger.as_view()) {
        Ok(denom) => denom,
        Err(e) => return Err(ContractError::Std(e)),
    };
    let amount = amount_in(coin, &denom)?;
    let previous = match get_balance(&ledger.as_view(), info.sender.as_str()) {
        Ok(balance) => balance,
        Err(e) => return Err(ContractError::Std(e)),
    };
    let balance = credit(previous, amount)?;
    match set_balance(ledger, info.sender.as_str(), balance) {
        Ok(()) => {},
        Err(e) => return Err(ContractError::Std(e)),
    }
    let response = Response::new().add_attribute("action", "deposit").add_attribute(
        "from",
        info.sender.as_str(),
    );
    assert(response@ =~= receipt(
        Request::Deposit { caller: info.sender@, funds: info.funds_view() },
    ));
    Ok(response)
}

/// Lets `spender` spend from the sender's balance. Any account may grant
/// any valid address, itself included, whatever it holds.
pub fn execute_authorize_spender(
    ledger: &mut Ledger,
    info: MessageInfo,
    spender: String,
) -> (r: Result<Response, ContractError>)
    ensures
        served(
            old(ledger).state(),
            final(ledger).state(),
            Request::Authorize { owner: info.sender@, spender: spender@ },
            r,
        ),
{
    let spender_addr = validate(&ledger.as_view(), spender.as_str())?;
    match set_grant(ledger, info.sender.as_str(), spender_addr.as_str(), true) {
        Ok(()) => {},
        Err(e) => return Err(ContractError::Std(e)),
    }
    let response = Response::new().add_attribute("action", "authorize_spender").add_attribute(
        "owner",
        info.sender.as_str(),
    ).add_attribute("spender", spender_addr.as_str());
    assert(response@ =~= receipt(Request::Authorize { owner: info.sender@, spender: spender@ }));
    Ok(response)
}

/// Withdraws the sender's grant to `spender`. Withdrawing a grant that
/// was never given is served like any other.
pub fn execute_revoke_spender(
    ledger: &mut Ledger,
    info: MessageInfo,
    spender: String,
) -> (r: Result<Response, ContractError>)
    ensures
        served(
            old(ledger).state(),
            final(ledger).state(),
            Request::Revoke { owner: info.sender@, spender: spender@ },
            r,
        ),
{
    let spender_addr = validate(&ledger.as_view(), spender.as_str())?;
    match set_grant(ledger, info.sender.as_str(), spender_addr.as_str(), false) {
        Ok(()) => {},
        Err(e) => return Err(ContractError::Std(e)),
    }
    let response = Response::new().add_attribute("action", "revoke_spender").add_attribute(
        "owner",
        info.sender.as_str(),
    ).add_attribute("spender", spender_addr.as_str());
    assert(response@ =~= receipt(Request::Revoke { owner: info.sender@, spender: spender@ }));
    Ok(response)
}

/// Moves `amount` from the balance of `owner` to the sender's.
///
/// The checks come in a fixed order and the first that fails decides: the
/// owner's address is valid; the sender is the owner or holds the owner's
/// grant; the owner holds at least `amount`; the sender's balance has
/// room for it. Until all have passed nothing is written. Then the owner
/// is debited and the sender credited, in two writes, also where the two
/// are one account and the balance ends as it began.
pub fn execute_spend_from(
    ledger: &mut Ledger,
    info: MessageInfo,
    owner: String,
    amount: u128,
) -> (r: Result<Response, ContractError>)
    ensures
        served(
            old(ledger).state(),
            final(ledger).state(),
            Request::Spend { caller: info.sender@, owner: owner@, amount },
            r,
        ),
{
    let owner_addr = validate(&ledger.as_view(), owner.as_str())?;
    let is_owner = info.sender == owner_addr;
    let view = ledger.as_view();
    let granted = match get_grant(&view, owner_addr.as_str(), info.sender.as_str()) {
        Ok(flag) => flag,
        Err(e) => return Err(ContractError::Std(e)),
    };
    check_spender(is_owner, granted)?;
    let balance = match get_balance(&view, owner_addr.as_str()) {
        Ok(balance) => balance,
        Err(e) => return Err(ContractError::Std(e)),
    };
    let remaining = debit(balance, amount)?;
    let previous = if is_owner {
        remaining
    } else {
        match get_balance(&view, info.sender.as_str()) {
            Ok(balance) => balance,
            Err(e) => return Err(ContractError::Std(e)),
        }
    };
    let credited = credit(previous, amount)?;
    match set_balance(ledger, owner_addr.as_str(), remaining) {
        Ok(()) => {},
        Err(e) => return Err(ContractError::Std(e)),
    }
    match set_balance(ledger, info.sender.as_str(), credited) {
        Ok(()) => {},
        Err(e) => return Err(ContractError::Std(e)),
    }
    let amount_text = to_decimal(amount);
    let response = Response::new().add_attribute("action", "spend_from").add_attribute(
        "owner",
        owner_addr.as_str(),
    ).add_attribute("spender", info.sender.as_str()).add_attribute("amount", amount_text.as_str());
    assert(response@ =~= receipt(Request::Spend { caller: info.sender@, owner: owner@, amount }));
    Ok(response)
}

} // verus!
