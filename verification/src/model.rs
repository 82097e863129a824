//! The ledger as mathematics: what it holds, and what each request does to it.
//!
//! Every contract of the executable code is stated over the items of this
//! module.

use vstd::prelude::*;

verus! {

/// An account identity, as the sequence of its characters.
pub type Identity = Seq<char>;

/// Everything the ledger persists, and what its host takes for an address.
pub struct LedgerState {
    /// The balance entry of each account that holds one: the amount, or
    /// `None` where the entry cannot be read as one.
    pub balances: Map<Identity, Option<u128>>,
    /// The grant entry of each (owner, spender) pair that holds one: the
    /// flag, or `None` where the entry cannot be read as one.
    pub grants: Map<(Identity, Identity), Option<bool>>,
    /// The administrator recorded at setup.
    pub admin: Option<Identity>,
    /// The denomination accepted for deposits, recorded at setup.
    pub denom: Option<Seq<char>>,
    /// The inputs that the host's validator accepts as addresses. No
    /// request changes it.
    pub valid: Set<Identity>,
}

/// Why a request is turned away.
pub enum Refusal {
    /// Not exactly one attached coin, or not of the accepted denomination.
    InvalidFunds,
    /// The caller is neither the owner nor a spender the owner has granted.
    Unauthorized,
    /// The owner holds less than the amount asked for.
    InsufficientBalance,
    /// The credited balance would not fit in 128 bits.
    Overflow,
}

/// A request to the ledger, identities already validated.
pub enum Request {
    /// `caller` deposits the attached coins, each a denomination and an amount.
    Deposit { caller: Identity, funds: Seq<(Seq<char>, u128)> },
    /// `owner` lets `spender` spend from the owner's balance.
    Authorize { owner: Identity, spender: Identity },
    /// `owner` withdraws the grant given to `spender`.
    Revoke { owner: Identity, spender: Identity },
    /// `caller` moves `amount` from the balance of `owner` to its own.
    Spend { caller: Identity, owner: Identity, amount: u128 },
}

impl LedgerState {
    /// The balance of `account`; an account without an entry holds nothing.
    pub open spec fn balance(self, account: Identity) -> nat {
        if self.balances.contains_key(account) {
            held(self.balances[account])
        } else {
            0
        }
    }

    /// Whether the balance of `account` can be read: it has no entry, or
    /// one that reads as an amount.
    pub open spec fn balance_readable(self, account: Identity) -> bool {
        self.balances.contains_key(account) ==> self.balances[account] is Some
    }

    /// Whether `owner` currently lets `spender` spend; no entry means no.
    pub open spec fn granted(self, owner: Identity, spender: Identity) -> bool {
        self.grants.contains_key((owner, spender)) && self.grants[(owner, spender)] == Some(true)
    }

    /// Whether the grant of the pair can be read: it has no entry, or one
    /// that reads as a flag.
    pub open spec fn grant_readable(self, owner: Identity, spender: Identity) -> bool {
        self.grants.contains_key((owner, spender)) ==> self.grants[(owner, spender)] is Some
    }

    /// Whether `caller` may move funds out of the balance of `owner`.
    pub open spec fn may_spend(self, caller: Identity, owner: Identity) -> bool {
        caller == owner || self.granted(owner, caller)
    }

    /// The sum of all balances.
    pub open spec fn total(self) -> nat {
        total(self.balances)
    }

    /// The state with the balance entry of `account` set to `amount`.
    pub open spec fn with_balance(self, account: Identity, amount: u128) -> LedgerState {
        LedgerState { balances: self.balances.insert(account, Some(amount)), ..self }
    }

    /// The state after `account` was credited with `amount`.
    pub open spec fn credit(self, account: Identity, amount: u128) -> LedgerState {
        self.with_balance(account, (self.balance(account) + amount) as u128)
    }

    /// The state after `account` was debited by `amount`.
    pub open spec fn debit(self, account: Identity, amount: u128) -> LedgerState {
        self.with_balance(account, (self.balance(account) - amount) as u128)
    }

    /// The state after `owner` granted `spender`.
    pub open spec fn authorize(self, owner: Identity, spender: Identity) -> LedgerState {
        LedgerState { grants: self.grants.insert((owner, spender), Some(true)), ..self }
    }

    /// The state after `owner` revoked `spender`: the entry is gone.
    pub open spec fn revoke(self, owner: Identity, spender: Identity) -> LedgerState {
        LedgerState { grants: self.grants.remove((owner, spender)), ..self }
    }

    /// The state after `caller` took `amount` from `owner`: the owner is
    /// debited first, then the caller is credited, also where the two are
    /// one account.
    pub open spec fn spend(self, caller: Identity, owner: Identity, amount: u128) -> LedgerState {
        self.debit(owner, amount).credit(caller, amount)
    }

    /// The state after setup recorded `admin` and `denom`.
    pub open spec fn configure(self, admin: Identity, denom: Seq<char>) -> LedgerState {
        LedgerState { admin: Some(admin), denom: Some(denom), ..self }
    }

    /// The amount that a deposit of `funds` brings: there is exactly one
    /// coin and it is of the accepted denomination.
    pub open spec fn accepted_amount(self, funds: Seq<(Seq<char>, u128)>) -> Option<u128> {
        if funds.len() == 1 && self.denom == Some(funds[0].0) {
            Some(funds[0].1)
        } else {
            None
        }
    }

    /// Why a deposit of `funds` by `caller` is turned away, if it is.
    pub open spec fn deposit_refusal(
        self,
        caller: Identity,
        funds: Seq<(Seq<char>, u128)>,
    ) -> Option<Refusal> {
        match self.accepted_amount(funds) {
            None => Some(Refusal::InvalidFunds),
            Some(amount) => if self.balance(caller) + amount > u128::MAX {
                Some(Refusal::Overflow)
            } else {
                None
            },
        }
    }

    /// Why a spend is turned away, if it is. The checks come in this order
    /// and the first that fails decides.
    pub open spec fn spend_refusal(
        self,
        caller: Identity,
        owner: Identity,
        amount: u128,
    ) -> Option<Refusal> {
        if !self.may_spend(caller, owner) {
            Some(Refusal::Unauthorized)
        } else if self.balance(owner) < amount {
            Some(Refusal::InsufficientBalance)
        } else if caller != owner && self.balance(caller) + amount > u128::MAX {
            Some(Refusal::Overflow)
        } else {
            None
        }
    }

    /// Why `request` is turned away in this state, if it is.
    pub open spec fn refusal(self, request: Request) -> Option<Refusal> {
        match request {
            Request::Deposit { caller, funds } => self.deposit_refusal(caller, funds),
            Request::Authorize { .. } => None,
            Request::Revoke { .. } => None,
            Request::Spend { caller, owner, amount } => self.spend_refusal(caller, owner, amount),
        }
    }

    /// The state after `request`: a refused request changes nothing.
    pub open spec fn apply(self, request: Request) -> LedgerState {
        if self.refusal(request) is Some {
            self
        } else {
            match request {
                Request::Deposit { caller, funds } => self.credit(
                    caller,
                    self.accepted_amount(funds).unwrap(),
                ),
                Request::Authorize { owner, spender } => self.authorize(owner, spender),
                Request::Revoke { owner, spender } => self.revoke(owner, spender),
                Request::Spend { caller, owner, amount } => self.spend(caller, owner, amount),
            }
        }
    }

    /// What `request` adds to the sum of all balances: the amount of a
    /// deposit that is accepted, and nothing otherwise.
    pub open spec fn minted(self, request: Request) -> nat {
        match request {
            Request::Deposit { caller, funds } => if self.deposit_refusal(caller, funds) is None {
                self.accepted_amount(funds).unwrap() as nat
            } else {
                0
            },
            _ => 0,
        }
    }

    /// The state after all of `requests`, in order.
    pub open spec fn run(self, requests: Seq<Request>) -> LedgerState
        decreases requests.len(),
    {
        if requests.len() == 0 {
            self
        } else {
            self.run(requests.drop_last()).apply(requests.last())
        }
    }

    /// Whether `owner` lets `spender` spend after `requests`, going by the
    /// owner's own word alone: the last authorization or revocation that
    /// the owner made for this spender decides, and where there is none,
    /// the grant is as it was.
    pub open spec fn last_word(
        self,
        requests: Seq<Request>,
        owner: Identity,
        spender: Identity,
    ) -> bool
        decreases requests.len(),
    {
        if requests.len() == 0 {
            self.granted(owner, spender)
        } else if requests.last() == (Request::Authorize { owner, spender }) {
            true
        } else if requests.last() == (Request::Revoke { owner, spender }) {
            false
        } else {
            self.last_word(requests.drop_last(), owner, spender)
        }
    }

    /// The sum of the amounts of the deposits among `requests` that are
    /// accepted when the requests are served in order.
    pub open spec fn deposited(self, requests: Seq<Request>) -> nat
        decreases requests.len(),
    {
        if requests.len() == 0 {
            0
        } else {
            self.deposited(requests.drop_last()) + self.run(requests.drop_last()).minted(
                requests.last(),
            )
        }
    }
}

/// What a balance entry holds: its amount, and nothing where it cannot be
/// read.
pub open spec fn held(entry: Option<u128>) -> nat {
    match entry {
        Some(amount) => amount as nat,
        None => 0,
    }
}

/// The sum of what the entries of a finite map of balances hold.
pub open spec fn total(balances: Map<Identity, Option<u128>>) -> nat
    decreases balances.dom().len(),
    when balances.dom().finite()
{
    if balances.dom().len() == 0 {
        0
    } else {
        let account = balances.dom().choose();
        held(balances[account]) + total(balances.remove(account))
    }
}

} // verus!
