//! The host's side of the ledger: the persisted store, the address
//! validator and the JSON encoder.
//!
//! Verus proves nothing in this file. Each function here makes one call
//! into `cosmwasm_std` or `cw_storage_plus`, and its contract says what
//! that call is taken to do. Everything else in the crate is proved from
//! these contracts.
//!
//! Two things are taken from the sources throughout. A read fails only
//! on an entry that is there and does not decode: `may_load` decodes what
//! `Storage::get` returns and does nothing else. A write does not fail:
//! the one step of `save` that can is the JSON encoder, and the encoder
//! of `serde_json_wasm` has no failing step for a `u128`, a `bool` or
//! text (`serialize_u128`, `serialize_bool` and `serialize_str` push bytes
//! and return `Ok`).

use vstd::prelude::*;
use vstd::utf8::encode_utf8;

use cosmwasm_std::{Addr, Deps, DepsMut, Env, StdError};

use crate::decimal::decimal_text;

verus! {

/// `cosmwasm_std::StdError`, carried through unread.
#[verifier::external_type_specification]
#[verifier::external_body]
pub struct ExStdError(StdError);

/// `cosmwasm_std::Env`, carried through unread.
#[verifier::external_type_specification]
#[verifier::external_body]
pub struct ExEnv(Env);

/// Namespace of the balances in the store.
pub const BALANCES: &'static str = "balances";

/// Namespace of the grants in the store.
pub const AUTHORIZED_SPENDERS: &'static str = "authorized_spenders";

/// Key of the administrator in the store.
pub const ADMIN: &'static str = "admin";

/// Key of the accepted denomination in the store.
pub const DENOM: &'static str = "denom";

/// The longest owner, in bytes, that the store can key a grant by.
pub const MAX_OWNER_LEN: usize = 0xFFFF;

/// Whether `owner` is short enough to key a grant: `cw_storage_plus`
/// writes the length of the first part of a two-part key in two bytes and
/// panics on a longer one.
pub open spec fn fits_grant_key(owner: Seq<char>) -> bool {
    encode_utf8(owner).len() <= MAX_OWNER_LEN
}

/// A writable handle on the ledger: the store and the address validator
/// that `cosmwasm_std::DepsMut` lends for the time of one message.
///
/// Verus does not look inside. What the store holds is named by
/// [`stored_balances`], [`stored_grants`], [`stored_admin`] and
/// [`stored_denom`], and what the validator accepts by
/// [`valid_addresses`]. The host makes a handle by writing the struct out.
#[verifier::external_body]
pub struct Ledger<'a> {
    pub deps: DepsMut<'a>,
}

/// A read-only handle on the ledger, around `cosmwasm_std::Deps`.
///
/// What it shows is named by [`visible_balances`], [`visible_grants`],
/// [`visible_admin`], [`visible_denom`] and [`visible_valid_addresses`].
#[verifier::external_body]
pub struct LedgerView<'a> {
    pub deps: Deps<'a>,
}

/// The balances in the store behind `ledger`: each address that has an
/// entry under the namespace `balances`, with the number that the entry
/// decodes to, or with `None` where it does not decode to a `u128`.
pub uninterp spec fn stored_balances(ledger: Ledger) -> Map<Seq<char>, Option<u128>>;

/// The grants in the store behind `ledger`: each (owner, spender) pair
/// that has an entry under the namespace `authorized_spenders`, with the
/// flag that the entry decodes to, or with `None` where it does not
/// decode to a `bool`.
pub uninterp spec fn stored_grants(ledger: Ledger) -> Map<(Seq<char>, Seq<char>), Option<bool>>;

/// The administrator in the store behind `ledger`, if the entry `admin`
/// is there and decodes to an address.
pub uninterp spec fn stored_admin(ledger: Ledger) -> Option<Seq<char>>;

/// The accepted denomination in the store behind `ledger`, if the entry
/// `denom` is there and decodes to text.
pub uninterp spec fn stored_denom(ledger: Ledger) -> Option<Seq<char>>;

/// The inputs that the validator behind `ledger` accepts. `Api` asks of
/// every implementation that it has no mutable state and gives the same
/// answer to the same input, whatever the state of the chain.
pub uninterp spec fn valid_addresses(ledger: Ledger) -> Set<Seq<char>>;

/// The balances that `view` shows.
pub uninterp spec fn visible_balances(view: LedgerView) -> Map<Seq<char>, Option<u128>>;

/// The grants that `view` shows.
pub uninterp spec fn visible_grants(view: LedgerView) -> Map<(Seq<char>, Seq<char>), Option<bool>>;

/// The administrator that `view` shows.
pub uninterp spec fn visible_admin(view: LedgerView) -> Option<Seq<char>>;

/// The accepted denomination that `view` shows.
pub uninterp spec fn visible_denom(view: LedgerView) -> Option<Seq<char>>;

/// The inputs that the validator behind `view` accepts.
pub uninterp spec fn visible_valid_addresses(view: LedgerView) -> Set<Seq<char>>;

impl<'a> Ledger<'a> {
    /// `DepsMut::as_ref`: a read-only handle on the same store and
    /// validator. Taken to show exactly what the store holds and to
    /// accept exactly what the validator accepts.
    #[verifier::external_body]
    pub(crate) fn as_view<'b>(&'b self) -> (view: LedgerView<'b>)
        ensures
            visible_balances(view) == stored_balances(*self),
            visible_grants(view) == stored_grants(*self),
            visible_admin(view) == stored_admin(*self),
            visible_denom(view) == stored_denom(*self),
            visible_valid_addresses(view) == valid_addresses(*self),
    {
        LedgerView { deps: self.deps.as_ref() }
    }
}

/// `Api::addr_validate` on the host's validator. It succeeds on the
/// inputs that the validator accepts, and the address it returns is taken
/// to hold the same text as the input, as the trait documents.
#[verifier::external_body]
pub(crate) fn addr_validate(view: &LedgerView, input: &str) -> (r: Result<String, StdError>)
    ensures
        r is Ok <==> visible_valid_addresses(*view).contains(input@),
        r matches Ok(address) ==> address@ == input@,
{
    view.deps.api.addr_validate(input).map(Addr::into_string)
}

/// `StdError::generic_err`: an error of the host's kind that carries
/// `message`.
#[verifier::external_body]
pub(crate) fn generic_err(message: &str) -> StdError {
    StdError::generic_err(message)
}

/// `Map::may_load` on the balances. It returns the number in the entry
/// of `account`, `None` where there is no entry, and an error exactly
/// where there is one that does not decode.
#[verifier::external_body]
pub(crate) fn may_load_balance(
    view: &LedgerView,
    account: &str,
) -> (r: Result<Option<u128>, StdError>)
    ensures
        r is Err <==> (if visible_balances(*view).contains_key(account@) {
            visible_balances(*view)[account@] is None
        } else {
            false
        }),
        r matches Ok(found) ==> found == (if visible_balances(*view).contains_key(account@) {
            visible_balances(*view)[account@]
        } else {
            None
        }),
{
    cw_storage_plus::Map::<&Addr, u128>::new(BALANCES).may_load(
        view.deps.storage,
        &Addr::unchecked(account),
    )
}

/// `Map::may_load` on the grants. It returns the flag in the entry of
/// the pair, `None` where there is no entry, and an error exactly where
/// there is one that does not decode.
#[verifier::external_body]
pub(crate) fn may_load_grant(
    view: &LedgerView,
    owner: &str,
    spender: &str,
) -> (r: Result<Option<bool>, StdError>)
    requires
        fits_grant_key(owner@),
    ensures
        r is Err <==> (if visible_grants(*view).contains_key((owner@, spender@)) {
            visible_grants(*view)[(owner@, spender@)] is None
        } else {
            false
        }),
        r matches Ok(found) ==> found == (if visible_grants(*view).contains_key(
            (owner@, spender@),
        ) {
            visible_grants(*view)[(owner@, spender@)]
        } else {
            None
        }),
{
    cw_storage_plus::Map::<(&Addr, &Addr), bool>::new(AUTHORIZED_SPENDERS).may_load(
        view.deps.storage,
        (&Addr::unchecked(owner), &Addr::unchecked(spender)),
    )
}

/// `Item::load` on the accepted denomination. It returns the
/// denomination that the store holds, and an error exactly where the
/// entry is missing or does not decode.
#[verifier::external_body]
pub(crate) fn load_denom(view: &LedgerView) -> (r: Result<String, StdError>)
    ensures
        r is Ok <==> visible_denom(*view) is Some,
        r matches Ok(denom) ==> visible_denom(*view) == Some(denom@),
{
    cw_storage_plus::Item::<String>::new(DENOM).load(view.deps.storage)
}

/// `Map::save` on the balances. It does not fail; the entry of `account`
/// is taken to decode to `amount` afterwards, and all else to be as
/// before.
#[verifier::external_body]
pub(crate) fn save_balance(
    ledger: &mut Ledger,
    account: &str,
    amount: u128,
) -> (r: Result<(), StdError>)
    ensures
        r is Ok,
        stored_balances(*final(ledger)) == stored_balances(*old(ledger)).insert(
            account@,
            Some(amount),
        ),
        stored_grants(*final(ledger)) == stored_grants(*old(ledger)),
        stored_admin(*final(ledger)) == stored_admin(*old(ledger)),
        stored_denom(*final(ledger)) == stored_denom(*old(ledger)),
        valid_addresses(*final(ledger)) == valid_addresses(*old(ledger)),
{
    cw_storage_plus::Map::<&Addr, u128>::new(BALANCES).save(
        ledger.deps.storage,
        &Addr::unchecked(account),
        &amount,
    )
}

/// `Map::save` on the grants. It does not fail; the entry of the pair is
/// taken to decode to `flag` afterwards, and all else to be as before.
#[verifier::external_body]
pub(crate) fn save_grant(
    ledger: &mut Ledger,
    owner: &str,
    spender: &str,
    flag: bool,
) -> (r: Result<(), StdError>)
    requires
        fits_grant_key(owner@),
    ensures
        r is Ok,
        stored_grants(*final(ledger)) == stored_grants(*old(ledger)).insert(
            (owner@, spender@),
            Some(flag),
        ),
        stored_balances(*final(ledger)) == stored_balances(*old(ledger)),
        stored_admin(*final(ledger)) == stored_admin(*old(ledger)),
        stored_denom(*final(ledger)) == stored_denom(*old(ledger)),
        valid_addresses(*final(ledger)) == valid_addresses(*old(ledger)),
{
    cw_storage_plus::Map::<(&Addr, &Addr), bool>::new(AUTHORIZED_SPENDERS).save(
        ledger.deps.storage,
        (&Addr::unchecked(owner), &Addr::unchecked(spender)),
        &flag,
    )
}

/// `Map::remove` on the grants. The entry of the pair is taken to be
/// gone and all else as before.
#[verifier::external_body]
pub(crate) fn remove_grant(ledger: &mut Ledger, owner: &str, spender: &str)
    requires
        fits_grant_key(owner@),
    ensures
        stored_grants(*final(ledger)) == stored_grants(*old(ledger)).remove((owner@, spender@)),
        stored_balances(*final(ledger)) == stored_balances(*old(ledger)),
        stored_admin(*final(ledger)) == stored_admin(*old(ledger)),
        stored_denom(*final(ledger)) == stored_denom(*old(ledger)),
        valid_addresses(*final(ledger)) == valid_addresses(*old(ledger)),
{
    cw_storage_plus::Map::<(&Addr, &Addr), bool>::new(AUTHORIZED_SPENDERS).remove(
        ledger.deps.storage,
        (&Addr::unchecked(owner), &Addr::unchecked(spender)),
    )
}

/// `Item::save` on the administrator. It does not fail: an `Addr` is
/// encoded as the text inside it. The store is taken to hold `admin`
/// afterwards, and all else to be as before.
#[verifier::external_body]
pub(crate) fn save_admin(ledger: &mut Ledger, admin: &str) -> (r: Result<(), StdError>)
    ensures
        r is Ok,
        stored_admin(*final(ledger)) == Some(admin@),
        stored_balances(*final(ledger)) == stored_balances(*old(ledger)),
        stored_grants(*final(ledger)) == stored_grants(*old(ledger)),
        stored_denom(*final(ledger)) == stored_denom(*old(ledger)),
        valid_addresses(*final(ledger)) == valid_addresses(*old(ledger)),
{
    cw_storage_plus::Item::<Addr>::new(ADMIN).save(ledger.deps.storage, &Addr::unchecked(admin))
}

/// `Item::save` on the accepted denomination. It does not fail; the
/// store is taken to hold `denom` afterwards, and all else to be as
/// before.
#[verifier::external_body]
pub(crate) fn save_denom(ledger: &mut Ledger, denom: &String) -> (r: Result<(), StdError>)
    ensures
        r is Ok,
        stored_denom(*final(ledger)) == Some(denom@),
        stored_balances(*final(ledger)) == stored_balances(*old(ledger)),
        stored_grants(*final(ledger)) == stored_grants(*old(ledger)),
        stored_admin(*final(ledger)) == stored_admin(*old(ledger)),
        valid_addresses(*final(ledger)) == valid_addresses(*old(ledger)),
{
    cw_storage_plus::Item::<String>::new(DENOM).save(ledger.deps.storage, denom)
}

/// The JSON text of an amount: its decimal numeral between double quotes,
/// as bytes.
pub open spec fn json_amount(amount: u128) -> Seq<u8> {
    encode_utf8(seq!['"'] + decimal_text(amount as nat) + seq!['"'])
}

/// The JSON text of a flag: `true` or `false`, as bytes.
pub open spec fn json_flag(flag: bool) -> Seq<u8> {
    encode_utf8(
        if flag {
            "true"@
        } else {
            "false"@
        },
    )
}

/// `cosmwasm_std::to_json_binary` on an amount. It does not fail; the
/// encoder writes a 128-bit number as a string, and its bytes are handed
/// on as they are.
#[verifier::external_body]
pub(crate) fn to_json_amount(amount: u128) -> (r: Result<Vec<u8>, StdError>)
    ensures
        r is Ok,
        r matches Ok(bytes) ==> bytes@ == json_amount(amount),
{
    cosmwasm_std::to_json_binary(&amount).map(Vec::from)
}

/// `cosmwasm_std::to_json_binary` on a flag. It does not fail; its bytes
/// are handed on as they are.
#[verifier::external_body]
pub(crate) fn to_json_flag(flag: bool) -> (r: Result<Vec<u8>, StdError>)
    ensures
        r is Ok,
        r matches Ok(bytes) ==> bytes@ == json_flag(flag),
{
    cosmwasm_std::to_json_binary(&flag).map(Vec::from)
}

} // verus!
