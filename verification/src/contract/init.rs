//! Setup: the administrator and the accepted denomination are recorded,
//! once, before any other message.

use vstd::prelude::*;

use cosmwasm_std::{Env, StdError};

use crate::host::{addr_validate, save_admin, save_denom, Ledger};
use crate::info::MessageInfo;
use crate::msg::init::InstantiateMsg;
use crate::response::Response;

verus! {

/// Sets the ledger up: the administrator's address is validated, then it
/// and the denomination are stored as given. Balances and grants are not
/// touched.
///
/// Setup goes through exactly where the validator accepts the
/// administrator's address. Where it does not, nothing is stored.
pub fn instantiate(
    ledger: &mut Ledger,
    _env: Env,
    _info: MessageInfo,
    msg: InstantiateMsg,
) -> (r: Result<Response, StdError>)
    ensures
        r is Ok <==> old(ledger).state().valid.contains(msg.admin@),
        match r {
            Ok(response) => {
                &&& final(ledger).state() == old(ledger).state().configure(msg.admin@, msg.denom@)
                &&& response@ == seq![("method"@, "instantiate"@)]
            },
            Err(_) => final(ledger).state() == old(ledger).state(),
        },
{
    let admin = addr_validate(&ledger.as_view(), msg.admin.as_str())?;
    save_admin(ledger, admin.as_str())?;
    save_denom(ledger, &msg.denom)?;
    let response = Response::new().add_attribute("method", "instantiate");
    Ok(response)
}

} // verus!
