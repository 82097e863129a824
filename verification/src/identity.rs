//! Identities: text that the host's validator has accepted.

use vstd::prelude::*;

use crate::error::ContractError;
use crate::host::{addr_validate, LedgerView};

verus! {

/// Has the host validate `input`. An input that the validator accepts
/// comes back as the address, which reads as the input does; for any
/// other the validator's error is handed on inside
/// [`ContractError::InvalidAddress`].
pub fn validate(view: &LedgerView, input: &str) -> (r: Result<String, ContractError>)
    ensures
        r is Ok <==> view.state().valid.contains(input@),
        match r {
            Ok(address) => address@ == input@,
            Err(e) => e is InvalidAddress,
        },
{
    match addr_validate(view, input) {
        Ok(address) => Ok(address),
        Err(e) => Err(ContractError::InvalidAddress(e)),
    }
}

} // verus!
