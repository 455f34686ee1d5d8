//! The handlers: construction, the four mutations and the lookup.

use vstd::prelude::*;
use crate::msg::{Coin, MessageInfo};
use crate::response::{empty_response, Response};
use crate::state::{save_fee, save_owner, Ledger};

pub mod execute;
pub mod query;

verus! {

/// Sets the creation fee and records the caller as owner.
///
/// It always succeeds: no fee is refused, a zero fee and an empty
/// denomination included, and neither write can fail. Fee and owner then
/// read back as given, the entries are as they were, and the acknowledgement
/// is empty.
pub fn constructor(ledger: &mut Ledger<'_>, info: MessageInfo, base_fee: Coin) -> (r: Result<
    Response,
    cosmwasm_std::StdError,
>)
    ensures
        r matches Ok(response) && response@ == empty_response(),
        final(ledger)@ == old(ledger)@.configured(
            (base_fee.denom@, base_fee.amount),
            info.sender@,
        ),
{
    match save_fee(ledger, &base_fee) {
        Ok(()) => {},
        Err(e) => {
            return Err(e);
        },
    }
    match save_owner(ledger, &info.sender) {
        Ok(()) => {},
        Err(e) => {
            return Err(e);
        },
    }
    Ok(Response::new())
}

} // verus!
