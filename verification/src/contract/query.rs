//! The read-only handler.

use vstd::prelude::*;
use crate::msg::ValueResp;
use crate::state::{store_may_load, Ledger};

verus! {

/// The view of an optional string.
pub open spec fn option_view(value: Option<String>) -> Option<Seq<char>> {
    match value {
        Some(s) => Some(s@),
        None => None,
    }
}

/// Looks `key` up.
///
/// The answer repeats the key and carries the value stored under it, or
/// nothing where the key is absent: absence is no error. The call fails
/// exactly where the storage holds something under the key that cannot be
/// read as a value, which no handler of this contract brings about.
pub fn get_value(ledger: &Ledger<'_>, key: String) -> (r: Result<ValueResp, cosmwasm_std::StdError>)
    ensures
        r is Ok <==> ledger@.readable(key@),
        r matches Ok(resp) ==> resp.key@ == key@ && option_view(resp.value) == ledger@.lookup(key@),
{
    match store_may_load(ledger, &key) {
        Ok(value) => Ok(ValueResp { key, value }),
        Err(e) => Err(e),
    }
}

} // verus!
