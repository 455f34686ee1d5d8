//! A fee-gated key-value store contract: entries are created against a fee,
//! updated and deleted freely, and the accumulated funds are swept by the owner.

use vstd::prelude::*;
use crate::contract::execute::{
    balance_view, delete_value, delete_value_spec, insert_value, insert_value_spec, update_value,
    update_value_spec, withdraw, withdraw_spec,
};
use crate::contract::query::{get_value, option_view};
use crate::contract::constructor;
use crate::msg::{coins_view, Coin, ConstructorMsg, ExecuteMsg, MessageInfo, QueryMsg, ValueResp};
use crate::response::{empty_response, Response, ResponseView};
use crate::state::{Ledger, LedgerView};

pub mod contract;
pub mod laws;
pub mod msg;
pub mod response;
pub mod state;

verus! {

/// Why a call was refused.
#[derive(Debug, PartialEq)]
pub enum ContractError {
    /// The storage layer or the host failed; the failure is passed on as it came.
    Std(cosmwasm_std::StdError),
    /// Only the owner may withdraw; `owner` is who that is.
    Unauthorized { owner: String },
    /// No attached coin met the creation fee; `amount` is the least that would.
    StorageFeeTooLow { amount: u128 },
}

/// The mathematical value of a [`ContractError`].
pub enum ErrorView {
    Std(cosmwasm_std::StdError),
    Unauthorized { owner: Seq<char> },
    StorageFeeTooLow { amount: u128 },
}

impl View for ContractError {
    type V = ErrorView;

    open spec fn view(&self) -> ErrorView {
        match *self {
            ContractError::Std(e) => ErrorView::Std(e),
            ContractError::Unauthorized { owner } => ErrorView::Unauthorized { owner: owner@ },
            ContractError::StorageFeeTooLow { amount } => ErrorView::StorageFeeTooLow { amount },
        }
    }
}

/// The mathematical value of a handler's result.
pub open spec fn result_view(r: Result<Response, ContractError>) -> Result<ResponseView, ErrorView> {
    match r {
        Ok(response) => Ok(response@),
        Err(e) => Err(e@),
    }
}

/// Whether a result is a failure of the storage layer or the host, as
/// opposed to a refusal by one of the contract's own rules.
pub open spec fn is_std_failure(r: Result<Response, ContractError>) -> bool {
    r matches Err(ContractError::Std(_))
}

/// The entry point of construction: calls [`constructor`] with the message's
/// fee. Like it, it always succeeds, sets fee and owner, and leaves the
/// entries as they were.
pub fn instantiate(ledger: &mut Ledger<'_>, info: MessageInfo, msg: ConstructorMsg) -> (r: Result<
    Response,
    cosmwasm_std::StdError,
>)
    ensures
        r matches Ok(response) && response@ == empty_response(),
        final(ledger)@ == old(ledger)@.configured(
            (msg.base_fee.denom@, msg.base_fee.amount),
            info.sender@,
        ),
{
    constructor(ledger, info, msg.base_fee)
}

/// What [`execute`] owes for each command: what the command's own handler
/// owes, a failure of the storage layer being reported as
/// [`ContractError::Std`]. `pre` and `post` are the ledger before and after.
///
/// Creating an entry fails in storage exactly where no fee can be read, and
/// is otherwise decided by the fee gate. An update succeeds exactly where the
/// key is absent or its value can be read. A deletion always succeeds. A
/// withdrawal fails in storage exactly where no owner can be read, and is
/// otherwise decided by the ownership gate and the host's answer.
pub open spec fn execute_ensures(
    pre: LedgerView,
    post: LedgerView,
    info: MessageInfo,
    msg: ExecuteMsg,
    balance: Result<Vec<Coin>, cosmwasm_std::StdError>,
    r: Result<Response, ContractError>,
) -> bool {
    match msg {
        ExecuteMsg::SetValue { key, value } => {
            match pre.fee {
                Some(fee) => (result_view(r), post) == insert_value_spec(
                    pre,
                    fee,
                    info.sender@,
                    coins_view(info.funds@),
                    key@,
                    value@,
                ),
                None => is_std_failure(r) && post == pre,
            }
        },
        ExecuteMsg::UpdateValue { key, value } => {
            &&& r is Ok <==> pre.readable(key@)
            &&& r matches Ok(response) ==> (response@, post) == update_value_spec(
                pre,
                info.sender@,
                key@,
                value@,
            )
            &&& r is Err ==> is_std_failure(r) && post == pre
        },
        ExecuteMsg::DeleteValue { key } => {
            r matches Ok(response) && (response@, post) == delete_value_spec(
                pre,
                info.sender@,
                key@,
            )
        },
        ExecuteMsg::Withdraw {  } => {
            &&& post == pre
            &&& match pre.owner {
                Some(owner) => result_view(r) == withdraw_spec(
                    owner,
                    info.sender@,
                    balance_view(balance),
                ),
                None => is_std_failure(r),
            }
        },
    }
}

impl ExecuteMsg {
    /// Whether carrying out this command takes the contract's balance: only
    /// a withdrawal does. For any other command [`execute`] ignores it.
    pub fn needs_balance(&self) -> (b: bool)
        ensures
            b == (*self is Withdraw),
    {
        match self {
            ExecuteMsg::Withdraw {  } => true,
            _ => false,
        }
    }
}

/// The entry point of the mutations: hands the command to its handler.
///
/// `balance` is the host's answer to what the contract holds; only a
/// withdrawal looks at it.
pub fn execute(
    ledger: &mut Ledger<'_>,
    info: MessageInfo,
    msg: ExecuteMsg,
    balance: Result<Vec<Coin>, cosmwasm_std::StdError>,
) -> (r: Result<Response, ContractError>)
    ensures
        execute_ensures(old(ledger)@, final(ledger)@, info, msg, balance, r),
{
    match msg {
        ExecuteMsg::SetValue { key, value } => insert_value(ledger, info, key, value),
        ExecuteMsg::UpdateValue { key, value } => {
            match update_value(ledger, info, key, value) {
                Ok(response) => Ok(response),
                Err(e) => Err(ContractError::Std(e)),
            }
        },
        ExecuteMsg::DeleteValue { key } => {
            match delete_value(ledger, info, key) {
                Ok(response) => Ok(response),
                Err(e) => Err(ContractError::Std(e)),
            }
        },
        ExecuteMsg::Withdraw {  } => withdraw(ledger, info, balance),
    }
}

/// The entry point of the queries: hands the query to its handler. For a
/// lookup see [`get_value`].
pub fn query(ledger: &Ledger<'_>, msg: QueryMsg) -> (r: Result<ValueResp, cosmwasm_std::StdError>)
    ensures
        match msg {
            QueryMsg::Value { key } => {
                &&& r is Ok <==> ledger@.readable(key@)
                &&& r matches Ok(resp) ==> resp.key@ == key@ && option_view(resp.value)
                    == ledger@.lookup(key@)
            },
        },
{
    match msg {
        QueryMsg::Value { key } => get_value(ledger, key),
    }
}

} // verus!
