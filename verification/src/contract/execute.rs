//! The mutating handlers, with the two gates that guard them: the fee gate
//! before an entry is created and the ownership gate before a withdrawal.

use vstd::prelude::*;
use crate::msg::{coins_view, Coin, CoinView, MessageInfo};
use crate::response::{acknowledgement, get_response, Response, ResponseView, Transfer, TransferView};
use crate::state::{load_fee, load_owner, store_remove, store_save, store_update, Ledger, LedgerView};
use crate::{is_std_failure, result_view, ContractError, ErrorView};

verus! {

/// The fee gate: some single attached coin is of the fee's denomination and
/// of at least the fee's amount. Coins are never added up.
pub open spec fn fee_is_met(funds: Seq<CoinView>, fee: (Seq<char>, u128)) -> bool {
    exists|i: int| 0 <= i < funds.len() && covers(#[trigger] funds[i], fee)
}

/// One coin against the fee: the same denomination, and no less of it.
pub open spec fn covers(coin: CoinView, fee: (Seq<char>, u128)) -> bool {
    coin.denom == fee.0 && coin.amount >= fee.1
}

/// What creating an entry gives, `fee` being the stored fee: the entry and
/// an acknowledgement where the fee gate passes, else the refusal naming the
/// fee's amount and the ledger as it was.
pub open spec fn insert_value_spec(
    ledger: LedgerView,
    fee: (Seq<char>, u128),
    sender: Seq<char>,
    funds: Seq<CoinView>,
    key: Seq<char>,
    value: Seq<char>,
) -> (Result<ResponseView, ErrorView>, LedgerView) {
    if fee_is_met(funds, fee) {
        (Ok(acknowledgement("insert_value"@, sender, value)), ledger.put(key, value))
    } else {
        (Err(ErrorView::StorageFeeTooLow { amount: fee.1 }), ledger)
    }
}

/// What an update gives where it succeeds: the entry set, whatever was
/// there and whatever was attached.
pub open spec fn update_value_spec(
    ledger: LedgerView,
    sender: Seq<char>,
    key: Seq<char>,
    value: Seq<char>,
) -> (ResponseView, LedgerView) {
    (acknowledgement("update_value"@, sender, value), ledger.put(key, value))
}

/// What a deletion gives: the key gone, present or not.
pub open spec fn delete_value_spec(ledger: LedgerView, sender: Seq<char>, key: Seq<char>) -> (
    ResponseView,
    LedgerView,
) {
    (acknowledgement("delete_value"@, sender, key), ledger.without(key))
}

/// The instruction that moves all of `balance` to `to_address`.
pub open spec fn sweep(to_address: Seq<char>, balance: Seq<CoinView>) -> TransferView {
    TransferView { to_address, amount: balance }
}

/// What a withdrawal gives, `owner` being the stored owner and `balance` what
/// the host answered when asked for the contract's holdings. Anyone but the
/// owner is refused and told who the owner is. For the owner the host's
/// failure is passed on, and its answer becomes one transfer of the whole
/// balance to the caller.
pub open spec fn withdraw_spec(
    owner: Seq<char>,
    sender: Seq<char>,
    balance: Result<Seq<CoinView>, cosmwasm_std::StdError>,
) -> Result<ResponseView, ErrorView> {
    if sender != owner {
        Err(ErrorView::Unauthorized { owner })
    } else {
        match balance {
            Ok(coins) => Ok(
                acknowledgement("withdraw"@, sender, "all balances"@).with_message(
                    sweep(sender, coins),
                ),
            ),
            Err(e) => Err(ErrorView::Std(e)),
        }
    }
}

/// The view of a balance as the host answered it.
pub open spec fn balance_view(balance: Result<Vec<Coin>, cosmwasm_std::StdError>) -> Result<
    Seq<CoinView>,
    cosmwasm_std::StdError,
> {
    match balance {
        Ok(coins) => Ok(coins_view(coins@)),
        Err(e) => Err(e),
    }
}

/// Decides the fee gate for the attached `funds`.
pub fn fee_is_paid(funds: &Vec<Coin>, fee: &Coin) -> (paid: bool)
    ensures
        paid == fee_is_met(coins_view(funds@), (fee.denom@, fee.amount)),
{
    let ghost wanted = (fee.denom@, fee.amount);
    let mut i: usize = 0;
    while i < funds.len()
        invariant
            i <= funds.len(),
            wanted == (fee.denom@, fee.amount),
            forall|j: int| 0 <= j < i ==> !covers(#[trigger] coins_view(funds@)[j], wanted),
        decreases funds.len() - i,
    {
        if funds[i].denom == fee.denom && funds[i].amount >= fee.amount {
            assert(covers(coins_view(funds@)[i as int], wanted));
            return true;
        }
        i += 1;
    }
    false
}

/// The fee gate as a check: passes where [`fee_is_paid`] holds, and otherwise
/// refuses with the fee's amount, the least that would have passed.
pub fn fee_gate(funds: &Vec<Coin>, fee: &Coin) -> (r: Result<(), ContractError>)
    ensures
        r is Ok <==> fee_is_met(coins_view(funds@), (fee.denom@, fee.amount)),
        r matches Err(e) ==> e@ == (ErrorView::StorageFeeTooLow { amount: fee.amount }),
{
    if fee_is_paid(funds, fee) {
        Ok(())
    } else {
        Err(ContractError::StorageFeeTooLow { amount: fee.amount })
    }
}

/// The ownership gate: passes for the owner, identities being compared
/// exactly, and tells anyone else who the owner is.
pub fn ownership_gate(owner: String, sender: &String) -> (r: Result<(), ContractError>)
    ensures
        r is Ok <==> sender@ == owner@,
        r matches Err(e) ==> e@ == (ErrorView::Unauthorized { owner: owner@ }),
{
    if *sender != owner {
        Err(ContractError::Unauthorized { owner })
    } else {
        Ok(())
    }
}

/// Creates the entry `key = value` against the fee.
///
/// Where the fee cannot be read the storage layer's failure is passed on and
/// the ledger is as it was. Where it can, the fee gate alone decides, as
/// [`insert_value_spec`] says: if no attached coin meets the fee the call is
/// refused with the fee's amount and the ledger is as it was; if one does,
/// the entry is written and acknowledged, the write having no way to fail.
pub fn insert_value(ledger: &mut Ledger<'_>, info: MessageInfo, key: String, value: String) -> (r:
    Result<Response, ContractError>)
    ensures
        match old(ledger)@.fee {
            Some(fee) => (result_view(r), final(ledger)@) == insert_value_spec(
                old(ledger)@,
                fee,
                info.sender@,
                coins_view(info.funds@),
                key@,
                value@,
            ),
            None => is_std_failure(r) && final(ledger)@ == old(ledger)@,
        },
{
    let fee = match load_fee(ledger) {
        Ok(fee) => fee,
        Err(e) => {
            return Err(ContractError::Std(e));
        },
    };
    match fee_gate(&info.funds, &fee) {
        Ok(()) => {},
        Err(refusal) => {
            return Err(refusal);
        },
    }
    match store_save(ledger, &key, &value) {
        Ok(()) => Ok(get_response("insert_value", info.sender.as_str(), value)),
        Err(e) => Err(ContractError::Std(e)),
    }
}

/// Sets the entry `key = value`, whether or not the key was there, with no
/// fee asked and no regard to what is attached.
///
/// It succeeds exactly where the key is absent or its value can be read,
/// which is every key of a ledger that only this contract has written. The
/// entry is then written and acknowledged, as [`update_value_spec`] says.
/// It fails only where what is stored under the key cannot be read, the
/// storage layer reading before it writes; the ledger is then as it was.
pub fn update_value(ledger: &mut Ledger<'_>, info: MessageInfo, key: String, value: String) -> (r:
    Result<Response, cosmwasm_std::StdError>)
    ensures
        r is Ok <==> old(ledger)@.readable(key@),
        r matches Ok(response) ==> (response@, final(ledger)@) == update_value_spec(
            old(ledger)@,
            info.sender@,
            key@,
            value@,
        ),
        r is Err ==> final(ledger)@ == old(ledger)@,
{
    match store_update(ledger, &key, &value) {
        Ok(stored) => Ok(get_response("update_value", info.sender.as_str(), stored)),
        Err(e) => Err(e),
    }
}

/// Removes `key`; where it is absent nothing changes. Always succeeds.
pub fn delete_value(ledger: &mut Ledger<'_>, info: MessageInfo, key: String) -> (r: Result<
    Response,
    cosmwasm_std::StdError,
>)
    ensures
        r matches Ok(response) && (response@, final(ledger)@) == delete_value_spec(
            old(ledger)@,
            info.sender@,
            key@,
        ),
{
    store_remove(ledger, &key);
    Ok(get_response("delete_value", info.sender.as_str(), key))
}

/// Sweeps the contract's holdings to the owner.
///
/// `balance` is the host's answer to the question what the contract holds.
/// Where the owner cannot be read the storage layer's failure is passed on.
/// Otherwise the ownership gate decides, before the balance is looked at: see
/// [`withdraw_spec`]. The ledger is only read.
pub fn withdraw(
    ledger: &Ledger<'_>,
    info: MessageInfo,
    balance: Result<Vec<Coin>, cosmwasm_std::StdError>,
) -> (r: Result<Response, ContractError>)
    ensures
        match ledger@.owner {
            Some(owner) => result_view(r) == withdraw_spec(owner, info.sender@, balance_view(balance)),
            None => is_std_failure(r),
        },
{
    let owner = match load_owner(ledger) {
        Ok(owner) => owner,
        Err(e) => {
            return Err(ContractError::Std(e));
        },
    };
    match ownership_gate(owner, &info.sender) {
        Ok(()) => {},
        Err(refusal) => {
            return Err(refusal);
        },
    }
    let amount = match balance {
        Ok(coins) => coins,
        Err(e) => {
            return Err(ContractError::Std(e));
        },
    };
    let transfer = Transfer { to_address: info.sender.clone(), amount };
    let response = get_response(
        "withdraw",
        info.sender.as_str(),
        "all balances".to_owned(),
    ).add_message(transfer);
    Ok(response)
}

} // verus!
