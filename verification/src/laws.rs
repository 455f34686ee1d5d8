//! What holds of the contract as a whole, proved over the handlers' own
//! specifications.

use vstd::prelude::*;
use crate::contract::execute::{
    covers, delete_value_spec, fee_is_met, insert_value_spec, sweep, update_value_spec,
    withdraw_spec,
};
use crate::msg::{Coin, CoinView, ExecuteMsg, MessageInfo};
use crate::response::Response;
use crate::state::LedgerView;
use crate::{execute_ensures, ContractError, ErrorView};

verus! {

/// A key that was never written reads as absent, and construction does not
/// change that: it sets fee and owner and leaves every key as it was.
pub proof fn law_unwritten_key_is_absent(
    ledger: LedgerView,
    fee: (Seq<char>, u128),
    owner: Seq<char>,
    key: Seq<char>,
)
    requires
        !ledger.entries.contains_key(key),
    ensures
        ledger.lookup(key) is None,
        ledger.configured(fee, owner).lookup(key) is None,
        forall|k: Seq<char>| ledger.configured(fee, owner).lookup(k) == ledger.lookup(k),
{
}

/// The fee gate. Without a coin that meets the fee, creating an entry is
/// refused with the fee's amount and the ledger stays as it was. With one,
/// the entry is created: the key then reads as the value given, and every
/// other key reads as before.
pub proof fn law_fee_gate(
    ledger: LedgerView,
    fee: (Seq<char>, u128),
    sender: Seq<char>,
    funds: Seq<CoinView>,
    key: Seq<char>,
    value: Seq<char>,
)
    ensures
        !fee_is_met(funds, fee) ==> insert_value_spec(ledger, fee, sender, funds, key, value) == (
            Err::<crate::response::ResponseView, ErrorView>(
                ErrorView::StorageFeeTooLow { amount: fee.1 },
            ),
            ledger,
        ),
        fee_is_met(funds, fee) ==> {
            let (result, after) = insert_value_spec(ledger, fee, sender, funds, key, value);
            &&& result is Ok
            &&& after.lookup(key) == Some(value)
            &&& after.fee == ledger.fee
            &&& after.owner == ledger.owner
            &&& forall|k: Seq<char>| k != key ==> after.lookup(k) == ledger.lookup(k)
        },
{
}

/// The fee gate looks at one coin at a time. A single attached coin passes
/// exactly when it is of the fee's denomination and of at least its amount;
/// nothing attached never passes, unless by a coin that passes alone; and
/// coins that each fall short do not pass together, whatever they add up to.
pub proof fn law_fee_gate_is_per_coin(funds: Seq<CoinView>, coin: CoinView, fee: (Seq<char>, u128))
    ensures
        fee_is_met(seq![coin], fee) <==> coin.denom == fee.0 && coin.amount >= fee.1,
        !fee_is_met(Seq::<CoinView>::empty(), fee),
        fee_is_met(funds.push(coin), fee) <==> fee_is_met(funds, fee) || covers(coin, fee),
{
    let one = seq![coin];
    if covers(coin, fee) {
        assert(covers(one[0], fee));
        assert(covers(funds.push(coin)[funds.len() as int], fee));
    }
    if fee_is_met(funds, fee) {
        let i = choose|i: int| 0 <= i < funds.len() && covers(#[trigger] funds[i], fee);
        assert(covers(funds.push(coin)[i], fee));
    }
    if fee_is_met(funds.push(coin), fee) {
        let i = choose|i: int|
            0 <= i < funds.push(coin).len() && covers(#[trigger] funds.push(coin)[i], fee);
        if i < funds.len() {
            assert(covers(funds[i], fee));
        }
    }
}

/// An update asks no fee and no prior entry: whatever the ledger held and
/// whatever was attached, the key afterwards reads as the new value, and
/// nothing else has changed.
pub proof fn law_update_sets_the_value(
    ledger: LedgerView,
    sender: Seq<char>,
    key: Seq<char>,
    value: Seq<char>,
)
    ensures
        ({
            let (_, after) = update_value_spec(ledger, sender, key, value);
            &&& after.lookup(key) == Some(value)
            &&& after.fee == ledger.fee
            &&& after.owner == ledger.owner
            &&& forall|k: Seq<char>| k != key ==> after.lookup(k) == ledger.lookup(k)
        }),
{
}

/// An update cannot be refused. On a ledger whose keys can all be read it
/// succeeds for every caller, with or without payment attached, on a key that
/// is present as on one that is absent, and the key then reads as the new
/// value.
pub proof fn law_update_always_succeeds(
    pre: LedgerView,
    post: LedgerView,
    info: MessageInfo,
    key: String,
    value: String,
    balance: Result<Vec<Coin>, cosmwasm_std::StdError>,
    r: Result<Response, ContractError>,
)
    requires
        pre.sound(),
        execute_ensures(pre, post, info, ExecuteMsg::UpdateValue { key, value }, balance, r),
    ensures
        r is Ok,
        post.lookup(key@) == Some(value@),
        post.sound(),
{
    assert(pre.readable(key@));
    assert forall|k: Seq<char>| post.readable(k) by {
        assert(pre.readable(k));
    }
}

/// Deleting a key makes it read as absent and touches nothing else; on an
/// absent key it changes nothing; and deleting twice is deleting once.
pub proof fn law_delete_is_idempotent(ledger: LedgerView, sender: Seq<char>, key: Seq<char>)
    ensures
        ({
            let (_, once) = delete_value_spec(ledger, sender, key);
            let (_, twice) = delete_value_spec(once, sender, key);
            &&& once.lookup(key) is None
            &&& forall|k: Seq<char>| k != key ==> once.lookup(k) == ledger.lookup(k)
            &&& !ledger.entries.contains_key(key) ==> once == ledger
            &&& twice == once
        }),
{
    let (_, once) = delete_value_spec(ledger, sender, key);
    let (_, twice) = delete_value_spec(once, sender, key);
    assert(twice.entries =~= once.entries);
    if !ledger.entries.contains_key(key) {
        assert(once.entries =~= ledger.entries);
    }
}

/// No handler leaves a key behind that cannot be looked up: where every key
/// could be looked up before a construction, a creation, an update or a
/// deletion, every key can be afterwards. A withdrawal and a lookup do not
/// write at all.
pub proof fn law_handlers_keep_keys_readable(
    ledger: LedgerView,
    fee: (Seq<char>, u128),
    sender: Seq<char>,
    funds: Seq<CoinView>,
    key: Seq<char>,
    value: Seq<char>,
)
    requires
        ledger.sound(),
    ensures
        ledger.configured(fee, sender).sound(),
        insert_value_spec(ledger, fee, sender, funds, key, value).1.sound(),
        update_value_spec(ledger, sender, key, value).1.sound(),
        delete_value_spec(ledger, sender, key).1.sound(),
{
    assert forall|k: Seq<char>| ledger.put(key, value).readable(k) by {
        assert(ledger.readable(k));
    }
    assert forall|k: Seq<char>| ledger.without(key).readable(k) by {
        assert(ledger.readable(k));
    }
    assert forall|k: Seq<char>| ledger.configured(fee, sender).readable(k) by {
        assert(ledger.readable(k));
    }
}

/// Only the owner withdraws. For the owner the host's answer `balance`
/// becomes exactly one transfer, of all of it, to the owner. Anyone else is
/// refused and told who the owner is, whatever the contract holds, and no
/// transfer is emitted.
pub proof fn law_withdraw_is_the_owners(
    owner: Seq<char>,
    sender: Seq<char>,
    balance: Seq<CoinView>,
    failure: cosmwasm_std::StdError,
)
    ensures
        sender == owner ==> (withdraw_spec(owner, sender, Ok(balance)) matches Ok(response)
            && response.messages == seq![sweep(owner, balance)]),
        sender != owner ==> withdraw_spec(owner, sender, Ok(balance)) == Err::<
            crate::response::ResponseView,
            ErrorView,
        >(ErrorView::Unauthorized { owner }),
        sender != owner ==> withdraw_spec(owner, sender, Err(failure)) == Err::<
            crate::response::ResponseView,
            ErrorView,
        >(ErrorView::Unauthorized { owner }),
{
    if sender == owner {
        let response = withdraw_spec(owner, sender, Ok(balance))->Ok_0;
        assert(response.messages =~= seq![sweep(owner, balance)]);
    }
}

/// The one key that a command may write, if any.
pub open spec fn written_key(msg: ExecuteMsg) -> Option<Seq<char>> {
    match msg {
        ExecuteMsg::SetValue { key, .. } => Some(key@),
        ExecuteMsg::UpdateValue { key, .. } => Some(key@),
        ExecuteMsg::DeleteValue { key } => Some(key@),
        ExecuteMsg::Withdraw {  } => None,
    }
}

/// A call that fails has changed nothing: every rule is decided before the
/// first write.
pub proof fn law_failure_changes_nothing(
    pre: LedgerView,
    post: LedgerView,
    info: MessageInfo,
    msg: ExecuteMsg,
    balance: Result<Vec<Coin>, cosmwasm_std::StdError>,
    r: Result<Response, ContractError>,
)
    requires
        execute_ensures(pre, post, info, msg, balance, r),
        r is Err,
    ensures
        post == pre,
{
}

/// Fee and owner are set at construction and by nothing else: no command
/// changes either, whatever its outcome.
pub proof fn law_fee_and_owner_are_fixed(
    pre: LedgerView,
    post: LedgerView,
    info: MessageInfo,
    msg: ExecuteMsg,
    balance: Result<Vec<Coin>, cosmwasm_std::StdError>,
    r: Result<Response, ContractError>,
)
    requires
        execute_ensures(pre, post, info, msg, balance, r),
    ensures
        post.fee == pre.fee,
        post.owner == pre.owner,
{
}

/// A command reaches no key but its own: every other key holds afterwards
/// what it held before, and a withdrawal reaches none.
pub proof fn law_commands_touch_one_key(
    pre: LedgerView,
    post: LedgerView,
    info: MessageInfo,
    msg: ExecuteMsg,
    balance: Result<Vec<Coin>, cosmwasm_std::StdError>,
    r: Result<Response, ContractError>,
    other: Seq<char>,
)
    requires
        execute_ensures(pre, post, info, msg, balance, r),
        written_key(msg) != Some(other),
    ensures
        post.lookup(other) == pre.lookup(other),
        post.readable(other) == pre.readable(other),
{
}

/// Only a refusal by the fee gate or by the ownership gate names a rule of
/// the contract; the one comes from creating an entry and the other from
/// withdrawing, and every other failure is the storage layer's or the host's.
pub proof fn law_refusals_come_from_their_gates(
    pre: LedgerView,
    post: LedgerView,
    info: MessageInfo,
    msg: ExecuteMsg,
    balance: Result<Vec<Coin>, cosmwasm_std::StdError>,
    r: Result<Response, ContractError>,
)
    requires
        execute_ensures(pre, post, info, msg, balance, r),
    ensures
        r matches Err(ContractError::StorageFeeTooLow { amount }) ==> msg is SetValue && pre.fee
            is Some && amount == pre.fee.unwrap().1,
        r matches Err(ContractError::Unauthorized { owner }) ==> msg is Withdraw && pre.owner
            == Some(owner@) && info.sender@ != owner@,
{
}

} // verus!
