//! Messages and plain data that cross the contract's boundary.

use vstd::prelude::*;

verus! {

/// An amount of one asset: a denomination and a quantity.
#[derive(Clone, Debug, PartialEq, Eq)]
pub struct Coin {
    pub denom: String,
    pub amount: u128,
}

/// The mathematical value of a [`Coin`].
pub struct CoinView {
    pub denom: Seq<char>,
    pub amount: u128,
}

impl View for Coin {
    type V = CoinView;

    open spec fn view(&self) -> CoinView {
        CoinView { denom: self.denom@, amount: self.amount }
    }
}

/// The views of a list of coins, in order.
pub open spec fn coins_view(coins: Seq<Coin>) -> Seq<CoinView> {
    coins.map_values(|c: Coin| c@)
}

impl Coin {
    /// A coin of `amount` units of `denom`.
    pub fn new(amount: u128, denom: String) -> (c: Coin)
        ensures
            c@ == (CoinView { denom: denom@, amount }),
    {
        Coin { denom, amount }
    }
}

/// Who makes a call and what payment is attached to it.
#[derive(Clone, Debug, PartialEq, Eq)]
pub struct MessageInfo {
    pub sender: String,
    pub funds: Vec<Coin>,
}

/// Construction parameters: the fee that creating an entry costs.
#[derive(Clone, Debug, PartialEq, Eq)]
pub struct ConstructorMsg {
    pub base_fee: Coin,
}

impl Default for ConstructorMsg {
    /// The fee used when none is given: zero units of the empty denomination.
    fn default() -> (m: ConstructorMsg)
        ensures
            m.base_fee@ == (CoinView { denom: Seq::<char>::empty(), amount: 0 }),
    {
        ConstructorMsg { base_fee: Coin { denom: String::new(), amount: 0 } }
    }
}

/// The mutating commands.
#[derive(Clone, Debug, PartialEq, Eq)]
pub enum ExecuteMsg {
    SetValue { key: String, value: String },
    UpdateValue { key: String, value: String },
    DeleteValue { key: String },
    Withdraw {  },
}

/// The read-only commands.
#[derive(Clone, Debug, PartialEq, Eq)]
pub enum QueryMsg {
    Value { key: String },
}

/// The answer to a lookup: the key asked for and what is stored under it.
#[derive(Clone, Debug, PartialEq, Eq)]
pub struct ValueResp {
    pub key: String,
    pub value: Option<String>,
}

} // verus!
