//! The ledger: the contract's persistent state, kept in the host's storage.
//!
//! Three things live there: the entries under the namespace `store`, the
//! creation fee under `sorage_fee`, and the owner under `owner`. The storage
//! itself belongs to the host and is reached through `cw_storage_plus`, so
//! what this module states about reading and writing it is trusted rather
//! than proved: that the host keeps what was set under a key until the key is
//! set again or removed, and that a value written as JSON reads back as the
//! value it was. The handlers are verified against these statements.
//!
//! A write cannot fail. `save` fails only where turning the value into JSON
//! fails, and for what is written here, a string, an address and a coin,
//! `serde_json_wasm` has no failing case: it writes a string by
//! `serialize_str`, which always answers `Ok`, an address as the string it
//! wraps, and a coin as a struct of two strings. Setting the bytes in the
//! host's storage returns nothing that could fail.

use vstd::prelude::*;
use crate::msg::Coin;

verus! {

/// The namespace under which the entries are stored.
pub const STORE: &'static str = "store";

/// The key under which the creation fee is stored.
pub const STORAGE_FEE: &'static str = "sorage_fee";

/// The key under which the owner is stored.
pub const OWNER: &'static str = "owner";

/// The host's own error, carried through unread.
#[verifier::external_type_specification]
#[verifier::external_body]
pub struct ExStdError(cosmwasm_std::StdError);

/// A handle on the host's storage for the length of one call. What it holds
/// is known only through [`ledger_entries`], [`ledger_fee`] and
/// [`ledger_owner`].
#[verifier::external_body]
pub struct Ledger<'a> {
    storage: &'a mut dyn cosmwasm_std::Storage,
}

/// The entries: each key under which the storage holds anything, with the
/// value that is read there, or `None` where what it holds cannot be read as
/// a value.
pub uninterp spec fn ledger_entries(ledger: Ledger<'_>) -> Map<Seq<char>, Option<Seq<char>>>;

/// The stored fee as denomination and amount, `None` where none can be read.
pub uninterp spec fn ledger_fee(ledger: Ledger<'_>) -> Option<(Seq<char>, u128)>;

/// The stored owner, `None` where none can be read.
pub uninterp spec fn ledger_owner(ledger: Ledger<'_>) -> Option<Seq<char>>;

/// What a ledger holds, as one value.
pub struct LedgerView {
    pub entries: Map<Seq<char>, Option<Seq<char>>>,
    pub fee: Option<(Seq<char>, u128)>,
    pub owner: Option<Seq<char>>,
}

impl<'a> View for Ledger<'a> {
    type V = LedgerView;

    open spec fn view(&self) -> LedgerView {
        LedgerView {
            entries: ledger_entries(*self),
            fee: ledger_fee(*self),
            owner: ledger_owner(*self),
        }
    }
}

impl LedgerView {
    /// The value stored under `key`, if one is.
    pub open spec fn lookup(self, key: Seq<char>) -> Option<Seq<char>> {
        if self.entries.contains_key(key) {
            self.entries[key]
        } else {
            None
        }
    }

    /// Whether `key` can be looked up: it is absent, or what is stored under
    /// it reads as a value.
    pub open spec fn readable(self, key: Seq<char>) -> bool {
        self.entries.contains_key(key) ==> self.entries[key] is Some
    }

    /// Whether every key can be looked up. The handlers keep it so.
    pub open spec fn sound(self) -> bool {
        forall|key: Seq<char>| self.readable(key)
    }

    /// This ledger with `value` stored under `key`, replacing what was there.
    pub open spec fn put(self, key: Seq<char>, value: Seq<char>) -> LedgerView {
        LedgerView { entries: self.entries.insert(key, Some(value)), ..self }
    }

    /// This ledger with nothing stored under `key`.
    pub open spec fn without(self, key: Seq<char>) -> LedgerView {
        LedgerView { entries: self.entries.remove(key), ..self }
    }

    /// This ledger with the fee and the owner set, the entries as they were.
    pub open spec fn configured(self, fee: (Seq<char>, u128), owner: Seq<char>) -> LedgerView {
        LedgerView { entries: self.entries, fee: Some(fee), owner: Some(owner) }
    }
}

impl<'a> Ledger<'a> {
    /// Trusted: takes hold of the host's storage. Nothing is claimed of what
    /// it holds at that moment.
    #[verifier::external_body]
    pub fn new<S: cosmwasm_std::Storage>(storage: &'a mut S) -> (ledger: Ledger<'a>) {
        Ledger { storage }
    }
}

/// Trusted: `cw_storage_plus::Item::<Coin>::load` on the key `sorage_fee`.
/// It succeeds exactly where a fee can be read, and then returns that fee.
#[verifier::external_body]
pub(crate) fn load_fee(ledger: &Ledger<'_>) -> (r: Result<Coin, cosmwasm_std::StdError>)
    ensures
        r is Ok <==> ledger_fee(*ledger) is Some,
        r matches Ok(fee) ==> ledger_fee(*ledger) == Some((fee.denom@, fee.amount)),
{
    let item = cw_storage_plus::Item::<cosmwasm_std::Coin>::new(STORAGE_FEE);
    match item.load(&*ledger.storage) {
        Ok(coin) => Ok(Coin { denom: coin.denom, amount: coin.amount.u128() }),
        Err(e) => Err(e),
    }
}

/// Trusted: `cw_storage_plus::Item::<Coin>::save` on the key `sorage_fee`.
/// It always succeeds, a coin having no form that cannot be written (see the
/// head of this file). The fee then reads back as given; entries and owner
/// are untouched.
#[verifier::external_body]
pub(crate) fn save_fee(ledger: &mut Ledger<'_>, fee: &Coin) -> (r: Result<(), cosmwasm_std::StdError>)
    ensures
        r is Ok,
        ledger_fee(*final(ledger)) == Some((fee.denom@, fee.amount)),
        ledger_entries(*final(ledger)) == ledger_entries(*old(ledger)),
        ledger_owner(*final(ledger)) == ledger_owner(*old(ledger)),
{
    let item = cw_storage_plus::Item::<cosmwasm_std::Coin>::new(STORAGE_FEE);
    item.save(&mut *ledger.storage, &cosmwasm_std::Coin::new(fee.amount, fee.denom.clone()))
}

/// Trusted: `cw_storage_plus::Item::<Addr>::load` on the key `owner`.
/// It succeeds exactly where an owner can be read, and then returns that owner.
#[verifier::external_body]
pub(crate) fn load_owner(ledger: &Ledger<'_>) -> (r: Result<String, cosmwasm_std::StdError>)
    ensures
        r is Ok <==> ledger_owner(*ledger) is Some,
        r matches Ok(owner) ==> ledger_owner(*ledger) == Some(owner@),
{
    let item = cw_storage_plus::Item::<cosmwasm_std::Addr>::new(OWNER);
    match item.load(&*ledger.storage) {
        Ok(addr) => Ok(addr.into_string()),
        Err(e) => Err(e),
    }
}

/// Trusted: `cw_storage_plus::Item::<Addr>::save` on the key `owner`.
/// It always succeeds, an address being written as the string it wraps (see
/// the head of this file). The owner then reads back as given; entries and
/// fee are untouched.
#[verifier::external_body]
pub(crate) fn save_owner(ledger: &mut Ledger<'_>, owner: &String) -> (r: Result<(), cosmwasm_std::StdError>)
    ensures
        r is Ok,
        ledger_owner(*final(ledger)) == Some(owner@),
        ledger_entries(*final(ledger)) == ledger_entries(*old(ledger)),
        ledger_fee(*final(ledger)) == ledger_fee(*old(ledger)),
{
    let item = cw_storage_plus::Item::<cosmwasm_std::Addr>::new(OWNER);
    item.save(&mut *ledger.storage, &cosmwasm_std::Addr::unchecked(owner.clone()))
}

/// Trusted: `cw_storage_plus::Map::<String, String>::may_load` on the
/// namespace `store`. Where nothing is stored under the key it returns
/// `Ok(None)`; where what is stored reads as a value, that value; and it
/// fails exactly where what is stored cannot be read.
#[verifier::external_body]
pub(crate) fn store_may_load(ledger: &Ledger<'_>, key: &String) -> (r: Result<
    Option<String>,
    cosmwasm_std::StdError,
>)
    ensures
        r matches Ok(None) <==> !ledger_entries(*ledger).contains_key(key@),
        r matches Ok(Some(value)) ==> ledger_entries(*ledger).contains_key(key@)
            && ledger_entries(*ledger)[key@] == Some(value@),
        r is Err ==> ledger_entries(*ledger).contains_key(key@) && ledger_entries(*ledger)[key@]
            is None,
{
    cw_storage_plus::Map::<String, String>::new(STORE).may_load(&*ledger.storage, key.clone())
}

/// Trusted: `cw_storage_plus::Map::<String, String>::save` on the namespace
/// `store`. It always succeeds, a string having no form that cannot be
/// written (see the head of this file). The value then reads back under the
/// key and every other entry is as before; fee and owner are untouched.
#[verifier::external_body]
pub(crate) fn store_save(ledger: &mut Ledger<'_>, key: &String, value: &String) -> (r: Result<
    (),
    cosmwasm_std::StdError,
>)
    ensures
        r is Ok,
        ledger_entries(*final(ledger)) == ledger_entries(*old(ledger)).insert(key@, Some(value@)),
        ledger_fee(*final(ledger)) == ledger_fee(*old(ledger)),
        ledger_owner(*final(ledger)) == ledger_owner(*old(ledger)),
{
    cw_storage_plus::Map::<String, String>::new(STORE).save(
        &mut *ledger.storage,
        key.clone(),
        value,
    )
}

/// The action of an update: whatever was stored, what is stored next is
/// `value`.
pub fn overwrite(_stored: Option<String>, value: &String) -> (r: Result<
    String,
    cosmwasm_std::StdError,
>)
    ensures
        r matches Ok(next) && next@ == value@,
{
    Ok(value.clone())
}

/// Trusted: `cw_storage_plus::Map::<String, String>::update` on the namespace
/// `store`, with [`overwrite`] as its action. It reads, applies the action
/// and writes. The read fails exactly where what is stored under the key
/// cannot be read; the action never fails, and neither does the write (see
/// the head of this file). So it succeeds exactly where the key is absent or
/// its value can be read. It then returns `value`, which reads back under
/// the key, every other entry being as before; where it fails nothing was
/// written. Fee and owner are untouched either way.
#[verifier::external_body]
pub(crate) fn store_update(ledger: &mut Ledger<'_>, key: &String, value: &String) -> (r: Result<
    String,
    cosmwasm_std::StdError,
>)
    ensures
        ledger_fee(*final(ledger)) == ledger_fee(*old(ledger)),
        ledger_owner(*final(ledger)) == ledger_owner(*old(ledger)),
        r is Err <==> ledger_entries(*old(ledger)).contains_key(key@) && ledger_entries(
            *old(ledger),
        )[key@] is None,
        r matches Ok(stored) ==> stored@ == value@ && ledger_entries(*final(ledger))
            == ledger_entries(*old(ledger)).insert(key@, Some(value@)),
        r is Err ==> ledger_entries(*final(ledger)) == ledger_entries(*old(ledger)),
{
    cw_storage_plus::Map::<String, String>::new(STORE).update(
        &mut *ledger.storage,
        key.clone(),
        |stored| overwrite(stored, value),
    )
}

/// Trusted: `cw_storage_plus::Map::<String, String>::remove` on the namespace
/// `store`. Afterwards nothing is stored under the key; every other entry,
/// the fee and the owner are as before.
#[verifier::external_body]
pub(crate) fn store_remove(ledger: &mut Ledger<'_>, key: &String)
    ensures
        ledger_entries(*final(ledger)) == ledger_entries(*old(ledger)).remove(key@),
        ledger_fee(*final(ledger)) == ledger_fee(*old(ledger)),
        ledger_owner(*final(ledger)) == ledger_owner(*old(ledger)),
{
    cw_storage_plus::Map::<String, String>::new(STORE).remove(&mut *ledger.storage, key.clone())
}

} // verus!
