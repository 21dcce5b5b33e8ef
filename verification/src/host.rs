//! The boundary with the host: its storage, its address rules, and the calls
//! into `cw_storage_plus` and `cosmwasm_std` that reach them.
//!
//! Nothing in this file is proved. The handles hide trait objects that the
//! verifier cannot look into, and each function marked `external_body` has a
//! contract that restates, over [`host_entries`] and the two decoders, what
//! the source of the called function shows.

use cosmwasm_std::{Addr, Api, StdError, StdResult, Storage};
use cw_storage_plus::Item;
use vstd::prelude::*;

use crate::error::ContractError;
use crate::state::{next_count, successor};

verus! {

/// What the host lends for a call that may write: the storage of this
/// instance and the host's address rules.
///
/// The fields are public so that the caller, who holds the host's trait
/// objects, can build the handle; verified code never reads them.
#[verifier::external_body]
pub struct Host<'a> {
    pub storage: &'a mut dyn Storage,
    pub api: &'a dyn Api,
}

/// What the host lends for a call that only reads: the storage of this
/// instance.
#[verifier::external_body]
pub struct HostRef<'a> {
    pub storage: &'a dyn Storage,
}

/// The entries of the storage behind `host`: for each key that
/// `Storage::get` finds, the bytes that it returns.
pub uninterp spec fn host_entries(host: Host) -> Map<Seq<u8>, Seq<u8>>;

/// The entries of the storage behind `host`, as [`host_entries`] gives them
/// for a [`Host`].
pub uninterp spec fn shared_entries(host: HostRef) -> Map<Seq<u8>, Seq<u8>>;

/// The integer that `cosmwasm_std::from_slice::<i32>` reads from `bytes`, or
/// `None` where it fails.
pub uninterp spec fn i32_from_json(bytes: Seq<u8>) -> Option<i32>;

/// The text of the address that `cosmwasm_std::from_slice::<Addr>` reads from
/// `bytes`, or `None` where it fails.
pub uninterp spec fn addr_from_json(bytes: Seq<u8>) -> Option<Seq<char>>;

/// The bytes under which an item named `key` is stored: the name in UTF-8.
pub open spec fn key_bytes(key: Seq<char>) -> Seq<u8> {
    vstd::utf8::encode_utf8(key)
}

/// `after` has an entry under `key`, and is `before` everywhere else.
pub open spec fn rewritten_at(
    before: Map<Seq<u8>, Seq<u8>>,
    after: Map<Seq<u8>, Seq<u8>>,
    key: Seq<u8>,
) -> bool {
    after.contains_key(key) && after == before.insert(key, after[key])
}

/// What a typed item finds under its key.
pub enum Slot<T> {
    /// Nothing was ever stored under the key.
    Vacant,
    /// The key holds bytes that do not decode to a `T`.
    Unreadable,
    /// The key holds the encoding of this value.
    Holds(T),
}

impl<T> Slot<T> {
    /// What loading the slot returns.
    pub open spec fn read(self) -> Result<T, ContractError> {
        match self {
            Slot::Vacant => Err(ContractError::NotFound),
            Slot::Unreadable => Err(ContractError::StorageFault),
            Slot::Holds(value) => Ok(value),
        }
    }
}

/// The integer item named `key` in `entries`.
pub open spec fn i32_slot(entries: Map<Seq<u8>, Seq<u8>>, key: Seq<char>) -> Slot<i32> {
    if !entries.contains_key(key_bytes(key)) {
        Slot::Vacant
    } else {
        match i32_from_json(entries[key_bytes(key)]) {
            Some(value) => Slot::Holds(value),
            None => Slot::Unreadable,
        }
    }
}

/// The address item named `key` in `entries`.
pub open spec fn addr_slot(entries: Map<Seq<u8>, Seq<u8>>, key: Seq<char>) -> Slot<Seq<char>> {
    if !entries.contains_key(key_bytes(key)) {
        Slot::Vacant
    } else {
        match addr_from_json(entries[key_bytes(key)]) {
            Some(text) => Slot::Holds(text),
            None => Slot::Unreadable,
        }
    }
}

impl<'a> Host<'a> {
    /// Lends the storage on for reading, as `&*storage` does.
    ///
    /// Trusted: the storage behind the result is the one behind `self`, so
    /// both have the same entries.
    #[verifier::external_body]
    pub(crate) fn shared(&self) -> (shared: HostRef<'_>)
        ensures
            shared_entries(shared) == host_entries(*self),
    {
        HostRef { storage: &*self.storage }
    }
}

/// Calls `Item::<i32>::save` of `cw_storage_plus` on the item named `key`.
///
/// Trusted: `save` encodes `value` with `to_vec` and hands the bytes to
/// `Storage::set` under the key's bytes. Encoding an `i32` cannot fail, so the
/// call succeeds; the storage then holds an entry under the key from which
/// `from_slice` reads `value` back, and is unchanged under every other key.
#[verifier::external_body]
pub(crate) fn save_i32(host: &mut Host, key: &str, value: i32) -> (saved: Result<
    (),
    ContractError,
>)
    ensures
        saved is Ok,
        rewritten_at(host_entries(*old(host)), host_entries(*final(host)), key_bytes(key@)),
        i32_from_json(host_entries(*final(host))[key_bytes(key@)]) == Some(value),
{
    match Item::<i32>::new(key).save(host.storage, &value) {
        Ok(()) => Ok(()),
        Err(_) => Err(ContractError::StorageFault),
    }
}

/// Calls `Item::<i32>::load` of `cw_storage_plus` on the item named `key`.
///
/// Trusted: `load` asks `Storage::get` for the key's bytes. Where there is no
/// entry it fails with `StdError::NotFound`; where `from_slice` cannot read
/// the entry it fails with another error; else it returns what `from_slice`
/// read.
#[verifier::external_body]
pub(crate) fn load_i32(host: &HostRef, key: &str) -> (loaded: Result<i32, ContractError>)
    ensures
        loaded == i32_slot(shared_entries(*host), key@).read(),
{
    match Item::<i32>::new(key).load(host.storage) {
        Ok(value) => Ok(value),
        Err(StdError::NotFound { .. }) => Err(ContractError::NotFound),
        Err(_) => Err(ContractError::StorageFault),
    }
}

/// Calls `Item::<i32>::update` of `cw_storage_plus` on the item named `key`,
/// with [`next_count`] as the action.
///
/// Trusted: `update` loads the item, applies the action and saves what it
/// gave. Where the load fails nothing is written and the error is that of
/// `load`. Else the storage holds, under the key, an entry from which
/// `from_slice` reads the new value back, which is also returned, and is
/// unchanged under every other key.
#[verifier::external_body]
pub(crate) fn advance_i32(host: &mut Host, key: &str) -> (advanced: Result<i32, ContractError>)
    ensures
        advanced == match i32_slot(host_entries(*old(host)), key@).read() {
            Ok(value) => Ok(successor(value)),
            Err(error) => Err(error),
        },
        advanced is Err ==> host_entries(*final(host)) == host_entries(*old(host)),
        advanced matches Ok(value) ==> rewritten_at(
            host_entries(*old(host)),
            host_entries(*final(host)),
            key_bytes(key@),
        ) && i32_from_json(host_entries(*final(host))[key_bytes(key@)]) == Some(value),
{
    let action = |count: i32| -> StdResult<i32> { Ok(next_count(count)) };
    match Item::<i32>::new(key).update(host.storage, action) {
        Ok(value) => Ok(value),
        Err(StdError::NotFound { .. }) => Err(ContractError::NotFound),
        Err(_) => Err(ContractError::StorageFault),
    }
}

/// Calls `Item::<Addr>::save` of `cw_storage_plus` on the item named `key`,
/// with the address whose text is `address`.
///
/// Trusted: `save` encodes the address with `to_vec` and hands the bytes to
/// `Storage::set` under the key's bytes. Encoding a string cannot fail, so the
/// call succeeds; the storage then holds an entry under the key from which
/// `from_slice` reads an address of the same text back, and is unchanged
/// under every other key.
#[verifier::external_body]
pub(crate) fn save_addr(host: &mut Host, key: &str, address: &str) -> (saved: Result<
    (),
    ContractError,
>)
    ensures
        saved is Ok,
        rewritten_at(host_entries(*old(host)), host_entries(*final(host)), key_bytes(key@)),
        addr_from_json(host_entries(*final(host))[key_bytes(key@)]) == Some(address@),
{
    match Item::<Addr>::new(key).save(host.storage, &Addr::unchecked(address)) {
        Ok(()) => Ok(()),
        Err(_) => Err(ContractError::StorageFault),
    }
}

/// Calls `Item::<Addr>::load` of `cw_storage_plus` on the item named `key`,
/// and returns the text of the address.
///
/// Trusted: as for [`load_i32`], with `from_slice` reading an address.
#[verifier::external_body]
pub(crate) fn load_addr(host: &HostRef, key: &str) -> (loaded: Result<String, ContractError>)
    ensures
        match addr_slot(shared_entries(*host), key@).read() {
            Ok(text) => loaded matches Ok(address) && address@ == text,
            Err(error) => loaded == Err::<String, ContractError>(error),
        },
{
    match Item::<Addr>::new(key).load(host.storage) {
        Ok(address) => Ok(address.into_string()),
        Err(StdError::NotFound { .. }) => Err(ContractError::NotFound),
        Err(_) => Err(ContractError::StorageFault),
    }
}

/// Calls `Api::addr_validate` of `cosmwasm_std` on `input`, and returns the
/// text of the address where the host accepts it.
///
/// Trusted: an accepted address holds the same text as `input`. Which inputs
/// a host accepts is the host's affair, and nothing is claimed of it.
#[verifier::external_body]
pub(crate) fn validate_address(host: &Host, input: &str) -> (validated: Option<String>)
    ensures
        validated matches Some(address) ==> address@ == input@,
{
    match host.api.addr_validate(input) {
        Ok(address) => Some(address.into_string()),
        Err(_) => None,
    }
}

} // verus!
