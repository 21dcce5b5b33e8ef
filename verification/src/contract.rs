//! The entry points: instantiate, execute and query.
//!
//! Each of them reads and writes the host's storage through the calls of
//! [`crate::host`], and is proved to move the stored [`Instance`] as the
//! functions of [`crate::state`] say.

use vstd::prelude::*;
use vstd::string::StringSliceAdditionalSpecFns;

use crate::error::ContractError;
use crate::host::{
    advance_i32, host_entries, key_bytes, load_addr, load_i32, rewritten_at, save_addr, save_i32,
    shared_entries, validate_address, Host, HostRef,
};
use crate::msg::{CountResponse, ExecuteMsg, OwnerResponse, QueryMsg, QueryResponse};
use crate::state::{
    answer, apply, counter_key, fresh, increment, install, instance_of, keys_differ, others_kept,
    owner_key, permits, reset, rewrite_keeps_others, transfer, Step,
};

verus! {

/// The name under which the counter is stored.
pub const COUNTER_KEY: &'static str = "counter";

/// The name under which the owner is stored.
pub const OWNER_KEY: &'static str = "owner";

/// A call that returned `result` took the storage from `before` to `after` as
/// `step` says: it returned the step's result and left the step's instance;
/// it kept every entry but the two slots; and where it failed it kept the
/// two slots as well.
pub open spec fn follows(
    before: Map<Seq<u8>, Seq<u8>>,
    after: Map<Seq<u8>, Seq<u8>>,
    result: Result<(), ContractError>,
    step: Step,
) -> bool {
    &&& result == step.result
    &&& instance_of(after) == step.after
    &&& others_kept(before, after)
    &&& result is Err ==> after == before
}

/// The slot that `msg` writes where it succeeds.
pub open spec fn slot_written(msg: ExecuteMsg) -> Seq<char> {
    match msg {
        ExecuteMsg::Increment {  } => counter_key(),
        ExecuteMsg::Reset { .. } => counter_key(),
        ExecuteMsg::TransferOwnership { .. } => owner_key(),
    }
}

/// The text of the address that the host accepted, if it accepted one.
pub open spec fn accepted_text(validated: Option<String>) -> Option<Seq<char>> {
    match validated {
        Some(address) => Some(address@),
        None => None,
    }
}

/// Decides whether `caller` may do what only `owner` may: exactly if the two
/// are the same, byte for byte.
pub fn authorize(caller: &str, owner: &str) -> (permit: bool)
    ensures
        permit == permits(caller@, owner@),
{
    let left = caller.as_bytes();
    let right = owner.as_bytes();
    proof {
        // Texts with the same bytes are the same text.
        vstd::utf8::encode_utf8_decode_utf8(caller@);
        vstd::utf8::encode_utf8_decode_utf8(owner@);
    }
    if left.len() != right.len() {
        return false;
    }
    let mut at: usize = 0;
    while at < left.len()
        invariant
            at <= left.len(),
            left.len() == right.len(),
            left@ == caller.spec_bytes(),
            right@ == owner.spec_bytes(),
            forall|i: int| 0 <= i < at ==> left@[i] == right@[i],
        decreases left.len() - at,
    {
        if left[at] != right[at] {
            return false;
        }
        at += 1;
    }
    assert(left@ =~= right@);
    true
}

/// Sets a new instance up: the counter at zero, and `sender` as the owner.
///
/// Always succeeds, whatever the storage held before.
pub fn instantiate(host: &mut Host, sender: &str) -> (result: Result<(), ContractError>)
    ensures
        result is Ok,
        instance_of(host_entries(*final(host))) == fresh(sender@),
        others_kept(host_entries(*old(host)), host_entries(*final(host))),
{
    let ghost before = host_entries(*host);
    match save_i32(host, COUNTER_KEY, 0) {
        Ok(()) => {},
        Err(error) => {
            return Err(error);
        },
    }
    let ghost between = host_entries(*host);
    match save_addr(host, OWNER_KEY, sender) {
        Ok(()) => {},
        Err(error) => {
            return Err(error);
        },
    }
    proof {
        keys_differ();
        rewrite_keeps_others(before, between, counter_key());
        rewrite_keeps_others(between, host_entries(*host), owner_key());
    }
    Ok(())
}

/// Carries out `msg` for `sender`.
///
/// `Increment` and `Reset` do exactly what [`apply`] says. For
/// `TransferOwnership` by the owner the host decides whether the proposed
/// owner is an address, and the call does what [`apply`] says for the host's
/// verdict; [`install_owner`] says what is done for each verdict.
pub fn execute(host: &mut Host, sender: &str, msg: ExecuteMsg) -> (result: Result<
    (),
    ContractError,
>)
    ensures
        follows(
            host_entries(*old(host)),
            host_entries(*final(host)),
            result,
            apply(instance_of(host_entries(*old(host))), sender@, msg, true),
        ) || follows(
            host_entries(*old(host)),
            host_entries(*final(host)),
            result,
            apply(instance_of(host_entries(*old(host))), sender@, msg, false),
        ),
        result is Ok ==> rewritten_at(
            host_entries(*old(host)),
            host_entries(*final(host)),
            key_bytes(slot_written(msg)),
        ),
{
    match msg {
        ExecuteMsg::Increment {  } => try_increment(host),
        ExecuteMsg::Reset { count } => try_reset(host, sender, count),
        ExecuteMsg::TransferOwnership { new_owner } => try_transfer_ownership(
            host,
            sender,
            new_owner,
        ),
    }
}

/// Adds one to the counter, for any caller.
///
/// Succeeds exactly if the counter can be read. From the largest `i32` the
/// counter goes round to the smallest.
pub fn try_increment(host: &mut Host) -> (result: Result<(), ContractError>)
    ensures
        follows(
            host_entries(*old(host)),
            host_entries(*final(host)),
            result,
            increment(instance_of(host_entries(*old(host)))),
        ),
        result is Ok ==> rewritten_at(
            host_entries(*old(host)),
            host_entries(*final(host)),
            key_bytes(counter_key()),
        ),
{
    let ghost before = host_entries(*host);
    match advance_i32(host, COUNTER_KEY) {
        Ok(_) => {
            proof {
                keys_differ();
                rewrite_keeps_others(before, host_entries(*host), counter_key());
            }
            Ok(())
        },
        Err(error) => Err(error),
    }
}

/// Sets the counter to `count`, if `sender` is the owner.
pub fn try_reset(host: &mut Host, sender: &str, count: i32) -> (result: Result<(), ContractError>)
    ensures
        follows(
            host_entries(*old(host)),
            host_entries(*final(host)),
            result,
            reset(instance_of(host_entries(*old(host))), sender@, count),
        ),
        result is Ok ==> rewritten_at(
            host_entries(*old(host)),
            host_entries(*final(host)),
            key_bytes(counter_key()),
        ),
{
    let ghost before = host_entries(*host);
    let owner = match load_addr(&host.shared(), OWNER_KEY) {
        Ok(owner) => owner,
        Err(error) => {
            return Err(error);
        },
    };
    if !authorize(sender, owner.as_str()) {
        return Err(ContractError::Unauthorized);
    }
    match save_i32(host, COUNTER_KEY, count) {
        Ok(()) => {
            proof {
                keys_differ();
                rewrite_keeps_others(before, host_entries(*host), counter_key());
            }
            Ok(())
        },
        Err(error) => Err(error),
    }
}

/// Hands the ownership to `new_owner`, if `sender` is the owner and the host
/// accepts `new_owner` as an address.
///
/// The owner is checked first: a caller who is not the owner is refused
/// whatever was proposed. For the owner the host decides, and either outcome
/// of [`transfer`] may come back: the new owner installed, or
/// `InvalidAddress` with nothing changed.
pub fn try_transfer_ownership(host: &mut Host, sender: &str, new_owner: String) -> (result: Result<
    (),
    ContractError,
>)
    ensures
        follows(
            host_entries(*old(host)),
            host_entries(*final(host)),
            result,
            transfer(instance_of(host_entries(*old(host))), sender@, Some(new_owner@)),
        ) || follows(
            host_entries(*old(host)),
            host_entries(*final(host)),
            result,
            transfer(instance_of(host_entries(*old(host))), sender@, None),
        ),
        result is Ok ==> rewritten_at(
            host_entries(*old(host)),
            host_entries(*final(host)),
            key_bytes(owner_key()),
        ),
{
    let owner = match load_addr(&host.shared(), OWNER_KEY) {
        Ok(owner) => owner,
        Err(error) => {
            return Err(error);
        },
    };
    if !authorize(sender, owner.as_str()) {
        return Err(ContractError::Unauthorized);
    }
    let validated = validate_address(host, new_owner.as_str());
    install_owner(host, validated)
}

/// Ends a transfer with the host's verdict on the proposed owner: installs
/// the address that the host accepted, or fails with `InvalidAddress` where
/// it accepted none.
///
/// The caller has checked that the sender is the owner.
pub fn install_owner(host: &mut Host, validated: Option<String>) -> (result: Result<
    (),
    ContractError,
>)
    ensures
        follows(
            host_entries(*old(host)),
            host_entries(*final(host)),
            result,
            install(instance_of(host_entries(*old(host))), accepted_text(validated)),
        ),
        result is Ok ==> rewritten_at(
            host_entries(*old(host)),
            host_entries(*final(host)),
            key_bytes(owner_key()),
        ),
{
    let ghost before = host_entries(*host);
    match validated {
        None => Err(ContractError::InvalidAddress),
        Some(address) => match save_addr(host, OWNER_KEY, address.as_str()) {
            Ok(()) => {
                proof {
                    keys_differ();
                    rewrite_keeps_others(before, host_entries(*host), owner_key());
                }
                Ok(())
            },
            Err(error) => Err(error),
        },
    }
}

/// Answers `msg` from what the storage holds, and changes nothing.
pub fn query(host: &HostRef, msg: QueryMsg) -> (result: Result<QueryResponse, ContractError>)
    ensures
        match answer(instance_of(shared_entries(*host)), msg) {
            Ok(expected) => result matches Ok(response) && response@ == expected,
            Err(error) => result == Err::<QueryResponse, ContractError>(error),
        },
{
    match msg {
        QueryMsg::GetCount {  } => match load_i32(host, COUNTER_KEY) {
            Ok(count) => Ok(QueryResponse::Count(CountResponse { count })),
            Err(error) => Err(error),
        },
        QueryMsg::GetOwner {  } => match load_addr(host, OWNER_KEY) {
            Ok(owner) => Ok(QueryResponse::Owner(OwnerResponse { owner })),
            Err(error) => Err(error),
        },
    }
}

} // verus!
