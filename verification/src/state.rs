//! The state of one instance and how each message changes it.
//!
//! An [`Instance`] is what the contract reads in its two storage slots. Each
//! operation is a function from the instance before a call to a [`Step`]: the
//! result of the call and the instance after it.

use vstd::prelude::*;

use crate::error::ContractError;
use crate::host::{addr_slot, i32_slot, key_bytes, rewritten_at, Slot};
use crate::msg::{Answer, ExecuteMsg, QueryMsg};

verus! {

/// The name of the counter's slot.
pub open spec fn counter_key() -> Seq<char> {
    "counter"@
}

/// The name of the owner's slot.
pub open spec fn owner_key() -> Seq<char> {
    "owner"@
}

/// What the two slots hold.
pub struct Instance {
    pub count: Slot<i32>,
    pub owner: Slot<Seq<char>>,
}

/// The result of a call, and the instance that it leaves behind.
pub struct Step {
    pub result: Result<(), ContractError>,
    pub after: Instance,
}

/// The instance that a storage with these entries holds.
pub open spec fn instance_of(entries: Map<Seq<u8>, Seq<u8>>) -> Instance {
    Instance { count: i32_slot(entries, counter_key()), owner: addr_slot(entries, owner_key()) }
}

/// Every entry of `before` but the two slots is in `after` as it was.
pub open spec fn others_kept(before: Map<Seq<u8>, Seq<u8>>, after: Map<Seq<u8>, Seq<u8>>) -> bool {
    after.remove(key_bytes(counter_key())).remove(key_bytes(owner_key())) == before.remove(
        key_bytes(counter_key()),
    ).remove(key_bytes(owner_key()))
}

/// The counter after `count`: one more, and from the largest `i32` round to
/// the smallest.
pub open spec fn successor(count: i32) -> i32 {
    if count == i32::MAX {
        i32::MIN
    } else {
        (count + 1) as i32
    }
}

/// The instance right after instantiation by `sender`.
pub open spec fn fresh(sender: Seq<char>) -> Instance {
    Instance { count: Slot::Holds(0), owner: Slot::Holds(sender) }
}

/// A call that fails with `error` and changes nothing.
pub open spec fn refuse(state: Instance, error: ContractError) -> Step {
    Step { result: Err(error), after: state }
}

/// Whether `caller` may do what only the owner may: yes exactly if the two
/// identities are the same sequence of characters.
pub open spec fn permits(caller: Seq<char>, owner: Seq<char>) -> bool {
    caller == owner
}

/// The check that opens an owner-only operation: the owner must be readable,
/// and must be the sender.
pub open spec fn owner_check(state: Instance, sender: Seq<char>) -> Result<(), ContractError> {
    match state.owner.read() {
        Err(error) => Err(error),
        Ok(owner) => if permits(sender, owner) {
            Ok(())
        } else {
            Err(ContractError::Unauthorized)
        },
    }
}

/// `Increment`: one more, whoever asks, once the counter exists.
pub open spec fn increment(state: Instance) -> Step {
    match state.count.read() {
        Err(error) => refuse(state, error),
        Ok(count) => Step {
            result: Ok(()),
            after: Instance { count: Slot::Holds(successor(count)), owner: state.owner },
        },
    }
}

/// `Reset`: the owner sets the counter to `count`.
pub open spec fn reset(state: Instance, sender: Seq<char>, count: i32) -> Step {
    match owner_check(state, sender) {
        Err(error) => refuse(state, error),
        Ok(_) => Step {
            result: Ok(()),
            after: Instance { count: Slot::Holds(count), owner: state.owner },
        },
    }
}

/// The end of a transfer, once the sender is known to be the owner: the
/// address that the host accepted becomes the owner; where the host accepted
/// none, the call fails.
pub open spec fn install(state: Instance, validated: Option<Seq<char>>) -> Step {
    match validated {
        None => refuse(state, ContractError::InvalidAddress),
        Some(address) => Step {
            result: Ok(()),
            after: Instance { count: state.count, owner: Slot::Holds(address) },
        },
    }
}

/// `TransferOwnership`: the owner hands the ownership to the address that the
/// host made of the proposal. `validated` is the host's verdict.
pub open spec fn transfer(state: Instance, sender: Seq<char>, validated: Option<Seq<char>>) -> Step {
    match owner_check(state, sender) {
        Err(error) => refuse(state, error),
        Ok(_) => install(state, validated),
    }
}

/// The host's verdict on `proposal`: the same text where it is accepted.
pub open spec fn verdict(proposal: Seq<char>, accepted: bool) -> Option<Seq<char>> {
    if accepted {
        Some(proposal)
    } else {
        None
    }
}

/// What `msg` from `sender` does to `state`. `accepted` says whether the host
/// accepts the proposed owner as an address; only a transfer depends on it.
pub open spec fn apply(state: Instance, sender: Seq<char>, msg: ExecuteMsg, accepted: bool) -> Step {
    match msg {
        ExecuteMsg::Increment {  } => increment(state),
        ExecuteMsg::Reset { count } => reset(state, sender, count),
        ExecuteMsg::TransferOwnership { new_owner } => transfer(
            state,
            sender,
            verdict(new_owner@, accepted),
        ),
    }
}

/// The answer that `state` gives to `msg`.
pub open spec fn answer(state: Instance, msg: QueryMsg) -> Result<Answer, ContractError> {
    match msg {
        QueryMsg::GetCount {  } => match state.count.read() {
            Ok(count) => Ok(Answer::Count(count)),
            Err(error) => Err(error),
        },
        QueryMsg::GetOwner {  } => match state.owner.read() {
            Ok(owner) => Ok(Answer::Owner(owner)),
            Err(error) => Err(error),
        },
    }
}

/// The state after `n` increments in a row.
pub open spec fn increments(state: Instance, n: nat) -> Instance
    decreases n,
{
    if n == 0 {
        state
    } else {
        increment(increments(state, (n - 1) as nat)).after
    }
}

/// The two slots are stored under different keys.
pub proof fn keys_differ()
    ensures
        key_bytes(counter_key()) != key_bytes(owner_key()),
{
    reveal_strlit("counter");
    reveal_strlit("owner");
    vstd::utf8::encode_utf8_decode_utf8(counter_key());
    vstd::utf8::encode_utf8_decode_utf8(owner_key());
    assert(counter_key().len() != owner_key().len());
}

/// Rewriting one of the two slots keeps every other entry.
pub proof fn rewrite_keeps_others(
    before: Map<Seq<u8>, Seq<u8>>,
    after: Map<Seq<u8>, Seq<u8>>,
    key: Seq<char>,
)
    requires
        rewritten_at(before, after, key_bytes(key)),
        key == counter_key() || key == owner_key(),
    ensures
        others_kept(before, after),
{
    let counter = key_bytes(counter_key());
    let owner = key_bytes(owner_key());
    assert(after.remove(counter).remove(owner) =~= before.remove(counter).remove(owner));
}

/// Computes the counter after `count`.
pub fn next_count(count: i32) -> (next: i32)
    ensures
        next == successor(count),
{
    count.wrapping_add(1)
}

} // verus!
