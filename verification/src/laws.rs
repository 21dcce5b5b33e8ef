//! What holds of sequences of calls, stated over the functions of
//! [`crate::state`] that the contracts of the entry points use.
//!
//! [`crate::contract::instantiate`] leaves [`fresh`]; each execute message
//! takes the instance through [`apply`]; a query returns [`answer`]. So a law
//! that is proved here of these functions holds of every run of the entry
//! points.

use vstd::prelude::*;

use crate::error::ContractError;
use crate::host::Slot;
use crate::msg::{Answer, ExecuteMsg, QueryMsg};
use crate::state::{
    answer, apply, fresh, increment, increments, install, reset, transfer, Instance,
};

verus! {

/// A new instance answers with a counter of zero and with the caller who
/// instantiated it as the owner.
pub proof fn fresh_instance_answers(sender: Seq<char>)
    ensures
        answer(fresh(sender), QueryMsg::GetCount {  }) == Ok::<Answer, ContractError>(
            Answer::Count(0),
        ),
        answer(fresh(sender), QueryMsg::GetOwner {  }) == Ok::<Answer, ContractError>(
            Answer::Owner(sender),
        ),
{
}

/// After `n` increments in a row a new instance answers with a counter of
/// `n`, and its owner is who it was. This holds as long as `n` is an `i32`:
/// one increment more takes the counter round to the smallest `i32`.
pub proof fn increments_count(sender: Seq<char>, n: nat)
    requires
        n <= i32::MAX,
    ensures
        increments(fresh(sender), n) == (Instance {
            count: Slot::Holds(n as i32),
            owner: Slot::Holds(sender),
        }),
        answer(increments(fresh(sender), n), QueryMsg::GetCount {  }) == Ok::<
            Answer,
            ContractError,
        >(Answer::Count(n as i32)),
        n > 0 ==> increment(increments(fresh(sender), (n - 1) as nat)).result is Ok,
    decreases n,
{
    if n > 0 {
        increments_count(sender, (n - 1) as nat);
    }
}

/// An increment succeeds for every sender once the counter can be read, and
/// never touches the owner.
pub proof fn increment_is_open_to_all(state: Instance, sender: Seq<char>, accepted: bool)
    requires
        state.count is Holds,
    ensures
        apply(state, sender, ExecuteMsg::Increment {  }, accepted).result is Ok,
        apply(state, sender, ExecuteMsg::Increment {  }, accepted).after.owner == state.owner,
{
}

/// A reset by the owner succeeds, and the instance then answers with exactly
/// the count that was asked for, be it negative, zero or positive.
pub proof fn reset_by_owner_sets_count(state: Instance, owner: Seq<char>, count: i32)
    requires
        state.owner == Slot::Holds(owner),
    ensures
        reset(state, owner, count).result is Ok,
        answer(reset(state, owner, count).after, QueryMsg::GetCount {  }) == Ok::<
            Answer,
            ContractError,
        >(Answer::Count(count)),
        reset(state, owner, count).after.owner == state.owner,
{
}

/// A reset by anyone but the owner fails with `Unauthorized`, and the
/// instance answers every query as it did before.
pub proof fn reset_by_other_is_refused(
    state: Instance,
    owner: Seq<char>,
    sender: Seq<char>,
    count: i32,
    msg: QueryMsg,
)
    requires
        state.owner == Slot::Holds(owner),
        sender != owner,
    ensures
        reset(state, sender, count).result == Err::<(), ContractError>(
            ContractError::Unauthorized,
        ),
        reset(state, sender, count).after == state,
        answer(reset(state, sender, count).after, msg) == answer(state, msg),
{
}

/// A transfer by the owner to an address that the host accepts succeeds, and
/// the instance then answers with that address as the owner; the counter is
/// what it was.
pub proof fn transfer_by_owner_changes_owner(
    state: Instance,
    owner: Seq<char>,
    new_owner: Seq<char>,
)
    requires
        state.owner == Slot::Holds(owner),
    ensures
        transfer(state, owner, Some(new_owner)).result is Ok,
        answer(transfer(state, owner, Some(new_owner)).after, QueryMsg::GetOwner {  }) == Ok::<
            Answer,
            ContractError,
        >(Answer::Owner(new_owner)),
        transfer(state, owner, Some(new_owner)).after.count == state.count,
{
}

/// Once the ownership has gone to another address, the previous owner is
/// refused with `Unauthorized` for a reset and for a transfer alike, whatever
/// the host says of the address proposed.
///
/// A transfer to oneself is left out: the owner then stays the owner.
pub proof fn previous_owner_is_locked_out(
    state: Instance,
    owner: Seq<char>,
    new_owner: Seq<char>,
    count: i32,
    validated: Option<Seq<char>>,
)
    requires
        state.owner == Slot::Holds(owner),
        new_owner != owner,
    ensures
        reset(transfer(state, owner, Some(new_owner)).after, owner, count).result == Err::<
            (),
            ContractError,
        >(ContractError::Unauthorized),
        transfer(transfer(state, owner, Some(new_owner)).after, owner, validated).result == Err::<
            (),
            ContractError,
        >(ContractError::Unauthorized),
{
}

/// A transfer to what the host does not accept as an address fails and
/// leaves the instance as it was, so that the owner is answered as before.
/// Sent by the owner it fails with `InvalidAddress`.
///
/// Sent by another it fails as well, but with `Unauthorized`: the sender is
/// checked before the address.
pub proof fn transfer_to_invalid_address_is_refused(
    state: Instance,
    owner: Seq<char>,
    sender: Seq<char>,
)
    requires
        state.owner == Slot::Holds(owner),
    ensures
        transfer(state, sender, None).result is Err,
        transfer(state, sender, None).after == state,
        answer(transfer(state, sender, None).after, QueryMsg::GetOwner {  }) == answer(
            state,
            QueryMsg::GetOwner {  },
        ),
        sender == owner ==> transfer(state, sender, None).result == Err::<(), ContractError>(
            ContractError::InvalidAddress,
        ),
        sender != owner ==> transfer(state, sender, None).result == Err::<(), ContractError>(
            ContractError::Unauthorized,
        ),
{
}

/// A message that fails changes nothing.
pub proof fn failure_changes_nothing(
    state: Instance,
    sender: Seq<char>,
    msg: ExecuteMsg,
    accepted: bool,
)
    ensures
        apply(state, sender, msg, accepted).result is Err ==> apply(
            state,
            sender,
            msg,
            accepted,
        ).after == state,
{
}

/// The counter changes only by an increment or a reset that succeeds, and the
/// owner only by a transfer that succeeds.
pub proof fn slots_change_only_by_their_messages(
    state: Instance,
    sender: Seq<char>,
    msg: ExecuteMsg,
    accepted: bool,
)
    ensures
        apply(state, sender, msg, accepted).after.count != state.count ==> apply(
            state,
            sender,
            msg,
            accepted,
        ).result is Ok && (msg is Increment || msg is Reset),
        apply(state, sender, msg, accepted).after.owner != state.owner ==> apply(
            state,
            sender,
            msg,
            accepted,
        ).result is Ok && msg is TransferOwnership,
{
}

/// Once both slots hold a value they hold one for good: no message empties a
/// slot or makes it unreadable.
pub proof fn instance_stays_readable(
    state: Instance,
    sender: Seq<char>,
    msg: ExecuteMsg,
    accepted: bool,
)
    requires
        state.count is Holds,
        state.owner is Holds,
    ensures
        apply(state, sender, msg, accepted).after.count is Holds,
        apply(state, sender, msg, accepted).after.owner is Holds,
{
}

/// Only the owner changes the owner or sets the counter: a reset or a
/// transfer that succeeds was sent by the owner.
pub proof fn owner_only(state: Instance, sender: Seq<char>, msg: ExecuteMsg, accepted: bool)
    requires
        msg is Reset || msg is TransferOwnership,
        apply(state, sender, msg, accepted).result is Ok,
    ensures
        state.owner == Slot::Holds(sender),
{
}

/// The end of a transfer installs exactly the address that the host made of
/// the proposal, and fails exactly where the host made none.
pub proof fn install_follows_the_verdict(state: Instance, validated: Option<Seq<char>>)
    ensures
        install(state, validated).result is Ok <==> validated is Some,
        validated matches Some(address) ==> install(state, validated).after.owner == Slot::Holds(
            address,
        ),
        validated is None ==> install(state, validated).after == state,
{
}

} // verus!
