//! Whole runs of an instance against the mock host of `cosmwasm_std`.

use cosmwasm_std::testing::{MockApi, MockStorage};
use counter::{
    execute, instantiate, query, ContractError, CountResponse, ExecuteMsg, Host, HostRef,
    OwnerResponse, QueryMsg, QueryResponse,
};

fn count_in(storage: &MockStorage) -> Result<QueryResponse, ContractError> {
    query(&HostRef { storage }, QueryMsg::GetCount {})
}

fn owner_in(storage: &MockStorage) -> Result<QueryResponse, ContractError> {
    query(&HostRef { storage }, QueryMsg::GetOwner {})
}

fn count_is(count: i32) -> Result<QueryResponse, ContractError> {
    Ok(QueryResponse::Count(CountResponse { count }))
}

fn owner_is(owner: &str) -> Result<QueryResponse, ContractError> {
    Ok(QueryResponse::Owner(OwnerResponse { owner: owner.to_string() }))
}

fn send(storage: &mut MockStorage, sender: &str, msg: ExecuteMsg) -> Result<(), ContractError> {
    let api = MockApi::default();
    execute(&mut Host { storage, api: &api }, sender, msg)
}

fn start(storage: &mut MockStorage, sender: &str) {
    let api = MockApi::default();
    assert_eq!(instantiate(&mut Host { storage, api: &api }, sender), Ok(()));
}

#[test]
fn alice_and_bob_share_a_counter() {
    let mut storage = MockStorage::new();
    start(&mut storage, "alice");
    assert_eq!(count_in(&storage), count_is(0));
    assert_eq!(owner_in(&storage), owner_is("alice"));

    assert_eq!(send(&mut storage, "alice", ExecuteMsg::Increment {}), Ok(()));
    assert_eq!(count_in(&storage), count_is(1));

    assert_eq!(send(&mut storage, "bob", ExecuteMsg::Increment {}), Ok(()));
    assert_eq!(count_in(&storage), count_is(2));

    assert_eq!(
        send(&mut storage, "bob", ExecuteMsg::Reset { count: 10 }),
        Err(ContractError::Unauthorized)
    );
    assert_eq!(count_in(&storage), count_is(2));

    assert_eq!(send(&mut storage, "alice", ExecuteMsg::Reset { count: 10 }), Ok(()));
    assert_eq!(count_in(&storage), count_is(10));

    assert_eq!(
        send(
            &mut storage,
            "alice",
            ExecuteMsg::TransferOwnership { new_owner: "bob".to_string() }
        ),
        Ok(())
    );
    assert_eq!(owner_in(&storage), owner_is("bob"));

    assert_eq!(
        send(&mut storage, "alice", ExecuteMsg::Reset { count: 0 }),
        Err(ContractError::Unauthorized)
    );
    assert_eq!(count_in(&storage), count_is(10));
}

#[test]
fn new_instance_has_zero_and_its_creator() {
    let mut storage = MockStorage::new();
    start(&mut storage, "carol");
    assert_eq!(count_in(&storage), count_is(0));
    assert_eq!(owner_in(&storage), owner_is("carol"));
}

#[test]
fn n_increments_count_to_n() {
    let mut storage = MockStorage::new();
    start(&mut storage, "alice");
    let senders = ["alice", "bob", "carol"];
    for n in 1..=25 {
        let sender = senders[(n as usize) % senders.len()];
        assert_eq!(send(&mut storage, sender, ExecuteMsg::Increment {}), Ok(()));
        assert_eq!(count_in(&storage), count_is(n));
    }
    assert_eq!(owner_in(&storage), owner_is("alice"));
}

#[test]
fn reset_by_owner_sets_any_count() {
    let mut storage = MockStorage::new();
    start(&mut storage, "alice");
    for count in [-5, 0, 7, i32::MIN, i32::MAX, -1] {
        assert_eq!(send(&mut storage, "alice", ExecuteMsg::Reset { count }), Ok(()));
        assert_eq!(count_in(&storage), count_is(count));
        assert_eq!(owner_in(&storage), owner_is("alice"));
    }
}

#[test]
fn reset_by_stranger_changes_nothing() {
    let mut storage = MockStorage::new();
    start(&mut storage, "alice");
    assert_eq!(send(&mut storage, "alice", ExecuteMsg::Reset { count: 42 }), Ok(()));
    for stranger in ["bob", "Alice", "alice ", "alic", ""] {
        assert_eq!(
            send(&mut storage, stranger, ExecuteMsg::Reset { count: -1 }),
            Err(ContractError::Unauthorized)
        );
        assert_eq!(count_in(&storage), count_is(42));
        assert_eq!(owner_in(&storage), owner_is("alice"));
    }
}

#[test]
fn transfer_locks_the_previous_owner_out() {
    let mut storage = MockStorage::new();
    start(&mut storage, "alice");
    assert_eq!(
        send(
            &mut storage,
            "alice",
            ExecuteMsg::TransferOwnership { new_owner: "bob".to_string() }
        ),
        Ok(())
    );
    assert_eq!(owner_in(&storage), owner_is("bob"));
    assert_eq!(count_in(&storage), count_is(0));

    assert_eq!(
        send(&mut storage, "alice", ExecuteMsg::Reset { count: 3 }),
        Err(ContractError::Unauthorized)
    );
    assert_eq!(
        send(
            &mut storage,
            "alice",
            ExecuteMsg::TransferOwnership { new_owner: "alice".to_string() }
        ),
        Err(ContractError::Unauthorized)
    );
    assert_eq!(owner_in(&storage), owner_is("bob"));

    assert_eq!(send(&mut storage, "bob", ExecuteMsg::Reset { count: 3 }), Ok(()));
    assert_eq!(count_in(&storage), count_is(3));
    assert_eq!(
        send(
            &mut storage,
            "bob",
            ExecuteMsg::TransferOwnership { new_owner: "carol".to_string() }
        ),
        Ok(())
    );
    assert_eq!(owner_in(&storage), owner_is("carol"));
}

#[test]
fn transfer_to_oneself_keeps_the_owner() {
    let mut storage = MockStorage::new();
    start(&mut storage, "alice");
    assert_eq!(
        send(
            &mut storage,
            "alice",
            ExecuteMsg::TransferOwnership { new_owner: "alice".to_string() }
        ),
        Ok(())
    );
    assert_eq!(owner_in(&storage), owner_is("alice"));
    assert_eq!(send(&mut storage, "alice", ExecuteMsg::Reset { count: 9 }), Ok(()));
    assert_eq!(count_in(&storage), count_is(9));
}

#[test]
fn transfer_to_malformed_address_is_refused() {
    let mut storage = MockStorage::new();
    start(&mut storage, "alice");
    // The mock host wants three bytes at least, ninety at most, and no capitals.
    let too_long = "x".repeat(91);
    for malformed in ["", "ab", "Bob", too_long.as_str()] {
        assert_eq!(
            send(
                &mut storage,
                "alice",
                ExecuteMsg::TransferOwnership { new_owner: malformed.to_string() }
            ),
            Err(ContractError::InvalidAddress)
        );
        assert_eq!(owner_in(&storage), owner_is("alice"));
        assert_eq!(count_in(&storage), count_is(0));
    }
}

#[test]
fn stranger_is_refused_before_the_address_is_looked_at() {
    let mut storage = MockStorage::new();
    start(&mut storage, "alice");
    for proposal in ["ab", "bob"] {
        assert_eq!(
            send(
                &mut storage,
                "bob",
                ExecuteMsg::TransferOwnership { new_owner: proposal.to_string() }
            ),
            Err(ContractError::Unauthorized)
        );
        assert_eq!(owner_in(&storage), owner_is("alice"));
    }
}

#[test]
fn increment_goes_round_at_the_largest_count() {
    let mut storage = MockStorage::new();
    start(&mut storage, "alice");
    assert_eq!(send(&mut storage, "alice", ExecuteMsg::Reset { count: i32::MAX }), Ok(()));
    assert_eq!(send(&mut storage, "bob", ExecuteMsg::Increment {}), Ok(()));
    assert_eq!(count_in(&storage), count_is(i32::MIN));
    assert_eq!(send(&mut storage, "bob", ExecuteMsg::Increment {}), Ok(()));
    assert_eq!(count_in(&storage), count_is(i32::MIN + 1));
}

#[test]
fn instantiate_again_starts_over() {
    let mut storage = MockStorage::new();
    start(&mut storage, "alice");
    assert_eq!(send(&mut storage, "bob", ExecuteMsg::Increment {}), Ok(()));
    start(&mut storage, "bob");
    assert_eq!(count_in(&storage), count_is(0));
    assert_eq!(owner_in(&storage), owner_is("bob"));
}
