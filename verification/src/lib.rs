//! A counter with an owner, kept in the storage of a CosmWasm host.
//!
//! Anyone may increment the counter; only the owner may reset it or hand the
//! ownership on. Every entry point is a single step from one
//! `(counter, owner)` pair to the next, or no step at all when it fails.
//!
//! * [`error`] and [`msg`] hold the plain values that cross the boundary.
//! * [`host`] is the boundary itself: the handles on the host's storage and
//!   address rules, and the calls into `cw_storage_plus` and `cosmwasm_std`
//!   whose contracts are taken on trust.
//! * [`state`] is the mathematical model: what the two storage slots hold and
//!   how each message changes them.
//! * [`contract`] holds the entry points, each proved against the model.
//! * [`laws`] states what follows for sequences of calls.

pub mod contract;
pub mod error;
pub mod host;
pub mod laws;
pub mod msg;
pub mod state;

pub use contract::{
    authorize, execute, install_owner, instantiate, query, try_increment, try_reset,
    try_transfer_ownership,
};
pub use error::ContractError;
pub use host::{Host, HostRef};
pub use msg::{CountResponse, ExecuteMsg, OwnerResponse, QueryMsg, QueryResponse};
