//! Messages that the host delivers, and the records that answer a query.

use vstd::prelude::*;

verus! {

/// A request to change the state.
#[derive(Clone, Debug, PartialEq, Eq)]
pub enum ExecuteMsg {
    /// Add one to the counter. Open to everyone.
    Increment {},
    /// Set the counter to `count`. The owner's alone.
    Reset { count: i32 },
    /// Make `new_owner` the owner. The owner's alone.
    TransferOwnership { new_owner: String },
}

/// A request to read the state.
#[derive(Clone, Copy, Debug, PartialEq, Eq, Structural)]
pub enum QueryMsg {
    /// Ask for the counter.
    GetCount {},
    /// Ask for the owner.
    GetOwner {},
}

/// The answer to [`QueryMsg::GetCount`].
#[derive(Clone, Copy, Debug, PartialEq, Eq, Structural)]
pub struct CountResponse {
    pub count: i32,
}

/// The answer to [`QueryMsg::GetOwner`].
#[derive(Clone, Debug, PartialEq, Eq)]
pub struct OwnerResponse {
    pub owner: String,
}

/// The answer to a query, one variant for each [`QueryMsg`].
#[derive(Clone, Debug, PartialEq, Eq)]
pub enum QueryResponse {
    Count(CountResponse),
    Owner(OwnerResponse),
}

/// What a [`QueryResponse`] says, with the owner as a sequence of characters.
pub enum Answer {
    Count(i32),
    Owner(Seq<char>),
}

impl View for QueryResponse {
    type V = Answer;

    open spec fn view(&self) -> Answer {
        match self {
            QueryResponse::Count(response) => Answer::Count(response.count),
            QueryResponse::Owner(response) => Answer::Owner(response.owner@),
        }
    }
}

} // verus!
