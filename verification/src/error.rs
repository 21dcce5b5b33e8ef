//! The ways in which an entry point fails.

use vstd::prelude::*;

verus! {

/// Why an entry point gave up. Whatever the reason, the storage is then as it
/// was before the call.
#[derive(Clone, Copy, Debug, PartialEq, Eq, Structural)]
pub enum ContractError {
    /// A slot that the call needs has never been written: the instance was
    /// not instantiated.
    NotFound,
    /// The caller is not the owner, and the operation is the owner's alone.
    Unauthorized,
    /// The host does not accept the proposed owner as an address.
    InvalidAddress,
    /// A slot holds bytes that cannot be read back as a value of its type.
    StorageFault,
}

impl ContractError {
    /// The text of each error, as a sequence of characters.
    pub open spec fn text(self) -> Seq<char> {
        match self {
            ContractError::NotFound => "The contract state was not found: the instance is not instantiated"@,
            ContractError::Unauthorized => "Only the owner can reset the counter or transfer ownership"@,
            ContractError::InvalidAddress => "The proposed owner is not a valid address"@,
            ContractError::StorageFault => "The contract state could not be read from storage"@,
        }
    }

    /// A sentence for the person who made the call.
    pub fn message(&self) -> (text: String)
        ensures
            text@ == self.text(),
    {
        match self {
            ContractError::NotFound => "The contract state was not found: the instance is not instantiated".to_owned(),
            ContractError::Unauthorized => "Only the owner can reset the counter or transfer ownership".to_owned(),
            ContractError::InvalidAddress => "The proposed owner is not a valid address".to_owned(),
            ContractError::StorageFault => "The contract state could not be read from storage".to_owned(),
        }
    }
}

} // verus!
