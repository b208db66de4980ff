use vstd::prelude::*;

verus! {

/// The closed set of failures a handler can surface. Every error aborts the
/// current invocation; no partial state change is ever visible beside one.
#[derive(Debug, Clone, PartialEq)]
pub enum ContractError {
    /// A fixed-key record was read before anything was written under its key.
    NotFound,
    /// Initialization was attempted while a record was already present.
    AlreadyInitialized,
    /// The caller may not perform the attempted transition; carries the
    /// offending caller's identity.
    Unauthorized { sender: String },
    /// The pending ownership proposal had already expired when it was accepted.
    TransferExpired,
    /// The oracle channel failed; carries the channel's own message.
    Oracle { message: String },
}

/// The mathematical shape of a [`ContractError`], with identities as
/// character sequences.
pub enum ContractErrorV {
    NotFound,
    AlreadyInitialized,
    Unauthorized { sender: Seq<char> },
    TransferExpired,
    Oracle { message: Seq<char> },
}

impl View for ContractError {
    type V = ContractErrorV;

    open spec fn view(&self) -> ContractErrorV {
        match self {
            ContractError::NotFound => ContractErrorV::NotFound,
            ContractError::AlreadyInitialized => ContractErrorV::AlreadyInitialized,
            ContractError::Unauthorized { sender } => ContractErrorV::Unauthorized {
                sender: sender@,
            },
            ContractError::TransferExpired => ContractErrorV::TransferExpired,
            ContractError::Oracle { message } => ContractErrorV::Oracle { message: message@ },
        }
    }
}

} // verus!
