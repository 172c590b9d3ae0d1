//! The failures that the registry's handlers report.

use vstd::prelude::*;
use vstd::std_specs::convert::FromSpecImpl;

verus! {

/// The host's own error type, carried through unread.
#[verifier::external_type_specification]
#[verifier::external_body]
pub struct ExStdError(cosmwasm_std::StdError);

/// Why a handler refused a call.
#[derive(Debug, PartialEq)]
pub enum ContractError {
    /// The storage layer failed: an entry is missing or cannot be read.
    Std(cosmwasm_std::StdError),
    /// The caller is not the indexed owner of the identifier.
    Unauthorized {},
    /// The identifier is already registered.
    DidAlreadyExists {},
    /// The identifier names another network than the configured one.
    IncorrectChainId {},
    /// No delegate entry exists for the address and identifier.
    NotDelegateAddress {},
    /// The new owner is the caller.
    CannotTransferToSelf {},
    /// The identifier has fewer characters than a chain identifier needs.
    InputTooShort {},
    /// A character of the chain identifier is not a decimal digit.
    InvalidNumber {},
}

/// The variant of a [`ContractError`], without what it carries.
#[derive(Clone, Copy, Debug, PartialEq, Eq, Structural)]
pub enum ErrorKind {
    Std,
    Unauthorized,
    DidAlreadyExists,
    IncorrectChainId,
    NotDelegateAddress,
    CannotTransferToSelf,
    InputTooShort,
    InvalidNumber,
}

impl ContractError {
    /// The variant of this error.
    pub open spec fn spec_kind(&self) -> ErrorKind {
        match self {
            ContractError::Std(_) => ErrorKind::Std,
            ContractError::Unauthorized {  } => ErrorKind::Unauthorized,
            ContractError::DidAlreadyExists {  } => ErrorKind::DidAlreadyExists,
            ContractError::IncorrectChainId {  } => ErrorKind::IncorrectChainId,
            ContractError::NotDelegateAddress {  } => ErrorKind::NotDelegateAddress,
            ContractError::CannotTransferToSelf {  } => ErrorKind::CannotTransferToSelf,
            ContractError::InputTooShort {  } => ErrorKind::InputTooShort,
            ContractError::InvalidNumber {  } => ErrorKind::InvalidNumber,
        }
    }

    /// The variant of this error.
    #[verifier::when_used_as_spec(spec_kind)]
    pub fn kind(&self) -> (kind: ErrorKind)
        ensures
            kind == self.spec_kind(),
    {
        match self {
            ContractError::Std(_) => ErrorKind::Std,
            ContractError::Unauthorized {  } => ErrorKind::Unauthorized,
            ContractError::DidAlreadyExists {  } => ErrorKind::DidAlreadyExists,
            ContractError::IncorrectChainId {  } => ErrorKind::IncorrectChainId,
            ContractError::NotDelegateAddress {  } => ErrorKind::NotDelegateAddress,
            ContractError::CannotTransferToSelf {  } => ErrorKind::CannotTransferToSelf,
            ContractError::InputTooShort {  } => ErrorKind::InputTooShort,
            ContractError::InvalidNumber {  } => ErrorKind::InvalidNumber,
        }
    }
}

impl From<cosmwasm_std::StdError> for ContractError {
    fn from(source: cosmwasm_std::StdError) -> (error: ContractError) {
        ContractError::Std(source)
    }
}

impl FromSpecImpl<cosmwasm_std::StdError> for ContractError {
    open spec fn obeys_from_spec() -> bool {
        true
    }

    open spec fn from_spec(source: cosmwasm_std::StdError) -> ContractError {
        ContractError::Std(source)
    }
}

} // verus!
