//! The errors of the contract: its own two, and those of the registry,
//! which pass through unchanged.
use vstd::prelude::*;
use vstd::std_specs::convert::FromSpecImpl;
use crate::erc721;

verus! {

/// The payment attached to a mint was below the mint price.
#[derive(Clone, Debug, PartialEq, Eq)]
pub struct InsufficientPayment {}

/// The caller is not the owner of the contract.
#[derive(Clone, Debug, PartialEq, Eq)]
pub struct NotOwner {}

/// Why a call failed.
#[derive(Clone, Debug, PartialEq, Eq)]
pub enum SquiggleError {
    InvalidOwner(erc721::ERC721InvalidOwner),
    NonexistentToken(erc721::ERC721NonexistentToken),
    IncorrectOwner(erc721::ERC721IncorrectOwner),
    InvalidSender(erc721::ERC721InvalidSender),
    InvalidReceiver(erc721::ERC721InvalidReceiver),
    InvalidReceiverWithReason(erc721::InvalidReceiverWithReason),
    InsufficientApproval(erc721::ERC721InsufficientApproval),
    InvalidApprover(erc721::ERC721InvalidApprover),
    InvalidOperator(erc721::ERC721InvalidOperator),
    InsufficientPayment(InsufficientPayment),
    NotOwner(NotOwner),
}

/// The contract's error for a refusal of the registry: the variant of the
/// same name, with the same arguments.
pub open spec fn registry_error(value: erc721::Error) -> SquiggleError {
    match value {
        erc721::Error::IncorrectOwner(e) => SquiggleError::IncorrectOwner(e),
        erc721::Error::NonexistentToken(e) => SquiggleError::NonexistentToken(e),
        erc721::Error::InvalidOwner(e) => SquiggleError::InvalidOwner(e),
        erc721::Error::InvalidSender(e) => SquiggleError::InvalidSender(e),
        erc721::Error::InvalidReceiver(e) => SquiggleError::InvalidReceiver(e),
        erc721::Error::InvalidReceiverWithReason(e) => SquiggleError::InvalidReceiverWithReason(e),
        erc721::Error::InsufficientApproval(e) => SquiggleError::InsufficientApproval(e),
        erc721::Error::InvalidApprover(e) => SquiggleError::InvalidApprover(e),
        erc721::Error::InvalidOperator(e) => SquiggleError::InvalidOperator(e),
    }
}

impl From<erc721::Error> for SquiggleError {
    fn from(value: erc721::Error) -> (error: SquiggleError) {
        match value {
            erc721::Error::IncorrectOwner(e) => SquiggleError::IncorrectOwner(e),
            erc721::Error::NonexistentToken(e) => SquiggleError::NonexistentToken(e),
            erc721::Error::InvalidOwner(e) => SquiggleError::InvalidOwner(e),
            erc721::Error::InvalidSender(e) => SquiggleError::InvalidSender(e),
            erc721::Error::InvalidReceiver(e) => SquiggleError::InvalidReceiver(e),
            erc721::Error::InvalidReceiverWithReason(e) => {
                SquiggleError::InvalidReceiverWithReason(e)
            },
            erc721::Error::InsufficientApproval(e) => SquiggleError::InsufficientApproval(e),
            erc721::Error::InvalidApprover(e) => SquiggleError::InvalidApprover(e),
            erc721::Error::InvalidOperator(e) => SquiggleError::InvalidOperator(e),
        }
    }
}

impl FromSpecImpl<erc721::Error> for SquiggleError {
    open spec fn obeys_from_spec() -> bool {
        true
    }

    open spec fn from_spec(value: erc721::Error) -> SquiggleError {
        registry_error(value)
    }
}

} // verus!
