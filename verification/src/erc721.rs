//! What the ownership registry can answer when it refuses a request: the
//! errors of an ERC-721 ledger, with their arguments as plain values.
use vstd::prelude::*;
use crate::primitives::Address;
use crate::primitives::U256;

verus! {

/// An address that cannot own tokens, such as the zero address.
#[derive(Clone, Debug, PartialEq, Eq)]
pub struct ERC721InvalidOwner {
    pub owner: Address,
}

/// A token that nobody owns.
#[derive(Clone, Debug, PartialEq, Eq)]
pub struct ERC721NonexistentToken {
    pub token_id: U256,
}

/// A transfer from `sender` of a token that belongs to `owner`.
#[derive(Clone, Debug, PartialEq, Eq)]
pub struct ERC721IncorrectOwner {
    pub sender: Address,
    pub token_id: U256,
    pub owner: Address,
}

/// A sender that cannot send tokens.
#[derive(Clone, Debug, PartialEq, Eq)]
pub struct ERC721InvalidSender {
    pub sender: Address,
}

/// A receiver that cannot receive tokens.
#[derive(Clone, Debug, PartialEq, Eq)]
pub struct ERC721InvalidReceiver {
    pub receiver: Address,
}

/// A receiver that refused the token and said why.
#[derive(Clone, Debug, PartialEq, Eq)]
pub struct InvalidReceiverWithReason {
    pub reason: String,
}

/// An operator without approval for the token.
#[derive(Clone, Debug, PartialEq, Eq)]
pub struct ERC721InsufficientApproval {
    pub operator: Address,
    pub token_id: U256,
}

/// An approver that cannot approve.
#[derive(Clone, Debug, PartialEq, Eq)]
pub struct ERC721InvalidApprover {
    pub approver: Address,
}

/// An operator that cannot be approved.
#[derive(Clone, Debug, PartialEq, Eq)]
pub struct ERC721InvalidOperator {
    pub operator: Address,
}

/// A refusal of the registry.
#[derive(Clone, Debug, PartialEq, Eq)]
pub enum Error {
    InvalidOwner(ERC721InvalidOwner),
    NonexistentToken(ERC721NonexistentToken),
    IncorrectOwner(ERC721IncorrectOwner),
    InvalidSender(ERC721InvalidSender),
    InvalidReceiver(ERC721InvalidReceiver),
    InvalidReceiverWithReason(InvalidReceiverWithReason),
    InsufficientApproval(ERC721InsufficientApproval),
    InvalidApprover(ERC721InvalidApprover),
    InvalidOperator(ERC721InvalidOperator),
}

} // verus!
