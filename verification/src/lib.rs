//! Generative "squiggle" collectibles: every token is bound at mint time to a
//! 32-byte seed, and the seed alone determines the token's artwork.
//!
//! The crate holds the contract's rules as plain functions over plain values,
//! so that they can be stated and proved: the seed derivation, the mapping from
//! a seed to drawing parameters, the renderer, the text encodings and the
//! mint bookkeeping. Whoever embeds it supplies the chain: the caller, the
//! block, the attached payment and the ownership ledger.

pub mod base64;
pub mod contract;
pub mod erc721;
pub mod error;
pub mod generator;
pub mod metadata;
pub mod primitives;
pub mod seed;
pub mod svg;
pub mod text;

pub use crate::error::SquiggleError;
pub use crate::generator::SquiggleGenerator;
