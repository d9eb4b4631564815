//! The seed of a token: a one-way hash of the block, the minter and the
//! chain at the moment of minting.
//!
//! The three values are laid out as three 32-byte words, in this order, each
//! big-endian and padded with zero bytes on the left, and the 96 bytes are
//! hashed with Keccak-256.
use alloy_sol_types::SolValue;
use vstd::prelude::*;
use crate::primitives::Address;
use crate::primitives::Seed;

verus! {

/// `n` zero bytes.
pub open spec fn zero_bytes(n: nat) -> Seq<u8> {
    Seq::new(n, |i: int| 0u8)
}

/// The eight bytes of a 64-bit integer, most significant first.
pub open spec fn u64_be_bytes(x: u64) -> Seq<u8> {
    seq![
        (x / 0x100_0000_0000_0000 % 0x100) as u8,
        (x / 0x1_0000_0000_0000 % 0x100) as u8,
        (x / 0x100_0000_0000 % 0x100) as u8,
        (x / 0x1_0000_0000 % 0x100) as u8,
        (x / 0x100_0000 % 0x100) as u8,
        (x / 0x1_0000 % 0x100) as u8,
        (x / 0x100 % 0x100) as u8,
        (x % 0x100) as u8,
    ]
}

/// A 64-bit integer as one 32-byte word.
pub open spec fn abi_word_u64(x: u64) -> Seq<u8> {
    zero_bytes(24) + u64_be_bytes(x)
}

/// A 20-byte address as one 32-byte word.
pub open spec fn abi_word_address(address: Seq<u8>) -> Seq<u8> {
    zero_bytes(12) + address
}

/// The bytes that are hashed into a seed: block number, minter, chain id.
pub open spec fn seed_preimage(block_number: u64, msg_sender: Seq<u8>, chain_id: u64) -> Seq<u8> {
    abi_word_u64(block_number) + abi_word_address(msg_sender) + abi_word_u64(chain_id)
}

/// The Keccak-256 digest of `data`.
pub uninterp spec fn keccak256(data: Seq<u8>) -> Seq<u8>;

/// The seed of a token minted by `msg_sender` in block `block_number` of
/// chain `chain_id`.
pub open spec fn seed_of(block_number: u64, msg_sender: Seq<u8>, chain_id: u64) -> Seq<u8> {
    keccak256(seed_preimage(block_number, msg_sender, chain_id))
}

/// `SolValue::abi_encode_sequence` of `alloy_sol_types`, on the tuple of a
/// `u64`, an address and a `u64`. All three are static types of one word
/// each, so the encoding is the three words in order, with no offsets: an
/// unsigned integer big-endian and zero-padded on the left, an address
/// behind twelve zero bytes.
#[verifier::external_body]
fn abi_encode_sequence(block_number: u64, msg_sender: &Address, chain_id: u64) -> (encoded: Vec<u8>)
    ensures
        encoded@ == seed_preimage(block_number, msg_sender@, chain_id),
{
    let sender = stylus_sdk::alloy_primitives::Address::new(msg_sender.bytes);
    (block_number, sender, chain_id).abi_encode_sequence()
}

/// `stylus_sdk::crypto::keccak`: the Keccak-256 digest of the given bytes,
/// which is a function of those bytes alone.
#[verifier::external_body]
fn keccak(data: &Vec<u8>) -> (digest: [u8; 32])
    ensures
        digest@ == keccak256(data@),
{
    stylus_sdk::crypto::keccak(data).0
}

/// Derives the seed for a token minted by `msg_sender` in block
/// `block_number` of chain `chain_id`.
pub fn generate_seed(block_number: u64, msg_sender: &Address, chain_id: u64) -> (seed: Seed)
    ensures
        seed@ == seed_of(block_number, msg_sender@, chain_id),
{
    let hash_data = abi_encode_sequence(block_number, msg_sender, chain_id);
    keccak(&hash_data)
}

} // verus!
