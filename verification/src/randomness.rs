//! The selector that minting and breeding draw from the host's randomness,
//! and the registry's own account.

use vstd::prelude::*;
use vstd::bytes::{spec_u32_to_le_bytes, spec_u64_from_le_bytes, spec_u64_to_le_bytes};
use crate::types::AccountId;

verus! {

/// The 128-bit Blake2b hash of a byte string.
pub uninterp spec fn blake2_128_of(data: Seq<u8>) -> Seq<u8>;

/// The bytes that are hashed into a selector: the seed, the block number and
/// the sender in little-endian order, then the call's position, one zero
/// byte where there is none and a one byte before it where there is.
pub open spec fn payload_bytes(
    seed: Seq<u8>,
    block_number: u64,
    sender: AccountId,
    extrinsic_index: Option<u32>,
) -> Seq<u8> {
    seed + spec_u64_to_le_bytes(block_number) + spec_u64_to_le_bytes(sender) + (
    match extrinsic_index {
        Some(index) => seq![1u8] + spec_u32_to_le_bytes(index),
        None => seq![0u8],
    })
}

/// The selector drawn for `sender` from a seed and the call's position.
pub open spec fn selector_spec(
    seed: Seq<u8>,
    block_number: u64,
    sender: AccountId,
    extrinsic_index: Option<u32>,
) -> Seq<u8> {
    blake2_128_of(payload_bytes(seed, block_number, sender, extrinsic_index))
}

/// The account that a pallet identifier stands for: the four bytes `modl`
/// and the identifier's first four bytes, read as one little-endian number.
pub open spec fn account_of_pallet_id(id: Seq<u8>) -> AccountId {
    spec_u64_from_le_bytes(seq![109u8, 111u8, 100u8, 108u8] + id.subrange(0, 4))
}

/// Calls `parity_scale_codec::Encode::encode` on the tuple of the seed with
/// its block number, the sender and the call's position. The contract
/// states the SCALE encoding of that tuple: fields in order, a byte array as
/// it is, integers in little-endian order, an option behind one tag byte.
#[verifier::external_body]
fn encode_payload(
    seed: &[u8; 32],
    block_number: u64,
    sender: AccountId,
    extrinsic_index: Option<u32>,
) -> (bytes: Vec<u8>)
    ensures
        bytes@ == payload_bytes(seed@, block_number, sender, extrinsic_index),
{
    parity_scale_codec::Encode::encode(&((seed, block_number), &sender, extrinsic_index))
}

/// Calls `sp_io::hashing::blake2_128`. The contract only names the hash: it
/// is a function of the bytes alone.
#[verifier::external_body]
fn blake2_128(data: &[u8]) -> (hash: [u8; 16])
    ensures
        hash@ == blake2_128_of(data@),
{
    sp_io::hashing::blake2_128(data)
}

/// Calls `sp_runtime::traits::AccountIdConversion::into_account_truncating`
/// on a `frame_support::PalletId`. For a 64-bit account the conversion
/// encodes the type tag `modl` and the identifier and decodes the first
/// eight bytes as a little-endian number, which the contract states.
#[verifier::external_body]
pub(crate) fn pallet_account(id: [u8; 8]) -> (account: AccountId)
    ensures
        account == account_of_pallet_id(id@),
{
    sp_runtime::traits::AccountIdConversion::<AccountId>::into_account_truncating(
        &frame_support::PalletId(id),
    )
}

/// Draws a 16-byte selector for `sender`: the hash of the seed, the block
/// number, the sender and the call's position.
pub fn selector(
    seed: &[u8; 32],
    block_number: u64,
    sender: AccountId,
    extrinsic_index: Option<u32>,
) -> (selector: [u8; 16])
    ensures
        selector@ == selector_spec(seed@, block_number, sender, extrinsic_index),
{
    let payload = encode_payload(seed, block_number, sender, extrinsic_index);
    blake2_128(payload.as_slice())
}

} // verus!
