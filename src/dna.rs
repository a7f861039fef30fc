//! Derivation of a record's identifier and classification from entropy and
//! the execution context.
use vstd::prelude::*;

verus! {

/// The two classifications a record can be given at creation.
#[derive(Clone, Copy, Debug, PartialEq, Eq, Structural)]
pub enum Gender {
    Male,
    Female,
}

/// Classification of a record from its identifier: the parity of the first byte.
pub open spec fn gender_spec(dna: [u8; 16]) -> Gender {
    if dna@[0] % 2 == 0 {
        Gender::Male
    } else {
        Gender::Female
    }
}

/// Derives the classification of a record from its identifier.
pub fn gender_of_dna(dna: &[u8; 16]) -> (r: Gender)
    ensures
        r == gender_spec(*dna),
{
    if dna[0] % 2 == 0 {
        Gender::Male
    } else {
        Gender::Female
    }
}

/// The four bytes of `x`, least significant first.
pub open spec fn le_bytes_u32(x: u32) -> Seq<u8> {
    seq![
        (x % 256) as u8,
        ((x / 256) % 256) as u8,
        ((x / 65536) % 256) as u8,
        ((x / 16777216) % 256) as u8,
    ]
}

/// The bytes that are hashed into an identifier: the entropy, then the call
/// index and the block height, each as four little-endian bytes.
pub open spec fn payload_spec(random: [u8; 32], index: u32, block: u32) -> Seq<u8> {
    random@ + le_bytes_u32(index) + le_bytes_u32(block)
}

/// The 128-bit BLAKE2b digest that `frame_support::Hashable::blake2_128`
/// gives for a byte vector; it depends on the bytes alone.
pub uninterp spec fn blake2_128_of(bytes: Seq<u8>) -> [u8; 16];

/// Relies on the SCALE encoding of `parity-scale-codec` (re-exported by
/// `frame_support`): a tuple encodes as its fields one after another, a byte
/// array as its bytes and a `u32` as four little-endian bytes.
#[verifier::external_body]
fn encode_payload(random: [u8; 32], index: u32, block: u32) -> (r: Vec<u8>)
    ensures
        r@ == payload_spec(random, index, block),
{
    frame_support::pallet_prelude::Encode::encode(&(random, index, block))
}

/// Relies on `frame_support::Hashable::blake2_128`, a 128-bit BLAKE2b digest
/// of the value's encoding. The encoding of a vector starts with its length,
/// which the codec requires to fit in a `u32`.
#[verifier::external_body]
fn blake2_128(bytes: &Vec<u8>) -> (r: [u8; 16])
    requires
        bytes@.len() <= 0xffff_ffff,
    ensures
        r == blake2_128_of(bytes@),
{
    frame_support::Hashable::blake2_128(bytes)
}

/// The identifier derived from the entropy of the current slot, the index of
/// the call within its block (zero when there is none) and the block height.
pub open spec fn dna_spec(random: [u8; 32], extrinsic_index: Option<u32>, block: u32) -> [u8; 16] {
    let index = match extrinsic_index {
        Some(i) => i,
        None => 0u32,
    };
    blake2_128_of(payload_spec(random, index, block))
}

/// Generates the identifier and classification of a new record.
pub fn gen_dna(random: [u8; 32], extrinsic_index: Option<u32>, block_number: u32) -> (r: (
    [u8; 16],
    Gender,
))
    ensures
        r.0 == dna_spec(random, extrinsic_index, block_number),
        r.1 == gender_spec(r.0),
{
    let index: u32 = match extrinsic_index {
        Some(i) => i,
        None => 0,
    };
    let payload = encode_payload(random, index, block_number);
    let hash = blake2_128(&payload);
    let gender = gender_of_dna(&hash);
    (hash, gender)
}

} // verus!
