//! Where a record lives: an address derived from its owner and timestamp.
//!
//! The address of a record is the program derived address for three seeds:
//! the domain tag `log`, the owner's identity, and the timestamp as eight
//! little-endian bytes. The search for the address is the ledger's own; this
//! module fixes the seeds handed to it.

use vstd::prelude::*;
use vstd::bytes::*;
use anchor_lang::prelude::Pubkey;

verus! {

/// Number of bytes in an identity or an address.
pub const KEY_LEN: usize = 32;

/// What `Pubkey::try_find_program_address` gives for the seeds `seeds`
/// under the program `program_id`: the address and the bump seed that
/// completes the seeds, or `None` where the search ends without one.
/// Nothing is stated of its values but that they are the search's.
pub uninterp spec fn program_address(seeds: Seq<Seq<u8>>, program_id: Seq<u8>) -> Option<
    (Seq<u8>, u8),
>;

/// The mathematical value of a derivation's outcome.
pub open spec fn derived_view(derived: Option<([u8; 32], u8)>) -> Option<(Seq<u8>, u8)> {
    match derived {
        Some((address, bump)) => Some((address@, bump)),
        None => None,
    }
}

/// The domain tag that opens the seeds of every log record: the bytes of
/// `log`.
pub open spec fn domain_tag() -> Seq<u8> {
    seq![0x6cu8, 0x6fu8, 0x67u8]
}

/// The timestamp as a seed: its eight bytes in two's complement, least
/// significant first.
pub open spec fn timestamp_seed(timestamp: i64) -> Seq<u8> {
    spec_u64_to_le_bytes(timestamp as u64)
}

/// The seeds of the record that `owner` files under `timestamp`.
pub open spec fn spec_log_seeds(owner: Seq<u8>, timestamp: i64) -> Seq<Seq<u8>> {
    seq![domain_tag(), owner, timestamp_seed(timestamp)]
}

/// The address and bump seed of the record that `owner` files under
/// `timestamp` with the program `program_id`.
pub open spec fn spec_derive_address(program_id: Seq<u8>, owner: Seq<u8>, timestamp: i64) -> Option<
    (Seq<u8>, u8),
> {
    program_address(spec_log_seeds(owner, timestamp), program_id)
}

/// Calls `Pubkey::try_find_program_address` with the seeds and the program
/// id given. Not proved, but taken from the function's source: the result
/// depends on these two arguments alone, since the search hashes them with
/// one candidate bump seed after another and reads nothing else; this
/// crate calls that result [`program_address`]. The function returns `None`
/// rather than panic where it finds no address.
#[verifier::external_body]
fn find_program_address(seeds: &Vec<Vec<u8>>, program_id: &[u8; 32]) -> (derived: Option<
    ([u8; 32], u8),
>)
    ensures
        derived_view(derived) == program_address(seeds.deep_view(), program_id@),
{
    let slices: Vec<&[u8]> = seeds.iter().map(|seed| seed.as_slice()).collect();
    let program = Pubkey::new_from_array(*program_id);
    Pubkey::try_find_program_address(&slices, &program).map(
        |(address, bump)| (address.to_bytes(), bump),
    )
}

/// Copies an identity into a vector.
fn key_to_vec(key: &[u8; 32]) -> (bytes: Vec<u8>)
    ensures
        bytes@ == key@,
{
    let mut bytes: Vec<u8> = Vec::with_capacity(KEY_LEN);
    let mut i: usize = 0;
    while i < KEY_LEN
        invariant
            i <= KEY_LEN,
            bytes@ == key@.subrange(0, i as int),
        decreases KEY_LEN - i,
    {
        bytes.push(key[i]);
        i += 1;
    }
    bytes
}

/// Builds the seeds of the record that `owner` files under `timestamp`.
pub fn log_seeds(owner: &[u8; 32], timestamp: i64) -> (seeds: Vec<Vec<u8>>)
    ensures
        seeds.deep_view() == spec_log_seeds(owner@, timestamp),
{
    let tag: Vec<u8> = vec![0x6cu8, 0x6fu8, 0x67u8];
    let owner_seed = key_to_vec(owner);
    let time_seed = u64_to_le_bytes(timestamp as u64);
    let mut seeds: Vec<Vec<u8>> = Vec::with_capacity(3);
    seeds.push(tag);
    seeds.push(owner_seed);
    seeds.push(time_seed);
    assert(seeds.deep_view() =~~= spec_log_seeds(owner@, timestamp));
    seeds
}

/// Derives the address of the record that `owner` files under `timestamp`,
/// and the bump seed that completes its seeds. `None` where the ledger
/// finds no address for them.
pub fn derive_address(program_id: &[u8; 32], owner: &[u8; 32], timestamp: i64) -> (derived:
    Option<([u8; 32], u8)>)
    ensures
        derived_view(derived) == spec_derive_address(program_id@, owner@, timestamp),
{
    let seeds = log_seeds(owner, timestamp);
    find_program_address(&seeds, program_id)
}

} // verus!
