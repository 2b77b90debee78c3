//! The deterministic addresses of the marketplace's records.
//!
//! Each record lives at an address derived from a seed tuple under the
//! marketplace program's id. The derivation appends a bump seed, the nonce
//! that moves the address off the signing curve, and reports it so that the
//! record can store it.

use crate::pubkey::Pubkey;
use vstd::bytes::{spec_u64_to_le_bytes, u64_to_le_bytes};
use vstd::prelude::*;
use vstd::slice::slice_to_vec;
use vstd::string::StringSliceAdditionalSpecFns;

verus! {

/// Seed tag of host profiles.
pub const HOST_SEED: &'static str = "HOST_SEED";

/// Seed tag of guest profiles.
pub const GUEST_SEED: &'static str = "GUEST_SEED";

/// Seed tag of listings.
pub const LISTING_SEED: &'static str = "LISTING_SEED";

/// Seed tag of reservations.
pub const RESERVATION_SEED: &'static str = "RESERVATION_SEED";

/// Seed tag of payment escrows.
pub const PAYMENT_ESCROW_SEED: &'static str = "PAYMENT_ESCROW_SEED";

/// The address and bump seed that the ledger's address derivation finds for
/// `seeds` under `program_id`, or `None` where it finds none.
pub uninterp spec fn spec_find_program_address(seeds: Seq<Seq<u8>>, program_id: Seq<u8>) -> Option<
    (Seq<u8>, u8),
>;

/// The seeds as byte sequences.
pub open spec fn seeds_view(seeds: Seq<Vec<u8>>) -> Seq<Seq<u8>> {
    seeds.map_values(|seed: Vec<u8>| seed@)
}

/// A derived address and its bump seed, the address by its bytes.
pub open spec fn found_view(found: Option<(Pubkey, u8)>) -> Option<(Seq<u8>, u8)> {
    match found {
        Some((address, bump)) => Some((address@, bump)),
        None => None,
    }
}

/// Calls `Pubkey::try_find_program_address`, on the `Pubkey` of `solana_pubkey`
/// that `anchor_lang` re-exports: the search, from bump seed 255 downwards,
/// for the first address hashed from `seeds`, the bump seed and `program_id`
/// that is off the curve; `None` where there are too many seeds, a seed is
/// too long, or no bump seed yields such an address. The contract claims only
/// that the outcome is a function of the seeds' bytes and the program id's
/// bytes; the derivation itself is not specified here and not proved.
#[verifier::external_body]
fn try_find_program_address(seeds: &Vec<Vec<u8>>, program_id: &Pubkey) -> (found: Option<
    (Pubkey, u8),
>)
    ensures
        found_view(found) == spec_find_program_address(seeds_view(seeds@), program_id@),
{
    let slices: Vec<&[u8]> = seeds.iter().map(|seed| seed.as_slice()).collect();
    let program = anchor_lang::prelude::Pubkey::new_from_array(program_id.bytes);
    match anchor_lang::prelude::Pubkey::try_find_program_address(&slices, &program) {
        Some((address, bump)) => Some((Pubkey { bytes: address.to_bytes() }, bump)),
        None => None,
    }
}

/// The seed tuple of a record owned by `owner`: the tag, then the owner's
/// address.
pub open spec fn owner_seeds(tag: &str, owner: Pubkey) -> Seq<Seq<u8>> {
    seq![tag.spec_bytes(), owner@]
}

/// The seed tuple of a numbered record under `owner`: the tag, the owner's
/// address, then the number in 8 little-endian bytes.
pub open spec fn numbered_seeds(tag: &str, owner: Pubkey, number: u64) -> Seq<Seq<u8>> {
    seq![tag.spec_bytes(), owner@, spec_u64_to_le_bytes(number)]
}

/// The address of the escrow with sequence number `escrow_id` for the
/// reservation at `reservation`, with its bump seed.
pub open spec fn spec_payment_escrow_address(
    program_id: Pubkey,
    reservation: Pubkey,
    escrow_id: u64,
) -> Option<(Seq<u8>, u8)> {
    spec_find_program_address(
        numbered_seeds(PAYMENT_ESCROW_SEED, reservation, escrow_id),
        program_id@,
    )
}

/// Derives the address of a record owned by `owner`.
pub fn find_owner_address(program_id: &Pubkey, tag: &str, owner: &Pubkey) -> (found: Option<
    (Pubkey, u8),
>)
    ensures
        found_view(found) == spec_find_program_address(owner_seeds(tag, *owner), program_id@),
{
    let mut seeds: Vec<Vec<u8>> = Vec::new();
    seeds.push(slice_to_vec(tag.as_bytes()));
    seeds.push(owner.to_vec());
    assert(seeds_view(seeds@) =~= owner_seeds(tag, *owner));
    try_find_program_address(&seeds, program_id)
}

/// Derives the address of a numbered record under `owner`.
pub fn find_numbered_address(program_id: &Pubkey, tag: &str, owner: &Pubkey, number: u64) -> (found:
    Option<(Pubkey, u8)>)
    ensures
        found_view(found) == spec_find_program_address(
            numbered_seeds(tag, *owner, number),
            program_id@,
        ),
{
    let mut seeds: Vec<Vec<u8>> = Vec::new();
    seeds.push(slice_to_vec(tag.as_bytes()));
    seeds.push(owner.to_vec());
    seeds.push(u64_to_le_bytes(number));
    assert(seeds_view(seeds@) =~= numbered_seeds(tag, *owner, number));
    try_find_program_address(&seeds, program_id)
}

/// Derives the address of the profile of the host `host_authority`.
pub fn host_address(program_id: &Pubkey, host_authority: &Pubkey) -> (found: Option<(Pubkey, u8)>)
    ensures
        found_view(found) == spec_find_program_address(
            owner_seeds(HOST_SEED, *host_authority),
            program_id@,
        ),
{
    find_owner_address(program_id, HOST_SEED, host_authority)
}

/// Derives the address of the profile of the guest `guest_authority`.
pub fn guest_address(program_id: &Pubkey, guest_authority: &Pubkey) -> (found: Option<(Pubkey, u8)>)
    ensures
        found_view(found) == spec_find_program_address(
            owner_seeds(GUEST_SEED, *guest_authority),
            program_id@,
        ),
{
    find_owner_address(program_id, GUEST_SEED, guest_authority)
}

/// Derives the address of the listing that `listing_authority` creates when
/// the host's profile counts `listing_count` listings.
pub fn listing_address(program_id: &Pubkey, listing_authority: &Pubkey, listing_count: u64) -> (found:
    Option<(Pubkey, u8)>)
    ensures
        found_view(found) == spec_find_program_address(
            numbered_seeds(LISTING_SEED, *listing_authority, listing_count),
            program_id@,
        ),
{
    find_numbered_address(program_id, LISTING_SEED, listing_authority, listing_count)
}

/// Derives the address of the reservation numbered `reservation_id` of the
/// guest `reservation_authority`.
pub fn reservation_address(
    program_id: &Pubkey,
    reservation_authority: &Pubkey,
    reservation_id: u64,
) -> (found: Option<(Pubkey, u8)>)
    ensures
        found_view(found) == spec_find_program_address(
            numbered_seeds(RESERVATION_SEED, *reservation_authority, reservation_id),
            program_id@,
        ),
{
    find_numbered_address(program_id, RESERVATION_SEED, reservation_authority, reservation_id)
}

/// Derives the address of the escrow with sequence number `escrow_id` for the
/// reservation at `reservation`.
pub fn payment_escrow_address(program_id: &Pubkey, reservation: &Pubkey, escrow_id: u64) -> (found:
    Option<(Pubkey, u8)>)
    ensures
        found_view(found) == spec_payment_escrow_address(*program_id, *reservation, escrow_id),
{
    find_numbered_address(program_id, PAYMENT_ESCROW_SEED, reservation, escrow_id)
}

} // verus!
