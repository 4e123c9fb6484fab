use vstd::prelude::*;
use crate::constants::{note_seed, note_seed_spec};
use crate::state::Pubkey;

verus! {

/// The address and bump that `Pubkey::try_find_program_address` gives for
/// these seeds and this program, or `None` where it finds none.
pub uninterp spec fn found_program_address(seeds: Seq<Seq<u8>>, program_id: Seq<u8>) -> Option<
    (Seq<u8>, u8),
>;

/// The address that `Pubkey::create_program_address` gives for these seeds
/// and this program, or `None` where it refuses them.
pub uninterp spec fn created_program_address(seeds: Seq<Seq<u8>>, program_id: Seq<u8>) -> Option<
    Seq<u8>,
>;

/// Address and bump of the note of `owner` under `program_id`.
pub open spec fn note_address(program_id: Seq<u8>, owner: Seq<u8>) -> Option<(Seq<u8>, u8)> {
    found_program_address(seq![note_seed_spec(), owner], program_id)
}

/// Address of the note of `owner` under `program_id`, derived again with a
/// bump that was recorded before.
pub open spec fn note_address_with_bump(program_id: Seq<u8>, owner: Seq<u8>, bump: u8) -> Option<
    Seq<u8>,
> {
    created_program_address(seq![note_seed_spec(), owner, seq![bump]], program_id)
}

pub open spec fn found_view(found: Option<(Pubkey, u8)>) -> Option<(Seq<u8>, u8)> {
    match found {
        Some(pair) => Some((pair.0@, pair.1)),
        None => None,
    }
}

/// Whether a derivation gave `address`.
pub open spec fn found_at(found: Option<(Seq<u8>, u8)>, address: Seq<u8>) -> bool {
    match found {
        Some(pair) => pair.0 == address,
        None => false,
    }
}

/// The bump that a derivation gave, zero where it gave none.
pub open spec fn found_bump(found: Option<(Seq<u8>, u8)>) -> u8 {
    match found {
        Some(pair) => pair.1,
        None => 0,
    }
}

pub open spec fn key_view(key: Option<Pubkey>) -> Option<Seq<u8>> {
    match key {
        Some(k) => Some(k@),
        None => None,
    }
}

/// Calls `Pubkey::try_find_program_address` of anchor_lang's prelude with the
/// two seeds `tag` and `owner`. The result is the named one. The search tries
/// each bump through `create_program_address` with the bump as one more seed
/// and returns the first address that call accepts, so deriving again with the
/// returned bump gives the returned address.
#[verifier::external_body]
fn try_find_program_address(tag: &Vec<u8>, owner: &Pubkey, program_id: &Pubkey) -> (found: Option<
    (Pubkey, u8),
>)
    ensures
        found_view(found) == found_program_address(seq![tag@, owner@], program_id@),
        found matches Some(pair) ==> created_program_address(
            seq![tag@, owner@, seq![pair.1]],
            program_id@,
        ) == Some(pair.0@),
{
    let program = anchor_lang::prelude::Pubkey::new_from_array(program_id.bytes);
    let seeds: [&[u8]; 2] = [tag.as_slice(), &owner.bytes];
    match anchor_lang::prelude::Pubkey::try_find_program_address(&seeds, &program) {
        Some((address, bump)) => Some((Pubkey { bytes: address.to_bytes() }, bump)),
        None => None,
    }
}

/// Calls `Pubkey::create_program_address` of anchor_lang's prelude with the
/// three seeds `tag`, `owner` and the one byte `bump`. The result is the named
/// one, with the call's error turned into `None`.
#[verifier::external_body]
fn create_program_address(tag: &Vec<u8>, owner: &Pubkey, bump: u8, program_id: &Pubkey) -> (created:
    Option<Pubkey>)
    ensures
        key_view(created) == created_program_address(
            seq![tag@, owner@, seq![bump]],
            program_id@,
        ),
{
    let program = anchor_lang::prelude::Pubkey::new_from_array(program_id.bytes);
    let last: [u8; 1] = [bump];
    let seeds: [&[u8]; 3] = [tag.as_slice(), &owner.bytes, &last];
    match anchor_lang::prelude::Pubkey::create_program_address(&seeds, &program) {
        Ok(address) => Some(Pubkey { bytes: address.to_bytes() }),
        Err(_) => None,
    }
}

/// Derives the address at which the note of `owner` must reside, and the
/// bump that makes it the canonical one. Deriving again with that bump gives
/// the same address.
pub fn find_note_address(program_id: &Pubkey, owner: &Pubkey) -> (found: Option<(Pubkey, u8)>)
    ensures
        found_view(found) == note_address(program_id@, owner@),
        found matches Some(pair) ==> note_address_with_bump(program_id@, owner@, pair.1) == Some(
            pair.0@,
        ),
{
    let tag = note_seed();
    try_find_program_address(&tag, owner, program_id)
}

/// Derives the address of the note of `owner` again, from a recorded bump.
pub fn derive_note_address(program_id: &Pubkey, owner: &Pubkey, bump: u8) -> (derived: Option<
    Pubkey,
>)
    ensures
        key_view(derived) == note_address_with_bump(program_id@, owner@, bump),
{
    let tag = note_seed();
    create_program_address(&tag, owner, bump, program_id)
}

/// Whether `address` is the derived one. A derivation that gave nothing
/// matches no address.
pub fn address_matches(derived: &Option<Pubkey>, address: &Pubkey) -> (matches: bool)
    ensures
        matches == (key_view(*derived) == Some(address@)),
{
    match derived {
        Some(expected) => expected.equals(address),
        None => false,
    }
}

} // verus!
