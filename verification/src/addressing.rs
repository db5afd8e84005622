//! Deterministic addressing service.
//!
//! Storage addresses and namespace authorities are derived by the host's
//! address-derivation primitives. Both derivations are pure functions of
//! their inputs; their results are given names here and everything the
//! ledger proves about addresses rests on those names.

use vstd::prelude::*;
use vstd::utf8::valid_utf8;

use crate::error::BridgeError;
use crate::state::Address;

verus! {

/// The storage address that the host derives from a base authority, a seed
/// text and an owning program. Stands for the sha256-based derivation of
/// solana_program's `Pubkey::create_with_seed`.
pub uninterp spec fn derived_address(base: Seq<u8>, seed: Seq<u8>, owner: Seq<u8>) -> Seq<u8>;

/// The namespace authority and bump discriminant that the host derives from
/// a seed and an owning program, or nothing when no bump works. Stands for
/// solana_program's `Pubkey::try_find_program_address`.
pub uninterp spec fn pda_of(seed: Seq<u8>, program: Seq<u8>) -> Option<(Seq<u8>, u8)>;

/// Marker text whose presence at the tail of an owner address the
/// derivation primitive rejects.
pub open spec fn pda_marker_bytes() -> Seq<u8> {
    vstd::utf8::encode_utf8("ProgramDerivedAddress"@)
}

/// True when an owner address ends in the derivation marker.
pub open spec fn ends_with_pda_marker(owner: Seq<u8>) -> bool {
    owner.len() >= pda_marker_bytes().len() && owner.subrange(
        owner.len() - pda_marker_bytes().len(),
        owner.len() as int,
    ) == pda_marker_bytes()
}

/// Relies on solana_program's `Pubkey::create_with_seed`: it hashes base,
/// seed text and owner into an address, rejecting a seed above 32 bytes
/// first and then an owner that ends in the derivation marker.
#[verifier::external_body]
pub(crate) fn create_with_seed_address(base: &Address, seed: &[u8], owner: &Address) -> (r: Result<Address, BridgeError>)
    requires
        valid_utf8(seed@),
    ensures
        seed@.len() <= 32 && !ends_with_pda_marker(owner@) ==> r is Ok && r->Ok_0@
            == derived_address(base@, seed@, owner@),
        seed@.len() > 32 ==> r is Err && r->Err_0 == BridgeError::MaxSeedLengthExceeded,
        seed@.len() <= 32 && ends_with_pda_marker(owner@) ==> r is Err && r->Err_0
            == BridgeError::IllegalOwner,
{
    let b = solana_program::pubkey::Pubkey::new_from_array(*base);
    let o = solana_program::pubkey::Pubkey::new_from_array(*owner);
    let s = core::str::from_utf8(seed).unwrap();
    match solana_program::pubkey::Pubkey::create_with_seed(&b, s, &o) {
        Ok(p) => Ok(p.to_bytes()),
        Err(solana_program::pubkey::PubkeyError::MaxSeedLengthExceeded) => Err(
            BridgeError::MaxSeedLengthExceeded,
        ),
        Err(_) => Err(BridgeError::IllegalOwner),
    }
}

/// Relies on solana_program's `Pubkey::try_find_program_address`: it returns
/// the first bump, counted down from 255, whose derivation is a valid
/// namespace authority, and nothing when no bump works; the result depends
/// on the seed and the program alone.
#[verifier::external_body]
pub(crate) fn try_find_authority(seed: &[u8], program_id: &Address) -> (r: Option<(Address, u8)>)
    ensures
        r is Some ==> pda_of(seed@, program_id@) == Some((r->Some_0.0@, r->Some_0.1)),
        r is None ==> pda_of(seed@, program_id@) is None,
{
    let p = solana_program::pubkey::Pubkey::new_from_array(*program_id);
    match solana_program::pubkey::Pubkey::try_find_program_address(&[seed], &p) {
        Some((a, bump)) => Some((a.to_bytes(), bump)),
        None => None,
    }
}

} // verus!
