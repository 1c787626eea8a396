use vstd::prelude::*;

use crate::keys::AuthorityKey;
use crate::keys::VaultAddress;

verus! {

/// The namespace tag under which every vault address is derived:
/// the five bytes of "vault".
pub const VAULT_SEED: [u8; 5] = [118, 97, 117, 108, 116];

/// The fixed identity of the program that owns the derived vault addresses.
pub const PROGRAM_ID: [u8; 32] = [
    164, 230, 139, 114, 214, 201, 147, 8, 109, 164, 24, 184, 65, 33, 196, 110, 157, 95, 157, 4,
    210, 237, 141, 3, 242, 225, 190, 199, 6, 182, 5, 244,
];

/// What the outside derivation returns for a two-seed search: the derived
/// address and its bump, or nothing when no bump in the reserved search
/// space yields a valid address. The result depends on the three byte
/// strings alone.
pub uninterp spec fn pda_of(seed: Seq<u8>, key: Seq<u8>, program: Seq<u8>) -> Option<(Seq<u8>, u8)>;

/// Relies on Pubkey::try_find_program_address (re-exported by anchor_lang):
/// a pure search over SHA-256 digests of the seeds, a bump and the program
/// id, so its result is a function of the three arguments alone.
#[verifier::external_body]
fn find_pda(seed: &[u8], key: &[u8; 32], program: &[u8; 32]) -> (r: Option<([u8; 32], u8)>)
    ensures
        r matches Some(p) ==> pda_of(seed@, key@, program@) == Some((p.0@, p.1)),
        r is None ==> pda_of(seed@, key@, program@) is None,
{
    let program_id = anchor_lang::prelude::Pubkey::new_from_array(*program);
    match anchor_lang::prelude::Pubkey::try_find_program_address(&[seed, key], &program_id) {
        Some((addr, bump)) => Some((addr.to_bytes(), bump)),
        None => None,
    }
}

/// The canonical vault address of an owner key, with its bump, if any
/// bump in the search space yields one.
pub open spec fn vault_address_of(owner: Seq<u8>) -> Option<(Seq<u8>, u8)> {
    pda_of(VAULT_SEED@, owner, PROGRAM_ID@)
}

/// Whether `supplied` is the canonical vault address of `owner`.
pub open spec fn addr_matches(owner: Seq<u8>, supplied: Seq<u8>) -> bool {
    vault_address_of(owner) matches Some(p) && p.0 == supplied
}

/// Derives the canonical vault address of `owner`, together with the bump
/// that makes it valid. Returns `None` in the near-impossible event that no
/// bump in the reserved search space yields an address.
pub fn derive_vault_address(owner: &AuthorityKey) -> (r: Option<(VaultAddress, u8)>)
    ensures
        r matches Some(p) ==> vault_address_of(owner@) == Some((p.0@, p.1)),
        r is None ==> vault_address_of(owner@) is None,
{
    broadcast use vstd::array::group_array_axioms;

    match find_pda(VAULT_SEED.as_slice(), &owner.bytes, &PROGRAM_ID) {
        Some((addr, bump)) => Some((VaultAddress::new(addr), bump)),
        None => None,
    }
}

} // verus!
