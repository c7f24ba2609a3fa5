//! The custody authority scheme: deterministic derivation of the signer
//! capability that controls an escrow's vault.
//!
//! The capability is a pure function of a fixed seed prefix, the receipt's
//! address, the staked asset's identity and the program id. No credential is
//! ever stored: every operation that moves the escrowed asset reconstructs
//! the same derivation at call time.

use vstd::prelude::*;

use crate::ids::AccountId;

verus! {

/// A derived custody authority: the vault's signer address together with the
/// bump seed that completes its derivation.
#[derive(Clone, Copy, Debug)]
pub struct VaultAuthority {
    /// The derived signer address that owns the escrow vault.
    pub key: AccountId,
    /// The bump seed under which the derivation succeeded.
    pub bump: u8,
}

/// The address and bump seed that the program-address derivation assigns to
/// the seed triple (fixed vault prefix, receipt address, asset identity)
/// under the given program id, or `None` in the statistically improbable
/// event that no bump seed yields a valid address.
pub uninterp spec fn vault_authority_of(
    staking_account: Seq<u8>,
    staking_mint: Seq<u8>,
    program_id: Seq<u8>,
) -> Option<(Seq<u8>, u8)>;

/// Relies on `Pubkey::try_find_program_address` of `anchor_lang` (backed by
/// `solana_address`): the derivation hashes the seed slices — here the fixed
/// prefix `b"vault"`, the receipt address and the asset identity — with the
/// program id, trying bump seeds from high to low, and its outcome depends on
/// those arguments alone.
#[verifier::external_body]
fn find_vault_authority(
    staking_account: &AccountId,
    staking_mint: &AccountId,
    program_id: &AccountId,
) -> (r: Option<VaultAuthority>)
    ensures
        r matches Some(v) ==> vault_authority_of(staking_account@, staking_mint@, program_id@)
            == Some((v.key@, v.bump)),
        r is None ==> vault_authority_of(staking_account@, staking_mint@, program_id@) is None,
{
    let program = anchor_lang::prelude::Pubkey::new_from_array(program_id.bytes);
    let seeds: [&[u8]; 3] = [b"vault", &staking_account.bytes, &staking_mint.bytes];
    match anchor_lang::prelude::Pubkey::try_find_program_address(&seeds, &program) {
        Some((key, bump)) => Some(VaultAuthority { key: AccountId { bytes: key.to_bytes() }, bump }),
        None => None,
    }
}

/// Reconstructs the custody authority of the escrow vault that belongs to the
/// receipt at `staking_account` holding the asset `staking_mint`, under
/// `program_id`.
///
/// The result is deterministic: the same triple always yields the same
/// authority, which is how the state machine can control the vault without
/// storing any credential.
pub fn vault_authority(
    staking_account: &AccountId,
    staking_mint: &AccountId,
    program_id: &AccountId,
) -> (r: Option<VaultAuthority>)
    ensures
        r matches Some(v) ==> vault_authority_of(staking_account@, staking_mint@, program_id@)
            == Some((v.key@, v.bump)),
        r is None ==> vault_authority_of(staking_account@, staking_mint@, program_id@) is None,
{
    find_vault_authority(staking_account, staking_mint, program_id)
}

} // verus!
