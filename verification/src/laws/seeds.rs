//! The words that addresses derive from, and what a canonical address is.
use vstd::prelude::*;

use crate::cpi::{SeedTag, SignerSeeds};
use crate::state::bonding_curve_pool::BondingCurvePool;
use crate::state::buyback::BuybackState;
use crate::state::global_config::Deployment;
use crate::state::presale_pool::PresalePool;

verus! {

/// The bytes of the word `buyback`.
pub open spec fn buyback() -> Seq<u8> {
    seq![
        98u8, 117, 121, 98, 97, 99, 107,
    ]
}

/// The bytes of the word `bonding_sol_vault`.
pub open spec fn bonding_sol_vault() -> Seq<u8> {
    seq![
        98u8, 111, 110, 100, 105, 110, 103, 95, 115, 111, 108, 95, 118, 97, 117, 108, 116,
    ]
}

/// The bytes of the word `presale_sol_vault`.
pub open spec fn presale_sol_vault() -> Seq<u8> {
    seq![
        112u8, 114, 101, 115, 97, 108, 101, 95, 115, 111, 108, 95, 118, 97, 117, 108, 116,
    ]
}

/// The seeds are these words: a buyback state derives from "buyback", a bonding pool's SOL
/// vault from "bonding_sol_vault", a presale pool's from "presale_sol_vault", and a pool
/// from the word that it was deployed with.
pub proof fn law_words_of_the_seeds(deployment: Deployment)
    ensures
        BuybackState::SEED@ =~= buyback(),
        BondingCurvePool::SOL_VAULT_SEED@ =~= bonding_sol_vault(),
        PresalePool::SOL_VAULT_SEED@ =~= presale_sol_vault(),
        SeedTag::BondingSolVault.bytes(deployment) =~= bonding_sol_vault(),
        SeedTag::PresaleSolVault.bytes(deployment) =~= presale_sol_vault(),
        SeedTag::BondingPool.bytes(deployment) == deployment.pool_seed@,
        SeedTag::sol_vault_of(0) == SeedTag::BondingSolVault,
        forall|pool_type: u8|
            pool_type != 0 ==> SeedTag::sol_vault_of(pool_type) == SeedTag::PresaleSolVault,
{
}

/// The bytes of an address that may be missing are those of the address, with its bump
/// where it has one, and missing where it is; the bytes of a list of seeds are those of
/// each seed, in order.
pub proof fn law_keys_and_seeds_are_their_bytes(
    key: crate::pubkey::Pubkey,
    bump: u8,
    list: Seq<&[u8]>,
)
    ensures
        crate::pubkey::key_bytes(Some(key)) == Some(key@),
        crate::pubkey::key_bytes(None) is None,
        crate::pubkey::key_and_bump(Some((key, bump))) == Some((key@, bump)),
        crate::pubkey::key_and_bump(None) is None,
        key@.len() == 32,
        forall|i: int| 0 <= i < 32 ==> #[trigger] key@[i] == key.bytes[i],
        crate::pubkey::seed_bytes(list).len() == list.len(),
        forall|i: int|
            0 <= i < list.len() ==> #[trigger] crate::pubkey::seed_bytes(list)[i] == list[i]@,
{
}

/// The program signs with the tag's word, then the key, then the bump, for the address
/// that these give.
pub proof fn law_signer_seeds(signer: SignerSeeds, address: crate::pubkey::Pubkey, deployment: Deployment)
    ensures
        signer.seeds(deployment) =~= seq![
            signer.tag.bytes(deployment),
            signer.key@,
            seq![signer.bump],
        ],
        signer.sign_for(address, deployment) <==> crate::pubkey::program_address(
            seq![signer.tag.bytes(deployment), signer.key@, seq![signer.bump]],
            deployment.program_id@,
        ) == Some(address@),
{
    assert(signer.seeds(deployment) =~= seq![
        signer.tag.bytes(deployment),
        signer.key@,
        seq![signer.bump],
    ]);
}

/// The canonical address of some seeds is the one that the highest bump gives: the bump
/// is at least 1, it gives the address as the last seed, and no higher one gives any.
/// There is none exactly where no bump from 1 to 255 gives an address.
pub proof fn law_canonical_address_has_the_highest_bump(seeds: Seq<Seq<u8>>, program_id: Seq<u8>)
    ensures
        match crate::pubkey::canonical_address(seeds, program_id) {
            Some((key, bump)) => {
                &&& 1 <= bump
                &&& crate::pubkey::program_address(seeds.push(seq![bump]), program_id) == Some(key)
                &&& forall|higher: u8|
                    bump < higher ==> (#[trigger] crate::pubkey::program_address(
                        seeds.push(seq![higher]),
                        program_id,
                    )) is None
            },
            None => forall|bump: u8|
                1 <= bump ==> (#[trigger] crate::pubkey::program_address(
                    seeds.push(seq![bump]),
                    program_id,
                )) is None,
        },
{
    crate::pubkey::law_canonical_address(seeds, program_id);
    match crate::pubkey::canonical_address(seeds, program_id) {
        Some((_, bump)) => {
            assert forall|higher: u8| bump < higher implies (
            #[trigger] crate::pubkey::program_address(seeds.push(seq![higher]), program_id)) is None by {
                assert(crate::pubkey::bump_address(seeds, program_id, higher) is None);
            }
        },
        None => {
            assert forall|bump: u8| 1 <= bump implies (#[trigger] crate::pubkey::program_address(
                seeds.push(seq![bump]),
                program_id,
            )) is None by {
                assert(crate::pubkey::bump_address(seeds, program_id, bump) is None);
            }
        },
    }
}

} // verus!
