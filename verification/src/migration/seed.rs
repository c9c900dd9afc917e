//! Migration of the wallet's seed.

use vstd::prelude::*;
use crate::error::{MigrationError, MigrationErrorView};
use crate::interchange::{SeedMaterial, SeedMaterialView};
use crate::zwl_wallet::ZwlWallet;

verus! {

/// The seed material that a wallet with the seed `seed` migrates to: the
/// same 32 bytes. A seed of another length has none.
pub open spec fn seed_material_of(seed: Seq<u8>) -> Result<
    Option<SeedMaterialView>,
    MigrationErrorView,
> {
    if seed.len() == 32 {
        Ok(Some(SeedMaterialView::PreBIP39Seed(seed)))
    } else {
        Err(MigrationErrorView::InvalidSeedLength { length: seed.len() as usize })
    }
}

/// The seed of `wallet` as seed material of the interchange model. Fails
/// exactly where the seed is not 32 bytes long.
pub fn convert_seed_material(wallet: &ZwlWallet) -> (converted: Result<
    Option<SeedMaterial>,
    MigrationError,
>)
    ensures
        match converted {
            Ok(Some(material)) => seed_material_of(wallet@.seed) == Ok::<
                Option<SeedMaterialView>,
                MigrationErrorView,
            >(Some(material@)),
            Ok(None) => false,
            Err(e) => seed_material_of(wallet@.seed) == Err::<
                Option<SeedMaterialView>,
                MigrationErrorView,
            >(e@),
        },
{
    let seed = &wallet.keys.seed;
    if seed.len() != 32 {
        return Err(MigrationError::InvalidSeedLength { length: seed.len() });
    }
    let mut bytes = [0u8; 32];
    let mut i: usize = 0;
    while i < 32
        invariant
            i <= 32,
            seed@.len() == 32,
            forall|k: int| 0 <= k < i ==> bytes[k] == seed@[k],
        decreases 32 - i,
    {
        bytes[i] = seed[i];
        i += 1;
    }
    assert(bytes@ =~= seed@);
    Ok(Some(SeedMaterial::PreBIP39Seed(bytes)))
}

} // verus!
