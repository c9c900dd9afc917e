//! Migration of a whole wallet.

use vstd::prelude::*;
use crate::error::{MigrationError, MigrationErrorView};
use crate::interchange::{
    Network, SeedMaterialView, TransactionView, ZewifTop, ZewifTopView, ZewifWallet,
    ZewifWalletView,
};
use crate::migration::seed::{convert_seed_material, seed_material_of};
use crate::migration::transaction::{
    convert_transactions, lemma_migrated_transactions, lemma_no_transparent_inputs,
    migrated_transaction, migrated_transactions,
};
use crate::zwl_wallet::{ZwlWallet, ZwlWalletView};

verus! {

/// The network that a chain name stands for, if any. Names are matched to
/// the letter.
pub open spec fn network_of(chain_name: Seq<char>) -> Option<Network> {
    if chain_name == "zs"@ || chain_name == "mainnet"@ || chain_name == "main"@ {
        Some(Network::Main)
    } else if chain_name == "testnet"@ {
        Some(Network::Test)
    } else if chain_name == "regtest"@ {
        Some(Network::Regtest)
    } else {
        None
    }
}

/// The interchange container that `wallet` migrates to, or the reason why it
/// has none. The seed is looked at first, then the chain name, then the
/// transactions in their order; the first failure is the one reported.
pub open spec fn migrated_wallet(wallet: ZwlWalletView) -> Result<ZewifTopView, MigrationErrorView> {
    match seed_material_of(wallet.seed) {
        Err(e) => Err(e),
        Ok(seed_material) => match network_of(wallet.chain_name) {
            None => Err(MigrationErrorView::UnsupportedChain { chain_name: wallet.chain_name }),
            Some(network) => match migrated_transactions(wallet.transactions) {
                Err(e) => Err(e),
                Ok(transactions) => Ok(
                    ZewifTopView {
                        wallets: seq![ZewifWalletView { network, seed_material }],
                        transactions,
                    },
                ),
            },
        },
    }
}

/// What a migration ended in, as seen from outside: the view of the
/// container, or the view of the failure.
pub open spec fn outcome_view(outcome: Result<ZewifTop, MigrationError>) -> Result<
    ZewifTopView,
    MigrationErrorView,
> {
    match outcome {
        Ok(top) => Ok(top@),
        Err(e) => Err(e@),
    }
}

/// The network that the chain name `chain_name` stands for, if any.
pub fn network_for_chain(chain_name: &String) -> (network: Option<Network>)
    ensures
        network == network_of(chain_name@),
{
    if *chain_name == "zs".to_owned() || *chain_name == "mainnet".to_owned() || *chain_name
        == "main".to_owned() {
        Some(Network::Main)
    } else if *chain_name == "testnet".to_owned() {
        Some(Network::Test)
    } else if *chain_name == "regtest".to_owned() {
        Some(Network::Regtest)
    } else {
        None
    }
}

/// Migrates a Zecwallet Lite wallet to the interchange model.
///
/// The result holds one wallet, on the network that the chain name stands
/// for and with the seed of `wallet`, and the migrated form of every
/// transaction of `wallet` under its identifier. Nothing is handed out
/// where the seed, the chain name or a transaction cannot be migrated.
pub fn migrate_to_zewif(wallet: &ZwlWallet) -> (migrated: Result<ZewifTop, MigrationError>)
    ensures
        outcome_view(migrated) == migrated_wallet(wallet@),
{
    let seed_material = match convert_seed_material(wallet) {
        Ok(seed_material) => seed_material,
        Err(e) => {
            return Err(e);
        },
    };
    let network = match network_for_chain(&wallet.chain_name) {
        Some(network) => network,
        None => {
            return Err(MigrationError::UnsupportedChain { chain_name: wallet.chain_name.clone() });
        },
    };
    let mut zewif_wallet = ZewifWallet::new(network);
    if let Some(seed_material) = seed_material {
        zewif_wallet.set_seed_material(seed_material);
    }
    let transactions = match convert_transactions(wallet) {
        Ok(transactions) => transactions,
        Err(e) => {
            return Err(e);
        },
    };
    let mut wallets: Vec<ZewifWallet> = Vec::new();
    wallets.push(zewif_wallet);
    let top = ZewifTop { wallets, transactions };
    proof {
        assert(top@.wallets =~= seq![zewif_wallet@]);
    }
    Ok(top)
}

/// Whether `chain_name` is one of the five names that stand for a network.
pub open spec fn is_known_chain(chain_name: Seq<char>) -> bool {
    ||| chain_name == "zs"@
    ||| chain_name == "mainnet"@
    ||| chain_name == "main"@
    ||| chain_name == "testnet"@
    ||| chain_name == "regtest"@
}

/// A wallet migrates exactly where its seed has 32 bytes, its chain name is
/// one of the five known ones and each of its transactions migrates. The
/// container then holds one wallet, on the network of the chain name and
/// with the seed, and the migrated form of each transaction under its
/// identifier, at the position of its record.
pub proof fn lemma_migrated_wallet(wallet: ZwlWalletView)
    ensures
        migrated_wallet(wallet) is Ok <==> {
            &&& wallet.seed.len() == 32
            &&& is_known_chain(wallet.chain_name)
            &&& forall|i: int|
                0 <= i < wallet.transactions.len() ==> migrated_transaction(
                    (#[trigger] wallet.transactions[i]).0,
                    wallet.transactions[i].1,
                ) is Ok
        },
        migrated_wallet(wallet) matches Ok(top) ==> {
            &&& top.wallets.len() == 1
            &&& Some(top.wallets[0].network) == network_of(wallet.chain_name)
            &&& top.wallets[0].seed_material == Some(SeedMaterialView::PreBIP39Seed(wallet.seed))
            &&& top.transactions.len() == wallet.transactions.len()
            &&& forall|i: int|
                0 <= i < wallet.transactions.len() ==> {
                    &&& (#[trigger] top.transactions[i]).0 == wallet.transactions[i].0
                    &&& migrated_transaction(
                        wallet.transactions[i].0,
                        wallet.transactions[i].1,
                    ) == Ok::<TransactionView, MigrationErrorView>(top.transactions[i].1)
                }
        },
{
    lemma_migrated_transactions(wallet.transactions);
}

/// A migrated wallet carries the seed of its source: the same 32 bytes.
pub proof fn lemma_seed_round_trips(wallet: ZwlWalletView)
    requires
        wallet.seed.len() == 32,
    ensures
        seed_material_of(wallet.seed) == Ok::<Option<SeedMaterialView>, MigrationErrorView>(
            Some(SeedMaterialView::PreBIP39Seed(wallet.seed)),
        ),
        migrated_wallet(wallet) matches Ok(top) ==> {
            &&& top.wallets.len() == 1
            &&& top.wallets[0].seed_material == Some(SeedMaterialView::PreBIP39Seed(wallet.seed))
        },
{
}

/// A wallet with a seed of 32 bytes and a chain name that is none of the
/// five known ones does not migrate, whatever its transactions are: the
/// failure names the chain name, and no transaction has a part in it.
pub proof fn lemma_unknown_chain_is_refused(wallet: ZwlWalletView)
    requires
        wallet.seed.len() == 32,
        !is_known_chain(wallet.chain_name),
    ensures
        migrated_wallet(wallet) == Err::<ZewifTopView, MigrationErrorView>(
            MigrationErrorView::UnsupportedChain { chain_name: wallet.chain_name },
        ),
{
}

/// The network of a chain name: `Some` exactly for the five known names.
pub proof fn lemma_network_of_known_chain(chain_name: Seq<char>)
    ensures
        network_of(chain_name) is Some <==> is_known_chain(chain_name),
{
}

/// No transaction of a migrated wallet has a transparent input.
pub proof fn lemma_no_transparent_inputs_in_wallet(wallet: ZwlWalletView, i: int)
    requires
        migrated_wallet(wallet) is Ok,
        0 <= i < migrated_wallet(wallet)->Ok_0.transactions.len(),
    ensures
        migrated_wallet(wallet)->Ok_0.transactions[i].1.inputs.len() == 0,
{
    lemma_migrated_transactions(wallet.transactions);
    lemma_no_transparent_inputs(wallet.transactions[i].0, wallet.transactions[i].1);
}

/// Migration has no memory: two migrations of wallets that look the same
/// end the same, in the same container or in the same failure.
pub proof fn lemma_migration_is_deterministic(
    wallet: ZwlWallet,
    again: ZwlWallet,
    first: Result<ZewifTop, MigrationError>,
    second: Result<ZewifTop, MigrationError>,
)
    requires
        wallet@ == again@,
        outcome_view(first) == migrated_wallet(wallet@),
        outcome_view(second) == migrated_wallet(again@),
    ensures
        outcome_view(first) == outcome_view(second),
{
}

} // verus!
