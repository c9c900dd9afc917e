//! The wallet interchange model: the records that a migration hands out.
//!
//! Every field that a legacy wallet cannot supply is optional here, so that
//! it can be left unset instead of being filled with a made-up value.

use vstd::prelude::*;
use crate::amount::Amount;
use crate::identifiers::{TxId, U256};
use crate::tx_map::TxMap;

verus! {

/// The network that a wallet belongs to.
#[derive(Clone, Copy, Debug, PartialEq, Eq, Structural)]
pub enum Network {
    Main,
    Test,
    Regtest,
}

/// Whether a transaction has been mined.
#[derive(Clone, Copy, Debug, PartialEq, Eq, Structural)]
pub enum TransactionStatus {
    Pending,
    Confirmed,
}

/// A transparent input: the output it spends, the script that unlocks it and
/// its sequence number.
#[derive(Clone, Debug, PartialEq, Eq)]
pub struct TxIn {
    pub previous_txid: TxId,
    pub previous_index: u32,
    pub script_sig: Vec<u8>,
    pub sequence: u32,
}

pub struct TxInView {
    pub previous_txid: TxId,
    pub previous_index: u32,
    pub script_sig: Seq<u8>,
    pub sequence: u32,
}

impl View for TxIn {
    type V = TxInView;

    open spec fn view(&self) -> TxInView {
        TxInView {
            previous_txid: self.previous_txid,
            previous_index: self.previous_index,
            script_sig: self.script_sig@,
            sequence: self.sequence,
        }
    }
}

/// A transparent output: an amount and the script that locks it.
#[derive(Clone, Debug, PartialEq, Eq)]
pub struct TxOut {
    pub value: Amount,
    pub script_pubkey: Vec<u8>,
}

pub struct TxOutView {
    pub value: nat,
    pub script_pubkey: Seq<u8>,
}

impl View for TxOut {
    type V = TxOutView;

    open spec fn view(&self) -> TxOutView {
        TxOutView { value: self.value@, script_pubkey: self.script_pubkey@ }
    }
}

/// A Sapling spend. A legacy wallet knows neither the position of the spend
/// in its transaction nor the proof, so a migration leaves both unset.
#[derive(Clone, Debug, PartialEq, Eq)]
pub struct SaplingSpendDescription {
    pub spend_index: Option<u32>,
    pub value: Option<Amount>,
    pub anchor_height: Option<u32>,
    pub nullifier: U256,
    pub zkproof: Option<Vec<u8>>,
}

pub struct SaplingSpendView {
    pub spend_index: Option<u32>,
    pub value: Option<nat>,
    pub anchor_height: Option<u32>,
    pub nullifier: U256,
    pub zkproof: Option<Seq<u8>>,
}

/// The bytes of an optional byte string.
pub open spec fn optional_bytes(bytes: Option<Vec<u8>>) -> Option<Seq<u8>> {
    match bytes {
        Some(b) => Some(b@),
        None => None,
    }
}

/// The value of an optional amount.
pub open spec fn optional_amount(amount: Option<Amount>) -> Option<nat> {
    match amount {
        Some(a) => Some(a@),
        None => None,
    }
}

impl View for SaplingSpendDescription {
    type V = SaplingSpendView;

    open spec fn view(&self) -> SaplingSpendView {
        SaplingSpendView {
            spend_index: self.spend_index,
            value: optional_amount(self.value),
            anchor_height: self.anchor_height,
            nullifier: self.nullifier,
            zkproof: optional_bytes(self.zkproof),
        }
    }
}

/// A Sapling output. A legacy wallet keeps the note in the clear, so a
/// migration knows the commitment and the memo, and leaves unset the
/// position of the output in its transaction, the ephemeral key, the
/// ciphertext and the position of the commitment in the note commitment
/// tree.
#[derive(Clone, Debug, PartialEq, Eq)]
pub struct SaplingOutputDescription {
    pub output_index: Option<u32>,
    pub commitment: U256,
    pub ephemeral_key: Option<U256>,
    pub enc_ciphertext: Option<Vec<u8>>,
    pub memo: Option<Vec<u8>>,
    pub note_commitment_tree_position: Option<u64>,
}

pub struct SaplingOutputView {
    pub output_index: Option<u32>,
    pub commitment: U256,
    pub ephemeral_key: Option<U256>,
    pub enc_ciphertext: Option<Seq<u8>>,
    pub memo: Option<Seq<u8>>,
    pub note_commitment_tree_position: Option<u64>,
}

impl View for SaplingOutputDescription {
    type V = SaplingOutputView;

    open spec fn view(&self) -> SaplingOutputView {
        SaplingOutputView {
            output_index: self.output_index,
            commitment: self.commitment,
            ephemeral_key: self.ephemeral_key,
            enc_ciphertext: optional_bytes(self.enc_ciphertext),
            memo: optional_bytes(self.memo),
            note_commitment_tree_position: self.note_commitment_tree_position,
        }
    }
}

/// An Orchard action. A legacy wallet record holds nothing from which one
/// could be made.
#[derive(Clone, Copy, Debug, PartialEq, Eq)]
pub struct OrchardActionDescription {
    pub nullifier: U256,
    pub commitment: U256,
}

/// A Sprout join-split. A legacy wallet record holds nothing from which one
/// could be made.
#[derive(Clone, Copy, Debug, PartialEq, Eq)]
pub struct JoinSplitDescription {
    pub anchor: U256,
    pub nullifiers: [U256; 2],
    pub commitments: [U256; 2],
}

/// A transaction as the interchange model holds it.
///
/// `orchard_actions` and `sprout_joinsplits` are `None` where the source of
/// the transaction cannot tell whether it had any.
#[derive(Clone, Debug, PartialEq, Eq)]
pub struct Transaction {
    pub txid: TxId,
    pub status: TransactionStatus,
    pub timestamp: Option<u64>,
    pub inputs: Vec<TxIn>,
    pub outputs: Vec<TxOut>,
    pub sapling_spends: Vec<SaplingSpendDescription>,
    pub sapling_outputs: Vec<SaplingOutputDescription>,
    pub orchard_actions: Option<Vec<OrchardActionDescription>>,
    pub sprout_joinsplits: Option<Vec<JoinSplitDescription>>,
}

pub struct TransactionView {
    pub txid: TxId,
    pub status: TransactionStatus,
    pub timestamp: Option<u64>,
    pub inputs: Seq<TxInView>,
    pub outputs: Seq<TxOutView>,
    pub sapling_spends: Seq<SaplingSpendView>,
    pub sapling_outputs: Seq<SaplingOutputView>,
    pub orchard_actions: Option<Seq<OrchardActionDescription>>,
    pub sprout_joinsplits: Option<Seq<JoinSplitDescription>>,
}

impl View for Transaction {
    type V = TransactionView;

    open spec fn view(&self) -> TransactionView {
        TransactionView {
            txid: self.txid,
            status: self.status,
            timestamp: self.timestamp,
            inputs: self.inputs@.map_values(|i: TxIn| i@),
            outputs: self.outputs@.map_values(|o: TxOut| o@),
            sapling_spends: self.sapling_spends@.map_values(|s: SaplingSpendDescription| s@),
            sapling_outputs: self.sapling_outputs@.map_values(|o: SaplingOutputDescription| o@),
            orchard_actions: match self.orchard_actions {
                Some(actions) => Some(actions@),
                None => None,
            },
            sprout_joinsplits: match self.sprout_joinsplits {
                Some(joinsplits) => Some(joinsplits@),
                None => None,
            },
        }
    }
}

/// The secret from which a wallet derives its keys.
#[derive(Clone, Copy, Debug, PartialEq, Eq)]
pub enum SeedMaterial {
    /// A raw 32-byte seed, of the time before mnemonic phrases.
    PreBIP39Seed([u8; 32]),
}

pub enum SeedMaterialView {
    PreBIP39Seed(Seq<u8>),
}

impl View for SeedMaterial {
    type V = SeedMaterialView;

    open spec fn view(&self) -> SeedMaterialView {
        match self {
            SeedMaterial::PreBIP39Seed(bytes) => SeedMaterialView::PreBIP39Seed(bytes@),
        }
    }
}

/// One wallet of an interchange container.
#[derive(Clone, Copy, Debug, PartialEq, Eq)]
pub struct ZewifWallet {
    pub network: Network,
    pub seed_material: Option<SeedMaterial>,
}

pub struct ZewifWalletView {
    pub network: Network,
    pub seed_material: Option<SeedMaterialView>,
}

impl View for ZewifWallet {
    type V = ZewifWalletView;

    open spec fn view(&self) -> ZewifWalletView {
        ZewifWalletView {
            network: self.network,
            seed_material: match self.seed_material {
                Some(material) => Some(material@),
                None => None,
            },
        }
    }
}

impl ZewifWallet {
    /// A wallet on `network` with no seed.
    pub fn new(network: Network) -> (wallet: ZewifWallet)
        ensures
            wallet == (ZewifWallet { network, seed_material: None }),
    {
        ZewifWallet { network, seed_material: None }
    }

    pub fn set_seed_material(&mut self, seed_material: SeedMaterial)
        ensures
            *final(self) == (ZewifWallet {
                network: old(self).network,
                seed_material: Some(seed_material),
            }),
    {
        self.seed_material = Some(seed_material);
    }
}

/// An interchange container: wallets, and the transactions they share.
#[derive(Debug, PartialEq, Eq)]
pub struct ZewifTop {
    pub wallets: Vec<ZewifWallet>,
    pub transactions: TxMap<Transaction>,
}

pub struct ZewifTopView {
    pub wallets: Seq<ZewifWalletView>,
    pub transactions: Seq<(TxId, TransactionView)>,
}

/// The entries of a transaction map, each transaction as its view.
pub open spec fn transaction_views(entries: Seq<(TxId, Transaction)>) -> Seq<
    (TxId, TransactionView),
> {
    entries.map_values(|e: (TxId, Transaction)| (e.0, e.1@))
}

impl View for ZewifTop {
    type V = ZewifTopView;

    open spec fn view(&self) -> ZewifTopView {
        ZewifTopView {
            wallets: self.wallets@.map_values(|w: ZewifWallet| w@),
            transactions: transaction_views(self.transactions.entries()),
        }
    }
}

} // verus!
