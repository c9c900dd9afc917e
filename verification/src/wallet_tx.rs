//! The records of a Zecwallet Lite wallet that a migration reads.

use vstd::prelude::*;
use crate::amount::Amount;
use crate::identifiers::TxId;
use crate::interchange::optional_bytes;
use crate::tx_map::TxMap;

verus! {

/// A transparent output as the wallet recorded it: a value and the script
/// that locks it. `spent` names the transaction that later spent it, if the
/// wallet saw one. The record holds nothing of where the output came from:
/// no previous output, no unlocking script, no sequence number.
#[derive(Clone, Debug, PartialEq, Eq)]
pub struct Utxo {
    pub value: u64,
    pub script: Vec<u8>,
    pub spent: Option<TxId>,
}

pub struct UtxoView {
    pub value: u64,
    pub script: Seq<u8>,
    pub spent: Option<TxId>,
}

impl View for Utxo {
    type V = UtxoView;

    open spec fn view(&self) -> UtxoView {
        UtxoView { value: self.value, script: self.script@, spent: self.spent }
    }
}

/// A Sapling note as the wallet recorded it, in the clear: its value, its
/// commitment, its nullifier, the memo that came with it, and the height of
/// the newest witness the wallet kept for it.
#[derive(Clone, Debug, PartialEq, Eq)]
pub struct SaplingNoteData {
    pub value: Amount,
    pub cmu: [u8; 32],
    pub nullifier: [u8; 32],
    pub memo: Option<Vec<u8>>,
    pub witness_height: u64,
}

pub struct SaplingNoteView {
    pub value: nat,
    pub cmu: [u8; 32],
    pub nullifier: [u8; 32],
    pub memo: Option<Seq<u8>>,
    pub witness_height: u64,
}

impl View for SaplingNoteData {
    type V = SaplingNoteView;

    open spec fn view(&self) -> SaplingNoteView {
        SaplingNoteView {
            value: self.value@,
            cmu: self.cmu,
            nullifier: self.nullifier,
            memo: optional_bytes(self.memo),
            witness_height: self.witness_height,
        }
    }
}

/// What the wallet recorded of one transaction. `datetime` is in seconds
/// since the epoch, and 0 where the wallet has no time for the transaction.
/// `s_spent_nullifiers` holds the nullifiers that the wallet saw this
/// transaction spend.
#[derive(Clone, Debug, PartialEq, Eq)]
pub struct WalletTx {
    pub unconfirmed: bool,
    pub datetime: u64,
    pub utxos: Vec<Utxo>,
    pub s_notes: Vec<SaplingNoteData>,
    pub s_spent_nullifiers: Vec<[u8; 32]>,
}

pub struct WalletTxView {
    pub unconfirmed: bool,
    pub datetime: u64,
    pub utxos: Seq<UtxoView>,
    pub s_notes: Seq<SaplingNoteView>,
    pub s_spent_nullifiers: Seq<[u8; 32]>,
}

/// The views of transparent output records, in order.
pub open spec fn utxo_views(utxos: Seq<Utxo>) -> Seq<UtxoView> {
    utxos.map_values(|u: Utxo| u@)
}

/// The views of note records, in order.
pub open spec fn note_views(notes: Seq<SaplingNoteData>) -> Seq<SaplingNoteView> {
    notes.map_values(|n: SaplingNoteData| n@)
}

impl View for WalletTx {
    type V = WalletTxView;

    open spec fn view(&self) -> WalletTxView {
        WalletTxView {
            unconfirmed: self.unconfirmed,
            datetime: self.datetime,
            utxos: utxo_views(self.utxos@),
            s_notes: note_views(self.s_notes@),
            s_spent_nullifiers: self.s_spent_nullifiers@,
        }
    }
}

/// The transactions of a wallet, keyed by identifier.
#[derive(Debug, PartialEq, Eq)]
pub struct WalletTxns {
    pub current: TxMap<WalletTx>,
}

/// The entries of a wallet's transaction map, each record as its view.
pub open spec fn wallet_tx_views(entries: Seq<(TxId, WalletTx)>) -> Seq<(TxId, WalletTxView)> {
    entries.map_values(|e: (TxId, WalletTx)| (e.0, e.1@))
}

impl View for WalletTxns {
    type V = Seq<(TxId, WalletTxView)>;

    open spec fn view(&self) -> Seq<(TxId, WalletTxView)> {
        wallet_tx_views(self.current.entries())
    }
}

/// The key material of a wallet, as far as a migration reads it: the seed.
#[derive(Clone, Debug, PartialEq, Eq)]
pub struct Keys {
    pub seed: Vec<u8>,
}

} // verus!
