//! A Zecwallet Lite wallet, as far as a migration reads it.

use vstd::prelude::*;
use crate::identifiers::TxId;
use crate::wallet_tx::{Keys, WalletTxView, WalletTxns};

verus! {

#[verifier::external_type_specification]
#[verifier::external_body]
pub struct ExTreeState(zcash_client_backend::proto::service::TreeState);

/// A Zecwallet Lite wallet held in memory.
///
/// `verified_tree` is the state of the note commitment trees that the wallet
/// last checked against a server. It is carried as the server sent it: a
/// migration does not read it.
#[derive(Debug)]
pub struct ZwlWallet {
    pub version: u64,
    pub keys: Keys,
    pub transactions: WalletTxns,
    pub chain_name: String,
    pub birthday: u64,
    pub verified_tree: Option<zcash_client_backend::proto::service::TreeState>,
    pub remaining: usize,
}

pub struct ZwlWalletView {
    pub version: u64,
    pub seed: Seq<u8>,
    pub transactions: Seq<(TxId, WalletTxView)>,
    pub chain_name: Seq<char>,
    pub birthday: u64,
    pub verified_tree: Option<zcash_client_backend::proto::service::TreeState>,
    pub remaining: usize,
}

impl View for ZwlWallet {
    type V = ZwlWalletView;

    open spec fn view(&self) -> ZwlWalletView {
        ZwlWalletView {
            version: self.version,
            seed: self.keys.seed@,
            transactions: self.transactions@,
            chain_name: self.chain_name@,
            birthday: self.birthday,
            verified_tree: self.verified_tree,
            remaining: self.remaining,
        }
    }
}

impl ZwlWallet {
    pub fn new(
        version: u64,
        chain_name: String,
        transactions: WalletTxns,
        birthday: u64,
        verified_tree: Option<zcash_client_backend::proto::service::TreeState>,
        keys: Keys,
        remaining: usize,
    ) -> (wallet: ZwlWallet)
        ensures
            wallet.version == version,
            wallet.chain_name == chain_name,
            wallet.transactions == transactions,
            wallet.birthday == birthday,
            wallet.verified_tree == verified_tree,
            wallet.keys == keys,
            wallet.remaining == remaining,
    {
        ZwlWallet { version, chain_name, birthday, verified_tree, keys, transactions, remaining }
    }

    pub fn version(&self) -> (version: u64)
        ensures
            version == self.version,
    {
        self.version
    }

    pub fn chain_name(&self) -> (name: &str)
        ensures
            name@ == self.chain_name@,
    {
        self.chain_name.as_str()
    }

    pub fn birthday(&self) -> (birthday: u64)
        ensures
            birthday == self.birthday,
    {
        self.birthday
    }

    pub fn verified_tree(&self) -> (tree: &Option<zcash_client_backend::proto::service::TreeState>)
        ensures
            *tree == self.verified_tree,
    {
        &self.verified_tree
    }

    pub fn remaining(&self) -> (remaining: usize)
        ensures
            remaining == self.remaining,
    {
        self.remaining
    }
}

} // verus!
