//! Migration of a Zecwallet Lite wallet, held in memory, into the Zcash
//! wallet interchange model.
//!
//! The wallet records less than the interchange model can hold: no raw
//! transactions, no proofs, no ciphertexts, no positions. A migration
//! carries over what the wallet knows and leaves every other field unset.

pub mod amount;
pub mod bytes;
pub mod error;
pub mod hex_codec;
pub mod identifiers;
pub mod interchange;
pub mod migration;
pub mod tx_map;
pub mod wallet_tx;
pub mod zwl_wallet;

pub use crate::amount::{Amount, AmountOutOfRange, MAX_MONEY};
pub use crate::error::{MigrationError, UnrepresentableInput};
pub use crate::identifiers::{ParseU256Error, TxId, U256};
pub use crate::interchange::{
    JoinSplitDescription, Network, OrchardActionDescription, SaplingOutputDescription,
    SaplingSpendDescription, SeedMaterial, Transaction, TransactionStatus, TxIn, TxOut, ZewifTop,
    ZewifWallet,
};
pub use crate::migration::migrate::{migrate_to_zewif, network_for_chain};
pub use crate::migration::sapling::reconcile_sapling_notes;
pub use crate::migration::seed::convert_seed_material;
pub use crate::migration::transaction::{convert_transaction, convert_transactions};
pub use crate::tx_map::TxMap;
pub use crate::wallet_tx::{Keys, SaplingNoteData, Utxo, WalletTx, WalletTxns};
pub use crate::zwl_wallet::ZwlWallet;
