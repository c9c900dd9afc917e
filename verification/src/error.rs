//! The ways in which a migration fails.

use vstd::prelude::*;
use crate::identifiers::TxId;

verus! {

/// The answer to every attempt to read a transparent output record as an
/// input: the record holds neither the output that the input would spend,
/// nor an unlocking script, nor a sequence number.
#[derive(Clone, Copy, Debug, PartialEq, Eq)]
pub struct UnrepresentableInput;

/// Why a wallet could not be migrated. A failed migration hands out no part
/// of a result.
#[derive(Clone, Debug, PartialEq, Eq)]
pub enum MigrationError {
    /// The seed has `length` bytes, not 32.
    InvalidSeedLength { length: usize },
    /// The wallet names a chain that no network stands for.
    UnsupportedChain { chain_name: String },
    /// A transparent output of the transaction `tx_id` has a value that no
    /// amount can hold.
    AmountOutOfRange { tx_id: TxId, value: u64 },
}

pub enum MigrationErrorView {
    InvalidSeedLength { length: usize },
    UnsupportedChain { chain_name: Seq<char> },
    AmountOutOfRange { tx_id: TxId, value: u64 },
}

impl View for MigrationError {
    type V = MigrationErrorView;

    open spec fn view(&self) -> MigrationErrorView {
        match self {
            MigrationError::InvalidSeedLength { length } => MigrationErrorView::InvalidSeedLength {
                length: *length,
            },
            MigrationError::UnsupportedChain { chain_name } => MigrationErrorView::UnsupportedChain {
                chain_name: chain_name@,
            },
            MigrationError::AmountOutOfRange { tx_id, value } => MigrationErrorView::AmountOutOfRange {
                tx_id: *tx_id,
                value: *value,
            },
        }
    }
}

} // verus!
