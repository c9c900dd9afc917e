//! Migration of one recorded transaction, and of all of a wallet's.

use vstd::prelude::*;
use crate::error::{MigrationError, MigrationErrorView};
use crate::identifiers::TxId;
use crate::interchange::{
    transaction_views, Transaction, TransactionStatus, TransactionView, TxInView,
};
use crate::amount::Amount;
use crate::migration::sapling::{
    is_spent, lemma_spent_note_has_spend_and_output, lemma_unspent_note_has_only_output,
    output_of_note, output_views, reconcile_sapling_notes, sapling_outputs, sapling_spends,
    spend_of_note, spend_views, spent_before,
};
use crate::migration::transparent::{
    convert_transparent_inputs, convert_transparent_outputs, lemma_transparent_outputs,
    transparent_outputs, tx_out_views,
};
use crate::tx_map::{distinct_keys, TxMap};
use crate::wallet_tx::{wallet_tx_views, WalletTx, WalletTxView};
use crate::zwl_wallet::ZwlWallet;

verus! {

/// The status of a transaction that the wallet holds as unconfirmed or not.
pub open spec fn status_of(unconfirmed: bool) -> TransactionStatus {
    if unconfirmed {
        TransactionStatus::Pending
    } else {
        TransactionStatus::Confirmed
    }
}

/// The time of a transaction: the wallet writes 0 where it has none.
pub open spec fn timestamp_of(datetime: u64) -> Option<u64> {
    if datetime > 0 {
        Some(datetime)
    } else {
        None
    }
}

/// The migrated form of the transaction `tx` with the identifier `tx_id`, or
/// the reason why it has none.
pub open spec fn migrated_transaction(tx_id: TxId, tx: WalletTxView) -> Result<
    TransactionView,
    MigrationErrorView,
> {
    match transparent_outputs(tx.utxos) {
        Err(e) => Err(MigrationErrorView::AmountOutOfRange { tx_id, value: e.value }),
        Ok(outputs) => Ok(
            TransactionView {
                txid: tx_id,
                status: status_of(tx.unconfirmed),
                timestamp: timestamp_of(tx.datetime),
                inputs: Seq::empty(),
                outputs,
                sapling_spends: sapling_spends(tx.s_notes, tx.s_spent_nullifiers),
                sapling_outputs: sapling_outputs(tx.s_notes),
                orchard_actions: None,
                sprout_joinsplits: None,
            },
        ),
    }
}

/// Whether the transaction at `i` is the first of `transactions` that
/// cannot be migrated.
pub open spec fn fails_at(transactions: Seq<(TxId, WalletTxView)>, i: int) -> bool {
    &&& 0 <= i < transactions.len()
    &&& migrated_transaction(transactions[i].0, transactions[i].1) is Err
    &&& forall|j: int|
        0 <= j < i ==> migrated_transaction((#[trigger] transactions[j]).0, transactions[j].1) is Ok
}

/// The migrated forms of the transactions of a wallet, each under the
/// identifier of its record and in the order of the records; or the reason
/// why the first transaction that cannot be migrated has none.
pub open spec fn migrated_transactions(transactions: Seq<(TxId, WalletTxView)>) -> Result<
    Seq<(TxId, TransactionView)>,
    MigrationErrorView,
> {
    if exists|i: int| fails_at(transactions, i) {
        let first = choose|i: int| fails_at(transactions, i);
        Err(migrated_transaction(transactions[first].0, transactions[first].1)->Err_0)
    } else {
        Ok(
            transactions.map_values(
                |e: (TxId, WalletTxView)| (e.0, migrated_transaction(e.0, e.1)->Ok_0),
            ),
        )
    }
}

/// Migrates the transaction `tx` that the wallet holds under `tx_id`.
///
/// The result has the status and the time of the record, no transparent
/// input, one transparent output for each transparent output record, one
/// Sapling spend for each note that the transaction spent and one Sapling
/// output for each note. It fails only where a transparent output record has
/// a value that no amount can hold, and then names `tx_id` and the first
/// such value.
pub fn convert_transaction(tx_id: TxId, tx: &WalletTx) -> (converted: Result<
    Transaction,
    MigrationError,
>)
    ensures
        match converted {
            Ok(transaction) => migrated_transaction(tx_id, tx@) == Ok::<
                TransactionView,
                MigrationErrorView,
            >(transaction@),
            Err(e) => migrated_transaction(tx_id, tx@) == Err::<
                TransactionView,
                MigrationErrorView,
            >(e@),
        },
{
    let status = if tx.unconfirmed {
        TransactionStatus::Pending
    } else {
        TransactionStatus::Confirmed
    };
    let timestamp = if tx.datetime > 0 {
        Some(tx.datetime)
    } else {
        None
    };
    let inputs = convert_transparent_inputs(&tx.utxos);
    let outputs = match convert_transparent_outputs(&tx.utxos) {
        Ok(outputs) => outputs,
        Err(e) => {
            return Err(MigrationError::AmountOutOfRange { tx_id, value: e.value });
        },
    };
    let (sapling_spends, sapling_outputs) = reconcile_sapling_notes(
        &tx.s_notes,
        &tx.s_spent_nullifiers,
    );
    let transaction = Transaction {
        txid: tx_id,
        status,
        timestamp,
        inputs,
        outputs,
        sapling_spends,
        sapling_outputs,
        orchard_actions: None,
        sprout_joinsplits: None,
    };
    proof {
        assert(transaction@.inputs =~= Seq::<TxInView>::empty());
        assert(transaction@.outputs =~= tx_out_views(transaction.outputs@));
        assert(transaction@.sapling_spends =~= spend_views(transaction.sapling_spends@));
        assert(transaction@.sapling_outputs =~= output_views(transaction.sapling_outputs@));
    }
    Ok(transaction)
}

/// Migrates every transaction of `wallet`, in the order in which the wallet
/// holds them. The first transaction that cannot be migrated ends the
/// migration, and its failure is the result.
pub fn convert_transactions(wallet: &ZwlWallet) -> (converted: Result<
    TxMap<Transaction>,
    MigrationError,
>)
    ensures
        match converted {
            Ok(transactions) => migrated_transactions(wallet@.transactions) == Ok::<
                Seq<(TxId, TransactionView)>,
                MigrationErrorView,
            >(transaction_views(transactions.entries())),
            Err(e) => migrated_transactions(wallet@.transactions) == Err::<
                Seq<(TxId, TransactionView)>,
                MigrationErrorView,
            >(e@),
        },
{
    let source = &wallet.transactions.current;
    let ghost views = wallet@.transactions;
    let mut transactions: TxMap<Transaction> = TxMap::new();
    let count = source.len();
    let mut i: usize = 0;
    while i < count
        invariant
            i <= count,
            count == source.entries().len(),
            distinct_keys(source.entries()),
            views == wallet@.transactions,
            views == wallet_tx_views(source.entries()),
            transactions.entries().len() == i,
            forall|k: int|
                0 <= k < i ==> (#[trigger] transactions.entries()[k]).0 == source.entries()[k].0,
            forall|k: int|
                0 <= k < i ==> migrated_transaction((#[trigger] views[k]).0, views[k].1) == Ok::<
                    TransactionView,
                    MigrationErrorView,
                >(transactions.entries()[k].1@),
        decreases count - i,
    {
        let tx_id = source.key_at(i);
        let tx = source.value_at(i);
        assert(views[i as int] == (tx_id, tx@));
        match convert_transaction(tx_id, tx) {
            Err(e) => {
                proof {
                    assert(fails_at(views, i as int));
                    let first = choose|k: int| fails_at(views, k);
                    assert(first == i) by {
                        if first < i {
                            assert(migrated_transaction(views[first].0, views[first].1) is Ok);
                        }
                        if i < first {
                            assert(migrated_transaction(views[i as int].0, views[i as int].1) is Ok);
                        }
                    }
                }
                return Err(e);
            },
            Ok(transaction) => {
                let ghost before = transactions.entries();
                proof {
                    assert forall|k: int| 0 <= k < before.len() implies (#[trigger] before[k]).0
                        != tx_id by {
                        assert(source.entries()[k].0 != source.entries()[i as int].0);
                    }
                }
                let former = transactions.insert(tx_id, transaction);
                assert(former is None);
                assert(transactions.entries() == before.push((tx_id, transaction)));
            },
        }
        i += 1;
    }
    proof {
        assert forall|k: int| !fails_at(views, k) by {
            if 0 <= k < views.len() {
                assert(migrated_transaction(views[k].0, views[k].1) is Ok);
            }
        }
        assert(transaction_views(transactions.entries()) =~= views.map_values(
            |e: (TxId, WalletTxView)| (e.0, migrated_transaction(e.0, e.1)->Ok_0),
        ));
    }
    Ok(transactions)
}

/// No migrated transaction has a transparent input, whatever the wallet
/// recorded of it.
pub proof fn lemma_no_transparent_inputs(tx_id: TxId, tx: WalletTxView)
    ensures
        migrated_transaction(tx_id, tx) matches Ok(transaction) ==> transaction.inputs.len() == 0,
{
}

/// A transaction migrates exactly where an amount can hold the value of
/// each of its transparent output records. The migrated transaction then
/// keeps the identifier, has the status and the time of the record, and one
/// transparent output for each transparent output record, in order, with
/// the value and the script of its record. One that does not migrate fails
/// with its identifier and the first value that could not be held.
pub proof fn lemma_migrated_transaction(tx_id: TxId, tx: WalletTxView)
    ensures
        migrated_transaction(tx_id, tx) is Ok <==> forall|i: int|
            0 <= i < tx.utxos.len() ==> Amount::representable((#[trigger] tx.utxos[i]).value),
        migrated_transaction(tx_id, tx) matches Ok(transaction) ==> {
            &&& transaction.txid == tx_id
            &&& transaction.status == status_of(tx.unconfirmed)
            &&& transaction.timestamp == timestamp_of(tx.datetime)
            &&& transaction.outputs.len() == tx.utxos.len()
            &&& forall|i: int|
                0 <= i < tx.utxos.len() ==> {
                    &&& (#[trigger] transaction.outputs[i]).value == tx.utxos[i].value
                    &&& transaction.outputs[i].script_pubkey == tx.utxos[i].script
                }
            &&& transaction.sapling_outputs.len() == tx.s_notes.len()
        },
        migrated_transaction(tx_id, tx) matches Err(e) ==> exists|i: int|
            0 <= i < tx.utxos.len() && !Amount::representable((#[trigger] tx.utxos[i]).value) && e
                == (MigrationErrorView::AmountOutOfRange { tx_id, value: tx.utxos[i].value }),
{
    lemma_transparent_outputs(tx.utxos);
    if transparent_outputs(tx.utxos) is Err {
        let i = choose|i: int|
            crate::migration::transparent::rejects_at(tx.utxos, i) && transparent_outputs(
                tx.utxos,
            )->Err_0.value == tx.utxos[i].value;
        assert(!Amount::representable(tx.utxos[i].value));
    }
}

/// In a migrated transaction, a note whose nullifier the transaction spent
/// stands both among the spends and among the Sapling outputs.
pub proof fn lemma_spent_note_in_transaction(tx_id: TxId, tx: WalletTxView, i: int)
    requires
        migrated_transaction(tx_id, tx) is Ok,
        0 <= i < tx.s_notes.len(),
        is_spent(tx.s_notes[i], tx.s_spent_nullifiers),
    ensures
        ({
            let transaction = migrated_transaction(tx_id, tx)->Ok_0;
            let k = spent_before(tx.s_notes, tx.s_spent_nullifiers, i) as int;
            &&& k < transaction.sapling_spends.len()
            &&& transaction.sapling_spends[k] == spend_of_note(tx.s_notes[i])
            &&& transaction.sapling_outputs[i] == output_of_note(tx.s_notes[i])
        }),
{
    lemma_spent_note_has_spend_and_output(tx.s_notes, tx.s_spent_nullifiers, i);
}

/// In a migrated transaction, a note whose nullifier the transaction did not
/// spend stands among the Sapling outputs, and no spend has its nullifier.
pub proof fn lemma_unspent_note_in_transaction(tx_id: TxId, tx: WalletTxView, i: int)
    requires
        migrated_transaction(tx_id, tx) is Ok,
        0 <= i < tx.s_notes.len(),
        !is_spent(tx.s_notes[i], tx.s_spent_nullifiers),
    ensures
        ({
            let transaction = migrated_transaction(tx_id, tx)->Ok_0;
            &&& transaction.sapling_outputs[i] == output_of_note(tx.s_notes[i])
            &&& forall|k: int|
                0 <= k < transaction.sapling_spends.len() ==> (
                #[trigger] transaction.sapling_spends[k]).nullifier.bytes
                    != tx.s_notes[i].nullifier
        }),
{
    lemma_unspent_note_has_only_output(tx.s_notes, tx.s_spent_nullifiers, i);
}

/// Where some transaction cannot be migrated, one of the transactions is
/// the first such.
pub proof fn lemma_first_failure(transactions: Seq<(TxId, WalletTxView)>, j: int)
    requires
        0 <= j < transactions.len(),
        migrated_transaction(transactions[j].0, transactions[j].1) is Err,
    ensures
        exists|i: int| 0 <= i <= j && fails_at(transactions, i),
    decreases j,
{
    if exists|k: int|
        0 <= k < j && migrated_transaction((#[trigger] transactions[k]).0, transactions[k].1) is Err {
        let k = choose|k: int|
            0 <= k < j && migrated_transaction((#[trigger] transactions[k]).0, transactions[k].1)
                is Err;
        lemma_first_failure(transactions, k);
    } else {
        assert(fails_at(transactions, j));
    }
}

/// The transactions of a wallet migrate all or none: all exactly where each
/// of them migrates, and then each stands under its own identifier, at the
/// position of its record; none where one of them fails, and then the
/// failure of the first such is reported.
pub proof fn lemma_migrated_transactions(transactions: Seq<(TxId, WalletTxView)>)
    ensures
        migrated_transactions(transactions) is Ok <==> forall|i: int|
            0 <= i < transactions.len() ==> migrated_transaction(
                (#[trigger] transactions[i]).0,
                transactions[i].1,
            ) is Ok,
        migrated_transactions(transactions) matches Ok(migrated) ==> {
            &&& migrated.len() == transactions.len()
            &&& forall|i: int|
                0 <= i < transactions.len() ==> {
                    &&& (#[trigger] migrated[i]).0 == transactions[i].0
                    &&& migrated_transaction(transactions[i].0, transactions[i].1) == Ok::<
                        TransactionView,
                        MigrationErrorView,
                    >(migrated[i].1)
                }
        },
        migrated_transactions(transactions) matches Err(e) ==> exists|i: int|
            fails_at(transactions, i) && migrated_transaction(
                transactions[i].0,
                transactions[i].1,
            ) == Err::<TransactionView, MigrationErrorView>(e),
{
    if exists|i: int| fails_at(transactions, i) {
        let first = choose|i: int| fails_at(transactions, i);
        assert(migrated_transaction(transactions[first].0, transactions[first].1) is Err);
    } else {
        assert forall|i: int| 0 <= i < transactions.len() implies migrated_transaction(
            (#[trigger] transactions[i]).0,
            transactions[i].1,
        ) is Ok by {
            if migrated_transaction(transactions[i].0, transactions[i].1) is Err {
                lemma_first_failure(transactions, i);
            }
        }
    }
}

} // verus!
