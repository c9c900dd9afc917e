//! The Sapling side of a transaction: which notes it spent, and what each
//! note is known to have been.

use vstd::prelude::*;
use crate::bytes::copy_bytes;
use crate::identifiers::{bytes32_eq, U256};
use crate::interchange::{
    SaplingOutputDescription, SaplingOutputView, SaplingSpendDescription, SaplingSpendView,
};
use crate::wallet_tx::{note_views, SaplingNoteData, SaplingNoteView};

verus! {

/// Whether the transaction spent `note`: whether the nullifier of the note
/// is among the spent nullifiers.
pub open spec fn is_spent(note: SaplingNoteView, spent: Seq<[u8; 32]>) -> bool {
    spent.contains(note.nullifier)
}

/// The spend that a spent note stands for: its value, the height of its
/// witness cut to 32 bits, and its nullifier. Nothing else is known.
pub open spec fn spend_of_note(note: SaplingNoteView) -> SaplingSpendView {
    SaplingSpendView {
        spend_index: None,
        value: Some(note.value),
        anchor_height: Some((note.witness_height % 0x1_0000_0000) as u32),
        nullifier: U256 { bytes: note.nullifier },
        zkproof: None,
    }
}

/// The output that a note stands for: its commitment and its memo. Nothing
/// else is known.
pub open spec fn output_of_note(note: SaplingNoteView) -> SaplingOutputView {
    SaplingOutputView {
        output_index: None,
        commitment: U256 { bytes: note.cmu },
        ephemeral_key: None,
        enc_ciphertext: None,
        memo: note.memo,
        note_commitment_tree_position: None,
    }
}

/// The spends of a transaction: one for each note that it spent, in the
/// order of the notes.
pub open spec fn sapling_spends(notes: Seq<SaplingNoteView>, spent: Seq<[u8; 32]>) -> Seq<
    SaplingSpendView,
> {
    notes.filter(|n: SaplingNoteView| is_spent(n, spent)).map_values(
        |n: SaplingNoteView| spend_of_note(n),
    )
}

/// The Sapling outputs of a transaction: one for each note, spent or not, in
/// the order of the notes.
pub open spec fn sapling_outputs(notes: Seq<SaplingNoteView>) -> Seq<SaplingOutputView> {
    notes.map_values(|n: SaplingNoteView| output_of_note(n))
}

/// The views of Sapling spends, in order.
pub open spec fn spend_views(spends: Seq<SaplingSpendDescription>) -> Seq<SaplingSpendView> {
    spends.map_values(|s: SaplingSpendDescription| s@)
}

/// The views of Sapling outputs, in order.
pub open spec fn output_views(outputs: Seq<SaplingOutputDescription>) -> Seq<SaplingOutputView> {
    outputs.map_values(|o: SaplingOutputDescription| o@)
}

/// Filtering a sequence that ends in `last` filters what stands before it,
/// and keeps `last` if the predicate holds of it.
pub proof fn lemma_filter_push<A>(s: Seq<A>, last: A, pred: spec_fn(A) -> bool)
    ensures
        s.push(last).filter(pred) == if pred(last) {
            s.filter(pred).push(last)
        } else {
            s.filter(pred)
        },
{
    reveal(Seq::filter);
    assert(s.push(last).drop_last() =~= s);
}

/// Whether `nullifier` is among the nullifiers `spent`.
pub fn nullifier_is_spent(nullifier: &[u8; 32], spent: &Vec<[u8; 32]>) -> (found: bool)
    ensures
        found == spent@.contains(*nullifier),
{
    let mut i: usize = 0;
    while i < spent.len()
        invariant
            i <= spent@.len(),
            forall|k: int| 0 <= k < i ==> spent@[k] != *nullifier,
        decreases spent@.len() - i,
    {
        if bytes32_eq(&spent[i], nullifier) {
            return true;
        }
        i += 1;
    }
    false
}

/// The spend that a spent note stands for.
pub fn spend_from_note(note: &SaplingNoteData) -> (spend: SaplingSpendDescription)
    ensures
        spend@ == spend_of_note(note@),
{
    SaplingSpendDescription {
        spend_index: None,
        value: Some(note.value),
        anchor_height: Some((note.witness_height % 0x1_0000_0000) as u32),
        nullifier: U256::from_bytes_via_hex(&note.nullifier),
        zkproof: None,
    }
}

/// The output that a note stands for.
pub fn output_from_note(note: &SaplingNoteData) -> (output: SaplingOutputDescription)
    ensures
        output@ == output_of_note(note@),
{
    let memo = match &note.memo {
        Some(bytes) => Some(copy_bytes(bytes)),
        None => None,
    };
    SaplingOutputDescription {
        output_index: None,
        commitment: U256::from_bytes_via_hex(&note.cmu),
        ephemeral_key: None,
        enc_ciphertext: None,
        memo,
        note_commitment_tree_position: None,
    }
}

/// The Sapling side of a transaction: a spend for each note whose nullifier
/// is among `spent`, and an output for each note, spent or not. Both keep
/// the order of the notes.
pub fn reconcile_sapling_notes(notes: &Vec<SaplingNoteData>, spent: &Vec<[u8; 32]>) -> (reconciled: (
    Vec<SaplingSpendDescription>,
    Vec<SaplingOutputDescription>,
))
    ensures
        spend_views(reconciled.0@) == sapling_spends(note_views(notes@), spent@),
        output_views(reconciled.1@) == sapling_outputs(note_views(notes@)),
{
    let ghost views = note_views(notes@);
    let ghost spent_here = |n: SaplingNoteView| is_spent(n, spent@);
    let mut spends: Vec<SaplingSpendDescription> = Vec::new();
    let mut i: usize = 0;
    proof {
        reveal(Seq::filter);
        assert(views.take(0).filter(spent_here) =~= Seq::<SaplingNoteView>::empty());
        assert(spend_views(spends@) =~= sapling_spends(views.take(0), spent@));
    }
    while i < notes.len()
        invariant
            i <= notes@.len(),
            views == note_views(notes@),
            spend_views(spends@) == sapling_spends(views.take(i as int), spent@),
        decreases notes@.len() - i,
    {
        let note = &notes[i];
        proof {
            assert(views[i as int] == note@);
            assert(views.take(i + 1) =~= views.take(i as int).push(note@));
            lemma_filter_push(views.take(i as int), note@, |n: SaplingNoteView| is_spent(n, spent@));
        }
        if nullifier_is_spent(&note.nullifier, spent) {
            let ghost before = spends@;
            spends.push(spend_from_note(note));
            assert(spend_views(spends@) =~= spend_views(before).push(spend_of_note(note@)));
            assert(sapling_spends(views.take(i + 1), spent@) =~= sapling_spends(
                views.take(i as int),
                spent@,
            ).push(spend_of_note(note@)));
        }
        i += 1;
    }
    assert(views.take(notes@.len() as int) =~= views);
    let mut outputs: Vec<SaplingOutputDescription> = Vec::new();
    let mut j: usize = 0;
    while j < notes.len()
        invariant
            j <= notes@.len(),
            views == note_views(notes@),
            outputs@.len() == j,
            forall|k: int| 0 <= k < j ==> (#[trigger] outputs@[k])@ == output_of_note(views[k]),
        decreases notes@.len() - j,
    {
        assert(views[j as int] == notes@[j as int]@);
        outputs.push(output_from_note(&notes[j]));
        j += 1;
    }
    assert(output_views(outputs@) =~= sapling_outputs(views));
    (spends, outputs)
}

/// How many of the notes before position `i` the transaction spent: the
/// position, among the spends, of the spend that note `i` gives rise to.
pub open spec fn spent_before(notes: Seq<SaplingNoteView>, spent: Seq<[u8; 32]>, i: int) -> nat {
    notes.take(i).filter(|n: SaplingNoteView| is_spent(n, spent)).len()
}

/// A note whose nullifier is among the spent ones gives rise to both a
/// spend, with its value, the height of its witness and its nullifier, and
/// an output, with its commitment and its memo.
pub proof fn lemma_spent_note_has_spend_and_output(
    notes: Seq<SaplingNoteView>,
    spent: Seq<[u8; 32]>,
    i: int,
)
    requires
        0 <= i < notes.len(),
        is_spent(notes[i], spent),
    ensures
        spent_before(notes, spent, i) < sapling_spends(notes, spent).len(),
        sapling_spends(notes, spent)[spent_before(notes, spent, i) as int] == spend_of_note(
            notes[i],
        ),
        sapling_outputs(notes)[i] == output_of_note(notes[i]),
{
    let pred = |n: SaplingNoteView| is_spent(n, spent);
    let head = notes.take(i);
    let tail = notes.skip(i + 1);
    assert(notes =~= head.push(notes[i]) + tail);
    lemma_filter_push(head, notes[i], pred);
    Seq::filter_distributes_over_add(head.push(notes[i]), tail, pred);
    assert(notes.filter(pred) == head.filter(pred).push(notes[i]) + tail.filter(pred));
}

/// A note whose nullifier is not among the spent ones gives rise to an
/// output and to no spend: no spend of the transaction has its nullifier.
pub proof fn lemma_unspent_note_has_only_output(
    notes: Seq<SaplingNoteView>,
    spent: Seq<[u8; 32]>,
    i: int,
)
    requires
        0 <= i < notes.len(),
        !is_spent(notes[i], spent),
    ensures
        sapling_outputs(notes)[i] == output_of_note(notes[i]),
        forall|k: int|
            0 <= k < sapling_spends(notes, spent).len() ==> (#[trigger] sapling_spends(
                notes,
                spent,
            )[k]).nullifier.bytes != notes[i].nullifier,
{
    let pred = |n: SaplingNoteView| is_spent(n, spent);
    assert forall|k: int| 0 <= k < sapling_spends(notes, spent).len() implies (
    #[trigger] sapling_spends(notes, spent)[k]).nullifier.bytes != notes[i].nullifier by {
        notes.lemma_filter_pred(pred, k);
        assert(pred(notes.filter(pred)[k]));
    }
}

/// Every spend of a transaction comes from one of its notes whose nullifier
/// is among the spent ones, and there are as many spends as such notes.
pub proof fn lemma_every_spend_has_a_spent_note(
    notes: Seq<SaplingNoteView>,
    spent: Seq<[u8; 32]>,
    k: int,
)
    requires
        0 <= k < sapling_spends(notes, spent).len(),
    ensures
        sapling_spends(notes, spent).len() == spent_before(notes, spent, notes.len() as int),
        exists|i: int|
            0 <= i < notes.len() && is_spent(#[trigger] notes[i], spent) && sapling_spends(
                notes,
                spent,
            )[k] == spend_of_note(notes[i]),
{
    let pred = |n: SaplingNoteView| is_spent(n, spent);
    assert(notes.take(notes.len() as int) =~= notes);
    notes.lemma_filter_pred(pred, k);
    let note = notes.filter(pred)[k];
    assert(notes.filter(pred).contains(note));
    notes.lemma_filter_contains_rev(pred, note);
    let i = choose|i: int| 0 <= i < notes.len() && notes[i] == note;
    assert(is_spent(notes[i], spent));
}

} // verus!
