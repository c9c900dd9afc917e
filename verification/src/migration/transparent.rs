//! The transparent side of a transaction: what a transparent output record
//! can be read as.

use vstd::prelude::*;
use crate::amount::{Amount, AmountOutOfRange};
use crate::bytes::copy_bytes;
use crate::error::UnrepresentableInput;
use crate::interchange::{TxIn, TxOut, TxOutView};
use crate::wallet_tx::{utxo_views, Utxo, UtxoView};

verus! {

/// The output that a transparent output record stands for: its value, and
/// its script byte for byte.
pub open spec fn output_of_utxo(utxo: UtxoView) -> TxOutView {
    TxOutView { value: utxo.value as nat, script_pubkey: utxo.script }
}

/// What reading a transparent output record as an output yields.
pub open spec fn utxo_as_output(utxo: UtxoView) -> Result<TxOutView, AmountOutOfRange> {
    if Amount::representable(utxo.value) {
        Ok(output_of_utxo(utxo))
    } else {
        Err(AmountOutOfRange { value: utxo.value })
    }
}

/// Whether the record at `i` is the first of `utxos` whose value no amount
/// can hold.
pub open spec fn rejects_at(utxos: Seq<UtxoView>, i: int) -> bool {
    &&& 0 <= i < utxos.len()
    &&& !Amount::representable(utxos[i].value)
    &&& forall|j: int| 0 <= j < i ==> Amount::representable((#[trigger] utxos[j]).value)
}

/// The transparent outputs of a transaction: one for each record, in order;
/// or the value of the first record that cannot be read as an output.
pub open spec fn transparent_outputs(utxos: Seq<UtxoView>) -> Result<
    Seq<TxOutView>,
    AmountOutOfRange,
> {
    if exists|i: int| rejects_at(utxos, i) {
        Err(AmountOutOfRange { value: utxos[choose|i: int| rejects_at(utxos, i)].value })
    } else {
        Ok(utxos.map_values(|u: UtxoView| output_of_utxo(u)))
    }
}

/// The views of transparent outputs, in order.
pub open spec fn tx_out_views(outputs: Seq<TxOut>) -> Seq<TxOutView> {
    outputs.map_values(|o: TxOut| o@)
}

impl TryFrom<&Utxo> for TxIn {
    type Error = UnrepresentableInput;

    /// Always fails: an input needs the output that it spends, an unlocking
    /// script and a sequence number, and the record has none of them.
    fn try_from(utxo: &Utxo) -> (converted: Result<TxIn, UnrepresentableInput>)
        ensures
            converted is Err,
    {
        Err(UnrepresentableInput)
    }
}

impl vstd::std_specs::convert::TryFromSpecImpl<&Utxo> for TxIn {
    open spec fn obeys_try_from_spec() -> bool {
        true
    }

    open spec fn try_from_spec(utxo: &Utxo) -> Result<TxIn, UnrepresentableInput> {
        Err(UnrepresentableInput)
    }
}

impl TryFrom<&Utxo> for TxOut {
    type Error = AmountOutOfRange;

    /// The output with the value and the script of the record, unless no
    /// amount can hold the value.
    fn try_from(utxo: &Utxo) -> (converted: Result<TxOut, AmountOutOfRange>)
        ensures
            match converted {
                Ok(output) => utxo_as_output(utxo@) == Ok::<TxOutView, AmountOutOfRange>(output@),
                Err(e) => utxo_as_output(utxo@) == Err::<TxOutView, AmountOutOfRange>(e),
            },
    {
        match Amount::from_u64(utxo.value) {
            Ok(value) => Ok(TxOut { value, script_pubkey: copy_bytes(&utxo.script) }),
            Err(e) => Err(e),
        }
    }
}

/// `try_from` states what it yields in its own contract, over views: the
/// output that it makes is known by its bytes only, so no value can be
/// written down here that it would be equal to.
impl vstd::std_specs::convert::TryFromSpecImpl<&Utxo> for TxOut {
    open spec fn obeys_try_from_spec() -> bool {
        false
    }

    open spec fn try_from_spec(utxo: &Utxo) -> Result<TxOut, AmountOutOfRange> {
        Err(AmountOutOfRange { value: utxo.value })
    }
}

/// The transparent inputs of a transaction: every record is tried as an
/// input, none can be read as one, and so there are none.
pub fn convert_transparent_inputs(utxos: &Vec<Utxo>) -> (inputs: Vec<TxIn>)
    ensures
        inputs@.len() == 0,
{
    let mut inputs: Vec<TxIn> = Vec::new();
    let mut i: usize = 0;
    while i < utxos.len()
        invariant
            i <= utxos@.len(),
            inputs@.len() == 0,
        decreases utxos@.len() - i,
    {
        match TxIn::try_from(&utxos[i]) {
            Ok(input) => inputs.push(input),
            Err(_) => {},
        }
        i += 1;
    }
    inputs
}

/// The transparent outputs of a transaction: every record as an output, in
/// order, unless some record has a value that no amount can hold; then the
/// first such value is reported.
pub fn convert_transparent_outputs(utxos: &Vec<Utxo>) -> (converted: Result<
    Vec<TxOut>,
    AmountOutOfRange,
>)
    ensures
        match converted {
            Ok(outputs) => transparent_outputs(utxo_views(utxos@)) == Ok::<
                Seq<TxOutView>,
                AmountOutOfRange,
            >(tx_out_views(outputs@)),
            Err(e) => transparent_outputs(utxo_views(utxos@)) == Err::<
                Seq<TxOutView>,
                AmountOutOfRange,
            >(e),
        },
{
    let ghost views = utxo_views(utxos@);
    let mut outputs: Vec<TxOut> = Vec::new();
    let mut i: usize = 0;
    while i < utxos.len()
        invariant
            i <= utxos@.len(),
            views == utxo_views(utxos@),
            outputs@.len() == i,
            forall|k: int| 0 <= k < i ==> Amount::representable((#[trigger] views[k]).value),
            forall|k: int| 0 <= k < i ==> (#[trigger] outputs@[k])@ == output_of_utxo(views[k]),
        decreases utxos@.len() - i,
    {
        assert(views[i as int] == utxos@[i as int]@);
        match TxOut::try_from(&utxos[i]) {
            Ok(output) => outputs.push(output),
            Err(e) => {
                proof {
                    assert(rejects_at(views, i as int));
                    let first = choose|k: int| rejects_at(views, k);
                    assert(first == i) by {
                        if first < i {
                            assert(Amount::representable(views[first].value));
                        }
                        if i < first {
                            assert(Amount::representable(views[i as int].value));
                        }
                    }
                }
                return Err(e);
            },
        }
        i += 1;
    }
    proof {
        assert forall|k: int| !rejects_at(views, k) by {
            if 0 <= k < views.len() {
                assert(Amount::representable(views[k].value));
            }
        }
        assert(tx_out_views(outputs@) =~= views.map_values(|u: UtxoView| output_of_utxo(u)));
    }
    Ok(outputs)
}

/// A record whose value an amount can hold is read as exactly one output,
/// with that value and with the script of the record byte for byte.
pub proof fn lemma_representable_record_is_one_output(utxo: UtxoView)
    requires
        Amount::representable(utxo.value),
    ensures
        utxo_as_output(utxo) == Ok::<TxOutView, AmountOutOfRange>(
            TxOutView { value: utxo.value as nat, script_pubkey: utxo.script },
        ),
{
}

/// Where some record has a value that no amount can hold, one of the
/// records is the first such.
pub proof fn lemma_first_rejection(utxos: Seq<UtxoView>, j: int)
    requires
        0 <= j < utxos.len(),
        !Amount::representable(utxos[j].value),
    ensures
        exists|i: int| 0 <= i <= j && rejects_at(utxos, i),
    decreases j,
{
    if exists|k: int| 0 <= k < j && !Amount::representable((#[trigger] utxos[k]).value) {
        let k = choose|k: int| 0 <= k < j && !Amount::representable((#[trigger] utxos[k]).value);
        lemma_first_rejection(utxos, k);
    } else {
        assert(rejects_at(utxos, j));
    }
}

/// The transparent outputs of a transaction exist exactly where an amount
/// can hold the value of every record; there is then one output for each
/// record, in order, with the value and the script of its record.
pub proof fn lemma_transparent_outputs(utxos: Seq<UtxoView>)
    ensures
        transparent_outputs(utxos) is Ok <==> forall|i: int|
            0 <= i < utxos.len() ==> Amount::representable((#[trigger] utxos[i]).value),
        transparent_outputs(utxos) matches Ok(outputs) ==> {
            &&& outputs.len() == utxos.len()
            &&& forall|i: int|
                0 <= i < utxos.len() ==> {
                    &&& (#[trigger] outputs[i]).value == utxos[i].value
                    &&& outputs[i].script_pubkey == utxos[i].script
                }
        },
        transparent_outputs(utxos) matches Err(e) ==> exists|i: int|
            rejects_at(utxos, i) && e.value == utxos[i].value,
{
    if exists|i: int| rejects_at(utxos, i) {
        let first = choose|i: int| rejects_at(utxos, i);
        assert(!Amount::representable(utxos[first].value));
    } else {
        assert forall|i: int| 0 <= i < utxos.len() implies Amount::representable(
            (#[trigger] utxos[i]).value,
        ) by {
            if !Amount::representable(utxos[i].value) {
                lemma_first_rejection(utxos, i);
            }
        }
    }
}

} // verus!
