//! The rules of a drain transaction: it spends every output of the wallet
//! that can be spent, pays one output to the destination, and what it does
//! not pay is its fee.
//!
//! The backend builds the transaction. What it built is read back as plain
//! values and held against these rules before anything is signed.

use crate::backend::MAX_MONEY;
use crate::balance::{bucket, bucket_of, Bucket};
use crate::error::WalletError;
use crate::ledger::{
    input_views, outpoint_equal, output_views, utxo_views, Outpoint, OutpointView, TxInput,
    TxInputView, TxOutput, TxOutputView, Utxo, UtxoView,
};
use crate::text::bytes_equal;
use vstd::prelude::*;

verus! {

/// The least sequence number that does not signal replace-by-fee.
pub const RBF_LIMIT: u32 = 0xFFFF_FFFE;

/// The sum of the values that the inputs record.
pub open spec fn spent_value(inputs: Seq<TxInputView>) -> nat
    decreases inputs.len(),
{
    if inputs.len() == 0 {
        0
    } else {
        spent_value(inputs.drop_last()) + (match inputs.last().value {
            Some(value) => value as nat,
            None => 0,
        })
    }
}

/// Whether an output can be spent, seen from a chain of the given height:
/// every output but that of a coinbase transaction which is not mature. A
/// wallet that was never synchronised knows no height and takes every output
/// for one that can be spent.
pub open spec fn spendable(output: UtxoView, tip: Option<u32>) -> bool {
    match tip {
        Some(height) => !output.coinbase || bucket_of(output, height) == Bucket::Confirmed,
        None => true,
    }
}

/// Whether an input spends an output of the wallet that can be spent, and
/// records that output's value and script.
pub open spec fn owned(input: TxInputView, utxos: Seq<UtxoView>, tip: Option<u32>) -> bool {
    exists|k: int|
        0 <= k < utxos.len() && (#[trigger] utxos[k]).outpoint == input.outpoint && input.value
            == Some(utxos[k].value) && input.script == Some(utxos[k].script) && spendable(
            utxos[k],
            tip,
        )
}

/// Whether every input records the value and the script of the output that
/// it spends.
pub open spec fn all_recorded(inputs: Seq<TxInputView>) -> bool {
    forall|i: int|
        0 <= i < inputs.len() ==> (#[trigger] inputs[i]).value is Some && inputs[i].script is Some
}

/// Whether every input spends an output of the wallet that can be spent.
pub open spec fn all_owned(inputs: Seq<TxInputView>, utxos: Seq<UtxoView>, tip: Option<u32>) -> bool {
    forall|i: int| 0 <= i < inputs.len() ==> owned(#[trigger] inputs[i], utxos, tip)
}

/// Whether an input spends the output at an outpoint.
pub open spec fn spends(inputs: Seq<TxInputView>, outpoint: OutpointView) -> bool {
    exists|i: int| 0 <= i < inputs.len() && (#[trigger] inputs[i]).outpoint == outpoint
}

/// Whether the inputs leave nothing behind: every output of the wallet that
/// can be spent is spent.
pub open spec fn all_spent(inputs: Seq<TxInputView>, utxos: Seq<UtxoView>, tip: Option<u32>) -> bool {
    forall|k: int|
        0 <= k < utxos.len() && spendable(#[trigger] utxos[k], tip) ==> spends(
            inputs,
            utxos[k].outpoint,
        )
}

/// Whether every input signals that the transaction may be replaced by one
/// that pays a higher fee.
pub open spec fn all_signal_rbf(inputs: Seq<TxInputView>) -> bool {
    forall|i: int| 0 <= i < inputs.len() ==> (#[trigger] inputs[i]).sequence < RBF_LIMIT
}

/// Whether no output is spent twice.
pub open spec fn distinct(inputs: Seq<TxInputView>) -> bool {
    forall|i: int, j: int|
        0 <= i < j < inputs.len() ==> (#[trigger] inputs[i]).outpoint != (
        #[trigger] inputs[j]).outpoint
}

/// Whether the transaction has one output, and that output pays the
/// destination.
pub open spec fn pays_only(outputs: Seq<TxOutputView>, destination: Seq<u8>) -> bool {
    outputs.len() == 1 && outputs[0].script == destination
}

/// A drain transaction as plain values.
pub struct DrainView {
    pub inputs: Seq<TxInputView>,
    pub output: TxOutputView,
    pub fee: u64,
}

/// What is made of a transaction that the backend built for a wallet with
/// the given outputs and tip, a destination script and that script's dust
/// limit.
///
/// - Without inputs there was nothing to spend.
/// - A transaction that pays anything but one output to the destination,
///   that has an input which does not signal replace-by-fee or does not
///   spend, at its value and with its script, an output of the wallet that
///   can be spent, that
///   spends an output twice, or that leaves behind an output that can be
///   spent, is not the transaction that was asked for.
/// - Inputs worth more than all the money there is are a fault of the chain
///   data.
/// - An output above what the inputs hold, or below the dust limit, means
///   that the funds do not suffice.
/// - Else the transaction stands, and its fee is what the inputs hold above
///   the output.
pub open spec fn drain_plan(
    inputs: Seq<TxInputView>,
    outputs: Seq<TxOutputView>,
    utxos: Seq<UtxoView>,
    tip: Option<u32>,
    destination: Seq<u8>,
    dust: u64,
) -> Result<DrainView, WalletError> {
    if inputs.len() == 0 {
        Err(WalletError::NoSpendableOutputs)
    } else if !pays_only(outputs, destination) || !all_signal_rbf(inputs) || !all_owned(
        inputs,
        utxos,
        tip,
    ) || !distinct(inputs) || !all_spent(inputs, utxos, tip) {
        Err(WalletError::DescriptorError)
    } else if spent_value(inputs) > MAX_MONEY {
        Err(WalletError::ChainClientError)
    } else if spent_value(inputs) < outputs[0].value || outputs[0].value < dust {
        Err(WalletError::InsufficientFunds)
    } else {
        Ok(
            DrainView {
                inputs,
                output: outputs[0],
                fee: (spent_value(inputs) - outputs[0].value) as u64,
            },
        )
    }
}

/// Whether plain values are a drain transaction of a wallet with the given
/// outputs and tip.
pub open spec fn is_drain(drain: DrainView, utxos: Seq<UtxoView>, tip: Option<u32>) -> bool {
    &&& drain.inputs.len() > 0
    &&& all_signal_rbf(drain.inputs)
    &&& all_recorded(drain.inputs)
    &&& all_owned(drain.inputs, utxos, tip)
    &&& all_spent(drain.inputs, utxos, tip)
    &&& distinct(drain.inputs)
    &&& spent_value(drain.inputs) <= MAX_MONEY
    &&& spent_value(drain.inputs) == drain.output.value + drain.fee
}

/// A transaction that stands conserves value: what its inputs hold is what
/// its output carries and its fee, to the satoshi. It spends the outputs of
/// the wallet that can be spent, all of them and each once, pays the
/// destination alone, and can be replaced.
pub proof fn lemma_drain_conserves_value(
    inputs: Seq<TxInputView>,
    outputs: Seq<TxOutputView>,
    utxos: Seq<UtxoView>,
    tip: Option<u32>,
    destination: Seq<u8>,
    dust: u64,
)
    ensures
        drain_plan(inputs, outputs, utxos, tip, destination, dust) matches Ok(drain) ==> {
            &&& spent_value(drain.inputs) == drain.output.value + drain.fee
            &&& drain.inputs == inputs
            &&& outputs == seq![drain.output]
            &&& drain.output.script == destination
            &&& drain.output.value >= dust
            &&& is_drain(drain, utxos, tip)
        },
{
}

/// A transaction without inputs is refused because nothing can be spent. A
/// transaction in order whose inputs hold less than the dust limit and the
/// fee it would pay is refused for want of funds, whatever that fee is.
pub proof fn lemma_drain_needs_funds(
    inputs: Seq<TxInputView>,
    outputs: Seq<TxOutputView>,
    utxos: Seq<UtxoView>,
    tip: Option<u32>,
    destination: Seq<u8>,
    dust: u64,
    fee: nat,
)
    ensures
        inputs.len() == 0 ==> drain_plan(inputs, outputs, utxos, tip, destination, dust) == Err::<
            DrainView,
            WalletError,
        >(WalletError::NoSpendableOutputs),
        inputs.len() > 0 && pays_only(outputs, destination) && all_signal_rbf(inputs) && all_owned(
            inputs,
            utxos,
            tip,
        ) && distinct(inputs) && all_spent(inputs, utxos, tip) && spent_value(inputs) <= MAX_MONEY
            && outputs[0].value + fee == spent_value(inputs) && spent_value(inputs) < dust + fee
            ==> drain_plan(inputs, outputs, utxos, tip, destination, dust) == Err::<
            DrainView,
            WalletError,
        >(WalletError::InsufficientFunds),
{
}

/// More inputs hold at least as much.
proof fn lemma_spent_value_grows(inputs: Seq<TxInputView>, shorter: int, longer: int)
    requires
        0 <= shorter <= longer <= inputs.len(),
    ensures
        spent_value(inputs.take(shorter)) <= spent_value(inputs.take(longer)),
    decreases longer - shorter,
{
    if shorter < longer {
        lemma_spent_value_grows(inputs, shorter, longer - 1);
        assert(inputs.take(longer).drop_last() =~= inputs.take(longer - 1));
    }
}

/// One more input adds the value it records.
proof fn lemma_spent_value_step(inputs: Seq<TxInputView>, count: int)
    requires
        0 <= count < inputs.len(),
    ensures
        spent_value(inputs.take(count + 1)) == spent_value(inputs.take(count)) + (
        match inputs[count].value {
            Some(value) => value as nat,
            None => 0,
        }),
{
    assert(inputs.take(count + 1).drop_last() =~= inputs.take(count));
}

/// Whether an output can be spent, seen from a chain of the given height.
pub fn is_spendable(output: &Utxo, tip: Option<u32>) -> (free: bool)
    ensures
        free == spendable(output@, tip),
{
    match tip {
        Some(height) => !output.coinbase || bucket(output, height) == Bucket::Confirmed,
        None => true,
    }
}

/// Whether an input spends an output of the wallet that can be spent, and
/// records its value.
pub fn is_owned(input: &TxInput, utxos: &Vec<Utxo>, tip: Option<u32>) -> (found: bool)
    ensures
        found == owned(input@, utxo_views(utxos@), tip),
{
    let value: u64 = match input.value {
        Some(value) => value,
        None => {
            return false;
        },
    };
    let script = match &input.script {
        Some(script) => script,
        None => {
            return false;
        },
    };
    let ghost views = utxo_views(utxos@);
    let mut k: usize = 0;
    while k < utxos.len()
        invariant
            k <= utxos.len(),
            views == utxo_views(utxos@),
            input.value == Some(value),
            input.script == Some(*script),
            forall|m: int|
                0 <= m < k ==> !((#[trigger] views[m]).outpoint == input@.outpoint && input@.value
                    == Some(views[m].value) && input@.script == Some(views[m].script)
                    && spendable(views[m], tip)),
        decreases utxos.len() - k,
    {
        assert(views[k as int] == utxos@[k as int]@);
        if utxos[k].value == value && outpoint_equal(&utxos[k].outpoint, &input.outpoint)
            && bytes_equal(utxos[k].script.as_slice(), script.as_slice()) && is_spendable(
            &utxos[k],
            tip,
        ) {
            return true;
        }
        k += 1;
    }
    false
}

/// Whether an input spends the output at an outpoint.
pub fn is_spent(inputs: &Vec<TxInput>, outpoint: &Outpoint) -> (found: bool)
    ensures
        found == spends(input_views(inputs@), outpoint@),
{
    let ghost views = input_views(inputs@);
    let mut i: usize = 0;
    while i < inputs.len()
        invariant
            i <= inputs.len(),
            views == input_views(inputs@),
            forall|m: int| 0 <= m < i ==> (#[trigger] views[m]).outpoint != outpoint@,
        decreases inputs.len() - i,
    {
        assert(views[i as int] == inputs@[i as int]@);
        if outpoint_equal(&inputs[i].outpoint, outpoint) {
            return true;
        }
        i += 1;
    }
    false
}

/// Whether the inputs leave nothing behind that can be spent.
pub fn is_all_spent(inputs: &Vec<TxInput>, utxos: &Vec<Utxo>, tip: Option<u32>) -> (all: bool)
    ensures
        all == all_spent(input_views(inputs@), utxo_views(utxos@), tip),
{
    let ghost views = utxo_views(utxos@);
    let mut k: usize = 0;
    while k < utxos.len()
        invariant
            k <= utxos.len(),
            views == utxo_views(utxos@),
            forall|m: int|
                0 <= m < k && spendable(#[trigger] views[m], tip) ==> spends(
                    input_views(inputs@),
                    views[m].outpoint,
                ),
        decreases utxos.len() - k,
    {
        assert(views[k as int] == utxos@[k as int]@);
        if is_spendable(&utxos[k], tip) && !is_spent(inputs, &utxos[k].outpoint) {
            return false;
        }
        k += 1;
    }
    true
}

/// Whether an earlier input spends the same output as the input at a
/// position.
fn spent_before(inputs: &Vec<TxInput>, position: usize) -> (found: bool)
    requires
        position < inputs.len(),
    ensures
        found == exists|j: int|
            0 <= j < position && (#[trigger] input_views(inputs@)[j]).outpoint == input_views(
                inputs@,
            )[position as int].outpoint,
{
    let ghost views = input_views(inputs@);
    let mut j: usize = 0;
    while j < position
        invariant
            j <= position < inputs.len(),
            views == input_views(inputs@),
            forall|m: int|
                0 <= m < j ==> (#[trigger] views[m]).outpoint != views[position as int].outpoint,
        decreases position - j,
    {
        assert(views[j as int] == inputs@[j as int]@);
        if outpoint_equal(&inputs[j].outpoint, &inputs[position].outpoint) {
            return true;
        }
        j += 1;
    }
    false
}

/// A drain transaction that was held against the rules.
#[derive(Debug)]
pub struct DrainSummary {
    inputs: Vec<TxInput>,
    output: TxOutput,
    fee: u64,
}

impl View for DrainSummary {
    type V = DrainView;

    closed spec fn view(&self) -> DrainView {
        DrainView { inputs: input_views(self.inputs@), output: self.output@, fee: self.fee }
    }
}

impl DrainSummary {
    /// The inputs hold what the output carries and the fee, and no more
    /// than all the money there is.
    #[verifier::type_invariant]
    closed spec fn well_formed(&self) -> bool {
        &&& self.inputs@.len() > 0
        &&& all_signal_rbf(input_views(self.inputs@))
        &&& all_recorded(input_views(self.inputs@))
        &&& distinct(input_views(self.inputs@))
        &&& spent_value(input_views(self.inputs@)) == self.output.value + self.fee
        &&& spent_value(input_views(self.inputs@)) <= MAX_MONEY
    }

    /// The inputs: at least one, each spending another output, each
    /// signalling replace-by-fee, each with the value and the script of
    /// what it spends.
    pub fn inputs(&self) -> (inputs: &Vec<TxInput>)
        ensures
            input_views(inputs@) == self@.inputs,
            inputs@.len() > 0,
            all_signal_rbf(self@.inputs),
            all_recorded(self@.inputs),
            distinct(self@.inputs),
    {
        proof {
            use_type_invariant(self);
        }
        &self.inputs
    }

    /// The output.
    pub fn output(&self) -> (output: &TxOutput)
        ensures
            output@ == self@.output,
    {
        &self.output
    }

    /// The fee, in satoshi.
    pub fn fee(&self) -> (fee: u64)
        ensures
            fee == self@.fee,
    {
        self.fee
    }

    /// What the inputs hold, in satoshi.
    pub fn input_total(&self) -> (total: u64)
        ensures
            total == spent_value(self@.inputs),
            total == self@.output.value + self@.fee,
    {
        proof {
            use_type_invariant(self);
        }
        self.output.value + self.fee
    }
}

/// Holds a transaction that the backend built against the rules of a drain
/// transaction, and hands it out with its fee.
pub fn check_drain(
    inputs: Vec<TxInput>,
    outputs: Vec<TxOutput>,
    utxos: &Vec<Utxo>,
    tip: Option<u32>,
    destination: &Vec<u8>,
    dust: u64,
) -> (checked: Result<DrainSummary, WalletError>)
    ensures
        match drain_plan(
            input_views(inputs@),
            output_views(outputs@),
            utxo_views(utxos@),
            tip,
            destination@,
            dust,
        ) {
            Ok(drain) => (checked matches Ok(summary) && summary@ == drain),
            Err(reason) => (checked matches Err(e) && e == reason),
        },
{
    let ghost ins = input_views(inputs@);
    let ghost outs = output_views(outputs@);
    let ghost owns = utxo_views(utxos@);
    if inputs.len() == 0 {
        return Err(WalletError::NoSpendableOutputs);
    }
    if outputs.len() != 1 {
        return Err(WalletError::DescriptorError);
    }
    if !bytes_equal(outputs[0].script.as_slice(), destination.as_slice()) {
        return Err(WalletError::DescriptorError);
    }
    let mut i: usize = 0;
    while i < inputs.len()
        invariant
            i <= inputs.len(),
            ins == input_views(inputs@),
            outs == output_views(outputs@),
            owns == utxo_views(utxos@),
            inputs.len() > 0,
            pays_only(outs, destination@),
            forall|m: int| 0 <= m < i ==> (#[trigger] ins[m]).sequence < RBF_LIMIT,
            forall|m: int| 0 <= m < i ==> owned(#[trigger] ins[m], owns, tip),
            forall|m: int, n: int|
                0 <= m < n < i ==> (#[trigger] ins[m]).outpoint != (#[trigger] ins[n]).outpoint,
        decreases inputs.len() - i,
    {
        if inputs[i].sequence >= RBF_LIMIT {
            return Err(WalletError::DescriptorError);
        }
        if !is_owned(&inputs[i], utxos, tip) {
            return Err(WalletError::DescriptorError);
        }
        if spent_before(&inputs, i) {
            return Err(WalletError::DescriptorError);
        }
        i += 1;
    }
    if !is_all_spent(&inputs, utxos, tip) {
        return Err(WalletError::DescriptorError);
    }
    let mut total: u64 = 0;
    let mut i: usize = 0;
    while i < inputs.len()
        invariant
            i <= inputs.len(),
            ins == input_views(inputs@),
            ins.len() == inputs.len(),
            total == spent_value(ins.take(i as int)),
            total <= MAX_MONEY,
            outs == output_views(outputs@),
            owns == utxo_views(utxos@),
            inputs.len() > 0,
            pays_only(outs, destination@),
            all_signal_rbf(ins),
            all_owned(ins, owns, tip),
            all_spent(ins, owns, tip),
            distinct(ins),
        decreases inputs.len() - i,
    {
        proof {
            lemma_spent_value_step(ins, i as int);
            lemma_spent_value_grows(ins, i + 1, ins.len() as int);
            assert(ins.take(ins.len() as int) =~= ins);
        }
        let value: u64 = match inputs[i].value {
            Some(value) => value,
            None => 0,
        };
        if value > MAX_MONEY - total {
            return Err(WalletError::ChainClientError);
        }
        total = total + value;
        i += 1;
    }
    proof {
        assert(ins.take(ins.len() as int) =~= ins);
    }
    if total < outputs[0].value || outputs[0].value < dust {
        return Err(WalletError::InsufficientFunds);
    }
    let fee: u64 = total - outputs[0].value;
    let mut outputs = outputs;
    let output = match outputs.pop() {
        Some(output) => output,
        None => {
            return Err(WalletError::DescriptorError);
        },
    };
    Ok(DrainSummary { inputs, output, fee })
}

} // verus!
