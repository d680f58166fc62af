//! The plain values that the engine reasons about: outputs, transactions'
//! inputs and outputs, destinations, balances and fee rates. Each type that
//! holds bytes or text has a view, and the contracts of the crate speak of
//! the views.

use crate::keychain::Keychain;
use crate::network::Network;
use crate::text::bytes_equal;
use vstd::prelude::*;

verus! {

/// The place of an output on the chain: a transaction's id and the output's
/// position in it.
#[derive(Clone, Debug)]
pub struct Outpoint {
    /// The 32 bytes of the transaction's id, in the order in which they are
    /// hashed.
    pub txid: Vec<u8>,
    /// The position of the output in its transaction.
    pub vout: u32,
}

/// What an [`Outpoint`] holds.
pub struct OutpointView {
    pub txid: Seq<u8>,
    pub vout: u32,
}

impl View for Outpoint {
    type V = OutpointView;

    open spec fn view(&self) -> OutpointView {
        OutpointView { txid: self.txid@, vout: self.vout }
    }
}

/// Whether two outpoints name the same output.
pub fn outpoint_equal(a: &Outpoint, b: &Outpoint) -> (same: bool)
    ensures
        same == (a@ == b@),
{
    a.vout == b.vout && bytes_equal(a.txid.as_slice(), b.txid.as_slice())
}

/// Whether an output's transaction is in a block.
#[derive(Clone, Copy, Debug, PartialEq, Eq, Structural)]
pub enum Confirmation {
    /// The transaction waits in the memory pool.
    Unconfirmed,
    /// The transaction is in the block of that height and time.
    Confirmed { height: u32, time: u64 },
}

/// What the backend knows of a transaction's body.
#[derive(Clone, Copy, Debug, PartialEq, Eq, Structural)]
pub struct TransactionFacts {
    /// Whether the transaction creates new coins.
    pub coinbase: bool,
    /// How many outputs the transaction has.
    pub outputs: usize,
}

/// What the backend knows of a transaction that paid the wallet.
#[derive(Clone, Copy, Debug, PartialEq, Eq, Structural)]
pub struct Funding {
    pub confirmation: Confirmation,
    /// The facts of the transaction's body, where the backend holds the body.
    pub transaction: Option<TransactionFacts>,
}

/// An unspent output as the backend lists it.
#[derive(Clone, Debug)]
pub struct Unspent {
    pub outpoint: Outpoint,
    /// The output's value, in satoshi.
    pub value: u64,
    /// The output's script.
    pub script: Vec<u8>,
    /// The branch of the wallet that the script belongs to.
    pub keychain: Keychain,
}

/// What an [`Unspent`] holds.
pub struct UnspentView {
    pub outpoint: OutpointView,
    pub value: u64,
    pub script: Seq<u8>,
    pub keychain: Keychain,
}

impl View for Unspent {
    type V = UnspentView;

    open spec fn view(&self) -> UnspentView {
        UnspentView {
            outpoint: self.outpoint@,
            value: self.value,
            script: self.script@,
            keychain: self.keychain,
        }
    }
}

/// An unspent output of the wallet, with what is known of the transaction
/// that made it.
#[derive(Clone, Debug)]
pub struct Utxo {
    pub outpoint: Outpoint,
    /// The output's value, in satoshi.
    pub value: u64,
    /// The output's script.
    pub script: Vec<u8>,
    /// The branch of the wallet that the script belongs to.
    pub keychain: Keychain,
    pub confirmation: Confirmation,
    /// Whether the output was made by a transaction that creates new coins.
    pub coinbase: bool,
}

/// What a [`Utxo`] holds.
pub struct UtxoView {
    pub outpoint: OutpointView,
    pub value: u64,
    pub script: Seq<u8>,
    pub keychain: Keychain,
    pub confirmation: Confirmation,
    pub coinbase: bool,
}

impl View for Utxo {
    type V = UtxoView;

    open spec fn view(&self) -> UtxoView {
        UtxoView {
            outpoint: self.outpoint@,
            value: self.value,
            script: self.script@,
            keychain: self.keychain,
            confirmation: self.confirmation,
            coinbase: self.coinbase,
        }
    }
}

/// Whether two outputs hold the same: place, value, script, branch, block
/// and kind of transaction.
pub fn utxo_equal(a: &Utxo, b: &Utxo) -> (same: bool)
    ensures
        same == (a@ == b@),
{
    a.value == b.value && a.keychain == b.keychain && a.confirmation == b.confirmation
        && a.coinbase == b.coinbase && outpoint_equal(&a.outpoint, &b.outpoint) && bytes_equal(
        a.script.as_slice(),
        b.script.as_slice(),
    )
}

/// The views of a list of outputs, in the list's order.
pub open spec fn utxo_views(utxos: Seq<Utxo>) -> Seq<UtxoView> {
    utxos.map_values(|u: Utxo| u@)
}

/// The views of the backend's listing, in its order.
pub open spec fn unspent_views(listing: Seq<Unspent>) -> Seq<UnspentView> {
    listing.map_values(|u: Unspent| u@)
}

/// An input of a transaction under construction.
#[derive(Clone, Debug)]
pub struct TxInput {
    /// The output that the input spends.
    pub outpoint: Outpoint,
    /// The input's sequence number.
    pub sequence: u32,
    /// The value of the output that the input spends, where the transaction
    /// under construction records it.
    pub value: Option<u64>,
    /// The script of the output that the input spends, where the
    /// transaction under construction records it.
    pub script: Option<Vec<u8>>,
}

/// What a [`TxInput`] holds.
pub struct TxInputView {
    pub outpoint: OutpointView,
    pub sequence: u32,
    pub value: Option<u64>,
    pub script: Option<Seq<u8>>,
}

impl View for TxInput {
    type V = TxInputView;

    open spec fn view(&self) -> TxInputView {
        TxInputView {
            outpoint: self.outpoint@,
            sequence: self.sequence,
            value: self.value,
            script: match self.script {
                Some(script) => Some(script@),
                None => None,
            },
        }
    }
}

/// The views of a list of inputs, in the list's order.
pub open spec fn input_views(inputs: Seq<TxInput>) -> Seq<TxInputView> {
    inputs.map_values(|i: TxInput| i@)
}

/// Whether two inputs hold the same.
pub fn input_equal(a: &TxInput, b: &TxInput) -> (same: bool)
    ensures
        same == (a@ == b@),
{
    let values_equal = match (a.value, b.value) {
        (Some(x), Some(y)) => x == y,
        (None, None) => true,
        _ => false,
    };
    let scripts_equal = match (&a.script, &b.script) {
        (Some(x), Some(y)) => bytes_equal(x.as_slice(), y.as_slice()),
        (None, None) => true,
        _ => false,
    };
    values_equal && scripts_equal && a.sequence == b.sequence && outpoint_equal(
        &a.outpoint,
        &b.outpoint,
    )
}

/// Whether two lists of inputs hold the same, in the same order.
pub fn inputs_equal(a: &Vec<TxInput>, b: &Vec<TxInput>) -> (same: bool)
    ensures
        same == (input_views(a@) == input_views(b@)),
{
    assert(input_views(a@).len() == a.len() && input_views(b@).len() == b.len());
    if a.len() != b.len() {
        return false;
    }
    let mut i: usize = 0;
    while i < a.len()
        invariant
            a.len() == b.len(),
            i <= a.len(),
            forall|k: int| 0 <= k < i ==> input_views(a@)[k] == input_views(b@)[k],
        decreases a.len() - i,
    {
        assert(input_views(b@)[i as int] == b@[i as int]@);
        if !input_equal(&a[i], &b[i]) {
            return false;
        }
        i += 1;
    }
    assert(input_views(a@) =~= input_views(b@));
    true
}

/// An output of a transaction under construction.
#[derive(Clone, Debug)]
pub struct TxOutput {
    /// The output's value, in satoshi.
    pub value: u64,
    /// The script that the output pays.
    pub script: Vec<u8>,
}

/// What a [`TxOutput`] holds.
pub struct TxOutputView {
    pub value: u64,
    pub script: Seq<u8>,
}

impl View for TxOutput {
    type V = TxOutputView;

    open spec fn view(&self) -> TxOutputView {
        TxOutputView { value: self.value, script: self.script@ }
    }
}

/// Whether two outputs hold the same.
pub fn output_equal(a: &TxOutput, b: &TxOutput) -> (same: bool)
    ensures
        same == (a@ == b@),
{
    a.value == b.value && bytes_equal(a.script.as_slice(), b.script.as_slice())
}

/// The views of a list of outputs, in the list's order.
pub open spec fn output_views(outputs: Seq<TxOutput>) -> Seq<TxOutputView> {
    outputs.map_values(|o: TxOutput| o@)
}

/// What an address pays.
#[derive(Clone, Copy, Debug, PartialEq, Eq, Structural)]
pub enum AddressKind {
    /// The hash of a public key, in the format that predates witness
    /// programs.
    PubkeyHash,
    /// The hash of a script, in the format that predates witness programs.
    ScriptHash,
    /// A witness program.
    WitnessProgram,
}

/// What an address says once it is parsed.
#[derive(Clone, Debug)]
pub struct Destination {
    /// The network that the address's prefix names. Test network, signet and
    /// (for the older formats) regtest share prefixes, and parse as test
    /// network.
    pub network: Network,
    /// What the address pays.
    pub kind: AddressKind,
    /// The script that the address pays.
    pub script: Vec<u8>,
}

/// What a [`Destination`] holds.
pub struct DestinationView {
    pub network: Network,
    pub kind: AddressKind,
    pub script: Seq<u8>,
}

impl View for Destination {
    type V = DestinationView;

    open spec fn view(&self) -> DestinationView {
        DestinationView { network: self.network, kind: self.kind, script: self.script@ }
    }
}

/// An address of the wallet and where it comes from.
#[derive(Clone, Debug)]
pub struct AddressInfo {
    /// The derivation index.
    pub index: u32,
    /// The address, as text.
    pub address: String,
    /// The branch of the wallet.
    pub keychain: Keychain,
}

/// What an [`AddressInfo`] holds.
pub struct AddressInfoView {
    pub index: u32,
    pub address: Seq<char>,
    pub keychain: Keychain,
}

impl View for AddressInfo {
    type V = AddressInfoView;

    open spec fn view(&self) -> AddressInfoView {
        AddressInfoView { index: self.index, address: self.address@, keychain: self.keychain }
    }
}

} // verus!
