//! The calls into the wallet backend. No function in this file is proved:
//! each states what the backend's source shows of the call it makes, and the
//! rest of the crate is verified against these statements.
//!
//! A backend keeps its store behind a shared reference and writes to it when
//! it is synchronised with the chain. This crate never synchronises: for the
//! length of a call into it the store is one value, and the names below
//! speak of that value.

use crate::balance::{no_balance, Balance};
use crate::keychain::Keychain;
use crate::ledger::{
    input_views, output_views, unspent_views, AddressKind, Confirmation, Destination,
    DestinationView, Funding, Outpoint, OutpointView, TransactionFacts, TxInput, TxInputView,
    TxOutput, TxOutputView, Unspent, UnspentView,
};
use crate::network::Network;
use crate::path::{steps_in_range, ChildStep, CHILD_INDEX_LIMIT, MAX_PATH_STEPS};
use bdk::bitcoin::util::address::Payload;
use bdk::bitcoin::util::bip32::{ChildNumber, DerivationPath};
use bdk::bitcoin::util::psbt::PartiallySignedTransaction;
use bdk::bitcoin::{Address, Network as Chain, Script, Txid};
use bdk::database::{Database, MemoryDatabase};
use bdk::keys::bip39::{Language, Mnemonic};
use bdk::template::P2TR;
use bdk::wallet::AddressIndex;
use bdk::KeychainKind;
use std::str::FromStr;
use vstd::prelude::*;

verus! {

/// The backend's in-memory store of a wallet's history.
#[verifier::external_type_specification]
#[verifier::external_body]
pub struct ExMemoryDatabase(bdk::database::MemoryDatabase);

/// The backend's wallet: two descriptors, their keys, and a store.
#[verifier::external_type_specification]
#[verifier::external_body]
#[verifier::reject_recursive_types(D)]
pub struct ExBackend<D>(bdk::Wallet<D>);

/// A transaction under construction, with what a signer needs to know.
#[verifier::external_type_specification]
#[verifier::external_body]
pub struct ExPsbt(bdk::bitcoin::util::psbt::PartiallySignedTransaction);

/// A transaction as it goes to the network.
#[verifier::external_type_specification]
#[verifier::external_body]
pub struct ExTransaction(bdk::bitcoin::Transaction);

/// The client of an Esplora server.
#[verifier::external_type_specification]
#[verifier::external_body]
pub struct ExAsyncClient(bdk::esplora_client::AsyncClient);

/// Whether `bip39` reads the phrase as an English mnemonic: 12 to 24 words
/// of its word list, in a number divisible by 3, with a matching checksum.
pub uninterp spec fn mnemonic_accepted(phrase: Seq<char>) -> bool;

/// The steps that `bitcoin` reads from a BIP-32 path, if it reads the text as
/// one.
pub uninterp spec fn path_of_text(text: Seq<char>) -> Option<Seq<ChildStep>>;

/// What `bitcoin` reads from an address, if it reads the text as one.
pub uninterp spec fn address_of_text(text: Seq<char>) -> Option<DestinationView>;

/// The least value that `bitcoin` lets an output with this script carry and
/// still be relayed.
pub uninterp spec fn script_dust_limit(script: Seq<u8>) -> u64;

/// The taproot addresses of the wallet that a phrase, a network and two
/// paths define, by branch and index; `None` where the backend makes no
/// descriptors of them. An index is missing where the descriptor's script at
/// it has no address.
pub uninterp spec fn wallet_addresses(
    phrase: Seq<char>,
    network: Network,
    external: Seq<ChildStep>,
    internal: Seq<ChildStep>,
) -> Option<Map<(Keychain, u32), Seq<char>>>;

/// Whether the store has never been written.
pub uninterp spec fn database_is_new(database: MemoryDatabase) -> bool;

/// The addresses that a backend derives, by branch and index.
pub uninterp spec fn backend_addresses(backend: bdk::Wallet<MemoryDatabase>) -> Map<
    (Keychain, u32),
    Seq<char>,
>;

/// The outputs that a backend's store lists as unspent, in the store's
/// order.
pub uninterp spec fn backend_unspent(backend: bdk::Wallet<MemoryDatabase>) -> Seq<UnspentView>;

/// What a backend's store knows of each transaction, by transaction id.
pub uninterp spec fn backend_funding(backend: bdk::Wallet<MemoryDatabase>) -> Map<
    Seq<u8>,
    Funding,
>;

/// The height of the chain when a backend's store was last synchronised.
pub uninterp spec fn backend_tip(backend: bdk::Wallet<MemoryDatabase>) -> Option<u32>;

/// The branch and the index that a backend's store holds for a script.
pub uninterp spec fn backend_paths(backend: bdk::Wallet<MemoryDatabase>) -> Map<
    Seq<u8>,
    (Keychain, u32),
>;

/// The script of the output at an outpoint, in the transaction bodies that
/// a backend's store holds.
pub uninterp spec fn backend_scripts(backend: bdk::Wallet<MemoryDatabase>) -> Map<
    OutpointView,
    Seq<u8>,
>;

/// The number of seconds after which a client gives a request up.
pub uninterp spec fn client_timeout(client: bdk::esplora_client::AsyncClient) -> u64;

/// The balance that a backend reports, if it reports one.
pub uninterp spec fn backend_balance(backend: bdk::Wallet<MemoryDatabase>) -> Option<Balance>;

/// What the backend's builder makes of a wallet, asked to drain it to a
/// script at a rate of so many satoshi for so many virtual bytes with
/// replace-by-fee signalled: the inputs and outputs of the transaction, or
/// why there is none. The builder draws at random only among outputs that it
/// may leave out, of which a drain has none, and shuffles only the outputs,
/// of which a drain has one.
pub uninterp spec fn backend_drain(
    backend: bdk::Wallet<MemoryDatabase>,
    script: Seq<u8>,
    satoshi: u32,
    vbytes: u32,
) -> Result<(Seq<TxInputView>, Seq<TxOutputView>), BuildFailure>;

/// Whether a PSBT holds, for every input of its transaction, a final script
/// or a final witness.
pub uninterp spec fn psbt_finalized(psbt: PartiallySignedTransaction) -> bool;

/// The address of the server that a client asks.
pub uninterp spec fn client_base_url(client: bdk::esplora_client::AsyncClient) -> Seq<char>;

/// The inputs of the transaction inside a PSBT, in order, each with the
/// value that the PSBT records for the output it spends.
pub uninterp spec fn psbt_inputs(psbt: PartiallySignedTransaction) -> Seq<TxInputView>;

/// The outputs of the transaction inside a PSBT, in order.
pub uninterp spec fn psbt_outputs(psbt: PartiallySignedTransaction) -> Seq<TxOutputView>;

/// The outputs that a transaction spends, in the order of its inputs.
pub uninterp spec fn transaction_spends(transaction: bdk::bitcoin::Transaction) -> Seq<
    OutpointView,
>;

/// The outputs of a transaction, in order.
pub uninterp spec fn transaction_outputs(transaction: bdk::bitcoin::Transaction) -> Seq<
    TxOutputView,
>;

/// The virtual size of the transaction that a PSBT holds, with the final
/// scripts and witnesses that it holds for the inputs.
pub uninterp spec fn psbt_virtual_size(psbt: PartiallySignedTransaction) -> usize;

/// The virtual size of a transaction.
pub uninterp spec fn transaction_virtual_size(transaction: bdk::bitcoin::Transaction) -> usize;

/// Whether a listed output is backed: the store holds the body of the
/// transaction that made it, and the body has an output at that position.
pub open spec fn backed(output: UnspentView, funding: Map<Seq<u8>, Funding>) -> bool {
    &&& funding.contains_key(output.outpoint.txid)
    &&& funding[output.outpoint.txid].transaction matches Some(facts)
    &&& output.outpoint.vout < facts.outputs
}

/// Whether every listed output is backed.
pub open spec fn all_backed(listing: Seq<UnspentView>, funding: Map<Seq<u8>, Funding>) -> bool {
    forall|i: int| 0 <= i < listing.len() ==> backed(#[trigger] listing[i], funding)
}

/// Whether the block of a listed output, if it is an output of a coinbase
/// transaction, is no higher than the tip.
pub open spec fn coinbase_below_tip(
    output: UnspentView,
    funding: Map<Seq<u8>, Funding>,
    tip: Option<u32>,
) -> bool {
    match (
        funding[output.outpoint.txid].transaction,
        funding[output.outpoint.txid].confirmation,
        tip,
    ) {
        (Some(facts), Confirmation::Confirmed { height, time }, Some(top)) => facts.coinbase
            ==> height <= top,
        _ => true,
    }
}

/// Whether no coinbase output of a listing lies in a block above the tip.
pub open spec fn coinbases_below_tip(
    listing: Seq<UnspentView>,
    funding: Map<Seq<u8>, Funding>,
    tip: Option<u32>,
) -> bool {
    forall|i: int| 0 <= i < listing.len() ==> coinbase_below_tip(#[trigger] listing[i], funding, tip)
}

/// Whether the path that a store holds for a script, if it holds one, ends
/// in a child index.
pub open spec fn path_in_range(paths: Map<Seq<u8>, (Keychain, u32)>, script: Seq<u8>) -> bool {
    paths.contains_key(script) ==> paths[script].1 < CHILD_INDEX_LIMIT
}

/// Whether the paths of a listed output end in child indices: that of the
/// script it is listed with, and that of the script which the body of its
/// transaction has at its place.
pub open spec fn output_paths_in_range(
    output: UnspentView,
    paths: Map<Seq<u8>, (Keychain, u32)>,
    scripts: Map<OutpointView, Seq<u8>>,
) -> bool {
    &&& path_in_range(paths, output.script)
    &&& scripts.contains_key(output.outpoint)
    &&& path_in_range(paths, scripts[output.outpoint])
}

/// Whether the paths of every listed output end in child indices.
pub open spec fn listing_paths_in_range(
    listing: Seq<UnspentView>,
    paths: Map<Seq<u8>, (Keychain, u32)>,
    scripts: Map<OutpointView, Seq<u8>>,
) -> bool {
    forall|i: int|
        0 <= i < listing.len() ==> output_paths_in_range(#[trigger] listing[i], paths, scripts)
}

/// Whether every input of a transaction records the script that it spends,
/// and the paths that a store holds for those scripts and for the scripts of
/// the outputs end in child indices.
pub open spec fn recorded_paths_in_range(
    paths: Map<Seq<u8>, (Keychain, u32)>,
    inputs: Seq<TxInputView>,
    outputs: Seq<TxOutputView>,
) -> bool {
    &&& forall|i: int|
        0 <= i < inputs.len() ==> (#[trigger] inputs[i]).script is Some && path_in_range(
            paths,
            inputs[i].script->Some_0,
        )
    &&& forall|j: int| 0 <= j < outputs.len() ==> path_in_range(paths, (#[trigger] outputs[j]).script)
}

/// The most outputs that a wallet drains at once: the builder sums the fees
/// of the inputs, and at the highest fee rate the sum of a million inputs is
/// still a number that it can hold.
pub const MAX_DRAIN_INPUTS: usize = 1_000_000;

/// The least height that the backend does not take for a block height.
pub const HEIGHT_LIMIT: u32 = 500_000_000;

/// Why the backend built no transaction.
#[derive(Clone, Copy, Debug, PartialEq, Eq, Structural)]
pub enum BuildFailure {
    /// The selected outputs do not pay for the fee and an output above the
    /// dust limit.
    InsufficientFunds { needed: u64, available: u64 },
    /// No output was selected.
    NoUtxosSelected,
    /// Any other failure.
    Other,
}

/// Calls `Mnemonic::parse_in` of `bip39` with the English word list, and
/// says whether it returned a mnemonic. The call reads nothing but the
/// phrase.
#[verifier::external_body]
pub(crate) fn mnemonic_valid(phrase: &str) -> (valid: bool)
    ensures
        valid == mnemonic_accepted(phrase@),
{
    Mnemonic::parse_in(Language::English, phrase).is_ok()
}

/// Calls `DerivationPath::from_str` of `bitcoin` and hands out the steps.
/// The call reads nothing but the text, and a child number it returns is
/// below 2^31 in either variant.
#[verifier::external_body]
pub(crate) fn parse_path_steps(text: &str) -> (steps: Option<Vec<ChildStep>>)
    ensures
        steps is Some == path_of_text(text@) is Some,
        steps matches Some(s) ==> path_of_text(text@) == Some(s@) && steps_in_range(s@),
{
    let path = DerivationPath::from_str(text).ok()?;
    let step = |child: &ChildNumber| match *child {
        ChildNumber::Normal { index } => ChildStep { index, hardened: false },
        ChildNumber::Hardened { index } => ChildStep { index, hardened: true },
    };
    Some(path.into_iter().map(step).collect())
}

/// Calls `MemoryDatabase::new`, which returns an empty store.
#[verifier::external_body]
pub(crate) fn new_database() -> (database: MemoryDatabase)
    ensures
        database_is_new(database),
{
    MemoryDatabase::new()
}

/// Reads the phrase with `Mnemonic::parse_in`, as [`mnemonic_valid`] does,
/// and calls `Wallet::new` of `bdk` with the template `P2TR` for either
/// branch, each made of the mnemonic and a path. The descriptors depend on
/// the four plain arguments alone. With a store that was never written
/// nothing else can fail, and such a wallet lists no output, has no tip and
/// reports a balance of nothing. With a store that holds the checksum of
/// other descriptors the call fails. A key's depth is one byte, so each
/// path leaves room for the index that follows it.
#[verifier::external_body]
pub(crate) fn new_backend(
    phrase: &str,
    network: Network,
    external: &Vec<ChildStep>,
    internal: &Vec<ChildStep>,
    database: MemoryDatabase,
) -> (backend: Option<bdk::Wallet<MemoryDatabase>>)
    requires
        mnemonic_accepted(phrase@),
        steps_in_range(external@),
        steps_in_range(internal@),
        external@.len() <= MAX_PATH_STEPS,
        internal@.len() <= MAX_PATH_STEPS,
    ensures
        backend matches Some(w) ==> wallet_addresses(phrase@, network, external@, internal@)
            == Some(backend_addresses(w)),
        database_is_new(database) ==> (backend is Some) == (wallet_addresses(
            phrase@,
            network,
            external@,
            internal@,
        ) is Some),
        database_is_new(database) ==> (backend matches Some(w) ==> backend_unspent(w).len() == 0
            && backend_tip(w) is None && backend_balance(w) == Some(no_balance())),
{
    let mnemonic = Mnemonic::parse_in(Language::English, phrase).ok()?;
    let chain = match network {
        Network::Bitcoin => Chain::Bitcoin,
        Network::Testnet => Chain::Testnet,
        Network::Signet => Chain::Signet,
        Network::Regtest => Chain::Regtest,
    };
    let child = |s: &ChildStep| match s.hardened {
        true => ChildNumber::Hardened { index: s.index },
        false => ChildNumber::Normal { index: s.index },
    };
    let receive: DerivationPath = external.iter().map(child).collect();
    let change: DerivationPath = internal.iter().map(child).collect();
    let (receive, change) = (P2TR((mnemonic.clone(), receive)), P2TR((mnemonic, change)));
    bdk::Wallet::new(receive, Some(change), chain, database).ok()
}

/// The most satoshi that can exist.
pub const MAX_MONEY: u64 = 2_100_000_000_000_000;

/// The sum of the values of a listing.
pub open spec fn listed_value(listing: Seq<UnspentView>) -> nat
    decreases listing.len(),
{
    if listing.len() == 0 {
        0
    } else {
        listed_value(listing.drop_last()) + listing.last().value as nat
    }
}

/// Calls `Wallet::get_address` of `bdk` with `AddressIndex::Peek`, which
/// derives the address of the external descriptor at the index and writes
/// nothing, and hands out the address as text. The derivation stops the
/// program on a number that is no child index.
#[verifier::external_body]
pub(crate) fn peek_external(backend: &bdk::Wallet<MemoryDatabase>, index: u32) -> (address: Option<
    String,
>)
    requires
        index < CHILD_INDEX_LIMIT,
    ensures
        address is Some == backend_addresses(*backend).contains_key((Keychain::External, index)),
        address matches Some(a) ==> backend_addresses(*backend)[(Keychain::External, index)]
            == a@,
{
    let info = backend.get_address(AddressIndex::Peek(index)).ok()?;
    Some(info.address.to_string())
}

/// Calls `Wallet::get_internal_address` of `bdk` with `AddressIndex::Peek`,
/// which derives the address of the internal descriptor at the index and
/// writes nothing, and hands out the address as text. The derivation stops
/// the program on a number that is no child index.
#[verifier::external_body]
pub(crate) fn peek_internal(backend: &bdk::Wallet<MemoryDatabase>, index: u32) -> (address: Option<
    String,
>)
    requires
        index < CHILD_INDEX_LIMIT,
    ensures
        address is Some == backend_addresses(*backend).contains_key((Keychain::Internal, index)),
        address matches Some(a) ==> backend_addresses(*backend)[(Keychain::Internal, index)]
            == a@,
{
    let info = backend.get_internal_address(AddressIndex::Peek(index)).ok()?;
    Some(info.address.to_string())
}

/// Calls `Wallet::list_unspent` of `bdk`, which reads the store's outputs
/// and leaves out those marked spent, and hands each out as plain values.
/// The store in memory reports no failure.
#[verifier::external_body]
pub(crate) fn unspent_outputs(backend: &bdk::Wallet<MemoryDatabase>) -> (listing: Vec<Unspent>)
    ensures
        unspent_views(listing@) == backend_unspent(*backend),
{
    let plain = |u: bdk::LocalUtxo| Unspent {
        outpoint: Outpoint { txid: u.outpoint.txid.to_vec(), vout: u.outpoint.vout },
        value: u.txout.value,
        script: u.txout.script_pubkey.into_bytes(),
        keychain: match u.keychain {
            KeychainKind::External => Keychain::External,
            KeychainKind::Internal => Keychain::Internal,
        },
    };
    backend.list_unspent().unwrap_or_default().into_iter().map(plain).collect()
}

/// Calls `Wallet::get_tx` of `bdk` for a transaction id, with its body, and
/// hands out what the store holds of it: the block, if any, and of the
/// body, if held, whether it is a coinbase and how many outputs it has.
/// Bytes that are no transaction id name no transaction.
#[verifier::external_body]
pub(crate) fn funding_of(backend: &bdk::Wallet<MemoryDatabase>, txid: &Vec<u8>) -> (funding: Option<
    Funding,
>)
    ensures
        funding is Some == backend_funding(*backend).contains_key(txid@),
        funding matches Some(f) ==> backend_funding(*backend)[txid@] == f,
{
    let id: Txid = bdk::bitcoin::hashes::Hash::from_slice(txid).ok()?;
    let details = backend.get_tx(&id, true).ok()??;
    let confirmation = match details.confirmation_time {
        Some(block) => Confirmation::Confirmed { height: block.height, time: block.timestamp },
        None => Confirmation::Unconfirmed,
    };
    let facts = |body: bdk::bitcoin::Transaction| TransactionFacts {
        coinbase: body.is_coin_base(),
        outputs: body.output.len(),
    };
    Some(Funding { confirmation, transaction: details.transaction.map(facts) })
}

/// Calls `Database::get_path_from_script_pubkey` on the store of the
/// backend and hands out the branch and the index that it holds for the
/// script.
#[verifier::external_body]
pub(crate) fn path_of_script(backend: &bdk::Wallet<MemoryDatabase>, script: &Vec<u8>) -> (path:
    Option<(Keychain, u32)>)
    ensures
        path is Some == backend_paths(*backend).contains_key(script@),
        path matches Some(p) ==> backend_paths(*backend)[script@] == p,
{
    let script = Script::from(script.clone());
    let (branch, index) = backend.database().get_path_from_script_pubkey(&script).ok()??;
    let keychain = match branch {
        KeychainKind::External => Keychain::External,
        KeychainKind::Internal => Keychain::Internal,
    };
    Some((keychain, index))
}

/// Calls `Database::get_raw_tx` on the store of the backend and hands out
/// the script of the body's output at the outpoint's place.
#[verifier::external_body]
pub(crate) fn body_script(backend: &bdk::Wallet<MemoryDatabase>, outpoint: &Outpoint) -> (script:
    Option<Vec<u8>>)
    ensures
        script is Some == backend_scripts(*backend).contains_key(outpoint@),
        script matches Some(s) ==> backend_scripts(*backend)[outpoint@] == s@,
{
    let id: Txid = bdk::bitcoin::hashes::Hash::from_slice(&outpoint.txid).ok()?;
    let body = backend.database().get_raw_tx(&id).ok()??;
    Some(body.output.get(outpoint.vout as usize)?.script_pubkey.to_bytes())
}

/// Calls `Database::get_sync_time` on the store of the backend and hands out
/// the height it holds.
#[verifier::external_body]
pub(crate) fn sync_tip(backend: &bdk::Wallet<MemoryDatabase>) -> (tip: Option<u32>)
    ensures
        tip == backend_tip(*backend),
{
    backend.database().get_sync_time().ok()?.map(|time| time.block_time.height)
}

/// Calls `Wallet::get_balance` of `bdk` and hands out the four sums; `None`
/// where it failed. The conditions keep away the stores on which the call
/// stops the program: a listed output whose transaction the store does not
/// hold with its body, a coinbase output in a block above the tip, and
/// values whose sum `u64` does not hold.
#[verifier::external_body]
pub(crate) fn reported_balance(backend: &bdk::Wallet<MemoryDatabase>) -> (balance: Option<Balance>)
    requires
        all_backed(backend_unspent(*backend), backend_funding(*backend)),
        coinbases_below_tip(
            backend_unspent(*backend),
            backend_funding(*backend),
            backend_tip(*backend),
        ),
        listed_value(backend_unspent(*backend)) <= MAX_MONEY,
    ensures
        balance == backend_balance(*backend),
{
    let found = backend.get_balance().ok()?;
    Some(
        Balance {
            immature: found.immature,
            trusted_pending: found.trusted_pending,
            untrusted_pending: found.untrusted_pending,
            confirmed: found.confirmed,
        },
    )
}

/// Calls `Address::from_str` of `bitcoin` and hands out what the address
/// holds: the network of its prefix, which of the three payloads it has,
/// and its script. The call reads nothing but the text.
#[verifier::external_body]
pub(crate) fn parse_address(text: &str) -> (destination: Option<Destination>)
    ensures
        destination is Some == address_of_text(text@) is Some,
        destination matches Some(d) ==> address_of_text(text@) == Some(d@),
{
    let address = Address::from_str(text).ok()?;
    let network = match address.network {
        Chain::Bitcoin => Network::Bitcoin,
        Chain::Testnet => Network::Testnet,
        Chain::Signet => Network::Signet,
        Chain::Regtest => Network::Regtest,
    };
    let kind = match address.payload {
        Payload::PubkeyHash(_) => AddressKind::PubkeyHash,
        Payload::ScriptHash(_) => AddressKind::ScriptHash,
        Payload::WitnessProgram { .. } => AddressKind::WitnessProgram,
    };
    Some(Destination { network, kind, script: address.script_pubkey().into_bytes() })
}

/// Calls `Script::dust_value` of `bitcoin`, which reads nothing but the
/// script.
#[verifier::external_body]
pub(crate) fn dust_limit(script: &Vec<u8>) -> (limit: u64)
    ensures
        limit == script_dust_limit(script@),
{
    Script::from(script.clone()).dust_value().to_sat()
}

/// Calls `Wallet::build_tx` of `bdk` and, on the builder, `drain_wallet`,
/// `drain_to` with the script, `fee_rate` with `FeeRate::from_vb` of the two
/// numbers, `enable_rbf` and `finish`. What comes back depends on the
/// arguments alone. Nothing more is claimed of the PSBT: what the builder
/// built is read back and tested by the caller. The conditions keep away the
/// inputs on which the builder stops the program: a tip that is no block
/// height, an output whose transaction the store holds without its body or
/// with too few outputs, a fee rate that is no number, amounts or fees
/// beyond what the builder's sums hold, and a script of an input or of the
/// output for which the store holds a path that ends in no child index.
#[verifier::external_body]
pub(crate) fn build_drain(
    backend: &bdk::Wallet<MemoryDatabase>,
    script: &Vec<u8>,
    satoshi: u32,
    vbytes: u32,
) -> (built: Result<PartiallySignedTransaction, BuildFailure>)
    requires
        vbytes > 0,
        backend_tip(*backend) matches Some(height) ==> height < HEIGHT_LIMIT,
        all_backed(backend_unspent(*backend), backend_funding(*backend)),
        listed_value(backend_unspent(*backend)) <= MAX_MONEY,
        backend_unspent(*backend).len() <= MAX_DRAIN_INPUTS,
        listing_paths_in_range(
            backend_unspent(*backend),
            backend_paths(*backend),
            backend_scripts(*backend),
        ),
        path_in_range(backend_paths(*backend), script@),
    ensures
        match built {
            Ok(psbt) => backend_drain(*backend, script@, satoshi, vbytes) == Ok::<
                (Seq<TxInputView>, Seq<TxOutputView>),
                BuildFailure,
            >((psbt_inputs(psbt), psbt_outputs(psbt))),
            Err(failure) => backend_drain(*backend, script@, satoshi, vbytes) == Err::<
                (Seq<TxInputView>, Seq<TxOutputView>),
                BuildFailure,
            >(failure),
        },
{
    let rate = bdk::FeeRate::from_vb(satoshi.into(), vbytes as usize);
    let mut builder = backend.build_tx();
    builder.drain_wallet().drain_to(Script::from(script.clone())).fee_rate(rate).enable_rbf();
    match builder.finish() {
        Ok((psbt, _)) => Ok(psbt),
        Err(bdk::Error::InsufficientFunds { needed, available }) => Err(
            BuildFailure::InsufficientFunds { needed, available },
        ),
        Err(bdk::Error::NoUtxosSelected) => Err(BuildFailure::NoUtxosSelected),
        Err(_) => Err(BuildFailure::Other),
    }
}

/// Reads the inputs of the transaction inside a PSBT: of each the output it
/// spends and its sequence number, and from the PSBT's record for that
/// input the value and the script of the witness output, where it holds
/// one.
#[verifier::external_body]
pub(crate) fn input_facts(psbt: &PartiallySignedTransaction) -> (inputs: Vec<TxInput>)
    ensures
        input_views(inputs@) == psbt_inputs(*psbt),
{
    let spent = |at: usize| psbt.inputs.get(at).and_then(|record| record.witness_utxo.as_ref());
    let plain = |(at, input): (usize, &bdk::bitcoin::TxIn)| TxInput {
        outpoint: Outpoint {
            txid: input.previous_output.txid.to_vec(),
            vout: input.previous_output.vout,
        },
        sequence: input.sequence.0,
        value: spent(at).map(|output| output.value),
        script: spent(at).map(|output| output.script_pubkey.to_bytes()),
    };
    psbt.unsigned_tx.input.iter().enumerate().map(plain).collect()
}

/// Reads the outputs of the transaction inside a PSBT.
#[verifier::external_body]
pub(crate) fn output_facts(psbt: &PartiallySignedTransaction) -> (outputs: Vec<TxOutput>)
    ensures
        output_views(outputs@) == psbt_outputs(*psbt),
{
    let plain = |o: &bdk::bitcoin::TxOut| TxOutput {
        value: o.value,
        script: o.script_pubkey.to_bytes(),
    };
    psbt.unsigned_tx.output.iter().map(plain).collect()
}

/// Calls `Wallet::sign` of `bdk` with the default options and hands out
/// whether it reported every input as finalized; `None` where it failed.
/// It reports so only where every input's record holds a final script or a
/// final witness. Nothing else is claimed of the PSBT after the call: the
/// signer draws at random, and the caller reads the PSBT again. The
/// condition keeps away the PSBTs on which the call stops the program: for
/// the scripts that the inputs spend and the outputs pay it looks up the
/// store's paths, and derives keys at their indices.
#[verifier::external_body]
pub(crate) fn sign_psbt(
    backend: &bdk::Wallet<MemoryDatabase>,
    psbt: &mut PartiallySignedTransaction,
) -> (finalized: Option<bool>)
    requires
        recorded_paths_in_range(
            backend_paths(*backend),
            psbt_inputs(*old(psbt)),
            psbt_outputs(*old(psbt)),
        ),
    ensures
        finalized == Some(true) ==> psbt_finalized(*final(psbt)),
{
    backend.sign(psbt, bdk::SignOptions::default()).ok()
}

/// Calls `PartiallySignedTransaction::extract_tx` of `bitcoin` on a copy of
/// the PSBT and `Transaction::vsize` on what comes out: the weight of the
/// transaction with its witnesses, divided by four and rounded up.
#[verifier::external_body]
pub(crate) fn virtual_size(psbt: &PartiallySignedTransaction) -> (size: usize)
    ensures
        size == psbt_virtual_size(*psbt),
{
    psbt.clone().extract_tx().vsize()
}

/// Calls `PartiallySignedTransaction::extract_tx` of `bitcoin`, which takes
/// the transaction out of the PSBT and fills in each input's final script
/// and witness: the outputs spent and the outputs made stay as they are.
#[verifier::external_body]
pub(crate) fn extract_transaction(psbt: PartiallySignedTransaction) -> (transaction:
    bdk::bitcoin::Transaction)
    ensures
        transaction_spends(transaction) == psbt_inputs(psbt).map_values(
            |input: TxInputView| input.outpoint,
        ),
        transaction_outputs(transaction) == psbt_outputs(psbt),
        transaction_virtual_size(transaction) == psbt_virtual_size(psbt),
{
    psbt.extract_tx()
}

/// Calls `Builder::new`, `Builder::timeout` and `Builder::build_async` of
/// `esplora_client`. Whether a client comes back depends on the machine; one
/// that does asks the server at the address it was built with, and gives a
/// request up after the seconds it was built with.
#[verifier::external_body]
pub(crate) fn build_client(url: &str, timeout: u64) -> (client: Option<
    bdk::esplora_client::AsyncClient,
>)
    ensures
        client matches Some(c) ==> client_base_url(c) == url@ && client_timeout(c) == timeout,
{
    bdk::esplora_client::Builder::new(url).timeout(timeout).build_async().ok()
}

} // verus!
