//! Spending: the transaction that sends all of a wallet's outputs to one
//! address, its signing, and what becomes of it once it was sent.

use crate::backend::{
    address_of_text, all_backed, build_drain, dust_limit, extract_transaction, input_facts,
    listed_value, output_facts, parse_address, psbt_inputs, psbt_outputs, script_dust_limit,
    backend_drain, listing_paths_in_range, output_paths_in_range, path_in_range, psbt_finalized,
    psbt_virtual_size,
    recorded_paths_in_range, sign_psbt, sync_tip, transaction_outputs, transaction_spends,
    transaction_virtual_size, virtual_size, BuildFailure, HEIGHT_LIMIT, MAX_DRAIN_INPUTS,
    MAX_MONEY,
};
use crate::drain::{
    all_recorded, check_drain, drain_plan, is_drain, owned, spendable, DrainSummary, DrainView,
};
use crate::keychain::Keychain;
use crate::error::WalletError;
use crate::fee::{fee_at_rate, fee_ceiling, FeeRate};
use crate::ledger::{
    input_views, inputs_equal, output_equal, output_views, utxo_views, AddressKind, Destination,
    DestinationView, Funding, OutpointView, TxInput, TxInputView, TxOutput, TxOutputView,
    UnspentView, UtxoView,
};
use crate::network::Network;
use crate::state::{known_utxos, WalletState};
use bdk::bitcoin::util::psbt::PartiallySignedTransaction;
use vstd::prelude::*;

verus! {

/// Whether an address is of a format that predates witness programs.
pub open spec fn is_legacy(kind: AddressKind) -> bool {
    kind == AddressKind::PubkeyHash || kind == AddressKind::ScriptHash
}

/// Whether an address can be paid on a network. An address of the network
/// itself can. The main network shares no address with another. Regtest
/// shares only the older formats, and the test network and signet share
/// all.
pub open spec fn usable_on(destination: DestinationView, network: Network) -> bool {
    if destination.network == network {
        true
    } else if destination.network == Network::Bitcoin || network == Network::Bitcoin {
        false
    } else if destination.network == Network::Regtest || network == Network::Regtest {
        is_legacy(destination.kind)
    } else {
        true
    }
}

/// Whether an address can be paid on a network.
pub fn is_usable_on(destination: &Destination, network: Network) -> (usable: bool)
    ensures
        usable == usable_on(destination@, network),
{
    if destination.network == network {
        true
    } else if destination.network == Network::Bitcoin || network == Network::Bitcoin {
        false
    } else if destination.network == Network::Regtest || network == Network::Regtest {
        match destination.kind {
            AddressKind::PubkeyHash => true,
            AddressKind::ScriptHash => true,
            AddressKind::WitnessProgram => false,
        }
    } else {
        true
    }
}

/// The error that stands for a failure of the backend's builder.
pub open spec fn build_refusal_spec(failure: BuildFailure) -> WalletError {
    match failure {
        BuildFailure::InsufficientFunds { needed, available } => WalletError::InsufficientFunds,
        BuildFailure::NoUtxosSelected => WalletError::NoSpendableOutputs,
        BuildFailure::Other => WalletError::DescriptorError,
    }
}

/// The error that stands for a failure of the backend's builder.
pub fn build_refusal(failure: BuildFailure) -> (error: WalletError)
    ensures
        error == build_refusal_spec(failure),
{
    match failure {
        BuildFailure::InsufficientFunds { needed: _, available: _ } => {
            WalletError::InsufficientFunds
        },
        BuildFailure::NoUtxosSelected => WalletError::NoSpendableOutputs,
        BuildFailure::Other => WalletError::DescriptorError,
    }
}

/// Why no transaction is built at all, if so: the address is tested first,
/// then what the wallet holds.
///
/// - A text that is no address, or an address of another network, is an
///   invalid address.
/// - An output whose transaction the store does not hold, outputs worth
///   more than all the money there is or more than a million in number, a
///   tip that is no block height, and a
///   path that ends in no child index, held for the script of an output or
///   of the destination, are faults of the chain data.
/// - A wallet without outputs has nothing to spend.
pub open spec fn early_refusal(
    destination: Option<DestinationView>,
    network: Network,
    listing: Seq<UnspentView>,
    funding: Map<Seq<u8>, Funding>,
    tip: Option<u32>,
    paths: Map<Seq<u8>, (Keychain, u32)>,
    scripts: Map<OutpointView, Seq<u8>>,
) -> Option<WalletError> {
    if destination is None || !usable_on(destination->Some_0, network) {
        Some(WalletError::InvalidAddress)
    } else if !all_backed(listing, funding) {
        Some(WalletError::ChainClientError)
    } else if listing.len() == 0 {
        Some(WalletError::NoSpendableOutputs)
    } else if listed_value(listing) > MAX_MONEY || listing.len() > MAX_DRAIN_INPUTS || (tip matches Some(
        height,
    ) && height >= HEIGHT_LIMIT) || !listing_paths_in_range(listing, paths, scripts)
        || !path_in_range(
        paths,
        destination->Some_0.script,
    ) {
        Some(WalletError::ChainClientError)
    } else {
        None
    }
}

/// A drain transaction that is not signed yet.
pub struct DrainTransaction {
    psbt: PartiallySignedTransaction,
    summary: DrainSummary,
    fee_rate: FeeRate,
}

impl View for DrainTransaction {
    type V = DrainView;

    closed spec fn view(&self) -> DrainView {
        self.summary@
    }
}

impl DrainTransaction {
    /// The summary says what the PSBT holds.
    #[verifier::type_invariant]
    closed spec fn well_formed(&self) -> bool {
        &&& psbt_inputs(self.psbt) == self.summary@.inputs
        &&& psbt_outputs(self.psbt) == seq![self.summary@.output]
    }

    /// The fee rate that the transaction was built for.
    pub closed spec fn fee_rate_spec(&self) -> FeeRate {
        self.fee_rate
    }

    /// The inputs, the output and the fee.
    pub fn summary(&self) -> (summary: &DrainSummary)
        ensures
            summary@ == self@,
    {
        &self.summary
    }

    /// The fee rate that the transaction was built for.
    pub fn fee_rate(&self) -> (fee_rate: FeeRate)
        ensures
            fee_rate == self.fee_rate_spec(),
    {
        self.fee_rate
    }

    /// The PSBT.
    pub fn psbt(&self) -> (psbt: &PartiallySignedTransaction)
        ensures
            psbt_inputs(*psbt) == self@.inputs,
            psbt_outputs(*psbt) == seq![self@.output],
    {
        proof {
            use_type_invariant(self);
        }
        &self.psbt
    }
}

/// Whether a fee pays a rate for a size: it is at least the rate's satoshi
/// for each of the size's virtual bytes, rounded up.
pub open spec fn pays(fee: u64, fee_rate: FeeRate, size: usize) -> bool {
    fee >= fee_at_rate(fee_rate.satoshi_spec() as nat, fee_rate.vbytes_spec() as nat, size as nat)
}

/// Whether a fee is what a rate asks of a transaction, within rounding: it
/// pays the rate for the size, and no more than [`fee_ceiling`] allows.
pub open spec fn fee_fits(fee: u64, fee_rate: FeeRate, size: usize, inputs: nat) -> bool {
    &&& pays(fee, fee_rate, size)
    &&& fee <= fee_ceiling(
        fee_rate.satoshi_spec() as nat,
        fee_rate.vbytes_spec() as nat,
        size as nat,
        inputs,
    )
}

/// What is wrong with a transaction that came back from the signer, if
/// anything.
///
/// - Where the signer did not say that every input is finalized, or the
///   inputs or the output are no longer those of the summary, the signing
///   failed.
/// - Where the fee does not pay the rate for the size that the transaction
///   has with its signatures, the funds set aside for it do not suffice.
/// - Where the fee is more than the rate asks, the transaction is not the
///   one that was asked for.
pub open spec fn signing_fault(
    finalized: Option<bool>,
    inputs: Seq<TxInputView>,
    outputs: Seq<TxOutputView>,
    summary: DrainView,
    fee_rate: FeeRate,
    size: usize,
) -> Option<WalletError> {
    if finalized != Some(true) || inputs != summary.inputs || outputs != seq![summary.output] {
        Some(WalletError::SigningFailed)
    } else if !pays(summary.fee, fee_rate, size) {
        Some(WalletError::InsufficientFunds)
    } else if !fee_fits(summary.fee, fee_rate, size, summary.inputs.len()) {
        Some(WalletError::DescriptorError)
    } else {
        None
    }
}

/// Whether an error is one that [`signing_fault`] gives.
pub open spec fn is_signing_fault(error: WalletError) -> bool {
    error == WalletError::SigningFailed || error == WalletError::InsufficientFunds || error
        == WalletError::DescriptorError
}

/// Holds what came back from the signer against the summary of the
/// transaction that went in: the signer's word, the inputs and outputs of
/// the PSBT as they now are, and its size with the signatures.
pub fn check_signed(
    finalized: Option<bool>,
    inputs: &Vec<TxInput>,
    outputs: &Vec<TxOutput>,
    summary: &DrainSummary,
    fee_rate: FeeRate,
    size: usize,
) -> (fault: Option<WalletError>)
    ensures
        fault == signing_fault(
            finalized,
            input_views(inputs@),
            output_views(outputs@),
            summary@,
            fee_rate,
            size,
        ),
{
    match finalized {
        Some(true) => {},
        _ => {
            return Some(WalletError::SigningFailed);
        },
    }
    if !inputs_equal(inputs, summary.inputs()) {
        return Some(WalletError::SigningFailed);
    }
    assert(output_views(outputs@).len() == outputs.len());
    if outputs.len() != 1 {
        return Some(WalletError::SigningFailed);
    }
    assert(output_views(outputs@)[0] == outputs@[0]@);
    if !output_equal(&outputs[0], summary.output()) {
        return Some(WalletError::SigningFailed);
    }
    assert(output_views(outputs@) =~= seq![summary@.output]);
    if !fee_rate.covers(summary.fee(), size) {
        return Some(WalletError::InsufficientFunds);
    }
    let spent = summary.inputs();
    assert(input_views(spent@).len() == spent.len());
    if !fee_rate.allows(summary.fee(), size, spent.len()) {
        return Some(WalletError::DescriptorError);
    }
    None
}

/// A drain transaction of which every input is signed and finalized.
pub struct SignedTransaction {
    psbt: PartiallySignedTransaction,
    summary: DrainSummary,
    fee_rate: FeeRate,
}

impl View for SignedTransaction {
    type V = DrainView;

    closed spec fn view(&self) -> DrainView {
        self.summary@
    }
}

impl SignedTransaction {
    /// The summary says what the PSBT holds, every input is finalized, and
    /// the fee is what the rate asks for the size that the transaction has
    /// with its signatures.
    #[verifier::type_invariant]
    closed spec fn well_formed(&self) -> bool {
        &&& psbt_inputs(self.psbt) == self.summary@.inputs
        &&& psbt_outputs(self.psbt) == seq![self.summary@.output]
        &&& psbt_finalized(self.psbt)
        &&& fee_fits(
            self.summary@.fee,
            self.fee_rate,
            psbt_virtual_size(self.psbt),
            self.summary@.inputs.len(),
        )
    }

    /// The fee rate that the transaction was built for.
    pub closed spec fn fee_rate_spec(&self) -> FeeRate {
        self.fee_rate
    }

    /// The virtual size of the transaction with its signatures.
    pub closed spec fn virtual_size_spec(&self) -> usize {
        psbt_virtual_size(self.psbt)
    }

    /// Whether the PSBT holds a final script or witness for every input.
    pub closed spec fn finalized(&self) -> bool {
        psbt_finalized(self.psbt)
    }

    /// The inputs, the output and the fee.
    pub fn summary(&self) -> (summary: &DrainSummary)
        ensures
            summary@ == self@,
    {
        &self.summary
    }

    /// The fee rate that the transaction was built for, which its fee
    /// meets.
    pub fn fee_rate(&self) -> (fee_rate: FeeRate)
        ensures
            fee_rate == self.fee_rate_spec(),
            fee_fits(self@.fee, fee_rate, self.virtual_size_spec(), self@.inputs.len()),
    {
        proof {
            use_type_invariant(self);
        }
        self.fee_rate
    }

    /// The virtual size of the transaction with its signatures.
    pub fn virtual_size(&self) -> (size: usize)
        ensures
            size == self.virtual_size_spec(),
    {
        virtual_size(&self.psbt)
    }

    /// The PSBT, finalized.
    pub fn psbt(&self) -> (psbt: &PartiallySignedTransaction)
        ensures
            psbt_inputs(*psbt) == self@.inputs,
            psbt_outputs(*psbt) == seq![self@.output],
            psbt_virtual_size(*psbt) == self.virtual_size_spec(),
            psbt_finalized(*psbt),
            self.finalized(),
    {
        proof {
            use_type_invariant(self);
        }
        &self.psbt
    }

    /// The transaction as it goes to the network: it spends what the
    /// summary's inputs spend, in their order, pays the summary's output
    /// and nothing else, and has the size that the fee was held against.
    pub fn into_transaction(self) -> (transaction: bdk::bitcoin::Transaction)
        ensures
            transaction_spends(transaction) == self@.inputs.map_values(
                |input: TxInputView| input.outpoint,
            ),
            transaction_outputs(transaction) == seq![self@.output],
            transaction_virtual_size(transaction) == self.virtual_size_spec(),
    {
        proof {
            use_type_invariant(&self);
        }
        extract_transaction(self.psbt)
    }
}

/// What becomes of the builder's answer: its failure stands for an error,
/// and what it built is held against the rules of [`drain_plan`].
pub open spec fn drain_outcome(
    made: Result<(Seq<TxInputView>, Seq<TxOutputView>), BuildFailure>,
    utxos: Seq<UtxoView>,
    tip: Option<u32>,
    destination: Seq<u8>,
    dust: u64,
) -> Result<DrainView, WalletError> {
    match made {
        Err(failure) => Err(build_refusal_spec(failure)),
        Ok(built) => drain_plan(built.0, built.1, utxos, tip, destination, dust),
    }
}

/// The transaction that drains a wallet to an address at a fee rate, or why
/// there is none: the address and the wallet's holdings are tested first,
/// then the backend's builder is asked, with that script and that rate, and
/// what it answers is held against the rules.
pub open spec fn drain_result(wallet: WalletState, address: Seq<char>, fee_rate: FeeRate) -> Result<
    DrainView,
    WalletError,
> {
    match early_refusal(
        address_of_text(address),
        wallet.network_spec(),
        wallet.listing(),
        wallet.funding(),
        wallet.tip(),
        wallet.paths(),
        wallet.scripts(),
    ) {
        Some(reason) => Err(reason),
        None => {
            let script = address_of_text(address)->Some_0.script;
            drain_outcome(
                backend_drain(
                    wallet.backend_value(),
                    script,
                    fee_rate.satoshi_spec(),
                    fee_rate.vbytes_spec(),
                ),
                known_utxos(wallet.listing(), wallet.funding()),
                wallet.tip(),
                script,
                script_dust_limit(script),
            )
        },
    }
}

/// A transaction that comes back from [`drain_to`] is a drain of the wallet
/// to the address: it conserves value, pays at least the dust limit to the
/// address alone, and spends every output that can be spent, once. And
/// where the builder finds the funds short, or builds an output below the
/// dust limit, the funds do not suffice.
pub proof fn lemma_drain_result(wallet: WalletState, address: Seq<char>, fee_rate: FeeRate)
    ensures
        drain_result(wallet, address, fee_rate) matches Ok(drain) ==> {
            &&& is_drain(drain, known_utxos(wallet.listing(), wallet.funding()), wallet.tip())
            &&& drain.output.script == address_of_text(address)->Some_0.script
            &&& drain.output.value >= script_dust_limit(drain.output.script)
        },
        early_refusal(
            address_of_text(address),
            wallet.network_spec(),
            wallet.listing(),
            wallet.funding(),
            wallet.tip(),
            wallet.paths(),
            wallet.scripts(),
        ) is None && (backend_drain(
            wallet.backend_value(),
            address_of_text(address)->Some_0.script,
            fee_rate.satoshi_spec(),
            fee_rate.vbytes_spec(),
        ) matches Err(BuildFailure::InsufficientFunds { needed, available })) ==> drain_result(
            wallet,
            address,
            fee_rate,
        ) == Err::<DrainView, WalletError>(WalletError::InsufficientFunds),
{
}

/// Builds the transaction that spends every output of the wallet that can
/// be spent to one address, at a fee rate, with replace-by-fee signalled.
///
/// Whether the funds suffice is for the backend to find: it knows the
/// transaction's size. What it builds is held against the rules of
/// [`drain_plan`], so a transaction that comes back spends only outputs of
/// the wallet, each once, pays the address alone and at least the dust
/// limit, and its inputs hold exactly what the output carries and the fee.
pub fn drain_to(wallet: &WalletState, address: &str, fee_rate: FeeRate) -> (built: Result<
    DrainTransaction,
    WalletError,
>)
    ensures
        match drain_result(*wallet, address@, fee_rate) {
            Ok(drain) => (built matches Ok(transaction) && transaction@ == drain
                && transaction.fee_rate_spec() == fee_rate),
            Err(reason) => (built matches Err(e) && e == reason),
        },
{
    let destination = match parse_address(address) {
        Some(destination) => destination,
        None => {
            return Err(WalletError::InvalidAddress);
        },
    };
    if !is_usable_on(&destination, wallet.network()) {
        return Err(WalletError::InvalidAddress);
    }
    let utxos = match wallet.list_unspent() {
        Ok(utxos) => utxos,
        Err(e) => {
            return Err(e);
        },
    };
    assert(utxo_views(utxos@).len() == utxos.len());
    if utxos.len() == 0 {
        return Err(WalletError::NoSpendableOutputs);
    }
    if !wallet.is_within_supply(&utxos) {
        return Err(WalletError::ChainClientError);
    }
    if utxos.len() > MAX_DRAIN_INPUTS {
        return Err(WalletError::ChainClientError);
    }
    if !wallet.has_paths_in_range(&utxos) || !wallet.has_path_in_range(&destination.script) {
        return Err(WalletError::ChainClientError);
    }
    let backend = wallet.backend();
    let tip = sync_tip(backend);
    match tip {
        Some(height) => {
            if height >= HEIGHT_LIMIT {
                return Err(WalletError::ChainClientError);
            }
        },
        None => {},
    }
    let psbt = match build_drain(
        backend,
        &destination.script,
        fee_rate.satoshi(),
        fee_rate.vbytes(),
    ) {
        Ok(psbt) => psbt,
        Err(failure) => {
            return Err(build_refusal(failure));
        },
    };
    let inputs = input_facts(&psbt);
    let outputs = output_facts(&psbt);
    let dust = dust_limit(&destination.script);
    proof {
        crate::drain::lemma_drain_conserves_value(
            psbt_inputs(psbt),
            psbt_outputs(psbt),
            utxo_views(utxos@),
            tip,
            destination.script@,
            dust,
        );
    }
    match check_drain(inputs, outputs, &utxos, tip, &destination.script, dust) {
        Ok(summary) => Ok(DrainTransaction { psbt, summary, fee_rate }),
        Err(e) => Err(e),
    }
}

/// Whether the paths that a store holds for the scripts of a transaction,
/// those that its inputs spend and that which its output pays, end in child
/// indices.
pub open spec fn transaction_paths_in_range(
    paths: Map<Seq<u8>, (Keychain, u32)>,
    transaction: DrainView,
) -> bool {
    recorded_paths_in_range(paths, transaction.inputs, seq![transaction.output])
}

/// Whether the paths that the wallet's store holds for the scripts of a
/// transaction end in child indices.
fn has_transaction_paths_in_range(wallet: &WalletState, summary: &DrainSummary) -> (within: bool)
    ensures
        within == transaction_paths_in_range(wallet.paths(), summary@),
{
    assert(seq![summary@.output][0] == summary@.output);
    if !wallet.has_path_in_range(&summary.output().script) {
        return false;
    }
    let inputs = summary.inputs();
    let ghost views = input_views(inputs@);
    assert(views.len() == inputs.len());
    let mut i: usize = 0;
    while i < inputs.len()
        invariant
            i <= inputs.len(),
            views == input_views(inputs@),
            views == summary@.inputs,
            all_recorded(views),
            path_in_range(wallet.paths(), summary@.output.script),
            forall|k: int|
                0 <= k < i ==> path_in_range(wallet.paths(), (#[trigger] views[k]).script->Some_0),
        decreases inputs.len() - i,
    {
        assert(views[i as int] == inputs@[i as int]@);
        match &inputs[i].script {
            Some(script) => {
                if !wallet.has_path_in_range(script) {
                    return false;
                }
            },
            None => {
                return false;
            },
        }
        i += 1;
    }
    true
}

/// Signs every input of a drain transaction with the wallet's keys, and
/// holds what comes back against [`signing_fault`]. The transaction comes
/// back only if the backend finalized every input and left the inputs and
/// the output as they were, and if the fee is what the rate asks for the
/// size that the transaction has once it is signed. Nothing half-signed is
/// handed out. A wallet whose store holds, for a script of the transaction,
/// a path that ends in no child index does not sign: that is a fault of the
/// chain data.
pub fn sign(wallet: &WalletState, transaction: DrainTransaction) -> (signed: Result<
    SignedTransaction,
    WalletError,
>)
    ensures
        match signed {
            Ok(done) => {
                &&& done@ == transaction@
                &&& done.fee_rate_spec() == transaction.fee_rate_spec()
                &&& done.finalized()
                &&& fee_fits(
                    done@.fee,
                    done.fee_rate_spec(),
                    done.virtual_size_spec(),
                    done@.inputs.len(),
                )
                &&& transaction_paths_in_range(wallet.paths(), transaction@)
            },
            Err(e) => if transaction_paths_in_range(wallet.paths(), transaction@) {
                is_signing_fault(e)
            } else {
                e == WalletError::ChainClientError
            },
        },
{
    if !has_transaction_paths_in_range(wallet, transaction.summary()) {
        return Err(WalletError::ChainClientError);
    }
    proof {
        use_type_invariant(&transaction);
    }
    let DrainTransaction { psbt, summary, fee_rate } = transaction;
    let mut psbt = psbt;
    let finalized = sign_psbt(wallet.backend(), &mut psbt);
    let inputs = input_facts(&psbt);
    let outputs = output_facts(&psbt);
    let size = virtual_size(&psbt);
    match check_signed(finalized, &inputs, &outputs, &summary, fee_rate, size) {
        Some(fault) => Err(fault),
        None => Ok(SignedTransaction { psbt, summary, fee_rate }),
    }
}

/// The scripts of a drain of a wallet are scripts that the wallet lists, and
/// the destination's: where the paths of those end in child indices, so do
/// the paths of the transaction's.
proof fn lemma_drain_paths_in_range(wallet: WalletState, address: Seq<char>, fee_rate: FeeRate)
    ensures
        drain_result(wallet, address, fee_rate) matches Ok(drain) ==> transaction_paths_in_range(
            wallet.paths(),
            drain,
        ),
{
    if drain_result(wallet, address, fee_rate) is Ok {
        let drain = drain_result(wallet, address, fee_rate)->Ok_0;
        let utxos = known_utxos(wallet.listing(), wallet.funding());
        lemma_drain_result(wallet, address, fee_rate);
        assert forall|i: int| 0 <= i < drain.inputs.len() implies (#[trigger] drain.inputs[i]).script
            is Some && path_in_range(wallet.paths(), drain.inputs[i].script->Some_0) by {
            assert(owned(drain.inputs[i], utxos, wallet.tip()));
            let k = choose|k: int|
                0 <= k < utxos.len() && (#[trigger] utxos[k]).outpoint == drain.inputs[i].outpoint
                    && drain.inputs[i].value == Some(utxos[k].value) && drain.inputs[i].script
                    == Some(utxos[k].script) && spendable(utxos[k], wallet.tip());
            assert(output_paths_in_range(wallet.listing()[k], wallet.paths(), wallet.scripts()));
        }
    }
}

/// Builds and signs the transaction that sends everything the wallet holds
/// to one address: [`drain_to`], then [`sign`].
pub fn create_signed_transaction(wallet: &WalletState, address: &str, fee_rate: FeeRate) -> (signed:
    Result<SignedTransaction, WalletError>)
    ensures
        match drain_result(*wallet, address@, fee_rate) {
            Ok(drain) => match signed {
                Ok(transaction) => {
                    &&& transaction@ == drain
                    &&& transaction.fee_rate_spec() == fee_rate
                    &&& transaction.finalized()
                    &&& fee_fits(
                        transaction@.fee,
                        fee_rate,
                        transaction.virtual_size_spec(),
                        transaction@.inputs.len(),
                    )
                },
                Err(e) => is_signing_fault(e),
            },
            Err(reason) => (signed matches Err(e) && e == reason),
        },
{
    proof {
        lemma_drain_paths_in_range(*wallet, address@, fee_rate);
    }
    match drain_to(wallet, address, fee_rate) {
        Ok(transaction) => sign(wallet, transaction),
        Err(e) => Err(e),
    }
}

} // verus!
