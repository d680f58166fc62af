//! The state of one wallet: the network it is bound to and the backend that
//! holds its descriptors, its keys and what is known of its outputs.

use crate::backend::{
    all_backed, backed, backend_addresses, backend_balance, backend_funding, backend_paths,
    backend_scripts, backend_tip, backend_unspent, body_script, coinbase_below_tip,
    coinbases_below_tip, funding_of, listed_value, listing_paths_in_range, mnemonic_accepted,
    mnemonic_valid, new_backend, new_database, output_paths_in_range, path_in_range,
    path_of_script, path_of_text, peek_external, peek_internal, reported_balance, sync_tip,
    unspent_outputs, wallet_addresses, MAX_MONEY,
};
use crate::balance::{balance_of, balance_spec, no_balance, Balance};
use crate::error::WalletError;
use crate::keychain::Keychain;
use crate::ledger::{
    unspent_views, utxo_views, AddressInfo, AddressInfoView, Confirmation, Funding, Outpoint,
    OutpointView, UnspentView, Utxo, UtxoView,
};
use crate::network::{network_of, parse_network, Network};
use crate::path::{DerivationPath, CHILD_INDEX_LIMIT, MAX_PATH_STEPS};
use bdk::database::MemoryDatabase;
use vstd::prelude::*;

verus! {

/// One wallet, for the length of one session: it is made from a seed
/// phrase, changes only when its backend is synchronised with the chain, and
/// is dropped at the end. Nothing of it is kept between sessions.
pub struct WalletState {
    network: Network,
    backend: bdk::Wallet<MemoryDatabase>,
}

/// The addresses of the wallet that the four texts define, by branch and
/// index, or the reason why they define none: the phrase is tested first,
/// then the two paths, which must parse, have at most 254 steps and differ
/// from one another, then what the backend makes of them. Two branches on
/// one path would have every address in common.
pub open spec fn wallet_plan(
    mnemonic: Seq<char>,
    network: Seq<char>,
    external: Seq<char>,
    internal: Seq<char>,
) -> Result<Map<(Keychain, u32), Seq<char>>, WalletError> {
    if !mnemonic_accepted(mnemonic) {
        Err(WalletError::InvalidMnemonic)
    } else if path_of_text(external) is None || path_of_text(internal) is None {
        Err(WalletError::InvalidDerivationPath)
    } else if path_of_text(external)->Some_0.len() > MAX_PATH_STEPS || path_of_text(
        internal,
    )->Some_0.len() > MAX_PATH_STEPS {
        Err(WalletError::InvalidDerivationPath)
    } else if path_of_text(external)->Some_0 == path_of_text(internal)->Some_0 {
        Err(WalletError::InvalidDerivationPath)
    } else {
        match wallet_addresses(
            mnemonic,
            network_of(network),
            path_of_text(external)->Some_0,
            path_of_text(internal)->Some_0,
        ) {
            Some(addresses) => Ok(addresses),
            None => Err(WalletError::DescriptorError),
        }
    }
}

/// The address of a branch at an index among a wallet's addresses.
pub open spec fn address_at(
    addresses: Map<(Keychain, u32), Seq<char>>,
    keychain: Keychain,
    index: u32,
) -> Result<AddressInfoView, WalletError> {
    if index >= CHILD_INDEX_LIMIT {
        Err(WalletError::InvalidDerivationPath)
    } else if addresses.contains_key((keychain, index)) {
        Ok(AddressInfoView { index, address: addresses[(keychain, index)], keychain })
    } else {
        Err(WalletError::DescriptorError)
    }
}

/// A listed output together with what is known of the transaction that made
/// it.
pub open spec fn utxo_of(output: UnspentView, funding: Funding) -> UtxoView {
    UtxoView {
        outpoint: output.outpoint,
        value: output.value,
        script: output.script,
        keychain: output.keychain,
        confirmation: funding.confirmation,
        coinbase: funding.transaction matches Some(facts) && facts.coinbase,
    }
}

/// The outputs of a listing, each with the facts of its transaction.
pub open spec fn known_utxos(listing: Seq<UnspentView>, funding: Map<Seq<u8>, Funding>) -> Seq<
    UtxoView,
> {
    Seq::new(listing.len(), |i: int| utxo_of(listing[i], funding[listing[i].outpoint.txid]))
}

/// The balance of a wallet, given what its store holds and what its backend
/// reports.
///
/// - A listed output whose transaction the store does not hold, outputs
///   worth more than all the money there is, and a coinbase output in a
///   block above the tip are faults of the chain data.
/// - So is a report that is not the sum of the outputs, part by part.
pub open spec fn balance_plan(
    listing: Seq<UnspentView>,
    funding: Map<Seq<u8>, Funding>,
    tip: Option<u32>,
    reported: Option<Balance>,
) -> Result<Balance, WalletError> {
    if !all_backed(listing, funding) || listed_value(listing) > MAX_MONEY || !coinbases_below_tip(
        listing,
        funding,
        tip,
    ) {
        Err(WalletError::ChainClientError)
    } else {
        match balance_spec(known_utxos(listing, funding), tip) {
            Ok(sums) => if reported == Some(sums) {
                Ok(sums)
            } else {
                Err(WalletError::ChainClientError)
            },
            Err(fault) => Err(fault),
        }
    }
}

/// Creates a wallet from a seed phrase, a network selector and the paths of
/// the two branches, with an empty history.
pub fn create_wallet(
    mnemonic: &str,
    network: &str,
    derivation_path_external: &str,
    derivation_path_internal: &str,
) -> (created: Result<WalletState, WalletError>)
    ensures
        match wallet_plan(
            mnemonic@,
            network@,
            derivation_path_external@,
            derivation_path_internal@,
        ) {
            Ok(addresses) => (created matches Ok(wallet) && wallet.network_spec() == network_of(
                network@,
            ) && wallet.addresses() == addresses && wallet.listing().len() == 0 && wallet.tip()
                is None && wallet.reported() == Some(no_balance())),
            Err(reason) => (created matches Err(e) && e == reason),
        },
{
    create_wallet_in(
        mnemonic,
        network,
        derivation_path_external,
        derivation_path_internal,
        new_database(),
    )
}

/// Creates a wallet over a store that may hold a history. The store must
/// have been used with the same descriptors or not at all; with any other
/// the backend refuses, and the result is `DescriptorError`.
pub fn create_wallet_in(
    mnemonic: &str,
    network: &str,
    derivation_path_external: &str,
    derivation_path_internal: &str,
    database: MemoryDatabase,
) -> (created: Result<WalletState, WalletError>)
    ensures
        match wallet_plan(
            mnemonic@,
            network@,
            derivation_path_external@,
            derivation_path_internal@,
        ) {
            Ok(addresses) => match created {
                Ok(wallet) => wallet.network_spec() == network_of(network@) && wallet.addresses()
                    == addresses,
                Err(e) => e == WalletError::DescriptorError,
            },
            Err(reason) => (created matches Err(e) && e == reason),
        },
        crate::backend::database_is_new(database) && wallet_plan(
            mnemonic@,
            network@,
            derivation_path_external@,
            derivation_path_internal@,
        ) is Ok ==> (created matches Ok(wallet) && wallet.listing().len() == 0 && wallet.tip()
            is None && wallet.reported() == Some(no_balance())),
{
    if !mnemonic_valid(mnemonic) {
        return Err(WalletError::InvalidMnemonic);
    }
    let network = parse_network(network);
    let external = match DerivationPath::parse(derivation_path_external) {
        Ok(path) => path,
        Err(e) => {
            return Err(e);
        },
    };
    let internal = match DerivationPath::parse(derivation_path_internal) {
        Ok(path) => path,
        Err(e) => {
            return Err(e);
        },
    };
    if external.len() > MAX_PATH_STEPS || internal.len() > MAX_PATH_STEPS {
        return Err(WalletError::InvalidDerivationPath);
    }
    if external.same_steps(&internal) {
        return Err(WalletError::InvalidDerivationPath);
    }
    match new_backend(mnemonic, network, external.steps(), internal.steps(), database) {
        Some(backend) => Ok(WalletState { network, backend }),
        None => Err(WalletError::DescriptorError),
    }
}

impl WalletState {
    /// The network that the wallet is bound to.
    pub closed spec fn network_spec(&self) -> Network {
        self.network
    }

    /// The addresses of the wallet, by branch and index.
    pub closed spec fn addresses(&self) -> Map<(Keychain, u32), Seq<char>> {
        backend_addresses(self.backend)
    }

    /// The outputs that the wallet's store lists as unspent.
    pub closed spec fn listing(&self) -> Seq<UnspentView> {
        backend_unspent(self.backend)
    }

    /// What the wallet's store knows of each transaction, by id.
    pub closed spec fn funding(&self) -> Map<Seq<u8>, Funding> {
        backend_funding(self.backend)
    }

    /// The height of the chain when the wallet was last synchronised.
    pub closed spec fn tip(&self) -> Option<u32> {
        backend_tip(self.backend)
    }

    /// The balance that the backend reports, if it reports one.
    pub closed spec fn reported(&self) -> Option<Balance> {
        backend_balance(self.backend)
    }

    /// The branch and the index that the wallet's store holds for a script.
    pub closed spec fn paths(&self) -> Map<Seq<u8>, (Keychain, u32)> {
        backend_paths(self.backend)
    }

    /// The script of the output at an outpoint, in the transaction bodies
    /// that the wallet's store holds.
    pub closed spec fn scripts(&self) -> Map<OutpointView, Seq<u8>> {
        backend_scripts(self.backend)
    }

    /// The backend.
    pub closed spec fn backend_value(&self) -> bdk::Wallet<MemoryDatabase> {
        self.backend
    }

    /// The network that the wallet is bound to.
    pub fn network(&self) -> (network: Network)
        ensures
            network == self.network_spec(),
    {
        self.network
    }

    /// The height of the chain when the wallet was last synchronised.
    pub fn checkpoint(&self) -> (tip: Option<u32>)
        ensures
            tip == self.tip(),
    {
        sync_tip(&self.backend)
    }

    /// The backend, for the caller that synchronises it with the chain. A
    /// synchronisation writes the store: what the wallet lists, knows of
    /// transactions, reports as balance and has as tip is afterwards what
    /// the backend then holds, and only the addresses are known to be as
    /// before.
    pub fn backend_mut(&mut self) -> (backend: &mut bdk::Wallet<MemoryDatabase>)
        ensures
            backend_addresses(*backend) == old(self).addresses(),
            final(self).network_spec() == old(self).network_spec(),
            final(self).addresses() == backend_addresses(*final(backend)),
            final(self).listing() == backend_unspent(*final(backend)),
            final(self).funding() == backend_funding(*final(backend)),
            final(self).tip() == backend_tip(*final(backend)),
            final(self).reported() == backend_balance(*final(backend)),
            final(self).paths() == backend_paths(*final(backend)),
            final(self).scripts() == backend_scripts(*final(backend)),
    {
        &mut self.backend
    }

    /// The backend, to read from. The backend writes its store through
    /// shared references too: what this wallet is known to list, know of
    /// transactions, hold as paths, report as balance and have as tip holds
    /// only as long as nobody writes through this one. Whoever synchronises
    /// takes [`WalletState::backend_mut`].
    pub fn backend(&self) -> (backend: &bdk::Wallet<MemoryDatabase>)
        ensures
            backend_paths(*backend) == self.paths(),
            backend_scripts(*backend) == self.scripts(),
            backend_addresses(*backend) == self.addresses(),
            backend_unspent(*backend) == self.listing(),
            backend_funding(*backend) == self.funding(),
            backend_tip(*backend) == self.tip(),
            backend_balance(*backend) == self.reported(),
            *backend == self.backend_value(),
    {
        &self.backend
    }

    /// The address of a branch at an index, or why there is none: a number
    /// from 2^31 on is no child index, and a script may have no address. The
    /// same wallet gives the same address for the same branch and index,
    /// whenever it is asked.
    pub fn get_address(&self, keychain: Keychain, index: u32) -> (address: Result<
        AddressInfo,
        WalletError,
    >)
        ensures
            match address_at(self.addresses(), keychain, index) {
                Ok(info) => (address matches Ok(a) && a@ == info),
                Err(reason) => (address matches Err(e) && e == reason),
            },
    {
        if index >= CHILD_INDEX_LIMIT {
            return Err(WalletError::InvalidDerivationPath);
        }
        let derived = match keychain {
            Keychain::External => peek_external(&self.backend, index),
            Keychain::Internal => peek_internal(&self.backend, index),
        };
        match derived {
            Some(address) => Ok(AddressInfo { index, address, keychain }),
            None => Err(WalletError::DescriptorError),
        }
    }

    /// The wallet's unspent outputs, in the store's order, each with the
    /// block of the transaction that made it. An output whose transaction
    /// the store does not hold is a fault of the chain data.
    pub fn list_unspent(&self) -> (outputs: Result<Vec<Utxo>, WalletError>)
        ensures
            match outputs {
                Ok(list) => all_backed(self.listing(), self.funding()) && utxo_views(list@)
                    == known_utxos(self.listing(), self.funding()),
                Err(e) => !all_backed(self.listing(), self.funding()) && e
                    == WalletError::ChainClientError,
            },
    {
        let listing = unspent_outputs(&self.backend);
        let ghost views = unspent_views(listing@);
        let mut outputs: Vec<Utxo> = Vec::new();
        let mut i: usize = 0;
        while i < listing.len()
            invariant
                i <= listing.len(),
                views == unspent_views(listing@),
                views == self.listing(),
                outputs.len() == i,
                forall|k: int| 0 <= k < i ==> backed(#[trigger] views[k], self.funding()),
                forall|k: int|
                    0 <= k < i ==> (#[trigger] outputs@[k])@ == utxo_of(
                        views[k],
                        self.funding()[views[k].outpoint.txid],
                    ),
            decreases listing.len() - i,
        {
            let listed = &listing[i];
            assert(views[i as int] == listed@);
            let funding = match funding_of(&self.backend, &listed.outpoint.txid) {
                Some(funding) => funding,
                None => {
                    return Err(WalletError::ChainClientError);
                },
            };
            let facts = match funding.transaction {
                Some(facts) => facts,
                None => {
                    return Err(WalletError::ChainClientError);
                },
            };
            if listed.outpoint.vout as usize >= facts.outputs {
                return Err(WalletError::ChainClientError);
            }
            outputs.push(
                Utxo {
                    outpoint: Outpoint {
                        txid: listed.outpoint.txid.clone(),
                        vout: listed.outpoint.vout,
                    },
                    value: listed.value,
                    script: listed.script.clone(),
                    keychain: listed.keychain,
                    confirmation: funding.confirmation,
                    coinbase: facts.coinbase,
                },
            );
            i += 1;
        }
        Ok(outputs)
    }

    /// Whether the wallet's outputs are worth no more than all the money
    /// there is.
    pub(crate) fn is_within_supply(&self, utxos: &Vec<Utxo>) -> (within: bool)
        requires
            utxo_views(utxos@) == known_utxos(self.listing(), self.funding()),
        ensures
            within == (listed_value(self.listing()) <= MAX_MONEY),
    {
        let ghost listing = self.listing();
        assert(utxo_views(utxos@).len() == utxos.len());
        let mut total: u64 = 0;
        let mut i: usize = 0;
        while i < utxos.len()
            invariant
                i <= utxos.len(),
                listing == self.listing(),
                listing.len() == utxos.len(),
                utxo_views(utxos@) == known_utxos(listing, self.funding()),
                total == listed_value(listing.take(i as int)),
                total <= MAX_MONEY,
            decreases utxos.len() - i,
        {
            proof {
                assert(utxo_views(utxos@)[i as int] == utxos@[i as int]@);
                lemma_listed_value_step(listing, i as int);
                lemma_listed_value_grows(listing, i + 1, listing.len() as int);
                assert(listing.take(listing.len() as int) =~= listing);
            }
            if utxos[i].value > MAX_MONEY - total {
                return false;
            }
            total = total + utxos[i].value;
            i += 1;
        }
        proof {
            assert(listing.take(listing.len() as int) =~= listing);
        }
        true
    }

    /// Whether the path that the store holds for a script, if it holds
    /// one, ends in a child index.
    pub(crate) fn has_path_in_range(&self, script: &Vec<u8>) -> (within: bool)
        ensures
            within == path_in_range(self.paths(), script@),
    {
        match path_of_script(&self.backend, script) {
            Some(path) => path.1 < CHILD_INDEX_LIMIT,
            None => true,
        }
    }

    /// Whether the paths of every listed output end in child indices.
    pub(crate) fn has_paths_in_range(&self, utxos: &Vec<Utxo>) -> (within: bool)
        requires
            utxo_views(utxos@) == known_utxos(self.listing(), self.funding()),
        ensures
            within == listing_paths_in_range(self.listing(), self.paths(), self.scripts()),
    {
        let ghost listing = self.listing();
        assert(utxo_views(utxos@).len() == utxos.len());
        let mut i: usize = 0;
        while i < utxos.len()
            invariant
                i <= utxos.len(),
                listing == self.listing(),
                listing.len() == utxos.len(),
                utxo_views(utxos@) == known_utxos(listing, self.funding()),
                forall|k: int|
                    0 <= k < i ==> output_paths_in_range(
                        #[trigger] listing[k],
                        self.paths(),
                        self.scripts(),
                    ),
            decreases utxos.len() - i,
        {
            assert(utxo_views(utxos@)[i as int] == utxos@[i as int]@);
            assert(utxos@[i as int]@.script == listing[i as int].script);
            assert(utxos@[i as int]@.outpoint == listing[i as int].outpoint);
            if !self.has_path_in_range(&utxos[i].script) {
                return false;
            }
            match body_script(&self.backend, &utxos[i].outpoint) {
                Some(script) => {
                    if !self.has_path_in_range(&script) {
                        return false;
                    }
                },
                None => {
                    return false;
                },
            }
            i += 1;
        }
        true
    }

    /// Whether no coinbase output of the wallet lies in a block above the
    /// tip.
    pub(crate) fn has_coinbases_below_tip(&self, utxos: &Vec<Utxo>) -> (below: bool)
        requires
            all_backed(self.listing(), self.funding()),
            utxo_views(utxos@) == known_utxos(self.listing(), self.funding()),
        ensures
            below == coinbases_below_tip(self.listing(), self.funding(), self.tip()),
    {
        let top: u32 = match sync_tip(&self.backend) {
            Some(top) => top,
            None => {
                return true;
            },
        };
        let ghost listing = self.listing();
        assert(utxo_views(utxos@).len() == utxos.len());
        let mut i: usize = 0;
        while i < utxos.len()
            invariant
                i <= utxos.len(),
                listing == self.listing(),
                listing.len() == utxos.len(),
                self.tip() == Some(top),
                all_backed(listing, self.funding()),
                utxo_views(utxos@) == known_utxos(listing, self.funding()),
                forall|k: int|
                    0 <= k < i ==> coinbase_below_tip(
                        #[trigger] listing[k],
                        self.funding(),
                        self.tip(),
                    ),
            decreases utxos.len() - i,
        {
            assert(utxo_views(utxos@)[i as int] == utxos@[i as int]@);
            assert(backed(listing[i as int], self.funding()));
            match utxos[i].confirmation {
                Confirmation::Confirmed { height, time: _ } => {
                    if utxos[i].coinbase && height > top {
                        return false;
                    }
                },
                Confirmation::Unconfirmed => {},
            }
            i += 1;
        }
        true
    }

    /// The wallet's balance, as the backend reports it. What it reports is
    /// held against [`balance_spec`]: a balance that comes back is the sum
    /// of the wallet's outputs, part by part.
    pub fn get_balance(&self) -> (balance: Result<Balance, WalletError>)
        ensures
            balance == balance_plan(self.listing(), self.funding(), self.tip(), self.reported()),
    {
        let outputs = match self.list_unspent() {
            Ok(outputs) => outputs,
            Err(e) => {
                return Err(e);
            },
        };
        if !self.is_within_supply(&outputs) || !self.has_coinbases_below_tip(&outputs) {
            return Err(WalletError::ChainClientError);
        }
        let expected = match balance_of(&outputs, sync_tip(&self.backend)) {
            Ok(expected) => expected,
            Err(e) => {
                return Err(e);
            },
        };
        match reported_balance(&self.backend) {
            Some(reported) => {
                if reported == expected {
                    Ok(reported)
                } else {
                    Err(WalletError::ChainClientError)
                }
            },
            None => Err(WalletError::ChainClientError),
        }
    }
}

/// A longer listing is worth at least as much.
proof fn lemma_listed_value_grows(listing: Seq<UnspentView>, shorter: int, longer: int)
    requires
        0 <= shorter <= longer <= listing.len(),
    ensures
        listed_value(listing.take(shorter)) <= listed_value(listing.take(longer)),
    decreases longer - shorter,
{
    if shorter < longer {
        lemma_listed_value_grows(listing, shorter, longer - 1);
        assert(listing.take(longer).drop_last() =~= listing.take(longer - 1));
    }
}

/// One more output adds its value.
proof fn lemma_listed_value_step(listing: Seq<UnspentView>, count: int)
    requires
        0 <= count < listing.len(),
    ensures
        listed_value(listing.take(count + 1)) == listed_value(listing.take(count))
            + listing[count].value,
{
    assert(listing.take(count + 1).drop_last() =~= listing.take(count));
}

} // verus!
