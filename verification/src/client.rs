//! The chain data service: where it is found, and what a broadcast came to.

use crate::backend::{build_client, client_base_url, client_timeout};
use crate::error::WalletError;
use crate::network::{network_of, parse_network, Network};
use crate::text::str_equal;
use vstd::prelude::*;

verus! {

/// The Esplora server of the main network.
pub const DEFAULT_ESPLORA_BASE_URL_MAINNET: &'static str = "https://mempool.space/api";

/// The Esplora server of the test network.
pub const DEFAULT_ESPLORA_BASE_URL_TESTNET: &'static str = "https://mempool.space/testnet/api";

/// The number of seconds after which a request to the chain data service
/// is given up: no operation waits without end.
pub const REQUEST_TIMEOUT: u64 = 30;

/// The number of unused addresses in a row after which a scan of a branch
/// stops.
pub const STOP_GAP: usize = 5;

/// The number of requests that a scan keeps under way at once.
pub const PARALLEL_REQUESTS: u8 = 5;

/// The server of a network: the main network and the test network have one.
pub open spec fn server_of(network: Network) -> Option<Seq<char>> {
    match network {
        Network::Bitcoin => Some(DEFAULT_ESPLORA_BASE_URL_MAINNET@),
        Network::Testnet => Some(DEFAULT_ESPLORA_BASE_URL_TESTNET@),
        Network::Signet => None,
        Network::Regtest => None,
    }
}

/// The server that a wallet operation asks: that of the network which the
/// selector binds the wallet to, so that a wallet is never read from, nor
/// sent to, the chain of another network.
pub open spec fn esplora_url_spec(network: Seq<char>) -> Option<Seq<char>> {
    server_of(network_of(network))
}

/// The server that a wallet operation asks. A network without a server is a
/// fault of the chain data service.
pub fn esplora_url(network: &str) -> (url: Result<&'static str, WalletError>)
    ensures
        match esplora_url_spec(network@) {
            Some(server) => (url matches Ok(u) && u@ == server),
            None => (url matches Err(e) && e == WalletError::ChainClientError),
        },
{
    match parse_network(network) {
        Network::Bitcoin => Ok(DEFAULT_ESPLORA_BASE_URL_MAINNET),
        Network::Testnet => Ok(DEFAULT_ESPLORA_BASE_URL_TESTNET),
        Network::Signet => Err(WalletError::ChainClientError),
        Network::Regtest => Err(WalletError::ChainClientError),
    }
}

/// Creates the client that a wallet operation asks. A client that comes
/// back asks the server of the wallet's network, and gives a request up
/// after [`REQUEST_TIMEOUT`] seconds.
pub fn wallet_client(network: &str) -> (client: Result<bdk::esplora_client::AsyncClient, WalletError>)
    ensures
        esplora_url_spec(network@) is None ==> client is Err,
        client matches Ok(c) ==> Some(client_base_url(c)) == esplora_url_spec(network@)
            && client_timeout(c) == REQUEST_TIMEOUT,
        client matches Err(e) ==> e == WalletError::ChainClientError,
{
    let url = match esplora_url(network) {
        Ok(url) => url,
        Err(e) => {
            return Err(e);
        },
    };
    match build_client(url, REQUEST_TIMEOUT) {
        Some(client) => Ok(client),
        None => Err(WalletError::ChainClientError),
    }
}

/// The server of a network that is named in full: only `mainnet` and
/// `testnet` have one.
pub open spec fn client_url_spec(network: Seq<char>) -> Option<Seq<char>> {
    if network == "mainnet"@ {
        Some(DEFAULT_ESPLORA_BASE_URL_MAINNET@)
    } else if network == "testnet"@ {
        Some(DEFAULT_ESPLORA_BASE_URL_TESTNET@)
    } else {
        None
    }
}

/// The server of a network that is named in full.
pub fn client_url(network: &str) -> (url: Option<&'static str>)
    ensures
        url is Some == client_url_spec(network@) is Some,
        url matches Some(u) ==> client_url_spec(network@) == Some(u@),
{
    if str_equal(network, "mainnet") {
        Some(DEFAULT_ESPLORA_BASE_URL_MAINNET)
    } else if str_equal(network, "testnet") {
        Some(DEFAULT_ESPLORA_BASE_URL_TESTNET)
    } else {
        None
    }
}

/// A network that is named in full has the server of the network that its
/// name binds a wallet to.
pub proof fn lemma_named_server_is_the_wallets(network: Seq<char>)
    ensures
        client_url_spec(network) is Some ==> client_url_spec(network) == esplora_url_spec(network),
{
    reveal_strlit("mainnet");
    reveal_strlit("testnet");
}

/// Creates the client of a network's server. A network without a server
/// gets none, and neither does a machine on which no client can be made. A
/// client that comes back asks the server of that network, and gives a
/// request up after [`REQUEST_TIMEOUT`] seconds.
pub fn create_client(network: &str) -> (client: Result<
    bdk::esplora_client::AsyncClient,
    WalletError,
>)
    ensures
        client_url_spec(network@) is None ==> client is Err,
        client matches Ok(c) ==> Some(client_base_url(c)) == client_url_spec(network@)
            && client_timeout(c) == REQUEST_TIMEOUT,
        client matches Err(e) ==> e == WalletError::ChainClientError,
{
    let url = match client_url(network) {
        Some(url) => url,
        None => {
            return Err(WalletError::ChainClientError);
        },
    };
    match build_client(url, REQUEST_TIMEOUT) {
        Some(client) => Ok(client),
        None => Err(WalletError::ChainClientError),
    }
}

/// What the chain data service said of a transaction that was sent to it.
#[derive(Clone, Copy, Debug, PartialEq, Eq, Structural)]
pub enum BroadcastReport {
    /// The service took the transaction.
    Accepted,
    /// The service answered and refused the transaction.
    Rejected,
    /// The service could not be reached, or its answer could not be read.
    Unreachable,
}

/// The error that a report stands for, if it stands for one.
pub open spec fn broadcast_fault(report: BroadcastReport) -> Option<WalletError> {
    match report {
        BroadcastReport::Accepted => None,
        BroadcastReport::Rejected => Some(WalletError::BroadcastRejected),
        BroadcastReport::Unreachable => Some(WalletError::ChainClientError),
    }
}

/// What becomes of a transaction that was sent: it is handed out if the
/// service took it, and only then. A transaction that may never have
/// reached the network is not handed out as sent.
pub fn broadcast_outcome(transaction: bdk::bitcoin::Transaction, report: BroadcastReport) -> (sent:
    Result<bdk::bitcoin::Transaction, WalletError>)
    ensures
        match broadcast_fault(report) {
            None => (sent matches Ok(t) && t == transaction),
            Some(fault) => (sent matches Err(e) && e == fault),
        },
{
    match report {
        BroadcastReport::Accepted => Ok(transaction),
        BroadcastReport::Rejected => Err(WalletError::BroadcastRejected),
        BroadcastReport::Unreachable => Err(WalletError::ChainClientError),
    }
}

} // verus!
