//! The chain a wallet is bound to, and how a caller names it.

use crate::text::str_equal;
use vstd::prelude::*;

verus! {

/// The four chains a wallet can be bound to.
#[derive(Clone, Copy, Debug, PartialEq, Eq, Structural)]
pub enum Network {
    Bitcoin,
    Testnet,
    Signet,
    Regtest,
}

/// The chain that a selector names. A selector that names none of the four
/// chains selects the test network: an unknown name must never reach the
/// chain where funds are real.
pub open spec fn network_of(name: Seq<char>) -> Network {
    if name == "mainnet"@ {
        Network::Bitcoin
    } else if name == "testnet"@ {
        Network::Testnet
    } else if name == "signet"@ {
        Network::Signet
    } else if name == "regtest"@ {
        Network::Regtest
    } else {
        Network::Testnet
    }
}

/// Resolves a network selector.
pub fn parse_network(name: &str) -> (network: Network)
    ensures
        network == network_of(name@),
{
    if str_equal(name, "mainnet") {
        Network::Bitcoin
    } else if str_equal(name, "testnet") {
        Network::Testnet
    } else if str_equal(name, "signet") {
        Network::Signet
    } else if str_equal(name, "regtest") {
        Network::Regtest
    } else {
        Network::Testnet
    }
}

/// Only the selector `mainnet` reaches the main chain: whatever else a caller
/// writes, the wallet stays on a chain without real funds.
pub proof fn lemma_only_mainnet_selects_bitcoin(name: Seq<char>)
    ensures
        network_of(name) == Network::Bitcoin <==> name == "mainnet"@,
        name != "mainnet"@ && name != "signet"@ && name != "regtest"@ ==> network_of(name)
            == Network::Testnet,
{
}

} // verus!
