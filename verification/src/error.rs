//! The ways in which a wallet operation fails.

use vstd::prelude::*;

verus! {

/// Why an operation of the wallet engine failed.
#[derive(Clone, Copy, Debug, PartialEq, Eq, Structural)]
pub enum WalletError {
    /// The seed phrase is not a valid English BIP-39 mnemonic.
    InvalidMnemonic,
    /// A derivation path does not parse.
    InvalidDerivationPath,
    /// The backend could not turn key and path into an output descriptor, or
    /// handed back a transaction that is not the one that was asked for.
    DescriptorError,
    /// The destination does not parse, or is an address of another network.
    InvalidAddress,
    /// The wallet's outputs do not pay for the fee and a spendable output.
    InsufficientFunds,
    /// The wallet holds no unspent output.
    NoSpendableOutputs,
    /// Not every input of the transaction could be signed and finalized.
    SigningFailed,
    /// The chain data service failed, or its data contradicts itself.
    ChainClientError,
    /// The chain data service did not accept the transaction.
    BroadcastRejected,
}

impl WalletError {
    /// The name under which a machine recognises the error.
    pub open spec fn kind_spec(self) -> Seq<char> {
        match self {
            WalletError::InvalidMnemonic => "InvalidMnemonic"@,
            WalletError::InvalidDerivationPath => "InvalidDerivationPath"@,
            WalletError::DescriptorError => "DescriptorError"@,
            WalletError::InvalidAddress => "InvalidAddress"@,
            WalletError::InsufficientFunds => "InsufficientFunds"@,
            WalletError::NoSpendableOutputs => "NoSpendableOutputs"@,
            WalletError::SigningFailed => "SigningFailed"@,
            WalletError::ChainClientError => "ChainClientError"@,
            WalletError::BroadcastRejected => "BroadcastRejected"@,
        }
    }

    /// The name under which a machine recognises the error.
    pub fn kind(&self) -> (name: &'static str)
        ensures
            name@ == self.kind_spec(),
    {
        match self {
            WalletError::InvalidMnemonic => "InvalidMnemonic",
            WalletError::InvalidDerivationPath => "InvalidDerivationPath",
            WalletError::DescriptorError => "DescriptorError",
            WalletError::InvalidAddress => "InvalidAddress",
            WalletError::InsufficientFunds => "InsufficientFunds",
            WalletError::NoSpendableOutputs => "NoSpendableOutputs",
            WalletError::SigningFailed => "SigningFailed",
            WalletError::ChainClientError => "ChainClientError",
            WalletError::BroadcastRejected => "BroadcastRejected",
        }
    }
}

} // verus!
