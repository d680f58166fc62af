//! The operations that need no chain data: they are decided by their
//! arguments alone.

use crate::error::WalletError;
use crate::keychain::{keychain_of, parse_address_type};
use crate::path::{
    CHILD_INDEX_LIMIT, DEFAULT_DERIVATION_PATH_EXTERNAL, DEFAULT_DERIVATION_PATH_INTERNAL,
};
use crate::state::{address_at, create_wallet, wallet_plan};
use vstd::prelude::*;

verus! {

/// An address of a wallet as it is reported.
#[derive(Clone, Debug)]
pub struct AddressInfoDef {
    /// The derivation index.
    pub index: usize,
    /// The address, as text.
    pub address: String,
    /// The branch of the wallet, by its label.
    pub keychain: String,
}

/// What an [`AddressInfoDef`] holds.
pub struct AddressInfoDefView {
    pub index: usize,
    pub address: Seq<char>,
    pub keychain: Seq<char>,
}

impl View for AddressInfoDef {
    type V = AddressInfoDefView;

    open spec fn view(&self) -> AddressInfoDefView {
        AddressInfoDefView { index: self.index, address: self.address@, keychain: self.keychain@ }
    }
}

impl AddressInfoDef {
    /// The report of an address.
    pub fn from(address_info: crate::ledger::AddressInfo) -> (report: AddressInfoDef)
        ensures
            report@ == (AddressInfoDefView {
                index: address_info.index as usize,
                address: address_info.address@,
                keychain: address_info.keychain.label_spec(),
            }),
    {
        let label = address_info.keychain.label();
        AddressInfoDef {
            index: address_info.index as usize,
            address: address_info.address,
            keychain: label.to_owned(),
        }
    }
}

/// The index at which an address is derived, where the number that the
/// caller asks for is a child index.
pub open spec fn derivation_index(index: usize) -> Option<u32> {
    if index < CHILD_INDEX_LIMIT {
        Some(index as u32)
    } else {
        None
    }
}

/// The address that a phrase and a network define for an address type and
/// an index, on the default paths, or why there is none. The address is a
/// function of the four arguments: asked twice, the answer is the same. An
/// index of 2^31 or more names no child.
pub open spec fn address_plan(
    mnemonic: Seq<char>,
    network: Seq<char>,
    address_type: Seq<char>,
    index: usize,
) -> Result<AddressInfoDefView, WalletError> {
    match wallet_plan(
        mnemonic,
        network,
        DEFAULT_DERIVATION_PATH_EXTERNAL@,
        DEFAULT_DERIVATION_PATH_INTERNAL@,
    ) {
        Err(reason) => Err(reason),
        Ok(addresses) => match derivation_index(index) {
            None => Err(WalletError::InvalidDerivationPath),
            Some(place) => match address_at(addresses, keychain_of(address_type), place) {
                Ok(info) => Ok(
                    AddressInfoDefView {
                        index: info.index as usize,
                        address: info.address,
                        keychain: info.keychain.label_spec(),
                    },
                ),
                Err(reason) => Err(reason),
            },
        },
    }
}

/// The address of a wallet for an address type (`receive` or `change`) and
/// an index.
pub fn get_address(mnemonic: &str, network: &str, address_type: &str, index: usize) -> (address:
    Result<AddressInfoDef, WalletError>)
    ensures
        match address_plan(mnemonic@, network@, address_type@, index) {
            Ok(report) => (address matches Ok(a) && a@ == report),
            Err(reason) => (address matches Err(e) && e == reason),
        },
{
    let keychain = parse_address_type(address_type);
    let wallet = match create_wallet(
        mnemonic,
        network,
        DEFAULT_DERIVATION_PATH_EXTERNAL,
        DEFAULT_DERIVATION_PATH_INTERNAL,
    ) {
        Ok(wallet) => wallet,
        Err(e) => {
            return Err(e);
        },
    };
    if index >= CHILD_INDEX_LIMIT as usize {
        return Err(WalletError::InvalidDerivationPath);
    }
    match wallet.get_address(keychain, index as u32) {
        Ok(info) => Ok(AddressInfoDef::from(info)),
        Err(e) => Err(e),
    }
}

} // verus!
