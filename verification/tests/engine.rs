use bdk::database::{BatchOperations, MemoryDatabase, SyncTime};
use std::str::FromStr;
use wallet_engine::balance::Balance;
use wallet_engine::error::WalletError;
use wallet_engine::fee::FeeRate;
use wallet_engine::keychain::Keychain;
use wallet_engine::ledger::Confirmation;
use wallet_engine::path::{DEFAULT_DERIVATION_PATH_EXTERNAL, DEFAULT_DERIVATION_PATH_INTERNAL};
use wallet_engine::spend::{create_signed_transaction, drain_to, sign};
use wallet_engine::state::{create_wallet, create_wallet_in, WalletState};
use wallet_engine::sync::sync_committed;

const MNEMONIC_24: &str = "abandon abandon abandon abandon abandon abandon abandon abandon abandon abandon abandon abandon abandon abandon abandon abandon abandon abandon abandon abandon abandon abandon abandon art";

const MNEMONIC_12: &str =
    "abandon abandon abandon abandon abandon abandon abandon abandon abandon abandon abandon cactus";

fn empty_wallet() -> WalletState {
    create_wallet(
        MNEMONIC_24,
        "regtest",
        DEFAULT_DERIVATION_PATH_EXTERNAL,
        DEFAULT_DERIVATION_PATH_INTERNAL,
    )
    .unwrap()
}

fn script_of(address: &str) -> bdk::bitcoin::Script {
    bdk::bitcoin::Address::from_str(address).unwrap().script_pubkey()
}

fn receive_script(index: u32) -> bdk::bitcoin::Script {
    script_of(&empty_wallet().get_address(Keychain::External, index).unwrap().address)
}

fn change_address(index: u32) -> String {
    empty_wallet().get_address(Keychain::Internal, index).unwrap().address
}

fn funding(values: &[u64], coinbase: bool) -> bdk::bitcoin::Transaction {
    bdk::bitcoin::Transaction {
        version: 1,
        lock_time: bdk::bitcoin::PackedLockTime(0),
        input: if coinbase { vec![bdk::bitcoin::TxIn::default()] } else { vec![] },
        output: values
            .iter()
            .enumerate()
            .map(|(index, value)| bdk::bitcoin::TxOut {
                value: *value,
                script_pubkey: receive_script(index as u32),
            })
            .collect(),
    }
}

/// A store that knows one transaction paying the first receive addresses.
fn store(values: &[u64], height: Option<u32>, tip: u32) -> (MemoryDatabase, bdk::bitcoin::Txid) {
    store_of(funding(values, false), height, Some(tip))
}

fn store_of(
    tx: bdk::bitcoin::Transaction,
    height: Option<u32>,
    tip: Option<u32>,
) -> (MemoryDatabase, bdk::bitcoin::Txid) {
    let mut database = MemoryDatabase::new();
    let txid = tx.txid();
    for (index, output) in tx.output.iter().enumerate() {
        database
            .set_script_pubkey(&output.script_pubkey, bdk::KeychainKind::External, index as u32)
            .unwrap();
        database
            .set_utxo(&bdk::LocalUtxo {
                outpoint: bdk::bitcoin::OutPoint { txid, vout: index as u32 },
                txout: output.clone(),
                keychain: bdk::KeychainKind::External,
                is_spent: false,
            })
            .unwrap();
    }
    database
        .set_tx(&bdk::TransactionDetails {
            transaction: Some(tx),
            txid,
            received: 0,
            sent: 0,
            fee: None,
            confirmation_time: height.map(|height| bdk::BlockTime { height, timestamp: 100 }),
        })
        .unwrap();
    if let Some(height) = tip {
        database
            .set_sync_time(SyncTime { block_time: bdk::BlockTime { height, timestamp: 100 } })
            .unwrap();
    }
    (database, txid)
}

fn wallet_over(database: MemoryDatabase) -> WalletState {
    create_wallet_in(
        MNEMONIC_24,
        "regtest",
        DEFAULT_DERIVATION_PATH_EXTERNAL,
        DEFAULT_DERIVATION_PATH_INTERNAL,
        database,
    )
    .unwrap()
}

/// A wallet with one confirmed output of 50,000 satoshi at height 1,000.
fn get_funded_wallet_with_change() -> (WalletState, bdk::bitcoin::Txid) {
    let (database, txid) = store(&[50_000], Some(1_000), 1_000);
    (wallet_over(database), txid)
}

#[test]
fn funded_wallet_lists_its_output() {
    let (wallet, txid) = get_funded_wallet_with_change();
    let outputs = wallet.list_unspent().unwrap();
    assert_eq!(outputs.len(), 1);
    assert_eq!(outputs[0].value, 50_000);
    assert_eq!(outputs[0].outpoint.vout, 0);
    assert_eq!(outputs[0].outpoint.txid, txid.to_vec());
    assert_eq!(outputs[0].script, receive_script(0).into_bytes());
    assert_eq!(outputs[0].keychain, Keychain::External);
    assert_eq!(outputs[0].confirmation, Confirmation::Confirmed { height: 1_000, time: 100 });
    assert!(!outputs[0].coinbase);
    let listed = wallet.backend().list_unspent().unwrap();
    assert_eq!(listed.len(), 1);
    assert_eq!(listed[0].txout.value, outputs[0].value);
}

#[test]
fn funded_wallet_reports_confirmed_balance() {
    let (wallet, _txid) = get_funded_wallet_with_change();
    let balance = wallet.get_balance().unwrap();
    assert_eq!(
        balance,
        Balance { immature: 0, trusted_pending: 0, untrusted_pending: 0, confirmed: 50_000 }
    );
    assert_eq!(balance.trusted_pending + balance.untrusted_pending, 0);
    let theirs = wallet.backend().get_balance().unwrap();
    assert_eq!(theirs.confirmed, balance.confirmed);
    assert_eq!(theirs.immature, balance.immature);
    assert_eq!(theirs.trusted_pending, balance.trusted_pending);
    assert_eq!(theirs.untrusted_pending, balance.untrusted_pending);
}

#[test]
fn unconfirmed_funds_are_pending() {
    let (database, _txid) = store(&[700, 800], None, 1_000);
    let wallet = wallet_over(database);
    let balance = wallet.get_balance().unwrap();
    assert_eq!(
        balance,
        Balance { immature: 0, trusted_pending: 0, untrusted_pending: 1_500, confirmed: 0 }
    );
    let theirs = wallet.backend().get_balance().unwrap();
    assert_eq!(theirs.untrusted_pending, 1_500);
}

#[test]
fn drain_spends_the_one_output() {
    let (wallet, txid) = get_funded_wallet_with_change();
    let destination = change_address(0);
    let transaction = drain_to(&wallet, &destination, FeeRate::from_sat_per_vb(1)).unwrap();
    let summary = transaction.summary();
    assert_eq!(summary.inputs().len(), 1);
    assert_eq!(summary.inputs()[0].outpoint.txid, txid.to_vec());
    assert_eq!(summary.inputs()[0].outpoint.vout, 0);
    assert_eq!(summary.inputs()[0].value, Some(50_000));
    assert_eq!(summary.inputs()[0].sequence, 0xFFFF_FFFD);
    assert_eq!(summary.output().script, script_of(&destination).into_bytes());
    assert_eq!(summary.input_total(), 50_000);
    assert_eq!(summary.fee(), 112);
    assert_eq!(summary.output().value, 49_888);
    assert_eq!(summary.output().value + summary.fee(), summary.input_total());
    assert_eq!(transaction.psbt().unsigned_tx.input.len(), 1);
    assert_eq!(transaction.psbt().unsigned_tx.output.len(), 1);
    assert_eq!(transaction.psbt().unsigned_tx.output[0].value, 49_888);
    assert_eq!(transaction.psbt().unsigned_tx.input[0].previous_output.txid, txid);
}

#[test]
fn signed_drain_is_final_and_pays_the_fee_of_its_size() {
    let (wallet, txid) = get_funded_wallet_with_change();
    assert_eq!(wallet.get_balance().unwrap().confirmed, 50_000);
    let destination = change_address(3);
    let rate = FeeRate::from_sat_per_vb(1);
    let signed = create_signed_transaction(&wallet, &destination, rate).unwrap();
    let fee = signed.summary().fee();
    let value = signed.summary().output().value;
    assert!(signed.psbt().inputs[0].final_script_witness.is_some());
    assert_eq!(signed.virtual_size(), 111);
    assert_eq!(signed.fee_rate().satoshi(), 1);
    assert_eq!(signed.fee_rate().vbytes(), 1);
    let transaction = signed.into_transaction();
    assert_eq!(transaction.input.len(), 1);
    assert_eq!(transaction.input[0].previous_output.txid, txid);
    assert_eq!(transaction.input[0].previous_output.vout, 0);
    assert!(!transaction.input[0].witness.is_empty());
    assert!(transaction.input[0].sequence.is_rbf());
    assert_eq!(transaction.output.len(), 1);
    assert_eq!(transaction.output[0].value, value);
    assert_eq!(transaction.output[0].script_pubkey, script_of(&destination));
    assert_eq!(value + fee, 50_000);
    assert_eq!(transaction.vsize(), 111);
    assert_eq!(fee, 112);
    assert!(rate.covers(fee, transaction.vsize()));
    assert!(fee >= rate.minimum_fee(transaction.vsize() as u32));
    assert!(fee <= rate.minimum_fee(transaction.vsize() as u32) + 1);
    assert!(rate.allows(fee, transaction.vsize(), 1));
}

#[test]
fn drain_and_sign_in_two_steps() {
    let (wallet, _txid) = get_funded_wallet_with_change();
    let destination = change_address(0);
    let unsigned = drain_to(&wallet, &destination, FeeRate::new(2_500, 1_000).unwrap()).unwrap();
    let fee = unsigned.summary().fee();
    assert_eq!(unsigned.fee_rate().satoshi(), 2_500);
    assert_eq!(unsigned.fee_rate().vbytes(), 1_000);
    assert!(unsigned.psbt().inputs[0].final_script_witness.is_none());
    let signed = sign(&wallet, unsigned).unwrap();
    assert_eq!(signed.summary().fee(), fee);
    assert_eq!(signed.summary().input_total(), 50_000);
    assert!(signed.psbt().inputs[0].final_script_witness.is_some());
    assert!(fee >= 278 && fee <= 282, "{}", fee);
}

#[test]
fn signing_with_another_wallet_fails() {
    let (wallet, _txid) = get_funded_wallet_with_change();
    let stranger = create_wallet(
        MNEMONIC_12,
        "regtest",
        DEFAULT_DERIVATION_PATH_EXTERNAL,
        DEFAULT_DERIVATION_PATH_INTERNAL,
    )
    .unwrap();
    let unsigned = drain_to(&wallet, &change_address(0), FeeRate::from_sat_per_vb(1)).unwrap();
    assert_eq!(sign(&stranger, unsigned).err(), Some(WalletError::SigningFailed));
}

#[test]
fn drain_spends_every_output() {
    let (database, txid) = store(&[10_000, 20_000, 30_000], Some(990), 1_000);
    let wallet = wallet_over(database);
    let signed =
        create_signed_transaction(&wallet, &change_address(1), FeeRate::from_sat_per_vb(3))
            .unwrap();
    let summary = signed.summary();
    assert_eq!(summary.inputs().len(), 3);
    let mut spent: Vec<u32> = summary.inputs().iter().map(|i| i.outpoint.vout).collect();
    spent.sort();
    assert_eq!(spent, vec![0, 1, 2]);
    assert!(summary.inputs().iter().all(|i| i.outpoint.txid == txid.to_vec()));
    assert_eq!(summary.input_total(), 60_000);
    assert_eq!(summary.output().value + summary.fee(), 60_000);
    let fee = summary.fee();
    let transaction = signed.into_transaction();
    assert_eq!(transaction.input.len(), 3);
    assert_eq!(transaction.output.len(), 1);
    assert!(fee >= 3 * transaction.vsize() as u64);
    assert!(fee <= 3 * (transaction.vsize() as u64 + 3));
    assert!(FeeRate::from_sat_per_vb(3).allows(fee, transaction.vsize(), 3));
}

#[test]
fn empty_wallet_has_nothing_to_spend() {
    let wallet = empty_wallet();
    assert_eq!(
        drain_to(&wallet, &change_address(0), FeeRate::from_sat_per_vb(1)).err(),
        Some(WalletError::NoSpendableOutputs)
    );
    assert_eq!(
        create_signed_transaction(&wallet, &change_address(0), FeeRate::from_sat_per_vb(1)).err(),
        Some(WalletError::NoSpendableOutputs)
    );
}

#[test]
fn funds_below_dust_and_fee_do_not_suffice() {
    let attempt = |value: u64| {
        let (database, _txid) = store(&[value], Some(1_000), 1_000);
        drain_to(&wallet_over(database), &change_address(0), FeeRate::from_sat_per_vb(1))
            .map(|transaction| (transaction.summary().output().value, transaction.summary().fee()))
    };
    assert_eq!(attempt(1).err(), Some(WalletError::InsufficientFunds));
    assert_eq!(attempt(112).err(), Some(WalletError::InsufficientFunds));
    assert_eq!(attempt(441).err(), Some(WalletError::InsufficientFunds));
    assert_eq!(attempt(442).ok(), Some((330, 112)));
    assert_eq!(attempt(443).ok(), Some((331, 112)));
}

#[test]
fn malformed_destination_is_refused() {
    let (wallet, _txid) = get_funded_wallet_with_change();
    for address in ["", "bcrt1", "not an address", "bcrt1pqqqqqqqqqqqqqqqqqqqqqqqqqq"] {
        assert_eq!(
            drain_to(&wallet, address, FeeRate::from_sat_per_vb(1)).err(),
            Some(WalletError::InvalidAddress),
            "{:?}",
            address
        );
    }
    assert_eq!(
        drain_to(&empty_wallet(), "nowhere", FeeRate::from_sat_per_vb(1)).err(),
        Some(WalletError::InvalidAddress)
    );
}

#[test]
fn destination_of_another_network_is_refused() {
    let (wallet, _txid) = get_funded_wallet_with_change();
    let address_mainnet = "tb1prgvu88s0074nqgq8z95uq250lx4pken99yxerwz5mrcjhrzq642s6l247d";
    let address_testnet = "tb1pce9rpv8x32r4y6xe0063kav2rpp8x9yquhvyjnfmzlk3zqn2rvuq5x7c7c";
    let real = "bc1p5cyxnuxmeuwuvkwfem96lqzszd02n6xdcjrs20cac6yqjjwudpxqkedrcr";
    for address in [address_mainnet, address_testnet, real] {
        assert_eq!(
            create_signed_transaction(&wallet, address, FeeRate::from_sat_per_vb(1)).err(),
            Some(WalletError::InvalidAddress)
        );
    }
}

#[test]
fn testnet_wallet_pays_testnet_addresses() {
    let address_mainnet = "tb1prgvu88s0074nqgq8z95uq250lx4pken99yxerwz5mrcjhrzq642s6l247d";
    let address_testnet = "tb1pce9rpv8x32r4y6xe0063kav2rpp8x9yquhvyjnfmzlk3zqn2rvuq5x7c7c";
    for network in ["testnet", "signet"] {
        for address in [address_mainnet, address_testnet] {
            let (database, _txid) = store(&[50_000], Some(1_000), 1_000);
            let wallet = create_wallet_in(
                MNEMONIC_24,
                network,
                DEFAULT_DERIVATION_PATH_EXTERNAL,
                DEFAULT_DERIVATION_PATH_INTERNAL,
                database,
            )
            .unwrap();
            let signed =
                create_signed_transaction(&wallet, address, FeeRate::from_sat_per_vb(1)).unwrap();
            assert_eq!(signed.summary().output().script, script_of(address).into_bytes());
            assert_eq!(signed.summary().input_total(), 50_000);
        }
    }
}

#[test]
fn legacy_test_address_is_paid_on_regtest() {
    let (wallet, _txid) = get_funded_wallet_with_change();
    let address = "2N83imGV3gPwBzKJQvWJ7cRUY2SpUyU6A5e";
    let transaction = drain_to(&wallet, address, FeeRate::from_sat_per_vb(1)).unwrap();
    assert_eq!(transaction.summary().output().script, script_of(address).into_bytes());
    assert_eq!(transaction.summary().output().value + transaction.summary().fee(), 50_000);
    assert!(transaction.summary().output().value >= script_of(address).dust_value().to_sat());
}

#[test]
fn output_without_its_transaction_is_a_data_fault() {
    let mut database = MemoryDatabase::new();
    database
        .set_utxo(&bdk::LocalUtxo {
            outpoint: bdk::bitcoin::OutPoint { txid: funding(&[5], false).txid(), vout: 0 },
            txout: bdk::bitcoin::TxOut { value: 50_000, script_pubkey: receive_script(0) },
            keychain: bdk::KeychainKind::External,
            is_spent: false,
        })
        .unwrap();
    let wallet = wallet_over(database);
    assert_eq!(wallet.list_unspent().err(), Some(WalletError::ChainClientError));
    assert_eq!(wallet.get_balance().err(), Some(WalletError::ChainClientError));
    assert_eq!(
        drain_to(&wallet, &change_address(0), FeeRate::from_sat_per_vb(1)).err(),
        Some(WalletError::ChainClientError)
    );
}

#[test]
fn output_beyond_its_transaction_is_a_data_fault() {
    let (mut database, txid) = store(&[50_000], Some(1_000), 1_000);
    database
        .set_utxo(&bdk::LocalUtxo {
            outpoint: bdk::bitcoin::OutPoint { txid, vout: 1 },
            txout: bdk::bitcoin::TxOut { value: 7, script_pubkey: receive_script(0) },
            keychain: bdk::KeychainKind::External,
            is_spent: false,
        })
        .unwrap();
    let wallet = wallet_over(database);
    assert_eq!(wallet.list_unspent().err(), Some(WalletError::ChainClientError));
    assert_eq!(
        drain_to(&wallet, &change_address(0), FeeRate::from_sat_per_vb(1)).err(),
        Some(WalletError::ChainClientError)
    );
}

#[test]
fn tip_that_is_no_height_is_a_data_fault() {
    let (database, _txid) = store(&[50_000], Some(1_000), 500_000_000);
    assert_eq!(
        drain_to(&wallet_over(database), &change_address(0), FeeRate::from_sat_per_vb(1)).err(),
        Some(WalletError::ChainClientError)
    );
    let (database, _txid) = store(&[50_000], Some(1_000), 499_999_999);
    assert!(
        drain_to(&wallet_over(database), &change_address(0), FeeRate::from_sat_per_vb(1)).is_ok()
    );
}

#[test]
fn path_that_ends_in_no_child_index_is_a_data_fault() {
    for index in [0x8000_0000, u32::MAX] {
        let (mut database, _txid) = store(&[50_000], Some(1_000), 1_000);
        database.set_script_pubkey(&receive_script(0), bdk::KeychainKind::External, index).unwrap();
        let wallet = wallet_over(database);
        assert_eq!(wallet.list_unspent().unwrap().len(), 1);
        assert_eq!(wallet.get_balance().unwrap().confirmed, 50_000);
        assert_eq!(
            drain_to(&wallet, &change_address(0), FeeRate::from_sat_per_vb(1)).err(),
            Some(WalletError::ChainClientError)
        );
        assert_eq!(
            create_signed_transaction(&wallet, &change_address(0), FeeRate::from_sat_per_vb(1))
                .err(),
            Some(WalletError::ChainClientError)
        );
    }
    let (mut database, _txid) = store(&[50_000], Some(1_000), 1_000);
    database.set_script_pubkey(&receive_script(0), bdk::KeychainKind::External, 0x7FFF_FFFF).unwrap();
    assert_eq!(
        drain_to(&wallet_over(database), &change_address(0), FeeRate::from_sat_per_vb(1)).err(),
        Some(WalletError::DescriptorError)
    );
}

#[test]
fn destination_with_a_path_that_ends_in_no_child_index_is_a_data_fault() {
    let destination = change_address(0);
    let (mut database, _txid) = store(&[50_000], Some(1_000), 1_000);
    database
        .set_script_pubkey(&script_of(&destination), bdk::KeychainKind::Internal, 0x8000_0000)
        .unwrap();
    let wallet = wallet_over(database);
    assert_eq!(
        drain_to(&wallet, &destination, FeeRate::from_sat_per_vb(1)).err(),
        Some(WalletError::ChainClientError)
    );
    assert!(drain_to(&wallet, &change_address(1), FeeRate::from_sat_per_vb(1)).is_ok());
}

#[test]
fn signer_with_a_path_that_ends_in_no_child_index_does_not_sign() {
    let (wallet, _txid) = get_funded_wallet_with_change();
    let destination = change_address(0);
    for script in [receive_script(0), script_of(&destination)] {
        let mut database = MemoryDatabase::new();
        database.set_script_pubkey(&script, bdk::KeychainKind::External, 0x8000_0000).unwrap();
        let other = wallet_over(database);
        let unsigned = drain_to(&wallet, &destination, FeeRate::from_sat_per_vb(1)).unwrap();
        assert_eq!(sign(&other, unsigned).err(), Some(WalletError::ChainClientError));
    }
    let unsigned = drain_to(&wallet, &destination, FeeRate::from_sat_per_vb(1)).unwrap();
    assert_eq!(unsigned.summary().inputs()[0].script, Some(receive_script(0).into_bytes()));
    assert!(sign(&wallet, unsigned).is_ok());
}

#[test]
fn amounts_beyond_the_supply_are_a_data_fault() {
    let (database, _txid) = store(&[2_100_000_000_000_000, 1], Some(1_000), 1_000);
    assert_eq!(
        drain_to(&wallet_over(database), &change_address(0), FeeRate::from_sat_per_vb(1)).err(),
        Some(WalletError::ChainClientError)
    );
}

#[test]
fn spent_outputs_are_not_listed() {
    let (mut database, txid) = store(&[50_000, 60_000], Some(1_000), 1_000);
    database
        .set_utxo(&bdk::LocalUtxo {
            outpoint: bdk::bitcoin::OutPoint { txid, vout: 0 },
            txout: bdk::bitcoin::TxOut { value: 50_000, script_pubkey: receive_script(0) },
            keychain: bdk::KeychainKind::External,
            is_spent: true,
        })
        .unwrap();
    let wallet = wallet_over(database);
    let outputs = wallet.list_unspent().unwrap();
    assert_eq!(outputs.len(), 1);
    assert_eq!(outputs[0].outpoint.vout, 1);
    assert_eq!(wallet.get_balance().unwrap().confirmed, 60_000);
    let transaction =
        drain_to(&wallet, &change_address(0), FeeRate::from_sat_per_vb(1)).unwrap();
    assert_eq!(transaction.summary().input_total(), 60_000);
}

#[test]
fn young_coinbase_is_immature_and_stays() {
    let (database, _txid) = store_of(funding(&[50_000], true), Some(950), Some(1_000));
    let wallet = wallet_over(database);
    let outputs = wallet.list_unspent().unwrap();
    assert!(outputs[0].coinbase);
    assert_eq!(
        wallet.get_balance().unwrap(),
        Balance { immature: 50_000, trusted_pending: 0, untrusted_pending: 0, confirmed: 0 }
    );
    assert_eq!(wallet.backend().get_balance().unwrap().immature, 50_000);
    assert_eq!(
        drain_to(&wallet, &change_address(0), FeeRate::from_sat_per_vb(1)).err(),
        Some(WalletError::InsufficientFunds)
    );
    let (database, _txid) = store_of(funding(&[50_000], true), Some(900), Some(1_000));
    let wallet = wallet_over(database);
    assert_eq!(wallet.get_balance().unwrap().confirmed, 50_000);
    assert_eq!(wallet.backend().get_balance().unwrap().confirmed, 50_000);
    assert!(drain_to(&wallet, &change_address(0), FeeRate::from_sat_per_vb(1)).is_ok());
}

#[test]
fn store_of_other_descriptors_is_refused() {
    let (database, _txid) = store(&[50_000], Some(1_000), 1_000);
    let first = create_wallet_in(
        MNEMONIC_12,
        "regtest",
        DEFAULT_DERIVATION_PATH_EXTERNAL,
        DEFAULT_DERIVATION_PATH_INTERNAL,
        database,
    );
    assert!(first.is_ok());
    let mut used = MemoryDatabase::new();
    bdk::database::Database::check_descriptor_checksum(
        &mut used,
        bdk::KeychainKind::External,
        "other",
    )
    .unwrap();
    let second = create_wallet_in(
        MNEMONIC_12,
        "regtest",
        DEFAULT_DERIVATION_PATH_EXTERNAL,
        DEFAULT_DERIVATION_PATH_INTERNAL,
        used,
    );
    assert_eq!(second.err(), Some(WalletError::DescriptorError));
}

#[test]
fn sync_that_finds_an_output_commits_once() {
    let fresh = empty_wallet();
    let before = fresh.list_unspent().unwrap();
    let (wallet, _txid) = get_funded_wallet_with_change();
    let after = wallet.list_unspent().unwrap();
    let again = wallet.list_unspent().unwrap();
    assert_eq!(fresh.checkpoint(), None);
    assert_eq!(wallet.checkpoint(), Some(1_000));
    assert!(sync_committed(&before, fresh.checkpoint(), &after, wallet.checkpoint()));
    assert!(!sync_committed(&after, wallet.checkpoint(), &again, wallet.checkpoint()));
    let (database, _txid) = store(&[50_000], None, 1_000);
    let pending = wallet_over(database);
    assert!(sync_committed(
        &pending.list_unspent().unwrap(),
        pending.checkpoint(),
        &after,
        wallet.checkpoint()
    ));
}

#[test]
fn drain_leaves_only_the_immature_behind() {
    let (mut database, young) = store_of(funding(&[40_000], true), Some(990), Some(1_000));
    let plain = funding(&[10_000, 20_000], false);
    let txid = plain.txid();
    for (index, output) in plain.output.iter().enumerate() {
        database
            .set_script_pubkey(&output.script_pubkey, bdk::KeychainKind::External, index as u32)
            .unwrap();
        database
            .set_utxo(&bdk::LocalUtxo {
                outpoint: bdk::bitcoin::OutPoint { txid, vout: index as u32 },
                txout: output.clone(),
                keychain: bdk::KeychainKind::External,
                is_spent: false,
            })
            .unwrap();
    }
    database
        .set_tx(&bdk::TransactionDetails {
            transaction: Some(plain),
            txid,
            received: 0,
            sent: 0,
            fee: None,
            confirmation_time: None,
        })
        .unwrap();
    let wallet = wallet_over(database);
    assert_eq!(wallet.list_unspent().unwrap().len(), 3);
    assert_eq!(
        wallet.get_balance().unwrap(),
        Balance { immature: 40_000, trusted_pending: 0, untrusted_pending: 30_000, confirmed: 0 }
    );
    let signed =
        create_signed_transaction(&wallet, &change_address(0), FeeRate::from_sat_per_vb(1))
            .unwrap();
    let summary = signed.summary();
    assert_eq!(summary.inputs().len(), 2);
    assert!(summary.inputs().iter().all(|i| i.outpoint.txid == txid.to_vec()));
    assert!(summary.inputs().iter().all(|i| i.outpoint.txid != young.to_vec()));
    assert_eq!(summary.input_total(), 30_000);
    assert!(signed.fee_rate().covers(summary.fee(), signed.virtual_size()));
}

#[test]
fn wallet_that_was_never_synchronised_shows_no_balance() {
    let (database, _txid) = store_of(funding(&[50_000], false), Some(1_000), None);
    let wallet = wallet_over(database);
    assert_eq!(wallet.list_unspent().unwrap().len(), 1);
    assert_eq!(
        wallet.get_balance().unwrap(),
        Balance { immature: 0, trusted_pending: 0, untrusted_pending: 0, confirmed: 0 }
    );
    assert_eq!(wallet.backend().get_balance().unwrap().confirmed, 0);
    let transaction = drain_to(&wallet, &change_address(0), FeeRate::from_sat_per_vb(1)).unwrap();
    assert_eq!(transaction.summary().input_total(), 50_000);
}

#[test]
fn output_of_an_unknown_script_is_not_spent() {
    let mut database = MemoryDatabase::new();
    let tx = funding(&[50_000], false);
    let txid = tx.txid();
    database
        .set_utxo(&bdk::LocalUtxo {
            outpoint: bdk::bitcoin::OutPoint { txid, vout: 0 },
            txout: tx.output[0].clone(),
            keychain: bdk::KeychainKind::External,
            is_spent: false,
        })
        .unwrap();
    database
        .set_tx(&bdk::TransactionDetails {
            transaction: Some(tx),
            txid,
            received: 0,
            sent: 0,
            fee: None,
            confirmation_time: None,
        })
        .unwrap();
    let wallet = wallet_over(database);
    assert_eq!(wallet.list_unspent().unwrap().len(), 1);
    assert_eq!(
        drain_to(&wallet, &change_address(0), FeeRate::from_sat_per_vb(1)).err(),
        Some(WalletError::DescriptorError)
    );
}

#[test]
fn coinbase_above_the_tip_is_a_data_fault() {
    let (database, _txid) = store_of(funding(&[50_000], true), Some(1_001), Some(1_000));
    let wallet = wallet_over(database);
    assert_eq!(wallet.list_unspent().unwrap().len(), 1);
    assert_eq!(wallet.get_balance().err(), Some(WalletError::ChainClientError));
    let (database, _txid) = store_of(funding(&[50_000], true), Some(1_000), Some(1_000));
    assert_eq!(wallet_over(database).get_balance().unwrap().immature, 50_000);
    let (database, _txid) = store_of(funding(&[50_000], false), Some(1_001), Some(1_000));
    assert_eq!(wallet_over(database).get_balance().unwrap().confirmed, 50_000);
}

#[test]
fn balance_beyond_the_supply_is_a_data_fault() {
    let (database, _txid) = store(&[2_100_000_000_000_000, 1], Some(1_000), 1_000);
    assert_eq!(wallet_over(database).get_balance().err(), Some(WalletError::ChainClientError));
    let (database, _txid) = store(&[2_099_999_999_999_999, 1], Some(1_000), 1_000);
    assert_eq!(
        wallet_over(database).get_balance().unwrap().confirmed,
        2_100_000_000_000_000
    );
}

#[test]
fn addresses_fit_networks_as_the_backend_says() {
    let addresses = [
        "bc1p5cyxnuxmeuwuvkwfem96lqzszd02n6xdcjrs20cac6yqjjwudpxqkedrcr",
        "tb1prgvu88s0074nqgq8z95uq250lx4pken99yxerwz5mrcjhrzq642s6l247d",
        "32iVBEu4dxkUQk9dJbZUiBiQdmypcEyJRf",
        "2N83imGV3gPwBzKJQvWJ7cRUY2SpUyU6A5e",
        "1BvBMSEYstWetqTFn5Au4m4GFg7xJaNVN2",
        "mipcBbFg9gMiCh81Kj8tqqdgoZub1ZJRfn",
    ];
    let networks = [
        (wallet_engine::network::Network::Bitcoin, bdk::bitcoin::Network::Bitcoin),
        (wallet_engine::network::Network::Testnet, bdk::bitcoin::Network::Testnet),
        (wallet_engine::network::Network::Signet, bdk::bitcoin::Network::Signet),
        (wallet_engine::network::Network::Regtest, bdk::bitcoin::Network::Regtest),
    ];
    let mut texts: Vec<String> = addresses.iter().map(|a| a.to_string()).collect();
    texts.push(change_address(0));
    for text in texts {
        let address = bdk::bitcoin::Address::from_str(&text).unwrap();
        let parsed = networks.iter().find(|(_, theirs)| *theirs == address.network).unwrap().0;
        let kind = match address.address_type() {
            Some(bdk::bitcoin::AddressType::P2pkh) => wallet_engine::ledger::AddressKind::PubkeyHash,
            Some(bdk::bitcoin::AddressType::P2sh) => wallet_engine::ledger::AddressKind::ScriptHash,
            _ => wallet_engine::ledger::AddressKind::WitnessProgram,
        };
        let destination = wallet_engine::ledger::Destination {
            network: parsed,
            kind,
            script: address.script_pubkey().into_bytes(),
        };
        for (ours, theirs) in networks {
            assert_eq!(
                wallet_engine::spend::is_usable_on(&destination, ours),
                address.is_valid_for_network(theirs),
                "{} on {:?}",
                text,
                theirs
            );
        }
    }
}

#[test]
fn synchronising_writes_through_the_exclusive_backend() {
    let (mut wallet, _txid) = get_funded_wallet_with_change();
    let before = wallet.list_unspent().unwrap();
    let before_tip = wallet.checkpoint();
    assert_eq!(wallet.backend_mut().network(), bdk::bitcoin::Network::Regtest);
    let after = wallet.list_unspent().unwrap();
    assert!(!sync_committed(&before, before_tip, &after, wallet.checkpoint()));
    assert_eq!(
        wallet.get_address(Keychain::External, 0).unwrap().address,
        empty_wallet().get_address(Keychain::External, 0).unwrap().address
    );
}

#[test]
fn many_inputs_at_a_broken_rate_stay_within_the_fee_bounds() {
    let values: Vec<u64> = (0..12).map(|i| 10_000 + i).collect();
    for (satoshi, vbytes) in [(1, 1), (7, 3), (1_234, 1_000), (100, 1), (0, 1)] {
        let (database, _txid) = store(&values, Some(990), 1_000);
        let wallet = wallet_over(database);
        let rate = FeeRate::new(satoshi, vbytes).unwrap();
        let signed = create_signed_transaction(&wallet, &change_address(1), rate).unwrap();
        assert_eq!(signed.summary().inputs().len(), 12);
        assert!(rate.covers(signed.summary().fee(), signed.virtual_size()));
        assert!(rate.allows(signed.summary().fee(), signed.virtual_size(), 12));
        assert!(signed.psbt().inputs.iter().all(|i| i.final_script_witness.is_some()));
    }
}
