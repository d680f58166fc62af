use wallet_engine::api::{get_address, AddressInfoDef};
use wallet_engine::error::WalletError;
use wallet_engine::keychain::Keychain;
use wallet_engine::ledger::AddressInfo;
use wallet_engine::network::Network;
use wallet_engine::path::{
    ChildStep, DerivationPath, DEFAULT_DERIVATION_PATH_EXTERNAL, DEFAULT_DERIVATION_PATH_INTERNAL,
};
use wallet_engine::state::{create_wallet, WalletState};

const MNEMONIC_12: &str =
    "abandon abandon abandon abandon abandon abandon abandon abandon abandon abandon abandon cactus";
const MNEMONIC_24: &str = "abandon abandon abandon abandon abandon abandon abandon abandon abandon abandon abandon abandon abandon abandon abandon abandon abandon abandon abandon abandon abandon abandon abandon art";
const MNEMONIC_ABOUT: &str =
    "abandon abandon abandon abandon abandon abandon abandon abandon abandon abandon abandon about";

fn is_wallet<T: ?Sized + 'static>(_s: &T) -> bool {
    std::any::TypeId::of::<WalletState>() == std::any::TypeId::of::<T>()
}

fn steps(path: &DerivationPath) -> Vec<(u32, bool)> {
    (0..path.len()).map(|i| path.step(i).unwrap()).map(|s| (s.index, s.hardened)).collect()
}

#[test]
fn test_create_wallet() {
    let mnemonic_12 = MNEMONIC_12;
    let mnemonic_24 = MNEMONIC_24;
    let wallet_mainnet_12 = create_wallet(
        mnemonic_12,
        "mainnet",
        DEFAULT_DERIVATION_PATH_EXTERNAL,
        DEFAULT_DERIVATION_PATH_INTERNAL,
    )
    .unwrap();
    let wallet_mainnet_24 = create_wallet(
        mnemonic_24,
        "mainnet",
        DEFAULT_DERIVATION_PATH_EXTERNAL,
        DEFAULT_DERIVATION_PATH_INTERNAL,
    )
    .unwrap();
    let wallet_testnet_12 = create_wallet(
        mnemonic_12,
        "testnet",
        DEFAULT_DERIVATION_PATH_EXTERNAL,
        DEFAULT_DERIVATION_PATH_INTERNAL,
    )
    .unwrap();
    let wallet_testnet_24 = create_wallet(
        mnemonic_24,
        "testnet",
        DEFAULT_DERIVATION_PATH_EXTERNAL,
        DEFAULT_DERIVATION_PATH_INTERNAL,
    )
    .unwrap();

    assert!(is_wallet(&wallet_mainnet_12));
    assert!(is_wallet(&wallet_mainnet_24));
    assert!(is_wallet(&wallet_testnet_12));
    assert!(is_wallet(&wallet_testnet_24));
    assert_eq!(wallet_mainnet_12.network(), Network::Bitcoin);
    assert_eq!(wallet_mainnet_24.network(), Network::Bitcoin);
    assert_eq!(wallet_testnet_12.network(), Network::Testnet);
    assert_eq!(wallet_testnet_24.network(), Network::Testnet);
    assert_eq!(wallet_mainnet_12.backend().network(), bdk::bitcoin::Network::Bitcoin);
    assert_eq!(wallet_mainnet_24.backend().network(), bdk::bitcoin::Network::Bitcoin);
    assert_eq!(wallet_testnet_12.backend().network(), bdk::bitcoin::Network::Testnet);
    assert_eq!(wallet_testnet_24.backend().network(), bdk::bitcoin::Network::Testnet);
}

#[test]
fn default_paths_are_those_of_taproot() {
    assert_eq!(DEFAULT_DERIVATION_PATH_EXTERNAL, "m/86'/0'/0'/0");
    assert_eq!(DEFAULT_DERIVATION_PATH_INTERNAL, "m/86'/0'/0'/1");
}

#[test]
fn paths_parse_into_steps() {
    let path = DerivationPath::parse("m/86'/0'/0'/0").unwrap();
    assert_eq!(steps(&path), vec![(86, true), (0, true), (0, true), (0, false)]);
    assert_eq!(path.step(0), Some(ChildStep { index: 86, hardened: true }));
    assert_eq!(path.step(3), Some(ChildStep { index: 0, hardened: false }));
    assert_eq!(path.step(4), None);
    let path = DerivationPath::parse("m/86h/1h/2147483647/7").unwrap();
    assert_eq!(steps(&path), vec![(86, true), (1, true), (2_147_483_647, false), (7, false)]);
    let path = DerivationPath::parse("m").unwrap();
    assert_eq!(path.len(), 0);
}

#[test]
fn malformed_paths_are_refused() {
    for text in ["", "86'/0'", "m/", "m/x", "m/2147483648", "m/86''", "n/0", "m/0/", "m / 0"] {
        assert_eq!(
            DerivationPath::parse(text).unwrap_err(),
            WalletError::InvalidDerivationPath,
            "{:?}",
            text
        );
    }
}

#[test]
fn wallets_of_every_network_are_bound_to_it() {
    let cases = [
        ("mainnet", Network::Bitcoin, bdk::bitcoin::Network::Bitcoin),
        ("testnet", Network::Testnet, bdk::bitcoin::Network::Testnet),
        ("signet", Network::Signet, bdk::bitcoin::Network::Signet),
        ("regtest", Network::Regtest, bdk::bitcoin::Network::Regtest),
        ("foo", Network::Testnet, bdk::bitcoin::Network::Testnet),
    ];
    for mnemonic in [MNEMONIC_12, MNEMONIC_24] {
        for (name, network, chain) in cases {
            let wallet = create_wallet(
                mnemonic,
                name,
                DEFAULT_DERIVATION_PATH_EXTERNAL,
                DEFAULT_DERIVATION_PATH_INTERNAL,
            )
            .unwrap();
            assert_eq!(wallet.network(), network);
            assert_eq!(wallet.backend().network(), chain);
        }
    }
}

#[test]
fn branches_never_share_an_address() {
    for mnemonic in [MNEMONIC_12, MNEMONIC_24] {
        for name in ["mainnet", "testnet", "signet", "regtest"] {
            let wallet = create_wallet(
                mnemonic,
                name,
                DEFAULT_DERIVATION_PATH_EXTERNAL,
                DEFAULT_DERIVATION_PATH_INTERNAL,
            )
            .unwrap();
            let mut seen = std::collections::HashSet::new();
            for index in 0..8 {
                let receive = wallet.get_address(Keychain::External, index).unwrap();
                let change = wallet.get_address(Keychain::Internal, index).unwrap();
                assert_ne!(receive.address, change.address);
                assert!(seen.insert(receive.address));
                assert!(seen.insert(change.address));
            }
        }
    }
}

#[test]
fn new_wallet_holds_nothing() {
    let wallet = create_wallet(
        MNEMONIC_24,
        "regtest",
        DEFAULT_DERIVATION_PATH_EXTERNAL,
        DEFAULT_DERIVATION_PATH_INTERNAL,
    )
    .unwrap();
    assert_eq!(wallet.list_unspent().unwrap().len(), 0);
    let balance = wallet.get_balance().unwrap();
    assert_eq!(
        (balance.immature, balance.trusted_pending, balance.untrusted_pending, balance.confirmed),
        (0, 0, 0, 0)
    );
}

#[test]
fn invalid_mnemonics_are_refused() {
    let refused = |mnemonic: &str| {
        create_wallet(
            mnemonic,
            "mainnet",
            DEFAULT_DERIVATION_PATH_EXTERNAL,
            DEFAULT_DERIVATION_PATH_INTERNAL,
        )
        .err()
    };
    assert_eq!(refused(""), Some(WalletError::InvalidMnemonic));
    assert_eq!(refused("abandon abandon abandon"), Some(WalletError::InvalidMnemonic));
    assert_eq!(
        refused("abandon abandon abandon abandon abandon abandon abandon abandon abandon abandon abandon abandon"),
        Some(WalletError::InvalidMnemonic)
    );
    assert_eq!(
        refused("abandon abandon abandon abandon abandon abandon abandon abandon abandon abandon abandon zzzz"),
        Some(WalletError::InvalidMnemonic)
    );
    assert_eq!(refused(MNEMONIC_12), None);
}

#[test]
fn mnemonic_is_tested_before_the_paths() {
    assert_eq!(
        create_wallet("not a phrase", "mainnet", "bad", "worse").err(),
        Some(WalletError::InvalidMnemonic)
    );
    assert_eq!(
        create_wallet(MNEMONIC_12, "mainnet", "bad", DEFAULT_DERIVATION_PATH_INTERNAL).err(),
        Some(WalletError::InvalidDerivationPath)
    );
    assert_eq!(
        create_wallet(MNEMONIC_12, "mainnet", DEFAULT_DERIVATION_PATH_EXTERNAL, "m/1/x").err(),
        Some(WalletError::InvalidDerivationPath)
    );
}

#[test]
fn addresses_follow_the_taproot_vectors() {
    let wallet = create_wallet(
        MNEMONIC_ABOUT,
        "mainnet",
        DEFAULT_DERIVATION_PATH_EXTERNAL,
        DEFAULT_DERIVATION_PATH_INTERNAL,
    )
    .unwrap();
    let first = wallet.get_address(Keychain::External, 0).unwrap();
    assert_eq!(first.address, "bc1p5cyxnuxmeuwuvkwfem96lqzszd02n6xdcjrs20cac6yqjjwudpxqkedrcr");
    assert_eq!(first.index, 0);
    assert_eq!(first.keychain, Keychain::External);
    let second = wallet.get_address(Keychain::External, 1).unwrap();
    assert_eq!(second.address, "bc1p4qhjn9zdvkux4e44uhx8tc55attvtyu358kutcqkudyccelu0was9fqzwh");
    assert_eq!(second.index, 1);
    let change = wallet.get_address(Keychain::Internal, 0).unwrap();
    assert_eq!(change.address, "bc1p3qkhfews2uk44qtvauqyr2ttdsw7svhkl9nkm9s9c3x4ax5h60wqwruhk7");
    assert_eq!(change.keychain, Keychain::Internal);
}

#[test]
fn same_index_gives_same_address() {
    let wallet = create_wallet(
        MNEMONIC_24,
        "regtest",
        DEFAULT_DERIVATION_PATH_EXTERNAL,
        DEFAULT_DERIVATION_PATH_INTERNAL,
    )
    .unwrap();
    let again = create_wallet(
        MNEMONIC_24,
        "regtest",
        DEFAULT_DERIVATION_PATH_EXTERNAL,
        DEFAULT_DERIVATION_PATH_INTERNAL,
    )
    .unwrap();
    for index in [0, 1, 5, 1_000, 0x7FFF_FFFF] {
        let first = wallet.get_address(Keychain::External, index).unwrap();
        let second = wallet.get_address(Keychain::External, index).unwrap();
        let third = again.get_address(Keychain::External, index).unwrap();
        assert_eq!(first.address.as_bytes(), second.address.as_bytes());
        assert_eq!(first.address.as_bytes(), third.address.as_bytes());
        assert!(first.address.starts_with("bcrt1p"));
        assert_eq!(first.index, index);
    }
}

#[test]
fn only_child_indices_have_addresses() {
    let wallet = create_wallet(
        MNEMONIC_24,
        "regtest",
        DEFAULT_DERIVATION_PATH_EXTERNAL,
        DEFAULT_DERIVATION_PATH_INTERNAL,
    )
    .unwrap();
    assert!(wallet.get_address(Keychain::External, 0x7FFF_FFFF).is_ok());
    assert!(wallet.get_address(Keychain::Internal, 0x7FFF_FFFF).is_ok());
    assert_eq!(
        wallet.get_address(Keychain::External, 0x8000_0000).err(),
        Some(WalletError::InvalidDerivationPath)
    );
    assert_eq!(
        wallet.get_address(Keychain::Internal, u32::MAX).err(),
        Some(WalletError::InvalidDerivationPath)
    );
    assert_eq!(
        get_address(MNEMONIC_24, "regtest", "receive", 0x8000_0000).err(),
        Some(WalletError::InvalidDerivationPath)
    );
}

#[test]
fn paths_too_deep_for_a_key_are_refused() {
    let deep = |steps: usize| format!("m{}", "/0".repeat(steps));
    assert!(create_wallet(MNEMONIC_12, "regtest", &deep(254), DEFAULT_DERIVATION_PATH_INTERNAL)
        .is_ok());
    assert_eq!(
        create_wallet(MNEMONIC_12, "regtest", &deep(255), DEFAULT_DERIVATION_PATH_INTERNAL).err(),
        Some(WalletError::InvalidDerivationPath)
    );
    assert_eq!(
        create_wallet(MNEMONIC_12, "regtest", DEFAULT_DERIVATION_PATH_EXTERNAL, &deep(300)).err(),
        Some(WalletError::InvalidDerivationPath)
    );
}

#[test]
fn get_address_reports_index_and_branch() {
    let report = get_address(MNEMONIC_ABOUT, "mainnet", "receive", 0).unwrap();
    assert_eq!(report.index, 0);
    assert_eq!(report.address, "bc1p5cyxnuxmeuwuvkwfem96lqzszd02n6xdcjrs20cac6yqjjwudpxqkedrcr");
    assert_eq!(report.keychain, "External");
    let report = get_address(MNEMONIC_ABOUT, "mainnet", "change", 0).unwrap();
    assert_eq!(report.address, "bc1p3qkhfews2uk44qtvauqyr2ttdsw7svhkl9nkm9s9c3x4ax5h60wqwruhk7");
    assert_eq!(report.keychain, "Internal");
    let report = get_address(MNEMONIC_ABOUT, "mainnet", "neither", 1).unwrap();
    assert_eq!(report.index, 1);
    assert_eq!(report.address, "bc1p4qhjn9zdvkux4e44uhx8tc55attvtyu358kutcqkudyccelu0was9fqzwh");
    assert_eq!(report.keychain, "External");
    let twice = get_address(MNEMONIC_ABOUT, "mainnet", "neither", 1).unwrap();
    assert_eq!(report.address.as_bytes(), twice.address.as_bytes());
}

#[test]
fn get_address_on_unknown_network_is_testnet() {
    let foo = get_address(MNEMONIC_24, "foo", "receive", 3).unwrap();
    let testnet = get_address(MNEMONIC_24, "testnet", "receive", 3).unwrap();
    let mainnet = get_address(MNEMONIC_24, "mainnet", "receive", 3).unwrap();
    assert_eq!(foo.address, testnet.address);
    assert!(foo.address.starts_with("tb1p"));
    assert!(mainnet.address.starts_with("bc1p"));
}

#[test]
fn get_address_refuses_invalid_mnemonic() {
    assert_eq!(
        get_address("abandon", "mainnet", "receive", 0).err(),
        Some(WalletError::InvalidMnemonic)
    );
}

#[test]
fn address_report_keeps_what_it_is_given() {
    let info = AddressInfo {
        index: 4_294_967_295,
        address: String::from("bcrt1pexample"),
        keychain: Keychain::Internal,
    };
    let report = AddressInfoDef::from(info);
    assert_eq!(report.index, 4_294_967_295);
    assert_eq!(report.address, "bcrt1pexample");
    assert_eq!(report.keychain, "Internal");
}

#[test]
fn unusual_paths_still_give_addresses() {
    for (external, internal) in [("m/0/1'", "m/1'/0"), ("m", "m/1"), ("m/2147483647'", "m/2147483647")] {
        let wallet = create_wallet(MNEMONIC_12, "regtest", external, internal).unwrap();
        let receive = wallet.get_address(Keychain::External, 0).unwrap();
        let change = wallet.get_address(Keychain::Internal, 7).unwrap();
        assert!(receive.address.starts_with("bcrt1p"));
        assert!(change.address.starts_with("bcrt1p"));
        assert_ne!(receive.address, change.address);
    }
}

#[test]
fn equal_paths_are_refused() {
    for (external, internal) in [
        (DEFAULT_DERIVATION_PATH_EXTERNAL, DEFAULT_DERIVATION_PATH_EXTERNAL),
        ("m/86'/0'/0'/0", "m/86h/0h/0h/0"),
        ("m", "m"),
    ] {
        assert_eq!(
            create_wallet(MNEMONIC_12, "regtest", external, internal).err(),
            Some(WalletError::InvalidDerivationPath)
        );
    }
    assert!(create_wallet(MNEMONIC_12, "regtest", "m/0", "m/0'").is_ok());
    let one = DerivationPath::parse("m/86'/0'/0'/0").unwrap();
    assert!(one.same_steps(&DerivationPath::parse("m/86h/0h/0h/0").unwrap()));
    assert!(!one.same_steps(&DerivationPath::parse("m/86'/0'/0'/1").unwrap()));
    assert!(!one.same_steps(&DerivationPath::parse("m/86'/0'/0'").unwrap()));
    assert!(!one.same_steps(&DerivationPath::parse("m/86'/0'/0/0").unwrap()));
}

#[test]
fn index_beyond_the_children_is_refused() {
    assert_eq!(
        get_address(MNEMONIC_24, "regtest", "receive", 0x8000_0000).err(),
        Some(WalletError::InvalidDerivationPath)
    );
    assert_eq!(
        get_address(MNEMONIC_24, "regtest", "receive", 0x1_0000_0005).err(),
        Some(WalletError::InvalidDerivationPath)
    );
    assert_eq!(
        get_address(MNEMONIC_24, "regtest", "change", usize::MAX).err(),
        Some(WalletError::InvalidDerivationPath)
    );
    assert_eq!(get_address(MNEMONIC_24, "regtest", "receive", 0x7FFF_FFFF).unwrap().index, 0x7FFF_FFFF);
}
