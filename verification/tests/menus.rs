use grin_cli::menus::{
    apply_setting, master_menu_action, settings_menu_action, wallet_menu_step, MasterMenuAction,
    SettingsMenuAction, WalletMenuAction,
};
use grin_cli::settings::WlltmngrSettings;
use grin_cli::wallet::ethereum::eth_wallet::ETHWallet;
use grin_cli::wallets::JsonWallet;

fn some_wallet() -> JsonWallet {
    let mut k = [0u8; 32];
    k[31] = 1;
    JsonWallet::new("m".to_string(), 12, ETHWallet::new(&k), Vec::new())
}

#[test]
fn master_menu_entries() {
    assert_eq!(master_menu_action(Some(0)), MasterMenuAction::WalletManager);
    assert_eq!(master_menu_action(Some(1)), MasterMenuAction::Connect);
    assert_eq!(master_menu_action(Some(2)), MasterMenuAction::Quit);
    assert_eq!(master_menu_action(Some(3)), MasterMenuAction::Unknown);
    assert_eq!(master_menu_action(None), MasterMenuAction::NothingSelected);
}

#[test]
fn create_wallets_when_none_exist() {
    let mut s = WlltmngrSettings::default(0);
    s.set_n_wallets(3);
    s.set_n_child(5);
    s.set_mnemonic_size(18);
    s.set_is_loaded(true);
    let a = wallet_menu_step(&mut s, Some(0), false, 0);
    assert_eq!(a, WalletMenuAction::CreateWallets { count: 3, n_child: 5, w_size: 18 });
    assert!(!s.get_is_loaded());
    assert!(!s.get_exists());
}

#[test]
fn create_refused_when_wallets_exist() {
    let mut s = WlltmngrSettings::default(2);
    s.set_is_loaded(true);
    let a = wallet_menu_step(&mut s, Some(0), true, 2);
    assert_eq!(a, WalletMenuAction::WalletsAlreadyExist);
    assert!(s.get_is_loaded());
    assert!(s.get_exists());
}

#[test]
fn load_counts_files_seen_when_menu_was_shown() {
    let mut s = WlltmngrSettings::default(2);
    s.append_wallets_vec(some_wallet());
    let a = wallet_menu_step(&mut s, Some(1), true, 4);
    assert_eq!(a, WalletMenuAction::LoadWallets { count: 2 });
    assert!(s.get_wallets().is_empty());
    assert!(s.get_is_loaded());
    assert_eq!(s.get_present_wllts(), 4);
}

#[test]
fn load_with_no_files() {
    let mut s = WlltmngrSettings::default(0);
    let a = wallet_menu_step(&mut s, Some(1), false, 0);
    assert_eq!(a, WalletMenuAction::NoWalletsToLoad);
    assert!(s.get_is_loaded());
}

#[test]
fn other_wallet_menu_entries() {
    let mut s = WlltmngrSettings::default(1);
    assert_eq!(wallet_menu_step(&mut s, Some(2), true, 9), WalletMenuAction::OpenSettings);
    assert_eq!(wallet_menu_step(&mut s, Some(3), true, 9), WalletMenuAction::Back);
    assert_eq!(wallet_menu_step(&mut s, Some(4), true, 9), WalletMenuAction::Unknown);
    assert_eq!(wallet_menu_step(&mut s, None, true, 9), WalletMenuAction::NothingSelected);
    assert_eq!(s.get_present_wllts(), 1);
    assert!(!s.get_exists());
}

#[test]
fn settings_menu_entries_and_values() {
    assert_eq!(settings_menu_action(Some(0)), SettingsMenuAction::MnemonicSize);
    assert_eq!(settings_menu_action(Some(1)), SettingsMenuAction::NumberOfWallets);
    assert_eq!(settings_menu_action(Some(2)), SettingsMenuAction::NumberOfChildren);
    assert_eq!(settings_menu_action(Some(3)), SettingsMenuAction::Back);
    assert_eq!(settings_menu_action(Some(7)), SettingsMenuAction::Unknown);
    assert_eq!(settings_menu_action(None), SettingsMenuAction::NothingSelected);
    let mut s = WlltmngrSettings::default(0);
    apply_setting(&mut s, SettingsMenuAction::MnemonicSize, 24);
    apply_setting(&mut s, SettingsMenuAction::NumberOfWallets, 2);
    apply_setting(&mut s, SettingsMenuAction::NumberOfChildren, 20);
    apply_setting(&mut s, SettingsMenuAction::Back, 99);
    assert_eq!(s.get_mnemonic_size(), 24);
    assert_eq!(s.get_n_wallets(), 2);
    assert_eq!(s.get_n_child(), 20);
}
