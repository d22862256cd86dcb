//! What the menus decide: which action a selection asks for, and how the
//! wallet manager settings change on the way. The terminal program shows
//! the menus, reads the selection and the files on disk, and performs the
//! action that comes back.
use crate::settings::{WlltmngrSettings, WlltmngrSettingsView};
use vstd::prelude::*;

verus! {

/// Entries of the main menu.
#[derive(Debug, Clone, Copy, PartialEq, Eq, Structural)]
pub enum MasterMenuAction {
    WalletManager,
    Connect,
    Quit,
    Unknown,
    NothingSelected,
}

/// The main menu entry for a selection.
pub fn master_menu_action(selection: Option<usize>) -> (a: MasterMenuAction)
    ensures
        a == match selection {
            Some(0) => MasterMenuAction::WalletManager,
            Some(1) => MasterMenuAction::Connect,
            Some(2) => MasterMenuAction::Quit,
            Some(_) => MasterMenuAction::Unknown,
            None => MasterMenuAction::NothingSelected,
        },
{
    match selection {
        Some(index) => match index {
            0 => MasterMenuAction::WalletManager,
            1 => MasterMenuAction::Connect,
            2 => MasterMenuAction::Quit,
            _ => MasterMenuAction::Unknown,
        },
        None => MasterMenuAction::NothingSelected,
    }
}

/// What the wallet manager menu does next.
#[derive(Debug, Clone, Copy, PartialEq, Eq, Structural)]
pub enum WalletMenuAction {
    /// Generate wallets `0..count`, each with `n_child` children and `w_size` words.
    CreateWallets { count: usize, n_child: usize, w_size: usize },
    /// Wallet files are already there; nothing is generated.
    WalletsAlreadyExist,
    /// Read wallet files `0..count` and append each to the settings.
    LoadWallets { count: usize },
    /// There is no wallet file to read.
    NoWalletsToLoad,
    OpenSettings,
    Back,
    Unknown,
    NothingSelected,
}

/// The settings after the wallet manager reacts to a selection, given what
/// the files on disk show right after it (`exists`, `present_wllts`).
pub open spec fn wallet_menu_settings(
    s: WlltmngrSettingsView,
    selection: Option<usize>,
    exists: bool,
    present_wllts: usize,
) -> WlltmngrSettingsView {
    match selection {
        Some(0) => if exists {
            WlltmngrSettingsView { exists, present_wllts, ..s }
        } else {
            WlltmngrSettingsView { exists, present_wllts, is_loaded: false, ..s }
        },
        Some(1) => WlltmngrSettingsView {
            exists,
            present_wllts,
            is_loaded: true,
            wallets: Seq::empty(),
            ..s
        },
        _ => s,
    }
}

/// The action of the wallet manager for a selection, from the settings as
/// they were when the menu was shown.
pub open spec fn wallet_menu_plan(
    s: WlltmngrSettingsView,
    selection: Option<usize>,
    exists: bool,
) -> WalletMenuAction {
    match selection {
        Some(0) => if exists {
            WalletMenuAction::WalletsAlreadyExist
        } else {
            WalletMenuAction::CreateWallets {
                count: s.n_wallets,
                n_child: s.n_child,
                w_size: s.mnemonic_size,
            }
        },
        Some(1) => if s.present_wllts > 0 {
            WalletMenuAction::LoadWallets { count: s.present_wllts }
        } else {
            WalletMenuAction::NoWalletsToLoad
        },
        Some(2) => WalletMenuAction::OpenSettings,
        Some(3) => WalletMenuAction::Back,
        Some(_) => WalletMenuAction::Unknown,
        None => WalletMenuAction::NothingSelected,
    }
}

/// Reacts to a selection in the wallet manager: creating refreshes what is
/// on disk and, when no wallet file is there, marks the wallets as not
/// loaded; loading empties the loaded list, refreshes, and marks it loaded,
/// reading as many files as were counted when the menu was shown.
pub fn wallet_menu_step(
    settings: &mut WlltmngrSettings,
    selection: Option<usize>,
    exists: bool,
    present_wllts: usize,
) -> (action: WalletMenuAction)
    ensures
        action == wallet_menu_plan(old(settings)@, selection, exists),
        final(settings)@ == wallet_menu_settings(old(settings)@, selection, exists, present_wllts),
{
    let n_wallets = settings.get_n_wallets();
    let n_child = settings.get_n_child();
    let w_size = settings.get_mnemonic_size();
    match selection {
        Some(index) => match index {
            0 => {
                settings.update(exists, present_wllts);
                if !settings.get_exists() {
                    settings.set_is_loaded(false);
                    WalletMenuAction::CreateWallets { count: n_wallets, n_child, w_size }
                } else {
                    WalletMenuAction::WalletsAlreadyExist
                }
            },
            1 => {
                let counted = settings.get_present_wllts();
                settings.clear_wallets_vec();
                settings.update(exists, present_wllts);
                settings.set_is_loaded(true);
                if counted > 0 {
                    WalletMenuAction::LoadWallets { count: counted }
                } else {
                    WalletMenuAction::NoWalletsToLoad
                }
            },
            2 => WalletMenuAction::OpenSettings,
            3 => WalletMenuAction::Back,
            _ => WalletMenuAction::Unknown,
        },
        None => WalletMenuAction::NothingSelected,
    }
}

/// Entries of the wallet manager settings menu.
#[derive(Debug, Clone, Copy, PartialEq, Eq, Structural)]
pub enum SettingsMenuAction {
    MnemonicSize,
    NumberOfWallets,
    NumberOfChildren,
    Back,
    Unknown,
    NothingSelected,
}

/// The settings menu entry for a selection.
pub fn settings_menu_action(selection: Option<usize>) -> (a: SettingsMenuAction)
    ensures
        a == match selection {
            Some(0) => SettingsMenuAction::MnemonicSize,
            Some(1) => SettingsMenuAction::NumberOfWallets,
            Some(2) => SettingsMenuAction::NumberOfChildren,
            Some(3) => SettingsMenuAction::Back,
            Some(_) => SettingsMenuAction::Unknown,
            None => SettingsMenuAction::NothingSelected,
        },
{
    match selection {
        Some(index) => match index {
            0 => SettingsMenuAction::MnemonicSize,
            1 => SettingsMenuAction::NumberOfWallets,
            2 => SettingsMenuAction::NumberOfChildren,
            3 => SettingsMenuAction::Back,
            _ => SettingsMenuAction::Unknown,
        },
        None => SettingsMenuAction::NothingSelected,
    }
}

/// Stores the value entered for a settings menu entry; other entries change nothing.
pub fn apply_setting(settings: &mut WlltmngrSettings, entry: SettingsMenuAction, value: usize)
    ensures
        final(settings)@ == match entry {
            SettingsMenuAction::MnemonicSize => WlltmngrSettingsView { mnemonic_size: value, ..old(settings)@ },
            SettingsMenuAction::NumberOfWallets => WlltmngrSettingsView { n_wallets: value, ..old(settings)@ },
            SettingsMenuAction::NumberOfChildren => WlltmngrSettingsView { n_child: value, ..old(settings)@ },
            _ => old(settings)@,
        },
{
    match entry {
        SettingsMenuAction::MnemonicSize => settings.set_mnemonic_size(value),
        SettingsMenuAction::NumberOfWallets => settings.set_n_wallets(value),
        SettingsMenuAction::NumberOfChildren => settings.set_n_child(value),
        _ => {},
    }
}

} // verus!
