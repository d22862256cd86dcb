//! Settings of the wallet manager, the node endpoint setting, and the
//! decisions behind what the menus display.
use crate::wallet::entropy::supported_mnemonic_size;
use crate::wallets::JsonWallet;
use vstd::prelude::*;

verus! {

/// The contents of the wallet manager settings.
pub struct WlltmngrSettingsView {
    pub n_wallets: usize,
    pub mnemonic_size: usize,
    pub n_child: usize,
    pub exists: bool,
    pub present_wllts: usize,
    pub is_loaded: bool,
    pub wallets: Seq<JsonWallet>,
}

/// How many wallets to generate and how, and what is on disk.
#[derive(Debug, Clone)]
pub struct WlltmngrSettings {
    n_wallets: usize,
    mnemonic_size: usize,
    n_child: usize,
    exists: bool,
    present_wllts: usize,
    is_loaded: bool,
    wallets: Vec<JsonWallet>,
}

impl View for WlltmngrSettings {
    type V = WlltmngrSettingsView;

    closed spec fn view(&self) -> WlltmngrSettingsView {
        WlltmngrSettingsView {
            n_wallets: self.n_wallets,
            mnemonic_size: self.mnemonic_size,
            n_child: self.n_child,
            exists: self.exists,
            present_wllts: self.present_wllts,
            is_loaded: self.is_loaded,
            wallets: self.wallets@,
        }
    }
}

/// Ten wallets of twelve words without children, nothing loaded, and
/// `present_wllts` wallet files found on disk.
pub open spec fn default_settings(present_wllts: usize) -> WlltmngrSettingsView {
    WlltmngrSettingsView {
        n_wallets: 10,
        mnemonic_size: 12,
        n_child: 0,
        exists: false,
        present_wllts,
        is_loaded: false,
        wallets: Seq::empty(),
    }
}

impl WlltmngrSettings {
    /// Ten wallets of twelve words without children, nothing loaded, and
    /// `present_wllts` wallet files found on disk.
    pub fn default(present_wllts: usize) -> (s: Self)
        ensures
            s@ == default_settings(present_wllts),
    {
        WlltmngrSettings {
            n_wallets: 10,
            mnemonic_size: 12,
            n_child: 0,
            exists: false,
            present_wllts,
            is_loaded: false,
            wallets: Vec::new(),
        }
    }

    pub fn set_n_wallets(&mut self, n_wallets: usize)
        ensures
            final(self)@ == (WlltmngrSettingsView { n_wallets, ..old(self)@ }),
    {
        self.n_wallets = n_wallets;
    }

    pub fn set_mnemonic_size(&mut self, mnemonic_size: usize)
        ensures
            final(self)@ == (WlltmngrSettingsView { mnemonic_size, ..old(self)@ }),
    {
        self.mnemonic_size = mnemonic_size;
    }

    pub fn set_n_child(&mut self, n_child: usize)
        ensures
            final(self)@ == (WlltmngrSettingsView { n_child, ..old(self)@ }),
    {
        self.n_child = n_child;
    }

    pub fn set_is_loaded(&mut self, is_loaded: bool)
        ensures
            final(self)@ == (WlltmngrSettingsView { is_loaded, ..old(self)@ }),
    {
        self.is_loaded = is_loaded;
    }

    pub fn get_n_wallets(&self) -> (n: usize)
        ensures
            n == self@.n_wallets,
    {
        self.n_wallets
    }

    pub fn get_mnemonic_size(&self) -> (n: usize)
        ensures
            n == self@.mnemonic_size,
    {
        self.mnemonic_size
    }

    pub fn get_n_child(&self) -> (n: usize)
        ensures
            n == self@.n_child,
    {
        self.n_child
    }

    pub fn get_exists(&self) -> (b: bool)
        ensures
            b == self@.exists,
    {
        self.exists
    }

    pub fn get_is_loaded(&self) -> (b: bool)
        ensures
            b == self@.is_loaded,
    {
        self.is_loaded
    }

    pub fn get_present_wllts(&self) -> (n: usize)
        ensures
            n == self@.present_wllts,
    {
        self.present_wllts
    }

    pub fn get_wallets(&self) -> (w: &Vec<JsonWallet>)
        ensures
            w@ == self@.wallets,
    {
        &self.wallets
    }

    pub fn clear_wallets_vec(&mut self)
        ensures
            final(self)@ == (WlltmngrSettingsView { wallets: Seq::empty(), ..old(self)@ }),
    {
        self.wallets.clear();
    }

    pub fn append_wallets_vec(&mut self, wallet: JsonWallet)
        ensures
            final(self)@ == (WlltmngrSettingsView { wallets: old(self)@.wallets.push(wallet), ..old(self)@ }),
    {
        self.wallets.push(wallet);
    }

    /// Records whether the first wallet file exists and how many wallet files
    /// there are.
    pub fn update(&mut self, exists: bool, present_wllts: usize)
        ensures
            final(self)@ == (WlltmngrSettingsView { exists, present_wllts, ..old(self)@ }),
    {
        self.exists = exists;
        self.present_wllts = present_wllts;
    }

    /// Loading is not implemented: nothing is loaded.
    pub fn load(&mut self) -> (loaded: bool)
        ensures
            !loaded,
            final(self)@ == old(self)@,
    {
        // load wllts logic
        false
    }
}

/// All settings of the program.
#[derive(Debug, Clone)]
pub struct Settings {
    wllt: WlltmngrSettings,
}

impl View for Settings {
    type V = WlltmngrSettingsView;

    closed spec fn view(&self) -> WlltmngrSettingsView {
        self.wllt@
    }
}

impl Settings {
    /// Default settings, with `present_wllts` wallet files found on disk.
    pub fn new(present_wllts: usize) -> (s: Self)
        ensures
            s@ == default_settings(present_wllts),
    {
        Settings { wllt: WlltmngrSettings::default(present_wllts) }
    }

    /// The wallet manager settings, to read or change in place.
    pub fn getwlltsettings(&mut self) -> (w: &mut WlltmngrSettings)
        ensures
            w@ == old(self)@,
            final(self)@ == final(w)@,
    {
        &mut self.wllt
    }
}

/// The node endpoint read from the environment file.
#[allow(non_snake_case)]
#[derive(Debug, Clone)]
pub struct Environment {
    pub RPC_ENDPOINT: String,
}

impl Environment {
    pub fn get_rpc(&self) -> (rpc: String)
        ensures
            rpc@ == self.RPC_ENDPOINT@,
    {
        self.RPC_ENDPOINT.clone()
    }
}

/// How a ping is shown.
#[derive(Debug, Clone, Copy, PartialEq, Eq, Structural)]
pub enum PingColor {
    Green,
    Yellow,
    Red,
}

/// Green below 100 ms, yellow below 200 ms, red from there on.
pub fn ping_color(ping: u64) -> (c: PingColor)
    ensures
        ping < 100 ==> c == PingColor::Green,
        100 <= ping < 200 ==> c == PingColor::Yellow,
        200 <= ping ==> c == PingColor::Red,
{
    if ping < 100 {
        PingColor::Green
    } else if ping < 200 {
        PingColor::Yellow
    } else {
        PingColor::Red
    }
}

/// Whether the configured mnemonic size is one the generator honours; other
/// sizes fall back to twelve words.
pub fn mnemonic_size_is_valid(w_size: usize) -> (valid: bool)
    ensures
        valid == supported_mnemonic_size(w_size),
{
    match w_size {
        12 | 15 | 18 | 21 | 24 => true,
        _ => false,
    }
}

} // verus!
