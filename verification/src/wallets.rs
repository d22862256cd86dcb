//! A generated wallet: mnemonic, master account and child accounts.
use crate::bytes::{hex_lower, is_valid_secret_key, valid_secret_key};
use crate::primitives::{
    bip39_english_phrase, bip39_seed_bytes, valid_entropy_len,
};
use crate::wallet::derivation_path::{
    child_step, derive_levels, ethereum_levels, levels_derivable, with_path, ChildType,
    DerivationPath, DeriveChild, DeriveChildView,
};
use crate::wallet::entropy::Entropy;
use crate::wallet::ethereum::eth_wallet::{eth_address_text, ETHWallet};
use crate::wallet::hmac_sha512::{master_key_pair, KeyPair};
use crate::wallet::mnemonic::MnemonicStruct;
use vstd::prelude::*;

verus! {

/// A child account and its index.
#[derive(Debug, Clone)]
pub struct Child {
    pub index: u32,
    pub wallet: ETHWallet,
}

impl Child {
    pub fn new(index: u32, wallet: ETHWallet) -> (c: Self)
        ensures
            c.index == index,
            c.wallet == wallet,
    {
        Child { index, wallet }
    }
}

/// Everything a wallet file holds.
#[derive(Debug, Clone)]
pub struct JsonWallet {
    pub mnemonic: String,
    pub size: usize,
    pub master_wallet: ETHWallet,
    pub childs_wallet: Vec<Child>,
}

impl JsonWallet {
    pub fn new(mnemonic: String, size: usize, master_wallet: ETHWallet, childs_wallet: Vec<Child>) -> (w: Self)
        ensures
            w.mnemonic == mnemonic,
            w.size == size,
            w.master_wallet == master_wallet,
            w.childs_wallet == childs_wallet,
    {
        JsonWallet { mnemonic, size, master_wallet, childs_wallet }
    }
}

/// The account levels `m/44'/60'/0'/0` of the Ethereum path.
pub open spec fn account_levels() -> Seq<ChildType> {
    ethereum_levels().take(4)
}

/// The derivation state of the master key of some entropy (empty password).
pub open spec fn master_state(entropy: Seq<u8>) -> DeriveChildView {
    DeriveChildView {
        keypair: master_key_pair(bip39_seed_bytes(bip39_english_phrase(entropy), Seq::empty())),
        path: ChildType::Normal(0),
    }
}

/// The derivation state at `m/44'/60'/0'/0`.
pub open spec fn account_state(entropy: Seq<u8>) -> DeriveChildView {
    derive_levels(master_state(entropy), account_levels())
}

/// The private key of the child at normal index `index`.
pub open spec fn child_key(d: DeriveChildView, index: u32) -> Seq<u8> {
    child_step(with_path(d, ChildType::Normal(index))).keypair.private_key
}

/// Every derivation down to the first account yields a valid secret key.
pub open spec fn wallet_derivable(entropy: Seq<u8>) -> bool {
    &&& levels_derivable(master_state(entropy), account_levels())
    &&& valid_secret_key(account_state(entropy).keypair.private_key)
    &&& valid_secret_key(child_key(account_state(entropy), 0))
}

/// The wallet of `key`.
pub open spec fn wallet_of(w: ETHWallet, key: Seq<u8>) -> bool {
    &&& w.private_key@ == hex_lower(key)
    &&& w.address@ == eth_address_text(key)
}

/// What generating a wallet from `entropy` gives: nothing when a derivation
/// step meets an invalid key, else the account state, the phrase, its size
/// and the master account (index 0 below the account level).
pub open spec fn eth_wallet_outcome(
    entropy: Seq<u8>,
    r: Option<(DeriveChild, String, usize, ETHWallet)>,
) -> bool {
    &&& r is Some <==> wallet_derivable(entropy)
    &&& r matches Some(t) ==> {
        &&& t.0@ == account_state(entropy)
        &&& t.1@ == bip39_english_phrase(entropy)
        &&& t.2 == entropy.len() * 3 / 4
        &&& wallet_of(t.3, child_key(account_state(entropy), 0))
    }
}

/// Generates the wallet of some entropy: mnemonic, seed, master key,
/// derivation to `m/44'/60'/0'/0`, and the master account below it.
pub fn eth_wallet_from_entropy(entropy: &Vec<u8>) -> (r: Option<(DeriveChild, String, usize, ETHWallet)>)
    requires
        valid_entropy_len(entropy@.len()),
    ensures
        eth_wallet_outcome(entropy@, r),
{
    // Generate mnemonic and bip39 mnemonic/seed.
    let passwrd = "";
    proof {
        reveal_strlit("");
        assert(passwrd@ =~= Seq::<char>::empty());
    }
    let mnemonic = MnemonicStruct::new(entropy, passwrd);
    // The master key pair from hmac-sha512 of the seed.
    let keypair = KeyPair::new(mnemonic.get_seed());
    // Derive to path m/44'/60'/0'/0.
    let path = DerivationPath::new(DerivationPath::Ethereum).unwrap();
    let mut derivation = DeriveChild::new(keypair);
    proof {
        assert(derivation@ == master_state(entropy@));
    }
    if !derivation.try_path_derivation(&path) {
        return None;
    }
    if !is_valid_secret_key(derivation.get_keypair().get_pk()) {
        return None;
    }
    // The master wallet key pair.
    let master_wallet = DeriveChild::wllt_derivation(&derivation, 0);
    if !is_valid_secret_key(master_wallet.get_keypair().get_pk()) {
        return None;
    }
    let master = ETHWallet::new(master_wallet.get_keypair().get_pk());
    let size = mnemonic.mnemonic_len();
    Some((derivation, mnemonic.mnemonic_words, size, master))
}

/// Draws fresh entropy of the configured size and generates its wallet.
pub fn eth_wallet(generator: Entropy) -> (r: Option<(DeriveChild, String, usize, ETHWallet)>)
    ensures
        exists|e: Seq<u8>| e.len() == generator.size().byte_len() && #[trigger] eth_wallet_outcome(e, r),
{
    let entropy = generator.gen_entropy();
    let r = eth_wallet_from_entropy(&entropy);
    r
}

/// The child account at normal index `index` below a derivation state, or
/// nothing when its key is not a valid secret key.
pub fn child_wallet(derivation2path: &DeriveChild, index: u32) -> (c: Option<Child>)
    requires
        valid_secret_key(derivation2path@.keypair.private_key),
    ensures
        c is Some <==> valid_secret_key(child_key(derivation2path@, index)),
        c matches Some(ch) ==> ch.index == index && wallet_of(ch.wallet, child_key(derivation2path@, index)),
{
    let derived = DeriveChild::wllt_derivation(derivation2path, index);
    if !is_valid_secret_key(derived.get_keypair().get_pk()) {
        return None;
    }
    let wallet = ETHWallet::new(derived.get_keypair().get_pk());
    Some(Child::new(index, wallet))
}

} // verus!
