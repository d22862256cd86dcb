use grin_cli::wallet::entropy::{Entropy, WordsSize};
use grin_cli::wallet::ethereum::eth_wallet::ETHWallet;
use grin_cli::wallet::mnemonic::{gen_bip39_seed, mnemonic_size, MnemonicStruct};
use grin_cli::wallet::derivation_path::{DerivationPath, DeriveChild};
use grin_cli::wallet::hmac_sha512::KeyPair;
use grin_cli::wallets::{child_wallet, eth_wallet, eth_wallet_from_entropy, Child, JsonWallet};

const ABANDON: &str = "abandon abandon abandon abandon abandon abandon abandon abandon abandon abandon abandon about";
const ABANDON_SEED: &str = "5eb00bbddcf069084889a8ab9155568165f5c453ccb85e70811aaed6f6da5fc19a5ac40b389cd370d086206dec8aa6c43daea6690f20ad3d8d48b2d2ce9e38e4";

fn to_hex(bytes: &[u8]) -> String {
    bytes.iter().map(|b| format!("{:02x}", b)).collect()
}

#[test]
fn entropy_lengths() {
    assert_eq!(Entropy::new(WordsSize::W12).len(), 16);
    assert_eq!(Entropy::new(WordsSize::W15).len(), 20);
    assert_eq!(Entropy::new(WordsSize::W18).len(), 24);
    assert_eq!(Entropy::new(WordsSize::W21).len(), 28);
    assert_eq!(Entropy::new(WordsSize::W24).len(), 32);
    assert_eq!(Entropy::new(WordsSize::W18).gen_entropy().len(), 24);
}

#[test]
fn words_size_for_settings() {
    assert_eq!(Entropy::new(WordsSize::for_mnemonic_size(15)).len(), 20);
    assert_eq!(Entropy::new(WordsSize::for_mnemonic_size(24)).len(), 32);
    assert_eq!(Entropy::new(WordsSize::for_mnemonic_size(13)).len(), 16);
    assert_eq!(Entropy::new(WordsSize::for_mnemonic_size(0)).len(), 16);
}

#[test]
fn mnemonic_of_zero_entropy() {
    let m = MnemonicStruct::new(&vec![0u8; 16], "");
    assert_eq!(m.get_mnemonic(), ABANDON);
    assert_eq!(m.mnemonic_len(), 12);
    assert_eq!(to_hex(m.get_seed()), ABANDON_SEED);
}

#[test]
fn mnemonic_seed_with_password() {
    let seed = gen_bip39_seed(ABANDON, "TREZOR");
    assert_eq!(
        to_hex(&seed),
        "c55257c360c07c72029aebc1b53c05ed0362ada38ead3e3e9efa3708e53495531f09a6987599d18264c1e1c92f2cf141630c7a3c4ab7c81b2f001698e7463b04"
    );
}

#[test]
fn mnemonic_sizes() {
    assert_eq!(mnemonic_size(ABANDON), 12);
    let m = MnemonicStruct::new(&vec![0xffu8; 32], "");
    assert_eq!(m.mnemonic_len(), 24);
    assert_eq!(mnemonic_size(m.get_mnemonic()), 24);
    assert!(m.get_mnemonic().starts_with("zoo zoo"));
    let m = MnemonicStruct::new(&vec![7u8; 20], "x");
    assert_eq!(m.mnemonic_len(), 15);
}

#[test]
fn eth_private_key_text() {
    let mut k = [0u8; 32];
    for i in 0..32 {
        k[i] = i as u8 * 8;
    }
    assert_eq!(
        ETHWallet::eth_priv_key(&k),
        "0008101820283038404850586068707880889098a0a8b0b8c0c8d0d8e0e8f0f8"
    );
}

#[test]
fn eth_address_of_key_one() {
    let mut k = [0u8; 32];
    k[31] = 1;
    assert_eq!(ETHWallet::eth_addrss(&k), "0x7e5f4552091a69125d5dfcb7b8c2659029395bdf");
    let w = ETHWallet::new(&k);
    assert_eq!(w.private_key, "0000000000000000000000000000000000000000000000000000000000000001");
    assert_eq!(w.address, "0x7e5f4552091a69125d5dfcb7b8c2659029395bdf");
}

#[test]
fn wallet_of_zero_entropy() {
    let (d, phrase, size, master) = eth_wallet_from_entropy(&vec![0u8; 16]).unwrap();
    assert_eq!(phrase, ABANDON);
    assert_eq!(size, 12);
    assert_eq!(to_hex(d.get_keypair().get_pk()), "a29ac2cb17e31cdab42a8fe2d83f04f4b69c5e73bc8d3bf6b5dc96ac239b145a");
    assert_eq!(master.private_key, "1ab42cc412b618bdea3a599e3c9bae199ebf030895b039e9db1e30dafb12b727");
    assert_eq!(master.address, "0x9858effd232b4033e47d90003d41ec34ecaeda94");
}

#[test]
fn child_wallets_of_zero_entropy() {
    let (d, _, _, _) = eth_wallet_from_entropy(&vec![0u8; 16]).unwrap();
    let c1 = child_wallet(&d, 1).unwrap();
    assert_eq!(c1.index, 1);
    assert_eq!(c1.wallet.address, "0x6fac4d18c912343bf86fa7049364dd4e424ab9c0");
    let c2 = child_wallet(&d, 2).unwrap();
    assert_eq!(c2.wallet.address, "0xb6716976a3ebe8d39aceb04372f22ff8e6802d7a");
    assert_eq!(c2.wallet.private_key, "5b824bd1104617939cd07c117ddc4301eb5beeca0904f964158963d69ab9d831");
    let c7 = child_wallet(&d, 7).unwrap();
    assert_eq!(c7.wallet.address, "0x593814d3309e2df31d112824f0bb5aa7cb0d7d47");
}

#[test]
fn random_wallet_is_generated() {
    let (d, phrase, size, master) = eth_wallet(Entropy::new(WordsSize::W24)).unwrap();
    assert_eq!(size, 24);
    assert_eq!(phrase.split(' ').count(), 24);
    assert_eq!(master.private_key.len(), 64);
    assert_eq!(master.address.len(), 42);
    assert!(master.address.starts_with("0x"));
    let again = DeriveChild::wllt_derivation(&d, 0);
    assert_eq!(to_hex(again.get_keypair().get_pk()), master.private_key);
}

#[test]
fn account_state_matches_manual_derivation() {
    let m = MnemonicStruct::new(&vec![0u8; 16], "");
    let mut d = DeriveChild::new(KeyPair::new(m.get_seed()));
    d.path_derivation(&DerivationPath::new(DerivationPath::Ethereum).unwrap());
    let (auto, _, _, _) = eth_wallet_from_entropy(&vec![0u8; 16]).unwrap();
    assert_eq!(d.get_keypair().get_pk(), auto.get_keypair().get_pk());
    assert_eq!(d.get_keypair().get_cc(), auto.get_keypair().get_cc());
}

#[test]
fn json_wallet_holds_its_parts() {
    let mut k = [0u8; 32];
    k[31] = 1;
    let w = ETHWallet::new(&k);
    let c = Child::new(3, w.clone());
    assert_eq!(c.index, 3);
    let jw = JsonWallet::new(ABANDON.to_string(), 12, w.clone(), vec![c]);
    assert_eq!(jw.mnemonic, ABANDON);
    assert_eq!(jw.size, 12);
    assert_eq!(jw.master_wallet.address, w.address);
    assert_eq!(jw.childs_wallet.len(), 1);
    assert_eq!(jw.childs_wallet[0].index, 3);
}

#[test]
fn master_wallet_is_child_zero() {
    let (d, _, _, master) = eth_wallet_from_entropy(&vec![0x5au8; 28]).unwrap();
    let c0 = child_wallet(&d, 0).unwrap();
    assert_eq!(c0.index, 0);
    assert_eq!(c0.wallet.private_key, master.private_key);
    assert_eq!(c0.wallet.address, master.address);
}

#[test]
fn wallet_recovered_from_mnemonic() {
    let entropy = vec![0x31u8; 20];
    let (d, phrase, size, master) = eth_wallet_from_entropy(&entropy).unwrap();
    assert_eq!(size, 15);
    // Recompute everything from the saved phrase alone.
    let seed = gen_bip39_seed(&phrase, "");
    let mut again = DeriveChild::new(KeyPair::new(&seed));
    again.path_derivation(&DerivationPath::new(DerivationPath::Ethereum).unwrap());
    assert_eq!(again.get_keypair().get_pk(), d.get_keypair().get_pk());
    let m0 = DeriveChild::wllt_derivation(&again, 0);
    assert_eq!(to_hex(m0.get_keypair().get_pk()), master.private_key);
    assert_eq!(ETHWallet::eth_addrss(m0.get_keypair().get_pk()), master.address);
}
