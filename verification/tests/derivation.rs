use grin_cli::wallet::derivation_path::{ChildType, DerivationPath, DeriveChild};
use grin_cli::wallet::hmac_sha512::{generate_hmac_sha512, KeyPair};

fn bytes32(hex_text: &str) -> [u8; 32] {
    let mut out = [0u8; 32];
    for i in 0..32 {
        out[i] = u8::from_str_radix(&hex_text[2 * i..2 * i + 2], 16).unwrap();
    }
    out
}

fn to_hex(bytes: &[u8]) -> String {
    bytes.iter().map(|b| format!("{:02x}", b)).collect()
}

fn bip32_vector1_seed() -> Vec<u8> {
    (0u8..16).collect()
}

fn abandon_seed() -> Vec<u8> {
    let seed = "5eb00bbddcf069084889a8ab9155568165f5c453ccb85e70811aaed6f6da5fc19a5ac40b389cd370d086206dec8aa6c43daea6690f20ad3d8d48b2d2ce9e38e4";
    (0..64).map(|i| u8::from_str_radix(&seed[2 * i..2 * i + 2], 16).unwrap()).collect()
}

#[test]
fn child_type_values() {
    assert_eq!(ChildType::normal(0).get_value(), 0);
    assert_eq!(ChildType::normal(7).get_value(), 7);
    assert_eq!(ChildType::hardened(0).get_value(), 0x8000_0000);
    assert_eq!(ChildType::hardened(44).get_value(), 0x8000_002C);
    assert_eq!(ChildType::hardened(0x7FFF_FFFF).get_value(), 0xFFFF_FFFF);
    assert_eq!(ChildType::Normal(0x8000_0005).get_value(), 0x8000_0005);
}

#[test]
fn derivation_path_none_has_no_levels() {
    assert!(DerivationPath::new(DerivationPath::NoPath).is_none());
    assert!(DerivationPath::new(DerivationPath::Ethereum).is_some());
}

#[test]
fn master_key_of_bip32_vector_one() {
    let (l, r) = generate_hmac_sha512(&bip32_vector1_seed());
    assert_eq!(to_hex(&l), "e8f32e723decf4051aefac8e2c93c9c5b214313817cdb01a1494b917c8436b35");
    assert_eq!(to_hex(&r), "873dff81c02f525623fd1fe5167eac3a55a049de3d314bb42ee227ffed37d508");
    let kp = KeyPair::new(&bip32_vector1_seed());
    assert_eq!(kp.get_pk(), &l);
    assert_eq!(kp.get_cc(), &r);
}

#[test]
fn root_key_of_bip32_vector_one() {
    let kp = KeyPair::new(&bip32_vector1_seed());
    assert_eq!(
        kp.gen_prk(),
        "xprv9s21ZrQH143K3QTDL4LXw2F7HEK3wJUD2nW2nRk4stbPy6cq3jPPqjiChkVvvNKmPGJxWUtg6LnF5kejMRNNU3TGtRBeJgk33yuGBxrMPHi"
    );
}

#[test]
fn key_pair_new_ack_keeps_halves() {
    let a = bytes32("1837c1be8e2995ec11cda2b066151be2cfb48adf9e47b151d46adab3a21cdf67");
    let b = bytes32("7923408dadd3c7b56eed15567707ae5e5dca089de972e07f3b860450e2a3b70e");
    let kp = KeyPair::new_ack(a, b);
    assert_eq!(kp.get_pk(), &a);
    assert_eq!(kp.get_cc(), &b);
}

#[test]
fn child_key_addition_wraps_at_the_order() {
    // n - 1 plus 2 is 1 modulo the order.
    let n_minus_1 = bytes32("fffffffffffffffffffffffffffffffebaaedce6af48a03bbfd25e8cd0364140");
    let kp = KeyPair::new_ack(n_minus_1, [0u8; 32]);
    let mut two = [0u8; 32];
    two[31] = 2;
    let mut one = [0u8; 32];
    one[31] = 1;
    assert_eq!(kp.childpk_from_secp256k1(&two), one);
    // (2^256 - 1) + (2^256 - 1) reduces twice.
    let max = [0xffu8; 32];
    let kp = KeyPair::new_ack(max, [0u8; 32]);
    assert_eq!(
        to_hex(&kp.childpk_from_secp256k1(&max)),
        "000000000000000000000000000000028aa24632a16ebf88805b42e65f937d7c"
    );
    // Small values add without reduction.
    let mut three = [0u8; 32];
    three[31] = 3;
    let kp = KeyPair::new_ack(two, [0u8; 32]);
    let mut five = [0u8; 32];
    five[31] = 5;
    assert_eq!(kp.childpk_from_secp256k1(&three), five);
}

#[test]
fn parent_fingerprint_of_master_keys() {
    let kp = KeyPair::new(&bip32_vector1_seed());
    match kp.parent_fingerprint() {
        ChildType::Normal(v) => assert_eq!(v, 1041842740),
        ChildType::Hardened(_) => panic!("expected a normal level"),
    }
    let kp = KeyPair::new(&abandon_seed());
    assert_eq!(kp.parent_fingerprint().get_value(), 182109555);
}

#[test]
fn hardened_step_matches_bip32_vector_one() {
    let mut d = DeriveChild::new(KeyPair::new(&bip32_vector1_seed()));
    d.change_path(&ChildType::hardened(0));
    d.derivate_child();
    assert_eq!(to_hex(d.get_keypair().get_pk()), "edb2e14f9ee77d26dd93b4ecede8d16ed408ce149b6cd80b0715a2d911a0afea");
    assert_eq!(to_hex(d.get_keypair().get_cc()), "47fdacbd0f1097043b78c63c20c34ef4ed9a111d980047ad16282c7ae6236141");
}

#[test]
fn normal_step_from_bip32_master() {
    let mut d = DeriveChild::new(KeyPair::new(&bip32_vector1_seed()));
    d.change_path(&ChildType::normal(1));
    d.derivate_child();
    assert_eq!(to_hex(d.get_keypair().get_pk()), "4df92b81d2727c0434dc6567e01ceaec80e408974b131b8085490313d2f82a9e");
    assert_eq!(to_hex(d.get_keypair().get_cc()), "8dd96414ff4d5b4750be3af7fecce207173f86d6b5f58f9366297180de8e109b");
}

#[test]
fn path_derivation_reaches_account_level() {
    let path = DerivationPath::new(DerivationPath::Ethereum).unwrap();
    let mut d = DeriveChild::new(KeyPair::new(&abandon_seed()));
    let reached = d.path_derivation(&path);
    assert_eq!(to_hex(reached.get_keypair().get_pk()), "a29ac2cb17e31cdab42a8fe2d83f04f4b69c5e73bc8d3bf6b5dc96ac239b145a");
    assert_eq!(to_hex(reached.get_keypair().get_cc()), "c879d136f02003dc804811e42390714ea06448aeaee158c62d65f12a421d988f");
}

#[test]
fn try_path_derivation_agrees() {
    let path = DerivationPath::new(DerivationPath::Ethereum).unwrap();
    let mut d = DeriveChild::new(KeyPair::new(&abandon_seed()));
    assert!(d.try_path_derivation(&path));
    assert_eq!(to_hex(d.get_keypair().get_pk()), "a29ac2cb17e31cdab42a8fe2d83f04f4b69c5e73bc8d3bf6b5dc96ac239b145a");
}

#[test]
fn try_path_derivation_refuses_zero_key() {
    let path = DerivationPath::new(DerivationPath::Ethereum).unwrap();
    let mut d = DeriveChild::new(KeyPair::new_ack([0u8; 32], [1u8; 32]));
    assert!(!d.try_path_derivation(&path));
    assert_eq!(d.get_keypair().get_pk(), &[0u8; 32]);
    assert_eq!(d.get_keypair().get_cc(), &[1u8; 32]);
}

#[test]
fn wallet_derivation_of_first_accounts() {
    let path = DerivationPath::new(DerivationPath::Ethereum).unwrap();
    let mut d = DeriveChild::new(KeyPair::new(&abandon_seed()));
    d.path_derivation(&path);
    let m0 = DeriveChild::wllt_derivation(&d, 0);
    assert_eq!(to_hex(m0.get_keypair().get_pk()), "1ab42cc412b618bdea3a599e3c9bae199ebf030895b039e9db1e30dafb12b727");
    let c1 = DeriveChild::wllt_derivation(&d, 1);
    assert_eq!(to_hex(c1.get_keypair().get_pk()), "9a983cb3d832fbde5ab49d692b7a8bf5b5d232479c99333d0fc8e1d21f1b55b6");
    // The account state is left as it was.
    assert_eq!(to_hex(d.get_keypair().get_pk()), "a29ac2cb17e31cdab42a8fe2d83f04f4b69c5e73bc8d3bf6b5dc96ac239b145a");
}

#[test]
fn change_kp_and_path() {
    let mut d = DeriveChild::new(KeyPair::new_ack([3u8; 32], [4u8; 32]));
    d.change_kp(KeyPair::new_ack([5u8; 32], [6u8; 32]));
    assert_eq!(d.get_keypair().get_pk(), &[5u8; 32]);
    assert_eq!(d.get_keypair().get_cc(), &[6u8; 32]);
}
