//! The extended key pair (private key and chain code) of an HD wallet.
use crate::bytes::{
    add_mod_32, be_bytes, be_value, curve_order, le_u32_value, lemma_be_bytes_of_value,
    lemma_curve_order_bounds, u32_from_le, valid_secret_key,
};
use crate::primitives::{
    base58check, base58check_text, hmac_sha512, hmac_sha512_tag, public_key_compressed,
    ripemd160, ripemd160_digest, secp256k1_curve_order, secp256k1_public_key_compressed, sha256,
    sha256_digest,
};
use crate::wallet::derivation_path::ChildType;
use vstd::prelude::*;

verus! {

/// The bytes of `"Bitcoin seed"`, the HMAC key of master key generation.
pub open spec fn bitcoin_seed_key() -> Seq<u8> {
    seq![0x42u8, 0x69, 0x74, 0x63, 0x6f, 0x69, 0x6e, 0x20, 0x73, 0x65, 0x65, 0x64]
}

/// Mainnet private version prefix (`xprv`).
pub open spec fn mainnet_private_version() -> Seq<u8> {
    seq![0x04u8, 0x88, 0xAD, 0xE4]
}

/// The contents of a key pair.
pub struct KeyPairView {
    pub private_key: Seq<u8>,
    pub chain_code: Seq<u8>,
}

/// The master key pair of a seed: both halves of HMAC-SHA512 keyed with `"Bitcoin seed"`.
pub open spec fn master_key_pair(seed: Seq<u8>) -> KeyPairView {
    let tag = hmac_sha512_tag(bitcoin_seed_key(), seed);
    KeyPairView { private_key: tag.subrange(0, 32), chain_code: tag.subrange(32, 64) }
}

/// The 78 bytes of an extended private root key: version, depth 0, parent
/// fingerprint 0, child number 0, chain code, then `0x00` and the private key.
pub open spec fn root_key_payload(kp: KeyPairView) -> Seq<u8> {
    mainnet_private_version() + seq![0u8] + seq![0u8, 0, 0, 0] + seq![0u8, 0, 0, 0]
        + kp.chain_code + seq![0u8] + kp.private_key
}

/// `(k1 + k2) mod n`, as 32 big-endian bytes.
pub open spec fn add_keys_mod_order(k1: Seq<u8>, k2: Seq<u8>) -> Seq<u8> {
    be_bytes((be_value(k1) + be_value(k2)) % curve_order(), 32)
}

/// The 32-bit number read, least significant byte first, from the first four
/// bytes of RIPEMD-160(SHA-256(compressed public key)).
pub open spec fn fingerprint_value(secret: Seq<u8>) -> nat {
    le_u32_value(ripemd160_digest(sha256_digest(secp256k1_public_key_compressed(secret))))
}

/// The fingerprint as a child index: normal below `2^31`, hardened (by its
/// offset from `2^31`) from there on.
pub open spec fn fingerprint_child(secret: Seq<u8>) -> ChildType {
    let v = fingerprint_value(secret);
    if v < 0x8000_0000 {
        ChildType::Normal(v as u32)
    } else {
        ChildType::Hardened((v - 0x8000_0000) as u32)
    }
}

/// A private key and its chain code.
#[derive(Debug, Clone, Copy)]
pub struct KeyPair {
    private_key: [u8; 32],
    chain_code: [u8; 32],
}

impl View for KeyPair {
    type V = KeyPairView;

    closed spec fn view(&self) -> KeyPairView {
        KeyPairView { private_key: self.private_key@, chain_code: self.chain_code@ }
    }
}

/// Both halves of a key pair have 32 bytes.
pub broadcast proof fn lemma_key_pair_lengths(kp: KeyPair)
    ensures
        #[trigger] kp@.private_key.len() == 32,
        kp@.chain_code.len() == 32,
{
}

impl KeyPair {
    /// The master key pair of a BIP-39 seed.
    pub fn new(seed: &Vec<u8>) -> (kp: Self)
        ensures
            kp@ == master_key_pair(seed@),
    {
        let (private_key, chain_code) = generate_hmac_sha512(seed);
        KeyPair { private_key, chain_code }
    }

    pub fn new_ack(private_key: [u8; 32], chain_code: [u8; 32]) -> (kp: Self)
        ensures
            kp@.private_key == private_key@,
            kp@.chain_code == chain_code@,
    {
        KeyPair { private_key, chain_code }
    }

    pub fn get_pk(&self) -> (pk: &[u8; 32])
        ensures
            pk@ == self@.private_key,
    {
        &self.private_key
    }

    pub fn get_cc(&self) -> (cc: &[u8; 32])
        ensures
            cc@ == self@.chain_code,
    {
        &self.chain_code
    }

    /// The extended private root key (`xprv...`) in Base58Check.
    pub fn gen_prk(&self) -> (root_key: String)
        ensures
            root_key@ == base58check_text(root_key_payload(self@)),
    {
        let mut all_bytes: Vec<u8> = Vec::new();
        all_bytes.push(0x04);
        all_bytes.push(0x88);
        all_bytes.push(0xAD);
        all_bytes.push(0xE4);
        // depth, parent fingerprint, child number
        let mut z: usize = 0;
        while z < 9
            invariant
                0 <= z <= 9,
                all_bytes@ =~= mainnet_private_version() + Seq::new(z as nat, |q: int| 0u8),
            decreases 9 - z,
        {
            all_bytes.push(0);
            z += 1;
        }
        let ghost prefix = all_bytes@;
        let mut i: usize = 0;
        while i < 32
            invariant
                0 <= i <= 32,
                all_bytes@ =~= prefix + self.chain_code@.subrange(0, i as int),
            decreases 32 - i,
        {
            all_bytes.push(self.chain_code[i]);
            i += 1;
        }
        all_bytes.push(0);
        let ghost prefix2 = all_bytes@;
        let mut j: usize = 0;
        while j < 32
            invariant
                0 <= j <= 32,
                all_bytes@ =~= prefix2 + self.private_key@.subrange(0, j as int),
            decreases 32 - j,
        {
            all_bytes.push(self.private_key[j]);
            j += 1;
        }
        proof {
            assert(self.chain_code@.subrange(0, 32) =~= self.chain_code@);
            assert(self.private_key@.subrange(0, 32) =~= self.private_key@);
            assert(all_bytes@ =~= root_key_payload(self@));
        }
        base58check(all_bytes.as_slice())
    }

    /// Child private key from the left half of a derivation tag: `(priv_k + k) mod n`.
    pub fn childpk_from_secp256k1(&self, priv_k: &[u8; 32]) -> (child: [u8; 32])
        ensures
            child@ == add_keys_mod_order(priv_k@, self@.private_key),
    {
        let order = secp256k1_curve_order();
        proof {
            lemma_curve_order_bounds();
        }
        let child = add_mod_32(priv_k, &self.private_key, &order);
        proof {
            lemma_be_bytes_of_value(child@);
        }
        child
    }

    /// The fingerprint of this key, as the child index that derivation records.
    pub fn parent_fingerprint(&self) -> (fp: ChildType)
        requires
            valid_secret_key(self@.private_key),
        ensures
            fp == fingerprint_child(self@.private_key),
    {
        let k_compressed = public_key_compressed(&self.private_key);
        let bytes = sha256(k_compressed.as_slice());
        let identifier = ripemd160(bytes.as_slice());
        let value: u32 = u32_from_le(identifier.as_slice());
        if value < 0x8000_0000 {
            ChildType::normal(value)
        } else {
            ChildType::hardened(value - 0x8000_0000)
        }
    }
}

/// The two halves of HMAC-SHA512 of `seed`, keyed with `"Bitcoin seed"`.
pub fn generate_hmac_sha512(seed: &Vec<u8>) -> (halves: ([u8; 32], [u8; 32]))
    ensures
        halves.0@ == hmac_sha512_tag(bitcoin_seed_key(), seed@).subrange(0, 32),
        halves.1@ == hmac_sha512_tag(bitcoin_seed_key(), seed@).subrange(32, 64),
{
    let key: [u8; 12] = [0x42, 0x69, 0x74, 0x63, 0x6f, 0x69, 0x6e, 0x20, 0x73, 0x65, 0x65, 0x64];
    proof {
        assert(key@ =~= bitcoin_seed_key());
    }
    let tag = hmac_sha512(key.as_slice(), seed.as_slice());
    let l = crate::bytes::array32_at(tag.as_slice(), 0);
    let r = crate::bytes::array32_at(tag.as_slice(), 32);
    (l, r)
}

} // verus!
