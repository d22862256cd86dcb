//! The cryptographic primitives and encoders that the wallet logic calls from
//! outside crates. Each function here is trusted: Verus believes its contract
//! and does not read its body. Digests, curve points and encodings are
//! uninterpreted spec functions, and each contract ties the result to such a
//! function applied to the arguments.
use crate::bytes::{curve_order_seq, hex_lower, valid_secret_key};
use crypto::digest::Digest;
use rand::RngCore;
use vstd::prelude::*;

verus! {

/// HMAC-SHA512 of `data` under `key`.
pub uninterp spec fn hmac_sha512_tag(key: Seq<u8>, data: Seq<u8>) -> Seq<u8>;

/// The SEC1 compressed encoding (33 bytes) of the secp256k1 public key of a secret key.
pub uninterp spec fn secp256k1_public_key_compressed(secret: Seq<u8>) -> Seq<u8>;

/// The SEC1 uncompressed encoding (65 bytes) of the secp256k1 public key of a secret key.
pub uninterp spec fn secp256k1_public_key_uncompressed(secret: Seq<u8>) -> Seq<u8>;

/// SHA-256 digest.
pub uninterp spec fn sha256_digest(data: Seq<u8>) -> Seq<u8>;

/// RIPEMD-160 digest.
pub uninterp spec fn ripemd160_digest(data: Seq<u8>) -> Seq<u8>;

/// Keccak-256 digest (the pre-standard SHA-3 padding that Ethereum uses).
pub uninterp spec fn keccak256_digest(data: Seq<u8>) -> Seq<u8>;

/// Base58Check text of `data` (base58 of `data` followed by its 4-byte double-SHA-256 checksum).
pub uninterp spec fn base58check_text(data: Seq<u8>) -> Seq<char>;

/// The English BIP-39 mnemonic phrase of `entropy`.
pub uninterp spec fn bip39_english_phrase(entropy: Seq<u8>) -> Seq<char>;

/// The 64-byte BIP-39 seed of a phrase and a password.
pub uninterp spec fn bip39_seed_bytes(phrase: Seq<char>, password: Seq<char>) -> Seq<u8>;

/// Entropy lengths, in bytes, for which BIP-39 defines a mnemonic.
pub open spec fn valid_entropy_len(len: nat) -> bool {
    len == 16 || len == 20 || len == 24 || len == 28 || len == 32
}

/// How many `' '` characters a text holds.
pub open spec fn space_count(s: Seq<char>) -> nat
    decreases s.len(),
{
    if s.len() == 0 {
        0
    } else {
        space_count(s.drop_last()) + if s.last() == ' ' {
            1nat
        } else {
            0nat
        }
    }
}

/// Entropy plus checksum bits of a mnemonic with `words` words, if BIP-39 defines one.
pub open spec fn mnemonic_total_bits(words: nat) -> Option<usize> {
    if words == 12 {
        Some(132usize)
    } else if words == 15 {
        Some(165usize)
    } else if words == 18 {
        Some(198usize)
    } else if words == 21 {
        Some(231usize)
    } else if words == 24 {
        Some(264usize)
    } else {
        None
    }
}

/// `ring::hmac::sign` with `HMAC_SHA512`: the 64-byte tag of `data` under `key`.
#[verifier::external_body]
pub(crate) fn hmac_sha512(key: &[u8], data: &[u8]) -> (tag: Vec<u8>)
    ensures
        tag@ == hmac_sha512_tag(key@, data@),
        tag@.len() == 64,
{
    let k = ring::hmac::Key::new(ring::hmac::HMAC_SHA512, key);
    ring::hmac::sign(&k, data).as_ref().to_vec()
}

/// `secp256k1::constants::CURVE_ORDER`, the order of the group, big-endian.
#[verifier::external_body]
pub(crate) fn secp256k1_curve_order() -> (order: [u8; 32])
    ensures
        order@ == curve_order_seq(),
{
    secp256k1::constants::CURVE_ORDER
}

/// `secp256k1::PublicKey::from_secret_key` of a valid secret key, serialized compressed.
/// `SecretKey::from_slice` accepts exactly the valid secret keys.
#[verifier::external_body]
pub(crate) fn public_key_compressed(secret: &[u8; 32]) -> (pk: [u8; 33])
    requires
        valid_secret_key(secret@),
    ensures
        pk@ == secp256k1_public_key_compressed(secret@),
{
    let secp = secp256k1::Secp256k1::new();
    match secp256k1::SecretKey::from_slice(secret) {
        Ok(sk) => secp256k1::PublicKey::from_secret_key(&secp, &sk).serialize(),
        Err(_) => [0u8; 33],
    }
}

/// `secp256k1::PublicKey::from_secret_key` of a valid secret key, serialized uncompressed.
#[verifier::external_body]
pub(crate) fn public_key_uncompressed(secret: &[u8; 32]) -> (pk: [u8; 65])
    requires
        valid_secret_key(secret@),
    ensures
        pk@ == secp256k1_public_key_uncompressed(secret@),
{
    let secp = secp256k1::Secp256k1::new();
    match secp256k1::SecretKey::from_slice(secret) {
        Ok(sk) => secp256k1::PublicKey::from_secret_key(&secp, &sk).serialize_uncompressed(),
        Err(_) => [0u8; 65],
    }
}

/// `crypto::sha2::Sha256` (rust-crypto): the 32-byte digest of `data`.
#[verifier::external_body]
pub(crate) fn sha256(data: &[u8]) -> (digest: Vec<u8>)
    ensures
        digest@ == sha256_digest(data@),
        digest@.len() == 32,
{
    let mut hasher = crypto::sha2::Sha256::new();
    hasher.input(data);
    let mut out = vec![0u8; 32];
    hasher.result(&mut out);
    out
}

/// `crypto::ripemd160::Ripemd160` (rust-crypto): the 20-byte digest of `data`.
#[verifier::external_body]
pub(crate) fn ripemd160(data: &[u8]) -> (digest: Vec<u8>)
    ensures
        digest@ == ripemd160_digest(data@),
        digest@.len() == 20,
{
    let mut hasher = crypto::ripemd160::Ripemd160::new();
    hasher.input(data);
    let mut out = vec![0u8; 20];
    hasher.result(&mut out);
    out
}

/// `tiny_keccak::keccak256`: the 32-byte Keccak-256 digest of `data`.
#[verifier::external_body]
pub(crate) fn keccak256(data: &[u8]) -> (digest: [u8; 32])
    ensures
        digest@ == keccak256_digest(data@),
{
    tiny_keccak::keccak256(data)
}

/// `bs58::encode(data).with_check().into_string()`: Base58Check text of `data`.
#[verifier::external_body]
pub(crate) fn base58check(data: &[u8]) -> (text: String)
    ensures
        text@ == base58check_text(data@),
{
    bs58::encode(data).with_check().into_string()
}

/// `hex::encode`: two lower-case hexadecimal digits per byte, in order.
#[verifier::external_body]
pub(crate) fn hex_encode(data: &[u8]) -> (text: String)
    ensures
        text@ == hex_lower(data@),
{
    hex::encode(data)
}

/// `rand::thread_rng().fill_bytes`: overwrites the buffer with random bytes.
/// Nothing is promised of the bytes but that their number does not change.
#[verifier::external_body]
pub(crate) fn fill_random(buf: &mut Vec<u8>)
    ensures
        final(buf)@.len() == old(buf)@.len(),
{
    rand::thread_rng().fill_bytes(buf.as_mut_slice())
}

/// `bip39::Mnemonic::from_entropy` (tiny-bip39) in English, taken as its phrase.
/// It succeeds exactly on the BIP-39 entropy lengths; the phrase joins
/// `3 * len / 4` words of the English list with single spaces.
#[verifier::external_body]
pub(crate) fn english_phrase_from_entropy(entropy: &[u8]) -> (phrase: Option<String>)
    ensures
        phrase is Some <==> valid_entropy_len(entropy@.len()),
        phrase matches Some(p) ==> p@ == bip39_english_phrase(entropy@),
        phrase matches Some(p) ==> space_count(p@) + 1 == entropy@.len() * 3 / 4,
{
    match bip39::Mnemonic::from_entropy(entropy, bip39::Language::English) {
        Ok(m) => Some(m.into_phrase()),
        Err(_) => None,
    }
}

/// `bip39::MnemonicType::for_phrase` followed by `total_bits`: the phrase is cut at
/// every `' '`, and the number of pieces selects the mnemonic type.
#[verifier::external_body]
pub(crate) fn phrase_total_bits(phrase: &str) -> (bits: Option<usize>)
    ensures
        bits == mnemonic_total_bits(space_count(phrase@) + 1),
{
    match bip39::MnemonicType::for_phrase(phrase) {
        Ok(t) => Some(t.total_bits()),
        Err(_) => None,
    }
}

/// `bip39::Seed::new` of the English mnemonic with this phrase, as 64 bytes
/// (PBKDF2-HMAC-SHA512 of the phrase, salted with `"mnemonic"` and the password).
/// Every phrase made from valid entropy is accepted by `Mnemonic::from_phrase`.
#[verifier::external_body]
pub(crate) fn bip39_seed(phrase: &str, password: &str) -> (seed: Vec<u8>)
    requires
        exists|e: Seq<u8>| valid_entropy_len(e.len()) && bip39_english_phrase(e) == phrase@,
    ensures
        seed@ == bip39_seed_bytes(phrase@, password@),
        seed@.len() == 64,
{
    match bip39::Mnemonic::from_phrase(phrase, bip39::Language::English) {
        Ok(m) => bip39::Seed::new(&m, password).as_bytes().to_vec(),
        Err(_) => Vec::new(),
    }
}

/// `str::starts_with` with a string pattern: whether `prefix` is a prefix of `s`.
#[verifier::external_body]
pub(crate) fn str_starts_with(s: &str, prefix: &str) -> (b: bool)
    ensures
        b == (prefix@.len() <= s@.len() && s@.subrange(0, prefix@.len() as int) == prefix@),
{
    s.starts_with(prefix)
}

} // verus!
