//! BIP-39 mnemonic phrase and seed of some entropy.
use crate::primitives::{
    bip39_english_phrase, bip39_seed, bip39_seed_bytes, english_phrase_from_entropy,
    mnemonic_total_bits, phrase_total_bits, space_count, valid_entropy_len,
};
use vstd::prelude::*;

verus! {

/// A mnemonic phrase, its number of words and its BIP-39 seed.
#[derive(Debug)]
pub struct MnemonicStruct {
    pub mnemonic_words: String,
    pub mnemonic_size: usize,  // 12, 15, 18, 21, 24
    pub bip39_seed: Vec<u8>,
}

impl MnemonicStruct {
    /// The English mnemonic of `byte_array`, and its seed under the password `passw`.
    pub fn new(byte_array: &Vec<u8>, passw: &str) -> (m: Self)
        requires
            valid_entropy_len(byte_array@.len()),
        ensures
            m.mnemonic_words@ == bip39_english_phrase(byte_array@),
            m.mnemonic_size == byte_array@.len() * 3 / 4,
            m.bip39_seed@ == bip39_seed_bytes(m.mnemonic_words@, passw@),
            m.bip39_seed@.len() == 64,
    {
        let mnemonic_words = english_phrase_from_entropy(byte_array.as_slice()).unwrap();
        let mnemonic_size = mnemonic_size(mnemonic_words.as_str());
        let bip39_seed = gen_bip39_seed(mnemonic_words.as_str(), passw);
        MnemonicStruct { mnemonic_words, mnemonic_size, bip39_seed }
    }

    pub fn get_mnemonic(&self) -> (words: &str)
        ensures
            words@ == self.mnemonic_words@,
    {
        self.mnemonic_words.as_str()
    }

    pub fn mnemonic_len(&self) -> (n: usize)
        ensures
            n == self.mnemonic_size,
    {
        self.mnemonic_size
    }

    pub fn get_seed(&self) -> (seed: &Vec<u8>)
        ensures
            seed@ == self.bip39_seed@,
    {
        &self.bip39_seed
    }
}

/// Number of words of a mnemonic phrase, for the word counts that BIP-39 defines.
pub fn mnemonic_size(mnemonic_words: &str) -> (n: usize)
    requires
        mnemonic_total_bits(space_count(mnemonic_words@) + 1) is Some,
    ensures
        n == space_count(mnemonic_words@) + 1,
{
    let total_bits = phrase_total_bits(mnemonic_words).unwrap();
    total_bits / 11
}

/// The BIP-39 seed of a mnemonic phrase under a password.
pub fn gen_bip39_seed(mnemonic_words: &str, passw: &str) -> (seed: Vec<u8>)
    requires
        exists|e: Seq<u8>|
            valid_entropy_len(e.len()) && bip39_english_phrase(e) == mnemonic_words@,
    ensures
        seed@ == bip39_seed_bytes(mnemonic_words@, passw@),
        seed@.len() == 64,
{
    bip39_seed(mnemonic_words, passw)
}

} // verus!
