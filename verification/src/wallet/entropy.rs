//! How much entropy a mnemonic of a given size needs, and drawing it.
use crate::primitives::fill_random;
use vstd::prelude::*;

verus! {

/// Size of the mnemonic phrase to generate.
pub enum WordsSize {
    W12,  // 128 bits of entropy, 16 bytes
    W15,  // 160 bits of entropy, 20 bytes
    W18,  // 192 bits of entropy, 24 bytes
    W21,  // 224 bits of entropy, 28 bytes
    W24,  // 256 bits of entropy, 32 bytes
}

/// Word counts that BIP-39 defines.
pub open spec fn supported_mnemonic_size(w_size: usize) -> bool {
    w_size == 12 || w_size == 15 || w_size == 18 || w_size == 21 || w_size == 24
}

/// The size for a configured word count; any count that BIP-39 does not
/// define falls back to twelve words.
pub open spec fn words_size_of(w_size: usize) -> WordsSize {
    if w_size == 15 {
        WordsSize::W15
    } else if w_size == 18 {
        WordsSize::W18
    } else if w_size == 21 {
        WordsSize::W21
    } else if w_size == 24 {
        WordsSize::W24
    } else {
        WordsSize::W12
    }
}

impl WordsSize {
    /// Entropy bytes behind a phrase of this size.
    pub open spec fn byte_len(self) -> nat {
        match self {
            WordsSize::W12 => 16,
            WordsSize::W15 => 20,
            WordsSize::W18 => 24,
            WordsSize::W21 => 28,
            WordsSize::W24 => 32,
        }
    }

    /// Number of words of a phrase of this size.
    pub open spec fn word_count(self) -> nat {
        match self {
            WordsSize::W12 => 12,
            WordsSize::W15 => 15,
            WordsSize::W18 => 18,
            WordsSize::W21 => 21,
            WordsSize::W24 => 24,
        }
    }

    /// The size for a configured word count; any count that BIP-39 does not
    /// define falls back to twelve words.
    pub fn for_mnemonic_size(w_size: usize) -> (s: WordsSize)
        ensures
            s == words_size_of(w_size),
    {
        match w_size {
            12 => WordsSize::W12,
            15 => WordsSize::W15,
            18 => WordsSize::W18,
            21 => WordsSize::W21,
            24 => WordsSize::W24,
            _ => WordsSize::W12,
        }
    }
}

/// A source of entropy for a mnemonic of a fixed size.
pub struct Entropy {
    entropy_bytes: WordsSize,
}

impl Entropy {
    /// The size this source was made for.
    pub closed spec fn size(&self) -> WordsSize {
        self.entropy_bytes
    }

    pub fn new(entropy_bytes: WordsSize) -> (e: Self)
        ensures
            e.size() == entropy_bytes,
    {
        Entropy { entropy_bytes }
    }

    /// Fresh random bytes, as many as the mnemonic size needs.
    pub fn gen_entropy(&self) -> (entropy: Vec<u8>)
        ensures
            entropy@.len() == self.size().byte_len(),
    {
        let length = self.len();
        let mut entropy = vec![0u8; length];
        fill_random(&mut entropy);
        entropy
    }

    /// Vector size in bytes to construct the N-word entropy.
    pub fn len(&self) -> (n: usize)
        ensures
            n == self.size().byte_len(),
    {
        match self.entropy_bytes {
            WordsSize::W12 => 16,
            WordsSize::W15 => 20,
            WordsSize::W18 => 24,
            WordsSize::W21 => 28,
            WordsSize::W24 => 32,
        }
    }
}

} // verus!
