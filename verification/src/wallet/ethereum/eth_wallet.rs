//! An Ethereum account: its private key and address as text.
use crate::bytes::{copy_range, hex_lower, lemma_hex_lower_len, valid_secret_key};
use crate::primitives::{
    hex_encode, keccak256, keccak256_digest, public_key_uncompressed,
    secp256k1_public_key_uncompressed,
};
use vstd::prelude::*;
use vstd::string::StringExecFns;

verus! {

/// `0x` followed by the hex of the last 20 bytes of the Keccak-256 digest of
/// the uncompressed public key without its leading `0x04` byte.
pub open spec fn eth_address_text(secret: Seq<u8>) -> Seq<char> {
    let point = secp256k1_public_key_uncompressed(secret).subrange(1, 65);
    seq!['0', 'x'] + hex_lower(keccak256_digest(point).subrange(12, 32))
}

/// A wallet: hex private key and `0x` address.
#[derive(Debug, Clone)]
pub struct ETHWallet {
    pub private_key: String,
    pub address: String,
}

impl ETHWallet {
    pub fn new(l: &[u8; 32]) -> (w: Self)
        requires
            valid_secret_key(l@),
        ensures
            w.private_key@ == hex_lower(l@),
            w.address@ == eth_address_text(l@),
            w.private_key@.len() == 64,
            w.address@.len() == 42,
    {
        ETHWallet { private_key: Self::eth_priv_key(l), address: Self::eth_addrss(l) }
    }

    /// The private key as 64 lower-case hex digits.
    pub fn eth_priv_key(l: &[u8; 32]) -> (text: String)
        ensures
            text@ == hex_lower(l@),
            text@.len() == 64,
    {
        proof {
            lemma_hex_lower_len(l@);
        }
        hex_encode(l.as_slice())
    }

    /// The Ethereum address of the private key.
    pub fn eth_addrss(l: &[u8; 32]) -> (address: String)
        requires
            valid_secret_key(l@),
        ensures
            address@ == eth_address_text(l@),
            address@.len() == 42,
    {
        let p_uncompressed = public_key_uncompressed(l);
        let point = copy_range(p_uncompressed.as_slice(), 1, 65);
        let keccak_encdd = keccak256(point.as_slice());
        let tail = copy_range(keccak_encdd.as_slice(), 12, 32);
        let hex_text = hex_encode(tail.as_slice());
        let mut address = String::from_str("0x");
        proof {
            reveal_strlit("0x");
        }
        address.append(hex_text.as_str());
        proof {
            assert(address@ =~= eth_address_text(l@));
            lemma_hex_lower_len(tail@);
        }
        address
    }
}

} // verus!
