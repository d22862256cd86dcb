pub mod derivation_path;
pub mod entropy;
pub mod ethereum;
pub mod hmac_sha512;
pub mod mnemonic;
