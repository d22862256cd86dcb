# grin_cli

An HD wallet generator for Ethereum-style accounts, written in Verus.

From BIP-39 entropy the library builds the English mnemonic and its seed,
derives the master key pair, walks the path `m/44'/60'/0'/0` and derives the
accounts below it, each shown as a hex private key and a `0x` address.

- `src/bytes.rs`: big-endian numbers, modular key addition, hex text.
- `src/primitives.rs`: the trusted interface to the hash, curve, encoding and
  BIP-39 crates; digests, curve points and encodings are uninterpreted
  functions of their inputs.
- `src/wallet/`: entropy, mnemonic, key pair, derivation path, accounts.
- `src/wallets.rs`: a whole wallet (mnemonic, master account, children).
- `src/time.rs`, `src/network.rs`, `src/settings.rs`: clock readings, chain
  ids and node URLs, and the wallet manager settings.
- `src/laws.rs`: properties proved for every input.
- `app/`: the terminal program: menus, node connection (ethers), wallet files.
