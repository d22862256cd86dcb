pub mod eth_wallet;
