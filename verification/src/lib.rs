pub mod bytes;
pub mod laws;
pub mod menus;
pub mod network;
pub mod primitives;
pub mod settings;
pub mod time;
pub mod wallet;
pub mod wallets;
