use grin_cli::bytes::{add_be, mod_be, sub_be, u32_from_le, u32_to_be};
use grin_cli::network::{endpoint_kind, ChainReq, EndPointKind, KnownChain};
use grin_cli::settings::{mnemonic_size_is_valid, ping_color, Environment, PingColor, Settings, WlltmngrSettings};
use grin_cli::time::{latency, Clock};
use grin_cli::wallets::JsonWallet;
use grin_cli::wallet::ethereum::eth_wallet::ETHWallet;

#[test]
fn big_endian_arithmetic() {
    assert_eq!(add_be(&[0xff, 0xff], &[0x00, 0x01]), vec![1, 0, 0]);
    assert_eq!(add_be(&[0x12, 0x34], &[0x01, 0x01]), vec![0, 0x13, 0x35]);
    assert_eq!(sub_be(&[0x01, 0x00], &[0x00, 0x01]), (vec![0x00, 0xff], false));
    assert_eq!(sub_be(&[0x00, 0x00], &[0x00, 0x01]), (vec![0xff, 0xff], true));
    assert_eq!(mod_be(vec![0x01, 0x00], &[0x00, 0x07]), vec![0x00, 0x04]);
    assert_eq!(mod_be(vec![0x00, 0x06], &[0x00, 0x07]), vec![0x00, 0x06]);
}

#[test]
fn u32_bytes() {
    assert_eq!(u32_to_be(0x8000_002C), [0x80, 0x00, 0x00, 0x2C]);
    assert_eq!(u32_to_be(1), [0, 0, 0, 1]);
    assert_eq!(u32_from_le(&[0x2C, 0x00, 0x00, 0x80, 0x99]), 0x8000_002C);
}

#[test]
fn clock_of_epoch_time() {
    let c = Clock::current_time(1_700_000_123, 456);
    assert_eq!(c.hours, 22);
    assert_eq!(c.minutes, 15);
    assert_eq!(c.seconds, 23);
    assert_eq!(c.milliseconds, 456);
}

#[test]
fn latency_between_readings() {
    let a = Clock { hours: 1, minutes: 2, seconds: 3, milliseconds: 900 };
    let b = Clock { hours: 1, minutes: 2, seconds: 4, milliseconds: 50 };
    assert_eq!(latency(&a, &b), 150);
    assert_eq!(latency(&a, &a), 0);
}

#[test]
fn chain_ids() {
    assert_eq!(ChainReq::id(1).get_chain_id(), KnownChain::Mainnet);
    assert_eq!(ChainReq::id(5).get_chain_id(), KnownChain::Goerli);
    assert_eq!(ChainReq::id(11155111).get_chain_id(), KnownChain::Sepolia);
    assert_eq!(ChainReq::id(56).get_chain_id(), KnownChain::BinanceSmartChain);
    assert_eq!(ChainReq::id(97).get_chain_id(), KnownChain::BinanceSmartChainTestnet);
    assert_eq!(ChainReq::id(42161).get_chain_id(), KnownChain::Arbitrum);
    assert_eq!(ChainReq::id(25).get_chain_id(), KnownChain::Cronos);
    assert_eq!(ChainReq::id(137).get_chain_id(), KnownChain::Polygon);
    assert_eq!(ChainReq::id(80001).get_chain_id(), KnownChain::PolygonMumbai);
    assert_eq!(ChainReq::id(43114).get_chain_id(), KnownChain::Avalanche);
    assert_eq!(ChainReq::id(10).get_chain_id(), KnownChain::Mainnet);
    assert_eq!(ChainReq::default().get_chain_id(), KnownChain::Mainnet);
}

#[test]
fn endpoint_kinds() {
    assert_eq!(endpoint_kind("wss://node.example"), EndPointKind::WebSocket);
    assert_eq!(endpoint_kind("ws://127.0.0.1:8545"), EndPointKind::WebSocket);
    assert_eq!(endpoint_kind("https://rpc.example"), EndPointKind::Https);
    assert_eq!(endpoint_kind("http://localhost:8545"), EndPointKind::Https);
    assert_eq!(endpoint_kind("ftp://x"), EndPointKind::Unsupported);
    assert_eq!(endpoint_kind("ws:/x"), EndPointKind::Unsupported);
    assert_eq!(endpoint_kind(""), EndPointKind::Unsupported);
}

#[test]
fn ping_colors() {
    assert_eq!(ping_color(0), PingColor::Green);
    assert_eq!(ping_color(99), PingColor::Green);
    assert_eq!(ping_color(100), PingColor::Yellow);
    assert_eq!(ping_color(199), PingColor::Yellow);
    assert_eq!(ping_color(200), PingColor::Red);
}

#[test]
fn mnemonic_size_validity() {
    for w in [12usize, 15, 18, 21, 24] {
        assert!(mnemonic_size_is_valid(w));
    }
    for w in [0usize, 11, 13, 16, 25, 100] {
        assert!(!mnemonic_size_is_valid(w));
    }
}

#[test]
fn settings_defaults_and_setters() {
    let mut s = WlltmngrSettings::default(3);
    assert_eq!(s.get_n_wallets(), 10);
    assert_eq!(s.get_mnemonic_size(), 12);
    assert_eq!(s.get_n_child(), 0);
    assert!(!s.get_exists());
    assert!(!s.get_is_loaded());
    assert_eq!(s.get_present_wllts(), 3);
    assert!(s.get_wallets().is_empty());
    s.set_n_wallets(4);
    s.set_mnemonic_size(24);
    s.set_n_child(20);
    s.set_is_loaded(true);
    s.update(true, 9);
    assert_eq!(s.get_n_wallets(), 4);
    assert_eq!(s.get_mnemonic_size(), 24);
    assert_eq!(s.get_n_child(), 20);
    assert!(s.get_is_loaded());
    assert!(s.get_exists());
    assert_eq!(s.get_present_wllts(), 9);
    assert!(!s.load());
}

#[test]
fn settings_wallet_list() {
    let mut k = [0u8; 32];
    k[31] = 1;
    let w = ETHWallet::new(&k);
    let jw = JsonWallet::new("a".to_string(), 12, w, Vec::new());
    let mut settings = Settings::new(0);
    settings.getwlltsettings().append_wallets_vec(jw.clone());
    settings.getwlltsettings().append_wallets_vec(jw);
    assert_eq!(settings.getwlltsettings().get_wallets().len(), 2);
    settings.getwlltsettings().clear_wallets_vec();
    assert_eq!(settings.getwlltsettings().get_wallets().len(), 0);
    settings.getwlltsettings().set_n_child(5);
    assert_eq!(settings.getwlltsettings().get_n_child(), 5);
}

#[test]
fn environment_rpc() {
    let env = Environment { RPC_ENDPOINT: "wss://node.example".to_string() };
    assert_eq!(env.get_rpc(), "wss://node.example");
}

#[test]
fn latencies_add_up() {
    let a = Clock::current_time(60, 100);
    let b = Clock::current_time(61, 250);
    let c = Clock::current_time(62, 0);
    assert_eq!(latency(&a, &c), latency(&a, &b) + latency(&b, &c));
    assert_eq!(latency(&a, &c), 1900);
}

#[test]
fn clock_readings_stay_in_range() {
    let c = Clock::current_time(u64::MAX, 999);
    assert!(c.hours < 24 && c.minutes < 60 && c.seconds < 60);
    let d = Clock::current_time(86399, 999);
    assert_eq!((d.hours, d.minutes, d.seconds), (23, 59, 59));
}
