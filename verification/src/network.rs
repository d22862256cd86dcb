//! Decisions about the node connection: which chain an id names and which
//! transport a node URL asks for.
use crate::primitives::str_starts_with;
use vstd::prelude::*;

verus! {

/// The chains this client recognises.
#[derive(Debug, Clone, Copy, PartialEq, Eq, Structural)]
pub enum KnownChain {
    Mainnet,
    Goerli,
    Sepolia,
    BinanceSmartChain,
    BinanceSmartChainTestnet,
    Arbitrum,
    Cronos,
    Polygon,
    PolygonMumbai,
    Avalanche,
}

/// The chain of an EIP-155 chain id; unknown ids fall back to Ethereum mainnet.
pub open spec fn chain_of_id(id: u64) -> KnownChain {
    if id == 1 {
        KnownChain::Mainnet
    } else if id == 5 {
        KnownChain::Goerli
    } else if id == 11155111 {
        KnownChain::Sepolia
    } else if id == 56 {
        KnownChain::BinanceSmartChain
    } else if id == 97 {
        KnownChain::BinanceSmartChainTestnet
    } else if id == 42161 {
        KnownChain::Arbitrum
    } else if id == 25 {
        KnownChain::Cronos
    } else if id == 137 {
        KnownChain::Polygon
    } else if id == 80001 {
        KnownChain::PolygonMumbai
    } else if id == 43114 {
        KnownChain::Avalanche
    } else {
        KnownChain::Mainnet
    }
}

/// The chain a connected node reported.
#[derive(Debug, Clone)]
pub struct ChainReq {
    chain_id: KnownChain,
}

impl ChainReq {
    pub closed spec fn chain(&self) -> KnownChain {
        self.chain_id
    }

    pub fn default() -> (r: Self)
        ensures
            r.chain() == KnownChain::Mainnet,
    {
        ChainReq { chain_id: KnownChain::Mainnet }
    }

    /// The chain of the id that the node reported.
    pub fn id(chain_id: u64) -> (r: Self)
        ensures
            r.chain() == chain_of_id(chain_id),
    {
        let chain_id: KnownChain = match chain_id {
            1 => KnownChain::Mainnet,  // ETH MAINNET
            5 => KnownChain::Goerli,  // Goerli
            11155111 => KnownChain::Sepolia,  // Sepolia
            56 => KnownChain::BinanceSmartChain,  // BinanceSmartChain (bsc)
            97 => KnownChain::BinanceSmartChainTestnet,  // BinanceSmartChainTestnet (bsc-testnet)
            42161 => KnownChain::Arbitrum,  // Arbitrum
            25 => KnownChain::Cronos,  // Cronos
            137 => KnownChain::Polygon,  // Polygon
            80001 => KnownChain::PolygonMumbai,  // Mumbai
            43114 => KnownChain::Avalanche,  // Avalanche
            _ => KnownChain::Mainnet,  // ETH MAINNET for default
        };
        ChainReq { chain_id }
    }

    pub fn get_chain_id(&self) -> (c: KnownChain)
        ensures
            c == self.chain(),
    {
        self.chain_id
    }
}

/// The transport that a node URL asks for.
#[derive(Debug, Clone, Copy, PartialEq, Eq, Structural)]
pub enum EndPointKind {
    WebSocket,
    Https,
    Unsupported,
}

/// Whether `p` is a prefix of `s`.
pub open spec fn has_prefix(s: Seq<char>, p: Seq<char>) -> bool {
    p.len() <= s.len() && s.subrange(0, p.len() as int) == p
}

/// `wss://` or `ws://` select a WebSocket, `https://` or `http://` an HTTP
/// transport; anything else is refused.
pub open spec fn endpoint_kind_of(url: Seq<char>) -> EndPointKind {
    if has_prefix(url, seq!['w', 's', 's', ':', '/', '/']) || has_prefix(url, seq!['w', 's', ':', '/', '/']) {
        EndPointKind::WebSocket
    } else if has_prefix(url, seq!['h', 't', 't', 'p', 's', ':', '/', '/']) || has_prefix(
        url,
        seq!['h', 't', 't', 'p', ':', '/', '/'],
    ) {
        EndPointKind::Https
    } else {
        EndPointKind::Unsupported
    }
}

/// Which transport `EndPoint::connect` opens for a URL.
pub fn endpoint_kind(url: &str) -> (k: EndPointKind)
    ensures
        k == endpoint_kind_of(url@),
{
    let wss = str_starts_with(url, "wss://");
    let ws = str_starts_with(url, "ws://");
    let https = str_starts_with(url, "https://");
    let http = str_starts_with(url, "http://");
    proof {
        reveal_strlit("wss://");
        reveal_strlit("ws://");
        reveal_strlit("https://");
        reveal_strlit("http://");
        assert("wss://"@ =~= seq!['w', 's', 's', ':', '/', '/']);
        assert("ws://"@ =~= seq!['w', 's', ':', '/', '/']);
        assert("https://"@ =~= seq!['h', 't', 't', 'p', 's', ':', '/', '/']);
        assert("http://"@ =~= seq!['h', 't', 't', 'p', ':', '/', '/']);
    }
    if wss || ws {
        EndPointKind::WebSocket
    } else if https || http {
        EndPointKind::Https
    } else {
        EndPointKind::Unsupported
    }
}

} // verus!
