//! The static registry of supported networks: a fixed table, read-only
//! after construction, with a pure membership test and a lookup that fails
//! with the offending chain id rather than a placeholder.

use vstd::prelude::*;
use vstd::string::StringExecFns;

use crate::interface::MatchmakerNetwork;

verus! {

/// The error returned when a chain id is not in the registry.
#[derive(Debug, Clone, Copy)]
pub struct UnimplementedNetwork {
    pub chain_id: i32,
}

/// A supported network: a human-readable name, the chain id, the streaming
/// endpoint and the API endpoint.
#[derive(Debug, Clone)]
pub struct Network {
    pub name: String,
    pub chain_id: i32,
    pub stream_url: String,
    pub api_url: String,
}

/// Whether `n` is the preconfigured Ethereum mainnet entry.
pub open spec fn is_mainnet(n: Network) -> bool {
    &&& n.name@ == "mainnet"@
    &&& n.chain_id == 1
    &&& n.stream_url@ == "https://mev-share.flashbots.net"@
    &&& n.api_url@ == "https://relay.flashbots.net"@
}

/// Whether `n` is the preconfigured Goerli test network entry.
pub open spec fn is_goerli(n: Network) -> bool {
    &&& n.name@ == "goerli"@
    &&& n.chain_id == 5
    &&& n.stream_url@ == "https://mev-share-goerli.flashbots.net"@
    &&& n.api_url@ == "https://relay-goerli.flashbots.net"@
}

impl Network {
    /// The matchmaker-facing view of this registry entry.
    pub fn to_matchmaker_network(&self) -> (r: MatchmakerNetwork)
        ensures
            r.chain_id == self.chain_id,
            r.name@ == self.name@,
            r.stream_url@ == self.stream_url@,
            r.api_url@ == self.api_url@,
    {
        MatchmakerNetwork {
            chain_id: self.chain_id,
            name: self.name.clone(),
            stream_url: self.stream_url.clone(),
            api_url: self.api_url.clone(),
        }
    }
}

/// The fixed set of supported networks.
pub struct SupportedNetworks;

impl SupportedNetworks {
    /// The whole registry: mainnet and the Goerli test network, nothing
    /// else.
    pub fn supported_networks() -> (r: Vec<Network>)
        ensures
            r@.len() == 2,
            is_mainnet(r@[0]),
            is_goerli(r@[1]),
    {
        let mut v: Vec<Network> = Vec::new();
        v.push(Self::mainnet());
        v.push(Self::goerli());
        v
    }

    /// The Ethereum mainnet entry.
    pub fn mainnet() -> (r: Network)
        ensures
            is_mainnet(r),
    {
        Network {
            name: String::from_str("mainnet"),
            chain_id: 1,
            stream_url: String::from_str("https://mev-share.flashbots.net"),
            api_url: String::from_str("https://relay.flashbots.net"),
        }
    }

    /// The Goerli test network entry.
    pub fn goerli() -> (r: Network)
        ensures
            is_goerli(r),
    {
        Network {
            name: String::from_str("goerli"),
            chain_id: 5,
            stream_url: String::from_str("https://mev-share-goerli.flashbots.net"),
            api_url: String::from_str("https://relay-goerli.flashbots.net"),
        }
    }

    /// Pure membership test: whether some registry entry has this chain id.
    pub fn supports_chain_id(chain_id: i32) -> (r: bool)
        ensures
            r == (chain_id == 1 || chain_id == 5),
    {
        chain_id == 1 || chain_id == 5
    }

    /// Looks a chain id up in the registry. An unknown chain id fails with
    /// `UnimplementedNetwork` carrying that id; no placeholder is returned.
    pub fn get_network(chain_id: i32) -> (r: Result<Network, UnimplementedNetwork>)
        ensures
            chain_id == 1 ==> (r matches Ok(n) && is_mainnet(n)),
            chain_id == 5 ==> (r matches Ok(n) && is_goerli(n)),
            chain_id != 1 && chain_id != 5 ==> (r matches Err(e) && e.chain_id == chain_id),
    {
        if chain_id == 1 {
            Ok(Self::mainnet())
        } else if chain_id == 5 {
            Ok(Self::goerli())
        } else {
            Err(UnimplementedNetwork { chain_id })
        }
    }
}

} // verus!
