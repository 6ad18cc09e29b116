//! NodeSea: the DHT routing table, BitTorrent identity and settings model,
//! engine lifecycle rules, command-line helpers and daemon transport rules.

pub mod bt;
pub mod cli;
pub mod daemon;
pub mod dht;
pub mod proto;
