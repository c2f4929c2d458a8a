//! Zero-copy decoding of Pump.fun / PumpSwap on-chain accounts and program logs
//! into typed events, with every layout decoder verified against its byte-level
//! specification.

pub mod layout;
pub mod pubkey;
pub mod events;
pub mod filter;
pub mod accounts;
pub mod logs;
pub mod laws;
pub mod agreement;
pub mod roundtrips;
