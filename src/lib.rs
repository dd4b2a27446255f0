//! Verified core of a cross-chain transfer relay: canonical address
//! derivation, a replay-proof claim ledger, the envelope and transfer
//! parsers, the swap payload codec and the inbound transfer decision.
pub mod address;
pub mod bytes;
pub mod codec;
pub mod completion;
pub mod envelope;
pub mod ledger;
pub mod orchestrator;
pub mod outbound;
pub mod proxy;
pub mod registry;
pub mod state;
