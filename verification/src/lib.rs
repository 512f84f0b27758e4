//! Verified core of the DKG gossip primitives, the EVM light-client proposal
//! builder and the test runtime helpers of the DKG metadata pallet.
//!
//! The modules hold the data model and the logic; calls into outside crates
//! (SCALE encoding, hashing, hex and SS58 rendering, RLP decoding,
//! secp256k1 point decoding and the proposal byte layouts) stand behind small
//! trusted wrappers whose contracts say what those crates compute.

pub mod bytes;
pub mod scale;
pub mod hashing;
pub mod gossip;
pub mod render;
pub mod error;
pub mod rounds;
pub mod evm_log;
pub mod proposals;
pub mod light_proposals;
pub mod mock;

