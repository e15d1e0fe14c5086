//! Verified core of a chain-side driver that maintains an Ethereum light
//! client's state inside a fixed-capacity ring buffer of cells on a
//! UTXO-style ledger.
//!
//! The crate holds the decision logic of the driver: the local proof store
//! with its rollback discipline, the alignment of freshly fetched header
//! updates against the on-chain frontier, the byte layout of the on-chain
//! client cells, the planning of create/update transactions over the ring
//! buffer, and the submission state machine with its confirmation deadline.
//! All network transport, key handling and the cryptographic aggregation
//! step live outside; the driver consumes their results as plain events.

pub mod align;
pub mod assembler;
pub mod client_state;
pub mod codec;
pub mod driver;
pub mod errors;
pub mod render;
pub mod store;
pub mod types;
