//! The decisions of a beacon node that gossips over the Nym mixnet.
//!
//! - [`block_id`] resolves block identifiers to roots, blocks, blob sidecars and Merkle proofs.
//! - [`deep_storage`] takes blocks apart for long-term storage.
//! - [`pm`] decides which trusted peers are to be dialed.
//! - [`service`] is the network service: subscriptions, publications and what becomes of events.
//! - [`nym_client`] holds the port, the commands and the address of a nym client.
//!
//! Nothing here reads a disk or a socket. What only the chain, the swarm or the operating system
//! knows is asked for by a step and handed back to it as a plain value.
pub mod block_id;
pub mod deep_storage;
pub mod hash;
pub mod nym_client;
pub mod peers;
pub mod pm;
pub mod rejection;
mod seqs;
pub mod service;
pub mod slot;
pub mod text;
pub mod topics;
