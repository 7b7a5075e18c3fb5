//! Stateless proving of Base L2 blocks.
//!
//! [`prover::prove_block`] decides whether a [`BlockWitness`] proves the block
//! that its public inputs claim. It binds the witness to the public inputs,
//! serves the block executor from the witness's preimages, and accepts the
//! executed block only if its hash is the claimed one. The executor is a
//! parameter; what is proved of the prover holds for every executor that accepts
//! the requests of consistent witnesses, and no other request reaches it.
//!
//! [`fake_manifest`] builds a placeholder QOS manifest envelope for local
//! testing.

pub mod fake_manifest;
pub mod hash;
pub mod header;
pub mod prover;
pub mod provider;
pub mod qos;
pub mod text;
pub mod types;

pub use types::{
    BasePayloadAttributes, BlockOutput, BlockTransition, BlockWitness, Bytes, ExecutionWitness,
    PublicInputs, B256,
};
