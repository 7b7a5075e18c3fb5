//! Inputs and outputs of the block prover.

use vstd::prelude::*;

verus! {

/// A 32-byte hash.
pub type B256 = [u8; 32];

/// A string of bytes.
pub type Bytes = Vec<u8>;

/// Public inputs committed by the proof system. The verifier passes these in
/// and the proof must be consistent with them.
#[derive(Debug, Clone)]
pub struct PublicInputs {
    /// Hash of the parent block the proven block builds on.
    pub parent_block_hash: B256,
    /// Number of the block being proven (must be parent number + 1).
    pub block_number: u64,
    /// Claimed hash of the block being proven. The prover re-executes the
    /// block and rejects the witness if the computed hash differs. This single
    /// equality covers the state root, receipts root, transactions root, gas
    /// used, and every other header field.
    pub claimed_block_hash: B256,
}

/// Pre-state execution witness: the preimages that stateless execution looks
/// up. The `state`, `codes` and `headers` blobs are found by their keccak256
/// hash; `keys` is carried along and never looked up.
#[derive(Debug, Clone, Default)]
pub struct ExecutionWitness {
    /// Trie node preimages.
    pub state: Vec<Bytes>,
    /// Contract bytecode.
    pub codes: Vec<Bytes>,
    /// Unhashed account and storage keys.
    pub keys: Vec<Bytes>,
    /// RLP-encoded ancestor headers.
    pub headers: Vec<Bytes>,
}

/// Payload attributes reconstructed from the block being proven.
///
/// The prover itself reads the transaction list. `payload` holds the remaining
/// attributes (timestamp, fee recipient, gas limit, ...), which go to the
/// executor as they are.
#[derive(Debug, Clone)]
pub struct BasePayloadAttributes<P> {
    /// The full EIP-2718 encoded transaction list.
    pub transactions: Option<Vec<Bytes>>,
    /// The attributes that only the executor reads.
    pub payload: P,
}

/// Complete witness for statelessly re-executing one Base L2 block. Top-level
/// input to the block prover.
///
/// `C` is the rollup configuration and `P` the executor's part of the payload
/// attributes.
#[derive(Debug, Clone)]
pub struct BlockWitness<C, P> {
    /// Public inputs committed by the proof system.
    pub public_inputs: PublicInputs,
    /// Rollup configuration (chain parameters and upgrade activation times).
    pub rollup_config: C,
    /// RLP-encoded parent block header (hashes to
    /// `public_inputs.parent_block_hash`).
    pub parent_header_rlp: Bytes,
    /// Payload attributes of the block being proven.
    pub attributes: BasePayloadAttributes<P>,
    /// Pre-state execution witness.
    pub execution_witness: ExecutionWitness,
}

/// Block hash transition proven by the state transition function.
#[derive(Debug, Clone, PartialEq, Eq)]
pub struct BlockTransition {
    /// Hash of the parent block.
    pub parent_block_hash: B256,
    /// Hash of the proven block.
    pub block_hash: B256,
}

/// Commitments produced by the state transition function for onchain
/// verification.
#[derive(Debug, Clone, PartialEq, Eq)]
pub struct BlockOutput {
    /// `parent_block_hash` to `block_hash` transition.
    pub block_transition: BlockTransition,
    /// Number of the proven block.
    pub block_number: u64,
    /// Post-execution state root of the proven block.
    pub state_root: B256,
    /// Receipts root of the proven block.
    pub receipts_root: B256,
    /// Gas used by the proven block.
    pub gas_used: u64,
}

} // verus!
