//! Block proving over a stateless block executor.
//!
//! [`prove_block`] binds a witness to its public inputs, hands the executor the
//! witness's preimages, and checks that re-execution reproduces the claimed
//! block hash.

use vstd::prelude::*;
use vstd::string::StringExecFns;

use crate::hash::{keccak256_digest, same_hash};
use crate::header::{
    block_hash, decode_header, decoded_header, encoding_identifies, has_no_gap, header_decoding,
    header_encoding, same_required_fields, BlockHeader, BlockHeaderView, HeaderView, SealedHeader,
};
use crate::provider::{
    law_store_answers_for_the_three_lists, preimage_map, witness_blobs, WitnessProvider,
};
use crate::text::{decimal_digits, hash_chars, hash_text, number_text};
use crate::types::{
    BasePayloadAttributes, BlockOutput, BlockTransition, BlockWitness, Bytes, PublicInputs, B256,
};

verus! {

/// Errors returned by [`prove_block`].
#[derive(Debug)]
pub enum BlockProverError {
    /// The witness's parent header RLP could not be decoded.
    InvalidParentHeader(String),
    /// The decoded parent header does not hash to the public input.
    ParentHashMismatch {
        /// Expected parent block hash (from the public inputs).
        expected: B256,
        /// Hash of the parent header carried in the witness.
        got: B256,
    },
    /// The public-input block number is not parent number + 1.
    BlockNumberMismatch {
        /// Expected block number (parent number + 1).
        expected: u64,
        /// Block number from the public inputs.
        got: u64,
    },
    /// The payload attributes carry no transactions. Base blocks always
    /// contain at least the L1-info deposit transaction; the underlying
    /// executor treats an empty list as a protocol violation, so it is
    /// rejected here first.
    EmptyTransactions,
    /// Stateless execution failed (missing witness preimages, invalid
    /// transactions, header assembly failure, ...).
    Execution(String),
    /// Re-execution produced a different block hash than claimed.
    BlockHashMismatch {
        /// Claimed block hash (from the public inputs).
        claimed: B256,
        /// Block hash computed by re-execution.
        computed: B256,
    },
}

/// What the executor is asked to do: build the block that `attributes`
/// describes on top of `parent`, looking all state up in `provider`.
#[derive(Debug)]
pub struct BlockRequest<'a, C, P> {
    /// Rollup configuration.
    pub rollup_config: &'a C,
    /// Preimages of the pre-state.
    pub provider: WitnessProvider,
    /// The sealed parent header.
    pub parent: SealedHeader,
    /// Payload attributes of the block.
    pub attributes: &'a BasePayloadAttributes<P>,
}

/// What the executor reports of the block that it built.
#[derive(Debug, Clone)]
pub struct BlockOutcome {
    /// The block's header.
    pub header: BlockHeader,
    /// Gas used by the block's execution.
    pub gas_used: u64,
}

/// A block that was executed, with its hash and what the output takes from it.
#[derive(Debug, Clone)]
pub struct ExecutedBlock {
    /// Hash of the block's header.
    pub hash: B256,
    /// The header's block number.
    pub number: u64,
    /// The header's state root.
    pub state_root: B256,
    /// The header's receipts root.
    pub receipts_root: B256,
    /// Gas used by the block's execution.
    pub gas_used: u64,
}

/// The number of the block that follows block `number`. It starts again at
/// zero after the largest number.
pub open spec fn next_number(number: u64) -> u64 {
    if number == u64::MAX {
        0
    } else {
        (number + 1) as u64
    }
}

/// Whether the list holds at least one transaction.
pub open spec fn has_transactions(transactions: Option<Vec<Bytes>>) -> bool {
    transactions matches Some(list) && list@.len() > 0
}

/// Whether a block on top of a parent with this hash and number may be
/// executed, and the error if not. The parent hash is compared first, then the
/// block number, then the transactions are looked at.
pub open spec fn admission(
    parent_hash: B256,
    parent_number: u64,
    inputs: PublicInputs,
    transactions: Option<Vec<Bytes>>,
) -> Result<(), BlockProverError> {
    if parent_hash != inputs.parent_block_hash {
        Err(
            BlockProverError::ParentHashMismatch {
                expected: inputs.parent_block_hash,
                got: parent_hash,
            },
        )
    } else if inputs.block_number != next_number(parent_number) {
        Err(
            BlockProverError::BlockNumberMismatch {
                expected: next_number(parent_number),
                got: inputs.block_number,
            },
        )
    } else if !has_transactions(transactions) {
        Err(BlockProverError::EmptyTransactions)
    } else {
        Ok(())
    }
}

/// The executor's report with the block's header hashed.
pub open spec fn sealed_outcome(outcome: Result<BlockOutcome, String>) -> Result<
    ExecutedBlock,
    String,
> {
    match outcome {
        Err(text) => Err(text),
        Ok(block) => Ok(
            ExecutedBlock {
                hash: block_hash(block.header@),
                number: block.header.number,
                state_root: block.header.state_root,
                receipts_root: block.header.receipts_root,
                gas_used: block.gas_used,
            },
        ),
    }
}

/// The prover's answer once the block is executed.
pub open spec fn conclusion(
    inputs: PublicInputs,
    executed: Result<ExecutedBlock, String>,
) -> Result<BlockOutput, BlockProverError> {
    match executed {
        Err(text) => Err(BlockProverError::Execution(text)),
        Ok(block) => if block.hash != inputs.claimed_block_hash {
            Err(
                BlockProverError::BlockHashMismatch {
                    claimed: inputs.claimed_block_hash,
                    computed: block.hash,
                },
            )
        } else {
            Ok(
                BlockOutput {
                    block_transition: BlockTransition {
                        parent_block_hash: inputs.parent_block_hash,
                        block_hash: block.hash,
                    },
                    block_number: block.number,
                    state_root: block.state_root,
                    receipts_root: block.receipts_root,
                    gas_used: block.gas_used,
                },
            )
        },
    }
}

/// `parent` is the witness's parent header, and the witness is consistent with
/// its public inputs.
pub open spec fn is_admitted<C, P>(witness: BlockWitness<C, P>, parent: HeaderView) -> bool {
    &&& decoded_header(witness.parent_header_rlp@) == Ok::<HeaderView, Seq<char>>(parent)
    &&& admission(
        keccak256_digest(parent.rlp),
        parent.number,
        witness.public_inputs,
        witness.attributes.transactions,
    ) is Ok
}

/// `request` is what the executor is asked for `witness`, whose parent header
/// is `parent`.
pub open spec fn is_request<C, P>(
    witness: BlockWitness<C, P>,
    parent: HeaderView,
    request: BlockRequest<'_, C, P>,
) -> bool {
    &&& *request.rollup_config == witness.rollup_config
    &&& request.provider@ == preimage_map(witness_blobs(witness.execution_witness))
    &&& request.parent.header@ == parent
    &&& request.parent.is_genuine()
    &&& *request.attributes == witness.attributes
}

/// What an executor may report when it is asked: the pairs of a request and an
/// outcome that can come of it.
pub type Reports<'a, C, P> = spec_fn(BlockRequest<'a, C, P>, Result<BlockOutcome, String>) -> bool;

/// What `executor` may report.
pub open spec fn reports_of<'a, C: 'a, P: 'a, E>(executor: E) -> Reports<'a, C, P>
    where E: FnOnce(BlockRequest<'a, C, P>) -> Result<BlockOutcome, String>
{
    |request: BlockRequest<'a, C, P>, outcome: Result<BlockOutcome, String>|
        call_ensures(executor, (request,), outcome)
}

/// `result` is an answer for `witness`: the error that the public inputs call
/// for, or, if there is none, the conclusion from a report on exactly this
/// witness. The encoding that the reported block's hash is taken of tells its
/// header apart.
pub open spec fn is_answer<'a, C, P>(
    witness: BlockWitness<C, P>,
    reports: Reports<'a, C, P>,
    result: Result<BlockOutput, BlockProverError>,
) -> bool {
    match decoded_header(witness.parent_header_rlp@) {
        Err(reason) => result matches Err(BlockProverError::InvalidParentHeader(text)) && text@
            == reason,
        Ok(parent) => match admission(
            keccak256_digest(parent.rlp),
            parent.number,
            witness.public_inputs,
            witness.attributes.transactions,
        ) {
            Err(error) => result == Err::<BlockOutput, BlockProverError>(error),
            Ok(_) => exists|
                request: BlockRequest<'a, C, P>,
                outcome: Result<BlockOutcome, String>,
            |
                {
                    &&& is_request(witness, parent, request)
                    &&& #[trigger] reports(request, outcome)
                    &&& outcome matches Ok(block) ==> encoding_identifies(block.header@)
                    &&& result == conclusion(witness.public_inputs, sealed_outcome(outcome))
                },
        },
    }
}

/// Binds the parent header to the public inputs and checks that the block has
/// transactions.
pub fn admit_block<P>(
    parent: &SealedHeader,
    inputs: &PublicInputs,
    attributes: &BasePayloadAttributes<P>,
) -> (admitted: Result<(), BlockProverError>)
    ensures
        admitted == admission(
            parent.hash,
            parent.header.number,
            *inputs,
            attributes.transactions,
        ),
        match admitted {
            Ok(()) => {
                &&& parent.hash == inputs.parent_block_hash
                &&& inputs.block_number == (parent.header.number + 1) % 0x1_0000_0000_0000_0000
                &&& attributes.transactions matches Some(list) && list@.len() >= 1
            },
            Err(BlockProverError::ParentHashMismatch { expected, got }) => {
                &&& parent.hash != inputs.parent_block_hash
                &&& expected == inputs.parent_block_hash
                &&& got == parent.hash
            },
            Err(BlockProverError::BlockNumberMismatch { expected, got }) => {
                &&& parent.hash == inputs.parent_block_hash
                &&& expected == (parent.header.number + 1) % 0x1_0000_0000_0000_0000
                &&& got == inputs.block_number
                &&& expected != got
            },
            Err(BlockProverError::EmptyTransactions) => {
                &&& parent.hash == inputs.parent_block_hash
                &&& inputs.block_number == (parent.header.number + 1) % 0x1_0000_0000_0000_0000
                &&& attributes.transactions matches Some(list) ==> list@.len() == 0
            },
            Err(_) => false,
        },
{
    if !same_hash(&parent.hash, &inputs.parent_block_hash) {
        return Err(
            BlockProverError::ParentHashMismatch {
                expected: inputs.parent_block_hash,
                got: parent.hash,
            },
        );
    }
    let expected: u64 = parent.header.number.wrapping_add(1);
    if inputs.block_number != expected {
        return Err(BlockProverError::BlockNumberMismatch { expected, got: inputs.block_number });
    }
    let empty = match &attributes.transactions {
        Some(transactions) => transactions.len() == 0,
        None => true,
    };
    if empty {
        return Err(BlockProverError::EmptyTransactions);
    }
    Ok(())
}

/// Hashes the header of the block that the executor reported.
pub fn seal_outcome(outcome: Result<BlockOutcome, String>) -> (executed: Result<
    ExecutedBlock,
    String,
>)
    ensures
        executed == sealed_outcome(outcome),
        outcome matches Ok(block) ==> encoding_identifies(block.header@),
        match (outcome, executed) {
            (Err(text), Err(passed_on)) => passed_on == text,
            (Ok(block), Ok(sealed)) => {
                &&& sealed.hash == keccak256_digest(header_encoding(block.header@))
                &&& sealed.number == block.header.number
                &&& sealed.state_root == block.header.state_root
                &&& sealed.receipts_root == block.header.receipts_root
                &&& sealed.gas_used == block.gas_used
            },
            _ => false,
        },
{
    match outcome {
        Err(text) => Err(text),
        Ok(block) => {
            let number: u64 = block.header.number;
            let state_root = block.header.state_root;
            let receipts_root = block.header.receipts_root;
            let gas_used: u64 = block.gas_used;
            let hash = block.header.hash_slow();
            Ok(ExecutedBlock { hash, number, state_root, receipts_root, gas_used })
        },
    }
}

/// Checks the executed block against the claimed block hash and commits to it.
///
/// One equality covers every header commitment (state root, receipts root,
/// transactions root, gas used, ...).
pub fn conclude_block(inputs: &PublicInputs, executed: Result<ExecutedBlock, String>) -> (result:
    Result<BlockOutput, BlockProverError>)
    ensures
        result == conclusion(*inputs, executed),
        match (executed, result) {
            (Err(text), Err(BlockProverError::Execution(passed_on))) => passed_on == text,
            (Ok(block), Err(BlockProverError::BlockHashMismatch { claimed, computed })) => {
                &&& block.hash != inputs.claimed_block_hash
                &&& claimed == inputs.claimed_block_hash
                &&& computed == block.hash
            },
            (Ok(block), Ok(output)) => {
                &&& block.hash == inputs.claimed_block_hash
                &&& output.block_transition.parent_block_hash == inputs.parent_block_hash
                &&& output.block_transition.block_hash == inputs.claimed_block_hash
                &&& output.block_number == block.number
                &&& output.state_root == block.state_root
                &&& output.receipts_root == block.receipts_root
                &&& output.gas_used == block.gas_used
            },
            _ => false,
        },
{
    match executed {
        Err(text) => Err(BlockProverError::Execution(text)),
        Ok(block) => {
            if !same_hash(&block.hash, &inputs.claimed_block_hash) {
                return Err(
                    BlockProverError::BlockHashMismatch {
                        claimed: inputs.claimed_block_hash,
                        computed: block.hash,
                    },
                );
            }
            Ok(
                BlockOutput {
                    block_transition: BlockTransition {
                        parent_block_hash: inputs.parent_block_hash,
                        block_hash: block.hash,
                    },
                    block_number: block.number,
                    state_root: block.state_root,
                    receipts_root: block.receipts_root,
                    gas_used: block.gas_used,
                },
            )
        },
    }
}

/// Runs the stateless state transition function over the given witness.
///
/// Statelessly re-executes the block described by `witness.attributes` on top
/// of the parent header, resolving all state through the witness's preimages,
/// and verifies that the resulting sealed header hashes to
/// `public_inputs.claimed_block_hash`.
///
/// `executor` builds the block, or says in words why it could not. It has to
/// accept the request for this witness, if the witness is consistent with its
/// public inputs, and nothing else: a witness that is not never reaches it.
///
/// # Errors
///
/// Returns [`BlockProverError`] if the witness is inconsistent with the public
/// inputs, execution fails, or the computed block hash differs from the claimed
/// one.
pub fn prove_block<'a, C, P, E>(witness: &'a BlockWitness<C, P>, executor: E) -> (result: Result<
    BlockOutput,
    BlockProverError,
>)
    where E: FnOnce(BlockRequest<'a, C, P>) -> Result<BlockOutcome, String>
    requires
        forall|parent: HeaderView, request: BlockRequest<'a, C, P>|
            is_admitted(*witness, parent) && #[trigger] is_request(*witness, parent, request)
                ==> call_requires(executor, (request,)),
    ensures
        is_answer(*witness, reports_of(executor), result),
{
    let parent = match decode_header(witness.parent_header_rlp.as_slice()) {
        Ok(header) => header.seal_slow(),
        Err(text) => return Err(BlockProverError::InvalidParentHeader(text)),
    };
    match admit_block(&parent, &witness.public_inputs, &witness.attributes) {
        Ok(()) => {},
        Err(error) => return Err(error),
    }
    let provider = WitnessProvider::new(&witness.execution_witness);
    let request = BlockRequest {
        rollup_config: &witness.rollup_config,
        provider,
        parent,
        attributes: &witness.attributes,
    };
    assert(is_request(*witness, parent.header@, request));
    let outcome = executor(request);
    assert(reports_of(executor)(request, outcome));
    conclude_block(&witness.public_inputs, seal_outcome(outcome))
}

/// The text of an error.
pub open spec fn error_chars(error: BlockProverError) -> Seq<char> {
    match error {
        BlockProverError::InvalidParentHeader(reason) => {
            "failed to decode parent header RLP: "@ + reason@
        },
        BlockProverError::ParentHashMismatch { expected, got } => {
            "parent header hash "@ + hash_chars(got) + " does not match parent_block_hash "@
                + hash_chars(expected)
        },
        BlockProverError::BlockNumberMismatch { expected, got } => {
            "block number mismatch: expected "@ + decimal_digits(expected as nat) + ", got "@
                + decimal_digits(got as nat)
        },
        BlockProverError::EmptyTransactions => "payload attributes contain no transactions"@,
        BlockProverError::Execution(reason) => "stateless execution failed: "@ + reason@,
        BlockProverError::BlockHashMismatch { claimed, computed } => {
            "computed block hash "@ + hash_chars(computed) + " does not match claimed block hash "@
                + hash_chars(claimed)
        },
    }
}

impl BlockProverError {
    /// The error in words.
    pub fn message(&self) -> (text: String)
        ensures
            text@ == error_chars(*self),
            match self {
                BlockProverError::InvalidParentHeader(reason) => text@
                    == "failed to decode parent header RLP: "@ + reason@,
                BlockProverError::ParentHashMismatch { expected, got } => text@
                    == "parent header hash "@ + hash_chars(*got)
                    + " does not match parent_block_hash "@ + hash_chars(*expected),
                BlockProverError::BlockNumberMismatch { expected, got } => text@
                    == "block number mismatch: expected "@ + decimal_digits(*expected as nat)
                    + ", got "@ + decimal_digits(*got as nat),
                BlockProverError::EmptyTransactions => text@
                    == "payload attributes contain no transactions"@,
                BlockProverError::Execution(reason) => text@ == "stateless execution failed: "@
                    + reason@,
                BlockProverError::BlockHashMismatch { claimed, computed } => text@
                    == "computed block hash "@ + hash_chars(*computed)
                    + " does not match claimed block hash "@ + hash_chars(*claimed),
            },
    {
        match self {
            BlockProverError::InvalidParentHeader(reason) => {
                "failed to decode parent header RLP: ".to_owned().concat(reason.as_str())
            },
            BlockProverError::ParentHashMismatch { expected, got } => {
                let mut text = "parent header hash ".to_owned();
                text.append(hash_text(got).as_str());
                text.append(" does not match parent_block_hash ");
                text.append(hash_text(expected).as_str());
                text
            },
            BlockProverError::BlockNumberMismatch { expected, got } => {
                let mut text = "block number mismatch: expected ".to_owned();
                text.append(number_text(*expected).as_str());
                text.append(", got ");
                text.append(number_text(*got).as_str());
                text
            },
            BlockProverError::EmptyTransactions => {
                "payload attributes contain no transactions".to_owned()
            },
            BlockProverError::Execution(reason) => {
                "stateless execution failed: ".to_owned().concat(reason.as_str())
            },
            BlockProverError::BlockHashMismatch { claimed, computed } => {
                let mut text = "computed block hash ".to_owned();
                text.append(hash_text(computed).as_str());
                text.append(" does not match claimed block hash ");
                text.append(hash_text(claimed).as_str());
                text
            },
        }
    }
}

/// Two reports say the same.
pub open spec fn same_outcome(
    a: Result<BlockOutcome, String>,
    b: Result<BlockOutcome, String>,
) -> bool {
    match (a, b) {
        (Ok(x), Ok(y)) => x.header@ == y.header@ && x.gas_used == y.gas_used,
        (Err(x), Err(y)) => x@ == y@,
        _ => false,
    }
}

/// All reports on one witness say the same.
pub open spec fn is_deterministic_on<'a, C, P>(
    reports: Reports<'a, C, P>,
    witness: BlockWitness<C, P>,
) -> bool {
    forall|
        parent: HeaderView,
        r1: BlockRequest<'a, C, P>,
        r2: BlockRequest<'a, C, P>,
        o1: Result<BlockOutcome, String>,
        o2: Result<BlockOutcome, String>,
    |
        {
            &&& is_admitted(witness, parent)
            &&& #[trigger] is_request(witness, parent, r1)
            &&& #[trigger] is_request(witness, parent, r2)
            &&& #[trigger] reports(r1, o1)
            &&& #[trigger] reports(r2, o2)
        } ==> same_outcome(o1, o2)
}

/// `block` may be reported on `witness`, whose parent header is `parent`.
pub open spec fn is_reported<'a, C, P>(
    witness: BlockWitness<C, P>,
    reports: Reports<'a, C, P>,
    parent: HeaderView,
    request: BlockRequest<'a, C, P>,
    block: BlockOutcome,
) -> bool {
    &&& is_admitted(witness, parent)
    &&& is_request(witness, parent, request)
    &&& reports(request, Ok(block))
}

/// No block reported on `witness` shares its hash with a block reported on
/// `other_witness` whose header is encoded otherwise.
pub open spec fn no_header_collision<'a, C, P>(
    witness: BlockWitness<C, P>,
    reports: Reports<'a, C, P>,
    other_witness: BlockWitness<C, P>,
    other_reports: Reports<'a, C, P>,
) -> bool {
    forall|
        p1: HeaderView,
        p2: HeaderView,
        r1: BlockRequest<'a, C, P>,
        r2: BlockRequest<'a, C, P>,
        b1: BlockOutcome,
        b2: BlockOutcome,
    |
        {
            &&& #[trigger] is_reported(witness, reports, p1, r1, b1)
            &&& #[trigger] is_reported(other_witness, other_reports, p2, r2, b2)
            &&& block_hash(b1.header@) == block_hash(b2.header@)
        } ==> header_encoding(b1.header@) == header_encoding(b2.header@)
}

/// The execution of the blocks reported on `witness` uses the gas that their
/// headers say.
pub open spec fn reports_the_header_gas<'a, C, P>(
    witness: BlockWitness<C, P>,
    reports: Reports<'a, C, P>,
) -> bool {
    forall|parent: HeaderView, request: BlockRequest<'a, C, P>, block: BlockOutcome|
        #[trigger] is_reported(witness, reports, parent, request, block) ==> block.gas_used
            == block.header.gas_used
}

/// `output` is what `witness` proves of `block`.
pub open spec fn is_output_of<C, P>(
    witness: BlockWitness<C, P>,
    block: BlockOutcome,
    output: BlockOutput,
) -> bool {
    &&& output.block_transition.parent_block_hash == witness.public_inputs.parent_block_hash
    &&& output.block_transition.block_hash == witness.public_inputs.claimed_block_hash
    &&& block_hash(block.header@) == witness.public_inputs.claimed_block_hash
    &&& output.block_number == block.header.number
    &&& output.state_root == block.header.state_root
    &&& output.receipts_root == block.header.receipts_root
    &&& output.gas_used == block.gas_used
}

/// The report behind the answer for an admitted witness.
proof fn lemma_answer_has_a_report<'a, C, P>(
    witness: BlockWitness<C, P>,
    parent: HeaderView,
    reports: Reports<'a, C, P>,
    result: Result<BlockOutput, BlockProverError>,
) -> (found: (BlockRequest<'a, C, P>, Result<BlockOutcome, String>))
    requires
        is_answer(witness, reports, result),
        is_admitted(witness, parent),
    ensures
        is_request(witness, parent, found.0),
        reports(found.0, found.1),
        found.1 matches Ok(block) ==> encoding_identifies(block.header@),
        result == conclusion(witness.public_inputs, sealed_outcome(found.1)),
{
    choose|request: BlockRequest<'a, C, P>, outcome: Result<BlockOutcome, String>|
        {
            &&& is_request(witness, parent, request)
            &&& #[trigger] reports(request, outcome)
            &&& outcome matches Ok(block) ==> encoding_identifies(block.header@)
            &&& result == conclusion(witness.public_inputs, sealed_outcome(outcome))
        }
}

/// What a proved block is worth: the witness's parent header hashes to the
/// public parent hash, the public block number is the next one, the block has
/// transactions, the output's transition leads from the public parent hash to
/// the claimed block hash, and a block was reported on exactly this witness
/// whose header has that hash and the output's block number and roots, and whose
/// execution used the output's gas.
pub proof fn law_proved_block_is_the_claimed_block<'a, C, P>(
    witness: BlockWitness<C, P>,
    reports: Reports<'a, C, P>,
    output: BlockOutput,
) -> (found: (HeaderView, BlockRequest<'a, C, P>, BlockOutcome))
    requires
        is_answer(witness, reports, Ok(output)),
    ensures
        has_transactions(witness.attributes.transactions),
        ({
            let (parent, request, block) = found;
            &&& keccak256_digest(parent.rlp) == witness.public_inputs.parent_block_hash
            &&& next_number(parent.number) == witness.public_inputs.block_number
            &&& is_reported(witness, reports, parent, request, block)
            &&& encoding_identifies(block.header@)
            &&& is_output_of(witness, block, output)
        }),
{
    let parent = decoded_header(witness.parent_header_rlp@)->Ok_0;
    let (request, outcome) = lemma_answer_has_a_report(witness, parent, reports, Ok(output));
    let block = outcome->Ok_0;
    assert(outcome == Ok::<BlockOutcome, String>(block));
    (parent, request, block)
}

/// An honest witness is proved: if it is consistent with its public inputs, and
/// only blocks with the claimed hash are reported on it, the answer is a block
/// output.
pub proof fn law_honest_witness_is_proved<'a, C, P>(
    witness: BlockWitness<C, P>,
    reports: Reports<'a, C, P>,
    parent: HeaderView,
    result: Result<BlockOutput, BlockProverError>,
)
    requires
        is_answer(witness, reports, result),
        decoded_header(witness.parent_header_rlp@) == Ok::<HeaderView, Seq<char>>(parent),
        keccak256_digest(parent.rlp) == witness.public_inputs.parent_block_hash,
        next_number(parent.number) == witness.public_inputs.block_number,
        has_transactions(witness.attributes.transactions),
        forall|request: BlockRequest<'a, C, P>, outcome: Result<BlockOutcome, String>|
            is_request(witness, parent, request) && #[trigger] reports(request, outcome) ==> (
            outcome matches Ok(block) && block_hash(block.header@)
                == witness.public_inputs.claimed_block_hash),
    ensures
        result is Ok,
{
}

/// A wrong claim is never proved: if no block with the claimed hash is reported
/// on this witness, the answer is an error.
pub proof fn law_wrong_claim_is_rejected<'a, C, P>(
    witness: BlockWitness<C, P>,
    reports: Reports<'a, C, P>,
    result: Result<BlockOutput, BlockProverError>,
)
    requires
        is_answer(witness, reports, result),
        forall|parent: HeaderView, request: BlockRequest<'a, C, P>, block: BlockOutcome|
            #[trigger] is_reported(witness, reports, parent, request, block) ==> block_hash(
                block.header@,
            ) != witness.public_inputs.claimed_block_hash,
    ensures
        result is Err,
{
    if let Ok(output) = result {
        let _ = law_proved_block_is_the_claimed_block(witness, reports, output);
    }
}

/// If every block reported on the witness has the number after its parent's, the
/// output's block number is the public one.
pub proof fn law_output_has_the_public_block_number<'a, C, P>(
    witness: BlockWitness<C, P>,
    reports: Reports<'a, C, P>,
    output: BlockOutput,
)
    requires
        is_answer(witness, reports, Ok(output)),
        forall|parent: HeaderView, request: BlockRequest<'a, C, P>, block: BlockOutcome|
            #[trigger] is_reported(witness, reports, parent, request, block)
                ==> block.header.number == next_number(parent.number),
    ensures
        output.block_number == witness.public_inputs.block_number,
{
    let _ = law_proved_block_is_the_claimed_block(witness, reports, output);
}

/// One equality covers every header commitment: of two proved witnesses with the
/// same public inputs, whatever else they hold and whichever executors reported
/// on them, the proved blocks have headers with one encoding. The headers agree
/// in every required field (state root, receipts root, transactions root, gas
/// used, ...), and in the optional ones too where neither leaves one out before
/// another. The outputs agree in the transition, the block number and both
/// roots, and, where execution uses the gas that the header says, in everything.
/// Headers that collide under Keccak-256 are left out.
pub proof fn law_public_inputs_fix_the_output<'a, C, P>(
    witness: BlockWitness<C, P>,
    reports: Reports<'a, C, P>,
    output: BlockOutput,
    other_witness: BlockWitness<C, P>,
    other_reports: Reports<'a, C, P>,
    other_output: BlockOutput,
) -> (found: (
    (HeaderView, BlockRequest<'a, C, P>, BlockOutcome),
    (HeaderView, BlockRequest<'a, C, P>, BlockOutcome),
))
    requires
        is_answer(witness, reports, Ok(output)),
        is_answer(other_witness, other_reports, Ok(other_output)),
        witness.public_inputs == other_witness.public_inputs,
        no_header_collision(witness, reports, other_witness, other_reports),
    ensures
        ({
            let ((p1, r1, b1), (p2, r2, b2)) = found;
            &&& is_reported(witness, reports, p1, r1, b1)
            &&& is_output_of(witness, b1, output)
            &&& is_reported(other_witness, other_reports, p2, r2, b2)
            &&& is_output_of(other_witness, b2, other_output)
            &&& header_encoding(b1.header@) == header_encoding(b2.header@)
            &&& same_required_fields(b1.header@, b2.header@)
            &&& has_no_gap(b1.header@) && has_no_gap(b2.header@) ==> b1.header@ == b2.header@
        }),
        output.block_transition == other_output.block_transition,
        output.block_number == other_output.block_number,
        output.state_root == other_output.state_root,
        output.receipts_root == other_output.receipts_root,
        reports_the_header_gas(witness, reports) && reports_the_header_gas(
            other_witness,
            other_reports,
        ) ==> output == other_output,
{
    let first = law_proved_block_is_the_claimed_block(witness, reports, output);
    let second = law_proved_block_is_the_claimed_block(other_witness, other_reports, other_output);
    assert(header_encoding(first.2.header@) == header_encoding(second.2.header@));
    (first, second)
}

/// The error for a witness that is inconsistent with its public inputs does not
/// depend on the executor: the texts are the same whatever would be reported.
pub proof fn law_refusal_does_not_depend_on_the_executor<'a, C, P>(
    witness: BlockWitness<C, P>,
    reports: Reports<'a, C, P>,
    other: Reports<'a, C, P>,
    result: Result<BlockOutput, BlockProverError>,
    other_result: Result<BlockOutput, BlockProverError>,
)
    requires
        is_answer(witness, reports, result),
        is_answer(witness, other, other_result),
        forall|parent: HeaderView| !is_admitted(witness, parent),
    ensures
        result is Err,
        other_result is Err,
        error_chars(result->Err_0) == error_chars(other_result->Err_0),
{
    if let Ok(parent) = decoded_header(witness.parent_header_rlp@) {
        assert(!is_admitted(witness, parent));
    }
}

/// One witness has one answer: two runs over the same witness, with reports that
/// say the same each time, give the same output or the same error text.
pub proof fn law_answer_is_determined<'a, C, P>(
    witness: BlockWitness<C, P>,
    reports: Reports<'a, C, P>,
    first: Result<BlockOutput, BlockProverError>,
    second: Result<BlockOutput, BlockProverError>,
)
    requires
        is_answer(witness, reports, first),
        is_answer(witness, reports, second),
        is_deterministic_on(reports, witness),
    ensures
        match (first, second) {
            (Ok(a), Ok(b)) => a == b,
            (Err(a), Err(b)) => error_chars(a) == error_chars(b),
            _ => false,
        },
{
}

/// At most one block hash can be claimed for one block: with reports that say
/// the same each time, of two witnesses that differ in nothing but the claimed
/// hash, where one is proved the other is refused, and the refusal names the
/// hash that was proved.
pub proof fn law_only_one_claim_is_proved<'a, C, P>(
    witness: BlockWitness<C, P>,
    other_claim: B256,
    reports: Reports<'a, C, P>,
    output: BlockOutput,
    result: Result<BlockOutput, BlockProverError>,
)
    requires
        is_answer(witness, reports, Ok(output)),
        other_claim != witness.public_inputs.claimed_block_hash,
        is_answer(with_claim(witness, other_claim), reports, result),
        is_deterministic_on(reports, witness),
    ensures
        result matches Err(BlockProverError::BlockHashMismatch { claimed, computed }) && claimed
            == other_claim && computed == witness.public_inputs.claimed_block_hash,
{
    let (parent, _, _) = law_proved_block_is_the_claimed_block(witness, reports, output);
    assert(is_admitted(witness, parent));
    let _ = lemma_claim_is_not_asked(witness, other_claim, reports, Ok(output), result);
}

/// The claim that a refusal names is the right one: with reports that say the
/// same each time, a witness that claims the computed hash of a refusal, and
/// differs from the refused one in nothing else, is proved.
pub proof fn law_computed_hash_is_proved<'a, C, P>(
    witness: BlockWitness<C, P>,
    refused_claim: B256,
    computed: B256,
    reports: Reports<'a, C, P>,
    result: Result<BlockOutput, BlockProverError>,
)
    requires
        is_answer(
            witness,
            reports,
            Err(BlockProverError::BlockHashMismatch { claimed: refused_claim, computed }),
        ),
        is_answer(with_claim(witness, computed), reports, result),
        is_deterministic_on(reports, witness),
    ensures
        result matches Ok(output) && output.block_transition.block_hash == computed,
{
    let parent = decoded_header(witness.parent_header_rlp@)->Ok_0;
    assert(is_admitted(witness, parent));
    let _ = lemma_claim_is_not_asked(
        witness,
        computed,
        reports,
        Err(BlockProverError::BlockHashMismatch { claimed: refused_claim, computed }),
        result,
    );
}

/// The claimed hash plays no part in what is reported: behind the answers for
/// two witnesses that differ in nothing else stand reports that say the same.
proof fn lemma_claim_is_not_asked<'a, C, P>(
    witness: BlockWitness<C, P>,
    claim: B256,
    reports: Reports<'a, C, P>,
    result: Result<BlockOutput, BlockProverError>,
    other_result: Result<BlockOutput, BlockProverError>,
) -> (found: (Result<BlockOutcome, String>, Result<BlockOutcome, String>))
    requires
        is_answer(witness, reports, result),
        is_answer(with_claim(witness, claim), reports, other_result),
        exists|parent: HeaderView| is_admitted(witness, parent),
        is_deterministic_on(reports, witness),
    ensures
        result == conclusion(witness.public_inputs, sealed_outcome(found.0)),
        other_result == conclusion(
            with_claim(witness, claim).public_inputs,
            sealed_outcome(found.1),
        ),
        same_outcome(found.0, found.1),
{
    let parent = choose|parent: HeaderView| is_admitted(witness, parent);
    let (_, o1) = lemma_answer_has_a_report(witness, parent, reports, result);
    let (r2, o2) = lemma_answer_has_a_report(
        with_claim(witness, claim),
        parent,
        reports,
        other_result,
    );
    assert(is_request(witness, parent, r2));
    (o1, o2)
}

/// `witness` with another claimed block hash.
pub open spec fn with_claim<C, P>(witness: BlockWitness<C, P>, claim: B256) -> BlockWitness<C, P> {
    BlockWitness {
        public_inputs: PublicInputs { claimed_block_hash: claim, ..witness.public_inputs },
        ..witness
    }
}

/// What `executor` may report is what it may return, neither more nor less.
pub proof fn law_reports_are_the_executors_own<'a, C: 'a, P: 'a, E>(
    executor: E,
    request: BlockRequest<'a, C, P>,
    outcome: Result<BlockOutcome, String>,
)
    where E: FnOnce(BlockRequest<'a, C, P>) -> Result<BlockOutcome, String>
    ensures
        reports_of::<'a, C, P, E>(executor)(request, outcome) <==> call_ensures(
            executor,
            (request,),
            outcome,
        ),
{
}

/// Admission by its causes: a witness is admitted if and only if the parent hash
/// is the public one, the public number follows the parent's (after the largest
/// number comes zero), and there is at least one transaction, however many there
/// are. Otherwise the first of these that fails is named, with what was expected
/// and what was found.
pub proof fn law_admission_by_its_causes(
    parent_hash: B256,
    parent_number: u64,
    inputs: PublicInputs,
    transactions: Option<Vec<Bytes>>,
)
    ensures
        ({
            let admitted = admission(parent_hash, parent_number, inputs, transactions);
            let following = (parent_number + 1) % 0x1_0000_0000_0000_0000;
            let right_parent = parent_hash == inputs.parent_block_hash;
            let right_number = inputs.block_number == following;
            let filled = transactions is Some && transactions->0@.len() >= 1;
            &&& admitted is Ok <==> right_parent && right_number && filled
            &&& !right_parent <==> (admitted is Err && admitted->Err_0 is ParentHashMismatch)
            &&& right_parent && !right_number <==> (admitted is Err
                && admitted->Err_0 is BlockNumberMismatch)
            &&& right_parent && right_number && !filled <==> (admitted is Err
                && admitted->Err_0 is EmptyTransactions)
            &&& admitted matches Err(BlockProverError::ParentHashMismatch { expected, got })
                ==> expected == inputs.parent_block_hash && got == parent_hash
            &&& admitted matches Err(BlockProverError::BlockNumberMismatch { expected, got })
                ==> expected == following && got == inputs.block_number
        }),
{
}

/// Every witness that cannot be executed is refused, with the cause: the parent
/// header does not decode, or hashes to something else than the public parent
/// hash, or the public number is not the following one, or there is no
/// transaction. The answer names a cause if and only if it is the first that
/// holds.
pub proof fn law_refusal_names_the_first_cause<'a, C, P>(
    witness: BlockWitness<C, P>,
    reports: Reports<'a, C, P>,
    result: Result<BlockOutput, BlockProverError>,
)
    requires
        is_answer(witness, reports, result),
    ensures
        match header_decoding(witness.parent_header_rlp@, usize::BITS as nat) {
            Err(reason) => result matches Err(BlockProverError::InvalidParentHeader(text)) && text@
                == reason,
            Ok(parent) => {
                let inputs = witness.public_inputs;
                let following = (parent.number + 1) % 0x1_0000_0000_0000_0000;
                let right_parent = keccak256_digest(parent.rlp) == inputs.parent_block_hash;
                let right_number = inputs.block_number == following;
                let filled = witness.attributes.transactions is Some
                    && witness.attributes.transactions->0@.len() >= 1;
                &&& !(result is Err && result->Err_0 is InvalidParentHeader)
                &&& !right_parent <==> (result is Err && result->Err_0 is ParentHashMismatch)
                &&& right_parent && !right_number <==> (result is Err
                    && result->Err_0 is BlockNumberMismatch)
                &&& right_parent && right_number && !filled <==> (result is Err
                    && result->Err_0 is EmptyTransactions)
                &&& result matches Err(BlockProverError::ParentHashMismatch { expected, got })
                    ==> expected == inputs.parent_block_hash && got == keccak256_digest(parent.rlp)
                &&& result matches Err(BlockProverError::BlockNumberMismatch { expected, got })
                    ==> expected == following && got == inputs.block_number
            },
        },
{
    if let Ok(parent) = header_decoding(witness.parent_header_rlp@, usize::BITS as nat) {
        law_admission_by_its_causes(
            keccak256_digest(parent.rlp),
            parent.number,
            witness.public_inputs,
            witness.attributes.transactions,
        );
        if is_admitted(witness, parent) {
            let _ = lemma_answer_has_a_report(witness, parent, reports, result);
        }
    }
}

/// Every other witness is executed, and the answer is what the executor's report
/// on it comes to: a failure is passed on in its own words, a block whose header
/// hashes to something else than the claim is refused with both hashes, and of
/// a block with the claimed hash the output tells the transition, the header's
/// number and roots, and the gas that execution used.
///
/// The executor is asked with the witness's own configuration and attributes, on
/// top of the parent header as it decodes, sealed with its hash.
pub proof fn law_consistent_witness_is_executed<'a, C, P>(
    witness: BlockWitness<C, P>,
    reports: Reports<'a, C, P>,
    parent: HeaderView,
    result: Result<BlockOutput, BlockProverError>,
) -> (found: (BlockRequest<'a, C, P>, Result<BlockOutcome, String>))
    requires
        is_answer(witness, reports, result),
        header_decoding(witness.parent_header_rlp@, usize::BITS as nat) == Ok::<
            HeaderView,
            Seq<char>,
        >(parent),
        keccak256_digest(parent.rlp) == witness.public_inputs.parent_block_hash,
        witness.public_inputs.block_number == (parent.number + 1) % 0x1_0000_0000_0000_0000,
        witness.attributes.transactions is Some,
        witness.attributes.transactions->0@.len() >= 1,
    ensures
        reports(found.0, found.1),
        is_request(witness, parent, found.0),
        *found.0.rollup_config == witness.rollup_config,
        *found.0.attributes == witness.attributes,
        found.0.parent.hash == witness.public_inputs.parent_block_hash,
        found.0.parent.header.number == parent.number,
        found.0.parent.header.gas_used == parent.gas_used,
        found.0.parent.header.state_root == parent.state_root,
        found.0.parent.header.receipts_root == parent.receipts_root,
        found.0.parent.header.rlp@ == parent.rlp,
        match found.1 {
            Err(text) => result == Err::<BlockOutput, BlockProverError>(
                BlockProverError::Execution(text),
            ),
            Ok(block) => {
                let computed = keccak256_digest(header_encoding(block.header@));
                let claimed = witness.public_inputs.claimed_block_hash;
                &&& computed != claimed ==> result == Err::<BlockOutput, BlockProverError>(
                    BlockProverError::BlockHashMismatch { claimed, computed },
                )
                &&& computed == claimed ==> (result matches Ok(output) && {
                    &&& output.block_transition.parent_block_hash
                        == witness.public_inputs.parent_block_hash
                    &&& output.block_transition.block_hash == computed
                    &&& output.block_number == block.header.number
                    &&& output.state_root == block.header.state_root
                    &&& output.receipts_root == block.header.receipts_root
                    &&& output.gas_used == block.gas_used
                })
            },
        },
{
    law_admission_by_its_causes(
        keccak256_digest(parent.rlp),
        parent.number,
        witness.public_inputs,
        witness.attributes.transactions,
    );
    lemma_answer_has_a_report(witness, parent, reports, result)
}

/// The executor finds everything that the witness offers, and nothing else: the
/// store it is handed answers for a hash if and only if a trie node, a bytecode
/// or a header of the witness has it, and the answer is such a blob. Of several
/// with one hash the last header is found, else the last bytecode, else the last
/// trie node.
pub proof fn law_request_serves_the_whole_witness<'a, C, P>(
    witness: BlockWitness<C, P>,
    parent: HeaderView,
    request: BlockRequest<'a, C, P>,
    hash: B256,
)
    requires
        is_request(witness, parent, request),
    ensures
        ({
            let store = request.provider@;
            let state = witness.execution_witness.state@;
            let codes = witness.execution_witness.codes@;
            let headers = witness.execution_witness.headers@;
            let in_state = exists|i: int|
                0 <= i < state.len() && keccak256_digest(#[trigger] state[i]@) == hash;
            let in_codes = exists|i: int|
                0 <= i < codes.len() && keccak256_digest(#[trigger] codes[i]@) == hash;
            let in_headers = exists|i: int|
                0 <= i < headers.len() && keccak256_digest(#[trigger] headers[i]@) == hash;
            &&& store.contains_key(hash) <==> in_state || in_codes || in_headers
            &&& store.contains_key(hash) ==> keccak256_digest(store[hash]) == hash
            &&& in_headers ==> exists|i: int|
                0 <= i < headers.len() && #[trigger] headers[i]@ == store[hash] && forall|j: int|
                    i < j < headers.len() ==> keccak256_digest(#[trigger] headers[j]@) != hash
            &&& in_codes && !in_headers ==> exists|i: int|
                0 <= i < codes.len() && #[trigger] codes[i]@ == store[hash] && forall|j: int|
                    i < j < codes.len() ==> keccak256_digest(#[trigger] codes[j]@) != hash
            &&& in_state && !in_codes && !in_headers ==> exists|i: int|
                0 <= i < state.len() && #[trigger] state[i]@ == store[hash] && forall|j: int|
                    i < j < state.len() ==> keccak256_digest(#[trigger] state[j]@) != hash
        }),
{
    law_store_answers_for_the_three_lists(witness.execution_witness, hash);
}

/// The executor is asked on top of the parent header of the witness: its fields
/// and its encoding are what decoding the witness's parent bytes gives, its hash
/// is the hash of that encoding, and decoding the encoding gives them again.
/// Configuration and attributes are the witness's own.
pub proof fn law_request_holds_the_decoded_parent<'a, C, P>(
    witness: BlockWitness<C, P>,
    parent: HeaderView,
    request: BlockRequest<'a, C, P>,
)
    requires
        is_admitted(witness, parent),
        is_request(witness, parent, request),
    ensures
        ({
            let decoded = header_decoding(witness.parent_header_rlp@, usize::BITS as nat);
            let header = request.parent.header;
            &&& decoded matches Ok(value) && {
                &&& header.number == value.number
                &&& header.gas_used == value.gas_used
                &&& header.state_root == value.state_root
                &&& header.receipts_root == value.receipts_root
                &&& header.rlp@ == value.rlp
            }
            &&& request.parent.hash == keccak256_digest(header.rlp@)
            &&& request.parent.hash == witness.public_inputs.parent_block_hash
            &&& header_decoding(header.rlp@, usize::BITS as nat) == decoded
        }),
        *request.rollup_config == witness.rollup_config,
        *request.attributes == witness.attributes,
{
}

/// A proved block is the claimed one in its whole header: a block was reported on
/// the witness the Keccak-256 hash of whose header's encoding is the claimed
/// hash. Any header whose encoding does not collide with that one and has the
/// claimed hash too agrees with it in every required field, extra data included.
pub proof fn law_claimed_hash_covers_the_whole_header<'a, C, P>(
    witness: BlockWitness<C, P>,
    reports: Reports<'a, C, P>,
    output: BlockOutput,
    claimed: BlockHeaderView,
) -> (found: (HeaderView, BlockRequest<'a, C, P>, BlockOutcome))
    requires
        is_answer(witness, reports, Ok(output)),
        keccak256_digest(header_encoding(claimed)) == witness.public_inputs.claimed_block_hash,
        forall|other: BlockHeaderView|
            keccak256_digest(#[trigger] header_encoding(other)) == keccak256_digest(
                header_encoding(claimed),
            ) ==> header_encoding(other) == header_encoding(claimed),
    ensures
        is_request(witness, found.0, found.1),
        reports(found.1, Ok(found.2)),
        ({
            let header = found.2.header@;
            &&& keccak256_digest(header_encoding(header))
                == witness.public_inputs.claimed_block_hash
            &&& header_encoding(header) == header_encoding(claimed)
            &&& header.parent_hash == claimed.parent_hash
            &&& header.ommers_hash == claimed.ommers_hash
            &&& header.beneficiary == claimed.beneficiary
            &&& header.state_root == claimed.state_root
            &&& header.transactions_root == claimed.transactions_root
            &&& header.receipts_root == claimed.receipts_root
            &&& header.logs_bloom == claimed.logs_bloom
            &&& header.difficulty == claimed.difficulty
            &&& header.number == claimed.number
            &&& header.gas_limit == claimed.gas_limit
            &&& header.gas_used == claimed.gas_used
            &&& header.timestamp == claimed.timestamp
            &&& header.extra_data == claimed.extra_data
            &&& header.mix_hash == claimed.mix_hash
            &&& header.nonce == claimed.nonce
        }),
        output.block_transition.parent_block_hash == witness.public_inputs.parent_block_hash,
        output.block_transition.block_hash == witness.public_inputs.claimed_block_hash,
        output.block_number == claimed.number,
        output.state_root == claimed.state_root,
        output.receipts_root == claimed.receipts_root,
        output.gas_used == found.2.gas_used,
{
    let (parent, request, block) = law_proved_block_is_the_claimed_block(witness, reports, output);
    assert(header_encoding(block.header@) == header_encoding(claimed));
    (parent, request, block)
}

} // verus!
