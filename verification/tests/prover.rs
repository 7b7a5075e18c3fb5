use alloy_consensus::{Header as AlloyHeader, EMPTY_ROOT_HASH};
use alloy_primitives::{keccak256, Address, Bloom, B256, B64, U256};
use base_block_prover::header::{BlockHeader, Header, SealedHeader};
use base_block_prover::prover::{
    admit_block, conclude_block, prove_block, seal_outcome, BlockOutcome, BlockProverError,
    BlockRequest, ExecutedBlock,
};
use base_block_prover::{
    BasePayloadAttributes, BlockOutput, BlockTransition, BlockWitness, ExecutionWitness,
    PublicInputs,
};

type Witness = BlockWitness<u64, u64>;

/// A deposit transaction that mints the given amount.
fn example_deposit_tx_with_mint(mint: u128) -> Vec<u8> {
    let mut tx = vec![0x7e];
    tx.extend_from_slice(&mint.to_be_bytes());
    tx
}

fn example_parent() -> AlloyHeader {
    AlloyHeader {
        number: 41,
        state_root: EMPTY_ROOT_HASH,
        gas_limit: 30_000_000,
        timestamp: 1_700_000_000,
        base_fee_per_gas: Some(7),
        ..Default::default()
    }
}

/// The header of the block that the example attributes describe.
fn example_block(parent: &AlloyHeader, transactions: &[Vec<u8>], timestamp: u64) -> AlloyHeader {
    let body = transactions.concat();
    AlloyHeader {
        parent_hash: parent.hash_slow(),
        number: parent.number.wrapping_add(1),
        state_root: keccak256(&body),
        transactions_root: keccak256([&body[..], b"transactions"].concat()),
        receipts_root: B256::repeat_byte(0x5a),
        gas_used: 46_000,
        timestamp,
        ..Default::default()
    }
}

/// The header in plain values.
fn plain(header: &AlloyHeader) -> BlockHeader {
    BlockHeader {
        parent_hash: header.parent_hash.0,
        ommers_hash: header.ommers_hash.0,
        beneficiary: header.beneficiary.into_array(),
        state_root: header.state_root.0,
        transactions_root: header.transactions_root.0,
        receipts_root: header.receipts_root.0,
        logs_bloom: header.logs_bloom.into_array(),
        difficulty: header.difficulty.to_be_bytes(),
        number: header.number,
        gas_limit: header.gas_limit,
        gas_used: header.gas_used,
        timestamp: header.timestamp,
        extra_data: header.extra_data.to_vec(),
        mix_hash: header.mix_hash.0,
        nonce: header.nonce.0,
        base_fee_per_gas: header.base_fee_per_gas,
        withdrawals_root: header.withdrawals_root.map(|root| root.0),
        blob_gas_used: header.blob_gas_used,
        excess_blob_gas: header.excess_blob_gas,
        parent_beacon_block_root: header.parent_beacon_block_root.map(|root| root.0),
        requests_hash: header.requests_hash.map(|hash| hash.0),
        block_access_list_hash: header.block_access_list_hash.map(|hash| hash.0),
        slot_number: header.slot_number,
    }
}

/// A header in which every field is there and differs from the others.
fn full_header() -> AlloyHeader {
    AlloyHeader {
        parent_hash: B256::repeat_byte(1),
        ommers_hash: B256::repeat_byte(2),
        beneficiary: Address::repeat_byte(3),
        state_root: B256::repeat_byte(4),
        transactions_root: B256::repeat_byte(5),
        receipts_root: B256::repeat_byte(6),
        logs_bloom: Bloom::repeat_byte(7),
        difficulty: U256::from(0x0102_0304_u64),
        number: 9,
        gas_limit: 10,
        gas_used: 11,
        timestamp: 12,
        extra_data: vec![13, 14].into(),
        mix_hash: B256::repeat_byte(15),
        nonce: B64::repeat_byte(16),
        base_fee_per_gas: Some(17),
        withdrawals_root: Some(B256::repeat_byte(18)),
        blob_gas_used: Some(19),
        excess_blob_gas: Some(20),
        parent_beacon_block_root: Some(B256::repeat_byte(21)),
        requests_hash: Some(B256::repeat_byte(22)),
        block_access_list_hash: Some(B256::repeat_byte(23)),
        slot_number: Some(24),
    }
}

/// Executes the block that the request describes.
fn execute(request: BlockRequest<'_, u64, u64>) -> Result<BlockOutcome, String> {
    let parent: AlloyHeader =
        alloy_rlp::decode_exact(&request.parent.header.rlp).map_err(|err| err.to_string())?;
    let state = request.provider.preimage(keccak256(b"state").0)?;
    assert_eq!(state, &b"state".to_vec());
    assert_eq!(*request.rollup_config, 8453);
    let transactions = request.attributes.transactions.as_ref().unwrap();
    let block = example_block(&parent, transactions, request.attributes.payload);
    Ok(BlockOutcome { header: plain(&block), gas_used: block.gas_used })
}

/// Stands in where the executor must not be asked.
fn not_asked(_: BlockRequest<'_, u64, u64>) -> Result<BlockOutcome, String> {
    panic!("the executor was asked");
}

fn example_witness() -> Witness {
    let parent = example_parent();
    let transactions = vec![example_deposit_tx_with_mint(1_000_000_000_000_000_000)];
    let timestamp = 1_700_000_002;
    let block = example_block(&parent, &transactions, timestamp);
    BlockWitness {
        public_inputs: PublicInputs {
            parent_block_hash: parent.hash_slow().0,
            block_number: 42,
            claimed_block_hash: block.hash_slow().0,
        },
        rollup_config: 8453,
        parent_header_rlp: alloy_rlp::encode(&parent),
        attributes: BasePayloadAttributes { transactions: Some(transactions), payload: timestamp },
        execution_witness: ExecutionWitness { state: vec![b"state".to_vec()], ..Default::default() },
    }
}

#[test]
fn example_witness_proves() {
    let witness = example_witness();
    let output = prove_block(&witness, execute).unwrap();
    assert_eq!(output.block_transition.parent_block_hash, witness.public_inputs.parent_block_hash);
    assert_eq!(output.block_transition.block_hash, witness.public_inputs.claimed_block_hash);
    assert_eq!(output.block_number, witness.public_inputs.block_number);
    assert!(output.gas_used > 0);
    assert_ne!(output.state_root, EMPTY_ROOT_HASH.0);
}

#[test]
fn output_holds_what_the_header_says() {
    let mut witness = example_witness();
    let block = AlloyHeader {
        number: 7,
        state_root: B256::repeat_byte(1),
        receipts_root: B256::repeat_byte(2),
        gas_used: 8,
        ..Default::default()
    };
    let claimed = block.hash_slow().0;
    witness.public_inputs.claimed_block_hash = claimed;
    let outcome = BlockOutcome { header: plain(&block), gas_used: 9 };
    let output = prove_block(&witness, |_| Ok(outcome)).unwrap();
    assert_eq!(
        output,
        BlockOutput {
            block_transition: BlockTransition {
                parent_block_hash: witness.public_inputs.parent_block_hash,
                block_hash: claimed,
            },
            block_number: 7,
            state_root: [1; 32],
            receipts_root: [2; 32],
            gas_used: 9,
        }
    );
}

#[test]
fn public_inputs_fix_the_output() {
    let witness = example_witness();
    let mut other = witness.clone();
    other.rollup_config = 10;
    other.attributes.transactions = Some(vec![vec![1, 2, 3]]);
    other.execution_witness = ExecutionWitness::default();
    let transactions = witness.attributes.transactions.clone().unwrap();
    let block = example_block(&example_parent(), &transactions, witness.attributes.payload);
    let outcome = BlockOutcome { header: plain(&block), gas_used: block.gas_used };
    assert_eq!(
        prove_block(&witness, execute).unwrap(),
        prove_block(&other, |_| Ok(outcome)).unwrap()
    );
}

#[test]
fn changing_any_header_field_is_rejected() {
    let mut witness = example_witness();
    let block = full_header();
    witness.public_inputs.claimed_block_hash = block.hash_slow().0;
    let unchanged = BlockOutcome { header: plain(&block), gas_used: 11 };
    assert!(prove_block(&witness, |_| Ok(unchanged)).is_ok());

    let mut changed = vec![block.clone(); 24];
    changed[0].parent_hash = B256::ZERO;
    changed[1].ommers_hash = B256::ZERO;
    changed[2].beneficiary = Address::ZERO;
    changed[3].state_root = B256::ZERO;
    changed[4].transactions_root = B256::ZERO;
    changed[5].receipts_root = B256::ZERO;
    changed[6].logs_bloom = Bloom::ZERO;
    changed[7].difficulty = U256::from(0x0403_0201_u64);
    changed[8].number += 1;
    changed[9].gas_limit += 1;
    changed[10].gas_used += 1;
    changed[11].timestamp += 1;
    changed[12].extra_data = vec![13].into();
    changed[13].mix_hash = B256::ZERO;
    changed[14].nonce = B64::ZERO;
    changed[15].base_fee_per_gas = None;
    changed[16].withdrawals_root = None;
    changed[17].blob_gas_used = None;
    changed[18].excess_blob_gas = None;
    changed[19].parent_beacon_block_root = None;
    changed[20].requests_hash = None;
    changed[21].block_access_list_hash = None;
    changed[22].slot_number = None;
    changed[23].slot_number = Some(0);
    for header in changed {
        let outcome = BlockOutcome { header: plain(&header), gas_used: 11 };
        match prove_block(&witness, |_| Ok(outcome)) {
            Err(BlockProverError::BlockHashMismatch { claimed, computed }) => {
                assert_eq!(claimed, block.hash_slow().0);
                assert_eq!(computed, header.hash_slow().0);
                assert_ne!(computed, claimed);
            }
            _ => panic!("a changed header was accepted"),
        }
    }
}

#[test]
fn reported_header_is_hashed() {
    let block = full_header();
    let outcome = BlockOutcome { header: plain(&block), gas_used: 3 };
    let executed = seal_outcome(Ok(outcome)).unwrap();
    assert_eq!(executed.hash, block.hash_slow().0);
    assert_eq!(executed.number, 9);
    assert_eq!(executed.state_root, [4; 32]);
    assert_eq!(executed.receipts_root, [6; 32]);
    assert_eq!(executed.gas_used, 3);
    assert_eq!(seal_outcome(Err("out of gas".to_string())).unwrap_err(), "out of gas");
}

#[test]
fn header_with_a_gap_is_proved() {
    let mut witness = example_witness();
    let block = AlloyHeader {
        number: 42,
        base_fee_per_gas: Some(7),
        withdrawals_root: Some(B256::repeat_byte(1)),
        parent_beacon_block_root: Some(B256::repeat_byte(2)),
        ..Default::default()
    };
    let encoded = alloy_rlp::encode(&block);
    assert!(alloy_rlp::decode_exact::<AlloyHeader>(&encoded).is_err());

    let outcome = BlockOutcome { header: plain(&block), gas_used: 5 };
    let refused = outcome.clone();
    match prove_block(&witness, |_| Ok(refused)) {
        Err(BlockProverError::BlockHashMismatch { computed, .. }) => {
            assert_eq!(computed, block.hash_slow().0);
        }
        _ => panic!("a wrong claim was not rejected"),
    }
    witness.public_inputs.claimed_block_hash = block.hash_slow().0;
    let output = prove_block(&witness, |_| Ok(outcome)).unwrap();
    assert_eq!(output.block_transition.block_hash, block.hash_slow().0);
    assert_eq!(output.block_number, 42);
    assert_eq!(output.gas_used, 5);
}

#[test]
fn gap_can_hide_which_optional_field_is_there() {
    let first = AlloyHeader { blob_gas_used: Some(5), ..example_parent() };
    let second = AlloyHeader { excess_blob_gas: Some(5), ..example_parent() };
    assert_eq!(plain(&first).hash_slow(), plain(&second).hash_slow());
}

#[test]
fn parent_hash_mismatch_is_rejected() {
    let mut witness = example_witness();
    witness.public_inputs.parent_block_hash = B256::repeat_byte(0xaa).0;
    assert!(matches!(
        prove_block(&witness, not_asked),
        Err(BlockProverError::ParentHashMismatch { .. })
    ));
}

#[test]
fn block_number_mismatch_is_rejected() {
    let mut witness = example_witness();
    witness.public_inputs.block_number = 50;
    assert!(matches!(
        prove_block(&witness, not_asked),
        Err(BlockProverError::BlockNumberMismatch { expected: 42, got: 50 })
    ));
}

#[test]
fn empty_transactions_are_rejected() {
    let mut witness = example_witness();
    witness.attributes.transactions = Some(vec![]);
    assert!(matches!(
        prove_block(&witness, not_asked),
        Err(BlockProverError::EmptyTransactions)
    ));
}

#[test]
fn missing_transactions_are_rejected() {
    let mut witness = example_witness();
    witness.attributes.transactions = None;
    assert!(matches!(
        prove_block(&witness, not_asked),
        Err(BlockProverError::EmptyTransactions)
    ));
}

#[test]
fn wrong_claimed_block_hash_is_rejected() {
    let mut witness = example_witness();
    witness.public_inputs.claimed_block_hash = B256::repeat_byte(0xbb).0;
    assert!(matches!(
        prove_block(&witness, execute),
        Err(BlockProverError::BlockHashMismatch { .. })
    ));
}

#[test]
fn tampered_transaction_changes_block_hash() {
    let mut witness = example_witness();
    let tx = example_deposit_tx_with_mint(2_000_000_000_000_000_000);
    witness.attributes.transactions = Some(vec![tx]);
    assert!(matches!(
        prove_block(&witness, execute),
        Err(BlockProverError::BlockHashMismatch { .. })
    ));
}

#[test]
fn block_hash_mismatch_names_both_hashes() {
    let witness = example_witness();
    let claimed = witness.public_inputs.claimed_block_hash;
    let mut other = witness.clone();
    other.public_inputs.claimed_block_hash = [0xbb; 32];
    match prove_block(&other, execute) {
        Err(BlockProverError::BlockHashMismatch { claimed: c, computed }) => {
            assert_eq!(c, [0xbb; 32]);
            assert_eq!(computed, claimed);
            other.public_inputs.claimed_block_hash = computed;
        }
        _ => panic!("a wrong claim was not rejected"),
    }
    let output = prove_block(&other, execute).unwrap();
    assert_eq!(output.block_transition.block_hash, claimed);
}

#[test]
fn two_runs_give_one_answer() {
    let witness = example_witness();
    assert_eq!(prove_block(&witness, execute).unwrap(), prove_block(&witness.clone(), execute).unwrap());
}

#[test]
fn missing_preimage_fails_execution() {
    let mut witness = example_witness();
    witness.execution_witness.state = vec![];
    match prove_block(&witness, execute) {
        Err(BlockProverError::Execution(text)) => {
            assert_eq!(text, format!("missing witness preimage for {}", keccak256(b"state")));
        }
        _ => panic!("execution did not fail"),
    }
}

#[test]
fn undecodable_parent_header_is_rejected() {
    let mut witness = example_witness();
    witness.parent_header_rlp = vec![0x80];
    match prove_block(&witness, not_asked) {
        Err(BlockProverError::InvalidParentHeader(text)) => {
            assert_eq!(text, alloy_rlp::Error::UnexpectedString.to_string());
        }
        _ => panic!("the parent header decoded"),
    }
    witness.parent_header_rlp = vec![];
    match prove_block(&witness, not_asked) {
        Err(BlockProverError::InvalidParentHeader(text)) => assert_eq!(text, "input too short"),
        _ => panic!("the parent header decoded"),
    }
}

#[test]
fn bytes_behind_the_parent_header_are_ignored() {
    let mut witness = example_witness();
    witness.parent_header_rlp.push(0xff);
    assert!(prove_block(&witness, execute).is_ok());
}

#[test]
fn parent_hash_is_checked_before_number_and_transactions() {
    let mut witness = example_witness();
    witness.public_inputs.parent_block_hash = [0xaa; 32];
    witness.public_inputs.block_number = 50;
    witness.attributes.transactions = None;
    match prove_block(&witness, not_asked) {
        Err(BlockProverError::ParentHashMismatch { expected, got }) => {
            assert_eq!(expected, [0xaa; 32]);
            assert_eq!(got, example_parent().hash_slow().0);
        }
        _ => panic!("the parent hash was not checked first"),
    }
    witness.public_inputs.parent_block_hash = example_parent().hash_slow().0;
    assert!(matches!(
        prove_block(&witness, not_asked),
        Err(BlockProverError::BlockNumberMismatch { expected: 42, got: 50 })
    ));
}

fn header(number: u64) -> Header {
    Header { number, gas_used: 6, state_root: [7; 32], receipts_root: [8; 32], rlp: vec![] }
}

fn sealed(number: u64) -> SealedHeader {
    SealedHeader { header: header(number), hash: [3; 32] }
}

fn inputs(block_number: u64) -> PublicInputs {
    PublicInputs { parent_block_hash: [3; 32], block_number, claimed_block_hash: [4; 32] }
}

#[test]
fn block_number_wraps_after_the_largest() {
    let attributes = BasePayloadAttributes { transactions: Some(vec![vec![1]]), payload: () };
    assert!(admit_block(&sealed(u64::MAX), &inputs(0), &attributes).is_ok());
    assert!(matches!(
        admit_block(&sealed(u64::MAX), &inputs(u64::MAX), &attributes),
        Err(BlockProverError::BlockNumberMismatch { expected: 0, got: u64::MAX })
    ));
    assert!(admit_block(&sealed(u64::MAX - 1), &inputs(u64::MAX), &attributes).is_ok());
}

#[test]
fn executor_error_is_passed_on() {
    match conclude_block(&inputs(1), Err("out of gas".to_string())) {
        Err(BlockProverError::Execution(text)) => assert_eq!(text, "out of gas"),
        _ => panic!("the error was lost"),
    }
}

#[test]
fn executed_block_is_held_against_the_claim() {
    let block = |hash: [u8; 32]| ExecutedBlock {
        hash,
        number: 5,
        state_root: [7; 32],
        receipts_root: [8; 32],
        gas_used: 9,
    };
    let output = conclude_block(&inputs(1), Ok(block([4; 32]))).unwrap();
    assert_eq!(
        output,
        BlockOutput {
            block_transition: BlockTransition { parent_block_hash: [3; 32], block_hash: [4; 32] },
            block_number: 5,
            state_root: [7; 32],
            receipts_root: [8; 32],
            gas_used: 9,
        }
    );
    match conclude_block(&inputs(1), Ok(block([5; 32]))) {
        Err(BlockProverError::BlockHashMismatch { claimed, computed }) => {
            assert_eq!(claimed, [4; 32]);
            assert_eq!(computed, [5; 32]);
        }
        _ => panic!("another block was accepted"),
    }
}

#[test]
fn sealing_gives_the_header_hash() {
    let parent = example_parent();
    let header = Header { rlp: alloy_rlp::encode(&parent), ..header(41) };
    assert_eq!(header.seal_slow().hash, parent.hash_slow().0);
}

#[test]
fn errors_in_words() {
    let a = format!("0x{}", "0a".repeat(32));
    let b = format!("0x{}", "f1".repeat(32));
    assert_eq!(
        BlockProverError::InvalidParentHeader("overflow".to_string()).message(),
        "failed to decode parent header RLP: overflow"
    );
    assert_eq!(
        BlockProverError::ParentHashMismatch { expected: [0x0a; 32], got: [0xf1; 32] }.message(),
        format!("parent header hash {b} does not match parent_block_hash {a}")
    );
    assert_eq!(
        BlockProverError::BlockNumberMismatch { expected: 42, got: 50 }.message(),
        "block number mismatch: expected 42, got 50"
    );
    assert_eq!(
        BlockProverError::BlockNumberMismatch { expected: 0, got: u64::MAX }.message(),
        "block number mismatch: expected 0, got 18446744073709551615"
    );
    assert_eq!(
        BlockProverError::EmptyTransactions.message(),
        "payload attributes contain no transactions"
    );
    assert_eq!(
        BlockProverError::Execution("out of gas".to_string()).message(),
        "stateless execution failed: out of gas"
    );
    assert_eq!(
        BlockProverError::BlockHashMismatch { claimed: [0x0a; 32], computed: [0xf1; 32] }.message(),
        format!("computed block hash {b} does not match claimed block hash {a}")
    );
}
