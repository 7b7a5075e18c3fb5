use alloy_consensus::Header as AlloyHeader;
use alloy_primitives::{hex, keccak256, B256};
use base_block_prover::provider::{label_invalid, WitnessProvider};
use base_block_prover::ExecutionWitness;

fn witness() -> ExecutionWitness {
    let header = AlloyHeader { number: 77, ..Default::default() };
    ExecutionWitness {
        state: vec![b"node".to_vec(), vec![]],
        codes: vec![b"code".to_vec(), b"node".to_vec()],
        keys: vec![b"key".to_vec()],
        headers: vec![alloy_rlp::encode(&header), vec![0xc0]],
    }
}

#[test]
fn every_list_is_filed_under_keccak256() {
    let provider = WitnessProvider::new(&witness());
    for blob in [b"node".to_vec(), vec![], b"code".to_vec(), vec![0xc0]] {
        assert_eq!(provider.preimage(keccak256(&blob).0).unwrap(), &blob);
    }
}

#[test]
fn many_blobs_are_told_apart() {
    let blobs: Vec<Vec<u8>> = (0u32..2000).map(|i| i.to_be_bytes().to_vec()).collect();
    let provider = WitnessProvider::new(&ExecutionWitness {
        codes: blobs.clone(),
        ..Default::default()
    });
    for blob in &blobs {
        assert_eq!(&provider.bytecode_by_hash(keccak256(blob).0).unwrap(), blob);
    }
    assert!(provider.bytecode_by_hash(keccak256(2000u32.to_be_bytes()).0).is_err());
}

#[test]
fn keccak256_of_nothing_is_the_known_constant() {
    let provider = WitnessProvider::new(&witness());
    let empty = hex::decode("c5d2460186f7233c927e7db2dcc703c0e500b653ca82273b7bfad8045d85a470");
    let hash: [u8; 32] = empty.unwrap().try_into().unwrap();
    assert_eq!(provider.preimage(hash).unwrap(), &Vec::<u8>::new());
}

#[test]
fn keys_are_not_filed() {
    let provider = WitnessProvider::new(&witness());
    assert!(provider.preimage(keccak256(b"key").0).is_err());
}

#[test]
fn order_does_not_matter() {
    let mut turned = witness();
    turned.state.reverse();
    turned.codes.reverse();
    std::mem::swap(&mut turned.state, &mut turned.headers);
    let (one, two) = (WitnessProvider::new(&witness()), WitnessProvider::new(&turned));
    for blob in [b"node".to_vec(), vec![], b"code".to_vec(), vec![0xc0]] {
        let hash = keccak256(&blob).0;
        assert_eq!(one.preimage(hash).unwrap(), two.preimage(hash).unwrap());
    }
}

#[test]
fn missing_preimage_names_the_hash() {
    let provider = WitnessProvider::new(&ExecutionWitness::default());
    let hash = B256::repeat_byte(0xab);
    let text = format!("missing witness preimage for 0x{}", "ab".repeat(32));
    assert_eq!(provider.preimage(hash.0).unwrap_err(), text);
    assert_eq!(provider.bytecode_by_hash(hash.0).unwrap_err(), text);
    assert_eq!(provider.header_by_hash(hash.0).unwrap_err(), text);
    let node: Result<(), String> =
        provider.trie_node_by_hash(hash.0, |_| panic!("nothing to decode"));
    assert_eq!(node.unwrap_err(), text);
}

#[test]
fn headers_are_decoded() {
    let provider = WitnessProvider::new(&witness());
    let header = AlloyHeader { number: 77, ..Default::default() };
    let found = provider.header_by_hash(header.hash_slow().0).unwrap();
    assert_eq!(found.number, 77);
    assert_eq!(found.state_root, header.state_root.0);
    assert_eq!(found.receipts_root, header.receipts_root.0);
    assert_eq!(found.rlp, alloy_rlp::encode(&header));
    assert_eq!(found.seal_slow().hash, header.hash_slow().0);
}

#[test]
fn bytes_behind_a_header_do_not_count() {
    let header = AlloyHeader { number: 78, ..Default::default() };
    let mut raw = alloy_rlp::encode(&header);
    raw.extend_from_slice(b"tail");
    let provider = WitnessProvider::new(&ExecutionWitness {
        headers: vec![raw.clone()],
        ..Default::default()
    });
    let found = provider.header_by_hash(keccak256(&raw).0).unwrap();
    assert_eq!(found.rlp, alloy_rlp::encode(&header));
    assert_ne!(found.seal_slow().hash, keccak256(&raw).0);
}

#[test]
fn invalid_header_names_hash_and_reason() {
    let provider = WitnessProvider::new(&witness());
    let hash = keccak256([0xc0]);
    assert_eq!(
        provider.header_by_hash(hash.0).unwrap_err(),
        format!("invalid header {hash}: input too short")
    );
}

#[test]
fn trie_nodes_are_decoded_by_the_given_decoder() {
    let provider = WitnessProvider::new(&witness());
    let hash = keccak256(b"node");
    let node = provider.trie_node_by_hash(hash.0, |raw| Ok(raw.len()));
    assert_eq!(node.unwrap(), 4);
    let node: Result<(), String> =
        provider.trie_node_by_hash(hash.0, |_| Err("no such node type".to_string()));
    assert_eq!(node.unwrap_err(), format!("invalid trie node {hash}: no such node type"));
}

#[test]
fn labels_are_put_on_errors_only() {
    assert_eq!(label_invalid(Ok(5), "header", [1; 32]), Ok(5));
    assert_eq!(
        label_invalid::<u8>(Err("overflow".to_string()), "header", [1; 32]),
        Err(format!("invalid header 0x{}: overflow", "01".repeat(32)))
    );
}
