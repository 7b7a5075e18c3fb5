//! Block headers: RLP decoding and encoding, sealing.

use alloy_consensus::Header as AlloyHeader;
use alloy_primitives::{FixedBytes, U256};
use alloy_rlp::Decodable;
use vstd::prelude::*;

use crate::hash::{keccak256, keccak256_digest};
use crate::types::{Bytes, B256};

verus! {

/// A decoded block header: its number, gas and roots, and its own RLP encoding,
/// which stands for the other fields.
#[derive(Debug, Clone)]
pub struct Header {
    /// Block number.
    pub number: u64,
    /// Gas used by the block.
    pub gas_used: u64,
    /// State root after the block.
    pub state_root: B256,
    /// Root of the block's receipts.
    pub receipts_root: B256,
    /// RLP encoding of the whole header.
    pub rlp: Bytes,
}

/// The value of a [`Header`].
pub struct HeaderView {
    /// Block number.
    pub number: u64,
    /// Gas used by the block.
    pub gas_used: u64,
    /// State root after the block.
    pub state_root: B256,
    /// Root of the block's receipts.
    pub receipts_root: B256,
    /// RLP encoding of the whole header.
    pub rlp: Seq<u8>,
}

impl View for Header {
    type V = HeaderView;

    open spec fn view(&self) -> HeaderView {
        HeaderView {
            number: self.number,
            gas_used: self.gas_used,
            state_root: self.state_root,
            receipts_root: self.receipts_root,
            rlp: self.rlp@,
        }
    }
}

/// A header together with its hash.
#[derive(Debug, Clone)]
pub struct SealedHeader {
    /// The header.
    pub header: Header,
    /// Hash of the header.
    pub hash: B256,
}

impl SealedHeader {
    /// The hash and the fields all come from one encoding: the hash is the
    /// encoding's Keccak-256 hash, and decoding it gives the fields.
    pub open spec fn is_genuine(self) -> bool {
        &&& self.hash == keccak256_digest(self.header.rlp@)
        &&& decoded_header(self.header.rlp@) == Ok::<HeaderView, Seq<char>>(self.header@)
    }
}

/// What decoding `rlp` as a block header gives, on a machine with `word_bits`
/// bits in a `usize`: the header, or the text of the decoding error.
///
/// The width matters for errors only: a length field of five bytes or more is
/// reported as too big on a 32-bit machine and as exceeding the input on a
/// 64-bit one.
pub uninterp spec fn header_decoding(rlp: Seq<u8>, word_bits: nat) -> Result<
    HeaderView,
    Seq<char>,
>;

/// What decoding `rlp` as a block header gives on this machine.
pub open spec fn decoded_header(rlp: Seq<u8>) -> Result<HeaderView, Seq<char>> {
    header_decoding(rlp, usize::BITS as nat)
}

/// The value that a decoding result stands for.
pub open spec fn decoding_view(decoded: Result<Header, String>) -> Result<HeaderView, Seq<char>> {
    match decoded {
        Ok(header) => Ok(header@),
        Err(text) => Err(text@),
    }
}

/// Decodes the header at the start of `rlp`; bytes behind it are ignored.
///
/// Trusted: `alloy_consensus::Header::decode`, and `alloy_rlp::encode` of the
/// decoded header, depend on the bytes and the width of `usize` alone, and
/// decoding what `encode` wrote gives the same header again. Nothing is claimed
/// of which bytes decode.
#[verifier::external_body]
pub(crate) fn decode_header(rlp: &[u8]) -> (decoded: Result<Header, String>)
    ensures
        decoding_view(decoded) == header_decoding(rlp@, usize::BITS as nat),
        match decoded {
            Ok(header) => header_decoding(header.rlp@, usize::BITS as nat) == decoding_view(
                decoded,
            ),
            Err(_) => true,
        },
        match decoded {
            Ok(header) => header_decoding(rlp@, usize::BITS as nat) matches Ok(value) && {
                &&& header.number == value.number
                &&& header.gas_used == value.gas_used
                &&& header.state_root == value.state_root
                &&& header.receipts_root == value.receipts_root
                &&& header.rlp@ == value.rlp
            },
            Err(text) => header_decoding(rlp@, usize::BITS as nat) == Err::<HeaderView, Seq<char>>(
                text@,
            ),
        },
{
    let mut buf = rlp;
    match AlloyHeader::decode(&mut buf) {
        Ok(header) => Ok(
            Header {
                number: header.number,
                gas_used: header.gas_used,
                state_root: header.state_root.0,
                receipts_root: header.receipts_root.0,
                rlp: alloy_rlp::encode(&header),
            },
        ),
        Err(err) => Err(err.to_string()),
    }
}

impl Header {
    /// Computes the header's hash, the Keccak-256 hash of its RLP encoding,
    /// and keeps it beside the header.
    pub fn seal_slow(self) -> (sealed: SealedHeader)
        ensures
            sealed.header == self,
            sealed.hash == keccak256_digest(self.rlp@),
    {
        let hash = keccak256(self.rlp.as_slice());
        SealedHeader { header: self, hash }
    }
}

/// A block header, field by field. The optional fields came with later forks.
#[derive(Debug, Clone)]
pub struct BlockHeader {
    /// Hash of the parent block.
    pub parent_hash: B256,
    /// Hash of the list of ommers.
    pub ommers_hash: B256,
    /// Address that collects the block's fees.
    pub beneficiary: [u8; 20],
    /// State root after the block.
    pub state_root: B256,
    /// Root of the block's transactions.
    pub transactions_root: B256,
    /// Root of the block's receipts.
    pub receipts_root: B256,
    /// Bloom filter over the block's logs.
    pub logs_bloom: [u8; 256],
    /// Difficulty, as a big-endian number.
    pub difficulty: [u8; 32],
    /// Block number.
    pub number: u64,
    /// Gas limit of the block.
    pub gas_limit: u64,
    /// Gas used by the block.
    pub gas_used: u64,
    /// Time of the block.
    pub timestamp: u64,
    /// Arbitrary data.
    pub extra_data: Bytes,
    /// Mix hash.
    pub mix_hash: B256,
    /// Nonce.
    pub nonce: [u8; 8],
    /// Base fee per gas.
    pub base_fee_per_gas: Option<u64>,
    /// Root of the block's withdrawals.
    pub withdrawals_root: Option<B256>,
    /// Blob gas used by the block.
    pub blob_gas_used: Option<u64>,
    /// Blob gas in excess of the target.
    pub excess_blob_gas: Option<u64>,
    /// Root of the parent beacon block.
    pub parent_beacon_block_root: Option<B256>,
    /// Hash of the block's requests.
    pub requests_hash: Option<B256>,
    /// Hash of the block's access list.
    pub block_access_list_hash: Option<B256>,
    /// Slot number of the block.
    pub slot_number: Option<u64>,
}

/// The value of a [`BlockHeader`].
pub struct BlockHeaderView {
    /// Hash of the parent block.
    pub parent_hash: B256,
    /// Hash of the list of ommers.
    pub ommers_hash: B256,
    /// Address that collects the block's fees.
    pub beneficiary: [u8; 20],
    /// State root after the block.
    pub state_root: B256,
    /// Root of the block's transactions.
    pub transactions_root: B256,
    /// Root of the block's receipts.
    pub receipts_root: B256,
    /// Bloom filter over the block's logs.
    pub logs_bloom: [u8; 256],
    /// Difficulty, as a big-endian number.
    pub difficulty: [u8; 32],
    /// Block number.
    pub number: u64,
    /// Gas limit of the block.
    pub gas_limit: u64,
    /// Gas used by the block.
    pub gas_used: u64,
    /// Time of the block.
    pub timestamp: u64,
    /// Arbitrary data.
    pub extra_data: Seq<u8>,
    /// Mix hash.
    pub mix_hash: B256,
    /// Nonce.
    pub nonce: [u8; 8],
    /// Base fee per gas.
    pub base_fee_per_gas: Option<u64>,
    /// Root of the block's withdrawals.
    pub withdrawals_root: Option<B256>,
    /// Blob gas used by the block.
    pub blob_gas_used: Option<u64>,
    /// Blob gas in excess of the target.
    pub excess_blob_gas: Option<u64>,
    /// Root of the parent beacon block.
    pub parent_beacon_block_root: Option<B256>,
    /// Hash of the block's requests.
    pub requests_hash: Option<B256>,
    /// Hash of the block's access list.
    pub block_access_list_hash: Option<B256>,
    /// Slot number of the block.
    pub slot_number: Option<u64>,
}

impl View for BlockHeader {
    type V = BlockHeaderView;

    open spec fn view(&self) -> BlockHeaderView {
        BlockHeaderView {
            parent_hash: self.parent_hash,
            ommers_hash: self.ommers_hash,
            beneficiary: self.beneficiary,
            state_root: self.state_root,
            transactions_root: self.transactions_root,
            receipts_root: self.receipts_root,
            logs_bloom: self.logs_bloom,
            difficulty: self.difficulty,
            number: self.number,
            gas_limit: self.gas_limit,
            gas_used: self.gas_used,
            timestamp: self.timestamp,
            extra_data: self.extra_data@,
            mix_hash: self.mix_hash,
            nonce: self.nonce,
            base_fee_per_gas: self.base_fee_per_gas,
            withdrawals_root: self.withdrawals_root,
            blob_gas_used: self.blob_gas_used,
            excess_blob_gas: self.excess_blob_gas,
            parent_beacon_block_root: self.parent_beacon_block_root,
            requests_hash: self.requests_hash,
            block_access_list_hash: self.block_access_list_hash,
            slot_number: self.slot_number,
        }
    }
}

/// The RLP encoding of `header`.
pub uninterp spec fn header_encoding(header: BlockHeaderView) -> Seq<u8>;

/// The hash of a block with this header.
pub open spec fn block_hash(header: BlockHeaderView) -> B256 {
    keccak256_digest(header_encoding(header))
}

/// The two headers agree in every field that all headers have.
pub open spec fn same_required_fields(a: BlockHeaderView, b: BlockHeaderView) -> bool {
    &&& a.parent_hash == b.parent_hash
    &&& a.ommers_hash == b.ommers_hash
    &&& a.beneficiary == b.beneficiary
    &&& a.state_root == b.state_root
    &&& a.transactions_root == b.transactions_root
    &&& a.receipts_root == b.receipts_root
    &&& a.logs_bloom == b.logs_bloom
    &&& a.difficulty == b.difficulty
    &&& a.number == b.number
    &&& a.gas_limit == b.gas_limit
    &&& a.gas_used == b.gas_used
    &&& a.timestamp == b.timestamp
    &&& a.extra_data == b.extra_data
    &&& a.mix_hash == b.mix_hash
    &&& a.nonce == b.nonce
}

/// No optional field is left out before one that is there.
pub open spec fn has_no_gap(header: BlockHeaderView) -> bool {
    &&& header.withdrawals_root is Some ==> header.base_fee_per_gas is Some
    &&& header.blob_gas_used is Some ==> header.withdrawals_root is Some
    &&& header.excess_blob_gas is Some ==> header.blob_gas_used is Some
    &&& header.parent_beacon_block_root is Some ==> header.excess_blob_gas is Some
    &&& header.requests_hash is Some ==> header.parent_beacon_block_root is Some
    &&& header.block_access_list_hash is Some ==> header.requests_hash is Some
    &&& header.slot_number is Some ==> header.block_access_list_hash is Some
}

/// The encoding tells the header apart: another header with the same encoding
/// agrees in every required field, and, where neither has a gap among its
/// optional fields, in everything.
pub open spec fn encoding_identifies(header: BlockHeaderView) -> bool {
    forall|other: BlockHeaderView| #[trigger]
        header_encoding(other) == header_encoding(header) ==> {
            &&& same_required_fields(other, header)
            &&& has_no_gap(other) && has_no_gap(header) ==> other == header
        }
}

/// Encodes a header.
///
/// Trusted: `alloy_rlp::encode` of an `alloy_consensus::Header` depends on the
/// header's fields alone. It writes one list that holds the required fields in a
/// fixed order and then the optional fields that are there, each with its own
/// length, so that the required fields can be told from the encoding, and all
/// fields where the optional ones have no gap.
#[verifier::external_body]
fn encode_header(header: BlockHeader) -> (rlp: Bytes)
    ensures
        rlp@ == header_encoding(header@),
        forall|other: BlockHeaderView| #[trigger]
            header_encoding(other) == rlp@ ==> {
                &&& same_required_fields(other, header@)
                &&& has_no_gap(other) && has_no_gap(header@) ==> other == header@
            },
{
    let BlockHeader { parent_hash, ommers_hash, beneficiary, state_root, transactions_root,
        receipts_root, logs_bloom, difficulty, number, gas_limit, gas_used, timestamp, extra_data,
        mix_hash, nonce, base_fee_per_gas, withdrawals_root, blob_gas_used, excess_blob_gas,
        parent_beacon_block_root, requests_hash, block_access_list_hash, slot_number } = header;
    alloy_rlp::encode(AlloyHeader { parent_hash: FixedBytes(parent_hash),
        ommers_hash: FixedBytes(ommers_hash), beneficiary: beneficiary.into(),
        state_root: FixedBytes(state_root), transactions_root: FixedBytes(transactions_root),
        receipts_root: FixedBytes(receipts_root), logs_bloom: logs_bloom.into(),
        difficulty: U256::from_be_bytes(difficulty), number, gas_limit, gas_used, timestamp,
        extra_data: extra_data.into(), mix_hash: FixedBytes(mix_hash), nonce: FixedBytes(nonce),
        base_fee_per_gas, withdrawals_root: withdrawals_root.map(FixedBytes), blob_gas_used,
        excess_blob_gas, parent_beacon_block_root: parent_beacon_block_root.map(FixedBytes),
        requests_hash: requests_hash.map(FixedBytes),
        block_access_list_hash: block_access_list_hash.map(FixedBytes), slot_number })
}

impl BlockHeader {
    /// Computes the block's hash, the Keccak-256 hash of the header's RLP
    /// encoding.
    pub fn hash_slow(self) -> (hash: B256)
        ensures
            hash == block_hash(self@),
            hash == keccak256_digest(header_encoding(self@)),
            encoding_identifies(self@),
    {
        let rlp = encode_header(self);
        keccak256(rlp.as_slice())
    }
}

/// The value of a header holds every one of its fields, whole and in its place.
pub proof fn law_value_holds_every_field(header: BlockHeader)
    ensures
        header@.parent_hash == header.parent_hash,
        header@.ommers_hash == header.ommers_hash,
        header@.beneficiary == header.beneficiary,
        header@.state_root == header.state_root,
        header@.transactions_root == header.transactions_root,
        header@.receipts_root == header.receipts_root,
        header@.logs_bloom == header.logs_bloom,
        header@.difficulty == header.difficulty,
        header@.number == header.number,
        header@.gas_limit == header.gas_limit,
        header@.gas_used == header.gas_used,
        header@.timestamp == header.timestamp,
        header@.extra_data == header.extra_data@,
        header@.mix_hash == header.mix_hash,
        header@.nonce == header.nonce,
        header@.base_fee_per_gas == header.base_fee_per_gas,
        header@.withdrawals_root == header.withdrawals_root,
        header@.blob_gas_used == header.blob_gas_used,
        header@.excess_blob_gas == header.excess_blob_gas,
        header@.parent_beacon_block_root == header.parent_beacon_block_root,
        header@.requests_hash == header.requests_hash,
        header@.block_access_list_hash == header.block_access_list_hash,
        header@.slot_number == header.slot_number,
{
}

/// The value of a decoded header holds every one of its fields.
pub proof fn law_decoded_value_holds_every_field(header: Header)
    ensures
        header@.number == header.number,
        header@.gas_used == header.gas_used,
        header@.state_root == header.state_root,
        header@.receipts_root == header.receipts_root,
        header@.rlp == header.rlp@,
{
}

/// One hash, one header: two headers with the same block hash, whose encodings
/// do not collide under Keccak-256, have the same encoding. They agree in every
/// required field, extra data of any length among them, and, where neither
/// leaves an optional field out before one that is there, in every optional one.
pub proof fn law_one_hash_one_header(a: BlockHeaderView, b: BlockHeaderView)
    requires
        encoding_identifies(a),
        block_hash(a) == block_hash(b),
        keccak256_digest(header_encoding(a)) == keccak256_digest(header_encoding(b))
            ==> header_encoding(a) == header_encoding(b),
    ensures
        header_encoding(a) == header_encoding(b),
        a.parent_hash == b.parent_hash,
        a.ommers_hash == b.ommers_hash,
        a.beneficiary == b.beneficiary,
        a.state_root == b.state_root,
        a.transactions_root == b.transactions_root,
        a.receipts_root == b.receipts_root,
        a.logs_bloom == b.logs_bloom,
        a.difficulty == b.difficulty,
        a.number == b.number,
        a.gas_limit == b.gas_limit,
        a.gas_used == b.gas_used,
        a.timestamp == b.timestamp,
        a.extra_data == b.extra_data,
        a.mix_hash == b.mix_hash,
        a.nonce == b.nonce,
        has_no_gap(a) && has_no_gap(b) ==> a == b,
{
}

/// A header whose optional fields are all there, or all left out, or there up to
/// some fork and left out from then on, has no gap.
pub proof fn law_fork_order_leaves_no_gap(header: BlockHeaderView, forks: nat)
    requires
        header.base_fee_per_gas is Some <==> forks > 0,
        header.withdrawals_root is Some <==> forks > 1,
        header.blob_gas_used is Some <==> forks > 2,
        header.excess_blob_gas is Some <==> forks > 3,
        header.parent_beacon_block_root is Some <==> forks > 4,
        header.requests_hash is Some <==> forks > 5,
        header.block_access_list_hash is Some <==> forks > 6,
        header.slot_number is Some <==> forks > 7,
    ensures
        has_no_gap(header),
{
}

} // verus!
