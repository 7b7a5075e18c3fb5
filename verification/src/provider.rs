//! In-memory preimage store backing the stateless executor.

use std::collections::HashMap;

use vstd::prelude::*;
use vstd::string::StringExecFns;

use crate::hash::{keccak256, keccak256_digest, same_hash};
use crate::header::{decode_header, decoded_header, header_decoding, Header, HeaderView};
use crate::text::{hash_chars, hash_text, law_hash_text_spells_every_byte};
use crate::types::{Bytes, ExecutionWitness, B256};

verus! {

broadcast use vstd::std_specs::hash::group_hash_axioms;

/// A blob filed under its hash.
#[derive(Debug)]
struct Preimage {
    hash: B256,
    bytes: Bytes,
}

/// In-memory preimage store backing the stateless executor, built from an
/// [`ExecutionWitness`]. Every witness blob (trie nodes, bytecode, RLP headers)
/// is keyed by its keccak256 hash.
///
/// Entries are spread over buckets by the first eight bytes of their hash.
#[derive(Debug)]
pub struct WitnessProvider {
    buckets: HashMap<u64, Vec<Preimage>>,
}

/// The bucket of a hash.
spec fn bucket_of(hash: B256) -> u64 {
    vstd::bytes::spec_u64_from_le_bytes(hash@.subrange(0, 8))
}

/// Whether `entries` holds a blob filed under `hash`, at `i`.
spec fn filed_at(entries: Seq<Preimage>, hash: B256, i: int) -> bool {
    0 <= i < entries.len() && entries[i].hash == hash
}

/// The entries of the bucket of `hash`.
spec fn entries_for(buckets: Map<u64, Vec<Preimage>>, hash: B256) -> Seq<Preimage> {
    if buckets.contains_key(bucket_of(hash)) {
        buckets[bucket_of(hash)]@
    } else {
        Seq::empty()
    }
}

/// The blob filed under each hash.
spec fn contents(buckets: Map<u64, Vec<Preimage>>) -> Map<B256, Seq<u8>> {
    Map::new(
        |hash: B256| exists|i: int| filed_at(entries_for(buckets, hash), hash, i),
        |hash: B256|
            {
                let entries = entries_for(buckets, hash);
                entries[choose|i: int| filed_at(entries, hash, i)].bytes@
            },
    )
}

/// Every entry stands in its own bucket, under the hash of its blob, and no
/// hash occurs twice.
spec fn well_filed(buckets: Map<u64, Vec<Preimage>>) -> bool {
    &&& forall|key: u64, i: int|
        #![trigger buckets[key]@[i]]
        buckets.contains_key(key) && 0 <= i < buckets[key]@.len() ==> {
            &&& bucket_of(buckets[key]@[i].hash) == key
            &&& buckets[key]@[i].hash == keccak256_digest(buckets[key]@[i].bytes@)
        }
    &&& forall|key: u64, i: int, j: int|
        #![trigger buckets[key]@[i], buckets[key]@[j]]
        buckets.contains_key(key) && 0 <= i < j < buckets[key]@.len() ==> buckets[key]@[i].hash
            != buckets[key]@[j].hash
}

/// The map that files each blob under its keccak256 hash. Of several blobs with
/// one hash, the last stays.
pub open spec fn preimage_map(blobs: Seq<Seq<u8>>) -> Map<B256, Seq<u8>>
    decreases blobs.len(),
{
    if blobs.len() == 0 {
        Map::empty()
    } else {
        preimage_map(blobs.drop_last()).insert(keccak256_digest(blobs.last()), blobs.last())
    }
}

/// The contents of a list of byte strings.
pub open spec fn blob_views(blobs: Seq<Bytes>) -> Seq<Seq<u8>> {
    blobs.map_values(|blob: Bytes| blob@)
}

/// The blobs that a witness offers for lookup, in the order in which they are
/// filed: trie nodes, bytecode, headers.
pub open spec fn witness_blobs(witness: ExecutionWitness) -> Seq<Seq<u8>> {
    blob_views(witness.state@) + blob_views(witness.codes@) + blob_views(witness.headers@)
}

/// The error text for a hash without a preimage.
pub open spec fn missing_preimage_chars(hash: B256) -> Seq<char> {
    "missing witness preimage for "@ + hash_chars(hash)
}

/// The error text for a preimage that does not decode: what was wanted, its
/// hash, and the decoder's own words.
pub open spec fn invalid_preimage_chars(wanted: Seq<char>, hash: B256, reason: Seq<char>) -> Seq<
    char,
> {
    "invalid "@ + wanted + " "@ + hash_chars(hash) + ": "@ + reason
}

/// The index of the entry for `hash`, if there is one.
fn position(entries: &Vec<Preimage>, hash: &B256) -> (found: Option<usize>)
    ensures
        match found {
            Some(i) => filed_at(entries@, *hash, i as int),
            None => forall|i: int| !filed_at(entries@, *hash, i),
        },
{
    let mut i: usize = 0;
    while i < entries.len()
        invariant
            i <= entries.len(),
            forall|j: int| 0 <= j < i ==> !filed_at(entries@, *hash, j),
        decreases entries.len() - i,
    {
        if same_hash(&entries[i].hash, hash) {
            return Some(i);
        }
        i = i + 1;
    }
    None
}

/// The bucket of a hash.
fn bucket(hash: &B256) -> (key: u64)
    ensures
        key == bucket_of(*hash),
{
    vstd::bytes::u64_from_le_bytes(vstd::slice::slice_subrange(hash, 0, 8))
}

/// In a well-filed store, `contents` gives the blob of the entry that stands
/// under the hash, whichever way that entry was found.
proof fn lemma_contents_at(buckets: Map<u64, Vec<Preimage>>, hash: B256, i: int)
    requires
        well_filed(buckets),
        filed_at(entries_for(buckets, hash), hash, i),
    ensures
        contents(buckets).contains_key(hash),
        contents(buckets)[hash] == entries_for(buckets, hash)[i].bytes@,
{
    let entries = entries_for(buckets, hash);
    let k = choose|k: int| filed_at(entries, hash, k);
    assert(filed_at(entries, hash, k));
    let key = bucket_of(hash);
    assert(entries == buckets[key]@);
    if i < k {
        assert(buckets[key]@[i].hash != buckets[key]@[k].hash);
    } else if k < i {
        assert(buckets[key]@[k].hash != buckets[key]@[i].hash);
    }
}

/// Replacing one bucket by one that differs only at `hash` changes the contents
/// only at `hash`.
proof fn lemma_contents_elsewhere(
    before: Map<u64, Vec<Preimage>>,
    after: Map<u64, Vec<Preimage>>,
    hash: B256,
    other: B256,
)
    requires
        well_filed(before),
        well_filed(after),
        other != hash,
        forall|i: int|
            filed_at(entries_for(before, other), other, i) ==> filed_at(
                entries_for(after, other),
                other,
                i,
            ) && entries_for(after, other)[i] == entries_for(before, other)[i],
        forall|i: int|
            filed_at(entries_for(after, other), other, i) ==> filed_at(
                entries_for(before, other),
                other,
                i,
            ),
    ensures
        contents(before).contains_key(other) == contents(after).contains_key(other),
        contents(before).contains_key(other) ==> contents(before)[other] == contents(after)[other],
{
    if contents(before).contains_key(other) {
        let i = choose|i: int| filed_at(entries_for(before, other), other, i);
        lemma_contents_at(before, other, i);
        lemma_contents_at(after, other, i);
    }
    if contents(after).contains_key(other) {
        let i = choose|i: int| filed_at(entries_for(after, other), other, i);
        lemma_contents_at(before, other, i);
    }
}

/// Files a blob under its hash; a blob already filed there is replaced.
fn file(buckets: &mut HashMap<u64, Vec<Preimage>>, bytes: Bytes)
    requires
        well_filed(old(buckets)@),
    ensures
        well_filed(final(buckets)@),
        contents(final(buckets)@) == contents(old(buckets)@).insert(
            keccak256_digest(bytes@),
            bytes@,
        ),
{
    let hash = keccak256(bytes.as_slice());
    let key = bucket(&hash);
    let ghost before = buckets@;
    let mut entries = match buckets.remove(&key) {
        Some(entries) => entries,
        None => Vec::new(),
    };
    let ghost kept = entries@;
    assert(kept == entries_for(before, hash));
    let ghost blob = bytes@;
    let at: usize = match position(&entries, &hash) {
        Some(i) => {
            entries.set(i, Preimage { hash, bytes });
            i
        },
        None => {
            entries.push(Preimage { hash, bytes });
            entries.len() - 1
        },
    };
    buckets.insert(key, entries);
    proof {
        let after = buckets@;
        assert(after == before.insert(key, entries));
        assert(after[key]@ == entries@);
        assert forall|k: u64, i: int|
            #![trigger after[k]@[i]]
            after.contains_key(k) && 0 <= i < after[k]@.len() implies {
            &&& bucket_of(after[k]@[i].hash) == k
            &&& after[k]@[i].hash == keccak256_digest(after[k]@[i].bytes@)
        } by {
            if k != key {
                assert(after[k] == before[k]);
                assert(before[k]@[i] == after[k]@[i]);
            } else if i != at {
                assert(before[key]@[i] == after[key]@[i]);
            }
        }
        assert forall|k: u64, i: int, j: int|
            #![trigger after[k]@[i], after[k]@[j]]
            after.contains_key(k) && 0 <= i < j < after[k]@.len() implies after[k]@[i].hash
            != after[k]@[j].hash by {
            if k != key {
                assert(after[k] == before[k]);
                assert(before[k]@[i].hash != before[k]@[j].hash);
            } else {
                if i != at && j != at {
                    assert(before[key]@[i].hash != before[key]@[j].hash);
                } else if kept.len() == entries@.len() {
                    assert(before[key]@[i].hash != before[key]@[j].hash);
                } else {
                    assert(!filed_at(kept, hash, i));
                }
            }
        }
        assert(well_filed(after));
        assert(filed_at(entries_for(after, hash), hash, at as int));
        lemma_contents_at(after, hash, at as int);
        assert forall|other: B256| other != hash implies {
            &&& contents(before).contains_key(other) == #[trigger] contents(after).contains_key(
                other,
            )
            &&& contents(before).contains_key(other) ==> contents(before)[other] == contents(
                after,
            )[other]
        } by {
            if bucket_of(other) != key {
                assert(entries_for(before, other) == entries_for(after, other));
            } else {
                assert(entries_for(before, other) == kept);
                assert(entries_for(after, other) == entries@);
            }
            lemma_contents_elsewhere(before, after, hash, other);
        }
        assert(contents(after) =~= contents(before).insert(hash, blob));
    }
}

/// Files every blob of a list, in order, in a store that holds `done`.
fn file_all(
    buckets: &mut HashMap<u64, Vec<Preimage>>,
    blobs: &Vec<Bytes>,
    done: Ghost<Seq<Seq<u8>>>,
)
    requires
        well_filed(old(buckets)@),
        contents(old(buckets)@) == preimage_map(done@),
    ensures
        well_filed(final(buckets)@),
        contents(final(buckets)@) == preimage_map(done@ + blob_views(blobs@)),
{
    let ghost views = blob_views(blobs@);
    let mut i: usize = 0;
    assert(done@ + views.take(0) =~= done@);
    while i < blobs.len()
        invariant
            i <= blobs.len(),
            views == blob_views(blobs@),
            well_filed(buckets@),
            contents(buckets@) == preimage_map(done@ + views.take(i as int)),
        decreases blobs.len() - i,
    {
        let blob = blobs[i].clone();
        file(buckets, blob);
        proof {
            assert(blob@ =~= views[i as int]);
            let filed = done@ + views.take(i + 1);
            assert(filed.drop_last() =~= done@ + views.take(i as int));
            assert(filed.last() == views[i as int]);
        }
        i = i + 1;
    }
    assert(views.take(blobs.len() as int) =~= views);
}

impl View for WitnessProvider {
    type V = Map<B256, Seq<u8>>;

    /// The blob found under each hash.
    closed spec fn view(&self) -> Map<B256, Seq<u8>> {
        contents(self.buckets@)
    }
}

impl WitnessProvider {
    #[verifier::type_invariant]
    spec fn well_formed(self) -> bool {
        well_filed(self.buckets@)
    }

    /// Builds the keccak256-keyed preimage map from the witness's `state`,
    /// `codes`, and `headers` blobs.
    #[must_use]
    pub fn new(witness: &ExecutionWitness) -> (provider: Self)
        ensures
            provider@ == preimage_map(witness_blobs(*witness)),
    {
        let mut buckets: HashMap<u64, Vec<Preimage>> = HashMap::new();
        assert(contents(buckets@) =~= preimage_map(Seq::empty()));
        file_all(&mut buckets, &witness.state, Ghost(Seq::empty()));
        let ghost state = blob_views(witness.state@);
        assert(Seq::empty() + state =~= state);
        file_all(&mut buckets, &witness.codes, Ghost(state));
        file_all(
            &mut buckets,
            &witness.headers,
            Ghost(state + blob_views(witness.codes@)),
        );
        WitnessProvider { buckets }
    }

    /// The blob that hashes to `hash`.
    pub fn preimage(&self, hash: B256) -> (found: Result<&Bytes, String>)
        ensures
            match found {
                Ok(bytes) => {
                    &&& self@.contains_key(hash)
                    &&& self@[hash] == bytes@
                    &&& keccak256_digest(bytes@) == hash
                },
                Err(text) => !self@.contains_key(hash) && text@ == missing_preimage_chars(hash),
            },
            found matches Err(text) ==> text@ == "missing witness preimage for "@ + hash_chars(hash),
    {
        proof {
            use_type_invariant(self);
        }
        let key = bucket(&hash);
        if let Some(entries) = self.buckets.get(&key) {
            if let Some(i) = position(entries, &hash) {
                proof {
                    lemma_contents_at(self.buckets@, hash, i as int);
                }
                return Ok(&entries[i].bytes);
            }
        }
        Err("missing witness preimage for ".to_owned().concat(hash_text(&hash).as_str()))
    }

    /// The trie node that hashes to `key`, decoded by `decode`.
    ///
    /// `decode` turns the node's preimage into a node, or into the text of a
    /// decoding error. It has to accept that preimage and nothing else, and is
    /// not called when there is none.
    pub fn trie_node_by_hash<'a, T, D>(&'a self, key: B256, decode: D) -> (node: Result<T, String>)
        where D: FnOnce(&'a [u8]) -> Result<T, String>
        requires
            forall|raw: &'a [u8]|
                self@.contains_key(key) && #[trigger] raw@ == self@[key] ==> call_requires(
                    decode,
                    (raw,),
                ),
        ensures
            if self@.contains_key(key) {
                exists|raw: &'a [u8], decoded: Result<T, String>|
                    {
                        &&& raw@ == self@[key]
                        &&& #[trigger] call_ensures(decode, (raw,), decoded)
                        &&& labelled_result(decoded, "trie node"@, key, node)
                    }
            } else {
                node matches Err(text) && text@ == missing_preimage_chars(key)
            },
            self@.contains_key(key) ==> exists|raw: &'a [u8], decoded: Result<T, String>|
                {
                    &&& raw@ == self@[key]
                    &&& #[trigger] call_ensures(decode, (raw,), decoded)
                    &&& match decoded {
                        Ok(value) => node == Ok::<T, String>(value),
                        Err(reason) => node matches Err(text) && text@ == "invalid "@
                            + "trie node"@ + " "@ + hash_chars(key) + ": "@ + reason@,
                    }
                },
            !self@.contains_key(key) ==> (node matches Err(text) && text@
                == "missing witness preimage for "@ + hash_chars(key)),
    {
        match self.preimage(key) {
            Ok(raw) => {
                let raw = raw.as_slice();
                let decoded = decode(raw);
                assert(call_ensures(decode, (raw,), decoded));
                label_invalid(decoded, "trie node", key)
            },
            Err(text) => Err(text),
        }
    }

    /// The contract bytecode that hashes to `code_hash`.
    pub fn bytecode_by_hash(&self, code_hash: B256) -> (code: Result<Bytes, String>)
        ensures
            match code {
                Ok(bytes) => {
                    &&& self@.contains_key(code_hash)
                    &&& self@[code_hash] == bytes@
                    &&& keccak256_digest(bytes@) == code_hash
                },
                Err(text) => !self@.contains_key(code_hash) && text@ == missing_preimage_chars(
                    code_hash,
                ),
            },
            code matches Err(text) ==> text@ == "missing witness preimage for "@ + hash_chars(
                code_hash,
            ),
    {
        match self.preimage(code_hash) {
            Ok(bytes) => {
                let copy = bytes.clone();
                assert(copy@ =~= bytes@);
                Ok(copy)
            },
            Err(text) => Err(text),
        }
    }

    /// The header whose encoding hashes to `hash`.
    pub fn header_by_hash(&self, hash: B256) -> (header: Result<Header, String>)
        ensures
            if self@.contains_key(hash) {
                match decoded_header(self@[hash]) {
                    Ok(value) => header matches Ok(found) && found@ == value,
                    Err(reason) => header matches Err(text) && text@ == invalid_preimage_chars(
                        "header"@,
                        hash,
                        reason,
                    ),
                }
            } else {
                header matches Err(text) && text@ == missing_preimage_chars(hash)
            },
            self@.contains_key(hash) ==> match header_decoding(self@[hash], usize::BITS as nat) {
                Ok(value) => header matches Ok(found) && {
                    &&& found.number == value.number
                    &&& found.gas_used == value.gas_used
                    &&& found.state_root == value.state_root
                    &&& found.receipts_root == value.receipts_root
                    &&& found.rlp@ == value.rlp
                },
                Err(reason) => header matches Err(text) && text@ == "invalid "@ + "header"@ + " "@
                    + hash_chars(hash) + ": "@ + reason,
            },
            !self@.contains_key(hash) ==> (header matches Err(text) && text@
                == "missing witness preimage for "@ + hash_chars(hash)),
    {
        match self.preimage(hash) {
            Ok(raw) => label_invalid(decode_header(raw.as_slice()), "header", hash),
            Err(text) => Err(text),
        }
    }
}

/// `labelled` is `decoded`, with the error text extended by what was wanted
/// and its hash.
pub open spec fn labelled_result<T>(
    decoded: Result<T, String>,
    wanted: Seq<char>,
    hash: B256,
    labelled: Result<T, String>,
) -> bool {
    match decoded {
        Ok(value) => labelled == Ok::<T, String>(value),
        Err(reason) => labelled matches Err(text) && text@ == invalid_preimage_chars(
            wanted,
            hash,
            reason@,
        ),
    }
}

/// Passes a decoded preimage on, and says in the error of one that did not
/// decode what was wanted and under which hash.
pub fn label_invalid<T>(decoded: Result<T, String>, wanted: &str, hash: B256) -> (labelled: Result<
    T,
    String,
>)
    ensures
        labelled_result(decoded, wanted@, hash, labelled),
        match decoded {
            Ok(value) => labelled == Ok::<T, String>(value),
            Err(reason) => labelled matches Err(text) && text@ == "invalid "@ + wanted@ + " "@
                + hash_chars(hash) + ": "@ + reason@,
        },
{
    match decoded {
        Ok(value) => Ok(value),
        Err(reason) => {
            let mut text = "invalid ".to_owned();
            text.append(wanted);
            text.append(" ");
            text.append(hash_text(&hash).as_str());
            text.append(": ");
            text.append(reason.as_str());
            Err(text)
        },
    }
}

/// Whatever is found under a hash is a blob of the witness and hashes to it.
pub proof fn law_found_blob_has_the_hash(blobs: Seq<Seq<u8>>, hash: B256)
    requires
        preimage_map(blobs).contains_key(hash),
    ensures
        keccak256_digest(preimage_map(blobs)[hash]) == hash,
        blobs.contains(preimage_map(blobs)[hash]),
    decreases blobs.len(),
{
    if hash == keccak256_digest(blobs.last()) {
        assert(blobs[blobs.len() - 1] == blobs.last());
    } else {
        law_found_blob_has_the_hash(blobs.drop_last(), hash);
        let found = preimage_map(blobs)[hash];
        let i = choose|i: int| 0 <= i < blobs.len() - 1 && blobs.drop_last()[i] == found;
        assert(blobs[i] == found);
    }
}

/// Every blob's hash is found.
pub proof fn law_every_blob_is_filed(blobs: Seq<Seq<u8>>, blob: Seq<u8>)
    requires
        blobs.contains(blob),
    ensures
        preimage_map(blobs).contains_key(keccak256_digest(blob)),
    decreases blobs.len(),
{
    let i = choose|i: int| 0 <= i < blobs.len() && blobs[i] == blob;
    if i < blobs.len() - 1 {
        assert(blobs.drop_last()[i] == blob);
        law_every_blob_is_filed(blobs.drop_last(), blob);
    }
}

/// A blob that shares its hash with no other blob of the witness is found
/// under that hash.
pub proof fn law_blob_without_collision_is_found(blobs: Seq<Seq<u8>>, blob: Seq<u8>)
    requires
        blobs.contains(blob),
        forall|other: Seq<u8>|
            blobs.contains(other) && keccak256_digest(other) == keccak256_digest(blob) ==> other
                == blob,
    ensures
        preimage_map(blobs).contains_key(keccak256_digest(blob)),
        preimage_map(blobs)[keccak256_digest(blob)] == blob,
{
    law_every_blob_is_filed(blobs, blob);
    law_found_blob_has_the_hash(blobs, keccak256_digest(blob));
}

/// Without collisions, neither the order of the blobs nor repetitions among
/// them matter: two lists of the same blobs are filed alike.
pub proof fn law_order_does_not_matter(blobs: Seq<Seq<u8>>, others: Seq<Seq<u8>>)
    requires
        forall|blob: Seq<u8>| #[trigger] blobs.contains(blob) <==> others.contains(blob),
        forall|a: Seq<u8>, b: Seq<u8>|
            blobs.contains(a) && blobs.contains(b) && keccak256_digest(a) == keccak256_digest(b)
                ==> a == b,
    ensures
        preimage_map(blobs) == preimage_map(others),
{
    assert forall|hash: B256| #[trigger]
        preimage_map(blobs).contains_key(hash) <==> preimage_map(others).contains_key(hash) by {
        if preimage_map(blobs).contains_key(hash) {
            law_found_blob_has_the_hash(blobs, hash);
            law_every_blob_is_filed(others, preimage_map(blobs)[hash]);
        }
        if preimage_map(others).contains_key(hash) {
            law_found_blob_has_the_hash(others, hash);
            law_every_blob_is_filed(blobs, preimage_map(others)[hash]);
        }
    }
    assert forall|hash: B256| #[trigger]
        preimage_map(blobs).contains_key(hash) implies preimage_map(blobs)[hash] == preimage_map(
        others,
    )[hash] by {
        law_found_blob_has_the_hash(blobs, hash);
        law_found_blob_has_the_hash(others, hash);
    }
    assert(preimage_map(blobs) =~= preimage_map(others));
}

/// Each trie node, each bytecode and each header of a witness is found by its
/// hash.
pub proof fn law_witness_lists_are_filed(witness: ExecutionWitness, blob: Bytes)
    requires
        witness.state@.contains(blob) || witness.codes@.contains(blob) || witness.headers@.contains(
            blob,
        ),
    ensures
        witness_blobs(witness).contains(blob@),
        preimage_map(witness_blobs(witness)).contains_key(keccak256_digest(blob@)),
{
    let blobs = witness_blobs(witness);
    let state = witness.state@;
    let codes = witness.codes@;
    let headers = witness.headers@;
    if state.contains(blob) {
        let i = choose|i: int| 0 <= i < state.len() && state[i] == blob;
        assert(blobs[i] == blob@);
    } else if codes.contains(blob) {
        let i = choose|i: int| 0 <= i < codes.len() && codes[i] == blob;
        assert(blobs[state.len() + i] == blob@);
    } else {
        let i = choose|i: int| 0 <= i < headers.len() && headers[i] == blob;
        assert(blobs[state.len() + codes.len() + i] == blob@);
    }
    law_every_blob_is_filed(blobs, blob@);
}

/// The unhashed keys of a witness play no part in lookups.
pub proof fn law_keys_are_not_filed(witness: ExecutionWitness, keys: Vec<Bytes>)
    ensures
        witness_blobs((ExecutionWitness { keys, ..witness })) == witness_blobs(witness),
{
}

/// A header found under a hash has that hash, provided its preimage is the
/// header's own encoding with nothing behind it.
pub proof fn law_found_header_has_the_hash(
    blobs: Seq<Seq<u8>>,
    hash: B256,
    header: HeaderView,
)
    requires
        preimage_map(blobs).contains_key(hash),
        decoded_header(preimage_map(blobs)[hash]) == Ok::<HeaderView, Seq<char>>(header),
        preimage_map(blobs)[hash] == header.rlp,
    ensures
        keccak256_digest(header.rlp) == hash,
{
    law_found_blob_has_the_hash(blobs, hash);
}

/// The position of the last blob with this hash.
proof fn lemma_last_blob_stays(blobs: Seq<Seq<u8>>, hash: B256) -> (at: int)
    requires
        preimage_map(blobs).contains_key(hash),
    ensures
        0 <= at < blobs.len(),
        keccak256_digest(blobs[at]) == hash,
        preimage_map(blobs)[hash] == blobs[at],
        forall|j: int| at < j < blobs.len() ==> keccak256_digest(#[trigger] blobs[j]) != hash,
    decreases blobs.len(),
{
    if hash == keccak256_digest(blobs.last()) {
        blobs.len() - 1
    } else {
        let at = lemma_last_blob_stays(blobs.drop_last(), hash);
        assert forall|j: int| at < j < blobs.len() implies keccak256_digest(#[trigger] blobs[j])
            != hash by {
            if j < blobs.len() - 1 {
                assert(blobs.drop_last()[j] == blobs[j]);
            }
        }
        at
    }
}

/// The store of a witness answers for exactly the hashes of its trie nodes, its
/// bytecode and its headers. Of several blobs with one hash the last header is
/// found, or, where no header has it, the last bytecode, or, where that has it
/// neither, the last trie node.
pub proof fn law_store_answers_for_the_three_lists(witness: ExecutionWitness, hash: B256)
    ensures
        ({
            let store = preimage_map(witness_blobs(witness));
            let in_state = exists|i: int|
                0 <= i < witness.state@.len() && keccak256_digest(#[trigger] witness.state@[i]@)
                    == hash;
            let in_codes = exists|i: int|
                0 <= i < witness.codes@.len() && keccak256_digest(#[trigger] witness.codes@[i]@)
                    == hash;
            let in_headers = exists|i: int|
                0 <= i < witness.headers@.len() && keccak256_digest(#[trigger] witness.headers@[i]@)
                    == hash;
            &&& store.contains_key(hash) <==> in_state || in_codes || in_headers
            &&& store.contains_key(hash) ==> keccak256_digest(store[hash]) == hash
            &&& in_headers ==> exists|i: int|
                0 <= i < witness.headers@.len() && #[trigger] witness.headers@[i]@ == store[hash]
                    && forall|j: int|
                    i < j < witness.headers@.len() ==> keccak256_digest(
                        #[trigger] witness.headers@[j]@,
                    ) != hash
            &&& in_codes && !in_headers ==> exists|i: int|
                0 <= i < witness.codes@.len() && #[trigger] witness.codes@[i]@ == store[hash]
                    && forall|j: int|
                    i < j < witness.codes@.len() ==> keccak256_digest(
                        #[trigger] witness.codes@[j]@,
                    ) != hash
            &&& in_state && !in_codes && !in_headers ==> exists|i: int|
                0 <= i < witness.state@.len() && #[trigger] witness.state@[i]@ == store[hash]
                    && forall|j: int|
                    i < j < witness.state@.len() ==> keccak256_digest(
                        #[trigger] witness.state@[j]@,
                    ) != hash
        }),
{
    let blobs = witness_blobs(witness);
    let store = preimage_map(blobs);
    let s = witness.state@.len() as int;
    let c = witness.codes@.len() as int;
    let h = witness.headers@.len() as int;
    assert(blobs.len() == s + c + h);
    assert forall|i: int| 0 <= i < s implies blobs[i] == #[trigger] witness.state@[i]@
        && blobs.contains(blobs[i]) by {}
    assert forall|i: int| 0 <= i < c implies blobs[s + i] == #[trigger] witness.codes@[i]@
        && blobs.contains(blobs[s + i]) by {}
    assert forall|i: int| 0 <= i < h implies blobs[s + c + i] == #[trigger] witness.headers@[i]@
        && blobs.contains(blobs[s + c + i]) by {}
    assert forall|i: int|
        0 <= i < s && keccak256_digest(#[trigger] witness.state@[i]@) == hash implies
        store.contains_key(hash) by {
        law_every_blob_is_filed(blobs, blobs[i]);
    }
    assert forall|i: int|
        0 <= i < c && keccak256_digest(#[trigger] witness.codes@[i]@) == hash implies
        store.contains_key(hash) by {
        law_every_blob_is_filed(blobs, blobs[s + i]);
    }
    assert forall|i: int|
        0 <= i < h && keccak256_digest(#[trigger] witness.headers@[i]@) == hash implies
        store.contains_key(hash) by {
        law_every_blob_is_filed(blobs, blobs[s + c + i]);
    }
    if store.contains_key(hash) {
        let at = lemma_last_blob_stays(blobs, hash);
        assert forall|j: int| 0 <= j < s && at < j implies keccak256_digest(
            #[trigger] witness.state@[j]@,
        ) != hash by {
            assert(blobs[j] == witness.state@[j]@);
        }
        assert forall|j: int| 0 <= j < c && at < s + j implies keccak256_digest(
            #[trigger] witness.codes@[j]@,
        ) != hash by {
            assert(blobs[s + j] == witness.codes@[j]@);
        }
        assert forall|j: int| 0 <= j < h && at < s + c + j implies keccak256_digest(
            #[trigger] witness.headers@[j]@,
        ) != hash by {
            assert(blobs[s + c + j] == witness.headers@[j]@);
        }
        if at < s {
            assert(blobs[at] == witness.state@[at]@);
        } else if at < s + c {
            assert(blobs[at] == witness.codes@[at - s]@);
        } else {
            assert(blobs[at] == witness.headers@[at - s - c]@);
        }
    }
}

/// Lookup errors name the hash that was looked up, and a preimage that does not
/// decode also what was wanted and the decoder's own words.
pub proof fn law_lookup_errors_name_the_hash(wanted: Seq<char>, hash: B256, reason: Seq<char>)
    ensures
        missing_preimage_chars(hash).len() == 29 + 66,
        missing_preimage_chars(hash).take(29) == "missing witness preimage for "@,
        missing_preimage_chars(hash).skip(29) == hash_chars(hash),
        ({
            let text = invalid_preimage_chars(wanted, hash, reason);
            let w = wanted.len() as int;
            &&& text.len() == 8 + w + 1 + 66 + 2 + reason.len()
            &&& text.take(8) == "invalid "@
            &&& text.subrange(8, 8 + w) == wanted
            &&& text[8 + w] == ' '
            &&& text.subrange(9 + w, 75 + w) == hash_chars(hash)
            &&& text.subrange(75 + w, 77 + w) == ": "@
            &&& text.skip(77 + w) == reason
        }),
{
    reveal_strlit("missing witness preimage for ");
    reveal_strlit("invalid ");
    reveal_strlit(" ");
    reveal_strlit(": ");
    law_hash_text_spells_every_byte(hash);
}

} // verus!
