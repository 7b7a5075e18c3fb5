//! Fake QOS manifest envelope for local testing: a structurally valid
//! [`ManifestEnvelopeV2`] (real deployments get one from the QOS boot flow) so
//! verifiers can exercise the manifest decode and PCR17 commitment path
//! locally. All values (pivot hash, PCRs, set members) are placeholders.

use qos_core::protocol::services::boot::{
    ManifestBuilderError, ManifestEnvelopeV2, ManifestSet, ManifestV2, ManifestVersion, Namespace,
    NitroConfig, QuorumMember, RestartPolicy, ShareSet, VersionedManifest,
};
use vstd::prelude::*;
use vstd::slice::slice_to_vec;
use vstd::std_specs::convert::FromSpec;

use crate::hash::{sha256, sha256_digest};
use crate::qos::{
    ascii_bytes, aws_root_cert_pem, aws_root_pem, build_manifest, builder_error_chars,
    builder_error_text, cert_from_pem, env_var_names, pcr_len, pem_certificate,
};

verus! {

/// Error returned when a fake manifest cannot be generated.
#[derive(Debug)]
pub enum FakeManifestError {
    /// The QOS manifest builder rejected the supplied configuration.
    Builder(ManifestBuilderError),
    /// The v2 builder unexpectedly produced another manifest schema.
    UnexpectedVersion,
}

impl From<ManifestBuilderError> for FakeManifestError {
    fn from(error: ManifestBuilderError) -> (wrapped: Self) {
        FakeManifestError::Builder(error)
    }
}

impl vstd::std_specs::convert::FromSpecImpl<ManifestBuilderError> for FakeManifestError {
    open spec fn obeys_from_spec() -> bool {
        true
    }

    open spec fn from_spec(error: ManifestBuilderError) -> Self {
        FakeManifestError::Builder(error)
    }
}

/// The text of an error.
pub open spec fn manifest_error_chars(error: FakeManifestError) -> Seq<char> {
    match error {
        FakeManifestError::Builder(inner) => builder_error_chars(inner),
        FakeManifestError::UnexpectedVersion => {
            "the QOS v2 manifest builder returned a non-v2 manifest"@
        },
    }
}

impl FakeManifestError {
    /// The error in words.
    pub fn message(&self) -> (text: String)
        ensures
            text@ == manifest_error_chars(*self),
    {
        match self {
            FakeManifestError::Builder(inner) => builder_error_text(inner),
            FakeManifestError::UnexpectedVersion => {
                "the QOS v2 manifest builder returned a non-v2 manifest".to_owned()
            },
        }
    }
}

/// The one member of both local sets, with the given key.
pub open spec fn is_local_member(member: QuorumMember, key: Seq<u8>) -> bool {
    member.alias@ == "local-mock"@ && member.pub_key@ == key
}

/// A PCR value of zeros.
pub open spec fn is_zero_pcr(pcr: Seq<u8>) -> bool {
    pcr == Seq::new(48, |i: int| 0u8)
}

/// The local enclave configuration: zero PCRs, and the AWS root certificate if
/// it could be decoded.
pub open spec fn is_local_enclave(enclave: NitroConfig) -> bool {
    &&& is_zero_pcr(enclave.pcr0@)
    &&& is_zero_pcr(enclave.pcr1@)
    &&& is_zero_pcr(enclave.pcr2@)
    &&& is_zero_pcr(enclave.pcr3@)
    &&& enclave.aws_root_certificate@ == (match pem_certificate(ascii_bytes(aws_root_pem())) {
        Some(der) => der,
        None => Seq::empty(),
    })
    &&& enclave.qos_commit@ == "mock"@
}

/// The manifest for local testing with the given quorum public key.
pub open spec fn is_local_manifest(manifest: ManifestV2, key: Seq<u8>) -> bool {
    &&& manifest.version == ManifestVersion::V2
    &&& manifest.namespace.name@ == "tvc-base-prover-local"@
    &&& manifest.namespace.nonce == 1
    &&& manifest.namespace.quorum_key@ == key
    &&& manifest.pivot.hash == sha256_digest(ascii_bytes("tvc-base-prover-fake-pivot"@))
    &&& manifest.pivot.restart == RestartPolicy::Never
    &&& manifest.pivot.bridge_config@.len() == 0
    &&& !manifest.pivot.debug_mode
    &&& manifest.pivot.args@.len() == 0
    &&& env_var_names(manifest.pivot.env) == Set::<Seq<char>>::empty()
    &&& manifest.manifest_set.threshold == 1
    &&& manifest.manifest_set.members@.len() == 1
    &&& is_local_member(manifest.manifest_set.members@[0], key)
    &&& manifest.share_set.threshold == 1
    &&& manifest.share_set.members@.len() == 1
    &&& is_local_member(manifest.share_set.members@[0], key)
    &&& is_local_enclave(manifest.enclave)
    &&& manifest.dns is None
}

/// The one member of both local sets.
fn local_member(key: &[u8]) -> (member: QuorumMember)
    ensures
        is_local_member(member, key@),
{
    QuorumMember { alias: "local-mock".to_owned(), pub_key: slice_to_vec(key) }
}

/// A PCR value of zeros.
fn zero_pcr() -> (pcr: Vec<u8>)
    ensures
        is_zero_pcr(pcr@),
{
    let pcr = vec![0u8; pcr_len()];
    assert(pcr@ =~= Seq::new(48, |i: int| 0u8));
    pcr
}

/// The local enclave configuration.
fn local_enclave() -> (enclave: NitroConfig)
    ensures
        is_local_enclave(enclave),
{
    let aws_root_certificate = match cert_from_pem(aws_root_cert_pem()) {
        Ok(der) => der,
        Err(_) => Vec::new(),
    };
    NitroConfig {
        pcr0: zero_pcr(),
        pcr1: zero_pcr(),
        pcr2: zero_pcr(),
        pcr3: zero_pcr(),
        aws_root_certificate,
        qos_commit: "mock".to_owned(),
    }
}

/// The bytes that stand in for a pivot binary.
fn fake_pivot() -> (pivot: &'static [u8])
    ensures
        pivot@ == ascii_bytes("tvc-base-prover-fake-pivot"@),
{
    let pivot = "tvc-base-prover-fake-pivot";
    proof {
        reveal_strlit("tvc-base-prover-fake-pivot");
        vstd::string::is_ascii_spec_bytes(pivot);
    }
    let bytes = pivot.as_bytes();
    assert(bytes@ =~= ascii_bytes(pivot@));
    bytes
}

/// The stand-in for a pivot binary, byte by byte.
proof fn lemma_fake_pivot_bytes()
    ensures
        ascii_bytes("tvc-base-prover-fake-pivot"@) == seq![
            116u8, 118, 99, 45, 98, 97, 115, 101, 45, 112, 114, 111, 118,
            101, 114, 45, 102, 97, 107, 101, 45, 112, 105, 118, 111, 116,
        ],
{
    reveal_strlit("tvc-base-prover-fake-pivot");
    assert(ascii_bytes("tvc-base-prover-fake-pivot"@) =~= seq![
        116u8, 118, 99, 45, 98, 97, 115, 101, 45, 112, 114, 111, 118,
        101, 114, 45, 102, 97, 107, 101, 45, 112, 105, 118, 111, 116,
    ]);
}

/// Puts what the manifest builder returned into an envelope without approvals.
///
/// # Errors
///
/// Returns the builder's error, or [`FakeManifestError::UnexpectedVersion`] for
/// a manifest of another schema than v2.
pub fn envelope_of(built: Result<VersionedManifest, ManifestBuilderError>) -> (result: Result<
    ManifestEnvelopeV2,
    FakeManifestError,
>)
    ensures
        match built {
            Err(error) => result == Err::<ManifestEnvelopeV2, FakeManifestError>(
                FakeManifestError::Builder(error),
            ),
            Ok(VersionedManifest::V2(manifest)) => result matches Ok(envelope) && {
                &&& envelope.manifest == manifest
                &&& envelope.manifest_set_approvals@.len() == 0
                &&& envelope.share_set_approvals@.len() == 0
            },
            Ok(_) => result == Err::<ManifestEnvelopeV2, FakeManifestError>(
                FakeManifestError::UnexpectedVersion,
            ),
        },
{
    match built {
        Err(error) => Err(FakeManifestError::from(error)),
        Ok(VersionedManifest::V2(manifest)) => Ok(
            ManifestEnvelopeV2 {
                manifest,
                manifest_set_approvals: Vec::new(),
                share_set_approvals: Vec::new(),
            },
        ),
        Ok(_) => Err(FakeManifestError::UnexpectedVersion),
    }
}

/// Builds a fake but structurally valid [`ManifestEnvelopeV2`] for local
/// testing, embedding the given quorum public key (P256 sec1 bytes) in the
/// namespace so verifiers can cross-check it against the quorum key that signs
/// responses.
///
/// # Errors
///
/// Returns an error if the QOS manifest builder rejects the fixture values or
/// produces a schema other than v2, which it never does.
pub fn fake_manifest_envelope(quorum_public_key: &[u8]) -> (result: Result<
    ManifestEnvelopeV2,
    FakeManifestError,
>)
    ensures
        result matches Ok(envelope) && {
            &&& is_local_manifest(envelope.manifest, quorum_public_key@)
            &&& envelope.manifest_set_approvals@.len() == 0
            &&& envelope.share_set_approvals@.len() == 0
        },
        result matches Ok(envelope) && {
            let manifest = envelope.manifest;
            &&& manifest.version == ManifestVersion::V2
            &&& manifest.namespace.name@ == "tvc-base-prover-local"@
            &&& manifest.namespace.nonce == 1
            &&& manifest.namespace.quorum_key@ == quorum_public_key@
            &&& manifest.pivot.hash == sha256_digest(
                seq![
                    116u8, 118, 99, 45, 98, 97, 115, 101, 45, 112, 114, 111, 118,
                    101, 114, 45, 102, 97, 107, 101, 45, 112, 105, 118, 111, 116,
                ],
            )
            &&& manifest.pivot.restart == RestartPolicy::Never
            &&& manifest.pivot.bridge_config@.len() == 0
            &&& !manifest.pivot.debug_mode
            &&& manifest.pivot.args@.len() == 0
            &&& env_var_names(manifest.pivot.env) == Set::<Seq<char>>::empty()
            &&& manifest.dns is None
        },
        result matches Ok(envelope) && {
            let approvers = envelope.manifest.manifest_set;
            let holders = envelope.manifest.share_set;
            &&& approvers.threshold == 1
            &&& approvers.members@.len() == 1
            &&& approvers.members@[0].alias@ == "local-mock"@
            &&& approvers.members@[0].pub_key@ == quorum_public_key@
            &&& holders.threshold == 1
            &&& holders.members@.len() == 1
            &&& holders.members@[0].alias@ == "local-mock"@
            &&& holders.members@[0].pub_key@ == quorum_public_key@
        },
        result matches Ok(envelope) && {
            let enclave = envelope.manifest.enclave;
            &&& enclave.pcr0@ == Seq::new(48, |i: int| 0u8)
            &&& enclave.pcr1@ == Seq::new(48, |i: int| 0u8)
            &&& enclave.pcr2@ == Seq::new(48, |i: int| 0u8)
            &&& enclave.pcr3@ == Seq::new(48, |i: int| 0u8)
            &&& pem_certificate(ascii_bytes(aws_root_pem())) matches Some(der)
                ==> enclave.aws_root_certificate@ == der
            &&& pem_certificate(ascii_bytes(aws_root_pem())) is None
                ==> enclave.aws_root_certificate@.len() == 0
            &&& enclave.qos_commit@ == "mock"@
        },
{
    proof {
        lemma_fake_pivot_bytes();
    }
    let namespace = Namespace {
        name: "tvc-base-prover-local".to_owned(),
        nonce: 1,
        quorum_key: slice_to_vec(quorum_public_key),
    };
    let pivot_hash = sha256(fake_pivot());
    let manifest_set = ManifestSet { threshold: 1, members: vec![local_member(quorum_public_key)] };
    let share_set = ShareSet { threshold: 1, members: vec![local_member(quorum_public_key)] };
    envelope_of(build_manifest(namespace, pivot_hash, manifest_set, share_set, local_enclave()))
}

/// The manifest for local testing is structurally valid: in both sets the
/// threshold is positive and no larger than the number of members, every PCR
/// has the length of a SHA-384 digest, and the namespace's quorum key is the
/// key of every member.
pub proof fn law_local_manifest_is_structurally_valid(manifest: ManifestV2, key: Seq<u8>)
    requires
        is_local_manifest(manifest, key),
    ensures
        1 <= manifest.manifest_set.threshold <= manifest.manifest_set.members@.len(),
        1 <= manifest.share_set.threshold <= manifest.share_set.members@.len(),
        manifest.enclave.pcr0@.len() == 48,
        manifest.enclave.pcr1@.len() == 48,
        manifest.enclave.pcr2@.len() == 48,
        manifest.enclave.pcr3@.len() == 48,
        forall|i: int|
            0 <= i < manifest.manifest_set.members@.len()
                ==> #[trigger] manifest.manifest_set.members@[i].pub_key@
                == manifest.namespace.quorum_key@,
        forall|i: int|
            0 <= i < manifest.share_set.members@.len()
                ==> #[trigger] manifest.share_set.members@[i].pub_key@
                == manifest.namespace.quorum_key@,
{
}

/// A verifier can tell from the namespace which quorum key a local manifest was
/// made for: one manifest does not serve two keys.
pub proof fn law_quorum_key_is_recovered(manifest: ManifestV2, key: Seq<u8>, other: Seq<u8>)
    requires
        is_local_manifest(manifest, key),
        is_local_manifest(manifest, other),
    ensures
        manifest.namespace.quorum_key@ == key,
        key == other,
{
}

/// The quorum key is the only thing in which two local manifests differ: those
/// for two keys agree in everything but the namespace's quorum key and the keys
/// of the members, which are the given ones. The pivot hash in particular is the
/// same for every key, the SHA-256 hash of one fixed text.
pub proof fn law_only_the_key_differs(
    first: ManifestV2,
    first_key: Seq<u8>,
    second: ManifestV2,
    second_key: Seq<u8>,
)
    requires
        is_local_manifest(first, first_key),
        is_local_manifest(second, second_key),
    ensures
        first.version == second.version,
        first.namespace.name@ == second.namespace.name@,
        first.namespace.nonce == second.namespace.nonce,
        first.namespace.quorum_key@ == first_key,
        second.namespace.quorum_key@ == second_key,
        first.pivot.hash == second.pivot.hash,
        first.pivot.hash == sha256_digest(
            seq![
                116u8, 118, 99, 45, 98, 97, 115, 101, 45, 112, 114, 111, 118,
                101, 114, 45, 102, 97, 107, 101, 45, 112, 105, 118, 111, 116,
            ],
        ),
        first.pivot.restart == second.pivot.restart,
        first.pivot.bridge_config@ == second.pivot.bridge_config@,
        first.pivot.debug_mode == second.pivot.debug_mode,
        first.pivot.args@ == second.pivot.args@,
        env_var_names(first.pivot.env) == env_var_names(second.pivot.env),
        first.manifest_set.threshold == second.manifest_set.threshold,
        first.share_set.threshold == second.share_set.threshold,
        first.manifest_set.members@.len() == 1 == second.manifest_set.members@.len(),
        first.share_set.members@.len() == 1 == second.share_set.members@.len(),
        first.manifest_set.members@[0].alias@ == second.manifest_set.members@[0].alias@,
        first.share_set.members@[0].alias@ == second.share_set.members@[0].alias@,
        first.manifest_set.members@[0].pub_key@ == first_key,
        first.share_set.members@[0].pub_key@ == first_key,
        second.manifest_set.members@[0].pub_key@ == second_key,
        second.share_set.members@[0].pub_key@ == second_key,
        first.enclave.pcr0@ == second.enclave.pcr0@,
        first.enclave.pcr1@ == second.enclave.pcr1@,
        first.enclave.pcr2@ == second.enclave.pcr2@,
        first.enclave.pcr3@ == second.enclave.pcr3@,
        first.enclave.aws_root_certificate@ == second.enclave.aws_root_certificate@,
        first.enclave.qos_commit@ == second.enclave.qos_commit@,
        first.dns is None,
        second.dns is None,
{
    lemma_fake_pivot_bytes();
}

/// Every byte of every PCR of a local manifest is zero.
pub proof fn law_every_pcr_byte_is_zero(manifest: ManifestV2, key: Seq<u8>, i: int)
    requires
        is_local_manifest(manifest, key),
        0 <= i < 48,
    ensures
        manifest.enclave.pcr0@[i] == 0,
        manifest.enclave.pcr1@[i] == 0,
        manifest.enclave.pcr2@[i] == 0,
        manifest.enclave.pcr3@[i] == 0,
{
}

/// A builder error is wrapped as it is: unwrapping gives it back, and its text is
/// the builder's own.
pub proof fn law_builder_error_is_kept(error: ManifestBuilderError)
    ensures
        FakeManifestError::from_spec(error) == FakeManifestError::Builder(error),
        manifest_error_chars(FakeManifestError::Builder(error)) == builder_error_chars(error),
{
}

} // verus!
