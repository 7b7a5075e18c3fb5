//! The parts of the QOS crates that manifests are built with: the manifest
//! types, the manifest builder, and the AWS root certificate.
//!
//! The manifest types are plain data with public fields, so they are declared
//! field by field. Only the pivot environment, the DNS configuration, the
//! older manifest schemas and the attestation error are opaque.

use qos_core::protocol::services::boot;
use qos_nsm::nitro;
use vstd::prelude::*;

use crate::types::B256;

verus! {

/// `qos_core`'s member of a quorum set.
#[verifier::external_type_specification]
pub struct ExQuorumMember(boot::QuorumMember);

/// `qos_core`'s manifest namespace.
#[verifier::external_type_specification]
pub struct ExNamespace(boot::Namespace);

/// `qos_core`'s set of members that approve manifests.
#[verifier::external_type_specification]
pub struct ExManifestSet(boot::ManifestSet);

/// `qos_core`'s set of members that post shares.
#[verifier::external_type_specification]
pub struct ExShareSet(boot::ShareSet);

/// `qos_core`'s enclave configuration.
#[verifier::external_type_specification]
pub struct ExNitroConfig(boot::NitroConfig);

/// `qos_core`'s restart policy.
#[verifier::external_type_specification]
pub struct ExRestartPolicy(boot::RestartPolicy);

/// `qos_core`'s bridge rule.
#[verifier::external_type_specification]
pub struct ExBridgeConfig(boot::BridgeConfig);

/// `qos_core`'s schema version.
#[verifier::external_type_specification]
pub struct ExManifestVersion(boot::ManifestVersion);

/// `qos_core`'s pivot environment.
#[verifier::external_type_specification]
#[verifier::external_body]
pub struct ExPivotEnv(boot::PivotEnv);

/// `qos_core`'s name of an environment variable.
#[verifier::external_type_specification]
#[verifier::external_body]
pub struct ExPivotEnvVarName(boot::PivotEnvVarName);

/// `qos_core`'s value of an environment variable.
#[verifier::external_type_specification]
#[verifier::external_body]
pub struct ExPivotEnvValue(boot::PivotEnvValue);

/// `qos_core`'s DNS configuration.
#[verifier::external_type_specification]
#[verifier::external_body]
pub struct ExDnsConfig(boot::DnsConfig);

/// `qos_core`'s pivot configuration.
#[verifier::external_type_specification]
pub struct ExPivotConfigV2(boot::PivotConfigV2);

/// `qos_core`'s v2 manifest.
#[verifier::external_type_specification]
pub struct ExManifestV2(boot::ManifestV2);

/// `qos_core`'s v1 manifest.
#[verifier::external_type_specification]
#[verifier::external_body]
pub struct ExManifest(boot::Manifest);

/// `qos_core`'s v0 manifest.
#[verifier::external_type_specification]
#[verifier::external_body]
pub struct ExManifestV0(boot::ManifestV0);

/// `qos_core`'s manifest of any schema.
#[verifier::external_type_specification]
pub struct ExVersionedManifest(boot::VersionedManifest);

/// `qos_core`'s approval of a manifest.
#[verifier::external_type_specification]
pub struct ExApproval(boot::Approval);

/// `qos_core`'s v2 manifest envelope.
#[verifier::external_type_specification]
pub struct ExManifestEnvelopeV2(boot::ManifestEnvelopeV2);

/// `qos_core`'s manifest builder error.
#[verifier::external_type_specification]
pub struct ExManifestBuilderError(boot::ManifestBuilderError);

/// `qos_nsm`'s attestation error.
#[verifier::external_type_specification]
#[verifier::external_body]
pub struct ExAttestError(nitro::AttestError);

/// The names of the variables in a pivot environment.
pub uninterp spec fn env_var_names(env: boot::PivotEnv) -> Set<Seq<char>>;

/// The DER certificate that a PEM text decodes to, if it decodes.
pub uninterp spec fn pem_certificate(pem: Seq<u8>) -> Option<Seq<u8>>;

/// The bytes of an ASCII text.
pub open spec fn ascii_bytes(text: Seq<char>) -> Seq<u8> {
    text.map_values(|c: char| c as u8)
}

/// The AWS Nitro root certificate, as PEM text.
pub open spec fn aws_root_pem() -> Seq<char> {
    "-----BEGIN CERTIFICATE-----
MIICETCCAZagAwIBAgIRAPkxdWgbkK/hHUbMtOTn+FYwCgYIKoZIzj0EAwMwSTEL
MAkGA1UEBhMCVVMxDzANBgNVBAoMBkFtYXpvbjEMMAoGA1UECwwDQVdTMRswGQYD
VQQDDBJhd3Mubml0cm8tZW5jbGF2ZXMwHhcNMTkxMDI4MTMyODA1WhcNNDkxMDI4
MTQyODA1WjBJMQswCQYDVQQGEwJVUzEPMA0GA1UECgwGQW1hem9uMQwwCgYDVQQL
DANBV1MxGzAZBgNVBAMMEmF3cy5uaXRyby1lbmNsYXZlczB2MBAGByqGSM49AgEG
BSuBBAAiA2IABPwCVOumCMHzaHDimtqQvkY4MpJzbolL//Zy2YlES1BR5TSksfbb
48C8WBoyt7F2Bw7eEtaaP+ohG2bnUs990d0JX28TcPQXCEPZ3BABIeTPYwEoCWZE
h8l5YoQwTcU/9KNCMEAwDwYDVR0TAQH/BAUwAwEB/zAdBgNVHQ4EFgQUkCW1DdkF
R+eWw5b6cp3PmanfS5YwDgYDVR0PAQH/BAQDAgGGMAoGCCqGSM49BAMDA2kAMGYC
MQCjfy+Rocm9Xue4YnwWmNJVA44fA0P5W2OpYow9OYCVRaEevL8uO1XYru5xtMPW
rfMCMQCi85sWBbJwKKXdS6BptQFuZbT73o/gBh1qUxl/nNr12UO8Yfwr6wPLb+6N
IwLz3/Y=
-----END CERTIFICATE-----"@
}

/// A v2 manifest with the given identity and trust inputs and the builder's
/// defaults for everything else but the environment: the pivot is never
/// restarted, bridge rules and arguments are empty, debug mode is off, and there
/// is no DNS configuration.
pub open spec fn is_default_manifest(
    manifest: boot::ManifestV2,
    namespace: boot::Namespace,
    pivot_hash: B256,
    manifest_set: boot::ManifestSet,
    share_set: boot::ShareSet,
    enclave: boot::NitroConfig,
) -> bool {
    &&& manifest.version == boot::ManifestVersion::V2
    &&& manifest.namespace == namespace
    &&& manifest.pivot.hash == pivot_hash
    &&& manifest.pivot.restart == boot::RestartPolicy::Never
    &&& manifest.pivot.bridge_config@.len() == 0
    &&& !manifest.pivot.debug_mode
    &&& manifest.pivot.args@.len() == 0
    &&& manifest.manifest_set == manifest_set
    &&& manifest.share_set == share_set
    &&& manifest.enclave == enclave
    &&& manifest.dns is None
}

/// The v2 manifest that a builder returned, if it returned one.
pub open spec fn built_v2(
    built: Result<boot::VersionedManifest, boot::ManifestBuilderError>,
) -> Option<boot::ManifestV2> {
    match built {
        Ok(boot::VersionedManifest::V2(manifest)) => Some(manifest),
        _ => None,
    }
}

/// Builds a v2 manifest, by `qos_core`'s `ManifestBuilder`.
///
/// Trusted: a builder made by `v2`, given exactly these five values by
/// `namespace`, `pivot_hash`, `manifest_set`, `share_set` and `enclave`, misses
/// nothing that `build` asks for and has nothing that the v2 schema rejects, so
/// `build` returns a v2 manifest, which holds the five values and the builder's
/// defaults, an empty environment among them.
#[verifier::external_body]
pub(crate) fn build_manifest(
    namespace: boot::Namespace,
    pivot_hash: B256,
    manifest_set: boot::ManifestSet,
    share_set: boot::ShareSet,
    enclave: boot::NitroConfig,
) -> (built: Result<boot::VersionedManifest, boot::ManifestBuilderError>)
    ensures
        built_v2(built) is Some,
        is_default_manifest(
            built_v2(built)->0,
            namespace,
            pivot_hash,
            manifest_set,
            share_set,
            enclave,
        ),
        env_var_names(built_v2(built)->0.pivot.env) == Set::<Seq<char>>::empty(),
{
    boot::ManifestBuilder::v2()
        .namespace(namespace)
        .pivot_hash(pivot_hash)
        .manifest_set(manifest_set)
        .share_set(share_set)
        .enclave(enclave)
        .build()
}

/// The text of a manifest builder error.
pub open spec fn builder_error_chars(error: boot::ManifestBuilderError) -> Seq<char> {
    match error {
        boot::ManifestBuilderError::MissingNamespace => {
            "missing required manifest field: namespace"@
        },
        boot::ManifestBuilderError::MissingPivotHash => {
            "missing required manifest field: pivot hash"@
        },
        boot::ManifestBuilderError::MissingManifestSet => {
            "missing required manifest field: manifest set"@
        },
        boot::ManifestBuilderError::MissingShareSet => {
            "missing required manifest field: share set"@
        },
        boot::ManifestBuilderError::MissingEnclave => {
            "missing required manifest field: enclave configuration"@
        },
        boot::ManifestBuilderError::MissingPatchSet => {
            "missing required manifest field: patch set"@
        },
        boot::ManifestBuilderError::V1DoesNotSupportPivotEnv => {
            "manifest v1 does not support pivot environment configuration"@
        },
        boot::ManifestBuilderError::V1DoesNotSupportDns => {
            "manifest v1 does not support DNS configuration"@
        },
        boot::ManifestBuilderError::V2DoesNotSupportPatchSet => {
            "manifest v2 does not support a patch set"@
        },
    }
}

/// Text of a manifest builder error.
///
/// Trusted: the `Display` impl of `qos_core`'s `ManifestBuilderError` writes
/// one fixed text for each variant.
#[verifier::external_body]
pub(crate) fn builder_error_text(error: &boot::ManifestBuilderError) -> (text: String)
    ensures
        text@ == builder_error_chars(*error),
{
    error.to_string()
}

/// Length of a PCR value in bytes.
///
/// Trusted: the value of `qos_nsm`'s `PCR_SHA384_LEN`.
#[verifier::external_body]
pub(crate) fn pcr_len() -> (len: usize)
    ensures
        len == 48,
{
    nitro::PCR_SHA384_LEN
}

/// The AWS Nitro root certificate in PEM.
///
/// Trusted: the contents of `qos_nsm`'s `AWS_ROOT_CERT_PEM`.
#[verifier::external_body]
pub(crate) fn aws_root_cert_pem() -> (pem: &'static [u8])
    ensures
        pem@ == ascii_bytes(aws_root_pem()),
{
    nitro::AWS_ROOT_CERT_PEM
}

/// Extracts the DER certificate from the AWS root PEM, by `qos_nsm`'s
/// `cert_from_pem`.
///
/// Trusted: success and result depend on the PEM bytes alone. Nothing is
/// claimed of what the bytes decode to.
#[verifier::external_body]
pub(crate) fn cert_from_pem(pem: &[u8]) -> (cert: Result<Vec<u8>, nitro::AttestError>)
    requires
        pem@ == ascii_bytes(aws_root_pem()),
    ensures
        pem_certificate(pem@) == (match cert {
            Ok(der) => Some(der@),
            Err(_) => None,
        }),
{
    nitro::cert_from_pem(pem)
}

/// The bytes of an ASCII text are its character codes, one for one.
pub proof fn law_ascii_bytes_are_the_character_codes(text: Seq<char>)
    requires
        forall|i: int| 0 <= i < text.len() ==> 0 <= #[trigger] text[i] as int <= 0x7f,
    ensures
        ascii_bytes(text).len() == text.len(),
        forall|i: int|
            0 <= i < text.len() ==> #[trigger] ascii_bytes(text)[i] as int == text[i] as int,
{
    assert forall|i: int| 0 <= i < text.len() implies #[trigger] ascii_bytes(text)[i] as int
        == text[i] as int by {
        assert(0 <= text[i] as int <= 0x7f);
    }
}

} // verus!
