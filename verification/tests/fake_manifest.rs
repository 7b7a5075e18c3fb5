use base_block_prover::fake_manifest::{envelope_of, fake_manifest_envelope, FakeManifestError};
use qos_core::protocol::services::boot::{
    ManifestBuilder, ManifestBuilderError, ManifestEnvelopeV2, ManifestVersion, PatchSet,
    RestartPolicy,
};
use qos_nsm::nitro::{cert_from_pem, AWS_ROOT_CERT_PEM, PCR_SHA384_LEN};
use sha2::Digest;

#[test]
fn fake_manifest_envelope_round_trips_through_json() {
    let envelope = fake_manifest_envelope(&[9u8; 65]).unwrap();
    let bytes = qos_json::to_vec(&envelope).unwrap();
    let decoded: ManifestEnvelopeV2 = serde_json::from_slice(&bytes).unwrap();
    assert_eq!(decoded, envelope);
    assert_eq!(decoded.manifest.namespace.quorum_key, vec![9u8; 65]);
    assert_eq!(decoded.manifest.version, ManifestVersion::V2);
}

#[test]
fn every_placeholder_has_its_value() {
    let envelope = fake_manifest_envelope(&[4, 5, 6]).unwrap();
    assert!(envelope.manifest_set_approvals.is_empty());
    assert!(envelope.share_set_approvals.is_empty());
    let manifest = envelope.manifest;
    assert_eq!(manifest.namespace.name, "tvc-base-prover-local");
    assert_eq!(manifest.namespace.nonce, 1);
    let pivot: [u8; 32] = sha2::Sha256::digest(b"tvc-base-prover-fake-pivot").into();
    assert_eq!(manifest.pivot.hash, pivot);
    assert_eq!(manifest.pivot.restart, RestartPolicy::Never);
    assert!(manifest.pivot.bridge_config.is_empty());
    assert!(!manifest.pivot.debug_mode);
    assert!(manifest.pivot.args.is_empty());
    assert!(manifest.pivot.env.is_empty());
    assert!(manifest.dns.is_none());
    for (threshold, members) in [
        (manifest.manifest_set.threshold, &manifest.manifest_set.members),
        (manifest.share_set.threshold, &manifest.share_set.members),
    ] {
        assert_eq!(threshold, 1);
        assert_eq!(members.len(), 1);
        assert_eq!(members[0].alias, "local-mock");
        assert_eq!(members[0].pub_key, vec![4, 5, 6]);
    }
    let enclave = manifest.enclave;
    for pcr in [enclave.pcr0, enclave.pcr1, enclave.pcr2, enclave.pcr3] {
        assert_eq!(pcr, vec![0u8; 48]);
    }
    assert_eq!(enclave.aws_root_certificate, cert_from_pem(AWS_ROOT_CERT_PEM).unwrap());
    assert!(!enclave.aws_root_certificate.is_empty());
    assert_eq!(enclave.qos_commit, "mock");
}

#[test]
fn an_empty_key_is_embedded_too() {
    let envelope = fake_manifest_envelope(&[]).unwrap();
    assert!(envelope.manifest.namespace.quorum_key.is_empty());
}

#[test]
fn nitro_constants() {
    assert_eq!(PCR_SHA384_LEN, 48);
    let pem = "-----BEGIN CERTIFICATE-----
MIICETCCAZagAwIBAgIRAPkxdWgbkK/hHUbMtOTn+FYwCgYIKoZIzj0EAwMwSTEL
MAkGA1UEBhMCVVMxDzANBgNVBAoMBkFtYXpvbjEMMAoGA1UECwwDQVdTMRswGQYD
VQQDDBJhd3Mubml0cm8tZW5jbGF2ZXMwHhcNMTkxMDI4MTMyODA1WhcNNDkxMDI4
MTQyODA1WjBJMQswCQYDVQQGEwJVUzEPMA0GA1UECgwGQW1hem9uMQwwCgYDVQQL
DANBV1MxGzAZBgNVBAMMEmF3cy5uaXRyby1lbmNsYXZlczB2MBAGByqGSM49AgEG
BSuBBAAiA2IABPwCVOumCMHzaHDimtqQvkY4MpJzbolL//Zy2YlES1BR5TSksfbb
48C8WBoyt7F2Bw7eEtaaP+ohG2bnUs990d0JX28TcPQXCEPZ3BABIeTPYwEoCWZE
h8l5YoQwTcU/9KNCMEAwDwYDVR0TAQH/BAUwAwEB/zAdBgNVHQ4EFgQUkCW1DdkF
R+eWw5b6cp3PmanfS5YwDgYDVR0PAQH/BAQDAgGGMAoGCCqGSM49BAMDA2kAMGYC
MQCjfy+Rocm9Xue4YnwWmNJVA44fA0P5W2OpYow9OYCVRaEevL8uO1XYru5xtMPW
rfMCMQCi85sWBbJwKKXdS6BptQFuZbT73o/gBh1qUxl/nNr12UO8Yfwr6wPLb+6N
IwLz3/Y=
-----END CERTIFICATE-----";
    assert_eq!(AWS_ROOT_CERT_PEM, pem.as_bytes());
}

#[test]
fn builder_errors_are_passed_on() {
    match envelope_of(ManifestBuilder::v2().build()) {
        Err(FakeManifestError::Builder(error)) => {
            assert_eq!(error, ManifestBuilderError::MissingNamespace);
        }
        _ => panic!("the builder's error was lost"),
    }
}

#[test]
fn other_schemas_are_rejected() {
    let manifest = fake_manifest_envelope(&[1; 65]).unwrap().manifest;
    let built = ManifestBuilder::v1()
        .namespace(manifest.namespace)
        .pivot_hash(manifest.pivot.hash)
        .manifest_set(manifest.manifest_set)
        .share_set(manifest.share_set)
        .enclave(manifest.enclave)
        .patch_set(PatchSet { threshold: 0, members: vec![] })
        .build();
    assert!(built.is_ok());
    assert!(matches!(envelope_of(built), Err(FakeManifestError::UnexpectedVersion)));
}

#[test]
fn manifest_errors_in_words() {
    for (error, text) in [
        (ManifestBuilderError::MissingNamespace, "missing required manifest field: namespace"),
        (ManifestBuilderError::MissingPivotHash, "missing required manifest field: pivot hash"),
        (ManifestBuilderError::MissingManifestSet, "missing required manifest field: manifest set"),
        (ManifestBuilderError::MissingShareSet, "missing required manifest field: share set"),
        (
            ManifestBuilderError::MissingEnclave,
            "missing required manifest field: enclave configuration",
        ),
        (ManifestBuilderError::MissingPatchSet, "missing required manifest field: patch set"),
        (
            ManifestBuilderError::V1DoesNotSupportPivotEnv,
            "manifest v1 does not support pivot environment configuration",
        ),
        (
            ManifestBuilderError::V1DoesNotSupportDns,
            "manifest v1 does not support DNS configuration",
        ),
        (
            ManifestBuilderError::V2DoesNotSupportPatchSet,
            "manifest v2 does not support a patch set",
        ),
    ] {
        assert_eq!(FakeManifestError::from(error).message(), text);
    }
    assert_eq!(
        FakeManifestError::UnexpectedVersion.message(),
        "the QOS v2 manifest builder returned a non-v2 manifest"
    );
}
