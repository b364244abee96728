use openmls_basic_credential::SignatureKeyPair;
use openmls_rust_crypto::RustCrypto;
use staged_key_package::builder::KeyPackageBuilder;
use staged_key_package::ciphersuite::{Ciphersuite, SignatureScheme};
use staged_key_package::errors::{
    ExtensionTypeNotValidInLeafNodeError, InvalidExtensionError, KeyPackageNewError,
    KeyPackageStagingError, KeyPackageVerifyError, StagedExtensionLocation,
};
use staged_key_package::extension_type::ExtensionType;
use staged_key_package::extensions::{Extension, Extensions};
use staged_key_package::key_package::{KeyPackage, KeyPackageBundle, KeyPackageTbs};
use staged_key_package::key_package_in::{KeyPackageIn, ProtocolVersion};
use staged_key_package::leaf_node::{Capabilities, Credential, CredentialWithKey, LeafNodeSource, Lifetime};
use staged_key_package::staged::BoundKeyPackage;
use staged_key_package::storage::Provider;

const STAGED_BINDING_EXTENSION_TYPE: u16 = 0xf042;
const STAGED_TOP_LEVEL_EXTENSION_TYPE: u16 = 0xf043;
const STAGED_LEAF_EXTENSION_TYPE: u16 = 0xf044;

/// The ciphersuites that the RustCrypto provider supports.
const CIPHERSUITES: [Ciphersuite; 3] = [
    Ciphersuite::MLS_128_DHKEMX25519_AES128GCM_SHA256_Ed25519,
    Ciphersuite::MLS_128_DHKEMP256_AES128GCM_SHA256_P256,
    Ciphersuite::MLS_128_DHKEMX25519_CHACHA20POLY1305_SHA256_Ed25519,
];

fn new_provider() -> Provider {
    Provider::new(RustCrypto::default())
}

fn signer_for_scheme(scheme: SignatureScheme) -> SignatureKeyPair {
    let scheme = openmls_traits::types::SignatureScheme::try_from(scheme.code()).unwrap();
    SignatureKeyPair::new(scheme).unwrap()
}

fn signer_for(ciphersuite: Ciphersuite) -> SignatureKeyPair {
    signer_for_scheme(ciphersuite.signature_algorithm())
}

fn credential_with_key(identity: &[u8], signer: &SignatureKeyPair) -> CredentialWithKey {
    CredentialWithKey {
        credential: Credential::basic(identity.to_vec()),
        signature_key: signer.to_public_vec(),
    }
}

fn staged_capabilities(ciphersuite: Ciphersuite, extensions: &[ExtensionType]) -> Capabilities {
    Capabilities::new(None, Some(&[ciphersuite]), Some(extensions), None, None)
}

fn staging_error<T>(result: Result<T, KeyPackageStagingError>) -> KeyPackageStagingError {
    match result {
        Ok(_) => panic!("expected staged KeyPackage construction to fail"),
        Err(error) => error,
    }
}

fn single(location: StagedExtensionLocation, extension: Extension) -> Extensions {
    Extensions::single(location, extension).unwrap()
}

fn duplicate_first_extension(extensions: Extensions) -> Extensions {
    let mut entries = extensions.unique;
    let first = entries.first().expect("one extension").duplicate();
    entries.push(first);
    Extensions::from_vec_unchecked(entries)
}

fn assert_tbs_mutation_changes_canonical_bytes(
    canonical_bytes: &[u8],
    tbs: &KeyPackageTbs,
    mutate: impl FnOnce(&mut KeyPackageTbs),
) {
    let mut tampered = tbs.duplicate();
    mutate(&mut tampered);
    assert_ne!(
        canonical_bytes,
        tampered.encode().expect("serialize tampered KeyPackageTBS").as_slice(),
        "changing a covered field must change the canonical binding bytes"
    );
}

/// Helper function to generate key packages
fn key_package(ciphersuite: Ciphersuite, provider: &mut Provider) -> (KeyPackageBundle, Credential, SignatureKeyPair) {
    let credential = Credential::basic(b"Sasha".to_vec());
    let signer = signer_for(ciphersuite);

    // Generate a valid KeyPackage.
    let key_package = KeyPackage::builder()
        .build(
            ciphersuite,
            provider,
            &signer,
            CredentialWithKey {
                credential: credential.duplicate(),
                signature_key: signer.to_public_vec(),
            },
        )
        .expect("An unexpected error occurred.");

    (key_package, credential, signer)
}

/// Ensure that invalid leaf node extensions cannot be added to the KeyPackage
#[test]
fn key_package_builder_leaf_node_extensions_validation() {
    // create an extension that is invalid in the leaf node
    let extension = Extension::external_senders_empty();
    assert!(!extension.extension_type().is_valid_in_leaf_node());

    let extensions_result: Result<Extensions, _> =
        Extensions::single(StagedExtensionLocation::LeafNode, extension);
    let err = extensions_result
        .expect_err("expected validation to fail because this type is not valid in leaf nodes");

    assert_eq!(
        err,
        InvalidExtensionError::ExtensionTypeNotValidInLeafNode(
            ExtensionTypeNotValidInLeafNodeError(ExtensionType::ExternalSenders)
        ),
    );
}

#[test]
fn key_package_rejects_unsupported_ciphersuite() {
    // The RustCrypto provider supports some ciphersuites, but not this one.
    let ciphersuite = Ciphersuite::MLS_256_DHKEMP384_AES256GCM_SHA384_P384;
    let mut provider = new_provider();

    // The signer matches the ciphersuite's signature scheme, so the
    // ciphersuite/signature-scheme mismatch check passes and the provider
    // support check is what fails.
    let signer = signer_for(ciphersuite);
    let credential = Credential::basic(b"Sasha".to_vec());

    let err = KeyPackage::builder()
        .build(
            ciphersuite,
            &mut provider,
            &signer,
            CredentialWithKey { credential, signature_key: signer.to_public_vec() },
        )
        .err()
        .expect("key package creation should fail for an unsupported ciphersuite");

    assert!(matches!(
        err,
        KeyPackageNewError::UnsupportedCiphersuite(cs) if cs == ciphersuite
    ));
    assert_eq!(provider.storage().len(), 0);
}

#[test]
fn generate_key_package() {
    for ciphersuite in CIPHERSUITES {
        let mut provider = new_provider();
        let (key_package, _credential, _signature_keys) = key_package(ciphersuite, &mut provider);

        let kpi = KeyPackageIn::from(key_package.key_package().duplicate());
        assert!(kpi.validate(provider.crypto(), ProtocolVersion::Mls10).is_ok());
    }
}

#[test]
fn serialization() {
    for ciphersuite in CIPHERSUITES {
        let mut provider = new_provider();
        let (key_package, _, _) = key_package(ciphersuite, &mut provider);

        let encoded = key_package.key_package().encode().expect("An unexpected error occurred.");

        let decoded_key_package =
            KeyPackageIn::tls_deserialize_exact(&encoded).expect("An unexpected error occurred.");
        assert_eq!(key_package.key_package().payload, decoded_key_package.payload);
        assert_eq!(key_package.key_package().signature, decoded_key_package.signature);
    }
}

#[test]
fn application_id_extension() {
    for ciphersuite in CIPHERSUITES {
        let mut provider = new_provider();
        let credential = Credential::basic(b"Sasha".to_vec());
        let signature_keys = signer_for(ciphersuite);

        // Generate a valid KeyPackage.
        let id = b"application id" as &[u8];
        let key_package = KeyPackage::builder()
            .leaf_node_extensions(single(
                StagedExtensionLocation::LeafNode,
                Extension::application_id(id).unwrap(),
            ))
            .build(
                ciphersuite,
                &mut provider,
                &signature_keys,
                CredentialWithKey { signature_key: signature_keys.to_public_vec(), credential },
            )
            .expect("An unexpected error occurred.");

        let kpi = KeyPackageIn::from(key_package.key_package().duplicate());
        assert!(kpi.validate(provider.crypto(), ProtocolVersion::Mls10).is_ok());

        // Check ID
        assert_eq!(
            Some(id.to_vec()),
            key_package.key_package().leaf_node().extensions().application_id()
        );
    }
}

/// Test that the key package is correctly validated:
/// - The protocol version is correct
/// - The init key is not equal to the encryption key
#[test]
fn key_package_validation() {
    for ciphersuite in CIPHERSUITES {
        let mut provider = new_provider();
        let (key_package_orig, _, _) = key_package(ciphersuite, &mut provider);

        // === Protocol version ===

        let mut franken_key_package = key_package_orig.key_package().duplicate();
        // Set an invalid protocol version
        franken_key_package.payload.protocol_version = 999;

        let key_package_in = KeyPackageIn::from(franken_key_package);

        let err = key_package_in.validate(provider.crypto(), ProtocolVersion::Mls10).unwrap_err();

        // Expect an invalid protocol version error
        assert_eq!(err, KeyPackageVerifyError::InvalidProtocolVersion);

        // === Init/encryption key ===

        let mut franken_key_package = key_package_orig.key_package().duplicate();
        // Set an invalid init key
        franken_key_package.payload.init_key = franken_key_package.payload.leaf_node.encryption_key.clone();

        let key_package_in = KeyPackageIn::from(franken_key_package);

        let err = key_package_in.validate(provider.crypto(), ProtocolVersion::Mls10).unwrap_err();

        // Expect an invalid init/encryption key error
        assert_eq!(err, KeyPackageVerifyError::InitKeyEqualsEncryptionKey);
    }
}

/// Validation of a key package that carries many distinct extensions and
/// advertises a long capabilities list must succeed.
#[test]
fn key_package_validation_with_many_extensions() {
    // Distinct extension types for the key package. The range avoids the
    // registered types and the GREASE values.
    const FIRST_TYPE: u16 = 0xf000;
    const EXTENSION_COUNT: u16 = 1000;
    // Padding type for the capabilities list. It is not among the key package
    // extensions, so it is never looked up.
    const PADDING_TYPE: u16 = 0x0fff;
    const PADDING_COUNT: usize = 50_000;

    let ciphersuite = CIPHERSUITES[0];
    let mut provider = new_provider();
    let credential = Credential::basic(b"Sasha".to_vec());
    let signature_keys = signer_for(ciphersuite);

    let extension_types: Vec<u16> = (FIRST_TYPE..FIRST_TYPE + EXTENSION_COUNT).collect();

    let key_package_extensions = Extensions::from_vec(
        StagedExtensionLocation::KeyPackage,
        extension_types.iter().map(|extension_type| Extension::unknown(*extension_type, vec![])).collect(),
    )
    .expect("unknown extensions are valid in key packages");

    let mut capability_extensions = vec![ExtensionType::Unknown(PADDING_TYPE); PADDING_COUNT];
    capability_extensions.extend(extension_types.iter().map(|extension_type| ExtensionType::Unknown(*extension_type)));

    let key_package = KeyPackage::builder()
        .leaf_node_capabilities(Capabilities::new(None, Some(&[ciphersuite]), Some(&capability_extensions), None, None))
        .key_package_extensions(key_package_extensions)
        .build(
            ciphersuite,
            &mut provider,
            &signature_keys,
            CredentialWithKey { signature_key: signature_keys.to_public_vec(), credential },
        )
        .expect("failed to build the key package");

    let serialized = key_package.key_package().encode().expect("failed to serialize the key package");

    let key_package_in = KeyPackageIn::tls_deserialize_exact(&serialized).expect("failed to parse the key package");

    key_package_in
        .validate(provider.crypto(), ProtocolVersion::Mls10)
        .expect("validation should accept supported extensions");
}

/// Test that a key package is correctly built with a last resort extension when
/// the last resort flag is set during the build process.
#[test]
fn last_resort_key_package() {
    for ciphersuite in CIPHERSUITES {
        let mut provider = new_provider();
        let credential = Credential::basic(b"Sasha".to_vec());
        let signature_keys = signer_for(ciphersuite);

        // build without any other extensions
        let key_package = KeyPackage::builder()
            .mark_as_last_resort()
            .build(
                ciphersuite,
                &mut provider,
                &signature_keys,
                CredentialWithKey { signature_key: signature_keys.to_public_vec(), credential: credential.duplicate() },
            )
            .expect("An unexpected error occurred.");
        assert!(key_package.key_package().last_resort());

        // build with empty extensions
        let key_package = KeyPackage::builder()
            .key_package_extensions(Extensions::empty())
            .mark_as_last_resort()
            .build(
                ciphersuite,
                &mut provider,
                &signature_keys,
                CredentialWithKey { signature_key: signature_keys.to_public_vec(), credential: credential.duplicate() },
            )
            .expect("An unexpected error occurred.");
        assert!(key_package.key_package().last_resort());

        // build with extension
        let key_package = KeyPackage::builder()
            .key_package_extensions(single(StagedExtensionLocation::KeyPackage, Extension::unknown(0xFF00, vec![0x00])))
            .mark_as_last_resort()
            .build(
                ciphersuite,
                &mut provider,
                &signature_keys,
                CredentialWithKey { signature_key: signature_keys.to_public_vec(), credential: credential.duplicate() },
            )
            .expect("An unexpected error occurred.");
        assert!(key_package.key_package().last_resort());
    }
}

/// Preparation exposes the library's exact TLS serialization of the frozen
/// KeyPackageTBS. Every field below is covered; only the designated binding
/// extension and the later outer KeyPackage signature are absent.
#[test]
fn staged_prepare_freezes_complete_canonical_tbs() {
    for ciphersuite in CIPHERSUITES {
        let provider = new_provider();
        let signer = signer_for(ciphersuite);
        let advertised = [
            ExtensionType::Unknown(STAGED_BINDING_EXTENSION_TYPE),
            ExtensionType::Unknown(STAGED_TOP_LEVEL_EXTENSION_TYPE),
            ExtensionType::Unknown(STAGED_LEAF_EXTENSION_TYPE),
            ExtensionType::LastResort,
        ];
        let lifetime = Lifetime::default();
        let prepared = KeyPackage::builder()
            .key_package_lifetime(lifetime)
            .key_package_extensions(single(
                StagedExtensionLocation::KeyPackage,
                Extension::unknown(STAGED_TOP_LEVEL_EXTENSION_TYPE, vec![0x11, 0x22]),
            ))
            .leaf_node_capabilities(staged_capabilities(ciphersuite, &advertised))
            .leaf_node_extensions(single(
                StagedExtensionLocation::LeafNode,
                Extension::unknown(STAGED_LEAF_EXTENSION_TYPE, vec![0x33, 0x44]),
            ))
            .mark_as_last_resort()
            .prepare(
                ciphersuite,
                &provider,
                &signer,
                credential_with_key(b"frozen staged state", &signer),
                STAGED_BINDING_EXTENSION_TYPE,
            )
            .expect("prepare staged KeyPackage");

        let canonical_bytes = prepared.canonical_binding_bytes().to_vec();
        assert!(!canonical_bytes.is_empty());
        assert_eq!(
            prepared.canonical_binding_bytes(),
            canonical_bytes.as_slice(),
            "repeated extraction must be byte-identical"
        );

        // The returned slice is read-only. Mutating an owned caller copy cannot
        // mutate the opaque prepared state.
        let mut caller_copy = canonical_bytes.clone();
        caller_copy[0] ^= 1;
        assert_ne!(caller_copy.as_slice(), prepared.canonical_binding_bytes());
        assert_eq!(prepared.canonical_binding_bytes(), canonical_bytes.as_slice());

        let tbs = KeyPackageTbs::tls_deserialize_exact(&canonical_bytes)
            .expect("canonical bytes are exactly one KeyPackageTBS");
        assert_eq!(tbs.protocol_version, 1);
        assert_eq!(tbs.ciphersuite, ciphersuite);
        assert_eq!(tbs.leaf_node.capabilities.extensions, advertised.to_vec());
        assert!(matches!(tbs.leaf_node.leaf_node_source, LeafNodeSource::KeyPackage(_)));
        assert!(!tbs.leaf_node.signature.is_empty());
        assert_eq!(
            tbs.extensions.as_slice().iter().map(|extension| extension.extension_type()).collect::<Vec<_>>(),
            vec![ExtensionType::Unknown(STAGED_TOP_LEVEL_EXTENSION_TYPE), ExtensionType::LastResort]
        );
        assert!(!tbs
            .extensions
            .as_slice()
            .iter()
            .any(|extension| extension.extension_type().code() == STAGED_BINDING_EXTENSION_TYPE));

        assert_tbs_mutation_changes_canonical_bytes(&canonical_bytes, &tbs, |value| {
            value.protocol_version ^= 1;
        });
        assert_tbs_mutation_changes_canonical_bytes(&canonical_bytes, &tbs, |value| {
            let other = if value.ciphersuite.code() == 1 { 2 } else { 1 };
            let flipped = Ciphersuite::from_code(other).unwrap();
            value.ciphersuite = flipped;
        });
        assert_tbs_mutation_changes_canonical_bytes(&canonical_bytes, &tbs, |value| {
            value.init_key[0] ^= 1;
        });
        assert_tbs_mutation_changes_canonical_bytes(&canonical_bytes, &tbs, |value| {
            value.leaf_node.encryption_key[0] ^= 1;
        });
        assert_tbs_mutation_changes_canonical_bytes(&canonical_bytes, &tbs, |value| {
            value.leaf_node.signature_key[0] ^= 1;
        });
        assert_tbs_mutation_changes_canonical_bytes(&canonical_bytes, &tbs, |value| {
            value.leaf_node.credential = Credential::basic(b"different credential".to_vec());
        });
        assert_tbs_mutation_changes_canonical_bytes(&canonical_bytes, &tbs, |value| {
            value.leaf_node.capabilities.extensions.push(ExtensionType::Unknown(STAGED_BINDING_EXTENSION_TYPE + 10));
        });
        assert_tbs_mutation_changes_canonical_bytes(&canonical_bytes, &tbs, |value| {
            value.leaf_node.capabilities.versions[0] = 0xffff;
        });
        assert_tbs_mutation_changes_canonical_bytes(&canonical_bytes, &tbs, |value| {
            let alternate_ciphersuite = if ciphersuite == Ciphersuite::MLS_128_DHKEMX25519_AES128GCM_SHA256_Ed25519 {
                Ciphersuite::MLS_128_DHKEMP256_AES128GCM_SHA256_P256
            } else {
                Ciphersuite::MLS_128_DHKEMX25519_AES128GCM_SHA256_Ed25519
            };
            value.leaf_node.capabilities.ciphersuites[0] = alternate_ciphersuite.code();
        });
        assert_tbs_mutation_changes_canonical_bytes(&canonical_bytes, &tbs, |value| {
            // The Add proposal type.
            value.leaf_node.capabilities.proposals.push(1);
        });
        assert_tbs_mutation_changes_canonical_bytes(&canonical_bytes, &tbs, |value| {
            // The X509 credential type.
            value.leaf_node.capabilities.credentials[0] = 2;
        });
        assert_tbs_mutation_changes_canonical_bytes(&canonical_bytes, &tbs, |value| {
            let LeafNodeSource::KeyPackage(lifetime) = &mut value.leaf_node.leaf_node_source else {
                panic!("prepared leaf must have a KeyPackage lifetime");
            };
            lifetime.not_before += 1;
        });
        assert_tbs_mutation_changes_canonical_bytes(&canonical_bytes, &tbs, |value| {
            let LeafNodeSource::KeyPackage(lifetime) = &mut value.leaf_node.leaf_node_source else {
                panic!("prepared leaf must have a KeyPackage lifetime");
            };
            lifetime.not_after += 1;
        });
        assert_tbs_mutation_changes_canonical_bytes(&canonical_bytes, &tbs, |value| {
            value.leaf_node.extensions.push(Extension::unknown(STAGED_LEAF_EXTENSION_TYPE + 10, vec![0x55]));
        });
        assert_tbs_mutation_changes_canonical_bytes(&canonical_bytes, &tbs, |value| {
            value.leaf_node.signature[0] ^= 1;
        });
        assert_tbs_mutation_changes_canonical_bytes(&canonical_bytes, &tbs, |value| {
            value.extensions.push(Extension::unknown(STAGED_TOP_LEVEL_EXTENSION_TYPE + 10, vec![0x66]));
        });
    }
}

/// Binding inserts exactly one designated top-level extension. The final
/// package validates both MLS signatures, and a parsed/validated verifier
/// recomputes the preparation bytes byte-for-byte.
#[test]
fn staged_binding_insertion_signatures_and_verifier_recomputation() {
    for ciphersuite in CIPHERSUITES {
        let mut provider = new_provider();
        let signer = signer_for(ciphersuite);
        let advertised = [
            ExtensionType::Unknown(STAGED_BINDING_EXTENSION_TYPE),
            ExtensionType::Unknown(STAGED_TOP_LEVEL_EXTENSION_TYPE),
            ExtensionType::Unknown(STAGED_LEAF_EXTENSION_TYPE),
            ExtensionType::LastResort,
        ];
        let prepared = KeyPackage::builder()
            .key_package_extensions(single(
                StagedExtensionLocation::KeyPackage,
                Extension::unknown(STAGED_TOP_LEVEL_EXTENSION_TYPE, vec![0xa1]),
            ))
            .leaf_node_capabilities(staged_capabilities(ciphersuite, &advertised))
            .leaf_node_extensions(single(
                StagedExtensionLocation::LeafNode,
                Extension::unknown(STAGED_LEAF_EXTENSION_TYPE, vec![0xb2]),
            ))
            .mark_as_last_resort()
            .prepare(
                ciphersuite,
                &provider,
                &signer,
                credential_with_key(b"bound staged state", &signer),
                STAGED_BINDING_EXTENSION_TYPE,
            )
            .expect("prepare staged KeyPackage");
        let canonical_bytes = prepared.canonical_binding_bytes().to_vec();
        let binding = vec![0xde, 0xad, 0xbe, 0xef];
        let bundle = prepared
            .with_external_binding(binding.clone())
            .expect("insert external binding")
            .finalize(&mut provider, &signer)
            .expect("finalize staged KeyPackage");
        let key_package = bundle.key_package();

        assert_eq!(
            key_package.extensions().as_slice(),
            &[
                Extension::unknown(STAGED_TOP_LEVEL_EXTENSION_TYPE, vec![0xa1]),
                Extension::last_resort(),
                Extension::unknown(STAGED_BINDING_EXTENSION_TYPE, binding.clone()),
            ],
            "binding insertion must retain order and append only the designated extension"
        );
        assert_eq!(
            key_package.leaf_node().extensions().as_slice(),
            &[Extension::unknown(STAGED_LEAF_EXTENSION_TYPE, vec![0xb2])]
        );

        let mut stripped_tbs = key_package.payload.duplicate();
        assert_eq!(
            stripped_tbs.extensions.remove(ExtensionType::Unknown(STAGED_BINDING_EXTENSION_TYPE)),
            Some(Extension::unknown(STAGED_BINDING_EXTENSION_TYPE, binding))
        );
        assert_eq!(
            stripped_tbs.encode().unwrap(),
            canonical_bytes,
            "the final TBS must differ from preparation by exactly the binding extension"
        );

        let wire = key_package.encode().unwrap();
        let validated = KeyPackageIn::tls_deserialize_exact(&wire)
            .expect("parse final KeyPackage")
            .validate(provider.crypto(), ProtocolVersion::Mls10)
            .expect("both leaf and outer KeyPackage signatures verify");
        assert_eq!(
            validated
                .canonical_binding_bytes(STAGED_BINDING_EXTENSION_TYPE)
                .expect("recompute canonical binding bytes from validated parsed object"),
            canonical_bytes
        );

        let franken = key_package.duplicate();
        let mut invalid_leaf_signature = franken.duplicate();
        invalid_leaf_signature.payload.leaf_node.signature[0] ^= 1;
        assert_eq!(
            KeyPackageIn::from(invalid_leaf_signature)
                .validate(provider.crypto(), ProtocolVersion::Mls10)
                .unwrap_err(),
            KeyPackageVerifyError::InvalidLeafNodeSignature
        );

        let mut invalid_outer_signature = franken;
        invalid_outer_signature.signature[0] ^= 1;
        assert_eq!(
            KeyPackageIn::from(invalid_outer_signature)
                .validate(provider.crypto(), ProtocolVersion::Mls10)
                .unwrap_err(),
            KeyPackageVerifyError::InvalidSignature
        );
    }
}

/// Preparation and binding insertion do not write storage. Consuming
/// finalization writes the completed bundle exactly once under its final hash.
#[test]
fn staged_finalization_is_single_use_and_stores_once() {
    let ciphersuite = Ciphersuite::MLS_128_DHKEMX25519_AES128GCM_SHA256_Ed25519;
    let mut provider = new_provider();
    let signer = signer_for(ciphersuite);
    let capabilities = staged_capabilities(ciphersuite, &[ExtensionType::Unknown(STAGED_BINDING_EXTENSION_TYPE)]);
    let initial_entries = provider.storage().len();

    let prepared = KeyPackage::builder()
        .leaf_node_capabilities(capabilities)
        .prepare(
            ciphersuite,
            &provider,
            &signer,
            credential_with_key(b"single use", &signer),
            STAGED_BINDING_EXTENSION_TYPE,
        )
        .expect("prepare staged KeyPackage");
    assert_eq!(provider.storage().len(), initial_entries);

    let bound = prepared.with_external_binding(vec![0x01]).expect("bind staged KeyPackage");
    assert_eq!(provider.storage().len(), initial_entries);

    // `BoundKeyPackage::finalize` consumes `bound`; a second finalization of
    // this state is unrepresentable.
    let bundle = BoundKeyPackage::finalize(bound, &mut provider, &signer)
        .expect("single consuming finalization succeeds");
    assert_eq!(provider.storage().len(), initial_entries + 1);
    let reference = bundle.key_package().hash_ref(provider.crypto()).unwrap();
    let stored = provider.storage().key_package(&reference);
    assert_eq!(stored.expect("final bundle stored").key_package(), bundle.key_package());
}

#[test]
fn staged_signer_credential_and_ciphersuite_mismatches_are_rejected() {
    for ciphersuite in CIPHERSUITES {
        let mut provider = new_provider();
        let signer = signer_for(ciphersuite);
        let other_signer = signer_for(ciphersuite);
        let capabilities = staged_capabilities(ciphersuite, &[ExtensionType::Unknown(STAGED_BINDING_EXTENSION_TYPE)]);

        let error = staging_error(KeyPackage::builder().leaf_node_capabilities(capabilities.duplicate()).prepare(
            ciphersuite,
            &provider,
            &signer,
            credential_with_key(b"wrong credential key", &other_signer),
            STAGED_BINDING_EXTENSION_TYPE,
        ));
        assert!(matches!(error, KeyPackageStagingError::SignerMismatch));

        let mismatched_scheme = if ciphersuite.signature_algorithm() == SignatureScheme::ED25519 {
            SignatureScheme::ECDSA_SECP256R1_SHA256
        } else {
            SignatureScheme::ED25519
        };
        let mismatched_signer = signer_for_scheme(mismatched_scheme);
        let error = staging_error(KeyPackage::builder().leaf_node_capabilities(capabilities.duplicate()).prepare(
            ciphersuite,
            &provider,
            &mismatched_signer,
            credential_with_key(b"wrong ciphersuite signer", &mismatched_signer),
            STAGED_BINDING_EXTENSION_TYPE,
        ));
        assert!(matches!(
            error,
            KeyPackageStagingError::KeyPackageNewError(KeyPackageNewError::CiphersuiteSignatureSchemeMismatch)
        ));

        let prepared = KeyPackage::builder()
            .leaf_node_capabilities(capabilities.duplicate())
            .prepare(
                ciphersuite,
                &provider,
                &signer,
                credential_with_key(b"final signer mismatch", &signer),
                STAGED_BINDING_EXTENSION_TYPE,
            )
            .unwrap();
        let error = staging_error(
            prepared.with_external_binding(vec![0x02]).unwrap().finalize(&mut provider, &other_signer),
        );
        assert!(matches!(error, KeyPackageStagingError::SignerMismatch));

        let prepared = KeyPackage::builder()
            .leaf_node_capabilities(capabilities)
            .prepare(
                ciphersuite,
                &provider,
                &signer,
                credential_with_key(b"final ciphersuite mismatch", &signer),
                STAGED_BINDING_EXTENSION_TYPE,
            )
            .unwrap();
        let error = staging_error(
            prepared.with_external_binding(vec![0x03]).unwrap().finalize(&mut provider, &mismatched_signer),
        );
        assert!(matches!(
            error,
            KeyPackageStagingError::KeyPackageNewError(KeyPackageNewError::CiphersuiteSignatureSchemeMismatch)
        ));
        assert_eq!(provider.storage().len(), 0);
    }
}

#[test]
fn staged_binding_and_extension_malformations_are_rejected() {
    for ciphersuite in CIPHERSUITES {
        let mut provider = new_provider();
        let signer = signer_for(ciphersuite);
        let credential = || credential_with_key(b"staged validation", &signer);

        for invalid_type in [1, 10, 0x0a0a] {
            let error = staging_error(KeyPackage::builder().prepare(
                ciphersuite,
                &provider,
                &signer,
                credential(),
                invalid_type,
            ));
            assert!(matches!(
                error,
                KeyPackageStagingError::InvalidBindingExtensionType(value) if value == invalid_type
            ));
        }

        KeyPackage::builder()
            .leaf_node_capabilities(staged_capabilities(ciphersuite, &[ExtensionType::Unknown(6)]))
            .prepare(ciphersuite, &provider, &signer, credential(), 6)
            .ok()
            .expect("code point 6 is unknown without extensions-draft");

        let advertised_binding = staged_capabilities(ciphersuite, &[ExtensionType::Unknown(STAGED_BINDING_EXTENSION_TYPE)]);
        let error = staging_error(
            KeyPackage::builder()
                .leaf_node_capabilities(advertised_binding.duplicate())
                .key_package_extensions(single(
                    StagedExtensionLocation::KeyPackage,
                    Extension::unknown(STAGED_BINDING_EXTENSION_TYPE, vec![0x01]),
                ))
                .prepare(ciphersuite, &provider, &signer, credential(), STAGED_BINDING_EXTENSION_TYPE),
        );
        assert!(matches!(
            error,
            KeyPackageStagingError::DuplicateBindingExtension(STAGED_BINDING_EXTENSION_TYPE)
        ));

        let error = staging_error(KeyPackage::builder().prepare(
            ciphersuite,
            &provider,
            &signer,
            credential(),
            STAGED_BINDING_EXTENSION_TYPE,
        ));
        assert!(matches!(
            error,
            KeyPackageStagingError::BindingExtensionNotAdvertised(STAGED_BINDING_EXTENSION_TYPE)
        ));

        let prepared = KeyPackage::builder()
            .leaf_node_capabilities(advertised_binding.duplicate())
            .prepare(ciphersuite, &provider, &signer, credential(), STAGED_BINDING_EXTENSION_TYPE)
            .ok()
            .unwrap();
        assert!(matches!(
            staging_error(prepared.with_external_binding(Vec::new())),
            KeyPackageStagingError::EmptyBinding
        ));

        let unbound_bundle = KeyPackage::builder().build(ciphersuite, &mut provider, &signer, credential()).unwrap();
        let unbound_wire = unbound_bundle.key_package().encode().unwrap();
        let unbound = KeyPackageIn::tls_deserialize_exact(&unbound_wire)
            .unwrap()
            .validate(provider.crypto(), ProtocolVersion::Mls10)
            .unwrap();
        assert!(matches!(
            unbound.canonical_binding_bytes(STAGED_BINDING_EXTENSION_TYPE),
            Err(KeyPackageStagingError::MissingBindingExtension(STAGED_BINDING_EXTENSION_TYPE))
        ));
        assert!(matches!(
            unbound.canonical_binding_bytes(10),
            Err(KeyPackageStagingError::InvalidBindingExtensionType(10))
        ));

        let empty_binding_bundle = KeyPackage::builder()
            .leaf_node_capabilities(advertised_binding.duplicate())
            .key_package_extensions(single(
                StagedExtensionLocation::KeyPackage,
                Extension::unknown(STAGED_BINDING_EXTENSION_TYPE, Vec::new()),
            ))
            .build(ciphersuite, &mut provider, &signer, credential())
            .unwrap();
        let empty_binding_wire = empty_binding_bundle.key_package().encode().unwrap();
        let empty_binding = KeyPackageIn::tls_deserialize_exact(&empty_binding_wire)
            .unwrap()
            .validate(provider.crypto(), ProtocolVersion::Mls10)
            .unwrap();
        assert!(matches!(
            empty_binding.canonical_binding_bytes(STAGED_BINDING_EXTENSION_TYPE),
            Err(KeyPackageStagingError::EmptyBinding)
        ));

        let noncanonical_top = single(
            StagedExtensionLocation::KeyPackage,
            Extension::unknown(ExtensionType::LastResort.code(), vec![0x99]),
        );
        let error = staging_error(
            KeyPackage::builder()
                .leaf_node_capabilities(advertised_binding.duplicate())
                .key_package_extensions(noncanonical_top)
                .prepare(ciphersuite, &provider, &signer, credential(), STAGED_BINDING_EXTENSION_TYPE),
        );
        assert!(matches!(
            error,
            KeyPackageStagingError::NonCanonicalExtensionType {
                location: StagedExtensionLocation::KeyPackage,
                extension_type: 10,
            }
        ));

        let duplicated_top = duplicate_first_extension(single(
            StagedExtensionLocation::KeyPackage,
            Extension::unknown(STAGED_TOP_LEVEL_EXTENSION_TYPE, vec![0x77]),
        ));
        let error = staging_error(
            KeyPackage::builder()
                .leaf_node_capabilities(staged_capabilities(
                    ciphersuite,
                    &[
                        ExtensionType::Unknown(STAGED_BINDING_EXTENSION_TYPE),
                        ExtensionType::Unknown(STAGED_TOP_LEVEL_EXTENSION_TYPE),
                    ],
                ))
                .key_package_extensions(duplicated_top)
                .prepare(ciphersuite, &provider, &signer, credential(), STAGED_BINDING_EXTENSION_TYPE),
        );
        assert!(matches!(
            error,
            KeyPackageStagingError::DuplicateExtensionType {
                location: StagedExtensionLocation::KeyPackage,
                extension_type: STAGED_TOP_LEVEL_EXTENSION_TYPE,
            }
        ));

        let invalid_top = Extensions::from_vec_unchecked(vec![Extension::application_id(b"not valid at top level").unwrap()]);
        let error = staging_error(
            KeyPackage::builder()
                .leaf_node_capabilities(advertised_binding.duplicate())
                .key_package_extensions(invalid_top)
                .prepare(ciphersuite, &provider, &signer, credential(), STAGED_BINDING_EXTENSION_TYPE),
        );
        assert!(matches!(
            error,
            KeyPackageStagingError::InvalidExtensionForLocation {
                location: StagedExtensionLocation::KeyPackage,
                extension_type: 1,
            }
        ));

        let noncanonical_leaf = Extensions::from_vec_unchecked(vec![Extension::unknown(
            ExtensionType::ApplicationId.code(),
            vec![0xaa],
        )]);
        let error = staging_error(
            KeyPackage::builder()
                .leaf_node_capabilities(advertised_binding.duplicate())
                .leaf_node_extensions(noncanonical_leaf)
                .prepare(ciphersuite, &provider, &signer, credential(), STAGED_BINDING_EXTENSION_TYPE),
        );
        assert!(matches!(
            error,
            KeyPackageStagingError::NonCanonicalExtensionType {
                location: StagedExtensionLocation::LeafNode,
                extension_type: 1,
            }
        ));

        let duplicated_leaf = duplicate_first_extension(single(
            StagedExtensionLocation::LeafNode,
            Extension::unknown(STAGED_LEAF_EXTENSION_TYPE, vec![0xbb]),
        ));
        let error = staging_error(
            KeyPackage::builder()
                .leaf_node_capabilities(staged_capabilities(
                    ciphersuite,
                    &[
                        ExtensionType::Unknown(STAGED_BINDING_EXTENSION_TYPE),
                        ExtensionType::Unknown(STAGED_LEAF_EXTENSION_TYPE),
                    ],
                ))
                .leaf_node_extensions(duplicated_leaf)
                .prepare(ciphersuite, &provider, &signer, credential(), STAGED_BINDING_EXTENSION_TYPE),
        );
        assert!(matches!(
            error,
            KeyPackageStagingError::DuplicateExtensionType {
                location: StagedExtensionLocation::LeafNode,
                extension_type: STAGED_LEAF_EXTENSION_TYPE,
            }
        ));

        let invalid_leaf = Extensions::from_vec_unchecked(vec![Extension::last_resort()]);
        let error = staging_error(
            KeyPackage::builder()
                .leaf_node_capabilities(advertised_binding.duplicate())
                .leaf_node_extensions(invalid_leaf)
                .prepare(ciphersuite, &provider, &signer, credential(), STAGED_BINDING_EXTENSION_TYPE),
        );
        assert!(matches!(
            error,
            KeyPackageStagingError::InvalidExtensionForLocation {
                location: StagedExtensionLocation::LeafNode,
                extension_type: 10,
            }
        ));

        let prepared = KeyPackage::builder()
            .leaf_node_capabilities(advertised_binding)
            .prepare(ciphersuite, &provider, &signer, credential(), STAGED_BINDING_EXTENSION_TYPE)
            .ok()
            .unwrap();
        let bundle = prepared.with_external_binding(vec![0x88]).ok().unwrap().finalize(&mut provider, &signer).ok().unwrap();
        let mut duplicate_wire = bundle.key_package().duplicate();
        let binding = duplicate_wire
            .payload
            .extensions
            .as_slice()
            .iter()
            .find(|extension| extension.extension_type().code() == STAGED_BINDING_EXTENSION_TYPE)
            .unwrap()
            .duplicate();
        duplicate_wire.payload.extensions.push(binding);
        assert!(
            KeyPackageIn::tls_deserialize_exact(&duplicate_wire.encode().unwrap()).is_err(),
            "normal TLS decoding must reject duplicate numeric binding extensions"
        );
    }
}

#[test]
fn staged_retained_extensions_require_explicit_advertisement() {
    for ciphersuite in CIPHERSUITES {
        let mut provider = new_provider();
        let signer = signer_for(ciphersuite);
        let credential = || credential_with_key(b"extension advertisement", &signer);
        let binding_only = staged_capabilities(ciphersuite, &[ExtensionType::Unknown(STAGED_BINDING_EXTENSION_TYPE)]);

        let error = staging_error(
            KeyPackage::builder()
                .leaf_node_capabilities(binding_only.duplicate())
                .key_package_extensions(single(
                    StagedExtensionLocation::KeyPackage,
                    Extension::unknown(STAGED_TOP_LEVEL_EXTENSION_TYPE, vec![0x01]),
                ))
                .prepare(ciphersuite, &provider, &signer, credential(), STAGED_BINDING_EXTENSION_TYPE),
        );
        assert!(matches!(
            error,
            KeyPackageStagingError::ExtensionNotAdvertised {
                location: StagedExtensionLocation::KeyPackage,
                extension_type: STAGED_TOP_LEVEL_EXTENSION_TYPE,
            }
        ));

        let error = staging_error(
            KeyPackage::builder()
                .leaf_node_capabilities(binding_only.duplicate())
                .leaf_node_extensions(single(
                    StagedExtensionLocation::LeafNode,
                    Extension::unknown(STAGED_LEAF_EXTENSION_TYPE, vec![0x02]),
                ))
                .prepare(ciphersuite, &provider, &signer, credential(), STAGED_BINDING_EXTENSION_TYPE),
        );
        assert!(matches!(
            error,
            KeyPackageStagingError::ExtensionNotAdvertised {
                location: StagedExtensionLocation::LeafNode,
                extension_type: STAGED_LEAF_EXTENSION_TYPE,
            }
        ));

        let error = staging_error(
            KeyPackage::builder()
                .leaf_node_capabilities(binding_only)
                .mark_as_last_resort()
                .prepare(ciphersuite, &provider, &signer, credential(), STAGED_BINDING_EXTENSION_TYPE),
        );
        assert!(matches!(
            error,
            KeyPackageStagingError::ExtensionNotAdvertised {
                location: StagedExtensionLocation::KeyPackage,
                extension_type: 10,
            }
        ));

        let all_advertised = [
            ExtensionType::Unknown(STAGED_BINDING_EXTENSION_TYPE),
            ExtensionType::Unknown(STAGED_TOP_LEVEL_EXTENSION_TYPE),
            ExtensionType::Unknown(STAGED_LEAF_EXTENSION_TYPE),
            ExtensionType::LastResort,
        ];
        let bundle = KeyPackage::builder()
            .leaf_node_capabilities(staged_capabilities(ciphersuite, &all_advertised))
            .key_package_extensions(single(
                StagedExtensionLocation::KeyPackage,
                Extension::unknown(STAGED_TOP_LEVEL_EXTENSION_TYPE, vec![0x03]),
            ))
            .leaf_node_extensions(single(
                StagedExtensionLocation::LeafNode,
                Extension::unknown(STAGED_LEAF_EXTENSION_TYPE, vec![0x04]),
            ))
            .mark_as_last_resort()
            .prepare(ciphersuite, &provider, &signer, credential(), STAGED_BINDING_EXTENSION_TYPE)
            .ok()
            .unwrap()
            .with_external_binding(vec![0x05])
            .ok()
            .unwrap()
            .finalize(&mut provider, &signer)
            .ok()
            .unwrap();
        assert!(bundle.key_package().last_resort());
        assert!(bundle.key_package().extensions().contains(ExtensionType::Unknown(STAGED_TOP_LEVEL_EXTENSION_TYPE)));
        assert!(bundle
            .key_package()
            .leaf_node()
            .extensions()
            .contains(ExtensionType::Unknown(STAGED_LEAF_EXTENSION_TYPE)));
    }
}

/// The existing one-shot builder deliberately keeps its stock acceptance
/// boundary. Staged-only advertisement checks must not leak into `build()`.
#[test]
fn staged_api_preserves_ordinary_build_with_unadvertised_extensions_and_last_resort() {
    for ciphersuite in CIPHERSUITES {
        let mut provider = new_provider();
        let signer = signer_for(ciphersuite);
        let bundle = KeyPackageBuilder::new()
            .key_package_extensions(single(
                StagedExtensionLocation::KeyPackage,
                Extension::unknown(STAGED_TOP_LEVEL_EXTENSION_TYPE, vec![0x10]),
            ))
            .leaf_node_extensions(single(
                StagedExtensionLocation::LeafNode,
                Extension::unknown(STAGED_LEAF_EXTENSION_TYPE, vec![0x20]),
            ))
            .mark_as_last_resort()
            .build(ciphersuite, &mut provider, &signer, credential_with_key(b"ordinary builder", &signer))
            .expect("ordinary build must retain its stock accepted-input behavior");

        assert!(bundle.key_package().last_resort());
        assert!(bundle.key_package().extensions().contains(ExtensionType::Unknown(STAGED_TOP_LEVEL_EXTENSION_TYPE)));
        assert!(bundle
            .key_package()
            .leaf_node()
            .extensions()
            .contains(ExtensionType::Unknown(STAGED_LEAF_EXTENSION_TYPE)));

        let wire = bundle.key_package().encode().unwrap();
        assert_eq!(
            KeyPackageIn::tls_deserialize_exact(&wire)
                .unwrap()
                .validate(provider.crypto(), ProtocolVersion::Mls10)
                .unwrap_err(),
            KeyPackageVerifyError::UnsupportedExtension,
            "normal receive validation, not ordinary build, owns this stock check"
        );
    }
}
