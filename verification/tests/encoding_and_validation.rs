use openmls_basic_credential::SignatureKeyPair;
use openmls_rust_crypto::RustCrypto;
use openmls_traits::crypto::OpenMlsCrypto;
use staged_key_package::builder::{assemble_key_package_tbs, check_ciphersuite_signature_scheme, finish_build, BuilderParts};
use staged_key_package::ciphersuite::{Ciphersuite, SignatureScheme};
use staged_key_package::crypto::{
    encode_labeled_content, key_package_ref_label_bytes, key_package_sign_label_bytes,
    leaf_node_sign_label_bytes, sign_with_label, signer_key, verify_with_label,
};
use staged_key_package::errors::{
    DecodeError, ExtensionTypeNotValidInKeyPackageError, ExtensionTypeNotValidInLeafNodeError,
    InvalidExtensionError, KeyPackageNewError, KeyPackageStagingError, KeyPackageVerifyError,
    StagedExtensionLocation,
};
use staged_key_package::extension_type::{is_grease_value, ExtensionType};
use staged_key_package::extensions::{Extension, Extensions};
use staged_key_package::key_package::{KeyPackage, KeyPackageTbs};
use staged_key_package::key_package_in::{KeyPackageIn, ProtocolVersion};
use staged_key_package::leaf_node::{Capabilities, Credential, CredentialWithKey, LeafNodeSource, Lifetime};
use staged_key_package::staged::finish_finalize;
use staged_key_package::storage::{bytes_equal, KeyPackageStorage, Provider};
use staged_key_package::tls::{encode_u16, encode_u16_vector, encode_u64, encode_vl};

const BINDING: u16 = 0xf042;

fn fresh_provider() -> Provider {
    Provider::new(RustCrypto::default())
}

fn ed25519_signer() -> SignatureKeyPair {
    SignatureKeyPair::new(openmls_traits::types::SignatureScheme::ED25519).unwrap()
}

fn identity(signer: &SignatureKeyPair) -> CredentialWithKey {
    CredentialWithKey { credential: Credential::basic(b"alice".to_vec()), signature_key: signer.to_public_vec() }
}

const SUITE: Ciphersuite = Ciphersuite::MLS_128_DHKEMX25519_AES128GCM_SHA256_Ed25519;

#[test]
fn extension_type_code_points() {
    assert_eq!(ExtensionType::from_code(1), ExtensionType::ApplicationId);
    assert_eq!(ExtensionType::from_code(2), ExtensionType::RatchetTree);
    assert_eq!(ExtensionType::from_code(3), ExtensionType::RequiredCapabilities);
    assert_eq!(ExtensionType::from_code(4), ExtensionType::ExternalPub);
    assert_eq!(ExtensionType::from_code(5), ExtensionType::ExternalSenders);
    assert_eq!(ExtensionType::from_code(10), ExtensionType::LastResort);
    assert_eq!(ExtensionType::from_code(6), ExtensionType::Unknown(6));
    assert_eq!(ExtensionType::from_code(0x0a0a), ExtensionType::Grease(0x0a0a));
    assert_eq!(ExtensionType::from_code(0xeaea), ExtensionType::Grease(0xeaea));
    assert_eq!(ExtensionType::from_code(0xfafa), ExtensionType::Unknown(0xfafa));
    assert_eq!(ExtensionType::from_code(BINDING), ExtensionType::Unknown(BINDING));
    for code in [1u16, 2, 3, 4, 5, 6, 10, 0x0a0a, 0x1a1a, 0xf042, 0xffff] {
        assert_eq!(ExtensionType::from_code(code).code(), code);
        assert!(ExtensionType::from_code(code).is_canonical());
    }
    assert!(!ExtensionType::Unknown(1).is_canonical());
    assert!(!ExtensionType::Unknown(0x0a0a).is_canonical());
    assert!(!ExtensionType::Grease(0x0a0b).is_canonical());
}

#[test]
fn grease_values() {
    assert!(is_grease_value(0x0a0a));
    assert!(is_grease_value(0x1a1a));
    assert!(is_grease_value(0xeaea));
    assert!(!is_grease_value(0xfafa));
    assert!(!is_grease_value(0x0a0b));
    assert!(!is_grease_value(0));
}

#[test]
fn extension_type_locations() {
    assert!(ExtensionType::ApplicationId.is_valid_in_leaf_node());
    assert!(!ExtensionType::ApplicationId.is_valid_in_key_package());
    assert!(ExtensionType::LastResort.is_valid_in_key_package());
    assert!(!ExtensionType::LastResort.is_valid_in_leaf_node());
    assert!(ExtensionType::Unknown(BINDING).is_valid_in_key_package());
    assert!(ExtensionType::Unknown(BINDING).is_valid_in_leaf_node());
    assert!(!ExtensionType::ExternalSenders.is_valid_in_leaf_node());
    assert!(ExtensionType::ExternalSenders.is_default());
    assert!(!ExtensionType::LastResort.is_default());
}

#[test]
fn ciphersuite_codes_and_schemes() {
    for code in 1u16..=7 {
        let cs = Ciphersuite::from_code(code).unwrap();
        assert_eq!(cs.code(), code);
    }
    assert!(Ciphersuite::from_code(0).is_none());
    assert!(Ciphersuite::from_code(8).is_none());
    assert_eq!(SUITE.signature_algorithm(), SignatureScheme::ED25519);
    assert_eq!(
        Ciphersuite::MLS_128_DHKEMP256_AES128GCM_SHA256_P256.signature_algorithm(),
        SignatureScheme::ECDSA_SECP256R1_SHA256
    );
    assert_eq!(SUITE.hash_length(), 32);
    assert_eq!(Ciphersuite::MLS_256_DHKEMP521_AES256GCM_SHA512_P521.hash_length(), 64);
    assert_eq!(SignatureScheme::ED25519.code(), 0x0807);
    assert_eq!(SignatureScheme::ECDSA_SECP256R1_SHA256.code(), 0x0403);
    assert_eq!(ProtocolVersion::Mls10.code(), 1);
    assert_eq!(ProtocolVersion::Other(7).code(), 7);
}

#[test]
fn ciphersuite_signature_scheme_check() {
    assert_eq!(check_ciphersuite_signature_scheme(SUITE, SignatureScheme::ED25519), Ok(()));
    assert_eq!(
        check_ciphersuite_signature_scheme(SUITE, SignatureScheme::ECDSA_SECP256R1_SHA256),
        Err(KeyPackageNewError::CiphersuiteSignatureSchemeMismatch)
    );
}

#[test]
fn variable_length_prefix_boundaries() {
    let v = encode_vl(&[]).unwrap();
    assert_eq!(v, vec![0]);
    let v = encode_vl(&[7u8; 63]).unwrap();
    assert_eq!(v[0], 63);
    assert_eq!(v.len(), 64);
    let v = encode_vl(&[7u8; 64]).unwrap();
    assert_eq!(&v[..2], &[0x40, 0x40]);
    assert_eq!(v.len(), 66);
    let v = encode_vl(&vec![7u8; 16383]).unwrap();
    assert_eq!(&v[..2], &[0x7f, 0xff]);
    assert_eq!(v.len(), 16385);
    let v = encode_vl(&vec![7u8; 16384]).unwrap();
    assert_eq!(&v[..4], &[0x80, 0x00, 0x40, 0x00]);
    assert_eq!(v.len(), 16388);
    assert_eq!(&v[4..], vec![7u8; 16384].as_slice());
}

#[test]
fn fixed_width_encodings() {
    assert_eq!(encode_u16(0xf042), vec![0xf0, 0x42]);
    assert_eq!(encode_u64(0x0102_0304_0506_0708), vec![1, 2, 3, 4, 5, 6, 7, 8]);
    assert_eq!(encode_u16_vector(&[1, 0x0203]).unwrap(), vec![4, 0, 1, 2, 3]);
    assert_eq!(Lifetime::new(1, 2).encode(), vec![0, 0, 0, 0, 0, 0, 0, 1, 0, 0, 0, 0, 0, 0, 0, 2]);
}

#[test]
fn structure_encodings() {
    let e = Extension::unknown(BINDING, vec![1, 2]);
    assert_eq!(e.encode().unwrap(), vec![0xf0, 0x42, 2, 1, 2]);
    assert_eq!(Extension::last_resort().encode().unwrap(), vec![0, 10, 0]);
    let list = Extensions::from_vec(StagedExtensionLocation::KeyPackage, vec![Extension::last_resort(), e]).unwrap();
    assert_eq!(list.encode().unwrap(), vec![8, 0, 10, 0, 0xf0, 0x42, 2, 1, 2]);
    assert_eq!(Credential::basic(b"ab".to_vec()).encode().unwrap(), vec![0, 1, 2, b'a', b'b']);
    let defaults = Capabilities::new(None, None, None, None, None);
    assert_eq!(defaults.versions, vec![1]);
    assert_eq!(defaults.ciphersuites, vec![1, 2, 3]);
    assert_eq!(defaults.credentials, vec![1]);
    assert_eq!(defaults.encode().unwrap(), vec![2, 0, 1, 6, 0, 1, 0, 2, 0, 3, 0, 0, 2, 0, 1]);
    let caps = Capabilities::new(Some(&[1]), Some(&[SUITE]), Some(&[ExtensionType::Unknown(BINDING)]), Some(&[]), Some(&[1]));
    assert_eq!(caps.encode().unwrap(), vec![2, 0, 1, 2, 0, 1, 2, 0xf0, 0x42, 0, 2, 0, 1]);
    assert!(caps.contains_extension(ExtensionType::Unknown(BINDING)));
    assert!(!caps.contains_extension(ExtensionType::LastResort));
    let source = LeafNodeSource::KeyPackage(Lifetime::new(3, 4));
    assert_eq!(source.encode().unwrap(), vec![1, 0, 0, 0, 0, 0, 0, 0, 3, 0, 0, 0, 0, 0, 0, 0, 4]);
    assert_eq!(LeafNodeSource::Update.encode().unwrap(), vec![2]);
    assert_eq!(LeafNodeSource::Commit(vec![9]).encode().unwrap(), vec![3, 1, 9]);
}

#[test]
fn extension_list_errors() {
    assert_eq!(
        Extensions::from_vec(
            StagedExtensionLocation::KeyPackage,
            vec![Extension::unknown(BINDING, vec![]), Extension::unknown(BINDING, vec![1])],
        ),
        Err(InvalidExtensionError::Duplicate)
    );
    assert_eq!(
        Extensions::from_vec(StagedExtensionLocation::LeafNode, vec![Extension::last_resort()]),
        Err(InvalidExtensionError::ExtensionTypeNotValidInLeafNode(ExtensionTypeNotValidInLeafNodeError(
            ExtensionType::LastResort
        )))
    );
    assert_eq!(
        Extensions::from_vec(StagedExtensionLocation::KeyPackage, vec![Extension::application_id(b"x").unwrap()]),
        Err(InvalidExtensionError::ExtensionTypeNotValidInKeyPackage(ExtensionTypeNotValidInKeyPackageError(
            ExtensionType::ApplicationId
        )))
    );
    // The first offending entry decides.
    assert_eq!(
        Extensions::from_vec(
            StagedExtensionLocation::KeyPackage,
            vec![
                Extension::last_resort(),
                Extension::last_resort(),
                Extension::application_id(b"x").unwrap(),
            ],
        ),
        Err(InvalidExtensionError::Duplicate)
    );
    let mut list = Extensions::from_vec(
        StagedExtensionLocation::KeyPackage,
        vec![Extension::last_resort(), Extension::unknown(BINDING, vec![5])],
    )
    .unwrap();
    assert_eq!(list.len(), 2);
    assert_eq!(list.position(ExtensionType::Unknown(BINDING)), Some(1));
    assert_eq!(list.remove(ExtensionType::LastResort), Some(Extension::last_resort()));
    assert_eq!(list.remove(ExtensionType::LastResort), None);
    list.add_or_replace(Extension::unknown(BINDING, vec![6]));
    assert_eq!(list.as_slice(), &[Extension::unknown(BINDING, vec![6])]);
}

#[test]
fn labeled_signatures_round_trip() {
    let crypto = RustCrypto::default();
    let signer = ed25519_signer();
    let label = leaf_node_sign_label_bytes();
    assert_eq!(label, b"MLS 1.0 LeafNodeTBS".to_vec());
    assert_eq!(key_package_sign_label_bytes(), b"MLS 1.0 KeyPackageTBS".to_vec());
    assert_eq!(key_package_ref_label_bytes(), b"MLS 1.0 KeyPackage Reference".to_vec());
    let content = b"content".to_vec();
    assert_eq!(
        encode_labeled_content(b"ab", b"c").unwrap(),
        vec![2, b'a', b'b', 1, b'c']
    );
    let key = signer_key(&signer).unwrap();
    assert_eq!(key.public_key, signer.to_public_vec());
    assert_eq!(key.scheme, SignatureScheme::ED25519);
    assert_eq!(key.private_key.len(), 32);
    let signature = sign_with_label(&key, &label, &content).unwrap();
    // Signing is deterministic.
    assert_eq!(sign_with_label(&key, &label, &content).unwrap(), signature);
    let pk = signer.to_public_vec();
    assert!(verify_with_label(&crypto, SignatureScheme::ED25519, &label, &content, &pk, &signature));
    assert!(!verify_with_label(&crypto, SignatureScheme::ED25519, &label, b"other", &pk, &signature));
    let mut tampered = signature.clone();
    tampered[0] ^= 1;
    assert!(!verify_with_label(&crypto, SignatureScheme::ED25519, &label, &content, &pk, &tampered));
    assert!(!verify_with_label(&crypto, SignatureScheme::ECDSA_SECP256R1_SHA256, &label, &content, &pk, &signature));
}

#[test]
fn hash_reference_is_the_labeled_digest() {
    let mut provider = fresh_provider();
    let signer = ed25519_signer();
    let bundle = KeyPackage::builder().build(SUITE, &mut provider, &signer, identity(&signer)).unwrap();
    let encoded = bundle.key_package().encode().unwrap();
    let input = encode_labeled_content(b"MLS 1.0 KeyPackage Reference", &encoded).unwrap();
    let expected = RustCrypto::default()
        .hash(openmls_traits::types::HashType::Sha2_256, &input)
        .unwrap();
    let reference = bundle.key_package().hash_ref(provider.crypto()).unwrap();
    assert_eq!(reference, expected);
    assert_eq!(reference.len(), 32);
    assert_ne!(reference, encoded);
}

#[test]
fn built_key_package_shape() {
    let mut provider = fresh_provider();
    let signer = ed25519_signer();
    let bundle = KeyPackage::builder().build(SUITE, &mut provider, &signer, identity(&signer)).unwrap();
    let kp = bundle.key_package();
    assert_eq!(kp.protocol_version(), 1);
    assert_eq!(kp.ciphersuite(), SUITE);
    assert_eq!(kp.init_key().len(), 32);
    assert_eq!(kp.leaf_node().encryption_key().len(), 32);
    assert_ne!(kp.init_key(), kp.leaf_node().encryption_key());
    assert_eq!(kp.leaf_node().signature_key(), signer.to_public_vec().as_slice());
    assert!(!kp.last_resort());
    assert_eq!(kp.extensions().len(), 0);
    assert_eq!(kp.leaf_node().capabilities().ciphersuites, vec![1, 2, 3]);
    match kp.leaf_node().leaf_node_source {
        LeafNodeSource::KeyPackage(lifetime) => {
            let now = std::time::SystemTime::now()
                .duration_since(std::time::UNIX_EPOCH)
                .unwrap()
                .as_secs();
            assert!(lifetime.not_before <= now && now <= lifetime.not_after);
        }
        _ => panic!("a KeyPackage leaf carries its lifetime"),
    }
    // The private keys open what is sealed to the public keys.
    let suite = openmls_traits::types::Ciphersuite::MLS_128_DHKEMX25519_AES128GCM_SHA256_Ed25519;
    let crypto = RustCrypto::default();
    let sealed = crypto.hpke_seal(suite.hpke_config(), kp.init_key(), b"info", b"aad", b"secret").unwrap();
    let opened = crypto.hpke_open(suite.hpke_config(), &sealed, bundle.init_private_key(), b"info", b"aad").unwrap();
    assert_eq!(opened, b"secret".to_vec());
    let sealed = crypto.hpke_seal(suite.hpke_config(), kp.leaf_node().encryption_key(), b"info", b"aad", b"leaf").unwrap();
    let opened = crypto.hpke_open(suite.hpke_config(), &sealed, bundle.encryption_private_key(), b"info", b"aad").unwrap();
    assert_eq!(opened, b"leaf".to_vec());
    // A copy of the bundle carries the same keys.
    let copy = bundle.duplicate();
    assert_eq!(copy.init_private_key(), bundle.init_private_key());
    assert_eq!(copy.encryption_private_key(), bundle.encryption_private_key());
    assert_ne!(bundle.init_private_key(), bundle.encryption_private_key());
    assert_eq!(copy.key_package(), bundle.key_package());
    // Two builds draw fresh keys.
    let other = KeyPackage::builder().build(SUITE, &mut provider, &signer, identity(&signer)).unwrap();
    assert_ne!(other.key_package().init_key(), kp.init_key());
    assert_eq!(provider.storage().len(), 2);
}

#[test]
fn decoding_errors() {
    assert_eq!(KeyPackageIn::tls_deserialize_exact(&[]).err(), Some(DecodeError::Malformed));
    let mut provider = fresh_provider();
    let signer = ed25519_signer();
    let bundle = KeyPackage::builder().build(SUITE, &mut provider, &signer, identity(&signer)).unwrap();
    let mut wire = bundle.key_package().encode().unwrap();
    let decoded = KeyPackageIn::tls_deserialize_exact(&wire).unwrap();
    assert_eq!(decoded, KeyPackageIn::from(bundle.key_package().duplicate()));
    assert_eq!(decoded.payload.encode().unwrap(), bundle.key_package().payload.encode().unwrap());
    wire.push(0);
    assert_eq!(KeyPackageIn::tls_deserialize_exact(&wire).err(), Some(DecodeError::TrailingData));
    wire.pop();
    wire.pop();
    assert_eq!(KeyPackageIn::tls_deserialize_exact(&wire).err(), Some(DecodeError::Malformed));
    // An unknown ciphersuite code point does not decode.
    let mut bad_suite = bundle.key_package().encode().unwrap();
    bad_suite[3] = 9;
    assert_eq!(KeyPackageIn::tls_deserialize_exact(&bad_suite).err(), Some(DecodeError::Malformed));
    // A non-minimal length prefix does not decode: the TBS alone, with its
    // init key length re-encoded in two bytes.
    let tbs = bundle.key_package().payload.encode().unwrap();
    assert_eq!(KeyPackageTbs::tls_deserialize_exact(&tbs).unwrap(), bundle.key_package().payload);
    assert_eq!(tbs[4], 32);
    let mut long_prefix = tbs[..4].to_vec();
    long_prefix.extend_from_slice(&[0x40, 32]);
    long_prefix.extend_from_slice(&tbs[5..]);
    assert_eq!(KeyPackageTbs::tls_deserialize_exact(&long_prefix).err(), Some(DecodeError::Malformed));
}

#[test]
fn validation_errors_in_order() {
    let mut provider = fresh_provider();
    let signer = ed25519_signer();
    let bundle = KeyPackage::builder().build(SUITE, &mut provider, &signer, identity(&signer)).unwrap();
    let crypto = provider.crypto();
    let good = bundle.key_package();
    assert_eq!(KeyPackageIn::from(good.duplicate()).validate(crypto, ProtocolVersion::Mls10).unwrap(), *good);

    // Another protocol version.
    assert_eq!(
        KeyPackageIn::from(good.duplicate()).validate(crypto, ProtocolVersion::Other(2)).unwrap_err(),
        KeyPackageVerifyError::InvalidProtocolVersion
    );

    // Another leaf source comes first, before any signature.
    let mut update = good.duplicate();
    update.payload.leaf_node.leaf_node_source = LeafNodeSource::Update;
    update.payload.protocol_version = 7;
    assert_eq!(
        KeyPackageIn::from(update).validate(crypto, ProtocolVersion::Mls10).unwrap_err(),
        KeyPackageVerifyError::InvalidLeafNodeSourceType
    );

    // A broken leaf signature comes before the protocol version.
    let mut both = good.duplicate();
    both.payload.leaf_node.signature[1] ^= 1;
    both.payload.protocol_version = 7;
    assert_eq!(
        KeyPackageIn::from(both).validate(crypto, ProtocolVersion::Mls10).unwrap_err(),
        KeyPackageVerifyError::InvalidLeafNodeSignature
    );

    // An unadvertised top-level extension, validly signed.
    let unadvertised = KeyPackage::builder()
        .key_package_extensions(
            Extensions::single(StagedExtensionLocation::KeyPackage, Extension::unknown(BINDING, vec![1])).unwrap(),
        )
        .build(SUITE, &mut provider, &signer, identity(&signer))
        .unwrap();
    assert_eq!(
        KeyPackageIn::from(unadvertised.key_package().duplicate())
            .validate(provider.crypto(), ProtocolVersion::Mls10)
            .unwrap_err(),
        KeyPackageVerifyError::UnsupportedExtension
    );

    // A default extension type needs no advertisement, but an application id
    // may not stand at the top level; it is also refused by decoding.
    let misplaced = KeyPackage::builder()
        .key_package_extensions(Extensions::from_vec_unchecked(vec![Extension::application_id(b"id").unwrap()]))
        .build(SUITE, &mut provider, &signer, identity(&signer))
        .unwrap();
    assert_eq!(
        KeyPackageIn::from(misplaced.key_package().duplicate())
            .validate(provider.crypto(), ProtocolVersion::Mls10)
            .unwrap_err(),
        KeyPackageVerifyError::ExtensionTypeNotValidInKeyPackage(ExtensionTypeNotValidInKeyPackageError(
            ExtensionType::ApplicationId
        ))
    );
    assert_eq!(
        KeyPackageIn::tls_deserialize_exact(&misplaced.key_package().encode().unwrap()).err(),
        Some(DecodeError::Malformed)
    );
}

#[test]
fn storage_reads_what_was_written() {
    let mut provider = fresh_provider();
    let signer = ed25519_signer();
    let bundle = KeyPackage::builder().build(SUITE, &mut provider, &signer, identity(&signer)).unwrap();
    let reference = bundle.key_package().hash_ref(provider.crypto()).unwrap();
    let mut storage = KeyPackageStorage::new();
    assert_eq!(storage.len(), 0);
    assert!(storage.key_package(&reference).is_none());
    storage.write_key_package(reference.clone(), bundle.duplicate());
    assert_eq!(storage.len(), 1);
    assert_eq!(storage.key_package(&reference).unwrap().key_package(), bundle.key_package());
    // Writing under the same reference replaces the entry.
    storage.write_key_package(reference.clone(), bundle.duplicate());
    assert_eq!(storage.len(), 1);
    storage.write_key_package(vec![1, 2, 3], bundle.duplicate());
    assert_eq!(storage.len(), 2);
    assert!(storage.key_package(&[1, 2]).is_none());
    // The provider's own storage holds the built bundle under its reference.
    assert_eq!(provider.storage().key_package(&reference).unwrap().key_package(), bundle.key_package());
    assert!(bytes_equal(&[1, 2], &[1, 2]));
    assert!(!bytes_equal(&[1, 2], &[1, 3]));
    assert!(!bytes_equal(&[1, 2], &[1]));
}

#[test]
fn staged_binding_law_on_concrete_values() {
    let mut provider = fresh_provider();
    let signer = ed25519_signer();
    let prepared = KeyPackage::builder()
        .leaf_node_capabilities(Capabilities::new(None, None, Some(&[ExtensionType::Unknown(BINDING)]), None, None))
        .prepare(SUITE, &provider, &signer, identity(&signer), BINDING)
        .ok()
        .unwrap();
    let canonical = prepared.canonical_binding_bytes().to_vec();
    // The canonical bytes are the KeyPackageTBS without any binding.
    let tbs = KeyPackageTbs::tls_deserialize_exact(&canonical).unwrap();
    assert_eq!(tbs.extensions.len(), 0);
    let bundle = prepared
        .with_external_binding(vec![0xaa; 70])
        .ok()
        .unwrap()
        .finalize(&mut provider, &signer)
        .ok()
        .unwrap();
    let kp = bundle.key_package();
    assert_eq!(kp.extensions().as_slice(), &[Extension::unknown(BINDING, vec![0xaa; 70])]);
    assert_eq!(kp.canonical_binding_bytes(BINDING).unwrap(), canonical);
    assert_eq!(
        kp.canonical_binding_bytes(0x0a0a),
        Err(KeyPackageStagingError::InvalidBindingExtensionType(0x0a0a))
    );
    assert_eq!(
        kp.canonical_binding_bytes(0xf043),
        Err(KeyPackageStagingError::MissingBindingExtension(0xf043))
    );
    let wire = kp.encode().unwrap();
    let validated = KeyPackageIn::tls_deserialize_exact(&wire)
        .unwrap()
        .validate(provider.crypto(), ProtocolVersion::Mls10)
        .unwrap();
    assert_eq!(validated, *kp);
    let reference = kp.hash_ref(provider.crypto()).unwrap();
    assert_eq!(provider.storage().key_package(&reference).unwrap().key_package(), kp);
    assert_eq!(provider.storage().len(), 1);
}

#[test]
fn staging_error_wraps_creation_errors() {
    assert_eq!(
        KeyPackageStagingError::from_new_error(KeyPackageNewError::StorageError),
        KeyPackageStagingError::KeyPackageNewError(KeyPackageNewError::StorageError)
    );
}

#[test]
fn staged_prepare_rejects_unsupported_ciphersuite() {
    let cs = Ciphersuite::MLS_256_DHKEMP384_AES256GCM_SHA384_P384;
    let provider = fresh_provider();
    let signer = SignatureKeyPair::new(openmls_traits::types::SignatureScheme::ECDSA_SECP384R1_SHA384).unwrap();
    let result = KeyPackage::builder()
        .leaf_node_capabilities(Capabilities::new(None, None, Some(&[ExtensionType::Unknown(BINDING)]), None, None))
        .prepare(cs, &provider, &signer, identity(&signer), BINDING);
    assert!(matches!(
        result,
        Err(KeyPackageStagingError::KeyPackageNewError(KeyPackageNewError::UnsupportedCiphersuite(c))) if c == cs
    ));
}

#[test]
fn signer_with_malformed_ecdsa_key_fails_without_panic() {
    let good = SignatureKeyPair::new(openmls_traits::types::SignatureScheme::ECDSA_SECP256R1_SHA256).unwrap();
    let bad = SignatureKeyPair::from_raw(
        openmls_traits::types::SignatureScheme::ECDSA_SECP256R1_SHA256,
        vec![1u8; 5],
        good.to_public_vec(),
    );
    let suite = Ciphersuite::MLS_128_DHKEMP256_AES128GCM_SHA256_P256;
    let mut provider = fresh_provider();
    let result = KeyPackage::builder().build(suite, &mut provider, &bad, identity(&bad));
    assert!(matches!(result, Err(KeyPackageNewError::SignatureError(_))));
    assert_eq!(provider.storage().len(), 0);
    let prepared = KeyPackage::builder()
        .leaf_node_capabilities(Capabilities::new(None, None, Some(&[ExtensionType::Unknown(BINDING)]), None, None))
        .prepare(suite, &provider, &bad, identity(&bad), BINDING);
    assert!(matches!(
        prepared,
        Err(KeyPackageStagingError::KeyPackageNewError(KeyPackageNewError::SignatureError(_)))
    ));
    let key = signer_key(&bad).unwrap();
    assert_eq!(key.private_key, vec![1u8; 5]);
    assert!(sign_with_label(&key, b"label", b"content").is_none());
    // A P-384 key of the P-256 length fails likewise.
    let bad384 = SignatureKeyPair::from_raw(
        openmls_traits::types::SignatureScheme::ECDSA_SECP384R1_SHA384,
        vec![1u8; 32],
        vec![],
    );
    assert!(sign_with_label(&signer_key(&bad384).unwrap(), b"label", b"content").is_none());
}

#[test]
fn finalization_steps_with_explicit_signatures() {
    let mut provider = fresh_provider();
    let signer = ed25519_signer();
    let bundle = KeyPackage::builder().build(SUITE, &mut provider, &signer, identity(&signer)).unwrap();
    let kp = bundle.key_package();
    // A broken signature is a signer mismatch and stores nothing.
    let mut broken = kp.signature.clone();
    broken[0] ^= 1;
    let mut fresh = fresh_provider();
    let result = finish_finalize(
        &mut fresh,
        kp.payload.duplicate(),
        broken,
        bundle.init_private_key().to_vec(),
        bundle.encryption_private_key().to_vec(),
    );
    assert!(matches!(result, Err(KeyPackageStagingError::SignerMismatch)));
    assert_eq!(fresh.storage().len(), 0);
    // The valid signature stores the bundle under its reference.
    let stored = finish_finalize(
        &mut fresh,
        kp.payload.duplicate(),
        kp.signature.clone(),
        bundle.init_private_key().to_vec(),
        bundle.encryption_private_key().to_vec(),
    )
    .ok()
    .unwrap();
    assert_eq!(stored.key_package(), kp);
    assert_eq!(fresh.storage().len(), 1);
}

#[test]
fn prepared_keys_open_what_is_sealed_to_the_final_package() {
    let mut provider = fresh_provider();
    let signer = ed25519_signer();
    let bundle = KeyPackage::builder()
        .leaf_node_capabilities(Capabilities::new(None, None, Some(&[ExtensionType::Unknown(BINDING)]), None, None))
        .prepare(SUITE, &provider, &signer, identity(&signer), BINDING)
        .ok()
        .unwrap()
        .with_external_binding(vec![1])
        .ok()
        .unwrap()
        .finalize(&mut provider, &signer)
        .ok()
        .unwrap();
    let suite = openmls_traits::types::Ciphersuite::MLS_128_DHKEMX25519_AES128GCM_SHA256_Ed25519;
    let crypto = RustCrypto::default();
    let kp = bundle.key_package();
    let sealed = crypto.hpke_seal(suite.hpke_config(), kp.init_key(), b"i", b"a", b"init").unwrap();
    assert_eq!(crypto.hpke_open(suite.hpke_config(), &sealed, bundle.init_private_key(), b"i", b"a").unwrap(), b"init".to_vec());
    let sealed = crypto.hpke_seal(suite.hpke_config(), kp.leaf_node().encryption_key(), b"i", b"a", b"enc").unwrap();
    assert_eq!(
        crypto.hpke_open(suite.hpke_config(), &sealed, bundle.encryption_private_key(), b"i", b"a").unwrap(),
        b"enc".to_vec()
    );
}

#[test]
fn advertised_extension_lookup() {
    let caps = Capabilities::new(
        None,
        None,
        Some(&[ExtensionType::LastResort, ExtensionType::Unknown(BINDING), ExtensionType::Unknown(1)]),
        None,
        None,
    );
    let advertised = caps.advertised_extensions();
    assert!(advertised.contains(ExtensionType::LastResort));
    assert!(advertised.contains(ExtensionType::Unknown(BINDING)));
    // A non-canonical type is found only as itself.
    assert!(advertised.contains(ExtensionType::Unknown(1)));
    assert!(!advertised.contains(ExtensionType::ApplicationId));
    assert!(!advertised.contains(ExtensionType::Unknown(10)));
    assert!(!advertised.contains(ExtensionType::Unknown(0xf043)));
}

#[test]
fn given_key_pairs_are_assembled_and_stored_with_their_private_keys() {
    let signer = ed25519_signer();
    let key = signer_key(&signer).unwrap();
    let parts = BuilderParts {
        lifetime: Lifetime::from_now(1_000_000),
        key_package_extensions: Extensions::empty(),
        capabilities: Capabilities::default(),
        leaf_extensions: Extensions::empty(),
    };
    let (tbs, init_private, encryption_private) = assemble_key_package_tbs(
        SUITE,
        &key,
        identity(&signer),
        parts,
        (vec![1u8; 32], vec![2u8; 32]),
        (vec![3u8; 32], vec![4u8; 32]),
    )
    .ok()
    .unwrap();
    assert_eq!(tbs.init_key, vec![2u8; 32]);
    assert_eq!(tbs.leaf_node.encryption_key, vec![4u8; 32]);
    assert_eq!(tbs.leaf_node.signature_key, signer.to_public_vec());
    assert_eq!(init_private, vec![1u8; 32]);
    assert_eq!(encryption_private, vec![3u8; 32]);
    assert!(!tbs.leaf_node.signature.is_empty());
    let mut provider = fresh_provider();
    let bundle = finish_build(&mut provider, &key, tbs, init_private, encryption_private).ok().unwrap();
    assert_eq!(provider.storage().len(), 1);
    let hash = bundle.key_package().hash_ref(provider.crypto()).ok().unwrap();
    let stored = provider.storage().key_package(&hash).unwrap();
    assert_eq!(stored.key_package(), bundle.key_package());
    assert_eq!(stored.init_private_key(), &[1u8; 32][..]);
    assert_eq!(stored.encryption_private_key(), &[3u8; 32][..]);
}

#[test]
fn recomputation_on_a_package_reports_no_encoding_error() {
    let mut provider = fresh_provider();
    let signer = ed25519_signer();
    let bundle = KeyPackage::builder().build(SUITE, &mut provider, &signer, identity(&signer)).unwrap();
    let kp = bundle.key_package();
    assert_eq!(kp.canonical_binding_bytes(BINDING), Err(KeyPackageStagingError::MissingBindingExtension(BINDING)));
    assert_eq!(kp.canonical_binding_bytes(1), Err(KeyPackageStagingError::InvalidBindingExtensionType(1)));
}
