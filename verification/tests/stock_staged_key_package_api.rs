//! The public staged KeyPackage API, used from outside the library.

use openmls_basic_credential::SignatureKeyPair;
use openmls_rust_crypto::RustCrypto;
use staged_key_package::ciphersuite::Ciphersuite;
use staged_key_package::extension_type::ExtensionType;
use staged_key_package::key_package::KeyPackage;
use staged_key_package::key_package_in::{KeyPackageIn, ProtocolVersion};
use staged_key_package::leaf_node::{Capabilities, Credential, CredentialWithKey};
use staged_key_package::staged::{BoundKeyPackage, PreparedKeyPackage};
use staged_key_package::storage::Provider;

const BINDING_EXTENSION_TYPE: u16 = 0xf042;

#[test]
fn stock_api_cannot_stage_key_package_external_binding() {
    for ciphersuite in [
        Ciphersuite::MLS_128_DHKEMX25519_AES128GCM_SHA256_Ed25519,
        Ciphersuite::MLS_128_DHKEMP256_AES128GCM_SHA256_P256,
        Ciphersuite::MLS_128_DHKEMX25519_CHACHA20POLY1305_SHA256_Ed25519,
    ] {
        let mut provider = Provider::new(RustCrypto::default());
        let scheme = openmls_traits::types::SignatureScheme::try_from(ciphersuite.signature_algorithm().code()).unwrap();
        let signer = SignatureKeyPair::new(scheme).expect("generate signature key pair");
        let credential_with_key = CredentialWithKey {
            credential: Credential::basic(b"staged key package".to_vec()),
            signature_key: signer.to_public_vec(),
        };
        let capabilities =
            Capabilities::new(None, None, Some(&[ExtensionType::Unknown(BINDING_EXTENSION_TYPE)]), None, None);

        let prepared: PreparedKeyPackage = KeyPackage::builder()
            .leaf_node_capabilities(capabilities)
            .prepare(ciphersuite, &provider, &signer, credential_with_key, BINDING_EXTENSION_TYPE)
            .expect("prepare and freeze public KeyPackage material");

        let canonical_bytes = PreparedKeyPackage::canonical_binding_bytes(&prepared).to_vec();
        let external_binding = canonical_bytes.clone();
        let bound: BoundKeyPackage = PreparedKeyPackage::with_external_binding(prepared, external_binding)
            .expect("insert the externally produced binding");
        let bundle = BoundKeyPackage::finalize(bound, &mut provider, &signer)
            .expect("sign and store the bound KeyPackage");

        let serialized_key_package = bundle.key_package().encode().expect("serialize the finalized KeyPackage");
        let validated_key_package = KeyPackageIn::tls_deserialize_exact(&serialized_key_package)
            .expect("TLS-parse the finalized KeyPackage")
            .validate(provider.crypto(), ProtocolVersion::Mls10)
            .expect("validate both MLS signatures on the finalized KeyPackage");
        let recomputed_canonical_bytes =
            KeyPackage::canonical_binding_bytes(&validated_key_package, BINDING_EXTENSION_TYPE)
                .expect("recompute canonical binding bytes from the validated KeyPackage");

        assert_eq!(recomputed_canonical_bytes, canonical_bytes);
    }
}
