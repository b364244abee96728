//! The staged state machine: a prepared KeyPackage with frozen canonical
//! binding bytes, a bound KeyPackage carrying the external binding, and its
//! finalization into a signed and stored bundle.

use vstd::prelude::*;

use crate::builder::{
    builder_staged_validation, check_ciphersuite_signature_scheme, fresh_tbs,
    is_post_validation_error, key_package_signature_valid, leaf_signature_valid,
    signer_and_provider_check, assemble_key_package_tbs, assembled_tbs, effective_parts,
    lifetime_allowed, unsigned_leaf, BuilderParts, KeyPackageBuilder,
};
use crate::ciphersuite::{ciphersuite_signature_scheme, Ciphersuite};
use crate::crypto::{
    key_package_sign_label, key_package_sign_label_bytes, labeled_signature, leaf_node_sign_label,
    leaf_node_sign_label_bytes, rust_crypto_supports, sign_with_label, signer_key, verify_with_label,
    SignerKey, SpecSignerKey,
};
use crate::errors::{KeyPackageNewError, KeyPackageStagingError, SignatureError};
use crate::extension_type::{extension_type_code, ExtensionType};
use crate::extensions::{first_index_of_type, lemma_first_index_of_type, remove_first_of_type, Extension, SpecExtension};
use crate::key_package::{
    bundle_keys_match, is_binding_code, is_hpke_key_pair, key_package_hash_ref, key_package_tbs_bytes,
    private_keys_match, recomputed_binding_bytes, tbs_with_extensions, KeyPackage,
    KeyPackageBundle, KeyPackageTbs, SpecKeyPackage, SpecKeyPackageTbs,
};
use crate::leaf_node::{leaf_node_tbs_bytes, CredentialWithKey, Lifetime, SpecLeafNode};
use crate::errors::{LibraryError, StagedExtensionLocation};
use crate::laws::{canonical_key_package, list_acceptable};
use crate::key_package_in::decode_key_package;
use crate::errors::DecodeError;
use crate::key_package::key_package_bytes;
use crate::staging::{has_code, validate_staged};
use crate::storage::{storage_write, stored_bundle, Provider, SpecStoredBundle};

verus! {

/// A prepared KeyPackage: all public material is generated, the leaf is
/// signed, and the canonical binding bytes are frozen. It holds the private
/// init and encryption keys, which are never exposed.
pub struct PreparedKeyPackage {
    binding_extension_type: u16,
    tbs: KeyPackageTbs,
    canonical_bytes: Vec<u8>,
    private_init_key: Vec<u8>,
    private_encryption_key: Vec<u8>,
}

/// The public value of a [`PreparedKeyPackage`].
pub struct SpecPreparedKeyPackage {
    /// The designated binding code point.
    pub binding_extension_type: u16,
    /// The KeyPackageTBS without the binding extension.
    pub tbs: SpecKeyPackageTbs,
    /// The canonical binding bytes.
    pub canonical_bytes: Seq<u8>,
    /// The private key of the init key.
    pub private_init_key: Seq<u8>,
    /// The private key of the leaf's encryption key.
    pub private_encryption_key: Seq<u8>,
}

/// A KeyPackage with its external binding inserted, awaiting its outer signature.
pub struct BoundKeyPackage {
    binding_extension_type: u16,
    tbs: KeyPackageTbs,
    private_init_key: Vec<u8>,
    private_encryption_key: Vec<u8>,
}

/// The public value of a [`BoundKeyPackage`].
pub struct SpecBoundKeyPackage {
    /// The designated binding code point.
    pub binding_extension_type: u16,
    /// The KeyPackageTBS with the binding extension.
    pub tbs: SpecKeyPackageTbs,
    /// The private key of the init key.
    pub private_init_key: Seq<u8>,
    /// The private key of the leaf's encryption key.
    pub private_encryption_key: Seq<u8>,
}

impl View for PreparedKeyPackage {
    type V = SpecPreparedKeyPackage;

    closed spec fn view(&self) -> SpecPreparedKeyPackage {
        SpecPreparedKeyPackage {
            binding_extension_type: self.binding_extension_type,
            tbs: self.tbs@,
            canonical_bytes: self.canonical_bytes@,
            private_init_key: self.private_init_key@,
            private_encryption_key: self.private_encryption_key@,
        }
    }
}

impl View for BoundKeyPackage {
    type V = SpecBoundKeyPackage;

    closed spec fn view(&self) -> SpecBoundKeyPackage {
        SpecBoundKeyPackage {
            binding_extension_type: self.binding_extension_type,
            tbs: self.tbs@,
            private_init_key: self.private_init_key@,
            private_encryption_key: self.private_encryption_key@,
        }
    }
}

/// What always holds of a prepared KeyPackage: the code point designates an
/// unknown extension, no top-level extension has it, the leaf advertises it,
/// the canonical bytes are the TLS encoding of the KeyPackageTBS, and the
/// private keys belong to its init key and its leaf's encryption key.
pub open spec fn prepared_invariant(p: SpecPreparedKeyPackage) -> bool {
    &&& binding_code_admissible(p.binding_extension_type, p.tbs)
    &&& tbs_lists_acceptable(p.tbs)
    &&& key_package_tbs_bytes(p.tbs) == Some(p.canonical_bytes)
    &&& private_keys_match(p.tbs, p.private_init_key, p.private_encryption_key)
}

/// Whether both extension lists of a KeyPackageTBS pass the staged checks
/// against its leaf's capabilities.
pub open spec fn tbs_lists_acceptable(t: SpecKeyPackageTbs) -> bool {
    &&& list_acceptable(StagedExtensionLocation::KeyPackage, t.extensions, t.leaf_node.capabilities.extensions)
    &&& list_acceptable(StagedExtensionLocation::LeafNode, t.leaf_node.extensions, t.leaf_node.capabilities.extensions)
}

/// Whether `code` can designate the binding of a KeyPackageTBS: it denotes
/// an unknown extension, no top-level extension has it, and the leaf
/// advertises it.
pub open spec fn binding_code_admissible(code: u16, t: SpecKeyPackageTbs) -> bool {
    &&& is_binding_code(code)
    &&& !has_code(t.extensions, code)
    &&& t.leaf_node.capabilities.extensions.contains(ExtensionType::Unknown(code))
}

/// What always holds of a bound KeyPackage: the verifier's recomputation of
/// the canonical binding bytes succeeds on its KeyPackageTBS, and the
/// private keys belong to it.
pub open spec fn bound_invariant(b: SpecBoundKeyPackage) -> bool {
    &&& recomputed_binding_bytes(b.tbs, b.binding_extension_type) is Ok
    &&& tbs_lists_acceptable(b.tbs)
    &&& private_keys_match(b.tbs, b.private_init_key, b.private_encryption_key)
}

/// The binding extension for `code` carrying `binding`.
pub open spec fn binding_extension(code: u16, binding: Seq<u8>) -> SpecExtension {
    SpecExtension { extension_type: ExtensionType::Unknown(code), data: binding }
}

/// A KeyPackageTBS with the binding extension appended to its top-level extensions.
pub open spec fn with_binding(t: SpecKeyPackageTbs, code: u16, binding: Seq<u8>) -> SpecKeyPackageTbs {
    tbs_with_extensions(t, t.extensions.push(binding_extension(code, binding)))
}

/// Inserting a non-empty binding under a binding code point that no
/// top-level extension has, and then recomputing the canonical binding bytes
/// for that code point, gives back the TLS encoding of the KeyPackageTBS
/// without the binding.
pub proof fn lemma_binding_recomputes_canonical_bytes(t: SpecKeyPackageTbs, code: u16, binding: Seq<u8>)
    requires
        is_binding_code(code),
        !has_code(t.extensions, code),
        binding.len() > 0,
    ensures
        recomputed_binding_bytes(with_binding(t, code, binding), code) == match key_package_tbs_bytes(t) {
            Some(b) => Ok::<Seq<u8>, KeyPackageStagingError>(b),
            None => Err(KeyPackageStagingError::TlsSerializationError),
        },
{
    let ty = ExtensionType::Unknown(code);
    let s = t.extensions;
    let bound = with_binding(t, code, binding);
    let pushed = s.push(binding_extension(code, binding));
    lemma_first_index_of_type(s, ty);
    assert forall|j: int| 0 <= j < s.len() implies #[trigger] s[j].extension_type != ty by {
        if s[j].extension_type == ty {
            assert(extension_type_code(s[j].extension_type) == code);
        }
    }
    assert(pushed.drop_last() =~= s);
    assert(first_index_of_type(s, ty) is None);
    assert(first_index_of_type(pushed, ty) == Some(s.len() as int));
    assert(remove_first_of_type(pushed, ty) =~= s);
    assert(tbs_with_extensions(bound, s) == t);
}

impl PreparedKeyPackage {
    #[verifier::type_invariant]
    spec fn well_formed(self) -> bool {
        prepared_invariant(self@)
    }

    /// The canonical binding bytes: the TLS encoding of the KeyPackageTBS
    /// without the binding extension. Every call returns the same bytes.
    pub fn canonical_binding_bytes(&self) -> (res: &[u8])
        ensures
            res@ == self@.canonical_bytes,
            prepared_invariant(self@),
    {
        proof { use_type_invariant(self); }
        self.canonical_bytes.as_slice()
    }

    /// Inserts the external binding as one unknown top-level extension under
    /// the designated code point, appended after the retained extensions.
    /// An empty binding is rejected.
    pub fn with_external_binding(self, binding_bytes: Vec<u8>) -> (res: Result<BoundKeyPackage, KeyPackageStagingError>)
        ensures
            binding_bytes@.len() == 0 ==> res == Err::<BoundKeyPackage, KeyPackageStagingError>(KeyPackageStagingError::EmptyBinding),
            binding_bytes@.len() > 0 ==> (res matches Ok(b) && b@.binding_extension_type == self@.binding_extension_type
                && b@.tbs == with_binding(self@.tbs, self@.binding_extension_type, binding_bytes@)
                && b@.private_init_key == self@.private_init_key
                && b@.private_encryption_key == self@.private_encryption_key
                && recomputed_binding_bytes(b@.tbs, b@.binding_extension_type) == Ok::<Seq<u8>, KeyPackageStagingError>(self@.canonical_bytes)),
    {
        proof { use_type_invariant(&self); }
        if binding_bytes.len() == 0 {
            return Err(KeyPackageStagingError::EmptyBinding);
        }
        let ghost before = self@;
        let code = self.binding_extension_type;
        let PreparedKeyPackage { binding_extension_type, mut tbs, canonical_bytes: _, private_init_key, private_encryption_key } = self;
        let ghost binding = binding_bytes@;
        tbs.extensions.push(Extension::unknown(code, binding_bytes));
        assert(tbs@ == with_binding(before.tbs, code, binding));
        proof {
            lemma_binding_recomputes_canonical_bytes(before.tbs, code, binding);
            crate::laws::lemma_binding_keeps_list_acceptable(
                before.tbs.extensions,
                code,
                binding,
                before.tbs.leaf_node.capabilities.extensions,
            );
        }
        Ok(BoundKeyPackage { binding_extension_type, tbs, private_init_key, private_encryption_key })
    }
}

impl BoundKeyPackage {
    #[verifier::type_invariant]
    spec fn well_formed(self) -> bool {
        bound_invariant(self@)
    }

    /// Signs the bound KeyPackageTBS with the signer's key material, checks
    /// the signature under the frozen leaf signature key, computes the hash
    /// reference and stores the bundle once under it, as
    /// [`BoundKeyPackage::finalize_with_key`] does. Storage is unchanged on
    /// any error.
    pub fn finalize(
        self,
        provider: &mut Provider,
        signer: &openmls_basic_credential::SignatureKeyPair,
    ) -> (res: Result<KeyPackageBundle, KeyPackageStagingError>)
        ensures
            res matches Ok(b) ==> {
                &&& b@.payload == self@.tbs
                &&& key_package_signature_valid(b@)
                &&& bundle_keys_match(b)
                &&& b.private_init_key@ == self@.private_init_key
                &&& b.private_encryption_key@ == self@.private_encryption_key
                &&& recomputed_binding_bytes(b@.payload, self@.binding_extension_type) is Ok
                &&& decode_key_package(key_package_bytes(b@).unwrap()) == Ok::<SpecKeyPackage, DecodeError>(canonical_key_package(b@))
                &&& recomputed_binding_bytes(canonical_key_package(b@).payload, self@.binding_extension_type)
                    == recomputed_binding_bytes(self@.tbs, self@.binding_extension_type)
                &&& key_package_hash_ref(b@) is Some
                &&& final(provider).storage@ == storage_write(old(provider).storage@, key_package_hash_ref(b@).unwrap(), stored_bundle(b))
            },
            res is Err ==> final(provider).storage@ == old(provider).storage@,
            res matches Err(e) ==> is_post_validation_error(e),
    {
        match signer_key(signer) {
            Some(key) => self.finalize_with_key(provider, &key),
            None => Err(KeyPackageStagingError::KeyPackageNewError(KeyPackageNewError::LibraryError(LibraryError))),
        }
    }

    /// Finalizes with the signer key `key`, first failing step wins: the
    /// key's scheme must match the ciphersuite; the bound KeyPackageTBS must
    /// encode; the key must sign it; then [`finish_finalize`] checks the
    /// signature and stores the bundle.
    pub fn finalize_with_key(
        self,
        provider: &mut Provider,
        key: &SignerKey,
    ) -> (res: Result<KeyPackageBundle, KeyPackageStagingError>)
        ensures
            ({
                let t = self@.tbs;
                if ciphersuite_signature_scheme(t.ciphersuite) != key@.scheme {
                    res == Err::<KeyPackageBundle, KeyPackageStagingError>(KeyPackageStagingError::KeyPackageNewError(
                        KeyPackageNewError::CiphersuiteSignatureSchemeMismatch,
                    ))
                } else {
                    match key_package_tbs_bytes(t) {
                        None => res == Err::<KeyPackageBundle, KeyPackageStagingError>(KeyPackageStagingError::TlsSerializationError),
                        Some(b) => match labeled_signature(key@, key_package_sign_label(), b) {
                            None => res == Err::<KeyPackageBundle, KeyPackageStagingError>(KeyPackageStagingError::KeyPackageNewError(
                                KeyPackageNewError::SignatureError(SignatureError::SigningError),
                            )),
                            Some(signature) => finalize_outcome(
                                SpecKeyPackage { payload: t, signature },
                                self@.private_init_key,
                                self@.private_encryption_key,
                                old(provider).storage@,
                                final(provider).storage@,
                                res,
                            ),
                        },
                    }
                }
            }),
            res is Err ==> final(provider).storage@ == old(provider).storage@,
            res matches Err(e) ==> is_post_validation_error(e),
            res matches Ok(b) ==> {
                &&& b@.payload == self@.tbs
                &&& key_package_signature_valid(b@)
                &&& bundle_keys_match(b)
                &&& b.private_init_key@ == self@.private_init_key
                &&& b.private_encryption_key@ == self@.private_encryption_key
                &&& recomputed_binding_bytes(b@.payload, self@.binding_extension_type) is Ok
                &&& decode_key_package(key_package_bytes(b@).unwrap()) == Ok::<SpecKeyPackage, DecodeError>(canonical_key_package(b@))
                &&& recomputed_binding_bytes(canonical_key_package(b@).payload, self@.binding_extension_type)
                    == recomputed_binding_bytes(self@.tbs, self@.binding_extension_type)
                &&& key_package_hash_ref(b@) is Some
                &&& final(provider).storage@ == storage_write(old(provider).storage@, key_package_hash_ref(b@).unwrap(), stored_bundle(b))
            },
    {
        proof { use_type_invariant(&self); }
        let ghost bound = self@;
        let BoundKeyPackage { binding_extension_type: _, tbs, private_init_key, private_encryption_key } = self;
        let ciphersuite = tbs.ciphersuite;
        if let Err(e) = check_ciphersuite_signature_scheme(ciphersuite, key.scheme) {
            return Err(KeyPackageStagingError::KeyPackageNewError(e));
        }
        let bytes = match tbs.encode() {
            Some(b) => b,
            None => return Err(KeyPackageStagingError::TlsSerializationError),
        };
        let label = key_package_sign_label_bytes();
        let signature = match sign_with_label(key, label.as_slice(), bytes.as_slice()) {
            Some(s) => s,
            None => return Err(KeyPackageStagingError::KeyPackageNewError(
                KeyPackageNewError::SignatureError(SignatureError::SigningError),
            )),
        };
        let res = finish_finalize(provider, tbs, signature, private_init_key, private_encryption_key);
        proof {
            if res is Ok {
                crate::laws::lemma_acceptable_key_package_decodes(res->Ok_0@, bound.binding_extension_type);
            }
        }
        res
    }
}

/// What finalization with a produced signature gives: `SignerMismatch` when
/// the signature does not verify under the leaf's key, a library error when
/// the KeyPackage has no hash reference, and otherwise the bundle, written
/// once under its hash reference; storage is unchanged on error.
pub open spec fn finalize_outcome(
    k: SpecKeyPackage,
    private_init_key: Seq<u8>,
    private_encryption_key: Seq<u8>,
    before: Seq<(Seq<u8>, SpecStoredBundle)>,
    after: Seq<(Seq<u8>, SpecStoredBundle)>,
    res: Result<KeyPackageBundle, KeyPackageStagingError>,
) -> bool {
    if !key_package_signature_valid(k) {
        res == Err::<KeyPackageBundle, KeyPackageStagingError>(KeyPackageStagingError::SignerMismatch) && after == before
    } else if key_package_hash_ref(k) is None {
        res == Err::<KeyPackageBundle, KeyPackageStagingError>(KeyPackageStagingError::KeyPackageNewError(
            KeyPackageNewError::LibraryError(LibraryError),
        )) && after == before
    } else {
        &&& res matches Ok(b) && b@ == k && b.private_init_key@ == private_init_key
            && b.private_encryption_key@ == private_encryption_key
        &&& after == storage_write(before, key_package_hash_ref(k).unwrap(), SpecStoredBundle { key_package: k, private_init_key, private_encryption_key })
    }
}

/// The last step of finalization, given the produced outer signature:
/// checks it under the leaf's signature key with the ciphersuite's scheme,
/// then forms the bundle with the private keys and stores it once under its
/// hash reference.
pub fn finish_finalize(
    provider: &mut Provider,
    tbs: KeyPackageTbs,
    signature: Vec<u8>,
    private_init_key: Vec<u8>,
    private_encryption_key: Vec<u8>,
) -> (res: Result<KeyPackageBundle, KeyPackageStagingError>)
    ensures
        finalize_outcome(
            SpecKeyPackage { payload: tbs@, signature: signature@ },
            private_init_key@,
            private_encryption_key@,
            old(provider).storage@,
            final(provider).storage@,
            res,
        ),
{
    let bytes = match tbs.encode() {
        Some(b) => b,
        None => return Err(KeyPackageStagingError::SignerMismatch),
    };
    let label = key_package_sign_label_bytes();
    if !verify_with_label(
        &provider.crypto,
        tbs.ciphersuite.signature_algorithm(),
        label.as_slice(),
        bytes.as_slice(),
        tbs.leaf_node.signature_key.as_slice(),
        signature.as_slice(),
    ) {
        return Err(KeyPackageStagingError::SignerMismatch);
    }
    let bundle = KeyPackageBundle {
        key_package: KeyPackage { payload: tbs, signature },
        private_init_key,
        private_encryption_key,
    };
    match crate::builder::store_bundle(provider, bundle) {
        Ok(b) => Ok(b),
        Err(e) => Err(KeyPackageStagingError::KeyPackageNewError(e)),
    }
}

/// What the last step of preparation gives for a generated KeyPackageTBS:
/// a serialization error when the leaf's to-be-signed part does not encode,
/// `SignerMismatch` when the leaf signature does not verify under the leaf's
/// signature key, a serialization error when the KeyPackageTBS does not
/// encode, and otherwise the prepared state with its encoding as the
/// canonical binding bytes.
pub open spec fn prepare_outcome(
    code: u16,
    t: SpecKeyPackageTbs,
    private_init_key: Seq<u8>,
    private_encryption_key: Seq<u8>,
) -> Result<SpecPreparedKeyPackage, KeyPackageStagingError> {
    if leaf_node_tbs_bytes(t.leaf_node) is None {
        Err(KeyPackageStagingError::TlsSerializationError)
    } else if !leaf_signature_valid(t) {
        Err(KeyPackageStagingError::SignerMismatch)
    } else {
        match key_package_tbs_bytes(t) {
            Some(b) => Ok(SpecPreparedKeyPackage {
                binding_extension_type: code,
                tbs: t,
                canonical_bytes: b,
                private_init_key,
                private_encryption_key,
            }),
            None => Err(KeyPackageStagingError::TlsSerializationError),
        }
    }
}

/// The last step of preparation: checks the leaf signature under the leaf's
/// signature key, then freezes the canonical binding bytes.
pub fn finish_prepare(
    code: u16,
    tbs: KeyPackageTbs,
    private_init_key: Vec<u8>,
    private_encryption_key: Vec<u8>,
    provider: &Provider,
) -> (res: Result<PreparedKeyPackage, KeyPackageStagingError>)
    requires
        binding_code_admissible(code, tbs@),
        tbs_lists_acceptable(tbs@),
        private_keys_match(tbs@, private_init_key@, private_encryption_key@),
    ensures
        match prepare_outcome(code, tbs@, private_init_key@, private_encryption_key@) {
            Ok(p) => res matches Ok(x) && x@ == p,
            Err(e) => res == Err::<PreparedKeyPackage, KeyPackageStagingError>(e),
        },
{
    let leaf_tbs = match tbs.leaf_node.encode_tbs() {
        Some(t) => t,
        None => return Err(KeyPackageStagingError::TlsSerializationError),
    };
    let label = leaf_node_sign_label_bytes();
    if !verify_with_label(
        &provider.crypto,
        tbs.ciphersuite.signature_algorithm(),
        label.as_slice(),
        leaf_tbs.as_slice(),
        tbs.leaf_node.signature_key.as_slice(),
        tbs.leaf_node.signature.as_slice(),
    ) {
        return Err(KeyPackageStagingError::SignerMismatch);
    }
    let canonical_bytes = match tbs.encode() {
        Some(b) => b,
        None => return Err(KeyPackageStagingError::TlsSerializationError),
    };
    Ok(PreparedKeyPackage { binding_extension_type: code, tbs, canonical_bytes, private_init_key, private_encryption_key })
}

impl KeyPackageBuilder {
    /// Prepares a KeyPackage for an external binding under the code point
    /// `binding_extension_type`, without writing storage.
    ///
    /// The builder's defaults and last-resort marking are applied and the
    /// staged validation runs first, its first error returned; then the
    /// signer's key material is read and preparation proceeds as
    /// [`KeyPackageBuilder::prepare_with_key`] does.
    pub fn prepare(
        self,
        ciphersuite: Ciphersuite,
        provider: &Provider,
        signer: &openmls_basic_credential::SignatureKeyPair,
        credential_with_key: CredentialWithKey,
        binding_extension_type: u16,
    ) -> (res: Result<PreparedKeyPackage, KeyPackageStagingError>)
        ensures
            builder_staged_validation(self, binding_extension_type) matches Some(e) ==> res == Err::<PreparedKeyPackage, KeyPackageStagingError>(e),
            builder_staged_validation(self, binding_extension_type) is None ==> (res matches Err(e) ==> is_post_validation_error(e)),
            res matches Ok(p) ==> {
                &&& builder_staged_validation(self, binding_extension_type) is None
                &&& p@.binding_extension_type == binding_extension_type
                &&& prepared_invariant(p@)
                &&& fresh_tbs(p@.tbs, self, ciphersuite, credential_with_key)
                &&& leaf_signature_valid(p@.tbs)
            },
    {
        let ghost builder = self;
        let code = binding_extension_type;
        let parts = self.into_parts();
        if let Some(e) = validate_staged(code, &parts.key_package_extensions, &parts.leaf_extensions, &parts.capabilities) {
            proof {
                crate::staging::lemma_staged_validation_kind(
                    code,
                    parts.key_package_extensions@,
                    parts.leaf_extensions@,
                    parts.capabilities@.extensions,
                );
            }
            return Err(e);
        }
        let key = match signer_key(signer) {
            Some(k) => k,
            None => return Err(KeyPackageStagingError::KeyPackageNewError(KeyPackageNewError::LibraryError(LibraryError))),
        };
        assert(parts@ == effective_parts(builder, parts.lifetime));
        prepare_validated(parts, ciphersuite, provider, &key, credential_with_key, code, Ghost(builder))
    }

    /// Prepares a KeyPackage with the signer key `key`, first failing step
    /// wins: the staged validation; the key's scheme must match the
    /// ciphersuite and the provider must support it; fresh keys are
    /// generated and the leaf is signed with `key`; then [`finish_prepare`]
    /// checks the leaf signature and freezes the canonical binding bytes.
    pub fn prepare_with_key(
        self,
        ciphersuite: Ciphersuite,
        provider: &Provider,
        key: &SignerKey,
        credential_with_key: CredentialWithKey,
        binding_extension_type: u16,
    ) -> (res: Result<PreparedKeyPackage, KeyPackageStagingError>)
        ensures
            builder_staged_validation(self, binding_extension_type) matches Some(e) ==> res == Err::<PreparedKeyPackage, KeyPackageStagingError>(e),
            builder_staged_validation(self, binding_extension_type) is None ==> (res matches Err(e) ==> is_post_validation_error(e)),
            builder_staged_validation(self, binding_extension_type) is None
                ==> (signer_and_provider_check(ciphersuite, key@.scheme) matches Err(e)
                    ==> res == Err::<PreparedKeyPackage, KeyPackageStagingError>(KeyPackageStagingError::KeyPackageNewError(e))),
            builder_staged_validation(self, binding_extension_type) is None
                && signer_and_provider_check(ciphersuite, key@.scheme) is Ok ==> {
                ||| res == Err::<PreparedKeyPackage, KeyPackageStagingError>(KeyPackageStagingError::KeyPackageNewError(
                    KeyPackageNewError::LibraryError(LibraryError),
                ))
                ||| exists|lifetime: Lifetime, init_pair: (Seq<u8>, Seq<u8>), encryption_pair: (Seq<u8>, Seq<u8>)|
                    #[trigger] prepare_outcome_with(self, ciphersuite, key@, credential_with_key, binding_extension_type, lifetime, init_pair, encryption_pair, res)
            },
            res matches Ok(p) ==> {
                &&& builder_staged_validation(self, binding_extension_type) is None
                &&& signer_and_provider_check(ciphersuite, key@.scheme) is Ok
                &&& p@.binding_extension_type == binding_extension_type
                &&& prepared_invariant(p@)
                &&& fresh_tbs(p@.tbs, self, ciphersuite, credential_with_key)
                &&& leaf_signature_valid(p@.tbs)
                &&& labeled_signature(key@, leaf_node_sign_label(), leaf_node_tbs_bytes(p@.tbs.leaf_node).unwrap())
                    == Some(p@.tbs.leaf_node.signature)
            },
    {
        let ghost builder = self;
        let code = binding_extension_type;
        let parts = self.into_parts();
        if let Some(e) = validate_staged(code, &parts.key_package_extensions, &parts.leaf_extensions, &parts.capabilities) {
            proof {
                crate::staging::lemma_staged_validation_kind(
                    code,
                    parts.key_package_extensions@,
                    parts.leaf_extensions@,
                    parts.capabilities@.extensions,
                );
            }
            return Err(e);
        }
        assert(parts@ == effective_parts(builder, parts.lifetime));
        prepare_validated(parts, ciphersuite, provider, key, credential_with_key, code, Ghost(builder))
    }
}

/// Preparation once the checks have passed, for a lifetime and two generated
/// key pairs: the outcome of assembly and then of [`finish_prepare`].
pub open spec fn prepare_outcome_with(
    b: KeyPackageBuilder,
    ciphersuite: Ciphersuite,
    key: SpecSignerKey,
    credential_with_key: CredentialWithKey,
    code: u16,
    lifetime: Lifetime,
    init_pair: (Seq<u8>, Seq<u8>),
    encryption_pair: (Seq<u8>, Seq<u8>),
    res: Result<PreparedKeyPackage, KeyPackageStagingError>,
) -> bool {
    &&& lifetime_allowed(b, lifetime)
    &&& is_hpke_key_pair(ciphersuite, init_pair.0, init_pair.1)
    &&& is_hpke_key_pair(ciphersuite, encryption_pair.0, encryption_pair.1)
    &&& match assembled_tbs(
        ciphersuite,
        key,
        credential_with_key.credential@,
        credential_with_key.signature_key@,
        effective_parts(b, lifetime),
        init_pair.1,
        encryption_pair.1,
    ) {
        Err(e) => res == Err::<PreparedKeyPackage, KeyPackageStagingError>(KeyPackageStagingError::KeyPackageNewError(e)),
        Ok(t) => match prepare_outcome(code, t, init_pair.0, encryption_pair.0) {
            Ok(p) => res matches Ok(x) && x@ == p,
            Err(e) => res == Err::<PreparedKeyPackage, KeyPackageStagingError>(e),
        },
    }
}

/// Preparation once the staged validation has passed on the builder's parts.
fn prepare_validated(
    parts: BuilderParts,
    ciphersuite: Ciphersuite,
    provider: &Provider,
    key: &SignerKey,
    credential_with_key: CredentialWithKey,
    code: u16,
    Ghost(builder): Ghost<KeyPackageBuilder>,
) -> (res: Result<PreparedKeyPackage, KeyPackageStagingError>)
    requires
        parts@ == effective_parts(builder, parts.lifetime),
        lifetime_allowed(builder, parts.lifetime),
        builder_staged_validation(builder, code) is None,
    ensures
        res matches Err(e) ==> is_post_validation_error(e),
        signer_and_provider_check(ciphersuite, key@.scheme) matches Err(e)
            ==> res == Err::<PreparedKeyPackage, KeyPackageStagingError>(KeyPackageStagingError::KeyPackageNewError(e)),
        signer_and_provider_check(ciphersuite, key@.scheme) is Ok ==> {
            ||| res == Err::<PreparedKeyPackage, KeyPackageStagingError>(KeyPackageStagingError::KeyPackageNewError(
                KeyPackageNewError::LibraryError(LibraryError),
            ))
            ||| exists|lifetime: Lifetime, init_pair: (Seq<u8>, Seq<u8>), encryption_pair: (Seq<u8>, Seq<u8>)|
                #[trigger] prepare_outcome_with(builder, ciphersuite, key@, credential_with_key, code, lifetime, init_pair, encryption_pair, res)
        },
        res matches Ok(p) ==> {
            &&& signer_and_provider_check(ciphersuite, key@.scheme) is Ok
            &&& p@.binding_extension_type == code
            &&& prepared_invariant(p@)
            &&& fresh_tbs(p@.tbs, builder, ciphersuite, credential_with_key)
            &&& leaf_signature_valid(p@.tbs)
            &&& labeled_signature(key@, leaf_node_sign_label(), leaf_node_tbs_bytes(p@.tbs.leaf_node).unwrap())
                == Some(p@.tbs.leaf_node.signature)
        },
{
    if let Err(e) = crate::builder::check_signer_and_provider(ciphersuite, provider, key) {
        return Err(KeyPackageStagingError::KeyPackageNewError(e));
    }
    let ghost lifetime = parts.lifetime;
    let ghost cwk = credential_with_key;
    let init_pair = match crate::builder::generate_hpke_keypair(&provider.crypto, ciphersuite) {
        Ok(p) => p,
        Err(e) => return Err(KeyPackageStagingError::KeyPackageNewError(e)),
    };
    let encryption_pair = match crate::builder::generate_hpke_keypair(&provider.crypto, ciphersuite) {
        Ok(p) => p,
        Err(e) => return Err(KeyPackageStagingError::KeyPackageNewError(e)),
    };
    let ghost ip = (init_pair.0@, init_pair.1@);
    let ghost ep = (encryption_pair.0@, encryption_pair.1@);
    let ghost assembled = assembled_tbs(
        ciphersuite,
        key@,
        cwk.credential@,
        cwk.signature_key@,
        effective_parts(builder, lifetime),
        ip.1,
        ep.1,
    );
    let (tbs, private_init_key, private_encryption_key) =
        match assemble_key_package_tbs(ciphersuite, key, credential_with_key, parts, init_pair, encryption_pair) {
            Ok(r) => r,
            Err(e) => {
                let res = Err(KeyPackageStagingError::KeyPackageNewError(e));
                assert(prepare_outcome_with(builder, ciphersuite, key@, cwk, code, lifetime, ip, ep, res));
                return res;
            },
        };
    proof {
        crate::laws::law_staged_validation_accepts_exactly(
            code,
            crate::builder::effective_key_package_extensions(builder),
            crate::builder::effective_leaf_extensions(builder),
            crate::builder::effective_capabilities(builder).extensions,
        );
        let l = unsigned_leaf(cwk.credential@, cwk.signature_key@, effective_parts(builder, lifetime), ep.1);
        crate::builder::lemma_leaf_tbs_ignores_signature(l, tbs@.leaf_node.signature);
        reveal(assembled_tbs);
        assert(tbs@.leaf_node == (SpecLeafNode { signature: tbs@.leaf_node.signature, ..l }));
    }
    let res = finish_prepare(code, tbs, private_init_key, private_encryption_key, provider);
    assert(prepare_outcome_with(builder, ciphersuite, key@, cwk, code, lifetime, ip, ep, res));
    res
}

} // verus!
