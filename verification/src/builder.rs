//! KeyPackage construction: the one-shot builder and the staged
//! prepare / bind / finalize state machine.

use vstd::prelude::*;

use crate::ciphersuite::{
    ciphersuite_code, ciphersuite_hash_length, ciphersuite_signature_scheme, Ciphersuite,
    SignatureScheme, MLS10,
};
use crate::crypto::{
    derive_hpke_keypair, key_package_sign_label, key_package_sign_label_bytes,
    labeled_signature, leaf_node_sign_label, leaf_node_sign_label_bytes, provider_supports,
    random_bytes, rust_crypto_supports, sign_with_label, signer_key, spec_hpke_key_pair,
    valid_labeled_signature, verify_with_label, SignerKey, SpecSignerKey,
};
use crate::errors::{
    KeyPackageNewError, KeyPackageStagingError, LibraryError, SignatureError,
};
use crate::extension_type::ExtensionType;
use crate::extensions::{remove_first_of_type, Extension, Extensions, SpecExtension};
use crate::key_package::{
    bundle_keys_match, is_binding_code, is_hpke_key_pair, key_package_hash_ref,
    key_package_tbs_bytes, private_keys_match, recomputed_binding_bytes,
    tbs_with_extensions, KeyPackage, KeyPackageBundle, KeyPackageTbs, SpecKeyPackage,
    SpecKeyPackageTbs,
};
use crate::leaf_node::{
    default_ciphersuites, default_credentials, default_versions, leaf_node_tbs_bytes,
    Capabilities, CredentialWithKey, LeafNode, LeafNodeSource, Lifetime, SpecCapabilities,
    SpecCredential, SpecLeafNode, SpecLeafNodeSource,
};
use crate::staging::{has_code, staged_validation, validate_staged};
use crate::storage::{storage_write, stored_bundle, Provider, SpecStoredBundle};

verus! {

/// The default validity of a KeyPackage: twelve weeks.
pub const DEFAULT_KEY_PACKAGE_LIFETIME_SECONDS: u64 = 7_257_600;

/// How far before the current time a default lifetime starts: one hour.
pub const DEFAULT_KEY_PACKAGE_LIFETIME_MARGIN_SECONDS: u64 = 3_600;

/// A builder of KeyPackages.
#[derive(Debug)]
pub struct KeyPackageBuilder {
    /// The lifetime of the leaf; the default lifetime from the current time when absent.
    pub key_package_lifetime: Option<Lifetime>,
    /// The top-level KeyPackage extensions; none when absent.
    pub key_package_extensions: Option<Extensions>,
    /// The leaf's capabilities; the default capabilities when absent.
    pub leaf_node_capabilities: Option<Capabilities>,
    /// The leaf's extensions; none when absent.
    pub leaf_node_extensions: Option<Extensions>,
    /// Whether the KeyPackage is marked as a last-resort KeyPackage.
    pub last_resort: bool,
}

/// The `last_resort` extension.
pub open spec fn last_resort_extension() -> SpecExtension {
    SpecExtension { extension_type: ExtensionType::LastResort, data: Seq::empty() }
}

/// The top-level extensions a builder yields: its list (empty when absent),
/// and when marked last resort, with any `last_resort` entry replaced by one
/// appended at the end.
pub open spec fn effective_key_package_extensions(b: KeyPackageBuilder) -> Seq<SpecExtension> {
    let base = match b.key_package_extensions {
        Some(e) => e@,
        None => Seq::empty(),
    };
    if b.last_resort {
        remove_first_of_type(base, ExtensionType::LastResort).push(last_resort_extension())
    } else {
        base
    }
}

/// The leaf extensions a builder yields (empty when absent).
pub open spec fn effective_leaf_extensions(b: KeyPackageBuilder) -> Seq<SpecExtension> {
    match b.leaf_node_extensions {
        Some(e) => e@,
        None => Seq::empty(),
    }
}

/// The default capabilities.
pub open spec fn default_capabilities() -> SpecCapabilities {
    SpecCapabilities {
        versions: default_versions(),
        ciphersuites: default_ciphersuites(),
        extensions: Seq::empty(),
        proposals: Seq::empty(),
        credentials: default_credentials(),
    }
}

/// The leaf capabilities a builder yields (the defaults when absent).
pub open spec fn effective_capabilities(b: KeyPackageBuilder) -> SpecCapabilities {
    match b.leaf_node_capabilities {
        Some(c) => c@,
        None => default_capabilities(),
    }
}

/// The staged validation of a builder for the binding code point `code`.
pub open spec fn builder_staged_validation(b: KeyPackageBuilder, code: u16) -> Option<KeyPackageStagingError> {
    staged_validation(
        code,
        effective_key_package_extensions(b),
        effective_leaf_extensions(b),
        effective_capabilities(b).extensions,
    )
}

/// What a freshly built KeyPackageTBS holds: protocol version MLS 1.0, the
/// ciphersuite, the builder's top-level extensions, and a KeyPackage leaf
/// with the credential and its signature key, the builder's capabilities,
/// lifetime and leaf extensions. The keys are stated with the private keys
/// they belong to ([`private_keys_match`]).
pub open spec fn fresh_tbs(
    t: SpecKeyPackageTbs,
    b: KeyPackageBuilder,
    cs: Ciphersuite,
    credential_with_key: CredentialWithKey,
) -> bool {
    &&& t.protocol_version == MLS10
    &&& t.ciphersuite == cs
    &&& t.extensions == effective_key_package_extensions(b)
    &&& t.leaf_node.signature_key == credential_with_key.signature_key@
    &&& t.leaf_node.credential == credential_with_key.credential@
    &&& t.leaf_node.capabilities == effective_capabilities(b)
    &&& t.leaf_node.extensions == effective_leaf_extensions(b)
    &&& t.leaf_node.leaf_node_source matches SpecLeafNodeSource::KeyPackage(l)
        && (b.key_package_lifetime matches Some(given) ==> l == given)
        && (b.key_package_lifetime is None ==> exists|now: u64| l == default_lifetime_at(now))
    &&& leaf_node_tbs_bytes(t.leaf_node) is Some
}

/// Whether the leaf's signature verifies under its signature key with the
/// ciphersuite's scheme.
pub open spec fn leaf_signature_valid(t: SpecKeyPackageTbs) -> bool {
    valid_labeled_signature(
        ciphersuite_signature_scheme(t.ciphersuite),
        leaf_node_sign_label(),
        leaf_node_tbs_bytes(t.leaf_node).unwrap(),
        t.leaf_node.signature_key,
        t.leaf_node.signature,
    )
}

/// Whether a KeyPackage's outer signature verifies under its leaf's
/// signature key with the ciphersuite's scheme.
pub open spec fn key_package_signature_valid(k: SpecKeyPackage) -> bool {
    &&& key_package_tbs_bytes(k.payload) is Some
    &&& valid_labeled_signature(
        ciphersuite_signature_scheme(k.payload.ciphersuite),
        key_package_sign_label(),
        key_package_tbs_bytes(k.payload).unwrap(),
        k.payload.leaf_node.signature_key,
        k.signature,
    )
}

/// The errors that can remain once the staged validation has passed.
pub open spec fn is_post_validation_error(e: KeyPackageStagingError) -> bool {
    ||| e is KeyPackageNewError
    ||| e is SignerMismatch
    ||| e is TlsSerializationError
}

/// The mismatch check between a ciphersuite and a signer's scheme.
pub fn check_ciphersuite_signature_scheme(ciphersuite: Ciphersuite, scheme: SignatureScheme) -> (res: Result<(), KeyPackageNewError>)
    ensures
        res is Ok <==> ciphersuite_signature_scheme(ciphersuite) == scheme,
        res is Err ==> res == Err::<(), KeyPackageNewError>(KeyPackageNewError::CiphersuiteSignatureSchemeMismatch),
{
    if ciphersuite.signature_algorithm() != scheme {
        Err(KeyPackageNewError::CiphersuiteSignatureSchemeMismatch)
    } else {
        Ok(())
    }
}

/// The outcome of the stock checks before key generation: the signer's
/// scheme must match the ciphersuite, then the provider must support the
/// ciphersuite.
pub open spec fn signer_and_provider_check(ciphersuite: Ciphersuite, scheme: SignatureScheme) -> Result<(), KeyPackageNewError> {
    if ciphersuite_signature_scheme(ciphersuite) != scheme {
        Err(KeyPackageNewError::CiphersuiteSignatureSchemeMismatch)
    } else if !rust_crypto_supports(ciphersuite) {
        Err(KeyPackageNewError::UnsupportedCiphersuite(ciphersuite))
    } else {
        Ok(())
    }
}

/// The stock checks before key generation, for a signer with key `key`.
pub(crate) fn check_signer_and_provider(
    ciphersuite: Ciphersuite,
    provider: &Provider,
    key: &SignerKey,
) -> (res: Result<(), KeyPackageNewError>)
    ensures
        res == signer_and_provider_check(ciphersuite, key@.scheme),
{
    check_ciphersuite_signature_scheme(ciphersuite, key.scheme)?;
    if !provider_supports(&provider.crypto, ciphersuite) {
        return Err(KeyPackageNewError::UnsupportedCiphersuite(ciphersuite));
    }
    Ok(())
}

/// Generates an HPKE key pair from fresh random input key material of the
/// ciphersuite's hash length.
pub(crate) fn generate_hpke_keypair(
    crypto: &openmls_rust_crypto::RustCrypto,
    ciphersuite: Ciphersuite,
) -> (res: Result<(Vec<u8>, Vec<u8>), KeyPackageNewError>)
    ensures
        res matches Ok(pair) ==> is_hpke_key_pair(ciphersuite, pair.0@, pair.1@),
        res is Err ==> res == Err::<(Vec<u8>, Vec<u8>), KeyPackageNewError>(
            KeyPackageNewError::LibraryError(LibraryError),
        ),
{
    let ikm = match random_bytes(crypto, ciphersuite.hash_length()) {
        Ok(v) => v,
        Err(_) => return Err(KeyPackageNewError::LibraryError(LibraryError)),
    };
    match derive_hpke_keypair(crypto, ciphersuite, ikm.as_slice()) {
        Ok(pair) => {
            assert(spec_hpke_key_pair(ciphersuite_code(ciphersuite), ikm@) == (pair.0@, pair.1@));
            Ok(pair)
        },
        Err(_) => Err(KeyPackageNewError::LibraryError(LibraryError)),
    }
}

/// The parts a builder yields once its defaults are applied.
pub struct BuilderParts {
    /// The leaf's lifetime.
    pub lifetime: Lifetime,
    /// The top-level extensions, with the last-resort marking applied.
    pub key_package_extensions: Extensions,
    /// The leaf's capabilities.
    pub capabilities: Capabilities,
    /// The leaf's extensions.
    pub leaf_extensions: Extensions,
}

/// The mathematical value of [`BuilderParts`].
pub struct SpecBuilderParts {
    /// The leaf's lifetime.
    pub lifetime: Lifetime,
    /// The top-level extensions.
    pub key_package_extensions: Seq<SpecExtension>,
    /// The leaf's capabilities.
    pub capabilities: SpecCapabilities,
    /// The leaf's extensions.
    pub leaf_extensions: Seq<SpecExtension>,
}

impl View for BuilderParts {
    type V = SpecBuilderParts;

    open spec fn view(&self) -> SpecBuilderParts {
        SpecBuilderParts {
            lifetime: self.lifetime,
            key_package_extensions: self.key_package_extensions@,
            capabilities: self.capabilities@,
            leaf_extensions: self.leaf_extensions@,
        }
    }
}

/// Whether `lifetime` is one a builder yields: the one it was given, or else
/// the default lifetime around some time.
pub open spec fn lifetime_allowed(b: KeyPackageBuilder, lifetime: Lifetime) -> bool {
    match b.key_package_lifetime {
        Some(given) => lifetime == given,
        None => exists|now: u64| lifetime == default_lifetime_at(now),
    }
}

/// The parts a builder yields with the lifetime `lifetime`.
pub open spec fn effective_parts(b: KeyPackageBuilder, lifetime: Lifetime) -> SpecBuilderParts {
    SpecBuilderParts {
        lifetime,
        key_package_extensions: effective_key_package_extensions(b),
        capabilities: effective_capabilities(b),
        leaf_extensions: effective_leaf_extensions(b),
    }
}

/// The leaf before signing, for a credential, its signature key, the parts
/// and an encryption key.
pub open spec fn unsigned_leaf(
    credential: SpecCredential,
    signature_key: Seq<u8>,
    parts: SpecBuilderParts,
    encryption_key: Seq<u8>,
) -> SpecLeafNode {
    SpecLeafNode {
        encryption_key,
        signature_key,
        credential,
        capabilities: parts.capabilities,
        leaf_node_source: SpecLeafNodeSource::KeyPackage(parts.lifetime),
        extensions: parts.leaf_extensions,
        signature: Seq::empty(),
    }
}

/// The leaf's to-be-signed encoding does not cover its signature.
pub proof fn lemma_leaf_tbs_ignores_signature(l: SpecLeafNode, signature: Seq<u8>)
    ensures
        leaf_node_tbs_bytes(SpecLeafNode { signature, ..l }) == leaf_node_tbs_bytes(l),
{
    reveal(leaf_node_tbs_bytes);
}

/// The KeyPackageTBS assembled from the parts and the two public keys, the
/// leaf signed with `key`: a library error when the leaf's to-be-signed part
/// does not encode, a signing error when the key does not sign it.
#[verifier::opaque]
pub open spec fn assembled_tbs(
    ciphersuite: Ciphersuite,
    key: SpecSignerKey,
    credential: SpecCredential,
    signature_key: Seq<u8>,
    parts: SpecBuilderParts,
    init_key: Seq<u8>,
    encryption_key: Seq<u8>,
) -> Result<SpecKeyPackageTbs, KeyPackageNewError> {
    let leaf = unsigned_leaf(credential, signature_key, parts, encryption_key);
    match leaf_node_tbs_bytes(leaf) {
        None => Err(KeyPackageNewError::LibraryError(LibraryError)),
        Some(b) => match labeled_signature(key, leaf_node_sign_label(), b) {
            None => Err(KeyPackageNewError::SignatureError(SignatureError::SigningError)),
            Some(signature) => Ok(SpecKeyPackageTbs {
                protocol_version: MLS10,
                ciphersuite,
                init_key,
                leaf_node: SpecLeafNode {
                    encryption_key,
                    signature_key,
                    credential,
                    capabilities: parts.capabilities,
                    leaf_node_source: SpecLeafNodeSource::KeyPackage(parts.lifetime),
                    extensions: parts.leaf_extensions,
                    signature,
                },
                extensions: parts.key_package_extensions,
            }),
        },
    }
}

/// What the one-shot path's last step gives for an assembled KeyPackageTBS:
/// a signing error when the KeyPackageTBS does not encode or the key does
/// not sign it, a library error when the signed KeyPackage has no hash
/// reference, and otherwise the bundle, written once under its hash
/// reference. Storage is unchanged on error.
#[verifier::opaque]
pub open spec fn build_finish_outcome(
    key: SpecSignerKey,
    t: SpecKeyPackageTbs,
    private_init_key: Seq<u8>,
    private_encryption_key: Seq<u8>,
    before: Seq<(Seq<u8>, SpecStoredBundle)>,
    after: Seq<(Seq<u8>, SpecStoredBundle)>,
    res: Result<KeyPackageBundle, KeyPackageNewError>,
) -> bool {
    let signing_error = Err::<KeyPackageBundle, KeyPackageNewError>(KeyPackageNewError::SignatureError(SignatureError::SigningError));
    match key_package_tbs_bytes(t) {
        None => res == signing_error && after == before,
        Some(b) => match labeled_signature(key, key_package_sign_label(), b) {
            None => res == signing_error && after == before,
            Some(signature) => {
                let k = SpecKeyPackage { payload: t, signature };
                if key_package_hash_ref(k) is None {
                    res == Err::<KeyPackageBundle, KeyPackageNewError>(KeyPackageNewError::LibraryError(LibraryError))
                        && after == before
                } else {
                    &&& res matches Ok(bundle) && bundle@ == k && bundle.private_init_key@ == private_init_key
                        && bundle.private_encryption_key@ == private_encryption_key
                    &&& after == storage_write(before, key_package_hash_ref(k).unwrap(), SpecStoredBundle { key_package: k, private_init_key, private_encryption_key })
                }
            },
        },
    }
}

/// The one-shot build once the checks have passed, for a lifetime and two
/// generated key pairs: the outcome of assembly and then of the last step.
pub open spec fn build_outcome_with(
    b: KeyPackageBuilder,
    ciphersuite: Ciphersuite,
    key: SpecSignerKey,
    credential_with_key: CredentialWithKey,
    lifetime: Lifetime,
    init_pair: (Seq<u8>, Seq<u8>),
    encryption_pair: (Seq<u8>, Seq<u8>),
    before: Seq<(Seq<u8>, SpecStoredBundle)>,
    after: Seq<(Seq<u8>, SpecStoredBundle)>,
    res: Result<KeyPackageBundle, KeyPackageNewError>,
) -> bool {
    &&& lifetime_allowed(b, lifetime)
    &&& is_hpke_key_pair(ciphersuite, init_pair.0, init_pair.1)
    &&& is_hpke_key_pair(ciphersuite, encryption_pair.0, encryption_pair.1)
    &&& match assembled_tbs(
        ciphersuite,
        key,
        credential_with_key.credential@,
        credential_with_key.signature_key@,
        effective_parts(b, lifetime),
        init_pair.1,
        encryption_pair.1,
    ) {
        Err(e) => res == Err::<KeyPackageBundle, KeyPackageNewError>(e) && after == before,
        Ok(t) => build_finish_outcome(key, t, init_pair.0, encryption_pair.0, before, after, res),
    }
}

/// The default lifetime around the time `now`: from one hour before it to
/// twelve weeks after it, saturating at the ends of the range.
pub open spec fn default_lifetime_at(now: u64) -> Lifetime {
    Lifetime {
        not_before: if now >= DEFAULT_KEY_PACKAGE_LIFETIME_MARGIN_SECONDS {
            (now - DEFAULT_KEY_PACKAGE_LIFETIME_MARGIN_SECONDS) as u64
        } else {
            0
        },
        not_after: if now <= u64::MAX - DEFAULT_KEY_PACKAGE_LIFETIME_SECONDS {
            (now + DEFAULT_KEY_PACKAGE_LIFETIME_SECONDS) as u64
        } else {
            u64::MAX
        },
    }
}

impl Lifetime {
    /// The default lifetime around the time `now`.
    pub fn from_now(now: u64) -> (res: Lifetime)
        ensures
            res == default_lifetime_at(now),
    {
        let not_before = if now >= DEFAULT_KEY_PACKAGE_LIFETIME_MARGIN_SECONDS {
            now - DEFAULT_KEY_PACKAGE_LIFETIME_MARGIN_SECONDS
        } else {
            0
        };
        let not_after = if now <= u64::MAX - DEFAULT_KEY_PACKAGE_LIFETIME_SECONDS {
            now + DEFAULT_KEY_PACKAGE_LIFETIME_SECONDS
        } else {
            u64::MAX
        };
        Lifetime { not_before, not_after }
    }
}

impl Default for Lifetime {
    /// The default lifetime around the current time.
    fn default() -> (res: Lifetime)
        ensures
            exists|now: u64| res == default_lifetime_at(now),
            res.not_before <= res.not_after,
    {
        let now = crate::clock::unix_time_now();
        let res = Lifetime::from_now(now);
        assert(res == default_lifetime_at(now));
        res
    }
}

impl KeyPackageBuilder {
    /// A builder with nothing set.
    pub fn new() -> (res: KeyPackageBuilder)
        ensures
            res.key_package_lifetime is None,
            res.key_package_extensions is None,
            res.leaf_node_capabilities is None,
            res.leaf_node_extensions is None,
            !res.last_resort,
    {
        KeyPackageBuilder {
            key_package_lifetime: None,
            key_package_extensions: None,
            leaf_node_capabilities: None,
            leaf_node_extensions: None,
            last_resort: false,
        }
    }

    /// Sets the leaf's lifetime.
    pub fn key_package_lifetime(self, lifetime: Lifetime) -> (res: KeyPackageBuilder)
        ensures
            res == (KeyPackageBuilder { key_package_lifetime: Some(lifetime), ..self }),
    {
        KeyPackageBuilder { key_package_lifetime: Some(lifetime), ..self }
    }

    /// Sets the top-level KeyPackage extensions.
    pub fn key_package_extensions(self, extensions: Extensions) -> (res: KeyPackageBuilder)
        ensures
            res == (KeyPackageBuilder { key_package_extensions: Some(extensions), ..self }),
    {
        KeyPackageBuilder { key_package_extensions: Some(extensions), ..self }
    }

    /// Sets the leaf's capabilities.
    pub fn leaf_node_capabilities(self, capabilities: Capabilities) -> (res: KeyPackageBuilder)
        ensures
            res == (KeyPackageBuilder { leaf_node_capabilities: Some(capabilities), ..self }),
    {
        KeyPackageBuilder { leaf_node_capabilities: Some(capabilities), ..self }
    }

    /// Sets the leaf's extensions.
    pub fn leaf_node_extensions(self, extensions: Extensions) -> (res: KeyPackageBuilder)
        ensures
            res == (KeyPackageBuilder { leaf_node_extensions: Some(extensions), ..self }),
    {
        KeyPackageBuilder { leaf_node_extensions: Some(extensions), ..self }
    }

    /// Marks the KeyPackage as a last-resort KeyPackage.
    pub fn mark_as_last_resort(self) -> (res: KeyPackageBuilder)
        ensures
            res == (KeyPackageBuilder { last_resort: true, ..self }),
    {
        KeyPackageBuilder { last_resort: true, ..self }
    }

    /// Applies the defaults, and the last-resort marking.
    pub(crate) fn into_parts(self) -> (res: BuilderParts)
        ensures
            res.key_package_extensions@ == effective_key_package_extensions(self),
            res.leaf_extensions@ == effective_leaf_extensions(self),
            res.capabilities@ == effective_capabilities(self),
            self.key_package_lifetime matches Some(l) ==> res.lifetime == l,
            self.key_package_lifetime is None ==> exists|now: u64| res.lifetime == default_lifetime_at(now),
    {
        let ghost old_self = self;
        let lifetime = match self.key_package_lifetime {
            Some(l) => l,
            None => Lifetime::default(),
        };
        let mut key_package_extensions = match self.key_package_extensions {
            Some(e) => e,
            None => Extensions::empty(),
        };
        if self.last_resort {
            key_package_extensions.add_or_replace(Extension::last_resort());
        }
        let capabilities = match self.leaf_node_capabilities {
            Some(c) => c,
            None => Capabilities::default(),
        };
        let leaf_extensions = match self.leaf_node_extensions {
            Some(e) => e,
            None => Extensions::empty(),
        };
        BuilderParts { lifetime, key_package_extensions, capabilities, leaf_extensions }
    }
}

/// Assembles the KeyPackageTBS from the parts and two generated key pairs,
/// each a private and a public key, and signs the leaf with `key`: the
/// material that both construction paths share.
pub fn assemble_key_package_tbs(
    ciphersuite: Ciphersuite,
    key: &SignerKey,
    credential_with_key: CredentialWithKey,
    parts: BuilderParts,
    init_pair: (Vec<u8>, Vec<u8>),
    encryption_pair: (Vec<u8>, Vec<u8>),
) -> (res: Result<(KeyPackageTbs, Vec<u8>, Vec<u8>), KeyPackageNewError>)
    ensures
        match assembled_tbs(
            ciphersuite,
            key@,
            credential_with_key.credential@,
            credential_with_key.signature_key@,
            parts@,
            init_pair.1@,
            encryption_pair.1@,
        ) {
            Ok(t) => res matches Ok(r) && r.0@ == t && r.1@ == init_pair.0@ && r.2@ == encryption_pair.0@,
            Err(e) => res == Err::<(KeyPackageTbs, Vec<u8>, Vec<u8>), KeyPackageNewError>(e),
        },
{
    reveal(assembled_tbs);
    let ghost cwk = credential_with_key;
    let ghost pv = parts@;
    let (init_private, init_public) = init_pair;
    let (encryption_private, encryption_public) = encryption_pair;
    let mut leaf_node = LeafNode {
        encryption_key: encryption_public,
        signature_key: credential_with_key.signature_key,
        credential: credential_with_key.credential,
        capabilities: parts.capabilities,
        leaf_node_source: LeafNodeSource::KeyPackage(parts.lifetime),
        extensions: parts.leaf_extensions,
        signature: Vec::new(),
    };
    assert(leaf_node@ == unsigned_leaf(cwk.credential@, cwk.signature_key@, pv, encryption_public@));
    let tbs = match leaf_node.encode_tbs() {
        Some(t) => t,
        None => return Err(KeyPackageNewError::LibraryError(LibraryError)),
    };
    let label = leaf_node_sign_label_bytes();
    let signature = match sign_with_label(key, label.as_slice(), tbs.as_slice()) {
        Some(s) => s,
        None => return Err(KeyPackageNewError::SignatureError(SignatureError::SigningError)),
    };
    leaf_node.signature = signature;
    let key_package_tbs = KeyPackageTbs {
        protocol_version: MLS10,
        ciphersuite,
        init_key: init_public,
        leaf_node,
        extensions: parts.key_package_extensions,
    };
    Ok((key_package_tbs, init_private, encryption_private))
}

/// Signs an assembled KeyPackageTBS with `key`, forms the bundle with the
/// private keys and stores it once under its hash reference: the last step
/// of the one-shot path.
pub fn finish_build(
    provider: &mut Provider,
    key: &SignerKey,
    tbs: KeyPackageTbs,
    private_init_key: Vec<u8>,
    private_encryption_key: Vec<u8>,
) -> (res: Result<KeyPackageBundle, KeyPackageNewError>)
    ensures
        build_finish_outcome(
            key@,
            tbs@,
            private_init_key@,
            private_encryption_key@,
            old(provider).storage@,
            final(provider).storage@,
            res,
        ),
{
    reveal(build_finish_outcome);
    let signature = match sign_key_package_tbs(key, &tbs) {
        Some(s) => s,
        None => return Err(KeyPackageNewError::SignatureError(SignatureError::SigningError)),
    };
    let bundle = KeyPackageBundle {
        key_package: KeyPackage { payload: tbs, signature },
        private_init_key,
        private_encryption_key,
    };
    store_bundle(provider, bundle)
}

/// What a successful one-shot build gives: a freshly built KeyPackageTBS with
/// the private keys that belong to it, both signatures made with `key`, and
/// the bundle written once under its hash reference.
pub proof fn lemma_build_outcome_ok(
    b: KeyPackageBuilder,
    ciphersuite: Ciphersuite,
    key: SpecSignerKey,
    credential_with_key: CredentialWithKey,
    lifetime: Lifetime,
    init_pair: (Seq<u8>, Seq<u8>),
    encryption_pair: (Seq<u8>, Seq<u8>),
    before: Seq<(Seq<u8>, SpecStoredBundle)>,
    after: Seq<(Seq<u8>, SpecStoredBundle)>,
    res: Result<KeyPackageBundle, KeyPackageNewError>,
)
    requires
        build_outcome_with(b, ciphersuite, key, credential_with_key, lifetime, init_pair, encryption_pair, before, after, res),
        res is Ok,
    ensures
        res matches Ok(bundle) ==> {
            &&& fresh_tbs(bundle@.payload, b, ciphersuite, credential_with_key)
            &&& bundle_keys_match(bundle)
            &&& labeled_signature(key, leaf_node_sign_label(), leaf_node_tbs_bytes(bundle@.payload.leaf_node).unwrap())
                == Some(bundle@.payload.leaf_node.signature)
            &&& labeled_signature(key, key_package_sign_label(), key_package_tbs_bytes(bundle@.payload).unwrap())
                == Some(bundle@.signature)
            &&& key_package_hash_ref(bundle@) is Some
            &&& after == storage_write(before, key_package_hash_ref(bundle@).unwrap(), stored_bundle(bundle))
        },
{
    reveal(assembled_tbs);
    reveal(build_finish_outcome);
    let parts = effective_parts(b, lifetime);
    let l = unsigned_leaf(credential_with_key.credential@, credential_with_key.signature_key@, parts, encryption_pair.1);
    let t = assembled_tbs(ciphersuite, key, credential_with_key.credential@, credential_with_key.signature_key@, parts, init_pair.1, encryption_pair.1).unwrap();
    lemma_leaf_tbs_ignores_signature(l, t.leaf_node.signature);
    assert(t.leaf_node == (SpecLeafNode { signature: t.leaf_node.signature, ..l }));
}

/// Signs a KeyPackageTBS with the KeyPackage label; `None` when it cannot be
/// encoded or the signer fails.
fn sign_key_package_tbs(
    key: &SignerKey,
    tbs: &KeyPackageTbs,
) -> (res: Option<Vec<u8>>)
    ensures
        match key_package_tbs_bytes(tbs@) {
            Some(b) => match labeled_signature(key@, key_package_sign_label(), b) {
                Some(s) => res matches Some(v) && v@ == s,
                None => res is None,
            },
            None => res is None,
        },
{
    match tbs.encode() {
        Some(bytes) => {
            let label = key_package_sign_label_bytes();
            sign_with_label(key, label.as_slice(), bytes.as_slice())
        },
        None => None,
    }
}

/// Forms the bundle, computes its hash reference and stores it under that
/// reference; the storage is unchanged on error.
pub(crate) fn store_bundle(provider: &mut Provider, bundle: KeyPackageBundle) -> (res: Result<KeyPackageBundle, KeyPackageNewError>)
    ensures
        res matches Ok(b) ==> b == bundle && key_package_hash_ref(bundle@) is Some
            && final(provider).storage@ == storage_write(old(provider).storage@, key_package_hash_ref(bundle@).unwrap(), stored_bundle(bundle)),
        res is Err ==> res == Err::<KeyPackageBundle, KeyPackageNewError>(KeyPackageNewError::LibraryError(LibraryError))
            && key_package_hash_ref(bundle@) is None && final(provider).storage@ == old(provider).storage@,
        final(provider).crypto == old(provider).crypto,
{
    let hash_ref = match bundle.key_package.hash_ref(&provider.crypto) {
        Ok(h) => h,
        Err(_) => return Err(KeyPackageNewError::LibraryError(LibraryError)),
    };
    let stored = bundle.duplicate();
    provider.storage.write_key_package(hash_ref, stored);
    Ok(bundle)
}

impl KeyPackageBuilder {
    /// Builds, signs and stores a KeyPackage in one step.
    ///
    /// The signer's key material is read first; then the build proceeds as
    /// [`KeyPackageBuilder::build_with_key`] with it.
    pub fn build(
        self,
        ciphersuite: Ciphersuite,
        provider: &mut Provider,
        signer: &openmls_basic_credential::SignatureKeyPair,
        credential_with_key: CredentialWithKey,
    ) -> (res: Result<KeyPackageBundle, KeyPackageNewError>)
        ensures
            res matches Ok(b) ==> {
                &&& fresh_tbs(b@.payload, self, ciphersuite, credential_with_key)
                &&& bundle_keys_match(b)
                &&& key_package_hash_ref(b@) is Some
                &&& final(provider).storage@ == storage_write(old(provider).storage@, key_package_hash_ref(b@).unwrap(), stored_bundle(b))
            },
            res is Err ==> final(provider).storage@ == old(provider).storage@,
            res == Err::<KeyPackageBundle, KeyPackageNewError>(KeyPackageNewError::UnsupportedCiphersuite(ciphersuite))
                ==> !rust_crypto_supports(ciphersuite),
            res matches Err(e) ==> e == KeyPackageNewError::CiphersuiteSignatureSchemeMismatch
                || e == KeyPackageNewError::UnsupportedCiphersuite(ciphersuite)
                || e == KeyPackageNewError::LibraryError(LibraryError)
                || e == KeyPackageNewError::SignatureError(SignatureError::SigningError),
    {
        let key = match signer_key(signer) {
            Some(k) => k,
            None => return Err(KeyPackageNewError::LibraryError(LibraryError)),
        };
        self.build_with_key(ciphersuite, provider, &key, credential_with_key)
    }

    /// Builds, signs with `key` and stores a KeyPackage in one step.
    ///
    /// The signer's scheme must match the ciphersuite, then the provider must
    /// support it (the first failing check is returned); fresh keys are
    /// generated, the leaf and then the KeyPackage are signed, and the bundle
    /// is stored under its hash reference. The staged-only extension checks
    /// are not applied.
    pub fn build_with_key(
        self,
        ciphersuite: Ciphersuite,
        provider: &mut Provider,
        key: &SignerKey,
        credential_with_key: CredentialWithKey,
    ) -> (res: Result<KeyPackageBundle, KeyPackageNewError>)
        ensures
            signer_and_provider_check(ciphersuite, key@.scheme) matches Err(e)
                ==> res == Err::<KeyPackageBundle, KeyPackageNewError>(e),
            signer_and_provider_check(ciphersuite, key@.scheme) is Ok ==> (res matches Err(e)
                ==> e == KeyPackageNewError::LibraryError(LibraryError)
                || e == KeyPackageNewError::SignatureError(SignatureError::SigningError)),
            signer_and_provider_check(ciphersuite, key@.scheme) is Ok ==> {
                ||| res == Err::<KeyPackageBundle, KeyPackageNewError>(KeyPackageNewError::LibraryError(LibraryError))
                    && final(provider).storage@ == old(provider).storage@
                ||| exists|lifetime: Lifetime, init_pair: (Seq<u8>, Seq<u8>), encryption_pair: (Seq<u8>, Seq<u8>)|
                    #[trigger] build_outcome_with(
                        self,
                        ciphersuite,
                        key@,
                        credential_with_key,
                        lifetime,
                        init_pair,
                        encryption_pair,
                        old(provider).storage@,
                        final(provider).storage@,
                        res,
                    )
            },
            res matches Ok(b) ==> {
                &&& signer_and_provider_check(ciphersuite, key@.scheme) is Ok
                &&& fresh_tbs(b@.payload, self, ciphersuite, credential_with_key)
                &&& bundle_keys_match(b)
                &&& labeled_signature(key@, leaf_node_sign_label(), leaf_node_tbs_bytes(b@.payload.leaf_node).unwrap())
                    == Some(b@.payload.leaf_node.signature)
                &&& labeled_signature(key@, key_package_sign_label(), key_package_tbs_bytes(b@.payload).unwrap())
                    == Some(b@.signature)
                &&& key_package_hash_ref(b@) is Some
                &&& final(provider).storage@ == storage_write(old(provider).storage@, key_package_hash_ref(b@).unwrap(), stored_bundle(b))
            },
            res is Err ==> final(provider).storage@ == old(provider).storage@,
            res matches Err(e) ==> e == KeyPackageNewError::CiphersuiteSignatureSchemeMismatch
                || e == KeyPackageNewError::UnsupportedCiphersuite(ciphersuite)
                || e == KeyPackageNewError::LibraryError(LibraryError)
                || e == KeyPackageNewError::SignatureError(SignatureError::SigningError),
    {
        let ghost builder = self;
        let ghost before = provider.storage@;
        let parts = self.into_parts();
        check_signer_and_provider(ciphersuite, provider, key)?;
        let ghost lifetime = parts.lifetime;
        assert(parts@ == effective_parts(builder, lifetime));
        let init_pair = generate_hpke_keypair(&provider.crypto, ciphersuite)?;
        let encryption_pair = generate_hpke_keypair(&provider.crypto, ciphersuite)?;
        let ghost ip = (init_pair.0@, init_pair.1@);
        let ghost ep = (encryption_pair.0@, encryption_pair.1@);
        let (tbs, init_private, encryption_private) =
            match assemble_key_package_tbs(ciphersuite, key, credential_with_key, parts, init_pair, encryption_pair) {
                Ok(r) => r,
                Err(e) => {
                    assert(build_outcome_with(builder, ciphersuite, key@, credential_with_key, lifetime, ip, ep, before, provider.storage@, Err(e)));
                    proof { reveal(assembled_tbs); }
                    return Err(e);
                },
            };
        let res = finish_build(provider, key, tbs, init_private, encryption_private);
        assert(build_outcome_with(builder, ciphersuite, key@, credential_with_key, lifetime, ip, ep, before, provider.storage@, res));
        proof {
            if res is Ok {
                lemma_build_outcome_ok(builder, ciphersuite, key@, credential_with_key, lifetime, ip, ep, before, provider.storage@, res);
            } else {
                reveal(build_finish_outcome);
            }
        }
        res
    }
}

} // verus!

