//! KeyPackages, their to-be-signed part, bundles, hash references and the
//! verifier's recomputation of the canonical binding bytes.

use vstd::prelude::*;

use crate::ciphersuite::{ciphersuite_code, ciphersuite_hash_length, Ciphersuite};
use crate::crypto::{
    digest, encode_labeled_content, key_package_ref_label, key_package_ref_label_bytes,
    labeled_content, spec_digest, spec_hpke_key_pair,
};
use crate::errors::{KeyPackageStagingError, LibraryError};
use crate::extension_type::{extension_type_from_code, ExtensionType};
use crate::extensions::{
    extension_vector, first_index_of_type, remove_first_of_type, Extensions, SpecExtension,
};
use crate::leaf_node::{leaf_node_bytes, LeafNode, SpecLeafNode};
use crate::tls::{concat_opt, encode_u16, encode_vl, opt_cat, u16_bytes, vl_opt};

verus! {

/// The to-be-signed part of a KeyPackage (`KeyPackageTBS`).
#[derive(Debug, PartialEq, Eq)]
pub struct KeyPackageTbs {
    /// The protocol version code point.
    pub protocol_version: u16,
    /// The ciphersuite.
    pub ciphersuite: Ciphersuite,
    /// The HPKE init public key.
    pub init_key: Vec<u8>,
    /// The signed leaf node.
    pub leaf_node: LeafNode,
    /// The top-level KeyPackage extensions.
    pub extensions: Extensions,
}

/// The mathematical value of a [`KeyPackageTbs`].
pub struct SpecKeyPackageTbs {
    /// The protocol version code point.
    pub protocol_version: u16,
    /// The ciphersuite.
    pub ciphersuite: Ciphersuite,
    /// The HPKE init public key.
    pub init_key: Seq<u8>,
    /// The signed leaf node.
    pub leaf_node: SpecLeafNode,
    /// The top-level KeyPackage extensions.
    pub extensions: Seq<SpecExtension>,
}

impl View for KeyPackageTbs {
    type V = SpecKeyPackageTbs;

    open spec fn view(&self) -> SpecKeyPackageTbs {
        SpecKeyPackageTbs {
            protocol_version: self.protocol_version,
            ciphersuite: self.ciphersuite,
            init_key: self.init_key@,
            leaf_node: self.leaf_node@,
            extensions: self.extensions@,
        }
    }
}

/// A signed KeyPackage.
#[derive(Debug, PartialEq, Eq)]
pub struct KeyPackage {
    /// The signed content.
    pub payload: KeyPackageTbs,
    /// The outer KeyPackage signature over `payload`.
    pub signature: Vec<u8>,
}

/// The mathematical value of a [`KeyPackage`].
pub struct SpecKeyPackage {
    /// The signed content.
    pub payload: SpecKeyPackageTbs,
    /// The outer signature.
    pub signature: Seq<u8>,
}

impl View for KeyPackage {
    type V = SpecKeyPackage;

    open spec fn view(&self) -> SpecKeyPackage {
        SpecKeyPackage { payload: self.payload@, signature: self.signature@ }
    }
}

/// A KeyPackage together with the private keys of its init key and of its
/// leaf's encryption key.
pub struct KeyPackageBundle {
    /// The KeyPackage.
    pub key_package: KeyPackage,
    /// The HPKE private key of the init key.
    pub private_init_key: Vec<u8>,
    /// The HPKE private key of the leaf's encryption key.
    pub private_encryption_key: Vec<u8>,
}

/// Whether `private` and `public` are an HPKE key pair derived for `cs`
/// from input key material of the ciphersuite's hash length.
pub open spec fn is_hpke_key_pair(cs: Ciphersuite, private: Seq<u8>, public: Seq<u8>) -> bool {
    exists|ikm: Seq<u8>| ikm.len() == ciphersuite_hash_length(cs)
        && #[trigger] spec_hpke_key_pair(ciphersuite_code(cs), ikm) == (private, public)
}

/// Whether two private keys belong to a KeyPackageTBS: the first to its init
/// key and the second to its leaf's encryption key.
pub open spec fn private_keys_match(t: SpecKeyPackageTbs, private_init_key: Seq<u8>, private_encryption_key: Seq<u8>) -> bool {
    &&& is_hpke_key_pair(t.ciphersuite, private_init_key, t.init_key)
    &&& is_hpke_key_pair(t.ciphersuite, private_encryption_key, t.leaf_node.encryption_key)
}

/// Whether a bundle's private keys belong to its KeyPackage.
pub open spec fn bundle_keys_match(b: KeyPackageBundle) -> bool {
    private_keys_match(b.key_package@.payload, b.private_init_key@, b.private_encryption_key@)
}

/// The TLS encoding of a KeyPackageTBS.
#[verifier::opaque]
pub open spec fn key_package_tbs_bytes(t: SpecKeyPackageTbs) -> Option<Seq<u8>> {
    opt_cat(
        opt_cat(
            opt_cat(
                Some(u16_bytes(t.protocol_version) + u16_bytes(ciphersuite_code(t.ciphersuite))),
                vl_opt(t.init_key),
            ),
            leaf_node_bytes(t.leaf_node),
        ),
        extension_vector(t.extensions),
    )
}

/// The TLS encoding of a KeyPackage.
pub open spec fn key_package_bytes(k: SpecKeyPackage) -> Option<Seq<u8>> {
    opt_cat(key_package_tbs_bytes(k.payload), vl_opt(k.signature))
}

/// The hash reference of a KeyPackage: the digest of the labeled encoding of
/// the KeyPackage under its ciphersuite's hash function.
pub open spec fn key_package_hash_ref(k: SpecKeyPackage) -> Option<Seq<u8>> {
    match key_package_bytes(k) {
        Some(b) => match labeled_content(key_package_ref_label(), b) {
            Some(input) => Some(spec_digest(ciphersuite_code(k.payload.ciphersuite), input)),
            None => None,
        },
        None => None,
    }
}

/// A KeyPackageTBS with its extension list replaced.
pub open spec fn tbs_with_extensions(t: SpecKeyPackageTbs, extensions: Seq<SpecExtension>) -> SpecKeyPackageTbs {
    SpecKeyPackageTbs { extensions, ..t }
}

/// Whether `code` is a code point that this build does not recognize and
/// that is not GREASE, so that it can designate a binding extension.
pub open spec fn is_binding_code(code: u16) -> bool {
    extension_type_from_code(code) == ExtensionType::Unknown(code)
}

/// The canonical binding bytes that a verifier recomputes from a KeyPackage's
/// to-be-signed part for the binding code point `code`: the code point must
/// designate an unknown extension, the first extension of that type must be
/// present and non-empty, and the result is the TLS encoding of the
/// KeyPackageTBS without that extension.
pub open spec fn recomputed_binding_bytes(t: SpecKeyPackageTbs, code: u16) -> Result<Seq<u8>, KeyPackageStagingError> {
    if !is_binding_code(code) {
        Err(KeyPackageStagingError::InvalidBindingExtensionType(code))
    } else {
        match first_index_of_type(t.extensions, ExtensionType::Unknown(code)) {
            None => Err(KeyPackageStagingError::MissingBindingExtension(code)),
            Some(i) => if t.extensions[i].data.len() == 0 {
                Err(KeyPackageStagingError::EmptyBinding)
            } else {
                match key_package_tbs_bytes(
                    tbs_with_extensions(t, remove_first_of_type(t.extensions, ExtensionType::Unknown(code))),
                ) {
                    Some(b) => Ok(b),
                    None => Err(KeyPackageStagingError::TlsSerializationError),
                }
            },
        }
    }
}

impl KeyPackageTbs {
    /// The TLS encoding; `None` when a part is too long.
    pub fn encode(&self) -> (res: Option<Vec<u8>>)
        ensures
            res is Some <==> key_package_tbs_bytes(self@) is Some,
            res matches Some(v) ==> key_package_tbs_bytes(self@) == Some(v@),
    {
        reveal(key_package_tbs_bytes);
        let mut head = encode_u16(self.protocol_version);
        let cs = encode_u16(self.ciphersuite.code());
        crate::tls::append_bytes(&mut head, cs.as_slice());
        let a = concat_opt(Some(head), encode_vl(self.init_key.as_slice()));
        let b = concat_opt(a, self.leaf_node.encode());
        concat_opt(b, self.extensions.encode())
    }

    /// A copy of this KeyPackageTBS.
    pub fn duplicate(&self) -> (res: KeyPackageTbs)
        ensures
            res@ == self@,
    {
        KeyPackageTbs {
            protocol_version: self.protocol_version,
            ciphersuite: self.ciphersuite,
            init_key: crate::leaf_node::copy_bytes(self.init_key.as_slice()),
            leaf_node: self.leaf_node.duplicate(),
            extensions: self.extensions.duplicate(),
        }
    }
}

impl KeyPackage {
    /// A builder with nothing set.
    pub fn builder() -> (res: crate::builder::KeyPackageBuilder)
        ensures
            res.key_package_lifetime is None,
            res.key_package_extensions is None,
            res.leaf_node_capabilities is None,
            res.leaf_node_extensions is None,
            !res.last_resort,
    {
        crate::builder::KeyPackageBuilder::new()
    }

    /// The TLS encoding; `None` when a part is too long.
    pub fn encode(&self) -> (res: Option<Vec<u8>>)
        ensures
            res is Some <==> key_package_bytes(self@) is Some,
            res matches Some(v) ==> key_package_bytes(self@) == Some(v@),
    {
        concat_opt(self.payload.encode(), encode_vl(self.signature.as_slice()))
    }

    /// The KeyPackage's hash reference under its ciphersuite.
    pub fn hash_ref(&self, crypto: &openmls_rust_crypto::RustCrypto) -> (res: Result<Vec<u8>, LibraryError>)
        ensures
            res is Ok <==> key_package_hash_ref(self@) is Some,
            res matches Ok(v) ==> key_package_hash_ref(self@) == Some(v@),
    {
        let encoded = match self.encode() {
            Some(e) => e,
            None => return Err(LibraryError),
        };
        let label = key_package_ref_label_bytes();
        let input = match encode_labeled_content(label.as_slice(), encoded.as_slice()) {
            Some(i) => i,
            None => return Err(LibraryError),
        };
        match digest(crypto, self.payload.ciphersuite, input.as_slice()) {
            Ok(d) => Ok(d),
            Err(_) => Err(LibraryError),
        }
    }

    /// Recomputes the canonical binding bytes for the binding code point
    /// `binding_extension_type`: the TLS encoding of this KeyPackage's
    /// to-be-signed part with the designated binding extension removed.
    ///
    /// This is a structural canonicalization, not a validation: the caller
    /// must have validated the KeyPackage as its use requires.
    pub fn canonical_binding_bytes(&self, binding_extension_type: u16) -> (res: Result<Vec<u8>, KeyPackageStagingError>)
        ensures
            match recomputed_binding_bytes(self@.payload, binding_extension_type) {
                Ok(b) => res matches Ok(v) && v@ == b,
                Err(e) => res == Err::<Vec<u8>, KeyPackageStagingError>(e),
            },
    {
        let code = binding_extension_type;
        if ExtensionType::from_code(code) != ExtensionType::Unknown(code) {
            return Err(KeyPackageStagingError::InvalidBindingExtensionType(code));
        }
        let t = ExtensionType::Unknown(code);
        match self.payload.extensions.position(t) {
            None => Err(KeyPackageStagingError::MissingBindingExtension(code)),
            Some(i) => {
                assert(self.payload.extensions@[i as int] == self.payload.extensions.unique@[i as int]@);
                if self.payload.extensions.unique[i].extension_data.len() == 0 {
                    return Err(KeyPackageStagingError::EmptyBinding);
                }
                let mut stripped = self.payload.duplicate();
                let _ = stripped.extensions.remove(t);
                assert(stripped@ == tbs_with_extensions(
                    self@.payload,
                    remove_first_of_type(self@.payload.extensions, t),
                ));
                match stripped.encode() {
                    Some(b) => Ok(b),
                    None => Err(KeyPackageStagingError::TlsSerializationError),
                }
            },
        }
    }

    /// The top-level extensions.
    pub fn extensions(&self) -> (res: &Extensions)
        ensures
            res@ == self@.payload.extensions,
    {
        &self.payload.extensions
    }

    /// The leaf node.
    pub fn leaf_node(&self) -> (res: &LeafNode)
        ensures
            res@ == self@.payload.leaf_node,
    {
        &self.payload.leaf_node
    }

    /// The ciphersuite.
    pub fn ciphersuite(&self) -> (res: Ciphersuite)
        ensures
            res == self@.payload.ciphersuite,
    {
        self.payload.ciphersuite
    }

    /// The protocol version code point.
    pub fn protocol_version(&self) -> (res: u16)
        ensures
            res == self@.payload.protocol_version,
    {
        self.payload.protocol_version
    }

    /// The HPKE init public key.
    pub fn init_key(&self) -> (res: &[u8])
        ensures
            res@ == self@.payload.init_key,
    {
        self.payload.init_key.as_slice()
    }

    /// The outer KeyPackage signature.
    pub fn signature(&self) -> (res: &[u8])
        ensures
            res@ == self@.signature,
    {
        self.signature.as_slice()
    }

    /// Whether the KeyPackage carries a `last_resort` extension.
    pub fn last_resort(&self) -> (res: bool)
        ensures
            res == exists|j: int| 0 <= j < self@.payload.extensions.len()
                && #[trigger] self@.payload.extensions[j].extension_type == ExtensionType::LastResort,
    {
        self.payload.extensions.contains(ExtensionType::LastResort)
    }

    /// A copy of this KeyPackage.
    pub fn duplicate(&self) -> (res: KeyPackage)
        ensures
            res@ == self@,
    {
        KeyPackage { payload: self.payload.duplicate(), signature: crate::leaf_node::copy_bytes(self.signature.as_slice()) }
    }
}

impl KeyPackageBundle {
    /// The KeyPackage.
    pub fn key_package(&self) -> (res: &KeyPackage)
        ensures
            res@ == self.key_package@,
    {
        &self.key_package
    }

    /// The HPKE private key of the init key.
    pub fn init_private_key(&self) -> (res: &[u8])
        ensures
            res@ == self.private_init_key@,
    {
        self.private_init_key.as_slice()
    }

    /// The HPKE private key of the leaf's encryption key.
    pub fn encryption_private_key(&self) -> (res: &[u8])
        ensures
            res@ == self.private_encryption_key@,
    {
        self.private_encryption_key.as_slice()
    }

    /// A copy of this bundle.
    pub fn duplicate(&self) -> (res: KeyPackageBundle)
        ensures
            res.key_package@ == self.key_package@,
            res.private_init_key@ == self.private_init_key@,
            res.private_encryption_key@ == self.private_encryption_key@,
    {
        KeyPackageBundle {
            key_package: self.key_package.duplicate(),
            private_init_key: crate::leaf_node::copy_bytes(self.private_init_key.as_slice()),
            private_encryption_key: crate::leaf_node::copy_bytes(self.private_encryption_key.as_slice()),
        }
    }
}

} // verus!
