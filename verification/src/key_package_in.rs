//! KeyPackages as received from the wire: decoding and validation.

use vstd::prelude::*;

use crate::builder::{key_package_signature_valid, leaf_signature_valid};
use crate::ciphersuite::MLS10;
use crate::crypto::{key_package_sign_label_bytes, leaf_node_sign_label_bytes, verify_with_label};
use crate::decoding::{read_key_package, read_key_package_tbs};
use crate::errors::{
    DecodeError, ExtensionTypeNotValidInKeyPackageError, KeyPackageVerifyError,
    StagedExtensionLocation,
};
use crate::extension_type::{is_default_extension_type, valid_in_key_package, ExtensionType};
use crate::extensions::{extension_list_error, Extensions, SpecExtension};
use crate::key_package::{KeyPackage, KeyPackageTbs, SpecKeyPackage, SpecKeyPackageTbs};
use crate::leaf_node::{leaf_node_tbs_bytes, LeafNode, SpecCapabilities, SpecLeafNodeSource};
use crate::storage::bytes_equal;
use crate::structure_codec::{parse_key_package, parse_key_package_tbs};

verus! {

/// An MLS protocol version.
#[derive(Debug, Clone, Copy, PartialEq, Eq, Structural)]
pub enum ProtocolVersion {
    /// MLS 1.0.
    Mls10,
    /// A version this library does not know, by its code point.
    Other(u16),
}

/// The code point of a protocol version.
pub open spec fn protocol_version_code(v: ProtocolVersion) -> u16 {
    match v {
        ProtocolVersion::Mls10 => MLS10,
        ProtocolVersion::Other(c) => c,
    }
}

impl ProtocolVersion {
    /// The code point of this version.
    pub fn code(&self) -> (res: u16)
        ensures
            res == protocol_version_code(*self),
    {
        match self {
            ProtocolVersion::Mls10 => MLS10,
            ProtocolVersion::Other(c) => *c,
        }
    }
}

/// A KeyPackage that has been received but not validated.
#[derive(Debug, PartialEq, Eq)]
pub struct KeyPackageIn {
    /// The signed content.
    pub payload: KeyPackageTbs,
    /// The outer KeyPackage signature.
    pub signature: Vec<u8>,
}

impl View for KeyPackageIn {
    type V = SpecKeyPackage;

    open spec fn view(&self) -> SpecKeyPackage {
        SpecKeyPackage { payload: self.payload@, signature: self.signature@ }
    }
}

impl From<KeyPackage> for KeyPackageIn {
    fn from(key_package: KeyPackage) -> (res: KeyPackageIn) {
        KeyPackageIn { payload: key_package.payload, signature: key_package.signature }
    }
}

impl vstd::std_specs::convert::FromSpecImpl<KeyPackage> for KeyPackageIn {
    open spec fn obeys_from_spec() -> bool {
        true
    }

    open spec fn from_spec(v: KeyPackage) -> KeyPackageIn {
        KeyPackageIn { payload: v.payload, signature: v.signature }
    }
}

/// Whether both extension lists of a KeyPackage are valid where they stand:
/// each entry allowed at its location and no type repeated.
pub open spec fn extension_lists_valid(k: SpecKeyPackage) -> bool {
    &&& extension_list_error(StagedExtensionLocation::LeafNode, k.payload.leaf_node.extensions) is None
    &&& extension_list_error(StagedExtensionLocation::KeyPackage, k.payload.extensions) is None
}

/// What decoding a whole byte string as a KeyPackage gives: the KeyPackage
/// that the bytes encode exactly, with valid extension lists.
pub open spec fn decode_key_package(b: Seq<u8>) -> Result<SpecKeyPackage, DecodeError> {
    match parse_key_package(b) {
        Some((k, rest)) => if !extension_lists_valid(k) {
            Err(DecodeError::Malformed)
        } else if rest.len() > 0 {
            Err(DecodeError::TrailingData)
        } else {
            Ok(k)
        },
        None => Err(DecodeError::Malformed),
    }
}

/// What decoding a whole byte string as a KeyPackageTBS gives: the
/// KeyPackageTBS that the bytes encode exactly. The extension lists are not
/// checked.
pub open spec fn decode_key_package_tbs(b: Seq<u8>) -> Result<SpecKeyPackageTbs, DecodeError> {
    match parse_key_package_tbs(b) {
        Some((t, rest)) => if rest.len() > 0 {
            Err(DecodeError::TrailingData)
        } else {
            Ok(t)
        },
        None => Err(DecodeError::Malformed),
    }
}

/// The first top-level extension type that may not appear in a KeyPackage.
pub open spec fn first_not_valid_in_key_package(s: Seq<SpecExtension>) -> Option<ExtensionType>
    decreases s.len(),
{
    if s.len() == 0 {
        None
    } else if !valid_in_key_package(s[0].extension_type) {
        Some(s[0].extension_type)
    } else {
        first_not_valid_in_key_package(s.skip(1))
    }
}

/// Whether a leaf with capabilities `c` supports extension type `t`: the
/// default types always, any other type when advertised.
pub open spec fn supports_extension(c: SpecCapabilities, t: ExtensionType) -> bool {
    is_default_extension_type(t) || c.extensions.contains(t)
}

/// Whether the leaf node signature of a KeyPackageTBS verifies.
pub open spec fn leaf_signature_verifies(t: SpecKeyPackageTbs) -> bool {
    leaf_node_tbs_bytes(t.leaf_node) is Some && leaf_signature_valid(t)
}

/// The first check that a received KeyPackage fails, if any, in the order
/// of validation: leaf source, leaf signature, protocol version, distinct
/// init and encryption keys, outer signature, extension types allowed in a
/// KeyPackage, and extension support by the leaf.
pub open spec fn validation_error(k: SpecKeyPackage, version: u16) -> Option<KeyPackageVerifyError> {
    let t = k.payload;
    if !(t.leaf_node.leaf_node_source is KeyPackage) {
        Some(KeyPackageVerifyError::InvalidLeafNodeSourceType)
    } else if !leaf_signature_verifies(t) {
        Some(KeyPackageVerifyError::InvalidLeafNodeSignature)
    } else if t.protocol_version != version {
        Some(KeyPackageVerifyError::InvalidProtocolVersion)
    } else if t.init_key == t.leaf_node.encryption_key {
        Some(KeyPackageVerifyError::InitKeyEqualsEncryptionKey)
    } else if !key_package_signature_valid(k) {
        Some(KeyPackageVerifyError::InvalidSignature)
    } else {
        match first_not_valid_in_key_package(t.extensions) {
            Some(x) => Some(KeyPackageVerifyError::ExtensionTypeNotValidInKeyPackage(
                ExtensionTypeNotValidInKeyPackageError(x),
            )),
            None => if !(forall|i: int| 0 <= i < t.extensions.len()
                ==> supports_extension(t.leaf_node.capabilities, #[trigger] t.extensions[i].extension_type)) {
                Some(KeyPackageVerifyError::UnsupportedExtension)
            } else {
                None
            },
        }
    }
}

/// Checks that both extension lists are valid where they stand, and gives
/// the KeyPackage back when they are.
fn check_extension_lists(key_package: KeyPackage) -> (res: Option<KeyPackage>)
    ensures
        extension_lists_valid(key_package@) ==> (res matches Some(k) && k@ == key_package@),
        !extension_lists_valid(key_package@) ==> res is None,
{
    let KeyPackage { payload, signature } = key_package;
    let KeyPackageTbs { protocol_version, ciphersuite, init_key, leaf_node, extensions } = payload;
    let LeafNode {
        encryption_key,
        signature_key,
        credential,
        capabilities,
        leaf_node_source,
        extensions: leaf_extensions,
        signature: leaf_signature,
    } = leaf_node;
    let leaf_extensions = match Extensions::from_vec(StagedExtensionLocation::LeafNode, leaf_extensions.unique) {
        Ok(l) => l,
        Err(_) => return None,
    };
    let extensions = match Extensions::from_vec(StagedExtensionLocation::KeyPackage, extensions.unique) {
        Ok(l) => l,
        Err(_) => return None,
    };
    let leaf_node = LeafNode {
        encryption_key,
        signature_key,
        credential,
        capabilities,
        leaf_node_source,
        extensions: leaf_extensions,
        signature: leaf_signature,
    };
    let payload = KeyPackageTbs { protocol_version, ciphersuite, init_key, leaf_node, extensions };
    Some(KeyPackage { payload, signature })
}

impl KeyPackageIn {
    /// Decodes `bytes` as exactly one TLS-encoded KeyPackage.
    ///
    /// Both extension lists are checked as they are read: an entry not
    /// allowed at its location, or a type that occurs twice, is malformed.
    pub fn tls_deserialize_exact(bytes: &[u8]) -> (res: Result<KeyPackageIn, DecodeError>)
        ensures
            match decode_key_package(bytes@) {
                Ok(k) => res matches Ok(x) && x@ == k,
                Err(e) => res == Err::<KeyPackageIn, DecodeError>(e),
            },
    {
        assert(bytes@.skip(0) =~= bytes@);
        let (key_package, end) = match read_key_package(bytes, 0) {
            Some(x) => x,
            None => return Err(DecodeError::Malformed),
        };
        let key_package = match check_extension_lists(key_package) {
            Some(k) => k,
            None => return Err(DecodeError::Malformed),
        };
        if end < bytes.len() {
            return Err(DecodeError::TrailingData);
        }
        assert(bytes@.skip(end as int).len() == 0);
        Ok(KeyPackageIn::from(key_package))
    }

    /// Validates this KeyPackage for `protocol_version` and gives back the
    /// validated KeyPackage, or the first check that fails.
    ///
    /// The lifetime is not checked here.
    #[verifier::loop_isolation(false)]
    pub fn validate(
        self,
        crypto: &openmls_rust_crypto::RustCrypto,
        protocol_version: ProtocolVersion,
    ) -> (res: Result<KeyPackage, KeyPackageVerifyError>)
        ensures
            match validation_error(self@, protocol_version_code(protocol_version)) {
                Some(e) => res == Err::<KeyPackage, KeyPackageVerifyError>(e),
                None => res matches Ok(k) && k@ == self@,
            },
    {
        let t = &self.payload;
        match &t.leaf_node.leaf_node_source {
            crate::leaf_node::LeafNodeSource::KeyPackage(_) => {},
            _ => return Err(KeyPackageVerifyError::InvalidLeafNodeSourceType),
        }
        let scheme = t.ciphersuite.signature_algorithm();
        let leaf_tbs = match t.leaf_node.encode_tbs() {
            Some(b) => b,
            None => return Err(KeyPackageVerifyError::InvalidLeafNodeSignature),
        };
        let leaf_label = leaf_node_sign_label_bytes();
        if !verify_with_label(
            crypto,
            scheme,
            leaf_label.as_slice(),
            leaf_tbs.as_slice(),
            t.leaf_node.signature_key.as_slice(),
            t.leaf_node.signature.as_slice(),
        ) {
            return Err(KeyPackageVerifyError::InvalidLeafNodeSignature);
        }
        if t.protocol_version != protocol_version.code() {
            return Err(KeyPackageVerifyError::InvalidProtocolVersion);
        }
        if bytes_equal(t.init_key.as_slice(), t.leaf_node.encryption_key.as_slice()) {
            return Err(KeyPackageVerifyError::InitKeyEqualsEncryptionKey);
        }
        let tbs = match t.encode() {
            Some(b) => b,
            None => return Err(KeyPackageVerifyError::InvalidSignature),
        };
        let label = key_package_sign_label_bytes();
        if !verify_with_label(
            crypto,
            scheme,
            label.as_slice(),
            tbs.as_slice(),
            t.leaf_node.signature_key.as_slice(),
            self.signature.as_slice(),
        ) {
            return Err(KeyPackageVerifyError::InvalidSignature);
        }
        let entries = t.extensions.as_slice();
        let ghost s = t.extensions@;
        let mut i: usize = 0;
        assert(s.skip(0) =~= s);
        while i < entries.len()
            invariant
                entries@.map_values(|e: crate::extensions::Extension| e@) == s,
                i <= entries@.len(),
                first_not_valid_in_key_package(s) == first_not_valid_in_key_package(s.skip(i as int)),
            decreases entries@.len() - i,
        {
            let x = entries[i].extension_type;
            assert(s.skip(i as int)[0] == s[i as int]);
            if !x.is_valid_in_key_package() {
                return Err(KeyPackageVerifyError::ExtensionTypeNotValidInKeyPackage(
                    ExtensionTypeNotValidInKeyPackageError(x),
                ));
            }
            assert(s.skip(i as int).skip(1) =~= s.skip(i + 1));
            i = i + 1;
        }
        assert(s.skip(i as int).len() == 0);
        let capabilities = &t.leaf_node.capabilities;
        let advertised = capabilities.advertised_extensions();
        let mut j: usize = 0;
        while j < entries.len()
            invariant
                entries@.map_values(|e: crate::extensions::Extension| e@) == s,
                j <= entries@.len(),
                forall|k: int| 0 <= k < j ==> supports_extension(capabilities@, #[trigger] s[k].extension_type),
            decreases entries@.len() - j,
        {
            let x = entries[j].extension_type;
            if !x.is_default() && !advertised.contains(x) {
                assert(!supports_extension(capabilities@, s[j as int].extension_type));
                return Err(KeyPackageVerifyError::UnsupportedExtension);
            }
            j = j + 1;
        }
        Ok(KeyPackage { payload: self.payload, signature: self.signature })
    }
}

impl KeyPackageTbs {
    /// Decodes `bytes` as exactly one TLS-encoded KeyPackageTBS, such as the
    /// canonical binding bytes of a prepared KeyPackage. The extension lists
    /// are taken as they are encoded, without checks.
    pub fn tls_deserialize_exact(bytes: &[u8]) -> (res: Result<KeyPackageTbs, DecodeError>)
        ensures
            match decode_key_package_tbs(bytes@) {
                Ok(t) => res matches Ok(x) && x@ == t,
                Err(e) => res == Err::<KeyPackageTbs, DecodeError>(e),
            },
    {
        assert(bytes@.skip(0) =~= bytes@);
        let (tbs, end) = match read_key_package_tbs(bytes, 0) {
            Some(x) => x,
            None => return Err(DecodeError::Malformed),
        };
        if end < bytes.len() {
            return Err(DecodeError::TrailingData);
        }
        assert(bytes@.skip(end as int).len() == 0);
        Ok(tbs)
    }
}

} // verus!
