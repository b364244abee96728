//! Errors of KeyPackage creation, verification and staged construction.

use vstd::prelude::*;

use crate::ciphersuite::Ciphersuite;
use crate::extension_type::ExtensionType;

verus! {

/// An internal invariant of the library did not hold.
#[derive(Debug, Clone, Copy, PartialEq, Eq, Structural)]
pub struct LibraryError;

/// Errors of a leaf node lifetime.
#[derive(Debug, Clone, Copy, PartialEq, Eq, Structural)]
pub enum LifetimeError {
    /// The lifetime range is larger than allowed.
    RangeTooBig,
    /// The lifetime is not current.
    NotCurrent,
}

/// Errors of producing or checking a signature.
#[derive(Debug, Clone, Copy, PartialEq, Eq, Structural)]
pub enum SignatureError {
    /// The signature did not verify.
    VerificationError,
    /// The signature could not be produced.
    SigningError,
}

/// An extension type that may not appear in a KeyPackage's extension list.
#[derive(Debug, Clone, Copy, PartialEq, Eq, Structural)]
pub struct ExtensionTypeNotValidInKeyPackageError(pub ExtensionType);

/// An extension type that may not appear in a leaf node's extension list.
#[derive(Debug, Clone, Copy, PartialEq, Eq, Structural)]
pub struct ExtensionTypeNotValidInLeafNodeError(pub ExtensionType);

/// Errors when building a validated extension list.
#[derive(Debug, Clone, Copy, PartialEq, Eq, Structural)]
pub enum InvalidExtensionError {
    /// Two entries of the list have the same extension type.
    Duplicate,
    /// An entry is not valid in a leaf node.
    ExtensionTypeNotValidInLeafNode(ExtensionTypeNotValidInLeafNodeError),
    /// An entry is not valid in a KeyPackage.
    ExtensionTypeNotValidInKeyPackage(ExtensionTypeNotValidInKeyPackageError),
}

/// Why a byte string is not the TLS encoding of a KeyPackage.
#[derive(Debug, Clone, Copy, PartialEq, Eq, Structural)]
pub enum DecodeError {
    /// The bytes do not begin with a well-formed KeyPackage, or one of its
    /// extension lists holds an entry not allowed there or a repeated type.
    Malformed,
    /// A well-formed KeyPackage is followed by further bytes.
    TrailingData,
}

/// KeyPackage verify error
#[derive(Debug, Clone, Copy, PartialEq, Eq, Structural)]
pub enum KeyPackageVerifyError {
    /// See [`LibraryError`] for more details.
    LibraryError(LibraryError),
    /// See [`LifetimeError`] for more details.
    LifetimeError(LifetimeError),
    /// The lifetime of the leaf node is missing.
    MissingLifetime,
    /// A key package extension is not supported in the leaf's capabilities.
    UnsupportedExtension,
    /// The key package signature is not valid.
    InvalidSignature,
    /// The leaf node signature is not valid.
    InvalidLeafNodeSignature,
    /// Invalid LeafNode source type
    InvalidLeafNodeSourceType,
    /// The init key and the encryption key are equal.
    InitKeyEqualsEncryptionKey,
    /// The protocol version is not valid.
    InvalidProtocolVersion,
    /// The provided extension is not allowed in key packages
    ExtensionTypeNotValidInKeyPackage(ExtensionTypeNotValidInKeyPackageError),
}

/// KeyPackage extension support error
#[derive(Debug, Clone, Copy, PartialEq, Eq, Structural)]
pub enum KeyPackageExtensionSupportError {
    /// The key package does not support all required extensions.
    UnsupportedExtension,
}

/// KeyPackage new error
#[derive(Debug, Clone, Copy, PartialEq, Eq, Structural)]
pub enum KeyPackageNewError {
    /// See [`LibraryError`] for more details.
    LibraryError(LibraryError),
    /// The ciphersuite does not match the signature scheme.
    CiphersuiteSignatureSchemeMismatch,
    /// The ciphersuite is not supported by the crypto provider.
    UnsupportedCiphersuite(Ciphersuite),
    /// Accessing storage failed.
    StorageError,
    /// See [`SignatureError`] for more details.
    SignatureError(SignatureError),
}

/// Location of an extension list checked during staged KeyPackage preparation.
#[derive(Debug, Clone, Copy, PartialEq, Eq, Structural)]
pub enum StagedExtensionLocation {
    /// The top-level KeyPackage extension list.
    KeyPackage,
    /// The LeafNode extension list.
    LeafNode,
}

/// Errors returned by the staged KeyPackage construction API.
#[derive(Debug, Clone, Copy, PartialEq, Eq, Structural)]
pub enum KeyPackageStagingError {
    /// An error from the ordinary KeyPackage creation path.
    KeyPackageNewError(KeyPackageNewError),
    /// The selected code point is recognized or GREASE in this build.
    InvalidBindingExtensionType(u16),
    /// The builder already contains the designated binding code point.
    DuplicateBindingExtension(u16),
    /// The designated binding type is absent from leaf capabilities.
    BindingExtensionNotAdvertised(u16),
    /// A retained extension has a non-canonical enum/numeric representation.
    NonCanonicalExtensionType {
        /// The extension-list location.
        location: StagedExtensionLocation,
        /// The encoded extension type.
        extension_type: u16,
    },
    /// Two retained extensions encode the same numeric type.
    DuplicateExtensionType {
        /// The extension-list location.
        location: StagedExtensionLocation,
        /// The encoded extension type.
        extension_type: u16,
    },
    /// A retained extension is not valid in its list.
    InvalidExtensionForLocation {
        /// The extension-list location.
        location: StagedExtensionLocation,
        /// The encoded extension type.
        extension_type: u16,
    },
    /// A retained extension is not advertised in leaf capabilities.
    ExtensionNotAdvertised {
        /// The extension-list location.
        location: StagedExtensionLocation,
        /// The encoded extension type.
        extension_type: u16,
    },
    /// The supplied external binding is empty.
    EmptyBinding,
    /// The designated binding is absent from a final KeyPackage.
    MissingBindingExtension(u16),
    /// A signature did not verify under the frozen credential key.
    SignerMismatch,
    /// Canonical TLS serialization failed.
    TlsSerializationError,
}

impl KeyPackageStagingError {
    /// Wraps an error of the ordinary creation path, as `From` does.
    pub fn from_new_error(error: KeyPackageNewError) -> (res: Self)
        ensures
            res == KeyPackageStagingError::KeyPackageNewError(error),
    {
        KeyPackageStagingError::KeyPackageNewError(error)
    }
}

} // verus!
