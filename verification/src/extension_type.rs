//! Extension types, their numeric code points and where they may appear.

use vstd::prelude::*;

verus! {

/// The type of an MLS extension as recognized by this build.
///
/// Code points that this build does not recognize, and that are not GREASE
/// values, are carried as `Unknown(code_point)`.
#[derive(Debug, Clone, Copy, PartialEq, Eq, Structural)]
pub enum ExtensionType {
    /// application_id (0x0001)
    ApplicationId,
    /// ratchet_tree (0x0002)
    RatchetTree,
    /// required_capabilities (0x0003)
    RequiredCapabilities,
    /// external_pub (0x0004)
    ExternalPub,
    /// external_senders (0x0005)
    ExternalSenders,
    /// last_resort (0x000a)
    LastResort,
    /// A GREASE code point (RFC 9420, Section 13.5).
    Grease(u16),
    /// A code point not recognized by this build.
    Unknown(u16),
}

/// The GREASE code points 0x0A0A, 0x1A1A, ..., 0xEAEA of RFC 9420.
pub open spec fn is_grease_code(code: u16) -> bool {
    code % 0x1010 == 0x0a0a && code <= 0xeaea
}

/// The extension type that a code point denotes in this build.
pub open spec fn extension_type_from_code(code: u16) -> ExtensionType {
    if code == 1 {
        ExtensionType::ApplicationId
    } else if code == 2 {
        ExtensionType::RatchetTree
    } else if code == 3 {
        ExtensionType::RequiredCapabilities
    } else if code == 4 {
        ExtensionType::ExternalPub
    } else if code == 5 {
        ExtensionType::ExternalSenders
    } else if code == 10 {
        ExtensionType::LastResort
    } else if is_grease_code(code) {
        ExtensionType::Grease(code)
    } else {
        ExtensionType::Unknown(code)
    }
}

/// The code point that an extension type is encoded as.
pub open spec fn extension_type_code(t: ExtensionType) -> u16 {
    match t {
        ExtensionType::ApplicationId => 1,
        ExtensionType::RatchetTree => 2,
        ExtensionType::RequiredCapabilities => 3,
        ExtensionType::ExternalPub => 4,
        ExtensionType::ExternalSenders => 5,
        ExtensionType::LastResort => 10,
        ExtensionType::Grease(code) => code,
        ExtensionType::Unknown(code) => code,
    }
}

/// An extension type is canonical when decoding its code point gives it back.
pub open spec fn is_canonical_extension_type(t: ExtensionType) -> bool {
    extension_type_from_code(extension_type_code(t)) == t
}

/// The extension types that may appear in a leaf node's extension list.
pub open spec fn valid_in_leaf_node(t: ExtensionType) -> bool {
    match t {
        ExtensionType::ApplicationId => true,
        ExtensionType::Grease(_) => true,
        ExtensionType::Unknown(_) => true,
        _ => false,
    }
}

/// The extension types that may appear in a KeyPackage's extension list.
pub open spec fn valid_in_key_package(t: ExtensionType) -> bool {
    match t {
        ExtensionType::LastResort => true,
        ExtensionType::Grease(_) => true,
        ExtensionType::Unknown(_) => true,
        _ => false,
    }
}

/// The default extension types of RFC 9420, which need not be advertised in
/// capabilities.
pub open spec fn is_default_extension_type(t: ExtensionType) -> bool {
    match t {
        ExtensionType::ApplicationId => true,
        ExtensionType::RatchetTree => true,
        ExtensionType::RequiredCapabilities => true,
        ExtensionType::ExternalPub => true,
        ExtensionType::ExternalSenders => true,
        _ => false,
    }
}

/// Whether a code point is a GREASE value.
pub fn is_grease_value(code: u16) -> (res: bool)
    ensures
        res == is_grease_code(code),
{
    code % 0x1010 == 0x0a0a && code <= 0xeaea
}

impl ExtensionType {
    /// Decodes a code point into this build's extension type.
    pub fn from_code(code: u16) -> (res: ExtensionType)
        ensures
            res == extension_type_from_code(code),
    {
        if code == 1 {
            ExtensionType::ApplicationId
        } else if code == 2 {
            ExtensionType::RatchetTree
        } else if code == 3 {
            ExtensionType::RequiredCapabilities
        } else if code == 4 {
            ExtensionType::ExternalPub
        } else if code == 5 {
            ExtensionType::ExternalSenders
        } else if code == 10 {
            ExtensionType::LastResort
        } else if is_grease_value(code) {
            ExtensionType::Grease(code)
        } else {
            ExtensionType::Unknown(code)
        }
    }

    /// The code point this type is encoded as.
    pub fn code(&self) -> (res: u16)
        ensures
            res == extension_type_code(*self),
    {
        match self {
            ExtensionType::ApplicationId => 1,
            ExtensionType::RatchetTree => 2,
            ExtensionType::RequiredCapabilities => 3,
            ExtensionType::ExternalPub => 4,
            ExtensionType::ExternalSenders => 5,
            ExtensionType::LastResort => 10,
            ExtensionType::Grease(code) => *code,
            ExtensionType::Unknown(code) => *code,
        }
    }

    /// Whether decoding this type's code point gives this type back.
    pub fn is_canonical(&self) -> (res: bool)
        ensures
            res == is_canonical_extension_type(*self),
    {
        let decoded = ExtensionType::from_code(self.code());
        decoded == *self
    }

    /// Whether this type may appear in a leaf node's extension list.
    pub fn is_valid_in_leaf_node(&self) -> (res: bool)
        ensures
            res == valid_in_leaf_node(*self),
    {
        match self {
            ExtensionType::ApplicationId => true,
            ExtensionType::Grease(_) => true,
            ExtensionType::Unknown(_) => true,
            _ => false,
        }
    }

    /// Whether this type may appear in a KeyPackage's extension list.
    pub fn is_valid_in_key_package(&self) -> (res: bool)
        ensures
            res == valid_in_key_package(*self),
    {
        match self {
            ExtensionType::LastResort => true,
            ExtensionType::Grease(_) => true,
            ExtensionType::Unknown(_) => true,
            _ => false,
        }
    }

    /// Whether this is a default extension type of RFC 9420.
    pub fn is_default(&self) -> (res: bool)
        ensures
            res == is_default_extension_type(*self),
    {
        match self {
            ExtensionType::ApplicationId => true,
            ExtensionType::RatchetTree => true,
            ExtensionType::RequiredCapabilities => true,
            ExtensionType::ExternalPub => true,
            ExtensionType::ExternalSenders => true,
            _ => false,
        }
    }
}

} // verus!
