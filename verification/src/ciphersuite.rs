//! MLS ciphersuites, signature schemes and protocol versions as plain values.

use vstd::prelude::*;

verus! {

/// The MLS ciphersuites of RFC 9420.
#[allow(non_camel_case_types)]
#[derive(Debug, Clone, Copy, PartialEq, Eq, Structural)]
pub enum Ciphersuite {
    /// DH KEM x25519 | AES-GCM 128 | SHA2-256 | Ed25519
    MLS_128_DHKEMX25519_AES128GCM_SHA256_Ed25519,
    /// DH KEM P256 | AES-GCM 128 | SHA2-256 | EcDSA P256
    MLS_128_DHKEMP256_AES128GCM_SHA256_P256,
    /// DH KEM x25519 | Chacha20Poly1305 | SHA2-256 | Ed25519
    MLS_128_DHKEMX25519_CHACHA20POLY1305_SHA256_Ed25519,
    /// DH KEM x448 | AES-GCM 256 | SHA2-512 | Ed448
    MLS_256_DHKEMX448_AES256GCM_SHA512_Ed448,
    /// DH KEM P521 | AES-GCM 256 | SHA2-512 | EcDSA P521
    MLS_256_DHKEMP521_AES256GCM_SHA512_P521,
    /// DH KEM x448 | Chacha20Poly1305 | SHA2-512 | Ed448
    MLS_256_DHKEMX448_CHACHA20POLY1305_SHA512_Ed448,
    /// DH KEM P384 | AES-GCM 256 | SHA2-384 | EcDSA P384
    MLS_256_DHKEMP384_AES256GCM_SHA384_P384,
}

/// Signature schemes by their IANA TLS code points.
#[allow(non_camel_case_types)]
#[derive(Debug, Clone, Copy, PartialEq, Eq, Structural)]
pub enum SignatureScheme {
    /// ECDSA_SECP256R1_SHA256
    ECDSA_SECP256R1_SHA256,
    /// ECDSA_SECP384R1_SHA384
    ECDSA_SECP384R1_SHA384,
    /// ECDSA_SECP521R1_SHA512
    ECDSA_SECP521R1_SHA512,
    /// ED25519
    ED25519,
    /// ED448
    ED448,
}

/// The code point of a ciphersuite.
pub open spec fn ciphersuite_code(cs: Ciphersuite) -> u16 {
    match cs {
        Ciphersuite::MLS_128_DHKEMX25519_AES128GCM_SHA256_Ed25519 => 1,
        Ciphersuite::MLS_128_DHKEMP256_AES128GCM_SHA256_P256 => 2,
        Ciphersuite::MLS_128_DHKEMX25519_CHACHA20POLY1305_SHA256_Ed25519 => 3,
        Ciphersuite::MLS_256_DHKEMX448_AES256GCM_SHA512_Ed448 => 4,
        Ciphersuite::MLS_256_DHKEMP521_AES256GCM_SHA512_P521 => 5,
        Ciphersuite::MLS_256_DHKEMX448_CHACHA20POLY1305_SHA512_Ed448 => 6,
        Ciphersuite::MLS_256_DHKEMP384_AES256GCM_SHA384_P384 => 7,
    }
}

/// The ciphersuite with code point `code`, if any.
pub open spec fn ciphersuite_from_code(code: u16) -> Option<Ciphersuite> {
    if code == 1 {
        Some(Ciphersuite::MLS_128_DHKEMX25519_AES128GCM_SHA256_Ed25519)
    } else if code == 2 {
        Some(Ciphersuite::MLS_128_DHKEMP256_AES128GCM_SHA256_P256)
    } else if code == 3 {
        Some(Ciphersuite::MLS_128_DHKEMX25519_CHACHA20POLY1305_SHA256_Ed25519)
    } else if code == 4 {
        Some(Ciphersuite::MLS_256_DHKEMX448_AES256GCM_SHA512_Ed448)
    } else if code == 5 {
        Some(Ciphersuite::MLS_256_DHKEMP521_AES256GCM_SHA512_P521)
    } else if code == 6 {
        Some(Ciphersuite::MLS_256_DHKEMX448_CHACHA20POLY1305_SHA512_Ed448)
    } else if code == 7 {
        Some(Ciphersuite::MLS_256_DHKEMP384_AES256GCM_SHA384_P384)
    } else {
        None
    }
}

/// The signature scheme that a ciphersuite prescribes.
pub open spec fn ciphersuite_signature_scheme(cs: Ciphersuite) -> SignatureScheme {
    match cs {
        Ciphersuite::MLS_128_DHKEMX25519_AES128GCM_SHA256_Ed25519 => SignatureScheme::ED25519,
        Ciphersuite::MLS_128_DHKEMP256_AES128GCM_SHA256_P256 => SignatureScheme::ECDSA_SECP256R1_SHA256,
        Ciphersuite::MLS_128_DHKEMX25519_CHACHA20POLY1305_SHA256_Ed25519 => SignatureScheme::ED25519,
        Ciphersuite::MLS_256_DHKEMX448_AES256GCM_SHA512_Ed448 => SignatureScheme::ED448,
        Ciphersuite::MLS_256_DHKEMP521_AES256GCM_SHA512_P521 => SignatureScheme::ECDSA_SECP521R1_SHA512,
        Ciphersuite::MLS_256_DHKEMX448_CHACHA20POLY1305_SHA512_Ed448 => SignatureScheme::ED448,
        Ciphersuite::MLS_256_DHKEMP384_AES256GCM_SHA384_P384 => SignatureScheme::ECDSA_SECP384R1_SHA384,
    }
}

/// The output length in bytes of a ciphersuite's hash function.
pub open spec fn ciphersuite_hash_length(cs: Ciphersuite) -> usize {
    match cs {
        Ciphersuite::MLS_128_DHKEMX25519_AES128GCM_SHA256_Ed25519 => 32,
        Ciphersuite::MLS_128_DHKEMP256_AES128GCM_SHA256_P256 => 32,
        Ciphersuite::MLS_128_DHKEMX25519_CHACHA20POLY1305_SHA256_Ed25519 => 32,
        Ciphersuite::MLS_256_DHKEMP384_AES256GCM_SHA384_P384 => 48,
        _ => 64,
    }
}

/// The code point of a signature scheme.
pub open spec fn signature_scheme_code(s: SignatureScheme) -> u16 {
    match s {
        SignatureScheme::ECDSA_SECP256R1_SHA256 => 0x0403,
        SignatureScheme::ECDSA_SECP384R1_SHA384 => 0x0503,
        SignatureScheme::ECDSA_SECP521R1_SHA512 => 0x0603,
        SignatureScheme::ED25519 => 0x0807,
        SignatureScheme::ED448 => 0x0808,
    }
}

impl Ciphersuite {
    /// The ciphersuite's code point.
    pub fn code(&self) -> (res: u16)
        ensures
            res == ciphersuite_code(*self),
    {
        match self {
            Ciphersuite::MLS_128_DHKEMX25519_AES128GCM_SHA256_Ed25519 => 1,
            Ciphersuite::MLS_128_DHKEMP256_AES128GCM_SHA256_P256 => 2,
            Ciphersuite::MLS_128_DHKEMX25519_CHACHA20POLY1305_SHA256_Ed25519 => 3,
            Ciphersuite::MLS_256_DHKEMX448_AES256GCM_SHA512_Ed448 => 4,
            Ciphersuite::MLS_256_DHKEMP521_AES256GCM_SHA512_P521 => 5,
            Ciphersuite::MLS_256_DHKEMX448_CHACHA20POLY1305_SHA512_Ed448 => 6,
            Ciphersuite::MLS_256_DHKEMP384_AES256GCM_SHA384_P384 => 7,
        }
    }

    /// The signature scheme that this ciphersuite prescribes.
    pub fn signature_algorithm(&self) -> (res: SignatureScheme)
        ensures
            res == ciphersuite_signature_scheme(*self),
    {
        match self {
            Ciphersuite::MLS_128_DHKEMX25519_AES128GCM_SHA256_Ed25519 => SignatureScheme::ED25519,
            Ciphersuite::MLS_128_DHKEMP256_AES128GCM_SHA256_P256 => SignatureScheme::ECDSA_SECP256R1_SHA256,
            Ciphersuite::MLS_128_DHKEMX25519_CHACHA20POLY1305_SHA256_Ed25519 => SignatureScheme::ED25519,
            Ciphersuite::MLS_256_DHKEMX448_AES256GCM_SHA512_Ed448 => SignatureScheme::ED448,
            Ciphersuite::MLS_256_DHKEMP521_AES256GCM_SHA512_P521 => SignatureScheme::ECDSA_SECP521R1_SHA512,
            Ciphersuite::MLS_256_DHKEMX448_CHACHA20POLY1305_SHA512_Ed448 => SignatureScheme::ED448,
            Ciphersuite::MLS_256_DHKEMP384_AES256GCM_SHA384_P384 => SignatureScheme::ECDSA_SECP384R1_SHA384,
        }
    }

    /// The output length in bytes of this ciphersuite's hash function.
    pub fn hash_length(&self) -> (res: usize)
        ensures
            res == ciphersuite_hash_length(*self),
    {
        match self {
            Ciphersuite::MLS_128_DHKEMX25519_AES128GCM_SHA256_Ed25519 => 32,
            Ciphersuite::MLS_128_DHKEMP256_AES128GCM_SHA256_P256 => 32,
            Ciphersuite::MLS_128_DHKEMX25519_CHACHA20POLY1305_SHA256_Ed25519 => 32,
            Ciphersuite::MLS_256_DHKEMP384_AES256GCM_SHA384_P384 => 48,
            _ => 64,
        }
    }
}

impl Ciphersuite {
    /// The ciphersuite with code point `code` (`Ciphersuite::try_from(u16)`).
    pub fn from_code(code: u16) -> (res: Option<Ciphersuite>)
        ensures
            res == ciphersuite_from_code(code),
    {
        if code == 1 {
            Some(Ciphersuite::MLS_128_DHKEMX25519_AES128GCM_SHA256_Ed25519)
        } else if code == 2 {
            Some(Ciphersuite::MLS_128_DHKEMP256_AES128GCM_SHA256_P256)
        } else if code == 3 {
            Some(Ciphersuite::MLS_128_DHKEMX25519_CHACHA20POLY1305_SHA256_Ed25519)
        } else if code == 4 {
            Some(Ciphersuite::MLS_256_DHKEMX448_AES256GCM_SHA512_Ed448)
        } else if code == 5 {
            Some(Ciphersuite::MLS_256_DHKEMP521_AES256GCM_SHA512_P521)
        } else if code == 6 {
            Some(Ciphersuite::MLS_256_DHKEMX448_CHACHA20POLY1305_SHA512_Ed448)
        } else if code == 7 {
            Some(Ciphersuite::MLS_256_DHKEMP384_AES256GCM_SHA384_P384)
        } else {
            None
        }
    }
}

/// The signature scheme with code point `code`, if any.
pub open spec fn signature_scheme_from_code(code: u16) -> Option<SignatureScheme> {
    if code == 0x0403 {
        Some(SignatureScheme::ECDSA_SECP256R1_SHA256)
    } else if code == 0x0503 {
        Some(SignatureScheme::ECDSA_SECP384R1_SHA384)
    } else if code == 0x0603 {
        Some(SignatureScheme::ECDSA_SECP521R1_SHA512)
    } else if code == 0x0807 {
        Some(SignatureScheme::ED25519)
    } else if code == 0x0808 {
        Some(SignatureScheme::ED448)
    } else {
        None
    }
}

impl SignatureScheme {
    /// The scheme with code point `code`, if any.
    pub fn from_code(code: u16) -> (res: Option<SignatureScheme>)
        ensures
            res == signature_scheme_from_code(code),
    {
        if code == 0x0403 {
            Some(SignatureScheme::ECDSA_SECP256R1_SHA256)
        } else if code == 0x0503 {
            Some(SignatureScheme::ECDSA_SECP384R1_SHA384)
        } else if code == 0x0603 {
            Some(SignatureScheme::ECDSA_SECP521R1_SHA512)
        } else if code == 0x0807 {
            Some(SignatureScheme::ED25519)
        } else if code == 0x0808 {
            Some(SignatureScheme::ED448)
        } else {
            None
        }
    }

    /// The scheme's code point.
    pub fn code(&self) -> (res: u16)
        ensures
            res == signature_scheme_code(*self),
    {
        match self {
            SignatureScheme::ECDSA_SECP256R1_SHA256 => 0x0403,
            SignatureScheme::ECDSA_SECP384R1_SHA384 => 0x0503,
            SignatureScheme::ECDSA_SECP521R1_SHA512 => 0x0603,
            SignatureScheme::ED25519 => 0x0807,
            SignatureScheme::ED448 => 0x0808,
        }
    }
}

/// The MLS protocol version 1.0 code point, the default version.
pub const MLS10: u16 = 1;

/// The basic credential type code point.
pub const CREDENTIAL_TYPE_BASIC: u16 = 1;

/// The X.509 credential type code point.
pub const CREDENTIAL_TYPE_X509: u16 = 2;

} // verus!
