//! The cryptographic operations this library needs, through the OpenMLS
//! RustCrypto provider and the basic-credential signer, and MLS's labeled
//! signing on top of them.

use vstd::prelude::*;

use crate::ciphersuite::{
    ciphersuite_code, signature_scheme_code, signature_scheme_from_code, Ciphersuite, SignatureScheme,
};
use crate::codec::{parse_u16, parse_vl};
use crate::tls::{concat_opt, encode_vl, opt_cat, vl_opt};

verus! {

/// The OpenMLS RustCrypto crypto and randomness provider.
#[verifier::external_type_specification]
#[verifier::external_body]
pub struct ExRustCrypto(openmls_rust_crypto::RustCrypto);

/// A signature key pair of the basic credential crate.
#[verifier::external_type_specification]
#[verifier::external_body]
pub struct ExSignatureKeyPair(openmls_basic_credential::SignatureKeyPair);

/// The crypto provider's error type.
#[verifier::external_type_specification]
#[verifier::external_body]
pub struct ExCryptoError(openmls_traits::types::CryptoError);

/// The signer's error type.
#[verifier::external_type_specification]
#[verifier::external_body]
pub struct ExSignerError(openmls_traits::signatures::SignerError);

/// The randomness provider's error type.
#[verifier::external_type_specification]
#[verifier::external_body]
pub struct ExRandError(openmls_rust_crypto::RandError);

/// The private and public key, as bytes, that HPKE key derivation produces
/// for the HPKE configuration of ciphersuite `ciphersuite` and input key
/// material `ikm`.
pub uninterp spec fn spec_hpke_key_pair(ciphersuite: u16, ikm: Seq<u8>) -> (Seq<u8>, Seq<u8>);

/// What a basic-credential key pair of the scheme with code point `scheme`
/// and private key `private_key` returns when it signs `payload`: the
/// signature, or `None` when signing fails.
pub uninterp spec fn spec_signature(scheme: u16, private_key: Seq<u8>, payload: Seq<u8>) -> Option<Seq<u8>>;

/// The digest of `data` under the hash function of ciphersuite `ciphersuite`.
pub uninterp spec fn spec_digest(ciphersuite: u16, data: Seq<u8>) -> Seq<u8>;

/// Whether `signature` is a valid signature of `data` under public key `pk`
/// for the signature scheme with code point `scheme`.
pub uninterp spec fn spec_signature_valid(scheme: u16, data: Seq<u8>, pk: Seq<u8>, signature: Seq<u8>) -> bool;

/// The ciphersuites that the RustCrypto provider supports: 0x0001, 0x0002, 0x0003.
pub open spec fn rust_crypto_supports(cs: Ciphersuite) -> bool {
    ciphersuite_code(cs) == 1 || ciphersuite_code(cs) == 2 || ciphersuite_code(cs) == 3
}

/// `OpenMlsRand::random_vec` of RustCrypto: `len` random bytes.
///
/// The source fills a vector of exactly `len` bytes or fails (poisoned lock,
/// exhausted randomness); the contract states the length on success. What the
/// bytes are is left unsaid: they come from a random number generator.
#[verifier::external_body]
pub(crate) fn random_bytes(crypto: &openmls_rust_crypto::RustCrypto, len: usize) -> (res: Result<Vec<u8>, openmls_rust_crypto::RandError>)
    ensures
        res matches Ok(v) ==> v@.len() == len,
{
    openmls_traits::random::OpenMlsRand::random_vec(crypto, len)
}

/// `OpenMlsCrypto::derive_hpke_keypair` of RustCrypto with the ciphersuite's HPKE
/// configuration, the private key taken out as bytes.
///
/// The derivation is deterministic in the configuration and the input key
/// material; the contract names the key pair it returns. When it fails
/// (an input the KEM rejects) is left unsaid.
#[verifier::external_body]
pub(crate) fn derive_hpke_keypair(
    crypto: &openmls_rust_crypto::RustCrypto,
    ciphersuite: Ciphersuite,
    ikm: &[u8],
) -> (res: Result<(Vec<u8>, Vec<u8>), openmls_traits::types::CryptoError>)
    ensures
        res matches Ok(pair) ==> (pair.0@, pair.1@) == spec_hpke_key_pair(ciphersuite_code(ciphersuite), ikm@),
{
    let cs = match openmls_traits::types::Ciphersuite::try_from(ciphersuite.code()) {
        Ok(cs) => cs,
        Err(_) => return Err(openmls_traits::types::CryptoError::UnsupportedCiphersuite),
    };
    let pair = openmls_traits::crypto::OpenMlsCrypto::derive_hpke_keypair(crypto, cs.hpke_config(), ikm)?;
    Ok((pair.private.to_vec(), pair.public))
}

/// `OpenMlsCrypto::supports` of RustCrypto.
///
/// The source accepts exactly the ciphersuites 0x0001, 0x0002 and 0x0003
/// (without the post-quantum feature), independent of the provider's state.
#[verifier::external_body]
pub(crate) fn provider_supports(crypto: &openmls_rust_crypto::RustCrypto, ciphersuite: Ciphersuite) -> (res: bool)
    ensures
        res == rust_crypto_supports(ciphersuite),
{
    match openmls_traits::types::Ciphersuite::try_from(ciphersuite.code()) {
        Ok(cs) => openmls_traits::crypto::OpenMlsCrypto::supports(crypto, cs).is_ok(),
        Err(_) => false,
    }
}

/// `OpenMlsCrypto::hash` of RustCrypto with the ciphersuite's hash function.
///
/// The source never fails: every ciphersuite here converts, and hashing with
/// the three SHA-2 functions always succeeds. The digest is named as a
/// function of the ciphersuite and the data.
#[verifier::external_body]
pub(crate) fn digest(crypto: &openmls_rust_crypto::RustCrypto, ciphersuite: Ciphersuite, data: &[u8]) -> (res: Result<Vec<u8>, openmls_traits::types::CryptoError>)
    ensures
        res is Ok,
        res matches Ok(v) ==> v@ == spec_digest(ciphersuite_code(ciphersuite), data@),
{
    let cs = match openmls_traits::types::Ciphersuite::try_from(ciphersuite.code()) {
        Ok(cs) => cs,
        Err(_) => return Err(openmls_traits::types::CryptoError::UnsupportedCiphersuite),
    };
    openmls_traits::crypto::OpenMlsCrypto::hash(crypto, cs.hash_algorithm(), data)
}

/// `OpenMlsCrypto::verify_signature` of RustCrypto.
///
/// Verification is deterministic in the scheme, the data, the public key and
/// the signature; the contract names its outcome as a function of those.
#[verifier::external_body]
pub(crate) fn verify_signature(
    crypto: &openmls_rust_crypto::RustCrypto,
    scheme: SignatureScheme,
    data: &[u8],
    pk: &[u8],
    signature: &[u8],
) -> (res: bool)
    ensures
        res == spec_signature_valid(signature_scheme_code(scheme), data@, pk@, signature@),
{
    match openmls_traits::types::SignatureScheme::try_from(scheme.code()) {
        Ok(s) => openmls_traits::crypto::OpenMlsCrypto::verify_signature(crypto, s, data, pk, signature).is_ok(),
        Err(_) => false,
    }
}

/// `tls_codec` encodes a basic-credential key pair
/// (`Serialize::tls_serialize_detached`).
///
/// The key pair's fields are private to its crate, so nothing is stated of
/// the bytes; [`decode_signer_key`] reads them.
#[verifier::external_body]
fn signer_tls_bytes(signer: &openmls_basic_credential::SignatureKeyPair) -> (res: Result<Vec<u8>, tls_codec::Error>)
{
    tls_codec::Serialize::tls_serialize_detached(signer)
}

/// `Signer::sign` of the basic-credential key pair made by
/// `SignatureKeyPair::from_raw` from `scheme` and `private_key`.
///
/// Signing uses only the scheme and the private key, and it is
/// deterministic (Ed25519, and ECDSA with RFC 6979 nonces); the contract
/// names its outcome. For ECDSA the source converts the private key into a
/// fixed-size array and panics on any other length, so `requires` admits
/// only keys of that length. The ECDSA signer also panics when the RFC 6979
/// nonce gives a zero signature component; no input is known to cause that
/// (it takes breaking the hash), so it is left unsaid.
#[verifier::external_body]
fn sign_with_private_key(scheme: SignatureScheme, private_key: &[u8], payload: &[u8]) -> (res: Result<Vec<u8>, openmls_traits::signatures::SignerError>)
    requires
        private_key_fits(scheme, private_key@),
    ensures
        match res {
            Ok(signature) => spec_signature(signature_scheme_code(scheme), private_key@, payload@) == Some(signature@),
            Err(_) => spec_signature(signature_scheme_code(scheme), private_key@, payload@) is None,
        },
{
    let s = match openmls_traits::types::SignatureScheme::try_from(scheme.code()) {
        Ok(s) => s,
        Err(_) => return Err(openmls_traits::signatures::SignerError::SigningError),
    };
    let pair = openmls_basic_credential::SignatureKeyPair::from_raw(s, private_key.to_vec(), Vec::new());
    openmls_traits::signatures::Signer::sign(&pair, payload)
}

/// A signer's key material as plain values.
pub struct SignerKey {
    /// The signature scheme.
    pub scheme: SignatureScheme,
    /// The private key.
    pub private_key: Vec<u8>,
    /// The public key.
    pub public_key: Vec<u8>,
}

/// The mathematical value of a [`SignerKey`].
pub struct SpecSignerKey {
    /// The signature scheme.
    pub scheme: SignatureScheme,
    /// The private key.
    pub private_key: Seq<u8>,
    /// The public key.
    pub public_key: Seq<u8>,
}

impl View for SignerKey {
    type V = SpecSignerKey;

    open spec fn view(&self) -> SpecSignerKey {
        SpecSignerKey { scheme: self.scheme, private_key: self.private_key@, public_key: self.public_key@ }
    }
}

/// Whether a private key has the length that its scheme's signer takes:
/// 32 bytes for ECDSA P-256 and 48 for ECDSA P-384.
pub open spec fn private_key_fits(scheme: SignatureScheme, private_key: Seq<u8>) -> bool {
    match scheme {
        SignatureScheme::ECDSA_SECP256R1_SHA256 => private_key.len() == 32,
        SignatureScheme::ECDSA_SECP384R1_SHA384 => private_key.len() == 48,
        _ => true,
    }
}

/// The signature of `payload` under a key: `None` when the private key does
/// not have its scheme's length or signing fails.
pub open spec fn key_signature(key: SpecSignerKey, payload: Seq<u8>) -> Option<Seq<u8>> {
    if private_key_fits(key.scheme, key.private_key) {
        spec_signature(signature_scheme_code(key.scheme), key.private_key, payload)
    } else {
        None
    }
}

/// What a key pair's TLS encoding holds: the variable-length private key,
/// the variable-length public key and the scheme's code point, exactly.
pub open spec fn parse_signer_key(b: Seq<u8>) -> Option<SpecSignerKey> {
    match parse_vl(b) {
        Some((private_key, r1)) => match parse_vl(r1) {
            Some((public_key, r2)) => match parse_u16(r2) {
                Some((code, r3)) => match signature_scheme_from_code(code) {
                    Some(scheme) => if r3.len() == 0 {
                        Some(SpecSignerKey { scheme, private_key, public_key })
                    } else {
                        None
                    },
                    None => None,
                },
                None => None,
            },
            None => None,
        },
        None => None,
    }
}

/// Reads the key material of a key pair from its TLS encoding.
pub fn decode_signer_key(bytes: &[u8]) -> (res: Option<SignerKey>)
    ensures
        match parse_signer_key(bytes@) {
            Some(k) => res matches Some(x) && x@ == k,
            None => res is None,
        },
{
    assert(bytes@.skip(0) =~= bytes@);
    let (private_key, p1) = match crate::decoding::read_vl(bytes, 0) {
        Some(x) => x,
        None => return None,
    };
    let (public_key, p2) = match crate::decoding::read_vl(bytes, p1) {
        Some(x) => x,
        None => return None,
    };
    let (code, p3) = match crate::decoding::read_u16(bytes, p2) {
        Some(x) => x,
        None => return None,
    };
    let scheme = match SignatureScheme::from_code(code) {
        Some(s) => s,
        None => return None,
    };
    if p3 < bytes.len() {
        return None;
    }
    assert(bytes@.skip(p3 as int).len() == 0);
    Some(SignerKey { scheme, private_key, public_key })
}

/// The key material of a basic-credential key pair, read from its TLS
/// encoding; `None` when the encoding fails or cannot be read.
pub fn signer_key(signer: &openmls_basic_credential::SignatureKeyPair) -> (res: Option<SignerKey>)
{
    match signer_tls_bytes(signer) {
        Ok(bytes) => decode_signer_key(bytes.as_slice()),
        Err(_) => None,
    }
}

/// Signs `payload` with a key; `None` when the private key does not have
/// its scheme's length or signing fails.
pub fn sign_with_key(key: &SignerKey, payload: &[u8]) -> (res: Option<Vec<u8>>)
    ensures
        match key_signature(key@, payload@) {
            Some(s) => res matches Some(v) && v@ == s,
            None => res is None,
        },
{
    let n = key.private_key.len();
    let fits = match key.scheme {
        SignatureScheme::ECDSA_SECP256R1_SHA256 => n == 32,
        SignatureScheme::ECDSA_SECP384R1_SHA384 => n == 48,
        _ => true,
    };
    if !fits {
        return None;
    }
    match sign_with_private_key(key.scheme, key.private_key.as_slice(), payload) {
        Ok(signature) => Some(signature),
        Err(_) => None,
    }
}

/// The label prefix of MLS signatures, "MLS 1.0 ", followed by "LeafNodeTBS".
pub open spec fn leaf_node_sign_label() -> Seq<u8> {
    seq![0x4du8, 0x4c, 0x53, 0x20, 0x31, 0x2e, 0x30, 0x20, 0x4c, 0x65, 0x61, 0x66, 0x4e, 0x6f, 0x64, 0x65, 0x54, 0x42, 0x53]
}

/// "MLS 1.0 KeyPackageTBS", the label of the outer KeyPackage signature.
pub open spec fn key_package_sign_label() -> Seq<u8> {
    seq![0x4du8, 0x4c, 0x53, 0x20, 0x31, 0x2e, 0x30, 0x20, 0x4b, 0x65, 0x79, 0x50, 0x61, 0x63, 0x6b, 0x61, 0x67, 0x65, 0x54, 0x42, 0x53]
}

/// "MLS 1.0 KeyPackage Reference", the label of a KeyPackage's hash reference.
pub open spec fn key_package_ref_label() -> Seq<u8> {
    seq![0x4du8, 0x4c, 0x53, 0x20, 0x31, 0x2e, 0x30, 0x20, 0x4b, 0x65, 0x79, 0x50, 0x61, 0x63, 0x6b, 0x61, 0x67, 0x65, 0x20, 0x52, 0x65, 0x66, 0x65, 0x72, 0x65, 0x6e, 0x63, 0x65]
}

/// The label of leaf node signatures.
pub fn leaf_node_sign_label_bytes() -> (res: Vec<u8>)
    ensures
        res@ == leaf_node_sign_label(),
{
    let v: Vec<u8> = vec![0x4du8, 0x4c, 0x53, 0x20, 0x31, 0x2e, 0x30, 0x20, 0x4c, 0x65, 0x61, 0x66, 0x4e, 0x6f, 0x64, 0x65, 0x54, 0x42, 0x53];
    assert(v@ =~= leaf_node_sign_label());
    v
}

/// The label of the outer KeyPackage signature.
pub fn key_package_sign_label_bytes() -> (res: Vec<u8>)
    ensures
        res@ == key_package_sign_label(),
{
    let v: Vec<u8> = vec![0x4du8, 0x4c, 0x53, 0x20, 0x31, 0x2e, 0x30, 0x20, 0x4b, 0x65, 0x79, 0x50, 0x61, 0x63, 0x6b, 0x61, 0x67, 0x65, 0x54, 0x42, 0x53];
    assert(v@ =~= key_package_sign_label());
    v
}

/// The label of a KeyPackage's hash reference.
pub fn key_package_ref_label_bytes() -> (res: Vec<u8>)
    ensures
        res@ == key_package_ref_label(),
{
    let v: Vec<u8> = vec![0x4du8, 0x4c, 0x53, 0x20, 0x31, 0x2e, 0x30, 0x20, 0x4b, 0x65, 0x79, 0x50, 0x61, 0x63, 0x6b, 0x61, 0x67, 0x65, 0x20, 0x52, 0x65, 0x66, 0x65, 0x72, 0x65, 0x6e, 0x63, 0x65];
    assert(v@ =~= key_package_ref_label());
    v
}

/// The encoding of a labeled value: the variable-length label followed by
/// the variable-length content (MLS `SignContent` and `RefHashInput`).
pub open spec fn labeled_content(label: Seq<u8>, content: Seq<u8>) -> Option<Seq<u8>> {
    opt_cat(vl_opt(label), vl_opt(content))
}

/// Whether `signature` is a valid MLS signature with `label` over `content`.
pub open spec fn valid_labeled_signature(scheme: SignatureScheme, label: Seq<u8>, content: Seq<u8>, pk: Seq<u8>, signature: Seq<u8>) -> bool {
    match labeled_content(label, content) {
        Some(payload) => spec_signature_valid(signature_scheme_code(scheme), payload, pk, signature),
        None => false,
    }
}

/// Encodes a labeled value; `None` when the label or content is too long.
pub fn encode_labeled_content(label: &[u8], content: &[u8]) -> (res: Option<Vec<u8>>)
    ensures
        res is Some <==> labeled_content(label@, content@) is Some,
        res matches Some(v) ==> labeled_content(label@, content@) == Some(v@),
{
    concat_opt(encode_vl(label), encode_vl(content))
}

/// The MLS signature with `label` over `content` under a key: `None` when
/// the labeled payload cannot be encoded or signing fails.
pub open spec fn labeled_signature(key: SpecSignerKey, label: Seq<u8>, content: Seq<u8>) -> Option<Seq<u8>> {
    match labeled_content(label, content) {
        Some(payload) => key_signature(key, payload),
        None => None,
    }
}

/// Signs `content` with `label` (MLS `SignWithLabel`); `None` when the
/// payload cannot be encoded or signing fails.
pub fn sign_with_label(key: &SignerKey, label: &[u8], content: &[u8]) -> (res: Option<Vec<u8>>)
    ensures
        match labeled_signature(key@, label@, content@) {
            Some(s) => res matches Some(v) && v@ == s,
            None => res is None,
        },
{
    match encode_labeled_content(label, content) {
        Some(payload) => sign_with_key(key, payload.as_slice()),
        None => None,
    }
}

/// Verifies an MLS signature with `label` over `content` (MLS `VerifyWithLabel`).
pub fn verify_with_label(
    crypto: &openmls_rust_crypto::RustCrypto,
    scheme: SignatureScheme,
    label: &[u8],
    content: &[u8],
    pk: &[u8],
    signature: &[u8],
) -> (res: bool)
    ensures
        res == valid_labeled_signature(scheme, label@, content@, pk@, signature@),
{
    match encode_labeled_content(label, content) {
        Some(payload) => verify_signature(crypto, scheme, payload.as_slice(), pk, signature),
        None => false,
    }
}

} // verus!
