//! Leaf nodes and their parts: capabilities, credentials and lifetimes.

use vstd::prelude::*;

use crate::ciphersuite::{ciphersuite_code, Ciphersuite, CREDENTIAL_TYPE_BASIC, MLS10};
use crate::extension_type::{extension_type_code, is_canonical_extension_type, ExtensionType};
use crate::extensions::{extension_vector, Extensions, SpecExtension};
use crate::tls::{
    concat_opt, encode_u16, encode_u16_vector, encode_u64, encode_vl, opt_cat, opt_view,
    u16_bytes, u16_vector, u64_bytes, vl_opt,
};

verus! {

/// What a leaf node advertises that it supports.
#[derive(Debug, PartialEq, Eq)]
pub struct Capabilities {
    /// Protocol version code points.
    pub versions: Vec<u16>,
    /// Ciphersuite code points.
    pub ciphersuites: Vec<u16>,
    /// Extension types.
    pub extensions: Vec<ExtensionType>,
    /// Proposal type code points.
    pub proposals: Vec<u16>,
    /// Credential type code points.
    pub credentials: Vec<u16>,
}

/// The mathematical value of [`Capabilities`].
pub struct SpecCapabilities {
    /// Protocol version code points.
    pub versions: Seq<u16>,
    /// Ciphersuite code points.
    pub ciphersuites: Seq<u16>,
    /// Extension types.
    pub extensions: Seq<ExtensionType>,
    /// Proposal type code points.
    pub proposals: Seq<u16>,
    /// Credential type code points.
    pub credentials: Seq<u16>,
}

impl View for Capabilities {
    type V = SpecCapabilities;

    open spec fn view(&self) -> SpecCapabilities {
        SpecCapabilities {
            versions: self.versions@,
            ciphersuites: self.ciphersuites@,
            extensions: self.extensions@,
            proposals: self.proposals@,
            credentials: self.credentials@,
        }
    }
}

/// The validity period of a KeyPackage leaf, in seconds since the Unix epoch.
#[derive(Debug, Clone, Copy, PartialEq, Eq, Structural)]
pub struct Lifetime {
    /// The first second of validity.
    pub not_before: u64,
    /// The last second of validity.
    pub not_after: u64,
}

/// A credential: its type and its encoded content.
///
/// `serialized_content` holds the bytes inside the credential's
/// variable-length content field; for a basic credential, the identity.
#[derive(Debug, PartialEq, Eq)]
pub struct Credential {
    /// The credential type code point.
    pub credential_type: u16,
    /// The encoded credential content.
    pub serialized_content: Vec<u8>,
}

/// The mathematical value of a [`Credential`].
pub struct SpecCredential {
    /// The credential type code point.
    pub credential_type: u16,
    /// The encoded credential content.
    pub content: Seq<u8>,
}

impl View for Credential {
    type V = SpecCredential;

    open spec fn view(&self) -> SpecCredential {
        SpecCredential { credential_type: self.credential_type, content: self.serialized_content@ }
    }
}

/// A credential together with the signature public key it is bound to.
#[derive(Debug, PartialEq, Eq)]
pub struct CredentialWithKey {
    /// The credential.
    pub credential: Credential,
    /// The signature public key.
    pub signature_key: Vec<u8>,
}

/// Where a leaf node comes from; a KeyPackage leaf carries its lifetime.
#[derive(Debug, PartialEq, Eq)]
pub enum LeafNodeSource {
    /// A leaf node in a KeyPackage.
    KeyPackage(Lifetime),
    /// A leaf node from an Update proposal.
    Update,
    /// A leaf node from a Commit, with the parent hash.
    Commit(Vec<u8>),
}

/// The mathematical value of a [`LeafNodeSource`].
pub enum SpecLeafNodeSource {
    /// A leaf node in a KeyPackage.
    KeyPackage(Lifetime),
    /// A leaf node from an Update proposal.
    Update,
    /// A leaf node from a Commit, with the parent hash.
    Commit(Seq<u8>),
}

impl View for LeafNodeSource {
    type V = SpecLeafNodeSource;

    open spec fn view(&self) -> SpecLeafNodeSource {
        match self {
            LeafNodeSource::KeyPackage(l) => SpecLeafNodeSource::KeyPackage(*l),
            LeafNodeSource::Update => SpecLeafNodeSource::Update,
            LeafNodeSource::Commit(h) => SpecLeafNodeSource::Commit(h@),
        }
    }
}

/// A leaf node of the ratchet tree.
#[derive(Debug, PartialEq, Eq)]
pub struct LeafNode {
    /// The HPKE public encryption key.
    pub encryption_key: Vec<u8>,
    /// The signature public key.
    pub signature_key: Vec<u8>,
    /// The credential.
    pub credential: Credential,
    /// The advertised capabilities.
    pub capabilities: Capabilities,
    /// The source, with the lifetime for a KeyPackage leaf.
    pub leaf_node_source: LeafNodeSource,
    /// The leaf node's extensions.
    pub extensions: Extensions,
    /// The signature over the leaf node's to-be-signed encoding.
    pub signature: Vec<u8>,
}

/// The mathematical value of a [`LeafNode`].
pub struct SpecLeafNode {
    /// The HPKE public encryption key.
    pub encryption_key: Seq<u8>,
    /// The signature public key.
    pub signature_key: Seq<u8>,
    /// The credential.
    pub credential: SpecCredential,
    /// The advertised capabilities.
    pub capabilities: SpecCapabilities,
    /// The source.
    pub leaf_node_source: SpecLeafNodeSource,
    /// The leaf node's extensions.
    pub extensions: Seq<SpecExtension>,
    /// The signature.
    pub signature: Seq<u8>,
}

impl View for LeafNode {
    type V = SpecLeafNode;

    open spec fn view(&self) -> SpecLeafNode {
        SpecLeafNode {
            encryption_key: self.encryption_key@,
            signature_key: self.signature_key@,
            credential: self.credential@,
            capabilities: self.capabilities@,
            leaf_node_source: self.leaf_node_source@,
            extensions: self.extensions@,
            signature: self.signature@,
        }
    }
}

/// The TLS encoding of capabilities.
#[verifier::opaque]
pub open spec fn capabilities_bytes(c: SpecCapabilities) -> Option<Seq<u8>> {
    opt_cat(
        opt_cat(
            opt_cat(
                opt_cat(u16_vector(c.versions), u16_vector(c.ciphersuites)),
                u16_vector(c.extensions.map_values(|t: ExtensionType| extension_type_code(t))),
            ),
            u16_vector(c.proposals),
        ),
        u16_vector(c.credentials),
    )
}

/// The TLS encoding of a credential.
pub open spec fn credential_bytes(c: SpecCredential) -> Option<Seq<u8>> {
    opt_cat(Some(u16_bytes(c.credential_type)), vl_opt(c.content))
}

/// The TLS encoding of a lifetime.
pub open spec fn lifetime_bytes(l: Lifetime) -> Seq<u8> {
    u64_bytes(l.not_before) + u64_bytes(l.not_after)
}

/// The TLS encoding of a leaf node source.
pub open spec fn leaf_node_source_bytes(s: SpecLeafNodeSource) -> Option<Seq<u8>> {
    match s {
        SpecLeafNodeSource::KeyPackage(l) => Some(seq![1u8] + lifetime_bytes(l)),
        SpecLeafNodeSource::Update => Some(seq![2u8]),
        SpecLeafNodeSource::Commit(h) => opt_cat(Some(seq![3u8]), vl_opt(h)),
    }
}

/// The TLS encoding of a leaf node without its signature; for a KeyPackage
/// leaf this is exactly what the leaf node signature covers.
#[verifier::opaque]
pub open spec fn leaf_node_tbs_bytes(l: SpecLeafNode) -> Option<Seq<u8>> {
    opt_cat(
        opt_cat(
            opt_cat(
                opt_cat(
                    opt_cat(vl_opt(l.encryption_key), vl_opt(l.signature_key)),
                    credential_bytes(l.credential),
                ),
                capabilities_bytes(l.capabilities),
            ),
            leaf_node_source_bytes(l.leaf_node_source),
        ),
        extension_vector(l.extensions),
    )
}

/// The TLS encoding of a leaf node.
pub open spec fn leaf_node_bytes(l: SpecLeafNode) -> Option<Seq<u8>> {
    opt_cat(leaf_node_tbs_bytes(l), vl_opt(l.signature))
}

/// The protocol versions advertised by default.
pub open spec fn default_versions() -> Seq<u16> {
    seq![MLS10]
}

/// The ciphersuites advertised by default.
pub open spec fn default_ciphersuites() -> Seq<u16> {
    seq![
        ciphersuite_code(Ciphersuite::MLS_128_DHKEMX25519_AES128GCM_SHA256_Ed25519),
        ciphersuite_code(Ciphersuite::MLS_128_DHKEMP256_AES128GCM_SHA256_P256),
        ciphersuite_code(Ciphersuite::MLS_128_DHKEMX25519_CHACHA20POLY1305_SHA256_Ed25519),
    ]
}

/// The credential types advertised by default.
pub open spec fn default_credentials() -> Seq<u16> {
    seq![CREDENTIAL_TYPE_BASIC]
}

/// Copies a slice of `u16` values.
fn copy_u16s(values: &[u16]) -> (res: Vec<u16>)
    ensures
        res@ == values@,
{
    let mut v: Vec<u16> = Vec::new();
    let mut i: usize = 0;
    while i < values.len()
        invariant
            i <= values@.len(),
            v@ == values@.take(i as int),
        decreases values@.len() - i,
    {
        v.push(values[i]);
        i = i + 1;
        assert(v@ =~= values@.take(i as int));
    }
    assert(values@.take(i as int) =~= values@);
    v
}

/// Copies a slice of extension types.
fn copy_extension_types(values: &[ExtensionType]) -> (res: Vec<ExtensionType>)
    ensures
        res@ == values@,
{
    let mut v: Vec<ExtensionType> = Vec::new();
    let mut i: usize = 0;
    while i < values.len()
        invariant
            i <= values@.len(),
            v@ == values@.take(i as int),
        decreases values@.len() - i,
    {
        v.push(values[i]);
        i = i + 1;
        assert(v@ =~= values@.take(i as int));
    }
    assert(values@.take(i as int) =~= values@);
    v
}

/// Copies a byte slice.
pub fn copy_bytes(values: &[u8]) -> (res: Vec<u8>)
    ensures
        res@ == values@,
{
    let mut v: Vec<u8> = Vec::new();
    let mut i: usize = 0;
    while i < values.len()
        invariant
            i <= values@.len(),
            v@ == values@.take(i as int),
        decreases values@.len() - i,
    {
        v.push(values[i]);
        i = i + 1;
        assert(v@ =~= values@.take(i as int));
    }
    assert(values@.take(i as int) =~= values@);
    v
}

impl Capabilities {
    /// Capabilities with the given lists; each absent list takes its default:
    /// version MLS 1.0, the ciphersuites 0x0001, 0x0002 and 0x0003, no
    /// extensions, no proposals and the basic credential type.
    pub fn new(
        versions: Option<&[u16]>,
        ciphersuites: Option<&[Ciphersuite]>,
        extensions: Option<&[ExtensionType]>,
        proposals: Option<&[u16]>,
        credentials: Option<&[u16]>,
    ) -> (res: Capabilities)
        ensures
            res@.versions == (match versions { Some(v) => v@, None => default_versions() }),
            res@.ciphersuites == (match ciphersuites {
                Some(c) => c@.map_values(|cs: Ciphersuite| ciphersuite_code(cs)),
                None => default_ciphersuites(),
            }),
            res@.extensions == (match extensions { Some(e) => e@, None => Seq::<ExtensionType>::empty() }),
            res@.proposals == (match proposals { Some(p) => p@, None => Seq::<u16>::empty() }),
            res@.credentials == (match credentials { Some(c) => c@, None => default_credentials() }),
    {
        let versions = match versions {
            Some(v) => copy_u16s(v),
            None => {
                let v = vec![MLS10];
                assert(v@ =~= default_versions());
                v
            },
        };
        let ciphersuites = match ciphersuites {
            Some(c) => {
                let mut v: Vec<u16> = Vec::new();
                let mut i: usize = 0;
                while i < c.len()
                    invariant
                        i <= c@.len(),
                        v@ == c@.take(i as int).map_values(|cs: Ciphersuite| ciphersuite_code(cs)),
                    decreases c@.len() - i,
                {
                    v.push(c[i].code());
                    i = i + 1;
                    assert(v@ =~= c@.take(i as int).map_values(|cs: Ciphersuite| ciphersuite_code(cs)));
                }
                assert(c@.take(i as int) =~= c@);
                v
            },
            None => {
                let v = vec![1u16, 2u16, 3u16];
                assert(v@ =~= default_ciphersuites());
                v
            },
        };
        let extension_types = match extensions {
            Some(e) => copy_extension_types(e),
            None => {
                let v: Vec<ExtensionType> = Vec::new();
                assert(v@ =~= Seq::<ExtensionType>::empty());
                v
            },
        };
        let proposals = match proposals {
            Some(p) => Some(copy_u16s(p)),
            None => None,
        };
        let credentials = match credentials {
            Some(c) => copy_u16s(c),
            None => {
                let v = vec![CREDENTIAL_TYPE_BASIC];
                assert(v@ =~= default_credentials());
                v
            },
        };
        let proposals = match proposals {
            Some(p) => p,
            None => {
                let v: Vec<u16> = Vec::new();
                assert(v@ =~= Seq::<u16>::empty());
                v
            },
        };
        Capabilities { versions, ciphersuites, extensions: extension_types, proposals, credentials }
    }

    /// Whether the extension type `t` is advertised.
    pub fn contains_extension(&self, t: ExtensionType) -> (res: bool)
        ensures
            res == self@.extensions.contains(t),
    {
        let mut i: usize = 0;
        while i < self.extensions.len()
            invariant
                i <= self@.extensions.len(),
                forall|j: int| 0 <= j < i ==> self@.extensions[j] != t,
            decreases self@.extensions.len() - i,
        {
            if self.extensions[i] == t {
                assert(self@.extensions[i as int] == t);
                return true;
            }
            i = i + 1;
        }
        false
    }

    /// The advertised extension types, indexed for lookups by
    /// [`AdvertisedExtensions::contains`].
    pub fn advertised_extensions(&self) -> (res: AdvertisedExtensions)
        ensures
            res.advertised() == self@.extensions,
    {
        broadcast use vstd::std_specs::hash::group_hash_axioms;
        let mut codes: std::collections::HashSet<u16> = std::collections::HashSet::new();
        let mut i: usize = 0;
        while i < self.extensions.len()
            invariant
                i <= self@.extensions.len(),
                codes@ == canonical_codes(self@.extensions.take(i as int)),
            decreases self@.extensions.len() - i,
        {
            let t = self.extensions[i];
            let ghost before = self@.extensions.take(i as int);
            let ghost after = self@.extensions.take(i as int + 1);
            assert(after =~= before.push(t));
            if t.is_canonical() {
                let code = t.code();
                codes.insert(code);
                assert(codes@ =~= canonical_codes(after)) by {
                    assert forall|c: u16| codes@.contains(c) <==> canonical_codes(after).contains(c) by {
                        if canonical_codes(before).contains(c) {
                            let j = choose|j: int| 0 <= j < before.len() && is_canonical_extension_type(#[trigger] before[j])
                                && extension_type_code(before[j]) == c;
                            assert(after[j] == before[j]);
                        }
                        if canonical_codes(after).contains(c) {
                            let j = choose|j: int| 0 <= j < after.len() && is_canonical_extension_type(#[trigger] after[j])
                                && extension_type_code(after[j]) == c;
                            if j < before.len() {
                                assert(after[j] == before[j]);
                            }
                        }
                        if c == code {
                            assert(after[i as int] == t);
                        }
                    }
                }
            } else {
                assert(codes@ =~= canonical_codes(after)) by {
                    assert forall|c: u16| codes@.contains(c) <==> canonical_codes(after).contains(c) by {
                        if canonical_codes(before).contains(c) {
                            let j = choose|j: int| 0 <= j < before.len() && is_canonical_extension_type(#[trigger] before[j])
                                && extension_type_code(before[j]) == c;
                            assert(after[j] == before[j]);
                        }
                        if canonical_codes(after).contains(c) {
                            let j = choose|j: int| 0 <= j < after.len() && is_canonical_extension_type(#[trigger] after[j])
                                && extension_type_code(after[j]) == c;
                            if j < before.len() {
                                assert(after[j] == before[j]);
                            }
                        }
                    }
                }
            }
            i = i + 1;
        }
        assert(self@.extensions.take(i as int) =~= self@.extensions);
        AdvertisedExtensions { types: copy_extension_types(self.extensions.as_slice()), codes }
    }

    /// A copy of these capabilities.
    pub fn duplicate(&self) -> (res: Capabilities)
        ensures
            res@ == self@,
    {
        Capabilities {
            versions: copy_u16s(self.versions.as_slice()),
            ciphersuites: copy_u16s(self.ciphersuites.as_slice()),
            extensions: copy_extension_types(self.extensions.as_slice()),
            proposals: copy_u16s(self.proposals.as_slice()),
            credentials: copy_u16s(self.credentials.as_slice()),
        }
    }

    /// The TLS encoding; `None` when a list is too long.
    pub fn encode(&self) -> (res: Option<Vec<u8>>)
        ensures
            res is Some <==> capabilities_bytes(self@) is Some,
            res matches Some(v) ==> capabilities_bytes(self@) == Some(v@),
    {
        reveal(capabilities_bytes);
        let mut codes: Vec<u16> = Vec::new();
        let mut i: usize = 0;
        while i < self.extensions.len()
            invariant
                i <= self@.extensions.len(),
                codes@ == self@.extensions.take(i as int).map_values(|t: ExtensionType| extension_type_code(t)),
            decreases self@.extensions.len() - i,
        {
            codes.push(self.extensions[i].code());
            i = i + 1;
            assert(codes@ =~= self@.extensions.take(i as int).map_values(|t: ExtensionType| extension_type_code(t)));
        }
        assert(self@.extensions.take(i as int) =~= self@.extensions);
        let a = encode_u16_vector(self.versions.as_slice());
        let b = encode_u16_vector(self.ciphersuites.as_slice());
        let c = encode_u16_vector(codes.as_slice());
        let d = encode_u16_vector(self.proposals.as_slice());
        let e = encode_u16_vector(self.credentials.as_slice());
        concat_opt(concat_opt(concat_opt(concat_opt(a, b), c), d), e)
    }
}

impl Default for Capabilities {
    fn default() -> (res: Capabilities)
        ensures
            res@.versions == default_versions(),
            res@.ciphersuites == default_ciphersuites(),
            res@.extensions == Seq::<ExtensionType>::empty(),
            res@.proposals == Seq::<u16>::empty(),
            res@.credentials == default_credentials(),
    {
        Capabilities::new(None, None, None, None, None)
    }
}

impl Lifetime {
    /// A lifetime from `not_before` to `not_after`.
    pub fn new(not_before: u64, not_after: u64) -> (res: Lifetime)
        ensures
            res == (Lifetime { not_before, not_after }),
    {
        Lifetime { not_before, not_after }
    }

    /// The TLS encoding.
    pub fn encode(&self) -> (res: Vec<u8>)
        ensures
            res@ == lifetime_bytes(*self),
    {
        let mut out = encode_u64(self.not_before);
        let b = encode_u64(self.not_after);
        crate::tls::append_bytes(&mut out, b.as_slice());
        out
    }
}

impl Credential {
    /// A basic credential for `identity`.
    pub fn basic(identity: Vec<u8>) -> (res: Credential)
        ensures
            res@ == (SpecCredential { credential_type: CREDENTIAL_TYPE_BASIC, content: identity@ }),
    {
        Credential { credential_type: CREDENTIAL_TYPE_BASIC, serialized_content: identity }
    }

    /// A copy of this credential.
    pub fn duplicate(&self) -> (res: Credential)
        ensures
            res@ == self@,
    {
        Credential { credential_type: self.credential_type, serialized_content: copy_bytes(self.serialized_content.as_slice()) }
    }

    /// The TLS encoding; `None` when the content is too long.
    pub fn encode(&self) -> (res: Option<Vec<u8>>)
        ensures
            res is Some <==> credential_bytes(self@) is Some,
            res matches Some(v) ==> credential_bytes(self@) == Some(v@),
    {
        concat_opt(Some(encode_u16(self.credential_type)), encode_vl(self.serialized_content.as_slice()))
    }
}

impl LeafNodeSource {
    /// A copy of this source.
    pub fn duplicate(&self) -> (res: LeafNodeSource)
        ensures
            res@ == self@,
    {
        match self {
            LeafNodeSource::KeyPackage(l) => LeafNodeSource::KeyPackage(*l),
            LeafNodeSource::Update => LeafNodeSource::Update,
            LeafNodeSource::Commit(h) => LeafNodeSource::Commit(copy_bytes(h.as_slice())),
        }
    }

    /// The TLS encoding; `None` when a parent hash is too long.
    pub fn encode(&self) -> (res: Option<Vec<u8>>)
        ensures
            res is Some <==> leaf_node_source_bytes(self@) is Some,
            res matches Some(v) ==> leaf_node_source_bytes(self@) == Some(v@),
    {
        match self {
            LeafNodeSource::KeyPackage(l) => {
                let mut out = vec![1u8];
                let b = l.encode();
                crate::tls::append_bytes(&mut out, b.as_slice());
                assert(out@ =~= seq![1u8] + lifetime_bytes(*l));
                Some(out)
            },
            LeafNodeSource::Update => {
                let out = vec![2u8];
                assert(out@ =~= seq![2u8]);
                Some(out)
            },
            LeafNodeSource::Commit(h) => {
                let tag = vec![3u8];
                assert(tag@ =~= seq![3u8]);
                concat_opt(Some(tag), encode_vl(h.as_slice()))
            },
        }
    }
}

impl LeafNode {
    /// The encoding that the leaf node signature covers; `None` when a part is too long.
    pub fn encode_tbs(&self) -> (res: Option<Vec<u8>>)
        ensures
            res is Some <==> leaf_node_tbs_bytes(self@) is Some,
            res matches Some(v) ==> leaf_node_tbs_bytes(self@) == Some(v@),
    {
        reveal(leaf_node_tbs_bytes);
        let a = encode_vl(self.encryption_key.as_slice());
        let b = encode_vl(self.signature_key.as_slice());
        let c = self.credential.encode();
        let d = self.capabilities.encode();
        let e = self.leaf_node_source.encode();
        let f = self.extensions.encode();
        concat_opt(concat_opt(concat_opt(concat_opt(concat_opt(a, b), c), d), e), f)
    }

    /// The TLS encoding; `None` when a part is too long.
    pub fn encode(&self) -> (res: Option<Vec<u8>>)
        ensures
            res is Some <==> leaf_node_bytes(self@) is Some,
            res matches Some(v) ==> leaf_node_bytes(self@) == Some(v@),
    {
        concat_opt(self.encode_tbs(), encode_vl(self.signature.as_slice()))
    }

    /// A copy of this leaf node.
    pub fn duplicate(&self) -> (res: LeafNode)
        ensures
            res@ == self@,
    {
        LeafNode {
            encryption_key: copy_bytes(self.encryption_key.as_slice()),
            signature_key: copy_bytes(self.signature_key.as_slice()),
            credential: self.credential.duplicate(),
            capabilities: self.capabilities.duplicate(),
            leaf_node_source: self.leaf_node_source.duplicate(),
            extensions: self.extensions.duplicate(),
            signature: copy_bytes(self.signature.as_slice()),
        }
    }

    /// The leaf node's extensions.
    pub fn extensions(&self) -> (res: &Extensions)
        ensures
            res@ == self@.extensions,
    {
        &self.extensions
    }

    /// The leaf node's capabilities.
    pub fn capabilities(&self) -> (res: &Capabilities)
        ensures
            res@ == self@.capabilities,
    {
        &self.capabilities
    }

    /// The signature public key.
    pub fn signature_key(&self) -> (res: &[u8])
        ensures
            res@ == self@.signature_key,
    {
        self.signature_key.as_slice()
    }

    /// The HPKE encryption public key.
    pub fn encryption_key(&self) -> (res: &[u8])
        ensures
            res@ == self@.encryption_key,
    {
        self.encryption_key.as_slice()
    }

    /// The leaf node signature.
    pub fn signature(&self) -> (res: &[u8])
        ensures
            res@ == self@.signature,
    {
        self.signature.as_slice()
    }
}

/// The code points of the canonical extension types of `s`.
pub open spec fn canonical_codes(s: Seq<ExtensionType>) -> Set<u16> {
    Set::new(|c: u16| exists|j: int| 0 <= j < s.len() && is_canonical_extension_type(#[trigger] s[j]) && extension_type_code(s[j]) == c)
}

/// Advertised extension types together with the set of their canonical
/// code points, so that a canonical type is looked up in constant expected
/// time.
pub struct AdvertisedExtensions {
    types: Vec<ExtensionType>,
    codes: std::collections::HashSet<u16>,
}

impl AdvertisedExtensions {
    /// The advertised extension types.
    pub closed spec fn advertised(self) -> Seq<ExtensionType> {
        self.types@
    }

    #[verifier::type_invariant]
    spec fn well_formed(self) -> bool {
        self.codes@ == canonical_codes(self.types@)
    }

    /// Whether `t` is advertised.
    pub fn contains(&self, t: ExtensionType) -> (res: bool)
        ensures
            res == self.advertised().contains(t),
    {
        broadcast use vstd::std_specs::hash::group_hash_axioms;
        proof { use_type_invariant(self); }
        if t.is_canonical() {
            let code = t.code();
            let res = self.codes.contains(&code);
            proof {
                let s = self.types@;
                if res {
                    let j = choose|j: int| 0 <= j < s.len() && is_canonical_extension_type(#[trigger] s[j])
                        && extension_type_code(s[j]) == code;
                    crate::laws::law_canonical_types_are_determined_by_code(code, s[j], t);
                    assert(s[j] == t);
                }
                if s.contains(t) {
                    let j = choose|j: int| 0 <= j < s.len() && s[j] == t;
                    assert(is_canonical_extension_type(s[j]));
                    assert(canonical_codes(s).contains(code));
                }
            }
            res
        } else {
            let mut i: usize = 0;
            while i < self.types.len()
                invariant
                    i <= self.types@.len(),
                    forall|j: int| 0 <= j < i ==> self.types@[j] != t,
                decreases self.types@.len() - i,
            {
                if self.types[i] == t {
                    assert(self.types@[i as int] == t);
                    return true;
                }
                i = i + 1;
            }
            false
        }
    }
}

} // verus!
