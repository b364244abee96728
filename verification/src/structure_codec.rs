//! Decoding of capabilities, credentials, leaf nodes, KeyPackageTBS and
//! KeyPackages, with the proof that decoding inverts encoding.

use vstd::prelude::*;

use crate::ciphersuite::{ciphersuite_code, ciphersuite_from_code};
use crate::codec::{
    extensions_canonical, lemma_parse_extension_vector_roundtrip,
    lemma_parse_extension_vector_sound, lemma_parse_u16_roundtrip, lemma_parse_u16_sound,
    lemma_parse_u16_vector_roundtrip, lemma_parse_u16_vector_sound, lemma_parse_u64_roundtrip,
    lemma_parse_vl_roundtrip, lemma_parse_vl_sound, parse_extension_vector, parse_u16,
    parse_u16_vector, parse_u64, parse_vl, u64_value,
};
use crate::extension_type::{
    extension_type_code, extension_type_from_code, is_canonical_extension_type, ExtensionType,
};
use crate::extensions::extension_vector;
use crate::key_package::{key_package_bytes, key_package_tbs_bytes, SpecKeyPackage, SpecKeyPackageTbs};
use crate::leaf_node::{
    capabilities_bytes, credential_bytes, leaf_node_bytes, leaf_node_source_bytes,
    leaf_node_tbs_bytes, lifetime_bytes, Lifetime, SpecCapabilities, SpecCredential, SpecLeafNode,
    SpecLeafNodeSource,
};
use crate::tls::{u16_bytes, u16_vector, u64_bytes, vl, vl_opt};

verus! {

/// Decodes capabilities; advertised extension types are the ones their code
/// points denote.
pub open spec fn parse_capabilities(b: Seq<u8>) -> Option<(SpecCapabilities, Seq<u8>)> {
    match parse_u16_vector(b) {
        Some((versions, r1)) => match parse_u16_vector(r1) {
            Some((ciphersuites, r2)) => match parse_u16_vector(r2) {
                Some((codes, r3)) => match parse_u16_vector(r3) {
                    Some((proposals, r4)) => match parse_u16_vector(r4) {
                        Some((credentials, r5)) => Some((
                            SpecCapabilities {
                                versions,
                                ciphersuites,
                                extensions: codes.map_values(|c: u16| extension_type_from_code(c)),
                                proposals,
                                credentials,
                            },
                            r5,
                        )),
                        None => None,
                    },
                    None => None,
                },
                None => None,
            },
            None => None,
        },
        None => None,
    }
}

/// Every advertised extension type is canonical.
pub open spec fn capabilities_canonical(c: SpecCapabilities) -> bool {
    forall|i: int| 0 <= i < c.extensions.len() ==> is_canonical_extension_type(#[trigger] c.extensions[i])
}

/// Decodes a credential.
pub open spec fn parse_credential(b: Seq<u8>) -> Option<(SpecCredential, Seq<u8>)> {
    match parse_u16(b) {
        Some((credential_type, r1)) => match parse_vl(r1) {
            Some((content, r2)) => Some((SpecCredential { credential_type, content }, r2)),
            None => None,
        },
        None => None,
    }
}

/// Decodes a lifetime.
pub open spec fn parse_lifetime(b: Seq<u8>) -> Option<(Lifetime, Seq<u8>)> {
    match parse_u64(b) {
        Some((not_before, r1)) => match parse_u64(r1) {
            Some((not_after, r2)) => Some((Lifetime { not_before, not_after }, r2)),
            None => None,
        },
        None => None,
    }
}

/// Decodes a leaf node source by its one-byte tag.
pub open spec fn parse_leaf_node_source(b: Seq<u8>) -> Option<(SpecLeafNodeSource, Seq<u8>)> {
    if b.len() == 0 {
        None
    } else if b[0] == 1 {
        match parse_lifetime(b.skip(1)) {
            Some((l, r)) => Some((SpecLeafNodeSource::KeyPackage(l), r)),
            None => None,
        }
    } else if b[0] == 2 {
        Some((SpecLeafNodeSource::Update, b.skip(1)))
    } else if b[0] == 3 {
        match parse_vl(b.skip(1)) {
            Some((h, r)) => Some((SpecLeafNodeSource::Commit(h), r)),
            None => None,
        }
    } else {
        None
    }
}

/// Decodes a leaf node.
pub open spec fn parse_leaf_node(b: Seq<u8>) -> Option<(SpecLeafNode, Seq<u8>)> {
    match parse_vl(b) {
        Some((encryption_key, r1)) => match parse_vl(r1) {
            Some((signature_key, r2)) => match parse_credential(r2) {
                Some((credential, r3)) => match parse_capabilities(r3) {
                    Some((capabilities, r4)) => match parse_leaf_node_source(r4) {
                        Some((leaf_node_source, r5)) => match parse_extension_vector(r5) {
                            Some((extensions, r6)) => match parse_vl(r6) {
                                Some((signature, r7)) => Some((
                                    SpecLeafNode {
                                        encryption_key,
                                        signature_key,
                                        credential,
                                        capabilities,
                                        leaf_node_source,
                                        extensions,
                                        signature,
                                    },
                                    r7,
                                )),
                                None => None,
                            },
                            None => None,
                        },
                        None => None,
                    },
                    None => None,
                },
                None => None,
            },
            None => None,
        },
        None => None,
    }
}

/// A leaf node's advertised and carried extension types are canonical.
pub open spec fn leaf_node_canonical(l: SpecLeafNode) -> bool {
    capabilities_canonical(l.capabilities) && extensions_canonical(l.extensions)
}

/// Decodes a KeyPackageTBS.
pub open spec fn parse_key_package_tbs(b: Seq<u8>) -> Option<(SpecKeyPackageTbs, Seq<u8>)> {
    match parse_u16(b) {
        Some((protocol_version, r1)) => match parse_u16(r1) {
            Some((cs, r2)) => match ciphersuite_from_code(cs) {
                Some(ciphersuite) => match parse_vl(r2) {
                    Some((init_key, r3)) => match parse_leaf_node(r3) {
                        Some((leaf_node, r4)) => match parse_extension_vector(r4) {
                            Some((extensions, r5)) => Some((
                                SpecKeyPackageTbs { protocol_version, ciphersuite, init_key, leaf_node, extensions },
                                r5,
                            )),
                            None => None,
                        },
                        None => None,
                    },
                    None => None,
                },
                None => None,
            },
            None => None,
        },
        None => None,
    }
}

/// A KeyPackageTBS's extension types are canonical throughout.
pub open spec fn key_package_tbs_canonical(t: SpecKeyPackageTbs) -> bool {
    leaf_node_canonical(t.leaf_node) && extensions_canonical(t.extensions)
}

/// Decodes a KeyPackage.
pub open spec fn parse_key_package(b: Seq<u8>) -> Option<(SpecKeyPackage, Seq<u8>)> {
    match parse_key_package_tbs(b) {
        Some((payload, r1)) => match parse_vl(r1) {
            Some((signature, r2)) => Some((SpecKeyPackage { payload, signature }, r2)),
            None => None,
        },
        None => None,
    }
}

/// Decoding encoded capabilities with canonical extension types followed by
/// anything gives them back.
pub proof fn lemma_parse_capabilities_roundtrip(c: SpecCapabilities, rest: Seq<u8>)
    requires
        capabilities_bytes(c) is Some,
        capabilities_canonical(c),
    ensures
        parse_capabilities(capabilities_bytes(c).unwrap() + rest) == Some((c, rest)),
{
    reveal(capabilities_bytes);
    let codes = c.extensions.map_values(|t: ExtensionType| extension_type_code(t));
    let v = u16_vector(c.versions).unwrap();
    let s = u16_vector(c.ciphersuites).unwrap();
    let e = u16_vector(codes).unwrap();
    let p = u16_vector(c.proposals).unwrap();
    let r = u16_vector(c.credentials).unwrap();
    assert(capabilities_bytes(c).unwrap() + rest =~= v + (s + (e + (p + (r + rest)))));
    lemma_parse_u16_vector_roundtrip(c.versions, s + (e + (p + (r + rest))));
    lemma_parse_u16_vector_roundtrip(c.ciphersuites, e + (p + (r + rest)));
    lemma_parse_u16_vector_roundtrip(codes, p + (r + rest));
    lemma_parse_u16_vector_roundtrip(c.proposals, r + rest);
    lemma_parse_u16_vector_roundtrip(c.credentials, rest);
    assert(codes.map_values(|x: u16| extension_type_from_code(x)) =~= c.extensions) by {
        assert forall|i: int| 0 <= i < c.extensions.len() implies
            codes.map_values(|x: u16| extension_type_from_code(x))[i] == c.extensions[i] by {
            assert(is_canonical_extension_type(c.extensions[i]));
        }
    }
}

/// What decodes as capabilities is their encoding followed by the remaining
/// bytes, with canonical extension types.
pub proof fn lemma_parse_capabilities_sound(b: Seq<u8>)
    requires
        parse_capabilities(b) is Some,
    ensures
        capabilities_bytes(parse_capabilities(b).unwrap().0) is Some,
        capabilities_bytes(parse_capabilities(b).unwrap().0).unwrap() + parse_capabilities(b).unwrap().1 == b,
        capabilities_canonical(parse_capabilities(b).unwrap().0),
{
    let (versions, r1) = parse_u16_vector(b).unwrap();
    let (ciphersuites, r2) = parse_u16_vector(r1).unwrap();
    let (codes, r3) = parse_u16_vector(r2).unwrap();
    let (proposals, r4) = parse_u16_vector(r3).unwrap();
    let (credentials, r5) = parse_u16_vector(r4).unwrap();
    lemma_parse_u16_vector_sound(b);
    lemma_parse_u16_vector_sound(r1);
    lemma_parse_u16_vector_sound(r2);
    lemma_parse_u16_vector_sound(r3);
    lemma_parse_u16_vector_sound(r4);
    let bv = u16_vector(versions).unwrap();
    let bs = u16_vector(ciphersuites).unwrap();
    let be = u16_vector(codes).unwrap();
    let bp = u16_vector(proposals).unwrap();
    let bc = u16_vector(credentials).unwrap();
    let (c, r) = parse_capabilities(b).unwrap();
    assert(r == r5);
    assert(c.extensions.map_values(|t: ExtensionType| extension_type_code(t)) =~= codes);
    assert forall|i: int| 0 <= i < c.extensions.len() implies is_canonical_extension_type(#[trigger] c.extensions[i]) by {
        assert(c.extensions[i] == extension_type_from_code(codes[i]));
    }
    assert(capabilities_bytes(c) == Some(bv + bs + be + bp + bc)) by {
        reveal(capabilities_bytes);
    }
    assert(bv + bs + be + bp + bc + r5 =~= bv + (bs + (be + (bp + (bc + r5)))));
}

/// Decoding a credential's encoding followed by anything gives it back.
pub proof fn lemma_parse_credential_roundtrip(c: SpecCredential, rest: Seq<u8>)
    requires
        credential_bytes(c) is Some,
    ensures
        parse_credential(credential_bytes(c).unwrap() + rest) == Some((c, rest)),
{
    assert(credential_bytes(c).unwrap() + rest =~= u16_bytes(c.credential_type) + (vl(c.content) + rest));
    lemma_parse_u16_roundtrip(c.credential_type, vl(c.content) + rest);
    lemma_parse_vl_roundtrip(c.content, rest);
}

/// What decodes as a credential is its encoding followed by the remaining bytes.
pub proof fn lemma_parse_credential_sound(b: Seq<u8>)
    requires
        parse_credential(b) is Some,
    ensures
        credential_bytes(parse_credential(b).unwrap().0) is Some,
        credential_bytes(parse_credential(b).unwrap().0).unwrap() + parse_credential(b).unwrap().1 == b,
{
    lemma_parse_u16_sound(b);
    let (t, r1) = parse_u16(b).unwrap();
    lemma_parse_vl_sound(r1);
    let (c, r) = parse_credential(b).unwrap();
    assert(credential_bytes(c).unwrap() + r =~= u16_bytes(t) + (vl(c.content) + r));
}

/// Decoding a lifetime's encoding followed by anything gives it back.
pub proof fn lemma_parse_lifetime_roundtrip(l: Lifetime, rest: Seq<u8>)
    ensures
        parse_lifetime(lifetime_bytes(l) + rest) == Some((l, rest)),
{
    assert(lifetime_bytes(l) + rest =~= u64_bytes(l.not_before) + (u64_bytes(l.not_after) + rest));
    lemma_parse_u64_roundtrip(l.not_before, u64_bytes(l.not_after) + rest);
    lemma_parse_u64_roundtrip(l.not_after, rest);
}

/// What decodes as a `u64` is its encoding followed by the remaining bytes.
pub proof fn lemma_parse_u64_sound(b: Seq<u8>)
    requires
        parse_u64(b) is Some,
    ensures
        u64_bytes(parse_u64(b).unwrap().0) + parse_u64(b).unwrap().1 == b,
{
    reveal(crate::codec::parse_u64);
    let x = parse_u64(b).unwrap().0;
    assert(u64_value(b) < 0x1_0000_0000_0000_0000) by (nonlinear_arith)
        requires
            b[0] < 0x100, b[1] < 0x100, b[2] < 0x100, b[3] < 0x100,
            b[4] < 0x100, b[5] < 0x100, b[6] < 0x100, b[7] < 0x100,
            u64_value(b) == ((((((b[0] as nat * 0x100 + b[1] as nat) * 0x100 + b[2] as nat) * 0x100 + b[3] as nat) * 0x100
                + b[4] as nat) * 0x100 + b[5] as nat) * 0x100 + b[6] as nat) * 0x100 + b[7] as nat;
    lemma_parse_u64_roundtrip(x, b.skip(8));
    let y = u64_bytes(x);
    crate::structure_codec::lemma_u64_bytes_injective(b.take(8), y, x);
    assert(b =~= b.take(8) + b.skip(8));
}

/// Eight bytes whose value is `x` are the encoding of `x`.
pub proof fn lemma_u64_bytes_injective(a: Seq<u8>, y: Seq<u8>, x: u64)
    requires
        a.len() == 8,
        y == u64_bytes(x),
        u64_value(a) == x as nat,
    ensures
        a == y,
{
    let x0 = x as int;
    let q1 = x0 / 0x100;
    let q2 = q1 / 0x100;
    let q3 = q2 / 0x100;
    let q4 = q3 / 0x100;
    let q5 = q4 / 0x100;
    let q6 = q5 / 0x100;
    let q7 = q6 / 0x100;
    vstd::arithmetic::div_mod::lemma_div_denominator(x0, 0x100, 0x100);
    vstd::arithmetic::div_mod::lemma_div_denominator(x0, 0x1_0000, 0x100);
    vstd::arithmetic::div_mod::lemma_div_denominator(x0, 0x100_0000, 0x100);
    vstd::arithmetic::div_mod::lemma_div_denominator(x0, 0x1_0000_0000, 0x100);
    vstd::arithmetic::div_mod::lemma_div_denominator(x0, 0x100_0000_0000, 0x100);
    vstd::arithmetic::div_mod::lemma_div_denominator(x0, 0x1_0000_0000_0000, 0x100);
    let h0 = a[0] as int;
    let h1 = h0 * 0x100 + a[1] as int;
    let h2 = h1 * 0x100 + a[2] as int;
    let h3 = h2 * 0x100 + a[3] as int;
    let h4 = h3 * 0x100 + a[4] as int;
    let h5 = h4 * 0x100 + a[5] as int;
    let h6 = h5 * 0x100 + a[6] as int;
    assert(x0 == h6 * 0x100 + a[7] as int);
    assert(x0 % 0x100 == a[7] as int && q1 == h6);
    assert(q1 % 0x100 == a[6] as int && q2 == h5);
    assert(q2 % 0x100 == a[5] as int && q3 == h4);
    assert(q3 % 0x100 == a[4] as int && q4 == h3);
    assert(q4 % 0x100 == a[3] as int && q5 == h2);
    assert(q5 % 0x100 == a[2] as int && q6 == h1);
    assert(q6 % 0x100 == a[1] as int && q7 == h0);
    assert(a =~= y);
}

/// Decoding a leaf node source's encoding followed by anything gives it back.
pub proof fn lemma_parse_leaf_node_source_roundtrip(src: SpecLeafNodeSource, rest: Seq<u8>)
    requires
        leaf_node_source_bytes(src) is Some,
    ensures
        parse_leaf_node_source(leaf_node_source_bytes(src).unwrap() + rest) == Some((src, rest)),
{
    let b = leaf_node_source_bytes(src).unwrap() + rest;
    match src {
        SpecLeafNodeSource::KeyPackage(l) => {
            assert(b.skip(1) =~= lifetime_bytes(l) + rest);
            lemma_parse_lifetime_roundtrip(l, rest);
        },
        SpecLeafNodeSource::Update => {
            assert(b.skip(1) =~= rest);
        },
        SpecLeafNodeSource::Commit(h) => {
            assert(b.skip(1) =~= vl(h) + rest);
            lemma_parse_vl_roundtrip(h, rest);
        },
    }
}

/// What decodes as a leaf node source is its encoding followed by the remaining bytes.
pub proof fn lemma_parse_leaf_node_source_sound(b: Seq<u8>)
    requires
        parse_leaf_node_source(b) is Some,
    ensures
        leaf_node_source_bytes(parse_leaf_node_source(b).unwrap().0) is Some,
        leaf_node_source_bytes(parse_leaf_node_source(b).unwrap().0).unwrap() + parse_leaf_node_source(b).unwrap().1 == b,
{
    let (src, r) = parse_leaf_node_source(b).unwrap();
    let t = b.skip(1);
    if b[0] == 1 {
        let (nb, r1) = parse_u64(t).unwrap();
        lemma_parse_u64_sound(t);
        lemma_parse_u64_sound(r1);
        assert(leaf_node_source_bytes(src).unwrap() + r =~= seq![1u8] + (u64_bytes(nb) + (u64_bytes(parse_u64(r1).unwrap().0) + r)));
        assert(b =~= seq![b[0]] + t);
    } else if b[0] == 2 {
        assert(b =~= seq![b[0]] + t);
    } else {
        lemma_parse_vl_sound(t);
        assert(b =~= seq![b[0]] + t);
        assert(leaf_node_source_bytes(src).unwrap() + r =~= seq![3u8] + (vl(parse_vl(t).unwrap().0) + r));
    }
}

/// Decoding a canonical leaf node's encoding followed by anything gives it back.
pub proof fn lemma_parse_leaf_node_roundtrip(l: SpecLeafNode, rest: Seq<u8>)
    requires
        leaf_node_bytes(l) is Some,
        leaf_node_canonical(l),
    ensures
        parse_leaf_node(leaf_node_bytes(l).unwrap() + rest) == Some((l, rest)),
{
    reveal(leaf_node_tbs_bytes);
    let a = vl(l.encryption_key);
    let s = vl(l.signature_key);
    let c = credential_bytes(l.credential).unwrap();
    let p = capabilities_bytes(l.capabilities).unwrap();
    let o = leaf_node_source_bytes(l.leaf_node_source).unwrap();
    let e = extension_vector(l.extensions).unwrap();
    let g = vl(l.signature);
    assert(leaf_node_bytes(l).unwrap() + rest =~= a + (s + (c + (p + (o + (e + (g + rest)))))));
    lemma_parse_vl_roundtrip(l.encryption_key, s + (c + (p + (o + (e + (g + rest))))));
    lemma_parse_vl_roundtrip(l.signature_key, c + (p + (o + (e + (g + rest)))));
    lemma_parse_credential_roundtrip(l.credential, p + (o + (e + (g + rest))));
    lemma_parse_capabilities_roundtrip(l.capabilities, o + (e + (g + rest)));
    lemma_parse_leaf_node_source_roundtrip(l.leaf_node_source, e + (g + rest));
    lemma_parse_extension_vector_roundtrip(l.extensions, g + rest);
    lemma_parse_vl_roundtrip(l.signature, rest);
}

/// What decodes as a leaf node is its encoding followed by the remaining
/// bytes, and it is canonical.
pub proof fn lemma_parse_leaf_node_sound(b: Seq<u8>)
    requires
        parse_leaf_node(b) is Some,
    ensures
        leaf_node_bytes(parse_leaf_node(b).unwrap().0) is Some,
        leaf_node_bytes(parse_leaf_node(b).unwrap().0).unwrap() + parse_leaf_node(b).unwrap().1 == b,
        leaf_node_canonical(parse_leaf_node(b).unwrap().0),
{
    let (encryption_key, r1) = parse_vl(b).unwrap();
    let (signature_key, r2) = parse_vl(r1).unwrap();
    let (credential, r3) = parse_credential(r2).unwrap();
    let (capabilities, r4) = parse_capabilities(r3).unwrap();
    let (source, r5) = parse_leaf_node_source(r4).unwrap();
    let (extensions, r6) = parse_extension_vector(r5).unwrap();
    let (signature, r7) = parse_vl(r6).unwrap();
    lemma_parse_vl_sound(b);
    lemma_parse_vl_sound(r1);
    lemma_parse_credential_sound(r2);
    lemma_parse_capabilities_sound(r3);
    lemma_parse_leaf_node_source_sound(r4);
    lemma_parse_extension_vector_sound(r5);
    lemma_parse_vl_sound(r6);
    let (l, r) = parse_leaf_node(b).unwrap();
    let a = vl(encryption_key);
    let s = vl(signature_key);
    let c = credential_bytes(credential).unwrap();
    let p = capabilities_bytes(capabilities).unwrap();
    let o = leaf_node_source_bytes(source).unwrap();
    let e = extension_vector(extensions).unwrap();
    let g = vl(signature);
    assert(leaf_node_bytes(l) == Some(a + s + c + p + o + e + g)) by {
        reveal(leaf_node_tbs_bytes);
    }
    assert(a + s + c + p + o + e + g + r7 =~= a + (s + (c + (p + (o + (e + (g + r7)))))));
}

/// Decoding a canonical KeyPackageTBS's encoding followed by anything gives it back.
pub proof fn lemma_parse_key_package_tbs_roundtrip(t: SpecKeyPackageTbs, rest: Seq<u8>)
    requires
        key_package_tbs_bytes(t) is Some,
        key_package_tbs_canonical(t),
    ensures
        parse_key_package_tbs(key_package_tbs_bytes(t).unwrap() + rest) == Some((t, rest)),
{
    reveal(key_package_tbs_bytes);
    let v = u16_bytes(t.protocol_version);
    let cs = u16_bytes(ciphersuite_code(t.ciphersuite));
    let i = vl(t.init_key);
    let l = leaf_node_bytes(t.leaf_node).unwrap();
    let e = extension_vector(t.extensions).unwrap();
    assert(key_package_tbs_bytes(t).unwrap() + rest =~= v + (cs + (i + (l + (e + rest)))));
    lemma_parse_u16_roundtrip(t.protocol_version, cs + (i + (l + (e + rest))));
    lemma_parse_u16_roundtrip(ciphersuite_code(t.ciphersuite), i + (l + (e + rest)));
    lemma_parse_vl_roundtrip(t.init_key, l + (e + rest));
    lemma_parse_leaf_node_roundtrip(t.leaf_node, e + rest);
    lemma_parse_extension_vector_roundtrip(t.extensions, rest);
}

/// What decodes as a KeyPackageTBS is its encoding followed by the remaining
/// bytes, and it is canonical.
pub proof fn lemma_parse_key_package_tbs_sound(b: Seq<u8>)
    requires
        parse_key_package_tbs(b) is Some,
    ensures
        key_package_tbs_bytes(parse_key_package_tbs(b).unwrap().0) is Some,
        key_package_tbs_bytes(parse_key_package_tbs(b).unwrap().0).unwrap() + parse_key_package_tbs(b).unwrap().1 == b,
        key_package_tbs_canonical(parse_key_package_tbs(b).unwrap().0),
{
    let (pv, r1) = parse_u16(b).unwrap();
    let (code, r2) = parse_u16(r1).unwrap();
    let (init_key, r3) = parse_vl(r2).unwrap();
    let (leaf, r4) = parse_leaf_node(r3).unwrap();
    let (extensions, r5) = parse_extension_vector(r4).unwrap();
    lemma_parse_u16_sound(b);
    lemma_parse_u16_sound(r1);
    lemma_parse_vl_sound(r2);
    lemma_parse_leaf_node_sound(r3);
    lemma_parse_extension_vector_sound(r4);
    let (t, r) = parse_key_package_tbs(b).unwrap();
    assert(ciphersuite_code(t.ciphersuite) == code);
    let v = u16_bytes(pv);
    let cs = u16_bytes(code);
    let i = vl(init_key);
    let l = leaf_node_bytes(leaf).unwrap();
    let e = extension_vector(extensions).unwrap();
    assert(key_package_tbs_bytes(t) == Some(v + cs + i + l + e)) by {
        reveal(key_package_tbs_bytes);
    }
    assert(v + cs + i + l + e + r5 =~= v + (cs + (i + (l + (e + r5)))));
}

/// Decoding a canonical KeyPackage's encoding followed by anything gives it back.
pub proof fn lemma_parse_key_package_roundtrip(k: SpecKeyPackage, rest: Seq<u8>)
    requires
        key_package_bytes(k) is Some,
        key_package_tbs_canonical(k.payload),
    ensures
        parse_key_package(key_package_bytes(k).unwrap() + rest) == Some((k, rest)),
{
    let t = key_package_tbs_bytes(k.payload).unwrap();
    assert(key_package_bytes(k).unwrap() + rest =~= t + (vl(k.signature) + rest));
    lemma_parse_key_package_tbs_roundtrip(k.payload, vl(k.signature) + rest);
    lemma_parse_vl_roundtrip(k.signature, rest);
}

/// What decodes as a KeyPackage is its encoding followed by the remaining
/// bytes, and it is canonical.
pub proof fn lemma_parse_key_package_sound(b: Seq<u8>)
    requires
        parse_key_package(b) is Some,
    ensures
        key_package_bytes(parse_key_package(b).unwrap().0) is Some,
        key_package_bytes(parse_key_package(b).unwrap().0).unwrap() + parse_key_package(b).unwrap().1 == b,
        key_package_tbs_canonical(parse_key_package(b).unwrap().0.payload),
{
    lemma_parse_key_package_tbs_sound(b);
    let (t, r1) = parse_key_package_tbs(b).unwrap();
    lemma_parse_vl_sound(r1);
    let (k, r) = parse_key_package(b).unwrap();
    let tb = key_package_tbs_bytes(t).unwrap();
    assert(key_package_bytes(k).unwrap() + r =~= tb + (vl(k.signature) + r));
}

} // verus!
