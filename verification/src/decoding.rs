//! Executable decoding of KeyPackages from their TLS encoding.

use vstd::prelude::*;

use crate::ciphersuite::{ciphersuite_code, Ciphersuite};
use crate::codec::{
    parse_extension, parse_extension_list, parse_extension_vector, parse_u16, parse_u16_list,
    parse_u16_vector, parse_u64, parse_varint, parse_vl, u64_value,
};
use crate::extension_type::{extension_type_from_code, ExtensionType};
use crate::extensions::{Extension, Extensions, SpecExtension};
use crate::leaf_node::{Capabilities, Credential, LeafNode, LeafNodeSource, Lifetime, SpecLeafNodeSource};
use crate::key_package::{KeyPackage, KeyPackageTbs};
use crate::structure_codec::{
    parse_capabilities, parse_credential, parse_key_package, parse_key_package_tbs,
    parse_leaf_node, parse_leaf_node_source, parse_lifetime,
};

verus! {

/// Reads a variable-length integer at `pos`.
fn read_varint(input: &[u8], pos: usize) -> (res: Option<(usize, usize)>)
    requires
        pos <= input@.len(),
    ensures
        match parse_varint(input@.skip(pos as int)) {
            Some((n, r)) => res matches Some((v, p)) && v as nat == n && pos <= p <= input@.len() && input@.skip(p as int) == r,
            None => res is None,
        },
{
    let ghost b = input@.skip(pos as int);
    if pos >= input.len() {
        return None;
    }
    let first = input[pos];
    let tag = first / 64;
    let hi = (first % 64) as usize;
    if tag == 0 {
        assert(b.skip(1) =~= input@.skip(pos + 1));
        Some((hi, pos + 1))
    } else if tag == 1 {
        if input.len() - pos < 2 {
            return None;
        }
        let v = hi * 0x100 + input[pos + 1] as usize;
        if v <= 0x3f {
            return None;
        }
        assert(b.skip(2) =~= input@.skip(pos + 2));
        Some((v, pos + 2))
    } else if tag == 2 {
        if input.len() - pos < 4 {
            return None;
        }
        let v = hi * 0x100_0000 + input[pos + 1] as usize * 0x1_0000 + input[pos + 2] as usize * 0x100 + input[pos + 3] as usize;
        if v <= 0x3fff {
            return None;
        }
        assert(b.skip(4) =~= input@.skip(pos + 4));
        Some((v, pos + 4))
    } else {
        None
    }
}

/// Copies `input[start..end]`.
fn copy_range(input: &[u8], start: usize, end: usize) -> (res: Vec<u8>)
    requires
        start <= end <= input@.len(),
    ensures
        res@ == input@.subrange(start as int, end as int),
{
    let mut v: Vec<u8> = Vec::new();
    let mut i = start;
    while i < end
        invariant
            start <= i <= end <= input@.len(),
            v@ == input@.subrange(start as int, i as int),
        decreases end - i,
    {
        v.push(input[i]);
        i = i + 1;
        assert(v@ =~= input@.subrange(start as int, i as int));
    }
    v
}

/// Reads a variable-length opaque vector at `pos`.
pub(crate) fn read_vl(input: &[u8], pos: usize) -> (res: Option<(Vec<u8>, usize)>)
    requires
        pos <= input@.len(),
    ensures
        match parse_vl(input@.skip(pos as int)) {
            Some((c, r)) => res matches Some((v, p)) && v@ == c && pos <= p <= input@.len() && input@.skip(p as int) == r,
            None => res is None,
        },
{
    reveal(parse_vl);
    match read_varint(input, pos) {
        Some((n, p)) => {
            if n > input.len() - p {
                return None;
            }
            let v = copy_range(input, p, p + n);
            assert(input@.skip(p as int).take(n as int) =~= input@.subrange(p as int, (p + n) as int));
            assert(input@.skip(p as int).skip(n as int) =~= input@.skip((p + n) as int));
            Some((v, p + n))
        },
        None => None,
    }
}

/// Reads a big-endian `u16` at `pos`.
pub(crate) fn read_u16(input: &[u8], pos: usize) -> (res: Option<(u16, usize)>)
    requires
        pos <= input@.len(),
    ensures
        match parse_u16(input@.skip(pos as int)) {
            Some((x, r)) => res matches Some((v, p)) && v == x && pos <= p <= input@.len() && input@.skip(p as int) == r,
            None => res is None,
        },
{
    reveal(parse_u16);
    if input.len() - pos < 2 {
        return None;
    }
    let v = (input[pos] as u16) * 0x100 + input[pos + 1] as u16;
    assert(input@.skip(pos as int).skip(2) =~= input@.skip(pos + 2));
    Some((v, pos + 2))
}

/// Reads a big-endian `u64` at `pos`.
fn read_u64(input: &[u8], pos: usize) -> (res: Option<(u64, usize)>)
    requires
        pos <= input@.len(),
    ensures
        match parse_u64(input@.skip(pos as int)) {
            Some((x, r)) => res matches Some((v, p)) && v == x && pos <= p <= input@.len() && input@.skip(p as int) == r,
            None => res is None,
        },
{
    reveal(parse_u64);
    if input.len() - pos < 8 {
        return None;
    }
    let ghost b = input@.skip(pos as int);
    let n = input.len();
    let mut v: u64 = 0;
    let mut i: usize = 0;
    while i < 8
        invariant
            pos + 8 <= input@.len(),
            n == input@.len(),
            b == input@.skip(pos as int),
            i <= 8,
            v as nat == partial_u64(b, i as int),
            (v as nat) < pow256(i as int),
        decreases 8 - i,
    {
        proof { lemma_partial_u64_step(b, i as int, v as nat); }
        assert(pos + i < input@.len());
        assert(b[i as int] == input@[pos + i]);
        let idx = pos + i;
        let byte = input[idx] as u64;
        let shifted = v * 0x100;
        v = shifted + byte;
        i = i + 1;
    }
    proof { lemma_partial_u64_full(b); }
    assert(b.skip(8) =~= input@.skip(pos + 8));
    Some((v, pos + 8))
}

/// The value of the first `i` of eight big-endian bytes.
spec fn partial_u64(b: Seq<u8>, i: int) -> nat
    decreases i,
{
    if i <= 0 {
        0
    } else {
        partial_u64(b, i - 1) * 0x100 + b[i - 1] as nat
    }
}

/// `256` to the power `i`.
spec fn pow256(i: int) -> nat
    decreases i,
{
    if i <= 0 {
        1
    } else {
        pow256(i - 1) * 0x100
    }
}

proof fn lemma_partial_u64_step(b: Seq<u8>, i: int, v: nat)
    requires
        0 <= i < 8,
        b.len() >= 8,
        v == partial_u64(b, i),
        v < pow256(i),
    ensures
        partial_u64(b, i + 1) == v * 0x100 + b[i] as nat,
        partial_u64(b, i + 1) < pow256(i + 1),
        v * 0x100 + b[i] as nat <= u64::MAX,
{
    assert(pow256(8) == 0x1_0000_0000_0000_0000) by {
        reveal_with_fuel(pow256, 9);
    }
    assert(pow256(i + 1) == pow256(i) * 0x100);
    assert(v * 0x100 + (b[i] as nat) < pow256(i) * 0x100) by (nonlinear_arith)
        requires v < pow256(i), b[i] < 0x100;
    lemma_pow256_monotone(i + 1);
}

proof fn lemma_pow256_monotone(i: int)
    requires
        0 <= i <= 8,
    ensures
        pow256(i) <= 0x1_0000_0000_0000_0000,
    decreases 8 - i,
{
    reveal_with_fuel(pow256, 9);
    if i < 8 {
        lemma_pow256_monotone(i + 1);
        assert(pow256(i + 1) == pow256(i) * 0x100);
    }
}

proof fn lemma_partial_u64_full(b: Seq<u8>)
    requires
        b.len() >= 8,
    ensures
        partial_u64(b, 8) == u64_value(b),
{
    reveal_with_fuel(partial_u64, 9);
}

/// Decodes a whole byte string as a list of big-endian `u16` values.
fn decode_u16_list(c: &[u8]) -> (res: Option<Vec<u16>>)
    ensures
        match parse_u16_list(c@) {
            Some(l) => res matches Some(v) && v@ == l,
            None => res is None,
        },
{
    let n = c.len();
    if n % 2 != 0 {
        proof { lemma_parse_u16_list_odd(c@); }
        return None;
    }
    let mut v: Vec<u16> = Vec::new();
    let mut i: usize = 0;
    assert(c@.skip(0) =~= c@);
    assert(forall|l: Seq<u16>| v@ + l =~= l);
    while i < n
        invariant
            n == c@.len(),
            n % 2 == 0,
            i <= n,
            i % 2 == 0,
            parse_u16_list(c@) == match parse_u16_list(c@.skip(i as int)) {
                Some(l) => Some(v@ + l),
                None => None::<Seq<u16>>,
            },
        decreases n - i,
    {
        let x = (c[i] as u16) * 0x100 + c[i + 1] as u16;
        let ghost rest = c@.skip(i as int);
        assert(rest.skip(2) =~= c@.skip(i + 2));
        assert(rest[0] == c@[i as int] && rest[1] == c@[i + 1]);
        let ghost old_v = v@;
        v.push(x);
        assert(forall|l: Seq<u16>| old_v + (seq![x] + l) =~= v@ + l);
        i = i + 2;
    }
    assert(c@.skip(i as int) =~= Seq::<u8>::empty());
    assert(v@ + Seq::<u16>::empty() =~= v@);
    Some(v)
}

proof fn lemma_parse_u16_list_odd(c: Seq<u8>)
    requires
        c.len() % 2 != 0,
    ensures
        parse_u16_list(c) is None,
    decreases c.len(),
{
    if c.len() >= 2 {
        lemma_parse_u16_list_odd(c.skip(2));
    }
}

/// Reads a variable-length vector of `u16` values at `pos`.
fn read_u16_vector(input: &[u8], pos: usize) -> (res: Option<(Vec<u16>, usize)>)
    requires
        pos <= input@.len(),
    ensures
        match parse_u16_vector(input@.skip(pos as int)) {
            Some((l, r)) => res matches Some((v, p)) && v@ == l && pos <= p <= input@.len() && input@.skip(p as int) == r,
            None => res is None,
        },
{
    reveal(parse_u16_vector);
    match read_vl(input, pos) {
        Some((c, p)) => match decode_u16_list(c.as_slice()) {
            Some(l) => Some((l, p)),
            None => None,
        },
        None => None,
    }
}

/// Reads one extension at `pos`.
fn read_extension(input: &[u8], pos: usize) -> (res: Option<(Extension, usize)>)
    requires
        pos <= input@.len(),
    ensures
        match parse_extension(input@.skip(pos as int)) {
            Some((e, r)) => res matches Some((x, p)) && x@ == e && pos <= p <= input@.len() && input@.skip(p as int) == r,
            None => res is None,
        },
{
    match read_u16(input, pos) {
        Some((code, p1)) => match read_vl(input, p1) {
            Some((data, p2)) => Some((Extension { extension_type: ExtensionType::from_code(code), extension_data: data }, p2)),
            None => None,
        },
        None => None,
    }
}

/// Decodes a whole byte string as a list of extensions.
fn decode_extension_list(c: &[u8]) -> (res: Option<Vec<Extension>>)
    ensures
        match parse_extension_list(c@) {
            Some(l) => res matches Some(v) && v@.map_values(|e: Extension| e@) == l,
            None => res is None,
        },
{
    let n = c.len();
    let mut v: Vec<Extension> = Vec::new();
    let mut i: usize = 0;
    assert(c@.skip(0) =~= c@);
    assert(v@.map_values(|e: Extension| e@) =~= Seq::<SpecExtension>::empty());
    assert(forall|l: Seq<SpecExtension>| Seq::<SpecExtension>::empty() + l =~= l);
    while i < n
        invariant
            n == c@.len(),
            i <= n,
            parse_extension_list(c@) == match parse_extension_list(c@.skip(i as int)) {
                Some(l) => Some(v@.map_values(|e: Extension| e@) + l),
                None => None::<Seq<SpecExtension>>,
            },
        decreases n - i,
    {
        let ghost rest = c@.skip(i as int);
        match read_extension(c, i) {
            Some((e, p)) => {
                if p <= i {
                    return None;
                }
                let ghost old_v = v@.map_values(|x: Extension| x@);
                let ghost ev = e@;
                v.push(e);
                assert(v@.map_values(|x: Extension| x@) =~= old_v.push(ev));
                assert(forall|l: Seq<SpecExtension>| old_v + (seq![ev] + l) =~= old_v.push(ev) + l);
                i = p;
            },
            None => {
                return None;
            },
        }
    }
    assert(c@.skip(i as int) =~= Seq::<u8>::empty());
    assert(v@.map_values(|e: Extension| e@) + Seq::<SpecExtension>::empty() =~= v@.map_values(|e: Extension| e@));
    Some(v)
}

/// Reads an extension vector at `pos`.
fn read_extension_vector(input: &[u8], pos: usize) -> (res: Option<(Vec<Extension>, usize)>)
    requires
        pos <= input@.len(),
    ensures
        match parse_extension_vector(input@.skip(pos as int)) {
            Some((l, r)) => res matches Some((v, p)) && v@.map_values(|e: Extension| e@) == l
                && pos <= p <= input@.len() && input@.skip(p as int) == r,
            None => res is None,
        },
{
    reveal(parse_extension_vector);
    match read_vl(input, pos) {
        Some((c, p)) => match decode_extension_list(c.as_slice()) {
            Some(l) => Some((l, p)),
            None => None,
        },
        None => None,
    }
}

/// Maps extension type code points to the types they denote.
fn extension_types_from_codes(codes: &Vec<u16>) -> (res: Vec<ExtensionType>)
    ensures
        res@ == codes@.map_values(|c: u16| extension_type_from_code(c)),
{
    let mut v: Vec<ExtensionType> = Vec::new();
    let mut i: usize = 0;
    while i < codes.len()
        invariant
            i <= codes@.len(),
            v@ == codes@.take(i as int).map_values(|c: u16| extension_type_from_code(c)),
        decreases codes@.len() - i,
    {
        v.push(ExtensionType::from_code(codes[i]));
        i = i + 1;
        assert(v@ =~= codes@.take(i as int).map_values(|c: u16| extension_type_from_code(c)));
    }
    assert(codes@.take(i as int) =~= codes@);
    v
}

/// Reads capabilities at `pos`.
fn read_capabilities(input: &[u8], pos: usize) -> (res: Option<(Capabilities, usize)>)
    requires
        pos <= input@.len(),
    ensures
        match parse_capabilities(input@.skip(pos as int)) {
            Some((c, r)) => res matches Some((x, p)) && x@ == c && pos <= p <= input@.len() && input@.skip(p as int) == r,
            None => res is None,
        },
{
    let (versions, p1) = match read_u16_vector(input, pos) {
        Some(x) => x,
        None => return None,
    };
    let (ciphersuites, p2) = match read_u16_vector(input, p1) {
        Some(x) => x,
        None => return None,
    };
    let (codes, p3) = match read_u16_vector(input, p2) {
        Some(x) => x,
        None => return None,
    };
    let (proposals, p4) = match read_u16_vector(input, p3) {
        Some(x) => x,
        None => return None,
    };
    let (credentials, p5) = match read_u16_vector(input, p4) {
        Some(x) => x,
        None => return None,
    };
    let extensions = extension_types_from_codes(&codes);
    Some((Capabilities { versions, ciphersuites, extensions, proposals, credentials }, p5))
}

/// Reads a credential at `pos`.
fn read_credential(input: &[u8], pos: usize) -> (res: Option<(Credential, usize)>)
    requires
        pos <= input@.len(),
    ensures
        match parse_credential(input@.skip(pos as int)) {
            Some((c, r)) => res matches Some((x, p)) && x@ == c && pos <= p <= input@.len() && input@.skip(p as int) == r,
            None => res is None,
        },
{
    let (credential_type, p1) = match read_u16(input, pos) {
        Some(x) => x,
        None => return None,
    };
    let (serialized_content, p2) = match read_vl(input, p1) {
        Some(x) => x,
        None => return None,
    };
    Some((Credential { credential_type, serialized_content }, p2))
}

/// Reads a lifetime at `pos`.
fn read_lifetime(input: &[u8], pos: usize) -> (res: Option<(Lifetime, usize)>)
    requires
        pos <= input@.len(),
    ensures
        match parse_lifetime(input@.skip(pos as int)) {
            Some((l, r)) => res matches Some((x, p)) && x == l && pos <= p <= input@.len() && input@.skip(p as int) == r,
            None => res is None,
        },
{
    let (not_before, p1) = match read_u64(input, pos) {
        Some(x) => x,
        None => return None,
    };
    let (not_after, p2) = match read_u64(input, p1) {
        Some(x) => x,
        None => return None,
    };
    Some((Lifetime { not_before, not_after }, p2))
}

/// Reads a leaf node source at `pos`.
fn read_leaf_node_source(input: &[u8], pos: usize) -> (res: Option<(LeafNodeSource, usize)>)
    requires
        pos <= input@.len(),
    ensures
        match parse_leaf_node_source(input@.skip(pos as int)) {
            Some((s, r)) => res matches Some((x, p)) && x@ == s && pos <= p <= input@.len() && input@.skip(p as int) == r,
            None => res is None,
        },
{
    let ghost b = input@.skip(pos as int);
    if pos >= input.len() {
        return None;
    }
    let tag = input[pos];
    assert(b[0] == tag);
    assert(b.skip(1) =~= input@.skip(pos + 1));
    if tag == 1 {
        match read_lifetime(input, pos + 1) {
            Some((l, p)) => Some((LeafNodeSource::KeyPackage(l), p)),
            None => None,
        }
    } else if tag == 2 {
        Some((LeafNodeSource::Update, pos + 1))
    } else if tag == 3 {
        match read_vl(input, pos + 1) {
            Some((h, p)) => Some((LeafNodeSource::Commit(h), p)),
            None => None,
        }
    } else {
        None
    }
}

/// Reads a leaf node at `pos`.
fn read_leaf_node(input: &[u8], pos: usize) -> (res: Option<(LeafNode, usize)>)
    requires
        pos <= input@.len(),
    ensures
        match parse_leaf_node(input@.skip(pos as int)) {
            Some((l, r)) => res matches Some((x, p)) && x@ == l && pos <= p <= input@.len() && input@.skip(p as int) == r,
            None => res is None,
        },
{
    let (encryption_key, p1) = match read_vl(input, pos) {
        Some(x) => x,
        None => return None,
    };
    let (signature_key, p2) = match read_vl(input, p1) {
        Some(x) => x,
        None => return None,
    };
    let (credential, p3) = match read_credential(input, p2) {
        Some(x) => x,
        None => return None,
    };
    let (capabilities, p4) = match read_capabilities(input, p3) {
        Some(x) => x,
        None => return None,
    };
    let (leaf_node_source, p5) = match read_leaf_node_source(input, p4) {
        Some(x) => x,
        None => return None,
    };
    let (entries, p6) = match read_extension_vector(input, p5) {
        Some(x) => x,
        None => return None,
    };
    let (signature, p7) = match read_vl(input, p6) {
        Some(x) => x,
        None => return None,
    };
    let extensions = Extensions::from_vec_unchecked(entries);
    Some((LeafNode { encryption_key, signature_key, credential, capabilities, leaf_node_source, extensions, signature }, p7))
}

/// Reads a KeyPackageTBS at `pos`.
pub(crate) fn read_key_package_tbs(input: &[u8], pos: usize) -> (res: Option<(KeyPackageTbs, usize)>)
    requires
        pos <= input@.len(),
    ensures
        match parse_key_package_tbs(input@.skip(pos as int)) {
            Some((t, r)) => res matches Some((x, p)) && x@ == t && pos <= p <= input@.len() && input@.skip(p as int) == r,
            None => res is None,
        },
{
    let (protocol_version, p1) = match read_u16(input, pos) {
        Some(x) => x,
        None => return None,
    };
    let (cs, p2) = match read_u16(input, p1) {
        Some(x) => x,
        None => return None,
    };
    let ciphersuite = match Ciphersuite::from_code(cs) {
        Some(c) => c,
        None => return None,
    };
    let (init_key, p3) = match read_vl(input, p2) {
        Some(x) => x,
        None => return None,
    };
    let (leaf_node, p4) = match read_leaf_node(input, p3) {
        Some(x) => x,
        None => return None,
    };
    let (entries, p5) = match read_extension_vector(input, p4) {
        Some(x) => x,
        None => return None,
    };
    let extensions = Extensions::from_vec_unchecked(entries);
    Some((KeyPackageTbs { protocol_version, ciphersuite, init_key, leaf_node, extensions }, p5))
}

/// Reads a KeyPackage at `pos`.
pub(crate) fn read_key_package(input: &[u8], pos: usize) -> (res: Option<(KeyPackage, usize)>)
    requires
        pos <= input@.len(),
    ensures
        match parse_key_package(input@.skip(pos as int)) {
            Some((k, r)) => res matches Some((x, p)) && x@ == k && pos <= p <= input@.len() && input@.skip(p as int) == r,
            None => res is None,
        },
{
    let (payload, p1) = match read_key_package_tbs(input, pos) {
        Some(x) => x,
        None => return None,
    };
    let (signature, p2) = match read_vl(input, p1) {
        Some(x) => x,
        None => return None,
    };
    Some((KeyPackage { payload, signature }, p2))
}

} // verus!
