//! TLS decoding of the encodings in [`crate::tls`], with the proof that
//! decoding inverts encoding.

use vstd::prelude::*;

use crate::extension_type::{
    extension_type_code, extension_type_from_code, is_canonical_extension_type, ExtensionType,
};
use crate::extensions::{extension_bytes, extension_list_content, extension_vector, SpecExtension};
use crate::tls::{opt_cat, opt_vl, u16_bytes, u16_list_bytes, u16_vector, u64_bytes, vl, vl_opt, vl_prefix, VL_MAX};

verus! {

/// Decodes an MLS variable-length integer of at most 30 bits, in its
/// minimal encoding, returning the value and the remaining bytes.
pub open spec fn parse_varint(b: Seq<u8>) -> Option<(nat, Seq<u8>)> {
    if b.len() == 0 {
        None
    } else {
        let tag = b[0] / 64;
        let hi = (b[0] % 64) as nat;
        if tag == 0 {
            Some((hi, b.skip(1)))
        } else if tag == 1 {
            if b.len() < 2 {
                None
            } else {
                let v = hi * 0x100 + b[1] as nat;
                if v <= 0x3f {
                    None
                } else {
                    Some((v, b.skip(2)))
                }
            }
        } else if tag == 2 {
            if b.len() < 4 {
                None
            } else {
                let v = hi * 0x100_0000 + b[1] as nat * 0x1_0000 + b[2] as nat * 0x100 + b[3] as nat;
                if v <= 0x3fff {
                    None
                } else {
                    Some((v, b.skip(4)))
                }
            }
        } else {
            None
        }
    }
}

/// Decodes a variable-length opaque vector, returning its content and the
/// remaining bytes.
#[verifier::opaque]
pub open spec fn parse_vl(b: Seq<u8>) -> Option<(Seq<u8>, Seq<u8>)> {
    match parse_varint(b) {
        Some((n, r)) => if n <= r.len() {
            Some((r.take(n as int), r.skip(n as int)))
        } else {
            None
        },
        None => None,
    }
}

/// Decodes a big-endian `u16`.
#[verifier::opaque]
pub open spec fn parse_u16(b: Seq<u8>) -> Option<(u16, Seq<u8>)> {
    if b.len() < 2 {
        None
    } else {
        Some(((b[0] as nat * 0x100 + b[1] as nat) as u16, b.skip(2)))
    }
}

/// The value of eight big-endian bytes.
pub open spec fn u64_value(b: Seq<u8>) -> nat {
    ((((((b[0] as nat * 0x100 + b[1] as nat) * 0x100 + b[2] as nat) * 0x100 + b[3] as nat) * 0x100
        + b[4] as nat) * 0x100 + b[5] as nat) * 0x100 + b[6] as nat) * 0x100 + b[7] as nat
}

/// Decodes a big-endian `u64`.
#[verifier::opaque]
pub open spec fn parse_u64(b: Seq<u8>) -> Option<(u64, Seq<u8>)> {
    if b.len() < 8 {
        None
    } else {
        Some((u64_value(b) as u64, b.skip(8)))
    }
}

/// Decodes a whole sequence of big-endian `u16` values.
pub open spec fn parse_u16_list(c: Seq<u8>) -> Option<Seq<u16>>
    decreases c.len(),
{
    if c.len() == 0 {
        Some(Seq::empty())
    } else if c.len() < 2 {
        None
    } else {
        match parse_u16_list(c.skip(2)) {
            Some(l) => Some(seq![(c[0] as nat * 0x100 + c[1] as nat) as u16] + l),
            None => None,
        }
    }
}

/// Decodes a variable-length vector of `u16` values.
#[verifier::opaque]
pub open spec fn parse_u16_vector(b: Seq<u8>) -> Option<(Seq<u16>, Seq<u8>)> {
    match parse_vl(b) {
        Some((c, r)) => match parse_u16_list(c) {
            Some(l) => Some((l, r)),
            None => None,
        },
        None => None,
    }
}

/// Decoding a variable-length prefix followed by anything gives the length back.
pub proof fn lemma_parse_varint_roundtrip(n: nat, rest: Seq<u8>)
    requires
        n <= VL_MAX,
    ensures
        parse_varint(vl_prefix(n) + rest) == Some((n, rest)),
{
    reveal(parse_vl);
    reveal(parse_u16);
    reveal(parse_u64);
    reveal(parse_u16_vector);
    reveal(parse_extension_vector);
    let b = vl_prefix(n) + rest;
    if n <= 0x3f {
        assert(b.skip(1) =~= rest);
    } else if n <= 0x3fff {
        assert(b[0] == (0x40 + n / 0x100) as u8);
        assert(b[0] / 64 == 1);
        assert(b[0] % 64 == n / 0x100);
        assert(b.skip(2) =~= rest);
    } else {
        assert(b[0] / 64 == 2);
        assert(b[0] % 64 == n / 0x100_0000);
        assert(n == (n / 0x100_0000) * 0x100_0000 + ((n / 0x1_0000) % 0x100) * 0x1_0000 + ((n / 0x100) % 0x100) * 0x100 + n % 0x100)
            by (nonlinear_arith);
        assert(b.skip(4) =~= rest);
    }
}

/// What decodes as a variable-length integer is its minimal prefix followed
/// by the remaining bytes.
pub proof fn lemma_parse_varint_sound(b: Seq<u8>)
    requires
        parse_varint(b) is Some,
    ensures
        parse_varint(b).unwrap().0 <= VL_MAX,
        vl_prefix(parse_varint(b).unwrap().0) + parse_varint(b).unwrap().1 == b,
{
    reveal(parse_vl);
    reveal(parse_u16);
    reveal(parse_u64);
    reveal(parse_u16_vector);
    reveal(parse_extension_vector);
    let (n, r) = parse_varint(b).unwrap();
    let hi = (b[0] % 64) as nat;
    if b[0] / 64 == 0 {
        assert(vl_prefix(n) + r =~= b);
    } else if b[0] / 64 == 1 {
        assert(n / 0x100 == hi && n % 0x100 == b[1]) by (nonlinear_arith)
            requires n == hi * 0x100 + b[1] as nat, b[1] < 0x100;
        assert(vl_prefix(n) + r =~= b);
    } else {
        let b1 = b[1] as nat;
        let b2 = b[2] as nat;
        let b3 = b[3] as nat;
        assert(n / 0x100_0000 == hi && (n / 0x1_0000) % 0x100 == b1 && (n / 0x100) % 0x100 == b2 && n % 0x100 == b3)
            by (nonlinear_arith)
            requires n == hi * 0x100_0000 + b1 * 0x1_0000 + b2 * 0x100 + b3, b1 < 0x100, b2 < 0x100, b3 < 0x100;
        assert(n < 0x4000_0000) by (nonlinear_arith)
            requires n == hi * 0x100_0000 + b1 * 0x1_0000 + b2 * 0x100 + b3, hi < 64, b1 < 0x100, b2 < 0x100, b3 < 0x100;
        assert(vl_prefix(n) + r =~= b);
    }
}

/// Decoding a variable-length vector followed by anything gives it back.
pub proof fn lemma_parse_vl_roundtrip(s: Seq<u8>, rest: Seq<u8>)
    requires
        s.len() <= VL_MAX,
    ensures
        parse_vl(vl(s) + rest) == Some((s, rest)),
{
    reveal(parse_vl);
    reveal(parse_u16);
    reveal(parse_u64);
    reveal(parse_u16_vector);
    reveal(parse_extension_vector);
    lemma_parse_varint_roundtrip(s.len(), s + rest);
    assert(vl(s) + rest =~= vl_prefix(s.len()) + (s + rest));
    assert((s + rest).take(s.len() as int) =~= s);
    assert((s + rest).skip(s.len() as int) =~= rest);
}

/// What decodes as a variable-length vector is its encoding followed by the
/// remaining bytes.
pub proof fn lemma_parse_vl_sound(b: Seq<u8>)
    requires
        parse_vl(b) is Some,
    ensures
        parse_vl(b).unwrap().0.len() <= VL_MAX,
        vl(parse_vl(b).unwrap().0) + parse_vl(b).unwrap().1 == b,
{
    reveal(parse_vl);
    reveal(parse_u16);
    reveal(parse_u64);
    reveal(parse_u16_vector);
    reveal(parse_extension_vector);
    lemma_parse_varint_sound(b);
    let (n, r) = parse_varint(b).unwrap();
    let (c, r2) = parse_vl(b).unwrap();
    assert(c + r2 =~= r);
    assert(vl(c) + r2 =~= vl_prefix(n) + r);
}

/// Decoding a `u16` encoding followed by anything gives it back.
pub proof fn lemma_parse_u16_roundtrip(x: u16, rest: Seq<u8>)
    ensures
        parse_u16(u16_bytes(x) + rest) == Some((x, rest)),
{
    reveal(parse_vl);
    reveal(parse_u16);
    reveal(parse_u64);
    reveal(parse_u16_vector);
    reveal(parse_extension_vector);
    assert((u16_bytes(x) + rest).skip(2) =~= rest);
}

/// What decodes as a `u16` is its encoding followed by the remaining bytes.
pub proof fn lemma_parse_u16_sound(b: Seq<u8>)
    requires
        parse_u16(b) is Some,
    ensures
        u16_bytes(parse_u16(b).unwrap().0) + parse_u16(b).unwrap().1 == b,
{
    reveal(parse_vl);
    reveal(parse_u16);
    reveal(parse_u64);
    reveal(parse_u16_vector);
    reveal(parse_extension_vector);
    let x = parse_u16(b).unwrap().0;
    assert(x / 0x100 == b[0] && x % 0x100 == b[1]) by (nonlinear_arith)
        requires x == b[0] as nat * 0x100 + b[1] as nat, b[0] < 0x100, b[1] < 0x100;
    assert(u16_bytes(x) + b.skip(2) =~= b);
}

/// Decoding a `u64` encoding followed by anything gives it back.
pub proof fn lemma_parse_u64_roundtrip(x: u64, rest: Seq<u8>)
    ensures
        parse_u64(u64_bytes(x) + rest) == Some((x, rest)),
{
    reveal(parse_vl);
    reveal(parse_u16);
    reveal(parse_u64);
    reveal(parse_u16_vector);
    reveal(parse_extension_vector);
    let b = u64_bytes(x) + rest;
    assert(b.skip(8) =~= rest);
    let x0 = x as int;
    let q1 = x0 / 0x100;
    let q2 = q1 / 0x100;
    let q3 = q2 / 0x100;
    let q4 = q3 / 0x100;
    let q5 = q4 / 0x100;
    let q6 = q5 / 0x100;
    let q7 = q6 / 0x100;
    vstd::arithmetic::div_mod::lemma_div_denominator(x0, 0x100, 0x100);
    vstd::arithmetic::div_mod::lemma_div_denominator(x0, 0x1_0000, 0x100);
    vstd::arithmetic::div_mod::lemma_div_denominator(x0, 0x100_0000, 0x100);
    vstd::arithmetic::div_mod::lemma_div_denominator(x0, 0x1_0000_0000, 0x100);
    vstd::arithmetic::div_mod::lemma_div_denominator(x0, 0x100_0000_0000, 0x100);
    vstd::arithmetic::div_mod::lemma_div_denominator(x0, 0x1_0000_0000_0000, 0x100);
    assert(x0 / 0x1_0000 == q2);
    assert(x0 / 0x100_0000 == q3);
    assert(x0 / 0x1_0000_0000 == q4);
    assert(x0 / 0x100_0000_0000 == q5);
    assert(x0 / 0x1_0000_0000_0000 == q6);
    assert(x0 / 0x100_0000_0000_0000 == q7);
    assert(b[0] as int == q7);
    assert(b[1] as int == q6 % 0x100);
    assert(b[2] as int == q5 % 0x100);
    assert(b[3] as int == q4 % 0x100);
    assert(b[4] as int == q3 % 0x100);
    assert(b[5] as int == q2 % 0x100);
    assert(b[6] as int == q1 % 0x100);
    assert(b[7] as int == x0 % 0x100);
    assert(u64_value(b) == x0);
}

/// The encoding of a list starting with `x` starts with `x`'s encoding.
pub proof fn lemma_u16_list_bytes_cons(x: u16, l: Seq<u16>)
    ensures
        u16_list_bytes(seq![x] + l) == u16_bytes(x) + u16_list_bytes(l),
    decreases l.len(),
{
    reveal(parse_vl);
    reveal(parse_u16);
    reveal(parse_u64);
    reveal(parse_u16_vector);
    reveal(parse_extension_vector);
    if l.len() == 0 {
        assert(seq![x] + l =~= seq![x]);
        assert(seq![x].drop_last() =~= Seq::<u16>::empty());
        assert(u16_list_bytes(Seq::<u16>::empty()) == Seq::<u8>::empty());
        assert(u16_list_bytes(seq![x]) == u16_list_bytes(Seq::<u16>::empty()) + u16_bytes(x));
        assert(u16_list_bytes(seq![x]) =~= u16_bytes(x));
        assert(u16_bytes(x) + u16_list_bytes(l) =~= u16_bytes(x));
    } else {
        lemma_u16_list_bytes_cons(x, l.drop_last());
        assert((seq![x] + l).drop_last() =~= seq![x] + l.drop_last());
        assert((seq![x] + l).last() == l.last());
        assert(u16_bytes(x) + u16_list_bytes(l.drop_last()) + u16_bytes(l.last()) =~= u16_bytes(x) + (u16_list_bytes(l.drop_last()) + u16_bytes(l.last())));
    }
}

/// Decoding the encoding of a list of `u16` values gives the list back.
pub proof fn lemma_parse_u16_list_roundtrip(l: Seq<u16>)
    ensures
        parse_u16_list(u16_list_bytes(l)) == Some(l),
    decreases l.len(),
{
    reveal(parse_vl);
    reveal(parse_u16);
    reveal(parse_u64);
    reveal(parse_u16_vector);
    reveal(parse_extension_vector);
    if l.len() > 0 {
        let x = l[0];
        let t = l.skip(1);
        assert(l =~= seq![x] + t);
        lemma_u16_list_bytes_cons(x, t);
        lemma_parse_u16_list_roundtrip(t);
        let c = u16_list_bytes(l);
        assert(c.skip(2) =~= u16_list_bytes(t));
        lemma_parse_u16_roundtrip(x, u16_list_bytes(t));
        assert(seq![(c[0] as nat * 0x100 + c[1] as nat) as u16] + t =~= l);
    } else {
        assert(u16_list_bytes(l) =~= Seq::<u8>::empty());
    }
}

/// What decodes as a list of `u16` values is the encoding of that list.
pub proof fn lemma_parse_u16_list_sound(c: Seq<u8>)
    requires
        parse_u16_list(c) is Some,
    ensures
        u16_list_bytes(parse_u16_list(c).unwrap()) == c,
    decreases c.len(),
{
    reveal(parse_vl);
    reveal(parse_u16);
    reveal(parse_u64);
    reveal(parse_u16_vector);
    reveal(parse_extension_vector);
    if c.len() > 0 {
        lemma_parse_u16_list_sound(c.skip(2));
        let l = parse_u16_list(c.skip(2)).unwrap();
        let x = (c[0] as nat * 0x100 + c[1] as nat) as u16;
        lemma_u16_list_bytes_cons(x, l);
        lemma_parse_u16_sound(c);
    } else {
        assert(u16_list_bytes(Seq::<u16>::empty()) =~= c);
    }
}

/// Decoding a `u16` vector followed by anything gives it back.
pub proof fn lemma_parse_u16_vector_roundtrip(l: Seq<u16>, rest: Seq<u8>)
    requires
        u16_vector(l) is Some,
    ensures
        parse_u16_vector(u16_vector(l).unwrap() + rest) == Some((l, rest)),
{
    reveal(parse_vl);
    reveal(parse_u16);
    reveal(parse_u64);
    reveal(parse_u16_vector);
    reveal(parse_extension_vector);
    lemma_parse_vl_roundtrip(u16_list_bytes(l), rest);
    lemma_parse_u16_list_roundtrip(l);
}

/// What decodes as a `u16` vector is its encoding followed by the remaining bytes.
pub proof fn lemma_parse_u16_vector_sound(b: Seq<u8>)
    requires
        parse_u16_vector(b) is Some,
    ensures
        u16_vector(parse_u16_vector(b).unwrap().0) is Some,
        u16_vector(parse_u16_vector(b).unwrap().0).unwrap() + parse_u16_vector(b).unwrap().1 == b,
{
    reveal(parse_vl);
    reveal(parse_u16);
    reveal(parse_u64);
    reveal(parse_u16_vector);
    reveal(parse_extension_vector);
    lemma_parse_vl_sound(b);
    let (c, r) = parse_vl(b).unwrap();
    lemma_parse_u16_list_sound(c);
}

/// Decodes one extension; its type is the one its code point denotes.
pub open spec fn parse_extension(b: Seq<u8>) -> Option<(SpecExtension, Seq<u8>)> {
    match parse_u16(b) {
        Some((code, r)) => match parse_vl(r) {
            Some((data, r2)) => Some((SpecExtension { extension_type: extension_type_from_code(code), data }, r2)),
            None => None,
        },
        None => None,
    }
}

/// Decodes a whole sequence of extensions.
pub open spec fn parse_extension_list(c: Seq<u8>) -> Option<Seq<SpecExtension>>
    decreases c.len(),
{
    if c.len() == 0 {
        Some(Seq::empty())
    } else {
        match parse_extension(c) {
            Some((e, r)) => if r.len() < c.len() {
                match parse_extension_list(r) {
                    Some(l) => Some(seq![e] + l),
                    None => None,
                }
            } else {
                None
            },
            None => None,
        }
    }
}

/// Decodes an extension vector.
#[verifier::opaque]
pub open spec fn parse_extension_vector(b: Seq<u8>) -> Option<(Seq<SpecExtension>, Seq<u8>)> {
    match parse_vl(b) {
        Some((c, r)) => match parse_extension_list(c) {
            Some(l) => Some((l, r)),
            None => None,
        },
        None => None,
    }
}

/// Every entry's type is canonical.
pub open spec fn extensions_canonical(s: Seq<SpecExtension>) -> bool {
    forall|i: int| 0 <= i < s.len() ==> is_canonical_extension_type(#[trigger] s[i].extension_type)
}

/// Decoding an extension's encoding followed by anything gives it back when
/// its type is canonical.
pub proof fn lemma_parse_extension_roundtrip(e: SpecExtension, rest: Seq<u8>)
    requires
        extension_bytes(e) is Some,
        is_canonical_extension_type(e.extension_type),
    ensures
        parse_extension(extension_bytes(e).unwrap() + rest) == Some((e, rest)),
{
    reveal(parse_vl);
    reveal(parse_u16);
    reveal(parse_u64);
    reveal(parse_u16_vector);
    reveal(parse_extension_vector);
    let code = extension_type_code(e.extension_type);
    lemma_parse_u16_roundtrip(code, vl(e.data) + rest);
    assert(extension_bytes(e).unwrap() + rest =~= u16_bytes(code) + (vl(e.data) + rest));
    lemma_parse_vl_roundtrip(e.data, rest);
}

/// What decodes as an extension is its encoding followed by the remaining
/// bytes, and its type is canonical.
pub proof fn lemma_parse_extension_sound(b: Seq<u8>)
    requires
        parse_extension(b) is Some,
    ensures
        extension_bytes(parse_extension(b).unwrap().0) is Some,
        extension_bytes(parse_extension(b).unwrap().0).unwrap() + parse_extension(b).unwrap().1 == b,
        is_canonical_extension_type(parse_extension(b).unwrap().0.extension_type),
        parse_extension(b).unwrap().1.len() < b.len(),
{
    reveal(parse_vl);
    reveal(parse_u16);
    reveal(parse_u64);
    reveal(parse_u16_vector);
    reveal(parse_extension_vector);
    lemma_parse_u16_sound(b);
    let (code, r) = parse_u16(b).unwrap();
    lemma_parse_vl_sound(r);
    let (e, r2) = parse_extension(b).unwrap();
    assert(extension_type_code(extension_type_from_code(code)) == code);
    assert(extension_bytes(e).unwrap() + r2 =~= u16_bytes(code) + (vl(e.data) + r2));
}

/// The encoding of a list starting with `e` starts with `e`'s encoding.
pub proof fn lemma_extension_list_content_cons(e: SpecExtension, l: Seq<SpecExtension>)
    ensures
        extension_list_content(seq![e] + l) == opt_cat(extension_bytes(e), extension_list_content(l)),
    decreases l.len(),
{
    reveal(parse_vl);
    reveal(parse_u16);
    reveal(parse_u64);
    reveal(parse_u16_vector);
    reveal(parse_extension_vector);
    if l.len() == 0 {
        assert(seq![e] + l =~= seq![e]);
        assert(seq![e].drop_last() =~= Seq::<SpecExtension>::empty());
        assert(extension_list_content(Seq::<SpecExtension>::empty()) == Some(Seq::<u8>::empty()));
        assert(extension_list_content(seq![e]) == opt_cat(extension_list_content(Seq::<SpecExtension>::empty()), extension_bytes(e)));
        if extension_bytes(e) is Some {
            assert(extension_bytes(e).unwrap() + Seq::<u8>::empty() =~= extension_bytes(e).unwrap());
            assert(Seq::<u8>::empty() + extension_bytes(e).unwrap() =~= extension_bytes(e).unwrap());
        }
    } else {
        lemma_extension_list_content_cons(e, l.drop_last());
        assert((seq![e] + l).drop_last() =~= seq![e] + l.drop_last());
        assert((seq![e] + l).last() == l.last());
        if extension_bytes(e) is Some && extension_list_content(l.drop_last()) is Some && extension_bytes(l.last()) is Some {
            let a = extension_bytes(e).unwrap();
            let m = extension_list_content(l.drop_last()).unwrap();
            let z = extension_bytes(l.last()).unwrap();
            assert(a + m + z =~= a + (m + z));
        }
    }
}

/// Decoding the encoded entries of a list of canonical extensions gives the list back.
pub proof fn lemma_parse_extension_list_roundtrip(l: Seq<SpecExtension>)
    requires
        extension_list_content(l) is Some,
        extensions_canonical(l),
    ensures
        parse_extension_list(extension_list_content(l).unwrap()) == Some(l),
    decreases l.len(),
{
    reveal(parse_vl);
    reveal(parse_u16);
    reveal(parse_u64);
    reveal(parse_u16_vector);
    reveal(parse_extension_vector);
    if l.len() > 0 {
        let e = l[0];
        let t = l.skip(1);
        assert(l =~= seq![e] + t);
        lemma_extension_list_content_cons(e, t);
        assert(extensions_canonical(t)) by {
            assert forall|i: int| 0 <= i < t.len() implies is_canonical_extension_type(#[trigger] t[i].extension_type) by {
                assert(t[i] == l[i + 1]);
            }
        }
        assert(is_canonical_extension_type(l[0].extension_type));
        lemma_parse_extension_list_roundtrip(t);
        let c = extension_list_content(l).unwrap();
        lemma_parse_extension_roundtrip(e, extension_list_content(t).unwrap());
        assert(c == extension_bytes(e).unwrap() + extension_list_content(t).unwrap());
        assert(extension_bytes(e).unwrap().len() > 0);
    } else {
        assert(extension_list_content(l).unwrap() =~= Seq::<u8>::empty());
    }
}

/// What decodes as a list of extensions is its encoding, and every entry's
/// type is canonical.
pub proof fn lemma_parse_extension_list_sound(c: Seq<u8>)
    requires
        parse_extension_list(c) is Some,
    ensures
        extension_list_content(parse_extension_list(c).unwrap()) == Some(c),
        extensions_canonical(parse_extension_list(c).unwrap()),
    decreases c.len(),
{
    reveal(parse_vl);
    reveal(parse_u16);
    reveal(parse_u64);
    reveal(parse_u16_vector);
    reveal(parse_extension_vector);
    if c.len() > 0 {
        lemma_parse_extension_sound(c);
        let (e, r) = parse_extension(c).unwrap();
        lemma_parse_extension_list_sound(r);
        let l = parse_extension_list(r).unwrap();
        lemma_extension_list_content_cons(e, l);
        let all = seq![e] + l;
        assert forall|i: int| 0 <= i < all.len() implies is_canonical_extension_type(#[trigger] all[i].extension_type) by {
            if i > 0 {
                assert(all[i] == l[i - 1]);
            }
        }
    } else {
        assert(extension_list_content(Seq::<SpecExtension>::empty()) == Some(Seq::<u8>::empty()));
        assert(c =~= Seq::<u8>::empty());
    }
}

/// Decoding an extension vector of canonical extensions followed by anything gives it back.
pub proof fn lemma_parse_extension_vector_roundtrip(l: Seq<SpecExtension>, rest: Seq<u8>)
    requires
        extension_vector(l) is Some,
        extensions_canonical(l),
    ensures
        parse_extension_vector(extension_vector(l).unwrap() + rest) == Some((l, rest)),
{
    reveal(parse_vl);
    reveal(parse_u16);
    reveal(parse_u64);
    reveal(parse_u16_vector);
    reveal(parse_extension_vector);
    lemma_parse_vl_roundtrip(extension_list_content(l).unwrap(), rest);
    lemma_parse_extension_list_roundtrip(l);
}

/// What decodes as an extension vector is its encoding followed by the
/// remaining bytes, with canonical entries.
pub proof fn lemma_parse_extension_vector_sound(b: Seq<u8>)
    requires
        parse_extension_vector(b) is Some,
    ensures
        extension_vector(parse_extension_vector(b).unwrap().0) is Some,
        extension_vector(parse_extension_vector(b).unwrap().0).unwrap() + parse_extension_vector(b).unwrap().1 == b,
        extensions_canonical(parse_extension_vector(b).unwrap().0),
{
    reveal(parse_vl);
    reveal(parse_u16);
    reveal(parse_u64);
    reveal(parse_u16_vector);
    reveal(parse_extension_vector);
    lemma_parse_vl_sound(b);
    let (c, r) = parse_vl(b).unwrap();
    lemma_parse_extension_list_sound(c);
}

} // verus!
