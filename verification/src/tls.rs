//! TLS presentation-language encoding of the MLS structures used here.
//!
//! Integers are big-endian; variable-length vectors carry the MLS
//! variable-length integer prefix (RFC 9420, Section 2.1.2) with a 30-bit
//! length limit, as `tls_codec` encodes them.

use vstd::prelude::*;

verus! {

/// The largest content length a variable-length vector may have.
pub const VL_MAX: usize = 0x3fff_ffff;

/// The MLS variable-length prefix of a content length of at most `VL_MAX`.
pub open spec fn vl_prefix(n: nat) -> Seq<u8> {
    if n <= 0x3f {
        seq![n as u8]
    } else if n <= 0x3fff {
        seq![(0x40 + n / 0x100) as u8, (n % 0x100) as u8]
    } else {
        seq![
            (0x80 + n / 0x100_0000) as u8,
            ((n / 0x1_0000) % 0x100) as u8,
            ((n / 0x100) % 0x100) as u8,
            (n % 0x100) as u8,
        ]
    }
}

/// A variable-length opaque vector: the length prefix followed by the content.
pub open spec fn vl(s: Seq<u8>) -> Seq<u8> {
    vl_prefix(s.len()) + s
}

/// The encoding of a variable-length vector, absent when the content is too long.
pub open spec fn vl_opt(s: Seq<u8>) -> Option<Seq<u8>> {
    if s.len() <= VL_MAX {
        Some(vl(s))
    } else {
        None
    }
}

/// `vl_opt` of an encoding that may itself be absent.
pub open spec fn opt_vl(s: Option<Seq<u8>>) -> Option<Seq<u8>> {
    match s {
        Some(x) => vl_opt(x),
        None => None,
    }
}

/// The concatenation of two encodings, absent when either is absent.
pub open spec fn opt_cat(a: Option<Seq<u8>>, b: Option<Seq<u8>>) -> Option<Seq<u8>> {
    match a {
        Some(x) => match b {
            Some(y) => Some(x + y),
            None => None,
        },
        None => None,
    }
}

/// A big-endian `u16`.
pub open spec fn u16_bytes(x: u16) -> Seq<u8> {
    seq![(x / 0x100) as u8, (x % 0x100) as u8]
}

/// A big-endian `u64`.
pub open spec fn u64_bytes(x: u64) -> Seq<u8> {
    seq![
        (x / 0x100_0000_0000_0000) as u8,
        ((x / 0x1_0000_0000_0000) % 0x100) as u8,
        ((x / 0x100_0000_0000) % 0x100) as u8,
        ((x / 0x1_0000_0000) % 0x100) as u8,
        ((x / 0x100_0000) % 0x100) as u8,
        ((x / 0x1_0000) % 0x100) as u8,
        ((x / 0x100) % 0x100) as u8,
        (x % 0x100) as u8,
    ]
}

/// The concatenated big-endian encodings of a list of `u16` values.
pub open spec fn u16_list_bytes(s: Seq<u16>) -> Seq<u8>
    decreases s.len(),
{
    if s.len() == 0 {
        Seq::empty()
    } else {
        u16_list_bytes(s.drop_last()) + u16_bytes(s.last())
    }
}

/// The encoding of a variable-length vector of `u16` values.
pub open spec fn u16_vector(s: Seq<u16>) -> Option<Seq<u8>> {
    vl_opt(u16_list_bytes(s))
}

/// The error type of `tls_codec`, carried opaquely.
#[verifier::external_type_specification]
#[verifier::external_body]
pub struct ExTlsCodecError(tls_codec::Error);

/// `tls_codec` encodes a variable-length byte vector.
///
/// Calls `<tls_codec::VLByteSlice as tls_codec::SerializeBytes>::tls_serialize_bytes`.
/// With the `mls` feature, the source returns an error exactly when the
/// length exceeds the 30-bit limit, and otherwise the minimal variable-length
/// prefix followed by the bytes; the contract states that.
#[verifier::external_body]
fn tls_codec_vl_bytes(data: &[u8]) -> (res: Result<Vec<u8>, tls_codec::Error>)
    ensures
        res is Ok <==> data@.len() <= VL_MAX,
        res matches Ok(v) ==> v@ == vl(data@),
{
    tls_codec::SerializeBytes::tls_serialize_bytes(&tls_codec::VLByteSlice(data))
}

/// Encodes a variable-length opaque vector; `None` when it is too long.
pub fn encode_vl(data: &[u8]) -> (res: Option<Vec<u8>>)
    ensures
        res is Some <==> vl_opt(data@) is Some,
        res matches Some(v) ==> vl_opt(data@) == Some(v@),
{
    match tls_codec_vl_bytes(data) {
        Ok(v) => Some(v),
        Err(_) => None,
    }
}

/// Encodes a big-endian `u16`.
pub fn encode_u16(x: u16) -> (res: Vec<u8>)
    ensures
        res@ == u16_bytes(x),
{
    let v = vec![(x / 0x100) as u8, (x % 0x100) as u8];
    assert(v@ =~= u16_bytes(x));
    v
}

/// Encodes a big-endian `u64`.
pub fn encode_u64(x: u64) -> (res: Vec<u8>)
    ensures
        res@ == u64_bytes(x),
{
    let v = vec![
        (x / 0x100_0000_0000_0000) as u8,
        ((x / 0x1_0000_0000_0000) % 0x100) as u8,
        ((x / 0x100_0000_0000) % 0x100) as u8,
        ((x / 0x1_0000_0000) % 0x100) as u8,
        ((x / 0x100_0000) % 0x100) as u8,
        ((x / 0x1_0000) % 0x100) as u8,
        ((x / 0x100) % 0x100) as u8,
        (x % 0x100) as u8,
    ];
    assert(v@ =~= u64_bytes(x));
    v
}

/// Appends `other` to `out`.
pub fn append_bytes(out: &mut Vec<u8>, other: &[u8])
    ensures
        final(out)@ == old(out)@ + other@,
{
    let mut i: usize = 0;
    while i < other.len()
        invariant
            i <= other@.len(),
            out@ == old(out)@ + other@.take(i as int),
        decreases other@.len() - i,
    {
        out.push(other[i]);
        i = i + 1;
        assert(other@.take(i as int) =~= other@.take((i - 1) as int).push(other@[i - 1]));
    }
    assert(other@.take(i as int) =~= other@);
}

/// Concatenates two encodings; `None` when either is absent.
pub fn concat_opt(a: Option<Vec<u8>>, b: Option<Vec<u8>>) -> (res: Option<Vec<u8>>)
    ensures
        res is Some <==> opt_cat(opt_view(a), opt_view(b)) is Some,
        res matches Some(v) ==> opt_cat(opt_view(a), opt_view(b)) == Some(v@),
{
    match a {
        Some(mut x) => match b {
            Some(y) => {
                append_bytes(&mut x, y.as_slice());
                Some(x)
            },
            None => None,
        },
        None => None,
    }
}

/// The byte sequence of an optional byte vector.
pub open spec fn opt_view(a: Option<Vec<u8>>) -> Option<Seq<u8>> {
    match a {
        Some(v) => Some(v@),
        None => None,
    }
}

/// Encodes a variable-length vector of `u16` values; `None` when too long.
pub fn encode_u16_vector(values: &[u16]) -> (res: Option<Vec<u8>>)
    ensures
        res is Some <==> u16_vector(values@) is Some,
        res matches Some(v) ==> u16_vector(values@) == Some(v@),
{
    let mut content: Vec<u8> = Vec::new();
    let mut i: usize = 0;
    while i < values.len()
        invariant
            i <= values@.len(),
            content@ == u16_list_bytes(values@.take(i as int)),
        decreases values@.len() - i,
    {
        let b = encode_u16(values[i]);
        append_bytes(&mut content, b.as_slice());
        i = i + 1;
        assert(values@.take(i as int).drop_last() =~= values@.take((i - 1) as int));
    }
    assert(values@.take(i as int) =~= values@);
    encode_vl(content.as_slice())
}

} // verus!
