//! Properties of the library as a whole, over the values its operations'
//! contracts speak of.

use vstd::prelude::*;

use crate::builder::{
    effective_capabilities, effective_key_package_extensions, effective_leaf_extensions, fresh_tbs,
    leaf_signature_valid, KeyPackageBuilder,
};
use crate::ciphersuite::Ciphersuite;
use crate::leaf_node::CredentialWithKey;
use crate::errors::{KeyPackageStagingError, StagedExtensionLocation};
use crate::extension_type::{extension_type_code, extension_type_from_code, is_canonical_extension_type, ExtensionType};
use crate::extensions::{extension_vector, extension_list_content, first_index_of_type, lemma_first_index_of_type, remove_first_of_type};
use crate::leaf_node::{capabilities_bytes, leaf_node_bytes, leaf_node_tbs_bytes, SpecCapabilities, SpecLeafNode};
use crate::key_package::tbs_with_extensions;
use crate::extensions::{valid_at, SpecExtension};
use crate::key_package::{
    is_binding_code, key_package_hash_ref, recomputed_binding_bytes, SpecKeyPackage,
    SpecKeyPackageTbs,
};
use crate::staged::{
    binding_extension, lemma_binding_recomputes_canonical_bytes, prepared_invariant, with_binding,
    SpecPreparedKeyPackage,
};
use crate::staging::{
    earlier_has_code, entry_error, has_code, list_error, list_error_upto, requires_advertisement,
    staged_validation,
};
use crate::storage::{lemma_storage_index, lemma_storage_index_is, lemma_storage_read_after_write, storage_index, storage_lookup, storage_write, SpecStoredBundle};
use crate::errors::DecodeError;
use crate::codec::extensions_canonical;
use crate::extensions::extension_list_error;
use crate::structure_codec::capabilities_canonical;
use crate::builder::key_package_signature_valid;
use crate::ciphersuite::MLS10;
use crate::extension_type::{valid_in_key_package, valid_in_leaf_node};
use crate::builder::default_lifetime_at;
use crate::leaf_node::SpecLeafNodeSource;
use crate::key_package_in::{
    first_not_valid_in_key_package, leaf_signature_verifies, supports_extension, validation_error,
};
use crate::key_package::{key_package_bytes, key_package_tbs_bytes};
use crate::key_package_in::{decode_key_package, decode_key_package_tbs, extension_lists_valid};
use crate::structure_codec::{
    key_package_tbs_canonical, lemma_parse_key_package_roundtrip, lemma_parse_key_package_sound,
    lemma_parse_key_package_tbs_roundtrip,
    parse_key_package,
};

verus! {

/// Whether a retained extension list at `location` passes every staged
/// check: each entry is canonical, valid at the location and advertised when
/// it must be, and no two entries share a numeric code point.
pub open spec fn list_acceptable(location: StagedExtensionLocation, s: Seq<SpecExtension>, advertised: Seq<ExtensionType>) -> bool {
    &&& forall|i: int| 0 <= i < s.len() ==> {
        &&& is_canonical_extension_type(#[trigger] s[i].extension_type)
        &&& valid_at(location, s[i].extension_type)
        &&& (requires_advertisement(location, s[i].extension_type) ==> advertised.contains(s[i].extension_type))
    }
    &&& forall|i: int, j: int| 0 <= i < j < s.len()
        ==> extension_type_code(#[trigger] s[i].extension_type) != extension_type_code(#[trigger] s[j].extension_type)
}

proof fn lemma_list_error_upto_none(location: StagedExtensionLocation, s: Seq<SpecExtension>, advertised: Seq<ExtensionType>, k: int)
    requires
        0 <= k <= s.len(),
    ensures
        list_error_upto(location, s, advertised, k) is None <==> list_acceptable(location, s.take(k), advertised),
    decreases k,
{
    if k > 0 {
        lemma_list_error_upto_none(location, s, advertised, k - 1);
        let p = s.take(k);
        let q = s.take(k - 1);
        assert(p.drop_last() =~= q);
        let t = s[k - 1].extension_type;
        if list_error_upto(location, s, advertised, k) is None {
            assert(list_acceptable(location, q, advertised));
            assert(entry_error(location, s, k - 1, advertised) is None);
            assert forall|i: int, j: int| 0 <= i < j < p.len() implies
                extension_type_code(#[trigger] p[i].extension_type) != extension_type_code(#[trigger] p[j].extension_type) by {
                if j == k - 1 {
                    assert(p[i] == s[i]);
                    if extension_type_code(s[i].extension_type) == extension_type_code(t) {
                        assert(earlier_has_code(s, k - 1, extension_type_code(t)));
                    }
                } else {
                    assert(p[i] == q[i] && p[j] == q[j]);
                }
            }
            assert forall|i: int| 0 <= i < p.len() implies {
                &&& is_canonical_extension_type(#[trigger] p[i].extension_type)
                &&& valid_at(location, p[i].extension_type)
                &&& (requires_advertisement(location, p[i].extension_type) ==> advertised.contains(p[i].extension_type))
            } by {
                if i < k - 1 {
                    assert(p[i] == q[i]);
                }
            }
        } else {
            if list_acceptable(location, p, advertised) {
                assert forall|i: int| 0 <= i < q.len() implies {
                    &&& is_canonical_extension_type(#[trigger] q[i].extension_type)
                    &&& valid_at(location, q[i].extension_type)
                    &&& (requires_advertisement(location, q[i].extension_type) ==> advertised.contains(q[i].extension_type))
                } by {
                    assert(p[i] == q[i]);
                }
                assert forall|i: int, j: int| 0 <= i < j < q.len() implies
                    extension_type_code(#[trigger] q[i].extension_type) != extension_type_code(#[trigger] q[j].extension_type) by {
                    assert(p[i] == q[i] && p[j] == q[j]);
                }
                assert(list_error_upto(location, s, advertised, k - 1) is None);
                assert(p[k - 1] == s[k - 1]);
                if earlier_has_code(s, k - 1, extension_type_code(t)) {
                    let j = choose|j: int| 0 <= j < k - 1 && #[trigger] extension_type_code(s[j].extension_type) == extension_type_code(t);
                    assert(p[j] == s[j]);
                }
                assert(false);
            }
        }
    } else {
        assert(s.take(k) =~= Seq::<SpecExtension>::empty());
    }
}

/// A retained extension list passes the staged scan exactly when every entry
/// is canonical, valid at its location, advertised where required, and the
/// numeric code points are pairwise distinct.
pub proof fn law_list_scan_accepts_exactly_acceptable_lists(
    location: StagedExtensionLocation,
    s: Seq<SpecExtension>,
    advertised: Seq<ExtensionType>,
)
    ensures
        list_error(location, s, advertised) is None <==> list_acceptable(location, s, advertised),
{
    lemma_list_error_upto_none(location, s, advertised, s.len() as int);
    assert(s.take(s.len() as int) =~= s);
}

/// The staged validation passes exactly when the binding code point
/// designates an unknown extension that no top-level extension has and that
/// the leaf advertises, and both retained lists are acceptable.
pub proof fn law_staged_validation_accepts_exactly(
    code: u16,
    key_package_extensions: Seq<SpecExtension>,
    leaf_extensions: Seq<SpecExtension>,
    advertised: Seq<ExtensionType>,
)
    ensures
        staged_validation(code, key_package_extensions, leaf_extensions, advertised) is None <==> {
            &&& is_binding_code(code)
            &&& !has_code(key_package_extensions, code)
            &&& list_acceptable(StagedExtensionLocation::KeyPackage, key_package_extensions, advertised)
            &&& list_acceptable(StagedExtensionLocation::LeafNode, leaf_extensions, advertised)
            &&& advertised.contains(ExtensionType::Unknown(code))
        },
{
    law_list_scan_accepts_exactly_acceptable_lists(StagedExtensionLocation::KeyPackage, key_package_extensions, advertised);
    law_list_scan_accepts_exactly_acceptable_lists(StagedExtensionLocation::LeafNode, leaf_extensions, advertised);
}

/// For every prepared KeyPackage and every non-empty binding, the verifier's
/// recomputation on the bound KeyPackageTBS, for the same code point, gives
/// back exactly the prepared canonical binding bytes.
pub proof fn law_verifier_recomputes_prepared_bytes(prepared: SpecPreparedKeyPackage, binding: Seq<u8>)
    requires
        prepared_invariant(prepared),
        binding.len() > 0,
    ensures
        recomputed_binding_bytes(
            with_binding(prepared.tbs, prepared.binding_extension_type, binding),
            prepared.binding_extension_type,
        ) == Ok::<Seq<u8>, KeyPackageStagingError>(prepared.canonical_bytes),
{
    lemma_binding_recomputes_canonical_bytes(prepared.tbs, prepared.binding_extension_type, binding);
}

/// Inserting a binding changes no field of the KeyPackageTBS but the
/// top-level extension list, in which it keeps every entry in place and
/// appends exactly the designated extension; the leaf, and hence the
/// validity of its signature, is untouched.
pub proof fn law_binding_only_appends_designated_extension(t: SpecKeyPackageTbs, code: u16, binding: Seq<u8>)
    ensures
        with_binding(t, code, binding).protocol_version == t.protocol_version,
        with_binding(t, code, binding).ciphersuite == t.ciphersuite,
        with_binding(t, code, binding).init_key == t.init_key,
        with_binding(t, code, binding).leaf_node == t.leaf_node,
        with_binding(t, code, binding).extensions.len() == t.extensions.len() + 1,
        forall|i: int| 0 <= i < t.extensions.len() ==> with_binding(t, code, binding).extensions[i] == #[trigger] t.extensions[i],
        with_binding(t, code, binding).extensions.last() == binding_extension(code, binding),
        leaf_signature_valid(with_binding(t, code, binding)) == leaf_signature_valid(t),
{
}

/// After a bundle is written under the hash reference of its KeyPackage,
/// reading that reference gives the bundle back, private keys included.
pub proof fn law_stored_key_package_is_readable(storage: Seq<(Seq<u8>, SpecStoredBundle)>, bundle: SpecStoredBundle)
    requires
        key_package_hash_ref(bundle.key_package) is Some,
    ensures
        storage_lookup(
            storage_write(storage, key_package_hash_ref(bundle.key_package).unwrap(), bundle),
            key_package_hash_ref(bundle.key_package).unwrap(),
        ) == Some(bundle),
{
    lemma_storage_read_after_write(storage, key_package_hash_ref(bundle.key_package).unwrap(), bundle);
}

/// Decoding the TLS encoding of a KeyPackage whose extension types are
/// canonical and whose extension lists are valid gives that KeyPackage back.
pub proof fn law_decode_inverts_encode(k: SpecKeyPackage)
    requires
        key_package_bytes(k) is Some,
        key_package_tbs_canonical(k.payload),
        extension_lists_valid(k),
    ensures
        decode_key_package(key_package_bytes(k).unwrap()) == Ok::<SpecKeyPackage, DecodeError>(k),
{
    let b = key_package_bytes(k).unwrap();
    lemma_parse_key_package_roundtrip(k, Seq::empty());
    assert(b + Seq::<u8>::empty() =~= b);
}

/// Whatever decodes as a KeyPackage is exactly that KeyPackage's TLS
/// encoding, and its extension types are canonical.
pub proof fn law_decoded_key_package_reencodes(b: Seq<u8>)
    requires
        decode_key_package(b) is Ok,
    ensures
        key_package_bytes(decode_key_package(b).unwrap()) == Some(b),
        key_package_tbs_canonical(decode_key_package(b).unwrap().payload),
        extension_lists_valid(decode_key_package(b).unwrap()),
{
    lemma_parse_key_package_sound(b);
    let (k, rest) = parse_key_package(b).unwrap();
    assert(rest =~= Seq::<u8>::empty());
    assert(key_package_bytes(k).unwrap() + rest =~= key_package_bytes(k).unwrap());
}

proof fn lemma_all_valid_in_key_package(s: Seq<SpecExtension>)
    requires
        forall|i: int| 0 <= i < s.len() ==> valid_in_key_package(#[trigger] s[i].extension_type),
    ensures
        first_not_valid_in_key_package(s) is None,
    decreases s.len(),
{
    if s.len() > 0 {
        assert(valid_in_key_package(s[0].extension_type));
        assert forall|i: int| 0 <= i < s.skip(1).len() implies valid_in_key_package(#[trigger] s.skip(1)[i].extension_type) by {
            assert(s.skip(1)[i] == s[i + 1]);
        }
        lemma_all_valid_in_key_package(s.skip(1));
    }
}

/// A KeyPackage whose signed content is a staged KeyPackageTBS with the
/// binding appended passes receive validation for MLS 1.0 once its leaf is
/// a KeyPackage leaf for MLS 1.0 with a verifying signature, its init key
/// differs from its encryption key and its outer signature verifies: the
/// staged extension checks imply the receive-side extension checks.
pub proof fn law_bound_key_package_passes_validation(t: SpecKeyPackageTbs, code: u16, binding: Seq<u8>, signature: Seq<u8>)
    requires
        list_acceptable(StagedExtensionLocation::KeyPackage, t.extensions, t.leaf_node.capabilities.extensions),
        is_binding_code(code),
        t.leaf_node.capabilities.extensions.contains(ExtensionType::Unknown(code)),
        t.leaf_node.leaf_node_source is KeyPackage,
        leaf_signature_verifies(t),
        t.protocol_version == MLS10,
        t.init_key != t.leaf_node.encryption_key,
        key_package_signature_valid(SpecKeyPackage { payload: with_binding(t, code, binding), signature }),
    ensures
        validation_error(SpecKeyPackage { payload: with_binding(t, code, binding), signature }, MLS10) is None,
{
    let b = with_binding(t, code, binding);
    let s = b.extensions;
    let adv = t.leaf_node.capabilities.extensions;
    assert forall|i: int| 0 <= i < s.len() implies valid_in_key_package(#[trigger] s[i].extension_type) by {
        if i < t.extensions.len() {
            assert(s[i] == t.extensions[i]);
            assert(valid_at(StagedExtensionLocation::KeyPackage, t.extensions[i].extension_type));
        }
    }
    lemma_all_valid_in_key_package(s);
    assert forall|i: int| 0 <= i < s.len() implies supports_extension(b.leaf_node.capabilities, #[trigger] s[i].extension_type) by {
        if i < t.extensions.len() {
            assert(s[i] == t.extensions[i]);
            assert(requires_advertisement(StagedExtensionLocation::KeyPackage, t.extensions[i].extension_type)
                ==> adv.contains(t.extensions[i].extension_type));
        }
    }
}

pub proof fn lemma_acceptable_list_is_valid(location: StagedExtensionLocation, s: Seq<SpecExtension>, advertised: Seq<ExtensionType>)
    requires
        list_acceptable(location, s, advertised),
    ensures
        extension_list_error(location, s) is None,
        extensions_canonical(s),
    decreases s.len(),
{
    if s.len() > 0 {
        let p = s.drop_last();
        assert forall|i: int| 0 <= i < p.len() implies {
            &&& is_canonical_extension_type(#[trigger] p[i].extension_type)
            &&& valid_at(location, p[i].extension_type)
            &&& (requires_advertisement(location, p[i].extension_type) ==> advertised.contains(p[i].extension_type))
        } by {
            assert(p[i] == s[i]);
        }
        assert forall|i: int, j: int| 0 <= i < j < p.len() implies
            extension_type_code(#[trigger] p[i].extension_type) != extension_type_code(#[trigger] p[j].extension_type) by {
            assert(p[i] == s[i] && p[j] == s[j]);
        }
        lemma_acceptable_list_is_valid(location, p, advertised);
        let t = s.last().extension_type;
        assert(valid_at(location, s[s.len() - 1].extension_type));
        if exists|j: int| 0 <= j < s.len() - 1 && #[trigger] s[j].extension_type == t {
            let j = choose|j: int| 0 <= j < s.len() - 1 && #[trigger] s[j].extension_type == t;
            assert(extension_type_code(s[j].extension_type) != extension_type_code(s[s.len() - 1].extension_type));
        }
    }
}

/// The wire encoding of a KeyPackage whose signed content is a staged
/// KeyPackageTBS with the binding appended decodes to exactly that
/// KeyPackage, when the leaf's advertised extension types are canonical.
pub proof fn law_bound_key_package_roundtrips(t: SpecKeyPackageTbs, code: u16, binding: Seq<u8>, signature: Seq<u8>)
    requires
        list_acceptable(StagedExtensionLocation::KeyPackage, t.extensions, t.leaf_node.capabilities.extensions),
        list_acceptable(StagedExtensionLocation::LeafNode, t.leaf_node.extensions, t.leaf_node.capabilities.extensions),
        is_binding_code(code),
        !has_code(t.extensions, code),
        capabilities_canonical(t.leaf_node.capabilities),
        key_package_bytes(SpecKeyPackage { payload: with_binding(t, code, binding), signature }) is Some,
    ensures
        decode_key_package(key_package_bytes(SpecKeyPackage { payload: with_binding(t, code, binding), signature }).unwrap())
            == Ok::<SpecKeyPackage, DecodeError>(SpecKeyPackage { payload: with_binding(t, code, binding), signature }),
{
    let k = SpecKeyPackage { payload: with_binding(t, code, binding), signature };
    let adv = t.leaf_node.capabilities.extensions;
    lemma_acceptable_list_is_valid(StagedExtensionLocation::KeyPackage, t.extensions, adv);
    lemma_acceptable_list_is_valid(StagedExtensionLocation::LeafNode, t.leaf_node.extensions, adv);
    let s = k.payload.extensions;
    let e = binding_extension(code, binding);
    assert(s.drop_last() =~= t.extensions);
    assert(s.last() == e);
    if exists|j: int| 0 <= j < s.len() - 1 && #[trigger] s[j].extension_type == e.extension_type {
        let j = choose|j: int| 0 <= j < s.len() - 1 && #[trigger] s[j].extension_type == e.extension_type;
        assert(t.extensions[j] == s[j]);
        assert(extension_type_code(t.extensions[j].extension_type) == code);
        assert(has_code(t.extensions, code));
    }
    assert(extension_list_error(StagedExtensionLocation::KeyPackage, s) is None);
    assert forall|i: int| 0 <= i < s.len() implies is_canonical_extension_type(#[trigger] s[i].extension_type) by {
        if i < t.extensions.len() {
            assert(s[i] == t.extensions[i]);
        }
    }
    law_decode_inverts_encode(k);
}

/// Decoding then encoding a code point gives the code point back.
pub proof fn law_code_of_decoded_code_is_the_code(code: u16)
    ensures
        extension_type_code(extension_type_from_code(code)) == code,
{
}

/// Every decoded extension type is canonical, and two canonical types with
/// the same code point are the same type.
pub proof fn law_canonical_types_are_determined_by_code(code: u16, t1: ExtensionType, t2: ExtensionType)
    ensures
        is_canonical_extension_type(extension_type_from_code(code)),
        is_canonical_extension_type(t1) && is_canonical_extension_type(t2)
            && extension_type_code(t1) == extension_type_code(t2) ==> t1 == t2,
{
}

/// Writing under a key leaves what is stored under every other key unchanged.
pub proof fn law_write_leaves_other_keys(s: Seq<(Seq<u8>, SpecStoredBundle)>, key: Seq<u8>, value: SpecStoredBundle, other: Seq<u8>)
    requires
        other != key,
    ensures
        storage_lookup(storage_write(s, key, value), other) == storage_lookup(s, other),
{
    lemma_storage_index(s, key);
    lemma_storage_index(s, other);
    let w = storage_write(s, key, value);
    lemma_storage_index(w, other);
    match storage_index(s, other) {
        Some(i) => {
            assert forall|j: int| 0 <= j < i implies #[trigger] w[j].0 != other by {
                assert(w[j].0 == s[j].0 || w[j].0 == key);
            }
            assert(w[i] == s[i]);
            lemma_storage_index_is(w, other, i);
        },
        None => {
            assert forall|j: int| 0 <= j < w.len() implies #[trigger] w[j].0 != other by {
                if j < s.len() {
                    assert(w[j].0 == s[j].0 || w[j].0 == key);
                }
            }
        },
    }
}

/// A write adds one entry exactly when nothing was stored under its key.
pub proof fn law_write_adds_an_entry_only_for_a_new_key(s: Seq<(Seq<u8>, SpecStoredBundle)>, key: Seq<u8>, value: SpecStoredBundle)
    ensures
        storage_write(s, key, value).len() == if storage_lookup(s, key) is Some { s.len() } else { s.len() + 1 },
{
    lemma_storage_index(s, key);
}

/// The canonical binding bytes cover every field: two KeyPackageTBS values
/// with canonical extension types and the same TLS encoding are equal, so
/// changing any covered field changes the bytes.
pub proof fn law_encoding_determines_tbs(t1: SpecKeyPackageTbs, t2: SpecKeyPackageTbs)
    requires
        key_package_tbs_bytes(t1) is Some,
        key_package_tbs_canonical(t1),
        key_package_tbs_canonical(t2),
        key_package_tbs_bytes(t1) == key_package_tbs_bytes(t2),
    ensures
        t1 == t2,
{
    let b = key_package_tbs_bytes(t1).unwrap();
    lemma_parse_key_package_tbs_roundtrip(t1, Seq::empty());
    lemma_parse_key_package_tbs_roundtrip(t2, Seq::empty());
    assert(b + Seq::<u8>::empty() =~= b);
}

/// The canonical binding bytes of every prepared KeyPackage decode as
/// exactly one KeyPackageTBS: the prepared one, with the advertised
/// extension types of its leaf made canonical (which changes no byte).
pub proof fn law_prepared_bytes_decode_to_prepared_tbs(prepared: SpecPreparedKeyPackage)
    requires
        prepared_invariant(prepared),
    ensures
        decode_key_package_tbs(prepared.canonical_bytes) == Ok::<SpecKeyPackageTbs, DecodeError>(canonical_tbs(prepared.tbs)),
        key_package_tbs_bytes(canonical_tbs(prepared.tbs)) == Some(prepared.canonical_bytes),
{
    let t = prepared.tbs;
    let adv = t.leaf_node.capabilities.extensions;
    lemma_acceptable_list_is_valid(StagedExtensionLocation::KeyPackage, t.extensions, adv);
    lemma_acceptable_list_is_valid(StagedExtensionLocation::LeafNode, t.leaf_node.extensions, adv);
    lemma_canonical_capabilities_keep_encodings(t);
    let ct = canonical_tbs(t);
    assert(key_package_tbs_bytes(ct) == key_package_tbs_bytes(t));
    lemma_parse_key_package_tbs_roundtrip(ct, Seq::empty());
    assert(prepared.canonical_bytes + Seq::<u8>::empty() =~= prepared.canonical_bytes);
}

/// The canonical binding bytes of a prepared KeyPackage carry the frozen
/// public material: decoded, they give the ciphersuite, the protocol
/// version, the credential and signature key, the builder's capabilities
/// (with canonical extension types), lifetime and extensions, and a leaf
/// signature that verifies under the leaf's signature key.
pub proof fn law_prepared_bytes_carry_the_frozen_material(
    prepared: SpecPreparedKeyPackage,
    b: KeyPackageBuilder,
    ciphersuite: Ciphersuite,
    credential_with_key: CredentialWithKey,
)
    requires
        prepared_invariant(prepared),
        fresh_tbs(prepared.tbs, b, ciphersuite, credential_with_key),
        leaf_signature_valid(prepared.tbs),
    ensures
        decode_key_package_tbs(prepared.canonical_bytes) matches Ok(d) && {
            &&& d.protocol_version == MLS10
            &&& d.ciphersuite == ciphersuite
            &&& d.leaf_node.credential == credential_with_key.credential@
            &&& d.leaf_node.signature_key == credential_with_key.signature_key@
            &&& d.leaf_node.capabilities == canonical_capabilities(effective_capabilities(b))
            &&& d.leaf_node.leaf_node_source == prepared.tbs.leaf_node.leaf_node_source
            &&& d.leaf_node.extensions == effective_leaf_extensions(b)
            &&& d.extensions == effective_key_package_extensions(b)
            &&& leaf_signature_valid(d)
        },
{
    law_prepared_bytes_decode_to_prepared_tbs(prepared);
    lemma_canonical_capabilities_keep_encodings(prepared.tbs);
}

/// Appending the binding extension keeps a top-level list acceptable when
/// the code designates an unknown extension that no entry has and that is
/// advertised.
pub proof fn lemma_binding_keeps_list_acceptable(s: Seq<SpecExtension>, code: u16, binding: Seq<u8>, advertised: Seq<ExtensionType>)
    requires
        list_acceptable(StagedExtensionLocation::KeyPackage, s, advertised),
        is_binding_code(code),
        !has_code(s, code),
        advertised.contains(ExtensionType::Unknown(code)),
    ensures
        list_acceptable(StagedExtensionLocation::KeyPackage, s.push(binding_extension(code, binding)), advertised),
{
    let p = s.push(binding_extension(code, binding));
    assert forall|i: int| 0 <= i < p.len() implies {
        &&& is_canonical_extension_type(#[trigger] p[i].extension_type)
        &&& valid_at(StagedExtensionLocation::KeyPackage, p[i].extension_type)
        &&& (requires_advertisement(StagedExtensionLocation::KeyPackage, p[i].extension_type) ==> advertised.contains(p[i].extension_type))
    } by {
        if i < s.len() {
            assert(p[i] == s[i]);
        }
    }
    assert forall|i: int, j: int| 0 <= i < j < p.len() implies
        extension_type_code(#[trigger] p[i].extension_type) != extension_type_code(#[trigger] p[j].extension_type) by {
        assert(p[i] == s[i]);
        if j < s.len() {
            assert(p[j] == s[j]);
        } else if extension_type_code(s[i].extension_type) == code {
            assert(has_code(s, code));
        }
    }
}

/// Capabilities with every advertised extension type replaced by the type
/// that its code point denotes, as decoding gives them.
pub open spec fn canonical_capabilities(c: SpecCapabilities) -> SpecCapabilities {
    SpecCapabilities {
        extensions: c.extensions.map_values(|t: ExtensionType| extension_type_from_code(extension_type_code(t))),
        ..c
    }
}

/// A KeyPackageTBS with its leaf's capabilities made canonical.
pub open spec fn canonical_tbs(t: SpecKeyPackageTbs) -> SpecKeyPackageTbs {
    SpecKeyPackageTbs {
        leaf_node: SpecLeafNode { capabilities: canonical_capabilities(t.leaf_node.capabilities), ..t.leaf_node },
        ..t
    }
}

/// A KeyPackage with its leaf's capabilities made canonical.
pub open spec fn canonical_key_package(k: SpecKeyPackage) -> SpecKeyPackage {
    SpecKeyPackage { payload: canonical_tbs(k.payload), ..k }
}

/// Making the advertised extension types canonical keeps every encoding.
pub proof fn lemma_canonical_capabilities_keep_encodings(t: SpecKeyPackageTbs)
    ensures
        ({
            let c = t.leaf_node.capabilities;
            let l = SpecLeafNode { capabilities: canonical_capabilities(c), ..t.leaf_node };
            let u = SpecKeyPackageTbs { leaf_node: l, ..t };
            &&& capabilities_canonical(canonical_capabilities(c))
            &&& capabilities_bytes(canonical_capabilities(c)) == capabilities_bytes(c)
            &&& leaf_node_tbs_bytes(l) == leaf_node_tbs_bytes(t.leaf_node)
            &&& leaf_node_bytes(l) == leaf_node_bytes(t.leaf_node)
            &&& key_package_tbs_bytes(u) == key_package_tbs_bytes(t)
            &&& forall|e: Seq<SpecExtension>| key_package_tbs_bytes(#[trigger] tbs_with_extensions(u, e))
                == key_package_tbs_bytes(tbs_with_extensions(t, e))
        }),
{
    reveal(capabilities_bytes);
    reveal(leaf_node_tbs_bytes);
    reveal(key_package_tbs_bytes);
    let c = t.leaf_node.capabilities;
    let cc = canonical_capabilities(c);
    assert(cc.extensions.map_values(|x: ExtensionType| extension_type_code(x))
        =~= c.extensions.map_values(|x: ExtensionType| extension_type_code(x)));
    assert forall|i: int| 0 <= i < cc.extensions.len() implies is_canonical_extension_type(#[trigger] cc.extensions[i]) by {
        law_canonical_types_are_determined_by_code(extension_type_code(c.extensions[i]), cc.extensions[i], cc.extensions[i]);
    }
}

/// A KeyPackage whose extension lists are acceptable for its leaf's
/// capabilities decodes from its encoding to itself with canonical
/// capabilities, and the verifier's recomputation gives the same on both.
pub proof fn lemma_acceptable_key_package_decodes(k: SpecKeyPackage, code: u16)
    requires
        key_package_bytes(k) is Some,
        list_acceptable(StagedExtensionLocation::KeyPackage, k.payload.extensions, k.payload.leaf_node.capabilities.extensions),
        list_acceptable(StagedExtensionLocation::LeafNode, k.payload.leaf_node.extensions, k.payload.leaf_node.capabilities.extensions),
    ensures
        decode_key_package(key_package_bytes(k).unwrap()) == Ok::<SpecKeyPackage, DecodeError>(canonical_key_package(k)),
        recomputed_binding_bytes(canonical_key_package(k).payload, code) == recomputed_binding_bytes(k.payload, code),
{
    let adv = k.payload.leaf_node.capabilities.extensions;
    lemma_acceptable_list_is_valid(StagedExtensionLocation::KeyPackage, k.payload.extensions, adv);
    lemma_acceptable_list_is_valid(StagedExtensionLocation::LeafNode, k.payload.leaf_node.extensions, adv);
    lemma_canonical_capabilities_keep_encodings(k.payload);
    let ck = canonical_key_package(k);
    assert(key_package_bytes(ck) == key_package_bytes(k));
    law_decode_inverts_encode(ck);
    let rm = remove_first_of_type(k.payload.extensions, ExtensionType::Unknown(code));
    assert(key_package_tbs_bytes(tbs_with_extensions(ck.payload, rm)) == key_package_tbs_bytes(tbs_with_extensions(k.payload, rm)));
}

/// From preparation to the verifier: for every prepared KeyPackage, the
/// KeyPackage formed with a non-empty binding and any outer signature
/// decodes from its wire encoding (to itself, with canonical capabilities),
/// and the verifier's recomputation on the decoded KeyPackage gives exactly
/// the prepared canonical binding bytes.
pub proof fn law_verifier_recomputes_prepared_bytes_from_the_wire(
    prepared: SpecPreparedKeyPackage,
    binding: Seq<u8>,
    signature: Seq<u8>,
)
    requires
        prepared_invariant(prepared),
        binding.len() > 0,
        key_package_bytes(SpecKeyPackage {
            payload: with_binding(prepared.tbs, prepared.binding_extension_type, binding),
            signature,
        }) is Some,
    ensures
        ({
            let k = SpecKeyPackage {
                payload: with_binding(prepared.tbs, prepared.binding_extension_type, binding),
                signature,
            };
            &&& decode_key_package(key_package_bytes(k).unwrap()) == Ok::<SpecKeyPackage, DecodeError>(canonical_key_package(k))
            &&& recomputed_binding_bytes(canonical_key_package(k).payload, prepared.binding_extension_type)
                == Ok::<Seq<u8>, KeyPackageStagingError>(prepared.canonical_bytes)
        }),
{
    let code = prepared.binding_extension_type;
    let k = SpecKeyPackage { payload: with_binding(prepared.tbs, code, binding), signature };
    lemma_binding_keeps_list_acceptable(prepared.tbs.extensions, code, binding, prepared.tbs.leaf_node.capabilities.extensions);
    lemma_acceptable_key_package_decodes(k, code);
    law_verifier_recomputes_prepared_bytes(prepared, binding);
}

/// Removing one extension from an encodable list leaves it encodable, with
/// content no longer than before.
pub proof fn lemma_list_content_remove(s: Seq<SpecExtension>, i: int)
    requires
        0 <= i < s.len(),
        extension_list_content(s) is Some,
    ensures
        extension_list_content(s.remove(i)) is Some,
        extension_list_content(s.remove(i)).unwrap().len() <= extension_list_content(s).unwrap().len(),
    decreases s.len(),
{
    if i == s.len() - 1 {
        assert(s.remove(i) =~= s.drop_last());
    } else {
        lemma_list_content_remove(s.drop_last(), i);
        assert(s.remove(i) =~= s.drop_last().remove(i).push(s.last()));
        assert(s.remove(i).drop_last() =~= s.drop_last().remove(i));
    }
}

/// The verifier's recomputation of the canonical binding bytes never fails
/// to encode for an encodable KeyPackageTBS: taking the binding extension
/// out keeps the KeyPackageTBS encodable, so the only errors are those on
/// the code point and on the binding extension itself.
pub proof fn law_recomputation_keeps_encodability(t: SpecKeyPackageTbs, code: u16)
    requires
        key_package_tbs_bytes(t) is Some,
    ensures
        recomputed_binding_bytes(t, code) != Err::<Seq<u8>, KeyPackageStagingError>(KeyPackageStagingError::TlsSerializationError),
{
    let ty = ExtensionType::Unknown(code);
    lemma_first_index_of_type(t.extensions, ty);
    if let Some(i) = first_index_of_type(t.extensions, ty) {
        let rest = remove_first_of_type(t.extensions, ty);
        lemma_tbs_encodes_with_extensions(t, rest);
        assert(extension_list_content(t.extensions) is Some);
        lemma_list_content_remove(t.extensions, i);
    }
}

/// A KeyPackageTBS encodes with other top-level extensions exactly when it
/// encodes and those extensions do.
proof fn lemma_tbs_encodes_with_extensions(t: SpecKeyPackageTbs, extensions: Seq<SpecExtension>)
    requires
        key_package_tbs_bytes(t) is Some,
    ensures
        extension_list_content(t.extensions) is Some,
        extension_vector(extensions) is Some ==> key_package_tbs_bytes(tbs_with_extensions(t, extensions)) is Some,
        forall|c: Seq<u8>| extension_list_content(extensions) == Some(c)
            && c.len() <= extension_list_content(t.extensions).unwrap().len()
            ==> extension_vector(extensions) is Some,
{
    reveal(key_package_tbs_bytes);
}

/// The default lifetime runs from one hour (3600 s) before `now` to twelve
/// weeks (12 * 7 * 24 * 3600 = 7257600 s) after it; either end saturates at
/// the end of the `u64` range instead of wrapping.
pub proof fn law_default_lifetime_is_one_hour_before_to_twelve_weeks_after(now: u64)
    ensures
        now >= 3600 ==> default_lifetime_at(now).not_before == now - 3600,
        now < 3600 ==> default_lifetime_at(now).not_before == 0,
        now + 12 * 7 * 24 * 3600 <= u64::MAX ==> default_lifetime_at(now).not_after == now + 12 * 7 * 24 * 3600,
        now + 12 * 7 * 24 * 3600 > u64::MAX ==> default_lifetime_at(now).not_after == u64::MAX,
        default_lifetime_at(now).not_before <= now <= default_lifetime_at(now).not_after,
{
}

/// A KeyPackage built or prepared without a lifetime gets the default one:
/// its leaf is valid from one hour before some time `now` until twelve
/// weeks after it (saturating at the ends of the range).
pub proof fn law_fresh_leaf_without_lifetime_gets_twelve_weeks(
    t: SpecKeyPackageTbs,
    b: KeyPackageBuilder,
    ciphersuite: Ciphersuite,
    credential_with_key: CredentialWithKey,
)
    requires
        fresh_tbs(t, b, ciphersuite, credential_with_key),
        b.key_package_lifetime is None,
    ensures
        t.leaf_node.leaf_node_source matches SpecLeafNodeSource::KeyPackage(l) && exists|now: u64| {
            &&& l == #[trigger] default_lifetime_at(now)
            &&& l.not_before == if now >= 3600 { (now - 3600) as u64 } else { 0u64 }
            &&& l.not_after == if now + 7257600 <= u64::MAX { (now + 7257600) as u64 } else { u64::MAX }
        },
{
    if let SpecLeafNodeSource::KeyPackage(l) = t.leaf_node.leaf_node_source {
        let now = choose|now: u64| l == default_lifetime_at(now);
        law_default_lifetime_is_one_hour_before_to_twelve_weeks_after(now);
    }
}

/// The extension types that may stand among a KeyPackage's own extensions
/// are last_resort, GREASE and unrecognized types: none of the five
/// GroupContext/leaf types of RFC 9420 (code points 1 to 5).
pub proof fn law_key_package_extension_types(t: ExtensionType, code: u16)
    ensures
        valid_in_key_package(t) <==> (t == ExtensionType::LastResort || t is Grease || t is Unknown),
        valid_in_key_package(extension_type_from_code(code)) <==> !(1 <= code <= 5),
{
}

/// The extension types that may stand among a leaf node's extensions are
/// application_id, GREASE and unrecognized types: not ratchet_tree,
/// required_capabilities, external_pub, external_senders (code points 2 to
/// 5) nor last_resort (code point 10).
pub proof fn law_leaf_node_extension_types(t: ExtensionType, code: u16)
    ensures
        valid_in_leaf_node(t) <==> (t == ExtensionType::ApplicationId || t is Grease || t is Unknown),
        valid_in_leaf_node(extension_type_from_code(code)) <==> !(2 <= code <= 5 || code == 10),
{
}

/// A leaf supports exactly the five default extension types of RFC 9420
/// (application_id, ratchet_tree, required_capabilities, external_pub,
/// external_senders) and whatever its capabilities advertise.
pub proof fn law_supported_extension_types(c: SpecCapabilities, t: ExtensionType)
    ensures
        supports_extension(c, t) <==> (
            t == ExtensionType::ApplicationId || t == ExtensionType::RatchetTree
            || t == ExtensionType::RequiredCapabilities || t == ExtensionType::ExternalPub
            || t == ExtensionType::ExternalSenders || c.extensions.contains(t)),
{
}

proof fn lemma_no_first_invalid_means_all_valid(s: Seq<SpecExtension>)
    requires
        first_not_valid_in_key_package(s) is None,
    ensures
        forall|i: int| 0 <= i < s.len() ==> valid_in_key_package(#[trigger] s[i].extension_type),
    decreases s.len(),
{
    if s.len() > 0 {
        lemma_no_first_invalid_means_all_valid(s.skip(1));
        assert forall|i: int| 0 <= i < s.len() implies valid_in_key_package(#[trigger] s[i].extension_type) by {
            if i > 0 {
                assert(s[i] == s.skip(1)[i - 1]);
            }
        }
    }
}

/// A KeyPackage that passes validation has only last_resort, GREASE and
/// unrecognized types among its own extensions, and its leaf advertises
/// every one of them: a non-default extension the leaf does not advertise
/// is never accepted.
pub proof fn law_validated_extensions_are_allowed_and_advertised(k: SpecKeyPackage, version: u16)
    requires
        validation_error(k, version) is None,
    ensures
        forall|i: int| 0 <= i < k.payload.extensions.len() ==> {
            let t = #[trigger] k.payload.extensions[i].extension_type;
            &&& t == ExtensionType::LastResort || t is Grease || t is Unknown
            &&& k.payload.leaf_node.capabilities.extensions.contains(t)
        },
{
    lemma_no_first_invalid_means_all_valid(k.payload.extensions);
}

proof fn lemma_list_without_error_is_valid(location: StagedExtensionLocation, s: Seq<SpecExtension>)
    requires
        extension_list_error(location, s) is None,
    ensures
        forall|i: int| 0 <= i < s.len() ==> valid_at(location, #[trigger] s[i].extension_type),
    decreases s.len(),
{
    if s.len() > 0 {
        lemma_list_without_error_is_valid(location, s.drop_last());
        assert forall|i: int| 0 <= i < s.len() implies valid_at(location, #[trigger] s[i].extension_type) by {
            if i < s.len() - 1 {
                assert(s[i] == s.drop_last()[i]);
            }
        }
    }
}

/// Whatever decodes as a KeyPackage has only last_resort, GREASE and
/// unrecognized types among its own extensions, and only application_id,
/// GREASE and unrecognized types among its leaf's extensions.
pub proof fn law_decoded_extensions_stand_where_allowed(b: Seq<u8>)
    requires
        decode_key_package(b) is Ok,
    ensures
        ({
            let k = decode_key_package(b).unwrap();
            &&& forall|i: int| 0 <= i < k.payload.extensions.len() ==> {
                let t = #[trigger] k.payload.extensions[i].extension_type;
                t == ExtensionType::LastResort || t is Grease || t is Unknown
            }
            &&& forall|i: int| 0 <= i < k.payload.leaf_node.extensions.len() ==> {
                let t = #[trigger] k.payload.leaf_node.extensions[i].extension_type;
                t == ExtensionType::ApplicationId || t is Grease || t is Unknown
            }
        }),
{
    let k = decode_key_package(b).unwrap();
    lemma_list_without_error_is_valid(StagedExtensionLocation::KeyPackage, k.payload.extensions);
    lemma_list_without_error_is_valid(StagedExtensionLocation::LeafNode, k.payload.leaf_node.extensions);
}

/// A prepared KeyPackage has only last_resort, GREASE and unrecognized
/// types among its own extensions, each advertised by its leaf, and only
/// application_id, GREASE and unrecognized types among its leaf's
/// extensions, each advertised too.
pub proof fn law_prepared_extensions_stand_where_allowed(p: SpecPreparedKeyPackage)
    requires
        prepared_invariant(p),
    ensures
        forall|i: int| 0 <= i < p.tbs.extensions.len() ==> {
            let t = #[trigger] p.tbs.extensions[i].extension_type;
            &&& t == ExtensionType::LastResort || t is Grease || t is Unknown
            &&& p.tbs.leaf_node.capabilities.extensions.contains(t)
        },
        forall|i: int| 0 <= i < p.tbs.leaf_node.extensions.len() ==> {
            let t = #[trigger] p.tbs.leaf_node.extensions[i].extension_type;
            &&& t == ExtensionType::ApplicationId || t is Grease || t is Unknown
            &&& p.tbs.leaf_node.capabilities.extensions.contains(t)
        },
{
}

} // verus!
