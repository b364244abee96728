//! Extensions and extension lists.

use vstd::prelude::*;

use crate::errors::{
    ExtensionTypeNotValidInKeyPackageError, ExtensionTypeNotValidInLeafNodeError,
    InvalidExtensionError, StagedExtensionLocation,
};
use crate::extension_type::{
    extension_type_code, valid_in_key_package, valid_in_leaf_node, ExtensionType,
};
use crate::tls::{append_bytes, encode_u16, encode_vl, opt_cat, opt_vl, u16_bytes, vl_opt};
use crate::codec::parse_vl;

verus! {

/// An extension: its type and its encoded `extension_data`.
///
/// `extension_data` holds the bytes that stand inside the extension's
/// variable-length `extension_data` field. An unknown extension's data is its
/// opaque content; a `last_resort` extension has empty data.
#[derive(Debug, PartialEq, Eq)]
pub struct Extension {
    /// The extension's type.
    pub extension_type: ExtensionType,
    /// The encoded extension data.
    pub extension_data: Vec<u8>,
}

/// An extension list. Entries are kept in the order in which they were added.
#[derive(Debug, PartialEq, Eq)]
pub struct Extensions {
    /// The entries.
    pub unique: Vec<Extension>,
}

/// The mathematical value of an extension.
pub struct SpecExtension {
    /// The extension's type.
    pub extension_type: ExtensionType,
    /// The encoded extension data.
    pub data: Seq<u8>,
}

impl View for Extension {
    type V = SpecExtension;

    open spec fn view(&self) -> SpecExtension {
        SpecExtension { extension_type: self.extension_type, data: self.extension_data@ }
    }
}

impl View for Extensions {
    type V = Seq<SpecExtension>;

    open spec fn view(&self) -> Seq<SpecExtension> {
        self.unique@.map_values(|e: Extension| e@)
    }
}

/// The TLS encoding of one extension: its code point and its data vector.
pub open spec fn extension_bytes(e: SpecExtension) -> Option<Seq<u8>> {
    opt_cat(Some(u16_bytes(extension_type_code(e.extension_type))), vl_opt(e.data))
}

/// The concatenated encodings of a sequence of extensions.
pub open spec fn extension_list_content(s: Seq<SpecExtension>) -> Option<Seq<u8>>
    decreases s.len(),
{
    if s.len() == 0 {
        Some(Seq::empty())
    } else {
        opt_cat(extension_list_content(s.drop_last()), extension_bytes(s.last()))
    }
}

/// The TLS encoding of an extension vector.
pub open spec fn extension_vector(s: Seq<SpecExtension>) -> Option<Seq<u8>> {
    opt_vl(extension_list_content(s))
}

/// Whether an extension type may appear in the list at `location`.
pub open spec fn valid_at(location: StagedExtensionLocation, t: ExtensionType) -> bool {
    match location {
        StagedExtensionLocation::KeyPackage => valid_in_key_package(t),
        StagedExtensionLocation::LeafNode => valid_in_leaf_node(t),
    }
}

/// The error for an extension type that may not appear at `location`.
pub open spec fn location_error(location: StagedExtensionLocation, t: ExtensionType) -> InvalidExtensionError {
    match location {
        StagedExtensionLocation::KeyPackage => InvalidExtensionError::ExtensionTypeNotValidInKeyPackage(
            ExtensionTypeNotValidInKeyPackageError(t),
        ),
        StagedExtensionLocation::LeafNode => InvalidExtensionError::ExtensionTypeNotValidInLeafNode(
            ExtensionTypeNotValidInLeafNodeError(t),
        ),
    }
}

/// The first reason why `s` is not a valid extension list at `location`:
/// an entry not valid there, or an entry whose type an earlier entry has.
pub open spec fn extension_list_error(location: StagedExtensionLocation, s: Seq<SpecExtension>) -> Option<InvalidExtensionError>
    decreases s.len(),
{
    if s.len() == 0 {
        None
    } else {
        match extension_list_error(location, s.drop_last()) {
            Some(e) => Some(e),
            None => {
                let t = s.last().extension_type;
                if !valid_at(location, t) {
                    Some(location_error(location, t))
                } else if exists|j: int| 0 <= j < s.len() - 1 && #[trigger] s[j].extension_type == t {
                    Some(InvalidExtensionError::Duplicate)
                } else {
                    None
                }
            }
        }
    }
}

/// The index of the first entry of `s` with type `t`, if any.
pub open spec fn first_index_of_type(s: Seq<SpecExtension>, t: ExtensionType) -> Option<int>
    decreases s.len(),
{
    if s.len() == 0 {
        None
    } else {
        match first_index_of_type(s.drop_last(), t) {
            Some(i) => Some(i),
            None => if s.last().extension_type == t {
                Some(s.len() - 1)
            } else {
                None
            },
        }
    }
}

/// The application id of a list: the content of the data of its first
/// `application_id` entry, when that data is exactly one variable-length
/// vector.
pub open spec fn application_id_of(s: Seq<SpecExtension>) -> Option<Seq<u8>> {
    match first_index_of_type(s, ExtensionType::ApplicationId) {
        Some(i) => match parse_vl(s[i].data) {
            Some((id, rest)) => if rest.len() == 0 {
                Some(id)
            } else {
                None
            },
            None => None,
        },
        None => None,
    }
}

/// `s` without its first entry of type `t` (unchanged when there is none).
pub open spec fn remove_first_of_type(s: Seq<SpecExtension>, t: ExtensionType) -> Seq<SpecExtension> {
    match first_index_of_type(s, t) {
        Some(i) => s.remove(i),
        None => s,
    }
}

/// The first index of type `t` is the least index holding type `t`.
pub proof fn lemma_first_index_of_type(s: Seq<SpecExtension>, t: ExtensionType)
    ensures
        match first_index_of_type(s, t) {
            Some(i) => 0 <= i < s.len() && s[i].extension_type == t
                && forall|j: int| 0 <= j < i ==> #[trigger] s[j].extension_type != t,
            None => forall|j: int| 0 <= j < s.len() ==> #[trigger] s[j].extension_type != t,
        },
    decreases s.len(),
{
    if s.len() > 0 {
        lemma_first_index_of_type(s.drop_last(), t);
        match first_index_of_type(s.drop_last(), t) {
            Some(i) => {
                assert forall|j: int| 0 <= j < i implies #[trigger] s[j].extension_type != t by {
                    assert(s[j] == s.drop_last()[j]);
                }
            },
            None => {
                assert forall|j: int| 0 <= j < s.len() - 1 implies #[trigger] s[j].extension_type != t by {
                    assert(s[j] == s.drop_last()[j]);
                }
            },
        }
    }
}

impl Extension {
    /// An extension of type `ExtensionType::Unknown(code)` carrying the opaque `data`.
    pub fn unknown(code: u16, data: Vec<u8>) -> (res: Extension)
        ensures
            res@ == (SpecExtension { extension_type: ExtensionType::Unknown(code), data: data@ }),
    {
        Extension { extension_type: ExtensionType::Unknown(code), extension_data: data }
    }

    /// The `last_resort` extension, whose data is empty.
    pub fn last_resort() -> (res: Extension)
        ensures
            res@ == (SpecExtension { extension_type: ExtensionType::LastResort, data: Seq::empty() }),
    {
        let data: Vec<u8> = Vec::new();
        assert(data@ =~= Seq::<u8>::empty());
        Extension { extension_type: ExtensionType::LastResort, extension_data: data }
    }

    /// An `application_id` extension; its data is the variable-length `id`.
    /// `None` when `id` is too long to encode.
    pub fn application_id(id: &[u8]) -> (res: Option<Extension>)
        ensures
            res is Some <==> vl_opt(id@) is Some,
            res matches Some(e) ==> e@.extension_type == ExtensionType::ApplicationId
                && vl_opt(id@) == Some(e@.data),
    {
        match encode_vl(id) {
            Some(data) => Some(Extension { extension_type: ExtensionType::ApplicationId, extension_data: data }),
            None => None,
        }
    }

    /// An `external_senders` extension with no senders; its data is the empty vector.
    pub fn external_senders_empty() -> (res: Extension)
        ensures
            res@ == (SpecExtension { extension_type: ExtensionType::ExternalSenders, data: seq![0u8] }),
    {
        let data = vec![0u8];
        assert(data@ =~= seq![0u8]);
        Extension { extension_type: ExtensionType::ExternalSenders, extension_data: data }
    }

    /// The extension's type.
    pub fn extension_type(&self) -> (res: ExtensionType)
        ensures
            res == self@.extension_type,
    {
        self.extension_type
    }

    /// The extension's data.
    pub fn data(&self) -> (res: &[u8])
        ensures
            res@ == self@.data,
    {
        self.extension_data.as_slice()
    }

    /// A copy of this extension.
    pub fn duplicate(&self) -> (res: Extension)
        ensures
            res@ == self@,
    {
        let data = self.extension_data.clone();
        assert(data@ =~= self.extension_data@);
        Extension { extension_type: self.extension_type, extension_data: data }
    }

    /// The TLS encoding of this extension; `None` when its data is too long.
    pub fn encode(&self) -> (res: Option<Vec<u8>>)
        ensures
            res is Some <==> extension_bytes(self@) is Some,
            res matches Some(v) ==> extension_bytes(self@) == Some(v@),
    {
        let mut out = encode_u16(self.extension_type.code());
        match encode_vl(self.extension_data.as_slice()) {
            Some(data) => {
                append_bytes(&mut out, data.as_slice());
                Some(out)
            },
            None => None,
        }
    }
}

impl Extensions {
    /// The empty list.
    pub fn empty() -> (res: Extensions)
        ensures
            res@ == Seq::<SpecExtension>::empty(),
    {
        let res = Extensions { unique: Vec::new() };
        assert(res@ =~= Seq::<SpecExtension>::empty());
        res
    }

    /// A list taken as given, without validation; entries may repeat a type or
    /// be invalid at the list's location. Such lists arise from deserialization
    /// paths that do not validate.
    pub fn from_vec_unchecked(entries: Vec<Extension>) -> (res: Extensions)
        ensures
            res@ == entries@.map_values(|e: Extension| e@),
    {
        Extensions { unique: entries }
    }

    /// A validated list: every entry is valid at `location` and no two
    /// entries have the same type. The first offending entry decides the error.
    pub fn from_vec(location: StagedExtensionLocation, entries: Vec<Extension>) -> (res: Result<Extensions, InvalidExtensionError>)
        ensures
            match extension_list_error(location, entries@.map_values(|e: Extension| e@)) {
                Some(e) => res == Err::<Extensions, InvalidExtensionError>(e),
                None => res matches Ok(list) && list@ == entries@.map_values(|e: Extension| e@),
            },
    {
        let ghost s = entries@.map_values(|e: Extension| e@);
        let mut i: usize = 0;
        while i < entries.len()
            invariant
                i <= entries@.len(),
                s == entries@.map_values(|e: Extension| e@),
                extension_list_error(location, s.take(i as int)) is None,
            decreases entries@.len() - i,
        {
            let t = entries[i].extension_type;
            let ghost prefix = s.take(i as int + 1);
            assert(prefix.drop_last() =~= s.take(i as int));
            assert(prefix.last() == s[i as int]);
            assert(prefix.len() == i + 1);
            let valid = match location {
                StagedExtensionLocation::KeyPackage => t.is_valid_in_key_package(),
                StagedExtensionLocation::LeafNode => t.is_valid_in_leaf_node(),
            };
            if !valid {
                assert(extension_list_error(location, prefix) == Some(location_error(location, t)));
                proof { lemma_error_of_prefix_is_error_of_list(location, s, i as int + 1); }
                return match location {
                    StagedExtensionLocation::KeyPackage => Err(InvalidExtensionError::ExtensionTypeNotValidInKeyPackage(
                        ExtensionTypeNotValidInKeyPackageError(t),
                    )),
                    StagedExtensionLocation::LeafNode => Err(InvalidExtensionError::ExtensionTypeNotValidInLeafNode(
                        ExtensionTypeNotValidInLeafNodeError(t),
                    )),
                };
            }
            let mut j: usize = 0;
            while j < i
                invariant
                    j <= i < entries@.len(),
                    s == entries@.map_values(|e: Extension| e@),
                    prefix == s.take(i as int + 1),
                    prefix.len() == i + 1,
                    prefix.last().extension_type == t,
                    prefix.drop_last() == s.take(i as int),
                    extension_list_error(location, prefix.drop_last()) is None,
                    valid_at(location, t),
                    t == s[i as int].extension_type,
                    forall|k: int| 0 <= k < j ==> #[trigger] prefix[k].extension_type != t,
                decreases i - j,
            {
                if entries[j].extension_type == t {
                    assert(prefix[j as int] == s[j as int]);
                    assert(prefix[j as int].extension_type == t);
                    assert(extension_list_error(location, prefix) == Some(InvalidExtensionError::Duplicate));
                    proof { lemma_error_of_prefix_is_error_of_list(location, s, i as int + 1); }
                    return Err(InvalidExtensionError::Duplicate);
                }
                assert(prefix[j as int] == s[j as int]);
                j = j + 1;
            }
            assert(!exists|k: int| 0 <= k < prefix.len() - 1 && #[trigger] prefix[k].extension_type == t);
            assert(extension_list_error(location, prefix) is None);
            i = i + 1;
        }
        assert(s.take(i as int) =~= s);
        Ok(Extensions { unique: entries })
    }

    /// A validated list of one entry.
    pub fn single(location: StagedExtensionLocation, extension: Extension) -> (res: Result<Extensions, InvalidExtensionError>)
        ensures
            valid_at(location, extension@.extension_type) ==> (res matches Ok(list) && list@ == seq![extension@]),
            !valid_at(location, extension@.extension_type) ==> res == Err::<Extensions, InvalidExtensionError>(
                location_error(location, extension@.extension_type),
            ),
    {
        let ghost e = extension@;
        let v = vec![extension];
        assert(v@.map_values(|x: Extension| x@) =~= seq![e]);
        assert(seq![e].drop_last() =~= Seq::<SpecExtension>::empty());
        assert(extension_list_error(location, Seq::<SpecExtension>::empty()) is None);
        Extensions::from_vec(location, v)
    }

    /// The entries in order.
    pub fn as_slice(&self) -> (res: &[Extension])
        ensures
            res@.map_values(|e: Extension| e@) == self@,
    {
        self.unique.as_slice()
    }

    /// The number of entries.
    pub fn len(&self) -> (res: usize)
        ensures
            res == self@.len(),
    {
        self.unique.len()
    }

    /// The position of the first entry of type `t`.
    pub fn position(&self, t: ExtensionType) -> (res: Option<usize>)
        ensures
            res matches Some(i) ==> first_index_of_type(self@, t) == Some(i as int) && i < self@.len(),
            res is None ==> first_index_of_type(self@, t) is None,
    {
        proof { lemma_first_index_of_type(self@, t); }
        let mut i: usize = 0;
        while i < self.unique.len()
            invariant
                i <= self@.len(),
                self@.len() == self.unique@.len(),
                forall|j: int| 0 <= j < i ==> #[trigger] self@[j].extension_type != t,
            decreases self@.len() - i,
        {
            assert(self@[i as int] == self.unique@[i as int]@);
            if self.unique[i].extension_type == t {
                assert(self@[i as int].extension_type == t);
                proof { lemma_first_index_of_type(self@, t); }
                assert(first_index_of_type(self@, t) == Some(i as int));
                return Some(i);
            }
            i = i + 1;
        }
        proof { lemma_first_index_of_type(self@, t); }
        None
    }

    /// The application id carried by the first `application_id` entry: the
    /// content of its data, which must be exactly one variable-length vector.
    /// `None` when there is no such entry or its data is not that.
    pub fn application_id(&self) -> (res: Option<Vec<u8>>)
        ensures
            match application_id_of(self@) {
                Some(id) => res matches Some(v) && v@ == id,
                None => res is None,
            },
    {
        match self.position(ExtensionType::ApplicationId) {
            Some(i) => {
                assert(self@[i as int] == self.unique@[i as int]@);
                let data = self.unique[i].extension_data.as_slice();
                assert(data@.skip(0) =~= data@);
                match crate::decoding::read_vl(data, 0) {
                    Some((id, end)) => {
                        if end < data.len() {
                            None
                        } else {
                            assert(data@.skip(end as int).len() == 0);
                            Some(id)
                        }
                    },
                    None => None,
                }
            },
            None => None,
        }
    }

    /// Whether an entry has type `t`.
    pub fn contains(&self, t: ExtensionType) -> (res: bool)
        ensures
            res == exists|j: int| 0 <= j < self@.len() && #[trigger] self@[j].extension_type == t,
    {
        proof { lemma_first_index_of_type(self@, t); }
        self.position(t).is_some()
    }

    /// Appends an entry.
    pub fn push(&mut self, extension: Extension)
        ensures
            final(self)@ == old(self)@.push(extension@),
    {
        self.unique.push(extension);
        assert(self@ =~= old(self)@.push(extension@));
    }

    /// Removes and returns the first entry of type `t`.
    pub fn remove(&mut self, t: ExtensionType) -> (res: Option<Extension>)
        ensures
            final(self)@ == remove_first_of_type(old(self)@, t),
            match first_index_of_type(old(self)@, t) {
                Some(i) => res matches Some(e) && e@ == old(self)@[i],
                None => res is None,
            },
    {
        assert(self@.len() == self.unique@.len());
        match self.position(t) {
            Some(i) => {
                let e = self.unique.remove(i);
                assert(self@ =~= old(self)@.remove(i as int));
                Some(e)
            },
            None => None,
        }
    }

    /// Replaces the entry of the same type, or appends when there is none:
    /// any entry of that type is removed and the new entry is appended.
    pub fn add_or_replace(&mut self, extension: Extension)
        ensures
            final(self)@ == remove_first_of_type(old(self)@, extension@.extension_type).push(extension@),
    {
        let t = extension.extension_type;
        let _ = self.remove(t);
        self.push(extension);
    }

    /// A copy of this list.
    pub fn duplicate(&self) -> (res: Extensions)
        ensures
            res@ == self@,
    {
        let mut v: Vec<Extension> = Vec::new();
        let mut i: usize = 0;
        while i < self.unique.len()
            invariant
                i <= self.unique@.len(),
                v@.map_values(|e: Extension| e@) == self@.take(i as int),
            decreases self.unique@.len() - i,
        {
            let ghost before = v@;
            let e = self.unique[i].duplicate();
            v.push(e);
            assert(v@ == before.push(e));
            assert(v@.map_values(|e: Extension| e@) =~= before.map_values(|e: Extension| e@).push(e@));
            i = i + 1;
            assert(self@.take(i as int) =~= self@.take(i as int - 1).push(self@[i as int - 1]));
        }
        assert(self@.take(i as int) =~= self@);
        Extensions { unique: v }
    }

    /// The TLS encoding of this list as an extension vector; `None` when it is too long.
    pub fn encode(&self) -> (res: Option<Vec<u8>>)
        ensures
            res is Some <==> extension_vector(self@) is Some,
            res matches Some(v) ==> extension_vector(self@) == Some(v@),
    {
        let mut content: Vec<u8> = Vec::new();
        let mut i: usize = 0;
        while i < self.unique.len()
            invariant
                i <= self@.len(),
                self@.len() == self.unique@.len(),
                extension_list_content(self@.take(i as int)) == Some(content@),
            decreases self@.len() - i,
        {
            assert(self@.take(i as int + 1).drop_last() =~= self@.take(i as int));
            assert(self@.take(i as int + 1).last() == self.unique@[i as int]@);
            match self.unique[i].encode() {
                Some(b) => append_bytes(&mut content, b.as_slice()),
                None => {
                    proof { lemma_content_absent_from_prefix(self@, i as int + 1); }
                    return None;
                },
            }
            i = i + 1;
        }
        assert(self@.take(i as int) =~= self@);
        encode_vl(content.as_slice())
    }
}

/// An error found in a prefix of a list is the list's error.
pub proof fn lemma_error_of_prefix_is_error_of_list(location: StagedExtensionLocation, s: Seq<SpecExtension>, k: int)
    requires
        0 <= k <= s.len(),
        extension_list_error(location, s.take(k)) is Some,
    ensures
        extension_list_error(location, s) == extension_list_error(location, s.take(k)),
    decreases s.len() - k,
{
    if k < s.len() {
        assert(s.take(k + 1).drop_last() =~= s.take(k));
        lemma_error_of_prefix_is_error_of_list(location, s, k + 1);
    } else {
        assert(s.take(k) =~= s);
    }
}

/// A list whose prefix has no encoding has no encoding.
pub proof fn lemma_content_absent_from_prefix(s: Seq<SpecExtension>, k: int)
    requires
        0 <= k <= s.len(),
        extension_list_content(s.take(k)) is None,
    ensures
        extension_list_content(s) is None,
    decreases s.len() - k,
{
    if k < s.len() {
        assert(s.take(k + 1).drop_last() =~= s.take(k));
        lemma_content_absent_from_prefix(s, k + 1);
    } else {
        assert(s.take(k) =~= s);
    }
}

} // verus!
