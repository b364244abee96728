//! The staged-only validation of the retained extensions, first error wins.

use vstd::prelude::*;

use crate::errors::{KeyPackageStagingError, StagedExtensionLocation};
use crate::extension_type::{
    extension_type_code, is_canonical_extension_type, is_default_extension_type, ExtensionType,
};
use crate::extensions::{valid_at, Extensions, SpecExtension};
use crate::key_package::is_binding_code;
use crate::leaf_node::{AdvertisedExtensions, Capabilities};

verus! {

/// Whether an extension at `location` must be advertised in the leaf's
/// capabilities: every leaf extension, and every non-default top-level one.
pub open spec fn requires_advertisement(location: StagedExtensionLocation, t: ExtensionType) -> bool {
    match location {
        StagedExtensionLocation::KeyPackage => !is_default_extension_type(t),
        StagedExtensionLocation::LeafNode => true,
    }
}

/// Whether some entry before index `i` has the numeric code point `code`.
pub open spec fn earlier_has_code(s: Seq<SpecExtension>, i: int, code: u16) -> bool {
    exists|j: int| 0 <= j < i && #[trigger] extension_type_code(s[j].extension_type) == code
}

/// The error of entry `i` of the list at `location`, checked in order:
/// canonical enum/numeric identity, numeric duplicate of an earlier entry,
/// validity at the location, then advertisement in `advertised`.
pub open spec fn entry_error(
    location: StagedExtensionLocation,
    s: Seq<SpecExtension>,
    i: int,
    advertised: Seq<ExtensionType>,
) -> Option<KeyPackageStagingError> {
    let t = s[i].extension_type;
    let code = extension_type_code(t);
    if !is_canonical_extension_type(t) {
        Some(KeyPackageStagingError::NonCanonicalExtensionType { location, extension_type: code })
    } else if earlier_has_code(s, i, code) {
        Some(KeyPackageStagingError::DuplicateExtensionType { location, extension_type: code })
    } else if !valid_at(location, t) {
        Some(KeyPackageStagingError::InvalidExtensionForLocation { location, extension_type: code })
    } else if requires_advertisement(location, t) && !advertised.contains(t) {
        Some(KeyPackageStagingError::ExtensionNotAdvertised { location, extension_type: code })
    } else {
        None
    }
}

/// The first error among the first `k` entries of the list, scanning in order.
pub open spec fn list_error_upto(
    location: StagedExtensionLocation,
    s: Seq<SpecExtension>,
    advertised: Seq<ExtensionType>,
    k: int,
) -> Option<KeyPackageStagingError>
    decreases k,
{
    if k <= 0 {
        None
    } else {
        match list_error_upto(location, s, advertised, k - 1) {
            Some(e) => Some(e),
            None => entry_error(location, s, k - 1, advertised),
        }
    }
}

/// The first error of the list at `location`.
pub open spec fn list_error(
    location: StagedExtensionLocation,
    s: Seq<SpecExtension>,
    advertised: Seq<ExtensionType>,
) -> Option<KeyPackageStagingError> {
    list_error_upto(location, s, advertised, s.len() as int)
}

/// Whether some entry has the numeric code point `code`.
pub open spec fn has_code(s: Seq<SpecExtension>, code: u16) -> bool {
    exists|j: int| 0 <= j < s.len() && #[trigger] extension_type_code(s[j].extension_type) == code
}

/// The staged validation of a binding code point and of the retained
/// top-level and leaf extension lists against the leaf's advertised extension
/// types, first error wins:
/// 1. the code point must designate an unknown extension;
/// 2. no retained top-level extension may have that code point;
/// 3. the top-level list, entry by entry;
/// 4. the leaf list, entry by entry;
/// 5. the binding's extension type must be advertised.
pub open spec fn staged_validation(
    code: u16,
    key_package_extensions: Seq<SpecExtension>,
    leaf_extensions: Seq<SpecExtension>,
    advertised: Seq<ExtensionType>,
) -> Option<KeyPackageStagingError> {
    if !is_binding_code(code) {
        Some(KeyPackageStagingError::InvalidBindingExtensionType(code))
    } else if has_code(key_package_extensions, code) {
        Some(KeyPackageStagingError::DuplicateBindingExtension(code))
    } else {
        match list_error(StagedExtensionLocation::KeyPackage, key_package_extensions, advertised) {
            Some(e) => Some(e),
            None => match list_error(StagedExtensionLocation::LeafNode, leaf_extensions, advertised) {
                Some(e) => Some(e),
                None => if !advertised.contains(ExtensionType::Unknown(code)) {
                    Some(KeyPackageStagingError::BindingExtensionNotAdvertised(code))
                } else {
                    None
                },
            },
        }
    }
}

/// The checks of one extension list at `location`, scanning entries in
/// stored order; the first failing check of the first failing entry decides.
pub fn check_extension_list(
    location: StagedExtensionLocation,
    extensions: &Extensions,
    advertised: &AdvertisedExtensions,
) -> (res: Option<KeyPackageStagingError>)
    ensures
        res == list_error(location, extensions@, advertised.advertised()),
{
    let ghost s = extensions@;
    let ghost adv = advertised.advertised();
    let n = extensions.unique.len();
    let mut i: usize = 0;
    while i < n
        invariant
            n == s.len(),
            s == extensions@,
            adv == advertised.advertised(),
            i <= n,
            list_error_upto(location, s, adv, i as int) is None,
        decreases n - i,
    {
        assert(s[i as int] == extensions.unique@[i as int]@);
        let t = extensions.unique[i].extension_type;
        let code = t.code();
        let mut err: Option<KeyPackageStagingError> = None;
        if !t.is_canonical() {
            err = Some(KeyPackageStagingError::NonCanonicalExtensionType { location, extension_type: code });
        } else {
            let dup = has_code_before(extensions, i, code);
            if dup {
                err = Some(KeyPackageStagingError::DuplicateExtensionType { location, extension_type: code });
            } else {
                let valid = match location {
                    StagedExtensionLocation::KeyPackage => t.is_valid_in_key_package(),
                    StagedExtensionLocation::LeafNode => t.is_valid_in_leaf_node(),
                };
                if !valid {
                    err = Some(KeyPackageStagingError::InvalidExtensionForLocation { location, extension_type: code });
                } else {
                    let needs = match location {
                        StagedExtensionLocation::KeyPackage => !t.is_default(),
                        StagedExtensionLocation::LeafNode => true,
                    };
                    if needs && !advertised.contains(t) {
                        err = Some(KeyPackageStagingError::ExtensionNotAdvertised { location, extension_type: code });
                    }
                }
            }
        }
        assert(err == entry_error(location, s, i as int, adv));
        if err.is_some() {
            proof { lemma_list_error_from_prefix(location, s, adv, i as int + 1); }
            return err;
        }
        i = i + 1;
    }
    None
}

/// Whether an entry before index `i` has the code point `code`.
fn has_code_before(extensions: &Extensions, i: usize, code: u16) -> (res: bool)
    requires
        i <= extensions@.len(),
    ensures
        res == earlier_has_code(extensions@, i as int, code),
{
    let mut j: usize = 0;
    while j < i
        invariant
            i <= extensions@.len(),
            j <= i,
            !earlier_has_code(extensions@, j as int, code),
        decreases i - j,
    {
        assert(extensions@[j as int] == extensions.unique@[j as int]@);
        if extensions.unique[j].extension_type.code() == code {
            assert(extension_type_code(extensions@[j as int].extension_type) == code);
            return true;
        }
        j = j + 1;
    }
    false
}

/// An error found among the first `k` entries is the list's error.
pub proof fn lemma_list_error_from_prefix(
    location: StagedExtensionLocation,
    s: Seq<SpecExtension>,
    advertised: Seq<ExtensionType>,
    k: int,
)
    requires
        0 <= k <= s.len(),
        list_error_upto(location, s, advertised, k) is Some,
    ensures
        list_error(location, s, advertised) == list_error_upto(location, s, advertised, k),
    decreases s.len() - k,
{
    if k < s.len() {
        lemma_list_error_from_prefix(location, s, advertised, k + 1);
    }
}

/// The errors of the staged validation are its own kinds, none of the
/// ordinary creation path, signing or encoding.
pub open spec fn is_validation_error(e: KeyPackageStagingError) -> bool {
    ||| e is InvalidBindingExtensionType
    ||| e is DuplicateBindingExtension
    ||| e is BindingExtensionNotAdvertised
    ||| e is NonCanonicalExtensionType
    ||| e is DuplicateExtensionType
    ||| e is InvalidExtensionForLocation
    ||| e is ExtensionNotAdvertised
}

/// Every error that a list scan reports is a validation error.
pub proof fn lemma_list_error_kind(
    location: StagedExtensionLocation,
    s: Seq<SpecExtension>,
    advertised: Seq<ExtensionType>,
    k: int,
)
    ensures
        list_error_upto(location, s, advertised, k) matches Some(e) ==> is_validation_error(e),
    decreases k,
{
    if k > 0 {
        lemma_list_error_kind(location, s, advertised, k - 1);
    }
}

/// Every error that the staged validation reports is a validation error.
pub proof fn lemma_staged_validation_kind(
    code: u16,
    key_package_extensions: Seq<SpecExtension>,
    leaf_extensions: Seq<SpecExtension>,
    advertised: Seq<ExtensionType>,
)
    ensures
        staged_validation(code, key_package_extensions, leaf_extensions, advertised) matches Some(e)
            ==> is_validation_error(e),
{
    lemma_list_error_kind(StagedExtensionLocation::KeyPackage, key_package_extensions, advertised, key_package_extensions.len() as int);
    lemma_list_error_kind(StagedExtensionLocation::LeafNode, leaf_extensions, advertised, leaf_extensions.len() as int);
}

/// Whether the binding code point appears among the entries.
pub fn contains_code(extensions: &Extensions, code: u16) -> (res: bool)
    ensures
        res == has_code(extensions@, code),
{
    let n = extensions.unique.len();
    let mut i: usize = 0;
    while i < n
        invariant
            n == extensions@.len(),
            i <= n,
            !earlier_has_code(extensions@, i as int, code),
        decreases n - i,
    {
        assert(extensions@[i as int] == extensions.unique@[i as int]@);
        if extensions.unique[i].extension_type.code() == code {
            assert(extension_type_code(extensions@[i as int].extension_type) == code);
            return true;
        }
        i = i + 1;
    }
    false
}

/// The staged validation (steps 1 to 5 of [`staged_validation`]) of already
/// defaulted lists.
pub fn validate_staged(
    code: u16,
    key_package_extensions: &Extensions,
    leaf_extensions: &Extensions,
    capabilities: &Capabilities,
) -> (res: Option<KeyPackageStagingError>)
    ensures
        res == staged_validation(code, key_package_extensions@, leaf_extensions@, capabilities@.extensions),
{
    if ExtensionType::from_code(code) != ExtensionType::Unknown(code) {
        return Some(KeyPackageStagingError::InvalidBindingExtensionType(code));
    }
    if contains_code(key_package_extensions, code) {
        return Some(KeyPackageStagingError::DuplicateBindingExtension(code));
    }
    let advertised = capabilities.advertised_extensions();
    let top = check_extension_list(StagedExtensionLocation::KeyPackage, key_package_extensions, &advertised);
    if top.is_some() {
        return top;
    }
    let leaf = check_extension_list(StagedExtensionLocation::LeafNode, leaf_extensions, &advertised);
    if leaf.is_some() {
        return leaf;
    }
    if !advertised.contains(ExtensionType::Unknown(code)) {
        return Some(KeyPackageStagingError::BindingExtensionNotAdvertised(code));
    }
    None
}

} // verus!
