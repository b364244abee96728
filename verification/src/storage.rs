//! Storage of KeyPackage bundles under their hash references, and the
//! provider that pairs it with the crypto provider.

use vstd::prelude::*;

use crate::key_package::{KeyPackageBundle, SpecKeyPackage};

verus! {

/// KeyPackage bundles stored under their hash references.
pub struct KeyPackageStorage {
    entries: Vec<(Vec<u8>, KeyPackageBundle)>,
}

/// The index of the first entry stored under `key`, if any.
pub open spec fn storage_index(s: Seq<(Seq<u8>, SpecStoredBundle)>, key: Seq<u8>) -> Option<int>
    decreases s.len(),
{
    if s.len() == 0 {
        None
    } else {
        match storage_index(s.drop_last(), key) {
            Some(i) => Some(i),
            None => if s.last().0 == key {
                Some(s.len() - 1)
            } else {
                None
            },
        }
    }
}

/// The KeyPackage stored under `key`, if any.
pub open spec fn storage_lookup(s: Seq<(Seq<u8>, SpecStoredBundle)>, key: Seq<u8>) -> Option<SpecStoredBundle> {
    match storage_index(s, key) {
        Some(i) => Some(s[i].1),
        None => None,
    }
}

/// The entries after writing `value` under `key`: the entry under `key` is
/// replaced in place, or the pair is appended when there is none.
pub open spec fn storage_write(s: Seq<(Seq<u8>, SpecStoredBundle)>, key: Seq<u8>, value: SpecStoredBundle) -> Seq<(Seq<u8>, SpecStoredBundle)> {
    match storage_index(s, key) {
        Some(i) => s.update(i, (key, value)),
        None => s.push((key, value)),
    }
}

/// The first index under a key is the least index holding that key.
pub proof fn lemma_storage_index(s: Seq<(Seq<u8>, SpecStoredBundle)>, key: Seq<u8>)
    ensures
        match storage_index(s, key) {
            Some(i) => 0 <= i < s.len() && s[i].0 == key && forall|j: int| 0 <= j < i ==> #[trigger] s[j].0 != key,
            None => forall|j: int| 0 <= j < s.len() ==> #[trigger] s[j].0 != key,
        },
    decreases s.len(),
{
    if s.len() > 0 {
        lemma_storage_index(s.drop_last(), key);
        match storage_index(s.drop_last(), key) {
            Some(i) => {
                assert forall|j: int| 0 <= j < i implies #[trigger] s[j].0 != key by {
                    assert(s[j] == s.drop_last()[j]);
                }
            },
            None => {
                assert forall|j: int| 0 <= j < s.len() - 1 implies #[trigger] s[j].0 != key by {
                    assert(s[j] == s.drop_last()[j]);
                }
            },
        }
    }
}

/// Characterizes the first index by the least-index property.
pub proof fn lemma_storage_index_is(s: Seq<(Seq<u8>, SpecStoredBundle)>, key: Seq<u8>, i: int)
    requires
        0 <= i < s.len(),
        s[i].0 == key,
        forall|j: int| 0 <= j < i ==> #[trigger] s[j].0 != key,
    ensures
        storage_index(s, key) == Some(i),
{
    lemma_storage_index(s, key);
}

impl View for KeyPackageBundle {
    type V = SpecKeyPackage;

    open spec fn view(&self) -> SpecKeyPackage {
        self.key_package@
    }
}

/// What storage holds of a bundle: its KeyPackage and both private keys.
pub struct SpecStoredBundle {
    /// The KeyPackage.
    pub key_package: SpecKeyPackage,
    /// The private key of the init key.
    pub private_init_key: Seq<u8>,
    /// The private key of the leaf's encryption key.
    pub private_encryption_key: Seq<u8>,
}

/// What storage holds of `b`.
pub open spec fn stored_bundle(b: KeyPackageBundle) -> SpecStoredBundle {
    SpecStoredBundle {
        key_package: b.key_package@,
        private_init_key: b.private_init_key@,
        private_encryption_key: b.private_encryption_key@,
    }
}

impl View for KeyPackageStorage {
    type V = Seq<(Seq<u8>, SpecStoredBundle)>;

    closed spec fn view(&self) -> Seq<(Seq<u8>, SpecStoredBundle)> {
        self.entries@.map_values(|e: (Vec<u8>, KeyPackageBundle)| (e.0@, stored_bundle(e.1)))
    }
}

/// Whether two byte slices are equal.
pub fn bytes_equal(a: &[u8], b: &[u8]) -> (res: bool)
    ensures
        res == (a@ == b@),
{
    if a.len() != b.len() {
        return false;
    }
    let mut i: usize = 0;
    while i < a.len()
        invariant
            a@.len() == b@.len(),
            i <= a@.len(),
            forall|j: int| 0 <= j < i ==> a@[j] == b@[j],
        decreases a@.len() - i,
    {
        if a[i] != b[i] {
            return false;
        }
        i = i + 1;
    }
    assert(a@ =~= b@);
    true
}

impl KeyPackageStorage {
    /// Empty storage.
    pub fn new() -> (res: KeyPackageStorage)
        ensures
            res@ == Seq::<(Seq<u8>, SpecStoredBundle)>::empty(),
    {
        let res = KeyPackageStorage { entries: Vec::new() };
        assert(res@ =~= Seq::<(Seq<u8>, SpecStoredBundle)>::empty());
        res
    }

    /// The number of stored entries.
    pub fn len(&self) -> (res: usize)
        ensures
            res == self@.len(),
    {
        self.entries.len()
    }

    fn index_of(&self, key: &[u8]) -> (res: Option<usize>)
        ensures
            res matches Some(i) ==> storage_index(self@, key@) == Some(i as int) && i < self@.len(),
            res is None ==> storage_index(self@, key@) is None,
    {
        proof { lemma_storage_index(self@, key@); }
        let n = self.entries.len();
        let mut i: usize = 0;
        while i < n
            invariant
                n == self@.len(),
                i <= n,
                forall|j: int| 0 <= j < i ==> #[trigger] self@[j].0 != key@,
            decreases n - i,
        {
            assert(self@[i as int].0 == self.entries@[i as int].0@);
            if bytes_equal(self.entries[i].0.as_slice(), key) {
                proof { lemma_storage_index_is(self@, key@, i as int); }
                return Some(i);
            }
            i = i + 1;
        }
        None
    }

    /// The bundle stored under `hash_ref`.
    pub fn key_package(&self, hash_ref: &[u8]) -> (res: Option<&KeyPackageBundle>)
        ensures
            match storage_lookup(self@, hash_ref@) {
                Some(k) => res matches Some(b) && stored_bundle(*b) == k,
                None => res is None,
            },
    {
        match self.index_of(hash_ref) {
            Some(i) => {
                assert(self@[i as int].1 == stored_bundle(self.entries@[i as int].1));
                Some(&self.entries[i].1)
            },
            None => None,
        }
    }

    /// Writes `bundle` under `hash_ref`, replacing what was stored there.
    pub fn write_key_package(&mut self, hash_ref: Vec<u8>, bundle: KeyPackageBundle)
        ensures
            final(self)@ == storage_write(old(self)@, hash_ref@, stored_bundle(bundle)),
    {
        let ghost key = hash_ref@;
        let ghost value = stored_bundle(bundle);
        match self.index_of(hash_ref.as_slice()) {
            Some(i) => {
                self.entries.set(i, (hash_ref, bundle));
                assert(self@ =~= old(self)@.update(i as int, (key, value)));
            },
            None => {
                self.entries.push((hash_ref, bundle));
                assert(self@ =~= old(self)@.push((key, value)));
            },
        }
    }
}

/// The crypto provider together with the KeyPackage storage.
pub struct Provider {
    /// The crypto and randomness provider.
    pub crypto: openmls_rust_crypto::RustCrypto,
    /// The KeyPackage storage.
    pub storage: KeyPackageStorage,
}

impl Provider {
    /// A provider with `crypto` and empty storage.
    pub fn new(crypto: openmls_rust_crypto::RustCrypto) -> (res: Provider)
        ensures
            res.crypto == crypto,
            res.storage@ == Seq::<(Seq<u8>, SpecStoredBundle)>::empty(),
    {
        Provider { crypto, storage: KeyPackageStorage::new() }
    }

    /// The crypto provider.
    pub fn crypto(&self) -> (res: &openmls_rust_crypto::RustCrypto)
        ensures
            *res == self.crypto,
    {
        &self.crypto
    }

    /// The KeyPackage storage.
    pub fn storage(&self) -> (res: &KeyPackageStorage)
        ensures
            res@ == self.storage@,
    {
        &self.storage
    }
}

/// Writing under a key and then reading that key gives back what was written.
pub proof fn lemma_storage_read_after_write(s: Seq<(Seq<u8>, SpecStoredBundle)>, key: Seq<u8>, value: SpecStoredBundle)
    ensures
        storage_lookup(storage_write(s, key, value), key) == Some(value),
{
    lemma_storage_index(s, key);
    let w = storage_write(s, key, value);
    match storage_index(s, key) {
        Some(i) => {
            assert forall|j: int| 0 <= j < i implies #[trigger] w[j].0 != key by {
                assert(w[j] == s[j]);
            }
            lemma_storage_index_is(w, key, i);
        },
        None => {
            assert forall|j: int| 0 <= j < s.len() implies #[trigger] w[j].0 != key by {
                assert(w[j] == s[j]);
            }
            lemma_storage_index_is(w, key, s.len() as int);
        },
    }
}

} // verus!
