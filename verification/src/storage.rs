//! Airdrop storage functions.
//!
//! A [`Storage`] is one snapshot of the key-value store, held as plain
//! values: the state before a transaction, or the state after it.

use vstd::prelude::*;
use crate::encoding::to_bytes;
use crate::zkproof::{spec_scheme_tag, SaplingConfiguration, SaplingConfigurationView};
use crate::storage_key::{
    airdrop_nullifier_key, sapling_note_commitment_root_key, sapling_nullifier_gap_root_key,
    sapling_value_commitment_scheme_key, sapling_verifying_key, spec_airdrop_nullifier_key,
    spec_sapling_key, Key, KeyView, NOTE_COMMITMENT_ROOT_KEY, NULLIFIER_GAP_ROOT_KEY,
    VALUE_COMMITMENT_SCHEME_KEY, VERIFYING_KEY_KEY,
};

verus! {

/// Mathematical model of a [`Storage`]: the value recorded under each key.
pub type StorageView = Map<KeyView, Seq<u8>>;

/// One write: a key and the value recorded under it.
struct Entry {
    key: Key,
    value: Vec<u8>,
}

/// A snapshot of the key-value store.
///
/// Writes are kept in the order in which they were made; where a key was
/// written more than once, the latest write is the one that counts.
pub struct Storage {
    entries: Vec<Entry>,
}

/// The map that a sequence of writes leaves behind.
pub closed spec fn writes_view(writes: Seq<(KeyView, Seq<u8>)>) -> StorageView
    decreases writes.len(),
{
    if writes.len() == 0 {
        Map::empty()
    } else {
        writes_view(writes.drop_last()).insert(writes.last().0, writes.last().1)
    }
}

/// Where `key` was last written at `at` and by no later write, the map holds
/// what that write recorded.
proof fn lemma_last_write_wins(writes: Seq<(KeyView, Seq<u8>)>, key: KeyView, at: int)
    requires
        0 <= at < writes.len(),
        writes[at].0 == key,
        forall|j: int| at < j < writes.len() ==> writes[j].0 != key,
    ensures
        writes_view(writes).dom().contains(key),
        writes_view(writes)[key] == writes[at].1,
    decreases writes.len(),
{
    if at < writes.len() - 1 {
        lemma_last_write_wins(writes.drop_last(), key, at);
    }
}

/// A key that no write names is not in the map.
proof fn lemma_never_written(writes: Seq<(KeyView, Seq<u8>)>, key: KeyView)
    requires
        forall|j: int| 0 <= j < writes.len() ==> writes[j].0 != key,
    ensures
        !writes_view(writes).dom().contains(key),
    decreases writes.len(),
{
    if writes.len() > 0 {
        lemma_never_written(writes.drop_last(), key);
    }
}

impl Storage {
    /// The writes held, as plain values.
    closed spec fn writes(&self) -> Seq<(KeyView, Seq<u8>)> {
        Seq::new(
            self.entries@.len(),
            |i: int| (self.entries@[i].key@, self.entries@[i].value@),
        )
    }
}

impl View for Storage {
    type V = StorageView;

    closed spec fn view(&self) -> StorageView {
        writes_view(self.writes())
    }
}

impl Storage {
    /// A store with nothing in it.
    pub fn new() -> (storage: Storage)
        ensures
            storage@ == Map::<KeyView, Seq<u8>>::empty(),
    {
        Storage { entries: Vec::new() }
    }

    /// The place of the write that decides `key`, if the key was written.
    fn find(&self, key: &Key) -> (at: Option<usize>)
        ensures
            match at {
                Some(i) => i < self.entries@.len() && self@.dom().contains(key@) && self@[key@]
                    == self.entries@[i as int].value@,
                None => !self@.dom().contains(key@),
            },
    {
        let mut i: usize = self.entries.len();
        while i > 0
            invariant
                i <= self.entries@.len(),
                forall|j: int| i <= j < self.entries@.len() ==> self.writes()[j].0 != key@,
            decreases i,
        {
            i -= 1;
            if self.entries[i].key.same(key) {
                proof {
                    lemma_last_write_wins(self.writes(), key@, i as int);
                }
                return Some(i);
            }
        }
        proof {
            lemma_never_written(self.writes(), key@);
        }
        None
    }

    /// Whether a record exists under `key`.
    pub fn has_key(&self, key: &Key) -> (b: bool)
        ensures
            b == self@.dom().contains(key@),
    {
        self.find(key).is_some()
    }

    /// The value recorded under `key`, if there is one.
    pub fn read_bytes(&self, key: &Key) -> (value: Option<Vec<u8>>)
        ensures
            match value {
                Some(bytes) => self@.dom().contains(key@) && bytes@ == self@[key@],
                None => !self@.dom().contains(key@),
            },
    {
        match self.find(key) {
            Some(i) => Some(self.entries[i].value.clone()),
            None => None,
        }
    }

    /// Records `value` under `key`, in place of what was there.
    pub fn write_bytes(&mut self, key: Key, value: Vec<u8>)
        ensures
            final(self)@ == old(self)@.insert(key@, value@),
    {
        let ghost before = self.writes();
        self.entries.push(Entry { key, value });
        assert(self.writes().drop_last() =~= before);
    }
}

impl Clone for Storage {
    fn clone(&self) -> (copy: Storage)
        ensures
            copy@ == self@,
    {
        let n = self.entries.len();
        let mut entries: Vec<Entry> = Vec::new();
        let mut i: usize = 0;
        while i < n
            invariant
                n == self.entries@.len(),
                i <= n,
                entries@.len() == i,
                forall|j: int|
                    0 <= j < i ==> entries@[j].key@ == self.entries@[j].key@ && entries@[j].value@
                        == self.entries@[j].value@,
            decreases n - i,
        {
            entries.push(
                Entry { key: self.entries[i].key.clone(), value: self.entries[i].value.clone() },
            );
            i += 1;
        }
        let copy = Storage { entries };
        assert(copy.writes() =~= self.writes());
        copy
    }
}

/// The state that recording the sapling parameters leaves behind: the
/// verifying key and the two roots as they are, and the scheme as its tag
/// byte, each under its own key.
pub open spec fn spec_init_storage(
    storage: StorageView,
    config: SaplingConfigurationView,
) -> StorageView {
    storage.insert(spec_sapling_key(VERIFYING_KEY_KEY@), config.verifying_key).insert(
        spec_sapling_key(NOTE_COMMITMENT_ROOT_KEY@),
        config.note_commitment_root,
    ).insert(spec_sapling_key(NULLIFIER_GAP_ROOT_KEY@), config.nullifier_gap_root).insert(
        spec_sapling_key(VALUE_COMMITMENT_SCHEME_KEY@),
        seq![spec_scheme_tag(config.value_commitment_scheme)],
    )
}

/// Initialize airdrop sapling configuration: records the verifying key, the
/// note commitment root, the nullifier gap root and the value commitment
/// scheme in `storage`.
pub fn init_storage(storage: &mut Storage, config: SaplingConfiguration)
    ensures
        final(storage)@ == spec_init_storage(old(storage)@, config@),
{
    let note_commitment_root = to_bytes(&config.note_commitment_root);
    let nullifier_gap_root = to_bytes(&config.nullifier_gap_root);
    let scheme = vec![config.value_commitment_scheme.tag()];
    assert(scheme@ =~= seq![spec_scheme_tag(config.value_commitment_scheme)]);
    // Write verifying key.
    storage.write_bytes(sapling_verifying_key(), config.verifying_key);
    // Write note commitment root.
    storage.write_bytes(sapling_note_commitment_root_key(), note_commitment_root);
    // Write nullifier gap root.
    storage.write_bytes(sapling_nullifier_gap_root_key(), nullifier_gap_root);
    // Write value commitment scheme
    storage.write_bytes(sapling_value_commitment_scheme_key(), scheme);
}

/// Writes a nullifier to storage: an empty value under the nullifier's key.
pub fn reveal_nullifier(storage: &mut Storage, nullifier: &[u8; 32])
    ensures
        final(storage)@ == old(storage)@.insert(
            spec_airdrop_nullifier_key(nullifier@),
            Seq::<u8>::empty(),
        ),
{
    storage.write_bytes(airdrop_nullifier_key(nullifier), Vec::new());
}

/// Checks if a nullifier has already been revealed.
pub fn is_nullifier_revealed(storage: &Storage, nullifier: &[u8; 32]) -> (b: bool)
    ensures
        b == storage@.dom().contains(spec_airdrop_nullifier_key(nullifier@)),
{
    let key = airdrop_nullifier_key(nullifier);
    storage.has_key(&key)
}

} // verus!
