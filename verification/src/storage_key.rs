//! Airdrop storage keys.
//!
//! Every key of the module starts with the module's own address. Nullifier
//! records live under `nullifiers/<hex of the nullifier>`, the four sapling
//! parameters under `sapling/<name>`.

use vstd::prelude::*;
use crate::address::{Address, AddressView};
use crate::encoding::{hex_encode, hex_encoding, lemma_hex_encoding_injective};

verus! {

/// Key segment prefix for the airdrop nullifiers.
pub const AIRDROP_NULLIFIERS_KEY: &'static str = "nullifiers";

/// Key segment prefix for sapling configuration.
pub const AIRDROP_SAPLING_KEY: &'static str = "sapling";

/// Key segment for verifying key.
pub const VERIFYING_KEY_KEY: &'static str = "verifying_key";

/// Key segment for note commitment root.
pub const NOTE_COMMITMENT_ROOT_KEY: &'static str = "note_commitment_root";

/// Key segment for nullifier gap root.
pub const NULLIFIER_GAP_ROOT_KEY: &'static str = "nullifier_gap_root";

/// Key segment for value commitment scheme.
pub const VALUE_COMMITMENT_SCHEME_KEY: &'static str = "value_commitment_scheme";

/// Mathematical model of a [`DbKeySeg`].
pub enum KeySegView {
    /// An address segment.
    AddressSeg(AddressView),
    /// A text segment, by its characters.
    StringSeg(Seq<char>),
}

/// Mathematical model of a [`Key`]: its segments in order.
pub type KeyView = Seq<KeySegView>;

/// One segment of a storage key.
#[derive(Debug, PartialEq, Eq)]
pub enum DbKeySeg {
    /// An address.
    AddressSeg(Address),
    /// Free text.
    StringSeg(String),
}

impl View for DbKeySeg {
    type V = KeySegView;

    open spec fn view(&self) -> KeySegView {
        match self {
            DbKeySeg::AddressSeg(a) => KeySegView::AddressSeg(a@),
            DbKeySeg::StringSeg(s) => KeySegView::StringSeg(s@),
        }
    }
}

impl DbKeySeg {
    /// Whether `self` and `other` are the same segment.
    pub fn same(&self, other: &DbKeySeg) -> (b: bool)
        ensures
            b == (self@ == other@),
    {
        match (self, other) {
            (DbKeySeg::AddressSeg(a), DbKeySeg::AddressSeg(b)) => a.same(b),
            (DbKeySeg::StringSeg(a), DbKeySeg::StringSeg(b)) => *a == *b,
            _ => false,
        }
    }
}

impl Clone for DbKeySeg {
    fn clone(&self) -> (r: DbKeySeg)
        ensures
            r@ == self@,
    {
        match self {
            DbKeySeg::AddressSeg(a) => DbKeySeg::AddressSeg(a.clone()),
            DbKeySeg::StringSeg(s) => DbKeySeg::StringSeg(s.clone()),
        }
    }
}

/// A namespaced storage key: a path of segments.
#[derive(Debug, PartialEq, Eq)]
pub struct Key {
    /// The segments, outermost first.
    pub segments: Vec<DbKeySeg>,
}

impl View for Key {
    type V = KeyView;

    open spec fn view(&self) -> KeyView {
        Seq::new(self.segments@.len(), |i: int| self.segments@[i]@)
    }
}

impl Key {
    /// Whether `self` and `other` are the same key.
    pub fn same(&self, other: &Key) -> (b: bool)
        ensures
            b == (self@ == other@),
    {
        if self.segments.len() != other.segments.len() {
            assert(self@.len() != other@.len());
            return false;
        }
        let n = self.segments.len();
        let mut i: usize = 0;
        while i < n
            invariant
                n == self.segments@.len(),
                n == other.segments@.len(),
                i <= n,
                forall|j: int| 0 <= j < i ==> self@[j] == other@[j],
            decreases n - i,
        {
            if !self.segments[i].same(&other.segments[i]) {
                assert(self@[i as int] != other@[i as int]);
                return false;
            }
            i += 1;
        }
        assert(self@ =~= other@);
        true
    }
}

impl Clone for Key {
    fn clone(&self) -> (r: Key)
        ensures
            r@ == self@,
    {
        let n = self.segments.len();
        let mut segments: Vec<DbKeySeg> = Vec::new();
        let mut i: usize = 0;
        while i < n
            invariant
                n == self.segments@.len(),
                i <= n,
                segments@.len() == i,
                forall|j: int| 0 <= j < i ==> segments@[j]@ == self.segments@[j]@,
            decreases n - i,
        {
            segments.push(self.segments[i].clone());
            i += 1;
        }
        Key { segments }
    }
}

/// The key under which the nullifier `nullifier` is recorded.
pub open spec fn spec_airdrop_nullifier_key(nullifier: Seq<u8>) -> KeyView {
    seq![
        KeySegView::AddressSeg(AddressView::Airdrop),
        KeySegView::StringSeg(AIRDROP_NULLIFIERS_KEY@),
        KeySegView::StringSeg(hex_encoding(nullifier)),
    ]
}

/// Whether `key` has the shape of a nullifier key of this module: exactly
/// three segments, of which the first is the module's address and the second
/// the nullifiers prefix. The third may be anything: it is not looked at.
pub open spec fn spec_is_airdrop_nullifier_key(key: KeyView) -> bool {
    &&& key.len() == 3
    &&& key[0] == KeySegView::AddressSeg(AddressView::Airdrop)
    &&& key[1] == KeySegView::StringSeg(AIRDROP_NULLIFIERS_KEY@)
}

/// The key of the sapling parameter called `name`.
pub open spec fn spec_sapling_key(name: Seq<char>) -> KeyView {
    seq![
        KeySegView::AddressSeg(AddressView::Airdrop),
        KeySegView::StringSeg(AIRDROP_SAPLING_KEY@),
        KeySegView::StringSeg(name),
    ]
}

/// Returns whether the given storage key is an airdrop nullifier key.
pub fn is_airdrop_nullifier_key(key: &Key) -> (b: bool)
    ensures
        b == spec_is_airdrop_nullifier_key(key@),
{
    if key.segments.len() != 3 {
        return false;
    }
    let prefix = AIRDROP_NULLIFIERS_KEY.to_owned();
    match (&key.segments[0], &key.segments[1]) {
        (DbKeySeg::AddressSeg(addr), DbKeySeg::StringSeg(p)) => {
            addr.same(&Address::Airdrop) && *p == prefix
        },
        _ => false,
    }
}

/// Gets a key for the airdrop nullifier storage.
pub fn airdrop_nullifier_key(nullifier: &[u8; 32]) -> (key: Key)
    ensures
        key@ == spec_airdrop_nullifier_key(nullifier@),
{
    Key {
        segments: vec![
            DbKeySeg::AddressSeg(Address::Airdrop),
            DbKeySeg::StringSeg(AIRDROP_NULLIFIERS_KEY.to_owned()),
            DbKeySeg::StringSeg(hex_encode(nullifier.as_slice())),
        ],
    }
}

/// The key of the sapling parameter called `name`.
fn sapling_key(name: &str) -> (key: Key)
    ensures
        key@ == spec_sapling_key(name@),
{
    Key {
        segments: vec![
            DbKeySeg::AddressSeg(Address::Airdrop),
            DbKeySeg::StringSeg(AIRDROP_SAPLING_KEY.to_owned()),
            DbKeySeg::StringSeg(name.to_owned()),
        ],
    }
}

/// Gets a key for the Sapling verifying key storage.
pub fn sapling_verifying_key() -> (key: Key)
    ensures
        key@ == spec_sapling_key(VERIFYING_KEY_KEY@),
{
    sapling_key(VERIFYING_KEY_KEY)
}

/// Gets a key for the Sapling note commitment root storage.
pub fn sapling_note_commitment_root_key() -> (key: Key)
    ensures
        key@ == spec_sapling_key(NOTE_COMMITMENT_ROOT_KEY@),
{
    sapling_key(NOTE_COMMITMENT_ROOT_KEY)
}

/// Gets a key for the Sapling nullifier gap root storage.
pub fn sapling_nullifier_gap_root_key() -> (key: Key)
    ensures
        key@ == spec_sapling_key(NULLIFIER_GAP_ROOT_KEY@),
{
    sapling_key(NULLIFIER_GAP_ROOT_KEY)
}

/// Gets a key for the Sapling value commitment scheme storage.
pub fn sapling_value_commitment_scheme_key() -> (key: Key)
    ensures
        key@ == spec_sapling_key(VALUE_COMMITMENT_SCHEME_KEY@),
{
    sapling_key(VALUE_COMMITMENT_SCHEME_KEY)
}

/// The key of a nullifier has the shape of a nullifier key.
pub proof fn lemma_nullifier_key_shape(nullifier: Seq<u8>)
    ensures
        spec_is_airdrop_nullifier_key(spec_airdrop_nullifier_key(nullifier)),
{
}

/// Different nullifiers never share a key.
pub proof fn lemma_nullifier_key_injective(a: Seq<u8>, b: Seq<u8>)
    requires
        spec_airdrop_nullifier_key(a) == spec_airdrop_nullifier_key(b),
    ensures
        a == b,
{
    assert(spec_airdrop_nullifier_key(a)[2] == spec_airdrop_nullifier_key(b)[2]);
    lemma_hex_encoding_injective(a, b);
}

/// No sapling parameter lives in the nullifier namespace, whatever its name.
pub proof fn lemma_sapling_key_is_no_nullifier_key(name: Seq<char>)
    ensures
        !spec_is_airdrop_nullifier_key(spec_sapling_key(name)),
{
    reveal_strlit("nullifiers");
    reveal_strlit("sapling");
    assert(AIRDROP_NULLIFIERS_KEY@.len() != AIRDROP_SAPLING_KEY@.len());
}

/// The four sapling parameters have four different keys.
pub proof fn lemma_sapling_keys_distinct()
    ensures
        spec_sapling_key(VERIFYING_KEY_KEY@) != spec_sapling_key(NOTE_COMMITMENT_ROOT_KEY@),
        spec_sapling_key(VERIFYING_KEY_KEY@) != spec_sapling_key(NULLIFIER_GAP_ROOT_KEY@),
        spec_sapling_key(VERIFYING_KEY_KEY@) != spec_sapling_key(VALUE_COMMITMENT_SCHEME_KEY@),
        spec_sapling_key(NOTE_COMMITMENT_ROOT_KEY@) != spec_sapling_key(NULLIFIER_GAP_ROOT_KEY@),
        spec_sapling_key(NOTE_COMMITMENT_ROOT_KEY@) != spec_sapling_key(
            VALUE_COMMITMENT_SCHEME_KEY@,
        ),
        spec_sapling_key(NULLIFIER_GAP_ROOT_KEY@) != spec_sapling_key(VALUE_COMMITMENT_SCHEME_KEY@),
{
    reveal_strlit("verifying_key");
    reveal_strlit("note_commitment_root");
    reveal_strlit("nullifier_gap_root");
    reveal_strlit("value_commitment_scheme");
    let vk = spec_sapling_key(VERIFYING_KEY_KEY@);
    let ncr = spec_sapling_key(NOTE_COMMITMENT_ROOT_KEY@);
    let ngr = spec_sapling_key(NULLIFIER_GAP_ROOT_KEY@);
    let vcs = spec_sapling_key(VALUE_COMMITMENT_SCHEME_KEY@);
    assert(vk[2]->StringSeg_0.len() == 13);
    assert(ncr[2]->StringSeg_0.len() == 20);
    assert(ngr[2]->StringSeg_0.len() == 18);
    assert(vcs[2]->StringSeg_0.len() == 23);
}

} // verus!
