//! The per-request, token-keyed store of configuration carriers.
//!
//! The host framework attaches a bag of typed extension values to each
//! request. The library models that bag as an explicit small map from a
//! stable identifier token to a carried value: the token stands for the
//! type identity under which a carrier is installed, and insertion refuses
//! a token that is already present instead of overwriting it.

use vstd::prelude::*;

verus! {

/// The map held by a sequence of key-value entries; later entries shadow
/// earlier ones, though a well-formed store never has two entries with one
/// key.
pub open spec fn entries_map<C>(entries: Seq<(u64, C)>) -> Map<u64, C>
    decreases entries.len(),
{
    if entries.len() == 0 {
        Map::empty()
    } else {
        entries_map(entries.drop_last()).insert(entries.last().0, entries.last().1)
    }
}

/// A key is in the map exactly when some entry carries it.
proof fn lemma_entries_map_contains<C>(entries: Seq<(u64, C)>, key: u64)
    ensures
        entries_map(entries).contains_key(key) <==> exists|i: int|
            0 <= i < entries.len() && (#[trigger] entries[i]).0 == key,
    decreases entries.len(),
{
    if entries.len() > 0 {
        lemma_entries_map_contains(entries.drop_last(), key);
        if entries.last().0 == key {
            assert(entries[entries.len() - 1].0 == key);
        } else if entries_map(entries).contains_key(key) {
            let i = choose|i: int|
                0 <= i < entries.drop_last().len() && (#[trigger] entries.drop_last()[i]).0 == key;
            assert(entries[i].0 == key);
        } else {
            assert(forall|i: int|
                0 <= i < entries.drop_last().len() ==> (#[trigger] entries.drop_last()[i]).0
                    != key);
            assert(forall|i: int| 0 <= i < entries.len() - 1 ==> (#[trigger] entries[i]).0 != key)
                by {
                assert(forall|i: int|
                    0 <= i < entries.len() - 1 ==> entries[i] == entries.drop_last()[i]);
            }
        }
    }
}

/// With no duplicate keys, the map sends a key to the value of the one entry
/// that carries it.
proof fn lemma_entries_map_value<C>(entries: Seq<(u64, C)>, key: u64, i: int)
    requires
        0 <= i < entries.len(),
        entries[i].0 == key,
        forall|p: int, q: int|
            0 <= p < q < entries.len() ==> (#[trigger] entries[p]).0 != (#[trigger] entries[q]).0,
    ensures
        entries_map(entries).contains_key(key),
        entries_map(entries)[key] == entries[i].1,
    decreases entries.len(),
{
    if i == entries.len() - 1 {
    } else {
        assert(entries[i].0 != entries[entries.len() - 1].0);
        assert(entries.drop_last()[i] == entries[i]);
        lemma_entries_map_value(entries.drop_last(), key, i);
    }
}

/// The per-request store: one carried value per identifier token.
pub struct Extensions<C> {
    entries: Vec<(u64, C)>,
}

impl<C> View for Extensions<C> {
    type V = Map<u64, C>;

    closed spec fn view(&self) -> Map<u64, C> {
        entries_map(self.entries@)
    }
}

impl<C> Extensions<C> {
    /// The entries as stored, for stating well-formedness.
    pub closed spec fn entries_seq(&self) -> Seq<(u64, C)> {
        self.entries@
    }

    /// No two entries carry one token.
    pub open spec fn well_formed(&self) -> bool {
        forall|p: int, q: int|
            0 <= p < q < self.entries_seq().len() ==> (#[trigger] self.entries_seq()[p]).0 != (
            #[trigger] self.entries_seq()[q]).0
    }

    /// An empty store.
    pub fn new() -> (store: Self)
        ensures
            store.well_formed(),
            store@ == Map::<u64, C>::empty(),
    {
        Extensions { entries: Vec::new() }
    }

    /// Look up the value installed under a token.
    pub fn get(&self, key: u64) -> (found: Option<&C>)
        requires
            self.well_formed(),
        ensures
            match found {
                Some(value) => self@.contains_key(key) && *value == self@[key],
                None => !self@.contains_key(key),
            },
    {
        let n = self.entries.len();
        let mut i: usize = 0;
        while i < n
            invariant
                self.well_formed(),
                n == self.entries_seq().len(),
                0 <= i <= n,
                forall|j: int| 0 <= j < i ==> (#[trigger] self.entries_seq()[j]).0 != key,
            decreases n - i,
        {
            if self.entries[i].0 == key {
                proof {
                    lemma_entries_map_value(self.entries@, key, i as int);
                }
                return Some(&self.entries[i].1);
            }
            i += 1;
        }
        proof {
            lemma_entries_map_contains(self.entries@, key);
        }
        None
    }

    /// Whether a value is installed under a token.
    pub fn contains_key(&self, key: u64) -> (present: bool)
        requires
            self.well_formed(),
        ensures
            present == self@.contains_key(key),
    {
        self.get(key).is_some()
    }

    /// Install a value under a token. A token that is already present is a
    /// caller error: the store is left unchanged and the call reports the
    /// refusal instead of overwriting.
    pub fn insert(&mut self, key: u64, value: C) -> (installed: bool)
        requires
            old(self).well_formed(),
        ensures
            final(self).well_formed(),
            old(self)@.contains_key(key) ==> !installed && final(self)@ == old(self)@
                && final(self).entries_seq() == old(self).entries_seq(),
            !old(self)@.contains_key(key) ==> installed
                && final(self)@ == old(self)@.insert(key, value),
    {
        if self.contains_key(key) {
            false
        } else {
            proof {
                lemma_entries_map_contains(self.entries@, key);
            }
            self.entries.push((key, value));
            proof {
                assert(self.entries@.drop_last() =~= old(self).entries@);
                assert(self@ =~= old(self)@.insert(key, value));
                assert forall|p: int, q: int|
                    0 <= p < q < self.entries_seq().len() implies (
                #[trigger] self.entries_seq()[p]).0 != (#[trigger] self.entries_seq()[q]).0 by {
                    if q < self.entries_seq().len() - 1 {
                        assert(self.entries_seq()[p] == old(self).entries_seq()[p]);
                        assert(self.entries_seq()[q] == old(self).entries_seq()[q]);
                    } else {
                        assert(self.entries_seq()[p] == old(self).entries_seq()[p]);
                        assert(old(self).entries_seq()[p].0 != key);
                    }
                }
            }
            true
        }
    }
}

} // verus!
