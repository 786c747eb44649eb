//! A small number-keyed table with map semantics: a later insert for a key
//! shadows an earlier one, and lookups return the latest value.

use vstd::prelude::*;

verus! {

/// An append-only association table from block numbers to values, read as a
/// [`Map`] in specifications.
#[derive(Debug)]
pub struct KeyedList<V> {
    /// The entries, oldest first; a later entry for a key shadows an earlier one.
    pub entries: Vec<(u64, V)>,
}

/// The map a sequence of entries denotes: each entry inserted in order.
pub open spec fn entries_map<V: View>(s: Seq<(u64, V)>) -> Map<u64, <V as View>::V>
    decreases s.len(),
{
    if s.len() == 0 {
        Map::empty()
    } else {
        entries_map(s.drop_last()).insert(s.last().0, s.last().1@)
    }
}

impl<V: View> View for KeyedList<V> {
    type V = Map<u64, <V as View>::V>;

    open spec fn view(&self) -> Map<u64, <V as View>::V> {
        entries_map(self.entries@)
    }
}

/// Entries after `i` never mention `key`, so the whole table agrees with its
/// first `i` entries on `key`.
proof fn lemma_entries_map_prefix<V: View>(s: Seq<(u64, V)>, i: int, key: u64)
    requires
        0 <= i <= s.len(),
        forall|j: int| i <= j < s.len() ==> (#[trigger] s[j]).0 != key,
    ensures
        entries_map(s).contains_key(key) == entries_map(s.take(i)).contains_key(key),
        entries_map(s).contains_key(key) ==> entries_map(s)[key] == entries_map(s.take(i))[key],
    decreases s.len() - i,
{
    if i == s.len() {
        assert(s.take(i) == s);
    } else {
        lemma_entries_map_prefix(s, i + 1, key);
        let t = s.take(i + 1);
        assert(t.drop_last() =~= s.take(i));
        assert(t.last() == s[i]);
        assert(entries_map(s.take(i + 1)) == entries_map(s.take(i)).insert(s[i].0, s[i].1@));
    }
}

impl<V: View> KeyedList<V> {
    /// An empty table.
    pub fn new() -> (r: Self)
        ensures
            r@ == Map::<u64, <V as View>::V>::empty(),
    {
        KeyedList { entries: Vec::new() }
    }

    /// Inserts `value` under `key`, shadowing any earlier entry.
    pub fn insert(&mut self, key: u64, value: V)
        ensures
            final(self)@ == old(self)@.insert(key, value@),
    {
        let ghost old_entries = self.entries@;
        self.entries.push((key, value));
        proof {
            assert(self.entries@.drop_last() =~= old_entries);
        }
    }

    /// Looks `key` up, returning the latest value inserted under it.
    pub fn get(&self, key: u64) -> (r: Option<&V>)
        ensures
            match r {
                Some(v) => self@.contains_key(key) && v@ == self@[key],
                None => !self@.contains_key(key),
            },
    {
        let mut i: usize = self.entries.len();
        while i > 0
            invariant
                i <= self.entries.len(),
                forall|j: int| i <= j < self.entries@.len() ==> (#[trigger] self.entries@[j]).0
                    != key,
            decreases i,
        {
            i = i - 1;
            if self.entries[i].0 == key {
                proof {
                    lemma_entries_map_prefix(self.entries@, i + 1, key);
                    let t = self.entries@.take(i + 1);
                    assert(t.drop_last() =~= self.entries@.take(i as int));
                    assert(t.last() == self.entries@[i as int]);
                }
                return Some(&self.entries[i].1);
            }
        }
        proof {
            lemma_entries_map_prefix(self.entries@, 0, key);
            assert(self.entries@.take(0) =~= Seq::<(u64, V)>::empty());
        }
        None
    }
}

} // verus!
