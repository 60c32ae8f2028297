//! The storage block: a two-level (section, name) namespace of typed values.
//!
//! A [`DataBlock`] is viewed as a finite map from (section, name) pairs —
//! each a sequence of characters — to [`ValueView`]s.  Internally it keeps
//! one entry per pair, with pairs kept distinct as a type invariant, so the
//! map view determines the behaviour of every operation.

use vstd::prelude::*;
use crate::value::Value;
use crate::value::ValueView;
use crate::value::datablock_type_t;
use crate::value::tag_of;

verus! {

/// One stored binding: a (section, name) pair and its tagged value.
struct Entry {
    section: String,
    name: String,
    value: Value,
}

impl Entry {
    /// The (section, name) pair under which this entry is stored.
    spec fn key(&self) -> (Seq<char>, Seq<char>) {
        (self.section@, self.name@)
    }
}

/// The map from (section, name) pairs to values that a sequence of entries
/// holds, later entries shadowing earlier ones with the same pair.
spec fn entries_map(s: Seq<Entry>) -> Map<(Seq<char>, Seq<char>), ValueView>
    decreases s.len(),
{
    if s.len() == 0 {
        Map::empty()
    } else {
        entries_map(s.drop_last()).insert(s.last().key(), s.last().value@)
    }
}

/// No two entries share a (section, name) pair.
spec fn keys_distinct(s: Seq<Entry>) -> bool {
    forall|i: int, j: int|
        #![trigger s[i].key(), s[j].key()]
        0 <= i < j < s.len() ==> s[i].key() != s[j].key()
}

/// A pair is in the map exactly when some entry carries it.
proof fn lemma_entries_map_dom(s: Seq<Entry>)
    ensures
        forall|k: (Seq<char>, Seq<char>)| #[trigger]
            entries_map(s).contains_key(k) <==> (exists|i: int|
                0 <= i < s.len() && #[trigger] s[i].key() == k),
    decreases s.len(),
{
    if s.len() > 0 {
        let s0 = s.drop_last();
        lemma_entries_map_dom(s0);
        assert forall|k: (Seq<char>, Seq<char>)| #[trigger]
            entries_map(s).contains_key(k) implies (exists|i: int|
            0 <= i < s.len() && #[trigger] s[i].key() == k) by {
            if k == s.last().key() {
                assert(s[s.len() - 1].key() == k);
            } else {
                assert(entries_map(s0).contains_key(k));
                let i = choose|i: int| 0 <= i < s0.len() && #[trigger] s0[i].key() == k;
                assert(s[i] == s0[i]);
                assert(s[i].key() == k);
            }
        }
        assert forall|k: (Seq<char>, Seq<char>)|
            (exists|i: int| 0 <= i < s.len() && #[trigger] s[i].key() == k) implies #[trigger]
            entries_map(s).contains_key(k) by {
            let i = choose|i: int| 0 <= i < s.len() && #[trigger] s[i].key() == k;
            if i < s.len() - 1 {
                assert(s0[i] == s[i]);
                assert(s0[i].key() == k);
                assert(entries_map(s0).contains_key(k));
            } else {
                assert(k == s.last().key());
            }
        }
    }
}

/// With distinct pairs, the map sends each entry's pair to that entry's value.
proof fn lemma_entries_map_get(s: Seq<Entry>, i: int)
    requires
        keys_distinct(s),
        0 <= i < s.len(),
    ensures
        entries_map(s).contains_key(s[i].key()),
        entries_map(s)[s[i].key()] == s[i].value@,
    decreases s.len(),
{
    if i == s.len() - 1 {
    } else {
        assert(keys_distinct(s.drop_last()));
        lemma_entries_map_get(s.drop_last(), i);
        assert(s.drop_last()[i].key() == s[i].key());
        assert(s[i].key() != s[s.len() - 1].key());
    }
}

/// Appending an entry inserts its binding into the map.
proof fn lemma_entries_map_push(s: Seq<Entry>, e: Entry)
    ensures
        entries_map(s.push(e)) == entries_map(s).insert(e.key(), e.value@),
{
    assert(s.push(e).drop_last() =~= s);
    assert(s.push(e).last() == e);
}

/// Replacing the entry at one position, keeping its pair, updates that
/// pair's binding and nothing else.
proof fn lemma_entries_map_update(s: Seq<Entry>, i: int, e: Entry)
    requires
        keys_distinct(s),
        0 <= i < s.len(),
        e.key() == s[i].key(),
    ensures
        entries_map(s.update(i, e)) == entries_map(s).insert(e.key(), e.value@),
    decreases s.len(),
{
    let s2 = s.update(i, e);
    if i == s.len() - 1 {
        assert(s2.drop_last() =~= s.drop_last());
        assert(s2.last() == e);
        assert(entries_map(s2) == entries_map(s.drop_last()).insert(e.key(), e.value@));
        assert(entries_map(s).insert(e.key(), e.value@) =~= entries_map(s.drop_last()).insert(
            e.key(),
            e.value@,
        ));
    } else {
        let last = s.last();
        assert(s2.drop_last() =~= s.drop_last().update(i, e));
        assert(s2.last() == last);
        assert(keys_distinct(s.drop_last()));
        assert(s.drop_last()[i].key() == s[i].key());
        lemma_entries_map_update(s.drop_last(), i, e);
        assert(entries_map(s2) == entries_map(s.drop_last()).insert(e.key(), e.value@).insert(
            last.key(),
            last.value@,
        ));
        assert(e.key() != last.key()) by {
            assert(s[i].key() != s[s.len() - 1].key());
        }
        assert(entries_map(s.drop_last()).insert(e.key(), e.value@).insert(last.key(), last.value@)
            =~= entries_map(s.drop_last()).insert(last.key(), last.value@).insert(
            e.key(),
            e.value@,
        ));
    }
}

/// Two entry sequences that agree pointwise on pairs and value views yield
/// the same map.
proof fn lemma_entries_map_congruent(s1: Seq<Entry>, s2: Seq<Entry>)
    requires
        s1.len() == s2.len(),
        forall|i: int|
            0 <= i < s1.len() ==> #[trigger] s1[i].key() == s2[i].key() && s1[i].value@
                == s2[i].value@,
    ensures
        entries_map(s1) == entries_map(s2),
    decreases s1.len(),
{
    if s1.len() > 0 {
        assert(forall|i: int|
            0 <= i < s1.drop_last().len() ==> #[trigger] s1.drop_last()[i].key()
                == s2.drop_last()[i].key() && s1.drop_last()[i].value@
                == s2.drop_last()[i].value@) by {
            assert(forall|i: int|
                0 <= i < s1.len() - 1 ==> s1.drop_last()[i] == s1[i] && s2.drop_last()[i]
                    == #[trigger] s2[i]);
        }
        lemma_entries_map_congruent(s1.drop_last(), s2.drop_last());
        assert(s1.last().key() == s2.last().key() && s1.last().value@ == s2.last().value@) by {
            assert(s1[s1.len() - 1].key() == s2[s1.len() - 1].key() && s1[s1.len() - 1].value@
                == s2[s1.len() - 1].value@);
        }
    }
}

/// Storage block for typed values under a two-level namespace.  All input
/// parameters and outputs are passed through `DataBlock`s.
pub struct DataBlock {
    entries: Vec<Entry>,
}

impl View for DataBlock {
    type V = Map<(Seq<char>, Seq<char>), ValueView>;

    closed spec fn view(&self) -> Self::V {
        entries_map(self.entries@)
    }
}

impl DataBlock {
    /// Each (section, name) pair is held by at most one entry.
    #[verifier::type_invariant]
    spec fn wf(self) -> bool {
        keys_distinct(self.entries@)
    }

    /// An empty block.
    pub fn new() -> (r: Self)
        ensures
            r@ == Map::<(Seq<char>, Seq<char>), ValueView>::empty(),
    {
        DataBlock { entries: Vec::new() }
    }

    /// The position of the entry stored under (section, name), if any.
    fn find_index(&self, section: &str, name: &str) -> (r: Option<usize>)
        ensures
            match r {
                Some(i) => {
                    &&& i < self.entries@.len()
                    &&& self.entries@[i as int].key() == (section@, name@)
                    &&& self@.contains_key((section@, name@))
                    &&& self@[(section@, name@)] == self.entries@[i as int].value@
                },
                None => !self@.contains_key((section@, name@)),
            },
    {
        proof {
            use_type_invariant(&*self);
        }
        let sec: String = section.to_owned();
        let nam: String = name.to_owned();
        let n = self.entries.len();
        let mut i: usize = 0;
        while i < n
            invariant
                i <= n,
                n == self.entries@.len(),
                sec@ == section@,
                nam@ == name@,
                keys_distinct(self.entries@),
                forall|j: int| 0 <= j < i ==> #[trigger] self.entries@[j].key() != (section@, name@),
            decreases n - i,
        {
            let e = &self.entries[i];
            if e.section == sec && e.name == nam {
                proof {
                    lemma_entries_map_get(self.entries@, i as int);
                }
                return Some(i);
            }
            i += 1;
        }
        proof {
            lemma_entries_map_dom(self.entries@);
        }
        None
    }

    /// The value stored under (section, name), if any.
    pub(crate) fn lookup(&self, section: &str, name: &str) -> (r: Option<&Value>)
        ensures
            match r {
                Some(v) => self@.contains_key((section@, name@)) && self@[(section@, name@)]
                    == v@,
                None => !self@.contains_key((section@, name@)),
            },
    {
        match self.find_index(section, name) {
            Some(i) => Some(&self.entries[i].value),
            None => None,
        }
    }

    /// Store a value under a (section, name) pair not yet present; reports
    /// whether the pair was free, leaving the block unchanged if not.
    pub(crate) fn store_new(&mut self, section: &str, name: &str, value: Value) -> (r: bool)
        ensures
            r == !old(self)@.contains_key((section@, name@)),
            r ==> final(self)@ == old(self)@.insert((section@, name@), value@),
            !r ==> final(self)@ == old(self)@,
    {
        proof {
            use_type_invariant(&*self);
        }
        match self.find_index(section, name) {
            Some(_) => false,
            None => {
                proof {
                    lemma_entries_map_dom(self.entries@);
                }
                let e = Entry { section: section.to_owned(), name: name.to_owned(), value };
                let ghost old_entries = self.entries@;
                let mut entries: Vec<Entry> = Vec::new();
                core::mem::swap(&mut entries, &mut self.entries);
                entries.push(e);
                proof {
                    assert(keys_distinct(entries@)) by {
                        assert(forall|j: int|
                            0 <= j < old_entries.len() ==> #[trigger] entries@[j].key()
                                == old_entries[j].key());
                    }
                    lemma_entries_map_push(old_entries, e);
                }
                self.entries = entries;
                true
            },
        }
    }

    /// Replace the value stored under a (section, name) pair already
    /// present; reports whether the pair was present, leaving the block
    /// unchanged if not.
    pub(crate) fn replace_value(&mut self, section: &str, name: &str, value: Value) -> (r: bool)
        ensures
            r == old(self)@.contains_key((section@, name@)),
            r ==> final(self)@ == old(self)@.insert((section@, name@), value@),
            !r ==> final(self)@ == old(self)@,
    {
        proof {
            use_type_invariant(&*self);
        }
        match self.find_index(section, name) {
            Some(i) => {
                let ghost old_entries = self.entries@;
                let mut entries: Vec<Entry> = Vec::new();
                core::mem::swap(&mut entries, &mut self.entries);
                let mut e = entries.remove(i);
                e.value = value;
                proof {
                    assert(keys_distinct(entries@)) by {
                        assert(forall|a: int|
                            0 <= a < entries@.len() ==> #[trigger] entries@[a].key() == (if a
                                < i as int {
                                old_entries[a].key()
                            } else {
                                old_entries[a + 1].key()
                            }));
                    }
                }
                entries.insert(i, e);
                proof {
                    assert(entries@ =~= old_entries.update(i as int, e));
                    lemma_entries_map_update(old_entries, i as int, e);
                }
                self.entries = entries;
                true
            },
            None => false,
        }
    }

    /// Whether the block holds a value under (section, name).
    pub fn contains(&self, section: &str, name: &str) -> (b: bool)
        ensures
            b == self@.contains_key((section@, name@)),
    {
        match self.find_index(section, name) {
            Some(_) => true,
            None => false,
        }
    }

    /// Whether the block holds any value whose section is `section`.
    pub fn contains_section(&self, section: &str) -> (b: bool)
        ensures
            b == exists|n: Seq<char>| #[trigger] self@.contains_key((section@, n)),
    {
        proof {
            use_type_invariant(&*self);
        }
        let sec: String = section.to_owned();
        let n = self.entries.len();
        let mut i: usize = 0;
        while i < n
            invariant
                i <= n,
                n == self.entries@.len(),
                sec@ == section@,
                keys_distinct(self.entries@),
                forall|j: int| 0 <= j < i ==> #[trigger] self.entries@[j].section@ != section@,
            decreases n - i,
        {
            let e = &self.entries[i];
            if e.section == sec {
                proof {
                    lemma_entries_map_get(self.entries@, i as int);
                    assert(self@.contains_key((section@, self.entries@[i as int].name@)));
                }
                return true;
            }
            i += 1;
        }
        proof {
            lemma_entries_map_dom(self.entries@);
            assert forall|nm: Seq<char>| !(#[trigger] self@.contains_key((section@, nm))) by {
                if self@.contains_key((section@, nm)) {
                    let j = choose|j: int|
                        0 <= j < self.entries@.len() && #[trigger] self.entries@[j].key() == (
                        section@,
                        nm,
                        );
                    assert(self.entries@[j].section@ == section@);
                }
            }
        }
        false
    }

    /// The type tag of the entry under (section, name), or `None` if no
    /// such entry exists.
    pub fn get_type(&self, section: &str, name: &str) -> (r: Option<datablock_type_t>)
        ensures
            match r {
                Some(t) => self@.contains_key((section@, name@)) && t == tag_of(
                    self@[(section@, name@)],
                ),
                None => !self@.contains_key((section@, name@)),
            },
    {
        match self.lookup(section, name) {
            Some(v) => Some(v.type_tag()),
            None => None,
        }
    }
}

impl Default for DataBlock {
    /// An empty block.
    fn default() -> (r: Self)
        ensures
            r@ == Map::<(Seq<char>, Seq<char>), ValueView>::empty(),
    {
        DataBlock::new()
    }
}

impl Clone for DataBlock {
    /// An independent block with identical entries: the clone and the
    /// original can be changed without affecting one another.
    fn clone(&self) -> (r: Self)
        ensures
            r@ == self@,
    {
        proof {
            use_type_invariant(&*self);
        }
        let n = self.entries.len();
        let mut entries: Vec<Entry> = Vec::new();
        let mut i: usize = 0;
        while i < n
            invariant
                i <= n,
                n == self.entries@.len(),
                entries@.len() == i,
                keys_distinct(self.entries@),
                forall|j: int|
                    0 <= j < i ==> #[trigger] entries@[j].key() == self.entries@[j].key()
                        && entries@[j].value@ == self.entries@[j].value@,
            decreases n - i,
        {
            let e = &self.entries[i];
            entries.push(
                Entry {
                    section: e.section.clone(),
                    name: e.name.clone(),
                    value: e.value.clone(),
                },
            );
            i += 1;
        }
        proof {
            assert(keys_distinct(entries@));
            lemma_entries_map_congruent(entries@, self.entries@);
        }
        DataBlock { entries }
    }
}

} // verus!
