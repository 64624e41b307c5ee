//! The Open Graph metadata mapping: property names to content strings, with
//! a later entry for the same property replacing an earlier one.

use vstd::prelude::*;
use crate::text::str_eq;

verus! {

/// The map described by a sequence of key/value pairs, a later pair for the
/// same key winning over an earlier one.
pub open spec fn pairs_map(s: Seq<(Seq<char>, Seq<char>)>) -> Map<Seq<char>, Seq<char>>
    decreases s.len(),
{
    if s.len() == 0 {
        Map::empty()
    } else {
        pairs_map(s.drop_last()).insert(s.last().0, s.last().1)
    }
}

/// A mapping from Open Graph property name (for example `"og:title"`) to its
/// content string.
pub struct OgpData {
    entries: Vec<(String, String)>,
}

impl View for OgpData {
    type V = Map<Seq<char>, Seq<char>>;

    closed spec fn view(&self) -> Map<Seq<char>, Seq<char>> {
        pairs_map(self.entries.deep_view())
    }
}

pub proof fn lemma_pairs_map_found(s: Seq<(Seq<char>, Seq<char>)>, k: Seq<char>, i: int)
    requires
        0 <= i < s.len(),
        s[i].0 == k,
        forall|j: int| i < j < s.len() ==> s[j].0 != k,
    ensures
        pairs_map(s).contains_key(k),
        pairs_map(s)[k] == s[i].1,
    decreases s.len(),
{
    if i == s.len() - 1 {
    } else {
        let t = s.drop_last();
        assert(t[i] == s[i]);
        assert(forall|j: int| i < j < t.len() ==> t[j] == s[j]);
        lemma_pairs_map_found(t, k, i);
        assert(s.last().0 != k);
    }
}

pub proof fn lemma_pairs_map_absent(s: Seq<(Seq<char>, Seq<char>)>, k: Seq<char>)
    requires
        forall|j: int| 0 <= j < s.len() ==> s[j].0 != k,
    ensures
        !pairs_map(s).contains_key(k),
    decreases s.len(),
{
    if s.len() > 0 {
        let t = s.drop_last();
        assert(forall|j: int| 0 <= j < t.len() ==> t[j] == s[j]);
        lemma_pairs_map_absent(t, k);
    }
}

impl OgpData {
    /// Creates an empty mapping.
    pub fn new() -> (r: OgpData)
        ensures
            r@ == Map::<Seq<char>, Seq<char>>::empty(),
    {
        let r = OgpData { entries: Vec::new() };
        assert(r.entries.deep_view() =~= Seq::<(Seq<char>, Seq<char>)>::empty());
        r
    }

    /// Records `value` under `key`, replacing any earlier value for `key`.
    pub fn insert(&mut self, key: String, value: String)
        ensures
            final(self)@ == old(self)@.insert(key@, value@),
    {
        let ghost before = self.entries.deep_view();
        self.entries.push((key, value));
        proof {
            let after = self.entries.deep_view();
            assert(after.drop_last() =~= before);
        }
    }

    /// Looks up the content recorded for `key`, if any.
    pub fn get(&self, key: &str) -> (r: Option<String>)
        ensures
            match r {
                Some(v) => self@.contains_key(key@) && v@ == self@[key@],
                None => !self@.contains_key(key@),
            },
    {
        let mut i: usize = self.entries.len();
        while i > 0
            invariant
                i <= self.entries.len(),
                forall|j: int| i <= j < self.entries.deep_view().len()
                    ==> self.entries.deep_view()[j].0 != key@,
            decreases i,
    {
            i = i - 1;
            let pair = &self.entries[i];
            if str_eq(pair.0.as_str(), key) {
                proof {
                    assert(self.entries.deep_view()[i as int].0 == key@);
                    lemma_pairs_map_found(self.entries.deep_view(), key@, i as int);
                }
                return Some(pair.1.clone());
            }
            assert(self.entries.deep_view()[i as int].0 != key@);
        }
        proof {
            lemma_pairs_map_absent(self.entries.deep_view(), key@);
        }
        None
    }

    /// True when the mapping holds no entry at all.
    pub fn is_empty(&self) -> (r: bool)
        ensures
            r == (self@ == Map::<Seq<char>, Seq<char>>::empty()),
    {
        if self.entries.len() == 0 {
            assert(self.entries.deep_view() =~= Seq::<(Seq<char>, Seq<char>)>::empty());
            assert(self@ =~= Map::<Seq<char>, Seq<char>>::empty());
            true
        } else {
            proof {
                let dv = self.entries.deep_view();
                assert(pairs_map(dv).contains_key(dv.last().0));
            }
            false
        }
    }
}

} // verus!
