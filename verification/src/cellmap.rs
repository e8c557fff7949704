//! A small association map from hex coordinates to values, viewed as a
//! mathematical `Map`. The grid keeps its height field and its surface
//! field in two of these, so that their key sets can be related exactly.

use vstd::prelude::*;
use crate::hex::HexCoord;

verus! {

/// True when no coordinate occurs twice among the entries.
spec fn distinct_keys<V>(s: Seq<(HexCoord, V)>) -> bool {
    forall|i: int, j: int| 0 <= i < j < s.len() ==> s[i].0 != s[j].0
}

/// The mathematical map described by a sequence of entries; a later entry
/// for the same key wins, matching repeated insertion.
spec fn map_of<V>(s: Seq<(HexCoord, V)>) -> Map<HexCoord, V>
    decreases s.len(),
{
    if s.len() == 0 {
        Map::empty()
    } else {
        map_of(s.drop_last()).insert(s.last().0, s.last().1)
    }
}

proof fn lemma_map_of_contains<V>(s: Seq<(HexCoord, V)>, k: HexCoord)
    ensures
        map_of(s).contains_key(k) <==> (exists|i: int| 0 <= i < s.len() && s[i].0 == k),
    decreases s.len(),
{
    if s.len() == 0 {
    } else {
        lemma_map_of_contains(s.drop_last(), k);
        if s.last().0 == k {
            assert(s[s.len() - 1].0 == k);
        } else {
            if map_of(s).contains_key(k) {
                let i = choose|i: int| 0 <= i < s.drop_last().len() && s.drop_last()[i].0 == k;
                assert(s[i].0 == k);
            }
            if exists|i: int| 0 <= i < s.len() && s[i].0 == k {
                let i = choose|i: int| 0 <= i < s.len() && s[i].0 == k;
                assert(i < s.len() - 1);
                assert(s.drop_last()[i].0 == k);
            }
        }
    }
}

proof fn lemma_distinct_drop_last<V>(s: Seq<(HexCoord, V)>)
    requires
        distinct_keys(s),
        s.len() > 0,
    ensures
        distinct_keys(s.drop_last()),
{
    assert forall|i: int, j: int| 0 <= i < j < s.drop_last().len() implies s.drop_last()[i].0
        != s.drop_last()[j].0 by {
        assert(s[i].0 != s[j].0);
    }
}

proof fn lemma_map_of_index<V>(s: Seq<(HexCoord, V)>, i: int)
    requires
        distinct_keys(s),
        0 <= i < s.len(),
    ensures
        map_of(s).contains_key(s[i].0),
        map_of(s)[s[i].0] == s[i].1,
    decreases s.len(),
{
    if i == s.len() - 1 {
    } else {
        lemma_distinct_drop_last(s);
        lemma_map_of_index(s.drop_last(), i);
        assert(s.drop_last()[i] == s[i]);
        assert(s[i].0 != s.last().0);
    }
}

proof fn lemma_map_of_remove<V>(s: Seq<(HexCoord, V)>, i: int)
    requires
        distinct_keys(s),
        0 <= i < s.len(),
    ensures
        map_of(s.remove(i)) == map_of(s).remove(s[i].0),
    decreases s.len(),
{
    let k = s[i].0;
    if i == s.len() - 1 {
        assert(s.remove(i) =~= s.drop_last());
        lemma_distinct_drop_last(s);
        lemma_map_of_contains(s.drop_last(), k);
        assert(forall|j: int| 0 <= j < s.drop_last().len() ==> s[j].0 != k);
        assert(!map_of(s.drop_last()).contains_key(k));
        assert(map_of(s.drop_last()).insert(k, s.last().1).remove(k) =~= map_of(s.drop_last()));
    } else {
        let t = s.remove(i);
        assert(t.len() == s.len() - 1);
        assert(t.last() == s.last());
        assert(t.drop_last() =~= s.drop_last().remove(i));
        lemma_distinct_drop_last(s);
        lemma_map_of_remove(s.drop_last(), i);
        assert(s.drop_last()[i] == s[i]);
        assert(map_of(t) == map_of(s.drop_last().remove(i)).insert(s.last().0, s.last().1));
        assert(map_of(t) == map_of(s.drop_last()).remove(k).insert(s.last().0, s.last().1));
        assert(s.last().0 != k);
        assert(map_of(s.drop_last()).remove(k).insert(s.last().0, s.last().1) =~= map_of(
            s.drop_last(),
        ).insert(s.last().0, s.last().1).remove(k));
    }
}

proof fn lemma_map_of_push<V>(s: Seq<(HexCoord, V)>, k: HexCoord, v: V)
    ensures
        map_of(s.push((k, v))) == map_of(s).insert(k, v),
{
    assert(s.push((k, v)).drop_last() =~= s);
    assert(s.push((k, v)).last() == (k, v));
}

proof fn lemma_map_of_dom_len<V>(s: Seq<(HexCoord, V)>)
    requires
        distinct_keys(s),
    ensures
        map_of(s).dom().finite(),
        map_of(s).dom().len() == s.len(),
    decreases s.len(),
{
    if s.len() == 0 {
        assert(map_of(s).dom() =~= Set::<HexCoord>::empty());
    } else {
        lemma_distinct_drop_last(s);
        lemma_map_of_dom_len(s.drop_last());
        lemma_map_of_contains(s.drop_last(), s.last().0);
        assert(forall|j: int| 0 <= j < s.drop_last().len() ==> s[j].0 != s.last().0);
        assert(!map_of(s.drop_last()).contains_key(s.last().0));
        assert(map_of(s).dom() =~= map_of(s.drop_last()).dom().insert(s.last().0));
    }
}

/// An association map from hex coordinates to copyable values.
pub struct CellMap<V> {
    entries: Vec<(HexCoord, V)>,
}

impl<V: Copy> View for CellMap<V> {
    type V = Map<HexCoord, V>;

    closed spec fn view(&self) -> Map<HexCoord, V> {
        map_of(self.entries@)
    }
}

impl<V: Copy> CellMap<V> {
    /// No coordinate occurs twice among the stored entries.
    pub closed spec fn wf(self) -> bool {
        distinct_keys(self.entries@)
    }

    pub fn new() -> (m: CellMap<V>)
        ensures
            m@ == Map::<HexCoord, V>::empty(),
            m.wf(),
    {
        CellMap { entries: Vec::new() }
    }

    /// How many cells the map holds.
    pub fn len(&self) -> (n: usize)
        requires
            self.wf(),
        ensures
            self@.dom().finite(),
            n == self@.dom().len(),
    {
        proof {
            lemma_map_of_dom_len(self.entries@);
        }
        self.entries.len()
    }

    /// The index of the entry holding `k`, if the key is present.
    fn index_of(&self, k: HexCoord) -> (r: Option<usize>)
        ensures
            match r {
                Some(i) => i < self.entries@.len() && self.entries@[i as int].0 == k,
                None => !map_of(self.entries@).contains_key(k),
            },
    {
        let n = self.entries.len();
        let mut i: usize = 0;
        while i < n
            invariant
                n == self.entries@.len(),
                i <= n,
                forall|j: int| 0 <= j < i ==> self.entries@[j].0 != k,
            decreases n - i,
        {
            if self.entries[i].0 == k {
                return Some(i);
            }
            i += 1;
        }
        proof {
            lemma_map_of_contains(self.entries@, k);
        }
        None
    }

    /// The value stored for `k`, if the key is present.
    pub fn get(&self, k: HexCoord) -> (r: Option<V>)
        requires
            self.wf(),
        ensures
            r == (if self@.contains_key(k) {
                Some(self@[k])
            } else {
                None::<V>
            }),
    {
        match self.index_of(k) {
            Some(i) => {
                proof {
                    lemma_map_of_index(self.entries@, i as int);
                }
                Some(self.entries[i].1)
            },
            None => None,
        }
    }

    /// Whether the map holds an entry for `k`.
    pub fn contains_key(&self, k: HexCoord) -> (b: bool)
        requires
            self.wf(),
        ensures
            b == self@.contains_key(k),
    {
        self.get(k).is_some()
    }

    /// Stores `v` for `k`, replacing any earlier value.
    pub fn insert(&mut self, k: HexCoord, v: V)
        requires
            old(self).wf(),
        ensures
            final(self).wf(),
            final(self)@ == old(self)@.insert(k, v),
    {
        let ghost s0 = self.entries@;
        match self.index_of(k) {
            Some(i) => {
                self.entries.remove(i);
                self.entries.push((k, v));
                proof {
                    let s1 = s0.remove(i as int);
                    lemma_map_of_remove(s0, i as int);
                    lemma_map_of_push(s1, k, v);
                    assert(map_of(s1.push((k, v))) =~= map_of(s0).insert(k, v));
                    assert forall|a: int, b: int|
                        0 <= a < b < s1.push((k, v)).len() implies s1.push((k, v))[a].0 != s1.push(
                        (k, v),
                    )[b].0 by {
                        if b < s1.len() {
                            if a < i && b < i {
                                assert(s1[a] == s0[a] && s1[b] == s0[b]);
                            } else if a < i {
                                assert(s1[a] == s0[a] && s1[b] == s0[b + 1]);
                            } else {
                                assert(s1[a] == s0[a + 1] && s1[b] == s0[b + 1]);
                            }
                        } else {
                            if a < i {
                                assert(s1[a] == s0[a]);
                                assert(s0[a].0 != s0[i as int].0);
                            } else {
                                assert(s1[a] == s0[a + 1]);
                                assert(s0[i as int].0 != s0[a + 1].0);
                            }
                        }
                    }
                }
            },
            None => {
                self.entries.push((k, v));
                proof {
                    lemma_map_of_push(s0, k, v);
                    lemma_map_of_contains(s0, k);
                    assert forall|a: int, b: int|
                        0 <= a < b < s0.push((k, v)).len() implies s0.push((k, v))[a].0 != s0.push(
                        (k, v),
                    )[b].0 by {
                        if b == s0.len() {
                            assert(s0.push((k, v))[a] == s0[a]);
                            assert(s0[a].0 != k);
                        } else {
                            assert(s0.push((k, v))[a] == s0[a] && s0.push((k, v))[b] == s0[b]);
                        }
                    }
                }
            },
        }
    }

    /// Every key of the map, each exactly once.
    pub fn keys(&self) -> (r: Vec<HexCoord>)
        requires
            self.wf(),
        ensures
            forall|k: HexCoord| self@.contains_key(k) <==> r@.contains(k),
            r@.no_duplicates(),
            r@.len() == self@.dom().len(),
    {
        let n = self.entries.len();
        let mut r: Vec<HexCoord> = Vec::new();
        let mut i: usize = 0;
        while i < n
            invariant
                n == self.entries@.len(),
                i <= n,
                r@.len() == i,
                forall|j: int| 0 <= j < i ==> r@[j] == self.entries@[j].0,
                distinct_keys(self.entries@),
            decreases n - i,
        {
            let p = self.entries[i].0;
            r.push(p);
            i += 1;
        }
        proof {
            lemma_map_of_dom_len(self.entries@);
            assert forall|k: HexCoord| self@.contains_key(k) <==> r@.contains(k) by {
                lemma_map_of_contains(self.entries@, k);
                if self@.contains_key(k) {
                    let j = choose|j: int| 0 <= j < self.entries@.len() && self.entries@[j].0 == k;
                    assert(r@[j] == k);
                }
                if r@.contains(k) {
                    let j = choose|j: int| 0 <= j < r@.len() && r@[j] == k;
                    assert(self.entries@[j].0 == k);
                }
            }
        }
        r
    }
}

} // verus!
