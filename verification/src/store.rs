//! Insertion-ordered collections backing the engine's state.
//!
//! The host's persistence substrate is out of scope; the engine holds its
//! state in plain vectors of entries with pairwise-distinct keys, which
//! preserve what the host maps guaranteed: lookup by key, insert-or-replace,
//! and iteration in insertion order.

use vstd::prelude::*;

verus! {

/// Pairwise-distinct keys in an entry sequence.
pub open spec fn distinct_keys<T>(s: Seq<(Seq<char>, T)>) -> bool {
    forall|i: int, j: int| 0 <= i < j < s.len() ==> s[i].0 != s[j].0
}

/// The finite map described by an entry sequence; on duplicate keys the
/// later entry wins.
pub open spec fn map_of<T>(s: Seq<(Seq<char>, T)>) -> Map<Seq<char>, T>
    decreases s.len(),
{
    if s.len() == 0 {
        Map::empty()
    } else {
        map_of(s.drop_last()).insert(s.last().0, s.last().1)
    }
}

/// A key is in the map iff some entry carries it.
pub proof fn lemma_map_of_contains<T>(s: Seq<(Seq<char>, T)>, k: Seq<char>)
    ensures
        map_of(s).contains_key(k) <==> exists|i: int| 0 <= i < s.len() && s[i].0 == k,
    decreases s.len(),
{
    if s.len() > 0 {
        lemma_map_of_contains(s.drop_last(), k);
        if s.last().0 == k {
            assert(s[s.len() - 1].0 == k);
        } else if map_of(s.drop_last()).contains_key(k) {
            let i = choose|i: int| 0 <= i < s.drop_last().len() && s.drop_last()[i].0 == k;
            assert(s[i].0 == k);
        } else if exists|i: int| 0 <= i < s.len() && s[i].0 == k {
            let i = choose|i: int| 0 <= i < s.len() && s[i].0 == k;
            assert(s.drop_last()[i].0 == k);
        }
    }
}

/// With distinct keys, the entry at any index gives the map's value at its
/// key.
pub proof fn lemma_map_of_index<T>(s: Seq<(Seq<char>, T)>, i: int)
    requires
        distinct_keys(s),
        0 <= i < s.len(),
    ensures
        map_of(s).contains_key(s[i].0),
        map_of(s)[s[i].0] == s[i].1,
    decreases s.len(),
{
    if i < s.len() - 1 {
        assert(distinct_keys(s.drop_last())) by {
            assert(forall|x: int, y: int|
                0 <= x < y < s.drop_last().len() ==> s.drop_last()[x].0 == s[x].0
                    && s.drop_last()[y].0 == s[y].0);
        }
        lemma_map_of_index(s.drop_last(), i);
        assert(s.drop_last()[i] == s[i]);
        assert(s[i].0 != s.last().0);
    }
}

/// Replacing the value at one entry updates the map at that entry's key.
pub proof fn lemma_map_of_update<T>(s: Seq<(Seq<char>, T)>, i: int, v: T)
    requires
        distinct_keys(s),
        0 <= i < s.len(),
    ensures
        map_of(s.update(i, (s[i].0, v))) =~= map_of(s).insert(s[i].0, v),
        distinct_keys(s.update(i, (s[i].0, v))),
    decreases s.len(),
{
    let t = s.update(i, (s[i].0, v));
    assert(forall|x: int| 0 <= x < s.len() ==> t[x].0 == s[x].0);
    if i == s.len() - 1 {
        assert(t.drop_last() =~= s.drop_last());
        assert(t.last() == (s[i].0, v));
    } else {
        assert(distinct_keys(s.drop_last())) by {
            assert(forall|x: int, y: int|
                0 <= x < y < s.drop_last().len() ==> s.drop_last()[x].0 == s[x].0
                    && s.drop_last()[y].0 == s[y].0);
        }
        assert(t.drop_last() =~= s.drop_last().update(i, (s[i].0, v)));
        assert(s.drop_last()[i] == s[i]);
        lemma_map_of_update(s.drop_last(), i, v);
        assert(t.last() == s.last());
        assert(s[i].0 != s.last().0);
        assert(map_of(t) =~= map_of(s).insert(s[i].0, v));
    }
}

/// Appending an entry inserts its key into the map.
pub proof fn lemma_map_of_push<T>(s: Seq<(Seq<char>, T)>, k: Seq<char>, v: T)
    ensures
        map_of(s.push((k, v))) =~= map_of(s).insert(k, v),
{
    assert(s.push((k, v)).drop_last() =~= s);
    assert(s.push((k, v)).last() == (k, v));
}

/// An insertion-ordered map from strings to values.
pub struct StrMap<V> {
    entries: Vec<(String, V)>,
}

impl<V: View> StrMap<V> {
    /// The entries in insertion order, as pairs of key view and value view.
    pub closed spec fn seq(&self) -> Seq<(Seq<char>, V::V)> {
        self.entries@.map_values(|p: (String, V)| (p.0@, p.1@))
    }

    /// Well-formed: no two entries share a key.
    pub open spec fn wf(&self) -> bool {
        distinct_keys(self.seq())
    }

    /// An empty map.
    pub fn new() -> (r: Self)
        ensures
            r.wf(),
            r.seq() =~= Seq::<(Seq<char>, V::V)>::empty(),
            r@ =~= Map::<Seq<char>, V::V>::empty(),
    {
        StrMap { entries: Vec::new() }
    }

    /// Number of entries.
    pub fn len(&self) -> (r: usize)
        ensures
            r == self.seq().len(),
    {
        self.entries.len()
    }

    /// The value of the entry at position `i`, in insertion order.
    pub fn value_at(&self, i: usize) -> (r: &V)
        requires
            i < self.seq().len(),
        ensures
            r@ == self.seq()[i as int].1,
    {
        &self.entries[i].1
    }

    /// Looks a key up.
    pub fn get(&self, k: &String) -> (r: Option<&V>)
        requires
            self.wf(),
        ensures
            match r {
                Option::Some(v) => self@.contains_key(k@) && v@ == self@[k@],
                Option::None => !self@.contains_key(k@),
            },
    {
        let n = self.entries.len();
        let mut i: usize = 0;
        while i < n
            invariant
                n == self.seq().len(),
                i <= n,
                self.wf(),
                forall|j: int| 0 <= j < i ==> self.seq()[j].0 != k@,
            decreases n - i,
        {
            if self.entries[i].0 == *k {
                proof {
                    lemma_map_of_index(self.seq(), i as int);
                }
                return Option::Some(&self.entries[i].1);
            }
            i = i + 1;
        }
        proof {
            lemma_map_of_contains(self.seq(), k@);
        }
        Option::None
    }

    /// Inserts a binding, replacing any existing binding of the same key in
    /// place; a new key is appended at the end of the iteration order.
    #[verifier::loop_isolation(false)]
    pub fn insert(&mut self, k: String, v: V)
        requires
            old(self).wf(),
        ensures
            final(self).wf(),
            final(self)@ =~= old(self)@.insert(k@, v@),
            !old(self)@.contains_key(k@) ==> final(self).seq() =~= old(self).seq().push(
                (k@, v@),
            ),
            old(self)@.contains_key(k@) ==> {
                &&& final(self).seq().len() == old(self).seq().len()
                &&& forall|j: int|
                    0 <= j < old(self).seq().len() && old(self).seq()[j].0 != k@
                        ==> final(self).seq()[j] == old(self).seq()[j]
                &&& forall|j: int|
                    0 <= j < old(self).seq().len() && old(self).seq()[j].0 == k@
                        ==> final(self).seq()[j] == (k@, v@)
            },
    {
        let ghost s0 = self.seq();
        let n = self.entries.len();
        let mut i: usize = 0;
        while i < n
            invariant
                n == self.seq().len(),
                i <= n,
                self.wf(),
                self.seq() == s0,
                forall|j: int| 0 <= j < i ==> self.seq()[j].0 != k@,
            decreases n - i,
        {
            if self.entries[i].0 == *(&k) {
                proof {
                    lemma_map_of_update(s0, i as int, v@);
                }
                self.entries[i] = (k, v);
                proof {
                    assert(self.seq() =~= s0.update(i as int, (s0[i as int].0, v@)));
                    lemma_map_of_contains(s0, s0[i as int].0);
                    assert(forall|j: int|
                        0 <= j < s0.len() && s0[j].0 == s0[i as int].0 ==> j == i as int);
                }
                return ;
            }
            i = i + 1;
        }
        proof {
            lemma_map_of_push(s0, k@, v@);
            lemma_map_of_contains(s0, k@);
        }
        self.entries.push((k, v));
        proof {
            assert(self.seq() =~= s0.push((k@, v@)));
        }
    }
}

impl<V: View> View for StrMap<V> {
    type V = Map<Seq<char>, V::V>;

    open spec fn view(&self) -> Map<Seq<char>, V::V> {
        map_of(self.seq())
    }
}

/// An insertion-ordered set of strings.
pub struct StrSet {
    items: Vec<String>,
}

impl StrSet {
    /// The members in insertion order.
    pub closed spec fn seq(&self) -> Seq<Seq<char>> {
        self.items@.map_values(|s: String| s@)
    }

    /// Well-formed: no member occurs twice.
    pub open spec fn wf(&self) -> bool {
        forall|i: int, j: int| 0 <= i < j < self.seq().len() ==> self.seq()[i] != self.seq()[j]
    }

    /// An empty set.
    pub fn new() -> (r: Self)
        ensures
            r.wf(),
            r.seq() =~= Seq::<Seq<char>>::empty(),
            r@ =~= Set::<Seq<char>>::empty(),
    {
        let r = StrSet { items: Vec::new() };
        proof {
            assert(forall|k: Seq<char>| !r.seq().contains(k));
        }
        r
    }

    /// Number of members.
    pub fn len(&self) -> (r: usize)
        ensures
            r == self.seq().len(),
    {
        self.items.len()
    }

    /// The member at position `i`, in insertion order.
    pub fn at(&self, i: usize) -> (r: &String)
        requires
            i < self.seq().len(),
        ensures
            r@ == self.seq()[i as int],
    {
        &self.items[i]
    }

    /// Whether a string is a member.
    pub fn contains(&self, k: &String) -> (r: bool)
        ensures
            r == self@.contains(k@),
    {
        let n = self.items.len();
        let mut i: usize = 0;
        while i < n
            invariant
                n == self.seq().len(),
                i <= n,
                forall|j: int| 0 <= j < i ==> self.seq()[j] != k@,
            decreases n - i,
        {
            if self.items[i] == *k {
                assert(self.seq()[i as int] == k@);
                return true;
            }
            i = i + 1;
        }
        assert(!self.seq().contains(k@));
        false
    }

    /// Inserts a member; already-present members are kept once, in their
    /// original position.
    pub fn insert(&mut self, k: String)
        requires
            old(self).wf(),
        ensures
            final(self).wf(),
            final(self)@ =~= old(self)@.insert(k@),
            old(self)@.contains(k@) ==> final(self).seq() == old(self).seq(),
            !old(self)@.contains(k@) ==> final(self).seq() =~= old(self).seq().push(k@),
    {
        let ghost s0 = self.seq();
        if !self.contains(&k) {
            self.items.push(k);
            proof {
                assert(self.seq() =~= s0.push(k@));
                assert forall|x: Seq<char>| self@.contains(x) implies old(self)@.insert(k@).contains(
                    x,
                ) by {
                    let i = choose|i: int| 0 <= i < self.seq().len() && self.seq()[i] == x;
                    if i < s0.len() {
                        assert(s0[i] == x);
                    }
                }
                assert forall|x: Seq<char>| old(self)@.insert(k@).contains(x) implies self@.contains(
                    x,
                ) by {
                    if x == k@ {
                        assert(self.seq()[s0.len() as int] == x);
                    } else {
                        let i = choose|i: int| 0 <= i < s0.len() && s0[i] == x;
                        assert(self.seq()[i] == x);
                    }
                }
            }
        }
    }
}

impl View for StrSet {
    type V = Set<Seq<char>>;

    open spec fn view(&self) -> Set<Seq<char>> {
        Set::new(|k: Seq<char>| self.seq().contains(k))
    }
}

} // verus!
