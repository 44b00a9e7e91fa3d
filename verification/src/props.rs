//! JSON values and property maps (the free-form properties of devices and
//! messages), keyed by property name.
use vstd::prelude::*;

use crate::text::str_eq;

verus! {

#[verifier::external_type_specification]
#[verifier::external_body]
pub struct ExJsonValue(serde_json::Value);

/// `<serde_json::Value as Clone>::clone`.
///
/// Trusted: a cloned JSON value is the same value.
#[verifier::external_body]
pub(crate) fn clone_value(v: &serde_json::Value) -> (r: serde_json::Value)
    ensures
        r == *v,
{
    v.clone()
}

/// The map that a list of (name, value) pairs describes, a later pair of a
/// name overriding an earlier one.
pub open spec fn pairs_map(s: Seq<(String, serde_json::Value)>) -> Map<Seq<char>, serde_json::Value>
    decreases s.len(),
{
    if s.len() == 0 {
        Map::empty()
    } else {
        pairs_map(s.drop_last()).insert(s.last().0@, s.last().1)
    }
}

/// The names of a list of pairs, in order.
pub open spec fn pair_names(s: Seq<(String, serde_json::Value)>) -> Seq<Seq<char>> {
    s.map_values(|p: (String, serde_json::Value)| p.0@)
}

proof fn lemma_pairs_map_domain(s: Seq<(String, serde_json::Value)>, k: Seq<char>)
    ensures
        pairs_map(s).contains_key(k) <==> exists|i: int| 0 <= i < s.len() && #[trigger] s[i].0@ == k,
    decreases s.len(),
{
    if s.len() > 0 {
        lemma_pairs_map_domain(s.drop_last(), k);
        if exists|i: int| 0 <= i < s.len() && #[trigger] s[i].0@ == k {
            let i = choose|i: int| 0 <= i < s.len() && #[trigger] s[i].0@ == k;
            if i < s.len() - 1 {
                assert(s.drop_last()[i].0@ == k);
            }
        }
        if exists|i: int| 0 <= i < s.len() - 1 && #[trigger] s.drop_last()[i].0@ == k {
            let i = choose|i: int| 0 <= i < s.len() - 1 && #[trigger] s.drop_last()[i].0@ == k;
            assert(s[i].0@ == k);
        }
    }
}

proof fn lemma_pairs_map_value(s: Seq<(String, serde_json::Value)>, i: int)
    requires
        0 <= i < s.len(),
        pair_names(s).no_duplicates(),
    ensures
        pairs_map(s).contains_key(s[i].0@),
        pairs_map(s)[s[i].0@] == s[i].1,
    decreases s.len(),
{
    if i < s.len() - 1 {
        assert(pair_names(s.drop_last()) =~= pair_names(s).drop_last());
        lemma_pairs_map_value(s.drop_last(), i);
        assert(pair_names(s)[i] != pair_names(s)[s.len() - 1]);
        assert(s.drop_last()[i] == s[i]);
    }
}

/// A property map: named JSON values, each name once.
///
/// It is held as a list of (name, value) pairs rather than a
/// `HashMap<String, Value>`: with text keys vstd's hash map lets little be
/// proved of lookups, while over the list the map's contents (`@`) and the
/// one-name-once invariant (`wf`) are stated and proved for every operation.
pub struct Properties {
    pairs: Vec<(String, serde_json::Value)>,
}

impl View for Properties {
    type V = Map<Seq<char>, serde_json::Value>;

    closed spec fn view(&self) -> Map<Seq<char>, serde_json::Value> {
        pairs_map(self.pairs@)
    }
}

impl Properties {
    /// Each name occurs once.
    pub closed spec fn wf(&self) -> bool {
        pair_names(self.pairs@).no_duplicates()
    }

    /// The names, in the order the map holds them.
    pub closed spec fn names(&self) -> Seq<Seq<char>> {
        pair_names(self.pairs@)
    }

    proof fn lemma_names(&self)
        requires
            self.wf(),
        ensures
            forall|k: Seq<char>| #[trigger] self@.contains_key(k) <==> self.names().contains(k),
            self.names().no_duplicates(),
    {
        assert forall|k: Seq<char>| #[trigger] self@.contains_key(k) <==> self.names().contains(k) by {
            lemma_pairs_map_domain(self.pairs@, k);
            if self.names().contains(k) {
                let i = choose|i: int| 0 <= i < self.names().len() && self.names()[i] == k;
                assert(self.pairs@[i].0@ == k);
            }
            if exists|i: int| 0 <= i < self.pairs@.len() && #[trigger] self.pairs@[i].0@ == k {
                let i = choose|i: int| 0 <= i < self.pairs@.len() && #[trigger] self.pairs@[i].0@ == k;
                assert(self.names()[i] == k);
            }
        }
    }

    /// An empty map.
    pub fn new() -> (r: Properties)
        ensures
            r.wf(),
            r@ == Map::<Seq<char>, serde_json::Value>::empty(),
    {
        Properties { pairs: Vec::new() }
    }

    /// Number of properties.
    pub fn len(&self) -> (n: usize)
        requires
            self.wf(),
        ensures
            n == self@.len(),
    {
        proof {
            self.lemma_names();
            self.names().unique_seq_to_set();
            assert(self@.dom() =~= self.names().to_set());
        }
        self.pairs.len()
    }

    fn position(&self, name: &str) -> (r: Option<usize>)
        requires
            self.wf(),
        ensures
            match r {
                Some(i) => i < self.pairs@.len() && self.pairs@[i as int].0@ == name@,
                None => !self@.contains_key(name@),
            },
    {
        let mut i: usize = 0;
        while i < self.pairs.len()
            invariant
                i <= self.pairs@.len(),
                forall|j: int| 0 <= j < i ==> #[trigger] self.pairs@[j].0@ != name@,
            decreases self.pairs@.len() - i,
        {
            if str_eq(self.pairs[i].0.as_str(), name) {
                return Some(i);
            }
            i = i + 1;
        }
        proof {
            lemma_pairs_map_domain(self.pairs@, name@);
        }
        None
    }

    /// Whether a property of this name exists.
    pub fn contains_key(&self, name: &str) -> (b: bool)
        requires
            self.wf(),
        ensures
            b == self@.contains_key(name@),
    {
        match self.position(name) {
            Some(i) => {
                proof {
                    lemma_pairs_map_value(self.pairs@, i as int);
                }
                true
            },
            None => false,
        }
    }

    /// The value of the property of this name.
    pub fn get(&self, name: &str) -> (r: Option<&serde_json::Value>)
        requires
            self.wf(),
        ensures
            match r {
                Some(v) => self@.contains_key(name@) && *v == self@[name@],
                None => !self@.contains_key(name@),
            },
    {
        match self.position(name) {
            Some(i) => {
                proof {
                    lemma_pairs_map_value(self.pairs@, i as int);
                }
                Some(&self.pairs[i].1)
            },
            None => None,
        }
    }

    /// Removes the property of this name, if there is one.
    pub fn remove(&mut self, name: &str)
        requires
            old(self).wf(),
        ensures
            final(self).wf(),
            final(self)@ == old(self)@.remove(name@),
    {
        match self.position(name) {
            None => {
                proof {
                    assert(old(self)@.remove(name@) =~= old(self)@);
                }
            },
            Some(i) => {
                let ghost old_pairs = self.pairs@;
                self.pairs.remove(i);
                proof {
                    lemma_remove_pair(old_pairs, i as int);
                }
            },
        }
    }

    /// Sets the property `name` to `value`, replacing an earlier value.
    pub fn insert(&mut self, name: String, value: serde_json::Value)
        requires
            old(self).wf(),
        ensures
            final(self).wf(),
            final(self)@ == old(self)@.insert(name@, value),
    {
        self.remove(name.as_str());
        let ghost prev = self.pairs@;
        proof {
            lemma_pairs_map_domain(prev, name@);
            assert forall|j: int| 0 <= j < prev.len() implies #[trigger] prev[j].0@ != name@ by {
                if prev[j].0@ == name@ {
                    assert(pairs_map(prev).contains_key(name@));
                }
            }
        }
        self.pairs.push((name, value));
        proof {
            assert(self.pairs@.drop_last() =~= prev);
            assert(pair_names(self.pairs@) =~= pair_names(prev).push(name@));
            assert forall|a: int, b: int| 0 <= a < b < pair_names(self.pairs@).len() implies pair_names(self.pairs@)[a] != pair_names(self.pairs@)[b] by {
                if b == pair_names(self.pairs@).len() - 1 {
                    assert(prev[a].0@ != name@);
                } else {
                    assert(pair_names(prev)[a] != pair_names(prev)[b]);
                }
            }
        }
    }

    /// The map holding the given pairs, a later pair of a name overriding an
    /// earlier one.
    pub fn from_pairs(pairs: Vec<(String, serde_json::Value)>) -> (r: Properties)
        ensures
            r.wf(),
            r@ == pairs_map(pairs@),
    {
        let mut r = Properties::new();
        let ghost all = pairs@;
        let mut rest = pairs;
        let n = rest.len();
        let mut i: usize = 0;
        while i < n
            invariant
                n == all.len(),
                i <= n,
                rest@ == all.skip(i as int),
                r.wf(),
                r@ == pairs_map(all.take(i as int)),
            decreases n - i,
        {
            let (k, v) = rest.remove(0);
            proof {
                assert(all.take(i + 1).drop_last() =~= all.take(i as int));
                assert(all.take(i + 1).last() == all[i as int]);
                assert(rest@ =~= all.skip(i + 1));
            }
            r.insert(k, v);
            i = i + 1;
        }
        proof {
            assert(all.take(n as int) =~= all);
        }
        r
    }

    /// The (name, value) pairs of the map, each name once.
    pub fn into_pairs(self) -> (r: Vec<(String, serde_json::Value)>)
        requires
            self.wf(),
        ensures
            pairs_map(r@) == self@,
            pair_names(r@).no_duplicates(),
    {
        self.pairs
    }

    /// The (name, value) pairs of the map, each name once.
    pub fn pairs(&self) -> (r: &Vec<(String, serde_json::Value)>)
        ensures
            pairs_map(r@) == self@,
            self.wf() ==> pair_names(r@).no_duplicates(),
    {
        &self.pairs
    }
}

impl Clone for Properties {
    fn clone(&self) -> (r: Properties)
        ensures
            r.wf() == self.wf(),
            r@ == self@,
    {
        let mut pairs: Vec<(String, serde_json::Value)> = Vec::new();
        let mut i: usize = 0;
        while i < self.pairs.len()
            invariant
                i <= self.pairs@.len(),
                pairs@.len() == i,
                forall|j: int| 0 <= j < i ==> (#[trigger] pairs@[j]).0@ == self.pairs@[j].0@ && pairs@[j].1 == self.pairs@[j].1,
            decreases self.pairs@.len() - i,
        {
            let name = self.pairs[i].0.clone();
            let value = clone_value(&self.pairs[i].1);
            pairs.push((name, value));
            i = i + 1;
        }
        proof {
            lemma_same_pairs(pairs@, self.pairs@);
        }
        Properties { pairs }
    }
}

proof fn lemma_remove_pair(s: Seq<(String, serde_json::Value)>, i: int)
    requires
        0 <= i < s.len(),
        pair_names(s).no_duplicates(),
    ensures
        pair_names(s.remove(i)).no_duplicates(),
        pairs_map(s.remove(i)) == pairs_map(s).remove(s[i].0@),
{
    let t = s.remove(i);
    assert(pair_names(t) =~= pair_names(s).remove(i));
    assert forall|a: int, b: int| 0 <= a < b < pair_names(t).len() implies pair_names(t)[a] != pair_names(t)[b] by {
        let a2 = if a < i { a } else { a + 1 };
        let b2 = if b < i { b } else { b + 1 };
        assert(pair_names(t)[a] == pair_names(s)[a2]);
        assert(pair_names(t)[b] == pair_names(s)[b2]);
    }
    assert forall|k: Seq<char>| #[trigger] pairs_map(t).contains_key(k) <==> pairs_map(s).remove(s[i].0@).contains_key(k) by {
        lemma_pairs_map_domain(t, k);
        lemma_pairs_map_domain(s, k);
        if exists|j: int| 0 <= j < t.len() && #[trigger] t[j].0@ == k {
            let j = choose|j: int| 0 <= j < t.len() && #[trigger] t[j].0@ == k;
            let j2 = if j < i { j } else { j + 1 };
            assert(s[j2].0@ == k);
            assert(pair_names(s)[j2] != pair_names(s)[i]);
        }
        if k != s[i].0@ && exists|j: int| 0 <= j < s.len() && #[trigger] s[j].0@ == k {
            let j = choose|j: int| 0 <= j < s.len() && #[trigger] s[j].0@ == k;
            assert(j != i);
            let j2 = if j < i { j } else { j - 1 };
            assert(t[j2].0@ == k);
        }
    }
    assert forall|k: Seq<char>| #[trigger] pairs_map(t).contains_key(k) implies pairs_map(t)[k] == pairs_map(s).remove(s[i].0@)[k] by {
        lemma_pairs_map_domain(t, k);
        let j = choose|j: int| 0 <= j < t.len() && #[trigger] t[j].0@ == k;
        let j2 = if j < i { j } else { j + 1 };
        lemma_pairs_map_value(t, j);
        lemma_pairs_map_value(s, j2);
    }
    assert(pairs_map(t) =~= pairs_map(s).remove(s[i].0@));
}

proof fn lemma_same_pairs(a: Seq<(String, serde_json::Value)>, b: Seq<(String, serde_json::Value)>)
    requires
        a.len() == b.len(),
        forall|j: int| 0 <= j < a.len() ==> (#[trigger] a[j]).0@ == b[j].0@ && a[j].1 == b[j].1,
    ensures
        pairs_map(a) == pairs_map(b),
        pair_names(a) == pair_names(b),
    decreases a.len(),
{
    if a.len() > 0 {
        lemma_same_pairs(a.drop_last(), b.drop_last());
    }
    assert(pair_names(a) =~= pair_names(b));
}

} // verus!
