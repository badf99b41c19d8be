//! Query parameters: a small mapping from parameter name to value that keeps
//! the order in which the names were first set.

use vstd::prelude::*;

verus! {

/// Whether some pair of `s` is named `key`.
pub open spec fn has_key(s: Seq<(Seq<char>, Seq<char>)>, key: Seq<char>) -> bool {
    exists|i: int| 0 <= i < s.len() && (#[trigger] s[i]).0 == key
}

/// The place of a pair named `key` in `s`. Meaningful where `has_key(s, key)`;
/// the only such place where `keys_distinct(s)`.
pub open spec fn position(s: Seq<(Seq<char>, Seq<char>)>, key: Seq<char>) -> int {
    choose|i: int| 0 <= i < s.len() && (#[trigger] s[i]).0 == key
}

/// The value that `s` gives to `key`. Meaningful where `has_key(s, key)`.
pub open spec fn value_of(s: Seq<(Seq<char>, Seq<char>)>, key: Seq<char>) -> Seq<char> {
    s[position(s, key)].1
}

/// No two pairs of `s` have the same name.
pub open spec fn keys_distinct(s: Seq<(Seq<char>, Seq<char>)>) -> bool {
    forall|i: int, j: int|
        0 <= i < s.len() && 0 <= j < s.len() && i != j ==> (#[trigger] s[i]).0 != (#[trigger] s[j]).0
}

/// The mapping that the pairs of `s` stand for.
pub open spec fn to_map(s: Seq<(Seq<char>, Seq<char>)>) -> Map<Seq<char>, Seq<char>> {
    Map::new(|k: Seq<char>| has_key(s, k), |k: Seq<char>| value_of(s, k))
}

/// What `s` becomes when `key` is set to `value`: the pair named `key` is
/// overwritten in place, or a new pair is added at the end.
pub open spec fn with_pair(s: Seq<(Seq<char>, Seq<char>)>, key: Seq<char>, value: Seq<char>) -> Seq<
    (Seq<char>, Seq<char>),
> {
    if has_key(s, key) {
        s.update(position(s, key), (key, value))
    } else {
        s.push((key, value))
    }
}

/// In a sequence with distinct names, a pair named `key` sits at `position(s, key)`.
pub proof fn lemma_position_unique(s: Seq<(Seq<char>, Seq<char>)>, key: Seq<char>, i: int)
    requires
        keys_distinct(s),
        0 <= i < s.len(),
        s[i].0 == key,
    ensures
        has_key(s, key),
        position(s, key) == i,
        value_of(s, key) == s[i].1,
{
    let p = position(s, key);
    assert(0 <= p < s.len() && s[p].0 == key);
    if p != i {
        assert(s[p].0 != s[i].0);
    }
}

/// Setting a parameter keeps the names distinct, and changes the mapping at
/// that name only.
pub proof fn lemma_with_pair(s: Seq<(Seq<char>, Seq<char>)>, key: Seq<char>, value: Seq<char>)
    requires
        keys_distinct(s),
    ensures
        keys_distinct(with_pair(s, key, value)),
        to_map(with_pair(s, key, value)) == to_map(s).insert(key, value),
        has_key(s, key) ==> with_pair(s, key, value).len() == s.len(),
        !has_key(s, key) ==> with_pair(s, key, value).len() == s.len() + 1,
{
    let t = with_pair(s, key, value);
    let at = if has_key(s, key) {
        position(s, key)
    } else {
        s.len() as int
    };
    assert(0 <= at < t.len() && t[at] == (key, value));
    assert forall|i: int| 0 <= i < t.len() && i != at implies t[i] == s[i] && s[i].0 != key by {
        if has_key(s, key) {
            assert(s[at].0 == key);
        }
    }
    assert(keys_distinct(t)) by {
        assert forall|i: int, j: int| 0 <= i < t.len() && 0 <= j < t.len() && i != j implies (
        #[trigger] t[i]).0 != (#[trigger] t[j]).0 by {
            if i != at && j != at {
                assert(s[i].0 != s[j].0);
            }
        }
    }
    assert forall|k: Seq<char>| has_key(t, k) <==> (k == key || has_key(s, k)) by {
        if has_key(t, k) {
            let i = position(t, k);
            if i != at {
                assert(s[i].0 == k);
            }
        }
        if k == key {
            assert(t[at].0 == k);
        } else if has_key(s, k) {
            let i = position(s, k);
            assert(t[i].0 == k);
        }
    }
    assert forall|k: Seq<char>| has_key(t, k) implies value_of(t, k) == (if k == key {
        value
    } else {
        value_of(s, k)
    }) by {
        let i = position(t, k);
        if k == key {
            lemma_position_unique(t, k, at);
        } else {
            assert(s[i].0 == k);
            lemma_position_unique(s, k, i);
        }
    }
    assert(to_map(t) =~= to_map(s).insert(key, value));
}

/// The pairs of strings `v` as contracts see them: characters for strings.
pub open spec fn pairs_view(v: Seq<(String, String)>) -> Seq<(Seq<char>, Seq<char>)> {
    Seq::new(v.len(), |i: int| (v[i].0@, v[i].1@))
}

/// The parameters of one request. Every name occurs at most once; the pairs
/// keep the order in which their names were first set.
#[derive(Debug)]
pub struct QueryParams {
    pairs: Vec<(String, String)>,
}

impl View for QueryParams {
    type V = Seq<(Seq<char>, Seq<char>)>;

    /// The pairs in order, each name and value as its characters.
    closed spec fn view(&self) -> Seq<(Seq<char>, Seq<char>)> {
        pairs_view(self.pairs@)
    }
}

impl QueryParams {
    #[verifier::type_invariant]
    spec fn names_occur_once(self) -> bool {
        keys_distinct(self@)
    }

    /// The mapping from name to value that these parameters stand for.
    pub open spec fn as_map(self) -> Map<Seq<char>, Seq<char>> {
        to_map(self@)
    }

    /// No parameters at all.
    pub fn new() -> (params: QueryParams)
        ensures
            params@ == Seq::<(Seq<char>, Seq<char>)>::empty(),
    {
        let params = QueryParams { pairs: Vec::new() };
        assert(params@ =~= Seq::<(Seq<char>, Seq<char>)>::empty());
        params
    }

    /// How many parameters are set.
    pub fn len(&self) -> (n: usize)
        ensures
            n == self@.len(),
    {
        self.pairs.len()
    }

    /// Whether no parameter is set.
    pub fn is_empty(&self) -> (empty: bool)
        ensures
            empty == (self@.len() == 0),
    {
        self.pairs.len() == 0
    }

    /// Where the pair named `key` sits, if there is one.
    fn find(&self, key: &String) -> (found: Option<usize>)
        ensures
            found is Some <==> has_key(self@, key@),
            found matches Some(i) ==> i < self@.len() && self@[i as int].0 == key@ && i == position(
                self@,
                key@,
            ),
    {
        proof {
            use_type_invariant(self);
        }
        let mut i: usize = 0;
        while i < self.pairs.len()
            invariant
                i <= self.pairs.len(),
                self.pairs.len() == self@.len(),
                forall|j: int| 0 <= j < i ==> (#[trigger] self@[j]).0 != key@,
                keys_distinct(self@),
            decreases self.pairs.len() - i,
        {
            if self.pairs[i].0 == *key {
                proof {
                    lemma_position_unique(self@, key@, i as int);
                }
                return Some(i);
            }
            i += 1;
        }
        None
    }

    /// Whether a parameter named `key` is set.
    pub fn contains_key(&self, key: &str) -> (present: bool)
        ensures
            present == has_key(self@, key@),
    {
        let owned = key.to_owned();
        self.find(&owned).is_some()
    }

    /// The value of the parameter named `key`, if it is set.
    pub fn get(&self, key: &str) -> (value: Option<&String>)
        ensures
            value is Some <==> has_key(self@, key@),
            value matches Some(v) ==> v@ == value_of(self@, key@),
    {
        let owned = key.to_owned();
        match self.find(&owned) {
            Some(i) => Some(&self.pairs[i].1),
            None => None,
        }
    }

    /// Sets the parameter named `key` to `value`. A parameter of that name
    /// that was set before keeps its place and hands back its former value;
    /// a new name goes to the end.
    pub fn insert(&mut self, key: String, value: String) -> (previous: Option<String>)
        ensures
            final(self)@ == with_pair(old(self)@, key@, value@),
            final(self).as_map() == old(self).as_map().insert(key@, value@),
            keys_distinct(final(self)@),
            previous is Some <==> has_key(old(self)@, key@),
            previous matches Some(p) ==> p@ == value_of(old(self)@, key@),
    {
        proof {
            use_type_invariant(&*self);
            lemma_with_pair(self@, key@, value@);
        }
        let ghost before = self@;
        let ghost k = key@;
        let ghost v = value@;
        match self.find(&key) {
            Some(i) => {
                let mut pairs = Vec::new();
                std::mem::swap(&mut pairs, &mut self.pairs);
                let former = pairs.remove(i);
                pairs.insert(i, (key, value));
                assert(pairs_view(pairs@) =~= before.update(i as int, (k, v)));
                self.pairs = pairs;
                Some(former.1)
            },
            None => {
                let mut pairs = Vec::new();
                std::mem::swap(&mut pairs, &mut self.pairs);
                pairs.push((key, value));
                assert(pairs_view(pairs@) =~= before.push((k, v)));
                self.pairs = pairs;
                None
            },
        }
    }

    /// The pairs in order, as they are to be written into the query string.
    pub fn pairs(&self) -> (pairs: &Vec<(String, String)>)
        ensures
            pairs@.len() == self@.len(),
            forall|i: int|
                0 <= i < pairs@.len() ==> (#[trigger] pairs@[i]).0@ == self@[i].0 && pairs@[i].1@
                    == self@[i].1,
            keys_distinct(self@),
    {
        proof {
            use_type_invariant(self);
        }
        &self.pairs
    }
}

} // verus!
