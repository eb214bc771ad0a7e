//! Environments: what each variable is bound to.

use vstd::prelude::*;
use crate::types::obj::{Obj, ObjView};
use crate::types::pattern::{VariablePattern, VariableView};

verus! {

/// One binding of an environment.
#[derive(Debug)]
pub struct Binding {
    pub key: VariablePattern,
    pub value: Obj,
}

/// A mapping from variable patterns to values. No key occurs twice.
#[derive(Debug)]
pub struct Environment {
    entries: Vec<Binding>,
}

/// Whether `k` is the key of one of the bindings.
pub open spec fn has_key(s: Seq<Binding>, k: VariableView) -> bool {
    exists|i: int| 0 <= i < s.len() && (#[trigger] s[i]).key@ == k
}

/// The place of a binding with key `k`.
pub open spec fn index_of(s: Seq<Binding>, k: VariableView) -> int {
    choose|i: int| 0 <= i < s.len() && (#[trigger] s[i]).key@ == k
}

/// No key occurs twice among the bindings.
pub open spec fn distinct_keys(s: Seq<Binding>) -> bool {
    forall|i: int, j: int|
        0 <= i < s.len() && 0 <= j < s.len() && (#[trigger] s[i]).key@ == (#[trigger] s[j]).key@
            ==> i == j
}

/// The mapping that a sequence of bindings stands for.
pub open spec fn bindings_map(s: Seq<Binding>) -> Map<VariableView, ObjView> {
    Map::new(|k: VariableView| has_key(s, k), |k: VariableView| s[index_of(s, k)].value@)
}

/// The mapping that a list of keys and values stands for, where a later
/// entry overrides an earlier one with the same key.
pub open spec fn entries_map(entries: Seq<(VariablePattern, Box<Obj>)>) -> Map<
    VariableView,
    ObjView,
>
    decreases entries.len(),
{
    if entries.len() == 0 {
        Map::empty()
    } else {
        entries_map(entries.drop_last()).insert(entries.last().0@, (*entries.last().1)@)
    }
}

impl View for Environment {
    type V = Map<VariableView, ObjView>;

    closed spec fn view(&self) -> Map<VariableView, ObjView> {
        bindings_map(self.entries@)
    }
}

impl Environment {
    #[verifier::type_invariant]
    spec fn well_formed(self) -> bool {
        distinct_keys(self.entries@)
    }

    /// The environment without bindings.
    pub fn new() -> (r: Environment)
        ensures
            r@ == Map::<VariableView, ObjView>::empty(),
    {
        let r = Environment { entries: Vec::new() };
        assert(r@ =~= Map::<VariableView, ObjView>::empty());
        r
    }

    /// The environment without bindings.
    pub fn empty() -> (r: Environment)
        ensures
            r@ == Map::<VariableView, ObjView>::empty(),
    {
        Environment::new()
    }

    /// The environment that holds the given entries; of two entries with
    /// the same key the later one stays.
    pub fn from(entries: Vec<(VariablePattern, Box<Obj>)>) -> (r: Environment)
        ensures
            r@ == entries_map(entries@),
    {
        let mut result = Environment::new();
        let mut i: usize = 0;
        while i < entries.len()
            invariant
                i <= entries.len(),
                result@ == entries_map(entries@.subrange(0, i as int)),
            decreases entries.len() - i,
        {
            proof {
                let next = entries@.subrange(0, i as int + 1);
                assert(next.drop_last() == entries@.subrange(0, i as int));
                assert(next.last() == entries@[i as int]);
            }
            result.insert(entries[i].0.deep_clone(), entries[i].1.deep_clone());
            i += 1;
        }
        assert(entries@.subrange(0, i as int) == entries@);
        result
    }

    /// The number of bindings.
    pub fn len(&self) -> (n: usize)
        ensures
            n == self@.len(),
            self@.dom().finite(),
    {
        proof {
            use_type_invariant(self);
            lemma_bindings_len(self.entries@);
        }
        self.entries.len()
    }

    /// The bindings, each key once.
    pub fn bindings(&self) -> (r: &Vec<Binding>)
        ensures
            distinct_keys(r@),
            bindings_map(r@) == self@,
    {
        proof {
            use_type_invariant(self);
        }
        &self.entries
    }

    /// The place of the binding with the given key, if there is one.
    fn position(&self, key: &VariablePattern) -> (r: Option<usize>)
        ensures
            match r {
                Some(i) => i < self.entries.len() && self.entries[i as int].key@ == key@,
                None => !has_key(self.entries@, key@),
            },
    {
        let mut i: usize = 0;
        while i < self.entries.len()
            invariant
                i <= self.entries.len(),
                forall|j: int| 0 <= j < i ==> (#[trigger] self.entries[j]).key@ != key@,
            decreases self.entries.len() - i,
        {
            if self.entries[i].key.content_eq(key) {
                return Some(i);
            }
            i += 1;
        }
        None
    }

    /// Whether the key is bound.
    pub fn contains_key(&self, key: &VariablePattern) -> (r: bool)
        ensures
            r == self@.contains_key(key@),
    {
        self.position(key).is_some()
    }

    /// The value that the key is bound to.
    pub fn get(&self, key: &VariablePattern) -> (r: Option<&Obj>)
        ensures
            match r {
                Some(o) => self@.contains_key(key@) && o@ == self@[key@],
                None => !self@.contains_key(key@),
            },
    {
        proof {
            use_type_invariant(self);
        }
        match self.position(key) {
            Some(i) => {
                assert(has_key(self.entries@, key@));
                Some(&self.entries[i].value)
            },
            None => None,
        }
    }

    /// Binds the key to the value; an earlier binding of the key is replaced.
    pub fn insert(&mut self, key: VariablePattern, value: Obj)
        ensures
            final(self)@ == old(self)@.insert(key@, value@),
    {
        proof {
            use_type_invariant(&*self);
        }
        let ghost before = self.entries@;
        let ghost k = key@;
        let ghost v = value@;
        let found = self.position(&key);
        let mut taken = Environment::new();
        std::mem::swap(self, &mut taken);
        let mut entries = taken.entries;
        match found {
            Some(i) => {
                entries.remove(i);
                let ghost mid = entries@;
                assert(mid == before.remove(i as int));
                assert forall|a: int| 0 <= a < mid.len() implies (#[trigger] mid[a]).key@ != k by {
                    if a < i {
                        assert(mid[a] == before[a]);
                    } else {
                        assert(mid[a] == before[a + 1]);
                    }
                }
                entries.push(Binding { key, value });
                proof {
                    lemma_push_fresh(mid, entries@[mid.len() as int]);
                    lemma_remove_binding(before, i as int);
                    assert(bindings_map(entries@) =~= bindings_map(before).insert(k, v));
                }
            },
            None => {
                entries.push(Binding { key, value });
                proof {
                    lemma_push_fresh(before, entries@[before.len() as int]);
                }
            },
        }
        *self = Environment { entries };
    }

    /// Removes the binding of the key, if there is one.
    pub fn remove(&mut self, key: &VariablePattern)
        ensures
            final(self)@ == old(self)@.remove(key@),
    {
        proof {
            use_type_invariant(&*self);
        }
        let ghost before = self.entries@;
        let found = self.position(key);
        let mut taken = Environment::new();
        std::mem::swap(self, &mut taken);
        let mut entries = taken.entries;
        match found {
            Some(i) => {
                entries.remove(i);
                proof {
                    lemma_remove_binding(before, i as int);
                }
            },
            None => {
                assert(bindings_map(before) =~= bindings_map(before).remove(key@));
            },
        }
        *self = Environment { entries };
    }

    /// The environment that holds the bindings of `self`, overridden by
    /// those of `other` where both bind a key.
    pub fn extend(&self, other: Environment) -> (r: Environment)
        ensures
            r@ == self@.union_prefer_right(other@),
    {
        proof {
            use_type_invariant(self);
        }
        let mut result = Environment::new();
        let mut i: usize = 0;
        while i < self.entries.len()
            invariant
                i <= self.entries.len(),
                result@ == bindings_map(self.entries@.subrange(0, i as int)),
                distinct_keys(self.entries@),
            decreases self.entries.len() - i,
        {
            let b = &self.entries[i];
            result.insert(b.key.deep_clone(), b.value.deep_clone());
            proof {
                let prev = self.entries@.subrange(0, i as int);
                let next = self.entries@.subrange(0, i as int + 1);
                assert(next == prev.push(self.entries@[i as int]));
                assert forall|a: int| 0 <= a < prev.len() implies (#[trigger] prev[a]).key@
                    != self.entries@[i as int].key@ by {
                    assert(prev[a] == self.entries@[a]);
                }
                assert(distinct_keys(prev)) by {
                    assert forall|a: int, c: int|
                        0 <= a < prev.len() && 0 <= c < prev.len() && (#[trigger] prev[a]).key@ == (
                        #[trigger] prev[c]).key@ implies a == c by {
                        assert(prev[a] == self.entries@[a]);
                        assert(prev[c] == self.entries@[c]);
                    }
                }
                lemma_push_fresh(prev, self.entries@[i as int]);
            }
            i += 1;
        }
        proof {
            use_type_invariant(self);
            use_type_invariant(&other);
            assert(self.entries@.subrange(0, i as int) == self.entries@);
        }
        let mut j: usize = 0;
        while j < other.entries.len()
            invariant
                j <= other.entries.len(),
                result@ == self@.union_prefer_right(
                    bindings_map(other.entries@.subrange(0, j as int)),
                ),
                distinct_keys(other.entries@),
            decreases other.entries.len() - j,
        {
            let b = &other.entries[j];
            result.insert(b.key.deep_clone(), b.value.deep_clone());
            proof {
                let prev = other.entries@.subrange(0, j as int);
                let next = other.entries@.subrange(0, j as int + 1);
                assert(next == prev.push(other.entries@[j as int]));
                assert forall|a: int| 0 <= a < prev.len() implies (#[trigger] prev[a]).key@
                    != other.entries@[j as int].key@ by {
                    assert(prev[a] == other.entries@[a]);
                }
                assert(distinct_keys(prev)) by {
                    assert forall|a: int, c: int|
                        0 <= a < prev.len() && 0 <= c < prev.len() && (#[trigger] prev[a]).key@ == (
                        #[trigger] prev[c]).key@ implies a == c by {
                        assert(prev[a] == other.entries@[a]);
                        assert(prev[c] == other.entries@[c]);
                    }
                }
                lemma_push_fresh(prev, other.entries@[j as int]);
                assert(self@.union_prefer_right(bindings_map(prev)).insert(
                    b.key@,
                    b.value@,
                ) =~= self@.union_prefer_right(bindings_map(next)));
            }
            j += 1;
        }
        proof {
            assert(other.entries@.subrange(0, j as int) == other.entries@);
        }
        result
    }

    /// A copy with the same bindings.
    pub fn deep_clone(&self) -> (r: Environment)
        ensures
            r@ == self@,
    {
        let r = self.extend(Environment::new());
        assert(r@ =~= self@);
        r
    }
}

/// With distinct keys, the mapping has as many keys as there are bindings.
pub proof fn lemma_bindings_len(s: Seq<Binding>)
    requires
        distinct_keys(s),
    ensures
        bindings_map(s).dom().finite(),
        bindings_map(s).len() == s.len(),
    decreases s.len(),
{
    if s.len() == 0 {
        assert(bindings_map(s) =~= Map::<VariableView, ObjView>::empty());
    } else {
        let init = s.drop_last();
        assert forall|i: int, j: int|
            0 <= i < init.len() && 0 <= j < init.len() && (#[trigger] init[i]).key@ == (
            #[trigger] init[j]).key@ implies i == j by {
            assert(init[i] == s[i]);
            assert(init[j] == s[j]);
        }
        lemma_bindings_len(init);
        assert forall|a: int| 0 <= a < init.len() implies (#[trigger] init[a]).key@
            != s.last().key@ by {
            assert(init[a] == s[a]);
        }
        assert(s == init.push(s.last()));
        lemma_push_fresh(init, s.last());
        assert(!bindings_map(init).contains_key(s.last().key@)) by {
            if has_key(init, s.last().key@) {
                let w = index_of(init, s.last().key@);
                assert(init[w].key@ == s.last().key@);
            }
        }
    }
}

/// Appending a binding whose key is new inserts it into the mapping.
pub proof fn lemma_push_fresh(s: Seq<Binding>, b: Binding)
    requires
        distinct_keys(s),
        forall|i: int| 0 <= i < s.len() ==> (#[trigger] s[i]).key@ != b.key@,
    ensures
        distinct_keys(s.push(b)),
        bindings_map(s.push(b)) == bindings_map(s).insert(b.key@, b.value@),
{
    let t = s.push(b);
    assert forall|i: int, j: int|
        0 <= i < t.len() && 0 <= j < t.len() && (#[trigger] t[i]).key@ == (#[trigger] t[j]).key@
        implies i == j by {
        if i < s.len() {
            assert(t[i] == s[i]);
        }
        if j < s.len() {
            assert(t[j] == s[j]);
        }
    }
    assert forall|k: VariableView| has_key(t, k) <==> (has_key(s, k) || k == b.key@) by {
        if has_key(t, k) {
            let i = index_of(t, k);
            if i < s.len() {
                assert(s[i].key@ == k);
            }
        }
        if has_key(s, k) {
            let i = index_of(s, k);
            assert(t[i].key@ == k);
        }
        if k == b.key@ {
            assert(t[s.len() as int].key@ == k);
        }
    }
    assert forall|k: VariableView| has_key(t, k) implies #[trigger] bindings_map(t)[k]
        == bindings_map(s).insert(b.key@, b.value@)[k] by {
        let i = index_of(t, k);
        if k == b.key@ {
            if i < s.len() {
                assert(s[i].key@ == k);
            }
            assert(i == s.len());
        } else {
            assert(i < s.len());
            assert(s[i].key@ == k);
            let j = index_of(s, k);
            assert(s[j].key@ == k);
            assert(i == j);
        }
    }
    assert(bindings_map(t) =~= bindings_map(s).insert(b.key@, b.value@));
}

/// Taking a binding out removes its key from the mapping.
pub proof fn lemma_remove_binding(s: Seq<Binding>, i: int)
    requires
        distinct_keys(s),
        0 <= i < s.len(),
    ensures
        distinct_keys(s.remove(i)),
        bindings_map(s.remove(i)) == bindings_map(s).remove(s[i].key@),
{
    let t = s.remove(i);
    let at = |a: int| if a < i { a } else { a + 1 };
    assert forall|a: int| 0 <= a < t.len() implies (#[trigger] t[a]) == s[at(a)] by {}
    assert forall|a: int, c: int|
        0 <= a < t.len() && 0 <= c < t.len() && (#[trigger] t[a]).key@ == (#[trigger] t[c]).key@
        implies a == c by {
        assert(t[a] == s[at(a)]);
        assert(t[c] == s[at(c)]);
        assert(s[at(a)].key@ == s[at(c)].key@);
    }
    assert forall|k: VariableView| has_key(t, k) <==> (has_key(s, k) && k != s[i].key@) by {
        if has_key(t, k) {
            let a = index_of(t, k);
            assert(t[a] == s[at(a)]);
            assert(s[at(a)].key@ == k);
            if k == s[i].key@ {
                assert(at(a) == i);
            }
        }
        if has_key(s, k) && k != s[i].key@ {
            let a = index_of(s, k);
            assert(s[a].key@ == k);
            if a < i {
                assert(t[a] == s[a]);
                assert(t[a].key@ == k);
            } else {
                assert(t[a - 1] == s[a]);
                assert(t[a - 1].key@ == k);
            }
        }
    }
    assert forall|k: VariableView| has_key(t, k) implies #[trigger] bindings_map(t)[k]
        == bindings_map(s).remove(s[i].key@)[k] by {
        let a = index_of(t, k);
        assert(t[a] == s[at(a)]);
        assert(s[at(a)].key@ == k);
        let c = index_of(s, k);
        assert(s[c].key@ == k);
        assert(c == at(a));
    }
    assert(bindings_map(t) =~= bindings_map(s).remove(s[i].key@));
}

impl Clone for Environment {
    fn clone(&self) -> (r: Self)
        ensures
            r@ == self@,
    {
        self.deep_clone()
    }
}

} // verus!
