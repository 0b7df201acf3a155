//! A map kept in key order, so that walking it is deterministic.
use crate::text::{rank_texts, text_before, text_before_asym, text_before_trans, Rank};
use crate::seqs::{filter_props, keep};
use vstd::prelude::*;

verus! {

/// A key with a strict total order.
pub trait Key: Sized {
    /// What identifies a key.
    type Id;

    spec fn id(&self) -> Self::Id;

    spec fn before(a: Self::Id, b: Self::Id) -> bool;

    proof fn before_trans(a: Self::Id, b: Self::Id, c: Self::Id)
        requires
            Self::before(a, b),
            Self::before(b, c),
        ensures
            Self::before(a, c),
    ;

    proof fn before_asym(a: Self::Id, b: Self::Id)
        requires
            Self::before(a, b),
        ensures
            !Self::before(b, a),
            a != b,
    ;

    fn rank(&self, other: &Self) -> (r: Rank)
        ensures
            r == Rank::Before <==> Self::before(self.id(), other.id()),
            r == Rank::Same <==> self.id() == other.id(),
            r == Rank::After <==> Self::before(other.id(), self.id()),
    ;
}

impl Key for usize {
    type Id = usize;

    open spec fn id(&self) -> usize {
        *self
    }

    open spec fn before(a: usize, b: usize) -> bool {
        a < b
    }

    proof fn before_trans(a: usize, b: usize, c: usize) {
    }

    proof fn before_asym(a: usize, b: usize) {
    }

    fn rank(&self, other: &usize) -> (r: Rank) {
        if *self < *other {
            Rank::Before
        } else if *self == *other {
            Rank::Same
        } else {
            Rank::After
        }
    }
}

impl Key for u32 {
    type Id = u32;

    open spec fn id(&self) -> u32 {
        *self
    }

    open spec fn before(a: u32, b: u32) -> bool {
        a < b
    }

    proof fn before_trans(a: u32, b: u32, c: u32) {
    }

    proof fn before_asym(a: u32, b: u32) {
    }

    fn rank(&self, other: &u32) -> (r: Rank) {
        if *self < *other {
            Rank::Before
        } else if *self == *other {
            Rank::Same
        } else {
            Rank::After
        }
    }
}

impl Key for String {
    type Id = Seq<char>;

    open spec fn id(&self) -> Seq<char> {
        self@
    }

    open spec fn before(a: Seq<char>, b: Seq<char>) -> bool {
        text_before(a, b)
    }

    proof fn before_trans(a: Seq<char>, b: Seq<char>, c: Seq<char>) {
        text_before_trans(a, b, c);
    }

    proof fn before_asym(a: Seq<char>, b: Seq<char>) {
        text_before_asym(a, b);
    }

    fn rank(&self, other: &String) -> (r: Rank) {
        rank_texts(self.as_str(), other.as_str())
    }
}

/// The part of a map that `p` accepts, by key and value.
pub open spec fn kept<I, V>(m: Map<I, V>, p: spec_fn(I, V) -> bool) -> Map<I, V> {
    Map::new(|k: I| m.contains_key(k) && p(k, m[k]), |k: I| m[k])
}

/// A map whose entries stand in strictly ascending key order.
#[derive(Clone, PartialEq, Eq, Debug)]
pub struct SortedMap<K, V> {
    pub entries: Vec<(K, V)>,
}

impl<K: Key, V> SortedMap<K, V> {
    /// The entries ascend strictly, so no key occurs twice.
    pub open spec fn wf(&self) -> bool {
        forall|i: int, j: int|
            0 <= i < j < self.entries@.len() ==> K::before(
                (#[trigger] self.entries@[i]).0.id(),
                (#[trigger] self.entries@[j]).0.id(),
            )
    }

    /// Whether the key stands at position `i`.
    pub open spec fn at(&self, i: int, k: K::Id) -> bool {
        0 <= i < self.entries@.len() && self.entries@[i].0.id() == k
    }

    /// The key's position, if it has one.
    pub open spec fn pos(&self, k: K::Id) -> int {
        choose|i: int| self.at(i, k)
    }

    pub open spec fn has(&self, k: K::Id) -> bool {
        exists|i: int| self.at(i, k)
    }

    /// The mathematical map.
    pub open spec fn view(&self) -> Map<K::Id, V> {
        Map::new(|k: K::Id| self.has(k), |k: K::Id| self.entries@[self.pos(k)].1)
    }

    /// Each entry is what its key maps to, at one position only.
    pub proof fn lemma_at(&self, i: int)
        requires
            self.wf(),
            0 <= i < self.entries@.len(),
        ensures
            self@.contains_key(self.entries@[i].0.id()),
            self@[self.entries@[i].0.id()] == self.entries@[i].1,
            self.pos(self.entries@[i].0.id()) == i,
    {
        let k = self.entries@[i].0.id();
        assert(self.at(i, k));
        let p = self.pos(k);
        assert(self.at(p, k));
        if p < i {
            K::before_asym(self.entries@[p].0.id(), self.entries@[i].0.id());
        } else if i < p {
            K::before_asym(self.entries@[i].0.id(), self.entries@[p].0.id());
        }
    }

    proof fn lemma_all(&self)
        requires
            self.wf(),
        ensures
            forall|i: int|
                0 <= i < self.entries@.len() ==> self@.contains_key(
                    (#[trigger] self.entries@[i]).0.id(),
                ) && self@[self.entries@[i].0.id()] == self.entries@[i].1 && self.pos(
                    self.entries@[i].0.id(),
                ) == i,
            forall|k: K::Id| #[trigger]
                self@.contains_key(k) ==> self.at(self.pos(k), k) && self@[k]
                    == self.entries@[self.pos(k)].1,
    {
        assert forall|i: int| 0 <= i < self.entries@.len() implies self@.contains_key(
            (#[trigger] self.entries@[i]).0.id(),
        ) && self@[self.entries@[i].0.id()] == self.entries@[i].1 && self.pos(
            self.entries@[i].0.id(),
        ) == i by {
            self.lemma_at(i);
        }
    }

    pub fn new() -> (r: Self)
        ensures
            r.wf(),
            r@ == Map::<K::Id, V>::empty(),
            r.entries@.len() == 0,
    {
        let r = SortedMap { entries: Vec::new() };
        assert(r@ =~= Map::<K::Id, V>::empty());
        r
    }

    pub fn len(&self) -> (r: usize)
        ensures
            r == self.entries@.len(),
    {
        self.entries.len()
    }

    /// The first position whose key is not before `key`.
    fn seek(&self, key: &K) -> (r: usize)
        requires
            self.wf(),
        ensures
            r <= self.entries@.len(),
            forall|j: int|
                0 <= j < r ==> K::before((#[trigger] self.entries@[j]).0.id(), key.id()),
            r < self.entries@.len() ==> self.entries@[r as int].0.id() == key.id() || K::before(
                key.id(),
                self.entries@[r as int].0.id(),
            ),
            r < self.entries@.len() && self.entries@[r as int].0.id() == key.id()
                ==> self@.contains_key(key.id()) && self.pos(key.id()) == r && self@[key.id()]
                == self.entries@[r as int].1,
            !(r < self.entries@.len() && self.entries@[r as int].0.id() == key.id())
                ==> !self@.contains_key(key.id()),
    {
        let mut i: usize = 0;
        while i < self.entries.len() && self.entries[i].0.rank(key) == Rank::Before
            invariant
                i <= self.entries@.len(),
                forall|j: int|
                    0 <= j < i ==> K::before((#[trigger] self.entries@[j]).0.id(), key.id()),
            decreases self.entries@.len() - i,
        {
            i = i + 1;
        }
        proof {
            self.lemma_all();
            if i < self.entries@.len() {
                let r = self.entries@[i as int].0;
                assert(r.id() == key.id() || K::before(key.id(), r.id()));
            }
            if !(i < self.entries@.len() && self.entries@[i as int].0.id() == key.id())
                && self@.contains_key(key.id()) {
                let p = self.pos(key.id());
                assert(self.at(p, key.id()));
                if p < i {
                    K::before_asym(self.entries@[p].0.id(), key.id());
                } else {
                    if p > i {
                        K::before_trans(
                            key.id(),
                            self.entries@[i as int].0.id(),
                            self.entries@[p].0.id(),
                        );
                        K::before_asym(key.id(), self.entries@[p].0.id());
                    }
                }
            }
        }
        i
    }

    pub fn contains(&self, key: &K) -> (r: bool)
        requires
            self.wf(),
        ensures
            r == self@.contains_key(key.id()),
    {
        let i: usize = self.seek(key);
        i < self.entries.len() && self.entries[i].0.rank(key) == Rank::Same
    }

    pub fn get(&self, key: &K) -> (r: Option<&V>)
        requires
            self.wf(),
        ensures
            match r {
                Some(v) => self@.contains_key(key.id()) && *v == self@[key.id()],
                None => !self@.contains_key(key.id()),
            },
    {
        let i: usize = self.seek(key);
        if i < self.entries.len() && self.entries[i].0.rank(key) == Rank::Same {
            Some(&self.entries[i].1)
        } else {
            None
        }
    }

    /// Replacing one value in place keeps every key and every other value.
    proof fn lemma_update(before: Self, after: Self, i: int, v: V)
        requires
            before.wf(),
            0 <= i < before.entries@.len(),
            after.entries@ == before.entries@.update(i, (before.entries@[i].0, v)),
        ensures
            after.wf(),
            after@ == before@.insert(before.entries@[i].0.id(), v),
    {
        let k = before.entries@[i].0.id();
        assert forall|a: int, b: int| 0 <= a < b < after.entries@.len() implies K::before(
            (#[trigger] after.entries@[a]).0.id(),
            (#[trigger] after.entries@[b]).0.id(),
        ) by {
            assert(after.entries@[a].0 == before.entries@[a].0);
            assert(after.entries@[b].0 == before.entries@[b].0);
        }
        before.lemma_all();
        after.lemma_all();
        assert forall|x: K::Id|
            after@.contains_key(x) == before@.insert(k, v).contains_key(x) by {
            if after@.contains_key(x) {
                let p = after.pos(x);
                assert(before.at(p, x));
            }
            if before@.contains_key(x) {
                let p = before.pos(x);
                assert(after.at(p, x));
            }
        }
        assert forall|x: K::Id| after@.contains_key(x) implies after@[x] == before@.insert(
            k,
            v,
        )[x] by {
            let p = after.pos(x);
            assert(before.at(p, x));
            assert(before.entries@[p].0.id() == x);
        }
        assert(after@ =~= before@.insert(k, v));
    }

    pub fn get_mut(&mut self, key: &K) -> (r: Option<&mut V>)
        requires
            old(self).wf(),
        ensures
            final(self).wf(),
            match r {
                Some(v) => old(self)@.contains_key(key.id()) && *v == old(self)@[key.id()]
                    && final(self)@ == old(self)@.insert(key.id(), *final(v)),
                None => !old(self)@.contains_key(key.id()) && *final(self) == *old(self),
            },
    {
        let i: usize = self.seek(key);
        if i < self.entries.len() && self.entries[i].0.rank(key) == Rank::Same {
            let ghost before = *self;
            proof {
                assert forall|after: Self|
                    #![trigger after.wf()]
                    #![trigger after.view()]
                    after.entries@ == before.entries@.update(
                        i as int,
                        (before.entries@[i as int].0, after.entries@[i as int].1),
                    ) implies after.wf() && after@ == before@.insert(
                    key.id(),
                    after.entries@[i as int].1,
                ) by {
                    Self::lemma_update(before, after, i as int, after.entries@[i as int].1);
                }
            }
            Some(&mut self.entries[i].1)
        } else {
            None
        }
    }

    /// Puts `value` under `key`, replacing what was there.
    pub fn insert(&mut self, key: K, value: V)
        requires
            old(self).wf(),
        ensures
            final(self).wf(),
            final(self)@ == old(self)@.insert(key.id(), value),
    {
        let i: usize = self.seek(&key);
        let ghost before = *self;
        let ghost k = key.id();
        if i < self.entries.len() && self.entries[i].0.rank(&key) == Rank::Same {
            self.entries[i].1 = value;
            proof {
                Self::lemma_update(before, *self, i as int, value);
            }
        } else {
            self.entries.insert(i, (key, value));
            proof {
                Self::lemma_insert(before, *self, i as int, key, value);
            }
        }
    }

    proof fn lemma_insert(before: Self, after: Self, i: int, key: K, value: V)
        requires
            before.wf(),
            0 <= i <= before.entries@.len(),
            forall|j: int|
                0 <= j < i ==> K::before((#[trigger] before.entries@[j]).0.id(), key.id()),
            i < before.entries@.len() ==> K::before(key.id(), before.entries@[i].0.id()),
            !before@.contains_key(key.id()),
            after.entries@ == before.entries@.insert(i, (key, value)),
        ensures
            after.wf(),
            after@ == before@.insert(key.id(), value),
    {
        let k = key.id();
        assert forall|a: int, b: int| 0 <= a < b < after.entries@.len() implies K::before(
            (#[trigger] after.entries@[a]).0.id(),
            (#[trigger] after.entries@[b]).0.id(),
        ) by {
            let x = if a < i { a } else { a - 1 };
            let y = if b < i { b } else { b - 1 };
            if a != i {
                assert(after.entries@[a] == before.entries@[x]);
            }
            if b != i {
                assert(after.entries@[b] == before.entries@[y]);
            }
            if a == i && y > i {
                K::before_trans(k, before.entries@[i].0.id(), before.entries@[y].0.id());
            }
        }
        before.lemma_all();
        after.lemma_all();
        assert(after.entries@[i] == (key, value));
        assert forall|x: K::Id|
            after@.contains_key(x) == before@.insert(k, value).contains_key(x) by {
            if after@.contains_key(x) {
                let p = after.pos(x);
                if p < i {
                    assert(before.at(p, x));
                } else if p > i {
                    assert(before.at(p - 1, x));
                }
            }
            if before@.contains_key(x) {
                let p = before.pos(x);
                if p < i {
                    assert(after.entries@[p] == before.entries@[p]);
                    assert(after.at(p, x));
                } else {
                    assert(after.entries@[p + 1] == before.entries@[p]);
                    assert(after.at(p + 1, x));
                }
            }
        }
        assert forall|x: K::Id| after@.contains_key(x) implies after@[x] == before@.insert(
            k,
            value,
        )[x] by {
            let p = after.pos(x);
            if p < i {
                assert(before.entries@[p].0.id() == x);
            } else if p > i {
                assert(before.entries@[p - 1].0.id() == x);
            }
        }
        assert(after@ =~= before@.insert(k, value));
    }

    proof fn lemma_remove(before: Self, after: Self, i: int)
        requires
            before.wf(),
            0 <= i < before.entries@.len(),
            after.entries@ == before.entries@.remove(i),
        ensures
            after.wf(),
            after@ == before@.remove(before.entries@[i].0.id()),
    {
        let k = before.entries@[i].0.id();
        assert forall|a: int, b: int| 0 <= a < b < after.entries@.len() implies K::before(
            (#[trigger] after.entries@[a]).0.id(),
            (#[trigger] after.entries@[b]).0.id(),
        ) by {
            let x = if a < i { a } else { a + 1 };
            let y = if b < i { b } else { b + 1 };
            assert(after.entries@[a] == before.entries@[x]);
            assert(after.entries@[b] == before.entries@[y]);
        }
        before.lemma_all();
        after.lemma_all();
        assert forall|x: K::Id| after@.contains_key(x) == before@.remove(k).contains_key(x) by {
            if after@.contains_key(x) {
                let p = after.pos(x);
                let q = if p < i { p } else { p + 1 };
                assert(after.entries@[p] == before.entries@[q]);
                assert(before.at(q, x));
                assert(before.entries@[q].0.id() == x);
            }
            if before@.remove(k).contains_key(x) {
                let p = before.pos(x);
                assert(p != i);
                let q = if p < i { p } else { p - 1 };
                assert(after.entries@[q] == before.entries@[p]);
                assert(after.at(q, x));
            }
        }
        assert forall|x: K::Id| after@.contains_key(x) implies after@[x] == before@.remove(
            k,
        )[x] by {
            let p = after.pos(x);
            let q = if p < i { p } else { p + 1 };
            assert(after.entries@[p] == before.entries@[q]);
            assert(before.entries@[q].0.id() == x);
        }
        assert(after@ =~= before@.remove(k));
    }

    /// Takes the key out, and gives back what it mapped to.
    pub fn remove(&mut self, key: &K) -> (r: Option<V>)
        requires
            old(self).wf(),
        ensures
            final(self).wf(),
            final(self)@ == old(self)@.remove(key.id()),
            match r {
                Some(v) => old(self)@.contains_key(key.id()) && v == old(self)@[key.id()],
                None => !old(self)@.contains_key(key.id()),
            },
    {
        let i: usize = self.seek(key);
        let ghost before = *self;
        if i < self.entries.len() && self.entries[i].0.rank(key) == Rank::Same {
            let (_, v) = self.entries.remove(i);
            proof {
                Self::lemma_remove(before, *self, i as int);
            }
            Some(v)
        } else {
            assert(self@.remove(key.id()) =~= self@);
            None
        }
    }

    pub fn clear(&mut self)
        ensures
            final(self).wf(),
            final(self)@ == Map::<K::Id, V>::empty(),
    {
        self.entries.clear();
        assert(self@ =~= Map::<K::Id, V>::empty());
    }

    /// The predicate on entries that `p` makes on keys and values.
    pub open spec fn entry_test(p: spec_fn(K::Id, V) -> bool) -> spec_fn((K, V)) -> bool {
        |e: (K, V)| p(e.0.id(), e.1)
    }

    /// A filtered run of ascending entries ascends.
    proof fn lemma_filter_ascends(s: Seq<(K, V)>, q: spec_fn((K, V)) -> bool)
        requires
            forall|i: int, j: int|
                0 <= i < j < s.len() ==> K::before(
                    (#[trigger] s[i]).0.id(),
                    (#[trigger] s[j]).0.id(),
                ),
        ensures
            forall|i: int, j: int|
                0 <= i < j < s.filter(q).len() ==> K::before(
                    (#[trigger] s.filter(q)[i]).0.id(),
                    (#[trigger] s.filter(q)[j]).0.id(),
                ),
        decreases s.len(),
    {
        reveal(Seq::filter);
        if s.len() > 0 {
            let front = s.drop_last();
            assert forall|i: int, j: int| 0 <= i < j < front.len() implies K::before(
                (#[trigger] front[i]).0.id(),
                (#[trigger] front[j]).0.id(),
            ) by {
                assert(front[i] == s[i] && front[j] == s[j]);
            }
            Self::lemma_filter_ascends(front, q);
            if q(s.last()) {
                let part = front.filter(q);
                filter_props(front, q);
                assert(s.filter(q) =~= part.push(s.last()));
                assert forall|i: int, j: int| 0 <= i < j < s.filter(q).len() implies K::before(
                    (#[trigger] s.filter(q)[i]).0.id(),
                    (#[trigger] s.filter(q)[j]).0.id(),
                ) by {
                    if j < part.len() {
                        assert(s.filter(q)[i] == part[i] && s.filter(q)[j] == part[j]);
                    } else {
                        assert(s.filter(q)[i] == part[i]);
                        assert(front.contains(part[i]));
                        let k = choose|k: int| 0 <= k < front.len() && front[k] == part[i];
                        assert(s[k] == part[i]);
                        assert(s[s.len() - 1] == s.filter(q)[j]);
                    }
                }
            }
        }
    }

    /// Keeps exactly the entries that `f` accepts.
    pub fn retain<F: Fn(&(K, V)) -> bool>(
        &mut self,
        f: F,
        Ghost(p): Ghost<spec_fn(K::Id, V) -> bool>,
    )
        requires
            old(self).wf(),
            forall|e: &(K, V)| f.requires((e,)),
            forall|e: &(K, V), b: bool| f.ensures((e,), b) ==> b == p(e.0.id(), e.1),
        ensures
            final(self).wf(),
            final(self)@ == kept(old(self)@, p),
    {
        let ghost before = *self;
        let ghost q = Self::entry_test(p);
        keep(&mut self.entries, f, Ghost(q));
        proof {
            Self::lemma_filter_ascends(before.entries@, q);
            filter_props(before.entries@, q);
            before.lemma_all();
            self.lemma_all();
            assert forall|k: K::Id| self@.contains_key(k) == kept(before@, p).contains_key(k) by {
                if self@.contains_key(k) {
                    let e = self.entries@[self.pos(k)];
                    assert(before.entries@.contains(e));
                    let i = choose|i: int| 0 <= i < before.entries@.len() && before.entries@[i] == e;
                    assert(before.entries@[i].0.id() == k);
                    assert(q(e));
                }
                if kept(before@, p).contains_key(k) {
                    let e = before.entries@[before.pos(k)];
                    assert(before.entries@.contains(e));
                    assert(q(e));
                    assert(self.entries@.contains(e));
                    let i = choose|i: int| 0 <= i < self.entries@.len() && self.entries@[i] == e;
                    assert(self.entries@[i].0.id() == k);
                }
            }
            assert forall|k: K::Id| self@.contains_key(k) implies self@[k] == kept(
                before@,
                p,
            )[k] by {
                let e = self.entries@[self.pos(k)];
                assert(before.entries@.contains(e));
                let i = choose|i: int| 0 <= i < before.entries@.len() && before.entries@[i] == e;
                assert(before.entries@[i].0.id() == k);
            }
            assert(self@ =~= kept(before@, p));
        }
    }
}

} // verus!
