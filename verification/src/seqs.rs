//! Searching, keeping and replacing items of a list by a predicate.
use vstd::prelude::*;

verus! {

/// The position of the first item that `p` accepts, or the length if none.
pub open spec fn first_index<T>(s: Seq<T>, p: spec_fn(T) -> bool) -> int
    decreases s.len(),
{
    if s.len() == 0 {
        0
    } else if p(s[0]) {
        0
    } else {
        1 + first_index(s.drop_first(), p)
    }
}

/// The first item that `p` accepts.
pub open spec fn first_match<T>(s: Seq<T>, p: spec_fn(T) -> bool) -> Option<T> {
    if first_index(s, p) < s.len() {
        Some(s[first_index(s, p)])
    } else {
        None
    }
}

/// `s` with the first item that `p` accepts replaced by `x`, or with `x`
/// appended if there is none.
pub open spec fn put<T>(s: Seq<T>, p: spec_fn(T) -> bool, x: T) -> Seq<T> {
    let i = first_index(s, p);
    if i < s.len() {
        s.update(i, x)
    } else {
        s.push(x)
    }
}

/// `s` with `f` applied to the first item that `p` accepts.
pub open spec fn alter<T>(s: Seq<T>, p: spec_fn(T) -> bool, f: spec_fn(T) -> T) -> Seq<T> {
    let i = first_index(s, p);
    if i < s.len() {
        s.update(i, f(s[i]))
    } else {
        s
    }
}

/// Whether some item satisfies `p`.
pub open spec fn any<T>(s: Seq<T>, p: spec_fn(T) -> bool) -> bool {
    exists|i: int| 0 <= i < s.len() && p(#[trigger] s[i])
}

pub proof fn first_index_is<T>(s: Seq<T>, p: spec_fn(T) -> bool, i: int)
    requires
        0 <= i <= s.len(),
        forall|j: int| 0 <= j < i ==> !p(#[trigger] s[j]),
        i < s.len() ==> p(s[i]),
    ensures
        first_index(s, p) == i,
    decreases s.len(),
{
    if s.len() > 0 && !p(s[0]) {
        assert(i > 0);
        assert forall|j: int| 0 <= j < i - 1 implies !p(#[trigger] s.drop_first()[j]) by {
            assert(s.drop_first()[j] == s[j + 1]);
        }
        first_index_is(s.drop_first(), p, i - 1);
    } else if s.len() > 0 {
        if i > 0 {
            assert(!p(s[0]));
        }
    }
}

/// The first match is the first: nothing before it matches, and it does.
pub proof fn first_index_props<T>(s: Seq<T>, p: spec_fn(T) -> bool)
    ensures
        0 <= first_index(s, p) <= s.len(),
        forall|j: int| 0 <= j < first_index(s, p) ==> !p(#[trigger] s[j]),
        first_index(s, p) < s.len() ==> p(s[first_index(s, p)]),
        first_index(s, p) < s.len() <==> any(s, p),
    decreases s.len(),
{
    if s.len() > 0 && !p(s[0]) {
        first_index_props(s.drop_first(), p);
        assert forall|j: int| 0 <= j < first_index(s, p) implies !p(#[trigger] s[j]) by {
            if j > 0 {
                assert(s.drop_first()[j - 1] == s[j]);
            }
        }
    }
    if first_index(s, p) < s.len() {
        assert(p(s[first_index(s, p)]));
    }
}

/// Finds the first item that `f` accepts; the length if there is none.
pub fn find<T, F: Fn(&T) -> bool>(v: &[T], f: F, Ghost(p): Ghost<spec_fn(T) -> bool>) -> (r: usize)
    requires
        forall|x: &T| f.requires((x,)),
        forall|x: &T, b: bool| f.ensures((x,), b) ==> b == p(*x),
    ensures
        r == first_index(v@, p),
        r <= v@.len(),
        r < v@.len() ==> p(v@[r as int]),
        r < v@.len() <==> any(v@, p),
{
    let mut i: usize = 0;
    while i < v.len()
        invariant
            i <= v@.len(),
            forall|x: &T| f.requires((x,)),
            forall|x: &T, b: bool| f.ensures((x,), b) ==> b == p(*x),
            forall|j: int| 0 <= j < i ==> !p(#[trigger] v@[j]),
        decreases v@.len() - i,
    {
        if f(&v[i]) {
            proof {
                first_index_is(v@, p, i as int);
                first_index_props(v@, p);
            }
            return i;
        }
        i = i + 1;
    }
    proof {
        first_index_is(v@, p, i as int);
        first_index_props(v@, p);
    }
    i
}

/// Keeps exactly the items that `f` accepts, in order.
pub fn keep<T, F: Fn(&T) -> bool>(v: &mut Vec<T>, f: F, Ghost(p): Ghost<spec_fn(T) -> bool>)
    requires
        forall|x: &T| f.requires((x,)),
        forall|x: &T, b: bool| f.ensures((x,), b) ==> b == p(*x),
    ensures
        final(v)@ == old(v)@.filter(p),
{
    let ghost all = v@;
    let ghost mut done: int = 0;
    let mut i: usize = 0;
    proof {
        reveal(Seq::filter);
        assert(all.take(0).filter(p) =~= Seq::empty());
        assert(all.skip(0) =~= all);
        assert(v@ =~= all.take(0).filter(p) + all.skip(0));
    }
    while i < v.len()
        invariant
            forall|x: &T| f.requires((x,)),
            forall|x: &T, b: bool| f.ensures((x,), b) ==> b == p(*x),
            0 <= done <= all.len(),
            i == all.take(done).filter(p).len(),
            v@ == all.take(done).filter(p) + all.skip(done),
        decreases v@.len() - i,
    {
        proof {
            assert(v@[i as int] == all[done]);
            assert(all.take(done + 1) =~= all.take(done).push(all[done]));
            all.take(done).lemma_filter_push(all[done], p);
            assert(all.skip(done) =~= seq![all[done]] + all.skip(done + 1));
        }
        if f(&v[i]) {
            i = i + 1;
            assert(v@ =~= all.take(done + 1).filter(p) + all.skip(done + 1));
        } else {
            v.remove(i);
            assert(v@ =~= all.take(done + 1).filter(p) + all.skip(done + 1));
        }
        proof {
            done = done + 1;
        }
    }
    assert(done == all.len());
    assert(all.take(done) =~= all);
    assert(v@ =~= all.filter(p));
}

/// What a filter keeps: exactly the accepted items.
pub proof fn filter_props<T>(s: Seq<T>, p: spec_fn(T) -> bool)
    ensures
        forall|i: int| 0 <= i < s.filter(p).len() ==> p(#[trigger] s.filter(p)[i]),
        forall|i: int| 0 <= i < s.filter(p).len() ==> s.contains(#[trigger] s.filter(p)[i]),
        forall|x: T| #[trigger] s.contains(x) && p(x) ==> s.filter(p).contains(x),
{
    broadcast use vstd::seq_lib::group_filter_ensures;
    assert forall|x: T| #[trigger] s.contains(x) && p(x) implies s.filter(p).contains(x) by {
        let i = choose|i: int| 0 <= i < s.len() && s[i] == x;
        s.lemma_filter_contains(p, i);
    }
    assert forall|i: int| 0 <= i < s.filter(p).len() implies s.contains(
        #[trigger] s.filter(p)[i],
    ) by {
        s.lemma_filter_contains_rev(p, s.filter(p)[i]);
    }
}

/// What a list of references refers to.
pub open spec fn derefs<T>(s: Seq<&T>) -> Seq<T> {
    s.map_values(|x: &T| *x)
}

/// References to exactly the items that `f` accepts, in order.
pub fn pick<'a, T, F: Fn(&T) -> bool>(
    v: &'a [T],
    f: F,
    Ghost(p): Ghost<spec_fn(T) -> bool>,
) -> (r: Vec<&'a T>)
    requires
        forall|x: &T| f.requires((x,)),
        forall|x: &T, b: bool| f.ensures((x,), b) ==> b == p(*x),
    ensures
        derefs(r@) == v@.filter(p),
        r@.len() == v@.filter(p).len(),
        forall|i: int| 0 <= i < r@.len() ==> *(#[trigger] r@[i]) == v@.filter(p)[i],
{
    let mut out: Vec<&'a T> = Vec::new();
    let mut i: usize = 0;
    proof {
        reveal(Seq::filter);
        assert(derefs(out@) =~= v@.take(0).filter(p));
    }
    while i < v.len()
        invariant
            forall|x: &T| f.requires((x,)),
            forall|x: &T, b: bool| f.ensures((x,), b) ==> b == p(*x),
            i <= v@.len(),
            derefs(out@) == v@.take(i as int).filter(p),
        decreases v@.len() - i,
    {
        let x = &v[i];
        let ghost was = out@;
        proof {
            assert(v@.take(i + 1) =~= v@.take(i as int).push(*x));
            v@.take(i as int).lemma_filter_push(*x, p);
        }
        if f(x) {
            out.push(x);
            assert(derefs(out@) =~= derefs(was).push(*x));
        }
        i = i + 1;
    }
    proof {
        assert(v@.take(i as int) =~= v@);
        assert(derefs(out@).len() == out@.len());
        assert forall|k: int| 0 <= k < out@.len() implies *(#[trigger] out@[k]) == v@.filter(
            p,
        )[k] by {
            assert(derefs(out@)[k] == *out@[k]);
        }
    }
    out
}

/// An item that is put is what a search for it finds.
pub proof fn put_is_found<T>(s: Seq<T>, p: spec_fn(T) -> bool, x: T)
    requires
        p(x),
    ensures
        first_match(put(s, p, x), p) == Some(x),
        any(put(s, p, x), p),
{
    first_index_props(s, p);
    let i = first_index(s, p);
    let r = put(s, p, x);
    assert forall|j: int| 0 <= j < i implies !p(#[trigger] r[j]) by {
        assert(r[j] == s[j]);
    }
    assert(p(r[i]));
    first_index_is(r, p, i);
}

/// Putting an item leaves searches for anything else as they were.
pub proof fn put_elsewhere<T>(s: Seq<T>, p: spec_fn(T) -> bool, x: T, q: spec_fn(T) -> bool)
    requires
        forall|t: T| #[trigger] p(t) ==> !q(t),
        p(x),
    ensures
        first_match(put(s, p, x), q) == first_match(s, q),
{
    first_index_props(s, p);
    first_index_props(s, q);
    let at = first_index(s, p);
    let i = first_index(s, q);
    let r = put(s, p, x);
    assert(at < s.len() ==> !q(s[at]));
    assert forall|j: int| 0 <= j < i implies !q(#[trigger] r[j]) by {
        if j == at {
            assert(r[j] == x);
        } else {
            assert(r[j] == s[j]);
        }
    }
    if i < s.len() {
        assert(r[i] == s[i]);
        first_index_is(r, q, i);
    } else {
        assert forall|j: int| 0 <= j < r.len() implies !q(#[trigger] r[j]) by {
            if j == at {
                assert(r[j] == x);
            } else {
                assert(r[j] == s[j]);
            }
        }
        first_index_is(r, q, r.len() as int);
    }
}

/// A search for what is altered finds it altered.
pub proof fn alter_is_found<T>(s: Seq<T>, p: spec_fn(T) -> bool, f: spec_fn(T) -> T)
    requires
        forall|t: T| #[trigger] p(t) ==> p(f(t)),
    ensures
        first_match(alter(s, p, f), p) == match first_match(s, p) {
            Some(x) => Some(f(x)),
            None => None,
        },
{
    first_index_props(s, p);
    let i = first_index(s, p);
    let r = alter(s, p, f);
    if i < s.len() {
        assert forall|j: int| 0 <= j < i implies !p(#[trigger] r[j]) by {
            assert(r[j] == s[j]);
        }
        assert(p(s[i]));
        first_index_is(r, p, i);
    }
}

/// Altering an item leaves searches for anything else as they were.
pub proof fn alter_elsewhere<T>(s: Seq<T>, p: spec_fn(T) -> bool, f: spec_fn(T) -> T, q: spec_fn(T) -> bool)
    requires
        forall|t: T| #[trigger] p(t) ==> !q(t) && !q(f(t)),
    ensures
        first_match(alter(s, p, f), q) == first_match(s, q),
{
    first_index_props(s, p);
    first_index_props(s, q);
    let at = first_index(s, p);
    let i = first_index(s, q);
    let r = alter(s, p, f);
    if at < s.len() {
        assert(p(s[at]));
        assert forall|j: int| 0 <= j < i implies !q(#[trigger] r[j]) by {
            if j != at {
                assert(r[j] == s[j]);
            }
        }
        if i < s.len() {
            assert(i != at);
            assert(r[i] == s[i]);
        }
        first_index_is(r, q, i);
    }
}

/// A search that a map does not disturb finds the mapped item.
pub proof fn map_is_found<T>(s: Seq<T>, f: spec_fn(T) -> T, q: spec_fn(T) -> bool)
    requires
        forall|t: T| #[trigger] q(f(t)) == q(t),
    ensures
        first_match(s.map_values(f), q) == match first_match(s, q) {
            Some(x) => Some(f(x)),
            None => None,
        },
{
    first_index_props(s, q);
    let i = first_index(s, q);
    let r = s.map_values(f);
    assert forall|j: int| 0 <= j < i implies !q(#[trigger] r[j]) by {
        assert(r[j] == f(s[j]));
        assert(q(f(s[j])) == q(s[j]));
    }
    if i < s.len() {
        assert(r[i] == f(s[i]));
        assert(q(f(s[i])) == q(s[i]));
    }
    first_index_is(r, q, i);
}

/// A search for what a filter keeps finds the same.
pub proof fn filter_is_found<T>(s: Seq<T>, keep: spec_fn(T) -> bool, q: spec_fn(T) -> bool)
    requires
        forall|t: T| #[trigger] q(t) ==> keep(t),
    ensures
        first_match(s.filter(keep), q) == first_match(s, q),
    decreases s.len(),
{
    reveal(Seq::filter);
    first_index_props(s, q);
    if s.len() == 0 {
        assert(s.filter(keep) =~= s);
    } else {
        let front = s.drop_last();
        filter_is_found(front, keep, q);
        first_index_props(front, q);
        first_index_props(front.filter(keep), q);
        let i = first_index(front, q);
        let k = first_index(front.filter(keep), q);
        if i < front.len() {
            assert forall|j: int| 0 <= j < i implies !q(#[trigger] s[j]) by {
                assert(s[j] == front[j]);
            }
            assert(s[i] == front[i]);
            first_index_is(s, q, i);
            assert(s.filter(keep)[k] == front.filter(keep)[k]);
            assert forall|j: int| 0 <= j < k implies !q(#[trigger] s.filter(keep)[j]) by {
                assert(s.filter(keep)[j] == front.filter(keep)[j]);
            }
            first_index_is(s.filter(keep), q, k);
        } else {
            assert forall|j: int| 0 <= j < front.len() implies !q(#[trigger] s[j]) by {
                assert(s[j] == front[j]);
            }
            let n = front.filter(keep).len() as int;
            assert forall|j: int| 0 <= j < n implies !q(#[trigger] s.filter(keep)[j]) by {
                assert(s.filter(keep)[j] == front.filter(keep)[j]);
            }
            if q(s.last()) {
                assert(keep(s.last()));
                assert(s.filter(keep)[n] == s.last());
                first_index_is(s, q, s.len() - 1);
                first_index_is(s.filter(keep), q, n);
            } else {
                assert(s[s.len() - 1] == s.last());
                first_index_is(s, q, s.len() as int);
                first_index_is(s.filter(keep), q, s.filter(keep).len() as int);
            }
        }
    }
}

/// A search for what a filter drops finds nothing.
pub proof fn filtered_is_gone<T>(s: Seq<T>, keep: spec_fn(T) -> bool, q: spec_fn(T) -> bool)
    requires
        forall|t: T| #[trigger] q(t) ==> !keep(t),
    ensures
        first_match(s.filter(keep), q) is None,
        !any(s.filter(keep), q),
{
    filter_props(s, keep);
    let r = s.filter(keep);
    assert forall|j: int| 0 <= j < r.len() implies !q(#[trigger] r[j]) by {
        assert(keep(r[j]));
    }
    first_index_is(r, q, r.len() as int);
}

/// A filter keeps exactly the items it accepts.
pub proof fn kept_exactly<T>(s: Seq<T>, keep: spec_fn(T) -> bool, x: T)
    ensures
        s.filter(keep).contains(x) <==> s.contains(x) && keep(x),
{
    filter_props(s, keep);
    if s.filter(keep).contains(x) {
        let r = s.filter(keep);
        let i = choose|i: int| 0 <= i < r.len() && r[i] == x;
        assert(keep(r[i]));
        assert(s.contains(r[i]));
    }
}

} // verus!
