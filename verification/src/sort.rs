//! Stable sorting and the order of texts.
use vstd::prelude::*;

use crate::text;

verus! {

/// Whether `a` comes no later than `b` in the order of their code points.
pub open spec fn text_le(a: Seq<char>, b: Seq<char>) -> bool
    decreases a.len(),
{
    if a.len() == 0 {
        true
    } else if b.len() == 0 {
        false
    } else if a[0] == b[0] {
        text_le(a.drop_first(), b.drop_first())
    } else {
        a[0] < b[0]
    }
}

/// Whether `a` comes no later than `b` in the order of their code points.
pub fn in_text_order(a: &str, b: &str) -> (r: bool)
    ensures
        r == text_le(a@, b@),
{
    let x = text::chars_of(a);
    let y = text::chars_of(b);
    let mut i: usize = 0;
    assert(x@.skip(0) =~= x@);
    assert(y@.skip(0) =~= y@);
    loop
        invariant
            i <= x@.len(),
            i <= y@.len(),
            text_le(x@, y@) == text_le(x@.skip(i as int), y@.skip(i as int)),
            x@ == a@,
            y@ == b@,
        decreases x@.len() - i,
    {
        if i == x.len() {
            return true;
        }
        if i == y.len() {
            return false;
        }
        if x[i] != y[i] {
            return x[i] < y[i];
        }
        assert(x@.skip(i as int).drop_first() =~= x@.skip(i + 1));
        assert(y@.skip(i as int).drop_first() =~= y@.skip(i + 1));
        i = i + 1;
    }
}

/// `s` with `x` after every element that comes no later than it, counted from the end.
pub open spec fn put<T>(s: Seq<T>, x: T, le: spec_fn(T, T) -> bool) -> Seq<T>
    decreases s.len(),
{
    if s.len() == 0 || le(s.last(), x) {
        s.push(x)
    } else {
        put(s.drop_last(), x, le).push(s.last())
    }
}

/// `s` sorted; elements that compare equal keep their order.
pub open spec fn sorted<T>(s: Seq<T>, le: spec_fn(T, T) -> bool) -> Seq<T>
    decreases s.len(),
{
    if s.len() == 0 {
        s
    } else {
        put(sorted(s.drop_last(), le), s.last(), le)
    }
}

/// `v` sorted by `f`; elements that compare equal keep their order.
pub fn sort_by<T: DeepView, F: Fn(&T, &T) -> bool>(
    v: Vec<T>,
    f: F,
    Ghost(le): Ghost<spec_fn(T::V, T::V) -> bool>,
) -> (r: Vec<T>)
    requires
        forall|a: &T, b: &T| #[trigger] call_requires(f, (a, b)),
        forall|a: &T, b: &T, t: bool| #[trigger]
            call_ensures(f, (a, b), t) ==> t == le(a.deep_view(), b.deep_view()),
    ensures
        r.deep_view() == sorted(v.deep_view(), le),
        r@.to_multiset() =~= v@.to_multiset(),
{
    let ghost all = v.deep_view();
    let ghost raw = v@;
    let mut rest = v;
    let mut left: Vec<T> = Vec::new();
    while rest.len() > 0
        invariant
            left@ == raw.skip(rest@.len() as int).reverse(),
            rest@ == raw.take(rest@.len() as int),
            rest@.len() <= raw.len(),
        decreases rest@.len(),
    {
        let ghost n = rest@.len();
        match rest.pop() {
            Some(x) => {
                left.push(x);
                assert(raw.skip(n - 1) =~= seq![raw[n - 1]] + raw.skip(n as int));
                assert(left@ =~= raw.skip(n - 1).reverse());
            },
            None => {},
        }
    }
    assert(raw.skip(0) =~= raw);
    let mut r: Vec<T> = Vec::new();
    let ghost mut k: int = 0;
    assert(all.take(0) =~= Seq::empty());
    assert(raw.take(0) =~= Seq::empty());
    assert(r.deep_view() =~= sorted(all.take(0), le));
    while left.len() > 0
        invariant
            forall|a: &T, b: &T| #[trigger] call_requires(f, (a, b)),
            forall|a: &T, b: &T, t: bool| #[trigger]
                call_ensures(f, (a, b), t) ==> t == le(a.deep_view(), b.deep_view()),
            all.len() == raw.len(),
            forall|i: int| 0 <= i < raw.len() ==> all[i] == (#[trigger] raw[i]).deep_view(),
            0 <= k,
            k + left@.len() == raw.len(),
            left@ == raw.skip(k).reverse(),
            r.deep_view() == sorted(all.take(k), le),
            r@.to_multiset() =~= raw.take(k).to_multiset(),
        decreases left@.len(),
    {
        let ghost before = left@;
        match left.pop() {
            Some(x) => {
                proof {
                    assert(x == raw[k]);
                    assert(left@ =~= raw.skip(k + 1).reverse());
                    assert(all.take(k + 1).drop_last() =~= all.take(k));
                    assert(raw.take(k + 1) =~= raw.take(k).push(x));
                    raw.take(k).to_multiset_ensures();
                    vstd::seq_lib::to_multiset_build(raw.take(k), x);
                }
                insert_into(&mut r, x, &f, Ghost(le));
                proof {
                    k = k + 1;
                }
            },
            None => {},
        }
    }
    assert(all.take(all.len() as int) =~= all);
    assert(raw.take(raw.len() as int) =~= raw);
    r
}

/// Puts `x` after every element that comes no later than it, counted from the end.
fn insert_into<T: DeepView, F: Fn(&T, &T) -> bool>(
    r: &mut Vec<T>,
    x: T,
    f: &F,
    Ghost(le): Ghost<spec_fn(T::V, T::V) -> bool>,
)
    requires
        forall|a: &T, b: &T| #[trigger] call_requires(*f, (a, b)),
        forall|a: &T, b: &T, t: bool| #[trigger]
            call_ensures(*f, (a, b), t) ==> t == le(a.deep_view(), b.deep_view()),
    ensures
        final(r).deep_view() == put(old(r).deep_view(), x.deep_view(), le),
        final(r)@.to_multiset() =~= old(r)@.to_multiset().insert(x),
{
    let ghost s = r.deep_view();
    let ghost raw = r@;
    let ghost key = x.deep_view();
    let mut at: usize = r.len();
    assert(s.take(s.len() as int) =~= s);
    assert(s.skip(s.len() as int) =~= Seq::empty());
    assert(put(s, key, le) =~= put(s, key, le) + Seq::<T::V>::empty());
    while at > 0 && !f(&r[at - 1], &x)
        invariant
            forall|a: &T, b: &T| #[trigger] call_requires(*f, (a, b)),
            forall|a: &T, b: &T, t: bool| #[trigger]
                call_ensures(*f, (a, b), t) ==> t == le(a.deep_view(), b.deep_view()),
            at <= r@.len(),
            s == r.deep_view(),
            raw == r@,
            key == x.deep_view(),
            put(s, key, le) == put(s.take(at as int), key, le) + s.skip(at as int),
        decreases at,
    {
        proof {
            let t = s.take(at as int);
            assert(t.last() == r@[at - 1].deep_view());
            assert(!le(t.last(), key));
            assert(t.drop_last() =~= s.take(at - 1));
            assert(put(t, key, le) == put(s.take(at - 1), key, le).push(t.last()));
            assert(put(s.take(at - 1), key, le).push(t.last()) + s.skip(at as int) =~= put(
                s.take(at - 1),
                key,
                le,
            ) + s.skip(at - 1));
        }
        at = at - 1;
    }
    proof {
        let t = s.take(at as int);
        assert(put(t, key, le) == t.push(key));
        vstd::seq_lib::to_multiset_insert(raw, at as int, x);
    }
    r.insert(at, x);
    assert(r.deep_view() =~= s.take(at as int).push(key) + s.skip(at as int));
}

// -------------------------------------------------------------------- laws

/// Whether an order is total and transitive.
pub open spec fn is_order<T>(le: spec_fn(T, T) -> bool) -> bool {
    &&& forall|a: T, b: T| #[trigger] le(a, b) || le(b, a)
    &&& forall|a: T, b: T, c: T| #[trigger] le(a, b) && #[trigger] le(b, c) ==> le(a, c)
}

/// Whether no element comes later than one behind it.
pub open spec fn ascending<T>(s: Seq<T>, le: spec_fn(T, T) -> bool) -> bool {
    forall|i: int, j: int| 0 <= i < j < s.len() ==> le(#[trigger] s[i], #[trigger] s[j])
}

proof fn lemma_put<T>(s: Seq<T>, x: T, le: spec_fn(T, T) -> bool)
    requires
        is_order(le),
        ascending(s, le),
    ensures
        ascending(put(s, x, le), le),
        put(s, x, le).len() == s.len() + 1,
        forall|i: int| 0 <= i <= s.len() ==> (#[trigger] put(s, x, le)[i] == x || s.contains(put(s, x, le)[i])),
    decreases s.len(),
{
    if s.len() == 0 || le(s.last(), x) {
        assert forall|i: int, j: int| 0 <= i < j < s.push(x).len() implies le(
            #[trigger] s.push(x)[i],
            #[trigger] s.push(x)[j],
        ) by {
            if j == s.len() {
                if i < s.len() - 1 {
                    assert(le(s[i], s[s.len() - 1]));
                }
                assert(le(s.last(), x));
            }
        }
        assert forall|i: int| 0 <= i <= s.len() implies (#[trigger] s.push(x)[i] == x || s.contains(s.push(x)[i])) by {
            if i < s.len() {
                assert(s[i] == s.push(x)[i]);
            }
        }
    } else {
        let f = s.drop_last();
        assert(ascending(f, le));
        lemma_put(f, x, le);
        let p = put(f, x, le);
        assert(le(x, s.last()));
        assert forall|i: int, j: int| 0 <= i < j < p.push(s.last()).len() implies le(
            #[trigger] p.push(s.last())[i],
            #[trigger] p.push(s.last())[j],
        ) by {
            if j == p.len() {
                assert(p[i] == x || f.contains(p[i]));
                if f.contains(p[i]) {
                    let k = choose|k: int| 0 <= k < f.len() && f[k] == p[i];
                    assert(le(s[k], s[s.len() - 1]));
                }
            }
        }
        assert forall|i: int| 0 <= i <= s.len() implies (#[trigger] p.push(s.last())[i] == x || s.contains(
            p.push(s.last())[i],
        )) by {
            if i < p.len() {
                assert(p[i] == x || f.contains(p[i]));
                if f.contains(p[i]) {
                    let k = choose|k: int| 0 <= k < f.len() && f[k] == p[i];
                    assert(s[k] == p[i]);
                }
            } else {
                assert(s[s.len() - 1] == s.last());
            }
        }
    }
}

/// Sorting by an order puts the elements in that order.
pub proof fn sorting_sorts<T>(s: Seq<T>, le: spec_fn(T, T) -> bool)
    requires
        is_order(le),
    ensures
        ascending(sorted(s, le), le),
        sorted(s, le).len() == s.len(),
    decreases s.len(),
{
    if s.len() > 0 {
        sorting_sorts(s.drop_last(), le);
        lemma_put(sorted(s.drop_last(), le), s.last(), le);
    }
}

/// Sorting keeps every element as often as it was there.
pub proof fn sorting_permutes<T>(s: Seq<T>, le: spec_fn(T, T) -> bool)
    ensures
        sorted(s, le).to_multiset() =~= s.to_multiset(),
    decreases s.len(),
{
    if s.len() > 0 {
        sorting_permutes(s.drop_last(), le);
        lemma_put_multiset(sorted(s.drop_last(), le), s.last(), le);
        vstd::seq_lib::to_multiset_build(s.drop_last(), s.last());
        assert(s.drop_last().push(s.last()) =~= s);
    }
}

proof fn lemma_put_multiset<T>(s: Seq<T>, x: T, le: spec_fn(T, T) -> bool)
    ensures
        put(s, x, le).to_multiset() =~= s.to_multiset().insert(x),
    decreases s.len(),
{
    if s.len() == 0 || le(s.last(), x) {
        vstd::seq_lib::to_multiset_build(s, x);
    } else {
        lemma_put_multiset(s.drop_last(), x, le);
        vstd::seq_lib::to_multiset_build(put(s.drop_last(), x, le), s.last());
        vstd::seq_lib::to_multiset_build(s.drop_last(), s.last());
        assert(s.drop_last().push(s.last()) =~= s);
    }
}

/// The order of texts is total.
pub proof fn text_order_is_total(a: Seq<char>, b: Seq<char>)
    ensures
        text_le(a, b) || text_le(b, a),
    decreases a.len(),
{
    if a.len() > 0 && b.len() > 0 && a[0] == b[0] {
        text_order_is_total(a.drop_first(), b.drop_first());
    }
}

/// The order of texts is transitive.
pub proof fn text_order_is_transitive(a: Seq<char>, b: Seq<char>, c: Seq<char>)
    requires
        text_le(a, b),
        text_le(b, c),
    ensures
        text_le(a, c),
    decreases a.len(),
{
    if a.len() > 0 && a[0] == b[0] && b[0] == c[0] {
        text_order_is_transitive(a.drop_first(), b.drop_first(), c.drop_first());
    }
}

} // verus!
