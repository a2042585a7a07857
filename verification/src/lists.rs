//! Facts about the items that a search finds and a filter keeps.
use vstd::prelude::*;

verus! {

/// Whether `i` is the first place of `s` at which the item passes a test.
pub open spec fn first_at<T>(s: Seq<T>, test: spec_fn(T) -> bool, i: int) -> bool {
    &&& 0 <= i < s.len()
    &&& test(s[i])
    &&& forall|k: int| 0 <= k < i ==> !test(#[trigger] s[k])
}

/// Whether no item of `s` passes a test.
pub open spec fn nowhere<T>(s: Seq<T>, test: spec_fn(T) -> bool) -> bool {
    forall|k: int| 0 <= k < s.len() ==> !test(#[trigger] s[k])
}

/// Whether `r` is what a search brings: the first item that passes, or
/// nothing where none does.
pub open spec fn finds<T>(s: Seq<T>, test: spec_fn(T) -> bool, r: Option<T>) -> bool {
    finds_as(s, test, |x: T| x, r)
}

/// Whether `r` is what a search brings of the first item that passes.
pub open spec fn finds_as<T, U>(s: Seq<T>, test: spec_fn(T) -> bool, part: spec_fn(T) -> U, r: Option<U>) -> bool {
    match r {
        Some(x) => exists|i: int| #[trigger] first_at(s, test, i) && part(s[i]) == x,
        None => nowhere(s, test),
    }
}

/// A search stops at an item that passes, and goes on behind one that does
/// not.
pub proof fn lemma_finds<T, U>(s: Seq<T>, test: spec_fn(T) -> bool, part: spec_fn(T) -> U, r: Option<U>)
    ensures
        s.len() == 0 ==> finds_as(s, test, part, None),
        s.len() > 0 && test(s[0]) ==> finds_as(s, test, part, Some(part(s[0]))),
        s.len() > 0 && !test(s[0]) && finds_as(s.drop_first(), test, part, r) ==> finds_as(s, test, part, r),
{
    if s.len() > 0 && test(s[0]) {
        assert(first_at(s, test, 0));
    }
    if s.len() > 0 && !test(s[0]) && finds_as(s.drop_first(), test, part, r) {
        let rest = s.drop_first();
        if r is Some {
            let i = choose|i: int| #[trigger] first_at(rest, test, i) && part(rest[i]) == r->0;
            assert(s[i + 1] == rest[i]);
            assert forall|k: int| 0 <= k < i + 1 implies !test(#[trigger] s[k]) by {
                if k > 0 {
                    assert(!test(rest[k - 1]));
                }
            }
            assert(first_at(s, test, i + 1));
        } else {
            assert forall|k: int| 0 <= k < s.len() implies !test(#[trigger] s[k]) by {
                if k > 0 {
                    assert(!test(rest[k - 1]));
                }
            }
        }
    }
}

/// What a filter keeps was there before and passes its test.
pub proof fn lemma_filter_part<T>(s: Seq<T>, keep: spec_fn(T) -> bool, i: int)
    requires
        0 <= i < s.filter(keep).len(),
    ensures
        keep(s.filter(keep)[i]),
        s.contains(s.filter(keep)[i]),
    decreases s.len(),
{
    reveal(Seq::filter);
    let front = s.drop_last();
    if i < front.filter(keep).len() {
        lemma_filter_part(front, keep, i);
        let k = choose|k: int| 0 <= k < front.len() && front[k] == front.filter(keep)[i];
        assert(s[k] == s.filter(keep)[i]);
    } else {
        assert(s[s.len() - 1] == s.filter(keep)[i]);
    }
}

/// An item that passes is kept.
pub proof fn lemma_filter_keeps<T>(s: Seq<T>, keep: spec_fn(T) -> bool, i: int)
    requires
        0 <= i < s.len(),
        keep(s[i]),
    ensures
        s.filter(keep).contains(s[i]),
    decreases s.len(),
{
    reveal(Seq::filter);
    let front = s.drop_last();
    if i < s.len() - 1 {
        lemma_filter_keeps(front, keep, i);
        let part = front.filter(keep);
        let k = choose|k: int| 0 <= k < part.len() && part[k] == s[i];
        assert(s.filter(keep)[k] == s[i]);
    } else {
        assert(s.filter(keep)[s.filter(keep).len() - 1] == s[i]);
    }
}

/// A filter keeps exactly the items that pass.
pub proof fn lemma_filter_contains<T>(s: Seq<T>, keep: spec_fn(T) -> bool, x: T)
    ensures
        s.filter(keep).contains(x) <==> s.contains(x) && keep(x),
{
    if s.filter(keep).contains(x) {
        let i = choose|i: int| 0 <= i < s.filter(keep).len() && s.filter(keep)[i] == x;
        lemma_filter_part(s, keep, i);
    }
    if s.contains(x) && keep(x) {
        let i = choose|i: int| 0 <= i < s.len() && s[i] == x;
        lemma_filter_keeps(s, keep, i);
    }
}

/// A filter that every item passes keeps them all, in their order.
pub proof fn lemma_filter_all<T>(s: Seq<T>, keep: spec_fn(T) -> bool)
    requires
        forall|i: int| 0 <= i < s.len() ==> keep(#[trigger] s[i]),
    ensures
        s.filter(keep) == s,
    decreases s.len(),
{
    reveal(Seq::filter);
    if s.len() > 0 {
        assert forall|i: int| 0 <= i < s.drop_last().len() implies keep(#[trigger] s.drop_last()[i]) by {
            assert(keep(s[i]));
        }
        lemma_filter_all(s.drop_last(), keep);
        assert(keep(s[s.len() - 1]));
        assert(s.drop_last().push(s.last()) =~= s);
    }
}

} // verus!
