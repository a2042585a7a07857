//! Moving a focus round a list of fields.
use vstd::prelude::*;

verus! {

/// A field of a form; fields can be compared.
pub trait Field: Copy {
    fn same(self, other: Self) -> (r: bool)
        ensures
            r == (self == other),
    ;
}

/// The first place of `x` in `s`, or zero where it is not there.
pub open spec fn place<T>(s: Seq<T>, x: T) -> int
    decreases s.len(),
{
    if s.len() == 0 {
        0
    } else if s.drop_last().contains(x) {
        place(s.drop_last(), x)
    } else if s.last() == x {
        s.len() - 1
    } else {
        0
    }
}

/// The element after `x`, round and round.
pub open spec fn after<T>(s: Seq<T>, x: T) -> T {
    s[(place(s, x) + 1) % (s.len() as int)]
}

/// The element before `x`, round and round.
pub open spec fn before<T>(s: Seq<T>, x: T) -> T {
    s[(place(s, x) + s.len() - 1) % (s.len() as int)]
}

/// The first place of `x` in `v`, or zero where it is not there.
pub fn place_of<T: Field>(v: &Vec<T>, x: T) -> (r: usize)
    requires
        v@.len() > 0,
    ensures
        r == place(v@, x),
        r < v@.len(),
{
    let mut i: usize = 0;
    while i < v.len()
        invariant
            i <= v@.len(),
            !v@.take(i as int).contains(x),
        decreases v@.len() - i,
    {
        if v[i].same(x) {
            proof {
                assert(v@.take(i + 1).drop_last() =~= v@.take(i as int));
                assert(v@.take(i + 1).last() == x);
                lemma_place_prefix(v@, x, i + 1);
            }
            return i;
        }
        assert(v@.take(i + 1) =~= v@.take(i as int).push(v@[i as int]));
        i = i + 1;
    }
    proof {
        assert(v@.take(v@.len() as int) =~= v@);
        lemma_place_absent(v@, x);
    }
    0
}

pub proof fn lemma_place_prefix<T>(s: Seq<T>, x: T, n: int)
    requires
        0 < n <= s.len(),
        s.take(n).contains(x),
    ensures
        place(s, x) == place(s.take(n), x),
    decreases s.len() - n,
{
    if n == s.len() {
        assert(s.take(n) =~= s);
    } else {
        assert(s.take(n + 1).drop_last() =~= s.take(n));
        let i = choose|i: int| 0 <= i < s.take(n).len() && s.take(n)[i] == x;
        assert(s.take(n + 1)[i] == x);
        lemma_place_prefix(s, x, n + 1);
    }
}

pub proof fn lemma_place_absent<T>(s: Seq<T>, x: T)
    requires
        !s.contains(x),
    ensures
        place(s, x) == 0,
{
    if s.len() > 0 {
        assert(s[s.len() - 1] == s.last());
        if s.drop_last().contains(x) {
            let i = choose|i: int| 0 <= i < s.drop_last().len() && s.drop_last()[i] == x;
            assert(s[i] == x);
        }
    }
}

/// The element after `x`, round and round.
pub fn next_of<T: Field>(v: &Vec<T>, x: T) -> (r: T)
    requires
        v@.len() > 0,
    ensures
        r == after(v@, x),
{
    let i: usize = place_of(v, x);
    let n: usize = v.len();
    let j: usize = if i + 1 < n {
        i + 1
    } else {
        0
    };
    assert(j == (i + 1) % (n as int)) by (nonlinear_arith)
        requires
            i < n,
            j == if i + 1 < n {
                i + 1
            } else {
                0
            },
    ;
    v[j]
}

/// The element before `x`, round and round.
pub fn prev_of<T: Field>(v: &Vec<T>, x: T) -> (r: T)
    requires
        v@.len() > 0,
    ensures
        r == before(v@, x),
{
    let i: usize = place_of(v, x);
    let n: usize = v.len();
    let j: usize = if i > 0 {
        i - 1
    } else {
        n - 1
    };
    assert(j == (i + n - 1) % (n as int)) by (nonlinear_arith)
        requires
            i < n,
            j == if i > 0 {
                i - 1
            } else {
                n - 1
            },
    ;
    v[j]
}

/// A place in a list of `n`, one up or down where there is room.
pub open spec fn moved(i: int, up: bool, n: int) -> int {
    if up {
        crate::geometry::less(i, 1)
    } else if i + 1 < n {
        i + 1
    } else {
        i
    }
}

/// A place in a list of `n`, one up or down where there is room.
pub fn step(i: usize, up: bool, n: usize) -> (r: usize)
    ensures
        r == moved(i as int, up, n as int),
{
    if up {
        i.saturating_sub(1)
    } else if i < n && i + 1 < n {
        i + 1
    } else {
        i
    }
}

pub proof fn lemma_wrap(i: int, n: int)
    requires
        0 <= i < n,
    ensures
        (i + 1) % n == if i + 1 < n {
            i + 1
        } else {
            0
        },
        (i + n - 1) % n == if i > 0 {
            i - 1
        } else {
            n - 1
        },
{
    assert((i + 1) % n == if i + 1 < n {
        i + 1
    } else {
        0
    }) by (nonlinear_arith)
        requires
            0 <= i < n,
    ;
    assert((i + n - 1) % n == if i > 0 {
        i - 1
    } else {
        n - 1
    }) by (nonlinear_arith)
        requires
            0 <= i < n,
    ;
}

// -------------------------------------------------------------------- laws

pub proof fn lemma_place<T>(s: Seq<T>, x: T)
    requires
        s.contains(x),
    ensures
        0 <= place(s, x) < s.len(),
        s[place(s, x)] == x,
    decreases s.len(),
{
    if s.drop_last().contains(x) {
        lemma_place(s.drop_last(), x);
    } else {
        let i = choose|i: int| 0 <= i < s.len() && s[i] == x;
        if i < s.len() - 1 {
            assert(s.drop_last()[i] == x);
        }
    }
}

pub proof fn lemma_place_at<T>(s: Seq<T>, i: int)
    requires
        s.no_duplicates(),
        0 <= i < s.len(),
    ensures
        place(s, s[i]) == i,
{
    assert(s.contains(s[i]));
    lemma_place(s, s[i]);
}

/// Going back undoes going forward, and the other way round, for every
/// element of a list without duplicates.
pub proof fn before_undoes_after<T>(s: Seq<T>, x: T)
    requires
        s.no_duplicates(),
        s.contains(x),
    ensures
        before(s, after(s, x)) == x,
        after(s, before(s, x)) == x,
        s.contains(after(s, x)),
        s.contains(before(s, x)),
{
    lemma_place(s, x);
    let n = s.len() as int;
    let i = place(s, x);
    let j = (i + 1) % n;
    let k = (i + n - 1) % n;
    lemma_wrap(i, n);
    lemma_wrap(j, n);
    lemma_wrap(k, n);
    lemma_place_at(s, j);
    lemma_place_at(s, k);
}

} // verus!
