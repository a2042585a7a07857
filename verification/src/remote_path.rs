//! Paths on a server, written with slashes.
use vstd::prelude::*;

use crate::text;

verus! {

/// `p` without the slashes at its end.
pub open spec fn stripped(p: Seq<char>) -> Seq<char>
    decreases p.len(),
{
    if p.len() > 0 && p.last() == '/' {
        stripped(p.drop_last())
    } else {
        p
    }
}

/// `p` up to and with its last slash.
pub open spec fn up_to_slash(p: Seq<char>) -> Seq<char>
    decreases p.len(),
{
    if p.len() > 0 && p.last() != '/' {
        up_to_slash(p.drop_last())
    } else {
        p
    }
}

/// The directory that holds `p`; the root holds itself.
pub open spec fn parent(p: Seq<char>) -> Seq<char> {
    let d = stripped(up_to_slash(stripped(p)));
    if d.len() == 0 {
        "/"@
    } else {
        d
    }
}

/// The path of `name` in the directory `base`; `..` is the directory that holds it.
pub open spec fn joined(base: Seq<char>, name: Seq<char>) -> Seq<char> {
    if name == ".."@ {
        parent(base)
    } else {
        stripped(base) + "/"@ + name
    }
}

/// How much of `v[..n]` is left without the slashes at its end.
fn strip(v: &Vec<char>, n: usize) -> (r: usize)
    requires
        n <= v@.len(),
    ensures
        r <= n,
        v@.take(r as int) == stripped(v@.take(n as int)),
{
    let mut k: usize = n;
    while k > 0 && v[k - 1] == '/'
        invariant
            k <= n <= v@.len(),
            stripped(v@.take(n as int)) == stripped(v@.take(k as int)),
        decreases k,
    {
        assert(v@.take(k as int).drop_last() =~= v@.take(k - 1));
        k = k - 1;
    }
    k
}

/// How much of `v[..n]` goes up to and with its last slash.
pub(crate) fn to_slash(v: &Vec<char>, n: usize) -> (r: usize)
    requires
        n <= v@.len(),
    ensures
        r <= n,
        v@.take(r as int) == up_to_slash(v@.take(n as int)),
{
    let mut k: usize = n;
    while k > 0 && v[k - 1] != '/'
        invariant
            k <= n <= v@.len(),
            up_to_slash(v@.take(n as int)) == up_to_slash(v@.take(k as int)),
        decreases k,
    {
        assert(v@.take(k as int).drop_last() =~= v@.take(k - 1));
        k = k - 1;
    }
    k
}

/// The directory that holds `p`; the root holds itself.
pub fn parent_of(p: &str) -> (r: String)
    ensures
        r@ == parent(p@),
{
    let v = text::chars_of(p);
    assert(v@.take(v@.len() as int) =~= v@);
    let a: usize = strip(&v, v.len());
    let b: usize = to_slash(&v, a);
    let c: usize = strip(&v, b);
    if c == 0 {
        text::owned("/")
    } else {
        assert(v@.take(c as int) =~= v@.subrange(0, c as int));
        text::text_between(&v, 0, c)
    }
}

/// The path of `name` in the directory `base`; `..` is the directory that holds it.
pub fn join_remote_path(base: &str, name: &str) -> (r: String)
    ensures
        r@ == joined(base@, name@),
{
    if text::same(name, "..") {
        return parent_of(base);
    }
    let v = text::chars_of(base);
    assert(v@.take(v@.len() as int) =~= v@);
    let a: usize = strip(&v, v.len());
    assert(v@.take(a as int) =~= v@.subrange(0, a as int));
    let s = text::text_between(&v, 0, a);
    text::cat3(s.as_str(), "/", name)
}

} // verus!
