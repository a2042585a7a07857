//! Paths on this machine, written with slashes.
use crate::remote_path::{to_slash, up_to_slash};
use crate::text;
use vstd::prelude::*;

verus! {

/// `p` without what names nothing at its end: slashes, and dots behind a slash.
pub open spec fn trimmed_end(p: Seq<char>) -> Seq<char>
    decreases p.len(),
{
    if p.len() > 0 && p.last() == '/' {
        trimmed_end(p.drop_last())
    } else if p.len() > 1 && p.last() == '.' && p[p.len() - 2] == '/' {
        trimmed_end(p.drop_last())
    } else {
        p
    }
}

/// The directory that holds `p`; the root and the empty path have none.
pub open spec fn parent(p: Seq<char>) -> Option<Seq<char>> {
    let whole = trimmed_end(p);
    let dir = up_to_slash(whole);
    if whole.len() == 0 {
        None
    } else if dir.len() == 0 {
        Some(Seq::empty())
    } else if trimmed_end(dir).len() == 0 {
        Some("/"@)
    } else {
        Some(trimmed_end(dir))
    }
}

/// The last name of `p`.
pub open spec fn name(p: Seq<char>) -> Seq<char> {
    let whole = trimmed_end(p);
    whole.skip(up_to_slash(whole).len() as int)
}

/// The path of `name` in the directory `base`. A name that starts with a
/// slash is a path of its own.
pub open spec fn joined(base: Seq<char>, name: Seq<char>) -> Seq<char> {
    if name.len() > 0 && name[0] == '/' {
        name
    } else if base.len() == 0 || base.last() == '/' {
        base + name
    } else {
        base + "/"@ + name
    }
}

/// How much of `v[..n]` is left without what names nothing at its end.
fn trim_end(v: &Vec<char>, n: usize) -> (r: usize)
    requires
        n <= v@.len(),
    ensures
        r <= n,
        v@.take(r as int) == trimmed_end(v@.take(n as int)),
{
    let mut k: usize = n;
    while k > 0 && (v[k - 1] == '/' || (k > 1 && v[k - 1] == '.' && v[k - 2] == '/'))
        invariant
            k <= n <= v@.len(),
            trimmed_end(v@.take(n as int)) == trimmed_end(v@.take(k as int)),
        decreases k,
    {
        assert(v@.take(k as int).drop_last() =~= v@.take(k - 1));
        k = k - 1;
    }
    k
}

/// The directory that holds `p`, if there is one.
pub fn parent_of(p: &str) -> (r: Option<String>)
    ensures
        r.deep_view() == parent(p@),
{
    let v = text::chars_of(p);
    assert(v@.take(v@.len() as int) =~= v@);
    let a: usize = trim_end(&v, v.len());
    let b: usize = to_slash(&v, a);
    let c: usize = trim_end(&v, b);
    if a == 0 {
        None
    } else if b == 0 {
        let r = String::new();
        assert(r@ =~= Seq::empty());
        Some(r)
    } else if c == 0 {
        Some(text::owned("/"))
    } else {
        assert(v@.take(c as int) =~= v@.subrange(0, c as int));
        Some(text::text_between(&v, 0, c))
    }
}

/// The last name of `p`.
pub fn name_of(p: &str) -> (r: String)
    ensures
        r@ == name(p@),
{
    let v = text::chars_of(p);
    assert(v@.take(v@.len() as int) =~= v@);
    let a: usize = trim_end(&v, v.len());
    let b: usize = to_slash(&v, a);
    assert(v@.take(a as int).skip(b as int) =~= v@.subrange(b as int, a as int));
    text::text_between(&v, b, a)
}

/// The path of `name` in the directory `base`.
pub fn join_path(base: &str, name: &str) -> (r: String)
    ensures
        r@ == joined(base@, name@),
{
    let b = text::chars_of(base);
    let n = text::chars_of(name);
    if n.len() > 0 && n[0] == '/' {
        text::owned(name)
    } else if b.len() == 0 || b[b.len() - 1] == '/' {
        text::cat2(base, name)
    } else {
        text::cat3(base, "/", name)
    }
}

// -------------------------------------------------------------------- laws

/// Going into a directory and up again leads back, and the last name of the
/// path is the one that was entered. `base` is written without a slash or a
/// dot at its end, and the name is a name.
pub proof fn going_up_undoes_going_in(base: Seq<char>, entry: Seq<char>)
    requires
        base.len() > 0,
        trimmed_end(base) == base,
        entry.len() > 0,
        !entry.contains('/'),
        entry != "."@,
    ensures
        parent(joined(base, entry)) == Some(base),
        name(joined(base, entry)) == entry,
{
    reveal_strlit("/");
    reveal_strlit(".");
    let p = joined(base, entry);
    assert(entry[0] != '/') by {
        assert(entry.contains(entry[0]));
    }
    lemma_trimmed_end(base.drop_last());
    assert(base.last() != '/');
    assert(p =~= base + seq!['/'] + entry);
    assert(entry.last() != '/') by {
        assert(entry.contains(entry.last()));
    }
    if entry.len() > 1 {
        assert(p[p.len() - 2] == entry[entry.len() - 2]);
        assert(entry.contains(entry[entry.len() - 2]));
    } else {
        assert(entry =~= seq![entry[0]]);
        assert("."@ =~= seq!['.']);
    }
    assert(trimmed_end(p) == p);
    lemma_last_slash(base.push('/'), entry);
    assert(base.push('/') + entry =~= p);
    assert(base.push('/').drop_last() =~= base);
    assert(trimmed_end(base.push('/')) == base);
    assert(p.skip((base.len() + 1) as int) =~= entry);
}

proof fn lemma_trimmed_end(p: Seq<char>)
    ensures
        trimmed_end(p).len() <= p.len(),
    decreases p.len(),
{
    if p.len() > 0 {
        lemma_trimmed_end(p.drop_last());
    }
}

proof fn lemma_last_slash(dir: Seq<char>, entry: Seq<char>)
    requires
        dir.len() > 0,
        dir.last() == '/',
        !entry.contains('/'),
    ensures
        up_to_slash(dir + entry) == dir,
    decreases entry.len(),
{
    if entry.len() == 0 {
        assert(dir + entry =~= dir);
    } else {
        assert(entry.contains(entry.last()));
        assert((dir + entry).drop_last() =~= dir + entry.drop_last());
        assert forall|c: char| entry.drop_last().contains(c) implies entry.contains(c) by {
            let k = choose|k: int| 0 <= k < entry.drop_last().len() && entry.drop_last()[k] == c;
            assert(entry[k] == c);
        }
        lemma_last_slash(dir, entry.drop_last());
    }
}

} // verus!
