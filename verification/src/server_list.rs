//! How SSH hosts are searched, ordered, grouped by tag, and written as text
//! in the fields of a form.
use vstd::prelude::*;

use crate::geometry;
use crate::host_picker::any_lower_contains;
use crate::host_picker;
use crate::model::append_to;
use crate::servers::{Server, ServerModel};
use crate::sort::in_text_order;
use crate::sort;
use crate::text;

verus! {

// ------------------------------------------------------------------- order

#[derive(Clone, Copy, PartialEq, Eq, Structural, Debug)]
pub enum SortMode {
    AliasAsc,
    AliasDesc,
    LastSeenAsc,
    LastSeenDesc,
}

impl SortMode {
    pub open spec fn text(self) -> Seq<char> {
        match self {
            SortMode::AliasAsc => "Alias \u{2191}"@,
            SortMode::AliasDesc => "Alias \u{2193}"@,
            SortMode::LastSeenAsc => "Last SSH \u{2191}"@,
            SortMode::LastSeenDesc => "Last SSH \u{2193}"@,
        }
    }

    pub open spec fn toggled(self) -> SortMode {
        match self {
            SortMode::AliasAsc => SortMode::LastSeenAsc,
            SortMode::LastSeenAsc => SortMode::AliasAsc,
            SortMode::AliasDesc => SortMode::LastSeenDesc,
            SortMode::LastSeenDesc => SortMode::AliasDesc,
        }
    }

    pub open spec fn reversed(self) -> SortMode {
        match self {
            SortMode::AliasAsc => SortMode::AliasDesc,
            SortMode::AliasDesc => SortMode::AliasAsc,
            SortMode::LastSeenAsc => SortMode::LastSeenDesc,
            SortMode::LastSeenDesc => SortMode::LastSeenAsc,
        }
    }

    pub fn label(self) -> (r: &'static str)
        ensures
            r@ == self.text(),
    {
        match self {
            SortMode::AliasAsc => "Alias \u{2191}",
            SortMode::AliasDesc => "Alias \u{2193}",
            SortMode::LastSeenAsc => "Last SSH \u{2191}",
            SortMode::LastSeenDesc => "Last SSH \u{2193}",
        }
    }

    pub fn toggle_field(self) -> (r: SortMode)
        ensures
            r == self.toggled(),
    {
        match self {
            SortMode::AliasAsc => SortMode::LastSeenAsc,
            SortMode::LastSeenAsc => SortMode::AliasAsc,
            SortMode::AliasDesc => SortMode::LastSeenDesc,
            SortMode::LastSeenDesc => SortMode::AliasDesc,
        }
    }

    pub fn reverse(self) -> (r: SortMode)
        ensures
            r == self.reversed(),
    {
        match self {
            SortMode::AliasAsc => SortMode::AliasDesc,
            SortMode::AliasDesc => SortMode::AliasAsc,
            SortMode::LastSeenAsc => SortMode::LastSeenDesc,
            SortMode::LastSeenDesc => SortMode::LastSeenAsc,
        }
    }
}

/// Whether the alias of `a` comes no later than that of `b`, by letters alone.
pub open spec fn alias_le(a: ServerModel, b: ServerModel) -> bool {
    sort::text_le(text::lowercase(a.alias), text::lowercase(b.alias))
}

/// Whether `a` comes no later than `b`: pinned hosts first, the newest pin
/// first; the others as the mode says, those never connected to at the end
/// of either order by time.
pub open spec fn server_le(a: ServerModel, b: ServerModel, mode: SortMode) -> bool {
    match (a.pinned_at, b.pinned_at) {
        (Some(_), None) => true,
        (None, Some(_)) => false,
        (Some(p), Some(q)) => p > q || (p == q && alias_le(a, b)),
        (None, None) => match mode {
            SortMode::AliasAsc => alias_le(a, b),
            SortMode::AliasDesc => alias_le(b, a),
            _ => match (a.last_seen, b.last_seen) {
                (Some(_), None) => true,
                (None, Some(_)) => false,
                (Some(p), Some(q)) => if p == q {
                    alias_le(a, b)
                } else {
                    (p > q) == (mode == SortMode::LastSeenDesc)
                },
                (None, None) => alias_le(a, b),
            },
        },
    }
}

pub open spec fn server_order(mode: SortMode) -> spec_fn(ServerModel, ServerModel) -> bool {
    |a: ServerModel, b: ServerModel| server_le(a, b, mode)
}

fn in_alias_order(a: &Server, b: &Server) -> (r: bool)
    ensures
        r == alias_le(a@, b@),
{
    let x = a.alias.as_str().to_lowercase();
    let y = b.alias.as_str().to_lowercase();
    in_text_order(x.as_str(), y.as_str())
}

/// Whether `a` comes no later than `b`.
pub fn compare_servers(a: &Server, b: &Server, mode: SortMode) -> (r: bool)
    ensures
        r == server_le(a@, b@, mode),
{
    match (a.pinned_at, b.pinned_at) {
        (Some(_), None) => true,
        (None, Some(_)) => false,
        (Some(p), Some(q)) => p > q || (p == q && in_alias_order(a, b)),
        (None, None) => match mode {
            SortMode::AliasAsc => in_alias_order(a, b),
            SortMode::AliasDesc => in_alias_order(b, a),
            _ => match (a.last_seen, b.last_seen) {
                (Some(_), None) => true,
                (None, Some(_)) => false,
                (Some(p), Some(q)) => if p == q {
                    in_alias_order(a, b)
                } else {
                    (p > q) == (mode == SortMode::LastSeenDesc)
                },
                (None, None) => in_alias_order(a, b),
            },
        },
    }
}

/// The hosts in the order of the mode; hosts that tie keep their order.
pub fn sort_servers<'a>(rows: Vec<&'a Server>, mode: SortMode) -> (r: Vec<&'a Server>)
    ensures
        r.deep_view() == sort::sorted(rows.deep_view(), server_order(mode)),
{
    let f = |a: & &'a Server, b: & &'a Server| -> (t: bool)
        ensures
            t == server_le(a@, b@, mode),
        { compare_servers(a, b, mode) };
    sort::sort_by(rows, f, Ghost(server_order(mode)))
}

// ------------------------------------------------------------------ search

/// Whether a host matches a query in lower case.
pub open spec fn matching(s: ServerModel, q: Seq<char>) -> bool {
    ||| text::occurs(text::lowercase(s.alias), q)
    ||| text::occurs(text::lowercase(s.effective_host()), q)
    ||| text::occurs(text::lowercase(s.user), q)
    ||| host_picker::any_contains(s.tags, q)
}

pub fn matches_query(s: &Server, q: &str) -> (r: bool)
    ensures
        r == matching(s@, q@),
{
    text::lower_contains(s.alias.as_str(), q) || text::lower_contains(s.effective_host(), q) || text::lower_contains(
        s.user.as_str(),
        q,
    ) || any_lower_contains(&s.tags, q)
}

/// Whether a host belongs to a group: that of a tag, or that of the hosts
/// without tags.
pub open spec fn in_group(s: ServerModel, tag: Seq<char>) -> bool {
    if tag.len() == 0 {
        s.tags.len() == 0
    } else {
        s.tags.contains(tag)
    }
}

pub fn is_in_group(s: &Server, tag: &str) -> (r: bool)
    ensures
        r == in_group(s@, tag@),
{
    if tag.is_empty() {
        return s.tags.len() == 0;
    }
    let mut i: usize = 0;
    while i < s.tags.len()
        invariant
            i <= s.tags@.len(),
            tag@.len() > 0,
            forall|k: int| 0 <= k < i ==> s@.tags[k] != tag@,
        decreases s.tags@.len() - i,
    {
        assert(s@.tags[i as int] == s.tags@[i as int]@);
        if text::same(s.tags[i].as_str(), tag) {
            assert(s@.tags.contains(tag@));
            return true;
        }
        i = i + 1;
    }
    assert(!s@.tags.contains(tag@));
    false
}

// -------------------------------------------------------------------- tags

/// One more of a tag, the tags kept in order.
pub open spec fn counted(c: Seq<(Seq<char>, int)>, tag: Seq<char>) -> Seq<(Seq<char>, int)>
    decreases c.len(),
{
    if c.len() == 0 {
        seq![(tag, 1)]
    } else if c.last().0 == tag {
        c.update(c.len() - 1, (tag, geometry::min_int(c.last().1 + 1, usize::MAX as int)))
    } else if sort::text_le(c.last().0, tag) {
        c.push((tag, 1))
    } else {
        counted(c.drop_last(), tag).push(c.last())
    }
}

/// The tags in order, each once, with how often it occurs.
pub open spec fn census(tags: Seq<Seq<char>>) -> Seq<(Seq<char>, int)>
    decreases tags.len(),
{
    if tags.len() == 0 {
        Seq::empty()
    } else {
        counted(census(tags.drop_last()), tags.last())
    }
}

/// The model of a list of tags with their counts.
pub open spec fn census_of(c: Seq<(String, usize)>) -> Seq<(Seq<char>, int)> {
    Seq::new(c.len(), |i: int| (c[i].0@, c[i].1 as int))
}

/// All tags of all hosts.
pub open spec fn all_tags(s: Seq<ServerModel>) -> Seq<Seq<char>>
    decreases s.len(),
{
    if s.len() == 0 {
        Seq::empty()
    } else {
        all_tags(s.drop_last()) + s.last().tags
    }
}

/// How many hosts have no tag.
pub open spec fn untagged(s: Seq<ServerModel>) -> int
    decreases s.len(),
{
    if s.len() == 0 {
        0
    } else {
        untagged(s.drop_last()) + if s.last().tags.len() == 0 {
            1int
        } else {
            0
        }
    }
}

/// The groups of hosts: a group for each tag, in order, and one of the hosts
/// without tags at the end, where there are any.
pub open spec fn groups(s: Seq<ServerModel>) -> Seq<(Seq<char>, int)> {
    if untagged(s) > 0 {
        census(all_tags(s)).push(("(untagged)"@, untagged(s)))
    } else {
        census(all_tags(s))
    }
}

/// What a tag of [`groups`] filters by.
pub open spec fn group_filter(tag: Seq<char>) -> Seq<char> {
    if tag == "(untagged)"@ {
        Seq::empty()
    } else {
        tag
    }
}

/// One more of a tag, the tags kept in order.
fn count_tag(c: Vec<(String, usize)>, tag: &str) -> (r: Vec<(String, usize)>)
    ensures
        census_of(r@) == counted(census_of(c@), tag@),
    decreases c@.len(),
{
    let mut c = c;
    let ghost before = census_of(c@);
    let ghost given = c@;
    match c.pop() {
        None => {
            let r = vec![(text::owned(tag), 1usize)];
            assert(census_of(r@) =~= counted(before, tag@));
            r
        },
        Some((last, n)) => {
            assert(before.drop_last() =~= census_of(c@));
            assert(before.last() == (last@, n as int));
            if text::same(last.as_str(), tag) {
                c.push((last, n.saturating_add(1)));
                assert(census_of(c@) =~= counted(before, tag@));
                c
            } else if in_text_order(last.as_str(), tag) {
                c.push((last, n));
                assert(c@ =~= given);
                c.push((text::owned(tag), 1));
                assert(census_of(c@) =~= counted(before, tag@));
                c
            } else {
                let mut r = count_tag(c, tag);
                r.push((last, n));
                assert(census_of(r@) =~= counted(before, tag@));
                r
            }
        },
    }
}

/// The groups of hosts by tag.
pub fn distinct_tags(servers: &Vec<Server>) -> (r: Vec<(String, usize)>)
    ensures
        census_of(r@) == groups(servers.deep_view()),
{
    let ghost all = servers.deep_view();
    let mut out: Vec<(String, usize)> = Vec::new();
    let mut none: usize = 0;
    let mut i: usize = 0;
    assert(all.take(0) =~= Seq::empty());
    assert(census_of(out@) =~= census(all_tags(all.take(0))));
    while i < servers.len()
        invariant
            i <= servers@.len(),
            none <= i,
            all == servers.deep_view(),
            none == untagged(all.take(i as int)),
            census_of(out@) == census(all_tags(all.take(i as int))),
        decreases servers@.len() - i,
    {
        proof {
            assert(all.take(i + 1).drop_last() =~= all.take(i as int));
            assert(all.take(i + 1).last() == servers@[i as int]@);
        }
        let tags = &servers[i].tags;
        let ghost done = all_tags(all.take(i as int));
        let ghost own = tags.deep_view();
        if tags.len() == 0 {
            none = none + 1;
        }
        let mut k: usize = 0;
        assert(done + own.take(0) =~= done);
        while k < tags.len()
            invariant
                k <= tags@.len(),
                own == tags.deep_view(),
                census_of(out@) == census(done + own.take(k as int)),
            decreases tags@.len() - k,
        {
            proof {
                let t = done + own.take(k + 1);
                assert(t.drop_last() =~= done + own.take(k as int));
                assert(t.last() == tags@[k as int]@);
            }
            out = count_tag(out, tags[k].as_str());
            k = k + 1;
        }
        assert(own.take(own.len() as int) =~= own);
        i = i + 1;
    }
    assert(all.take(all.len() as int) =~= all);
    if none > 0 {
        let ghost before = census_of(out@);
        out.push((text::owned("(untagged)"), none));
        assert(census_of(out@) =~= before.push(("(untagged)"@, none as int)));
    }
    out
}

// -------------------------------------------------------------------- text

/// The items of a comma separated text, without blanks around them.
pub open spec fn csv(raw: Seq<char>) -> Seq<Seq<char>> {
    text::trimmed_pieces(text::pieces(raw, text::is_comma()))
}

pub fn parse_csv(raw: &str) -> (r: Vec<String>)
    ensures
        r.deep_view() == csv(raw@),
{
    text::split_trimmed(raw, text::Separator::Comma)
}

/// A directive as it stands in the form.
pub open spec fn directive_text(d: (Seq<char>, Seq<char>)) -> Seq<char> {
    d.0 + ": "@ + d.1
}

pub open spec fn directive_texts(extra: Seq<(Seq<char>, Seq<char>)>) -> Seq<Seq<char>> {
    Seq::new(extra.len(), |i: int| directive_text(extra[i]))
}

/// Directives as a text: `Key: Value; Key2: Value2`.
pub open spec fn extra_text(extra: Seq<(Seq<char>, Seq<char>)>) -> Seq<char> {
    text::joined(directive_texts(extra), "; "@)
}

pub fn extra_to_text(extra: &Vec<(String, String)>) -> (r: String)
    ensures
        r@ == extra_text(extra.deep_view()),
{
    let ghost all = extra.deep_view();
    let mut parts: Vec<String> = Vec::new();
    let mut i: usize = 0;
    while i < extra.len()
        invariant
            i <= extra@.len(),
            all == extra.deep_view(),
            parts.deep_view() =~= directive_texts(all).take(i as int),
        decreases extra@.len() - i,
    {
        assert(all[i as int] == (extra@[i as int].0@, extra@[i as int].1@));
        append_to(&mut parts, text::cat3(extra[i].0.as_str(), ": ", extra[i].1.as_str()));
        i = i + 1;
    }
    assert(parts.deep_view() =~= directive_texts(all));
    text::join(&parts, "; ")
}

/// The place of the first colon, or the length where there is none.
pub open spec fn colon(s: Seq<char>) -> int
    decreases s.len(),
{
    if s.len() == 0 {
        0
    } else if s[0] == ':' {
        0
    } else {
        1 + colon(s.drop_first())
    }
}

/// The directive that a piece of text states: a key and a value around the
/// first colon, neither blank.
pub open spec fn directive(piece: Seq<char>) -> Option<(Seq<char>, Seq<char>)> {
    let s = text::trimmed(piece);
    let i = colon(s);
    if i >= s.len() {
        None
    } else {
        let key = text::trimmed(s.take(i));
        let value = text::trimmed(s.skip(i + 1));
        if key.len() == 0 || value.len() == 0 {
            None
        } else {
            Some((key, value))
        }
    }
}

/// The directives that pieces of text state, in order.
pub open spec fn directives(p: Seq<Seq<char>>) -> Seq<(Seq<char>, Seq<char>)>
    decreases p.len(),
{
    if p.len() == 0 {
        Seq::empty()
    } else {
        match directive(p.last()) {
            Some(d) => directives(p.drop_last()).push(d),
            None => directives(p.drop_last()),
        }
    }
}

/// The directives of a text.
pub open spec fn advanced(raw: Seq<char>) -> Seq<(Seq<char>, Seq<char>)> {
    directives(text::pieces(raw, text::is_semicolon()))
}

fn parse_directive(piece: &str) -> (r: Option<(String, String)>)
    ensures
        r.deep_view() == directive(piece@),
{
    let s = text::trim(piece);
    let v = text::chars_of(s.as_str());
    let mut i: usize = 0;
    assert(v@.skip(0) =~= v@);
    while i < v.len() && v[i] != ':'
        invariant
            i <= v@.len(),
            colon(v@) == i + colon(v@.skip(i as int)),
        decreases v@.len() - i,
    {
        assert(v@.skip(i as int).drop_first() =~= v@.skip(i + 1));
        i = i + 1;
    }
    if i >= v.len() {
        return None;
    }
    let key = text::trim(text::text_between(&v, 0, i).as_str());
    let value = text::trim(text::text_between(&v, i + 1, v.len()).as_str());
    assert(v@.subrange(0, i as int) =~= v@.take(i as int));
    assert(v@.subrange(i + 1, v@.len() as int) =~= v@.skip(i + 1));
    if key.as_str().is_empty() || value.as_str().is_empty() {
        None
    } else {
        Some((key, value))
    }
}

pub fn parse_advanced(raw: &str) -> (r: Vec<(String, String)>)
    ensures
        r.deep_view() == advanced(raw@),
{
    let parts = text::split(raw, text::Separator::Semicolon);
    let ghost all = parts.deep_view();
    let mut r: Vec<(String, String)> = Vec::new();
    let mut i: usize = 0;
    assert(all.take(0) =~= Seq::empty());
    assert(r.deep_view() =~= directives(all.take(0)));
    while i < parts.len()
        invariant
            i <= parts@.len(),
            all == parts.deep_view(),
            r.deep_view() == directives(all.take(i as int)),
        decreases parts@.len() - i,
    {
        proof {
            assert(all.take(i + 1).drop_last() =~= all.take(i as int));
            assert(all.take(i + 1).last() == parts@[i as int]@);
        }
        if let Some(d) = parse_directive(parts[i].as_str()) {
            append_to(&mut r, d);
        }
        i = i + 1;
    }
    assert(all.take(all.len() as int) =~= all);
    r
}

// -------------------------------------------------------------------- laws

/// Toggling the field and reversing the direction each undo themselves, and
/// their order does not matter.
pub proof fn sort_modes_undo(m: SortMode)
    ensures
        m.toggled().toggled() == m,
        m.reversed().reversed() == m,
        m.toggled().reversed() == m.reversed().toggled(),
{
}

/// The order of hosts is total and transitive, in every mode.
pub proof fn server_order_is_an_order(mode: SortMode)
    ensures
        sort::is_order(server_order(mode)),
{
    let le = server_order(mode);
    assert forall|a: ServerModel, b: ServerModel| #[trigger] le(a, b) || le(b, a) by {
        sort::text_order_is_total(text::lowercase(a.alias), text::lowercase(b.alias));
    }
    assert forall|a: ServerModel, b: ServerModel, c: ServerModel| #[trigger]
        le(a, b) && #[trigger] le(b, c) implies le(a, c) by {
        let x = text::lowercase(a.alias);
        let y = text::lowercase(b.alias);
        let z = text::lowercase(c.alias);
        if sort::text_le(x, y) && sort::text_le(y, z) {
            sort::text_order_is_transitive(x, y, z);
        }
        if sort::text_le(z, y) && sort::text_le(y, x) {
            sort::text_order_is_transitive(z, y, x);
        }
    }
}

/// Sorted hosts hold every host as often as before, the pinned ones first and
/// the newest pin first among them; by time, those never connected to come
/// last among the others.
pub proof fn sorted_servers_are_in_order(s: Seq<ServerModel>, mode: SortMode)
    ensures
        sort::sorted(s, server_order(mode)).to_multiset() =~= s.to_multiset(),
        forall|i: int, j: int|
            #![trigger sort::sorted(s, server_order(mode))[i], sort::sorted(s, server_order(mode))[j]]
            0 <= i < j < s.len() ==> {
                let a = sort::sorted(s, server_order(mode))[i];
                let b = sort::sorted(s, server_order(mode))[j];
                &&& b.pinned_at is Some ==> a.pinned_at is Some && a.pinned_at->0 >= b.pinned_at->0
                &&& a.pinned_at is None && b.last_seen is Some && (mode == SortMode::LastSeenAsc || mode
                    == SortMode::LastSeenDesc) ==> a.last_seen is Some
            },
{
    sort::sorting_permutes(s, server_order(mode));
    server_order_is_an_order(mode);
    sort::sorting_sorts(s, server_order(mode));
    let t = sort::sorted(s, server_order(mode));
    assert forall|i: int, j: int| #![trigger t[i], t[j]] 0 <= i < j < s.len() implies {
        let a = t[i];
        let b = t[j];
        &&& b.pinned_at is Some ==> a.pinned_at is Some && a.pinned_at->0 >= b.pinned_at->0
        &&& a.pinned_at is None && b.last_seen is Some && (mode == SortMode::LastSeenAsc || mode
            == SortMode::LastSeenDesc) ==> a.last_seen is Some
    } by {
        assert(server_order(mode)(t[i], t[j]));
    }
}

/// Whether a text can be an item of a comma separated list: trimmed, not
/// empty, and without a comma.
pub open spec fn is_item(t: Seq<char>) -> bool {
    &&& t.len() > 0
    &&& text::trimmed(t) == t
    &&& !t.contains(',')
}

proof fn lemma_items(v: Seq<Seq<char>>, n: int)
    requires
        0 <= n <= v.len(),
        forall|i: int| 0 <= i < v.len() ==> is_item(#[trigger] v[i]),
    ensures
        text::trimmed_pieces(text::gapped(v, seq![' ']).take(n)) == v.take(n),
    decreases n,
{
    let g = text::gapped(v, seq![' ']);
    if n == 0 {
        assert(g.take(0) =~= Seq::empty());
        assert(v.take(0) =~= Seq::empty());
    } else {
        lemma_items(v, n - 1);
        assert(g.take(n).drop_last() =~= g.take(n - 1));
        assert(g.take(n).last() == g[n - 1]);
        assert(is_item(v[n - 1]));
        text::lemma_trim_space(v[n - 1]);
        assert(text::trimmed(g[n - 1]) == v[n - 1]);
        assert(v.take(n) =~= v.take(n - 1).push(v[n - 1]));
    }
}

/// Reading a comma separated list gives back the items it was written from.
pub proof fn csv_reads_what_was_written(v: Seq<Seq<char>>)
    requires
        forall|i: int| 0 <= i < v.len() ==> is_item(#[trigger] v[i]),
    ensures
        csv(text::joined(v, ", "@)) == v,
{
    reveal_strlit(", ");
    let gap = seq![' '];
    assert(", "@ =~= seq![','] + gap);
    if v.len() == 0 {
        let p = text::pieces(text::joined(v, ", "@), text::is_comma());
        assert(p =~= seq![Seq::empty()]);
        assert(text::trimmed(Seq::<char>::empty()) =~= Seq::empty());
        assert(p.drop_last() =~= Seq::empty());
        assert(text::trimmed_pieces(p.drop_last()) =~= Seq::empty());
        assert(csv(text::joined(v, ", "@)) =~= v);
    } else {
        assert forall|i: int, k: int| 0 <= i < v.len() && 0 <= k < v[i].len() implies !text::is_comma()(
            #[trigger] v[i][k],
        ) by {
            assert(is_item(v[i]));
            assert(v[i].contains(v[i][k]));
        }
        text::splitting_undoes_joining(v, ',', gap, text::is_comma());
        lemma_items(v, v.len() as int);
        assert(v.take(v.len() as int) =~= v);
        let g = text::gapped(v, gap);
        assert(g.take(g.len() as int) =~= g);
    }
}

/// Whether a directive can be written in the form: key and value trimmed and
/// not empty, no colon in the key, no semicolon in either.
pub open spec fn is_directive(d: (Seq<char>, Seq<char>)) -> bool {
    &&& d.0.len() > 0 && text::trimmed(d.0) == d.0 && !d.0.contains(':') && !d.0.contains(';')
    &&& d.1.len() > 0 && text::trimmed(d.1) == d.1 && !d.1.contains(';')
}

proof fn lemma_colon(s: Seq<char>, t: Seq<char>)
    requires
        !s.contains(':'),
        t.len() > 0,
        t[0] == ':',
    ensures
        colon(s + t) == s.len(),
    decreases s.len(),
{
    if s.len() == 0 {
        assert(s + t =~= t);
    } else {
        assert(s.contains(s[0]));
        assert forall|c: char| s.drop_first().contains(c) implies s.contains(c) by {
            let k = choose|k: int| 0 <= k < s.drop_first().len() && s.drop_first()[k] == c;
            assert(s[k + 1] == c);
        }
        lemma_colon(s.drop_first(), t);
        assert((s + t).drop_first() =~= s.drop_first() + t);
    }
}

proof fn lemma_directive(d: (Seq<char>, Seq<char>))
    requires
        is_directive(d),
    ensures
        directive(directive_text(d)) == Some(d),
        directive(seq![' '] + directive_text(d)) == Some(d),
{
    reveal_strlit(": ");
    let t = directive_text(d);
    text::lemma_trimmed(d.0);
    text::lemma_trimmed(d.1);
    assert(t[0] == d.0[0]);
    assert(t.last() == d.1.last());
    text::lemma_trimmed(t);
    text::lemma_trim_space(t);
    assert(t =~= d.0 + (": "@ + d.1));
    assert((": "@ + d.1)[0] == ':');
    lemma_colon(d.0, ": "@ + d.1);
    assert(t.take(d.0.len() as int) =~= d.0);
    assert(t.skip(d.0.len() as int + 1) =~= seq![' '] + d.1);
    text::lemma_trim_space(d.1);
}

proof fn lemma_directives(v: Seq<(Seq<char>, Seq<char>)>, n: int)
    requires
        0 <= n <= v.len(),
        forall|i: int| 0 <= i < v.len() ==> is_directive(#[trigger] v[i]),
    ensures
        directives(text::gapped(directive_texts(v), seq![' ']).take(n)) == v.take(n),
    decreases n,
{
    let g = text::gapped(directive_texts(v), seq![' ']);
    if n == 0 {
        assert(g.take(0) =~= Seq::empty());
        assert(v.take(0) =~= Seq::empty());
    } else {
        lemma_directives(v, n - 1);
        assert(g.take(n).drop_last() =~= g.take(n - 1));
        assert(g.take(n).last() == g[n - 1]);
        assert(is_directive(v[n - 1]));
        lemma_directive(v[n - 1]);
        assert(v.take(n) =~= v.take(n - 1).push(v[n - 1]));
    }
}

/// Reading the directives of the form gives back those it was filled with.
pub proof fn directives_read_what_was_written(v: Seq<(Seq<char>, Seq<char>)>)
    requires
        forall|i: int| 0 <= i < v.len() ==> is_directive(#[trigger] v[i]),
    ensures
        advanced(extra_text(v)) == v,
{
    reveal_strlit("; ");
    reveal_strlit(": ");
    let gap = seq![' '];
    let w = directive_texts(v);
    assert("; "@ =~= seq![';'] + gap);
    if v.len() == 0 {
        let p = text::pieces(extra_text(v), text::is_semicolon());
        assert(p =~= seq![Seq::empty()]);
        assert(text::trimmed(Seq::<char>::empty()) =~= Seq::empty());
        assert(p.drop_last() =~= Seq::empty());
        assert(p.last() == Seq::<char>::empty());
        assert(directive(p.last()) is None);
        assert(directives(p.drop_last()) =~= Seq::empty());
        assert(directives(p) =~= Seq::empty());
        assert(advanced(extra_text(v)) =~= v);
    } else {
        assert forall|i: int, k: int| 0 <= i < w.len() && 0 <= k < w[i].len() implies !text::is_semicolon()(
            #[trigger] w[i][k],
        ) by {
            let d = v[i];
            assert(is_directive(d));
            if k < d.0.len() {
                assert(d.0.contains(d.0[k]));
            } else if k >= d.0.len() + 2 {
                assert(d.1.contains(d.1[k - d.0.len() - 2]));
            }
        }
        text::splitting_undoes_joining(w, ';', gap, text::is_semicolon());
        lemma_directives(v, v.len() as int);
        assert(v.take(v.len() as int) =~= v);
        let g = text::gapped(w, gap);
        assert(g.take(g.len() as int) =~= g);
    }
}

proof fn lemma_counted(c: Seq<(Seq<char>, int)>, tag: Seq<char>)
    requires
        tags_ascend(c),
    ensures
        tags_ascend(counted(c, tag)),
        forall|i: int|
            0 <= i < counted(c, tag).len() ==> (#[trigger] counted(c, tag)[i]).0 == tag || exists|k: int|
                0 <= k < c.len() && c[k] == counted(c, tag)[i],
        exists|i: int| 0 <= i < counted(c, tag).len() && (#[trigger] counted(c, tag)[i]).0 == tag,
        forall|k: int|
            0 <= k < c.len() && (#[trigger] c[k]).0 != tag ==> counted(c, tag).contains(c[k]),
    decreases c.len(),
{
    let r = counted(c, tag);
    if c.len() == 0 {
        assert(r[0].0 == tag);
    } else if c.last().0 == tag {
        assert(r[r.len() - 1].0 == tag);
        assert forall|k: int| 0 <= k < c.len() && (#[trigger] c[k]).0 != tag implies r.contains(c[k]) by {
            assert(r[k] == c[k]);
        }
    } else if sort::text_le(c.last().0, tag) {
        assert(r[r.len() - 1].0 == tag);
        assert forall|i: int, j: int| 0 <= i < j < r.len() implies sort::text_le(
            (#[trigger] r[i]).0,
            (#[trigger] r[j]).0,
        ) && r[i].0 != r[j].0 by {
            if j == r.len() - 1 {
                if i < c.len() - 1 {
                    assert(sort::text_le(c[i].0, c[c.len() - 1].0));
                    sort::text_order_is_transitive(c[i].0, c.last().0, tag);
                    if c[i].0 == tag {
                        lemma_text_le_antisymmetric(c.last().0, tag);
                    }
                }
            } else {
                assert(r[i] == c[i] && r[j] == c[j]);
            }
        }
        assert forall|k: int| 0 <= k < c.len() && (#[trigger] c[k]).0 != tag implies r.contains(c[k]) by {
            assert(r[k] == c[k]);
        }
        assert forall|i: int| 0 <= i < r.len() implies (#[trigger] r[i]).0 == tag || exists|k: int|
            0 <= k < c.len() && c[k] == r[i] by {
            if i < c.len() {
                assert(c[i] == r[i]);
            }
        }
    } else {
        let f = c.drop_last();
        assert(tags_ascend(f)) by {
            assert forall|i: int, j: int| 0 <= i < j < f.len() implies sort::text_le(
                (#[trigger] f[i]).0,
                (#[trigger] f[j]).0,
            ) && f[i].0 != f[j].0 by {
                assert(f[i] == c[i] && f[j] == c[j]);
            }
        }
        lemma_counted(f, tag);
        let g = counted(f, tag);
        sort::text_order_is_total(c.last().0, tag);
        assert forall|i: int, j: int| 0 <= i < j < r.len() implies sort::text_le(
            (#[trigger] r[i]).0,
            (#[trigger] r[j]).0,
        ) && r[i].0 != r[j].0 by {
            if j == r.len() - 1 {
                assert(r[i] == g[i]);
                if g[i].0 != tag {
                    let k = choose|k: int| 0 <= k < f.len() && f[k] == g[i];
                    assert(c[k] == f[k]);
                    assert(sort::text_le(c[k].0, c[c.len() - 1].0));
                }
            } else {
                assert(r[i] == g[i] && r[j] == g[j]);
            }
        }
        assert forall|i: int| 0 <= i < r.len() implies (#[trigger] r[i]).0 == tag || exists|k: int|
            0 <= k < c.len() && c[k] == r[i] by {
            if i < g.len() {
                assert(r[i] == g[i]);
                if g[i].0 != tag {
                    let k = choose|k: int| 0 <= k < f.len() && f[k] == g[i];
                    assert(c[k] == r[i]);
                }
            } else {
                assert(c[c.len() - 1] == r[i]);
            }
        }
        let w = choose|i: int| 0 <= i < g.len() && (#[trigger] g[i]).0 == tag;
        assert(r[w].0 == tag);
        assert forall|k: int| 0 <= k < c.len() && (#[trigger] c[k]).0 != tag implies r.contains(c[k]) by {
            if k < f.len() {
                assert(f[k] == c[k]);
                let i = choose|i: int| 0 <= i < g.len() && g[i] == f[k];
                assert(r[i] == c[k]);
            } else {
                assert(r[r.len() - 1] == c[k]);
            }
        }
    }
}

proof fn lemma_text_le_antisymmetric(a: Seq<char>, b: Seq<char>)
    requires
        sort::text_le(a, b),
        sort::text_le(b, a),
    ensures
        a == b,
    decreases a.len(),
{
    if a.len() > 0 && b.len() > 0 && a[0] == b[0] {
        lemma_text_le_antisymmetric(a.drop_first(), b.drop_first());
        assert(a =~= seq![a[0]] + a.drop_first());
        assert(b =~= seq![b[0]] + b.drop_first());
    } else {
        assert(a =~= b);
    }
}

/// Whether the tags ascend, each once.
pub open spec fn tags_ascend(c: Seq<(Seq<char>, int)>) -> bool {
    forall|i: int, j: int|
        0 <= i < j < c.len() ==> sort::text_le((#[trigger] c[i]).0, (#[trigger] c[j]).0) && c[i].0 != c[j].0
}

/// Whether a tag has a group.
pub open spec fn listed(c: Seq<(Seq<char>, int)>, tag: Seq<char>) -> bool {
    exists|i: int| 0 <= i < c.len() && (#[trigger] c[i]).0 == tag
}

/// The groups by tag are in order, each tag has one group, and the tags with
/// a group are those that occur.
pub proof fn every_tag_has_one_group(tags: Seq<Seq<char>>)
    ensures
        tags_ascend(census(tags)),
        forall|t: Seq<char>| #[trigger] listed(census(tags), t) == tags.contains(t),
    decreases tags.len(),
{
    if tags.len() > 0 {
        let f = tags.drop_last();
        every_tag_has_one_group(f);
        let c = census(f);
        let r = census(tags);
        let tag = tags.last();
        lemma_counted(c, tag);
        assert forall|t: Seq<char>| #[trigger] listed(r, t) == tags.contains(t) by {
            if listed(r, t) {
                let i = choose|i: int| 0 <= i < r.len() && (#[trigger] r[i]).0 == t;
                if t == tag {
                    assert(tags[tags.len() - 1] == t);
                } else {
                    let k = choose|k: int| 0 <= k < c.len() && c[k] == r[i];
                    assert(c[k].0 == t);
                    assert(listed(c, t));
                    let m = choose|m: int| 0 <= m < f.len() && f[m] == t;
                    assert(tags[m] == t);
                }
            }
            if tags.contains(t) && t != tag {
                let m = choose|m: int| 0 <= m < tags.len() && tags[m] == t;
                assert(f[m] == t);
                assert(f.contains(t));
                assert(listed(c, t));
                let k = choose|k: int| 0 <= k < c.len() && (#[trigger] c[k]).0 == t;
                assert(r.contains(c[k]));
                let i = choose|i: int| 0 <= i < r.len() && r[i] == c[k];
                assert(r[i].0 == t);
            }
        }
    } else {
        assert forall|t: Seq<char>| #[trigger] listed(census(tags), t) == tags.contains(t) by {}
    }
}

} // verus!
