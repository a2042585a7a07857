//! What the operations of the SSH host manager are for.
use crate::easyssh_screen::{
    ConfirmDeleteModalModel, ConfirmField, EasySshLayoutModel, EasySshScreenModel, EditField, EditTagsField,
    EditTagsModalModel, Focus, ForwardAgent, ModalModel, MsgModel, RequestModel, ServerFormModel, Tab, TagsView,
};
use crate::event::{KeyCode, KeyEvent, MouseEvent};
use crate::file_picker::{ActivationModel, FilePickerModel};
use crate::host_picker::PickerStep;
use crate::interactive::{PendingActionModel, SessionEndModel};
use crate::lists;
use crate::mouse;
use crate::server_list;
use crate::server_list::SortMode;
use crate::servers::ServerModel;
use crate::sort;
use crate::text;
use crate::text_laws;
use crate::widgets::InputModel;
use vstd::prelude::*;

verus! {

// -------------------------------------------------------------------- lists

/// A host is looked up by its alias, its host name, its user and its tags, in
/// either case of letters.
pub proof fn hosts_are_looked_up_by_four_things(s: ServerModel, q: Seq<char>)
    ensures
        server_list::matching(s, q) <==> {
            let host = if s.host.len() > 0 {
                s.host
            } else {
                s.alias
            };
            ||| text::occurs(text::lowercase(s.alias), q)
            ||| text::occurs(text::lowercase(host), q)
            ||| text::occurs(text::lowercase(s.user), q)
            ||| exists|i: int| 0 <= i < s.tags.len() && text::occurs(text::lowercase(#[trigger] s.tags[i]), q)
        },
{
    if exists|i: int| 0 <= i < s.tags.len() && text::occurs(text::lowercase(#[trigger] s.tags[i]), q) {
        let i = choose|i: int| 0 <= i < s.tags.len() && text::occurs(text::lowercase(#[trigger] s.tags[i]), q);
        assert(text::occurs(text::lowercase(s.tags[i]), q));
        assert(crate::host_picker::any_contains(s.tags, q));
    }
    if crate::host_picker::any_contains(s.tags, q) {
        let i = choose|i: int| 0 <= i < s.tags.len() && #[trigger] text::occurs(text::lowercase(s.tags[i]), q);
        assert(text::occurs(text::lowercase(s.tags[i]), q));
    }
}

/// The list shows a host exactly where it is known and has the search text.
pub proof fn the_list_shows_what_is_looked_for(m: EasySshScreenModel, s: ServerModel)
    ensures
        m.server_rows().contains(s) <==> {
            let q = text::lowercase(text::trimmed(m.search.text));
            &&& m.servers.contains(s)
            &&& q.len() == 0 || server_list::matching(s, q)
        },
{
    let q = text::lowercase(text::trimmed(m.search.text));
    let keep = |s: ServerModel| q.len() == 0 || server_list::matching(s, q);
    lists::lemma_filter_contains(m.servers, keep, s);
    lemma_sorted_contains(m.servers.filter(keep), server_list::server_order(m.sort_mode), s);
}

/// A group shows the hosts that have its tag; the group without a name those
/// that have none.
pub proof fn a_group_shows_its_hosts(m: EasySshScreenModel, tag: Seq<char>, s: ServerModel)
    ensures
        m.group_rows(tag).contains(s) <==> {
            &&& m.servers.contains(s)
            &&& tag.len() > 0 ==> s.tags.contains(tag)
            &&& tag.len() == 0 ==> s.tags.len() == 0
        },
{
    let keep = |s: ServerModel| server_list::in_group(s, tag);
    lists::lemma_filter_contains(m.servers, keep, s);
    lemma_sorted_contains(m.servers.filter(keep), server_list::server_order(m.sort_mode), s);
}

proof fn lemma_sorted_contains(v: Seq<ServerModel>, le: spec_fn(ServerModel, ServerModel) -> bool, s: ServerModel)
    ensures
        sort::sorted(v, le).contains(s) <==> v.contains(s),
{
    sort::sorting_permutes(v, le);
    let w = sort::sorted(v, le);
    v.to_multiset_ensures();
    w.to_multiset_ensures();
    assert(v.to_multiset() == w.to_multiset());
    assert(v.contains(s) <==> v.to_multiset().count(s) > 0);
    assert(w.contains(s) <==> w.to_multiset().count(s) > 0);
}

/// Of two hosts that are not pinned, the one in front comes first by the mode:
/// by alias up or down, or by the last connection, the oldest or the newest
/// first.
pub proof fn hosts_are_listed_by_the_mode(s: Seq<ServerModel>, mode: SortMode, i: int, j: int)
    requires
        0 <= i < j < s.len(),
    ensures
        ({
            let v = sort::sorted(s, server_list::server_order(mode));
            let (a, b) = (v[i], v[j]);
            a.pinned_at is None ==> {
                &&& mode == SortMode::AliasAsc ==> sort::text_le(text::lowercase(a.alias), text::lowercase(b.alias))
                &&& mode == SortMode::AliasDesc ==> sort::text_le(text::lowercase(b.alias), text::lowercase(a.alias))
                &&& mode == SortMode::LastSeenAsc && a.last_seen is Some && b.last_seen is Some ==> a.last_seen->0
                    <= b.last_seen->0
                &&& mode == SortMode::LastSeenDesc && a.last_seen is Some && b.last_seen is Some ==> a.last_seen->0
                    >= b.last_seen->0
                &&& b.last_seen is Some && (mode == SortMode::LastSeenAsc || mode == SortMode::LastSeenDesc)
                    ==> a.last_seen is Some
                &&& b.pinned_at is None
            }
        }),
{
    let v = sort::sorted(s, server_list::server_order(mode));
    server_list::server_order_is_an_order(mode);
    sort::sorting_sorts(s, server_list::server_order(mode));
    assert(server_list::server_order(mode)(v[i], v[j]));
}

/// Pinned hosts come first, the newest pin in front.
pub proof fn pinned_hosts_come_first(s: Seq<ServerModel>, mode: SortMode, i: int, j: int)
    requires
        0 <= i < j < s.len(),
    ensures
        ({
            let v = sort::sorted(s, server_list::server_order(mode));
            let (a, b) = (v[i], v[j]);
            &&& b.pinned_at is Some ==> a.pinned_at is Some
            &&& a.pinned_at is Some && b.pinned_at is Some ==> a.pinned_at->0 >= b.pinned_at->0
            &&& a.pinned_at is Some && a.pinned_at == b.pinned_at ==> sort::text_le(
                text::lowercase(a.alias),
                text::lowercase(b.alias),
            )
        }),
{
    let v = sort::sorted(s, server_list::server_order(mode));
    server_list::server_order_is_an_order(mode);
    sort::sorting_sorts(s, server_list::server_order(mode));
    assert(server_list::server_order(mode)(v[i], v[j]));
}

/// How often a tag occurs.
pub open spec fn occurrences(tags: Seq<Seq<char>>, t: Seq<char>) -> nat {
    tags.filter(|x: Seq<char>| x == t).len()
}

proof fn lemma_counted_once_more(c: Seq<(Seq<char>, int)>, tag: Seq<char>, i: int)
    requires
        server_list::tags_ascend(c),
        0 <= i < server_list::counted(c, tag).len(),
    ensures
        ({
            let e = server_list::counted(c, tag)[i];
            &&& e.0 != tag ==> c.contains(e)
            &&& e.0 == tag && server_list::listed(c, tag) ==> exists|k: int|
                0 <= k < c.len() && (#[trigger] c[k]).0 == tag && e.1 == (if c[k].1 + 1 <= usize::MAX {
                    c[k].1 + 1
                } else {
                    usize::MAX as int
                })
            &&& e.0 == tag && !server_list::listed(c, tag) ==> e.1 == 1
        }),
    decreases c.len(),
{
    let r = server_list::counted(c, tag);
    if c.len() == 0 {
    } else if c.last().0 == tag {
        assert(c[c.len() - 1].0 == tag);
        if i < c.len() - 1 {
            assert(r[i] == c[i]);
        }
    } else if sort::text_le(c.last().0, tag) {
        if server_list::listed(c, tag) {
            let k = choose|k: int| 0 <= k < c.len() && (#[trigger] c[k]).0 == tag;
            assert(sort::text_le(c[k].0, c[c.len() - 1].0));
            lemma_two_ways(c[k].0, c.last().0);
        }
        if i < c.len() {
            assert(r[i] == c[i]);
        }
    } else {
        let f = c.drop_last();
        assert(server_list::tags_ascend(f)) by {
            assert forall|a: int, b: int| 0 <= a < b < f.len() implies sort::text_le(
                (#[trigger] f[a]).0,
                (#[trigger] f[b]).0,
            ) && f[a].0 != f[b].0 by {
                assert(f[a] == c[a] && f[b] == c[b]);
            }
        }
        if i < r.len() - 1 {
            lemma_counted_once_more(f, tag, i);
            let e = r[i];
            assert(e == server_list::counted(f, tag)[i]);
            if e.0 != tag {
                let k = choose|k: int| 0 <= k < f.len() && f[k] == e;
                assert(c[k] == e);
            }
            if server_list::listed(c, tag) {
                let k = choose|k: int| 0 <= k < c.len() && (#[trigger] c[k]).0 == tag;
                assert(f[k].0 == tag);
                assert(server_list::listed(f, tag));
                assert(forall|k: int| 0 <= k < f.len() ==> f[k] == c[k]);
            }
            if server_list::listed(f, tag) {
                let k = choose|k: int| 0 <= k < f.len() && (#[trigger] f[k]).0 == tag;
                assert(c[k].0 == tag);
            }
        } else {
            assert(c[c.len() - 1] == r[i]);
        }
    }
}

proof fn lemma_two_ways(a: Seq<char>, b: Seq<char>)
    requires
        sort::text_le(a, b),
        sort::text_le(b, a),
    ensures
        a == b,
    decreases a.len(),
{
    if a.len() > 0 && b.len() > 0 && a[0] == b[0] {
        lemma_two_ways(a.drop_first(), b.drop_first());
        assert(a =~= seq![a[0]] + a.drop_first());
        assert(b =~= seq![b[0]] + b.drop_first());
    } else {
        assert(a =~= b);
    }
}

/// The number beside a tag says how often the tag occurs.
pub proof fn tags_are_counted(tags: Seq<Seq<char>>, i: int)
    requires
        0 <= i < server_list::census(tags).len(),
        tags.len() <= usize::MAX,
    ensures
        ({
            let (tag, n) = server_list::census(tags)[i];
            n == occurrences(tags, tag)
        }),
    decreases tags.len(),
{
    reveal(Seq::filter);
    let f = tags.drop_last();
    let c = server_list::census(f);
    let tag = tags.last();
    let e = server_list::census(tags)[i];
    server_list::every_tag_has_one_group(f);
    lemma_counted_once_more(c, tag, i);
    let same = |x: Seq<char>| x == e.0;
    assert(f.filter(same).len() <= f.len()) by {
        lemma_filter_len(f, same);
    }
    if e.0 != tag {
        let k = choose|k: int| 0 <= k < c.len() && c[k] == e;
        tags_are_counted(f, k);
    } else if server_list::listed(c, tag) {
        let k = choose|k: int|
            0 <= k < c.len() && (#[trigger] c[k]).0 == tag && e.1 == (if c[k].1 + 1 <= usize::MAX {
                c[k].1 + 1
            } else {
                usize::MAX as int
            });
        tags_are_counted(f, k);
    } else {
        assert(!f.contains(tag));
        if f.filter(same).len() > 0 {
            let x = f.filter(same)[0];
            assert(f.filter(same).contains(x));
            lists::lemma_filter_contains(f, same, x);
        }
    }
}

proof fn lemma_filter_len(s: Seq<Seq<char>>, keep: spec_fn(Seq<char>) -> bool)
    ensures
        s.filter(keep).len() <= s.len(),
    decreases s.len(),
{
    reveal(Seq::filter);
    if s.len() > 0 {
        lemma_filter_len(s.drop_last(), keep);
    }
}

/// The number beside the hosts without tags says how many there are, and the
/// group stands behind all others, where there are any.
pub proof fn untagged_hosts_are_counted(s: Seq<ServerModel>)
    ensures
        server_list::untagged(s) == s.filter(|x: ServerModel| x.tags.len() == 0).len(),
        server_list::untagged(s) > 0 ==> server_list::groups(s) == server_list::census(server_list::all_tags(s)).push(
            ("(untagged)"@, server_list::untagged(s)),
        ),
        server_list::untagged(s) == 0 ==> server_list::groups(s) == server_list::census(server_list::all_tags(s)),
    decreases s.len(),
{
    reveal(Seq::filter);
    if s.len() > 0 {
        untagged_hosts_are_counted(s.drop_last());
    }
}

/// The tags of all hosts are the tags that some host has.
pub proof fn all_tags_are_those_of_the_hosts(s: Seq<ServerModel>, t: Seq<char>)
    ensures
        server_list::all_tags(s).contains(t) <==> exists|i: int|
            0 <= i < s.len() && (#[trigger] s[i]).tags.contains(t),
    decreases s.len(),
{
    if s.len() > 0 {
        let f = s.drop_last();
        let a = server_list::all_tags(f);
        let b = s.last().tags;
        all_tags_are_those_of_the_hosts(f, t);
        let all = a + b;
        if all.contains(t) {
            let k = choose|k: int| 0 <= k < all.len() && all[k] == t;
            if k < a.len() {
                assert(a[k] == t);
                let i = choose|i: int| 0 <= i < f.len() && (#[trigger] f[i]).tags.contains(t);
                assert(s[i] == f[i]);
            } else {
                assert(b[k - a.len()] == t);
                assert(s[s.len() - 1].tags.contains(t));
            }
        }
        if exists|i: int| 0 <= i < s.len() && (#[trigger] s[i]).tags.contains(t) {
            let i = choose|i: int| 0 <= i < s.len() && (#[trigger] s[i]).tags.contains(t);
            if i < f.len() {
                assert(f[i] == s[i]);
                assert(a.contains(t));
                let k = choose|k: int| 0 <= k < a.len() && a[k] == t;
                assert(all[k] == t);
            } else {
                let k = choose|k: int| 0 <= k < b.len() && b[k] == t;
                assert(all[a.len() + k] == t);
            }
        }
    }
}

// -------------------------------------------------------------------- forms

/// Whether a list holds the items between the commas of a text.
pub open spec fn lists_items(items: Seq<Seq<char>>, typed: Seq<char>) -> bool {
    items == text::pieces(typed, |c: char| c == ',').filter(
        |p: Seq<char>| text::trimmed(p).len() > 0,
    ).map_values(|p: Seq<char>| text::trimmed(p))
}

/// A host is what the form says, each part from its own field. A port that is
/// no number is none.
pub proof fn a_host_is_what_the_form_says(f: ServerFormModel)
    ensures
        ({
            let s = f.built();
            let n = text::unsigned_value(text::trimmed(f.port.text));
            &&& s.alias == text::trimmed(f.alias.text)
            &&& s.patterns == seq![s.alias]
            &&& s.host == text::trimmed(f.host.text)
            &&& s.user == text::trimmed(f.user.text)
            &&& n is Some && n->0 <= u16::MAX ==> s.port == n->0
            &&& n is None || n->0 > u16::MAX ==> s.port == 0
            &&& lists_items(s.identity_files, f.identity_files.text)
            &&& s.proxy_jump == text::trimmed(f.proxy_jump.text)
            &&& lists_items(s.local_forward, f.local_forward.text)
            &&& s.forward_agent == match f.forward_agent {
                ForwardAgent::Yes => "yes"@,
                ForwardAgent::No => "no"@,
                ForwardAgent::Unset => ""@,
            }
            &&& lists_items(s.tags, f.tags.text)
            &&& s.extra == server_list::advanced(f.advanced.text)
            &&& f.ssh_password.text.len() > 0 ==> s.ssh_password == f.ssh_password.text
            &&& f.ssh_password.text.len() == 0 ==> s.ssh_password == f.base.ssh_password
        }),
{
    text_laws::comma_lists_hold_their_items(f.identity_files.text);
    text_laws::comma_lists_hold_their_items(f.local_forward.text);
    text_laws::comma_lists_hold_their_items(f.tags.text);
}

/// The form of a host shows what the host has, but for its password.
pub proof fn the_form_shows_the_host(s: ServerModel)
    ensures
        ({
            let f = ServerFormModel::editing(s);
            &&& f.base == s
            &&& f.alias.text == s.alias && f.host.text == s.host && f.user.text == s.user
            &&& s.port != 0 ==> f.port.text == text::decimal(s.port as nat)
            &&& s.port == 0 ==> f.port.text.len() == 0
            &&& f.ssh_password.text.len() == 0
            &&& f.proxy_jump.text == s.proxy_jump
            &&& f.key_picker is None
        }),
{
}

/// Whether the form takes the keys.
pub open spec fn on_form(m: EasySshScreenModel, f: ServerFormModel, field: EditField) -> bool {
    &&& m.modal == Some(ModalModel::Add(f)) || m.modal == Some(ModalModel::Edit(f))
    &&& f.key_picker is None
    &&& f.field == field
}

/// Save asks for the host that the form describes: a new one, or the one that
/// was opened, by the alias that it had. The form stays until that is done.
pub proof fn saving_asks_for_the_host_described(m: EasySshScreenModel, f: ServerFormModel, key: KeyEvent)
    requires
        on_form(m, f, EditField::BtnSave),
        key.code == KeyCode::Enter,
    ensures
        m.on_key(key).0 == (EasySshScreenModel {
            requests: m.requests.push(
                if f.base.alias.len() == 0 {
                    RequestModel::AddServer(f.built())
                } else {
                    RequestModel::UpdateServer { alias: f.base.alias, server: f.built() }
                },
            ),
            ..m
        }),
{
}

/// Cancel and Esc close the form and ask for nothing.
pub proof fn the_form_can_be_left(m: EasySshScreenModel, f: ServerFormModel, key: KeyEvent)
    requires
        on_form(m, f, f.field),
        key.code == KeyCode::Esc || (key.code == KeyCode::Enter && f.field == EditField::BtnCancel),
    ensures
        m.on_key(key) == (EasySshScreenModel { modal: None, ..m }, false),
{
}

/// The text of an input of the form.
pub open spec fn form_input(f: ServerFormModel, field: EditField) -> Option<InputModel> {
    match field {
        EditField::Alias => Some(f.alias),
        EditField::Host => Some(f.host),
        EditField::User => Some(f.user),
        EditField::Port => Some(f.port),
        EditField::SshPassword => Some(f.ssh_password),
        EditField::IdentityFiles => Some(f.identity_files),
        EditField::ProxyJump => Some(f.proxy_jump),
        EditField::LocalForward => Some(f.local_forward),
        EditField::Tags => Some(f.tags),
        EditField::Advanced => Some(f.advanced),
        EditField::ForwardAgent | EditField::BtnSave | EditField::BtnCancel => None,
    }
}

/// An input with a character put in at its cursor.
pub open spec fn inserted(i: InputModel, c: char) -> InputModel {
    InputModel { text: i.text.insert(i.cursor, c), cursor: i.cursor + 1 }
}

/// What is typed in the form goes into the field with the focus, and into no
/// other.
pub proof fn typing_goes_to_the_field_with_the_focus(f: ServerFormModel, other: EditField, c: char)
    requires
        f.key_picker is None,
    ensures
        ({
            let g = f.on_key(KeyCode::Char(c)).0;
            &&& form_input(f, f.field) matches Some(i) ==> form_input(g, f.field) == Some(inserted(i, c))
            &&& other != f.field ==> form_input(g, other) == form_input(f, other)
            &&& g.base == f.base && g.forward_agent == f.forward_agent && g.field == f.field
        }),
{
}

/// A key that was picked is put in behind those that are there.
pub proof fn a_picked_key_is_put_behind_the_others(f: ServerFormModel, p: FilePickerModel, path: Seq<char>)
    requires
        p.activated() == ActivationModel::Picked(path),
    ensures
        ({
            let g = f.key_step(p, PickerStep::Pick).0;
            &&& g.key_picker is None
            &&& text::trimmed(f.identity_files.text).len() == 0 ==> g.identity_files.text == path
            &&& text::trimmed(f.identity_files.text).len() > 0 ==> g.identity_files.text == f.identity_files.text
                + ", "@ + path
            &&& g == (ServerFormModel { identity_files: g.identity_files, key_picker: None, ..f })
        }),
{
}

/// The window of the tags sets the tags between the commas for its host.
pub proof fn tags_are_set_as_typed(m: EasySshScreenModel, t: EditTagsModalModel, key: KeyEvent)
    requires
        m.modal == Some(ModalModel::EditTags(t)),
    ensures
        key.code == KeyCode::Enter && t.field == EditTagsField::BtnSave ==> {
            let n = m.on_key(key).0;
            &&& n.requests.len() == m.requests.len() + 1
            &&& n == (EasySshScreenModel { modal: None, requests: m.requests.push(n.requests.last()), ..m })
            &&& n.requests.last() matches RequestModel::SetTags { alias, tags }
            &&& alias == t.alias
            &&& lists_items(tags, t.tags.text)
        },
        key.code == KeyCode::Esc || (key.code == KeyCode::Enter && t.field == EditTagsField::BtnCancel) ==> m.on_key(
            key,
        ).0 == (EasySshScreenModel { modal: None, ..m }),
{
    text_laws::comma_lists_hold_their_items(t.tags.text);
}

/// The question of a deletion deletes its host, where that was chosen.
pub proof fn a_confirmed_deletion_deletes_its_host(m: EasySshScreenModel, c: ConfirmDeleteModalModel, key: KeyEvent)
    requires
        m.modal == Some(ModalModel::ConfirmDelete(c)),
        key.code == KeyCode::Enter || key.code == KeyCode::Esc,
    ensures
        key.code == KeyCode::Enter && c.field == ConfirmField::BtnDelete ==> m.on_key(key).0 == (EasySshScreenModel {
            modal: None,
            requests: m.requests.push(RequestModel::DeleteServer(c.alias)),
            ..m
        }),
        key.code == KeyCode::Esc || c.field == ConfirmField::BtnCancel ==> m.on_key(key).0 == (EasySshScreenModel {
            modal: None,
            ..m
        }),
{
}

// --------------------------------------------------------------------- rows

/// Whether the list of hosts takes the keys, with a host in the selected row.
pub open spec fn on_row(m: EasySshScreenModel, s: ServerModel) -> bool {
    &&& m.modal is None
    &&& {
        ||| m.tab == Tab::Servers && m.focus == Focus::List && 0 <= m.selected_row < m.server_rows().len()
            && m.server_rows()[m.selected_row] == s
        ||| m.tab == Tab::Tags && m.tags_view == TagsView::Filtered && 0 <= m.selected_row < m.group_rows(
            m.tag_filter,
        ).len() && m.group_rows(m.tag_filter)[m.selected_row] == s
    }
}

/// Each key of the list does its work on the host of the selected row, and on
/// no other.
pub proof fn row_keys_work_on_the_row(m: EasySshScreenModel, s: ServerModel, c: char)
    requires
        on_row(m, s),
    ensures
        ({
            let t = m.on_key(KeyEvent { code: KeyCode::Char(c), control: false }).0;
            &&& c == 'e' ==> t == (EasySshScreenModel { modal: Some(ModalModel::Edit(ServerFormModel::editing(s))), ..m })
            &&& c == 'd' ==> {
                &&& t == (EasySshScreenModel { modal: t.modal, ..m })
                &&& t.modal matches Some(ModalModel::ConfirmDelete(q))
                &&& q.alias == s.alias && q.field == ConfirmField::BtnCancel
            }
            &&& c == 'p' ==> t == (EasySshScreenModel {
                requests: m.requests.push(RequestModel::SetPinned { alias: s.alias, pinned: s.pinned_at is None }),
                ..m
            })
            &&& c == 't' ==> {
                &&& t == (EasySshScreenModel { modal: t.modal, ..m })
                &&& t.modal matches Some(ModalModel::EditTags(q))
                &&& q.alias == s.alias
                &&& q.tags.text == text::joined(s.tags, ", "@)
            }
            &&& c == 'c' ==> t == (EasySshScreenModel { requests: m.requests.push(RequestModel::CopyCommand(s)), ..m })
            &&& c == 'g' ==> t.requests == m.requests.push(RequestModel::Ping(s)) && t == (EasySshScreenModel {
                requests: t.requests,
                log: t.log,
                ..m
            })
            &&& c == 'x' ==> t == (EasySshScreenModel {
                requests: m.requests.push(RequestModel::StopForward(s.alias)),
                ..m
            })
            &&& c == 'f' && (s.local_forward.len() > 0 || s.remote_forward.len() > 0 || s.dynamic_forward.len() > 0)
                ==> t == (EasySshScreenModel { requests: m.requests.push(RequestModel::StartForward(s.alias)), ..m })
            &&& c == 'f' && s.local_forward.len() == 0 && s.remote_forward.len() == 0 && s.dynamic_forward.len() == 0
                ==> t == (EasySshScreenModel { log: t.log, ..m }) && !t.log.history.last().0
        }),
{
}

/// Enter connects to the host of the selected row.
pub proof fn enter_connects_to_the_row(m: EasySshScreenModel, s: ServerModel, key: KeyEvent)
    requires
        on_row(m, s),
        key.code == KeyCode::Enter,
    ensures
        ({
            let t = m.on_key(key).0;
            &&& t == (EasySshScreenModel { pending_action: t.pending_action, ..m })
            &&& t.pending_action matches Some(PendingActionModel::RunInteractive { program, args, alias })
            &&& program == "ssh"@
            &&& args == seq![s.alias]
            &&& alias == s.alias
        }),
{
}

/// The other keys of the list: search, add, refresh, and the two that change
/// the order.
pub proof fn list_keys_do_what_they_name(m: EasySshScreenModel, c: char)
    requires
        m.modal is None,
        m.tab == Tab::Servers,
        m.focus == Focus::List,
    ensures
        ({
            let t = m.on_key(KeyEvent { code: KeyCode::Char(c), control: false }).0;
            &&& c == '/' ==> t == (EasySshScreenModel { focus: Focus::Search, ..m })
            &&& c == 'a' ==> {
                &&& t == (EasySshScreenModel { modal: t.modal, ..m })
                &&& t.modal matches Some(ModalModel::Add(f))
                &&& f.base.alias.len() == 0 && f.alias.text.len() == 0 && f.host.text.len() == 0
                &&& f.port.text == "22"@
            }
            &&& c == 'r' ==> t == (EasySshScreenModel {
                requests: m.requests.push(RequestModel::Refresh { told: true }),
                ..m
            })
            &&& c == 's' ==> t == (EasySshScreenModel { sort_mode: m.sort_mode.toggled(), ..m })
            &&& c == 'S' ==> t == (EasySshScreenModel { sort_mode: m.sort_mode.reversed(), ..m })
        }),
{
}

/// Toggling the order keeps its direction and turns between alias and last
/// connection; reversing turns the direction.
pub proof fn orders_are_toggled_and_reversed(mode: SortMode)
    ensures
        ({
            let by_alias = |x: SortMode| x == SortMode::AliasAsc || x == SortMode::AliasDesc;
            let up = |x: SortMode| x == SortMode::AliasAsc || x == SortMode::LastSeenAsc;
            &&& by_alias(mode.toggled()) == !by_alias(mode)
            &&& up(mode.toggled()) == up(mode)
            &&& by_alias(mode.reversed()) == by_alias(mode)
            &&& up(mode.reversed()) == !up(mode)
        }),
{
}

/// What is typed in the search goes into it and starts at the top again;
/// Enter goes back to the list.
pub proof fn typing_searches(m: EasySshScreenModel, c: char)
    requires
        m.modal is None,
        m.tab == Tab::Servers,
        m.focus == Focus::Search,
    ensures
        m.on_key(KeyEvent { code: KeyCode::Char(c), control: false }).0 == (EasySshScreenModel {
            search: inserted(m.search, c),
            selected_row: 0,
            ..m
        }),
        m.on_key(KeyEvent { code: KeyCode::Enter, control: false }).0 == (EasySshScreenModel {
            focus: Focus::List,
            selected_row: 0,
            ..m
        }),
        m.on_key(KeyEvent { code: KeyCode::Esc, control: false }) == (EasySshScreenModel { focus: Focus::List, ..m }, false),
{
}

/// Enter on a group opens the hosts with its tag; Esc goes back to the groups.
pub proof fn groups_open_their_hosts(m: EasySshScreenModel, key: KeyEvent)
    requires
        m.modal is None,
        m.tab == Tab::Tags,
    ensures
        m.tags_view == TagsView::List && key.code == KeyCode::Enter && 0 <= m.tags_selected_row < m.groups().len() ==> {
            let t = m.on_key(key).0;
            let (tag, n) = m.groups()[m.tags_selected_row];
            &&& t == (EasySshScreenModel {
                tag_filter: t.tag_filter,
                tags_view: TagsView::Filtered,
                selected_row: 0,
                ..m
            })
            &&& tag != "(untagged)"@ ==> t.tag_filter == tag
            &&& tag == "(untagged)"@ ==> t.tag_filter.len() == 0
        },
        m.tags_view == TagsView::Filtered && key.code == KeyCode::Esc ==> m.on_key(key) == (EasySshScreenModel {
            tags_view: TagsView::List,
            ..m
        }, false),
{
}

// ----------------------------------------------------------------- messages

/// Hosts that were listed replace those that were known. What changes the
/// hosts has them listed again, and closes the form that it came from.
pub proof fn changes_have_the_hosts_listed_again(m: EasySshScreenModel, servers: Seq<ServerModel>, alias: Seq<char>)
    ensures
        m.on_msg(MsgModel::Listed { servers, told: false }) == (EasySshScreenModel { servers, ..m }),
        ({
            let t = m.on_msg(MsgModel::Saved(alias));
            &&& t.requests == m.requests.push(RequestModel::Refresh { told: false })
            &&& t.servers == m.servers
            &&& m.modal matches Some(w) ==> ((w is Add || w is Edit) ==> t.modal is None)
        }),
        m.on_msg(MsgModel::Deleted(alias)).requests == m.requests.push(RequestModel::Refresh { told: false }),
        m.on_msg(MsgModel::TagsSet(alias)).requests == m.requests.push(RequestModel::Refresh { told: false }),
        m.on_msg(MsgModel::PinSet { alias, pinned: true }).requests == m.requests.push(
            RequestModel::Refresh { told: false },
        ),
        m.on_msg(MsgModel::SaveFailed(alias)).modal == m.modal,
        m.on_msg(MsgModel::SaveFailed(alias)).requests == m.requests,
{
}

/// A session that ended is told, recorded for its host, and the hosts are
/// listed again.
pub proof fn an_ended_session_is_recorded(m: EasySshScreenModel, alias: Seq<char>, end: SessionEndModel)
    ensures
        ({
            let t = m.session_ended(alias, end);
            &&& t.requests == m.requests.push(RequestModel::RecordSsh(alias)).push(
                RequestModel::Refresh { told: false },
            )
            &&& t.log.history.len() == m.log.history.len() + 1
            &&& t.log.history.last().0 <==> end is Success
            &&& t == (EasySshScreenModel { requests: t.requests, log: t.log, ..m })
        }),
{
}

/// What went wrong is told as a failure, and all else as a success.
pub proof fn failures_are_told_as_failures(m: MsgModel)
    ensures
        m.line() matches Some((ok, line)) ==> (ok <==> !(m is SaveFailed || m is TagsFailed || m is DeleteFailed || m
            is PinFailed || m is CopyFailed || m is PingDown || m is ForwardFailed || m is StopFailed)),
        m is SaveFailed || m is TagsFailed || m is DeleteFailed || m is PinFailed || m is CopyFailed || m is PingDown
            || m is ForwardFailed || m is StopFailed || m is PingUp || m is ForwardStarted || m is Saved ==> m.line()
            is Some,
{
}

/// A pin that was set is told as such, and one that was taken off too.
pub proof fn pins_are_told(alias: Seq<char>, pinned: bool)
    ensures
        ({
            let (ok, line) = MsgModel::PinSet { alias, pinned }.line()->0;
            &&& pinned ==> line == "Pinned "@ + alias
            &&& !pinned ==> line == "Unpinned "@ + alias
        }),
{
}

/// A click on a host selects and connects to it; a click on a group opens it.
pub proof fn clicks_work_on_what_they_hit(m: EasySshScreenModel, me: MouseEvent, l: EasySshLayoutModel, i: usize)
    requires
        m.modal is None,
        EasySshScreenModel::tab_hit(me, l) is None,
        mouse::clicked(me) is Some,
        mouse::scrolled(me) is None,
    ensures
        m.tab == Tab::Tags && m.tags_view == TagsView::Filtered && mouse::table_hit(
            me.column,
            me.row,
            l.tag_rows[0],
            1,
            m.group_rows(m.tag_filter).len() as int,
            m.selected_row,
        ) == Some(i) && i < m.group_rows(m.tag_filter).len() ==> {
            let alias = m.group_rows(m.tag_filter)[i as int].alias;
            let t = m.on_mouse(me, l);
            &&& t.selected_row == i
            &&& t.pending_action matches Some(PendingActionModel::RunInteractive { program, args, alias: a })
            &&& args == seq![alias] && a == alias
            &&& t.requests == m.requests
        },
        m.tab == Tab::Tags && m.tags_view == TagsView::List && mouse::table_hit(
            me.column,
            me.row,
            l.tag_list[0],
            0,
            m.groups().len() as int,
            m.tags_selected_row,
        ) == Some(i) && i < m.groups().len() && m.groups()[i as int].0 != "(untagged)"@ ==> {
            let t = m.on_mouse(me, l);
            &&& t.tags_view == TagsView::Filtered
            &&& t.tag_filter == m.groups()[i as int].0
        },
{
}

/// The wheel moves the selection or scrolls the history, up where it turns up.
pub proof fn the_wheel_moves_what_it_is_over(m: EasySshScreenModel, me: MouseEvent, l: EasySshLayoutModel)
    requires
        m.modal is None,
        m.tab == Tab::Servers,
        mouse::clicked(me) is None,
        mouse::scrolled(me) is Some,
    ensures
        ({
            let n = m.server_rows().len() as int;
            let up = mouse::scrolled(me)->0 < 0;
            let t = m.on_mouse(me, l);
            &&& n > 0 && mouse::hits(l.servers[1], me.column, me.row) && up && 0 < m.selected_row < n
                ==> t == (EasySshScreenModel { selected_row: m.selected_row - 1, ..m })
            &&& n > 0 && mouse::hits(l.servers[1], me.column, me.row) && !up && 0 <= m.selected_row < n - 1
                ==> t == (EasySshScreenModel { selected_row: m.selected_row + 1, ..m })
        }),
{
}

/// A click on a tab opens it, the first that of the hosts.
pub proof fn tabs_open_by_a_click(m: EasySshScreenModel, me: MouseEvent, l: EasySshLayoutModel, i: usize)
    requires
        m.modal is None,
        EasySshScreenModel::tab_hit(me, l) == Some(i),
    ensures
        i == 0 ==> m.on_mouse(me, l) == (EasySshScreenModel { tab: Tab::Servers, ..m }),
        i != 0 ==> m.on_mouse(me, l) == (EasySshScreenModel { tab: Tab::Tags, ..m }),
{
}

/// The arrows move the selection by one row, in the direction that they show.
pub proof fn arrows_move_the_selection(m: EasySshScreenModel, key: KeyEvent)
    requires
        m.modal is None,
        !key.control,
        m.tab == Tab::Servers && m.focus == Focus::List,
    ensures
        key.code == KeyCode::Up && 0 < m.selected_row < m.server_rows().len() ==> m.on_key(key).0 == (
        EasySshScreenModel { selected_row: m.selected_row - 1, ..m }),
        key.code == KeyCode::Down && 0 <= m.selected_row < m.server_rows().len() - 1 ==> m.on_key(key).0 == (
        EasySshScreenModel { selected_row: m.selected_row + 1, ..m }),
{
}

/// The function keys open their tabs.
pub proof fn function_keys_open_their_tabs(m: EasySshScreenModel, key: KeyEvent)
    requires
        m.modal is None,
    ensures
        key.code == KeyCode::F(1) ==> m.on_key(key) == (EasySshScreenModel { tab: Tab::Servers, ..m }, false),
        key.code == KeyCode::F(2) ==> m.on_key(key) == (EasySshScreenModel { tab: Tab::Tags, ..m }, false),
{
}

// --------------------------------------------------------------- directives

/// A directive is a name and a value with the first colon between them,
/// neither of them empty.
pub proof fn a_directive_is_split_at_its_first_colon(piece: Seq<char>)
    ensures
        server_list::directive(piece) matches Some((name, value)) ==> {
            let s = text::trimmed(piece);
            &&& name.len() > 0 && value.len() > 0
            &&& exists|i: int| {
                &&& 0 <= i < s.len()
                &&& #[trigger] s[i] == ':'
                &&& !s.take(i).contains(':')
                &&& name == text::trimmed(s.take(i))
                &&& value == text::trimmed(s.skip(i + 1))
            }
        },
        server_list::directive(piece) is None ==> {
            let s = text::trimmed(piece);
            forall|i: int|
                0 <= i < s.len() && #[trigger] s[i] == ':' && !s.take(i).contains(':') ==> text::trimmed(s.take(i)).len()
                    == 0 || text::trimmed(s.skip(i + 1)).len() == 0
        },
{
    let s = text::trimmed(piece);
    lemma_colon(s);
    let i = server_list::colon(s);
    if i < s.len() {
        assert(s[i] == ':');
    }
    assert forall|k: int| 0 <= k < s.len() && #[trigger] s[k] == ':' && !s.take(k).contains(':') implies k == i by {
        if k < i {
            assert(s.take(i)[k] == ':');
        }
        if i < k {
            assert(s.take(k)[i] == ':');
        }
    }
}

proof fn lemma_colon(s: Seq<char>)
    ensures
        0 <= server_list::colon(s) <= s.len(),
        server_list::colon(s) < s.len() ==> s[server_list::colon(s)] == ':',
        !s.take(server_list::colon(s)).contains(':'),
    decreases s.len(),
{
    let i = server_list::colon(s);
    if s.len() > 0 && s[0] != ':' {
        lemma_colon(s.drop_first());
        let t = s.take(i);
        if t.contains(':') {
            let k = choose|k: int| 0 <= k < t.len() && t[k] == ':';
            assert(s.drop_first().take(i - 1)[k - 1] == ':');
        }
    }
}

/// The advanced field holds the directives between the semicolons, in order,
/// without what is none.
pub proof fn directives_stand_between_semicolons(p: Seq<Seq<char>>)
    ensures
        ({
            let kept = p.filter(|q: Seq<char>| server_list::directive(q) is Some);
            let d = server_list::directives(p);
            &&& d.len() == kept.len()
            &&& forall|i: int| 0 <= i < d.len() ==> Some(#[trigger] d[i]) == server_list::directive(kept[i])
        }),
    decreases p.len(),
{
    reveal(Seq::filter);
    if p.len() > 0 {
        directives_stand_between_semicolons(p.drop_last());
        let kept = p.filter(|q: Seq<char>| server_list::directive(q) is Some);
        let part = p.drop_last().filter(|q: Seq<char>| server_list::directive(q) is Some);
        let d = server_list::directives(p);
        let front = server_list::directives(p.drop_last());
        assert forall|i: int| 0 <= i < front.len() implies #[trigger] d[i] == front[i] && kept[i] == part[i] by {}
    }
}

} // verus!
