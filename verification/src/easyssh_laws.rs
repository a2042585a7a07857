//! What holds of the SSH manager as a whole.
use crate::easyssh_screen;
use crate::easyssh_screen::{
    ConfirmDeleteModalModel, ConfirmField, EasySshLayoutModel, EasySshScreenModel, EditField, EditTagsField,
    EditTagsModalModel, Focus, ForwardAgent, ModalModel, RequestModel, RowAction, ServerFormModel, Tab, TagsView,
};
use crate::event::{KeyCode, KeyEvent, MouseEvent};
use crate::lists;
use crate::mouse;
use crate::server_list;
use crate::server_list::SortMode;
use crate::servers::ServerModel;
use crate::sort;
use crate::text;
use vstd::prelude::*;

verus! {

/// Going to the next field, or value, and back ends where it started.
pub proof fn fields_cycle(e: EditField, t: EditTagsField, c: ConfirmField, f: ForwardAgent)
    ensures
        e.next().prev() == e && e.prev().next() == e,
        t.next().prev() == t && t.prev().next() == t,
        c.other().other() == c,
        f.next().prev() == f && f.prev().next() == f,
{
}

/// The list shows exactly the hosts that match the search, each as often as
/// it is known.
pub proof fn the_list_shows_what_matches(s: EasySshScreenModel, i: int)
    ensures
        0 <= i < s.server_rows().len() ==> {
            let q = text::lowercase(text::trimmed(s.search.text));
            s.servers.contains(s.server_rows()[i]) && (q.len() == 0 || server_list::matching(s.server_rows()[i], q))
        },
        text::lowercase(text::trimmed(s.search.text)).len() == 0 ==> s.server_rows().to_multiset()
            == s.servers.to_multiset(),
{
    let q = text::lowercase(text::trimmed(s.search.text));
    let keep = |h: ServerModel| q.len() == 0 || server_list::matching(h, q);
    let kept = s.servers.filter(keep);
    server_list::sorted_servers_are_in_order(kept, s.sort_mode);
    if 0 <= i < s.server_rows().len() {
        lemma_sorted_part(kept, s.sort_mode, i);
        let k = choose|k: int| 0 <= k < kept.len() && kept[k] == s.server_rows()[i];
        lists::lemma_filter_part(s.servers, keep, k);
    }
    if q.len() == 0 {
        lists::lemma_filter_all(s.servers, keep);
    }
}

/// A group shows exactly the hosts that belong to it.
pub proof fn groups_show_their_hosts(s: EasySshScreenModel, tag: Seq<char>, i: int)
    requires
        0 <= i < s.group_rows(tag).len(),
    ensures
        s.servers.contains(s.group_rows(tag)[i]),
        server_list::in_group(s.group_rows(tag)[i], tag),
{
    let keep = |h: ServerModel| server_list::in_group(h, tag);
    let kept = s.servers.filter(keep);
    lemma_sorted_part(kept, s.sort_mode, i);
    let k = choose|k: int| 0 <= k < kept.len() && kept[k] == s.group_rows(tag)[i];
    lists::lemma_filter_part(s.servers, keep, k);
}

proof fn lemma_sorted_part(v: Seq<ServerModel>, mode: SortMode, i: int)
    requires
        0 <= i < sort::sorted(v, server_list::server_order(mode)).len(),
    ensures
        v.contains(sort::sorted(v, server_list::server_order(mode))[i]),
{
    broadcast use vstd::seq_lib::group_to_multiset_ensures;

    let t = sort::sorted(v, server_list::server_order(mode));
    sort::sorting_permutes(v, server_list::server_order(mode));
    assert(t.contains(t[i]));
    assert(t.to_multiset().count(t[i]) > 0);
    assert(v.to_multiset().count(t[i]) > 0);
}

/// Saving keeps what the form does not show, and an empty password field
/// keeps the saved password.
pub proof fn what_the_form_does_not_show_is_kept(f: ServerFormModel)
    ensures
        f.built().remote_forward == f.base.remote_forward,
        f.built().dynamic_forward == f.base.dynamic_forward,
        f.built().pinned_at == f.base.pinned_at,
        f.built().last_seen == f.base.last_seen,
        f.built().last_seen_text == f.base.last_seen_text,
        f.built().forwarding == f.base.forwarding,
        f.ssh_password.text.len() == 0 ==> f.built().ssh_password == f.base.ssh_password,
        f.ssh_password.text.len() > 0 ==> f.built().ssh_password == f.ssh_password.text,
{
}

/// Whether the texts of a host are as the form would write them.
pub open spec fn tidy(s: ServerModel) -> bool {
    &&& s.patterns == seq![s.alias]
    &&& text::trimmed(s.alias) == s.alias
    &&& text::trimmed(s.host) == s.host
    &&& text::trimmed(s.user) == s.user
    &&& text::trimmed(s.proxy_jump) == s.proxy_jump
    &&& s.forward_agent == "yes"@ || s.forward_agent == "no"@ || s.forward_agent == ""@
    &&& forall|i: int| 0 <= i < s.identity_files.len() ==> server_list::is_item(#[trigger] s.identity_files[i])
    &&& forall|i: int| 0 <= i < s.local_forward.len() ==> server_list::is_item(#[trigger] s.local_forward[i])
    &&& forall|i: int| 0 <= i < s.tags.len() ==> server_list::is_item(#[trigger] s.tags[i])
    &&& forall|i: int| 0 <= i < s.extra.len() ==> server_list::is_directive(#[trigger] s.extra[i])
}

/// Opening a host for editing and saving it as it stands changes nothing.
pub proof fn saving_an_unchanged_host_changes_nothing(s: ServerModel)
    requires
        tidy(s),
    ensures
        ServerFormModel::editing(s).built() == s,
{
    server_list::csv_reads_what_was_written(s.identity_files);
    server_list::csv_reads_what_was_written(s.local_forward);
    server_list::csv_reads_what_was_written(s.tags);
    server_list::directives_read_what_was_written(s.extra);
    lemma_forward_agents();
    let port = easyssh_screen::port_text(s.port);
    if s.port == 0 {
        text::lemma_trimmed(port);
        assert(!text::all_digits(port));
    } else {
        text::numbers_read_as_written(s.port as int);
        assert(text::decimal_int(s.port as int) == port);
        assert(port[0] != '-') by {
            text::lemma_decimal(s.port as nat);
            assert(text::is_digit(port[0]));
        }
    }
}

/// The values of ForwardAgent that the form can set are read as such.
proof fn lemma_forward_agents()
    ensures
        ForwardAgent::of("yes"@) == ForwardAgent::Yes,
        ForwardAgent::of("no"@) == ForwardAgent::No,
        ForwardAgent::of(""@) == ForwardAgent::Unset,
{
    reveal_strlit("yes");
    reveal_strlit("no");
    reveal_strlit("");
    assert(text::lowercase("yes"@) =~= "yes"@);
    assert(text::lowercase("no"@) =~= "no"@);
    assert(text::lowercase(""@) =~= ""@);
    assert("no"@.len() != "yes"@.len());
}

/// The form is for the keyboard alone: no mouse event changes it.
pub proof fn the_form_takes_no_mouse(s: EasySshScreenModel, me: MouseEvent, l: EasySshLayoutModel)
    requires
        s.modal matches Some(m) && (m is Add || m is Edit),
    ensures
        s.on_mouse(me, l) == s,
{
}

/// A host is deleted only by pressing Delete in the question, which starts
/// on Cancel.
pub proof fn deleting_takes_a_second_key(s: EasySshScreenModel, key: KeyEvent)
    requires
        s.requests.len() == 0,
    ensures
        ({
            let r = s.on_key(key).0.requests;
            r.len() > 0 && r[0] is DeleteServer ==> {
                &&& key.code == KeyCode::Enter
                &&& s.modal matches Some(ModalModel::ConfirmDelete(m))
                &&& m.field == ConfirmField::BtnDelete
                &&& r[0] == RequestModel::DeleteServer(m.alias)
            }
        }),
        forall|alias: Seq<char>| (#[trigger] ConfirmDeleteModalModel::of(alias)).field == ConfirmField::BtnCancel,
{
}

/// A click on a host connects to it: it selects the row and does what Enter
/// on it does.
pub proof fn clicking_a_host_connects(s: EasySshScreenModel, me: MouseEvent, l: EasySshLayoutModel)
    requires
        s.modal is None,
        s.tab == Tab::Servers,
        EasySshScreenModel::tab_hit(me, l) is None,
        mouse::clicked(me) matches Some(p) && !mouse::hits(mouse::inner(l.servers[0]), p.0, p.1) && mouse::table_hit(
            p.0,
            p.1,
            l.servers[1],
            1,
            s.server_rows().len() as int,
            s.selected_row,
        ) is Some,
    ensures
        ({
            let p = mouse::clicked(me)->0;
            let i = mouse::table_hit(p.0, p.1, l.servers[1], 1, s.server_rows().len() as int, s.selected_row)->0;
            let t = EasySshScreenModel { focus: Focus::List, selected_row: i as int, ..s };
            &&& s.on_mouse(me, l) == t.act(RowAction::Connect)
            &&& s.on_mouse(me, l) == t.on_servers_key(KeyCode::Enter).0
        }),
{
}

/// The keys of a row work on the list that is on the screen: in a group on
/// the hosts of the group, and else on those of the search.
pub proof fn row_keys_work_on_the_list_shown(s: EasySshScreenModel, key: KeyEvent)
    requires
        s.modal is None,
        !key.control,
        RowAction::of(key.code) is Some,
        s.tab == Tab::Servers && s.focus == Focus::List || s.tab == Tab::Tags && s.tags_view == TagsView::Filtered,
        !easyssh_screen::goes_up(key.code) && !easyssh_screen::goes_down(key.code),
    ensures
        s.on_key(key) == (s.act(RowAction::of(key.code)->0), false),
        s.current_rows() == if s.tab == Tab::Tags {
            s.group_rows(s.tag_filter)
        } else {
            s.server_rows()
        },
{
}

/// A key that leaves the screen changes nothing on it, and no modal is left
/// but by Ctrl+C.
pub proof fn leaving_changes_nothing(s: EasySshScreenModel, key: KeyEvent)
    ensures
        s.on_key(key).1 ==> s.on_key(key).0 == s,
        s.on_key(key).1 && !key.chord('c') ==> s.modal is None && key.code == KeyCode::Esc,
{
}

/// Pinning asks for the opposite of what is: a pinned host is unpinned, and
/// the other way round.
pub proof fn pinning_turns_the_pin(s: EasySshScreenModel, h: ServerModel)
    ensures
        s.acted(RowAction::Pin, h).requests == s.requests.push(
            RequestModel::SetPinned { alias: h.alias, pinned: h.pinned_at is None },
        ),
{
}

/// Editing the tags and saving them as they stand keeps them.
pub proof fn saving_unchanged_tags_keeps_them(s: ServerModel)
    requires
        forall|i: int| 0 <= i < s.tags.len() ==> server_list::is_item(#[trigger] s.tags[i]),
    ensures
        server_list::csv(EditTagsModalModel::of(s).tags.text) == s.tags,
{
    server_list::csv_reads_what_was_written(s.tags);
}

} // verus!
