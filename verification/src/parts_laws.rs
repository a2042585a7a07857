//! What the parts that the screens share are for: inputs, paths, pickers, the
//! menu, the history, and how the program hands out its events.
use crate::app::{AppModel, AnswersModel};
use crate::create_db_modal::{CreateDbField, CreateDbModel};
use crate::cycle;
use crate::easyssh_screen;
use crate::easyssh_screen::EasySshScreenModel;
use crate::event::{KeyCode, KeyEvent, MouseEvent, MouseKind};
use crate::file_picker;
use crate::file_picker::{ActivationModel, EntryModel, FilePickerModel, ListingModel, StartFacts};
use crate::geometry;
use crate::geometry::Rect;
use crate::home;
use crate::home::HomeModel;
use crate::host_picker;
use crate::host_picker::{HostPickerModel, PickerStep};
use crate::lists;
use crate::local_path;
use crate::log;
use crate::log::LogModel;
use crate::mouse;
use crate::remote_path;
use crate::screen::Screen;
use crate::servers::ServerModel;
use crate::sort;
use crate::text;
use crate::widgets::InputModel;
use vstd::prelude::*;

verus! {

// ------------------------------------------------------------------- inputs

/// A character goes in at the cursor: what stood in front of it stays in front,
/// what stood behind it stays behind.
pub proof fn characters_go_in_at_the_cursor(i: InputModel, c: char)
    requires
        i.wf(),
    ensures
        ({
            let t = i.edit(KeyCode::Char(c));
            &&& t.text.take(i.cursor) == i.text.take(i.cursor)
            &&& t.text[i.cursor] == c
            &&& t.text.skip(i.cursor + 1) == i.text.skip(i.cursor)
            &&& t.cursor == i.cursor + 1
        }),
{
    let t = i.edit(KeyCode::Char(c));
    assert(t.text.take(i.cursor) =~= i.text.take(i.cursor));
    assert(t.text.skip(i.cursor + 1) =~= i.text.skip(i.cursor));
}

/// Backspace takes out the character in front of the cursor, Delete the one
/// behind it, and neither touches another.
pub proof fn one_character_goes_out(i: InputModel)
    requires
        i.wf(),
    ensures
        i.cursor > 0 ==> {
            let t = i.edit(KeyCode::Backspace);
            &&& t.text == i.text.take(i.cursor - 1) + i.text.skip(i.cursor)
            &&& t.cursor == i.cursor - 1
        },
        i.cursor == 0 ==> i.edit(KeyCode::Backspace) == i,
        i.cursor < i.text.len() ==> {
            let t = i.edit(KeyCode::Delete);
            &&& t.text == i.text.take(i.cursor) + i.text.skip(i.cursor + 1)
            &&& t.cursor == i.cursor
        },
        i.cursor == i.text.len() ==> i.edit(KeyCode::Delete) == i,
{
    if i.cursor > 0 {
        assert(i.edit(KeyCode::Backspace).text =~= i.text.take(i.cursor - 1) + i.text.skip(i.cursor));
    }
    if i.cursor < i.text.len() {
        assert(i.edit(KeyCode::Delete).text =~= i.text.take(i.cursor) + i.text.skip(i.cursor + 1));
    }
}

/// The keys that move the cursor leave the text as it is.
pub proof fn the_cursor_moves_in_the_text(i: InputModel)
    requires
        i.wf(),
    ensures
        i.cursor > 0 ==> i.edit(KeyCode::Left) == (InputModel { cursor: i.cursor - 1, ..i }),
        i.cursor == 0 ==> i.edit(KeyCode::Left) == i,
        i.cursor < i.text.len() ==> i.edit(KeyCode::Right) == (InputModel { cursor: i.cursor + 1, ..i }),
        i.cursor == i.text.len() ==> i.edit(KeyCode::Right) == i,
        i.edit(KeyCode::Home) == (InputModel { cursor: 0, ..i }),
        i.edit(KeyCode::End) == (InputModel { cursor: i.text.len() as int, ..i }),
{
}

/// The selection of a list moves by one, and stops at both ends.
pub proof fn selections_move_by_one(i: int, n: int)
    requires
        0 <= i < n,
    ensures
        i > 0 ==> cycle::moved(i, true, n) == i - 1,
        i == 0 ==> cycle::moved(i, true, n) == 0,
        i < n - 1 ==> cycle::moved(i, false, n) == i + 1,
        i == n - 1 ==> cycle::moved(i, false, n) == i,
{
}

// -------------------------------------------------------------------- paths

proof fn lemma_stripped(p: Seq<char>)
    ensures
        remote_path::stripped(p).len() <= p.len(),
        remote_path::stripped(p) == p.take(remote_path::stripped(p).len() as int),
        remote_path::stripped(p).len() > 0 ==> remote_path::stripped(p).last() != '/',
        forall|i: int| remote_path::stripped(p).len() <= i < p.len() ==> #[trigger] p[i] == '/',
    decreases p.len(),
{
    if p.len() > 0 && p.last() == '/' {
        let f = p.drop_last();
        lemma_stripped(f);
        let s = remote_path::stripped(p);
        assert(s =~= p.take(s.len() as int));
        assert forall|i: int| s.len() <= i < p.len() implies #[trigger] p[i] == '/' by {
            if i < f.len() {
                assert(f[i] == '/');
            }
        }
    } else {
        assert(p =~= p.take(p.len() as int));
    }
}

proof fn lemma_up_to_slash(base: Seq<char>, name: Seq<char>)
    requires
        !name.contains('/'),
    ensures
        remote_path::up_to_slash(base.push('/') + name) == base.push('/'),
    decreases name.len(),
{
    let p = base.push('/') + name;
    if name.len() > 0 {
        assert(p.last() == name.last());
        assert(name[name.len() - 1] != '/');
        let f = name.drop_last();
        assert(!f.contains('/')) by {
            if f.contains('/') {
                let k = choose|k: int| 0 <= k < f.len() && f[k] == '/';
                assert(name[k] == '/');
            }
        }
        lemma_up_to_slash(base, f);
        assert(p.drop_last() =~= base.push('/') + f);
    } else {
        assert(p =~= base.push('/'));
    }
}

/// Going up undoes going into a directory on the far side: the way leads back
/// to where it started, without slashes at its end.
pub proof fn going_up_undoes_going_in(base: Seq<char>, name: Seq<char>)
    requires
        name.len() > 0,
        !name.contains('/'),
        name != ".."@,
    ensures
        ({
            let down = remote_path::joined(base, name);
            let d = remote_path::stripped(base);
            &&& down == d + "/"@ + name
            &&& d.len() > 0 ==> remote_path::parent(down) == d && remote_path::joined(down, ".."@) == d
            &&& d.len() == 0 ==> remote_path::parent(down) == "/"@ && remote_path::joined(down, ".."@) == "/"@
        }),
{
    reveal_strlit("/");
    let d = remote_path::stripped(base);
    let down = remote_path::joined(base, name);
    lemma_stripped(base);
    assert(d + "/"@ =~= d.push('/'));
    assert(down =~= d.push('/') + name);
    assert(down.last() == name.last());
    assert(name[name.len() - 1] != '/');
    assert(remote_path::stripped(down) == down);
    lemma_up_to_slash(d, name);
    assert(d.push('/').drop_last() =~= d);
    reveal_with_fuel(remote_path::stripped, 2);
    assert(remote_path::stripped(d.push('/')) == d);
}

/// The root is its own parent, and every parent is shorter or the root.
pub proof fn the_root_is_the_top(p: Seq<char>)
    requires
        forall|i: int| 0 <= i < p.len() ==> #[trigger] p[i] == '/',
    ensures
        remote_path::parent(p) == "/"@,
    decreases p.len(),
{
    lemma_stripped(p);
    let s = remote_path::stripped(p);
    if s.len() > 0 {
        assert(s.last() == p[s.len() - 1]);
    }
    assert(s =~= Seq::empty());
}

// ------------------------------------------------------------------ pickers

/// A host is offered for its alias, its host name or one of its tags, in
/// either case of letters, and every such host is.
pub proof fn hosts_are_offered_for_what_was_typed(p: HostPickerModel, s: ServerModel)
    ensures
        p.filtered().contains(s) <==> {
            let q = text::lowercase(text::trimmed(p.query.text));
            let host = if s.host.len() > 0 {
                s.host
            } else {
                s.alias
            };
            &&& p.all.contains(s)
            &&& {
                ||| q.len() == 0
                ||| text::occurs(text::lowercase(s.alias), q)
                ||| text::occurs(text::lowercase(host), q)
                ||| exists|i: int| 0 <= i < s.tags.len() && text::occurs(text::lowercase(#[trigger] s.tags[i]), q)
            }
        },
{
    let q = text::lowercase(p.query.trimmed());
    let keep = |s: ServerModel| host_picker::matches_host(s, q);
    lists::lemma_filter_contains(p.all, keep, s);
    if exists|i: int| 0 <= i < s.tags.len() && text::occurs(text::lowercase(#[trigger] s.tags[i]), q) {
        let i = choose|i: int| 0 <= i < s.tags.len() && text::occurs(text::lowercase(#[trigger] s.tags[i]), q);
        assert(text::occurs(text::lowercase(s.tags[i]), q));
        assert(host_picker::any_contains(s.tags, q));
    }
    if host_picker::any_contains(s.tags, q) {
        let i = choose|i: int| 0 <= i < s.tags.len() && #[trigger] text::occurs(text::lowercase(s.tags[i]), q);
        assert(text::occurs(text::lowercase(s.tags[i]), q));
    }
}

/// What is typed narrows the hosts from the top; the arrows move the selection;
/// Enter picks the selected host, and Esc none.
pub proof fn the_host_picker_does_what_its_keys_say(p: HostPickerModel, c: char)
    ensures
        p.on_key(KeyCode::Char(c)) == (HostPickerModel {
            query: InputModel { text: p.query.text.insert(p.query.cursor, c), cursor: p.query.cursor + 1 },
            selected: 0,
            ..p
        }, PickerStep::Stay),
        p.on_key(KeyCode::Enter) == (p, PickerStep::Pick),
        p.on_key(KeyCode::Esc) == (p, PickerStep::Close),
        0 < p.selected ==> p.on_key(KeyCode::Up) == (HostPickerModel { selected: p.selected - 1, ..p }, PickerStep::Stay),
        0 <= p.selected < p.filtered().len() - 1 ==> p.on_key(KeyCode::Down) == (HostPickerModel {
            selected: p.selected + 1,
            ..p
        }, PickerStep::Stay),
        0 <= p.selected < p.filtered().len() ==> p.picked() == Some(p.filtered()[p.selected]),
        !(0 <= p.selected < p.filtered().len()) ==> p.picked() is None,
{
}

/// A picker over hosts starts with all of them, without a search; one that
/// could not be filled has none and says why.
pub proof fn host_pickers_start_with_every_host(all: Seq<ServerModel>, error: Seq<char>)
    ensures
        HostPickerModel::over(all).all == all,
        HostPickerModel::over(all).filtered() == all,
        HostPickerModel::over(all).error is None,
        HostPickerModel::failed(error).error == Some(error),
        HostPickerModel::failed(error).filtered().len() == 0,
{
    let p = HostPickerModel::over(all);
    let q = text::lowercase(p.query.trimmed());
    assert(text::trimmed(Seq::<char>::empty()) =~= Seq::<char>::empty()) by {
        crate::text_laws::trimming_takes_off_white_space(Seq::empty());
    }
    assert(q.len() == 0);
    lists::lemma_filter_all(all, |s: ServerModel| host_picker::matches_host(s, q));
    reveal(Seq::filter);
}

/// The file picker moves, picks and closes by its keys.
pub proof fn the_file_picker_does_what_its_keys_say(p: FilePickerModel)
    ensures
        p.on_key(KeyCode::Enter) == (p, PickerStep::Pick),
        p.on_key(KeyCode::Esc) == (p, PickerStep::Close),
        0 < p.selected ==> p.on_key(KeyCode::Up) == (FilePickerModel { selected: p.selected - 1, ..p }, PickerStep::Stay),
        0 <= p.selected < p.entries.len() - 1 ==> p.on_key(KeyCode::Down) == (FilePickerModel {
            selected: p.selected + 1,
            ..p
        }, PickerStep::Stay),
{
}

/// A file is picked by its path: the directory shown and its name. A directory
/// is opened by its path, and the entry above by that of the parent.
pub proof fn entries_are_picked_by_their_path(p: FilePickerModel)
    requires
        0 <= p.selected < p.entries.len(),
    ensures
        ({
            let e = p.entries[p.selected];
            &&& e.name != ".."@ && !e.is_dir ==> p.activated() == ActivationModel::Picked(
                local_path::joined(p.cwd, e.name),
            )
            &&& e.name != ".."@ && e.is_dir ==> p.activated() == ActivationModel::Open(
                local_path::joined(p.cwd, e.name),
            )
            &&& e.name == ".."@ ==> match local_path::parent(p.cwd) {
                Some(d) => p.activated() == ActivationModel::Open(d),
                None => p.activated() == ActivationModel::Nothing,
            }
        }),
{
}

/// A name stands behind the directory, with one slash between them.
pub proof fn names_stand_behind_their_directory(base: Seq<char>, name: Seq<char>)
    requires
        base.len() > 0,
        name.len() > 0,
        name[0] != '/',
    ensures
        base.last() == '/' ==> local_path::joined(base, name) == base + name,
        base.last() != '/' ==> local_path::joined(base, name) == base + "/"@ + name,
{
}

/// A listing is shown with its directory and its error, directories in front
/// of files.
pub proof fn listings_are_shown_directories_first(l: ListingModel, i: int, j: int)
    requires
        0 <= i < j < FilePickerModel::opened(l, None).entries.len(),
    ensures
        ({
            let p = FilePickerModel::opened(l, None);
            &&& p.cwd == l.cwd
            &&& p.error == l.error
            &&& p.selected == 0
            &&& p.entries[j].is_dir ==> p.entries[i].is_dir
        }),
{
    let p = FilePickerModel::opened(l, None);
    let up = file_picker::parent_entry(l.cwd);
    let dirs = file_picker::of_kind(l.entries, true);
    let files = file_picker::of_kind(l.entries, false);
    let le = file_picker::by_name();
    let a = sort::sorted(dirs, le);
    let b = sort::sorted(files, le);
    assert(p.entries == up + a + b);
    assert forall|k: int| 0 <= k < a.len() implies #[trigger] a[k].is_dir by {
        lemma_sorted_part(dirs, le, k);
        lists::lemma_filter_contains(l.entries, |e: EntryModel| e.is_dir == true, a[k]);
    }
    assert forall|k: int| 0 <= k < b.len() implies !(#[trigger] b[k].is_dir) by {
        lemma_sorted_part(files, le, k);
        lists::lemma_filter_contains(l.entries, |e: EntryModel| e.is_dir == false, b[k]);
    }
    if p.entries[j].is_dir {
        if j >= up.len() + a.len() {
            assert(p.entries[j] == b[j - up.len() - a.len()]);
        }
        if i >= up.len() {
            assert(p.entries[i] == a[i - up.len()]);
        }
    }
}

proof fn lemma_sorted_part(v: Seq<EntryModel>, le: spec_fn(EntryModel, EntryModel) -> bool, k: int)
    requires
        0 <= k < sort::sorted(v, le).len(),
    ensures
        v.contains(sort::sorted(v, le)[k]),
{
    let w = sort::sorted(v, le);
    sort::sorting_permutes(v, le);
    v.to_multiset_ensures();
    w.to_multiset_ensures();
    assert(v.to_multiset() == w.to_multiset());
    assert(w.contains(w[k]));
    assert(w.to_multiset().count(w[k]) > 0);
    assert(v.contains(w[k]) <==> v.to_multiset().count(w[k]) > 0);
}

/// Browsing for a key starts in the directory that was typed, at the file that
/// was typed, or else where keys are kept at home.
pub proof fn browsing_starts_where_the_path_leads(f: StartFacts)
    ensures
        ({
            let (dir, file) = file_picker::start_of(f);
            let home = match f.home {
                Some(h) => h@,
                None => "/"@,
            };
            &&& f.is_dir ==> dir == f.path@ && file is None
            &&& !f.is_dir && f.is_file && f.parent_is_dir ==> (local_path::parent(f.path@) matches Some(d) ==> dir == d
                && file == Some(local_path::name(f.path@)))
            &&& !f.is_dir && !f.is_file && f.ssh_dir_exists ==> dir == local_path::joined(home, ".ssh"@) && file is None
            &&& !f.is_dir && !f.is_file && !f.ssh_dir_exists ==> dir == home && file is None
        }),
{
}

/// What is typed in the window of a new database goes into the focused input.
pub proof fn typing_goes_to_the_input_with_the_focus(m: CreateDbModel, c: char)
    ensures
        ({
            let put = |i: InputModel| InputModel { text: i.text.insert(i.cursor, c), cursor: i.cursor + 1 };
            let t = m.on_key(KeyCode::Char(c)).0;
            &&& m.field == CreateDbField::Name ==> t == (CreateDbModel { name: put(m.name), ..m })
            &&& m.field == CreateDbField::Opt1 ==> t == (CreateDbModel { opt1: put(m.opt1), ..m })
            &&& m.field == CreateDbField::Opt2 ==> t == (CreateDbModel { opt2: put(m.opt2), ..m })
            &&& m.field == CreateDbField::BtnCreate || m.field == CreateDbField::BtnCancel ==> t == m
        }),
{
}

// --------------------------------------------------------------------- menu

/// Enter opens the highlighted tool, a digit the tool with that number.
pub proof fn the_menu_opens_what_was_asked_for(m: HomeModel, key: KeyEvent)
    requires
        m.wf(),
    ensures
        key.code == KeyCode::Enter ==> m.on_key(key) == (m, Some(m.order[m.selected])),
        key.code == KeyCode::Char('0') ==> m.on_key(key) == (m, None::<Screen>),
{
    crate::screen::complete_orders_are_equally_long(m.order);
}

/// The digit n opens the n-th tool.
pub proof fn digits_open_the_tool_with_their_number(m: HomeModel, c: char, n: int)
    requires
        m.wf(),
        '1' <= c <= '9',
        n == c as int - '0' as int,
    ensures
        m.on_key(KeyEvent { code: KeyCode::Char(c), control: false }) == (m, Some(m.order[n - 1])),
{
    crate::screen::complete_orders_are_equally_long(m.order);
}

/// The arrows move the highlight, and nothing else.
pub proof fn the_highlight_moves_by_one(m: HomeModel)
    requires
        m.wf(),
    ensures
        m.selected > 0 ==> m.on_key(KeyEvent { code: KeyCode::Up, control: false }) == (HomeModel {
            selected: m.selected - 1,
            ..m
        }, None::<Screen>),
        m.selected < m.order.len() - 1 ==> m.on_key(KeyEvent { code: KeyCode::Down, control: false }) == (HomeModel {
            selected: m.selected + 1,
            ..m
        }, None::<Screen>),
{
}

/// A tool that is moved changes places with its neighbour and keeps the
/// highlight; the new order is written down for the next start.
pub proof fn moving_a_tool_swaps_it_with_its_neighbour(m: HomeModel, up: bool, k: int)
    requires
        m.wf(),
        up ==> m.selected > 0,
        !up ==> m.selected < m.order.len() - 1,
        0 <= k < m.order.len(),
    ensures
        ({
            let c = if up {
                'K'
            } else {
                'J'
            };
            let (t, opened) = m.on_key(KeyEvent { code: KeyCode::Char(c), control: false });
            let there = if up {
                m.selected - 1
            } else {
                m.selected + 1
            };
            &&& opened is None
            &&& t.selected == there
            &&& t.order.len() == m.order.len()
            &&& k == there ==> t.order[k] == m.order[m.selected]
            &&& k == m.selected ==> t.order[k] == m.order[there]
            &&& k != there && k != m.selected ==> t.order[k] == m.order[k]
            &&& t.unsaved == Some(home::json_document(t.order.map_values(|s: Screen| s.key())))
        }),
{
}

/// What is about a tool is as wide as the menu, without its frame and the
/// indent, and never narrower than ten.
pub proof fn descriptions_fill_the_menu(width: int)
    ensures
        width >= home::INDENT + 12 ==> home::about_width(width) == width - 2 - home::INDENT,
        width < home::INDENT + 12 ==> home::about_width(width) == 10,
{
}

// ------------------------------------------------------------------ history

/// Lines are told in the order in which they came, with what they say of
/// their success; an error is shown too.
pub proof fn the_history_tells_every_line(l: LogModel, ok: bool, line: Seq<char>)
    ensures
        l.note(ok, line) == (LogModel { history: l.history.push((ok, line)), ..l }),
        l.error(line) == (LogModel {
            history: l.history.push((false, line)),
            alert: Some(("Error"@, line)),
            scroll: l.scroll,
        }),
        l.dismissed() == (LogModel { alert: None, ..l }),
        l.copied(ok).history.len() == l.history.len() + 1,
        l.copied(ok).history.last().0 == ok,
{
}

/// The history scrolls by three lines, up away from the newest, down towards
/// it.
pub proof fn the_history_scrolls_by_three(l: LogModel)
    ensures
        l.scroll <= u16::MAX - 3 ==> l.scrolled(true) == (LogModel { scroll: (l.scroll + 3) as u16, ..l }),
        l.scroll >= 3 ==> l.scrolled(false) == (LogModel { scroll: (l.scroll - 3) as u16, ..l }),
        l.scroll < 3 ==> l.scrolled(false) == (LogModel { scroll: 0, ..l }),
{
}

/// What is copied of the history are its lines, in order.
pub proof fn the_copied_history_has_every_line(l: LogModel, ok: bool, line: Seq<char>)
    ensures
        l.history.len() == 0 ==> l.text().len() == 0,
        l.history.len() == 0 ==> l.note(ok, line).text() == line,
        l.history.len() > 0 ==> l.note(ok, line).text() == l.text() + "\n"@ + line,
{
    let f = |x: (bool, Seq<char>)| x.1;
    let before = l.history.map_values(f);
    let after = l.note(ok, line).history.map_values(f);
    assert(after =~= before.push(line));
    assert(after.drop_last() =~= before);
    if l.history.len() == 0 {
        assert(before =~= Seq::empty());
        reveal_with_fuel(text::joined, 2);
        assert(l.note(ok, line).text() =~= line);
    }
}

/// A window with a message closes by Enter, Esc and q.
pub proof fn messages_are_closed_by_three_keys(key: KeyCode)
    ensures
        log::closes_alert(key) <==> (key == KeyCode::Enter || key == KeyCode::Esc || key == KeyCode::Char('q')),
{
}

// -------------------------------------------------------------------- mouse

/// A rectangle is hit in its own cells, the border of a frame belongs to the
/// frame alone.
pub proof fn rectangles_are_hit_in_their_cells(r: Rect, x: u16, y: u16)
    requires
        r.right() <= u16::MAX,
        r.bottom() <= u16::MAX,
    ensures
        mouse::hits(r, x, y) <==> r.x <= x < r.x + r.width && r.y <= y < r.y + r.height,
        r.width >= 2 && r.height >= 2 ==> (mouse::hits(mouse::inner(r), x, y) <==> r.x < x < r.x + r.width - 1 && r.y < y
            < r.y + r.height - 1),
{
}

/// A press is a press of the left button where the pointer is; the wheel turns
/// up or down.
pub proof fn events_mean_what_they_are(me: MouseEvent)
    ensures
        mouse::clicked(me) is Some <==> me.kind == MouseKind::LeftDown,
        mouse::clicked(me) matches Some((x, y)) ==> x == me.column && y == me.row,
        mouse::scrolled(me) is Some <==> me.kind == MouseKind::ScrollUp || me.kind == MouseKind::ScrollDown,
        me.kind == MouseKind::ScrollUp ==> mouse::scrolled(me)->0 < 0,
        me.kind == MouseKind::ScrollDown ==> mouse::scrolled(me)->0 > 0,
{
}

/// A window lies inside the screen with its margins, as large as it wants to
/// be where there is room, and in the middle.
pub proof fn windows_lie_in_the_middle(width: u16, height: u16, dx: u16, dy: u16, area: Rect)
    requires
        area.right() <= u16::MAX,
        area.bottom() <= u16::MAX,
    ensures
        ({
            let r = geometry::modal_rect(width, height, dx, dy, area);
            let left = r.x - area.x;
            let right = area.x + area.width - (r.x + r.width);
            let above = r.y - area.y;
            let below = area.y + area.height - (r.y + r.height);
            &&& width + dx <= area.width ==> r.width == width
            &&& height + dy <= area.height ==> r.height == height
            &&& width + dx > area.width ==> r.width == geometry::less(area.width as int, dx as int)
            &&& height + dy > area.height ==> r.height == geometry::less(area.height as int, dy as int)
            &&& 0 <= left <= right <= left + 1
            &&& 0 <= above <= below <= above + 1
        }),
{
}

// ------------------------------------------------------------------ program

/// A key of a tool goes to that tool alone. Where the tool is left, the menu
/// shows again.
pub proof fn keys_go_to_the_tool_that_shows(m: AppModel, key: KeyEvent, outside: Option<bool>)
    requires
        !key.chord('c'),
        key.code != KeyCode::F(12),
    ensures
        ({
            let t = m.on_key(key, outside);
            let at = |left: bool| if left {
                Screen::Home
            } else {
                m.screen
            };
            &&& m.screen == Screen::EasySsh ==> (m.easyssh matches Some(s) ==> t == (AppModel {
                easyssh: Some(s.on_key(key).0),
                screen: at(s.on_key(key).1),
                ..m
            }))
            &&& m.screen == Screen::Cloudflare ==> (m.cloudflare matches Some(s) ==> t == (AppModel {
                cloudflare: Some(s.on_key(key).0),
                screen: at(s.on_key(key).1),
                ..m
            }))
            &&& m.screen == Screen::ClickHouse ==> (m.clickhouse matches Some(s) ==> t == (AppModel {
                clickhouse: Some(s.on_key(key).0),
                screen: at(s.on_key(key).1),
                ..m
            }))
            &&& m.screen == Screen::Logs ==> (m.logs matches Some(s) ==> t == (AppModel {
                logs: Some(s.on_key(key).0),
                screen: at(s.on_key(key).1),
                ..m
            }))
            &&& m.screen == Screen::KernelTune ==> (m.kerneltune matches Some(s) ==> t == (AppModel {
                kerneltune: Some(s.on_key(key).0),
                screen: at(s.on_key(key).1),
                ..m
            }))
        }),
{
    reveal(AppModel::on_key);
}

/// From the menu, Enter shows the highlighted tool; Esc and q quit.
pub proof fn the_menu_shows_tools_and_quits(m: AppModel, key: KeyEvent)
    requires
        m.screen == Screen::Home,
        m.home.wf(),
        !key.control,
    ensures
        key.code == KeyCode::Enter ==> m.on_key(key, None).screen == m.home.order[m.home.selected],
        key.code == KeyCode::Enter ==> !(m.on_key(key, None).should_quit && !m.should_quit),
        key.code == KeyCode::Esc || key.code == KeyCode::Char('q') ==> m.on_key(key, None) == (AppModel {
            should_quit: true,
            ..m
        }),
{
    reveal(AppModel::on_key);
}

/// A tool is made when it is first shown: the host manager at once, and it
/// lists its hosts; the others have to be waited for.
pub proof fn tools_are_made_when_they_are_first_shown(m: AppModel, s: Screen)
    ensures
        ({
            let t = m.entered(s);
            &&& t.screen == s
            &&& t.easyssh != m.easyssh ==> s == Screen::EasySsh && m.easyssh is None
            &&& s == Screen::EasySsh && m.easyssh is None ==> {
                &&& t.easyssh matches Some(e)
                &&& e.servers.len() == 0
                &&& e.modal is None
                &&& e.requests == seq![easyssh_screen::RequestModel::Refresh { told: false }]
            }
            &&& t == (AppModel { screen: s, easyssh: t.easyssh, ..m })
            &&& t.waiting() is Some <==> {
                ||| s == Screen::Cloudflare && m.cloudflare is None
                ||| s == Screen::ClickHouse && m.clickhouse is None
                ||| s == Screen::Logs && m.logs is None
                ||| s == Screen::KernelTune && m.kerneltune is None
            }
            &&& t.waiting() matches Some(w) ==> w == s
        }),
{
}

/// The program starts with the menu, in the order that was written down, with
/// no tool made.
pub proof fn the_program_starts_with_the_menu(document: Option<Seq<char>>)
    ensures
        ({
            let m = AppModel::fresh(document);
            &&& m.screen == Screen::Home
            &&& !m.should_quit
            &&& !m.mouse_enabled
            &&& m.home.selected == 0
            &&& m.home.order == home::order_in(document)
            &&& m.easyssh is None && m.cloudflare is None && m.clickhouse is None && m.logs is None
                && m.kerneltune is None
        }),
{
}

/// Answers change the tools that they are for, whichever tool shows, and a
/// tool without answers stays as it is.
pub proof fn answers_go_to_their_tool(m: AppModel, answers: AnswersModel, now: u64)
    ensures
        ({
            let t = m.ticked(answers, now);
            &&& m.easyssh is None ==> t.easyssh is None
            &&& m.easyssh is Some && answers.easyssh.len() == 0 ==> t.easyssh == m.easyssh
            &&& m.easyssh is Some && answers.easyssh.len() == 1 ==> t.easyssh == Some(
                m.easyssh->0.on_msg(answers.easyssh[0]),
            )
            &&& m.cloudflare is Some && answers.cloudflare.len() == 0 ==> t.cloudflare == m.cloudflare
            &&& m.kerneltune is Some && answers.kerneltune.len() == 0 ==> t.kerneltune == m.kerneltune
            &&& t.screen == m.screen && t.home == m.home && t.should_quit == m.should_quit
        }),
{
    reveal_with_fuel(EasySshScreenModel::ticked, 2);
    if answers.easyssh.len() == 1 {
        assert(answers.easyssh.drop_last() =~= Seq::empty());
    }
}

/// A press is remembered with its place and time; the release is swallowed.
pub proof fn presses_are_remembered(m: AppModel, me: MouseEvent, now: u64)
    ensures
        me.kind == MouseKind::LeftDown ==> m.pressed(me, now) == (AppModel {
            last_click: Some((me.column, me.row, now)),
            ..m
        }),
        me.kind != MouseKind::LeftDown ==> m.pressed(me, now) == m,
        me.kind == MouseKind::LeftUp ==> m.swallows(me, now),
        me.kind == MouseKind::ScrollUp || me.kind == MouseKind::ScrollDown ==> !m.swallows(me, now),
        m.last_click is None && me.kind == MouseKind::LeftDown ==> !m.swallows(me, now),
{
}

} // verus!
