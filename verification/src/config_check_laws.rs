//! What holds of the config checker as a whole.
use crate::config_check_screen;
use crate::config_check_screen::{
    BrowserActionModel, BrowserModel, CheckActionModel, CheckField, CheckResultModel, CheckTabModel,
    ConfigCheckLayoutModel, ConfigCheckScreenModel, EntryModel, Format, FormatChoice, MsgModel, RequestModel,
};
use crate::event::{KeyCode, KeyEvent, MouseEvent};
use crate::geometry::Rect;
use crate::log;
use crate::mouse;
use crate::remote_path;
use crate::text;
use vstd::prelude::*;

verus! {

/// Going to the next field, or format, and back ends where it started.
pub proof fn fields_cycle(f: CheckField, c: FormatChoice)
    ensures
        f.next().prev() == f && f.prev().next() == f,
        c.next().prev() == c && c.prev().next() == c,
{
}

/// A file is written only after the question was answered with Enter, and
/// what is fixed is the file that was checked.
pub proof fn nothing_is_fixed_without_the_question(s: ConfigCheckScreenModel, key: KeyEvent)
    requires
        s.requests.len() == 0,
    ensures
        ({
            let t = s.on_key(key).0;
            t.requests.len() > 0 && t.requests[0] is FixFile ==> {
                &&& s.log.alert is None
                &&& s.check_tab.confirm_fix
                &&& key.code == KeyCode::Enter
                &&& s.check_tab.result matches Some(r)
                &&& t.requests == seq![
                    RequestModel::FixFile { target: s.target_tab.target(), path: r.path, format: r.format },
                ]
                &&& !t.check_tab.confirm_fix
                &&& t.check_tab.fixing
            }
        }),
{
    reveal(ConfigCheckScreenModel::on_confirm_key);
    reveal(ConfigCheckScreenModel::on_results_key);
    reveal(ConfigCheckScreenModel::on_target_key);
    reveal(ConfigCheckScreenModel::on_check_key);
    reveal(ConfigCheckScreenModel::target_done);
    reveal(ConfigCheckScreenModel::check_done);
    reveal(ConfigCheckScreenModel::connect);
    reveal(ConfigCheckScreenModel::start_browse);
    reveal(ConfigCheckScreenModel::check);
    reveal(ConfigCheckScreenModel::fix);
    let t = s.on_key(key).0;
    if s.check_tab.confirm_fix && s.log.alert is None && key.code == KeyCode::Enter {
        match s.check_tab.result {
            Some(r) => {
                assert(t.requests =~= seq![
                    RequestModel::FixFile { target: s.target_tab.target(), path: r.path, format: r.format },
                ]);
            },
            None => {},
        }
    }
}

/// The mouse never writes to a file.
pub proof fn the_mouse_fixes_nothing(s: ConfigCheckScreenModel, me: MouseEvent, l: ConfigCheckLayoutModel)
    requires
        s.requests.len() == 0,
    ensures
        ({
            let t = s.on_mouse(me, l);
            t.requests.len() > 0 ==> !(t.requests[0] is FixFile)
        }),
{
    reveal(ConfigCheckScreenModel::on_target_mouse);
    reveal(ConfigCheckScreenModel::on_check_mouse);
    reveal(ConfigCheckScreenModel::target_done);
    reveal(ConfigCheckScreenModel::check_done);
    reveal(ConfigCheckScreenModel::connect);
    reveal(ConfigCheckScreenModel::start_browse);
    reveal(ConfigCheckScreenModel::check);
}

/// The question comes up only for a file that did not parse, and not while
/// a fix is under way.
pub proof fn only_broken_files_are_offered_a_fix(s: ConfigCheckScreenModel, key: KeyEvent)
    requires
        s.log.alert is None,
        !s.check_tab.confirm_fix,
        s.check_tab.show_results,
    ensures
        s.on_key(key).0.check_tab.confirm_fix ==> s.check_tab.result is Some && !s.check_tab.result->0.valid
            && !s.check_tab.fixing,
{
    reveal(ConfigCheckScreenModel::on_results_key);
}

/// The question is for the keyboard alone: no mouse event answers it.
pub proof fn the_question_takes_no_mouse(s: ConfigCheckScreenModel, me: MouseEvent, l: ConfigCheckLayoutModel)
    requires
        s.log.alert is None,
        s.check_tab.confirm_fix,
    ensures
        s.on_mouse(me, l) == s,
{
}

/// A listing, or the error of one, that comes in after the browser went to
/// another directory is dropped.
pub proof fn stale_listings_are_dropped(
    b: BrowserModel,
    cwd: Seq<char>,
    entries: Seq<EntryModel>,
    error: Seq<char>,
)
    requires
        cwd != b.cwd,
    ensures
        b.listed(cwd, entries) == b,
        b.failed(cwd, error) == b,
{
}

/// Without a browser a listing changes nothing but the history.
pub proof fn listings_without_a_browser_are_dropped(
    s: ConfigCheckScreenModel,
    cwd: Seq<char>,
    entries: Seq<EntryModel>,
)
    requires
        s.check_tab.browser is None,
    ensures
        s.absorb(MsgModel::Listed { cwd, entries }) == s,
{
}

/// Opening the entry that leads up goes to the directory above, a directory
/// is entered, and a file is picked by its whole path.
pub proof fn entries_lead_where_they_say(b: BrowserModel)
    requires
        0 <= b.selected < b.entries.len(),
    ensures
        ({
            let e = b.entries[b.selected];
            &&& e.name == ".."@ ==> b.entered() == BrowserActionModel::Navigate(remote_path::parent(b.cwd))
            &&& e.name != ".."@ && e.is_dir ==> b.entered() == BrowserActionModel::Navigate(
                remote_path::joined(b.cwd, e.name),
            )
            &&& e.name != ".."@ && !e.is_dir ==> b.entered() == BrowserActionModel::Picked(
                remote_path::joined(b.cwd, e.name),
            )
        }),
{
}

/// A click in the browser opens the entry that is drawn under it: the list
/// shows its entries from the first, or, with the selection further down, ends
/// with the selected one.
pub proof fn a_click_opens_the_entry_under_it(
    t: CheckTabModel,
    b: BrowserModel,
    me: MouseEvent,
    list: Rect,
    line: int,
)
    requires
        0 <= b.selected < b.entries.len() <= usize::MAX,
        0 <= line < list.height,
        mouse::clicked(me) matches Some((x, y)) && list.x < x && x + 1 < list.right() && y == list.y + line,
    ensures
        ({
            let first = if b.selected < list.height {
                0
            } else {
                b.selected - list.height + 1
            };
            &&& first + line < b.entries.len() ==> t.on_browser_mouse(b, me, list) == t.browser_entered(
                BrowserModel { selected: first + line, ..b },
            )
            &&& first + line >= b.entries.len() ==> t.on_browser_mouse(b, me, list) == (
                t.with_browser(Some(b)),
                CheckActionModel::Nothing,
            )
        }),
{
    reveal(CheckTabModel::on_browser_mouse);
    let (x, y) = mouse::clicked(me)->0;
    mouse::clicks_hit_the_list_row_shown(x, y, list, b.entries.len() as int, b.selected, line);
}

/// A path on a remote host is checked only where it is absolute, and as it
/// was typed: nothing is filled in.
pub proof fn remote_paths_are_checked_as_typed(s: ConfigCheckScreenModel)
    requires
        s.requests.len() == 0,
        s.target_tab.is_remote,
    ensures
        s.check().requests.len() > 0 ==> {
            let raw = text::trimmed(s.check_tab.path.text);
            &&& text::absolute(raw)
            &&& s.check_tab.format_choice.resolved(raw) matches Some(format)
            &&& s.check().requests == seq![
                RequestModel::CheckFile { target: s.target_tab.target(), path: raw, format },
            ]
        },
{
    reveal(ConfigCheckScreenModel::check);
    let raw = text::trimmed(s.check_tab.path.text);
    match s.check_tab.format_choice.resolved(raw) {
        Some(format) => {
            if s.check().requests.len() > 0 {
                assert(s.check().requests =~= seq![
                    RequestModel::CheckFile { target: s.target_tab.target(), path: raw, format },
                ]);
            }
        },
        None => {},
    }
}

/// A forced format wins over what the name says.
pub proof fn a_forced_format_wins(f: Format, path: Seq<char>)
    ensures
        FormatChoice::Forced(f).resolved(path) == Some(f),
        FormatChoice::Auto.resolved(path) == Format::of_path(path),
{
}

/// A check shows its result from the top, with no trace of an earlier fix; a
/// fix keeps the path and the format and says what is left.
pub proof fn results_tell_of_the_last_run(
    s: ConfigCheckScreenModel,
    path: Seq<char>,
    format: Format,
    error: Option<Seq<char>>,
    r: CheckResultModel,
    backup: Seq<char>,
    remaining: Option<Seq<char>>,
)
    ensures
        ({
            let t = s.checked(path, format, error).check_tab;
            &&& t.show_results && t.results_scroll == 0 && !t.checking
            &&& t.result matches Some(c)
            &&& c.path == path && c.format == format && (c.valid <==> error is None)
            &&& c.fix_backup is None && c.fix_message is None
        }),
        ({
            let c = config_check_screen::fixed(r, backup, remaining);
            c.path == r.path && c.format == r.format && (c.valid <==> remaining is None) && c.fix_backup == Some(backup)
        }),
{
    reveal(ConfigCheckScreenModel::checked);
}

/// A message box takes every key and every mouse event until it is dismissed.
pub proof fn messages_take_all_input(
    s: ConfigCheckScreenModel,
    key: KeyEvent,
    me: MouseEvent,
    l: ConfigCheckLayoutModel,
)
    requires
        s.log.alert is Some,
    ensures
        s.on_key(key) == (if log::closes_alert(key.code) {
            s.with_log(s.log.dismissed())
        } else {
            s
        }, false),
        s.on_mouse(me, l) == if mouse::clicked(me) is Some {
            s.with_log(s.log.dismissed())
        } else {
            s
        },
{
}

/// A key that leaves the screen changes nothing on it, and nothing that is
/// open over the form is left by it.
pub proof fn leaving_changes_nothing(s: ConfigCheckScreenModel, key: KeyEvent)
    ensures
        s.on_key(key).1 ==> s.on_key(key).0 == s && key.code == KeyCode::Esc && !s.target_tab.picking()
            && s.check_tab.browser is None && !s.check_tab.show_results && !s.check_tab.confirm_fix,
{
}

} // verus!
