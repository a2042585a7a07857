//! What the operations of the config checker are for.
use crate::config_check_screen;
use crate::config_check_screen::{
    BrowserModel, CheckField, CheckResultModel, CheckTabModel, ConfigCheckScreenModel, EntryModel, Format,
    FormatChoice, MsgModel, RequestModel, Tab,
};
use crate::event::{KeyCode, KeyEvent};
use crate::remote_path;
use crate::target::{TargetField, TargetModel, TargetTabModel};
use crate::target_laws;
use crate::text;
use crate::widgets::InputModel;
use vstd::prelude::*;

verus! {

/// Whether a target is the one that the form names: this machine, or the host
/// with the port, user and key that were typed and the password as typed.
pub open spec fn is_target_of(t: TargetModel, f: TargetTabModel) -> bool {
    match t {
        TargetModel::Local => !f.is_remote,
        TargetModel::Remote { host, port, user, key_path, password } => {
            &&& f.is_remote
            &&& host == text::trimmed(f.ssh_host.text)
            &&& port == text::trimmed(f.ssh_port.text)
            &&& user == text::trimmed(f.ssh_user.text)
            &&& key_path == text::trimmed(f.ssh_key_path.text)
            &&& password == f.ssh_password.text
        },
    }
}

/// Whether nothing stands over the tabs.
pub open spec fn at_ease(s: ConfigCheckScreenModel, tab: Tab) -> bool {
    &&& s.log.alert is None
    &&& !s.check_tab.confirm_fix
    &&& !s.check_tab.show_results
    &&& !s.target_tab.picking()
    &&& s.check_tab.browser is None
    &&& s.tab == tab
}

/// Whether a remote host is chosen but not named.
pub open spec fn host_missing(s: ConfigCheckScreenModel) -> bool {
    s.target_tab.is_remote && text::trimmed(s.target_tab.ssh_host.text).len() == 0
}

/// Connect contacts the target of the form, or tells that the host is missing.
pub proof fn connecting_contacts_the_target(s: ConfigCheckScreenModel, key: KeyEvent)
    requires
        at_ease(s, Tab::Target),
        s.target_tab.field == TargetField::BtnConnect,
        key.code == KeyCode::Enter,
    ensures
        ({
            let t = s.on_key(key).0;
            &&& host_missing(s) ==> t == (ConfigCheckScreenModel { log: t.log, ..s }) && t.log.alert is Some
            &&& !host_missing(s) ==> {
                &&& t.requests.len() == s.requests.len() + 1
                &&& t.requests.last() matches RequestModel::Connect(target)
                &&& is_target_of(target, s.target_tab)
                &&& t == (ConfigCheckScreenModel {
                    target_tab: TargetTabModel { connecting: true, ..s.target_tab },
                    requests: s.requests.push(t.requests.last()),
                    ..s
                })
            }
        }),
{
    reveal(ConfigCheckScreenModel::on_target_key);
    reveal(ConfigCheckScreenModel::target_done);
    reveal(ConfigCheckScreenModel::connect);
    target_laws::the_target_is_what_the_form_says(s.target_tab);
}

/// The format that a file is checked as: the one that was forced, else the
/// one that its name ends in.
pub open spec fn checked_as(s: ConfigCheckScreenModel, path: Seq<char>) -> Option<Format> {
    match s.check_tab.format_choice {
        FormatChoice::Forced(f) => Some(f),
        FormatChoice::Auto => Format::of_path(path),
    }
}

/// Whether the file that was typed can be checked.
pub open spec fn can_check(s: ConfigCheckScreenModel) -> bool {
    let path = text::trimmed(s.check_tab.path.text);
    &&& path.len() > 0
    &&& s.target_tab.is_remote ==> path[0] == '/'
    &&& checked_as(s, path) is Some
}

/// Whether a screen asked for a check of the file that was typed, on the
/// target of the form, and for nothing else.
pub open spec fn asked_for_a_check(s: ConfigCheckScreenModel, t: ConfigCheckScreenModel) -> bool {
    &&& t.requests.len() == s.requests.len() + 1
    &&& t.requests == s.requests.push(t.requests.last())
    &&& t.requests.last() matches RequestModel::CheckFile { target, path, format }
    &&& is_target_of(target, s.target_tab)
    &&& path == text::trimmed(s.check_tab.path.text)
    &&& Some(format) == checked_as(s, path)
}

/// Check Syntax checks the file that was typed on the target of the form, as
/// the format that was forced or that its name tells. What is missing is told
/// and nothing is checked.
pub proof fn checking_checks_the_file_typed(s: ConfigCheckScreenModel, key: KeyEvent)
    requires
        at_ease(s, Tab::Check),
        s.check_tab.field == CheckField::BtnCheck,
        key.code == KeyCode::Enter,
    ensures
        ({
            let t = s.on_key(key).0;
            &&& can_check(s) ==> asked_for_a_check(s, t) && t == (ConfigCheckScreenModel {
                check_tab: CheckTabModel { checking: true, ..s.check_tab },
                requests: t.requests,
                ..s
            })
            &&& !can_check(s) ==> t == (ConfigCheckScreenModel { log: t.log, ..s }) && t.log.alert is Some
        }),
{
    reveal(ConfigCheckScreenModel::on_check_key);
    reveal(ConfigCheckScreenModel::check_done);
    reveal(ConfigCheckScreenModel::check);
    reveal(CheckTabModel::on_form_key);
    target_laws::the_target_is_what_the_form_says(s.target_tab);
}

/// Confirming the question fixes the file that was checked, as it was checked,
/// on the target of the form. Esc fixes nothing.
pub proof fn a_confirmed_fix_fixes_the_file_checked(s: ConfigCheckScreenModel, r: CheckResultModel, key: KeyEvent)
    requires
        s.log.alert is None,
        s.check_tab.confirm_fix,
        s.check_tab.result == Some(r),
    ensures
        ({
            let t = s.on_key(key).0;
            &&& key.code == KeyCode::Enter ==> {
                &&& t.requests.len() == s.requests.len() + 1
                &&& t.requests.last() matches RequestModel::FixFile { target, path, format }
                &&& is_target_of(target, s.target_tab)
                &&& path == r.path
                &&& format == r.format
                &&& t == (ConfigCheckScreenModel {
                    check_tab: CheckTabModel { confirm_fix: false, fixing: true, ..s.check_tab },
                    requests: s.requests.push(t.requests.last()),
                    ..s
                })
            }
            &&& key.code == KeyCode::Esc ==> t == (ConfigCheckScreenModel {
                check_tab: CheckTabModel { confirm_fix: false, ..s.check_tab },
                ..s
            })
            &&& key.code != KeyCode::Enter && key.code != KeyCode::Esc ==> t == s
        }),
{
    reveal(ConfigCheckScreenModel::on_confirm_key);
    reveal(ConfigCheckScreenModel::fix);
    target_laws::the_target_is_what_the_form_says(s.target_tab);
}

/// `f` raises the question where the file is broken and no fix is under way.
pub proof fn the_question_is_raised_for_broken_files(s: ConfigCheckScreenModel, r: CheckResultModel, key: KeyEvent)
    requires
        s.log.alert is None,
        !s.check_tab.confirm_fix,
        s.check_tab.show_results,
        s.check_tab.result == Some(r),
        key == (KeyEvent { code: KeyCode::Char('f'), control: false }) || key == (KeyEvent {
            code: KeyCode::Char('F'),
            control: false,
        }),
    ensures
        s.on_key(key).0 == (ConfigCheckScreenModel {
            check_tab: CheckTabModel { confirm_fix: !r.valid && !s.check_tab.fixing, ..s.check_tab },
            ..s
        }),
{
    reveal(ConfigCheckScreenModel::on_results_key);
}

/// The results are copied: that the file is valid, or what is wrong with it.
/// Esc closes them.
pub proof fn results_are_copied_or_closed(s: ConfigCheckScreenModel, r: CheckResultModel, key: KeyEvent)
    requires
        s.log.alert is None,
        !s.check_tab.confirm_fix,
        s.check_tab.show_results,
        s.check_tab.result == Some(r),
    ensures
        key == (KeyEvent { code: KeyCode::Char('y'), control: true }) ==> {
            let t = s.on_key(key).0;
            &&& t.requests.len() == s.requests.len() + 1
            &&& t == (ConfigCheckScreenModel { requests: s.requests.push(t.requests.last()), ..s })
            &&& t.requests.last() matches RequestModel::CopyResult(told)
            &&& !r.valid ==> told == r.error_text
            &&& r.valid ==> r.path.is_prefix_of(told) && text::ends_in(told, r.format.name())
        },
        key.code == KeyCode::Esc ==> s.on_key(key).0 == (ConfigCheckScreenModel {
            check_tab: CheckTabModel { show_results: false, ..s.check_tab },
            ..s
        }),
{
    reveal(ConfigCheckScreenModel::on_results_key);
    if r.valid {
        let told = r.path + ": valid "@ + r.format.name();
        assert(told.take(r.path.len() as int) =~= r.path);
        assert(told.skip(told.len() - r.format.name().len()) =~= r.format.name());
    }
}

/// The results scroll by one line, up and down.
pub proof fn results_scroll_by_lines(t: CheckTabModel)
    ensures
        t.results_scroll < u16::MAX ==> t.results_scrolled(true).results_scroll == t.results_scroll + 1,
        t.results_scroll > 0 ==> t.results_scrolled(false).results_scroll == t.results_scroll - 1,
        t.results_scroll == 0 ==> t.results_scrolled(false) == t,
        t.results_scroll < u16::MAX ==> t.results_scrolled(true).results_scrolled(false) == t,
{
}

/// The format is told by the end of the name, in either case of letters.
pub proof fn formats_are_told_by_the_name(path: Seq<char>)
    ensures
        ({
            let p = text::lowercase(path);
            &&& Format::of_path(path) == Some(Format::Json) <==> text::ends_in(p, ".json"@)
            &&& text::ends_in(p, ".toml"@) && Format::of_path(path) != Some(Format::Json) ==> Format::of_path(path)
                == Some(Format::Toml)
            &&& Format::of_path(path) == Some(Format::Toml) ==> text::ends_in(p, ".toml"@)
            &&& Format::of_path(path) == Some(Format::Yaml) ==> text::ends_in(p, ".yaml"@) || text::ends_in(p, ".yml"@)
            &&& Format::of_path(path) == Some(Format::Xml) ==> text::ends_in(p, ".xml"@)
            &&& Format::of_path(path) is None <==> !text::ends_in(p, ".json"@) && !text::ends_in(p, ".toml"@)
                && !text::ends_in(p, ".yaml"@) && !text::ends_in(p, ".yml"@) && !text::ends_in(p, ".xml"@)
        }),
{
}

/// The field of the format goes on to the next choice and back to the one
/// before, and changes nothing else.
pub proof fn the_format_is_chosen_in_its_field(s: ConfigCheckScreenModel, key: KeyEvent)
    requires
        at_ease(s, Tab::Check),
        s.check_tab.field == CheckField::Format,
        key.code == KeyCode::Left || key.code == KeyCode::Right || key.code == KeyCode::Enter,
    ensures
        s.on_key(key).0 == (ConfigCheckScreenModel {
            check_tab: CheckTabModel {
                format_choice: if key.code == KeyCode::Left {
                    s.check_tab.format_choice.prev()
                } else {
                    s.check_tab.format_choice.next()
                },
                ..s.check_tab
            },
            ..s
        }),
{
    reveal(ConfigCheckScreenModel::on_check_key);
    reveal(ConfigCheckScreenModel::check_done);
    reveal(CheckTabModel::on_form_key);
}

/// What is typed goes into the path, where it has the focus.
pub proof fn typing_changes_the_path(s: ConfigCheckScreenModel, c: char)
    requires
        at_ease(s, Tab::Check),
    ensures
        ({
            let t = s.on_key(KeyEvent { code: KeyCode::Char(c), control: false }).0;
            let old = s.check_tab;
            t == (ConfigCheckScreenModel {
                check_tab: CheckTabModel {
                    path: if old.field == CheckField::Path {
                        InputModel { text: old.path.text.insert(old.path.cursor, c), cursor: old.path.cursor + 1 }
                    } else {
                        old.path
                    },
                    ..old
                },
                ..s
            })
        }),
{
    reveal(ConfigCheckScreenModel::on_check_key);
    reveal(ConfigCheckScreenModel::check_done);
    reveal(CheckTabModel::on_form_key);
}

// ----------------------------------------------------------------- browsing

/// Browse on a remote host lists the directory to start in there; on this
/// machine it first has the path that was typed resolved.
pub proof fn browsing_starts_from_the_path(s: ConfigCheckScreenModel, key: KeyEvent)
    requires
        at_ease(s, Tab::Check),
        s.check_tab.field == CheckField::BtnBrowse || s.check_tab.field == CheckField::Path,
        key.code == KeyCode::Enter,
    ensures
        ({
            let t = s.on_key(key).0;
            &&& host_missing(s) ==> t == (ConfigCheckScreenModel { log: t.log, ..s }) && t.log.alert is Some
            &&& !s.target_tab.is_remote ==> t == (ConfigCheckScreenModel {
                requests: s.requests.push(RequestModel::ResolvePath(text::trimmed(s.check_tab.path.text))),
                ..s
            })
            &&& s.target_tab.is_remote && !host_missing(s) && t.log == s.log ==> {
                &&& t.requests.len() == s.requests.len() + 1
                &&& t.requests == s.requests.push(t.requests.last())
                &&& t.requests.last() matches RequestModel::ListDir { target, path }
                &&& is_target_of(target, s.target_tab)
                &&& path.len() > 0 && path[0] == '/'
                &&& t.check_tab.browser matches Some(b)
                &&& b.cwd == path && b.loading
            }
            &&& t.log != s.log ==> t == (ConfigCheckScreenModel { log: t.log, ..s }) && t.log.alert is Some
        }),
{
    reveal(ConfigCheckScreenModel::on_check_key);
    reveal(ConfigCheckScreenModel::check_done);
    reveal(ConfigCheckScreenModel::start_browse);
    reveal(CheckTabModel::on_form_key);
    target_laws::the_target_is_what_the_form_says(s.target_tab);
}

/// Enter on a directory lists it on the target; on a file it takes its path
/// and checks it.
pub proof fn entries_are_listed_or_checked(s: ConfigCheckScreenModel, b: BrowserModel, key: KeyEvent)
    requires
        s.log.alert is None,
        !s.check_tab.confirm_fix,
        !s.check_tab.show_results,
        s.tab == Tab::Check,
        s.check_tab.browser == Some(b),
        0 <= b.selected < b.entries.len(),
        b.entries[b.selected].name != ".."@,
        key.code == KeyCode::Enter,
    ensures
        ({
            let t = s.on_key(key).0;
            let e = b.entries[b.selected];
            let path = remote_path::joined(b.cwd, e.name);
            &&& e.is_dir ==> {
                &&& t.requests.len() == s.requests.len() + 1
                &&& t.requests == s.requests.push(t.requests.last())
                &&& t.requests.last() matches RequestModel::ListDir { target, path: listed }
                &&& is_target_of(target, s.target_tab)
                &&& listed == path
                &&& t.check_tab.browser matches Some(c)
                &&& c.cwd == path && c.loading
            }
            &&& !e.is_dir ==> {
                let picked = ConfigCheckScreenModel {
                    check_tab: CheckTabModel {
                        path: InputModel { text: path, cursor: path.len() as int },
                        browser: None,
                        ..s.check_tab
                    },
                    ..s
                };
                &&& t.check_tab.path.text == path
                &&& t.check_tab.browser is None
                &&& can_check(picked) ==> asked_for_a_check(picked, t)
            }
        }),
{
    reveal(ConfigCheckScreenModel::on_check_key);
    reveal(ConfigCheckScreenModel::check_done);
    reveal(ConfigCheckScreenModel::check);
    reveal(CheckTabModel::on_browser_key);
    reveal(CheckTabModel::browser_entered);
    target_laws::the_target_is_what_the_form_says(s.target_tab);
}

/// The entry ".." lists the directory above; Esc closes the browser.
pub proof fn the_browser_goes_up_and_closes(s: ConfigCheckScreenModel, b: BrowserModel, key: KeyEvent)
    requires
        s.log.alert is None,
        !s.check_tab.confirm_fix,
        !s.check_tab.show_results,
        s.tab == Tab::Check,
        s.check_tab.browser == Some(b),
    ensures
        key.code == KeyCode::Enter && 0 <= b.selected < b.entries.len() && b.entries[b.selected].name == ".."@ ==> {
            let t = s.on_key(key).0;
            &&& t.requests == s.requests.push(
                RequestModel::ListDir { target: s.target_tab.target(), path: remote_path::parent(b.cwd) },
            )
            &&& t.check_tab.browser matches Some(c)
            &&& c.cwd == remote_path::parent(b.cwd)
        },
        key.code == KeyCode::Esc ==> s.on_key(key) == (ConfigCheckScreenModel {
            check_tab: CheckTabModel { browser: None, ..s.check_tab },
            ..s
        }, false),
{
    reveal(ConfigCheckScreenModel::on_check_key);
    reveal(ConfigCheckScreenModel::check_done);
    reveal(CheckTabModel::on_browser_key);
    reveal(CheckTabModel::browser_entered);
}

/// The listing that was waited for fills the browser: every entry that was
/// listed, directories first, below the way up where there is one.
pub proof fn listings_fill_the_browser(b: BrowserModel, listed: Seq<EntryModel>, i: int, j: int)
    ensures
        ({
            let c = b.listed(b.cwd, listed);
            let up = if b.cwd == "/"@ {
                0
            } else {
                1int
            };
            &&& c.cwd == b.cwd && !c.loading && c.error is None && c.selected == 0
            &&& c.entries.len() == listed.len() + up
            &&& up == 1 ==> c.entries[0] == (EntryModel { name: ".."@, is_dir: true })
            &&& c.entries.skip(up).to_multiset() == listed.to_multiset()
            &&& up <= i < j < c.entries.len() && c.entries[j].is_dir ==> c.entries[i].is_dir
        }),
{
    let rows = crate::sort::sorted(listed, config_check_screen::entry_order());
    let c = b.listed(b.cwd, listed);
    let up = if b.cwd == "/"@ {
        0
    } else {
        1int
    };
    crate::sort::sorting_permutes(listed, config_check_screen::entry_order());
    rows.to_multiset_ensures();
    listed.to_multiset_ensures();
    assert(c.entries.skip(up) =~= rows);
    lemma_entry_order();
    crate::sort::sorting_sorts(listed, config_check_screen::entry_order());
    if up <= i < j < c.entries.len() {
        assert(c.entries[i] == rows[i - up] && c.entries[j] == rows[j - up]);
    }
}

proof fn lemma_entry_order()
    ensures
        crate::sort::is_order(config_check_screen::entry_order()),
{
    let le = config_check_screen::entry_order();
    assert forall|a: EntryModel, b: EntryModel| #[trigger] le(a, b) || le(b, a) by {
        crate::sort::text_order_is_total(text::lowercase(a.name), text::lowercase(b.name));
    }
    assert forall|a: EntryModel, b: EntryModel, c: EntryModel| #[trigger] le(a, b) && #[trigger] le(b, c) implies le(a, c) by {
        if a.is_dir == b.is_dir && b.is_dir == c.is_dir {
            crate::sort::text_order_is_transitive(
                text::lowercase(a.name),
                text::lowercase(b.name),
                text::lowercase(c.name),
            );
        }
    }
}

/// Browsing starts in the directory of a file whose name tells its format, in
/// the directory that was typed, or where nothing was typed with the settings
/// of a remote host and at home on this machine.
pub proof fn browsing_starts_at_the_path(
    path: Seq<char>,
    is_remote: bool,
    home: Option<Seq<char>>,
    expanded: Seq<char>,
)
    ensures
        ({
            let start = config_check_screen::start_of(path, is_remote, home, expanded);
            let typed = text::trimmed(path);
            let meant = if is_remote {
                typed
            } else {
                expanded
            };
            &&& typed.len() == 0 && is_remote ==> start == "/etc"@
            &&& typed.len() == 0 && !is_remote ==> start == match home {
                Some(h) => h,
                None => "/"@,
            }
            &&& typed.len() > 0 && Format::of_path(meant) is Some ==> start == remote_path::parent(meant)
            &&& typed.len() > 0 && Format::of_path(meant) is None ==> start == meant
        }),
{
}

// ----------------------------------------------------------------- messages

/// The result of a check is shown: the path and format that were checked, and
/// the error where there is one.
pub proof fn the_result_of_a_check_is_shown(
    s: ConfigCheckScreenModel,
    path: Seq<char>,
    format: Format,
    error: Option<Seq<char>>,
)
    ensures
        ({
            let t = s.on_msg(MsgModel::Checked { path, format, error });
            &&& t.check_tab.result matches Some(r)
            &&& r.path == path
            &&& r.format == format
            &&& r.valid <==> error is None
            &&& error matches Some(e) ==> r.error_text == e
            &&& t.check_tab.show_results && !t.check_tab.checking
            &&& t.log.history.len() == s.log.history.len() + 1
            &&& t.log.history.last().0 <==> error is None
            &&& t == (ConfigCheckScreenModel { check_tab: t.check_tab, log: t.log, ..s })
        }),
{
    reveal(ConfigCheckScreenModel::checked);
}

/// What is left after a fix is shown in place of what was wrong.
pub proof fn the_result_of_a_fix_is_shown(
    s: ConfigCheckScreenModel,
    r: CheckResultModel,
    backup: Seq<char>,
    remaining: Option<Seq<char>>,
    error: Seq<char>,
)
    requires
        s.check_tab.result == Some(r),
    ensures
        ({
            let t = s.on_msg(MsgModel::Fixed { backup, remaining });
            &&& t.check_tab.result matches Some(c)
            &&& c.path == r.path && c.format == r.format
            &&& c.valid <==> remaining is None
            &&& remaining matches Some(e) ==> c.error_text == e
            &&& c.fix_backup == Some(backup)
            &&& !t.check_tab.fixing
            &&& t.log.history.last().0 <==> remaining is None
        }),
        ({
            let t = s.on_msg(MsgModel::FixFailed(error));
            &&& t.check_tab == (CheckTabModel { fixing: false, ..s.check_tab })
            &&& t.log.alert matches Some((title, told))
            &&& told == error
        }),
{
    reveal(ConfigCheckScreenModel::fix_done);
}

/// A connection is shown by its label; a failed one, and a turned mode, leave
/// none.
pub proof fn a_connection_is_shown_by_its_label(s: ConfigCheckScreenModel, label: Seq<char>, error: Seq<char>)
    ensures
        ({
            let t = s.on_msg(MsgModel::Connected(label));
            t.connected_label == Some(label) && !t.target_tab.connecting && t.check_tab == s.check_tab
        }),
        ({
            let t = s.on_msg(MsgModel::ConnectFailed(error));
            &&& t.connected_label is None && !t.target_tab.connecting && t.check_tab == s.check_tab
            &&& !t.log.history.last().0
        }),
{
}

/// What went wrong is told as a failure, and all else as a success.
pub proof fn failures_are_told_as_failures(m: MsgModel)
    ensures
        m.line() matches Some((ok, line)) ==> (ok <==> match m {
            MsgModel::ConnectFailed(_) | MsgModel::ReadFailed { .. } | MsgModel::FixFailed(_) => false,
            MsgModel::Checked { path, format, error } => error is None,
            MsgModel::Fixed { backup, remaining } => remaining is None,
            MsgModel::ResultCopied(copied) => copied,
            _ => true,
        }),
{
}

/// The function keys open their tabs.
pub proof fn function_keys_open_their_tabs(s: ConfigCheckScreenModel, key: KeyEvent)
    requires
        at_ease(s, s.tab),
    ensures
        key.code == KeyCode::F(1) ==> s.on_key(key) == (ConfigCheckScreenModel { tab: Tab::Target, ..s }, false),
        key.code == KeyCode::F(2) ==> s.on_key(key) == (ConfigCheckScreenModel { tab: Tab::Check, ..s }, false),
{
}

/// A directory that could not be listed is shown as such in the browser that
/// asked for it, and in no other.
pub proof fn unlisted_directories_are_told(b: BrowserModel, cwd: Seq<char>, error: Seq<char>)
    ensures
        cwd == b.cwd ==> {
            let c = b.failed(cwd, error);
            &&& !c.loading
            &&& c.error == Some(error)
            &&& c.entries.len() == 0
            &&& c.cwd == b.cwd
        },
        cwd != b.cwd ==> b.failed(cwd, error) == b,
{
}

} // verus!
