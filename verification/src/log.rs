//! The history panel and the message box that screens share.
use vstd::prelude::*;

use crate::event::{KeyCode, KeyEvent};
use crate::geometry;
use crate::model::append_to;
use crate::text;

verus! {

/// What a screen tells: lines that stay, each good or bad, and a message box.
pub struct Log {
    pub history: Vec<(bool, String)>,
    /// Lines scrolled up from the newest entry.
    pub scroll: u16,
    /// Title and text of the message that waits to be dismissed.
    pub alert: Option<(String, String)>,
}

pub struct LogModel {
    pub history: Seq<(bool, Seq<char>)>,
    pub scroll: u16,
    pub alert: Option<(Seq<char>, Seq<char>)>,
}

impl View for Log {
    type V = LogModel;

    open spec fn view(&self) -> LogModel {
        LogModel {
            history: self.history.deep_view(),
            scroll: self.scroll,
            alert: self.alert.deep_view(),
        }
    }
}

impl DeepView for Log {
    type V = LogModel;

    open spec fn deep_view(&self) -> LogModel {
        self@
    }
}

impl LogModel {
    pub open spec fn empty() -> LogModel {
        LogModel { history: Seq::empty(), scroll: 0, alert: None }
    }

    /// A line more in the history.
    pub open spec fn note(self, ok: bool, line: Seq<char>) -> LogModel {
        LogModel { history: self.history.push((ok, line)), ..self }
    }

    /// An error: a line in the history and a message box.
    pub open spec fn error(self, msg: Seq<char>) -> LogModel {
        LogModel { history: self.history.push((false, msg)), alert: Some(("Error"@, msg)), ..self }
    }

    /// An error that is shown in a message box alone.
    pub open spec fn warned(self, msg: Seq<char>) -> LogModel {
        LogModel { alert: Some(("Error"@, msg)), ..self }
    }

    /// A message under a title of its own.
    pub open spec fn shown(self, title: Seq<char>, msg: Seq<char>) -> LogModel {
        LogModel { alert: Some((title, msg)), ..self }
    }

    /// Several lines more in the history.
    pub open spec fn noted(self, lines: Seq<(bool, Seq<char>)>) -> LogModel {
        LogModel { history: self.history + lines, ..self }
    }

    pub open spec fn dismissed(self) -> LogModel {
        LogModel { alert: None, ..self }
    }

    /// Three lines towards older entries, or back.
    pub open spec fn scrolled(self, up: bool) -> LogModel {
        LogModel {
            scroll: if up {
                geometry::min_int(self.scroll + 3, u16::MAX as int) as u16
            } else {
                geometry::less(self.scroll as int, 3) as u16
            },
            ..self
        }
    }

    /// The history as it is copied: its lines, oldest first.
    pub open spec fn text(self) -> Seq<char> {
        text::joined(self.history.map_values(|l: (bool, Seq<char>)| l.1), "\n"@)
    }

    /// The line that tells whether the history could be copied.
    pub open spec fn copied(self, ok: bool) -> LogModel {
        self.note(
            ok,
            if ok {
                "History copied to clipboard"@
            } else {
                "Couldn't access the clipboard"@
            },
        )
    }
}

impl Log {
    pub fn new() -> (r: Log)
        ensures
            r@ == LogModel::empty(),
    {
        let r = Log { history: Vec::new(), scroll: 0, alert: None };
        assert(r@.history =~= LogModel::empty().history);
        r
    }

    pub fn note(&mut self, ok: bool, line: String)
        ensures
            final(self)@ == old(self)@.note(ok, line@),
    {
        append_to(&mut self.history, (ok, line));
    }

    /// A line that is known beforehand.
    pub fn say(&mut self, ok: bool, line: &str)
        ensures
            final(self)@ == old(self)@.note(ok, line@),
    {
        self.note(ok, text::owned(line));
    }

    /// Shows an error both as a message box and as a line of the history.
    pub fn error(&mut self, msg: &str)
        ensures
            final(self)@ == old(self)@.error(msg@),
    {
        self.note(false, text::owned(msg));
        self.alert = Some((text::owned("Error"), text::owned(msg)));
    }

    /// Shows an error as a message box alone.
    pub fn warn(&mut self, msg: &str)
        ensures
            final(self)@ == old(self)@.warned(msg@),
    {
        self.alert = Some((text::owned("Error"), text::owned(msg)));
    }

    /// Shows a message under a title of its own.
    pub fn show(&mut self, title: &str, msg: &str)
        ensures
            final(self)@ == old(self)@.shown(title@, msg@),
    {
        self.alert = Some((text::owned(title), text::owned(msg)));
    }

    pub fn note_all(&mut self, lines: Vec<(bool, String)>)
        ensures
            final(self)@ == old(self)@.noted(lines.deep_view()),
    {
        let ghost before = self@;
        let ghost all = lines.deep_view();
        let mut lines = lines;
        assert(lines.deep_view() =~= all.skip(0));
        assert(self@.history =~= before.history + all.take(0));
        let ghost mut i: int = 0;
        while lines.len() > 0
            invariant
                0 <= i <= all.len(),
                lines.deep_view() =~= all.skip(i),
                self@.history =~= before.history + all.take(i),
                self@.scroll == before.scroll,
                self@.alert == before.alert,
            decreases lines@.len(),
        {
            let ghost rest = lines.deep_view();
            let (ok, line) = lines.remove(0);
            proof {
                assert(rest[0] == (ok, line@));
                assert(rest.len() == all.len() - i);
                assert(all[i] == all.skip(i)[0]);
                assert(lines.deep_view() =~= rest.skip(1));
                assert(all.skip(i).skip(1) =~= all.skip(i + 1));
                assert(all.take(i + 1) =~= all.take(i).push(all[i]));
                i = i + 1;
            }
            self.note(ok, line);
        }
        assert(all.take(i) =~= all);
    }

    /// The history as it is copied: its lines, oldest first.
    pub fn text(&self) -> (r: String)
        ensures
            r@ == self@.text(),
    {
        let ghost all = self@.history.map_values(|l: (bool, Seq<char>)| l.1);
        let mut lines: Vec<String> = Vec::new();
        let mut i: usize = 0;
        assert(lines.deep_view() =~= all.take(0));
        while i < self.history.len()
            invariant
                i <= self.history@.len(),
                all == self@.history.map_values(|l: (bool, Seq<char>)| l.1),
                lines.deep_view() == all.take(i as int),
            decreases self.history@.len() - i,
        {
            assert(self@.history[i as int] == self.history@[i as int].deep_view());
            append_to(&mut lines, self.history[i].1.clone());
            i = i + 1;
            assert(all.take(i as int) =~= all.take(i - 1).push(all[i - 1]));
        }
        assert(all.take(all.len() as int) =~= all);
        text::join(&lines, "\n")
    }

    pub fn dismiss(&mut self)
        ensures
            final(self)@ == old(self)@.dismissed(),
    {
        self.alert = None;
    }

    pub fn scroll_by(&mut self, up: bool)
        ensures
            final(self)@ == old(self)@.scrolled(up),
    {
        self.scroll = if up {
            self.scroll.saturating_add(3)
        } else {
            self.scroll.saturating_sub(3)
        };
    }

    pub fn copied(&mut self, ok: bool)
        ensures
            final(self)@ == old(self)@.copied(ok),
    {
        if ok {
            self.say(true, "History copied to clipboard");
        } else {
            self.say(false, "Couldn't access the clipboard");
        }
    }
}

/// Whether a key closes a message box.
pub open spec fn closes_alert(key: KeyCode) -> bool {
    key == KeyCode::Enter || key == KeyCode::Esc || key == KeyCode::Char('q')
}

pub fn is_closing(key: KeyCode) -> (r: bool)
    ensures
        r == closes_alert(key),
{
    match key {
        KeyCode::Enter | KeyCode::Esc => true,
        KeyCode::Char(c) => c == 'q',
        _ => false,
    }
}

/// Whether a key scrolls the history: Control with Up or Down.
pub open spec fn scrolls_history(key: KeyEvent) -> bool {
    key.control && (key.code == KeyCode::Up || key.code == KeyCode::Down)
}

pub fn is_history_scroll(key: &KeyEvent) -> (r: bool)
    ensures
        r == scrolls_history(*key),
{
    key.control && (key.code == KeyCode::Up || key.code == KeyCode::Down)
}

// -------------------------------------------------------------------- laws

/// An error is both shown at once and kept: it is the message box and the
/// newest line of the history, and dismissing the box leaves the line.
pub proof fn errors_are_shown_and_kept(l: LogModel, msg: Seq<char>)
    ensures
        l.error(msg).alert == Some(("Error"@, msg)),
        l.error(msg).history.last() == (false, msg),
        l.error(msg).dismissed().history == l.history.push((false, msg)),
        l.error(msg).dismissed().alert is None,
{
}

/// Nothing that is told ever takes a line out of the history.
pub proof fn history_only_grows(l: LogModel, ok: bool, line: Seq<char>)
    ensures
        l.history.is_prefix_of(l.note(ok, line).history),
        l.history.is_prefix_of(l.error(line).history),
        l.history.is_prefix_of(l.copied(ok).history),
        l.warned(line).history == l.history,
        l.dismissed().history == l.history,
        l.scrolled(ok).history == l.history,
{
}

} // verus!
