//! What the config checker shows.
use vstd::prelude::*;

use crate::config_check_screen::{
    Browser, BrowserModel, CheckField, CheckResult, CheckResultModel, CheckTab, CheckTabModel, ConfigCheckLayout,
    ConfigCheckLayoutModel, ConfigCheckScreen, ConfigCheckScreenModel, Entry, EntryModel, Tab,
};
use crate::geometry::{centered_rect, min_u16, modal_area, split_rows, Constraint, Rect};
use crate::geometry;
use crate::model::append_to;
use crate::mouse;
use crate::mouse::block_inner;
use crate::picture;
use crate::picture::{
    chain, no_lines, plain_rows, room_least, room_of, with_line, Frame, Line, LineModel, Picture, PictureModel,
    Span, SpanModel, Tone, Wrap,
};
use crate::text;
use crate::text::{cat2, cat3, split_lines};
use crate::wrap;
use crate::wrap::wrapped_line_count;

verus! {

impl EntryModel {
    pub open spec fn listed(self) -> LineModel {
        if self.is_dir {
            LineModel::of(SpanModel::text((self.name + "/"@), Tone::AccentStrong))
        } else {
            LineModel::of(SpanModel::text(self.name, Tone::Plain))
        }
    }
}

impl Entry {
    pub fn listed(&self) -> (r: Line)
        ensures
            r@ == self@.listed(),
    {
        if self.is_dir {
            Line::of(Span::text(cat2(self.name.as_str(), "/").as_str(), Tone::AccentStrong))
        } else {
            Line::of(Span::text(self.name.as_str(), Tone::Plain))
        }
    }
}

pub open spec fn entry_lines(v: Seq<EntryModel>) -> Seq<LineModel>
    decreases v.len(),
{
    if v.len() == 0 {
        Seq::empty()
    } else {
        let e = v.last();
        entry_lines(v.drop_last()).push(
            e.listed()
        )
    }
}

pub fn entry_rows(v: &Vec<Entry>) -> (r: Vec<Line>)
    ensures
        r.deep_view() == entry_lines(v.deep_view()),
{
    let ghost all = v.deep_view();
    let mut r: Vec<Line> = no_lines();
    let mut i: usize = 0;
    assert(all.take(0) =~= Seq::empty());
    while i < v.len()
        invariant
            all == v.deep_view(),
            i <= v@.len(),
            r.deep_view() == entry_lines(all.take(i as int)),
        decreases v@.len() - i,
    {
        let e = &v[i];
        assert(all.take(i + 1).drop_last() =~= all.take(i as int));
        append_to(
            &mut r,
            e.listed()
        );
        i = i + 1;
    }
    assert(all.take(all.len() as int) =~= all);
    r
}

impl BrowserModel {
    pub open spec fn drawn_on(self, p: PictureModel, area: Rect, rows: Seq<Rect>) -> PictureModel {
        let p = p.modal(area, (" Select Config File — "@ + self.cwd + " "@), Frame::Modal);
        let p = if self.loading {
            p.note(rows[0], "Loading…"@, Tone::Warn)
        } else {
            match self.error {
                Some(err) => {
                    p.note(rows[0], ("can't list this directory: "@ + err), Tone::Bad)
                },
                None => {
                    p.list(rows[0], entry_lines(self.entries), self.selected)
                },
            }
        };
        p.note(rows[1], "\u{2191}\u{2193} navigate  Enter open dir / pick file  Esc cancel"@, Tone::Label)
    }
}

impl Browser {
    pub fn draw_on(&self, p: &mut Picture, area: Rect, rows: &Vec<Rect>)
        requires
            rows@.len() == 2,
        ensures
            final(p)@ == self@.drawn_on(old(p)@, area, rows@),
    {
        p.modal(area, cat3(" Select Config File — ", self.cwd.as_str(), " ").as_str(), Frame::Modal);
        if self.loading {
            p.note(rows[0], "Loading…", Tone::Warn);
        } else {
            match &self.error {
                Some(err) => {
                    p.note(rows[0], cat2("can't list this directory: ", err.as_str()).as_str(), Tone::Bad);
                },
                None => {
                    p.list(rows[0], entry_rows(&self.entries), self.selected);
                },
            }
        }
        p.note(rows[1], "\u{2191}\u{2193} navigate  Enter open dir / pick file  Esc cancel", Tone::Label);
    }
}

/// Where the results stand.
pub open spec fn results_rect(area: Rect) -> Rect {
    Rect::centered(
        geometry::min_int(geometry::less(area.width as int, 6), 120) as u16,
        geometry::min_int(geometry::less(area.height as int, 4), 44) as u16,
        area,
    )
}

pub fn results_area(area: Rect) -> (r: Rect)
    ensures
        r == results_rect(area),
{
    centered_rect(min_u16(area.width.saturating_sub(6), 120), min_u16(area.height.saturating_sub(4), 44), area)
}

/// How far down `total` lines are scrolled where `up` lines were scrolled up
/// from their end.
pub open spec fn scroll_of(total: nat, visible: u16, up: u16) -> u16 {
    let most = geometry::less(total as int % 65536, visible as int);
    (most - geometry::min_int(up as int, most)) as u16
}

pub fn scroll_from(total: usize, visible: u16, up: u16) -> (r: u16)
    ensures
        r == scroll_of(total as nat, visible, up),
{
    let most: u16 = ((total % 65536) as u16).saturating_sub(visible);
    most - min_u16(up, most)
}

impl CheckResultModel {
    /// What a fix did, over the result.
    pub open spec fn fix_lines(self) -> Seq<LineModel> {
        match self.fix_message {
            Some(msg) => {
                let first = Seq::<LineModel>::empty().push(LineModel::of(SpanModel::text(msg, if self.valid { Tone::Good } else { Tone::Warn })));
                match self.fix_backup {
                    Some(backup) => {
                        first.push(LineModel::of(SpanModel::label(("Original backed up to "@ + backup)))).push(LineModel::of(SpanModel::plain(""@)))
                    },
                    None => {
                        first.push(LineModel::of(SpanModel::plain(""@)))
                    },
                }
            },
            None => {
                Seq::<LineModel>::empty()
            },
        }
    }

    /// The result, line by line.
    pub open spec fn result_lines(self) -> Seq<LineModel> {
        if self.valid {
            Seq::<LineModel>::empty().push(LineModel::of(SpanModel::text("No syntax errors found."@, Tone::Good)))
        } else {
            let found = text::lines_in(self.error_text);
            picture::plain_lines(found).push(LineModel::of(SpanModel::plain(""@))).push(LineModel::of(
                    SpanModel::label(
                        "(the parser stops at the first error — fixing it may reveal more on the next check)"@,
                    ),
                ))
        }
    }

    pub open spec fn title(self) -> Seq<char> {
        let left = (" "@ + self.format.name() + " — "@);
        let right = (" — "@ + self.path + " "@);
        (left + if self.valid { "VALID"@ } else { "INVALID"@ } + right)
    }

    /// The window with the result.
    pub open spec fn drawn_results(self, p: PictureModel, scroll: u16, fixing: bool, area: Rect, rows: Seq<Rect>) -> PictureModel {
        let p = p.modal(area, self.title(), if self.valid { Frame::Success } else { Frame::Danger });
        let lines = (self.fix_lines() + self.result_lines());
        let down = scroll_of(lines.len(), rows[0].height, scroll);
        let p = p.paragraph(rows[0], lines, down, Wrap::Keep);
        if fixing {
            p.note(rows[1], "Applying fix…"@, Tone::Label)
        } else if self.valid {
            p.note(rows[1], "\u{2191}\u{2193} scroll  Ctrl+Y copy  Esc close"@, Tone::Label)
        } else {
            p.note(rows[1], "\u{2191}\u{2193} scroll  Ctrl+Y copy  F try auto-fix  Esc close"@, Tone::Label)
        }
    }
}

impl CheckResult {
    /// What a fix did, over the result.
    pub fn fix_lines(&self) -> (r: Vec<Line>)
        ensures
            r.deep_view() == self@.fix_lines(),
    {
        match &self.fix_message {
            Some(msg) => {
                let first = with_line(
                    no_lines(),
                    Line::of(Span::text(msg.as_str(), if self.valid { Tone::Good } else { Tone::Warn })),
                );
                match &self.fix_backup {
                    Some(backup) => {
                        with_line(
                            with_line(
                                first,
                                Line::of(Span::label(cat2("Original backed up to ", backup.as_str()).as_str())),
                            ),
                            Line::of(Span::plain("")),
                        )
                    },
                    None => {
                        with_line(first, Line::of(Span::plain("")))
                    },
                }
            },
            None => {
                no_lines()
            },
        }
    }

    /// The result, line by line.
    pub fn result_lines(&self) -> (r: Vec<Line>)
        ensures
            r.deep_view() == self@.result_lines(),
    {
        if self.valid {
            with_line(no_lines(), Line::of(Span::text("No syntax errors found.", Tone::Good)))
        } else {
            let found = split_lines(self.error_text.as_str());
            with_line(
                with_line(plain_rows(&found), Line::of(Span::plain(""))),
                Line::of(
                    Span::label(
                        "(the parser stops at the first error — fixing it may reveal more on the next check)",
                    ),
                ),
            )
        }
    }

    pub fn title(&self) -> (r: String)
        ensures
            r@ == self@.title(),
    {
        let left = cat3(" ", self.format.label(), " — ");
        let right = cat3(" — ", self.path.as_str(), " ");
        cat3(left.as_str(), if self.valid { "VALID" } else { "INVALID" }, right.as_str())
    }

    /// The window with the result.
    pub fn draw_results(&self, p: &mut Picture, scroll: u16, fixing: bool, area: Rect, rows: &Vec<Rect>)
        requires
            rows@.len() == 2,
        ensures
            final(p)@ == self@.drawn_results(old(p)@, scroll, fixing, area, rows@),
    {
        p.modal(area, self.title().as_str(), if self.valid { Frame::Success } else { Frame::Danger });
        let lines = chain(self.fix_lines(), self.result_lines());
        let down = scroll_from(lines.len(), rows[0].height, scroll);
        p.paragraph(rows[0], lines, down, Wrap::Keep);
        if fixing {
            p.note(rows[1], "Applying fix…", Tone::Label);
        } else if self.valid {
            p.note(rows[1], "\u{2191}\u{2193} scroll  Ctrl+Y copy  Esc close", Tone::Label);
        } else {
            p.note(rows[1], "\u{2191}\u{2193} scroll  Ctrl+Y copy  F try auto-fix  Esc close", Tone::Label);
        }
    }
}

/// What is asked before a file is fixed.
pub open spec fn fix_message(path: Seq<char>) -> Seq<char> {
    "Try to automatically fix common syntax mistakes in:\n  "@ + path
        + "\n\nThis is a best-effort mechanical fix — stray trailing commas and comments in JSON, smart quotes, tab indentation in YAML, unescaped '&' in XML. It will NOT reorder or invent data, and it may not fix everything.\n\nThe current file is backed up first (same path, .atk-bak-<timestamp> suffix), then the fixed version is written and re-checked so you can see what — if anything — still needs fixing by hand.\n\nEnter to continue, Esc to cancel. (Keyboard only — a stray click can't confirm this.)"@
}

pub fn fix_text(path: &str) -> (r: String)
    ensures
        r@ == fix_message(path@),
{
    cat3(
        "Try to automatically fix common syntax mistakes in:\n  ",
        path,
        "\n\nThis is a best-effort mechanical fix — stray trailing commas and comments in JSON, smart quotes, tab indentation in YAML, unescaped '&' in XML. It will NOT reorder or invent data, and it may not fix everything.\n\nThe current file is backed up first (same path, .atk-bak-<timestamp> suffix), then the fixed version is written and re-checked so you can see what — if anything — still needs fixing by hand.\n\nEnter to continue, Esc to cancel. (Keyboard only — a stray click can't confirm this.)",
    )
}

/// Where that is asked: high enough for the text as it is wrapped, with two
/// lines to spare.
pub open spec fn fix_rect(path: Seq<char>, area: Rect) -> Rect {
    let width = geometry::min_int(72, geometry::less(area.width as int, 4));
    let lines = geometry::min_int(
        wrap::text_lines(fix_message(path), geometry::less(width, 2)).len() as int,
        usize::MAX as int,
    );
    let height = geometry::max_int(
        geometry::min_int(geometry::max_int(lines % 65536 + 4, 18), geometry::less(area.height as int, 2)),
        10,
    );
    Rect::centered(width as u16, height as u16, area)
}

pub fn fix_area(path: &str, area: Rect) -> (r: Rect)
    ensures
        r == fix_rect(path@, area),
{
    let width: u16 = min_u16(72, area.width.saturating_sub(4));
    let msg = fix_text(path);
    let lines: usize = wrapped_line_count(msg.as_str(), width.saturating_sub(2) as usize);
    let wanted: u32 = (lines % 65536) as u32 + 4;
    let wanted: u32 = if wanted < 18 {
        18
    } else {
        wanted
    };
    let room: u16 = area.height.saturating_sub(2);
    let height: u16 = if wanted <= room as u32 {
        wanted as u16
    } else {
        room
    };
    let height: u16 = if height < 10 {
        10
    } else {
        height
    };
    centered_rect(width, height, area)
}

impl CheckTabModel {
    pub open spec fn drawn_form(self, p: PictureModel, rows: Seq<Rect>) -> PictureModel {
        let p = p.input(rows[0], "Path       "@, self.path, self.field == CheckField::Path, false, room_least(rows[0], 12, 6));
        let p = p.line(
            rows[2],
            LineModel::of(SpanModel::label("Format     "@)).and(
                SpanModel::text(
                    ("< "@ + self.format_choice.name() + " >"@),
                    if self.field == CheckField::Format { Tone::Focus } else { Tone::Plain },
                ),
            ).and(SpanModel::label("   (Auto detects from the extension — Left/Right to force one)"@)),
        );
        let p = p.line(
            rows[4],
            LineModel::of(SpanModel::button("Browse…"@, self.field == CheckField::BtnBrowse)).button(
                if self.checking { "Checking…"@ } else { "Check Syntax"@ },
                self.field == CheckField::BtnCheck,
            ),
        );
        p.note(
            rows[6],
            "Tab/Shift+Tab move  Enter activate  Ctrl+Y copy History  Ctrl+\u{2191}/\u{2193} scroll History  Esc back"@,
            Tone::Label,
        )
    }

    /// The last result in one line.
    pub open spec fn summary(self) -> LineModel {
        match self.result {
            Some(res) => {
                if res.valid {
                    LineModel::of(SpanModel::text("\u{2713} "@, Tone::Good)).and(SpanModel::plain(res.path)).and(
                        SpanModel::label((" — valid "@ + res.format.name())),
                    )
                } else {
                    LineModel::of(SpanModel::text("\u{2717} "@, Tone::Bad)).and(SpanModel::plain(res.path)).and(
                        SpanModel::label(
                            (" — invalid "@ + res.format.name() + " (Esc back then re-check to reopen the details)"@),
                        ),
                    )
                }
            },
            None => {
                LineModel::of(
                    SpanModel::label(
                        "Type a path (or Browse…) and press Check Syntax. Supported: .json .toml .yaml/.yml .xml."@,
                    ),
                )
            },
        }
    }
}

impl CheckTab {
    pub fn draw_form(&self, p: &mut Picture, rows: &Vec<Rect>)
        requires
            rows@.len() == 8,
        ensures
            final(p)@ == self@.drawn_form(old(p)@, rows@),
    {
        p.input(rows[0], "Path       ", &self.path, self.field == CheckField::Path, false, room_of(rows[0], 12, 6));
        p.line(
            rows[2],
            Line::of(Span::label("Format     ")).and(
                Span::text(
                    cat3("< ", self.format_choice.label(), " >").as_str(),
                    if self.field == CheckField::Format { Tone::Focus } else { Tone::Plain },
                ),
            ).and(Span::label("   (Auto detects from the extension — Left/Right to force one)")),
        );
        p.line(
            rows[4],
            Line::of(Span::button("Browse…", self.field == CheckField::BtnBrowse)).button(
                if self.checking { "Checking…" } else { "Check Syntax" },
                self.field == CheckField::BtnCheck,
            ),
        );
        p.note(
            rows[6],
            "Tab/Shift+Tab move  Enter activate  Ctrl+Y copy History  Ctrl+\u{2191}/\u{2193} scroll History  Esc back",
            Tone::Label,
        );
    }

    /// The last result in one line.
    pub fn summary(&self) -> (r: Line)
        ensures
            r@ == self@.summary(),
    {
        match &self.result {
            Some(res) => {
                if res.valid {
                    Line::of(Span::text("\u{2713} ", Tone::Good)).and(Span::plain(res.path.as_str())).and(
                        Span::label(cat2(" — valid ", res.format.label()).as_str()),
                    )
                } else {
                    Line::of(Span::text("\u{2717} ", Tone::Bad)).and(Span::plain(res.path.as_str())).and(
                        Span::label(
                            cat3(
                                " — invalid ",
                                res.format.label(),
                                " (Esc back then re-check to reopen the details)",
                            ).as_str(),
                        ),
                    )
                }
            },
            None => {
                Line::of(
                    Span::label(
                        "Type a path (or Browse…) and press Check Syntax. Supported: .json .toml .yaml/.yml .xml.",
                    ),
                )
            },
        }
    }
}

impl ConfigCheckScreenModel {
    /// Whether a target is connected.
    pub open spec fn info(self) -> LineModel {
        if self.target_tab.connecting {
            LineModel::of(SpanModel::text("Connecting…"@, Tone::Warn))
        } else {
            match self.connected_label {
                Some(label) => {
                    LineModel::of(SpanModel::label("Connected to: "@)).and(SpanModel::text(label, Tone::Good))
                },
                None => {
                    LineModel::of(
                        SpanModel::label(
                            "Not connected yet. Choose Local or fill in a remote host above, then press Connect — or just go to the Check tab, a connection is opened automatically when you browse or check a file."@,
                        ),
                    )
                },
            }
        }
    }

    pub open spec fn drawn_target(self, p: PictureModel, l: ConfigCheckLayoutModel) -> PictureModel {
        let p = self.target_tab.drawn_tab(p, l.target);
        let p = match self.target_tab.host_picker {
            Some(picker) => {
                picker.drawn_on(p, geometry::modal_rect(84, 22, 4, 2, l.target.tab[1]), l.target.hosts)
            },
            None => {
                match self.target_tab.key_picker {
                    Some(picker) => {
                        picker.drawn_on(p, geometry::modal_rect(84, 24, 4, 2, l.target.tab[1]), l.target.keys)
                    },
                    None => {
                        let p = p.panel(l.target.tab[1], " Target Info "@);
                        p.paragraph(mouse::inner(l.target.tab[1]), Seq::<LineModel>::empty().push(self.info()), 0, Wrap::Keep)
                    },
                }
            },
        };
        p.history(l.target.tab[2], self.log)
    }

    pub open spec fn drawn_check(self, p: PictureModel, l: ConfigCheckLayoutModel) -> PictureModel {
        let p = p.panel(l.check[0], " Check "@);
        let p = self.check_tab.drawn_form(p, l.check_form);
        let p = match self.check_tab.browser {
            Some(browser) => {
                browser.drawn_on(p, geometry::modal_rect(84, 24, 4, 2, l.check[1]), l.browser)
            },
            None => {
                let p = p.panel(l.check[1], " Last Result "@);
                p.paragraph(mouse::inner(l.check[1]), Seq::<LineModel>::empty().push(self.check_tab.summary()), 0, Wrap::Keep)
            },
        };
        p.history(l.check[2], self.log)
    }

    /// The question before a fix.
    pub open spec fn drawn_confirm_fix(self, p: PictureModel, path: Seq<char>, area: Rect) -> PictureModel {
        let p = p.modal(fix_rect(path, area), " Confirm Auto-Fix "@, Frame::Warning);
        let msg = fix_message(path);
        let lines = text::lines_in(msg);
        p.paragraph(mouse::inner(fix_rect(path, area)), picture::plain_lines(lines), 0, Wrap::Trim)
    }

    /// The whole screen, drawn into its rows; `results` are the rows of the
    /// window with the result.
    pub open spec fn drawn_on(self, p: PictureModel, area: Rect, l: ConfigCheckLayoutModel, results: Seq<Rect>) -> PictureModel {
        let p = p.line(
            l.screen[0],
            LineModel::of(SpanModel::tab("F1 Target"@, self.tab == Tab::Target)).and(SpanModel::plain("  "@)).and(
                SpanModel::tab("F2 Check"@, self.tab == Tab::Check),
            ).and(SpanModel::plain("  "@)).and(SpanModel::text("Esc back  Ctrl+C quit"@, Tone::Dim)),
        );
        let p = match self.tab {
            Tab::Target => {
                self.drawn_target(p, l)
            },
            Tab::Check => {
                self.drawn_check(p, l)
            },
        };
        let p = match self.check_tab.result {
            Some(found) => {
                let p = if self.check_tab.show_results {
                    found.drawn_results(p, self.check_tab.results_scroll, self.check_tab.fixing, results_rect(area), results)
                } else {
                    p
                };
                if self.check_tab.confirm_fix {
                    self.drawn_confirm_fix(p, found.path, area)
                } else {
                    p
                }
            },
            None => {
                p
            },
        };
        p.alert(area, self.log)
    }
}

impl ConfigCheckScreen {
    /// Whether a target is connected.
    pub fn info(&self) -> (r: Line)
        ensures
            r@ == self@.info(),
    {
        if self.target_tab.connecting {
            Line::of(Span::text("Connecting…", Tone::Warn))
        } else {
            match &self.connected_label {
                Some(label) => {
                    Line::of(Span::label("Connected to: ")).and(Span::text(label.as_str(), Tone::Good))
                },
                None => {
                    Line::of(
                        Span::label(
                            "Not connected yet. Choose Local or fill in a remote host above, then press Connect — or just go to the Check tab, a connection is opened automatically when you browse or check a file.",
                        ),
                    )
                },
            }
        }
    }

    pub fn draw_target(&self, p: &mut Picture, l: &ConfigCheckLayout)
        requires
            l@.complete(self@.target_tab.is_remote),
        ensures
            final(p)@ == self@.drawn_target(old(p)@, l@),
    {
        self.target_tab.draw_tab(p, &l.target);
        match &self.target_tab.host_picker {
            Some(picker) => {
                picker.draw_on(p, modal_area(84, 22, 4, 2, l.target.tab[1]), &l.target.hosts);
            },
            None => {
                match &self.target_tab.key_picker {
                    Some(picker) => {
                        picker.draw_on(p, modal_area(84, 24, 4, 2, l.target.tab[1]), &l.target.keys);
                    },
                    None => {
                        p.panel(l.target.tab[1], " Target Info ");
                        p.paragraph(block_inner(l.target.tab[1]), with_line(no_lines(), self.info()), 0, Wrap::Keep);
                    },
                }
            },
        }
        p.history(l.target.tab[2], &self.log);
    }

    pub fn draw_check(&self, p: &mut Picture, l: &ConfigCheckLayout)
        requires
            l@.complete(self@.target_tab.is_remote),
        ensures
            final(p)@ == self@.drawn_check(old(p)@, l@),
    {
        p.panel(l.check[0], " Check ");
        self.check_tab.draw_form(p, &l.check_form);
        match &self.check_tab.browser {
            Some(browser) => {
                browser.draw_on(p, modal_area(84, 24, 4, 2, l.check[1]), &l.browser);
            },
            None => {
                p.panel(l.check[1], " Last Result ");
                p.paragraph(block_inner(l.check[1]), with_line(no_lines(), self.check_tab.summary()), 0, Wrap::Keep);
            },
        }
        p.history(l.check[2], &self.log);
    }

    /// The question before a fix.
    pub fn draw_confirm_fix(&self, p: &mut Picture, path: &str, area: Rect)
        ensures
            final(p)@ == self@.drawn_confirm_fix(old(p)@, path@, area),
    {
        p.modal(fix_area(path, area), " Confirm Auto-Fix ", Frame::Warning);
        let msg = fix_text(path);
        let lines = split_lines(msg.as_str());
        p.paragraph(block_inner(fix_area(path, area)), plain_rows(&lines), 0, Wrap::Trim);
    }

    /// The whole screen, drawn into its rows; `results` are the rows of the
    /// window with the result.
    pub fn draw_on(&self, p: &mut Picture, area: Rect, l: &ConfigCheckLayout, results: &Vec<Rect>)
        requires
            l@.complete(self@.target_tab.is_remote),
            results@.len() == 2,
        ensures
            final(p)@ == self@.drawn_on(old(p)@, area, l@, results@),
    {
        p.line(
            l.screen[0],
            Line::of(Span::tab("F1 Target", self.tab == Tab::Target)).and(Span::plain("  ")).and(
                Span::tab("F2 Check", self.tab == Tab::Check),
            ).and(Span::plain("  ")).and(Span::text("Esc back  Ctrl+C quit", Tone::Dim)),
        );
        match self.tab {
            Tab::Target => {
                self.draw_target(p, l);
            },
            Tab::Check => {
                self.draw_check(p, l);
            },
        }
        match &self.check_tab.result {
            Some(found) => {
                if self.check_tab.show_results {
                    found.draw_results(p, self.check_tab.results_scroll, self.check_tab.fixing, results_area(area), results);
                }
                if self.check_tab.confirm_fix {
                    self.draw_confirm_fix(p, found.path.as_str(), area);
                }
            },
            None => {},
        }
        p.alert(area, &self.log);
    }
}

/// The rows of the window with the result.
pub open spec fn results_rows(area: Rect, rows: Seq<Rect>) -> bool {
    geometry::stacked(
        mouse::inner(results_rect(area)),
        1,
        seq![Constraint::Min(3), Constraint::Length(1)],
        rows,
    )
}

impl ConfigCheckScreenModel {
    /// Whether `p` is a picture of the screen in `area`: the screen drawn into
    /// rows that `area` can be split into.
    pub open spec fn shows(self, area: Rect, p: PictureModel) -> bool {
        exists|l: ConfigCheckLayoutModel, results: Seq<Rect>|
            #![trigger l.of(area, self.target_tab.is_remote), results_rows(area, results)]
            l.of(area, self.target_tab.is_remote) && results_rows(area, results) && p == self.drawn_on(
                PictureModel::empty(),
                area,
                l,
                results,
            )
    }
}

impl ConfigCheckScreen {
    /// The picture of the screen in `area`.
    pub fn draw(&self, area: Rect) -> (r: Picture)
        ensures
            self@.shows(area, r@),
    {
        let l = self.layout(area);
        let cs = vec![Constraint::Min(3), Constraint::Length(1)];
        assert(cs@ =~= seq![Constraint::Min(3), Constraint::Length(1)]);
        let results = split_rows(block_inner(results_area(area)), 1, &cs);
        let mut p = Picture::empty();
        self.draw_on(&mut p, area, &l, &results);
        assert(results_rows(area, results@));
        p
    }
}

// -------------------------------------------------------------------- laws

/// The question before a fix has room for all of its lines and two more,
/// wherever the screen is high enough.
pub proof fn the_question_has_room(path: Seq<char>, area: Rect)
    requires
        area.width >= 4,
        wrap::text_lines(fix_message(path), geometry::less(fix_rect(path, area).width as int, 2)).len() + 6
            <= area.height,
    ensures
        mouse::inner(fix_rect(path, area)).height >= wrap::text_lines(
            fix_message(path),
            geometry::less(fix_rect(path, area).width as int, 2),
        ).len(),
{
}

} // verus!
