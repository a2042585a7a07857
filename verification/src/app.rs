//! The application: which screen is shown, and where events go.
use crate::clickhouse_screen;
use crate::clickhouse_screen::{ClickHouseLayoutModel, ClickHouseScreen, ClickHouseScreenModel};
use crate::cloudflare_screen;
use crate::cloudflare_screen::{CloudflareLayoutModel, CloudflareScreen, CloudflareScreenModel};
use crate::easyssh_screen;
use crate::easyssh_screen::{EasySshLayoutModel, EasySshScreen, EasySshScreenModel};
use crate::event::{KeyCode, KeyEvent, MouseEvent, MouseKind};
use crate::geometry;
use crate::geometry::Rect;
use crate::home;
use crate::home::{HomeModel, HomeState};
use crate::interactive::{PendingAction, SessionEnd};
use crate::kerneltune_screen;
use crate::kerneltune_screen::{KernelTuneLayoutModel, KernelTuneScreen, KernelTuneScreenModel};
use crate::logs_screen;
use crate::logs_screen::{LogsLayoutModel, LogsScreen, LogsScreenModel};
use crate::picture::{Picture, PictureModel};
use crate::screen::Screen;
use crate::servers::Server;
use vstd::prelude::*;

verus! {

// --------------------------------------------------------------- the state

/// Presses at one cell within so many milliseconds are one click.
pub const CLICK_DEBOUNCE: u64 = 150;

pub struct App {
    pub screen: Screen,
    pub home: HomeState,
    pub easyssh: Option<EasySshScreen>,
    pub cloudflare: Option<CloudflareScreen>,
    pub clickhouse: Option<ClickHouseScreen>,
    pub logs: Option<LogsScreen>,
    pub kerneltune: Option<KernelTuneScreen>,
    pub should_quit: bool,
    /// Where and when, in milliseconds, the left button was last pressed.
    pub last_click: Option<(u16, u16, u64)>,
    pub mouse_enabled: bool,
}

pub struct AppModel {
    pub screen: Screen,
    pub home: HomeModel,
    pub easyssh: Option<EasySshScreenModel>,
    pub cloudflare: Option<CloudflareScreenModel>,
    pub clickhouse: Option<ClickHouseScreenModel>,
    pub logs: Option<LogsScreenModel>,
    pub kerneltune: Option<KernelTuneScreenModel>,
    pub should_quit: bool,
    pub last_click: Option<(u16, u16, u64)>,
    pub mouse_enabled: bool,
}

impl View for App {
    type V = AppModel;

    open spec fn view(&self) -> AppModel {
        AppModel {
            screen: self.screen,
            home: self.home@,
            easyssh: self.easyssh.deep_view(),
            cloudflare: self.cloudflare.deep_view(),
            clickhouse: self.clickhouse.deep_view(),
            logs: self.logs.deep_view(),
            kerneltune: self.kerneltune.deep_view(),
            should_quit: self.should_quit,
            last_click: self.last_click,
            mouse_enabled: self.mouse_enabled,
        }
    }
}

impl AppModel {
    pub open spec fn wf(self) -> bool {
        &&& self.home.wf()
        &&& self.clickhouse matches Some(s) ==> s.wf()
        &&& self.logs matches Some(s) ==> s.wf()
    }

    /// The application as it starts: on the menu, with no tool open.
    pub open spec fn fresh(document: Option<Seq<char>>) -> AppModel {
        AppModel {
            screen: Screen::Home,
            home: HomeModel { selected: 0, order: home::order_in(document), unsaved: None },
            easyssh: None,
            cloudflare: None,
            clickhouse: None,
            logs: None,
            kerneltune: None,
            should_quit: false,
            last_click: None,
            mouse_enabled: false,
        }
    }

    /// A screen is shown. The server manager starts the first time it is; the
    /// others wait for what they are opened with.
    pub open spec fn entered(self, screen: Screen) -> AppModel {
        AppModel {
            screen,
            easyssh: if screen == Screen::EasySsh && self.easyssh is None {
                Some(EasySshScreenModel::fresh())
            } else {
                self.easyssh
            },
            ..self
        }
    }

    /// The screen that is shown but waits for what it is opened with.
    pub open spec fn waiting(self) -> Option<Screen> {
        let waits = match self.screen {
            Screen::Cloudflare => self.cloudflare is None,
            Screen::ClickHouse => self.clickhouse is None,
            Screen::Logs => self.logs is None,
            Screen::KernelTune => self.kerneltune is None,
            _ => false,
        };
        if waits {
            Some(self.screen)
        } else {
            None
        }
    }

    /// Back on the menu, if a screen says so.
    pub open spec fn back(self, leave: bool) -> AppModel {
        if leave {
            AppModel { screen: Screen::Home, ..self }
        } else {
            self
        }
    }

    /// Whether a key means the same on every screen.
    pub open spec fn global(key: KeyEvent) -> bool {
        key.chord('c') || key.code == KeyCode::F(12)
    }

    pub open spec fn home_key(self, key: KeyEvent) -> AppModel {
        if key.code == KeyCode::Esc || key.code == KeyCode::Char('q') {
            AppModel { should_quit: true, ..self }
        } else {
            let (home, target) = self.home.on_key(key);
            let me = AppModel { home, ..self };
            match target {
                Some(t) => me.entered(t),
                None => me,
            }
        }
    }

    /// A key goes to the screen that is shown, which may go back to the menu;
    /// so does a screen that is not open. `outside` is what a screen that is
    /// kept elsewhere made of the key, if there is one.
    pub open spec fn screen_key(self, key: KeyEvent, outside: Option<bool>) -> AppModel {
        match self.screen {
            Screen::Home => self.home_key(key),
            Screen::EasySsh => match self.easyssh {
                Some(s) => AppModel { easyssh: Some(s.on_key(key).0), ..self }.back(s.on_key(key).1),
                None => self.back(true),
            },
            Screen::Cloudflare => match self.cloudflare {
                Some(s) => AppModel { cloudflare: Some(s.on_key(key).0), ..self }.back(s.on_key(key).1),
                None => self.back(true),
            },
            Screen::ClickHouse => match self.clickhouse {
                Some(s) => AppModel { clickhouse: Some(s.on_key(key).0), ..self }.back(s.on_key(key).1),
                None => self.back(true),
            },
            Screen::Logs => match self.logs {
                Some(s) => AppModel { logs: Some(s.on_key(key).0), ..self }.back(s.on_key(key).1),
                None => self.back(true),
            },
            Screen::KernelTune => match self.kerneltune {
                Some(s) => AppModel { kerneltune: Some(s.on_key(key).0), ..self }.back(s.on_key(key).1),
                None => self.back(true),
            },
            _ => self.back(outside != Some(false)),
        }
    }

    #[verifier::opaque]
    pub open spec fn on_key(self, key: KeyEvent, outside: Option<bool>) -> AppModel {
        if key.chord('c') {
            AppModel { should_quit: true, ..self }
        } else if key.code == KeyCode::F(12) {
            AppModel { mouse_enabled: !self.mouse_enabled, ..self }
        } else {
            self.screen_key(key, outside)
        }
    }

    /// Whether a press repeats the one before: at the same cell, too soon after it.
    pub open spec fn repeats(self, me: MouseEvent, now: u64) -> bool {
        match self.last_click {
            Some((x, y, t)) => x == me.column && y == me.row && geometry::less(now as int, t as int)
                < CLICK_DEBOUNCE,
            None => false,
        }
    }

    /// The press is remembered.
    pub open spec fn pressed(self, me: MouseEvent, now: u64) -> AppModel {
        if me.kind == MouseKind::LeftDown {
            AppModel { last_click: Some((me.column, me.row, now)), ..self }
        } else {
            self
        }
    }

    /// Whether an event goes no further: a repeated press, or the release of
    /// the left button.
    pub open spec fn swallows(self, me: MouseEvent, now: u64) -> bool {
        (me.kind == MouseKind::LeftDown && self.repeats(me, now)) || me.kind == MouseKind::LeftUp
    }

    pub open spec fn home_mouse(self, me: MouseEvent, list: Rect) -> AppModel {
        let (home, target) = self.home.on_mouse(me, list);
        let it = AppModel { home, ..self };
        match target {
            Some(t) => it.entered(t),
            None => it,
        }
    }

    /// Whether `next` is what the screen that is shown makes of a mouse event.
    pub open spec fn routes(self, me: MouseEvent, area: Rect, next: AppModel) -> bool {
        match self.screen {
            Screen::Home => exists|rows: Seq<Rect>| #[trigger]
                geometry::stacked(area, 0, home::home_rows(), rows) && next == self.home_mouse(me, rows[1]),
            Screen::EasySsh => match self.easyssh {
                Some(s) => exists|l: EasySshLayoutModel| #[trigger]
                    l.of(area) && next == (AppModel { easyssh: Some(s.on_mouse(me, l)), ..self }),
                None => next == self,
            },
            Screen::Cloudflare => match self.cloudflare {
                Some(s) => exists|l: CloudflareLayoutModel| #[trigger]
                    l.of(area) && next == (AppModel { cloudflare: Some(s.on_mouse(me, l)), ..self }),
                None => next == self,
            },
            Screen::ClickHouse => match self.clickhouse {
                Some(s) => exists|l: ClickHouseLayoutModel| #[trigger]
                    l.of(area, s.connections_tab.mode_is_sql, s.connections_tab.use_tunnel) && next == (AppModel {
                        clickhouse: Some(s.on_mouse(me, l)),
                        ..self
                    }),
                None => next == self,
            },
            Screen::Logs => match self.logs {
                Some(s) => exists|l: LogsLayoutModel| #[trigger]
                    l.of(area, s.viewer_tab.journal) && next == (AppModel { logs: Some(s.on_mouse(me, l)), ..self }),
                None => next == self,
            },
            Screen::KernelTune => match self.kerneltune {
                Some(s) => exists|l: KernelTuneLayoutModel| #[trigger]
                    l.of(area, s.target_tab.is_remote) && next == (AppModel {
                        kerneltune: Some(s.on_mouse(me, l)),
                        ..self
                    }),
                None => next == self,
            },
            _ => next == self,
        }
    }
}

impl App {
    /// The application as it starts, with the menu in the order of a saved document.
    pub fn new(document: &Option<String>) -> (r: App)
        ensures
            r@ == AppModel::fresh(document.deep_view()),
            r@.wf(),
    {
        App {
            screen: Screen::Home,
            home: HomeState::new(document),
            easyssh: None,
            cloudflare: None,
            clickhouse: None,
            logs: None,
            kerneltune: None,
            should_quit: false,
            last_click: None,
            mouse_enabled: false,
        }
    }

    /// Shows a screen.
    pub fn enter(&mut self, screen: Screen)
        requires
            old(self)@.wf(),
        ensures
            final(self)@ == old(self)@.entered(screen),
            final(self)@.wf(),
    {
        if screen == Screen::EasySsh && self.easyssh.is_none() {
            self.easyssh = Some(EasySshScreen::new());
        }
        self.screen = screen;
    }

    /// The screen that is shown but waits for what it is opened with.
    pub fn wants(&self) -> (r: Option<Screen>)
        ensures
            r == self@.waiting(),
    {
        let waits = match self.screen {
            Screen::Cloudflare => self.cloudflare.is_none(),
            Screen::ClickHouse => self.clickhouse.is_none(),
            Screen::Logs => self.logs.is_none(),
            Screen::KernelTune => self.kerneltune.is_none(),
            _ => false,
        };
        if waits {
            Some(self.screen)
        } else {
            None
        }
    }

    pub fn open_cloudflare(&mut self, cfg: cloudflare_screen::Config)
        requires
            old(self)@.wf(),
            old(self)@.cloudflare is None,
        ensures
            final(self)@ == (AppModel {
                cloudflare: Some(CloudflareScreenModel::fresh(cfg@)),
                ..old(self)@
            }),
            final(self)@.wf(),
    {
        self.cloudflare = Some(CloudflareScreen::new(cfg));
    }

    pub fn open_clickhouse(&mut self, cfg: clickhouse_screen::Config, tag_modes: Vec<String>)
        requires
            old(self)@.wf(),
            old(self)@.clickhouse is None,
            tag_modes@.len() > 0,
        ensures
            final(self)@ == (AppModel {
                clickhouse: Some(ClickHouseScreenModel::fresh(cfg@, tag_modes.deep_view())),
                ..old(self)@
            }),
            final(self)@.wf(),
    {
        self.clickhouse = Some(ClickHouseScreen::new(cfg, tag_modes));
    }

    pub fn open_logs(&mut self, cfg: logs_screen::Config, hosts: Vec<Server>, priorities: Vec<String>)
        requires
            old(self)@.wf(),
            old(self)@.logs is None,
            priorities@.len() > 0,
        ensures
            final(self)@ == (AppModel {
                logs: Some(LogsScreenModel::fresh(cfg@, hosts.deep_view(), priorities.deep_view())),
                ..old(self)@
            }),
            final(self)@.wf(),
    {
        self.logs = Some(LogsScreen::new(cfg, hosts, priorities));
    }

    pub fn open_kerneltune(
        &mut self,
        catalog: kerneltune_screen::Catalog,
        entries: Vec<kerneltune_screen::HistoryEntry>,
    )
        requires
            old(self)@.wf(),
            old(self)@.kerneltune is None,
        ensures
            final(self)@ == (AppModel {
                kerneltune: Some(KernelTuneScreenModel::fresh(catalog@, entries.deep_view())),
                ..old(self)@
            }),
            final(self)@.wf(),
    {
        self.kerneltune = Some(KernelTuneScreen::new(catalog, entries));
    }

    /// Hands out the program to run, if the server manager asks for one.
    pub fn take_pending_action(&mut self) -> (r: Option<PendingAction>)
        ensures
            match old(self)@.easyssh {
                Some(s) => {
                    &&& r.deep_view() == s.pending_action
                    &&& final(self)@ == (AppModel {
                        easyssh: Some(EasySshScreenModel { pending_action: None, ..s }),
                        ..old(self)@
                    })
                },
                None => r is None && final(self)@ == old(self)@,
            },
    {
        match &mut self.easyssh {
            Some(s) => s.take_pending_action(),
            None => None,
        }
    }

    /// Tells the server manager how a program that it asked for ended.
    pub fn session_ended(&mut self, alias: &str, end: SessionEnd)
        ensures
            match old(self)@.easyssh {
                Some(s) => final(self)@ == (AppModel {
                    easyssh: Some(s.session_ended(alias@, end@)),
                    ..old(self)@
                }),
                None => final(self)@ == old(self)@,
            },
    {
        if let Some(s) = &mut self.easyssh {
            s.on_interactive_done(alias, end);
        }
    }

    fn go_back(&mut self, leave: bool)
        requires
            old(self)@.wf(),
        ensures
            final(self)@ == old(self)@.back(leave),
            final(self)@.wf(),
    {
        if leave {
            self.screen = Screen::Home;
        }
    }

    fn home_key(&mut self, key: KeyEvent)
        requires
            old(self)@.wf(),
        ensures
            final(self)@ == old(self)@.home_key(key),
            final(self)@.wf(),
    {
        if key.code == KeyCode::Esc || key.code == KeyCode::Char('q') {
            self.should_quit = true;
        } else {
            match self.home.handle_key(key) {
                Some(target) => self.enter(target),
                None => {},
            }
        }
    }

    fn screen_key(&mut self, key: KeyEvent, outside: Option<bool>)
        requires
            old(self)@.wf(),
        ensures
            final(self)@ == old(self)@.screen_key(key, outside),
            final(self)@.wf(),
    {
        let leave = match self.screen {
            Screen::Home => {
                self.home_key(key);
                return ;
            },
            Screen::EasySsh => match &mut self.easyssh {
                Some(s) => s.handle_key(key),
                None => true,
            },
            Screen::Cloudflare => match &mut self.cloudflare {
                Some(s) => s.handle_key(key),
                None => true,
            },
            Screen::ClickHouse => match &mut self.clickhouse {
                Some(s) => s.handle_key(key),
                None => true,
            },
            Screen::Logs => match &mut self.logs {
                Some(s) => s.handle_key(key),
                None => true,
            },
            Screen::KernelTune => match &mut self.kerneltune {
                Some(s) => s.handle_key(key),
                None => true,
            },
            _ => match outside {
                Some(leave) => leave,
                None => true,
            },
        };
        self.go_back(leave);
    }

    /// Whether a key means the same on every screen, so that no screen sees it.
    pub fn is_global(key: KeyEvent) -> (r: bool)
        ensures
            r == AppModel::global(key),
    {
        key.is_chord('c') || key.code == KeyCode::F(12)
    }

    /// Handles a key. `outside` is what the screen that is shown made of it,
    /// where that screen is kept elsewhere: whether to go back to the menu.
    pub fn handle_key(&mut self, key: KeyEvent, outside: Option<bool>)
        requires
            old(self)@.wf(),
        ensures
            final(self)@ == old(self)@.on_key(key, outside),
            final(self)@.wf(),
    {
        proof {
            reveal(AppModel::on_key);
        }
        if key.is_chord('c') {
            self.should_quit = true;
        } else if key.code == KeyCode::F(12) {
            self.mouse_enabled = !self.mouse_enabled;
        } else {
            self.screen_key(key, outside);
        }
    }

    fn is_repeat(&self, me: MouseEvent, now: u64) -> (r: bool)
        ensures
            r == self@.repeats(me, now),
    {
        match self.last_click {
            Some((x, y, t)) => x == me.column && y == me.row && now.saturating_sub(t) < CLICK_DEBOUNCE,
            None => false,
        }
    }

    fn route_mouse(&mut self, me: MouseEvent, area: Rect)
        requires
            old(self)@.wf(),
        ensures
            old(self)@.routes(me, area, final(self)@),
            final(self)@.wf(),
    {
        match self.screen {
            Screen::Home => {
                match self.home.handle_mouse(me, area) {
                    Some(target) => self.enter(target),
                    None => {},
                }
            },
            Screen::EasySsh => {
                if let Some(s) = &mut self.easyssh {
                    s.handle_mouse(me, area);
                }
            },
            Screen::Cloudflare => {
                if let Some(s) = &mut self.cloudflare {
                    s.handle_mouse(me, area);
                }
            },
            Screen::ClickHouse => {
                if let Some(s) = &mut self.clickhouse {
                    s.handle_mouse(me, area);
                }
            },
            Screen::Logs => {
                if let Some(s) = &mut self.logs {
                    s.handle_mouse(me, area);
                }
            },
            Screen::KernelTune => {
                if let Some(s) = &mut self.kerneltune {
                    s.handle_mouse(me, area);
                }
            },
            _ => {},
        }
    }

    /// Handles a mouse event at `now` milliseconds on a terminal of size
    /// `area`. Returns whether a screen that is kept elsewhere is to see it.
    pub fn handle_mouse(&mut self, me: MouseEvent, area: Rect, now: u64) -> (r: bool)
        requires
            old(self)@.wf(),
        ensures
            r == !old(self)@.swallows(me, now),
            !r ==> final(self)@ == old(self)@.pressed(me, now),
            r ==> old(self)@.pressed(me, now).routes(me, area, final(self)@),
            final(self)@.wf(),
    {
        if me.kind == MouseKind::LeftUp {
            return false;
        }
        if me.kind == MouseKind::LeftDown {
            let repeat = self.is_repeat(me, now);
            self.last_click = Some((me.column, me.row, now));
            if repeat {
                return false;
            }
        }
        self.route_mouse(me, area);
        true
    }

    /// Gives every open screen the answers that arrived for it.
    pub fn tick(&mut self, answers: Answers, now: u64)
        requires
            old(self)@.wf(),
        ensures
            final(self)@ == old(self)@.ticked(answers@, now),
            final(self)@.wf(),
    {
        if let Some(s) = &mut self.easyssh {
            s.tick(answers.easyssh);
        }
        if let Some(s) = &mut self.cloudflare {
            s.tick(answers.cloudflare);
        }
        if let Some(s) = &mut self.clickhouse {
            s.tick(answers.clickhouse);
        }
        if let Some(s) = &mut self.logs {
            s.tick(answers.logs, now);
        }
        if let Some(s) = &mut self.kerneltune {
            s.tick(answers.kerneltune);
        }
    }
}

impl AppModel {
    /// Whether `p` is a picture of the screen that is shown; nothing is drawn
    /// of one that is not open.
    pub open spec fn shows(
        self,
        theme: Seq<char>,
        memory: Seq<char>,
        now: u64,
        area: Rect,
        p: PictureModel,
    ) -> bool {
        match self.screen {
            Screen::Home => exists|rows: Seq<Rect>| #[trigger]
                geometry::stacked(area, 0, home::home_rows(), rows) && p == self.home.drawn_on(
                    PictureModel::empty(),
                    theme,
                    rows,
                ),
            Screen::EasySsh => match self.easyssh {
                Some(s) => s.shows(area, p),
                None => p == PictureModel::empty(),
            },
            Screen::Cloudflare => match self.cloudflare {
                Some(s) => s.shows(area, p),
                None => p == PictureModel::empty(),
            },
            Screen::ClickHouse => match self.clickhouse {
                Some(s) => s.shows(area, p),
                None => p == PictureModel::empty(),
            },
            Screen::Logs => match self.logs {
                Some(s) => s.shows(area, p),
                None => p == PictureModel::empty(),
            },
            Screen::KernelTune => match self.kerneltune {
                Some(s) => s.shows(memory, now, area, p),
                None => p == PictureModel::empty(),
            },
            _ => p == PictureModel::empty(),
        }
    }
}

impl App {
    /// The picture of the screen that is shown, in `area` at `now` seconds.
    /// `theme` names the colours, and `memory` is the memory of the target of
    /// the kernel tuner as it is shown.
    pub fn draw(&self, theme: &str, memory: &str, now: u64, area: Rect) -> (r: Picture)
        requires
            self@.wf(),
        ensures
            self@.shows(theme@, memory@, now, area, r@),
    {
        match self.screen {
            Screen::Home => {
                let mut p = Picture::empty();
                home::draw(&mut p, &self.home, theme, area);
                p
            },
            Screen::EasySsh => match &self.easyssh {
                Some(s) => s.draw(area),
                None => Picture::empty(),
            },
            Screen::Cloudflare => match &self.cloudflare {
                Some(s) => s.draw(area),
                None => Picture::empty(),
            },
            Screen::ClickHouse => match &self.clickhouse {
                Some(s) => s.draw(area),
                None => Picture::empty(),
            },
            Screen::Logs => match &self.logs {
                Some(s) => s.draw(area),
                None => Picture::empty(),
            },
            Screen::KernelTune => match &self.kerneltune {
                Some(s) => s.draw(memory, now, area),
                None => Picture::empty(),
            },
            _ => Picture::empty(),
        }
    }
}

/// What arrived for each screen since it last looked.
pub struct Answers {
    pub easyssh: Vec<easyssh_screen::Msg>,
    pub cloudflare: Vec<cloudflare_screen::Msg>,
    pub clickhouse: Vec<clickhouse_screen::Msg>,
    pub logs: Vec<logs_screen::Msg>,
    pub kerneltune: Vec<kerneltune_screen::Msg>,
}

pub struct AnswersModel {
    pub easyssh: Seq<easyssh_screen::MsgModel>,
    pub cloudflare: Seq<cloudflare_screen::MsgModel>,
    pub clickhouse: Seq<clickhouse_screen::MsgModel>,
    pub logs: Seq<logs_screen::MsgModel>,
    pub kerneltune: Seq<kerneltune_screen::MsgModel>,
}

impl View for Answers {
    type V = AnswersModel;

    open spec fn view(&self) -> AnswersModel {
        AnswersModel {
            easyssh: self.easyssh.deep_view(),
            cloudflare: self.cloudflare.deep_view(),
            clickhouse: self.clickhouse.deep_view(),
            logs: self.logs.deep_view(),
            kerneltune: self.kerneltune.deep_view(),
        }
    }
}

impl AppModel {
    /// Every open screen has seen the answers that arrived for it.
    pub open spec fn ticked(self, answers: AnswersModel, now: u64) -> AppModel {
        AppModel {
            easyssh: match self.easyssh {
                Some(s) => Some(s.ticked(answers.easyssh)),
                None => None,
            },
            cloudflare: match self.cloudflare {
                Some(s) => Some(s.ticked(answers.cloudflare)),
                None => None,
            },
            clickhouse: match self.clickhouse {
                Some(s) => Some(s.after(answers.clickhouse)),
                None => None,
            },
            logs: match self.logs {
                Some(s) => Some(s.ticked(answers.logs, now)),
                None => None,
            },
            kerneltune: match self.kerneltune {
                Some(s) => Some(s.ticked(answers.kerneltune)),
                None => None,
            },
            ..self
        }
    }
}

// -------------------------------------------------------------------- laws

/// Whatever the screen, Control and C quits, and nothing else happens.
pub proof fn control_c_quits(m: AppModel, outside: Option<bool>)
    ensures
        m.on_key(KeyEvent { code: KeyCode::Char('c'), control: true }, outside) == (AppModel {
            should_quit: true,
            ..m
        }),
{
    reveal(AppModel::on_key);
}

/// Turning the mouse on and off again changes nothing.
pub proof fn toggling_the_mouse_twice_changes_nothing(m: AppModel, outside: Option<bool>)
    ensures
        ({
            let f12 = KeyEvent { code: KeyCode::F(12), control: false };
            m.on_key(f12, outside).on_key(f12, outside) == m
        }),
{
    reveal(AppModel::on_key);
}

/// Leaving a screen keeps it as it was left: the menu shows, and every open
/// screen is still open when it is entered again.
pub proof fn screens_stay_open(m: AppModel, screen: Screen)
    ensures
        m.back(true).screen == Screen::Home,
        m.easyssh is Some ==> m.back(true).entered(screen).easyssh == m.easyssh,
        m.back(true).entered(screen).cloudflare == m.cloudflare,
        m.back(true).entered(screen).clickhouse == m.clickhouse,
        m.back(true).entered(screen).logs == m.logs,
        m.back(true).entered(screen).kerneltune == m.kerneltune,
{
}

/// A second press is swallowed exactly if it hits the same cell less than
/// [`CLICK_DEBOUNCE`] milliseconds after the first.
pub proof fn repeated_presses_are_one_click(m: AppModel, one: MouseEvent, two: MouseEvent, t1: u64, t2: u64)
    requires
        one.kind == MouseKind::LeftDown,
        two.kind == MouseKind::LeftDown,
        t1 <= t2,
    ensures
        m.pressed(one, t1).swallows(two, t2) <==> {
            &&& one.column == two.column
            &&& one.row == two.row
            &&& t2 - t1 < CLICK_DEBOUNCE
        },
{
}

/// Only the menu quits on a plain key.
pub proof fn only_the_menu_quits(m: AppModel, key: KeyEvent, outside: Option<bool>)
    requires
        !m.should_quit,
        !key.chord('c'),
        m.screen != Screen::Home,
    ensures
        !m.on_key(key, outside).should_quit,
{
    reveal(AppModel::on_key);
}

} // verus!
