//! The tab on which a screen's target is chosen: this machine, or a remote
//! host over SSH.
use vstd::prelude::*;

use crate::cycle::{next_of, prev_of, Field};
use crate::cycle;
use crate::event::{KeyCode, MouseEvent};
use crate::file_picker::{Activation, ActivationModel, FilePicker, FilePickerModel};
use crate::file_picker;
use crate::form::{field_row_hit, line_constraints, Row};
use crate::form;
use crate::geometry::{split_rows, Constraint, Rect};
use crate::geometry;
use crate::host_picker::{HostPicker, HostPickerModel, PickerStep};
use crate::host_picker;
use crate::model::Copyable;
use crate::mouse;
use crate::servers::{Server, ServerModel};
use crate::text;
use crate::widgets::{Input, InputModel};

verus! {

#[derive(Clone, Copy, PartialEq, Eq, Structural, Debug)]
pub enum TargetField {
    Mode,
    SshHost,
    SshPort,
    SshUser,
    SshKeyPath,
    SshPassword,
    BtnConnect,
}

impl Field for TargetField {
    fn same(self, other: Self) -> (r: bool) {
        self == other
    }
}

/// The fields in the order of the focus.
pub open spec fn target_fields(is_remote: bool) -> Seq<TargetField> {
    if is_remote {
        seq![
            TargetField::Mode,
            TargetField::SshHost,
            TargetField::SshPort,
            TargetField::SshUser,
            TargetField::SshKeyPath,
            TargetField::SshPassword,
            TargetField::BtnConnect,
        ]
    } else {
        seq![TargetField::Mode, TargetField::BtnConnect]
    }
}

pub fn target_active_fields(is_remote: bool) -> (r: Vec<TargetField>)
    ensures
        r@ == target_fields(is_remote),
        r@.len() > 0,
{
    let r = if is_remote {
        vec![
            TargetField::Mode,
            TargetField::SshHost,
            TargetField::SshPort,
            TargetField::SshUser,
            TargetField::SshKeyPath,
            TargetField::SshPassword,
            TargetField::BtnConnect,
        ]
    } else {
        vec![TargetField::Mode, TargetField::BtnConnect]
    };
    assert(r@ =~= target_fields(is_remote));
    r
}

/// The lines of the form, which is drawn from them and hit-tested by them.
pub open spec fn target_form(is_remote: bool) -> Seq<Row<TargetField>> {
    if is_remote {
        seq![
            Row::Gap,
            Row::Gap,
            Row::Field(TargetField::SshHost),
            Row::Gap,
            Row::Field(TargetField::SshPort),
            Row::Gap,
            Row::Field(TargetField::SshUser),
            Row::Gap,
            Row::Field(TargetField::SshKeyPath),
            Row::Gap,
            Row::Field(TargetField::SshPassword),
            Row::Gap,
            Row::Buttons,
            Row::Gap,
            Row::Help,
        ]
    } else {
        seq![Row::Gap, Row::Gap, Row::Buttons, Row::Gap, Row::Help]
    }
}

pub fn target_form_lines(is_remote: bool) -> (r: Vec<Row<TargetField>>)
    ensures
        r@ == target_form(is_remote),
{
    let r = if is_remote {
        vec![
            Row::Gap,
            Row::Gap,
            Row::Field(TargetField::SshHost),
            Row::Gap,
            Row::Field(TargetField::SshPort),
            Row::Gap,
            Row::Field(TargetField::SshUser),
            Row::Gap,
            Row::Field(TargetField::SshKeyPath),
            Row::Gap,
            Row::Field(TargetField::SshPassword),
            Row::Gap,
            Row::Buttons,
            Row::Gap,
            Row::Help,
        ]
    } else {
        vec![Row::Gap, Row::Gap, Row::Buttons, Row::Gap, Row::Help]
    };
    assert(r@ =~= target_form(is_remote));
    r
}

/// The line of the form that holds the button.
pub open spec fn connect_row(is_remote: bool) -> int {
    if is_remote {
        12
    } else {
        2
    }
}

/// Splits the inside of the form into its lines.
pub fn target_form_rows(form_inner: Rect, is_remote: bool) -> (r: Vec<Rect>)
    ensures
        geometry::stacked(form_inner, 1, form::lines(target_form(is_remote).len()), r@),
        r@.len() == target_form(is_remote).len() + 1,
{
    let n: usize = if is_remote {
        15
    } else {
        5
    };
    split_rows(form_inner, 1, &line_constraints(n))
}

/// Where commands run.
pub enum Target {
    Local,
    Remote { host: String, port: String, user: String, key_path: String, password: String },
}

pub enum TargetModel {
    Local,
    Remote { host: Seq<char>, port: Seq<char>, user: Seq<char>, key_path: Seq<char>, password: Seq<char> },
}

impl View for Target {
    type V = TargetModel;

    open spec fn view(&self) -> TargetModel {
        match self {
            Target::Local => TargetModel::Local,
            Target::Remote { host, port, user, key_path, password } => TargetModel::Remote { host: host@, port: port@, user: user@, key_path: key_path@, password: password@ },
        }
    }
}

impl DeepView for Target {
    type V = TargetModel;

    open spec fn deep_view(&self) -> TargetModel {
        self@
    }
}

impl Copyable for Target {
    fn copy(&self) -> (r: Self) {
        match self {
            Target::Local => Target::Local,
            Target::Remote { host, port, user, key_path, password } => Target::Remote { host: host.clone(), port: port.clone(), user: user.clone(), key_path: key_path.clone(), password: password.clone() },
        }
    }
}

pub struct TargetTab {
    pub is_remote: bool,
    pub ssh_host: Input,
    pub ssh_port: Input,
    pub ssh_user: Input,
    pub ssh_key_path: Input,
    pub ssh_password: Input,
    pub field: TargetField,
    pub host_picker: Option<HostPicker>,
    pub key_picker: Option<FilePicker>,
    pub connecting: bool,
}

pub struct TargetTabModel {
    pub is_remote: bool,
    pub ssh_host: InputModel,
    pub ssh_port: InputModel,
    pub ssh_user: InputModel,
    pub ssh_key_path: InputModel,
    pub ssh_password: InputModel,
    pub field: TargetField,
    pub host_picker: Option<HostPickerModel>,
    pub key_picker: Option<FilePickerModel>,
    pub connecting: bool,
}

impl View for TargetTab {
    type V = TargetTabModel;

    open spec fn view(&self) -> TargetTabModel {
        TargetTabModel {
            is_remote: self.is_remote,
            ssh_host: self.ssh_host@,
            ssh_port: self.ssh_port@,
            ssh_user: self.ssh_user@,
            ssh_key_path: self.ssh_key_path@,
            ssh_password: self.ssh_password@,
            field: self.field,
            host_picker: self.host_picker.deep_view(),
            key_picker: self.key_picker.deep_view(),
            connecting: self.connecting,
        }
    }
}

impl DeepView for TargetTab {
    type V = TargetTabModel;

    open spec fn deep_view(&self) -> TargetTabModel {
        self@
    }
}

/// What the screen has to do after an event on the tab.
pub enum TargetAction {
    Nothing,
    ListHosts,
    BrowseKey(String),
    ReadDir(String),
    Connect,
    /// The mode was turned by a key.
    ModeTurned,
    /// The mode was picked by a click.
    ModePicked,
    ScrollHistory(bool),
}

pub enum TargetActionModel {
    Nothing,
    ListHosts,
    BrowseKey(Seq<char>),
    ReadDir(Seq<char>),
    Connect,
    ModeTurned,
    ModePicked,
    ScrollHistory(bool),
}

impl View for TargetAction {
    type V = TargetActionModel;

    open spec fn view(&self) -> TargetActionModel {
        match self {
            TargetAction::Nothing => TargetActionModel::Nothing,
            TargetAction::ListHosts => TargetActionModel::ListHosts,
            TargetAction::BrowseKey(a) => TargetActionModel::BrowseKey(a@),
            TargetAction::ReadDir(a) => TargetActionModel::ReadDir(a@),
            TargetAction::Connect => TargetActionModel::Connect,
            TargetAction::ModeTurned => TargetActionModel::ModeTurned,
            TargetAction::ModePicked => TargetActionModel::ModePicked,
            TargetAction::ScrollHistory(a) => TargetActionModel::ScrollHistory(*a),
        }
    }
}

impl DeepView for TargetAction {
    type V = TargetActionModel;

    open spec fn deep_view(&self) -> TargetActionModel {
        self@
    }
}

/// The rectangles that the tab is drawn into: the form, the panel below it
/// and the history; the lines of the form; and the pickers on the panel.
pub struct TargetLayout {
    pub tab: Vec<Rect>,
    pub form: Vec<Rect>,
    pub hosts: Vec<Rect>,
    pub keys: Vec<Rect>,
}

pub struct TargetLayoutModel {
    pub tab: Seq<Rect>,
    pub form: Seq<Rect>,
    pub hosts: Seq<Rect>,
    pub keys: Seq<Rect>,
}

impl View for TargetLayout {
    type V = TargetLayoutModel;

    open spec fn view(&self) -> TargetLayoutModel {
        TargetLayoutModel {
            tab: self.tab@,
            form: self.form@,
            hosts: self.hosts@,
            keys: self.keys@,
        }
    }
}

impl DeepView for TargetLayout {
    type V = TargetLayoutModel;

    open spec fn deep_view(&self) -> TargetLayoutModel {
        self@
    }
}

pub open spec fn target_rows(is_remote: bool) -> Seq<Constraint> {
    seq![
        Constraint::Length(
            if is_remote {
                20
            } else {
                10
            },
        ),
        Constraint::Min(3),
        Constraint::Length(8),
    ]
}

pub open spec fn mode_labels() -> Seq<Seq<char>> {
    seq!["Local"@, "Remote"@]
}

/// The mode that a click on the first line of the form lands on. The modes
/// stand behind a label six columns wide.
pub open spec fn mode_hit(x: u16, y: u16, row: Rect) -> Option<usize> {
    if x < 6 {
        None
    } else {
        mouse::label_hit((x - 6) as u16, y, row, mode_labels())
    }
}

/// The mode that a click on the first line of the form lands on.
pub fn mode_row_hit(x: u16, y: u16, row: Rect) -> (r: Option<usize>)
    ensures
        r == mode_hit(x, y, row),
{
    let labels = ["Local", "Remote"];
    assert(labels.deep_view() =~= mode_labels());
    if x < 6 {
        None
    } else {
        mouse::label_row_hit(x - 6, y, row, &labels)
    }
}

impl TargetLayoutModel {
    /// Whether the rectangles are those of the tab on `area`.
    pub open spec fn of(self, area: Rect, is_remote: bool) -> bool {
        &&& geometry::stacked(area, 0, target_rows(is_remote), self.tab)
        &&& geometry::stacked(mouse::inner(self.tab[0]), 1, form::lines(target_form(is_remote).len()), self.form)
        &&& geometry::stacked(
            mouse::inner(host_picker::picker_area(self.tab[1])),
            1,
            host_picker::picker_rows(),
            self.hosts,
        )
        &&& geometry::stacked(
            mouse::inner(file_picker::picker_area(self.tab[1])),
            1,
            file_picker::picker_rows(),
            self.keys,
        )
    }

    pub open spec fn complete(self, is_remote: bool) -> bool {
        &&& self.tab.len() == 3
        &&& self.form.len() == target_form(is_remote).len() + 1
        &&& self.hosts.len() == 4
        &&& self.keys.len() == 2
    }
}

impl TargetTabModel {
    pub open spec fn empty() -> TargetTabModel {
        TargetTabModel {
            is_remote: false,
            ssh_host: InputModel::empty(),
            ssh_port: InputModel::of("22"@),
            ssh_user: InputModel::empty(),
            ssh_key_path: InputModel::empty(),
            ssh_password: InputModel::empty(),
            field: TargetField::Mode,
            host_picker: None,
            key_picker: None,
            connecting: false,
        }
    }

    pub open spec fn focus(self, field: TargetField) -> TargetTabModel {
        TargetTabModel { field, ..self }
    }

    pub open spec fn next_field(self) -> TargetTabModel {
        self.focus(cycle::after(target_fields(self.is_remote), self.field))
    }

    pub open spec fn prev_field(self) -> TargetTabModel {
        self.focus(cycle::before(target_fields(self.is_remote), self.field))
    }

    pub open spec fn picking(self) -> bool {
        self.host_picker is Some || self.key_picker is Some
    }

    /// The form filled from a known host; what the host leaves open stays.
    pub open spec fn filled_from(self, s: ServerModel) -> TargetTabModel {
        TargetTabModel {
            ssh_host: InputModel::of(s.effective_host()),
            ssh_port: if s.port != 0 {
                InputModel::of(text::decimal(s.port as nat))
            } else {
                self.ssh_port
            },
            ssh_user: if s.user.len() > 0 {
                InputModel::of(s.user)
            } else {
                self.ssh_user
            },
            ssh_key_path: if s.identity_files.len() > 0 {
                InputModel::of(s.identity_files[0])
            } else {
                self.ssh_key_path
            },
            ssh_password: if s.ssh_password.len() > 0 {
                InputModel::of(s.ssh_password)
            } else {
                self.ssh_password
            },
            ..self
        }
    }

    /// The target that the form describes.
    pub open spec fn target(self) -> TargetModel {
        if self.is_remote {
            TargetModel::Remote {
                host: text::trimmed(self.ssh_host.text),
                port: text::trimmed(self.ssh_port.text),
                user: text::trimmed(self.ssh_user.text),
                key_path: text::trimmed(self.ssh_key_path.text),
                password: self.ssh_password.text,
            }
        } else {
            TargetModel::Local
        }
    }

    /// Whether a host is missing.
    pub open spec fn needs_host(self) -> bool {
        self.is_remote && text::trimmed(self.ssh_host.text).len() == 0
    }

    pub open spec fn edit(self, key: KeyCode) -> TargetTabModel {
        match self.field {
            TargetField::SshHost => TargetTabModel { ssh_host: self.ssh_host.edit(key), ..self },
            TargetField::SshPort => TargetTabModel { ssh_port: self.ssh_port.edit(key), ..self },
            TargetField::SshUser => TargetTabModel { ssh_user: self.ssh_user.edit(key), ..self },
            TargetField::SshKeyPath => TargetTabModel { ssh_key_path: self.ssh_key_path.edit(key), ..self },
            TargetField::SshPassword => TargetTabModel { ssh_password: self.ssh_password.edit(key), ..self },
            _ => self,
        }
    }

    /// After a step of the open key picker.
    pub open spec fn key_step(self, p: FilePickerModel, step: PickerStep) -> (TargetTabModel, TargetActionModel) {
        match step {
            PickerStep::Stay => (TargetTabModel { key_picker: Some(p), ..self }, TargetActionModel::Nothing),
            PickerStep::Close => (TargetTabModel { key_picker: None, ..self }, TargetActionModel::Nothing),
            PickerStep::Pick => match p.activated() {
                ActivationModel::Picked(path) => (
                    TargetTabModel { key_picker: None, ssh_key_path: InputModel::of(path), ..self },
                    TargetActionModel::Nothing,
                ),
                ActivationModel::Open(path) => (
                    TargetTabModel { key_picker: Some(p), ..self },
                    TargetActionModel::ReadDir(path),
                ),
                ActivationModel::Nothing => (
                    TargetTabModel { key_picker: Some(p), ..self },
                    TargetActionModel::Nothing,
                ),
            },
        }
    }

    /// After a step of the open host picker.
    pub open spec fn host_step(self, p: HostPickerModel, step: PickerStep) -> TargetTabModel {
        match step {
            PickerStep::Stay => TargetTabModel { host_picker: Some(p), ..self },
            PickerStep::Close => TargetTabModel { host_picker: None, ..self },
            PickerStep::Pick => match p.picked() {
                Some(s) => TargetTabModel { host_picker: None, ..self.filled_from(s) },
                None => TargetTabModel { host_picker: Some(p), ..self },
            },
        }
    }

    pub open spec fn entered(self) -> (TargetTabModel, TargetActionModel) {
        match self.field {
            TargetField::SshHost => (self, TargetActionModel::ListHosts),
            TargetField::SshKeyPath => (self, TargetActionModel::BrowseKey(self.ssh_key_path.text)),
            TargetField::BtnConnect => (self, TargetActionModel::Connect),
            _ => (self.next_field(), TargetActionModel::Nothing),
        }
    }

    /// The keys of the form, with no picker open.
    pub open spec fn on_form_key(self, key: KeyCode) -> (TargetTabModel, TargetActionModel) {
        if self.field == TargetField::Mode && (key == KeyCode::Left || key == KeyCode::Right || key
            == KeyCode::Enter) {
            (TargetTabModel { is_remote: !self.is_remote, ..self }, TargetActionModel::ModeTurned)
        } else {
            match key {
                KeyCode::Tab | KeyCode::Down => (self.next_field(), TargetActionModel::Nothing),
                KeyCode::BackTab | KeyCode::Up => (self.prev_field(), TargetActionModel::Nothing),
                KeyCode::Enter => self.entered(),
                _ => (self.edit(key), TargetActionModel::Nothing),
            }
        }
    }

    /// The tab after a key.
    pub open spec fn on_key(self, key: KeyCode) -> (TargetTabModel, TargetActionModel) {
        match (self.key_picker, self.host_picker) {
            (Some(p), _) => self.key_step(p.on_key(key).0, p.on_key(key).1),
            (None, Some(p)) => (self.host_step(p.on_key(key).0, p.on_key(key).1), TargetActionModel::Nothing),
            (None, None) => self.on_form_key(key),
        }
    }

    /// A click on a field: the host and the key open their pickers.
    pub open spec fn field_clicked(self, f: TargetField) -> (TargetTabModel, TargetActionModel) {
        match f {
            TargetField::SshHost => (self, TargetActionModel::ListHosts),
            TargetField::SshKeyPath => (self, TargetActionModel::BrowseKey(self.ssh_key_path.text)),
            _ => (self.focus(f), TargetActionModel::Nothing),
        }
    }

    pub open spec fn clicked(self, x: u16, y: u16, l: TargetLayoutModel) -> (TargetTabModel, TargetActionModel) {
        match mode_hit(x, y, l.form[0]) {
            Some(i) => (TargetTabModel { is_remote: i == 1, ..self }, TargetActionModel::ModePicked),
            None => if mouse::button_hit(x, y, l.form[connect_row(self.is_remote)], seq!["Connect"@]) is Some {
                (self, TargetActionModel::Connect)
            } else {
                match form::field_hit(l.form, target_form(self.is_remote), x, y) {
                    Some(f) => self.field_clicked(f),
                    None => (self, TargetActionModel::Nothing),
                }
            },
        }
    }

    /// The tab after a mouse event.
    pub open spec fn on_mouse(self, me: MouseEvent, l: TargetLayoutModel) -> (TargetTabModel, TargetActionModel) {
        match (self.host_picker, self.key_picker) {
            (Some(p), _) => (
                self.host_step(p.on_mouse(me, l.hosts[2]).0, p.on_mouse(me, l.hosts[2]).1),
                TargetActionModel::Nothing,
            ),
            (None, Some(p)) => self.key_step(p.on_mouse(me, l.keys[0]).0, p.on_mouse(me, l.keys[0]).1),
            (None, None) => match mouse::scrolled(me) {
                Some(d) => (
                    self,
                    if mouse::hits(l.tab[2], me.column, me.row) {
                        TargetActionModel::ScrollHistory(d < 0)
                    } else {
                        TargetActionModel::Nothing
                    },
                ),
                None => match mouse::clicked(me) {
                    Some((x, y)) => self.clicked(x, y, l),
                    None => (self, TargetActionModel::Nothing),
                },
            },
        }
    }
}

impl TargetTab {
    pub fn new() -> (r: TargetTab)
        ensures
            r@ == TargetTabModel::empty(),
    {
        TargetTab {
            is_remote: false,
            ssh_host: Input::default(),
            ssh_port: Input::new("22"),
            ssh_user: Input::default(),
            ssh_key_path: Input::default(),
            ssh_password: Input::default(),
            field: TargetField::Mode,
            host_picker: None,
            key_picker: None,
            connecting: false,
        }
    }

    pub fn next_field(&mut self)
        ensures
            final(self)@ == old(self)@.next_field(),
    {
        let fields = target_active_fields(self.is_remote);
        self.field = next_of(&fields, self.field);
    }

    pub fn prev_field(&mut self)
        ensures
            final(self)@ == old(self)@.prev_field(),
    {
        let fields = target_active_fields(self.is_remote);
        self.field = prev_of(&fields, self.field);
    }

    pub fn is_picking(&self) -> (r: bool)
        ensures
            r == self@.picking(),
    {
        self.host_picker.is_some() || self.key_picker.is_some()
    }

    pub fn fill_from_host(&mut self, server: &Server)
        ensures
            final(self)@ == old(self)@.filled_from(server@),
    {
        self.ssh_host = Input::new(server.effective_host());
        if server.port != 0 {
            let p = text::number(server.port as u64);
            self.ssh_port = Input::new(p.as_str());
        }
        if !server.user.as_str().is_empty() {
            self.ssh_user = Input::new(server.user.as_str());
        }
        if server.identity_files.len() > 0 {
            assert(server@.identity_files[0] == server.identity_files@[0]@);
            self.ssh_key_path = Input::new(server.identity_files[0].as_str());
        }
        if !server.ssh_password.as_str().is_empty() {
            self.ssh_password = Input::new(server.ssh_password.as_str());
        }
    }

    /// The target that the form describes.
    pub fn as_target(&self) -> (r: Target)
        ensures
            r@ == self@.target(),
    {
        if self.is_remote {
            Target::Remote {
                host: self.ssh_host.trimmed(),
                port: self.ssh_port.trimmed(),
                user: self.ssh_user.trimmed(),
                key_path: self.ssh_key_path.trimmed(),
                password: self.ssh_password.value(),
            }
        } else {
            Target::Local
        }
    }

    pub fn lacks_host(&self) -> (r: bool)
        ensures
            r == self@.needs_host(),
    {
        self.is_remote && self.ssh_host.trimmed().as_str().is_empty()
    }

    fn edit(&mut self, key: KeyCode)
        ensures
            final(self)@ == old(self)@.edit(key),
    {
        match self.field {
            TargetField::SshHost => self.ssh_host.edit(key),
            TargetField::SshPort => self.ssh_port.edit(key),
            TargetField::SshUser => self.ssh_user.edit(key),
            TargetField::SshKeyPath => self.ssh_key_path.edit(key),
            TargetField::SshPassword => self.ssh_password.edit(key),
            _ => {},
        }
    }

    fn step_key_picker(&mut self, step: PickerStep) -> (r: TargetAction)
        requires
            old(self)@.key_picker is Some,
        ensures
            (final(self)@, r@) == old(self)@.key_step(old(self)@.key_picker->0, step),
    {
        match step {
            PickerStep::Stay => {},
            PickerStep::Close => self.key_picker = None,
            PickerStep::Pick => {
                let picked = match &self.key_picker {
                    Some(p) => p.activate(),
                    None => Activation::Nothing,
                };
                match picked {
                    Activation::Picked(path) => {
                        self.ssh_key_path = Input::new(path.as_str());
                        self.key_picker = None;
                    },
                    Activation::Open(path) => return TargetAction::ReadDir(path),
                    Activation::Nothing => {},
                }
            },
        }
        TargetAction::Nothing
    }

    fn step_host_picker(&mut self, step: PickerStep)
        requires
            old(self)@.host_picker is Some,
        ensures
            final(self)@ == old(self)@.host_step(old(self)@.host_picker->0, step),
    {
        match step {
            PickerStep::Stay => {},
            PickerStep::Close => self.host_picker = None,
            PickerStep::Pick => {
                let picked = match &self.host_picker {
                    Some(p) => p.activate(),
                    None => None,
                };
                if let Some(server) = picked {
                    self.fill_from_host(&server);
                    self.host_picker = None;
                }
            },
        }
    }

    fn enter(&mut self) -> (r: TargetAction)
        ensures
            (final(self)@, r@) == old(self)@.entered(),
    {
        match self.field {
            TargetField::SshHost => return TargetAction::ListHosts,
            TargetField::SshKeyPath => return TargetAction::BrowseKey(self.ssh_key_path.value()),
            TargetField::BtnConnect => return TargetAction::Connect,
            _ => self.next_field(),
        }
        TargetAction::Nothing
    }

    fn handle_form_key(&mut self, key: KeyCode) -> (r: TargetAction)
        ensures
            (final(self)@, r@) == old(self)@.on_form_key(key),
    {
        if self.field == TargetField::Mode && (key == KeyCode::Left || key == KeyCode::Right || key
            == KeyCode::Enter) {
            self.is_remote = !self.is_remote;
            return TargetAction::ModeTurned;
        }
        match key {
            KeyCode::Tab | KeyCode::Down => self.next_field(),
            KeyCode::BackTab | KeyCode::Up => self.prev_field(),
            KeyCode::Enter => return self.enter(),
            _ => self.edit(key),
        }
        TargetAction::Nothing
    }

    pub fn handle_key(&mut self, key: KeyCode) -> (r: TargetAction)
        ensures
            (final(self)@, r@) == old(self)@.on_key(key),
    {
        let mut step: Option<PickerStep> = None;
        if let Some(p) = &mut self.key_picker {
            step = Some(p.handle_key(key));
        }
        if let Some(st) = step {
            return self.step_key_picker(st);
        }
        let mut step: Option<PickerStep> = None;
        if let Some(p) = &mut self.host_picker {
            step = Some(p.handle_key(key));
        }
        if let Some(st) = step {
            self.step_host_picker(st);
            return TargetAction::Nothing;
        }
        self.handle_form_key(key)
    }

    fn click(&mut self, x: u16, y: u16, l: &TargetLayout) -> (r: TargetAction)
        requires
            l@.complete(old(self)@.is_remote),
        ensures
            (final(self)@, r@) == old(self)@.clicked(x, y, l@),
    {
        if let Some(i) = mode_row_hit(x, y, l.form[0]) {
            self.is_remote = i == 1;
            return TargetAction::ModePicked;
        }
        let button: usize = if self.is_remote {
            12
        } else {
            2
        };
        let labels = ["Connect"];
        assert(labels.deep_view() =~= seq!["Connect"@]);
        if mouse::button_row_hit(x, y, l.form[button], &labels).is_some() {
            return TargetAction::Connect;
        }
        let lines = target_form_lines(self.is_remote);
        if let Some(f) = field_row_hit(&l.form, &lines, x, y) {
            match f {
                TargetField::SshHost => return TargetAction::ListHosts,
                TargetField::SshKeyPath => return TargetAction::BrowseKey(self.ssh_key_path.value()),
                _ => self.field = f,
            }
        }
        TargetAction::Nothing
    }

    pub fn handle_mouse(&mut self, me: &MouseEvent, l: &TargetLayout) -> (r: TargetAction)
        requires
            l@.complete(old(self)@.is_remote),
        ensures
            (final(self)@, r@) == old(self)@.on_mouse(*me, l@),
    {
        let mut step: Option<PickerStep> = None;
        if let Some(p) = &mut self.host_picker {
            step = Some(p.handle_mouse(me, l.hosts[2]));
        }
        if let Some(st) = step {
            self.step_host_picker(st);
            return TargetAction::Nothing;
        }
        let mut step: Option<PickerStep> = None;
        if let Some(p) = &mut self.key_picker {
            step = Some(p.handle_mouse(me, l.keys[0]));
        }
        if let Some(st) = step {
            return self.step_key_picker(st);
        }
        if let Some(delta) = mouse::scroll_delta(me) {
            if mouse::in_rect(l.tab[2], me.column, me.row) {
                return TargetAction::ScrollHistory(delta < 0);
            }
            return TargetAction::Nothing;
        }
        match mouse::left_click(me) {
            Some((x, y)) => self.click(x, y, l),
            None => TargetAction::Nothing,
        }
    }

    /// The rectangles that the tab is drawn into.
    pub fn layout(&self, area: Rect) -> (l: TargetLayout)
        ensures
            l@.of(area, self@.is_remote),
            l@.complete(self@.is_remote),
    {
        let height: u16 = if self.is_remote {
            20
        } else {
            10
        };
        let cs = vec![Constraint::Length(height), Constraint::Min(3), Constraint::Length(8)];
        assert(cs@ =~= target_rows(self.is_remote));
        let tab = split_rows(area, 0, &cs);
        let form = target_form_rows(mouse::block_inner(tab[0]), self.is_remote);
        let hosts = HostPicker::rows(tab[1]);
        let keys = FilePicker::rows(tab[1]);
        TargetLayout { tab, form, hosts, keys }
    }
}

// -------------------------------------------------------------------- laws

/// Going to the next field and back, or back and to the next, ends where it
/// started, in either mode.
pub proof fn target_fields_cycle(is_remote: bool, f: TargetField)
    requires
        target_fields(is_remote).contains(f),
    ensures
        cycle::before(target_fields(is_remote), cycle::after(target_fields(is_remote), f)) == f,
        cycle::after(target_fields(is_remote), cycle::before(target_fields(is_remote), f)) == f,
{
    let s = target_fields(is_remote);
    assert(s.no_duplicates());
    cycle::before_undoes_after(s, f);
}

/// A known host never empties what it does not set: the port, user, key and
/// password of the form stay where the host has none.
pub proof fn filling_keeps_what_the_host_leaves_open(t: TargetTabModel, s: ServerModel)
    ensures
        s.port == 0 ==> t.filled_from(s).ssh_port == t.ssh_port,
        s.user.len() == 0 ==> t.filled_from(s).ssh_user == t.ssh_user,
        s.identity_files.len() == 0 ==> t.filled_from(s).ssh_key_path == t.ssh_key_path,
        s.ssh_password.len() == 0 ==> t.filled_from(s).ssh_password == t.ssh_password,
        t.filled_from(s).is_remote == t.is_remote,
{
}

} // verus!
