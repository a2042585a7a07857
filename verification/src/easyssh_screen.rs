//! SSH Server Manager: the hosts of `~/.ssh/config` browsed, searched,
//! ordered, grouped by tag, added, edited and deleted; connecting, pinging
//! and background port forwarding on a keypress.
use vstd::prelude::*;

use crate::event::{KeyCode, KeyEvent, MouseEvent};
use crate::file_picker::{Activation, ActivationModel, FilePicker, FilePickerModel, Listing, ListingModel};
use crate::form::line_constraints;
use crate::form;
use crate::geometry::{modal_area, split_rows, Constraint, Rect};
use crate::geometry;
use crate::host_picker::PickerStep;
use crate::interactive::{PendingAction, PendingActionModel, SessionEnd, SessionEndModel};
use crate::log::{is_history_scroll, Log, LogModel};
use crate::log;
use crate::model::{append_to, Copyable};
use crate::mouse;
use crate::server_list::{
    distinct_tags, extra_to_text, is_in_group, matches_query, parse_advanced, parse_csv, sort_servers, SortMode,
};
use crate::server_list;
use crate::servers::{Server, ServerModel};
use crate::sort;
use crate::cycle;
use crate::text;
use crate::widgets::{Input, InputModel};

verus! {

#[derive(Clone, Copy, PartialEq, Eq, Structural, Debug)]
pub enum Tab {
    Servers,
    Tags,
}

#[derive(Clone, Copy, PartialEq, Eq, Structural, Debug)]
pub enum Focus {
    List,
    Search,
}

#[derive(Clone, Copy, PartialEq, Eq, Structural, Debug)]
pub enum TagsView {
    List,
    Filtered,
}

// --------------------------------------------------------------- server form

#[derive(Clone, Copy, PartialEq, Eq, Structural, Debug)]
pub enum EditField {
    Alias,
    Host,
    User,
    Port,
    SshPassword,
    IdentityFiles,
    ProxyJump,
    LocalForward,
    ForwardAgent,
    Tags,
    Advanced,
    BtnSave,
    BtnCancel,
}

impl EditField {
    pub open spec fn next(self) -> EditField {
        match self {
            EditField::Alias => EditField::Host,
            EditField::Host => EditField::User,
            EditField::User => EditField::Port,
            EditField::Port => EditField::SshPassword,
            EditField::SshPassword => EditField::IdentityFiles,
            EditField::IdentityFiles => EditField::ProxyJump,
            EditField::ProxyJump => EditField::LocalForward,
            EditField::LocalForward => EditField::ForwardAgent,
            EditField::ForwardAgent => EditField::Tags,
            EditField::Tags => EditField::Advanced,
            EditField::Advanced => EditField::BtnSave,
            EditField::BtnSave => EditField::BtnCancel,
            EditField::BtnCancel => EditField::Alias,
        }
    }

    pub open spec fn prev(self) -> EditField {
        match self {
            EditField::Alias => EditField::BtnCancel,
            EditField::Host => EditField::Alias,
            EditField::User => EditField::Host,
            EditField::Port => EditField::User,
            EditField::SshPassword => EditField::Port,
            EditField::IdentityFiles => EditField::SshPassword,
            EditField::ProxyJump => EditField::IdentityFiles,
            EditField::LocalForward => EditField::ProxyJump,
            EditField::ForwardAgent => EditField::LocalForward,
            EditField::Tags => EditField::ForwardAgent,
            EditField::Advanced => EditField::Tags,
            EditField::BtnSave => EditField::Advanced,
            EditField::BtnCancel => EditField::BtnSave,
        }
    }
}

/// Whether the agent is forwarded: the directive, or none.
#[derive(Clone, Copy, PartialEq, Eq, Structural, Debug)]
pub enum ForwardAgent {
    Unset,
    Yes,
    No,
}

impl ForwardAgent {
    pub open spec fn next(self) -> ForwardAgent {
        match self {
            ForwardAgent::Unset => ForwardAgent::Yes,
            ForwardAgent::Yes => ForwardAgent::No,
            ForwardAgent::No => ForwardAgent::Unset,
        }
    }

    pub open spec fn prev(self) -> ForwardAgent {
        match self {
            ForwardAgent::Unset => ForwardAgent::No,
            ForwardAgent::Yes => ForwardAgent::Unset,
            ForwardAgent::No => ForwardAgent::Yes,
        }
    }

    /// The value of the directive.
    pub open spec fn text(self) -> Seq<char> {
        match self {
            ForwardAgent::Unset => ""@,
            ForwardAgent::Yes => "yes"@,
            ForwardAgent::No => "no"@,
        }
    }

    /// What a value of the directive means, in any case.
    pub open spec fn of(s: Seq<char>) -> ForwardAgent {
        if text::lowercase(s) == "yes"@ {
            ForwardAgent::Yes
        } else if text::lowercase(s) == "no"@ {
            ForwardAgent::No
        } else {
            ForwardAgent::Unset
        }
    }

    /// What the form shows.
    pub open spec fn shown(self) -> Seq<char> {
        match self {
            ForwardAgent::Unset => "(unset)"@,
            ForwardAgent::Yes => "Yes"@,
            ForwardAgent::No => "No"@,
        }
    }

    pub fn turned(self, back: bool) -> (r: ForwardAgent)
        ensures
            r == if back {
                self.prev()
            } else {
                self.next()
            },
    {
        match (self, back) {
            (ForwardAgent::Unset, false) => ForwardAgent::Yes,
            (ForwardAgent::Yes, false) => ForwardAgent::No,
            (ForwardAgent::No, false) => ForwardAgent::Unset,
            (ForwardAgent::Unset, true) => ForwardAgent::No,
            (ForwardAgent::Yes, true) => ForwardAgent::Unset,
            (ForwardAgent::No, true) => ForwardAgent::Yes,
        }
    }

    pub fn value(self) -> (r: &'static str)
        ensures
            r@ == self.text(),
    {
        match self {
            ForwardAgent::Unset => "",
            ForwardAgent::Yes => "yes",
            ForwardAgent::No => "no",
        }
    }

    pub fn read(s: &str) -> (r: ForwardAgent)
        ensures
            r == ForwardAgent::of(s@),
    {
        let low = s.to_lowercase();
        if text::same(low.as_str(), "yes") {
            ForwardAgent::Yes
        } else if text::same(low.as_str(), "no") {
            ForwardAgent::No
        } else {
            ForwardAgent::Unset
        }
    }

    pub fn label(self) -> (r: &'static str)
        ensures
            r@ == self.shown(),
    {
        match self {
            ForwardAgent::Unset => "(unset)",
            ForwardAgent::Yes => "Yes",
            ForwardAgent::No => "No",
        }
    }
}

pub struct ServerForm {
    /// The server that is edited; an empty one while a new one is made. What
    /// the form does not show passes through from here.
    pub base: Server,
    pub alias: Input,
    pub host: Input,
    pub user: Input,
    pub port: Input,
    /// Left empty it keeps the password that is saved.
    pub ssh_password: Input,
    pub identity_files: Input,
    pub proxy_jump: Input,
    pub local_forward: Input,
    pub forward_agent: ForwardAgent,
    pub tags: Input,
    pub advanced: Input,
    pub field: EditField,
    pub key_picker: Option<FilePicker>,
}

pub struct ServerFormModel {
    pub base: ServerModel,
    pub alias: InputModel,
    pub host: InputModel,
    pub user: InputModel,
    pub port: InputModel,
    pub ssh_password: InputModel,
    pub identity_files: InputModel,
    pub proxy_jump: InputModel,
    pub local_forward: InputModel,
    pub forward_agent: ForwardAgent,
    pub tags: InputModel,
    pub advanced: InputModel,
    pub field: EditField,
    pub key_picker: Option<FilePickerModel>,
}

impl View for ServerForm {
    type V = ServerFormModel;

    open spec fn view(&self) -> ServerFormModel {
        ServerFormModel {
            base: self.base@,
            alias: self.alias@,
            host: self.host@,
            user: self.user@,
            port: self.port@,
            ssh_password: self.ssh_password@,
            identity_files: self.identity_files@,
            proxy_jump: self.proxy_jump@,
            local_forward: self.local_forward@,
            forward_agent: self.forward_agent,
            tags: self.tags@,
            advanced: self.advanced@,
            field: self.field,
            key_picker: self.key_picker.deep_view(),
        }
    }
}

impl DeepView for ServerForm {
    type V = ServerFormModel;

    open spec fn deep_view(&self) -> ServerFormModel {
        self@
    }
}

/// What the screen has to do after a key on the server form.
pub enum FormAction {
    Nothing,
    Close,
    Save,
    /// Open the key picker at what is typed.
    BrowseKey(String),
    ReadDir(String),
}

pub enum FormActionModel {
    Nothing,
    Close,
    Save,
    BrowseKey(Seq<char>),
    ReadDir(Seq<char>),
}

impl View for FormAction {
    type V = FormActionModel;

    open spec fn view(&self) -> FormActionModel {
        match self {
            FormAction::Nothing => FormActionModel::Nothing,
            FormAction::Close => FormActionModel::Close,
            FormAction::Save => FormActionModel::Save,
            FormAction::BrowseKey(a) => FormActionModel::BrowseKey(a@),
            FormAction::ReadDir(a) => FormActionModel::ReadDir(a@),
        }
    }
}

impl DeepView for FormAction {
    type V = FormActionModel;

    open spec fn deep_view(&self) -> FormActionModel {
        self@
    }
}

/// The port that a text means, zero where it means none.
pub open spec fn port_of(s: Seq<char>) -> u16 {
    match text::at_most(text::unsigned_value(text::trimmed(s)), u16::MAX as nat) {
        Some(n) => n as u16,
        None => 0,
    }
}

/// The text of a port, empty where none is set.
pub open spec fn port_text(port: u16) -> Seq<char> {
    if port == 0 {
        Seq::empty()
    } else {
        text::decimal(port as nat)
    }
}

impl ServerFormModel {
    pub open spec fn adding() -> ServerFormModel {
        ServerFormModel {
            base: ServerModel::blank(),
            alias: InputModel::empty(),
            host: InputModel::empty(),
            user: InputModel::empty(),
            port: InputModel::of("22"@),
            ssh_password: InputModel::empty(),
            identity_files: InputModel::empty(),
            proxy_jump: InputModel::empty(),
            local_forward: InputModel::empty(),
            forward_agent: ForwardAgent::Unset,
            tags: InputModel::empty(),
            advanced: InputModel::empty(),
            field: EditField::Alias,
            key_picker: None,
        }
    }

    pub open spec fn editing(s: ServerModel) -> ServerFormModel {
        ServerFormModel {
            base: s,
            alias: InputModel::of(s.alias),
            host: InputModel::of(s.host),
            user: InputModel::of(s.user),
            port: InputModel::of(port_text(s.port)),
            ssh_password: InputModel::empty(),
            identity_files: InputModel::of(text::joined(s.identity_files, ", "@)),
            proxy_jump: InputModel::of(s.proxy_jump),
            local_forward: InputModel::of(text::joined(s.local_forward, ", "@)),
            forward_agent: ForwardAgent::of(s.forward_agent),
            tags: InputModel::of(text::joined(s.tags, ", "@)),
            advanced: InputModel::of(server_list::extra_text(s.extra)),
            field: EditField::Alias,
            key_picker: None,
        }
    }

    pub open spec fn is_add(self) -> bool {
        self.base.alias.len() == 0
    }

    pub open spec fn focus(self, field: EditField) -> ServerFormModel {
        ServerFormModel { field, ..self }
    }

    pub open spec fn with_picker(self, key_picker: Option<FilePickerModel>) -> ServerFormModel {
        ServerFormModel { key_picker, ..self }
    }

    /// The server that the form describes.
    pub open spec fn built(self) -> ServerModel {
        let alias = text::trimmed(self.alias.text);
        ServerModel {
            alias,
            patterns: seq![alias],
            host: text::trimmed(self.host.text),
            user: text::trimmed(self.user.text),
            port: port_of(self.port.text),
            ssh_password: if self.ssh_password.text.len() == 0 {
                self.base.ssh_password
            } else {
                self.ssh_password.text
            },
            identity_files: server_list::csv(self.identity_files.text),
            proxy_jump: text::trimmed(self.proxy_jump.text),
            local_forward: server_list::csv(self.local_forward.text),
            forward_agent: self.forward_agent.text(),
            tags: server_list::csv(self.tags.text),
            extra: server_list::advanced(self.advanced.text),
            ..self.base
        }
    }

    /// A key file added to those that are typed.
    pub open spec fn with_key(self, path: Seq<char>) -> ServerFormModel {
        ServerFormModel {
            identity_files: InputModel::of(
                if text::trimmed(self.identity_files.text).len() == 0 {
                    path
                } else {
                    self.identity_files.text + ", "@ + path
                },
            ),
            ..self
        }
    }

    pub open spec fn edit(self, key: KeyCode) -> ServerFormModel {
        match self.field {
            EditField::Alias => ServerFormModel { alias: self.alias.edit(key), ..self },
            EditField::Host => ServerFormModel { host: self.host.edit(key), ..self },
            EditField::User => ServerFormModel { user: self.user.edit(key), ..self },
            EditField::Port => ServerFormModel { port: self.port.edit(key), ..self },
            EditField::SshPassword => ServerFormModel { ssh_password: self.ssh_password.edit(key), ..self },
            EditField::IdentityFiles => ServerFormModel {
                identity_files: self.identity_files.edit(key),
                ..self
            },
            EditField::ProxyJump => ServerFormModel { proxy_jump: self.proxy_jump.edit(key), ..self },
            EditField::LocalForward => ServerFormModel { local_forward: self.local_forward.edit(key), ..self },
            EditField::Tags => ServerFormModel { tags: self.tags.edit(key), ..self },
            EditField::Advanced => ServerFormModel { advanced: self.advanced.edit(key), ..self },
            _ => self,
        }
    }

    /// Left and Right turn the switch, and move in any other field.
    pub open spec fn turned(self, back: bool, key: KeyCode) -> ServerFormModel {
        if self.field == EditField::ForwardAgent {
            ServerFormModel {
                forward_agent: if back {
                    self.forward_agent.prev()
                } else {
                    self.forward_agent.next()
                },
                ..self
            }
        } else {
            self.edit(key)
        }
    }

    pub open spec fn entered(self) -> (ServerFormModel, FormActionModel) {
        match self.field {
            EditField::IdentityFiles => (self, FormActionModel::BrowseKey(self.identity_files.text)),
            EditField::ForwardAgent => (
                ServerFormModel { forward_agent: self.forward_agent.next(), ..self },
                FormActionModel::Nothing,
            ),
            EditField::BtnSave => (self, FormActionModel::Save),
            EditField::BtnCancel => (self, FormActionModel::Close),
            _ => (self.focus(self.field.next()), FormActionModel::Nothing),
        }
    }

    /// After a step of the open key picker.
    pub open spec fn key_step(self, p: FilePickerModel, step: PickerStep) -> (ServerFormModel, FormActionModel) {
        match step {
            PickerStep::Stay => (self.with_picker(Some(p)), FormActionModel::Nothing),
            PickerStep::Close => (self.with_picker(None), FormActionModel::Nothing),
            PickerStep::Pick => match p.activated() {
                ActivationModel::Picked(path) => (
                    self.with_key(path).with_picker(None),
                    FormActionModel::Nothing,
                ),
                ActivationModel::Open(path) => (self.with_picker(Some(p)), FormActionModel::ReadDir(path)),
                ActivationModel::Nothing => (self.with_picker(Some(p)), FormActionModel::Nothing),
            },
        }
    }

    /// The form after a key.
    pub open spec fn on_key(self, key: KeyCode) -> (ServerFormModel, FormActionModel) {
        match self.key_picker {
            Some(p) => {
                let r = p.on_key(key);
                self.key_step(r.0, r.1)
            },
            None => match key {
                KeyCode::Esc => (self, FormActionModel::Close),
                KeyCode::Tab | KeyCode::Down => (self.focus(self.field.next()), FormActionModel::Nothing),
                KeyCode::BackTab | KeyCode::Up => (self.focus(self.field.prev()), FormActionModel::Nothing),
                KeyCode::Left => (self.turned(true, key), FormActionModel::Nothing),
                KeyCode::Right => (self.turned(false, key), FormActionModel::Nothing),
                KeyCode::Enter => self.entered(),
                _ => (self.edit(key), FormActionModel::Nothing),
            },
        }
    }
}

impl ServerForm {
    pub fn new_add() -> (r: ServerForm)
        ensures
            r@ == ServerFormModel::adding(),
    {
        ServerForm {
            base: Server::default(),
            alias: Input::default(),
            host: Input::default(),
            user: Input::default(),
            port: Input::new("22"),
            ssh_password: Input::default(),
            identity_files: Input::default(),
            proxy_jump: Input::default(),
            local_forward: Input::default(),
            forward_agent: ForwardAgent::Unset,
            tags: Input::default(),
            advanced: Input::default(),
            field: EditField::Alias,
            key_picker: None,
        }
    }

    pub fn new_edit(server: &Server) -> (r: ServerForm)
        ensures
            r@ == ServerFormModel::editing(server@),
    {
        let port = if server.port == 0 {
            String::new()
        } else {
            text::number(server.port as u64)
        };
        let identity_files = text::join(&server.identity_files, ", ");
        let local_forward = text::join(&server.local_forward, ", ");
        let tags = text::join(&server.tags, ", ");
        let advanced = extra_to_text(&server.extra);
        ServerForm {
            base: server.copy(),
            alias: Input::new(server.alias.as_str()),
            host: Input::new(server.host.as_str()),
            user: Input::new(server.user.as_str()),
            port: Input::new(port.as_str()),
            ssh_password: Input::default(),
            identity_files: Input::new(identity_files.as_str()),
            proxy_jump: Input::new(server.proxy_jump.as_str()),
            local_forward: Input::new(local_forward.as_str()),
            forward_agent: ForwardAgent::read(server.forward_agent.as_str()),
            tags: Input::new(tags.as_str()),
            advanced: Input::new(advanced.as_str()),
            field: EditField::Alias,
            key_picker: None,
        }
    }

    pub fn is_add(&self) -> (r: bool)
        ensures
            r == self@.is_add(),
    {
        self.base.alias.as_str().is_empty()
    }

    pub fn next_field(&mut self)
        ensures
            final(self)@ == old(self)@.focus(old(self)@.field.next()),
    {
        self.field = match self.field {
            EditField::Alias => EditField::Host,
            EditField::Host => EditField::User,
            EditField::User => EditField::Port,
            EditField::Port => EditField::SshPassword,
            EditField::SshPassword => EditField::IdentityFiles,
            EditField::IdentityFiles => EditField::ProxyJump,
            EditField::ProxyJump => EditField::LocalForward,
            EditField::LocalForward => EditField::ForwardAgent,
            EditField::ForwardAgent => EditField::Tags,
            EditField::Tags => EditField::Advanced,
            EditField::Advanced => EditField::BtnSave,
            EditField::BtnSave => EditField::BtnCancel,
            EditField::BtnCancel => EditField::Alias,
        };
    }

    pub fn prev_field(&mut self)
        ensures
            final(self)@ == old(self)@.focus(old(self)@.field.prev()),
    {
        self.field = match self.field {
            EditField::Alias => EditField::BtnCancel,
            EditField::Host => EditField::Alias,
            EditField::User => EditField::Host,
            EditField::Port => EditField::User,
            EditField::SshPassword => EditField::Port,
            EditField::IdentityFiles => EditField::SshPassword,
            EditField::ProxyJump => EditField::IdentityFiles,
            EditField::LocalForward => EditField::ProxyJump,
            EditField::ForwardAgent => EditField::LocalForward,
            EditField::Tags => EditField::ForwardAgent,
            EditField::Advanced => EditField::Tags,
            EditField::BtnSave => EditField::Advanced,
            EditField::BtnCancel => EditField::BtnSave,
        };
    }

    /// The server that the form describes.
    pub fn build_server(&self) -> (r: Server)
        ensures
            r@ == self@.built(),
    {
        let mut s = self.base.copy();
        s.alias = self.alias.trimmed();
        s.patterns = vec![s.alias.clone()];
        assert(s@.patterns =~= seq![text::trimmed(self@.alias.text)]);
        s.host = self.host.trimmed();
        s.user = self.user.trimmed();
        s.port = match text::parse_u64(self.port.trimmed().as_str()) {
            Some(n) => if n <= u16::MAX as u64 {
                n as u16
            } else {
                0
            },
            None => 0,
        };
        if !self.ssh_password.is_empty() {
            s.ssh_password = self.ssh_password.value();
        }
        s.identity_files = parse_csv(self.identity_files.value().as_str());
        s.proxy_jump = self.proxy_jump.trimmed();
        s.local_forward = parse_csv(self.local_forward.value().as_str());
        s.forward_agent = text::owned(self.forward_agent.value());
        s.tags = parse_csv(self.tags.value().as_str());
        s.extra = parse_advanced(self.advanced.value().as_str());
        s
    }

    fn edit(&mut self, key: KeyCode)
        ensures
            final(self)@ == old(self)@.edit(key),
    {
        match self.field {
            EditField::Alias => self.alias.edit(key),
            EditField::Host => self.host.edit(key),
            EditField::User => self.user.edit(key),
            EditField::Port => self.port.edit(key),
            EditField::SshPassword => self.ssh_password.edit(key),
            EditField::IdentityFiles => self.identity_files.edit(key),
            EditField::ProxyJump => self.proxy_jump.edit(key),
            EditField::LocalForward => self.local_forward.edit(key),
            EditField::Tags => self.tags.edit(key),
            EditField::Advanced => self.advanced.edit(key),
            _ => {},
        }
    }

    fn turn(&mut self, back: bool, key: KeyCode)
        ensures
            final(self)@ == old(self)@.turned(back, key),
    {
        if self.field == EditField::ForwardAgent {
            self.forward_agent = self.forward_agent.turned(back);
        } else {
            self.edit(key);
        }
    }

    fn add_key(&mut self, path: &str)
        ensures
            final(self)@ == old(self)@.with_key(path@),
    {
        if self.identity_files.trimmed().as_str().is_empty() {
            self.identity_files = Input::new(path);
        } else {
            let all = text::cat3(self.identity_files.value().as_str(), ", ", path);
            self.identity_files = Input::new(all.as_str());
        }
    }

    fn step_key_picker(&mut self, step: PickerStep) -> (r: FormAction)
        requires
            old(self)@.key_picker is Some,
        ensures
            (final(self)@, r@) == old(self)@.key_step(old(self)@.key_picker->0, step),
    {
        match step {
            PickerStep::Stay => {},
            PickerStep::Close => self.key_picker = None,
            PickerStep::Pick => {
                let picked = match &self.key_picker {
                    Some(p) => p.activate(),
                    None => Activation::Nothing,
                };
                match picked {
                    Activation::Picked(path) => {
                        self.add_key(path.as_str());
                        self.key_picker = None;
                    },
                    Activation::Open(path) => return FormAction::ReadDir(path),
                    Activation::Nothing => {},
                }
            },
        }
        FormAction::Nothing
    }

    fn enter(&mut self) -> (r: FormAction)
        ensures
            (final(self)@, r@) == old(self)@.entered(),
    {
        match self.field {
            EditField::IdentityFiles => return FormAction::BrowseKey(self.identity_files.value()),
            EditField::ForwardAgent => self.forward_agent = self.forward_agent.turned(false),
            EditField::BtnSave => return FormAction::Save,
            EditField::BtnCancel => return FormAction::Close,
            _ => self.next_field(),
        }
        FormAction::Nothing
    }

    pub fn handle_key(&mut self, key: KeyCode) -> (r: FormAction)
        ensures
            (final(self)@, r@) == old(self)@.on_key(key),
    {
        let mut step: Option<PickerStep> = None;
        if let Some(p) = &mut self.key_picker {
            step = Some(p.handle_key(key));
        }
        if let Some(st) = step {
            return self.step_key_picker(st);
        }
        match key {
            KeyCode::Esc => return FormAction::Close,
            KeyCode::Tab | KeyCode::Down => self.next_field(),
            KeyCode::BackTab | KeyCode::Up => self.prev_field(),
            KeyCode::Left => self.turn(true, key),
            KeyCode::Right => self.turn(false, key),
            KeyCode::Enter => return self.enter(),
            _ => self.edit(key),
        }
        FormAction::Nothing
    }
}

// -------------------------------------------------------------- small modals

#[derive(Clone, Copy, PartialEq, Eq, Structural, Debug)]
pub enum EditTagsField {
    Tags,
    BtnSave,
    BtnCancel,
}

impl EditTagsField {
    pub open spec fn next(self) -> EditTagsField {
        match self {
            EditTagsField::Tags => EditTagsField::BtnSave,
            EditTagsField::BtnSave => EditTagsField::BtnCancel,
            EditTagsField::BtnCancel => EditTagsField::Tags,
        }
    }

    pub open spec fn prev(self) -> EditTagsField {
        match self {
            EditTagsField::Tags => EditTagsField::BtnCancel,
            EditTagsField::BtnSave => EditTagsField::Tags,
            EditTagsField::BtnCancel => EditTagsField::BtnSave,
        }
    }
}

#[derive(Clone, Copy, PartialEq, Eq, Structural, Debug)]
pub enum ConfirmField {
    BtnDelete,
    BtnCancel,
}

impl ConfirmField {
    pub open spec fn other(self) -> ConfirmField {
        match self {
            ConfirmField::BtnDelete => ConfirmField::BtnCancel,
            ConfirmField::BtnCancel => ConfirmField::BtnDelete,
        }
    }
}

/// What the screen has to do after an event on a small modal.
#[derive(Clone, Copy, PartialEq, Eq, Structural, Debug)]
pub enum SmallAction {
    Nothing,
    Close,
    /// Do what the modal is for, and close it.
    Act,
}

pub struct EditTagsModal {
    pub alias: String,
    pub tags: Input,
    pub field: EditTagsField,
}

pub struct EditTagsModalModel {
    pub alias: Seq<char>,
    pub tags: InputModel,
    pub field: EditTagsField,
}

impl View for EditTagsModal {
    type V = EditTagsModalModel;

    open spec fn view(&self) -> EditTagsModalModel {
        EditTagsModalModel {
            alias: self.alias@,
            tags: self.tags@,
            field: self.field,
        }
    }
}

impl DeepView for EditTagsModal {
    type V = EditTagsModalModel;

    open spec fn deep_view(&self) -> EditTagsModalModel {
        self@
    }
}

pub struct ConfirmDeleteModal {
    pub alias: String,
    pub field: ConfirmField,
}

pub struct ConfirmDeleteModalModel {
    pub alias: Seq<char>,
    pub field: ConfirmField,
}

impl View for ConfirmDeleteModal {
    type V = ConfirmDeleteModalModel;

    open spec fn view(&self) -> ConfirmDeleteModalModel {
        ConfirmDeleteModalModel {
            alias: self.alias@,
            field: self.field,
        }
    }
}

impl DeepView for ConfirmDeleteModal {
    type V = ConfirmDeleteModalModel;

    open spec fn deep_view(&self) -> ConfirmDeleteModalModel {
        self@
    }
}

pub enum Modal {
    Add(ServerForm),
    Edit(ServerForm),
    EditTags(EditTagsModal),
    ConfirmDelete(ConfirmDeleteModal),
}

pub enum ModalModel {
    Add(ServerFormModel),
    Edit(ServerFormModel),
    EditTags(EditTagsModalModel),
    ConfirmDelete(ConfirmDeleteModalModel),
}

impl View for Modal {
    type V = ModalModel;

    open spec fn view(&self) -> ModalModel {
        match self {
            Modal::Add(a) => ModalModel::Add(a@),
            Modal::Edit(a) => ModalModel::Edit(a@),
            Modal::EditTags(a) => ModalModel::EditTags(a@),
            Modal::ConfirmDelete(a) => ModalModel::ConfirmDelete(a@),
        }
    }
}

impl DeepView for Modal {
    type V = ModalModel;

    open spec fn deep_view(&self) -> ModalModel {
        self@
    }
}

impl EditTagsModalModel {
    pub open spec fn of(s: ServerModel) -> EditTagsModalModel {
        EditTagsModalModel {
            alias: s.alias,
            tags: InputModel::of(text::joined(s.tags, ", "@)),
            field: EditTagsField::Tags,
        }
    }

    pub open spec fn focus(self, field: EditTagsField) -> EditTagsModalModel {
        EditTagsModalModel { field, ..self }
    }

    pub open spec fn on_key(self, key: KeyCode) -> (EditTagsModalModel, SmallAction) {
        match key {
            KeyCode::Esc => (self, SmallAction::Close),
            KeyCode::Tab | KeyCode::Down => (self.focus(self.field.next()), SmallAction::Nothing),
            KeyCode::BackTab | KeyCode::Up => (self.focus(self.field.prev()), SmallAction::Nothing),
            KeyCode::Enter => match self.field {
                EditTagsField::BtnSave => (self, SmallAction::Act),
                EditTagsField::BtnCancel => (self, SmallAction::Close),
                EditTagsField::Tags => (self.focus(self.field.next()), SmallAction::Nothing),
            },
            _ => (if self.field == EditTagsField::Tags {
                EditTagsModalModel { tags: self.tags.edit(key), ..self }
            } else {
                self
            }, SmallAction::Nothing),
        }
    }

    pub open spec fn clicked(self, x: u16, y: u16, rows: Seq<Rect>) -> (EditTagsModalModel, SmallAction) {
        match mouse::button_hit(x, y, rows[3], seq!["Save"@, "Cancel"@]) {
            Some(i) => (
                self,
                if i == 0 {
                    SmallAction::Act
                } else {
                    SmallAction::Close
                },
            ),
            None => (if mouse::hits(rows[0], x, y) {
                self.focus(EditTagsField::Tags)
            } else {
                self
            }, SmallAction::Nothing),
        }
    }
}

impl EditTagsModal {
    pub fn new(server: &Server) -> (r: EditTagsModal)
        ensures
            r@ == EditTagsModalModel::of(server@),
    {
        let tags = text::join(&server.tags, ", ");
        EditTagsModal { alias: server.alias.clone(), tags: Input::new(tags.as_str()), field: EditTagsField::Tags }
    }

    pub fn next_field(&mut self)
        ensures
            final(self)@ == old(self)@.focus(old(self)@.field.next()),
    {
        self.field = match self.field {
            EditTagsField::Tags => EditTagsField::BtnSave,
            EditTagsField::BtnSave => EditTagsField::BtnCancel,
            EditTagsField::BtnCancel => EditTagsField::Tags,
        };
    }

    pub fn prev_field(&mut self)
        ensures
            final(self)@ == old(self)@.focus(old(self)@.field.prev()),
    {
        self.field = match self.field {
            EditTagsField::Tags => EditTagsField::BtnCancel,
            EditTagsField::BtnSave => EditTagsField::Tags,
            EditTagsField::BtnCancel => EditTagsField::BtnSave,
        };
    }

    pub fn handle_key(&mut self, key: KeyCode) -> (r: SmallAction)
        ensures
            (final(self)@, r) == old(self)@.on_key(key),
    {
        match key {
            KeyCode::Esc => return SmallAction::Close,
            KeyCode::Tab | KeyCode::Down => self.next_field(),
            KeyCode::BackTab | KeyCode::Up => self.prev_field(),
            KeyCode::Enter => match self.field {
                EditTagsField::BtnSave => return SmallAction::Act,
                EditTagsField::BtnCancel => return SmallAction::Close,
                EditTagsField::Tags => self.next_field(),
            },
            _ => if self.field == EditTagsField::Tags {
                self.tags.edit(key);
            },
        }
        SmallAction::Nothing
    }

    pub fn click(&mut self, x: u16, y: u16, rows: &Vec<Rect>) -> (r: SmallAction)
        requires
            rows@.len() == 5,
        ensures
            (final(self)@, r) == old(self)@.clicked(x, y, rows@),
    {
        let labels = ["Save", "Cancel"];
        assert(labels.deep_view() =~= seq!["Save"@, "Cancel"@]);
        match mouse::button_row_hit(x, y, rows[3], &labels) {
            Some(i) => if i == 0 {
                SmallAction::Act
            } else {
                SmallAction::Close
            },
            None => {
                if mouse::in_rect(rows[0], x, y) {
                    self.field = EditTagsField::Tags;
                }
                SmallAction::Nothing
            },
        }
    }
}

impl ConfirmDeleteModalModel {
    /// A question starts on the answer that changes nothing.
    pub open spec fn of(alias: Seq<char>) -> ConfirmDeleteModalModel {
        ConfirmDeleteModalModel { alias, field: ConfirmField::BtnCancel }
    }

    pub open spec fn on_key(self, key: KeyCode) -> (ConfirmDeleteModalModel, SmallAction) {
        match key {
            KeyCode::Esc => (self, SmallAction::Close),
            KeyCode::Tab | KeyCode::Down | KeyCode::Right | KeyCode::BackTab | KeyCode::Up | KeyCode::Left => (
                ConfirmDeleteModalModel { field: self.field.other(), ..self },
                SmallAction::Nothing,
            ),
            KeyCode::Enter => (
                self,
                match self.field {
                    ConfirmField::BtnDelete => SmallAction::Act,
                    ConfirmField::BtnCancel => SmallAction::Close,
                },
            ),
            _ => (self, SmallAction::Nothing),
        }
    }

    pub open spec fn clicked(self, x: u16, y: u16, rows: Seq<Rect>) -> SmallAction {
        match mouse::button_hit(x, y, rows[2], seq!["Delete"@, "Cancel"@]) {
            Some(i) => if i == 0 {
                SmallAction::Act
            } else {
                SmallAction::Close
            },
            None => SmallAction::Nothing,
        }
    }
}

impl ConfirmDeleteModal {
    pub fn new(alias: String) -> (r: ConfirmDeleteModal)
        ensures
            r@ == ConfirmDeleteModalModel::of(alias@),
    {
        ConfirmDeleteModal { alias, field: ConfirmField::BtnCancel }
    }

    pub fn handle_key(&mut self, key: KeyCode) -> (r: SmallAction)
        ensures
            (final(self)@, r) == old(self)@.on_key(key),
    {
        match key {
            KeyCode::Esc => SmallAction::Close,
            KeyCode::Tab | KeyCode::Down | KeyCode::Right | KeyCode::BackTab | KeyCode::Up | KeyCode::Left => {
                self.field = match self.field {
                    ConfirmField::BtnDelete => ConfirmField::BtnCancel,
                    ConfirmField::BtnCancel => ConfirmField::BtnDelete,
                };
                SmallAction::Nothing
            },
            KeyCode::Enter => match self.field {
                ConfirmField::BtnDelete => SmallAction::Act,
                ConfirmField::BtnCancel => SmallAction::Close,
            },
            _ => SmallAction::Nothing,
        }
    }

    pub fn click(&self, x: u16, y: u16, rows: &Vec<Rect>) -> (r: SmallAction)
        requires
            rows@.len() == 4,
        ensures
            r == self@.clicked(x, y, rows@),
    {
        let labels = ["Delete", "Cancel"];
        assert(labels.deep_view() =~= seq!["Delete"@, "Cancel"@]);
        match mouse::button_row_hit(x, y, rows[2], &labels) {
            Some(i) => if i == 0 {
                SmallAction::Act
            } else {
                SmallAction::Close
            },
            None => SmallAction::Nothing,
        }
    }
}

// -------------------------------------------------------------------- screen

/// Work that the screen hands out.
pub enum Request {
    /// Read the hosts again, and say so where `told`.
    Refresh { told: bool },
    AddServer(Server),
    UpdateServer { alias: String, server: Server },
    SetTags { alias: String, tags: Vec<String> },
    DeleteServer(String),
    SetPinned { alias: String, pinned: bool },
    CopyCommand(Server),
    Ping(Server),
    StartForward(String),
    StopForward(String),
    BrowseKey(String),
    ReadDir(String),
    RecordSsh(String),
    CopyHistory,
}

pub enum RequestModel {
    Refresh { told: bool },
    AddServer(ServerModel),
    UpdateServer { alias: Seq<char>, server: ServerModel },
    SetTags { alias: Seq<char>, tags: Seq<Seq<char>> },
    DeleteServer(Seq<char>),
    SetPinned { alias: Seq<char>, pinned: bool },
    CopyCommand(ServerModel),
    Ping(ServerModel),
    StartForward(Seq<char>),
    StopForward(Seq<char>),
    BrowseKey(Seq<char>),
    ReadDir(Seq<char>),
    RecordSsh(Seq<char>),
    CopyHistory,
}

impl View for Request {
    type V = RequestModel;

    open spec fn view(&self) -> RequestModel {
        match self {
            Request::Refresh { told } => RequestModel::Refresh { told: *told },
            Request::AddServer(a) => RequestModel::AddServer(a@),
            Request::UpdateServer { alias, server } => RequestModel::UpdateServer { alias: alias@, server: server@ },
            Request::SetTags { alias, tags } => RequestModel::SetTags { alias: alias@, tags: tags.deep_view() },
            Request::DeleteServer(a) => RequestModel::DeleteServer(a@),
            Request::SetPinned { alias, pinned } => RequestModel::SetPinned { alias: alias@, pinned: *pinned },
            Request::CopyCommand(a) => RequestModel::CopyCommand(a@),
            Request::Ping(a) => RequestModel::Ping(a@),
            Request::StartForward(a) => RequestModel::StartForward(a@),
            Request::StopForward(a) => RequestModel::StopForward(a@),
            Request::BrowseKey(a) => RequestModel::BrowseKey(a@),
            Request::ReadDir(a) => RequestModel::ReadDir(a@),
            Request::RecordSsh(a) => RequestModel::RecordSsh(a@),
            Request::CopyHistory => RequestModel::CopyHistory,
        }
    }
}

impl DeepView for Request {
    type V = RequestModel;

    open spec fn deep_view(&self) -> RequestModel {
        self@
    }
}

/// What came of the work.
pub enum Msg {
    Listed { servers: Vec<Server>, told: bool },
    ListFailed { error: String, told: bool },
    Saved(String),
    SaveFailed(String),
    TagsSet(String),
    TagsFailed(String),
    Deleted(String),
    DeleteFailed { alias: String, error: String },
    PinSet { alias: String, pinned: bool },
    PinFailed { alias: String, error: String },
    CommandCopied(String),
    CopyFailed,
    PingUp { alias: String, time: String },
    PingDown { alias: String, error: String },
    ForwardStarted { alias: String, pid: u32 },
    ForwardFailed { alias: String, error: String },
    ForwardStopped(String),
    StopFailed { alias: String, error: String },
    KeyDir { listing: Listing, preselect: Option<String> },
    DirRead(Listing),
    HistoryCopied(bool),
}

pub enum MsgModel {
    Listed { servers: Seq<ServerModel>, told: bool },
    ListFailed { error: Seq<char>, told: bool },
    Saved(Seq<char>),
    SaveFailed(Seq<char>),
    TagsSet(Seq<char>),
    TagsFailed(Seq<char>),
    Deleted(Seq<char>),
    DeleteFailed { alias: Seq<char>, error: Seq<char> },
    PinSet { alias: Seq<char>, pinned: bool },
    PinFailed { alias: Seq<char>, error: Seq<char> },
    CommandCopied(Seq<char>),
    CopyFailed,
    PingUp { alias: Seq<char>, time: Seq<char> },
    PingDown { alias: Seq<char>, error: Seq<char> },
    ForwardStarted { alias: Seq<char>, pid: u32 },
    ForwardFailed { alias: Seq<char>, error: Seq<char> },
    ForwardStopped(Seq<char>),
    StopFailed { alias: Seq<char>, error: Seq<char> },
    KeyDir { listing: ListingModel, preselect: Option<Seq<char>> },
    DirRead(ListingModel),
    HistoryCopied(bool),
}

impl View for Msg {
    type V = MsgModel;

    open spec fn view(&self) -> MsgModel {
        match self {
            Msg::Listed { servers, told } => MsgModel::Listed { servers: servers.deep_view(), told: *told },
            Msg::ListFailed { error, told } => MsgModel::ListFailed { error: error@, told: *told },
            Msg::Saved(a) => MsgModel::Saved(a@),
            Msg::SaveFailed(a) => MsgModel::SaveFailed(a@),
            Msg::TagsSet(a) => MsgModel::TagsSet(a@),
            Msg::TagsFailed(a) => MsgModel::TagsFailed(a@),
            Msg::Deleted(a) => MsgModel::Deleted(a@),
            Msg::DeleteFailed { alias, error } => MsgModel::DeleteFailed { alias: alias@, error: error@ },
            Msg::PinSet { alias, pinned } => MsgModel::PinSet { alias: alias@, pinned: *pinned },
            Msg::PinFailed { alias, error } => MsgModel::PinFailed { alias: alias@, error: error@ },
            Msg::CommandCopied(a) => MsgModel::CommandCopied(a@),
            Msg::CopyFailed => MsgModel::CopyFailed,
            Msg::PingUp { alias, time } => MsgModel::PingUp { alias: alias@, time: time@ },
            Msg::PingDown { alias, error } => MsgModel::PingDown { alias: alias@, error: error@ },
            Msg::ForwardStarted { alias, pid } => MsgModel::ForwardStarted { alias: alias@, pid: *pid },
            Msg::ForwardFailed { alias, error } => MsgModel::ForwardFailed { alias: alias@, error: error@ },
            Msg::ForwardStopped(a) => MsgModel::ForwardStopped(a@),
            Msg::StopFailed { alias, error } => MsgModel::StopFailed { alias: alias@, error: error@ },
            Msg::KeyDir { listing, preselect } => MsgModel::KeyDir { listing: listing@, preselect: preselect.deep_view() },
            Msg::DirRead(a) => MsgModel::DirRead(a@),
            Msg::HistoryCopied(a) => MsgModel::HistoryCopied(*a),
        }
    }
}

impl DeepView for Msg {
    type V = MsgModel;

    open spec fn deep_view(&self) -> MsgModel {
        self@
    }
}

pub struct EasySshScreen {
    pub tab: Tab,
    pub servers: Vec<Server>,
    pub search: Input,
    pub focus: Focus,
    pub sort_mode: SortMode,
    pub selected_row: usize,
    pub tags_view: TagsView,
    pub tags_selected_row: usize,
    /// The tag of the group that is shown, empty for the hosts without tags.
    pub tag_filter: String,
    pub modal: Option<Modal>,
    pub log: Log,
    pub pending_action: Option<PendingAction>,
    /// Work that waits to be handed out, oldest first.
    pub requests: Vec<Request>,
}

pub struct EasySshScreenModel {
    pub tab: Tab,
    pub servers: Seq<ServerModel>,
    pub search: InputModel,
    pub focus: Focus,
    pub sort_mode: SortMode,
    pub selected_row: int,
    pub tags_view: TagsView,
    pub tags_selected_row: int,
    pub tag_filter: Seq<char>,
    pub modal: Option<ModalModel>,
    pub log: LogModel,
    pub pending_action: Option<PendingActionModel>,
    pub requests: Seq<RequestModel>,
}

impl View for EasySshScreen {
    type V = EasySshScreenModel;

    open spec fn view(&self) -> EasySshScreenModel {
        EasySshScreenModel {
            tab: self.tab,
            servers: self.servers.deep_view(),
            search: self.search@,
            focus: self.focus,
            sort_mode: self.sort_mode,
            selected_row: self.selected_row as int,
            tags_view: self.tags_view,
            tags_selected_row: self.tags_selected_row as int,
            tag_filter: self.tag_filter@,
            modal: self.modal.deep_view(),
            log: self.log@,
            pending_action: self.pending_action.deep_view(),
            requests: self.requests.deep_view(),
        }
    }
}

impl DeepView for EasySshScreen {
    type V = EasySshScreenModel;

    open spec fn deep_view(&self) -> EasySshScreenModel {
        self@
    }
}

/// The rectangles that the screen is drawn into.
pub struct EasySshLayout {
    pub screen: Vec<Rect>,
    pub servers: Vec<Rect>,
    pub tag_list: Vec<Rect>,
    pub tag_rows: Vec<Rect>,
    pub tags_modal: Vec<Rect>,
    pub delete_modal: Vec<Rect>,
}

pub struct EasySshLayoutModel {
    pub screen: Seq<Rect>,
    pub servers: Seq<Rect>,
    pub tag_list: Seq<Rect>,
    pub tag_rows: Seq<Rect>,
    pub tags_modal: Seq<Rect>,
    pub delete_modal: Seq<Rect>,
}

impl View for EasySshLayout {
    type V = EasySshLayoutModel;

    open spec fn view(&self) -> EasySshLayoutModel {
        EasySshLayoutModel {
            screen: self.screen@,
            servers: self.servers@,
            tag_list: self.tag_list@,
            tag_rows: self.tag_rows@,
            tags_modal: self.tags_modal@,
            delete_modal: self.delete_modal@,
        }
    }
}

impl DeepView for EasySshLayout {
    type V = EasySshLayoutModel;

    open spec fn deep_view(&self) -> EasySshLayoutModel {
        self@
    }
}

pub open spec fn tab_labels() -> Seq<Seq<char>> {
    seq!["F1 Servers"@, "F2 Tags"@]
}

pub open spec fn screen_rows() -> Seq<Constraint> {
    seq![Constraint::Length(1), Constraint::Min(0)]
}

pub open spec fn server_rows() -> Seq<Constraint> {
    seq![Constraint::Length(5), Constraint::Min(6), Constraint::Length(2), Constraint::Length(6)]
}

pub open spec fn tag_list_rows() -> Seq<Constraint> {
    seq![Constraint::Min(6), Constraint::Length(2)]
}

pub open spec fn tag_server_rows() -> Seq<Constraint> {
    seq![Constraint::Min(6), Constraint::Length(2), Constraint::Length(6)]
}

impl EasySshLayoutModel {
    /// Whether the rectangles are those of a screen on `area`.
    pub open spec fn of(self, area: Rect) -> bool {
        &&& geometry::stacked(area, 0, screen_rows(), self.screen)
        &&& geometry::stacked(self.screen[1], 0, server_rows(), self.servers)
        &&& geometry::stacked(self.screen[1], 0, tag_list_rows(), self.tag_list)
        &&& geometry::stacked(self.screen[1], 0, tag_server_rows(), self.tag_rows)
        &&& geometry::stacked(
            mouse::inner(geometry::modal_rect(60, 9, 4, 2, area)),
            1,
            form::lines(4),
            self.tags_modal,
        )
        &&& geometry::stacked(
            mouse::inner(geometry::modal_rect(60, 7, 4, 2, area)),
            1,
            form::lines(3),
            self.delete_modal,
        )
    }

    pub open spec fn complete(self) -> bool {
        &&& self.screen.len() == 2
        &&& self.servers.len() == 4
        &&& self.tag_list.len() == 2
        &&& self.tag_rows.len() == 3
        &&& self.tags_modal.len() == 5
        &&& self.delete_modal.len() == 4
    }
}

/// The line about a list of hosts that could not be read.
pub open spec fn list_error(e: Seq<char>) -> Seq<char> {
    "Failed to load ~/.ssh/config: "@ + e
}

impl MsgModel {
    /// The line that a message leaves in the history, where it leaves one.
    pub open spec fn line(self) -> Option<(bool, Seq<char>)> {
        match self {
            MsgModel::Listed { servers: _, told } => if told {
                Some((true, "Refreshed"@))
            } else {
                None
            },
            MsgModel::ListFailed { error: _, told } => if told {
                Some((true, "Refreshed"@))
            } else {
                None
            },
            MsgModel::Saved(alias) => Some((true, "Server "@ + alias + " saved"@)),
            MsgModel::SaveFailed(e) => Some((false, "Save failed: "@ + e)),
            MsgModel::TagsSet(alias) => Some((true, "Tags updated for "@ + alias)),
            MsgModel::TagsFailed(e) => Some((false, "Failed to update tags: "@ + e)),
            MsgModel::Deleted(alias) => Some((true, "Server "@ + alias + " deleted"@)),
            MsgModel::DeleteFailed { alias, error } => Some((false, "Failed to delete "@ + alias + ": "@ + error)),
            MsgModel::PinSet { alias, pinned } => Some(
                (
                    true,
                    if pinned {
                        "Pinned "@ + alias
                    } else {
                        "Unpinned "@ + alias
                    },
                ),
            ),
            MsgModel::PinFailed { alias, error } => Some((false, "Failed to pin/unpin "@ + alias + ": "@ + error)),
            MsgModel::CommandCopied(cmd) => Some((true, "Copied: "@ + cmd)),
            MsgModel::CopyFailed => Some((false, "Failed to copy to clipboard"@)),
            MsgModel::PingUp { alias, time } => Some((true, "Ping "@ + alias + ": UP ("@ + time + ")"@)),
            MsgModel::PingDown { alias, error } => Some((false, "Ping "@ + alias + ": DOWN ("@ + error + ")"@)),
            MsgModel::ForwardStarted { alias, pid } => Some(
                (
                    true,
                    "Port forwarding started for "@ + alias + " (pid "@ + text::decimal(pid as nat) + ")"@,
                ),
            ),
            MsgModel::ForwardFailed { alias, error } => Some(
                (false, "Failed to start forwarding for "@ + alias + ": "@ + error),
            ),
            MsgModel::ForwardStopped(alias) => Some((true, "Stopped forwarding for "@ + alias)),
            MsgModel::StopFailed { alias, error } => Some(
                (false, "Failed to stop forwarding for "@ + alias + ": "@ + error),
            ),
            _ => None,
        }
    }

    /// Whether the hosts are read again after a message.
    pub open spec fn refreshes(self) -> bool {
        self is Saved || self is TagsSet || self is Deleted || self is PinSet
    }
}

impl Msg {
    /// The line that a message leaves in the history, where it leaves one.
    pub fn line(&self) -> (r: Option<(bool, String)>)
        ensures
            r.deep_view() == self@.line(),
    {
        match self {
            Msg::Listed { servers: _, told } => if *told {
                Some((true, text::owned("Refreshed")))
            } else {
                None
            },
            Msg::ListFailed { error: _, told } => if *told {
                Some((true, text::owned("Refreshed")))
            } else {
                None
            },
            Msg::Saved(alias) => Some((true, text::cat3("Server ", alias.as_str(), " saved"))),
            Msg::SaveFailed(e) => Some((false, text::cat2("Save failed: ", e.as_str()))),
            Msg::TagsSet(alias) => Some((true, text::cat2("Tags updated for ", alias.as_str()))),
            Msg::TagsFailed(e) => Some((false, text::cat2("Failed to update tags: ", e.as_str()))),
            Msg::Deleted(alias) => Some((true, text::cat3("Server ", alias.as_str(), " deleted"))),
            Msg::DeleteFailed { alias, error } => Some(
                (false, text::cat4("Failed to delete ", alias.as_str(), ": ", error.as_str())),
            ),
            Msg::PinSet { alias, pinned } => if *pinned {
                Some((true, text::cat2("Pinned ", alias.as_str())))
            } else {
                Some((true, text::cat2("Unpinned ", alias.as_str())))
            },
            Msg::PinFailed { alias, error } => Some(
                (false, text::cat4("Failed to pin/unpin ", alias.as_str(), ": ", error.as_str())),
            ),
            _ => self.launcher_line(),
        }
    }

    fn launcher_line(&self) -> (r: Option<(bool, String)>)
        requires
            self is CommandCopied || self is CopyFailed || self is PingUp || self is PingDown || self is ForwardStarted
                || self is ForwardFailed || self is ForwardStopped || self is StopFailed || self@.line() is None,
        ensures
            r.deep_view() == self@.line(),
    {
        match self {
            Msg::CommandCopied(cmd) => Some((true, text::cat2("Copied: ", cmd.as_str()))),
            Msg::CopyFailed => Some((false, text::owned("Failed to copy to clipboard"))),
            Msg::PingUp { alias, time } => Some(
                (true, text::cat5("Ping ", alias.as_str(), ": UP (", time.as_str(), ")")),
            ),
            Msg::PingDown { alias, error } => Some(
                (false, text::cat5("Ping ", alias.as_str(), ": DOWN (", error.as_str(), ")")),
            ),
            Msg::ForwardStarted { alias, pid } => {
                let pid = text::number(*pid as u64);
                Some(
                    (
                        true,
                        text::cat5("Port forwarding started for ", alias.as_str(), " (pid ", pid.as_str(), ")"),
                    ),
                )
            },
            Msg::ForwardFailed { alias, error } => Some(
                (false, text::cat4("Failed to start forwarding for ", alias.as_str(), ": ", error.as_str())),
            ),
            Msg::ForwardStopped(alias) => Some((true, text::cat2("Stopped forwarding for ", alias.as_str()))),
            Msg::StopFailed { alias, error } => Some(
                (false, text::cat4("Failed to stop forwarding for ", alias.as_str(), ": ", error.as_str())),
            ),
            _ => None,
        }
    }
}

/// Whether a key moves up a list.
pub open spec fn goes_up(key: KeyCode) -> bool {
    key == KeyCode::Up || key == KeyCode::Char('k')
}

/// Whether a key moves down a list.
pub open spec fn goes_down(key: KeyCode) -> bool {
    key == KeyCode::Down || key == KeyCode::Char('j')
}

fn is_up(key: KeyCode) -> (r: bool)
    ensures
        r == goes_up(key),
{
    match key {
        KeyCode::Up => true,
        KeyCode::Char(c) => c == 'k',
        _ => false,
    }
}

fn is_down(key: KeyCode) -> (r: bool)
    ensures
        r == goes_down(key),
{
    match key {
        KeyCode::Down => true,
        KeyCode::Char(c) => c == 'j',
        _ => false,
    }
}

/// What a key does to the selected host.
#[derive(Clone, Copy, PartialEq, Eq, Structural, Debug)]
pub enum RowAction {
    Connect,
    Edit,
    Delete,
    Pin,
    Tags,
    Copy,
    Ping,
    StartForward,
    StopForward,
}

impl RowAction {
    pub open spec fn of(key: KeyCode) -> Option<RowAction> {
        match key {
            KeyCode::Enter => Some(RowAction::Connect),
            KeyCode::Char(c) => if c == 'e' {
                Some(RowAction::Edit)
            } else if c == 'd' {
                Some(RowAction::Delete)
            } else if c == 'p' {
                Some(RowAction::Pin)
            } else if c == 't' {
                Some(RowAction::Tags)
            } else if c == 'c' {
                Some(RowAction::Copy)
            } else if c == 'g' {
                Some(RowAction::Ping)
            } else if c == 'f' {
                Some(RowAction::StartForward)
            } else if c == 'x' {
                Some(RowAction::StopForward)
            } else {
                None
            },
            _ => None,
        }
    }

    pub fn for_key(key: KeyCode) -> (r: Option<RowAction>)
        ensures
            r == RowAction::of(key),
    {
        match key {
            KeyCode::Enter => Some(RowAction::Connect),
            KeyCode::Char(c) => if c == 'e' {
                Some(RowAction::Edit)
            } else if c == 'd' {
                Some(RowAction::Delete)
            } else if c == 'p' {
                Some(RowAction::Pin)
            } else if c == 't' {
                Some(RowAction::Tags)
            } else if c == 'c' {
                Some(RowAction::Copy)
            } else if c == 'g' {
                Some(RowAction::Ping)
            } else if c == 'f' {
                Some(RowAction::StartForward)
            } else if c == 'x' {
                Some(RowAction::StopForward)
            } else {
                None
            },
            _ => None,
        }
    }
}

impl EasySshScreenModel {
    pub open spec fn fresh() -> EasySshScreenModel {
        EasySshScreenModel {
            tab: Tab::Servers,
            servers: Seq::empty(),
            search: InputModel::empty(),
            focus: Focus::List,
            sort_mode: SortMode::AliasAsc,
            selected_row: 0,
            tags_view: TagsView::List,
            tags_selected_row: 0,
            tag_filter: Seq::empty(),
            modal: None,
            log: LogModel::empty(),
            pending_action: None,
            requests: seq![RequestModel::Refresh { told: false }],
        }
    }

    pub open spec fn ask(self, r: RequestModel) -> EasySshScreenModel {
        EasySshScreenModel { requests: self.requests.push(r), ..self }
    }

    pub open spec fn note(self, ok: bool, line: Seq<char>) -> EasySshScreenModel {
        EasySshScreenModel { log: self.log.note(ok, line), ..self }
    }

    pub open spec fn scrolled(self, up: bool) -> EasySshScreenModel {
        EasySshScreenModel { log: self.log.scrolled(up), ..self }
    }

    pub open spec fn with_modal(self, modal: Option<ModalModel>) -> EasySshScreenModel {
        EasySshScreenModel { modal, ..self }
    }

    pub open spec fn on_tab(self, tab: Tab) -> EasySshScreenModel {
        EasySshScreenModel { tab, ..self }
    }

    pub open spec fn select(self, selected_row: int) -> EasySshScreenModel {
        EasySshScreenModel { selected_row, ..self }
    }

    /// The hosts that match the search, in the order of the mode.
    pub open spec fn server_rows(self) -> Seq<ServerModel> {
        let q = text::lowercase(text::trimmed(self.search.text));
        sort::sorted(
            self.servers.filter(|s: ServerModel| q.len() == 0 || server_list::matching(s, q)),
            server_list::server_order(self.sort_mode),
        )
    }

    /// The hosts of a group, in the order of the mode.
    pub open spec fn group_rows(self, tag: Seq<char>) -> Seq<ServerModel> {
        sort::sorted(
            self.servers.filter(|s: ServerModel| server_list::in_group(s, tag)),
            server_list::server_order(self.sort_mode),
        )
    }

    /// The list that is on the screen, on which the keys of a row work.
    pub open spec fn current_rows(self) -> Seq<ServerModel> {
        if self.tab == Tab::Tags && self.tags_view == TagsView::Filtered {
            self.group_rows(self.tag_filter)
        } else {
            self.server_rows()
        }
    }

    pub open spec fn current(self) -> Option<ServerModel> {
        if 0 <= self.selected_row < self.current_rows().len() {
            Some(self.current_rows()[self.selected_row])
        } else {
            None
        }
    }

    pub open spec fn groups(self) -> Seq<(Seq<char>, int)> {
        server_list::groups(self.servers)
    }

    /// The screen after an action on a host.
    pub open spec fn acted(self, a: RowAction, s: ServerModel) -> EasySshScreenModel {
        match a {
            RowAction::Connect => EasySshScreenModel {
                pending_action: Some(
                    PendingActionModel::RunInteractive { program: "ssh"@, args: seq![s.alias], alias: s.alias },
                ),
                ..self
            },
            RowAction::Edit => self.with_modal(Some(ModalModel::Edit(ServerFormModel::editing(s)))),
            RowAction::Delete => self.with_modal(
                Some(ModalModel::ConfirmDelete(ConfirmDeleteModalModel::of(s.alias))),
            ),
            RowAction::Pin => self.ask(RequestModel::SetPinned { alias: s.alias, pinned: s.pinned_at is None }),
            RowAction::Tags => self.with_modal(Some(ModalModel::EditTags(EditTagsModalModel::of(s)))),
            RowAction::Copy => self.ask(RequestModel::CopyCommand(s)),
            RowAction::Ping => self.note(true, "Pinging "@ + s.alias + "\u{2026}"@).ask(RequestModel::Ping(s)),
            RowAction::StartForward => if s.local_forward.len() == 0 && s.remote_forward.len() == 0
                && s.dynamic_forward.len() == 0 {
                self.note(
                    false,
                    s.alias
                        + " has no LocalForward/RemoteForward/DynamicForward set (edit the server to add one)"@,
                )
            } else {
                self.ask(RequestModel::StartForward(s.alias))
            },
            RowAction::StopForward => self.ask(RequestModel::StopForward(s.alias)),
        }
    }

    /// The screen after an action on the selected host, if one is selected.
    pub open spec fn act(self, a: RowAction) -> EasySshScreenModel {
        match self.current() {
            Some(s) => self.acted(a, s),
            None => self,
        }
    }

    pub open spec fn on_search_key(self, key: KeyCode) -> EasySshScreenModel {
        match key {
            KeyCode::Esc => EasySshScreenModel { focus: Focus::List, ..self },
            KeyCode::Enter | KeyCode::Up | KeyCode::Down => EasySshScreenModel {
                focus: Focus::List,
                selected_row: 0,
                ..self
            },
            KeyCode::Char(_) | KeyCode::Backspace => EasySshScreenModel {
                search: self.search.edit(key),
                selected_row: 0,
                ..self
            },
            _ => EasySshScreenModel { search: self.search.edit(key), ..self },
        }
    }

    /// The keys of the list of servers that are not those of a row.
    pub open spec fn on_list_char(self, c: char) -> EasySshScreenModel {
        if c == '/' {
            EasySshScreenModel { focus: Focus::Search, ..self }
        } else if c == 'a' {
            self.with_modal(Some(ModalModel::Add(ServerFormModel::adding())))
        } else if c == 'r' {
            self.ask(RequestModel::Refresh { told: true })
        } else if c == 's' {
            EasySshScreenModel { sort_mode: self.sort_mode.toggled(), ..self }
        } else if c == 'S' {
            EasySshScreenModel { sort_mode: self.sort_mode.reversed(), ..self }
        } else {
            self
        }
    }

    pub open spec fn on_servers_key(self, key: KeyCode) -> (EasySshScreenModel, bool) {
        if self.focus == Focus::Search {
            (self.on_search_key(key), false)
        } else if key == KeyCode::Esc {
            (self, true)
        } else if goes_up(key) || goes_down(key) {
            (
                self.select(
                    cycle::moved(self.selected_row, goes_up(key), self.server_rows().len() as int),
                ),
                false,
            )
        } else {
            match RowAction::of(key) {
                Some(a) => (self.act(a), false),
                None => match key {
                    KeyCode::Char(c) => (self.on_list_char(c), false),
                    _ => (self, false),
                },
            }
        }
    }

    /// A group opened.
    pub open spec fn open_group(self, i: int) -> EasySshScreenModel {
        if 0 <= i < self.groups().len() {
            EasySshScreenModel {
                tag_filter: server_list::group_filter(self.groups()[i].0),
                tags_view: TagsView::Filtered,
                selected_row: 0,
                ..self
            }
        } else {
            self
        }
    }

    pub open spec fn on_groups_key(self, key: KeyCode) -> (EasySshScreenModel, bool) {
        if key == KeyCode::Esc {
            (self, true)
        } else if goes_up(key) || goes_down(key) {
            (
                EasySshScreenModel {
                    tags_selected_row: cycle::moved(
                        self.tags_selected_row,
                        goes_up(key),
                        self.groups().len() as int,
                    ),
                    ..self
                },
                false,
            )
        } else if key == KeyCode::Enter {
            (self.open_group(self.tags_selected_row), false)
        } else {
            (self, false)
        }
    }

    pub open spec fn on_group_key(self, key: KeyCode) -> EasySshScreenModel {
        if key == KeyCode::Esc {
            EasySshScreenModel { tags_view: TagsView::List, ..self }
        } else if goes_up(key) || goes_down(key) {
            self.select(
                cycle::moved(
                    self.selected_row,
                    goes_up(key),
                    self.group_rows(self.tag_filter).len() as int,
                ),
            )
        } else {
            match RowAction::of(key) {
                Some(a) => self.act(a),
                None => self,
            }
        }
    }

    pub open spec fn save_server(self, f: ServerFormModel) -> EasySshScreenModel {
        if f.is_add() {
            self.ask(RequestModel::AddServer(f.built()))
        } else {
            self.ask(RequestModel::UpdateServer { alias: f.base.alias, server: f.built() })
        }
    }

    /// The screen with what came of a key on the form. Saving leaves the form
    /// open until the server is saved.
    pub open spec fn form_done(self, modal: ModalModel, f: ServerFormModel, a: FormActionModel) -> EasySshScreenModel {
        let open = self.with_modal(Some(modal));
        match a {
            FormActionModel::Nothing => open,
            FormActionModel::Close => self.with_modal(None),
            FormActionModel::Save => open.save_server(f),
            FormActionModel::BrowseKey(p) => open.ask(RequestModel::BrowseKey(p)),
            FormActionModel::ReadDir(p) => open.ask(RequestModel::ReadDir(p)),
        }
    }

    pub open spec fn tags_done(self, m: EditTagsModalModel, a: SmallAction) -> EasySshScreenModel {
        match a {
            SmallAction::Nothing => self.with_modal(Some(ModalModel::EditTags(m))),
            SmallAction::Close => self.with_modal(None),
            SmallAction::Act => self.with_modal(None).ask(
                RequestModel::SetTags { alias: m.alias, tags: server_list::csv(m.tags.text) },
            ),
        }
    }

    pub open spec fn confirm_done(self, m: ConfirmDeleteModalModel, a: SmallAction) -> EasySshScreenModel {
        match a {
            SmallAction::Nothing => self.with_modal(Some(ModalModel::ConfirmDelete(m))),
            SmallAction::Close => self.with_modal(None),
            SmallAction::Act => self.with_modal(None).ask(RequestModel::DeleteServer(m.alias)),
        }
    }

    pub open spec fn on_modal_key(self, modal: ModalModel, key: KeyCode) -> EasySshScreenModel {
        match modal {
            ModalModel::Add(f) => {
                let r = f.on_key(key);
                self.form_done(ModalModel::Add(r.0), r.0, r.1)
            },
            ModalModel::Edit(f) => {
                let r = f.on_key(key);
                self.form_done(ModalModel::Edit(r.0), r.0, r.1)
            },
            ModalModel::EditTags(m) => {
                let r = m.on_key(key);
                self.tags_done(r.0, r.1)
            },
            ModalModel::ConfirmDelete(m) => {
                let r = m.on_key(key);
                self.confirm_done(r.0, r.1)
            },
        }
    }

    /// The screen after a key, and whether the key leaves it.
    pub open spec fn on_key(self, key: KeyEvent) -> (EasySshScreenModel, bool) {
        if key.chord('c') {
            (self, true)
        } else if key.chord('y') {
            (self.ask(RequestModel::CopyHistory), false)
        } else if log::scrolls_history(key) {
            (self.scrolled(key.code == KeyCode::Up), false)
        } else {
            match self.modal {
                Some(m) => (self.with_modal(None).on_modal_key(m, key.code), false),
                None => if key.code == KeyCode::F(1) {
                    (self.on_tab(Tab::Servers), false)
                } else if key.code == KeyCode::F(2) {
                    (self.on_tab(Tab::Tags), false)
                } else {
                    match self.tab {
                        Tab::Servers => self.on_servers_key(key.code),
                        Tab::Tags => match self.tags_view {
                            TagsView::List => self.on_groups_key(key.code),
                            TagsView::Filtered => (self.on_group_key(key.code), false),
                        },
                    }
                },
            }
        }
    }

    /// The screen after a mouse event on a modal. The form is for the
    /// keyboard alone.
    pub open spec fn on_modal_mouse(
        self,
        modal: ModalModel,
        me: MouseEvent,
        l: EasySshLayoutModel,
    ) -> EasySshScreenModel {
        match mouse::clicked(me) {
            None => self.with_modal(Some(modal)),
            Some((x, y)) => match modal {
                ModalModel::EditTags(m) => {
                    let r = m.clicked(x, y, l.tags_modal);
                    self.tags_done(r.0, r.1)
                },
                ModalModel::ConfirmDelete(m) => self.confirm_done(m, m.clicked(x, y, l.delete_modal)),
                _ => self.with_modal(Some(modal)),
            },
        }
    }

    pub open spec fn on_servers_mouse(self, me: MouseEvent, l: EasySshLayoutModel) -> EasySshScreenModel {
        let n = self.server_rows().len() as int;
        match mouse::scrolled(me) {
            Some(d) => if n > 0 && mouse::hits(l.servers[1], me.column, me.row) {
                self.select(cycle::moved(self.selected_row, d < 0, n))
            } else if mouse::hits(l.servers[3], me.column, me.row) {
                self.scrolled(d < 0)
            } else {
                self
            },
            None => match mouse::clicked(me) {
                Some((x, y)) => if mouse::hits(mouse::inner(l.servers[0]), x, y) {
                    EasySshScreenModel { focus: Focus::Search, ..self }
                } else {
                    match mouse::table_hit(x, y, l.servers[1], 1, n, self.selected_row) {
                        Some(i) => EasySshScreenModel {
                            focus: Focus::List,
                            selected_row: i as int,
                            ..self
                        }.act(RowAction::Connect),
                        None => self,
                    }
                },
                None => self,
            },
        }
    }

    pub open spec fn on_groups_mouse(self, me: MouseEvent, l: EasySshLayoutModel) -> EasySshScreenModel {
        let n = self.groups().len() as int;
        match mouse::scrolled(me) {
            Some(d) => if n > 0 && mouse::hits(l.tag_list[0], me.column, me.row) {
                EasySshScreenModel { tags_selected_row: cycle::moved(self.tags_selected_row, d < 0, n), ..self }
            } else {
                self
            },
            None => match mouse::clicked(me) {
                Some((x, y)) => match mouse::table_hit(x, y, l.tag_list[0], 0, n, self.tags_selected_row) {
                    Some(i) => self.open_group(i as int),
                    None => self,
                },
                None => self,
            },
        }
    }

    pub open spec fn on_group_mouse(self, me: MouseEvent, l: EasySshLayoutModel) -> EasySshScreenModel {
        let n = self.group_rows(self.tag_filter).len() as int;
        match mouse::scrolled(me) {
            Some(d) => if n > 0 && mouse::hits(l.tag_rows[0], me.column, me.row) {
                self.select(cycle::moved(self.selected_row, d < 0, n))
            } else if mouse::hits(l.tag_rows[2], me.column, me.row) {
                self.scrolled(d < 0)
            } else {
                self
            },
            None => match mouse::clicked(me) {
                Some((x, y)) => match mouse::table_hit(x, y, l.tag_rows[0], 1, n, self.selected_row) {
                    Some(i) => self.select(i as int).act(RowAction::Connect),
                    None => self,
                },
                None => self,
            },
        }
    }

    /// The tab whose label a click hits.
    pub open spec fn tab_hit(me: MouseEvent, l: EasySshLayoutModel) -> Option<usize> {
        match mouse::clicked(me) {
            Some((x, y)) => mouse::label_hit(x, y, l.screen[0], tab_labels()),
            None => None,
        }
    }

    /// The screen after a mouse event. A click on a host connects to it.
    pub open spec fn on_mouse(self, me: MouseEvent, l: EasySshLayoutModel) -> EasySshScreenModel {
        match self.modal {
            Some(m) => self.with_modal(None).on_modal_mouse(m, me, l),
            None => match EasySshScreenModel::tab_hit(me, l) {
                Some(i) => self.on_tab(
                    if i == 0 {
                        Tab::Servers
                    } else {
                        Tab::Tags
                    },
                ),
                None => match self.tab {
                    Tab::Servers => self.on_servers_mouse(me, l),
                    Tab::Tags => match self.tags_view {
                        TagsView::List => self.on_groups_mouse(me, l),
                        TagsView::Filtered => self.on_group_mouse(me, l),
                    },
                },
            },
        }
    }

    /// The open form with a picker in it.
    pub open spec fn picking(self, p: FilePickerModel) -> EasySshScreenModel {
        match self.modal {
            Some(ModalModel::Add(f)) => self.with_modal(Some(ModalModel::Add(f.with_picker(Some(p))))),
            Some(ModalModel::Edit(f)) => self.with_modal(Some(ModalModel::Edit(f.with_picker(Some(p))))),
            _ => self,
        }
    }

    pub open spec fn has_picker(self) -> bool {
        match self.modal {
            Some(ModalModel::Add(f)) => f.key_picker is Some,
            Some(ModalModel::Edit(f)) => f.key_picker is Some,
            _ => false,
        }
    }

    /// The screen with what a message brings, but for the line that it leaves.
    pub open spec fn absorb(self, m: MsgModel) -> EasySshScreenModel {
        match m {
            MsgModel::Listed { servers, told: _ } => EasySshScreenModel { servers, ..self },
            MsgModel::ListFailed { error, told: _ } => self.note(false, list_error(error)),
            MsgModel::Saved(_) => match self.modal {
                Some(ModalModel::Add(_)) | Some(ModalModel::Edit(_)) => self.with_modal(None),
                _ => self,
            },
            MsgModel::KeyDir { listing, preselect } => self.picking(FilePickerModel::opened(listing, preselect)),
            MsgModel::DirRead(listing) => if self.has_picker() {
                self.picking(FilePickerModel::opened(listing, None))
            } else {
                self
            },
            MsgModel::HistoryCopied(ok) => EasySshScreenModel { log: self.log.copied(ok), ..self },
            _ => self,
        }
    }

    pub open spec fn on_msg(self, m: MsgModel) -> EasySshScreenModel {
        let s = self.absorb(m);
        let t = match m.line() {
            Some((ok, line)) => s.note(ok, line),
            None => s,
        };
        if m.refreshes() {
            t.ask(RequestModel::Refresh { told: false })
        } else {
            t
        }
    }

    pub open spec fn ticked(self, msgs: Seq<MsgModel>) -> EasySshScreenModel
        decreases msgs.len(),
    {
        if msgs.len() == 0 {
            self
        } else {
            self.ticked(msgs.drop_last()).on_msg(msgs.last())
        }
    }

    /// The screen after an interactive session.
    pub open spec fn session_ended(self, alias: Seq<char>, end: SessionEndModel) -> EasySshScreenModel {
        let s = match end {
            SessionEndModel::Success => self.note(true, "ssh "@ + alias + ": session ended"@),
            SessionEndModel::Exited(status) => self.note(false, "ssh "@ + alias + ": exited with "@ + status),
            SessionEndModel::NotLaunched(e) => self.note(
                false,
                "ssh "@ + alias + ": failed to launch ("@ + e + ")"@,
            ),
        };
        s.ask(RequestModel::RecordSsh(alias)).ask(RequestModel::Refresh { told: false })
    }
}

impl EasySshScreen {
    /// A screen that asks for the hosts.
    pub fn new() -> (r: EasySshScreen)
        ensures
            r@ == EasySshScreenModel::fresh(),
    {
        let r = EasySshScreen {
            tab: Tab::Servers,
            servers: Vec::new(),
            search: Input::default(),
            focus: Focus::List,
            sort_mode: SortMode::AliasAsc,
            selected_row: 0,
            tags_view: TagsView::List,
            tags_selected_row: 0,
            tag_filter: String::new(),
            modal: None,
            log: Log::new(),
            pending_action: None,
            requests: vec![Request::Refresh { told: false }],
        };
        assert(r@.servers =~= Seq::empty());
        assert(r@.requests =~= EasySshScreenModel::fresh().requests);
        r
    }

    /// Hands out the queued requests.
    pub fn take_requests(&mut self) -> (r: Vec<Request>)
        ensures
            r.deep_view() == old(self)@.requests,
            final(self)@ == (EasySshScreenModel { requests: Seq::empty(), ..old(self)@ }),
    {
        let mut r: Vec<Request> = Vec::new();
        std::mem::swap(&mut r, &mut self.requests);
        assert(self@.requests =~= Seq::empty());
        r
    }

    /// Hands out the program to run, if one waits.
    pub fn take_pending_action(&mut self) -> (r: Option<PendingAction>)
        ensures
            r.deep_view() == old(self)@.pending_action,
            final(self)@ == (EasySshScreenModel { pending_action: None, ..old(self)@ }),
    {
        let mut r: Option<PendingAction> = None;
        std::mem::swap(&mut r, &mut self.pending_action);
        r
    }

    fn ask(&mut self, r: Request)
        ensures
            final(self)@ == old(self)@.ask(r@),
    {
        append_to(&mut self.requests, r);
    }

    pub fn refresh(&mut self)
        ensures
            final(self)@ == old(self)@.ask(RequestModel::Refresh { told: false }),
    {
        self.ask(Request::Refresh { told: false });
    }

    pub fn on_interactive_done(&mut self, alias: &str, end: SessionEnd)
        ensures
            final(self)@ == old(self)@.session_ended(alias@, end@),
    {
        match end {
            SessionEnd::Success => self.log.note(true, text::cat3("ssh ", alias, ": session ended")),
            SessionEnd::Exited(status) => {
                self.log.note(false, text::cat4("ssh ", alias, ": exited with ", status.as_str()))
            },
            SessionEnd::NotLaunched(e) => {
                self.log.note(false, text::cat5("ssh ", alias, ": failed to launch (", e.as_str(), ")"))
            },
        }
        self.ask(Request::RecordSsh(text::owned(alias)));
        self.refresh();
    }

    /// Takes in what came of requests.
    pub fn tick(&mut self, msgs: Vec<Msg>)
        ensures
            final(self)@ == old(self)@.ticked(msgs.deep_view()),
    {
        let ghost all = msgs.deep_view();
        let ghost start = self@;
        let mut i: usize = 0;
        assert(all.take(0) =~= Seq::empty());
        while i < msgs.len()
            invariant
                i <= msgs@.len(),
                all == msgs.deep_view(),
                self@ == start.ticked(all.take(i as int)),
            decreases msgs@.len() - i,
        {
            proof {
                assert(all.take(i + 1).drop_last() =~= all.take(i as int));
                assert(all.take(i + 1).last() == msgs@[i as int]@);
            }
            self.receive(&msgs[i]);
            i = i + 1;
        }
        assert(all.take(all.len() as int) =~= all);
    }

    fn receive(&mut self, m: &Msg)
        ensures
            final(self)@ == old(self)@.on_msg(m@),
    {
        self.absorb(m);
        if let Some((ok, line)) = m.line() {
            self.log.note(ok, line);
        }
        let refreshes = match m {
            Msg::Saved(_) | Msg::TagsSet(_) | Msg::Deleted(_) => true,
            Msg::PinSet { alias: _, pinned: _ } => true,
            _ => false,
        };
        if refreshes {
            self.refresh();
        }
    }

    fn open_picker(&mut self, p: FilePicker)
        ensures
            final(self)@ == old(self)@.picking(p@),
    {
        match &mut self.modal {
            Some(Modal::Add(f)) => f.key_picker = Some(p),
            Some(Modal::Edit(f)) => f.key_picker = Some(p),
            _ => {},
        }
    }

    fn absorb(&mut self, m: &Msg)
        ensures
            final(self)@ == old(self)@.absorb(m@),
    {
        match m {
            Msg::Listed { servers, told: _ } => self.servers = servers.copy(),
            Msg::ListFailed { error, told: _ } => {
                self.log.note(false, text::cat2("Failed to load ~/.ssh/config: ", error.as_str()))
            },
            Msg::Saved(_) => {
                let form = match &self.modal {
                    Some(Modal::Add(_)) | Some(Modal::Edit(_)) => true,
                    _ => false,
                };
                if form {
                    self.modal = None;
                }
            },
            Msg::KeyDir { listing, preselect } => self.open_picker(FilePicker::new(listing, preselect.copy())),
            Msg::DirRead(listing) => {
                let picking = match &self.modal {
                    Some(Modal::Add(f)) => f.key_picker.is_some(),
                    Some(Modal::Edit(f)) => f.key_picker.is_some(),
                    _ => false,
                };
                if picking {
                    self.open_picker(FilePicker::new(listing, None));
                }
            },
            Msg::HistoryCopied(ok) => self.log.copied(*ok),
            _ => {},
        }
    }

    // ---------------------------------------------------------------- rows

    /// The hosts that match the search, in the order of the mode.
    pub fn rows_for_servers_tab(&self) -> (r: Vec<&Server>)
        ensures
            r.deep_view() == self@.server_rows(),
    {
        let q = text::trim_lower(self.search.value().as_str());
        let ghost keep = |s: ServerModel| q@.len() == 0 || server_list::matching(s, q@);
        let ghost all = self.servers.deep_view();
        let mut rows: Vec<&Server> = Vec::new();
        let mut i: usize = 0;
        proof {
            reveal(Seq::filter);
            assert(all.take(0) =~= Seq::empty());
            assert(rows.deep_view() =~= Seq::<ServerModel>::empty().filter(keep));
        }
        while i < self.servers.len()
            invariant
                i <= self.servers@.len(),
                all == self.servers.deep_view(),
                keep == (|s: ServerModel| q@.len() == 0 || server_list::matching(s, q@)),
                rows.deep_view() == all.take(i as int).filter(keep),
            decreases self.servers@.len() - i,
        {
            proof {
                reveal(Seq::filter);
                assert(all.take(i + 1).drop_last() =~= all.take(i as int));
                assert(all.take(i + 1).last() == self.servers@[i as int]@);
            }
            if q.as_str().is_empty() || matches_query(&self.servers[i], q.as_str()) {
                let ghost before = rows.deep_view();
                rows.push(&self.servers[i]);
                assert(rows.deep_view() =~= before.push(self.servers@[i as int]@));
            }
            i = i + 1;
        }
        assert(all.take(all.len() as int) =~= all);
        sort_servers(rows, self.sort_mode)
    }

    /// The hosts of a group, in the order of the mode.
    pub fn rows_for_tag(&self, tag: &str) -> (r: Vec<&Server>)
        ensures
            r.deep_view() == self@.group_rows(tag@),
    {
        let ghost keep = |s: ServerModel| server_list::in_group(s, tag@);
        let ghost all = self.servers.deep_view();
        let mut rows: Vec<&Server> = Vec::new();
        let mut i: usize = 0;
        proof {
            reveal(Seq::filter);
            assert(all.take(0) =~= Seq::empty());
            assert(rows.deep_view() =~= Seq::<ServerModel>::empty().filter(keep));
        }
        while i < self.servers.len()
            invariant
                i <= self.servers@.len(),
                all == self.servers.deep_view(),
                keep == (|s: ServerModel| server_list::in_group(s, tag@)),
                rows.deep_view() == all.take(i as int).filter(keep),
            decreases self.servers@.len() - i,
        {
            proof {
                reveal(Seq::filter);
                assert(all.take(i + 1).drop_last() =~= all.take(i as int));
                assert(all.take(i + 1).last() == self.servers@[i as int]@);
            }
            if is_in_group(&self.servers[i], tag) {
                let ghost before = rows.deep_view();
                rows.push(&self.servers[i]);
                assert(rows.deep_view() =~= before.push(self.servers@[i as int]@));
            }
            i = i + 1;
        }
        assert(all.take(all.len() as int) =~= all);
        sort_servers(rows, self.sort_mode)
    }

    /// The list that is on the screen.
    pub fn current_rows(&self) -> (r: Vec<&Server>)
        ensures
            r.deep_view() == self@.current_rows(),
    {
        if self.tab == Tab::Tags && self.tags_view == TagsView::Filtered {
            self.rows_for_tag(self.tag_filter.as_str())
        } else {
            self.rows_for_servers_tab()
        }
    }

    /// The groups of hosts by tag.
    pub fn distinct_tags(&self) -> (r: Vec<(String, usize)>)
        ensures
            server_list::census_of(r@) == self@.groups(),
    {
        distinct_tags(&self.servers)
    }

    // ------------------------------------------------------- rows: actions

    fn act(&mut self, a: RowAction)
        ensures
            final(self)@ == old(self)@.act(a),
    {
        let rows = self.current_rows();
        let i: usize = self.selected_row;
        if i >= rows.len() {
            return;
        }
        assert(rows.deep_view()[i as int] == rows@[i as int]@);
        let s = rows[i].copy();
        self.act_on(a, s);
    }

    fn act_on(&mut self, a: RowAction, s: Server)
        ensures
            final(self)@ == old(self)@.acted(a, s@),
    {
        match a {
            RowAction::Connect => {
                let args = vec![s.alias.clone()];
                assert(args.deep_view() =~= seq![s.alias@]);
                self.pending_action = Some(
                    PendingAction::RunInteractive { program: text::owned("ssh"), args, alias: s.alias },
                );
            },
            RowAction::Edit => self.modal = Some(Modal::Edit(ServerForm::new_edit(&s))),
            RowAction::Delete => self.modal = Some(Modal::ConfirmDelete(ConfirmDeleteModal::new(s.alias))),
            RowAction::Pin => {
                let pinned = s.pinned_at.is_none();
                self.ask(Request::SetPinned { alias: s.alias, pinned });
            },
            RowAction::Tags => self.modal = Some(Modal::EditTags(EditTagsModal::new(&s))),
            RowAction::Copy => self.ask(Request::CopyCommand(s)),
            RowAction::Ping => {
                self.log.note(true, text::cat3("Pinging ", s.alias.as_str(), "\u{2026}"));
                self.ask(Request::Ping(s));
            },
            RowAction::StartForward => self.start_forward(s),
            RowAction::StopForward => self.ask(Request::StopForward(s.alias)),
        }
    }

    fn start_forward(&mut self, s: Server)
        ensures
            final(self)@ == old(self)@.acted(RowAction::StartForward, s@),
    {
        if s.local_forward.len() == 0 && s.remote_forward.len() == 0 && s.dynamic_forward.len() == 0 {
            let line = text::cat2(
                s.alias.as_str(),
                " has no LocalForward/RemoteForward/DynamicForward set (edit the server to add one)",
            );
            self.log.note(false, line);
        } else {
            self.ask(Request::StartForward(s.alias));
        }
    }

    // ---------------------------------------------------------------- keys

    fn handle_search_key(&mut self, key: KeyCode)
        ensures
            final(self)@ == old(self)@.on_search_key(key),
    {
        match key {
            KeyCode::Esc => self.focus = Focus::List,
            KeyCode::Enter | KeyCode::Up | KeyCode::Down => {
                self.focus = Focus::List;
                self.selected_row = 0;
            },
            KeyCode::Char(_) | KeyCode::Backspace => {
                self.search.edit(key);
                self.selected_row = 0;
            },
            _ => self.search.edit(key),
        }
    }

    fn handle_list_char(&mut self, c: char)
        ensures
            final(self)@ == old(self)@.on_list_char(c),
    {
        if c == '/' {
            self.focus = Focus::Search;
        } else if c == 'a' {
            self.modal = Some(Modal::Add(ServerForm::new_add()));
        } else if c == 'r' {
            self.ask(Request::Refresh { told: true });
        } else if c == 's' {
            self.sort_mode = self.sort_mode.toggle_field();
        } else if c == 'S' {
            self.sort_mode = self.sort_mode.reverse();
        }
    }

    pub fn handle_servers_key(&mut self, key: KeyCode) -> (leave: bool)
        ensures
            (final(self)@, leave) == old(self)@.on_servers_key(key),
    {
        if self.focus == Focus::Search {
            self.handle_search_key(key);
            return false;
        }
        if key == KeyCode::Esc {
            return true;
        }
        if is_up(key) || is_down(key) {
            let n: usize = self.rows_for_servers_tab().len();
            self.selected_row = cycle::step(self.selected_row, is_up(key), n);
            return false;
        }
        match RowAction::for_key(key) {
            Some(a) => self.act(a),
            None => if let KeyCode::Char(c) = key {
                self.handle_list_char(c);
            },
        }
        false
    }

    fn open_group(&mut self, i: usize)
        ensures
            final(self)@ == old(self)@.open_group(i as int),
    {
        let tags = self.distinct_tags();
        if i < tags.len() {
            assert(server_list::census_of(tags@)[i as int].0 == tags@[i as int].0@);
            self.tag_filter = if text::same(tags[i].0.as_str(), "(untagged)") {
                String::new()
            } else {
                tags[i].0.clone()
            };
            self.tags_view = TagsView::Filtered;
            self.selected_row = 0;
        }
    }

    fn handle_groups_key(&mut self, key: KeyCode) -> (leave: bool)
        ensures
            (final(self)@, leave) == old(self)@.on_groups_key(key),
    {
        if key == KeyCode::Esc {
            return true;
        }
        if is_up(key) || is_down(key) {
            let n: usize = self.distinct_tags().len();
            self.tags_selected_row = cycle::step(self.tags_selected_row, is_up(key), n);
        } else if key == KeyCode::Enter {
            let i: usize = self.tags_selected_row;
            self.open_group(i);
        }
        false
    }

    fn handle_group_key(&mut self, key: KeyCode)
        ensures
            final(self)@ == old(self)@.on_group_key(key),
    {
        if key == KeyCode::Esc {
            self.tags_view = TagsView::List;
        } else if is_up(key) || is_down(key) {
            let n: usize = self.rows_for_tag(self.tag_filter.as_str()).len();
            self.selected_row = cycle::step(self.selected_row, is_up(key), n);
        } else if let Some(a) = RowAction::for_key(key) {
            self.act(a);
        }
    }

    pub fn handle_tags_key(&mut self, key: KeyCode) -> (leave: bool)
        ensures
            (final(self)@, leave) == match old(self)@.tags_view {
                TagsView::List => old(self)@.on_groups_key(key),
                TagsView::Filtered => (old(self)@.on_group_key(key), false),
            },
    {
        match self.tags_view {
            TagsView::List => self.handle_groups_key(key),
            TagsView::Filtered => {
                self.handle_group_key(key);
                false
            },
        }
    }

    fn save_server(&mut self, add: bool, alias: String, server: Server)
        ensures
            final(self)@ == if add {
                old(self)@.ask(RequestModel::AddServer(server@))
            } else {
                old(self)@.ask(RequestModel::UpdateServer { alias: alias@, server: server@ })
            },
    {
        if add {
            self.ask(Request::AddServer(server));
        } else {
            self.ask(Request::UpdateServer { alias, server });
        }
    }

    fn end_form(&mut self, adding: bool, f: ServerForm, a: FormAction)
        ensures
            final(self)@ == old(self)@.form_done(
                if adding {
                    ModalModel::Add(f@)
                } else {
                    ModalModel::Edit(f@)
                },
                f@,
                a@,
            ),
    {
        self.modal = None;
        let mut save: Option<(bool, String, Server)> = None;
        match a {
            FormAction::Close => {
                return;
            },
            FormAction::Nothing => {},
            FormAction::Save => {
                save = Some((f.is_add(), f.base.alias.clone(), f.build_server()));
            },
            FormAction::BrowseKey(p) => self.ask(Request::BrowseKey(p)),
            FormAction::ReadDir(p) => self.ask(Request::ReadDir(p)),
        }
        if let Some((add, alias, server)) = save {
            self.save_server(add, alias, server);
        }
        self.modal = Some(
            if adding {
                Modal::Add(f)
            } else {
                Modal::Edit(f)
            },
        );
    }

    fn end_tags(&mut self, m: EditTagsModal, a: SmallAction)
        ensures
            final(self)@ == old(self)@.tags_done(m@, a),
    {
        self.modal = None;
        match a {
            SmallAction::Nothing => self.modal = Some(Modal::EditTags(m)),
            SmallAction::Close => {},
            SmallAction::Act => {
                let tags = parse_csv(m.tags.value().as_str());
                self.ask(Request::SetTags { alias: m.alias, tags });
            },
        }
    }

    fn end_confirm(&mut self, m: ConfirmDeleteModal, a: SmallAction)
        ensures
            final(self)@ == old(self)@.confirm_done(m@, a),
    {
        self.modal = None;
        match a {
            SmallAction::Nothing => self.modal = Some(Modal::ConfirmDelete(m)),
            SmallAction::Close => {},
            SmallAction::Act => self.ask(Request::DeleteServer(m.alias)),
        }
    }

    pub fn handle_modal_key(&mut self, modal: Modal, key: KeyCode)
        ensures
            final(self)@ == old(self)@.on_modal_key(modal@, key),
    {
        match modal {
            Modal::Add(f) => {
                let mut f = f;
                let a = f.handle_key(key);
                self.end_form(true, f, a);
            },
            Modal::Edit(f) => {
                let mut f = f;
                let a = f.handle_key(key);
                self.end_form(false, f, a);
            },
            Modal::EditTags(m) => {
                let mut m = m;
                let a = m.handle_key(key);
                self.end_tags(m, a);
            },
            Modal::ConfirmDelete(m) => {
                let mut m = m;
                let a = m.handle_key(key);
                self.end_confirm(m, a);
            },
        }
    }

    pub fn handle_key(&mut self, key: KeyEvent) -> (leave: bool)
        ensures
            (final(self)@, leave) == old(self)@.on_key(key),
    {
        if key.is_chord('c') {
            return true;
        }
        if key.is_chord('y') {
            self.ask(Request::CopyHistory);
            return false;
        }
        if is_history_scroll(&key) {
            self.log.scroll_by(key.code == KeyCode::Up);
            return false;
        }
        let mut modal: Option<Modal> = None;
        std::mem::swap(&mut modal, &mut self.modal);
        if let Some(m) = modal {
            self.handle_modal_key(m, key.code);
            return false;
        }
        if let KeyCode::F(n) = key.code {
            if n == 1 {
                self.tab = Tab::Servers;
                return false;
            }
            if n == 2 {
                self.tab = Tab::Tags;
                return false;
            }
        }
        match self.tab {
            Tab::Servers => self.handle_servers_key(key.code),
            Tab::Tags => self.handle_tags_key(key.code),
        }
    }

    // --------------------------------------------------------------- mouse

    /// The rectangles that the screen is drawn into.
    pub fn layout(&self, area: Rect) -> (l: EasySshLayout)
        ensures
            l@.of(area),
            l@.complete(),
    {
        let cs = vec![Constraint::Length(1), Constraint::Min(0)];
        assert(cs@ =~= screen_rows());
        let screen = split_rows(area, 0, &cs);
        let cs = vec![Constraint::Length(5), Constraint::Min(6), Constraint::Length(2), Constraint::Length(6)];
        assert(cs@ =~= server_rows());
        let servers = split_rows(screen[1], 0, &cs);
        let cs = vec![Constraint::Min(6), Constraint::Length(2)];
        assert(cs@ =~= tag_list_rows());
        let tag_list = split_rows(screen[1], 0, &cs);
        let cs = vec![Constraint::Min(6), Constraint::Length(2), Constraint::Length(6)];
        assert(cs@ =~= tag_server_rows());
        let tag_rows = split_rows(screen[1], 0, &cs);
        let tags_modal = split_rows(mouse::block_inner(modal_area(60, 9, 4, 2, area)), 1, &line_constraints(4));
        let delete_modal = split_rows(mouse::block_inner(modal_area(60, 7, 4, 2, area)), 1, &line_constraints(3));
        EasySshLayout { screen, servers, tag_list, tag_rows, tags_modal, delete_modal }
    }

    /// A mouse event on a screen drawn into `area`.
    pub fn handle_mouse(&mut self, me: MouseEvent, area: Rect)
        ensures
            exists|l: EasySshLayoutModel| #[trigger] l.of(area) && final(self)@ == old(self)@.on_mouse(me, l),
    {
        let l = self.layout(area);
        self.mouse_on(me, &l);
    }

    /// A mouse event on a screen drawn into these rectangles.
    pub fn mouse_on(&mut self, me: MouseEvent, l: &EasySshLayout)
        requires
            l@.complete(),
        ensures
            final(self)@ == old(self)@.on_mouse(me, l@),
    {
        let mut modal: Option<Modal> = None;
        std::mem::swap(&mut modal, &mut self.modal);
        if let Some(m) = modal {
            self.handle_modal_mouse(m, me, l);
            return;
        }
        if let Some((x, y)) = mouse::left_click(&me) {
            let labels = ["F1 Servers", "F2 Tags"];
            assert(labels.deep_view() =~= tab_labels());
            if let Some(i) = mouse::label_row_hit(x, y, l.screen[0], &labels) {
                self.tab = if i == 0 {
                    Tab::Servers
                } else {
                    Tab::Tags
                };
                return;
            }
        }
        match self.tab {
            Tab::Servers => self.handle_servers_mouse(me, l),
            Tab::Tags => match self.tags_view {
                TagsView::List => self.handle_groups_mouse(me, l),
                TagsView::Filtered => self.handle_group_mouse(me, l),
            },
        }
    }

    pub fn handle_modal_mouse(&mut self, modal: Modal, me: MouseEvent, l: &EasySshLayout)
        requires
            l@.complete(),
        ensures
            final(self)@ == old(self)@.on_modal_mouse(modal@, me, l@),
    {
        let Some((x, y)) = mouse::left_click(&me) else {
            self.modal = Some(modal);
            return;
        };
        match modal {
            Modal::EditTags(m) => {
                let mut m = m;
                let a = m.click(x, y, &l.tags_modal);
                self.end_tags(m, a);
            },
            Modal::ConfirmDelete(m) => {
                let a = m.click(x, y, &l.delete_modal);
                self.end_confirm(m, a);
            },
            Modal::Add(f) => self.modal = Some(Modal::Add(f)),
            Modal::Edit(f) => self.modal = Some(Modal::Edit(f)),
        }
    }

    pub fn handle_servers_mouse(&mut self, me: MouseEvent, l: &EasySshLayout)
        requires
            l@.complete(),
        ensures
            final(self)@ == old(self)@.on_servers_mouse(me, l@),
    {
        let n: usize = self.rows_for_servers_tab().len();
        if let Some(delta) = mouse::scroll_delta(&me) {
            if n > 0 && mouse::in_rect(l.servers[1], me.column, me.row) {
                self.selected_row = cycle::step(self.selected_row, delta < 0, n);
            } else if mouse::in_rect(l.servers[3], me.column, me.row) {
                self.log.scroll_by(delta < 0);
            }
            return;
        }
        let Some((x, y)) = mouse::left_click(&me) else {
            return;
        };
        if mouse::in_rect(mouse::block_inner(l.servers[0]), x, y) {
            self.focus = Focus::Search;
            return;
        }
        if let Some(i) = mouse::table_row_hit(x, y, l.servers[1], 1, n, self.selected_row) {
            self.focus = Focus::List;
            self.selected_row = i;
            self.act(RowAction::Connect);
        }
    }

    fn handle_groups_mouse(&mut self, me: MouseEvent, l: &EasySshLayout)
        requires
            l@.complete(),
        ensures
            final(self)@ == old(self)@.on_groups_mouse(me, l@),
    {
        let n: usize = self.distinct_tags().len();
        if let Some(delta) = mouse::scroll_delta(&me) {
            if n > 0 && mouse::in_rect(l.tag_list[0], me.column, me.row) {
                self.tags_selected_row = cycle::step(self.tags_selected_row, delta < 0, n);
            }
            return;
        }
        let Some((x, y)) = mouse::left_click(&me) else {
            return;
        };
        if let Some(i) = mouse::table_row_hit(x, y, l.tag_list[0], 0, n, self.tags_selected_row) {
            self.open_group(i);
        }
    }

    fn handle_group_mouse(&mut self, me: MouseEvent, l: &EasySshLayout)
        requires
            l@.complete(),
        ensures
            final(self)@ == old(self)@.on_group_mouse(me, l@),
    {
        let n: usize = self.rows_for_tag(self.tag_filter.as_str()).len();
        if let Some(delta) = mouse::scroll_delta(&me) {
            if n > 0 && mouse::in_rect(l.tag_rows[0], me.column, me.row) {
                self.selected_row = cycle::step(self.selected_row, delta < 0, n);
            } else if mouse::in_rect(l.tag_rows[2], me.column, me.row) {
                self.log.scroll_by(delta < 0);
            }
            return;
        }
        let Some((x, y)) = mouse::left_click(&me) else {
            return;
        };
        if let Some(i) = mouse::table_row_hit(x, y, l.tag_rows[0], 1, n, self.selected_row) {
            self.selected_row = i;
            self.act(RowAction::Connect);
        }
    }
}

} // verus!
