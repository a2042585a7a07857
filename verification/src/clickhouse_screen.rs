//! ClickHouse User Manager: connection profiles, either SQL over HTTP
//! (optionally through an SSH tunnel) or SSH with `users.d/*.xml`, and the
//! users on the selected one.
//!
//! The screen does no input or output of its own. What has to be done outside
//! is queued in `requests`; what came of it is handed to [`ClickHouseScreen::tick`].
use vstd::prelude::*;

use crate::cycle::{next_of, prev_of, Field};
use crate::cycle;
use crate::event::{KeyCode, KeyEvent, MouseEvent};
use crate::file_picker::{Activation, ActivationModel, FilePicker, FilePickerModel, Listing, ListingModel};
use crate::form::{field_row_hit, line_constraints, Row};
use crate::form;
use crate::geometry::{split_rows, Constraint, Rect};
use crate::geometry;
use crate::host_picker::{HostPicker, HostPickerModel, PickerStep};
use crate::file_picker;
use crate::host_picker;
use crate::log::{is_closing, is_history_scroll, Log, LogModel};
use crate::log;
use crate::model::{append_to, Copyable};
use crate::mouse;
use crate::servers::{Server, ServerModel};
use crate::text;
use crate::widgets::{Input, InputModel};

verus! {

// ---------------------------------------------------------------- profiles

/// A saved connection profile, without its passwords.
pub struct Connection {
    pub id: String,
    pub label: String,
    pub is_sql: bool,
    pub host: String,
    pub port: String,
    pub db_user: String,
    pub use_tunnel: bool,
    pub ssh_host: String,
    pub ssh_port: String,
    pub ssh_user: String,
    pub ssh_key_path: String,
    pub tag_mode: String,
}

pub struct ConnectionModel {
    pub id: Seq<char>,
    pub label: Seq<char>,
    pub is_sql: bool,
    pub host: Seq<char>,
    pub port: Seq<char>,
    pub db_user: Seq<char>,
    pub use_tunnel: bool,
    pub ssh_host: Seq<char>,
    pub ssh_port: Seq<char>,
    pub ssh_user: Seq<char>,
    pub ssh_key_path: Seq<char>,
    pub tag_mode: Seq<char>,
}

impl View for Connection {
    type V = ConnectionModel;

    open spec fn view(&self) -> ConnectionModel {
        ConnectionModel {
            id: self.id@,
            label: self.label@,
            is_sql: self.is_sql,
            host: self.host@,
            port: self.port@,
            db_user: self.db_user@,
            use_tunnel: self.use_tunnel,
            ssh_host: self.ssh_host@,
            ssh_port: self.ssh_port@,
            ssh_user: self.ssh_user@,
            ssh_key_path: self.ssh_key_path@,
            tag_mode: self.tag_mode@,
        }
    }
}

impl DeepView for Connection {
    type V = ConnectionModel;

    open spec fn deep_view(&self) -> ConnectionModel {
        self@
    }
}

impl Copyable for Connection {
    fn copy(&self) -> (r: Self) {
        Connection {
            id: self.id.clone(),
            label: self.label.clone(),
            is_sql: self.is_sql,
            host: self.host.clone(),
            port: self.port.clone(),
            db_user: self.db_user.clone(),
            use_tunnel: self.use_tunnel,
            ssh_host: self.ssh_host.clone(),
            ssh_port: self.ssh_port.clone(),
            ssh_user: self.ssh_user.clone(),
            ssh_key_path: self.ssh_key_path.clone(),
            tag_mode: self.tag_mode.clone(),
        }
    }
}

/// A connection profile with its passwords in the clear.
pub struct ConnectionWithSecrets {
    pub id: String,
    pub label: String,
    pub is_sql: bool,
    pub host: String,
    pub port: String,
    pub db_user: String,
    pub db_password: String,
    pub use_tunnel: bool,
    pub ssh_host: String,
    pub ssh_port: String,
    pub ssh_user: String,
    pub ssh_key_path: String,
    pub ssh_password: String,
    pub tag_mode: String,
}

pub struct ConnectionWithSecretsModel {
    pub id: Seq<char>,
    pub label: Seq<char>,
    pub is_sql: bool,
    pub host: Seq<char>,
    pub port: Seq<char>,
    pub db_user: Seq<char>,
    pub db_password: Seq<char>,
    pub use_tunnel: bool,
    pub ssh_host: Seq<char>,
    pub ssh_port: Seq<char>,
    pub ssh_user: Seq<char>,
    pub ssh_key_path: Seq<char>,
    pub ssh_password: Seq<char>,
    pub tag_mode: Seq<char>,
}

impl View for ConnectionWithSecrets {
    type V = ConnectionWithSecretsModel;

    open spec fn view(&self) -> ConnectionWithSecretsModel {
        ConnectionWithSecretsModel {
            id: self.id@,
            label: self.label@,
            is_sql: self.is_sql,
            host: self.host@,
            port: self.port@,
            db_user: self.db_user@,
            db_password: self.db_password@,
            use_tunnel: self.use_tunnel,
            ssh_host: self.ssh_host@,
            ssh_port: self.ssh_port@,
            ssh_user: self.ssh_user@,
            ssh_key_path: self.ssh_key_path@,
            ssh_password: self.ssh_password@,
            tag_mode: self.tag_mode@,
        }
    }
}

impl DeepView for ConnectionWithSecrets {
    type V = ConnectionWithSecretsModel;

    open spec fn deep_view(&self) -> ConnectionWithSecretsModel {
        self@
    }
}

impl Copyable for ConnectionWithSecrets {
    fn copy(&self) -> (r: Self) {
        ConnectionWithSecrets {
            id: self.id.clone(),
            label: self.label.clone(),
            is_sql: self.is_sql,
            host: self.host.clone(),
            port: self.port.clone(),
            db_user: self.db_user.clone(),
            db_password: self.db_password.clone(),
            use_tunnel: self.use_tunnel,
            ssh_host: self.ssh_host.clone(),
            ssh_port: self.ssh_port.clone(),
            ssh_user: self.ssh_user.clone(),
            ssh_key_path: self.ssh_key_path.clone(),
            ssh_password: self.ssh_password.clone(),
            tag_mode: self.tag_mode.clone(),
        }
    }
}

/// What the form says of a profile. An empty password keeps the saved one.
pub struct ConnectionInput {
    pub label: String,
    pub is_sql: bool,
    pub host: String,
    pub port: String,
    pub db_user: String,
    pub db_password: String,
    pub use_tunnel: bool,
    pub ssh_host: String,
    pub ssh_port: String,
    pub ssh_user: String,
    pub ssh_key_path: String,
    pub ssh_password: String,
    pub tag_mode: String,
}

pub struct ConnectionInputModel {
    pub label: Seq<char>,
    pub is_sql: bool,
    pub host: Seq<char>,
    pub port: Seq<char>,
    pub db_user: Seq<char>,
    pub db_password: Seq<char>,
    pub use_tunnel: bool,
    pub ssh_host: Seq<char>,
    pub ssh_port: Seq<char>,
    pub ssh_user: Seq<char>,
    pub ssh_key_path: Seq<char>,
    pub ssh_password: Seq<char>,
    pub tag_mode: Seq<char>,
}

impl View for ConnectionInput {
    type V = ConnectionInputModel;

    open spec fn view(&self) -> ConnectionInputModel {
        ConnectionInputModel {
            label: self.label@,
            is_sql: self.is_sql,
            host: self.host@,
            port: self.port@,
            db_user: self.db_user@,
            db_password: self.db_password@,
            use_tunnel: self.use_tunnel,
            ssh_host: self.ssh_host@,
            ssh_port: self.ssh_port@,
            ssh_user: self.ssh_user@,
            ssh_key_path: self.ssh_key_path@,
            ssh_password: self.ssh_password@,
            tag_mode: self.tag_mode@,
        }
    }
}

impl DeepView for ConnectionInput {
    type V = ConnectionInputModel;

    open spec fn deep_view(&self) -> ConnectionInputModel {
        self@
    }
}

impl Copyable for ConnectionInput {
    fn copy(&self) -> (r: Self) {
        ConnectionInput {
            label: self.label.clone(),
            is_sql: self.is_sql,
            host: self.host.clone(),
            port: self.port.clone(),
            db_user: self.db_user.clone(),
            db_password: self.db_password.clone(),
            use_tunnel: self.use_tunnel,
            ssh_host: self.ssh_host.clone(),
            ssh_port: self.ssh_port.clone(),
            ssh_user: self.ssh_user.clone(),
            ssh_key_path: self.ssh_key_path.clone(),
            ssh_password: self.ssh_password.clone(),
            tag_mode: self.tag_mode.clone(),
        }
    }
}

/// The saved profiles, and those whose passwords could be opened.
pub struct Config {
    pub connections: Vec<Connection>,
    pub opened: Vec<ConnectionWithSecrets>,
}

pub struct ConfigModel {
    pub connections: Seq<ConnectionModel>,
    pub opened: Seq<ConnectionWithSecretsModel>,
}

impl View for Config {
    type V = ConfigModel;

    open spec fn view(&self) -> ConfigModel {
        ConfigModel {
            connections: self.connections.deep_view(),
            opened: self.opened.deep_view(),
        }
    }
}

impl DeepView for Config {
    type V = ConfigModel;

    open spec fn deep_view(&self) -> ConfigModel {
        self@
    }
}

impl Copyable for Config {
    fn copy(&self) -> (r: Self) {
        Config {
            connections: self.connections.copy(),
            opened: self.opened.copy(),
        }
    }
}

/// A user of the server.
pub struct UserInfo {
    pub name: String,
    pub profile: String,
    pub ips: Vec<String>,
}

pub struct UserInfoModel {
    pub name: Seq<char>,
    pub profile: Seq<char>,
    pub ips: Seq<Seq<char>>,
}

impl View for UserInfo {
    type V = UserInfoModel;

    open spec fn view(&self) -> UserInfoModel {
        UserInfoModel {
            name: self.name@,
            profile: self.profile@,
            ips: self.ips.deep_view(),
        }
    }
}

impl DeepView for UserInfo {
    type V = UserInfoModel;

    open spec fn deep_view(&self) -> UserInfoModel {
        self@
    }
}

impl Copyable for UserInfo {
    fn copy(&self) -> (r: Self) {
        UserInfo {
            name: self.name.clone(),
            profile: self.profile.clone(),
            ips: self.ips.copy(),
        }
    }
}

/// The first profile of that label.
pub open spec fn by_label(s: Seq<ConnectionModel>, label: Seq<char>) -> Option<ConnectionModel>
    decreases s.len(),
{
    if s.len() == 0 {
        None
    } else if s[0].label == label {
        Some(s[0])
    } else {
        by_label(s.drop_first(), label)
    }
}

/// The first opened profile of that id.
pub open spec fn by_id(s: Seq<ConnectionWithSecretsModel>, id: Seq<char>) -> Option<ConnectionWithSecretsModel>
    decreases s.len(),
{
    if s.len() == 0 {
        None
    } else if s[0].id == id {
        Some(s[0])
    } else {
        by_id(s.drop_first(), id)
    }
}

impl ConnectionModel {
    /// Where the profile leads: the host for SQL, the SSH host else.
    pub open spec fn target_host(self) -> Seq<char> {
        if self.is_sql {
            self.host
        } else {
            self.ssh_host
        }
    }

    /// Whether the label or the target contains a query in lower case.
    pub open spec fn matches(self, q: Seq<char>) -> bool {
        ||| q.len() == 0
        ||| text::occurs(text::lowercase(self.label), q)
        ||| text::occurs(text::lowercase(self.target_host()), q)
    }
}

impl ConfigModel {
    pub open spec fn with_secrets(self, id: Seq<char>) -> Option<ConnectionWithSecretsModel> {
        by_id(self.opened, id)
    }

    /// The labels of the profiles that match what was typed.
    pub open spec fn filtered(self, query: Seq<char>) -> Seq<Seq<char>> {
        labels_matching(self.connections, text::lowercase(query))
    }

    pub open spec fn get(self, i: int) -> Option<ConnectionModel> {
        if 0 <= i < self.connections.len() {
            Some(self.connections[i])
        } else {
            None
        }
    }
}

pub open spec fn labels_matching(s: Seq<ConnectionModel>, q: Seq<char>) -> Seq<Seq<char>>
    decreases s.len(),
{
    if s.len() == 0 {
        Seq::empty()
    } else {
        let front = labels_matching(s.drop_last(), q);
        if s.last().matches(q) {
            front.push(s.last().label)
        } else {
            front
        }
    }
}

impl Config {
    pub fn with_secrets(&self, id: &str) -> (r: Option<ConnectionWithSecrets>)
        ensures
            r.deep_view() == self@.with_secrets(id@),
    {
        let ghost s = self.opened.deep_view();
        let mut i: usize = 0;
        assert(s.skip(0) =~= s);
        while i < self.opened.len()
            invariant
                i <= self.opened@.len(),
                s == self.opened.deep_view(),
                by_id(s, id@) == by_id(s.skip(i as int), id@),
            decreases self.opened@.len() - i,
        {
            assert(s.skip(i as int)[0] == self.opened@[i as int]@);
            if text::same(self.opened[i].id.as_str(), id) {
                return Some(self.opened[i].copy());
            }
            assert(s.skip(i as int).drop_first() =~= s.skip(i + 1));
            i = i + 1;
        }
        None
    }

    fn find_label(&self, label: &str) -> (r: Option<&Connection>)
        ensures
            match r {
                Some(c) => by_label(self@.connections, label@) == Some(c@),
                None => by_label(self@.connections, label@) is None,
            },
    {
        let ghost s = self.connections.deep_view();
        let mut i: usize = 0;
        assert(s.skip(0) =~= s);
        while i < self.connections.len()
            invariant
                i <= self.connections@.len(),
                s == self.connections.deep_view(),
                by_label(s, label@) == by_label(s.skip(i as int), label@),
            decreases self.connections@.len() - i,
        {
            assert(s.skip(i as int)[0] == self.connections@[i as int]@);
            if text::same(self.connections[i].label.as_str(), label) {
                return Some(&self.connections[i]);
            }
            assert(s.skip(i as int).drop_first() =~= s.skip(i + 1));
            i = i + 1;
        }
        None
    }

    /// The profile at an index, if there is one.
    fn get(&self, i: usize) -> (r: Option<&Connection>)
        ensures
            match r {
                Some(c) => self@.get(i as int) == Some(c@),
                None => self@.get(i as int) is None,
            },
    {
        if i < self.connections.len() {
            assert(self.connections.deep_view()[i as int] == self.connections@[i as int]@);
            Some(&self.connections[i])
        } else {
            None
        }
    }
}

/// The labels that match by label or by the host that is the target of the
/// profile, so that typing an address finds it as well as typing its name.
pub fn filtered_connections(cfg: &Config, query: &str) -> (r: Vec<String>)
    ensures
        r.deep_view() == cfg@.filtered(query@),
{
    let q = query.to_lowercase();
    let ghost s = cfg.connections.deep_view();
    let mut r: Vec<String> = Vec::new();
    let mut i: usize = 0;
    assert(s.take(0) =~= Seq::empty());
    assert(r.deep_view() =~= labels_matching(s.take(0), q@));
    while i < cfg.connections.len()
        invariant
            i <= cfg.connections@.len(),
            s == cfg.connections.deep_view(),
            r.deep_view() == labels_matching(s.take(i as int), q@),
        decreases cfg.connections@.len() - i,
    {
        let c = &cfg.connections[i];
        proof {
            assert(s.take(i + 1).drop_last() =~= s.take(i as int));
            assert(s.take(i + 1).last() == c@);
        }
        let target = if c.is_sql {
            c.host.as_str()
        } else {
            c.ssh_host.as_str()
        };
        if q.as_str().is_empty() || text::lower_contains(c.label.as_str(), q.as_str())
            || text::lower_contains(target, q.as_str()) {
            append_to(&mut r, c.label.clone());
        }
        i = i + 1;
    }
    assert(s.take(s.len() as int) =~= s);
    r
}

/// How a profile is talked to.
#[derive(Clone, Copy, PartialEq, Eq, Structural, Debug)]
pub enum Route {
    /// SQL over HTTP.
    Sql,
    /// An SSH session on the host, and files in `users.d`.
    SshXml,
}

impl ConnectionWithSecrets {
    pub fn route(&self) -> (r: Route)
        ensures
            r == (if self@.is_sql {
                Route::Sql
            } else {
                Route::SshXml
            }),
    {
        if self.is_sql {
            Route::Sql
        } else {
            Route::SshXml
        }
    }
}

pub open spec fn profile_name(is_default: bool) -> Seq<char> {
    if is_default {
        "default"@
    } else {
        "readonly"@
    }
}

pub fn profile_str(is_default: bool) -> (r: &'static str)
    ensures
        r@ == profile_name(is_default),
{
    if is_default {
        "default"
    } else {
        "readonly"
    }
}

/// The addresses of a comma separated list.
pub open spec fn ips_of(raw: Seq<char>) -> Seq<Seq<char>> {
    text::trimmed_pieces(text::pieces(raw, text::is_comma()))
}

pub fn parse_ips(raw: &str) -> (r: Vec<String>)
    ensures
        r.deep_view() == ips_of(raw@),
{
    text::split_trimmed(raw, text::Separator::Comma)
}

// --------------------------------------------------------- connections tab

#[derive(Clone, Copy, PartialEq, Eq, Structural, Debug)]
pub enum Tab {
    Connections,
    Users,
}

#[derive(Clone, Copy, PartialEq, Eq, Structural, Debug)]
pub enum ConnField {
    Table,
    Label,
    Mode,
    Host,
    Port,
    DbUser,
    DbPassword,
    UseTunnel,
    SshHost,
    SshPort,
    SshUser,
    SshKeyPath,
    SshPassword,
    TagMode,
    BtnSave,
    BtnNew,
    BtnDelete,
    BtnTest,
}

impl Field for ConnField {
    fn same(self, other: Self) -> (r: bool) {
        self == other
    }
}

/// The fields that the focus goes through.
pub open spec fn active_fields(mode_is_sql: bool, use_tunnel: bool) -> Seq<ConnField> {
    seq![ConnField::Table, ConnField::Label, ConnField::Mode] + (if mode_is_sql {
        seq![ConnField::Host, ConnField::Port, ConnField::DbUser, ConnField::DbPassword, ConnField::UseTunnel]
            + (if use_tunnel {
            ssh_fields()
        } else {
            Seq::empty()
        })
    } else {
        ssh_fields().push(ConnField::TagMode)
    }) + seq![ConnField::BtnSave, ConnField::BtnNew, ConnField::BtnDelete, ConnField::BtnTest]
}

pub open spec fn ssh_fields() -> Seq<ConnField> {
    seq![ConnField::SshHost, ConnField::SshPort, ConnField::SshUser, ConnField::SshKeyPath, ConnField::SshPassword]
}

pub fn conn_active_fields(mode_is_sql: bool, use_tunnel: bool) -> (r: Vec<ConnField>)
    ensures
        r@ == active_fields(mode_is_sql, use_tunnel),
        r@.len() > 0,
{
    let mut v: Vec<ConnField> = vec![ConnField::Table, ConnField::Label, ConnField::Mode];
    if mode_is_sql {
        v.push(ConnField::Host);
        v.push(ConnField::Port);
        v.push(ConnField::DbUser);
        v.push(ConnField::DbPassword);
        v.push(ConnField::UseTunnel);
    }
    if !mode_is_sql || use_tunnel {
        v.push(ConnField::SshHost);
        v.push(ConnField::SshPort);
        v.push(ConnField::SshUser);
        v.push(ConnField::SshKeyPath);
        v.push(ConnField::SshPassword);
    }
    if !mode_is_sql {
        v.push(ConnField::TagMode);
    }
    v.push(ConnField::BtnSave);
    v.push(ConnField::BtnNew);
    v.push(ConnField::BtnDelete);
    v.push(ConnField::BtnTest);
    assert(v@ =~= active_fields(mode_is_sql, use_tunnel));
    v
}

pub open spec fn spaced(f: ConnField) -> Seq<Row<ConnField>> {
    seq![Row::Field(f), Row::Gap]
}

/// The lines of the form, which is drawn from them and hit-tested by them.
pub open spec fn form_rows(mode_is_sql: bool, use_tunnel: bool) -> Seq<Row<ConnField>> {
    spaced(ConnField::Label) + spaced(ConnField::Mode) + (if mode_is_sql {
        spaced(ConnField::Host) + spaced(ConnField::Port) + seq![
            Row::Field(ConnField::DbUser),
            Row::Hint,
            Row::Gap,
        ] + spaced(ConnField::DbPassword) + spaced(ConnField::UseTunnel)
    } else {
        Seq::empty()
    }) + (if !mode_is_sql || use_tunnel {
        spaced(ConnField::SshHost) + spaced(ConnField::SshPort) + spaced(ConnField::SshUser) + spaced(
            ConnField::SshKeyPath,
        ) + spaced(ConnField::SshPassword)
    } else {
        Seq::empty()
    }) + (if mode_is_sql {
        Seq::empty()
    } else {
        spaced(ConnField::TagMode)
    }) + seq![Row::Buttons, Row::Gap, Row::Help]
}

fn push_spaced(v: &mut Vec<Row<ConnField>>, f: ConnField)
    ensures
        final(v)@ == old(v)@ + spaced(f),
{
    v.push(Row::Field(f));
    v.push(Row::Gap);
    assert(v@ =~= old(v)@ + spaced(f));
}

/// The lines of the form.
pub fn conn_form_rows(mode_is_sql: bool, use_tunnel: bool) -> (r: Vec<Row<ConnField>>)
    ensures
        r@ == form_rows(mode_is_sql, use_tunnel),
        3 <= r@.len() <= 40,
{
    let mut v: Vec<Row<ConnField>> = Vec::new();
    push_spaced(&mut v, ConnField::Label);
    push_spaced(&mut v, ConnField::Mode);
    if mode_is_sql {
        push_spaced(&mut v, ConnField::Host);
        push_spaced(&mut v, ConnField::Port);
        v.push(Row::Field(ConnField::DbUser));
        v.push(Row::Hint);
        v.push(Row::Gap);
        push_spaced(&mut v, ConnField::DbPassword);
        push_spaced(&mut v, ConnField::UseTunnel);
    }
    if !mode_is_sql || use_tunnel {
        push_spaced(&mut v, ConnField::SshHost);
        push_spaced(&mut v, ConnField::SshPort);
        push_spaced(&mut v, ConnField::SshUser);
        push_spaced(&mut v, ConnField::SshKeyPath);
        push_spaced(&mut v, ConnField::SshPassword);
    }
    if !mode_is_sql {
        push_spaced(&mut v, ConnField::TagMode);
    }
    v.push(Row::Buttons);
    v.push(Row::Gap);
    v.push(Row::Help);
    assert(v@ =~= form_rows(mode_is_sql, use_tunnel));
    v
}

/// The height of the form: its lines, its borders and its margin.
pub open spec fn form_height(mode_is_sql: bool, use_tunnel: bool) -> int {
    form_rows(mode_is_sql, use_tunnel).len() as int + 4
}

/// The row constraints of the form and its overall height.
pub fn conn_form_constraints(mode_is_sql: bool, use_tunnel: bool) -> (r: (Vec<Constraint>, u16))
    ensures
        r.0@ == form::lines(form_rows(mode_is_sql, use_tunnel).len()),
        r.1 == form_height(mode_is_sql, use_tunnel),
{
    let rows = conn_form_rows(mode_is_sql, use_tunnel);
    (line_constraints(rows.len()), rows.len() as u16 + 4)
}

pub struct ConnectionsTab {
    pub selected: Option<usize>,
    pub table_idx: usize,
    pub label: Input,
    pub mode_is_sql: bool,
    pub host: Input,
    pub port: Input,
    pub db_user: Input,
    pub db_password: Input,
    pub use_tunnel: bool,
    pub ssh_host: Input,
    pub ssh_port: Input,
    pub ssh_user: Input,
    pub ssh_key_path: Input,
    pub ssh_password: Input,
    pub tag_mode_idx: usize,
    pub field: ConnField,
    pub key_picker: Option<FilePicker>,
    pub host_picker: Option<HostPicker>,
}

pub struct ConnectionsTabModel {
    pub selected: Option<usize>,
    pub table_idx: int,
    pub label: InputModel,
    pub mode_is_sql: bool,
    pub host: InputModel,
    pub port: InputModel,
    pub db_user: InputModel,
    pub db_password: InputModel,
    pub use_tunnel: bool,
    pub ssh_host: InputModel,
    pub ssh_port: InputModel,
    pub ssh_user: InputModel,
    pub ssh_key_path: InputModel,
    pub ssh_password: InputModel,
    pub tag_mode_idx: int,
    pub field: ConnField,
    pub key_picker: Option<FilePickerModel>,
    pub host_picker: Option<HostPickerModel>,
}

impl View for ConnectionsTab {
    type V = ConnectionsTabModel;

    open spec fn view(&self) -> ConnectionsTabModel {
        ConnectionsTabModel {
            selected: self.selected,
            table_idx: self.table_idx as int,
            label: self.label@,
            mode_is_sql: self.mode_is_sql,
            host: self.host@,
            port: self.port@,
            db_user: self.db_user@,
            db_password: self.db_password@,
            use_tunnel: self.use_tunnel,
            ssh_host: self.ssh_host@,
            ssh_port: self.ssh_port@,
            ssh_user: self.ssh_user@,
            ssh_key_path: self.ssh_key_path@,
            ssh_password: self.ssh_password@,
            tag_mode_idx: self.tag_mode_idx as int,
            field: self.field,
            key_picker: self.key_picker.deep_view(),
            host_picker: self.host_picker.deep_view(),
        }
    }
}

impl DeepView for ConnectionsTab {
    type V = ConnectionsTabModel;

    open spec fn deep_view(&self) -> ConnectionsTabModel {
        self@
    }
}

impl ConnectionsTabModel {
    pub open spec fn empty() -> ConnectionsTabModel {
        ConnectionsTabModel {
            selected: None,
            table_idx: 0,
            label: InputModel::empty(),
            mode_is_sql: true,
            host: InputModel::empty(),
            port: InputModel::of("8123"@),
            db_user: InputModel::empty(),
            db_password: InputModel::empty(),
            use_tunnel: false,
            ssh_host: InputModel::empty(),
            ssh_port: InputModel::of("22"@),
            ssh_user: InputModel::empty(),
            ssh_key_path: InputModel::empty(),
            ssh_password: InputModel::empty(),
            tag_mode_idx: 0,
            field: ConnField::Table,
            key_picker: None,
            host_picker: None,
        }
    }

    pub open spec fn fields(self) -> Seq<ConnField> {
        active_fields(self.mode_is_sql, self.use_tunnel)
    }

    pub open spec fn rows(self) -> Seq<Row<ConnField>> {
        form_rows(self.mode_is_sql, self.use_tunnel)
    }

    pub open spec fn focus(self, field: ConnField) -> ConnectionsTabModel {
        ConnectionsTabModel { field, ..self }
    }

    pub open spec fn next_field(self) -> ConnectionsTabModel {
        self.focus(cycle::after(self.fields(), self.field))
    }

    pub open spec fn prev_field(self) -> ConnectionsTabModel {
        self.focus(cycle::before(self.fields(), self.field))
    }

    /// An empty form; the place in the table and the focus stay.
    pub open spec fn cleared(self) -> ConnectionsTabModel {
        ConnectionsTabModel {
            table_idx: self.table_idx,
            field: self.field,
            ..ConnectionsTabModel::empty()
        }
    }

    /// The form filled from a profile, passwords left empty.
    pub open spec fn loaded(self, idx: int, c: ConnectionModel, tags: Seq<Seq<char>>) -> ConnectionsTabModel {
        ConnectionsTabModel {
            selected: Some(idx as usize),
            table_idx: self.table_idx,
            label: InputModel::of(c.label),
            mode_is_sql: c.is_sql,
            host: InputModel::of(c.host),
            port: InputModel::of(c.port),
            db_user: InputModel::of(c.db_user),
            db_password: InputModel::empty(),
            use_tunnel: c.use_tunnel,
            ssh_host: InputModel::of(c.ssh_host),
            ssh_port: InputModel::of(c.ssh_port),
            ssh_user: InputModel::of(c.ssh_user),
            ssh_key_path: InputModel::of(c.ssh_key_path),
            ssh_password: InputModel::empty(),
            tag_mode_idx: cycle::place(tags, c.tag_mode),
            field: self.field,
            key_picker: None,
            host_picker: None,
        }
    }

    /// The SSH side of the form filled from a known host; what the host does not say stays.
    pub open spec fn filled_from(self, s: ServerModel) -> ConnectionsTabModel {
        ConnectionsTabModel {
            ssh_host: InputModel::of(s.effective_host()),
            ssh_port: if s.port != 0 {
                InputModel::of(text::decimal(s.port as nat))
            } else {
                self.ssh_port
            },
            ssh_user: if s.user.len() > 0 {
                InputModel::of(s.user)
            } else {
                self.ssh_user
            },
            ssh_key_path: if s.identity_files.len() > 0 {
                InputModel::of(s.identity_files[0])
            } else {
                self.ssh_key_path
            },
            ssh_password: if s.ssh_password.len() > 0 {
                InputModel::of(s.ssh_password)
            } else {
                self.ssh_password
            },
            ..self
        }
    }

    /// The profile that the form describes.
    pub open spec fn as_input(self, tags: Seq<Seq<char>>) -> ConnectionInputModel {
        ConnectionInputModel {
            label: self.label.trimmed(),
            is_sql: self.mode_is_sql,
            host: self.host.trimmed(),
            port: self.port.trimmed(),
            db_user: self.db_user.trimmed(),
            db_password: self.db_password.text,
            use_tunnel: self.use_tunnel,
            ssh_host: self.ssh_host.trimmed(),
            ssh_port: self.ssh_port.trimmed(),
            ssh_user: self.ssh_user.trimmed(),
            ssh_key_path: self.ssh_key_path.trimmed(),
            ssh_password: self.ssh_password.text,
            tag_mode: tags[self.tag_mode_idx],
        }
    }

    /// The focused input edited by a key; nothing where no input has the focus.
    pub open spec fn edit(self, key: KeyCode) -> ConnectionsTabModel {
        match self.field {
            ConnField::Label => ConnectionsTabModel { label: self.label.edit(key), ..self },
            ConnField::Host => ConnectionsTabModel { host: self.host.edit(key), ..self },
            ConnField::Port => ConnectionsTabModel { port: self.port.edit(key), ..self },
            ConnField::DbUser => ConnectionsTabModel { db_user: self.db_user.edit(key), ..self },
            ConnField::DbPassword => ConnectionsTabModel { db_password: self.db_password.edit(key), ..self },
            ConnField::SshHost => ConnectionsTabModel { ssh_host: self.ssh_host.edit(key), ..self },
            ConnField::SshPort => ConnectionsTabModel { ssh_port: self.ssh_port.edit(key), ..self },
            ConnField::SshUser => ConnectionsTabModel { ssh_user: self.ssh_user.edit(key), ..self },
            ConnField::SshKeyPath => ConnectionsTabModel { ssh_key_path: self.ssh_key_path.edit(key), ..self },
            ConnField::SshPassword => ConnectionsTabModel { ssh_password: self.ssh_password.edit(key), ..self },
            _ => self,
        }
    }

    /// A switch turned: the mode, the tunnel, or the tag, forwards or back.
    pub open spec fn switched(self, back: bool, n_tags: int) -> ConnectionsTabModel {
        match self.field {
            ConnField::Mode => ConnectionsTabModel { mode_is_sql: !self.mode_is_sql, ..self },
            ConnField::UseTunnel => ConnectionsTabModel { use_tunnel: !self.use_tunnel, ..self },
            ConnField::TagMode => ConnectionsTabModel {
                tag_mode_idx: if back {
                    (self.tag_mode_idx + n_tags - 1) % n_tags
                } else {
                    (self.tag_mode_idx + 1) % n_tags
                },
                ..self
            },
            _ => self,
        }
    }

    pub open spec fn is_switch(self) -> bool {
        self.field == ConnField::Mode || self.field == ConnField::UseTunnel || self.field == ConnField::TagMode
    }

    pub open spec fn pickers_closed(self) -> bool {
        self.key_picker is None && self.host_picker is None
    }

    /// The place in the table one row up or down, within `n` rows.
    pub open spec fn table_moved(self, up: bool, n: int) -> ConnectionsTabModel {
        ConnectionsTabModel { table_idx: cycle::moved(self.table_idx, up, n), ..self }
    }
}

impl ConnectionsTab {
    pub fn new() -> (r: ConnectionsTab)
        ensures
            r@ == ConnectionsTabModel::empty(),
    {
        ConnectionsTab {
            selected: None,
            table_idx: 0,
            label: Input::default(),
            mode_is_sql: true,
            host: Input::default(),
            port: Input::new("8123"),
            db_user: Input::default(),
            db_password: Input::default(),
            use_tunnel: false,
            ssh_host: Input::default(),
            ssh_port: Input::new("22"),
            ssh_user: Input::default(),
            ssh_key_path: Input::default(),
            ssh_password: Input::default(),
            tag_mode_idx: 0,
            field: ConnField::Table,
            key_picker: None,
            host_picker: None,
        }
    }

    pub fn next_field(&mut self)
        ensures
            final(self)@ == old(self)@.next_field(),
    {
        let fields = conn_active_fields(self.mode_is_sql, self.use_tunnel);
        self.field = next_of(&fields, self.field);
    }

    pub fn prev_field(&mut self)
        ensures
            final(self)@ == old(self)@.prev_field(),
    {
        let fields = conn_active_fields(self.mode_is_sql, self.use_tunnel);
        self.field = prev_of(&fields, self.field);
    }

    pub fn clear_form(&mut self)
        ensures
            final(self)@ == old(self)@.cleared(),
    {
        self.selected = None;
        self.label = Input::default();
        self.mode_is_sql = true;
        self.host = Input::default();
        self.port = Input::new("8123");
        self.db_user = Input::default();
        self.db_password = Input::default();
        self.use_tunnel = false;
        self.ssh_host = Input::default();
        self.ssh_port = Input::new("22");
        self.ssh_user = Input::default();
        self.ssh_key_path = Input::default();
        self.ssh_password = Input::default();
        self.tag_mode_idx = 0;
        self.key_picker = None;
        self.host_picker = None;
    }

    pub fn load_from(&mut self, idx: usize, c: &Connection, tags: &Vec<String>)
        requires
            tags@.len() > 0,
        ensures
            final(self)@ == old(self)@.loaded(idx as int, c@, tags.deep_view()),
            final(self)@.tag_mode_idx < tags@.len(),
    {
        self.selected = Some(idx);
        self.label = Input::new(c.label.as_str());
        self.mode_is_sql = c.is_sql;
        self.host = Input::new(c.host.as_str());
        self.port = Input::new(c.port.as_str());
        self.db_user = Input::new(c.db_user.as_str());
        self.db_password = Input::default();
        self.use_tunnel = c.use_tunnel;
        self.ssh_host = Input::new(c.ssh_host.as_str());
        self.ssh_port = Input::new(c.ssh_port.as_str());
        self.ssh_user = Input::new(c.ssh_user.as_str());
        self.ssh_key_path = Input::new(c.ssh_key_path.as_str());
        self.ssh_password = Input::default();
        self.tag_mode_idx = text::place_of_text(tags, c.tag_mode.as_str());
        self.key_picker = None;
        self.host_picker = None;
    }

    /// Fills the SSH side of the form from a known host. The fields of the
    /// database are always left to the user.
    pub fn fill_ssh_from_host(&mut self, server: &Server)
        ensures
            final(self)@ == old(self)@.filled_from(server@),
    {
        self.ssh_host = Input::new(server.effective_host());
        if server.port != 0 {
            let p = text::number(server.port as u64);
            self.ssh_port = Input::new(p.as_str());
        }
        if !server.user.as_str().is_empty() {
            self.ssh_user = Input::new(server.user.as_str());
        }
        if server.identity_files.len() > 0 {
            assert(server@.identity_files[0] == server.identity_files@[0]@);
            self.ssh_key_path = Input::new(server.identity_files[0].as_str());
        }
        if !server.ssh_password.as_str().is_empty() {
            self.ssh_password = Input::new(server.ssh_password.as_str());
        }
    }

    pub fn as_input(&self, tags: &Vec<String>) -> (r: ConnectionInput)
        requires
            self@.tag_mode_idx < tags@.len(),
        ensures
            r@ == self@.as_input(tags.deep_view()),
    {
        assert(tags.deep_view()[self.tag_mode_idx as int] == tags@[self.tag_mode_idx as int]@);
        ConnectionInput {
            label: self.label.trimmed(),
            is_sql: self.mode_is_sql,
            host: self.host.trimmed(),
            port: self.port.trimmed(),
            db_user: self.db_user.trimmed(),
            db_password: self.db_password.value(),
            use_tunnel: self.use_tunnel,
            ssh_host: self.ssh_host.trimmed(),
            ssh_port: self.ssh_port.trimmed(),
            ssh_user: self.ssh_user.trimmed(),
            ssh_key_path: self.ssh_key_path.trimmed(),
            ssh_password: self.ssh_password.value(),
            tag_mode: tags[self.tag_mode_idx].clone(),
        }
    }

    /// Edits the focused input.
    fn edit(&mut self, key: KeyCode)
        ensures
            final(self)@ == old(self)@.edit(key),
    {
        match self.field {
            ConnField::Label => self.label.edit(key),
            ConnField::Host => self.host.edit(key),
            ConnField::Port => self.port.edit(key),
            ConnField::DbUser => self.db_user.edit(key),
            ConnField::DbPassword => self.db_password.edit(key),
            ConnField::SshHost => self.ssh_host.edit(key),
            ConnField::SshPort => self.ssh_port.edit(key),
            ConnField::SshUser => self.ssh_user.edit(key),
            ConnField::SshKeyPath => self.ssh_key_path.edit(key),
            ConnField::SshPassword => self.ssh_password.edit(key),
            _ => {},
        }
    }

    /// Turns the focused switch.
    fn switch(&mut self, back: bool, n_tags: usize)
        requires
            0 <= old(self)@.tag_mode_idx < n_tags,
        ensures
            final(self)@ == old(self)@.switched(back, n_tags as int),
            0 <= final(self)@.tag_mode_idx < n_tags,
    {
        match self.field {
            ConnField::Mode => self.mode_is_sql = !self.mode_is_sql,
            ConnField::UseTunnel => self.use_tunnel = !self.use_tunnel,
            ConnField::TagMode => {
                let i: usize = self.tag_mode_idx;
                let j: usize = if back {
                    if i > 0 {
                        i - 1
                    } else {
                        n_tags - 1
                    }
                } else if i + 1 < n_tags {
                    i + 1
                } else {
                    0
                };
                proof {
                    cycle::lemma_wrap(i as int, n_tags as int);
                }
                self.tag_mode_idx = j;
            },
            _ => {},
        }
    }
}

// --------------------------------------------------------------- users tab

#[derive(Clone, Copy, PartialEq, Eq, Structural, Debug)]
pub enum UsersField {
    Connection,
    BtnConnect,
    Table,
    BtnAddUser,
}

#[derive(Clone, Copy, PartialEq, Eq, Structural, Debug)]
pub enum AddField {
    Username,
    Password,
    BtnGenerate,
    Profile,
    Ips,
    BtnCreate,
    BtnCancel,
}

#[derive(Clone, Copy, PartialEq, Eq, Structural, Debug)]
pub enum EditField {
    Password,
    Profile,
    Ips,
    BtnSave,
    BtnDelete,
    BtnCancel,
}

impl UsersField {
    pub open spec fn next(self) -> UsersField {
        match self {
            UsersField::Connection => UsersField::BtnConnect,
            UsersField::BtnConnect => UsersField::Table,
            UsersField::Table => UsersField::BtnAddUser,
            UsersField::BtnAddUser => UsersField::Connection,
        }
    }

    pub open spec fn prev(self) -> UsersField {
        match self {
            UsersField::Connection => UsersField::BtnAddUser,
            UsersField::BtnConnect => UsersField::Connection,
            UsersField::Table => UsersField::BtnConnect,
            UsersField::BtnAddUser => UsersField::Table,
        }
    }
}

impl AddField {
    pub open spec fn next(self) -> AddField {
        match self {
            AddField::Username => AddField::Password,
            AddField::Password => AddField::BtnGenerate,
            AddField::BtnGenerate => AddField::Profile,
            AddField::Profile => AddField::Ips,
            AddField::Ips => AddField::BtnCreate,
            AddField::BtnCreate => AddField::BtnCancel,
            AddField::BtnCancel => AddField::Username,
        }
    }

    pub open spec fn prev(self) -> AddField {
        match self {
            AddField::Username => AddField::BtnCancel,
            AddField::Password => AddField::Username,
            AddField::BtnGenerate => AddField::Password,
            AddField::Profile => AddField::BtnGenerate,
            AddField::Ips => AddField::Profile,
            AddField::BtnCreate => AddField::Ips,
            AddField::BtnCancel => AddField::BtnCreate,
        }
    }
}

impl EditField {
    pub open spec fn next(self) -> EditField {
        match self {
            EditField::Password => EditField::Profile,
            EditField::Profile => EditField::Ips,
            EditField::Ips => EditField::BtnSave,
            EditField::BtnSave => EditField::BtnDelete,
            EditField::BtnDelete => EditField::BtnCancel,
            EditField::BtnCancel => EditField::Password,
        }
    }

    pub open spec fn prev(self) -> EditField {
        match self {
            EditField::Password => EditField::BtnCancel,
            EditField::Profile => EditField::Password,
            EditField::Ips => EditField::Profile,
            EditField::BtnSave => EditField::Ips,
            EditField::BtnDelete => EditField::BtnSave,
            EditField::BtnCancel => EditField::BtnDelete,
        }
    }
}

pub struct AddUserModal {
    pub username: Input,
    pub password: Input,
    pub profile_is_default: bool,
    pub ips: Input,
    pub field: AddField,
}

pub struct AddUserModalModel {
    pub username: InputModel,
    pub password: InputModel,
    pub profile_is_default: bool,
    pub ips: InputModel,
    pub field: AddField,
}

impl View for AddUserModal {
    type V = AddUserModalModel;

    open spec fn view(&self) -> AddUserModalModel {
        AddUserModalModel {
            username: self.username@,
            password: self.password@,
            profile_is_default: self.profile_is_default,
            ips: self.ips@,
            field: self.field,
        }
    }
}

impl DeepView for AddUserModal {
    type V = AddUserModalModel;

    open spec fn deep_view(&self) -> AddUserModalModel {
        self@
    }
}

pub struct EditUserModal {
    pub username: String,
    pub password: Input,
    pub profile_is_default: bool,
    pub ips: Input,
    pub field: EditField,
}

pub struct EditUserModalModel {
    pub username: Seq<char>,
    pub password: InputModel,
    pub profile_is_default: bool,
    pub ips: InputModel,
    pub field: EditField,
}

impl View for EditUserModal {
    type V = EditUserModalModel;

    open spec fn view(&self) -> EditUserModalModel {
        EditUserModalModel {
            username: self.username@,
            password: self.password@,
            profile_is_default: self.profile_is_default,
            ips: self.ips@,
            field: self.field,
        }
    }
}

impl DeepView for EditUserModal {
    type V = EditUserModalModel;

    open spec fn deep_view(&self) -> EditUserModalModel {
        self@
    }
}

pub enum UserModal {
    Add(AddUserModal),
    Edit(EditUserModal),
}

pub enum UserModalModel {
    Add(AddUserModalModel),
    Edit(EditUserModalModel),
}

impl View for UserModal {
    type V = UserModalModel;

    open spec fn view(&self) -> UserModalModel {
        match self {
            UserModal::Add(a) => UserModalModel::Add(a@),
            UserModal::Edit(a) => UserModalModel::Edit(a@),
        }
    }
}

impl DeepView for UserModal {
    type V = UserModalModel;

    open spec fn deep_view(&self) -> UserModalModel {
        self@
    }
}

pub struct UsersTab {
    pub connection_input: Input,
    pub connection_dropdown_open: bool,
    pub connection_idx: usize,
    pub rows: Vec<UserInfo>,
    pub selected_row: usize,
    pub field: UsersField,
    pub modal: Option<UserModal>,
}

pub struct UsersTabModel {
    pub connection_input: InputModel,
    pub connection_dropdown_open: bool,
    pub connection_idx: int,
    pub rows: Seq<UserInfoModel>,
    pub selected_row: int,
    pub field: UsersField,
    pub modal: Option<UserModalModel>,
}

impl View for UsersTab {
    type V = UsersTabModel;

    open spec fn view(&self) -> UsersTabModel {
        UsersTabModel {
            connection_input: self.connection_input@,
            connection_dropdown_open: self.connection_dropdown_open,
            connection_idx: self.connection_idx as int,
            rows: self.rows.deep_view(),
            selected_row: self.selected_row as int,
            field: self.field,
            modal: self.modal.deep_view(),
        }
    }
}

impl DeepView for UsersTab {
    type V = UsersTabModel;

    open spec fn deep_view(&self) -> UsersTabModel {
        self@
    }
}

impl AddUserModalModel {
    pub open spec fn empty() -> AddUserModalModel {
        AddUserModalModel {
            username: InputModel::empty(),
            password: InputModel::empty(),
            profile_is_default: true,
            ips: InputModel::empty(),
            field: AddField::Username,
        }
    }

    pub open spec fn focus(self, field: AddField) -> AddUserModalModel {
        AddUserModalModel { field, ..self }
    }

    pub open spec fn flipped(self) -> AddUserModalModel {
        AddUserModalModel { profile_is_default: !self.profile_is_default, ..self }
    }

    pub open spec fn edit(self, key: KeyCode) -> AddUserModalModel {
        match self.field {
            AddField::Username => AddUserModalModel { username: self.username.edit(key), ..self },
            AddField::Password => AddUserModalModel { password: self.password.edit(key), ..self },
            AddField::Ips => AddUserModalModel { ips: self.ips.edit(key), ..self },
            _ => self,
        }
    }

    /// What a key does as long as it presses no button: it moves the focus,
    /// flips the profile or edits the focused input.
    pub open spec fn on_key(self, key: KeyCode) -> AddUserModalModel {
        match key {
            KeyCode::Tab | KeyCode::Down => self.focus(self.field.next()),
            KeyCode::BackTab | KeyCode::Up => self.focus(self.field.prev()),
            KeyCode::Enter => if self.field == AddField::Profile {
                self.flipped()
            } else {
                self.focus(self.field.next())
            },
            _ => if self.field == AddField::Profile && (key == KeyCode::Left || key == KeyCode::Right) {
                self.flipped()
            } else {
                self.edit(key)
            },
        }
    }
}

impl EditUserModalModel {
    pub open spec fn of(u: UserInfoModel) -> EditUserModalModel {
        EditUserModalModel {
            username: u.name,
            password: InputModel::empty(),
            profile_is_default: u.profile != "readonly"@,
            ips: InputModel::of(text::joined(u.ips, ", "@)),
            field: EditField::Password,
        }
    }

    pub open spec fn focus(self, field: EditField) -> EditUserModalModel {
        EditUserModalModel { field, ..self }
    }

    pub open spec fn flipped(self) -> EditUserModalModel {
        EditUserModalModel { profile_is_default: !self.profile_is_default, ..self }
    }

    pub open spec fn edit(self, key: KeyCode) -> EditUserModalModel {
        match self.field {
            EditField::Password => EditUserModalModel { password: self.password.edit(key), ..self },
            EditField::Ips => EditUserModalModel { ips: self.ips.edit(key), ..self },
            _ => self,
        }
    }

    /// What a key does as long as it presses no button.
    pub open spec fn on_key(self, key: KeyCode) -> EditUserModalModel {
        match key {
            KeyCode::Tab | KeyCode::Down => self.focus(self.field.next()),
            KeyCode::BackTab | KeyCode::Up => self.focus(self.field.prev()),
            KeyCode::Enter => if self.field == EditField::Profile {
                self.flipped()
            } else {
                self.focus(self.field.next())
            },
            _ => if self.field == EditField::Profile && (key == KeyCode::Left || key == KeyCode::Right) {
                self.flipped()
            } else {
                self.edit(key)
            },
        }
    }
}

impl UsersTabModel {
    pub open spec fn empty() -> UsersTabModel {
        UsersTabModel {
            connection_input: InputModel::empty(),
            connection_dropdown_open: false,
            connection_idx: 0,
            rows: Seq::empty(),
            selected_row: 0,
            field: UsersField::Connection,
            modal: None,
        }
    }

    pub open spec fn focus(self, field: UsersField) -> UsersTabModel {
        UsersTabModel { field, ..self }
    }

    pub open spec fn dropdown(self, open: bool) -> UsersTabModel {
        UsersTabModel { connection_dropdown_open: open, ..self }
    }

    /// The dropdown opened at its first entry, where there is any profile.
    pub open spec fn opened(self, any: bool) -> UsersTabModel {
        if any {
            UsersTabModel { connection_dropdown_open: true, connection_idx: 0, ..self }
        } else {
            self
        }
    }

    pub open spec fn row_moved(self, up: bool) -> UsersTabModel {
        UsersTabModel { selected_row: cycle::moved(self.selected_row, up, self.rows.len() as int), ..self }
    }

    /// The modal that edits the user of a row.
    pub open spec fn editing(self, idx: int) -> UsersTabModel {
        if 0 <= idx < self.rows.len() {
            UsersTabModel { modal: Some(UserModalModel::Edit(EditUserModalModel::of(self.rows[idx]))), ..self }
        } else {
            self
        }
    }

    pub open spec fn typed(self, key: KeyCode) -> UsersTabModel {
        UsersTabModel { connection_input: self.connection_input.edit(key), ..self }
    }
}

impl AddUserModal {
    pub fn new() -> (r: AddUserModal)
        ensures
            r@ == AddUserModalModel::empty(),
    {
        AddUserModal {
            username: Input::default(),
            password: Input::default(),
            profile_is_default: true,
            ips: Input::default(),
            field: AddField::Username,
        }
    }

    pub fn next_field(&mut self)
        ensures
            final(self)@ == old(self)@.focus(old(self)@.field.next()),
    {
        self.field = match self.field {
            AddField::Username => AddField::Password,
            AddField::Password => AddField::BtnGenerate,
            AddField::BtnGenerate => AddField::Profile,
            AddField::Profile => AddField::Ips,
            AddField::Ips => AddField::BtnCreate,
            AddField::BtnCreate => AddField::BtnCancel,
            AddField::BtnCancel => AddField::Username,
        };
    }

    pub fn prev_field(&mut self)
        ensures
            final(self)@ == old(self)@.focus(old(self)@.field.prev()),
    {
        self.field = match self.field {
            AddField::Username => AddField::BtnCancel,
            AddField::Password => AddField::Username,
            AddField::BtnGenerate => AddField::Password,
            AddField::Profile => AddField::BtnGenerate,
            AddField::Ips => AddField::Profile,
            AddField::BtnCreate => AddField::Ips,
            AddField::BtnCancel => AddField::BtnCreate,
        };
    }

    /// What a key does as long as it presses no button.
    fn plain_key(&mut self, key: KeyCode)
        ensures
            final(self)@ == old(self)@.on_key(key),
    {
        match key {
            KeyCode::Tab | KeyCode::Down => self.next_field(),
            KeyCode::BackTab | KeyCode::Up => self.prev_field(),
            KeyCode::Enter => if self.field == AddField::Profile {
                self.profile_is_default = !self.profile_is_default;
            } else {
                self.next_field();
            },
            _ => match self.field {
                AddField::Username => self.username.edit(key),
                AddField::Password => self.password.edit(key),
                AddField::Ips => self.ips.edit(key),
                AddField::Profile => if key == KeyCode::Left || key == KeyCode::Right {
                    self.profile_is_default = !self.profile_is_default;
                },
                _ => {},
            },
        }
    }
}

impl EditUserModal {
    pub fn new(u: &UserInfo) -> (r: EditUserModal)
        ensures
            r@ == EditUserModalModel::of(u@),
    {
        let ips = text::join(&u.ips, ", ");
        EditUserModal {
            username: u.name.clone(),
            password: Input::default(),
            profile_is_default: !text::same(u.profile.as_str(), "readonly"),
            ips: Input::new(ips.as_str()),
            field: EditField::Password,
        }
    }

    pub fn next_field(&mut self)
        ensures
            final(self)@ == old(self)@.focus(old(self)@.field.next()),
    {
        self.field = match self.field {
            EditField::Password => EditField::Profile,
            EditField::Profile => EditField::Ips,
            EditField::Ips => EditField::BtnSave,
            EditField::BtnSave => EditField::BtnDelete,
            EditField::BtnDelete => EditField::BtnCancel,
            EditField::BtnCancel => EditField::Password,
        };
    }

    pub fn prev_field(&mut self)
        ensures
            final(self)@ == old(self)@.focus(old(self)@.field.prev()),
    {
        self.field = match self.field {
            EditField::Password => EditField::BtnCancel,
            EditField::Profile => EditField::Password,
            EditField::Ips => EditField::Profile,
            EditField::BtnSave => EditField::Ips,
            EditField::BtnDelete => EditField::BtnSave,
            EditField::BtnCancel => EditField::BtnDelete,
        };
    }

    /// What a key does as long as it presses no button.
    fn plain_key(&mut self, key: KeyCode)
        ensures
            final(self)@ == old(self)@.on_key(key),
    {
        match key {
            KeyCode::Tab | KeyCode::Down => self.next_field(),
            KeyCode::BackTab | KeyCode::Up => self.prev_field(),
            KeyCode::Enter => if self.field == EditField::Profile {
                self.profile_is_default = !self.profile_is_default;
            } else {
                self.next_field();
            },
            _ => match self.field {
                EditField::Password => self.password.edit(key),
                EditField::Ips => self.ips.edit(key),
                EditField::Profile => if key == KeyCode::Left || key == KeyCode::Right {
                    self.profile_is_default = !self.profile_is_default;
                },
                _ => {},
            },
        }
    }
}

impl UsersTab {
    pub fn new() -> (r: UsersTab)
        ensures
            r@ == UsersTabModel::empty(),
    {
        let r = UsersTab {
            connection_input: Input::default(),
            connection_dropdown_open: false,
            connection_idx: 0,
            rows: Vec::new(),
            selected_row: 0,
            field: UsersField::Connection,
            modal: None,
        };
        assert(r@.rows =~= Seq::empty());
        r
    }

    pub fn next_field(&mut self)
        ensures
            final(self)@ == old(self)@.focus(old(self)@.field.next()),
    {
        self.field = match self.field {
            UsersField::Connection => UsersField::BtnConnect,
            UsersField::BtnConnect => UsersField::Table,
            UsersField::Table => UsersField::BtnAddUser,
            UsersField::BtnAddUser => UsersField::Connection,
        };
    }

    pub fn prev_field(&mut self)
        ensures
            final(self)@ == old(self)@.focus(old(self)@.field.prev()),
    {
        self.field = match self.field {
            UsersField::Connection => UsersField::BtnAddUser,
            UsersField::BtnConnect => UsersField::Connection,
            UsersField::Table => UsersField::BtnConnect,
            UsersField::BtnAddUser => UsersField::Table,
        };
    }

    fn edit_user(&mut self, idx: usize)
        ensures
            final(self)@ == old(self)@.editing(idx as int),
    {
        if idx < self.rows.len() {
            assert(self@.rows[idx as int] == self.rows@[idx as int]@);
            self.modal = Some(UserModal::Edit(EditUserModal::new(&self.rows[idx])));
        }
    }

    fn open_dropdown(&mut self, any: bool)
        ensures
            final(self)@ == old(self)@.opened(any),
    {
        if any {
            self.connection_idx = 0;
            self.connection_dropdown_open = true;
        }
    }
}

// -------------------------------------------------------------- the screen

/// Work that is done outside of the screen.
pub enum Request {
    /// Read the known hosts, for the host picker.
    ListHosts,
    /// Open the key picker on a path.
    BrowseKey(String),
    /// Read a directory for the open key picker.
    ReadDir(String),
    /// Save a profile, under an id or as a new one.
    SaveConnection { existing: Option<String>, input: ConnectionInput },
    DeleteConnection { id: String, label: String },
    ListUsers(ConnectionWithSecrets),
    /// Create a user, then list the users.
    CreateUser { conn: ConnectionWithSecrets, username: String, profile: String, ips: Vec<String>, password: String },
    /// Update a user, then list the users.
    UpdateUser { conn: ConnectionWithSecrets, username: String, profile: String, ips: Vec<String>, password: String },
    /// Delete a user, then list the users.
    DeleteUser { conn: ConnectionWithSecrets, username: String },
    /// Make up a password and copy it to the clipboard.
    GeneratePassword,
    CopyHistory,
}

pub enum RequestModel {
    ListHosts,
    BrowseKey(Seq<char>),
    ReadDir(Seq<char>),
    SaveConnection { existing: Option<Seq<char>>, input: ConnectionInputModel },
    DeleteConnection { id: Seq<char>, label: Seq<char> },
    ListUsers(ConnectionWithSecretsModel),
    CreateUser { conn: ConnectionWithSecretsModel, username: Seq<char>, profile: Seq<char>, ips: Seq<Seq<char>>, password: Seq<char> },
    UpdateUser { conn: ConnectionWithSecretsModel, username: Seq<char>, profile: Seq<char>, ips: Seq<Seq<char>>, password: Seq<char> },
    DeleteUser { conn: ConnectionWithSecretsModel, username: Seq<char> },
    GeneratePassword,
    CopyHistory,
}

impl View for Request {
    type V = RequestModel;

    open spec fn view(&self) -> RequestModel {
        match self {
            Request::ListHosts => RequestModel::ListHosts,
            Request::BrowseKey(a) => RequestModel::BrowseKey(a@),
            Request::ReadDir(a) => RequestModel::ReadDir(a@),
            Request::SaveConnection { existing, input } => RequestModel::SaveConnection { existing: existing.deep_view(), input: input@ },
            Request::DeleteConnection { id, label } => RequestModel::DeleteConnection { id: id@, label: label@ },
            Request::ListUsers(a) => RequestModel::ListUsers(a@),
            Request::CreateUser { conn, username, profile, ips, password } => RequestModel::CreateUser { conn: conn@, username: username@, profile: profile@, ips: ips.deep_view(), password: password@ },
            Request::UpdateUser { conn, username, profile, ips, password } => RequestModel::UpdateUser { conn: conn@, username: username@, profile: profile@, ips: ips.deep_view(), password: password@ },
            Request::DeleteUser { conn, username } => RequestModel::DeleteUser { conn: conn@, username: username@ },
            Request::GeneratePassword => RequestModel::GeneratePassword,
            Request::CopyHistory => RequestModel::CopyHistory,
        }
    }
}

impl DeepView for Request {
    type V = RequestModel;

    open spec fn deep_view(&self) -> RequestModel {
        self@
    }
}

/// What came of a request.
pub enum Msg {
    Hosts(Vec<Server>),
    HostsFailed(String),
    KeyDir { listing: Listing, preselect: Option<String> },
    DirRead(Listing),
    /// The profiles as they are after a save.
    Saved(Config),
    SaveFailed { cfg: Config, error: String },
    Deleted { cfg: Config, label: String },
    DeleteFailed { cfg: Config, error: String },
    Users(Vec<UserInfo>),
    UsersFailed(String),
    Created { username: String, password: String, copied: bool },
    CreateFailed { username: String, error: String },
    Updated(String),
    UpdateFailed { username: String, error: String },
    UserDeleted(String),
    UserDeleteFailed { username: String, error: String },
    Password { password: String, copied: bool },
    HistoryCopied(bool),
}

pub enum MsgModel {
    Hosts(Seq<ServerModel>),
    HostsFailed(Seq<char>),
    KeyDir { listing: ListingModel, preselect: Option<Seq<char>> },
    DirRead(ListingModel),
    Saved(ConfigModel),
    SaveFailed { cfg: ConfigModel, error: Seq<char> },
    Deleted { cfg: ConfigModel, label: Seq<char> },
    DeleteFailed { cfg: ConfigModel, error: Seq<char> },
    Users(Seq<UserInfoModel>),
    UsersFailed(Seq<char>),
    Created { username: Seq<char>, password: Seq<char>, copied: bool },
    CreateFailed { username: Seq<char>, error: Seq<char> },
    Updated(Seq<char>),
    UpdateFailed { username: Seq<char>, error: Seq<char> },
    UserDeleted(Seq<char>),
    UserDeleteFailed { username: Seq<char>, error: Seq<char> },
    Password { password: Seq<char>, copied: bool },
    HistoryCopied(bool),
}

impl View for Msg {
    type V = MsgModel;

    open spec fn view(&self) -> MsgModel {
        match self {
            Msg::Hosts(a) => MsgModel::Hosts(a.deep_view()),
            Msg::HostsFailed(a) => MsgModel::HostsFailed(a@),
            Msg::KeyDir { listing, preselect } => MsgModel::KeyDir { listing: listing@, preselect: preselect.deep_view() },
            Msg::DirRead(a) => MsgModel::DirRead(a@),
            Msg::Saved(a) => MsgModel::Saved(a@),
            Msg::SaveFailed { cfg, error } => MsgModel::SaveFailed { cfg: cfg@, error: error@ },
            Msg::Deleted { cfg, label } => MsgModel::Deleted { cfg: cfg@, label: label@ },
            Msg::DeleteFailed { cfg, error } => MsgModel::DeleteFailed { cfg: cfg@, error: error@ },
            Msg::Users(a) => MsgModel::Users(a.deep_view()),
            Msg::UsersFailed(a) => MsgModel::UsersFailed(a@),
            Msg::Created { username, password, copied } => MsgModel::Created { username: username@, password: password@, copied: *copied },
            Msg::CreateFailed { username, error } => MsgModel::CreateFailed { username: username@, error: error@ },
            Msg::Updated(a) => MsgModel::Updated(a@),
            Msg::UpdateFailed { username, error } => MsgModel::UpdateFailed { username: username@, error: error@ },
            Msg::UserDeleted(a) => MsgModel::UserDeleted(a@),
            Msg::UserDeleteFailed { username, error } => MsgModel::UserDeleteFailed { username: username@, error: error@ },
            Msg::Password { password, copied } => MsgModel::Password { password: password@, copied: *copied },
            Msg::HistoryCopied(a) => MsgModel::HistoryCopied(*a),
        }
    }
}

impl DeepView for Msg {
    type V = MsgModel;

    open spec fn deep_view(&self) -> MsgModel {
        self@
    }
}

pub struct ClickHouseScreen {
    pub tab: Tab,
    pub connections_tab: ConnectionsTab,
    pub users_tab: UsersTab,
    pub cfg: Config,
    /// The root tags that user files can have.
    pub tag_modes: Vec<String>,
    pub log: Log,
    pub requests: Vec<Request>,
}

pub struct ClickHouseScreenModel {
    pub tab: Tab,
    pub connections_tab: ConnectionsTabModel,
    pub users_tab: UsersTabModel,
    pub cfg: ConfigModel,
    pub tag_modes: Seq<Seq<char>>,
    pub log: LogModel,
    pub requests: Seq<RequestModel>,
}

impl View for ClickHouseScreen {
    type V = ClickHouseScreenModel;

    open spec fn view(&self) -> ClickHouseScreenModel {
        ClickHouseScreenModel {
            tab: self.tab,
            connections_tab: self.connections_tab@,
            users_tab: self.users_tab@,
            cfg: self.cfg@,
            tag_modes: self.tag_modes.deep_view(),
            log: self.log@,
            requests: self.requests.deep_view(),
        }
    }
}

impl DeepView for ClickHouseScreen {
    type V = ClickHouseScreenModel;

    open spec fn deep_view(&self) -> ClickHouseScreenModel {
        self@
    }
}

/// The rectangles that the screen is drawn into.
pub struct ClickHouseLayout {
    pub screen: Vec<Rect>,
    pub conn: Vec<Rect>,
    pub form: Vec<Rect>,
    pub users: Vec<Rect>,
    pub top: Vec<Rect>,
    pub action: Vec<Rect>,
    pub hosts: Vec<Rect>,
    pub keys: Vec<Rect>,
}

pub struct ClickHouseLayoutModel {
    pub screen: Seq<Rect>,
    pub conn: Seq<Rect>,
    pub form: Seq<Rect>,
    pub users: Seq<Rect>,
    pub top: Seq<Rect>,
    pub action: Seq<Rect>,
    pub hosts: Seq<Rect>,
    pub keys: Seq<Rect>,
}

impl View for ClickHouseLayout {
    type V = ClickHouseLayoutModel;

    open spec fn view(&self) -> ClickHouseLayoutModel {
        ClickHouseLayoutModel {
            screen: self.screen@,
            conn: self.conn@,
            form: self.form@,
            users: self.users@,
            top: self.top@,
            action: self.action@,
            hosts: self.hosts@,
            keys: self.keys@,
        }
    }
}

impl DeepView for ClickHouseLayout {
    type V = ClickHouseLayoutModel;

    open spec fn deep_view(&self) -> ClickHouseLayoutModel {
        self@
    }
}

pub open spec fn suffix(copied: bool) -> Seq<char> {
    if copied {
        " (copied to clipboard)"@
    } else {
        ""@
    }
}

impl MsgModel {
    /// The line that a message leaves in the history, and whether it is good news.
    pub open spec fn line(self) -> Option<(bool, Seq<char>)> {
        match self {
            MsgModel::Saved(_) => Some((true, "Connection saved"@)),
            MsgModel::Deleted { cfg, label } => Some((true, "Connection '"@ + label + "' deleted"@)),
            MsgModel::Users(rows) => Some((true, "Fetched "@ + text::decimal(rows.len()) + " user(s)"@)),
            MsgModel::UsersFailed(e) => Some((false, text::single_line(e))),
            MsgModel::Created { username, password, copied } => Some(
                (true, "User "@ + username + " created, password: "@ + password + suffix(copied)),
            ),
            MsgModel::CreateFailed { username, error } => Some(
                (false, "Failed to create "@ + username + ": "@ + text::single_line(error)),
            ),
            MsgModel::Updated(username) => Some((true, "User "@ + username + " updated"@)),
            MsgModel::UpdateFailed { username, error } => Some(
                (false, "Failed to update "@ + username + ": "@ + text::single_line(error)),
            ),
            MsgModel::UserDeleted(username) => Some((true, "User "@ + username + " deleted"@)),
            MsgModel::UserDeleteFailed { username, error } => Some(
                (false, "Failed to delete "@ + username + ": "@ + text::single_line(error)),
            ),
            MsgModel::Password { password, copied } => Some(
                (true, "Generated password: "@ + password + suffix(copied)),
            ),
            _ => None,
        }
    }
}

fn suffix_text(copied: bool) -> (r: &'static str)
    ensures
        r@ == suffix(copied),
{
    if copied {
        " (copied to clipboard)"
    } else {
        ""
    }
}

impl Msg {
    /// The line that a message leaves in the history, and whether it is good news.
    pub fn line(&self) -> (r: Option<(bool, String)>)
        ensures
            r.deep_view() == self@.line(),
    {
        match self {
            Msg::Saved(_) => Some((true, text::owned("Connection saved"))),
            Msg::Deleted { cfg: _, label } => Some(
                (true, text::cat3("Connection '", label.as_str(), "' deleted")),
            ),
            Msg::Users(rows) => {
                let n = text::number(rows.len() as u64);
                Some((true, text::cat3("Fetched ", n.as_str(), " user(s)")))
            },
            Msg::UsersFailed(e) => Some((false, text::one_line(e.as_str()))),
            Msg::Created { username, password, copied } => Some(
                (
                    true,
                    text::cat5(
                        "User ",
                        username.as_str(),
                        " created, password: ",
                        password.as_str(),
                        suffix_text(*copied),
                    ),
                ),
            ),
            Msg::CreateFailed { username, error } => {
                let e = text::one_line(error.as_str());
                Some((false, text::cat4("Failed to create ", username.as_str(), ": ", e.as_str())))
            },
            Msg::Updated(username) => Some((true, text::cat3("User ", username.as_str(), " updated"))),
            Msg::UpdateFailed { username, error } => {
                let e = text::one_line(error.as_str());
                Some((false, text::cat4("Failed to update ", username.as_str(), ": ", e.as_str())))
            },
            Msg::UserDeleted(username) => Some((true, text::cat3("User ", username.as_str(), " deleted"))),
            Msg::UserDeleteFailed { username, error } => {
                let e = text::one_line(error.as_str());
                Some((false, text::cat4("Failed to delete ", username.as_str(), ": ", e.as_str())))
            },
            Msg::Password { password, copied } => Some(
                (true, text::cat3("Generated password: ", password.as_str(), suffix_text(*copied))),
            ),
            _ => None,
        }
    }
}

pub open spec fn tab_labels() -> Seq<Seq<char>> {
    seq!["F1 Connections"@, "F2 Users"@]
}

pub open spec fn conn_buttons() -> Seq<Seq<char>> {
    seq!["Save"@, "New"@, "Delete"@, "Test Connection"@]
}

pub open spec fn screen_rows() -> Seq<Constraint> {
    seq![Constraint::Length(1), Constraint::Min(0)]
}

pub open spec fn conn_rows(height: int) -> Seq<Constraint> {
    seq![Constraint::Min(0), Constraint::Length(height as u16), Constraint::Length(6)]
}

pub open spec fn users_rows() -> Seq<Constraint> {
    seq![Constraint::Length(5), Constraint::Min(6), Constraint::Length(6), Constraint::Length(7)]
}

pub open spec fn two_lines() -> Seq<Constraint> {
    seq![Constraint::Length(1), Constraint::Length(1)]
}

impl ClickHouseLayoutModel {
    /// Whether the rectangles are those of a form with these switches on `area`.
    pub open spec fn of(self, area: Rect, mode_is_sql: bool, use_tunnel: bool) -> bool {
        &&& geometry::stacked(area, 0, screen_rows(), self.screen)
        &&& geometry::stacked(
            self.screen[1],
            0,
            conn_rows(form_height(mode_is_sql, use_tunnel)),
            self.conn,
        )
        &&& geometry::stacked(
            mouse::inner(self.conn[1]),
            1,
            form::lines(form_rows(mode_is_sql, use_tunnel).len()),
            self.form,
        )
        &&& geometry::stacked(self.screen[1], 0, users_rows(), self.users)
        &&& geometry::stacked(mouse::inner(self.users[0]), 1, two_lines(), self.top)
        &&& geometry::stacked(mouse::inner(self.users[2]), 1, two_lines(), self.action)
        &&& geometry::stacked(
            mouse::inner(host_picker::picker_area(self.screen[1])),
            1,
            host_picker::picker_rows(),
            self.hosts,
        )
        &&& geometry::stacked(
            mouse::inner(file_picker::picker_area(self.screen[1])),
            1,
            file_picker::picker_rows(),
            self.keys,
        )
    }

    /// Whether every rectangle that is asked for is there.
    pub open spec fn complete(self, mode_is_sql: bool, use_tunnel: bool) -> bool {
        &&& self.screen.len() == 2
        &&& self.conn.len() == 3
        &&& self.form.len() == form_rows(mode_is_sql, use_tunnel).len() + 1
        &&& self.users.len() == 4
        &&& self.top.len() == 2
        &&& self.action.len() == 2
        &&& self.hosts.len() == 4
        &&& self.keys.len() == 2
    }
}

impl ClickHouseScreenModel {
    pub open spec fn tags(self) -> Seq<Seq<char>> {
        self.tag_modes
    }

    /// The chosen root tag is one of those there are.
    pub open spec fn wf(self) -> bool {
        0 <= self.connections_tab.tag_mode_idx < self.tag_modes.len()
    }

    pub open spec fn fresh(cfg: ConfigModel, tag_modes: Seq<Seq<char>>) -> ClickHouseScreenModel {
        ClickHouseScreenModel {
            tab: Tab::Connections,
            connections_tab: ConnectionsTabModel::empty(),
            users_tab: UsersTabModel::empty(),
            cfg,
            tag_modes,
            log: LogModel::empty(),
            requests: Seq::empty(),
        }
    }

    pub open spec fn with_conn(self, connections_tab: ConnectionsTabModel) -> ClickHouseScreenModel {
        ClickHouseScreenModel { connections_tab, ..self }
    }

    pub open spec fn with_users(self, users_tab: UsersTabModel) -> ClickHouseScreenModel {
        ClickHouseScreenModel { users_tab, ..self }
    }

    pub open spec fn with_log(self, log: LogModel) -> ClickHouseScreenModel {
        ClickHouseScreenModel { log, ..self }
    }

    pub open spec fn error(self, msg: Seq<char>) -> ClickHouseScreenModel {
        self.with_log(self.log.error(msg))
    }

    pub open spec fn note(self, ok: bool, line: Seq<char>) -> ClickHouseScreenModel {
        self.with_log(self.log.note(ok, line))
    }

    pub open spec fn ask(self, r: RequestModel) -> ClickHouseScreenModel {
        ClickHouseScreenModel { requests: self.requests.push(r), ..self }
    }

    pub open spec fn on_tab(self, tab: Tab) -> ClickHouseScreenModel {
        ClickHouseScreenModel { tab, ..self }
    }

    /// The profile of a label, with its passwords.
    pub open spec fn connection_by_label(self, label: Seq<char>) -> Option<ConnectionWithSecretsModel> {
        match by_label(self.cfg.connections, label) {
            Some(c) => self.cfg.with_secrets(c.id),
            None => None,
        }
    }

    /// The profile that is typed on the users tab.
    pub open spec fn typed_connection(self) -> Option<ConnectionWithSecretsModel> {
        self.connection_by_label(self.users_tab.connection_input.trimmed())
    }

    /// The saved profile that the form was loaded from.
    pub open spec fn edited(self) -> Option<ConnectionModel> {
        match self.connections_tab.selected {
            Some(i) => self.cfg.get(i as int),
            None => None,
        }
    }

    /// The passwords of the profile that the form was loaded from, where it has any.
    pub open spec fn saved_passwords(self) -> (Seq<char>, Seq<char>) {
        match self.edited() {
            Some(c) => match self.cfg.with_secrets(c.id) {
                Some(s) => (s.db_password, s.ssh_password),
                None => (Seq::empty(), Seq::empty()),
            },
            None => (Seq::empty(), Seq::empty()),
        }
    }

    // ---------------------------------------------------------- the actions

    /// A profile is saved if it has a label and the hosts that its mode needs.
    pub open spec fn save_connection(self) -> ClickHouseScreenModel {
        let input = self.connections_tab.as_input(self.tags());
        if input.label.len() == 0 {
            self.error("Label is required"@)
        } else if input.is_sql && (input.host.len() == 0 || input.db_user.len() == 0) {
            self.error("Host and DB User are required for SQL mode"@)
        } else if input.ssh_host.len() == 0 && (!input.is_sql || input.use_tunnel) {
            self.error("SSH Host is required"@)
        } else {
            self.ask(
                RequestModel::SaveConnection {
                    existing: match self.edited() {
                        Some(c) => Some(c.id),
                        None => None,
                    },
                    input,
                },
            )
        }
    }

    /// The loaded profile is deleted, or else the one at the place in the table.
    pub open spec fn delete_connection(self) -> ClickHouseScreenModel {
        let ct = self.connections_tab;
        if ct.selected is None && self.cfg.connections.len() == 0 {
            self.error("No connection selected"@)
        } else {
            match self.cfg.get(
                match ct.selected {
                    Some(i) => i as int,
                    None => ct.table_idx,
                },
            ) {
                Some(c) => self.ask(RequestModel::DeleteConnection { id: c.id, label: c.label }),
                None => self,
            }
        }
    }

    /// The profile in the form is tried out; passwords left empty are the saved ones.
    pub open spec fn test_connection(self) -> ClickHouseScreenModel {
        let input = self.connections_tab.as_input(self.tags());
        if input.is_sql && (input.host.len() == 0 || input.db_user.len() == 0) {
            self.error("Host and DB User are required to test"@)
        } else if input.ssh_host.len() == 0 && (!input.is_sql || input.use_tunnel) {
            self.error("SSH Host is required to test"@)
        } else {
            self.ask(
                RequestModel::ListUsers(
                    ConnectionWithSecretsModel {
                        id: "test"@,
                        label: input.label,
                        is_sql: input.is_sql,
                        host: input.host,
                        port: input.port,
                        db_user: input.db_user,
                        db_password: if input.db_password.len() > 0 {
                            input.db_password
                        } else {
                            self.saved_passwords().0
                        },
                        use_tunnel: input.use_tunnel,
                        ssh_host: input.ssh_host,
                        ssh_port: input.ssh_port,
                        ssh_user: input.ssh_user,
                        ssh_key_path: input.ssh_key_path,
                        ssh_password: if input.ssh_password.len() > 0 {
                            input.ssh_password
                        } else {
                            self.saved_passwords().1
                        },
                        tag_mode: input.tag_mode,
                    },
                ),
            )
        }
    }

    pub open spec fn fetch_users(self) -> ClickHouseScreenModel {
        match self.typed_connection() {
            Some(conn) => self.ask(RequestModel::ListUsers(conn)),
            None => self.error("Select a valid connection (use the dropdown)"@),
        }
    }

    /// The modal that adds a user, where a profile is selected.
    pub open spec fn add_user(self) -> ClickHouseScreenModel {
        if self.typed_connection() is None {
            self.error("Select a valid connection first (use the dropdown)"@)
        } else {
            self.with_users(
                UsersTabModel { modal: Some(UserModalModel::Add(AddUserModalModel::empty())), ..self.users_tab },
            )
        }
    }

    /// The form loaded from the profile at a place in the table.
    pub open spec fn load(self, idx: int) -> ClickHouseScreenModel {
        match self.cfg.get(idx) {
            Some(c) => self.with_conn(self.connections_tab.loaded(idx, c, self.tags())),
            None => self,
        }
    }

    // ------------------------------------------------- keys of the first tab

    /// Enter on the selected host of the picker fills the form and closes it.
    pub open spec fn pick_host(self) -> ClickHouseScreenModel {
        match self.connections_tab.host_picker {
            Some(p) => match p.picked() {
                Some(s) => self.with_conn(
                    ConnectionsTabModel { host_picker: None, ..self.connections_tab.filled_from(s) },
                ),
                None => self,
            },
            None => self,
        }
    }

    /// Enter on the selected entry of the key picker: a file is taken, a directory opened.
    pub open spec fn pick_key(self) -> ClickHouseScreenModel {
        match self.connections_tab.key_picker {
            Some(p) => match p.activated() {
                ActivationModel::Picked(path) => self.with_conn(
                    ConnectionsTabModel {
                        key_picker: None,
                        ssh_key_path: InputModel::of(path),
                        ..self.connections_tab
                    },
                ),
                ActivationModel::Open(path) => self.ask(RequestModel::ReadDir(path)),
                ActivationModel::Nothing => self,
            },
            None => self,
        }
    }

    pub open spec fn with_key_picker(self, p: Option<FilePickerModel>) -> ClickHouseScreenModel {
        self.with_conn(ConnectionsTabModel { key_picker: p, ..self.connections_tab })
    }

    pub open spec fn with_host_picker(self, p: Option<HostPickerModel>) -> ClickHouseScreenModel {
        self.with_conn(ConnectionsTabModel { host_picker: p, ..self.connections_tab })
    }

    /// The screen after a step of the open key picker.
    pub open spec fn key_step(self, p: FilePickerModel, step: PickerStep) -> ClickHouseScreenModel {
        match step {
            PickerStep::Stay => self.with_key_picker(Some(p)),
            PickerStep::Close => self.with_key_picker(None),
            PickerStep::Pick => self.with_key_picker(Some(p)).pick_key(),
        }
    }

    /// The screen after a step of the open host picker.
    pub open spec fn host_step(self, p: HostPickerModel, step: PickerStep) -> ClickHouseScreenModel {
        match step {
            PickerStep::Stay => self.with_host_picker(Some(p)),
            PickerStep::Close => self.with_host_picker(None),
            PickerStep::Pick => self.with_host_picker(Some(p)).pick_host(),
        }
    }

    /// Enter on a field of the form: a switch turns, a picker opens, a button
    /// acts, and any other field hands the focus on.
    pub open spec fn on_conn_enter(self) -> ClickHouseScreenModel {
        let ct = self.connections_tab;
        match ct.field {
            ConnField::Mode | ConnField::UseTunnel | ConnField::TagMode => self.with_conn(
                ct.switched(false, self.tags().len() as int),
            ),
            ConnField::SshHost => self.ask(RequestModel::ListHosts),
            ConnField::SshKeyPath => self.ask(RequestModel::BrowseKey(ct.ssh_key_path.text)),
            ConnField::BtnSave => self.save_connection(),
            ConnField::BtnNew => self.with_conn(ct.cleared()),
            ConnField::BtnDelete => self.delete_connection(),
            ConnField::BtnTest => self.test_connection(),
            _ => self.with_conn(ct.next_field()),
        }
    }

    #[verifier::opaque]
    pub open spec fn on_connections_key(self, key: KeyCode) -> ClickHouseScreenModel {
        let ct = self.connections_tab;
        let n = self.cfg.connections.len() as int;
        let on_table = ct.field == ConnField::Table && n > 0;
        match (ct.key_picker, ct.host_picker) {
            (Some(p), _) => self.key_step(p.on_key(key).0, p.on_key(key).1),
            (None, Some(p)) => self.host_step(p.on_key(key).0, p.on_key(key).1),
            (None, None) => match key {
                KeyCode::Tab => self.with_conn(ct.next_field()),
                KeyCode::BackTab => self.with_conn(ct.prev_field()),
                KeyCode::Up => if on_table {
                    self.with_conn(ct.table_moved(true, n))
                } else {
                    self.with_conn(ct.prev_field())
                },
                KeyCode::Down => if on_table {
                    self.with_conn(ct.table_moved(false, n))
                } else {
                    self.with_conn(ct.next_field())
                },
                KeyCode::Enter => if on_table {
                    self.load(ct.table_idx)
                } else {
                    self.on_conn_enter()
                },
                _ => if ct.is_switch() && (key == KeyCode::Left || key == KeyCode::Right) {
                    self.with_conn(ct.switched(key == KeyCode::Left, self.tags().len() as int))
                } else {
                    self.with_conn(ct.edit(key))
                },
            },
        }
    }

    // ------------------------------------------------ keys of the second tab

    /// The modal closed: the key that closed it, or the work it asked for, is done.
    pub open spec fn modal_closed(self) -> ClickHouseScreenModel {
        self.with_users(UsersTabModel { modal: None, ..self.users_tab })
    }

    pub open spec fn with_add(self, m: AddUserModalModel) -> ClickHouseScreenModel {
        self.with_users(UsersTabModel { modal: Some(UserModalModel::Add(m)), ..self.users_tab })
    }

    pub open spec fn with_edit(self, m: EditUserModalModel) -> ClickHouseScreenModel {
        self.with_users(UsersTabModel { modal: Some(UserModalModel::Edit(m)), ..self.users_tab })
    }

    /// Create: the user is created, where there is a name and a profile.
    pub open spec fn create_user(self, m: AddUserModalModel) -> ClickHouseScreenModel {
        if m.username.trimmed().len() == 0 {
            self.error("Username is required"@)
        } else {
            match self.typed_connection() {
                None => self.error("Select a valid connection"@),
                Some(conn) => self.modal_closed().ask(
                    RequestModel::CreateUser {
                        conn,
                        username: m.username.trimmed(),
                        profile: profile_name(m.profile_is_default),
                        ips: ips_of(m.ips.text),
                        password: m.password.text,
                    },
                ),
            }
        }
    }

    #[verifier::opaque]
    pub open spec fn on_add_key(self, m: AddUserModalModel, key: KeyCode) -> ClickHouseScreenModel {
        if key == KeyCode::Esc {
            self.modal_closed()
        } else if key == KeyCode::Enter && m.field == AddField::BtnCreate {
            self.create_user(m)
        } else if key == KeyCode::Enter && m.field == AddField::BtnCancel {
            self.modal_closed()
        } else if key == KeyCode::Enter && m.field == AddField::BtnGenerate {
            self.ask(RequestModel::GeneratePassword)
        } else {
            self.with_add(m.on_key(key))
        }
    }

    pub open spec fn update_user(self, m: EditUserModalModel) -> ClickHouseScreenModel {
        match self.typed_connection() {
            None => self.error("Select a valid connection"@),
            Some(conn) => self.modal_closed().ask(
                RequestModel::UpdateUser {
                    conn,
                    username: m.username,
                    profile: profile_name(m.profile_is_default),
                    ips: ips_of(m.ips.text),
                    password: m.password.text,
                },
            ),
        }
    }

    pub open spec fn delete_user(self, m: EditUserModalModel) -> ClickHouseScreenModel {
        match self.typed_connection() {
            None => self.error("Select a valid connection"@),
            Some(conn) => self.modal_closed().ask(
                RequestModel::DeleteUser { conn, username: m.username },
            ),
        }
    }

    #[verifier::opaque]
    pub open spec fn on_edit_key(self, m: EditUserModalModel, key: KeyCode) -> ClickHouseScreenModel {
        if key == KeyCode::Esc {
            self.modal_closed()
        } else if key == KeyCode::Enter && m.field == EditField::BtnSave {
            self.update_user(m)
        } else if key == KeyCode::Enter && m.field == EditField::BtnDelete {
            self.delete_user(m)
        } else if key == KeyCode::Enter && m.field == EditField::BtnCancel {
            self.modal_closed()
        } else {
            self.with_edit(m.on_key(key))
        }
    }

    /// Keys while the dropdown is open: it filters as one types, and picking
    /// a profile fetches its users at once.
    #[verifier::opaque]
    pub open spec fn on_dropdown_key(self, key: KeyCode) -> ClickHouseScreenModel {
        let ut = self.users_tab;
        let found = self.cfg.filtered(ut.connection_input.text);
        match key {
            KeyCode::Esc => self.with_users(ut.dropdown(false)),
            KeyCode::Tab => self.with_users(ut.dropdown(false).focus(ut.field.next())),
            KeyCode::BackTab => self.with_users(ut.dropdown(false).focus(ut.field.prev())),
            KeyCode::Up => self.with_users(
                UsersTabModel { connection_idx: cycle::moved(ut.connection_idx, true, found.len() as int), ..ut },
            ),
            KeyCode::Down => self.with_users(
                UsersTabModel { connection_idx: cycle::moved(ut.connection_idx, false, found.len() as int), ..ut },
            ),
            KeyCode::Enter => if ut.connection_idx < found.len() {
                self.with_users(
                    UsersTabModel {
                        connection_input: InputModel::of(found[ut.connection_idx]),
                        ..ut.dropdown(false)
                    },
                ).fetch_users()
            } else {
                self.with_users(ut.dropdown(false))
            },
            KeyCode::Char(_) | KeyCode::Backspace => self.with_users(
                UsersTabModel { connection_idx: 0, ..ut.typed(key) },
            ),
            _ => self.with_users(ut.typed(key)),
        }
    }

    pub open spec fn on_users_enter(self) -> ClickHouseScreenModel {
        let ut = self.users_tab;
        match ut.field {
            UsersField::Connection => self.with_users(ut.opened(self.cfg.connections.len() > 0)),
            UsersField::BtnConnect => self.fetch_users(),
            UsersField::BtnAddUser => self.add_user(),
            UsersField::Table => self.with_users(ut.focus(ut.field.next())),
        }
    }

    #[verifier::opaque]
    pub open spec fn on_users_key(self, key: KeyCode) -> ClickHouseScreenModel {
        let ut = self.users_tab;
        let on_table = ut.field == UsersField::Table && ut.rows.len() > 0;
        match ut.modal {
            Some(UserModalModel::Add(m)) => self.on_add_key(m, key),
            Some(UserModalModel::Edit(m)) => self.on_edit_key(m, key),
            None => if ut.connection_dropdown_open {
                self.on_dropdown_key(key)
            } else {
                match key {
                    KeyCode::Tab => self.with_users(ut.focus(ut.field.next())),
                    KeyCode::BackTab => self.with_users(ut.focus(ut.field.prev())),
                    KeyCode::Up => if on_table {
                        self.with_users(ut.row_moved(true))
                    } else {
                        self.with_users(ut.focus(ut.field.prev()))
                    },
                    KeyCode::Down => if on_table {
                        self.with_users(ut.row_moved(false))
                    } else {
                        self.with_users(ut.focus(ut.field.next()))
                    },
                    KeyCode::Enter => if on_table {
                        self.with_users(ut.editing(ut.selected_row))
                    } else {
                        self.on_users_enter()
                    },
                    KeyCode::Char(_) => if ut.field == UsersField::Connection {
                        self.with_users(ut.typed(key).opened(self.cfg.connections.len() > 0))
                    } else {
                        self
                    },
                    _ => if ut.field == UsersField::Connection {
                        self.with_users(ut.typed(key))
                    } else {
                        self
                    },
                }
            },
        }
    }

    // -------------------------------------------------------- keys and mouse

    /// Whether Esc leaves the screen: nothing is open that it would close first.
    pub open spec fn esc_leaves(self) -> bool {
        !self.users_tab.connection_dropdown_open && self.users_tab.modal is None
            && self.connections_tab.pickers_closed()
    }

    /// Whether the function keys switch tabs.
    pub open spec fn tabs_free(self) -> bool {
        self.users_tab.modal is None && self.connections_tab.pickers_closed()
    }

    /// The screen after a key, and whether the key leaves it.
    pub open spec fn on_key(self, key: KeyEvent) -> (ClickHouseScreenModel, bool) {
        if self.log.alert is Some {
            (if log::closes_alert(key.code) {
                self.with_log(self.log.dismissed())
            } else {
                self
            }, false)
        } else if key.chord('c') {
            (self, true)
        } else if key.chord('y') {
            (self.ask(RequestModel::CopyHistory), false)
        } else if log::scrolls_history(key) {
            (self.with_log(self.log.scrolled(key.code == KeyCode::Up)), false)
        } else if key.code == KeyCode::Esc && self.esc_leaves() {
            (self, true)
        } else if key.code == KeyCode::F(1) && self.tabs_free() {
            (self.on_tab(Tab::Connections), false)
        } else if key.code == KeyCode::F(2) && self.tabs_free() {
            (self.on_tab(Tab::Users), false)
        } else {
            (match self.tab {
                Tab::Connections => self.on_connections_key(key.code),
                Tab::Users => self.on_users_key(key.code),
            }, false)
        }
    }

    /// A click on a field of the form: switches turn, the SSH host opens the
    /// picker, other fields get the focus.
    pub open spec fn click_field(self, f: ConnField) -> ClickHouseScreenModel {
        match f {
            ConnField::SshHost => self.ask(RequestModel::ListHosts),
            _ => self.with_conn(self.connections_tab.focus(f).switched(false, self.tags().len() as int)),
        }
    }

    pub open spec fn click_conn_button(self, i: usize) -> ClickHouseScreenModel {
        if i == 0 {
            self.save_connection()
        } else if i == 1 {
            self.with_conn(self.connections_tab.cleared())
        } else if i == 2 {
            self.delete_connection()
        } else {
            self.test_connection()
        }
    }

    /// A click on the first tab: a row of the table is loaded, a button acts,
    /// a field gets the focus.
    #[verifier::opaque]
    pub open spec fn click_connections(self, x: u16, y: u16, l: ClickHouseLayoutModel) -> ClickHouseScreenModel {
        let ct = self.connections_tab;
        match mouse::table_hit(x, y, l.conn[0], 1, self.cfg.connections.len() as int, ct.table_idx) {
            Some(i) => self.with_conn(ConnectionsTabModel { table_idx: i as int, ..ct }).load(i as int),
            None => match mouse::button_hit(x, y, l.form[form::button_row(ct.rows())], conn_buttons()) {
                Some(i) => self.click_conn_button(i),
                None => match form::field_hit(l.form, ct.rows(), x, y) {
                    Some(f) => self.click_field(f),
                    None => self,
                },
            },
        }
    }

    pub open spec fn scroll_connections(self, up: bool, x: u16, y: u16, l: ClickHouseLayoutModel) -> ClickHouseScreenModel {
        let n = self.cfg.connections.len() as int;
        if n > 0 && mouse::hits(l.conn[0], x, y) {
            self.with_conn(self.connections_tab.table_moved(up, n))
        } else if mouse::hits(l.conn[2], x, y) {
            self.with_log(self.log.scrolled(up))
        } else {
            self
        }
    }

    #[verifier::opaque]
    pub open spec fn on_connections_mouse(self, me: MouseEvent, l: ClickHouseLayoutModel) -> ClickHouseScreenModel {
        let ct = self.connections_tab;
        match (ct.host_picker, ct.key_picker) {
            (Some(p), _) => self.host_step(p.on_mouse(me, l.hosts[2]).0, p.on_mouse(me, l.hosts[2]).1),
            (None, Some(p)) => self.key_step(p.on_mouse(me, l.keys[0]).0, p.on_mouse(me, l.keys[0]).1),
            (None, None) => match mouse::scrolled(me) {
                Some(d) => self.scroll_connections(d < 0, me.column, me.row, l),
                None => match mouse::clicked(me) {
                    Some((x, y)) => self.click_connections(x, y, l),
                    None => self,
                },
            },
        }
    }

    #[verifier::opaque]
    pub open spec fn click_users(self, x: u16, y: u16, l: ClickHouseLayoutModel) -> ClickHouseScreenModel {
        let ut = self.users_tab;
        if mouse::hits(l.top[0], x, y) {
            self.with_users(ut.focus(UsersField::Connection).opened(self.cfg.connections.len() > 0))
        } else if mouse::button_hit(x, y, l.top[1], seq!["Connect / Refresh"@]) is Some {
            self.fetch_users()
        } else {
            match mouse::table_hit(x, y, l.users[1], 1, ut.rows.len() as int, ut.selected_row) {
                Some(i) => self.with_users(UsersTabModel { selected_row: i as int, ..ut }.editing(i as int)),
                None => if mouse::button_hit(x, y, l.action[0], seq!["Add User"@]) is Some {
                    self.add_user()
                } else {
                    self
                },
            }
        }
    }

    #[verifier::opaque]
    pub open spec fn on_users_mouse(self, me: MouseEvent, l: ClickHouseLayoutModel) -> ClickHouseScreenModel {
        let ut = self.users_tab;
        if ut.connection_dropdown_open {
            self.with_users(ut.dropdown(false))
        } else {
            match mouse::scrolled(me) {
                Some(d) => if ut.rows.len() > 0 && mouse::hits(l.users[1], me.column, me.row) {
                    self.with_users(ut.row_moved(d < 0))
                } else if mouse::hits(l.users[3], me.column, me.row) {
                    self.with_log(self.log.scrolled(d < 0))
                } else {
                    self
                },
                None => match mouse::clicked(me) {
                    Some((x, y)) => self.click_users(x, y, l),
                    None => self,
                },
            }
        }
    }

    /// The tab whose label a click hits.
    pub open spec fn tab_hit(me: MouseEvent, l: ClickHouseLayoutModel) -> Option<usize> {
        match mouse::clicked(me) {
            Some((x, y)) => mouse::label_hit(x, y, l.screen[0], tab_labels()),
            None => None,
        }
    }

    /// The screen after a mouse event. A message box is dismissed by a click;
    /// an open user modal takes no mouse.
    pub open spec fn on_mouse(self, me: MouseEvent, l: ClickHouseLayoutModel) -> ClickHouseScreenModel {
        if self.log.alert is Some {
            if mouse::clicked(me) is Some {
                self.with_log(self.log.dismissed())
            } else {
                self
            }
        } else if self.users_tab.modal is Some {
            self
        } else {
            match ClickHouseScreenModel::tab_hit(me, l) {
                Some(i) => self.on_tab(
                    if i == 0 {
                        Tab::Connections
                    } else {
                        Tab::Users
                    },
                ),
                None => match self.tab {
                    Tab::Connections => self.on_connections_mouse(me, l),
                    Tab::Users => self.on_users_mouse(me, l),
                },
            }
        }
    }

    // ------------------------------------------------------------- messages

    /// What a message changes besides the line it leaves.
    pub open spec fn absorb(self, m: MsgModel) -> ClickHouseScreenModel {
        match m {
            MsgModel::Hosts(all) => self.with_host_picker(Some(HostPickerModel::over(all))),
            MsgModel::HostsFailed(e) => self.with_host_picker(Some(HostPickerModel::failed(e))),
            MsgModel::KeyDir { listing, preselect } => self.with_key_picker(
                Some(FilePickerModel::opened(listing, preselect)),
            ),
            MsgModel::DirRead(listing) => if self.connections_tab.key_picker is Some {
                self.with_key_picker(Some(FilePickerModel::reloaded(listing)))
            } else {
                self
            },
            MsgModel::Saved(cfg) => ClickHouseScreenModel {
                cfg,
                connections_tab: self.connections_tab.cleared(),
                ..self
            },
            MsgModel::SaveFailed { cfg, error } => ClickHouseScreenModel { cfg, ..self }.error(error),
            MsgModel::Deleted { cfg, label } => ClickHouseScreenModel {
                cfg,
                connections_tab: ConnectionsTabModel { table_idx: 0, ..self.connections_tab.cleared() },
                ..self
            },
            MsgModel::DeleteFailed { cfg, error } => ClickHouseScreenModel { cfg, ..self }.error(error),
            MsgModel::Users(rows) => self.with_users(
                UsersTabModel { rows, selected_row: 0, ..self.users_tab },
            ),
            MsgModel::Password { password, copied } => match self.users_tab.modal {
                Some(UserModalModel::Add(m)) => self.with_add(
                    AddUserModalModel { password: InputModel::of(password), ..m },
                ),
                _ => self,
            },
            MsgModel::HistoryCopied(ok) => self.with_log(self.log.copied(ok)),
            _ => self,
        }
    }

    pub open spec fn on_msg(self, m: MsgModel) -> ClickHouseScreenModel {
        match m.line() {
            Some((ok, line)) => self.absorb(m).note(ok, line),
            None => self.absorb(m),
        }
    }

    /// The screen after messages, in their order.
    pub open spec fn after(self, msgs: Seq<MsgModel>) -> ClickHouseScreenModel
        decreases msgs.len(),
    {
        if msgs.len() == 0 {
            self
        } else {
            self.after(msgs.drop_last()).on_msg(msgs.last())
        }
    }
}

impl ClickHouseScreen {
    /// A screen over the saved profiles.
    pub fn new(cfg: Config, tag_modes: Vec<String>) -> (r: ClickHouseScreen)
        requires
            tag_modes@.len() > 0,
        ensures
            r@ == ClickHouseScreenModel::fresh(cfg@, tag_modes.deep_view()),
            r@.wf(),
    {
        let r = ClickHouseScreen {
            tab: Tab::Connections,
            connections_tab: ConnectionsTab::new(),
            users_tab: UsersTab::new(),
            cfg,
            tag_modes,
            log: Log::new(),
            requests: Vec::new(),
        };
        assert(r@.requests =~= Seq::empty());
        r
    }

    /// Hands out the queued requests.
    pub fn take_requests(&mut self) -> (r: Vec<Request>)
        ensures
            r.deep_view() == old(self)@.requests,
            final(self)@ == (ClickHouseScreenModel { requests: Seq::empty(), ..old(self)@ }),
    {
        let mut r: Vec<Request> = Vec::new();
        std::mem::swap(&mut r, &mut self.requests);
        assert(self@.requests =~= Seq::empty());
        r
    }

    fn ask(&mut self, r: Request)
        ensures
            final(self)@ == old(self)@.ask(r@),
    {
        append_to(&mut self.requests, r);
    }

    fn error(&mut self, msg: &str)
        ensures
            final(self)@ == old(self)@.error(msg@),
    {
        self.log.error(msg);
    }

    fn note(&mut self, ok: bool, line: String)
        ensures
            final(self)@ == old(self)@.note(ok, line@),
    {
        self.log.note(ok, line);
    }

    /// Takes in what came of requests.
    pub fn tick(&mut self, msgs: Vec<Msg>)
        requires
            old(self)@.wf(),
        ensures
            final(self)@ == old(self)@.after(msgs.deep_view()),
            final(self)@.wf(),
    {
        let ghost all = msgs.deep_view();
        let ghost start = self@;
        let mut i: usize = 0;
        assert(all.take(0) =~= Seq::empty());
        while i < msgs.len()
            invariant
                i <= msgs@.len(),
                all == msgs.deep_view(),
                self@ == start.after(all.take(i as int)),
                self@.wf(),
            decreases msgs@.len() - i,
        {
            proof {
                assert(all.take(i + 1).drop_last() =~= all.take(i as int));
                assert(all.take(i + 1).last() == msgs@[i as int]@);
            }
            self.receive(&msgs[i]);
            i = i + 1;
        }
        assert(all.take(all.len() as int) =~= all);
    }

    fn receive(&mut self, m: &Msg)
        requires
            old(self)@.wf(),
        ensures
            final(self)@ == old(self)@.on_msg(m@),
            final(self)@.wf(),
    {
        self.absorb(m);
        if let Some((ok, line)) = m.line() {
            self.note(ok, line);
        }
    }

    /// Takes in what a message changes besides the line it leaves.
    fn absorb(&mut self, m: &Msg)
        requires
            old(self)@.wf(),
        ensures
            final(self)@ == old(self)@.absorb(m@),
            final(self)@.wf(),
    {
        match m {
            Msg::Hosts(all) => {
                self.connections_tab.host_picker = Some(HostPicker::new(Ok(all.copy())));
            },
            Msg::HostsFailed(e) => {
                self.connections_tab.host_picker = Some(HostPicker::new(Err(e.clone())));
            },
            Msg::KeyDir { listing, preselect } => {
                self.connections_tab.key_picker = Some(FilePicker::new(listing, preselect.copy()));
            },
            Msg::DirRead(listing) => {
                if self.connections_tab.key_picker.is_some() {
                    self.connections_tab.key_picker = Some(FilePicker::new(listing, None));
                }
            },
            Msg::Saved(cfg) => {
                self.cfg = cfg.copy();
                self.connections_tab.clear_form();
            },
            Msg::SaveFailed { cfg, error } => {
                self.cfg = cfg.copy();
                self.error(error.as_str());
            },
            Msg::Deleted { cfg, label: _ } => {
                self.cfg = cfg.copy();
                self.connections_tab.clear_form();
                self.connections_tab.table_idx = 0;
            },
            Msg::DeleteFailed { cfg, error } => {
                self.cfg = cfg.copy();
                self.error(error.as_str());
            },
            Msg::Users(rows) => {
                self.users_tab.rows = rows.copy();
                self.users_tab.selected_row = 0;
            },
            Msg::Password { password, copied: _ } => {
                if let Some(UserModal::Add(m)) = &mut self.users_tab.modal {
                    m.password = Input::new(password.as_str());
                }
            },
            Msg::HistoryCopied(ok) => self.log.copied(*ok),
            _ => {},
        }
    }

    fn connection_by_label(&self, label: &str) -> (r: Option<ConnectionWithSecrets>)
        ensures
            r.deep_view() == self@.connection_by_label(label@),
    {
        match self.cfg.find_label(label) {
            Some(c) => self.cfg.with_secrets(c.id.as_str()),
            None => None,
        }
    }

    fn typed_connection(&self) -> (r: Option<ConnectionWithSecrets>)
        ensures
            r.deep_view() == self@.typed_connection(),
    {
        let label = self.users_tab.connection_input.trimmed();
        self.connection_by_label(label.as_str())
    }

    pub fn handle_key(&mut self, key: KeyEvent) -> (leave: bool)
        requires
            old(self)@.wf(),
        ensures
            (final(self)@, leave) == old(self)@.on_key(key),
            final(self)@.wf(),
    {
        if self.log.alert.is_some() {
            if is_closing(key.code) {
                self.log.dismiss();
            }
            return false;
        }
        if key.is_chord('c') {
            return true;
        }
        if key.is_chord('y') {
            self.ask(Request::CopyHistory);
            return false;
        }
        if is_history_scroll(&key) {
            self.log.scroll_by(key.code == KeyCode::Up);
            return false;
        }
        let pickers_closed = self.connections_tab.key_picker.is_none() && self.connections_tab.host_picker.is_none();
        let tabs_free = self.users_tab.modal.is_none() && pickers_closed;
        match key.code {
            KeyCode::Esc => if !self.users_tab.connection_dropdown_open && tabs_free {
                return true;
            },
            KeyCode::F(n) => if n == 1 && tabs_free {
                self.tab = Tab::Connections;
                return false;
            } else if n == 2 && tabs_free {
                self.tab = Tab::Users;
                return false;
            },
            _ => {},
        }
        match self.tab {
            Tab::Connections => self.handle_connections_key(key.code),
            Tab::Users => self.handle_users_key(key.code),
        }
        false
    }

    // --------------------------------------------------------- connections

    /// Does a step of the open key picker.
    fn step_key_picker(&mut self, step: PickerStep)
        requires
            old(self)@.connections_tab.key_picker is Some,
        ensures
            final(self)@ == old(self)@.key_step(old(self)@.connections_tab.key_picker->0, step),
    {
        match step {
            PickerStep::Stay => {},
            PickerStep::Close => self.connections_tab.key_picker = None,
            PickerStep::Pick => self.pick_key(),
        }
    }

    /// Does a step of the open host picker.
    fn step_host_picker(&mut self, step: PickerStep)
        requires
            old(self)@.connections_tab.host_picker is Some,
        ensures
            final(self)@ == old(self)@.host_step(old(self)@.connections_tab.host_picker->0, step),
    {
        match step {
            PickerStep::Stay => {},
            PickerStep::Close => self.connections_tab.host_picker = None,
            PickerStep::Pick => self.pick_host(),
        }
    }

    fn pick_key(&mut self)
        ensures
            final(self)@ == old(self)@.pick_key(),
    {
        let picked = match &self.connections_tab.key_picker {
            Some(p) => p.activate(),
            None => Activation::Nothing,
        };
        match picked {
            Activation::Picked(path) => {
                self.connections_tab.ssh_key_path = Input::new(path.as_str());
                self.connections_tab.key_picker = None;
            },
            Activation::Open(path) => self.ask(Request::ReadDir(path)),
            Activation::Nothing => {},
        }
    }

    fn pick_host(&mut self)
        ensures
            final(self)@ == old(self)@.pick_host(),
    {
        let picked = match &self.connections_tab.host_picker {
            Some(p) => p.activate(),
            None => None,
        };
        if let Some(server) = picked {
            self.connections_tab.fill_ssh_from_host(&server);
            self.connections_tab.host_picker = None;
        }
    }

    fn load(&mut self, idx: usize)
        requires
            old(self)@.wf(),
        ensures
            final(self)@ == old(self)@.load(idx as int),
            final(self)@.wf(),
    {
        if let Some(c) = self.cfg.get(idx) {
            let c = c.copy();
            self.connections_tab.load_from(idx, &c, &self.tag_modes);
        }
    }

    pub fn handle_connections_key(&mut self, key: KeyCode)
        requires
            old(self)@.wf(),
        ensures
            final(self)@ == old(self)@.on_connections_key(key),
            final(self)@.wf(),
    {
        proof {
            reveal(ClickHouseScreenModel::on_connections_key);
        }
        let n: usize = self.cfg.connections.len();
        if let Some(p) = &mut self.connections_tab.key_picker {
            let step = p.handle_key(key);
            self.step_key_picker(step);
            return;
        }
        if let Some(p) = &mut self.connections_tab.host_picker {
            let step = p.handle_key(key);
            self.step_host_picker(step);
            return;
        }
        let on_table = self.connections_tab.field == ConnField::Table && n > 0;
        match key {
            KeyCode::Tab => self.connections_tab.next_field(),
            KeyCode::BackTab => self.connections_tab.prev_field(),
            KeyCode::Up => if on_table {
                self.connections_tab.table_idx = cycle::step(self.connections_tab.table_idx, true, n);
            } else {
                self.connections_tab.prev_field();
            },
            KeyCode::Down => if on_table {
                self.connections_tab.table_idx = cycle::step(self.connections_tab.table_idx, false, n);
            } else {
                self.connections_tab.next_field();
            },
            KeyCode::Enter => if on_table {
                let idx: usize = self.connections_tab.table_idx;
                self.load(idx);
            } else {
                self.enter_connection_field();
            },
            _ => {
                let switch = self.connections_tab.field == ConnField::Mode || self.connections_tab.field
                    == ConnField::UseTunnel || self.connections_tab.field == ConnField::TagMode;
                if switch && (key == KeyCode::Left || key == KeyCode::Right) {
                    let n_tags: usize = self.tag_modes.len();
                    self.connections_tab.switch(key == KeyCode::Left, n_tags);
                } else {
                    self.connections_tab.edit(key);
                }
            },
        }
    }

    fn enter_connection_field(&mut self)
        requires
            old(self)@.wf(),
        ensures
            final(self)@ == old(self)@.on_conn_enter(),
            final(self)@.wf(),
    {
        match self.connections_tab.field {
            ConnField::Mode | ConnField::UseTunnel | ConnField::TagMode => {
                let n_tags: usize = self.tag_modes.len();
                self.connections_tab.switch(false, n_tags);
            },
            ConnField::SshHost => self.ask(Request::ListHosts),
            ConnField::SshKeyPath => {
                let path = self.connections_tab.ssh_key_path.value();
                self.ask(Request::BrowseKey(path));
            },
            ConnField::BtnSave => self.trigger_save_connection(),
            ConnField::BtnNew => self.connections_tab.clear_form(),
            ConnField::BtnDelete => self.trigger_delete_connection(),
            ConnField::BtnTest => self.trigger_test_connection(),
            _ => self.connections_tab.next_field(),
        }
    }

    pub fn trigger_save_connection(&mut self)
        requires
            old(self)@.wf(),
        ensures
            final(self)@ == old(self)@.save_connection(),
    {
        let input = self.connections_tab.as_input(&self.tag_modes);
        if input.label.as_str().is_empty() {
            self.error("Label is required");
            return;
        }
        if input.is_sql && (input.host.as_str().is_empty() || input.db_user.as_str().is_empty()) {
            self.error("Host and DB User are required for SQL mode");
            return;
        }
        if input.ssh_host.as_str().is_empty() && (!input.is_sql || input.use_tunnel) {
            self.error("SSH Host is required");
            return;
        }
        let existing = match self.connections_tab.selected {
            Some(i) => match self.cfg.get(i) {
                Some(c) => Some(c.id.clone()),
                None => None,
            },
            None => None,
        };
        self.ask(Request::SaveConnection { existing, input });
    }

    pub fn trigger_delete_connection(&mut self)
        ensures
            final(self)@ == old(self)@.delete_connection(),
    {
        let idx: usize = match self.connections_tab.selected {
            Some(i) => i,
            None => {
                if self.cfg.connections.len() == 0 {
                    self.error("No connection selected");
                    return;
                }
                self.connections_tab.table_idx
            },
        };
        if let Some(c) = self.cfg.get(idx) {
            let id = c.id.clone();
            let label = c.label.clone();
            self.ask(Request::DeleteConnection { id, label });
        }
    }

    fn saved_passwords(&self) -> (r: (String, String))
        ensures
            (r.0@, r.1@) == self@.saved_passwords(),
    {
        if let Some(i) = self.connections_tab.selected {
            if let Some(c) = self.cfg.get(i) {
                if let Some(s) = self.cfg.with_secrets(c.id.as_str()) {
                    return (s.db_password, s.ssh_password);
                }
            }
        }
        (String::new(), String::new())
    }

    pub fn trigger_test_connection(&mut self)
        requires
            old(self)@.wf(),
        ensures
            final(self)@ == old(self)@.test_connection(),
    {
        let input = self.connections_tab.as_input(&self.tag_modes);
        if input.is_sql && (input.host.as_str().is_empty() || input.db_user.as_str().is_empty()) {
            self.error("Host and DB User are required to test");
            return;
        }
        if input.ssh_host.as_str().is_empty() && (!input.is_sql || input.use_tunnel) {
            self.error("SSH Host is required to test");
            return;
        }
        let saved = self.saved_passwords();
        let db_password = if !input.db_password.as_str().is_empty() {
            input.db_password
        } else {
            saved.0
        };
        let ssh_password = if !input.ssh_password.as_str().is_empty() {
            input.ssh_password
        } else {
            saved.1
        };
        self.ask(
            Request::ListUsers(
                ConnectionWithSecrets {
                    id: text::owned("test"),
                    label: input.label,
                    is_sql: input.is_sql,
                    host: input.host,
                    port: input.port,
                    db_user: input.db_user,
                    db_password,
                    use_tunnel: input.use_tunnel,
                    ssh_host: input.ssh_host,
                    ssh_port: input.ssh_port,
                    ssh_user: input.ssh_user,
                    ssh_key_path: input.ssh_key_path,
                    ssh_password,
                    tag_mode: input.tag_mode,
                },
            ),
        );
    }

    // --------------------------------------------------------------- users

    pub fn handle_users_key(&mut self, key: KeyCode)
        ensures
            final(self)@ == old(self)@.on_users_key(key),
            final(self)@.connections_tab == old(self)@.connections_tab,
            final(self)@.tag_modes == old(self)@.tag_modes,
    {
        proof {
            reveal(ClickHouseScreenModel::on_users_key);
            reveal(ClickHouseScreenModel::on_dropdown_key);
        }
        if self.users_tab.modal.is_some() {
            self.handle_user_modal_key(key);
            return;
        }
        if self.users_tab.connection_dropdown_open {
            self.handle_connection_dropdown_key(key);
            return;
        }
        let n: usize = self.users_tab.rows.len();
        let any = self.cfg.connections.len() > 0;
        let on_table = self.users_tab.field == UsersField::Table && n > 0;
        match key {
            KeyCode::Tab => self.users_tab.next_field(),
            KeyCode::BackTab => self.users_tab.prev_field(),
            KeyCode::Up => if on_table {
                self.users_tab.selected_row = cycle::step(self.users_tab.selected_row, true, n);
            } else {
                self.users_tab.prev_field();
            },
            KeyCode::Down => if on_table {
                self.users_tab.selected_row = cycle::step(self.users_tab.selected_row, false, n);
            } else {
                self.users_tab.next_field();
            },
            KeyCode::Enter => if on_table {
                let idx: usize = self.users_tab.selected_row;
                self.users_tab.edit_user(idx);
            } else {
                match self.users_tab.field {
                    UsersField::Connection => self.users_tab.open_dropdown(any),
                    UsersField::BtnConnect => self.trigger_fetch_users(),
                    UsersField::BtnAddUser => self.open_add_user(),
                    UsersField::Table => self.users_tab.next_field(),
                }
            },
            KeyCode::Char(_) => if self.users_tab.field == UsersField::Connection {
                self.users_tab.connection_input.edit(key);
                self.users_tab.open_dropdown(any);
            },
            _ => if self.users_tab.field == UsersField::Connection {
                self.users_tab.connection_input.edit(key);
            },
        }
    }

    fn open_add_user(&mut self)
        ensures
            final(self)@ == old(self)@.add_user(),
    {
        if self.typed_connection().is_none() {
            self.error("Select a valid connection first (use the dropdown)");
        } else {
            self.users_tab.modal = Some(UserModal::Add(AddUserModal::new()));
        }
    }

    pub fn handle_connection_dropdown_key(&mut self, key: KeyCode)
        ensures
            final(self)@ == old(self)@.on_dropdown_key(key),
    {
        proof {
            reveal(ClickHouseScreenModel::on_dropdown_key);
        }
        let typed = self.users_tab.connection_input.value();
        let found = filtered_connections(&self.cfg, typed.as_str());
        match key {
            KeyCode::Esc => self.users_tab.connection_dropdown_open = false,
            KeyCode::Tab => {
                self.users_tab.connection_dropdown_open = false;
                self.users_tab.next_field();
            },
            KeyCode::BackTab => {
                self.users_tab.connection_dropdown_open = false;
                self.users_tab.prev_field();
            },
            KeyCode::Up => {
                self.users_tab.connection_idx = cycle::step(self.users_tab.connection_idx, true, found.len());
            },
            KeyCode::Down => {
                self.users_tab.connection_idx = cycle::step(self.users_tab.connection_idx, false, found.len());
            },
            KeyCode::Enter => {
                let i: usize = self.users_tab.connection_idx;
                self.users_tab.connection_dropdown_open = false;
                if i < found.len() {
                    assert(found.deep_view()[i as int] == found@[i as int]@);
                    self.users_tab.connection_input = Input::new(found[i].as_str());
                    self.trigger_fetch_users();
                }
            },
            KeyCode::Char(_) | KeyCode::Backspace => {
                self.users_tab.connection_input.edit(key);
                self.users_tab.connection_idx = 0;
            },
            _ => self.users_tab.connection_input.edit(key),
        }
    }

    pub fn trigger_fetch_users(&mut self)
        ensures
            final(self)@ == old(self)@.fetch_users(),
    {
        match self.typed_connection() {
            Some(conn) => self.ask(Request::ListUsers(conn)),
            None => self.error("Select a valid connection (use the dropdown)"),
        }
    }

    fn handle_user_modal_key(&mut self, key: KeyCode)
        requires
            old(self)@.users_tab.modal is Some,
        ensures
            final(self)@ == old(self)@.on_users_key(key),
            final(self)@.connections_tab == old(self)@.connections_tab,
            final(self)@.tag_modes == old(self)@.tag_modes,
    {
        proof {
            reveal(ClickHouseScreenModel::on_users_key);
        }
        match self.users_tab.modal.take() {
            Some(UserModal::Add(m)) => {
                self.handle_add_user_modal_key(m, key);
            },
            Some(UserModal::Edit(m)) => {
                self.handle_edit_user_modal_key(m, key);
            },
            None => {},
        }
    }

    /// A key while the modal `m` is open; the modal stays in its place unless
    /// the key closes it.
    pub fn handle_add_user_modal_key(&mut self, m: AddUserModal, key: KeyCode)
        requires
            old(self)@.users_tab.modal is None,
        ensures
            final(self)@ == old(self)@.with_add(m@).on_add_key(m@, key),
            final(self)@.connections_tab == old(self)@.connections_tab,
            final(self)@.tag_modes == old(self)@.tag_modes,
    {
        proof {
            reveal(ClickHouseScreenModel::on_add_key);
        }
        if key == KeyCode::Esc {
            return;
        }
        if key == KeyCode::Enter {
            match m.field {
                AddField::BtnCreate => {
                    self.create_user(m);
                    return;
                },
                AddField::BtnCancel => {
                    return;
                },
                AddField::BtnGenerate => {
                    self.users_tab.modal = Some(UserModal::Add(m));
                    self.ask(Request::GeneratePassword);
                    return;
                },
                _ => {},
            }
        }
        let mut m = m;
        m.plain_key(key);
        self.users_tab.modal = Some(UserModal::Add(m));
    }

    fn create_user(&mut self, m: AddUserModal)
        requires
            old(self)@.users_tab.modal is None,
        ensures
            final(self)@ == old(self)@.with_add(m@).create_user(m@),
    {
        let username = m.username.trimmed();
        if username.as_str().is_empty() {
            self.users_tab.modal = Some(UserModal::Add(m));
            self.error("Username is required");
            return;
        }
        match self.typed_connection() {
            None => {
                self.users_tab.modal = Some(UserModal::Add(m));
                self.error("Select a valid connection");
            },
            Some(conn) => {
                let profile = text::owned(profile_str(m.profile_is_default));
                let raw = m.ips.value();
                let ips = parse_ips(raw.as_str());
                let password = m.password.value();
                self.ask(Request::CreateUser { conn, username, profile, ips, password });
            },
        }
    }

    /// A key while the modal `m` is open; the modal stays in its place unless
    /// the key closes it.
    pub fn handle_edit_user_modal_key(&mut self, m: EditUserModal, key: KeyCode)
        requires
            old(self)@.users_tab.modal is None,
        ensures
            final(self)@ == old(self)@.with_edit(m@).on_edit_key(m@, key),
            final(self)@.connections_tab == old(self)@.connections_tab,
            final(self)@.tag_modes == old(self)@.tag_modes,
    {
        proof {
            reveal(ClickHouseScreenModel::on_edit_key);
        }
        if key == KeyCode::Esc {
            return;
        }
        if key == KeyCode::Enter {
            match m.field {
                EditField::BtnSave => {
                    match self.typed_connection() {
                        None => {
                            self.users_tab.modal = Some(UserModal::Edit(m));
                            self.error("Select a valid connection");
                        },
                        Some(conn) => {
                            let profile = text::owned(profile_str(m.profile_is_default));
                            let raw = m.ips.value();
                            let ips = parse_ips(raw.as_str());
                            let password = m.password.value();
                            self.ask(Request::UpdateUser { conn, username: m.username, profile, ips, password });
                        },
                    }
                    return;
                },
                EditField::BtnDelete => {
                    match self.typed_connection() {
                        None => {
                            self.users_tab.modal = Some(UserModal::Edit(m));
                            self.error("Select a valid connection");
                        },
                        Some(conn) => self.ask(Request::DeleteUser { conn, username: m.username }),
                    }
                    return;
                },
                EditField::BtnCancel => {
                    return;
                },
                _ => {},
            }
        }
        let mut m = m;
        m.plain_key(key);
        self.users_tab.modal = Some(UserModal::Edit(m));
    }

    // --------------------------------------------------------------- mouse

    /// The rectangles that the screen is drawn into.
    pub fn layout(&self, area: Rect) -> (l: ClickHouseLayout)
        ensures
            l@.of(area, self@.connections_tab.mode_is_sql, self@.connections_tab.use_tunnel),
            l@.complete(self@.connections_tab.mode_is_sql, self@.connections_tab.use_tunnel),
    {
        let cs = vec![Constraint::Length(1), Constraint::Min(0)];
        assert(cs@ =~= screen_rows());
        let screen = split_rows(area, 0, &cs);
        let (lines, height) = conn_form_constraints(
            self.connections_tab.mode_is_sql,
            self.connections_tab.use_tunnel,
        );
        let cs = vec![Constraint::Min(0), Constraint::Length(height), Constraint::Length(6)];
        assert(cs@ =~= conn_rows(height as int));
        let conn = split_rows(screen[1], 0, &cs);
        let form = split_rows(mouse::block_inner(conn[1]), 1, &lines);
        let cs = vec![Constraint::Length(5), Constraint::Min(6), Constraint::Length(6), Constraint::Length(7)];
        assert(cs@ =~= users_rows());
        let users = split_rows(screen[1], 0, &cs);
        let two = vec![Constraint::Length(1), Constraint::Length(1)];
        assert(two@ =~= two_lines());
        let top = split_rows(mouse::block_inner(users[0]), 1, &two);
        let action = split_rows(mouse::block_inner(users[2]), 1, &two);
        let hosts = HostPicker::rows(screen[1]);
        let keys = FilePicker::rows(screen[1]);
        let l = ClickHouseLayout { screen, conn, form, users, top, action, hosts, keys };
        l
    }

    /// A mouse event on a screen drawn into the rectangles of [`Self::layout`].
    pub fn handle_mouse(&mut self, me: MouseEvent, area: Rect)
        requires
            old(self)@.wf(),
        ensures
            exists|l: ClickHouseLayoutModel| #[trigger]
                l.of(area, old(self)@.connections_tab.mode_is_sql, old(self)@.connections_tab.use_tunnel)
                    && final(self)@ == old(self)@.on_mouse(me, l),
            final(self)@.wf(),
    {
        let l = self.layout(area);
        self.mouse_on(me, &l);
    }

    /// A mouse event on a screen drawn into these rectangles.
    pub fn mouse_on(&mut self, me: MouseEvent, l: &ClickHouseLayout)
        requires
            old(self)@.wf(),
            l@.complete(old(self)@.connections_tab.mode_is_sql, old(self)@.connections_tab.use_tunnel),
        ensures
            final(self)@ == old(self)@.on_mouse(me, l@),
            final(self)@.wf(),
    {
        if self.log.alert.is_some() {
            if mouse::left_click(&me).is_some() {
                self.log.dismiss();
            }
            return;
        }
        if self.users_tab.modal.is_some() {
            return;
        }
        if let Some((x, y)) = mouse::left_click(&me) {
            let labels = ["F1 Connections", "F2 Users"];
            assert(labels.deep_view() =~= tab_labels());
            if let Some(i) = mouse::label_row_hit(x, y, l.screen[0], &labels) {
                self.tab = if i == 0 {
                    Tab::Connections
                } else {
                    Tab::Users
                };
                return;
            }
        }
        match self.tab {
            Tab::Connections => self.handle_connections_mouse(me, l),
            Tab::Users => self.handle_users_mouse(me, l),
        }
    }

    pub fn handle_connections_mouse(&mut self, me: MouseEvent, l: &ClickHouseLayout)
        requires
            old(self)@.wf(),
            l@.complete(old(self)@.connections_tab.mode_is_sql, old(self)@.connections_tab.use_tunnel),
        ensures
            final(self)@ == old(self)@.on_connections_mouse(me, l@),
            final(self)@.wf(),
    {
        proof {
            reveal(ClickHouseScreenModel::on_connections_mouse);
        }
        if let Some(p) = &mut self.connections_tab.host_picker {
            let step = p.handle_mouse(&me, l.hosts[2]);
            self.step_host_picker(step);
            return;
        }
        if let Some(p) = &mut self.connections_tab.key_picker {
            let step = p.handle_mouse(&me, l.keys[0]);
            self.step_key_picker(step);
            return;
        }
        if let Some(delta) = mouse::scroll_delta(&me) {
            let n: usize = self.cfg.connections.len();
            if n > 0 && mouse::in_rect(l.conn[0], me.column, me.row) {
                self.connections_tab.table_idx = cycle::step(self.connections_tab.table_idx, delta < 0, n);
            } else if mouse::in_rect(l.conn[2], me.column, me.row) {
                self.log.scroll_by(delta < 0);
            }
            return;
        }
        if let Some((x, y)) = mouse::left_click(&me) {
            self.click_connections(x, y, l);
        }
    }

    fn click_connections(&mut self, x: u16, y: u16, l: &ClickHouseLayout)
        requires
            old(self)@.wf(),
            l@.complete(old(self)@.connections_tab.mode_is_sql, old(self)@.connections_tab.use_tunnel),
        ensures
            final(self)@ == old(self)@.click_connections(x, y, l@),
            final(self)@.wf(),
    {
        proof {
            reveal(ClickHouseScreenModel::click_connections);
        }
        let n: usize = self.cfg.connections.len();
        if let Some(i) = mouse::table_row_hit(x, y, l.conn[0], 1, n, self.connections_tab.table_idx) {
            self.connections_tab.table_idx = i;
            self.load(i);
            return;
        }
        let rows = conn_form_rows(self.connections_tab.mode_is_sql, self.connections_tab.use_tunnel);
        let labels = ["Save", "New", "Delete", "Test Connection"];
        assert(labels.deep_view() =~= conn_buttons());
        if let Some(i) = mouse::button_row_hit(x, y, l.form[rows.len() - 3], &labels) {
            if i == 0 {
                self.trigger_save_connection();
            } else if i == 1 {
                self.connections_tab.clear_form();
            } else if i == 2 {
                self.trigger_delete_connection();
            } else {
                self.trigger_test_connection();
            }
            return;
        }
        if let Some(f) = field_row_hit(&l.form, &rows, x, y) {
            if f == ConnField::SshHost {
                self.ask(Request::ListHosts);
            } else {
                self.connections_tab.field = f;
                let n_tags: usize = self.tag_modes.len();
                self.connections_tab.switch(false, n_tags);
            }
        }
    }

    pub fn handle_users_mouse(&mut self, me: MouseEvent, l: &ClickHouseLayout)
        requires
            l@.complete(old(self)@.connections_tab.mode_is_sql, old(self)@.connections_tab.use_tunnel),
        ensures
            final(self)@ == old(self)@.on_users_mouse(me, l@),
            final(self)@.connections_tab == old(self)@.connections_tab,
            final(self)@.tag_modes == old(self)@.tag_modes,
    {
        proof {
            reveal(ClickHouseScreenModel::on_users_mouse);
            reveal(ClickHouseScreenModel::click_users);
        }
        if self.users_tab.connection_dropdown_open {
            self.users_tab.connection_dropdown_open = false;
            return;
        }
        let n: usize = self.users_tab.rows.len();
        if let Some(delta) = mouse::scroll_delta(&me) {
            if n > 0 && mouse::in_rect(l.users[1], me.column, me.row) {
                self.users_tab.selected_row = cycle::step(self.users_tab.selected_row, delta < 0, n);
            } else if mouse::in_rect(l.users[3], me.column, me.row) {
                self.log.scroll_by(delta < 0);
            }
            return;
        }
        let Some((x, y)) = mouse::left_click(&me) else {
            return;
        };
        if mouse::in_rect(l.top[0], x, y) {
            self.users_tab.field = UsersField::Connection;
            let any = self.cfg.connections.len() > 0;
            self.users_tab.open_dropdown(any);
            return;
        }
        let labels = ["Connect / Refresh"];
        assert(labels.deep_view() =~= seq!["Connect / Refresh"@]);
        if mouse::button_row_hit(x, y, l.top[1], &labels).is_some() {
            self.trigger_fetch_users();
            return;
        }
        if let Some(i) = mouse::table_row_hit(x, y, l.users[1], 1, n, self.users_tab.selected_row) {
            self.users_tab.selected_row = i;
            self.users_tab.edit_user(i);
            return;
        }
        let labels = ["Add User"];
        assert(labels.deep_view() =~= seq!["Add User"@]);
        if mouse::button_row_hit(x, y, l.action[0], &labels).is_some() {
            self.open_add_user();
        }
    }
}

} // verus!
