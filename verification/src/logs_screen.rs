//! Logs & Journals reader: pick an SSH profile or a known host, and read its
//! systemd journal or a file, with severity filter and text search.
//!
//! The screen does no input or output of its own. What has to be done outside
//! is queued in `requests`; what came of it is handed to [`LogsScreen::tick`].
use vstd::prelude::*;

use crate::cycle::{next_of, prev_of, Field};
use crate::cycle;
use crate::event::{KeyCode, KeyEvent, MouseEvent};
use crate::file_picker::{Activation, ActivationModel, FilePicker, FilePickerModel, Listing, ListingModel};
use crate::file_picker;
use crate::form::{field_row_hit, line_constraints, Row};
use crate::form;
use crate::geometry::{split_rows, Constraint, Rect};
use crate::geometry;
use crate::host_picker::{HostPicker, HostPickerModel, PickerStep};
use crate::host_picker;
use crate::log::{is_closing, is_history_scroll, Log, LogModel};
use crate::log;
use crate::model::{append_to, Copyable};
use crate::mouse;
use crate::servers::{Server, ServerModel};
use crate::text;
use crate::widgets::{Input, InputModel};

verus! {

// ---------------------------------------------------------------- profiles

/// A saved SSH profile, without its password.
pub struct Connection {
    pub id: String,
    pub label: String,
    pub host: String,
    pub ssh_port: String,
    pub ssh_user: String,
    pub ssh_key_path: String,
}

pub struct ConnectionModel {
    pub id: Seq<char>,
    pub label: Seq<char>,
    pub host: Seq<char>,
    pub ssh_port: Seq<char>,
    pub ssh_user: Seq<char>,
    pub ssh_key_path: Seq<char>,
}

impl View for Connection {
    type V = ConnectionModel;

    open spec fn view(&self) -> ConnectionModel {
        ConnectionModel {
            id: self.id@,
            label: self.label@,
            host: self.host@,
            ssh_port: self.ssh_port@,
            ssh_user: self.ssh_user@,
            ssh_key_path: self.ssh_key_path@,
        }
    }
}

impl DeepView for Connection {
    type V = ConnectionModel;

    open spec fn deep_view(&self) -> ConnectionModel {
        self@
    }
}

impl Copyable for Connection {
    fn copy(&self) -> (r: Self) {
        Connection {
            id: self.id.clone(),
            label: self.label.clone(),
            host: self.host.clone(),
            ssh_port: self.ssh_port.clone(),
            ssh_user: self.ssh_user.clone(),
            ssh_key_path: self.ssh_key_path.clone(),
        }
    }
}

/// An SSH profile with its password in the clear.
pub struct ConnectionWithSecrets {
    pub id: String,
    pub label: String,
    pub host: String,
    pub ssh_port: String,
    pub ssh_user: String,
    pub ssh_key_path: String,
    pub ssh_password: String,
}

pub struct ConnectionWithSecretsModel {
    pub id: Seq<char>,
    pub label: Seq<char>,
    pub host: Seq<char>,
    pub ssh_port: Seq<char>,
    pub ssh_user: Seq<char>,
    pub ssh_key_path: Seq<char>,
    pub ssh_password: Seq<char>,
}

impl View for ConnectionWithSecrets {
    type V = ConnectionWithSecretsModel;

    open spec fn view(&self) -> ConnectionWithSecretsModel {
        ConnectionWithSecretsModel {
            id: self.id@,
            label: self.label@,
            host: self.host@,
            ssh_port: self.ssh_port@,
            ssh_user: self.ssh_user@,
            ssh_key_path: self.ssh_key_path@,
            ssh_password: self.ssh_password@,
        }
    }
}

impl DeepView for ConnectionWithSecrets {
    type V = ConnectionWithSecretsModel;

    open spec fn deep_view(&self) -> ConnectionWithSecretsModel {
        self@
    }
}

impl Copyable for ConnectionWithSecrets {
    fn copy(&self) -> (r: Self) {
        ConnectionWithSecrets {
            id: self.id.clone(),
            label: self.label.clone(),
            host: self.host.clone(),
            ssh_port: self.ssh_port.clone(),
            ssh_user: self.ssh_user.clone(),
            ssh_key_path: self.ssh_key_path.clone(),
            ssh_password: self.ssh_password.clone(),
        }
    }
}

/// What the form says of a profile. An empty password keeps the saved one.
pub struct ConnectionInput {
    pub label: String,
    pub host: String,
    pub ssh_port: String,
    pub ssh_user: String,
    pub ssh_key_path: String,
    pub ssh_password: String,
}

pub struct ConnectionInputModel {
    pub label: Seq<char>,
    pub host: Seq<char>,
    pub ssh_port: Seq<char>,
    pub ssh_user: Seq<char>,
    pub ssh_key_path: Seq<char>,
    pub ssh_password: Seq<char>,
}

impl View for ConnectionInput {
    type V = ConnectionInputModel;

    open spec fn view(&self) -> ConnectionInputModel {
        ConnectionInputModel {
            label: self.label@,
            host: self.host@,
            ssh_port: self.ssh_port@,
            ssh_user: self.ssh_user@,
            ssh_key_path: self.ssh_key_path@,
            ssh_password: self.ssh_password@,
        }
    }
}

impl DeepView for ConnectionInput {
    type V = ConnectionInputModel;

    open spec fn deep_view(&self) -> ConnectionInputModel {
        self@
    }
}

impl Copyable for ConnectionInput {
    fn copy(&self) -> (r: Self) {
        ConnectionInput {
            label: self.label.clone(),
            host: self.host.clone(),
            ssh_port: self.ssh_port.clone(),
            ssh_user: self.ssh_user.clone(),
            ssh_key_path: self.ssh_key_path.clone(),
            ssh_password: self.ssh_password.clone(),
        }
    }
}

/// The saved profiles, and those whose passwords could be opened.
pub struct Config {
    pub connections: Vec<Connection>,
    pub opened: Vec<ConnectionWithSecrets>,
}

pub struct ConfigModel {
    pub connections: Seq<ConnectionModel>,
    pub opened: Seq<ConnectionWithSecretsModel>,
}

impl View for Config {
    type V = ConfigModel;

    open spec fn view(&self) -> ConfigModel {
        ConfigModel {
            connections: self.connections.deep_view(),
            opened: self.opened.deep_view(),
        }
    }
}

impl DeepView for Config {
    type V = ConfigModel;

    open spec fn deep_view(&self) -> ConfigModel {
        self@
    }
}

impl Copyable for Config {
    fn copy(&self) -> (r: Self) {
        Config {
            connections: self.connections.copy(),
            opened: self.opened.copy(),
        }
    }
}

/// A name in a directory of the server.
pub struct RemoteEntry {
    pub name: String,
    pub is_dir: bool,
}

pub struct RemoteEntryModel {
    pub name: Seq<char>,
    pub is_dir: bool,
}

impl View for RemoteEntry {
    type V = RemoteEntryModel;

    open spec fn view(&self) -> RemoteEntryModel {
        RemoteEntryModel {
            name: self.name@,
            is_dir: self.is_dir,
        }
    }
}

impl DeepView for RemoteEntry {
    type V = RemoteEntryModel;

    open spec fn deep_view(&self) -> RemoteEntryModel {
        self@
    }
}

impl Copyable for RemoteEntry {
    fn copy(&self) -> (r: Self) {
        RemoteEntry {
            name: self.name.clone(),
            is_dir: self.is_dir,
        }
    }
}

/// The rows of the browser on a directory: the way up first, but at the root,
/// then every entry that was listed.
pub open spec fn browser_rows(path: Seq<char>, listed: Seq<RemoteEntryModel>) -> Seq<RemoteEntryModel> {
    let up = if path == "/"@ {
        Seq::empty()
    } else {
        seq![RemoteEntryModel { name: ".."@, is_dir: true }]
    };
    up + listed.filter(|e: RemoteEntryModel| e.name != ".."@)
}

/// The rows of the browser on a directory.
pub fn rows_of_listing(path: &str, listed: &Vec<RemoteEntry>) -> (r: Vec<RemoteEntry>)
    ensures
        r.deep_view() == browser_rows(path@, listed.deep_view()),
{
    let ghost keep = |e: RemoteEntryModel| e.name != ".."@;
    let ghost all = listed.deep_view();
    let mut r: Vec<RemoteEntry> = Vec::new();
    if !text::same(path, "/") {
        append_to(&mut r, RemoteEntry { name: text::owned(".."), is_dir: true });
    }
    let ghost up = r.deep_view();
    let mut i: usize = 0;
    proof {
        reveal(Seq::filter);
        assert(all.take(0) =~= Seq::empty());
        assert(up =~= up + Seq::<RemoteEntryModel>::empty().filter(keep));
    }
    while i < listed.len()
        invariant
            i <= listed@.len(),
            all == listed.deep_view(),
            keep == (|e: RemoteEntryModel| e.name != ".."@),
            r.deep_view() == up + all.take(i as int).filter(keep),
        decreases listed@.len() - i,
    {
        proof {
            reveal(Seq::filter);
            assert(all.take(i + 1).drop_last() =~= all.take(i as int));
            assert(all.take(i + 1).last() == listed@[i as int]@);
        }
        if !text::same(listed[i].name.as_str(), "..") {
            append_to(&mut r, listed[i].copy());
        }
        i = i + 1;
        assert(r.deep_view() =~= up + all.take(i as int).filter(keep));
    }
    assert(all.take(all.len() as int) =~= all);
    assert(up =~= if path@ == "/"@ {
        Seq::empty()
    } else {
        seq![RemoteEntryModel { name: ".."@, is_dir: true }]
    });
    r
}

/// What to read: the journal, or the file at `path`.
pub struct FetchParams {
    pub journal: bool,
    pub unit: String,
    pub since: String,
    pub path: String,
    pub priority: usize,
    pub search: String,
    pub lines: u32,
}

pub struct FetchParamsModel {
    pub journal: bool,
    pub unit: Seq<char>,
    pub since: Seq<char>,
    pub path: Seq<char>,
    pub priority: int,
    pub search: Seq<char>,
    pub lines: u32,
}

impl View for FetchParams {
    type V = FetchParamsModel;

    open spec fn view(&self) -> FetchParamsModel {
        FetchParamsModel {
            journal: self.journal,
            unit: self.unit@,
            since: self.since@,
            path: self.path@,
            priority: self.priority as int,
            search: self.search@,
            lines: self.lines,
        }
    }
}

impl DeepView for FetchParams {
    type V = FetchParamsModel;

    open spec fn deep_view(&self) -> FetchParamsModel {
        self@
    }
}

impl Copyable for FetchParams {
    fn copy(&self) -> (r: Self) {
        FetchParams {
            journal: self.journal,
            unit: self.unit.clone(),
            since: self.since.clone(),
            path: self.path.clone(),
            priority: self.priority,
            search: self.search.clone(),
            lines: self.lines,
        }
    }
}

/// The first profile of that label.
pub open spec fn by_label(s: Seq<ConnectionModel>, label: Seq<char>) -> Option<ConnectionModel>
    decreases s.len(),
{
    if s.len() == 0 {
        None
    } else if s[0].label == label {
        Some(s[0])
    } else {
        by_label(s.drop_first(), label)
    }
}

/// The first opened profile of that id.
pub open spec fn by_id(s: Seq<ConnectionWithSecretsModel>, id: Seq<char>) -> Option<ConnectionWithSecretsModel>
    decreases s.len(),
{
    if s.len() == 0 {
        None
    } else if s[0].id == id {
        Some(s[0])
    } else {
        by_id(s.drop_first(), id)
    }
}

/// The first known host of that alias.
pub open spec fn by_alias(s: Seq<ServerModel>, alias: Seq<char>) -> Option<ServerModel>
    decreases s.len(),
{
    if s.len() == 0 {
        None
    } else if s[0].alias == alias {
        Some(s[0])
    } else {
        by_alias(s.drop_first(), alias)
    }
}

/// Whether a saved profile leads to that host.
pub open spec fn covered(s: Seq<ConnectionModel>, host: Seq<char>) -> bool {
    exists|i: int| 0 <= i < s.len() && (#[trigger] s[i]).host == host
}

/// Whether one of the pairs has that label.
pub open spec fn has_label(s: Seq<(Seq<char>, Seq<char>)>, label: Seq<char>) -> bool {
    exists|i: int| 0 <= i < s.len() && (#[trigger] s[i]).0 == label
}

impl ServerModel {
    /// The port to connect to: 22 where none is set.
    pub open spec fn ssh_port(self) -> Seq<char> {
        if self.port == 0 {
            "22"@
        } else {
            text::decimal(self.port as nat)
        }
    }

    /// The host as a profile that was never saved. It has no password.
    pub open spec fn as_connection(self) -> ConnectionWithSecretsModel {
        ConnectionWithSecretsModel {
            id: Seq::empty(),
            label: self.alias,
            host: self.effective_host(),
            ssh_port: self.ssh_port(),
            ssh_user: self.user,
            ssh_key_path: if self.identity_files.len() > 0 {
                self.identity_files[0]
            } else {
                Seq::empty()
            },
            ssh_password: Seq::empty(),
        }
    }
}

/// The known hosts that no saved profile leads to.
pub open spec fn extras(conns: Seq<ConnectionModel>, hosts: Seq<ServerModel>) -> Seq<ServerModel> {
    hosts.filter(|s: ServerModel| !covered(conns, s.effective_host()))
}

/// Labels with their hosts: the saved profiles, then the known hosts that are
/// not covered by one and whose alias is not taken yet.
pub open spec fn merged(conns: Seq<ConnectionModel>, hosts: Seq<ServerModel>) -> Seq<(Seq<char>, Seq<char>)>
    decreases hosts.len(),
{
    if hosts.len() == 0 {
        Seq::new(conns.len(), |i: int| (conns[i].label, conns[i].host))
    } else {
        let front = merged(conns, hosts.drop_last());
        let s = hosts.last();
        if covered(conns, s.effective_host()) || has_label(front, s.alias) {
            front
        } else {
            front.push((s.alias, s.effective_host()))
        }
    }
}

/// The labels of the pairs whose label or host contains a query in lower case.
pub open spec fn labels_matching(s: Seq<(Seq<char>, Seq<char>)>, q: Seq<char>) -> Seq<Seq<char>>
    decreases s.len(),
{
    if s.len() == 0 {
        Seq::empty()
    } else {
        let front = labels_matching(s.drop_last(), q);
        if q.len() == 0 || text::occurs(text::lowercase(s.last().0), q) || text::occurs(
            text::lowercase(s.last().1),
            q,
        ) {
            front.push(s.last().0)
        } else {
            front
        }
    }
}

impl ConfigModel {
    pub open spec fn with_secrets(self, id: Seq<char>) -> Option<ConnectionWithSecretsModel> {
        by_id(self.opened, id)
    }

    pub open spec fn get(self, i: int) -> Option<ConnectionModel> {
        if 0 <= i < self.connections.len() {
            Some(self.connections[i])
        } else {
            None
        }
    }

    /// The labels that match what was typed, of profiles and known hosts.
    pub open spec fn filtered(self, hosts: Seq<ServerModel>, query: Seq<char>) -> Seq<Seq<char>> {
        labels_matching(merged(self.connections, hosts), text::lowercase(query))
    }
}

/// The port to connect to: 22 where none is set.
pub fn server_port(s: &Server) -> (r: String)
    ensures
        r@ == s@.ssh_port(),
{
    if s.port == 0 {
        text::owned("22")
    } else {
        text::number(s.port as u64)
    }
}

/// The host as a profile that was never saved.
fn as_connection(s: &Server) -> (r: ConnectionWithSecrets)
    ensures
        r@ == s@.as_connection(),
{
    let key = if s.identity_files.len() > 0 {
        assert(s@.identity_files[0] == s.identity_files@[0]@);
        s.identity_files[0].clone()
    } else {
        String::new()
    };
    ConnectionWithSecrets {
        id: String::new(),
        label: s.alias.clone(),
        host: text::owned(s.effective_host()),
        ssh_port: server_port(s),
        ssh_user: s.user.clone(),
        ssh_key_path: key,
        ssh_password: String::new(),
    }
}

impl Config {
    pub fn with_secrets(&self, id: &str) -> (r: Option<ConnectionWithSecrets>)
        ensures
            r.deep_view() == self@.with_secrets(id@),
    {
        let ghost s = self.opened.deep_view();
        let mut i: usize = 0;
        assert(s.skip(0) =~= s);
        while i < self.opened.len()
            invariant
                i <= self.opened@.len(),
                s == self.opened.deep_view(),
                by_id(s, id@) == by_id(s.skip(i as int), id@),
            decreases self.opened@.len() - i,
        {
            assert(s.skip(i as int)[0] == self.opened@[i as int]@);
            if text::same(self.opened[i].id.as_str(), id) {
                return Some(self.opened[i].copy());
            }
            assert(s.skip(i as int).drop_first() =~= s.skip(i + 1));
            i = i + 1;
        }
        None
    }

    fn find_label(&self, label: &str) -> (r: Option<&Connection>)
        ensures
            match r {
                Some(c) => by_label(self@.connections, label@) == Some(c@),
                None => by_label(self@.connections, label@) is None,
            },
    {
        let ghost s = self.connections.deep_view();
        let mut i: usize = 0;
        assert(s.skip(0) =~= s);
        while i < self.connections.len()
            invariant
                i <= self.connections@.len(),
                s == self.connections.deep_view(),
                by_label(s, label@) == by_label(s.skip(i as int), label@),
            decreases self.connections@.len() - i,
        {
            assert(s.skip(i as int)[0] == self.connections@[i as int]@);
            if text::same(self.connections[i].label.as_str(), label) {
                return Some(&self.connections[i]);
            }
            assert(s.skip(i as int).drop_first() =~= s.skip(i + 1));
            i = i + 1;
        }
        None
    }

    /// The profile at an index, if there is one.
    fn get(&self, i: usize) -> (r: Option<&Connection>)
        ensures
            match r {
                Some(c) => self@.get(i as int) == Some(c@),
                None => self@.get(i as int) is None,
            },
    {
        if i < self.connections.len() {
            assert(self.connections.deep_view()[i as int] == self.connections@[i as int]@);
            Some(&self.connections[i])
        } else {
            None
        }
    }
}

/// The first known host of that alias.
fn find_alias<'a>(hosts: &'a Vec<Server>, alias: &str) -> (r: Option<&'a Server>)
    ensures
        match r {
            Some(s) => by_alias(hosts.deep_view(), alias@) == Some(s@),
            None => by_alias(hosts.deep_view(), alias@) is None,
        },
{
    let ghost s = hosts.deep_view();
    let mut i: usize = 0;
    assert(s.skip(0) =~= s);
    while i < hosts.len()
        invariant
            i <= hosts@.len(),
            s == hosts.deep_view(),
            by_alias(s, alias@) == by_alias(s.skip(i as int), alias@),
        decreases hosts@.len() - i,
    {
        assert(s.skip(i as int)[0] == hosts@[i as int]@);
        if text::same(hosts[i].alias.as_str(), alias) {
            return Some(&hosts[i]);
        }
        assert(s.skip(i as int).drop_first() =~= s.skip(i + 1));
        i = i + 1;
    }
    None
}

/// Whether a saved profile leads to that host.
fn is_covered(conns: &Vec<Connection>, host: &str) -> (r: bool)
    ensures
        r == covered(conns.deep_view(), host@),
{
    let mut i: usize = 0;
    while i < conns.len()
        invariant
            i <= conns@.len(),
            forall|k: int| 0 <= k < i ==> (#[trigger] conns.deep_view()[k]).host != host@,
        decreases conns@.len() - i,
    {
        assert(conns.deep_view()[i as int] == conns@[i as int]@);
        if text::same(conns[i].host.as_str(), host) {
            return true;
        }
        i = i + 1;
    }
    false
}

/// The known hosts that no saved profile leads to. They can be used without
/// being saved first.
pub fn known_ssh_extras<'a>(conns: &Vec<Connection>, hosts: &'a Vec<Server>) -> (r: Vec<&'a Server>)
    ensures
        r.deep_view() == extras(conns.deep_view(), hosts.deep_view()),
{
    let ghost keep = |s: ServerModel| !covered(conns.deep_view(), s.effective_host());
    let ghost all = hosts.deep_view();
    let mut r: Vec<&Server> = Vec::new();
    let mut i: usize = 0;
    proof {
        assert(all.take(0) =~= Seq::empty());
        reveal(Seq::filter);
        assert(r.deep_view() =~= Seq::<ServerModel>::empty().filter(keep));
    }
    while i < hosts.len()
        invariant
            i <= hosts@.len(),
            all == hosts.deep_view(),
            keep == (|s: ServerModel| !covered(conns.deep_view(), s.effective_host())),
            r.deep_view() == all.take(i as int).filter(keep),
        decreases hosts@.len() - i,
    {
        let s = &hosts[i];
        proof {
            reveal(Seq::filter);
            assert(all.take(i + 1).drop_last() =~= all.take(i as int));
            assert(all.take(i + 1).last() == s@);
        }
        if !is_covered(conns, s.effective_host()) {
            append_to(&mut r, s);
        }
        i = i + 1;
    }
    assert(all.take(all.len() as int) =~= all);
    r
}

/// Whether one of the pairs has that label.
fn label_taken(pairs: &Vec<(String, String)>, label: &str) -> (r: bool)
    ensures
        r == has_label(pairs.deep_view(), label@),
{
    let mut i: usize = 0;
    while i < pairs.len()
        invariant
            i <= pairs@.len(),
            forall|k: int| 0 <= k < i ==> (#[trigger] pairs.deep_view()[k]).0 != label@,
        decreases pairs@.len() - i,
    {
        assert(pairs.deep_view()[i as int] == pairs@[i as int].deep_view());
        if text::same(pairs[i].0.as_str(), label) {
            return true;
        }
        i = i + 1;
    }
    false
}

/// Labels with their hosts, of profiles and known hosts.
fn merged_entries(conns: &Vec<Connection>, hosts: &Vec<Server>) -> (r: Vec<(String, String)>)
    ensures
        r.deep_view() == merged(conns.deep_view(), hosts.deep_view()),
{
    let ghost cs = conns.deep_view();
    let ghost hs = hosts.deep_view();
    let mut r: Vec<(String, String)> = Vec::new();
    let mut i: usize = 0;
    while i < conns.len()
        invariant
            i <= conns@.len(),
            cs == conns.deep_view(),
            r.deep_view() =~= Seq::new(i as nat, |k: int| (cs[k].label, cs[k].host)),
        decreases conns@.len() - i,
    {
        assert(cs[i as int] == conns@[i as int]@);
        append_to(&mut r, (conns[i].label.clone(), conns[i].host.clone()));
        i = i + 1;
    }
    assert(hs.take(0) =~= Seq::empty());
    let mut j: usize = 0;
    while j < hosts.len()
        invariant
            j <= hosts@.len(),
            cs == conns.deep_view(),
            hs == hosts.deep_view(),
            r.deep_view() == merged(cs, hs.take(j as int)),
        decreases hosts@.len() - j,
    {
        let s = &hosts[j];
        proof {
            assert(hs.take(j + 1).drop_last() =~= hs.take(j as int));
            assert(hs.take(j + 1).last() == s@);
        }
        if !is_covered(conns, s.effective_host()) && !label_taken(&r, s.alias.as_str()) {
            append_to(&mut r, (s.alias.clone(), text::owned(s.effective_host())));
        }
        j = j + 1;
    }
    assert(hs.take(hs.len() as int) =~= hs);
    r
}

/// Profiles and known hosts in one pick list, matched by label or host.
pub fn filtered_connections(cfg: &Config, hosts: &Vec<Server>, query: &str) -> (r: Vec<String>)
    ensures
        r.deep_view() == cfg@.filtered(hosts.deep_view(), query@),
{
    let q = query.to_lowercase();
    let pairs = merged_entries(&cfg.connections, hosts);
    let ghost s = pairs.deep_view();
    let mut r: Vec<String> = Vec::new();
    let mut i: usize = 0;
    assert(s.take(0) =~= Seq::empty());
    assert(r.deep_view() =~= labels_matching(s.take(0), q@));
    while i < pairs.len()
        invariant
            i <= pairs@.len(),
            s == pairs.deep_view(),
            r.deep_view() == labels_matching(s.take(i as int), q@),
        decreases pairs@.len() - i,
    {
        let p = &pairs[i];
        proof {
            assert(s.take(i + 1).drop_last() =~= s.take(i as int));
            assert(s.take(i + 1).last() == p.deep_view());
        }
        if q.as_str().is_empty() || text::lower_contains(p.0.as_str(), q.as_str())
            || text::lower_contains(p.1.as_str(), q.as_str()) {
            append_to(&mut r, p.0.clone());
        }
        i = i + 1;
    }
    assert(s.take(s.len() as int) =~= s);
    r
}

// --------------------------------------------------------- connections tab

#[derive(Clone, Copy, PartialEq, Eq, Structural, Debug)]
pub enum Tab {
    Connections,
    Viewer,
}

#[derive(Clone, Copy, PartialEq, Eq, Structural, Debug)]
pub enum ConnField {
    Table,
    Label,
    Host,
    SshPort,
    SshUser,
    SshKeyPath,
    SshPassword,
    BtnSave,
    BtnNew,
    BtnDelete,
    BtnTest,
}

impl Field for ConnField {
    fn same(self, other: Self) -> (r: bool) {
        self == other
    }
}

/// The fields that the focus goes through.
pub open spec fn conn_fields() -> Seq<ConnField> {
    seq![
        ConnField::Table,
        ConnField::Label,
        ConnField::Host,
        ConnField::SshPort,
        ConnField::SshUser,
        ConnField::SshKeyPath,
        ConnField::SshPassword,
        ConnField::BtnSave,
        ConnField::BtnNew,
        ConnField::BtnDelete,
        ConnField::BtnTest,
    ]
}

fn conn_field_list() -> (r: Vec<ConnField>)
    ensures
        r@ == conn_fields(),
{
    let r = vec![
        ConnField::Table,
        ConnField::Label,
        ConnField::Host,
        ConnField::SshPort,
        ConnField::SshUser,
        ConnField::SshKeyPath,
        ConnField::SshPassword,
        ConnField::BtnSave,
        ConnField::BtnNew,
        ConnField::BtnDelete,
        ConnField::BtnTest,
    ];
    assert(r@ =~= conn_fields());
    r
}

/// The lines of the form, which is drawn from them and hit-tested by them.
pub open spec fn conn_form() -> Seq<Row<ConnField>> {
    seq![
        Row::Field(ConnField::Label),
        Row::Gap,
        Row::Field(ConnField::Host),
        Row::Gap,
        Row::Field(ConnField::SshPort),
        Row::Gap,
        Row::Field(ConnField::SshUser),
        Row::Gap,
        Row::Field(ConnField::SshKeyPath),
        Row::Hint,
        Row::Gap,
        Row::Field(ConnField::SshPassword),
        Row::Gap,
        Row::Buttons,
        Row::Gap,
        Row::Help,
    ]
}

pub fn conn_form_rows() -> (r: Vec<Row<ConnField>>)
    ensures
        r@ == conn_form(),
{
    let r = vec![
        Row::Field(ConnField::Label),
        Row::Gap,
        Row::Field(ConnField::Host),
        Row::Gap,
        Row::Field(ConnField::SshPort),
        Row::Gap,
        Row::Field(ConnField::SshUser),
        Row::Gap,
        Row::Field(ConnField::SshKeyPath),
        Row::Hint,
        Row::Gap,
        Row::Field(ConnField::SshPassword),
        Row::Gap,
        Row::Buttons,
        Row::Gap,
        Row::Help,
    ];
    assert(r@ =~= conn_form());
    r
}

pub struct ConnectionsTab {
    pub selected: Option<usize>,
    pub table_idx: usize,
    pub label: Input,
    pub host: Input,
    pub ssh_port: Input,
    pub ssh_user: Input,
    pub ssh_key_path: Input,
    pub ssh_password: Input,
    pub field: ConnField,
    pub key_picker: Option<FilePicker>,
    pub host_picker: Option<HostPicker>,
}

pub struct ConnectionsTabModel {
    pub selected: Option<usize>,
    pub table_idx: int,
    pub label: InputModel,
    pub host: InputModel,
    pub ssh_port: InputModel,
    pub ssh_user: InputModel,
    pub ssh_key_path: InputModel,
    pub ssh_password: InputModel,
    pub field: ConnField,
    pub key_picker: Option<FilePickerModel>,
    pub host_picker: Option<HostPickerModel>,
}

impl View for ConnectionsTab {
    type V = ConnectionsTabModel;

    open spec fn view(&self) -> ConnectionsTabModel {
        ConnectionsTabModel {
            selected: self.selected,
            table_idx: self.table_idx as int,
            label: self.label@,
            host: self.host@,
            ssh_port: self.ssh_port@,
            ssh_user: self.ssh_user@,
            ssh_key_path: self.ssh_key_path@,
            ssh_password: self.ssh_password@,
            field: self.field,
            key_picker: self.key_picker.deep_view(),
            host_picker: self.host_picker.deep_view(),
        }
    }
}

impl DeepView for ConnectionsTab {
    type V = ConnectionsTabModel;

    open spec fn deep_view(&self) -> ConnectionsTabModel {
        self@
    }
}

/// What the screen has to do after an event on the connections tab.
pub enum ConnAction {
    Nothing,
    ListHosts,
    BrowseKey(String),
    ReadDir(String),
    Save,
    Delete,
    Test,
    /// Scroll the history, towards older lines or back.
    ScrollHistory(bool),
}

pub enum ConnActionModel {
    Nothing,
    ListHosts,
    BrowseKey(Seq<char>),
    ReadDir(Seq<char>),
    Save,
    Delete,
    Test,
    ScrollHistory(bool),
}

impl View for ConnAction {
    type V = ConnActionModel;

    open spec fn view(&self) -> ConnActionModel {
        match self {
            ConnAction::Nothing => ConnActionModel::Nothing,
            ConnAction::ListHosts => ConnActionModel::ListHosts,
            ConnAction::BrowseKey(a) => ConnActionModel::BrowseKey(a@),
            ConnAction::ReadDir(a) => ConnActionModel::ReadDir(a@),
            ConnAction::Save => ConnActionModel::Save,
            ConnAction::Delete => ConnActionModel::Delete,
            ConnAction::Test => ConnActionModel::Test,
            ConnAction::ScrollHistory(a) => ConnActionModel::ScrollHistory(*a),
        }
    }
}

impl DeepView for ConnAction {
    type V = ConnActionModel;

    open spec fn deep_view(&self) -> ConnActionModel {
        self@
    }
}

impl ConnectionsTabModel {
    pub open spec fn empty() -> ConnectionsTabModel {
        ConnectionsTabModel {
            selected: None,
            table_idx: 0,
            label: InputModel::empty(),
            host: InputModel::empty(),
            ssh_port: InputModel::of("22"@),
            ssh_user: InputModel::empty(),
            ssh_key_path: InputModel::empty(),
            ssh_password: InputModel::empty(),
            field: ConnField::Table,
            key_picker: None,
            host_picker: None,
        }
    }

    pub open spec fn focus(self, field: ConnField) -> ConnectionsTabModel {
        ConnectionsTabModel { field, ..self }
    }

    pub open spec fn next_field(self) -> ConnectionsTabModel {
        self.focus(cycle::after(conn_fields(), self.field))
    }

    pub open spec fn prev_field(self) -> ConnectionsTabModel {
        self.focus(cycle::before(conn_fields(), self.field))
    }

    /// An empty form; the place in the table and the focus stay.
    pub open spec fn cleared(self) -> ConnectionsTabModel {
        ConnectionsTabModel { table_idx: self.table_idx, field: self.field, ..ConnectionsTabModel::empty() }
    }

    /// The form filled from a profile, the password left empty.
    pub open spec fn loaded(self, idx: int, c: ConnectionModel) -> ConnectionsTabModel {
        ConnectionsTabModel {
            selected: Some(idx as usize),
            label: InputModel::of(c.label),
            host: InputModel::of(c.host),
            ssh_port: InputModel::of(c.ssh_port),
            ssh_user: InputModel::of(c.ssh_user),
            ssh_key_path: InputModel::of(c.ssh_key_path),
            ssh_password: InputModel::empty(),
            key_picker: None,
            host_picker: None,
            ..self
        }
    }

    /// The form filled from a known host; what the host does not say stays,
    /// and so does a label that is already there.
    pub open spec fn filled_from(self, s: ServerModel) -> ConnectionsTabModel {
        ConnectionsTabModel {
            label: if self.label.trimmed().len() == 0 {
                InputModel::of(s.alias)
            } else {
                self.label
            },
            host: InputModel::of(s.effective_host()),
            ssh_port: if s.port != 0 {
                InputModel::of(text::decimal(s.port as nat))
            } else {
                self.ssh_port
            },
            ssh_user: if s.user.len() > 0 {
                InputModel::of(s.user)
            } else {
                self.ssh_user
            },
            ssh_key_path: if s.identity_files.len() > 0 {
                InputModel::of(s.identity_files[0])
            } else {
                self.ssh_key_path
            },
            ssh_password: if s.ssh_password.len() > 0 {
                InputModel::of(s.ssh_password)
            } else {
                self.ssh_password
            },
            ..self
        }
    }

    pub open spec fn as_input(self) -> ConnectionInputModel {
        ConnectionInputModel {
            label: self.label.trimmed(),
            host: self.host.trimmed(),
            ssh_port: self.ssh_port.trimmed(),
            ssh_user: self.ssh_user.trimmed(),
            ssh_key_path: self.ssh_key_path.trimmed(),
            ssh_password: self.ssh_password.text,
        }
    }

    /// The focused input edited by a key; nothing where no input has the focus.
    pub open spec fn edit(self, key: KeyCode) -> ConnectionsTabModel {
        match self.field {
            ConnField::Label => ConnectionsTabModel { label: self.label.edit(key), ..self },
            ConnField::Host => ConnectionsTabModel { host: self.host.edit(key), ..self },
            ConnField::SshPort => ConnectionsTabModel { ssh_port: self.ssh_port.edit(key), ..self },
            ConnField::SshUser => ConnectionsTabModel { ssh_user: self.ssh_user.edit(key), ..self },
            ConnField::SshKeyPath => ConnectionsTabModel { ssh_key_path: self.ssh_key_path.edit(key), ..self },
            ConnField::SshPassword => ConnectionsTabModel { ssh_password: self.ssh_password.edit(key), ..self },
            _ => self,
        }
    }

    /// The form filled from a row of the table: a saved profile, or a known
    /// host below them.
    pub open spec fn row_taken(
        self,
        idx: int,
        saved: Seq<ConnectionModel>,
        extra: Seq<ServerModel>,
    ) -> ConnectionsTabModel {
        if 0 <= idx < saved.len() {
            self.loaded(idx, saved[idx])
        } else if 0 <= idx - saved.len() < extra.len() {
            self.cleared().filled_from(extra[idx - saved.len()])
        } else {
            self
        }
    }

    /// After a step of the open key picker.
    pub open spec fn key_step(self, p: FilePickerModel, step: PickerStep) -> (ConnectionsTabModel, ConnActionModel) {
        match step {
            PickerStep::Stay => (ConnectionsTabModel { key_picker: Some(p), ..self }, ConnActionModel::Nothing),
            PickerStep::Close => (ConnectionsTabModel { key_picker: None, ..self }, ConnActionModel::Nothing),
            PickerStep::Pick => match p.activated() {
                ActivationModel::Picked(path) => (
                    ConnectionsTabModel { key_picker: None, ssh_key_path: InputModel::of(path), ..self },
                    ConnActionModel::Nothing,
                ),
                ActivationModel::Open(path) => (
                    ConnectionsTabModel { key_picker: Some(p), ..self },
                    ConnActionModel::ReadDir(path),
                ),
                ActivationModel::Nothing => (
                    ConnectionsTabModel { key_picker: Some(p), ..self },
                    ConnActionModel::Nothing,
                ),
            },
        }
    }

    /// After a step of the open host picker.
    pub open spec fn host_step(self, p: HostPickerModel, step: PickerStep) -> ConnectionsTabModel {
        match step {
            PickerStep::Stay => ConnectionsTabModel { host_picker: Some(p), ..self },
            PickerStep::Close => ConnectionsTabModel { host_picker: None, ..self },
            PickerStep::Pick => match p.picked() {
                Some(s) => ConnectionsTabModel { host_picker: None, ..self.filled_from(s) },
                None => ConnectionsTabModel { host_picker: Some(p), ..self },
            },
        }
    }

    /// Enter on a field: a picker opens, a button acts, and any other field
    /// hands the focus on.
    pub open spec fn entered(self) -> (ConnectionsTabModel, ConnActionModel) {
        match self.field {
            ConnField::Host => (self, ConnActionModel::ListHosts),
            ConnField::SshKeyPath => (self, ConnActionModel::BrowseKey(self.ssh_key_path.text)),
            ConnField::BtnSave => (self, ConnActionModel::Save),
            ConnField::BtnNew => (self.cleared(), ConnActionModel::Nothing),
            ConnField::BtnDelete => (self, ConnActionModel::Delete),
            ConnField::BtnTest => (self, ConnActionModel::Test),
            _ => (self.next_field(), ConnActionModel::Nothing),
        }
    }

    /// After a key. The table spans the saved profiles and the known hosts
    /// below them, so that Up and Down reach every row.
    pub open spec fn on_key(
        self,
        key: KeyCode,
        saved: Seq<ConnectionModel>,
        extra: Seq<ServerModel>,
    ) -> (ConnectionsTabModel, ConnActionModel) {
        let total = row_total(saved.len(), extra.len());
        let on_table = self.field == ConnField::Table && total > 0;
        match (self.key_picker, self.host_picker) {
            (Some(p), _) => self.key_step(p.on_key(key).0, p.on_key(key).1),
            (None, Some(p)) => (self.host_step(p.on_key(key).0, p.on_key(key).1), ConnActionModel::Nothing),
            (None, None) => match key {
                KeyCode::Tab => (self.next_field(), ConnActionModel::Nothing),
                KeyCode::BackTab => (self.prev_field(), ConnActionModel::Nothing),
                KeyCode::Up => (if on_table {
                    ConnectionsTabModel { table_idx: cycle::moved(self.table_idx, true, total), ..self }
                } else {
                    self.prev_field()
                }, ConnActionModel::Nothing),
                KeyCode::Down => (if on_table {
                    ConnectionsTabModel { table_idx: cycle::moved(self.table_idx, false, total), ..self }
                } else {
                    self.next_field()
                }, ConnActionModel::Nothing),
                KeyCode::Enter => if on_table {
                    (self.row_taken(self.table_idx, saved, extra), ConnActionModel::Nothing)
                } else {
                    self.entered()
                },
                _ => (self.edit(key), ConnActionModel::Nothing),
            },
        }
    }

    /// A click on a field of the form: the host and the key open their
    /// pickers, other fields get the focus.
    pub open spec fn field_clicked(self, f: ConnField) -> (ConnectionsTabModel, ConnActionModel) {
        match f {
            ConnField::Host => (self, ConnActionModel::ListHosts),
            ConnField::SshKeyPath => (self, ConnActionModel::BrowseKey(self.ssh_key_path.text)),
            _ => (self.focus(f), ConnActionModel::Nothing),
        }
    }

    pub open spec fn button_clicked(self, i: usize) -> (ConnectionsTabModel, ConnActionModel) {
        if i == 0 {
            (self, ConnActionModel::Save)
        } else if i == 1 {
            (self.cleared(), ConnActionModel::Nothing)
        } else if i == 2 {
            (self, ConnActionModel::Delete)
        } else {
            (self, ConnActionModel::Test)
        }
    }

    pub open spec fn clicked(
        self,
        x: u16,
        y: u16,
        l: LogsLayoutModel,
        saved: Seq<ConnectionModel>,
        extra: Seq<ServerModel>,
    ) -> (ConnectionsTabModel, ConnActionModel) {
        match mouse::table_hit(x, y, l.conn[0], 1, row_total(saved.len(), extra.len()), self.table_idx) {
            Some(i) => (
                ConnectionsTabModel { table_idx: i as int, ..self }.row_taken(i as int, saved, extra),
                ConnActionModel::Nothing,
            ),
            None => match mouse::button_hit(x, y, l.form[13], conn_buttons()) {
                Some(i) => self.button_clicked(i),
                None => match form::field_hit(l.form, conn_form(), x, y) {
                    Some(f) => self.field_clicked(f),
                    None => (self, ConnActionModel::Nothing),
                },
            },
        }
    }

    pub open spec fn wheel(
        self,
        up: bool,
        x: u16,
        y: u16,
        l: LogsLayoutModel,
        total: int,
    ) -> (ConnectionsTabModel, ConnActionModel) {
        if total > 0 && mouse::hits(l.conn[0], x, y) {
            (
                ConnectionsTabModel { table_idx: cycle::moved(self.table_idx, up, total), ..self },
                ConnActionModel::Nothing,
            )
        } else if mouse::hits(l.conn[2], x, y) {
            (self, ConnActionModel::ScrollHistory(up))
        } else {
            (self, ConnActionModel::Nothing)
        }
    }

    /// After a mouse event.
    pub open spec fn on_mouse(
        self,
        me: MouseEvent,
        l: LogsLayoutModel,
        saved: Seq<ConnectionModel>,
        extra: Seq<ServerModel>,
    ) -> (ConnectionsTabModel, ConnActionModel) {
        match (self.host_picker, self.key_picker) {
            (Some(p), _) => (
                self.host_step(p.on_mouse(me, l.hosts[2]).0, p.on_mouse(me, l.hosts[2]).1),
                ConnActionModel::Nothing,
            ),
            (None, Some(p)) => self.key_step(p.on_mouse(me, l.keys[0]).0, p.on_mouse(me, l.keys[0]).1),
            (None, None) => match mouse::scrolled(me) {
                Some(d) => self.wheel(d < 0, me.column, me.row, l, row_total(saved.len(), extra.len())),
                None => match mouse::clicked(me) {
                    Some((x, y)) => self.clicked(x, y, l, saved, extra),
                    None => (self, ConnActionModel::Nothing),
                },
            },
        }
    }
}

impl ConnectionsTab {
    pub fn new() -> (r: ConnectionsTab)
        ensures
            r@ == ConnectionsTabModel::empty(),
    {
        ConnectionsTab {
            selected: None,
            table_idx: 0,
            label: Input::default(),
            host: Input::default(),
            ssh_port: Input::new("22"),
            ssh_user: Input::default(),
            ssh_key_path: Input::default(),
            ssh_password: Input::default(),
            field: ConnField::Table,
            key_picker: None,
            host_picker: None,
        }
    }

    pub fn next_field(&mut self)
        ensures
            final(self)@ == old(self)@.next_field(),
    {
        self.field = next_of(&conn_field_list(), self.field);
    }

    pub fn prev_field(&mut self)
        ensures
            final(self)@ == old(self)@.prev_field(),
    {
        self.field = prev_of(&conn_field_list(), self.field);
    }

    pub fn clear_form(&mut self)
        ensures
            final(self)@ == old(self)@.cleared(),
    {
        self.selected = None;
        self.label = Input::default();
        self.host = Input::default();
        self.ssh_port = Input::new("22");
        self.ssh_user = Input::default();
        self.ssh_key_path = Input::default();
        self.ssh_password = Input::default();
        self.key_picker = None;
        self.host_picker = None;
    }

    pub fn load_from(&mut self, idx: usize, c: &Connection)
        ensures
            final(self)@ == old(self)@.loaded(idx as int, c@),
    {
        self.selected = Some(idx);
        self.label = Input::new(c.label.as_str());
        self.host = Input::new(c.host.as_str());
        self.ssh_port = Input::new(c.ssh_port.as_str());
        self.ssh_user = Input::new(c.ssh_user.as_str());
        self.ssh_key_path = Input::new(c.ssh_key_path.as_str());
        self.ssh_password = Input::default();
        self.key_picker = None;
        self.host_picker = None;
    }

    /// Fills the form from a known host; the label only where it is still empty.
    pub fn fill_from_host(&mut self, server: &Server)
        ensures
            final(self)@ == old(self)@.filled_from(server@),
    {
        let label = self.label.trimmed();
        if label.as_str().is_empty() {
            self.label = Input::new(server.alias.as_str());
        }
        self.host = Input::new(server.effective_host());
        if server.port != 0 {
            let p = text::number(server.port as u64);
            self.ssh_port = Input::new(p.as_str());
        }
        if !server.user.as_str().is_empty() {
            self.ssh_user = Input::new(server.user.as_str());
        }
        if server.identity_files.len() > 0 {
            assert(server@.identity_files[0] == server.identity_files@[0]@);
            self.ssh_key_path = Input::new(server.identity_files[0].as_str());
        }
        if !server.ssh_password.as_str().is_empty() {
            self.ssh_password = Input::new(server.ssh_password.as_str());
        }
    }

    pub fn as_input(&self) -> (r: ConnectionInput)
        ensures
            r@ == self@.as_input(),
    {
        ConnectionInput {
            label: self.label.trimmed(),
            host: self.host.trimmed(),
            ssh_port: self.ssh_port.trimmed(),
            ssh_user: self.ssh_user.trimmed(),
            ssh_key_path: self.ssh_key_path.trimmed(),
            ssh_password: self.ssh_password.value(),
        }
    }

    fn edit(&mut self, key: KeyCode)
        ensures
            final(self)@ == old(self)@.edit(key),
    {
        match self.field {
            ConnField::Label => self.label.edit(key),
            ConnField::Host => self.host.edit(key),
            ConnField::SshPort => self.ssh_port.edit(key),
            ConnField::SshUser => self.ssh_user.edit(key),
            ConnField::SshKeyPath => self.ssh_key_path.edit(key),
            ConnField::SshPassword => self.ssh_password.edit(key),
            _ => {},
        }
    }

    fn take_row(&mut self, idx: usize, saved: &Vec<Connection>, extra: &Vec<&Server>)
        ensures
            final(self)@ == old(self)@.row_taken(idx as int, saved.deep_view(), extra.deep_view()),
    {
        if idx < saved.len() {
            assert(saved.deep_view()[idx as int] == saved@[idx as int]@);
            self.load_from(idx, &saved[idx]);
        } else if idx - saved.len() < extra.len() {
            let i: usize = idx - saved.len();
            assert(extra.deep_view()[i as int] == extra@[i as int]@);
            self.clear_form();
            self.fill_from_host(extra[i]);
        }
    }

    fn step_key_picker(&mut self, step: PickerStep) -> (r: ConnAction)
        requires
            old(self)@.key_picker is Some,
        ensures
            (final(self)@, r@) == old(self)@.key_step(old(self)@.key_picker->0, step),
    {
        match step {
            PickerStep::Stay => {},
            PickerStep::Close => self.key_picker = None,
            PickerStep::Pick => {
                let picked = match &self.key_picker {
                    Some(p) => p.activate(),
                    None => Activation::Nothing,
                };
                match picked {
                    Activation::Picked(path) => {
                        self.ssh_key_path = Input::new(path.as_str());
                        self.key_picker = None;
                    },
                    Activation::Open(path) => return ConnAction::ReadDir(path),
                    Activation::Nothing => {},
                }
            },
        }
        ConnAction::Nothing
    }

    fn step_host_picker(&mut self, step: PickerStep)
        requires
            old(self)@.host_picker is Some,
        ensures
            final(self)@ == old(self)@.host_step(old(self)@.host_picker->0, step),
    {
        match step {
            PickerStep::Stay => {},
            PickerStep::Close => self.host_picker = None,
            PickerStep::Pick => {
                let picked = match &self.host_picker {
                    Some(p) => p.activate(),
                    None => None,
                };
                if let Some(server) = picked {
                    self.fill_from_host(&server);
                    self.host_picker = None;
                }
            },
        }
    }

    fn enter(&mut self) -> (r: ConnAction)
        ensures
            (final(self)@, r@) == old(self)@.entered(),
    {
        match self.field {
            ConnField::Host => return ConnAction::ListHosts,
            ConnField::SshKeyPath => return ConnAction::BrowseKey(self.ssh_key_path.value()),
            ConnField::BtnSave => return ConnAction::Save,
            ConnField::BtnNew => self.clear_form(),
            ConnField::BtnDelete => return ConnAction::Delete,
            ConnField::BtnTest => return ConnAction::Test,
            _ => self.next_field(),
        }
        ConnAction::Nothing
    }

    pub fn handle_key(&mut self, key: KeyCode, saved: &Vec<Connection>, extra: &Vec<&Server>) -> (r: ConnAction)
        ensures
            (final(self)@, r@) == old(self)@.on_key(key, saved.deep_view(), extra.deep_view()),
    {
        if let Some(p) = &mut self.key_picker {
            let step = p.handle_key(key);
            return self.step_key_picker(step);
        }
        if let Some(p) = &mut self.host_picker {
            let step = p.handle_key(key);
            self.step_host_picker(step);
            return ConnAction::Nothing;
        }
        let total: usize = saved.len().saturating_add(extra.len());
        let on_table = self.field == ConnField::Table && total > 0;
        match key {
            KeyCode::Tab => self.next_field(),
            KeyCode::BackTab => self.prev_field(),
            KeyCode::Up => if on_table {
                self.table_idx = cycle::step(self.table_idx, true, total);
            } else {
                self.prev_field();
            },
            KeyCode::Down => if on_table {
                self.table_idx = cycle::step(self.table_idx, false, total);
            } else {
                self.next_field();
            },
            KeyCode::Enter => if on_table {
                let idx: usize = self.table_idx;
                self.take_row(idx, saved, extra);
            } else {
                return self.enter();
            },
            _ => self.edit(key),
        }
        ConnAction::Nothing
    }

    fn click(
        &mut self,
        x: u16,
        y: u16,
        l: &LogsLayout,
        saved: &Vec<Connection>,
        extra: &Vec<&Server>,
    ) -> (r: ConnAction)
        requires
            l@.complete_conn(),
        ensures
            (final(self)@, r@) == old(self)@.clicked(x, y, l@, saved.deep_view(), extra.deep_view()),
    {
        let total: usize = saved.len().saturating_add(extra.len());
        if let Some(i) = mouse::table_row_hit(x, y, l.conn[0], 1, total, self.table_idx) {
            self.table_idx = i;
            self.take_row(i, saved, extra);
            return ConnAction::Nothing;
        }
        let labels = ["Save", "New", "Delete", "Test Connection"];
        assert(labels.deep_view() =~= conn_buttons());
        if let Some(i) = mouse::button_row_hit(x, y, l.form[13], &labels) {
            if i == 0 {
                return ConnAction::Save;
            } else if i == 1 {
                self.clear_form();
                return ConnAction::Nothing;
            } else if i == 2 {
                return ConnAction::Delete;
            } else {
                return ConnAction::Test;
            }
        }
        let rows = conn_form_rows();
        if let Some(f) = field_row_hit(&l.form, &rows, x, y) {
            match f {
                ConnField::Host => return ConnAction::ListHosts,
                ConnField::SshKeyPath => return ConnAction::BrowseKey(self.ssh_key_path.value()),
                _ => self.field = f,
            }
        }
        ConnAction::Nothing
    }

    pub fn handle_mouse(
        &mut self,
        me: &MouseEvent,
        l: &LogsLayout,
        saved: &Vec<Connection>,
        extra: &Vec<&Server>,
    ) -> (r: ConnAction)
        requires
            l@.complete_conn(),
        ensures
            (final(self)@, r@) == old(self)@.on_mouse(*me, l@, saved.deep_view(), extra.deep_view()),
    {
        if let Some(p) = &mut self.host_picker {
            let step = p.handle_mouse(me, l.hosts[2]);
            self.step_host_picker(step);
            return ConnAction::Nothing;
        }
        if let Some(p) = &mut self.key_picker {
            let step = p.handle_mouse(me, l.keys[0]);
            return self.step_key_picker(step);
        }
        let total: usize = saved.len().saturating_add(extra.len());
        if let Some(delta) = mouse::scroll_delta(me) {
            if total > 0 && mouse::in_rect(l.conn[0], me.column, me.row) {
                self.table_idx = cycle::step(self.table_idx, delta < 0, total);
            } else if mouse::in_rect(l.conn[2], me.column, me.row) {
                return ConnAction::ScrollHistory(delta < 0);
            }
            return ConnAction::Nothing;
        }
        match mouse::left_click(me) {
            Some((x, y)) => self.click(x, y, l, saved, extra),
            None => ConnAction::Nothing,
        }
    }
}

// -------------------------------------------------------------- viewer tab

#[derive(Clone, Copy, PartialEq, Eq, Structural, Debug)]
pub enum ViewerField {
    Connection,
    Source,
    UnitOrPath,
    Since,
    Priority,
    Lines,
    Search,
    BtnBrowse,
    BtnFetch,
    AutoRefresh,
    LogPane,
}

impl Field for ViewerField {
    fn same(self, other: Self) -> (r: bool) {
        self == other
    }
}

/// The fields that the focus goes through: a time only for the journal, a
/// browser only for files.
pub open spec fn viewer_fields(journal: bool) -> Seq<ViewerField> {
    seq![ViewerField::Connection, ViewerField::Source, ViewerField::UnitOrPath] + (if journal {
        seq![ViewerField::Since]
    } else {
        Seq::empty()
    }) + seq![ViewerField::Priority, ViewerField::Lines, ViewerField::Search] + (if journal {
        Seq::empty()
    } else {
        seq![ViewerField::BtnBrowse]
    }) + seq![ViewerField::BtnFetch, ViewerField::AutoRefresh, ViewerField::LogPane]
}

pub fn viewer_active_fields(journal: bool) -> (r: Vec<ViewerField>)
    ensures
        r@ == viewer_fields(journal),
        r@.len() > 0,
{
    let mut v: Vec<ViewerField> = vec![ViewerField::Connection, ViewerField::Source, ViewerField::UnitOrPath];
    if journal {
        v.push(ViewerField::Since);
    }
    v.push(ViewerField::Priority);
    v.push(ViewerField::Lines);
    v.push(ViewerField::Search);
    if !journal {
        v.push(ViewerField::BtnBrowse);
    }
    v.push(ViewerField::BtnFetch);
    v.push(ViewerField::AutoRefresh);
    v.push(ViewerField::LogPane);
    assert(v@ =~= viewer_fields(journal));
    v
}

/// The lines of the filter form, which is drawn from them and hit-tested by them.
pub open spec fn viewer_form(journal: bool) -> Seq<Row<ViewerField>> {
    seq![
        Row::Field(ViewerField::Connection),
        Row::Gap,
        Row::Field(ViewerField::Source),
        Row::Gap,
        Row::Field(ViewerField::UnitOrPath),
        Row::Gap,
    ] + (if journal {
        seq![Row::Field(ViewerField::Since), Row::Gap]
    } else {
        Seq::empty()
    }) + seq![
        Row::Field(ViewerField::Priority),
        Row::Gap,
        Row::Field(ViewerField::Lines),
        Row::Gap,
        Row::Field(ViewerField::Search),
        Row::Gap,
        Row::Field(ViewerField::AutoRefresh),
        Row::Gap,
        Row::Buttons,
        Row::Gap,
        Row::Help,
    ]
}

pub fn viewer_form_rows(journal: bool) -> (r: Vec<Row<ViewerField>>)
    ensures
        r@ == viewer_form(journal),
        3 <= r@.len() <= 20,
{
    let mut v: Vec<Row<ViewerField>> = vec![
        Row::Field(ViewerField::Connection),
        Row::Gap,
        Row::Field(ViewerField::Source),
        Row::Gap,
        Row::Field(ViewerField::UnitOrPath),
        Row::Gap,
    ];
    if journal {
        v.push(Row::Field(ViewerField::Since));
        v.push(Row::Gap);
    }
    v.push(Row::Field(ViewerField::Priority));
    v.push(Row::Gap);
    v.push(Row::Field(ViewerField::Lines));
    v.push(Row::Gap);
    v.push(Row::Field(ViewerField::Search));
    v.push(Row::Gap);
    v.push(Row::Field(ViewerField::AutoRefresh));
    v.push(Row::Gap);
    v.push(Row::Buttons);
    v.push(Row::Gap);
    v.push(Row::Help);
    assert(v@ =~= viewer_form(journal));
    v
}

/// The row constraints of the filter form and its overall height.
pub fn viewer_form_constraints(journal: bool) -> (r: (Vec<Constraint>, u16))
    ensures
        r.0@ == form::lines(viewer_form(journal).len()),
        r.1 == viewer_form(journal).len() + 4,
{
    let rows = viewer_form_rows(journal);
    (line_constraints(rows.len()), rows.len() as u16 + 4)
}

/// How long after a fetch the next automatic one is due, in milliseconds.
pub const AUTO_REFRESH_MILLIS: u64 = 5000;

pub struct RemoteBrowser {
    pub path: String,
    pub entries: Vec<RemoteEntry>,
    pub selected: usize,
    pub loading: bool,
    pub error: Option<String>,
}

pub struct RemoteBrowserModel {
    pub path: Seq<char>,
    pub entries: Seq<RemoteEntryModel>,
    pub selected: int,
    pub loading: bool,
    pub error: Option<Seq<char>>,
}

impl View for RemoteBrowser {
    type V = RemoteBrowserModel;

    open spec fn view(&self) -> RemoteBrowserModel {
        RemoteBrowserModel {
            path: self.path@,
            entries: self.entries.deep_view(),
            selected: self.selected as int,
            loading: self.loading,
            error: self.error.deep_view(),
        }
    }
}

impl DeepView for RemoteBrowser {
    type V = RemoteBrowserModel;

    open spec fn deep_view(&self) -> RemoteBrowserModel {
        self@
    }
}

pub struct ViewerTab {
    pub connection_input: Input,
    pub connection_dropdown_open: bool,
    pub connection_idx: usize,
    pub journal: bool,
    pub unit: Input,
    pub path: Input,
    pub since: Input,
    pub priority_idx: usize,
    pub lines: Input,
    pub search: Input,
    pub auto_refresh: bool,
    pub field: ViewerField,
    pub log_lines: Vec<String>,
    pub scroll: u16,
    pub fetching: bool,
    /// When the last fetch ended, in milliseconds.
    pub last_fetch: Option<u64>,
    pub browser: Option<RemoteBrowser>,
}

pub struct ViewerTabModel {
    pub connection_input: InputModel,
    pub connection_dropdown_open: bool,
    pub connection_idx: int,
    pub journal: bool,
    pub unit: InputModel,
    pub path: InputModel,
    pub since: InputModel,
    pub priority_idx: int,
    pub lines: InputModel,
    pub search: InputModel,
    pub auto_refresh: bool,
    pub field: ViewerField,
    pub log_lines: Seq<Seq<char>>,
    pub scroll: u16,
    pub fetching: bool,
    pub last_fetch: Option<u64>,
    pub browser: Option<RemoteBrowserModel>,
}

impl View for ViewerTab {
    type V = ViewerTabModel;

    open spec fn view(&self) -> ViewerTabModel {
        ViewerTabModel {
            connection_input: self.connection_input@,
            connection_dropdown_open: self.connection_dropdown_open,
            connection_idx: self.connection_idx as int,
            journal: self.journal,
            unit: self.unit@,
            path: self.path@,
            since: self.since@,
            priority_idx: self.priority_idx as int,
            lines: self.lines@,
            search: self.search@,
            auto_refresh: self.auto_refresh,
            field: self.field,
            log_lines: self.log_lines.deep_view(),
            scroll: self.scroll,
            fetching: self.fetching,
            last_fetch: self.last_fetch,
            browser: self.browser.deep_view(),
        }
    }
}

impl DeepView for ViewerTab {
    type V = ViewerTabModel;

    open spec fn deep_view(&self) -> ViewerTabModel {
        self@
    }
}

/// What the screen has to do after an event on the viewer tab.
#[derive(Clone, Copy, PartialEq, Eq, Structural, Debug)]
pub enum ViewerAction {
    Nothing,
    Browse,
    Fetch,
    /// Scroll the history, towards older lines or back.
    ScrollHistory(bool),
}

impl ViewerTabModel {
    pub open spec fn empty() -> ViewerTabModel {
        ViewerTabModel {
            connection_input: InputModel::empty(),
            connection_dropdown_open: false,
            connection_idx: 0,
            journal: true,
            unit: InputModel::empty(),
            path: InputModel::of("/var/log/syslog"@),
            since: InputModel::empty(),
            priority_idx: 0,
            lines: InputModel::of("200"@),
            search: InputModel::empty(),
            auto_refresh: false,
            field: ViewerField::Connection,
            log_lines: Seq::empty(),
            scroll: 0,
            fetching: false,
            last_fetch: None,
            browser: None,
        }
    }

    pub open spec fn focus(self, field: ViewerField) -> ViewerTabModel {
        ViewerTabModel { field, ..self }
    }

    pub open spec fn next_field(self) -> ViewerTabModel {
        self.focus(cycle::after(viewer_fields(self.journal), self.field))
    }

    pub open spec fn prev_field(self) -> ViewerTabModel {
        self.focus(cycle::before(viewer_fields(self.journal), self.field))
    }

    pub open spec fn opened(self) -> ViewerTabModel {
        ViewerTabModel { connection_idx: 0, connection_dropdown_open: true, ..self }
    }

    pub open spec fn dropdown(self, open: bool) -> ViewerTabModel {
        ViewerTabModel { connection_dropdown_open: open, ..self }
    }

    /// How far the log pane scrolls: as many lines as there are, as far as that can be told.
    pub open spec fn max_scroll(self) -> int {
        (self.log_lines.len() % 65536) as int
    }

    pub open spec fn scroll_down(self, by: int) -> ViewerTabModel {
        ViewerTabModel {
            scroll: geometry::min_int(
                geometry::min_int(self.scroll + by, u16::MAX as int),
                self.max_scroll(),
            ) as u16,
            ..self
        }
    }

    pub open spec fn scroll_up(self, by: int) -> ViewerTabModel {
        ViewerTabModel { scroll: geometry::less(self.scroll as int, by) as u16, ..self }
    }

    /// Whether a key scrolls the log pane.
    pub open spec fn pane_key(key: KeyCode) -> bool {
        key == KeyCode::Up || key == KeyCode::Down || key == KeyCode::PageUp || key == KeyCode::PageDown || key
            == KeyCode::Home || key == KeyCode::End
    }

    pub open spec fn pane_scrolled(self, key: KeyCode) -> ViewerTabModel {
        match key {
            KeyCode::Up => self.scroll_up(1),
            KeyCode::Down => self.scroll_down(1),
            KeyCode::PageUp => self.scroll_up(20),
            KeyCode::PageDown => self.scroll_down(20),
            KeyCode::Home => ViewerTabModel { scroll: 0, ..self },
            KeyCode::End => ViewerTabModel { scroll: self.max_scroll() as u16, ..self },
            _ => self,
        }
    }

    pub open spec fn is_switch(self) -> bool {
        self.field == ViewerField::Source || self.field == ViewerField::Priority || self.field
            == ViewerField::AutoRefresh
    }

    /// A switch turned: the source, the priority, or the refresh, forwards or back.
    pub open spec fn switched(self, back: bool, n: int) -> ViewerTabModel {
        match self.field {
            ViewerField::Source => ViewerTabModel { journal: !self.journal, ..self },
            ViewerField::Priority => ViewerTabModel {
                priority_idx: if back {
                    (self.priority_idx + n - 1) % n
                } else {
                    (self.priority_idx + 1) % n
                },
                ..self
            },
            ViewerField::AutoRefresh => ViewerTabModel { auto_refresh: !self.auto_refresh, ..self },
            _ => self,
        }
    }

    /// The focused input edited by a key. The number of lines takes digits only.
    pub open spec fn edit(self, key: KeyCode) -> ViewerTabModel {
        match self.field {
            ViewerField::Connection => ViewerTabModel { connection_input: self.connection_input.edit(key), ..self },
            ViewerField::UnitOrPath => if self.journal {
                ViewerTabModel { unit: self.unit.edit(key), ..self }
            } else {
                ViewerTabModel { path: self.path.edit(key), ..self }
            },
            ViewerField::Since => ViewerTabModel { since: self.since.edit(key), ..self },
            ViewerField::Lines => match key {
                KeyCode::Char(c) => if text::is_digit(c) {
                    ViewerTabModel { lines: self.lines.edit(key), ..self }
                } else {
                    self
                },
                _ => ViewerTabModel { lines: self.lines.edit(key), ..self },
            },
            ViewerField::Search => ViewerTabModel { search: self.search.edit(key), ..self },
            _ => self,
        }
    }

    /// A character typed; in the connection field it opens the dropdown.
    pub open spec fn typed(self, key: KeyCode) -> ViewerTabModel {
        match key {
            KeyCode::Char(_) => if self.field == ViewerField::Connection {
                self.edit(key).opened()
            } else {
                self.edit(key)
            },
            _ => self.edit(key),
        }
    }

    pub open spec fn entered(self, n: int) -> (ViewerTabModel, ViewerAction) {
        match self.field {
            ViewerField::Connection => (self.opened(), ViewerAction::Nothing),
            ViewerField::Source | ViewerField::Priority | ViewerField::AutoRefresh => (
                self.switched(false, n),
                ViewerAction::Nothing,
            ),
            ViewerField::BtnBrowse => (self, ViewerAction::Browse),
            ViewerField::BtnFetch => (self, ViewerAction::Fetch),
            _ => (self.next_field(), ViewerAction::Nothing),
        }
    }

    /// Keys while the dropdown is open: picking an entry fetches at once.
    pub open spec fn on_dropdown_key(self, key: KeyCode, found: Seq<Seq<char>>) -> (ViewerTabModel, ViewerAction) {
        let n = found.len() as int;
        match key {
            KeyCode::Esc => (self.dropdown(false), ViewerAction::Nothing),
            KeyCode::Tab => (self.dropdown(false).next_field(), ViewerAction::Nothing),
            KeyCode::BackTab => (self.dropdown(false).prev_field(), ViewerAction::Nothing),
            KeyCode::Up => (
                ViewerTabModel { connection_idx: cycle::moved(self.connection_idx, true, n), ..self },
                ViewerAction::Nothing,
            ),
            KeyCode::Down => (
                ViewerTabModel { connection_idx: cycle::moved(self.connection_idx, false, n), ..self },
                ViewerAction::Nothing,
            ),
            KeyCode::Enter => if self.connection_idx < n {
                (
                    ViewerTabModel {
                        connection_input: InputModel::of(found[self.connection_idx]),
                        ..self.dropdown(false)
                    },
                    ViewerAction::Fetch,
                )
            } else {
                (self.dropdown(false), ViewerAction::Nothing)
            },
            KeyCode::Char(_) | KeyCode::Backspace => (
                ViewerTabModel {
                    connection_input: self.connection_input.edit(key),
                    connection_idx: 0,
                    ..self
                },
                ViewerAction::Nothing,
            ),
            _ => (
                ViewerTabModel { connection_input: self.connection_input.edit(key), ..self },
                ViewerAction::Nothing,
            ),
        }
    }

    /// After a key, with no browser open; `n` is the number of priorities.
    pub open spec fn on_key(self, key: KeyCode, n: int, found: Seq<Seq<char>>) -> (ViewerTabModel, ViewerAction) {
        if self.connection_dropdown_open {
            self.on_dropdown_key(key, found)
        } else if self.field == ViewerField::LogPane && ViewerTabModel::pane_key(key) {
            (self.pane_scrolled(key), ViewerAction::Nothing)
        } else if self.is_switch() && (key == KeyCode::Left || key == KeyCode::Right) {
            (self.switched(key == KeyCode::Left, n), ViewerAction::Nothing)
        } else {
            match key {
                KeyCode::Tab | KeyCode::Down => (self.next_field(), ViewerAction::Nothing),
                KeyCode::BackTab | KeyCode::Up => (self.prev_field(), ViewerAction::Nothing),
                KeyCode::Enter => self.entered(n),
                _ => (self.typed(key), ViewerAction::Nothing),
            }
        }
    }

    /// A click on a field of the form: the connection opens its dropdown,
    /// source and refresh turn, other fields get the focus.
    pub open spec fn field_clicked(self, f: ViewerField) -> ViewerTabModel {
        match f {
            ViewerField::Connection => self.focus(f).opened(),
            ViewerField::Source | ViewerField::AutoRefresh => self.focus(f).switched(false, 1),
            _ => self.focus(f),
        }
    }

    pub open spec fn clicked(self, x: u16, y: u16, l: LogsLayoutModel) -> (ViewerTabModel, ViewerAction) {
        let rows = viewer_form(self.journal);
        if mouse::hits(l.viewer[1], x, y) {
            (self.focus(ViewerField::LogPane), ViewerAction::Nothing)
        } else {
            match form::field_hit(l.filters, rows, x, y) {
                Some(f) => (self.field_clicked(f), ViewerAction::Nothing),
                None => if self.journal {
                    (
                        self,
                        if mouse::button_hit(x, y, l.filters[form::button_row(rows)], seq!["Fetch"@]) is Some {
                            ViewerAction::Fetch
                        } else {
                            ViewerAction::Nothing
                        },
                    )
                } else {
                    (
                        self,
                        match mouse::button_hit(
                            x,
                            y,
                            l.filters[form::button_row(rows)],
                            seq!["Browse"@, "Fetch"@],
                        ) {
                            Some(i) => if i == 0 {
                                ViewerAction::Browse
                            } else {
                                ViewerAction::Fetch
                            },
                            None => ViewerAction::Nothing,
                        },
                    )
                },
            }
        }
    }

    /// After a mouse event, with no browser open.
    pub open spec fn on_mouse(self, me: MouseEvent, l: LogsLayoutModel) -> (ViewerTabModel, ViewerAction) {
        if self.connection_dropdown_open {
            (if mouse::clicked(me) is Some {
                self.dropdown(false)
            } else {
                self
            }, ViewerAction::Nothing)
        } else {
            match mouse::scrolled(me) {
                Some(d) => if mouse::hits(l.viewer[1], me.column, me.row) {
                    (if d < 0 {
                        self.scroll_up(3)
                    } else {
                        self.scroll_down(3)
                    }, ViewerAction::Nothing)
                } else if mouse::hits(l.viewer[2], me.column, me.row) {
                    (self, ViewerAction::ScrollHistory(d < 0))
                } else {
                    (self, ViewerAction::Nothing)
                },
                None => match mouse::clicked(me) {
                    Some((x, y)) => self.clicked(x, y, l),
                    None => (self, ViewerAction::Nothing),
                },
            }
        }
    }

    /// How many lines to fetch: what is typed, at least one, or two hundred.
    pub open spec fn line_count(self) -> int {
        match text::at_most(text::unsigned_value(self.lines.trimmed()), u32::MAX as nat) {
            Some(n) => geometry::max_int(n as int, 1),
            None => 200,
        }
    }

    pub open spec fn params(self) -> FetchParamsModel {
        FetchParamsModel {
            journal: self.journal,
            unit: self.unit.trimmed(),
            since: self.since.trimmed(),
            path: self.path.trimmed(),
            priority: self.priority_idx,
            search: self.search.trimmed(),
            lines: self.line_count() as u32,
        }
    }

    /// Where browsing starts: in the directory typed, or in the one that
    /// holds the file typed.
    pub open spec fn browse_start(self) -> Seq<char> {
        let p = self.path.trimmed();
        if p.len() == 0 {
            "/var/log"@
        } else if p.last() == '/' {
            p
        } else {
            crate::remote_path::parent(p)
        }
    }
}

impl ViewerTab {
    pub fn new() -> (r: ViewerTab)
        ensures
            r@ == ViewerTabModel::empty(),
    {
        let r = ViewerTab {
            connection_input: Input::default(),
            connection_dropdown_open: false,
            connection_idx: 0,
            journal: true,
            unit: Input::default(),
            path: Input::new("/var/log/syslog"),
            since: Input::default(),
            priority_idx: 0,
            lines: Input::new("200"),
            search: Input::default(),
            auto_refresh: false,
            field: ViewerField::Connection,
            log_lines: Vec::new(),
            scroll: 0,
            fetching: false,
            last_fetch: None,
            browser: None,
        };
        assert(r@.log_lines =~= Seq::empty());
        r
    }

    pub fn next_field(&mut self)
        ensures
            final(self)@ == old(self)@.next_field(),
    {
        let fields = viewer_active_fields(self.journal);
        self.field = next_of(&fields, self.field);
    }

    pub fn prev_field(&mut self)
        ensures
            final(self)@ == old(self)@.prev_field(),
    {
        let fields = viewer_active_fields(self.journal);
        self.field = prev_of(&fields, self.field);
    }

    fn max_scroll(&self) -> (r: u16)
        ensures
            r == self@.max_scroll(),
    {
        (self.log_lines.len() % 65536) as u16
    }

    fn scroll_down(&mut self, by: u16)
        ensures
            final(self)@ == old(self)@.scroll_down(by as int),
    {
        let max: u16 = self.max_scroll();
        self.scroll = geometry::min_u16(self.scroll.saturating_add(by), max);
    }

    fn scroll_up(&mut self, by: u16)
        ensures
            final(self)@ == old(self)@.scroll_up(by as int),
    {
        self.scroll = self.scroll.saturating_sub(by);
    }

    fn scroll_pane(&mut self, key: KeyCode)
        ensures
            final(self)@ == old(self)@.pane_scrolled(key),
    {
        match key {
            KeyCode::Up => self.scroll_up(1),
            KeyCode::Down => self.scroll_down(1),
            KeyCode::PageUp => self.scroll_up(20),
            KeyCode::PageDown => self.scroll_down(20),
            KeyCode::Home => self.scroll = 0,
            KeyCode::End => self.scroll = self.max_scroll(),
            _ => {},
        }
    }

    fn switch(&mut self, back: bool, n: usize)
        requires
            0 <= old(self)@.priority_idx < n,
        ensures
            final(self)@ == old(self)@.switched(back, n as int),
            0 <= final(self)@.priority_idx < n,
    {
        match self.field {
            ViewerField::Source => self.journal = !self.journal,
            ViewerField::Priority => {
                let i: usize = self.priority_idx;
                let j: usize = if back {
                    if i > 0 {
                        i - 1
                    } else {
                        n - 1
                    }
                } else if i + 1 < n {
                    i + 1
                } else {
                    0
                };
                proof {
                    cycle::lemma_wrap(i as int, n as int);
                }
                self.priority_idx = j;
            },
            ViewerField::AutoRefresh => self.auto_refresh = !self.auto_refresh,
            _ => {},
        }
    }

    fn edit(&mut self, key: KeyCode)
        ensures
            final(self)@ == old(self)@.edit(key),
    {
        match self.field {
            ViewerField::Connection => self.connection_input.edit(key),
            ViewerField::UnitOrPath => if self.journal {
                self.unit.edit(key);
            } else {
                self.path.edit(key);
            },
            ViewerField::Since => self.since.edit(key),
            ViewerField::Lines => match key {
                KeyCode::Char(c) => if '0' <= c && c <= '9' {
                    self.lines.edit(key);
                },
                _ => self.lines.edit(key),
            },
            ViewerField::Search => self.search.edit(key),
            _ => {},
        }
    }

    fn enter(&mut self, n: usize) -> (r: ViewerAction)
        requires
            0 <= old(self)@.priority_idx < n,
        ensures
            (final(self)@, r) == old(self)@.entered(n as int),
            0 <= final(self)@.priority_idx < n,
    {
        match self.field {
            ViewerField::Connection => {
                self.connection_idx = 0;
                self.connection_dropdown_open = true;
            },
            ViewerField::Source | ViewerField::Priority | ViewerField::AutoRefresh => self.switch(false, n),
            ViewerField::BtnBrowse => return ViewerAction::Browse,
            ViewerField::BtnFetch => return ViewerAction::Fetch,
            _ => self.next_field(),
        }
        ViewerAction::Nothing
    }

    pub fn handle_connection_dropdown_key(&mut self, key: KeyCode, found: &Vec<String>) -> (r: ViewerAction)
        ensures
            (final(self)@, r) == old(self)@.on_dropdown_key(key, found.deep_view()),
            final(self)@.priority_idx == old(self)@.priority_idx,
    {
        match key {
            KeyCode::Esc => self.connection_dropdown_open = false,
            KeyCode::Tab => {
                self.connection_dropdown_open = false;
                self.next_field();
            },
            KeyCode::BackTab => {
                self.connection_dropdown_open = false;
                self.prev_field();
            },
            KeyCode::Up => self.connection_idx = cycle::step(self.connection_idx, true, found.len()),
            KeyCode::Down => self.connection_idx = cycle::step(self.connection_idx, false, found.len()),
            KeyCode::Enter => {
                self.connection_dropdown_open = false;
                let i: usize = self.connection_idx;
                if i < found.len() {
                    assert(found.deep_view()[i as int] == found@[i as int]@);
                    self.connection_input = Input::new(found[i].as_str());
                    return ViewerAction::Fetch;
                }
            },
            KeyCode::Char(_) | KeyCode::Backspace => {
                self.connection_input.edit(key);
                self.connection_idx = 0;
            },
            _ => self.connection_input.edit(key),
        }
        ViewerAction::Nothing
    }

    pub fn handle_key(&mut self, key: KeyCode, n: usize, found: &Vec<String>) -> (r: ViewerAction)
        requires
            0 <= old(self)@.priority_idx < n,
        ensures
            (final(self)@, r) == old(self)@.on_key(key, n as int, found.deep_view()),
            0 <= final(self)@.priority_idx < n,
    {
        if self.connection_dropdown_open {
            return self.handle_connection_dropdown_key(key, found);
        }
        if self.field == ViewerField::LogPane {
            match key {
                KeyCode::Up | KeyCode::Down | KeyCode::PageUp | KeyCode::PageDown | KeyCode::Home | KeyCode::End => {
                    self.scroll_pane(key);
                    return ViewerAction::Nothing;
                },
                _ => {},
            }
        }
        let switch = self.field == ViewerField::Source || self.field == ViewerField::Priority || self.field
            == ViewerField::AutoRefresh;
        if switch && (key == KeyCode::Left || key == KeyCode::Right) {
            self.switch(key == KeyCode::Left, n);
            return ViewerAction::Nothing;
        }
        match key {
            KeyCode::Tab | KeyCode::Down => self.next_field(),
            KeyCode::BackTab | KeyCode::Up => self.prev_field(),
            KeyCode::Enter => return self.enter(n),
            KeyCode::Char(_) => {
                self.edit(key);
                if self.field == ViewerField::Connection {
                    self.connection_dropdown_open = true;
                    self.connection_idx = 0;
                }
            },
            _ => self.edit(key),
        }
        ViewerAction::Nothing
    }

    fn click(&mut self, x: u16, y: u16, l: &LogsLayout) -> (r: ViewerAction)
        requires
            l@.complete_viewer(old(self)@.journal),
        ensures
            (final(self)@, r) == old(self)@.clicked(x, y, l@),
            final(self)@.priority_idx == old(self)@.priority_idx,
    {
        if mouse::in_rect(l.viewer[1], x, y) {
            self.field = ViewerField::LogPane;
            return ViewerAction::Nothing;
        }
        let rows = viewer_form_rows(self.journal);
        if let Some(f) = field_row_hit(&l.filters, &rows, x, y) {
            self.field = f;
            match f {
                ViewerField::Connection => {
                    self.connection_idx = 0;
                    self.connection_dropdown_open = true;
                },
                ViewerField::Source => self.journal = !self.journal,
                ViewerField::AutoRefresh => self.auto_refresh = !self.auto_refresh,
                _ => {},
            }
            return ViewerAction::Nothing;
        }
        let row = l.filters[rows.len() - 3];
        if self.journal {
            let labels = ["Fetch"];
            assert(labels.deep_view() =~= seq!["Fetch"@]);
            if mouse::button_row_hit(x, y, row, &labels).is_some() {
                return ViewerAction::Fetch;
            }
        } else {
            let labels = ["Browse", "Fetch"];
            assert(labels.deep_view() =~= seq!["Browse"@, "Fetch"@]);
            if let Some(i) = mouse::button_row_hit(x, y, row, &labels) {
                if i == 0 {
                    return ViewerAction::Browse;
                } else {
                    return ViewerAction::Fetch;
                }
            }
        }
        ViewerAction::Nothing
    }

    pub fn handle_mouse(&mut self, me: &MouseEvent, l: &LogsLayout) -> (r: ViewerAction)
        requires
            l@.complete_viewer(old(self)@.journal),
        ensures
            (final(self)@, r) == old(self)@.on_mouse(*me, l@),
            final(self)@.priority_idx == old(self)@.priority_idx,
    {
        if self.connection_dropdown_open {
            if mouse::left_click(me).is_some() {
                self.connection_dropdown_open = false;
            }
            return ViewerAction::Nothing;
        }
        if let Some(delta) = mouse::scroll_delta(me) {
            if mouse::in_rect(l.viewer[1], me.column, me.row) {
                if delta < 0 {
                    self.scroll_up(3);
                } else {
                    self.scroll_down(3);
                }
            } else if mouse::in_rect(l.viewer[2], me.column, me.row) {
                return ViewerAction::ScrollHistory(delta < 0);
            }
            return ViewerAction::Nothing;
        }
        match mouse::left_click(me) {
            Some((x, y)) => self.click(x, y, l),
            None => ViewerAction::Nothing,
        }
    }

    fn line_count(&self) -> (r: u32)
        ensures
            r == self@.line_count(),
    {
        let t = self.lines.trimmed();
        match text::parse_u64(t.as_str()) {
            Some(n) => if n > u32::MAX as u64 {
                200
            } else if n < 1 {
                1
            } else {
                n as u32
            },
            None => 200,
        }
    }

    pub fn params(&self) -> (r: FetchParams)
        ensures
            r@ == self@.params(),
    {
        FetchParams {
            journal: self.journal,
            unit: self.unit.trimmed(),
            since: self.since.trimmed(),
            path: self.path.trimmed(),
            priority: self.priority_idx,
            search: self.search.trimmed(),
            lines: self.line_count(),
        }
    }

    fn browse_start(&self) -> (r: String)
        ensures
            r@ == self@.browse_start(),
    {
        let p = self.path.trimmed();
        let v = text::chars_of(p.as_str());
        if v.len() == 0 {
            text::owned("/var/log")
        } else if v[v.len() - 1] == '/' {
            p
        } else {
            crate::remote_path::parent_of(p.as_str())
        }
    }
}

// -------------------------------------------------------------- the screen

/// Work that is done outside of the screen.
pub enum Request {
    /// Read the known hosts, for the host picker.
    ListHosts,
    /// Open the key picker on a path.
    BrowseKey(String),
    /// Read a directory for the open key picker.
    ReadDir(String),
    /// Save a profile, under an id or as a new one.
    SaveConnection { existing: Option<String>, input: ConnectionInput },
    DeleteConnection { id: String, label: String },
    TestConnection(ConnectionWithSecrets),
    Fetch { conn: ConnectionWithSecrets, params: FetchParams },
    /// List a directory of the server.
    ListDir { conn: ConnectionWithSecrets, path: String },
    CopyHistory,
}

pub enum RequestModel {
    ListHosts,
    BrowseKey(Seq<char>),
    ReadDir(Seq<char>),
    SaveConnection { existing: Option<Seq<char>>, input: ConnectionInputModel },
    DeleteConnection { id: Seq<char>, label: Seq<char> },
    TestConnection(ConnectionWithSecretsModel),
    Fetch { conn: ConnectionWithSecretsModel, params: FetchParamsModel },
    ListDir { conn: ConnectionWithSecretsModel, path: Seq<char> },
    CopyHistory,
}

impl View for Request {
    type V = RequestModel;

    open spec fn view(&self) -> RequestModel {
        match self {
            Request::ListHosts => RequestModel::ListHosts,
            Request::BrowseKey(a) => RequestModel::BrowseKey(a@),
            Request::ReadDir(a) => RequestModel::ReadDir(a@),
            Request::SaveConnection { existing, input } => RequestModel::SaveConnection { existing: existing.deep_view(), input: input@ },
            Request::DeleteConnection { id, label } => RequestModel::DeleteConnection { id: id@, label: label@ },
            Request::TestConnection(a) => RequestModel::TestConnection(a@),
            Request::Fetch { conn, params } => RequestModel::Fetch { conn: conn@, params: params@ },
            Request::ListDir { conn, path } => RequestModel::ListDir { conn: conn@, path: path@ },
            Request::CopyHistory => RequestModel::CopyHistory,
        }
    }
}

impl DeepView for Request {
    type V = RequestModel;

    open spec fn deep_view(&self) -> RequestModel {
        self@
    }
}

/// What came of a request.
pub enum Msg {
    Hosts(Vec<Server>),
    HostsFailed(String),
    KeyDir { listing: Listing, preselect: Option<String> },
    DirRead(Listing),
    Saved(Config),
    SaveFailed { cfg: Config, error: String },
    Deleted { cfg: Config, label: String },
    DeleteFailed { cfg: Config, error: String },
    Tested,
    TestFailed(String),
    Fetched(Vec<String>),
    FetchFailed(String),
    Listed { path: String, entries: Vec<RemoteEntry> },
    ListFailed(String),
    HistoryCopied(bool),
}

pub enum MsgModel {
    Hosts(Seq<ServerModel>),
    HostsFailed(Seq<char>),
    KeyDir { listing: ListingModel, preselect: Option<Seq<char>> },
    DirRead(ListingModel),
    Saved(ConfigModel),
    SaveFailed { cfg: ConfigModel, error: Seq<char> },
    Deleted { cfg: ConfigModel, label: Seq<char> },
    DeleteFailed { cfg: ConfigModel, error: Seq<char> },
    Tested,
    TestFailed(Seq<char>),
    Fetched(Seq<Seq<char>>),
    FetchFailed(Seq<char>),
    Listed { path: Seq<char>, entries: Seq<RemoteEntryModel> },
    ListFailed(Seq<char>),
    HistoryCopied(bool),
}

impl View for Msg {
    type V = MsgModel;

    open spec fn view(&self) -> MsgModel {
        match self {
            Msg::Hosts(a) => MsgModel::Hosts(a.deep_view()),
            Msg::HostsFailed(a) => MsgModel::HostsFailed(a@),
            Msg::KeyDir { listing, preselect } => MsgModel::KeyDir { listing: listing@, preselect: preselect.deep_view() },
            Msg::DirRead(a) => MsgModel::DirRead(a@),
            Msg::Saved(a) => MsgModel::Saved(a@),
            Msg::SaveFailed { cfg, error } => MsgModel::SaveFailed { cfg: cfg@, error: error@ },
            Msg::Deleted { cfg, label } => MsgModel::Deleted { cfg: cfg@, label: label@ },
            Msg::DeleteFailed { cfg, error } => MsgModel::DeleteFailed { cfg: cfg@, error: error@ },
            Msg::Tested => MsgModel::Tested,
            Msg::TestFailed(a) => MsgModel::TestFailed(a@),
            Msg::Fetched(a) => MsgModel::Fetched(a.deep_view()),
            Msg::FetchFailed(a) => MsgModel::FetchFailed(a@),
            Msg::Listed { path, entries } => MsgModel::Listed { path: path@, entries: entries.deep_view() },
            Msg::ListFailed(a) => MsgModel::ListFailed(a@),
            Msg::HistoryCopied(a) => MsgModel::HistoryCopied(*a),
        }
    }
}

impl DeepView for Msg {
    type V = MsgModel;

    open spec fn deep_view(&self) -> MsgModel {
        self@
    }
}

pub struct LogsScreen {
    pub tab: Tab,
    pub connections_tab: ConnectionsTab,
    pub viewer_tab: ViewerTab,
    pub cfg: Config,
    /// The hosts that are known from the SSH config.
    pub hosts: Vec<Server>,
    /// The names of the severities, from all lines to the worst only.
    pub priorities: Vec<String>,
    pub log: Log,
    pub requests: Vec<Request>,
}

pub struct LogsScreenModel {
    pub tab: Tab,
    pub connections_tab: ConnectionsTabModel,
    pub viewer_tab: ViewerTabModel,
    pub cfg: ConfigModel,
    pub hosts: Seq<ServerModel>,
    pub priorities: Seq<Seq<char>>,
    pub log: LogModel,
    pub requests: Seq<RequestModel>,
}

impl View for LogsScreen {
    type V = LogsScreenModel;

    open spec fn view(&self) -> LogsScreenModel {
        LogsScreenModel {
            tab: self.tab,
            connections_tab: self.connections_tab@,
            viewer_tab: self.viewer_tab@,
            cfg: self.cfg@,
            hosts: self.hosts.deep_view(),
            priorities: self.priorities.deep_view(),
            log: self.log@,
            requests: self.requests.deep_view(),
        }
    }
}

impl DeepView for LogsScreen {
    type V = LogsScreenModel;

    open spec fn deep_view(&self) -> LogsScreenModel {
        self@
    }
}

/// The rectangles that the screen is drawn into.
pub struct LogsLayout {
    pub screen: Vec<Rect>,
    pub conn: Vec<Rect>,
    pub form: Vec<Rect>,
    pub viewer: Vec<Rect>,
    pub filters: Vec<Rect>,
    pub hosts: Vec<Rect>,
    pub keys: Vec<Rect>,
}

pub struct LogsLayoutModel {
    pub screen: Seq<Rect>,
    pub conn: Seq<Rect>,
    pub form: Seq<Rect>,
    pub viewer: Seq<Rect>,
    pub filters: Seq<Rect>,
    pub hosts: Seq<Rect>,
    pub keys: Seq<Rect>,
}

impl View for LogsLayout {
    type V = LogsLayoutModel;

    open spec fn view(&self) -> LogsLayoutModel {
        LogsLayoutModel {
            screen: self.screen@,
            conn: self.conn@,
            form: self.form@,
            viewer: self.viewer@,
            filters: self.filters@,
            hosts: self.hosts@,
            keys: self.keys@,
        }
    }
}

impl DeepView for LogsLayout {
    type V = LogsLayoutModel;

    open spec fn deep_view(&self) -> LogsLayoutModel {
        self@
    }
}

/// As many rows as the table has, as far as they can be counted.
pub open spec fn row_total(saved: nat, extra: nat) -> int {
    geometry::min_int((saved + extra) as int, usize::MAX as int)
}

pub open spec fn tab_labels() -> Seq<Seq<char>> {
    seq!["F1 Connections"@, "F2 Viewer"@]
}

pub open spec fn conn_buttons() -> Seq<Seq<char>> {
    seq!["Save"@, "New"@, "Delete"@, "Test Connection"@]
}

pub open spec fn screen_rows() -> Seq<Constraint> {
    seq![Constraint::Length(1), Constraint::Min(0)]
}

pub open spec fn conn_rows() -> Seq<Constraint> {
    seq![Constraint::Min(0), Constraint::Length(22), Constraint::Length(6)]
}

pub open spec fn viewer_rows(journal: bool) -> Seq<Constraint> {
    seq![
        Constraint::Length((viewer_form(journal).len() + 4) as u16),
        Constraint::Min(10),
        Constraint::Length(6),
    ]
}

impl LogsLayoutModel {
    /// Whether the rectangles are those of a screen with this source on `area`.
    pub open spec fn of(self, area: Rect, journal: bool) -> bool {
        &&& geometry::stacked(area, 0, screen_rows(), self.screen)
        &&& geometry::stacked(self.screen[1], 0, conn_rows(), self.conn)
        &&& geometry::stacked(mouse::inner(self.conn[1]), 1, form::lines(16), self.form)
        &&& geometry::stacked(self.screen[1], 0, viewer_rows(journal), self.viewer)
        &&& geometry::stacked(
            mouse::inner(self.viewer[0]),
            1,
            form::lines(viewer_form(journal).len()),
            self.filters,
        )
        &&& geometry::stacked(
            mouse::inner(host_picker::picker_area(self.screen[1])),
            1,
            host_picker::picker_rows(),
            self.hosts,
        )
        &&& geometry::stacked(
            mouse::inner(file_picker::picker_area(self.screen[1])),
            1,
            file_picker::picker_rows(),
            self.keys,
        )
    }

    pub open spec fn complete_conn(self) -> bool {
        &&& self.screen.len() == 2
        &&& self.conn.len() == 3
        &&& self.form.len() == 17
        &&& self.hosts.len() == 4
        &&& self.keys.len() == 2
    }

    pub open spec fn complete_viewer(self, journal: bool) -> bool {
        &&& self.screen.len() == 2
        &&& self.viewer.len() == 3
        &&& self.filters.len() == viewer_form(journal).len() + 1
        &&& self.keys.len() == 2
    }
}

impl MsgModel {
    /// The line that a message leaves in the history, and whether it is good news.
    pub open spec fn line(self) -> Option<(bool, Seq<char>)> {
        match self {
            MsgModel::Saved(_) => Some((true, "Connection saved"@)),
            MsgModel::Deleted { cfg, label } => Some((true, "Connection '"@ + label + "' deleted"@)),
            MsgModel::Tested => Some((true, "Connected OK"@)),
            MsgModel::TestFailed(e) => Some((false, "Connection failed: "@ + text::single_line(e))),
            MsgModel::Fetched(lines) => Some((true, "Fetched "@ + text::decimal(lines.len()) + " line(s)"@)),
            MsgModel::FetchFailed(e) => Some((false, text::single_line(e))),
            _ => None,
        }
    }
}

impl Msg {
    /// The line that a message leaves in the history, and whether it is good news.
    pub fn line(&self) -> (r: Option<(bool, String)>)
        ensures
            r.deep_view() == self@.line(),
    {
        match self {
            Msg::Saved(_) => Some((true, text::owned("Connection saved"))),
            Msg::Deleted { cfg: _, label } => Some(
                (true, text::cat3("Connection '", label.as_str(), "' deleted")),
            ),
            Msg::Tested => Some((true, text::owned("Connected OK"))),
            Msg::TestFailed(e) => {
                let e = text::one_line(e.as_str());
                Some((false, text::cat2("Connection failed: ", e.as_str())))
            },
            Msg::Fetched(lines) => {
                let n = text::number(lines.len() as u64);
                Some((true, text::cat3("Fetched ", n.as_str(), " line(s)")))
            },
            Msg::FetchFailed(e) => Some((false, text::one_line(e.as_str()))),
            _ => None,
        }
    }
}

impl LogsScreenModel {
    /// The chosen severity is one of those there are.
    pub open spec fn wf(self) -> bool {
        0 <= self.viewer_tab.priority_idx < self.priorities.len()
    }

    pub open spec fn fresh(cfg: ConfigModel, hosts: Seq<ServerModel>, priorities: Seq<Seq<char>>) -> LogsScreenModel {
        LogsScreenModel {
            tab: Tab::Connections,
            connections_tab: ConnectionsTabModel::empty(),
            viewer_tab: ViewerTabModel::empty(),
            cfg,
            hosts,
            priorities,
            log: LogModel::empty(),
            requests: Seq::empty(),
        }
    }

    pub open spec fn with_conn(self, connections_tab: ConnectionsTabModel) -> LogsScreenModel {
        LogsScreenModel { connections_tab, ..self }
    }

    pub open spec fn with_viewer(self, viewer_tab: ViewerTabModel) -> LogsScreenModel {
        LogsScreenModel { viewer_tab, ..self }
    }

    pub open spec fn with_browser(self, browser: Option<RemoteBrowserModel>) -> LogsScreenModel {
        self.with_viewer(ViewerTabModel { browser, ..self.viewer_tab })
    }

    pub open spec fn with_log(self, log: LogModel) -> LogsScreenModel {
        LogsScreenModel { log, ..self }
    }

    pub open spec fn error(self, msg: Seq<char>) -> LogsScreenModel {
        self.with_log(self.log.error(msg))
    }

    pub open spec fn note(self, ok: bool, line: Seq<char>) -> LogsScreenModel {
        self.with_log(self.log.note(ok, line))
    }

    pub open spec fn ask(self, r: RequestModel) -> LogsScreenModel {
        LogsScreenModel { requests: self.requests.push(r), ..self }
    }

    pub open spec fn on_tab(self, tab: Tab) -> LogsScreenModel {
        LogsScreenModel { tab, ..self }
    }

    /// The profile of a label: a saved one, or else a known host of that
    /// alias, which can be used without being saved first.
    pub open spec fn connection_by_label(self, label: Seq<char>) -> Option<ConnectionWithSecretsModel> {
        match by_label(self.cfg.connections, label) {
            Some(c) => self.cfg.with_secrets(c.id),
            None => match by_alias(self.hosts, label) {
                Some(s) => Some(s.as_connection()),
                None => None,
            },
        }
    }

    pub open spec fn typed_connection(self) -> Option<ConnectionWithSecretsModel> {
        self.connection_by_label(self.viewer_tab.connection_input.trimmed())
    }

    pub open spec fn extra(self) -> Seq<ServerModel> {
        extras(self.cfg.connections, self.hosts)
    }

    /// The labels that the dropdown offers.
    pub open spec fn found(self) -> Seq<Seq<char>> {
        self.cfg.filtered(self.hosts, self.viewer_tab.connection_input.text)
    }

    /// The saved profile that the form was loaded from.
    pub open spec fn edited(self) -> Option<ConnectionModel> {
        match self.connections_tab.selected {
            Some(i) => self.cfg.get(i as int),
            None => None,
        }
    }

    pub open spec fn saved_password(self) -> Seq<char> {
        match self.edited() {
            Some(c) => match self.cfg.with_secrets(c.id) {
                Some(s) => s.ssh_password,
                None => Seq::empty(),
            },
            None => Seq::empty(),
        }
    }

    // ---------------------------------------------------------- the actions

    pub open spec fn save_connection(self) -> LogsScreenModel {
        let input = self.connections_tab.as_input();
        if input.label.len() == 0 || input.host.len() == 0 || input.ssh_user.len() == 0 {
            self.error("Label, Host and SSH User are required"@)
        } else {
            self.ask(
                RequestModel::SaveConnection {
                    existing: match self.edited() {
                        Some(c) => Some(c.id),
                        None => None,
                    },
                    input,
                },
            )
        }
    }

    /// The loaded profile is deleted, or else the one at the place in the table.
    pub open spec fn delete_connection(self) -> LogsScreenModel {
        let ct = self.connections_tab;
        if ct.selected is None && self.cfg.connections.len() == 0 {
            self.error("No connection selected"@)
        } else {
            match self.cfg.get(
                match ct.selected {
                    Some(i) => i as int,
                    None => ct.table_idx,
                },
            ) {
                Some(c) => self.ask(RequestModel::DeleteConnection { id: c.id, label: c.label }),
                None => self,
            }
        }
    }

    /// The profile in the form is tried out; a password left empty is the saved one.
    pub open spec fn test_connection(self) -> LogsScreenModel {
        let input = self.connections_tab.as_input();
        if input.host.len() == 0 || input.ssh_user.len() == 0 {
            self.error("Host and SSH User are required to test"@)
        } else {
            self.ask(
                RequestModel::TestConnection(
                    ConnectionWithSecretsModel {
                        id: "test"@,
                        label: input.label,
                        host: input.host,
                        ssh_port: input.ssh_port,
                        ssh_user: input.ssh_user,
                        ssh_key_path: input.ssh_key_path,
                        ssh_password: if input.ssh_password.len() > 0 {
                            input.ssh_password
                        } else {
                            self.saved_password()
                        },
                    },
                ),
            )
        }
    }

    pub open spec fn fetch(self) -> LogsScreenModel {
        match self.typed_connection() {
            None => self.error("Select a valid connection (use the dropdown)"@),
            Some(conn) => {
                let params = self.viewer_tab.params();
                if !params.journal && params.path.len() == 0 {
                    self.error("File Path is required in File mode"@)
                } else {
                    self.with_viewer(ViewerTabModel { fetching: true, ..self.viewer_tab }).ask(
                        RequestModel::Fetch { conn, params },
                    )
                }
            },
        }
    }

    pub open spec fn browse(self) -> LogsScreenModel {
        match self.typed_connection() {
            None => self.error("Select a valid connection (use the dropdown)"@),
            Some(conn) => {
                let path = self.viewer_tab.browse_start();
                self.with_browser(
                    Some(
                        RemoteBrowserModel {
                            path,
                            entries: Seq::empty(),
                            selected: 0,
                            loading: true,
                            error: None,
                        },
                    ),
                ).ask(RequestModel::ListDir { conn, path })
            },
        }
    }

    pub open spec fn conn_done(self, a: ConnActionModel) -> LogsScreenModel {
        match a {
            ConnActionModel::Nothing => self,
            ConnActionModel::ListHosts => self.ask(RequestModel::ListHosts),
            ConnActionModel::BrowseKey(p) => self.ask(RequestModel::BrowseKey(p)),
            ConnActionModel::ReadDir(p) => self.ask(RequestModel::ReadDir(p)),
            ConnActionModel::Save => self.save_connection(),
            ConnActionModel::Delete => self.delete_connection(),
            ConnActionModel::Test => self.test_connection(),
            ConnActionModel::ScrollHistory(up) => self.with_log(self.log.scrolled(up)),
        }
    }

    pub open spec fn viewer_done(self, a: ViewerAction) -> LogsScreenModel {
        match a {
            ViewerAction::Nothing => self,
            ViewerAction::Browse => self.browse(),
            ViewerAction::Fetch => self.fetch(),
            ViewerAction::ScrollHistory(up) => self.with_log(self.log.scrolled(up)),
        }
    }

    // ------------------------------------------------------- keys and mouse

    pub open spec fn on_connections_key(self, key: KeyCode) -> LogsScreenModel {
        let r = self.connections_tab.on_key(key, self.cfg.connections, self.extra());
        self.with_conn(r.0).conn_done(r.1)
    }

    pub open spec fn on_viewer_key(self, key: KeyCode) -> LogsScreenModel {
        let r = self.viewer_tab.on_key(key, self.priorities.len() as int, self.found());
        self.with_viewer(r.0).viewer_done(r.1)
    }

    /// Enter on an entry of the browser: a directory is opened, a file taken.
    pub open spec fn browser_enter(self, b: RemoteBrowserModel) -> LogsScreenModel {
        if 0 <= b.selected < b.entries.len() {
            let path = crate::remote_path::joined(b.path, b.entries[b.selected].name);
            if b.entries[b.selected].is_dir {
                match self.typed_connection() {
                    None => self.with_browser(None).error("Select a valid connection (use the dropdown)"@),
                    Some(conn) => self.with_browser(Some(RemoteBrowserModel { loading: true, ..b })).ask(
                        RequestModel::ListDir { conn, path },
                    ),
                }
            } else {
                self.with_viewer(
                    ViewerTabModel { path: InputModel::of(path), browser: None, ..self.viewer_tab },
                )
            }
        } else {
            self
        }
    }

    pub open spec fn on_browser_key(self, b: RemoteBrowserModel, key: KeyCode) -> LogsScreenModel {
        let n = b.entries.len() as int;
        match key {
            KeyCode::Esc => self.with_browser(None),
            KeyCode::Up => self.with_browser(
                Some(RemoteBrowserModel { selected: cycle::moved(b.selected, true, n), ..b }),
            ),
            KeyCode::Down => self.with_browser(
                Some(RemoteBrowserModel { selected: cycle::moved(b.selected, false, n), ..b }),
            ),
            KeyCode::Enter => self.browser_enter(b),
            _ => self,
        }
    }

    /// A click on a row of the browser does what Enter on it does.
    pub open spec fn on_browser_mouse(self, b: RemoteBrowserModel, me: MouseEvent, list: Rect) -> LogsScreenModel {
        match mouse::clicked(me) {
            Some((x, y)) => match mouse::list_hit(x, y, list, b.entries.len() as int, b.selected) {
                Some(i) => {
                    let c = RemoteBrowserModel { selected: i as int, ..b };
                    self.with_browser(Some(c)).browser_enter(c)
                },
                None => self,
            },
            None => self,
        }
    }

    /// The screen after a key, and whether the key leaves it.
    pub open spec fn on_key(self, key: KeyEvent) -> (LogsScreenModel, bool) {
        if self.log.alert is Some {
            (if log::closes_alert(key.code) {
                self.with_log(self.log.dismissed())
            } else {
                self
            }, false)
        } else if key.chord('c') {
            (self, true)
        } else if key.chord('y') {
            (self.ask(RequestModel::CopyHistory), false)
        } else if log::scrolls_history(key) {
            (self.with_log(self.log.scrolled(key.code == KeyCode::Up)), false)
        } else {
            match self.viewer_tab.browser {
                Some(b) => (self.on_browser_key(b, key.code), false),
                None => if key.code == KeyCode::Esc && !self.viewer_tab.connection_dropdown_open
                    && self.connections_tab.key_picker is None && self.connections_tab.host_picker is None {
                    (self, true)
                } else if key.code == KeyCode::F(1) {
                    (self.on_tab(Tab::Connections), false)
                } else if key.code == KeyCode::F(2) {
                    (self.on_tab(Tab::Viewer), false)
                } else {
                    (match self.tab {
                        Tab::Connections => self.on_connections_key(key.code),
                        Tab::Viewer => self.on_viewer_key(key.code),
                    }, false)
                },
            }
        }
    }

    pub open spec fn on_connections_mouse(self, me: MouseEvent, l: LogsLayoutModel) -> LogsScreenModel {
        let r = self.connections_tab.on_mouse(me, l, self.cfg.connections, self.extra());
        self.with_conn(r.0).conn_done(r.1)
    }

    pub open spec fn on_viewer_mouse(self, me: MouseEvent, l: LogsLayoutModel) -> LogsScreenModel {
        match self.viewer_tab.browser {
            Some(b) => self.on_browser_mouse(b, me, l.keys[0]),
            None => {
                let r = self.viewer_tab.on_mouse(me, l);
                self.with_viewer(r.0).viewer_done(r.1)
            },
        }
    }

    /// The tab whose label a click hits.
    pub open spec fn tab_hit(me: MouseEvent, l: LogsLayoutModel) -> Option<usize> {
        match mouse::clicked(me) {
            Some((x, y)) => mouse::label_hit(x, y, l.screen[0], tab_labels()),
            None => None,
        }
    }

    /// The screen after a mouse event. A message box is dismissed by a click.
    pub open spec fn on_mouse(self, me: MouseEvent, l: LogsLayoutModel) -> LogsScreenModel {
        if self.log.alert is Some {
            if mouse::clicked(me) is Some {
                self.with_log(self.log.dismissed())
            } else {
                self
            }
        } else {
            match LogsScreenModel::tab_hit(me, l) {
                Some(i) => self.on_tab(
                    if i == 0 {
                        Tab::Connections
                    } else {
                        Tab::Viewer
                    },
                ),
                None => match self.tab {
                    Tab::Connections => self.on_connections_mouse(me, l),
                    Tab::Viewer => self.on_viewer_mouse(me, l),
                },
            }
        }
    }

    // ------------------------------------------------------------- messages

    /// The viewer after a fetch that ended at `now`.
    pub open spec fn fetch_ended(self, now: u64) -> ViewerTabModel {
        ViewerTabModel { fetching: false, last_fetch: Some(now), ..self.viewer_tab }
    }

    /// What a message changes besides the line it leaves.
    pub open spec fn absorb(self, m: MsgModel, now: u64) -> LogsScreenModel {
        match m {
            MsgModel::Hosts(all) => self.with_conn(
                ConnectionsTabModel { host_picker: Some(HostPickerModel::over(all)), ..self.connections_tab },
            ),
            MsgModel::HostsFailed(e) => self.with_conn(
                ConnectionsTabModel { host_picker: Some(HostPickerModel::failed(e)), ..self.connections_tab },
            ),
            MsgModel::KeyDir { listing, preselect } => self.with_conn(
                ConnectionsTabModel {
                    key_picker: Some(FilePickerModel::opened(listing, preselect)),
                    ..self.connections_tab
                },
            ),
            MsgModel::DirRead(listing) => if self.connections_tab.key_picker is Some {
                self.with_conn(
                    ConnectionsTabModel {
                        key_picker: Some(FilePickerModel::reloaded(listing)),
                        ..self.connections_tab
                    },
                )
            } else {
                self
            },
            MsgModel::Saved(cfg) => LogsScreenModel { cfg, connections_tab: self.connections_tab.cleared(), ..self },
            MsgModel::SaveFailed { cfg, error } => LogsScreenModel { cfg, ..self }.error(error),
            MsgModel::Deleted { cfg, label } => LogsScreenModel {
                cfg,
                connections_tab: ConnectionsTabModel { table_idx: 0, ..self.connections_tab.cleared() },
                ..self
            },
            MsgModel::DeleteFailed { cfg, error } => LogsScreenModel { cfg, ..self }.error(error),
            MsgModel::Fetched(lines) => self.with_viewer(
                ViewerTabModel { log_lines: lines, scroll: 0, ..self.fetch_ended(now) },
            ),
            MsgModel::FetchFailed(_) => self.with_viewer(self.fetch_ended(now)),
            MsgModel::Listed { path, entries } => if self.viewer_tab.browser is Some {
                self.with_browser(
                    Some(
                        RemoteBrowserModel {
                            path,
                            entries: browser_rows(path, entries),
                            selected: 0,
                            loading: false,
                            error: None,
                        },
                    ),
                )
            } else {
                self
            },
            MsgModel::ListFailed(e) => match self.viewer_tab.browser {
                Some(b) => self.with_browser(
                    Some(RemoteBrowserModel { loading: false, error: Some(text::single_line(e)), ..b }),
                ),
                None => self,
            },
            MsgModel::HistoryCopied(ok) => self.with_log(self.log.copied(ok)),
            _ => self,
        }
    }

    pub open spec fn on_msg(self, m: MsgModel, now: u64) -> LogsScreenModel {
        match m.line() {
            Some((ok, line)) => self.absorb(m, now).note(ok, line),
            None => self.absorb(m, now),
        }
    }

    /// The screen after messages, in their order.
    pub open spec fn after(self, msgs: Seq<MsgModel>, now: u64) -> LogsScreenModel
        decreases msgs.len(),
    {
        if msgs.len() == 0 {
            self
        } else {
            self.after(msgs.drop_last(), now).on_msg(msgs.last(), now)
        }
    }

    /// Whether an automatic fetch is due: the refresh is on, none is under
    /// way, the last one is long enough ago, and a connection is typed.
    pub open spec fn refresh_due(self, now: u64) -> bool {
        let vt = self.viewer_tab;
        &&& vt.auto_refresh
        &&& !vt.fetching
        &&& vt.connection_input.trimmed().len() > 0
        &&& match vt.last_fetch {
            Some(t) => now - t >= AUTO_REFRESH_MILLIS,
            None => true,
        }
    }

    /// A tick: messages are taken in, then an automatic fetch starts if one is due.
    pub open spec fn ticked(self, msgs: Seq<MsgModel>, now: u64) -> LogsScreenModel {
        let s = self.after(msgs, now);
        if s.refresh_due(now) {
            s.fetch()
        } else {
            s
        }
    }
}

impl LogsScreen {
    /// A screen over the saved profiles and the known hosts.
    pub fn new(cfg: Config, hosts: Vec<Server>, priorities: Vec<String>) -> (r: LogsScreen)
        requires
            priorities@.len() > 0,
        ensures
            r@ == LogsScreenModel::fresh(cfg@, hosts.deep_view(), priorities.deep_view()),
            r@.wf(),
    {
        let r = LogsScreen {
            tab: Tab::Connections,
            connections_tab: ConnectionsTab::new(),
            viewer_tab: ViewerTab::new(),
            cfg,
            hosts,
            priorities,
            log: Log::new(),
            requests: Vec::new(),
        };
        assert(r@.requests =~= Seq::empty());
        r
    }

    /// Replaces the known hosts.
    pub fn set_hosts(&mut self, hosts: Vec<Server>)
        ensures
            final(self)@ == (LogsScreenModel { hosts: hosts.deep_view(), ..old(self)@ }),
    {
        self.hosts = hosts;
    }

    /// Hands out the queued requests.
    pub fn take_requests(&mut self) -> (r: Vec<Request>)
        ensures
            r.deep_view() == old(self)@.requests,
            final(self)@ == (LogsScreenModel { requests: Seq::empty(), ..old(self)@ }),
    {
        let mut r: Vec<Request> = Vec::new();
        std::mem::swap(&mut r, &mut self.requests);
        assert(self@.requests =~= Seq::empty());
        r
    }

    fn ask(&mut self, r: Request)
        ensures
            final(self)@ == old(self)@.ask(r@),
    {
        append_to(&mut self.requests, r);
    }

    fn error(&mut self, msg: &str)
        ensures
            final(self)@ == old(self)@.error(msg@),
    {
        self.log.error(msg);
    }

    /// Takes in what came of requests, at the time `now` in milliseconds.
    pub fn tick(&mut self, msgs: Vec<Msg>, now: u64)
        requires
            old(self)@.wf(),
        ensures
            final(self)@ == old(self)@.ticked(msgs.deep_view(), now),
            final(self)@.wf(),
    {
        let ghost all = msgs.deep_view();
        let ghost start = self@;
        let mut i: usize = 0;
        assert(all.take(0) =~= Seq::empty());
        while i < msgs.len()
            invariant
                i <= msgs@.len(),
                all == msgs.deep_view(),
                self@ == start.after(all.take(i as int), now),
                self@.wf(),
            decreases msgs@.len() - i,
        {
            proof {
                assert(all.take(i + 1).drop_last() =~= all.take(i as int));
                assert(all.take(i + 1).last() == msgs@[i as int]@);
            }
            self.receive(&msgs[i], now);
            i = i + 1;
        }
        assert(all.take(all.len() as int) =~= all);
        if self.is_refresh_due(now) {
            self.trigger_fetch();
        }
    }

    fn is_refresh_due(&self, now: u64) -> (r: bool)
        ensures
            r == self@.refresh_due(now),
    {
        if !self.viewer_tab.auto_refresh || self.viewer_tab.fetching {
            return false;
        }
        let due = match self.viewer_tab.last_fetch {
            Some(t) => now >= t && now - t >= AUTO_REFRESH_MILLIS,
            None => true,
        };
        let label = self.viewer_tab.connection_input.trimmed();
        due && !label.as_str().is_empty()
    }

    fn receive(&mut self, m: &Msg, now: u64)
        requires
            old(self)@.wf(),
        ensures
            final(self)@ == old(self)@.on_msg(m@, now),
            final(self)@.wf(),
    {
        self.absorb(m, now);
        if let Some((ok, line)) = m.line() {
            self.log.note(ok, line);
        }
    }

    fn absorb(&mut self, m: &Msg, now: u64)
        requires
            old(self)@.wf(),
        ensures
            final(self)@ == old(self)@.absorb(m@, now),
            final(self)@.wf(),
    {
        match m {
            Msg::Hosts(all) => self.connections_tab.host_picker = Some(HostPicker::new(Ok(all.copy()))),
            Msg::HostsFailed(e) => self.connections_tab.host_picker = Some(HostPicker::new(Err(e.clone()))),
            Msg::KeyDir { listing, preselect } => {
                self.connections_tab.key_picker = Some(FilePicker::new(listing, preselect.copy()));
            },
            Msg::DirRead(listing) => {
                if self.connections_tab.key_picker.is_some() {
                    self.connections_tab.key_picker = Some(FilePicker::new(listing, None));
                }
            },
            Msg::Saved(cfg) => {
                self.cfg = cfg.copy();
                self.connections_tab.clear_form();
            },
            Msg::SaveFailed { cfg, error } => {
                self.cfg = cfg.copy();
                self.error(error.as_str());
            },
            Msg::Deleted { cfg, label: _ } => {
                self.cfg = cfg.copy();
                self.connections_tab.clear_form();
                self.connections_tab.table_idx = 0;
            },
            Msg::DeleteFailed { cfg, error } => {
                self.cfg = cfg.copy();
                self.error(error.as_str());
            },
            Msg::Fetched(lines) => {
                self.viewer_tab.fetching = false;
                self.viewer_tab.last_fetch = Some(now);
                self.viewer_tab.log_lines = lines.copy();
                self.viewer_tab.scroll = 0;
            },
            Msg::FetchFailed(_) => {
                self.viewer_tab.fetching = false;
                self.viewer_tab.last_fetch = Some(now);
            },
            Msg::Listed { path, entries } => {
                if self.viewer_tab.browser.is_some() {
                    self.viewer_tab.browser = Some(
                        RemoteBrowser {
                            path: path.clone(),
                            entries: rows_of_listing(path.as_str(), entries),
                            selected: 0,
                            loading: false,
                            error: None,
                        },
                    );
                }
            },
            Msg::ListFailed(e) => {
                if let Some(b) = &mut self.viewer_tab.browser {
                    b.loading = false;
                    b.error = Some(text::one_line(e.as_str()));
                }
            },
            Msg::HistoryCopied(ok) => self.log.copied(*ok),
            _ => {},
        }
    }

    pub fn connection_by_label(&self, label: &str) -> (r: Option<ConnectionWithSecrets>)
        ensures
            r.deep_view() == self@.connection_by_label(label@),
    {
        match self.cfg.find_label(label) {
            Some(c) => self.cfg.with_secrets(c.id.as_str()),
            None => match find_alias(&self.hosts, label) {
                Some(s) => Some(as_connection(s)),
                None => None,
            },
        }
    }

    fn typed_connection(&self) -> (r: Option<ConnectionWithSecrets>)
        ensures
            r.deep_view() == self@.typed_connection(),
    {
        let label = self.viewer_tab.connection_input.trimmed();
        self.connection_by_label(label.as_str())
    }

    // ------------------------------------------------------------- actions

    pub fn trigger_save_connection(&mut self)
        ensures
            final(self)@ == old(self)@.save_connection(),
    {
        let input = self.connections_tab.as_input();
        if input.label.as_str().is_empty() || input.host.as_str().is_empty() || input.ssh_user.as_str().is_empty() {
            self.error("Label, Host and SSH User are required");
            return;
        }
        let existing = match self.connections_tab.selected {
            Some(i) => match self.cfg.get(i) {
                Some(c) => Some(c.id.clone()),
                None => None,
            },
            None => None,
        };
        self.ask(Request::SaveConnection { existing, input });
    }

    pub fn trigger_delete_connection(&mut self)
        ensures
            final(self)@ == old(self)@.delete_connection(),
    {
        let idx: usize = match self.connections_tab.selected {
            Some(i) => i,
            None => {
                if self.cfg.connections.len() == 0 {
                    self.error("No connection selected");
                    return;
                }
                self.connections_tab.table_idx
            },
        };
        if let Some(c) = self.cfg.get(idx) {
            let id = c.id.clone();
            let label = c.label.clone();
            self.ask(Request::DeleteConnection { id, label });
        }
    }

    fn saved_password(&self) -> (r: String)
        ensures
            r@ == self@.saved_password(),
    {
        if let Some(i) = self.connections_tab.selected {
            if let Some(c) = self.cfg.get(i) {
                if let Some(s) = self.cfg.with_secrets(c.id.as_str()) {
                    return s.ssh_password;
                }
            }
        }
        String::new()
    }

    pub fn trigger_test_connection(&mut self)
        ensures
            final(self)@ == old(self)@.test_connection(),
    {
        let input = self.connections_tab.as_input();
        if input.host.as_str().is_empty() || input.ssh_user.as_str().is_empty() {
            self.error("Host and SSH User are required to test");
            return;
        }
        let ssh_password = if !input.ssh_password.as_str().is_empty() {
            input.ssh_password
        } else {
            self.saved_password()
        };
        self.ask(
            Request::TestConnection(
                ConnectionWithSecrets {
                    id: text::owned("test"),
                    label: input.label,
                    host: input.host,
                    ssh_port: input.ssh_port,
                    ssh_user: input.ssh_user,
                    ssh_key_path: input.ssh_key_path,
                    ssh_password,
                },
            ),
        );
    }

    pub fn trigger_fetch(&mut self)
        ensures
            final(self)@ == old(self)@.fetch(),
            final(self)@.viewer_tab.priority_idx == old(self)@.viewer_tab.priority_idx,
    {
        match self.typed_connection() {
            None => self.error("Select a valid connection (use the dropdown)"),
            Some(conn) => {
                let params = self.viewer_tab.params();
                if !params.journal && params.path.as_str().is_empty() {
                    self.error("File Path is required in File mode");
                    return;
                }
                self.viewer_tab.fetching = true;
                self.ask(Request::Fetch { conn, params });
            },
        }
    }

    pub fn trigger_browse(&mut self)
        ensures
            final(self)@ == old(self)@.browse(),
            final(self)@.viewer_tab.priority_idx == old(self)@.viewer_tab.priority_idx,
    {
        match self.typed_connection() {
            None => self.error("Select a valid connection (use the dropdown)"),
            Some(conn) => {
                let path = self.viewer_tab.browse_start();
                let b = RemoteBrowser {
                    path: path.clone(),
                    entries: Vec::new(),
                    selected: 0,
                    loading: true,
                    error: None,
                };
                assert(b@.entries =~= Seq::empty());
                self.viewer_tab.browser = Some(b);
                self.ask(Request::ListDir { conn, path });
            },
        }
    }

    fn do_conn(&mut self, a: ConnAction)
        ensures
            final(self)@ == old(self)@.conn_done(a@),
            final(self)@.viewer_tab == old(self)@.viewer_tab,
            final(self)@.priorities == old(self)@.priorities,
    {
        match a {
            ConnAction::Nothing => {},
            ConnAction::ListHosts => self.ask(Request::ListHosts),
            ConnAction::BrowseKey(p) => self.ask(Request::BrowseKey(p)),
            ConnAction::ReadDir(p) => self.ask(Request::ReadDir(p)),
            ConnAction::Save => self.trigger_save_connection(),
            ConnAction::Delete => self.trigger_delete_connection(),
            ConnAction::Test => self.trigger_test_connection(),
            ConnAction::ScrollHistory(up) => self.log.scroll_by(up),
        }
    }

    fn do_viewer(&mut self, a: ViewerAction)
        ensures
            final(self)@ == old(self)@.viewer_done(a),
            final(self)@.viewer_tab.priority_idx == old(self)@.viewer_tab.priority_idx,
            final(self)@.priorities == old(self)@.priorities,
    {
        match a {
            ViewerAction::Nothing => {},
            ViewerAction::Browse => self.trigger_browse(),
            ViewerAction::Fetch => self.trigger_fetch(),
            ViewerAction::ScrollHistory(up) => self.log.scroll_by(up),
        }
    }

    // ---------------------------------------------------------------- keys

    pub fn handle_key(&mut self, key: KeyEvent) -> (leave: bool)
        requires
            old(self)@.wf(),
        ensures
            (final(self)@, leave) == old(self)@.on_key(key),
            final(self)@.wf(),
    {
        if self.log.alert.is_some() {
            if is_closing(key.code) {
                self.log.dismiss();
            }
            return false;
        }
        if key.is_chord('c') {
            return true;
        }
        if key.is_chord('y') {
            self.ask(Request::CopyHistory);
            return false;
        }
        if is_history_scroll(&key) {
            self.log.scroll_by(key.code == KeyCode::Up);
            return false;
        }
        if self.viewer_tab.browser.is_some() {
            self.handle_browser_key(key.code);
            return false;
        }
        match key.code {
            KeyCode::Esc => if !self.viewer_tab.connection_dropdown_open && self.connections_tab.key_picker.is_none()
                && self.connections_tab.host_picker.is_none() {
                return true;
            },
            KeyCode::F(n) => if n == 1 {
                self.tab = Tab::Connections;
                return false;
            } else if n == 2 {
                self.tab = Tab::Viewer;
                return false;
            },
            _ => {},
        }
        match self.tab {
            Tab::Connections => self.handle_connections_key(key.code),
            Tab::Viewer => self.handle_viewer_key(key.code),
        }
        false
    }

    pub fn handle_connections_key(&mut self, key: KeyCode)
        ensures
            final(self)@ == old(self)@.on_connections_key(key),
            final(self)@.viewer_tab == old(self)@.viewer_tab,
            final(self)@.priorities == old(self)@.priorities,
    {
        let extra = known_ssh_extras(&self.cfg.connections, &self.hosts);
        let a = self.connections_tab.handle_key(key, &self.cfg.connections, &extra);
        self.do_conn(a);
    }

    pub fn handle_viewer_key(&mut self, key: KeyCode)
        requires
            old(self)@.wf(),
        ensures
            final(self)@ == old(self)@.on_viewer_key(key),
            final(self)@.wf(),
    {
        let typed = self.viewer_tab.connection_input.value();
        let found = filtered_connections(&self.cfg, &self.hosts, typed.as_str());
        let n: usize = self.priorities.len();
        let a = self.viewer_tab.handle_key(key, n, &found);
        self.do_viewer(a);
    }

    pub fn handle_browser_key(&mut self, key: KeyCode)
        ensures
            match old(self)@.viewer_tab.browser {
                Some(b) => final(self)@ == old(self)@.on_browser_key(b, key),
                None => final(self)@ == old(self)@,
            },
            final(self)@.viewer_tab.priority_idx == old(self)@.viewer_tab.priority_idx,
            final(self)@.priorities == old(self)@.priorities,
    {
        if self.viewer_tab.browser.is_none() {
            return;
        }
        match key {
            KeyCode::Esc => self.viewer_tab.browser = None,
            KeyCode::Up => {
                if let Some(b) = &mut self.viewer_tab.browser {
                    b.selected = cycle::step(b.selected, true, b.entries.len());
                }
            },
            KeyCode::Down => {
                if let Some(b) = &mut self.viewer_tab.browser {
                    b.selected = cycle::step(b.selected, false, b.entries.len());
                }
            },
            KeyCode::Enter => self.enter_browser(),
            _ => {},
        }
    }

    fn enter_browser(&mut self)
        requires
            old(self)@.viewer_tab.browser is Some,
        ensures
            final(self)@ == old(self)@.browser_enter(old(self)@.viewer_tab.browser->0),
            final(self)@.viewer_tab.priority_idx == old(self)@.viewer_tab.priority_idx,
            final(self)@.priorities == old(self)@.priorities,
    {
        let (path, is_dir) = match &self.viewer_tab.browser {
            Some(b) => {
                let i: usize = b.selected;
                if i >= b.entries.len() {
                    return;
                }
                assert(b@.entries[i as int] == b.entries@[i as int]@);
                (crate::remote_path::join_remote_path(b.path.as_str(), b.entries[i].name.as_str()), b.entries[i].is_dir)
            },
            None => {
                return;
            },
        };
        if is_dir {
            match self.typed_connection() {
                None => {
                    self.viewer_tab.browser = None;
                    self.error("Select a valid connection (use the dropdown)");
                },
                Some(conn) => {
                    if let Some(b) = &mut self.viewer_tab.browser {
                        b.loading = true;
                    }
                    self.ask(Request::ListDir { conn, path });
                },
            }
        } else {
            self.viewer_tab.path = Input::new(path.as_str());
            self.viewer_tab.browser = None;
        }
    }

    // --------------------------------------------------------------- mouse

    /// The rectangles that the screen is drawn into.
    pub fn layout(&self, area: Rect) -> (l: LogsLayout)
        ensures
            l@.of(area, self@.viewer_tab.journal),
            l@.complete_conn(),
            l@.complete_viewer(self@.viewer_tab.journal),
    {
        let cs = vec![Constraint::Length(1), Constraint::Min(0)];
        assert(cs@ =~= screen_rows());
        let screen = split_rows(area, 0, &cs);
        let cs = vec![Constraint::Min(0), Constraint::Length(22), Constraint::Length(6)];
        assert(cs@ =~= conn_rows());
        let conn = split_rows(screen[1], 0, &cs);
        let form = split_rows(mouse::block_inner(conn[1]), 1, &line_constraints(16));
        let (lines, height) = viewer_form_constraints(self.viewer_tab.journal);
        let cs = vec![Constraint::Length(height), Constraint::Min(10), Constraint::Length(6)];
        assert(cs@ =~= viewer_rows(self.viewer_tab.journal));
        let viewer = split_rows(screen[1], 0, &cs);
        let filters = split_rows(mouse::block_inner(viewer[0]), 1, &lines);
        let hosts = HostPicker::rows(screen[1]);
        let keys = FilePicker::rows(screen[1]);
        LogsLayout { screen, conn, form, viewer, filters, hosts, keys }
    }

    /// A mouse event on a screen drawn into the rectangles of [`Self::layout`].
    pub fn handle_mouse(&mut self, me: MouseEvent, area: Rect)
        requires
            old(self)@.wf(),
        ensures
            exists|l: LogsLayoutModel| #[trigger]
                l.of(area, old(self)@.viewer_tab.journal) && final(self)@ == old(self)@.on_mouse(me, l),
            final(self)@.wf(),
    {
        let l = self.layout(area);
        self.mouse_on(me, &l);
    }

    /// A mouse event on a screen drawn into these rectangles.
    pub fn mouse_on(&mut self, me: MouseEvent, l: &LogsLayout)
        requires
            old(self)@.wf(),
            l@.complete_conn(),
            l@.complete_viewer(old(self)@.viewer_tab.journal),
        ensures
            final(self)@ == old(self)@.on_mouse(me, l@),
            final(self)@.wf(),
    {
        if self.log.alert.is_some() {
            if mouse::left_click(&me).is_some() {
                self.log.dismiss();
            }
            return;
        }
        if let Some((x, y)) = mouse::left_click(&me) {
            let labels = ["F1 Connections", "F2 Viewer"];
            assert(labels.deep_view() =~= tab_labels());
            if let Some(i) = mouse::label_row_hit(x, y, l.screen[0], &labels) {
                self.tab = if i == 0 {
                    Tab::Connections
                } else {
                    Tab::Viewer
                };
                return;
            }
        }
        match self.tab {
            Tab::Connections => self.handle_connections_mouse(me, l),
            Tab::Viewer => self.handle_viewer_mouse(me, l),
        }
    }

    pub fn handle_connections_mouse(&mut self, me: MouseEvent, l: &LogsLayout)
        requires
            l@.complete_conn(),
        ensures
            final(self)@ == old(self)@.on_connections_mouse(me, l@),
            final(self)@.viewer_tab == old(self)@.viewer_tab,
            final(self)@.priorities == old(self)@.priorities,
    {
        let extra = known_ssh_extras(&self.cfg.connections, &self.hosts);
        let a = self.connections_tab.handle_mouse(&me, l, &self.cfg.connections, &extra);
        self.do_conn(a);
    }

    pub fn handle_viewer_mouse(&mut self, me: MouseEvent, l: &LogsLayout)
        requires
            l@.complete_viewer(old(self)@.viewer_tab.journal),
        ensures
            final(self)@ == old(self)@.on_viewer_mouse(me, l@),
            final(self)@.viewer_tab.priority_idx == old(self)@.viewer_tab.priority_idx,
            final(self)@.priorities == old(self)@.priorities,
    {
        if self.viewer_tab.browser.is_some() {
            self.handle_browser_mouse(me, l.keys[0]);
            return;
        }
        let a = self.viewer_tab.handle_mouse(&me, l);
        self.do_viewer(a);
    }

    pub fn handle_browser_mouse(&mut self, me: MouseEvent, list: Rect)
        ensures
            match old(self)@.viewer_tab.browser {
                Some(b) => final(self)@ == old(self)@.on_browser_mouse(b, me, list),
                None => final(self)@ == old(self)@,
            },
            final(self)@.viewer_tab.priority_idx == old(self)@.viewer_tab.priority_idx,
            final(self)@.priorities == old(self)@.priorities,
    {
        let Some((x, y)) = mouse::left_click(&me) else {
            return;
        };
        let mut hit = false;
        if let Some(b) = &mut self.viewer_tab.browser {
            if let Some(i) = mouse::list_row_hit(x, y, list, b.entries.len(), b.selected) {
                b.selected = i;
                hit = true;
            }
        }
        if hit {
            self.enter_browser();
        }
    }
}

} // verus!
