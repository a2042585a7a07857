//! What all tools have in common: how they start, the keys that all of them
//! know, how they take answers, and the way through their forms.
use crate::clickhouse_screen;
use crate::clickhouse_screen::ClickHouseScreenModel;
use crate::cloudflare_screen;
use crate::cloudflare_screen::CloudflareScreenModel;
use crate::config_check_screen;
use crate::config_check_screen::ConfigCheckScreenModel;
use crate::cycle;
use crate::easyssh_screen;
use crate::easyssh_screen::{EasySshScreenModel, ModalModel};
use crate::event::{KeyCode, KeyEvent};
use crate::file_picker::{FilePickerModel, ListingModel};
use crate::host_picker::HostPickerModel;
use crate::kerneltune_screen;
use crate::kerneltune_screen::KernelTuneScreenModel;
use crate::log::LogModel;
use crate::logs_screen;
use crate::logs_screen::{LogsScreenModel, ViewerField};
use crate::servers::ServerModel;
use crate::target;
use crate::target::{TargetField, TargetTabModel};
use vstd::prelude::*;

verus! {

// -------------------------------------------------------------------- start

/// Nothing is told yet.
pub open spec fn nothing_told(l: LogModel) -> bool {
    l.history.len() == 0 && l.alert is None && l.scroll == 0
}

/// Every tool starts with its first tab and what it was given, with nothing
/// told. The host manager asks for its hosts, the others ask for nothing.
pub proof fn tools_start_with_what_they_were_given(
    accounts: cloudflare_screen::ConfigModel,
    servers: clickhouse_screen::ConfigModel,
    tags: Seq<Seq<char>>,
    profiles: logs_screen::ConfigModel,
    hosts: Seq<ServerModel>,
    priorities: Seq<Seq<char>>,
    catalog: kerneltune_screen::CatalogModel,
    entries: Seq<kerneltune_screen::HistoryEntryModel>,
)
    ensures
        ({
            let s = EasySshScreenModel::fresh();
            &&& s.tab == easyssh_screen::Tab::Servers
            &&& s.focus == easyssh_screen::Focus::List
            &&& s.modal is None && s.pending_action is None
            &&& s.requests == seq![easyssh_screen::RequestModel::Refresh { told: false }]
            &&& nothing_told(s.log)
        }),
        ({
            let s = CloudflareScreenModel::fresh(accounts);
            &&& s.cfg == accounts
            &&& s.tab == cloudflare_screen::Tab::Accounts
            &&& s.requests.len() == 0
            &&& nothing_told(s.log)
        }),
        ({
            let s = ClickHouseScreenModel::fresh(servers, tags);
            &&& s.cfg == servers && s.tag_modes == tags
            &&& s.tab == clickhouse_screen::Tab::Connections
            &&& s.requests.len() == 0
            &&& nothing_told(s.log)
        }),
        ({
            let s = LogsScreenModel::fresh(profiles, hosts, priorities);
            &&& s.cfg == profiles && s.hosts == hosts && s.priorities == priorities
            &&& s.tab == logs_screen::Tab::Connections
            &&& s.viewer_tab.journal && !s.viewer_tab.auto_refresh && !s.viewer_tab.fetching
            &&& s.viewer_tab.lines.text == "200"@
            &&& s.viewer_tab.path.text == "/var/log/syslog"@
            &&& s.connections_tab.ssh_port.text == "22"@
            &&& s.requests.len() == 0
            &&& nothing_told(s.log)
        }),
        ({
            let s = KernelTuneScreenModel::fresh(catalog, entries);
            &&& s.catalog == catalog && s.history_entries == entries
            &&& s.tab == kerneltune_screen::Tab::Target
            &&& s.staged.len() == 0 && s.target_label.len() == 0 && s.confirm_apply is None
            &&& !s.target_tab.is_remote && s.target_tab.ssh_port.text == "22"@
            &&& s.requests.len() == 0
            &&& nothing_told(s.log)
        }),
        ({
            let s = ConfigCheckScreenModel::fresh();
            &&& s.tab == config_check_screen::Tab::Target
            &&& s.connected_label is None && s.check_tab.result is None
            &&& s.check_tab.format_choice == config_check_screen::FormatChoice::Auto
            &&& s.requests.len() == 0
            &&& nothing_told(s.log)
        }),
{
}

// -------------------------------------------------------------- common keys

/// The key that copies the history.
pub open spec fn copy_key() -> KeyEvent {
    KeyEvent { code: KeyCode::Char('y'), control: true }
}

/// The keys that scroll the history, up or down.
pub open spec fn scroll_key(up: bool) -> KeyEvent {
    KeyEvent {
        code: if up {
            KeyCode::Up
        } else {
            KeyCode::Down
        },
        control: true,
    }
}

/// In every tool Control and Y copies the history.
pub proof fn the_history_is_copied_by_its_key(
    e: EasySshScreenModel,
    c: CloudflareScreenModel,
    h: ClickHouseScreenModel,
    l: LogsScreenModel,
    k: KernelTuneScreenModel,
    f: ConfigCheckScreenModel,
)
    ensures
        e.on_key(copy_key()) == (EasySshScreenModel {
            requests: e.requests.push(easyssh_screen::RequestModel::CopyHistory),
            ..e
        }, false),
        c.log.alert is None ==> c.on_key(copy_key()) == (CloudflareScreenModel {
            requests: c.requests.push(cloudflare_screen::RequestModel::CopyHistory),
            ..c
        }, false),
        h.log.alert is None ==> h.on_key(copy_key()) == (ClickHouseScreenModel {
            requests: h.requests.push(clickhouse_screen::RequestModel::CopyHistory),
            ..h
        }, false),
        l.log.alert is None ==> l.on_key(copy_key()) == (LogsScreenModel {
            requests: l.requests.push(logs_screen::RequestModel::CopyHistory),
            ..l
        }, false),
        k.log.alert is None && k.confirm_apply is None ==> k.on_key(copy_key()) == (KernelTuneScreenModel {
            requests: k.requests.push(kerneltune_screen::RequestModel::CopyHistory),
            ..k
        }, false),
        f.log.alert is None && !f.check_tab.confirm_fix && !f.check_tab.show_results ==> f.on_key(copy_key()) == (
            ConfigCheckScreenModel {
                requests: f.requests.push(config_check_screen::RequestModel::CopyHistory),
                ..f
            },
            false,
        ),
{
}

/// In the tools with a history that scrolls by keys, Control and the arrows
/// scroll it in their direction.
pub proof fn the_history_is_scrolled_by_its_keys(
    e: EasySshScreenModel,
    c: CloudflareScreenModel,
    h: ClickHouseScreenModel,
    l: LogsScreenModel,
    f: ConfigCheckScreenModel,
    up: bool,
)
    ensures
        e.on_key(scroll_key(up)) == (EasySshScreenModel { log: e.log.scrolled(up), ..e }, false),
        c.log.alert is None ==> c.on_key(scroll_key(up)) == (CloudflareScreenModel { log: c.log.scrolled(up), ..c }, false),
        h.log.alert is None ==> h.on_key(scroll_key(up)) == (ClickHouseScreenModel { log: h.log.scrolled(up), ..h }, false),
        l.log.alert is None ==> l.on_key(scroll_key(up)) == (LogsScreenModel { log: l.log.scrolled(up), ..l }, false),
        f.log.alert is None && !f.check_tab.confirm_fix && !f.check_tab.show_results ==> f.on_key(scroll_key(up)) == (
            ConfigCheckScreenModel { log: f.log.scrolled(up), ..f },
            false,
        ),
{
}

/// Esc leaves a tool in which nothing is open.
pub proof fn esc_leaves_a_tool(
    e: EasySshScreenModel,
    c: CloudflareScreenModel,
    l: LogsScreenModel,
    k: KernelTuneScreenModel,
    f: ConfigCheckScreenModel,
)
    ensures
        ({
            let esc = KeyEvent { code: KeyCode::Esc, control: false };
            &&& e.modal is None && e.tab == easyssh_screen::Tab::Servers && e.focus == easyssh_screen::Focus::List
                ==> e.on_key(esc) == (e, true)
            &&& c.log.alert is None && c.records_tab.modal is None && !c.records_tab.account_dropdown_open
                && !c.records_tab.zone_dropdown_open ==> c.on_key(esc) == (c, true)
            &&& l.log.alert is None && l.viewer_tab.browser is None && !l.viewer_tab.connection_dropdown_open
                && l.connections_tab.key_picker is None && l.connections_tab.host_picker is None ==> l.on_key(esc) == (
                l,
                true,
            )
            &&& k.log.alert is None && k.confirm_apply is None && k.catalog_tab.detail is None
                && !k.target_tab.picking() ==> k.on_key(esc) == (k, true)
            &&& f.log.alert is None && !f.check_tab.confirm_fix && !f.check_tab.show_results && f.check_tab.browser
                is None && !f.target_tab.picking() ==> f.on_key(esc) == (f, true)
        }),
{
}

// ------------------------------------------------------------------ answers

/// Whether the line of an answer is told behind those that were told.
pub open spec fn line_told(before: LogModel, after: LogModel, line: Option<(bool, Seq<char>)>) -> bool {
    match line {
        Some(l) => after.history.len() > before.history.len() && after.history.last() == l,
        None => true,
    }
}

/// Every answer that has a line tells it.
pub proof fn answers_are_told(
    e: EasySshScreenModel,
    me: easyssh_screen::MsgModel,
    c: CloudflareScreenModel,
    mc: cloudflare_screen::MsgModel,
    h: ClickHouseScreenModel,
    mh: clickhouse_screen::MsgModel,
)
    ensures
        line_told(e.log, e.on_msg(me).log, me.line()),
        line_told(c.log, c.on_msg(mc).log, mc.line()),
        line_told(h.log, h.on_msg(mh).log, mh.line()),
{
}

/// Answers are taken one after the other, in the order in which they came.
pub proof fn answers_are_taken_in_order(
    e: EasySshScreenModel,
    es: Seq<easyssh_screen::MsgModel>,
    me: easyssh_screen::MsgModel,
    c: CloudflareScreenModel,
    cs: Seq<cloudflare_screen::MsgModel>,
    mc: cloudflare_screen::MsgModel,
    h: ClickHouseScreenModel,
    hs: Seq<clickhouse_screen::MsgModel>,
    mh: clickhouse_screen::MsgModel,
)
    ensures
        e.ticked(Seq::empty()) == e,
        e.ticked(es.push(me)) == e.ticked(es).on_msg(me),
        c.ticked(Seq::empty()) == c,
        c.ticked(cs.push(mc)) == c.ticked(cs).on_msg(mc),
        h.after(Seq::empty()) == h,
        h.after(hs.push(mh)) == h.after(hs).on_msg(mh),
{
    assert(es.push(me).drop_last() =~= es);
    assert(cs.push(mc).drop_last() =~= cs);
    assert(hs.push(mh).drop_last() =~= hs);
}

/// The same of the other tools.
pub proof fn other_answers_are_taken_in_order(
    l: LogsScreenModel,
    ls: Seq<logs_screen::MsgModel>,
    ml: logs_screen::MsgModel,
    now: u64,
    k: KernelTuneScreenModel,
    ks: Seq<kerneltune_screen::MsgModel>,
    mk: kerneltune_screen::MsgModel,
    f: ConfigCheckScreenModel,
    fs: Seq<config_check_screen::MsgModel>,
    mf: config_check_screen::MsgModel,
)
    ensures
        l.after(Seq::empty(), now) == l,
        l.after(ls.push(ml), now) == l.after(ls, now).on_msg(ml, now),
        k.ticked(Seq::empty()) == k,
        k.ticked(ks.push(mk)) == k.ticked(ks).on_msg(mk),
        f.ticked(Seq::empty()) == f,
        f.ticked(fs.push(mf)) == f.ticked(fs).on_msg(mf),
{
    assert(ls.push(ml).drop_last() =~= ls);
    assert(ks.push(mk).drop_last() =~= ks);
    assert(fs.push(mf).drop_last() =~= fs);
}

/// Every answer of the logs that has a line tells it.
pub proof fn answers_of_the_logs_are_told(l: LogsScreenModel, m: logs_screen::MsgModel, now: u64)
    ensures
        line_told(l.log, l.on_msg(m, now).log, m.line()),
{
}

/// Every answer of the kernel tuner that has a line tells it.
pub proof fn answers_of_the_tuner_are_told(k: KernelTuneScreenModel, m: kerneltune_screen::MsgModel)
    ensures
        line_told(k.log, k.on_msg(m).log, m.line()),
{
}

/// Every answer of the checker that has a line tells it.
pub proof fn answers_of_the_checker_are_told(f: ConfigCheckScreenModel, m: config_check_screen::MsgModel)
    ensures
        line_told(f.log, f.on_msg(m).log, m.line()),
{
    reveal(ConfigCheckScreenModel::absorb_picker);
    reveal(ConfigCheckScreenModel::checked);
    reveal(ConfigCheckScreenModel::fix_done);
}

/// Known hosts that were listed are offered in a picker; where they could not
/// be listed, the picker says so.
pub proof fn listed_hosts_are_offered(
    h: ClickHouseScreenModel,
    l: LogsScreenModel,
    k: KernelTuneScreenModel,
    f: ConfigCheckScreenModel,
    all: Seq<ServerModel>,
    error: Seq<char>,
    now: u64,
)
    ensures
        h.on_msg(clickhouse_screen::MsgModel::Hosts(all)).connections_tab.host_picker == Some(HostPickerModel::over(all)),
        h.on_msg(clickhouse_screen::MsgModel::HostsFailed(error)).connections_tab.host_picker == Some(
            HostPickerModel::failed(error),
        ),
        l.on_msg(logs_screen::MsgModel::Hosts(all), now).connections_tab.host_picker == Some(HostPickerModel::over(all)),
        l.on_msg(logs_screen::MsgModel::HostsFailed(error), now).connections_tab.host_picker == Some(
            HostPickerModel::failed(error),
        ),
        k.on_msg(kerneltune_screen::MsgModel::Hosts(all)).target_tab == (TargetTabModel {
            host_picker: Some(HostPickerModel::over(all)),
            ..k.target_tab
        }),
        k.on_msg(kerneltune_screen::MsgModel::HostsFailed(error)).target_tab == (TargetTabModel {
            host_picker: Some(HostPickerModel::failed(error)),
            ..k.target_tab
        }),
        f.on_msg(config_check_screen::MsgModel::Hosts(all)).target_tab == (TargetTabModel {
            host_picker: Some(HostPickerModel::over(all)),
            ..f.target_tab
        }),
        f.on_msg(config_check_screen::MsgModel::HostsFailed(error)).target_tab == (TargetTabModel {
            host_picker: Some(HostPickerModel::failed(error)),
            ..f.target_tab
        }),
{
    reveal(ConfigCheckScreenModel::absorb_picker);
}

/// A directory that was read is shown in the picker of keys, with the known
/// file selected; one that was opened there replaces it, where the picker is
/// still open.
pub proof fn read_directories_are_shown(
    h: ClickHouseScreenModel,
    l: LogsScreenModel,
    k: KernelTuneScreenModel,
    f: ConfigCheckScreenModel,
    d: ListingModel,
    pre: Option<Seq<char>>,
    now: u64,
)
    ensures
        ({
            let first = Some(FilePickerModel::opened(d, pre));
            &&& h.on_msg(clickhouse_screen::MsgModel::KeyDir { listing: d, preselect: pre }).connections_tab.key_picker
                == first
            &&& l.on_msg(
                logs_screen::MsgModel::KeyDir { listing: d, preselect: pre },
                now,
            ).connections_tab.key_picker == first
            &&& k.on_msg(kerneltune_screen::MsgModel::KeyDir { listing: d, preselect: pre }).target_tab.key_picker == first
            &&& f.on_msg(config_check_screen::MsgModel::KeyDir { listing: d, preselect: pre }).target_tab.key_picker
                == first
        }),
        ({
            let next = Some(FilePickerModel::opened(d, None));
            &&& h.connections_tab.key_picker is Some ==> h.on_msg(
                clickhouse_screen::MsgModel::DirRead(d),
            ).connections_tab.key_picker == next
            &&& l.connections_tab.key_picker is Some ==> l.on_msg(
                logs_screen::MsgModel::DirRead(d),
                now,
            ).connections_tab.key_picker == next
            &&& k.target_tab.key_picker is Some ==> k.on_msg(
                kerneltune_screen::MsgModel::DirRead(d),
            ).target_tab.key_picker == next
            &&& f.target_tab.key_picker is Some ==> f.on_msg(
                config_check_screen::MsgModel::DirRead(d),
            ).target_tab.key_picker == next
        }),
        h.connections_tab.key_picker is None ==> h.on_msg(clickhouse_screen::MsgModel::DirRead(d)) == h,
        l.connections_tab.key_picker is None ==> l.on_msg(logs_screen::MsgModel::DirRead(d), now) == l,
        k.target_tab.key_picker is None ==> k.on_msg(kerneltune_screen::MsgModel::DirRead(d)) == k,
        f.target_tab.key_picker is None ==> f.on_msg(config_check_screen::MsgModel::DirRead(d)) == f,
{
    reveal(ConfigCheckScreenModel::absorb_picker);
}

/// The same of the form of a host, for as long as it is open.
pub proof fn read_directories_are_shown_in_the_form(
    e: EasySshScreenModel,
    f: easyssh_screen::ServerFormModel,
    d: ListingModel,
    pre: Option<Seq<char>>,
)
    requires
        e.modal == Some(ModalModel::Edit(f)),
    ensures
        e.on_msg(easyssh_screen::MsgModel::KeyDir { listing: d, preselect: pre }) == (EasySshScreenModel {
            modal: Some(
                ModalModel::Edit(
                    easyssh_screen::ServerFormModel { key_picker: Some(FilePickerModel::opened(d, pre)), ..f },
                ),
            ),
            ..e
        }),
        f.key_picker is Some ==> e.on_msg(easyssh_screen::MsgModel::DirRead(d)) == (EasySshScreenModel {
            modal: Some(
                ModalModel::Edit(
                    easyssh_screen::ServerFormModel { key_picker: Some(FilePickerModel::opened(d, None)), ..f },
                ),
            ),
            ..e
        }),
        f.key_picker is None ==> e.on_msg(easyssh_screen::MsgModel::DirRead(d)) == e,
{
}

/// Whether a copy worked is told.
pub proof fn copies_of_the_history_are_told(
    e: EasySshScreenModel,
    c: CloudflareScreenModel,
    h: ClickHouseScreenModel,
    l: LogsScreenModel,
    k: KernelTuneScreenModel,
    f: ConfigCheckScreenModel,
    ok: bool,
    now: u64,
)
    ensures
        e.on_msg(easyssh_screen::MsgModel::HistoryCopied(ok)).log.history.last().0 == ok,
        c.on_msg(cloudflare_screen::MsgModel::HistoryCopied(ok)).log.history.last().0 == ok,
        h.on_msg(clickhouse_screen::MsgModel::HistoryCopied(ok)).log.history.last().0 == ok,
        l.on_msg(logs_screen::MsgModel::HistoryCopied(ok), now).log.history.last().0 == ok,
        k.on_msg(kerneltune_screen::MsgModel::HistoryCopied(ok)).log.history.last().0 == ok,
        f.on_msg(config_check_screen::MsgModel::HistoryCopied(ok)).log.history.last().0 == ok,
{
    reveal(ConfigCheckScreenModel::absorb_picker);
}

// -------------------------------------------------------------------- forms

/// Tab goes through the form of a host from top to bottom.
pub proof fn tab_goes_down_the_form_of_a_host(f: easyssh_screen::ServerFormModel, i: int)
    requires
        f.key_picker is None,
    ensures
        ({
            let order = seq![
                easyssh_screen::EditField::Alias,
                easyssh_screen::EditField::Host,
                easyssh_screen::EditField::User,
                easyssh_screen::EditField::Port,
                easyssh_screen::EditField::SshPassword,
                easyssh_screen::EditField::IdentityFiles,
                easyssh_screen::EditField::ProxyJump,
                easyssh_screen::EditField::LocalForward,
                easyssh_screen::EditField::ForwardAgent,
                easyssh_screen::EditField::Tags,
                easyssh_screen::EditField::Advanced,
                easyssh_screen::EditField::BtnSave,
                easyssh_screen::EditField::BtnCancel,
            ];
            &&& 0 <= i < 12 && f.field == order[i] ==> f.on_key(KeyCode::Tab).0 == (easyssh_screen::ServerFormModel {
                field: order[i + 1],
                ..f
            })
            &&& 0 <= i < 12 && f.field == order[i + 1] ==> f.on_key(KeyCode::BackTab).0 == (
            easyssh_screen::ServerFormModel { field: order[i], ..f })
            &&& f.field == order[12] ==> f.on_key(KeyCode::Tab).0.field == order[0]
        }),
{
}

/// The agent is forwarded by the arrows: unset, yes, no, and round again.
pub proof fn the_agent_is_turned_by_the_arrows(f: easyssh_screen::ServerFormModel)
    requires
        f.key_picker is None,
        f.field == easyssh_screen::EditField::ForwardAgent,
    ensures
        f.forward_agent == easyssh_screen::ForwardAgent::Unset ==> f.on_key(KeyCode::Right).0.forward_agent
            == easyssh_screen::ForwardAgent::Yes,
        f.forward_agent == easyssh_screen::ForwardAgent::Yes ==> f.on_key(KeyCode::Right).0.forward_agent
            == easyssh_screen::ForwardAgent::No,
        f.forward_agent == easyssh_screen::ForwardAgent::No ==> f.on_key(KeyCode::Right).0.forward_agent
            == easyssh_screen::ForwardAgent::Unset,
        f.on_key(KeyCode::Left).0.on_key(KeyCode::Right).0.forward_agent == f.forward_agent,
        f.on_key(KeyCode::Enter).0 == f.on_key(KeyCode::Right).0,
{
}

/// Tab goes through the other forms and windows from top to bottom.
pub proof fn tab_goes_down_the_forms()
    ensures
        ({
            let n = |f: cloudflare_screen::AccField| f.next();
            &&& n(cloudflare_screen::AccField::Table) == cloudflare_screen::AccField::Label
            &&& n(cloudflare_screen::AccField::Label) == cloudflare_screen::AccField::ApiToken
            &&& n(cloudflare_screen::AccField::ApiToken) == cloudflare_screen::AccField::BtnSave
            &&& n(cloudflare_screen::AccField::BtnSave) == cloudflare_screen::AccField::BtnNew
            &&& n(cloudflare_screen::AccField::BtnNew) == cloudflare_screen::AccField::BtnDelete
            &&& n(cloudflare_screen::AccField::BtnDelete) == cloudflare_screen::AccField::BtnTest
            &&& n(cloudflare_screen::AccField::BtnTest) == cloudflare_screen::AccField::Table
        }),
        ({
            let n = |f: cloudflare_screen::RecField| f.next();
            &&& n(cloudflare_screen::RecField::Account) == cloudflare_screen::RecField::Zone
            &&& n(cloudflare_screen::RecField::Zone) == cloudflare_screen::RecField::BtnFetch
            &&& n(cloudflare_screen::RecField::BtnFetch) == cloudflare_screen::RecField::Search
            &&& n(cloudflare_screen::RecField::Search) == cloudflare_screen::RecField::TypeFilter
            &&& n(cloudflare_screen::RecField::TypeFilter) == cloudflare_screen::RecField::BtnFetchAll
            &&& n(cloudflare_screen::RecField::BtnFetchAll) == cloudflare_screen::RecField::Table
            &&& n(cloudflare_screen::RecField::Table) == cloudflare_screen::RecField::BtnAddRecords
            &&& n(cloudflare_screen::RecField::BtnAddRecords) == cloudflare_screen::RecField::Account
        }),
        ({
            let n = |f: clickhouse_screen::UsersField| f.next();
            &&& n(clickhouse_screen::UsersField::Connection) == clickhouse_screen::UsersField::BtnConnect
            &&& n(clickhouse_screen::UsersField::BtnConnect) == clickhouse_screen::UsersField::Table
            &&& n(clickhouse_screen::UsersField::Table) == clickhouse_screen::UsersField::BtnAddUser
            &&& n(clickhouse_screen::UsersField::BtnAddUser) == clickhouse_screen::UsersField::Connection
        }),
        ({
            let n = |f: clickhouse_screen::AddField| f.next();
            &&& n(clickhouse_screen::AddField::Username) == clickhouse_screen::AddField::Password
            &&& n(clickhouse_screen::AddField::Password) == clickhouse_screen::AddField::BtnGenerate
            &&& n(clickhouse_screen::AddField::BtnGenerate) == clickhouse_screen::AddField::Profile
            &&& n(clickhouse_screen::AddField::Profile) == clickhouse_screen::AddField::Ips
            &&& n(clickhouse_screen::AddField::Ips) == clickhouse_screen::AddField::BtnCreate
            &&& n(clickhouse_screen::AddField::BtnCreate) == clickhouse_screen::AddField::BtnCancel
        }),
        ({
            let n = |f: clickhouse_screen::EditField| f.next();
            &&& n(clickhouse_screen::EditField::Password) == clickhouse_screen::EditField::Profile
            &&& n(clickhouse_screen::EditField::Profile) == clickhouse_screen::EditField::Ips
            &&& n(clickhouse_screen::EditField::Ips) == clickhouse_screen::EditField::BtnSave
            &&& n(clickhouse_screen::EditField::BtnSave) == clickhouse_screen::EditField::BtnDelete
            &&& n(clickhouse_screen::EditField::BtnDelete) == clickhouse_screen::EditField::BtnCancel
        }),
        ({
            let n = |f: kerneltune_screen::CatalogField| f.next();
            &&& n(kerneltune_screen::CatalogField::ProfileFilter) == kerneltune_screen::CatalogField::CategoryFilter
            &&& n(kerneltune_screen::CatalogField::CategoryFilter) == kerneltune_screen::CatalogField::Table
            &&& n(kerneltune_screen::CatalogField::Table) == kerneltune_screen::CatalogField::BtnApplyProfile
        }),
        ({
            let n = |f: kerneltune_screen::DetailField| f.next();
            &&& n(kerneltune_screen::DetailField::Value) == kerneltune_screen::DetailField::BtnUseRecommended
            &&& n(kerneltune_screen::DetailField::BtnUseRecommended) == kerneltune_screen::DetailField::BtnStage
            &&& n(kerneltune_screen::DetailField::BtnStage) == kerneltune_screen::DetailField::BtnCancel
        }),
        ({
            let n = |f: kerneltune_screen::ReviewField| f.next();
            &&& n(kerneltune_screen::ReviewField::Table) == kerneltune_screen::ReviewField::BtnPersistAll
            &&& n(kerneltune_screen::ReviewField::BtnPersistAll) == kerneltune_screen::ReviewField::BtnApplyAll
            &&& n(kerneltune_screen::ReviewField::BtnApplyAll) == kerneltune_screen::ReviewField::BtnClearAll
        }),
        ({
            let n = |f: config_check_screen::CheckField| f.next();
            &&& n(config_check_screen::CheckField::Path) == config_check_screen::CheckField::Format
            &&& n(config_check_screen::CheckField::Format) == config_check_screen::CheckField::BtnBrowse
            &&& n(config_check_screen::CheckField::BtnBrowse) == config_check_screen::CheckField::BtnCheck
        }),
{
}

/// The form of a target has a field for each part of the way to a remote host,
/// and none for the machine itself.
pub proof fn the_form_of_a_target_has_these_fields()
    ensures
        target::target_fields(true) == seq![
            TargetField::Mode,
            TargetField::SshHost,
            TargetField::SshPort,
            TargetField::SshUser,
            TargetField::SshKeyPath,
            TargetField::SshPassword,
            TargetField::BtnConnect,
        ],
        target::target_fields(false) == seq![TargetField::Mode, TargetField::BtnConnect],
{
}

/// The form of a ClickHouse connection has the fields that its way needs: the
/// server and a tunnel for SQL, the host and the root tag otherwise.
pub proof fn the_form_of_a_connection_has_the_fields_it_needs(tunnel: bool)
    ensures
        clickhouse_screen::active_fields(true, false) == seq![
            clickhouse_screen::ConnField::Table,
            clickhouse_screen::ConnField::Label,
            clickhouse_screen::ConnField::Mode,
            clickhouse_screen::ConnField::Host,
            clickhouse_screen::ConnField::Port,
            clickhouse_screen::ConnField::DbUser,
            clickhouse_screen::ConnField::DbPassword,
            clickhouse_screen::ConnField::UseTunnel,
            clickhouse_screen::ConnField::BtnSave,
            clickhouse_screen::ConnField::BtnNew,
            clickhouse_screen::ConnField::BtnDelete,
            clickhouse_screen::ConnField::BtnTest,
        ],
        clickhouse_screen::active_fields(true, true) == seq![
            clickhouse_screen::ConnField::Table,
            clickhouse_screen::ConnField::Label,
            clickhouse_screen::ConnField::Mode,
            clickhouse_screen::ConnField::Host,
            clickhouse_screen::ConnField::Port,
            clickhouse_screen::ConnField::DbUser,
            clickhouse_screen::ConnField::DbPassword,
            clickhouse_screen::ConnField::UseTunnel,
            clickhouse_screen::ConnField::SshHost,
            clickhouse_screen::ConnField::SshPort,
            clickhouse_screen::ConnField::SshUser,
            clickhouse_screen::ConnField::SshKeyPath,
            clickhouse_screen::ConnField::SshPassword,
            clickhouse_screen::ConnField::BtnSave,
            clickhouse_screen::ConnField::BtnNew,
            clickhouse_screen::ConnField::BtnDelete,
            clickhouse_screen::ConnField::BtnTest,
        ],
        clickhouse_screen::active_fields(false, tunnel) == seq![
            clickhouse_screen::ConnField::Table,
            clickhouse_screen::ConnField::Label,
            clickhouse_screen::ConnField::Mode,
            clickhouse_screen::ConnField::SshHost,
            clickhouse_screen::ConnField::SshPort,
            clickhouse_screen::ConnField::SshUser,
            clickhouse_screen::ConnField::SshKeyPath,
            clickhouse_screen::ConnField::SshPassword,
            clickhouse_screen::ConnField::TagMode,
            clickhouse_screen::ConnField::BtnSave,
            clickhouse_screen::ConnField::BtnNew,
            clickhouse_screen::ConnField::BtnDelete,
            clickhouse_screen::ConnField::BtnTest,
        ],
{
}

/// The viewer has a field for the time with the journal, and a button to browse
/// with a file.
pub proof fn the_viewer_has_the_fields_it_needs()
    ensures
        logs_screen::viewer_fields(true) == seq![
            ViewerField::Connection,
            ViewerField::Source,
            ViewerField::UnitOrPath,
            ViewerField::Since,
            ViewerField::Priority,
            ViewerField::Lines,
            ViewerField::Search,
            ViewerField::BtnFetch,
            ViewerField::AutoRefresh,
            ViewerField::LogPane,
        ],
        logs_screen::viewer_fields(false) == seq![
            ViewerField::Connection,
            ViewerField::Source,
            ViewerField::UnitOrPath,
            ViewerField::Priority,
            ViewerField::Lines,
            ViewerField::Search,
            ViewerField::BtnBrowse,
            ViewerField::BtnFetch,
            ViewerField::AutoRefresh,
            ViewerField::LogPane,
        ],
{
}

/// Tab gives the focus to the next field of the form, Shift and Tab to the one
/// before.
pub proof fn tab_moves_by_one_field(t: TargetTabModel, i: int)
    requires
        t.host_picker is None,
        t.key_picker is None,
        0 <= i < target::target_fields(t.is_remote).len() - 1,
    ensures
        ({
            let fields = target::target_fields(t.is_remote);
            &&& t.field == fields[i] ==> t.on_key(KeyCode::Tab).0 == (TargetTabModel { field: fields[i + 1], ..t })
            &&& t.field == fields[i + 1] ==> t.on_key(KeyCode::BackTab).0 == (TargetTabModel { field: fields[i], ..t })
        }),
{
    let fields = target::target_fields(t.is_remote);
    assert(fields.no_duplicates());
    cycle::lemma_place_at(fields, i);
    cycle::lemma_place_at(fields, i + 1);
    let n = fields.len() as int;
    assert((i + 1) % n == i + 1) by (nonlinear_arith)
        requires
            0 <= i < n - 1,
    ;
    assert((i + 1 + n - 1) % n == i) by (nonlinear_arith)
        requires
            0 <= i < n - 1,
    ;
}

/// The same in the forms of the logs.
pub proof fn tab_moves_by_one_field_in_the_logs(
    t: logs_screen::ConnectionsTabModel,
    saved: Seq<logs_screen::ConnectionModel>,
    extra: Seq<ServerModel>,
    i: int,
)
    requires
        t.host_picker is None,
        t.key_picker is None,
        0 <= i < logs_screen::conn_fields().len() - 1,
    ensures
        ({
            let fields = logs_screen::conn_fields();
            &&& t.field == fields[i] ==> t.on_key(KeyCode::Tab, saved, extra).0 == (logs_screen::ConnectionsTabModel {
                field: fields[i + 1],
                ..t
            })
            &&& t.field == fields[i + 1] ==> t.on_key(KeyCode::BackTab, saved, extra).0 == (
            logs_screen::ConnectionsTabModel { field: fields[i], ..t })
        }),
{
    let fields = logs_screen::conn_fields();
    assert(fields.no_duplicates());
    cycle::lemma_place_at(fields, i);
    cycle::lemma_place_at(fields, i + 1);
    let n = fields.len() as int;
    assert((i + 1) % n == i + 1) by (nonlinear_arith)
        requires
            0 <= i < n - 1,
    ;
    assert((i + 1 + n - 1) % n == i) by (nonlinear_arith)
        requires
            0 <= i < n - 1,
    ;
}

} // verus!
