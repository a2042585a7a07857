//! What is told names what it is about: the host, user, file or parameter, and
//! what went wrong with it.
use crate::clickhouse_screen;
use crate::cloudflare_screen;
use crate::config_check_screen;
use crate::easyssh_screen;
use crate::easyssh_screen::EasySshScreenModel;
use crate::interactive::SessionEndModel;
use crate::kerneltune_screen;
use crate::kerneltune_screen::{DetailModalModel, KernelTuneScreenModel};
use crate::logs_screen;
use crate::server_list::SortMode;
use crate::servers::ServerModel;
use crate::text;
use crate::text_laws;
use vstd::prelude::*;

verus! {

/// Whether a line is told, as a success or not, with a text in it.
pub open spec fn tells(line: Option<(bool, Seq<char>)>, ok: bool, part: Seq<char>) -> bool {
    match line {
        Some((good, l)) => good == ok && text::occurs(l, part),
        None => false,
    }
}

/// The text of a line that is told.
pub open spec fn told(line: Option<(bool, Seq<char>)>) -> Seq<char> {
    match line {
        Some((good, l)) => l,
        None => Seq::empty(),
    }
}

proof fn lemma_part(whole: Seq<char>, a: Seq<char>, b: Seq<char>, c: Seq<char>)
    requires
        whole == a + b + c,
    ensures
        text::occurs(whole, b),
{
    text_laws::texts_occur_where_they_stand(a, b, c);
}

proof fn lemma_end(a: Seq<char>, b: Seq<char>)
    ensures
        text::occurs(a + b, b),
{
    assert(a + b =~= a + b + Seq::<char>::empty());
    text_laws::texts_occur_where_they_stand(a, b, Seq::empty());
}

proof fn lemma_start(b: Seq<char>, c: Seq<char>)
    ensures
        text::occurs(b + c, b),
{
    assert(b + c =~= Seq::<char>::empty() + b + c);
    text_laws::texts_occur_where_they_stand(Seq::empty(), b, c);
}

/// What is told of a host names it, and what went wrong.
pub proof fn the_host_manager_names_the_host(m: easyssh_screen::MsgModel)
    ensures
        m matches easyssh_screen::MsgModel::Saved(alias) ==> tells(m.line(), true, alias),
        m matches easyssh_screen::MsgModel::SaveFailed(e) ==> tells(m.line(), false, e),
        m matches easyssh_screen::MsgModel::TagsSet(alias) ==> tells(m.line(), true, alias),
        m matches easyssh_screen::MsgModel::TagsFailed(e) ==> tells(m.line(), false, e),
        m matches easyssh_screen::MsgModel::Deleted(alias) ==> tells(m.line(), true, alias),
        m matches easyssh_screen::MsgModel::DeleteFailed { alias, error } ==> tells(m.line(), false, alias) && tells(
            m.line(),
            false,
            error,
        ),
        m matches easyssh_screen::MsgModel::PinSet { alias, pinned } ==> tells(m.line(), true, alias),
        m matches easyssh_screen::MsgModel::PinFailed { alias, error } ==> tells(m.line(), false, alias) && tells(
            m.line(),
            false,
            error,
        ),
        m matches easyssh_screen::MsgModel::CommandCopied(cmd) ==> tells(m.line(), true, cmd),
        m matches easyssh_screen::MsgModel::PingUp { alias, time } ==> tells(m.line(), true, alias) && tells(
            m.line(),
            true,
            time,
        ),
        m matches easyssh_screen::MsgModel::PingDown { alias, error } ==> tells(m.line(), false, alias) && tells(
            m.line(),
            false,
            error,
        ),
        m matches easyssh_screen::MsgModel::ForwardStarted { alias, pid } ==> tells(m.line(), true, alias) && tells(
            m.line(),
            true,
            text::decimal(pid as nat),
        ),
        m matches easyssh_screen::MsgModel::ForwardFailed { alias, error } ==> tells(m.line(), false, alias) && tells(
            m.line(),
            false,
            error,
        ),
        m matches easyssh_screen::MsgModel::ForwardStopped(alias) ==> tells(m.line(), true, alias),
        m matches easyssh_screen::MsgModel::StopFailed { alias, error } ==> tells(m.line(), false, alias) && tells(
            m.line(),
            false,
            error,
        ),
{
    match m {
        easyssh_screen::MsgModel::Saved(alias) => {
            lemma_part(told(m.line()), "Server "@, alias, " saved"@);
        },
        easyssh_screen::MsgModel::SaveFailed(e) => {
            lemma_end("Save failed: "@, e);
        },
        easyssh_screen::MsgModel::TagsSet(alias) => {
            lemma_end("Tags updated for "@, alias);
        },
        easyssh_screen::MsgModel::TagsFailed(e) => {
            lemma_end("Failed to update tags: "@, e);
        },
        easyssh_screen::MsgModel::Deleted(alias) => {
            lemma_part(told(m.line()), "Server "@, alias, " deleted"@);
        },
        easyssh_screen::MsgModel::DeleteFailed { alias, error } => {
            lemma_named("Failed to delete "@, alias, ": "@, error, Seq::empty(), told(m.line()));
        },
        easyssh_screen::MsgModel::PinSet { alias, pinned } => {
            lemma_end("Pinned "@, alias);
            lemma_end("Unpinned "@, alias);
        },
        easyssh_screen::MsgModel::PinFailed { alias, error } => {
            lemma_named("Failed to pin/unpin "@, alias, ": "@, error, Seq::empty(), told(m.line()));
        },
        easyssh_screen::MsgModel::CommandCopied(cmd) => {
            lemma_end("Copied: "@, cmd);
        },
        easyssh_screen::MsgModel::PingUp { alias, time } => {
            lemma_named("Ping "@, alias, ": UP ("@, time, ")"@, told(m.line()));
        },
        easyssh_screen::MsgModel::PingDown { alias, error } => {
            lemma_named("Ping "@, alias, ": DOWN ("@, error, ")"@, told(m.line()));
        },
        easyssh_screen::MsgModel::ForwardStarted { alias, pid } => {
            lemma_named(
                "Port forwarding started for "@,
                alias,
                " (pid "@,
                text::decimal(pid as nat),
                ")"@,
                told(m.line()),
            );
        },
        easyssh_screen::MsgModel::ForwardFailed { alias, error } => {
            lemma_named("Failed to start forwarding for "@, alias, ": "@, error, Seq::empty(), told(m.line()));
        },
        easyssh_screen::MsgModel::ForwardStopped(alias) => {
            lemma_end("Stopped forwarding for "@, alias);
        },
        easyssh_screen::MsgModel::StopFailed { alias, error } => {
            lemma_named("Failed to stop forwarding for "@, alias, ": "@, error, Seq::empty(), told(m.line()));
        },
        _ => {},
    }
}

proof fn lemma_named(
    a: Seq<char>,
    b: Seq<char>,
    c: Seq<char>,
    d: Seq<char>,
    e: Seq<char>,
    whole: Seq<char>,
)
    requires
        whole =~= a + b + c + d + e,
    ensures
        text::occurs(whole, b),
        text::occurs(whole, d),
{
    assert(whole =~= a + b + (c + d + e));
    text_laws::texts_occur_where_they_stand(a, b, c + d + e);
    assert(whole =~= (a + b + c) + d + e);
    text_laws::texts_occur_where_they_stand(a + b + c, d, e);
}

/// What is told of a ClickHouse user names it, and what went wrong.
pub proof fn clickhouse_names_the_user(m: clickhouse_screen::MsgModel)
    ensures
        m matches clickhouse_screen::MsgModel::Deleted { cfg, label } ==> tells(m.line(), true, label),
        m matches clickhouse_screen::MsgModel::Users(rows) ==> tells(m.line(), true, text::decimal(rows.len())),
        m matches clickhouse_screen::MsgModel::Created { username, password, copied } ==> tells(
            m.line(),
            true,
            username,
        ) && tells(m.line(), true, password),
        m matches clickhouse_screen::MsgModel::CreateFailed { username, error } ==> tells(m.line(), false, username)
            && tells(m.line(), false, text::single_line(error)),
        m matches clickhouse_screen::MsgModel::Updated(username) ==> tells(m.line(), true, username),
        m matches clickhouse_screen::MsgModel::UpdateFailed { username, error } ==> tells(m.line(), false, username)
            && tells(m.line(), false, text::single_line(error)),
        m matches clickhouse_screen::MsgModel::UserDeleted(username) ==> tells(m.line(), true, username),
        m matches clickhouse_screen::MsgModel::UserDeleteFailed { username, error } ==> tells(m.line(), false, username)
            && tells(m.line(), false, text::single_line(error)),
        m matches clickhouse_screen::MsgModel::Password { password, copied } ==> tells(m.line(), true, password),
{
    match m {
        clickhouse_screen::MsgModel::Deleted { cfg, label } => {
            lemma_part(told(m.line()), "Connection '"@, label, "' deleted"@);
        },
        clickhouse_screen::MsgModel::Users(rows) => {
            lemma_part(told(m.line()), "Fetched "@, text::decimal(rows.len()), " user(s)"@);
        },
        clickhouse_screen::MsgModel::Created { username, password, copied } => {
            lemma_named(
                "User "@,
                username,
                " created, password: "@,
                password,
                clickhouse_screen::suffix(copied),
                told(m.line()),
            );
        },
        clickhouse_screen::MsgModel::CreateFailed { username, error } => {
            lemma_named("Failed to create "@, username, ": "@, text::single_line(error), Seq::empty(), told(m.line()));
        },
        clickhouse_screen::MsgModel::Updated(username) => {
            lemma_part(told(m.line()), "User "@, username, " updated"@);
        },
        clickhouse_screen::MsgModel::UpdateFailed { username, error } => {
            lemma_named("Failed to update "@, username, ": "@, text::single_line(error), Seq::empty(), told(m.line()));
        },
        clickhouse_screen::MsgModel::UserDeleted(username) => {
            lemma_part(told(m.line()), "User "@, username, " deleted"@);
        },
        clickhouse_screen::MsgModel::UserDeleteFailed { username, error } => {
            lemma_named("Failed to delete "@, username, ": "@, text::single_line(error), Seq::empty(), told(m.line()));
        },
        clickhouse_screen::MsgModel::Password { password, copied } => {
            lemma_part(told(m.line()), "Generated password: "@, password, clickhouse_screen::suffix(copied));
        },
        _ => {},
    }
}

/// What is told of the logs says what was fetched, and what went wrong.
pub proof fn the_logs_say_what_happened(m: logs_screen::MsgModel)
    ensures
        m matches logs_screen::MsgModel::Deleted { cfg, label } ==> tells(m.line(), true, label),
        m matches logs_screen::MsgModel::TestFailed(e) ==> tells(m.line(), false, text::single_line(e)),
        m matches logs_screen::MsgModel::Fetched(lines) ==> tells(m.line(), true, text::decimal(lines.len())),
        m matches logs_screen::MsgModel::FetchFailed(e) ==> tells(m.line(), false, text::single_line(e)),
{
    match m {
        logs_screen::MsgModel::Deleted { cfg, label } => {
            lemma_part(told(m.line()), "Connection '"@, label, "' deleted"@);
        },
        logs_screen::MsgModel::TestFailed(e) => {
            lemma_end("Connection failed: "@, text::single_line(e));
        },
        logs_screen::MsgModel::Fetched(lines) => {
            lemma_part(told(m.line()), "Fetched "@, text::decimal(lines.len()), " line(s)"@);
        },
        logs_screen::MsgModel::FetchFailed(e) => {
            let l = text::single_line(e);
            assert(l =~= l + Seq::<char>::empty());
            lemma_start(l, Seq::empty());
        },
        _ => {},
    }
}

/// What is told of a parameter names it, and what went wrong.
pub proof fn the_tuner_names_the_parameter(m: kerneltune_screen::MsgModel)
    ensures
        m matches kerneltune_screen::MsgModel::Connected { label, info, values } ==> tells(m.line(), true, label),
        m matches kerneltune_screen::MsgModel::ConnectFailed(e) ==> tells(m.line(), false, text::single_line(e)),
        m matches kerneltune_screen::MsgModel::ApplyFailed { key, message } ==> tells(m.line(), false, key) && tells(
            m.line(),
            false,
            text::single_line(message),
        ),
        m matches kerneltune_screen::MsgModel::Reverted { key, label, previous } ==> tells(m.line(), true, key),
        m matches kerneltune_screen::MsgModel::RevertFailed { key, message } ==> tells(m.line(), false, key) && tells(
            m.line(),
            false,
            text::single_line(message),
        ),
{
    match m {
        kerneltune_screen::MsgModel::Connected { label, info, values } => {
            lemma_end("Connected to "@, label);
        },
        kerneltune_screen::MsgModel::ConnectFailed(e) => {
            lemma_end("Connect failed: "@, text::single_line(e));
        },
        kerneltune_screen::MsgModel::ApplyFailed { key, message } => {
            lemma_named(Seq::empty(), key, ": "@, text::single_line(message), Seq::empty(), told(m.line()));
        },
        kerneltune_screen::MsgModel::Reverted { key, label, previous } => {
            lemma_end("Reverted "@, key);
        },
        kerneltune_screen::MsgModel::RevertFailed { key, message } => {
            lemma_named("Revert "@, key, " failed: "@, text::single_line(message), Seq::empty(), told(m.line()));
        },
        _ => {},
    }
}

/// What is told of a file names it, and what went wrong.
pub proof fn the_checker_names_the_file(m: config_check_screen::MsgModel)
    ensures
        m matches config_check_screen::MsgModel::Connected(label) ==> tells(m.line(), true, label),
        m matches config_check_screen::MsgModel::ConnectFailed(e) ==> tells(m.line(), false, text::single_line(e)),
        m matches config_check_screen::MsgModel::Checked { path, format, error } ==> tells(m.line(), error is None, path)
            && tells(m.line(), error is None, format.name()),
        m matches config_check_screen::MsgModel::ReadFailed { path, error } ==> tells(m.line(), false, path) && tells(
            m.line(),
            false,
            text::single_line(error),
        ),
        m matches config_check_screen::MsgModel::Fixed { backup, remaining } ==> tells(
            m.line(),
            remaining is None,
            backup,
        ),
        m matches config_check_screen::MsgModel::FixFailed(e) ==> tells(m.line(), false, text::single_line(e)),
{
    match m {
        config_check_screen::MsgModel::Connected(label) => {
            lemma_end("Connected to "@, label);
        },
        config_check_screen::MsgModel::ConnectFailed(e) => {
            lemma_end("Connect failed: "@, text::single_line(e));
        },
        config_check_screen::MsgModel::Checked { path, format, error } => {
            if error is None {
                lemma_named(Seq::empty(), path, ": valid "@, format.name(), Seq::empty(), told(m.line()));
            } else {
                lemma_named(
                    Seq::empty(),
                    path,
                    ": invalid "@,
                    format.name(),
                    " — see the results window"@,
                    told(m.line()),
                );
            }
        },
        config_check_screen::MsgModel::ReadFailed { path, error } => {
            lemma_named("couldn't read "@, path, ": "@, text::single_line(error), Seq::empty(), told(m.line()));
        },
        config_check_screen::MsgModel::Fixed { backup, remaining } => {
            lemma_end("auto-fix written, backup at "@, backup);
        },
        config_check_screen::MsgModel::FixFailed(e) => {
            lemma_end("auto-fix failed: "@, text::single_line(e));
        },
        _ => {},
    }
}

/// What is told of an account or a zone names it, and what went wrong.
pub proof fn cloudflare_names_the_zone(m: cloudflare_screen::MsgModel)
    ensures
        m matches cloudflare_screen::MsgModel::AccountDeleted { cfg, label } ==> tells(m.line(), true, label),
        m matches cloudflare_screen::MsgModel::TokenValid(n) ==> tells(m.line(), true, text::decimal(n as nat)),
        m matches cloudflare_screen::MsgModel::TokenFailed(e) ==> tells(m.line(), false, text::single_line(e)),
        m matches cloudflare_screen::MsgModel::ZonesFailed(e) ==> tells(m.line(), false, text::single_line(e)),
        m matches cloudflare_screen::MsgModel::AccountFailed { label, error } ==> tells(m.line(), false, label) && tells(
            m.line(),
            false,
            text::single_line(error),
        ),
        m matches cloudflare_screen::MsgModel::ValueCopied { ok, value } ==> (ok ==> tells(m.line(), true, value)),
{
    match m {
        cloudflare_screen::MsgModel::AccountDeleted { cfg, label } => {
            lemma_part(told(m.line()), "Account '"@, label, "' deleted"@);
        },
        cloudflare_screen::MsgModel::TokenValid(n) => {
            lemma_part(told(m.line()), "Token valid — sees "@, text::decimal(n as nat), " zone(s)"@);
        },
        cloudflare_screen::MsgModel::TokenFailed(e) => {
            lemma_end("Token test failed: "@, text::single_line(e));
        },
        cloudflare_screen::MsgModel::ZonesFailed(e) => {
            lemma_end("Failed to list zones: "@, text::single_line(e));
        },
        cloudflare_screen::MsgModel::ValueCopied { ok, value } => {
            lemma_end("Copied to clipboard: "@, value);
        },
        cloudflare_screen::MsgModel::AccountFailed { label, error } => {
            lemma_zone(label, text::single_line(error));
        },
        _ => {},
    }
}

proof fn lemma_zone(zone: Seq<char>, what: Seq<char>)
    ensures
        text::occurs(cloudflare_screen::zone_line(zone, what), zone),
        text::occurs(cloudflare_screen::zone_line(zone, what), what),
{
    lemma_named("["@, zone, "] "@, what, Seq::empty(), cloudflare_screen::zone_line(zone, what));
}

proof fn lemma_within(whole: Seq<char>, part: Seq<char>, piece: Seq<char>)
    requires
        text::occurs(whole, part),
        text::occurs(part, piece),
    ensures
        text::occurs(whole, piece),
{
    text_laws::occurring_texts_split_the_other(whole, part);
    text_laws::occurring_texts_split_the_other(part, piece);
    let (a, c) = choose|a: Seq<char>, c: Seq<char>| whole == #[trigger] (a + part + c);
    let (b, d) = choose|b: Seq<char>, d: Seq<char>| part == #[trigger] (b + piece + d);
    assert(whole =~= (a + b) + piece + (d + c));
    text_laws::texts_occur_where_they_stand(a + b, piece, d + c);
}

proof fn lemma_record(zone: Seq<char>, verb: Seq<char>, kind: Seq<char>, gap: Seq<char>, rest: Seq<char>)
    ensures
        ({
            let line = cloudflare_screen::zone_line(zone, verb + kind + gap + rest);
            text::occurs(line, zone) && text::occurs(line, kind) && text::occurs(line, rest)
        }),
{
    let what = verb + kind + gap + rest;
    lemma_zone(zone, what);
    assert(what =~= what + Seq::<char>::empty());
    lemma_named(verb, kind, gap, rest, Seq::empty(), what);
    lemma_within(cloudflare_screen::zone_line(zone, what), what, kind);
    lemma_within(cloudflare_screen::zone_line(zone, what), what, rest);
}

/// What is told of a record names its zone, its type and its name, and what
/// went wrong.
pub proof fn cloudflare_names_the_record(m: cloudflare_screen::MsgModel)
    ensures
        m matches cloudflare_screen::MsgModel::Updated { zone_name, input } ==> {
            &&& tells(m.line(), true, zone_name)
            &&& tells(m.line(), true, input.type_)
            &&& tells(m.line(), true, input.subdomain)
        },
        m matches cloudflare_screen::MsgModel::UpdateFailed { zone_name, input, error } ==> {
            &&& tells(m.line(), false, zone_name)
            &&& tells(m.line(), false, input.type_)
            &&& tells(m.line(), false, text::single_line(error))
        },
        m matches cloudflare_screen::MsgModel::Deleted(r) ==> {
            &&& tells(m.line(), true, r.domain)
            &&& tells(m.line(), true, r.type_)
            &&& tells(m.line(), true, r.subdomain)
        },
        m matches cloudflare_screen::MsgModel::DeleteRecordFailed { record, error } ==> {
            &&& tells(m.line(), false, record.domain)
            &&& tells(m.line(), false, record.type_)
            &&& tells(m.line(), false, text::single_line(error))
        },
{
    match m {
        cloudflare_screen::MsgModel::Updated { zone_name, input } => {
            lemma_record(zone_name, "updated "@, input.type_, " "@, input.subdomain);
        },
        cloudflare_screen::MsgModel::UpdateFailed { zone_name, input, error } => {
            lemma_record(zone_name, "failed to update "@, input.type_, ": "@, text::single_line(error));
        },
        cloudflare_screen::MsgModel::Deleted(r) => {
            lemma_record(r.domain, "deleted "@, r.type_, " "@, r.subdomain);
        },
        cloudflare_screen::MsgModel::DeleteRecordFailed { record, error } => {
            lemma_record(record.domain, "failed to delete "@, record.type_, ": "@, text::single_line(error));
        },
        _ => {},
    }
}

/// What is told of records that were fetched says how many there are, in how
/// many zones, and how many zones were passed over.
pub proof fn fetched_records_are_counted(m: cloudflare_screen::MsgModel)
    ensures
        m matches cloudflare_screen::MsgModel::Records { records, zones, skipped } ==> {
            &&& tells(m.line(), true, text::decimal(records.len()))
            &&& tells(m.line(), true, text::decimal(zones as nat))
            &&& tells(m.line(), true, text::decimal(skipped as nat))
        },
{
    if let cloudflare_screen::MsgModel::Records { records, zones, skipped } = m {
        let (a, b, c) = (text::decimal(records.len()), text::decimal(zones as nat), text::decimal(skipped as nat));
        let front = "Fetched "@ + a + " record(s) across "@;
        let line = told(m.line());
        lemma_named(front, b, " zone(s) ("@, c, " skipped)"@, line);
        assert(line =~= "Fetched "@ + a + (" record(s) across "@ + b + " zone(s) ("@ + c + " skipped)"@));
        text_laws::texts_occur_where_they_stand(
            "Fetched "@,
            a,
            " record(s) across "@ + b + " zone(s) ("@ + c + " skipped)"@,
        );
    }
}

/// What is told of a session that ended names its host, and how it ended.
pub proof fn ended_sessions_are_told(s: EasySshScreenModel, alias: Seq<char>, end: SessionEndModel)
    ensures
        ({
            let (ok, line) = s.session_ended(alias, end).log.history.last();
            &&& text::occurs(line, alias)
            &&& ok <==> end is Success
            &&& end matches SessionEndModel::Exited(status) ==> text::occurs(line, status)
            &&& end matches SessionEndModel::NotLaunched(e) ==> text::occurs(line, e)
        }),
{
    let (ok, line) = s.session_ended(alias, end).log.history.last();
    match end {
        SessionEndModel::Success => {
            lemma_part(line, "ssh "@, alias, ": session ended"@);
        },
        SessionEndModel::Exited(status) => {
            lemma_named("ssh "@, alias, ": exited with "@, status, Seq::empty(), line);
        },
        SessionEndModel::NotLaunched(e) => {
            lemma_named("ssh "@, alias, ": failed to launch ("@, e, ")"@, line);
        },
    }
}

/// The name of an order of the hosts says by what they are ordered.
pub proof fn orders_are_named(m: SortMode)
    ensures
        m == SortMode::AliasAsc ==> m.text() == "Alias \u{2191}"@,
        m == SortMode::AliasDesc ==> m.text() == "Alias \u{2193}"@,
        m == SortMode::LastSeenAsc ==> m.text() == "Last SSH \u{2191}"@,
        m == SortMode::LastSeenDesc ==> m.text() == "Last SSH \u{2193}"@,
{
}

/// A change that is staged is told with its parameter and its value.
pub proof fn staged_changes_are_told(s: KernelTuneScreenModel, m: DetailModalModel)
    requires
        text::trimmed(m.value.text).len() > 0,
        kerneltune_screen::by_key(s.catalog.tunables, m.key) is Some,
    ensures
        ({
            let t = s.stage_detail(m);
            let key = (kerneltune_screen::by_key(s.catalog.tunables, m.key)->0).key;
            let (ok, line) = t.log.history.last();
            &&& t.log.history.len() == s.log.history.len() + 1
            &&& ok
            &&& line == "Staged "@ + key + " = "@ + text::trimmed(m.value.text)
        }),
{
}

/// A ping is told with its host before it is sent.
pub proof fn pings_are_told(s: EasySshScreenModel, h: ServerModel)
    ensures
        s.acted(easyssh_screen::RowAction::Ping, h).log.history == s.log.history.push(
            (true, "Pinging "@ + h.alias + "\u{2026}"@),
        ),
{
}

/// A forward that cannot be started is told with its host.
pub proof fn missing_forwards_are_told(s: EasySshScreenModel, h: ServerModel)
    requires
        h.local_forward.len() == 0,
        h.remote_forward.len() == 0,
        h.dynamic_forward.len() == 0,
    ensures
        ({
            let (ok, line) = s.acted(easyssh_screen::RowAction::StartForward, h).log.history.last();
            !ok && text::occurs(line, h.alias)
        }),
{
    lemma_start(
        h.alias,
        " has no LocalForward/RemoteForward/DynamicForward set (edit the server to add one)"@,
    );
}

} // verus!
