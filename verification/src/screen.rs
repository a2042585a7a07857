//! The screens of the toolkit and the order in which its menu lists them.
use crate::model::append_to;
use crate::text::{owned, same};
use vstd::prelude::*;

verus! {

#[derive(Clone, Copy, PartialEq, Eq, Structural, Debug)]
pub enum Screen {
    Home,
    EasySsh,
    SshUser,
    Cloudflare,
    GoDaddy,
    Mysql,
    Postgresql,
    ClickHouse,
    Logs,
    KernelTune,
    SslCert,
}

impl DeepView for Screen {
    type V = Screen;

    open spec fn deep_view(&self) -> Screen {
        *self
    }
}

/// The tools in the order of a fresh install.
pub open spec fn default_screens() -> Seq<Screen> {
    seq![
        Screen::EasySsh,
        Screen::SshUser,
        Screen::Cloudflare,
        Screen::GoDaddy,
        Screen::Mysql,
        Screen::Postgresql,
        Screen::ClickHouse,
        Screen::Logs,
        Screen::KernelTune,
        Screen::SslCert,
    ]
}

/// The tools in the order of a fresh install.
pub fn default_order() -> (r: Vec<Screen>)
    ensures
        r@ == default_screens(),
{
    vec![
        Screen::EasySsh,
        Screen::SshUser,
        Screen::Cloudflare,
        Screen::GoDaddy,
        Screen::Mysql,
        Screen::Postgresql,
        Screen::ClickHouse,
        Screen::Logs,
        Screen::KernelTune,
        Screen::SslCert,
    ]
}

impl Screen {
    /// The name under which a saved order lists the screen.
    pub open spec fn key(self) -> Seq<char> {
        match self {
            Screen::Home => "home"@,
            Screen::EasySsh => "easyssh"@,
            Screen::SshUser => "sshuser"@,
            Screen::Cloudflare => "cloudflare"@,
            Screen::GoDaddy => "godaddy"@,
            Screen::Mysql => "mysql"@,
            Screen::Postgresql => "postgresql"@,
            Screen::ClickHouse => "clickhouse"@,
            Screen::Logs => "logs"@,
            Screen::KernelTune => "kerneltune"@,
            Screen::SslCert => "sslcert"@,
        }
    }

    /// The name of the tool.
    pub open spec fn title(self) -> Seq<char> {
        match self {
            Screen::Home => "Home"@,
            Screen::EasySsh => "SSH Server Manager"@,
            Screen::SshUser => "SSH User Manager"@,
            Screen::Cloudflare => "Cloudflare DNS Manager"@,
            Screen::GoDaddy => "GoDaddy DNS Manager"@,
            Screen::Mysql => "MySQL User Manager"@,
            Screen::Postgresql => "PostgreSQL User Manager"@,
            Screen::ClickHouse => "ClickHouse User Manager"@,
            Screen::Logs => "Logs & Journals Reader"@,
            Screen::KernelTune => "Kernel Tuner"@,
            Screen::SslCert => "SSL Certificate Manager"@,
        }
    }

    /// What the tool does.
    pub open spec fn about(self) -> Seq<char> {
        match self {
            Screen::Home => ""@,
            Screen::EasySsh => "Browse/add/edit ~/.ssh/config hosts, tag & group servers, connect, pin, port-forward"@,
            Screen::SshUser => "Provision / remove Linux users + SSH keys on remote hosts"@,
            Screen::Cloudflare => "Manage DNS records across multiple Cloudflare accounts — real per-record IDs, Proxied toggle"@,
            Screen::GoDaddy => "Manage DNS records across multiple GoDaddy API accounts"@,
            Screen::Mysql => "Create, list, delete MySQL/MariaDB users — direct or via SSH tunnel"@,
            Screen::Postgresql => "Create, list, delete PostgreSQL roles — direct or via SSH tunnel"@,
            Screen::ClickHouse => "Create, list, delete ClickHouse users & rotate passwords over SSH"@,
            Screen::Logs => "SSH in and read journalctl / /var/log files — severity filters, search, live-ish auto-refresh"@,
            Screen::KernelTune => "Best-practice sysctl/sysfs/ulimit tuning for desktop, DB, traffic, gaming or AI workloads — local or remote, runtime-only unless you opt into persisting"@,
            Screen::SslCert => "Detects what's on :443 (nginx/apache, version, domains), shows cert expiry, and safely swaps in a new cert + CA/chain file with a config test before reload"@,
        }
    }

    /// The command that opens the tool directly.
    pub open spec fn program(self) -> Seq<char> {
        match self {
            Screen::Home => "atk"@,
            Screen::EasySsh => "easyssh"@,
            Screen::SshUser => "linux-ssh-user-manager"@,
            Screen::Cloudflare => "cloudflare-dns"@,
            Screen::GoDaddy => "domain-api"@,
            Screen::Mysql => "mysql-mgr"@,
            Screen::Postgresql => "postgresql-mgr"@,
            Screen::ClickHouse => "chwm"@,
            Screen::Logs => "logread"@,
            Screen::KernelTune => "kerneltune"@,
            Screen::SslCert => "sslcert"@,
        }
    }
}

pub fn screen_key(s: Screen) -> (r: &'static str)
    ensures
        r@ == s.key(),
{
    match s {
        Screen::Home => "home",
        Screen::EasySsh => "easyssh",
        Screen::SshUser => "sshuser",
        Screen::Cloudflare => "cloudflare",
        Screen::GoDaddy => "godaddy",
        Screen::Mysql => "mysql",
        Screen::Postgresql => "postgresql",
        Screen::ClickHouse => "clickhouse",
        Screen::Logs => "logs",
        Screen::KernelTune => "kerneltune",
        Screen::SslCert => "sslcert",
    }
}

pub fn screen_title(s: Screen) -> (r: &'static str)
    ensures
        r@ == s.title(),
{
    match s {
        Screen::Home => "Home",
        Screen::EasySsh => "SSH Server Manager",
        Screen::SshUser => "SSH User Manager",
        Screen::Cloudflare => "Cloudflare DNS Manager",
        Screen::GoDaddy => "GoDaddy DNS Manager",
        Screen::Mysql => "MySQL User Manager",
        Screen::Postgresql => "PostgreSQL User Manager",
        Screen::ClickHouse => "ClickHouse User Manager",
        Screen::Logs => "Logs & Journals Reader",
        Screen::KernelTune => "Kernel Tuner",
        Screen::SslCert => "SSL Certificate Manager",
    }
}

pub fn screen_about(s: Screen) -> (r: &'static str)
    ensures
        r@ == s.about(),
{
    match s {
        Screen::Home => "",
        Screen::EasySsh => "Browse/add/edit ~/.ssh/config hosts, tag & group servers, connect, pin, port-forward",
        Screen::SshUser => "Provision / remove Linux users + SSH keys on remote hosts",
        Screen::Cloudflare => "Manage DNS records across multiple Cloudflare accounts — real per-record IDs, Proxied toggle",
        Screen::GoDaddy => "Manage DNS records across multiple GoDaddy API accounts",
        Screen::Mysql => "Create, list, delete MySQL/MariaDB users — direct or via SSH tunnel",
        Screen::Postgresql => "Create, list, delete PostgreSQL roles — direct or via SSH tunnel",
        Screen::ClickHouse => "Create, list, delete ClickHouse users & rotate passwords over SSH",
        Screen::Logs => "SSH in and read journalctl / /var/log files — severity filters, search, live-ish auto-refresh",
        Screen::KernelTune => "Best-practice sysctl/sysfs/ulimit tuning for desktop, DB, traffic, gaming or AI workloads — local or remote, runtime-only unless you opt into persisting",
        Screen::SslCert => "Detects what's on :443 (nginx/apache, version, domains), shows cert expiry, and safely swaps in a new cert + CA/chain file with a config test before reload",
    }
}

pub fn screen_program(s: Screen) -> (r: &'static str)
    ensures
        r@ == s.program(),
{
    match s {
        Screen::Home => "atk",
        Screen::EasySsh => "easyssh",
        Screen::SshUser => "linux-ssh-user-manager",
        Screen::Cloudflare => "cloudflare-dns",
        Screen::GoDaddy => "domain-api",
        Screen::Mysql => "mysql-mgr",
        Screen::Postgresql => "postgresql-mgr",
        Screen::ClickHouse => "chwm",
        Screen::Logs => "logread",
        Screen::KernelTune => "kerneltune",
        Screen::SslCert => "sslcert",
    }
}

/// The tool that a saved order names by `key`, if it is one.
pub open spec fn screen_named(key: Seq<char>) -> Option<Screen> {
    if key == "easyssh"@ {
        Some(Screen::EasySsh)
    } else if key == "sshuser"@ {
        Some(Screen::SshUser)
    } else if key == "cloudflare"@ {
        Some(Screen::Cloudflare)
    } else if key == "godaddy"@ {
        Some(Screen::GoDaddy)
    } else if key == "mysql"@ {
        Some(Screen::Mysql)
    } else if key == "postgresql"@ {
        Some(Screen::Postgresql)
    } else if key == "clickhouse"@ {
        Some(Screen::ClickHouse)
    } else if key == "logs"@ {
        Some(Screen::Logs)
    } else if key == "kerneltune"@ {
        Some(Screen::KernelTune)
    } else if key == "sslcert"@ {
        Some(Screen::SslCert)
    } else {
        None
    }
}

/// The tool that a saved order names by `key`, if it is one.
pub fn screen_from_key(key: &str) -> (r: Option<Screen>)
    ensures
        r == screen_named(key@),
{
    if same(key, "easyssh") {
        Some(Screen::EasySsh)
    } else if same(key, "sshuser") {
        Some(Screen::SshUser)
    } else if same(key, "cloudflare") {
        Some(Screen::Cloudflare)
    } else if same(key, "godaddy") {
        Some(Screen::GoDaddy)
    } else if same(key, "mysql") {
        Some(Screen::Mysql)
    } else if same(key, "postgresql") {
        Some(Screen::Postgresql)
    } else if same(key, "clickhouse") {
        Some(Screen::ClickHouse)
    } else if same(key, "logs") {
        Some(Screen::Logs)
    } else if same(key, "kerneltune") {
        Some(Screen::KernelTune)
    } else if same(key, "sslcert") {
        Some(Screen::SslCert)
    } else {
        None
    }
}

/// Whether an order lists every tool once, and nothing else.
pub open spec fn complete(order: Seq<Screen>) -> bool {
    &&& order.no_duplicates()
    &&& forall|s: Screen| #[trigger] order.contains(s) <==> s != Screen::Home
}

/// The distinct tools that keys name, each at its first place.
pub open spec fn known(keys: Seq<Seq<char>>) -> Seq<Screen>
    decreases keys.len(),
{
    if keys.len() == 0 {
        Seq::empty()
    } else {
        let front = known(keys.drop_last());
        match screen_named(keys.last()) {
            Some(s) => if front.contains(s) {
                front
            } else {
                front.push(s)
            },
            None => front,
        }
    }
}

/// An order with the tools of `more` that it lacks at its end.
pub open spec fn completed(order: Seq<Screen>, more: Seq<Screen>) -> Seq<Screen>
    decreases more.len(),
{
    if more.len() == 0 {
        order
    } else {
        let front = completed(order, more.drop_last());
        if front.contains(more.last()) {
            front
        } else {
            front.push(more.last())
        }
    }
}

/// The order that saved keys stand for; the default one without them.
pub open spec fn order_of(keys: Option<Seq<Seq<char>>>) -> Seq<Screen> {
    completed(
        match keys {
            Some(k) => known(k),
            None => Seq::empty(),
        },
        default_screens(),
    )
}

fn lists(order: &Vec<Screen>, s: Screen) -> (r: bool)
    ensures
        r == order@.contains(s),
{
    let mut i: usize = 0;
    while i < order.len()
        invariant
            i <= order@.len(),
            forall|k: int| 0 <= k < i ==> order@[k] != s,
        decreases order@.len() - i,
    {
        if order[i] == s {
            return true;
        }
        i = i + 1;
    }
    false
}

/// The order that saved keys stand for.
pub fn order_from_keys(keys: &Option<Vec<String>>) -> (r: Vec<Screen>)
    ensures
        r@ == order_of(keys.deep_view()),
        complete(r@),
{
    let mut order: Vec<Screen> = Vec::new();
    if let Some(v) = keys {
        let ghost ks = v.deep_view();
        let mut i: usize = 0;
        assert(ks.take(0) =~= Seq::empty());
        while i < v.len()
            invariant
                ks == v.deep_view(),
                i <= v@.len(),
                order@ == known(ks.take(i as int)),
            decreases v@.len() - i,
        {
            assert(ks.take(i + 1).drop_last() =~= ks.take(i as int));
            assert(ks.take(i + 1).last() == v@[i as int]@);
            if let Some(s) = screen_from_key(v[i].as_str()) {
                if !lists(&order, s) {
                    order.push(s);
                }
            }
            i = i + 1;
        }
        assert(ks.take(ks.len() as int) =~= ks);
    }
    let ghost start = order@;
    let more = default_order();
    let mut i: usize = 0;
    assert(more@.take(0) =~= Seq::empty());
    while i < more.len()
        invariant
            i <= more@.len(),
            order@ == completed(start, more@.take(i as int)),
        decreases more@.len() - i,
    {
        assert(more@.take(i + 1).drop_last() =~= more@.take(i as int));
        if !lists(&order, more[i]) {
            order.push(more[i]);
        }
        i = i + 1;
    }
    assert(more@.take(more@.len() as int) =~= more@);
    proof {
        saved_orders_are_complete(keys.deep_view());
    }
    order
}

/// The keys of an order.
pub open spec fn keys_of(order: Seq<Screen>) -> Seq<Seq<char>> {
    order.map_values(|s: Screen| s.key())
}

/// The keys of an order.
pub fn order_keys(order: &Vec<Screen>) -> (r: Vec<String>)
    ensures
        r.deep_view() == keys_of(order@),
{
    let mut keys: Vec<String> = Vec::new();
    let mut i: usize = 0;
    while i < order.len()
        invariant
            i <= order@.len(),
            keys.deep_view() == keys_of(order@.take(i as int)),
        decreases order@.len() - i,
    {
        append_to(&mut keys, owned(screen_key(order[i])));
        i = i + 1;
        assert(keys_of(order@.take(i as int)) =~= keys_of(order@.take(i - 1)).push(order@[i - 1].key()));
    }
    assert(order@.take(order@.len() as int) =~= order@);
    keys
}

// -------------------------------------------------------------------- laws

/// Whatever was saved, the menu lists every tool exactly once.
pub proof fn saved_orders_are_complete(keys: Option<Seq<Seq<char>>>)
    ensures
        complete(order_of(keys)),
{
    let start = match keys {
        Some(k) => known(k),
        None => Seq::empty(),
    };
    if let Some(k) = keys {
        lemma_known(k);
    }
    lemma_completed(start, default_screens());
    let d = default_screens();
    let all = order_of(keys);
    assert forall|s: Screen| #[trigger] all.contains(s) <==> s != Screen::Home by {
        if s != Screen::Home {
            assert(d[0] == Screen::EasySsh);
            assert(d[1] == Screen::SshUser);
            assert(d[2] == Screen::Cloudflare);
            assert(d[3] == Screen::GoDaddy);
            assert(d[4] == Screen::Mysql);
            assert(d[5] == Screen::Postgresql);
            assert(d[6] == Screen::ClickHouse);
            assert(d[7] == Screen::Logs);
            assert(d[8] == Screen::KernelTune);
            assert(d[9] == Screen::SslCert);
            assert(d.contains(s));
        }
    }
}

/// A complete order that was saved is loaded as it was.
pub proof fn loading_undoes_saving(order: Seq<Screen>)
    requires
        complete(order),
    ensures
        order_of(Some(keys_of(order))) == order,
{
    lemma_known_keys(order, order.len() as int);
    assert(order.take(order.len() as int) =~= order);
    lemma_nothing_missing(order, default_screens());
}

/// Every complete order is as long as the default one.
pub proof fn complete_orders_are_equally_long(order: Seq<Screen>)
    requires
        complete(order),
    ensures
        order.len() == default_screens().len(),
{
    let d = default_screens();
    saved_orders_are_complete(None);
    lemma_completed_nothing(d);
    order.unique_seq_to_set();
    d.unique_seq_to_set();
    assert(order.to_set() =~= d.to_set());
}

/// A tool is found under its key, and no two tools share one.
pub proof fn keys_name_their_screens(s: Screen)
    requires
        s != Screen::Home,
    ensures
        screen_named(s.key()) == Some(s),
{
    reveal_strlit("easyssh");
    reveal_strlit("sshuser");
    reveal_strlit("cloudflare");
    reveal_strlit("godaddy");
    reveal_strlit("mysql");
    reveal_strlit("postgresql");
    reveal_strlit("clickhouse");
    reveal_strlit("logs");
    reveal_strlit("kerneltune");
    reveal_strlit("sslcert");
    assert("easyssh"@.len() == 7);
    assert("sshuser"@.len() == 7);
    assert("cloudflare"@.len() == 10);
    assert("godaddy"@.len() == 7);
    assert("mysql"@.len() == 5);
    assert("postgresql"@.len() == 10);
    assert("clickhouse"@.len() == 10);
    assert("logs"@.len() == 4);
    assert("kerneltune"@.len() == 10);
    assert("sslcert"@.len() == 7);
    assert("easyssh"@[0] == 'e');
    assert("sshuser"@[0] == 's');
    assert("sshuser"@[2] == 'h');
    assert("godaddy"@[0] == 'g');
    assert("sslcert"@[0] == 's');
    assert("sslcert"@[2] == 'l');
    assert("cloudflare"@[0] == 'c');
    assert("cloudflare"@[2] == 'o');
    assert("clickhouse"@[0] == 'c');
    assert("clickhouse"@[2] == 'i');
    assert("postgresql"@[0] == 'p');
    assert("kerneltune"@[0] == 'k');
    assert("sshuser"@ != "easyssh"@);
    assert("godaddy"@ != "easyssh"@);
    assert("godaddy"@ != "sshuser"@);
    assert("postgresql"@ != "cloudflare"@);
    assert("clickhouse"@ != "cloudflare"@);
    assert("clickhouse"@ != "postgresql"@);
    assert("kerneltune"@ != "cloudflare"@);
    assert("kerneltune"@ != "postgresql"@);
    assert("kerneltune"@ != "clickhouse"@);
    assert("sslcert"@ != "easyssh"@);
    assert("sslcert"@ != "sshuser"@);
    assert("sslcert"@ != "godaddy"@);
}

proof fn lemma_known(keys: Seq<Seq<char>>)
    ensures
        known(keys).no_duplicates(),
        !known(keys).contains(Screen::Home),
    decreases keys.len(),
{
    if keys.len() > 0 {
        lemma_known(keys.drop_last());
    }
}

proof fn lemma_completed(order: Seq<Screen>, more: Seq<Screen>)
    requires
        order.no_duplicates(),
        !order.contains(Screen::Home),
        forall|i: int| 0 <= i < more.len() ==> #[trigger] more[i] != Screen::Home,
    ensures
        completed(order, more).no_duplicates(),
        !completed(order, more).contains(Screen::Home),
        forall|s: Screen| more.contains(s) ==> #[trigger] completed(order, more).contains(s),
    decreases more.len(),
{
    if more.len() > 0 {
        let front = completed(order, more.drop_last());
        let all = completed(order, more);
        lemma_completed(order, more.drop_last());
        assert forall|s: Screen| more.contains(s) implies #[trigger] all.contains(s) by {
            let k = choose|k: int| 0 <= k < more.len() && more[k] == s;
            if k < more.len() - 1 {
                assert(more.drop_last()[k] == s);
                assert(front.contains(s));
                let j = choose|j: int| 0 <= j < front.len() && front[j] == s;
                assert(all[j] == s);
            } else if !front.contains(s) {
                assert(all[all.len() - 1] == s);
            }
        }
    }
}

/// Nothing but the tools themselves is added to an empty order.
proof fn lemma_completed_nothing(more: Seq<Screen>)
    requires
        more.no_duplicates(),
    ensures
        completed(Seq::empty(), more) == more,
    decreases more.len(),
{
    if more.len() > 0 {
        let front = more.drop_last();
        lemma_completed_nothing(front);
        assert(!front.contains(more.last()));
        assert(front.push(more.last()) =~= more);
    }
}

proof fn lemma_known_keys(order: Seq<Screen>, n: int)
    requires
        complete(order),
        0 <= n <= order.len(),
    ensures
        known(keys_of(order.take(n))) == order.take(n),
    decreases n,
{
    let keys = keys_of(order.take(n));
    if n == 0 {
        assert(order.take(0) =~= Seq::empty());
    } else {
        lemma_known_keys(order, n - 1);
        assert(keys.drop_last() =~= keys_of(order.take(n - 1)));
        let s = order[n - 1];
        assert(keys.last() == s.key());
        assert(order.contains(s));
        keys_name_their_screens(s);
        assert(!order.take(n - 1).contains(s)) by {
            if order.take(n - 1).contains(s) {
                let front = order.take(n - 1);
                let k = choose|k: int| 0 <= k < front.len() && front[k] == s;
                assert(order[k] == order[n - 1]);
            }
        }
        assert(order.take(n) =~= order.take(n - 1).push(s));
    }
}

proof fn lemma_nothing_missing(order: Seq<Screen>, more: Seq<Screen>)
    requires
        complete(order),
        forall|i: int| 0 <= i < more.len() ==> #[trigger] more[i] != Screen::Home,
    ensures
        completed(order, more) == order,
    decreases more.len(),
{
    if more.len() > 0 {
        lemma_nothing_missing(order, more.drop_last());
        assert(more[more.len() - 1] != Screen::Home);
    }
}

} // verus!
