//! The SSH hosts that are known from `~/.ssh/config`.
use vstd::prelude::*;

use crate::model::Copyable;

verus! {

/// One host of `~/.ssh/config`, with what the toolkit keeps beside it.
pub struct Server {
    pub alias: String,
    pub patterns: Vec<String>,
    pub host: String,
    pub user: String,
    /// Zero where none is set.
    pub port: u16,
    /// Kept beside the config file, which has no such field.
    pub ssh_password: String,
    pub identity_files: Vec<String>,
    pub proxy_jump: String,
    pub local_forward: Vec<String>,
    pub remote_forward: Vec<String>,
    pub dynamic_forward: Vec<String>,
    pub forward_agent: String,
    pub tags: Vec<String>,
    /// Directives that have no field of their own.
    pub extra: Vec<(String, String)>,
    /// When the host was pinned, in seconds.
    pub pinned_at: Option<i64>,
    /// When the host was last connected to, in seconds.
    pub last_seen: Option<i64>,
    /// `last_seen` as it is shown.
    pub last_seen_text: String,
    /// Whether a background port forwarding runs.
    pub forwarding: bool,
}

pub struct ServerModel {
    pub alias: Seq<char>,
    pub patterns: Seq<Seq<char>>,
    pub host: Seq<char>,
    pub user: Seq<char>,
    pub port: u16,
    pub ssh_password: Seq<char>,
    pub identity_files: Seq<Seq<char>>,
    pub proxy_jump: Seq<char>,
    pub local_forward: Seq<Seq<char>>,
    pub remote_forward: Seq<Seq<char>>,
    pub dynamic_forward: Seq<Seq<char>>,
    pub forward_agent: Seq<char>,
    pub tags: Seq<Seq<char>>,
    pub extra: Seq<(Seq<char>, Seq<char>)>,
    pub pinned_at: Option<i64>,
    pub last_seen: Option<i64>,
    pub last_seen_text: Seq<char>,
    pub forwarding: bool,
}

impl View for Server {
    type V = ServerModel;

    open spec fn view(&self) -> ServerModel {
        ServerModel {
            alias: self.alias@,
            patterns: self.patterns.deep_view(),
            host: self.host@,
            user: self.user@,
            port: self.port,
            ssh_password: self.ssh_password@,
            identity_files: self.identity_files.deep_view(),
            proxy_jump: self.proxy_jump@,
            local_forward: self.local_forward.deep_view(),
            remote_forward: self.remote_forward.deep_view(),
            dynamic_forward: self.dynamic_forward.deep_view(),
            forward_agent: self.forward_agent@,
            tags: self.tags.deep_view(),
            extra: self.extra.deep_view(),
            pinned_at: self.pinned_at,
            last_seen: self.last_seen,
            last_seen_text: self.last_seen_text@,
            forwarding: self.forwarding,
        }
    }
}

impl DeepView for Server {
    type V = ServerModel;

    open spec fn deep_view(&self) -> ServerModel {
        self@
    }
}

impl Copyable for Server {
    fn copy(&self) -> (r: Self) {
        Server {
            alias: self.alias.clone(),
            patterns: self.patterns.copy(),
            host: self.host.clone(),
            user: self.user.clone(),
            port: self.port,
            ssh_password: self.ssh_password.clone(),
            identity_files: self.identity_files.copy(),
            proxy_jump: self.proxy_jump.clone(),
            local_forward: self.local_forward.copy(),
            remote_forward: self.remote_forward.copy(),
            dynamic_forward: self.dynamic_forward.copy(),
            forward_agent: self.forward_agent.clone(),
            tags: self.tags.copy(),
            extra: self.extra.copy(),
            pinned_at: self.pinned_at,
            last_seen: self.last_seen,
            last_seen_text: self.last_seen_text.clone(),
            forwarding: self.forwarding,
        }
    }
}

impl ServerModel {
    /// The name or address to connect to: the host, or the alias where no host is set.
    pub open spec fn effective_host(self) -> Seq<char> {
        if self.host.len() == 0 {
            self.alias
        } else {
            self.host
        }
    }

    pub open spec fn blank() -> ServerModel {
        ServerModel {
            alias: Seq::empty(),
            patterns: Seq::empty(),
            host: Seq::empty(),
            user: Seq::empty(),
            port: 0,
            ssh_password: Seq::empty(),
            identity_files: Seq::empty(),
            proxy_jump: Seq::empty(),
            local_forward: Seq::empty(),
            remote_forward: Seq::empty(),
            dynamic_forward: Seq::empty(),
            forward_agent: Seq::empty(),
            tags: Seq::empty(),
            extra: Seq::empty(),
            pinned_at: None,
            last_seen: None,
            last_seen_text: Seq::empty(),
            forwarding: false,
        }
    }
}

impl Default for Server {
    fn default() -> (r: Server)
        ensures
            r@ == ServerModel::blank(),
    {
        let r = Server {
            alias: String::new(),
            patterns: Vec::new(),
            host: String::new(),
            user: String::new(),
            port: 0,
            ssh_password: String::new(),
            identity_files: Vec::new(),
            proxy_jump: String::new(),
            local_forward: Vec::new(),
            remote_forward: Vec::new(),
            dynamic_forward: Vec::new(),
            forward_agent: String::new(),
            tags: Vec::new(),
            extra: Vec::new(),
            pinned_at: None,
            last_seen: None,
            last_seen_text: String::new(),
            forwarding: false,
        };
        assert(r@.alias =~= Seq::empty());
        assert(r@.patterns =~= Seq::empty());
        assert(r@.host =~= Seq::empty());
        assert(r@.user =~= Seq::empty());
        assert(r@.ssh_password =~= Seq::empty());
        assert(r@.identity_files =~= Seq::empty());
        assert(r@.proxy_jump =~= Seq::empty());
        assert(r@.local_forward =~= Seq::empty());
        assert(r@.remote_forward =~= Seq::empty());
        assert(r@.dynamic_forward =~= Seq::empty());
        assert(r@.forward_agent =~= Seq::empty());
        assert(r@.tags =~= Seq::empty());
        assert(r@.extra =~= Seq::empty());
        assert(r@.last_seen_text =~= Seq::empty());
        r
    }
}

impl Server {
    /// The name or address to connect to: the host, or the alias where no host is set.
    pub fn effective_host(&self) -> (r: &str)
        ensures
            r@ == self@.effective_host(),
    {
        if self.host.as_str().is_empty() {
            self.alias.as_str()
        } else {
            self.host.as_str()
        }
    }
}

} // verus!
