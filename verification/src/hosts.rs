//! Hosts, identities and groups, and the seams to the stores that hold them.

use vstd::prelude::*;

verus! {

/// Where a host comes from.
#[derive(Debug, Clone, Copy, PartialEq, Eq, Structural)]
pub enum HostSource {
    Launcher,
    SshConfig,
}

/// How an interactive session reaches a host.
#[derive(Debug, Clone, Copy, PartialEq, Eq, Structural)]
pub enum SessionTransport {
    Ssh,
    Mosh,
}

/// The connection fields of a host, as `ssh` knows them.
#[derive(Debug, PartialEq, Eq)]
pub struct SshHost {
    pub name: String,
    pub hostname: Option<String>,
    pub port: Option<u16>,
    pub user: Option<String>,
    pub identity_file: Option<String>,
    pub certificate_file: Option<String>,
    pub proxy_jump: Option<String>,
    pub forward_agent: Option<bool>,
    pub remote_command: Option<String>,
}

/// A copy of an optional text.
pub fn clone_text(text: &Option<String>) -> (r: Option<String>)
    ensures
        r == *text,
{
    match text {
        Some(text) => Some(text.clone()),
        None => None,
    }
}

impl SshHost {
    pub fn new(name: &str) -> (r: Self)
        ensures
            r.name@ == name@,
            r == (SshHost { name: r.name, ..SshHost::bare(r.name) }),
    {
        SshHost {
            name: name.to_owned(),
            hostname: None,
            port: None,
            user: None,
            identity_file: None,
            certificate_file: None,
            proxy_jump: None,
            forward_agent: None,
            remote_command: None,
        }
    }

    /// A host of which only the name is known.
    pub open spec fn bare(name: String) -> SshHost {
        SshHost {
            name,
            hostname: None,
            port: None,
            user: None,
            identity_file: None,
            certificate_file: None,
            proxy_jump: None,
            forward_agent: None,
            remote_command: None,
        }
    }
}

impl Clone for SshHost {
    fn clone(&self) -> (r: Self)
        ensures
            r == *self,
    {
        SshHost {
            name: self.name.clone(),
            hostname: clone_text(&self.hostname),
            port: self.port,
            user: clone_text(&self.user),
            identity_file: clone_text(&self.identity_file),
            certificate_file: clone_text(&self.certificate_file),
            proxy_jump: clone_text(&self.proxy_jump),
            forward_agent: self.forward_agent,
            remote_command: clone_text(&self.remote_command),
        }
    }
}

/// A login: a user name, a key, a password, or some of these.
#[derive(Debug, PartialEq, Eq)]
pub struct Identity {
    pub id: i64,
    pub name: String,
    pub username: Option<String>,
    pub private_key: Option<String>,
    pub certificate: Option<String>,
    pub has_password: bool,
}

impl Clone for Identity {
    fn clone(&self) -> (r: Self)
        ensures
            r == *self,
    {
        Identity {
            id: self.id,
            name: self.name.clone(),
            username: clone_text(&self.username),
            private_key: clone_text(&self.private_key),
            certificate: clone_text(&self.certificate),
            has_password: self.has_password,
        }
    }
}

/// A group of hosts; groups form a forest.
#[derive(Debug, PartialEq, Eq)]
pub struct HostGroup {
    pub id: i64,
    pub name: String,
    pub parent_id: Option<i64>,
    pub sort_order: i64,
    /// The reserved Favorites group.
    pub reserved: bool,
}

impl Clone for HostGroup {
    fn clone(&self) -> (r: Self)
        ensures
            r == *self,
    {
        HostGroup {
            id: self.id,
            name: self.name.clone(),
            parent_id: self.parent_id,
            sort_order: self.sort_order,
            reserved: self.reserved,
        }
    }
}

/// A host kept in the launcher database.
#[derive(Debug, PartialEq, Eq)]
pub struct ManagedHost {
    pub id: i64,
    pub name: String,
    pub label: Option<String>,
    pub address: String,
    pub port: u16,
    pub username: Option<String>,
    pub identity: Option<Identity>,
    pub group: Option<HostGroup>,
    pub group_ids: Vec<i64>,
    pub proxy_jump: Option<String>,
    pub forward_agent: bool,
    pub remote_command: Option<String>,
    pub has_password: bool,
    pub source: HostSource,
    pub transport: SessionTransport,
    pub favorite: bool,
    pub last_connected: Option<i64>,
    pub sort_order: i64,
}

/// What is remembered of a host that only `ssh_config` knows.
#[derive(Debug, PartialEq, Eq)]
pub struct HostMetadata {
    pub host_name: String,
    pub label: Option<String>,
    pub group_ids: Vec<i64>,
    pub favorite: bool,
    pub last_connected: Option<i64>,
    pub sort_order: i64,
}

/// One row of the host list.
#[derive(Debug, PartialEq, Eq)]
pub enum HostEntry {
    Managed(ManagedHost),
    Legacy { host: SshHost, meta: HostMetadata },
}

impl Clone for ManagedHost {
    fn clone(&self) -> (r: Self)
        ensures
            r.same_as(*self),
    {
        ManagedHost {
            id: self.id,
            name: self.name.clone(),
            label: clone_text(&self.label),
            address: self.address.clone(),
            port: self.port,
            username: clone_text(&self.username),
            identity: match &self.identity {
                Some(identity) => Some(identity.clone()),
                None => None,
            },
            group: match &self.group {
                Some(group) => Some(group.clone()),
                None => None,
            },
            group_ids: clone_ids(&self.group_ids),
            proxy_jump: clone_text(&self.proxy_jump),
            forward_agent: self.forward_agent,
            remote_command: clone_text(&self.remote_command),
            has_password: self.has_password,
            source: self.source,
            transport: self.transport,
            favorite: self.favorite,
            last_connected: self.last_connected,
            sort_order: self.sort_order,
        }
    }
}

fn clone_ids(ids: &Vec<i64>) -> (r: Vec<i64>)
    ensures
        r@ == ids@,
{
    let r = ids.clone();
    assert(r@ =~= ids@);
    r
}

impl ManagedHost {
    /// Equal in every field, the groups compared as lists.
    pub open spec fn same_as(self, other: ManagedHost) -> bool {
        &&& self == (ManagedHost { group_ids: self.group_ids, ..other })
        &&& self.group_ids@ == other.group_ids@
    }
}

impl HostMetadata {
    pub open spec fn same_as(self, other: HostMetadata) -> bool {
        &&& self == (HostMetadata { group_ids: self.group_ids, ..other })
        &&& self.group_ids@ == other.group_ids@
    }
}

impl HostEntry {
    pub open spec fn same_as(self, other: HostEntry) -> bool {
        match (self, other) {
            (HostEntry::Managed(a), HostEntry::Managed(b)) => a.same_as(b),
            (
                HostEntry::Legacy { host: h, meta: m },
                HostEntry::Legacy { host: g, meta: n },
            ) => h == g && m.same_as(n),
            _ => false,
        }
    }

    /// A host that only `ssh_config` knows, with nothing remembered of it.
    pub fn new(host: SshHost) -> (r: Self)
        ensures
            r matches HostEntry::Legacy { host: h, meta } && h == host && meta.host_name
                == host.name && meta.label is None && meta.group_ids@.len() == 0 && !meta.favorite
                && meta.last_connected is None && meta.sort_order == 0,
    {
        let meta = HostMetadata {
            host_name: host.name.clone(),
            label: None,
            group_ids: Vec::new(),
            favorite: false,
            last_connected: None,
            sort_order: 0,
        };
        HostEntry::Legacy { host, meta }
    }

    pub open spec fn name_spec(self) -> String {
        match self {
            HostEntry::Managed(m) => m.name,
            HostEntry::Legacy { host, .. } => host.name,
        }
    }

    pub fn name(&self) -> (r: &String)
        ensures
            *r == self.name_spec(),
    {
        match self {
            HostEntry::Managed(m) => &m.name,
            HostEntry::Legacy { host, .. } => &host.name,
        }
    }

    /// The label, or else the name.
    pub open spec fn display_spec(self) -> String {
        let (label, name) = match self {
            HostEntry::Managed(m) => (m.label, m.name),
            HostEntry::Legacy { host, meta } => (meta.label, host.name),
        };
        match label {
            Some(label) => label,
            None => name,
        }
    }

    pub fn display_name(&self) -> (r: &String)
        ensures
            *r == self.display_spec(),
    {
        let (label, name) = match self {
            HostEntry::Managed(m) => (&m.label, &m.name),
            HostEntry::Legacy { host, meta } => (&meta.label, &host.name),
        };
        match label {
            Some(label) => label,
            None => name,
        }
    }

    pub open spec fn managed_spec(self) -> Option<ManagedHost> {
        match self {
            HostEntry::Managed(m) => Some(m),
            HostEntry::Legacy { .. } => None,
        }
    }

    pub fn managed(&self) -> (r: Option<&ManagedHost>)
        ensures
            r is Some <==> self.managed_spec() is Some,
            r matches Some(m) ==> *m == self.managed_spec()->0,
    {
        match self {
            HostEntry::Managed(m) => Some(m),
            HostEntry::Legacy { .. } => None,
        }
    }

    pub open spec fn last_connected_spec(self) -> Option<i64> {
        match self {
            HostEntry::Managed(m) => m.last_connected,
            HostEntry::Legacy { meta, .. } => meta.last_connected,
        }
    }

    pub fn last_connected(&self) -> (r: Option<i64>)
        ensures
            r == self.last_connected_spec(),
    {
        match self {
            HostEntry::Managed(m) => m.last_connected,
            HostEntry::Legacy { meta, .. } => meta.last_connected,
        }
    }

    pub open spec fn favorite_spec(self) -> bool {
        match self {
            HostEntry::Managed(m) => m.favorite,
            HostEntry::Legacy { meta, .. } => meta.favorite,
        }
    }

    pub fn favorite(&self) -> (r: bool)
        ensures
            r == self.favorite_spec(),
    {
        match self {
            HostEntry::Managed(m) => m.favorite,
            HostEntry::Legacy { meta, .. } => meta.favorite,
        }
    }

    pub open spec fn sort_order_spec(self) -> i64 {
        match self {
            HostEntry::Managed(m) => m.sort_order,
            HostEntry::Legacy { meta, .. } => meta.sort_order,
        }
    }

    pub fn sort_order(&self) -> (r: i64)
        ensures
            r == self.sort_order_spec(),
    {
        match self {
            HostEntry::Managed(m) => m.sort_order,
            HostEntry::Legacy { meta, .. } => meta.sort_order,
        }
    }

    pub open spec fn group_ids_spec(self) -> Seq<i64> {
        match self {
            HostEntry::Managed(m) => m.group_ids@,
            HostEntry::Legacy { meta, .. } => meta.group_ids@,
        }
    }

    pub fn group_ids(&self) -> (r: &Vec<i64>)
        ensures
            r@ == self.group_ids_spec(),
    {
        match self {
            HostEntry::Managed(m) => &m.group_ids,
            HostEntry::Legacy { meta, .. } => &meta.group_ids,
        }
    }

    pub open spec fn transport_spec(self) -> SessionTransport {
        match self {
            HostEntry::Managed(m) => m.transport,
            HostEntry::Legacy { .. } => SessionTransport::Ssh,
        }
    }

    pub fn session_transport(&self) -> (r: SessionTransport)
        ensures
            r == self.transport_spec(),
    {
        match self {
            HostEntry::Managed(m) => m.transport,
            HostEntry::Legacy { .. } => SessionTransport::Ssh,
        }
    }
}

impl Clone for HostEntry {
    fn clone(&self) -> (r: Self)
        ensures
            r.same_as(*self),
    {
        match self {
            HostEntry::Managed(m) => HostEntry::Managed(m.clone()),
            HostEntry::Legacy { host, meta } => HostEntry::Legacy {
                host: host.clone(),
                meta: HostMetadata {
                    host_name: meta.host_name.clone(),
                    label: clone_text(&meta.label),
                    group_ids: clone_ids(&meta.group_ids),
                    favorite: meta.favorite,
                    last_connected: meta.last_connected,
                    sort_order: meta.sort_order,
                },
            },
        }
    }
}

/// Where stored passwords and passphrases live. Errors are messages.
pub trait PasswordStore {
    fn get(&self, key: &str) -> (r: Result<Option<String>, String>);

    fn set(&self, key: &str, secret: &str) -> (r: Result<(), String>);

    fn delete(&self, key: &str) -> (r: Result<(), String>);
}

/// What answers questions about `ssh_config`. Errors are messages.
pub trait HostResolver {
    fn list_hosts(&self) -> (r: Result<Vec<String>, String>);

    fn resolve_host(&self, name: &str) -> (r: Result<SshHost, String>);
}

} // verus!
