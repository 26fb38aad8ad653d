//! How a host is reached: which command is launched, which stored secret goes
//! with it, which fields a direct transfer connection uses.

use vstd::prelude::*;

use crate::hosts::{
    clone_text, HostEntry, HostResolver, HostSource, ManagedHost, PasswordStore, SessionTransport,
    SshHost,
};
use crate::text::{cat2, cat3, cat4, cat5, group_views, integer, same, show_integer, views};

verus! {

broadcast use crate::text::group_views;

/// A stored secret that is typed when it is asked for.
#[derive(Debug, PartialEq, Eq)]
pub enum PendingSecret {
    /// Sent at a `password:` prompt.
    Password(String),
    /// Sent at `Enter passphrase for …`.
    Passphrase(String),
}

impl Clone for PendingSecret {
    fn clone(&self) -> (r: Self)
        ensures
            r == *self,
    {
        match self {
            PendingSecret::Password(secret) => PendingSecret::Password(secret.clone()),
            PendingSecret::Passphrase(secret) => PendingSecret::Passphrase(secret.clone()),
        }
    }
}

/// The key under which the password of a host is stored.
pub open spec fn host_key_spec(id: i64) -> Seq<char> {
    "host:"@ + integer(id as int)
}

/// The key under which the secret of an identity is stored.
pub open spec fn identity_key_spec(id: i64) -> Seq<char> {
    "identity:"@ + integer(id as int)
}

pub fn host_key(id: i64) -> (r: String)
    ensures
        r@ == host_key_spec(id),
{
    cat2("host:", show_integer(id).as_str())
}

pub fn identity_key(id: i64) -> (r: String)
    ensures
        r@ == identity_key_spec(id),
{
    cat2("identity:", show_integer(id).as_str())
}

/// Which stored secret applies to a host: its own password, or that of its
/// identity.
#[derive(Debug, Clone, Copy, PartialEq, Eq, Structural)]
pub enum SecretOwner {
    Host,
    /// A secret on an identity with a key unlocks that key.
    IdentityWithKey,
    /// A secret on a keyless identity is a login password.
    KeylessIdentity,
}

/// The owner of the secret that applies to a managed host, if there is one.
pub open spec fn secret_owner(m: ManagedHost) -> Option<SecretOwner> {
    if m.has_password {
        Some(SecretOwner::Host)
    } else {
        match m.identity {
            Some(identity) => if identity.has_password {
                if identity.private_key is Some {
                    Some(SecretOwner::IdentityWithKey)
                } else {
                    Some(SecretOwner::KeylessIdentity)
                }
            } else {
                None
            },
            None => None,
        }
    }
}

/// The key that the secret of a managed host is looked up under.
pub open spec fn secret_key(m: ManagedHost) -> Seq<char> {
    match secret_owner(m) {
        Some(SecretOwner::Host) => host_key_spec(m.id),
        _ => identity_key_spec(m.identity->0.id),
    }
}

/// What a stored secret is sent as.
pub open spec fn as_secret(owner: SecretOwner, secret: String) -> PendingSecret {
    match owner {
        SecretOwner::IdentityWithKey => PendingSecret::Passphrase(secret),
        _ => PendingSecret::Password(secret),
    }
}

/// How the secret of an owner is called.
pub open spec fn secret_word(owner: SecretOwner) -> Seq<char> {
    match owner {
        SecretOwner::IdentityWithKey => "passphrase"@,
        _ => "password"@,
    }
}

/// What to say of the lookup of a secret, where `prompt` is who asks if there is
/// none and `failing` what follows an error.
pub open spec fn lookup_line(
    owner: SecretOwner,
    key: Seq<char>,
    lookup: Result<Option<String>, String>,
    prompt: Seq<char>,
    failing: Seq<char>,
) -> Seq<char> {
    match lookup {
        Ok(Some(_)) => "auth: using stored "@ + secret_word(owner) + " ("@ + key + ")"@,
        Ok(None) => (if owner is Host {
            "auth: has_password=true but keyring entry "@
        } else {
            "auth: identity has_password=true but keyring entry "@
        }) + key + " is empty — "@ + prompt,
        Err(e) => "auth: keyring lookup failed for "@ + key + ": "@ + e@ + failing,
    }
}

/// Who is served by a credential lookup.
#[derive(Debug, Clone, Copy, PartialEq, Eq, Structural)]
pub enum AuthUse {
    /// An interactive session, which can ask the user.
    Session,
    /// A tunnel, which cannot.
    Tunnel,
}

pub open spec fn prompt_line(purpose: AuthUse) -> Seq<char> {
    match purpose {
        AuthUse::Session => "ssh will prompt"@,
        AuthUse::Tunnel => "tunnel cannot prompt"@,
    }
}

pub open spec fn failing_line(purpose: AuthUse) -> Seq<char> {
    match purpose {
        AuthUse::Session => " — ssh will prompt"@,
        AuthUse::Tunnel => ""@,
    }
}

pub open spec fn no_secret_line(purpose: AuthUse) -> Seq<char> {
    match purpose {
        AuthUse::Session =>
            "auth: no stored credential — using agent / unlocked key / interactive prompt"@,
        AuthUse::Tunnel =>
            "auth: no stored credential — tunnel uses agent / unlocked key only (BatchMode)"@,
    }
}

fn owner_of(m: &ManagedHost) -> (r: Option<SecretOwner>)
    ensures
        r == secret_owner(*m),
{
    if m.has_password {
        Some(SecretOwner::Host)
    } else {
        match &m.identity {
            Some(identity) => if identity.has_password {
                if identity.private_key.is_some() {
                    Some(SecretOwner::IdentityWithKey)
                } else {
                    Some(SecretOwner::KeylessIdentity)
                }
            } else {
                None
            },
            None => None,
        }
    }
}

/// What the lookup of a stored secret comes to: the secret to send, if there is
/// one, and a line for the log.
pub fn secret_from_lookup(
    owner: SecretOwner,
    key: &str,
    lookup: Result<Option<String>, String>,
    purpose: AuthUse,
) -> (r: (Option<PendingSecret>, String))
    ensures
        r.0 == match lookup {
            Ok(Some(secret)) => Some(as_secret(owner, secret)),
            _ => None,
        },
        r.1@ == lookup_line(owner, key@, lookup, prompt_line(purpose), failing_line(purpose)),
{
    let word = match owner {
        SecretOwner::IdentityWithKey => "passphrase",
        _ => "password",
    };
    let prompt = match purpose {
        AuthUse::Session => "ssh will prompt",
        AuthUse::Tunnel => "tunnel cannot prompt",
    };
    let failing = match purpose {
        AuthUse::Session => " — ssh will prompt",
        AuthUse::Tunnel => "",
    };
    match lookup {
        Ok(Some(secret)) => {
            let line = cat5("auth: using stored ", word, " (", key, ")");
            match owner {
                SecretOwner::IdentityWithKey => (Some(PendingSecret::Passphrase(secret)), line),
                _ => (Some(PendingSecret::Password(secret)), line),
            }
        },
        Ok(None) => {
            let start = match owner {
                SecretOwner::Host => "auth: has_password=true but keyring entry ",
                _ => "auth: identity has_password=true but keyring entry ",
            };
            (None, cat4(start, key, " is empty — ", prompt))
        },
        Err(e) => (
            None,
            cat5("auth: keyring lookup failed for ", key, ": ", e.as_str(), failing),
        ),
    }
}

/// The outcome of [`resolve_pending_secret_for_managed`] where the store
/// answered `lookup`.
pub open spec fn secret_outcome(
    m: ManagedHost,
    lookup: Result<Option<String>, String>,
    purpose: AuthUse,
    r: (Option<PendingSecret>, String),
) -> bool {
    match secret_owner(m) {
        Some(owner) => {
            &&& r.0 == match lookup {
                Ok(Some(secret)) => Some(as_secret(owner, secret)),
                _ => None,
            }
            &&& r.1@ == lookup_line(
                owner,
                secret_key(m),
                lookup,
                prompt_line(purpose),
                failing_line(purpose),
            )
        },
        None => r.0 is None && r.1@ == no_secret_line(purpose),
    }
}

/// Whether the store may have answered `lookup` to a question for `key`.
pub open spec fn store_answers<P: PasswordStore>(
    store: P,
    key: Seq<char>,
    lookup: Result<Option<String>, String>,
) -> bool {
    exists|asked: &str|
        asked@ == key && #[trigger] call_ensures(P::get, (&store, asked), lookup)
}

fn pending_secret<P: PasswordStore>(m: &ManagedHost, store: &P, purpose: AuthUse) -> (r: (
    Option<PendingSecret>,
    String,
))
    ensures
        secret_owner(*m) is None ==> r.0 is None && r.1@ == no_secret_line(purpose),
        secret_owner(*m) is Some ==> exists|lookup: Result<Option<String>, String>|
            #[trigger] store_answers(*store, secret_key(*m), lookup) && secret_outcome(
                *m,
                lookup,
                purpose,
                r,
            ),
{
    match owner_of(m) {
        Some(owner) => {
            let key = match owner {
                SecretOwner::Host => host_key(m.id),
                _ => match &m.identity {
                    Some(identity) => identity_key(identity.id),
                    None => host_key(m.id),
                },
            };
            let lookup = store.get(key.as_str());
            assert(store_answers(*store, secret_key(*m), lookup));
            secret_from_lookup(owner, key.as_str(), lookup, purpose)
        },
        None => {
            let line = match purpose {
                AuthUse::Session =>
                    "auth: no stored credential — using agent / unlocked key / interactive prompt",
                AuthUse::Tunnel =>
                    "auth: no stored credential — tunnel uses agent / unlocked key only (BatchMode)",
            };
            (None, line.to_owned())
        },
    }
}

/// Look up the stored credential for a host entry and decide whether it's a
/// host password (sent at `password:` prompts) or an identity passphrase (sent
/// at `Enter passphrase for …`). Returns the pending secret and a line for the
/// SSH log. What the store answers is its own affair; it is asked for exactly
/// the key of the secret that applies, and only if one does.
pub fn resolve_pending_secret<P: PasswordStore>(entry: &HostEntry, password_store: &P) -> (r: (
    Option<PendingSecret>,
    String,
))
    ensures
        match entry.managed_spec() {
            None => r.0 is None && r.1@
                == "auth: legacy ssh_config host — no stored credential"@,
            Some(m) => {
                &&& secret_owner(m) is None ==> r.0 is None && r.1@ == no_secret_line(
                    AuthUse::Session,
                )
                &&& secret_owner(m) is Some ==> exists|lookup: Result<Option<String>, String>|
                    #[trigger] store_answers(*password_store, secret_key(m), lookup)
                        && secret_outcome(m, lookup, AuthUse::Session, r)
            },
        },
{
    match entry.managed() {
        Some(m) => pending_secret(m, password_store, AuthUse::Session),
        None => (None, "auth: legacy ssh_config host — no stored credential".to_owned()),
    }
}

/// Same as [`resolve_pending_secret`] but for a [`ManagedHost`] row (tunnels).
pub fn resolve_pending_secret_for_managed<P: PasswordStore>(
    managed: &ManagedHost,
    password_store: &P,
) -> (r: (Option<PendingSecret>, String))
    ensures
        secret_owner(*managed) is None ==> r.0 is None && r.1@ == no_secret_line(AuthUse::Tunnel),
        secret_owner(*managed) is Some ==> exists|lookup: Result<Option<String>, String>|
            #[trigger] store_answers(*password_store, secret_key(*managed), lookup)
                && secret_outcome(*managed, lookup, AuthUse::Tunnel, r),
{
    pending_secret(managed, password_store, AuthUse::Tunnel)
}

/// The user name a managed host logs in with: its own, or its identity's.
pub open spec fn login_of(m: ManagedHost) -> Option<String> {
    match m.username {
        Some(user) => Some(user),
        None => match m.identity {
            Some(identity) => identity.username,
            None => None,
        },
    }
}

pub fn login(m: &ManagedHost) -> (r: Option<String>)
    ensures
        r == login_of(*m),
{
    match &m.username {
        Some(user) => Some(user.clone()),
        None => match &m.identity {
            Some(identity) => clone_text(&identity.username),
            None => None,
        },
    }
}

/// The connection fields of a managed host.
pub open spec fn ssh_host_of(m: ManagedHost) -> SshHost {
    SshHost {
        name: m.name,
        hostname: Some(m.address),
        port: Some(m.port),
        user: login_of(m),
        identity_file: match m.identity {
            Some(identity) => identity.private_key,
            None => None,
        },
        certificate_file: match m.identity {
            Some(identity) => identity.certificate,
            None => None,
        },
        proxy_jump: m.proxy_jump,
        forward_agent: Some(m.forward_agent),
        remote_command: m.remote_command,
    }
}

pub fn managed_to_ssh_host(m: &ManagedHost) -> (r: SshHost)
    ensures
        r == ssh_host_of(*m),
{
    SshHost {
        name: m.name.clone(),
        hostname: Some(m.address.clone()),
        port: Some(m.port),
        user: login(m),
        identity_file: match &m.identity {
            Some(identity) => clone_text(&identity.private_key),
            None => None,
        },
        certificate_file: match &m.identity {
            Some(identity) => clone_text(&identity.certificate),
            None => None,
        },
        proxy_jump: clone_text(&m.proxy_jump),
        forward_agent: Some(m.forward_agent),
        remote_command: clone_text(&m.remote_command),
    }
}

impl HostEntry {
    /// The connection fields that an entry carries itself.
    pub open spec fn ssh_host_spec(self) -> SshHost {
        match self {
            HostEntry::Managed(m) => ssh_host_of(m),
            HostEntry::Legacy { host, .. } => host,
        }
    }

    pub fn ssh_host(&self) -> (r: SshHost)
        ensures
            r == self.ssh_host_spec(),
    {
        match self {
            HostEntry::Managed(m) => managed_to_ssh_host(m),
            HostEntry::Legacy { host, .. } => host.clone(),
        }
    }
}

/// Host metadata used by the session header.
#[derive(Debug, PartialEq, Eq)]
pub struct SessionMeta {
    pub user: Option<String>,
    pub address: Option<String>,
    pub port: Option<u16>,
    pub identity: Option<String>,
    pub proxy_jump: Option<String>,
    pub host_id: Option<i64>,
}

/// Capture host metadata used by the embedded session header.
pub fn session_meta_for_entry(entry: &HostEntry) -> (r: SessionMeta)
    ensures
        r == (SessionMeta {
            user: entry.ssh_host_spec().user,
            address: entry.ssh_host_spec().hostname,
            port: entry.ssh_host_spec().port,
            identity: entry.ssh_host_spec().identity_file,
            proxy_jump: entry.ssh_host_spec().proxy_jump,
            host_id: match entry.managed_spec() {
                Some(m) => Some(m.id),
                None => None,
            },
        }),
{
    let host_id = match entry {
        HostEntry::Managed(m) => Some(m.id),
        HostEntry::Legacy { .. } => None,
    };
    let host = entry.ssh_host();
    SessionMeta {
        user: host.user,
        address: host.hostname,
        port: host.port,
        identity: host.identity_file,
        proxy_jump: host.proxy_jump,
        host_id,
    }
}

/// A command line to be built for a host. With `alias_only` the command names
/// the host and nothing more, so that `ssh` takes every option from the user's
/// config; otherwise all of the host's options are spelled out.
#[derive(Debug, PartialEq, Eq)]
pub struct LaunchRequest {
    pub transport: SessionTransport,
    pub alias_only: bool,
    pub host: SshHost,
}

/// Hosts that `ssh_config` holds are launched by alias; launcher hosts are not,
/// so that no alias is needed for them.
pub open spec fn launches_by_alias(entry: HostEntry) -> bool {
    match entry {
        HostEntry::Managed(m) => m.source == HostSource::SshConfig,
        HostEntry::Legacy { .. } => true,
    }
}

fn by_alias(entry: &HostEntry) -> (r: bool)
    ensures
        r == launches_by_alias(*entry),
{
    match entry {
        HostEntry::Managed(m) => m.source == HostSource::SshConfig,
        HostEntry::Legacy { .. } => true,
    }
}

/// The bare `mosh` command line for a host entry.
pub fn mosh_argv_for_entry(entry: &HostEntry) -> (r: LaunchRequest)
    ensures
        r == (LaunchRequest {
            transport: SessionTransport::Mosh,
            alias_only: launches_by_alias(*entry),
            host: entry.ssh_host_spec(),
        }),
{
    LaunchRequest {
        transport: SessionTransport::Mosh,
        alias_only: by_alias(entry),
        host: entry.ssh_host(),
    }
}

/// The bare `ssh` command line for a host entry.
pub fn ssh_argv_for_entry(entry: &HostEntry) -> (r: LaunchRequest)
    ensures
        r == (LaunchRequest {
            transport: SessionTransport::Ssh,
            alias_only: launches_by_alias(*entry),
            host: entry.ssh_host_spec(),
        }),
{
    LaunchRequest {
        transport: SessionTransport::Ssh,
        alias_only: by_alias(entry),
        host: entry.ssh_host(),
    }
}

/// The session command line (`ssh` or `mosh`) by the host's transport setting.
pub fn session_argv_for_entry(entry: &HostEntry) -> (r: LaunchRequest)
    ensures
        r == (LaunchRequest {
            transport: entry.transport_spec(),
            alias_only: launches_by_alias(*entry),
            host: entry.ssh_host_spec(),
        }),
{
    match entry.session_transport() {
        SessionTransport::Ssh => ssh_argv_for_entry(entry),
        SessionTransport::Mosh => mosh_argv_for_entry(entry),
    }
}

/// The `ssh` command line that a key is pushed with, before the command itself:
/// the host's own remote command is left out.
pub fn ssh_argv_for_key_push(entry: &HostEntry) -> (r: LaunchRequest)
    ensures
        r == (LaunchRequest {
            transport: SessionTransport::Ssh,
            alias_only: launches_by_alias(*entry),
            host: (SshHost { remote_command: None, ..entry.ssh_host_spec() }),
        }),
{
    let mut host = entry.ssh_host();
    host.remote_command = None;
    LaunchRequest { transport: SessionTransport::Ssh, alias_only: by_alias(entry), host }
}

/// A command line that runs `remote_cmd` on the host: behind `--`, as one word.
pub fn append_remote_command(argv: Vec<String>, remote_cmd: &str) -> (r: Vec<String>)
    ensures
        views(r@) == views(argv@).push("--"@).push(remote_cmd@),
{
    let mut argv = argv;
    argv.push("--".to_owned());
    argv.push(remote_cmd.to_owned());
    argv
}

/// A command line made ready for connecting.
#[derive(Debug, PartialEq, Eq)]
pub enum PreparedArgv {
    Ready(Vec<String>),
    /// A `mosh` command line whose inner `ssh` is still to be told to accept a
    /// new host key.
    MoshAcceptNew(Vec<String>),
}

#[verifier::ext_equal]
pub enum PreparedView {
    Ready(Seq<Seq<char>>),
    MoshAcceptNew(Seq<Seq<char>>),
}

impl View for PreparedArgv {
    type V = PreparedView;

    open spec fn view(&self) -> PreparedView {
        match self {
            PreparedArgv::Ready(argv) => PreparedView::Ready(views(argv@)),
            PreparedArgv::MoshAcceptNew(argv) => PreparedView::MoshAcceptNew(views(argv@)),
        }
    }
}

/// The options that a connect adds behind the program name: accepting a new
/// host key where a stored secret will be sent without anyone watching, and
/// verbose logging.
pub open spec fn connect_options(has_secret: bool, verbose: bool) -> Seq<Seq<char>> {
    (if has_secret {
        seq!["-o"@, "StrictHostKeyChecking=accept-new"@]
    } else {
        Seq::empty()
    }) + (if verbose {
        seq!["-v"@]
    } else {
        Seq::empty()
    })
}

/// A command line with the connect options put behind the program name, if the
/// program is `ssh`.
pub open spec fn prepared(argv: Seq<Seq<char>>, has_secret: bool, verbose: bool) -> PreparedView {
    if argv.len() > 0 && argv[0] == "ssh"@ {
        PreparedView::Ready(argv.take(1) + connect_options(has_secret, verbose) + argv.skip(1))
    } else if argv.len() > 0 && argv[0] == "mosh"@ && has_secret {
        PreparedView::MoshAcceptNew(argv)
    } else {
        PreparedView::Ready(argv)
    }
}

/// Command-line connect: optional verbose logging, accept-new when a stored
/// secret is present.
pub fn prepare_cli_connect_argv(argv: Vec<String>, has_stored_secret: bool, verbose: bool) -> (r:
    PreparedArgv)
    requires
        argv@.len() + 3 <= usize::MAX,
    ensures
        r@ == prepared(views(argv@), has_stored_secret, verbose),
{
    let mut argv = argv;
    let ghost before = views(argv@);
    assert(before.len() == argv@.len());
    if argv.len() > 0 && same(argv[0].as_str(), "ssh") {
        assert(before =~= before.take(1) + before.skip(1));
        if verbose {
            argv.insert(1, "-v".to_owned());
            assert(views(argv@) =~= before.take(1) + seq!["-v"@] + before.skip(1));
        }
        if has_stored_secret {
            argv.insert(1, "-o".to_owned());
            argv.insert(2, "StrictHostKeyChecking=accept-new".to_owned());
        }
        assert(views(argv@) =~= before.take(1) + connect_options(has_stored_secret, verbose)
            + before.skip(1));
        return PreparedArgv::Ready(argv);
    }
    if argv.len() > 0 && same(argv[0].as_str(), "mosh") && has_stored_secret {
        return PreparedArgv::MoshAcceptNew(argv);
    }
    PreparedArgv::Ready(argv)
}

/// A session's command line: `ssh` logs what it does, and trusts a new host key
/// where a secret is stored.
pub open spec fn prepared_session(argv: Seq<Seq<char>>, has_secret: bool) -> PreparedView {
    if argv.len() > 0 && argv[0] == "ssh"@ {
        PreparedView::Ready(
            if has_secret {
                seq!["ssh"@, "-o"@, "StrictHostKeyChecking=accept-new"@, "-v"@] + argv.skip(1)
            } else {
                seq!["ssh"@, "-v"@] + argv.skip(1)
            },
        )
    } else if argv.len() > 0 && argv[0] == "mosh"@ && has_secret {
        PreparedView::MoshAcceptNew(argv)
    } else {
        PreparedView::Ready(argv)
    }
}

/// A session is prepared as a verbose connection from the command line is.
pub proof fn sessions_connect_verbosely(argv: Seq<Seq<char>>, has_secret: bool)
    ensures
        prepared_session(argv, has_secret) == prepared(argv, has_secret, true),
{
    if argv.len() > 0 && argv[0] == "ssh"@ {
        assert(prepared_session(argv, has_secret)->Ready_0 =~= prepared(
            argv,
            has_secret,
            true,
        )->Ready_0);
    }
}

/// Apply connect-time tweaks to a bare session command line: verbose `ssh`
/// logging and accept-new when a stored credential is present.
pub fn prepare_session_connect_argv(argv: Vec<String>, has_stored_secret: bool) -> (r: PreparedArgv)
    requires
        argv@.len() + 3 <= usize::MAX,
    ensures
        r@ == prepared_session(views(argv@), has_stored_secret),
{
    proof {
        sessions_connect_verbosely(views(argv@), has_stored_secret);
    }
    prepare_cli_connect_argv(argv, has_stored_secret, true)
}

/// The connect options never touch what a command line held before: it is still
/// there, in order, around them.
pub proof fn preparing_keeps_the_command(argv: Seq<Seq<char>>, has_secret: bool, verbose: bool)
    ensures
        ({
            let n = connect_options(has_secret, verbose).len();
            match prepared(argv, has_secret, verbose) {
                PreparedView::Ready(out) => {
                    ||| out == argv
                    ||| argv.len() > 0 && out.len() == argv.len() + n && out.take(1) == argv.take(1)
                        && out.skip(1 + n as int) == argv.skip(1)
                },
                PreparedView::MoshAcceptNew(out) => out == argv,
            }
        }),
{
    let n = connect_options(has_secret, verbose).len();
    if argv.len() > 0 && argv[0] == "ssh"@ {
        let out = argv.take(1) + connect_options(has_secret, verbose) + argv.skip(1);
        assert(out.take(1) =~= argv.take(1));
        assert(out.skip(1 + n as int) =~= argv.skip(1));
    }
}

/// Why the connection fields of a host could not be found.
#[derive(Debug, PartialEq, Eq)]
pub enum SftpHostError {
    ListFailed(String),
    /// The alias of this name is gone from `ssh_config`.
    AliasGone(String),
    ResolveFailed { name: String, error: String },
}

impl SftpHostError {
    pub open spec fn message_spec(self) -> Seq<char> {
        match self {
            SftpHostError::ListFailed(e) => "could not list SSH config hosts for SFTP: "@ + e@,
            SftpHostError::AliasGone(name) => "host '"@ + name@
                + "' is no longer present in ssh_config"@,
            SftpHostError::ResolveFailed { name, error } => "could not resolve "@ + name@
                + "/ssh_config for SFTP: "@ + error@,
        }
    }

    pub fn message(&self) -> (r: String)
        ensures
            r@ == self.message_spec(),
    {
        match self {
            SftpHostError::ListFailed(e) => cat2(
                "could not list SSH config hosts for SFTP: ",
                e.as_str(),
            ),
            SftpHostError::AliasGone(name) => cat3(
                "host '",
                name.as_str(),
                "' is no longer present in ssh_config",
            ),
            SftpHostError::ResolveFailed { name, error } => cat4(
                "could not resolve ",
                name.as_str(),
                "/ssh_config for SFTP: ",
                error.as_str(),
            ),
        }
    }
}

/// The fields that `ssh_config` gives for a host, with what the launcher knows
/// better: the user name, and a key or certificate of the identity. An identity
/// without a key leaves the one from the config in place.
pub open spec fn overlaid(m: ManagedHost, resolved: SshHost) -> SshHost {
    let own = ssh_host_of(m);
    SshHost {
        user: if own.user is Some {
            own.user
        } else {
            resolved.user
        },
        identity_file: if own.identity_file is Some {
            own.identity_file
        } else {
            resolved.identity_file
        },
        certificate_file: if own.certificate_file is Some {
            own.certificate_file
        } else {
            resolved.certificate_file
        },
        ..resolved
    }
}

pub fn overlay_metadata(m: &ManagedHost, resolved: SshHost) -> (r: SshHost)
    ensures
        r == overlaid(*m, resolved),
{
    let own = managed_to_ssh_host(m);
    let mut resolved = resolved;
    if own.user.is_some() {
        resolved.user = own.user;
    }
    if own.identity_file.is_some() {
        resolved.identity_file = own.identity_file;
    }
    if own.certificate_file.is_some() {
        resolved.certificate_file = own.certificate_file;
    }
    resolved
}

/// Whether a list of names holds `name`.
pub open spec fn names(aliases: Seq<Seq<char>>, name: Seq<char>) -> bool {
    aliases.contains(name)
}

pub fn holds_name(aliases: &Vec<String>, name: &str) -> (r: bool)
    ensures
        r == names(views(aliases@), name@),
{
    let ghost all = views(aliases@);
    let mut i: usize = 0;
    while i < aliases.len()
        invariant
            i <= aliases@.len(),
            all == views(aliases@),
            forall|k: int| 0 <= k < i ==> all[k] != name@,
        decreases aliases@.len() - i,
    {
        if same(aliases[i].as_str(), name) {
            assert(all[i as int] == name@);
            return true;
        }
        i = i + 1;
    }
    false
}

/// What the answers of a resolver come to for a host that `ssh_config` holds.
/// `resolved` counts only where the alias is listed.
pub open spec fn resolved_host(
    m: ManagedHost,
    aliases: Result<Vec<String>, String>,
    resolved: Result<SshHost, String>,
) -> Result<SshHost, SftpHostError> {
    match aliases {
        Err(e) => Err(SftpHostError::ListFailed(e)),
        Ok(aliases) => if !names(views(aliases@), m.name@) {
            Err(SftpHostError::AliasGone(m.name))
        } else {
            match resolved {
                Ok(host) => Ok(overlaid(m, host)),
                Err(error) => Err(SftpHostError::ResolveFailed { name: m.name, error }),
            }
        },
    }
}

/// Resolve the connection fields needed by native SFTP.
///
/// SSH-config-backed sessions pass the alias to OpenSSH, which resolves the
/// user name and identity file itself; a direct connection needs those fields
/// explicitly. Launcher and legacy entries already carry them. What the resolver
/// answers is its own affair.
pub fn resolve_sftp_ssh_host<R: HostResolver>(entry: &HostEntry, resolver: &R) -> (r: Result<
    SshHost,
    SftpHostError,
>)
    ensures
        match *entry {
            HostEntry::Managed(m) if m.source == HostSource::SshConfig => exists|
                aliases: Result<Vec<String>, String>,
                resolved: Result<SshHost, String>,
            |
                #![trigger resolved_host(m, aliases, resolved)]
                call_ensures(R::list_hosts, (resolver,), aliases) && (aliases is Ok && names(
                    views(aliases->Ok_0@),
                    m.name@,
                ) ==> exists|asked: &str|
                    asked@ == m.name@ && #[trigger] call_ensures(
                        R::resolve_host,
                        (resolver, asked),
                        resolved,
                    )) && r == resolved_host(m, aliases, resolved),
            _ => r == Ok::<SshHost, SftpHostError>(entry.ssh_host_spec()),
        },
{
    match entry {
        HostEntry::Managed(m) => {
            if m.source != HostSource::SshConfig {
                return Ok(entry.ssh_host());
            }
            match resolver.list_hosts() {
                Err(e) => {
                    let ghost none: Result<SshHost, String> = Err(e);
                    assert(resolved_host(
                        *m,
                        Err::<Vec<String>, String>(e),
                        none,
                    ) is Err);
                    Err(SftpHostError::ListFailed(e))
                },
                Ok(aliases) => {
                    if !holds_name(&aliases, m.name.as_str()) {
                        let ghost none: Result<SshHost, String> = Err(m.name);
                        assert(resolved_host(
                            *m,
                            Ok::<Vec<String>, String>(aliases),
                            none,
                        ) is Err);
                        return Err(SftpHostError::AliasGone(m.name.clone()));
                    }
                    let answer = resolver.resolve_host(m.name.as_str());
                    let ghost seen = resolved_host(*m, Ok::<Vec<String>, String>(aliases), answer);
                    match answer {
                        Err(error) => Err(
                            SftpHostError::ResolveFailed { name: m.name.clone(), error },
                        ),
                        Ok(resolved) => Ok(overlay_metadata(m, resolved)),
                    }
                },
            }
        },
        HostEntry::Legacy { .. } => Ok(entry.ssh_host()),
    }
}

} // verus!
