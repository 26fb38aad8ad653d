//! Who a host is connected to as, where, and with which secret.

use vstd::prelude::*;

use crate::app::connect::{
    host_key_spec, identity_key_spec, login, login_of, mosh_argv_for_entry, overlaid, prepared,
    resolved_host, secret_key, secret_outcome, secret_owner, session_argv_for_entry,
    session_meta_for_entry, ssh_argv_for_entry, ssh_argv_for_key_push, AuthUse,
    LaunchRequest, PendingSecret, PreparedView, SessionMeta, SftpHostError,
};
use crate::hosts::{HostEntry, HostSource, Identity, ManagedHost, SessionTransport, SshHost};
use crate::text::{decimal, integer, is_digit, numerals_are_read_back, views};

verus! {

broadcast use crate::text::group_views;

/// A host that has a user name of its own is connected to under that name,
/// whatever identity it has; only a host without one takes the name of its
/// identity.
pub proof fn own_user_names_come_first(
    m: ManagedHost,
    other: Option<Identity>,
    used: Option<String>,
    config: SshHost,
)
    requires
        call_ensures(login, (&m,), used),
    ensures
        ({
            let changed = ManagedHost { identity: other, ..m };
            m.username matches Some(own) ==> {
                &&& used == Some(own)
                &&& HostEntry::Managed(m).ssh_host_spec().user == Some(own)
                &&& HostEntry::Managed(changed).ssh_host_spec().user == Some(own)
                &&& overlaid(m, config).user == Some(own)
                &&& overlaid(changed, config).user == Some(own)
            }
        }),
        m.username is None ==> {
            &&& m.identity matches Some(identity) ==> used == identity.username
            &&& m.identity is None ==> used is None
            &&& HostEntry::Managed(m).ssh_host_spec().user == used
            &&& overlaid(m, config).user == if used is Some {
                used
            } else {
                config.user
            }
        },
        used == login_of(m),
{
}

/// The rest of a managed host is used as it was entered: its address, its port,
/// its jump host and its command are its own, the key and the certificate are
/// those of its identity.
pub proof fn managed_hosts_are_used_as_entered(m: ManagedHost, meta: SessionMeta)
    requires
        call_ensures(session_meta_for_entry, (&HostEntry::Managed(m),), meta),
    ensures
        ({
            let host = HostEntry::Managed(m).ssh_host_spec();
            &&& host.name == m.name
            &&& host.hostname == Some(m.address)
            &&& host.port == Some(m.port)
            &&& host.proxy_jump == m.proxy_jump
            &&& host.forward_agent == Some(m.forward_agent)
            &&& host.remote_command == m.remote_command
            &&& m.identity matches Some(identity) ==> host.identity_file == identity.private_key
                && host.certificate_file == identity.certificate
            &&& m.identity is None ==> host.identity_file is None && host.certificate_file is None
            &&& meta.host_id == Some(m.id)
            &&& meta.address == Some(m.address)
            &&& meta.port == Some(m.port)
            &&& meta.proxy_jump == m.proxy_jump
            &&& meta.user == host.user
            &&& meta.identity == host.identity_file
        }),
{
}

/// The fields that the ssh configuration gives for a host are kept but for the
/// user name, the key and the certificate, and those give way only to what the
/// launcher itself has. A host whose alias the configuration has lost is not
/// connected to, nor one that cannot be resolved.
pub proof fn the_configuration_decides_the_place(
    m: ManagedHost,
    aliases: Result<Vec<String>, String>,
    config: Result<SshHost, String>,
)
    ensures
        resolved_host(m, aliases, config) is Ok <==> aliases is Ok && config is Ok && (exists|i: int|
            0 <= i < aliases->Ok_0@.len() && (#[trigger] aliases->Ok_0@[i])@ == m.name@),
        resolved_host(m, aliases, config) matches Ok(host) ==> {
            let given = config->Ok_0;
            &&& host.name == given.name
            &&& host.hostname == given.hostname
            &&& host.port == given.port
            &&& host.proxy_jump == given.proxy_jump
            &&& host.forward_agent == given.forward_agent
            &&& host.remote_command == given.remote_command
            &&& host.identity_file == if m.identity matches Some(identity)
                && identity.private_key is Some {
                m.identity->0.private_key
            } else {
                given.identity_file
            }
            &&& host.certificate_file == if m.identity matches Some(identity)
                && identity.certificate is Some {
                m.identity->0.certificate
            } else {
                given.certificate_file
            }
        },
        resolved_host(m, aliases, config) matches Err(SftpHostError::AliasGone(name)) ==> name
            == m.name,
        aliases is Err ==> resolved_host(m, aliases, config) == Err::<SshHost, SftpHostError>(
            SftpHostError::ListFailed(aliases->Err_0),
        ),
{
    if let Ok(aliases) = aliases {
        let all = views(aliases@);
        assert(all.len() == aliases@.len());
        if all.contains(m.name@) {
            let i = choose|i: int| 0 <= i < all.len() && all[i] == m.name@;
            assert(aliases@[i]@ == m.name@);
        }
        if exists|i: int| 0 <= i < aliases@.len() && (#[trigger] aliases@[i])@ == m.name@ {
            let i = choose|i: int| 0 <= i < aliases@.len() && (#[trigger] aliases@[i])@ == m.name@;
            assert(all[i] == m.name@);
        }
    }
}

/// A session is opened by the program that the host is set to, all other work
/// is done over `ssh`. Whichever it is, a host of the ssh configuration is
/// called by its alias alone and one of the launcher with everything spelled
/// out, and both reach the same host. A key is pushed without the command that
/// the host runs otherwise.
pub proof fn sessions_use_the_transport_of_the_host(
    entry: HostEntry,
    session: LaunchRequest,
    ssh: LaunchRequest,
    mosh: LaunchRequest,
    push: LaunchRequest,
)
    requires
        call_ensures(session_argv_for_entry, (&entry,), session),
        call_ensures(ssh_argv_for_entry, (&entry,), ssh),
        call_ensures(mosh_argv_for_entry, (&entry,), mosh),
        call_ensures(ssh_argv_for_key_push, (&entry,), push),
    ensures
        entry matches HostEntry::Managed(m) ==> {
            &&& session.transport == m.transport
            &&& session.alias_only <==> m.source is SshConfig
        },
        entry matches HostEntry::Legacy { host, .. } ==> {
            &&& session.transport is Ssh
            &&& session.alias_only
            &&& session.host == host
        },
        ssh.transport is Ssh,
        mosh.transport is Mosh,
        push.transport is Ssh,
        session == ssh || session == mosh,
        ssh.host == mosh.host,
        ssh.alias_only == mosh.alias_only,
        push.alias_only == ssh.alias_only,
        push.host.remote_command is None,
        push.host.user == ssh.host.user,
        push.host.hostname == ssh.host.hostname,
        push.host.port == ssh.host.port,
        push.host.name == ssh.host.name,
        push.host.identity_file == ssh.host.identity_file,
        push.host.certificate_file == ssh.host.certificate_file,
        push.host.proxy_jump == ssh.host.proxy_jump,
        session.host == entry.ssh_host_spec(),
{
}

proof fn lemma_integers_differ(one: int, other: int)
    requires
        integer(one) == integer(other),
    ensures
        one == other,
{
    reveal_strlit("-");
    let a = if one < 0 {
        (-one) as nat
    } else {
        one as nat
    };
    let b = if other < 0 {
        (-other) as nat
    } else {
        other as nat
    };
    numerals_are_read_back(a, 10);
    numerals_are_read_back(b, 10);
    assert(is_digit(decimal(a)[0]) && is_digit(decimal(b)[0]));
    if one < 0 {
        assert(integer(one)[0] == '-');
        assert(integer(one).skip(1) =~= decimal(a));
    }
    if other < 0 {
        assert(integer(other)[0] == '-');
        assert(integer(other).skip(1) =~= decimal(b));
    }
}

/// No two hosts share a stored secret, no two identities do, and none of a host
/// is one of an identity.
pub proof fn stored_secrets_are_kept_apart(one: i64, other: i64)
    ensures
        host_key_spec(one) == host_key_spec(other) ==> one == other,
        identity_key_spec(one) == identity_key_spec(other) ==> one == other,
        host_key_spec(one) != identity_key_spec(other),
{
    reveal_strlit("host:");
    reveal_strlit("identity:");
    assert(host_key_spec(one)[0] == 'h');
    assert(identity_key_spec(other)[0] == 'i');
    assert(host_key_spec(one).skip(5) =~= integer(one as int));
    assert(host_key_spec(other).skip(5) =~= integer(other as int));
    assert(identity_key_spec(one).skip(9) =~= integer(one as int));
    assert(identity_key_spec(other).skip(9) =~= integer(other as int));
    if host_key_spec(one) == host_key_spec(other) || identity_key_spec(one) == identity_key_spec(
        other,
    ) {
        lemma_integers_differ(one as int, other as int);
    }
}

/// A password of the host is used before a secret of its identity. What is
/// stored for an identity with a key unlocks the key; everything else is a
/// password. A stored secret is sent as it is stored, and nothing is sent where
/// none is stored.
pub proof fn own_passwords_come_first(
    m: ManagedHost,
    lookup: Result<Option<String>, String>,
    purpose: AuthUse,
    r: (Option<PendingSecret>, String),
)
    requires
        secret_outcome(m, lookup, purpose, r),
    ensures
        m.has_password ==> secret_key(m) == host_key_spec(m.id),
        !m.has_password && secret_owner(m) is Some ==> (m.identity matches Some(identity)
            && identity.has_password && secret_key(m) == identity_key_spec(identity.id)),
        secret_owner(m) is Some <==> m.has_password || (m.identity matches Some(identity)
            && identity.has_password),
        r.0 is Some <==> secret_owner(m) is Some && lookup is Ok && lookup->Ok_0 is Some,
        r.0 matches Some(PendingSecret::Password(sent)) ==> lookup == Ok::<Option<String>, String>(
            Some(sent),
        ) && (m.has_password || (m.identity->0).private_key is None),
        r.0 matches Some(PendingSecret::Passphrase(sent)) ==> lookup == Ok::<
            Option<String>,
            String,
        >(Some(sent)) && !m.has_password && (m.identity->0).private_key is Some,
{
}

/// A new host key is accepted unseen exactly where a stored secret is sent, and
/// only a program that can be told so is told.
pub proof fn new_host_keys_are_accepted_for_stored_secrets(
    argv: Seq<Seq<char>>,
    has_secret: bool,
    verbose: bool,
)
    requires
        argv.len() > 0,
        !argv.contains("StrictHostKeyChecking=accept-new"@),
        !argv.contains("-v"@),
    ensures
        prepared(argv, has_secret, verbose) matches PreparedView::Ready(out) ==> {
            &&& out.contains("StrictHostKeyChecking=accept-new"@) <==> has_secret && argv[0]
                == "ssh"@
            &&& out.contains("-v"@) <==> verbose && argv[0] == "ssh"@
        },
        prepared(argv, has_secret, verbose) is MoshAcceptNew <==> has_secret && argv[0] == "mosh"@,
{
    reveal_strlit("StrictHostKeyChecking=accept-new");
    reveal_strlit("-v");
    reveal_strlit("-o");
    reveal_strlit("ssh");
    reveal_strlit("mosh");
    let accept = "StrictHostKeyChecking=accept-new"@;
    let loud = "-v"@;
    assert(accept.len() > 4 && loud.len() == 2 && "-o"@[1] != loud[1]);
    assert("ssh"@.len() != "mosh"@.len());
    if argv[0] == "ssh"@ {
        let out = prepared(argv, has_secret, verbose)->Ready_0;
        if has_secret {
            assert(out[1] == "-o"@ && out[2] == accept);
        }
        if verbose {
            assert(out[if has_secret {
                3int
            } else {
                1int
            }] == loud);
        }
        let options = crate::app::connect::connect_options(has_secret, verbose);
        let n = options.len() as int;
        assert forall|i: int| 0 <= i < out.len() implies out[i] == argv[0] || argv.contains(out[i])
            || options.contains(out[i]) by {
            if i == 0 {
            } else if i < 1 + n {
                assert(out[i] == options[i - 1]);
            } else {
                assert(out[i] == argv[i - n]);
            }
        }
        assert(argv.contains(argv[0]));
        if out.contains(accept) && !has_secret {
            assert(options.contains(accept));
        }
        if out.contains(loud) && !verbose {
            assert(options.contains(loud));
        }
    }
}

} // verus!
