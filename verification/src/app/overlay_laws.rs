//! What the overlays and pickers act on: known hosts, keys to push, hosts to
//! connect to.

use vstd::prelude::*;

use crate::app::connect::identity_key_spec;
use crate::app::effects::EffectView;
use crate::app::nav::{around, header_of, headers, headers_to, heads};
use crate::app::push_key::{keyed, keyed_to, positions_below, push_argv, push_command};
use crate::app::sftp_session::{host_named, session_named};
use crate::app::state::{HostPickerView, KnownHostsView, LinkView, NavRow, SessionView};
use crate::app::AppView;
use crate::hosts::{HostEntry, Identity};
use crate::keybinds::{KeyAction, KeyEvent};
use crate::sftp::model::{CommandView, FileEntryView, Side};
use crate::text::{lowercase, occurs_in};

verus! {

proof fn lemma_filtered(state: KnownHostsView, n: nat)
    requires
        n <= state.entries.len() <= usize::MAX,
    ensures
        forall|i: usize| #[trigger]
            state.filtered_to(n).contains(i) <==> i < n && state.matches(state.entries[i as int]),
        forall|k: int, l: int|
            #![trigger state.filtered_to(n)[k], state.filtered_to(n)[l]]
            0 <= k < l < state.filtered_to(n).len() ==> state.filtered_to(n)[k]
                < state.filtered_to(n)[l],
    decreases n,
{
    if n > 0 {
        let m = (n - 1) as nat;
        lemma_filtered(state, m);
        let before = state.filtered_to(m);
        let now = state.filtered_to(n);
        assert forall|k: int| 0 <= k < before.len() implies (#[trigger] before[k]) < m by {
            assert(before.contains(before[k]));
        }
        assert forall|i: usize| #[trigger] now.contains(i) <==> i < n && state.matches(
            state.entries[i as int],
        ) by {
            if before.contains(i) {
                let k = choose|k: int| 0 <= k < before.len() && before[k] == i;
                assert(before.push(m as usize)[k] == i);
            }
            if now.contains(i) {
                let k = choose|k: int| 0 <= k < now.len() && now[k] == i;
                if k < before.len() {
                    assert(before[k] == i);
                    assert(before.contains(i));
                }
            }
            if state.matches(state.entries[m as int]) {
                assert(now[before.len() as int] == m as usize);
            }
        }
    }
}

/// A search shows exactly the known hosts whose names hold what is searched for,
/// whatever the case, in the order of the file; without one all are shown.
pub proof fn searches_show_what_matches(state: KnownHostsView, i: usize)
    requires
        i < state.entries.len() <= usize::MAX,
    ensures
        state.filtered().contains(i) <==> state.query.len() == 0 || occurs_in(
            lowercase(state.entries[i as int].hosts),
            lowercase(state.query),
        ),
        forall|k: int, l: int|
            #![trigger state.filtered()[k], state.filtered()[l]]
            0 <= k < l < state.filtered().len() ==> state.filtered()[k] < state.filtered()[l],
{
    lemma_filtered(state, state.entries.len());
}

/// A known host is removed only by the key that confirms it, once it was asked
/// about: then it is the selected one, which the search shows, and no other. One
/// that must not be removed is not even asked about.
pub proof fn removals_take_the_selected_host(app: AppView, key: KeyEvent)
    requires
        app.known_hosts is Some,
        app.known_hosts->0.entries.len() <= usize::MAX,
    ensures
        ({
            let state = app.known_hosts->0;
            let after = app.known_hosts_key(key);
            &&& !state.confirming_delete ==> after.effects == app.effects || (after.effects.drop_last()
                == app.effects && after.effects.last() is Do)
            &&& state.confirming_delete && !app.hits(KeyAction::ConfirmYes, key) ==> after.effects
                == app.effects
            &&& state.confirming_delete && app.hits(KeyAction::ConfirmYes, key) && state.selected
                < state.filtered().len() ==> {
                let at = state.filtered()[state.selected as int];
                &&& at < state.entries.len()
                &&& state.matches(state.entries[at as int])
                &&& after.effects == app.effects.push(
                    EffectView::RemoveKnownHost(state.entries[at as int].hosts),
                )
            }
            &&& state.confirming_delete ==> (after.known_hosts matches Some(next)
                && !next.confirming_delete && next.entries == state.entries)
            &&& state.selected < state.filtered().len()
                && state.entries[state.filtered()[state.selected as int] as int].block_reason
                is Some && !state.confirming_delete ==> (after.known_hosts matches Some(next)
                ==> !next.confirming_delete)
        }),
{
    reveal(AppView::known_hosts_key);
    let state = app.known_hosts->0;
    lemma_filtered(state, state.entries.len());
    let after = app.known_hosts_key(key);
    if after.effects.len() > app.effects.len() {
        assert(after.effects.drop_last() =~= app.effects);
    }
    if state.selected < state.filtered().len() {
        assert(state.filtered().contains(state.filtered()[state.selected as int]));
    }
}

proof fn lemma_keyed(identities: Seq<Identity>, n: nat)
    requires
        n <= identities.len() <= usize::MAX,
    ensures
        forall|k: int|
            0 <= k < keyed_to(identities, n).len() ==> (#[trigger] keyed_to(identities, n)[k]) < n
                && identities[keyed_to(identities, n)[k] as int].private_key is Some,
        forall|i: int|
            0 <= i < n && (#[trigger] identities[i]).private_key is Some ==> keyed_to(
                identities,
                n,
            ).contains(i as usize),
    decreases n,
{
    if n > 0 {
        let m = (n - 1) as nat;
        lemma_keyed(identities, m);
        let before = keyed_to(identities, m);
        let now = keyed_to(identities, n);
        assert forall|i: int|
            0 <= i < n && (#[trigger] identities[i]).private_key is Some implies now.contains(
            i as usize,
        ) by {
            if i < m {
                assert(before.contains(i as usize));
                let k = choose|k: int| 0 <= k < before.len() && before[k] == i as usize;
                assert(now[k] == i as usize);
            } else {
                assert(now[before.len() as int] == i as usize);
            }
        }
    }
}

/// Only identities with a key are offered for a push, and each of them is. The
/// key that is pushed then is that of the picked one, to the selected host.
pub proof fn picked_keys_go_to_the_selected_host(app: AppView, at: usize, key: KeyEvent)
    requires
        app.identities.len() <= usize::MAX,
        app.push_key_identity_picker == Some(at),
        at < keyed(app.identities).len(),
        key.code is Enter,
    ensures
        forall|i: int|
            0 <= i < app.identities.len() && (#[trigger] app.identities[i]).private_key is Some
                ==> keyed(app.identities).contains(i as usize),
        ({
            let identity = app.identities[keyed(app.identities)[at as int] as int];
            let after = app.identity_picker_key(key);
            &&& identity.private_key is Some
            &&& after.push_key_identity_picker is None
            &&& app.selected_host() is None ==> after.effects == app.effects
            &&& app.selected_host() matches Some(host) ==> {
                &&& after.effects.len() == app.effects.len() + 1
                &&& after.effects.last() matches EffectView::ReadPublicKey {
                    host: to,
                    identity: name,
                    key_path,
                    secret,
                }
                &&& to == host
                &&& name == identity.name@
                &&& key_path == identity.private_key->0@
                &&& secret == if identity.has_password {
                    Some(identity_key_spec(identity.id))
                } else {
                    None
                }
            }
        }),
{
    reveal(AppView::identity_picker_key);
    lemma_keyed(app.identities, app.identities.len());
}

proof fn lemma_positions_below(all: Seq<usize>, n: nat)
    ensures
        positions_below(all, n) == all.filter(|at: usize| at < n),
    decreases all.len(),
{
    reveal(Seq::filter);
    if all.len() > 0 {
        lemma_positions_below(all.drop_last(), n);
    } else {
        assert(all =~= Seq::empty());
    }
}

/// From the key list, the selected key goes to the picked host: the one on the
/// selected row of the hosts that match what was searched for, or of all hosts
/// where nothing was.
pub proof fn selected_keys_go_to_the_picked_host(
    app: AppView,
    picker: HostPickerView,
    key: KeyEvent,
)
    requires
        app.push_key_host_picker == Some(picker),
        app.hosts.len() <= usize::MAX,
        picker.query.len() == 0 ==> picker.selected < app.hosts.len(),
        picker.query.len() > 0 ==> picker.selected < picker.matches.filter(
            |at: usize| at < app.hosts.len(),
        ).len(),
        app.identity_selected < app.identities.len(),
        app.identities[app.identity_selected as int].private_key is Some,
        key.code is Enter,
    ensures
        ({
            let identity = app.identities[app.identity_selected as int];
            let after = app.host_picker_key(key);
            &&& after.push_key_host_picker is None
            &&& after.effects.len() == app.effects.len() + 1
            &&& after.effects.last() matches EffectView::ReadPublicKey {
                host: to,
                identity: name,
                key_path,
                ..
            }
            &&& picker.query.len() == 0 ==> to == picker.selected
            &&& picker.query.len() > 0 ==> to == picker.matches.filter(
                |at: usize| at < app.hosts.len(),
            )[picker.selected as int]
            &&& name == identity.name@
            &&& key_path == identity.private_key->0@
        }),
{
    reveal(AppView::host_picker_key);
    lemma_positions_below(picker.matches, app.hosts.len());
}

/// The key that was read is what the host is told to authorize; a key that could
/// not be read is not pushed.
pub proof fn read_keys_are_pushed(
    app: AppView,
    host: usize,
    identity: Seq<char>,
    read: Result<Seq<char>, Seq<char>>,
)
    requires
        host < app.hosts.len(),
    ensures
        ({
            let after = app.push_key_taken(host, identity, read);
            &&& read matches Ok(key) ==> after.effects == app.effects.push(
                EffectView::PreparePush { host, identity, remote_cmd: push_command(key) },
            )
            &&& read is Err ==> after.effects.len() == app.effects.len() + 1
                && !(after.effects.last() is PreparePush)
        }),
{
}

/// A push runs the command line that was prepared: every word of it is kept, and
/// what is added stands behind the program.
pub proof fn pushes_run_the_prepared_command(argv: Seq<Seq<char>>, has_secret: bool)
    requires
        argv.len() > 0,
    ensures
        ({
            let full = push_argv(argv, has_secret);
            let added = full.len() - argv.len();
            &&& added >= 0
            &&& full[0] == argv[0]
            &&& full.skip(1 + added) == argv.skip(1)
            &&& argv[0] != "ssh"@ ==> full == argv
            &&& argv[0] == "ssh"@ ==> (full.contains("StrictHostKeyChecking=accept-new"@)
                <==> has_secret || argv.skip(1).contains("StrictHostKeyChecking=accept-new"@))
        }),
{
    reveal_strlit("ssh");
    reveal_strlit("-o");
    reveal_strlit("-v");
    reveal_strlit("StrictHostKeyChecking=accept-new");
    let full = push_argv(argv, has_secret);
    let added = full.len() - argv.len();
    let rest = argv.skip(1);
    let accept = "StrictHostKeyChecking=accept-new"@;
    assert(full.skip(1 + added) =~= rest);
    if argv[0] == "ssh"@ {
        assert("ssh"@.len() != accept.len() && "-o"@.len() != accept.len() && "-v"@.len()
            != accept.len());
        if has_secret {
            assert(full[2] == accept);
        }
        if rest.contains(accept) {
            let i = choose|i: int| 0 <= i < rest.len() && rest[i] == accept;
            assert(full[i + 1 + added] == accept);
        }
        if full.contains(accept) && !has_secret {
            let i = choose|i: int| 0 <= i < full.len() && full[i] == accept;
            assert(rest[i - 2] == accept);
        }
    }
}

/// A browser opens on the host that is asked for, unless that host is reached
/// only through another; then nothing is started.
pub proof fn browsers_open_on_the_selected_host(app: AppView, host: usize)
    requires
        host < app.hosts.len(),
    ensures
        ({
            let jumps = app.hosts[host as int].ssh_host_spec().proxy_jump is Some;
            let right = app.sftp_opened(host);
            let left = app.left_pane_pointed(host);
            &&& jumps ==> right.effects == app.effects && left.effects == app.effects
            &&& !jumps ==> right.effects == app.effects.push(EffectView::StartSftp(host))
            &&& !jumps && app.sftp is Some && app.remote_edit is None ==> left.effects
                == app.effects.push(EffectView::StartSftpLeft(host))
            &&& app.sftp is None ==> left.effects == app.effects
            &&& right.sftp == app.sftp && right.sftp_tx == app.sftp_tx
        }),
{
    reveal(AppView::sftp_opened);
    reveal(AppView::left_pane_pointed);
}

/// A browser that opens shows the local directory on the left, lists the
/// directory that the server starts in on the right, and knows its host.
pub proof fn opened_browsers_list_both_sides(
    app: AppView,
    host: Seq<char>,
    cwd: Seq<char>,
    rows: Seq<FileEntryView>,
    link: LinkView,
)
    requires
        link.alive,
    ensures
        ({
            let after = app.browser_opened(host, cwd, rows, link);
            &&& after.sftp matches Some(browser)
            &&& browser.local.cwd == cwd
            &&& browser.local.entries.len() == rows.len() + 1
            &&& browser.local.entries.drop_first() == rows
            &&& browser.left_host is None
            &&& browser.connecting
            &&& browser.queue.len() == 0
            &&& browser.local.show_hidden == app.sftp_show_hidden
            &&& browser.remote.show_hidden == app.sftp_show_hidden
            &&& after.sftp_host == Some(host)
            &&& after.sftp_tx matches Some(right)
            &&& right.outbox == link.outbox.push(
                CommandView::ListDir(Side::Remote, browser.remote.cwd),
            )
        }),
{
    let after = app.browser_opened(host, cwd, rows, link);
    assert(after.sftp->0.local.entries.drop_first() =~= rows);
}

proof fn lemma_host_named(hosts: Seq<HostEntry>, name: Seq<char>)
    ensures
        host_named(hosts, name) matches Some(i) ==> 0 <= i < hosts.len()
            && hosts[i].name_spec()@ == name,
        host_named(hosts, name) is None ==> forall|i: int|
            0 <= i < hosts.len() ==> (#[trigger] hosts[i]).name_spec()@ != name,
    decreases hosts.len(),
{
    if hosts.len() > 0 {
        let rest = hosts.drop_last();
        lemma_host_named(rest, name);
        if host_named(hosts, name) is None {
            assert forall|i: int| 0 <= i < hosts.len() implies (#[trigger] hosts[i]).name_spec()@
                != name by {
                if i < rest.len() {
                    assert(rest[i] == hosts[i]);
                }
            }
        }
    }
}

proof fn lemma_session_named(sessions: Seq<SessionView>, name: Seq<char>)
    ensures
        session_named(sessions, name) matches Some(i) ==> 0 <= i < sessions.len()
            && sessions[i].display_name == name,
        session_named(sessions, name) is None ==> forall|i: int|
            0 <= i < sessions.len() ==> (#[trigger] sessions[i]).display_name != name,
    decreases sessions.len(),
{
    if sessions.len() > 0 {
        let rest = sessions.drop_last();
        lemma_session_named(rest, name);
        if session_named(sessions, name) is None {
            assert forall|i: int| 0 <= i < sessions.len() implies (
            #[trigger] sessions[i]).display_name != name by {
                if i < rest.len() {
                    assert(rest[i] == sessions[i]);
                }
            }
        }
    }
}

/// A shell for the browser opens on the host that is browsed: a session there is
/// shown again, else the host is connected to; where there is neither, nothing
/// is started.
pub proof fn shells_open_on_the_browsed_host(app: AppView, name: Seq<char>)
    requires
        app.sftp_host == Some(name),
        app.sessions.len() <= usize::MAX,
        app.hosts.len() <= usize::MAX,
    ensures
        ({
            let after = app.shell_opened_for_browser();
            let running = exists|i: int|
                0 <= i < app.sessions.len() && (#[trigger] app.sessions[i]).display_name == name;
            let saved = exists|i: int|
                0 <= i < app.hosts.len() && (#[trigger] app.hosts[i]).name_spec()@ == name;
            &&& running ==> (after.active_session matches Some(at) && at < app.sessions.len()
                && app.sessions[at as int].display_name == name)
            &&& !running && saved ==> after.effects.len() == app.effects.len() + 1 && (
            after.effects.last() matches EffectView::ConnectHost(host) && host < app.hosts.len()
                && app.hosts[host as int].name_spec()@ == name)
            &&& !running && !saved ==> after.effects == app.effects
        }),
{
    reveal(AppView::shell_opened_for_browser);
    lemma_session_named(app.sessions, name);
    lemma_host_named(app.hosts, name);
}

/// The browser for a session opens on that session's host.
pub proof fn browsers_open_on_the_host_of_the_session(app: AppView, active: usize)
    requires
        app.active_session == Some(active),
        active < app.sessions.len(),
        app.sftp is None,
        app.hosts.len() <= usize::MAX,
    ensures
        ({
            let name = app.sessions[active as int].display_name;
            let after = app.sftp_opened_for_session();
            forall|k: int|
                app.effects.len() <= k < after.effects.len() && #[trigger] after.effects[k]
                    is StartSftp ==> app.hosts[after.effects[k]->StartSftp_0 as int].name_spec()@
                    == name
        }),
{
    reveal(AppView::sftp_opened_for_session);
    reveal(AppView::sftp_opened);
    lemma_host_named(app.hosts, app.sessions[active as int].display_name);
}

/// The selection goes from row to row and round at both ends, and never leaves
/// the list.
pub proof fn the_selection_goes_round(app: AppView)
    requires
        app.selected < app.nav_rows.len() <= usize::MAX,
    ensures
        ({
            let n = app.nav_rows.len();
            let down = app.selection_moved(1);
            let up = app.selection_moved(-1);
            &&& down.selected == if app.selected + 1 < n {
                app.selected + 1
            } else {
                0
            }
            &&& up.selected == if app.selected > 0 {
                app.selected - 1
            } else {
                n - 1
            }
            &&& down == AppView { selected: down.selected, ..app }
            &&& up == AppView { selected: up.selected, ..app }
        }),
{
    reveal(AppView::selection_moved);
    let n = app.nav_rows.len() as int;
    let at = app.selected as int;
    if at + 1 < n {
        vstd::arithmetic::div_mod::lemma_small_mod((at + 1) as nat, n as nat);
    } else {
        vstd::arithmetic::div_mod::lemma_mod_self_0(n);
    }
    if at > 0 {
        vstd::arithmetic::div_mod::lemma_small_mod((at - 1) as nat, n as nat);
    } else {
        vstd::arithmetic::div_mod::lemma_small_mod((n - 1) as nat, n as nat);
        vstd::arithmetic::div_mod::lemma_mod_add_multiples_vanish(-1, n);
    }
}

proof fn lemma_headers(rows: Seq<NavRow>, n: nat)
    requires
        n <= rows.len() <= usize::MAX,
    ensures
        forall|k: int|
            0 <= k < headers_to(rows, n).len() ==> (#[trigger] headers_to(rows, n)[k]) < n
                && rows[headers_to(rows, n)[k] as int] is Header,
        forall|k: int, l: int|
            #![trigger headers_to(rows, n)[k], headers_to(rows, n)[l]]
            0 <= k < l < headers_to(rows, n).len() ==> headers_to(rows, n)[k] < headers_to(
                rows,
                n,
            )[l],
        forall|i: int|
            0 <= i < n && (#[trigger] rows[i]) is Header ==> headers_to(rows, n).contains(
                i as usize,
            ),
    decreases n,
{
    if n > 0 {
        let m = (n - 1) as nat;
        lemma_headers(rows, m);
        let before = headers_to(rows, m);
        let now = headers_to(rows, n);
        assert forall|i: int| 0 <= i < n && (#[trigger] rows[i]) is Header implies now.contains(
            i as usize,
        ) by {
            if i < m {
                let k = choose|k: int| 0 <= k < before.len() && before[k] == i as usize;
                assert(now[k] == i as usize);
            } else {
                assert(now[before.len() as int] == i as usize);
            }
        }
    }
}

proof fn lemma_header_of(rows: Seq<NavRow>, positions: Seq<usize>, section: int, j: int)
    requires
        0 <= j < positions.len(),
        heads(rows[positions[j] as int], section),
        forall|i: int|
            0 <= i < positions.len() && i != j ==> !heads(
                rows[#[trigger] positions[i] as int],
                section,
            ),
    ensures
        header_of(rows, positions, section) == j,
    decreases positions.len(),
{
    let rest = positions.drop_last();
    if j < positions.len() - 1 {
        assert forall|i: int| 0 <= i < rest.len() && i != j implies !heads(
            rows[#[trigger] rest[i] as int],
            section,
        ) by {
            assert(rest[i] == positions[i]);
        }
        lemma_header_of(rows, rest, section, j);
        assert(heads(rows[positions[j] as int], section));
    }
}

/// From a group header the next group is the one whose header follows, with no
/// other between, and behind the last one the first comes round again.
pub proof fn group_jumps_go_to_the_next_header(app: AppView, section: usize)
    requires
        app.groups.len() > 0,
        app.selected < app.nav_rows.len() <= usize::MAX,
        app.nav_rows[app.selected as int] == NavRow::Header(section),
        forall|i: int|
            0 <= i < app.nav_rows.len() && i != app.selected ==> (#[trigger] app.nav_rows[i])
                != NavRow::Header(section),
    ensures
        ({
            let rows = app.nav_rows;
            let after = app.selection_moved_by_group(1).selected as int;
            let more = exists|i: int| app.selected < i < rows.len() && #[trigger] rows[i] is Header;
            &&& after < rows.len() && rows[after] is Header
            &&& more ==> app.selected < after && forall|i: int|
                app.selected < i < after ==> !(#[trigger] rows[i] is Header)
            &&& !more ==> forall|i: int| 0 <= i < after ==> !(#[trigger] rows[i] is Header)
        }),
{
    reveal(AppView::selection_moved_by_group);
    let rows = app.nav_rows;
    lemma_headers(rows, rows.len());
    let positions = headers(rows);
    let at = app.selected as int;
    assert(rows[at] is Header);
    assert(positions.contains(at as usize));
    let j = choose|j: int| 0 <= j < positions.len() && positions[j] == at as usize;
    assert forall|i: int| 0 <= i < positions.len() && i != j implies !heads(
        rows[#[trigger] positions[i] as int],
        section as int,
    ) by {
        if i < j {
            assert(positions[i] < positions[j]);
        } else {
            assert(positions[j] < positions[i]);
        }
        assert(rows[positions[i] as int] != NavRow::Header(section));
    }
    lemma_header_of(rows, positions, section as int, j);
    let n = positions.len() as int;
    let next = if j + 1 < n {
        j + 1
    } else {
        0
    };
    if j + 1 < n {
        vstd::arithmetic::div_mod::lemma_small_mod((j + 1) as nat, n as nat);
    } else {
        vstd::arithmetic::div_mod::lemma_mod_self_0(n);
    }
    assert(around(j, 1, n) == next);
    let after = app.selection_moved_by_group(1).selected as int;
    assert(after == positions[next]);
    assert forall|i: int| 0 <= i < rows.len() && #[trigger] rows[i] is Header implies exists|k: int|
        0 <= k < n && #[trigger] positions[k] == i by {
        assert(positions.contains(i as usize));
    }
    if j + 1 < n {
        assert(positions[j] < positions[next]);
        assert forall|i: int| at < i < after implies !(#[trigger] rows[i] is Header) by {
            if rows[i] is Header {
                let k = choose|k: int| 0 <= k < n && #[trigger] positions[k] == i;
                if k <= j {
                    if k < j {
                        assert(positions[k] < positions[j]);
                    }
                } else if k > next {
                    assert(positions[next] < positions[k]);
                }
            }
        }
        assert(rows[after] is Header);
    } else {
        assert forall|i: int| at < i < rows.len() implies !(#[trigger] rows[i] is Header) by {
            if rows[i] is Header {
                let k = choose|k: int| 0 <= k < n && #[trigger] positions[k] == i;
                if k < j {
                    assert(positions[k] < positions[j]);
                }
            }
        }
        assert forall|i: int| 0 <= i < after implies !(#[trigger] rows[i] is Header) by {
            if rows[i] is Header {
                let k = choose|k: int| 0 <= k < n && #[trigger] positions[k] == i;
                if k > 0 {
                    assert(positions[0] < positions[k]);
                }
            }
        }
    }
}

/// A jump by groups lands on a group header.
pub proof fn group_jumps_land_on_headers(app: AppView, delta: int)
    requires
        app.groups.len() > 0,
        app.nav_rows.len() <= usize::MAX,
        headers(app.nav_rows).len() > 0,
    ensures
        ({
            let after = app.selection_moved_by_group(delta);
            &&& after.selected < app.nav_rows.len()
            &&& app.nav_rows[after.selected as int] is Header
            &&& after == AppView { selected: after.selected, ..app }
        }),
{
    reveal(AppView::selection_moved_by_group);
    lemma_headers(app.nav_rows, app.nav_rows.len());
    let positions = headers(app.nav_rows);
    let n = positions.len() as int;
    assert forall|at: int| 0 <= #[trigger] around(at, delta, n) < n by {
        vstd::arithmetic::div_mod::lemma_mod_bound(at + delta, n);
    }
}

} // verus!
