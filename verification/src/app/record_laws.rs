//! What the logs and lists that are kept hold on to.

use vstd::prelude::*;

use crate::app::effects::{EffectView, Task};
use crate::app::startup::{
    own_groups, ping_address, ping_targets_of, reserved_group, without_chatter,
    without_host,
};
use crate::app::state::LogView;
use crate::app::util::{field_value, head_message, tags_in, DiagnosticView};
use crate::app::AppView;
use crate::hosts::{HostEntry, HostGroup};
use crate::launch::{database_files_of, push_note, run, with_sample, Launch, StartEnv};
use crate::text::{begins_with, trimmed};

verus! {

proof fn lemma_without_host(log: Seq<LogView>, host: Seq<char>)
    ensures
        without_host(log, host) == log.filter(|line: LogView| line.host_name != host),
    decreases log.len(),
{
    reveal(Seq::filter);
    if log.len() > 0 {
        lemma_without_host(log.drop_last(), host);
    } else {
        assert(log =~= Seq::empty());
    }
}

proof fn lemma_without_chatter(log: Seq<LogView>, host: Seq<char>)
    ensures
        without_chatter(log, host) == log.filter(
            |line: LogView| line.host_name != host || begins_with(line.line, "$ "@),
        ),
    decreases log.len(),
{
    reveal(Seq::filter);
    if log.len() > 0 {
        lemma_without_chatter(log.drop_last(), host);
    } else {
        assert(log =~= Seq::empty());
    }
}

/// Clearing the log of a host takes all its lines and no line of another; once
/// the host has let the user in, its command lines stay. What stays keeps its
/// order.
pub proof fn clearing_a_log_spares_other_hosts(app: AppView, host: Seq<char>)
    ensures
        app.host_log_cleared(host).ssh_log == app.ssh_log.filter(
            |line: LogView| line.host_name != host,
        ),
        app.chatter_cleared(host).ssh_log == app.ssh_log.filter(
            |line: LogView| line.host_name != host || begins_with(line.line, seq!['$', ' ']),
        ),
        app.host_log_cleared(host) == (AppView {
            ssh_log: app.host_log_cleared(host).ssh_log,
            ..app
        }),
{
    reveal_strlit("$ ");
    assert("$ "@ =~= seq!['$', ' ']);
    lemma_without_host(app.ssh_log, host);
    lemma_without_chatter(app.ssh_log, host);
}

/// A line that is logged is the last of the log, and the lines before it are the
/// latest of those there were.
pub proof fn the_latest_lines_are_kept(app: AppView, line: LogView)
    ensures
        ({
            let log = app.logged(line).ssh_log;
            &&& log.len() > 0
            &&& log.last() == line
            &&& log.len() <= app.ssh_log.len() + 1
            &&& log.drop_last() == app.ssh_log.skip(app.ssh_log.len() - (log.len() - 1))
        }),
{
    let log = app.logged(line).ssh_log;
    let all = app.ssh_log.push(line);
    assert(log.drop_last() =~= app.ssh_log.skip(app.ssh_log.len() - (log.len() - 1)));
}

proof fn lemma_own_groups(groups: Seq<HostGroup>)
    ensures
        own_groups(groups) == groups.filter(|group: HostGroup| !group.reserved),
        reserved_group(groups) matches Some(group) ==> group.reserved && groups.contains(group),
        reserved_group(groups) is None ==> forall|i: int|
            0 <= i < groups.len() ==> !(#[trigger] groups[i]).reserved,
    decreases groups.len(),
{
    reveal(Seq::filter);
    if groups.len() > 0 {
        let rest = groups.drop_last();
        lemma_own_groups(rest);
        match reserved_group(groups) {
            Some(group) => {
                if rest.contains(group) {
                    let i = choose|i: int| 0 <= i < rest.len() && rest[i] == group;
                    assert(groups[i] == group);
                } else {
                    assert(groups[groups.len() - 1] == group);
                }
            },
            None => {
                assert forall|i: int| 0 <= i < groups.len() implies !(
                #[trigger] groups[i]).reserved by {
                    if i < rest.len() {
                        assert(rest[i] == groups[i]);
                    }
                }
            },
        }
    } else {
        assert(groups =~= Seq::empty());
    }
}

/// Of the groups that are loaded, the user's own are listed in their order, and
/// the reserved one is kept aside.
pub proof fn reserved_groups_are_kept_aside(app: AppView, groups: Seq<HostGroup>)
    ensures
        ({
            let after = app.groups_loaded(groups);
            &&& after.groups == groups.filter(|group: HostGroup| !group.reserved)
            &&& after.favorites_group matches Some(group) ==> group.reserved && groups.contains(
                group,
            )
            &&& after.favorites_group is None ==> forall|i: int|
                0 <= i < groups.len() ==> !(#[trigger] groups[i]).reserved
        }),
{
    lemma_own_groups(groups);
}

/// Hosts that are loaded anew replace those there were, and the host that was
/// selected is to be selected again, by its name.
pub proof fn reloading_keeps_the_selection(
    app: AppView,
    hosts: Seq<HostEntry>,
    groups: Seq<HostGroup>,
)
    ensures
        ({
            let after = app.hosts_relisted(hosts, groups);
            &&& after.hosts == hosts
            &&& app.selected_host() matches Some(host) ==> after.effects == app.effects.push(
                EffectView::Do(Task::RebuildFilter),
            ).push(EffectView::RestoreSelection(app.hosts[host as int].name_spec()@))
            &&& app.selected_host() is None ==> after.effects == app.effects.push(
                EffectView::Do(Task::RebuildFilter),
            )
        }),
{
}

proof fn lemma_targets(hosts: Seq<HostEntry>, i: int)
    requires
        0 <= i < hosts.len(),
        ping_address(hosts[i]) is Some,
    ensures
        ping_targets_of(hosts).contains((hosts[i].name_spec()@, ping_address(hosts[i])->0)),
    decreases hosts.len(),
{
    let rest = hosts.drop_last();
    let before = ping_targets_of(rest);
    let now = ping_targets_of(hosts);
    if i == hosts.len() - 1 {
        assert(now[before.len() as int] == (hosts[i].name_spec()@, ping_address(hosts[i])->0));
    } else {
        lemma_targets(rest, i);
        let target = (hosts[i].name_spec()@, ping_address(hosts[i])->0);
        assert(rest[i] == hosts[i]);
        let k = choose|k: int| 0 <= k < before.len() && before[k] == target;
        assert(now[k] == target);
    }
}

/// Every host that has an address is pinged, under its own name and at its own
/// address.
pub proof fn every_address_is_pinged(hosts: Seq<HostEntry>, i: int)
    requires
        0 <= i < hosts.len(),
    ensures
        hosts[i] matches HostEntry::Managed(m) ==> m.address@.len() > 0 ==> ping_targets_of(
            hosts,
        ).contains((m.name@, m.address@)),
        hosts[i] matches HostEntry::Legacy { host, .. } ==> host.hostname matches Some(address)
            ==> address@.len() > 0 ==> ping_targets_of(hosts).contains((host.name@, address@)),
{
    if ping_address(hosts[i]) is Some {
        lemma_targets(hosts, i);
    }
}

/// A sample is the last of its history; a host that answers again starts over,
/// and otherwise the samples before it are the latest of those there were.
pub proof fn samples_are_kept_in_order(history: Seq<Option<u64>>, sample: Option<u64>)
    ensures
        ({
            let after = with_sample(history, sample);
            let back = sample is Some && history.len() > 0 && history.last() is None;
            &&& after.len() > 0
            &&& after.last() == sample
            &&& back ==> after.len() == 1
            &&& !back ==> after.len() <= history.len() + 1 && after.drop_last() == history.skip(
                history.len() - (after.len() - 1),
            ) && after.len() >= history.len()
        }),
{
    let after = with_sample(history, sample);
    if !(sample is Some && history.len() > 0 && history.last() is None) {
        assert(after.drop_last() =~= history.skip(history.len() - (after.len() - 1)));
    }
}

proof fn lemma_tags(pieces: Seq<Seq<char>>)
    ensures
        tags_in(pieces) == pieces.map_values(|piece: Seq<char>| trimmed(piece)).filter(
            |tag: Seq<char>| tag.len() > 0,
        ),
    decreases pieces.len(),
{
    reveal(Seq::filter);
    let all = pieces.map_values(|piece: Seq<char>| trimmed(piece));
    if pieces.len() > 0 {
        lemma_tags(pieces.drop_last());
        assert(all.drop_last() =~= pieces.drop_last().map_values(
            |piece: Seq<char>| trimmed(piece),
        ));
        assert(all.last() == trimmed(pieces.last()));
    } else {
        assert(all =~= Seq::empty());
    }
}

/// Every piece of a list of tags that is not blank is a tag, without the white
/// space around it and in its place.
pub proof fn tags_are_kept_in_order(pieces: Seq<Seq<char>>)
    ensures
        tags_in(pieces) == pieces.map_values(|piece: Seq<char>| trimmed(piece)).filter(
            |tag: Seq<char>| tag.len() > 0,
        ),
        forall|raw: Seq<char>| #[trigger]
            field_value(raw) is Some <==> trimmed(raw).len() > 0,
{
    lemma_tags(pieces);
}

proof fn lemma_first_of(diagnostics: Seq<DiagnosticView>, errors: bool)
    ensures
        crate::app::util::first_of(diagnostics, errors) matches Some(i) ==> 0 <= i
            < diagnostics.len() && diagnostics[i].is_error == errors,
        crate::app::util::first_of(diagnostics, errors) is None ==> forall|i: int|
            0 <= i < diagnostics.len() ==> (#[trigger] diagnostics[i]).is_error != errors,
    decreases diagnostics.len(),
{
    if diagnostics.len() > 0 {
        let rest = diagnostics.drop_last();
        lemma_first_of(rest, errors);
        if crate::app::util::first_of(diagnostics, errors) is None {
            assert forall|i: int| 0 <= i < diagnostics.len() implies (
            #[trigger] diagnostics[i]).is_error != errors by {
                if i < rest.len() {
                    assert(rest[i] == diagnostics[i]);
                }
            }
        }
    }
}

/// The message that is shown is the failure to load where there is one, else an
/// error where there is one, else a warning; it is silent only where there is
/// nothing to say.
pub proof fn errors_are_shown_before_warnings(
    diagnostics: Seq<DiagnosticView>,
    load_error: Option<Seq<char>>,
)
    ensures
        ({
            let shown = head_message(diagnostics, load_error);
            let failed = exists|i: int|
                0 <= i < diagnostics.len() && (#[trigger] diagnostics[i]).is_error;
            &&& load_error is Some ==> shown == load_error
            &&& load_error is None && failed ==> exists|i: int|
                0 <= i < diagnostics.len() && (#[trigger] diagnostics[i]).is_error && shown == Some(
                    diagnostics[i].message,
                )
            &&& shown is None <==> load_error is None && diagnostics.len() == 0
        }),
{
    lemma_first_of(diagnostics, true);
    lemma_first_of(diagnostics, false);
    if diagnostics.len() > 0 {
        assert(diagnostics[0].is_error || !diagnostics[0].is_error);
    }
}

/// A dry run starts nothing. Otherwise the application is started, at a terminal
/// for a user, unless it is to quit on its own.
pub proof fn dry_runs_start_nothing(env: StartEnv, launch: Launch)
    requires
        call_ensures(run, (&env,), launch),
    ensures
        launch is Nothing <==> env.dry_run || env.former_dry_run,
        launch matches Launch::Application { auto_quit, interactive } ==> {
            &&& interactive ==> env.is_terminal && auto_quit is None
            &&& env.is_terminal && env.auto_quit is None && env.former_auto_quit is None
                ==> interactive
            &&& env.auto_quit is Some ==> auto_quit == env.auto_quit
        },
{
}

/// A purge removes the database and what lies beside it under its name, and
/// nothing twice.
pub proof fn purges_stay_with_the_database(base: Seq<char>)
    ensures
        database_files_of(base).contains(base),
        database_files_of(base).no_duplicates(),
        forall|i: int|
            0 <= i < database_files_of(base).len() ==> begins_with(
                #[trigger] database_files_of(base)[i],
                base,
            ),
{
    reveal_strlit("-wal");
    reveal_strlit("-shm");
    reveal_strlit("-journal");
    let files = database_files_of(base);
    let n = base.len() as int;
    assert(files[0] == base);
    assert(files[1][n + 1] == 'w');
    assert(files[2][n + 1] == 's');
    assert(files[3][n + 1] == 'j');
    assert forall|i: int| 0 <= i < files.len() implies begins_with(#[trigger] files[i], base) by {
        assert(files[i].take(n) =~= base);
    }
}

/// A push that ended well is recorded as such and every other as a failure, with
/// what it ended in.
pub proof fn failed_pushes_are_recorded(identity: Seq<char>, status: Seq<char>)
    ensures
        push_note(identity, status).0 == if status == "success"@ {
            seq!['o', 'k']
        } else {
            seq!['f', 'a', 'i', 'l']
        },
{
    reveal_strlit("ok");
    reveal_strlit("fail");
    assert("ok"@ =~= seq!['o', 'k']);
    assert("fail"@ =~= seq!['f', 'a', 'i', 'l']);
}

} // verus!
