//! What the browser shows of what its workers report.

use vstd::prelude::*;

use crate::app::browser_laws::{does_nothing, is_live, mail};
use crate::app::effects::EffectView;
use crate::app::sftp_prompt::is_entry_name;
use crate::app::state::{KnownHostView, KnownHostsView, LinkView};
use crate::app::AppView;
use crate::path_laws::{is_plain_name, names_are_found_again};
use crate::paths::joined;
use crate::sftp::browser::{Progress, SftpView};
use crate::sftp::browser_laws::dropping_a_row_spares_the_others;
use crate::sftp::model::{CommandView, EventView, FileEntryView, Side};
use crate::text::trimmed;

verus! {

/// Progress is shown as the worker tells it, and changes nothing else.
pub proof fn progress_is_shown_as_told(
    app: AppView,
    index: usize,
    total: usize,
    transferred: u64,
    size: u64,
)
    requires
        app.sftp is Some,
        app.sftp_relay is None,
    ensures
        ({
            let after = app.event_applied(
                EventView::Progress { index, total, transferred, size },
            );
            &&& does_nothing(app, after)
            &&& after.sftp == Some(
                SftpView {
                    progress: Some(Progress { index, total, transferred, size }),
                    ..app.sftp->0
                },
            )
        }),
{
    reveal(AppView::progressed);
}

/// While a relay runs, its progress counts its items from the first to the last.
pub proof fn relayed_progress_counts_the_items(app: AppView, transferred: u64, size: u64)
    requires
        app.sftp is Some,
        app.sftp_relay is Some,
        app.sftp_relay->0.items.len() <= app.sftp_relay->0.total,
    ensures
        ({
            let relay = app.sftp_relay->0;
            let after = app.relay_progressed(transferred, size);
            &&& after.sftp matches Some(browser)
            &&& browser.progress matches Some(progress)
            &&& progress.total == relay.total
            &&& progress.index + relay.items.len() == relay.total
            &&& progress.size == 1000
        }),
{
    reveal(AppView::relay_progressed);
}

/// An error is said in the words of the worker. What is queued stays queued, the
/// run counts as failed, and both panes are listed afresh.
pub proof fn errors_are_said_as_told(app: AppView, message: Seq<char>)
    requires
        is_live(app),
        app.sftp_relay is None,
    ensures
        ({
            let after = app.event_applied(EventView::Error(message));
            &&& after.sftp_run_failed
            &&& after.sftp == Some(SftpView { notice: Some(message), ..app.sftp->0 })
            &&& mail(after.sftp_tx) == mail(app.sftp_tx).push(
                CommandView::ListDir(Side::Remote, app.sftp->0.remote.cwd),
            )
        }),
{
    reveal(AppView::run_error);
    reveal(AppView::refreshed);
}

/// A worker that is connected is no longer waited for; the other one still is.
pub proof fn connected_workers_are_no_longer_waited_for(app: AppView)
    requires
        app.sftp is Some,
    ensures
        app.event_applied(EventView::Connected).sftp == Some(
            SftpView { notice: None, connecting: false, ..app.sftp->0 },
        ),
        app.event_applied_left(EventView::Connected).sftp == Some(
            SftpView { notice: None, left_connecting: false, ..app.sftp->0 },
        ),
        does_nothing(app, app.event_applied(EventView::Connected)),
        does_nothing(app, app.event_applied_left(EventView::Connected)),
{
    reveal(AppView::right_connected);
}

/// Whether a text ends in another.
pub open spec fn says_at_last(text: Seq<char>, message: Seq<char>) -> bool {
    text.len() >= message.len() && text.skip(text.len() - message.len()) == message
}

/// A server that cannot be reached is said, with the reason, in a popup. The
/// right one takes the browser with it; the left one leaves it, with the local
/// files on the left again.
pub proof fn unreachable_servers_are_said(app: AppView, message: Seq<char>)
    requires
        app.sftp is Some,
        app.remote_edit is None,
        app.sftp_relay is None,
    ensures
        ({
            let right = app.event_applied(EventView::ConnectFailed(message));
            let left = app.event_applied_left(EventView::ConnectFailed(message));
            &&& right.sftp is None
            &&& right.sftp_tx is None && right.sftp_tx2 is None
            &&& right.mode is Notice
            &&& right.notice_popup matches Some(said) && says_at_last(said, message)
            &&& left.sftp matches Some(browser)
            &&& browser.left_host is None
            &&& !browser.left_connecting
            &&& browser.remote == app.sftp->0.remote
            &&& browser.queue == app.sftp->0.queue
            &&& left.sftp_tx == app.sftp_tx
            &&& left.sftp_tx2 is None
            &&& left.mode is Notice
            &&& left.notice_popup matches Some(said) && says_at_last(said, message)
            &&& left.effects == app.effects.push(EffectView::ListCurrentDir)
        }),
{
    reveal(AppView::right_unreachable);
    reveal(AppView::left_unreachable);
    reveal(AppView::left_pane_localized);
    reveal(AppView::connection_lost);
    reveal(AppView::torn_down);
    let right = app.event_applied(EventView::ConnectFailed(message)).notice_popup->0;
    let left = app.event_applied_left(EventView::ConnectFailed(message)).notice_popup->0;
    assert(right.skip(right.len() - message.len()) =~= message);
    assert(left.skip(left.len() - message.len()) =~= message);
}

/// A second server takes the left pane: its name is known, it is waited for, and
/// the directory that it starts in is listed. The right pane is left alone.
pub proof fn second_servers_take_the_left_pane(app: AppView, host: Seq<char>, link: LinkView)
    requires
        app.sftp is Some,
        link.alive,
    ensures
        ({
            let after = app.left_opened(host, link);
            &&& after.sftp matches Some(browser)
            &&& browser.left_host == Some(host)
            &&& browser.left_connecting
            &&& browser.remote == app.sftp->0.remote
            &&& browser.connecting == app.sftp->0.connecting
            &&& after.sftp_tx == app.sftp_tx
            &&& after.sftp_tx2 matches Some(left)
            &&& left.outbox == link.outbox.push(
                CommandView::ListDir(Side::Remote, browser.local.cwd),
            )
            &&& after.effects == app.effects
        }),
{
}

/// What is typed for a new name is taken only if a directory can list it;
/// anything else is refused, and nothing is done.
pub proof fn bad_names_are_refused(app: AppView)
    requires
        app.sftp_prompt is Some,
        app.sftp_prompt->0.kind is Mkdir || app.sftp_prompt->0.kind is Rename,
    ensures
        forall|name: Seq<char>| #[trigger] is_entry_name(name) <==> is_plain_name(name),
        !is_plain_name(trimmed(app.sftp_prompt->0.value)) ==> {
            &&& does_nothing(app, app.prompt_committed())
            &&& app.prompt_committed().sftp_prompt matches Some(prompt)
            &&& prompt.error is Some
            &&& prompt.value == app.sftp_prompt->0.value
        },
{
    reveal(AppView::prompt_committed);
}

/// A local operation that failed is said in the prompt, which stays open with
/// what was typed; one that was done closes it.
pub proof fn failed_operations_keep_the_prompt(app: AppView, reason: Seq<char>)
    requires
        app.sftp_prompt is Some,
    ensures
        ({
            let failed = app.local_op_done(Err(reason));
            let done = app.local_op_done(Ok(()));
            &&& failed.sftp_prompt matches Some(prompt)
            &&& prompt.error == Some(reason)
            &&& prompt.value == app.sftp_prompt->0.value
            &&& does_nothing(app, failed)
            &&& failed.mode == app.mode
            &&& done.sftp_prompt is None
            &&& done.mode is Normal
        }),
{
    reveal(AppView::refreshed);
}

/// Once the deletion of a row was sent to a server, the row is no longer shown
/// in its pane; the other pane shows what it showed.
pub proof fn deleted_rows_go_at_once(app: AppView, entry: FileEntryView, side: Side)
    requires
        is_live(app),
        is_plain_name(entry.name),
        side is Local ==> app.sftp->0.left_host is Some,
        app.sftp->0.remote.cwd.len() > 0,
        app.sftp->0.local.cwd.len() > 0,
    ensures
        ({
            let browser = app.sftp->0;
            let pane = if side is Remote {
                browser.remote
            } else {
                browser.local
            };
            let after = app.delete_confirmed(
                side,
                joined(pane.cwd, entry.name),
                entry.is_dir,
            ).sftp->0;
            let rows = pane.entries.filter(|row: FileEntryView| row.name != entry.name);
            &&& side is Remote ==> after.remote.entries == rows && after.local == browser.local
            &&& side is Local ==> after.local.entries == rows && after.remote == browser.remote
            &&& after.queue == browser.queue
        }),
{
    reveal(AppView::delete_confirmed);
    let browser = app.sftp->0;
    names_are_found_again(browser.remote.cwd, entry.name);
    names_are_found_again(browser.local.cwd, entry.name);
    dropping_a_row_spares_the_others(browser.remote, entry.name);
    dropping_a_row_spares_the_others(browser.local, entry.name);
}

/// The known hosts are shown as they were read last, and a failure to read or to
/// remove them is said as one.
pub proof fn known_hosts_are_shown_as_read(
    state: KnownHostsView,
    hosts: Seq<char>,
    entries: Seq<KnownHostView>,
    path: Seq<char>,
    reason: Seq<char>,
)
    ensures
        ({
            let opened = KnownHostsView::opened(path, Ok(entries));
            let broken = KnownHostsView::opened(path, Err(reason));
            &&& opened.entries == entries && opened.notice is None && !opened.notice_is_error
            &&& broken.entries.len() == 0 && broken.notice is Some && broken.notice_is_error
        }),
        ({
            let removed = state.removed(hosts, Ok(Ok(entries)));
            let unread = state.removed(hosts, Ok(Err(reason)));
            let failed = state.removed(hosts, Err(reason));
            &&& removed.entries == entries && !removed.notice_is_error
            &&& unread.entries == state.entries && unread.notice_is_error
            &&& failed.entries == state.entries && failed.notice_is_error && failed.notice == Some(
                reason,
            )
        }),
        ({
            let again = state.refreshed(Ok(entries));
            let failed = state.refreshed(Err(reason));
            &&& again.entries == entries && !again.notice_is_error
            &&& failed.entries == state.entries && failed.notice_is_error
        }),
{
}

/// A name that begins with a dot is said to be hidden exactly while dotfiles are
/// not shown.
pub proof fn hidden_names_are_said(app: AppView, name: Seq<char>)
    requires
        app.sftp is Some,
    ensures
        ({
            let after = app.hidden_noted(name);
            let hidden = name.len() > 0 && name[0] == '.' && !app.sftp_show_hidden;
            &&& !hidden ==> after == app
            &&& hidden ==> {
                &&& after.sftp matches Some(browser)
                &&& browser.notice matches Some(said)
                &&& said.len() > name.len()
                &&& said.take(name.len() as int) == name
            }
        }),
{
    reveal_strlit(" is hidden — press . to show dotfiles");
    let said = name + " is hidden — press . to show dotfiles"@;
    assert(said.take(name.len() as int) =~= name);
}

} // verus!
