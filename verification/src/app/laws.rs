//! What holds of the SFTP browser across several steps.

use vstd::prelude::*;

use crate::app::effects::EffectView;
use crate::app::sftp::{after_send, reaches};
use crate::app::sftp_session::SFTP_HIDDEN_KEY;
use crate::app::state::{EditSource, EditView, LinkView, RelayLeg, RelayView, RemoteEditPhase};
use crate::app::AppView;
use crate::keybinds::{KeyAction, KeyEvent};
use crate::paths::joined;
use crate::sftp::browser::without_transfer;
use crate::sftp::browser_laws::a_run_takes_what_was_sent;
use crate::sftp::model::{CommandView, EventView, Side, TransferView};

verus! {

/// Whether an event tells of an edit.
pub open spec fn is_of_edit(event: EventView) -> bool {
    event is EditDownloaded || event is EditUploaded || event is EditError
}

/// An edit listens to the worker that serves it and to no other: what the other
/// worker says of an edit changes nothing.
pub proof fn edits_listen_to_their_own_worker(app: AppView, event: EventView)
    requires
        is_of_edit(event),
    ensures
        !app.edits(EditSource::RightRemote) ==> app.event_applied(event) == app,
        !app.edits(EditSource::LeftRemote) ==> app.event_applied_left(event) == app,
{
}

/// A step of an edit that fails keeps the working copy and what was read of the
/// server's file, so that the step can be tried again.
pub proof fn failed_step_keeps_the_working_copy(app: AppView, message: Seq<char>)
    requires
        app.remote_edit is Some,
    ensures
        app.edit_failed(message).remote_edit == Some(
            EditView {
                phase: app.edit_failed(message).remote_edit->0.phase,
                ..app.remote_edit->0
            },
        ),
        app.edit_failed(message).effects == app.effects,
        app.editor_failed(message).remote_edit == Some(
            EditView {
                phase: RemoteEditPhase::RetryingEditor,
                editor_session: None,
                ..app.remote_edit->0
            },
        ),
        app.editor_failed(message).effects == app.effects,
{
    reveal(AppView::edit_failed);
    reveal(AppView::editor_failed);
}

/// While a file of the second server is edited, the left pane stays there: it is
/// neither pointed at another server nor sent back to the local file system.
pub proof fn edit_holds_the_left_pane(app: AppView, host: usize)
    requires
        app.edits(EditSource::LeftRemote),
        app.sftp is Some,
        host < app.hosts.len(),
    ensures
        app.left_pane_pointed(host) == app.noted(app.left_pane_held()->0),
        app.left_pane_localized() == app.noted(app.left_pane_held()->0),
        app.left_pane_held() is Some,
{
    reveal(AppView::left_pane_pointed);
    reveal(AppView::left_pane_localized);
}

/// Leaving the browser never takes an edit that has not reached its server with
/// it: the edit, its working copy and the connections are still there.
pub proof fn leaving_keeps_an_unsaved_edit(app: AppView)
    requires
        app.edit_is_remote(),
        app.sftp is Some,
    ensures
        app.disconnect_asked().remote_edit == app.remote_edit,
        app.disconnect_asked().sftp is Some,
        app.disconnect_asked().sftp_tx == app.sftp_tx,
        app.disconnect_asked().sftp_tx2 == app.sftp_tx2,
        app.disconnect_asked().effects == app.effects,
        app.disconnect_asked().host_notice == app.host_notice,
        app.browser_held() is Some || app.disconnect_asked().mode is ConfirmDelete,
{
    reveal(AppView::disconnect_asked);
}

/// An edit that waits to be tried again is given up once that is confirmed, and
/// not before: a yes drops it with its working copy and disconnects, a no keeps
/// everything.
pub proof fn discarding_takes_a_confirmation(app: AppView, key: KeyEvent)
    requires
        app.mode is ConfirmDelete,
        app.pending_delete is Some,
        app.pending_delete->0 is RemoteEdit,
        app.edit_is_remote(),
    ensures
        app.hits(KeyAction::ConfirmYes, key) ==> {
            &&& app.confirm_delete_key(key).remote_edit is None
            &&& app.confirm_delete_key(key).sftp is None
            &&& app.confirm_delete_key(key).pending_delete is None
            &&& app.confirm_delete_key(key).mode is Normal
            &&& app.confirm_delete_key(key).host_notice == Some("remote edit discarded"@)
            &&& app.remote_edit->0.temp_dir matches Some(dir)
                ==> app.confirm_delete_key(key).effects.contains(EffectView::DropWorkspace(dir))
        },
        !app.hits(KeyAction::ConfirmYes, key) ==> {
            &&& app.confirm_delete_key(key).remote_edit == app.remote_edit
            &&& app.confirm_delete_key(key).sftp == app.sftp
            &&& app.confirm_delete_key(key).sftp_tx == app.sftp_tx
            &&& app.confirm_delete_key(key).effects == app.effects
        },
{
    reveal(AppView::confirm_delete_key);
    reveal(AppView::torn_down);
    if app.hits(KeyAction::ConfirmYes, key) {
        let given_up = app.without_pending().edit_discarded();
        assert(given_up.remote_edit is None);
        if let Some(dir) = app.remote_edit->0.temp_dir {
            assert(given_up.effects == app.effects.push(EffectView::DropWorkspace(dir)));
            let there = given_up.slid_out().without_relay();
            assert(given_up.slid_out().effects == given_up.effects);
            assert(there.effects[app.effects.len() as int] == EffectView::DropWorkspace(dir));
            assert(app.confirm_delete_key(key).effects == there.effects);
        }
    }
}

/// A local edit needs no server: it outlives the browser.
pub proof fn local_edit_outlives_the_browser(app: AppView)
    requires
        app.edits(EditSource::Local),
    ensures
        app.disconnect_asked().remote_edit == app.remote_edit,
        app.disconnect_asked().sftp is None,
{
    reveal(AppView::disconnect_asked);
    reveal(AppView::torn_down);
}

/// A relayed item is fetched first and pushed then: when the worker of its source
/// is done, the same item is sent on from the scratch directory by the worker of
/// its destination, and it is still queued.
pub proof fn fetched_item_is_pushed(app: AppView)
    requires
        app.sftp is Some,
        app.sftp_swallow_done == 0,
        app.sftp_relay is Some,
        app.sftp_relay->0.leg is Fetching,
        app.sftp_relay->0.items.len() > 0,
        reaches(
            app.link_of(AppView::leg_side(app.sftp_relay->0.items[0].direction, RelayLeg::Pushing)),
        ),
    ensures
        ({
            let relay = app.sftp_relay->0;
            let item = relay.items[0];
            let push = CommandView::RunQueue(
                seq![AppView::leg_transfer(item, relay.tmp_dir, RelayLeg::Pushing)],
            );
            let side = AppView::leg_side(item.direction, RelayLeg::Pushing);
            let after = app.event_applied(EventView::QueueDone);
            &&& after == app.event_applied_left(EventView::QueueDone)
            &&& after.sftp_relay == Some(RelayView { leg: RelayLeg::Pushing, ..relay })
            &&& after.sftp == app.sftp
            &&& after.effects == app.effects
            &&& after.link_of(side) == after_send(app.link_of(side), push)
        }),
{
    reveal(AppView::leg_done);
    reveal(AppView::relay_stepped);
}

/// Whose scratch copy an effect removes.
pub open spec fn removes_scratch(relay: RelayView, item: TransferView) -> EffectView {
    EffectView::RemoveScratch { path: joined(relay.tmp_dir, item.name), is_dir: item.is_dir }
}

/// When the last item of a relay is across, the relay is over: the item has left
/// the queue, its scratch copy and the scratch directory go, and the browser is
/// at rest.
pub proof fn last_pushed_item_ends_the_relay(app: AppView)
    requires
        app.sftp_swallow_done == 0,
        app.sftp is Some,
        app.sftp_relay is Some,
        app.sftp_relay->0.leg is Pushing,
        app.sftp_relay->0.items.len() == 1,
    ensures
        ({
            let relay = app.sftp_relay->0;
            let item = relay.items[0];
            let after = app.event_applied(EventView::QueueDone);
            &&& after.sftp_relay is None
            &&& after.sftp is Some
            &&& after.sftp->0.queue == without_transfer(app.sftp->0.queue, item)
            &&& after.sftp->0.phase is Browsing
            &&& after.effects.len() >= app.effects.len() + 2
            &&& after.effects[app.effects.len() as int] == removes_scratch(relay, item)
            &&& after.effects[1 + app.effects.len() as int] == EffectView::DropWorkspace(
                relay.tmp_dir,
            )
        }),
{
    reveal(AppView::leg_done);
    reveal(AppView::relay_stepped);
    reveal(AppView::relay_finished);
    reveal(AppView::refreshed);
    let relay = app.sftp_relay->0;
    assert(relay.advanced().items.len() == 0);
    let across = app.leg_advanced();
    assert(across.effects == app.effects.push(removes_scratch(relay, relay.items[0])));
    assert(across.relay_stepped() == across.relay_finished());
}

/// Whether nothing that was sent since starts a run.
pub open spec fn starts_no_run(before: Option<LinkView>, after: Option<LinkView>) -> bool {
    match (before, after) {
        (Some(before), Some(after)) => {
            &&& before.outbox.is_prefix_of(after.outbox)
            &&& forall|i: int|
                before.outbox.len() <= i < after.outbox.len() ==> !((#[trigger] after.outbox[i])
                    is RunQueue)
        },
        (before, after) => before == after,
    }
}

/// A relay that fails is over, and the completion that the worker still reports
/// starts nothing: the items stay queued and the browser is at rest.
pub proof fn failed_relay_is_not_restarted(app: AppView, message: Seq<char>)
    requires
        app.sftp is Some,
        app.sftp_relay is Some,
        app.sftp_swallow_done < usize::MAX,
    ensures
        ({
            let failed = app.event_applied(EventView::Error(message));
            let after = failed.event_applied(EventView::QueueDone);
            &&& failed == app.event_applied_left(EventView::Error(message))
            &&& after == failed.event_applied_left(EventView::QueueDone)
            &&& starts_no_run(app.sftp_tx, after.sftp_tx)
            &&& starts_no_run(app.sftp_tx2, after.sftp_tx2)
            &&& after.sftp_relay is None
            &&& after.sftp == failed.sftp
            &&& after.sftp_tx == failed.sftp_tx
            &&& after.sftp_tx2 == failed.sftp_tx2
            &&& after.effects == failed.effects
            &&& after.sftp->0.queue == app.sftp->0.queue
            &&& after.sftp->0.phase is Browsing
            &&& after.sftp->0.notice == Some(message)
            &&& after.sftp_swallow_done == app.sftp_swallow_done
        }),
{
    reveal(AppView::run_error);
    reveal(AppView::relay_aborted);
    reveal(AppView::refreshed);
}

/// Whether everything that was sent since is a request for a listing.
pub open spec fn only_lists(before: Option<LinkView>, after: Option<LinkView>) -> bool {
    match (before, after) {
        (Some(before), Some(after)) => {
            &&& before.outbox.is_prefix_of(after.outbox)
            &&& forall|i: int|
                before.outbox.len() <= i < after.outbox.len() ==> #[trigger] after.outbox[i]
                    is ListDir
        },
        (before, after) => before == after,
    }
}

/// A run that reported an error is not followed by another pass over what is
/// still queued: the panes are listed afresh, and nothing is sent. What was
/// staged meanwhile stays queued, in its order.
pub proof fn failed_run_waits_for_the_user(app: AppView, message: Seq<char>)
    requires
        app.sftp is Some,
        app.sftp_relay is None,
        app.sftp_swallow_done == 0,
    ensures
        ({
            let after = app.event_applied(EventView::Error(message)).event_applied(
                EventView::QueueDone,
            );
            &&& only_lists(app.sftp_tx, after.sftp_tx)
            &&& only_lists(app.sftp_tx2, after.sftp_tx2)
            &&& after.sftp is Some
            &&& after.sftp->0.phase is Browsing
            &&& after.sftp->0.running == Seq::<TransferView>::empty()
            &&& after.sftp->0.queue == app.sftp->0.run_over().queue
            &&& forall|item: TransferView| #[trigger]
                app.sftp->0.queue.contains(item) && !app.sftp->0.running.contains(item)
                    ==> after.sftp->0.queue.contains(item)
            &&& after.sftp_relay is None
        }),
{
    reveal(AppView::run_error);
    reveal(AppView::queue_over);
    reveal(AppView::refreshed);
    let failed = app.event_applied(EventView::Error(message));
    assert(failed.sftp_run_failed && failed.sftp_relay is None && failed.sftp is Some);
    assert(only_lists(app.sftp_tx, failed.sftp_tx));
    assert(only_lists(app.sftp_tx2, failed.sftp_tx2));
    assert forall|item: TransferView| #[trigger]
        app.sftp->0.queue.contains(item) && !app.sftp->0.running.contains(item) implies
        app.sftp->0.run_over().queue.contains(item) by {
        a_run_takes_what_was_sent(app.sftp->0.queue, app.sftp->0.running, item);
    }
}

/// What is staged while a run is under way stays queued when the run ends, and is
/// run next.
pub proof fn staged_meanwhile_runs_next(app: AppView)
    requires
        app.sftp is Some,
        !app.left_remote(),
        app.sftp_relay is None,
        app.sftp_swallow_done == 0,
        !app.sftp_run_failed,
        reaches(app.sftp_tx),
        app.sftp->0.run_over().queue.len() > 0,
    ensures
        ({
            let rest = app.sftp->0.run_over().queue;
            let after = app.event_applied(EventView::QueueDone);
            &&& after.sftp is Some
            &&& after.sftp->0.phase is Running
            &&& after.sftp->0.queue == rest
            &&& after.sftp->0.running == rest
            &&& after.sftp_tx is Some
            &&& after.sftp_tx->0.outbox.last() == CommandView::RunQueue(rest)
        }),
{
    reveal(AppView::queue_over);
    reveal(AppView::refreshed);
    reveal(AppView::queue_run);
}

/// Nothing is sent to a worker that is known to be gone, and whoever asked is told:
/// a prompt stays open and says why, an edit waits to be tried again.
pub proof fn lost_workers_are_noticed(app: AppView, side: Side, command: CommandView)
    ensures
        ({
            let known = app.workers_known(false, false);
            &&& known.sent_to(side, command) == known
            &&& known.prompt_sent(side, command) == known.prompt_error("not connected"@)
            &&& known.edit_is_remote() ==> {
                &&& known.download_retried().remote_edit->0.phase is RetryingDownload
                &&& known.download_retried().sftp_tx == known.sftp_tx
                &&& known.download_retried().sftp_tx2 == known.sftp_tx2
            }
            &&& known.edit_is_remote() && known.remote_edit->0.stamp is Some ==> {
                &&& known.upload_started().remote_edit->0.phase is RetryingUpload
                &&& known.upload_started().sftp_tx == known.sftp_tx
                &&& known.upload_started().sftp_tx2 == known.sftp_tx2
            }
        }),
{
    reveal(AppView::download_retried);
    reveal(AppView::upload_started);
    reveal(AppView::edit_failed);
}

/// Whether dotfiles are shown is remembered: read back, what was saved gives the
/// setting that was shown.
pub proof fn dotfile_setting_is_remembered(app: AppView)
    requires
        app.sftp is Some,
    ensures
        ({
            let after = app.hidden_flipped();
            &&& after.sftp_show_hidden == !app.sftp->0.remote.show_hidden
            &&& after.sftp->0.remote.show_hidden == after.sftp_show_hidden
            &&& after.sftp->0.local.show_hidden == after.sftp_show_hidden
            &&& after.effects.last() matches EffectView::SaveUiState { key, value } && key
                == SFTP_HIDDEN_KEY@ && (value == "1"@) == after.sftp_show_hidden
        }),
{
    reveal(AppView::hidden_flipped);
    reveal_strlit("0");
    reveal_strlit("1");
    assert("0"@[0] != "1"@[0]);
}

} // verus!
