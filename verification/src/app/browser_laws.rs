//! What the keys of the file browser send, and to whom.

use vstd::prelude::*;

use crate::app::editor_command::command_words;
use crate::app::effects::EffectView;
use crate::app::sftp_keys::BrowserKey;
use crate::app::sftp_prompt::{is_entry_name, octal_mode};
use crate::app::state::{
    EditSource, EditView, LinkView, PromptView, RelayLeg, RelayView, SftpPromptKind,
};
use crate::app::AppView;
use crate::keybinds::{KeyAction, KeyEvent};
use crate::path_laws::{going_up_undoes_going_down, is_plain_name};
use crate::paths::{above, joined, same_path};
use crate::sftp::browser::SftpView;
use crate::sftp::model::{CommandView, EventView, FileEntryView, RemoteFileStamp, Side};
use crate::sftp::staging_laws::{
    across, is_on, names_something, transfers_leave_the_pane_with_the_keyboard, watched,
};
use crate::text::{
    all_digits_in, is_digit, numeral, numerals_are_read_back, trimmed, value_in,
};
use crate::text_laws::trimming_takes_only_space;

verus! {

/// What a worker was sent so far.
pub open spec fn mail(link: Option<LinkView>) -> Seq<CommandView> {
    match link {
        Some(link) => link.outbox,
        None => Seq::empty(),
    }
}

/// Whether the browser is open and its workers listen: that of the right pane
/// and, where the left one shows a second server, that of the left.
pub open spec fn is_live(app: AppView) -> bool {
    &&& app.sftp is Some
    &&& app.sftp_tx matches Some(right) && right.alive
    &&& app.sftp->0.left_host is Some ==> (app.sftp_tx2 matches Some(left) && left.alive)
    &&& app.sftp->0.left_host is None ==> app.sftp_tx2 is None
}

/// Nothing was sent and nothing asked for.
pub open spec fn does_nothing(before: AppView, after: AppView) -> bool {
    &&& mail(after.sftp_tx) == mail(before.sftp_tx)
    &&& mail(after.sftp_tx2) == mail(before.sftp_tx2)
    &&& after.effects == before.effects
}

/// The worker of the right pane was sent this one command, and no more was done.
pub open spec fn tells_right(before: AppView, after: AppView, command: CommandView) -> bool {
    &&& mail(after.sftp_tx) == mail(before.sftp_tx).push(command)
    &&& mail(after.sftp_tx2) == mail(before.sftp_tx2)
    &&& after.effects == before.effects
}

/// The worker of the left pane was sent this one command, and no more was done.
pub open spec fn tells_left(before: AppView, after: AppView, command: CommandView) -> bool {
    &&& mail(after.sftp_tx) == mail(before.sftp_tx)
    &&& mail(after.sftp_tx2) == mail(before.sftp_tx2).push(command)
    &&& after.effects == before.effects
}

/// This one thing was asked of the machine itself, and no more was done.
pub open spec fn asks_for(before: AppView, after: AppView, effect: EffectView) -> bool {
    &&& mail(after.sftp_tx) == mail(before.sftp_tx)
    &&& mail(after.sftp_tx2) == mail(before.sftp_tx2)
    &&& after.effects == before.effects.push(effect)
}

/// The pane with the keyboard is served by whoever owns its files: the right
/// worker, the left one, or the machine itself.
pub open spec fn serves(
    before: AppView,
    after: AppView,
    command: CommandView,
    local: EffectView,
) -> bool {
    let browser = before.sftp->0;
    if browser.focus is Remote {
        tells_right(before, after, command)
    } else if browser.left_host is Some {
        tells_left(before, after, command)
    } else {
        asks_for(before, after, local)
    }
}

/// Left stages toward the left pane and Right toward the right one: the transfer
/// that is queued then reads a path of the pane with the keyboard and writes one
/// of the other. Nothing moves before the queue is run.
pub proof fn arrows_stage_across(app: AppView, key: KeyEvent, entry: FileEntryView)
    requires
        app.sftp is Some,
        ({
            let browser = app.sftp->0;
            &&& is_on(watched(browser), entry)
            &&& names_something(entry)
            &&& app.browser_key(browser, key) is Panes
            &&& browser.focus is Local ==> key.code is Right
            &&& browser.focus is Remote ==> key.code is Left
            &&& !app.hits(KeyAction::MoveDown, key)
            &&& !app.hits(KeyAction::MoveUp, key)
        }),
    ensures
        ({
            let browser = app.sftp->0;
            let after = app.browser_key_done(browser, app.browser_key(browser, key));
            let item = after.sftp->0.queue.last();
            &&& does_nothing(app, after)
            &&& after.sftp is Some
            &&& after.sftp->0.queue.len() == browser.queue.len() + 1
            &&& item.direction is Upload <==> browser.focus is Local
            &&& item.name == entry.name
            &&& item.src == joined(watched(browser).cwd, entry.name)
            &&& item.dst == joined(across(browser).cwd, entry.name)
        }),
{
    let browser = app.sftp->0;
    reveal_strlit("..");
    assert(".."@ =~= seq!['.', '.']);
    transfers_leave_the_pane_with_the_keyboard(
        browser,
        if browser.focus is Local {
            Side::Remote
        } else {
            Side::Local
        },
    );
}

/// Running the queue sends it whole, in its order, to the worker of the right
/// pane; between two servers a scratch directory is asked for instead. An empty
/// queue is not run, and none is while another runs.
pub proof fn the_queue_is_sent_whole(app: AppView)
    requires
        is_live(app),
    ensures
        ({
            let browser = app.sftp->0;
            let after = app.queue_run();
            &&& browser.queue.len() == 0 || browser.phase is Running ==> after == app
            &&& browser.queue.len() > 0 && !(browser.phase is Running) ==> {
                if browser.left_host is Some {
                    asks_for(app, after, EffectView::MakeRelayWorkspace) && after.sftp == app.sftp
                } else {
                    &&& tells_right(app, after, CommandView::RunQueue(browser.queue))
                    &&& after.sftp->0.running == browser.queue
                    &&& after.sftp->0.queue == browser.queue
                    &&& after.sftp->0.phase is Running
                }
            }
        }),
{
    reveal(AppView::queue_run);
}

/// Enter opens the directory that is selected, in its own pane, by asking
/// whoever owns that pane's files; the other pane is left alone. A file is not
/// opened. From a directory that was entered by its name, the row that leads up
/// leads back.
pub proof fn enter_opens_the_selected_directory(
    app: AppView,
    entry: FileEntryView,
    dir: Seq<char>,
    name: Seq<char>,
)
    requires
        is_live(app),
        is_on(watched(app.sftp->0), entry),
    ensures
        ({
            let browser = app.sftp->0;
            let after = app.browser_key_done(browser, BrowserKey::Enter);
            let below = joined(watched(browser).cwd, entry.name);
            &&& after.sftp == app.sftp
            &&& names_something(entry) && entry.is_dir ==> serves(
                app,
                after,
                CommandView::ListDir(Side::Remote, below),
                EffectView::ListLocal(below),
            )
            &&& names_something(entry) && !entry.is_dir ==> does_nothing(app, after)
            &&& !names_something(entry) && watched(browser).cwd == joined(dir, name)
                && is_plain_name(name) && dir.len() > 0 ==> exists|up: Seq<char>| #[trigger]
                same_path(up, dir) && serves(
                    app,
                    after,
                    CommandView::ListDir(Side::Remote, up),
                    EffectView::ListLocal(up),
                )
        }),
{
    let browser = app.sftp->0;
    reveal_strlit("..");
    assert(".."@ =~= seq!['.', '.']);
    if !names_something(entry) && watched(browser).cwd == joined(dir, name) && is_plain_name(name)
        && dir.len() > 0 {
        going_up_undoes_going_down(dir, name);
        let up = above(joined(dir, name))->0;
        assert(same_path(up, dir));
    }
}

/// A refresh lists both panes afresh, each where it is.
pub proof fn refreshing_lists_both_panes(app: AppView)
    requires
        is_live(app),
    ensures
        ({
            let browser = app.sftp->0;
            let after = app.refreshed();
            &&& after.sftp == app.sftp
            &&& mail(after.sftp_tx) == mail(app.sftp_tx).push(
                CommandView::ListDir(Side::Remote, browser.remote.cwd),
            )
            &&& browser.left_host is Some ==> mail(after.sftp_tx2) == mail(app.sftp_tx2).push(
                CommandView::ListDir(Side::Remote, browser.local.cwd),
            ) && after.effects == app.effects
            &&& browser.left_host is None ==> after.effects == app.effects.push(
                EffectView::ListLocal(browser.local.cwd),
            )
        }),
{
    reveal(AppView::refreshed);
}

/// A listing shows up in the pane of the worker that sent it, under the path it
/// is of and behind the row that leads up, row for row; the other pane, the
/// queue and what runs are left alone.
pub proof fn listings_show_in_their_pane(
    app: AppView,
    path: Seq<char>,
    rows: Seq<FileEntryView>,
)
    requires
        app.sftp is Some,
    ensures
        ({
            let browser = app.sftp->0;
            let right = app.event_applied(EventView::DirListing(Side::Remote, path, rows)).sftp->0;
            let left = app.event_applied_left(
                EventView::DirListing(Side::Remote, path, rows),
            ).sftp->0;
            &&& right == SftpView { remote: right.remote, ..browser }
            &&& left == SftpView { local: left.local, ..browser }
            &&& right.remote.cwd == path
            &&& left.local.cwd == path
            &&& right.remote.entries.len() == rows.len() + 1
            &&& !names_something(right.remote.entries[0])
            &&& right.remote.entries.drop_first() == rows
            &&& left.local.entries == right.remote.entries
            &&& right.remote.filter == browser.remote.filter
            &&& right.remote.show_hidden == browser.remote.show_hidden
        }),
{
    reveal_strlit("..");
    assert(".."@ =~= seq!['.', '.']);
    let right = app.event_applied(EventView::DirListing(Side::Remote, path, rows)).sftp->0;
    assert(right.remote.entries.drop_first() =~= rows);
}

/// A deletion is only asked about at first. Once it is confirmed, whoever owns
/// the files of the pane is told to delete the selected row, and nothing else;
/// the queue is left alone. Unless it is confirmed, nothing is done.
pub proof fn deletions_take_the_selected_row(app: AppView, entry: FileEntryView, key: KeyEvent)
    requires
        is_live(app),
        is_on(watched(app.sftp->0), entry),
    ensures
        ({
            let browser = app.sftp->0;
            let armed = app.delete_armed();
            let after = armed.confirm_delete_key(key);
            let path = joined(watched(browser).cwd, entry.name);
            &&& does_nothing(app, armed)
            &&& armed.sftp == app.sftp
            &&& !names_something(entry) ==> armed == app
            &&& names_something(entry) && app.hits(KeyAction::ConfirmYes, key) ==> {
                &&& serves(
                    app,
                    after,
                    CommandView::Remove(path, entry.is_dir),
                    EffectView::LocalDelete { path, is_dir: entry.is_dir },
                )
                &&& after.pending_delete is None
                &&& after.sftp->0.queue == browser.queue
            }
            &&& names_something(entry) && !app.hits(KeyAction::ConfirmYes, key) ==> does_nothing(
                app,
                after,
            )
        }),
{
    reveal_strlit("..");
    assert(".."@ =~= seq!['.', '.']);
    reveal(AppView::delete_armed);
    reveal(AppView::confirm_delete_key);
    reveal(AppView::delete_confirmed);
}

/// A prompt that was just opened with this typed into it.
pub open spec fn answered(app: AppView, kind: SftpPromptKind, value: Seq<char>) -> AppView {
    let asked = app.prompt_opened(kind);
    AppView { sftp_prompt: Some(PromptView { value, ..asked.sftp_prompt->0 }), ..asked }
}

/// The name that is typed for a new directory makes one below the directory of
/// the pane with the keyboard.
pub proof fn new_directories_lie_in_the_pane(app: AppView, name: Seq<char>)
    requires
        is_live(app),
        is_entry_name(trimmed(name)),
    ensures
        ({
            let path = joined(watched(app.sftp->0).cwd, trimmed(name));
            let after = answered(app, SftpPromptKind::Mkdir, name).prompt_committed();
            &&& does_nothing(app, app.prompt_opened(SftpPromptKind::Mkdir))
            &&& serves(app, after, CommandView::Mkdir(path), EffectView::LocalMkdir(path))
        }),
{
    reveal(AppView::prompt_opened);
    reveal(AppView::prompt_committed);
}

/// A rename takes the selected row to the typed name in the same directory, by
/// asking whoever owns the files of the pane; on the machine itself, only once
/// nothing of that name is found there. A name that stays the same renames
/// nothing.
pub proof fn renames_start_at_the_selected_row(
    app: AppView,
    entry: FileEntryView,
    name: Seq<char>,
)
    requires
        is_live(app),
        is_on(watched(app.sftp->0), entry),
        names_something(entry),
        is_entry_name(trimmed(name)),
    ensures
        ({
            let cwd = watched(app.sftp->0).cwd;
            let from = joined(cwd, entry.name);
            let to = joined(cwd, trimmed(name));
            let asked = answered(app, SftpPromptKind::Rename, name);
            let after = asked.prompt_committed();
            &&& does_nothing(app, app.prompt_opened(SftpPromptKind::Rename))
            &&& app.prompt_opened(SftpPromptKind::Rename).sftp_prompt->0.value == entry.name
            &&& same_path(from, to) ==> does_nothing(app, after)
            &&& !same_path(from, to) ==> serves(
                app,
                after,
                CommandView::Rename(from, to),
                EffectView::ProbeLocal(to),
            )
            &&& asks_for(asked, asked.rename_probed(false), EffectView::LocalRename { from, to })
            &&& does_nothing(asked, asked.rename_probed(true))
        }),
{
    reveal_strlit("..");
    assert(".."@ =~= seq!['.', '.']);
    reveal(AppView::prompt_opened);
    reveal(AppView::prompt_committed);
}

/// The mode that is typed in octal is given to the selected row; what is no
/// mode is refused. The prompt starts with the bits that the row has.
pub proof fn modes_are_given_to_the_selected_row(
    app: AppView,
    entry: FileEntryView,
    value: Seq<char>,
)
    requires
        is_live(app),
        is_on(watched(app.sftp->0), entry),
        names_something(entry),
    ensures
        ({
            let path = joined(watched(app.sftp->0).cwd, entry.name);
            let asked = answered(app, SftpPromptKind::Chmod, value);
            let after = asked.prompt_committed();
            &&& does_nothing(app, app.prompt_opened(SftpPromptKind::Chmod))
            &&& octal_mode(value) matches Some(mode) ==> serves(
                app,
                after,
                CommandView::Chmod(path, mode),
                EffectView::LocalChmod { path, mode },
            )
            &&& octal_mode(value) is None ==> does_nothing(app, after)
                && after.sftp_prompt->0.error is Some
        }),
        ({
            let shown = app.prompt_opened(SftpPromptKind::Chmod).sftp_prompt->0.value;
            entry.perm matches Some(perm) ==> perm <= 0o7777 ==> shown == numeral(perm as nat, 8)
        }),
{
    reveal_strlit("..");
    assert(".."@ =~= seq!['.', '.']);
    reveal(AppView::prompt_opened);
    reveal(AppView::prompt_committed);
}

/// An item that is relayed between two servers is fetched by the worker of the
/// side it comes from, from its own source into the scratch directory, and is
/// pushed from that very place, by the other worker, to its own destination.
pub proof fn relayed_items_arrive_where_they_were_sent(app: AppView, relay: RelayView)
    requires
        is_live(app),
        app.sftp->0.left_host is Some,
        relay.items.len() > 0,
    ensures
        ({
            let item = relay.items[0];
            let fetching = AppView {
                sftp_relay: Some(RelayView { leg: RelayLeg::Fetching, ..relay }),
                ..app
            };
            let pushing = AppView {
                sftp_relay: Some(RelayView { leg: RelayLeg::Pushing, ..relay }),
                ..app
            };
            let fetch = if item.direction is Download {
                mail(fetching.relay_stepped().sftp_tx).last()
            } else {
                mail(fetching.relay_stepped().sftp_tx2).last()
            };
            let push = if item.direction is Download {
                mail(pushing.relay_stepped().sftp_tx2).last()
            } else {
                mail(pushing.relay_stepped().sftp_tx).last()
            };
            &&& item.direction is Download ==> tells_right(
                fetching,
                fetching.relay_stepped(),
                fetch,
            ) && tells_left(pushing, pushing.relay_stepped(), push)
            &&& item.direction is Upload ==> tells_left(fetching, fetching.relay_stepped(), fetch)
                && tells_right(pushing, pushing.relay_stepped(), push)
            &&& fetch matches CommandView::RunQueue(fetched)
            &&& push matches CommandView::RunQueue(pushed)
            &&& fetched.len() == 1 && pushed.len() == 1
            &&& fetched[0].direction is Download
            &&& pushed[0].direction is Upload
            &&& fetched[0].src == item.src
            &&& fetched[0].dst == joined(relay.tmp_dir, item.name)
            &&& pushed[0].src == fetched[0].dst
            &&& pushed[0].dst == item.dst
            &&& fetched[0].is_dir == item.is_dir && pushed[0].is_dir == item.is_dir
        }),
{
    reveal(AppView::relay_stepped);
}

/// A relay starts with the whole queue and its first item, and works it off in
/// order: after each item the next one is fetched.
pub proof fn relays_work_the_queue_off(app: AppView, tmp_dir: Seq<char>)
    requires
        is_live(app),
        app.sftp->0.left_host is Some,
        app.sftp->0.queue.len() > 0,
        app.sftp->0.queue.len() <= usize::MAX,
    ensures
        ({
            let browser = app.sftp->0;
            let started = app.relay_started(Ok(tmp_dir));
            &&& started.sftp_relay matches Some(relay)
            &&& relay.items == browser.queue
            &&& relay.total == browser.queue.len()
            &&& relay.tmp_dir == tmp_dir
            &&& relay.leg is Fetching
            &&& started.sftp->0.running == browser.queue
            &&& started.sftp->0.queue == browser.queue
            &&& started.sftp->0.phase is Running
            &&& relay.advanced().leg is Pushing && relay.advanced().items == browser.queue
            &&& relay.advanced().advanced().leg is Fetching
            &&& relay.advanced().advanced().items == browser.queue.drop_first()
            &&& relay.advanced().carried() == Some(browser.queue[0])
            &&& relay.carried() is None
        }),
{
    reveal(AppView::relay_stepped);
}

/// A relayed item is half way when it is fetched and whole when it is pushed,
/// and its progress never runs back.
pub proof fn relayed_progress_runs_on(less: u64, more: u64, size: u64)
    requires
        less <= more <= size,
        size > 0,
    ensures
        AppView::leg_progress(RelayLeg::Fetching, 0, size) == 0,
        AppView::leg_progress(RelayLeg::Fetching, size, size) == 500,
        AppView::leg_progress(RelayLeg::Pushing, 0, size) == 500,
        AppView::leg_progress(RelayLeg::Pushing, size, size) == 1000,
        AppView::leg_progress(RelayLeg::Fetching, less, size) <= AppView::leg_progress(
            RelayLeg::Fetching,
            more,
            size,
        ),
        AppView::leg_progress(RelayLeg::Pushing, less, size) <= AppView::leg_progress(
            RelayLeg::Pushing,
            more,
            size,
        ),
{
    assert(500 * 0int / (size as int) == 0) by (nonlinear_arith)
        requires
            size > 0,
    ;
    assert(0 <= 500 * (less as int) / (size as int) <= 500) by (nonlinear_arith)
        requires
            0 <= less <= size,
            size > 0,
    ;
    assert(0 <= 500 * (more as int) / (size as int) <= 500) by (nonlinear_arith)
        requires
            0 <= more <= size,
            size > 0,
    ;
    assert(500 * (less as int) / (size as int) <= 500 * (more as int) / (size as int))
        by (nonlinear_arith)
        requires
            0 <= less <= more,
            size > 0,
    ;
}

/// Editing a file of a server fetches the selected one, opens the editor on the
/// copy, and writes that copy back to where it came from, through the same
/// worker, guarded by the stamp that came with it and under the bits it had.
pub proof fn edits_go_back_where_they_came_from(
    app: AppView,
    entry: FileEntryView,
    dir: Seq<char>,
    stamp: RemoteFileStamp,
)
    requires
        is_live(app),
        app.remote_edit is None,
        is_on(watched(app.sftp->0), entry),
        names_something(entry),
        !entry.is_dir && !entry.is_symlink,
        app.sftp->0.is_idle(),
        app.sftp->0.focus is Remote || app.sftp->0.left_host is Some,
    ensures
        ({
            let browser = app.sftp->0;
            let path = joined(watched(browser).cwd, entry.name);
            let source = if browser.focus is Remote {
                EditSource::RightRemote
            } else {
                EditSource::LeftRemote
            };
            let copy = joined(dir, entry.name);
            let made = app.edit_workspace_made(source, path, entry.name, entry.perm, Ok(dir));
            let landed = if browser.focus is Remote {
                made.event_applied(EventView::EditDownloaded(stamp))
            } else {
                made.event_applied_left(EventView::EditDownloaded(stamp))
            };
            let sent = landed.editor_over("success"@, false);
            &&& asks_for(
                app,
                app.edit_requested(),
                EffectView::MakeEditWorkspace {
                    source,
                    remote_path: path,
                    name: entry.name,
                    mode: entry.perm,
                },
            )
            &&& serves(
                app,
                made,
                CommandView::EditDownload { remote: path, local: copy },
                EffectView::OpenEditor,
            )
            &&& asks_for(made, landed, EffectView::OpenEditor)
            &&& serves(
                landed,
                sent,
                CommandView::EditUpload {
                    local: copy,
                    remote: path,
                    expected: stamp,
                    mode: entry.perm,
                },
                EffectView::OpenEditor,
            )
        }),
{
    reveal_strlit("..");
    assert(".."@ =~= seq!['.', '.']);
    reveal(AppView::edit_requested);
    reveal(AppView::download_landed);
    reveal(AppView::upload_started);
}

/// An editor that fails writes nothing back, and the copy is kept.
pub proof fn failed_editors_write_nothing(app: AppView, status: Seq<char>, visible: bool)
    requires
        status != "success"@,
    ensures
        does_nothing(app, app.editor_over(status, visible)),
        app.remote_edit matches Some(edit) ==> {
            &&& app.editor_over(status, visible).remote_edit matches Some(kept)
            &&& kept.local_path == edit.local_path
            &&& kept.remote_path == edit.remote_path
            &&& kept.stamp == edit.stamp
            &&& kept.temp_dir == edit.temp_dir
        },
{
    reveal(AppView::editor_failed);
}

/// The editor is started on the working copy of the edit, as the last word of
/// its command; a command that cannot be read starts nothing.
pub proof fn editors_open_the_working_copy(app: AppView, edit: EditView, command: Seq<char>)
    requires
        app.remote_edit == Some(edit),
        edit.phase is Editing,
    ensures
        ({
            let after = app.editor_opened(command);
            &&& command_words(command) matches Ok(words) ==> {
                &&& after.effects.len() == app.effects.len() + 1
                &&& after.effects.last() matches EffectView::SpawnEditor { argv, .. }
                &&& argv.drop_last() == words
                &&& argv.last() == edit.local_path
            }
            &&& command_words(command) is Err ==> does_nothing(app, after)
        }),
{
    reveal(AppView::editor_failed);
    if let Ok(words) = command_words(command) {
        assert(words.push(edit.local_path).drop_last() =~= words);
    }
}

proof fn lemma_octal(mode: u32)
    ensures
        ({
            let s = numeral(mode as nat, 8);
            &&& all_digits_in(s, 8)
            &&& value_in(s, 8) == mode
            &&& trimmed(s) == s
            &&& s[0] != '+'
        }),
{
    let s = numeral(mode as nat, 8);
    numerals_are_read_back(mode as nat, 8);
    assert(is_digit(s[0]) && is_digit(s[s.len() - 1]));
    trimming_takes_only_space(s);
}

/// The bits that are typed for a row are read in octal, and more than there are
/// bits is refused; the bits that the prompt shows are the ones that it would
/// set.
pub proof fn typed_modes_are_octal(mode: u32)
    ensures
        mode <= 0o7777 ==> octal_mode(numeral(mode as nat, 8)) == Some(mode),
        mode > 0o7777 ==> octal_mode(numeral(mode as nat, 8)) is None,
{
    lemma_octal(mode);
}

} // verus!
