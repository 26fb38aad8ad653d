//! Which screen gets a key, and what typing and choosing there come to.

use vstd::prelude::*;

use crate::app::effects::{EffectView, Task};
use crate::app::host_list::{group_key, padded, text_order};
use crate::app::key_laws::{hands_on, is_key_of};
use crate::app::list_laws::texts_are_ordered_by_their_first_difference;
use crate::app::state::{NavRow, PromptView};
use crate::app::{AppView, UI_ZOOM_MAX};
use crate::hosts::HostEntry;
use crate::keybinds::{KeyAction, KeyCode, KeyEvent, KeyModifiers};
use crate::sftp::browser::SftpView;
use crate::sftp::staging_laws::watched;
use crate::text::{decimal, is_digit, numerals_are_read_back};
use crate::text_input::backspace_undoes_insertion;

verus! {

/// Every screen gets the keys that are pressed while it is up, and no other
/// does.
pub proof fn screens_get_their_own_keys(app: AppView, key: KeyEvent)
    requires
        app.global_key(key) is None,
    ensures
        ({
            let after = app.key_handled(key);
            &&& app.mode is KeybindEditor ==> after == app.keybind_editor_key(key)
            &&& app.mode is Settings ==> after == app.settings_key(key)
            &&& app.mode is ThemePicker ==> after == app.theme_picker_key(key)
            &&& app.mode is ConfirmQuit ==> after == app.confirm_quit_key(key)
            &&& app.mode is Help ==> after == app.help_key(key)
            &&& app.mode is ConfirmDiscard ==> after == app.confirm_discard_key(key)
            &&& app.mode is ConfirmDelete ==> after == app.confirm_delete_key(key)
            &&& app.mode is PushKeyHostPicker ==> after == app.host_picker_key(key)
            &&& app.mode is PushKeyIdentityPicker ==> after == app.identity_picker_key(key)
            &&& app.mode is SftpPrompt ==> after == app.prompt_key(key)
            &&& app.mode is Palette ==> after == app.palette_key(key)
            &&& app.mode is Search ==> after == app.search_key(key)
            &&& app.mode is KnownHosts ==> after == app.known_hosts_key(key)
            &&& app.mode is Notice ==> after.notice_popup is None && after.mode is Normal
            &&& app.mode is Normal && app.active_tab == 0 ==> after == app.normal_key(key)
            &&& app.mode is Normal && app.active_tab == 1 ==> after == app.sftp_key(key)
            &&& app.mode is Normal && app.active_tab == 3 ==> after == app.keychain_key(key)
        }),
{
}

/// Some keys work wherever they are pressed on the dashboard.
pub proof fn global_keys_work_on_the_dashboard(app: AppView, action: KeyAction, key: KeyEvent)
    requires
        is_key_of(app, action, key),
        app.mode is Normal,
    ensures
        action is LocalShell ==> hands_on(app, app.key_handled(key), Task::OpenLocalShell),
        action is KeybindEditor ==> app.key_handled(key).mode is KeybindEditor
            && app.key_handled(key).keybind_editor is Some && app.key_handled(key).effects
            == app.effects,
        action is ForceQuit ==> app.key_handled(key) == app.quit_forced(),
{
}

/// The host of the selected row is the selected host; a group header is none.
pub proof fn the_selected_row_is_the_selected_host(app: AppView, i: usize)
    requires
        app.selected < app.nav_rows.len(),
    ensures
        app.nav_rows[app.selected as int] == NavRow::Host(i) && i < app.hosts.len() ==> {
            &&& app.selected_host() == Some(i)
            &&& app.selected_header() is None
        },
        app.nav_rows[app.selected as int] == NavRow::Header(i) && i < app.group_sections.len()
            ==> {
            &&& app.selected_header() == Some(i)
            &&& app.selected_host() is None
        },
{
}

/// Enter in the host picker of the SFTP tab opens a browser on the selected host
/// and folds or unfolds a selected group.
pub proof fn picking_opens_the_selected_host(app: AppView, i: usize)
    requires
        app.selected < app.nav_rows.len(),
        app.nav_rows[app.selected as int] == NavRow::Host(i) && i < app.hosts.len()
            || app.nav_rows[app.selected as int] == NavRow::Header(i) && i
            < app.group_sections.len(),
    ensures
        ({
            let after = app.picked();
            let on_host = app.nav_rows[app.selected as int] is Host;
            &&& !on_host ==> hands_on(app, after, Task::ToggleSelectedGroup)
            &&& on_host && app.hosts[i as int].ssh_host_spec().proxy_jump is None ==> after.effects
                == app.effects.push(EffectView::Do(Task::RebuildFilter)).push(
                EffectView::StartSftp(i),
            )
            &&& on_host && app.hosts[i as int].ssh_host_spec().proxy_jump is Some ==> after.effects
                == app.effects.push(EffectView::Do(Task::RebuildFilter))
        }),
{
    reveal(AppView::sftp_opened_selected);
    reveal(AppView::sftp_opened);
}

/// All groups fold, unless all are folded: then all unfold.
pub proof fn folding_all_goes_by_what_is_open(app: AppView)
    ensures
        ({
            let open = exists|i: int|
                0 <= i < app.group_sections.len() && !(#[trigger] app.group_sections[i]).collapsed;
            &&& open ==> hands_on(app, app.all_groups_toggled(), Task::SetAllGroupsCollapsed(true))
            &&& !open && app.group_sections.len() > 0 ==> hands_on(
                app,
                app.all_groups_toggled(),
                Task::SetAllGroupsCollapsed(false),
            )
        }),
{
}

/// The interface is made larger and smaller by one step, within its limits, and
/// a new size is remembered.
pub proof fn the_zoom_goes_by_steps(app: AppView)
    requires
        app.ui_zoom <= UI_ZOOM_MAX,
    ensures
        ({
            let more = app.zoom_stepped(true);
            let less = app.zoom_stepped(false);
            &&& more.ui_zoom == if app.ui_zoom < UI_ZOOM_MAX {
                app.ui_zoom + 1
            } else {
                app.ui_zoom as int
            }
            &&& less.ui_zoom == if app.ui_zoom > 0 {
                app.ui_zoom - 1
            } else {
                0
            }
            &&& more.ui_zoom != app.ui_zoom ==> more.effects.len() == app.effects.len() + 1
                && more.effects.last() is SaveUiState && more.zoom_stepped(false).ui_zoom
                == app.ui_zoom
            &&& more.ui_zoom == app.ui_zoom ==> more == app
        }),
{
}

/// In the detail of a host, what is typed goes into the field, the key that
/// confirms saves and the one that cancels does not.
pub proof fn details_are_typed_saved_or_dropped(app: AppView, action: KeyAction, key: KeyEvent)
    requires
        is_key_of(app, action, key),
        app.detail_edit is Some,
    ensures
        action is Cancel ==> app.detail_task(key) == Some(Task::CancelHostDetail),
        action is Connect ==> app.detail_task(key) == Some(Task::SaveHostDetail),
        action is Favorite ==> app.detail_task(key) == Some(Task::ToggleFavorite),
        action is MoveDown && !(key.code is BackTab) ==> app.detail_task(key) == Some(
            Task::DetailFieldNext,
        ),
        action is MoveUp && !(key.code is BackTab) ==> app.detail_task(key) == Some(
            Task::DetailFieldPrev,
        ),
{
}

/// A key that is bound to nothing types into the detail of a host.
pub proof fn details_take_what_is_typed(app: AppView, key: KeyEvent, c: char)
    requires
        forall|action: KeyAction| !(#[trigger] app.hits(action, key)),
        app.detail_edit is Some,
        !app.detail_edit->0.tri_state,
        !app.detail_edit->0.session_logging,
        key.code == KeyCode::Char(c),
        key.types() == Some(c),
    ensures
        app.detail_task(key) == Some(Task::DetailInsert(c)),
{
}

/// What is typed into a prompt of the browser is put at its cursor, Backspace
/// takes it back, and Esc closes the prompt with nothing done.
pub proof fn prompts_take_what_is_typed(
    app: AppView,
    prompt: PromptView,
    key: KeyEvent,
    escape: KeyEvent,
    back: KeyEvent,
    c: char,
)
    requires
        app.sftp_prompt == Some(prompt),
        prompt.cursor <= prompt.value.len(),
        key.code == KeyCode::Char(c),
        key.types() == Some(c),
        escape.code is Esc,
        back.code is Backspace,
        back.modifiers == KeyModifiers::none(),
    ensures
        ({
            let typed = app.prompt_key(key);
            let closed = app.prompt_key(escape);
            &&& typed.sftp_prompt matches Some(now)
            &&& now.value == prompt.value.take(prompt.cursor as int).push(c)
                + prompt.value.skip(prompt.cursor as int)
            &&& now.cursor == prompt.cursor + 1
            &&& now.kind == prompt.kind && now.side == prompt.side && now.base == prompt.base
                && now.old_path == prompt.old_path
            &&& typed.effects == app.effects
            &&& typed.prompt_key(back).sftp_prompt matches Some(before)
            &&& before.value == prompt.value && before.cursor == prompt.cursor
            &&& closed.sftp_prompt is None && closed.mode is Normal && closed.effects
                == app.effects
        }),
{
    reveal(AppView::prompt_key);
    let typed = app.prompt_key(key);
    let at = prompt.cursor as int;
    assert(prompt.value.insert(at, c) =~= prompt.value.take(at).push(c) + prompt.value.skip(at));
    backspace_undoes_insertion(prompt.line(), c);
}

/// What is typed into the search of a pane is its filter; Enter keeps the filter
/// and Esc drops it. The other pane is left alone.
pub proof fn pane_searches_filter_their_pane(browser: SftpView, key: KeyEvent)
    ensures
        ({
            let pane = watched(browser);
            let after = browser.search_key(key);
            &&& key.code is Esc ==> watched(after).filter.len() == 0 && !after.searching
            &&& key.code is Enter ==> after == SftpView { searching: false, ..browser }
            &&& key.code is Char ==> (key.types() matches Some(c) ==> watched(after).filter
                == pane.filter.push(c) && after.searching == browser.searching)
            &&& browser.focus is Local ==> after.remote == browser.remote
            &&& browser.focus is Remote ==> after.local == browser.local
            &&& watched(after).entries == pane.entries && watched(after).cwd == pane.cwd
            &&& after.queue == browser.queue
        }),
{
}

/// An edit that reached its server is over: its working copy goes, and both
/// panes are listed afresh. A local edit is over once its editor is.
pub proof fn written_edits_are_over(app: AppView, warning: Option<Seq<char>>)
    requires
        app.sftp is Some,
        app.remote_edit is Some,
    ensures
        app.remote_edit->0.phase is Uploading ==> {
            let after = app.upload_landed(warning);
            &&& after.remote_edit is None
            &&& app.remote_edit->0.temp_dir matches Some(dir) ==> after.effects.contains(
                EffectView::DropWorkspace(dir),
            )
            &&& after.sftp matches Some(browser)
            &&& browser.phase is Browsing
            &&& browser.notice is Some
        },
        !(app.remote_edit->0.phase is Uploading) ==> app.upload_landed(warning) == app,
        app.local_edit_over().remote_edit is None,
{
    reveal(AppView::upload_landed);
    reveal(AppView::local_edit_over);
    reveal(AppView::refreshed);
    if let Some(dir) = app.remote_edit->0.temp_dir {
        let n = app.effects.len() as int;
        let after = app.upload_landed(warning);
        if app.remote_edit->0.phase is Uploading {
            assert(after.effects[n] == EffectView::DropWorkspace(dir));
        }
    }
}

proof fn lemma_padded(n: i64)
    ensures
        padded(n).len() > 0,
        padded(n)[0] == '-' || is_digit(padded(n)[0]),
{
    reveal_strlit("-");
    if n < 0 {
        assert(padded(n)[0] == '-');
    } else {
        numerals_are_read_back(n as nat, 10);
        let digits = decimal(n as nat);
        assert(is_digit(digits[0]));
        if digits.len() < 8 {
            assert(padded(n)[0] == '0');
        } else {
            assert(padded(n)[0] == digits[0]);
        }
    }
}

/// Sorted by groups, the hosts that are in none come behind all others.
pub proof fn ungrouped_hosts_come_last(grouped: HostEntry, loose: HostEntry)
    requires
        grouped matches HostEntry::Managed(m) && m.group is Some,
        loose matches HostEntry::Managed(m) ==> m.group is None,
    ensures
        text_order(group_key(grouped), group_key(loose)) is Less,
{
    reveal_strlit("z_");
    let group = grouped->Managed_0.group->0;
    lemma_padded(group.sort_order);
    let a = group_key(grouped);
    let b = group_key(loose);
    assert(a[0] == padded(group.sort_order)[0]);
    assert(b[0] == 'z');
    let none = Seq::<char>::empty();
    texts_are_ordered_by_their_first_difference(none, a[0], a.skip(1), b[0], b.skip(1));
    assert(none.push(a[0]) + a.skip(1) =~= a);
    assert(none.push(b[0]) + b.skip(1) =~= b);
}

} // verus!
