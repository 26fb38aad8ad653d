//! What the keys of the screens do, by the actions they are bound to.

use vstd::prelude::*;

use crate::app::dashboard::HostsKey;
use crate::app::effects::{EffectView, Task};
use crate::app::state::{
    AuditFilter, AuditRange, FormKind, PaletteView, PanelsView, PendingView,
};
use crate::app::AppView;
use crate::keybinds::{KeyAction, KeyEvent};

verus! {

/// Whether a key is bound to this action and to no other.
pub open spec fn is_key_of(app: AppView, action: KeyAction, key: KeyEvent) -> bool {
    app.hits(action, key) && forall|other: KeyAction|
        other != action ==> !(#[trigger] app.hits(other, key))
}

/// Whether one task was handed on, and nothing else asked for.
pub open spec fn hands_on(before: AppView, after: AppView, task: Task) -> bool {
    after.effects == before.effects.push(EffectView::Do(task))
}

proof fn lemma_host_key(app: AppView, action: KeyAction, key: KeyEvent)
    requires
        is_key_of(app, action, key),
        !app.panels.zoomed,
        app.broadcast is None,
        app.broadcast_toasts == 0,
    ensures
        ({
            let what = app.hosts_key(key);
            let on_header = app.selected_header() is Some;
            &&& action is Connect ==> what == HostsKey::Delegate(
                if on_header {
                    Task::ToggleSelectedGroup
                } else {
                    Task::ConnectSelected
                },
            )
            &&& action is Edit ==> what == HostsKey::Delegate(
                if on_header {
                    Task::RenameSelectedGroup
                } else {
                    Task::EditSelectedHost
                },
            )
            &&& action is AddHost ==> what == HostsKey::Delegate(Task::EnterHostForm)
            &&& action is Delete ==> what == HostsKey::Delegate(Task::DeleteSelectedHost)
            &&& action is Duplicate ==> what == HostsKey::Delegate(Task::DuplicateSelectedHost)
            &&& action is Favorite ==> what == HostsKey::Delegate(Task::ToggleFavorite)
            &&& action is ExportSsh ==> what == HostsKey::Delegate(Task::ExportSshConfig)
            &&& action is ImportSsh ==> what == HostsKey::Delegate(Task::ImportSshConfig)
            &&& action is ImportTermius ==> what == HostsKey::Delegate(Task::OpenImportPrompt)
            &&& action is DeleteGroup ==> what == HostsKey::Delegate(Task::DeleteSelectedGroup)
            &&& action is RenameGroup ==> what == HostsKey::Delegate(Task::RenameSelectedGroup)
            &&& action is GroupsManage ==> what == HostsKey::Delegate(Task::EnterGroupManage)
            &&& action is ToggleGroup ==> what == HostsKey::Delegate(Task::ToggleSelectedGroup)
            &&& action is TagFilter ==> what == HostsKey::Delegate(Task::OpenTagFilter)
            &&& action is SortCycle ==> what == HostsKey::Delegate(Task::CycleSortMode)
            &&& action is YankLog ==> what == HostsKey::Delegate(Task::YankSshLog)
            &&& action is Broadcast ==> what == HostsKey::Delegate(Task::OpenBroadcast)
            &&& action is MoveHostUp ==> what == HostsKey::Delegate(Task::MoveHostManual(-1i32))
            &&& action is MoveHostDown ==> what == HostsKey::Delegate(Task::MoveHostManual(1))
            &&& action is Search ==> what is OpenPalette
            &&& action is Help ==> what is Help
            &&& action is Quit ==> what is Quit
        }),
{
}

/// On the host list a key does what it is bound to: it acts on the selected
/// host, or on the selected group where a group header is selected.
pub proof fn host_keys_do_what_they_are_bound_to(app: AppView, action: KeyAction, key: KeyEvent)
    requires
        is_key_of(app, action, key),
        !app.panels.zoomed,
        app.broadcast is None,
        app.broadcast_toasts == 0,
    ensures
        ({
            let after = app.normal_key(key);
            let on_header = app.selected_header() is Some;
            &&& action is Connect ==> hands_on(
                app,
                after,
                if on_header {
                    Task::ToggleSelectedGroup
                } else {
                    Task::ConnectSelected
                },
            )
            &&& action is Edit ==> hands_on(
                app,
                after,
                if on_header {
                    Task::RenameSelectedGroup
                } else {
                    Task::EditSelectedHost
                },
            )
            &&& action is AddHost ==> hands_on(app, after, Task::EnterHostForm)
            &&& action is Delete ==> hands_on(app, after, Task::DeleteSelectedHost)
            &&& action is Duplicate ==> hands_on(app, after, Task::DuplicateSelectedHost)
            &&& action is Favorite ==> hands_on(app, after, Task::ToggleFavorite)
            &&& action is ExportSsh ==> hands_on(app, after, Task::ExportSshConfig)
            &&& action is ImportSsh ==> hands_on(app, after, Task::ImportSshConfig)
            &&& action is ImportTermius ==> hands_on(app, after, Task::OpenImportPrompt)
            &&& action is DeleteGroup ==> hands_on(app, after, Task::DeleteSelectedGroup)
            &&& action is RenameGroup ==> hands_on(app, after, Task::RenameSelectedGroup)
            &&& action is GroupsManage ==> hands_on(app, after, Task::EnterGroupManage)
            &&& action is ToggleGroup ==> hands_on(app, after, Task::ToggleSelectedGroup)
            &&& action is TagFilter ==> hands_on(app, after, Task::OpenTagFilter)
            &&& action is SortCycle ==> hands_on(app, after, Task::CycleSortMode)
            &&& action is YankLog ==> hands_on(app, after, Task::YankSshLog)
            &&& action is Broadcast ==> hands_on(app, after, Task::OpenBroadcast)
            &&& action is MoveHostUp ==> hands_on(app, after, Task::MoveHostManual(-1i32))
            &&& action is MoveHostDown ==> hands_on(app, after, Task::MoveHostManual(1))
            &&& action is Search ==> after.mode is Palette && after.palette.query.len() == 0
            &&& action is Help ==> after.mode is Help && after.help.return_to == Some(app.mode)
            &&& action is Quit && app.config.appearance.confirm_quit ==> !after.should_quit
                || app.should_quit
            &&& action is Quit && !app.config.appearance.confirm_quit ==> after.should_quit
        }),
{
    reveal(AppView::normal_key);
    reveal(AppView::help_opened);
    reveal(AppView::quit_requested);
    let quiet = AppView { host_notice: None, ..app };
    assert forall|other: KeyAction| #[trigger] quiet.hits(other, key) == app.hits(other, key) by {}
    assert(is_key_of(quiet, action, key));
    lemma_host_key(quiet, action, key);
    let what = quiet.hosts_key(key);
    if !(quiet.tab_switched(key) is Some) {
        assert(app.normal_key(key) == quiet.hosts_key_done(what));
    }
    tabs_are_reached_by_their_keys(quiet, action, key);
    if let HostsKey::Delegate(task) = what {
        assert(quiet.hosts_key_done(what) == quiet.doing(task));
        assert(hands_on(app, quiet.doing(task), task));
    }
}

/// Folding a group closes it only where it is open, and unfolding opens it only
/// where it is closed; both leave a host row alone.
pub proof fn folding_closes_open_groups(app: AppView, at: usize)
    requires
        app.selected_header() == Some(at),
    ensures
        ({
            let open = !app.group_sections[at as int].collapsed;
            &&& open ==> hands_on(app, app.group_folded(false), Task::ToggleSelectedGroup)
                && app.group_folded(true) == app
            &&& !open ==> hands_on(app, app.group_folded(true), Task::ToggleSelectedGroup)
                && app.group_folded(false) == app
        }),
{
}

/// The tabs are reached by their own keys, whichever tab is shown.
pub proof fn tabs_are_reached_by_their_keys(app: AppView, action: KeyAction, key: KeyEvent)
    requires
        is_key_of(app, action, key),
    ensures
        action is TabHosts ==> (app.tab_switched(key) matches Some(there) && there.active_tab == 0
            && there.effects == app.effects),
        action is TabSftp ==> (app.tab_switched(key) matches Some(there) && there.active_tab == 1
            && there.effects == app.effects),
        action is TabTunnels ==> (app.tab_switched(key) matches Some(there) && hands_on(
            app,
            there,
            Task::SwitchToTunnels,
        )),
        action is TabKeys ==> (app.tab_switched(key) matches Some(there) && hands_on(
            app,
            there,
            Task::SwitchToKeys,
        )),
        action is TabAudit ==> (app.tab_switched(key) matches Some(there) && there.active_tab == 4
            && hands_on(app, there, Task::RefreshAuditEvents)),
        !(action is TabHosts || action is TabSftp || action is TabTunnels || action is TabKeys
            || action is TabAudit) ==> app.tab_switched(key) is None,
{
}

/// On the keys tab a key does what it is bound to, to the selected identity.
pub proof fn identity_keys_do_what_they_are_bound_to(
    app: AppView,
    action: KeyAction,
    key: KeyEvent,
)
    requires
        is_key_of(app, action, key),
    ensures
        ({
            let after = app.keychain_key(key);
            &&& action is MoveDown ==> hands_on(app, after, Task::MoveIdentityGrid(1, 0))
            &&& action is MoveUp ==> hands_on(app, after, Task::MoveIdentityGrid(-1i32, 0))
            &&& action is MoveRight ==> hands_on(app, after, Task::MoveIdentityGrid(0, 1))
            &&& action is MoveLeft ==> hands_on(app, after, Task::MoveIdentityGrid(0, -1i32))
            &&& action is AddHost ==> hands_on(app, after, Task::EnterIdentityForm)
            &&& action is GenerateKey ==> hands_on(app, after, Task::EnterKeygenForm)
            &&& action is Edit ==> hands_on(app, after, Task::EditSelectedIdentity)
            &&& action is Delete ==> hands_on(app, after, Task::DeleteSelectedIdentity)
            &&& action is AddToAgent ==> hands_on(app, after, Task::AddSelectedToAgent)
            &&& action is RemoveFromAgent ==> hands_on(app, after, Task::RemoveSelectedFromAgent)
            &&& action is KnownHosts ==> hands_on(app, after, Task::LoadKnownHosts)
            &&& action is Cancel ==> after.active_tab == 0 && after.effects == app.effects
        }),
{
    reveal(AppView::keychain_key);
    let quiet = AppView { identity_notice: None, ..app };
    assert forall|other: KeyAction| #[trigger] quiet.hits(other, key) == app.hits(other, key) by {}
}

/// What waits to be deleted is deleted by the key that confirms it and by no
/// other, and nothing else is: the very host, identity, group or tunnel that was
/// asked about.
pub proof fn only_what_was_confirmed_is_deleted(app: AppView, pending: PendingView, key: KeyEvent)
    requires
        app.pending_delete == Some(pending),
    ensures
        ({
            let after = app.confirm_delete_key(key);
            let yes = app.hits(KeyAction::ConfirmYes, key);
            &&& yes ==> {
                &&& pending matches PendingView::Host { id, name } ==> after.effects
                    == app.effects.push(EffectView::DeleteHost { id, name })
                &&& pending matches PendingView::Identity { id, name } ==> after.effects
                    == app.effects.push(EffectView::DeleteIdentity { id, name })
                &&& pending matches PendingView::Group { id, name } ==> after.effects
                    == app.effects.push(EffectView::DeleteGroup { id, name })
                &&& pending matches PendingView::Tunnel { id, label } ==> after.effects
                    == app.effects.push(EffectView::DeleteTunnel { id, label })
                &&& !(pending is SftpEntry || pending is RemoteEdit) ==> after.pending_delete is None
            }
            &&& !yes && !(pending is Group) ==> after.effects == app.effects
            &&& !yes && pending is Group ==> after.effects == app.effects || hands_on(
                app,
                after,
                Task::EnterGroupManage,
            )
            &&& !yes && (app.hits(KeyAction::ConfirmNo, key) || app.hits(KeyAction::Cancel, key))
                ==> after.pending_delete is None
        }),
{
    reveal(AppView::confirm_delete_key);
}

/// A form with changes is saved where that is confirmed, dropped where it is
/// refused, and shown again where the question is called off.
pub proof fn changed_forms_are_asked_about(app: AppView, action: KeyAction, key: KeyEvent)
    requires
        is_key_of(app, action, key),
        app.forms.host && !app.forms.identity && !app.forms.keygen && !app.forms.tunnel
            || !app.forms.host && app.forms.identity && !app.forms.keygen && !app.forms.tunnel
            || !app.forms.host && !app.forms.identity && app.forms.keygen && !app.forms.tunnel
            || !app.forms.host && !app.forms.identity && !app.forms.keygen && app.forms.tunnel,
    ensures
        ({
            let form = if app.forms.host {
                FormKind::Host
            } else if app.forms.identity {
                FormKind::Identity
            } else if app.forms.keygen {
                FormKind::Keygen
            } else {
                FormKind::Tunnel
            };
            let after = app.confirm_discard_key(key);
            &&& action is ConfirmYes ==> hands_on(app, after, Task::SaveForm(form))
            &&& action is ConfirmNo ==> hands_on(app, after, Task::DiscardForm(form))
            &&& action is Cancel ==> after.effects == app.effects && after.forms == app.forms && {
                &&& form is Host ==> after.mode is HostForm
                &&& form is Identity ==> after.mode is IdentityForm
                &&& form is Keygen ==> after.mode is KeygenForm
                &&& form is Tunnel ==> after.mode is TunnelForm
            }
            &&& !(action is ConfirmYes || action is ConfirmNo || action is Cancel) ==> after == app
        }),
{
    reveal(AppView::confirm_discard_key);
}

/// Letters typed into the palette make its query and are looked up; Enter
/// connects to the selected result and to nothing else.
pub proof fn the_palette_connects_to_the_selected_result(app: AppView, key: KeyEvent)
    ensures
        ({
            let after = app.palette_key(key);
            let palette = app.palette;
            let enter = app.hits(KeyAction::Connect, key) && !app.hits(KeyAction::Cancel, key);
            &&& app.hits(KeyAction::Cancel, key) ==> after.mode is Normal && after.effects
                == app.effects
            &&& enter && palette.selected < palette.results.len() ==> hands_on(
                app,
                after,
                Task::RevealAndConnect(palette.results[palette.selected as int]),
            ) && after.mode is Normal
            &&& enter && palette.selected == palette.results.len() && palette.adhoc ==> hands_on(
                app,
                after,
                Task::ConnectAdhoc,
            )
            &&& enter && palette.selected >= palette.results.len() && !palette.adhoc
                ==> after.effects == app.effects
            &&& !enter && !app.hits(KeyAction::Cancel, key) ==> (key.types() matches Some(c) ==> {
                &&& after.palette.query == palette.query.push(c)
                &&& hands_on(app, after, Task::SearchPalette)
            })
        }),
{
    reveal(AppView::palette_key);
}

/// The selection of the palette moves by one row, stays within the rows, and
/// stays on one when the results change.
pub proof fn the_palette_selection_is_on_a_row(
    palette: PaletteView,
    results: Seq<usize>,
    adhoc: bool,
    app: AppView,
)
    requires
        palette.results.len() < usize::MAX,
        palette.selected < palette.results.len() + (if palette.adhoc {
            1int
        } else {
            0int
        }),
    ensures
        ({
            let rows = palette.results.len() + (if palette.adhoc {
                1int
            } else {
                0int
            });
            let down = palette.moved(true);
            let up = palette.moved(false);
            &&& down.selected == if palette.selected + 1 < rows {
                palette.selected + 1
            } else {
                palette.selected as int
            }
            &&& up.selected == if palette.selected > 0 {
                palette.selected - 1
            } else {
                0
            }
            &&& down == PaletteView { selected: down.selected, ..palette }
            &&& up == PaletteView { selected: up.selected, ..palette }
        }),
        ({
            let after = app.palette_found(results, adhoc).palette;
            &&& after.results == results
            &&& after.adhoc == adhoc
            &&& after.query == app.palette.query
            &&& results.len() > 0 ==> after.selected < results.len() || (adhoc && after.selected
                == results.len())
            &&& results.len() > 0 && app.palette.selected < results.len() ==> after.selected
                == app.palette.selected
        }),
{
}

/// Letters typed into the host search make its query; Enter connects to the
/// selected host, and leaving the search forgets it.
pub proof fn searches_are_typed(app: AppView, key: KeyEvent)
    ensures
        ({
            let after = app.search_key(key);
            let leaves = app.hits(KeyAction::Cancel, key);
            let enters = app.hits(KeyAction::Connect, key) && !leaves;
            &&& leaves ==> after.search_query.len() == 0 && after.mode is Normal && hands_on(
                app,
                after,
                Task::RebuildFilter,
            )
            &&& enters ==> hands_on(app, after, Task::ConnectSelected)
            &&& !leaves && !enters ==> (key.types() matches Some(c) ==> {
                &&& after.search_query == app.search_query.push(c)
                &&& hands_on(app, after, Task::RebuildFilter)
            })
        }),
{
    reveal(AppView::search_key);
}

/// The filters of the audit log are gone through one after the other and come
/// round again.
pub proof fn audit_filters_come_round(filter: AuditFilter, range: AuditRange)
    ensures
        filter.next_spec() != filter,
        filter.next_spec().next_spec() != filter,
        filter.next_spec().next_spec().next_spec() == filter,
        range.next_spec() != range,
        range.next_spec().next_spec() != range,
        range.next_spec().next_spec().next_spec() != range,
        range.next_spec().next_spec().next_spec().next_spec() == range,
        AuditFilter::All.next_spec() is Succeeded,
        AuditRange::All.next_spec() is Today,
{
}

/// Zooming a panel and zooming it again leaves it as it was, its view at the
/// top. The focus stays.
pub proof fn zooming_twice_restores_the_panels(panels: PanelsView, moves: bool)
    ensures
        panels.zoom_toggled(moves).zoom_toggled(moves).zoomed == panels.zoomed,
        panels.zoom_toggled(moves).zoomed != panels.zoomed,
        panels.zoom_toggled(moves).focused == panels.focused,
        panels.zoom_toggled(moves).scroll == 0,
{
}

} // verus!
