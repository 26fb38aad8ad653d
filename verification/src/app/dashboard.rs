//! Keys of the hosts tab: the host list and the panels around it.

use vstd::prelude::*;

use crate::app::effects::{Effect, EffectView, Task};
use crate::app::push_key::{first_positions, positions};
use crate::app::state::{
    AppMode, FocusDir, Palette, PaletteView, PanelId, Panels, PanelsView, ZoomAnim,
};
use crate::app::{App, AppView, UI_ZOOM_MAX};
use crate::keybinds::{KeyAction, KeyCode, KeyEvent};
use crate::text::{cat2, cat3, cat4, cat5, decimal, len, opt_view, to_decimal};

verus! {

broadcast use crate::text::group_views;

/// What a key of the hosts tab does.
#[derive(Debug, Clone, Copy, PartialEq, Eq, Structural)]
pub enum HostsKey {
    /// Stop a broadcast that runs, else clear what is left of it.
    StopBroadcast,
    Quit,
    MoveByGroup(i32),
    /// Scroll the zoomed panel.
    Scroll { down: bool, step: u16 },
    ConnectZoomed,
    NextAuditFilter,
    NextAuditRange,
    RemoveAgentKey,
    Move(i32),
    Unzoom,
    ClearFilters,
    Fold { collapsed: bool },
    FoldAll,
    Zoom { more: bool },
    ToggleZoom,
    FocusPanel(FocusDir),
    ToggleDetailFocus,
    OpenPalette,
    Help,
    ClearLog,
    PushKey,
    /// What another part of the program does.
    Delegate(Task),
    Nothing,
}

impl PanelsView {
    /// Whether a panel other than the host list fills the screen. The host list
    /// keeps its own selection.
    pub open spec fn zoomed_aside(self) -> bool {
        self.zoomed && !(self.focused is Hosts)
    }

    pub open spec fn zoomed_on(self, panel: PanelId) -> bool {
        self.zoomed && self.focused == panel
    }

    /// The view of the panel starts over.
    pub open spec fn rewound(self) -> PanelsView {
        PanelsView { scroll: 0, selecting: false, ..self }
    }

    /// The panel fills the screen, or no longer does. It morphs between the two
    /// if things move; the broadcast panel moves in its own way.
    pub open spec fn zoom_toggled(self, moves: bool) -> PanelsView {
        PanelsView {
            zoomed: !self.zoomed,
            zoom_anim: if moves && !(self.focused is Broadcast) {
                Some(
                    if self.zoomed {
                        ZoomAnim::Out
                    } else {
                        ZoomAnim::In
                    },
                )
            } else {
                None
            },
            ..self.rewound()
        }
    }
}

pub open spec fn plus(n: int, step: int, max: int) -> int {
    if n + step <= max {
        n + step
    } else {
        max
    }
}

pub open spec fn minus(n: int, step: int) -> int {
    if n >= step {
        n - step
    } else {
        0
    }
}

/// What a read of the host files brought.
#[derive(Debug, Clone, Copy, PartialEq, Eq, Structural)]
pub struct ImportReport {
    pub inserted: usize,
    pub updated: usize,
    pub skipped_launcher: usize,
    pub failed: usize,
}

impl ImportReport {
    pub open spec fn message(self) -> Seq<char> {
        let done = "Imported "@ + decimal(self.inserted as nat) + " new, "@ + decimal(
            self.updated as nat,
        ) + " updated, "@ + decimal(self.skipped_launcher as nat) + " skipped"@;
        if self.failed > 0 {
            done + ", "@ + decimal(self.failed as nat) + " failed"@
        } else {
            done
        }
    }
}

impl AppView {
    /// What a key means on the hosts tab. A zoomed panel comes before the host
    /// list behind it.
    pub open spec fn hosts_key(self, key: KeyEvent) -> HostsKey {
        let aside = self.panels.zoomed_aside();
        if self.hits(KeyAction::BroadcastCancel, key) && (self.broadcast is Some
            || self.broadcast_toasts > 0) {
            HostsKey::StopBroadcast
        } else if self.hits(KeyAction::Broadcast, key) {
            HostsKey::Delegate(Task::OpenBroadcast)
        } else if self.hits(KeyAction::Quit, key) {
            HostsKey::Quit
        } else if self.hits(KeyAction::MoveHostUp, key) {
            HostsKey::Delegate(Task::MoveHostManual(-1i32))
        } else if self.hits(KeyAction::MoveHostDown, key) {
            HostsKey::Delegate(Task::MoveHostManual(1))
        } else if self.hits(KeyAction::MoveGroupUp, key) {
            HostsKey::MoveByGroup(-1i32)
        } else if self.hits(KeyAction::MoveGroupDown, key) {
            HostsKey::MoveByGroup(1)
        } else if aside && key.code is PageDown {
            HostsKey::Scroll { down: true, step: 10 }
        } else if aside && self.hits(KeyAction::MoveDown, key) {
            HostsKey::Scroll { down: true, step: 1 }
        } else if aside && key.code is PageUp {
            HostsKey::Scroll { down: false, step: 10 }
        } else if aside && self.hits(KeyAction::MoveUp, key) {
            HostsKey::Scroll { down: false, step: 1 }
        } else if (self.panels.zoomed_on(PanelId::Ping) || self.panels.zoomed_on(PanelId::Recent))
            && self.hits(KeyAction::Connect, key) {
            HostsKey::ConnectZoomed
        } else if self.panels.zoomed_on(PanelId::Auth) && self.hits(KeyAction::AuditFilter, key) {
            HostsKey::NextAuditFilter
        } else if self.panels.zoomed_on(PanelId::Auth) && self.hits(KeyAction::AuditRange, key) {
            HostsKey::NextAuditRange
        } else if self.panels.zoomed_on(PanelId::Agent) && self.hits(KeyAction::Delete, key) {
            HostsKey::RemoveAgentKey
        } else if self.hits(KeyAction::MoveDown, key) {
            HostsKey::Move(1)
        } else if self.hits(KeyAction::MoveUp, key) {
            HostsKey::Move(-1i32)
        } else if self.hits(KeyAction::Cancel, key) && self.panels.zoomed {
            HostsKey::Unzoom
        } else if self.hits(KeyAction::Cancel, key) && self.tag_filters.len() > 0 {
            HostsKey::ClearFilters
        } else {
            self.hosts_list_key(key)
        }
    }

    /// What a key means to the host list itself.
    pub open spec fn hosts_list_key(self, key: KeyEvent) -> HostsKey {
        if self.hits(KeyAction::ToggleGroup, key) {
            HostsKey::Delegate(Task::ToggleSelectedGroup)
        } else if self.hits(KeyAction::FoldGroupIn, key) {
            HostsKey::Fold { collapsed: false }
        } else if self.hits(KeyAction::FoldGroupOut, key) {
            HostsKey::Fold { collapsed: true }
        } else if self.hits(KeyAction::CollapseAll, key) {
            HostsKey::FoldAll
        } else if self.hits(KeyAction::Connect, key) {
            HostsKey::Delegate(
                if self.selected_header() is Some {
                    Task::ToggleSelectedGroup
                } else {
                    Task::ConnectSelected
                },
            )
        } else if self.hits(KeyAction::AddHost, key) {
            HostsKey::Delegate(Task::EnterHostForm)
        } else if self.hits(KeyAction::Delete, key) {
            HostsKey::Delegate(Task::DeleteSelectedHost)
        } else if self.hits(KeyAction::Duplicate, key) {
            HostsKey::Delegate(Task::DuplicateSelectedHost)
        } else if self.hits(KeyAction::ExportSsh, key) {
            HostsKey::Delegate(Task::ExportSshConfig)
        } else if self.hits(KeyAction::ImportSsh, key) {
            HostsKey::Delegate(Task::ImportSshConfig)
        } else if self.hits(KeyAction::ImportTermius, key) {
            HostsKey::Delegate(Task::OpenImportPrompt)
        } else if self.hits(KeyAction::Edit, key) {
            HostsKey::Delegate(
                if self.selected_header() is Some {
                    Task::RenameSelectedGroup
                } else {
                    Task::EditSelectedHost
                },
            )
        } else if self.hits(KeyAction::UiZoomIn, key) {
            HostsKey::Zoom { more: true }
        } else if self.hits(KeyAction::UiZoomOut, key) {
            HostsKey::Zoom { more: false }
        } else {
            self.hosts_view_key(key)
        }
    }

    /// What a key means to what is shown around the host list.
    pub open spec fn hosts_view_key(self, key: KeyEvent) -> HostsKey {
        if self.hits(KeyAction::TogglePanelZoom, key) {
            HostsKey::ToggleZoom
        } else if self.hits(KeyAction::FocusPanelLeft, key) {
            HostsKey::FocusPanel(FocusDir::Left)
        } else if self.hits(KeyAction::FocusPanelRight, key) {
            HostsKey::FocusPanel(FocusDir::Right)
        } else if self.hits(KeyAction::FocusPanelUp, key) {
            HostsKey::FocusPanel(FocusDir::Up)
        } else if self.hits(KeyAction::FocusPanelDown, key) {
            HostsKey::FocusPanel(FocusDir::Down)
        } else if self.hits(KeyAction::Favorite, key) {
            HostsKey::Delegate(Task::ToggleFavorite)
        } else if self.hits(KeyAction::DetailFocus, key) {
            HostsKey::ToggleDetailFocus
        } else if self.hits(KeyAction::Search, key) {
            HostsKey::OpenPalette
        } else if self.hits(KeyAction::Help, key) {
            HostsKey::Help
        } else if self.hits(KeyAction::TagFilter, key) {
            HostsKey::Delegate(Task::OpenTagFilter)
        } else if self.hits(KeyAction::ClearSshLog, key) {
            HostsKey::ClearLog
        } else if self.hits(KeyAction::SortCycle, key) {
            HostsKey::Delegate(Task::CycleSortMode)
        } else if self.hits(KeyAction::YankLog, key) {
            HostsKey::Delegate(Task::YankSshLog)
        } else if self.hits(KeyAction::DeleteGroup, key) {
            HostsKey::Delegate(Task::DeleteSelectedGroup)
        } else if self.hits(KeyAction::GroupsManage, key) {
            HostsKey::Delegate(Task::EnterGroupManage)
        } else if self.hits(KeyAction::RenameGroup, key) {
            HostsKey::Delegate(Task::RenameSelectedGroup)
        } else if self.hits(KeyAction::PushKey, key) {
            HostsKey::PushKey
        } else {
            HostsKey::Nothing
        }
    }

    pub open spec fn with_panels(self, panels: PanelsView) -> AppView {
        AppView { panels, ..self }
    }

    pub open spec fn broadcast_stopped(self) -> AppView {
        if self.broadcast == Some(true) {
            self.doing(Task::CancelBroadcast)
        } else {
            AppView { broadcast_toasts: 0, ..self }
        }
    }

    /// The zoomed panel scrolls. The log counts back from its latest line.
    pub open spec fn panel_scrolled(self, down: bool, step: u16) -> AppView {
        if self.panels.focused is SshLog {
            AppView {
                ssh_log_scroll: if down {
                    minus(self.ssh_log_scroll as int, step as int) as usize
                } else {
                    plus(self.ssh_log_scroll as int, step as int, usize::MAX as int) as usize
                },
                ..self
            }
        } else {
            self.with_panels(
                PanelsView {
                    scroll: if down {
                        plus(self.panels.scroll as int, step as int, u16::MAX as int) as u16
                    } else {
                        minus(self.panels.scroll as int, step as int) as u16
                    },
                    ..self.panels
                },
            )
        }
    }

    pub open spec fn zoomed_host_connected(self) -> AppView {
        if self.panels.scroll < self.panels.zoomed_hosts.len() {
            self.doing(
                Task::ConnectHostAt(self.panels.zoomed_hosts[self.panels.scroll as int]),
            )
        } else {
            self
        }
    }

    pub open spec fn next_audit_filter(self) -> AppView {
        (AppView { audit_filter: self.audit_filter.next_spec(), ..self }).doing(
            Task::RefreshAuditEvents,
        )
    }

    pub open spec fn next_audit_range(self) -> AppView {
        (AppView { audit_range: self.audit_range.next_spec(), ..self }).doing(
            Task::RefreshAuditEvents,
        )
    }

    pub open spec fn unzoomed(self) -> AppView {
        self.with_panels(PanelsView { zoomed: false, ..self.panels.rewound() })
    }

    pub open spec fn filters_cleared(self) -> AppView {
        (AppView {
            tag_filters: Seq::empty(),
            search_query: Seq::empty(),
            ..self
        }).doing(Task::RebuildFilter)
    }

    pub open spec fn zoom_stepped(self, more: bool) -> AppView {
        self.zoomed_to(
            if more {
                plus(self.ui_zoom as int, 1, UI_ZOOM_MAX as int) as nat
            } else {
                minus(self.ui_zoom as int, 1) as nat
            },
        )
    }

    /// A zoomed panel keeps the focus.
    pub open spec fn panel_sought(self, dir: FocusDir) -> AppView {
        if self.panels.zoomed {
            self
        } else {
            self.doing(Task::FindPanel(dir))
        }
    }

    /// The neighbour of the focused panel takes the focus, if there is one that
    /// is shown.
    pub open spec fn panel_focused(self, next: Option<PanelId>) -> AppView {
        match next {
            Some(panel) => if panel is Broadcast && self.broadcast is None {
                self
            } else {
                self.with_panels(PanelsView { focused: panel, ..self.panels.rewound() })
            },
            None => self,
        }
    }

    /// The palette opens on all hosts.
    pub open spec fn palette_opened(self) -> AppView {
        (AppView {
            palette: PaletteView {
                query: Seq::empty(),
                selected: 0,
                results: first_positions(self.hosts.len()),
                adhoc: self.palette.adhoc,
            },
            mode: AppMode::Palette,
            ..self
        }).doing(Task::CheckAdhoc)
    }

    pub open spec fn log_cleared(self) -> AppView {
        (AppView { ssh_log: Seq::empty(), ssh_log_scroll: 0, ..self }).doing(
            Task::StopProbe,
        ).notifying("SSH log cleared."@)
    }

    pub open spec fn hosts_key_done(self, what: HostsKey) -> AppView {
        match what {
            HostsKey::StopBroadcast => self.broadcast_stopped(),
            HostsKey::Quit => self.quit_requested(),
            HostsKey::MoveByGroup(delta) => self.selection_moved_by_group(delta as int),
            HostsKey::Scroll { down, step } => self.panel_scrolled(down, step),
            HostsKey::ConnectZoomed => self.zoomed_host_connected(),
            HostsKey::NextAuditFilter => self.next_audit_filter(),
            HostsKey::NextAuditRange => self.next_audit_range(),
            HostsKey::RemoveAgentKey => self.doing(
                Task::ListAgentKey(self.panels.scroll as usize),
            ),
            HostsKey::Move(delta) => self.selection_moved(delta as int),
            HostsKey::Unzoom => self.unzoomed(),
            HostsKey::ClearFilters => self.filters_cleared(),
            HostsKey::Fold { collapsed } => self.group_folded(collapsed),
            HostsKey::FoldAll => self.all_groups_toggled(),
            HostsKey::Zoom { more } => self.zoom_stepped(more),
            HostsKey::ToggleZoom => self.with_panels(self.panels.zoom_toggled(self.animates())),
            HostsKey::FocusPanel(dir) => self.panel_sought(dir),
            HostsKey::ToggleDetailFocus => AppView { detail_focus: !self.detail_focus, ..self },
            HostsKey::OpenPalette => self.palette_opened(),
            HostsKey::Help => self.help_opened(),
            HostsKey::ClearLog => self.log_cleared(),
            HostsKey::PushKey => self.push_from_hosts(),
            HostsKey::Delegate(task) => self.doing(task),
            HostsKey::Nothing => self,
        }
    }

    /// What a key does on the hosts tab. The last notice goes.
    #[verifier::opaque]
    pub open spec fn normal_key(self, key: KeyEvent) -> AppView {
        let quiet = AppView { host_notice: None, ..self };
        match quiet.tab_switched(key) {
            Some(there) => there,
            None => quiet.hosts_key_done(quiet.hosts_key(key)),
        }
    }

    /// The key that the agent panel shows in the selected row. It can only be
    /// removed by its path, which its comment mostly is.
    pub open spec fn agent_key_shown(self, comment: Option<Seq<char>>) -> AppView {
        match comment {
            Some(comment) => if comment.len() == 0 {
                self.notifying("can't remove: agent key has no file path"@)
            } else {
                self.asking(EffectView::RemoveAgentKey(comment))
            },
            None => self,
        }
    }

    pub open spec fn agent_key_gone(self, comment: Seq<char>, removed: bool) -> AppView {
        self.notifying(
            if removed {
                "removed "@ + comment + " from agent"@
            } else {
                "couldn't remove "@ + comment + " (ssh-add needs the key file path)"@
            },
        )
    }

    pub open spec fn exported(self, outcome: Result<(Seq<char>, usize), Seq<char>>) -> AppView {
        match outcome {
            Ok((path, count)) => self.notifying(
                "Exported "@ + decimal(count as nat) + " host(s) to "@ + path,
            ),
            Err(e) => self.notifying("Export failed: "@ + e),
        }
    }

    pub open spec fn imported(self, outcome: Result<ImportReport, Seq<char>>) -> AppView {
        match outcome {
            Ok(report) => self.notifying(report.message()),
            Err(e) => self.notifying("Import failed: "@ + e),
        }
    }
}

/// While a panel other than the host list fills the screen, no movement key
/// moves the hidden selection.
pub proof fn zoomed_panel_shields_the_selection(app: AppView, key: KeyEvent)
    requires
        app.panels.zoomed_aside(),
        app.hits(KeyAction::MoveDown, key) || app.hits(KeyAction::MoveUp, key),
        !app.hits(KeyAction::MoveGroupUp, key),
        !app.hits(KeyAction::MoveGroupDown, key),
    ensures
        !(app.hosts_key(key) is Move),
        !(app.hosts_key(key) is MoveByGroup),
{
}

impl Panels {
    fn is_zoomed_aside(&self) -> (r: bool)
        ensures
            r == self@.zoomed_aside(),
    {
        self.zoomed && self.focused != PanelId::Hosts
    }

    fn is_zoomed_on(&self, panel: PanelId) -> (r: bool)
        ensures
            r == self@.zoomed_on(panel),
    {
        self.zoomed && self.focused == panel
    }

    fn rewind(&mut self)
        ensures
            final(self)@ == old(self)@.rewound(),
    {
        self.scroll = 0;
        self.selecting = false;
    }

    fn focus(&mut self, panel: PanelId)
        ensures
            final(self)@ == (PanelsView { focused: panel, ..old(self)@.rewound() }),
    {
        self.rewind();
        self.focused = panel;
    }

    fn toggle_zoom(&mut self, moves: bool)
        ensures
            final(self)@ == old(self)@.zoom_toggled(moves),
    {
        let to_zoomed = !self.zoomed;
        self.zoomed = to_zoomed;
        self.rewind();
        self.zoom_anim = if moves && self.focused != PanelId::Broadcast {
            Some(
                if to_zoomed {
                    ZoomAnim::In
                } else {
                    ZoomAnim::Out
                },
            )
        } else {
            None
        };
    }
}

impl ImportReport {
    fn text(self) -> (r: String)
        ensures
            r@ == self.message(),
    {
        let inserted = to_decimal(self.inserted as u64);
        let updated = to_decimal(self.updated as u64);
        let skipped = to_decimal(self.skipped_launcher as u64);
        let head = cat5("Imported ", inserted.as_str(), " new, ", updated.as_str(), " updated, ");
        let done = cat3(head.as_str(), skipped.as_str(), " skipped");
        if self.failed > 0 {
            let failed = to_decimal(self.failed as u64);
            cat4(done.as_str(), ", ", failed.as_str(), " failed")
        } else {
            done
        }
    }
}

impl App {
    fn find_hosts_key(&self, key: &KeyEvent) -> (r: HostsKey)
        ensures
            r == self@.hosts_key(*key),
    {
        let aside = self.panels.is_zoomed_aside();
        let left_over = self.broadcast.is_some() || self.broadcast_toasts > 0;
        if self.is_action(KeyAction::BroadcastCancel, key) && left_over {
            return HostsKey::StopBroadcast;
        }
        if self.is_action(KeyAction::Broadcast, key) {
            return HostsKey::Delegate(Task::OpenBroadcast);
        }
        if self.is_action(KeyAction::Quit, key) {
            return HostsKey::Quit;
        }
        if self.is_action(KeyAction::MoveHostUp, key) {
            return HostsKey::Delegate(Task::MoveHostManual(-1));
        }
        if self.is_action(KeyAction::MoveHostDown, key) {
            return HostsKey::Delegate(Task::MoveHostManual(1));
        }
        if self.is_action(KeyAction::MoveGroupUp, key) {
            return HostsKey::MoveByGroup(-1);
        }
        if self.is_action(KeyAction::MoveGroupDown, key) {
            return HostsKey::MoveByGroup(1);
        }
        if aside && key.code == KeyCode::PageDown {
            return HostsKey::Scroll { down: true, step: 10 };
        }
        if aside && self.is_action(KeyAction::MoveDown, key) {
            return HostsKey::Scroll { down: true, step: 1 };
        }
        if aside && key.code == KeyCode::PageUp {
            return HostsKey::Scroll { down: false, step: 10 };
        }
        if aside && self.is_action(KeyAction::MoveUp, key) {
            return HostsKey::Scroll { down: false, step: 1 };
        }
        if (self.panels.is_zoomed_on(PanelId::Ping) || self.panels.is_zoomed_on(PanelId::Recent))
            && self.is_action(KeyAction::Connect, key) {
            return HostsKey::ConnectZoomed;
        }
        let auth = self.panels.is_zoomed_on(PanelId::Auth);
        if auth && self.is_action(KeyAction::AuditFilter, key) {
            return HostsKey::NextAuditFilter;
        }
        if auth && self.is_action(KeyAction::AuditRange, key) {
            return HostsKey::NextAuditRange;
        }
        if self.panels.is_zoomed_on(PanelId::Agent) && self.is_action(KeyAction::Delete, key) {
            return HostsKey::RemoveAgentKey;
        }
        if self.is_action(KeyAction::MoveDown, key) {
            return HostsKey::Move(1);
        }
        if self.is_action(KeyAction::MoveUp, key) {
            return HostsKey::Move(-1);
        }
        let cancel = self.is_action(KeyAction::Cancel, key);
        if cancel && self.panels.zoomed {
            return HostsKey::Unzoom;
        }
        if cancel && self.tag_filters.len() > 0 {
            return HostsKey::ClearFilters;
        }
        self.find_hosts_list_key(key)
    }

    fn find_hosts_list_key(&self, key: &KeyEvent) -> (r: HostsKey)
        ensures
            r == self@.hosts_list_key(*key),
    {
        let on_header = self.selected_nav_header().is_some();
        if self.is_action(KeyAction::ToggleGroup, key) {
            HostsKey::Delegate(Task::ToggleSelectedGroup)
        } else if self.is_action(KeyAction::FoldGroupIn, key) {
            HostsKey::Fold { collapsed: false }
        } else if self.is_action(KeyAction::FoldGroupOut, key) {
            HostsKey::Fold { collapsed: true }
        } else if self.is_action(KeyAction::CollapseAll, key) {
            HostsKey::FoldAll
        } else if self.is_action(KeyAction::Connect, key) {
            HostsKey::Delegate(
                if on_header {
                    Task::ToggleSelectedGroup
                } else {
                    Task::ConnectSelected
                },
            )
        } else if self.is_action(KeyAction::AddHost, key) {
            HostsKey::Delegate(Task::EnterHostForm)
        } else if self.is_action(KeyAction::Delete, key) {
            HostsKey::Delegate(Task::DeleteSelectedHost)
        } else if self.is_action(KeyAction::Duplicate, key) {
            HostsKey::Delegate(Task::DuplicateSelectedHost)
        } else if self.is_action(KeyAction::ExportSsh, key) {
            HostsKey::Delegate(Task::ExportSshConfig)
        } else if self.is_action(KeyAction::ImportSsh, key) {
            HostsKey::Delegate(Task::ImportSshConfig)
        } else if self.is_action(KeyAction::ImportTermius, key) {
            HostsKey::Delegate(Task::OpenImportPrompt)
        } else if self.is_action(KeyAction::Edit, key) {
            HostsKey::Delegate(
                if on_header {
                    Task::RenameSelectedGroup
                } else {
                    Task::EditSelectedHost
                },
            )
        } else if self.is_action(KeyAction::UiZoomIn, key) {
            HostsKey::Zoom { more: true }
        } else if self.is_action(KeyAction::UiZoomOut, key) {
            HostsKey::Zoom { more: false }
        } else {
            self.find_hosts_view_key(key)
        }
    }

    fn find_hosts_view_key(&self, key: &KeyEvent) -> (r: HostsKey)
        ensures
            r == self@.hosts_view_key(*key),
    {
        if self.is_action(KeyAction::TogglePanelZoom, key) {
            HostsKey::ToggleZoom
        } else if self.is_action(KeyAction::FocusPanelLeft, key) {
            HostsKey::FocusPanel(FocusDir::Left)
        } else if self.is_action(KeyAction::FocusPanelRight, key) {
            HostsKey::FocusPanel(FocusDir::Right)
        } else if self.is_action(KeyAction::FocusPanelUp, key) {
            HostsKey::FocusPanel(FocusDir::Up)
        } else if self.is_action(KeyAction::FocusPanelDown, key) {
            HostsKey::FocusPanel(FocusDir::Down)
        } else if self.is_action(KeyAction::Favorite, key) {
            HostsKey::Delegate(Task::ToggleFavorite)
        } else if self.is_action(KeyAction::DetailFocus, key) {
            HostsKey::ToggleDetailFocus
        } else if self.is_action(KeyAction::Search, key) {
            HostsKey::OpenPalette
        } else if self.is_action(KeyAction::Help, key) {
            HostsKey::Help
        } else if self.is_action(KeyAction::TagFilter, key) {
            HostsKey::Delegate(Task::OpenTagFilter)
        } else if self.is_action(KeyAction::ClearSshLog, key) {
            HostsKey::ClearLog
        } else if self.is_action(KeyAction::SortCycle, key) {
            HostsKey::Delegate(Task::CycleSortMode)
        } else if self.is_action(KeyAction::YankLog, key) {
            HostsKey::Delegate(Task::YankSshLog)
        } else if self.is_action(KeyAction::DeleteGroup, key) {
            HostsKey::Delegate(Task::DeleteSelectedGroup)
        } else if self.is_action(KeyAction::GroupsManage, key) {
            HostsKey::Delegate(Task::EnterGroupManage)
        } else if self.is_action(KeyAction::RenameGroup, key) {
            HostsKey::Delegate(Task::RenameSelectedGroup)
        } else if self.is_action(KeyAction::PushKey, key) {
            HostsKey::PushKey
        } else {
            HostsKey::Nothing
        }
    }

    fn stop_broadcast(&mut self)
        ensures
            final(self)@ == old(self)@.broadcast_stopped(),
    {
        let runs = match self.broadcast {
            Some(runs) => runs,
            None => false,
        };
        if runs {
            self.perform(Task::CancelBroadcast);
        } else {
            self.broadcast_toasts = 0;
        }
    }

    /// Scroll the focused zoomed panel by `step` rows. `down` moves toward the
    /// end of a list, or the latest line of the log.
    pub fn scroll_zoomed(&mut self, down: bool, step: u16)
        ensures
            final(self)@ == old(self)@.panel_scrolled(down, step),
    {
        if self.panels.focused == PanelId::SshLog {
            let at: usize = self.ssh_log_scroll;
            let by: usize = step as usize;
            self.ssh_log_scroll = if down {
                if at >= by {
                    at - by
                } else {
                    0
                }
            } else if at <= usize::MAX - by {
                at + by
            } else {
                usize::MAX
            };
        } else {
            let at: u16 = self.panels.scroll;
            self.panels.scroll = if !down {
                if at >= step {
                    at - step
                } else {
                    0
                }
            } else if at <= u16::MAX - step {
                at + step
            } else {
                u16::MAX
            };
        }
    }

    /// Connect to the host selected in a zoomed ping or recent panel.
    fn connect_zoomed_host(&mut self)
        ensures
            final(self)@ == old(self)@.zoomed_host_connected(),
    {
        let row: usize = self.panels.scroll as usize;
        if row < self.panels.zoomed_hosts.len() {
            let host: usize = self.panels.zoomed_hosts[row];
            self.perform(Task::ConnectHostAt(host));
        }
    }

    fn cycle_audit_filter(&mut self)
        ensures
            final(self)@ == old(self)@.next_audit_filter(),
    {
        self.audit_filter = self.audit_filter.next();
        self.perform(Task::RefreshAuditEvents);
    }

    fn cycle_audit_range(&mut self)
        ensures
            final(self)@ == old(self)@.next_audit_range(),
    {
        self.audit_range = self.audit_range.next();
        self.perform(Task::RefreshAuditEvents);
    }

    fn unzoom(&mut self)
        ensures
            final(self)@ == old(self)@.unzoomed(),
    {
        self.panels.rewind();
        self.panels.zoomed = false;
    }

    fn clear_filters(&mut self)
        ensures
            final(self)@ == old(self)@.filters_cleared(),
    {
        self.tag_filters = Vec::new();
        self.search_query = String::new();
        assert(self@.search_query =~= Seq::empty());
        self.perform(Task::RebuildFilter);
    }

    fn step_zoom(&mut self, more: bool)
        ensures
            final(self)@ == old(self)@.zoom_stepped(more),
    {
        let level: usize = if more {
            if self.ui_zoom < UI_ZOOM_MAX {
                self.ui_zoom + 1
            } else {
                UI_ZOOM_MAX
            }
        } else if self.ui_zoom >= 1 {
            self.ui_zoom - 1
        } else {
            0
        };
        self.set_ui_zoom(level);
    }

    /// Move dashboard panel focus one step. A zoomed panel is exclusive.
    fn focus_panel(&mut self, dir: FocusDir)
        ensures
            final(self)@ == old(self)@.panel_sought(dir),
    {
        if !self.panels.zoomed {
            self.perform(Task::FindPanel(dir));
        }
    }

    /// The neighbour of the focused panel, if there is one.
    pub fn panel_found(&mut self, next: Option<PanelId>)
        ensures
            final(self)@ == old(self)@.panel_focused(next),
    {
        if let Some(panel) = next {
            if panel == PanelId::Broadcast && self.broadcast.is_none() {
                return;
            }
            self.panels.focus(panel);
        }
    }

    fn open_palette(&mut self)
        ensures
            final(self)@ == old(self)@.palette_opened(),
    {
        let results = positions(self.hosts.len());
        self.palette.reset(results);
        self.mode = AppMode::Palette;
        self.perform(Task::CheckAdhoc);
    }

    fn clear_log(&mut self)
        ensures
            final(self)@ == old(self)@.log_cleared(),
    {
        self.ssh_log = Vec::new();
        self.ssh_log_scroll = 0;
        self.perform(Task::StopProbe);
        self.notify("SSH log cleared.".to_owned());
    }

    fn toggle_panel_zoom(&mut self)
        ensures
            final(self)@ == old(self)@.with_panels(
                old(self)@.panels.zoom_toggled(old(self)@.animates()),
            ),
    {
        let moves = self.motion_enabled();
        self.panels.toggle_zoom(moves);
    }

    fn toggle_detail_focus(&mut self)
        ensures
            final(self)@ == (AppView { detail_focus: !old(self)@.detail_focus, ..old(self)@ }),
    {
        self.detail_focus = !self.detail_focus;
    }

    fn do_hosts_key(&mut self, what: HostsKey)
        ensures
            final(self)@ == old(self)@.hosts_key_done(what),
    {
        match what {
            HostsKey::StopBroadcast => self.stop_broadcast(),
            HostsKey::Quit => self.request_quit(),
            HostsKey::MoveByGroup(delta) => self.move_selection_by_group(delta),
            HostsKey::Scroll { down, step } => self.scroll_zoomed(down, step),
            HostsKey::ConnectZoomed => self.connect_zoomed_host(),
            HostsKey::NextAuditFilter => self.cycle_audit_filter(),
            HostsKey::NextAuditRange => self.cycle_audit_range(),
            HostsKey::RemoveAgentKey => {
                let row: usize = self.panels.scroll as usize;
                self.perform(Task::ListAgentKey(row));
            },
            HostsKey::Move(delta) => self.move_selection(delta),
            HostsKey::Unzoom => self.unzoom(),
            HostsKey::ClearFilters => self.clear_filters(),
            HostsKey::Fold { collapsed } => self.fold_group(collapsed),
            HostsKey::FoldAll => self.toggle_all_groups(),
            HostsKey::Zoom { more } => self.step_zoom(more),
            HostsKey::ToggleZoom => self.toggle_panel_zoom(),
            HostsKey::FocusPanel(dir) => self.focus_panel(dir),
            HostsKey::ToggleDetailFocus => self.toggle_detail_focus(),
            HostsKey::OpenPalette => self.open_palette(),
            HostsKey::Help => self.open_help(),
            HostsKey::ClearLog => self.clear_log(),
            HostsKey::PushKey => self.trigger_push_key_from_hosts(),
            HostsKey::Delegate(task) => self.perform(task),
            HostsKey::Nothing => {},
        }
    }

    fn drop_notice(&mut self)
        ensures
            final(self)@ == (AppView { host_notice: None, ..old(self)@ }),
    {
        self.host_notice = None;
    }

    /// Keys of the hosts tab.
    pub fn handle_key_normal(&mut self, key: KeyEvent)
        ensures
            final(self)@ == old(self)@.normal_key(key),
    {
        reveal(AppView::normal_key);

        self.drop_notice();
        if self.try_tab_switch(&key) {
            return;
        }
        let what = self.find_hosts_key(&key);
        self.do_hosts_key(what);
    }

    /// The comment of the agent key to be removed, if there is such a key.
    pub fn agent_key_listed(&mut self, comment: Option<String>)
        ensures
            final(self)@ == old(self)@.agent_key_shown(opt_view(comment)),
    {
        if let Some(comment) = comment {
            if len(comment.as_str()) == 0 {
                self.notify("can't remove: agent key has no file path".to_owned());
            } else {
                self.ask(Effect::RemoveAgentKey(comment));
            }
        }
    }

    /// An agent key was removed, or could not be.
    pub fn agent_key_removed(&mut self, comment: String, removed: bool)
        ensures
            final(self)@ == old(self)@.agent_key_gone(comment@, removed),
    {
        let text = if removed {
            cat3("removed ", comment.as_str(), " from agent")
        } else {
            cat3("couldn't remove ", comment.as_str(), " (ssh-add needs the key file path)")
        };
        self.notify(text);
    }

    /// The hosts were exported to a file, or could not be.
    pub fn export_finished(&mut self, outcome: Result<(String, usize), String>)
        ensures
            final(self)@ == old(self)@.exported(
                match outcome {
                    Ok((path, count)) => Ok((path@, count)),
                    Err(e) => Err(e@),
                },
            ),
    {
        match outcome {
            Ok((path, count)) => {
                let number = to_decimal(count as u64);
                self.notify(
                    cat4("Exported ", number.as_str(), " host(s) to ", path.as_str()),
                );
            },
            Err(e) => self.notify(cat2("Export failed: ", e.as_str())),
        }
    }

    /// The hosts of the SSH configuration were imported, or could not be.
    pub fn import_finished(&mut self, outcome: Result<ImportReport, String>)
        ensures
            final(self)@ == old(self)@.imported(
                match outcome {
                    Ok(report) => Ok(report),
                    Err(e) => Err(e@),
                },
            ),
    {
        match outcome {
            Ok(report) => self.notify(report.text()),
            Err(e) => self.notify(cat2("Import failed: ", e.as_str())),
        }
    }
}

impl Palette {
    fn reset(&mut self, results: Vec<usize>)
        ensures
            final(self)@ == (PaletteView {
                query: Seq::empty(),
                selected: 0,
                results: results@,
                ..old(self)@
            }),
    {
        self.query = String::new();
        self.selected = 0;
        self.results = results;
        assert(self@.query =~= Seq::empty());
    }
}

} // verus!
