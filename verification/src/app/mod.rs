//! The application: what it shows, what a key does, what happens next.

pub mod browser_laws;
pub mod connect;
pub mod connect_laws;
pub mod dashboard;
pub mod editor_command;
pub mod editor_laws;
pub mod effects;
pub mod event_laws;
pub mod group_tree;
pub mod host_list;
pub mod key_laws;
pub mod keys;
pub mod known_hosts;
pub mod laws;
pub mod list_laws;
pub mod motion;
pub mod motion_laws;
pub mod nav;
pub mod overlay_laws;
pub mod push_key;
pub mod push_laws;
pub mod record_laws;
pub mod remote_edit;
pub mod screen_laws;
pub mod session_laws;
pub mod settings;
pub mod settings_laws;
pub mod sftp;
pub mod sftp_events;
pub mod sftp_keys;
pub mod sftp_prompt;
pub mod sftp_session;
pub mod startup;
pub mod state;
pub mod util;

use vstd::prelude::*;

use crate::app::effects::{Effect, EffectView, Task};
use crate::app::group_tree::{HostGroupSection, SectionView};
use crate::app::host_list::SortMode;
use crate::app::state::{
    AppConfig, AppMode, AuditFilter, AuditRange, ConfigView, DetailField, EditView, EditorView,
    Help, HelpView, HostPickerView, KeybindEditor, KnownHostsState, KnownHostsView, LinkView,
    LogView, NavRow, OpenForms, Palette, PaletteView, Panels, PanelsView, PendingDelete,
    PendingView, PromptView, PushKeyHostPicker, RelayView, RemoteEditState, SessionInfo,
    SessionView, SftpAnim, SftpPromptEdit, SftpRelay, SshLogEntry, TabSwitch, WorkerLink,
};
use crate::hosts::{HostEntry, HostGroup, Identity};
use crate::keybinds::{triggers, KeyAction, KeyEvent};
use crate::sftp::browser::{SftpState, SftpView};
use crate::text::{group_views, opt_view, views};

verus! {

broadcast use crate::text::group_views;

/// Base host-name column width (chars) at zoom level 0.
pub const NAME_WIDTH_BASE: usize = 14;

/// Extra name-column width added per zoom level.
pub const NAME_WIDTH_STEP: usize = 8;

/// Maximum UI zoom level.
pub const UI_ZOOM_MAX: usize = 3;

/// The clocks of the animations. Times are milliseconds of one clock.
#[derive(Debug, PartialEq, Eq)]
pub struct Motion {
    /// The present.
    pub clock: u64,
    pub prev_tab: usize,
    pub tab_switch: Option<TabSwitch>,
    pub mode_entered_at: u64,
    pub prev_mode: AppMode,
    pub popup_closing_at: Option<u64>,
    pub session_exit_at: Option<u64>,
    pub session_tab_switch: Option<u64>,
    pub prev_audit: (AuditFilter, AuditRange),
    pub audit_filter_at: Option<u64>,
    pub prev_local_cwd: String,
    pub prev_remote_cwd: String,
    pub local_nav: Option<(bool, u64)>,
    pub remote_nav: Option<(bool, u64)>,
    pub prev_queue: usize,
    pub sftp_queue_at: Option<u64>,
    pub fold_at: Option<u64>,
    pub prev_selected: usize,
    pub selection_at: Option<u64>,
    pub prev_notice: Option<String>,
    pub host_notice_at: Option<u64>,
    pub sftp_anim: Option<(SftpAnim, u64)>,
}

#[verifier::ext_equal]
pub struct MotionView {
    pub clock: u64,
    pub prev_tab: usize,
    pub tab_switch: Option<TabSwitch>,
    pub mode_entered_at: u64,
    pub prev_mode: AppMode,
    pub popup_closing_at: Option<u64>,
    pub session_exit_at: Option<u64>,
    pub session_tab_switch: Option<u64>,
    pub prev_audit: (AuditFilter, AuditRange),
    pub audit_filter_at: Option<u64>,
    pub prev_local_cwd: Seq<char>,
    pub prev_remote_cwd: Seq<char>,
    pub local_nav: Option<(bool, u64)>,
    pub remote_nav: Option<(bool, u64)>,
    pub prev_queue: usize,
    pub sftp_queue_at: Option<u64>,
    pub fold_at: Option<u64>,
    pub prev_selected: usize,
    pub selection_at: Option<u64>,
    pub prev_notice: Option<Seq<char>>,
    pub host_notice_at: Option<u64>,
    pub sftp_anim: Option<(SftpAnim, u64)>,
}

impl View for Motion {
    type V = MotionView;

    open spec fn view(&self) -> MotionView {
        MotionView {
            clock: self.clock,
            prev_tab: self.prev_tab,
            tab_switch: self.tab_switch,
            mode_entered_at: self.mode_entered_at,
            prev_mode: self.prev_mode,
            popup_closing_at: self.popup_closing_at,
            session_exit_at: self.session_exit_at,
            session_tab_switch: self.session_tab_switch,
            prev_audit: self.prev_audit,
            audit_filter_at: self.audit_filter_at,
            prev_local_cwd: self.prev_local_cwd@,
            prev_remote_cwd: self.prev_remote_cwd@,
            local_nav: self.local_nav,
            remote_nav: self.remote_nav,
            prev_queue: self.prev_queue,
            sftp_queue_at: self.sftp_queue_at,
            fold_at: self.fold_at,
            prev_selected: self.prev_selected,
            selection_at: self.selection_at,
            prev_notice: opt_view(self.prev_notice),
            host_notice_at: self.host_notice_at,
            sftp_anim: self.sftp_anim,
        }
    }
}

/// Application state.
#[derive(Debug, PartialEq, Eq)]
pub struct App {
    pub hosts: Vec<HostEntry>,
    pub identities: Vec<Identity>,
    pub identity_selected: usize,
    pub groups: Vec<HostGroup>,
    /// The reserved Favorites group, kept apart from the user's own groups.
    pub favorites_group: Option<HostGroup>,
    pub group_sections: Vec<HostGroupSection>,
    /// Selectable rows: group headers, and hosts of expanded groups.
    pub nav_rows: Vec<NavRow>,
    pub selected: usize,
    pub sort_mode: SortMode,
    pub search_query: String,
    pub tag_filters: Vec<String>,
    pub mode: AppMode,
    pub config: AppConfig,
    pub should_quit: bool,
    /// Mode to return to if the quit dialog is cancelled.
    pub pre_quit_mode: Option<AppMode>,
    pub active_tab: usize,
    pub detail_focus: bool,
    pub detail_edit: Option<DetailField>,
    pub forms: OpenForms,
    pub ui_zoom: usize,
    pub panels: Panels,
    pub palette: Palette,
    pub help: Help,
    pub keybind_editor: Option<KeybindEditor>,
    pub settings_selected: usize,
    pub theme_rows: usize,
    pub theme_page: usize,
    pub known_hosts: Option<KnownHostsState>,
    pub audit_filter: AuditFilter,
    pub audit_range: AuditRange,
    pub audit_selected: usize,
    pub audit_count: usize,
    /// When the audit events were last loaded. `None` makes the next refresh
    /// load them.
    pub auth_cache_updated: Option<u64>,
    /// A broadcast run is shown; whether it still runs.
    pub broadcast: Option<bool>,
    pub broadcast_toasts: usize,
    pub ssh_log: Vec<SshLogEntry>,
    pub ssh_log_scroll: usize,
    pub host_notice: Option<String>,
    pub identity_notice: Option<String>,
    pub group_notice: Option<String>,
    pub tunnel_notice: Option<String>,
    /// Message shown by the modal notice popup.
    pub notice_popup: Option<String>,
    pub pending_delete: Option<PendingDelete>,
    pub push_key_host_picker: Option<PushKeyHostPicker>,
    pub push_key_identity_picker: Option<usize>,
    pub sessions: Vec<SessionInfo>,
    pub active_session: Option<usize>,
    pub terminal_rows: u16,
    pub terminal_cols: u16,
    pub sftp: Option<SftpState>,
    /// The worker of the right pane.
    pub sftp_tx: Option<WorkerLink>,
    /// The worker of a left pane that shows a second server.
    pub sftp_tx2: Option<WorkerLink>,
    /// The host that the browser is connected to.
    pub sftp_host: Option<String>,
    pub remote_edit: Option<RemoteEditState>,
    pub sftp_relay: Option<SftpRelay>,
    /// `QueueDone` events still to be ignored: a worker ends its run with one
    /// even after an error that was already acted on.
    pub sftp_swallow_done: usize,
    /// Whether the run in flight has reported an error.
    pub sftp_run_failed: bool,
    pub sftp_picker_searching: bool,
    pub sftp_show_hidden: bool,
    pub sftp_prompt: Option<SftpPromptEdit>,
    pub motion: Motion,
    /// What is asked of the outside, oldest first.
    pub effects: Vec<Effect>,
}

pub struct AppView {
    pub hosts: Seq<HostEntry>,
    pub identities: Seq<Identity>,
    pub identity_selected: usize,
    pub groups: Seq<HostGroup>,
    pub favorites_group: Option<HostGroup>,
    pub group_sections: Seq<SectionView>,
    pub nav_rows: Seq<NavRow>,
    pub selected: usize,
    pub sort_mode: SortMode,
    pub search_query: Seq<char>,
    pub tag_filters: Seq<Seq<char>>,
    pub mode: AppMode,
    pub config: ConfigView,
    pub should_quit: bool,
    pub pre_quit_mode: Option<AppMode>,
    pub active_tab: usize,
    pub detail_focus: bool,
    pub detail_edit: Option<DetailField>,
    pub forms: OpenForms,
    pub ui_zoom: usize,
    pub panels: PanelsView,
    pub palette: PaletteView,
    pub help: HelpView,
    pub keybind_editor: Option<EditorView>,
    pub settings_selected: usize,
    pub theme_rows: usize,
    pub theme_page: usize,
    pub known_hosts: Option<KnownHostsView>,
    pub audit_filter: AuditFilter,
    pub audit_range: AuditRange,
    pub audit_selected: usize,
    pub audit_count: usize,
    pub auth_cache_updated: Option<u64>,
    pub broadcast: Option<bool>,
    pub broadcast_toasts: usize,
    pub ssh_log: Seq<LogView>,
    pub ssh_log_scroll: usize,
    pub host_notice: Option<Seq<char>>,
    pub identity_notice: Option<Seq<char>>,
    pub group_notice: Option<Seq<char>>,
    pub tunnel_notice: Option<Seq<char>>,
    pub notice_popup: Option<Seq<char>>,
    pub pending_delete: Option<PendingView>,
    pub push_key_host_picker: Option<HostPickerView>,
    pub push_key_identity_picker: Option<usize>,
    pub sessions: Seq<SessionView>,
    pub active_session: Option<usize>,
    pub terminal_rows: u16,
    pub terminal_cols: u16,
    pub sftp: Option<SftpView>,
    pub sftp_tx: Option<LinkView>,
    pub sftp_tx2: Option<LinkView>,
    pub sftp_host: Option<Seq<char>>,
    pub remote_edit: Option<EditView>,
    pub sftp_relay: Option<RelayView>,
    pub sftp_swallow_done: usize,
    pub sftp_run_failed: bool,
    pub sftp_picker_searching: bool,
    pub sftp_show_hidden: bool,
    pub sftp_prompt: Option<PromptView>,
    pub motion: MotionView,
    pub effects: Seq<EffectView>,
}

impl View for App {
    type V = AppView;

    open spec fn view(&self) -> AppView {
        AppView {
            hosts: self.hosts@,
            identities: self.identities@,
            identity_selected: self.identity_selected,
            groups: self.groups@,
            favorites_group: self.favorites_group,
            group_sections: views(self.group_sections@),
            nav_rows: self.nav_rows@,
            selected: self.selected,
            sort_mode: self.sort_mode,
            search_query: self.search_query@,
            tag_filters: views(self.tag_filters@),
            mode: self.mode,
            config: self.config@,
            should_quit: self.should_quit,
            pre_quit_mode: self.pre_quit_mode,
            active_tab: self.active_tab,
            detail_focus: self.detail_focus,
            detail_edit: self.detail_edit,
            forms: self.forms,
            ui_zoom: self.ui_zoom,
            panels: self.panels@,
            palette: self.palette@,
            help: self.help@,
            keybind_editor: opt_view(self.keybind_editor),
            settings_selected: self.settings_selected,
            theme_rows: self.theme_rows,
            theme_page: self.theme_page,
            known_hosts: opt_view(self.known_hosts),
            audit_filter: self.audit_filter,
            audit_range: self.audit_range,
            audit_selected: self.audit_selected,
            audit_count: self.audit_count,
            auth_cache_updated: self.auth_cache_updated,
            broadcast: self.broadcast,
            broadcast_toasts: self.broadcast_toasts,
            ssh_log: views(self.ssh_log@),
            ssh_log_scroll: self.ssh_log_scroll,
            host_notice: opt_view(self.host_notice),
            identity_notice: opt_view(self.identity_notice),
            group_notice: opt_view(self.group_notice),
            tunnel_notice: opt_view(self.tunnel_notice),
            notice_popup: opt_view(self.notice_popup),
            pending_delete: opt_view(self.pending_delete),
            push_key_host_picker: opt_view(self.push_key_host_picker),
            push_key_identity_picker: self.push_key_identity_picker,
            sessions: views(self.sessions@),
            active_session: self.active_session,
            terminal_rows: self.terminal_rows,
            terminal_cols: self.terminal_cols,
            sftp: opt_view(self.sftp),
            sftp_tx: opt_view(self.sftp_tx),
            sftp_tx2: opt_view(self.sftp_tx2),
            sftp_host: opt_view(self.sftp_host),
            remote_edit: opt_view(self.remote_edit),
            sftp_relay: opt_view(self.sftp_relay),
            sftp_swallow_done: self.sftp_swallow_done,
            sftp_run_failed: self.sftp_run_failed,
            sftp_picker_searching: self.sftp_picker_searching,
            sftp_show_hidden: self.sftp_show_hidden,
            sftp_prompt: opt_view(self.sftp_prompt),
            motion: self.motion@,
            effects: views(self.effects@),
        }
    }
}

impl AppView {
    /// Whether a key press triggers an action.
    pub open spec fn hits(self, action: KeyAction, key: KeyEvent) -> bool {
        triggers(self.config.keybinds, action, key)
    }

    /// One more effect is asked for.
    pub open spec fn asking(self, effect: EffectView) -> AppView {
        AppView { effects: self.effects.push(effect), ..self }
    }

    pub open spec fn doing(self, task: Task) -> AppView {
        self.asking(EffectView::Do(task))
    }

    pub open spec fn in_mode(self, mode: AppMode) -> AppView {
        AppView { mode, ..self }
    }

    pub open spec fn notifying(self, notice: Seq<char>) -> AppView {
        AppView { host_notice: Some(notice), ..self }
    }

    /// Whether the interface moves.
    pub open spec fn animates(self) -> bool {
        !self.config.appearance.disable_animation
    }
}

impl App {
    /// Whether `key` matches one of the user-configured bindings for `action`.
    pub fn is_action(&self, action: KeyAction, key: &KeyEvent) -> (r: bool)
        ensures
            r == self@.hits(action, *key),
    {
        self.config.keybinds.is_bound(action, key)
    }

    /// Ask for an effect.
    pub fn ask(&mut self, effect: Effect)
        ensures
            final(self)@ == old(self)@.asking(effect@),
    {
        self.effects.push(effect);
    }

    /// Ask for a task.
    pub fn perform(&mut self, task: Task)
        ensures
            final(self)@ == old(self)@.doing(task),
    {
        self.ask(Effect::Do(task));
    }

    /// Take the effects that were asked for, oldest first.
    pub fn take_effects(&mut self) -> (r: Vec<Effect>)
        ensures
            views(r@) == old(self)@.effects,
            final(self)@ == (AppView { effects: Seq::empty(), ..old(self)@ }),
    {
        let mut out: Vec<Effect> = Vec::new();
        core::mem::swap(&mut out, &mut self.effects);
        out
    }

    /// Whether UI motion should play.
    pub fn motion_enabled(&self) -> (r: bool)
        ensures
            r == self@.animates(),
    {
        !self.config.appearance.disable_animation
    }
}

} // verus!
