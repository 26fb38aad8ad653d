//! The state of the application, and what it asks of the outside.

use vstd::prelude::*;

use crate::hosts::Identity;
use crate::keybinds::{BindingView, Keybinds};
use crate::sftp::model::{
    CommandView, QueuedTransfer, RemoteFileStamp, SftpCommand, Side, TransferView,
};
use crate::text::{group_views, opt_view, views};

verus! {

broadcast use crate::text::group_views;

/// What the keyboard is talking to.
#[derive(Debug, Clone, Copy, PartialEq, Eq, Structural)]
pub enum AppMode {
    Normal,
    Search,
    Palette,
    TagFilter,
    HostDetail,
    HostForm,
    IdentityForm,
    KeygenForm,
    GroupForm,
    GroupFieldPicker,
    GroupManage,
    TunnelForm,
    TunnelHostPicker,
    TunnelReconnectSettings,
    SessionPicker,
    PushKeyHostPicker,
    PushKeyIdentityPicker,
    FieldPicker,
    ImportPrompt,
    SftpPrompt,
    KeybindEditor,
    Settings,
    ThemePicker,
    ConfirmQuit,
    ConfirmDiscard,
    ConfirmDelete,
    Help,
    BroadcastPickTarget,
    BroadcastCommand,
    BroadcastPreview,
    Notice,
    KnownHosts,
    Connecting,
    Session,
}

/// Whether `mode` draws a popup overlay, whose open and close are animated.
/// The full-screen session modes are not popups.
pub open spec fn overlay(mode: AppMode) -> bool {
    !(mode is Normal) && !(mode is Connecting) && !(mode is Session)
}

pub fn is_overlay_mode(mode: AppMode) -> (r: bool)
    ensures
        r == overlay(mode),
{
    match mode {
        AppMode::Normal => false,
        AppMode::Connecting => false,
        AppMode::Session => false,
        _ => true,
    }
}

/// Whether `mode` shows the full-screen embedded session.
pub open spec fn full_screen(mode: AppMode) -> bool {
    mode is Connecting || mode is Session
}

pub fn is_session_mode(mode: AppMode) -> (r: bool)
    ensures
        r == full_screen(mode),
{
    match mode {
        AppMode::Connecting => true,
        AppMode::Session => true,
        _ => false,
    }
}

/// A panel of the dashboard.
#[derive(Debug, Clone, Copy, PartialEq, Eq, Structural)]
pub enum PanelId {
    Hosts,
    Detail,
    Ping,
    Recent,
    Auth,
    Agent,
    SshLog,
    Broadcast,
}

#[derive(Debug, Clone, Copy, PartialEq, Eq, Structural)]
pub enum FocusDir {
    Left,
    Right,
    Up,
    Down,
}

/// A selectable row of the host list.
#[derive(Debug, Clone, Copy, PartialEq, Eq, Structural)]
pub enum NavRow {
    /// The header of a section, by its position.
    Header(usize),
    /// A host, by its position.
    Host(usize),
}

/// Which audit events are shown, by outcome.
#[derive(Debug, Clone, Copy, PartialEq, Eq, Structural)]
pub enum AuditFilter {
    All,
    Succeeded,
    Failed,
}

impl AuditFilter {
    pub open spec fn next_spec(self) -> AuditFilter {
        match self {
            AuditFilter::All => AuditFilter::Succeeded,
            AuditFilter::Succeeded => AuditFilter::Failed,
            AuditFilter::Failed => AuditFilter::All,
        }
    }

    pub fn next(self) -> (r: AuditFilter)
        ensures
            r == self.next_spec(),
    {
        match self {
            AuditFilter::All => AuditFilter::Succeeded,
            AuditFilter::Succeeded => AuditFilter::Failed,
            AuditFilter::Failed => AuditFilter::All,
        }
    }
}

/// Which audit events are shown, by age.
#[derive(Debug, Clone, Copy, PartialEq, Eq, Structural)]
pub enum AuditRange {
    All,
    Today,
    Week,
    Month,
}

impl AuditRange {
    pub open spec fn next_spec(self) -> AuditRange {
        match self {
            AuditRange::All => AuditRange::Today,
            AuditRange::Today => AuditRange::Week,
            AuditRange::Week => AuditRange::Month,
            AuditRange::Month => AuditRange::All,
        }
    }

    pub fn next(self) -> (r: AuditRange)
        ensures
            r == self.next_spec(),
    {
        match self {
            AuditRange::All => AuditRange::Today,
            AuditRange::Today => AuditRange::Week,
            AuditRange::Week => AuditRange::Month,
            AuditRange::Month => AuditRange::All,
        }
    }
}

/// The switches of the Settings overlay that concern looks and behaviour.
#[derive(Debug, Clone, Copy, PartialEq, Eq, Structural)]
pub struct Appearance {
    pub transparent_sshub_background: bool,
    pub transparent_session_background: bool,
    pub os_logo: bool,
    pub confirm_quit: bool,
    pub disable_animation: bool,
}

/// What the user configured.
#[derive(Debug, PartialEq, Eq)]
pub struct AppConfig {
    pub keybinds: Keybinds,
    pub appearance: Appearance,
    pub session_logging: bool,
}

#[verifier::ext_equal]
pub struct ConfigView {
    pub keybinds: Seq<BindingView>,
    pub appearance: Appearance,
    pub session_logging: bool,
}

impl View for AppConfig {
    type V = ConfigView;

    open spec fn view(&self) -> ConfigView {
        ConfigView {
            keybinds: self.keybinds@,
            appearance: self.appearance,
            session_logging: self.session_logging,
        }
    }
}

/// How serious a line of the SSH log is.
#[derive(Debug, Clone, Copy, PartialEq, Eq, Structural)]
pub enum LogLevel {
    Info,
    Success,
    Error,
}

/// One line of the SSH log.
#[derive(Debug, PartialEq, Eq)]
pub struct SshLogEntry {
    pub host_name: String,
    pub line: String,
    pub level: LogLevel,
    pub timestamp: i64,
}

#[verifier::ext_equal]
pub struct LogView {
    pub host_name: Seq<char>,
    pub line: Seq<char>,
    pub level: LogLevel,
    pub timestamp: i64,
}

impl View for SshLogEntry {
    type V = LogView;

    open spec fn view(&self) -> LogView {
        LogView {
            host_name: self.host_name@,
            line: self.line@,
            level: self.level,
            timestamp: self.timestamp,
        }
    }
}

impl Clone for SshLogEntry {
    fn clone(&self) -> (r: Self)
        ensures
            r@ == self@,
    {
        SshLogEntry {
            host_name: self.host_name.clone(),
            line: self.line.clone(),
            level: self.level,
            timestamp: self.timestamp,
        }
    }
}

/// An embedded session, as far as its tab matters here.
#[derive(Debug, PartialEq, Eq)]
pub struct SessionInfo {
    pub display_name: String,
    /// How the session ended, once it has.
    pub exited: Option<String>,
}

#[verifier::ext_equal]
pub struct SessionView {
    pub display_name: Seq<char>,
    pub exited: Option<Seq<char>>,
}

impl View for SessionInfo {
    type V = SessionView;

    open spec fn view(&self) -> SessionView {
        SessionView { display_name: self.display_name@, exited: opt_view(self.exited) }
    }
}

/// What a confirmed deletion would delete.
#[derive(Debug, PartialEq, Eq)]
pub enum PendingDelete {
    Host { id: i64, name: String },
    Identity { id: i64, name: String },
    Group { id: i64, name: String },
    Tunnel { id: i64, label: String },
    SftpEntry { side: Side, path: String, name: String, is_dir: bool },
    /// An edit that has not reached its server, and the session with it.
    RemoteEdit { path: String },
}

#[verifier::ext_equal]
pub enum PendingView {
    Host { id: i64, name: Seq<char> },
    Identity { id: i64, name: Seq<char> },
    Group { id: i64, name: Seq<char> },
    Tunnel { id: i64, label: Seq<char> },
    SftpEntry { side: Side, path: Seq<char>, name: Seq<char>, is_dir: bool },
    RemoteEdit { path: Seq<char> },
}

impl View for PendingDelete {
    type V = PendingView;

    open spec fn view(&self) -> PendingView {
        match self {
            PendingDelete::Host { id, name } => PendingView::Host { id: *id, name: name@ },
            PendingDelete::Identity { id, name } => PendingView::Identity {
                id: *id,
                name: name@,
            },
            PendingDelete::Group { id, name } => PendingView::Group { id: *id, name: name@ },
            PendingDelete::Tunnel { id, label } => PendingView::Tunnel { id: *id, label: label@ },
            PendingDelete::SftpEntry { side, path, name, is_dir } => PendingView::SftpEntry {
                side: *side,
                path: path@,
                name: name@,
                is_dir: *is_dir,
            },
            PendingDelete::RemoteEdit { path } => PendingView::RemoteEdit { path: path@ },
        }
    }
}

/// Which side of the browser an edited file came from.
#[derive(Debug, Clone, Copy, PartialEq, Eq, Structural)]
pub enum EditSource {
    RightRemote,
    LeftRemote,
    /// A local file, edited in place.
    Local,
}

#[derive(Debug, Clone, Copy, PartialEq, Eq, Structural)]
pub enum RemoteEditPhase {
    Downloading,
    Editing,
    Uploading,
    RetryingDownload,
    RetryingEditor,
    RetryingUpload,
}

/// A file that is being edited.
#[derive(Debug, PartialEq, Eq)]
pub struct RemoteEditState {
    pub source: EditSource,
    pub remote_path: String,
    pub local_path: String,
    /// The private directory that holds the working copy.
    pub temp_dir: Option<String>,
    pub remote_mode: Option<u32>,
    pub stamp: Option<RemoteFileStamp>,
    pub phase: RemoteEditPhase,
    pub editor_session: Option<usize>,
}

#[verifier::ext_equal]
pub struct EditView {
    pub source: EditSource,
    pub remote_path: Seq<char>,
    pub local_path: Seq<char>,
    pub temp_dir: Option<Seq<char>>,
    pub remote_mode: Option<u32>,
    pub stamp: Option<RemoteFileStamp>,
    pub phase: RemoteEditPhase,
    pub editor_session: Option<usize>,
}

impl View for RemoteEditState {
    type V = EditView;

    open spec fn view(&self) -> EditView {
        EditView {
            source: self.source,
            remote_path: self.remote_path@,
            local_path: self.local_path@,
            temp_dir: opt_view(self.temp_dir),
            remote_mode: self.remote_mode,
            stamp: self.stamp,
            phase: self.phase,
            editor_session: self.editor_session,
        }
    }
}

/// Which half of a server-to-server transfer is running.
#[derive(Debug, Clone, Copy, PartialEq, Eq, Structural)]
pub enum RelayLeg {
    /// From the source server into the scratch directory.
    Fetching,
    /// From the scratch directory to the destination server.
    Pushing,
}

/// A server-to-server transfer, relayed item by item through a local directory.
#[derive(Debug, PartialEq, Eq)]
pub struct SftpRelay {
    pub total: usize,
    pub items: Vec<QueuedTransfer>,
    pub tmp_dir: String,
    pub leg: RelayLeg,
}

#[verifier::ext_equal]
pub struct RelayView {
    pub total: usize,
    pub items: Seq<TransferView>,
    pub tmp_dir: Seq<char>,
    pub leg: RelayLeg,
}

impl View for SftpRelay {
    type V = RelayView;

    open spec fn view(&self) -> RelayView {
        RelayView {
            total: self.total,
            items: views(self.items@),
            tmp_dir: self.tmp_dir@,
            leg: self.leg,
        }
    }
}

#[derive(Debug, Clone, Copy, PartialEq, Eq, Structural)]
pub enum SftpPromptKind {
    Mkdir,
    Rename,
    Chmod,
}

/// The text prompt of the browser.
#[derive(Debug, PartialEq, Eq)]
pub struct SftpPromptEdit {
    pub kind: SftpPromptKind,
    pub side: Side,
    pub base: String,
    pub old_path: Option<String>,
    pub value: String,
    /// In characters.
    pub cursor: usize,
    pub error: Option<String>,
}

#[verifier::ext_equal]
pub struct PromptView {
    pub kind: SftpPromptKind,
    pub side: Side,
    pub base: Seq<char>,
    pub old_path: Option<Seq<char>>,
    pub value: Seq<char>,
    pub cursor: nat,
    pub error: Option<Seq<char>>,
}

impl View for SftpPromptEdit {
    type V = PromptView;

    open spec fn view(&self) -> PromptView {
        PromptView {
            kind: self.kind,
            side: self.side,
            base: self.base@,
            old_path: opt_view(self.old_path),
            value: self.value@,
            cursor: self.cursor as nat,
            error: opt_view(self.error),
        }
    }
}

/// The sending end of a worker's command channel: what waits to be sent, and
/// whether the worker still listens.
#[derive(Debug, PartialEq, Eq)]
pub struct WorkerLink {
    pub alive: bool,
    pub outbox: Vec<SftpCommand>,
}

#[verifier::ext_equal]
pub struct LinkView {
    pub alive: bool,
    pub outbox: Seq<CommandView>,
}

impl View for WorkerLink {
    type V = LinkView;

    open spec fn view(&self) -> LinkView {
        LinkView { alive: self.alive, outbox: views(self.outbox@) }
    }
}

impl LinkView {
    /// The link after a command was sent; a worker that is gone gets nothing.
    pub open spec fn sent(self, command: CommandView) -> LinkView {
        if self.alive {
            LinkView { outbox: self.outbox.push(command), ..self }
        } else {
            self
        }
    }
}

impl WorkerLink {
    pub fn new() -> (r: Self)
        ensures
            r@ == (LinkView { alive: true, outbox: Seq::empty() }),
    {
        WorkerLink { alive: true, outbox: Vec::new() }
    }

    /// Send a command. Returns whether the worker will get it.
    pub fn send(&mut self, command: SftpCommand) -> (r: bool)
        ensures
            final(self)@ == old(self)@.sent(command@),
            r == old(self)@.alive,
    {
        if self.alive {
            self.outbox.push(command);
        }
        self.alive
    }

    /// Take the commands that wait to be sent.
    pub fn drain(&mut self) -> (r: Vec<SftpCommand>)
        ensures
            views(r@) == old(self)@.outbox,
            final(self)@ == (LinkView { outbox: Seq::empty(), ..old(self)@ }),
    {
        let mut out: Vec<SftpCommand> = Vec::new();
        core::mem::swap(&mut out, &mut self.outbox);
        out
    }
}

/// An entry of the known-hosts file.
#[derive(Debug, PartialEq, Eq)]
pub struct KnownHost {
    pub hosts: String,
    /// Why the entry cannot be deleted, if it cannot.
    pub block_reason: Option<String>,
}

#[verifier::ext_equal]
pub struct KnownHostView {
    pub hosts: Seq<char>,
    pub block_reason: Option<Seq<char>>,
}

impl View for KnownHost {
    type V = KnownHostView;

    open spec fn view(&self) -> KnownHostView {
        KnownHostView { hosts: self.hosts@, block_reason: opt_view(self.block_reason) }
    }
}

/// The known-hosts overlay.
#[derive(Debug, PartialEq, Eq)]
pub struct KnownHostsState {
    pub entries: Vec<KnownHost>,
    pub selected: usize,
    pub query: String,
    pub confirming_delete: bool,
    pub notice: Option<String>,
    pub notice_is_error: bool,
}

#[verifier::ext_equal]
pub struct KnownHostsView {
    pub entries: Seq<KnownHostView>,
    pub selected: usize,
    pub query: Seq<char>,
    pub confirming_delete: bool,
    pub notice: Option<Seq<char>>,
    pub notice_is_error: bool,
}

impl View for KnownHostsState {
    type V = KnownHostsView;

    open spec fn view(&self) -> KnownHostsView {
        KnownHostsView {
            entries: views(self.entries@),
            selected: self.selected,
            query: self.query@,
            confirming_delete: self.confirming_delete,
            notice: opt_view(self.notice),
            notice_is_error: self.notice_is_error,
        }
    }
}

/// The keybinding editor overlay.
#[derive(Debug, PartialEq, Eq)]
pub struct KeybindEditor {
    pub selected: usize,
    pub scroll: usize,
    /// The next key becomes a binding.
    pub capturing: bool,
    /// It is added to the bindings there are.
    pub append: bool,
    pub query: String,
}

#[verifier::ext_equal]
pub struct EditorView {
    pub selected: usize,
    pub scroll: usize,
    pub capturing: bool,
    pub append: bool,
    pub query: Seq<char>,
}

impl View for KeybindEditor {
    type V = EditorView;

    open spec fn view(&self) -> EditorView {
        EditorView {
            selected: self.selected,
            scroll: self.scroll,
            capturing: self.capturing,
            append: self.append,
            query: self.query@,
        }
    }
}

/// The quick-connect palette.
#[derive(Debug, PartialEq, Eq)]
pub struct Palette {
    pub query: String,
    pub selected: usize,
    pub results: Vec<usize>,
    /// A row behind the results offers to connect without saving.
    pub adhoc: bool,
}

#[verifier::ext_equal]
pub struct PaletteView {
    pub query: Seq<char>,
    pub selected: usize,
    pub results: Seq<usize>,
    pub adhoc: bool,
}

impl View for Palette {
    type V = PaletteView;

    open spec fn view(&self) -> PaletteView {
        PaletteView {
            query: self.query@,
            selected: self.selected,
            results: self.results@,
            adhoc: self.adhoc,
        }
    }
}

/// The help overlay.
#[derive(Debug, PartialEq, Eq)]
pub struct Help {
    pub scroll: u16,
    /// How far the renderer can scroll what is shown.
    pub max_scroll: u16,
    pub query: String,
    pub return_to: Option<AppMode>,
}

#[verifier::ext_equal]
pub struct HelpView {
    pub scroll: u16,
    pub max_scroll: u16,
    pub query: Seq<char>,
    pub return_to: Option<AppMode>,
}

impl View for Help {
    type V = HelpView;

    open spec fn view(&self) -> HelpView {
        HelpView {
            scroll: self.scroll,
            max_scroll: self.max_scroll,
            query: self.query@,
            return_to: self.return_to,
        }
    }
}

/// Which way a panel morphs between its slot and the full body.
#[derive(Debug, Clone, Copy, PartialEq, Eq, Structural)]
pub enum ZoomAnim {
    In,
    Out,
}

/// The dashboard's panels.
#[derive(Debug, PartialEq, Eq)]
pub struct Panels {
    pub focused: PanelId,
    pub zoomed: bool,
    pub scroll: u16,
    /// Text of the zoomed panel is being selected.
    pub selecting: bool,
    pub zoom_anim: Option<ZoomAnim>,
    /// The hosts behind the rows of a zoomed host-list panel.
    pub zoomed_hosts: Vec<usize>,
}

#[verifier::ext_equal]
pub struct PanelsView {
    pub focused: PanelId,
    pub zoomed: bool,
    pub scroll: u16,
    pub selecting: bool,
    pub zoom_anim: Option<ZoomAnim>,
    pub zoomed_hosts: Seq<usize>,
}

impl View for Panels {
    type V = PanelsView;

    open spec fn view(&self) -> PanelsView {
        PanelsView {
            focused: self.focused,
            zoomed: self.zoomed,
            scroll: self.scroll,
            selecting: self.selecting,
            zoom_anim: self.zoom_anim,
            zoomed_hosts: self.zoomed_hosts@,
        }
    }
}

/// The forms that ask before they are left with changes.
#[derive(Debug, Clone, Copy, PartialEq, Eq, Structural)]
pub enum FormKind {
    Host,
    Identity,
    Keygen,
    Tunnel,
}

impl FormKind {
    /// The mode in which a form has the keyboard.
    pub open spec fn mode_spec(self) -> AppMode {
        match self {
            FormKind::Host => AppMode::HostForm,
            FormKind::Identity => AppMode::IdentityForm,
            FormKind::Keygen => AppMode::KeygenForm,
            FormKind::Tunnel => AppMode::TunnelForm,
        }
    }

    pub fn mode(self) -> (r: AppMode)
        ensures
            r == self.mode_spec(),
    {
        match self {
            FormKind::Host => AppMode::HostForm,
            FormKind::Identity => AppMode::IdentityForm,
            FormKind::Keygen => AppMode::KeygenForm,
            FormKind::Tunnel => AppMode::TunnelForm,
        }
    }
}

/// Which forms are open.
#[derive(Debug, Clone, Copy, PartialEq, Eq, Structural)]
pub struct OpenForms {
    pub host: bool,
    pub identity: bool,
    pub keygen: bool,
    pub tunnel: bool,
}

impl OpenForms {
    /// The form that a question about leaving is about.
    pub open spec fn asked_spec(self) -> Option<FormKind> {
        if self.host {
            Some(FormKind::Host)
        } else if self.identity {
            Some(FormKind::Identity)
        } else if self.keygen {
            Some(FormKind::Keygen)
        } else if self.tunnel {
            Some(FormKind::Tunnel)
        } else {
            None
        }
    }

    pub fn asked(self) -> (r: Option<FormKind>)
        ensures
            r == self.asked_spec(),
    {
        if self.host {
            Some(FormKind::Host)
        } else if self.identity {
            Some(FormKind::Identity)
        } else if self.keygen {
            Some(FormKind::Keygen)
        } else if self.tunnel {
            Some(FormKind::Tunnel)
        } else {
            None
        }
    }

    pub open spec fn holds_spec(self, kind: FormKind) -> bool {
        match kind {
            FormKind::Host => self.host,
            FormKind::Identity => self.identity,
            FormKind::Keygen => self.keygen,
            FormKind::Tunnel => self.tunnel,
        }
    }

    pub fn holds(self, kind: FormKind) -> (r: bool)
        ensures
            r == self.holds_spec(kind),
    {
        match kind {
            FormKind::Host => self.host,
            FormKind::Identity => self.identity,
            FormKind::Keygen => self.keygen,
            FormKind::Tunnel => self.tunnel,
        }
    }
}

/// The field of the host detail that is being edited.
#[derive(Debug, Clone, Copy, PartialEq, Eq, Structural)]
pub struct DetailField {
    /// The field cycles through three values instead of taking text.
    pub tri_state: bool,
    /// The field is the session-logging override.
    pub session_logging: bool,
}

/// A slide of the SFTP tab.
#[derive(Debug, Clone, Copy, PartialEq, Eq, Structural)]
pub enum SftpAnim {
    ConnectIn,
    ConnectOut,
    PanesIn,
    PanesOut,
}

/// A slide between two dashboard tabs.
#[derive(Debug, Clone, Copy, PartialEq, Eq, Structural)]
pub struct TabSwitch {
    pub from: usize,
    pub to: usize,
    pub at: u64,
}

/// The query picker for pushing a key to a host.
#[derive(Debug, PartialEq, Eq)]
pub struct PushKeyHostPicker {
    pub query: String,
    pub selected: usize,
    /// The hosts that match a query, best first; without one all are offered.
    pub matches: Vec<usize>,
}

#[verifier::ext_equal]
pub struct HostPickerView {
    pub query: Seq<char>,
    pub selected: usize,
    pub matches: Seq<usize>,
}

impl View for PushKeyHostPicker {
    type V = HostPickerView;

    open spec fn view(&self) -> HostPickerView {
        HostPickerView { query: self.query@, selected: self.selected, matches: self.matches@ }
    }
}

} // verus!
