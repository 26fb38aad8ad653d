//! What the application asks of the outside. A handler queues effects; the
//! program around it performs them in order and, where an effect says so, hands
//! the outcome back.

use vstd::prelude::*;

use crate::app::state::{AppMode, EditSource, FocusDir, FormKind};
use crate::keybinds::KeyEvent;
use crate::text::{opt_view, views};

verus! {

broadcast use crate::text::group_views;

/// Work of other parts of the program, named by what it does.
#[derive(Debug, Clone, Copy, PartialEq, Eq, Structural)]
pub enum Task {
    /// The screen of this mode takes the key.
    ScreenKey(AppMode, KeyEvent),
    /// The tab with this number takes the key.
    TabKey(usize, KeyEvent),
    /// The embedded session takes the key.
    SessionKey(KeyEvent),
    OpenLocalShell,
    CancelBroadcast,
    OpenBroadcast,
    MoveHostManual(i32),
    ToggleSelectedGroup,
    SetAllGroupsCollapsed(bool),
    ConnectSelected,
    ConnectHostAt(usize),
    /// Connect to what is typed in the palette without saving it.
    ConnectAdhoc,
    /// Select the host in the list, and connect to it if it can be shown.
    RevealAndConnect(usize),
    EnterHostForm,
    EditSelectedHost,
    DeleteSelectedHost,
    DuplicateSelectedHost,
    /// Outcome: `export_finished`.
    ExportSshConfig,
    /// Outcome: `import_finished`.
    ImportSshConfig,
    OpenImportPrompt,
    RenameSelectedGroup,
    DeleteSelectedGroup,
    EnterGroupManage,
    ToggleFavorite,
    OpenTagFilter,
    CycleSortMode,
    YankSshLog,
    RebuildFilter,
    RefreshAuditEvents,
    /// Outcome: `palette_searched`.
    SearchPalette,
    /// See whether what is typed in the palette could be connected to. Outcome:
    /// `palette_adhoc_checked`.
    CheckAdhoc,
    /// Outcome: `panel_found` with the neighbour in this direction.
    FindPanel(FocusDir),
    /// Outcome: `agent_key_listed` with the comment of this key.
    ListAgentKey(usize),
    SwitchToTunnels,
    SwitchToKeys,
    StopProbe,
    /// Outcome: `form_saved`, unless saving moved on by itself.
    SaveForm(FormKind),
    DiscardForm(FormKind),
    CancelHostDetail,
    SaveHostDetail,
    DetailFieldNext,
    DetailFieldPrev,
    DetailCycleSessionLogging(i32),
    DetailBackspace,
    DetailInsert(char),
    MoveIdentityGrid(i32, i32),
    AdjustIdentityColumns(i32),
    EnterIdentityForm,
    EnterKeygenForm,
    EditSelectedIdentity,
    DeleteSelectedIdentity,
    RemoveSelectedFromAgent,
    AddSelectedToAgent,
    OpenThemePicker,
    CancelThemePicker,
    CommitThemePicker,
    ReloadThemePicker,
    SelectThemeRow(usize),
    PageThemeUp(usize),
    PageThemeDown(usize),
    ScrollThemeDiagnostics(i32),
    MoveThemeSelection(i32),
    /// Outcome: `config_saved`.
    SaveConfig,
    /// Outcome: `known_hosts_loaded`.
    LoadKnownHosts,
    /// Outcome: `known_hosts_refreshed`.
    RefreshKnownHosts,
    ReloadHosts,
    ReloadIdentities,
    ReloadTunnels,
    /// Outcome: `push_identities_loaded`.
    LoadPushIdentities,
    /// Outcome: `push_hosts_matched`.
    MatchPushHosts,
    OpenSessionPickerForLeftPane,
    DetachToDashboard,
    FocusActiveSession,
    CloseActiveSession,
    RemoveSession(usize),
    DetectPingChanges,
    FreeAllSnapshots,
    FreeSessionSnapshot,
    FreeSftpSnapshot,
    FreePopupSnapshot,
    /// Outcome: `auth_cache_loaded`.
    LoadAuthCache,
}

/// One thing asked of the outside.
#[derive(Debug, PartialEq, Eq)]
#[allow(inconsistent_fields)]
pub enum Effect {
    Do(Task),
    /// Select the host of this name again, if it is still shown.
    RestoreSelection(String),
    /// Store a setting of the user interface.
    SaveUiState { key: String, value: String },
    /// Read a local directory. Outcome: `sftp_local_listed`.
    ListLocal(String),
    /// Create a private directory for a working copy. Outcome:
    /// `sftp_edit_workspace`.
    MakeEditWorkspace { source: EditSource, remote_path: String, name: String, mode: Option<u32> },
    /// Create a private scratch directory for a relay. Outcome:
    /// `sftp_relay_workspace`.
    MakeRelayWorkspace,
    /// Remove a private directory and all in it.
    DropWorkspace(String),
    /// Remove a file or directory tree, if it is there.
    RemoveScratch { path: String, is_dir: bool },
    /// Look up the editor settings. Outcome: `start_local_editor`.
    OpenEditor,
    /// Run the editor in a session. Outcome: `editor_spawned`.
    SpawnEditor { argv: Vec<String>, title: String },
    /// The editor's session is to be closed first. Outcome: `editor_closed`.
    EditorClosed { status: String, visible: bool },
    /// Outcome: `sftp_local_op_done`.
    LocalMkdir(String),
    /// See whether something is at a local path, be it a dangling link. Outcome:
    /// `sftp_rename_probed`.
    ProbeLocal(String),
    /// Outcome: `sftp_local_op_done`.
    LocalRename { from: String, to: String },
    /// Outcome: `sftp_local_op_done`.
    LocalChmod { path: String, mode: u32 },
    /// Outcome: `sftp_local_deleted`.
    LocalDelete { path: String, is_dir: bool },
    /// Start a worker for the host at this position. Outcome:
    /// `sftp_worker_started`.
    StartSftp(usize),
    /// Start a second worker for the host at this position. Outcome:
    /// `sftp_left_started`.
    StartSftpLeft(usize),
    /// Read the current local directory. Outcome: `sftp_local_listed`.
    ListCurrentDir,
    /// Connect a session to the host at this position.
    ConnectHost(usize),
    /// Outcome: `host_deleted`.
    DeleteHost { id: i64, name: String },
    /// Outcome: `identity_deleted`.
    DeleteIdentity { id: i64, name: String },
    /// Outcome: `group_deleted`.
    DeleteGroup { id: i64, name: String },
    /// Stop the tunnel, forget it and reload. Outcome: `tunnel_deleted`.
    DeleteTunnel { id: i64, label: String },
    /// Outcome: `known_host_removed`.
    RemoveKnownHost(String),
    /// Outcome: `agent_key_removed`.
    RemoveAgentKey(String),
    /// Read the public key that belongs to a private one, with the passphrase
    /// that is stored under `secret`, if any. Outcome: `push_key_read`.
    ReadPublicKey { host: usize, identity: String, key_path: String, secret: Option<String> },
    /// Build the command line and look up the secret. Outcome:
    /// `push_key_prepared`.
    PreparePush { host: usize, identity: String, remote_cmd: String },
    /// Run a key push in a session. Outcome: `push_key_spawned`.
    SpawnPush {
        host: usize,
        identity: String,
        argv: Vec<String>,
        title: String,
        rows: u16,
        cols: u16,
    },
    LogAuthEvent {
        host: String,
        user: Option<String>,
        via: String,
        status: String,
        note: String,
    },
}

#[verifier::ext_equal]
#[allow(inconsistent_fields)]
pub enum EffectView {
    Do(Task),
    RestoreSelection(Seq<char>),
    SaveUiState { key: Seq<char>, value: Seq<char> },
    ListLocal(Seq<char>),
    MakeEditWorkspace {
        source: EditSource,
        remote_path: Seq<char>,
        name: Seq<char>,
        mode: Option<u32>,
    },
    MakeRelayWorkspace,
    DropWorkspace(Seq<char>),
    RemoveScratch { path: Seq<char>, is_dir: bool },
    OpenEditor,
    SpawnEditor { argv: Seq<Seq<char>>, title: Seq<char> },
    EditorClosed { status: Seq<char>, visible: bool },
    LocalMkdir(Seq<char>),
    ProbeLocal(Seq<char>),
    LocalRename { from: Seq<char>, to: Seq<char> },
    LocalChmod { path: Seq<char>, mode: u32 },
    LocalDelete { path: Seq<char>, is_dir: bool },
    StartSftp(usize),
    StartSftpLeft(usize),
    ListCurrentDir,
    ConnectHost(usize),
    DeleteHost { id: i64, name: Seq<char> },
    DeleteIdentity { id: i64, name: Seq<char> },
    DeleteGroup { id: i64, name: Seq<char> },
    DeleteTunnel { id: i64, label: Seq<char> },
    RemoveKnownHost(Seq<char>),
    RemoveAgentKey(Seq<char>),
    ReadPublicKey {
        host: usize,
        identity: Seq<char>,
        key_path: Seq<char>,
        secret: Option<Seq<char>>,
    },
    PreparePush { host: usize, identity: Seq<char>, remote_cmd: Seq<char> },
    SpawnPush {
        host: usize,
        identity: Seq<char>,
        argv: Seq<Seq<char>>,
        title: Seq<char>,
        rows: u16,
        cols: u16,
    },
    LogAuthEvent {
        host: Seq<char>,
        user: Option<Seq<char>>,
        via: Seq<char>,
        status: Seq<char>,
        note: Seq<char>,
    },
}

impl View for Effect {
    type V = EffectView;

    open spec fn view(&self) -> EffectView {
        match self {
            Effect::Do(task) => EffectView::Do(*task),
            Effect::RestoreSelection(name) => EffectView::RestoreSelection(name@),
            Effect::SaveUiState { key, value } => EffectView::SaveUiState {
                key: key@,
                value: value@,
            },
            Effect::ListLocal(path) => EffectView::ListLocal(path@),
            Effect::MakeEditWorkspace { source, remote_path, name, mode } =>
                EffectView::MakeEditWorkspace {
                source: *source,
                remote_path: remote_path@,
                name: name@,
                mode: *mode,
            },
            Effect::MakeRelayWorkspace => EffectView::MakeRelayWorkspace,
            Effect::DropWorkspace(path) => EffectView::DropWorkspace(path@),
            Effect::RemoveScratch { path, is_dir } => EffectView::RemoveScratch {
                path: path@,
                is_dir: *is_dir,
            },
            Effect::OpenEditor => EffectView::OpenEditor,
            Effect::SpawnEditor { argv, title } => EffectView::SpawnEditor {
                argv: views(argv@),
                title: title@,
            },
            Effect::EditorClosed { status, visible } => EffectView::EditorClosed {
                status: status@,
                visible: *visible,
            },
            Effect::LocalMkdir(path) => EffectView::LocalMkdir(path@),
            Effect::ProbeLocal(path) => EffectView::ProbeLocal(path@),
            Effect::LocalRename { from, to } => EffectView::LocalRename { from: from@, to: to@ },
            Effect::LocalChmod { path, mode } => EffectView::LocalChmod {
                path: path@,
                mode: *mode,
            },
            Effect::LocalDelete { path, is_dir } => EffectView::LocalDelete {
                path: path@,
                is_dir: *is_dir,
            },
            Effect::StartSftp(host) => EffectView::StartSftp(*host),
            Effect::StartSftpLeft(host) => EffectView::StartSftpLeft(*host),
            Effect::ListCurrentDir => EffectView::ListCurrentDir,
            Effect::ConnectHost(host) => EffectView::ConnectHost(*host),
            Effect::DeleteHost { id, name } => EffectView::DeleteHost { id: *id, name: name@ },
            Effect::DeleteIdentity { id, name } => EffectView::DeleteIdentity {
                id: *id,
                name: name@,
            },
            Effect::DeleteGroup { id, name } => EffectView::DeleteGroup { id: *id, name: name@ },
            Effect::DeleteTunnel { id, label } => EffectView::DeleteTunnel {
                id: *id,
                label: label@,
            },
            Effect::RemoveKnownHost(hosts) => EffectView::RemoveKnownHost(hosts@),
            Effect::RemoveAgentKey(comment) => EffectView::RemoveAgentKey(comment@),
            Effect::ReadPublicKey { host, identity, key_path, secret } =>
                EffectView::ReadPublicKey {
                host: *host,
                identity: identity@,
                key_path: key_path@,
                secret: opt_view(*secret),
            },
            Effect::PreparePush { host, identity, remote_cmd } => EffectView::PreparePush {
                host: *host,
                identity: identity@,
                remote_cmd: remote_cmd@,
            },
            Effect::SpawnPush { host, identity, argv, title, rows, cols } =>
                EffectView::SpawnPush {
                host: *host,
                identity: identity@,
                argv: views(argv@),
                title: title@,
                rows: *rows,
                cols: *cols,
            },
            Effect::LogAuthEvent { host, user, via, status, note } => EffectView::LogAuthEvent {
                host: host@,
                user: opt_view(*user),
                via: via@,
                status: status@,
                note: note@,
            },
        }
    }
}

} // verus!
