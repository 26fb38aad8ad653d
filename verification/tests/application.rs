//! The application: keys and worker events go in, effects come out and are
//! performed against a small stand-in for the outside.

use std::collections::HashMap;

use sshub::app::effects::{Effect, Task};
use sshub::app::motion::AnimTimes;
use sshub::app::sftp_session::SFTP_HIDDEN_KEY;
use sshub::app::state::{
    AppConfig, AppMode, Appearance, EditSource, LogLevel, NavRow, PanelId, PendingDelete, RelayLeg,
    RemoteEditPhase, RemoteEditState, SessionInfo, SftpPromptKind, SshLogEntry, WorkerLink,
};
use sshub::app::App;
use sshub::hosts::{HostEntry, HostGroup, SshHost};
use sshub::keybinds::{Binding, KeyAction, KeyCode, KeyEvent, KeyModifiers, Keybinds};
use sshub::launch::{apply_auto_quit, run_headless, session_news};
use sshub::sftp::browser::{Focus, Phase, SftpState};
use sshub::sftp::model::{
    Direction, FileEntry, QueuedTransfer, RemoteFileStamp, SftpCommand, SftpEvent, Side,
};

fn bind(action: KeyAction, specs: &[&str]) -> Binding {
    let specs: Vec<String> = specs.iter().map(|s| s.to_string()).collect();
    Binding { action, label: format!("{action:?}"), specs: specs.clone(), defaults: specs }
}

fn config() -> AppConfig {
    AppConfig {
        keybinds: Keybinds {
            rows: vec![
                bind(KeyAction::Quit, &["q"]),
                bind(KeyAction::ForceQuit, &["Ctrl+C"]),
                bind(KeyAction::Cancel, &["Esc"]),
                bind(KeyAction::ConfirmYes, &["y"]),
                bind(KeyAction::ConfirmNo, &["n"]),
                bind(KeyAction::Connect, &["Enter"]),
                bind(KeyAction::MoveDown, &["j", "Down"]),
                bind(KeyAction::MoveUp, &["k", "Up"]),
                bind(KeyAction::Edit, &["e"]),
                bind(KeyAction::Help, &["?"]),
                bind(KeyAction::Search, &["/"]),
                bind(KeyAction::TabHosts, &["1"]),
                bind(KeyAction::TabSftp, &["2"]),
                bind(KeyAction::TabTunnels, &["3"]),
                bind(KeyAction::TabKeys, &["4"]),
                bind(KeyAction::TabAudit, &["5"]),
                bind(KeyAction::TogglePanelZoom, &["z"]),
                bind(KeyAction::KeybindEditor, &["Ctrl+K"]),
                bind(KeyAction::LocalShell, &["Ctrl+Shift+T"]),
                bind(KeyAction::Save, &["Ctrl+S"]),
            ],
        },
        appearance: Appearance {
            transparent_sshub_background: false,
            transparent_session_background: false,
            os_logo: true,
            confirm_quit: true,
            disable_animation: false,
        },
        session_logging: false,
    }
}

fn host(name: &str) -> HostEntry {
    let mut host = SshHost::new(name);
    host.hostname = Some(format!("{name}.example.com"));
    HostEntry::new(host)
}

/// What the outside remembers of the effects that it performed.
#[derive(Default)]
struct Outside {
    settings: HashMap<String, String>,
    visual: Option<String>,
    /// Whether editors start.
    editors: bool,
    workspaces: usize,
    dropped: Vec<String>,
    scratch_removed: Vec<String>,
    tasks: Vec<Task>,
    spawned: Vec<Vec<String>>,
    local: Vec<Effect>,
}

impl Outside {
    /// Perform what the application asked for, and what it asks for then.
    fn settle(&mut self, app: &mut App) {
        loop {
            let effects = app.take_effects();
            if effects.is_empty() {
                return;
            }
            for effect in effects {
                self.perform(app, effect);
            }
        }
    }

    fn perform(&mut self, app: &mut App, effect: Effect) {
        match effect {
            Effect::Do(Task::RebuildFilter) => {
                let query = app.search_query.clone();
                app.nav_rows = (0..app.hosts.len())
                    .filter(|i| app.hosts[*i].name().contains(&query))
                    .map(NavRow::Host)
                    .collect();
                app.selected = 0;
            }
            Effect::Do(task) => self.tasks.push(task),
            Effect::SaveUiState { key, value } => {
                self.settings.insert(key, value);
            }
            Effect::StartSftp(i) => {
                let name = app.hosts[i].name().clone();
                app.sftp_worker_started(name, "/home/me".into(), vec![], WorkerLink::new());
            }
            Effect::StartSftpLeft(i) => {
                let name = app.hosts[i].name().clone();
                app.sftp_left_started(name, WorkerLink::new());
            }
            Effect::MakeEditWorkspace { source, remote_path, name, mode } => {
                let dir = self.workspace();
                app.sftp_edit_workspace(source, remote_path, name, mode, Ok(dir));
            }
            Effect::MakeRelayWorkspace => {
                let dir = self.workspace();
                app.sftp_relay_workspace(Ok(dir));
            }
            Effect::DropWorkspace(dir) => self.dropped.push(dir),
            Effect::RemoveScratch { path, .. } => self.scratch_removed.push(path),
            Effect::OpenEditor => app.start_local_editor(self.visual.clone(), None),
            Effect::SpawnEditor { argv, title } => {
                self.spawned.push(argv);
                app.editor_spawned(if self.editors {
                    Some(SessionInfo { display_name: title, exited: None })
                } else {
                    None
                });
            }
            Effect::EditorClosed { status, visible } => app.editor_closed(status, visible),
            other => self.local.push(other),
        }
    }

    fn workspace(&mut self) -> String {
        self.workspaces += 1;
        format!("/tmp/workspace-{}", self.workspaces)
    }
}

fn test_app(hosts: Vec<HostEntry>) -> (App, Outside) {
    let mut app = App::new(config(), 10_000_000);
    let mut outside = Outside::default();
    app.reload_hosts(hosts, vec![]);
    outside.settle(&mut app);
    (app, outside)
}

fn key(code: KeyCode) -> KeyEvent {
    KeyEvent::new(code, KeyModifiers::empty())
}

fn key_char(c: char) -> KeyEvent {
    key(KeyCode::Char(c))
}

fn ctrl(c: char) -> KeyEvent {
    KeyEvent::new(KeyCode::Char(c), KeyModifiers { control: true, ..KeyModifiers::empty() })
}

fn press(app: &mut App, outside: &mut Outside, key: KeyEvent) {
    app.handle_key(key);
    outside.settle(app);
}

fn file(name: &str, size: u64, perm: Option<u32>) -> FileEntry {
    FileEntry { name: name.into(), is_dir: false, size, is_symlink: false, perm }
}

fn sent(link: &mut Option<WorkerLink>) -> Vec<SftpCommand> {
    link.as_mut().map(|link| link.drain()).unwrap_or_default()
}

fn notice(app: &App) -> &str {
    app.sftp.as_ref().and_then(|s| s.notice.as_deref()).unwrap_or("")
}

fn edit_of(source: EditSource, phase: RemoteEditPhase) -> RemoteEditState {
    RemoteEditState {
        source,
        remote_path: "/srv/notes.txt".into(),
        local_path: "/tmp/workspace/notes.txt".into(),
        temp_dir: Some("/tmp/workspace".into()),
        remote_mode: Some(0o644),
        stamp: None,
        phase,
        editor_session: None,
    }
}

#[test]
fn sftp_picker_search_connects_to_filtered_host() {
    let (mut app, mut outside) = test_app(vec![host("alpha"), host("bravo"), host("charlie")]);
    app.active_tab = 1;

    press(&mut app, &mut outside, key_char('/'));
    for c in "charlie".chars() {
        press(&mut app, &mut outside, key_char(c));
    }
    press(&mut app, &mut outside, key(KeyCode::Enter));

    assert_eq!(app.sftp_host.as_deref(), Some("charlie"));
}

#[test]
fn edit_key_starts_a_remote_download_for_the_right_pane() {
    let (mut app, mut outside) = test_app(vec![]);
    let mut state = SftpState::new("/srv", "/tmp");
    state.remote.set_entries(vec![file("notes.txt", 12, Some(0o644))]);
    state.remote.selected = 1;
    app.sftp = Some(state);
    app.sftp_tx = Some(WorkerLink::new());
    app.active_tab = 1;

    press(&mut app, &mut outside, key_char('e'));

    let commands = sent(&mut app.sftp_tx);
    assert!(matches!(
        &commands[0],
        SftpCommand::EditDownload { remote, local }
            if remote == "/srv/notes.txt" && local.ends_with("/notes.txt")
    ));
    assert!(matches!(
        app.remote_edit.as_ref().map(|edit| edit.phase),
        Some(RemoteEditPhase::Downloading)
    ));
    assert!(matches!(
        app.remote_edit.as_ref().map(|edit| edit.source),
        Some(EditSource::RightRemote)
    ));
}

#[test]
fn edit_key_starts_a_local_edit_in_place_for_the_local_pane() {
    let (mut app, mut outside) = test_app(vec![]);
    outside.visual = Some("definitely-not-an-editor-sshub-test".into());
    let mut state = SftpState::new("/srv", "/tmp/edits");
    state.focus = Focus::Local;
    state.local.set_entries(vec![file("notes.txt", 5, Some(0o644))]);
    state.local.selected = 1;
    app.sftp = Some(state);
    app.sftp_tx = Some(WorkerLink::new());
    app.active_tab = 1;

    press(&mut app, &mut outside, key_char('e'));

    // No worker involved: the file is edited in place.
    assert!(sent(&mut app.sftp_tx).is_empty());
    let edit = app.remote_edit.as_ref().expect("local edit started");
    assert_eq!(edit.source, EditSource::Local);
    assert_eq!(edit.local_path, "/tmp/edits/notes.txt");
    assert!(edit.temp_dir.is_none());
    assert_eq!(edit.phase, RemoteEditPhase::RetryingEditor);
    assert!(notice(&app).contains("press e to retry"));
    assert_eq!(
        outside.spawned,
        vec![vec![
            "definitely-not-an-editor-sshub-test".to_string(),
            "/tmp/edits/notes.txt".to_string()
        ]]
    );
}

#[test]
fn edit_key_routes_the_download_to_the_second_worker() {
    let (mut app, mut outside) = test_app(vec![]);
    let mut state = SftpState::new("/srv", "/tmp");
    state.focus = Focus::Local;
    state.left_host = Some("second".into());
    state.local.set_entries(vec![file("notes.txt", 12, Some(0o644))]);
    state.local.selected = 1;
    state.local.cwd = "/srv".into();
    app.sftp = Some(state);
    app.sftp_tx2 = Some(WorkerLink::new());
    app.active_tab = 1;

    press(&mut app, &mut outside, key_char('e'));

    let commands = sent(&mut app.sftp_tx2);
    assert!(matches!(
        &commands[0],
        SftpCommand::EditDownload { remote, local }
            if remote == "/srv/notes.txt" && local.ends_with("/notes.txt")
    ));
    assert!(matches!(
        app.remote_edit.as_ref().map(|edit| (edit.source, edit.phase)),
        Some((EditSource::LeftRemote, RemoteEditPhase::Downloading))
    ));
}

#[test]
fn switching_the_left_pane_waits_for_a_second_server_edit() {
    let (mut app, mut outside) = test_app(vec![]);
    app.sftp = Some(SftpState::new("/srv", "/tmp"));
    app.active_tab = 1;
    app.remote_edit = Some(edit_of(EditSource::LeftRemote, RemoteEditPhase::Downloading));
    app.sftp_tx2 = Some(WorkerLink::new());

    app.sftp_left_pane_to_local();
    outside.settle(&mut app);

    assert!(app.sftp_tx2.is_some(), "switching the left pane must wait for the edit transfer");
    assert!(app.remote_edit.is_some(), "the working copy must be retained");
    assert!(notice(&app).contains("wait for the edit transfer"));
}

#[test]
fn switching_the_left_pane_waits_for_a_second_server_edit_retry() {
    let (mut app, mut outside) = test_app(vec![]);
    app.sftp = Some(SftpState::new("/srv", "/tmp"));
    app.active_tab = 1;
    app.remote_edit = Some(edit_of(EditSource::LeftRemote, RemoteEditPhase::RetryingEditor));
    app.sftp_tx2 = Some(WorkerLink::new());

    app.sftp_left_pane_to_local();
    outside.settle(&mut app);

    assert!(app.sftp_tx2.is_some(), "retry-phase edits lock the pane");
    assert!(app.remote_edit.is_some());
    assert!(notice(&app).contains("finish or discard the edit"));
}

#[test]
fn right_worker_ignores_edit_events_for_a_left_pane_edit() {
    let (mut app, _) = test_app(vec![]);
    app.sftp = Some(SftpState::new("/srv", "/tmp"));
    app.remote_edit = Some(edit_of(EditSource::LeftRemote, RemoteEditPhase::Downloading));

    app.apply_sftp_event(SftpEvent::EditError("right worker".into()));

    assert_eq!(
        app.remote_edit.as_ref().map(|edit| edit.phase),
        Some(RemoteEditPhase::Downloading)
    );
    assert!(app.sftp.as_ref().and_then(|state| state.notice.as_ref()).is_none());
}

#[test]
fn left_worker_applies_edit_events_for_a_left_pane_edit() {
    let (mut app, _) = test_app(vec![]);
    app.sftp = Some(SftpState::new("/srv", "/tmp"));
    app.remote_edit = Some(edit_of(EditSource::LeftRemote, RemoteEditPhase::Downloading));

    app.apply_sftp_event_left(SftpEvent::EditError("left worker".into()));

    assert_eq!(
        app.remote_edit.as_ref().map(|edit| edit.phase),
        Some(RemoteEditPhase::RetryingDownload)
    );
    assert!(notice(&app).contains("left worker"));
}

fn uploading(size: u64) -> RemoteEditState {
    RemoteEditState {
        stamp: Some(RemoteFileStamp { size, mtime: None, is_regular: true }),
        ..edit_of(EditSource::RightRemote, RemoteEditPhase::Uploading)
    }
}

#[test]
fn left_worker_ignores_edit_events_for_a_right_pane_edit() {
    let (mut app, _) = test_app(vec![]);
    app.sftp = Some(SftpState::new("/srv", "/tmp"));
    app.remote_edit = Some(uploading(12));

    app.apply_sftp_event_left(SftpEvent::EditUploaded(None));

    assert!(app.remote_edit.is_some(), "wrong worker must not finish the edit");
    assert_eq!(
        app.remote_edit.as_ref().map(|edit| edit.phase),
        Some(RemoteEditPhase::Uploading)
    );
    assert_eq!(app.sftp.as_ref().map(|state| state.phase), Some(Phase::Browsing));
}

#[test]
fn right_worker_applies_edit_events_for_a_right_pane_edit() {
    let (mut app, mut outside) = test_app(vec![]);
    app.sftp = Some(SftpState::new("/srv", "/tmp"));
    app.remote_edit = Some(uploading(12));

    app.apply_sftp_event(SftpEvent::EditUploaded(None));
    outside.settle(&mut app);

    assert!(app.remote_edit.is_none());
    assert!(notice(&app).contains("remote file updated"));
    assert_eq!(outside.dropped, vec!["/tmp/workspace".to_string()]);
}

#[test]
fn local_edit_finish_clears_state_without_an_upload() {
    let (mut app, _) = test_app(vec![]);
    app.sftp = Some(SftpState::new("/srv", "/tmp"));
    app.active_tab = 1;
    app.remote_edit = Some(RemoteEditState {
        remote_path: "/tmp/notes.txt".into(),
        local_path: "/tmp/notes.txt".into(),
        temp_dir: None,
        remote_mode: None,
        ..edit_of(EditSource::Local, RemoteEditPhase::Editing)
    });

    app.local_edit_finished();

    assert!(app.remote_edit.is_none());
    assert!(notice(&app).contains("local file edited"));
}

#[test]
fn disconnect_waits_for_an_active_edit_transfer() {
    let (mut app, mut outside) = test_app(vec![]);
    app.sftp = Some(SftpState::new("/srv", "/tmp"));
    app.active_tab = 1;
    app.remote_edit = Some(edit_of(EditSource::RightRemote, RemoteEditPhase::Downloading));

    press(&mut app, &mut outside, key(KeyCode::Esc));

    assert!(app.sftp.is_some(), "the active transfer must not be detached");
    assert!(app.remote_edit.is_some(), "the working copy must be retained");
    assert!(notice(&app).contains("wait for the edit transfer"));
}

fn app_with_retry_edit(phase: RemoteEditPhase) -> (App, Outside) {
    let (mut app, outside) = test_app(vec![]);
    app.sftp = Some(SftpState::new("/srv", "/tmp"));
    app.active_tab = 1;
    let stamp = if matches!(phase, RemoteEditPhase::Uploading | RemoteEditPhase::RetryingUpload) {
        Some(RemoteFileStamp { size: 14, mtime: Some(1), is_regular: true })
    } else {
        None
    };
    app.remote_edit = Some(RemoteEditState { stamp, ..edit_of(EditSource::RightRemote, phase) });
    (app, outside)
}

#[test]
fn disconnect_does_not_silently_discard_a_retrying_upload() {
    let (mut app, mut outside) = app_with_retry_edit(RemoteEditPhase::RetryingUpload);

    press(&mut app, &mut outside, key(KeyCode::Esc));

    assert!(app.sftp.is_some(), "Esc must not tear the session down over an unsaved edit");
    assert!(app.remote_edit.is_some(), "the edited working copy must be retained");
    assert_ne!(
        app.host_notice.as_deref(),
        Some("remote edit discarded"),
        "discarding an edited file must not be a silent toast"
    );
    assert_eq!(app.mode, AppMode::ConfirmDelete);
}

#[test]
fn disconnect_does_not_silently_discard_a_retrying_download() {
    let (mut app, mut outside) = app_with_retry_edit(RemoteEditPhase::RetryingDownload);

    press(&mut app, &mut outside, key(KeyCode::Esc));

    assert!(app.sftp.is_some(), "Esc must not detach a retryable download");
    assert!(app.remote_edit.is_some(), "the in-progress edit must be retained");
    assert_ne!(app.host_notice.as_deref(), Some("remote edit discarded"));
    assert_eq!(app.mode, AppMode::ConfirmDelete);
}

#[test]
fn confirming_discard_drops_the_retrying_upload() {
    let (mut app, mut outside) = app_with_retry_edit(RemoteEditPhase::RetryingUpload);

    press(&mut app, &mut outside, key(KeyCode::Esc));
    press(&mut app, &mut outside, key_char('y'));

    assert!(app.sftp.is_none(), "confirmed discard disconnects");
    assert!(app.remote_edit.is_none(), "confirmed discard drops the copy");
    assert_eq!(app.host_notice.as_deref(), Some("remote edit discarded"));
    assert_eq!(app.mode, AppMode::Normal);
    assert_eq!(outside.dropped, vec!["/tmp/workspace".to_string()]);
}

#[test]
fn cancelling_discard_keeps_the_retrying_upload() {
    let (mut app, mut outside) = app_with_retry_edit(RemoteEditPhase::RetryingUpload);

    press(&mut app, &mut outside, key(KeyCode::Esc));
    press(&mut app, &mut outside, key(KeyCode::Esc));

    assert!(app.sftp.is_some(), "cancel keeps the session");
    assert!(app.remote_edit.is_some(), "cancel keeps the edited working copy");
    assert_eq!(app.mode, AppMode::Normal);
    assert!(app.pending_delete.is_none());
    assert!(outside.dropped.is_empty());
}

#[test]
fn sftp_directory_change_stamps_its_direction() {
    let (mut app, _) = test_app(vec![]);
    app.sftp = Some(SftpState::new("/srv", "/home/me"));
    let still = |app: &App| app.motion.local_nav.is_none() && app.motion.remote_nav.is_none();

    // The first listing of a session is not a navigation.
    app.detect_sftp_navigation();
    assert!(still(&app));

    // Descending into a child is stamped as going deeper.
    app.sftp.as_mut().unwrap().local.cwd = "/home/me/work".into();
    app.detect_sftp_navigation();
    assert_eq!(app.motion.local_nav.map(|(deeper, _)| deeper), Some(true));
    assert!(app.motion.remote_nav.is_none(), "the other pane stays put");

    // Stepping back out goes the other way.
    app.sftp.as_mut().unwrap().local.cwd = "/home".into();
    app.detect_sftp_navigation();
    assert_eq!(app.motion.local_nav.map(|(deeper, _)| deeper), Some(false));

    // A remote listing landing later is stamped just the same.
    app.sftp.as_mut().unwrap().remote.cwd = "/srv/www".into();
    app.detect_sftp_navigation();
    assert_eq!(app.motion.remote_nav.map(|(deeper, _)| deeper), Some(true));

    // Disconnecting forgets the paths, so reconnecting isn't a navigation.
    app.sftp = None;
    app.detect_sftp_navigation();
    assert!(still(&app));
    app.sftp = Some(SftpState::new("/srv", "/home/me"));
    app.detect_sftp_navigation();
    assert!(still(&app));
}

fn relaying_app(name: &str, size: u64) -> (App, Outside) {
    let (mut app, outside) = test_app(vec![]);
    app.sftp_tx = Some(WorkerLink::new());
    app.sftp_tx2 = Some(WorkerLink::new());
    let mut state = SftpState::new("/srv", "/data");
    state.left_host = Some("second-host".into());
    state.remote.set_entries(vec![file(name, size, None)]);
    state.remote.selected = 1;
    app.sftp = Some(state);
    app.sftp.as_mut().unwrap().stage_toward(Side::Local).unwrap();
    (app, outside)
}

#[test]
fn server_to_server_transfer_relays_in_two_legs() {
    let (mut app, mut outside) = relaying_app("dump.sql", 42);
    app.sftp_run_queue();
    outside.settle(&mut app);
    let relay = app.sftp_relay.as_ref().expect("relay armed");
    assert_eq!(relay.leg, RelayLeg::Fetching);
    let scratch = relay.tmp_dir.clone();
    let tmp = format!("{scratch}/dump.sql");
    match &sent(&mut app.sftp_tx)[0] {
        SftpCommand::RunQueue(q) => {
            assert_eq!(q[0].direction, Direction::Download);
            assert_eq!(q[0].src, "/srv/dump.sql");
            assert_eq!(q[0].dst, tmp, "fetched into scratch space");
        }
        _ => panic!("expected a queue run"),
    }
    assert!(sent(&mut app.sftp_tx2).is_empty(), "destination waits its turn");

    app.apply_sftp_event(SftpEvent::QueueDone);
    outside.settle(&mut app);
    assert_eq!(app.sftp_relay.as_ref().unwrap().leg, RelayLeg::Pushing);
    match &sent(&mut app.sftp_tx2)[0] {
        SftpCommand::RunQueue(q) => {
            assert_eq!(q[0].direction, Direction::Upload);
            assert_eq!(q[0].src, tmp);
            assert_eq!(q[0].dst, "/data/dump.sql");
        }
        _ => panic!("expected a queue run"),
    }

    app.apply_sftp_event_left(SftpEvent::QueueDone);
    outside.settle(&mut app);
    assert!(app.sftp_relay.is_none(), "relay finished");
    let state = app.sftp.as_ref().unwrap();
    assert!(state.queue.is_empty(), "the relayed item left the queue");
    assert_eq!(state.phase, Phase::Browsing);
    assert_eq!(outside.scratch_removed, vec![tmp], "scratch copy cleaned up");
    assert_eq!(outside.dropped, vec![scratch], "scratch directory goes with the relay");
}

#[test]
fn failed_relay_leg_stops_and_keeps_the_item() {
    let (mut app, mut outside) = relaying_app("dump.sql", 42);
    app.sftp_run_queue();
    outside.settle(&mut app);

    app.apply_sftp_event(SftpEvent::Error("disk full".into()));
    assert!(app.sftp_relay.is_none(), "relay stopped");
    let state = app.sftp.as_ref().unwrap();
    assert_eq!(state.queue.len(), 1, "the item stays queued for a retry");
    assert_eq!(state.phase, Phase::Browsing);
    assert!(state.notice.as_deref().is_some_and(|n| n.contains("disk full")));
}

#[test]
fn failed_relay_is_not_restarted_by_the_trailing_completion() {
    let (mut app, mut outside) = relaying_app("test2.py", 7);
    app.sftp_run_queue();
    outside.settle(&mut app);
    sent(&mut app.sftp_tx);

    app.apply_sftp_event(SftpEvent::Error("write error".into()));
    app.apply_sftp_event(SftpEvent::QueueDone);
    outside.settle(&mut app);

    assert!(app.sftp_relay.is_none(), "no fresh relay armed");
    assert_eq!(
        app.sftp.as_ref().unwrap().phase,
        Phase::Browsing,
        "the browser settles instead of looking busy forever"
    );
    assert_eq!(app.sftp.as_ref().unwrap().queue.len(), 1, "the item stays for a manual retry");
}

#[test]
fn failed_run_does_not_dispatch_another_pass() {
    let (mut app, _) = test_app(vec![]);
    app.sftp_tx = Some(WorkerLink::new());
    let mut state = SftpState::new("/srv", "/data");
    state.remote.set_entries(vec![file("a.bin", 1, None)]);
    state.remote.selected = 1;
    app.sftp = Some(state);
    app.sftp.as_mut().unwrap().stage_toward(Side::Local).unwrap();
    app.sftp_run_queue();
    assert!(!sent(&mut app.sftp_tx).is_empty(), "the run went out");

    // Something is staged mid-run, then the run fails.
    app.sftp.as_mut().unwrap().queue.push(QueuedTransfer {
        direction: Direction::Download,
        src: "/srv/b.bin".into(),
        dst: "/data/b.bin".into(),
        name: "b.bin".into(),
        is_dir: false,
    });
    app.apply_sftp_event(SftpEvent::Error("permission denied".into()));
    app.apply_sftp_event(SftpEvent::QueueDone);
    let dispatched_again =
        sent(&mut app.sftp_tx).iter().any(|c| matches!(c, SftpCommand::RunQueue(_)));
    assert!(
        !dispatched_again,
        "a failed run waits for the user rather than dispatching another pass"
    );
}

#[test]
fn hidden_setting_round_trips_through_the_store() {
    let (mut app, mut outside) = test_app(vec![]);
    assert!(!app.sftp_show_hidden, "dotfiles start hidden");

    app.sftp = Some(SftpState::new("/srv", "/home/me"));
    app.active_tab = 1;
    press(&mut app, &mut outside, key_char('.'));
    assert!(app.sftp_show_hidden);
    assert!(app.sftp.as_ref().unwrap().local.show_hidden);
    assert!(app.sftp.as_ref().unwrap().remote.show_hidden);

    let (mut next, _) = test_app(vec![]);
    next.load_sftp_hidden(outside.settings.get(SFTP_HIDDEN_KEY).cloned());
    assert!(next.sftp_show_hidden, "setting did not survive the restart");
}

#[test]
fn dot_types_into_the_filter_instead_of_toggling() {
    let (mut app, mut outside) = test_app(vec![]);
    let mut state = SftpState::new("/srv", "/home/me");
    state.start_search();
    app.sftp = Some(state);
    app.active_tab = 1;

    for c in ".ss".chars() {
        press(&mut app, &mut outside, key_char(c));
    }

    let state = app.sftp.as_ref().unwrap();
    assert_eq!(state.remote.filter, ".ss", "the dot went into the filter");
    assert!(!app.sftp_show_hidden, "and did not flip the setting");
}

#[test]
fn host_entry_pairs_host_and_metadata() {
    let entry = HostEntry::new(SshHost::new("web"));
    assert_eq!(entry.name(), "web");
    if let HostEntry::Legacy { meta, .. } = &entry {
        assert_eq!(meta.host_name, "web");
    } else {
        panic!("expected legacy entry");
    }
}

#[test]
fn headless_auto_quit_q_sets_should_quit() {
    let (mut app, _) = test_app(vec![]);
    run_headless(&mut app, Some("q")).unwrap();
    assert!(app.should_quit);
}

#[test]
fn other_auto_quit_modes_do_nothing() {
    let (mut app, _) = test_app(vec![]);
    apply_auto_quit(&mut app, Some("later")).unwrap();
    apply_auto_quit(&mut app, None).unwrap();
    assert!(!app.should_quit);
    assert_eq!(
        run_headless(&mut app, None).unwrap_err(),
        "sshub requires an interactive terminal (use --dry-run or SSHUB_AUTO_QUIT for CI smoke)"
    );
}

#[test]
fn an_auto_quit_that_does_not_quit_is_an_error() {
    let (mut app, _) = test_app(vec![]);
    app.config.keybinds.set(KeyAction::Quit, vec!["x".into()]);
    assert_eq!(
        apply_auto_quit(&mut app, Some("q")).unwrap_err(),
        "auto-quit with 'q' did not set should_quit"
    );
}

#[test]
fn quitting_is_asked_about_and_can_be_refused() {
    let (mut app, mut outside) = test_app(vec![]);
    press(&mut app, &mut outside, key_char('q'));
    assert_eq!(app.mode, AppMode::ConfirmQuit);
    press(&mut app, &mut outside, key_char('n'));
    assert_eq!(app.mode, AppMode::Normal);
    assert!(!app.should_quit);
    press(&mut app, &mut outside, ctrl('c'));
    assert_eq!(app.mode, AppMode::ConfirmQuit);
    press(&mut app, &mut outside, ctrl('c'));
    assert!(app.should_quit);

    let (mut app, mut outside) = test_app(vec![]);
    app.config.appearance.confirm_quit = false;
    press(&mut app, &mut outside, key_char('q'));
    assert!(app.should_quit);
}

#[test]
fn keys_in_a_session_go_to_the_session() {
    let (mut app, mut outside) = test_app(vec![]);
    app.mode = AppMode::Session;
    press(&mut app, &mut outside, key_char('q'));
    assert_eq!(outside.tasks, vec![Task::SessionKey(key_char('q'))]);
    assert!(!app.should_quit);
}

#[test]
fn help_comes_and_goes_over_any_screen() {
    let (mut app, mut outside) = test_app(vec![]);
    app.active_tab = 1;
    app.sftp = Some(SftpState::new("/srv", "/tmp"));
    press(&mut app, &mut outside, key_char('?'));
    assert_eq!(app.mode, AppMode::Help);
    press(&mut app, &mut outside, key_char('x'));
    assert_eq!(app.help.query, "x");
    press(&mut app, &mut outside, key(KeyCode::Esc));
    assert_eq!(app.mode, AppMode::Help);
    press(&mut app, &mut outside, key(KeyCode::Esc));
    assert_eq!(app.mode, AppMode::Normal);
    assert!(app.sftp.is_some());
}

#[test]
fn number_keys_switch_tabs() {
    let (mut app, mut outside) = test_app(vec![]);
    press(&mut app, &mut outside, key_char('2'));
    assert_eq!(app.active_tab, 1);
    press(&mut app, &mut outside, key(KeyCode::Esc));
    assert_eq!(app.active_tab, 0);
    press(&mut app, &mut outside, key_char('5'));
    assert_eq!(app.active_tab, 4);
    assert_eq!(outside.tasks, vec![Task::RefreshAuditEvents]);
}

#[test]
fn the_selection_goes_round() {
    let (mut app, mut outside) = test_app(vec![host("alpha"), host("bravo"), host("charlie")]);
    press(&mut app, &mut outside, key_char('k'));
    assert_eq!(app.selected, 2);
    press(&mut app, &mut outside, key_char('j'));
    assert_eq!(app.selected, 0);
    app.move_selection(5);
    assert_eq!(app.selected, 2);
    app.move_selection(-5);
    assert_eq!(app.selected, 0);
}

#[test]
fn a_zoomed_panel_keeps_the_hidden_selection() {
    let (mut app, mut outside) = test_app(vec![host("alpha"), host("bravo")]);
    app.panels.focused = PanelId::Auth;
    app.panels.zoomed = true;
    press(&mut app, &mut outside, key_char('j'));
    assert_eq!(app.selected, 0);
    assert_eq!(app.panels.scroll, 1);
    press(&mut app, &mut outside, key(KeyCode::Esc));
    assert!(!app.panels.zoomed);
}

#[test]
fn settings_are_flipped_and_saved() {
    let (mut app, mut outside) = test_app(vec![]);
    app.mode = AppMode::Settings;
    // The theme row is first; the fifth switch turns animation off.
    for _ in 0..5 {
        press(&mut app, &mut outside, key_char('j'));
    }
    assert_eq!(app.settings_selected, 5);
    press(&mut app, &mut outside, key(KeyCode::Enter));
    assert!(app.config.appearance.disable_animation);
    assert_eq!(outside.tasks, vec![Task::SaveConfig]);
    press(&mut app, &mut outside, key_char(' '));
    assert!(!app.config.appearance.disable_animation);
    app.config_saved(Err("read-only".into()));
    assert_eq!(app.host_notice.as_deref(), Some("Could not save config: read-only"));
    press(&mut app, &mut outside, key(KeyCode::Esc));
    assert_eq!(app.mode, AppMode::Normal);
}

#[test]
fn keys_are_rebound_by_pressing_them() {
    let (mut app, mut outside) = test_app(vec![]);
    press(&mut app, &mut outside, ctrl('k'));
    assert_eq!(app.mode, AppMode::KeybindEditor);
    for c in "forcequit".chars() {
        press(&mut app, &mut outside, key_char(c));
    }
    assert_eq!(app.filtered_keybind_actions(), vec![KeyAction::ForceQuit]);
    press(&mut app, &mut outside, key(KeyCode::Enter));
    press(&mut app, &mut outside, ctrl('x'));
    assert_eq!(app.config.keybinds.binds(KeyAction::ForceQuit), vec!["Ctrl+X".to_string()]);
    // Adding keeps what is there, resetting brings the default back.
    press(&mut app, &mut outside, ctrl('a'));
    press(&mut app, &mut outside, key(KeyCode::F(9)));
    assert_eq!(
        app.config.keybinds.binds(KeyAction::ForceQuit),
        vec!["Ctrl+X".to_string(), "F9".to_string()]
    );
    press(&mut app, &mut outside, ctrl('r'));
    assert_eq!(app.config.keybinds.binds(KeyAction::ForceQuit), vec!["Ctrl+C".to_string()]);
    assert_eq!(app.save_key_label(), "Ctrl+S");
}

#[test]
fn staged_files_go_on_running_after_the_queue() {
    let (mut app, _) = test_app(vec![]);
    app.sftp_tx = Some(WorkerLink::new());
    let mut state = SftpState::new("/srv", "/data");
    state.remote.set_entries(vec![file("a.bin", 1, None), file("b.bin", 1, None)]);
    state.remote.selected = 1;
    app.sftp = Some(state);
    app.sftp.as_mut().unwrap().stage_toward(Side::Local).unwrap();
    app.sftp_run_queue();
    app.sftp.as_mut().unwrap().remote.selected = 2;
    app.sftp.as_mut().unwrap().stage_toward(Side::Local).unwrap();
    sent(&mut app.sftp_tx);

    app.apply_sftp_event(SftpEvent::QueueDone);
    let commands = sent(&mut app.sftp_tx);
    assert!(commands.iter().any(|c| matches!(
        c,
        SftpCommand::RunQueue(q) if q.len() == 1 && q[0].name == "b.bin"
    )));
    assert_eq!(app.sftp.as_ref().unwrap().phase, Phase::Running);
}

#[test]
fn relay_progress_fills_a_half_per_leg() {
    let (mut app, mut outside) = relaying_app("dump.sql", 42);
    app.sftp_run_queue();
    outside.settle(&mut app);
    app.apply_sftp_event(SftpEvent::Progress { index: 0, total: 1, transferred: 50, size: 100 });
    let progress = app.sftp.as_ref().unwrap().progress.as_ref().unwrap();
    assert_eq!((progress.transferred, progress.size), (250, 1000));
    app.apply_sftp_event(SftpEvent::QueueDone);
    app.apply_sftp_event_left(SftpEvent::Progress {
        index: 0,
        total: 1,
        transferred: 100,
        size: 100,
    });
    let progress = app.sftp.as_ref().unwrap().progress.as_ref().unwrap();
    assert_eq!((progress.transferred, progress.size), (1000, 1000));
}

#[test]
fn an_edit_runs_from_download_to_upload() {
    let (mut app, mut outside) = test_app(vec![]);
    outside.editors = true;
    outside.visual = Some("vim -f".into());
    let mut state = SftpState::new("/srv", "/tmp");
    state.remote.set_entries(vec![file("notes.txt", 12, Some(0o640))]);
    state.remote.selected = 1;
    app.sftp = Some(state);
    app.sftp_tx = Some(WorkerLink::new());
    app.active_tab = 1;
    press(&mut app, &mut outside, key_char('e'));
    sent(&mut app.sftp_tx);
    let stamp = RemoteFileStamp { size: 12, mtime: Some(7), is_regular: true };

    app.apply_sftp_event(SftpEvent::EditDownloaded(stamp));
    outside.settle(&mut app);
    assert_eq!(
        outside.spawned,
        vec![vec![
            "vim".to_string(),
            "-f".to_string(),
            "/tmp/workspace-1/notes.txt".to_string()
        ]]
    );
    assert_eq!(app.sessions.len(), 1);
    assert_eq!(app.sessions[0].display_name, "edit: notes.txt");

    app.sessions[0].exited = Some("success".into());
    app.tick_remote_edit();
    outside.settle(&mut app);
    assert!(app.sessions.is_empty());
    assert_eq!(
        sent(&mut app.sftp_tx),
        vec![SftpCommand::EditUpload {
            local: "/tmp/workspace-1/notes.txt".into(),
            remote: "/srv/notes.txt".into(),
            expected: stamp,
            mode: Some(0o640),
        }]
    );
    assert_eq!(notice(&app), "uploading edited file");

    app.apply_sftp_event(SftpEvent::EditUploaded(None));
    outside.settle(&mut app);
    assert!(app.remote_edit.is_none());
    assert_eq!(outside.dropped, vec!["/tmp/workspace-1".to_string()]);
}

#[test]
fn a_failed_upload_is_retried_with_the_same_stamp() {
    let (mut app, mut outside) = app_with_retry_edit(RemoteEditPhase::RetryingUpload);
    app.sftp_tx = Some(WorkerLink::new());
    press(&mut app, &mut outside, key_char('e'));
    let commands = sent(&mut app.sftp_tx);
    assert!(matches!(
        &commands[0],
        SftpCommand::EditUpload { expected, .. }
            if *expected == RemoteFileStamp { size: 14, mtime: Some(1), is_regular: true }
    ));
    app.apply_sftp_event(SftpEvent::EditError("changed".into()));
    assert_eq!(notice(&app), "changed — press e to retry");
    assert_eq!(
        app.remote_edit.as_ref().map(|edit| edit.phase),
        Some(RemoteEditPhase::RetryingUpload)
    );
}

#[test]
fn a_local_edit_survives_disconnecting() {
    let (mut app, mut outside) = test_app(vec![]);
    app.sftp = Some(SftpState::new("/srv", "/tmp"));
    app.active_tab = 1;
    app.remote_edit = Some(edit_of(EditSource::Local, RemoteEditPhase::RetryingEditor));
    press(&mut app, &mut outside, key(KeyCode::Esc));
    assert!(app.sftp.is_none());
    assert!(app.remote_edit.is_some());
}

#[test]
fn a_server_that_cannot_be_reached_is_told_loudly() {
    let (mut app, mut outside) = test_app(vec![host("alpha")]);
    app.active_tab = 1;
    press(&mut app, &mut outside, key(KeyCode::Enter));
    assert!(app.sftp.as_ref().unwrap().connecting);
    app.apply_sftp_event(SftpEvent::ConnectFailed("refused".into()));
    assert!(app.sftp.is_none());
    assert_eq!(app.mode, AppMode::Notice);
    assert_eq!(app.notice_popup.as_deref(), Some("Could not connect to alpha:\nrefused"));
    press(&mut app, &mut outside, key_char('x'));
    assert_eq!(app.mode, AppMode::Normal);
}

#[test]
fn hosts_behind_a_jump_are_not_connected_to() {
    let mut behind = SshHost::new("inner");
    behind.proxy_jump = Some("bastion".into());
    let (mut app, mut outside) = test_app(vec![HostEntry::new(behind)]);
    app.sftp_connect_to(0);
    outside.settle(&mut app);
    assert!(app.sftp.is_none());
    assert_eq!(
        app.host_notice.as_deref(),
        Some("SFTP via ProxyJump isn't supported yet — pick a direct host.")
    );
}

#[test]
fn prompts_check_names_and_modes() {
    let (mut app, mut outside) = test_app(vec![]);
    let mut state = SftpState::new("/srv", "/tmp");
    state.remote.set_entries(vec![file("run.sh", 1, Some(0o100644))]);
    state.remote.selected = 1;
    app.sftp = Some(state);
    app.sftp_tx = Some(WorkerLink::new());
    app.active_tab = 1;

    press(&mut app, &mut outside, key_char('M'));
    assert_eq!(app.sftp_prompt.as_ref().unwrap().value, "644");
    press(&mut app, &mut outside, key_char('9'));
    press(&mut app, &mut outside, key(KeyCode::Enter));
    assert_eq!(
        app.sftp_prompt.as_ref().unwrap().error.as_deref(),
        Some("enter octal permissions, e.g. 755")
    );
    press(&mut app, &mut outside, key(KeyCode::Backspace));
    press(&mut app, &mut outside, key(KeyCode::Enter));
    assert_eq!(sent(&mut app.sftp_tx), vec![SftpCommand::Chmod("/srv/run.sh".into(), 0o644)]);
    assert_eq!(app.mode, AppMode::Normal);

    app.sftp_open_prompt(SftpPromptKind::Mkdir);
    for c in "a/b".chars() {
        press(&mut app, &mut outside, key_char(c));
    }
    press(&mut app, &mut outside, key(KeyCode::Enter));
    assert_eq!(
        app.sftp_prompt.as_ref().unwrap().error.as_deref(),
        Some("enter a name without '/'")
    );
    press(&mut app, &mut outside, key(KeyCode::Esc));
    assert!(app.sftp_prompt.is_none());

    app.sftp_open_prompt(SftpPromptKind::Mkdir);
    for c in ".cache".chars() {
        press(&mut app, &mut outside, key_char(c));
    }
    press(&mut app, &mut outside, key(KeyCode::Enter));
    assert_eq!(sent(&mut app.sftp_tx), vec![SftpCommand::Mkdir("/srv/.cache".into())]);
    assert_eq!(notice(&app), ".cache is hidden — press . to show dotfiles");
}

#[test]
fn local_renames_do_not_overwrite() {
    let (mut app, mut outside) = test_app(vec![]);
    let mut state = SftpState::new("/srv", "/home/me");
    state.focus = Focus::Local;
    state.local.set_entries(vec![file("a", 1, None)]);
    state.local.selected = 1;
    app.sftp = Some(state);
    app.active_tab = 1;
    press(&mut app, &mut outside, key_char('R'));
    press(&mut app, &mut outside, key_char('b'));
    press(&mut app, &mut outside, key(KeyCode::Enter));
    assert_eq!(outside.local, vec![Effect::ProbeLocal("/home/me/ab".into())]);
    app.sftp_rename_probed(true);
    assert_eq!(
        app.sftp_prompt.as_ref().unwrap().error.as_deref(),
        Some("ab already exists")
    );
    app.sftp_rename_probed(false);
    outside.settle(&mut app);
    assert_eq!(
        outside.local[1],
        Effect::LocalRename { from: "/home/me/a".into(), to: "/home/me/ab".into() }
    );
}

#[test]
fn deletions_are_confirmed_first() {
    let (mut app, mut outside) = test_app(vec![]);
    let mut state = SftpState::new("/srv", "/tmp");
    state.remote.set_entries(vec![file("old", 1, None)]);
    state.remote.selected = 1;
    app.sftp = Some(state);
    app.sftp_tx = Some(WorkerLink::new());
    app.active_tab = 1;
    press(&mut app, &mut outside, key_char('d'));
    assert!(matches!(
        &app.pending_delete,
        Some(PendingDelete::SftpEntry { path, .. }) if path == "/srv/old"
    ));
    press(&mut app, &mut outside, key_char('n'));
    assert!(sent(&mut app.sftp_tx).is_empty());
    press(&mut app, &mut outside, key_char('d'));
    press(&mut app, &mut outside, key_char('y'));
    assert_eq!(sent(&mut app.sftp_tx), vec![SftpCommand::Remove("/srv/old".into(), false)]);
    assert!(app.sftp.as_ref().unwrap().remote.entries.iter().all(|e| e.name != "old"));
}

#[test]
fn panes_are_walked_and_filtered() {
    let (mut app, mut outside) = test_app(vec![]);
    let mut state = SftpState::new("/srv", "/home/me");
    let dir = FileEntry { is_dir: true, ..file("www", 0, None) };
    state.remote.set_entries(vec![dir, file(".env", 1, None), file("Notes", 1, None)]);
    app.sftp = Some(state);
    app.sftp_tx = Some(WorkerLink::new());
    app.active_tab = 1;
    // The row that leads up, the directory and the file; the dotfile is hidden.
    assert_eq!(app.sftp.as_ref().unwrap().remote.visible_count(), 3);
    press(&mut app, &mut outside, key_char('j'));
    press(&mut app, &mut outside, key(KeyCode::Enter));
    assert_eq!(
        sent(&mut app.sftp_tx),
        vec![SftpCommand::ListDir(Side::Remote, "/srv/www".into())]
    );
    press(&mut app, &mut outside, key(KeyCode::Backspace));
    assert_eq!(sent(&mut app.sftp_tx), vec![SftpCommand::ListDir(Side::Remote, "/".into())]);
    press(&mut app, &mut outside, key_char('/'));
    for c in "NOT".chars() {
        press(&mut app, &mut outside, key_char(c));
    }
    let names: Vec<String> = app
        .sftp
        .as_ref()
        .unwrap()
        .remote
        .visible_entries()
        .into_iter()
        .map(|e| e.name)
        .collect();
    assert_eq!(names, vec!["..".to_string(), "Notes".to_string()]);
    press(&mut app, &mut outside, key(KeyCode::Tab));
    assert_eq!(app.sftp.as_ref().unwrap().focus, Focus::Remote, "a search keeps the focus");
}

#[test]
fn staging_is_taken_back_and_a_run_takes_only_what_was_sent() {
    let mut state = SftpState::new("/srv", "/home/me");
    state.remote.set_entries(vec![file("a", 1, None), file("b", 1, None)]);
    state.remote.selected = 1;
    state.focus = Focus::Remote;
    state.stage_toward(Side::Local).unwrap();
    let first = state.queue.clone();
    assert_eq!(first[0].src, "/srv/a");
    assert_eq!(first[0].dst, "/home/me/a");
    assert_eq!(first[0].direction, Direction::Download);
    state.move_selection(true);
    state.stage_toward(Side::Local).unwrap();
    assert_eq!(state.queue.len(), 2);
    state.unstage_last();
    assert_eq!(state.queue, first);
    assert!(state.stage_toward(Side::Remote).is_err(), "the keyboard is in that pane");
    // Staged while a run is under way: it waits for the next one.
    state.running = first;
    state.stage_toward(Side::Local).unwrap();
    assert!(state.finish_run());
    let left: Vec<&str> = state.queue.iter().map(|t| t.name.as_str()).collect();
    assert_eq!(left, vec!["b"]);
    assert!(state.running.is_empty());
}

#[test]
fn the_selection_stays_on_a_row() {
    let mut state = SftpState::new("/srv", "/home/me");
    state.focus = Focus::Remote;
    state.remote.set_entries(vec![file("a", 1, None), file(".b", 1, None)]);
    assert!(state.toggle_hidden());
    state.move_selection(true);
    state.move_selection(true);
    state.move_selection(true);
    assert_eq!(state.remote.selected_entry().unwrap().name, ".b");
    assert!(!state.toggle_hidden());
    assert_eq!(state.remote.selected_entry().unwrap().name, "a");
    state.remote.set_entries(vec![]);
    assert_eq!(state.remote.selected_entry().unwrap().name, "..");
}

#[test]
fn the_ssh_log_is_bounded_and_cleared_of_chatter() {
    let (mut app, _) = test_app(vec![]);
    let line = |host: &str, line: &str| SshLogEntry {
        host_name: host.into(),
        line: line.into(),
        level: LogLevel::Info,
        timestamp: 0,
    };
    for i in 0..250 {
        app.push_ssh_log(line("web", &format!("debug {i}")));
    }
    assert_eq!(app.ssh_log.len(), 200);
    assert_eq!(app.ssh_log[0].line, "debug 50");
    app.push_ssh_log(line("web", "$ ssh web"));
    app.push_ssh_log(line("db", "debug"));
    app.clear_ssh_log_for_host("web");
    let left: Vec<&str> = app.ssh_log.iter().map(|e| e.line.as_str()).collect();
    assert_eq!(left, vec!["$ ssh web", "debug"]);
}

#[test]
fn zoom_is_clamped_and_remembered() {
    let (mut app, mut outside) = test_app(vec![]);
    app.set_ui_zoom(9);
    outside.settle(&mut app);
    assert_eq!(app.ui_zoom, 3);
    assert_eq!(app.name_col_width(), 14 + 3 * 8);
    let (key, value) = outside.settings.iter().next().map(|(k, v)| (k.clone(), v.clone())).unwrap();
    assert!(!key.is_empty());
    let (mut next, _) = test_app(vec![]);
    next.load_ui_zoom(Some(value), None);
    assert_eq!(next.ui_zoom, 3);
    next.load_ui_zoom(Some("nonsense".into()), None);
    assert!(next.ui_zoom <= 3);
}

#[test]
fn reserved_groups_stand_apart() {
    let (mut app, _) = test_app(vec![]);
    let group = |id: i64, reserved: bool| HostGroup {
        id,
        name: format!("g{id}"),
        parent_id: None,
        sort_order: 0,
        reserved,
    };
    app.load_groups(vec![group(1, false), group(2, true), group(3, false)]);
    assert_eq!(app.groups.len(), 2);
    assert_eq!(app.favorites_group.as_ref().map(|g| g.id), Some(2));
    assert_eq!(app.tree_groups().len(), 3);
}

#[test]
fn tab_switches_slide_unless_motion_is_off() {
    let times = AnimTimes { session: 200, fold: 200, tab: 200, sftp: 200, popup: 200 };
    let (mut app, _) = test_app(vec![]);
    app.active_tab = 1;
    app.detect_tab_switch(times);
    assert_eq!(app.motion.tab_switch.map(|s| (s.from, s.to)), Some((0, 1)));

    let (mut app, _) = test_app(vec![]);
    app.config.appearance.disable_animation = true;
    app.active_tab = 1;
    app.detect_tab_switch(AnimTimes { session: 200, fold: 200, tab: 200, sftp: 200, popup: 200 });
    assert!(app.motion.tab_switch.is_none());
}

#[test]
fn sessions_are_promoted_once_they_run() {
    let (mut app, _) = test_app(vec![]);
    app.sessions.push(SessionInfo { display_name: "web".into(), exited: None });
    app.active_session = Some(0);
    app.mode = AppMode::Connecting;
    app.promote_session(false);
    assert_eq!(app.mode, AppMode::Connecting);
    app.promote_session(true);
    assert_eq!(app.mode, AppMode::Session);
}

#[test]
fn events_of_a_torn_down_session_change_nothing() {
    let build = || {
        let (mut app, _) = test_app(vec![]);
        app.sftp_tx = Some(WorkerLink::new());
        app.sftp_swallow_done = 2;
        app
    };
    let events = || {
        vec![
            SftpEvent::Connected,
            SftpEvent::ConnectFailed("refused".into()),
            SftpEvent::DirListing(Side::Remote, "/srv".into(), vec![]),
            SftpEvent::EditError("late".into()),
            SftpEvent::Progress { index: 0, total: 1, transferred: 1, size: 2 },
            SftpEvent::TransferDone(0),
            SftpEvent::QueueDone,
            SftpEvent::OpDone,
            SftpEvent::Error("late".into()),
        ]
    };
    for event in events() {
        let mut app = build();
        app.apply_sftp_event(event);
        assert_eq!(app, build());
    }
}

#[test]
fn what_was_staged_during_a_failed_run_stays_queued() {
    let (mut app, _) = test_app(vec![]);
    let mut state = SftpState::new("/srv", "/data");
    state.remote.set_entries(vec![file("a.bin", 1, None), file("b.bin", 1, None)]);
    state.remote.selected = 1;
    state.stage_toward(Side::Local).unwrap();
    app.sftp = Some(state);
    app.sftp_tx = Some(WorkerLink::new());
    app.sftp_run_queue();
    let browser = app.sftp.as_mut().unwrap();
    assert_eq!(browser.phase, Phase::Running);
    browser.remote.selected = 2;
    browser.stage_toward(Side::Local).unwrap();
    sent(&mut app.sftp_tx);
    app.apply_sftp_event(SftpEvent::Error("denied".into()));
    app.apply_sftp_event(SftpEvent::QueueDone);
    let browser = app.sftp.as_ref().unwrap();
    assert_eq!(browser.phase, Phase::Browsing);
    let left: Vec<&str> = browser.queue.iter().map(|t| t.name.as_str()).collect();
    assert_eq!(left, vec!["b.bin"]);
    assert!(sent(&mut app.sftp_tx).iter().all(|c| matches!(c, SftpCommand::ListDir(..))));
}

#[test]
fn a_worker_that_is_gone_gets_nothing_and_whoever_asked_is_told() {
    let (mut app, mut outside) = test_app(vec![]);
    app.sftp = Some(SftpState::new("/srv", "/tmp"));
    app.sftp_tx = Some(WorkerLink::new());
    app.active_tab = 1;
    app.sftp_open_prompt(SftpPromptKind::Mkdir);
    press(&mut app, &mut outside, key_char('n'));
    app.workers_seen(false, true);
    press(&mut app, &mut outside, key(KeyCode::Enter));
    assert_eq!(app.sftp_prompt.as_ref().unwrap().error.as_deref(), Some("not connected"));
    assert!(sent(&mut app.sftp_tx).is_empty());
    // It does not come back.
    app.workers_seen(true, true);
    press(&mut app, &mut outside, key(KeyCode::Enter));
    assert!(sent(&mut app.sftp_tx).is_empty());
    app.remote_edit = Some(edit_of(EditSource::RightRemote, RemoteEditPhase::RetryingDownload));
    app.sftp_prompt = None;
    app.mode = AppMode::Normal;
    press(&mut app, &mut outside, key_char('e'));
    assert_eq!(notice(&app), "SFTP is not connected — download not sent — press e to retry");
}

#[test]
fn a_key_push_is_told_once_when_it_ends() {
    let ok = || Some("success".to_string());
    assert_eq!(session_news(false, true, false, false, true, None), (true, false, None));
    assert_eq!(session_news(true, true, true, false, true, ok()), (false, true, ok()));
    assert_eq!(session_news(true, true, true, true, true, ok()), (false, true, None));
    assert_eq!(session_news(true, false, true, false, false, ok()), (false, true, None));
    assert_eq!(
        session_news(false, false, true, false, true, None),
        (false, true, Some("fail".to_string()))
    );
}
