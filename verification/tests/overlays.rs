//! The overlays of the application: the palette, pushing a key, known hosts and
//! what is deleted from the lists.

use sshub::app::effects::{Effect, Task};
use sshub::app::keys::{HostDeletion, IdentityDeletion};
use sshub::app::settings::{SettingItem, SettingToggle};
use sshub::app::state::{
    AppConfig, AppMode, Appearance, KnownHost, NavRow, PendingDelete, SessionInfo,
};
use sshub::app::App;
use sshub::hosts::{HostEntry, Identity, SshHost};
use sshub::keybinds::{Binding, KeyAction, KeyCode, KeyEvent, KeyModifiers, Keybinds};

fn app() -> App {
    let bind = |action: KeyAction, spec: &str| Binding {
        action,
        label: format!("{action:?}"),
        specs: vec![spec.to_string()],
        defaults: vec![spec.to_string()],
    };
    let mut app = App::new(
        AppConfig {
            keybinds: Keybinds {
                rows: vec![
                    bind(KeyAction::Cancel, "Esc"),
                    bind(KeyAction::ConfirmYes, "y"),
                    bind(KeyAction::ConfirmNo, "n"),
                    bind(KeyAction::Connect, "Enter"),
                    bind(KeyAction::MoveDown, "Down"),
                    bind(KeyAction::MoveUp, "Up"),
                    bind(KeyAction::Search, "/"),
                    bind(KeyAction::PushKey, "Shift+P"),
                    bind(KeyAction::KnownHostsDelete, "Ctrl+D"),
                    bind(KeyAction::KnownHostsRefresh, "Ctrl+R"),
                ],
            },
            appearance: Appearance {
                transparent_sshub_background: false,
                transparent_session_background: false,
                os_logo: true,
                confirm_quit: true,
                disable_animation: true,
            },
            session_logging: false,
        },
        10_000_000,
    );
    app.reload_hosts(
        vec![HostEntry::new(SshHost::new("alpha")), HostEntry::new(SshHost::new("bravo"))],
        vec![],
    );
    app.take_effects();
    app.nav_rows = vec![NavRow::Host(0), NavRow::Host(1)];
    app
}

fn key(code: KeyCode) -> KeyEvent {
    KeyEvent::new(code, KeyModifiers::empty())
}

fn ctrl(c: char) -> KeyEvent {
    KeyEvent::new(KeyCode::Char(c), KeyModifiers { control: true, ..KeyModifiers::empty() })
}

fn identity(name: &str, private_key: Option<&str>, has_password: bool) -> Identity {
    Identity {
        id: 4,
        name: name.into(),
        username: None,
        private_key: private_key.map(str::to_string),
        certificate: None,
        has_password,
    }
}

#[test]
fn the_palette_reveals_what_was_picked() {
    let mut app = app();
    app.handle_key(key(KeyCode::Char('/')));
    assert_eq!(app.mode, AppMode::Palette);
    app.take_effects();
    app.handle_key(key(KeyCode::Char('b')));
    assert_eq!(app.palette.query, "b");
    assert_eq!(app.take_effects(), vec![Effect::Do(Task::SearchPalette)]);
    app.palette_searched(vec![1, 0], false);
    app.handle_key(key(KeyCode::Down));
    app.handle_key(key(KeyCode::Down));
    assert_eq!(app.palette.selected, 1);
    app.handle_key(key(KeyCode::Enter));
    assert_eq!(app.mode, AppMode::Normal);
    assert_eq!(app.take_effects(), vec![Effect::Do(Task::RevealAndConnect(0))]);
}

#[test]
fn the_palette_offers_unsaved_hosts_last() {
    let mut app = app();
    app.mode = AppMode::Palette;
    app.palette_searched(vec![], true);
    app.handle_key(key(KeyCode::Enter));
    assert_eq!(app.take_effects(), vec![Effect::Do(Task::ConnectAdhoc)]);
    assert!(!app.palette.adhoc);
}

#[test]
fn pushing_a_key_reads_it_and_runs_a_session() {
    let mut app = app();
    app.trigger_push_key_from_hosts();
    assert_eq!(app.take_effects(), vec![Effect::Do(Task::LoadPushIdentities)]);
    app.push_identities_loaded(vec![
        identity("login", None, false),
        identity("work", Some("/keys/work"), true),
    ]);
    assert_eq!(app.mode, AppMode::PushKeyIdentityPicker);
    assert_eq!(app.push_key_identities(), vec![1]);
    app.handle_key(key(KeyCode::Enter));
    let effects = app.take_effects();
    assert!(matches!(
        &effects[0],
        Effect::ReadPublicKey { host: 0, identity, key_path, secret: Some(_) }
            if identity == "work" && key_path == "/keys/work"
    ));

    app.push_key_read(0, "work".into(), Ok("ssh-ed25519 AAAA it's".into()));
    let effects = app.take_effects();
    assert!(matches!(
        &effects[0],
        Effect::PreparePush { remote_cmd, .. }
            if remote_cmd.contains("key='ssh-ed25519 AAAA it'\\''s' &&")
    ));

    app.terminal_rows = 24;
    app.terminal_cols = 80;
    let argv: Vec<String> = vec!["ssh".into(), "alpha".into()];
    app.push_key_prepared(0, "work".into(), argv, true, "auth: stored".into(), true, 7);
    let effects = app.take_effects();
    let spawned = effects
        .iter()
        .find_map(|e| match e {
            Effect::SpawnPush { argv, .. } => Some(argv.clone()),
            _ => None,
        })
        .expect("the push runs");
    assert_eq!(
        spawned,
        vec!["ssh", "-o", "StrictHostKeyChecking=accept-new", "-v", "alpha"]
    );
    app.push_key_spawned(
        0,
        "work".into(),
        Ok(SessionInfo { display_name: "push".into(), exited: None }),
        8,
    );
    assert_eq!(app.sessions.len(), 1);
}

#[test]
fn a_key_needs_a_target_and_a_key() {
    let mut app = app();
    app.nav_rows = vec![];
    app.trigger_push_key_from_hosts();
    assert_eq!(
        app.host_notice.as_deref(),
        Some("Select a host row first — a group header has no key target.")
    );
    app.push_identities_loaded(vec![identity("login", None, false)]);
    assert_eq!(
        app.host_notice.as_deref(),
        Some("No key identities available — generate or add one first.")
    );
    app.trigger_push_key_from_keys();
    assert_eq!(app.identity_notice.as_deref(), Some("Cannot push a password-only identity."));
    app.identities.clear();
    app.trigger_push_key_from_keys();
    assert_eq!(app.identity_notice.as_deref(), Some("No identity selected."));
}

#[test]
fn the_host_picker_searches_all_hosts() {
    let mut app = app();
    app.identities = vec![identity("work", Some("/k"), false)];
    app.trigger_push_key_from_keys();
    assert_eq!(app.mode, AppMode::PushKeyHostPicker);
    assert_eq!(app.push_key_host_matches().len(), 2);
    app.handle_key(key(KeyCode::Char('b')));
    assert_eq!(app.take_effects(), vec![Effect::Do(Task::MatchPushHosts)]);
    app.push_hosts_matched(vec![1]);
    assert_eq!(app.push_key_host_matches(), vec![(1, "bravo  bravo".to_string())]);
    app.handle_key(key(KeyCode::Enter));
    assert!(matches!(
        &app.take_effects()[0],
        Effect::ReadPublicKey { host: 1, secret: None, .. }
    ));
}

#[test]
fn the_host_picker_follows_the_hosts_there_are() {
    let mut app = app();
    assert_eq!(app.push_key_host_matches().len(), 2, "no picker is open");
    app.identities = vec![identity("work", Some("/k"), false)];
    app.trigger_push_key_from_keys();
    let named = |names: &[&str]| {
        names.iter().map(|name| HostEntry::new(SshHost::new(name))).collect::<Vec<HostEntry>>()
    };
    app.reload_hosts(named(&["alpha", "bravo", "charlie"]), vec![]);
    assert_eq!(app.push_key_host_matches().len(), 3);
    app.handle_key(key(KeyCode::Char('c')));
    app.push_hosts_matched(vec![2]);
    assert_eq!(app.push_key_host_matches()[0].0, 2);
    app.take_effects();
    // Fewer hosts: what matched before is looked up again.
    app.reload_hosts(named(&["charlie"]), vec![]);
    assert!(app.push_key_host_matches().is_empty());
    assert_eq!(app.take_effects().last(), Some(&Effect::Do(Task::MatchPushHosts)));
    app.push_hosts_matched(vec![0, 7]);
    assert_eq!(app.push_key_host_matches(), vec![(0, "charlie  charlie".to_string())]);
}

#[test]
fn an_unreadable_known_hosts_file_is_named() {
    let mut app = app();
    app.known_hosts_loaded("/home/me/.ssh/known_hosts", Err("denied".into()));
    assert_eq!(
        app.known_hosts.as_ref().unwrap().notice.as_deref(),
        Some("Could not read /home/me/.ssh/known_hosts: denied")
    );
}

fn known(hosts: &str, block_reason: Option<&str>) -> KnownHost {
    KnownHost { hosts: hosts.into(), block_reason: block_reason.map(str::to_string) }
}

#[test]
fn known_hosts_are_filtered_and_removed() {
    let mut app = app();
    app.open_known_hosts();
    assert_eq!(app.take_effects(), vec![Effect::Do(Task::LoadKnownHosts)]);
    app.known_hosts_loaded("/home/me/.ssh/known_hosts", Ok(vec![
        known("alpha.example.com", None),
        known("|1|hash", Some("hashed")),
    ]));
    assert_eq!(app.mode, AppMode::KnownHosts);
    for c in "ALPHA".chars() {
        app.handle_key(key(KeyCode::Char(c)));
    }
    assert_eq!(app.known_hosts.as_ref().unwrap().filtered_indices(), vec![0]);
    app.handle_key(ctrl('d'));
    assert!(app.known_hosts.as_ref().unwrap().confirming_delete);
    app.handle_key(key(KeyCode::Char('y')));
    assert_eq!(
        app.take_effects(),
        vec![Effect::RemoveKnownHost("alpha.example.com".into())]
    );
    app.known_host_removed("alpha.example.com".into(), Ok(Ok(vec![])));
    assert_eq!(
        app.known_hosts.as_ref().unwrap().notice.as_deref(),
        Some("Removed all keys for alpha.example.com")
    );
    app.handle_key(key(KeyCode::Esc));
    app.handle_key(key(KeyCode::Esc));
    assert!(app.known_hosts.is_none());
}

#[test]
fn blocked_known_hosts_say_why() {
    let mut app = app();
    app.known_hosts_loaded("/home/me/.ssh/known_hosts", Ok(vec![known("|1|hash", Some("hashed"))]));
    app.handle_key(ctrl('d'));
    let state = app.known_hosts.as_ref().unwrap();
    assert!(!state.confirming_delete);
    assert_eq!(state.notice.as_deref(), Some("hashed"));
    assert!(state.notice_is_error);
    app.handle_key(ctrl('r'));
    assert_eq!(app.take_effects(), vec![Effect::Do(Task::RefreshKnownHosts)]);
    app.known_hosts_refreshed(Err("denied".into()));
    assert_eq!(
        app.known_hosts.as_ref().unwrap().notice.as_deref(),
        Some("Refresh failed: denied")
    );
}

#[test]
fn deletions_are_reported() {
    let mut app = app();
    app.mode = AppMode::ConfirmDelete;
    app.pending_delete = Some(PendingDelete::Host { id: 3, name: "alpha".into() });
    app.handle_key(key(KeyCode::Char('y')));
    assert_eq!(
        app.take_effects(),
        vec![Effect::DeleteHost { id: 3, name: "alpha".into() }]
    );
    app.host_deleted("alpha".into(), HostDeletion::Deleted(Some("keyring locked".into())));
    assert_eq!(
        app.host_notice.as_deref(),
        Some("Host 'alpha' deleted; credential cleanup failed: keyring locked")
    );
    assert_eq!(app.take_effects(), vec![Effect::Do(Task::ReloadHosts)]);
    app.host_deleted("alpha".into(), HostDeletion::NotLauncher);
    assert_eq!(app.host_notice.as_deref(), Some("Only launcher hosts can be deleted"));
    app.identity_deleted("work".into(), IdentityDeletion::Deleted(None));
    assert_eq!(app.identity_notice.as_deref(), Some("Identity 'work' deleted"));
}

#[test]
fn exports_and_imports_are_reported() {
    let mut app = app();
    app.export_finished(Ok(("/home/me/.ssh/sshub".into(), 3)));
    assert_eq!(
        app.host_notice.as_deref(),
        Some("Exported 3 host(s) to /home/me/.ssh/sshub")
    );
    app.import_finished(Err("unreadable".into()));
    assert_eq!(app.host_notice.as_deref(), Some("Import failed: unreadable"));
}

#[test]
fn toggling_a_setting_twice_restores_it() {
    let mut app = app();
    let item = SettingItem::Toggle(SettingToggle::SessionLogging);
    assert_eq!(app.setting_value(item), Some(false));
    assert!(app.toggle_setting(item));
    assert_eq!(app.setting_value(item), Some(true));
    assert!(app.toggle_setting(item));
    assert_eq!(app.setting_value(item), Some(false));
    assert_eq!(app.setting_value(SettingItem::Theme), None);
    assert!(!app.toggle_setting(SettingItem::Theme));
}
