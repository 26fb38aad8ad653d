//! Hosts: their order and groups, how they are connected to, and the keys that
//! are bound.

use std::cell::RefCell;
use std::collections::HashMap;

use sshub::app::connect::{
    append_remote_command, prepare_cli_connect_argv, prepare_session_connect_argv,
    resolve_pending_secret, resolve_pending_secret_for_managed, resolve_sftp_ssh_host,
    secret_from_lookup, session_argv_for_entry, session_meta_for_entry, ssh_argv_for_entry,
    ssh_argv_for_key_push, AuthUse, PendingSecret, PreparedArgv, SecretOwner, SftpHostError,
};
use sshub::app::group_tree::{build_group_sections, subtree_has_hosts};
use sshub::app::host_list::{group_sort_key, sort_host_indices, SortMode, UNGROUPED_LABEL};
use sshub::app::startup::AppDeps;
use sshub::hosts::{
    HostEntry, HostGroup, HostResolver, HostSource, Identity, ManagedHost, PasswordStore,
    SessionTransport, SshHost,
};
use sshub::keybinds::{
    keyevent_to_spec, keyspec_matches, parse_keyspec, Binding, KeyAction, KeyCode, KeyEvent,
    KeyModifiers, Keybinds,
};
use sshub::sftp::listing::sort_listing;
use sshub::sftp::model::FileEntry;
use sshub::text_input::{backspace_at, handle_cursor_key, insert_at};

fn managed(id: i64, name: &str) -> ManagedHost {
    ManagedHost {
        id,
        name: name.into(),
        label: None,
        address: format!("{name}.example.com"),
        port: 2222,
        username: None,
        identity: None,
        group: None,
        group_ids: vec![],
        proxy_jump: None,
        forward_agent: false,
        remote_command: None,
        has_password: false,
        source: HostSource::Launcher,
        transport: SessionTransport::Ssh,
        favorite: false,
        last_connected: None,
        sort_order: 0,
    }
}

fn identity(id: i64, key: Option<&str>, has_password: bool) -> Identity {
    Identity {
        id,
        name: format!("id-{id}"),
        username: Some("alice".into()),
        private_key: key.map(str::to_string),
        certificate: None,
        has_password,
    }
}

fn group(id: i64, name: &str, parent_id: Option<i64>, reserved: bool) -> HostGroup {
    HostGroup { id, name: name.into(), parent_id, sort_order: id, reserved }
}

/// A keyring held in memory.
#[derive(Default)]
struct Keyring {
    secrets: RefCell<HashMap<String, String>>,
    broken: bool,
}

impl PasswordStore for Keyring {
    fn get(&self, key: &str) -> Result<Option<String>, String> {
        if self.broken {
            return Err("locked".into());
        }
        Ok(self.secrets.borrow().get(key).cloned())
    }

    fn set(&self, key: &str, secret: &str) -> Result<(), String> {
        self.secrets.borrow_mut().insert(key.into(), secret.into());
        Ok(())
    }

    fn delete(&self, key: &str) -> Result<(), String> {
        self.secrets.borrow_mut().remove(key);
        Ok(())
    }
}

struct Aliases {
    names: Result<Vec<String>, String>,
    resolved: Result<SshHost, String>,
}

impl HostResolver for Aliases {
    fn list_hosts(&self) -> Result<Vec<String>, String> {
        self.names.clone()
    }

    fn resolve_host(&self, _name: &str) -> Result<SshHost, String> {
        self.resolved.clone()
    }
}

fn sorted(hosts: &Vec<HostEntry>, mode: SortMode) -> Vec<usize> {
    let mut indices: Vec<usize> = (0..hosts.len()).collect();
    sort_host_indices(hosts, &mut indices, mode);
    indices
}

#[test]
fn hosts_are_sorted_by_every_mode() {
    let mut bravo = managed(1, "bravo");
    bravo.last_connected = Some(10);
    bravo.sort_order = 3;
    let mut alpha = managed(2, "Alpha");
    alpha.sort_order = 2;
    let mut charlie = managed(3, "charlie");
    charlie.favorite = true;
    charlie.last_connected = Some(99);
    charlie.sort_order = 1;
    charlie.group = Some(group(7, "Prod", None, false));
    let hosts: Vec<HostEntry> =
        vec![bravo, alpha, charlie].into_iter().map(HostEntry::Managed).collect();

    assert_eq!(sorted(&hosts, SortMode::Label), vec![1, 0, 2]);
    // A host that was never connected to comes first, then the latest.
    assert_eq!(sorted(&hosts, SortMode::LastConnected), vec![1, 2, 0]);
    assert_eq!(sorted(&hosts, SortMode::FavoriteFirst), vec![2, 1, 0]);
    assert_eq!(sorted(&hosts, SortMode::GroupThenLabel), vec![2, 1, 0]);
    assert_eq!(sorted(&hosts, SortMode::Manual), vec![2, 1, 0]);
    assert_eq!(group_sort_key(&hosts[2]), "00000007_prod");
    assert_eq!(group_sort_key(&hosts[0]), format!("z_{UNGROUPED_LABEL}"));
}

#[test]
fn sorting_keeps_hosts_that_tie_in_place() {
    let hosts: Vec<HostEntry> = vec![managed(1, "same"), managed(2, "SAME"), managed(3, "same")]
        .into_iter()
        .map(HostEntry::Managed)
        .collect();
    assert_eq!(sorted(&hosts, SortMode::Label), vec![0, 1, 2]);
}

#[test]
fn group_sections_follow_the_forest() {
    let mut web = managed(1, "web");
    web.group_ids = vec![2];
    let mut db = managed(2, "db");
    db.group_ids = vec![1, 2];
    let hosts: Vec<HostEntry> =
        vec![web, db, managed(3, "loose")].into_iter().map(HostEntry::Managed).collect();
    let groups = vec![
        group(1, "prod", None, false),
        group(2, "eu", Some(1), false),
        group(3, "favorites", None, true),
        group(4, "empty", None, false),
    ];
    let sections = build_group_sections(&hosts, &groups, &vec![0, 1, 2]);
    let shown: Vec<(String, usize, Vec<usize>)> =
        sections.iter().map(|s| (s.label.clone(), s.depth, s.host_indices.clone())).collect();
    assert_eq!(
        shown,
        vec![
            ("prod".to_string(), 0, vec![1]),
            ("eu".to_string(), 1, vec![0, 1]),
            ("empty".to_string(), 0, vec![]),
            (UNGROUPED_LABEL.to_string(), 0, vec![2]),
        ]
    );
    assert_eq!(subtree_has_hosts(&sections), vec![true, true, false, true]);
}

#[test]
fn groups_in_a_cycle_do_not_loop() {
    let groups = vec![
        group(1, "a", Some(2), false),
        group(2, "b", Some(1), false),
        group(3, "top", None, false),
    ];
    let sections = build_group_sections(&vec![], &groups, &vec![]);
    assert_eq!(sections.len(), 1);
    assert_eq!(sections[0].label, "top");
}

#[test]
fn stored_secrets_are_found_where_they_belong() {
    let ring = Keyring::default();
    let mut host = managed(5, "web");
    assert_eq!(
        resolve_pending_secret(&HostEntry::Managed(host.clone()), &ring),
        (
            None,
            "auth: no stored credential — using agent / unlocked key / interactive prompt".into()
        )
    );
    let legacy = HostEntry::new(SshHost::new("web"));
    assert_eq!(
        resolve_pending_secret(&legacy, &ring),
        (None, "auth: legacy ssh_config host — no stored credential".into())
    );

    host.has_password = true;
    let key = sshub::app::connect::host_key(5);
    assert_eq!(
        resolve_pending_secret(&HostEntry::Managed(host.clone()), &ring).1,
        format!("auth: has_password=true but keyring entry {key} is empty — ssh will prompt")
    );
    ring.set(&key, "hunter2").unwrap();
    assert_eq!(
        resolve_pending_secret(&HostEntry::Managed(host.clone()), &ring),
        (
            Some(PendingSecret::Password("hunter2".into())),
            format!("auth: using stored password ({key})")
        )
    );
}

#[test]
fn identity_secrets_unlock_a_key_or_log_in() {
    let ring = Keyring::default();
    ring.set(&sshub::app::connect::identity_key(9), "open").unwrap();
    let mut host = managed(5, "web");
    host.identity = Some(identity(9, Some("/k"), true));
    assert_eq!(
        resolve_pending_secret_for_managed(&host, &ring).0,
        Some(PendingSecret::Passphrase("open".into()))
    );
    host.identity = Some(identity(9, None, true));
    assert_eq!(
        resolve_pending_secret_for_managed(&host, &ring).0,
        Some(PendingSecret::Password("open".into()))
    );
    host.identity = None;
    assert_eq!(
        resolve_pending_secret_for_managed(&host, &ring),
        (
            None,
            "auth: no stored credential — tunnel uses agent / unlocked key only (BatchMode)".into()
        )
    );
}

#[test]
fn a_failed_lookup_is_told() {
    assert_eq!(
        secret_from_lookup(SecretOwner::Host, "k", Err("locked".into()), AuthUse::Session),
        (None, "auth: keyring lookup failed for k: locked — ssh will prompt".into())
    );
    let ring = Keyring { broken: true, ..Keyring::default() };
    let mut host = managed(5, "web");
    host.has_password = true;
    let key = sshub::app::connect::host_key(5);
    assert_eq!(
        resolve_pending_secret_for_managed(&host, &ring).1,
        format!("auth: keyring lookup failed for {key}: locked")
    );
}

#[test]
fn connect_options_go_behind_the_program() {
    let argv = |words: &[&str]| words.iter().map(|s| s.to_string()).collect::<Vec<String>>();
    assert_eq!(
        prepare_cli_connect_argv(argv(&["ssh", "web"]), true, true),
        PreparedArgv::Ready(argv(&[
            "ssh",
            "-o",
            "StrictHostKeyChecking=accept-new",
            "-v",
            "web"
        ]))
    );
    assert_eq!(
        prepare_cli_connect_argv(argv(&["ssh", "web"]), false, false),
        PreparedArgv::Ready(argv(&["ssh", "web"]))
    );
    assert_eq!(
        prepare_session_connect_argv(argv(&["ssh", "web"]), false),
        PreparedArgv::Ready(argv(&["ssh", "-v", "web"]))
    );
    assert_eq!(
        prepare_session_connect_argv(argv(&["mosh", "web"]), true),
        PreparedArgv::MoshAcceptNew(argv(&["mosh", "web"]))
    );
    assert_eq!(
        prepare_session_connect_argv(argv(&["mosh", "web"]), false),
        PreparedArgv::Ready(argv(&["mosh", "web"]))
    );
}

#[test]
fn sessions_are_prepared_as_verbose_connections() {
    let argv = |words: &[&str]| words.iter().map(|s| s.to_string()).collect::<Vec<String>>();
    for words in [&[][..], &["ssh"], &["ssh", "web"], &["mosh", "web"], &["sh"]] {
        for secret in [false, true] {
            assert_eq!(
                prepare_session_connect_argv(argv(words), secret),
                prepare_cli_connect_argv(argv(words), secret, true)
            );
        }
    }
    assert_eq!(
        prepare_session_connect_argv(argv(&["ssh", "web"]), true),
        PreparedArgv::Ready(argv(&[
            "ssh",
            "-o",
            "StrictHostKeyChecking=accept-new",
            "-v",
            "web"
        ]))
    );
}

#[test]
fn a_key_push_runs_its_command_as_one_word() {
    let mut host = managed(5, "web");
    host.source = HostSource::SshConfig;
    let launch = ssh_argv_for_key_push(&HostEntry::Managed(host));
    assert!(launch.alias_only);
    assert_eq!(launch.host.remote_command, None);
    let argv = append_remote_command(vec!["ssh".into(), "web".into()], "echo 'a b'");
    assert_eq!(argv, vec!["ssh", "web", "--", "echo 'a b'"]);
}

#[test]
fn command_lines_follow_the_source_and_the_transport() {
    let mut host = managed(5, "web");
    host.transport = SessionTransport::Mosh;
    let launch = session_argv_for_entry(&HostEntry::Managed(host.clone()));
    assert_eq!(launch.transport, SessionTransport::Mosh);
    assert!(!launch.alias_only);
    assert_eq!(launch.host.hostname.as_deref(), Some("web.example.com"));
    host.source = HostSource::SshConfig;
    let launch = ssh_argv_for_entry(&HostEntry::Managed(host));
    assert_eq!(launch.transport, SessionTransport::Ssh);
    assert!(launch.alias_only);
    assert!(ssh_argv_for_entry(&HostEntry::new(SshHost::new("x"))).alias_only);
}

#[test]
fn session_details_come_from_the_identity_where_the_host_has_none() {
    let mut host = managed(5, "web");
    host.identity = Some(identity(9, Some("/k"), false));
    let meta = session_meta_for_entry(&HostEntry::Managed(host));
    assert_eq!(meta.user.as_deref(), Some("alice"));
    assert_eq!(meta.identity.as_deref(), Some("/k"));
    assert_eq!(meta.port, Some(2222));
    assert_eq!(meta.host_id, Some(5));
}

#[test]
fn sftp_hosts_are_resolved_through_the_config() {
    let mut host = managed(5, "web");
    host.source = HostSource::SshConfig;
    host.identity = Some(identity(9, None, false));
    let entry = HostEntry::Managed(host.clone());
    let mut from_config = SshHost::new("web");
    from_config.user = Some("bob".into());
    from_config.identity_file = Some("/config/key".into());
    let aliases =
        Aliases { names: Ok(vec!["web".into()]), resolved: Ok(from_config.clone()) };

    // The identity's user name wins; without a key of its own it leaves the
    // config's in place.
    let resolved = resolve_sftp_ssh_host(&entry, &aliases).unwrap();
    assert_eq!(resolved.user.as_deref(), Some("alice"));
    assert_eq!(resolved.identity_file.as_deref(), Some("/config/key"));

    let gone = Aliases { names: Ok(vec![]), resolved: Ok(from_config.clone()) };
    assert_eq!(
        resolve_sftp_ssh_host(&entry, &gone).unwrap_err().message(),
        "host 'web' is no longer present in ssh_config"
    );
    let broken = Aliases { names: Err("denied".into()), resolved: Ok(from_config.clone()) };
    assert_eq!(
        resolve_sftp_ssh_host(&entry, &broken),
        Err(SftpHostError::ListFailed("denied".into()))
    );
    let unresolved = Aliases { names: Ok(vec!["web".into()]), resolved: Err("no".into()) };
    assert_eq!(
        resolve_sftp_ssh_host(&entry, &unresolved).unwrap_err().message(),
        "could not resolve web/ssh_config for SFTP: no"
    );
    // A launcher host needs no resolver.
    let own = HostEntry::Managed(managed(6, "db"));
    assert_eq!(
        resolve_sftp_ssh_host(&own, &broken).unwrap().hostname.as_deref(),
        Some("db.example.com")
    );
}

#[test]
fn secrets_are_stored_and_empty_ones_removed() {
    let deps = AppDeps {
        resolver: Aliases { names: Ok(vec![]), resolved: Err("no hosts".into()) },
        password_store: Keyring::default(),
    };
    assert_eq!(deps.stored_secret("k"), "");
    deps.put_secret("k", "s").unwrap();
    assert_eq!(deps.stored_secret("k"), "s");
    deps.put_secret("k", "").unwrap();
    assert_eq!(deps.stored_secret("k"), "");
    assert!(deps.password_store.secrets.borrow().is_empty());
}

fn press(code: KeyCode, control: bool, alt: bool, shift: bool) -> KeyEvent {
    KeyEvent::new(code, KeyModifiers { control, alt, shift, other: false })
}

#[test]
fn key_specs_are_read() {
    let plain = KeyModifiers::empty();
    let control = KeyModifiers { control: true, ..plain };
    let shift = KeyModifiers { shift: true, ..plain };
    assert_eq!(parse_keyspec("Ctrl+S"), Some((KeyCode::Char('s'), control)));
    assert_eq!(parse_keyspec(" control + s "), Some((KeyCode::Char('s'), control)));
    assert_eq!(parse_keyspec("F2"), Some((KeyCode::F(2), plain)));
    assert_eq!(parse_keyspec("f256"), None);
    assert_eq!(parse_keyspec("Y"), Some((KeyCode::Char('y'), shift)));
    assert_eq!(parse_keyspec("y"), Some((KeyCode::Char('y'), plain)));
    assert_eq!(parse_keyspec("Space"), Some((KeyCode::Char(' '), plain)));
    assert_eq!(parse_keyspec("Hyper+x"), None);
    assert_eq!(parse_keyspec("Ctrl+"), None);
    assert_eq!(parse_keyspec("home"), None);
}

#[test]
fn captured_keys_are_written_so_that_they_match_again() {
    let cases = [
        (press(KeyCode::Char('s'), true, false, false), "Ctrl+S"),
        (press(KeyCode::Char('g'), false, false, false), "g"),
        (press(KeyCode::Char('H'), false, false, true), "Shift+H"),
        (press(KeyCode::Enter, false, true, false), "Alt+Enter"),
        (press(KeyCode::F(12), false, false, false), "F12"),
        (press(KeyCode::Char(' '), false, false, false), "Space"),
    ];
    for (key, spec) in cases {
        assert_eq!(keyevent_to_spec(&key).as_deref(), Some(spec));
        let (code, mods) = parse_keyspec(spec).unwrap();
        assert!(keyspec_matches(code, mods, &key), "{spec} does not match its key");
    }
    assert_eq!(keyevent_to_spec(&press(KeyCode::Other, false, false, false)), None);
}

#[test]
fn keys_without_a_spec_of_their_own_are_not_bound() {
    assert_eq!(keyevent_to_spec(&press(KeyCode::Char('+'), false, false, false)), None);
    assert_eq!(keyevent_to_spec(&press(KeyCode::Char('+'), true, false, false)), None);
    assert_eq!(keyevent_to_spec(&press(KeyCode::Char('\u{a0}'), false, false, false)), None);
    let other = KeyModifiers { other: true, ..KeyModifiers::empty() };
    assert_eq!(keyevent_to_spec(&KeyEvent::new(KeyCode::Char('a'), other)), None);
    // The character shows that Shift was held.
    let question = press(KeyCode::Char('?'), false, false, true);
    assert_eq!(keyevent_to_spec(&question).as_deref(), Some("?"));
    assert_eq!(parse_keyspec("?"), Some((KeyCode::Char('?'), KeyModifiers::empty())));
}

#[test]
fn bindings_are_edited_and_reset() {
    let specs = |words: &[&str]| words.iter().map(|s| s.to_string()).collect::<Vec<String>>();
    let mut binds = Keybinds {
        rows: vec![Binding {
            action: KeyAction::Quit,
            label: "Quit".into(),
            specs: specs(&["q"]),
            defaults: specs(&["q"]),
        }],
    };
    let q = press(KeyCode::Char('q'), false, false, false);
    assert!(binds.is_bound(KeyAction::Quit, &q));
    assert!(!binds.is_bound(KeyAction::Help, &q));
    binds.add(KeyAction::Quit, "Ctrl+Q".into());
    assert_eq!(binds.binds(KeyAction::Quit), specs(&["q", "Ctrl+Q"]));
    binds.set(KeyAction::Quit, specs(&["x"]));
    assert!(!binds.is_bound(KeyAction::Quit, &q));
    binds.reset_action(KeyAction::Quit);
    assert_eq!(binds.binds(KeyAction::Quit), specs(&["q"]));
}

#[test]
fn text_is_edited_at_the_cursor() {
    let mut text = String::from("héllo");
    assert_eq!(insert_at(&mut text, 2, 'X'), 3);
    assert_eq!(text, "héXllo");
    assert_eq!(backspace_at(&mut text, 3), 2);
    assert_eq!(text, "héllo");
    assert_eq!(backspace_at(&mut text, 0), 0);
    assert_eq!(handle_cursor_key(KeyCode::End, &mut text, 0), 5);
    assert_eq!(handle_cursor_key(KeyCode::Home, &mut text, 5), 0);
    assert_eq!(handle_cursor_key(KeyCode::Right, &mut text, 5), 5);
    assert_eq!(handle_cursor_key(KeyCode::Left, &mut text, 0), 0);
    assert_eq!(handle_cursor_key(KeyCode::Delete, &mut text, 1), 1);
    assert_eq!(text, "hllo");
}

#[test]
fn listings_put_directories_first_and_ignore_case() {
    let entry = |name: &str, is_dir: bool, size: u64| FileEntry {
        name: name.into(),
        is_dir,
        size,
        is_symlink: false,
        perm: None,
    };
    let rows = sort_listing(vec![
        entry("b.txt", false, 1),
        entry("Zoo", true, 0),
        entry("A.txt", false, 2),
        entry("alpha", true, 0),
        entry("B.TXT", false, 3),
    ]);
    let names: Vec<&str> = rows.iter().map(|e| e.name.as_str()).collect();
    assert_eq!(names, vec!["alpha", "Zoo", "A.txt", "b.txt", "B.TXT"]);
}
