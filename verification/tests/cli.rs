//! `sshub sftp …` on the command line, and how a run begins and ends.

use sshub::cli::parse::{parse_format, positional, take_flag, take_opt, OutputFormat};
use sshub::cli::sftp::{
    judge_connection, parse_request, put_item, reject_jump, CliError, Connection, Next, Request,
    Waiting,
};
use sshub::hosts::SshHost;
use sshub::keybinds::{KeyCode, KeyEvent, KeyModifiers};
use sshub::launch::{
    database_files, dismisses_intro, key_push_event, plays_intro, poll_window, record_ping,
    Launch, StartEnv, PING_HISTORY,
};
use sshub::sftp::model::{Direction, SftpCommand, SftpEvent, Side};
use sshub::{run, run_app};

fn args(words: &[&str]) -> Vec<String> {
    words.iter().map(|s| s.to_string()).collect()
}

fn parse(words: &[&str]) -> Result<Request, CliError> {
    parse_request(args(words))
}

fn usage(words: &[&str]) -> String {
    match parse(words) {
        Err(CliError::Usage(message)) => message,
        other => panic!("expected a usage error, got {other:?}"),
    }
}

#[test]
fn options_and_flags_are_taken_out() {
    let mut words = args(&["--yes", "web", "--format", "json", "/srv"]);
    assert!(take_flag(&mut words, "--yes"));
    assert!(!take_flag(&mut words, "--yes"));
    assert_eq!(parse_format(&words), Ok(OutputFormat::Json));
    assert_eq!(take_opt(&mut words, "--format"), Some("json".to_string()));
    assert_eq!(take_opt(&mut words, "--format"), None);
    assert_eq!(positional(&words), args(&["web", "/srv"]));
    assert_eq!(parse_format(&args(&["web"])), Ok(OutputFormat::Plain));
    assert!(parse_format(&args(&["--format", "xml"])).is_err());
}

#[test]
fn listing_defaults_to_the_login_directory() {
    assert_eq!(
        parse(&["ls", "web"]),
        Ok(Request::List { host: "web".into(), path: ".".into(), format: OutputFormat::Plain })
    );
    assert_eq!(
        parse(&["ls", "--format", "json", "web", "/var/log"]),
        Ok(Request::List {
            host: "web".into(),
            path: "/var/log".into(),
            format: OutputFormat::Json
        })
    );
    assert_eq!(usage(&["ls"]), "sftp ls needs a <host>");
}

#[test]
fn downloads_land_beside_the_caller() {
    match parse(&["get", "web", "/var/log/app.log"]).unwrap() {
        Request::Get { host, item } => {
            assert_eq!(host, "web");
            assert_eq!(item.direction, Direction::Download);
            assert_eq!(item.src, "/var/log/app.log");
            assert_eq!(item.dst, "./app.log");
            assert_eq!(item.name, "app.log");
            assert!(!item.is_dir);
        }
        other => panic!("expected a download, got {other:?}"),
    }
    assert!(matches!(
        parse(&["get", "web", "/srv", "--recursive"]),
        Ok(Request::Get { item, .. }) if item.is_dir
    ));
    assert_eq!(usage(&["get"]), "sftp get needs a <host> and <remote-path>");
    assert_eq!(usage(&["get", "web"]), "sftp get needs a <remote-path>");
}

#[test]
fn uploads_take_directories_whole() {
    let request = parse(&["put", "web", "./deploy.tar.gz"]).unwrap();
    assert_eq!(
        request,
        Request::Put {
            host: "web".into(),
            local: "./deploy.tar.gz".into(),
            remote: "deploy.tar.gz".into(),
            name: "deploy.tar.gz".into(),
            recursive: false
        }
    );
    let (command, waiting) = request.dispatch(true);
    assert!(matches!(&command, SftpCommand::RunQueue(q) if q.len() == 1 && q[0].is_dir));
    assert_eq!(waiting, Waiting::Queue { failed: false });
    assert!(!put_item("a".into(), "b".into(), "a".into(), false, false).is_dir);
    assert!(put_item("a".into(), "b".into(), "a".into(), true, false).is_dir);
    assert_eq!(usage(&["put", "web"]), "sftp put needs a <local-path>");
}

#[test]
fn deleting_needs_a_yes() {
    let refused = parse(&["rm", "web", "/tmp/x"]).unwrap_err();
    assert_eq!(
        refused,
        CliError::Refused("sftp rm is destructive; pass --yes to confirm".into())
    );
    assert_eq!(refused.exit_code(), 1);
    let request = parse(&["rm", "web", "/tmp/x", "--yes", "--recursive"]).unwrap();
    assert_eq!(request.host(), "web");
    assert_eq!(
        request.dispatch(false),
        (SftpCommand::Remove("/tmp/x".into(), true), Waiting::Op)
    );
}

#[test]
fn the_other_operations_name_what_is_missing() {
    assert_eq!(usage(&["mkdir", "web"]), "sftp mkdir needs a <remote-path>");
    assert_eq!(usage(&["rename", "web", "a"]), "sftp rename needs a <to> path");
    assert_eq!(usage(&["chmod", "web"]), "sftp chmod needs an octal <mode>");
    assert_eq!(usage(&["chmod", "web", "89", "/x"]), "invalid octal mode '89'");
    assert_eq!(
        parse(&["chmod", "web", "755", "/x"]).unwrap().dispatch(false).0,
        SftpCommand::Chmod("/x".into(), 0o755)
    );
    assert_eq!(
        parse(&["rename", "web", "a", "b"]).unwrap().dispatch(false).0,
        SftpCommand::Rename("a".into(), "b".into())
    );
    assert_eq!(
        parse(&["mkdir", "web", "d"]).unwrap().dispatch(false).0,
        SftpCommand::Mkdir("d".into())
    );
    assert_eq!(
        usage(&[]),
        "sftp needs a subcommand (ls|get|put|rm|mkdir|rename|chmod)"
    );
    let unknown = parse(&["cat", "web"]).unwrap_err();
    assert_eq!(unknown.exit_code(), 2);
    assert_eq!(
        unknown,
        CliError::Unknown(
            "unknown sftp subcommand 'cat' (try: ls, get, put, rm, mkdir, rename, chmod)".into()
        )
    );
}

#[test]
fn jump_hosts_are_refused() {
    let mut host = SshHost::new("web");
    assert_eq!(reject_jump(&host), Ok(()));
    host.proxy_jump = Some("bastion".into());
    assert_eq!(
        reject_jump(&host),
        Err("SFTP via ProxyJump is not supported; pick a direct host".to_string())
    );
}

#[test]
fn the_first_event_tells_of_the_connection() {
    assert_eq!(judge_connection(&Some(SftpEvent::Connected)), Connection::Live);
    assert_eq!(
        judge_connection(&Some(SftpEvent::ConnectFailed("refused".into()))),
        Connection::Failed("connect failed: refused".into())
    );
    assert_eq!(judge_connection(&Some(SftpEvent::QueueDone)), Connection::Unexpected);
    assert_eq!(judge_connection(&None), Connection::Unexpected);
}

#[test]
fn a_queue_ends_badly_after_any_error() {
    let running = Waiting::Queue { failed: false };
    assert_eq!(running.on_event(Some(SftpEvent::QueueDone)), Next::Exit(0, None));
    let failed = match running.on_event(Some(SftpEvent::Error("disk full".into()))) {
        Next::Complain(message, waiting) => {
            assert_eq!(message, "disk full");
            waiting
        }
        other => panic!("expected a complaint, got {other:?}"),
    };
    assert_eq!(failed.on_event(Some(SftpEvent::TransferDone(0))), Next::Wait(failed));
    assert_eq!(failed.on_event(Some(SftpEvent::QueueDone)), Next::Exit(1, None));
    assert_eq!(
        running.on_event(None),
        Next::Exit(1, Some("sftp worker went away".into()))
    );
}

#[test]
fn listings_and_operations_end_with_their_event() {
    let listed = SftpEvent::DirListing(Side::Remote, "/srv".into(), vec![]);
    assert_eq!(Waiting::Listing.on_event(Some(listed)), Next::Print(vec![]));
    assert_eq!(
        Waiting::Listing.on_event(Some(SftpEvent::OpDone)),
        Next::Wait(Waiting::Listing)
    );
    assert_eq!(
        Waiting::Listing.on_event(Some(SftpEvent::Error("no".into()))),
        Next::Exit(1, Some("no".into()))
    );
    assert_eq!(Waiting::Op.on_event(Some(SftpEvent::OpDone)), Next::Exit(0, None));
}

fn env() -> StartEnv {
    StartEnv {
        dry_run: false,
        former_dry_run: false,
        auto_quit: None,
        former_auto_quit: None,
        is_terminal: true,
    }
}

#[test]
fn dry_runs_do_nothing() {
    assert_eq!(run(&StartEnv { dry_run: true, ..env() }), Launch::Nothing);
    assert_eq!(run(&StartEnv { former_dry_run: true, ..env() }), Launch::Nothing);
    assert_eq!(run(&env()), Launch::Application { auto_quit: None, interactive: true });
}

#[test]
fn only_a_terminal_without_auto_quit_is_interactive() {
    assert_eq!(
        run_app(&StartEnv { is_terminal: false, ..env() }),
        Launch::Application { auto_quit: None, interactive: false }
    );
    assert_eq!(
        run_app(&StartEnv {
            auto_quit: Some("q".into()),
            former_auto_quit: Some("x".into()),
            ..env()
        }),
        Launch::Application { auto_quit: Some("q".into()), interactive: false }
    );
    assert_eq!(
        run_app(&StartEnv { former_auto_quit: Some("x".into()), ..env() }),
        Launch::Application { auto_quit: Some("x".into()), interactive: false }
    );
}

#[test]
fn the_intro_plays_once_and_ends_on_a_key() {
    assert!(plays_intro(false, false, false));
    assert!(!plays_intro(true, false, false));
    assert!(!plays_intro(false, true, false));
    assert!(!plays_intro(false, false, true));
    let key = |code: KeyCode| KeyEvent::new(code, KeyModifiers::empty());
    assert!(dismisses_intro(&key(KeyCode::Enter)));
    assert!(dismisses_intro(&key(KeyCode::Esc)));
    assert!(dismisses_intro(&key(KeyCode::Char(' '))));
    assert!(dismisses_intro(&key(KeyCode::Char('q'))));
    assert!(!dismisses_intro(&key(KeyCode::Char('x'))));
}

#[test]
fn frames_come_faster_while_something_moves() {
    assert_eq!(poll_window(true), 16);
    assert_eq!(poll_window(false), 50);
}

#[test]
fn a_purge_names_the_database_and_its_sidecars() {
    assert_eq!(
        database_files("/d/launcher.db"),
        args(&[
            "/d/launcher.db",
            "/d/launcher.db-wal",
            "/d/launcher.db-shm",
            "/d/launcher.db-journal"
        ])
    );
}

#[test]
fn latency_history_is_bounded_and_starts_over() {
    let mut history = Vec::new();
    for i in 0..40 {
        record_ping(&mut history, Some(i));
    }
    assert_eq!(history.len(), PING_HISTORY);
    assert_eq!(history[0], Some(10));
    record_ping(&mut history, None);
    assert_eq!(history.len(), PING_HISTORY);
    assert_eq!(history.last(), Some(&None));
    record_ping(&mut history, Some(7));
    assert_eq!(history, vec![Some(7)]);
}

#[test]
fn key_pushes_are_audited() {
    assert_eq!(
        key_push_event("work", "success"),
        ("ok".to_string(), "pushed public key 'work' to host".to_string())
    );
    assert_eq!(
        key_push_event("work", "exit 1"),
        ("fail".to_string(), "failed to push public key 'work' to host (exit 1)".to_string())
    );
}
