//! The transfer worker, driven against a transport that records what it is
//! asked to do.

use std::collections::{HashMap, VecDeque};

use sshub::sftp::model::{
    Direction, FileEntry, QueuedTransfer, RemoteFileStamp, SftpCommand, SftpEvent, Side,
};
use sshub::sftp::worker::{drain_cancel, Answer, DirEntry, Request, Worker, PROGRESS_STEP};

#[derive(Debug, Clone, PartialEq)]
struct TransferCall {
    direction: Direction,
    src: String,
    dst: String,
}

#[derive(Debug, Clone, PartialEq)]
enum OpCall {
    Remove(String, bool),
    Mkdir(String),
    Rename(String, String),
    Chmod(String, u32),
}

/// A server and a local disk held in memory.
#[derive(Default)]
struct MockTransport {
    listings: HashMap<String, Vec<FileEntry>>,
    local_listings: HashMap<String, Vec<FileEntry>>,
    stats: HashMap<String, (bool, u64)>,
    transfer_size: u64,
    fail_on: Option<usize>,
    fail_chmod: bool,
    refuse_connection: bool,
    seen: usize,
    calls: Vec<TransferCall>,
    ops: Vec<OpCall>,
    local_dirs: Vec<String>,
}

impl MockTransport {
    fn new(transfer_size: u64) -> Self {
        MockTransport { transfer_size, ..MockTransport::default() }
    }

    fn with_listing(mut self, path: &str, entries: Vec<FileEntry>) -> Self {
        self.listings.insert(path.to_string(), entries);
        self
    }

    fn with_local(mut self, path: &str, entries: Vec<FileEntry>) -> Self {
        self.local_listings.insert(path.to_string(), entries);
        self
    }

    fn with_stat(mut self, path: &str, is_dir: bool, size: u64) -> Self {
        self.stats.insert(path.to_string(), (is_dir, size));
        self
    }

    fn stat(&self, path: &str) -> Result<(bool, u64), String> {
        self.stats.get(path).copied().ok_or_else(|| format!("no canned stat for {path}"))
    }

    /// Record the call, then report progress in half steps, so that throttling
    /// has something to do.
    fn fake_transfer(
        &mut self,
        direction: Direction,
        src: &str,
        dst: &str,
        progress: &mut dyn FnMut(u64, u64),
    ) -> Result<(), String> {
        let ordinal = self.seen;
        self.seen += 1;
        self.calls.push(TransferCall { direction, src: src.to_string(), dst: dst.to_string() });
        if self.fail_on == Some(ordinal) {
            return Err(format!("boom on transfer {ordinal}"));
        }
        let total = self.transfer_size;
        progress(0, total);
        let mut moved = 0u64;
        while moved < total {
            moved = (moved + PROGRESS_STEP / 2).min(total);
            progress(moved, total);
        }
        Ok(())
    }
}

/// Perform what the worker asks for until it ends.
fn serve(
    start: (Worker, Request),
    transport: &mut MockTransport,
    commands: Vec<SftpCommand>,
    ui_alive: bool,
) -> (Worker, Vec<SftpEvent>) {
    let (mut worker, mut request) = start;
    let mut commands: VecDeque<SftpCommand> = commands.into_iter().collect();
    let mut events = Vec::new();
    loop {
        let answer = match request {
            Request::Connect => Answer::Done(if transport.refuse_connection {
                Err("no route".to_string())
            } else {
                Ok(())
            }),
            Request::NextCommand => Answer::Command(commands.pop_front()),
            Request::PollCommands => Answer::Pending(commands.drain(..).collect()),
            Request::Emit(event) => {
                if ui_alive {
                    events.push(event);
                }
                Answer::Delivered(ui_alive)
            }
            Request::ListDir(path) => Answer::Listing(
                transport
                    .listings
                    .get(&path)
                    .cloned()
                    .ok_or_else(|| format!("no canned listing for {path}")),
            ),
            Request::Stat(path) => Answer::Stat(transport.stat(&path)),
            Request::FileStamp(path) => Answer::Stamp(transport.stat(&path).map(
                |(is_dir, size)| RemoteFileStamp { size, mtime: None, is_regular: !is_dir },
            )),
            Request::Download { remote, local } => {
                let result = transport.fake_transfer(
                    Direction::Download,
                    &remote,
                    &local,
                    &mut |transferred, size| {
                        if let Some(event) = worker.on_progress(transferred, size) {
                            if ui_alive {
                                events.push(event);
                            }
                            worker.on_delivery(ui_alive);
                        }
                    },
                );
                Answer::Done(result)
            }
            Request::Upload { local, remote } => {
                let result = transport.fake_transfer(
                    Direction::Upload,
                    &local,
                    &remote,
                    &mut |transferred, size| {
                        if let Some(event) = worker.on_progress(transferred, size) {
                            if ui_alive {
                                events.push(event);
                            }
                            worker.on_delivery(ui_alive);
                        }
                    },
                );
                Answer::Done(result)
            }
            Request::Remove(path, is_dir) => {
                transport.ops.push(OpCall::Remove(path, is_dir));
                Answer::Done(Ok(()))
            }
            Request::Mkdir(path) => {
                transport.ops.push(OpCall::Mkdir(path));
                Answer::Done(Ok(()))
            }
            Request::Rename(from, to) => {
                transport.ops.push(OpCall::Rename(from, to));
                Answer::Done(Ok(()))
            }
            Request::Chmod(path, mode) => {
                transport.ops.push(OpCall::Chmod(path, mode));
                Answer::Done(if transport.fail_chmod {
                    Err("denied".to_string())
                } else {
                    Ok(())
                })
            }
            Request::CreateLocalDir(path) => {
                transport.local_dirs.push(path);
                Answer::Done(Ok(()))
            }
            Request::ReadLocalDir(path) => Answer::LocalListing(
                transport
                    .local_listings
                    .get(&path)
                    .cloned()
                    .map(|entries| entries.into_iter().map(DirEntry::Found).collect())
                    .ok_or_else(|| format!("no local directory {path}")),
            ),
            Request::LocalStat(path) => Answer::Stat(transport.stat(&path)),
            Request::Exit => return (worker, events),
        };
        request = worker.step(answer);
    }
}

/// Drive a connected worker with commands that are all waiting, then close the
/// command channel, and collect every event.
fn drive(transport: &mut MockTransport, commands: Vec<SftpCommand>) -> Vec<SftpEvent> {
    serve(Worker::connected(), transport, commands, true).1
}

fn entry(name: &str, is_dir: bool) -> FileEntry {
    FileEntry {
        name: name.into(),
        is_dir,
        size: if is_dir { 0 } else { 42 },
        is_symlink: false,
        perm: None,
    }
}

fn queued(direction: Direction, src: &str, dst: &str) -> QueuedTransfer {
    QueuedTransfer {
        direction,
        src: src.into(),
        dst: dst.into(),
        name: src.rsplit('/').next().unwrap().into(),
        is_dir: false,
    }
}

fn dl(src: &str, dst: &str) -> QueuedTransfer {
    queued(Direction::Download, src, dst)
}

fn up(src: &str, dst: &str) -> QueuedTransfer {
    queued(Direction::Upload, src, dst)
}

#[test]
fn list_dir_remote_emits_listing() {
    let entries = vec![entry("docs", true), entry("a.txt", false)];
    let mut t = MockTransport::new(0).with_listing("/srv", entries.clone());
    let events = drive(&mut t, vec![SftpCommand::ListDir(Side::Remote, "/srv".into())]);
    assert_eq!(events.len(), 1);
    match &events[0] {
        SftpEvent::DirListing(side, path, got) => {
            assert_eq!(*side, Side::Remote);
            assert_eq!(path, "/srv");
            assert_eq!(got, &entries);
        }
        other => panic!("expected DirListing, got {other:?}"),
    }
}

#[test]
fn list_dir_local_is_ignored() {
    let mut t = MockTransport::new(0);
    let events = drive(&mut t, vec![SftpCommand::ListDir(Side::Local, "/home".into())]);
    assert!(events.is_empty());
}

#[test]
fn list_dir_error_is_recoverable() {
    let mut t = MockTransport::new(0);
    let events = drive(&mut t, vec![SftpCommand::ListDir(Side::Remote, "/missing".into())]);
    assert_eq!(events.len(), 1);
    assert!(matches!(events[0], SftpEvent::Error(_)));
}

#[test]
fn run_queue_emits_progress_done_and_queuedone() {
    let mut t = MockTransport::new(PROGRESS_STEP);
    let events =
        drive(&mut t, vec![SftpCommand::RunQueue(vec![dl("/srv/a.txt", "/home/a.txt")])]);

    assert_eq!(
        t.calls,
        vec![TransferCall {
            direction: Direction::Download,
            src: "/srv/a.txt".into(),
            dst: "/home/a.txt".into(),
        }]
    );

    assert!(matches!(
        events.first(),
        Some(SftpEvent::Progress { index: 0, total: 1, transferred: 0, .. })
    ));
    assert!(matches!(events.last(), Some(SftpEvent::QueueDone)));
    let transfer_done = events.iter().position(|e| matches!(e, SftpEvent::TransferDone(0)));
    let queue_done = events.iter().position(|e| matches!(e, SftpEvent::QueueDone));
    assert!(transfer_done.is_some(), "expected a TransferDone(0)");
    assert!(transfer_done < queue_done, "TransferDone must precede QueueDone");
    assert!(events.iter().any(|e| matches!(
        e,
        SftpEvent::Progress { transferred, size, .. } if transferred == size && *size > 0
    )));
}

#[test]
fn run_queue_multiple_transfers_indexed() {
    let mut t = MockTransport::new(PROGRESS_STEP);
    let queue = vec![dl("/srv/a.txt", "/home/a.txt"), up("/home/b.bin", "/srv/b.bin")];
    let events = drive(&mut t, vec![SftpCommand::RunQueue(queue)]);

    assert_eq!(t.calls.len(), 2);
    assert_eq!(t.calls[0].direction, Direction::Download);
    assert_eq!(t.calls[1].direction, Direction::Upload);
    assert_eq!(t.calls[1].src, "/home/b.bin");
    assert_eq!(t.calls[1].dst, "/srv/b.bin");

    assert!(events.iter().any(|e| matches!(e, SftpEvent::Progress { index: 0, total: 2, .. })));
    assert!(events.iter().any(|e| matches!(e, SftpEvent::Progress { index: 1, total: 2, .. })));
    assert!(events.iter().any(|e| matches!(e, SftpEvent::TransferDone(0))));
    assert!(events.iter().any(|e| matches!(e, SftpEvent::TransferDone(1))));
    assert_eq!(events.iter().filter(|e| matches!(e, SftpEvent::QueueDone)).count(), 1);
}

#[test]
fn run_queue_transfer_error_is_reported_and_queue_continues() {
    let mut t = MockTransport::new(PROGRESS_STEP);
    t.fail_on = Some(0);
    let queue = vec![dl("/srv/a.txt", "/home/a.txt"), dl("/srv/c.txt", "/home/c.txt")];
    let events = drive(&mut t, vec![SftpCommand::RunQueue(queue)]);

    assert!(events.iter().any(|e| matches!(e, SftpEvent::Error(_))));
    assert!(!events.iter().any(|e| matches!(e, SftpEvent::TransferDone(0))));
    assert!(events.iter().any(|e| matches!(e, SftpEvent::TransferDone(1))));
    assert!(matches!(events.last(), Some(SftpEvent::QueueDone)));
}

#[test]
fn run_queue_stops_when_ui_gone() {
    let mut t = MockTransport::new(PROGRESS_STEP);
    // A second command is waiting: a worker that went on would take it.
    let commands = vec![
        SftpCommand::RunQueue(vec![dl("/srv/a.txt", "/home/a.txt")]),
        SftpCommand::Mkdir("/srv/late".into()),
    ];
    let (worker, events) = serve(Worker::connected(), &mut t, commands, false);
    assert!(worker.stopped());
    assert!(events.is_empty());
    assert!(t.ops.is_empty());
}

#[test]
fn drain_cancel_detects_pending_cancel() {
    let mut commands =
        vec![SftpCommand::ListDir(Side::Remote, "/x".into()), SftpCommand::Cancel];
    // Both a stray command and a Cancel are drained; Cancel is detected.
    assert!(drain_cancel(&mut commands));
    assert!(!drain_cancel(&mut commands));
}

#[test]
fn run_queue_honours_cancel_between_transfers() {
    let mut t = MockTransport::new(PROGRESS_STEP);
    let events = drive(
        &mut t,
        vec![
            SftpCommand::RunQueue(vec![dl("/srv/a.txt", "/home/a.txt")]),
            SftpCommand::Cancel,
        ],
    );
    assert!(t.calls.is_empty());
    assert!(!events.iter().any(|e| matches!(e, SftpEvent::TransferDone(_))));
    assert!(matches!(events.last(), Some(SftpEvent::QueueDone)));
    assert_eq!(events.len(), 1);
}

#[test]
fn remote_ops_emit_opdone_and_record() {
    let mut t = MockTransport::new(0);
    let events = drive(
        &mut t,
        vec![
            SftpCommand::Mkdir("/srv/newdir".into()),
            SftpCommand::Rename("/srv/a.txt".into(), "/srv/b.txt".into()),
            SftpCommand::Chmod("/srv/x.sh".into(), 0o755),
            SftpCommand::Remove("/srv/old".into(), true),
        ],
    );
    assert_eq!(events.iter().filter(|e| matches!(e, SftpEvent::OpDone)).count(), 4);
    assert_eq!(
        t.ops,
        vec![
            OpCall::Mkdir("/srv/newdir".into()),
            OpCall::Rename("/srv/a.txt".into(), "/srv/b.txt".into()),
            OpCall::Chmod("/srv/x.sh".into(), 0o755),
            OpCall::Remove("/srv/old".into(), true),
        ]
    );
}

#[test]
fn edit_download_emits_the_original_remote_stamp() {
    let mut t = MockTransport::new(42).with_stat("/srv/a.txt", false, 42);
    let events = drive(
        &mut t,
        vec![SftpCommand::EditDownload {
            remote: "/srv/a.txt".into(),
            local: "/tmp/edit/a.txt".into(),
        }],
    );

    assert!(events.iter().any(|event| matches!(
        event,
        SftpEvent::EditDownloaded(RemoteFileStamp { size: 42, mtime: None, is_regular: true })
    )));
    assert_eq!(
        t.calls.as_slice(),
        &[TransferCall {
            direction: Direction::Download,
            src: "/srv/a.txt".into(),
            dst: "/tmp/edit/a.txt".into(),
        }]
    );
}

fn edit_upload(mode: Option<u32>) -> SftpCommand {
    SftpCommand::EditUpload {
        local: "/tmp/edit/a.txt".into(),
        remote: "/srv/a.txt".into(),
        expected: RemoteFileStamp { size: 42, mtime: None, is_regular: true },
        mode,
    }
}

#[test]
fn edit_upload_checks_stamp_and_restores_mode() {
    let mut t = MockTransport::new(42).with_stat("/srv/a.txt", false, 42);
    let events = drive(&mut t, vec![edit_upload(Some(0o755))]);

    assert!(events.iter().any(|event| matches!(event, SftpEvent::EditUploaded(None))));
    assert!(t.ops.contains(&OpCall::Chmod("/srv/a.txt".into(), 0o755)));
}

#[test]
fn edit_upload_refuses_a_changed_remote_file() {
    let mut t = MockTransport::new(42).with_stat("/srv/a.txt", false, 99);
    let events = drive(&mut t, vec![edit_upload(None)]);

    assert!(events.iter().any(|event| matches!(event, SftpEvent::EditError(_))));
    assert!(t.calls.is_empty());
}

#[test]
fn recursive_download_transfers_whole_tree() {
    let dst = "/tmp/sshub-sftp/proj";
    let mut t = MockTransport::new(PROGRESS_STEP)
        .with_listing("/srv/proj", vec![entry("sub", true), entry("a.txt", false)])
        .with_listing("/srv/proj/sub", vec![entry("b.txt", false)]);

    let item = QueuedTransfer { is_dir: true, ..dl("/srv/proj", dst) };
    let events = drive(&mut t, vec![SftpCommand::RunQueue(vec![item])]);

    let dsts: Vec<String> = t.calls.iter().map(|c| c.dst.clone()).collect();
    assert_eq!(t.calls.len(), 2, "both files in the tree downloaded");
    assert!(dsts.contains(&format!("{dst}/a.txt")));
    assert!(dsts.contains(&format!("{dst}/sub/b.txt")));
    assert!(t.local_dirs.contains(&format!("{dst}/sub")), "local mirror dir created");
    assert!(events.iter().any(|e| matches!(e, SftpEvent::TransferDone(0))));
    assert!(matches!(events.last(), Some(SftpEvent::QueueDone)));
}

#[test]
fn recursive_download_classifies_symlinks_via_stat() {
    let dst = "/tmp/sshub-sftp-sym/proj";
    let sym = |name: &str| FileEntry { size: 9, is_symlink: true, ..entry(name, false) };
    let mut t = MockTransport::new(PROGRESS_STEP)
        .with_listing(
            "/srv/proj",
            vec![sym("dirlink"), sym("filelink"), sym("broken"), entry("real.txt", false)],
        )
        .with_stat("/srv/proj/dirlink", true, 0)
        .with_stat("/srv/proj/filelink", false, 1000);

    let item = QueuedTransfer { is_dir: true, ..dl("/srv/proj", dst) };
    let events = drive(&mut t, vec![SftpCommand::RunQueue(vec![item])]);

    let dsts: Vec<String> = t.calls.iter().map(|c| c.dst.clone()).collect();
    assert_eq!(t.calls.len(), 2);
    assert!(dsts.contains(&format!("{dst}/filelink")));
    assert!(dsts.contains(&format!("{dst}/real.txt")));
    assert!(
        !events.iter().any(|e| matches!(e, SftpEvent::Error(_))),
        "no error: symlinks are never opened as directories"
    );
    let planned = events
        .iter()
        .find_map(|e| match e {
            SftpEvent::Progress { size, .. } => Some(*size),
            _ => None,
        })
        .expect("progress emitted");
    assert_eq!(planned, 1042);
    assert!(matches!(events.last(), Some(SftpEvent::QueueDone)));
}

#[test]
fn recursive_upload_makes_remote_directories_and_skips_directory_links() {
    let link = FileEntry { is_symlink: true, ..entry("dirlink", false) };
    let mut t = MockTransport::new(10)
        .with_local("/home/proj", vec![entry("sub", true), entry("a.txt", false), link])
        .with_local("/home/proj/sub", vec![entry("b.txt", false)])
        .with_stat("/home/proj/dirlink", true, 0);

    let item = QueuedTransfer { is_dir: true, ..up("/home/proj", "/srv/proj") };
    let events = drive(&mut t, vec![SftpCommand::RunQueue(vec![item])]);

    let mut dsts: Vec<String> = t.calls.iter().map(|c| c.dst.clone()).collect();
    dsts.sort();
    assert_eq!(dsts, vec!["/srv/proj/a.txt".to_string(), "/srv/proj/sub/b.txt".to_string()]);
    assert_eq!(
        t.ops,
        vec![OpCall::Mkdir("/srv/proj".into()), OpCall::Mkdir("/srv/proj/sub".into())]
    );
    assert!(events.contains(&SftpEvent::TransferDone(0)));
}

#[test]
fn a_failed_file_of_a_tree_does_not_stop_the_others() {
    let mut t = MockTransport::new(10)
        .with_listing("/srv/proj", vec![entry("a.txt", false), entry("b.txt", false)]);
    t.fail_on = Some(0);
    let item = QueuedTransfer { is_dir: true, ..dl("/srv/proj", "/home/proj") };
    let events = drive(&mut t, vec![SftpCommand::RunQueue(vec![item])]);

    assert_eq!(t.calls.len(), 2);
    assert!(!events.contains(&SftpEvent::TransferDone(0)));
    let errors: Vec<&SftpEvent> =
        events.iter().filter(|e| matches!(e, SftpEvent::Error(_))).collect();
    assert_eq!(errors.len(), 1);
    assert!(matches!(errors[0], SftpEvent::Error(m) if m.contains("boom on transfer 0")));
    assert_eq!(events.last(), Some(&SftpEvent::QueueDone));
}

#[test]
fn progress_is_reported_once_per_step() {
    let mut t = MockTransport::new(3 * PROGRESS_STEP);
    let events =
        drive(&mut t, vec![SftpCommand::RunQueue(vec![dl("/srv/a.txt", "/home/a.txt")])]);
    let seen: Vec<u64> = events
        .iter()
        .filter_map(|e| match e {
            SftpEvent::Progress { transferred, .. } => Some(*transferred),
            _ => None,
        })
        .collect();
    assert_eq!(seen, vec![0, PROGRESS_STEP, 2 * PROGRESS_STEP, 3 * PROGRESS_STEP]);
}

#[test]
fn an_empty_queue_is_done_at_once() {
    let mut t = MockTransport::new(0);
    assert_eq!(drive(&mut t, vec![SftpCommand::RunQueue(vec![])]), vec![SftpEvent::QueueDone]);
}

#[test]
fn connecting_is_reported_either_way() {
    let mut t = MockTransport::new(0);
    let (_, events) = serve(Worker::connecting(), &mut t, vec![], true);
    assert_eq!(events, vec![SftpEvent::Connected]);

    let mut t = MockTransport { refuse_connection: true, ..MockTransport::default() };
    let (worker, events) =
        serve(Worker::connecting(), &mut t, vec![SftpCommand::Mkdir("/x".into())], true);
    assert_eq!(events, vec![SftpEvent::ConnectFailed("no route".into())]);
    assert!(worker.stopped());
    assert!(t.ops.is_empty());
}

#[test]
fn permissions_that_cannot_be_restored_are_a_warning() {
    let mut t = MockTransport::new(42).with_stat("/srv/a.txt", false, 42);
    t.fail_chmod = true;
    let events = drive(&mut t, vec![edit_upload(Some(0o644))]);
    assert_eq!(
        events.last(),
        Some(&SftpEvent::EditUploaded(Some(
            "could not restore permissions to 644: denied".into()
        )))
    );
}

#[test]
fn edit_errors_name_the_file_and_the_change() {
    let mut t = MockTransport::new(42).with_stat("/srv/a.txt", false, 99);
    let events = drive(&mut t, vec![edit_upload(None)]);
    assert_eq!(
        events,
        vec![SftpEvent::EditError(
            "edit upload /srv/a.txt: remote file changed while it was being edited \
             (size 42 -> 99, mtime None -> None)"
                .into()
        )]
    );

    let mut t = MockTransport::new(42);
    let events = drive(
        &mut t,
        vec![SftpCommand::EditDownload { remote: "/srv/b".into(), local: "/tmp/b".into() }],
    );
    assert_eq!(
        events,
        vec![SftpEvent::EditError("edit download /srv/b: no canned stat for /srv/b".into())]
    );
}

#[test]
fn stray_cancels_say_nothing() {
    let mut t = MockTransport::new(0);
    assert!(drive(&mut t, vec![SftpCommand::Cancel, SftpCommand::Cancel]).is_empty());
}

#[test]
fn every_command_is_closed_by_one_event_in_order() {
    let mut transport = MockTransport::new(8)
        .with_listing("/srv", vec![entry("a", false)])
        .with_stat("/srv/a", false, 8);
    transport.fail_chmod = true;
    let events = drive(
        &mut transport,
        vec![
            SftpCommand::Cancel,
            SftpCommand::ListDir(Side::Remote, "/gone".into()),
            SftpCommand::ListDir(Side::Local, "/home".into()),
            SftpCommand::Chmod("/srv/a".into(), 0o600),
            SftpCommand::EditDownload { remote: "/srv/b".into(), local: "/tmp/b".into() },
            SftpCommand::EditDownload { remote: "/srv/a".into(), local: "/tmp/a".into() },
            SftpCommand::Mkdir("/srv/new".into()),
            SftpCommand::ListDir(Side::Remote, "/srv".into()),
        ],
    );
    let closing: Vec<String> = events
        .iter()
        .filter(|event| !matches!(event, SftpEvent::Progress { .. }))
        .map(|event| format!("{event:?}"))
        .collect();
    assert_eq!(closing.len(), 6);
    assert_eq!(closing[0], "Error(\"no canned listing for /gone\")");
    assert_eq!(closing[1], "Error(\"chmod /srv/a: denied\")");
    assert_eq!(closing[2], "EditError(\"edit download /srv/b: no canned stat for /srv/b\")");
    assert!(closing[3].starts_with("EditDownloaded("));
    assert_eq!(closing[4], "OpDone");
    assert!(closing[5].starts_with("DirListing(Remote, \"/srv\", "));
}
