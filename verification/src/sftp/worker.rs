//! The SFTP worker as a machine. A thread owns the blocking transport; it
//! performs the [`Request`] it is given and hands back the [`Answer`]. Every
//! decision lies here: which request follows which answer, what is reported to
//! the user interface, and when a running queue stops.

use vstd::prelude::*;

use crate::paths::{join, joined};
use crate::sftp::model::{
    CommandView, Direction, EventView, FileEntry, FileEntryView, QueuedTransfer, RemoteFileStamp,
    SftpCommand, SftpEvent, Side, TransferView,
};
use crate::text::{
    cat2, cat3, cat4, cat5, decimal, group_views, numeral, opt_view, to_decimal, to_octal, views,
};

verus! {

broadcast use crate::text::group_views;

/// A progress event is emitted at most this often (bytes) during a transfer.
pub const PROGRESS_STEP: u64 = 65536;

/// One entry met while walking a directory.
#[derive(Debug, PartialEq, Eq)]
pub enum DirEntry {
    Found(FileEntry),
    /// The entry could not be read.
    Failed(String),
}

#[verifier::ext_equal]
pub enum DirEntryView {
    Found(FileEntryView),
    Failed(Seq<char>),
}

impl View for DirEntry {
    type V = DirEntryView;

    open spec fn view(&self) -> DirEntryView {
        match self {
            DirEntry::Found(entry) => DirEntryView::Found(entry@),
            DirEntry::Failed(message) => DirEntryView::Failed(message@),
        }
    }
}

/// What the thread must do next.
#[derive(Debug, PartialEq, Eq)]
pub enum Request {
    /// Connect, authenticate and open the SFTP subsystem.
    Connect,
    /// Wait for the next command.
    NextCommand,
    /// Take, without waiting, every command there is.
    PollCommands,
    /// Deliver an event to the user interface.
    Emit(SftpEvent),
    /// List a remote directory.
    ListDir(String),
    /// Stat a remote path, following links.
    Stat(String),
    /// Read the stamp of a remote file.
    FileStamp(String),
    /// Copy a remote file to a local path.
    Download { remote: String, local: String },
    /// Copy a local file to a remote path.
    Upload { local: String, remote: String },
    Remove(String, bool),
    Mkdir(String),
    Rename(String, String),
    Chmod(String, u32),
    /// Create a local directory and its parents.
    CreateLocalDir(String),
    /// List a local directory, without following links.
    ReadLocalDir(String),
    /// Stat a local path, following links.
    LocalStat(String),
    /// End the thread.
    Exit,
}

#[verifier::ext_equal]
pub enum RequestView {
    Connect,
    NextCommand,
    PollCommands,
    Emit(EventView),
    ListDir(Seq<char>),
    Stat(Seq<char>),
    FileStamp(Seq<char>),
    Download { remote: Seq<char>, local: Seq<char> },
    Upload { local: Seq<char>, remote: Seq<char> },
    Remove(Seq<char>, bool),
    Mkdir(Seq<char>),
    Rename(Seq<char>, Seq<char>),
    Chmod(Seq<char>, u32),
    CreateLocalDir(Seq<char>),
    ReadLocalDir(Seq<char>),
    LocalStat(Seq<char>),
    Exit,
}

impl View for Request {
    type V = RequestView;

    open spec fn view(&self) -> RequestView {
        match self {
            Request::Connect => RequestView::Connect,
            Request::NextCommand => RequestView::NextCommand,
            Request::PollCommands => RequestView::PollCommands,
            Request::Emit(event) => RequestView::Emit(event@),
            Request::ListDir(path) => RequestView::ListDir(path@),
            Request::Stat(path) => RequestView::Stat(path@),
            Request::FileStamp(path) => RequestView::FileStamp(path@),
            Request::Download { remote, local } => RequestView::Download {
                remote: remote@,
                local: local@,
            },
            Request::Upload { local, remote } => RequestView::Upload {
                local: local@,
                remote: remote@,
            },
            Request::Remove(path, is_dir) => RequestView::Remove(path@, *is_dir),
            Request::Mkdir(path) => RequestView::Mkdir(path@),
            Request::Rename(from, to) => RequestView::Rename(from@, to@),
            Request::Chmod(path, mode) => RequestView::Chmod(path@, *mode),
            Request::CreateLocalDir(path) => RequestView::CreateLocalDir(path@),
            Request::ReadLocalDir(path) => RequestView::ReadLocalDir(path@),
            Request::LocalStat(path) => RequestView::LocalStat(path@),
            Request::Exit => RequestView::Exit,
        }
    }
}

/// What came of a request.
#[derive(Debug)]
pub enum Answer {
    /// The next command, or `None` once the command channel is closed.
    Command(Option<SftpCommand>),
    /// The commands that were waiting, oldest first.
    Pending(Vec<SftpCommand>),
    /// Whether the event was delivered.
    Delivered(bool),
    Listing(Result<Vec<FileEntry>, String>),
    LocalListing(Result<Vec<DirEntry>, String>),
    /// Whether the path is a directory, and its size.
    Stat(Result<(bool, u64), String>),
    Stamp(Result<RemoteFileStamp, String>),
    Done(Result<(), String>),
}

#[verifier::ext_equal]
pub enum AnswerView {
    Command(Option<CommandView>),
    Pending(Seq<CommandView>),
    Delivered(bool),
    Listing(Result<Seq<FileEntryView>, Seq<char>>),
    LocalListing(Result<Seq<DirEntryView>, Seq<char>>),
    Stat(Result<(bool, u64), Seq<char>>),
    Stamp(Result<RemoteFileStamp, Seq<char>>),
    Done(Result<(), Seq<char>>),
}

impl View for Answer {
    type V = AnswerView;

    open spec fn view(&self) -> AnswerView {
        match self {
            Answer::Command(command) => AnswerView::Command(opt_view(*command)),
            Answer::Pending(commands) => AnswerView::Pending(views(commands@)),
            Answer::Delivered(ok) => AnswerView::Delivered(*ok),
            Answer::Listing(Ok(entries)) => AnswerView::Listing(Ok(views(entries@))),
            Answer::Listing(Err(e)) => AnswerView::Listing(Err(e@)),
            Answer::LocalListing(Ok(entries)) => AnswerView::LocalListing(Ok(views(entries@))),
            Answer::LocalListing(Err(e)) => AnswerView::LocalListing(Err(e@)),
            Answer::Stat(Ok(stat)) => AnswerView::Stat(Ok(*stat)),
            Answer::Stat(Err(e)) => AnswerView::Stat(Err(e@)),
            Answer::Stamp(Ok(stamp)) => AnswerView::Stamp(Ok(*stamp)),
            Answer::Stamp(Err(e)) => AnswerView::Stamp(Err(e@)),
            Answer::Done(Ok(_)) => AnswerView::Done(Ok(())),
            Answer::Done(Err(e)) => AnswerView::Done(Err(e@)),
        }
    }
}

/// A file found by walking a tree, to be copied.
struct Planned {
    src: String,
    dst: String,
    size: u64,
}

#[verifier::ext_equal]
pub struct PlannedView {
    pub src: Seq<char>,
    pub dst: Seq<char>,
    pub size: u64,
}

impl View for Planned {
    type V = PlannedView;

    closed spec fn view(&self) -> PlannedView {
        PlannedView { src: self.src@, dst: self.dst@, size: self.size }
    }
}

/// A directory on the way down the tree, and the entry to look at next.
struct Frame {
    src: String,
    dst: String,
    entries: Vec<DirEntry>,
    next: usize,
}

#[verifier::ext_equal]
pub struct FrameView {
    pub src: Seq<char>,
    pub dst: Seq<char>,
    pub entries: Seq<DirEntryView>,
    pub next: nat,
}

impl View for Frame {
    type V = FrameView;

    closed spec fn view(&self) -> FrameView {
        FrameView {
            src: self.src@,
            dst: self.dst@,
            entries: views(self.entries@),
            next: self.next as nat,
        }
    }
}

/// The transfer of one directory tree: first the walk that collects the files,
/// then the files one by one.
struct Tree {
    /// The directory being opened, or the link being looked at.
    src: String,
    dst: String,
    frames: Vec<Frame>,
    files: Vec<Planned>,
    /// Bytes in all the files found.
    total: u64,
    /// The file being copied.
    at: usize,
    /// Bytes in the files before it.
    base: u64,
    failed: u64,
    first_error: Option<String>,
}

#[verifier::ext_equal]
pub struct TreeView {
    pub src: Seq<char>,
    pub dst: Seq<char>,
    pub frames: Seq<FrameView>,
    pub files: Seq<PlannedView>,
    pub total: u64,
    pub at: nat,
    pub base: u64,
    pub failed: u64,
    pub first_error: Option<Seq<char>>,
}

impl View for Tree {
    type V = TreeView;

    closed spec fn view(&self) -> TreeView {
        TreeView {
            src: self.src@,
            dst: self.dst@,
            frames: views(self.frames@),
            files: views(self.files@),
            total: self.total,
            at: self.at as nat,
            base: self.base,
            failed: self.failed,
            first_error: opt_view(self.first_error),
        }
    }
}

impl TreeView {
    pub open spec fn new(src: Seq<char>, dst: Seq<char>) -> TreeView {
        TreeView {
            src,
            dst,
            frames: Seq::empty(),
            files: Seq::empty(),
            total: 0,
            at: 0,
            base: 0,
            failed: 0,
            first_error: None,
        }
    }
}

/// Where a running queue stands, by what it waits for.
enum Stage {
    /// Before a transfer: the commands that came in meanwhile.
    Poll,
    /// A single file is being copied.
    File,
    /// Before a directory: the commands that came in meanwhile.
    OpenPoll,
    /// The mirrored directory is being created.
    OpenMake,
    /// Its creation failed with this error; is it there all the same?
    OpenRecheck(String),
    /// The directory is being listed.
    OpenRead,
    /// A link is being followed.
    Link,
    /// Progress before the next file of a tree is being delivered.
    TreeReport,
    /// Before a file of a tree: the commands that came in meanwhile.
    TreePoll,
    /// A file of a tree is being copied.
    TreeFile,
    /// The outcome of a transfer is being delivered.
    ItemReport,
    /// The end of the queue is being delivered.
    QueueReport,
}

#[verifier::ext_equal]
pub enum StageView {
    Poll,
    File,
    OpenPoll,
    OpenMake,
    OpenRecheck(Seq<char>),
    OpenRead,
    Link,
    TreeReport,
    TreePoll,
    TreeFile,
    ItemReport,
    QueueReport,
}

impl View for Stage {
    type V = StageView;

    closed spec fn view(&self) -> StageView {
        match self {
            Stage::Poll => StageView::Poll,
            Stage::File => StageView::File,
            Stage::OpenPoll => StageView::OpenPoll,
            Stage::OpenMake => StageView::OpenMake,
            Stage::OpenRecheck(error) => StageView::OpenRecheck(error@),
            Stage::OpenRead => StageView::OpenRead,
            Stage::Link => StageView::Link,
            Stage::TreeReport => StageView::TreeReport,
            Stage::TreePoll => StageView::TreePoll,
            Stage::TreeFile => StageView::TreeFile,
            Stage::ItemReport => StageView::ItemReport,
            Stage::QueueReport => StageView::QueueReport,
        }
    }
}

/// A queue being run.
struct Run {
    items: Vec<QueuedTransfer>,
    index: usize,
    /// The byte count last reported for this transfer.
    last_emit: u64,
    /// An event of this transfer could not be delivered.
    lost: bool,
    stage: Stage,
    tree: Tree,
}

#[verifier::ext_equal]
pub struct RunView {
    pub items: Seq<TransferView>,
    pub index: nat,
    pub last_emit: u64,
    pub lost: bool,
    pub stage: StageView,
    pub tree: TreeView,
}

impl View for Run {
    type V = RunView;

    closed spec fn view(&self) -> RunView {
        RunView {
            items: views(self.items@),
            index: self.index as nat,
            last_emit: self.last_emit,
            lost: self.lost,
            stage: self.stage@,
            tree: self.tree@,
        }
    }
}

/// What the worker is doing.
enum Task {
    /// Connecting.
    Connecting,
    /// Delivering the failure to connect.
    Parting,
    /// Waiting for a command.
    Idle,
    /// Delivering the one event a command ends in.
    Reporting,
    Listing(String),
    /// An edit download, reading the stamp.
    EditStamp { remote: String, local: String },
    /// An edit download, copying.
    EditGet { remote: String, stamp: RemoteFileStamp, lost: bool },
    /// An edit upload, reading the stamp.
    EditCheck { local: String, remote: String, expected: RemoteFileStamp, mode: Option<u32> },
    /// An edit upload, copying.
    EditPut { remote: String, mode: Option<u32>, lost: bool },
    /// An edit upload, restoring the permission bits.
    EditMode { bits: u32, lost: bool },
    /// A single operation; its errors start with this text.
    Operation(String),
    Queue(Run),
    Stopped,
}

#[verifier::ext_equal]
pub enum TaskView {
    Connecting,
    Parting,
    Idle,
    Reporting,
    Listing(Seq<char>),
    EditStamp { remote: Seq<char>, local: Seq<char> },
    EditGet { remote: Seq<char>, stamp: RemoteFileStamp, lost: bool },
    EditCheck { local: Seq<char>, remote: Seq<char>, expected: RemoteFileStamp, mode: Option<u32> },
    EditPut { remote: Seq<char>, mode: Option<u32>, lost: bool },
    EditMode { bits: u32, lost: bool },
    Operation(Seq<char>),
    Queue(RunView),
    Stopped,
}

impl View for Task {
    type V = TaskView;

    closed spec fn view(&self) -> TaskView {
        match self {
            Task::Connecting => TaskView::Connecting,
            Task::Parting => TaskView::Parting,
            Task::Idle => TaskView::Idle,
            Task::Reporting => TaskView::Reporting,
            Task::Listing(path) => TaskView::Listing(path@),
            Task::EditStamp { remote, local } => TaskView::EditStamp {
                remote: remote@,
                local: local@,
            },
            Task::EditGet { remote, stamp, lost } => TaskView::EditGet {
                remote: remote@,
                stamp: *stamp,
                lost: *lost,
            },
            Task::EditCheck { local, remote, expected, mode } => TaskView::EditCheck {
                local: local@,
                remote: remote@,
                expected: *expected,
                mode: *mode,
            },
            Task::EditPut { remote, mode, lost } => TaskView::EditPut {
                remote: remote@,
                mode: *mode,
                lost: *lost,
            },
            Task::EditMode { bits, lost } => TaskView::EditMode { bits: *bits, lost: *lost },
            Task::Operation(prefix) => TaskView::Operation(prefix@),
            Task::Queue(run) => TaskView::Queue(run@),
            Task::Stopped => TaskView::Stopped,
        }
    }
}

/// The sum of two byte counts; a sum past the largest count stays there.
pub open spec fn saturated(a: u64, b: u64) -> u64 {
    if a + b <= u64::MAX {
        (a + b) as u64
    } else {
        u64::MAX
    }
}

fn saturate(a: u64, b: u64) -> (r: u64)
    ensures
        r == saturated(a, b),
{
    if a <= u64::MAX - b {
        a + b
    } else {
        u64::MAX
    }
}

/// Whether `transferred` bytes of `size` are worth an event after `last` was
/// reported: the start, the end, and every step in between.
pub open spec fn progress_due(last: u64, transferred: u64, size: u64) -> bool {
    ||| transferred - last >= PROGRESS_STEP
    ||| transferred == 0
    ||| transferred >= size && size > 0
}

/// What one transfer of a queue came to.
enum Outcome {
    /// A cancel landed while it ran.
    Cancelled,
    Finished,
    Failed(String),
}

#[verifier::ext_equal]
pub enum OutcomeView {
    Cancelled,
    Finished,
    Failed(Seq<char>),
}

impl View for Outcome {
    type V = OutcomeView;

    closed spec fn view(&self) -> OutcomeView {
        match self {
            Outcome::Cancelled => OutcomeView::Cancelled,
            Outcome::Finished => OutcomeView::Finished,
            Outcome::Failed(message) => OutcomeView::Failed(message@),
        }
    }
}

/// The entries of a remote listing, as met on a walk.
pub open spec fn all_found(entries: Seq<FileEntryView>) -> Seq<DirEntryView> {
    Seq::new(entries.len(), |i: int| DirEntryView::Found(entries[i]))
}

/// How many entries are still to be looked at on the way down.
pub open spec fn entries_left(frames: Seq<FrameView>) -> nat
    decreases frames.len(),
{
    if frames.len() == 0 {
        0
    } else {
        let last = frames.last();
        entries_left(frames.drop_last()) + if last.next < last.entries.len() {
            (last.entries.len() - last.next) as nat
        } else {
            0
        }
    }
}

impl RunView {
    /// There is a transfer at `index` unless the end is being delivered, and a
    /// file at `tree.at` where one is about to be copied.
    pub open spec fn wf(self) -> bool {
        &&& self.index < self.items.len() || self.stage is QueueReport
        &&& self.stage is TreePoll || self.stage is TreeFile ==> self.tree.at
            < self.tree.files.len()
        &&& self.tree.at <= self.tree.files.len()
    }

    pub open spec fn at_stage(self, stage: StageView) -> RunView {
        RunView { stage, ..self }
    }

    pub open spec fn item(self) -> TransferView {
        self.items[self.index as int]
    }

    /// The queue ends: this is delivered, and nothing of the queue after it.
    pub open spec fn ended(self) -> (TaskView, RequestView) {
        (
            TaskView::Queue(self.at_stage(StageView::QueueReport)),
            RequestView::Emit(EventView::QueueDone),
        )
    }

    /// The queue moves on to the transfer at `index`, if there is one.
    pub open spec fn next_item(self) -> (TaskView, RequestView) {
        if self.index < self.items.len() {
            (TaskView::Queue(self.at_stage(StageView::Poll)), RequestView::PollCommands)
        } else {
            self.ended()
        }
    }

    /// The transfer at `index` is over.
    pub open spec fn item_over(self, outcome: OutcomeView) -> (TaskView, RequestView) {
        if self.lost {
            (TaskView::Stopped, RequestView::Exit)
        } else {
            match outcome {
                OutcomeView::Cancelled => self.ended(),
                OutcomeView::Finished => (
                    TaskView::Queue(self.at_stage(StageView::ItemReport)),
                    RequestView::Emit(EventView::TransferDone(self.index as usize)),
                ),
                OutcomeView::Failed(message) => (
                    TaskView::Queue(self.at_stage(StageView::ItemReport)),
                    RequestView::Emit(EventView::Error(message)),
                ),
            }
        }
    }

    /// The transfer at `index` starts.
    pub open spec fn begin_item(self) -> (TaskView, RequestView) {
        let item = self.item();
        let run = RunView {
            last_emit: 0,
            lost: false,
            tree: TreeView::new(item.src, item.dst),
            ..self
        };
        if item.is_dir {
            (TaskView::Queue(run.at_stage(StageView::OpenPoll)), RequestView::PollCommands)
        } else {
            (
                TaskView::Queue(run.at_stage(StageView::File)),
                copy_request(item.direction, item.src, item.dst),
            )
        }
    }

    /// Progress of the running transfer: the event it is worth, if any.
    pub open spec fn progress(self, transferred: u64, size: u64) -> (RunView, Option<EventView>) {
        if !self.lost && progress_due(self.last_emit, transferred, size) {
            (
                RunView { last_emit: transferred, ..self },
                Some(
                    EventView::Progress {
                        index: self.index as usize,
                        total: self.items.len() as usize,
                        transferred,
                        size,
                    },
                ),
            )
        } else {
            (self, None)
        }
    }

    /// The walk goes on with the entry that is next: files are collected,
    /// links looked at, directories opened. A link is never descended into.
    pub open spec fn walk(self) -> (TaskView, RequestView)
        decreases entries_left(self.tree.frames), self.tree.frames.len(),
    {
        let tree = self.tree;
        let frames = tree.frames;
        if frames.len() == 0 {
            self.report_tree(0)
        } else {
            let top = frames.last();
            if top.next >= top.entries.len() {
                RunView { tree: TreeView { frames: frames.drop_last(), ..tree }, ..self }.walk()
            } else {
                let moved = frames.drop_last().push(FrameView { next: top.next + 1, ..top });
                proof {
                    assert(moved.drop_last() =~= frames.drop_last());
                }
                match top.entries[top.next as int] {
                    DirEntryView::Failed(message) => RunView {
                        tree: TreeView { frames: moved, ..tree },
                        ..self
                    }.item_over(OutcomeView::Failed(message)),
                    DirEntryView::Found(entry) => {
                        let src = joined(top.src, entry.name);
                        let dst = joined(top.dst, entry.name);
                        let run = RunView {
                            tree: TreeView { frames: moved, src, dst, ..tree },
                            ..self
                        };
                        if entry.is_symlink {
                            (
                                TaskView::Queue(run.at_stage(StageView::Link)),
                                match self.item().direction {
                                    Direction::Download => RequestView::Stat(src),
                                    Direction::Upload => RequestView::LocalStat(src),
                                },
                            )
                        } else if entry.is_dir {
                            (
                                TaskView::Queue(run.at_stage(StageView::OpenPoll)),
                                RequestView::PollCommands,
                            )
                        } else {
                            RunView {
                                tree: TreeView { frames: moved, ..tree }.with_file(
                                    src,
                                    dst,
                                    entry.size,
                                ),
                                ..self
                            }.walk()
                        }
                    },
                }
            }
        }
    }

    /// `done` bytes of the tree are behind: that is reported where it is due,
    /// and the next file follows.
    pub open spec fn report_tree(self, done: u64) -> (TaskView, RequestView) {
        match self.progress(done, self.tree.total) {
            (run, Some(event)) => (
                TaskView::Queue(run.at_stage(StageView::TreeReport)),
                RequestView::Emit(event),
            ),
            (run, None) => run.next_file(),
        }
    }

    /// The file at `tree.at` is up, or the tree is through.
    pub open spec fn next_file(self) -> (TaskView, RequestView) {
        if self.tree.at < self.tree.files.len() {
            (TaskView::Queue(self.at_stage(StageView::TreePoll)), RequestView::PollCommands)
        } else {
            self.item_over(
                match self.tree.first_error {
                    None => OutcomeView::Finished,
                    Some(first) => OutcomeView::Failed(
                        decimal(self.tree.failed as nat) + " file(s) failed (first: "@ + first
                            + ")"@,
                    ),
                },
            )
        }
    }

    /// The file at `tree.at` was copied, or could not be: the rest of the tree
    /// follows all the same.
    pub open spec fn file_over(self, result: Result<(), Seq<char>>) -> (TaskView, RequestView) {
        let tree = self.tree;
        let base = saturated(tree.base, tree.files[tree.at as int].size);
        let noted = match result {
            Ok(_) => tree,
            Err(e) => TreeView {
                failed: saturated(tree.failed, 1),
                first_error: match tree.first_error {
                    None => Some(e),
                    Some(first) => Some(first),
                },
                ..tree
            },
        };
        RunView { tree: TreeView { base, at: tree.at + 1, ..noted }, ..self }.report_tree(base)
    }
}

impl TreeView {
    /// One more file to copy.
    pub open spec fn with_file(self, src: Seq<char>, dst: Seq<char>, size: u64) -> TreeView {
        TreeView {
            files: self.files.push(PlannedView { src, dst, size }),
            total: saturated(self.total, size),
            ..self
        }
    }
}

/// The request that copies `src` to `dst`.
pub open spec fn copy_request(direction: Direction, src: Seq<char>, dst: Seq<char>) -> RequestView {
    match direction {
        Direction::Download => RequestView::Download { remote: src, local: dst },
        Direction::Upload => RequestView::Upload { local: src, remote: dst },
    }
}

fn request_copy(direction: Direction, src: &String, dst: &String) -> (r: Request)
    ensures
        r@ == copy_request(direction, src@, dst@),
{
    match direction {
        Direction::Download => Request::Download { remote: src.clone(), local: dst.clone() },
        Direction::Upload => Request::Upload { local: src.clone(), remote: dst.clone() },
    }
}

impl Run {
    fn ended(self) -> (r: (Task, Request))
        ensures
            (r.0@, r.1@) == self@.ended(),
    {
        let mut run = self;
        run.stage = Stage::QueueReport;
        (Task::Queue(run), Request::Emit(SftpEvent::QueueDone))
    }

    fn next_item(self) -> (r: (Task, Request))
        ensures
            (r.0@, r.1@) == self@.next_item(),
    {
        if self.index < self.items.len() {
            let mut run = self;
            run.stage = Stage::Poll;
            (Task::Queue(run), Request::PollCommands)
        } else {
            self.ended()
        }
    }

    fn item_over(self, outcome: Outcome) -> (r: (Task, Request))
        ensures
            (r.0@, r.1@) == self@.item_over(outcome@),
    {
        let mut run = self;
        if run.lost {
            return (Task::Stopped, Request::Exit);
        }
        match outcome {
            Outcome::Cancelled => run.ended(),
            Outcome::Finished => {
                let index: usize = run.index;
                run.stage = Stage::ItemReport;
                (Task::Queue(run), Request::Emit(SftpEvent::TransferDone(index)))
            },
            Outcome::Failed(message) => {
                run.stage = Stage::ItemReport;
                (Task::Queue(run), Request::Emit(SftpEvent::Error(message)))
            },
        }
    }

    fn begin_item(self) -> (r: (Task, Request))
        requires
            self.index < self.items@.len(),
        ensures
            (r.0@, r.1@) == self@.begin_item(),
    {
        let mut run = self;
        let item = &run.items[run.index];
        let direction = item.direction;
        let is_dir = item.is_dir;
        let request = request_copy(direction, &item.src, &item.dst);
        let tree = Tree {
            src: item.src.clone(),
            dst: item.dst.clone(),
            frames: Vec::new(),
            files: Vec::new(),
            total: 0,
            at: 0,
            base: 0,
            failed: 0,
            first_error: None,
        };
        run.last_emit = 0;
        run.lost = false;
        run.tree = tree;
        if is_dir {
            run.stage = Stage::OpenPoll;
            (Task::Queue(run), Request::PollCommands)
        } else {
            run.stage = Stage::File;
            (Task::Queue(run), request)
        }
    }

    fn progress(&mut self, transferred: u64, size: u64) -> (r: Option<SftpEvent>)
        ensures
            (final(self)@, opt_view(r)) == old(self)@.progress(transferred, size),
    {
        let step = transferred >= self.last_emit && transferred - self.last_emit >= PROGRESS_STEP;
        if !self.lost && (step || transferred == 0 || (transferred >= size && size > 0)) {
            self.last_emit = transferred;
            Some(
                SftpEvent::Progress {
                    index: self.index,
                    total: self.items.len(),
                    transferred,
                    size,
                },
            )
        } else {
            None
        }
    }

    fn report_tree(self, done: u64) -> (r: (Task, Request))
        ensures
            (r.0@, r.1@) == self@.report_tree(done),
    {
        let mut run = self;
        let total: u64 = run.tree.total;
        match run.progress(done, total) {
            Some(event) => {
                run.stage = Stage::TreeReport;
                (Task::Queue(run), Request::Emit(event))
            },
            None => run.next_file(),
        }
    }

    fn next_file(self) -> (r: (Task, Request))
        ensures
            (r.0@, r.1@) == self@.next_file(),
    {
        let mut run = self;
        if run.tree.at < run.tree.files.len() {
            run.stage = Stage::TreePoll;
            (Task::Queue(run), Request::PollCommands)
        } else {
            let outcome = match &run.tree.first_error {
                None => Outcome::Finished,
                Some(first) => Outcome::Failed(
                    cat4(
                        to_decimal(run.tree.failed).as_str(),
                        " file(s) failed (first: ",
                        first.as_str(),
                        ")",
                    ),
                ),
            };
            run.item_over(outcome)
        }
    }

    fn file_over(self, result: Result<(), String>) -> (r: (Task, Request))
        requires
            self.tree.at < self.tree.files@.len(),
        ensures
            (r.0@, r.1@) == self@.file_over(
                match result {
                    Ok(_) => Ok(()),
                    Err(e) => Err(e@),
                },
            ),
    {
        let mut run = self;
        let count: usize = run.tree.files.len();
        let base: u64 = saturate(run.tree.base, run.tree.files[run.tree.at].size);
        if let Err(e) = result {
            run.tree.failed = saturate(run.tree.failed, 1);
            if run.tree.first_error.is_none() {
                run.tree.first_error = Some(e);
            }
        }
        run.tree.base = base;
        run.tree.at = run.tree.at + 1;
        run.report_tree(base)
    }
}

fn found_entries(entries: Vec<FileEntry>) -> (r: Vec<DirEntry>)
    ensures
        views(r@) == all_found(views(entries@)),
{
    let mut out: Vec<DirEntry> = Vec::new();
    let mut i: usize = 0;
    while i < entries.len()
        invariant
            i <= entries@.len(),
            out@.len() == i,
            forall|k: int| 0 <= k < i ==> (#[trigger] out@[k])@ == DirEntryView::Found(entries@[k]@),
        decreases entries@.len() - i,
    {
        out.push(DirEntry::Found(entries[i].clone()));
        i = i + 1;
    }
    assert(views(out@) =~= all_found(views(entries@)));
    out
}

impl Run {
    /// Puts the entry that is next behind the walk and returns it.
    fn take_entry(&mut self) -> (r: Option<(DirEntry, String, String)>)
        requires
            old(self).tree.frames@.len() > 0,
        ensures
            ({
                let frames = old(self)@.tree.frames;
                let top = frames.last();
                let rest = RunView {
                    tree: TreeView { frames: final(self)@.tree.frames, ..old(self)@.tree },
                    ..old(self)@
                };
                &&& final(self)@ == rest
                &&& r is None <==> top.next >= top.entries.len()
                &&& r is None ==> final(self)@.tree.frames == frames.drop_last()
                &&& r matches Some(entry) ==> {
                    &&& entry.0@ == top.entries[top.next as int]
                    &&& entry.1@ == top.src
                    &&& entry.2@ == top.dst
                    &&& final(self)@.tree.frames == frames.drop_last().push(
                        FrameView { next: top.next + 1, ..top },
                    )
                }
            }),
    {
        let ghost before = self.tree.frames@;
        assert(views(before).drop_last() =~= views(before.drop_last()));
        match self.tree.frames.pop() {
            None => None,
            Some(mut top) => {
                if top.next < top.entries.len() {
                    let entry = match &top.entries[top.next] {
                        DirEntry::Found(found) => DirEntry::Found(found.clone()),
                        DirEntry::Failed(message) => DirEntry::Failed(message.clone()),
                    };
                    let src = top.src.clone();
                    let dst = top.dst.clone();
                    top.next = top.next + 1;
                    self.tree.frames.push(top);
                    Some((entry, src, dst))
                } else {
                    None
                }
            },
        }
    }

    fn add_file(&mut self, src: String, dst: String, size: u64)
        ensures
            final(self)@ == (RunView {
                tree: old(self)@.tree.with_file(src@, dst@, size),
                ..old(self)@
            }),
    {
        self.tree.files.push(Planned { src, dst, size });
        self.tree.total = saturate(self.tree.total, size);
    }

    fn walk(self) -> (r: (Task, Request))
        requires
            self.index < self.items@.len(),
        ensures
            (r.0@, r.1@) == self@.walk(),
    {
        let mut run = self;
        let direction = run.items[run.index].direction;
        while run.tree.frames.len() > 0
            invariant
                run@.walk() == self@.walk(),
                run@.items == self@.items,
                run.index == self.index,
                run.index < run.items@.len(),
                direction == run@.item().direction,
            decreases entries_left(run@.tree.frames), run.tree.frames@.len(),
        {
            let ghost before = run@;
            let ghost top = before.tree.frames.last();
            proof {
                let moved = before.tree.frames.drop_last().push(
                    FrameView { next: top.next + 1, ..top },
                );
                assert(moved.drop_last() =~= before.tree.frames.drop_last());
            }
            let taken = run.take_entry();
            assert(run@.items.len() == run.items@.len());
            if let Some((entry, dir_src, dir_dst)) = taken {
                match entry {
                    DirEntry::Failed(message) => {
                        return run.item_over(Outcome::Failed(message));
                    },
                    DirEntry::Found(found) => {
                        let src = join(dir_src.as_str(), found.name.as_str());
                        let dst = join(dir_dst.as_str(), found.name.as_str());
                        if found.is_symlink {
                            let request = match direction {
                                Direction::Download => Request::Stat(src.clone()),
                                Direction::Upload => Request::LocalStat(src.clone()),
                            };
                            run.tree.src = src;
                            run.tree.dst = dst;
                            run.stage = Stage::Link;
                            return (Task::Queue(run), request);
                        } else if found.is_dir {
                            run.tree.src = src;
                            run.tree.dst = dst;
                            run.stage = Stage::OpenPoll;
                            return (Task::Queue(run), Request::PollCommands);
                        } else {
                            run.add_file(src, dst, found.size);
                        }
                    },
                }
            }
        }
        run.report_tree(0)
    }
}

/// Whether a cancel is among the commands that came in.
pub open spec fn cancels(commands: Seq<CommandView>) -> bool {
    commands.contains(CommandView::Cancel)
}

/// Looks for a cancel among the commands that came in while a queue runs. The
/// others are dropped.
pub fn drain_cancel(commands: &mut Vec<SftpCommand>) -> (r: bool)
    ensures
        r == cancels(views(old(commands)@)),
        final(commands)@.len() == 0,
{
    let mut cancelled = false;
    let ghost all = views(commands@);
    let mut i: usize = 0;
    while i < commands.len()
        invariant
            i <= commands@.len(),
            all == views(commands@),
            cancelled == exists|k: int| 0 <= k < i && all[k] == CommandView::Cancel,
        decreases commands@.len() - i,
    {
        if let SftpCommand::Cancel = &commands[i] {
            assert(all[i as int] == CommandView::Cancel);
            cancelled = true;
        }
        i = i + 1;
    }
    proof {
        if cancelled {
            let k = choose|k: int| 0 <= k < i && all[k] == CommandView::Cancel;
            assert(all.contains(all[k]));
        }
    }
    commands.clear();
    cancelled
}

/// How an optional number is shown in a message.
pub open spec fn optional_number(n: Option<u64>) -> Seq<char> {
    match n {
        Some(n) => "Some("@ + decimal(n as nat) + ")"@,
        None => "None"@,
    }
}

fn show_optional(n: Option<u64>) -> (r: String)
    ensures
        r@ == optional_number(n),
{
    match n {
        Some(n) => cat3("Some(", to_decimal(n).as_str(), ")"),
        None => "None".to_owned(),
    }
}

/// What is said of a remote file that changed between two stamps.
pub open spec fn changed_message(expected: RemoteFileStamp, current: RemoteFileStamp) -> Seq<char> {
    "remote file changed while it was being edited (size "@ + decimal(expected.size as nat)
        + " -> "@ + decimal(current.size as nat) + ", mtime "@ + (optional_number(expected.mtime)
        + " -> "@ + optional_number(current.mtime) + ")"@)
}

fn describe_change(expected: &RemoteFileStamp, current: &RemoteFileStamp) -> (r: String)
    ensures
        r@ == changed_message(*expected, *current),
{
    let sizes = cat5(
        "remote file changed while it was being edited (size ",
        to_decimal(expected.size).as_str(),
        " -> ",
        to_decimal(current.size).as_str(),
        ", mtime ",
    );
    let times = cat4(
        show_optional(expected.mtime).as_str(),
        " -> ",
        show_optional(current.mtime).as_str(),
        ")",
    );
    cat2(sizes.as_str(), times.as_str())
}

/// The worker ends.
pub open spec fn stop() -> (TaskView, RequestView) {
    (TaskView::Stopped, RequestView::Exit)
}

/// The one event that a command ends in is delivered.
pub open spec fn report(event: EventView) -> (TaskView, RequestView) {
    (TaskView::Reporting, RequestView::Emit(event))
}

/// The same, unless an event could not be delivered before.
pub open spec fn report_unless(lost: bool, event: EventView) -> (TaskView, RequestView) {
    if lost {
        stop()
    } else {
        report(event)
    }
}

pub open spec fn await_command() -> (TaskView, RequestView) {
    (TaskView::Idle, RequestView::NextCommand)
}

pub open spec fn edit_error(verb: Seq<char>, remote: Seq<char>, error: Seq<char>) -> EventView {
    EventView::EditError(verb + remote + ": "@ + error)
}

fn fail_edit(verb: &str, remote: &String, error: &str) -> (r: SftpEvent)
    ensures
        r@ == edit_error(verb@, remote@, error@),
{
    SftpEvent::EditError(cat4(verb, remote.as_str(), ": ", error))
}

/// A queue at its start.
pub open spec fn new_run(queue: Seq<TransferView>) -> RunView {
    RunView {
        items: queue,
        index: 0,
        last_emit: 0,
        lost: false,
        stage: StageView::Poll,
        tree: TreeView::new(Seq::empty(), Seq::empty()),
    }
}

/// A command is taken up.
pub open spec fn start(command: CommandView) -> (TaskView, RequestView) {
    match command {
        CommandView::ListDir(Side::Local, _) => await_command(),
        CommandView::ListDir(Side::Remote, path) => (
            TaskView::Listing(path),
            RequestView::ListDir(path),
        ),
        CommandView::EditDownload { remote, local } => (
            TaskView::EditStamp { remote, local },
            RequestView::FileStamp(remote),
        ),
        CommandView::EditUpload { local, remote, expected, mode } => (
            TaskView::EditCheck { local, remote, expected, mode },
            RequestView::FileStamp(remote),
        ),
        CommandView::RunQueue(queue) => new_run(queue).next_item(),
        CommandView::Remove(path, is_dir) => (
            TaskView::Operation("delete "@ + path + ": "@),
            RequestView::Remove(path, is_dir),
        ),
        CommandView::Mkdir(path) => (
            TaskView::Operation("mkdir "@ + path + ": "@),
            RequestView::Mkdir(path),
        ),
        CommandView::Rename(from, to) => (
            TaskView::Operation("rename "@ + from + ": "@),
            RequestView::Rename(from, to),
        ),
        CommandView::Chmod(path, mode) => (
            TaskView::Operation("chmod "@ + path + ": "@),
            RequestView::Chmod(path, mode),
        ),
        CommandView::Cancel => await_command(),
    }
}

fn start_command(command: SftpCommand) -> (r: (Task, Request))
    ensures
        (r.0@, r.1@) == start(command@),
{
    match command {
        SftpCommand::ListDir(side, path) => {
            match side {
                Side::Local => (Task::Idle, Request::NextCommand),
                Side::Remote => (Task::Listing(path.clone()), Request::ListDir(path)),
            }
        },
        SftpCommand::EditDownload { remote, local } => {
            let request = Request::FileStamp(remote.clone());
            (Task::EditStamp { remote, local }, request)
        },
        SftpCommand::EditUpload { local, remote, expected, mode } => {
            let request = Request::FileStamp(remote.clone());
            (Task::EditCheck { local, remote, expected, mode }, request)
        },
        SftpCommand::RunQueue(queue) => {
            let run = Run {
                items: queue,
                index: 0,
                last_emit: 0,
                lost: false,
                stage: Stage::Poll,
                tree: Tree {
                    src: String::new(),
                    dst: String::new(),
                    frames: Vec::new(),
                    files: Vec::new(),
                    total: 0,
                    at: 0,
                    base: 0,
                    failed: 0,
                    first_error: None,
                },
            };
            assert(run@.tree.src =~= Seq::empty() && run@.tree.dst =~= Seq::empty());
            run.next_item()
        },
        SftpCommand::Remove(path, is_dir) => {
            let prefix = cat3("delete ", path.as_str(), ": ");
            (Task::Operation(prefix), Request::Remove(path, is_dir))
        },
        SftpCommand::Mkdir(path) => {
            let prefix = cat3("mkdir ", path.as_str(), ": ");
            (Task::Operation(prefix), Request::Mkdir(path))
        },
        SftpCommand::Rename(from, to) => {
            let prefix = cat3("rename ", from.as_str(), ": ");
            (Task::Operation(prefix), Request::Rename(from, to))
        },
        SftpCommand::Chmod(path, mode) => {
            let prefix = cat3("chmod ", path.as_str(), ": ");
            (Task::Operation(prefix), Request::Chmod(path, mode))
        },
        SftpCommand::Cancel => (Task::Idle, Request::NextCommand),
    }
}

impl RunView {
    /// The queue goes on with an answer. One that does not belong here ends
    /// the worker.
    pub open spec fn step(self, answer: AnswerView) -> (TaskView, RequestView) {
        let tree = self.tree;
        match (self.stage, answer) {
            (StageView::Poll, AnswerView::Pending(commands)) => if cancels(commands) {
                self.ended()
            } else {
                self.begin_item()
            },
            (StageView::File, AnswerView::Done(result)) => self.item_over(
                match result {
                    Ok(_) => OutcomeView::Finished,
                    Err(e) => OutcomeView::Failed(e),
                },
            ),
            (StageView::OpenPoll, AnswerView::Pending(commands)) => if cancels(commands) {
                self.item_over(OutcomeView::Cancelled)
            } else {
                (
                    TaskView::Queue(self.at_stage(StageView::OpenMake)),
                    match self.item().direction {
                        Direction::Download => RequestView::CreateLocalDir(tree.dst),
                        Direction::Upload => RequestView::Mkdir(tree.dst),
                    },
                )
            },
            (StageView::OpenMake, AnswerView::Done(Ok(_))) => self.read_dir(),
            (StageView::OpenMake, AnswerView::Done(Err(e))) => match self.item().direction {
                Direction::Download => self.item_over(
                    OutcomeView::Failed("failed to create "@ + tree.dst + ": "@ + e),
                ),
                Direction::Upload => (
                    TaskView::Queue(self.at_stage(StageView::OpenRecheck(e))),
                    RequestView::ListDir(tree.dst),
                ),
            },
            (StageView::OpenRecheck(_), AnswerView::Listing(Ok(_))) => self.read_dir(),
            (StageView::OpenRecheck(e), AnswerView::Listing(Err(_))) => self.item_over(
                OutcomeView::Failed("failed to create remote "@ + tree.dst + ": "@ + e),
            ),
            (StageView::OpenRead, AnswerView::Listing(Ok(entries))) => self.descend(
                all_found(entries),
            ),
            (StageView::OpenRead, AnswerView::Listing(Err(e))) => self.item_over(
                OutcomeView::Failed(e),
            ),
            (StageView::OpenRead, AnswerView::LocalListing(Ok(entries))) => self.descend(entries),
            (StageView::OpenRead, AnswerView::LocalListing(Err(e))) => self.item_over(
                OutcomeView::Failed("failed to read "@ + tree.src + ": "@ + e),
            ),
            (StageView::Link, AnswerView::Stat(result)) => match result {
                Ok((false, size)) => RunView {
                    tree: tree.with_file(tree.src, tree.dst, size),
                    ..self
                }.walk(),
                _ => self.walk(),
            },
            (StageView::TreeReport, AnswerView::Delivered(ok)) => RunView {
                lost: self.lost || !ok,
                ..self
            }.next_file(),
            (StageView::TreePoll, AnswerView::Pending(commands)) => if cancels(commands) {
                self.item_over(OutcomeView::Cancelled)
            } else {
                let file = tree.files[tree.at as int];
                (
                    TaskView::Queue(self.at_stage(StageView::TreeFile)),
                    copy_request(self.item().direction, file.src, file.dst),
                )
            },
            (StageView::TreeFile, AnswerView::Done(result)) => self.file_over(result),
            (StageView::ItemReport, AnswerView::Delivered(ok)) => if ok {
                RunView { index: self.index + 1, ..self }.next_item()
            } else {
                stop()
            },
            (StageView::QueueReport, AnswerView::Delivered(ok)) => if ok {
                await_command()
            } else {
                stop()
            },
            _ => stop(),
        }
    }

    /// The directory is there on the other side: it is listed on this one.
    pub open spec fn read_dir(self) -> (TaskView, RequestView) {
        (
            TaskView::Queue(self.at_stage(StageView::OpenRead)),
            match self.item().direction {
                Direction::Download => RequestView::ListDir(self.tree.src),
                Direction::Upload => RequestView::ReadLocalDir(self.tree.src),
            },
        )
    }

    /// The walk goes down into a directory that was listed.
    pub open spec fn descend(self, entries: Seq<DirEntryView>) -> (TaskView, RequestView) {
        let tree = self.tree;
        let frame = FrameView { src: tree.src, dst: tree.dst, entries, next: 0 };
        RunView { tree: TreeView { frames: tree.frames.push(frame), ..tree }, ..self }.walk()
    }
}

impl Run {
    fn read_dir(self) -> (r: (Task, Request))
        requires
            self.index < self.items@.len(),
        ensures
            (r.0@, r.1@) == self@.read_dir(),
    {
        let mut run = self;
        let request = match run.items[run.index].direction {
            Direction::Download => Request::ListDir(run.tree.src.clone()),
            Direction::Upload => Request::ReadLocalDir(run.tree.src.clone()),
        };
        run.stage = Stage::OpenRead;
        (Task::Queue(run), request)
    }

    fn descend(self, entries: Vec<DirEntry>) -> (r: (Task, Request))
        requires
            self.index < self.items@.len(),
        ensures
            (r.0@, r.1@) == self@.descend(views(entries@)),
    {
        let mut run = self;
        let src = run.tree.src.clone();
        let dst = run.tree.dst.clone();
        run.tree.frames.push(Frame { src, dst, entries, next: 0 });
        run.walk()
    }

    fn step(self, answer: Answer) -> (r: (Task, Request))
        requires
            self@.wf(),
        ensures
            (r.0@, r.1@) == self@.step(answer@),
    {
        let mut run = self;
        let mut stage = Stage::Poll;
        core::mem::swap(&mut stage, &mut run.stage);
        match (stage, answer) {
            (Stage::Poll, Answer::Pending(commands)) => {
                let mut commands = commands;
                if drain_cancel(&mut commands) {
                    run.ended()
                } else {
                    run.begin_item()
                }
            },
            (Stage::File, Answer::Done(result)) => {
                run.stage = Stage::File;
                match result {
                    Ok(_) => run.item_over(Outcome::Finished),
                    Err(e) => run.item_over(Outcome::Failed(e)),
                }
            },
            (Stage::OpenPoll, Answer::Pending(commands)) => {
                let mut commands = commands;
                if drain_cancel(&mut commands) {
                    run.item_over(Outcome::Cancelled)
                } else {
                    let request = match run.items[run.index].direction {
                        Direction::Download => Request::CreateLocalDir(run.tree.dst.clone()),
                        Direction::Upload => Request::Mkdir(run.tree.dst.clone()),
                    };
                    run.stage = Stage::OpenMake;
                    (Task::Queue(run), request)
                }
            },
            (Stage::OpenMake, Answer::Done(result)) => {
                match result {
                    Ok(_) => run.read_dir(),
                    Err(e) => match run.items[run.index].direction {
                        Direction::Download => {
                            let message = cat4(
                                "failed to create ",
                                run.tree.dst.as_str(),
                                ": ",
                                e.as_str(),
                            );
                            run.item_over(Outcome::Failed(message))
                        },
                        Direction::Upload => {
                            let request = Request::ListDir(run.tree.dst.clone());
                            run.stage = Stage::OpenRecheck(e);
                            (Task::Queue(run), request)
                        },
                    },
                }
            },
            (Stage::OpenRecheck(e), Answer::Listing(result)) => {
                match result {
                    Ok(_) => run.read_dir(),
                    Err(_) => {
                        let message = cat4(
                            "failed to create remote ",
                            run.tree.dst.as_str(),
                            ": ",
                            e.as_str(),
                        );
                        run.item_over(Outcome::Failed(message))
                    },
                }
            },
            (Stage::OpenRead, Answer::Listing(result)) => {
                run.stage = Stage::OpenRead;
                match result {
                    Ok(entries) => run.descend(found_entries(entries)),
                    Err(e) => run.item_over(Outcome::Failed(e)),
                }
            },
            (Stage::OpenRead, Answer::LocalListing(result)) => {
                run.stage = Stage::OpenRead;
                match result {
                    Ok(entries) => run.descend(entries),
                    Err(e) => {
                        let message = cat4(
                            "failed to read ",
                            run.tree.src.as_str(),
                            ": ",
                            e.as_str(),
                        );
                        run.item_over(Outcome::Failed(message))
                    },
                }
            },
            (Stage::Link, Answer::Stat(result)) => {
                run.stage = Stage::Link;
                if let Ok((is_dir, size)) = result {
                    if !is_dir {
                        let src = run.tree.src.clone();
                        let dst = run.tree.dst.clone();
                        run.add_file(src, dst, size);
                    }
                }
                run.walk()
            },
            (Stage::TreeReport, Answer::Delivered(ok)) => {
                run.stage = Stage::TreeReport;
                run.lost = run.lost || !ok;
                run.next_file()
            },
            (Stage::TreePoll, Answer::Pending(commands)) => {
                let mut commands = commands;
                if drain_cancel(&mut commands) {
                    run.item_over(Outcome::Cancelled)
                } else {
                    let file = &run.tree.files[run.tree.at];
                    let request = request_copy(
                        run.items[run.index].direction,
                        &file.src,
                        &file.dst,
                    );
                    run.stage = Stage::TreeFile;
                    (Task::Queue(run), request)
                }
            },
            (Stage::TreeFile, Answer::Done(result)) => {
                run.stage = Stage::TreeFile;
                run.file_over(result)
            },
            (Stage::ItemReport, Answer::Delivered(ok)) => {
                if ok {
                    let count: usize = run.items.len();
                    run.stage = Stage::ItemReport;
                    run.index = run.index + 1;
                    run.next_item()
                } else {
                    (Task::Stopped, Request::Exit)
                }
            },
            (Stage::QueueReport, Answer::Delivered(ok)) => {
                if ok {
                    (Task::Idle, Request::NextCommand)
                } else {
                    (Task::Stopped, Request::Exit)
                }
            },
            _ => (Task::Stopped, Request::Exit),
        }
    }
}

impl TaskView {
    pub open spec fn wf(self) -> bool {
        self matches TaskView::Queue(run) ==> run.wf()
    }

    /// The worker goes on with an answer: what it does next, and what it asks
    /// for. An answer that does not belong to what it asked ends it.
    pub open spec fn step(self, answer: AnswerView) -> (TaskView, RequestView) {
        match (self, answer) {
            (TaskView::Connecting, AnswerView::Done(Ok(_))) => report(EventView::Connected),
            (TaskView::Connecting, AnswerView::Done(Err(e))) => (
                TaskView::Parting,
                RequestView::Emit(EventView::ConnectFailed(e)),
            ),
            (TaskView::Idle, AnswerView::Command(Some(command))) => start(command),
            (TaskView::Reporting, AnswerView::Delivered(true)) => await_command(),
            (TaskView::Listing(path), AnswerView::Listing(Ok(entries))) => report(
                EventView::DirListing(Side::Remote, path, entries),
            ),
            (TaskView::Listing(_), AnswerView::Listing(Err(e))) => report(EventView::Error(e)),
            (TaskView::EditStamp { remote, local }, AnswerView::Stamp(Ok(stamp))) => (
                TaskView::EditGet { remote, stamp, lost: false },
                RequestView::Download { remote, local },
            ),
            (TaskView::EditStamp { remote, .. }, AnswerView::Stamp(Err(e))) => report(
                edit_error("edit download "@, remote, e),
            ),
            (TaskView::EditGet { stamp, lost, .. }, AnswerView::Done(Ok(_))) => report_unless(
                lost,
                EventView::EditDownloaded(stamp),
            ),
            (TaskView::EditGet { remote, lost, .. }, AnswerView::Done(Err(e))) => report_unless(
                lost,
                edit_error("edit download "@, remote, e),
            ),
            (
                TaskView::EditCheck { local, remote, expected, mode },
                AnswerView::Stamp(Ok(current)),
            ) => if current == expected {
                (
                    TaskView::EditPut { remote, mode, lost: false },
                    RequestView::Upload { local, remote },
                )
            } else {
                report(edit_error("edit upload "@, remote, changed_message(expected, current)))
            },
            (TaskView::EditCheck { remote, .. }, AnswerView::Stamp(Err(e))) => report(
                edit_error("edit upload "@, remote, e),
            ),
            (TaskView::EditPut { remote, mode, lost }, AnswerView::Done(Ok(_))) => match mode {
                Some(bits) => (
                    TaskView::EditMode { bits, lost },
                    RequestView::Chmod(remote, bits),
                ),
                None => report_unless(lost, EventView::EditUploaded(None)),
            },
            (TaskView::EditPut { remote, lost, .. }, AnswerView::Done(Err(e))) => report_unless(
                lost,
                edit_error("edit upload "@, remote, e),
            ),
            (TaskView::EditMode { lost, .. }, AnswerView::Done(Ok(_))) => report_unless(
                lost,
                EventView::EditUploaded(None),
            ),
            (TaskView::EditMode { bits, lost }, AnswerView::Done(Err(e))) => report_unless(
                lost,
                EventView::EditUploaded(
                    Some(
                        "could not restore permissions to "@ + numeral(bits as nat, 8) + ": "@ + e,
                    ),
                ),
            ),
            (TaskView::Operation(_), AnswerView::Done(Ok(_))) => report(EventView::OpDone),
            (TaskView::Operation(prefix), AnswerView::Done(Err(e))) => report(
                EventView::Error(prefix + e),
            ),
            (TaskView::Queue(run), answer) => run.step(answer),
            _ => stop(),
        }
    }

    /// Progress of the copy that runs: the event it is worth, if any. Edits
    /// report every step, queued transfers are throttled.
    pub open spec fn progress(self, transferred: u64, size: u64) -> (TaskView, Option<EventView>) {
        match self {
            TaskView::EditGet { .. } | TaskView::EditPut { .. } => (
                self,
                Some(EventView::Progress { index: 0, total: 1, transferred, size }),
            ),
            TaskView::Queue(run) if run.stage is File => {
                let (run, event) = run.progress(transferred, size);
                (TaskView::Queue(run), event)
            },
            TaskView::Queue(run) if run.stage is TreeFile => {
                let (run, event) = run.progress(
                    saturated(run.tree.base, transferred),
                    run.tree.total,
                );
                (TaskView::Queue(run), event)
            },
            _ => (self, None),
        }
    }

    /// A progress event of the copy that runs was delivered, or was not.
    pub open spec fn delivered(self, ok: bool) -> TaskView {
        match self {
            TaskView::EditGet { remote, stamp, lost } => TaskView::EditGet {
                remote,
                stamp,
                lost: lost || !ok,
            },
            TaskView::EditPut { remote, mode, lost } => TaskView::EditPut {
                remote,
                mode,
                lost: lost || !ok,
            },
            TaskView::Queue(run) => TaskView::Queue(RunView { lost: run.lost || !ok, ..run }),
            _ => self,
        }
    }
}

/// The worker thread's mind.
pub struct Worker {
    task: Task,
}

impl View for Worker {
    type V = TaskView;

    closed spec fn view(&self) -> TaskView {
        self.task@
    }
}

impl Worker {
    /// A worker that is yet to connect: its first request is
    /// [`Request::Connect`].
    pub fn connecting() -> (r: (Worker, Request))
        ensures
            r.0@ == TaskView::Connecting,
            r.0@.wf(),
            r.1@ == RequestView::Connect,
    {
        (Worker { task: Task::Connecting }, Request::Connect)
    }

    /// A worker on a transport that is connected.
    pub fn connected() -> (r: (Worker, Request))
        ensures
            r.0@ == TaskView::Idle,
            r.0@.wf(),
            r.1@ == RequestView::NextCommand,
    {
        (Worker { task: Task::Idle }, Request::NextCommand)
    }

    /// Whether the worker has ended.
    pub fn stopped(&self) -> (r: bool)
        ensures
            r == (self@ is Stopped),
    {
        match &self.task {
            Task::Stopped => true,
            _ => false,
        }
    }

    /// Takes the answer to the last request and returns the next one.
    pub fn step(&mut self, answer: Answer) -> (r: Request)
        requires
            old(self)@.wf(),
        ensures
            (final(self)@, r@) == old(self)@.step(answer@),
            final(self)@.wf(),
    {
        proof {
            lemma_step_wf(self@, answer@);
        }
        let mut task = Task::Stopped;
        core::mem::swap(&mut task, &mut self.task);
        let (task, request) = advance(task, answer);
        self.task = task;
        request
    }

    /// Takes the progress of the copy that was asked for and returns the event
    /// it is worth.
    pub fn on_progress(&mut self, transferred: u64, size: u64) -> (r: Option<SftpEvent>)
        requires
            old(self)@.wf(),
        ensures
            (final(self)@, opt_view(r)) == old(self)@.progress(transferred, size),
            final(self)@.wf(),
    {
        match &mut self.task {
            Task::EditGet { .. } => Some(
                SftpEvent::Progress { index: 0, total: 1, transferred, size },
            ),
            Task::EditPut { .. } => Some(
                SftpEvent::Progress { index: 0, total: 1, transferred, size },
            ),
            Task::Queue(run) => {
                match run.stage {
                    Stage::File => run.progress(transferred, size),
                    Stage::TreeFile => {
                        let done: u64 = saturate(run.tree.base, transferred);
                        let total: u64 = run.tree.total;
                        run.progress(done, total)
                    },
                    _ => None,
                }
            },
            _ => None,
        }
    }

    /// Takes whether that event was delivered.
    pub fn on_delivery(&mut self, ok: bool)
        requires
            old(self)@.wf(),
        ensures
            final(self)@ == old(self)@.delivered(ok),
            final(self)@.wf(),
    {
        match &mut self.task {
            Task::EditGet { lost, .. } => {
                *lost = *lost || !ok;
            },
            Task::EditPut { lost, .. } => {
                *lost = *lost || !ok;
            },
            Task::Queue(run) => {
                run.lost = run.lost || !ok;
            },
            _ => {},
        }
    }
}

fn reporting(event: SftpEvent) -> (r: (Task, Request))
    ensures
        (r.0@, r.1@) == report(event@),
{
    (Task::Reporting, Request::Emit(event))
}

fn reporting_unless(lost: bool, event: SftpEvent) -> (r: (Task, Request))
    ensures
        (r.0@, r.1@) == report_unless(lost, event@),
{
    if lost {
        (Task::Stopped, Request::Exit)
    } else {
        reporting(event)
    }
}

fn advance(task: Task, answer: Answer) -> (r: (Task, Request))
    requires
        task@.wf(),
    ensures
        (r.0@, r.1@) == task@.step(answer@),
{
    match (task, answer) {
        (Task::Connecting, Answer::Done(result)) => {
            match result {
                Ok(_) => reporting(SftpEvent::Connected),
                Err(e) => (Task::Parting, Request::Emit(SftpEvent::ConnectFailed(e))),
            }
        },
        (Task::Idle, Answer::Command(command)) => {
            match command {
                Some(command) => start_command(command),
                None => (Task::Stopped, Request::Exit),
            }
        },
        (Task::Reporting, Answer::Delivered(ok)) => {
            if ok {
                (Task::Idle, Request::NextCommand)
            } else {
                (Task::Stopped, Request::Exit)
            }
        },
        (Task::Listing(path), Answer::Listing(result)) => {
            match result {
                Ok(entries) => reporting(SftpEvent::DirListing(Side::Remote, path, entries)),
                Err(e) => reporting(SftpEvent::Error(e)),
            }
        },
        (Task::EditStamp { remote, local }, Answer::Stamp(result)) => {
            match result {
                Ok(stamp) => {
                    let request = Request::Download { remote: remote.clone(), local };
                    (Task::EditGet { remote, stamp, lost: false }, request)
                },
                Err(e) => reporting(fail_edit("edit download ", &remote, e.as_str())),
            }
        },
        (Task::EditGet { remote, stamp, lost }, Answer::Done(result)) => {
            match result {
                Ok(_) => reporting_unless(lost, SftpEvent::EditDownloaded(stamp)),
                Err(e) => reporting_unless(lost, fail_edit("edit download ", &remote, e.as_str())),
            }
        },
        (Task::EditCheck { local, remote, expected, mode }, Answer::Stamp(result)) => {
            match result {
                Ok(current) => {
                    if current.same(&expected) {
                        let request = Request::Upload { local, remote: remote.clone() };
                        (Task::EditPut { remote, mode, lost: false }, request)
                    } else {
                        let message = describe_change(&expected, &current);
                        reporting(fail_edit("edit upload ", &remote, message.as_str()))
                    }
                },
                Err(e) => reporting(fail_edit("edit upload ", &remote, e.as_str())),
            }
        },
        (Task::EditPut { remote, mode, lost }, Answer::Done(result)) => {
            match result {
                Ok(_) => match mode {
                    Some(bits) => (Task::EditMode { bits, lost }, Request::Chmod(remote, bits)),
                    None => reporting_unless(lost, SftpEvent::EditUploaded(None)),
                },
                Err(e) => reporting_unless(lost, fail_edit("edit upload ", &remote, e.as_str())),
            }
        },
        (Task::EditMode { bits, lost }, Answer::Done(result)) => {
            match result {
                Ok(_) => reporting_unless(lost, SftpEvent::EditUploaded(None)),
                Err(e) => {
                    let warning = cat4(
                        "could not restore permissions to ",
                        to_octal(bits as u64).as_str(),
                        ": ",
                        e.as_str(),
                    );
                    reporting_unless(lost, SftpEvent::EditUploaded(Some(warning)))
                },
            }
        },
        (Task::Operation(prefix), Answer::Done(result)) => {
            match result {
                Ok(_) => reporting(SftpEvent::OpDone),
                Err(e) => reporting(SftpEvent::Error(cat2(prefix.as_str(), e.as_str()))),
            }
        },
        (Task::Queue(run), answer) => run.step(answer),
        _ => (Task::Stopped, Request::Exit),
    }
}

proof fn lemma_walk_wf(run: RunView)
    requires
        run.index < run.items.len(),
        run.tree.at <= run.tree.files.len(),
    ensures
        run.walk().0.wf(),
    decreases entries_left(run.tree.frames), run.tree.frames.len(),
{
    let tree = run.tree;
    let frames = tree.frames;
    if frames.len() > 0 {
        let top = frames.last();
        if top.next >= top.entries.len() {
            lemma_walk_wf(RunView { tree: TreeView { frames: frames.drop_last(), ..tree }, ..run });
        } else {
            let moved = frames.drop_last().push(FrameView { next: top.next + 1, ..top });
            assert(moved.drop_last() =~= frames.drop_last());
            if let DirEntryView::Found(entry) = top.entries[top.next as int] {
                if !entry.is_symlink && !entry.is_dir {
                    lemma_walk_wf(
                        RunView {
                            tree: TreeView { frames: moved, ..tree }.with_file(
                                joined(top.src, entry.name),
                                joined(top.dst, entry.name),
                                entry.size,
                            ),
                            ..run
                        },
                    );
                }
            }
        }
    }
}

pub proof fn lemma_step_wf(task: TaskView, answer: AnswerView)
    requires
        task.wf(),
    ensures
        task.step(answer).0.wf(),
{
    if let TaskView::Queue(run) = task {
        let tree = run.tree;
        if run.stage is OpenRead && run.index < run.items.len() {
            match answer {
                AnswerView::Listing(Ok(entries)) => {
                    let frame = FrameView {
                        src: tree.src,
                        dst: tree.dst,
                        entries: all_found(entries),
                        next: 0,
                    };
                    lemma_walk_wf(
                        RunView {
                            tree: TreeView { frames: tree.frames.push(frame), ..tree },
                            ..run
                        },
                    );
                },
                AnswerView::LocalListing(Ok(entries)) => {
                    let frame = FrameView { src: tree.src, dst: tree.dst, entries, next: 0 };
                    lemma_walk_wf(
                        RunView {
                            tree: TreeView { frames: tree.frames.push(frame), ..tree },
                            ..run
                        },
                    );
                },
                _ => {},
            }
        }
        if run.stage is Link && run.index < run.items.len() {
            lemma_walk_wf(run);
            if let AnswerView::Stat(Ok((_, size))) = answer {
                lemma_walk_wf(
                    RunView { tree: tree.with_file(tree.src, tree.dst, size), ..run },
                );
            }
        }
    }
}

} // verus!
