//! The vocabulary of file transfer: sides, entries, queued transfers, and what
//! the user interface and the transfer worker say to each other.

use vstd::prelude::*;

use crate::text::{lemma_views_eq, opt_view, views};

verus! {

broadcast use crate::text::group_views;

/// Which of the two panes a path belongs to.
#[derive(Debug, Clone, Copy, PartialEq, Eq, Structural)]
pub enum Side {
    Local,
    Remote,
}

/// Which way a transfer goes.
#[derive(Debug, Clone, Copy, PartialEq, Eq, Structural)]
pub enum Direction {
    Download,
    Upload,
}

/// One entry of a directory listing.
#[derive(Debug, PartialEq, Eq)]
pub struct FileEntry {
    pub name: String,
    pub is_dir: bool,
    pub size: u64,
    pub is_symlink: bool,
    /// Permission bits, where the listing carries them.
    pub perm: Option<u32>,
}

#[verifier::ext_equal]
pub struct FileEntryView {
    pub name: Seq<char>,
    pub is_dir: bool,
    pub size: u64,
    pub is_symlink: bool,
    pub perm: Option<u32>,
}

impl View for FileEntry {
    type V = FileEntryView;

    open spec fn view(&self) -> FileEntryView {
        FileEntryView {
            name: self.name@,
            is_dir: self.is_dir,
            size: self.size,
            is_symlink: self.is_symlink,
            perm: self.perm,
        }
    }
}

impl Clone for FileEntry {
    fn clone(&self) -> (r: Self)
        ensures
            r@ == self@,
    {
        FileEntry {
            name: self.name.clone(),
            is_dir: self.is_dir,
            size: self.size,
            is_symlink: self.is_symlink,
            perm: self.perm,
        }
    }
}

/// One transfer waiting in the queue: a file, or a whole directory tree.
#[derive(Debug, PartialEq, Eq)]
pub struct QueuedTransfer {
    pub direction: Direction,
    pub src: String,
    pub dst: String,
    pub name: String,
    pub is_dir: bool,
}

#[verifier::ext_equal]
pub struct TransferView {
    pub direction: Direction,
    pub src: Seq<char>,
    pub dst: Seq<char>,
    pub name: Seq<char>,
    pub is_dir: bool,
}

impl View for QueuedTransfer {
    type V = TransferView;

    open spec fn view(&self) -> TransferView {
        TransferView {
            direction: self.direction,
            src: self.src@,
            dst: self.dst@,
            name: self.name@,
            is_dir: self.is_dir,
        }
    }
}

impl Clone for QueuedTransfer {
    fn clone(&self) -> (r: Self)
        ensures
            r@ == self@,
    {
        QueuedTransfer {
            direction: self.direction,
            src: self.src.clone(),
            dst: self.dst.clone(),
            name: self.name.clone(),
            is_dir: self.is_dir,
        }
    }
}

/// A copy of a whole queue.
pub fn clone_queue(queue: &Vec<QueuedTransfer>) -> (r: Vec<QueuedTransfer>)
    ensures
        views(r@) == views(queue@),
{
    let r = queue.clone();
    proof {
        lemma_views_eq(r@, queue@);
    }
    r
}

/// What identifies one version of a remote file, as far as the server tells.
#[derive(Debug, Clone, Copy, PartialEq, Eq)]
pub struct RemoteFileStamp {
    pub size: u64,
    pub mtime: Option<u64>,
    pub is_regular: bool,
}

impl RemoteFileStamp {
    /// Whether two stamps name the same version.
    pub fn same(&self, other: &RemoteFileStamp) -> (r: bool)
        ensures
            r == (*self == *other),
    {
        self.size == other.size && self.is_regular == other.is_regular && match (
            self.mtime,
            other.mtime,
        ) {
            (Some(a), Some(b)) => a == b,
            (None, None) => true,
            _ => false,
        }
    }
}

/// Commands the user interface sends to the worker.
#[derive(Debug, PartialEq, Eq)]
pub enum SftpCommand {
    /// List a directory. Only the remote side is serviced by the worker.
    ListDir(Side, String),
    /// Download one remote file for local editing.
    EditDownload { remote: String, local: String },
    /// Upload a locally edited file after checking that the remote file still
    /// has the stamp captured before editing.
    EditUpload { local: String, remote: String, expected: RemoteFileStamp, mode: Option<u32> },
    /// Run the given transfers in order.
    RunQueue(Vec<QueuedTransfer>),
    /// Delete a remote path (recursively if the flag is set).
    Remove(String, bool),
    /// Create a remote directory.
    Mkdir(String),
    /// Rename / move a remote path.
    Rename(String, String),
    /// Set permission bits of a remote path.
    Chmod(String, u32),
    /// Abort a running queue at the next transfer boundary.
    Cancel,
}

#[verifier::ext_equal]
pub enum CommandView {
    ListDir(Side, Seq<char>),
    EditDownload { remote: Seq<char>, local: Seq<char> },
    EditUpload { local: Seq<char>, remote: Seq<char>, expected: RemoteFileStamp, mode: Option<u32> },
    RunQueue(Seq<TransferView>),
    Remove(Seq<char>, bool),
    Mkdir(Seq<char>),
    Rename(Seq<char>, Seq<char>),
    Chmod(Seq<char>, u32),
    Cancel,
}

impl View for SftpCommand {
    type V = CommandView;

    open spec fn view(&self) -> CommandView {
        match self {
            SftpCommand::ListDir(side, path) => CommandView::ListDir(*side, path@),
            SftpCommand::EditDownload { remote, local } => CommandView::EditDownload {
                remote: remote@,
                local: local@,
            },
            SftpCommand::EditUpload { local, remote, expected, mode } => CommandView::EditUpload {
                local: local@,
                remote: remote@,
                expected: *expected,
                mode: *mode,
            },
            SftpCommand::RunQueue(queue) => CommandView::RunQueue(views(queue@)),
            SftpCommand::Remove(path, is_dir) => CommandView::Remove(path@, *is_dir),
            SftpCommand::Mkdir(path) => CommandView::Mkdir(path@),
            SftpCommand::Rename(from, to) => CommandView::Rename(from@, to@),
            SftpCommand::Chmod(path, mode) => CommandView::Chmod(path@, *mode),
            SftpCommand::Cancel => CommandView::Cancel,
        }
    }
}

/// Events the worker sends back to the user interface.
#[derive(Debug, PartialEq, Eq)]
pub enum SftpEvent {
    /// Connection, authentication and the SFTP subsystem all succeeded.
    Connected,
    /// Connection or authentication failed; the worker then exits.
    ConnectFailed(String),
    /// A directory listing completed.
    DirListing(Side, String, Vec<FileEntry>),
    /// The edit working copy is ready and carries the original remote stamp.
    EditDownloaded(RemoteFileStamp),
    /// Progress for the transfer at `index` of `total`.
    Progress { index: usize, total: usize, transferred: u64, size: u64 },
    /// The transfer at this index finished.
    TransferDone(usize),
    /// The whole queue finished (or was cancelled).
    QueueDone,
    /// A remote file operation succeeded; the panes should be refreshed.
    OpDone,
    /// The edited working copy was uploaded. The message reports a best-effort
    /// failure to restore the original permission bits.
    EditUploaded(Option<String>),
    /// An explicit failure from one of the edit commands.
    EditError(String),
    /// A recoverable error for the last command.
    Error(String),
}

#[verifier::ext_equal]
pub enum EventView {
    Connected,
    ConnectFailed(Seq<char>),
    DirListing(Side, Seq<char>, Seq<FileEntryView>),
    EditDownloaded(RemoteFileStamp),
    Progress { index: usize, total: usize, transferred: u64, size: u64 },
    TransferDone(usize),
    QueueDone,
    OpDone,
    EditUploaded(Option<Seq<char>>),
    EditError(Seq<char>),
    Error(Seq<char>),
}

impl View for SftpEvent {
    type V = EventView;

    open spec fn view(&self) -> EventView {
        match self {
            SftpEvent::Connected => EventView::Connected,
            SftpEvent::ConnectFailed(message) => EventView::ConnectFailed(message@),
            SftpEvent::DirListing(side, path, entries) => EventView::DirListing(
                *side,
                path@,
                views(entries@),
            ),
            SftpEvent::EditDownloaded(stamp) => EventView::EditDownloaded(*stamp),
            SftpEvent::Progress { index, total, transferred, size } => EventView::Progress {
                index: *index,
                total: *total,
                transferred: *transferred,
                size: *size,
            },
            SftpEvent::TransferDone(index) => EventView::TransferDone(*index),
            SftpEvent::QueueDone => EventView::QueueDone,
            SftpEvent::OpDone => EventView::OpDone,
            SftpEvent::EditUploaded(warning) => EventView::EditUploaded(opt_view(*warning)),
            SftpEvent::EditError(message) => EventView::EditError(message@),
            SftpEvent::Error(message) => EventView::Error(message@),
        }
    }
}

} // verus!
