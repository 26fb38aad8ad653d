//! What holds of the transfer worker whatever the server, the disk and the user
//! interface do.

use vstd::prelude::*;

use crate::paths::joined;
use crate::sftp::model::{CommandView, EventView, RemoteFileStamp, TransferView};
use crate::sftp::worker::{
    all_found, cancels, entries_left, saturated, start, stop, AnswerView, DirEntryView, FrameView,
    PlannedView, RequestView, RunView, StageView, TaskView, TreeView, PROGRESS_STEP,
};

verus! {

/// A remote file is overwritten by an edit only if it still has the stamp that
/// was captured before the edit; otherwise the edit is refused and nothing is
/// transferred.
pub proof fn edit_overwrites_only_the_file_it_read(
    local: Seq<char>,
    remote: Seq<char>,
    expected: RemoteFileStamp,
    mode: Option<u32>,
    answer: AnswerView,
)
    ensures
        ({
            let (task, request) = TaskView::EditCheck { local, remote, expected, mode }.step(
                answer,
            );
            &&& request is Upload ==> answer == AnswerView::Stamp(Ok(expected))
            &&& answer == AnswerView::Stamp(Ok(expected)) ==> request == (RequestView::Upload {
                local,
                remote,
            })
            &&& answer matches AnswerView::Stamp(Ok(current)) ==> current != expected ==> {
                &&& request is Emit
                &&& request->Emit_0 is EditError
                &&& task is Reporting
            }
        }),
{
}

/// Restoring the permission bits is best effort: the upload counts as done
/// whether or not it works.
pub proof fn permission_failure_keeps_the_upload(bits: u32, result: Result<(), Seq<char>>)
    ensures
        ({
            let (_, request) = TaskView::EditMode { bits, lost: false }.step(
                AnswerView::Done(result),
            );
            &&& request is Emit
            &&& request->Emit_0 is EditUploaded
            &&& request->Emit_0->EditUploaded_0 is None <==> result is Ok
        }),
{
}

/// Once the worker has ended it stays so.
pub proof fn stopped_is_final(answer: AnswerView)
    ensures
        TaskView::Stopped.step(answer) == stop(),
{
}

/// A stray cancel, and a listing of the local side, change nothing and report
/// nothing.
pub proof fn idle_commands_are_ignored(path: Seq<char>)
    ensures
        start(CommandView::Cancel) == (TaskView::Idle, RequestView::NextCommand),
        start(CommandView::ListDir(crate::sftp::model::Side::Local, path)) == (
            TaskView::Idle,
            RequestView::NextCommand,
        ),
{
}

/// Neither the walk nor the copying that follows it ends the queue on the spot,
/// unless the transfer before could not be reported.
proof fn lemma_walk_stays_in_queue(run: RunView)
    ensures
        run.walk().0 is Queue || (run.lost && run.walk() == stop()),
        run.walk().0 matches TaskView::Queue(after) ==> {
            &&& after.items == run.items && after.index == run.index
            &&& !(after.stage is QueueReport)
            &&& run.walk().1 != RequestView::Emit(EventView::QueueDone)
        },
    decreases entries_left(run.tree.frames), run.tree.frames.len(),
{
    let tree = run.tree;
    let frames = tree.frames;
    if frames.len() > 0 {
        let top = frames.last();
        if top.next >= top.entries.len() {
            lemma_walk_stays_in_queue(
                RunView { tree: TreeView { frames: frames.drop_last(), ..tree }, ..run },
            );
        } else {
            let moved = frames.drop_last().push(FrameView { next: top.next + 1, ..top });
            assert(moved.drop_last() =~= frames.drop_last());
            if let DirEntryView::Found(entry) = top.entries[top.next as int] {
                if !entry.is_symlink && !entry.is_dir {
                    lemma_walk_stays_in_queue(
                        RunView {
                            tree: TreeView { frames: moved, ..tree }.with_file(
                                joined(top.src, entry.name),
                                joined(top.dst, entry.name),
                                entry.size,
                            ),
                            ..run
                        },
                    );
                }
            }
        }
    }
}

/// The end of a queue is reported exactly when nothing of the queue is left to
/// do, and the worker takes the next command only after that report was
/// delivered. So every run ends in one `QueueDone`, its last event.
pub proof fn queue_ends_in_one_queue_done(run: RunView, answer: AnswerView)
    requires
        run.wf(),
    ensures
        ({
            let (task, request) = run.step(answer);
            &&& request == RequestView::Emit(EventView::QueueDone) <==> (task matches
                TaskView::Queue(after) && after.stage is QueueReport)
            &&& task is Idle <==> run.stage is QueueReport && answer == AnswerView::Delivered(true)
            &&& run.stage is QueueReport ==> !(task is Queue)
            &&& task is Queue || task is Idle || task is Stopped
        }),
{
    let tree = run.tree;
    if run.stage is OpenRead {
        match answer {
            AnswerView::Listing(Ok(entries)) => {
                let frame = FrameView {
                    src: tree.src,
                    dst: tree.dst,
                    entries: all_found(entries),
                    next: 0,
                };
                lemma_walk_stays_in_queue(
                    RunView { tree: TreeView { frames: tree.frames.push(frame), ..tree }, ..run },
                );
            },
            AnswerView::LocalListing(Ok(entries)) => {
                let frame = FrameView { src: tree.src, dst: tree.dst, entries, next: 0 };
                lemma_walk_stays_in_queue(
                    RunView { tree: TreeView { frames: tree.frames.push(frame), ..tree }, ..run },
                );
            },
            _ => {},
        }
    }
    if run.stage is Link {
        lemma_walk_stays_in_queue(run);
        if let AnswerView::Stat(Ok((_, size))) = answer {
            lemma_walk_stays_in_queue(
                RunView { tree: tree.with_file(tree.src, tree.dst, size), ..run },
            );
        }
    }
}

/// An empty queue is done at once.
pub proof fn empty_queue_is_done(queue: Seq<TransferView>)
    requires
        queue.len() == 0,
    ensures
        start(CommandView::RunQueue(queue)).1 == RequestView::Emit(EventView::QueueDone),
{
}

/// A transfer that fails is reported, not taken for done, and the queue goes on
/// with the next one.
pub proof fn failed_transfer_does_not_stop_the_queue(run: RunView, error: Seq<char>)
    requires
        run.wf(),
        run.stage is File,
        !run.lost,
    ensures
        ({
            let (task, request) = run.step(AnswerView::Done(Err(error)));
            let (after, next) = task.step(AnswerView::Delivered(true));
            &&& request == RequestView::Emit(EventView::Error(error))
            &&& after matches TaskView::Queue(later) && later.items == run.items && later.index
                == run.index + 1
            &&& next == if run.index + 1 < run.items.len() {
                RequestView::PollCommands
            } else {
                RequestView::Emit(EventView::QueueDone)
            }
        }),
{
}

/// A file of a tree that fails is counted and the rest of the tree follows; the
/// first failure is the one that is named.
pub proof fn failed_file_does_not_stop_the_tree(run: RunView, error: Seq<char>)
    requires
        run.wf(),
        run.stage is TreeFile,
        run.tree.failed < u64::MAX,
    ensures
        run.step(AnswerView::Done(Err(error))).0 matches TaskView::Queue(after) ==> {
            &&& after.tree.failed == run.tree.failed + 1
            &&& after.tree.at == run.tree.at + 1
            &&& after.tree.files == run.tree.files
            &&& after.tree.first_error == match run.tree.first_error {
                Some(first) => Some(first),
                None => Some(error),
            }
        },
{
}

/// A cancel is honoured before the next transfer, before the next directory and
/// before the next file of a tree: nothing more is copied.
pub proof fn cancel_ends_the_queue(run: RunView, commands: Seq<CommandView>)
    requires
        run.wf(),
        run.stage is Poll || run.stage is OpenPoll || run.stage is TreePoll,
        cancels(commands),
        !run.lost,
    ensures
        run.step(AnswerView::Pending(commands)).1 == RequestView::Emit(EventView::QueueDone),
{
}

/// When the user interface is gone the worker ends: at once after a report that
/// closes a command or a transfer, after the running transfer otherwise.
pub proof fn undelivered_report_ends_the_worker(run: RunView)
    requires
        run.stage is ItemReport || run.stage is QueueReport,
    ensures
        run.step(AnswerView::Delivered(false)) == stop(),
        TaskView::Reporting.step(AnswerView::Delivered(false)) == stop(),
        run.at_stage(StageView::File).delivered_false_then_done(),
{
}

impl RunView {
    /// A copy whose progress could not be delivered ends the worker.
    pub open spec fn delivered_false_then_done(self) -> bool {
        forall|result: Result<(), Seq<char>>|
            (#[trigger] TaskView::Queue(self).delivered(false).step(AnswerView::Done(result)))
                == stop()
    }
}

/// Whether `src` names a real directory, not a link, on one of the frames.
pub open spec fn is_listed_directory(frames: Seq<FrameView>, src: Seq<char>) -> bool {
    exists|k: int, j: int| #[trigger] is_directory_entry(frames, k, j, src)
}

pub open spec fn is_directory_entry(frames: Seq<FrameView>, k: int, j: int, src: Seq<char>) -> bool {
    &&& 0 <= k < frames.len()
    &&& 0 <= j < frames[k].entries.len()
    &&& frames[k].entries[j] matches DirEntryView::Found(entry) && entry.is_dir
        && !entry.is_symlink && src == joined(frames[k].src, entry.name)
}

/// A link is never descended into: a directory that the walk opens was listed as
/// a directory and not as a link.
pub proof fn links_are_never_opened(run: RunView)
    ensures
        run.walk().0 matches TaskView::Queue(after) ==> after.stage is OpenPoll
            ==> is_listed_directory(run.tree.frames, after.tree.src),
    decreases entries_left(run.tree.frames), run.tree.frames.len(),
{
    let tree = run.tree;
    let frames = tree.frames;
    if frames.len() > 0 {
        let top = frames.last();
        let last = frames.len() - 1;
        if top.next >= top.entries.len() {
            let shorter = RunView { tree: TreeView { frames: frames.drop_last(), ..tree }, ..run };
            links_are_never_opened(shorter);
            if let TaskView::Queue(after) = run.walk().0 {
                if after.stage is OpenPoll {
                    let src = after.tree.src;
                    let (k, j) = choose|k: int, j: int|
                        #[trigger] is_directory_entry(frames.drop_last(), k, j, src);
                    assert(is_directory_entry(frames, k, j, src));
                }
            }
        } else {
            let moved = frames.drop_last().push(FrameView { next: top.next + 1, ..top });
            assert(moved.drop_last() =~= frames.drop_last());
            if let DirEntryView::Found(entry) = top.entries[top.next as int] {
                let src = joined(top.src, entry.name);
                if entry.is_dir && !entry.is_symlink {
                    assert(is_directory_entry(frames, last, top.next as int, src));
                }
                if !entry.is_symlink && !entry.is_dir {
                    let longer = RunView {
                        tree: TreeView { frames: moved, ..tree }.with_file(
                            src,
                            joined(top.dst, entry.name),
                            entry.size,
                        ),
                        ..run
                    };
                    links_are_never_opened(longer);
                    if let TaskView::Queue(after) = run.walk().0 {
                        if after.stage is OpenPoll {
                            let found = after.tree.src;
                            let (k, j) = choose|k: int, j: int|
                                #[trigger] is_directory_entry(moved, k, j, found);
                            assert(is_directory_entry(frames, k, j, found));
                        }
                    }
                }
            }
        }
    }
}

/// The bytes in all the files of a plan.
pub open spec fn planned_bytes(files: Seq<PlannedView>) -> u64
    decreases files.len(),
{
    if files.len() == 0 {
        0
    } else {
        saturated(planned_bytes(files.drop_last()), files.last().size)
    }
}

/// The total that the progress of a tree is measured against is the size of the
/// files found; one more file found keeps it so. A link to a file counts with
/// the size of its target, which is what is passed here.
pub proof fn plan_total_is_the_sum_of_its_files(
    tree: TreeView,
    src: Seq<char>,
    dst: Seq<char>,
    size: u64,
)
    requires
        tree.total == planned_bytes(tree.files),
    ensures
        tree.with_file(src, dst, size).total == planned_bytes(tree.with_file(src, dst, size).files),
        TreeView::new(src, dst).total == planned_bytes(TreeView::new(src, dst).files),
{
    assert(tree.files.push(PlannedView { src, dst, size }).drop_last() =~= tree.files);
}

/// The whole walk keeps that: when it is over, or stops to ask something, the
/// total is still the size of the files found.
pub proof fn walk_keeps_the_total(run: RunView)
    requires
        run.tree.total == planned_bytes(run.tree.files),
    ensures
        run.walk().0 matches TaskView::Queue(after) ==> after.tree.total == planned_bytes(
            after.tree.files,
        ),
    decreases entries_left(run.tree.frames), run.tree.frames.len(),
{
    let tree = run.tree;
    let frames = tree.frames;
    if frames.len() > 0 {
        let top = frames.last();
        if top.next >= top.entries.len() {
            walk_keeps_the_total(
                RunView { tree: TreeView { frames: frames.drop_last(), ..tree }, ..run },
            );
        } else {
            let moved = frames.drop_last().push(FrameView { next: top.next + 1, ..top });
            assert(moved.drop_last() =~= frames.drop_last());
            if let DirEntryView::Found(entry) = top.entries[top.next as int] {
                let src = joined(top.src, entry.name);
                let dst = joined(top.dst, entry.name);
                if !entry.is_symlink && !entry.is_dir {
                    plan_total_is_the_sum_of_its_files(tree, src, dst, entry.size);
                    walk_keeps_the_total(
                        RunView {
                            tree: TreeView { frames: moved, ..tree }.with_file(
                                src,
                                dst,
                                entry.size,
                            ),
                            ..run
                        },
                    );
                }
            }
        }
    }
}

/// Progress is throttled: after a report, the next one comes a whole step later,
/// or is the start or the end of the transfer.
pub proof fn progress_is_throttled(run: RunView, transferred: u64, size: u64)
    ensures
        run.progress(transferred, size).1 is Some ==> transferred == 0 || transferred - run.last_emit
            >= PROGRESS_STEP || (size > 0 && transferred >= size),
        !run.lost && size > 0 && transferred >= size ==> run.progress(transferred, size).1 is Some,
        !run.lost ==> run.progress(0, size).1 is Some,
{
}

} // verus!
