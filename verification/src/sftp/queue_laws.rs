//! What a run of the queue comes to, told by nothing but the requests that the
//! worker makes and the answers that it gets.

use vstd::prelude::*;

use crate::sftp::command_laws::answers;
use crate::sftp::model::{CommandView, EventView, TransferView};
use crate::sftp::tree_laws::{copy_asked, Copied, Happening};
use crate::sftp::worker::{
    all_found, entries_left, start, stop, AnswerView, DirEntryView, FrameView,
    RequestView, RunView, StageView, TaskView, TreeView,
};

verus! {

/// Whether an answer tells of something that went wrong.
pub open spec fn is_trouble(answer: AnswerView) -> bool {
    match answer {
        AnswerView::Listing(result) => result is Err,
        AnswerView::LocalListing(Ok(entries)) => exists|i: int|
            0 <= i < entries.len() && (#[trigger] entries[i]) is Failed,
        AnswerView::LocalListing(Err(_)) => true,
        AnswerView::Done(result) => result is Err,
        _ => false,
    }
}

/// Whether a request reports the outcome of one transfer.
pub open spec fn closes(request: RequestView) -> bool {
    request is Emit && (request->Emit_0 is TransferDone || request->Emit_0 is Error)
}

/// What was asked for and told while a queue was run.
#[verifier::ext_equal]
pub struct Story {
    pub task: TaskView,
    pub request: RequestView,
    /// How many transfers were reported.
    pub closed: nat,
    /// The copies asked for since the transfer at hand began.
    pub copies: Seq<Copied>,
    /// Whether one of them failed, and whether anything went wrong at all.
    pub failed: bool,
    pub troubled: bool,
    /// Whether a cancel was told, a report not delivered, or a request answered
    /// by what does not belong to it.
    pub cancelled: bool,
    pub undelivered: bool,
    pub stray: bool,
}

impl Story {
    /// Whether the run is behind the worker.
    pub open spec fn over(self) -> bool {
        self.request is NextCommand || self.request is Exit
    }

    pub open spec fn told(self, answer: AnswerView) -> Story {
        Story {
            cancelled: self.cancelled || (answer is Pending && answer->Pending_0.contains(
                CommandView::Cancel,
            )),
            undelivered: self.undelivered || answer == AnswerView::Delivered(false),
            stray: self.stray || !answers(self.request, answer),
            copies: if closes(self.request) {
                Seq::empty()
            } else {
                self.copies
            },
            failed: !closes(self.request) && (self.failed || (copy_asked(self.request) is Some
                && answer is Done && answer->Done_0 is Err)),
            troubled: !closes(self.request) && (self.troubled || is_trouble(answer)),
            ..self
        }
    }

    pub open spec fn asking(self, task: TaskView, request: RequestView) -> Story {
        Story {
            task,
            request,
            closed: if closes(request) {
                self.closed + 1
            } else {
                self.closed
            },
            copies: match copy_asked(request) {
                Some(copy) => self.copies.push(copy),
                None => self.copies,
            },
            ..self
        }
    }

    pub open spec fn after(self, happening: Happening) -> Story {
        if self.over() {
            self
        } else {
            match happening {
                Happening::Answer(answer) => {
                    let (task, request) = self.task.step(answer);
                    self.told(answer).asking(task, request)
                },
                Happening::Progress(transferred, size) => Story {
                    task: self.task.progress(transferred, size).0,
                    ..self
                },
                Happening::Delivery(ok) => Story {
                    task: self.task.delivered(ok),
                    undelivered: self.undelivered || !ok,
                    ..self
                },
            }
        }
    }
}

/// The story of a queue after what happened since its command was taken.
pub open spec fn story(queue: Seq<TransferView>, happenings: Seq<Happening>) -> Story
    decreases happenings.len(),
{
    if happenings.len() == 0 {
        let (task, request) = start(CommandView::RunQueue(queue));
        (Story {
            task,
            request,
            closed: 0,
            copies: Seq::empty(),
            failed: false,
            troubled: false,
            cancelled: false,
            undelivered: false,
            stray: false,
        }).asking(task, request)
    } else {
        story(queue, happenings.drop_last()).after(happenings.last())
    }
}

/// Whether one of the entries on the way down could not be read.
spec fn holds_failure(frames: Seq<FrameView>) -> bool {
    exists|k: int, j: int| #[trigger] is_failure(frames, k, j)
}

spec fn is_failure(frames: Seq<FrameView>, k: int, j: int) -> bool {
    0 <= k < frames.len() && 0 <= j < frames[k].entries.len() && frames[k].entries[j] is Failed
}

/// Whether the request is one that the stage waits for.
spec fn suits(stage: StageView, request: RequestView) -> bool {
    match stage {
        StageView::Poll | StageView::OpenPoll | StageView::TreePoll => request is PollCommands,
        StageView::File | StageView::TreeFile => request is Download || request is Upload,
        StageView::OpenMake => request is CreateLocalDir || request is Mkdir,
        StageView::OpenRecheck(_) => request is ListDir,
        StageView::OpenRead => request is ListDir || request is ReadLocalDir,
        StageView::Link => request is Stat || request is LocalStat,
        StageView::TreeReport => request is Emit && request->Emit_0 is Progress,
        StageView::ItemReport => closes(request),
        StageView::QueueReport => request == RequestView::Emit(EventView::QueueDone),
    }
}

/// What a walk, or the copying that follows it, leaves.
spec fn went_on(before: RunView, after: RunView, request: RequestView) -> bool {
    &&& after.items == before.items && after.index == before.index
    &&& after.lost == before.lost
    &&& after.tree.first_error == before.tree.first_error
    &&& suits(after.stage, request)
    &&& !(request is Download) && !(request is Upload)
    &&& holds_failure(after.tree.frames) ==> holds_failure(before.tree.frames)
    &&& closes(request) ==> {
        &&& request->Emit_0 is TransferDone ==> {
            &&& before.tree.first_error is None
            &&& request->Emit_0 == EventView::TransferDone(before.index as usize)
        }
        &&& request->Emit_0 is Error ==> before.tree.first_error is Some || holds_failure(
            before.tree.frames,
        )
    }
    &&& !(after.stage is QueueReport)
    &&& !(after.stage is Poll)
    &&& !(after.stage is File)
    &&& !(after.stage is OpenRecheck)
}

proof fn lemma_walk_goes_on(run: RunView)
    ensures
        (run.lost && run.walk() == stop()) || (run.walk().0 is Queue && went_on(
            run,
            run.walk().0->Queue_0,
            run.walk().1,
        )),
    decreases entries_left(run.tree.frames), run.tree.frames.len(),
{
    let tree = run.tree;
    let frames = tree.frames;
    if frames.len() > 0 {
        let top = frames.last();
        let rest = frames.drop_last();
        if holds_failure(rest) {
            let (k, j) = choose|k: int, j: int| #[trigger] is_failure(rest, k, j);
            assert(is_failure(frames, k, j));
        }
        if top.next >= top.entries.len() {
            lemma_walk_goes_on(RunView { tree: TreeView { frames: rest, ..tree }, ..run });
        } else {
            let moved = rest.push(FrameView { next: top.next + 1, ..top });
            assert(moved.drop_last() =~= rest);
            if holds_failure(moved) {
                let (k, j) = choose|k: int, j: int| #[trigger] is_failure(moved, k, j);
                assert(is_failure(frames, k, j));
            }
            match top.entries[top.next as int] {
                DirEntryView::Found(entry) => {
                    if !entry.is_symlink && !entry.is_dir {
                        lemma_walk_goes_on(
                            RunView {
                                tree: TreeView { frames: moved, ..tree }.with_file(
                                    crate::paths::joined(top.src, entry.name),
                                    crate::paths::joined(top.dst, entry.name),
                                    entry.size,
                                ),
                                ..run
                            },
                        );
                    }
                },
                DirEntryView::Failed(_) => {
                    assert(is_failure(frames, frames.len() - 1, top.next as int));
                },
            }
        }
    }
}

/// Whether a story agrees with what the worker has in mind.
spec fn fits_worker(queue: Seq<TransferView>, s: Story) -> bool {
    match s.task {
        TaskView::Queue(run) => {
            &&& run.items == queue
            &&& run.wf()
            &&& suits(run.stage, s.request)
            &&& run.lost ==> s.undelivered
            &&& s.closed == if run.stage is ItemReport {
                run.index + 1
            } else {
                run.index
            }
            &&& run.index <= queue.len()
            &&& run.stage is QueueReport ==> s.cancelled || run.index == queue.len()
            &&& s.cancelled && !s.stray ==> run.stage is QueueReport
            &&& run.stage is Poll ==> {
                &&& s.copies.len() == 0
                &&& !s.failed
                &&& !s.troubled
            }
            &&& !(run.stage is Poll || run.stage is QueueReport) ==> {
                &&& run.tree.first_error is Some ==> s.failed && s.troubled
                &&& s.failed ==> s.troubled
                &&& holds_failure(run.tree.frames) ==> s.troubled
                &&& run.stage is OpenRecheck ==> s.troubled
                &&& run.stage is File ==> !run.item().is_dir && !s.failed && !s.troubled
                &&& !(run.stage is File || run.stage is ItemReport) ==> run.item().is_dir
                    && (s.failed ==> run.tree.first_error is Some)
                &&& !run.item().is_dir ==> s.copies == seq![
                    Copied {
                        direction: run.item().direction,
                        src: run.item().src,
                        dst: run.item().dst,
                    },
                ]
            }
            &&& run.stage is ItemReport ==> {
                &&& s.request->Emit_0 is TransferDone ==> !s.failed && s.request->Emit_0
                    == EventView::TransferDone(run.index as usize)
                &&& s.request->Emit_0 is Error ==> s.troubled
            }
        },
        TaskView::Idle => {
            &&& s.request is NextCommand
            &&& s.closed <= queue.len()
            &&& s.cancelled || s.closed == queue.len()
        },
        TaskView::Stopped => {
            &&& s.request is Exit
            &&& s.undelivered || s.stray
            &&& s.closed <= queue.len()
        },
        _ => false,
    }
}

proof fn lemma_story_step(queue: Seq<TransferView>, s: Story, answer: AnswerView)
    requires
        fits_worker(queue, s),
        !s.over(),
    ensures
        fits_worker(queue, s.after(Happening::Answer(answer))),
{
    let run = s.task->Queue_0;
    let tree = run.tree;
    let told = s.told(answer);
    let (task, request) = s.task.step(answer);
    let after = told.asking(task, request);
    crate::sftp::worker::lemma_step_wf(s.task, answer);
    if run.stage is OpenRead {
        let frame = FrameView {
            src: tree.src,
            dst: tree.dst,
            entries: crate::sftp::tree_laws::entries_told(answer),
            next: 0,
        };
        let frames = tree.frames.push(frame);
        let next = RunView { tree: TreeView { frames, ..tree }, ..run };
        lemma_walk_goes_on(next);
        if holds_failure(frames) {
            let (k, j) = choose|k: int, j: int| #[trigger] is_failure(frames, k, j);
            if k < tree.frames.len() {
                assert(is_failure(tree.frames, k, j));
            } else {
                match answer {
                    AnswerView::LocalListing(Ok(entries)) => {
                        assert(entries[j] is Failed);
                    },
                    AnswerView::Listing(Ok(entries)) => {
                        assert(all_found(entries)[j] is Found);
                    },
                    _ => {},
                }
            }
        }
    }
    if run.stage is Link {
        lemma_walk_goes_on(run);
        if let AnswerView::Stat(Ok((_, size))) = answer {
            lemma_walk_goes_on(RunView { tree: tree.with_file(tree.src, tree.dst, size), ..run });
        }
    }
    if run.stage is Poll && task is Queue && task->Queue_0.stage is File {
        assert(after.copies =~= seq![
            Copied {
                direction: run.item().direction,
                src: run.item().src,
                dst: run.item().dst,
            },
        ]);
    }
    if run.stage is Poll {
        assert(!holds_failure(Seq::empty()));
    }
}

proof fn lemma_story(queue: Seq<TransferView>, happenings: Seq<Happening>)
    ensures
        fits_worker(queue, story(queue, happenings)),
    decreases happenings.len(),
{
    if happenings.len() > 0 {
        lemma_story(queue, happenings.drop_last());
        let s = story(queue, happenings.drop_last());
        if !s.over() {
            if let Happening::Answer(answer) = happenings.last() {
                lemma_story_step(queue, s, answer);
            }
        }
    }
}

/// A queue is run in its order, and nothing of it is passed over. Whatever is
/// answered: the transfers are reported one after the other, each once. One that
/// is reported as done is named by its place, and none of its copies failed; an
/// error is reported only where something went wrong. The end is reported only
/// when every transfer was, or after a cancel, which nothing follows but that
/// report; the worker ends before only if a report could not be delivered, or an
/// answer did not belong to its request.
pub proof fn queues_are_run_through(queue: Seq<TransferView>, happenings: Seq<Happening>)
    ensures
        ({
            let s = story(queue, happenings);
            &&& s.closed <= queue.len()
            &&& closes(s.request) ==> s.closed >= 1
            &&& s.request is Emit && s.request->Emit_0 is TransferDone ==> {
                &&& s.request->Emit_0 == EventView::TransferDone((s.closed - 1) as usize)
                &&& !s.failed
            }
            &&& s.request is Emit && s.request->Emit_0 is Error ==> s.troubled
            &&& s.request == RequestView::Emit(EventView::QueueDone) || s.request is NextCommand
                ==> s.cancelled || s.closed == queue.len()
            &&& s.request is Exit ==> s.undelivered || s.stray
            &&& s.cancelled && !s.stray ==> s.request == RequestView::Emit(EventView::QueueDone)
                || s.over()
        }),
{
    lemma_story(queue, happenings);
}

/// A single file is transferred by one copy, from its own source to its own
/// destination, the way that the transfer says.
pub proof fn files_are_copied_once(queue: Seq<TransferView>, happenings: Seq<Happening>)
    ensures
        ({
            let s = story(queue, happenings);
            closes(s.request) && !queue[s.closed - 1].is_dir ==> {
                let item = queue[s.closed - 1];
                s.copies == seq![
                    Copied { direction: item.direction, src: item.src, dst: item.dst },
                ]
            }
        }),
{
    lemma_story(queue, happenings);
}

/// What is reported of the progress of a single file names its place in the queue
/// and the length of the queue, and gives the figures as they came.
pub proof fn progress_names_its_transfer(
    queue: Seq<TransferView>,
    happenings: Seq<Happening>,
    transferred: u64,
    size: u64,
)
    ensures
        ({
            let s = story(queue, happenings);
            copy_asked(s.request) is Some && !queue[s.closed as int].is_dir ==> (
            s.task.progress(transferred, size).1 matches Some(event) ==> event
                == (EventView::Progress {
                index: s.closed as usize,
                total: queue.len() as usize,
                transferred,
                size,
            }))
        }),
{
    lemma_story(queue, happenings);
}

} // verus!
