//! What the transfer of one directory tree comes to, told by nothing but the
//! requests that the worker makes and the answers that it gets.

use vstd::multiset::Multiset;
use vstd::prelude::*;

use crate::paths::joined;
use crate::sftp::laws::{plan_total_is_the_sum_of_its_files, planned_bytes};
use crate::sftp::model::{Direction, EventView, TransferView};
use crate::sftp::worker::{
    all_found, entries_left, saturated, stop, AnswerView, DirEntryView, FrameView, PlannedView, RequestView,
    RunView, TaskView, TreeView,
};

verus! {

/// What befalls a worker: an answer to its request, or, while a copy runs, a
/// progress report and the news whether it was delivered.
#[verifier::ext_equal]
pub enum Happening {
    Answer(AnswerView),
    Progress(u64, u64),
    Delivery(bool),
}

/// A copy that a worker asked for: which way, from where and to where.
#[verifier::ext_equal]
pub struct Copied {
    pub direction: Direction,
    pub src: Seq<char>,
    pub dst: Seq<char>,
}

/// The copy that a request asks for, if it asks for one. A download reads the
/// server and writes the local disk, an upload the other way round.
pub open spec fn copy_asked(request: RequestView) -> Option<Copied> {
    match request {
        RequestView::Download { remote, local } => Some(
            Copied { direction: Direction::Download, src: remote, dst: local },
        ),
        RequestView::Upload { local, remote } => Some(
            Copied { direction: Direction::Upload, src: local, dst: remote },
        ),
        _ => None,
    }
}

/// The directory of the source that a request lists, if it does.
pub open spec fn dir_read(direction: Direction, request: RequestView) -> Option<Seq<char>> {
    match (direction, request) {
        (Direction::Download, RequestView::ListDir(path)) => Some(path),
        (Direction::Upload, RequestView::ReadLocalDir(path)) => Some(path),
        _ => None,
    }
}

/// The directory of the destination that a request makes, if it does.
pub open spec fn dir_made(direction: Direction, request: RequestView) -> Option<Seq<char>> {
    match (direction, request) {
        (Direction::Download, RequestView::CreateLocalDir(path)) => Some(path),
        (Direction::Upload, RequestView::Mkdir(path)) => Some(path),
        _ => None,
    }
}

/// The link of the source that a request follows, if it does.
pub open spec fn link_followed(direction: Direction, request: RequestView) -> Option<Seq<char>> {
    match (direction, request) {
        (Direction::Download, RequestView::Stat(path)) => Some(path),
        (Direction::Upload, RequestView::LocalStat(path)) => Some(path),
        _ => None,
    }
}

/// What an entry of a directory is.
pub enum Kind {
    File,
    Dir,
    Link,
}

pub open spec fn kind_of(entry: DirEntryView) -> Option<Kind> {
    match entry {
        DirEntryView::Found(entry) => if entry.is_symlink {
            Some(Kind::Link)
        } else if entry.is_dir {
            Some(Kind::Dir)
        } else {
            Some(Kind::File)
        },
        DirEntryView::Failed(_) => None,
    }
}

/// The paths of the entries of one kind in a directory.
pub open spec fn paths_of(dir: Seq<char>, entries: Seq<DirEntryView>, kind: Kind) -> Multiset<
    Seq<char>,
>
    decreases entries.len(),
{
    if entries.len() == 0 {
        Multiset::empty()
    } else {
        let rest = paths_of(dir, entries.drop_first(), kind);
        if kind_of(entries[0]) == Some(kind) {
            rest.insert(joined(dir, entries[0]->Found_0.name))
        } else {
            rest
        }
    }
}

/// The entries that an answer to a listing brings.
pub open spec fn entries_told(answer: AnswerView) -> Seq<DirEntryView> {
    match answer {
        AnswerView::Listing(Ok(entries)) => all_found(entries),
        AnswerView::LocalListing(Ok(entries)) => entries,
        _ => Seq::empty(),
    }
}

/// Everything that was asked for and learned while one item was transferred.
#[verifier::ext_equal]
pub struct Chronicle {
    pub task: TaskView,
    pub request: RequestView,
    /// The copies, in the order in which they were asked for.
    pub copies: Seq<Copied>,
    /// The directories that were made, and those that were listed.
    pub made: Seq<Seq<char>>,
    pub opened: Seq<Seq<char>>,
    /// The links that were followed.
    pub followed: Multiset<Seq<char>>,
    /// What the listings told of: files, a link to a file among them,
    /// directories and links.
    pub files: Multiset<Seq<char>>,
    pub dirs: Multiset<Seq<char>>,
    pub links: Multiset<Seq<char>>,
}

impl Chronicle {
    /// Whether the item is over: it was reported, or the queue or the worker
    /// ended.
    pub open spec fn over(self) -> bool {
        match self.request {
            RequestView::Emit(event) => !(event is Progress),
            RequestView::Exit => true,
            _ => false,
        }
    }

    /// What an answer tells of the tree.
    pub open spec fn learned(self, direction: Direction, answer: AnswerView) -> Chronicle {
        match (dir_read(direction, self.request), link_followed(direction, self.request)) {
            (Some(dir), _) => Chronicle {
                files: self.files.add(paths_of(dir, entries_told(answer), Kind::File)),
                dirs: self.dirs.add(paths_of(dir, entries_told(answer), Kind::Dir)),
                links: self.links.add(paths_of(dir, entries_told(answer), Kind::Link)),
                ..self
            },
            (None, Some(link)) => match answer {
                AnswerView::Stat(Ok((false, _))) => Chronicle {
                    files: self.files.insert(link),
                    ..self
                },
                _ => self,
            },
            (None, None) => self,
        }
    }

    /// What a new request asks for.
    pub open spec fn asking(
        self,
        direction: Direction,
        task: TaskView,
        request: RequestView,
    ) -> Chronicle {
        Chronicle {
            task,
            request,
            copies: match copy_asked(request) {
                Some(copy) => self.copies.push(copy),
                None => self.copies,
            },
            made: match dir_made(direction, request) {
                Some(dir) => self.made.push(dir),
                None => self.made,
            },
            opened: match dir_read(direction, request) {
                Some(dir) => self.opened.push(dir),
                None => self.opened,
            },
            followed: match link_followed(direction, request) {
                Some(link) => self.followed.insert(link),
                None => self.followed,
            },
            ..self
        }
    }

    pub open spec fn after(self, direction: Direction, happening: Happening) -> Chronicle {
        if self.over() {
            self
        } else {
            match happening {
                Happening::Answer(answer) => {
                    let (task, request) = self.task.step(answer);
                    self.learned(direction, answer).asking(direction, task, request)
                },
                Happening::Progress(transferred, size) => Chronicle {
                    task: self.task.progress(transferred, size).0,
                    ..self
                },
                Happening::Delivery(ok) => Chronicle { task: self.task.delivered(ok), ..self },
            }
        }
    }
}

/// The chronicle of the item that a queue is about to transfer, after what
/// happened since.
pub open spec fn chronicle(run: RunView, happenings: Seq<Happening>) -> Chronicle
    decreases happenings.len(),
{
    let direction = run.item().direction;
    if happenings.len() == 0 {
        let (task, request) = run.begin_item();
        (Chronicle {
            task,
            request,
            copies: Seq::empty(),
            made: Seq::empty(),
            opened: Seq::empty(),
            followed: Multiset::empty(),
            files: Multiset::empty(),
            dirs: Multiset::empty(),
            links: Multiset::empty(),
        }).asking(direction, task, request)
    } else {
        chronicle(run, happenings.drop_last()).after(direction, happenings.last())
    }
}

/// The path that the steps `names` lead to from `root`.
pub open spec fn reached_by(root: Seq<char>, names: Seq<Seq<char>>) -> Seq<char>
    decreases names.len(),
{
    if names.len() == 0 {
        root
    } else {
        joined(reached_by(root, names.drop_last()), names.last())
    }
}

/// Whether the same steps lead from the item's source to `src` and from its
/// destination to `dst`.
pub open spec fn mirrors(item: TransferView, src: Seq<char>, dst: Seq<char>) -> bool {
    exists|names: Seq<Seq<char>>| #[trigger]
        reached_by(item.src, names) == src && reached_by(item.dst, names) == dst
}

pub proof fn lemma_mirrors_root(item: TransferView)
    ensures
        mirrors(item, item.src, item.dst),
{
    assert(reached_by(item.src, Seq::empty()) == item.src);
    assert(reached_by(item.dst, Seq::empty()) == item.dst);
}

proof fn lemma_mirrors_below(item: TransferView, src: Seq<char>, dst: Seq<char>, name: Seq<char>)
    requires
        mirrors(item, src, dst),
    ensures
        mirrors(item, joined(src, name), joined(dst, name)),
{
    let names = choose|names: Seq<Seq<char>>| #[trigger]
        reached_by(item.src, names) == src && reached_by(item.dst, names) == dst;
    let longer = names.push(name);
    assert(longer.drop_last() =~= names);
    assert(reached_by(item.src, longer) == joined(src, name));
    assert(reached_by(item.dst, longer) == joined(dst, name));
}

/// What is still to be met of one kind on the way down.
spec fn pending(frames: Seq<FrameView>, kind: Kind) -> Multiset<Seq<char>>
    decreases frames.len(),
{
    if frames.len() == 0 {
        Multiset::empty()
    } else {
        let top = frames.last();
        pending(frames.drop_last(), kind).add(
            paths_of(
                top.src,
                if top.next <= top.entries.len() {
                    top.entries.skip(top.next as int)
                } else {
                    Seq::empty()
                },
                kind,
            ),
        )
    }
}

spec fn planned_sources(files: Seq<PlannedView>) -> Multiset<Seq<char>>
    decreases files.len(),
{
    if files.len() == 0 {
        Multiset::empty()
    } else {
        planned_sources(files.drop_last()).insert(files.last().src)
    }
}

/// The sources of the copies.
pub open spec fn sources(copies: Seq<Copied>) -> Multiset<Seq<char>>
    decreases copies.len(),
{
    if copies.len() == 0 {
        Multiset::empty()
    } else {
        sources(copies.drop_last()).insert(copies.last().src)
    }
}

/// The paths of a list, as often as they stand in it.
pub open spec fn counted(paths: Seq<Seq<char>>) -> Multiset<Seq<char>>
    decreases paths.len(),
{
    if paths.len() == 0 {
        Multiset::empty()
    } else {
        counted(paths.drop_last()).insert(paths.last())
    }
}

spec fn frames_mirror(item: TransferView, frames: Seq<FrameView>) -> bool {
    forall|i: int|
        0 <= i < frames.len() ==> mirrors(item, (#[trigger] frames[i]).src, frames[i].dst)
}

spec fn files_mirror(item: TransferView, files: Seq<PlannedView>) -> bool {
    forall|i: int| 0 <= i < files.len() ==> mirrors(item, (#[trigger] files[i]).src, files[i].dst)
}

/// Whether a walk from `before` has come to `after`, having asked for `request`:
/// nothing that was met got lost, and nothing else came up.
spec fn walked(before: RunView, after: RunView, request: RequestView) -> bool {
    let item = before.item();
    &&& after.items == before.items && after.index == before.index
    &&& frames_mirror(item, after.tree.frames)
    &&& files_mirror(item, after.tree.files)
    &&& after.tree.at == before.tree.at
    &&& planned_sources(after.tree.files).add(pending(after.tree.frames, Kind::File))
        == planned_sources(before.tree.files).add(pending(before.tree.frames, Kind::File))
    &&& pending(before.tree.frames, Kind::Dir) == if after.stage is OpenPoll {
        pending(after.tree.frames, Kind::Dir).insert(after.tree.src)
    } else {
        pending(after.tree.frames, Kind::Dir)
    }
    &&& pending(before.tree.frames, Kind::Link) == if after.stage is Link {
        pending(after.tree.frames, Kind::Link).insert(after.tree.src)
    } else {
        pending(after.tree.frames, Kind::Link)
    }
    &&& after.stage is OpenPoll ==> {
        &&& mirrors(item, after.tree.src, after.tree.dst)
        &&& request is PollCommands
    }
    &&& after.stage is Link ==> {
        &&& mirrors(item, after.tree.src, after.tree.dst)
        &&& link_followed(item.direction, request) == Some(after.tree.src)
        &&& request is Stat || request is LocalStat
    }
    &&& after.stage is TreePoll || after.stage is TreeReport ==> {
        &&& after.tree.frames.len() == 0
        &&& request is PollCommands || (request is Emit && request->Emit_0 is Progress)
    }
    &&& after.stage is ItemReport ==> {
        &&& request is Emit
        &&& request->Emit_0 is Error || request->Emit_0 == EventView::TransferDone(
            before.index as usize,
        )
        &&& request->Emit_0 is TransferDone ==> after.tree.frames.len() == 0
            && after.tree.at >= after.tree.files.len()
    }
    &&& after.stage is TreePoll ==> after.tree.at < after.tree.files.len()
    &&& after.stage is OpenPoll || after.stage is Link || after.stage is TreePoll || after.stage
        is TreeReport || after.stage is ItemReport
}

proof fn lemma_walk(run: RunView)
    requires
        run.index < run.items.len(),
        frames_mirror(run.item(), run.tree.frames),
        files_mirror(run.item(), run.tree.files),
    ensures
        (run.lost && run.walk() == stop()) || (run.walk().0 is Queue && walked(
            run,
            run.walk().0->Queue_0,
            run.walk().1,
        )),
    decreases entries_left(run.tree.frames), run.tree.frames.len(),
{
    let tree = run.tree;
    let frames = tree.frames;
    let item = run.item();
    if frames.len() > 0 {
        let top = frames.last();
        let rest = frames.drop_last();
        assert(mirrors(item, frames[frames.len() - 1].src, frames[frames.len() - 1].dst));
        if top.next >= top.entries.len() {
            assert(top.entries.skip(top.entries.len() as int) =~= Seq::empty());
            let shorter = RunView { tree: TreeView { frames: rest, ..tree }, ..run };
            lemma_walk(shorter);
            lemma_exhausted(frames, Kind::File);
            lemma_exhausted(frames, Kind::Dir);
            lemma_exhausted(frames, Kind::Link);
        } else {
            let moved = rest.push(FrameView { next: top.next + 1, ..top });
            assert(moved.drop_last() =~= rest);
            lemma_taken(frames, Kind::File);
            lemma_taken(frames, Kind::Dir);
            lemma_taken(frames, Kind::Link);
            assert forall|i: int| 0 <= i < moved.len() implies mirrors(
                item,
                (#[trigger] moved[i]).src,
                moved[i].dst,
            ) by {
                if i < rest.len() {
                    assert(moved[i] == frames[i]);
                }
            }
            if let DirEntryView::Found(entry) = top.entries[top.next as int] {
                let src = joined(top.src, entry.name);
                let dst = joined(top.dst, entry.name);
                lemma_mirrors_below(item, top.src, top.dst, entry.name);
                if !entry.is_symlink && !entry.is_dir {
                    let longer = TreeView { frames: moved, ..tree }.with_file(
                        src,
                        dst,
                        entry.size,
                    );
                    assert(longer.files.drop_last() =~= tree.files);
                    assert forall|i: int| 0 <= i < longer.files.len() implies mirrors(
                        item,
                        (#[trigger] longer.files[i]).src,
                        longer.files[i].dst,
                    ) by {
                        if i < tree.files.len() {
                            assert(longer.files[i] == tree.files[i]);
                        }
                    }
                    lemma_walk(RunView { tree: longer, ..run });
                    assert(planned_sources(tree.files).insert(src).add(
                        pending(moved, Kind::File),
                    ) =~= planned_sources(tree.files).add(pending(frames, Kind::File)));
                }
            }
        }
    }
}

/// A frame that is through holds nothing more.
proof fn lemma_exhausted(frames: Seq<FrameView>, kind: Kind)
    requires
        frames.len() > 0,
        frames.last().next >= frames.last().entries.len(),
    ensures
        pending(frames, kind) == pending(frames.drop_last(), kind),
{
    let top = frames.last();
    let left = if top.next <= top.entries.len() {
        top.entries.skip(top.next as int)
    } else {
        Seq::empty()
    };
    assert(left.len() == 0);
    assert(pending(frames, kind) =~= pending(frames.drop_last(), kind));
}

/// Looking at one more entry takes that entry out of what is to be met.
proof fn lemma_taken(frames: Seq<FrameView>, kind: Kind)
    requires
        frames.len() > 0,
        frames.last().next < frames.last().entries.len(),
    ensures
        ({
            let top = frames.last();
            let entry = top.entries[top.next as int];
            let moved = frames.drop_last().push(FrameView { next: top.next + 1, ..top });
            pending(frames, kind) == if kind_of(entry) == Some(kind) {
                pending(moved, kind).insert(joined(top.src, entry->Found_0.name))
            } else {
                pending(moved, kind)
            }
        }),
{
    let top = frames.last();
    let entry = top.entries[top.next as int];
    let moved = frames.drop_last().push(FrameView { next: top.next + 1, ..top });
    assert(moved.drop_last() =~= frames.drop_last());
    let now = top.entries.skip(top.next as int);
    let later = top.entries.skip((top.next + 1) as int);
    assert(now.drop_first() =~= later);
    assert(now[0] == entry);
    let before = pending(frames.drop_last(), kind);
    if kind_of(entry) == Some(kind) {
        let path = joined(top.src, entry->Found_0.name);
        assert(before.add(paths_of(top.src, later, kind).insert(path)) =~= before.add(
            paths_of(top.src, later, kind),
        ).insert(path));
    }
}

/// How many copies were asked for, by where the worker stands.
spec fn asked_so_far(run: RunView) -> nat {
    if run.stage is TreeFile {
        run.tree.at + 1
    } else {
        run.tree.at
    }
}

/// Whether the chronicle of a directory agrees with what the worker has in mind.
spec fn agrees(start: RunView, c: Chronicle) -> bool {
    let item = start.item();
    let direction = item.direction;
    match c.task {
        TaskView::Queue(run) => {
            let tree = run.tree;
            let opening = run.stage is OpenPoll || run.stage is OpenMake || run.stage
                is OpenRecheck;
            let making = run.stage is OpenMake || run.stage is OpenRecheck;
            let copying = run.stage is TreePoll || run.stage is TreeReport || run.stage is TreeFile;
            let broken_off = run.stage is QueueReport || (run.stage is ItemReport && tree.at == 0
                && c.request->Emit_0 is Error);
            &&& run.items == start.items && run.index == start.index
            &&& start.index < start.items.len()
            &&& frames_mirror(item, tree.frames)
            &&& files_mirror(item, tree.files)
            &&& c.copies.len() == asked_so_far(run) <= tree.files.len()
            &&& forall|i: int|
                0 <= i < c.copies.len() ==> (#[trigger] c.copies[i]) == (Copied {
                    direction,
                    src: tree.files[i].src,
                    dst: tree.files[i].dst,
                })
            &&& c.files == planned_sources(tree.files).add(pending(tree.frames, Kind::File))
            &&& c.links == c.followed.add(pending(tree.frames, Kind::Link))
            &&& !broken_off ==> c.dirs.insert(item.src) == if opening {
                counted(c.opened).add(pending(tree.frames, Kind::Dir)).insert(tree.src)
            } else {
                counted(c.opened).add(pending(tree.frames, Kind::Dir))
            }
            &&& !broken_off ==> c.made.len() == c.opened.len() + if making {
                1nat
            } else {
                0nat
            }
            &&& c.opened.len() <= c.made.len()
            &&& making ==> c.made.last() == tree.dst
            &&& forall|i: int|
                0 <= i < c.opened.len() ==> mirrors(item, #[trigger] c.opened[i], c.made[i])
            &&& opening || run.stage is OpenRead || run.stage is Link ==> {
                &&& mirrors(item, tree.src, tree.dst)
                &&& tree.at == 0
            }
            &&& run.stage is OpenRead <==> dir_read(direction, c.request) == Some(tree.src)
            &&& run.stage is OpenRead <==> dir_read(direction, c.request) is Some
            &&& run.stage is Link <==> link_followed(direction, c.request) == Some(tree.src)
            &&& run.stage is Link <==> link_followed(direction, c.request) is Some
            &&& copying ==> tree.frames.len() == 0
            &&& run.stage is TreePoll ==> tree.at < tree.files.len()
            &&& run.stage is ItemReport ==> {
                &&& c.request is Emit
                &&& c.request->Emit_0 is Error || c.request->Emit_0 == EventView::TransferDone(
                    start.index as usize,
                )
                &&& tree.at == 0 && c.request->Emit_0 is Error || (tree.frames.len() == 0 && tree.at
                    == tree.files.len())
            }
            &&& c.over() ==> run.stage is ItemReport || run.stage is QueueReport
            &&& run.stage is QueueReport ==> c.request == RequestView::Emit(EventView::QueueDone)
            &&& opening || run.stage is OpenRead || run.stage is Link || copying || run.stage
                is ItemReport || run.stage is QueueReport
        },
        TaskView::Stopped => {
            &&& c.request is Exit
            &&& forall|i: int|
                0 <= i < c.copies.len() ==> {
                    &&& (#[trigger] c.copies[i]).direction == direction
                    &&& mirrors(item, c.copies[i].src, c.copies[i].dst)
                }
            &&& c.opened.len() <= c.made.len()
            &&& forall|i: int|
                0 <= i < c.opened.len() ==> mirrors(item, #[trigger] c.opened[i], c.made[i])
            &&& sources(c.copies).subset_of(c.files)
        },
        _ => false,
    }
}

/// The copies asked for are the first files of the plan.
proof fn lemma_sources(copies: Seq<Copied>, files: Seq<PlannedView>)
    requires
        copies.len() <= files.len(),
        forall|i: int| 0 <= i < copies.len() ==> (#[trigger] copies[i]).src == files[i].src,
    ensures
        sources(copies).subset_of(planned_sources(files)),
        copies.len() == files.len() ==> sources(copies) == planned_sources(files),
    decreases files.len(),
{
    if files.len() > 0 {
        let fewer = files.drop_last();
        if copies.len() == files.len() {
            let rest = copies.drop_last();
            assert forall|i: int| 0 <= i < rest.len() implies (#[trigger] rest[i]).src
                == fewer[i].src by {
                assert(rest[i] == copies[i]);
            }
            lemma_sources(rest, fewer);
            assert(copies[copies.len() - 1].src == files.last().src);
        } else {
            lemma_sources(copies, fewer);
            assert(planned_sources(fewer).subset_of(planned_sources(files)));
        }
    }
}

/// A chronicle that agrees says no more than that everything asked for is
/// mirrored and was listed.
proof fn lemma_stopping(start: RunView, c: Chronicle, after: Chronicle)
    requires
        agrees(start, c),
        c.task is Queue,
        after.task is Stopped,
        after.request is Exit,
        after.copies == c.copies,
        after.made == c.made,
        after.opened == c.opened,
        c.files.subset_of(after.files),
    ensures
        agrees(start, after),
{
    let files = c.task->Queue_0.tree.files;
    lemma_sources(c.copies, files);
    assert(planned_sources(files).subset_of(c.files));
    assert forall|i: int| 0 <= i < c.copies.len() implies (#[trigger] c.copies[i]).direction
        == start.item().direction && mirrors(start.item(), c.copies[i].src, c.copies[i].dst) by {
        assert(mirrors(start.item(), files[i].src, files[i].dst));
    }
}

/// Listing a directory puts what it holds before the walk.
proof fn lemma_listed(c: Chronicle, direction: Direction, answer: AnswerView, frames: Seq<FrameView>, frame: FrameView)
    requires
        dir_read(direction, c.request) == Some(frame.src),
        frame.next == 0,
        frame.entries == entries_told(answer),
    ensures
        c.learned(direction, answer).files == c.files.add(
            paths_of(frame.src, frame.entries, Kind::File),
        ),
        c.learned(direction, answer).dirs == c.dirs.add(
            paths_of(frame.src, frame.entries, Kind::Dir),
        ),
        c.learned(direction, answer).links == c.links.add(
            paths_of(frame.src, frame.entries, Kind::Link),
        ),
        pending(frames.push(frame), Kind::File) == pending(frames, Kind::File).add(
            paths_of(frame.src, frame.entries, Kind::File),
        ),
        pending(frames.push(frame), Kind::Dir) == pending(frames, Kind::Dir).add(
            paths_of(frame.src, frame.entries, Kind::Dir),
        ),
        pending(frames.push(frame), Kind::Link) == pending(frames, Kind::Link).add(
            paths_of(frame.src, frame.entries, Kind::Link),
        ),
{
    assert(frames.push(frame).drop_last() =~= frames);
    assert(frame.entries.skip(0) =~= frame.entries);
}

/// The walk goes on from a chronicle that agrees but for the request.
proof fn lemma_walk_agrees(start: RunView, c: Chronicle, run: RunView, after: Chronicle)
    requires
        start.index < start.items.len(),
        run.items == start.items && run.index == start.index,
        run.tree.at == 0,
        c.copies.len() == 0,
        frames_mirror(start.item(), run.tree.frames),
        files_mirror(start.item(), run.tree.files),
        c.files == planned_sources(run.tree.files).add(pending(run.tree.frames, Kind::File)),
        c.links == c.followed.add(pending(run.tree.frames, Kind::Link)),
        c.dirs.insert(start.item().src) == counted(c.opened).add(
            pending(run.tree.frames, Kind::Dir),
        ),
        c.made.len() == c.opened.len(),
        forall|i: int|
            0 <= i < c.opened.len() ==> mirrors(start.item(), #[trigger] c.opened[i], c.made[i]),
        after == c.asking(start.item().direction, run.walk().0, run.walk().1),
    ensures
        agrees(start, after),
{
    lemma_walk(run);
    let (task, request) = run.walk();
    if task is Queue {
        let now = task->Queue_0;
        assert(copy_asked(request) is None);
        assert(dir_made(start.item().direction, request) is None);
        assert(dir_read(start.item().direction, request) is None);
        assert(after.copies =~= c.copies);
        if now.stage is OpenPoll {
            assert(counted(c.opened).add(pending(now.tree.frames, Kind::Dir).insert(now.tree.src))
                =~= counted(c.opened).add(pending(now.tree.frames, Kind::Dir)).insert(now.tree.src));
        }
        if now.stage is Link {
            assert(c.followed.add(pending(now.tree.frames, Kind::Link).insert(now.tree.src))
                =~= c.followed.insert(now.tree.src).add(pending(now.tree.frames, Kind::Link)));
        }
    } else {
        assert(sources(c.copies) =~= Multiset::empty());
    }
}

/// A directory that was made is listed.
proof fn lemma_read_dir_agrees(start: RunView, c: Chronicle, answer: AnswerView)
    requires
        agrees(start, c),
        c.task is Queue,
        c.task->Queue_0.stage is OpenMake || c.task->Queue_0.stage is OpenRecheck,
        c.task.step(answer) == c.task->Queue_0.read_dir(),
    ensures
        agrees(start, c.after(start.item().direction, Happening::Answer(answer))) || c.over(),
{
    let run = c.task->Queue_0;
    let direction = start.item().direction;
    let after = c.after(direction, Happening::Answer(answer));
    if !c.over() {
        assert(run.item() == start.item());
        assert(c.learned(direction, answer) == c);
        assert(after.opened =~= c.opened.push(run.tree.src));
        assert(after.opened.drop_last() =~= c.opened);
        let dirs = pending(run.tree.frames, Kind::Dir);
        assert(counted(c.opened).add(dirs).insert(run.tree.src) =~= counted(c.opened).insert(
            run.tree.src,
        ).add(dirs));
        assert forall|i: int| 0 <= i < after.opened.len() implies mirrors(
            start.item(),
            #[trigger] after.opened[i],
            after.made[i],
        ) by {
            if i < c.opened.len() {
                assert(after.opened[i] == c.opened[i]);
            }
        }
    }
}

/// Every answer keeps the agreement.
proof fn lemma_answer_agrees(start: RunView, c: Chronicle, answer: AnswerView)
    requires
        agrees(start, c),
        !c.over(),
    ensures
        agrees(start, c.after(start.item().direction, Happening::Answer(answer))),
{
    let run = c.task->Queue_0;
    let tree = run.tree;
    let direction = start.item().direction;
    let known = c.learned(direction, answer);
    let (task, request) = c.task.step(answer);
    let after = known.asking(direction, task, request);
    assert(run.item() == start.item());
    assert(c.files.subset_of(known.files));
    let walks = (run.stage is OpenRead && (answer is Listing && answer->Listing_0 is Ok || (answer is LocalListing && answer->LocalListing_0
        is Ok))) || (run.stage is Link && answer is Stat);
    if task is Stopped && !walks {
        lemma_stopping(start, c, after);
    } else if run.stage is OpenPoll {
    } else if run.stage is OpenMake || run.stage is OpenRecheck {
        if c.task.step(answer) == run.read_dir() {
            lemma_read_dir_agrees(start, c, answer);
        }
    } else if run.stage is OpenRead {
        match answer {
            AnswerView::Listing(Ok(_)) | AnswerView::LocalListing(Ok(_)) => {
                let frame = FrameView {
                    src: tree.src,
                    dst: tree.dst,
                    entries: entries_told(answer),
                    next: 0,
                };
                let frames = tree.frames.push(frame);
                let next = RunView { tree: TreeView { frames, ..tree }, ..run };
                lemma_listed(c, direction, answer, tree.frames, frame);
                let files = paths_of(frame.src, frame.entries, Kind::File);
                let dirs = paths_of(frame.src, frame.entries, Kind::Dir);
                let links = paths_of(frame.src, frame.entries, Kind::Link);
                assert(known.files =~= planned_sources(tree.files).add(
                    pending(frames, Kind::File),
                ));
                assert(known.links =~= c.followed.add(pending(frames, Kind::Link)));
                assert(known.dirs.insert(start.item().src) =~= c.dirs.insert(
                    start.item().src,
                ).add(dirs));
                assert(known.dirs.insert(start.item().src) =~= counted(c.opened).add(
                    pending(frames, Kind::Dir),
                ));
                assert forall|i: int| 0 <= i < frames.len() implies mirrors(
                    start.item(),
                    (#[trigger] frames[i]).src,
                    frames[i].dst,
                ) by {
                    if i < tree.frames.len() {
                        assert(frames[i] == tree.frames[i]);
                    }
                }
                lemma_walk_agrees(start, known, next, after);
            },
            _ => {
                assert(known.files =~= c.files);
                assert(known.dirs =~= c.dirs);
                assert(known.links =~= c.links);
            },
        }
    } else if run.stage is Link {
        let longer = tree.with_file(tree.src, tree.dst, (answer->Stat_0)->Ok_0.1);
        match answer {
            AnswerView::Stat(Ok((false, size))) => {
                assert(longer.files.drop_last() =~= tree.files);
                assert forall|i: int| 0 <= i < longer.files.len() implies mirrors(
                    start.item(),
                    (#[trigger] longer.files[i]).src,
                    longer.files[i].dst,
                ) by {
                    if i < tree.files.len() {
                        assert(longer.files[i] == tree.files[i]);
                    }
                }
                assert(known.files =~= planned_sources(longer.files).add(
                    pending(tree.frames, Kind::File),
                ));
                lemma_walk_agrees(start, known, RunView { tree: longer, ..run }, after);
            },
            AnswerView::Stat(_) => {
                lemma_walk_agrees(start, known, run, after);
            },
            _ => {},
        }
    } else if run.stage is TreeReport {
    } else if run.stage is TreePoll {
        let file = tree.files[tree.at as int];
        if task is Queue && task->Queue_0.stage is TreeFile {
            assert(after.copies == c.copies.push(
                Copied { direction, src: file.src, dst: file.dst },
            ));
        }
    } else if run.stage is TreeFile {
    }
}

proof fn lemma_agrees(start: RunView, happenings: Seq<Happening>)
    requires
        start.index < start.items.len(),
        start.item().is_dir,
    ensures
        agrees(start, chronicle(start, happenings)),
    decreases happenings.len(),
{
    let item = start.item();
    if happenings.len() == 0 {
        lemma_mirrors_root(item);
        let c = chronicle(start, happenings);
        assert(c.files =~= planned_sources(Seq::empty()).add(
            pending(Seq::empty(), Kind::File),
        ));
        assert(c.links =~= c.followed.add(pending(Seq::empty(), Kind::Link)));
        assert(c.dirs.insert(item.src) =~= counted(c.opened).add(
            pending(Seq::empty(), Kind::Dir),
        ).insert(item.src));
    } else {
        lemma_agrees(start, happenings.drop_last());
        let c = chronicle(start, happenings.drop_last());
        if !c.over() {
            match happenings.last() {
                Happening::Answer(answer) => lemma_answer_agrees(start, c, answer),
                _ => {},
            }
        }
    }
}

/// A directory arrives whole and as it was. Whatever is answered, every copy goes
/// the way of the item, and the same steps lead from the item's source to the file
/// that is read and from its destination to the file that is written. Nothing is
/// copied that was not listed. Every directory that is listed was made on the
/// other side before, at the mirrored place. And where the item is reported as
/// transferred, or failed after some file was asked for, every directory that was
/// listed was opened once, every link followed once, and every file, a link to a
/// file among them, was the source of exactly one copy.
pub proof fn trees_arrive_whole(run: RunView, happenings: Seq<Happening>)
    requires
        run.index < run.items.len(),
        run.item().is_dir,
    ensures
        ({
            let c = chronicle(run, happenings);
            let item = run.item();
            &&& forall|i: int|
                0 <= i < c.copies.len() ==> {
                    &&& (#[trigger] c.copies[i]).direction == item.direction
                    &&& mirrors(item, c.copies[i].src, c.copies[i].dst)
                }
            &&& sources(c.copies).subset_of(c.files)
            &&& c.opened.len() <= c.made.len()
            &&& forall|i: int|
                0 <= i < c.opened.len() ==> mirrors(item, #[trigger] c.opened[i], c.made[i])
            &&& c.request is Emit && (c.request->Emit_0 is TransferDone || (
            c.request->Emit_0 is Error && c.copies.len() > 0)) ==> {
                &&& sources(c.copies) == c.files
                &&& counted(c.opened) == c.dirs.insert(item.src)
                &&& c.followed == c.links
            }
            &&& c.request is Emit && c.request->Emit_0 is TransferDone ==> c.request
                == RequestView::Emit(EventView::TransferDone(run.index as usize))
        }),
{
    lemma_agrees(run, happenings);
    let c = chronicle(run, happenings);
    let item = run.item();
    if c.task is Queue {
        let tree = c.task->Queue_0.tree;
        lemma_sources(c.copies, tree.files);
        assert(planned_sources(tree.files).subset_of(c.files));
        assert forall|i: int| 0 <= i < c.copies.len() implies (#[trigger] c.copies[i]).direction
            == item.direction && mirrors(item, c.copies[i].src, c.copies[i].dst) by {
            assert(mirrors(item, tree.files[i].src, tree.files[i].dst));
        }
        if c.request is Emit && (c.request->Emit_0 is TransferDone || (c.request->Emit_0 is Error
            && c.copies.len() > 0)) {
            assert(tree.frames.len() == 0);
            assert(sources(c.copies) =~= c.files);
            assert(counted(c.opened) =~= c.dirs.insert(item.src));
            assert(c.followed =~= c.links);
        }
    }
}

spec fn bytes_agree(c: Chronicle) -> bool {
    c.task matches TaskView::Queue(run) ==> {
        &&& run.tree.total == planned_bytes(run.tree.files)
        &&& run.tree.at <= run.tree.files.len()
        &&& run.tree.base == planned_bytes(run.tree.files.take(run.tree.at as int))
        &&& run.stage is TreeFile ==> run.tree.at < run.tree.files.len()
        &&& !(run.stage is TreePoll || run.stage is TreeReport || run.stage is TreeFile || run.stage
            is ItemReport || run.stage is QueueReport) ==> run.tree.at == 0
    }
}

/// What a walk leaves of the bytes counted.
proof fn lemma_walk_bytes(run: RunView)
    requires
        run.tree.at == 0,
        run.tree.base == 0,
        run.tree.total == planned_bytes(run.tree.files),
    ensures
        run.walk().0 matches TaskView::Queue(after) ==> {
            &&& after.tree.at == 0
            &&& after.tree.base == 0
            &&& after.tree.total == planned_bytes(after.tree.files)
            &&& !(after.stage is TreeFile)
        },
    decreases entries_left(run.tree.frames), run.tree.frames.len(),
{
    let tree = run.tree;
    let frames = tree.frames;
    if frames.len() > 0 {
        let top = frames.last();
        if top.next >= top.entries.len() {
            lemma_walk_bytes(
                RunView { tree: TreeView { frames: frames.drop_last(), ..tree }, ..run },
            );
        } else {
            let moved = frames.drop_last().push(FrameView { next: top.next + 1, ..top });
            assert(moved.drop_last() =~= frames.drop_last());
            if let DirEntryView::Found(entry) = top.entries[top.next as int] {
                let src = joined(top.src, entry.name);
                let dst = joined(top.dst, entry.name);
                if !entry.is_symlink && !entry.is_dir {
                    plan_total_is_the_sum_of_its_files(tree, src, dst, entry.size);
                    lemma_walk_bytes(
                        RunView {
                            tree: TreeView { frames: moved, ..tree }.with_file(
                                src,
                                dst,
                                entry.size,
                            ),
                            ..run
                        },
                    );
                }
            }
        }
    }
}

proof fn lemma_bytes(start: RunView, happenings: Seq<Happening>)
    requires
        start.index < start.items.len(),
        start.item().is_dir,
    ensures
        bytes_agree(chronicle(start, happenings)),
    decreases happenings.len(),
{
    lemma_agrees(start, happenings);
    let after = chronicle(start, happenings);
    if happenings.len() == 0 {
        assert(Seq::<PlannedView>::empty().take(0) =~= Seq::empty());
    } else {
        lemma_bytes(start, happenings.drop_last());
        lemma_agrees(start, happenings.drop_last());
        let c = chronicle(start, happenings.drop_last());
        if !c.over() && c.task is Queue {
            let run = c.task->Queue_0;
            let tree = run.tree;
            assert(tree.files.take(0) =~= Seq::empty());
            if let Happening::Answer(answer) = happenings.last() {
                if run.stage is OpenRead {
                    let frame = FrameView {
                        src: tree.src,
                        dst: tree.dst,
                        entries: entries_told(answer),
                        next: 0,
                    };
                    lemma_walk_bytes(
                        RunView {
                            tree: TreeView { frames: tree.frames.push(frame), ..tree },
                            ..run
                        },
                    );
                }
                if run.stage is Link {
                    lemma_walk_bytes(run);
                    if let AnswerView::Stat(Ok((_, size))) = answer {
                        plan_total_is_the_sum_of_its_files(tree, tree.src, tree.dst, size);
                        lemma_walk_bytes(
                            RunView { tree: tree.with_file(tree.src, tree.dst, size), ..run },
                        );
                    }
                }
                if run.stage is TreeFile {
                    assert(tree.files.take((tree.at + 1) as int).drop_last() =~= tree.files.take(
                        tree.at as int,
                    ));
                }
                if after.task is Queue {
                    let now = after.task->Queue_0.tree;
                    assert(now.files.take(0) =~= Seq::empty());
                }
            }
        }
    }
}

/// The progress of a tree counts on: what is reported while a file of it is copied
/// is the bytes of the files before it and of the file itself, against the bytes of
/// all the files; and the file that is copied is the one asked for last.
pub proof fn tree_progress_counts_on(
    run: RunView,
    happenings: Seq<Happening>,
    transferred: u64,
    size: u64,
)
    requires
        run.index < run.items.len(),
        run.item().is_dir,
    ensures
        ({
            let c = chronicle(run, happenings);
            copy_asked(c.request) is Some && !c.over() ==> {
                let tree = c.task->Queue_0.tree;
                let before = tree.files.take(c.copies.len() - 1);
                &&& c.copies.len() >= 1
                &&& copy_asked(c.request) == Some(c.copies.last())
                &&& c.task.progress(transferred, size).1 matches Some(event) ==> event
                    == (EventView::Progress {
                    index: run.index as usize,
                    total: run.items.len() as usize,
                    transferred: saturated(planned_bytes(before), transferred),
                    size: planned_bytes(tree.files),
                })
            }
        }),
{
    lemma_agrees(run, happenings);
    lemma_bytes(run, happenings);
    lemma_last_copy(run, happenings);
}

/// A copy request is the last of the copies.
proof fn lemma_last_copy(start: RunView, happenings: Seq<Happening>)
    requires
        start.index < start.items.len(),
        start.item().is_dir,
    ensures
        ({
            let c = chronicle(start, happenings);
            copy_asked(c.request) is Some ==> {
                &&& c.copies.len() >= 1
                &&& copy_asked(c.request) == Some(c.copies.last())
                &&& c.task is Queue && c.task->Queue_0.stage is TreeFile
            }
        }),
    decreases happenings.len(),
{
    if happenings.len() > 0 {
        let before = happenings.drop_last();
        lemma_last_copy(start, before);
        lemma_agrees(start, before);
        let c = chronicle(start, before);
        if !c.over() && c.task is Queue {
            let run = c.task->Queue_0;
            let tree = run.tree;
            if let Happening::Answer(answer) = happenings.last() {
                if run.stage is OpenRead {
                    let frame = FrameView {
                        src: tree.src,
                        dst: tree.dst,
                        entries: entries_told(answer),
                        next: 0,
                    };
                    let frames = tree.frames.push(frame);
                    assert forall|i: int| 0 <= i < frames.len() implies mirrors(
                        start.item(),
                        (#[trigger] frames[i]).src,
                        frames[i].dst,
                    ) by {
                        if i < tree.frames.len() {
                            assert(frames[i] == tree.frames[i]);
                        }
                    }
                    lemma_walk(RunView { tree: TreeView { frames, ..tree }, ..run });
                }
                if run.stage is Link {
                    lemma_walk(run);
                    if let AnswerView::Stat(Ok((_, size))) = answer {
                        let longer = tree.with_file(tree.src, tree.dst, size);
                        assert forall|i: int| 0 <= i < longer.files.len() implies mirrors(
                            start.item(),
                            (#[trigger] longer.files[i]).src,
                            longer.files[i].dst,
                        ) by {
                            if i < tree.files.len() {
                                assert(longer.files[i] == tree.files[i]);
                            }
                        }
                        lemma_walk(RunView { tree: longer, ..run });
                    }
                }
            }
        }
    }
}

} // verus!
