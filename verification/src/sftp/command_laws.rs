//! What the transfer worker reports of a whole list of commands.

use vstd::prelude::*;

use crate::sftp::model::{CommandView, EventView, Side};
use crate::sftp::worker::{
    changed_message, edit_error, stop, AnswerView, RequestView, TaskView,
};
use crate::text::numeral;

verus! {

/// What the outside answers while one command is served.
pub type World = spec_fn(RequestView) -> AnswerView;

/// Whether a request can get this answer.
pub open spec fn answers(request: RequestView, answer: AnswerView) -> bool {
    match request {
        RequestView::NextCommand => answer is Command,
        RequestView::PollCommands => answer is Pending,
        RequestView::Emit(_) => answer is Delivered,
        RequestView::ListDir(_) => answer is Listing,
        RequestView::ReadLocalDir(_) => answer is LocalListing,
        RequestView::Stat(_) | RequestView::LocalStat(_) => answer is Stat,
        RequestView::FileStamp(_) => answer is Stamp,
        _ => answer is Done,
    }
}

/// Whether every request gets an answer that belongs to it.
pub open spec fn sane(world: World) -> bool {
    forall|request: RequestView| answers(request, #[trigger] world(request))
}

/// The events that the worker reports, where it stands then and what it asks
/// for, once it waits for the next command or has ended, or after `steps`
/// answers. Every event is delivered.
pub open spec fn served(
    task: TaskView,
    request: RequestView,
    world: World,
    steps: nat,
) -> (Seq<EventView>, TaskView, RequestView)
    decreases steps,
{
    if steps == 0 || request is NextCommand || request is Exit {
        (Seq::empty(), task, request)
    } else {
        let answer = if request is Emit {
            AnswerView::Delivered(true)
        } else {
            world(request)
        };
        let (next, asked) = task.step(answer);
        let (events, at, wants) = served(next, asked, world, (steps - 1) as nat);
        (
            (if request is Emit {
                seq![request->Emit_0]
            } else {
                Seq::empty()
            }) + events,
            at,
            wants,
        )
    }
}

/// The most requests that a command without a queue takes: a stamp, a copy, the
/// permission bits and the report.
pub const COMMAND_STEPS: u8 = 4;

/// What the worker reports while it takes these commands one by one, and where
/// it stands then. The outside answers by `worlds`, one for each command.
pub open spec fn conversation(commands: Seq<CommandView>, worlds: Seq<World>) -> (
    Seq<EventView>,
    TaskView,
    RequestView,
)
    decreases commands.len(),
{
    if commands.len() == 0 {
        (Seq::empty(), TaskView::Idle, RequestView::NextCommand)
    } else {
        let (events, task, _) = conversation(commands.drop_last(), worlds.drop_last());
        let (next, asked) = task.step(AnswerView::Command(Some(commands.last())));
        let (more, at, wants) = served(next, asked, worlds.last(), COMMAND_STEPS as nat);
        (events + more, at, wants)
    }
}

/// What the worker asks of the outside, reports aside, until it waits for the
/// next command or has ended, or for `steps` answers.
pub open spec fn asked_for(
    task: TaskView,
    request: RequestView,
    world: World,
    steps: nat,
) -> Seq<RequestView>
    decreases steps,
{
    if steps == 0 || request is NextCommand || request is Exit {
        Seq::empty()
    } else if request is Emit {
        let (next, asked) = task.step(AnswerView::Delivered(true));
        asked_for(next, asked, world, (steps - 1) as nat)
    } else {
        let (next, asked) = task.step(world(request));
        seq![request] + asked_for(next, asked, world, (steps - 1) as nat)
    }
}

/// What a command without a queue makes the worker do: exactly what the command
/// says, with the paths as they are in it, and nothing besides. The copy of an
/// edit is fetched once its stamp is known, and written back only onto a file
/// with the stamp that was read; its permission bits are set behind it.
pub proof fn commands_do_what_they_say(command: CommandView, world: World)
    requires
        !(command is RunQueue),
        sane(world),
    ensures
        ({
            let (task, request) = TaskView::Idle.step(AnswerView::Command(Some(command)));
            let asked = asked_for(task, request, world, COMMAND_STEPS as nat);
            &&& command matches CommandView::ListDir(side, path) ==> asked == if side is Remote {
                seq![RequestView::ListDir(path)]
            } else {
                Seq::empty()
            }
            &&& command matches CommandView::Remove(path, is_dir) ==> asked == seq![
                RequestView::Remove(path, is_dir),
            ]
            &&& command matches CommandView::Mkdir(path) ==> asked == seq![
                RequestView::Mkdir(path),
            ]
            &&& command matches CommandView::Rename(from, to) ==> asked == seq![
                RequestView::Rename(from, to),
            ]
            &&& command matches CommandView::Chmod(path, mode) ==> asked == seq![
                RequestView::Chmod(path, mode),
            ]
            &&& command is Cancel ==> asked.len() == 0
            &&& command matches CommandView::EditDownload { remote, local } ==> {
                let stamped = world(RequestView::FileStamp(remote));
                &&& stamped->Stamp_0 is Err ==> asked == seq![RequestView::FileStamp(remote)]
                &&& stamped->Stamp_0 is Ok ==> asked == seq![
                    RequestView::FileStamp(remote),
                    RequestView::Download { remote, local },
                ]
            }
            &&& command matches CommandView::EditUpload { local, remote, expected, mode } ==> {
                let stamped = world(RequestView::FileStamp(remote));
                let copied = world(RequestView::Upload { local, remote });
                let stamp = seq![RequestView::FileStamp(remote)];
                let copy = seq![RequestView::Upload { local, remote }];
                if stamped != AnswerView::Stamp(Ok(expected)) {
                    asked == stamp
                } else if copied->Done_0 is Ok && mode is Some {
                    asked == stamp + copy + seq![RequestView::Chmod(remote, mode->0)]
                } else {
                    asked == stamp + copy
                }
            }
        }),
{
    reveal_with_fuel(asked_for, 5);
    let (task, request) = TaskView::Idle.step(AnswerView::Command(Some(command)));
    let asked = asked_for(task, request, world, COMMAND_STEPS as nat);
    assert(answers(request, world(request)));
    if let CommandView::EditDownload { remote, local } = command {
        let stamp = RequestView::FileStamp(remote);
        let copy = RequestView::Download { remote, local };
        assert(answers(copy, world(copy)));
        if world(stamp)->Stamp_0 is Err {
            assert(asked =~= seq![stamp]);
        } else {
            assert(asked =~= seq![stamp, copy]);
        }
    } else if let CommandView::EditUpload { local, remote, expected, mode } = command {
        let stamp = RequestView::FileStamp(remote);
        let copy = RequestView::Upload { local, remote };
        assert(answers(copy, world(copy)));
        if world(stamp) != AnswerView::Stamp(Ok(expected)) {
            assert(asked =~= seq![stamp]);
        } else if world(copy)->Done_0 is Ok && mode is Some {
            let change = RequestView::Chmod(remote, mode->0);
            assert(answers(change, world(change)));
            assert(asked =~= seq![stamp] + seq![copy] + seq![change]);
        } else {
            assert(asked =~= seq![stamp] + seq![copy]);
        }
    } else if command is Cancel || (command is ListDir && command->ListDir_0 is Local) {
        assert(asked =~= Seq::empty());
    } else {
        assert(asked =~= seq![request]);
    }
}

/// The event that an operation ends in: its errors name it and its target.
pub open spec fn operation_closing(
    verb: Seq<char>,
    target: Seq<char>,
    answer: AnswerView,
) -> EventView {
    match answer {
        AnswerView::Done(Err(e)) => EventView::Error(verb + target + ": "@ + e),
        _ => EventView::OpDone,
    }
}

/// The event that closes a command without a queue. A cancel and a listing of
/// the local side have none. What an answer of the wrong kind would give does not
/// matter: a sane world holds none.
pub open spec fn closing(command: CommandView, world: World) -> Option<EventView> {
    match command {
        CommandView::Cancel | CommandView::ListDir(Side::Local, _) => None,
        CommandView::ListDir(Side::Remote, path) => Some(
            match world(RequestView::ListDir(path)) {
                AnswerView::Listing(Ok(entries)) => EventView::DirListing(
                    Side::Remote,
                    path,
                    entries,
                ),
                AnswerView::Listing(Err(e)) => EventView::Error(e),
                _ => EventView::OpDone,
            },
        ),
        CommandView::EditDownload { remote, local } => Some(
            match (
                world(RequestView::FileStamp(remote)),
                world(RequestView::Download { remote, local }),
            ) {
                (AnswerView::Stamp(Ok(stamp)), AnswerView::Done(Ok(_))) =>
                    EventView::EditDownloaded(stamp),
                (AnswerView::Stamp(Ok(_)), AnswerView::Done(Err(e))) => edit_error(
                    "edit download "@,
                    remote,
                    e,
                ),
                (AnswerView::Stamp(Err(e)), _) => edit_error("edit download "@, remote, e),
                _ => EventView::OpDone,
            },
        ),
        CommandView::EditUpload { local, remote, expected, mode } => Some(
            match (
                world(RequestView::FileStamp(remote)),
                world(RequestView::Upload { local, remote }),
            ) {
                (AnswerView::Stamp(Err(e)), _) => edit_error("edit upload "@, remote, e),
                (AnswerView::Stamp(Ok(current)), copied) => if current != expected {
                    edit_error("edit upload "@, remote, changed_message(expected, current))
                } else {
                    match (copied, mode) {
                        (AnswerView::Done(Err(e)), _) => edit_error("edit upload "@, remote, e),
                        (_, Some(bits)) => EventView::EditUploaded(
                            match world(RequestView::Chmod(remote, bits)) {
                                AnswerView::Done(Err(e)) => Some(
                                    "could not restore permissions to "@ + numeral(bits as nat, 8)
                                        + ": "@ + e,
                                ),
                                _ => None,
                            },
                        ),
                        (_, None) => EventView::EditUploaded(None),
                    }
                },
                _ => EventView::OpDone,
            },
        ),
        CommandView::Remove(path, is_dir) => Some(
            operation_closing("delete "@, path, world(RequestView::Remove(path, is_dir))),
        ),
        CommandView::Mkdir(path) => Some(
            operation_closing("mkdir "@, path, world(RequestView::Mkdir(path))),
        ),
        CommandView::Rename(from, to) => Some(
            operation_closing("rename "@, from, world(RequestView::Rename(from, to))),
        ),
        CommandView::Chmod(path, mode) => Some(
            operation_closing("chmod "@, path, world(RequestView::Chmod(path, mode))),
        ),
        CommandView::RunQueue(_) => Some(EventView::QueueDone),
    }
}

/// The closing events of the commands, in their order.
pub open spec fn closings(commands: Seq<CommandView>, worlds: Seq<World>) -> Seq<EventView>
    decreases commands.len(),
{
    if commands.len() == 0 {
        Seq::empty()
    } else {
        let before = closings(commands.drop_last(), worlds.drop_last());
        match closing(commands.last(), worlds.last()) {
            Some(event) => before.push(event),
            None => before,
        }
    }
}

proof fn lemma_command_is_closed(command: CommandView, world: World)
    requires
        !(command is RunQueue),
        sane(world),
    ensures
        ({
            let (task, request) = TaskView::Idle.step(AnswerView::Command(Some(command)));
            served(task, request, world, COMMAND_STEPS as nat) == (
                match closing(command, world) {
                    Some(event) => seq![event],
                    None => Seq::empty(),
                },
                TaskView::Idle,
                RequestView::NextCommand,
            )
        }),
{
    reveal_with_fuel(served, 5);
    let (task, request) = TaskView::Idle.step(AnswerView::Command(Some(command)));
    let got = served(task, request, world, COMMAND_STEPS as nat).0;
    assert(answers(request, world(request)));
    if let CommandView::EditDownload { remote, local } = command {
        let copy = RequestView::Download { remote, local };
        assert(answers(copy, world(copy)));
    }
    if let CommandView::EditUpload { local, remote, expected, mode } = command {
        let copy = RequestView::Upload { local, remote };
        assert(answers(copy, world(copy)));
        if let Some(bits) = mode {
            let change = RequestView::Chmod(remote, bits);
            assert(answers(change, world(change)));
        }
    }
    match closing(command, world) {
        Some(event) => {
            assert(got =~= seq![event]);
        },
        None => {
            assert(got =~= Seq::empty());
        },
    }
}

/// Of a list of commands without a queue the worker reports one closing event
/// for each, in their order, and none for a cancel or a listing of the local
/// side. Whatever fails, it goes on with the next command, and it ends when the
/// commands do.
pub proof fn every_command_is_closed_once(commands: Seq<CommandView>, worlds: Seq<World>)
    requires
        worlds.len() == commands.len(),
        forall|i: int| 0 <= i < commands.len() ==> !((#[trigger] commands[i]) is RunQueue),
        forall|i: int| 0 <= i < worlds.len() ==> sane(#[trigger] worlds[i]),
    ensures
        conversation(commands, worlds) == (
            closings(commands, worlds),
            TaskView::Idle,
            RequestView::NextCommand,
        ),
        TaskView::Idle.step(AnswerView::Command(None)) == stop(),
    decreases commands.len(),
{
    if commands.len() > 0 {
        let fewer = commands.drop_last();
        let earlier = worlds.drop_last();
        assert forall|i: int| 0 <= i < fewer.len() implies !((#[trigger] fewer[i]) is RunQueue) by {
            assert(fewer[i] == commands[i]);
        }
        assert forall|i: int| 0 <= i < earlier.len() implies sane(#[trigger] earlier[i]) by {
            assert(earlier[i] == worlds[i]);
        }
        every_command_is_closed_once(fewer, earlier);
        assert(!(commands[commands.len() - 1] is RunQueue));
        assert(sane(worlds[worlds.len() - 1]));
        lemma_command_is_closed(commands.last(), worlds.last());
        let before = closings(fewer, earlier);
        match closing(commands.last(), worlds.last()) {
            Some(event) => {
                assert(before + seq![event] =~= before.push(event));
            },
            None => {
                assert(before + Seq::<EventView>::empty() =~= before);
            },
        }
    }
}

/// Every command is answered but a cancel and a listing of the local side.
pub proof fn only_two_commands_go_unanswered(command: CommandView, world: World)
    ensures
        closing(command, world) is None <==> command is Cancel || (command is ListDir
            && command->ListDir_0 is Local),
{
}

/// While a command without a queue is served, progress changes nothing of what
/// the worker is about to do, as long as it is delivered.
pub proof fn progress_is_aside(task: TaskView, transferred: u64, size: u64)
    requires
        !(task is Queue),
    ensures
        task.progress(transferred, size).0 == task,
        task.progress(transferred, size).1 matches Some(event) ==> event is Progress,
        task.delivered(true) == task,
{
}

} // verus!
