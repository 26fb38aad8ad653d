//! What the words of an `sftp` command line come to.

use vstd::prelude::*;

use crate::cli::parse::{lemma_first_position, position_of, positional_args, without_flag};
use crate::cli::sftp::{octal, request_of, NextView, RequestView};
use crate::path_laws::{is_plain_name, names_are_found_again};
use crate::paths::joined;
use crate::sftp::model::{CommandView, EventView, Side};
use crate::text::{begins_with, is_digit, numeral, numerals_are_read_back};

verus! {

/// The arguments behind the subcommand that are not flags, in their order.
pub open spec fn words(args: Seq<Seq<char>>) -> Seq<Seq<char>> {
    args.skip(1).filter(|arg: Seq<char>| !begins_with(arg, "--"@))
}

/// Whether a flag stands behind the subcommand.
pub open spec fn has_flag(args: Seq<Seq<char>>, flag: Seq<char>) -> bool {
    exists|i: int| 1 <= i < args.len() && #[trigger] args[i] == flag
}

proof fn lemma_words(args: Seq<Seq<char>>)
    ensures
        positional_args(args) == args.filter(|arg: Seq<char>| !begins_with(arg, "--"@)),
    decreases args.len(),
{
    reveal(Seq::filter);
    if args.len() > 0 {
        lemma_words(args.drop_last());
    } else {
        assert(args =~= Seq::empty());
    }
}

/// A flag is no word, so taking it out takes no word away.
proof fn lemma_flag_is_no_word(args: Seq<Seq<char>>, flag: Seq<char>)
    requires
        begins_with(flag, "--"@),
    ensures
        positional_args(without_flag(args, flag)) == positional_args(args),
    decreases args.len(),
{
    if args.len() > 0 {
        let rest = args.drop_last();
        lemma_flag_is_no_word(rest, flag);
        let before = without_flag(rest, flag);
        assert(before.push(args.last()).drop_last() =~= before);
    }
}

proof fn lemma_flag(args: Seq<Seq<char>>, flag: Seq<char>)
    requires
        args.len() > 0,
    ensures
        args.skip(1).contains(flag) <==> has_flag(args, flag),
{
    let rest = args.skip(1);
    if rest.contains(flag) {
        let i = choose|i: int| 0 <= i < rest.len() && rest[i] == flag;
        assert(args[i + 1] == flag);
    }
    if has_flag(args, flag) {
        let i = choose|i: int| 1 <= i < args.len() && #[trigger] args[i] == flag;
        assert(rest[i - 1] == flag);
    }
}

proof fn lemma_kept(args: Seq<Seq<char>>, flag: Seq<char>, arg: Seq<char>)
    requires
        arg != flag,
    ensures
        without_flag(args, flag).contains(arg) <==> args.contains(arg),
    decreases args.len(),
{
    if args.len() > 0 {
        let rest = args.drop_last();
        let before = without_flag(rest, flag);
        lemma_kept(rest, flag, arg);
        if args.contains(arg) && args.last() != arg {
            let i = choose|i: int| 0 <= i < args.len() && args[i] == arg;
            assert(rest[i] == arg);
        }
        if rest.contains(arg) {
            let i = choose|i: int| 0 <= i < rest.len() && rest[i] == arg;
            assert(args[i] == arg);
        }
        if args.last() == arg {
            assert(args[args.len() - 1] == arg);
            assert(before.push(arg)[before.len() as int] == arg);
        }
        if before.contains(arg) {
            let i = choose|i: int| 0 <= i < before.len() && before[i] == arg;
            assert(before.push(args.last())[i] == arg);
        }
        let now = without_flag(args, flag);
        if now.contains(arg) {
            let i = choose|i: int| 0 <= i < now.len() && now[i] == arg;
            if i < before.len() {
                assert(before[i] == arg);
            }
        }
    }
}

proof fn lemma_names()
    ensures
        forall|other: Seq<char>|
            #![trigger begins_with(other, "--"@)]
            other == "--recursive"@ || other == "--yes"@ || other == "--format"@ ==> begins_with(
                other,
                "--"@,
            ),
        "--recursive"@ != "--yes"@,
        "ls"@.len() == 2,
        "rm"@.len() == 2,
        "ls"@ != "rm"@,
        "get"@.len() == 3,
        "put"@.len() == 3,
        "get"@ != "put"@,
        "mkdir"@.len() == 5,
        "chmod"@.len() == 5,
        "mkdir"@ != "chmod"@,
        "rename"@.len() == 6,
{
    reveal_strlit("--");
    reveal_strlit("--recursive");
    reveal_strlit("--yes");
    reveal_strlit("--format");
    reveal_strlit("ls");
    reveal_strlit("rm");
    reveal_strlit("get");
    reveal_strlit("put");
    reveal_strlit("mkdir");
    reveal_strlit("chmod");
    reveal_strlit("rename");
    assert("--recursive"@.take(2) =~= "--"@);
    assert("--yes"@.take(2) =~= "--"@);
    assert("--format"@.take(2) =~= "--"@);
    assert("ls"@[0] != "rm"@[0]);
    assert("get"@[0] != "put"@[0]);
    assert("mkdir"@[0] != "chmod"@[0]);
}

/// A `put` or a `get` names a host, a source and perhaps a destination. It is
/// understood exactly if the first two are there; the host and the source are
/// taken as they are written; and a destination that is given is the
/// destination, character for character. Flags may stand anywhere between.
pub proof fn a_given_destination_is_kept(args: Seq<Seq<char>>, local_is_dir: bool)
    requires
        args.len() > 0,
        args[0] == "put"@ || args[0] == "get"@,
    ensures
        request_of(args) is Ok <==> words(args).len() >= 2,
        request_of(args) is Err ==> request_of(args)->Err_0 is Usage,
        request_of(args) matches Ok(request) ==> {
            &&& request.host() == words(args)[0]
            &&& request.dispatched(local_is_dir).0 matches CommandView::RunQueue(queue)
            &&& queue.len() == 1
            &&& queue[0].src == words(args)[1]
            &&& words(args).len() >= 3 ==> queue[0].dst == words(args)[2]
            &&& queue[0].direction is Upload <==> args[0] == "put"@
            &&& queue[0].direction is Download <==> args[0] == "get"@
            &&& queue[0].is_dir <==> has_flag(args, "--recursive"@) || (args[0] == "put"@
                && local_is_dir)
        },
{
    let rest = args.skip(1);
    lemma_names();
    assert(begins_with("--recursive"@, "--"@));
    lemma_flag_is_no_word(rest, "--recursive"@);
    lemma_words(rest);
    lemma_flag(args, "--recursive"@);
}

/// Without a destination a transfer keeps the name of its source: an upload goes
/// to that name on the server, a download to that name in the current directory.
pub proof fn a_destination_left_out_is_the_name(
    args: Seq<Seq<char>>,
    dir: Seq<char>,
    name: Seq<char>,
    local_is_dir: bool,
)
    requires
        args.len() > 0,
        args[0] == "put"@ || args[0] == "get"@,
        words(args).len() == 2,
        words(args)[1] == joined(dir, name),
        is_plain_name(name),
    ensures
        request_of(args) matches Ok(request) && {
            &&& request.dispatched(local_is_dir).0 matches CommandView::RunQueue(queue)
            &&& queue.len() == 1
            &&& queue[0].name == name
            &&& queue[0].dst == if args[0] == "put"@ {
                name
            } else {
                seq!['.', '/'] + name
            }
        },
{
    let rest = args.skip(1);
    lemma_names();
    assert(begins_with("--recursive"@, "--"@));
    lemma_flag_is_no_word(rest, "--recursive"@);
    lemma_words(rest);
    names_are_found_again(dir, name);
    reveal_strlit(".");
    reveal_strlit("/");
    assert(name.contains(name[0]));
    assert("."@ + "/"@ + name =~= seq!['.', '/'] + name);
}

/// The other subcommands hand their words on as they are written, each at its
/// place: the host first, then the path, the old path before the new one and
/// the mode before the path. They are understood exactly if the words are there,
/// a mode is octal and a deletion is confirmed.
pub proof fn paths_are_taken_as_written(args: Seq<Seq<char>>, local_is_dir: bool)
    requires
        args.len() > 0,
        args[0] == "rm"@ || args[0] == "mkdir"@ || args[0] == "rename"@ || args[0] == "chmod"@,
    ensures
        args[0] == "rm"@ ==> {
            &&& request_of(args) is Ok <==> words(args).len() >= 2 && has_flag(args, "--yes"@)
            &&& request_of(args) matches Ok(request) ==> request.dispatched(local_is_dir).0
                == CommandView::Remove(words(args)[1], has_flag(args, "--recursive"@))
        },
        args[0] == "mkdir"@ ==> {
            &&& request_of(args) is Ok <==> words(args).len() >= 2
            &&& request_of(args) matches Ok(request) ==> request.dispatched(local_is_dir).0
                == CommandView::Mkdir(words(args)[1])
        },
        args[0] == "rename"@ ==> {
            &&& request_of(args) is Ok <==> words(args).len() >= 3
            &&& request_of(args) matches Ok(request) ==> request.dispatched(local_is_dir).0
                == CommandView::Rename(words(args)[1], words(args)[2])
        },
        args[0] == "chmod"@ ==> {
            &&& request_of(args) is Ok ==> words(args).len() >= 3
            &&& request_of(args) matches Ok(request) ==> {
                &&& request.dispatched(local_is_dir).0 matches CommandView::Chmod(path, mode)
                &&& path == words(args)[2]
                &&& octal(words(args)[1]) == Some(mode)
            }
            &&& words(args).len() >= 3 && octal(words(args)[1]) is Some
                ==> request_of(args) is Ok
        },
        request_of(args) matches Ok(request) ==> request.host() == words(args)[0],
{
    let rest = args.skip(1);
    lemma_names();
    assert(begins_with("--recursive"@, "--"@));
    assert(begins_with("--yes"@, "--"@));
    lemma_flag_is_no_word(rest, "--recursive"@);
    lemma_flag_is_no_word(without_flag(rest, "--recursive"@), "--yes"@);
    lemma_words(rest);
    lemma_flag(args, "--recursive"@);
    lemma_flag(args, "--yes"@);
    lemma_kept(rest, "--recursive"@, "--yes"@);
}

proof fn lemma_no_position(args: Seq<Seq<char>>, name: Seq<char>)
    requires
        !args.contains(name),
    ensures
        position_of(args, name) is None,
    decreases args.len(),
{
    if args.len() > 0 {
        let rest = args.drop_last();
        assert(args.last() == args[args.len() - 1]);
        assert forall|i: int| 0 <= i < rest.len() implies rest[i] != name by {
            assert(rest[i] == args[i]);
        }
        lemma_no_position(rest, name);
    }
}

/// A listing that says nothing of its format is a plain one, of the directory
/// that is named behind the host, or of the one that the server starts in.
pub proof fn listings_are_plain_unless_asked(args: Seq<Seq<char>>, local_is_dir: bool)
    requires
        args.len() > 0,
        args[0] == "ls"@,
        !has_flag(args, "--format"@),
    ensures
        request_of(args) is Ok <==> words(args).len() >= 1,
        request_of(args) matches Ok(request) ==> {
            &&& request matches RequestView::List { host, path, format }
            &&& host == words(args)[0]
            &&& path == if words(args).len() >= 2 {
                words(args)[1]
            } else {
                seq!['.']
            }
            &&& format is Plain
            &&& request.dispatched(local_is_dir).0 == CommandView::ListDir(Side::Remote, path)
        },
{
    let rest = args.skip(1);
    lemma_names();
    lemma_words(rest);
    lemma_flag(args, "--format"@);
    lemma_no_position(rest, "--format"@);
    reveal_strlit(".");
    assert("."@ =~= seq!['.']);
}

/// A listing is printed in the format that is named behind `--format`, of which
/// there are two; that name is no word, and what stands around it is read as if
/// the option were not there.
pub proof fn listings_are_printed_as_asked(
    before: Seq<Seq<char>>,
    format: Seq<char>,
    after: Seq<Seq<char>>,
)
    requires
        !before.contains("--format"@),
    ensures
        ({
            let args = seq!["ls"@] + before + seq!["--format"@, format] + after;
            let bare = seq!["ls"@] + before + after;
            &&& request_of(args) is Ok <==> (format == "plain"@ || format == "json"@)
                && words(bare).len() >= 1
            &&& request_of(args) matches Ok(request) ==> {
                &&& request matches RequestView::List { host, path, format: printed }
                &&& host == words(bare)[0]
                &&& words(bare).len() >= 2 ==> path == words(bare)[1]
                &&& printed is Json <==> format == "json"@
                &&& printed is Plain <==> format == "plain"@
            }
        }),
{
    let args = seq!["ls"@] + before + seq!["--format"@, format] + after;
    let bare = seq!["ls"@] + before + after;
    let rest = args.skip(1);
    let i = before.len() as int;
    lemma_names();
    reveal_strlit("plain");
    reveal_strlit("json");
    assert("plain"@.len() != "json"@.len());
    assert(rest =~= before + seq!["--format"@, format] + after);
    assert(rest.take(i) =~= before);
    lemma_no_position(before, "--format"@);
    lemma_first_position(rest, "--format"@, i);
    assert(rest.take(i) + rest.skip(i + 2) =~= before + after);
    assert(bare.skip(1) =~= before + after);
    lemma_words(before + after);
}

/// A mode that is written in octal digits is the mode that they stand for.
pub proof fn modes_are_read_in_octal(mode: u32)
    ensures
        octal(numeral(mode as nat, 8)) == Some(mode),
{
    numerals_are_read_back(mode as nat, 8);
    assert(is_digit(numeral(mode as nat, 8)[0]));
}

/// What a subcommand waits for is what its command is answered by: a listing is
/// printed as it came, a queue ends with its own end, an operation with its
/// own, and an error ends all but a queue, which goes on.
pub proof fn subcommands_end_with_their_answer(
    request: RequestView,
    local_is_dir: bool,
    event: EventView,
)
    ensures
        ({
            let (command, waiting) = request.dispatched(local_is_dir);
            let next = waiting.after(Some(event));
            &&& event matches EventView::DirListing(_, _, entries) ==> {
                if command is ListDir && request is List {
                    next == NextView::Print(entries)
                } else {
                    next == NextView::Wait(waiting)
                }
            }
            &&& event is QueueDone ==> {
                if request is Get || request is Put {
                    next matches NextView::Exit(code, message) && code == 0 && message is None
                } else {
                    next == NextView::Wait(waiting)
                }
            }
            &&& event is OpDone ==> {
                if request is Op {
                    next matches NextView::Exit(code, message) && code == 0 && message is None
                } else {
                    next == NextView::Wait(waiting)
                }
            }
            &&& event matches EventView::Error(message) ==> {
                if request is Get || request is Put {
                    next matches NextView::Complain(told, _) && told == message
                } else {
                    next matches NextView::Exit(code, told) && code != 0 && told == Some(message)
                }
            }
            &&& !(event is DirListing || event is QueueDone || event is OpDone || event is Error)
                ==> next == NextView::Wait(waiting)
            &&& waiting.after(None) matches NextView::Exit(code, told) && code != 0 && told is Some
        }),
{
}

/// A command line that is not understood ends the program in one way and one
/// that is refused in another, and neither as if it had been done.
pub proof fn refusals_are_told_from_mistakes(args: Seq<Seq<char>>)
    ensures
        request_of(args) matches Err(error) ==> {
            &&& error is Refused <==> error.code() == 1
            &&& error is Usage || error is Unknown <==> error.code() == 2
        },
        args.len() == 0 ==> (request_of(args) matches Err(error) && error is Usage),
        args.len() > 0 && args[0].len() == 0 ==> (request_of(args) matches Err(error)
            && error is Unknown),
        args.len() > 0 && args[0] == "rm"@ && words(args).len() >= 2 && !has_flag(args, "--yes"@)
            ==> (request_of(args) matches Err(error) && error is Refused),
{
    lemma_names();
    if args.len() > 0 {
        let rest = args.skip(1);
        assert(begins_with("--recursive"@, "--"@));
        assert(begins_with("--yes"@, "--"@));
        lemma_flag_is_no_word(rest, "--recursive"@);
        lemma_flag_is_no_word(without_flag(rest, "--recursive"@), "--yes"@);
        lemma_words(rest);
        lemma_flag(args, "--yes"@);
        lemma_kept(rest, "--recursive"@, "--yes"@);
    }
}

} // verus!
