//! `sshub sftp …`: one-shot SFTP operations over a direct host. A subcommand is
//! one command for a worker, and what its events come to.

use vstd::prelude::*;

use crate::app::sftp_prompt::unsigned;
use crate::cli::parse::{
    format_of, parse_format, positional, positional_args, take_flag, take_opt, without_flag,
    without_option, OutputFormat,
};
use crate::hosts::SshHost;
use crate::paths::{base_name, file_name, join, joined};
use crate::sftp::model::{
    CommandView, Direction, EventView, FileEntry, FileEntryView, QueuedTransfer, SftpCommand,
    SftpEvent, Side, TransferView,
};
use crate::text::{
    all_digits_in, cat2, cat3, chars_of, opt_view, parse_in, same, text_of, value_in, views,
};

verus! {

broadcast use crate::text::group_views;

/// What is wrong with a command line, and how the program ends for it.
#[derive(Debug, PartialEq, Eq)]
pub enum CliError {
    /// The arguments are not understood.
    Usage(String),
    /// There is no such subcommand.
    Unknown(String),
    /// The operation is refused.
    Refused(String),
}

#[verifier::ext_equal]
pub enum CliErrorView {
    Usage(Seq<char>),
    Unknown(Seq<char>),
    Refused(Seq<char>),
}

impl View for CliError {
    type V = CliErrorView;

    open spec fn view(&self) -> CliErrorView {
        match self {
            CliError::Usage(message) => CliErrorView::Usage(message@),
            CliError::Unknown(message) => CliErrorView::Unknown(message@),
            CliError::Refused(message) => CliErrorView::Refused(message@),
        }
    }
}

impl CliErrorView {
    pub open spec fn code(self) -> int {
        if self is Refused {
            1
        } else {
            2
        }
    }
}

impl CliError {
    /// The exit code of the program.
    pub fn exit_code(&self) -> (r: i32)
        ensures
            r == self@.code(),
    {
        match self {
            CliError::Refused(_) => 1,
            _ => 2,
        }
    }
}

/// What a command line asks for.
#[derive(Debug, PartialEq, Eq)]
pub enum Request {
    List { host: String, path: String, format: OutputFormat },
    Get { host: String, item: QueuedTransfer },
    /// Whether the local path is a directory is still to be seen.
    Put { host: String, local: String, remote: String, name: String, recursive: bool },
    Op { host: String, command: SftpCommand },
}

#[verifier::ext_equal]
pub enum RequestView {
    List { host: Seq<char>, path: Seq<char>, format: OutputFormat },
    Get { host: Seq<char>, item: TransferView },
    Put {
        host: Seq<char>,
        local: Seq<char>,
        remote: Seq<char>,
        name: Seq<char>,
        recursive: bool,
    },
    Op { host: Seq<char>, command: CommandView },
}

impl View for Request {
    type V = RequestView;

    open spec fn view(&self) -> RequestView {
        match self {
            Request::List { host, path, format } => RequestView::List {
                host: host@,
                path: path@,
                format: *format,
            },
            Request::Get { host, item } => RequestView::Get { host: host@, item: item@ },
            Request::Put { host, local, remote, name, recursive } => RequestView::Put {
                host: host@,
                local: local@,
                remote: remote@,
                name: name@,
                recursive: *recursive,
            },
            Request::Op { host, command } => RequestView::Op { host: host@, command: command@ },
        }
    }
}

/// What a command line comes to.
pub type Parsed = Result<RequestView, CliErrorView>;

pub open spec fn usage(message: Seq<char>) -> Parsed {
    Err(CliErrorView::Usage(message))
}

/// The name that a path is transferred under.
pub open spec fn transfer_name(path: Seq<char>) -> Seq<char> {
    match base_name(path) {
        Some(name) => name,
        None => "."@,
    }
}

/// `ls <host> [remote-path] [--format plain|json]`
pub open spec fn ls_request(args: Seq<Seq<char>>) -> Parsed {
    match format_of(args) {
        Err(message) => usage(message),
        Ok(format) => {
            let pos = positional_args(without_option(args, "--format"@));
            if pos.len() == 0 {
                usage("sftp ls needs a <host>"@)
            } else {
                Ok(
                    RequestView::List {
                        host: pos[0],
                        path: if pos.len() > 1 {
                            pos[1]
                        } else {
                            "."@
                        },
                        format,
                    },
                )
            }
        },
    }
}

/// `get <host> <remote-path> [local-path] [--recursive]`
pub open spec fn get_request(args: Seq<Seq<char>>) -> Parsed {
    let pos = positional_args(without_flag(args, "--recursive"@));
    if pos.len() == 0 {
        usage("sftp get needs a <host> and <remote-path>"@)
    } else if pos.len() == 1 {
        usage("sftp get needs a <remote-path>"@)
    } else {
        let name = transfer_name(pos[1]);
        Ok(
            RequestView::Get {
                host: pos[0],
                item: TransferView {
                    direction: Direction::Download,
                    src: pos[1],
                    dst: if pos.len() > 2 {
                        pos[2]
                    } else {
                        joined("."@, name)
                    },
                    name,
                    is_dir: args.contains("--recursive"@),
                },
            },
        )
    }
}

/// `put <host> <local-path> [remote-path] [--recursive]`
pub open spec fn put_request(args: Seq<Seq<char>>) -> Parsed {
    let pos = positional_args(without_flag(args, "--recursive"@));
    if pos.len() == 0 {
        usage("sftp put needs a <host> and <local-path>"@)
    } else if pos.len() == 1 {
        usage("sftp put needs a <local-path>"@)
    } else {
        let name = transfer_name(pos[1]);
        Ok(
            RequestView::Put {
                host: pos[0],
                local: pos[1],
                remote: if pos.len() > 2 {
                    pos[2]
                } else {
                    name
                },
                name,
                recursive: args.contains("--recursive"@),
            },
        )
    }
}

/// `rm <host> <remote-path> [--recursive] --yes`
pub open spec fn rm_request(args: Seq<Seq<char>>) -> Parsed {
    let rest = without_flag(args, "--recursive"@);
    let pos = positional_args(without_flag(rest, "--yes"@));
    if pos.len() == 0 {
        usage("sftp rm needs a <host> and <remote-path>"@)
    } else if pos.len() == 1 {
        usage("sftp rm needs a <remote-path>"@)
    } else if !rest.contains("--yes"@) {
        Err(CliErrorView::Refused("sftp rm is destructive; pass --yes to confirm"@))
    } else {
        Ok(
            RequestView::Op {
                host: pos[0],
                command: CommandView::Remove(pos[1], args.contains("--recursive"@)),
            },
        )
    }
}

/// `mkdir <host> <remote-path>`
pub open spec fn mkdir_request(args: Seq<Seq<char>>) -> Parsed {
    let pos = positional_args(args);
    if pos.len() == 0 {
        usage("sftp mkdir needs a <host> and <remote-path>"@)
    } else if pos.len() == 1 {
        usage("sftp mkdir needs a <remote-path>"@)
    } else {
        Ok(RequestView::Op { host: pos[0], command: CommandView::Mkdir(pos[1]) })
    }
}

/// `rename <host> <from> <to>`
pub open spec fn rename_request(args: Seq<Seq<char>>) -> Parsed {
    let pos = positional_args(args);
    if pos.len() == 0 {
        usage("sftp rename needs a <host>, <from> and <to>"@)
    } else if pos.len() == 1 {
        usage("sftp rename needs a <from> path"@)
    } else if pos.len() == 2 {
        usage("sftp rename needs a <to> path"@)
    } else {
        Ok(RequestView::Op { host: pos[0], command: CommandView::Rename(pos[1], pos[2]) })
    }
}

/// The permission bits that an octal text stands for, if it does.
pub open spec fn octal(text: Seq<char>) -> Option<u32> {
    let digits = unsigned(text);
    if all_digits_in(digits, 8) && value_in(digits, 8) <= u32::MAX {
        Some(value_in(digits, 8) as u32)
    } else {
        None
    }
}

/// `chmod <host> <mode> <remote-path>`
pub open spec fn chmod_request(args: Seq<Seq<char>>) -> Parsed {
    let pos = positional_args(args);
    if pos.len() == 0 {
        usage("sftp chmod needs a <host>, <mode> and <remote-path>"@)
    } else if pos.len() == 1 {
        usage("sftp chmod needs an octal <mode>"@)
    } else if pos.len() == 2 {
        usage("sftp chmod needs a <remote-path>"@)
    } else {
        match octal(pos[1]) {
            Some(mode) => Ok(
                RequestView::Op { host: pos[0], command: CommandView::Chmod(pos[2], mode) },
            ),
            None => usage("invalid octal mode '"@ + pos[1] + "'"@),
        }
    }
}

/// What the arguments behind `sftp` come to.
pub open spec fn request_of(args: Seq<Seq<char>>) -> Parsed {
    if args.len() == 0 {
        usage("sftp needs a subcommand (ls|get|put|rm|mkdir|rename|chmod)"@)
    } else {
        let rest = args.skip(1);
        let name = args[0];
        if name == "ls"@ {
            ls_request(rest)
        } else if name == "get"@ {
            get_request(rest)
        } else if name == "put"@ {
            put_request(rest)
        } else if name == "rm"@ {
            rm_request(rest)
        } else if name == "mkdir"@ {
            mkdir_request(rest)
        } else if name == "rename"@ {
            rename_request(rest)
        } else if name == "chmod"@ {
            chmod_request(rest)
        } else {
            Err(
                CliErrorView::Unknown(
                    "unknown sftp subcommand '"@ + name
                        + "' (try: ls, get, put, rm, mkdir, rename, chmod)"@,
                ),
            )
        }
    }
}

/// Nothing is deleted unless the command line says `--yes`.
pub proof fn deletion_needs_confirmation(args: Seq<Seq<char>>)
    requires
        request_of(args) matches Ok(RequestView::Op { command, .. }) && command is Remove,
    ensures
        args.contains("--yes"@),
{
    let rest = args.skip(1);
    let kept = without_flag(rest, "--recursive"@);
    if kept.contains("--yes"@) {
        lemma_kept(rest, "--recursive"@, "--yes"@);
        let i = choose|i: int| 0 <= i < rest.len() && rest[i] == "--yes"@;
        assert(args[i + 1] == "--yes"@);
    }
}

proof fn lemma_kept(args: Seq<Seq<char>>, flag: Seq<char>, arg: Seq<char>)
    requires
        without_flag(args, flag).contains(arg),
    ensures
        args.contains(arg),
    decreases args.len(),
{
    if args.len() > 0 {
        let before = without_flag(args.drop_last(), flag);
        if args.last() == arg {
            assert(args[args.len() - 1] == arg);
        } else {
            let all = without_flag(args, flag);
            let i = choose|i: int| 0 <= i < all.len() && all[i] == arg;
            assert(before[i] == arg);
            lemma_kept(args.drop_last(), flag, arg);
            let k = choose|k: int| 0 <= k < args.len() - 1 && args.drop_last()[k] == arg;
            assert(args[k] == arg);
        }
    }
}

fn bad_usage(message: &str) -> (r: Result<Request, CliError>)
    ensures
        r is Err,
        r->Err_0@ == CliErrorView::Usage(message@),
{
    Err(CliError::Usage(message.to_owned()))
}

/// Whether a parse gave what it should.
pub open spec fn gives(r: Result<Request, CliError>, parsed: Parsed) -> bool {
    match r {
        Ok(request) => parsed == Ok::<RequestView, CliErrorView>(request@),
        Err(e) => parsed == Err::<RequestView, CliErrorView>(e@),
    }
}

fn name_of(path: &str) -> (r: String)
    ensures
        r@ == transfer_name(path@),
{
    match file_name(path) {
        Some(name) => name,
        None => ".".to_owned(),
    }
}

fn parse_octal(text: &str) -> (r: Option<u32>)
    ensures
        r == octal(text@),
{
    let chars = chars_of(text);
    let from: usize = if chars.len() > 0 && chars[0] == '+' {
        1
    } else {
        0
    };
    let digits = text_of(&chars, from, chars.len());
    assert(digits@ =~= unsigned(text@));
    match parse_in(digits.as_str(), 8, 0xffff_ffff) {
        Some(mode) => Some(mode as u32),
        None => None,
    }
}

fn parse_ls(args: Vec<String>) -> (r: Result<Request, CliError>)
    ensures
        gives(r, ls_request(views(args@))),
{
    let format = match parse_format(&args) {
        Ok(format) => format,
        Err(message) => {
            return Err(CliError::Usage(message));
        },
    };
    let mut rest = args;
    let _ = take_opt(&mut rest, "--format");
    let pos = positional(&rest);
    if pos.len() == 0 {
        return bad_usage("sftp ls needs a <host>");
    }
    let path = if pos.len() > 1 {
        pos[1].clone()
    } else {
        ".".to_owned()
    };
    Ok(Request::List { host: pos[0].clone(), path, format })
}

fn parse_get(args: Vec<String>) -> (r: Result<Request, CliError>)
    ensures
        gives(r, get_request(views(args@))),
{
    let mut rest = args;
    let recursive = take_flag(&mut rest, "--recursive");
    let pos = positional(&rest);
    if pos.len() == 0 {
        return bad_usage("sftp get needs a <host> and <remote-path>");
    }
    if pos.len() == 1 {
        return bad_usage("sftp get needs a <remote-path>");
    }
    let name = name_of(pos[1].as_str());
    let dst = if pos.len() > 2 {
        pos[2].clone()
    } else {
        join(".", name.as_str())
    };
    Ok(
        Request::Get {
            host: pos[0].clone(),
            item: QueuedTransfer {
                direction: Direction::Download,
                src: pos[1].clone(),
                dst,
                name,
                is_dir: recursive,
            },
        },
    )
}

fn parse_put(args: Vec<String>) -> (r: Result<Request, CliError>)
    ensures
        gives(r, put_request(views(args@))),
{
    let mut rest = args;
    let recursive = take_flag(&mut rest, "--recursive");
    let pos = positional(&rest);
    if pos.len() == 0 {
        return bad_usage("sftp put needs a <host> and <local-path>");
    }
    if pos.len() == 1 {
        return bad_usage("sftp put needs a <local-path>");
    }
    let name = name_of(pos[1].as_str());
    let remote = if pos.len() > 2 {
        pos[2].clone()
    } else {
        name.clone()
    };
    Ok(Request::Put { host: pos[0].clone(), local: pos[1].clone(), remote, name, recursive })
}

fn parse_rm(args: Vec<String>) -> (r: Result<Request, CliError>)
    ensures
        gives(r, rm_request(views(args@))),
{
    let mut rest = args;
    let recursive = take_flag(&mut rest, "--recursive");
    let yes = take_flag(&mut rest, "--yes");
    let pos = positional(&rest);
    if pos.len() == 0 {
        return bad_usage("sftp rm needs a <host> and <remote-path>");
    }
    if pos.len() == 1 {
        return bad_usage("sftp rm needs a <remote-path>");
    }
    if !yes {
        return Err(
            CliError::Refused("sftp rm is destructive; pass --yes to confirm".to_owned()),
        );
    }
    Ok(
        Request::Op {
            host: pos[0].clone(),
            command: SftpCommand::Remove(pos[1].clone(), recursive),
        },
    )
}

fn parse_mkdir(args: Vec<String>) -> (r: Result<Request, CliError>)
    ensures
        gives(r, mkdir_request(views(args@))),
{
    let pos = positional(&args);
    if pos.len() == 0 {
        return bad_usage("sftp mkdir needs a <host> and <remote-path>");
    }
    if pos.len() == 1 {
        return bad_usage("sftp mkdir needs a <remote-path>");
    }
    Ok(Request::Op { host: pos[0].clone(), command: SftpCommand::Mkdir(pos[1].clone()) })
}

fn parse_rename(args: Vec<String>) -> (r: Result<Request, CliError>)
    ensures
        gives(r, rename_request(views(args@))),
{
    let pos = positional(&args);
    if pos.len() == 0 {
        return bad_usage("sftp rename needs a <host>, <from> and <to>");
    }
    if pos.len() == 1 {
        return bad_usage("sftp rename needs a <from> path");
    }
    if pos.len() == 2 {
        return bad_usage("sftp rename needs a <to> path");
    }
    Ok(
        Request::Op {
            host: pos[0].clone(),
            command: SftpCommand::Rename(pos[1].clone(), pos[2].clone()),
        },
    )
}

fn parse_chmod(args: Vec<String>) -> (r: Result<Request, CliError>)
    ensures
        gives(r, chmod_request(views(args@))),
{
    let pos = positional(&args);
    if pos.len() == 0 {
        return bad_usage("sftp chmod needs a <host>, <mode> and <remote-path>");
    }
    if pos.len() == 1 {
        return bad_usage("sftp chmod needs an octal <mode>");
    }
    if pos.len() == 2 {
        return bad_usage("sftp chmod needs a <remote-path>");
    }
    match parse_octal(pos[1].as_str()) {
        Some(mode) => Ok(
            Request::Op {
                host: pos[0].clone(),
                command: SftpCommand::Chmod(pos[2].clone(), mode),
            },
        ),
        None => Err(CliError::Usage(cat3("invalid octal mode '", pos[1].as_str(), "'"))),
    }
}

/// Read the arguments behind `sftp`.
pub fn parse_request(args: Vec<String>) -> (r: Result<Request, CliError>)
    ensures
        gives(r, request_of(views(args@))),
{
    if args.len() == 0 {
        return bad_usage("sftp needs a subcommand (ls|get|put|rm|mkdir|rename|chmod)");
    }
    let mut rest = args;
    let name = rest.remove(0);
    assert(views(rest@) =~= views(args@).skip(1));
    let name = name.as_str();
    if same(name, "ls") {
        parse_ls(rest)
    } else if same(name, "get") {
        parse_get(rest)
    } else if same(name, "put") {
        parse_put(rest)
    } else if same(name, "rm") {
        parse_rm(rest)
    } else if same(name, "mkdir") {
        parse_mkdir(rest)
    } else if same(name, "rename") {
        parse_rename(rest)
    } else if same(name, "chmod") {
        parse_chmod(rest)
    } else {
        Err(
            CliError::Unknown(
                cat3(
                    "unknown sftp subcommand '",
                    name,
                    "' (try: ls, get, put, rm, mkdir, rename, chmod)",
                ),
            ),
        )
    }
}

/// The transfer of a `put`: a local directory always goes with all in it.
pub fn put_item(
    local: String,
    remote: String,
    name: String,
    recursive: bool,
    local_is_dir: bool,
) -> (r: QueuedTransfer)
    ensures
        r@ == (TransferView {
            direction: Direction::Upload,
            src: local@,
            dst: remote@,
            name: name@,
            is_dir: local_is_dir || recursive,
        }),
{
    QueuedTransfer {
        direction: Direction::Upload,
        src: local,
        dst: remote,
        name,
        is_dir: local_is_dir || recursive,
    }
}

/// Whether a host can be connected to: a jump host is refused up front.
pub fn reject_jump(host: &SshHost) -> (r: Result<(), String>)
    ensures
        host.proxy_jump is None ==> r is Ok,
        host.proxy_jump is Some ==> r is Err && r->Err_0@
            == "SFTP via ProxyJump is not supported; pick a direct host"@,
{
    if host.proxy_jump.is_some() {
        Err("SFTP via ProxyJump is not supported; pick a direct host".to_owned())
    } else {
        Ok(())
    }
}

/// What the first event of a worker says of the connection.
#[derive(Debug, PartialEq, Eq)]
pub enum Connection {
    Live,
    Failed(String),
    /// Anything else, or nothing at all.
    Unexpected,
}

pub fn judge_connection(event: &Option<SftpEvent>) -> (r: Connection)
    ensures
        match opt_view(*event) {
            Some(EventView::Connected) => r is Live,
            Some(EventView::ConnectFailed(e)) => r matches Connection::Failed(message)
                && message@ == "connect failed: "@ + e,
            _ => r is Unexpected,
        },
{
    match event {
        Some(SftpEvent::Connected) => Connection::Live,
        Some(SftpEvent::ConnectFailed(e)) => Connection::Failed(
            cat2("connect failed: ", e.as_str()),
        ),
        _ => Connection::Unexpected,
    }
}

/// What a subcommand waits for.
#[derive(Debug, Clone, Copy, PartialEq, Eq, Structural)]
pub enum Waiting {
    Listing,
    /// The end of the queue; whether an error was reported so far.
    Queue { failed: bool },
    Op,
}

/// What to do next.
#[derive(Debug, PartialEq, Eq)]
pub enum Next {
    Wait(Waiting),
    /// Print an error and wait on.
    Complain(String, Waiting),
    /// Print the listing and end well.
    Print(Vec<FileEntry>),
    /// End with this exit code, printing an error if there is one.
    Exit(i32, Option<String>),
}

#[verifier::ext_equal]
pub enum NextView {
    Wait(Waiting),
    Complain(Seq<char>, Waiting),
    Print(Seq<FileEntryView>),
    Exit(i32, Option<Seq<char>>),
}

impl View for Next {
    type V = NextView;

    open spec fn view(&self) -> NextView {
        match self {
            Next::Wait(waiting) => NextView::Wait(*waiting),
            Next::Complain(message, waiting) => NextView::Complain(message@, *waiting),
            Next::Print(entries) => NextView::Print(views(entries@)),
            Next::Exit(code, message) => NextView::Exit(*code, opt_view(*message)),
        }
    }
}

impl RequestView {
    /// The one command that a request sends, and what it waits for then.
    /// `local_is_dir` tells whether the path that a `put` uploads is a directory.
    pub open spec fn dispatched(self, local_is_dir: bool) -> (CommandView, Waiting) {
        match self {
            RequestView::List { path, .. } => (
                CommandView::ListDir(Side::Remote, path),
                Waiting::Listing,
            ),
            RequestView::Get { item, .. } => (
                CommandView::RunQueue(seq![item]),
                Waiting::Queue { failed: false },
            ),
            RequestView::Put { local, remote, name, recursive, .. } => (
                CommandView::RunQueue(
                    seq![
                        TransferView {
                            direction: Direction::Upload,
                            src: local,
                            dst: remote,
                            name,
                            is_dir: local_is_dir || recursive,
                        },
                    ],
                ),
                Waiting::Queue { failed: false },
            ),
            RequestView::Op { command, .. } => (command, Waiting::Op),
        }
    }

    pub open spec fn host(self) -> Seq<char> {
        match self {
            RequestView::List { host, .. } => host,
            RequestView::Get { host, .. } => host,
            RequestView::Put { host, .. } => host,
            RequestView::Op { host, .. } => host,
        }
    }
}

impl Request {
    /// The host that a request is for.
    pub fn host(&self) -> (r: &String)
        ensures
            r@ == self@.host(),
    {
        match self {
            Request::List { host, .. } => host,
            Request::Get { host, .. } => host,
            Request::Put { host, .. } => host,
            Request::Op { host, .. } => host,
        }
    }

    /// The command to send once connected, and what to wait for then.
    pub fn dispatch(self, local_is_dir: bool) -> (r: (SftpCommand, Waiting))
        ensures
            (r.0@, r.1) == self@.dispatched(local_is_dir),
    {
        match self {
            Request::List { path, .. } => (
                SftpCommand::ListDir(Side::Remote, path),
                Waiting::Listing,
            ),
            Request::Get { item, .. } => run_one(item),
            Request::Put { local, remote, name, recursive, .. } => run_one(
                put_item(local, remote, name, recursive, local_is_dir),
            ),
            Request::Op { command, .. } => (command, Waiting::Op),
        }
    }
}

fn run_one(item: QueuedTransfer) -> (r: (SftpCommand, Waiting))
    ensures
        r.0@ == CommandView::RunQueue(seq![item@]),
        r.1 == (Waiting::Queue { failed: false }),
{
    let mut queue: Vec<QueuedTransfer> = Vec::new();
    let ghost view = item@;
    queue.push(item);
    assert(views(queue@) =~= seq![view]);
    (SftpCommand::RunQueue(queue), Waiting::Queue { failed: false })
}

impl Waiting {
    /// What an event means to a subcommand. `None` is a worker that is gone.
    pub open spec fn after(self, event: Option<EventView>) -> NextView {
        match event {
            None => NextView::Exit(1, Some("sftp worker went away"@)),
            Some(EventView::Error(message)) => match self {
                Waiting::Queue { .. } => NextView::Complain(
                    message,
                    Waiting::Queue { failed: true },
                ),
                _ => NextView::Exit(1, Some(message)),
            },
            Some(EventView::DirListing(_, _, entries)) => if self is Listing {
                NextView::Print(entries)
            } else {
                NextView::Wait(self)
            },
            Some(EventView::QueueDone) => match self {
                Waiting::Queue { failed } => NextView::Exit(
                    if failed {
                        1
                    } else {
                        0
                    },
                    None,
                ),
                _ => NextView::Wait(self),
            },
            Some(EventView::OpDone) => if self is Op {
                NextView::Exit(0, None)
            } else {
                NextView::Wait(self)
            },
            Some(_) => NextView::Wait(self),
        }
    }

    /// Fold one event into what is waited for.
    pub fn on_event(self, event: Option<SftpEvent>) -> (r: Next)
        ensures
            r@ == self.after(opt_view(event)),
    {
        match event {
            None => Next::Exit(1, Some("sftp worker went away".to_owned())),
            Some(SftpEvent::Error(message)) => match self {
                Waiting::Queue { .. } => Next::Complain(message, Waiting::Queue { failed: true }),
                _ => Next::Exit(1, Some(message)),
            },
            Some(SftpEvent::DirListing(_, _, entries)) => match self {
                Waiting::Listing => Next::Print(entries),
                _ => Next::Wait(self),
            },
            Some(SftpEvent::QueueDone) => match self {
                Waiting::Queue { failed } => Next::Exit(
                    if failed {
                        1
                    } else {
                        0
                    },
                    None,
                ),
                _ => Next::Wait(self),
            },
            Some(SftpEvent::OpDone) => match self {
                Waiting::Op => Next::Exit(0, None),
                _ => Next::Wait(self),
            },
            Some(_) => Next::Wait(self),
        }
    }

    /// What is waited for after events that end nothing.
    pub open spec fn through(self, events: Seq<EventView>) -> Waiting
        decreases events.len(),
    {
        if events.len() == 0 {
            self
        } else {
            match self.through(events.drop_last()).after(Some(events.last())) {
                NextView::Wait(waiting) => waiting,
                NextView::Complain(_, waiting) => waiting,
                _ => self.through(events.drop_last()),
            }
        }
    }
}

/// A queue ends well exactly if no event before its end reported an error.
pub proof fn queue_code_tells_of_errors(events: Seq<EventView>)
    requires
        forall|i: int| 0 <= i < events.len() ==> !((#[trigger] events[i]) is QueueDone),
    ensures
        ({
            let failed = exists|i: int|
                0 <= i < events.len() && (#[trigger] events[i]) is Error;
            (Waiting::Queue { failed: false }).through(events).after(Some(EventView::QueueDone))
                == NextView::Exit(
                if failed {
                    1
                } else {
                    0
                },
                None,
            )
        }),
{
    lemma_queue_through(events);
}

proof fn lemma_queue_through(events: Seq<EventView>)
    requires
        forall|i: int| 0 <= i < events.len() ==> !((#[trigger] events[i]) is QueueDone),
    ensures
        (Waiting::Queue { failed: false }).through(events) == (Waiting::Queue {
            failed: exists|i: int| 0 <= i < events.len() && (#[trigger] events[i]) is Error,
        }),
    decreases events.len(),
{
    if events.len() > 0 {
        let rest = events.drop_last();
        assert forall|i: int| 0 <= i < rest.len() implies !((#[trigger] rest[i]) is QueueDone) by {
            assert(rest[i] == events[i]);
        }
        lemma_queue_through(rest);
        assert(!(events[events.len() - 1] is QueueDone));
        let before = exists|i: int| 0 <= i < rest.len() && (#[trigger] rest[i]) is Error;
        if before {
            let i = choose|i: int| 0 <= i < rest.len() && (#[trigger] rest[i]) is Error;
            assert(events[i] is Error);
        }
        if events.last() is Error {
            assert(events[events.len() - 1] is Error);
        }
        if !before && !(events.last() is Error) {
            assert forall|i: int| 0 <= i < events.len() implies !(
            (#[trigger] events[i]) is Error) by {
                if i < rest.len() {
                    assert(rest[i] == events[i]);
                }
            }
        }
    }
}

} // verus!
