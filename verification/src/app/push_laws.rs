//! What the command that pushes a key does to the account it runs in.

use vstd::prelude::*;

use crate::app::editor_command::{command_words, quoted, EditorCommandError};
use crate::app::push_key::{push_command, pushed_key_is_read_back};

verus! {

/// How two commands of a shell list hang together.
pub enum Link {
    /// The second runs if the first succeeds.
    And,
    /// The second runs if the first fails.
    Or,
}

/// A shell list over the commands that concern the authorized keys. A list hangs
/// together from the left; another order takes brackets.
pub enum Script {
    /// Files that are created are closed to others.
    Umask,
    MakeDirectory,
    /// The file of the authorized keys is created, unless it is there.
    Touch,
    /// The variable is set to the value of a word.
    Assign { word: Seq<char>, value: Seq<char> },
    /// Whether some line of the file is what the variable holds.
    Find,
    /// What the variable holds is put behind the file, as a line.
    Append,
    Chain { first: Box<Script>, link: Link, second: Box<Script> },
    Brackets(Box<Script>),
}

/// An account as far as the commands see it.
pub struct Account {
    pub has_directory: bool,
    /// The lines of the authorized keys, if the file is there.
    pub lines: Option<Seq<Seq<char>>>,
    /// Whether others can read what was created here.
    pub open_to_others: bool,
    pub closed_umask: bool,
    pub key: Seq<char>,
}

/// Whether a script is one that its text can be read as.
pub open spec fn reads_well(script: Script) -> bool
    decreases script,
{
    match script {
        Script::Assign { word, value } => command_words(word) == Ok::<
            Seq<Seq<char>>,
            EditorCommandError,
        >(seq![value]),
        Script::Chain { first, link, second } => reads_well(*first) && reads_well(*second)
            && !(*second is Chain),
        Script::Brackets(inner) => reads_well(*inner),
        _ => true,
    }
}

pub open spec fn script_text(script: Script) -> Seq<char>
    decreases script,
{
    match script {
        Script::Umask => "umask 077"@,
        Script::MakeDirectory => "mkdir -p ~/.ssh"@,
        Script::Touch => "touch ~/.ssh/authorized_keys"@,
        Script::Assign { word, value } => "key="@ + word,
        Script::Find => "grep -qxF \"$key\" ~/.ssh/authorized_keys"@,
        Script::Append => "echo \"$key\" >> ~/.ssh/authorized_keys"@,
        Script::Chain { first, link, second } => script_text(*first) + (match link {
            Link::And => " && "@,
            Link::Or => " || "@,
        }) + script_text(*second),
        Script::Brackets(inner) => "("@ + script_text(*inner) + ")"@,
    }
}

/// The account after a script, and whether the script succeeded.
pub open spec fn run(script: Script, account: Account) -> (Account, bool)
    decreases script,
{
    match script {
        Script::Umask => (Account { closed_umask: true, ..account }, true),
        Script::MakeDirectory => (
            Account {
                has_directory: true,
                open_to_others: account.open_to_others || (!account.has_directory
                    && !account.closed_umask),
                ..account
            },
            true,
        ),
        Script::Touch => if !account.has_directory {
            (account, false)
        } else if account.lines is Some {
            (account, true)
        } else {
            (
                Account {
                    lines: Some(Seq::empty()),
                    open_to_others: account.open_to_others || !account.closed_umask,
                    ..account
                },
                true,
            )
        },
        Script::Assign { word, value } => (Account { key: value, ..account }, true),
        Script::Find => (
            account,
            account.lines matches Some(lines) && lines.contains(account.key),
        ),
        Script::Append => if account.has_directory {
            let lines = match account.lines {
                Some(lines) => lines,
                None => Seq::empty(),
            };
            (
                Account {
                    lines: Some(lines.push(account.key)),
                    open_to_others: account.open_to_others || (account.lines is None
                        && !account.closed_umask),
                    ..account
                },
                true,
            )
        } else {
            (account, false)
        },
        Script::Chain { first, link, second } => {
            let (between, ok) = run(*first, account);
            if ok == (link is And) {
                run(*second, between)
            } else {
                (between, ok)
            }
        },
        Script::Brackets(inner) => run(*inner, account),
    }
}

/// The lines that an account authorizes.
pub open spec fn authorized(account: Account) -> Seq<Seq<char>> {
    match account.lines {
        Some(lines) => lines,
        None => Seq::empty(),
    }
}

/// Whether a script authorizes a key wherever it runs and does nothing else: it
/// succeeds, every line that was there stays where it was, the key is put behind
/// them exactly if it was not among them, and nothing that is created is open to
/// others.
pub open spec fn authorizes_once(script: Script, key: Seq<char>) -> bool {
    forall|account: Account|
        {
            let (after, ok) = #[trigger] run(script, account);
            &&& ok
            &&& after.has_directory
            &&& after.lines is Some
            &&& authorized(after) == if authorized(account).contains(key) {
                authorized(account)
            } else {
                authorized(account).push(key)
            }
            &&& after.open_to_others == account.open_to_others
        }
}

/// Whether a text is a shell list that authorizes a key once.
pub open spec fn is_push_of(script: Script, text: Seq<char>, key: Seq<char>) -> bool {
    reads_well(script) && script_text(script) == text && authorizes_once(script, key)
}

spec fn chained(first: Script, link: Link, second: Script) -> Script {
    Script::Chain { first: Box::new(first), link, second: Box::new(second) }
}

proof fn lemma_chain_text(first: Script, link: Link, second: Script)
    ensures
        script_text(chained(first, link, second)) == script_text(first) + (match link {
            Link::And => " && "@,
            Link::Or => " || "@,
        }) + script_text(second),
        forall|account: Account| #[trigger]
            run(chained(first, link, second), account) == {
                let (between, ok) = run(first, account);
                if ok == (link is And) {
                    run(second, between)
                } else {
                    (between, ok)
                }
            },
        reads_well(chained(first, link, second)) == (reads_well(first) && reads_well(second)
            && !(second is Chain)),
{
}

proof fn lemma_head_text()
    ensures
        "umask 077"@ + " && "@ + "mkdir -p ~/.ssh"@ + " && "@ + "touch ~/.ssh/authorized_keys"@
            + " && "@ + "key="@
            == "umask 077 && mkdir -p ~/.ssh && touch ~/.ssh/authorized_keys && key="@,
{
    reveal_strlit("umask 077");
    reveal_strlit(" && ");
    reveal_strlit("mkdir -p ~/.ssh");
    reveal_strlit("touch ~/.ssh/authorized_keys");
    reveal_strlit("key=");
    reveal_strlit("umask 077 && mkdir -p ~/.ssh && touch ~/.ssh/authorized_keys && key=");
    assert("umask 077"@ + " && "@ + "mkdir -p ~/.ssh"@ + " && "@ + "touch ~/.ssh/authorized_keys"@
        + " && "@ + "key="@
        =~= "umask 077 && mkdir -p ~/.ssh && touch ~/.ssh/authorized_keys && key="@);
}

proof fn lemma_tail_text()
    ensures
        " && "@ + ("("@ + ("grep -qxF \"$key\" ~/.ssh/authorized_keys"@ + " || "@
            + "echo \"$key\" >> ~/.ssh/authorized_keys"@) + ")"@)
            == " && (grep -qxF \"$key\" ~/.ssh/authorized_keys || echo \"$key\" >> ~/.ssh/authorized_keys)"@,
{
    reveal_strlit(" && ");
    reveal_strlit("(");
    reveal_strlit("grep -qxF \"$key\" ~/.ssh/authorized_keys");
    reveal_strlit(" || ");
    reveal_strlit("echo \"$key\" >> ~/.ssh/authorized_keys");
    reveal_strlit(")");
    reveal_strlit(
        " && (grep -qxF \"$key\" ~/.ssh/authorized_keys || echo \"$key\" >> ~/.ssh/authorized_keys)",
    );
    assert(" && "@ + ("("@ + ("grep -qxF \"$key\" ~/.ssh/authorized_keys"@ + " || "@
        + "echo \"$key\" >> ~/.ssh/authorized_keys"@) + ")"@)
        =~= " && (grep -qxF \"$key\" ~/.ssh/authorized_keys || echo \"$key\" >> ~/.ssh/authorized_keys)"@);
}

/// The pushed command, read as a shell list, leaves the authorized keys of the
/// account with every line they had and the key among them: the key is appended
/// exactly if no line is that key, and otherwise the file is left as it was. The
/// lines of the account are whole ones, and the key is one line that neither
/// begins with a dash nor holds a backslash, as no key does; `grep` and `echo`
/// take such a line as it is.
pub proof fn pushing_authorizes_the_key_once(key: Seq<char>)
    ensures
        exists|script: Script| #[trigger] is_push_of(script, push_command(key), key),
{
    let assign = Script::Assign { word: quoted(key), value: key };
    let one = chained(Script::Umask, Link::And, Script::MakeDirectory);
    let two = chained(one, Link::And, Script::Touch);
    let three = chained(two, Link::And, assign);
    let inner = chained(Script::Find, Link::Or, Script::Append);
    let brackets = Script::Brackets(Box::new(inner));
    let script = chained(three, Link::And, brackets);
    lemma_chain_text(Script::Umask, Link::And, Script::MakeDirectory);
    lemma_chain_text(one, Link::And, Script::Touch);
    lemma_chain_text(two, Link::And, assign);
    lemma_chain_text(Script::Find, Link::Or, Script::Append);
    lemma_chain_text(three, Link::And, brackets);
    assert(script_text(brackets) == "("@ + script_text(inner) + ")"@);
    assert(script_text(assign) == "key="@ + quoted(key));
    pushed_key_is_read_back(key);
    lemma_head_text();
    lemma_tail_text();
    let head = "umask 077"@ + " && "@ + "mkdir -p ~/.ssh"@ + " && "@
        + "touch ~/.ssh/authorized_keys"@ + " && "@;
    assert(script_text(three) =~= head + "key="@ + quoted(key));
    assert(script_text(script) =~= script_text(three) + (" && "@ + script_text(brackets)));
    assert(reads_well(brackets));
    assert(reads_well(script));
    assert forall|account: Account|
        {
            let (after, ok) = #[trigger] run(script, account);
            &&& ok
            &&& after.has_directory
            &&& after.lines is Some
            &&& authorized(after) == if authorized(account).contains(key) {
                authorized(account)
            } else {
                authorized(account).push(key)
            }
            &&& after.open_to_others == account.open_to_others
        } by {
        let a1 = run(one, account).0;
        let a2 = run(two, account).0;
        assert(run(one, account) == (a1, true));
        assert(run(two, account) == (a2, true));
        let a3 = run(three, account).0;
        assert(run(three, account) == (a3, true));
        assert(run(brackets, a3) == run(inner, a3));
        assert(a3.key == key && a3.lines == Some(authorized(account)));
    }
    assert(authorizes_once(script, key));
    assert(is_push_of(script, push_command(key), key));
}

} // verus!
