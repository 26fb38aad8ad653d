//! The user's editor command, split into arguments without a shell.

use vstd::prelude::*;

use crate::text::{chars_of, group_views, is_space, is_whitespace, trim, trimmed, views};

verus! {

broadcast use crate::text::group_views;

/// Why an editor command cannot be used.
#[derive(Debug, Clone, Copy, PartialEq, Eq, Structural)]
pub enum EditorCommandError {
    /// It ends inside quotes or behind a backslash.
    Unfinished,
    /// It holds no word.
    Empty,
}

impl EditorCommandError {
    pub open spec fn message_spec(self) -> Seq<char> {
        match self {
            EditorCommandError::Unfinished => "editor command has an unfinished quote or escape"@,
            EditorCommandError::Empty => "editor command is empty"@,
        }
    }

    pub fn message(self) -> (r: String)
        ensures
            r@ == self.message_spec(),
    {
        match self {
            EditorCommandError::Unfinished => "editor command has an unfinished quote or escape",
            EditorCommandError::Empty => "editor command is empty",
        }.to_owned()
    }
}

/// The quotes that a character stands in.
#[derive(Debug, Clone, Copy, PartialEq, Eq, Structural)]
pub enum Quotes {
    Outside,
    Single,
    Double,
}

/// A command read up to some character: the words that are complete, the one
/// that is being read, and how the next character is taken.
#[verifier::ext_equal]
pub struct Reading {
    pub argv: Seq<Seq<char>>,
    pub word: Seq<char>,
    pub quotes: Quotes,
    pub escaped: bool,
    /// Whether a word has begun, be it empty so far.
    pub started: bool,
}

impl Reading {
    pub open spec fn blank(argv: Seq<Seq<char>>) -> Reading {
        Reading {
            argv,
            word: Seq::empty(),
            quotes: Quotes::Outside,
            escaped: false,
            started: false,
        }
    }

    /// The next character belongs to the word.
    pub open spec fn with(self, c: char) -> Reading {
        Reading { word: self.word.push(c), escaped: false, started: true, ..self }
    }

    /// One more character is read. Single quotes keep everything up to the next
    /// one; double quotes keep everything but a backslash, which outside single
    /// quotes makes the next character an ordinary one; white space outside
    /// quotes ends a word.
    pub open spec fn step(self, c: char) -> Reading {
        if self.escaped {
            self.with(c)
        } else {
            match self.quotes {
                Quotes::Single => if c == '\'' {
                    Reading { quotes: Quotes::Outside, started: true, ..self }
                } else {
                    self.with(c)
                },
                Quotes::Double => if c == '"' {
                    Reading { quotes: Quotes::Outside, started: true, ..self }
                } else if c == '\\' {
                    Reading { escaped: true, started: true, ..self }
                } else {
                    self.with(c)
                },
                Quotes::Outside => if c == '\'' {
                    Reading { quotes: Quotes::Single, started: true, ..self }
                } else if c == '"' {
                    Reading { quotes: Quotes::Double, started: true, ..self }
                } else if c == '\\' {
                    Reading { escaped: true, started: true, ..self }
                } else if is_space(c) {
                    if self.started {
                        Reading::blank(self.argv.push(self.word))
                    } else {
                        self
                    }
                } else {
                    self.with(c)
                },
            }
        }
    }

    /// The characters of `s` are read in turn.
    pub open spec fn read(self, s: Seq<char>) -> Reading
        decreases s.len(),
    {
        if s.len() == 0 {
            self
        } else {
            self.read(s.drop_last()).step(s.last())
        }
    }

    /// What the command comes to when it ends here.
    pub open spec fn result(self) -> Result<Seq<Seq<char>>, EditorCommandError> {
        let argv = if self.started {
            self.argv.push(self.word)
        } else {
            self.argv
        };
        if self.escaped || !(self.quotes is Outside) {
            Err(EditorCommandError::Unfinished)
        } else if argv.len() == 0 {
            Err(EditorCommandError::Empty)
        } else {
            Ok(argv)
        }
    }
}

/// The words of an editor command.
pub open spec fn command_words(command: Seq<char>) -> Result<Seq<Seq<char>>, EditorCommandError> {
    Reading::blank(Seq::empty()).read(command).result()
}

/// Split a user-provided editor command without invoking a shell. This handles
/// the quoting normally used in `$VISUAL` / `$EDITOR`.
pub fn parse_editor_command(command: &str) -> (r: Result<Vec<String>, EditorCommandError>)
    ensures
        match r {
            Ok(argv) => command_words(command@) == Ok::<Seq<Seq<char>>, EditorCommandError>(
                views(argv@),
            ),
            Err(e) => command_words(command@) == Err::<Seq<Seq<char>>, EditorCommandError>(e),
        },
{
    let chars = chars_of(command);
    let mut argv: Vec<String> = Vec::new();
    let mut word = String::new();
    let mut quotes = Quotes::Outside;
    let mut escaped = false;
    let mut started = false;
    let mut i: usize = 0;
    let ghost blank = Reading::blank(Seq::empty());
    assert(command@.take(0) =~= Seq::empty());
    assert(word@ =~= Seq::empty());
    while i < chars.len()
        invariant
            chars@ == command@,
            i <= chars@.len(),
            blank.read(command@.take(i as int)) == (Reading {
                argv: views(argv@),
                word: word@,
                quotes,
                escaped,
                started,
            }),
        decreases chars@.len() - i,
    {
        let c = chars[i];
        assert(command@.take(i + 1).drop_last() =~= command@.take(i as int));
        assert(command@.take(i + 1).last() == c);
        i = i + 1;
        if escaped {
            word.push(c);
            escaped = false;
            started = true;
            continue;
        }
        match quotes {
            Quotes::Single => {
                if c == '\'' {
                    quotes = Quotes::Outside;
                } else {
                    word.push(c);
                }
                started = true;
            },
            Quotes::Double => {
                if c == '"' {
                    quotes = Quotes::Outside;
                } else if c == '\\' {
                    escaped = true;
                } else {
                    word.push(c);
                }
                started = true;
            },
            Quotes::Outside => {
                if c == '\'' {
                    quotes = Quotes::Single;
                    started = true;
                } else if c == '"' {
                    quotes = Quotes::Double;
                    started = true;
                } else if c == '\\' {
                    escaped = true;
                    started = true;
                } else if is_whitespace(c) {
                    if started {
                        argv.push(word);
                        word = String::new();
                        started = false;
                        assert(word@ =~= Seq::empty());
                    }
                } else {
                    word.push(c);
                    started = true;
                }
            },
        }
    }
    assert(command@.take(chars@.len() as int) =~= command@);
    let outside = match quotes {
        Quotes::Outside => true,
        _ => false,
    };
    if escaped || !outside {
        return Err(EditorCommandError::Unfinished);
    }
    if started {
        argv.push(word);
    }
    if argv.len() == 0 {
        return Err(EditorCommandError::Empty);
    }
    Ok(argv)
}

/// Whether a setting of the environment names an editor.
pub open spec fn names_editor(value: Option<Seq<char>>) -> bool {
    value matches Some(command) && trimmed(command).len() > 0
}

/// The editor command: `$VISUAL`, else `$EDITOR`, else `nano`, where a blank
/// setting counts as none.
pub fn local_editor_command(visual: Option<String>, editor: Option<String>) -> (r: String)
    ensures
        r@ == if names_editor(crate::text::opt_view(visual)) {
            visual->0@
        } else if names_editor(crate::text::opt_view(editor)) {
            editor->0@
        } else {
            "nano"@
        },
{
    if let Some(command) = visual {
        if crate::text::len(trim(command.as_str()).as_str()) > 0 {
            return command;
        }
    }
    if let Some(command) = editor {
        if crate::text::len(trim(command.as_str()).as_str()) > 0 {
            return command;
        }
    }
    "nano".to_owned()
}

/// The arguments that open `path` in the editor: those of the command, and the
/// path as one argument of its own.
pub fn local_editor_argv(command: &str, path: &str) -> (r: Result<
    Vec<String>,
    EditorCommandError,
>)
    ensures
        match r {
            Ok(argv) => command_words(command@) is Ok && views(argv@) == command_words(
                command@,
            )->Ok_0.push(path@),
            Err(e) => command_words(command@) == Err::<Seq<Seq<char>>, EditorCommandError>(e),
        },
{
    match parse_editor_command(command) {
        Ok(argv) => {
            let mut argv = argv;
            argv.push(path.to_owned());
            Ok(argv)
        },
        Err(e) => Err(e),
    }
}

pub(crate) proof fn lemma_read_append(reading: Reading, s: Seq<char>, t: Seq<char>)
    ensures
        reading.read(s + t) == reading.read(s).read(t),
    decreases t.len(),
{
    if t.len() == 0 {
        assert(s + t =~= s);
    } else {
        assert((s + t).drop_last() =~= s + t.drop_last());
        lemma_read_append(reading, s, t.drop_last());
    }
}

pub(crate) proof fn lemma_read_one(reading: Reading, c: char)
    ensures
        reading.read(seq![c]) == reading.step(c),
{
    reveal_with_fuel(Reading::read, 2);
    assert(seq![c].drop_last() =~= Seq::empty());
}

/// A text made fit to stand in single quotes of a shell: a quote in it closes
/// the quotes, stands escaped, and opens them again.
pub open spec fn shell_escaped(text: Seq<char>) -> Seq<char>
    decreases text.len(),
{
    if text.len() == 0 {
        Seq::empty()
    } else {
        shell_escaped(text.drop_last()) + if text.last() == '\'' {
            seq!['\'', '\\', '\'', '\'']
        } else {
            seq![text.last()]
        }
    }
}

/// A word in single quotes.
pub open spec fn quoted(word: Seq<char>) -> Seq<char> {
    seq!['\''] + shell_escaped(word) + seq!['\'']
}

/// The words in single quotes, a space behind each.
pub open spec fn quoted_command(words: Seq<Seq<char>>) -> Seq<char>
    decreases words.len(),
{
    if words.len() == 0 {
        Seq::empty()
    } else {
        quoted_command(words.drop_last()) + quoted(words.last()) + seq![' ']
    }
}

pub(crate) proof fn lemma_read_escaped(reading: Reading, key: Seq<char>)
    requires
        reading.quotes is Single,
        !reading.escaped,
        reading.started,
    ensures
        reading.read(shell_escaped(key)) == (Reading { word: reading.word + key, ..reading }),
    decreases key.len(),
{
    if key.len() == 0 {
        assert(reading.word + key =~= reading.word);
    } else {
        let rest = key.drop_last();
        lemma_read_escaped(reading, rest);
        let before = shell_escaped(rest);
        let there = reading.read(before);
        if key.last() == '\'' {
            let tail = seq!['\'', '\\', '\'', '\''];
            lemma_read_append(reading, before, tail);
            assert(tail =~= seq!['\''] + seq!['\\'] + seq!['\''] + seq!['\'']);
            lemma_read_append(there, seq!['\''] + seq!['\\'] + seq!['\''], seq!['\'']);
            lemma_read_append(there, seq!['\''] + seq!['\\'], seq!['\'']);
            lemma_read_append(there, seq!['\''], seq!['\\']);
            lemma_read_one(there, '\'');
            let closed = there.step('\'');
            lemma_read_one(closed, '\\');
            let escaping = closed.step('\\');
            lemma_read_one(escaping, '\'');
            let kept = escaping.step('\'');
            lemma_read_one(kept, '\'');
        } else {
            lemma_read_append(reading, before, seq![key.last()]);
            lemma_read_one(there, key.last());
        }
        assert((reading.word + rest).push(key.last()) =~= reading.word + key);
    }
}

proof fn lemma_read_quoted(words: Seq<Seq<char>>)
    ensures
        Reading::blank(Seq::empty()).read(quoted_command(words)) == Reading::blank(words),
    decreases words.len(),
{
    let blank = Reading::blank(Seq::empty());
    if words.len() == 0 {
        assert(words =~= Seq::empty());
    } else {
        let rest = words.drop_last();
        let word = words.last();
        lemma_read_quoted(rest);
        let before = quoted_command(rest);
        lemma_read_append(blank, before + quoted(word), seq![' ']);
        lemma_read_append(blank, before, quoted(word));
        let start = Reading::blank(rest);
        let body = shell_escaped(word);
        lemma_read_append(start, seq!['\''] + body, seq!['\'']);
        lemma_read_append(start, seq!['\''], body);
        lemma_read_one(start, '\'');
        let opened = start.step('\'');
        lemma_read_escaped(opened, word);
        assert(opened.word + word =~= word);
        let full = opened.read(body);
        lemma_read_one(full, '\'');
        let closed = full.step('\'');
        lemma_read_one(closed, ' ');
        assert(rest.push(word) =~= words);
    }
}

/// Any list of words can be written as an editor command: put in single quotes,
/// they are read back unchanged, whatever blanks, backslashes or quotes they hold.
pub proof fn quoted_words_are_read_back(words: Seq<Seq<char>>)
    requires
        words.len() > 0,
    ensures
        command_words(quoted_command(words)) == Ok::<Seq<Seq<char>>, EditorCommandError>(words),
{
    lemma_read_quoted(words);
}

/// A command is empty exactly when it holds nothing but white space.
pub proof fn only_blank_commands_are_empty(command: Seq<char>)
    ensures
        command_words(command) == Err::<Seq<Seq<char>>, EditorCommandError>(
            EditorCommandError::Empty,
        ) <==> forall|i: int| 0 <= i < command.len() ==> is_space(#[trigger] command[i]),
{
    lemma_blank(command);
}

proof fn lemma_blank(command: Seq<char>)
    ensures
        ({
            let reading = Reading::blank(Seq::empty()).read(command);
            let spaces = forall|i: int| 0 <= i < command.len() ==> is_space(#[trigger] command[i]);
            &&& spaces ==> reading == Reading::blank(Seq::empty())
            &&& !spaces ==> reading.argv.len() > 0 || reading.started
            &&& reading.escaped || !(reading.quotes is Outside) ==> reading.started
        }),
    decreases command.len(),
{
    if command.len() > 0 {
        let rest = command.drop_last();
        lemma_blank(rest);
        let all = forall|i: int| 0 <= i < rest.len() ==> is_space(#[trigger] rest[i]);
        if all && is_space(command.last()) {
            assert forall|i: int| 0 <= i < command.len() implies is_space(#[trigger] command[i]) by {
                if i < rest.len() {
                    assert(command[i] == rest[i]);
                }
            }
            assert(command.last() != '\'' && command.last() != '"' && command.last() != '\\');
        } else if !all {
            let i = choose|i: int| 0 <= i < rest.len() && !is_space(#[trigger] rest[i]);
            assert(command[i] == rest[i]);
        } else {
            assert(!is_space(command[command.len() - 1]));
        }
    }
}

} // verus!
