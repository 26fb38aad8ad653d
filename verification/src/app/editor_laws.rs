//! How an editor command is taken apart.

use vstd::prelude::*;

use crate::app::editor_command::{
    command_words, lemma_read_append, lemma_read_one, local_editor_argv, local_editor_command,
    EditorCommandError, Quotes, Reading,
};
use crate::text::{is_space, trimmed, views};
use crate::text_laws::{is_blank, stands_between, trimming_takes_only_space, with_between};

verus! {

/// Whether a character means nothing but itself.
pub open spec fn is_ordinary(c: char) -> bool {
    !is_space(c) && c != '\'' && c != '"' && c != '\\'
}

/// Whether a word is made of ordinary characters, at least one.
pub open spec fn is_plain_word(word: Seq<char>) -> bool {
    word.len() > 0 && forall|i: int| 0 <= i < word.len() ==> is_ordinary(#[trigger] word[i])
}

proof fn lemma_read_plain(reading: Reading, word: Seq<char>)
    requires
        !reading.escaped,
        reading.quotes is Outside,
        forall|i: int| 0 <= i < word.len() ==> is_ordinary(#[trigger] word[i]),
    ensures
        word.len() > 0 ==> reading.read(word) == (Reading {
            word: reading.word + word,
            started: true,
            ..reading
        }),
        word.len() == 0 ==> reading.read(word) == reading,
    decreases word.len(),
{
    if word.len() > 0 {
        let rest = word.drop_last();
        assert forall|i: int| 0 <= i < rest.len() implies is_ordinary(#[trigger] rest[i]) by {
            assert(rest[i] == word[i]);
        }
        lemma_read_plain(reading, rest);
        assert(is_ordinary(word[word.len() - 1]));
        assert((reading.word + rest).push(word.last()) =~= reading.word + word);
        if rest.len() == 0 {
            assert(reading.word.push(word.last()) =~= reading.word + word);
        }
    }
}

proof fn lemma_read_words(words: Seq<Seq<char>>)
    requires
        words.len() > 0,
        forall|i: int| 0 <= i < words.len() ==> is_plain_word(#[trigger] words[i]),
    ensures
        Reading::blank(Seq::empty()).read(with_between(words, ' ')) == (Reading {
            argv: words.drop_last(),
            word: words.last(),
            quotes: Quotes::Outside,
            escaped: false,
            started: true,
        }),
    decreases words.len(),
{
    let blank = Reading::blank(Seq::empty());
    let last = words.last();
    assert(is_plain_word(words[words.len() - 1]));
    if words.len() == 1 {
        lemma_read_plain(blank, last);
        assert(Seq::<char>::empty() + last =~= last);
        assert(words.drop_last() =~= Seq::empty());
    } else {
        let rest = words.drop_last();
        assert forall|i: int| 0 <= i < rest.len() implies is_plain_word(#[trigger] rest[i]) by {
            assert(rest[i] == words[i]);
        }
        lemma_read_words(rest);
        let front = with_between(rest, ' ');
        lemma_read_append(blank, front.push(' '), last);
        let before = blank.read(front);
        assert(front.push(' ').drop_last() =~= front);
        let gap = blank.read(front.push(' '));
        assert(gap == before.step(' '));
        assert(rest.drop_last().push(rest.last()) =~= rest);
        assert(gap == Reading::blank(rest));
        lemma_read_plain(gap, last);
        assert(Seq::<char>::empty() + last =~= last);
    }
}

/// Words without anything special in them are read as they stand, one for each
/// that a space divides off.
pub proof fn plain_words_are_read_as_they_stand(words: Seq<Seq<char>>)
    requires
        words.len() > 0,
        forall|i: int| 0 <= i < words.len() ==> is_plain_word(#[trigger] words[i]),
    ensures
        command_words(with_between(words, ' ')) == Ok::<Seq<Seq<char>>, EditorCommandError>(words),
{
    lemma_read_words(words);
    assert(words.drop_last().push(words.last()) =~= words);
}

proof fn lemma_read_inside(reading: Reading, text: Seq<char>)
    requires
        !reading.escaped,
        reading.started,
        reading.quotes is Single && !text.contains('\'') || reading.quotes is Double
            && !text.contains('"') && !text.contains('\\'),
    ensures
        reading.read(text) == (Reading { word: reading.word + text, ..reading }),
    decreases text.len(),
{
    if text.len() == 0 {
        assert(reading.word + text =~= reading.word);
    } else {
        let rest = text.drop_last();
        assert forall|i: int| 0 <= i < rest.len() implies text.contains(#[trigger] rest[i]) by {
            assert(rest[i] == text[i]);
        }
        lemma_read_inside(reading, rest);
        assert(text.contains(text[text.len() - 1]));
        assert((reading.word + rest).push(text.last()) =~= reading.word + text);
    }
}

/// Quotes of either kind hold a word together, whatever stands in it: white
/// space, and quotes of the other kind. One that is not closed is refused.
pub proof fn quotes_hold_a_word_together(text: Seq<char>)
    ensures
        !text.contains('\'') ==> {
            &&& command_words(seq!['\''] + text + seq!['\'']) == Ok::<
                Seq<Seq<char>>,
                EditorCommandError,
            >(seq![text])
            &&& command_words(seq!['\''] + text) == Err::<Seq<Seq<char>>, EditorCommandError>(
                EditorCommandError::Unfinished,
            )
        },
        !text.contains('"') && !text.contains('\\') ==> {
            &&& command_words(seq!['"'] + text + seq!['"']) == Ok::<
                Seq<Seq<char>>,
                EditorCommandError,
            >(seq![text])
            &&& command_words(seq!['"'] + text) == Err::<Seq<Seq<char>>, EditorCommandError>(
                EditorCommandError::Unfinished,
            )
        },
{
    let blank = Reading::blank(Seq::empty());
    assert(Seq::<Seq<char>>::empty().push(text) =~= seq![text]);
    assert(Seq::<char>::empty() + text =~= text);
    if !text.contains('\'') {
        let open = blank.step('\'');
        lemma_read_one(blank, '\'');
        lemma_read_append(blank, seq!['\''], text);
        lemma_read_inside(open, text);
        lemma_read_append(blank, seq!['\''] + text, seq!['\'']);
        lemma_read_one(open.read(text), '\'');
    }
    if !text.contains('"') && !text.contains('\\') {
        let open = blank.step('"');
        lemma_read_one(blank, '"');
        lemma_read_append(blank, seq!['"'], text);
        lemma_read_inside(open, text);
        lemma_read_append(blank, seq!['"'] + text, seq!['"']);
        lemma_read_one(open.read(text), '"');
    }
}

/// A backslash makes the next character an ordinary one, and one with nothing
/// behind it is refused.
pub proof fn backslashes_take_the_next_character(c: char)
    ensures
        command_words(seq!['\\'] + seq![c]) == Ok::<Seq<Seq<char>>, EditorCommandError>(
            seq![seq![c]],
        ),
        command_words(seq!['\\']) == Err::<Seq<Seq<char>>, EditorCommandError>(
            EditorCommandError::Unfinished,
        ),
{
    let blank = Reading::blank(Seq::empty());
    lemma_read_one(blank, '\\');
    lemma_read_append(blank, seq!['\\'], seq![c]);
    lemma_read_one(blank.step('\\'), c);
    assert(Seq::<char>::empty().push(c) =~= seq![c]);
    assert(Seq::<Seq<char>>::empty().push(seq![c]) =~= seq![seq![c]]);
}

/// Whether a text holds something besides white space.
pub open spec fn says_something(text: Seq<char>) -> bool {
    exists|i: int| 0 <= i < text.len() && !is_space(#[trigger] text[i])
}

proof fn lemma_says_something(text: Seq<char>)
    ensures
        says_something(text) <==> trimmed(text).len() > 0,
{
    trimming_takes_only_space(text);
    let (before, after) = choose|before: Seq<char>, after: Seq<char>|
        is_blank(before) && is_blank(after) && #[trigger] stands_between(
            text,
            before,
            trimmed(text),
            after,
        );
    let middle = trimmed(text);
    if middle.len() > 0 {
        assert(text[before.len() as int] == middle[0]);
    }
    if says_something(text) {
        let i = choose|i: int| 0 <= i < text.len() && !is_space(#[trigger] text[i]);
        if middle.len() == 0 {
            if i < before.len() {
                assert(text[i] == before[i]);
            } else {
                assert(text[i] == after[i - before.len()]);
            }
        }
    }
}

/// The visual editor of the user comes before the plain one, and either before
/// the one that is taken where neither says anything; it is taken as it is
/// written.
pub proof fn visual_editors_come_first(
    visual: Option<String>,
    editor: Option<String>,
    command: String,
)
    requires
        call_ensures(local_editor_command, (visual, editor), command),
    ensures
        ({
            let first = visual is Some && says_something(visual->0@);
            let second = editor is Some && says_something(editor->0@);
            &&& first ==> command@ == visual->0@
            &&& !first && second ==> command@ == editor->0@
            &&& !first && !second ==> command@ == seq!['n', 'a', 'n', 'o']
        }),
{
    reveal_strlit("nano");
    assert("nano"@ =~= seq!['n', 'a', 'n', 'o']);
    if let Some(visual) = visual {
        lemma_says_something(visual@);
    }
    if let Some(editor) = editor {
        lemma_says_something(editor@);
    }
}

/// The path that is edited is one word of its own, the last, whatever it holds;
/// the words before it are those of the command.
pub proof fn edited_paths_are_one_word(
    words: Seq<Seq<char>>,
    command: &str,
    path: &str,
    argv: Result<Vec<String>, EditorCommandError>,
)
    requires
        words.len() > 0,
        forall|i: int| 0 <= i < words.len() ==> is_plain_word(#[trigger] words[i]),
        command@ == with_between(words, ' '),
        call_ensures(local_editor_argv, (command, path), argv),
    ensures
        argv matches Ok(argv) && views(argv@) == words.push(path@),
{
    plain_words_are_read_as_they_stand(words);
}

} // verus!
