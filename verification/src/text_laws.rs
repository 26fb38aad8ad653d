//! What trimming and splitting keep of a text, and what editing a line keeps.

use vstd::prelude::*;

use crate::keybinds::KeyCode;
use crate::text::{is_space, split, trim_end, trim_start, trimmed};
use crate::text_input::Line;

verus! {

/// Whether a text is white space and nothing else.
pub open spec fn is_blank(s: Seq<char>) -> bool {
    forall|i: int| 0 <= i < s.len() ==> is_space(#[trigger] s[i])
}

/// Whether `middle` stands in `s` with these around it.
pub open spec fn stands_between(
    s: Seq<char>,
    before: Seq<char>,
    middle: Seq<char>,
    after: Seq<char>,
) -> bool {
    s == before + middle + after
}

proof fn lemma_trim_start(s: Seq<char>) -> (n: int)
    ensures
        0 <= n <= s.len(),
        trim_start(s) == s.skip(n),
        forall|i: int| 0 <= i < n ==> is_space(s[i]),
        trim_start(s).len() > 0 ==> !is_space(trim_start(s)[0]),
    decreases s.len(),
{
    if s.len() > 0 && is_space(s[0]) {
        let m = lemma_trim_start(s.drop_first());
        assert(s.drop_first().skip(m) =~= s.skip(m + 1));
        assert forall|i: int| 0 <= i < m + 1 implies is_space(s[i]) by {
            if i > 0 {
                assert(s.drop_first()[i - 1] == s[i]);
            }
        }
        m + 1
    } else {
        assert(s.skip(0) =~= s);
        0
    }
}

proof fn lemma_trim_end(s: Seq<char>) -> (n: int)
    ensures
        0 <= n <= s.len(),
        trim_end(s) == s.take(n),
        forall|i: int| n <= i < s.len() ==> is_space(s[i]),
        n > 0 ==> !is_space(s[n - 1]),
    decreases s.len(),
{
    if s.len() > 0 && is_space(s.last()) {
        let m = lemma_trim_end(s.drop_last());
        assert(s.drop_last().take(m) =~= s.take(m));
        assert forall|i: int| m <= i < s.len() implies is_space(s[i]) by {
            if i < s.len() - 1 {
                assert(s.drop_last()[i] == s[i]);
            }
        }
        m
    } else {
        assert(s.take(s.len() as int) =~= s);
        s.len() as int
    }
}

/// Trimming takes white space from both ends and nothing else: what is left
/// neither begins nor ends in any, and a text that has none to lose is kept.
pub proof fn trimming_takes_only_space(s: Seq<char>)
    ensures
        exists|before: Seq<char>, after: Seq<char>|
            is_blank(before) && is_blank(after) && #[trigger] stands_between(
                s,
                before,
                trimmed(s),
                after,
            ),
        trimmed(s).len() > 0 ==> !is_space(trimmed(s)[0]) && !is_space(trimmed(s).last()),
        s.len() > 0 && !is_space(s[0]) && !is_space(s.last()) ==> trimmed(s) == s,
{
    let n = lemma_trim_start(s);
    let rest = trim_start(s);
    let m = lemma_trim_end(rest);
    let before = s.take(n);
    let after = rest.skip(m);
    assert(s =~= before + trimmed(s) + after);
    assert(stands_between(s, before, trimmed(s), after));
    if trimmed(s).len() > 0 {
        assert(trimmed(s)[0] == rest[0]);
        assert(trimmed(s).last() == rest[m - 1]);
    }
}

/// Pieces with a separator between them.
pub open spec fn with_between(pieces: Seq<Seq<char>>, sep: char) -> Seq<char>
    decreases pieces.len(),
{
    if pieces.len() == 0 {
        Seq::empty()
    } else if pieces.len() == 1 {
        pieces[0]
    } else {
        with_between(pieces.drop_last(), sep).push(sep) + pieces.last()
    }
}

/// The pieces of a text make the text again, and none of them holds the
/// separator.
pub proof fn pieces_make_the_text_again(s: Seq<char>, sep: char)
    ensures
        split(s, sep).len() >= 1,
        with_between(split(s, sep), sep) == s,
        forall|i: int| 0 <= i < split(s, sep).len() ==> !(#[trigger] split(s, sep)[i]).contains(sep),
    decreases s.len(),
{
    let all = split(s, sep);
    if s.len() == 0 {
        assert(all =~= seq![Seq::<char>::empty()]);
        assert(with_between(all, sep) =~= s);
    } else {
        let rest = s.drop_last();
        let before = split(rest, sep);
        pieces_make_the_text_again(rest, sep);
        if s.last() == sep {
            assert(all.drop_last() =~= before);
            assert(with_between(all, sep) =~= s);
            assert forall|i: int| 0 <= i < all.len() implies !(#[trigger] all[i]).contains(sep) by {
                if i < before.len() {
                    assert(all[i] == before[i]);
                }
            }
        } else {
            let grown = before.last().push(s.last());
            assert(all.last() == grown);
            assert(all.drop_last() =~= before.drop_last());
            if before.len() == 1 {
                assert(all.len() == 1 && all[0] == grown);
                assert(before[0] == before.last());
                assert(grown =~= s);
            } else {
                let front = with_between(before.drop_last(), sep).push(sep);
                assert(rest == front + before.last());
                assert(with_between(all, sep) == front + grown);
                assert(s =~= rest.push(s.last()));
                assert(front + grown =~= (front + before.last()).push(s.last()));
            }
            assert forall|i: int| 0 <= i < all.len() implies !(#[trigger] all[i]).contains(sep) by {
                if i < before.len() - 1 {
                    assert(all[i] == before[i]);
                } else {
                    assert(!before[before.len() - 1].contains(sep));
                    if grown.contains(sep) {
                        let k = choose|k: int| 0 <= k < grown.len() && grown[k] == sep;
                        assert(before.last()[k] == sep);
                    }
                }
            }
        }
    }
}

/// A line after these characters were typed one by one.
pub open spec fn typed_into(line: Line, text: Seq<char>) -> Line
    decreases text.len(),
{
    if text.len() == 0 {
        line
    } else {
        typed_into(line, text.drop_last()).inserted(text.last())
    }
}

/// What is typed stands in the line as it was typed, between what stood before
/// the cursor and what stood behind it, and the cursor is behind it.
pub proof fn typing_puts_text_at_the_cursor(line: Line, text: Seq<char>)
    requires
        line.cursor <= line.text.len(),
    ensures
        typed_into(line, text).text == line.text.take(line.cursor as int) + text + line.text.skip(
            line.cursor as int,
        ),
        typed_into(line, text).cursor == line.cursor + text.len(),
    decreases text.len(),
{
    if text.len() == 0 {
        assert(line.text =~= line.text.take(line.cursor as int) + text + line.text.skip(
            line.cursor as int,
        ));
    } else {
        let rest = text.drop_last();
        typing_puts_text_at_the_cursor(line, rest);
        let before = typed_into(line, rest);
        assert(before.inserted(text.last()).text =~= line.text.take(line.cursor as int) + text
            + line.text.skip(line.cursor as int));
    }
}

/// The cursor keys move over the line and change no character; Left and Right
/// undo each other inside it, and a deletion is a step over the character and a
/// backspace.
pub proof fn cursor_keys_keep_the_text(line: Line)
    requires
        line.cursor <= line.text.len(),
    ensures
        ({
            let left = line.key_pressed(KeyCode::Left);
            let right = line.key_pressed(KeyCode::Right);
            &&& left.text == line.text && right.text == line.text
            &&& line.cursor > 0 ==> left.cursor == line.cursor - 1 && left.key_pressed(
                KeyCode::Right,
            ) == line
            &&& line.cursor < line.text.len() ==> right.cursor == line.cursor + 1
                && right.key_pressed(KeyCode::Left) == line && line.key_pressed(KeyCode::Delete)
                == right.backspaced()
            &&& line.cursor == 0 ==> left == line && line.backspaced() == line
            &&& line.cursor == line.text.len() ==> right == line && line.key_pressed(
                KeyCode::Delete,
            ) == line
            &&& line.key_pressed(KeyCode::Home) == Line { cursor: 0, ..line }
            &&& line.key_pressed(KeyCode::End) == Line { cursor: line.text.len(), ..line }
        }),
{
}

} // verus!
