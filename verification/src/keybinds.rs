//! Keys, key specs such as `Ctrl+S`, and the table that binds them to actions.

use vstd::prelude::*;

use crate::text::{
    all_digits, cat2, chars_of, decimal, digits_value, lemma_decimal_is_digits, lower_ascii,
    lowered, parse_digits, same, split, split_on, text_of, to_decimal, trim, trimmed, upper_char,
    upper_ascii_char, lower_char, lower_ascii_char, lemma_views_eq, group_views, views,
};

verus! {

broadcast use crate::text::group_views;

/// A key, as far as the application tells keys apart.
#[derive(Debug, Clone, Copy, PartialEq, Eq, Structural)]
pub enum KeyCode {
    Backspace,
    Enter,
    Left,
    Right,
    Up,
    Down,
    Home,
    End,
    PageUp,
    PageDown,
    Tab,
    BackTab,
    Delete,
    Esc,
    F(u8),
    Char(char),
    /// Any other key.
    Other,
}

/// The modifiers held with a key. `other` is set if one is held that is none of
/// the three.
#[derive(Debug, Clone, Copy, PartialEq, Eq, Structural)]
pub struct KeyModifiers {
    pub control: bool,
    pub alt: bool,
    pub shift: bool,
    pub other: bool,
}

impl KeyModifiers {
    pub open spec fn none() -> KeyModifiers {
        KeyModifiers { control: false, alt: false, shift: false, other: false }
    }

    pub fn empty() -> (r: KeyModifiers)
        ensures
            r == KeyModifiers::none(),
    {
        KeyModifiers { control: false, alt: false, shift: false, other: false }
    }

    pub fn is_empty(self) -> (r: bool)
        ensures
            r == (self == KeyModifiers::none()),
    {
        !self.control && !self.alt && !self.shift && !self.other
    }

    /// Only Shift is held.
    pub open spec fn shift_only(self) -> bool {
        self == (KeyModifiers { shift: true, ..KeyModifiers::none() })
    }

    pub fn is_shift(self) -> (r: bool)
        ensures
            r == self.shift_only(),
    {
        !self.control && !self.alt && self.shift && !self.other
    }

    /// Only Control is held.
    pub open spec fn control_only(self) -> bool {
        self == (KeyModifiers { control: true, ..KeyModifiers::none() })
    }

    pub fn is_control(self) -> (r: bool)
        ensures
            r == self.control_only(),
    {
        self.control && !self.alt && !self.shift && !self.other
    }
}

/// A key press.
#[derive(Debug, Clone, Copy, PartialEq, Eq, Structural)]
pub struct KeyEvent {
    pub code: KeyCode,
    pub modifiers: KeyModifiers,
}

impl KeyEvent {
    pub fn new(code: KeyCode, modifiers: KeyModifiers) -> (r: KeyEvent)
        ensures
            r == (KeyEvent { code, modifiers }),
    {
        KeyEvent { code, modifiers }
    }

    /// The character that a key press types into a text field, if it does.
    pub open spec fn types(self) -> Option<char> {
        match self.code {
            KeyCode::Char(c) => if (self.modifiers == KeyModifiers::none()
                || self.modifiers.shift_only()) && !crate::text::control(c) {
                Some(c)
            } else {
                None
            },
            _ => None,
        }
    }

    pub fn typed(self) -> (r: Option<char>)
        ensures
            r == self.types(),
    {
        match self.code {
            KeyCode::Char(c) => if (self.modifiers.is_empty() || self.modifiers.is_shift())
                && !crate::text::is_control(c) {
                Some(c)
            } else {
                None
            },
            _ => None,
        }
    }
}

/// The modifier that a word of a key spec names.
pub open spec fn with_modifier(word: Seq<char>, mods: KeyModifiers) -> Option<KeyModifiers> {
    let word = lowered(word);
    if word == "ctrl"@ || word == "control"@ {
        Some(KeyModifiers { control: true, ..mods })
    } else if word == "alt"@ || word == "option"@ {
        Some(KeyModifiers { alt: true, ..mods })
    } else if word == "shift"@ {
        Some(KeyModifiers { shift: true, ..mods })
    } else {
        None
    }
}

/// The modifiers that the words of a key spec name, if all of them do.
pub open spec fn modifiers_of(words: Seq<Seq<char>>) -> Option<KeyModifiers>
    decreases words.len(),
{
    if words.len() == 0 {
        Some(KeyModifiers::none())
    } else {
        match modifiers_of(words.drop_last()) {
            Some(mods) => with_modifier(trimmed(words.last()), mods),
            None => None,
        }
    }
}

/// The number of the function key that a lower-case word names.
pub open spec fn function_key(word: Seq<char>) -> Option<u8> {
    if word.len() > 1 && word[0] == 'f' && all_digits(word.drop_first()) && digits_value(
        word.drop_first(),
    ) <= 255 {
        Some(digits_value(word.drop_first()) as u8)
    } else {
        None
    }
}

/// The key that a word names, and whether naming it implies Shift: a bare
/// upper-case letter does, where no modifier is written out.
pub open spec fn key_named(word: Seq<char>, bare: bool) -> Option<(KeyCode, bool)> {
    let lower = lowered(word);
    if lower == "enter"@ || lower == "return"@ {
        Some((KeyCode::Enter, false))
    } else if lower == "tab"@ {
        Some((KeyCode::Tab, false))
    } else if lower == "space"@ {
        Some((KeyCode::Char(' '), false))
    } else if lower == "esc"@ || lower == "escape"@ {
        Some((KeyCode::Esc, false))
    } else if lower == "pageup"@ {
        Some((KeyCode::PageUp, false))
    } else if lower == "pagedown"@ {
        Some((KeyCode::PageDown, false))
    } else if lower == "up"@ {
        Some((KeyCode::Up, false))
    } else if lower == "down"@ {
        Some((KeyCode::Down, false))
    } else if lower == "left"@ {
        Some((KeyCode::Left, false))
    } else if lower == "right"@ {
        Some((KeyCode::Right, false))
    } else if lower == "backtab"@ {
        Some((KeyCode::BackTab, false))
    } else if function_key(lower) is Some {
        Some((KeyCode::F(function_key(lower)->0), false))
    } else if word.len() == 1 {
        Some((KeyCode::Char(lower[0]), bare && 'A' <= word[0] <= 'Z'))
    } else {
        None
    }
}

/// What a key spec means: the words before the last `+` are modifiers, the last
/// one is the key.
pub open spec fn spec_meaning(spec: Seq<char>) -> Option<(KeyCode, KeyModifiers)> {
    let words = split(spec, '+');
    let mods = words.drop_last();
    match (modifiers_of(mods), key_named(trimmed(words.last()), mods.len() == 0)) {
        (Some(held), Some((code, shifted))) => Some(
            (code, KeyModifiers { shift: held.shift || shifted, ..held }),
        ),
        _ => None,
    }
}

fn add_modifier(word: &str, mods: KeyModifiers) -> (r: Option<KeyModifiers>)
    ensures
        r == with_modifier(word@, mods),
{
    let word = lower_ascii(word);
    if same(word.as_str(), "ctrl") || same(word.as_str(), "control") {
        Some(KeyModifiers { control: true, ..mods })
    } else if same(word.as_str(), "alt") || same(word.as_str(), "option") {
        Some(KeyModifiers { alt: true, ..mods })
    } else if same(word.as_str(), "shift") {
        Some(KeyModifiers { shift: true, ..mods })
    } else {
        None
    }
}

fn parse_function_key(word: &str) -> (r: Option<u8>)
    ensures
        r == function_key(word@),
{
    let chars = chars_of(word);
    if chars.len() > 1 && chars[0] == 'f' {
        let rest = text_of(&chars, 1, chars.len());
        assert(rest@ =~= word@.drop_first());
        match parse_digits(rest.as_str(), 255) {
            Some(n) => Some(n as u8),
            None => None,
        }
    } else {
        None
    }
}

fn name_key(word: &str, bare: bool) -> (r: Option<(KeyCode, bool)>)
    ensures
        r == key_named(word@, bare),
{
    let lowered_word = lower_ascii(word);
    let lower = lowered_word.as_str();
    if same(lower, "enter") || same(lower, "return") {
        Some((KeyCode::Enter, false))
    } else if same(lower, "tab") {
        Some((KeyCode::Tab, false))
    } else if same(lower, "space") {
        Some((KeyCode::Char(' '), false))
    } else if same(lower, "esc") || same(lower, "escape") {
        Some((KeyCode::Esc, false))
    } else if same(lower, "pageup") {
        Some((KeyCode::PageUp, false))
    } else if same(lower, "pagedown") {
        Some((KeyCode::PageDown, false))
    } else if same(lower, "up") {
        Some((KeyCode::Up, false))
    } else if same(lower, "down") {
        Some((KeyCode::Down, false))
    } else if same(lower, "left") {
        Some((KeyCode::Left, false))
    } else if same(lower, "right") {
        Some((KeyCode::Right, false))
    } else if same(lower, "backtab") {
        Some((KeyCode::BackTab, false))
    } else {
        match parse_function_key(lower) {
            Some(n) => Some((KeyCode::F(n), false)),
            None => {
                let chars = chars_of(word);
                if chars.len() == 1 {
                    let c = chars[0];
                    Some((KeyCode::Char(lower_ascii_char(c)), bare && 'A' <= c && c <= 'Z'))
                } else {
                    None
                }
            },
        }
    }
}

/// Parse a keybinding spec like `"Ctrl+S"`, `"F2"`, `"Alt+Enter"` into a key and
/// its modifiers. Returns `None` for unrecognised specs.
pub fn parse_keyspec(spec: &str) -> (r: Option<(KeyCode, KeyModifiers)>)
    ensures
        r == spec_meaning(spec@),
{
    let words = split_on(spec, '+');
    let last: usize = words.len() - 1;
    let mut mods = KeyModifiers::empty();
    let mut i: usize = 0;
    let ghost names = views(words@).drop_last();
    assert(names.take(0) =~= Seq::empty());
    while i < last
        invariant
            last == words@.len() - 1,
            i <= last,
            names == views(words@).drop_last(),
            modifiers_of(names.take(i as int)) == Some(mods),
            views(words@) == split(spec@, '+'),
        decreases last - i,
    {
        assert(names.take(i + 1).drop_last() =~= names.take(i as int));
        assert(names.take(i + 1).last() == words@[i as int]@);
        match add_modifier(trim(words[i].as_str()).as_str(), mods) {
            Some(held) => {
                mods = held;
            },
            None => {
                proof {
                    lemma_unknown_modifier(names, i + 1);
                }
                return None;
            },
        }
        i = i + 1;
    }
    assert(names.take(last as int) =~= names);
    let key = trim(words[last].as_str());
    assert(views(words@).last() == words@[last as int]@);
    match name_key(key.as_str(), last == 0) {
        Some((code, shifted)) => Some((code, KeyModifiers { shift: mods.shift || shifted, ..mods })),
        None => None,
    }
}

proof fn lemma_unknown_modifier(words: Seq<Seq<char>>, n: int)
    requires
        0 <= n <= words.len(),
        modifiers_of(words.take(n)) is None,
    ensures
        modifiers_of(words) is None,
    decreases words.len() - n,
{
    if n < words.len() {
        assert(words.take(n + 1).drop_last() =~= words.take(n));
        lemma_unknown_modifier(words, n + 1);
    } else {
        assert(words.take(n) =~= words);
    }
}

/// The word that names a key in a spec. A bare letter is written in lower case,
/// since a bare upper-case letter means Shift; with a modifier it is written in
/// upper case.
pub open spec fn key_word(key: KeyEvent) -> Option<Seq<char>> {
    match key.code {
        KeyCode::Enter => Some("Enter"@),
        KeyCode::Tab => Some("Tab"@),
        KeyCode::Char(' ') => Some("Space"@),
        KeyCode::Esc => Some("Esc"@),
        KeyCode::PageUp => Some("PageUp"@),
        KeyCode::PageDown => Some("PageDown"@),
        KeyCode::Up => Some("Up"@),
        KeyCode::Down => Some("Down"@),
        KeyCode::Left => Some("Left"@),
        KeyCode::Right => Some("Right"@),
        KeyCode::BackTab => Some("BackTab"@),
        KeyCode::F(n) => Some("F"@ + decimal(n as nat)),
        KeyCode::Char(c) => Some(
            seq![
                if key.modifiers == KeyModifiers::none() {
                    lower_char(c)
                } else {
                    upper_char(c)
                },
            ],
        ),
        _ => None,
    }
}

/// Whether a key can be bound at all: a spec has words for Ctrl, Alt and Shift
/// alone, `+` stands between its words, and white space round them is trimmed
/// away, so that only the space key has a name.
pub open spec fn bindable(key: KeyEvent) -> bool {
    &&& !key.modifiers.other
    &&& key.code matches KeyCode::Char(c) ==> c == ' ' || (c != '+' && !crate::text::is_space(c))
}

/// Whether Shift is written out: not for a character that is no letter, which
/// Shift has already turned into a character of its own.
pub open spec fn writes_shift(key: KeyEvent) -> bool {
    key.modifiers.shift && match key.code {
        KeyCode::Char(c) => crate::text::is_letter(c),
        _ => true,
    }
}

/// The spec that a key press is written as, if it can be bound.
pub open spec fn spec_of(key: KeyEvent) -> Option<Seq<char>> {
    match key_word(key) {
        Some(word) => if !bindable(key) {
            None
        } else {
            Some(
                (if key.modifiers.control {
                    "Ctrl+"@
                } else {
                    Seq::empty()
                }) + ((if key.modifiers.alt {
                    "Alt+"@
                } else {
                    Seq::empty()
                }) + ((if writes_shift(key) {
                    "Shift+"@
                } else {
                    Seq::empty()
                }) + word)),
            )
        },
        None => None,
    }
}

/// Serialize a key press into a spec string for capturing a binding: what
/// [`parse_keyspec`] reads back. Returns `None` for keys that can't be a binding.
pub fn keyevent_to_spec(key: &KeyEvent) -> (r: Option<String>)
    ensures
        crate::text::opt_view(r) == spec_of(*key),
        r matches Some(spec) ==> spec_meaning(spec@) is Some,
{
    if key.modifiers.other {
        return None;
    }
    if let KeyCode::Char(c) = key.code {
        if c != ' ' && (c == '+' || crate::text::is_whitespace(c)) {
            return None;
        }
    }
    proof {
        if spec_of(*key) is Some {
            captured_key_fits_its_spec(*key);
        }
    }
    let mut word = match key.code {
        KeyCode::Enter => "Enter".to_owned(),
        KeyCode::Tab => "Tab".to_owned(),
        KeyCode::Esc => "Esc".to_owned(),
        KeyCode::PageUp => "PageUp".to_owned(),
        KeyCode::PageDown => "PageDown".to_owned(),
        KeyCode::Up => "Up".to_owned(),
        KeyCode::Down => "Down".to_owned(),
        KeyCode::Left => "Left".to_owned(),
        KeyCode::Right => "Right".to_owned(),
        KeyCode::BackTab => "BackTab".to_owned(),
        KeyCode::F(n) => cat2("F", to_decimal(n as u64).as_str()),
        KeyCode::Char(c) => {
            if c == ' ' {
                "Space".to_owned()
            } else {
                let mut one = String::new();
                if key.modifiers.is_empty() {
                    one.push(lower_ascii_char(c));
                } else {
                    one.push(upper_ascii_char(c));
                }
                assert(one@ =~= key_word(*key)->0);
                one
            }
        },
        _ => {
            return None;
        },
    };
    let letter = match key.code {
        KeyCode::Char(c) => crate::text::is_ascii_letter(c),
        _ => true,
    };
    assert(Seq::<char>::empty() + word@ =~= word@);
    if key.modifiers.shift && letter {
        word = cat2("Shift+", word.as_str());
    }
    assert(Seq::<char>::empty() + word@ =~= word@);
    if key.modifiers.alt {
        word = cat2("Alt+", word.as_str());
    }
    assert(Seq::<char>::empty() + word@ =~= word@);
    if key.modifiers.control {
        word = cat2("Ctrl+", word.as_str());
    }
    Some(word)
}

/// Whether a key press is the key `code` with exactly the modifiers `mods`;
/// letters are compared without regard to case.
pub open spec fn fits(code: KeyCode, mods: KeyModifiers, key: KeyEvent) -> bool {
    key.modifiers == mods && match (code, key.code) {
        (KeyCode::Char(a), KeyCode::Char(b)) => lower_char(a) == lower_char(b),
        (a, b) => a == b,
    }
}

/// Match a parsed spec against an incoming key press.
pub fn keyspec_matches(code: KeyCode, mods: KeyModifiers, key: &KeyEvent) -> (r: bool)
    ensures
        r == fits(code, mods, *key),
{
    let same_code = match (code, key.code) {
        (KeyCode::Char(a), KeyCode::Char(b)) => lower_ascii_char(a) == lower_ascii_char(b),
        (a, b) => a == b,
    };
    same_code && key.modifiers == mods
}

/// Whether a key press is what a spec means.
pub open spec fn spec_fits(spec: Seq<char>, key: KeyEvent) -> bool {
    spec_meaning(spec) matches Some((code, mods)) && fits(code, mods, key)
}

/// A key press as its spec tells it: Shift on a character that is no letter goes,
/// since the character itself shows it.
pub open spec fn as_written(key: KeyEvent) -> KeyEvent {
    KeyEvent { modifiers: KeyModifiers { shift: writes_shift(key), ..key.modifiers }, ..key }
}

proof fn lemma_trim_word(word: Seq<char>)
    requires
        word.len() > 0,
        !crate::text::is_space(word[0]),
        !crate::text::is_space(word.last()),
    ensures
        trimmed(word) == word,
{
}

/// What the word that names a key reads back as.
proof fn lemma_key_word(key: KeyEvent, bare: bool)
    requires
        spec_of(key) is Some,
        key == as_written(key),
        bare ==> !writes_shift(key) && !key.modifiers.control && !key.modifiers.alt,
    ensures
        ({
            let word = key_word(key)->0;
            &&& !word.contains('+')
            &&& trimmed(word) == word
            &&& key_named(word, bare) matches Some((code, shifted)) && !shifted && fits(
                code,
                key.modifiers,
                key,
            )
        }),
{
    reveal_strlit("Enter");
    reveal_strlit("Tab");
    reveal_strlit("Space");
    reveal_strlit("Esc");
    reveal_strlit("PageUp");
    reveal_strlit("PageDown");
    reveal_strlit("Up");
    reveal_strlit("Down");
    reveal_strlit("Left");
    reveal_strlit("Right");
    reveal_strlit("BackTab");
    reveal_strlit("F");
    reveal_strlit("enter");
    reveal_strlit("return");
    reveal_strlit("tab");
    reveal_strlit("space");
    reveal_strlit("esc");
    reveal_strlit("escape");
    reveal_strlit("pageup");
    reveal_strlit("pagedown");
    reveal_strlit("up");
    reveal_strlit("down");
    reveal_strlit("left");
    reveal_strlit("right");
    reveal_strlit("backtab");
    let word = key_word(key)->0;
    let lower = lowered(word);
    match key.code {
        KeyCode::Enter => {
            assert(lower =~= "enter"@);
        },
        KeyCode::Tab => {
            assert(lower =~= "tab"@);
        },
        KeyCode::Char(' ') => {
            assert(lower =~= "space"@);
        },
        KeyCode::Esc => {
            assert(lower =~= "esc"@);
        },
        KeyCode::PageUp => {
            assert(lower =~= "pageup"@);
        },
        KeyCode::PageDown => {
            assert(lower =~= "pagedown"@);
        },
        KeyCode::Up => {
            assert(lower =~= "up"@);
        },
        KeyCode::Down => {
            assert(lower =~= "down"@);
        },
        KeyCode::Left => {
            assert(lower =~= "left"@);
        },
        KeyCode::Right => {
            assert(lower =~= "right"@);
        },
        KeyCode::BackTab => {
            assert(lower =~= "backtab"@);
        },
        KeyCode::F(n) => {
            let digits = decimal(n as nat);
            lemma_decimal_is_digits(n as nat);
            assert(lower[0] == 'f');
            assert(lower.drop_first() =~= digits);
            assert(lower != "enter"@);
            assert(function_key(lower) == Some(n));
            assert forall|i: int| 0 <= i < word.len() implies word[i] != '+'
                && !crate::text::is_space(word[i]) by {
                if i > 0 {
                    assert(word[i] == digits[i - 1]);
                }
            }
            lemma_trim_word(word);
        },
        KeyCode::Char(c) => {
            assert(word.len() == 1);
            assert(lower.len() == 1);
            assert(lower != "up"@);
            lemma_trim_word(word);
        },
        _ => {},
    }
    if !(key.code is F) {
        assert forall|i: int| 0 <= i < word.len() implies word[i] != '+' by {}
        lemma_trim_word(word);
    }
}

proof fn lemma_split_prefix(prefix: Seq<char>, name: Seq<char>, rest: Seq<char>)
    requires
        prefix == name.push('+'),
        !name.contains('+'),
    ensures
        split(prefix + rest, '+') == seq![name] + split(rest, '+'),
{
    crate::text::lemma_split_between(name, rest, '+');
    crate::text::lemma_split_whole(name, '+');
}

/// Capturing a key and matching it agree: the spec that a key press is written
/// as is read back to a key and modifiers that the press fits, but for a Shift
/// that the character itself shows.
pub proof fn captured_key_fits_its_spec(key: KeyEvent)
    requires
        spec_of(key) is Some,
    ensures
        spec_fits(spec_of(key)->0, as_written(key)),
        key.code is Char && key.modifiers.shift && !writes_shift(key) || as_written(key) == key,
{
    let written = as_written(key);
    assert(key_word(written) == key_word(key));
    assert(spec_of(written) == spec_of(key));
    lemma_written_key_fits(written);
}

proof fn lemma_written_key_fits(key: KeyEvent)
    requires
        spec_of(key) is Some,
        key == as_written(key),
    ensures
        spec_fits(spec_of(key)->0, key),
{
    let word = key_word(key)->0;
    let bare = !writes_shift(key) && !key.modifiers.control && !key.modifiers.alt;
    lemma_key_word(key, bare);
    crate::text::lemma_split_whole(word, '+');
    reveal_strlit("Ctrl+");
    reveal_strlit("Alt+");
    reveal_strlit("Shift+");
    reveal_strlit("ctrl");
    reveal_strlit("control");
    reveal_strlit("alt");
    reveal_strlit("option");
    reveal_strlit("shift");
    let ctrl = seq!['C', 't', 'r', 'l'];
    let alt = seq!['A', 'l', 't'];
    let shift = seq!['S', 'h', 'i', 'f', 't'];
    assert("Ctrl+"@ =~= ctrl.push('+'));
    assert("Alt+"@ =~= alt.push('+'));
    assert("Shift+"@ =~= shift.push('+'));
    assert(lowered(ctrl) =~= "ctrl"@);
    assert(lowered(alt) =~= "alt"@);
    assert(lowered(shift) =~= "shift"@);
    lemma_trim_word(ctrl);
    lemma_trim_word(alt);
    lemma_trim_word(shift);
    let none = Seq::<Seq<char>>::empty();
    let tail = if writes_shift(key) {
        "Shift+"@ + word
    } else {
        Seq::empty() + word
    };
    let shift_words = if writes_shift(key) {
        seq![shift]
    } else {
        none
    };
    if writes_shift(key) {
        lemma_split_prefix("Shift+"@, shift, word);
    } else {
        assert(tail =~= word);
    }
    assert(split(tail, '+') =~= shift_words.push(word));
    let middle = if key.modifiers.alt {
        "Alt+"@ + tail
    } else {
        Seq::empty() + tail
    };
    let alt_words = if key.modifiers.alt {
        seq![alt] + shift_words
    } else {
        shift_words
    };
    if key.modifiers.alt {
        lemma_split_prefix("Alt+"@, alt, tail);
    } else {
        assert(middle =~= tail);
    }
    assert(split(middle, '+') =~= alt_words.push(word));
    let whole = spec_of(key)->0;
    let words = if key.modifiers.control {
        seq![ctrl] + alt_words
    } else {
        alt_words
    };
    if key.modifiers.control {
        lemma_split_prefix("Ctrl+"@, ctrl, middle);
    } else {
        assert(whole =~= middle);
    }
    assert(split(whole, '+') =~= words.push(word));
    assert(words.push(word).drop_last() =~= words);
    lemma_modifier_words(
        key.modifiers.control,
        key.modifiers.alt,
        writes_shift(key),
        words,
        ctrl,
        alt,
        shift,
    );
    assert(writes_shift(key) == key.modifiers.shift);
}

proof fn lemma_modifier_words(
    control: bool,
    with_alt: bool,
    with_shift: bool,
    words: Seq<Seq<char>>,
    ctrl: Seq<char>,
    alt: Seq<char>,
    shift: Seq<char>,
)
    requires
        lowered(ctrl) == "ctrl"@,
        lowered(alt) == "alt"@,
        lowered(shift) == "shift"@,
        trimmed(ctrl) == ctrl,
        trimmed(alt) == alt,
        trimmed(shift) == shift,
        words == (if control {
            seq![ctrl]
        } else {
            Seq::empty()
        }) + ((if with_alt {
            seq![alt]
        } else {
            Seq::empty()
        }) + (if with_shift {
            seq![shift]
        } else {
            Seq::empty()
        })),
    ensures
        modifiers_of(words) == Some(
            KeyModifiers { control, alt: with_alt, shift: with_shift, other: false },
        ),
        words.len() == 0 <==> !control && !with_alt && !with_shift,
{
    reveal_strlit("ctrl");
    reveal_strlit("control");
    reveal_strlit("alt");
    reveal_strlit("option");
    reveal_strlit("shift");
    assert("ctrl"@.len() == 4 && "control"@.len() == 7 && "alt"@.len() == 3);
    assert("option"@.len() == 6 && "shift"@.len() == 5);
    reveal_with_fuel(modifiers_of, 4);
    if words.len() > 0 {
        let one = words.drop_last();
        if one.len() > 0 {
            let two = one.drop_last();
            assert(two.len() == 0 || two.drop_last().len() == 0);
        }
    }
}

/// What a key can be bound to.
#[derive(Debug, Clone, Copy, PartialEq, Eq, Structural)]
pub enum KeyAction {
    AddHost,
    AddToAgent,
    AuditFilter,
    AuditRange,
    Broadcast,
    BroadcastCancel,
    Cancel,
    ClearSshLog,
    CollapseAll,
    ConfirmNo,
    ConfirmYes,
    Connect,
    Delete,
    DeleteGroup,
    DetailFocus,
    Duplicate,
    Edit,
    ExportSsh,
    Favorite,
    FocusPanelDown,
    FocusPanelLeft,
    FocusPanelRight,
    FocusPanelUp,
    FoldGroupIn,
    FoldGroupOut,
    ForceQuit,
    GenerateKey,
    GroupsManage,
    Help,
    IdentityColumnsDec,
    IdentityColumnsInc,
    ImportSsh,
    ImportTermius,
    KeybindEditor,
    KnownHosts,
    KnownHostsDelete,
    KnownHostsRefresh,
    LocalShell,
    MoveDown,
    MoveGroupDown,
    MoveGroupUp,
    MoveHostDown,
    MoveHostUp,
    MoveLeft,
    MoveRight,
    MoveUp,
    PushKey,
    Quit,
    RemoveFromAgent,
    RenameGroup,
    Save,
    Search,
    SortCycle,
    TabAudit,
    TabHosts,
    TabKeys,
    TabSftp,
    TabTunnels,
    TagFilter,
    ToggleGroup,
    TogglePanelZoom,
    UiZoomIn,
    UiZoomOut,
    YankLog,
}

/// One row of the keybinding table.
#[derive(Debug, PartialEq, Eq)]
pub struct Binding {
    pub action: KeyAction,
    pub label: String,
    pub specs: Vec<String>,
    pub defaults: Vec<String>,
}

#[verifier::ext_equal]
pub struct BindingView {
    pub action: KeyAction,
    pub label: Seq<char>,
    pub specs: Seq<Seq<char>>,
    pub defaults: Seq<Seq<char>>,
}

impl View for Binding {
    type V = BindingView;

    open spec fn view(&self) -> BindingView {
        BindingView {
            action: self.action,
            label: self.label@,
            specs: views(self.specs@),
            defaults: views(self.defaults@),
        }
    }
}

/// The keybinding table, in the order in which it is shown.
#[derive(Debug, PartialEq, Eq)]
pub struct Keybinds {
    pub rows: Vec<Binding>,
}

impl View for Keybinds {
    type V = Seq<BindingView>;

    open spec fn view(&self) -> Seq<BindingView> {
        views(self.rows@)
    }
}

/// The row of an action: the first one, or `rows.len()` if there is none.
pub open spec fn row_of(rows: Seq<BindingView>, action: KeyAction) -> nat
    decreases rows.len(),
{
    if rows.len() == 0 {
        0
    } else {
        let before = row_of(rows.drop_last(), action);
        if before < rows.len() - 1 {
            before
        } else if rows.last().action == action {
            (rows.len() - 1) as nat
        } else {
            rows.len()
        }
    }
}

/// The specs bound to an action.
pub open spec fn specs_of(rows: Seq<BindingView>, action: KeyAction) -> Seq<Seq<char>> {
    let at = row_of(rows, action);
    if at < rows.len() {
        rows[at as int].specs
    } else {
        Seq::empty()
    }
}

/// The default specs of an action.
pub open spec fn defaults_of(rows: Seq<BindingView>, action: KeyAction) -> Seq<Seq<char>> {
    let at = row_of(rows, action);
    if at < rows.len() {
        rows[at as int].defaults
    } else {
        Seq::empty()
    }
}

/// Whether a key press fits one of the specs.
pub open spec fn fits_one(specs: Seq<Seq<char>>, key: KeyEvent) -> bool {
    exists|i: int| 0 <= i < specs.len() && #[trigger] spec_fits(specs[i], key)
}

/// Whether a key press triggers an action.
pub open spec fn triggers(rows: Seq<BindingView>, action: KeyAction, key: KeyEvent) -> bool {
    fits_one(specs_of(rows, action), key)
}

/// The table with the specs of an action replaced.
pub open spec fn rebound(
    rows: Seq<BindingView>,
    action: KeyAction,
    specs: Seq<Seq<char>>,
) -> Seq<BindingView> {
    let at = row_of(rows, action) as int;
    if at < rows.len() {
        rows.update(at, BindingView { specs, ..rows[at] })
    } else {
        rows
    }
}

/// The specs of an action with one more, unless it is among them.
pub open spec fn with_spec(specs: Seq<Seq<char>>, spec: Seq<char>) -> Seq<Seq<char>> {
    if specs.contains(spec) {
        specs
    } else {
        specs.push(spec)
    }
}

fn clone_texts(texts: &Vec<String>) -> (r: Vec<String>)
    ensures
        views(r@) == views(texts@),
{
    let r = texts.clone();
    proof {
        lemma_views_eq(r@, texts@);
    }
    r
}

impl Keybinds {
    fn find(&self, action: KeyAction) -> (r: usize)
        ensures
            r == row_of(self@, action),
            r <= self.rows@.len(),
    {
        let ghost all = self@;
        let mut found: usize = 0;
        let mut i: usize = 0;
        assert(all.take(0) =~= Seq::empty());
        while i < self.rows.len()
            invariant
                i <= self.rows@.len(),
                all == views(self.rows@),
                found == row_of(all.take(i as int), action),
                found <= i,
            decreases self.rows@.len() - i,
        {
            assert(all.take(i + 1).drop_last() =~= all.take(i as int));
            assert(all.take(i + 1).last() == self.rows@[i as int]@);
            if found == i {
                if self.rows[i].action == action {
                    found = i;
                } else {
                    found = i + 1;
                }
            }
            i = i + 1;
        }
        assert(all.take(self.rows@.len() as int) =~= all);
        found
    }

    /// The specs bound to an action.
    pub fn binds(&self, action: KeyAction) -> (r: Vec<String>)
        ensures
            views(r@) == specs_of(self@, action),
    {
        let at: usize = self.find(action);
        if at < self.rows.len() {
            assert(self@[at as int] == self.rows@[at as int]@);
            clone_texts(&self.rows[at].specs)
        } else {
            Vec::new()
        }
    }

    /// Whether a key press triggers an action.
    pub fn is_bound(&self, action: KeyAction, key: &KeyEvent) -> (r: bool)
        ensures
            r == triggers(self@, action, *key),
    {
        let specs = self.binds(action);
        let ghost all = views(specs@);
        let mut i: usize = 0;
        while i < specs.len()
            invariant
                i <= specs@.len(),
                all == views(specs@),
                all == specs_of(self@, action),
                forall|k: int| 0 <= k < i ==> !#[trigger] spec_fits(all[k], *key),
            decreases specs@.len() - i,
        {
            assert(all[i as int] == specs@[i as int]@);
            if let Some((code, mods)) = parse_keyspec(specs[i].as_str()) {
                if keyspec_matches(code, mods, key) {
                    assert(spec_fits(all[i as int], *key));
                    return true;
                }
            }
            i = i + 1;
        }
        false
    }

    /// Bind an action to exactly these specs.
    pub fn set(&mut self, action: KeyAction, specs: Vec<String>)
        ensures
            final(self)@ == rebound(old(self)@, action, views(specs@)),
    {
        let at: usize = self.find(action);
        let ghost before = self.rows@;
        if at < self.rows.len() {
            let row = &mut self.rows[at];
            row.specs = specs;
            assert(views(self.rows@) =~= rebound(views(before), action, views(specs@)));
        }
    }

    /// Bind an action to one more spec.
    pub fn add(&mut self, action: KeyAction, spec: String)
        ensures
            final(self)@ == rebound(
                old(self)@,
                action,
                with_spec(specs_of(old(self)@, action), spec@),
            ),
    {
        let mut specs = self.binds(action);
        if !crate::app::connect::holds_name(&specs, spec.as_str()) {
            specs.push(spec);
        }
        self.set(action, specs);
    }

    /// The default specs of an action.
    pub fn defaults(&self, action: KeyAction) -> (r: Vec<String>)
        ensures
            views(r@) == defaults_of(self@, action),
    {
        let at: usize = self.find(action);
        if at < self.rows.len() {
            assert(self@[at as int] == self.rows@[at as int]@);
            clone_texts(&self.rows[at].defaults)
        } else {
            Vec::new()
        }
    }

    /// Bind an action to its defaults.
    pub fn reset_action(&mut self, action: KeyAction)
        ensures
            final(self)@ == rebound(old(self)@, action, defaults_of(old(self)@, action)),
    {
        let specs = self.defaults(action);
        self.set(action, specs);
    }
}

} // verus!
