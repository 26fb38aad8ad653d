//! Text primitives: the handful of string operations the rest of the library
//! is written with, each stated over the characters of its arguments.

use vstd::prelude::*;

verus! {

/// `String::push` appends one character.
pub assume_specification[ String::push ](s: &mut String, c: char)
    ensures
        final(s)@ == old(s)@.push(c),
;

/// `String::pop` removes and returns the last character, or returns `None` and
/// leaves an empty string as it is.
pub assume_specification[ String::pop ](s: &mut String) -> (r: Option<char>)
    ensures
        old(s)@.len() == 0 ==> r is None && final(s)@ == old(s)@,
        old(s)@.len() > 0 ==> r == Some(old(s)@.last()) && final(s)@ == old(s)@.drop_last(),
;

/// What `str::to_lowercase` makes of a text: the Unicode lower-case mapping,
/// which no short formula describes.
pub uninterp spec fn lowercase(s: Seq<char>) -> Seq<char>;

/// `str::to_lowercase`: the result is the lower-case mapping of the argument.
pub assume_specification[ str::to_lowercase ](s: &str) -> (r: String)
    ensures
        r@ == lowercase(s@),
;

/// `std::str::from_utf8`, keeping only whether the bytes are UTF-8 and, if so,
/// the text that they encode.
#[verifier::external_body]
pub(crate) fn decode_utf8(bytes: &[u8]) -> (r: Option<String>)
    ensures
        r is Some <==> vstd::utf8::valid_utf8(bytes@),
        r matches Some(s) ==> vstd::utf8::encode_utf8(s@) == bytes@,
{
    std::str::from_utf8(bytes).ok().map(str::to_owned)
}

/// The views of a sequence of values, position by position.
#[verifier::opaque]
pub open spec fn views<T: View>(s: Seq<T>) -> Seq<T::V> {
    Seq::new(s.len(), |i: int| s[i]@)
}

/// The view of an optional value.
pub open spec fn opt_view<T: View>(o: Option<T>) -> Option<T::V> {
    match o {
        Some(v) => Some(v@),
        None => None,
    }
}

pub broadcast proof fn lemma_views_len<T: View>(s: Seq<T>)
    ensures
        #[trigger] views(s).len() == s.len(),
{
    reveal(views);
}

pub broadcast proof fn lemma_views_index<T: View>(s: Seq<T>, i: int)
    requires
        0 <= i < s.len(),
    ensures
        #[trigger] views(s)[i] == s[i]@,
{
    reveal(views);
}

pub broadcast proof fn lemma_views_push<T: View>(s: Seq<T>, x: T)
    ensures
        #[trigger] views(s.push(x)) == views(s).push(x@),
{
    reveal(views);
    assert(views(s.push(x)) =~= views(s).push(x@));
}

pub broadcast proof fn lemma_views_empty<T: View>(s: Seq<T>)
    ensures
        s.len() == 0 ==> #[trigger] views(s) == Seq::<T::V>::empty(),
{
    reveal(views);
    if s.len() == 0 {
        assert(views(s) =~= Seq::<T::V>::empty());
    }
}

pub broadcast proof fn lemma_views_insert<T: View>(s: Seq<T>, i: int, x: T)
    requires
        0 <= i <= s.len(),
    ensures
        #[trigger] views(s.insert(i, x)) == views(s).insert(i, x@),
{
    reveal(views);
    assert(views(s.insert(i, x)) =~= views(s).insert(i, x@));
}

pub broadcast proof fn lemma_views_remove<T: View>(s: Seq<T>, i: int)
    requires
        0 <= i < s.len(),
    ensures
        #[trigger] views(s.remove(i)) == views(s).remove(i),
{
    reveal(views);
    assert(views(s.remove(i)) =~= views(s).remove(i));
}

pub broadcast proof fn lemma_views_subrange<T: View>(s: Seq<T>, i: int, j: int)
    requires
        0 <= i <= j <= s.len(),
    ensures
        #[trigger] views(s.subrange(i, j)) == views(s).subrange(i, j),
{
    reveal(views);
    assert(views(s.subrange(i, j)) =~= views(s).subrange(i, j));
}

pub broadcast proof fn lemma_views_add<T: View>(s: Seq<T>, t: Seq<T>)
    ensures
        #[trigger] views(s + t) == views(s) + views(t),
{
    reveal(views);
    assert(views(s + t) =~= views(s) + views(t));
}

pub broadcast group group_views {
    lemma_views_len,
    lemma_views_index,
    lemma_views_push,
    lemma_views_empty,
    lemma_views_insert,
    lemma_views_remove,
    lemma_views_subrange,
    lemma_views_add,
}

/// Two vectors whose elements have equal views position by position have equal
/// `views`.
pub proof fn lemma_views_eq<T: View>(s: Seq<T>, t: Seq<T>)
    requires
        s.len() == t.len(),
        forall|i: int| 0 <= i < s.len() ==> (#[trigger] s[i])@ == t[i]@,
    ensures
        views(s) == views(t),
{
    reveal(views);
    assert(views(s) =~= views(t));
}

/// The characters of `s`.
pub fn chars_of(s: &str) -> (r: Vec<char>)
    ensures
        r@ == s@,
{
    let mut out: Vec<char> = Vec::new();
    for c in it: s.chars()
        invariant
            it.seq() == s@,
            out@ == s@.take(it.index()),
    {
        out.push(c);
        assert(s@.take(it.index() + 1) =~= s@.take(it.index()).push(s@[it.index()]));
    }
    assert(s@.take(s@.len() as int) =~= s@);
    out
}

/// The text made of the characters `from..to` of `v`.
pub fn text_of(v: &Vec<char>, from: usize, to: usize) -> (r: String)
    requires
        from <= to <= v@.len(),
    ensures
        r@ == v@.subrange(from as int, to as int),
{
    let mut out = String::new();
    let mut i: usize = from;
    while i < to
        invariant
            from <= i <= to <= v@.len(),
            out@ == v@.subrange(from as int, i as int),
        decreases to - i,
    {
        out.push(v[i]);
        assert(v@.subrange(from as int, i + 1) =~= v@.subrange(from as int, i as int).push(
            v@[i as int],
        ));
        i = i + 1;
    }
    out
}

/// The characters of a text as single bytes, for text that is ASCII.
pub open spec fn bytes_of(s: Seq<char>) -> Seq<u8> {
    Seq::new(s.len(), |i: int| s[i] as u8)
}

pub fn to_bytes(s: &str) -> (r: Vec<u8>)
    ensures
        r@ == bytes_of(s@),
{
    let v = chars_of(s);
    let mut out: Vec<u8> = Vec::new();
    let mut i: usize = 0;
    while i < v.len()
        invariant
            v@ == s@,
            i <= v@.len(),
            out@ == bytes_of(s@).take(i as int),
        decreases v@.len() - i,
    {
        out.push(v[i] as u8);
        i = i + 1;
    }
    out
}

/// The number of characters in a text.
pub fn len(s: &str) -> (r: usize)
    ensures
        r == s@.len(),
{
    chars_of(s).len()
}

/// Whether two texts have the same characters.
pub fn same(a: &str, b: &str) -> (r: bool)
    ensures
        r == (a@ == b@),
{
    a.to_owned() == b.to_owned()
}

pub fn cat2(a: &str, b: &str) -> (r: String)
    ensures
        r@ == a@ + b@,
{
    let mut s = a.to_owned();
    s.append(b);
    s
}

pub fn cat3(a: &str, b: &str, c: &str) -> (r: String)
    ensures
        r@ == a@ + b@ + c@,
{
    let mut s = cat2(a, b);
    s.append(c);
    s
}

pub fn cat4(a: &str, b: &str, c: &str, d: &str) -> (r: String)
    ensures
        r@ == a@ + b@ + c@ + d@,
{
    let mut s = cat3(a, b, c);
    s.append(d);
    s
}

pub fn cat5(a: &str, b: &str, c: &str, d: &str, e: &str) -> (r: String)
    ensures
        r@ == a@ + b@ + c@ + d@ + e@,
{
    let mut s = cat4(a, b, c, d);
    s.append(e);
    s
}

/// The characters with the Unicode `White_Space` property.
pub open spec fn is_space(c: char) -> bool {
    let n = c as u32;
    ||| 0x09 <= n <= 0x0d
    ||| n == 0x20
    ||| n == 0x85
    ||| n == 0xa0
    ||| n == 0x1680
    ||| 0x2000 <= n <= 0x200a
    ||| n == 0x2028
    ||| n == 0x2029
    ||| n == 0x202f
    ||| n == 0x205f
    ||| n == 0x3000
}

pub fn is_whitespace(c: char) -> (r: bool)
    ensures
        r == is_space(c),
{
    let n: u32 = c as u32;
    (0x09 <= n && n <= 0x0d) || n == 0x20 || n == 0x85 || n == 0xa0 || n == 0x1680 || (0x2000 <= n
        && n <= 0x200a) || n == 0x2028 || n == 0x2029 || n == 0x202f || n == 0x205f || n == 0x3000
}

/// The characters of the Unicode general category `Cc`.
pub open spec fn control(c: char) -> bool {
    (c as u32) < 0x20 || 0x7f <= c as u32 <= 0x9f
}

pub fn is_control(c: char) -> (r: bool)
    ensures
        r == control(c),
{
    let n: u32 = c as u32;
    n < 0x20 || (0x7f <= n && n <= 0x9f)
}

pub open spec fn trim_start(s: Seq<char>) -> Seq<char>
    decreases s.len(),
{
    if s.len() > 0 && is_space(s[0]) {
        trim_start(s.drop_first())
    } else {
        s
    }
}

pub open spec fn trim_end(s: Seq<char>) -> Seq<char>
    decreases s.len(),
{
    if s.len() > 0 && is_space(s.last()) {
        trim_end(s.drop_last())
    } else {
        s
    }
}

/// `s` without its leading and trailing white space.
pub open spec fn trimmed(s: Seq<char>) -> Seq<char> {
    trim_end(trim_start(s))
}

pub fn trim(s: &str) -> (r: String)
    ensures
        r@ == trimmed(s@),
{
    let v = chars_of(s);
    let mut from: usize = 0;
    assert(s@.skip(0) =~= s@);
    while from < v.len() && is_whitespace(v[from])
        invariant
            v@ == s@,
            from <= v@.len(),
            trim_start(s@) == trim_start(s@.skip(from as int)),
        decreases v@.len() - from,
    {
        assert(s@.skip(from as int).drop_first() =~= s@.skip(from + 1));
        from = from + 1;
    }
    let ghost left = s@.skip(from as int);
    assert(trim_start(s@) == left);
    let mut to: usize = v.len();
    assert(s@.subrange(from as int, to as int) =~= left);
    while from < to && is_whitespace(v[to - 1])
        invariant
            v@ == s@,
            from <= to <= v@.len(),
            trim_end(left) == trim_end(s@.subrange(from as int, to as int)),
        decreases to,
    {
        assert(s@.subrange(from as int, to as int).drop_last() =~= s@.subrange(
            from as int,
            to - 1,
        ));
        to = to - 1;
    }
    text_of(&v, from, to)
}

/// The pieces of `s` between occurrences of `sep`, always at least one.
pub open spec fn split(s: Seq<char>, sep: char) -> Seq<Seq<char>>
    decreases s.len(),
{
    if s.len() == 0 {
        seq![Seq::<char>::empty()]
    } else {
        let rest = split(s.drop_last(), sep);
        if s.last() == sep {
            rest.push(Seq::<char>::empty())
        } else {
            rest.update(rest.len() - 1, rest.last().push(s.last()))
        }
    }
}

pub proof fn lemma_split_nonempty(s: Seq<char>, sep: char)
    ensures
        split(s, sep).len() >= 1,
    decreases s.len(),
{
    if s.len() > 0 {
        lemma_split_nonempty(s.drop_last(), sep);
    }
}

/// The pieces of two texts with a separator between them are those of the one
/// and those of the other.
pub proof fn lemma_split_between(a: Seq<char>, b: Seq<char>, sep: char)
    ensures
        split(a.push(sep) + b, sep) == split(a, sep) + split(b, sep),
    decreases b.len(),
{
    let whole = a.push(sep) + b;
    lemma_split_nonempty(a, sep);
    lemma_split_nonempty(b, sep);
    if b.len() == 0 {
        assert(whole =~= a.push(sep));
        assert(a.push(sep).drop_last() =~= a);
        assert(split(whole, sep) =~= split(a, sep) + split(b, sep));
    } else {
        let rest = b.drop_last();
        assert(whole.drop_last() =~= a.push(sep) + rest);
        lemma_split_between(a, rest, sep);
        lemma_split_nonempty(rest, sep);
        assert(split(whole, sep) =~= split(a, sep) + split(b, sep));
    }
}

/// A text without the separator is one piece.
pub proof fn lemma_split_whole(s: Seq<char>, sep: char)
    requires
        !s.contains(sep),
    ensures
        split(s, sep) == seq![s],
    decreases s.len(),
{
    if s.len() > 0 {
        let rest = s.drop_last();
        assert forall|i: int| 0 <= i < rest.len() implies rest[i] != sep by {
            assert(rest[i] == s[i]);
        }
        lemma_split_whole(rest, sep);
        assert(s.contains(s[s.len() - 1]));
        assert(rest.push(s.last()) =~= s);
        assert(split(s, sep) =~= seq![s]);
    } else {
        assert(s =~= Seq::empty());
    }
}

pub fn split_on(s: &str, sep: char) -> (r: Vec<String>)
    ensures
        views(r@) == split(s@, sep),
        r@.len() >= 1,
{
    broadcast use group_views;

    let v = chars_of(s);
    let mut out: Vec<String> = Vec::new();
    let mut word = String::new();
    let mut i: usize = 0;
    assert(split(s@.take(0), sep) =~= views(out@).push(word@));
    while i < v.len()
        invariant
            v@ == s@,
            i <= v@.len(),
            split(s@.take(i as int), sep) == views(out@).push(word@),
        decreases v@.len() - i,
    {
        broadcast use group_views;

        let c = v[i];
        assert(s@.take(i + 1).drop_last() =~= s@.take(i as int));
        assert(s@.take(i + 1).last() == c);
        let ghost before = split(s@.take(i as int), sep);
        if c == sep {
            out.push(word);
            word = String::new();
            assert(word@ =~= Seq::<char>::empty());
            assert(split(s@.take(i + 1), sep) =~= views(out@).push(word@));
        } else {
            word.push(c);
            assert(before.update(before.len() - 1, before.last().push(c)) =~= views(out@).push(
                word@,
            ));
        }
        i = i + 1;
    }
    assert(s@.take(v@.len() as int) =~= s@);
    out.push(word);
    out
}

/// The digit `d` in a base of at most ten.
pub open spec fn digit(d: nat) -> char {
    ('0' as u32 + d) as char
}

/// `n` written in `base`, without leading zeros.
pub open spec fn numeral(n: nat, base: nat) -> Seq<char>
    decreases n,
    when base >= 2
    via numeral_decreases
{
    if n < base {
        seq![digit(n)]
    } else {
        numeral(n / base, base).push(digit(n % base))
    }
}

#[via_fn]
proof fn numeral_decreases(n: nat, base: nat) {
    assert(n >= base && base >= 2 ==> n / base < n) by (nonlinear_arith);
}

/// `n` in decimal.
pub open spec fn decimal(n: nat) -> Seq<char> {
    numeral(n, 10)
}

fn digit_char(d: u64) -> (c: char)
    requires
        d < 10,
    ensures
        c == digit(d as nat),
{
    match d {
        0 => '0',
        1 => '1',
        2 => '2',
        3 => '3',
        4 => '4',
        5 => '5',
        6 => '6',
        7 => '7',
        8 => '8',
        _ => '9',
    }
}

fn push_numeral(out: &mut String, n: u64, base: u64)
    requires
        2 <= base <= 10,
    ensures
        final(out)@ == old(out)@ + numeral(n as nat, base as nat),
    decreases n,
{
    if n < base {
        out.push(digit_char(n));
        assert(old(out)@.push(digit(n as nat)) =~= old(out)@ + numeral(n as nat, base as nat));
    } else {
        assert(n / base < n) by (nonlinear_arith)
            requires
                n >= base,
                base >= 2,
        ;
        assert(n % base < base) by (nonlinear_arith)
            requires
                base >= 2,
        ;
        push_numeral(out, n / base, base);
        out.push(digit_char(n % base));
        assert(out@ =~= old(out)@ + numeral(n as nat, base as nat));
    }
}

pub fn to_decimal(n: u64) -> (r: String)
    ensures
        r@ == decimal(n as nat),
{
    let mut s = String::new();
    push_numeral(&mut s, n, 10);
    assert(s@ =~= decimal(n as nat));
    s
}

pub fn to_octal(n: u64) -> (r: String)
    ensures
        r@ == numeral(n as nat, 8),
{
    let mut s = String::new();
    push_numeral(&mut s, n, 8);
    assert(s@ =~= numeral(n as nat, 8));
    s
}

/// Whether `c` is one of the letters `a` to `z` or `A` to `Z`.
pub open spec fn is_letter(c: char) -> bool {
    'a' <= c <= 'z' || 'A' <= c <= 'Z'
}

pub fn is_ascii_letter(c: char) -> (r: bool)
    ensures
        r == is_letter(c),
{
    ('a' <= c && c <= 'z') || ('A' <= c && c <= 'Z')
}

/// An ASCII upper-case letter in lower case, any other character as it is.
pub open spec fn lower_char(c: char) -> char {
    if 'A' <= c <= 'Z' {
        (c as u32 + 32) as char
    } else {
        c
    }
}

/// An ASCII lower-case letter in upper case, any other character as it is.
pub open spec fn upper_char(c: char) -> char {
    if 'a' <= c <= 'z' {
        (c as u32 - 32) as char
    } else {
        c
    }
}

pub fn lower_ascii_char(c: char) -> (r: char)
    ensures
        r == lower_char(c),
{
    if 'A' <= c && c <= 'Z' {
        ((c as u8) + 32) as char
    } else {
        c
    }
}

pub fn upper_ascii_char(c: char) -> (r: char)
    ensures
        r == upper_char(c),
{
    if 'a' <= c && c <= 'z' {
        ((c as u8) - 32) as char
    } else {
        c
    }
}

/// A text with its ASCII letters in lower case.
pub open spec fn lowered(s: Seq<char>) -> Seq<char> {
    Seq::new(s.len(), |i: int| lower_char(s[i]))
}

pub fn lower_ascii(s: &str) -> (r: String)
    ensures
        r@ == lowered(s@),
{
    let v = chars_of(s);
    let mut out = String::new();
    let mut i: usize = 0;
    assert(out@ =~= lowered(s@).take(0));
    while i < v.len()
        invariant
            v@ == s@,
            i <= v@.len(),
            out@ == lowered(s@).take(i as int),
        decreases v@.len() - i,
    {
        out.push(lower_ascii_char(v[i]));
        i = i + 1;
        assert(out@ =~= lowered(s@).take(i as int));
    }
    assert(out@ =~= lowered(s@));
    out
}

pub open spec fn is_digit(c: char) -> bool {
    '0' <= c <= '9'
}

/// Whether a text is made of decimal digits, at least one.
pub open spec fn all_digits(s: Seq<char>) -> bool {
    s.len() > 0 && forall|i: int| 0 <= i < s.len() ==> is_digit(#[trigger] s[i])
}

/// The number that a digit stands for.
pub open spec fn digit_of(c: char) -> nat {
    (c as int - '0' as int) as nat
}

/// The number that digits in `base` stand for.
pub open spec fn value_in(s: Seq<char>, base: nat) -> nat
    decreases s.len(),
{
    if s.len() == 0 {
        0
    } else {
        value_in(s.drop_last(), base) * base + digit_of(s.last())
    }
}

/// The number that decimal digits stand for.
pub open spec fn digits_value(s: Seq<char>) -> nat {
    value_in(s, 10)
}

/// Whether a text is made of digits below `base`, at least one.
pub open spec fn all_digits_in(s: Seq<char>, base: nat) -> bool {
    s.len() > 0 && forall|i: int| 0 <= i < s.len() ==> is_digit(#[trigger] s[i]) && digit_of(
        s[i],
    ) < base
}

/// A number that is written out is read back as the same number.
pub proof fn numerals_are_read_back(n: nat, base: nat)
    requires
        2 <= base <= 10,
    ensures
        all_digits_in(numeral(n, base), base),
        value_in(numeral(n, base), base) == n,
    decreases n,
{
    reveal_with_fuel(value_in, 2);
    let s = numeral(n, base);
    if n < base {
        assert(s.drop_last() =~= Seq::empty());
        assert(s.last() == digit(n));
        assert(value_in(Seq::<char>::empty(), base) * base == 0) by (nonlinear_arith)
            requires
                value_in(Seq::<char>::empty(), base) == 0,
        ;
    } else {
        assert(n / base < n && n == (n / base) * base + n % base && n % base < base)
            by (nonlinear_arith)
            requires
                n >= base,
                base >= 2,
        ;
        let before = numeral(n / base, base);
        numerals_are_read_back(n / base, base);
        assert(s.drop_last() =~= before);
        assert forall|i: int| 0 <= i < s.len() implies is_digit(#[trigger] s[i]) && digit_of(s[i])
            < base by {
            if i < before.len() {
                assert(s[i] == before[i]);
            }
        }
    }
}

/// The number that digits in `base` stand for, unless the text is something
/// else or the number is over `max`.
pub fn parse_in(s: &str, base: u64, max: u64) -> (r: Option<u64>)
    requires
        2 <= base <= 10,
    ensures
        r == if all_digits_in(s@, base as nat) && value_in(s@, base as nat) <= max {
            Some(value_in(s@, base as nat) as u64)
        } else {
            None
        },
{
    let v = chars_of(s);
    if v.len() == 0 {
        return None;
    }
    let mut n: u128 = 0;
    let mut over = false;
    let mut i: usize = 0;
    assert(s@.take(0) =~= Seq::empty());
    while i < v.len()
        invariant
            v@ == s@,
            2 <= base <= 10,
            i <= v@.len(),
            forall|k: int|
                0 <= k < i ==> is_digit(#[trigger] s@[k]) && digit_of(s@[k]) < base,
            over ==> value_in(s@.take(i as int), base as nat) > max,
            !over ==> n == value_in(s@.take(i as int), base as nat) && n <= max,
        decreases v@.len() - i,
    {
        let c = v[i];
        if c < '0' || c > '9' || (c as u64) - 48 >= base {
            return None;
        }
        assert(s@.take(i + 1).drop_last() =~= s@.take(i as int));
        let ghost before = value_in(s@.take(i as int), base as nat);
        assert(before <= before * (base as nat)) by (nonlinear_arith)
            requires
                base >= 2,
        ;
        if !over {
            assert(n * (base as u128) <= 0xffff_ffff_ffff_ffff * 10) by (nonlinear_arith)
                requires
                    n <= 0xffff_ffff_ffff_ffff,
                    base <= 10,
            ;
            n = n * (base as u128) + ((c as u128) - 48);
            if n > max as u128 {
                over = true;
            }
        }
        i = i + 1;
    }
    assert(s@.take(v@.len() as int) =~= s@);
    if over {
        None
    } else {
        Some(n as u64)
    }
}

pub fn parse_digits(s: &str, max: u64) -> (r: Option<u64>)
    ensures
        r == if all_digits(s@) && digits_value(s@) <= max {
            Some(digits_value(s@) as u64)
        } else {
            None
        },
{
    let r = parse_in(s, 10, max);
    assert(all_digits(s@) ==> all_digits_in(s@, 10));
    r
}

/// A number in decimal is made of digits and stands for itself.
pub proof fn lemma_decimal_is_digits(n: nat)
    ensures
        all_digits(decimal(n)),
        digits_value(decimal(n)) == n,
    decreases n,
{
    if n < 10 {
        reveal_with_fuel(value_in, 2);
        assert(decimal(n).drop_last() =~= Seq::empty());
    } else {
        lemma_decimal_is_digits(n / 10);
        let rest = decimal(n / 10);
        assert(decimal(n).drop_last() =~= rest);
        assert forall|i: int| 0 <= i < decimal(n).len() implies is_digit(
            #[trigger] decimal(n)[i],
        ) by {
            if i < rest.len() {
                assert(decimal(n)[i] == rest[i]);
            }
        }
    }
}

/// An integer in decimal, with a minus sign where it is negative.
pub open spec fn integer(n: int) -> Seq<char> {
    if n < 0 {
        "-"@ + decimal((-n) as nat)
    } else {
        decimal(n as nat)
    }
}

pub fn show_integer(n: i64) -> (r: String)
    ensures
        r@ == integer(n as int),
{
    if n < 0 {
        cat2("-", to_decimal(magnitude(n)).as_str())
    } else {
        to_decimal(n as u64)
    }
}

/// The distance of an integer from zero.
pub fn magnitude(n: i64) -> (r: u64)
    ensures
        r == if n < 0 {
            -(n as int)
        } else {
            n as int
        },
{
    if n >= 0 {
        n as u64
    } else if n == i64::MIN {
        9223372036854775808u64
    } else {
        (-n) as u64
    }
}

/// Whether `part` occurs in `whole` at position `at`.
pub open spec fn occurs_at(whole: Seq<char>, part: Seq<char>, at: int) -> bool {
    0 <= at && at + part.len() <= whole.len() && whole.subrange(at, at + part.len()) == part
}

/// Whether `part` occurs in `whole`.
pub open spec fn occurs_in(whole: Seq<char>, part: Seq<char>) -> bool {
    exists|at: int| #[trigger] occurs_at(whole, part, at)
}

pub fn contains_text(whole: &str, part: &str) -> (r: bool)
    ensures
        r == occurs_in(whole@, part@),
{
    let w = chars_of(whole);
    let n: usize = len(part);
    if n > w.len() {
        return false;
    }
    let total: usize = w.len();
    let last: usize = total - n;
    let mut at: usize = 0;
    loop
        invariant
            w@ == whole@,
            n == part@.len(),
            total == w@.len(),
            n <= total,
            last == total - n,
            at <= last,
            forall|k: int| 0 <= k < at ==> !#[trigger] occurs_at(whole@, part@, k),
        decreases last - at,
    {
        let here = text_of(&w, at, at + n);
        if same(here.as_str(), part) {
            assert(occurs_at(whole@, part@, at as int));
            return true;
        }
        if at == last {
            return false;
        }
        at = at + 1;
    }
}

/// Whether `s` begins with `prefix`.
pub open spec fn begins_with(s: Seq<char>, prefix: Seq<char>) -> bool {
    prefix.len() <= s.len() && s.take(prefix.len() as int) == prefix
}

pub fn has_prefix(s: &str, prefix: &str) -> (r: bool)
    ensures
        r == begins_with(s@, prefix@),
{
    let v = chars_of(s);
    let n: usize = len(prefix);
    if n > v.len() {
        return false;
    }
    let head = text_of(&v, 0, n);
    assert(head@ =~= s@.take(n as int));
    same(head.as_str(), prefix)
}

pub fn starts_with_char(s: &str, c: char) -> (r: bool)
    ensures
        r == (s@.len() > 0 && s@[0] == c),
{
    let v = chars_of(s);
    v.len() > 0 && v[0] == c
}

/// Whether a text holds the character `c`.
pub fn holds_char(s: &str, c: char) -> (r: bool)
    ensures
        r == s@.contains(c),
{
    let v = chars_of(s);
    let mut i: usize = 0;
    while i < v.len()
        invariant
            v@ == s@,
            i <= v@.len(),
            forall|k: int| 0 <= k < i ==> s@[k] != c,
        decreases v@.len() - i,
    {
        if v[i] == c {
            return true;
        }
        i = i + 1;
    }
    false
}

} // verus!
