//! Text as a sequence of characters: equality, search, words and decimal numbers.

use vstd::prelude::*;
use vstd::std_specs::iter::IteratorSpec;

verus! {

/// Whether `pattern` stands in `text` from position `at` on.
pub open spec fn occurs_at(text: Seq<char>, pattern: Seq<char>, at: int) -> bool {
    &&& 0 <= at
    &&& at + pattern.len() <= text.len()
    &&& text.subrange(at, at + pattern.len()) == pattern
}

/// Whether `pattern` stands anywhere in `text`.
pub open spec fn occurs(text: Seq<char>, pattern: Seq<char>) -> bool {
    exists|at: int| occurs_at(text, pattern, at)
}

/// The characters of `text`, in order.
pub fn chars_of(text: &str) -> (chars: Vec<char>)
    ensures
        chars@ == text@,
{
    let mut chars: Vec<char> = Vec::new();
    for c in it: text.chars()
        invariant
            it.seq() == text@,
            chars@ == it.seq().take(it.index()),
    {
        chars.push(c);
    }
    assert(text@.take(text@.len() as int) == text@);
    chars
}

/// Whether two texts hold the same characters.
pub fn same_text(a: &str, b: &str) -> (same: bool)
    ensures
        same == (a@ == b@),
{
    let mut left = a.chars();
    let mut right = b.chars();
    let ghost mut at: int = 0;
    loop
        invariant
            0 <= at <= a@.len(),
            at <= b@.len(),
            a@.take(at) == b@.take(at),
            left.obeys_prophetic_iter_laws(),
            right.obeys_prophetic_iter_laws(),
            left.remaining() == a@.skip(at),
            right.remaining() == b@.skip(at),
        decreases a@.len() - at,
    {
        match (left.next(), right.next()) {
            (Some(x), Some(y)) => {
                assert(x == a@[at] && y == b@[at]);
                if x != y {
                    return false;
                }
                proof {
                    assert(a@.take(at + 1) == a@.take(at).push(x));
                    assert(b@.take(at + 1) == b@.take(at).push(y));
                    assert(a@.skip(at).drop_first() == a@.skip(at + 1));
                    assert(b@.skip(at).drop_first() == b@.skip(at + 1));
                    at = at + 1;
                }
            },
            (None, None) => {
                assert(a@.take(at) == a@ && b@.take(at) == b@);
                return true;
            },
            _ => {
                assert(a@.len() != b@.len());
                return false;
            },
        }
    }
}

/// Whether `pattern` stands in `text` from position `at` on.
fn matches_at(text: &Vec<char>, pattern: &Vec<char>, at: usize) -> (found: bool)
    requires
        at + pattern.len() <= text.len(),
    ensures
        found == occurs_at(text@, pattern@, at as int),
{
    for i in 0..pattern.len()
        invariant
            at + pattern.len() <= text.len(),
            forall|j: int| 0 <= j < i ==> text@[at + j] == #[trigger] pattern@[j],
    {
        if text[at + i] != pattern[i] {
            assert(text@.subrange(at as int, at + pattern.len())[i as int] != pattern@[i as int]);
            return false;
        }
    }
    assert(text@.subrange(at as int, at + pattern.len()) == pattern@);
    true
}

/// Whether `pattern` stands anywhere in `text`.
pub fn contains_text(text: &str, pattern: &str) -> (found: bool)
    ensures
        found == occurs(text@, pattern@),
{
    let haystack = chars_of(text);
    let needle = chars_of(pattern);
    if needle.len() > haystack.len() {
        return false;
    }
    let last: usize = haystack.len() - needle.len();
    let mut at: usize = 0;
    while at <= last
        invariant
            haystack@ == text@,
            needle@ == pattern@,
            last == haystack.len() - needle.len(),
            at <= last + 1,
            forall|j: int| 0 <= j < at ==> !occurs_at(text@, pattern@, j),
        decreases last + 1 - at,
    {
        if matches_at(&haystack, &needle, at) {
            return true;
        }
        if at == last {
            return false;
        }
        at = at + 1;
    }
    false
}

/// The characters with Unicode's `White_Space` property.
pub open spec fn is_white_space(c: char) -> bool {
    let code = c as u32;
    ||| 0x09 <= code <= 0x0d
    ||| code == 0x20
    ||| code == 0x85
    ||| code == 0xa0
    ||| code == 0x1680
    ||| 0x2000 <= code <= 0x200a
    ||| code == 0x2028
    ||| code == 0x2029
    ||| code == 0x202f
    ||| code == 0x205f
    ||| code == 0x3000
}

/// How many white-space characters `text` starts with.
pub open spec fn white_len(text: Seq<char>) -> nat
    decreases text.len(),
{
    if text.len() > 0 && is_white_space(text[0]) {
        1 + white_len(text.skip(1))
    } else {
        0
    }
}

/// How many characters `text` starts with that are no white space.
pub open spec fn word_len(text: Seq<char>) -> nat
    decreases text.len(),
{
    if text.len() > 0 && !is_white_space(text[0]) {
        1 + word_len(text.skip(1))
    } else {
        0
    }
}

/// The first run of characters without white space, and what follows it.
pub open spec fn split_word(text: Seq<char>) -> (Seq<char>, Seq<char>) {
    let rest = text.skip(white_len(text) as int);
    let len = word_len(rest) as int;
    (rest.take(len), rest.skip(len))
}

/// The second of the words that white space sets apart in `text`, if there are two.
pub open spec fn second_word(text: Seq<char>) -> Option<Seq<char>> {
    let word = split_word(split_word(text).1).0;
    if word.len() == 0 {
        None
    } else {
        Some(word)
    }
}

/// Whether `c` is one of the decimal digits `0` to `9`.
pub open spec fn is_digit(c: char) -> bool {
    '0' <= c <= '9'
}

/// The number that a sequence of decimal digits writes.
pub open spec fn digits_value(digits: Seq<char>) -> nat
    decreases digits.len(),
{
    if digits.len() == 0 {
        0
    } else {
        10 * digits_value(digits.drop_last()) + (digits.last() as nat - '0' as nat) as nat
    }
}

/// Whether every character of `text` is a decimal digit.
pub open spec fn all_digits(text: Seq<char>) -> bool {
    forall|i: int| 0 <= i < text.len() ==> is_digit(#[trigger] text[i])
}

/// The number that `text` writes, where it is digits only, at least one, of a
/// value that a `u64` holds.
pub open spec fn plain_u64(text: Seq<char>) -> Option<u64> {
    if text.len() > 0 && all_digits(text) && digits_value(text) <= u64::MAX {
        Some(digits_value(text) as u64)
    } else {
        None
    }
}

/// The number that `text` writes, with or without a `+` in front.
pub open spec fn decimal_u64(text: Seq<char>) -> Option<u64> {
    if text.len() > 0 && text[0] == '+' {
        plain_u64(text.skip(1))
    } else {
        plain_u64(text)
    }
}

/// Whether `c` has Unicode's `White_Space` property.
fn white_space(c: char) -> (white: bool)
    ensures
        white == is_white_space(c),
{
    let code = c as u32;
    (0x09 <= code && code <= 0x0d) || code == 0x20 || code == 0x85 || code == 0xa0 || code == 0x1680
        || (0x2000 <= code && code <= 0x200a) || code == 0x2028 || code == 0x2029 || code == 0x202f
        || code == 0x205f || code == 0x3000
}

/// The position of the first character from `from` on that is no white space.
fn skip_white(text: &Vec<char>, from: usize) -> (end: usize)
    requires
        from <= text.len(),
    ensures
        from <= end <= text.len(),
        end == from + white_len(text@.skip(from as int)),
{
    let mut end: usize = from;
    while end < text.len() && white_space(text[end])
        invariant
            from <= end <= text.len(),
            from + white_len(text@.skip(from as int)) == end + white_len(text@.skip(end as int)),
        decreases text.len() - end,
    {
        assert(text@.skip(end as int).skip(1) == text@.skip(end + 1));
        end = end + 1;
    }
    end
}

/// The position of the first white space from `from` on.
fn skip_word(text: &Vec<char>, from: usize) -> (end: usize)
    requires
        from <= text.len(),
    ensures
        from <= end <= text.len(),
        end == from + word_len(text@.skip(from as int)),
{
    let mut end: usize = from;
    while end < text.len() && !white_space(text[end])
        invariant
            from <= end <= text.len(),
            from + word_len(text@.skip(from as int)) == end + word_len(text@.skip(end as int)),
        decreases text.len() - end,
    {
        assert(text@.skip(end as int).skip(1) == text@.skip(end + 1));
        end = end + 1;
    }
    end
}

/// The number that the characters from `from` up to `to` write.
fn digits_u64(text: &Vec<char>, from: usize, to: usize) -> (number: Option<u64>)
    requires
        from <= to <= text.len(),
    ensures
        number == plain_u64(text@.subrange(from as int, to as int)),
{
    let ghost digits = text@.subrange(from as int, to as int);
    if from == to {
        return None;
    }
    let mut value: u64 = 0;
    let mut at: usize = from;
    while at < to
        invariant
            from <= at <= to <= text.len(),
            digits == text@.subrange(from as int, to as int),
            forall|i: int| 0 <= i < at - from ==> is_digit(#[trigger] digits[i]),
            value == digits_value(digits.take(at - from)),
        decreases to - at,
    {
        let c = text[at];
        assert(c == digits[at - from]);
        if c < '0' || '9' < c {
            assert(!is_digit(digits[at - from]));
            return None;
        }
        let digit: u64 = c as u64 - '0' as u64;
        proof {
            assert(digits.take(at - from + 1).drop_last() == digits.take(at - from));
            assert(digits_value(digits.take(at - from + 1)) == 10 * value + digit);
            lemma_prefix_value(digits, at - from + 1);
        }
        if value > (u64::MAX - digit) / 10 {
            return None;
        }
        value = value * 10 + digit;
        at = at + 1;
    }
    assert(digits.take(to - from) == digits);
    Some(value)
}

/// Digits never write a smaller number than their first `len` do.
proof fn lemma_prefix_value(digits: Seq<char>, len: int)
    requires
        0 <= len <= digits.len(),
    ensures
        digits_value(digits.take(len)) <= digits_value(digits),
    decreases digits.len() - len,
{
    if len == digits.len() {
        assert(digits.take(len) == digits);
    } else {
        lemma_prefix_value(digits, len + 1);
        assert(digits.take(len + 1).drop_last() == digits.take(len));
    }
}

/// The second of the words that white space sets apart in `text`, read as a
/// decimal number.
pub fn second_word_u64(text: &str) -> (number: Option<u64>)
    ensures
        number == match second_word(text@) {
            Some(word) => decimal_u64(word),
            None => None,
        },
{
    let chars = chars_of(text);
    let first: usize = skip_white(&chars, 0);
    let gap: usize = skip_word(&chars, first);
    let from: usize = skip_white(&chars, gap);
    let to: usize = skip_word(&chars, from);
    assert(text@.skip(0) == text@);
    let ghost rest = split_word(text@).1;
    assert(rest == text@.skip(gap as int));
    assert(rest.skip(white_len(rest) as int) == text@.skip(from as int));
    let ghost word = split_word(rest).0;
    assert(word == text@.subrange(from as int, to as int));
    if from == to {
        return None;
    }
    if chars[from] == '+' {
        assert(word.skip(1) == text@.subrange(from + 1, to as int));
        digits_u64(&chars, from + 1, to)
    } else {
        digits_u64(&chars, from, to)
    }
}

} // verus!
