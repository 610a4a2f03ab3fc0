//! Laws of spans, texts, string maps and memory figures.

use crate::config::{map_of, PerformanceConfig, StringMap};
use crate::duration::Duration;
use crate::error::{kafka_result, KlagError};
use crate::memory::{get_rss_kb, read_resident_pages};
use crate::text::{
    all_digits, contains_text, decimal_u64, digits_value, is_digit, is_white_space, occurs,
    occurs_at, same_text, second_word, second_word_u64, split_word, white_len, word_len,
};
use rdkafka::error::KafkaError;
use vstd::arithmetic::power::pow;
use vstd::prelude::*;

verus! {

/// Whether a span is told to be `secs` seconds and `nanos` nanoseconds long.
pub open spec fn told(d: Duration, secs: u64, nanos: u32) -> bool {
    &&& call_ensures(Duration::as_secs, (&d,), secs)
    &&& call_ensures(Duration::subsec_nanos, (&d,), nanos)
}

/// A span is told as it was made.
pub proof fn law_spans_are_told_as_made(
    secs: u64,
    nanos: u32,
    d: Duration,
    told_secs: u64,
    told_nanos: u32,
    millis: u128,
)
    requires
        nanos < 1_000_000_000,
        call_ensures(Duration::new, (secs, nanos), d),
        told(d, told_secs, told_nanos),
        call_ensures(Duration::as_millis, (&d,), millis),
    ensures
        told_secs == secs,
        told_nanos == nanos,
        millis == secs * 1000 + nanos / 1_000_000,
        d@ == secs * 1_000_000_000 + nanos,
{
}

/// A span of whole seconds is told as it was made.
pub proof fn law_seconds_are_told_as_made(
    secs: u64,
    d: Duration,
    told_secs: u64,
    told_nanos: u32,
)
    requires
        call_ensures(Duration::from_secs, (secs,), d),
        told(d, told_secs, told_nanos),
    ensures
        told_secs == secs,
        told_nanos == 0,
        d@ == secs * 1_000_000_000,
{
}

/// What is told of a span is all of it.
pub proof fn law_spans_are_told_in_full(d: Duration, secs: u64, nanos: u32, millis: u128)
    requires
        told(d, secs, nanos),
        call_ensures(Duration::as_millis, (&d,), millis),
    ensures
        d@ == secs * 1_000_000_000 + nanos,
        nanos < 1_000_000_000,
        millis == secs * 1000 + nanos / 1_000_000,
{
}

/// The shorter of two spans is one of them and not longer than either.
pub proof fn law_the_shorter_span(a: Duration, b: Duration, d: Duration)
    requires
        call_ensures(Duration::min, (a, b), d),
    ensures
        d@ <= a@,
        d@ <= b@,
        d@ == a@ || d@ == b@,
{
}

/// A difference is what is missing, a half and another half are the whole but for a
/// nanosecond, and twice a span is the span and once more the span.
pub proof fn law_spans_are_reckoned_with(
    a: Duration,
    b: Duration,
    difference: Duration,
    half: Duration,
    double: Duration,
    longer: bool,
)
    requires
        call_ensures(Duration::minus, (a, b), difference),
        call_ensures(Duration::halved, (a,), half),
        call_ensures(Duration::doubled, (a,), double),
        call_ensures(Duration::exceeds, (&a, &b), longer),
    ensures
        difference@ + b@ == a@,
        half@ + half@ == a@ || half@ + half@ + 1 == a@,
        double@ == a@ + a@,
        longer <==> a@ > b@,
{
}

/// Texts are the same where they have the same characters.
pub proof fn law_same_text(a: &str, b: &str, same: bool)
    requires
        call_ensures(same_text, (a, b), same),
    ensures
        same <==> a@ == b@,
{
}

/// A text contains another where it is that text with something before and after it.
pub proof fn law_contained_text(text: &str, pattern: &str, found: bool)
    requires
        call_ensures(contains_text, (text, pattern), found),
    ensures
        found <==> exists|before: Seq<char>, after: Seq<char>|
            text@ == #[trigger] (before + pattern@ + after),
{
    lemma_occurs(text@, pattern@);
}

/// A pattern occurs where the text is that pattern with something before and after it.
pub proof fn lemma_occurs(text: Seq<char>, pattern: Seq<char>)
    ensures
        occurs(text, pattern) <==> exists|before: Seq<char>, after: Seq<char>|
            text == #[trigger] (before + pattern + after),
{
    if occurs(text, pattern) {
        let at = choose|at: int| occurs_at(text, pattern, at);
        let before = text.take(at);
        let after = text.skip(at + pattern.len());
        assert(text == before + pattern + after);
    }
    if exists|before: Seq<char>, after: Seq<char>| text == #[trigger] (before + pattern + after) {
        let (before, after) = choose|before: Seq<char>, after: Seq<char>|
            text == #[trigger] (before + pattern + after);
        assert(text.subrange(before.len() as int, (before.len() + pattern.len()) as int) == pattern);
        assert(occurs_at(text, pattern, before.len() as int));
    }
}

/// The white space of Unicode, character by character.
pub open spec fn blank(c: char) -> bool {
    ||| c == '\t' || c == '\n' || c == '\u{b}' || c == '\u{c}' || c == '\r'
    ||| c == ' ' || c == '\u{85}' || c == '\u{a0}' || c == '\u{1680}'
    ||| c == '\u{2000}' || c == '\u{2001}' || c == '\u{2002}' || c == '\u{2003}'
    ||| c == '\u{2004}' || c == '\u{2005}' || c == '\u{2006}' || c == '\u{2007}'
    ||| c == '\u{2008}' || c == '\u{2009}' || c == '\u{200a}'
    ||| c == '\u{2028}' || c == '\u{2029}' || c == '\u{202f}' || c == '\u{205f}'
    ||| c == '\u{3000}'
}

/// Whether a text is white space only.
pub open spec fn all_blank(text: Seq<char>) -> bool {
    forall|i: int| 0 <= i < text.len() ==> blank(#[trigger] text[i])
}

/// Whether a text holds no white space.
pub open spec fn solid(text: Seq<char>) -> bool {
    forall|i: int| 0 <= i < text.len() ==> !blank(#[trigger] text[i])
}

/// What a text of digits is worth: every digit by its place.
pub open spec fn worth(digits: Seq<char>) -> int
    decreases digits.len(),
{
    if digits.len() == 0 {
        0
    } else {
        (digits[0] as int - '0' as int) * pow(10, (digits.len() - 1) as nat) + worth(digits.skip(1))
    }
}

/// A word without the plus sign that it may have in front.
pub open spec fn unsigned(word: Seq<char>) -> Seq<char> {
    if word.len() > 0 && word[0] == '+' {
        word.skip(1)
    } else {
        word
    }
}

/// Whether a text is decimal digits only, at least one, worth `n`.
pub open spec fn writes_digits(digits: Seq<char>, n: u64) -> bool {
    &&& digits.len() > 0
    &&& forall|i: int| 0 <= i < digits.len() ==> '0' <= #[trigger] digits[i] <= '9'
    &&& worth(digits) == n
}

/// Whether a word, with or without a plus sign in front, writes the number `n`.
pub open spec fn writes(word: Seq<char>, n: u64) -> bool {
    writes_digits(unsigned(word), n)
}

/// The second of the words that white space sets apart is read as the number that it
/// writes, and as none where it writes none.
pub proof fn law_the_second_word_is_read(
    text: &str,
    number: Option<u64>,
    lead: Seq<char>,
    first: Seq<char>,
    gap: Seq<char>,
    word: Seq<char>,
    rest: Seq<char>,
)
    requires
        call_ensures(second_word_u64, (text,), number),
        text@ == lead + first + gap + word + rest,
        all_blank(lead),
        solid(first) && first.len() > 0,
        all_blank(gap) && gap.len() > 0,
        solid(word) && word.len() > 0,
        rest.len() > 0 ==> blank(rest[0]),
    ensures
        forall|n: u64| number == Some(n) <==> #[trigger] writes(word, n),
        number is None <==> forall|n: u64| !#[trigger] writes(word, n),
{
    lemma_second_word(lead, first, gap, word, rest);
    lemma_writes(word);
}

/// Without a second word there is no number.
pub proof fn law_without_a_second_word_nothing_is_read(
    text: &str,
    number: Option<u64>,
    lead: Seq<char>,
    first: Seq<char>,
    gap: Seq<char>,
)
    requires
        call_ensures(second_word_u64, (text,), number),
        text@ == lead + first + gap,
        all_blank(lead),
        solid(first),
        all_blank(gap),
    ensures
        number is None,
{
    lemma_no_second_word(lead, first, gap);
}

/// The resident memory is four kilobytes for each of the pages that the second word
/// tells, and nothing where it tells none.
pub proof fn law_resident_memory(
    statm: &str,
    kb: u64,
    pages: Option<u64>,
    lead: Seq<char>,
    first: Seq<char>,
    gap: Seq<char>,
    word: Seq<char>,
    rest: Seq<char>,
)
    requires
        call_ensures(get_rss_kb, (Some(statm),), kb),
        call_ensures(read_resident_pages, (Some(statm),), pages),
        statm@ == lead + first + gap + word + rest,
        all_blank(lead),
        solid(first) && first.len() > 0,
        all_blank(gap) && gap.len() > 0,
        solid(word) && word.len() > 0,
        rest.len() > 0 ==> blank(rest[0]),
    ensures
        forall|n: u64| #[trigger] writes(word, n) ==> kb == 4 * n && pages == Some(n),
        (forall|n: u64| !#[trigger] writes(word, n)) ==> kb == 0 && pages is None,
{
    lemma_second_word(lead, first, gap, word, rest);
    lemma_writes(word);
}

/// Without contents, or without a second word in them, no memory is told.
pub proof fn law_no_memory_is_made_up(
    statm: &str,
    kb: u64,
    none_kb: u64,
    none_pages: Option<u64>,
    lead: Seq<char>,
    first: Seq<char>,
    gap: Seq<char>,
)
    requires
        call_ensures(get_rss_kb, (Some(statm),), kb),
        call_ensures(get_rss_kb, (None,), none_kb),
        call_ensures(read_resident_pages, (None,), none_pages),
        statm@ == lead + first + gap,
        all_blank(lead),
        solid(first),
        all_blank(gap),
    ensures
        kb == 0,
        none_kb == 0,
        none_pages is None,
{
    lemma_no_second_word(lead, first, gap);
}

/// Memory can be told of any contents whose pages do not overflow.
pub proof fn law_memory_is_owed(statm: &str, pages: Option<u64>)
    requires
        call_ensures(read_resident_pages, (Some(statm),), pages),
        pages matches Some(n) ==> n <= u64::MAX / 4,
    ensures
        call_requires(get_rss_kb, (Some(statm),)),
        call_requires(get_rss_kb, (None,)),
{
}

proof fn lemma_blank(c: char)
    ensures
        blank(c) == is_white_space(c),
{
}

proof fn lemma_white_len(white: Seq<char>, rest: Seq<char>)
    requires
        all_blank(white),
        rest.len() > 0 ==> !blank(rest[0]),
    ensures
        white_len(white + rest) == white.len(),
    decreases white.len(),
{
    let text = white + rest;
    if white.len() > 0 {
        lemma_blank(white[0]);
        assert(text[0] == white[0]);
        assert(text.skip(1) == white.skip(1) + rest);
        lemma_white_len(white.skip(1), rest);
    } else if rest.len() > 0 {
        lemma_blank(rest[0]);
        assert(text[0] == rest[0]);
    }
}

proof fn lemma_word_len(word: Seq<char>, rest: Seq<char>)
    requires
        solid(word),
        rest.len() > 0 ==> blank(rest[0]),
    ensures
        word_len(word + rest) == word.len(),
    decreases word.len(),
{
    let text = word + rest;
    if word.len() > 0 {
        lemma_blank(word[0]);
        assert(text[0] == word[0]);
        assert(text.skip(1) == word.skip(1) + rest);
        lemma_word_len(word.skip(1), rest);
    } else if rest.len() > 0 {
        lemma_blank(rest[0]);
        assert(text[0] == rest[0]);
    }
}

proof fn lemma_split(white: Seq<char>, word: Seq<char>, rest: Seq<char>)
    requires
        all_blank(white),
        solid(word),
        word.len() == 0 ==> rest.len() == 0,
        rest.len() > 0 ==> blank(rest[0]),
    ensures
        split_word(white + word + rest) == (word, rest),
{
    let text = white + word + rest;
    assert(text == white + (word + rest));
    lemma_white_len(white, word + rest);
    assert(text.skip(white.len() as int) == word + rest);
    lemma_word_len(word, rest);
    assert((word + rest).take(word.len() as int) == word);
    assert((word + rest).skip(word.len() as int) == rest);
}

proof fn lemma_second_word(
    lead: Seq<char>,
    first: Seq<char>,
    gap: Seq<char>,
    word: Seq<char>,
    rest: Seq<char>,
)
    requires
        all_blank(lead),
        solid(first) && first.len() > 0,
        all_blank(gap) && gap.len() > 0,
        solid(word) && word.len() > 0,
        rest.len() > 0 ==> blank(rest[0]),
    ensures
        second_word(lead + first + gap + word + rest) == Some(word),
{
    let tail = gap + word + rest;
    assert(lead + first + gap + word + rest == lead + first + tail);
    assert(tail[0] == gap[0]);
    lemma_split(lead, first, tail);
    lemma_split(gap, word, rest);
}

proof fn lemma_no_second_word(lead: Seq<char>, first: Seq<char>, gap: Seq<char>)
    requires
        all_blank(lead),
        solid(first),
        all_blank(gap),
    ensures
        second_word(lead + first + gap) is None,
{
    let empty = Seq::<char>::empty();
    if first.len() > 0 {
        assert(gap.len() > 0 ==> blank(gap[0]));
        lemma_split(lead, first, gap);
        assert(gap + empty + empty == gap);
        lemma_split(gap, empty, empty);
    } else {
        let white = lead + gap;
        assert(lead + first + gap == white + empty + empty);
        lemma_split(white, empty, empty);
        assert(empty + empty + empty == empty);
        lemma_split(empty, empty, empty);
    }
}

/// A text of digits is worth what it is read as.
proof fn lemma_worth(digits: Seq<char>)
    requires
        all_digits(digits),
    ensures
        worth(digits) == digits_value(digits),
    decreases digits.len(),
{
    if digits.len() > 0 {
        let shorter = digits.drop_last();
        lemma_worth(shorter);
        lemma_worth_push(shorter, digits.last());
        assert(shorter.push(digits.last()) == digits);
        assert(is_digit(digits[digits.len() - 1]));
    }
}

proof fn lemma_worth_push(digits: Seq<char>, last: char)
    ensures
        worth(digits.push(last)) == 10 * worth(digits) + (last as int - '0' as int),
    decreases digits.len(),
{
    let longer = digits.push(last);
    if digits.len() == 0 {
        assert(longer.skip(1) == Seq::<char>::empty());
        vstd::arithmetic::power::lemma_pow0(10);
        assert(worth(longer.skip(1)) == 0);
        assert((last as int - '0' as int) * 1 == last as int - '0' as int);
    } else {
        assert(longer.skip(1) == digits.skip(1).push(last));
        lemma_worth_push(digits.skip(1), last);
        vstd::arithmetic::power::lemma_pow_adds(10, 1, (digits.len() - 1) as nat);
        vstd::arithmetic::power::lemma_pow1(10);
        let d = digits[0] as int - '0' as int;
        let p = pow(10, (digits.len() - 1) as nat);
        assert(pow(10, digits.len()) == 10 * p);
        assert(d * (10 * p) == 10 * (d * p)) by (nonlinear_arith);
    }
}

/// A word is read as the number that it writes.
proof fn lemma_writes(word: Seq<char>)
    ensures
        forall|n: u64| decimal_u64(word) == Some(n) <==> #[trigger] writes(word, n),
        decimal_u64(word) is None <==> forall|n: u64| !#[trigger] writes(word, n),
{
    let digits = unsigned(word);
    if all_digits(digits) {
        lemma_worth(digits);
    }
    assert forall|n: u64| decimal_u64(word) == Some(n) <==> #[trigger] writes(word, n) by {
        if writes_digits(digits, n) {
            assert(all_digits(digits));
        }
        if decimal_u64(word) == Some(n) {
            assert forall|i: int| 0 <= i < digits.len() implies '0' <= #[trigger] digits[i]
                <= '9' by {
                assert(is_digit(digits[i]));
            }
        }
    }
    if decimal_u64(word) is Some {
        assert(writes(word, decimal_u64(word)->0));
    }
}

/// Whether entry `i` is the last one with this key.
pub open spec fn latest(entries: Seq<(String, String)>, key: Seq<char>, i: int) -> bool {
    &&& 0 <= i < entries.len()
    &&& entries[i].0@ == key
    &&& forall|j: int| i < j < entries.len() ==> (#[trigger] entries[j]).0@ != key
}

/// What a sequence of entries maps a key to is told by the last entry with it.
pub proof fn lemma_latest(entries: Seq<(String, String)>, key: Seq<char>)
    ensures
        map_of(entries).contains_key(key) <==> exists|i: int| latest(entries, key, i),
        forall|i: int| #[trigger]
            latest(entries, key, i) ==> map_of(entries)[key] == entries[i].1@,
    decreases entries.len(),
{
    if entries.len() > 0 {
        let earlier = entries.drop_last();
        let end = entries.len() - 1;
        lemma_latest(earlier, key);
        if entries.last().0@ == key {
            assert(latest(entries, key, end));
        } else {
            assert forall|i: int| latest(entries, key, i) implies latest(earlier, key, i) by {
                assert(entries[i].0@ == key);
                assert(i != end);
                assert forall|j: int| i < j < earlier.len() implies (#[trigger] earlier[j]).0@
                    != key by {
                    assert(earlier[j] == entries[j]);
                }
            }
            assert forall|i: int| latest(earlier, key, i) implies latest(entries, key, i) by {
                assert forall|j: int| i < j < entries.len() implies (#[trigger] entries[j]).0@
                    != key by {
                    if j < end {
                        assert(earlier[j] == entries[j]);
                    }
                }
            }
            if map_of(entries).contains_key(key) {
                let i = choose|i: int| latest(earlier, key, i);
                assert(latest(entries, key, i));
            }
        }
    }
}

/// A map gives the value that its key was given last, and none for a key that was never
/// given one.
pub proof fn law_the_last_value_counts(m: &StringMap, key: &str, value: Option<&String>)
    requires
        call_ensures(StringMap::get, (m, key), value),
    ensures
        value is None <==> forall|i: int|
            0 <= i < m.entries@.len() ==> (#[trigger] m.entries@[i]).0@ != key@,
        value matches Some(v) ==> exists|i: int|
            #[trigger] latest(m.entries@, key@, i) && v@ == m.entries@[i].1@,
{
    lemma_latest(m.entries@, key@);
    lemma_key_is_there(m.entries@, key@);
}

pub proof fn lemma_key_is_there(entries: Seq<(String, String)>, key: Seq<char>)
    ensures
        (exists|i: int| latest(entries, key, i)) <==> exists|i: int|
            0 <= i < entries.len() && (#[trigger] entries[i]).0@ == key,
    decreases entries.len(),
{
    if exists|i: int| 0 <= i < entries.len() && (#[trigger] entries[i]).0@ == key {
        if entries.last().0@ == key {
            assert(latest(entries, key, entries.len() - 1));
        } else {
            let k = choose|i: int| 0 <= i < entries.len() && (#[trigger] entries[i]).0@ == key;
            let earlier = entries.drop_last();
            assert(earlier[k].0@ == key);
            lemma_key_is_there(earlier, key);
            let i = choose|i: int| latest(earlier, key, i);
            assert forall|j: int| i < j < entries.len() implies (#[trigger] entries[j]).0@
                != key by {
                if j < earlier.len() {
                    assert(earlier[j] == entries[j]);
                }
            }
            assert(entries[i] == earlier[i]);
            assert(latest(entries, key, i));
        }
    }
    if exists|i: int| latest(entries, key, i) {
        let i = choose|i: int| latest(entries, key, i);
        assert(entries[i].0@ == key);
    }
}

/// A new map has no values, an insertion sets the value of its key and of no other, and a
/// copy has the values of the map.
pub proof fn law_string_maps(
    fresh: StringMap,
    m: &mut StringMap,
    key: String,
    value: String,
    duplicate: StringMap,
    asked: &str,
    in_fresh: Option<&String>,
    before: Option<&String>,
    later: Option<&String>,
    in_duplicate: Option<&String>,
)
    requires
        call_ensures(StringMap::new, (), fresh),
        call_ensures(StringMap::insert, (m, key, value), ()),
        call_ensures(<StringMap as Clone>::clone, (old(m),), duplicate),
        call_ensures(StringMap::get, (&fresh, asked), in_fresh),
        call_ensures(StringMap::get, (old(m), asked), before),
        call_ensures(StringMap::get, (final(m), asked), later),
        call_ensures(StringMap::get, (&duplicate, asked), in_duplicate),
    ensures
        in_fresh is None,
        asked@ == key@ ==> (later matches Some(v) && v@ == value@),
        asked@ != key@ ==> match before {
            Some(v) => later matches Some(w) && w@ == v@,
            None => later is None,
        },
        match before {
            Some(v) => in_duplicate matches Some(w) && w@ == v@,
            None => in_duplicate is None,
        },
{
}

/// The limits and timeouts of an exporter that is told none.
pub proof fn law_default_limits(p: PerformanceConfig)
    requires
        call_ensures(PerformanceConfig::default, (), p),
    ensures
        p.kafka_timeout@ == 30_000_000_000,
        p.offset_fetch_timeout@ == 10_000_000_000,
        p.max_concurrent_groups == 10,
        p.max_concurrent_watermarks == 50,
        p.client_recycle_interval == 50,
{
}

/// A Kafka call that succeeded keeps its value, and one that failed its error.
pub proof fn law_kafka_outcomes_are_kept<T>(
    outcome: Result<T, KafkaError>,
    result: Result<T, KlagError>,
)
    requires
        call_ensures(kafka_result, (outcome,), result),
    ensures
        outcome matches Ok(value) ==> (result matches Ok(v) && v == value),
        outcome matches Err(e) ==> (result matches Err(KlagError::Kafka(k)) && k == e),
{
}

} // verus!
