//! Strings as sequences of characters: the few operations on text that the rest of the library is
//! built from.
use vstd::prelude::*;

use crate::seqs;

verus! {

/// `String::push`: the character is appended to the end of the string.
pub assume_specification[ String::push ](s: &mut String, c: char)
    ensures
        final(s)@ == old(s)@.push(c),
;

/// The contents of an optional string.
pub open spec fn opt_text(value: Option<String>) -> Option<Seq<char>> {
    match value {
        Some(text) => Some(text@),
        None => None,
    }
}

/// The contents of an optional string, or `fallback` where there is none.
pub open spec fn text_or(value: Option<String>, fallback: Seq<char>) -> Seq<char> {
    match value {
        Some(text) => text@,
        None => fallback,
    }
}

/// The characters of a string.
pub fn chars_of(s: &str) -> (chars: Vec<char>)
    ensures
        chars@ == s@,
{
    let mut chars: Vec<char> = Vec::new();
    for c in it: s.chars()
        invariant
            it.seq() == s@,
            chars@ == s@.take(it.index()),
    {
        assert(s@.take(it.index() + 1) =~= s@.take(it.index()).push(c));
        chars.push(c);
    }
    assert(s@.take(s@.len() as int) =~= s@);
    chars
}

/// The string made of the characters from `from` up to but not including `to`.
pub fn string_of(chars: &Vec<char>, from: usize, to: usize) -> (s: String)
    requires
        from <= to <= chars@.len(),
    ensures
        s@ == chars@.subrange(from as int, to as int),
{
    let mut s = String::new();
    let mut i: usize = from;
    while i < to
        invariant
            from <= i <= to <= chars@.len(),
            s@ == chars@.subrange(from as int, i as int),
        decreases to - i,
    {
        s.push(chars[i]);
        i = i + 1;
        assert(chars@.subrange(from as int, i as int) =~= chars@.subrange(
            from as int,
            i as int - 1,
        ).push(chars@[i as int - 1]));
    }
    s
}

/// Whether two strings hold the same characters.
pub fn same_text(a: &str, b: &str) -> (same: bool)
    ensures
        same == (a@ == b@),
{
    let left = a.to_owned();
    let right = b.to_owned();
    left == right
}

/// Whether two optional strings are both absent or hold the same characters.
pub fn same_opt_text(a: &Option<String>, b: &Option<String>) -> (same: bool)
    ensures
        same == (opt_text(*a) == opt_text(*b)),
{
    match (a, b) {
        (Some(a), Some(b)) => *a == *b,
        (None, None) => true,
        _ => false,
    }
}

/// The same optional string.
pub fn copy_opt_text(value: &Option<String>) -> (copied: Option<String>)
    ensures
        copied == *value,
{
    match value {
        Some(text) => Some(text.clone()),
        None => None,
    }
}

/// The decimal digit of a number below ten.
pub open spec fn digit(n: nat) -> char {
    (0x30 + n) as char
}

/// The decimal notation of a number, without leading zeros.
pub open spec fn spec_decimal(n: nat) -> Seq<char>
    decreases n,
{
    if n < 10 {
        seq![digit(n)]
    } else {
        spec_decimal(n / 10).push(digit(n % 10))
    }
}

/// The decimal digit of a number below ten.
fn digit_char(n: u64) -> (c: char)
    requires
        n < 10,
    ensures
        c == digit(n as nat),
{
    (0x30 + n as u8) as char
}

/// The decimal notation of a number, without leading zeros.
pub fn decimal(n: u64) -> (text: String)
    ensures
        text@ == spec_decimal(n as nat),
    decreases n,
{
    if n < 10 {
        let mut text = String::new();
        text.push(digit_char(n));
        text
    } else {
        let mut text = decimal(n / 10);
        text.push(digit_char(n % 10));
        text
    }
}

/// Characters with the Unicode property White_Space.
pub open spec fn is_white(c: char) -> bool {
    let code = c as u32;
    ||| 0x09 <= code <= 0x0D
    ||| code == 0x20
    ||| code == 0x85
    ||| code == 0xA0
    ||| code == 0x1680
    ||| 0x2000 <= code <= 0x200A
    ||| code == 0x2028
    ||| code == 0x2029
    ||| code == 0x202F
    ||| code == 0x205F
    ||| code == 0x3000
}

/// Whether a character has the Unicode property White_Space.
pub fn is_whitespace(c: char) -> (white: bool)
    ensures
        white == is_white(c),
{
    let code: u32 = c as u32;
    (0x09 <= code && code <= 0x0D) || code == 0x20 || code == 0x85 || code == 0xA0 || code == 0x1680
        || (0x2000 <= code && code <= 0x200A) || code == 0x2028 || code == 0x2029 || code == 0x202F
        || code == 0x205F || code == 0x3000
}

/// Whether a string holds nothing but white space.
pub open spec fn is_blank(s: Seq<char>) -> bool {
    forall|i: int| 0 <= i < s.len() ==> is_white(#[trigger] s[i])
}

/// Whether a string holds nothing but white space.
pub fn all_whitespace(s: &str) -> (blank: bool)
    ensures
        blank == is_blank(s@),
{
    let chars = chars_of(s);
    let mut i: usize = 0;
    while i < chars.len()
        invariant
            i <= chars@.len(),
            chars@ == s@,
            forall|j: int| 0 <= j < i ==> is_white(#[trigger] s@[j]),
        decreases chars@.len() - i,
    {
        if !is_whitespace(chars[i]) {
            assert(!is_white(s@[i as int]));
            return false;
        }
        i = i + 1;
    }
    true
}

/// A string without the white space at its start.
pub open spec fn trimmed_start(s: Seq<char>) -> Seq<char>
    decreases s.len(),
{
    if s.len() > 0 && is_white(s[0]) {
        trimmed_start(s.skip(1))
    } else {
        s
    }
}

/// A string without the white space at its end.
pub open spec fn trimmed_end(s: Seq<char>) -> Seq<char>
    decreases s.len(),
{
    if s.len() > 0 && is_white(s.last()) {
        trimmed_end(s.drop_last())
    } else {
        s
    }
}

/// A string without the white space at either end.
pub open spec fn trimmed(s: Seq<char>) -> Seq<char> {
    trimmed_end(trimmed_start(s))
}

/// A string without the characters `c` at its start.
pub open spec fn without_leading(s: Seq<char>, c: char) -> Seq<char>
    decreases s.len(),
{
    if s.len() > 0 && s[0] == c {
        without_leading(s.skip(1), c)
    } else {
        s
    }
}

/// A string without the white space at its start.
pub fn trim_start(s: &str) -> (rest: String)
    ensures
        rest@ == trimmed_start(s@),
{
    let chars = chars_of(s);
    let mut i: usize = 0;
    assert(s@.skip(0) =~= s@);
    while i < chars.len() && is_whitespace(chars[i])
        invariant
            i <= chars@.len(),
            chars@ == s@,
            trimmed_start(s@.skip(i as int)) == trimmed_start(s@),
        decreases chars@.len() - i,
    {
        assert(s@.skip(i as int).skip(1) =~= s@.skip(i as int + 1));
        i = i + 1;
    }
    assert(chars@.subrange(i as int, chars@.len() as int) =~= s@.skip(i as int));
    string_of(&chars, i, chars.len())
}

/// A string without the white space at its end.
pub fn trim_end(s: &str) -> (rest: String)
    ensures
        rest@ == trimmed_end(s@),
{
    let chars = chars_of(s);
    let mut n: usize = chars.len();
    assert(s@.take(s@.len() as int) =~= s@);
    while n > 0 && is_whitespace(chars[n - 1])
        invariant
            n <= chars@.len(),
            chars@ == s@,
            trimmed_end(s@.take(n as int)) == trimmed_end(s@),
        decreases n,
    {
        assert(s@.take(n as int).drop_last() =~= s@.take(n as int - 1));
        n = n - 1;
    }
    assert(chars@.subrange(0, n as int) =~= s@.take(n as int));
    string_of(&chars, 0, n)
}

/// A string without the white space at either end.
pub fn trim(s: &str) -> (rest: String)
    ensures
        rest@ == trimmed(s@),
{
    let start = trim_start(s);
    trim_end(start.as_str())
}

/// A string without the characters `c` at its start.
pub fn strip_leading(s: &str, c: char) -> (rest: String)
    ensures
        rest@ == without_leading(s@, c),
{
    let chars = chars_of(s);
    let mut i: usize = 0;
    assert(s@.skip(0) =~= s@);
    while i < chars.len() && chars[i] == c
        invariant
            i <= chars@.len(),
            chars@ == s@,
            without_leading(s@.skip(i as int), c) == without_leading(s@, c),
        decreases chars@.len() - i,
    {
        assert(s@.skip(i as int).skip(1) =~= s@.skip(i as int + 1));
        i = i + 1;
    }
    assert(chars@.subrange(i as int, chars@.len() as int) =~= s@.skip(i as int));
    string_of(&chars, i, chars.len())
}

/// Position of the first white space.
pub open spec fn first_white(s: Seq<char>) -> Option<int> {
    seqs::first_where(s, |c: char| is_white(c))
}

/// The part of a string before its first white space.
pub open spec fn before_white(s: Seq<char>) -> Seq<char> {
    match first_white(s) {
        Some(i) => s.take(i),
        None => s,
    }
}

/// The part of a string after its first white space; empty where it has none.
pub open spec fn after_white(s: Seq<char>) -> Seq<char> {
    match first_white(s) {
        Some(i) => s.skip(i + 1),
        None => Seq::empty(),
    }
}

/// Splits a string at its first white space.
pub fn split_at_white(s: &str) -> (parts: (String, String))
    ensures
        parts.0@ == before_white(s@),
        parts.1@ == after_white(s@),
{
    let chars = chars_of(s);
    let ghost white = |c: char| is_white(c);
    let mut i: usize = 0;
    while i < chars.len()
        invariant
            i <= chars@.len(),
            chars@ == s@,
            white == (|c: char| is_white(c)),
            forall|j: int| 0 <= j < i ==> !white(#[trigger] s@[j]),
        decreases chars@.len() - i,
    {
        if is_whitespace(chars[i]) {
            proof {
                seqs::lemma_first_where_is(s@, white, i as int);
                assert(chars@.subrange(0, i as int) =~= s@.take(i as int));
                assert(chars@.subrange(i as int + 1, chars@.len() as int) =~= s@.skip(
                    i as int + 1,
                ));
            }
            return (string_of(&chars, 0, i), string_of(&chars, i + 1, chars.len()));
        }
        i = i + 1;
    }
    proof {
        seqs::lemma_first_where(s@, white);
        assert(chars@.subrange(0, chars@.len() as int) =~= s@);
    }
    (string_of(&chars, 0, chars.len()), String::new())
}

/// The words of a string: what lies between stretches of white space.
pub open spec fn words(s: Seq<char>) -> Seq<Seq<char>>
    decreases s.len(),
{
    if s.len() == 0 {
        Seq::empty()
    } else if is_white(s[0]) {
        words(s.skip(1))
    } else {
        match first_white(s) {
            Some(i) => if 0 < i < s.len() {
                seq![s.take(i)] + words(s.skip(i))
            } else {
                seq![s]
            },
            None => seq![s],
        }
    }
}

/// The `n`th word of a string, counted from zero.
pub fn nth_word(s: &str, n: usize) -> (word: Option<String>)
    ensures
        match word {
            Some(word) => n < words(s@).len() && word@ == words(s@)[n as int],
            None => n >= words(s@).len(),
        },
    decreases n,
{
    let start = trim_start(s);
    proof {
        lemma_words_skip_leading_white(s@);
    }
    if start.as_str().is_empty() {
        return None;
    }
    proof {
        lemma_trimmed_start_is_not_white(s@);
        seqs::lemma_first_where(start@, |c: char| is_white(c));
    }
    let (word, rest) = split_at_white(start.as_str());
    proof {
        match first_white(start@) {
            Some(i) => {
                assert(start@.skip(i).skip(1) =~= start@.skip(i + 1));
                assert(words(start@) == seq![start@.take(i)] + words(start@.skip(i)));
                assert(words(start@.skip(i)) == words(start@.skip(i + 1)));
            },
            None => {
                assert(words(rest@) =~= Seq::empty());
                assert(words(start@) =~= seq![start@] + words(rest@));
            },
        }
    }
    if n == 0 {
        Some(word)
    } else {
        nth_word(rest.as_str(), n - 1)
    }
}

proof fn lemma_words_skip_leading_white(s: Seq<char>)
    ensures
        words(trimmed_start(s)) == words(s),
    decreases s.len(),
{
    if s.len() > 0 && is_white(s[0]) {
        lemma_words_skip_leading_white(s.skip(1));
    }
}

proof fn lemma_trimmed_start_is_not_white(s: Seq<char>)
    ensures
        trimmed_start(s).len() > 0 ==> !is_white(trimmed_start(s)[0]),
    decreases s.len(),
{
    if s.len() > 0 && is_white(s[0]) {
        lemma_trimmed_start_is_not_white(s.skip(1));
    }
}

/// An ASCII capital as a small letter; any other character as it is.
pub open spec fn lower(c: char) -> char {
    if 'A' <= c <= 'Z' {
        (c as u32 + 32) as char
    } else {
        c
    }
}

/// A string with its ASCII capitals as small letters.
pub open spec fn lowered(s: Seq<char>) -> Seq<char> {
    Seq::new(s.len(), |i: int| lower(s[i]))
}

fn lower_char(c: char) -> (small: char)
    ensures
        small == lower(c),
{
    if 'A' <= c && c <= 'Z' {
        (c as u8 + 32) as char
    } else {
        c
    }
}

/// A string with its ASCII capitals as small letters.
pub fn to_ascii_lowercase(s: &str) -> (small: String)
    ensures
        small@ == lowered(s@),
{
    let chars = chars_of(s);
    let mut small = String::new();
    let mut i: usize = 0;
    while i < chars.len()
        invariant
            i <= chars@.len(),
            chars@ == s@,
            small@ == lowered(s@).take(i as int),
        decreases chars@.len() - i,
    {
        small.push(lower_char(chars[i]));
        i = i + 1;
        assert(lowered(s@).take(i as int) =~= lowered(s@).take(i as int - 1).push(
            lowered(s@)[i as int - 1],
        ));
    }
    assert(lowered(s@).take(s@.len() as int) =~= lowered(s@));
    small
}

/// Whether two strings are the same but for the case of ASCII letters.
pub fn eq_ignore_ascii_case(a: &str, b: &str) -> (same: bool)
    ensures
        same == (lowered(a@) == lowered(b@)),
{
    let left = to_ascii_lowercase(a);
    let right = to_ascii_lowercase(b);
    left == right
}

/// Value of a sequence of decimal digits.
pub open spec fn digits_value(s: Seq<char>) -> nat
    decreases s.len(),
{
    if s.len() == 0 {
        0
    } else {
        digits_value(s.drop_last()) * 10 + (s.last() as u32 - 0x30) as nat
    }
}

/// Whether a string is made of decimal digits, at least one.
pub open spec fn is_number(s: Seq<char>) -> bool {
    s.len() > 0 && forall|i: int| 0 <= i < s.len() ==> '0' <= #[trigger] s[i] <= '9'
}

/// A string without one plus sign at its start.
pub open spec fn without_plus(s: Seq<char>) -> Seq<char> {
    if s.len() > 0 && s[0] == '+' {
        s.skip(1)
    } else {
        s
    }
}

/// The number that a string writes down in decimal digits, with or without a plus sign.
pub open spec fn unsigned(s: Seq<char>) -> Option<nat> {
    if is_number(without_plus(s)) {
        Some(digits_value(without_plus(s)))
    } else {
        None
    }
}

proof fn lemma_digits_value_grows(s: Seq<char>, n: int)
    requires
        0 <= n <= s.len(),
        forall|i: int| 0 <= i < s.len() ==> '0' <= #[trigger] s[i] <= '9',
    ensures
        digits_value(s.take(n)) <= digits_value(s),
    decreases s.len() - n,
{
    if n < s.len() {
        lemma_digits_value_grows(s, n + 1);
        assert(s.take(n + 1).drop_last() =~= s.take(n));
    } else {
        assert(s.take(n) =~= s);
    }
}

/// The number that a string writes down, where it fits.
pub fn parse_usize(s: &str) -> (number: Option<usize>)
    ensures
        match number {
            Some(number) => unsigned(s@) == Some(number as nat),
            None => unsigned(s@) is None || unsigned(s@)->0 > usize::MAX,
        },
{
    let chars = chars_of(s);
    let start: usize = if chars.len() > 0 && chars[0] == '+' {
        1
    } else {
        0
    };
    let ghost body = without_plus(s@);
    assert(body =~= s@.skip(start as int));
    if start >= chars.len() {
        return None;
    }
    let mut i: usize = start;
    let mut value: usize = 0;
    let mut fits = true;
    while i < chars.len()
        invariant
            start <= i <= chars@.len(),
            chars@ == s@,
            body == s@.skip(start as int),
            body == without_plus(s@),
            forall|j: int| 0 <= j < i - start ==> '0' <= #[trigger] body[j] <= '9',
            fits ==> value == digits_value(body.take(i - start)),
            !fits ==> digits_value(body.take(i - start)) > usize::MAX,
        decreases chars@.len() - i,
    {
        let c = chars[i];
        assert(body[i - start] == c);
        if c < '0' || '9' < c {
            assert(!is_number(body));
            return None;
        }
        let digit: usize = (c as u32 - 0x30) as usize;
        assert(body.take(i - start + 1).drop_last() =~= body.take(i - start));
        if fits {
            match value.checked_mul(10) {
                Some(tens) => match tens.checked_add(digit) {
                    Some(sum) => {
                        value = sum;
                    },
                    None => {
                        fits = false;
                    },
                },
                None => {
                    fits = false;
                },
            }
        }
        i = i + 1;
    }
    assert(body.take(body.len() as int) =~= body);
    if fits {
        Some(value)
    } else {
        None
    }
}

/// What `decimal` writes, `parse_usize` reads back.
pub proof fn law_decimal_is_read_back(n: nat)
    ensures
        unsigned(spec_decimal(n)) == Some(n),
        is_number(spec_decimal(n)),
        digits_value(spec_decimal(n)) == n,
    decreases n,
{
    assert(digit(n % 10) as u32 == 0x30 + n % 10);
    if n < 10 {
        assert(spec_decimal(n).drop_last() =~= Seq::empty());
        assert(digits_value(Seq::<char>::empty()) == 0);
        assert(spec_decimal(n).last() == digit(n % 10));
    } else {
        law_decimal_is_read_back(n / 10);
        assert(spec_decimal(n).drop_last() =~= spec_decimal(n / 10));
        assert forall|i: int| 0 <= i < spec_decimal(n).len() implies '0' <= #[trigger] spec_decimal(
            n,
        )[i] <= '9' by {
            if i < spec_decimal(n).len() - 1 {
                assert(spec_decimal(n)[i] == spec_decimal(n / 10)[i]);
            }
        }
    }
    assert(spec_decimal(n)[0] != '+');
}

/// Whether one string comes before another, character by character.
pub open spec fn text_lt(a: Seq<char>, b: Seq<char>) -> bool
    decreases a.len(),
{
    if b.len() == 0 {
        false
    } else if a.len() == 0 {
        true
    } else if a[0] != b[0] {
        a[0] < b[0]
    } else {
        text_lt(a.skip(1), b.skip(1))
    }
}

/// Whether one string comes before another, character by character.
pub fn comes_before(a: &str, b: &str) -> (before: bool)
    ensures
        before == text_lt(a@, b@),
{
    let left = chars_of(a);
    let right = chars_of(b);
    let mut i: usize = 0;
    assert(a@.skip(0) =~= a@);
    assert(b@.skip(0) =~= b@);
    while i < left.len() && i < right.len()
        invariant
            i <= left@.len(),
            i <= right@.len(),
            left@ == a@,
            right@ == b@,
            text_lt(a@, b@) == text_lt(a@.skip(i as int), b@.skip(i as int)),
        decreases left@.len() - i,
    {
        if left[i] != right[i] {
            return left[i] < right[i];
        }
        assert(a@.skip(i as int).skip(1) =~= a@.skip(i as int + 1));
        assert(b@.skip(i as int).skip(1) =~= b@.skip(i as int + 1));
        i = i + 1;
    }
    i < right.len()
}

/// Strings are strictly and totally ordered.
pub proof fn law_text_order_is_total(a: Seq<char>, b: Seq<char>, c: Seq<char>)
    ensures
        !text_lt(a, a),
        text_lt(a, b) ==> !text_lt(b, a),
        a == b || text_lt(a, b) || text_lt(b, a),
        text_lt(a, b) && text_lt(b, c) ==> text_lt(a, c),
    decreases a.len() + b.len() + c.len(),
{
    if a.len() > 0 && b.len() > 0 {
        if c.len() > 0 {
            law_text_order_is_total(a.skip(1), b.skip(1), c.skip(1));
        } else {
            law_text_order_is_total(a.skip(1), b.skip(1), c);
        }
        if a[0] == b[0] && a.skip(1) == b.skip(1) {
            assert(a =~= seq![a[0]] + a.skip(1));
            assert(b =~= seq![b[0]] + b.skip(1));
        }
    } else {
        if a.len() == 0 && b.len() == 0 {
            assert(a =~= b);
        }
        if a.len() > 0 {
            law_text_order_is_total(a.skip(1), b, c);
        }
    }
}

/// What the `Debug` of a `str` writes: the text in quotation marks, with escapes.
pub uninterp spec fn debug_of(s: Seq<char>) -> Seq<char>;

/// The `Debug` of a `str`, by `format!`.
#[verifier::external_body]
pub(crate) fn debug_text(s: &str) -> (text: String)
    ensures
        text@ == debug_of(s@),
{
    format!("{s:?}")
}

/// Whether a string holds another one, in one piece.
pub open spec fn holds(s: Seq<char>, part: Seq<char>) -> bool {
    exists|i: int| 0 <= i <= s.len() - part.len() && #[trigger] s.subrange(i, i + part.len())
        == part
}

/// A string holds what it was put together of.
pub proof fn lemma_holds(before: Seq<char>, part: Seq<char>, after: Seq<char>)
    ensures
        holds(before + part + after, part),
{
    let s = before + part + after;
    assert(s.subrange(before.len() as int, before.len() as int + part.len()) =~= part);
}

/// White space parts words and is no part of them: before a word it is skipped, and what stands in
/// front of it is a word of its own.
pub proof fn law_white_space_parts_words(word: Seq<char>, white: char, rest: Seq<char>)
    requires
        is_white(white),
        word.len() > 0,
        forall|i: int| 0 <= i < word.len() ==> !is_white(#[trigger] word[i]),
    ensures
        words(Seq::empty()) == Seq::<Seq<char>>::empty(),
        words(seq![white] + rest) == words(rest),
        words(word) == seq![word],
        words(word + seq![white] + rest) == seq![word] + words(rest),
{
    let test = |c: char| is_white(c);
    let led = seq![white] + rest;
    assert(led.skip(1) =~= rest);
    seqs::lemma_first_where(word, test);
    if first_white(word) is Some {
        assert(is_white(word[first_white(word)->0]));
    }
    let whole = word + seq![white] + rest;
    assert forall|j: int| 0 <= j < word.len() implies !test(#[trigger] whole[j]) by {
        assert(whole[j] == word[j]);
    }
    assert(whole[word.len() as int] == white);
    seqs::lemma_first_where_is(whole, test, word.len() as int);
    assert(whole.take(word.len() as int) =~= word);
    assert(whole.skip(word.len() as int) =~= led);
    assert(whole[0] == word[0]);
}

/// What is trimmed of a string is white space and nothing else: between the stretches that are cut
/// off lies the result, and it begins and ends with a character that is not white.
pub proof fn law_trimming_cuts_off_white_space_alone(s: Seq<char>) -> (cut: (Seq<char>, Seq<char>))
    ensures
        s == cut.0 + trimmed(s) + cut.1,
        is_blank(cut.0),
        is_blank(cut.1),
        trimmed(s).len() > 0 ==> !is_white(trimmed(s)[0]) && !is_white(trimmed(s).last()),
{
    let start = trimmed_start(s);
    let before = lemma_start_is_cut(s);
    lemma_trimmed_start_is_not_white(s);
    let after = lemma_end_is_cut(start);
    assert(s =~= before + trimmed(s) + after);
    if trimmed(s).len() > 0 {
        assert(trimmed(s)[0] == start[0]);
    }
    (before, after)
}

proof fn lemma_start_is_cut(s: Seq<char>) -> (cut: Seq<char>)
    ensures
        s == cut + trimmed_start(s),
        is_blank(cut),
    decreases s.len(),
{
    if s.len() > 0 && is_white(s[0]) {
        let rest = lemma_start_is_cut(s.skip(1));
        let cut = seq![s[0]] + rest;
        assert(s =~= seq![s[0]] + s.skip(1));
        assert(s =~= cut + trimmed_start(s));
        assert forall|i: int| 0 <= i < cut.len() implies is_white(#[trigger] cut[i]) by {
            if i > 0 {
                assert(cut[i] == rest[i - 1]);
            }
        }
        cut
    } else {
        assert(s =~= Seq::<char>::empty() + s);
        Seq::empty()
    }
}

proof fn lemma_end_is_cut(s: Seq<char>) -> (cut: Seq<char>)
    ensures
        s == trimmed_end(s) + cut,
        is_blank(cut),
        trimmed_end(s).len() > 0 ==> !is_white(trimmed_end(s).last()),
    decreases s.len(),
{
    if s.len() > 0 && is_white(s.last()) {
        let rest = lemma_end_is_cut(s.drop_last());
        let cut = rest.push(s.last());
        assert(s =~= s.drop_last().push(s.last()));
        assert(s =~= trimmed_end(s) + cut);
        cut
    } else {
        assert(s =~= s + Seq::<char>::empty());
        Seq::empty()
    }
}

/// A string is parted at its first white space, which goes to neither part.
pub proof fn law_string_is_parted_at_its_first_white_space(
    head: Seq<char>,
    white: char,
    tail: Seq<char>,
)
    requires
        is_white(white),
        forall|i: int| 0 <= i < head.len() ==> !is_white(#[trigger] head[i]),
    ensures
        before_white(head + seq![white] + tail) == head,
        after_white(head + seq![white] + tail) == tail,
        before_white(head) == head,
        after_white(head) == Seq::<char>::empty(),
{
    let test = |c: char| is_white(c);
    let whole = head + seq![white] + tail;
    assert forall|j: int| 0 <= j < head.len() implies !test(#[trigger] whole[j]) by {
        assert(whole[j] == head[j]);
    }
    assert(whole[head.len() as int] == white);
    seqs::lemma_first_where_is(whole, test, head.len() as int);
    assert(whole.take(head.len() as int) =~= head);
    assert(whole.skip(head.len() as int + 1) =~= tail);
    seqs::lemma_first_where(head, test);
    if first_white(head) is Some {
        assert(is_white(head[first_white(head)->0]));
    }
}

/// Small letters stand for capitals in comparisons, and every other character for itself alone.
pub proof fn law_lowering_changes_capitals_alone(s: Seq<char>, i: int)
    requires
        0 <= i < s.len(),
    ensures
        lowered(s).len() == s.len(),
        'A' <= s[i] <= 'Z' ==> 'a' <= lowered(s)[i] <= 'z' && lowered(s)[i] as u32 - 'a' as u32
            == s[i] as u32 - 'A' as u32,
        !('A' <= s[i] <= 'Z') ==> lowered(s)[i] == s[i],
        lowered(lowered(s)) == lowered(s),
{
    assert forall|k: int| 0 <= k < s.len() implies lower(lower(#[trigger] s[k])) == lower(s[k]) by {
        assert('A' <= s[k] <= 'Z' ==> 'a' <= lower(s[k]) <= 'z');
    }
    assert(lowered(lowered(s)) =~= lowered(s));
}

/// Of the ASCII characters the blank and the five from tab to carriage return are white, and no
/// letter, digit or mark is.
pub proof fn law_ascii_white_space(c: char)
    requires
        (c as u32) < 0x80,
    ensures
        is_white(c) <==> c == ' ' || c == '\t' || c == '\n' || c == '\r' || c as u32 == 0x0B
            || c as u32 == 0x0C,
        is_white(' '),
        !is_white('/'),
        !is_white('"'),
{
}

/// A number may be written with a plus sign, and with nothing else but digits.
pub proof fn law_numbers_are_digits_with_an_optional_plus(s: Seq<char>, i: int)
    ensures
        unsigned(Seq::empty()) is None,
        s.len() > 0 && '0' <= s[0] <= '9' ==> unsigned(seq!['+'] + s) == unsigned(s),
        0 < i < s.len() && !('0' <= s[i] <= '9') ==> unsigned(s) is None,
        s.len() > 0 && s[0] != '+' && !('0' <= s[0] <= '9') ==> unsigned(s) is None,
        s.len() == 1 && '0' <= s[0] <= '9' ==> unsigned(s) == Some((s[0] as u32 - '0' as u32) as nat),
{
    assert((seq!['+'] + s).skip(1) =~= s);
    if 0 < i < s.len() && !('0' <= s[i] <= '9') {
        if s[0] == '+' {
            assert(s.skip(1)[i - 1] == s[i]);
        }
    }
    if s.len() == 1 {
        assert(digits_value(s.drop_last()) == 0);
    }
}

/// Texts stand in the order of the first characters in which they differ, and a text stands before
/// every one that continues it.
pub proof fn law_texts_are_ordered_by_their_first_difference(
    common: Seq<char>,
    a: char,
    b: char,
    rest_a: Seq<char>,
    rest_b: Seq<char>,
)
    ensures
        a < b ==> text_lt(common + seq![a] + rest_a, common + seq![b] + rest_b),
        a > b ==> !text_lt(common + seq![a] + rest_a, common + seq![b] + rest_b),
        text_lt(common, common + seq![a] + rest_a),
        !text_lt(common, common),
    decreases common.len(),
{
    let one = common + seq![a] + rest_a;
    let other = common + seq![b] + rest_b;
    if common.len() > 0 {
        law_texts_are_ordered_by_their_first_difference(common.skip(1), a, b, rest_a, rest_b);
        assert(one.skip(1) =~= common.skip(1) + seq![a] + rest_a);
        assert(other.skip(1) =~= common.skip(1) + seq![b] + rest_b);
        assert(one[0] == common[0] && other[0] == common[0]);
    } else {
        assert(one[0] == a && other[0] == b);
    }
}

} // verus!
