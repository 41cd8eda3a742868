//! Building blocks for display strings: decimal digits, padding, prefixes.

use vstd::prelude::*;

verus! {

/// `String::push` appends one character to the end of the string.
pub assume_specification[ String::push ](s: &mut String, ch: char)
    ensures
        final(s)@ == old(s)@.push(ch),
;

/// `String::pop` takes the last character off the string and returns it;
/// an empty string is left as it is.
pub assume_specification[ String::pop ](s: &mut String) -> (c: Option<char>)
    ensures
        old(s)@.len() > 0 ==> c == Some(old(s)@.last()) && final(s)@ == old(s)@.drop_last(),
        old(s)@.len() == 0 ==> c is None && final(s)@ == old(s)@,
;

/// The character that stands for a single decimal digit.
pub open spec fn digit_char(d: int) -> char {
    if d == 0 {
        '0'
    } else if d == 1 {
        '1'
    } else if d == 2 {
        '2'
    } else if d == 3 {
        '3'
    } else if d == 4 {
        '4'
    } else if d == 5 {
        '5'
    } else if d == 6 {
        '6'
    } else if d == 7 {
        '7'
    } else if d == 8 {
        '8'
    } else {
        '9'
    }
}

/// The decimal digits of `n`, most significant first, without leading zeros.
pub open spec fn decimal(n: nat) -> Seq<char>
    decreases n,
{
    if n < 10 {
        seq![digit_char(n as int)]
    } else {
        decimal(n / 10).push(digit_char((n % 10) as int))
    }
}

/// `count` copies of `c`.
pub open spec fn repeat(c: char, count: nat) -> Seq<char> {
    Seq::new(count, |i: int| c)
}

/// `text` padded on the left with spaces to at least `width` characters.
pub open spec fn pad_left(text: Seq<char>, width: nat) -> Seq<char> {
    if text.len() >= width {
        text
    } else {
        repeat(' ', (width - text.len()) as nat) + text
    }
}

/// Whether `text` begins with `prefix`.
pub open spec fn has_prefix(text: Seq<char>, prefix: Seq<char>) -> bool {
    prefix.len() <= text.len() && text.subrange(0, prefix.len() as int) == prefix
}

/// Whether `text` ends with `suffix`.
pub open spec fn has_suffix(text: Seq<char>, suffix: Seq<char>) -> bool {
    suffix.len() <= text.len() && text.subrange(text.len() - suffix.len(), text.len() as int)
        == suffix
}

pub fn digit(d: u8) -> (c: char)
    requires
        d < 10,
    ensures
        c == digit_char(d as int),
{
    if d == 0 {
        '0'
    } else if d == 1 {
        '1'
    } else if d == 2 {
        '2'
    } else if d == 3 {
        '3'
    } else if d == 4 {
        '4'
    } else if d == 5 {
        '5'
    } else if d == 6 {
        '6'
    } else if d == 7 {
        '7'
    } else if d == 8 {
        '8'
    } else {
        '9'
    }
}

/// Appends the decimal digits of `n` to `out`.
pub fn push_decimal(out: &mut String, n: u64)
    ensures
        final(out)@ == old(out)@ + decimal(n as nat),
    decreases n,
{
    if n >= 10 {
        push_decimal(out, n / 10);
    }
    out.push(digit((n % 10) as u8));
}

/// Appends the decimal digits of `n` to the characters in `out`.
pub fn push_decimal_chars(out: &mut Vec<char>, n: u64)
    ensures
        final(out)@ == old(out)@ + decimal(n as nat),
    decreases n,
{
    if n >= 10 {
        push_decimal_chars(out, n / 10);
    }
    out.push(digit((n % 10) as u8));
}

/// The decimal digits of `n` as a string.
pub fn decimal_string(n: u64) -> (s: String)
    ensures
        s@ == decimal(n as nat),
{
    let mut s = String::new();
    push_decimal(&mut s, n);
    s
}

/// The number of decimal digits of `n`.
pub proof fn lemma_decimal_len(n: nat)
    ensures
        decimal(n).len() >= 1,
        n < 10 ==> decimal(n).len() == 1,
        10 <= n < 100 ==> decimal(n).len() == 2,
        100 <= n < 1000 ==> decimal(n).len() == 3,
        n >= 1000 ==> decimal(n).len() >= 4,
    decreases n,
{
    if n >= 10 {
        lemma_decimal_len(n / 10);
    }
}

/// No number below 2^64 has more than twenty digits.
pub proof fn lemma_decimal_max_len(n: nat)
    requires
        n <= u64::MAX,
    ensures
        decimal(n).len() <= 20,
{
    reveal_with_fuel(decimal, 21);
}

/// Appends `count` copies of `c` to `out`.
pub fn push_repeat(out: &mut String, c: char, count: usize)
    ensures
        final(out)@ == old(out)@ + repeat(c, count as nat),
{
    let mut i: usize = 0;
    while i < count
        invariant
            i <= count,
            out@ == old(out)@ + repeat(c, i as nat),
        decreases count - i,
    {
        out.push(c);
        i = i + 1;
        assert(out@ =~= old(out)@ + repeat(c, i as nat));
    }
}

/// Whether `text` begins with `prefix`, character by character.
pub fn starts_with(text: &str, prefix: &str) -> (b: bool)
    ensures
        b == has_prefix(text@, prefix@),
{
    let n = prefix.unicode_len();
    let m = text.unicode_len();
    if n > m {
        return false;
    }
    let mut i: usize = 0;
    while i < n
        invariant
            i <= n,
            n == prefix@.len(),
            m == text@.len(),
            n <= m,
            forall|j: int| 0 <= j < i ==> text@[j] == prefix@[j],
        decreases n - i,
    {
        if text.get_char(i) != prefix.get_char(i) {
            assert(text@.subrange(0, n as int)[i as int] != prefix@[i as int]);
            return false;
        }
        i = i + 1;
    }
    assert(text@.subrange(0, n as int) =~= prefix@);
    true
}

/// Whether two texts hold the same characters.
pub fn same_text(a: &str, b: &str) -> (same: bool)
    ensures
        same == (a@ == b@),
{
    let n = a.unicode_len();
    let m = b.unicode_len();
    if n != m {
        return false;
    }
    let prefix = starts_with(a, b);
    assert(a@.subrange(0, n as int) =~= a@);
    prefix
}

/// The text of an optional string, empty where there is none.
pub open spec fn or_empty(text: Option<Seq<char>>) -> Seq<char> {
    match text {
        Some(t) => t,
        None => Seq::empty(),
    }
}

/// A copy of an optional string, empty where there is none.
pub fn text_or_empty(text: &Option<String>) -> (copy: String)
    ensures
        copy@ == or_empty(text.deep_view()),
{
    match text {
        Some(t) => t.clone(),
        None => String::new(),
    }
}

/// Whether `text` ends with `suffix`, character by character.
pub fn ends_with(text: &str, suffix: &str) -> (b: bool)
    ensures
        b == has_suffix(text@, suffix@),
{
    let n = suffix.unicode_len();
    let m = text.unicode_len();
    if n > m {
        return false;
    }
    let base = m - n;
    let mut i: usize = 0;
    while i < n
        invariant
            i <= n,
            n == suffix@.len(),
            m == text@.len(),
            n <= m,
            base == m - n,
            forall|j: int| 0 <= j < i ==> text@[base + j] == suffix@[j],
        decreases n - i,
    {
        if text.get_char(base + i) != suffix.get_char(i) {
            assert(text@.subrange(m - n, m as int)[i as int] != suffix@[i as int]);
            return false;
        }
        i = i + 1;
    }
    assert(text@.subrange(m - n, m as int) =~= suffix@);
    true
}

/// Whether a character is one of the ten decimal digits.
pub open spec fn is_digit(c: char) -> bool {
    48 <= c as u32 <= 57
}

/// Whether a character is one of the ten decimal digits.
pub fn is_ascii_digit(c: char) -> (b: bool)
    ensures
        b == is_digit(c),
{
    let code = c as u32;
    48 <= code && code <= 57
}

/// Whether a text is made of decimal digits alone.
pub open spec fn all_digits(text: Seq<char>) -> bool {
    forall|i: int| 0 <= i < text.len() ==> is_digit(#[trigger] text[i])
}

/// Whether a text is made of decimal digits alone.
pub fn only_digits(text: &str) -> (b: bool)
    ensures
        b == all_digits(text@),
{
    let len = text.unicode_len();
    let mut i: usize = 0;
    while i < len
        invariant
            i <= len,
            len == text@.len(),
            forall|j: int| 0 <= j < i ==> is_digit(#[trigger] text@[j]),
        decreases len - i,
    {
        if !is_ascii_digit(text.get_char(i)) {
            assert(!is_digit(text@[i as int]));
            return false;
        }
        i = i + 1;
    }
    true
}

/// The number that a decimal digit stands for; zero for any other character.
pub open spec fn digit_of(c: char) -> nat {
    if is_digit(c) {
        (c as u32 - 48) as nat
    } else {
        0
    }
}

/// The number that a text of decimal digits writes; zero for the empty text.
pub open spec fn digits_value(text: Seq<char>) -> nat
    decreases text.len(),
{
    if text.len() == 0 {
        0
    } else {
        digits_value(text.drop_last()) * 10 + digit_of(text.last())
    }
}

/// The number that a text writes, where the text is one or more decimal
/// digits and the number is at most `max`.
pub open spec fn parsed_number(text: Seq<char>, max: nat) -> Option<nat> {
    if text.len() > 0 && all_digits(text) && digits_value(text) <= max {
        Some(digits_value(text))
    } else {
        None
    }
}

/// Reads a number of at most `max` from a text of decimal digits.
pub fn parse_number(text: &str, max: u64) -> (n: Option<u64>)
    ensures
        match n {
            Some(n) => parsed_number(text@, max as nat) == Some(n as nat),
            None => parsed_number(text@, max as nat) is None,
        },
{
    let len = text.unicode_len();
    if len == 0 {
        return None;
    }
    let mut value: u64 = 0;
    let mut i: usize = 0;
    while i < len
        invariant
            i <= len,
            len == text@.len(),
            all_digits(text@.subrange(0, i as int)),
            value == digits_value(text@.subrange(0, i as int)),
            value <= max,
        decreases len - i,
    {
        let c = text.get_char(i);
        if !is_ascii_digit(c) {
            assert(!is_digit(text@[i as int]));
            return None;
        }
        let d = (c as u32 - 48) as u64;
        let ghost next = text@.subrange(0, i + 1);
        proof {
            assert(next.drop_last() =~= text@.subrange(0, i as int));
            assert(next.last() == c);
            assert forall|j: int| 0 <= j < next.len() implies is_digit(#[trigger] next[j]) by {
                if j < i {
                    assert(text@.subrange(0, i as int)[j] == next[j]);
                }
            }
        }
        let grown: u128 = value as u128 * 10 + d as u128;
        if grown > max as u128 {
            proof {
                assert(digits_value(next) > max);
                lemma_digits_grow(text@, i + 1);
            }
            return None;
        }
        value = grown as u64;
        i = i + 1;
    }
    assert(text@.subrange(0, i as int) =~= text@);
    Some(value)
}

/// A text of digits writes no smaller number than any of its beginnings.
pub proof fn lemma_digits_grow(text: Seq<char>, at: int)
    requires
        0 <= at <= text.len(),
    ensures
        digits_value(text.subrange(0, at)) <= digits_value(text),
    decreases text.len() - at,
{
    if at < text.len() {
        lemma_digits_grow(text, at + 1);
        let next = text.subrange(0, at + 1);
        assert(next.drop_last() =~= text.subrange(0, at));
        assert(digits_value(next) >= digits_value(text.subrange(0, at)));
    } else {
        assert(text.subrange(0, at) =~= text);
    }
}

/// A text without the given character at its end, however often it stands there.
pub open spec fn trimmed_end(text: Seq<char>, c: char) -> Seq<char>
    decreases text.len(),
{
    if text.len() > 0 && text.last() == c {
        trimmed_end(text.drop_last(), c)
    } else {
        text
    }
}

/// A copy of a text without the given character at its end.
pub fn trim_end(text: &str, c: char) -> (trimmed: String)
    ensures
        trimmed@ == trimmed_end(text@, c),
{
    let mut end = text.unicode_len();
    assert(text@.subrange(0, end as int) =~= text@);
    while end > 0 && text.get_char(end - 1) == c
        invariant
            end <= text@.len(),
            trimmed_end(text@, c) == trimmed_end(text@.subrange(0, end as int), c),
        decreases end,
    {
        proof {
            let now = text@.subrange(0, end as int);
            assert(now.last() == text@[end - 1]);
            assert(now.drop_last() =~= text@.subrange(0, end - 1));
        }
        end = end - 1;
    }
    proof {
        let now = text@.subrange(0, end as int);
        if end > 0 {
            assert(now.last() == text@[end - 1]);
        }
    }
    String::from_str(text.substring_char(0, end))
}

} // verus!
