//! Texts as sequences of characters: cutting them into fields, removing
//! marks, reading decimal numbers.

use vstd::prelude::*;
use vstd::string::StrSliceExecFns;

verus! {

/// Whether `char::is_whitespace` of the standard library holds of a
/// character: whether Unicode counts it as white space.
pub uninterp spec fn is_space(c: char) -> bool;

/// Calls `char::is_whitespace` of the standard library.
#[verifier::external_body]
pub(crate) fn is_whitespace(c: char) -> (r: bool)
    ensures
        r == is_space(c),
{
    c.is_whitespace()
}

/// Calls `String::push` of the standard library, which appends one
/// character to the end of the text.
#[verifier::external_body]
pub(crate) fn push_char(text: &mut String, c: char)
    ensures
        final(text)@ == old(text)@.push(c),
{
    text.push(c)
}

/// The characters of a text.
pub fn chars_of(text: &str) -> (r: Vec<char>)
    ensures
        r@ == text@,
{
    let n = text.unicode_len();
    let mut out: Vec<char> = Vec::new();
    let mut i: usize = 0;
    while i < n
        invariant
            i <= n,
            n == text@.len(),
            out@ == text@.take(i as int),
        decreases n - i,
    {
        out.push(text.get_char(i));
        proof {
            assert(text@.take(i as int).push(text@[i as int]) =~= text@.take(i as int + 1));
        }
        i = i + 1;
    }
    assert(text@.take(n as int) =~= text@);
    out
}

/// The text made of the characters of `chars` from `from` up to `to`.
pub fn string_of(chars: &Vec<char>, from: usize, to: usize) -> (r: String)
    requires
        from <= to <= chars.len(),
    ensures
        r@ == chars@.subrange(from as int, to as int),
{
    let mut out = String::new();
    let mut i: usize = from;
    while i < to
        invariant
            from <= i <= to <= chars.len(),
            out@ == chars@.subrange(from as int, i as int),
        decreases to - i,
    {
        push_char(&mut out, chars[i]);
        proof {
            assert(chars@.subrange(from as int, i as int).push(chars@[i as int])
                =~= chars@.subrange(from as int, i as int + 1));
        }
        i = i + 1;
    }
    out
}

/// A text without any occurrence of the pair `a`, `b`: occurrences are
/// looked for from the start, and the search goes on after each.
pub open spec fn without_pair(s: Seq<char>, a: char, b: char) -> Seq<char>
    decreases s.len(),
{
    if s.len() == 0 {
        s
    } else if s.len() >= 2 && s[0] == a && s[1] == b {
        without_pair(s.skip(2), a, b)
    } else {
        seq![s[0]] + without_pair(s.skip(1), a, b)
    }
}

/// Removes every occurrence of the pair `a`, `b` from the characters of
/// `text` from `from` up to `to`.
pub fn remove_pair(text: &Vec<char>, from: usize, to: usize, a: char, b: char) -> (r: Vec<char>)
    requires
        from <= to <= text.len(),
    ensures
        r@ == without_pair(text@.subrange(from as int, to as int), a, b),
{
    let ghost whole = text@.subrange(from as int, to as int);
    let mut out: Vec<char> = Vec::new();
    let mut i: usize = from;
    assert(whole.skip(0) =~= whole);
    while i < to
        invariant
            from <= i <= to <= text.len(),
            whole == text@.subrange(from as int, to as int),
            out@ + without_pair(whole.skip(i - from), a, b) == without_pair(whole, a, b),
        decreases to - i,
    {
        let ghost rest = whole.skip(i - from);
        assert(rest[0] == text@[i as int]);
        if i + 1 < to && text[i] == a && text[i + 1] == b {
            proof {
                assert(rest[1] == text@[i as int + 1]);
                assert(rest.skip(2) =~= whole.skip(i - from + 2));
            }
            i = i + 2;
        } else {
            proof {
                if rest.len() >= 2 {
                    assert(rest[1] == text@[i as int + 1]);
                }
                assert(rest.skip(1) =~= whole.skip(i - from + 1));
                let tail = without_pair(rest.skip(1), a, b);
                assert(out@.push(text@[i as int]) + tail =~= out@ + (seq![rest[0]] + tail));
            }
            out.push(text[i]);
            i = i + 1;
        }
    }
    assert(whole.skip(to - from).len() == 0);
    assert(out@ + Seq::<char>::empty() =~= out@);
    out
}

/// Where the field that starts at `start` ends: at the next `mark`, or at
/// the end of the text.
pub open spec fn field_end(s: Seq<char>, mark: char, start: int) -> int
    decreases s.len() - start,
{
    if start < 0 || start >= s.len() {
        s.len() as int
    } else if s[start] == mark {
        start
    } else {
        field_end(s, mark, start + 1)
    }
}

/// Finds where the field of `text` that starts at `start` ends; the text
/// is taken to end at `to`.
pub fn find_field_end(text: &Vec<char>, to: usize, mark: char, start: usize) -> (end: usize)
    requires
        start <= to <= text.len(),
    ensures
        end == field_end(text@.take(to as int), mark, start as int),
        start <= end <= to,
{
    let ghost s = text@.take(to as int);
    let mut i: usize = start;
    while i < to && text[i] != mark
        invariant
            start <= i <= to <= text.len(),
            s == text@.take(to as int),
            field_end(s, mark, start as int) == field_end(s, mark, i as int),
        decreases to - i,
    {
        assert(s[i as int] == text@[i as int]);
        i = i + 1;
    }
    proof {
        if i < to {
            assert(s[i as int] == text@[i as int]);
        }
    }
    i
}

/// The value of a decimal digit.
pub open spec fn digit_value(c: char) -> Option<int> {
    if 0x30 <= c as int <= 0x39 {
        Some(c as int - 0x30)
    } else {
        None
    }
}

/// Whether every one of `digits` is a decimal digit.
pub open spec fn all_digits(digits: Seq<char>) -> bool {
    forall|i: int| 0 <= i < digits.len() ==> digit_value(#[trigger] digits[i]) is Some
}

/// The number that decimal `digits` stand for.
pub open spec fn decimal_number(digits: Seq<char>) -> int
    decreases digits.len(),
{
    if digits.len() == 0 {
        0
    } else {
        decimal_number(digits.drop_last()) * 10 + match digit_value(digits.last()) {
            Some(v) => v,
            None => 0,
        }
    }
}

/// The digits of a field: the field without its plus sign.
pub open spec fn unsigned_part(field: Seq<char>) -> Seq<char> {
    if field.len() > 0 && field[0] == '+' {
        field.skip(1)
    } else {
        field
    }
}

/// The number that a field stands for, if it stands for one: one or more
/// decimal digits, which may follow a plus sign, with a value of at most
/// `max`.
pub open spec fn decimal_of(field: Seq<char>, max: int) -> Option<int> {
    let digits = unsigned_part(field);
    if digits.len() > 0 && all_digits(digits) && decimal_number(digits) <= max {
        Some(decimal_number(digits))
    } else {
        None
    }
}

/// More digits never make a decimal number smaller.
pub proof fn lemma_decimal_number_grows(digits: Seq<char>, k: int)
    requires
        0 <= k <= digits.len(),
    ensures
        decimal_number(digits.take(k)) <= decimal_number(digits),
        0 <= decimal_number(digits),
    decreases digits.len(),
{
    if digits.len() > 0 {
        lemma_decimal_number_grows(digits.drop_last(), 0);
        if k < digits.len() {
            lemma_decimal_number_grows(digits.drop_last(), k);
            assert(digits.drop_last().take(k) =~= digits.take(k));
        } else {
            assert(digits.take(k) =~= digits);
        }
    } else {
        assert(digits.take(k) =~= digits);
    }
}

/// Reads the value of a decimal digit.
pub fn decimal_digit(c: char) -> (r: Option<u64>)
    ensures
        match r {
            Some(v) => digit_value(c) == Some(v as int),
            None => digit_value(c) is None,
        },
{
    let code: u32 = c as u32;
    if 0x30 <= code && code <= 0x39 {
        Some((code - 0x30) as u64)
    } else {
        None
    }
}

/// Reads the number that the characters of `text` from `from` up to `to`
/// stand for.
pub fn parse_decimal(text: &Vec<char>, from: usize, to: usize, max: u64) -> (r: Option<u64>)
    requires
        from <= to <= text.len(),
        max <= u32::MAX,
    ensures
        match r {
            Some(v) => decimal_of(text@.subrange(from as int, to as int), max as int) == Some(
                v as int,
            ),
            None => decimal_of(text@.subrange(from as int, to as int), max as int) is None,
        },
{
    let first: usize = if from < to && text[from] == '+' {
        from + 1
    } else {
        from
    };
    let mut i: usize = first;
    let mut value: u64 = 0;
    let mut well_formed: bool = true;
    let ghost mut bad: int = 0;
    while i < to
        invariant
            from <= first <= i <= to <= text.len(),
            max <= u32::MAX,
            well_formed ==> all_digits(text@.subrange(first as int, i as int)),
            well_formed ==> decimal_number(text@.subrange(first as int, i as int)) == value,
            well_formed ==> value <= max,
            !well_formed ==> {
                ||| (first <= bad < i && digit_value(text@[bad]) is None)
                ||| (first <= bad <= i && all_digits(text@.subrange(first as int, bad))
                    && decimal_number(text@.subrange(first as int, bad)) > max)
            },
        decreases to - i,
    {
        let ghost before = text@.subrange(first as int, i as int);
        let ghost after = text@.subrange(first as int, i as int + 1);
        proof {
            assert(after.drop_last() =~= before);
            assert(after.last() == text@[i as int]);
        }
        if well_formed {
            match decimal_digit(text[i]) {
                Some(v) => {
                    let next: u64 = value * 10 + v;
                    proof {
                        assert forall|j: int| 0 <= j < after.len() implies digit_value(
                            #[trigger] after[j],
                        ) is Some by {
                            if j < before.len() {
                                assert(after[j] == before[j]);
                            }
                        }
                    }
                    if next > max {
                        well_formed = false;
                        proof {
                            bad = i as int + 1;
                        }
                    } else {
                        value = next;
                    }
                },
                None => {
                    well_formed = false;
                    proof {
                        bad = i as int;
                    }
                },
            }
        }
        i = i + 1;
    }
    proof {
        let field = text@.subrange(from as int, to as int);
        let digits = text@.subrange(first as int, to as int);
        if field.len() > 0 {
            assert(field[0] == text@[from as int]);
        }
        assert(unsigned_part(field) =~= digits);
        if !well_formed {
            if first <= bad < to && digit_value(text@[bad]) is None {
                assert(digits[bad - first] == text@[bad]);
            } else {
                lemma_decimal_number_grows(digits, bad - first);
                assert(digits.take(bad - first) =~= text@.subrange(first as int, bad));
            }
        }
    }
    if well_formed && i > first {
        Some(value)
    } else {
        None
    }
}

/// Where a text, taken from `from` up to `to`, begins once the white space
/// at its start is set aside.
pub open spec fn trim_start(s: Seq<char>, from: int, to: int) -> int
    decreases to - from,
{
    if from >= to || from < 0 || to > s.len() {
        to
    } else if is_space(s[from]) {
        trim_start(s, from + 1, to)
    } else {
        from
    }
}

/// Where a text, taken from `from` up to `to`, ends once the white space at
/// its end is set aside.
pub open spec fn trim_end(s: Seq<char>, from: int, to: int) -> int
    decreases to - from,
{
    if from >= to || from < 0 || to > s.len() {
        from
    } else if is_space(s[to - 1]) {
        trim_end(s, from, to - 1)
    } else {
        to
    }
}

/// Finds the part of `text` between `from` and `to` that is left once the
/// white space at its start and at its end is set aside.
pub fn trim_bounds(text: &Vec<char>, from: usize, to: usize) -> (r: (usize, usize))
    requires
        from <= to <= text.len(),
    ensures
        r.0 == trim_start(text@, from as int, to as int),
        r.1 == trim_end(text@, r.0 as int, to as int),
        from <= r.0 <= r.1 <= to,
{
    let mut start: usize = from;
    while start < to && is_whitespace(text[start])
        invariant
            from <= start <= to <= text.len(),
            trim_start(text@, from as int, to as int) == trim_start(text@, start as int, to as int),
        decreases to - start,
    {
        start = start + 1;
    }
    let mut end: usize = to;
    while start < end && is_whitespace(text[end - 1])
        invariant
            start <= end <= to <= text.len(),
            trim_end(text@, start as int, to as int) == trim_end(text@, start as int, end as int),
        decreases end - start,
    {
        end = end - 1;
    }
    (start, end)
}

} // verus!
