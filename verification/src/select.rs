//! Reading the number that the user typed.
//!
//! A line counts as a choice when, with the white space around it taken away,
//! it is an unsigned decimal number that fits the machine word and lies below
//! the number of devices on offer.

use vstd::prelude::*;
use crate::text::{decimal, digit_char};

verus! {

/// Whether `c` is white space in the sense of Unicode's `White_Space` property.
pub open spec fn is_white_space(c: char) -> bool {
    let v = c as u32;
    ||| 0x09 <= v <= 0x0d
    ||| v == 0x20
    ||| v == 0x85
    ||| v == 0xa0
    ||| v == 0x1680
    ||| 0x2000 <= v <= 0x200a
    ||| v == 0x2028
    ||| v == 0x2029
    ||| v == 0x202f
    ||| v == 0x205f
    ||| v == 0x3000
}

/// `s` without the white space at its start.
pub open spec fn trim_start(s: Seq<char>) -> Seq<char>
    decreases s.len(),
{
    if s.len() > 0 && is_white_space(s[0]) {
        trim_start(s.drop_first())
    } else {
        s
    }
}

/// `s` without the white space at its end.
pub open spec fn trim_end(s: Seq<char>) -> Seq<char>
    decreases s.len(),
{
    if s.len() > 0 && is_white_space(s.last()) {
        trim_end(s.drop_last())
    } else {
        s
    }
}

/// `s` without the white space at either end.
pub open spec fn trimmed(s: Seq<char>) -> Seq<char> {
    trim_end(trim_start(s))
}

/// Whether `c` is one of the ten decimal digits.
pub open spec fn is_digit(c: char) -> bool {
    0x30 <= c as u32 <= 0x39
}

/// The number that the digit `c` stands for.
pub open spec fn digit_value(c: char) -> nat {
    (c as u32 - 0x30) as nat
}

/// Whether `s` holds decimal digits only.
pub open spec fn all_digits(s: Seq<char>) -> bool {
    forall|i: int| 0 <= i < s.len() ==> is_digit(#[trigger] s[i])
}

/// The number that the digits `s` write, most significant first.
pub open spec fn digits_value(s: Seq<char>) -> nat
    decreases s.len(),
{
    if s.len() == 0 {
        0
    } else {
        digits_value(s.drop_last()) * 10 + digit_value(s.last())
    }
}

/// `s` without a plus sign at its start.
pub open spec fn unsigned_digits(s: Seq<char>) -> Seq<char> {
    if s.len() > 0 && s[0] == '+' {
        s.drop_first()
    } else {
        s
    }
}

/// The number that `s` writes: an optional plus sign, then at least one digit
/// and nothing else, the value no larger than the machine word holds.
pub open spec fn parsed_unsigned(s: Seq<char>) -> Option<nat> {
    let d = unsigned_digits(s);
    if d.len() > 0 && all_digits(d) && digits_value(d) <= usize::MAX {
        Some(digits_value(d))
    } else {
        None
    }
}

/// The device that the line `input` picks among `count` devices, if it picks
/// one.
pub open spec fn selection(input: Seq<char>, count: nat) -> Option<nat> {
    match parsed_unsigned(trimmed(input)) {
        Some(index) => if index < count {
            Some(index)
        } else {
            None
        },
        None => None,
    }
}

/// Dropping characters at the end never makes the digits' value larger.
pub proof fn lemma_digits_value_prefix(s: Seq<char>, k: int)
    requires
        0 <= k <= s.len(),
    ensures
        digits_value(s.take(k)) <= digits_value(s),
    decreases s.len(),
{
    if k == s.len() {
        assert(s.take(k) =~= s);
    } else {
        assert(s.drop_last().take(k) =~= s.take(k));
        lemma_digits_value_prefix(s.drop_last(), k);
    }
}

/// Trimming leaves no white space at either end.
pub proof fn lemma_trimmed_ends(s: Seq<char>)
    ensures
        trimmed(s).len() > 0 ==> !is_white_space(trimmed(s)[0]) && !is_white_space(
            trimmed(s).last(),
        ),
{
    lemma_trim_start_first(s);
    lemma_trim_end_keeps(trim_start(s));
}

proof fn lemma_trim_start_first(s: Seq<char>)
    ensures
        trim_start(s).len() > 0 ==> !is_white_space(trim_start(s)[0]),
    decreases s.len(),
{
    if s.len() > 0 && is_white_space(s[0]) {
        lemma_trim_start_first(s.drop_first());
    }
}

proof fn lemma_trim_end_keeps(s: Seq<char>)
    ensures
        trim_end(s).len() > 0 ==> !is_white_space(trim_end(s).last()) && trim_end(s)[0] == s[0],
        trim_end(s).len() <= s.len(),
    decreases s.len(),
{
    if s.len() > 0 && is_white_space(s.last()) {
        lemma_trim_end_keeps(s.drop_last());
    }
}

/// The decimal text of a number holds digits only, and they write that number.
pub proof fn lemma_decimal_digits(n: nat)
    ensures
        decimal(n).len() > 0,
        all_digits(decimal(n)),
        digits_value(decimal(n)) == n,
    decreases n,
{
    if n < 10 {
        let s = seq![digit_char(n)];
        assert(s.drop_last() =~= Seq::<char>::empty());
        assert(digits_value(s.drop_last()) == 0);
        assert(digit_value(s.last()) == n);
    } else {
        lemma_decimal_digits(n / 10);
        let s = decimal(n);
        assert(s.drop_last() =~= decimal(n / 10));
        assert(digit_value(s.last()) == n % 10);
        assert forall|i: int| 0 <= i < s.len() implies is_digit(#[trigger] s[i]) by {
            if i < s.len() - 1 {
                assert(s[i] == decimal(n / 10)[i]);
            }
        }
    }
}

/// A number written in decimal picks the device at that position: among
/// `count` devices, the text of any `index` below `count` is read as `index`.
pub proof fn lemma_selection_of_decimal(index: nat, count: nat)
    requires
        index < count <= usize::MAX,
    ensures
        selection(decimal(index), count) == Some(index),
{
    lemma_decimal_digits(index);
    let s = decimal(index);
    assert(is_digit(s[0]));
    assert(is_digit(s.last()));
    assert(trim_start(s) == s);
    assert(trim_end(s) == s);
    assert(unsigned_digits(s) == s);
}

/// Whether `c` is white space.
pub fn white_space(c: char) -> (b: bool)
    ensures
        b == is_white_space(c),
{
    let v: u32 = c as u32;
    (0x09 <= v && v <= 0x0d) || v == 0x20 || v == 0x85 || v == 0xa0 || v == 0x1680 || (0x2000 <= v
        && v <= 0x200a) || v == 0x2028 || v == 0x2029 || v == 0x202f || v == 0x205f || v == 0x3000
}

/// The characters of `s`, in order.
pub fn chars_of(s: &str) -> (out: Vec<char>)
    ensures
        out@ == s@,
{
    let mut out: Vec<char> = Vec::new();
    for c in it: s.chars()
        invariant
            out@ == it.seq().take(it.index() as int),
            it.seq() == s@,
    {
        out.push(c);
    }
    out
}

/// Where the text of `chars` starts and ends once the white space around it is
/// taken away.
pub fn trim_bounds(chars: &Vec<char>) -> (bounds: (usize, usize))
    ensures
        bounds.0 <= bounds.1 <= chars@.len(),
        chars@.subrange(bounds.0 as int, bounds.1 as int) == trimmed(chars@),
{
    let n: usize = chars.len();
    let mut start: usize = 0;
    assert(chars@.subrange(0, n as int) =~= chars@);
    while start < n && white_space(chars[start])
        invariant
            start <= n,
            n == chars@.len(),
            trim_start(chars@) == trim_start(chars@.subrange(start as int, n as int)),
        decreases n - start,
    {
        assert(chars@.subrange(start as int, n as int).drop_first() =~= chars@.subrange(
            start + 1,
            n as int,
        ));
        start = start + 1;
    }
    let mut end: usize = n;
    while end > start && white_space(chars[end - 1])
        invariant
            start <= end <= n,
            n == chars@.len(),
            trim_start(chars@) == chars@.subrange(start as int, n as int),
            trimmed(chars@) == trim_end(chars@.subrange(start as int, end as int)),
        decreases end - start,
    {
        assert(chars@.subrange(start as int, end as int).drop_last() =~= chars@.subrange(
            start as int,
            end - 1,
        ));
        end = end - 1;
    }
    (start, end)
}

/// Reads the unsigned decimal number that stands in `chars` from `start` up to
/// `end`.
pub fn parse_unsigned_in(chars: &Vec<char>, start: usize, end: usize) -> (value: Option<usize>)
    requires
        start <= end <= chars@.len(),
    ensures
        value == match parsed_unsigned(chars@.subrange(start as int, end as int)) {
            Some(v) => Some(v as usize),
            None => None,
        },
{
    let ghost s = chars@.subrange(start as int, end as int);
    let mut at: usize = start;
    if at < end && chars[at] == '+' {
        at = at + 1;
    }
    let first: usize = at;
    let ghost d = unsigned_digits(s);
    assert(d =~= chars@.subrange(first as int, end as int));
    if first == end {
        return None;
    }
    let mut acc: usize = 0;
    while at < end
        invariant
            start <= first <= at <= end <= chars@.len(),
            first < end,
            d == unsigned_digits(chars@.subrange(start as int, end as int)),
            d == chars@.subrange(first as int, end as int),
            all_digits(d.take(at - first)),
            acc == digits_value(d.take(at - first)),
        decreases end - at,
    {
        let c: char = chars[at];
        let v: u32 = c as u32;
        if v < 0x30 || v > 0x39 {
            assert(!is_digit(d[at - first]));
            return None;
        }
        let digit: usize = (v - 0x30) as usize;
        proof {
            assert(d.take(at - first + 1).drop_last() =~= d.take(at - first));
            assert(d.take(at - first + 1).last() == chars@[at as int]);
            lemma_digits_value_prefix(d, at - first + 1);
        }
        if acc > (usize::MAX - digit) / 10 {
            return None;
        }
        acc = acc * 10 + digit;
        at = at + 1;
    }
    assert(d.take(at - first) =~= d);
    Some(acc)
}

/// Reads `s` as an unsigned decimal number.
pub fn parse_unsigned(s: &str) -> (value: Option<usize>)
    ensures
        value == match parsed_unsigned(s@) {
            Some(v) => Some(v as usize),
            None => None,
        },
{
    let chars = chars_of(s);
    assert(chars@.subrange(0, chars@.len() as int) =~= chars@);
    parse_unsigned_in(&chars, 0, chars.len())
}

/// Reads the line `input` as the choice of one among `count` devices: the
/// index that it names, or nothing where it names none.
pub fn select_index(input: &str, count: usize) -> (choice: Option<usize>)
    ensures
        choice == match selection(input@, count as nat) {
            Some(index) => Some(index as usize),
            None => None,
        },
        choice matches Some(index) ==> index < count,
{
    let chars = chars_of(input);
    let (start, end) = trim_bounds(&chars);
    match parse_unsigned_in(&chars, start, end) {
        Some(index) => if index < count {
            Some(index)
        } else {
            None
        },
        None => None,
    }
}

} // verus!
