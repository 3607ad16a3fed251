use crate::lines::chars_of;
use vstd::prelude::*;

verus! {

/// Whether `c` is white space: a character with the Unicode property
/// `White_Space`.
pub open spec fn is_white(c: char) -> bool {
    let u = c as u32;
    ||| 0x09 <= u <= 0x0D
    ||| u == 0x20
    ||| u == 0x85
    ||| u == 0xA0
    ||| u == 0x1680
    ||| 0x2000 <= u <= 0x200A
    ||| u == 0x2028
    ||| u == 0x2029
    ||| u == 0x202F
    ||| u == 0x205F
    ||| u == 0x3000
}

/// The first position at or after `from` that holds no white space, or the
/// length of `s`.
pub open spec fn skip_white(s: Seq<char>, from: int) -> int
    decreases s.len() - from,
{
    if from < 0 || from >= s.len() {
        s.len() as int
    } else if is_white(s[from]) {
        skip_white(s, from + 1)
    } else {
        from
    }
}

/// The end of what is left of `s` up to `to` when the white space before
/// `to` is dropped, down to `floor` at most.
pub open spec fn drop_white(s: Seq<char>, floor: int, to: int) -> int
    decreases to,
{
    if to <= floor || to <= 0 {
        floor
    } else if is_white(s[to - 1]) {
        drop_white(s, floor, to - 1)
    } else {
        to
    }
}

/// The text without the white space at its start and at its end.
pub open spec fn trimmed(s: Seq<char>) -> Seq<char> {
    let start = skip_white(s, 0);
    s.subrange(start, drop_white(s, start, s.len() as int))
}

/// Whether `c` is one of the digits `0` to `9`.
pub open spec fn is_digit(c: char) -> bool {
    '0' <= c <= '9'
}

/// The value of the digit `c`.
pub open spec fn digit_value(c: char) -> nat {
    (c as u32 - 48) as nat
}

/// Whether `s` holds digits only.
pub open spec fn all_digits(s: Seq<char>) -> bool {
    forall|i: int| 0 <= i < s.len() ==> is_digit(#[trigger] s[i])
}

/// The number that the digits of `s` write in decimal.
pub open spec fn digits_value(s: Seq<char>) -> nat
    decreases s.len(),
{
    if s.len() == 0 {
        0
    } else {
        digits_value(s.drop_last()) * 10 + digit_value(s.last())
    }
}

/// The 32-bit integer that `s` writes: an optional sign `+` or `-`, then
/// one digit at least and digits only. None where `s` is of another form, or
/// the number does not fit.
pub open spec fn parsed_i32(s: Seq<char>) -> Option<i32> {
    if s.len() == 0 {
        None
    } else {
        let digits = if s[0] == '-' || s[0] == '+' {
            s.skip(1)
        } else {
            s
        };
        let number: int = if s[0] == '-' {
            -(digits_value(digits) as int)
        } else {
            digits_value(digits) as int
        };
        if digits.len() == 0 || !all_digits(digits) || number < i32::MIN || number > i32::MAX {
            None
        } else {
            Some(number as i32)
        }
    }
}

/// The digits written so far never count for more than the whole.
pub proof fn lemma_digits_grow(s: Seq<char>, k: int)
    requires
        0 <= k <= s.len(),
    ensures
        digits_value(s.take(k)) <= digits_value(s),
    decreases s.len(),
{
    if k == s.len() {
        assert(s.take(k) =~= s);
    } else {
        lemma_digits_grow(s.drop_last(), k);
        assert(s.drop_last().take(k) =~= s.take(k));
    }
}

/// Whether `c` is white space.
pub fn white(c: char) -> (w: bool)
    ensures
        w == is_white(c),
{
    let u: u32 = c as u32;
    (0x09 <= u && u <= 0x0D) || u == 0x20 || u == 0x85 || u == 0xA0 || u == 0x1680 || (0x2000 <= u
        && u <= 0x200A) || u == 0x2028 || u == 0x2029 || u == 0x202F || u == 0x205F || u == 0x3000
}

/// Where the text begins and ends once the white space around it is
/// dropped.
pub fn trim_bounds(chars: &Vec<char>) -> (bounds: (usize, usize))
    ensures
        bounds.0 <= bounds.1 <= chars@.len(),
        chars@.subrange(bounds.0 as int, bounds.1 as int) == trimmed(chars@),
{
    let n = chars.len();
    let mut start: usize = 0;
    while start < n && white(chars[start])
        invariant
            start <= n,
            n == chars@.len(),
            skip_white(chars@, 0) == skip_white(chars@, start as int),
        decreases n - start,
    {
        start += 1;
    }
    let mut end: usize = n;
    while end > start && white(chars[end - 1])
        invariant
            start <= end <= n,
            n == chars@.len(),
            drop_white(chars@, start as int, n as int) == drop_white(
                chars@,
                start as int,
                end as int,
            ),
        decreases end,
    {
        end -= 1;
    }
    (start, end)
}

/// The 32-bit integer that the part of `chars` from `lo` to `hi` writes.
pub fn parse_window(chars: &Vec<char>, lo: usize, hi: usize) -> (r: Option<i32>)
    requires
        lo <= hi <= chars@.len(),
    ensures
        r == parsed_i32(chars@.subrange(lo as int, hi as int)),
{
    let ghost s = chars@.subrange(lo as int, hi as int);
    if lo == hi {
        return None;
    }
    let first = chars[lo];
    assert(first == s[0]);
    let begin = if first == '-' || first == '+' {
        lo + 1
    } else {
        lo
    };
    let ghost digits = if s[0] == '-' || s[0] == '+' {
        s.skip(1)
    } else {
        s
    };
    assert(digits =~= chars@.subrange(begin as int, hi as int));
    if begin == hi {
        return None;
    }
    let mut acc: i64 = 0;
    let mut i: usize = begin;
    assert(digits.take(0) =~= Seq::<char>::empty());
    while i < hi
        invariant
            lo < hi,
            begin <= i <= hi <= chars@.len(),
            s == chars@.subrange(lo as int, hi as int),
            digits == if s[0] == '-' || s[0] == '+' {
                s.skip(1)
            } else {
                s
            },
            digits == chars@.subrange(begin as int, hi as int),
            acc == digits_value(digits.take(i - begin)),
            0 <= acc <= 2147483648,
            forall|k: int| 0 <= k < i - begin ==> is_digit(#[trigger] digits[k]),
        decreases hi - i,
    {
        let c = chars[i];
        assert(c == digits[i - begin]);
        if !(c >= '0' && c <= '9') {
            assert(!all_digits(digits));
            return None;
        }
        let d: i64 = (c as u32 - 48) as i64;
        proof {
            let next = digits.take(i - begin + 1);
            assert(next.drop_last() =~= digits.take(i - begin));
            assert(next.last() == c);
            assert(digits_value(next) == acc * 10 + d);
        }
        acc = acc * 10 + d;
        if acc > 2147483648 {
            proof {
                lemma_digits_grow(digits, i - begin + 1);
            }
            return None;
        }
        i += 1;
    }
    assert(digits.take(hi - begin) =~= digits);
    assert(all_digits(digits));
    let number: i64 = if first == '-' {
        -acc
    } else {
        acc
    };
    if number < -2147483648 || number > 2147483647 {
        None
    } else {
        Some(number as i32)
    }
}

/// The 32-bit integer that a line of input writes, white space around it
/// aside.
pub fn read_number(line: &str) -> (r: Option<i32>)
    ensures
        r == parsed_i32(trimmed(line@)),
{
    let chars = chars_of(line);
    let bounds = trim_bounds(&chars);
    parse_window(&chars, bounds.0, bounds.1)
}

} // verus!
