use crate::lines::chars_of;
use vstd::prelude::*;
use vstd::string::*;

verus! {

/// A part of a longer text.
pub struct ImportantExcerpt<'a> {
    pub part: &'a str,
}

impl<'a> ImportantExcerpt<'a> {
    /// The level of every excerpt: 3.
    pub fn level(&self) -> (l: i32)
        ensures
            l == 3,
    {
        3
    }
}

/// The longer of two texts by their length in bytes, and the second where
/// neither is longer.
pub fn longest<'a>(x: &'a str, y: &'a str) -> (r: &'a str)
    ensures
        r == if x.spec_bytes().len() > y.spec_bytes().len() {
            x
        } else {
            y
        },
{
    if x.as_bytes().len() > y.as_bytes().len() {
        x
    } else {
        y
    }
}

/// The position of the first full stop of `s` at or after `from`, or the
/// length of `s` where there is none.
pub open spec fn sentence_end(s: Seq<char>, from: int) -> int
    decreases s.len() - from,
{
    if from < 0 || from >= s.len() {
        s.len() as int
    } else if s[from] == '.' {
        from
    } else {
        sentence_end(s, from + 1)
    }
}

/// The first sentence of `text`: what stands before its first full stop,
/// and the whole text where it has none.
pub fn first_sentence<'a>(text: &'a str) -> (sentence: &'a str)
    ensures
        0 <= sentence_end(text@, 0) <= text@.len(),
        sentence@ == text@.subrange(0, sentence_end(text@, 0)),
{
    let chars = chars_of(text);
    let n = chars.len();
    let mut end: usize = 0;
    while end < n && chars[end] != '.'
        invariant
            end <= n,
            n == text@.len(),
            chars@ == text@,
            sentence_end(text@, 0) == sentence_end(text@, end as int),
        decreases n - end,
    {
        end += 1;
    }
    text.substring_char(0, end)
}

} // verus!
