use vstd::prelude::*;

verus! {

/// The position of the first line feed of `s` at or after `from`, or the
/// length of `s` where there is none.
pub open spec fn line_end(s: Seq<char>, from: int) -> int
    decreases s.len() - from,
{
    if from >= s.len() {
        s.len() as int
    } else if s[from] == '\n' {
        from
    } else {
        line_end(s, from + 1)
    }
}

/// The line of `s` that begins at `from`: what stands before the next line
/// feed, without a carriage return that directly precedes that line feed.
/// The last line needs no line feed, and keeps a carriage return at its end.
pub open spec fn line_at(s: Seq<char>, from: int) -> Seq<char> {
    let end = line_end(s, from);
    if from < end < s.len() && s[end - 1] == '\r' {
        s.subrange(from, end - 1)
    } else {
        s.subrange(from, end)
    }
}

/// The lines of `s` from position `from` on.
pub open spec fn lines_from(s: Seq<char>, from: int) -> Seq<Seq<char>>
    decreases s.len() - from,
{
    let end = line_end(s, from);
    if from < 0 || from >= s.len() || end < from {
        Seq::empty()
    } else if end >= s.len() {
        seq![line_at(s, from)]
    } else {
        seq![line_at(s, from)] + lines_from(s, end + 1)
    }
}

/// The lines of a text. Each line feed ends a line; a text that does not
/// end in a line feed has its rest as last line; the empty text has no line.
pub open spec fn lines_of(s: Seq<char>) -> Seq<Seq<char>> {
    lines_from(s, 0)
}

/// The end of a line lies at or after its start, within the text, on a line
/// feed or at the end of the text, with no line feed before it.
pub proof fn lemma_line_end(s: Seq<char>, from: int)
    requires
        0 <= from <= s.len(),
    ensures
        from <= line_end(s, from) <= s.len(),
        line_end(s, from) < s.len() ==> s[line_end(s, from)] == '\n',
        forall|k: int| from <= k < line_end(s, from) ==> s[k] != '\n',
    decreases s.len() - from,
{
    if from < s.len() && s[from] != '\n' {
        lemma_line_end(s, from + 1);
    }
}

/// Whether `needle` occurs in `hay` as a run of consecutive characters.
pub open spec fn has_run(hay: Seq<char>, needle: Seq<char>) -> bool {
    exists|i: int| occurs_at(hay, needle, i)
}

/// Whether `needle` stands in `hay` at position `i`.
pub open spec fn occurs_at(hay: Seq<char>, needle: Seq<char>, i: int) -> bool {
    0 <= i && i + needle.len() <= hay.len() && hay.subrange(i, i + needle.len()) == needle
}

/// The characters of a text.
pub fn chars_of(s: &str) -> (v: Vec<char>)
    ensures
        v@ == s@,
{
    let mut v: Vec<char> = Vec::new();
    for c in it: s.chars()
        invariant
            it.seq() == s@,
            v@ == it.seq().take(it.index() as int),
    {
        v.push(c);
        assert(v@ =~= it.seq().take(it.index() + 1));
    }
    v
}

/// Where the line that begins at `from` stops: the position of its line
/// feed, or the length of the text.
pub fn find_line_end(chars: &Vec<char>, from: usize) -> (end: usize)
    requires
        from <= chars@.len(),
    ensures
        end == line_end(chars@, from as int),
        from <= end <= chars@.len(),
{
    let mut end = from;
    while end < chars.len() && chars[end] != '\n'
        invariant
            from <= end <= chars@.len(),
            line_end(chars@, from as int) == line_end(chars@, end as int),
        decreases chars@.len() - end,
    {
        end += 1;
    }
    end
}

/// Whether `needle` occurs in the part of `chars` from `lo` to `hi`.
pub fn window_has_run(chars: &Vec<char>, lo: usize, hi: usize, needle: &Vec<char>) -> (found: bool)
    requires
        lo <= hi <= chars@.len(),
    ensures
        found == has_run(chars@.subrange(lo as int, hi as int), needle@),
{
    let ghost hay = chars@.subrange(lo as int, hi as int);
    let m = needle.len();
    if m > hi - lo {
        assert(!has_run(hay, needle@)) by {
            if has_run(hay, needle@) {
                let i = choose|i: int| occurs_at(hay, needle@, i);
                assert(occurs_at(hay, needle@, i));
            }
        }
        return false;
    }
    let last = hi - lo - m;
    let mut i: usize = 0;
    while i <= last
        invariant
            i <= last + 1,
            last == hi - lo - m,
            m == needle@.len(),
            lo <= hi <= chars@.len(),
            hay == chars@.subrange(lo as int, hi as int),
            forall|k: int| 0 <= k < i ==> !occurs_at(hay, needle@, k),
        decreases last + 1 - i,
    {
        let mut j: usize = 0;
        while j < m && chars[lo + i + j] == needle[j]
            invariant
                j <= m,
                i <= last,
                last == hi - lo - m,
                m == needle@.len(),
                lo <= hi <= chars@.len(),
                hay == chars@.subrange(lo as int, hi as int),
                forall|k: int| 0 <= k < j ==> hay[i + k] == needle@[k],
            decreases m - j,
        {
            j += 1;
        }
        if j == m {
            assert(hay.subrange(i as int, i + m) =~= needle@);
            assert(occurs_at(hay, needle@, i as int));
            return true;
        }
        assert(!occurs_at(hay, needle@, i as int)) by {
            if occurs_at(hay, needle@, i as int) {
                assert(hay.subrange(i as int, i + m)[j as int] == needle@[j as int]);
            }
        }
        i += 1;
    }
    assert(!has_run(hay, needle@)) by {
        if has_run(hay, needle@) {
            let k = choose|k: int| occurs_at(hay, needle@, k);
            assert(occurs_at(hay, needle@, k));
        }
    }
    false
}

} // verus!
