use crate::lines::chars_of;
use crate::lines::find_line_end;
use crate::lines::has_run;
use crate::lines::lemma_line_end;
use crate::lines::line_at;
use crate::lines::lines_from;
use crate::lines::lines_of;
use crate::lines::window_has_run;
use vstd::prelude::*;
use vstd::string::*;

verus! {

/// What to look for, and in which file.
pub struct Config {
    pub query: String,
    pub file_path: String,
}

impl Config {
    /// Reads the query and the file's path from the program's arguments: the
    /// second and the third of them. Fewer than three arguments are refused.
    pub fn build(args: &[String]) -> (r: Result<Config, &'static str>)
        ensures
            args@.len() < 3 <==> r is Err,
            r matches Err(message) ==> message@ == "not enough arguments"@,
            r matches Ok(config) ==> config.query@ == args@[1]@ && config.file_path@ == args@[2]@,
    {
        if args.len() < 3 {
            return Err("not enough arguments");
        }
        let query = args[1].clone();
        let file_path = args[2].clone();
        Ok(Config { query, file_path })
    }
}

/// The texts of a list of string slices, in order.
pub open spec fn slices_view(found: Seq<&str>) -> Seq<Seq<char>> {
    Seq::new(found.len(), |i: int| found[i]@)
}

/// The lines of `contents` that contain `query`, in their order.
pub open spec fn matching_lines(contents: Seq<char>, query: Seq<char>) -> Seq<Seq<char>> {
    lines_of(contents).filter(|line: Seq<char>| has_run(line, query))
}

/// The lines of `contents` in which `query` occurs, in their order, each
/// without its line ending.
pub fn search<'a>(query: &str, contents: &'a str) -> (results: Vec<&'a str>)
    ensures
        slices_view(results@) == matching_lines(contents@, query@),
{
    let needle = chars_of(query);
    let chars = chars_of(contents);
    let n = chars.len();
    let ghost s = contents@;
    let ghost pred = |line: Seq<char>| has_run(line, query@);
    let ghost mut done: Seq<Seq<char>> = Seq::empty();
    let mut results: Vec<&'a str> = Vec::new();
    let mut from: usize = 0;
    proof {
        reveal(Seq::filter);
        assert(done + lines_from(s, 0) =~= lines_of(s));
        assert(slices_view(results@) =~= done.filter(pred));
    }
    while from < n
        invariant
            from <= n,
            n == s.len(),
            s == contents@,
            chars@ == s,
            needle@ == query@,
            pred == (|line: Seq<char>| has_run(line, query@)),
            done + lines_from(s, from as int) == lines_of(s),
            slices_view(results@) == done.filter(pred),
        decreases n - from,
    {
        let end = find_line_end(&chars, from);
        proof {
            lemma_line_end(s, from as int);
        }
        let stop = if from < end && end < n && chars[end - 1] == '\r' {
            end - 1
        } else {
            end
        };
        let ghost line = line_at(s, from as int);
        assert(line == s.subrange(from as int, stop as int));
        let found = window_has_run(&chars, from, stop, &needle);
        let ghost before = done;
        proof {
            done = done.push(line);
            reveal(Seq::filter);
            assert(done.drop_last() =~= before);
            assert(done.last() == line);
        }
        if found {
            let slice = contents.substring_char(from, stop);
            results.push(slice);
            assert(slices_view(results@) =~= before.filter(pred).push(line));
        }
        assert(slices_view(results@) == done.filter(pred));
        if end >= n {
            proof {
                assert(lines_from(s, from as int) =~= seq![line]);
                assert(lines_from(s, n as int) =~= Seq::<Seq<char>>::empty());
                assert(done + lines_from(s, n as int) =~= before + lines_from(s, from as int));
            }
            from = n;
        } else {
            proof {
                assert(lines_from(s, from as int) =~= seq![line] + lines_from(s, end + 1));
                assert(done + lines_from(s, end + 1) =~= before + lines_from(s, from as int));
            }
            from = end + 1;
        }
    }
    proof {
        assert(lines_from(s, from as int) =~= Seq::<Seq<char>>::empty());
        assert(done =~= lines_of(s));
    }
    results
}

} // verus!
