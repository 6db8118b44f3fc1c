//! From program text to the lines that the assembler works on.

use crate::line::texts;
use crate::text::{equals, find, first_match, trim, trimmed};
use vstd::prelude::*;
use vstd::string::*;

verus! {

/// A line without its comment: what stands before the first `|`.
pub open spec fn before_comment(line: Seq<char>) -> Seq<char> {
    match first_match(line, "|"@) {
        Some(i) => line.subrange(0, i),
        None => line,
    }
}

/// A line without its comment and without white space around it.
pub open spec fn normalized(line: Seq<char>) -> Seq<char> {
    trimmed(before_comment(line))
}

/// The lines of a program text: each line of the text without its comment
/// and trimmed, the empty ones left out, up to the first that reads `EINDPR`.
pub open spec fn filtered_lines(source: Seq<char>) -> Seq<Seq<char>>
    decreases source.len(),
{
    match first_match(source, "\n"@) {
        None => {
            let line = normalized(source);
            if line == "EINDPR"@ || line.len() == 0 {
                Seq::empty()
            } else {
                seq![line]
            }
        },
        Some(i) => {
            let line = normalized(source.subrange(0, i));
            if line == "EINDPR"@ || !(0 <= i < source.len()) {
                Seq::empty()
            } else {
                let rest = filtered_lines(source.subrange(i + 1, source.len() as int));
                if line.len() == 0 {
                    rest
                } else {
                    seq![line] + rest
                }
            }
        },
    }
}

/// Removes the comment of a line.
pub fn strip_comment<'a>(line: &'a str) -> (r: &'a str)
    ensures
        r@ == before_comment(line@),
{
    match find(line, "|") {
        Some(i) => line.substring_char(0, i),
        None => line,
    }
}

/// Returns the lines of a program with comments and surrounding white space
/// removed. Empty lines are left out. Reading stops at the end of the text or
/// at a line that reads `EINDPR`.
pub fn as_filtered_lines<'a>(input: &'a str) -> (lines: Vec<&'a str>)
    ensures
        texts(lines@) == filtered_lines(input@),
{
    let mut lines: Vec<&'a str> = Vec::new();
    let mut rest: &'a str = input;
    let mut done: bool = false;
    proof {
        assert(texts(lines@) + filtered_lines(rest@) =~= filtered_lines(input@));
    }
    while !done
        invariant
            filtered_lines(input@) == texts(lines@) + (if done {
                Seq::<Seq<char>>::empty()
            } else {
                filtered_lines(rest@)
            }),
        decreases
                (if done {
                    0
                } else {
                    rest@.len() + 1
                }),
    {
        let n: usize = rest.unicode_len();
        let ghost before = lines@;
        let ghost whole = rest@;
        let at: Option<usize> = find(rest, "\n");
        let line: &'a str = match at {
            Some(i) => rest.substring_char(0, i),
            None => rest,
        };
        let x: &'a str = trim(strip_comment(line));
        if equals(x, "EINDPR") {
            done = true;
        } else {
            if x.unicode_len() != 0 {
                lines.push(x);
            }
            match at {
                Some(i) => {
                    proof {
                        reveal_strlit("\n");
                    }
                    rest = rest.substring_char(i + 1, n);
                },
                None => {
                    done = true;
                },
            }
        }
        proof {
            let tail = if done {
                Seq::<Seq<char>>::empty()
            } else {
                filtered_lines(rest@)
            };
            if x@ != "EINDPR"@ && x@.len() != 0 {
                assert(texts(lines@) =~= texts(before) + seq![x@]);
                assert(texts(before) + (seq![x@] + tail) =~= texts(lines@) + tail);
            } else {
                assert(texts(lines@) =~= texts(before));
                assert(texts(before) + Seq::<Seq<char>>::empty() =~= texts(before));
            }
        }
    }
    proof {
        assert(texts(lines@) + Seq::<Seq<char>>::empty() =~= texts(lines@));
    }
    lines
}

} // verus!
