//! The assembler: from program text to the words of a program and their
//! addresses.
//!
//! Expressions are evaluated by a function that the caller hands in. It takes
//! the text of an expression and, in the second pass, the table of labels, and
//! answers with a number or with the reason why there is none. The contracts
//! below hold for whatever that function answers.

use crate::encoder::{encode_line, line_encoding, resolved, Encoding, EncodingView};
use crate::error::{answer_view, word_view, CompilationError, ErrorView, EvalFailure};
use crate::labels::LabelTable;
use crate::line::{texts, Line};
use crate::resolver::{expand_and_omit_labels, resolves};
use crate::source::{as_filtered_lines, filtered_lines};
use vstd::prelude::*;

verus! {

/// `r` is a word that the line may be encoded to, or the failure that it may
/// end in: the outcome that parsing alone gives, or the outcome of resolving
/// the line's pending encoding with a value that `eval` may give to its
/// expression under `labels`.
pub open spec fn line_outcome<'a, F: Fn(&str, Option<&LabelTable<'a>>) -> Result<i64, EvalFailure>>(
    eval: &F,
    labels: &LabelTable<'a>,
    line: Line<'a>,
    r: Result<i64, ErrorView>,
) -> bool {
    match line_encoding(line@) {
        Err(e) => r == Err::<i64, ErrorView>(e),
        Ok(EncodingView::Word(w)) => r == Ok::<i64, ErrorView>(w),
        Ok(EncodingView::Pending(p)) => exists|e: &str, v: Result<i64, EvalFailure>|
            e@ == p.expression && #[trigger] call_ensures(eval, (e, Some(labels)), v) && r
                == resolved(p, line@, answer_view(v)),
    }
}

/// The `i`-th pair of `out` holds the address of the `i`-th line and a word
/// that the line may be encoded to.
pub open spec fn word_at<'a, F: Fn(&str, Option<&LabelTable<'a>>) -> Result<i64, EvalFailure>>(
    eval: &F,
    labels: &LabelTable<'a>,
    lines: Seq<Line<'a>>,
    out: Seq<(usize, i64)>,
    i: int,
) -> bool {
    out[i].0 == lines[i].address && line_outcome(eval, labels, lines[i], Ok(out[i].1))
}

/// The line may be encoded to a word.
pub open spec fn has_word<'a, F: Fn(&str, Option<&LabelTable<'a>>) -> Result<i64, EvalFailure>>(
    eval: &F,
    labels: &LabelTable<'a>,
    line: Line<'a>,
) -> bool {
    exists|w: i64| #[trigger] line_outcome(eval, labels, line, Ok(w))
}

/// `r` is an outcome of the second pass over `lines`: a word for each line at
/// the line's address, in the order of the lines; or the failure of the first
/// line that has one, every line before it having a word.
pub open spec fn encodes<'a, F: Fn(&str, Option<&LabelTable<'a>>) -> Result<i64, EvalFailure>>(
    eval: &F,
    labels: &LabelTable<'a>,
    lines: Seq<Line<'a>>,
    r: Result<Vec<(usize, i64)>, CompilationError<'a>>,
) -> bool {
    match r {
        Ok(out) => {
            &&& out@.len() == lines.len()
            &&& forall|i: int|
                0 <= i < lines.len() ==> #[trigger] word_at(eval, labels, lines, out@, i)
        },
        Err(e) => exists|k: int|
            {
                &&& 0 <= k < lines.len()
                &&& #[trigger] line_outcome(eval, labels, lines[k], Err(e@))
                &&& forall|i: int| 0 <= i < k ==> #[trigger] has_word(eval, labels, lines[i])
            },
    }
}

/// `r` is an outcome of assembling `source`: the failure of the first pass
/// over its lines, or an outcome of the second pass over the lines and labels
/// that the first pass gave.
pub open spec fn assembles<'a, F: Fn(&str, Option<&LabelTable<'a>>) -> Result<i64, EvalFailure>>(
    eval: &F,
    source: Seq<char>,
    r: Result<Vec<(usize, i64)>, CompilationError<'a>>,
) -> bool {
    exists|
        input: Seq<&'a str>,
        answers: Seq<Result<i64, EvalFailure>>,
        first: Result<(Vec<Line<'a>>, LabelTable<'a>), CompilationError<'a>>,
    |
        {
            &&& texts(input) == filtered_lines(source)
            &&& #[trigger] resolves(eval, input, answers, first)
            &&& match first {
                Err(e) => r is Err && r->Err_0@ == e@,
                Ok((lines, labels)) => encodes(eval, &labels, lines@, r),
            }
        }
}

/// Encodes one line. `eval` is called for the line's expression, if it has
/// one, with the labels.
pub fn line_to_numerical<'a, F: Fn(&str, Option<&LabelTable<'a>>) -> Result<i64, EvalFailure>>(
    line: &Line<'a>,
    labels: &LabelTable<'a>,
    eval: &F,
) -> (r: Result<i64, CompilationError<'a>>)
    requires
        forall|e: &str, t: Option<&LabelTable<'a>>| call_requires(eval, (e, t)),
    ensures
        line_outcome(eval, labels, *line, word_view(r)),
{
    match encode_line(line) {
        Err(e) => Err(e),
        Ok(Encoding::Word(word)) => Ok(word),
        Ok(Encoding::Pending(pending)) => {
            let value = eval(pending.expression, Some(labels));
            pending.resolve(line, value)
        },
    }
}

/// Encodes the lines of a program, in order, each to the pair of its address
/// and its word. Stops at the first line that fails and returns its failure.
pub fn to_numerical_representation<
    'a,
    F: Fn(&str, Option<&LabelTable<'a>>) -> Result<i64, EvalFailure>,
>(lines: Vec<Line<'a>>, labels: &LabelTable<'a>, eval: &F) -> (r: Result<
    Vec<(usize, i64)>,
    CompilationError<'a>,
>)
    requires
        forall|e: &str, t: Option<&LabelTable<'a>>| call_requires(eval, (e, t)),
    ensures
        encodes(eval, labels, lines@, r),
{
    let mut out: Vec<(usize, i64)> = Vec::new();
    let mut i: usize = 0;
    while i < lines.len()
        invariant
            i <= lines.len(),
            out@.len() == i,
            forall|e: &str, t: Option<&LabelTable<'a>>| call_requires(eval, (e, t)),
            forall|j: int| 0 <= j < i ==> #[trigger] word_at(eval, labels, lines@, out@, j),
        decreases lines.len() - i,
    {
        let line: Line<'a> = lines[i];
        let ghost before = out@;
        let encoded = line_to_numerical(&line, labels, eval);
        match encoded {
            Ok(word) => {
                out.push((line.address, word));
                proof {
                    assert(word_view(encoded) == Ok::<i64, ErrorView>(word));
                    assert forall|j: int| 0 <= j < i + 1 implies #[trigger] word_at(
                        eval,
                        labels,
                        lines@,
                        out@,
                        j,
                    ) by {
                        if j < i {
                            assert(word_at(eval, labels, lines@, before, j));
                            assert(out@[j] == before[j]);
                        }
                    }
                }
            },
            Err(e) => {
                proof {
                    assert(word_view(encoded) == Err::<i64, ErrorView>(e@));
                    assert(line_outcome(eval, labels, lines@[i as int], Err(e@)));
                    assert forall|j: int| 0 <= j < i implies #[trigger] has_word(
                        eval,
                        labels,
                        lines@[j],
                    ) by {
                        assert(word_at(eval, labels, lines@, out@, j));
                    }
                }
                return Err(e);
            },
        }
        i += 1;
    }
    Ok(out)
}

/// Assembles a program: filters its lines, resolves addresses and labels,
/// and encodes each line of code. Returns the pairs of address and word in
/// the order of the lines, or the first failure.
pub fn compile<'a, F: Fn(&str, Option<&LabelTable<'a>>) -> Result<i64, EvalFailure>>(
    source_code: &'a str,
    eval: &F,
) -> (r: Result<Vec<(usize, i64)>, CompilationError<'a>>)
    requires
        forall|e: &str, t: Option<&LabelTable<'a>>| call_requires(eval, (e, t)),
    ensures
        assembles(eval, source_code@, r),
{
    let filtered: Vec<&'a str> = as_filtered_lines(source_code);
    let first = expand_and_omit_labels(&filtered, eval);
    let ghost answers = choose|answers: Seq<Result<i64, EvalFailure>>|
        resolves(eval, filtered@, answers, first);
    match first {
        Err(e) => {
            proof {
                assert(resolves(eval, filtered@, answers, Err(e)));
            }
            Err(e)
        },
        Ok((expanded, labels)) => {
            let r = to_numerical_representation(expanded, &labels, eval);
            proof {
                let first_again: Result<
                    (Vec<Line<'a>>, LabelTable<'a>),
                    CompilationError<'a>,
                > = Ok((expanded, labels));
                assert(resolves(eval, filtered@, answers, first_again));
            }
            r
        },
    }
}

} // verus!
