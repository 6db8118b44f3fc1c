//! The first pass: addresses and labels.
//!
//! The lines of a program are walked once with an address counter that starts
//! at 0. A label is bound to the counter as it stands at its line. A line of
//! code takes the counter as its address and advances it by one. A
//! reservation, `RESGR` with the number of cells, advances the counter by that
//! number and leaves no line behind. The counter wraps at the limit of
//! `usize`.

use crate::error::{answer_view, CompilationError, ErrorView, EvalFailure};
use crate::labels::{bindings, LabelTable};
use crate::line::{source_lines, texts, Line, SourceLine};
use crate::text::{equals, label_split, omit_label, split_trimmed, trim, trimmed, trimmed_split};
use vstd::prelude::*;
use vstd::string::*;

verus! {

/// Where the first pass stands: the address counter, the lines of code found
/// and the labels defined so far.
pub struct Resolution {
    pub counter: usize,
    pub lines: Seq<SourceLine>,
    pub labels: Seq<(Seq<char>, usize)>,
}

/// The first pass before its first line.
pub open spec fn start() -> Resolution {
    Resolution { counter: 0, lines: Seq::empty(), labels: Seq::empty() }
}

/// The operand of a reservation, where the text is one: `Some(None)` for a
/// reservation without operand, `None` for any other text.
pub open spec fn reservation_of(body: Seq<char>) -> Option<Option<Seq<char>>> {
    let (insn, operand) = split_trimmed(body, " "@);
    if insn == "RESGR"@ {
        Some(operand)
    } else {
        None
    }
}

/// The text of a line behind its label, trimmed.
pub open spec fn body_of(line: Seq<char>) -> Seq<char> {
    trimmed(label_split(line).1)
}

/// The expression that the first pass evaluates for a line: the operand of
/// its reservation, if it is one.
pub open spec fn reservation_expression(line: Seq<char>) -> Option<Seq<char>> {
    let body = body_of(line);
    if body.len() == 0 {
        None
    } else {
        match reservation_of(body) {
            Some(Some(e)) => Some(e),
            _ => None,
        }
    }
}

/// The first pass over one line. `number` is the line's number, counted from
/// 1, and `answer` the value of its reservation's operand, which is read only
/// where the line is a reservation with an operand.
pub open spec fn resolve_line(
    state: Resolution,
    line: Seq<char>,
    number: int,
    answer: Result<i64, Seq<char>>,
) -> Result<Resolution, ErrorView> {
    let labels = match label_split(line).0 {
        Some(label) => state.labels.push((label, state.counter)),
        None => state.labels,
    };
    let body = body_of(line);
    let here = SourceLine { address: state.counter as int, line_number: number, text: body };
    if body.len() == 0 {
        Ok(Resolution { labels: labels, ..state })
    } else {
        match reservation_of(body) {
            None => Ok(
                Resolution {
                    counter: state.counter.wrapping_add(1),
                    lines: state.lines.push(here),
                    labels: labels,
                },
            ),
            Some(None) => Err(ErrorView::NoOperand { line: here, opcode: "RESGR"@ }),
            Some(Some(expr)) => match answer {
                Err(e) => Err(ErrorView::MathEval(here, e)),
                Ok(size) => if 0 <= size <= usize::MAX {
                    Ok(
                        Resolution {
                            counter: state.counter.wrapping_add(size as usize),
                            labels: labels,
                            ..state
                        },
                    )
                } else {
                    Err(ErrorView::NegativeRegisters { line: here, expr: expr, value: size })
                },
            },
        }
    }
}

/// The first pass over the first `n` lines. It stops at the first failure.
pub open spec fn resolved_lines(
    input: Seq<Seq<char>>,
    answers: Seq<Result<i64, Seq<char>>>,
    n: nat,
) -> Result<Resolution, ErrorView>
    decreases n,
{
    if n == 0 {
        Ok(start())
    } else {
        match resolved_lines(input, answers, (n - 1) as nat) {
            Err(e) => Err(e),
            Ok(state) => resolve_line(state, input[n - 1], n as int, answers[n - 1]),
        }
    }
}

/// What the evaluator answered, line by line, as mathematical values.
pub open spec fn answer_views(answers: Seq<Result<i64, EvalFailure>>) -> Seq<
    Result<i64, Seq<char>>,
> {
    Seq::new(answers.len(), |j: int| answer_view(answers[j]))
}

/// `answer` is a value that the evaluator may give to the reservation of
/// `line`, without labels. For a line without one, any answer will do.
pub open spec fn sized<'a, F: Fn(&str, Option<&LabelTable<'a>>) -> Result<i64, EvalFailure>>(
    eval: &F,
    line: Seq<char>,
    answer: Result<i64, EvalFailure>,
) -> bool {
    match reservation_expression(line) {
        None => true,
        Some(text) => exists|e: &str|
            e@ == text && #[trigger] call_ensures(eval, (e, None::<&LabelTable<'a>>), answer),
    }
}

/// `r` is the outcome of the first pass over `input`, given that the
/// evaluator answered `answers` for the lines that were reached: one answer
/// for each line up to the one that failed, or for all.
pub open spec fn resolves<'a, F: Fn(&str, Option<&LabelTable<'a>>) -> Result<i64, EvalFailure>>(
    eval: &F,
    input: Seq<&'a str>,
    answers: Seq<Result<i64, EvalFailure>>,
    r: Result<(Vec<Line<'a>>, LabelTable<'a>), CompilationError<'a>>,
) -> bool {
    &&& answers.len() <= input.len()
    &&& forall|j: int| 0 <= j < answers.len() ==> sized(eval, input[j]@, #[trigger] answers[j])
    &&& match resolved_lines(texts(input), answer_views(answers), answers.len()) {
        Err(e) => r is Err && r->Err_0@ == e,
        Ok(state) => {
            &&& r is Ok
            &&& answers.len() == input.len()
            &&& source_lines(r->Ok_0.0@) == state.lines
            &&& r->Ok_0.1.log() == state.labels
        },
    }
}

/// The first pass over `n` lines reads only the first `n` answers.
pub proof fn lemma_resolved_prefix(
    input: Seq<Seq<char>>,
    a: Seq<Result<i64, Seq<char>>>,
    b: Seq<Result<i64, Seq<char>>>,
    n: nat,
)
    requires
        n <= a.len(),
        n <= b.len(),
        forall|j: int| 0 <= j < n ==> a[j] == b[j],
    ensures
        resolved_lines(input, a, n) == resolved_lines(input, b, n),
    decreases n,
{
    if n > 0 {
        lemma_resolved_prefix(input, a, b, (n - 1) as nat);
    }
}

/// A reservation moves the address counter by its size and leaves no line
/// behind: the line of code that follows it stands that many cells past the
/// counter at the reservation.
pub proof fn lemma_reservation_advances(
    state: Resolution,
    reservation: Seq<char>,
    size: i64,
    code: Seq<char>,
    number: int,
)
    requires
        reservation_expression(reservation) is Some,
        0 <= size,
        state.counter + size <= usize::MAX,
        body_of(code).len() > 0,
        reservation_of(body_of(code)) is None,
    ensures
        resolve_line(state, reservation, number, Ok(size)) is Ok,
        ({
            let after = resolve_line(state, reservation, number, Ok(size))->Ok_0;
            &&& after.lines == state.lines
            &&& after.counter == state.counter + size
            &&& forall|answer: Result<i64, Seq<char>>| #[trigger]
                resolve_line(after, code, number + 1, answer) is Ok
            &&& forall|answer: Result<i64, Seq<char>>|
                (#[trigger] resolve_line(after, code, number + 1, answer))->Ok_0.lines
                    == state.lines.push(
                    SourceLine {
                        address: state.counter + size,
                        line_number: number + 1,
                        text: body_of(code),
                    },
                )
        }),
{
}

/// Once a line has failed, the pass has failed with that line's failure,
/// whatever stands on the lines after it.
pub proof fn lemma_first_failure_is_reported(
    input: Seq<Seq<char>>,
    answers: Seq<Result<i64, Seq<char>>>,
    k: nat,
    n: nat,
)
    requires
        k < n,
        resolved_lines(input, answers, k) is Ok,
        resolve_line(
            resolved_lines(input, answers, k)->Ok_0,
            input[k as int],
            k as int + 1,
            answers[k as int],
        ) is Err,
    ensures
        resolved_lines(input, answers, n) == Err::<Resolution, ErrorView>(
            resolve_line(
                resolved_lines(input, answers, k)->Ok_0,
                input[k as int],
                k as int + 1,
                answers[k as int],
            )->Err_0,
        ),
    decreases n,
{
    if n > k + 1 {
        lemma_first_failure_is_reported(input, answers, k, (n - 1) as nat);
    }
}

/// A pass that succeeds on `n` lines has succeeded on every number of lines
/// below `n`.
pub proof fn lemma_resolved_before(
    input: Seq<Seq<char>>,
    answers: Seq<Result<i64, Seq<char>>>,
    k: nat,
    n: nat,
)
    requires
        k <= n,
        resolved_lines(input, answers, n) is Ok,
    ensures
        resolved_lines(input, answers, k) is Ok,
    decreases n,
{
    if k < n {
        lemma_resolved_before(input, answers, k, (n - 1) as nat);
    }
}

/// Every label of the program is in the table when the first pass is over,
/// also for the lines that stand before its definition. It is bound to the
/// address counter as it stood at its last definition.
pub proof fn lemma_label_is_bound(
    input: Seq<Seq<char>>,
    answers: Seq<Result<i64, Seq<char>>>,
    n: nat,
    j: nat,
)
    requires
        j < n,
        resolved_lines(input, answers, n) is Ok,
        label_split(input[j as int]).0 is Some,
    ensures
        resolved_lines(input, answers, j) is Ok,
        ({
            let label = label_split(input[j as int]).0->Some_0;
            let table = bindings(resolved_lines(input, answers, n)->Ok_0.labels);
            &&& table.contains_key(label)
            &&& (forall|k: int| j < k < n ==> label_split(#[trigger] input[k]).0 != Some(label))
                ==> table[label] == resolved_lines(input, answers, j)->Ok_0.counter
        }),
    decreases n,
{
    lemma_resolved_before(input, answers, j, n);
    lemma_resolved_before(input, answers, (n - 1) as nat, n);
    let before = resolved_lines(input, answers, (n - 1) as nat)->Ok_0;
    let last = input[n - 1];
    let after = resolved_lines(input, answers, n)->Ok_0;
    assert(resolve_line(before, last, n as int, answers[n - 1]) == Ok::<Resolution, ErrorView>(
        after,
    ));
    match label_split(last).0 {
        Some(l) => {
            assert(after.labels == before.labels.push((l, before.counter)));
            assert(after.labels.drop_last() =~= before.labels);
        },
        None => {
            assert(after.labels == before.labels);
        },
    }
    if j < n - 1 {
        lemma_label_is_bound(input, answers, (n - 1) as nat, j);
    }
}

/// An evaluator that gives one answer to one text.
pub open spec fn single_valued<'a, F: Fn(&str, Option<&LabelTable<'a>>) -> Result<i64, EvalFailure>>(
    eval: &F,
) -> bool {
    forall|e1: &str, e2: &str, v1: Result<i64, EvalFailure>, v2: Result<i64, EvalFailure>|
        e1@ == e2@ && #[trigger] call_ensures(eval, (e1, None::<&LabelTable<'a>>), v1)
            && #[trigger] call_ensures(eval, (e2, None::<&LabelTable<'a>>), v2) ==> answer_view(v1)
            == answer_view(v2)
}

/// Two runs of the first pass over the same lines, with an evaluator that
/// gives one answer to one text, agree up to the shorter of them.
proof fn lemma_runs_agree<'a, F: Fn(&str, Option<&LabelTable<'a>>) -> Result<i64, EvalFailure>>(
    eval: &F,
    input: Seq<&'a str>,
    a: Seq<Result<i64, EvalFailure>>,
    b: Seq<Result<i64, EvalFailure>>,
    n: nat,
)
    requires
        single_valued(eval),
        n <= a.len(),
        n <= b.len(),
        n <= input.len(),
        forall|j: int| 0 <= j < a.len() ==> sized(eval, input[j]@, #[trigger] a[j]),
        forall|j: int| 0 <= j < b.len() ==> sized(eval, input[j]@, #[trigger] b[j]),
    ensures
        resolved_lines(texts(input), answer_views(a), n) == resolved_lines(
            texts(input),
            answer_views(b),
            n,
        ),
    decreases n,
{
    if n > 0 {
        lemma_runs_agree(eval, input, a, b, (n - 1) as nat);
        let line = input[n - 1]@;
        assert(texts(input)[n - 1] == line);
        assert(sized(eval, line, a[n - 1]));
        assert(sized(eval, line, b[n - 1]));
        assert(answer_views(a)[n - 1] == answer_view(a[n - 1]));
        assert(answer_views(b)[n - 1] == answer_view(b[n - 1]));
    }
}

/// A failed pass stays failed on more lines.
proof fn lemma_failure_stays(
    input: Seq<Seq<char>>,
    answers: Seq<Result<i64, Seq<char>>>,
    k: nat,
    n: nat,
)
    requires
        k <= n,
        resolved_lines(input, answers, k) is Err,
    ensures
        resolved_lines(input, answers, n) == resolved_lines(input, answers, k),
    decreases n,
{
    if k < n {
        lemma_failure_stays(input, answers, k, (n - 1) as nat);
    }
}

/// Resolving the same lines twice gives the same lines of code with the same
/// addresses and the same labels, or the same failure, provided that the
/// evaluator gives one answer to one text.
pub proof fn lemma_resolution_is_repeatable<
    'a,
    F: Fn(&str, Option<&LabelTable<'a>>) -> Result<i64, EvalFailure>,
>(
    eval: &F,
    input: Seq<&'a str>,
    first_answers: Seq<Result<i64, EvalFailure>>,
    first: Result<(Vec<Line<'a>>, LabelTable<'a>), CompilationError<'a>>,
    second_answers: Seq<Result<i64, EvalFailure>>,
    second: Result<(Vec<Line<'a>>, LabelTable<'a>), CompilationError<'a>>,
)
    requires
        single_valued(eval),
        resolves(eval, input, first_answers, first),
        resolves(eval, input, second_answers, second),
    ensures
        match (first, second) {
            (Ok(x), Ok(y)) => source_lines(x.0@) == source_lines(y.0@) && x.1.log() == y.1.log()
                && x.1@ == y.1@,
            (Err(x), Err(y)) => x@ == y@,
            _ => false,
        },
{
    let a = first_answers;
    let b = second_answers;
    let lines = texts(input);
    if a.len() <= b.len() {
        lemma_runs_agree(eval, input, a, b, a.len());
        if a.len() < b.len() {
            lemma_failure_stays(lines, answer_views(b), a.len(), b.len());
        }
    } else {
        lemma_runs_agree(eval, input, a, b, b.len());
        lemma_failure_stays(lines, answer_views(a), b.len(), a.len());
    }
}

/// Walks the lines of a program, removes their labels and gives each line of
/// code its address. Returns the lines of code and the table of labels, or
/// the failure of the first line that has one. `eval` is called for the
/// operand of each reservation that is reached, without labels.
pub fn expand_and_omit_labels<
    'a,
    F: Fn(&str, Option<&LabelTable<'a>>) -> Result<i64, EvalFailure>,
>(input: &Vec<&'a str>, eval: &F) -> (r: Result<
    (Vec<Line<'a>>, LabelTable<'a>),
    CompilationError<'a>,
>)
    requires
        forall|e: &str, t: Option<&LabelTable<'a>>| call_requires(eval, (e, t)),
    ensures
        exists|answers: Seq<Result<i64, EvalFailure>>| resolves(eval, input@, answers, r),
{
    let mut address_counter: usize = 0;
    let mut lines: Vec<Line<'a>> = Vec::new();
    let mut labels: LabelTable<'a> = LabelTable::new();
    let ghost mut answers: Seq<Result<i64, EvalFailure>> = Seq::empty();
    let mut i: usize = 0;
    proof {
        assert(source_lines(lines@) =~= Seq::<SourceLine>::empty());
    }
    while i < input.len()
        invariant
            i <= input.len(),
            answers.len() == i,
            forall|e: &str, t: Option<&LabelTable<'a>>| call_requires(eval, (e, t)),
            forall|j: int| 0 <= j < i ==> sized(eval, input@[j]@, #[trigger] answers[j]),
            resolved_lines(texts(input@), answer_views(answers), i as nat) == Ok::<
                Resolution,
                ErrorView,
            >(
                Resolution {
                    counter: address_counter,
                    lines: source_lines(lines@),
                    labels: labels.log(),
                },
            ),
        decreases input.len() - i,
    {
        let line: &'a str = input[i];
        let ghost before = answers;
        let ghost state = Resolution {
            counter: address_counter,
            lines: source_lines(lines@),
            labels: labels.log(),
        };
        let ghost old_lines = lines@;
        let (label, line_without_label) = omit_label(line);
        let line_without_label: &'a str = trim(line_without_label);
        if let Some(label) = label {
            labels.insert(label, address_counter);
        }
        let line_struct = Line {
            address: address_counter,
            line_number: i + 1,
            line: line_without_label,
        };
        let mut failure: Option<CompilationError<'a>> = None;
        let ghost mut answer: Result<i64, EvalFailure> = Ok(0);
        if line_without_label.unicode_len() != 0 {
            let (insn, operand) = trimmed_split(line_without_label, " ");
            if equals(insn, "RESGR") {
                match operand {
                    None => {
                        failure =
                        Some(CompilationError::NoOperand { line: line_struct, opcode: "RESGR" });
                    },
                    Some(operand) => {
                        let value = eval(operand, None);
                        proof {
                            answer = value;
                        }
                        match value {
                            Err(e) => {
                                failure = Some(CompilationError::MathEval(line_struct, e));
                            },
                            Ok(value) => {
                                if value < 0 || value as u64 > usize::MAX as u64 {
                                    failure =
                                    Some(
                                        CompilationError::NegativeRegisters {
                                            line: line_struct,
                                            expr: operand,
                                            value: value,
                                        },
                                    );
                                } else {
                                    address_counter = address_counter.wrapping_add(value as usize);
                                }
                            },
                        }
                    },
                }
            } else {
                lines.push(line_struct);
                address_counter = address_counter.wrapping_add(1);
            }
        }
        proof {
            answers = before.push(answer);
            lemma_resolved_prefix(
                texts(input@),
                answer_views(before),
                answer_views(answers),
                i as nat,
            );
            assert(texts(input@)[i as int] == line@);
            assert(answer_views(answers)[i as int] == answer_view(answer));
            assert(resolved_lines(texts(input@), answer_views(answers), (i + 1) as nat)
                == resolve_line(state, line@, i + 1, answer_view(answer)));
            if lines@.len() == old_lines.len() {
                assert(source_lines(lines@) =~= source_lines(old_lines));
            } else {
                assert(source_lines(lines@) =~= source_lines(old_lines).push(line_struct@));
            }
            assert forall|j: int| 0 <= j < i + 1 implies sized(
                eval,
                input@[j]@,
                #[trigger] answers[j],
            ) by {
                if j < i {
                    assert(answers[j] == before[j]);
                }
            }
        }
        if let Some(e) = failure {
            proof {
                assert(resolves(eval, input@, answers, Err(e)));
            }
            return Err(e);
        }
        i += 1;
    }
    proof {
        assert(resolves(eval, input@, answers, Ok((lines, labels))));
    }
    Ok((lines, labels))
}

} // verus!
