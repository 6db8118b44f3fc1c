//! A line of source text after the first pass.

use vstd::prelude::*;

verus! {

/// A line of code with its label removed, the address it will be stored at
/// and its number among the lines that were kept, counted from 1.
#[derive(Debug, Clone, Copy, PartialEq, Eq)]
pub struct Line<'a> {
    pub address: usize,
    pub line_number: usize,
    pub line: &'a str,
}

/// A line as mathematical values.
pub struct SourceLine {
    pub address: int,
    pub line_number: int,
    pub text: Seq<char>,
}

impl<'a> View for Line<'a> {
    type V = SourceLine;

    open spec fn view(&self) -> SourceLine {
        SourceLine {
            address: self.address as int,
            line_number: self.line_number as int,
            text: self.line@,
        }
    }
}

/// The views of a sequence of lines.
pub open spec fn source_lines(lines: Seq<Line<'_>>) -> Seq<SourceLine> {
    Seq::new(lines.len(), |i: int| lines[i]@)
}

/// The views of a sequence of texts.
pub open spec fn texts(lines: Seq<&str>) -> Seq<Seq<char>> {
    Seq::new(lines.len(), |i: int| lines[i]@)
}

} // verus!
