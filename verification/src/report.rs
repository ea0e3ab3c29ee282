//! The lines that `status` and `destroy` show to the user.

use vstd::prelude::*;

verus! {

/// One line of a report.
#[derive(Clone, Debug, PartialEq, Eq)]
pub struct Line {
    /// The line reports something that went wrong, and goes to standard
    /// error.
    pub error: bool,
    pub text: String,
}

/// `Line` as a mathematical value.
pub struct LineView {
    pub error: bool,
    pub text: Seq<char>,
}

impl View for Line {
    type V = LineView;

    open spec fn view(&self) -> LineView {
        LineView { error: self.error, text: self.text@ }
    }
}

/// The lines as mathematical values, in order.
pub open spec fn line_views(lines: Seq<Line>) -> Seq<LineView> {
    Seq::new(lines.len(), |i: int| lines[i]@)
}

/// An ordinary line.
pub open spec fn said(text: Seq<char>) -> LineView {
    LineView { error: false, text }
}

/// A line that reports something that went wrong.
pub open spec fn warned(text: Seq<char>) -> LineView {
    LineView { error: true, text }
}

/// An ordinary line.
pub fn say(text: String) -> (r: Line)
    ensures
        r@ == said(text@),
{
    Line { error: false, text }
}

/// A line that reports something that went wrong.
pub fn warn(text: String) -> (r: Line)
    ensures
        r@ == warned(text@),
{
    Line { error: true, text }
}

/// A copy of a report.
pub fn copy_lines(lines: &Vec<Line>) -> (r: Vec<Line>)
    ensures
        line_views(r@) == line_views(lines@),
{
    let mut r: Vec<Line> = Vec::new();
    let mut i: usize = 0;
    while i < lines.len()
        invariant
            i <= lines.len(),
            r.len() == i,
            forall|j: int| 0 <= j < i ==> r@[j]@ == lines@[j]@,
        decreases lines.len() - i,
    {
        r.push(Line { error: lines[i].error, text: lines[i].text.clone() });
        i += 1;
    }
    assert(line_views(r@) =~= line_views(lines@));
    r
}

} // verus!
