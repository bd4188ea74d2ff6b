//! Rows: what a page shows for each line of text that a probe returned.

use crate::text::{
    find_char, is_bare, lemma_position, lemma_position_is, lines_of, position, to_chars,
    trim_bounds, trimmed, Strip,
};
use vstd::prelude::*;

verus! {

/// One entry of a page: a title and, beside it, a subtitle.
#[derive(Debug, PartialEq, Eq)]
pub struct Row {
    pub title: String,
    pub subtitle: String,
}

/// A row as text.
pub struct RowText {
    pub title: Seq<char>,
    pub subtitle: Seq<char>,
}

impl View for Row {
    type V = RowText;

    open spec fn view(&self) -> RowText {
        RowText { title: self.title@, subtitle: self.subtitle@ }
    }
}

/// The row that shows `line`: the line is split at its first `:`, and both
/// parts lose the white space around them. A line without `:` is all title.
pub open spec fn row_of(line: Seq<char>) -> RowText {
    let p = position(line, ':');
    if p < line.len() {
        RowText { title: trimmed(line.take(p)), subtitle: trimmed(line.skip(p + 1)) }
    } else {
        RowText { title: trimmed(line), subtitle: Seq::empty() }
    }
}

/// The rows of `v` as text.
pub open spec fn rows_text(v: Seq<Row>) -> Seq<RowText> {
    Seq::new(v.len(), |i: int| v[i]@)
}

/// The rows that show `lines`: one for each line, in the order of the lines.
pub open spec fn rows_of(lines: Seq<Seq<char>>) -> Seq<RowText> {
    Seq::new(lines.len(), |i: int| row_of(lines[i]))
}

/// A line without `:` is all title: its row has the line, less the white
/// space around it, as its title, and an empty subtitle. Where the line has
/// no white space around it, the title is the whole line.
pub proof fn lemma_row_without_colon(line: Seq<char>)
    requires
        !line.contains(':'),
    ensures
        row_of(line).title == trimmed(line),
        row_of(line).subtitle == Seq::<char>::empty(),
        is_bare(line) ==> row_of(line).title == line,
{
    lemma_position(line, ':');
}

/// A line with a `:` is split at the first one: what stands before it is
/// the title, all that stands after it the subtitle, each less the white
/// space around it.
pub proof fn lemma_row_with_colon(before: Seq<char>, after: Seq<char>)
    requires
        !before.contains(':'),
    ensures
        row_of(before + seq![':'] + after).title == trimmed(before),
        row_of(before + seq![':'] + after).subtitle == trimmed(after),
{
    let line = before + seq![':'] + after;
    let p = before.len() as int;
    lemma_position_is(line, ':', p);
    assert(line.take(p) =~= before);
    assert(line.skip(p + 1) =~= after);
}

/// The rows of lines are as many as the lines, and each row is that of the
/// line at its place.
pub proof fn lemma_rows_in_order(lines: Seq<Seq<char>>)
    ensures
        rows_of(lines).len() == lines.len(),
        forall|i: int| 0 <= i < lines.len() ==> #[trigger] rows_of(lines)[i] == row_of(lines[i]),
{
}

/// The row that shows `line`.
pub fn render_line(line: &str) -> (row: Row)
    ensures
        row@ == row_of(line@),
{
    let chars = to_chars(line);
    let n = chars.len();
    let p = find_char(&chars, 0, n, ':');
    assert(chars@.subrange(0, n as int) =~= line@);
    if p < n {
        let (a, b) = trim_bounds(&chars, 0, p, Strip::WhiteSpace);
        let (c, d) = trim_bounds(&chars, p + 1, n, Strip::WhiteSpace);
        Row {
            title: line.substring_char(a, b).to_owned(),
            subtitle: line.substring_char(c, d).to_owned(),
        }
    } else {
        let (a, b) = trim_bounds(&chars, 0, n, Strip::WhiteSpace);
        Row { title: line.substring_char(a, b).to_owned(), subtitle: String::new() }
    }
}

/// The rows that show `lines`.
pub fn render_lines(lines: &Vec<String>) -> (rows: Vec<Row>)
    ensures
        rows_text(rows@) == rows_of(lines_of(lines@)),
{
    let mut rows: Vec<Row> = Vec::new();
    let mut i: usize = 0;
    while i < lines.len()
        invariant
            i <= lines.len(),
            rows.len() == i,
            forall|k: int| 0 <= k < i ==> (#[trigger] rows@[k])@ == row_of(lines@[k]@),
        decreases lines.len() - i,
    {
        let row = render_line(lines[i].as_str());
        rows.push(row);
        i += 1;
    }
    rows
}

} // verus!
