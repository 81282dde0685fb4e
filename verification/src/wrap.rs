//! The soft-wrap layout: split the buffer text into display lines at a given
//! pane width and derive the visual cursor position from the result. The line
//! breaking itself is done by the textwrap crate; the cursor placement over
//! its output is verified here.

use vstd::prelude::*;

verus! {

/// The display lines that textwrap produces for a text at a width. Splitting
/// at a newline yields one entry per line, so text ending in a newline yields
/// a final empty entry; breaking within a line follows textwrap's word-wrap
/// rules.
pub uninterp spec fn wrap_lines(s: Seq<char>, width: int) -> Seq<Seq<char>>;

/// Relies on textwrap::wrap with default options: the wrapped lines depend on
/// the text and the width alone. wrap splits the text at newlines and emits
/// at least one line per piece, so text ending in a newline yields at least
/// two lines; at a positive width the final empty piece passes through as a
/// final empty line.
#[verifier::external_body]
fn wrap_text(content: &Vec<char>, max_width: usize) -> (lines: Vec<Vec<char>>)
    ensures
        lines.deep_view() == wrap_lines(content@, max_width as int),
        content@.len() > 0 && content@.last() == '\n' && max_width >= 1 ==> {
            &&& lines.deep_view().len() >= 2
            &&& lines.deep_view().last() == Seq::<char>::empty()
        },
{
    let text: String = content.iter().collect();
    textwrap::wrap(&text, textwrap::Options::new(max_width))
        .into_iter()
        .map(|line| line.chars().collect())
        .collect()
}

/// The row of the visual cursor: the index of the last wrapped line, or 0
/// when there are no lines.
pub open spec fn spec_cursor_row(lines: Seq<Seq<char>>) -> int {
    if lines.len() == 0 {
        0
    } else {
        lines.len() - 1
    }
}

/// The column of the visual cursor: the character length of the last wrapped
/// line, or 0 when there are no lines.
pub open spec fn spec_cursor_col(lines: Seq<Seq<char>>) -> int {
    if lines.len() == 0 {
        0
    } else {
        lines.last().len() as int
    }
}

/// Wrapped display lines and the visual cursor position they place.
pub struct WrapResult {
    pub lines: Vec<Vec<char>>,
    pub cursor_row: usize,
    pub cursor_col: usize,
}

/// Wrap `content` at `max_width` and place the visual cursor after the last
/// character. Empty content yields zero lines and the cursor at the origin; a
/// trailing newline yields a final empty line, putting the cursor at the
/// start of a fresh row. Pure: the result depends on the arguments alone.
pub fn wrap_engine(content: &Vec<char>, max_width: usize) -> (r: WrapResult)
    ensures
        content@.len() == 0 ==> r.lines@.len() == 0 && r.cursor_row == 0 && r.cursor_col == 0,
        content@.len() > 0 ==> {
            &&& r.lines.deep_view() == wrap_lines(content@, max_width as int)
            &&& r.cursor_row == spec_cursor_row(wrap_lines(content@, max_width as int))
            &&& r.cursor_col == spec_cursor_col(wrap_lines(content@, max_width as int))
        },
        content@.len() > 0 && content@.last() == '\n' && max_width >= 1 ==> r.cursor_row >= 1
            && r.cursor_col == 0,
{
    if content.len() == 0 {
        WrapResult { lines: Vec::new(), cursor_row: 0, cursor_col: 0 }
    } else {
        let lines = wrap_text(content, max_width);
        let n: usize = lines.len();
        let cursor_row: usize = if n == 0 {
            0
        } else {
            n - 1
        };
        let cursor_col: usize = if n == 0 {
            0
        } else {
            lines[n - 1].len()
        };
        WrapResult { lines, cursor_row, cursor_col }
    }
}

} // verus!
