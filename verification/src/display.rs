//! Rows as they are handed to the renderer.

use vstd::prelude::*;
use vstd::string::*;
use crate::sorting::SortDirection;
use crate::tabular::{Alignment, Tabular};

verus! {

/// One cell of a row: its text and how it is aligned.
#[derive(Clone, Debug)]
pub struct DisplayCell {
    pub text: String,
    pub alignment: Alignment,
}

/// One row, ready to be drawn.
#[derive(Clone, Debug)]
pub struct DisplayRow {
    pub cells: Vec<DisplayCell>,
    pub style: ratatui::style::Style,
    pub height: u16,
}

impl DisplayRow {
    /// The text of each cell.
    pub open spec fn texts(&self) -> Seq<Seq<char>> {
        Seq::new(self.cells@.len(), |c: int| self.cells@[c].text@)
    }

    /// The alignment of each cell.
    pub open spec fn alignments(&self) -> Seq<Alignment> {
        Seq::new(self.cells@.len(), |c: int| self.cells@[c].alignment)
    }
}

/// The cells of a row: the texts of `content`, each with the alignment of its
/// column. A text without an alignment, or an alignment without a text, makes
/// no cell.
pub fn display_row(
    content: &Vec<String>,
    alignments: &Vec<Alignment>,
    style: ratatui::style::Style,
    height: u16,
) -> (row: DisplayRow)
    ensures
        row.cells@.len() == (if content@.len() <= alignments@.len() {
            content@.len()
        } else {
            alignments@.len()
        }),
        forall|c: int|
            0 <= c < row.cells@.len() ==> (#[trigger] row.cells@[c]).text@ == content@[c]@
                && row.cells@[c].alignment == alignments@[c],
        row.style == style,
        row.height == height,
{
    let mut cells: Vec<DisplayCell> = Vec::new();
    let mut c: usize = 0;
    while c < content.len() && c < alignments.len()
        invariant
            c <= content@.len(),
            c <= alignments@.len(),
            cells@.len() == c,
            forall|k: int|
                0 <= k < c ==> (#[trigger] cells@[k]).text@ == content@[k]@ && cells@[k].alignment
                    == alignments@[k],
        decreases content@.len() - c,
    {
        cells.push(DisplayCell { text: content[c].clone(), alignment: alignments[c] });
        c += 1;
    }
    DisplayRow { cells, style, height }
}

/// The mark that the name of the selected column carries in the header.
pub open spec fn marker_of(direction: SortDirection) -> Seq<char> {
    match direction {
        SortDirection::Ascending => seq!['▲'],
        SortDirection::Unsorted => seq!['-'],
        SortDirection::Descending => seq!['▼'],
    }
}

/// The name of the selected column as the header shows it: `name` and the
/// mark of `direction` behind it.
pub fn format_column_name(name: String, direction: SortDirection) -> (marked: String)
    ensures
        marked@ == name@ + marker_of(direction),
{
    proof {
        reveal_strlit("▲");
        reveal_strlit("-");
        reveal_strlit("▼");
    }
    let mark = match direction {
        SortDirection::Ascending => "▲",
        SortDirection::Unsorted => "-",
        SortDirection::Descending => "▼",
    };
    assert(mark@ =~= marker_of(direction));
    name.concat(mark)
}

/// The text of the header cell of column `c`.
pub open spec fn header_text(
    name: Seq<char>,
    c: int,
    selected: Option<usize>,
    direction: SortDirection,
) -> Seq<char> {
    if selected == Some(c as usize) {
        name + marker_of(direction)
    } else {
        name
    }
}

/// The header row: the names of the columns, that of the selected column with
/// the mark of the sort direction.
pub fn build_header(
    names: &Vec<String>,
    alignments: &Vec<Alignment>,
    selected: Option<usize>,
    direction: SortDirection,
    style: ratatui::style::Style,
) -> (row: DisplayRow)
    ensures
        row.cells@.len() == (if names@.len() <= alignments@.len() {
            names@.len()
        } else {
            alignments@.len()
        }),
        forall|c: int|
            0 <= c < row.cells@.len() ==> (#[trigger] row.cells@[c]).text@ == header_text(
                names@[c]@,
                c,
                selected,
                direction,
            ) && row.cells@[c].alignment == alignments@[c],
        row.style == style,
        row.height == 1,
{
    let mut cells: Vec<DisplayCell> = Vec::new();
    let mut c: usize = 0;
    while c < names.len() && c < alignments.len()
        invariant
            c <= names@.len(),
            c <= alignments@.len(),
            cells@.len() == c,
            forall|k: int|
                0 <= k < c ==> (#[trigger] cells@[k]).text@ == header_text(
                    names@[k]@,
                    k,
                    selected,
                    direction,
                ) && cells@[k].alignment == alignments@[k],
        decreases names@.len() - c,
    {
        let marked = match selected {
            Some(col) => col == c,
            None => false,
        };
        let text = if marked {
            format_column_name(names[c].clone(), direction)
        } else {
            names[c].clone()
        };
        cells.push(DisplayCell { text, alignment: alignments[c] });
        c += 1;
    }
    DisplayRow { cells, style, height: 1 }
}

/// A row of the table with what was derived from it: the value handed out
/// when it is selected, and the row as drawn.
pub struct Entry<T: Tabular> {
    pub row: T,
    pub value: T::Value,
    pub display: DisplayRow,
}

} // verus!
