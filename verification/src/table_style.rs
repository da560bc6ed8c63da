//! What a table is given when it is made: where its selection starts, and
//! how it is styled.

use vstd::prelude::*;
use crate::geometry::Padding;
use crate::tabular::plain_style;

verus! {

/// The cursor of a table: the selected row and column, and the first row
/// that is visible.
#[derive(Clone, Copy, Debug, PartialEq, Eq, Structural)]
pub struct TableState {
    pub offset: usize,
    pub selected: Option<usize>,
    pub selected_column: Option<usize>,
}

impl TableState {
    /// A cursor that is nowhere, at the top of the rows.
    pub fn new() -> (state: TableState)
        ensures
            state == (TableState { offset: 0, selected: None, selected_column: None }),
    {
        TableState { offset: 0, selected: None, selected_column: None }
    }

    pub fn with_offset(self, offset: usize) -> (state: TableState)
        ensures
            state == (TableState { offset, ..self }),
    {
        TableState { offset, selected: self.selected, selected_column: self.selected_column }
    }

    pub fn with_selected(self, selected: Option<usize>) -> (state: TableState)
        ensures
            state == (TableState { selected, ..self }),
    {
        TableState { offset: self.offset, selected, selected_column: self.selected_column }
    }

    pub fn with_selected_column(self, selected_column: Option<usize>) -> (state: TableState)
        ensures
            state == (TableState { selected_column, ..self }),
    {
        TableState { offset: self.offset, selected: self.selected, selected_column }
    }

    pub fn offset(&self) -> (offset: usize)
        ensures
            offset == self.offset,
    {
        self.offset
    }

    pub fn selected(&self) -> (selected: Option<usize>)
        ensures
            selected == self.selected,
    {
        self.selected
    }

    pub fn selected_column(&self) -> (selected: Option<usize>)
        ensures
            selected == self.selected_column,
    {
        self.selected_column
    }
}

/// `Block` of ratatui: the frame around a widget. The table carries its
/// frame to the renderer and never looks inside it.
#[verifier::external_type_specification]
#[verifier::external_body]
pub struct ExBlock<'a>(ratatui::widgets::Block<'a>);

/// `Block::new` of ratatui: a frame without borders or titles. Nothing is
/// claimed of it.
#[verifier::external_body]
pub(crate) fn plain_block<'a>() -> ratatui::widgets::Block<'a> {
    ratatui::widgets::Block::new()
}

/// `Block::title` of ratatui: the frame with one more title. Nothing is
/// claimed of it.
#[verifier::external_body]
pub(crate) fn titled<'a>(block: ratatui::widgets::Block<'a>, title: String) -> ratatui::widgets::Block<
    'a,
> {
    block.title(title)
}

/// How a table looks: the styles of its parts, the frame around it with the
/// padding that the frame takes, and the cells between two columns.
pub struct TableStyle<'a> {
    pub table: ratatui::style::Style,
    pub header: ratatui::style::Style,
    pub block: (ratatui::widgets::Block<'a>, Padding),
    pub highlight: ratatui::style::Style,
    pub col_highlight: ratatui::style::Style,
    pub normal: ratatui::style::Style,
    pub column_spacing: u16,
}

impl<'a> Default for TableStyle<'a> {
    fn default() -> (style: TableStyle<'a>)
        ensures
            style.column_spacing == 0,
            style.block.1 == (Padding { t: 0, r: 0, b: 0, l: 0 }),
    {
        TableStyle {
            table: plain_style(),
            header: plain_style(),
            block: (plain_block(), Padding { t: 0, r: 0, b: 0, l: 0 }),
            highlight: plain_style(),
            col_highlight: plain_style(),
            normal: plain_style(),
            column_spacing: 0,
        }
    }
}

} // verus!
