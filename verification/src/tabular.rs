//! What a row must offer to be shown in a table.

use vstd::prelude::*;
use std::cmp::Ordering;

verus! {

/// How the text of a cell is aligned in its column.
#[derive(Clone, Copy, Debug, PartialEq, Eq, Structural)]
pub enum Alignment {
    Left,
    Center,
    Right,
}

/// A demand on the size of one segment of a layout.
#[derive(Clone, Copy, Debug, PartialEq, Eq, Structural)]
pub enum Constraint {
    Min(u16),
    Max(u16),
    Length(u16),
    Percentage(u16),
    Ratio(u32, u32),
    Fill(u16),
}

/// How a column turns the width of its widest cell into a constraint.
#[derive(Clone, Copy, Debug, PartialEq, Eq, Structural)]
pub enum ColumnPolicy {
    /// At least as wide as the content.
    Min,
    /// At most as wide as the content.
    Max,
    /// As wide as the content.
    Length,
    /// The content width, read as a percentage of the table.
    Percentage,
    /// A share of what is left over, with the content width as its weight.
    Fill,
    /// The given constraint, whatever the content.
    Fixed(Constraint),
}

impl ColumnPolicy {
    /// The constraint of a column whose widest cell is `width` cells wide.
    pub open spec fn spec_apply(self, width: u16) -> Constraint {
        match self {
            ColumnPolicy::Min => Constraint::Min(width),
            ColumnPolicy::Max => Constraint::Max(width),
            ColumnPolicy::Length => Constraint::Length(width),
            ColumnPolicy::Percentage => Constraint::Percentage(width),
            ColumnPolicy::Fill => Constraint::Fill(width),
            ColumnPolicy::Fixed(c) => c,
        }
    }

    #[verifier::when_used_as_spec(spec_apply)]
    pub fn apply(self, width: u16) -> (c: Constraint)
        ensures
            c == self.spec_apply(width),
    {
        match self {
            ColumnPolicy::Min => Constraint::Min(width),
            ColumnPolicy::Max => Constraint::Max(width),
            ColumnPolicy::Length => Constraint::Length(width),
            ColumnPolicy::Percentage => Constraint::Percentage(width),
            ColumnPolicy::Fill => Constraint::Fill(width),
            ColumnPolicy::Fixed(c) => c,
        }
    }
}

/// The outcome of comparing two rows under a column.
#[derive(Clone, Copy, Debug, PartialEq, Eq, Structural)]
pub enum ColumnOrder {
    Less,
    Equal,
    Greater,
}

/// The outcome that `o` stands for.
pub open spec fn column_order(o: Ordering) -> ColumnOrder {
    match o {
        Ordering::Less => ColumnOrder::Less,
        Ordering::Equal => ColumnOrder::Equal,
        Ordering::Greater => ColumnOrder::Greater,
    }
}

/// `Style` of ratatui: how something is drawn. The table carries styles
/// from the rows to the renderer and never looks inside one.
#[verifier::external_type_specification]
#[verifier::external_body]
pub struct ExStyle(ratatui::style::Style);

/// `Clone::clone` of ratatui's `Style`, which is `Copy`: the clone is the
/// style itself.
pub assume_specification[ <ratatui::style::Style as Clone>::clone ](
    style: &ratatui::style::Style,
) -> (copy: ratatui::style::Style)
    ensures
        copy == *style,
;

/// `Style::new` of ratatui: a style that sets nothing. Nothing is claimed of it.
#[verifier::external_body]
pub(crate) fn plain_style() -> ratatui::style::Style {
    ratatui::style::Style::new()
}

/// A row that a table can show.
///
/// Each method has a model, a `spec` function of the same name with `_of`
/// behind it, which says what the method returns. A row type that is verified
/// defines both; the models have defaults so that a row type written without
/// them need only give the methods.
///
/// All rows of one type have the same number of columns, which is the number
/// of policies that `column_constraints` gives.
pub trait Tabular: Clone {
    /// What the caller gets when the row is selected.
    type Value;

    open spec fn value_of(&self) -> Self::Value {
        arbitrary()
    }

    open spec fn content_of(&self) -> Seq<Seq<char>> {
        Seq::empty()
    }

    open spec fn style_of(&self) -> ratatui::style::Style {
        arbitrary()
    }

    /// By default rows are not sortable: any two compare equal.
    open spec fn order_by_col(&self, other: &Self, col: usize) -> ColumnOrder {
        ColumnOrder::Equal
    }

    open spec fn column_constraints_of() -> Seq<ColumnPolicy> {
        Seq::empty()
    }

    open spec fn column_names_of() -> Option<Seq<Seq<char>>> {
        None
    }

    open spec fn column_alignments_of() -> Option<Seq<Alignment>> {
        None
    }

    open spec fn row_height_of() -> u16 {
        1
    }

    open spec fn header_height_of() -> u16 {
        1
    }

    /// How `self` stands to `other` under column `col`.
    fn cmp_by_col(&self, other: &Self, col: usize) -> (o: Ordering)
        ensures
            column_order(o) == self.order_by_col(other, col),
    ;

    fn value(&self) -> (v: Self::Value)
        ensures
            v == self.value_of(),
    ;

    /// The text of each cell, one per column.
    fn content(&self) -> (cells: Vec<String>)
        ensures
            cells.deep_view() == self.content_of(),
            cells.len() == Self::column_constraints_of().len(),
    ;

    /// The style in which the row is drawn.
    fn style(&self) -> (style: ratatui::style::Style)
        ensures
            style == self.style_of(),
    ;

    /// The width policy of each column.
    fn column_constraints() -> (policies: Vec<ColumnPolicy>)
        ensures
            policies@ == Self::column_constraints_of(),
    ;

    /// The names of the columns, where the table has a header.
    fn column_names() -> (names: Option<Vec<String>>)
        ensures
            names.deep_view() == Self::column_names_of(),
            names is Some ==> names.unwrap().len() == Self::column_constraints_of().len(),
    ;

    /// The alignment of each column; all left where none is given.
    fn column_alignments() -> (alignments: Option<Vec<Alignment>>)
        ensures
            alignments.is_some() == Self::column_alignments_of().is_some(),
            alignments is Some ==> alignments.unwrap()@ == Self::column_alignments_of().unwrap(),
            alignments is Some ==> alignments.unwrap().len() == Self::column_constraints_of().len(),
    ;

    /// The height of each row in cells.
    fn row_height() -> (h: u16)
        ensures
            h == Self::row_height_of(),
    ;

    /// The height of the header in cells.
    fn header_height() -> (h: u16)
        ensures
            h == Self::header_height_of(),
    ;
}

} // verus!
