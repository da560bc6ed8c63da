//! The table itself: rows with their values and their drawn form, the
//! selection, the sort state, and the geometry by which the pointer finds
//! rows and columns.

use vstd::prelude::*;

pub use crate::geometry::Padding;
pub use crate::indexed_row::IndexedRow;
pub use crate::table_keymap::{TableCommand, TableKeyMap};
pub use crate::table_style::{TableState, TableStyle};
pub use crate::tabular::Tabular;

use ratatui::layout::{Constraint as LayoutConstraint, Layout, Rect as LayoutRect};
use crate::columns::{
    apply_policies, applied, are_widths, inner_width, inner_width_of, interleave, interleaved,
    columns_max_widths,
};
use crate::display::{build_header, display_row, header_text, DisplayCell, DisplayRow, Entry};
use crate::event::{Event, MouseButton, MouseEvent, MouseEventKind, ALT};
use crate::geometry::{sat_add, Position, Rect};
use crate::keymap::{lookup_of, KeyMap, ShortCut};
use crate::selection::{clamp_index, clamped, cycled_down, cycled_up, shift_index, shifted};
use crate::sorting::{
    goes_before, in_order, is_permutation, reversed, stable_sort, stably_sorted,
    strict_weak, ties_kept, SortDirection,
};
use crate::table_keymap::are_default_bindings;
use crate::table_style::titled;
use crate::tabular::{Alignment, Constraint};
use crate::text::{decimal, decimal_digits};

verus! {

/// The number of columns of rows of type `T`.
pub open spec fn column_count<T: Tabular>() -> nat {
    T::column_constraints_of().len()
}

/// The alignment of each column of rows of type `T`: as the row type gives
/// them, or all left.
pub open spec fn alignments_of<T: Tabular>() -> Seq<Alignment> {
    match T::column_alignments_of() {
        Some(alignments) => alignments,
        None => Seq::new(column_count::<T>(), |c: int| Alignment::Left),
    }
}

/// The texts that the row at `place` shows: its content, and in a table with
/// ordinals the place itself in the first column.
pub open spec fn shown_texts<T: Tabular>(row: T, indexed: bool, place: int) -> Seq<Seq<char>> {
    if indexed {
        row.content_of().update(0, decimal_digits(place as nat))
    } else {
        row.content_of()
    }
}

/// Whether `entry`, standing at `place`, holds what belongs to its row: the
/// row's value, and the row as it is drawn there.
pub open spec fn shown<T: Tabular>(entry: Entry<T>, indexed: bool, place: int) -> bool {
    &&& entry.value == entry.row.value_of()
    &&& entry.display.height == T::row_height_of()
    &&& entry.display.style == entry.row.style_of()
    &&& entry.row.content_of().len() == column_count::<T>()
    &&& entry.display.cells@.len() == column_count::<T>()
    &&& entry.display.alignments() == alignments_of::<T>()
    &&& entry.display.texts() == shown_texts(entry.row, indexed, place)
}

/// Whether `header` is the header row of a table of rows of type `T` in which
/// column `selected` is sorted in `direction`: none where the columns have no
/// names, else the names, that of the selected column with its mark.
pub open spec fn is_header<T: Tabular>(
    header: Option<DisplayRow>,
    selected: Option<usize>,
    direction: SortDirection,
) -> bool {
    match T::column_names_of() {
        None => header is None,
        Some(names) => {
            &&& header is Some
            &&& header.unwrap().height == 1
            &&& header.unwrap().cells@.len() == column_count::<T>()
            &&& header.unwrap().alignments() == alignments_of::<T>()
            &&& forall|c: int|
                0 <= c < column_count::<T>() ==> (#[trigger] header.unwrap().cells@[c]).text@
                    == header_text(names[c], c, selected, direction)
        },
    }
}

/// The texts by which the columns are measured: those of all rows and of the
/// header. A table without rows measures nothing.
pub open spec fn measured_texts<T: Tabular>(entries: Seq<Entry<T>>) -> Seq<Seq<Seq<char>>> {
    let cells = Seq::new(entries.len(), |k: int| entries[k].display.texts());
    if entries.len() == 0 {
        Seq::empty()
    } else {
        match T::column_names_of() {
            Some(names) => cells.push(names),
            None => cells,
        }
    }
}

/// The padding of a table: one row at the top for the header, if there is
/// one, and what the frame takes.
pub open spec fn padding_of<T: Tabular>(frame: Padding) -> Padding {
    Padding {
        t: if T::column_names_of() is Some {
            1
        } else {
            0
        },
        r: 0,
        b: 0,
        l: 0,
    }.plus(frame)
}

/// Whether `after` is the drawn row `before` with the ordinal `place` in its
/// first cell.
pub open spec fn relabeled(before: DisplayRow, after: DisplayRow, place: int) -> bool {
    &&& after.style == before.style
    &&& after.height == before.height
    &&& after.cells@.len() == before.cells@.len()
    &&& after.cells@.len() > 0
    &&& after.cells@[0].text@ == decimal_digits(place as nat)
    &&& after.cells@[0].alignment == before.cells@[0].alignment
    &&& forall|c: int| 1 <= c < after.cells@.len() ==> #[trigger] after.cells@[c] == before.cells@[c]
}

/// Whether `after` is the entry `before` as it stands at `place`: the same
/// row and value, drawn the same, but for the ordinal in a table that has
/// them.
pub open spec fn carried<T: Tabular>(
    before: Entry<T>,
    after: Entry<T>,
    indexed: bool,
    place: int,
) -> bool {
    &&& after.row == before.row
    &&& after.value == before.value
    &&& if indexed {
        relabeled(before.display, after.display, place)
    } else {
        after.display == before.display
    }
}

/// Whether `after` holds the entries of `before` sorted stably by column
/// `col` in direction `dir`, the entry at `k` being the one that stood at
/// `p[k]`.
///
/// Each row keeps its value and its drawn form, and in a table with ordinals
/// the ordinals count the new places. Where the comparison of the rows is a
/// strict weak order, no row stands behind one that it must stand before, and
/// rows that tie keep their order.
pub open spec fn sorted_from<T: Tabular>(
    before: Seq<Entry<T>>,
    after: Seq<Entry<T>>,
    p: Seq<int>,
    col: usize,
    dir: SortDirection,
    indexed: bool,
) -> bool {
    &&& is_permutation(p, before.len() as int)
    &&& after.len() == before.len()
    &&& forall|k: int|
        0 <= k < after.len() ==> carried(before[p[k]], #[trigger] after[k], indexed, k)
    &&& strict_weak(before, col, dir) ==> in_order(after, col, dir) && ties_kept(
        after,
        p,
        col,
        dir,
    )
}

/// Whether `slices` can be what the layout gives for `constraints` in the
/// line `area`: one slice for each constraint, each in that line.
pub open spec fn is_split(slices: Seq<Rect>, constraints: Seq<Constraint>, area: Rect) -> bool {
    &&& slices.len() == constraints.len()
    &&& forall|i: int|
        0 <= i < slices.len() ==> (#[trigger] slices[i]).y == area.y && slices[i].height
            == area.height
}

/// Whether `found` is the column of `pos` among `slices`, in which the
/// columns stand at the even places and the gaps at the odd ones: the first
/// column whose slice holds `pos`, or none.
pub open spec fn is_column_hit(slices: Seq<Rect>, pos: Position, found: Option<usize>) -> bool {
    match found {
        Some(col) => {
            &&& 2 * col < slices.len()
            &&& slices[2 * col].spec_contains(pos)
            &&& forall|c: int| 0 <= c < col ==> !(#[trigger] slices[2 * c]).spec_contains(pos)
        },
        None => forall|c: int|
            0 <= c && 2 * c < slices.len() ==> !(#[trigger] slices[2 * c]).spec_contains(pos),
    }
}

/// The column of `pos` among `slices`.
pub fn column_at(slices: &Vec<Rect>, pos: Position) -> (found: Option<usize>)
    ensures
        is_column_hit(slices@, pos, found),
{
    let mut col: usize = 0;
    while col < slices.len() / 2 + slices.len() % 2
        invariant
            forall|c: int| 0 <= c < col ==> !(#[trigger] slices@[2 * c]).spec_contains(pos),
            col <= slices@.len() / 2 + slices@.len() % 2,
        decreases slices@.len() - col,
    {
        if slices[2 * col].contains(pos) {
            return Some(col);
        }
        col += 1;
    }
    None
}

/// `Layout::split` of ratatui, on the layout that `Layout::horizontal` makes
/// of `constraints`, which has no margin and no spacing of its own.
///
/// Where the slices fall is the work of ratatui's solver, and it may differ
/// from one call to the next. What is claimed is what its source shows of
/// every outcome: there is one slice for each constraint, and each slice has
/// the top and the height of `area`.
#[verifier::external_body]
fn split_columns(constraints: &Vec<Constraint>, area: Rect) -> (slices: Vec<Rect>)
    ensures
        is_split(slices@, constraints@, area),
{
    let parts = constraints.iter().map(|c| match *c {
        Constraint::Min(v) => LayoutConstraint::Min(v),
        Constraint::Max(v) => LayoutConstraint::Max(v),
        Constraint::Length(v) => LayoutConstraint::Length(v),
        Constraint::Percentage(v) => LayoutConstraint::Percentage(v),
        Constraint::Ratio(n, d) => LayoutConstraint::Ratio(n, d),
        Constraint::Fill(v) => LayoutConstraint::Fill(v),
    });
    let area = LayoutRect { x: area.x, y: area.y, width: area.width, height: area.height };
    let slices = Layout::horizontal(parts).split(area);
    slices.iter().map(|r| Rect { x: r.x, y: r.y, width: r.width, height: r.height }).collect()
}

/// What a table is, seen from outside.
pub struct TableView<'a, T: Tabular> {
    /// The rows in the order in which they are drawn, each with its value and
    /// its drawn form.
    pub entries: Seq<Entry<T>>,
    pub header: Option<DisplayRow>,
    pub state: TableState,
    /// The direction in which the rows are sorted by the selected column.
    pub direction: SortDirection,
    /// Where the table was last drawn.
    pub area: Rect,
    pub keymap: Seq<ShortCut<TableCommand>>,
    pub padding: Padding,
    pub inner_width: u16,
    /// The width of each column.
    pub widths: Seq<u16>,
    /// The constraints of the columns with the gaps between them.
    pub constraints: Seq<Constraint>,
    /// Whether the first column holds the ordinals of the rows.
    pub indexed: bool,
    pub style: TableStyle<'a>,
}

impl<'a, T: Tabular> TableView<'a, T> {
    /// The invariant of a table. Every table that `new` or `new_indexed`
    /// gives has it, and every method keeps it.
    ///
    /// The cursor lies on a row and on a column of the table, or nowhere. A
    /// table without rows has no columns. Each row is held with its value
    /// and its drawn form, and in a table with ordinals the ordinals count
    /// the places from zero. The layout, the padding and the inner width are
    /// those of the columns and of the style.
    pub open spec fn wf(self) -> bool {
        &&& self.entries.len() <= usize::MAX
        &&& self.state.selected matches Some(row) ==> row < self.entries.len()
        &&& self.state.selected_column matches Some(col) ==> col < self.widths.len()
        &&& self.state.selected_column is None ==> self.direction is Unsorted
        &&& self.widths.len() == (if self.entries.len() == 0 {
            0
        } else {
            column_count::<T>()
        })
        &&& self.constraints == interleaved(
            applied(self.widths, T::column_constraints_of()),
            Constraint::Length(self.style.column_spacing),
        )
        &&& forall|k: int|
            0 <= k < self.entries.len() ==> shown(#[trigger] self.entries[k], self.indexed, k)
        &&& self.indexed ==> column_count::<T>() >= 1
        &&& self.header is Some <==> T::column_names_of() is Some
        &&& self.inner_width == inner_width_of(self.widths, self.style.column_spacing)
        &&& self.padding == padding_of::<T>(self.style.block.1)
    }

    pub open spec fn rows_count(self) -> usize {
        self.entries.len() as usize
    }

    pub open spec fn columns(self) -> usize {
        self.widths.len() as usize
    }

    /// The area of the rows: what the padding leaves of the area of the table.
    pub open spec fn rows_area(self) -> Rect {
        self.padding.spec_inner(self.area)
    }

    /// The area of the header: the line above the rows, in a table that has a
    /// header.
    pub open spec fn header_area(self) -> Option<Rect> {
        if self.header is Some {
            let rows = self.rows_area();
            Some(Rect { x: rows.x, y: (rows.y - 1) as u16, width: rows.width, height: 1 })
        } else {
            None
        }
    }

    /// The table with the row cursor at `cursor`.
    pub open spec fn with_cursor(self, cursor: Option<usize>) -> Self {
        TableView { state: TableState { selected: cursor, ..self.state }, ..self }
    }

    /// The table with the row nearest to `idx` selected; without rows nothing
    /// is selected.
    pub open spec fn with_row(self, idx: usize) -> Self {
        self.with_cursor(clamped(idx, self.rows_count()))
    }

    /// The table with the row cursor moved by `offset` rows, stopping at the
    /// first and the last row.
    pub open spec fn moved(self, offset: isize) -> Self {
        self.with_row(shifted(self.state.selected, offset))
    }

    /// The number of rows in a page: the height of the area of the rows.
    pub open spec fn page(self) -> isize {
        self.rows_area().height as isize
    }

    /// The table after `command`.
    pub open spec fn after_command(self, command: TableCommand) -> Self {
        match command {
            TableCommand::GoDown => self.moved(1),
            TableCommand::GoUp => self.moved(-1isize),
            TableCommand::GoDownCycle => self.with_cursor(
                cycled_down(self.state.selected, self.rows_count()),
            ),
            TableCommand::GoUpCycle => self.with_cursor(
                cycled_up(self.state.selected, self.rows_count()),
            ),
            TableCommand::GoPageDown => self.moved(self.page()),
            TableCommand::GoPageUp => self.moved((-self.page()) as isize),
            TableCommand::GoHalfPageDown => self.moved((self.page() / 2) as isize),
        }
    }

    /// The row that is drawn at `pos`: `pos` lies in the area of the rows, and
    /// the row is counted from the first visible one, in cells of sixteen
    /// bits. Rows without height are drawn nowhere.
    pub open spec fn row_at(self, pos: Position) -> Option<usize> {
        let area = self.rows_area();
        if area.spec_contains(pos) && T::row_height_of() > 0 {
            let relative = ((pos.y - area.y) / (T::row_height_of() as int)) as u16;
            Some(sat_add(relative, self.state.offset as u16) as usize)
        } else {
            None
        }
    }

    /// Whether `found` can be the column that is drawn at `pos`: a column
    /// whose slice of the header line, as the layout gives it, holds `pos`.
    pub open spec fn may_be_column_at(self, pos: Position, found: Option<usize>) -> bool {
        match self.header_area() {
            None => found is None,
            Some(area) => exists|slices: Seq<Rect>|
                is_split(slices, self.constraints, area) && is_column_hit(slices, pos, found),
        }
    }

    /// Whether `col` is the column of the ordinals, by which nothing is
    /// sorted.
    pub open spec fn is_ordinal(self, col: usize) -> bool {
        self.indexed && col == 0
    }

    /// The sort direction after column `col` is selected: the next in the
    /// cycle where `col` is selected again or first, unsorted where another
    /// column was selected, and always unsorted for the ordinals.
    pub open spec fn direction_after(self, col: usize) -> SortDirection {
        if self.is_ordinal(col) {
            SortDirection::Unsorted
        } else {
            match self.state.selected_column {
                Some(old) => if old == col {
                    self.direction.spec_next()
                } else {
                    SortDirection::Unsorted
                },
                None => self.direction.spec_next(),
            }
        }
    }

    /// Whether `after` is the table after the column nearest to `idx` is
    /// selected.
    ///
    /// Without columns nothing changes. Else the column is selected and the
    /// sort direction is `direction_after`. Selecting the ordinals changes
    /// nothing else. Selecting another column marks it in the header, and
    /// where the direction is not unsorted the rows are sorted by it; the row
    /// cursor stays at its place.
    pub open spec fn column_selected(self, after: Self, idx: usize) -> bool {
        match clamped(idx, self.columns()) {
            None => after == self,
            Some(col) => {
                let dir = self.direction_after(col);
                &&& after == (TableView {
                    entries: after.entries,
                    header: after.header,
                    state: TableState { selected_column: Some(col), ..self.state },
                    direction: dir,
                    ..self
                })
                &&& if self.is_ordinal(col) {
                    after.entries == self.entries && after.header == self.header
                } else {
                    &&& is_header::<T>(after.header, Some(col), dir)
                    &&& after.header matches Some(header) ==> header.style == self.style.header
                    &&& if dir is Unsorted {
                        after.entries == self.entries
                    } else {
                        exists|p: Seq<int>|
                            sorted_from(self.entries, after.entries, p, col, dir, self.indexed)
                    }
                }
            },
        }
    }

    /// Whether `after` is the table after a press of the pointer at `pos`
    /// inside the table: the row at `pos` is selected, or else the column at
    /// `pos`, or else nothing changes.
    pub open spec fn pressed(self, after: Self, pos: Position) -> bool {
        match self.row_at(pos) {
            Some(row) => after == self.with_row(row),
            None => exists|found: Option<usize>|
                self.may_be_column_at(pos, found) && match found {
                    Some(col) => self.column_selected(after, col),
                    None => after == self,
                },
        }
    }

    /// Whether `after` is the table after the pointer event `ev`.
    ///
    /// An event outside the area of the table changes nothing. The wheel
    /// moves the row cursor by one row, or by two where alt alone is held. A
    /// press of the left or right button selects what is at the pointer.
    pub open spec fn after_mouse(self, after: Self, ev: MouseEvent) -> bool {
        let pos = Position { x: ev.column, y: ev.row };
        if !self.area.spec_contains(pos) {
            after == self
        } else {
            match ev.kind {
                MouseEventKind::ScrollDown => after == self.moved(
                    if ev.modifiers.bits == ALT {
                        2
                    } else {
                        1
                    },
                ),
                MouseEventKind::ScrollUp => after == self.moved(
                    if ev.modifiers.bits == ALT {
                        -2isize
                    } else {
                        -1isize
                    },
                ),
                MouseEventKind::Down(MouseButton::Left) => self.pressed(after, pos),
                MouseEventKind::Down(MouseButton::Right) => self.pressed(after, pos),
                _ => after == self,
            }
        }
    }

    /// Whether `after` is the table after the event `ev`: a key gives the
    /// command that the key map has for it, if any; a pointer event acts as
    /// `after_mouse` says; any other event changes nothing.
    pub open spec fn updated(self, after: Self, ev: Event) -> bool {
        match ev {
            Event::Key(key) => after == match lookup_of(self.keymap, key) {
                Some(command) => self.after_command(command),
                None => self,
            },
            Event::Mouse(mouse) => self.after_mouse(after, mouse),
            _ => after == self,
        }
    }

    /// The smallest width and height in which the whole table fits.
    pub open spec fn min_area(self) -> (u16, u16) {
        let width = sat_add(sat_add(self.inner_width, self.padding.l), self.padding.r);
        let height = self.entries.len() * T::row_height_of() + self.padding.t + self.padding.b;
        (
            width,
            if height > u16::MAX {
                u16::MAX
            } else {
                height as u16
            },
        )
    }
}

/// A table of rows of type `T` with a cursor, a sort state and the geometry of
/// its last drawing.
pub struct StatefulTable<'a, T: Tabular> {
    entries: Vec<Entry<T>>,
    header: Option<DisplayRow>,
    state: TableState,
    style: TableStyle<'a>,
    selected_col_ord: SortDirection,
    area: Rect,
    keymap: TableKeyMap,
    padding: Padding,
    inner_width: u16,
    col_widths: Vec<u16>,
    col_constraints: Vec<Constraint>,
    indexed: bool,
}

impl<'a, T: Tabular> View for StatefulTable<'a, T> {
    type V = TableView<'a, T>;

    closed spec fn view(&self) -> TableView<'a, T> {
        TableView {
            entries: self.entries@,
            header: self.header,
            state: self.state,
            direction: self.selected_col_ord,
            area: self.area,
            keymap: self.keymap.0@,
            padding: self.padding,
            inner_width: self.inner_width,
            widths: self.col_widths@,
            constraints: self.col_constraints@,
            indexed: self.indexed,
            style: self.style,
        }
    }
}

/// The alignments of the columns of rows of type `T`.
fn alignments<T: Tabular>() -> (given: Vec<Alignment>)
    ensures
        given@ == alignments_of::<T>(),
        given@.len() == column_count::<T>(),
{
    match T::column_alignments() {
        Some(given) => given,
        None => {
            let columns = T::column_constraints().len();
            let mut left: Vec<Alignment> = Vec::new();
            while left.len() < columns
                invariant
                    left@.len() <= columns,
                    forall|c: int| 0 <= c < left@.len() ==> #[trigger] left@[c] == Alignment::Left,
                decreases columns - left@.len(),
            {
                left.push(Alignment::Left);
            }
            assert(left@ =~= alignments_of::<T>());
            left
        },
    }
}

/// A copy of `texts`.
fn copy_texts(texts: &Vec<String>) -> (copy: Vec<String>)
    ensures
        copy@ == texts@,
{
    let mut copy: Vec<String> = Vec::new();
    let mut i: usize = 0;
    while i < texts.len()
        invariant
            i <= texts@.len(),
            copy@ == texts@.take(i as int),
        decreases texts@.len() - i,
    {
        copy.push(texts[i].clone());
        assert(texts@.take(i + 1) =~= texts@.take(i as int).push(texts@[i as int]));
        i += 1;
    }
    assert(texts@.take(texts@.len() as int) =~= texts@);
    copy
}

/// Each row of `data` with its value and its drawn form, and beside them the
/// content of each row.
fn build_rows<T: Tabular>(data: Vec<T>, given: &Vec<Alignment>) -> (res: (
    Vec<Entry<T>>,
    Vec<Vec<String>>,
))
    requires
        given@ == alignments_of::<T>(),
        given@.len() == column_count::<T>(),
    ensures
        res.0@.len() == data@.len(),
        res.1@.len() == data@.len(),
        forall|k: int|
            0 <= k < data@.len() ==> (#[trigger] res.0@[k]).row == data@[k] && shown(
                res.0@[k],
                false,
                k,
            ),
        forall|k: int|
            0 <= k < data@.len() ==> (#[trigger] res.1@[k])@.len() == column_count::<T>()
                && res.1@[k].deep_view() == res.0@[k].display.texts(),
{
    let ghost orig = data@;
    let mut rest = reversed(data);
    let mut entries: Vec<Entry<T>> = Vec::new();
    let mut contents: Vec<Vec<String>> = Vec::new();
    let height = T::row_height();
    while rest.len() > 0
        invariant
            given@ == alignments_of::<T>(),
            given@.len() == column_count::<T>(),
            height == T::row_height_of(),
            rest@.len() + entries@.len() == orig.len(),
            contents@.len() == entries@.len(),
            forall|k: int| 0 <= k < rest@.len() ==> #[trigger] rest@[k] == orig[orig.len() - 1 - k],
            forall|k: int|
                0 <= k < entries@.len() ==> (#[trigger] entries@[k]).row == orig[k] && shown(
                    entries@[k],
                    false,
                    k,
                ),
            forall|k: int|
                0 <= k < entries@.len() ==> (#[trigger] contents@[k])@.len() == column_count::<T>()
                    && contents@[k].deep_view() == entries@[k].display.texts(),
        decreases rest@.len(),
    {
        let row = rest.pop().unwrap();
        let value = row.value();
        let content = row.content();
        let display = display_row(&content, given, row.style(), height);
        proof {
            assert(display.texts() =~= content.deep_view());
            assert(display.alignments() =~= alignments_of::<T>());
        }
        contents.push(content);
        entries.push(Entry { row, value, display });
    }
    (entries, contents)
}

impl<'a, T: Tabular> StatefulTable<'a, T> {
    /// A table of the rows `data`, in their order.
    ///
    /// Each row is drawn once, and the width of each column is that of its
    /// widest cell, the header's among them. A row or column that `state`
    /// selects is brought into the table by the nearest one; without rows
    /// nothing is selected. Nothing is sorted yet, and the table has not been
    /// drawn anywhere. `title`, where there is one, goes on the frame.
    pub fn new(data: Vec<T>, state: TableState, style: TableStyle<'a>, title: Option<String>) -> (table:
        Self)
        ensures
            table@.wf(),
            Self::built(table@, data@, state, style, title is Some, false),
    {
        Self::build_table(data, state, style, title, false)
    }

    /// A table of the rows `data`, each with its ordinal in a first column.
    pub fn new_indexed(
        data: Vec<T>,
        state: TableState,
        style: TableStyle<'a>,
        title: Option<String>,
    ) -> (table: StatefulTable<'a, IndexedRow<T>>)
        ensures
            table@.wf(),
            table@.entries.len() == data@.len(),
            forall|k: int|
                0 <= k < data@.len() ==> (#[trigger] table@.entries[k]).row == (IndexedRow {
                    idx: k as usize,
                    data: data@[k],
                }),
            StatefulTable::<'a, IndexedRow<T>>::built_around(
                table@,
                state,
                style,
                title is Some,
                true,
            ),
    {
        let rows = IndexedRow::from(data);
        proof {
            assert forall|k: int| 0 <= k < rows@.len() implies (#[trigger] rows@[k]).content_of()[0]
                == decimal_digits(k as nat) by {}
        }
        StatefulTable::build_table(rows, state, style, title, true)
    }

    /// Whether `table` is what is built from the rows `data` and from `state`
    /// and `style`.
    pub open spec fn built(
        table: TableView<'a, T>,
        data: Seq<T>,
        state: TableState,
        style: TableStyle<'a>,
        titled: bool,
        indexed: bool,
    ) -> bool {
        &&& table.entries.len() == data.len()
        &&& forall|k: int| 0 <= k < data.len() ==> (#[trigger] table.entries[k]).row == data[k]
        &&& Self::built_around(table, state, style, titled, indexed)
    }

    /// Whether `table` has around its rows what is built from `state` and
    /// `style`.
    pub open spec fn built_around(
        table: TableView<'a, T>,
        state: TableState,
        style: TableStyle<'a>,
        titled: bool,
        indexed: bool,
    ) -> bool {
        &&& table.indexed == indexed
        &&& table.state == (TableState {
            offset: state.offset,
            selected: match state.selected {
                Some(row) => clamped(row, table.rows_count()),
                None => None,
            },
            selected_column: match state.selected_column {
                Some(col) => clamped(col, table.columns()),
                None => None,
            },
        })
        &&& table.direction is Unsorted
        &&& table.area == (Rect { x: 0, y: 0, width: 0, height: 0 })
        &&& are_default_bindings(table.keymap)
        &&& are_widths(measured_texts(table.entries), column_count::<T>() as int, table.widths)
        &&& is_header::<T>(table.header, None, SortDirection::Unsorted)
        &&& table.header matches Some(header) ==> header.style == style.header
        &&& table.style.table == style.table
        &&& table.style.header == style.header
        &&& table.style.highlight == style.highlight
        &&& table.style.col_highlight == style.col_highlight
        &&& table.style.normal == style.normal
        &&& table.style.column_spacing == style.column_spacing
        &&& table.style.block.1 == style.block.1
        &&& !titled ==> table.style.block.0 == style.block.0
    }

    fn build_table(
        data: Vec<T>,
        state: TableState,
        style: TableStyle<'a>,
        title: Option<String>,
        indexed: bool,
    ) -> (table: Self)
        requires
            indexed ==> column_count::<T>() >= 1,
            indexed ==> forall|k: int|
                0 <= k < data@.len() ==> (#[trigger] data@[k]).content_of()[0] == decimal_digits(
                    k as nat,
                ),
        ensures
            table@.wf(),
            Self::built(table@, data@, state, style, title is Some, indexed),
    {
        let given = alignments::<T>();
        let names = T::column_names();
        let policies = T::column_constraints();
        let rows = data.len();
        let (entries, contents) = build_rows(data, &given);
        let mut texts = contents;
        let ghost cells = texts.deep_view();
        if rows > 0 {
            match &names {
                Some(names) => {
                    texts.push(copy_texts(names));
                },
                None => {},
            }
        }
        proof {
            assert(cells =~= Seq::new(entries@.len(), |k: int| entries@[k].display.texts()));
            if rows > 0 && names is Some {
                assert(texts.deep_view() =~= cells.push(T::column_names_of().unwrap()));
            } else {
                assert(texts.deep_view() =~= cells);
            }
            assert(texts.deep_view() =~= measured_texts(entries@));
        }
        let col_widths = columns_max_widths(&texts, policies.len());
        let constraints = apply_policies(&col_widths, &policies);
        let col_constraints = interleave(&constraints, Constraint::Length(style.column_spacing));
        let selected = match state.selected {
            Some(row) => clamp_index(row, rows),
            None => None,
        };
        let selected_column = match state.selected_column {
            Some(col) => clamp_index(col, col_widths.len()),
            None => None,
        };
        let mut padding = Padding { t: 0, r: 0, b: 0, l: 0 };
        let header = match &names {
            Some(names) => {
                padding.t = 1;
                let row = build_header(
                    names,
                    &given,
                    None,
                    SortDirection::Unsorted,
                    style.header,
                );
                assert(row.alignments() =~= alignments_of::<T>());
                Some(row)
            },
            None => None,
        };
        padding.add_padding(style.block.1);
        let inner_width = inner_width(&col_widths, style.column_spacing);
        let style = match title {
            Some(title) => TableStyle {
                table: style.table,
                header: style.header,
                block: (titled(style.block.0, title), style.block.1),
                highlight: style.highlight,
                col_highlight: style.col_highlight,
                normal: style.normal,
                column_spacing: style.column_spacing,
            },
            None => style,
        };
        let table = StatefulTable {
            entries,
            header,
            state: TableState { offset: state.offset, selected, selected_column },
            style,
            selected_col_ord: SortDirection::Unsorted,
            area: Rect::zero(),
            keymap: TableKeyMap::default(),
            padding,
            inner_width,
            col_widths,
            col_constraints,
            indexed,
        };
        proof {
            assert forall|k: int| 0 <= k < table@.entries.len() implies shown(
                #[trigger] table@.entries[k],
                indexed,
                k,
            ) by {
                let e = table@.entries[k];
                assert(shown(e, false, k));
                if indexed {
                    assert(e.row.content_of().update(0, decimal_digits(k as nat))
                        =~= e.row.content_of());
                }
            }
        }
        table
    }
}

/// Writes into the first cell of each entry the place at which it stands.
fn relabel<T: Tabular>(entries: Vec<Entry<T>>) -> (out: Vec<Entry<T>>)
    requires
        forall|k: int| 0 <= k < entries@.len() ==> (#[trigger] entries@[k]).display.cells@.len() > 0,
    ensures
        out@.len() == entries@.len(),
        forall|k: int| 0 <= k < out@.len() ==> carried(entries@[k], #[trigger] out@[k], true, k),
{
    let ghost orig = entries@;
    let mut rest = reversed(entries);
    let mut out: Vec<Entry<T>> = Vec::new();
    while rest.len() > 0
        invariant
            rest@.len() + out@.len() == orig.len(),
            forall|k: int| 0 <= k < orig.len() ==> (#[trigger] orig[k]).display.cells@.len() > 0,
            forall|k: int| 0 <= k < rest@.len() ==> #[trigger] rest@[k] == orig[orig.len() - 1 - k],
            forall|k: int| 0 <= k < out@.len() ==> carried(orig[k], #[trigger] out@[k], true, k),
        decreases rest@.len(),
    {
        let place = out.len();
        let entry = rest.pop().unwrap();
        assert(entry == orig[place as int]);
        let Entry { row, value, display } = entry;
        let DisplayRow { cells, style, height } = display;
        let mut cells = cells;
        let alignment = cells[0].alignment;
        cells.set(0, DisplayCell { text: decimal(place as u64), alignment });
        out.push(Entry { row, value, display: DisplayRow { cells, style, height } });
    }
    out
}

impl<'a, T: Tabular> StatefulTable<'a, T> {
    /// The value of the selected row.
    pub fn selected_value(&self) -> (value: Option<&T::Value>)
        requires
            self@.wf(),
        ensures
            value == match self@.state.selected {
                Some(row) => Some(&self@.entries[row as int].value),
                None => None,
            },
            value matches Some(v) ==> *v == self@.entries[self@.state.selected.unwrap() as int].row.value_of(),
    {
        match self.state.selected {
            Some(row) => Some(&self.entries[row].value),
            None => None,
        }
    }

    pub fn selected_row(&self) -> (row: Option<usize>)
        ensures
            row == self@.state.selected,
    {
        self.state.selected
    }

    pub fn selected_col(&self) -> (col: Option<usize>)
        ensures
            col == self@.state.selected_column,
    {
        self.state.selected_column
    }

    pub fn rows_count(&self) -> (count: usize)
        ensures
            count == self@.rows_count(),
            count == self@.entries.len(),
    {
        self.entries.len()
    }

    /// The number of columns.
    pub fn columns_count(&self) -> (count: usize)
        ensures
            count == self@.columns(),
    {
        self.col_widths.len()
    }

    pub fn state(&self) -> (state: &TableState)
        ensures
            *state == self@.state,
    {
        &self.state
    }

    /// The direction in which the rows are sorted by the selected column.
    pub fn sort_direction(&self) -> (direction: SortDirection)
        ensures
            direction == self@.direction,
    {
        self.selected_col_ord
    }

    /// The rows as they are drawn, each with its row and value, in the order
    /// in which they are drawn.
    pub fn entries(&self) -> (entries: &Vec<Entry<T>>)
        ensures
            entries@ == self@.entries,
    {
        &self.entries
    }

    /// The header row, in a table whose columns have names.
    pub fn header(&self) -> (header: &Option<DisplayRow>)
        ensures
            *header == self@.header,
    {
        &self.header
    }

    pub fn style(&self) -> (style: &TableStyle<'a>)
        ensures
            *style == self@.style,
    {
        &self.style
    }

    /// The width of each column.
    pub fn column_widths(&self) -> (widths: &Vec<u16>)
        ensures
            widths@ == self@.widths,
    {
        &self.col_widths
    }

    /// The constraints of the columns with the gaps between them.
    pub fn column_constraints(&self) -> (constraints: &Vec<Constraint>)
        ensures
            constraints@ == self@.constraints,
    {
        &self.col_constraints
    }

    /// Records `area` as the place where the table is drawn. The pointer is
    /// read against it from now on.
    pub fn draw(&mut self, area: Rect)
        ensures
            final(self)@ == (TableView { area, ..old(self)@ }),
            old(self)@.wf() ==> final(self)@.wf(),
    {
        self.area = area;
    }

    /// Records `offset` as the first row that is visible, as the renderer
    /// chose it when it drew the table.
    pub fn scroll_to(&mut self, offset: usize)
        ensures
            final(self)@ == (TableView {
                state: TableState { offset, ..old(self)@.state },
                ..old(self)@
            }),
            old(self)@.wf() ==> final(self)@.wf(),
    {
        self.state = TableState {
            offset,
            selected: self.state.selected,
            selected_column: self.state.selected_column,
        };
    }

    /// The smallest width and height in which the whole table fits, each held
    /// at `u16::MAX`.
    pub fn min_area(&self) -> (size: (u16, u16))
        ensures
            size == self@.min_area(),
    {
        let w = self.inner_width.saturating_add(self.padding.l).saturating_add(self.padding.r);
        let rows = self.entries.len() as u128;
        let each = T::row_height() as u128;
        assert(rows * each <= 0x1_0000_0000_0000_0000 * 0x1_0000) by (nonlinear_arith)
            requires
                0 <= rows <= 0x1_0000_0000_0000_0000,
                0 <= each <= 0x1_0000,
        ;
        let h = rows * each + self.padding.t as u128 + self.padding.b as u128;
        if h > 0xffff {
            (w, 0xffff)
        } else {
            (w, h as u16)
        }
    }

    /// The area of the header: the line above the rows.
    pub fn header_area(&self) -> (area: Option<Rect>)
        requires
            self@.wf(),
        ensures
            area == self@.header_area(),
    {
        if self.header.is_none() {
            return None;
        }
        let area = self.rows_area();
        Some(Rect { x: area.x, y: area.y - 1, width: area.width, height: 1 })
    }

    /// The area of the rows: what the padding leaves of the area of the table.
    pub fn rows_area(&self) -> (area: Rect)
        ensures
            area == self@.rows_area(),
    {
        self.padding.inner(self.area)
    }

    /// The row that is drawn at `pos`. It may lie past the last row.
    pub fn screen_coords_to_row_index(&self, pos: Position) -> (row: Option<usize>)
        ensures
            row == self@.row_at(pos),
    {
        let area = self.rows_area();
        let height = T::row_height();
        if area.contains(pos) && height > 0 {
            let relative = (pos.y - area.y) / height;
            let offset = #[verifier::truncate] (self.state.offset as u16);
            Some(relative.saturating_add(offset) as usize)
        } else {
            None
        }
    }

    /// The column that is drawn at `pos`: the header line is laid out by the
    /// constraints of the columns and the gaps, and the column is the first
    /// whose slice holds `pos`. Gaps belong to no column, and a table without
    /// a header has no column under the pointer.
    pub fn screen_coords_to_col_index(&self, pos: Position) -> (col: Option<usize>)
        requires
            self@.wf(),
        ensures
            self@.may_be_column_at(pos, col),
            col matches Some(c) ==> c < self@.columns(),
    {
        match self.header_area() {
            None => None,
            Some(area) => {
                let slices = split_columns(&self.col_constraints, area);
                column_at(&slices, pos)
            },
        }
    }

    fn set_cursor(&mut self, cursor: Option<usize>)
        requires
            old(self)@.wf(),
            cursor matches Some(row) ==> row < old(self)@.entries.len(),
        ensures
            final(self)@ == old(self)@.with_cursor(cursor),
            final(self)@.wf(),
    {
        self.state = TableState {
            offset: self.state.offset,
            selected: cursor,
            selected_column: self.state.selected_column,
        };
    }

    /// Moves the row cursor one row down; it stays on the last row.
    pub fn select_next(&mut self)
        requires
            old(self)@.wf(),
        ensures
            final(self)@ == old(self)@.moved(1),
            final(self)@.wf(),
    {
        self.select_relative(1);
    }

    /// Moves the row cursor one row up; it stays on the first row.
    pub fn select_prev(&mut self)
        requires
            old(self)@.wf(),
        ensures
            final(self)@ == old(self)@.moved(-1isize),
            final(self)@.wf(),
    {
        self.select_relative(-1);
    }

    /// Moves the row cursor down by the height of the area of the rows.
    pub fn select_next_page(&mut self)
        requires
            old(self)@.wf(),
        ensures
            final(self)@ == old(self)@.moved(old(self)@.page()),
            final(self)@.wf(),
    {
        let page = self.rows_area().height as isize;
        self.select_relative(page);
    }

    /// Moves the row cursor up by the height of the area of the rows.
    pub fn select_prev_page(&mut self)
        requires
            old(self)@.wf(),
        ensures
            final(self)@ == old(self)@.moved((-old(self)@.page()) as isize),
            final(self)@.wf(),
    {
        let page = self.rows_area().height as isize;
        self.select_relative(-page);
    }

    /// Selects the row nearest to `idx`. Without rows nothing is selected.
    pub fn select_absolute(&mut self, idx: usize)
        requires
            old(self)@.wf(),
        ensures
            final(self)@ == old(self)@.with_row(idx),
            final(self)@.wf(),
    {
        let cursor = clamp_index(idx, self.entries.len());
        self.set_cursor(cursor);
    }

    /// Selects the row that is `idx` rows below the first visible one.
    pub fn select_visible(&mut self, idx: usize)
        requires
            old(self)@.wf(),
        ensures
            final(self)@ == old(self)@.with_row(
                if old(self)@.state.offset + idx > usize::MAX {
                    usize::MAX
                } else {
                    (old(self)@.state.offset + idx) as usize
                },
            ),
            final(self)@.wf(),
    {
        let at = self.state.offset.saturating_add(idx);
        self.select_absolute(at);
    }

    /// Moves the row cursor by `offset` rows, stopping at the first and the
    /// last row. A cursor that is nowhere goes to the first row.
    pub fn select_relative(&mut self, offset: isize)
        requires
            old(self)@.wf(),
        ensures
            final(self)@ == old(self)@.moved(offset),
            final(self)@.wf(),
    {
        let at = shift_index(self.state.selected, offset);
        self.select_absolute(at);
    }

    /// Selects the column to the right, or the first one if none is selected.
    pub fn select_next_col(&mut self)
        requires
            old(self)@.wf(),
        ensures
            old(self)@.column_selected(
                final(self)@,
                shifted(old(self)@.state.selected_column, 1),
            ),
            final(self)@.wf(),
    {
        self.select_relative_col(1);
    }

    /// Selects the column to the left, or the first one if none is selected.
    pub fn select_prev_col(&mut self)
        requires
            old(self)@.wf(),
        ensures
            old(self)@.column_selected(
                final(self)@,
                shifted(old(self)@.state.selected_column, -1isize),
            ),
            final(self)@.wf(),
    {
        self.select_relative_col(-1);
    }

    /// Selects the column `offset` columns from the selected one.
    pub fn select_relative_col(&mut self, offset: isize)
        requires
            old(self)@.wf(),
        ensures
            old(self)@.column_selected(
                final(self)@,
                shifted(old(self)@.state.selected_column, offset),
            ),
            final(self)@.wf(),
    {
        let at = shift_index(self.state.selected_column, offset);
        self.select_absolute_col(at);
    }

    /// Sorts the rows by column `col` in direction `dir`.
    fn sort_rows(&mut self, col: usize, dir: SortDirection)
        requires
            old(self)@.wf(),
        ensures
            final(self)@ == (TableView { entries: final(self)@.entries, ..old(self)@ }),
            exists|p: Seq<int>|
                sorted_from(
                    old(self)@.entries,
                    final(self)@.entries,
                    p,
                    col,
                    dir,
                    old(self)@.indexed,
                ),
            final(self)@.wf(),
    {
        let ghost before = self.entries@;
        let mut taken: Vec<Entry<T>> = Vec::new();
        std::mem::swap(&mut self.entries, &mut taken);
        let sorted = stable_sort(taken, col, dir);
        let ghost p = choose|p: Seq<int>| stably_sorted(before, sorted@, p, col, dir);
        proof {
            assert forall|k: int| 0 <= k < sorted@.len() implies shown(
                #[trigger] sorted@[k],
                self.indexed,
                p[k],
            ) by {
                assert(sorted@[k] == before[p[k]]);
            }
        }
        let placed = if self.indexed {
            relabel(sorted)
        } else {
            sorted
        };
        proof {
            assert forall|k: int| 0 <= k < placed@.len() implies carried(
                before[p[k]],
                #[trigger] placed@[k],
                self.indexed,
                k,
            ) && shown(placed@[k], self.indexed, k) by {
                let was = sorted@[k];
                let now = placed@[k];
                assert(was == before[p[k]]);
                assert(shown(was, self.indexed, p[k]));
                if self.indexed {
                    assert(carried(was, now, true, k));
                    let content = was.row.content_of();
                    assert(was.display.texts() == content.update(0, decimal_digits(p[k] as nat)));
                    assert(content.len() == was.display.cells@.len());
                    assert(content.len() > 0);
                    assert(now.display.texts() =~= content.update(0, decimal_digits(k as nat))) by {
                        assert forall|c: int| 0 <= c < now.display.cells@.len() implies
                            now.display.texts()[c] == content.update(
                            0,
                            decimal_digits(k as nat),
                        )[c] by {
                            if c > 0 {
                                assert(now.display.cells@[c] == was.display.cells@[c]);
                                assert(was.display.texts()[c] == was.display.cells@[c].text@);
                                assert(content.update(0, decimal_digits(p[k] as nat))[c]
                                    == content[c]);
                            }
                        }
                    }
                    assert(now.display.alignments() =~= was.display.alignments()) by {
                        assert forall|c: int| 0 <= c < now.display.cells@.len() implies
                            now.display.alignments()[c] == was.display.alignments()[c] by {
                            if c > 0 {
                                assert(now.display.cells@[c] == was.display.cells@[c]);
                            }
                        }
                    }
                }
            }
            if strict_weak(before, col, dir) {
                assert forall|i: int, j: int| 0 <= i < j < placed@.len() implies !#[trigger] goes_before(
                    placed@,
                    j,
                    i,
                    col,
                    dir,
                ) by {
                    assert(!goes_before(sorted@, j, i, col, dir));
                }
                assert forall|i: int, j: int|
                    0 <= i < j < placed@.len() && !#[trigger] goes_before(
                        placed@,
                        i,
                        j,
                        col,
                        dir,
                    ) implies p[i] < p[j] by {
                    assert(!goes_before(sorted@, i, j, col, dir));
                }
            }
            assert(sorted_from(before, placed@, p, col, dir, self.indexed));
        }
        self.entries = placed;
    }

    /// Selects the column nearest to `idx` and sorts by it.
    ///
    /// The first selection of a column, and each selection of the selected
    /// column, takes the sort direction one step on in its cycle: unsorted,
    /// ascending, descending. The selection of another column leaves the
    /// rows as they are, unsorted by the new column. The column of the
    /// ordinals is selected without any change to the rows or the header.
    pub fn select_absolute_col(&mut self, idx: usize)
        requires
            old(self)@.wf(),
        ensures
            old(self)@.column_selected(final(self)@, idx),
            final(self)@.wf(),
    {
        let col = match clamp_index(idx, self.col_widths.len()) {
            Some(col) => col,
            None => {
                return;
            },
        };
        let ordinal = self.indexed && col == 0;
        let dir = if ordinal {
            SortDirection::Unsorted
        } else {
            match self.state.selected_column {
                Some(old) => if old == col {
                    self.selected_col_ord.next()
                } else {
                    SortDirection::Unsorted
                },
                None => self.selected_col_ord.next(),
            }
        };
        self.state = TableState {
            offset: self.state.offset,
            selected: self.state.selected,
            selected_column: Some(col),
        };
        self.selected_col_ord = dir;
        if ordinal {
            return;
        }
        match T::column_names() {
            Some(names) => {
                let given = alignments::<T>();
                let row = build_header(&names, &given, Some(col), dir, self.style.header);
                assert(row.alignments() =~= alignments_of::<T>());
                self.header = Some(row);
            },
            None => {},
        }
        match dir {
            SortDirection::Unsorted => {},
            _ => {
                self.sort_rows(col, dir);
            },
        }
    }

    fn press(&mut self, pos: Position)
        requires
            old(self)@.wf(),
        ensures
            old(self)@.pressed(final(self)@, pos),
            final(self)@.wf(),
    {
        match self.screen_coords_to_row_index(pos) {
            Some(row) => {
                self.select_absolute(row);
            },
            None => {
                let found = self.screen_coords_to_col_index(pos);
                match found {
                    Some(col) => {
                        self.select_absolute_col(col);
                    },
                    None => {},
                }
            },
        }
    }

    fn run(&mut self, command: TableCommand)
        requires
            old(self)@.wf(),
        ensures
            final(self)@ == old(self)@.after_command(command),
            final(self)@.wf(),
    {
        match command {
            TableCommand::GoDown => self.select_next(),
            TableCommand::GoUp => self.select_prev(),
            TableCommand::GoDownCycle => {
                match self.state.selected {
                    Some(idx) => {
                        if idx == self.entries.len() - 1 {
                            self.select_absolute(0);
                        } else {
                            self.select_next();
                        }
                    },
                    None => {},
                }
            },
            TableCommand::GoUpCycle => {
                match self.state.selected {
                    Some(idx) => {
                        if idx == 0 {
                            self.select_absolute(self.entries.len() - 1);
                        } else {
                            self.select_prev();
                        }
                    },
                    None => {},
                }
            },
            TableCommand::GoPageDown => self.select_next_page(),
            TableCommand::GoPageUp => self.select_prev_page(),
            TableCommand::GoHalfPageDown => {
                let half = self.rows_area().height as isize / 2;
                self.select_relative(half);
            },
        }
    }

    /// Takes an input event.
    ///
    /// A key that the key map knows runs its command. The wheel moves the
    /// row cursor, and a press selects the row under the pointer, or else
    /// selects the column under it and sorts by it. Everything else is
    /// ignored.
    pub fn update(&mut self, ev: &Event)
        requires
            old(self)@.wf(),
        ensures
            old(self)@.updated(final(self)@, *ev),
            final(self)@.wf(),
    {
        match ev {
            Event::Key(key) => {
                let command = match self.keymap.get_command(key) {
                    Some(command) => Some(*command),
                    None => None,
                };
                match command {
                    Some(command) => self.run(command),
                    None => {},
                }
            },
            Event::Mouse(mouse) => {
                let pos = Position { x: mouse.column, y: mouse.row };
                if !self.area.contains(pos) {
                    return;
                }
                match mouse.kind {
                    MouseEventKind::ScrollDown => {
                        if mouse.modifiers.bits == ALT {
                            self.select_relative(2);
                        } else {
                            self.select_next();
                        }
                    },
                    MouseEventKind::ScrollUp => {
                        if mouse.modifiers.bits == ALT {
                            self.select_relative(-2);
                        } else {
                            self.select_prev();
                        }
                    },
                    MouseEventKind::Down(MouseButton::Left) => self.press(pos),
                    MouseEventKind::Down(MouseButton::Right) => self.press(pos),
                    _ => {},
                }
            },
            _ => {},
        }
    }
}

} // verus!
