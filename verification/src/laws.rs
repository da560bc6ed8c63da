//! What holds of a table whatever its rows are.

use vstd::prelude::*;
use crate::display::Entry;
use crate::sorting::{goes_before, strict_weak, SortDirection};
use crate::stateful_table::{shown, sorted_from, TableView};
use crate::table_keymap::TableCommand;
use crate::tabular::Tabular;
use crate::text::decimal_digits;

verus! {

/// In a table with rows, selecting row `idx` selects `idx` itself, or the
/// last row where `idx` lies behind it.
pub proof fn law_select_absolute_clamps<'a, T: Tabular>(table: TableView<'a, T>, idx: usize)
    requires
        table.wf(),
        table.entries.len() > 0,
    ensures
        table.with_row(idx).state.selected == Some(
            if idx <= table.entries.len() - 1 {
                idx
            } else {
                (table.entries.len() - 1) as usize
            },
        ),
        table.with_row(idx).wf(),
{
}

/// In a table without rows no move selects anything.
pub proof fn law_empty_table_selects_nothing<'a, T: Tabular>(
    table: TableView<'a, T>,
    command: TableCommand,
    idx: usize,
    offset: isize,
)
    requires
        table.wf(),
        table.entries.len() == 0,
    ensures
        table.state.selected is None,
        table.with_row(idx) == table,
        table.moved(offset) == table,
        table.after_command(command) == table,
{
}

/// With the cursor on the last row, a step down that wraps goes to the first
/// row, and a plain step down stays. With the cursor on the first row, a
/// step up that wraps goes to the last row, and a plain step up stays.
pub proof fn law_cycle_wraps<'a, T: Tabular>(table: TableView<'a, T>)
    requires
        table.wf(),
        table.entries.len() > 0,
    ensures
        table.state.selected == Some((table.entries.len() - 1) as usize) ==> {
            &&& table.after_command(TableCommand::GoDownCycle).state.selected == Some(0usize)
            &&& table.after_command(TableCommand::GoDown).state.selected == table.state.selected
        },
        table.state.selected == Some(0usize) ==> {
            &&& table.after_command(TableCommand::GoUpCycle).state.selected == Some(
                (table.entries.len() - 1) as usize,
            )
            &&& table.after_command(TableCommand::GoUp).state.selected == table.state.selected
        },
{
}

/// No command moves the cursor out of the rows, or changes anything but the
/// cursor.
pub proof fn law_commands_keep_the_table<'a, T: Tabular>(
    table: TableView<'a, T>,
    command: TableCommand,
)
    requires
        table.wf(),
    ensures
        table.after_command(command).wf(),
        table.after_command(command) == table.with_cursor(
            table.after_command(command).state.selected,
        ),
{
}

/// Three selections of one column take the sort direction through its whole
/// cycle. From a table in which no column is selected, or in which the
/// column is selected and unsorted, that is: ascending, descending, and
/// unsorted again.
pub proof fn law_direction_cycles<'a, T: Tabular>(
    start: TableView<'a, T>,
    first: TableView<'a, T>,
    second: TableView<'a, T>,
    third: TableView<'a, T>,
    col: usize,
)
    requires
        start.wf(),
        col < start.columns(),
        !start.is_ordinal(col),
        start.state.selected_column is None || start.state.selected_column == Some(col),
        start.column_selected(first, col),
        first.column_selected(second, col),
        second.column_selected(third, col),
    ensures
        first.direction == start.direction.spec_next(),
        second.direction == start.direction.spec_next().spec_next(),
        third.direction == start.direction,
        start.direction is Unsorted ==> first.direction is Ascending && second.direction
            is Descending && third.direction is Unsorted,
        third.state.selected_column == Some(col),
{
}

/// The selection of another column than the selected one leaves the table
/// unsorted by the new column, whatever the direction was, and leaves the
/// rows where they are.
pub proof fn law_other_column_resets<'a, T: Tabular>(
    before: TableView<'a, T>,
    after: TableView<'a, T>,
    col: usize,
)
    requires
        before.wf(),
        col < before.columns(),
        before.state.selected_column matches Some(old) && old != col,
        before.column_selected(after, col),
    ensures
        after.direction is Unsorted,
        after.state.selected_column == Some(col),
        after.entries == before.entries,
{
}

/// The comparison is a strict weak order in one direction exactly where it is
/// one in the other: what holds of a sort in ascending order holds of a sort
/// in descending order too.
pub proof fn law_directions_agree<T: Tabular>(entries: Seq<Entry<T>>, col: usize)
    ensures
        strict_weak(entries, col, SortDirection::Ascending) <==> strict_weak(
            entries,
            col,
            SortDirection::Descending,
        ),
        strict_weak(entries, col, SortDirection::Unsorted),
{
    let up = SortDirection::Ascending;
    let down = SortDirection::Descending;
    if strict_weak(entries, col, up) {
        assert forall|a: int, b: int, c: int|
            0 <= a < entries.len() && 0 <= b < entries.len() && 0 <= c < entries.len()
                && !#[trigger] goes_before(entries, a, b, col, down) && !#[trigger] goes_before(
                entries,
                b,
                c,
                col,
                down,
            ) implies !goes_before(entries, a, c, col, down) by {
            assert(!goes_before(entries, c, b, col, up) && !goes_before(entries, b, a, col, up));
        }
        assert forall|a: int, b: int|
            0 <= a < entries.len() && 0 <= b < entries.len() && #[trigger] goes_before(
                entries,
                a,
                b,
                col,
                down,
            ) implies !goes_before(entries, b, a, col, down) by {
            assert(goes_before(entries, b, a, col, up));
        }
    }
    if strict_weak(entries, col, down) {
        assert forall|a: int, b: int, c: int|
            0 <= a < entries.len() && 0 <= b < entries.len() && 0 <= c < entries.len()
                && !#[trigger] goes_before(entries, a, b, col, up) && !#[trigger] goes_before(
                entries,
                b,
                c,
                col,
                up,
            ) implies !goes_before(entries, a, c, col, up) by {
            assert(!goes_before(entries, c, b, col, down) && !goes_before(
                entries,
                b,
                a,
                col,
                down,
            ));
        }
        assert forall|a: int, b: int|
            0 <= a < entries.len() && 0 <= b < entries.len() && #[trigger] goes_before(
                entries,
                a,
                b,
                col,
                up,
            ) implies !goes_before(entries, b, a, col, up) by {
            assert(goes_before(entries, b, a, col, down));
        }
    }
}

/// Sorting is stable in both directions: of two rows of which neither must
/// stand before the other, the one that stood first still stands first.
///
/// This holds where the comparison of the rows under the column is a strict
/// weak order.
pub proof fn law_sort_is_stable<T: Tabular>(
    before: Seq<Entry<T>>,
    after: Seq<Entry<T>>,
    p: Seq<int>,
    col: usize,
    dir: SortDirection,
    indexed: bool,
    i: int,
    j: int,
)
    requires
        sorted_from(before, after, p, col, dir, indexed),
        strict_weak(before, col, dir),
        0 <= i < after.len(),
        0 <= j < after.len(),
        i != j,
        !goes_before(after, i, j, col, dir),
        !goes_before(after, j, i, col, dir),
    ensures
        i < j <==> p[i] < p[j],
{
    if i < j {
        assert(p[i] < p[j]);
    } else {
        assert(p[j] < p[i]);
    }
}

/// Rows that compare equal keep their order, in either direction: where the
/// rows now at `i` and `j` compare equal under the column, whichever is asked
/// first, the one that stood first still stands first.
///
/// This holds where the comparison of the rows under the column is a strict
/// weak order.
pub proof fn law_equal_rows_keep_order<T: Tabular>(
    before: Seq<Entry<T>>,
    after: Seq<Entry<T>>,
    p: Seq<int>,
    col: usize,
    dir: SortDirection,
    indexed: bool,
    i: int,
    j: int,
)
    requires
        sorted_from(before, after, p, col, dir, indexed),
        strict_weak(before, col, dir),
        0 <= i < j < after.len(),
        after[i].row.order_by_col(&after[j].row, col) is Equal,
        after[j].row.order_by_col(&after[i].row, col) is Equal,
    ensures
        p[i] < p[j],
{
    assert(!goes_before(after, i, j, col, dir));
}

/// After a sort the rows are in order: none stands behind a row that it must
/// stand before. This holds where the comparison is a strict weak order.
pub proof fn law_sort_orders<T: Tabular>(
    before: Seq<Entry<T>>,
    after: Seq<Entry<T>>,
    p: Seq<int>,
    col: usize,
    dir: SortDirection,
    indexed: bool,
    i: int,
    j: int,
)
    requires
        sorted_from(before, after, p, col, dir, indexed),
        strict_weak(before, col, dir),
        0 <= i < j < after.len(),
    ensures
        !goes_before(after, j, i, col, dir),
{
}

/// A sort keeps each row with its value: what stands at a place after the
/// sort is a row of the table before it, with the value it had, and that
/// value is the value of the row.
pub proof fn law_values_follow_rows<T: Tabular>(
    before: Seq<Entry<T>>,
    after: Seq<Entry<T>>,
    p: Seq<int>,
    col: usize,
    dir: SortDirection,
    indexed: bool,
    k: int,
)
    requires
        sorted_from(before, after, p, col, dir, indexed),
        forall|i: int| 0 <= i < before.len() ==> shown(#[trigger] before[i], indexed, i),
        0 <= k < after.len(),
    ensures
        0 <= p[k] < before.len(),
        after[k].row == before[p[k]].row,
        after[k].value == before[p[k]].value,
        after[k].value == after[k].row.value_of(),
{
    assert(shown(before[p[k]], indexed, p[k]));
}

/// In a table with ordinals the first cell of each row holds the place at
/// which the row is drawn, counted from zero.
pub proof fn law_ordinals_count_places<'a, T: Tabular>(table: TableView<'a, T>, k: int)
    requires
        table.wf(),
        table.indexed,
        0 <= k < table.entries.len(),
    ensures
        table.entries[k].display.cells@.len() >= 1,
        table.entries[k].display.cells@[0].text@ == decimal_digits(k as nat),
{
    let entry = table.entries[k];
    assert(shown(entry, true, k));
    assert(entry.display.texts()[0] == entry.display.cells@[0].text@);
}

/// The column of the ordinals takes no part in sorting: its selection leaves
/// the table unsorted, and the rows and the header as they were.
pub proof fn law_ordinals_never_sort<'a, T: Tabular>(
    before: TableView<'a, T>,
    after: TableView<'a, T>,
)
    requires
        before.wf(),
        before.indexed,
        before.columns() > 0,
        before.column_selected(after, 0),
    ensures
        after.direction is Unsorted,
        after.entries == before.entries,
        after.header == before.header,
        after.state.selected_column == Some(0usize),
{
}

} // verus!
