//! A row with its ordinal in front.

use vstd::prelude::*;
use vstd::string::*;
use std::cmp::Ordering;
use crate::tabular::{Alignment, ColumnOrder, ColumnPolicy, Tabular};
use crate::text::{decimal, decimal_digits};

verus! {

/// A row together with the place it had among the rows it was given with.
///
/// It shows as the row it wraps, with the heights of that row and of its
/// header, and with one more column in front, which holds the ordinal. That column has the name `#`, is as wide as its content, and is
/// centred. Under it all rows compare equal; under any other column they
/// compare as the wrapped rows do under the column before it.
#[derive(Clone)]
pub struct IndexedRow<T: Tabular> {
    pub idx: usize,
    pub data: T,
}

impl<T: Tabular> IndexedRow<T> {
    /// Wraps each of `data` with its place in `data`.
    pub fn from(data: Vec<T>) -> (rows: Vec<IndexedRow<T>>)
        ensures
            rows@.len() == data@.len(),
            forall|i: int|
                0 <= i < rows@.len() ==> (#[trigger] rows@[i]).idx == i && rows@[i].data == data@[i],
    {
        let ghost orig = data@;
        let mut rest = data;
        let mut back: Vec<IndexedRow<T>> = Vec::new();
        // from the last row to the first, so that each row is moved once
        while rest.len() > 0
            invariant
                rest@.len() + back@.len() == orig.len(),
                forall|i: int| 0 <= i < rest@.len() ==> #[trigger] rest@[i] == orig[i],
                forall|k: int|
                    0 <= k < back@.len() ==> (#[trigger] back@[k]).idx == orig.len() - 1 - k
                        && back@[k].data == orig[orig.len() - 1 - k],
            decreases rest@.len(),
        {
            let idx = rest.len() - 1;
            let row = rest.pop().unwrap();
            back.push(IndexedRow { idx, data: row });
        }
        let mut rows: Vec<IndexedRow<T>> = Vec::new();
        while back.len() > 0
            invariant
                rows@.len() + back@.len() == orig.len(),
                forall|k: int|
                    0 <= k < back@.len() ==> (#[trigger] back@[k]).idx == orig.len() - 1 - k
                        && back@[k].data == orig[orig.len() - 1 - k],
                forall|i: int|
                    0 <= i < rows@.len() ==> (#[trigger] rows@[i]).idx == i && rows@[i].data
                        == orig[i],
            decreases back@.len(),
        {
            let row = back.pop().unwrap();
            rows.push(row);
        }
        rows
    }
}

impl<T: Tabular> Tabular for IndexedRow<T> {
    type Value = T::Value;

    open spec fn value_of(&self) -> T::Value {
        self.data.value_of()
    }

    open spec fn content_of(&self) -> Seq<Seq<char>> {
        seq![decimal_digits(self.idx as nat)] + self.data.content_of()
    }

    open spec fn style_of(&self) -> ratatui::style::Style {
        self.data.style_of()
    }

    open spec fn order_by_col(&self, other: &Self, col: usize) -> ColumnOrder {
        if col == 0 {
            ColumnOrder::Equal
        } else {
            self.data.order_by_col(&other.data, (col - 1) as usize)
        }
    }

    open spec fn column_constraints_of() -> Seq<ColumnPolicy> {
        seq![ColumnPolicy::Length] + T::column_constraints_of()
    }

    open spec fn column_names_of() -> Option<Seq<Seq<char>>> {
        match T::column_names_of() {
            Some(names) => Some(seq![seq!['#']] + names),
            None => None,
        }
    }

    open spec fn column_alignments_of() -> Option<Seq<Alignment>> {
        match T::column_alignments_of() {
            Some(alignments) => Some(seq![Alignment::Center] + alignments),
            None => None,
        }
    }

    open spec fn row_height_of() -> u16 {
        T::row_height_of()
    }

    open spec fn header_height_of() -> u16 {
        T::header_height_of()
    }

    fn cmp_by_col(&self, other: &Self, col: usize) -> (o: Ordering) {
        if col == 0 {
            Ordering::Equal
        } else {
            self.data.cmp_by_col(&other.data, col - 1)
        }
    }

    fn value(&self) -> (v: Self::Value) {
        self.data.value()
    }

    fn content(&self) -> (cells: Vec<String>) {
        let mut cells = self.data.content();
        let ghost inner = cells@;
        cells.insert(0, decimal(self.idx as u64));
        proof {
            assert(cells@.len() == inner.len() + 1);
            assert(cells@[0]@ == decimal_digits(self.idx as nat));
            assert forall|i: int| 0 <= i < inner.len() implies cells@[i + 1] == inner[i] by {}
            assert(cells.deep_view() =~= seq![decimal_digits(self.idx as nat)]
                + self.data.content_of());
        }
        cells
    }

    fn style(&self) -> (style: ratatui::style::Style) {
        self.data.style()
    }

    fn column_constraints() -> (policies: Vec<ColumnPolicy>) {
        let mut policies = T::column_constraints();
        policies.insert(0, ColumnPolicy::Length);
        assert(policies@ =~= seq![ColumnPolicy::Length] + T::column_constraints_of());
        policies
    }

    fn column_names() -> (names: Option<Vec<String>>) {
        match T::column_names() {
            Some(inner) => {
                let mut names = inner;
                let ghost before = names@;
                proof {
                    reveal_strlit("#");
                }
                let hash = String::from_str("#");
                assert(hash@ =~= seq!['#']);
                names.insert(0, hash);
                proof {
                    assert(names@.len() == before.len() + 1);
                    assert(names@[0]@ == seq!['#']);
                    assert forall|i: int| 0 <= i < before.len() implies names@[i + 1]
                        == before[i] by {}
                    assert(names.deep_view() =~= seq![seq!['#']] + T::column_names_of().unwrap());
                }
                Some(names)
            },
            None => None,
        }
    }

    fn column_alignments() -> (alignments: Option<Vec<Alignment>>) {
        match T::column_alignments() {
            Some(inner) => {
                let mut alignments = inner;
                alignments.insert(0, Alignment::Center);
                assert(alignments@ =~= seq![Alignment::Center] + T::column_alignments_of().unwrap());
                Some(alignments)
            },
            None => None,
        }
    }

    fn row_height() -> (h: u16) {
        T::row_height()
    }

    fn header_height() -> (h: u16) {
        T::header_height()
    }
}

} // verus!
