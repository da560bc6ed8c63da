use ratatui_helpers::columns::{apply_policies, inner_width, interleave, columns_max_widths};
use ratatui_helpers::display::{build_header, display_row, format_column_name, Entry};
use ratatui_helpers::geometry::{Padding, Position, Rect};
use ratatui_helpers::selection::{clamp_index, shift_index};
use ratatui_helpers::sorting::{comes_before, reversed, stable_sort, SortDirection};
use ratatui_helpers::stateful_table::column_at;
use ratatui_helpers::tabular::{Alignment, ColumnPolicy, Constraint, Tabular};
use ratatui_helpers::text::{decimal, join, text_width};
use ratatui::style::Style;
use std::cmp::Ordering;

fn strings(texts: &[&str]) -> Vec<String> {
    texts.iter().map(|t| t.to_string()).collect()
}

/// A row that is sorted by the last digit of its number.
#[derive(Clone)]
struct Digit(u32);

impl Tabular for Digit {
    type Value = u32;
    fn cmp_by_col(&self, other: &Self, _col: usize) -> Ordering {
        (self.0 % 10).cmp(&(other.0 % 10))
    }
    fn value(&self) -> u32 {
        self.0
    }
    fn content(&self) -> Vec<String> {
        vec![self.0.to_string()]
    }
    fn style(&self) -> Style {
        Style::default()
    }
    fn column_constraints() -> Vec<ColumnPolicy> {
        vec![ColumnPolicy::Length]
    }
    fn column_names() -> Option<Vec<String>> {
        None
    }
    fn column_alignments() -> Option<Vec<Alignment>> {
        None
    }
    fn row_height() -> u16 {
        1
    }
    fn header_height() -> u16 {
        1
    }
}

fn entries(numbers: &[u32]) -> Vec<Entry<Digit>> {
    numbers
        .iter()
        .map(|n| {
            let row = Digit(*n);
            let display =
                display_row(&row.content(), &vec![Alignment::Left], row.style(), 1);
            Entry { value: row.value(), row, display }
        })
        .collect()
}

fn numbers(entries: &[Entry<Digit>]) -> Vec<u32> {
    entries.iter().map(|e| e.value).collect()
}

#[test]
fn rect_contains_its_cells_but_not_its_far_edges() {
    let rect = Rect { x: 1, y: 2, width: 3, height: 4 };
    assert!(rect.contains(Position { x: 1, y: 2 }));
    assert!(rect.contains(Position { x: 3, y: 5 }));
    assert!(!rect.contains(Position { x: 4, y: 5 }));
    assert!(!rect.contains(Position { x: 3, y: 6 }));
    assert!(!rect.contains(Position { x: 0, y: 2 }));
    assert!(!rect.contains(Position { x: 1, y: 1 }));
    assert_eq!(rect.right(), 4);
    assert_eq!(rect.bottom(), 6);
    assert!(!Rect::default().contains(Position { x: 0, y: 0 }));
    let far = Rect { x: u16::MAX - 1, y: 0, width: 9, height: 1 };
    assert_eq!(far.right(), u16::MAX);
    assert!(far.contains(Position { x: u16::MAX - 1, y: 0 }));
    assert!(!far.contains(Position { x: u16::MAX, y: 0 }));
}

#[test]
fn padding_adds_side_by_side() {
    let mut padding = Padding::default();
    assert_eq!(padding, Padding { t: 0, r: 0, b: 0, l: 0 });
    padding.add_padding(Padding { t: 1, r: 2, b: 3, l: 4 });
    assert_eq!(padding, Padding { t: 1, r: 2, b: 3, l: 4 });
    padding.add_value(10);
    assert_eq!(padding, Padding { t: 11, r: 12, b: 13, l: 14 });
    padding.add_padding(Padding { t: u16::MAX, r: 0, b: u16::MAX - 13, l: 1 });
    assert_eq!(padding, Padding { t: u16::MAX, r: 12, b: u16::MAX, l: 15 });
    padding.add_value(u16::MAX);
    assert_eq!(padding, Padding { t: u16::MAX, r: u16::MAX, b: u16::MAX, l: u16::MAX });
}

#[test]
fn padding_leaves_the_inside() {
    let padding = Padding { t: 1, r: 2, b: 3, l: 4 };
    assert_eq!(
        padding.inner(Rect { x: 10, y: 20, width: 30, height: 40 }),
        Rect { x: 14, y: 21, width: 24, height: 36 }
    );
    assert_eq!(
        padding.inner(Rect { x: 10, y: 20, width: 5, height: 3 }),
        Rect { x: 14, y: 21, width: 0, height: 0 }
    );
    assert_eq!(
        padding.inner(Rect { x: u16::MAX, y: u16::MAX, width: 6, height: 4 }),
        Rect { x: u16::MAX, y: u16::MAX, width: 0, height: 0 }
    );
}

#[test]
fn indices_are_clamped_into_the_items() {
    assert_eq!(clamp_index(0, 0), None);
    assert_eq!(clamp_index(7, 0), None);
    assert_eq!(clamp_index(0, 1), Some(0));
    assert_eq!(clamp_index(7, 1), Some(0));
    assert_eq!(clamp_index(3, 5), Some(3));
    assert_eq!(clamp_index(5, 5), Some(4));
    assert_eq!(clamp_index(usize::MAX, usize::MAX), Some(usize::MAX - 1));
}

#[test]
fn shifts_stop_at_the_ends() {
    assert_eq!(shift_index(None, 5), 0);
    assert_eq!(shift_index(None, -5), 0);
    assert_eq!(shift_index(Some(3), 0), 3);
    assert_eq!(shift_index(Some(3), 4), 7);
    assert_eq!(shift_index(Some(3), -3), 0);
    assert_eq!(shift_index(Some(3), -4), 0);
    assert_eq!(shift_index(Some(3), isize::MIN), 0);
    assert_eq!(shift_index(Some(usize::MAX), isize::MIN), usize::MAX - (1usize << (usize::BITS - 1)));
    assert_eq!(shift_index(Some(usize::MAX - 1), 1), usize::MAX);
    assert_eq!(shift_index(Some(usize::MAX - 1), 2), usize::MAX);
    assert_eq!(shift_index(Some(usize::MAX), isize::MAX), usize::MAX);
    assert_eq!(shift_index(Some(0), isize::MAX), isize::MAX as usize);
}

#[test]
fn decimal_writes_numbers() {
    assert_eq!(decimal(0), "0");
    assert_eq!(decimal(7), "7");
    assert_eq!(decimal(10), "10");
    assert_eq!(decimal(909), "909");
    assert_eq!(decimal(1234567890), "1234567890");
    assert_eq!(decimal(u64::MAX), "18446744073709551615");
}

#[test]
fn join_puts_the_separator_between() {
    assert_eq!(join(&strings(&[]), ", "), "");
    assert_eq!(join(&strings(&["a"]), ", "), "a");
    assert_eq!(join(&strings(&["a", "b", "c"]), ", "), "a, b, c");
    assert_eq!(join(&strings(&["", ""]), "+"), "+");
    assert_eq!(join(&strings(&["a", "b"]), ""), "ab");
}

#[test]
fn width_counts_bytes_in_sixteen_bits() {
    assert_eq!(text_width(""), 0);
    assert_eq!(text_width("abc"), 3);
    assert_eq!(text_width("é"), 2);
    assert_eq!(text_width("▲"), 3);
    assert_eq!(text_width(&"x".repeat(65535)), 65535);
    assert_eq!(text_width(&"x".repeat(65536)), 0);
    assert_eq!(text_width(&"x".repeat(65539)), 3);
}

#[test]
fn columns_max_widths_are_found_per_column() {
    let rows = vec![strings(&["a", "bbbb", ""]), strings(&["ccc", "d", ""]), strings(&["ee", "ff", "g"])];
    assert_eq!(columns_max_widths(&rows, 3), vec![3, 4, 1]);
    assert_eq!(columns_max_widths(&rows, 2), vec![3, 4]);
    assert_eq!(columns_max_widths(&rows, 0), Vec::<u16>::new());
    assert_eq!(columns_max_widths(&Vec::new(), 3), Vec::<u16>::new());
}

#[test]
fn policies_make_constraints_of_widths() {
    let policies = vec![
        ColumnPolicy::Min,
        ColumnPolicy::Max,
        ColumnPolicy::Length,
        ColumnPolicy::Percentage,
        ColumnPolicy::Fill,
        ColumnPolicy::Fixed(Constraint::Ratio(1, 3)),
    ];
    assert_eq!(
        apply_policies(&vec![1, 2, 3, 4, 5, 6], &policies),
        vec![
            Constraint::Min(1),
            Constraint::Max(2),
            Constraint::Length(3),
            Constraint::Percentage(4),
            Constraint::Fill(5),
            Constraint::Ratio(1, 3),
        ]
    );
    assert_eq!(
        apply_policies(&vec![1, 2], &policies),
        vec![Constraint::Min(1), Constraint::Max(2)]
    );
    assert_eq!(apply_policies(&vec![1, 2], &vec![ColumnPolicy::Fill]), vec![Constraint::Fill(1)]);
    assert_eq!(ColumnPolicy::Length.apply(9), Constraint::Length(9));
}

#[test]
fn gaps_stand_between_columns() {
    let gap = Constraint::Length(2);
    assert_eq!(interleave(&vec![], gap), vec![]);
    assert_eq!(interleave(&vec![Constraint::Fill(1)], gap), vec![Constraint::Fill(1)]);
    assert_eq!(
        interleave(&vec![Constraint::Fill(1), Constraint::Min(4), Constraint::Max(5)], gap),
        vec![Constraint::Fill(1), gap, Constraint::Min(4), gap, Constraint::Max(5)]
    );
}

#[test]
fn inner_width_sums_columns_and_gaps() {
    assert_eq!(inner_width(&vec![], 5), 0);
    assert_eq!(inner_width(&vec![7], 5), 7);
    assert_eq!(inner_width(&vec![7, 1, 2], 5), 20);
    assert_eq!(inner_width(&vec![7, 1, 2], 0), 10);
    assert_eq!(inner_width(&vec![65000, 500, 35], 0), 65535);
    assert_eq!(inner_width(&vec![65000, 500, 35], 1), 65535);
    assert_eq!(inner_width(&vec![u16::MAX, u16::MAX], u16::MAX), 65535);
}

#[test]
fn columns_are_the_even_slices() {
    let slices = vec![
        Rect { x: 0, y: 0, width: 3, height: 1 },
        Rect { x: 3, y: 0, width: 2, height: 1 },
        Rect { x: 5, y: 0, width: 3, height: 1 },
        Rect { x: 8, y: 0, width: 2, height: 1 },
        Rect { x: 10, y: 0, width: 4, height: 1 },
    ];
    assert_eq!(column_at(&slices, Position { x: 0, y: 0 }), Some(0));
    assert_eq!(column_at(&slices, Position { x: 2, y: 0 }), Some(0));
    assert_eq!(column_at(&slices, Position { x: 3, y: 0 }), None);
    assert_eq!(column_at(&slices, Position { x: 5, y: 0 }), Some(1));
    assert_eq!(column_at(&slices, Position { x: 9, y: 0 }), None);
    assert_eq!(column_at(&slices, Position { x: 13, y: 0 }), Some(2));
    assert_eq!(column_at(&slices, Position { x: 14, y: 0 }), None);
    assert_eq!(column_at(&slices, Position { x: 5, y: 1 }), None);
    assert_eq!(column_at(&Vec::new(), Position { x: 0, y: 0 }), None);
    // of slices that overlap the first one counts
    let over = vec![
        Rect { x: 0, y: 0, width: 5, height: 1 },
        Rect { x: 0, y: 0, width: 5, height: 1 },
        Rect { x: 3, y: 0, width: 5, height: 1 },
        Rect { x: 6, y: 0, width: 5, height: 1 },
    ];
    assert_eq!(column_at(&over, Position { x: 4, y: 0 }), Some(0));
    assert_eq!(column_at(&over, Position { x: 6, y: 0 }), Some(1));
    assert_eq!(column_at(&over, Position { x: 9, y: 0 }), None);
}

#[test]
fn sort_direction_goes_round() {
    assert_eq!(SortDirection::Unsorted.next(), SortDirection::Ascending);
    assert_eq!(SortDirection::Ascending.next(), SortDirection::Descending);
    assert_eq!(SortDirection::Descending.next(), SortDirection::Unsorted);
}

#[test]
fn descending_swaps_the_operands() {
    let (a, b) = (Digit(1), Digit(2));
    assert!(comes_before(&a, &b, 0, SortDirection::Ascending));
    assert!(!comes_before(&b, &a, 0, SortDirection::Ascending));
    assert!(comes_before(&b, &a, 0, SortDirection::Descending));
    assert!(!comes_before(&a, &b, 0, SortDirection::Descending));
    assert!(!comes_before(&a, &a, 0, SortDirection::Ascending));
    assert!(!comes_before(&a, &a, 0, SortDirection::Descending));
    assert!(!comes_before(&a, &b, 0, SortDirection::Unsorted));
    assert!(!comes_before(&b, &a, 0, SortDirection::Unsorted));
}

#[test]
fn stable_sort_orders_and_keeps_ties() {
    let given = [31, 12, 21, 40, 11, 22, 50, 13, 1];
    let sorted = stable_sort(entries(&given), 0, SortDirection::Ascending);
    assert_eq!(numbers(&sorted), vec![40, 50, 31, 21, 11, 1, 12, 22, 13]);
    let sorted = stable_sort(entries(&given), 0, SortDirection::Descending);
    assert_eq!(numbers(&sorted), vec![13, 12, 22, 31, 21, 11, 1, 40, 50]);
    let sorted = stable_sort(entries(&given), 0, SortDirection::Unsorted);
    assert_eq!(numbers(&sorted), given.to_vec());
    assert_eq!(numbers(&stable_sort(entries(&[]), 0, SortDirection::Ascending)), vec![]);
    assert_eq!(numbers(&stable_sort(entries(&[5]), 0, SortDirection::Ascending)), vec![5]);
    assert_eq!(numbers(&stable_sort(entries(&[5, 4]), 0, SortDirection::Ascending)), vec![4, 5]);
}

#[test]
fn stable_sort_sorts_many_rows() {
    let given: Vec<u32> = (0..1000u32).map(|i| (i * 7919) % 1009).collect();
    let sorted = numbers(&stable_sort(entries(&given), 0, SortDirection::Ascending));
    let mut expected = given.clone();
    expected.sort_by_key(|n| n % 10);
    assert_eq!(sorted, expected);
    let sorted = numbers(&stable_sort(entries(&given), 0, SortDirection::Descending));
    let mut expected = given.clone();
    expected.sort_by(|a, b| (b % 10).cmp(&(a % 10)));
    assert_eq!(sorted, expected);
}

#[test]
fn reversed_turns_a_vector_round() {
    assert_eq!(reversed(vec![1, 2, 3]), vec![3, 2, 1]);
    assert_eq!(reversed(Vec::<u8>::new()), Vec::<u8>::new());
}

#[test]
fn display_rows_pair_texts_and_alignments() {
    let row = display_row(
        &strings(&["a", "b", "c"]),
        &vec![Alignment::Left, Alignment::Right],
        Default::default(),
        3,
    );
    assert_eq!(row.height, 3);
    assert_eq!(row.cells.len(), 2);
    assert_eq!(row.cells[0].text, "a");
    assert_eq!(row.cells[1].text, "b");
    assert_eq!(row.cells[1].alignment, Alignment::Right);
}

#[test]
fn column_names_carry_the_mark_of_the_direction() {
    assert_eq!(format_column_name("Name".to_string(), SortDirection::Ascending), "Name▲");
    assert_eq!(format_column_name("Name".to_string(), SortDirection::Unsorted), "Name-");
    assert_eq!(format_column_name("Name".to_string(), SortDirection::Descending), "Name▼");
    assert_eq!(format_column_name(String::new(), SortDirection::Descending), "▼");
    let header = build_header(
        &strings(&["A", "B"]),
        &vec![Alignment::Center, Alignment::Left],
        Some(1),
        SortDirection::Ascending,
        Default::default(),
    );
    assert_eq!(header.height, 1);
    assert_eq!(header.cells[0].text, "A");
    assert_eq!(header.cells[0].alignment, Alignment::Center);
    assert_eq!(header.cells[1].text, "B▲");
    let header = build_header(
        &strings(&["A", "B"]),
        &vec![Alignment::Center, Alignment::Left],
        None,
        SortDirection::Ascending,
        Default::default(),
    );
    assert_eq!(header.cells[1].text, "B");
}
