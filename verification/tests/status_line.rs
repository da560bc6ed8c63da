use ratatui_helpers::dock::{Direction, DockPosition, SplitLayout};
use ratatui_helpers::status_line::{StatusId, StatusLine};
use ratatui_helpers::tabular::Constraint;
use ratatui_helpers::view_stack::visible_base;

#[test]
fn ids_count_up_and_wrap() {
    let mut id = StatusId::default();
    assert_eq!(id, StatusId(0));
    id.next();
    assert_eq!(id, StatusId(1));
    id.next();
    assert_eq!(id, StatusId(2));
    let mut last = StatusId(u32::MAX);
    last.next();
    assert_eq!(last, StatusId(0));
}

#[test]
fn show_names_messages_in_turn() {
    let mut line = StatusLine::new();
    assert_eq!(line.get_line(0), "");
    let a = line.show("saved".to_string(), Some(1000), false, 10);
    let b = line.show("loading".to_string(), None, true, 20);
    assert_eq!(a, StatusId(1));
    assert_eq!(b, StatusId(2));
    assert_eq!(line.ids, StatusId(2));
    assert_eq!(line.lines.len(), 2);
    assert_eq!(line.lines[0].msg, "saved");
    assert_eq!(line.lines[0].created_at, 10);
    assert_eq!(line.lines[0].duration, Some(1000));
    assert_eq!(line.lines[1].id, b);
    assert!(line.lines[1].show_elapsed);
}

#[test]
fn line_lists_newest_first() {
    let mut line = StatusLine::new();
    line.show("one".to_string(), None, false, 0);
    assert_eq!(line.get_line(5), "[1] one");
    line.show("two".to_string(), None, false, 0);
    line.show("three".to_string(), None, false, 0);
    assert_eq!(line.get_line(5), "[3] three | [2] two | [1] one");
}

#[test]
fn elapsed_time_is_shown_in_seconds() {
    let mut line = StatusLine::new();
    line.show("work".to_string(), None, true, 1000);
    assert_eq!(line.get_line(1000), "[1] work (0s)");
    assert_eq!(line.get_line(2234), "[1] work (1.234s)");
    assert_eq!(line.get_line(2500), "[1] work (1.5s)");
    assert_eq!(line.get_line(2250), "[1] work (1.25s)");
    assert_eq!(line.get_line(3000), "[1] work (2s)");
    assert_eq!(line.get_line(1007), "[1] work (0.007s)");
    assert_eq!(line.get_line(1070), "[1] work (0.07s)");
    assert_eq!(line.get_line(124_456), "[1] work (123.456s)");
    // a clock that went back shows no time
    assert_eq!(line.get_line(500), "[1] work (0s)");
}

#[test]
fn update_drops_what_has_run_out() {
    let mut line = StatusLine::new();
    line.show("short".to_string(), Some(100), false, 0);
    line.show("stays".to_string(), None, false, 0);
    line.show("long".to_string(), Some(1000), false, 50);
    line.update(99);
    assert_eq!(line.lines.len(), 3);
    line.update(100);
    assert_eq!(line.get_line(100), "[2] long | [1] stays");
    line.update(1049);
    assert_eq!(line.lines.len(), 2);
    line.update(1050);
    assert_eq!(line.get_line(1050), "[1] stays");
    line.update(u64::MAX);
    assert_eq!(line.get_line(0), "[1] stays");
    assert_eq!(line.ids, StatusId(3));
}

#[test]
fn durations_near_the_end_of_time_do_not_overflow() {
    let mut line = StatusLine::new();
    line.show("late".to_string(), Some(u64::MAX), false, u64::MAX);
    line.show("zero".to_string(), Some(0), false, 7);
    line.update(7);
    assert_eq!(line.get_line(7), "[1] late");
    line.update(u64::MAX);
    assert_eq!(line.lines.len(), 1);
}

#[test]
fn remove_takes_one_message_off() {
    let mut line = StatusLine::new();
    let a = line.show("a".to_string(), None, false, 0);
    let b = line.show("b".to_string(), None, false, 0);
    let c = line.show("c".to_string(), None, false, 0);
    line.remove(b);
    assert_eq!(line.get_line(0), "[2] c | [1] a");
    line.remove(b);
    assert_eq!(line.lines.len(), 2);
    line.remove(a);
    line.remove(c);
    assert_eq!(line.get_line(0), "");
    assert_eq!(line.ids, StatusId(3));
}

#[test]
fn line_takes_a_row_only_with_messages() {
    let mut line = StatusLine::default();
    assert_eq!(
        line.get_layout(),
        SplitLayout {
            direction: Direction::Vertical,
            first: Constraint::Fill(1),
            second: Constraint::Length(0),
        }
    );
    line.show("a".to_string(), None, false, 0);
    assert_eq!(line.get_layout().second, Constraint::Length(1));
}

#[test]
fn dock_is_as_wide_as_asked() {
    assert_eq!(
        DockPosition::Left.get_layout(12),
        SplitLayout {
            direction: Direction::Horizontal,
            first: Constraint::Length(12),
            second: Constraint::Fill(1),
        }
    );
    assert_eq!(
        DockPosition::Right.get_layout(12),
        SplitLayout {
            direction: Direction::Horizontal,
            first: Constraint::Fill(1),
            second: Constraint::Length(12),
        }
    );
    assert_eq!(
        DockPosition::Top.get_layout(3),
        SplitLayout {
            direction: Direction::Vertical,
            first: Constraint::Length(3),
            second: Constraint::Fill(1),
        }
    );
    assert_eq!(
        DockPosition::Bottom.get_layout(3),
        SplitLayout {
            direction: Direction::Vertical,
            first: Constraint::Fill(1),
            second: Constraint::Length(3),
        }
    );
    assert!(DockPosition::Left.is_first());
    assert!(DockPosition::Top.is_first());
    assert!(!DockPosition::Right.is_first());
    assert!(!DockPosition::Bottom.is_first());
}

#[test]
fn views_are_visible_down_to_the_first_that_does_not_float() {
    assert_eq!(visible_base(&vec![false]), Some(0));
    assert_eq!(visible_base(&vec![false, false]), Some(1));
    assert_eq!(visible_base(&vec![false, true, true]), Some(0));
    assert_eq!(visible_base(&vec![false, false, true]), Some(1));
    assert_eq!(visible_base(&vec![true, true]), None);
    assert_eq!(visible_base(&vec![]), None);
}
