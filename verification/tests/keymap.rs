use ratatui_helpers::event::{
    KeyCode, KeyEvent, KeyEventKind, KeyEventState, KeyModifiers, ALT, CONTROL, SHIFT,
};
use ratatui_helpers::keymap::{contains_chord, lookup, KeyMap, ShortCut};
use ratatui_helpers::table_keymap::{TableCommand, TableKeyMap};

fn plain(code: KeyCode) -> KeyEvent {
    KeyEvent::new(code, KeyModifiers::none())
}

#[test]
fn default_map_binds_the_seven_commands() {
    let map = TableKeyMap::default();
    let shortcuts = map.get_shortcuts();
    assert_eq!(shortcuts.len(), 7);
    assert_eq!(shortcuts[0].0, TableCommand::GoDown);
    assert_eq!(shortcuts[0].1, vec![plain(KeyCode::Down), plain(KeyCode::Char('j'))]);
    assert_eq!(shortcuts[1].0, TableCommand::GoUp);
    assert_eq!(shortcuts[1].1, vec![plain(KeyCode::Up), plain(KeyCode::Char('k'))]);
    assert_eq!(shortcuts[2].0, TableCommand::GoDownCycle);
    assert_eq!(shortcuts[2].1, vec![plain(KeyCode::Tab)]);
    assert_eq!(shortcuts[3].0, TableCommand::GoUpCycle);
    assert_eq!(shortcuts[3].1, vec![plain(KeyCode::BackTab)]);
    assert_eq!(shortcuts[4].0, TableCommand::GoPageDown);
    assert_eq!(shortcuts[4].1, vec![plain(KeyCode::PageDown)]);
    assert_eq!(shortcuts[5].0, TableCommand::GoPageUp);
    assert_eq!(shortcuts[5].1, vec![plain(KeyCode::PageUp)]);
    assert_eq!(shortcuts[6].0, TableCommand::GoHalfPageDown);
    assert_eq!(shortcuts[6].1, vec![plain(KeyCode::Char(' '))]);
}

#[test]
fn default_map_gives_commands_for_keys() {
    let map = TableKeyMap::default();
    assert_eq!(map.get_command(&plain(KeyCode::Down)), Some(&TableCommand::GoDown));
    assert_eq!(map.get_command(&plain(KeyCode::Char('j'))), Some(&TableCommand::GoDown));
    assert_eq!(map.get_command(&plain(KeyCode::Char('k'))), Some(&TableCommand::GoUp));
    assert_eq!(map.get_command(&plain(KeyCode::Tab)), Some(&TableCommand::GoDownCycle));
    assert_eq!(map.get_command(&plain(KeyCode::BackTab)), Some(&TableCommand::GoUpCycle));
    assert_eq!(map.get_command(&plain(KeyCode::PageDown)), Some(&TableCommand::GoPageDown));
    assert_eq!(map.get_command(&plain(KeyCode::PageUp)), Some(&TableCommand::GoPageUp));
    assert_eq!(map.get_command(&plain(KeyCode::Char(' '))), Some(&TableCommand::GoHalfPageDown));
    assert_eq!(map.get_command(&plain(KeyCode::Char('x'))), None);
    assert_eq!(map.get_command(&plain(KeyCode::Enter)), None);
}

#[test]
fn half_page_up_is_unbound() {
    let map = TableKeyMap::default();
    let shifted_space = KeyEvent::new(KeyCode::Char(' '), KeyModifiers::from_bits(SHIFT));
    assert_eq!(map.get_command(&shifted_space), None);
}

#[test]
fn modifiers_are_part_of_the_chord() {
    let map = TableKeyMap::default();
    let ctrl_j = KeyEvent::new(KeyCode::Char('j'), KeyModifiers::from_bits(CONTROL));
    assert_eq!(map.get_command(&ctrl_j), None);
    let alt_down = KeyEvent::new(KeyCode::Down, KeyModifiers::from_bits(ALT));
    assert_eq!(map.get_command(&alt_down), None);
    let released = KeyEvent { kind: KeyEventKind::Release, ..plain(KeyCode::Down) };
    assert_eq!(map.get_command(&released), None);
    let keypad = KeyEvent { state: KeyEventState { bits: 1 }, ..plain(KeyCode::Down) };
    assert_eq!(map.get_command(&keypad), None);
}

#[test]
fn first_match_wins() {
    let shortcuts = vec![
        ShortCut("first", vec![plain(KeyCode::Char('a')), plain(KeyCode::Char('b'))]),
        ShortCut("second", vec![plain(KeyCode::Char('b')), plain(KeyCode::Char('c'))]),
        ShortCut("third", vec![]),
        ShortCut("fourth", vec![plain(KeyCode::Char('c'))]),
    ];
    assert_eq!(lookup(&shortcuts, &plain(KeyCode::Char('a'))), Some(&"first"));
    assert_eq!(lookup(&shortcuts, &plain(KeyCode::Char('b'))), Some(&"first"));
    assert_eq!(lookup(&shortcuts, &plain(KeyCode::Char('c'))), Some(&"second"));
    assert_eq!(lookup(&shortcuts, &plain(KeyCode::Char('d'))), None);
    let none: Vec<ShortCut<&str>> = Vec::new();
    assert_eq!(lookup(&none, &plain(KeyCode::Char('a'))), None);
}

#[test]
fn capitals_and_shift_are_one_chord() {
    let capital = plain(KeyCode::Char('J'));
    let capital_shift = KeyEvent::new(KeyCode::Char('J'), KeyModifiers::from_bits(SHIFT));
    let small_shift = KeyEvent::new(KeyCode::Char('j'), KeyModifiers::from_bits(SHIFT));
    let small = plain(KeyCode::Char('j'));
    assert!(capital.matches(&capital_shift));
    assert!(capital_shift.matches(&small_shift));
    assert!(small_shift.matches(&capital));
    assert!(!small.matches(&capital));
    assert!(!small.matches(&small_shift));
    assert!(small.matches(&small));
    // only letters have capitals
    let digit_shift = KeyEvent::new(KeyCode::Char('1'), KeyModifiers::from_bits(SHIFT));
    assert!(!digit_shift.matches(&plain(KeyCode::Char('1'))));
    let e_acute_shift = KeyEvent::new(KeyCode::Char('é'), KeyModifiers::from_bits(SHIFT));
    assert!(!e_acute_shift.matches(&plain(KeyCode::Char('É'))));
    // other keys are compared as they are
    assert!(plain(KeyCode::F(3)).matches(&plain(KeyCode::F(3))));
    assert!(!plain(KeyCode::F(3)).matches(&plain(KeyCode::F(4))));
    let shift_tab = KeyEvent::new(KeyCode::Tab, KeyModifiers::from_bits(SHIFT));
    assert!(!shift_tab.matches(&plain(KeyCode::Tab)));
}

#[test]
fn chord_lists_are_searched_whole() {
    let chords = vec![plain(KeyCode::Left), plain(KeyCode::Char('H')), plain(KeyCode::Home)];
    assert!(contains_chord(&chords, &plain(KeyCode::Home)));
    assert!(contains_chord(&chords, &KeyEvent::new(KeyCode::Char('h'), KeyModifiers::from_bits(SHIFT))));
    assert!(!contains_chord(&chords, &plain(KeyCode::Char('h'))));
    assert!(!contains_chord(&Vec::new(), &plain(KeyCode::Home)));
}

#[test]
fn commands_have_words() {
    assert_eq!(TableCommand::GoDown.to_string(), "go down");
    assert_eq!(TableCommand::GoUp.to_string(), "go up");
    assert_eq!(TableCommand::GoDownCycle.to_string(), "go down cycle");
    assert_eq!(TableCommand::GoUpCycle.to_string(), "go up cycle");
    assert_eq!(TableCommand::GoPageDown.to_string(), "go page down");
    assert_eq!(TableCommand::GoPageUp.to_string(), "go page up");
    assert_eq!(TableCommand::GoHalfPageDown.to_string(), "go half page down");
}
