//! The commands of a table and the keys that give them.

use vstd::prelude::*;
use vstd::string::*;
use crate::event::{KeyCode, KeyEvent, KeyEventKind, KeyEventState, KeyModifiers};
use crate::keymap::{KeyMap, ShortCut};

verus! {

/// What a key can ask of a table.
#[derive(Clone, Copy, Debug, PartialEq, Eq, Structural)]
pub enum TableCommand {
    /// One row down, stopping at the last row.
    GoDown,
    /// One row up, stopping at the first row.
    GoUp,
    /// One row down, and from the last row to the first.
    GoDownCycle,
    /// One row up, and from the first row to the last.
    GoUpCycle,
    /// Down by the height of the rows area.
    GoPageDown,
    /// Up by the height of the rows area.
    GoPageUp,
    /// Down by half the height of the rows area.
    GoHalfPageDown,
}

impl TableCommand {
    /// The command in words.
    pub open spec fn label(self) -> Seq<char> {
        match self {
            TableCommand::GoDown => "go down"@,
            TableCommand::GoUp => "go up"@,
            TableCommand::GoDownCycle => "go down cycle"@,
            TableCommand::GoUpCycle => "go up cycle"@,
            TableCommand::GoPageDown => "go page down"@,
            TableCommand::GoPageUp => "go page up"@,
            TableCommand::GoHalfPageDown => "go half page down"@,
        }
    }

    /// The command in words.
    pub fn to_string(&self) -> (s: String)
        ensures
            s@ == self.label(),
    {
        match self {
            TableCommand::GoDown => String::from_str("go down"),
            TableCommand::GoUp => String::from_str("go up"),
            TableCommand::GoDownCycle => String::from_str("go down cycle"),
            TableCommand::GoUpCycle => String::from_str("go up cycle"),
            TableCommand::GoPageDown => String::from_str("go page down"),
            TableCommand::GoPageUp => String::from_str("go page up"),
            TableCommand::GoHalfPageDown => String::from_str("go half page down"),
        }
    }
}

/// A press of `code` with no modifier.
pub open spec fn plain_key(code: KeyCode) -> KeyEvent {
    KeyEvent {
        code,
        modifiers: KeyModifiers { bits: 0 },
        kind: KeyEventKind::Press,
        state: KeyEventState { bits: 0 },
    }
}

/// Whether `shortcut` gives `command` for exactly the chords `chords`.
pub open spec fn binds(
    shortcut: ShortCut<TableCommand>,
    command: TableCommand,
    chords: Seq<KeyEvent>,
) -> bool {
    shortcut.0 == command && shortcut.1@ == chords
}

/// Whether `shortcuts` are the bindings a table starts with: the arrow keys
/// and `j`, `k` for a row down or up, tab and back tab for the same with
/// wrapping, the page keys for a page, and the space bar for half a page
/// down. Nothing is bound to half a page up.
pub open spec fn are_default_bindings(shortcuts: Seq<ShortCut<TableCommand>>) -> bool {
    &&& shortcuts.len() == 7
    &&& binds(
        shortcuts[0],
        TableCommand::GoDown,
        seq![plain_key(KeyCode::Down), plain_key(KeyCode::Char('j'))],
    )
    &&& binds(
        shortcuts[1],
        TableCommand::GoUp,
        seq![plain_key(KeyCode::Up), plain_key(KeyCode::Char('k'))],
    )
    &&& binds(shortcuts[2], TableCommand::GoDownCycle, seq![plain_key(KeyCode::Tab)])
    &&& binds(shortcuts[3], TableCommand::GoUpCycle, seq![plain_key(KeyCode::BackTab)])
    &&& binds(shortcuts[4], TableCommand::GoPageDown, seq![plain_key(KeyCode::PageDown)])
    &&& binds(shortcuts[5], TableCommand::GoPageUp, seq![plain_key(KeyCode::PageUp)])
    &&& binds(shortcuts[6], TableCommand::GoHalfPageDown, seq![plain_key(KeyCode::Char(' '))])
}

/// The key map of a table.
#[derive(Clone, Debug)]
pub struct TableKeyMap(pub Vec<ShortCut<TableCommand>>);

fn one_key(command: TableCommand, code: KeyCode) -> (shortcut: ShortCut<TableCommand>)
    ensures
        binds(shortcut, command, seq![plain_key(code)]),
{
    let mut chords: Vec<KeyEvent> = Vec::new();
    chords.push(KeyEvent::new(code, KeyModifiers::none()));
    assert(chords@ =~= seq![plain_key(code)]);
    ShortCut(command, chords)
}

fn two_keys(command: TableCommand, first: KeyCode, second: KeyCode) -> (shortcut: ShortCut<
    TableCommand,
>)
    ensures
        binds(shortcut, command, seq![plain_key(first), plain_key(second)]),
{
    let mut chords: Vec<KeyEvent> = Vec::new();
    chords.push(KeyEvent::new(first, KeyModifiers::none()));
    chords.push(KeyEvent::new(second, KeyModifiers::none()));
    assert(chords@ =~= seq![plain_key(first), plain_key(second)]);
    ShortCut(command, chords)
}

impl KeyMap for TableKeyMap {
    type Command = TableCommand;

    open spec fn shortcuts(&self) -> Seq<ShortCut<TableCommand>> {
        self.0@
    }

    fn default() -> (map: Self)
        ensures
            are_default_bindings(map.0@),
    {
        let mut shortcuts: Vec<ShortCut<TableCommand>> = Vec::new();
        shortcuts.push(two_keys(TableCommand::GoDown, KeyCode::Down, KeyCode::Char('j')));
        shortcuts.push(two_keys(TableCommand::GoUp, KeyCode::Up, KeyCode::Char('k')));
        shortcuts.push(one_key(TableCommand::GoDownCycle, KeyCode::Tab));
        shortcuts.push(one_key(TableCommand::GoUpCycle, KeyCode::BackTab));
        shortcuts.push(one_key(TableCommand::GoPageDown, KeyCode::PageDown));
        shortcuts.push(one_key(TableCommand::GoPageUp, KeyCode::PageUp));
        shortcuts.push(one_key(TableCommand::GoHalfPageDown, KeyCode::Char(' ')));
        TableKeyMap(shortcuts)
    }

    fn get_shortcuts(&self) -> (shortcuts: &[ShortCut<TableCommand>]) {
        self.0.as_slice()
    }
}

} // verus!
