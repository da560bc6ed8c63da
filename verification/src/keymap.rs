//! Key maps: which command a key chord stands for.

use vstd::prelude::*;
use crate::event::KeyEvent;

verus! {

/// A command together with the chords that trigger it.
#[derive(Clone, Debug)]
pub struct ShortCut<T>(pub T, pub Vec<KeyEvent>);

/// Whether `ev` is one of the chords in `chords`.
pub open spec fn has_chord(chords: Seq<KeyEvent>, ev: KeyEvent) -> bool {
    exists|j: int| 0 <= j < chords.len() && (#[trigger] chords[j]).same_chord(ev)
}

/// Whether the shortcut at `i` is the first in `shortcuts` that is bound to `ev`.
pub open spec fn is_first_binding<T>(shortcuts: Seq<ShortCut<T>>, ev: KeyEvent, i: int) -> bool {
    &&& 0 <= i < shortcuts.len()
    &&& has_chord(shortcuts[i].1@, ev)
    &&& forall|k: int| 0 <= k < i ==> !has_chord((#[trigger] shortcuts[k]).1@, ev)
}

/// Whether no shortcut in `shortcuts` is bound to `ev`.
pub open spec fn is_unbound<T>(shortcuts: Seq<ShortCut<T>>, ev: KeyEvent) -> bool {
    forall|k: int| 0 <= k < shortcuts.len() ==> !has_chord((#[trigger] shortcuts[k]).1@, ev)
}

/// The place of the first shortcut in `shortcuts` that is bound to `ev`.
pub open spec fn first_binding<T>(shortcuts: Seq<ShortCut<T>>, ev: KeyEvent) -> Option<int> {
    if exists|i: int| is_first_binding(shortcuts, ev, i) {
        Some(choose|i: int| is_first_binding(shortcuts, ev, i))
    } else {
        None
    }
}

/// At most one shortcut is the first that is bound to `ev`.
pub proof fn lemma_first_binding_unique<T>(shortcuts: Seq<ShortCut<T>>, ev: KeyEvent, i: int)
    requires
        is_first_binding(shortcuts, ev, i),
    ensures
        first_binding(shortcuts, ev) == Some(i),
{
    let j = choose|j: int| is_first_binding(shortcuts, ev, j);
    if j < i {
        assert(has_chord(shortcuts[j].1@, ev));
    } else if i < j {
        assert(has_chord(shortcuts[i].1@, ev));
    }
}

/// What a lookup of `ev` in `shortcuts` gives: the command of the first
/// shortcut bound to `ev`, in the order of `shortcuts`, or nothing where none
/// is bound to it.
pub open spec fn lookup_of<T>(shortcuts: Seq<ShortCut<T>>, ev: KeyEvent) -> Option<T> {
    match first_binding(shortcuts, ev) {
        Some(i) => Some(shortcuts[i].0),
        None => None,
    }
}

/// Whether `found` is what a lookup of `ev` in `shortcuts` gives.
pub open spec fn is_lookup<T>(shortcuts: Seq<ShortCut<T>>, ev: KeyEvent, found: Option<&T>) -> bool {
    match found {
        Some(cmd) => lookup_of(shortcuts, ev) == Some(*cmd),
        None => lookup_of(shortcuts, ev) is None,
    }
}

/// Whether `ev` is one of `chords`.
pub fn contains_chord(chords: &Vec<KeyEvent>, ev: &KeyEvent) -> (found: bool)
    ensures
        found == has_chord(chords@, *ev),
{
    let mut j: usize = 0;
    while j < chords.len()
        invariant
            j <= chords.len(),
            forall|k: int| 0 <= k < j ==> !(#[trigger] chords@[k]).same_chord(*ev),
        decreases chords.len() - j,
    {
        if chords[j].matches(ev) {
            return true;
        }
        j += 1;
    }
    false
}

/// The command of the first of `shortcuts` that is bound to `ev`.
pub fn lookup<'a, T>(shortcuts: &'a [ShortCut<T>], ev: &KeyEvent) -> (found: Option<&'a T>)
    ensures
        is_lookup(shortcuts@, *ev, found),
{
    let mut i: usize = 0;
    while i < shortcuts.len()
        invariant
            i <= shortcuts.len(),
            forall|k: int| 0 <= k < i ==> !has_chord((#[trigger] shortcuts@[k]).1@, *ev),
        decreases shortcuts.len() - i,
    {
        if contains_chord(&shortcuts[i].1, ev) {
            proof {
                lemma_first_binding_unique(shortcuts@, *ev, i as int);
            }
            return Some(&shortcuts[i].0);
        }
        i += 1;
    }
    proof {
        if exists|i: int| is_first_binding(shortcuts@, *ev, i) {
            let i = choose|i: int| is_first_binding(shortcuts@, *ev, i);
            assert(has_chord(shortcuts@[i].1@, *ev));
        }
    }
    None
}

/// A set of shortcuts that turns key events into commands.
pub trait KeyMap: Sized {
    type Command;

    /// The shortcuts of the map, in the order in which they are tried.
    spec fn shortcuts(&self) -> Seq<ShortCut<Self::Command>>;

    /// The map a component starts with.
    fn default() -> Self;

    fn get_shortcuts(&self) -> (shortcuts: &[ShortCut<Self::Command>])
        ensures
            shortcuts@ == self.shortcuts(),
    ;

    /// The command that `ev` stands for: that of the first shortcut with `ev`
    /// among its chords. A chord is one key event; there are no sequences.
    fn get_command(&self, ev: &KeyEvent) -> (found: Option<&Self::Command>)
        ensures
            is_lookup(self.shortcuts(), *ev, found),
    {
        lookup(self.get_shortcuts(), ev)
    }
}

} // verus!
