//! Where a docked view stands beside the other views.

use vstd::prelude::*;
use crate::tabular::Constraint;

verus! {

/// The side of the screen at which a dock stands.
#[derive(Clone, Copy, Debug, PartialEq, Eq, Structural)]
pub enum DockPosition {
    Left,
    Right,
    Top,
    Bottom,
}

/// The direction in which an area is split.
#[derive(Clone, Copy, Debug, PartialEq, Eq, Structural)]
pub enum Direction {
    Horizontal,
    Vertical,
}

/// A split of an area in two parts.
#[derive(Clone, Copy, Debug, PartialEq, Eq, Structural)]
pub struct SplitLayout {
    pub direction: Direction,
    pub first: Constraint,
    pub second: Constraint,
}

impl DockPosition {
    /// Whether the dock is the first of the two parts: the left or the upper
    /// one.
    pub open spec fn spec_is_first(self) -> bool {
        self is Left || self is Top
    }

    #[verifier::when_used_as_spec(spec_is_first)]
    pub fn is_first(self) -> (first: bool)
        ensures
            first == self.spec_is_first(),
    {
        match self {
            DockPosition::Left | DockPosition::Top => true,
            DockPosition::Right | DockPosition::Bottom => false,
        }
    }

    /// The split between a dock of `size` cells at this side and the rest.
    pub open spec fn spec_get_layout(self, size: u16) -> SplitLayout {
        SplitLayout {
            direction: if self is Left || self is Right {
                Direction::Horizontal
            } else {
                Direction::Vertical
            },
            first: if self.spec_is_first() {
                Constraint::Length(size)
            } else {
                Constraint::Fill(1)
            },
            second: if self.spec_is_first() {
                Constraint::Fill(1)
            } else {
                Constraint::Length(size)
            },
        }
    }

    /// The split between a dock of `size` cells at this side and the rest:
    /// the dock is exactly `size` cells wide or high, and the rest fills what
    /// is left.
    #[verifier::when_used_as_spec(spec_get_layout)]
    pub fn get_layout(self, size: u16) -> (layout: SplitLayout)
        ensures
            layout == self.spec_get_layout(size),
    {
        match self {
            DockPosition::Left => SplitLayout {
                direction: Direction::Horizontal,
                first: Constraint::Length(size),
                second: Constraint::Fill(1),
            },
            DockPosition::Right => SplitLayout {
                direction: Direction::Horizontal,
                first: Constraint::Fill(1),
                second: Constraint::Length(size),
            },
            DockPosition::Top => SplitLayout {
                direction: Direction::Vertical,
                first: Constraint::Length(size),
                second: Constraint::Fill(1),
            },
            DockPosition::Bottom => SplitLayout {
                direction: Direction::Vertical,
                first: Constraint::Fill(1),
                second: Constraint::Length(size),
            },
        }
    }
}

} // verus!
