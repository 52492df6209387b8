//! The per-window hover state: which custom button, if any, the pointer
//! currently occupies, and its mapping to the small integer kept in the
//! host's per-window storage slot.

use vstd::prelude::*;

verus! {

use crate::geometry::Point;
use crate::layout::ButtonRects;

/// Which custom title-bar button the pointer currently occupies.
#[derive(Clone, Copy, PartialEq, Eq, Structural, Debug)]
pub enum HoveredButton {
    NoButton,
    Minimize,
    Maximize,
    Close,
}

impl HoveredButton {
    /// The small integer a hover state is stored as in the host's
    /// per-window slot.
    pub open spec fn spec_code(self) -> int {
        match self {
            HoveredButton::NoButton => 0,
            HoveredButton::Minimize => 1,
            HoveredButton::Maximize => 2,
            HoveredButton::Close => 3,
        }
    }

    /// The hover state a stored integer stands for; every unrecognized
    /// value falls back to no button.
    pub open spec fn spec_from_code(code: int) -> HoveredButton {
        if code == 1 {
            HoveredButton::Minimize
        } else if code == 2 {
            HoveredButton::Maximize
        } else if code == 3 {
            HoveredButton::Close
        } else {
            HoveredButton::NoButton
        }
    }

    /// Decode a hover state from the host's per-window storage slot.
    pub fn from_code(code: isize) -> (r: HoveredButton)
        ensures
            r == HoveredButton::spec_from_code(code as int),
    {
        if code == 1 {
            HoveredButton::Minimize
        } else if code == 2 {
            HoveredButton::Maximize
        } else if code == 3 {
            HoveredButton::Close
        } else {
            HoveredButton::NoButton
        }
    }

    /// Encode a hover state for the host's per-window storage slot.
    pub fn to_code(self) -> (c: isize)
        ensures
            c == self.spec_code(),
    {
        match self {
            HoveredButton::NoButton => 0,
            HoveredButton::Minimize => 1,
            HoveredButton::Maximize => 2,
            HoveredButton::Close => 3,
        }
    }
}

/// Storing a hover state and reading it back gives the same state, for
/// every state.
pub proof fn lemma_hover_code_round_trip(b: HoveredButton)
    ensures
        HoveredButton::spec_from_code(b.spec_code()) == b,
{
}

/// The button whose rectangle holds the pointer, tried in the order
/// minimize, maximize, close.
pub open spec fn spec_hovered_at(buttons: ButtonRects, p: Point) -> HoveredButton {
    if buttons.minimize.spec_contains(p) {
        HoveredButton::Minimize
    } else if buttons.maximize.spec_contains(p) {
        HoveredButton::Maximize
    } else if buttons.close.spec_contains(p) {
        HoveredButton::Close
    } else {
        HoveredButton::NoButton
    }
}

/// Which button the pointer at `p` hovers, if any.
pub fn hovered_at(buttons: &ButtonRects, p: Point) -> (r: HoveredButton)
    ensures
        r == spec_hovered_at(*buttons, p),
{
    if buttons.minimize.contains(p) {
        HoveredButton::Minimize
    } else if buttons.maximize.contains(p) {
        HoveredButton::Maximize
    } else if buttons.close.contains(p) {
        HoveredButton::Close
    } else {
        HoveredButton::NoButton
    }
}

} // verus!
