//! Logical input events. The terminal layer decodes raw key presses into
//! these plain values before they reach the session engine.

use vstd::prelude::*;

verus! {

/// One logical input event: a directional press or the escape signal.
#[derive(Debug, Clone, Copy, PartialEq, Eq, Structural)]
pub enum Key {
    ArrowUp,
    ArrowDown,
    ArrowLeft,
    ArrowRight,
    Escape,
}

impl Key {
    /// Whether this event is one of the four directional signals.
    pub open spec fn spec_is_directional(self) -> bool {
        self != Key::Escape
    }

    /// Whether this event is one of the four directional signals.
    pub fn is_directional(&self) -> (r: bool)
        ensures
            r == self.spec_is_directional(),
    {
        !matches!(self, Key::Escape)
    }
}

} // verus!
