//! The input events the interaction state machines consume.  Each carries
//! the minimal payload the machines read; the cursor position travels as a
//! separate argument, since the host tracks it independently of the event.

use vstd::prelude::*;

verus! {

/// One mouse event, as the host delivers it to a canvas program.
#[derive(Clone, Copy, Debug, PartialEq, Eq, Structural)]
pub enum Event {
    /// The primary button went down.
    LeftPressed,
    /// The primary button came up.
    LeftReleased,
    /// The cursor moved; the new position travels beside the event.
    CursorMoved,
    /// The wheel scrolled; scrolling forward zooms in, backward zooms out.
    WheelScrolled { forward: bool },
    /// Any other input; the machines leave it unconsumed.
    Other,
}

} // verus!
