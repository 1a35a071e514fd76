//! Input state that window back ends report to the application.
use vstd::prelude::*;

verus! {

/// Whether a key or button went down or up.
#[derive(Debug, Clone, Copy, PartialEq, Eq, Structural)]
pub enum State {
    Pressed,
    Released,
}

/// A mouse button.
#[derive(Debug, Clone, Copy, PartialEq, Eq, Structural)]
pub enum MouseButton {
    Left,
    Right,
    Middle,
}

} // verus!
