//! The input events the controllers consume, as plain values.
//!
//! The windowing collaborator delivers pointer and keyboard input in its own
//! types; the application layer maps them onto these before dispatching.

use vstd::prelude::*;

verus! {

/// The pointer buttons the controllers distinguish.
#[derive(Clone, Copy, PartialEq, Eq, Structural, Debug)]
pub enum MouseButton {
    /// The primary button, starting Pan and marker drags.
    Left,
    /// The secondary button, starting Tumble.
    Right,
}

/// Whether a button or key went down or up.
#[derive(Clone, Copy, PartialEq, Eq, Structural, Debug)]
pub enum ElementState {
    Pressed,
    Released,
}

/// The keys the dispatcher inspects; everything else is `Other`.
#[derive(Clone, Copy, PartialEq, Eq, Structural, Debug)]
pub enum KeyCode {
    /// The designated mode key: held down, input goes to the selector.
    Mode,
    /// The designated quit key: a press signals session termination.
    Quit,
    /// Any other key; ignored.
    Other,
}

/// One input event, with pixel coordinates for pointer motion.
#[derive(Clone, Copy, PartialEq, Eq, Structural, Debug)]
pub enum InputEvent {
    MouseClick { state: ElementState, button: MouseButton },
    MouseMove { x: i64, y: i64 },
    MouseScroll { delta: i64 },
    Keyboard { state: ElementState, key: KeyCode },
}

} // verus!
