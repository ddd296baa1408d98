//! Window events, reduced to what the scene reacts to.

use vstd::prelude::*;

verus! {

/// The keys that the scene gives a meaning to; every other key is `Other`.
#[derive(Clone, Copy, Debug, PartialEq, Eq, Structural)]
pub enum Key {
    W,
    A,
    S,
    D,
    Up,
    Down,
    Left,
    Right,
    Space,
    LeftShift,
    Escape,
    Other,
}

/// A window event. Sizes are in physical pixels.
#[derive(Clone, Copy, Debug, PartialEq, Eq, Structural)]
pub enum InputEvent {
    /// The window has a new inner size.
    Resized { width: u32, height: u32 },
    /// The scale factor changed, and with it the inner size.
    ScaleFactorChanged { width: u32, height: u32 },
    /// The user asked for the window to close.
    CloseRequested,
    /// The pointer moved.
    CursorMoved,
    /// A key went down (`pressed`) or up.
    Keyboard { key: Key, pressed: bool },
    /// Any other event.
    Other,
}

/// What the event loop does after an event.
#[derive(Clone, Copy, Debug, PartialEq, Eq, Structural)]
pub enum LoopControl {
    Continue,
    Exit,
}

impl InputEvent {
    /// The event ends the program: a close request, or Escape going down.
    pub open spec fn spec_requests_exit(self) -> bool {
        match self {
            InputEvent::CloseRequested => true,
            InputEvent::Keyboard { key, pressed } => key == Key::Escape && pressed,
            _ => false,
        }
    }

    /// The size the event announces, if it announces one.
    pub open spec fn spec_new_size(self) -> Option<(u32, u32)> {
        match self {
            InputEvent::Resized { width, height } => Some((width, height)),
            InputEvent::ScaleFactorChanged { width, height } => Some((width, height)),
            _ => None,
        }
    }

    /// Whether the event ends the program.
    pub fn requests_exit(&self) -> (exit: bool)
        ensures
            exit == self.spec_requests_exit(),
    {
        match self {
            InputEvent::CloseRequested => true,
            InputEvent::Keyboard { key, pressed } => {
                let escape = match key {
                    Key::Escape => true,
                    _ => false,
                };
                escape && *pressed
            },
            _ => false,
        }
    }

    /// The size the event announces, if it announces one.
    pub fn new_size(&self) -> (size: Option<(u32, u32)>)
        ensures
            size == self.spec_new_size(),
    {
        match self {
            InputEvent::Resized { width, height } => Some((*width, *height)),
            InputEvent::ScaleFactorChanged { width, height } => Some((*width, *height)),
            _ => None,
        }
    }
}

} // verus!
