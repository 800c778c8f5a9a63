//! The events the user interface consumes from its windowing collaborator.
//! The core only routes these; dispatch and hit-testing are not implemented.

use vstd::prelude::*;

verus! {

#[derive(Debug, Clone, Copy, PartialEq)]
pub enum Event {
    PointerEvent(PointerEvent),
    WindowEvent(WindowEvent),
    KeyboardEvent(KeyboardEvent),
    ClipboardEvent(ClipboardEvent),
}

#[derive(Debug, Clone, Copy, PartialEq)]
pub enum PointerEvent {
    Touch,
    MouseMoved,
    MouseEntered,
    MouseExited,
    MouseInput,
}

#[derive(Debug, Clone, Copy, PartialEq)]
pub enum WindowEvent {
    Resized,
    Moved,
    CloseRequested,
    FocusChanged,
    DroppedFile,
    HoveredFile,
}

#[derive(Debug, Clone, Copy, PartialEq)]
pub enum KeyboardEvent {
    KeyboardInput,
}

#[derive(Debug, Clone, Copy, PartialEq)]
pub enum ClipboardEvent {
    Cut,
    Paste,
}

} // verus!
