//! Pointer events on the tray icon, reduced to what the shell reads of them.

use vstd::prelude::*;

verus! {

/// The mouse button of a pointer event.
#[derive(Clone, Copy, Debug, PartialEq, Eq, Structural)]
pub enum MouseButton {
    Left,
    Right,
    Middle,
}

/// Whether the button was pressed or let go when the event was raised.
#[derive(Clone, Copy, Debug, PartialEq, Eq, Structural)]
pub enum MouseButtonState {
    /// The button was released.
    Up,
    /// The button was pressed.
    Down,
}

/// A pointer event on the tray icon. Positions and the icon's identifier are
/// left out: the shell has a single icon and never reads where the pointer was.
#[derive(Clone, Copy, Debug, PartialEq, Eq, Structural)]
pub enum TrayIconEvent {
    /// A click, reported once when the button goes down and once when it comes up.
    Click { button: MouseButton, button_state: MouseButtonState },
    /// A double click.
    DoubleClick { button: MouseButton },
    /// The pointer entered the icon's region.
    Enter,
    /// The pointer moved inside the icon's region.
    Move,
    /// The pointer left the icon's region.
    Leave,
    /// An event of a kind that the shell does not know.
    Other,
}

/// The one pointer event that the shell reacts to: the release of the left
/// button in a click.
pub open spec fn is_toggle_click(event: TrayIconEvent) -> bool {
    event == (TrayIconEvent::Click {
        button: MouseButton::Left,
        button_state: MouseButtonState::Up,
    })
}

/// Tells whether a pointer event asks for the window to be toggled.
pub fn toggles_window(event: TrayIconEvent) -> (toggles: bool)
    ensures
        toggles == is_toggle_click(event),
{
    match event {
        TrayIconEvent::Click { button: MouseButton::Left, button_state: MouseButtonState::Up } => true,
        _ => false,
    }
}

} // verus!
