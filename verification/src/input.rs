//! Input events, as the panel reports them.

use vstd::prelude::*;

verus! {

/// The button of a click.
#[derive(Clone, Copy, Debug, PartialEq, Eq, Structural)]
pub enum MouseButton {
    Left,
    Middle,
    Right,
    WheelUp,
    WheelDown,
    Forward,
    Back,
    Unknown,
}

/// A click on the panel.
#[derive(Clone, Debug)]
pub struct I3BarEvent {
    /// The name of the widget that was clicked, if the click hit one.
    pub name: Option<String>,
    /// The button that was pressed.
    pub button: MouseButton,
}

impl I3BarEvent {
    /// Whether the event is a click with `button` on the widget named `name`.
    pub open spec fn hits(&self, name: Seq<char>, button: MouseButton) -> bool {
        self.name matches Some(clicked) && clicked@ == name && self.button == button
    }
}

} // verus!
