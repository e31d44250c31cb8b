use vstd::prelude::*;

verus! {

/// A semantic game action, produced by the render thread from window events.
#[derive(Clone, Debug, PartialEq, Eq)]
pub enum Action {
    /// The user asked the window to close.
    CloseRequested,
    /// A clickable button was pressed.
    ButtonPress { button_id: String },
    /// A grid tile was clicked. `alternate_click` is true for the secondary
    /// pointer button.
    TileClick { x: usize, y: usize, alternate_click: bool },
}

} // verus!
