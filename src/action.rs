use vstd::prelude::*;

verus! {

/// A semantic event that the event loop hands to every pane.
#[derive(Clone, Copy, Debug, PartialEq, Eq, Structural)]
pub enum Action {
    /// Move the selection one row down.
    Down,
    /// Move the selection one row up.
    Up,
    /// Confirm the current selection (reserved; no pane acts on it yet).
    Submit,
    /// A redraw is requested.
    Update,
}

} // verus!
