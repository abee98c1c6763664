//! Window input types in the vocabulary of the W3C UI events.
use vstd::prelude::*;

verus! {

/// A mouse button, numbered as the UI events specification numbers `MouseEvent.button`.
#[derive(Debug, Clone, Copy, PartialEq, Eq, Structural)]
pub enum MouseButton {
    /// the primary button (usually the left button, or the only button of single-button
    /// devices), or the un-initialized value; number 0
    Primary,
    /// the auxiliary button (usually the middle button, often combined with a wheel);
    /// number 1
    Auxilliary,
    /// the secondary button (usually the right button, often for a context menu); number 2
    Secondary,
    /// the first extra button, usually "browser back"; number 3
    X1,
    /// the second extra button, usually "browser forward"; number 4
    X2,
    /// any other button, by its number (better above 4, as X1 and X2 cover 3 and 4)
    Custom(i16),
}

} // verus!
