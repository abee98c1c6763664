//! Plain-value mirrors of the egui input and output types that the backends produce.
use vstd::prelude::*;

verus! {

/// A key that egui understands.
#[derive(PartialEq, Eq, Structural, Clone, Copy, Debug)]
pub enum Key {
    ArrowDown,
    ArrowLeft,
    ArrowRight,
    ArrowUp,
    Escape,
    Tab,
    Backspace,
    Enter,
    Space,
    Insert,
    Delete,
    Home,
    End,
    PageUp,
    PageDown,
    Minus,
    PlusEquals,
    Num0,
    Num1,
    Num2,
    Num3,
    Num4,
    Num5,
    Num6,
    Num7,
    Num8,
    Num9,
    A,
    B,
    C,
    D,
    E,
    F,
    G,
    H,
    I,
    J,
    K,
    L,
    M,
    N,
    O,
    P,
    Q,
    R,
    S,
    T,
    U,
    V,
    W,
    X,
    Y,
    Z,
    F1,
    F2,
    F3,
    F4,
    F5,
    F6,
    F7,
    F8,
    F9,
    F10,
    F11,
    F12,
    F13,
    F14,
    F15,
    F16,
    F17,
    F18,
    F19,
    F20,
}

/// The modifier keys held during an input event.
#[derive(PartialEq, Eq, Structural, Clone, Copy, Debug)]
pub struct Modifiers {
    pub alt: bool,
    pub ctrl: bool,
    pub shift: bool,
    pub mac_cmd: bool,
    pub command: bool,
}

impl Modifiers {
    /// No modifier held.
    pub open spec fn spec_none() -> Modifiers {
        Modifiers { alt: false, ctrl: false, shift: false, mac_cmd: false, command: false }
    }

    /// No modifier held (egui's `Modifiers::new` and `Modifiers::default`).
    pub fn new() -> (m: Modifiers)
        ensures
            m == Modifiers::spec_none(),
    {
        Modifiers { alt: false, ctrl: false, shift: false, mac_cmd: false, command: false }
    }
}

/// A mouse button as egui names it.
#[derive(PartialEq, Eq, Structural, Clone, Copy, Debug)]
pub enum PointerButton {
    Primary,
    Secondary,
    Middle,
    Extra1,
    Extra2,
}

/// The cursor shape that egui asks for.
#[derive(PartialEq, Eq, Structural, Clone, Copy, Debug)]
pub enum CursorIcon {
    Default,
    /// No cursor is shown (egui's `CursorIcon::None`).
    Hidden,
    ContextMenu,
    Help,
    PointingHand,
    Progress,
    Wait,
    Cell,
    Crosshair,
    Text,
    VerticalText,
    Alias,
    Copy,
    Move,
    NoDrop,
    NotAllowed,
    Grab,
    Grabbing,
    AllScroll,
    ResizeHorizontal,
    ResizeNeSw,
    ResizeNwSe,
    ResizeVertical,
    ResizeEast,
    ResizeSouthEast,
    ResizeSouth,
    ResizeSouthWest,
    ResizeWest,
    ResizeNorthWest,
    ResizeNorth,
    ResizeNorthEast,
    ResizeColumn,
    ResizeRow,
    ZoomIn,
    ZoomOut,
}

/// Which texture a mesh samples: one that egui manages, or one that the user registered.
#[derive(PartialEq, Eq, Structural, Clone, Copy, Debug)]
pub enum TextureId {
    Managed(u64),
    User(u64),
}

/// A keyboard event for egui.
#[derive(PartialEq, Eq, Structural, Clone, Copy, Debug)]
pub struct KeyEvent {
    pub key: Key,
    pub pressed: bool,
    pub repeat: bool,
    pub modifiers: Modifiers,
}

/// An egui input event, with every position left to the caller: a window backend
/// computes positions in points from the window event that produced this one.
#[derive(PartialEq, Eq, Clone, Debug)]
pub enum EguiEvent {
    /// The user asked to copy the selection.
    Copy,
    /// The user asked to cut the selection.
    Cut,
    /// Text was typed.
    Text(String),
    /// The text on the clipboard is to be inserted; when the clipboard cannot be read,
    /// an empty text is inserted.
    ClipboardText,
    /// The text on the clipboard is to be inserted; when the clipboard cannot be read,
    /// the given key event is sent instead.
    ClipboardTextOr(KeyEvent),
    /// A key was pressed or released.
    Key(KeyEvent),
    /// The pointer moved to the position that the window event carries.
    PointerMoved,
    /// A mouse button changed state at the current pointer position.
    PointerButton { button: PointerButton, pressed: bool, modifiers: Modifiers },
    /// The pointer left the window.
    PointerGone,
    /// The wheel scrolled by the amount that the window event carries.
    Scroll,
}

/// What a window backend does with one window event.
#[derive(PartialEq, Eq, Clone, Debug)]
pub enum Reaction {
    /// Nothing reaches egui.
    Ignore,
    /// The event is handed to egui.
    Emit(EguiEvent),
    /// The framebuffer changed size: egui's screen rectangle follows the event's size.
    ResizeScreen,
    /// The scale factor changed: egui's points-per-pixel follows the event's scale.
    Rescale,
    /// The window is to close.
    Close,
    /// The files that the event carries were dropped on the window.
    DropFiles,
}

} // verus!
