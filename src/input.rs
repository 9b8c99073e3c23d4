//! Keys and the input events the session consumes.

use vstd::prelude::*;

verus! {

/// Every key and mouse button that input events can name.
#[derive(Clone, Copy, Debug, PartialEq, Eq, Hash, Structural)]
pub enum KeyCode {
    A,
    B,
    C,
    D,
    E,
    F,
    G,
    H,
    I,
    J,
    K,
    L,
    M,
    N,
    O,
    P,
    Q,
    R,
    S,
    T,
    U,
    V,
    W,
    X,
    Y,
    Z,
    Row1,
    Row2,
    Row3,
    Row4,
    Row5,
    Row6,
    Row7,
    Row8,
    Row9,
    Row0,
    Grave,
    Minus,
    Equals,
    LeftBracket,
    RightBracket,
    Backslash,
    Semicolon,
    Apostrophe,
    Comma,
    Period,
    Slash,
    F1,
    F2,
    F3,
    F4,
    F5,
    F6,
    F7,
    F8,
    F9,
    F10,
    F11,
    F12,
    Enter,
    Escape,
    Backspace,
    Tab,
    Space,
    Pause,
    Insert,
    Home,
    PageUp,
    Delete,
    End,
    PageDown,
    Right,
    Left,
    Down,
    Up,
    NumDivide,
    NumMultiply,
    NumMinus,
    NumPlus,
    NumEnter,
    NumPeriod,
    Num1,
    Num2,
    Num3,
    Num4,
    Num5,
    Num6,
    Num7,
    Num8,
    Num9,
    Num0,
    MouseLeft,
    MouseRight,
    MouseMiddle,
    MouseFourth,
    MouseFifth,
}

/// A single input event.
#[derive(Clone, Copy, Debug, PartialEq, Eq, Hash, Structural)]
pub enum Event {
    /// The window was closed.
    Close,
    /// The window was resized to the given size in cells.
    Resize { width: i32, height: i32 },
    /// The pointer moved to the given cell.
    MouseMove { x: i32, y: i32 },
    /// The wheel turned by `delta` steps, positive when scrolled down.
    MouseScroll { delta: i32 },
    /// A key or mouse button was pressed, with the state of Control and Shift.
    KeyPressed { key: KeyCode, ctrl: bool, shift: bool },
    /// A key or mouse button was released, with the state of Control and Shift.
    KeyReleased { key: KeyCode, ctrl: bool, shift: bool },
    /// Shift was pressed.
    ShiftPressed,
    /// Shift was released.
    ShiftReleased,
    /// Control was pressed.
    ControlPressed,
    /// Control was released.
    ControlReleased,
}

} // verus!
