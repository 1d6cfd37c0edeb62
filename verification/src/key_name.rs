//! Symbolic names of the physical keys of the supported layout.

use vstd::prelude::*;

verus! {

/// Symbolic name of a physical key.
#[derive(Debug, Clone, Copy, PartialEq, Eq, PartialOrd, Ord, Hash, Structural)]
pub enum KeyName {
    /// CapsLock key
    CapsLock,
    /// WheelUp key
    WheelUp,
    /// WheelDown key
    WheelDown,
    /// Escape key
    Escape,
    /// Section key
    Section,
    /// Tab key
    Tab,
    /// LeftShift key
    LeftShift,
    /// LeftControl key
    LeftControl,
    /// Key1 key
    Key1,
    /// Q key
    Q,
    /// A key
    A,
    /// LessThan key
    LessThan,
    /// Super key
    Super,
    /// F1 key
    F1,
    /// Key2 key
    Key2,
    /// W key
    W,
    /// S key
    S,
    /// Y key
    Y,
    /// Alt key
    Alt,
    /// F2 key
    F2,
    /// Key3 key
    Key3,
    /// E key
    E,
    /// D key
    D,
    /// X key
    X,
    /// F3 key
    F3,
    /// Key4 key
    Key4,
    /// R key
    R,
    /// F key
    F,
    /// C key
    C,
    /// F4 key
    F4,
    /// Key5 key
    Key5,
    /// T key
    T,
    /// G key
    G,
    /// V key
    V,
    /// Key6 key
    Key6,
    /// Z key
    Z,
    /// H key
    H,
    /// B key
    B,
    /// Space key
    Space,
    /// F5 key
    F5,
    /// Key7 key
    Key7,
    /// U key
    U,
    /// J key
    J,
    /// N key
    N,
    /// F6 key
    F6,
    /// Key8 key
    Key8,
    /// I key
    I,
    /// K key
    K,
    /// M key
    M,
    /// F7 key
    F7,
    /// Key9 key
    Key9,
    /// O key
    O,
    /// L key
    L,
    /// Comma key
    Comma,
    /// F8 key
    F8,
    /// Key0 key
    Key0,
    /// P key
    P,
    /// EAcute key
    EAcute,
    /// Dot key
    Dot,
    /// AltGr key
    AltGr,
    /// Apostrophe key
    Apostrophe,
    /// EGrave key
    EGrave,
    /// AGrave key
    AGrave,
    /// Dash key
    Dash,
    /// Function key
    Function,
    /// F9 key
    F9,
    /// Caret key
    Caret,
    /// Diaeresis key
    Diaeresis,
    /// RightShift key
    RightShift,
    /// Menu key
    Menu,
    /// F10 key
    F10,
    /// F11 key
    F11,
    /// F12 key
    F12,
    /// BackSpace key
    BackSpace,
    /// Enter key
    Enter,
    /// RightControl key
    RightControl,
    /// Dolar key
    Dolar,
    /// PrintScreen key
    PrintScreen,
    /// Insert key
    Insert,
    /// Delete key
    Delete,
    /// ArrowLeft key
    ArrowLeft,
    /// ScrollLock key
    ScrollLock,
    /// Home key
    Home,
    /// End key
    End,
    /// ArrowUp key
    ArrowUp,
    /// ArrowDown key
    ArrowDown,
    /// Break key
    Break,
    /// PageUp key
    PageUp,
    /// PageDown key
    PageDown,
    /// ArrowRight key
    ArrowRight,
    /// NumLock key
    NumLock,
    /// Num7 key
    Num7,
    /// Num4 key
    Num4,
    /// Num1 key
    Num1,
    /// Num0 key
    Num0,
    /// NumDivide key
    NumDivide,
    /// Num8 key
    Num8,
    /// Num5 key
    Num5,
    /// Num2 key
    Num2,
    /// NumMultiply key
    NumMultiply,
    /// Num9 key
    Num9,
    /// Num6 key
    Num6,
    /// Num3 key
    Num3,
    /// NumDot key
    NumDot,
    /// NumMinus key
    NumMinus,
    /// NumPlus key
    NumPlus,
    /// NumEnter key
    NumEnter,
}

} // verus!
