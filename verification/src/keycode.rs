//! The virtual key-code space of the input system.
//!
//! `KeyCode` mirrors a fixed code space of one byte: mouse buttons aliased
//! into the key space, alphanumeric and function keys, modifiers, media,
//! browser and gamepad keys, and OEM keys.  The catch-all `Other` variant
//! makes the mapping between codes and `KeyCode` values total and lossless
//! in both directions.

use vstd::prelude::*;

verus! {

/// A key or mouse-button code, one value for each byte of the code space.
#[derive(Debug, Clone, Copy, PartialEq, Eq, Hash, Structural)]
pub enum KeyCode {
    LButton,
    RButton,
    Cancel,
    MButton,
    XButton1,
    XButton2,
    Back,
    Tab,
    Clear,
    Return,
    Shift,
    Control,
    Menu,
    Pause,
    Capital,
    Kana,
    ImeOn,
    Junja,
    Final,
    Hanja,
    ImeOff,
    Escape,
    Convert,
    NonConvert,
    Accept,
    ModeChange,
    Space,
    Prior,
    Next,
    End,
    Home,
    Left,
    Up,
    Right,
    Down,
    Select,
    Print,
    Execute,
    Snapshot,
    Insert,
    Delete,
    Help,
    D0,
    D1,
    D2,
    D3,
    D4,
    D5,
    D6,
    D7,
    D8,
    D9,
    A,
    B,
    C,
    D,
    E,
    F,
    G,
    H,
    I,
    J,
    K,
    L,
    M,
    N,
    O,
    P,
    Q,
    R,
    S,
    T,
    U,
    V,
    W,
    X,
    Y,
    Z,
    LWin,
    RWin,
    Apps,
    Sleep,
    NumPad0,
    NumPad1,
    NumPad2,
    NumPad3,
    NumPad4,
    NumPad5,
    NumPad6,
    NumPad7,
    NumPad8,
    NumPad9,
    Multiply,
    Add,
    Separator,
    Subtract,
    Decimal,
    Divide,
    F1,
    F2,
    F3,
    F4,
    F5,
    F6,
    F7,
    F8,
    F9,
    F10,
    F11,
    F12,
    F13,
    F14,
    F15,
    F16,
    F17,
    F18,
    F19,
    F20,
    F21,
    F22,
    F23,
    F24,
    NumLock,
    Scroll,
    LShift,
    RShift,
    LControl,
    RControl,
    LMenu,
    RMenu,
    BrowserBack,
    BrowserForward,
    BrowserRefresh,
    BrowserStop,
    BrowserSearch,
    BrowserFavorites,
    BrowserHome,
    VolumeMute,
    VolumeDown,
    VolumeUp,
    MediaNextTrack,
    MediaPrevTrack,
    MediaStop,
    MediaPlayPause,
    LaunchMail,
    LaunchMediaSelect,
    LaunchApp1,
    LaunchApp2,
    Oem1,
    OemPlus,
    OemComma,
    OemMinus,
    OemPeriod,
    Oem2,
    Oem3,
    GamepadA,
    GamepadB,
    GamepadX,
    GamepadY,
    GamepadRightShoulder,
    GamepadLeftShoulder,
    GamepadLeftTrigger,
    GamepadRightTrigger,
    GamepadDpadUp,
    GamepadDpadDown,
    GamepadDpadLeft,
    GamepadDpadRight,
    GamepadMenu,
    GamepadView,
    GamepadLeftThumbstickButton,
    GamepadRightThumbstickButton,
    GamepadLeftThumbstickUp,
    GamepadLeftThumbstickDown,
    GamepadLeftThumbstickRight,
    GamepadLeftThumbstickLeft,
    GamepadRightThumbstickUp,
    GamepadRightThumbstickDown,
    GamepadRightThumbstickRight,
    GamepadRightThumbstickLeft,
    Oem4,
    Oem5,
    Oem6,
    Oem7,
    Oem8,
    Oem102,
    ProcessKey,
    Packet,
    Attn,
    CrSel,
    ExSel,
    Eof,
    Play,
    Zoom,
    Pa1,
    OemClear,
    /// A code with no named key of its own.
    Other(u8),
}

impl KeyCode {
    /// The raw byte code of this key.
    pub open spec fn raw(self) -> u8 {
        match self {
            KeyCode::LButton => 0x01,
            KeyCode::RButton => 0x02,
            KeyCode::Cancel => 0x03,
            KeyCode::MButton => 0x04,
            KeyCode::XButton1 => 0x05,
            KeyCode::XButton2 => 0x06,
            KeyCode::Back => 0x08,
            KeyCode::Tab => 0x09,
            KeyCode::Clear => 0x0C,
            KeyCode::Return => 0x0D,
            KeyCode::Shift => 0x10,
            KeyCode::Control => 0x11,
            KeyCode::Menu => 0x12,
            KeyCode::Pause => 0x13,
            KeyCode::Capital => 0x14,
            KeyCode::Kana => 0x15,
            KeyCode::ImeOn => 0x16,
            KeyCode::Junja => 0x17,
            KeyCode::Final => 0x18,
            KeyCode::Hanja => 0x19,
            KeyCode::ImeOff => 0x1A,
            KeyCode::Escape => 0x1B,
            KeyCode::Convert => 0x1C,
            KeyCode::NonConvert => 0x1D,
            KeyCode::Accept => 0x1E,
            KeyCode::ModeChange => 0x1F,
            KeyCode::Space => 0x20,
            KeyCode::Prior => 0x21,
            KeyCode::Next => 0x22,
            KeyCode::End => 0x23,
            KeyCode::Home => 0x24,
            KeyCode::Left => 0x25,
            KeyCode::Up => 0x26,
            KeyCode::Right => 0x27,
            KeyCode::Down => 0x28,
            KeyCode::Select => 0x29,
            KeyCode::Print => 0x2A,
            KeyCode::Execute => 0x2B,
            KeyCode::Snapshot => 0x2C,
            KeyCode::Insert => 0x2D,
            KeyCode::Delete => 0x2E,
            KeyCode::Help => 0x2F,
            KeyCode::D0 => 0x30,
            KeyCode::D1 => 0x31,
            KeyCode::D2 => 0x32,
            KeyCode::D3 => 0x33,
            KeyCode::D4 => 0x34,
            KeyCode::D5 => 0x35,
            KeyCode::D6 => 0x36,
            KeyCode::D7 => 0x37,
            KeyCode::D8 => 0x38,
            KeyCode::D9 => 0x39,
            KeyCode::A => 0x41,
            KeyCode::B => 0x42,
            KeyCode::C => 0x43,
            KeyCode::D => 0x44,
            KeyCode::E => 0x45,
            KeyCode::F => 0x46,
            KeyCode::G => 0x47,
            KeyCode::H => 0x48,
            KeyCode::I => 0x49,
            KeyCode::J => 0x4A,
            KeyCode::K => 0x4B,
            KeyCode::L => 0x4C,
            KeyCode::M => 0x4D,
            KeyCode::N => 0x4E,
            KeyCode::O => 0x4F,
            KeyCode::P => 0x50,
            KeyCode::Q => 0x51,
            KeyCode::R => 0x52,
            KeyCode::S => 0x53,
            KeyCode::T => 0x54,
            KeyCode::U => 0x55,
            KeyCode::V => 0x56,
            KeyCode::W => 0x57,
            KeyCode::X => 0x58,
            KeyCode::Y => 0x59,
            KeyCode::Z => 0x5A,
            KeyCode::LWin => 0x5B,
            KeyCode::RWin => 0x5C,
            KeyCode::Apps => 0x5D,
            KeyCode::Sleep => 0x5F,
            KeyCode::NumPad0 => 0x60,
            KeyCode::NumPad1 => 0x61,
            KeyCode::NumPad2 => 0x62,
            KeyCode::NumPad3 => 0x63,
            KeyCode::NumPad4 => 0x64,
            KeyCode::NumPad5 => 0x65,
            KeyCode::NumPad6 => 0x66,
            KeyCode::NumPad7 => 0x67,
            KeyCode::NumPad8 => 0x68,
            KeyCode::NumPad9 => 0x69,
            KeyCode::Multiply => 0x6A,
            KeyCode::Add => 0x6B,
            KeyCode::Separator => 0x6C,
            KeyCode::Subtract => 0x6D,
            KeyCode::Decimal => 0x6E,
            KeyCode::Divide => 0x6F,
            KeyCode::F1 => 0x70,
            KeyCode::F2 => 0x71,
            KeyCode::F3 => 0x72,
            KeyCode::F4 => 0x73,
            KeyCode::F5 => 0x74,
            KeyCode::F6 => 0x75,
            KeyCode::F7 => 0x76,
            KeyCode::F8 => 0x77,
            KeyCode::F9 => 0x78,
            KeyCode::F10 => 0x79,
            KeyCode::F11 => 0x7A,
            KeyCode::F12 => 0x7B,
            KeyCode::F13 => 0x7C,
            KeyCode::F14 => 0x7D,
            KeyCode::F15 => 0x7E,
            KeyCode::F16 => 0x7F,
            KeyCode::F17 => 0x80,
            KeyCode::F18 => 0x81,
            KeyCode::F19 => 0x82,
            KeyCode::F20 => 0x83,
            KeyCode::F21 => 0x84,
            KeyCode::F22 => 0x85,
            KeyCode::F23 => 0x86,
            KeyCode::F24 => 0x87,
            KeyCode::NumLock => 0x90,
            KeyCode::Scroll => 0x91,
            KeyCode::LShift => 0xA0,
            KeyCode::RShift => 0xA1,
            KeyCode::LControl => 0xA2,
            KeyCode::RControl => 0xA3,
            KeyCode::LMenu => 0xA4,
            KeyCode::RMenu => 0xA5,
            KeyCode::BrowserBack => 0xA6,
            KeyCode::BrowserForward => 0xA7,
            KeyCode::BrowserRefresh => 0xA8,
            KeyCode::BrowserStop => 0xA9,
            KeyCode::BrowserSearch => 0xAA,
            KeyCode::BrowserFavorites => 0xAB,
            KeyCode::BrowserHome => 0xAC,
            KeyCode::VolumeMute => 0xAD,
            KeyCode::VolumeDown => 0xAE,
            KeyCode::VolumeUp => 0xAF,
            KeyCode::MediaNextTrack => 0xB0,
            KeyCode::MediaPrevTrack => 0xB1,
            KeyCode::MediaStop => 0xB2,
            KeyCode::MediaPlayPause => 0xB3,
            KeyCode::LaunchMail => 0xB4,
            KeyCode::LaunchMediaSelect => 0xB5,
            KeyCode::LaunchApp1 => 0xB6,
            KeyCode::LaunchApp2 => 0xB7,
            KeyCode::Oem1 => 0xBA,
            KeyCode::OemPlus => 0xBB,
            KeyCode::OemComma => 0xBC,
            KeyCode::OemMinus => 0xBD,
            KeyCode::OemPeriod => 0xBE,
            KeyCode::Oem2 => 0xBF,
            KeyCode::Oem3 => 0xC0,
            KeyCode::GamepadA => 0xC3,
            KeyCode::GamepadB => 0xC4,
            KeyCode::GamepadX => 0xC5,
            KeyCode::GamepadY => 0xC6,
            KeyCode::GamepadRightShoulder => 0xC7,
            KeyCode::GamepadLeftShoulder => 0xC8,
            KeyCode::GamepadLeftTrigger => 0xC9,
            KeyCode::GamepadRightTrigger => 0xCA,
            KeyCode::GamepadDpadUp => 0xCB,
            KeyCode::GamepadDpadDown => 0xCC,
            KeyCode::GamepadDpadLeft => 0xCD,
            KeyCode::GamepadDpadRight => 0xCE,
            KeyCode::GamepadMenu => 0xCF,
            KeyCode::GamepadView => 0xD0,
            KeyCode::GamepadLeftThumbstickButton => 0xD1,
            KeyCode::GamepadRightThumbstickButton => 0xD2,
            KeyCode::GamepadLeftThumbstickUp => 0xD3,
            KeyCode::GamepadLeftThumbstickDown => 0xD4,
            KeyCode::GamepadLeftThumbstickRight => 0xD5,
            KeyCode::GamepadLeftThumbstickLeft => 0xD6,
            KeyCode::GamepadRightThumbstickUp => 0xD7,
            KeyCode::GamepadRightThumbstickDown => 0xD8,
            KeyCode::GamepadRightThumbstickRight => 0xD9,
            KeyCode::GamepadRightThumbstickLeft => 0xDA,
            KeyCode::Oem4 => 0xDB,
            KeyCode::Oem5 => 0xDC,
            KeyCode::Oem6 => 0xDD,
            KeyCode::Oem7 => 0xDE,
            KeyCode::Oem8 => 0xDF,
            KeyCode::Oem102 => 0xE2,
            KeyCode::ProcessKey => 0xE5,
            KeyCode::Packet => 0xE7,
            KeyCode::Attn => 0xF6,
            KeyCode::CrSel => 0xF7,
            KeyCode::ExSel => 0xF8,
            KeyCode::Eof => 0xF9,
            KeyCode::Play => 0xFA,
            KeyCode::Zoom => 0xFB,
            KeyCode::Pa1 => 0xFD,
            KeyCode::OemClear => 0xFE,
            KeyCode::Other(code) => code,
        }
    }

    /// The key named by a raw byte code; `Other` where no key is named.
    pub open spec fn of_raw(b: u8) -> KeyCode {
        if b == 0x01 {
            KeyCode::LButton
        } else if b == 0x02 {
            KeyCode::RButton
        } else if b == 0x03 {
            KeyCode::Cancel
        } else if b == 0x04 {
            KeyCode::MButton
        } else if b == 0x05 {
            KeyCode::XButton1
        } else if b == 0x06 {
            KeyCode::XButton2
        } else if b == 0x08 {
            KeyCode::Back
        } else if b == 0x09 {
            KeyCode::Tab
        } else if b == 0x0C {
            KeyCode::Clear
        } else if b == 0x0D {
            KeyCode::Return
        } else if b == 0x10 {
            KeyCode::Shift
        } else if b == 0x11 {
            KeyCode::Control
        } else if b == 0x12 {
            KeyCode::Menu
        } else if b == 0x13 {
            KeyCode::Pause
        } else if b == 0x14 {
            KeyCode::Capital
        } else if b == 0x15 {
            KeyCode::Kana
        } else if b == 0x16 {
            KeyCode::ImeOn
        } else if b == 0x17 {
            KeyCode::Junja
        } else if b == 0x18 {
            KeyCode::Final
        } else if b == 0x19 {
            KeyCode::Hanja
        } else if b == 0x1A {
            KeyCode::ImeOff
        } else if b == 0x1B {
            KeyCode::Escape
        } else if b == 0x1C {
            KeyCode::Convert
        } else if b == 0x1D {
            KeyCode::NonConvert
        } else if b == 0x1E {
            KeyCode::Accept
        } else if b == 0x1F {
            KeyCode::ModeChange
        } else if b == 0x20 {
            KeyCode::Space
        } else if b == 0x21 {
            KeyCode::Prior
        } else if b == 0x22 {
            KeyCode::Next
        } else if b == 0x23 {
            KeyCode::End
        } else if b == 0x24 {
            KeyCode::Home
        } else if b == 0x25 {
            KeyCode::Left
        } else if b == 0x26 {
            KeyCode::Up
        } else if b == 0x27 {
            KeyCode::Right
        } else if b == 0x28 {
            KeyCode::Down
        } else if b == 0x29 {
            KeyCode::Select
        } else if b == 0x2A {
            KeyCode::Print
        } else if b == 0x2B {
            KeyCode::Execute
        } else if b == 0x2C {
            KeyCode::Snapshot
        } else if b == 0x2D {
            KeyCode::Insert
        } else if b == 0x2E {
            KeyCode::Delete
        } else if b == 0x2F {
            KeyCode::Help
        } else if b == 0x30 {
            KeyCode::D0
        } else if b == 0x31 {
            KeyCode::D1
        } else if b == 0x32 {
            KeyCode::D2
        } else if b == 0x33 {
            KeyCode::D3
        } else if b == 0x34 {
            KeyCode::D4
        } else if b == 0x35 {
            KeyCode::D5
        } else if b == 0x36 {
            KeyCode::D6
        } else if b == 0x37 {
            KeyCode::D7
        } else if b == 0x38 {
            KeyCode::D8
        } else if b == 0x39 {
            KeyCode::D9
        } else if b == 0x41 {
            KeyCode::A
        } else if b == 0x42 {
            KeyCode::B
        } else if b == 0x43 {
            KeyCode::C
        } else if b == 0x44 {
            KeyCode::D
        } else if b == 0x45 {
            KeyCode::E
        } else if b == 0x46 {
            KeyCode::F
        } else if b == 0x47 {
            KeyCode::G
        } else if b == 0x48 {
            KeyCode::H
        } else if b == 0x49 {
            KeyCode::I
        } else if b == 0x4A {
            KeyCode::J
        } else if b == 0x4B {
            KeyCode::K
        } else if b == 0x4C {
            KeyCode::L
        } else if b == 0x4D {
            KeyCode::M
        } else if b == 0x4E {
            KeyCode::N
        } else if b == 0x4F {
            KeyCode::O
        } else if b == 0x50 {
            KeyCode::P
        } else if b == 0x51 {
            KeyCode::Q
        } else if b == 0x52 {
            KeyCode::R
        } else if b == 0x53 {
            KeyCode::S
        } else if b == 0x54 {
            KeyCode::T
        } else if b == 0x55 {
            KeyCode::U
        } else if b == 0x56 {
            KeyCode::V
        } else if b == 0x57 {
            KeyCode::W
        } else if b == 0x58 {
            KeyCode::X
        } else if b == 0x59 {
            KeyCode::Y
        } else if b == 0x5A {
            KeyCode::Z
        } else if b == 0x5B {
            KeyCode::LWin
        } else if b == 0x5C {
            KeyCode::RWin
        } else if b == 0x5D {
            KeyCode::Apps
        } else if b == 0x5F {
            KeyCode::Sleep
        } else if b == 0x60 {
            KeyCode::NumPad0
        } else if b == 0x61 {
            KeyCode::NumPad1
        } else if b == 0x62 {
            KeyCode::NumPad2
        } else if b == 0x63 {
            KeyCode::NumPad3
        } else if b == 0x64 {
            KeyCode::NumPad4
        } else if b == 0x65 {
            KeyCode::NumPad5
        } else if b == 0x66 {
            KeyCode::NumPad6
        } else if b == 0x67 {
            KeyCode::NumPad7
        } else if b == 0x68 {
            KeyCode::NumPad8
        } else if b == 0x69 {
            KeyCode::NumPad9
        } else if b == 0x6A {
            KeyCode::Multiply
        } else if b == 0x6B {
            KeyCode::Add
        } else if b == 0x6C {
            KeyCode::Separator
        } else if b == 0x6D {
            KeyCode::Subtract
        } else if b == 0x6E {
            KeyCode::Decimal
        } else if b == 0x6F {
            KeyCode::Divide
        } else if b == 0x70 {
            KeyCode::F1
        } else if b == 0x71 {
            KeyCode::F2
        } else if b == 0x72 {
            KeyCode::F3
        } else if b == 0x73 {
            KeyCode::F4
        } else if b == 0x74 {
            KeyCode::F5
        } else if b == 0x75 {
            KeyCode::F6
        } else if b == 0x76 {
            KeyCode::F7
        } else if b == 0x77 {
            KeyCode::F8
        } else if b == 0x78 {
            KeyCode::F9
        } else if b == 0x79 {
            KeyCode::F10
        } else if b == 0x7A {
            KeyCode::F11
        } else if b == 0x7B {
            KeyCode::F12
        } else if b == 0x7C {
            KeyCode::F13
        } else if b == 0x7D {
            KeyCode::F14
        } else if b == 0x7E {
            KeyCode::F15
        } else if b == 0x7F {
            KeyCode::F16
        } else if b == 0x80 {
            KeyCode::F17
        } else if b == 0x81 {
            KeyCode::F18
        } else if b == 0x82 {
            KeyCode::F19
        } else if b == 0x83 {
            KeyCode::F20
        } else if b == 0x84 {
            KeyCode::F21
        } else if b == 0x85 {
            KeyCode::F22
        } else if b == 0x86 {
            KeyCode::F23
        } else if b == 0x87 {
            KeyCode::F24
        } else if b == 0x90 {
            KeyCode::NumLock
        } else if b == 0x91 {
            KeyCode::Scroll
        } else if b == 0xA0 {
            KeyCode::LShift
        } else if b == 0xA1 {
            KeyCode::RShift
        } else if b == 0xA2 {
            KeyCode::LControl
        } else if b == 0xA3 {
            KeyCode::RControl
        } else if b == 0xA4 {
            KeyCode::LMenu
        } else if b == 0xA5 {
            KeyCode::RMenu
        } else if b == 0xA6 {
            KeyCode::BrowserBack
        } else if b == 0xA7 {
            KeyCode::BrowserForward
        } else if b == 0xA8 {
            KeyCode::BrowserRefresh
        } else if b == 0xA9 {
            KeyCode::BrowserStop
        } else if b == 0xAA {
            KeyCode::BrowserSearch
        } else if b == 0xAB {
            KeyCode::BrowserFavorites
        } else if b == 0xAC {
            KeyCode::BrowserHome
        } else if b == 0xAD {
            KeyCode::VolumeMute
        } else if b == 0xAE {
            KeyCode::VolumeDown
        } else if b == 0xAF {
            KeyCode::VolumeUp
        } else if b == 0xB0 {
            KeyCode::MediaNextTrack
        } else if b == 0xB1 {
            KeyCode::MediaPrevTrack
        } else if b == 0xB2 {
            KeyCode::MediaStop
        } else if b == 0xB3 {
            KeyCode::MediaPlayPause
        } else if b == 0xB4 {
            KeyCode::LaunchMail
        } else if b == 0xB5 {
            KeyCode::LaunchMediaSelect
        } else if b == 0xB6 {
            KeyCode::LaunchApp1
        } else if b == 0xB7 {
            KeyCode::LaunchApp2
        } else if b == 0xBA {
            KeyCode::Oem1
        } else if b == 0xBB {
            KeyCode::OemPlus
        } else if b == 0xBC {
            KeyCode::OemComma
        } else if b == 0xBD {
            KeyCode::OemMinus
        } else if b == 0xBE {
            KeyCode::OemPeriod
        } else if b == 0xBF {
            KeyCode::Oem2
        } else if b == 0xC0 {
            KeyCode::Oem3
        } else if b == 0xC3 {
            KeyCode::GamepadA
        } else if b == 0xC4 {
            KeyCode::GamepadB
        } else if b == 0xC5 {
            KeyCode::GamepadX
        } else if b == 0xC6 {
            KeyCode::GamepadY
        } else if b == 0xC7 {
            KeyCode::GamepadRightShoulder
        } else if b == 0xC8 {
            KeyCode::GamepadLeftShoulder
        } else if b == 0xC9 {
            KeyCode::GamepadLeftTrigger
        } else if b == 0xCA {
            KeyCode::GamepadRightTrigger
        } else if b == 0xCB {
            KeyCode::GamepadDpadUp
        } else if b == 0xCC {
            KeyCode::GamepadDpadDown
        } else if b == 0xCD {
            KeyCode::GamepadDpadLeft
        } else if b == 0xCE {
            KeyCode::GamepadDpadRight
        } else if b == 0xCF {
            KeyCode::GamepadMenu
        } else if b == 0xD0 {
            KeyCode::GamepadView
        } else if b == 0xD1 {
            KeyCode::GamepadLeftThumbstickButton
        } else if b == 0xD2 {
            KeyCode::GamepadRightThumbstickButton
        } else if b == 0xD3 {
            KeyCode::GamepadLeftThumbstickUp
        } else if b == 0xD4 {
            KeyCode::GamepadLeftThumbstickDown
        } else if b == 0xD5 {
            KeyCode::GamepadLeftThumbstickRight
        } else if b == 0xD6 {
            KeyCode::GamepadLeftThumbstickLeft
        } else if b == 0xD7 {
            KeyCode::GamepadRightThumbstickUp
        } else if b == 0xD8 {
            KeyCode::GamepadRightThumbstickDown
        } else if b == 0xD9 {
            KeyCode::GamepadRightThumbstickRight
        } else if b == 0xDA {
            KeyCode::GamepadRightThumbstickLeft
        } else if b == 0xDB {
            KeyCode::Oem4
        } else if b == 0xDC {
            KeyCode::Oem5
        } else if b == 0xDD {
            KeyCode::Oem6
        } else if b == 0xDE {
            KeyCode::Oem7
        } else if b == 0xDF {
            KeyCode::Oem8
        } else if b == 0xE2 {
            KeyCode::Oem102
        } else if b == 0xE5 {
            KeyCode::ProcessKey
        } else if b == 0xE7 {
            KeyCode::Packet
        } else if b == 0xF6 {
            KeyCode::Attn
        } else if b == 0xF7 {
            KeyCode::CrSel
        } else if b == 0xF8 {
            KeyCode::ExSel
        } else if b == 0xF9 {
            KeyCode::Eof
        } else if b == 0xFA {
            KeyCode::Play
        } else if b == 0xFB {
            KeyCode::Zoom
        } else if b == 0xFD {
            KeyCode::Pa1
        } else if b == 0xFE {
            KeyCode::OemClear
        } else {
            KeyCode::Other(b)
        }
    }

    /// Decodes a raw byte code into its `KeyCode`.
    pub fn from_raw(b: u8) -> (k: KeyCode)
        ensures
            k == KeyCode::of_raw(b),
    {
        match b {
            0x01 => KeyCode::LButton,
            0x02 => KeyCode::RButton,
            0x03 => KeyCode::Cancel,
            0x04 => KeyCode::MButton,
            0x05 => KeyCode::XButton1,
            0x06 => KeyCode::XButton2,
            0x08 => KeyCode::Back,
            0x09 => KeyCode::Tab,
            0x0C => KeyCode::Clear,
            0x0D => KeyCode::Return,
            0x10 => KeyCode::Shift,
            0x11 => KeyCode::Control,
            0x12 => KeyCode::Menu,
            0x13 => KeyCode::Pause,
            0x14 => KeyCode::Capital,
            0x15 => KeyCode::Kana,
            0x16 => KeyCode::ImeOn,
            0x17 => KeyCode::Junja,
            0x18 => KeyCode::Final,
            0x19 => KeyCode::Hanja,
            0x1A => KeyCode::ImeOff,
            0x1B => KeyCode::Escape,
            0x1C => KeyCode::Convert,
            0x1D => KeyCode::NonConvert,
            0x1E => KeyCode::Accept,
            0x1F => KeyCode::ModeChange,
            0x20 => KeyCode::Space,
            0x21 => KeyCode::Prior,
            0x22 => KeyCode::Next,
            0x23 => KeyCode::End,
            0x24 => KeyCode::Home,
            0x25 => KeyCode::Left,
            0x26 => KeyCode::Up,
            0x27 => KeyCode::Right,
            0x28 => KeyCode::Down,
            0x29 => KeyCode::Select,
            0x2A => KeyCode::Print,
            0x2B => KeyCode::Execute,
            0x2C => KeyCode::Snapshot,
            0x2D => KeyCode::Insert,
            0x2E => KeyCode::Delete,
            0x2F => KeyCode::Help,
            0x30 => KeyCode::D0,
            0x31 => KeyCode::D1,
            0x32 => KeyCode::D2,
            0x33 => KeyCode::D3,
            0x34 => KeyCode::D4,
            0x35 => KeyCode::D5,
            0x36 => KeyCode::D6,
            0x37 => KeyCode::D7,
            0x38 => KeyCode::D8,
            0x39 => KeyCode::D9,
            0x41 => KeyCode::A,
            0x42 => KeyCode::B,
            0x43 => KeyCode::C,
            0x44 => KeyCode::D,
            0x45 => KeyCode::E,
            0x46 => KeyCode::F,
            0x47 => KeyCode::G,
            0x48 => KeyCode::H,
            0x49 => KeyCode::I,
            0x4A => KeyCode::J,
            0x4B => KeyCode::K,
            0x4C => KeyCode::L,
            0x4D => KeyCode::M,
            0x4E => KeyCode::N,
            0x4F => KeyCode::O,
            0x50 => KeyCode::P,
            0x51 => KeyCode::Q,
            0x52 => KeyCode::R,
            0x53 => KeyCode::S,
            0x54 => KeyCode::T,
            0x55 => KeyCode::U,
            0x56 => KeyCode::V,
            0x57 => KeyCode::W,
            0x58 => KeyCode::X,
            0x59 => KeyCode::Y,
            0x5A => KeyCode::Z,
            0x5B => KeyCode::LWin,
            0x5C => KeyCode::RWin,
            0x5D => KeyCode::Apps,
            0x5F => KeyCode::Sleep,
            0x60 => KeyCode::NumPad0,
            0x61 => KeyCode::NumPad1,
            0x62 => KeyCode::NumPad2,
            0x63 => KeyCode::NumPad3,
            0x64 => KeyCode::NumPad4,
            0x65 => KeyCode::NumPad5,
            0x66 => KeyCode::NumPad6,
            0x67 => KeyCode::NumPad7,
            0x68 => KeyCode::NumPad8,
            0x69 => KeyCode::NumPad9,
            0x6A => KeyCode::Multiply,
            0x6B => KeyCode::Add,
            0x6C => KeyCode::Separator,
            0x6D => KeyCode::Subtract,
            0x6E => KeyCode::Decimal,
            0x6F => KeyCode::Divide,
            0x70 => KeyCode::F1,
            0x71 => KeyCode::F2,
            0x72 => KeyCode::F3,
            0x73 => KeyCode::F4,
            0x74 => KeyCode::F5,
            0x75 => KeyCode::F6,
            0x76 => KeyCode::F7,
            0x77 => KeyCode::F8,
            0x78 => KeyCode::F9,
            0x79 => KeyCode::F10,
            0x7A => KeyCode::F11,
            0x7B => KeyCode::F12,
            0x7C => KeyCode::F13,
            0x7D => KeyCode::F14,
            0x7E => KeyCode::F15,
            0x7F => KeyCode::F16,
            0x80 => KeyCode::F17,
            0x81 => KeyCode::F18,
            0x82 => KeyCode::F19,
            0x83 => KeyCode::F20,
            0x84 => KeyCode::F21,
            0x85 => KeyCode::F22,
            0x86 => KeyCode::F23,
            0x87 => KeyCode::F24,
            0x90 => KeyCode::NumLock,
            0x91 => KeyCode::Scroll,
            0xA0 => KeyCode::LShift,
            0xA1 => KeyCode::RShift,
            0xA2 => KeyCode::LControl,
            0xA3 => KeyCode::RControl,
            0xA4 => KeyCode::LMenu,
            0xA5 => KeyCode::RMenu,
            0xA6 => KeyCode::BrowserBack,
            0xA7 => KeyCode::BrowserForward,
            0xA8 => KeyCode::BrowserRefresh,
            0xA9 => KeyCode::BrowserStop,
            0xAA => KeyCode::BrowserSearch,
            0xAB => KeyCode::BrowserFavorites,
            0xAC => KeyCode::BrowserHome,
            0xAD => KeyCode::VolumeMute,
            0xAE => KeyCode::VolumeDown,
            0xAF => KeyCode::VolumeUp,
            0xB0 => KeyCode::MediaNextTrack,
            0xB1 => KeyCode::MediaPrevTrack,
            0xB2 => KeyCode::MediaStop,
            0xB3 => KeyCode::MediaPlayPause,
            0xB4 => KeyCode::LaunchMail,
            0xB5 => KeyCode::LaunchMediaSelect,
            0xB6 => KeyCode::LaunchApp1,
            0xB7 => KeyCode::LaunchApp2,
            0xBA => KeyCode::Oem1,
            0xBB => KeyCode::OemPlus,
            0xBC => KeyCode::OemComma,
            0xBD => KeyCode::OemMinus,
            0xBE => KeyCode::OemPeriod,
            0xBF => KeyCode::Oem2,
            0xC0 => KeyCode::Oem3,
            0xC3 => KeyCode::GamepadA,
            0xC4 => KeyCode::GamepadB,
            0xC5 => KeyCode::GamepadX,
            0xC6 => KeyCode::GamepadY,
            0xC7 => KeyCode::GamepadRightShoulder,
            0xC8 => KeyCode::GamepadLeftShoulder,
            0xC9 => KeyCode::GamepadLeftTrigger,
            0xCA => KeyCode::GamepadRightTrigger,
            0xCB => KeyCode::GamepadDpadUp,
            0xCC => KeyCode::GamepadDpadDown,
            0xCD => KeyCode::GamepadDpadLeft,
            0xCE => KeyCode::GamepadDpadRight,
            0xCF => KeyCode::GamepadMenu,
            0xD0 => KeyCode::GamepadView,
            0xD1 => KeyCode::GamepadLeftThumbstickButton,
            0xD2 => KeyCode::GamepadRightThumbstickButton,
            0xD3 => KeyCode::GamepadLeftThumbstickUp,
            0xD4 => KeyCode::GamepadLeftThumbstickDown,
            0xD5 => KeyCode::GamepadLeftThumbstickRight,
            0xD6 => KeyCode::GamepadLeftThumbstickLeft,
            0xD7 => KeyCode::GamepadRightThumbstickUp,
            0xD8 => KeyCode::GamepadRightThumbstickDown,
            0xD9 => KeyCode::GamepadRightThumbstickRight,
            0xDA => KeyCode::GamepadRightThumbstickLeft,
            0xDB => KeyCode::Oem4,
            0xDC => KeyCode::Oem5,
            0xDD => KeyCode::Oem6,
            0xDE => KeyCode::Oem7,
            0xDF => KeyCode::Oem8,
            0xE2 => KeyCode::Oem102,
            0xE5 => KeyCode::ProcessKey,
            0xE7 => KeyCode::Packet,
            0xF6 => KeyCode::Attn,
            0xF7 => KeyCode::CrSel,
            0xF8 => KeyCode::ExSel,
            0xF9 => KeyCode::Eof,
            0xFA => KeyCode::Play,
            0xFB => KeyCode::Zoom,
            0xFD => KeyCode::Pa1,
            0xFE => KeyCode::OemClear,
            _ => KeyCode::Other(b),
        }
    }

    /// Encodes this `KeyCode` back into its raw byte code.
    pub fn to_raw(self) -> (b: u8)
        ensures
            b == self.raw(),
    {
        match self {
            KeyCode::LButton => 0x01,
            KeyCode::RButton => 0x02,
            KeyCode::Cancel => 0x03,
            KeyCode::MButton => 0x04,
            KeyCode::XButton1 => 0x05,
            KeyCode::XButton2 => 0x06,
            KeyCode::Back => 0x08,
            KeyCode::Tab => 0x09,
            KeyCode::Clear => 0x0C,
            KeyCode::Return => 0x0D,
            KeyCode::Shift => 0x10,
            KeyCode::Control => 0x11,
            KeyCode::Menu => 0x12,
            KeyCode::Pause => 0x13,
            KeyCode::Capital => 0x14,
            KeyCode::Kana => 0x15,
            KeyCode::ImeOn => 0x16,
            KeyCode::Junja => 0x17,
            KeyCode::Final => 0x18,
            KeyCode::Hanja => 0x19,
            KeyCode::ImeOff => 0x1A,
            KeyCode::Escape => 0x1B,
            KeyCode::Convert => 0x1C,
            KeyCode::NonConvert => 0x1D,
            KeyCode::Accept => 0x1E,
            KeyCode::ModeChange => 0x1F,
            KeyCode::Space => 0x20,
            KeyCode::Prior => 0x21,
            KeyCode::Next => 0x22,
            KeyCode::End => 0x23,
            KeyCode::Home => 0x24,
            KeyCode::Left => 0x25,
            KeyCode::Up => 0x26,
            KeyCode::Right => 0x27,
            KeyCode::Down => 0x28,
            KeyCode::Select => 0x29,
            KeyCode::Print => 0x2A,
            KeyCode::Execute => 0x2B,
            KeyCode::Snapshot => 0x2C,
            KeyCode::Insert => 0x2D,
            KeyCode::Delete => 0x2E,
            KeyCode::Help => 0x2F,
            KeyCode::D0 => 0x30,
            KeyCode::D1 => 0x31,
            KeyCode::D2 => 0x32,
            KeyCode::D3 => 0x33,
            KeyCode::D4 => 0x34,
            KeyCode::D5 => 0x35,
            KeyCode::D6 => 0x36,
            KeyCode::D7 => 0x37,
            KeyCode::D8 => 0x38,
            KeyCode::D9 => 0x39,
            KeyCode::A => 0x41,
            KeyCode::B => 0x42,
            KeyCode::C => 0x43,
            KeyCode::D => 0x44,
            KeyCode::E => 0x45,
            KeyCode::F => 0x46,
            KeyCode::G => 0x47,
            KeyCode::H => 0x48,
            KeyCode::I => 0x49,
            KeyCode::J => 0x4A,
            KeyCode::K => 0x4B,
            KeyCode::L => 0x4C,
            KeyCode::M => 0x4D,
            KeyCode::N => 0x4E,
            KeyCode::O => 0x4F,
            KeyCode::P => 0x50,
            KeyCode::Q => 0x51,
            KeyCode::R => 0x52,
            KeyCode::S => 0x53,
            KeyCode::T => 0x54,
            KeyCode::U => 0x55,
            KeyCode::V => 0x56,
            KeyCode::W => 0x57,
            KeyCode::X => 0x58,
            KeyCode::Y => 0x59,
            KeyCode::Z => 0x5A,
            KeyCode::LWin => 0x5B,
            KeyCode::RWin => 0x5C,
            KeyCode::Apps => 0x5D,
            KeyCode::Sleep => 0x5F,
            KeyCode::NumPad0 => 0x60,
            KeyCode::NumPad1 => 0x61,
            KeyCode::NumPad2 => 0x62,
            KeyCode::NumPad3 => 0x63,
            KeyCode::NumPad4 => 0x64,
            KeyCode::NumPad5 => 0x65,
            KeyCode::NumPad6 => 0x66,
            KeyCode::NumPad7 => 0x67,
            KeyCode::NumPad8 => 0x68,
            KeyCode::NumPad9 => 0x69,
            KeyCode::Multiply => 0x6A,
            KeyCode::Add => 0x6B,
            KeyCode::Separator => 0x6C,
            KeyCode::Subtract => 0x6D,
            KeyCode::Decimal => 0x6E,
            KeyCode::Divide => 0x6F,
            KeyCode::F1 => 0x70,
            KeyCode::F2 => 0x71,
            KeyCode::F3 => 0x72,
            KeyCode::F4 => 0x73,
            KeyCode::F5 => 0x74,
            KeyCode::F6 => 0x75,
            KeyCode::F7 => 0x76,
            KeyCode::F8 => 0x77,
            KeyCode::F9 => 0x78,
            KeyCode::F10 => 0x79,
            KeyCode::F11 => 0x7A,
            KeyCode::F12 => 0x7B,
            KeyCode::F13 => 0x7C,
            KeyCode::F14 => 0x7D,
            KeyCode::F15 => 0x7E,
            KeyCode::F16 => 0x7F,
            KeyCode::F17 => 0x80,
            KeyCode::F18 => 0x81,
            KeyCode::F19 => 0x82,
            KeyCode::F20 => 0x83,
            KeyCode::F21 => 0x84,
            KeyCode::F22 => 0x85,
            KeyCode::F23 => 0x86,
            KeyCode::F24 => 0x87,
            KeyCode::NumLock => 0x90,
            KeyCode::Scroll => 0x91,
            KeyCode::LShift => 0xA0,
            KeyCode::RShift => 0xA1,
            KeyCode::LControl => 0xA2,
            KeyCode::RControl => 0xA3,
            KeyCode::LMenu => 0xA4,
            KeyCode::RMenu => 0xA5,
            KeyCode::BrowserBack => 0xA6,
            KeyCode::BrowserForward => 0xA7,
            KeyCode::BrowserRefresh => 0xA8,
            KeyCode::BrowserStop => 0xA9,
            KeyCode::BrowserSearch => 0xAA,
            KeyCode::BrowserFavorites => 0xAB,
            KeyCode::BrowserHome => 0xAC,
            KeyCode::VolumeMute => 0xAD,
            KeyCode::VolumeDown => 0xAE,
            KeyCode::VolumeUp => 0xAF,
            KeyCode::MediaNextTrack => 0xB0,
            KeyCode::MediaPrevTrack => 0xB1,
            KeyCode::MediaStop => 0xB2,
            KeyCode::MediaPlayPause => 0xB3,
            KeyCode::LaunchMail => 0xB4,
            KeyCode::LaunchMediaSelect => 0xB5,
            KeyCode::LaunchApp1 => 0xB6,
            KeyCode::LaunchApp2 => 0xB7,
            KeyCode::Oem1 => 0xBA,
            KeyCode::OemPlus => 0xBB,
            KeyCode::OemComma => 0xBC,
            KeyCode::OemMinus => 0xBD,
            KeyCode::OemPeriod => 0xBE,
            KeyCode::Oem2 => 0xBF,
            KeyCode::Oem3 => 0xC0,
            KeyCode::GamepadA => 0xC3,
            KeyCode::GamepadB => 0xC4,
            KeyCode::GamepadX => 0xC5,
            KeyCode::GamepadY => 0xC6,
            KeyCode::GamepadRightShoulder => 0xC7,
            KeyCode::GamepadLeftShoulder => 0xC8,
            KeyCode::GamepadLeftTrigger => 0xC9,
            KeyCode::GamepadRightTrigger => 0xCA,
            KeyCode::GamepadDpadUp => 0xCB,
            KeyCode::GamepadDpadDown => 0xCC,
            KeyCode::GamepadDpadLeft => 0xCD,
            KeyCode::GamepadDpadRight => 0xCE,
            KeyCode::GamepadMenu => 0xCF,
            KeyCode::GamepadView => 0xD0,
            KeyCode::GamepadLeftThumbstickButton => 0xD1,
            KeyCode::GamepadRightThumbstickButton => 0xD2,
            KeyCode::GamepadLeftThumbstickUp => 0xD3,
            KeyCode::GamepadLeftThumbstickDown => 0xD4,
            KeyCode::GamepadLeftThumbstickRight => 0xD5,
            KeyCode::GamepadLeftThumbstickLeft => 0xD6,
            KeyCode::GamepadRightThumbstickUp => 0xD7,
            KeyCode::GamepadRightThumbstickDown => 0xD8,
            KeyCode::GamepadRightThumbstickRight => 0xD9,
            KeyCode::GamepadRightThumbstickLeft => 0xDA,
            KeyCode::Oem4 => 0xDB,
            KeyCode::Oem5 => 0xDC,
            KeyCode::Oem6 => 0xDD,
            KeyCode::Oem7 => 0xDE,
            KeyCode::Oem8 => 0xDF,
            KeyCode::Oem102 => 0xE2,
            KeyCode::ProcessKey => 0xE5,
            KeyCode::Packet => 0xE7,
            KeyCode::Attn => 0xF6,
            KeyCode::CrSel => 0xF7,
            KeyCode::ExSel => 0xF8,
            KeyCode::Eof => 0xF9,
            KeyCode::Play => 0xFA,
            KeyCode::Zoom => 0xFB,
            KeyCode::Pa1 => 0xFD,
            KeyCode::OemClear => 0xFE,
            KeyCode::Other(code) => code,
        }
    }
}

/// Decoding any byte and encoding the result gives the byte back:
/// the mapping between codes and keys is lossless over the whole code space.
pub proof fn lemma_key_code_round_trip(b: u8)
    ensures
        KeyCode::of_raw(b).raw() == b,
{
}

} // verus!
