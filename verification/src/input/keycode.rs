use vstd::prelude::*;

use crate::input::keystatus::{
    RI_MOUSE_BUTTON_1_DOWN, RI_MOUSE_BUTTON_1_UP, RI_MOUSE_BUTTON_2_DOWN, RI_MOUSE_BUTTON_2_UP,
    RI_MOUSE_BUTTON_3_DOWN, RI_MOUSE_BUTTON_3_UP, RI_MOUSE_BUTTON_4_DOWN, RI_MOUSE_BUTTON_4_UP,
    RI_MOUSE_BUTTON_5_DOWN, RI_MOUSE_BUTTON_5_UP,
};
use crate::text::str_eq;

verus! {

/// A key or mouse button that keybinds can name.
///
/// Every variant stands for one Windows virtual-key code. Two variants never
/// share a code (`lemma_virtual_key_injective`) or a configuration name
/// (`lemma_config_name_injective`). The variants are listed by ascending
/// code, so that the order of the keys is the order of their codes.
#[derive(Clone, Copy, Debug, PartialEq, Eq, PartialOrd, Ord, Hash, Structural)]
pub enum KeyCode {
    LeftMouseButton,
    RightMouseButton,
    Cancel,
    MiddleMouseButton,
    MouseButton4,
    MouseButton5,
    Backspace,
    Tab,
    Clear,
    Return,
    Shift,
    Control,
    Alt,
    Pause,
    Caps,
    IMEKana,
    IMEOn,
    IMEJunja,
    IMEFinal,
    IMEKanji,
    IMEOff,
    Escape,
    IMEConvert,
    IMENonConvert,
    IMEAccept,
    IMEModeChange,
    Space,
    PageUp,
    PageDown,
    End,
    Home,
    Left,
    Up,
    Right,
    Down,
    Select,
    Print,
    Execute,
    PrintScreen,
    Insert,
    Delete,
    Help,
    Alpha0,
    Alpha1,
    Alpha2,
    Alpha3,
    Alpha4,
    Alpha5,
    Alpha6,
    Alpha7,
    Alpha8,
    Alpha9,
    A,
    B,
    C,
    D,
    E,
    F,
    G,
    H,
    I,
    J,
    K,
    L,
    M,
    N,
    O,
    P,
    Q,
    R,
    S,
    T,
    U,
    V,
    W,
    X,
    Y,
    Z,
    LeftWin,
    RightWin,
    Apps,
    Sleep,
    Numpad0,
    Numpad1,
    Numpad2,
    Numpad3,
    Numpad4,
    Numpad5,
    Numpad6,
    Numpad7,
    Numpad8,
    Numpad9,
    Multiply,
    Add,
    Separator,
    Subtract,
    Decimal,
    Divide,
    F1,
    F2,
    F3,
    F4,
    F5,
    F6,
    F7,
    F8,
    F9,
    F10,
    F11,
    F12,
    F13,
    F14,
    F15,
    F16,
    F17,
    F18,
    F19,
    F20,
    F21,
    F22,
    F23,
    F24,
    NumLock,
    ScrollLock,
    LeftShift,
    RightShift,
    LeftControl,
    RightControl,
    LeftAlt,
    RightAlt,
    BrowserBack,
    BrowserForward,
    BrowserRefresh,
    BrowserStop,
    BrowserSearch,
    BrowserFavorites,
    BrowserHome,
    VolumeMute,
    VolumeDown,
    VolumeUp,
    MediaNextTrack,
    MediaPreviousTrack,
    MediaStop,
    MediaPlayPause,
    Mail,
    MediaSelect,
    Application1,
    Application2,
    Colon,
    Plus,
    Comma,
    Minus,
    Period,
    Forwardslash,
    Squiggly,
    OpenBracket,
    Backslash,
    CloseBracket,
    Quote,
    Exclamation,
    ArrowBracket,
    IMEProcess,
    Unicode,
    Attn,
    CrSel,
    ExSel,
    ErEOF,
    Play,
    Zoom,
    NoName,
    PA1,
    OEMClear,
}

impl KeyCode {
    /// The virtual-key code (`VK_*`) of this key.
    pub open spec fn virtual_key(self) -> u16 {
        match self {
            KeyCode::LeftMouseButton => 0x01,
            KeyCode::RightMouseButton => 0x02,
            KeyCode::Cancel => 0x03,
            KeyCode::MiddleMouseButton => 0x04,
            KeyCode::MouseButton4 => 0x05,
            KeyCode::MouseButton5 => 0x06,
            KeyCode::Backspace => 0x08,
            KeyCode::Tab => 0x09,
            KeyCode::Clear => 0x0C,
            KeyCode::Return => 0x0D,
            KeyCode::Shift => 0x10,
            KeyCode::Control => 0x11,
            KeyCode::Alt => 0x12,
            KeyCode::Pause => 0x13,
            KeyCode::Caps => 0x14,
            KeyCode::IMEKana => 0x15,
            KeyCode::IMEOn => 0x16,
            KeyCode::IMEJunja => 0x17,
            KeyCode::IMEFinal => 0x18,
            KeyCode::IMEKanji => 0x19,
            KeyCode::IMEOff => 0x1A,
            KeyCode::Escape => 0x1B,
            KeyCode::IMEConvert => 0x1C,
            KeyCode::IMENonConvert => 0x1D,
            KeyCode::IMEAccept => 0x1E,
            KeyCode::IMEModeChange => 0x1F,
            KeyCode::Space => 0x20,
            KeyCode::PageUp => 0x21,
            KeyCode::PageDown => 0x22,
            KeyCode::End => 0x23,
            KeyCode::Home => 0x24,
            KeyCode::Left => 0x25,
            KeyCode::Up => 0x26,
            KeyCode::Right => 0x27,
            KeyCode::Down => 0x28,
            KeyCode::Select => 0x29,
            KeyCode::Print => 0x2A,
            KeyCode::Execute => 0x2B,
            KeyCode::PrintScreen => 0x2C,
            KeyCode::Insert => 0x2D,
            KeyCode::Delete => 0x2E,
            KeyCode::Help => 0x2F,
            KeyCode::Alpha0 => 0x30,
            KeyCode::Alpha1 => 0x31,
            KeyCode::Alpha2 => 0x32,
            KeyCode::Alpha3 => 0x33,
            KeyCode::Alpha4 => 0x34,
            KeyCode::Alpha5 => 0x35,
            KeyCode::Alpha6 => 0x36,
            KeyCode::Alpha7 => 0x37,
            KeyCode::Alpha8 => 0x38,
            KeyCode::Alpha9 => 0x39,
            KeyCode::A => 0x41,
            KeyCode::B => 0x42,
            KeyCode::C => 0x43,
            KeyCode::D => 0x44,
            KeyCode::E => 0x45,
            KeyCode::F => 0x46,
            KeyCode::G => 0x47,
            KeyCode::H => 0x48,
            KeyCode::I => 0x49,
            KeyCode::J => 0x4A,
            KeyCode::K => 0x4B,
            KeyCode::L => 0x4C,
            KeyCode::M => 0x4D,
            KeyCode::N => 0x4E,
            KeyCode::O => 0x4F,
            KeyCode::P => 0x50,
            KeyCode::Q => 0x51,
            KeyCode::R => 0x52,
            KeyCode::S => 0x53,
            KeyCode::T => 0x54,
            KeyCode::U => 0x55,
            KeyCode::V => 0x56,
            KeyCode::W => 0x57,
            KeyCode::X => 0x58,
            KeyCode::Y => 0x59,
            KeyCode::Z => 0x5A,
            KeyCode::LeftWin => 0x5B,
            KeyCode::RightWin => 0x5C,
            KeyCode::Apps => 0x5D,
            KeyCode::Sleep => 0x5F,
            KeyCode::Numpad0 => 0x60,
            KeyCode::Numpad1 => 0x61,
            KeyCode::Numpad2 => 0x62,
            KeyCode::Numpad3 => 0x63,
            KeyCode::Numpad4 => 0x64,
            KeyCode::Numpad5 => 0x65,
            KeyCode::Numpad6 => 0x66,
            KeyCode::Numpad7 => 0x67,
            KeyCode::Numpad8 => 0x68,
            KeyCode::Numpad9 => 0x69,
            KeyCode::Multiply => 0x6A,
            KeyCode::Add => 0x6B,
            KeyCode::Separator => 0x6C,
            KeyCode::Subtract => 0x6D,
            KeyCode::Decimal => 0x6E,
            KeyCode::Divide => 0x6F,
            KeyCode::F1 => 0x70,
            KeyCode::F2 => 0x71,
            KeyCode::F3 => 0x72,
            KeyCode::F4 => 0x73,
            KeyCode::F5 => 0x74,
            KeyCode::F6 => 0x75,
            KeyCode::F7 => 0x76,
            KeyCode::F8 => 0x77,
            KeyCode::F9 => 0x78,
            KeyCode::F10 => 0x79,
            KeyCode::F11 => 0x7A,
            KeyCode::F12 => 0x7B,
            KeyCode::F13 => 0x7C,
            KeyCode::F14 => 0x7D,
            KeyCode::F15 => 0x7E,
            KeyCode::F16 => 0x7F,
            KeyCode::F17 => 0x80,
            KeyCode::F18 => 0x81,
            KeyCode::F19 => 0x82,
            KeyCode::F20 => 0x83,
            KeyCode::F21 => 0x84,
            KeyCode::F22 => 0x85,
            KeyCode::F23 => 0x86,
            KeyCode::F24 => 0x87,
            KeyCode::NumLock => 0x90,
            KeyCode::ScrollLock => 0x91,
            KeyCode::LeftShift => 0xA0,
            KeyCode::RightShift => 0xA1,
            KeyCode::LeftControl => 0xA2,
            KeyCode::RightControl => 0xA3,
            KeyCode::LeftAlt => 0xA4,
            KeyCode::RightAlt => 0xA5,
            KeyCode::BrowserBack => 0xA6,
            KeyCode::BrowserForward => 0xA7,
            KeyCode::BrowserRefresh => 0xA8,
            KeyCode::BrowserStop => 0xA9,
            KeyCode::BrowserSearch => 0xAA,
            KeyCode::BrowserFavorites => 0xAB,
            KeyCode::BrowserHome => 0xAC,
            KeyCode::VolumeMute => 0xAD,
            KeyCode::VolumeDown => 0xAE,
            KeyCode::VolumeUp => 0xAF,
            KeyCode::MediaNextTrack => 0xB0,
            KeyCode::MediaPreviousTrack => 0xB1,
            KeyCode::MediaStop => 0xB2,
            KeyCode::MediaPlayPause => 0xB3,
            KeyCode::Mail => 0xB4,
            KeyCode::MediaSelect => 0xB5,
            KeyCode::Application1 => 0xB6,
            KeyCode::Application2 => 0xB7,
            KeyCode::Colon => 0xBA,
            KeyCode::Plus => 0xBB,
            KeyCode::Comma => 0xBC,
            KeyCode::Minus => 0xBD,
            KeyCode::Period => 0xBE,
            KeyCode::Forwardslash => 0xBF,
            KeyCode::Squiggly => 0xC0,
            KeyCode::OpenBracket => 0xDB,
            KeyCode::Backslash => 0xDC,
            KeyCode::CloseBracket => 0xDD,
            KeyCode::Quote => 0xDE,
            KeyCode::Exclamation => 0xDF,
            KeyCode::ArrowBracket => 0xE2,
            KeyCode::IMEProcess => 0xE5,
            KeyCode::Unicode => 0xE7,
            KeyCode::Attn => 0xF6,
            KeyCode::CrSel => 0xF7,
            KeyCode::ExSel => 0xF8,
            KeyCode::ErEOF => 0xF9,
            KeyCode::Play => 0xFA,
            KeyCode::Zoom => 0xFB,
            KeyCode::NoName => 0xFC,
            KeyCode::PA1 => 0xFD,
            KeyCode::OEMClear => 0xFE,
        }
    }

    /// The name under which the configuration file refers to this key: the
    /// identifier of its virtual-key code.
    pub open spec fn config_name(self) -> Seq<char> {
        match self {
            KeyCode::LeftMouseButton => "VK_LBUTTON"@,
            KeyCode::RightMouseButton => "VK_RBUTTON"@,
            KeyCode::Cancel => "VK_CANCEL"@,
            KeyCode::MiddleMouseButton => "VK_MBUTTON"@,
            KeyCode::MouseButton4 => "VK_XBUTTON1"@,
            KeyCode::MouseButton5 => "VK_XBUTTON2"@,
            KeyCode::Backspace => "VK_BACK"@,
            KeyCode::Tab => "VK_TAB"@,
            KeyCode::Clear => "VK_CLEAR"@,
            KeyCode::Return => "VK_RETURN"@,
            KeyCode::Shift => "VK_SHIFT"@,
            KeyCode::Control => "VK_CONTROL"@,
            KeyCode::Alt => "VK_MENU"@,
            KeyCode::Pause => "VK_PAUSE"@,
            KeyCode::Caps => "VK_CAPITAL"@,
            KeyCode::IMEKana => "VK_KANA"@,
            KeyCode::IMEOn => "VK_IME_ON"@,
            KeyCode::IMEJunja => "VK_JUNJA"@,
            KeyCode::IMEFinal => "VK_FINAL"@,
            KeyCode::IMEKanji => "VK_KANJI"@,
            KeyCode::IMEOff => "VK_IME_OFF"@,
            KeyCode::Escape => "VK_ESCAPE"@,
            KeyCode::IMEConvert => "VK_CONVERT"@,
            KeyCode::IMENonConvert => "VK_NONCONVERT"@,
            KeyCode::IMEAccept => "VK_ACCEPT"@,
            KeyCode::IMEModeChange => "VK_MODECHANGE"@,
            KeyCode::Space => "VK_SPACE"@,
            KeyCode::PageUp => "VK_PRIOR"@,
            KeyCode::PageDown => "VK_NEXT"@,
            KeyCode::End => "VK_END"@,
            KeyCode::Home => "VK_HOME"@,
            KeyCode::Left => "VK_LEFT"@,
            KeyCode::Up => "VK_UP"@,
            KeyCode::Right => "VK_RIGHT"@,
            KeyCode::Down => "VK_DOWN"@,
            KeyCode::Select => "VK_SELECT"@,
            KeyCode::Print => "VK_PRINT"@,
            KeyCode::Execute => "VK_EXECUTE"@,
            KeyCode::PrintScreen => "VK_SNAPSHOT"@,
            KeyCode::Insert => "VK_INSERT"@,
            KeyCode::Delete => "VK_DELETE"@,
            KeyCode::Help => "VK_HELP"@,
            KeyCode::Alpha0 => "VK_0"@,
            KeyCode::Alpha1 => "VK_1"@,
            KeyCode::Alpha2 => "VK_2"@,
            KeyCode::Alpha3 => "VK_3"@,
            KeyCode::Alpha4 => "VK_4"@,
            KeyCode::Alpha5 => "VK_5"@,
            KeyCode::Alpha6 => "VK_6"@,
            KeyCode::Alpha7 => "VK_7"@,
            KeyCode::Alpha8 => "VK_8"@,
            KeyCode::Alpha9 => "VK_9"@,
            KeyCode::A => "VK_A"@,
            KeyCode::B => "VK_B"@,
            KeyCode::C => "VK_C"@,
            KeyCode::D => "VK_D"@,
            KeyCode::E => "VK_E"@,
            KeyCode::F => "VK_F"@,
            KeyCode::G => "VK_G"@,
            KeyCode::H => "VK_H"@,
            KeyCode::I => "VK_I"@,
            KeyCode::J => "VK_J"@,
            KeyCode::K => "VK_K"@,
            KeyCode::L => "VK_L"@,
            KeyCode::M => "VK_M"@,
            KeyCode::N => "VK_N"@,
            KeyCode::O => "VK_O"@,
            KeyCode::P => "VK_P"@,
            KeyCode::Q => "VK_Q"@,
            KeyCode::R => "VK_R"@,
            KeyCode::S => "VK_S"@,
            KeyCode::T => "VK_T"@,
            KeyCode::U => "VK_U"@,
            KeyCode::V => "VK_V"@,
            KeyCode::W => "VK_W"@,
            KeyCode::X => "VK_X"@,
            KeyCode::Y => "VK_Y"@,
            KeyCode::Z => "VK_Z"@,
            KeyCode::LeftWin => "VK_LWIN"@,
            KeyCode::RightWin => "VK_RWIN"@,
            KeyCode::Apps => "VK_APPS"@,
            KeyCode::Sleep => "VK_SLEEP"@,
            KeyCode::Numpad0 => "VK_NUMPAD0"@,
            KeyCode::Numpad1 => "VK_NUMPAD1"@,
            KeyCode::Numpad2 => "VK_NUMPAD2"@,
            KeyCode::Numpad3 => "VK_NUMPAD3"@,
            KeyCode::Numpad4 => "VK_NUMPAD4"@,
            KeyCode::Numpad5 => "VK_NUMPAD5"@,
            KeyCode::Numpad6 => "VK_NUMPAD6"@,
            KeyCode::Numpad7 => "VK_NUMPAD7"@,
            KeyCode::Numpad8 => "VK_NUMPAD8"@,
            KeyCode::Numpad9 => "VK_NUMPAD9"@,
            KeyCode::Multiply => "VK_MULTIPLY"@,
            KeyCode::Add => "VK_ADD"@,
            KeyCode::Separator => "VK_SEPARATOR"@,
            KeyCode::Subtract => "VK_SUBTRACT"@,
            KeyCode::Decimal => "VK_DECIMAL"@,
            KeyCode::Divide => "VK_DIVIDE"@,
            KeyCode::F1 => "VK_F1"@,
            KeyCode::F2 => "VK_F2"@,
            KeyCode::F3 => "VK_F3"@,
            KeyCode::F4 => "VK_F4"@,
            KeyCode::F5 => "VK_F5"@,
            KeyCode::F6 => "VK_F6"@,
            KeyCode::F7 => "VK_F7"@,
            KeyCode::F8 => "VK_F8"@,
            KeyCode::F9 => "VK_F9"@,
            KeyCode::F10 => "VK_F10"@,
            KeyCode::F11 => "VK_F11"@,
            KeyCode::F12 => "VK_F12"@,
            KeyCode::F13 => "VK_F13"@,
            KeyCode::F14 => "VK_F14"@,
            KeyCode::F15 => "VK_F15"@,
            KeyCode::F16 => "VK_F16"@,
            KeyCode::F17 => "VK_F17"@,
            KeyCode::F18 => "VK_F18"@,
            KeyCode::F19 => "VK_F19"@,
            KeyCode::F20 => "VK_F20"@,
            KeyCode::F21 => "VK_F21"@,
            KeyCode::F22 => "VK_F22"@,
            KeyCode::F23 => "VK_F23"@,
            KeyCode::F24 => "VK_F24"@,
            KeyCode::NumLock => "VK_NUMLOCK"@,
            KeyCode::ScrollLock => "VK_SCROLL"@,
            KeyCode::LeftShift => "VK_LSHIFT"@,
            KeyCode::RightShift => "VK_RSHIFT"@,
            KeyCode::LeftControl => "VK_LCONTROL"@,
            KeyCode::RightControl => "VK_RCONTROL"@,
            KeyCode::LeftAlt => "VK_LMENU"@,
            KeyCode::RightAlt => "VK_RMENU"@,
            KeyCode::BrowserBack => "VK_BROWSER_BACK"@,
            KeyCode::BrowserForward => "VK_BROWSER_FORWARD"@,
            KeyCode::BrowserRefresh => "VK_BROWSER_REFRESH"@,
            KeyCode::BrowserStop => "VK_BROWSER_STOP"@,
            KeyCode::BrowserSearch => "VK_BROWSER_SEARCH"@,
            KeyCode::BrowserFavorites => "VK_BROWSER_FAVORITES"@,
            KeyCode::BrowserHome => "VK_BROWSER_HOME"@,
            KeyCode::VolumeMute => "VK_VOLUME_MUTE"@,
            KeyCode::VolumeDown => "VK_VOLUME_DOWN"@,
            KeyCode::VolumeUp => "VK_VOLUME_UP"@,
            KeyCode::MediaNextTrack => "VK_MEDIA_NEXT_TRACK"@,
            KeyCode::MediaPreviousTrack => "VK_MEDIA_PREV_TRACK"@,
            KeyCode::MediaStop => "VK_MEDIA_STOP"@,
            KeyCode::MediaPlayPause => "VK_MEDIA_PLAY_PAUSE"@,
            KeyCode::Mail => "VK_LAUNCH_MAIL"@,
            KeyCode::MediaSelect => "VK_LAUNCH_MEDIA_SELECT"@,
            KeyCode::Application1 => "VK_LAUNCH_APP1"@,
            KeyCode::Application2 => "VK_LAUNCH_APP2"@,
            KeyCode::Colon => "VK_OEM_1"@,
            KeyCode::Plus => "VK_OEM_PLUS"@,
            KeyCode::Comma => "VK_OEM_COMMA"@,
            KeyCode::Minus => "VK_OEM_MINUS"@,
            KeyCode::Period => "VK_OEM_PERIOD"@,
            KeyCode::Forwardslash => "VK_OEM_2"@,
            KeyCode::Squiggly => "VK_OEM_3"@,
            KeyCode::OpenBracket => "VK_OEM_4"@,
            KeyCode::Backslash => "VK_OEM_5"@,
            KeyCode::CloseBracket => "VK_OEM_6"@,
            KeyCode::Quote => "VK_OEM_7"@,
            KeyCode::Exclamation => "VK_OEM_8"@,
            KeyCode::ArrowBracket => "VK_OEM_102"@,
            KeyCode::IMEProcess => "VK_PROCESSKEY"@,
            KeyCode::Unicode => "VK_PACKET"@,
            KeyCode::Attn => "VK_ATTN"@,
            KeyCode::CrSel => "VK_CRSEL"@,
            KeyCode::ExSel => "VK_EXSEL"@,
            KeyCode::ErEOF => "VK_EREOF"@,
            KeyCode::Play => "VK_PLAY"@,
            KeyCode::Zoom => "VK_ZOOM"@,
            KeyCode::NoName => "VK_NONAME"@,
            KeyCode::PA1 => "VK_PA1"@,
            KeyCode::OEMClear => "VK_OEM_CLEAR"@,
        }
    }

    /// The text shown to the user for this key.
    pub open spec fn label(self) -> Seq<char> {
        match self {
            KeyCode::LeftMouseButton => "Left Mouse Button"@,
            KeyCode::RightMouseButton => "Right Mouse Button"@,
            KeyCode::Cancel => "Cancel"@,
            KeyCode::MiddleMouseButton => "Middle Mouse Button"@,
            KeyCode::MouseButton4 => "Mouse Button 4"@,
            KeyCode::MouseButton5 => "Mouse Button 5"@,
            KeyCode::Backspace => "Backspace"@,
            KeyCode::Tab => "Tab"@,
            KeyCode::Clear => "Clear"@,
            KeyCode::Return => "Enter"@,
            KeyCode::Shift => "Shift"@,
            KeyCode::Control => "Control"@,
            KeyCode::Alt => "Alt"@,
            KeyCode::Pause => "Pause"@,
            KeyCode::Caps => "Caps-lock"@,
            KeyCode::IMEKana => "IME Kana Mode"@,
            KeyCode::IMEOn => "IME On"@,
            KeyCode::IMEJunja => "IME Junja Mode"@,
            KeyCode::IMEFinal => "IME Final Mode"@,
            KeyCode::IMEKanji => "IME Kanji Mode"@,
            KeyCode::IMEOff => "IME Off"@,
            KeyCode::Escape => "Escape"@,
            KeyCode::IMEConvert => "IME Convert"@,
            KeyCode::IMENonConvert => "IME Non-Convert"@,
            KeyCode::IMEAccept => "IME Accept"@,
            KeyCode::IMEModeChange => "IME Mode Change Request"@,
            KeyCode::Space => "Spacebar"@,
            KeyCode::PageUp => "Page-Up"@,
            KeyCode::PageDown => "Page-Down"@,
            KeyCode::End => "End"@,
            KeyCode::Home => "Home"@,
            KeyCode::Left => "Left Arrow"@,
            KeyCode::Up => "Up Arrow"@,
            KeyCode::Right => "Right Arrow"@,
            KeyCode::Down => "Down Arrow"@,
            KeyCode::Select => "Select"@,
            KeyCode::Print => "Print"@,
            KeyCode::Execute => "Execute"@,
            KeyCode::PrintScreen => "Print-Screen"@,
            KeyCode::Insert => "Insert"@,
            KeyCode::Delete => "Delete"@,
            KeyCode::Help => "Help"@,
            KeyCode::Alpha0 => "Alpha 0"@,
            KeyCode::Alpha1 => "Alpha 1"@,
            KeyCode::Alpha2 => "Alpha 2"@,
            KeyCode::Alpha3 => "Alpha 3"@,
            KeyCode::Alpha4 => "Alpha 4"@,
            KeyCode::Alpha5 => "Alpha 5"@,
            KeyCode::Alpha6 => "Alpha 6"@,
            KeyCode::Alpha7 => "Alpha 7"@,
            KeyCode::Alpha8 => "Alpha 8"@,
            KeyCode::Alpha9 => "Alpha 9"@,
            KeyCode::A => "A"@,
            KeyCode::B => "B"@,
            KeyCode::C => "C"@,
            KeyCode::D => "D"@,
            KeyCode::E => "E"@,
            KeyCode::F => "F"@,
            KeyCode::G => "G"@,
            KeyCode::H => "H"@,
            KeyCode::I => "I"@,
            KeyCode::J => "J"@,
            KeyCode::K => "K"@,
            KeyCode::L => "L"@,
            KeyCode::M => "M"@,
            KeyCode::N => "N"@,
            KeyCode::O => "O"@,
            KeyCode::P => "P"@,
            KeyCode::Q => "Q"@,
            KeyCode::R => "R"@,
            KeyCode::S => "S"@,
            KeyCode::T => "T"@,
            KeyCode::U => "U"@,
            KeyCode::V => "V"@,
            KeyCode::W => "W"@,
            KeyCode::X => "X"@,
            KeyCode::Y => "Y"@,
            KeyCode::Z => "Z"@,
            KeyCode::LeftWin => "Left Windows"@,
            KeyCode::RightWin => "Right Windows"@,
            KeyCode::Apps => "Applications"@,
            KeyCode::Sleep => "Sleep"@,
            KeyCode::Numpad0 => "Numpad 0"@,
            KeyCode::Numpad1 => "Numpad 1"@,
            KeyCode::Numpad2 => "Numpad 2"@,
            KeyCode::Numpad3 => "Numpad 3"@,
            KeyCode::Numpad4 => "Numpad 4"@,
            KeyCode::Numpad5 => "Numpad 5"@,
            KeyCode::Numpad6 => "Numpad 6"@,
            KeyCode::Numpad7 => "Numpad 7"@,
            KeyCode::Numpad8 => "Numpad 8"@,
            KeyCode::Numpad9 => "Numpad 9"@,
            KeyCode::Multiply => "Multiply"@,
            KeyCode::Add => "Add"@,
            KeyCode::Separator => "Separator"@,
            KeyCode::Subtract => "Subtract"@,
            KeyCode::Decimal => "Decimal"@,
            KeyCode::Divide => "Divide"@,
            KeyCode::F1 => "F1"@,
            KeyCode::F2 => "F2"@,
            KeyCode::F3 => "F3"@,
            KeyCode::F4 => "F4"@,
            KeyCode::F5 => "F5"@,
            KeyCode::F6 => "F6"@,
            KeyCode::F7 => "F7"@,
            KeyCode::F8 => "F8"@,
            KeyCode::F9 => "F9"@,
            KeyCode::F10 => "F10"@,
            KeyCode::F11 => "F11"@,
            KeyCode::F12 => "F12"@,
            KeyCode::F13 => "F13"@,
            KeyCode::F14 => "F14"@,
            KeyCode::F15 => "F15"@,
            KeyCode::F16 => "F16"@,
            KeyCode::F17 => "F17"@,
            KeyCode::F18 => "F18"@,
            KeyCode::F19 => "F19"@,
            KeyCode::F20 => "F20"@,
            KeyCode::F21 => "F21"@,
            KeyCode::F22 => "F22"@,
            KeyCode::F23 => "F23"@,
            KeyCode::F24 => "F24"@,
            KeyCode::NumLock => "Num Lock"@,
            KeyCode::ScrollLock => "Scroll Lock"@,
            KeyCode::LeftShift => "Left Shift"@,
            KeyCode::RightShift => "Right Shift"@,
            KeyCode::LeftControl => "Left Control"@,
            KeyCode::RightControl => "RightControl"@,
            KeyCode::LeftAlt => "Left Alt"@,
            KeyCode::RightAlt => "Right Alt"@,
            KeyCode::BrowserBack => "Browser Back"@,
            KeyCode::BrowserForward => "Browser Forward"@,
            KeyCode::BrowserRefresh => "Browser Refresh"@,
            KeyCode::BrowserStop => "Browser Stop"@,
            KeyCode::BrowserSearch => "Browser Search"@,
            KeyCode::BrowserFavorites => "Browser Favorites"@,
            KeyCode::BrowserHome => "Browser Home"@,
            KeyCode::VolumeMute => "Volume Mute"@,
            KeyCode::VolumeDown => "Volume Down"@,
            KeyCode::VolumeUp => "Volume Up"@,
            KeyCode::MediaNextTrack => "Media Next Track"@,
            KeyCode::MediaPreviousTrack => "Media Previous Track"@,
            KeyCode::MediaStop => "Stop Media"@,
            KeyCode::MediaPlayPause => "Play/Pause Media"@,
            KeyCode::Mail => "Mail"@,
            KeyCode::MediaSelect => "Media Select"@,
            KeyCode::Application1 => "Application 1"@,
            KeyCode::Application2 => "Application 2"@,
            KeyCode::Colon => "Colon (;:) (US layout)"@,
            KeyCode::Plus => "Plus (+) (US layout)"@,
            KeyCode::Comma => "Comma (,) (US layout)"@,
            KeyCode::Minus => "Minus (-) (US layout)"@,
            KeyCode::Period => "Period (.) /US layout)"@,
            KeyCode::Forwardslash => "Forwardslash (/?) (US layout)"@,
            KeyCode::Squiggly => "Squiggly (`~) (US layout)"@,
            KeyCode::OpenBracket => "Open Bracket ([{) (US layout)"@,
            KeyCode::Backslash => "Backslash (\\|) (US layout)"@,
            KeyCode::CloseBracket => "Closed Bracket (]}) (US layout)"@,
            KeyCode::Quote => "Quote ('\") (US layout)"@,
            KeyCode::Exclamation => "Exclamation (\u{e22}\u{e07}!) (US layout))"@,
            KeyCode::ArrowBracket => "Arrow Brackets (<>) (US layout)"@,
            KeyCode::IMEProcess => "IME Process"@,
            KeyCode::Unicode => "Unicode Character"@,
            KeyCode::Attn => "Attn"@,
            KeyCode::CrSel => "CrSel"@,
            KeyCode::ExSel => "ExSel"@,
            KeyCode::ErEOF => "ErEOF"@,
            KeyCode::Play => "Play"@,
            KeyCode::Zoom => "Zoom"@,
            KeyCode::NoName => "No Name"@,
            KeyCode::PA1 => "PA1"@,
            KeyCode::OEMClear => "Clear"@,
        }
    }

    /// The key whose virtual-key code is `vkey`, if there is one.
    pub open spec fn of_virtual_key(vkey: u16) -> Option<KeyCode> {
        if exists|code: KeyCode| code.virtual_key() == vkey {
            Some(choose|code: KeyCode| code.virtual_key() == vkey)
        } else {
            None
        }
    }

    /// The key whose configuration name is `name`, if there is one.
    pub open spec fn of_config_name(name: Seq<char>) -> Option<KeyCode> {
        if exists|code: KeyCode| code.config_name() == name {
            Some(choose|code: KeyCode| code.config_name() == name)
        } else {
            None
        }
    }

    /// The key that a raw-input mouse button flag (`RI_MOUSE_BUTTON_*`) belongs
    /// to, whether the flag reports a press or a release.
    pub open spec fn of_button_flag(ri: u32) -> Option<KeyCode> {
        if ri == RI_MOUSE_BUTTON_1_DOWN || ri == RI_MOUSE_BUTTON_1_UP {
            Some(KeyCode::LeftMouseButton)
        } else if ri == RI_MOUSE_BUTTON_2_DOWN || ri == RI_MOUSE_BUTTON_2_UP {
            Some(KeyCode::RightMouseButton)
        } else if ri == RI_MOUSE_BUTTON_3_DOWN || ri == RI_MOUSE_BUTTON_3_UP {
            Some(KeyCode::MiddleMouseButton)
        } else if ri == RI_MOUSE_BUTTON_4_DOWN || ri == RI_MOUSE_BUTTON_4_UP {
            Some(KeyCode::MouseButton4)
        } else if ri == RI_MOUSE_BUTTON_5_DOWN || ri == RI_MOUSE_BUTTON_5_UP {
            Some(KeyCode::MouseButton5)
        } else {
            None
        }
    }

    /// Returns the virtual-key code of this key.
    pub fn to_vkey(self) -> (vkey: u16)
        ensures
            vkey == self.virtual_key(),
    {
        match self {
            KeyCode::LeftMouseButton => 0x01,
            KeyCode::RightMouseButton => 0x02,
            KeyCode::Cancel => 0x03,
            KeyCode::MiddleMouseButton => 0x04,
            KeyCode::MouseButton4 => 0x05,
            KeyCode::MouseButton5 => 0x06,
            KeyCode::Backspace => 0x08,
            KeyCode::Tab => 0x09,
            KeyCode::Clear => 0x0C,
            KeyCode::Return => 0x0D,
            KeyCode::Shift => 0x10,
            KeyCode::Control => 0x11,
            KeyCode::Alt => 0x12,
            KeyCode::Pause => 0x13,
            KeyCode::Caps => 0x14,
            KeyCode::IMEKana => 0x15,
            KeyCode::IMEOn => 0x16,
            KeyCode::IMEJunja => 0x17,
            KeyCode::IMEFinal => 0x18,
            KeyCode::IMEKanji => 0x19,
            KeyCode::IMEOff => 0x1A,
            KeyCode::Escape => 0x1B,
            KeyCode::IMEConvert => 0x1C,
            KeyCode::IMENonConvert => 0x1D,
            KeyCode::IMEAccept => 0x1E,
            KeyCode::IMEModeChange => 0x1F,
            KeyCode::Space => 0x20,
            KeyCode::PageUp => 0x21,
            KeyCode::PageDown => 0x22,
            KeyCode::End => 0x23,
            KeyCode::Home => 0x24,
            KeyCode::Left => 0x25,
            KeyCode::Up => 0x26,
            KeyCode::Right => 0x27,
            KeyCode::Down => 0x28,
            KeyCode::Select => 0x29,
            KeyCode::Print => 0x2A,
            KeyCode::Execute => 0x2B,
            KeyCode::PrintScreen => 0x2C,
            KeyCode::Insert => 0x2D,
            KeyCode::Delete => 0x2E,
            KeyCode::Help => 0x2F,
            KeyCode::Alpha0 => 0x30,
            KeyCode::Alpha1 => 0x31,
            KeyCode::Alpha2 => 0x32,
            KeyCode::Alpha3 => 0x33,
            KeyCode::Alpha4 => 0x34,
            KeyCode::Alpha5 => 0x35,
            KeyCode::Alpha6 => 0x36,
            KeyCode::Alpha7 => 0x37,
            KeyCode::Alpha8 => 0x38,
            KeyCode::Alpha9 => 0x39,
            KeyCode::A => 0x41,
            KeyCode::B => 0x42,
            KeyCode::C => 0x43,
            KeyCode::D => 0x44,
            KeyCode::E => 0x45,
            KeyCode::F => 0x46,
            KeyCode::G => 0x47,
            KeyCode::H => 0x48,
            KeyCode::I => 0x49,
            KeyCode::J => 0x4A,
            KeyCode::K => 0x4B,
            KeyCode::L => 0x4C,
            KeyCode::M => 0x4D,
            KeyCode::N => 0x4E,
            KeyCode::O => 0x4F,
            KeyCode::P => 0x50,
            KeyCode::Q => 0x51,
            KeyCode::R => 0x52,
            KeyCode::S => 0x53,
            KeyCode::T => 0x54,
            KeyCode::U => 0x55,
            KeyCode::V => 0x56,
            KeyCode::W => 0x57,
            KeyCode::X => 0x58,
            KeyCode::Y => 0x59,
            KeyCode::Z => 0x5A,
            KeyCode::LeftWin => 0x5B,
            KeyCode::RightWin => 0x5C,
            KeyCode::Apps => 0x5D,
            KeyCode::Sleep => 0x5F,
            KeyCode::Numpad0 => 0x60,
            KeyCode::Numpad1 => 0x61,
            KeyCode::Numpad2 => 0x62,
            KeyCode::Numpad3 => 0x63,
            KeyCode::Numpad4 => 0x64,
            KeyCode::Numpad5 => 0x65,
            KeyCode::Numpad6 => 0x66,
            KeyCode::Numpad7 => 0x67,
            KeyCode::Numpad8 => 0x68,
            KeyCode::Numpad9 => 0x69,
            KeyCode::Multiply => 0x6A,
            KeyCode::Add => 0x6B,
            KeyCode::Separator => 0x6C,
            KeyCode::Subtract => 0x6D,
            KeyCode::Decimal => 0x6E,
            KeyCode::Divide => 0x6F,
            KeyCode::F1 => 0x70,
            KeyCode::F2 => 0x71,
            KeyCode::F3 => 0x72,
            KeyCode::F4 => 0x73,
            KeyCode::F5 => 0x74,
            KeyCode::F6 => 0x75,
            KeyCode::F7 => 0x76,
            KeyCode::F8 => 0x77,
            KeyCode::F9 => 0x78,
            KeyCode::F10 => 0x79,
            KeyCode::F11 => 0x7A,
            KeyCode::F12 => 0x7B,
            KeyCode::F13 => 0x7C,
            KeyCode::F14 => 0x7D,
            KeyCode::F15 => 0x7E,
            KeyCode::F16 => 0x7F,
            KeyCode::F17 => 0x80,
            KeyCode::F18 => 0x81,
            KeyCode::F19 => 0x82,
            KeyCode::F20 => 0x83,
            KeyCode::F21 => 0x84,
            KeyCode::F22 => 0x85,
            KeyCode::F23 => 0x86,
            KeyCode::F24 => 0x87,
            KeyCode::NumLock => 0x90,
            KeyCode::ScrollLock => 0x91,
            KeyCode::LeftShift => 0xA0,
            KeyCode::RightShift => 0xA1,
            KeyCode::LeftControl => 0xA2,
            KeyCode::RightControl => 0xA3,
            KeyCode::LeftAlt => 0xA4,
            KeyCode::RightAlt => 0xA5,
            KeyCode::BrowserBack => 0xA6,
            KeyCode::BrowserForward => 0xA7,
            KeyCode::BrowserRefresh => 0xA8,
            KeyCode::BrowserStop => 0xA9,
            KeyCode::BrowserSearch => 0xAA,
            KeyCode::BrowserFavorites => 0xAB,
            KeyCode::BrowserHome => 0xAC,
            KeyCode::VolumeMute => 0xAD,
            KeyCode::VolumeDown => 0xAE,
            KeyCode::VolumeUp => 0xAF,
            KeyCode::MediaNextTrack => 0xB0,
            KeyCode::MediaPreviousTrack => 0xB1,
            KeyCode::MediaStop => 0xB2,
            KeyCode::MediaPlayPause => 0xB3,
            KeyCode::Mail => 0xB4,
            KeyCode::MediaSelect => 0xB5,
            KeyCode::Application1 => 0xB6,
            KeyCode::Application2 => 0xB7,
            KeyCode::Colon => 0xBA,
            KeyCode::Plus => 0xBB,
            KeyCode::Comma => 0xBC,
            KeyCode::Minus => 0xBD,
            KeyCode::Period => 0xBE,
            KeyCode::Forwardslash => 0xBF,
            KeyCode::Squiggly => 0xC0,
            KeyCode::OpenBracket => 0xDB,
            KeyCode::Backslash => 0xDC,
            KeyCode::CloseBracket => 0xDD,
            KeyCode::Quote => 0xDE,
            KeyCode::Exclamation => 0xDF,
            KeyCode::ArrowBracket => 0xE2,
            KeyCode::IMEProcess => 0xE5,
            KeyCode::Unicode => 0xE7,
            KeyCode::Attn => 0xF6,
            KeyCode::CrSel => 0xF7,
            KeyCode::ExSel => 0xF8,
            KeyCode::ErEOF => 0xF9,
            KeyCode::Play => 0xFA,
            KeyCode::Zoom => 0xFB,
            KeyCode::NoName => 0xFC,
            KeyCode::PA1 => 0xFD,
            KeyCode::OEMClear => 0xFE,
        }
    }

    /// Looks up the key with the given virtual-key code. Codes that no tracked
    /// key has give `None`.
    pub fn from_vkey(vkey: u16) -> (r: Option<KeyCode>)
        ensures
            r == Self::of_virtual_key(vkey),
            match r {
                Some(code) => code.virtual_key() == vkey,
                None => forall|code: KeyCode| code.virtual_key() != vkey,
            },
    {
        let r = Self::lookup_vkey(vkey);
        proof {
            if let Some(code) = r {
                lemma_virtual_key_injective(code, Self::of_virtual_key(vkey).unwrap());
            }
        }
        r
    }

    fn lookup_vkey(vkey: u16) -> (r: Option<KeyCode>)
        ensures
            match r {
                Some(code) => code.virtual_key() == vkey,
                None => forall|code: KeyCode| code.virtual_key() != vkey,
            },
    {
        match vkey {
            0x01 => Some(KeyCode::LeftMouseButton),
            0x02 => Some(KeyCode::RightMouseButton),
            0x03 => Some(KeyCode::Cancel),
            0x04 => Some(KeyCode::MiddleMouseButton),
            0x05 => Some(KeyCode::MouseButton4),
            0x06 => Some(KeyCode::MouseButton5),
            0x08 => Some(KeyCode::Backspace),
            0x09 => Some(KeyCode::Tab),
            0x0C => Some(KeyCode::Clear),
            0x0D => Some(KeyCode::Return),
            0x10 => Some(KeyCode::Shift),
            0x11 => Some(KeyCode::Control),
            0x12 => Some(KeyCode::Alt),
            0x13 => Some(KeyCode::Pause),
            0x14 => Some(KeyCode::Caps),
            0x15 => Some(KeyCode::IMEKana),
            0x16 => Some(KeyCode::IMEOn),
            0x17 => Some(KeyCode::IMEJunja),
            0x18 => Some(KeyCode::IMEFinal),
            0x19 => Some(KeyCode::IMEKanji),
            0x1A => Some(KeyCode::IMEOff),
            0x1B => Some(KeyCode::Escape),
            0x1C => Some(KeyCode::IMEConvert),
            0x1D => Some(KeyCode::IMENonConvert),
            0x1E => Some(KeyCode::IMEAccept),
            0x1F => Some(KeyCode::IMEModeChange),
            0x20 => Some(KeyCode::Space),
            0x21 => Some(KeyCode::PageUp),
            0x22 => Some(KeyCode::PageDown),
            0x23 => Some(KeyCode::End),
            0x24 => Some(KeyCode::Home),
            0x25 => Some(KeyCode::Left),
            0x26 => Some(KeyCode::Up),
            0x27 => Some(KeyCode::Right),
            0x28 => Some(KeyCode::Down),
            0x29 => Some(KeyCode::Select),
            0x2A => Some(KeyCode::Print),
            0x2B => Some(KeyCode::Execute),
            0x2C => Some(KeyCode::PrintScreen),
            0x2D => Some(KeyCode::Insert),
            0x2E => Some(KeyCode::Delete),
            0x2F => Some(KeyCode::Help),
            0x30 => Some(KeyCode::Alpha0),
            0x31 => Some(KeyCode::Alpha1),
            0x32 => Some(KeyCode::Alpha2),
            0x33 => Some(KeyCode::Alpha3),
            0x34 => Some(KeyCode::Alpha4),
            0x35 => Some(KeyCode::Alpha5),
            0x36 => Some(KeyCode::Alpha6),
            0x37 => Some(KeyCode::Alpha7),
            0x38 => Some(KeyCode::Alpha8),
            0x39 => Some(KeyCode::Alpha9),
            0x41 => Some(KeyCode::A),
            0x42 => Some(KeyCode::B),
            0x43 => Some(KeyCode::C),
            0x44 => Some(KeyCode::D),
            0x45 => Some(KeyCode::E),
            0x46 => Some(KeyCode::F),
            0x47 => Some(KeyCode::G),
            0x48 => Some(KeyCode::H),
            0x49 => Some(KeyCode::I),
            0x4A => Some(KeyCode::J),
            0x4B => Some(KeyCode::K),
            0x4C => Some(KeyCode::L),
            0x4D => Some(KeyCode::M),
            0x4E => Some(KeyCode::N),
            0x4F => Some(KeyCode::O),
            0x50 => Some(KeyCode::P),
            0x51 => Some(KeyCode::Q),
            0x52 => Some(KeyCode::R),
            0x53 => Some(KeyCode::S),
            0x54 => Some(KeyCode::T),
            0x55 => Some(KeyCode::U),
            0x56 => Some(KeyCode::V),
            0x57 => Some(KeyCode::W),
            0x58 => Some(KeyCode::X),
            0x59 => Some(KeyCode::Y),
            0x5A => Some(KeyCode::Z),
            0x5B => Some(KeyCode::LeftWin),
            0x5C => Some(KeyCode::RightWin),
            0x5D => Some(KeyCode::Apps),
            0x5F => Some(KeyCode::Sleep),
            0x60 => Some(KeyCode::Numpad0),
            0x61 => Some(KeyCode::Numpad1),
            0x62 => Some(KeyCode::Numpad2),
            0x63 => Some(KeyCode::Numpad3),
            0x64 => Some(KeyCode::Numpad4),
            0x65 => Some(KeyCode::Numpad5),
            0x66 => Some(KeyCode::Numpad6),
            0x67 => Some(KeyCode::Numpad7),
            0x68 => Some(KeyCode::Numpad8),
            0x69 => Some(KeyCode::Numpad9),
            0x6A => Some(KeyCode::Multiply),
            0x6B => Some(KeyCode::Add),
            0x6C => Some(KeyCode::Separator),
            0x6D => Some(KeyCode::Subtract),
            0x6E => Some(KeyCode::Decimal),
            0x6F => Some(KeyCode::Divide),
            0x70 => Some(KeyCode::F1),
            0x71 => Some(KeyCode::F2),
            0x72 => Some(KeyCode::F3),
            0x73 => Some(KeyCode::F4),
            0x74 => Some(KeyCode::F5),
            0x75 => Some(KeyCode::F6),
            0x76 => Some(KeyCode::F7),
            0x77 => Some(KeyCode::F8),
            0x78 => Some(KeyCode::F9),
            0x79 => Some(KeyCode::F10),
            0x7A => Some(KeyCode::F11),
            0x7B => Some(KeyCode::F12),
            0x7C => Some(KeyCode::F13),
            0x7D => Some(KeyCode::F14),
            0x7E => Some(KeyCode::F15),
            0x7F => Some(KeyCode::F16),
            0x80 => Some(KeyCode::F17),
            0x81 => Some(KeyCode::F18),
            0x82 => Some(KeyCode::F19),
            0x83 => Some(KeyCode::F20),
            0x84 => Some(KeyCode::F21),
            0x85 => Some(KeyCode::F22),
            0x86 => Some(KeyCode::F23),
            0x87 => Some(KeyCode::F24),
            0x90 => Some(KeyCode::NumLock),
            0x91 => Some(KeyCode::ScrollLock),
            0xA0 => Some(KeyCode::LeftShift),
            0xA1 => Some(KeyCode::RightShift),
            0xA2 => Some(KeyCode::LeftControl),
            0xA3 => Some(KeyCode::RightControl),
            0xA4 => Some(KeyCode::LeftAlt),
            0xA5 => Some(KeyCode::RightAlt),
            0xA6 => Some(KeyCode::BrowserBack),
            0xA7 => Some(KeyCode::BrowserForward),
            0xA8 => Some(KeyCode::BrowserRefresh),
            0xA9 => Some(KeyCode::BrowserStop),
            0xAA => Some(KeyCode::BrowserSearch),
            0xAB => Some(KeyCode::BrowserFavorites),
            0xAC => Some(KeyCode::BrowserHome),
            0xAD => Some(KeyCode::VolumeMute),
            0xAE => Some(KeyCode::VolumeDown),
            0xAF => Some(KeyCode::VolumeUp),
            0xB0 => Some(KeyCode::MediaNextTrack),
            0xB1 => Some(KeyCode::MediaPreviousTrack),
            0xB2 => Some(KeyCode::MediaStop),
            0xB3 => Some(KeyCode::MediaPlayPause),
            0xB4 => Some(KeyCode::Mail),
            0xB5 => Some(KeyCode::MediaSelect),
            0xB6 => Some(KeyCode::Application1),
            0xB7 => Some(KeyCode::Application2),
            0xBA => Some(KeyCode::Colon),
            0xBB => Some(KeyCode::Plus),
            0xBC => Some(KeyCode::Comma),
            0xBD => Some(KeyCode::Minus),
            0xBE => Some(KeyCode::Period),
            0xBF => Some(KeyCode::Forwardslash),
            0xC0 => Some(KeyCode::Squiggly),
            0xDB => Some(KeyCode::OpenBracket),
            0xDC => Some(KeyCode::Backslash),
            0xDD => Some(KeyCode::CloseBracket),
            0xDE => Some(KeyCode::Quote),
            0xDF => Some(KeyCode::Exclamation),
            0xE2 => Some(KeyCode::ArrowBracket),
            0xE5 => Some(KeyCode::IMEProcess),
            0xE7 => Some(KeyCode::Unicode),
            0xF6 => Some(KeyCode::Attn),
            0xF7 => Some(KeyCode::CrSel),
            0xF8 => Some(KeyCode::ExSel),
            0xF9 => Some(KeyCode::ErEOF),
            0xFA => Some(KeyCode::Play),
            0xFB => Some(KeyCode::Zoom),
            0xFC => Some(KeyCode::NoName),
            0xFD => Some(KeyCode::PA1),
            0xFE => Some(KeyCode::OEMClear),
            _ => None,
        }
    }

    /// Looks up the mouse button that a raw-input button flag belongs to. Any
    /// value that is not exactly one of the ten button flags gives `None`.
    pub fn from_ri(ri: u32) -> (r: Option<KeyCode>)
        ensures
            r == Self::of_button_flag(ri),
    {
        if ri == RI_MOUSE_BUTTON_1_DOWN || ri == RI_MOUSE_BUTTON_1_UP {
            Some(KeyCode::LeftMouseButton)
        } else if ri == RI_MOUSE_BUTTON_2_DOWN || ri == RI_MOUSE_BUTTON_2_UP {
            Some(KeyCode::RightMouseButton)
        } else if ri == RI_MOUSE_BUTTON_3_DOWN || ri == RI_MOUSE_BUTTON_3_UP {
            Some(KeyCode::MiddleMouseButton)
        } else if ri == RI_MOUSE_BUTTON_4_DOWN || ri == RI_MOUSE_BUTTON_4_UP {
            Some(KeyCode::MouseButton4)
        } else if ri == RI_MOUSE_BUTTON_5_DOWN || ri == RI_MOUSE_BUTTON_5_UP {
            Some(KeyCode::MouseButton5)
        } else {
            None
        }
    }

    /// Returns the configuration name of this key.
    pub fn name(self) -> (r: &'static str)
        ensures
            r@ == self.config_name(),
    {
        match self {
            KeyCode::LeftMouseButton => "VK_LBUTTON",
            KeyCode::RightMouseButton => "VK_RBUTTON",
            KeyCode::Cancel => "VK_CANCEL",
            KeyCode::MiddleMouseButton => "VK_MBUTTON",
            KeyCode::MouseButton4 => "VK_XBUTTON1",
            KeyCode::MouseButton5 => "VK_XBUTTON2",
            KeyCode::Backspace => "VK_BACK",
            KeyCode::Tab => "VK_TAB",
            KeyCode::Clear => "VK_CLEAR",
            KeyCode::Return => "VK_RETURN",
            KeyCode::Shift => "VK_SHIFT",
            KeyCode::Control => "VK_CONTROL",
            KeyCode::Alt => "VK_MENU",
            KeyCode::Pause => "VK_PAUSE",
            KeyCode::Caps => "VK_CAPITAL",
            KeyCode::IMEKana => "VK_KANA",
            KeyCode::IMEOn => "VK_IME_ON",
            KeyCode::IMEJunja => "VK_JUNJA",
            KeyCode::IMEFinal => "VK_FINAL",
            KeyCode::IMEKanji => "VK_KANJI",
            KeyCode::IMEOff => "VK_IME_OFF",
            KeyCode::Escape => "VK_ESCAPE",
            KeyCode::IMEConvert => "VK_CONVERT",
            KeyCode::IMENonConvert => "VK_NONCONVERT",
            KeyCode::IMEAccept => "VK_ACCEPT",
            KeyCode::IMEModeChange => "VK_MODECHANGE",
            KeyCode::Space => "VK_SPACE",
            KeyCode::PageUp => "VK_PRIOR",
            KeyCode::PageDown => "VK_NEXT",
            KeyCode::End => "VK_END",
            KeyCode::Home => "VK_HOME",
            KeyCode::Left => "VK_LEFT",
            KeyCode::Up => "VK_UP",
            KeyCode::Right => "VK_RIGHT",
            KeyCode::Down => "VK_DOWN",
            KeyCode::Select => "VK_SELECT",
            KeyCode::Print => "VK_PRINT",
            KeyCode::Execute => "VK_EXECUTE",
            KeyCode::PrintScreen => "VK_SNAPSHOT",
            KeyCode::Insert => "VK_INSERT",
            KeyCode::Delete => "VK_DELETE",
            KeyCode::Help => "VK_HELP",
            KeyCode::Alpha0 => "VK_0",
            KeyCode::Alpha1 => "VK_1",
            KeyCode::Alpha2 => "VK_2",
            KeyCode::Alpha3 => "VK_3",
            KeyCode::Alpha4 => "VK_4",
            KeyCode::Alpha5 => "VK_5",
            KeyCode::Alpha6 => "VK_6",
            KeyCode::Alpha7 => "VK_7",
            KeyCode::Alpha8 => "VK_8",
            KeyCode::Alpha9 => "VK_9",
            KeyCode::A => "VK_A",
            KeyCode::B => "VK_B",
            KeyCode::C => "VK_C",
            KeyCode::D => "VK_D",
            KeyCode::E => "VK_E",
            KeyCode::F => "VK_F",
            KeyCode::G => "VK_G",
            KeyCode::H => "VK_H",
            KeyCode::I => "VK_I",
            KeyCode::J => "VK_J",
            KeyCode::K => "VK_K",
            KeyCode::L => "VK_L",
            KeyCode::M => "VK_M",
            KeyCode::N => "VK_N",
            KeyCode::O => "VK_O",
            KeyCode::P => "VK_P",
            KeyCode::Q => "VK_Q",
            KeyCode::R => "VK_R",
            KeyCode::S => "VK_S",
            KeyCode::T => "VK_T",
            KeyCode::U => "VK_U",
            KeyCode::V => "VK_V",
            KeyCode::W => "VK_W",
            KeyCode::X => "VK_X",
            KeyCode::Y => "VK_Y",
            KeyCode::Z => "VK_Z",
            KeyCode::LeftWin => "VK_LWIN",
            KeyCode::RightWin => "VK_RWIN",
            KeyCode::Apps => "VK_APPS",
            KeyCode::Sleep => "VK_SLEEP",
            KeyCode::Numpad0 => "VK_NUMPAD0",
            KeyCode::Numpad1 => "VK_NUMPAD1",
            KeyCode::Numpad2 => "VK_NUMPAD2",
            KeyCode::Numpad3 => "VK_NUMPAD3",
            KeyCode::Numpad4 => "VK_NUMPAD4",
            KeyCode::Numpad5 => "VK_NUMPAD5",
            KeyCode::Numpad6 => "VK_NUMPAD6",
            KeyCode::Numpad7 => "VK_NUMPAD7",
            KeyCode::Numpad8 => "VK_NUMPAD8",
            KeyCode::Numpad9 => "VK_NUMPAD9",
            KeyCode::Multiply => "VK_MULTIPLY",
            KeyCode::Add => "VK_ADD",
            KeyCode::Separator => "VK_SEPARATOR",
            KeyCode::Subtract => "VK_SUBTRACT",
            KeyCode::Decimal => "VK_DECIMAL",
            KeyCode::Divide => "VK_DIVIDE",
            KeyCode::F1 => "VK_F1",
            KeyCode::F2 => "VK_F2",
            KeyCode::F3 => "VK_F3",
            KeyCode::F4 => "VK_F4",
            KeyCode::F5 => "VK_F5",
            KeyCode::F6 => "VK_F6",
            KeyCode::F7 => "VK_F7",
            KeyCode::F8 => "VK_F8",
            KeyCode::F9 => "VK_F9",
            KeyCode::F10 => "VK_F10",
            KeyCode::F11 => "VK_F11",
            KeyCode::F12 => "VK_F12",
            KeyCode::F13 => "VK_F13",
            KeyCode::F14 => "VK_F14",
            KeyCode::F15 => "VK_F15",
            KeyCode::F16 => "VK_F16",
            KeyCode::F17 => "VK_F17",
            KeyCode::F18 => "VK_F18",
            KeyCode::F19 => "VK_F19",
            KeyCode::F20 => "VK_F20",
            KeyCode::F21 => "VK_F21",
            KeyCode::F22 => "VK_F22",
            KeyCode::F23 => "VK_F23",
            KeyCode::F24 => "VK_F24",
            KeyCode::NumLock => "VK_NUMLOCK",
            KeyCode::ScrollLock => "VK_SCROLL",
            KeyCode::LeftShift => "VK_LSHIFT",
            KeyCode::RightShift => "VK_RSHIFT",
            KeyCode::LeftControl => "VK_LCONTROL",
            KeyCode::RightControl => "VK_RCONTROL",
            KeyCode::LeftAlt => "VK_LMENU",
            KeyCode::RightAlt => "VK_RMENU",
            KeyCode::BrowserBack => "VK_BROWSER_BACK",
            KeyCode::BrowserForward => "VK_BROWSER_FORWARD",
            KeyCode::BrowserRefresh => "VK_BROWSER_REFRESH",
            KeyCode::BrowserStop => "VK_BROWSER_STOP",
            KeyCode::BrowserSearch => "VK_BROWSER_SEARCH",
            KeyCode::BrowserFavorites => "VK_BROWSER_FAVORITES",
            KeyCode::BrowserHome => "VK_BROWSER_HOME",
            KeyCode::VolumeMute => "VK_VOLUME_MUTE",
            KeyCode::VolumeDown => "VK_VOLUME_DOWN",
            KeyCode::VolumeUp => "VK_VOLUME_UP",
            KeyCode::MediaNextTrack => "VK_MEDIA_NEXT_TRACK",
            KeyCode::MediaPreviousTrack => "VK_MEDIA_PREV_TRACK",
            KeyCode::MediaStop => "VK_MEDIA_STOP",
            KeyCode::MediaPlayPause => "VK_MEDIA_PLAY_PAUSE",
            KeyCode::Mail => "VK_LAUNCH_MAIL",
            KeyCode::MediaSelect => "VK_LAUNCH_MEDIA_SELECT",
            KeyCode::Application1 => "VK_LAUNCH_APP1",
            KeyCode::Application2 => "VK_LAUNCH_APP2",
            KeyCode::Colon => "VK_OEM_1",
            KeyCode::Plus => "VK_OEM_PLUS",
            KeyCode::Comma => "VK_OEM_COMMA",
            KeyCode::Minus => "VK_OEM_MINUS",
            KeyCode::Period => "VK_OEM_PERIOD",
            KeyCode::Forwardslash => "VK_OEM_2",
            KeyCode::Squiggly => "VK_OEM_3",
            KeyCode::OpenBracket => "VK_OEM_4",
            KeyCode::Backslash => "VK_OEM_5",
            KeyCode::CloseBracket => "VK_OEM_6",
            KeyCode::Quote => "VK_OEM_7",
            KeyCode::Exclamation => "VK_OEM_8",
            KeyCode::ArrowBracket => "VK_OEM_102",
            KeyCode::IMEProcess => "VK_PROCESSKEY",
            KeyCode::Unicode => "VK_PACKET",
            KeyCode::Attn => "VK_ATTN",
            KeyCode::CrSel => "VK_CRSEL",
            KeyCode::ExSel => "VK_EXSEL",
            KeyCode::ErEOF => "VK_EREOF",
            KeyCode::Play => "VK_PLAY",
            KeyCode::Zoom => "VK_ZOOM",
            KeyCode::NoName => "VK_NONAME",
            KeyCode::PA1 => "VK_PA1",
            KeyCode::OEMClear => "VK_OEM_CLEAR",
        }
    }

    /// Returns the text shown to the user for this key.
    pub fn as_str(self) -> (r: &'static str)
        ensures
            r@ == self.label(),
    {
        match self {
            KeyCode::LeftMouseButton => "Left Mouse Button",
            KeyCode::RightMouseButton => "Right Mouse Button",
            KeyCode::Cancel => "Cancel",
            KeyCode::MiddleMouseButton => "Middle Mouse Button",
            KeyCode::MouseButton4 => "Mouse Button 4",
            KeyCode::MouseButton5 => "Mouse Button 5",
            KeyCode::Backspace => "Backspace",
            KeyCode::Tab => "Tab",
            KeyCode::Clear => "Clear",
            KeyCode::Return => "Enter",
            KeyCode::Shift => "Shift",
            KeyCode::Control => "Control",
            KeyCode::Alt => "Alt",
            KeyCode::Pause => "Pause",
            KeyCode::Caps => "Caps-lock",
            KeyCode::IMEKana => "IME Kana Mode",
            KeyCode::IMEOn => "IME On",
            KeyCode::IMEJunja => "IME Junja Mode",
            KeyCode::IMEFinal => "IME Final Mode",
            KeyCode::IMEKanji => "IME Kanji Mode",
            KeyCode::IMEOff => "IME Off",
            KeyCode::Escape => "Escape",
            KeyCode::IMEConvert => "IME Convert",
            KeyCode::IMENonConvert => "IME Non-Convert",
            KeyCode::IMEAccept => "IME Accept",
            KeyCode::IMEModeChange => "IME Mode Change Request",
            KeyCode::Space => "Spacebar",
            KeyCode::PageUp => "Page-Up",
            KeyCode::PageDown => "Page-Down",
            KeyCode::End => "End",
            KeyCode::Home => "Home",
            KeyCode::Left => "Left Arrow",
            KeyCode::Up => "Up Arrow",
            KeyCode::Right => "Right Arrow",
            KeyCode::Down => "Down Arrow",
            KeyCode::Select => "Select",
            KeyCode::Print => "Print",
            KeyCode::Execute => "Execute",
            KeyCode::PrintScreen => "Print-Screen",
            KeyCode::Insert => "Insert",
            KeyCode::Delete => "Delete",
            KeyCode::Help => "Help",
            KeyCode::Alpha0 => "Alpha 0",
            KeyCode::Alpha1 => "Alpha 1",
            KeyCode::Alpha2 => "Alpha 2",
            KeyCode::Alpha3 => "Alpha 3",
            KeyCode::Alpha4 => "Alpha 4",
            KeyCode::Alpha5 => "Alpha 5",
            KeyCode::Alpha6 => "Alpha 6",
            KeyCode::Alpha7 => "Alpha 7",
            KeyCode::Alpha8 => "Alpha 8",
            KeyCode::Alpha9 => "Alpha 9",
            KeyCode::A => "A",
            KeyCode::B => "B",
            KeyCode::C => "C",
            KeyCode::D => "D",
            KeyCode::E => "E",
            KeyCode::F => "F",
            KeyCode::G => "G",
            KeyCode::H => "H",
            KeyCode::I => "I",
            KeyCode::J => "J",
            KeyCode::K => "K",
            KeyCode::L => "L",
            KeyCode::M => "M",
            KeyCode::N => "N",
            KeyCode::O => "O",
            KeyCode::P => "P",
            KeyCode::Q => "Q",
            KeyCode::R => "R",
            KeyCode::S => "S",
            KeyCode::T => "T",
            KeyCode::U => "U",
            KeyCode::V => "V",
            KeyCode::W => "W",
            KeyCode::X => "X",
            KeyCode::Y => "Y",
            KeyCode::Z => "Z",
            KeyCode::LeftWin => "Left Windows",
            KeyCode::RightWin => "Right Windows",
            KeyCode::Apps => "Applications",
            KeyCode::Sleep => "Sleep",
            KeyCode::Numpad0 => "Numpad 0",
            KeyCode::Numpad1 => "Numpad 1",
            KeyCode::Numpad2 => "Numpad 2",
            KeyCode::Numpad3 => "Numpad 3",
            KeyCode::Numpad4 => "Numpad 4",
            KeyCode::Numpad5 => "Numpad 5",
            KeyCode::Numpad6 => "Numpad 6",
            KeyCode::Numpad7 => "Numpad 7",
            KeyCode::Numpad8 => "Numpad 8",
            KeyCode::Numpad9 => "Numpad 9",
            KeyCode::Multiply => "Multiply",
            KeyCode::Add => "Add",
            KeyCode::Separator => "Separator",
            KeyCode::Subtract => "Subtract",
            KeyCode::Decimal => "Decimal",
            KeyCode::Divide => "Divide",
            KeyCode::F1 => "F1",
            KeyCode::F2 => "F2",
            KeyCode::F3 => "F3",
            KeyCode::F4 => "F4",
            KeyCode::F5 => "F5",
            KeyCode::F6 => "F6",
            KeyCode::F7 => "F7",
            KeyCode::F8 => "F8",
            KeyCode::F9 => "F9",
            KeyCode::F10 => "F10",
            KeyCode::F11 => "F11",
            KeyCode::F12 => "F12",
            KeyCode::F13 => "F13",
            KeyCode::F14 => "F14",
            KeyCode::F15 => "F15",
            KeyCode::F16 => "F16",
            KeyCode::F17 => "F17",
            KeyCode::F18 => "F18",
            KeyCode::F19 => "F19",
            KeyCode::F20 => "F20",
            KeyCode::F21 => "F21",
            KeyCode::F22 => "F22",
            KeyCode::F23 => "F23",
            KeyCode::F24 => "F24",
            KeyCode::NumLock => "Num Lock",
            KeyCode::ScrollLock => "Scroll Lock",
            KeyCode::LeftShift => "Left Shift",
            KeyCode::RightShift => "Right Shift",
            KeyCode::LeftControl => "Left Control",
            KeyCode::RightControl => "RightControl",
            KeyCode::LeftAlt => "Left Alt",
            KeyCode::RightAlt => "Right Alt",
            KeyCode::BrowserBack => "Browser Back",
            KeyCode::BrowserForward => "Browser Forward",
            KeyCode::BrowserRefresh => "Browser Refresh",
            KeyCode::BrowserStop => "Browser Stop",
            KeyCode::BrowserSearch => "Browser Search",
            KeyCode::BrowserFavorites => "Browser Favorites",
            KeyCode::BrowserHome => "Browser Home",
            KeyCode::VolumeMute => "Volume Mute",
            KeyCode::VolumeDown => "Volume Down",
            KeyCode::VolumeUp => "Volume Up",
            KeyCode::MediaNextTrack => "Media Next Track",
            KeyCode::MediaPreviousTrack => "Media Previous Track",
            KeyCode::MediaStop => "Stop Media",
            KeyCode::MediaPlayPause => "Play/Pause Media",
            KeyCode::Mail => "Mail",
            KeyCode::MediaSelect => "Media Select",
            KeyCode::Application1 => "Application 1",
            KeyCode::Application2 => "Application 2",
            KeyCode::Colon => "Colon (;:) (US layout)",
            KeyCode::Plus => "Plus (+) (US layout)",
            KeyCode::Comma => "Comma (,) (US layout)",
            KeyCode::Minus => "Minus (-) (US layout)",
            KeyCode::Period => "Period (.) /US layout)",
            KeyCode::Forwardslash => "Forwardslash (/?) (US layout)",
            KeyCode::Squiggly => "Squiggly (`~) (US layout)",
            KeyCode::OpenBracket => "Open Bracket ([{) (US layout)",
            KeyCode::Backslash => "Backslash (\\|) (US layout)",
            KeyCode::CloseBracket => "Closed Bracket (]}) (US layout)",
            KeyCode::Quote => "Quote ('\") (US layout)",
            KeyCode::Exclamation => "Exclamation (\u{e22}\u{e07}!) (US layout))",
            KeyCode::ArrowBracket => "Arrow Brackets (<>) (US layout)",
            KeyCode::IMEProcess => "IME Process",
            KeyCode::Unicode => "Unicode Character",
            KeyCode::Attn => "Attn",
            KeyCode::CrSel => "CrSel",
            KeyCode::ExSel => "ExSel",
            KeyCode::ErEOF => "ErEOF",
            KeyCode::Play => "Play",
            KeyCode::Zoom => "Zoom",
            KeyCode::NoName => "No Name",
            KeyCode::PA1 => "PA1",
            KeyCode::OEMClear => "Clear",
        }
    }

    /// Returns the text shown to the user for this key as an owned string.
    pub fn to_string(&self) -> (r: String)
        ensures
            r@ == self.label(),
    {
        String::from_str(self.as_str())
    }

    /// Looks up a key by its configuration name. A text that is no key's name
    /// gives `None`.
    pub fn from_string(string: &str) -> (r: Option<KeyCode>)
        ensures
            r == Self::of_config_name(string@),
            match r {
                Some(code) => code.config_name() == string@,
                None => forall|code: KeyCode| code.config_name() != string@,
            },
    {
        let r = Self::lookup_name(string);
        proof {
            if let Some(code) = r {
                lemma_config_name_injective(code, Self::of_config_name(string@).unwrap());
            }
        }
        r
    }

    fn lookup_name(string: &str) -> (r: Option<KeyCode>)
        ensures
            match r {
                Some(code) => code.config_name() == string@,
                None => forall|code: KeyCode| code.config_name() != string@,
            },
    {
        if str_eq(string, "VK_LBUTTON") {
            Some(KeyCode::LeftMouseButton)
        } else if str_eq(string, "VK_RBUTTON") {
            Some(KeyCode::RightMouseButton)
        } else if str_eq(string, "VK_CANCEL") {
            Some(KeyCode::Cancel)
        } else if str_eq(string, "VK_MBUTTON") {
            Some(KeyCode::MiddleMouseButton)
        } else if str_eq(string, "VK_XBUTTON1") {
            Some(KeyCode::MouseButton4)
        } else if str_eq(string, "VK_XBUTTON2") {
            Some(KeyCode::MouseButton5)
        } else if str_eq(string, "VK_BACK") {
            Some(KeyCode::Backspace)
        } else if str_eq(string, "VK_TAB") {
            Some(KeyCode::Tab)
        } else if str_eq(string, "VK_CLEAR") {
            Some(KeyCode::Clear)
        } else if str_eq(string, "VK_RETURN") {
            Some(KeyCode::Return)
        } else if str_eq(string, "VK_SHIFT") {
            Some(KeyCode::Shift)
        } else if str_eq(string, "VK_CONTROL") {
            Some(KeyCode::Control)
        } else if str_eq(string, "VK_MENU") {
            Some(KeyCode::Alt)
        } else if str_eq(string, "VK_PAUSE") {
            Some(KeyCode::Pause)
        } else if str_eq(string, "VK_CAPITAL") {
            Some(KeyCode::Caps)
        } else if str_eq(string, "VK_KANA") {
            Some(KeyCode::IMEKana)
        } else if str_eq(string, "VK_IME_ON") {
            Some(KeyCode::IMEOn)
        } else if str_eq(string, "VK_JUNJA") {
            Some(KeyCode::IMEJunja)
        } else if str_eq(string, "VK_FINAL") {
            Some(KeyCode::IMEFinal)
        } else if str_eq(string, "VK_KANJI") {
            Some(KeyCode::IMEKanji)
        } else if str_eq(string, "VK_IME_OFF") {
            Some(KeyCode::IMEOff)
        } else if str_eq(string, "VK_ESCAPE") {
            Some(KeyCode::Escape)
        } else if str_eq(string, "VK_CONVERT") {
            Some(KeyCode::IMEConvert)
        } else if str_eq(string, "VK_NONCONVERT") {
            Some(KeyCode::IMENonConvert)
        } else if str_eq(string, "VK_ACCEPT") {
            Some(KeyCode::IMEAccept)
        } else if str_eq(string, "VK_MODECHANGE") {
            Some(KeyCode::IMEModeChange)
        } else if str_eq(string, "VK_SPACE") {
            Some(KeyCode::Space)
        } else if str_eq(string, "VK_PRIOR") {
            Some(KeyCode::PageUp)
        } else if str_eq(string, "VK_NEXT") {
            Some(KeyCode::PageDown)
        } else if str_eq(string, "VK_END") {
            Some(KeyCode::End)
        } else if str_eq(string, "VK_HOME") {
            Some(KeyCode::Home)
        } else if str_eq(string, "VK_LEFT") {
            Some(KeyCode::Left)
        } else if str_eq(string, "VK_UP") {
            Some(KeyCode::Up)
        } else if str_eq(string, "VK_RIGHT") {
            Some(KeyCode::Right)
        } else if str_eq(string, "VK_DOWN") {
            Some(KeyCode::Down)
        } else if str_eq(string, "VK_SELECT") {
            Some(KeyCode::Select)
        } else if str_eq(string, "VK_PRINT") {
            Some(KeyCode::Print)
        } else if str_eq(string, "VK_EXECUTE") {
            Some(KeyCode::Execute)
        } else if str_eq(string, "VK_SNAPSHOT") {
            Some(KeyCode::PrintScreen)
        } else if str_eq(string, "VK_INSERT") {
            Some(KeyCode::Insert)
        } else if str_eq(string, "VK_DELETE") {
            Some(KeyCode::Delete)
        } else if str_eq(string, "VK_HELP") {
            Some(KeyCode::Help)
        } else if str_eq(string, "VK_0") {
            Some(KeyCode::Alpha0)
        } else if str_eq(string, "VK_1") {
            Some(KeyCode::Alpha1)
        } else if str_eq(string, "VK_2") {
            Some(KeyCode::Alpha2)
        } else if str_eq(string, "VK_3") {
            Some(KeyCode::Alpha3)
        } else if str_eq(string, "VK_4") {
            Some(KeyCode::Alpha4)
        } else if str_eq(string, "VK_5") {
            Some(KeyCode::Alpha5)
        } else if str_eq(string, "VK_6") {
            Some(KeyCode::Alpha6)
        } else if str_eq(string, "VK_7") {
            Some(KeyCode::Alpha7)
        } else if str_eq(string, "VK_8") {
            Some(KeyCode::Alpha8)
        } else if str_eq(string, "VK_9") {
            Some(KeyCode::Alpha9)
        } else if str_eq(string, "VK_A") {
            Some(KeyCode::A)
        } else if str_eq(string, "VK_B") {
            Some(KeyCode::B)
        } else if str_eq(string, "VK_C") {
            Some(KeyCode::C)
        } else if str_eq(string, "VK_D") {
            Some(KeyCode::D)
        } else if str_eq(string, "VK_E") {
            Some(KeyCode::E)
        } else if str_eq(string, "VK_F") {
            Some(KeyCode::F)
        } else if str_eq(string, "VK_G") {
            Some(KeyCode::G)
        } else if str_eq(string, "VK_H") {
            Some(KeyCode::H)
        } else if str_eq(string, "VK_I") {
            Some(KeyCode::I)
        } else if str_eq(string, "VK_J") {
            Some(KeyCode::J)
        } else if str_eq(string, "VK_K") {
            Some(KeyCode::K)
        } else if str_eq(string, "VK_L") {
            Some(KeyCode::L)
        } else if str_eq(string, "VK_M") {
            Some(KeyCode::M)
        } else if str_eq(string, "VK_N") {
            Some(KeyCode::N)
        } else if str_eq(string, "VK_O") {
            Some(KeyCode::O)
        } else if str_eq(string, "VK_P") {
            Some(KeyCode::P)
        } else if str_eq(string, "VK_Q") {
            Some(KeyCode::Q)
        } else if str_eq(string, "VK_R") {
            Some(KeyCode::R)
        } else if str_eq(string, "VK_S") {
            Some(KeyCode::S)
        } else if str_eq(string, "VK_T") {
            Some(KeyCode::T)
        } else if str_eq(string, "VK_U") {
            Some(KeyCode::U)
        } else if str_eq(string, "VK_V") {
            Some(KeyCode::V)
        } else if str_eq(string, "VK_W") {
            Some(KeyCode::W)
        } else if str_eq(string, "VK_X") {
            Some(KeyCode::X)
        } else if str_eq(string, "VK_Y") {
            Some(KeyCode::Y)
        } else if str_eq(string, "VK_Z") {
            Some(KeyCode::Z)
        } else if str_eq(string, "VK_LWIN") {
            Some(KeyCode::LeftWin)
        } else if str_eq(string, "VK_RWIN") {
            Some(KeyCode::RightWin)
        } else if str_eq(string, "VK_APPS") {
            Some(KeyCode::Apps)
        } else if str_eq(string, "VK_SLEEP") {
            Some(KeyCode::Sleep)
        } else if str_eq(string, "VK_NUMPAD0") {
            Some(KeyCode::Numpad0)
        } else if str_eq(string, "VK_NUMPAD1") {
            Some(KeyCode::Numpad1)
        } else if str_eq(string, "VK_NUMPAD2") {
            Some(KeyCode::Numpad2)
        } else if str_eq(string, "VK_NUMPAD3") {
            Some(KeyCode::Numpad3)
        } else if str_eq(string, "VK_NUMPAD4") {
            Some(KeyCode::Numpad4)
        } else if str_eq(string, "VK_NUMPAD5") {
            Some(KeyCode::Numpad5)
        } else if str_eq(string, "VK_NUMPAD6") {
            Some(KeyCode::Numpad6)
        } else if str_eq(string, "VK_NUMPAD7") {
            Some(KeyCode::Numpad7)
        } else if str_eq(string, "VK_NUMPAD8") {
            Some(KeyCode::Numpad8)
        } else if str_eq(string, "VK_NUMPAD9") {
            Some(KeyCode::Numpad9)
        } else if str_eq(string, "VK_MULTIPLY") {
            Some(KeyCode::Multiply)
        } else if str_eq(string, "VK_ADD") {
            Some(KeyCode::Add)
        } else if str_eq(string, "VK_SEPARATOR") {
            Some(KeyCode::Separator)
        } else if str_eq(string, "VK_SUBTRACT") {
            Some(KeyCode::Subtract)
        } else if str_eq(string, "VK_DECIMAL") {
            Some(KeyCode::Decimal)
        } else if str_eq(string, "VK_DIVIDE") {
            Some(KeyCode::Divide)
        } else if str_eq(string, "VK_F1") {
            Some(KeyCode::F1)
        } else if str_eq(string, "VK_F2") {
            Some(KeyCode::F2)
        } else if str_eq(string, "VK_F3") {
            Some(KeyCode::F3)
        } else if str_eq(string, "VK_F4") {
            Some(KeyCode::F4)
        } else if str_eq(string, "VK_F5") {
            Some(KeyCode::F5)
        } else if str_eq(string, "VK_F6") {
            Some(KeyCode::F6)
        } else if str_eq(string, "VK_F7") {
            Some(KeyCode::F7)
        } else if str_eq(string, "VK_F8") {
            Some(KeyCode::F8)
        } else if str_eq(string, "VK_F9") {
            Some(KeyCode::F9)
        } else if str_eq(string, "VK_F10") {
            Some(KeyCode::F10)
        } else if str_eq(string, "VK_F11") {
            Some(KeyCode::F11)
        } else if str_eq(string, "VK_F12") {
            Some(KeyCode::F12)
        } else if str_eq(string, "VK_F13") {
            Some(KeyCode::F13)
        } else if str_eq(string, "VK_F14") {
            Some(KeyCode::F14)
        } else if str_eq(string, "VK_F15") {
            Some(KeyCode::F15)
        } else if str_eq(string, "VK_F16") {
            Some(KeyCode::F16)
        } else if str_eq(string, "VK_F17") {
            Some(KeyCode::F17)
        } else if str_eq(string, "VK_F18") {
            Some(KeyCode::F18)
        } else if str_eq(string, "VK_F19") {
            Some(KeyCode::F19)
        } else if str_eq(string, "VK_F20") {
            Some(KeyCode::F20)
        } else if str_eq(string, "VK_F21") {
            Some(KeyCode::F21)
        } else if str_eq(string, "VK_F22") {
            Some(KeyCode::F22)
        } else if str_eq(string, "VK_F23") {
            Some(KeyCode::F23)
        } else if str_eq(string, "VK_F24") {
            Some(KeyCode::F24)
        } else if str_eq(string, "VK_NUMLOCK") {
            Some(KeyCode::NumLock)
        } else if str_eq(string, "VK_SCROLL") {
            Some(KeyCode::ScrollLock)
        } else if str_eq(string, "VK_LSHIFT") {
            Some(KeyCode::LeftShift)
        } else if str_eq(string, "VK_RSHIFT") {
            Some(KeyCode::RightShift)
        } else if str_eq(string, "VK_LCONTROL") {
            Some(KeyCode::LeftControl)
        } else if str_eq(string, "VK_RCONTROL") {
            Some(KeyCode::RightControl)
        } else if str_eq(string, "VK_LMENU") {
            Some(KeyCode::LeftAlt)
        } else if str_eq(string, "VK_RMENU") {
            Some(KeyCode::RightAlt)
        } else if str_eq(string, "VK_BROWSER_BACK") {
            Some(KeyCode::BrowserBack)
        } else if str_eq(string, "VK_BROWSER_FORWARD") {
            Some(KeyCode::BrowserForward)
        } else if str_eq(string, "VK_BROWSER_REFRESH") {
            Some(KeyCode::BrowserRefresh)
        } else if str_eq(string, "VK_BROWSER_STOP") {
            Some(KeyCode::BrowserStop)
        } else if str_eq(string, "VK_BROWSER_SEARCH") {
            Some(KeyCode::BrowserSearch)
        } else if str_eq(string, "VK_BROWSER_FAVORITES") {
            Some(KeyCode::BrowserFavorites)
        } else if str_eq(string, "VK_BROWSER_HOME") {
            Some(KeyCode::BrowserHome)
        } else if str_eq(string, "VK_VOLUME_MUTE") {
            Some(KeyCode::VolumeMute)
        } else if str_eq(string, "VK_VOLUME_DOWN") {
            Some(KeyCode::VolumeDown)
        } else if str_eq(string, "VK_VOLUME_UP") {
            Some(KeyCode::VolumeUp)
        } else if str_eq(string, "VK_MEDIA_NEXT_TRACK") {
            Some(KeyCode::MediaNextTrack)
        } else if str_eq(string, "VK_MEDIA_PREV_TRACK") {
            Some(KeyCode::MediaPreviousTrack)
        } else if str_eq(string, "VK_MEDIA_STOP") {
            Some(KeyCode::MediaStop)
        } else if str_eq(string, "VK_MEDIA_PLAY_PAUSE") {
            Some(KeyCode::MediaPlayPause)
        } else if str_eq(string, "VK_LAUNCH_MAIL") {
            Some(KeyCode::Mail)
        } else if str_eq(string, "VK_LAUNCH_MEDIA_SELECT") {
            Some(KeyCode::MediaSelect)
        } else if str_eq(string, "VK_LAUNCH_APP1") {
            Some(KeyCode::Application1)
        } else if str_eq(string, "VK_LAUNCH_APP2") {
            Some(KeyCode::Application2)
        } else if str_eq(string, "VK_OEM_1") {
            Some(KeyCode::Colon)
        } else if str_eq(string, "VK_OEM_PLUS") {
            Some(KeyCode::Plus)
        } else if str_eq(string, "VK_OEM_COMMA") {
            Some(KeyCode::Comma)
        } else if str_eq(string, "VK_OEM_MINUS") {
            Some(KeyCode::Minus)
        } else if str_eq(string, "VK_OEM_PERIOD") {
            Some(KeyCode::Period)
        } else if str_eq(string, "VK_OEM_2") {
            Some(KeyCode::Forwardslash)
        } else if str_eq(string, "VK_OEM_3") {
            Some(KeyCode::Squiggly)
        } else if str_eq(string, "VK_OEM_4") {
            Some(KeyCode::OpenBracket)
        } else if str_eq(string, "VK_OEM_5") {
            Some(KeyCode::Backslash)
        } else if str_eq(string, "VK_OEM_6") {
            Some(KeyCode::CloseBracket)
        } else if str_eq(string, "VK_OEM_7") {
            Some(KeyCode::Quote)
        } else if str_eq(string, "VK_OEM_8") {
            Some(KeyCode::Exclamation)
        } else if str_eq(string, "VK_OEM_102") {
            Some(KeyCode::ArrowBracket)
        } else if str_eq(string, "VK_PROCESSKEY") {
            Some(KeyCode::IMEProcess)
        } else if str_eq(string, "VK_PACKET") {
            Some(KeyCode::Unicode)
        } else if str_eq(string, "VK_ATTN") {
            Some(KeyCode::Attn)
        } else if str_eq(string, "VK_CRSEL") {
            Some(KeyCode::CrSel)
        } else if str_eq(string, "VK_EXSEL") {
            Some(KeyCode::ExSel)
        } else if str_eq(string, "VK_EREOF") {
            Some(KeyCode::ErEOF)
        } else if str_eq(string, "VK_PLAY") {
            Some(KeyCode::Play)
        } else if str_eq(string, "VK_ZOOM") {
            Some(KeyCode::Zoom)
        } else if str_eq(string, "VK_NONAME") {
            Some(KeyCode::NoName)
        } else if str_eq(string, "VK_PA1") {
            Some(KeyCode::PA1)
        } else if str_eq(string, "VK_OEM_CLEAR") {
            Some(KeyCode::OEMClear)
        } else {
            None
        }
    }
}

/// A number that is different for different configuration names: it is made
/// of the length of the name, its last two characters, its fourth and its
/// tenth character. Names of fewer than four characters have none.
spec fn name_mark(name: Seq<char>) -> int {
    if name.len() < 4 {
        -1
    } else {
        name.len() * 0x1_0000_0000 + (name[name.len() - 1] as int) * 0x100_0000 + (name[name.len()
            - 2] as int) * 0x1_0000 + (name[3] as int) * 0x100 + (if name.len() > 9 {
            name[9] as int
        } else {
            0
        })
    }
}

/// The mark of the configuration name of each key.
spec fn mark_of(code: KeyCode) -> int {
    match code {
        KeyCode::LeftMouseButton => 0xA4E4F4C4E,
        KeyCode::RightMouseButton => 0xA4E4F524E,
        KeyCode::Cancel => 0x94C454300,
        KeyCode::MiddleMouseButton => 0xA4E4F4D4E,
        KeyCode::MouseButton4 => 0xB314E584E,
        KeyCode::MouseButton5 => 0xB324E584E,
        KeyCode::Backspace => 0x74B434200,
        KeyCode::Tab => 0x642415400,
        KeyCode::Clear => 0x852414300,
        KeyCode::Return => 0x94E525200,
        KeyCode::Shift => 0x854465300,
        KeyCode::Control => 0xA4C4F434C,
        KeyCode::Alt => 0x7554E4D00,
        KeyCode::Pause => 0x845535000,
        KeyCode::Caps => 0xA4C41434C,
        KeyCode::IMEKana => 0x7414E4B00,
        KeyCode::IMEOn => 0x94E4F4900,
        KeyCode::IMEJunja => 0x8414A4A00,
        KeyCode::IMEFinal => 0x84C414600,
        KeyCode::IMEKanji => 0x8494A4B00,
        KeyCode::IMEOff => 0xA46464946,
        KeyCode::Escape => 0x945504500,
        KeyCode::IMEConvert => 0xA54524354,
        KeyCode::IMENonConvert => 0xD54524E56,
        KeyCode::IMEAccept => 0x954504100,
        KeyCode::IMEModeChange => 0xD45474D41,
        KeyCode::Space => 0x845435300,
        KeyCode::PageUp => 0x8524F5000,
        KeyCode::PageDown => 0x754584E00,
        KeyCode::End => 0x6444E4500,
        KeyCode::Home => 0x7454D4800,
        KeyCode::Left => 0x754464C00,
        KeyCode::Up => 0x550555500,
        KeyCode::Right => 0x854485200,
        KeyCode::Down => 0x74E574400,
        KeyCode::Select => 0x954435300,
        KeyCode::Print => 0x8544E5000,
        KeyCode::Execute => 0xA45544545,
        KeyCode::PrintScreen => 0xB544F534F,
        KeyCode::Insert => 0x954524900,
        KeyCode::Delete => 0x945544400,
        KeyCode::Help => 0x7504C4800,
        KeyCode::Alpha0 => 0x4305F3000,
        KeyCode::Alpha1 => 0x4315F3100,
        KeyCode::Alpha2 => 0x4325F3200,
        KeyCode::Alpha3 => 0x4335F3300,
        KeyCode::Alpha4 => 0x4345F3400,
        KeyCode::Alpha5 => 0x4355F3500,
        KeyCode::Alpha6 => 0x4365F3600,
        KeyCode::Alpha7 => 0x4375F3700,
        KeyCode::Alpha8 => 0x4385F3800,
        KeyCode::Alpha9 => 0x4395F3900,
        KeyCode::A => 0x4415F4100,
        KeyCode::B => 0x4425F4200,
        KeyCode::C => 0x4435F4300,
        KeyCode::D => 0x4445F4400,
        KeyCode::E => 0x4455F4500,
        KeyCode::F => 0x4465F4600,
        KeyCode::G => 0x4475F4700,
        KeyCode::H => 0x4485F4800,
        KeyCode::I => 0x4495F4900,
        KeyCode::J => 0x44A5F4A00,
        KeyCode::K => 0x44B5F4B00,
        KeyCode::L => 0x44C5F4C00,
        KeyCode::M => 0x44D5F4D00,
        KeyCode::N => 0x44E5F4E00,
        KeyCode::O => 0x44F5F4F00,
        KeyCode::P => 0x4505F5000,
        KeyCode::Q => 0x4515F5100,
        KeyCode::R => 0x4525F5200,
        KeyCode::S => 0x4535F5300,
        KeyCode::T => 0x4545F5400,
        KeyCode::U => 0x4555F5500,
        KeyCode::V => 0x4565F5600,
        KeyCode::W => 0x4575F5700,
        KeyCode::X => 0x4585F5800,
        KeyCode::Y => 0x4595F5900,
        KeyCode::Z => 0x45A5F5A00,
        KeyCode::LeftWin => 0x74E494C00,
        KeyCode::RightWin => 0x74E495200,
        KeyCode::Apps => 0x753504100,
        KeyCode::Sleep => 0x850455300,
        KeyCode::Numpad0 => 0xA30444E30,
        KeyCode::Numpad1 => 0xA31444E31,
        KeyCode::Numpad2 => 0xA32444E32,
        KeyCode::Numpad3 => 0xA33444E33,
        KeyCode::Numpad4 => 0xA34444E34,
        KeyCode::Numpad5 => 0xA35444E35,
        KeyCode::Numpad6 => 0xA36444E36,
        KeyCode::Numpad7 => 0xA37444E37,
        KeyCode::Numpad8 => 0xA38444E38,
        KeyCode::Numpad9 => 0xA39444E39,
        KeyCode::Multiply => 0xB594C4D4C,
        KeyCode::Add => 0x644444100,
        KeyCode::Separator => 0xC524F5354,
        KeyCode::Subtract => 0xB54435343,
        KeyCode::Decimal => 0xA4C41444C,
        KeyCode::Divide => 0x945444400,
        KeyCode::F1 => 0x531464600,
        KeyCode::F2 => 0x532464600,
        KeyCode::F3 => 0x533464600,
        KeyCode::F4 => 0x534464600,
        KeyCode::F5 => 0x535464600,
        KeyCode::F6 => 0x536464600,
        KeyCode::F7 => 0x537464600,
        KeyCode::F8 => 0x538464600,
        KeyCode::F9 => 0x539464600,
        KeyCode::F10 => 0x630314600,
        KeyCode::F11 => 0x631314600,
        KeyCode::F12 => 0x632314600,
        KeyCode::F13 => 0x633314600,
        KeyCode::F14 => 0x634314600,
        KeyCode::F15 => 0x635314600,
        KeyCode::F16 => 0x636314600,
        KeyCode::F17 => 0x637314600,
        KeyCode::F18 => 0x638314600,
        KeyCode::F19 => 0x639314600,
        KeyCode::F20 => 0x630324600,
        KeyCode::F21 => 0x631324600,
        KeyCode::F22 => 0x632324600,
        KeyCode::F23 => 0x633324600,
        KeyCode::F24 => 0x634324600,
        KeyCode::NumLock => 0xA4B434E4B,
        KeyCode::ScrollLock => 0x94C4C5300,
        KeyCode::LeftShift => 0x954464C00,
        KeyCode::RightShift => 0x954465200,
        KeyCode::LeftControl => 0xB4C4F4C4F,
        KeyCode::RightControl => 0xB4C4F524F,
        KeyCode::LeftAlt => 0x8554E4C00,
        KeyCode::RightAlt => 0x8554E5200,
        KeyCode::BrowserBack => 0xF4B434252,
        KeyCode::BrowserForward => 0x1244524252,
        KeyCode::BrowserRefresh => 0x1248534252,
        KeyCode::BrowserStop => 0xF504F4252,
        KeyCode::BrowserSearch => 0x1148434252,
        KeyCode::BrowserFavorites => 0x1453454252,
        KeyCode::BrowserHome => 0xF454D4252,
        KeyCode::VolumeMute => 0xE4554565F,
        KeyCode::VolumeDown => 0xE4E57565F,
        KeyCode::VolumeUp => 0xC5055565F,
        KeyCode::MediaNextTrack => 0x134B434D4E,
        KeyCode::MediaPreviousTrack => 0x134B434D50,
        KeyCode::MediaStop => 0xD504F4D53,
        KeyCode::MediaPlayPause => 0x1345534D50,
        KeyCode::Mail => 0xE4C494C5F,
        KeyCode::MediaSelect => 0x1654434C5F,
        KeyCode::Application1 => 0xE31504C5F,
        KeyCode::Application2 => 0xE32504C5F,
        KeyCode::Colon => 0x8315F4F00,
        KeyCode::Plus => 0xB53554F55,
        KeyCode::Comma => 0xC414D4F4D,
        KeyCode::Minus => 0xC53554F4E,
        KeyCode::Period => 0xD444F4F52,
        KeyCode::Forwardslash => 0x8325F4F00,
        KeyCode::Squiggly => 0x8335F4F00,
        KeyCode::OpenBracket => 0x8345F4F00,
        KeyCode::Backslash => 0x8355F4F00,
        KeyCode::CloseBracket => 0x8365F4F00,
        KeyCode::Quote => 0x8375F4F00,
        KeyCode::Exclamation => 0x8385F4F00,
        KeyCode::ArrowBracket => 0xA32304F32,
        KeyCode::IMEProcess => 0xD59455053,
        KeyCode::Unicode => 0x954455000,
        KeyCode::Attn => 0x74E544100,
        KeyCode::CrSel => 0x84C454300,
        KeyCode::ExSel => 0x84C454500,
        KeyCode::ErEOF => 0x8464F4500,
        KeyCode::Play => 0x759415000,
        KeyCode::Zoom => 0x74D4F5A00,
        KeyCode::NoName => 0x9454D4E00,
        KeyCode::PA1 => 0x631415000,
        KeyCode::OEMClear => 0xC52414F45,
    }
}

proof fn lemma_name_mark(code: KeyCode)
    ensures
        name_mark(code.config_name()) == mark_of(code),
{
    match code {
        KeyCode::LeftMouseButton => {
            reveal_strlit("VK_LBUTTON");
        },
        KeyCode::RightMouseButton => {
            reveal_strlit("VK_RBUTTON");
        },
        KeyCode::Cancel => {
            reveal_strlit("VK_CANCEL");
        },
        KeyCode::MiddleMouseButton => {
            reveal_strlit("VK_MBUTTON");
        },
        KeyCode::MouseButton4 => {
            reveal_strlit("VK_XBUTTON1");
        },
        KeyCode::MouseButton5 => {
            reveal_strlit("VK_XBUTTON2");
        },
        KeyCode::Backspace => {
            reveal_strlit("VK_BACK");
        },
        KeyCode::Tab => {
            reveal_strlit("VK_TAB");
        },
        KeyCode::Clear => {
            reveal_strlit("VK_CLEAR");
        },
        KeyCode::Return => {
            reveal_strlit("VK_RETURN");
        },
        KeyCode::Shift => {
            reveal_strlit("VK_SHIFT");
        },
        KeyCode::Control => {
            reveal_strlit("VK_CONTROL");
        },
        KeyCode::Alt => {
            reveal_strlit("VK_MENU");
        },
        KeyCode::Pause => {
            reveal_strlit("VK_PAUSE");
        },
        KeyCode::Caps => {
            reveal_strlit("VK_CAPITAL");
        },
        KeyCode::IMEKana => {
            reveal_strlit("VK_KANA");
        },
        KeyCode::IMEOn => {
            reveal_strlit("VK_IME_ON");
        },
        KeyCode::IMEJunja => {
            reveal_strlit("VK_JUNJA");
        },
        KeyCode::IMEFinal => {
            reveal_strlit("VK_FINAL");
        },
        KeyCode::IMEKanji => {
            reveal_strlit("VK_KANJI");
        },
        KeyCode::IMEOff => {
            reveal_strlit("VK_IME_OFF");
        },
        KeyCode::Escape => {
            reveal_strlit("VK_ESCAPE");
        },
        KeyCode::IMEConvert => {
            reveal_strlit("VK_CONVERT");
        },
        KeyCode::IMENonConvert => {
            reveal_strlit("VK_NONCONVERT");
        },
        KeyCode::IMEAccept => {
            reveal_strlit("VK_ACCEPT");
        },
        KeyCode::IMEModeChange => {
            reveal_strlit("VK_MODECHANGE");
        },
        KeyCode::Space => {
            reveal_strlit("VK_SPACE");
        },
        KeyCode::PageUp => {
            reveal_strlit("VK_PRIOR");
        },
        KeyCode::PageDown => {
            reveal_strlit("VK_NEXT");
        },
        KeyCode::End => {
            reveal_strlit("VK_END");
        },
        KeyCode::Home => {
            reveal_strlit("VK_HOME");
        },
        KeyCode::Left => {
            reveal_strlit("VK_LEFT");
        },
        KeyCode::Up => {
            reveal_strlit("VK_UP");
        },
        KeyCode::Right => {
            reveal_strlit("VK_RIGHT");
        },
        KeyCode::Down => {
            reveal_strlit("VK_DOWN");
        },
        KeyCode::Select => {
            reveal_strlit("VK_SELECT");
        },
        KeyCode::Print => {
            reveal_strlit("VK_PRINT");
        },
        KeyCode::Execute => {
            reveal_strlit("VK_EXECUTE");
        },
        KeyCode::PrintScreen => {
            reveal_strlit("VK_SNAPSHOT");
        },
        KeyCode::Insert => {
            reveal_strlit("VK_INSERT");
        },
        KeyCode::Delete => {
            reveal_strlit("VK_DELETE");
        },
        KeyCode::Help => {
            reveal_strlit("VK_HELP");
        },
        KeyCode::Alpha0 => {
            reveal_strlit("VK_0");
        },
        KeyCode::Alpha1 => {
            reveal_strlit("VK_1");
        },
        KeyCode::Alpha2 => {
            reveal_strlit("VK_2");
        },
        KeyCode::Alpha3 => {
            reveal_strlit("VK_3");
        },
        KeyCode::Alpha4 => {
            reveal_strlit("VK_4");
        },
        KeyCode::Alpha5 => {
            reveal_strlit("VK_5");
        },
        KeyCode::Alpha6 => {
            reveal_strlit("VK_6");
        },
        KeyCode::Alpha7 => {
            reveal_strlit("VK_7");
        },
        KeyCode::Alpha8 => {
            reveal_strlit("VK_8");
        },
        KeyCode::Alpha9 => {
            reveal_strlit("VK_9");
        },
        KeyCode::A => {
            reveal_strlit("VK_A");
        },
        KeyCode::B => {
            reveal_strlit("VK_B");
        },
        KeyCode::C => {
            reveal_strlit("VK_C");
        },
        KeyCode::D => {
            reveal_strlit("VK_D");
        },
        KeyCode::E => {
            reveal_strlit("VK_E");
        },
        KeyCode::F => {
            reveal_strlit("VK_F");
        },
        KeyCode::G => {
            reveal_strlit("VK_G");
        },
        KeyCode::H => {
            reveal_strlit("VK_H");
        },
        KeyCode::I => {
            reveal_strlit("VK_I");
        },
        KeyCode::J => {
            reveal_strlit("VK_J");
        },
        KeyCode::K => {
            reveal_strlit("VK_K");
        },
        KeyCode::L => {
            reveal_strlit("VK_L");
        },
        KeyCode::M => {
            reveal_strlit("VK_M");
        },
        KeyCode::N => {
            reveal_strlit("VK_N");
        },
        KeyCode::O => {
            reveal_strlit("VK_O");
        },
        KeyCode::P => {
            reveal_strlit("VK_P");
        },
        KeyCode::Q => {
            reveal_strlit("VK_Q");
        },
        KeyCode::R => {
            reveal_strlit("VK_R");
        },
        KeyCode::S => {
            reveal_strlit("VK_S");
        },
        KeyCode::T => {
            reveal_strlit("VK_T");
        },
        KeyCode::U => {
            reveal_strlit("VK_U");
        },
        KeyCode::V => {
            reveal_strlit("VK_V");
        },
        KeyCode::W => {
            reveal_strlit("VK_W");
        },
        KeyCode::X => {
            reveal_strlit("VK_X");
        },
        KeyCode::Y => {
            reveal_strlit("VK_Y");
        },
        KeyCode::Z => {
            reveal_strlit("VK_Z");
        },
        KeyCode::LeftWin => {
            reveal_strlit("VK_LWIN");
        },
        KeyCode::RightWin => {
            reveal_strlit("VK_RWIN");
        },
        KeyCode::Apps => {
            reveal_strlit("VK_APPS");
        },
        KeyCode::Sleep => {
            reveal_strlit("VK_SLEEP");
        },
        KeyCode::Numpad0 => {
            reveal_strlit("VK_NUMPAD0");
        },
        KeyCode::Numpad1 => {
            reveal_strlit("VK_NUMPAD1");
        },
        KeyCode::Numpad2 => {
            reveal_strlit("VK_NUMPAD2");
        },
        KeyCode::Numpad3 => {
            reveal_strlit("VK_NUMPAD3");
        },
        KeyCode::Numpad4 => {
            reveal_strlit("VK_NUMPAD4");
        },
        KeyCode::Numpad5 => {
            reveal_strlit("VK_NUMPAD5");
        },
        KeyCode::Numpad6 => {
            reveal_strlit("VK_NUMPAD6");
        },
        KeyCode::Numpad7 => {
            reveal_strlit("VK_NUMPAD7");
        },
        KeyCode::Numpad8 => {
            reveal_strlit("VK_NUMPAD8");
        },
        KeyCode::Numpad9 => {
            reveal_strlit("VK_NUMPAD9");
        },
        KeyCode::Multiply => {
            reveal_strlit("VK_MULTIPLY");
        },
        KeyCode::Add => {
            reveal_strlit("VK_ADD");
        },
        KeyCode::Separator => {
            reveal_strlit("VK_SEPARATOR");
        },
        KeyCode::Subtract => {
            reveal_strlit("VK_SUBTRACT");
        },
        KeyCode::Decimal => {
            reveal_strlit("VK_DECIMAL");
        },
        KeyCode::Divide => {
            reveal_strlit("VK_DIVIDE");
        },
        KeyCode::F1 => {
            reveal_strlit("VK_F1");
        },
        KeyCode::F2 => {
            reveal_strlit("VK_F2");
        },
        KeyCode::F3 => {
            reveal_strlit("VK_F3");
        },
        KeyCode::F4 => {
            reveal_strlit("VK_F4");
        },
        KeyCode::F5 => {
            reveal_strlit("VK_F5");
        },
        KeyCode::F6 => {
            reveal_strlit("VK_F6");
        },
        KeyCode::F7 => {
            reveal_strlit("VK_F7");
        },
        KeyCode::F8 => {
            reveal_strlit("VK_F8");
        },
        KeyCode::F9 => {
            reveal_strlit("VK_F9");
        },
        KeyCode::F10 => {
            reveal_strlit("VK_F10");
        },
        KeyCode::F11 => {
            reveal_strlit("VK_F11");
        },
        KeyCode::F12 => {
            reveal_strlit("VK_F12");
        },
        KeyCode::F13 => {
            reveal_strlit("VK_F13");
        },
        KeyCode::F14 => {
            reveal_strlit("VK_F14");
        },
        KeyCode::F15 => {
            reveal_strlit("VK_F15");
        },
        KeyCode::F16 => {
            reveal_strlit("VK_F16");
        },
        KeyCode::F17 => {
            reveal_strlit("VK_F17");
        },
        KeyCode::F18 => {
            reveal_strlit("VK_F18");
        },
        KeyCode::F19 => {
            reveal_strlit("VK_F19");
        },
        KeyCode::F20 => {
            reveal_strlit("VK_F20");
        },
        KeyCode::F21 => {
            reveal_strlit("VK_F21");
        },
        KeyCode::F22 => {
            reveal_strlit("VK_F22");
        },
        KeyCode::F23 => {
            reveal_strlit("VK_F23");
        },
        KeyCode::F24 => {
            reveal_strlit("VK_F24");
        },
        KeyCode::NumLock => {
            reveal_strlit("VK_NUMLOCK");
        },
        KeyCode::ScrollLock => {
            reveal_strlit("VK_SCROLL");
        },
        KeyCode::LeftShift => {
            reveal_strlit("VK_LSHIFT");
        },
        KeyCode::RightShift => {
            reveal_strlit("VK_RSHIFT");
        },
        KeyCode::LeftControl => {
            reveal_strlit("VK_LCONTROL");
        },
        KeyCode::RightControl => {
            reveal_strlit("VK_RCONTROL");
        },
        KeyCode::LeftAlt => {
            reveal_strlit("VK_LMENU");
        },
        KeyCode::RightAlt => {
            reveal_strlit("VK_RMENU");
        },
        KeyCode::BrowserBack => {
            reveal_strlit("VK_BROWSER_BACK");
        },
        KeyCode::BrowserForward => {
            reveal_strlit("VK_BROWSER_FORWARD");
        },
        KeyCode::BrowserRefresh => {
            reveal_strlit("VK_BROWSER_REFRESH");
        },
        KeyCode::BrowserStop => {
            reveal_strlit("VK_BROWSER_STOP");
        },
        KeyCode::BrowserSearch => {
            reveal_strlit("VK_BROWSER_SEARCH");
        },
        KeyCode::BrowserFavorites => {
            reveal_strlit("VK_BROWSER_FAVORITES");
        },
        KeyCode::BrowserHome => {
            reveal_strlit("VK_BROWSER_HOME");
        },
        KeyCode::VolumeMute => {
            reveal_strlit("VK_VOLUME_MUTE");
        },
        KeyCode::VolumeDown => {
            reveal_strlit("VK_VOLUME_DOWN");
        },
        KeyCode::VolumeUp => {
            reveal_strlit("VK_VOLUME_UP");
        },
        KeyCode::MediaNextTrack => {
            reveal_strlit("VK_MEDIA_NEXT_TRACK");
        },
        KeyCode::MediaPreviousTrack => {
            reveal_strlit("VK_MEDIA_PREV_TRACK");
        },
        KeyCode::MediaStop => {
            reveal_strlit("VK_MEDIA_STOP");
        },
        KeyCode::MediaPlayPause => {
            reveal_strlit("VK_MEDIA_PLAY_PAUSE");
        },
        KeyCode::Mail => {
            reveal_strlit("VK_LAUNCH_MAIL");
        },
        KeyCode::MediaSelect => {
            reveal_strlit("VK_LAUNCH_MEDIA_SELECT");
        },
        KeyCode::Application1 => {
            reveal_strlit("VK_LAUNCH_APP1");
        },
        KeyCode::Application2 => {
            reveal_strlit("VK_LAUNCH_APP2");
        },
        KeyCode::Colon => {
            reveal_strlit("VK_OEM_1");
        },
        KeyCode::Plus => {
            reveal_strlit("VK_OEM_PLUS");
        },
        KeyCode::Comma => {
            reveal_strlit("VK_OEM_COMMA");
        },
        KeyCode::Minus => {
            reveal_strlit("VK_OEM_MINUS");
        },
        KeyCode::Period => {
            reveal_strlit("VK_OEM_PERIOD");
        },
        KeyCode::Forwardslash => {
            reveal_strlit("VK_OEM_2");
        },
        KeyCode::Squiggly => {
            reveal_strlit("VK_OEM_3");
        },
        KeyCode::OpenBracket => {
            reveal_strlit("VK_OEM_4");
        },
        KeyCode::Backslash => {
            reveal_strlit("VK_OEM_5");
        },
        KeyCode::CloseBracket => {
            reveal_strlit("VK_OEM_6");
        },
        KeyCode::Quote => {
            reveal_strlit("VK_OEM_7");
        },
        KeyCode::Exclamation => {
            reveal_strlit("VK_OEM_8");
        },
        KeyCode::ArrowBracket => {
            reveal_strlit("VK_OEM_102");
        },
        KeyCode::IMEProcess => {
            reveal_strlit("VK_PROCESSKEY");
        },
        KeyCode::Unicode => {
            reveal_strlit("VK_PACKET");
        },
        KeyCode::Attn => {
            reveal_strlit("VK_ATTN");
        },
        KeyCode::CrSel => {
            reveal_strlit("VK_CRSEL");
        },
        KeyCode::ExSel => {
            reveal_strlit("VK_EXSEL");
        },
        KeyCode::ErEOF => {
            reveal_strlit("VK_EREOF");
        },
        KeyCode::Play => {
            reveal_strlit("VK_PLAY");
        },
        KeyCode::Zoom => {
            reveal_strlit("VK_ZOOM");
        },
        KeyCode::NoName => {
            reveal_strlit("VK_NONAME");
        },
        KeyCode::PA1 => {
            reveal_strlit("VK_PA1");
        },
        KeyCode::OEMClear => {
            reveal_strlit("VK_OEM_CLEAR");
        },
    }
}

proof fn lemma_mark_injective(a: KeyCode, b: KeyCode)
    requires
        mark_of(a) == mark_of(b),
    ensures
        a == b,
{
}

/// Two keys with the same configuration name are the same key.
pub proof fn lemma_config_name_injective(a: KeyCode, b: KeyCode)
    requires
        a.config_name() == b.config_name(),
    ensures
        a == b,
{
    lemma_name_mark(a);
    lemma_name_mark(b);
    lemma_mark_injective(a, b);
}

/// The keys are totally ordered by their virtual-key codes: of two different
/// keys one has the smaller code.
pub proof fn lemma_ordered_by_virtual_key(a: KeyCode, b: KeyCode)
    ensures
        a != b ==> (a.virtual_key() < b.virtual_key()) != (b.virtual_key() < a.virtual_key()),
        a == b <==> a.virtual_key() == b.virtual_key(),
{
    if a.virtual_key() == b.virtual_key() {
        lemma_virtual_key_injective(a, b);
    }
}

/// The configuration name of a key leads back to the key, and so does its
/// virtual-key code.
pub proof fn lemma_key_round_trip(code: KeyCode)
    ensures
        KeyCode::of_config_name(code.config_name()) == Some(code),
        KeyCode::of_virtual_key(code.virtual_key()) == Some(code),
{
    let by_name = choose|other: KeyCode| other.config_name() == code.config_name();
    lemma_config_name_injective(by_name, code);
    let by_code = choose|other: KeyCode| other.virtual_key() == code.virtual_key();
    lemma_virtual_key_injective(by_code, code);
}

/// Two keys with the same virtual-key code are the same key.
pub proof fn lemma_virtual_key_injective(a: KeyCode, b: KeyCode)
    requires
        a.virtual_key() == b.virtual_key(),
    ensures
        a == b,
{
}

} // verus!
