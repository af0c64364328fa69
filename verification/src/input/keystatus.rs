use vstd::prelude::*;

verus! {

/// Window message sent when a non-system key goes down.
pub const WM_KEYDOWN: u32 = 0x0100;

/// Window message sent when a non-system key goes up.
pub const WM_KEYUP: u32 = 0x0101;

/// Window message sent when a key goes down while Alt is held.
pub const WM_SYSKEYDOWN: u32 = 0x0104;

/// Window message sent when a key goes up while Alt is held.
pub const WM_SYSKEYUP: u32 = 0x0105;

/// Raw-input flag: the left mouse button went down.
pub const RI_MOUSE_BUTTON_1_DOWN: u32 = 0x0001;

/// Raw-input flag: the left mouse button went up.
pub const RI_MOUSE_BUTTON_1_UP: u32 = 0x0002;

/// Raw-input flag: the right mouse button went down.
pub const RI_MOUSE_BUTTON_2_DOWN: u32 = 0x0004;

/// Raw-input flag: the right mouse button went up.
pub const RI_MOUSE_BUTTON_2_UP: u32 = 0x0008;

/// Raw-input flag: the middle mouse button went down.
pub const RI_MOUSE_BUTTON_3_DOWN: u32 = 0x0010;

/// Raw-input flag: the middle mouse button went up.
pub const RI_MOUSE_BUTTON_3_UP: u32 = 0x0020;

/// Raw-input flag: the fourth mouse button went down.
pub const RI_MOUSE_BUTTON_4_DOWN: u32 = 0x0040;

/// Raw-input flag: the fourth mouse button went up.
pub const RI_MOUSE_BUTTON_4_UP: u32 = 0x0080;

/// Raw-input flag: the fifth mouse button went down.
pub const RI_MOUSE_BUTTON_5_DOWN: u32 = 0x0100;

/// Raw-input flag: the fifth mouse button went up.
pub const RI_MOUSE_BUTTON_5_UP: u32 = 0x0200;

/// Whether a key or mouse button is held down.
#[derive(Clone, Copy, Debug, PartialEq, Eq, Structural)]
pub enum KeyStatus {
    Released,
    Pressed,
}

impl KeyStatus {
    /// The status that a keyboard window message reports, if it reports one.
    pub open spec fn of_window_message(window_message: u32) -> Option<KeyStatus> {
        if window_message == WM_KEYDOWN || window_message == WM_SYSKEYDOWN {
            Some(KeyStatus::Pressed)
        } else if window_message == WM_KEYUP || window_message == WM_SYSKEYUP {
            Some(KeyStatus::Released)
        } else {
            None
        }
    }

    /// True for the five raw-input flags that report a mouse button going down.
    pub open spec fn is_button_down(ri: u32) -> bool {
        ri == RI_MOUSE_BUTTON_1_DOWN || ri == RI_MOUSE_BUTTON_2_DOWN || ri == RI_MOUSE_BUTTON_3_DOWN
            || ri == RI_MOUSE_BUTTON_4_DOWN || ri == RI_MOUSE_BUTTON_5_DOWN
    }

    /// True for the five raw-input flags that report a mouse button going up.
    pub open spec fn is_button_up(ri: u32) -> bool {
        ri == RI_MOUSE_BUTTON_1_UP || ri == RI_MOUSE_BUTTON_2_UP || ri == RI_MOUSE_BUTTON_3_UP
            || ri == RI_MOUSE_BUTTON_4_UP || ri == RI_MOUSE_BUTTON_5_UP
    }

    /// The status that a raw-input mouse button flag reports, if it is one.
    pub open spec fn of_button_flag(ri: u32) -> Option<KeyStatus> {
        if Self::is_button_down(ri) {
            Some(KeyStatus::Pressed)
        } else if Self::is_button_up(ri) {
            Some(KeyStatus::Released)
        } else {
            None
        }
    }

    /// The text shown for this status.
    pub open spec fn label(self) -> Seq<char> {
        match self {
            KeyStatus::Pressed => "Pressed"@,
            KeyStatus::Released => "Released"@,
        }
    }

    /// Converts a keyboard window message (`WM_*`) to the status it reports.
    /// Messages other than the four key messages give `None`.
    pub fn from_wm(window_message: u32) -> (r: Option<KeyStatus>)
        ensures
            r == Self::of_window_message(window_message),
    {
        if window_message == WM_KEYDOWN || window_message == WM_SYSKEYDOWN {
            Some(KeyStatus::Pressed)
        } else if window_message == WM_KEYUP || window_message == WM_SYSKEYUP {
            Some(KeyStatus::Released)
        } else {
            None
        }
    }

    /// Converts a raw-input mouse button flag (`RI_MOUSE_BUTTON_*`) to the
    /// status it reports. Any other value, a combination of flags included,
    /// gives `None`.
    pub fn from_ri(ri: u32) -> (r: Option<KeyStatus>)
        ensures
            r == Self::of_button_flag(ri),
    {
        if ri == RI_MOUSE_BUTTON_1_DOWN || ri == RI_MOUSE_BUTTON_2_DOWN || ri
            == RI_MOUSE_BUTTON_3_DOWN || ri == RI_MOUSE_BUTTON_4_DOWN || ri
            == RI_MOUSE_BUTTON_5_DOWN {
            Some(KeyStatus::Pressed)
        } else if ri == RI_MOUSE_BUTTON_1_UP || ri == RI_MOUSE_BUTTON_2_UP || ri
            == RI_MOUSE_BUTTON_3_UP || ri == RI_MOUSE_BUTTON_4_UP || ri == RI_MOUSE_BUTTON_5_UP {
            Some(KeyStatus::Released)
        } else {
            None
        }
    }

    /// Returns the text shown for this status.
    pub fn as_str(self) -> (r: &'static str)
        ensures
            r@ == self.label(),
    {
        match self {
            KeyStatus::Pressed => "Pressed",
            KeyStatus::Released => "Released",
        }
    }

    /// Returns the text shown for this status as an owned string.
    pub fn to_string(&self) -> (r: String)
        ensures
            r@ == self.label(),
    {
        String::from_str(self.as_str())
    }
}

} // verus!
