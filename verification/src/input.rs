pub mod keybind;
pub mod keycode;
pub mod keystatus;

pub use keybind::Keybind;
pub use keycode::KeyCode;
pub use keystatus::KeyStatus;

use std::collections::HashMap;
use vstd::prelude::*;

verus! {

broadcast use vstd::std_specs::hash::group_hash_axioms;

/// The last known status of every key and mouse button that has been seen.
///
/// Its view maps each key that was observed at least once to its latest
/// status. A key that was never observed has no entry and counts as released.
pub struct KeyState {
    keys: HashMap<u16, KeyStatus>,
}

impl View for KeyState {
    type V = Map<KeyCode, KeyStatus>;

    closed spec fn view(&self) -> Map<KeyCode, KeyStatus> {
        Map::new(
            |code: KeyCode| self.keys@.contains_key(code.virtual_key()),
            |code: KeyCode| self.keys@[code.virtual_key()],
        )
    }
}

impl KeyState {
    /// The status of `keycode`: the one recorded last, or `Released` if none
    /// was ever recorded.
    pub open spec fn status(&self, keycode: KeyCode) -> KeyStatus {
        if self@.contains_key(keycode) {
            self@[keycode]
        } else {
            KeyStatus::Released
        }
    }

    /// Creates a table in which no key has been observed.
    pub fn new() -> (r: Self)
        ensures
            r@ == Map::<KeyCode, KeyStatus>::empty(),
            forall|keycode: KeyCode| r.status(keycode) == KeyStatus::Released,
    {
        let r = Self { keys: HashMap::new() };
        assert(r@ =~= Map::<KeyCode, KeyStatus>::empty());
        r
    }

    /// Records `keystatus` as the latest status of `keycode`. No other key is
    /// affected.
    pub fn set(&mut self, keycode: KeyCode, keystatus: KeyStatus)
        ensures
            final(self)@ == old(self)@.insert(keycode, keystatus),
            final(self).status(keycode) == keystatus,
            forall|other: KeyCode|
                other != keycode ==> final(self).status(other) == old(self).status(other),
    {
        self.keys.insert(keycode.to_vkey(), keystatus);
        proof {
            assert forall|other: KeyCode| other != keycode implies other.virtual_key()
                != keycode.virtual_key() by {
                if other.virtual_key() == keycode.virtual_key() {
                    keycode::lemma_virtual_key_injective(other, keycode);
                }
            }
            assert(self@ =~= old(self)@.insert(keycode, keystatus));
        }
    }

    /// Returns the status of `keycode`; `Released` for a key that was never
    /// observed.
    pub fn get(&self, keycode: KeyCode) -> (r: KeyStatus)
        ensures
            r == self.status(keycode),
            !self@.contains_key(keycode) ==> r == KeyStatus::Released,
    {
        match self.keys.get(&keycode.to_vkey()) {
            Some(keystatus) => *keystatus,
            None => KeyStatus::Released,
        }
    }

    /// True if `keycode` is not held down, which includes never having been
    /// observed.
    pub fn released(&self, keycode: KeyCode) -> (r: bool)
        ensures
            r == (self.status(keycode) == KeyStatus::Released),
    {
        self.get(keycode) == KeyStatus::Released
    }

    /// True if `keycode` is held down.
    pub fn pressed(&self, keycode: KeyCode) -> (r: bool)
        ensures
            r == (self.status(keycode) == KeyStatus::Pressed),
    {
        self.get(keycode) == KeyStatus::Pressed
    }
}

/// Raw-input device type of a mouse event.
pub const RIM_TYPEMOUSE: u32 = 0;

/// Raw-input device type of a keyboard event.
pub const RIM_TYPEKEYBOARD: u32 = 1;

/// Usage page of generic desktop controls.
pub const HID_USAGE_PAGE_GENERIC: u16 = 0x01;

/// Usage of a mouse on the generic desktop page.
pub const HID_USAGE_GENERIC_MOUSE: u16 = 0x02;

/// Usage of a keyboard on the generic desktop page.
pub const HID_USAGE_GENERIC_KEYBOARD: u16 = 0x06;

/// Registration flag: deliver input even while the window is not in the
/// foreground.
pub const RIDEV_INPUTSINK: u32 = 0x0000_0100;

/// Registration flag: remove the device from the registration.
pub const RIDEV_REMOVE: u32 = 0x0000_0001;

/// Window message sent once when a window is created.
pub const WM_CREATE: u32 = 0x0001;

/// Window message sent when a window is destroyed.
pub const WM_DESTROY: u32 = 0x0002;

/// Window message that carries a raw-input event.
pub const WM_INPUT: u32 = 0x00FF;

/// What the input window does with a window message.
#[derive(Clone, Copy, Debug, PartialEq, Eq, Structural)]
pub enum InputMessage {
    /// The window was created: register the raw-input devices.
    Register,
    /// The window is going away: remove the raw-input registration.
    Unregister,
    /// A raw-input event arrived: read and process it.
    Input,
    /// Anything else: leave it to the default window procedure.
    Other,
}

/// One raw-input event as the operating system delivered it, reduced to the
/// fields that decoding reads.
#[derive(Clone, Copy, Debug, PartialEq, Eq, Structural)]
pub enum RawInput {
    /// A keyboard event. `vkey` is the virtual-key code that the system maps
    /// the scan code of the event to, in the extended mapping that tells left
    /// and right modifier keys apart; `message` is the window message of the
    /// event.
    Keyboard { vkey: u32, message: u32 },
    /// A mouse event with its button transition flags.
    Mouse { button_flags: u16 },
    /// An event of any other device.
    Other,
}

/// One entry of a raw-input registration request.
#[derive(Clone, Copy, Debug, PartialEq, Eq, Structural)]
pub struct RawInputDevice {
    pub usage_page: u16,
    pub usage: u16,
    pub flags: u32,
    pub target: isize,
}

/// Why the input pipeline could not be set up.
#[derive(Clone, Copy, Debug, PartialEq, Eq, Structural)]
pub enum InputError {
    /// The operating system rejected the raw-input registration.
    RegistrationRejected,
}

/// The receiver of decoded input events.
pub trait EventHandler {
    /// What one call of `handle` does, as the handler itself describes it:
    /// whether a handler that was `before` can have become this one by
    /// handling the transition of `keycode` to `keystatus` under the table
    /// `state`, with the answer `consumed`. A handler that does not describe
    /// itself admits every outcome; so does one whose answer depends on more
    /// than its own state, such as what is found on the desktop.
    open spec fn handled(
        &self,
        before: &Self,
        state: &KeyState,
        keycode: KeyCode,
        keystatus: KeyStatus,
        consumed: bool,
    ) -> bool {
        true
    }

    /// Called once for every key or button transition, after the transition
    /// has been recorded in `state`. Returns true if the event was consumed,
    /// false if it should be delivered as usual.
    fn handle(&mut self, state: &KeyState, keycode: KeyCode, keystatus: KeyStatus) -> (consumed:
        bool)
        requires
            state.status(keycode) == keystatus,
        ensures
            final(self).handled(old(self), state, keycode, keystatus, consumed),
    ;
}

/// The transition that a keyboard event reports: its virtual-key code must
/// belong to a tracked key and its message must be a key message.
pub open spec fn keyboard_event(vkey: u32, message: u32) -> Option<(KeyCode, KeyStatus)> {
    if vkey > u16::MAX {
        None
    } else {
        match (KeyCode::of_virtual_key(vkey as u16), KeyStatus::of_window_message(message)) {
            (Some(keycode), Some(keystatus)) => Some((keycode, keystatus)),
            _ => None,
        }
    }
}

/// The transition that a mouse event reports: its flags must be exactly one
/// button flag.
pub open spec fn mouse_event(button_flags: u32) -> Option<(KeyCode, KeyStatus)> {
    match (KeyCode::of_button_flag(button_flags), KeyStatus::of_button_flag(button_flags)) {
        (Some(keycode), Some(keystatus)) => Some((keycode, keystatus)),
        _ => None,
    }
}

/// The transition that a raw-input event reports, if it reports one.
pub open spec fn decoded(raw: RawInput) -> Option<(KeyCode, KeyStatus)> {
    match raw {
        RawInput::Keyboard { vkey, message } => keyboard_event(vkey, message),
        RawInput::Mouse { button_flags } => mouse_event(button_flags as u32),
        RawInput::Other => None,
    }
}

/// Decodes a keyboard event. Events of keys that are not tracked, and
/// messages that are no key messages, give `None`.
pub fn process_keyboard_input(vkey: u32, message: u32) -> (r: Option<(KeyCode, KeyStatus)>)
    ensures
        r == keyboard_event(vkey, message),
{
    if vkey > 0xFFFF {
        return None;
    }
    let keycode = match KeyCode::from_vkey(vkey as u16) {
        Some(keycode) => keycode,
        None => { return None; },
    };
    let keystatus = match KeyStatus::from_wm(message) {
        Some(keystatus) => keystatus,
        None => { return None; },
    };
    Some((keycode, keystatus))
}

/// Decodes a mouse event from its button flags. Events without exactly one
/// button transition give `None`.
pub fn process_mouse_input(button_flags: u32) -> (r: Option<(KeyCode, KeyStatus)>)
    ensures
        r == mouse_event(button_flags),
{
    let keycode = match KeyCode::from_ri(button_flags) {
        Some(keycode) => keycode,
        None => { return None; },
    };
    let keystatus = match KeyStatus::from_ri(button_flags) {
        Some(keystatus) => keystatus,
        None => { return None; },
    };
    Some((keycode, keystatus))
}

/// Decodes a raw-input event into the key transition it reports.
pub fn decode(raw: RawInput) -> (r: Option<(KeyCode, KeyStatus)>)
    ensures
        r == decoded(raw),
{
    match raw {
        RawInput::Keyboard { vkey, message } => process_keyboard_input(vkey, message),
        RawInput::Mouse { button_flags } => process_mouse_input(button_flags as u32),
        RawInput::Other => None,
    }
}

/// Sorts a window message of the input window by what has to be done for it.
pub fn raw_input_callback(msg: u32) -> (r: InputMessage)
    ensures
        r == (if msg == WM_CREATE {
            InputMessage::Register
        } else if msg == WM_DESTROY {
            InputMessage::Unregister
        } else if msg == WM_INPUT {
            InputMessage::Input
        } else {
            InputMessage::Other
        }),
{
    if msg == WM_CREATE {
        InputMessage::Register
    } else if msg == WM_DESTROY {
        InputMessage::Unregister
    } else if msg == WM_INPUT {
        InputMessage::Input
    } else {
        InputMessage::Other
    }
}

/// The registration request that subscribes the window `hwnd` to all keyboard
/// and mouse input, whether or not it has the focus: the keyboard first, the
/// mouse second.
pub fn register_raw_input_devices(hwnd: isize) -> (devices: [RawInputDevice; 2])
    ensures
        devices[0] == (RawInputDevice {
            usage_page: HID_USAGE_PAGE_GENERIC,
            usage: HID_USAGE_GENERIC_KEYBOARD,
            flags: RIDEV_INPUTSINK,
            target: hwnd,
        }),
        devices[1] == (RawInputDevice {
            usage_page: HID_USAGE_PAGE_GENERIC,
            usage: HID_USAGE_GENERIC_MOUSE,
            flags: RIDEV_INPUTSINK,
            target: hwnd,
        }),
{
    [
        RawInputDevice {
            usage_page: HID_USAGE_PAGE_GENERIC,
            usage: HID_USAGE_GENERIC_KEYBOARD,
            flags: RIDEV_INPUTSINK,
            target: hwnd,
        },
        RawInputDevice {
            usage_page: HID_USAGE_PAGE_GENERIC,
            usage: HID_USAGE_GENERIC_MOUSE,
            flags: RIDEV_INPUTSINK,
            target: hwnd,
        },
    ]
}

/// The registration request that ends the subscription to keyboard and mouse
/// input. A removal names no target window.
pub fn unregister_raw_input_devices() -> (devices: [RawInputDevice; 2])
    ensures
        devices[0] == (RawInputDevice {
            usage_page: HID_USAGE_PAGE_GENERIC,
            usage: HID_USAGE_GENERIC_KEYBOARD,
            flags: RIDEV_REMOVE,
            target: 0,
        }),
        devices[1] == (RawInputDevice {
            usage_page: HID_USAGE_PAGE_GENERIC,
            usage: HID_USAGE_GENERIC_MOUSE,
            flags: RIDEV_REMOVE,
            target: 0,
        }),
{
    [
        RawInputDevice {
            usage_page: HID_USAGE_PAGE_GENERIC,
            usage: HID_USAGE_GENERIC_KEYBOARD,
            flags: RIDEV_REMOVE,
            target: 0,
        },
        RawInputDevice {
            usage_page: HID_USAGE_PAGE_GENERIC,
            usage: HID_USAGE_GENERIC_MOUSE,
            flags: RIDEV_REMOVE,
            target: 0,
        },
    ]
}

/// The input pipeline: the key table together with the message-only window
/// that receives raw input for it.
pub struct Input {
    hwnd: isize,
    keys: KeyState,
    registered: bool,
}

impl Input {
    /// The window that receives the raw input.
    pub closed spec fn window(&self) -> isize {
        self.hwnd
    }

    /// The key table.
    pub closed spec fn keys(&self) -> KeyState {
        self.keys
    }

    /// Whether raw input is currently registered for the window.
    pub closed spec fn registered(&self) -> bool {
        self.registered
    }

    /// Creates the pipeline for the message-only window `hwnd`. No key has
    /// been observed and nothing is registered yet.
    pub fn create(hwnd: isize) -> (r: Self)
        ensures
            r.window() == hwnd,
            r.keys()@ == Map::<KeyCode, KeyStatus>::empty(),
            !r.registered(),
    {
        Self { hwnd, keys: KeyState::new(), registered: false }
    }

    /// Returns the window that receives the raw input.
    pub fn hwnd(&self) -> (r: isize)
        ensures
            r == self.window(),
    {
        self.hwnd
    }

    /// Returns the key table.
    pub fn keystate(&self) -> (r: &KeyState)
        ensures
            *r == self.keys(),
    {
        &self.keys
    }

    /// Returns whether raw input is currently registered.
    pub fn is_registered(&self) -> (r: bool)
        ensures
            r == self.registered(),
    {
        self.registered
    }

    /// Records the answer of the operating system to the registration
    /// request. A rejection is an error that the application cannot recover
    /// from.
    pub fn register(&mut self, accepted: bool) -> (r: Result<(), InputError>)
        ensures
            final(self).registered() == accepted,
            final(self).window() == old(self).window(),
            final(self).keys() == old(self).keys(),
            accepted ==> r == Ok::<(), InputError>(()),
            !accepted ==> r == Err::<(), InputError>(InputError::RegistrationRejected),
    {
        self.registered = accepted;
        if accepted {
            Ok(())
        } else {
            Err(InputError::RegistrationRejected)
        }
    }

    /// Ends the registration. Returns true if there was one, in which case the
    /// removal request has to be sent; calling this without a registration
    /// changes nothing and returns false.
    pub fn unregister(&mut self) -> (r: bool)
        ensures
            r == old(self).registered(),
            !final(self).registered(),
            final(self).window() == old(self).window(),
            final(self).keys() == old(self).keys(),
    {
        let was_registered = self.registered;
        self.registered = false;
        was_registered
    }

    /// Records the transition of `keycode` to `keystatus` in the key table and
    /// then hands the updated table and the transition to `handler`. The
    /// result is the handler's answer: true if it consumed the event.
    pub fn dispatch<H: EventHandler>(
        &mut self,
        handler: &mut H,
        keycode: KeyCode,
        keystatus: KeyStatus,
    ) -> (consumed: bool)
        ensures
            final(self).keys()@ == old(self).keys()@.insert(keycode, keystatus),
            final(self).window() == old(self).window(),
            final(self).registered() == old(self).registered(),
            final(handler).handled(
                old(handler),
                &final(self).keys(),
                keycode,
                keystatus,
                consumed,
            ),
    {
        self.keys.set(keycode, keystatus);
        handler.handle(&self.keys, keycode, keystatus)
    }

    /// Processes one raw-input event. An event that reports no transition of
    /// a tracked key changes nothing, reaches no handler and is not consumed.
    /// Any other event is dispatched: the transition is recorded, the handler
    /// is called with the updated table and the transition, and the result is
    /// the handler's answer.
    pub fn process_raw_input_event<H: EventHandler>(&mut self, handler: &mut H, raw: RawInput) -> (consumed:
        bool)
        ensures
            final(self).window() == old(self).window(),
            final(self).registered() == old(self).registered(),
            match decoded(raw) {
                Some((keycode, keystatus)) => final(self).keys()@ == old(self).keys()@.insert(
                    keycode,
                    keystatus,
                ) && final(handler).handled(
                    old(handler),
                    &final(self).keys(),
                    keycode,
                    keystatus,
                    consumed,
                ),
                None => !consumed && final(self).keys() == old(self).keys() && *final(handler)
                    == *old(handler),
            },
    {
        match decode(raw) {
            Some((keycode, keystatus)) => self.dispatch(handler, keycode, keystatus),
            None => false,
        }
    }
}

} // verus!
