use windows::Win32::Devices::HumanInterfaceDevice as hid;
use windows::Win32::UI::Input as raw;
use windows::Win32::UI::WindowsAndMessaging as wm;
use xterminate::input::{
    decode, process_keyboard_input, process_mouse_input, raw_input_callback,
    register_raw_input_devices, unregister_raw_input_devices, EventHandler, Input, InputError,
    InputMessage, KeyCode, KeyState, KeyStatus, RawInput, RawInputDevice,
};

/// Records what it is handed and answers as it was told to.
struct Recorder {
    answer: bool,
    seen: Vec<(KeyCode, KeyStatus, KeyStatus)>,
}

impl EventHandler for Recorder {
    fn handle(&mut self, state: &KeyState, keycode: KeyCode, keystatus: KeyStatus) -> bool {
        self.seen.push((keycode, keystatus, state.get(keycode)));
        self.answer
    }
}

#[test]
fn keyboard_events_are_decoded_by_code_and_message() {
    assert_eq!(process_keyboard_input(0x41, wm::WM_KEYDOWN), Some((KeyCode::A, KeyStatus::Pressed)));
    assert_eq!(process_keyboard_input(0x41, wm::WM_KEYUP), Some((KeyCode::A, KeyStatus::Released)));
    assert_eq!(
        process_keyboard_input(0xA4, wm::WM_SYSKEYDOWN),
        Some((KeyCode::LeftAlt, KeyStatus::Pressed))
    );
    assert_eq!(
        process_keyboard_input(0xA5, wm::WM_SYSKEYUP),
        Some((KeyCode::RightAlt, KeyStatus::Released))
    );
}

#[test]
fn unmapped_keyboard_events_are_no_events() {
    assert_eq!(process_keyboard_input(0, wm::WM_KEYDOWN), None);
    assert_eq!(process_keyboard_input(0x07, wm::WM_KEYDOWN), None);
    assert_eq!(process_keyboard_input(0x41, wm::WM_CHAR), None);
    assert_eq!(process_keyboard_input(0x41, 0), None);
    assert_eq!(process_keyboard_input(0x1_0041, wm::WM_KEYDOWN), None);
    assert_eq!(process_keyboard_input(u32::MAX, wm::WM_KEYDOWN), None);
}

#[test]
fn mouse_events_are_decoded_by_button_flag() {
    assert_eq!(
        process_mouse_input(wm::RI_MOUSE_BUTTON_1_DOWN),
        Some((KeyCode::LeftMouseButton, KeyStatus::Pressed))
    );
    assert_eq!(
        process_mouse_input(wm::RI_MOUSE_BUTTON_5_UP),
        Some((KeyCode::MouseButton5, KeyStatus::Released))
    );
    assert_eq!(process_mouse_input(0), None);
    assert_eq!(process_mouse_input(wm::RI_MOUSE_WHEEL), None);
    assert_eq!(process_mouse_input(wm::RI_MOUSE_BUTTON_1_DOWN | wm::RI_MOUSE_BUTTON_2_DOWN), None);
}

#[test]
fn raw_events_are_decoded_by_device() {
    assert_eq!(
        decode(RawInput::Keyboard { vkey: 0x1B, message: wm::WM_KEYDOWN }),
        Some((KeyCode::Escape, KeyStatus::Pressed))
    );
    assert_eq!(
        decode(RawInput::Mouse { button_flags: 0x0004 }),
        Some((KeyCode::RightMouseButton, KeyStatus::Pressed))
    );
    assert_eq!(decode(RawInput::Mouse { button_flags: 0x0400 }), None);
    assert_eq!(decode(RawInput::Other), None);
}

#[test]
fn window_messages_are_sorted() {
    assert_eq!(raw_input_callback(wm::WM_CREATE), InputMessage::Register);
    assert_eq!(raw_input_callback(wm::WM_DESTROY), InputMessage::Unregister);
    assert_eq!(raw_input_callback(wm::WM_INPUT), InputMessage::Input);
    assert_eq!(raw_input_callback(wm::WM_CLOSE), InputMessage::Other);
    assert_eq!(raw_input_callback(0), InputMessage::Other);
    assert_eq!(raw_input_callback(u32::MAX), InputMessage::Other);
}

#[test]
fn registration_asks_for_keyboard_and_mouse_everywhere() {
    let devices = register_raw_input_devices(0x1234);
    assert_eq!(
        devices[0],
        RawInputDevice {
            usage_page: hid::HID_USAGE_PAGE_GENERIC,
            usage: hid::HID_USAGE_GENERIC_KEYBOARD,
            flags: raw::RIDEV_INPUTSINK.0,
            target: 0x1234,
        }
    );
    assert_eq!(
        devices[1],
        RawInputDevice {
            usage_page: hid::HID_USAGE_PAGE_GENERIC,
            usage: hid::HID_USAGE_GENERIC_MOUSE,
            flags: raw::RIDEV_INPUTSINK.0,
            target: 0x1234,
        }
    );
    assert_eq!(devices[0], RawInputDevice { usage_page: 1, usage: 6, flags: 0x100, target: 0x1234 });
}

#[test]
fn removal_names_no_target() {
    let devices = unregister_raw_input_devices();
    assert_eq!(
        devices[0],
        RawInputDevice {
            usage_page: hid::HID_USAGE_PAGE_GENERIC,
            usage: hid::HID_USAGE_GENERIC_KEYBOARD,
            flags: raw::RIDEV_REMOVE.0,
            target: 0,
        }
    );
    assert_eq!(
        devices[1],
        RawInputDevice {
            usage_page: hid::HID_USAGE_PAGE_GENERIC,
            usage: hid::HID_USAGE_GENERIC_MOUSE,
            flags: raw::RIDEV_REMOVE.0,
            target: 0,
        }
    );
}

#[test]
fn device_types_match_the_system_headers() {
    assert_eq!(xterminate::input::RIM_TYPEMOUSE, raw::RIM_TYPEMOUSE.0);
    assert_eq!(xterminate::input::RIM_TYPEKEYBOARD, raw::RIM_TYPEKEYBOARD.0);
}

#[test]
fn a_new_pipeline_is_unregistered_and_has_seen_nothing() {
    let input = Input::create(77);
    assert_eq!(input.hwnd(), 77);
    assert!(!input.is_registered());
    assert_eq!(input.keystate().get(KeyCode::A), KeyStatus::Released);
}

#[test]
fn a_rejected_registration_is_an_error() {
    let mut input = Input::create(1);
    assert_eq!(input.register(false), Err(InputError::RegistrationRejected));
    assert!(!input.is_registered());
    assert_eq!(input.register(true), Ok(()));
    assert!(input.is_registered());
}

#[test]
fn unregister_is_safe_without_a_registration() {
    let mut input = Input::create(1);
    assert!(!input.unregister());
    assert!(!input.unregister());
    assert_eq!(input.register(false), Err(InputError::RegistrationRejected));
    assert!(!input.unregister());
    assert_eq!(input.register(true), Ok(()));
    assert!(input.unregister());
    assert!(!input.is_registered());
    assert!(!input.unregister());
}

#[test]
fn dispatch_updates_the_table_before_the_handler_runs() {
    let mut input = Input::create(1);
    let mut handler = Recorder { answer: true, seen: vec![] };
    assert!(input.dispatch(&mut handler, KeyCode::A, KeyStatus::Pressed));
    assert_eq!(handler.seen, vec![(KeyCode::A, KeyStatus::Pressed, KeyStatus::Pressed)]);
    assert!(input.keystate().pressed(KeyCode::A));
    handler.answer = false;
    assert!(!input.dispatch(&mut handler, KeyCode::A, KeyStatus::Released));
    assert_eq!(handler.seen[1], (KeyCode::A, KeyStatus::Released, KeyStatus::Released));
    assert!(input.keystate().released(KeyCode::A));
}

#[test]
fn raw_events_reach_the_handler_once_each() {
    let mut input = Input::create(1);
    let mut handler = Recorder { answer: true, seen: vec![] };
    assert!(input.process_raw_input_event(
        &mut handler,
        RawInput::Keyboard { vkey: 0xA2, message: wm::WM_KEYDOWN }
    ));
    assert!(input.process_raw_input_event(&mut handler, RawInput::Mouse { button_flags: 0x0001 }));
    assert_eq!(
        handler.seen,
        vec![
            (KeyCode::LeftControl, KeyStatus::Pressed, KeyStatus::Pressed),
            (KeyCode::LeftMouseButton, KeyStatus::Pressed, KeyStatus::Pressed),
        ]
    );
    assert!(input.keystate().pressed(KeyCode::LeftControl));
    assert!(input.keystate().pressed(KeyCode::LeftMouseButton));
    assert!(input.keystate().released(KeyCode::RightControl));
}

#[test]
fn unmapped_raw_events_change_nothing_and_are_passed_on() {
    let mut input = Input::create(1);
    let mut handler = Recorder { answer: true, seen: vec![] };
    assert!(!input.process_raw_input_event(&mut handler, RawInput::Other));
    assert!(!input.process_raw_input_event(
        &mut handler,
        RawInput::Keyboard { vkey: 0x07, message: wm::WM_KEYDOWN }
    ));
    assert!(!input.process_raw_input_event(&mut handler, RawInput::Mouse { button_flags: 0x0400 }));
    assert!(handler.seen.is_empty());
    assert!(input.keystate().released(KeyCode::A));
}

#[test]
fn the_handler_decides_whether_an_event_is_consumed() {
    let mut input = Input::create(1);
    let mut handler = Recorder { answer: false, seen: vec![] };
    assert!(!input.process_raw_input_event(
        &mut handler,
        RawInput::Keyboard { vkey: 0x41, message: wm::WM_KEYDOWN }
    ));
    assert_eq!(handler.seen.len(), 1);
    assert!(input.keystate().pressed(KeyCode::A));
}
