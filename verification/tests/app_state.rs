use xterminate::app::{
    appdata_path, config_path, cursor_path, icon_path, logfiles_path, make_rel_appdata_path_abs,
    make_rel_path_abs, resource_path, Action, App, AppState, CursorLook, KeybindError, KeybindSet,
};
use xterminate::config::{Compatibility, Config, Graceful, Keybinds};
use xterminate::input::{KeyCode, KeyState, KeyStatus, Keybind};
use xterminate::process::{Outcome, Process};
use xterminate::termination::{Event, Step};
use xterminate::tray::TrayEvent;
use xterminate::window::Window;

fn names(names: &[&str]) -> Vec<String> {
    names.iter().map(|name| name.to_string()).collect()
}

fn config() -> Config {
    Config {
        keybinds: Keybinds {
            terminate_immediate: names(&["VK_LCONTROL", "VK_LMENU", "VK_F4"]),
            terminate_click: names(&["VK_LCONTROL", "VK_LMENU", "VK_END"]),
            terminate_click_confirm: names(&["VK_LBUTTON"]),
            terminate_abort: names(&["VK_ESCAPE"]),
        },
        graceful: Graceful { enabled: true, timeout: 3000 },
        compatibility: Compatibility { version_major: 2, version_minor: 0, version_patch: 0 },
    }
}

fn app() -> App {
    App::new(config(), String::from("C:\\xterminate\\res\\cursor.cur")).unwrap()
}

fn keys(pressed: &[KeyCode]) -> KeyState {
    let mut state = KeyState::new();
    for keycode in pressed {
        state.set(*keycode, KeyStatus::Pressed);
    }
    state
}

const ENTER: [KeyCode; 3] = [KeyCode::LeftControl, KeyCode::LeftAlt, KeyCode::End];
const FOCUSED: [KeyCode; 3] = [KeyCode::LeftControl, KeyCode::LeftAlt, KeyCode::F4];

#[test]
fn the_application_starts_in_standby() {
    let app = app();
    assert_eq!(app.state(), AppState::Standby);
    assert!(app.running());
    assert_eq!(app.cursor_path(), "C:\\xterminate\\res\\cursor.cur");
    assert!(app.config().graceful.enabled);
    assert_eq!(app.config().graceful.timeout, 3000);
}

#[test]
fn keybinds_are_built_from_the_configured_names() {
    let app = app();
    let keybinds = app.keybinds();
    assert_eq!(keybinds.terminate_immediate.clone().keycodes(), FOCUSED.to_vec());
    assert_eq!(keybinds.terminate_click.clone().keycodes(), ENTER.to_vec());
    assert_eq!(keybinds.terminate_click_confirm.clone().keycodes(), vec![KeyCode::LeftMouseButton]);
    assert_eq!(keybinds.terminate_abort.clone().keycodes(), vec![KeyCode::Escape]);
}

#[test]
fn a_keybind_is_built_from_names() {
    let keybind = App::keybind_from_config(&names(&["VK_LSHIFT", "VK_A", "VK_LSHIFT"])).unwrap();
    assert_eq!(keybind.keycodes(), vec![KeyCode::LeftShift, KeyCode::A, KeyCode::LeftShift]);
    assert_eq!(App::keybind_from_config(&vec![]).unwrap().keycodes(), vec![]);
}

#[test]
fn an_unknown_key_name_is_an_error() {
    match App::keybind_from_config(&names(&["VK_LSHIFT", "VK_NOPE", "VK_ALSO_NOPE"])) {
        Err(KeybindError::InvalidKeyName(name)) => assert_eq!(name, "VK_NOPE"),
        Ok(keybind) => panic!("built {:?}", keybind),
    }
    match App::keybind_from_config(&names(&["Left Shift"])) {
        Err(KeybindError::InvalidKeyName(name)) => assert_eq!(name, "Left Shift"),
        Ok(keybind) => panic!("built {:?}", keybind),
    }
    match App::keybind_from_config(&names(&[""])) {
        Err(KeybindError::InvalidKeyName(name)) => assert_eq!(name, ""),
        Ok(keybind) => panic!("built {:?}", keybind),
    }
}

#[test]
fn the_first_invalid_keybind_decides_the_error() {
    let mut broken = config();
    broken.keybinds.terminate_abort = names(&["VK_ESCAPE", "escape"]);
    broken.keybinds.terminate_click = names(&["VK_LCONTROL", "ctrl", "alt"]);
    match App::setup_keybinds(&broken) {
        Err(KeybindError::InvalidKeyName(name)) => assert_eq!(name, "ctrl"),
        Ok(set) => panic!("built {:?}", set),
    }
    match App::new(broken, String::new()) {
        Err(KeybindError::InvalidKeyName(name)) => assert_eq!(name, "ctrl"),
        Ok(_) => panic!("created"),
    }
    let mut broken = config();
    broken.keybinds.terminate_immediate = names(&["x"]);
    broken.keybinds.terminate_click = names(&["y"]);
    match App::setup_keybinds(&broken) {
        Err(KeybindError::InvalidKeyName(name)) => assert_eq!(name, "x"),
        Ok(set) => panic!("built {:?}", set),
    }
}

#[test]
fn standby_reacts_to_its_two_keybinds_only() {
    let mut app = app();
    let others = [
        keys(&[]),
        keys(&[KeyCode::LeftMouseButton]),
        keys(&[KeyCode::Escape]),
        keys(&[KeyCode::Escape, KeyCode::LeftMouseButton]),
        keys(&[KeyCode::LeftControl, KeyCode::LeftAlt]),
        keys(&[KeyCode::LeftControl, KeyCode::End]),
        keys(&[KeyCode::RightControl, KeyCode::LeftAlt, KeyCode::End]),
        keys(&[KeyCode::A, KeyCode::B, KeyCode::C]),
    ];
    for state in &others {
        let action = app.handle(state, KeyCode::A, KeyStatus::Pressed);
        assert_eq!(action, Action::Ignore);
        assert!(!action.consumed(true));
        assert!(!action.consumed(false));
        assert_eq!(action.cursor(CursorLook::System), CursorLook::System);
        assert_eq!(app.state(), AppState::Standby);
    }
}

#[test]
fn standby_enters_the_targeting_mode() {
    let mut app = app();
    let action = app.handle(&keys(&ENTER), KeyCode::End, KeyStatus::Pressed);
    assert_eq!(action, Action::SetCursor);
    assert!(action.consumed(false));
    assert_eq!(action.cursor(CursorLook::System), CursorLook::Custom);
    assert_eq!(app.state(), AppState::Active);
}

#[test]
fn standby_terminates_the_focused_window_and_stays() {
    let mut app = app();
    let action = app.handle(&keys(&FOCUSED), KeyCode::F4, KeyStatus::Pressed);
    assert_eq!(action, Action::TerminateFocused);
    assert_eq!(app.state(), AppState::Standby);
    assert_eq!(action.cursor(CursorLook::System), CursorLook::System);
    assert!(action.consumed(true));
    assert!(!action.consumed(false));
}

#[test]
fn entering_comes_before_the_focused_window() {
    let mut app = app();
    let both = keys(&[KeyCode::LeftControl, KeyCode::LeftAlt, KeyCode::End, KeyCode::F4]);
    assert_eq!(app.handle(&both, KeyCode::F4, KeyStatus::Pressed), Action::SetCursor);
    assert_eq!(app.state(), AppState::Active);
}

#[test]
fn enter_then_abort_leads_back_to_standby_with_the_system_cursors() {
    let mut app = app();
    let mut look = CursorLook::System;
    let before = app.state();
    let action = app.handle(&keys(&ENTER), KeyCode::End, KeyStatus::Pressed);
    look = action.cursor(look);
    assert_eq!(app.state(), AppState::Active);
    assert_eq!(look, CursorLook::Custom);
    let action = app.handle(&keys(&[KeyCode::Escape]), KeyCode::Escape, KeyStatus::Pressed);
    assert_eq!(action, Action::ResetCursor);
    assert!(action.consumed(false));
    look = action.cursor(look);
    assert_eq!(app.state(), before);
    assert_eq!(look, CursorLook::System);
}

#[test]
fn confirming_over_the_bare_desktop_finds_no_target() {
    let mut app = app();
    let mut look = CursorLook::System;
    look = app.termination_mode_activate().cursor(look);
    assert_eq!(app.state(), AppState::Active);
    assert_eq!(look, CursorLook::Custom);

    let action = app.handle(&keys(&[KeyCode::LeftMouseButton]), KeyCode::LeftMouseButton, KeyStatus::Pressed);
    assert_eq!(action, Action::TerminateAtPointer);
    assert!(action.consumed(false));
    look = action.cursor(look);
    assert_eq!(look, CursorLook::System);
    assert_eq!(app.state(), AppState::Standby);

    let target = Window::from_point(0);
    assert_eq!(target, None);
    let mut attempt = app.terminate(None);
    assert_eq!(attempt.outcome(), Some(Outcome::NoTarget));
    assert!(matches!(attempt.advance(Event::Start), Step::Finish(Outcome::NoTarget)));
    assert_eq!(app.state(), AppState::Standby);
}

#[test]
fn confirming_over_a_window_terminates_with_the_configured_settings() {
    let mut app = app();
    app.termination_mode_activate();
    let action = app.handle(&keys(&[KeyCode::LeftMouseButton]), KeyCode::LeftMouseButton, KeyStatus::Pressed);
    assert_eq!(action, Action::TerminateAtPointer);
    assert_eq!(app.state(), AppState::Standby);
    let mut attempt = app.terminate(Some(Process::open(7, 0x70)));
    assert_eq!(attempt.slice_ms(), 1000);
    assert!(matches!(attempt.advance(Event::Start), Step::ListWindows));
}

#[test]
fn with_close_requests_disabled_the_attempt_begins_with_force() {
    let mut settings = config();
    settings.graceful.enabled = false;
    let app = App::new(settings, String::new()).unwrap();
    let mut attempt = app.terminate(Some(Process::open(7, 0x70)));
    match attempt.advance(Event::Start) {
        Step::Kill { handle, exit_code } => {
            assert_eq!(handle, 0x70);
            assert_eq!(exit_code, 1298);
        }
        other => panic!("expected a termination, got {:?}", other),
    }
    assert!(matches!(attempt.advance(Event::Killed(true)), Step::Finish(Outcome::Forced)));
}

#[test]
fn confirm_comes_before_abort() {
    let mut app = app();
    app.termination_mode_activate();
    let both = keys(&[KeyCode::Escape, KeyCode::LeftMouseButton]);
    assert_eq!(app.handle(&both, KeyCode::Escape, KeyStatus::Pressed), Action::TerminateAtPointer);
    assert_eq!(app.state(), AppState::Standby);
}

#[test]
fn the_targeting_mode_ignores_the_keybinds_of_standby() {
    let mut app = app();
    app.termination_mode_activate();
    for state in [keys(&ENTER), keys(&FOCUSED), keys(&[]), keys(&[KeyCode::A])] {
        let action = app.handle(&state, KeyCode::A, KeyStatus::Pressed);
        assert_eq!(action, Action::Ignore);
        assert!(!action.consumed(true));
        assert_eq!(app.state(), AppState::Active);
    }
}

#[test]
fn shutdown_is_final() {
    let mut app = app();
    assert_eq!(app.shutdown(), Action::Ignore);
    assert_eq!(app.state(), AppState::Shutdown);
    assert!(!app.running());
    for state in [keys(&ENTER), keys(&FOCUSED), keys(&[KeyCode::Escape]), keys(&[KeyCode::LeftMouseButton])] {
        assert_eq!(app.handle(&state, KeyCode::A, KeyStatus::Pressed), Action::Ignore);
        assert_eq!(app.state(), AppState::Shutdown);
    }
    assert_eq!(app.termination_mode_activate(), Action::Ignore);
    assert_eq!(app.termination_mode_confirm(), Action::Ignore);
    assert_eq!(app.termination_mode_deactivate(), Action::Ignore);
    assert_eq!(app.terminate_active(), Action::Ignore);
    assert_eq!(app.handle_tray(TrayEvent::OnMenuSelectEnterTerminationMode), Action::Ignore);
    assert_eq!(app.shutdown(), Action::Ignore);
    assert_eq!(app.state(), AppState::Shutdown);
}

#[test]
fn shutdown_while_targeting_puts_the_cursors_back() {
    let mut app = app();
    let look = app.termination_mode_activate().cursor(CursorLook::System);
    let action = app.shutdown();
    assert_eq!(action, Action::ResetCursor);
    assert_eq!(action.cursor(look), CursorLook::System);
    assert_eq!(app.state(), AppState::Shutdown);
}

#[test]
fn the_methods_move_between_the_states() {
    let mut app = app();
    assert_eq!(app.termination_mode_activate(), Action::SetCursor);
    assert_eq!(app.state(), AppState::Active);
    assert_eq!(app.termination_mode_confirm(), Action::TerminateAtPointer);
    assert_eq!(app.state(), AppState::Standby);
    assert_eq!(app.termination_mode_activate(), Action::SetCursor);
    assert_eq!(app.termination_mode_deactivate(), Action::ResetCursor);
    assert_eq!(app.state(), AppState::Standby);
    assert_eq!(app.terminate_active(), Action::TerminateFocused);
    assert_eq!(app.state(), AppState::Standby);
}

#[test]
fn menu_entries_act_like_their_keybinds() {
    let mut app = app();
    assert_eq!(app.handle_tray(TrayEvent::OnMenuSelectEnterTerminationMode), Action::SetCursor);
    assert_eq!(app.state(), AppState::Active);
    assert_eq!(app.handle_tray(TrayEvent::OnMenuSelectResetCursor), Action::ResetCursor);
    assert_eq!(app.state(), AppState::Standby);
    assert_eq!(app.handle_tray(TrayEvent::OnMenuSelectStartWithWindows), Action::ToggleAutostart);
    assert_eq!(app.handle_tray(TrayEvent::OnMenuSelectOpenConfig), Action::OpenConfig);
    assert_eq!(app.handle_tray(TrayEvent::OnMenuSelectAbout), Action::ShowAbout);
    assert_eq!(
        app.handle_tray(TrayEvent::OnMenuSelectOpenLoggingDirectory),
        Action::OpenLoggingDirectory
    );
    assert_eq!(app.handle_tray(TrayEvent::OnMenuSelectCheckForUpdates), Action::CheckForUpdates);
    assert_eq!(app.handle_tray(TrayEvent::OnMenuSelectUpdateOnStartup), Action::ToggleAutoupdate);
    assert_eq!(app.state(), AppState::Standby);
    assert_eq!(app.handle_tray(TrayEvent::OnMenuSelectExit), Action::Ignore);
    assert_eq!(app.state(), AppState::Shutdown);
}

#[test]
fn the_application_can_be_made_from_ready_keybinds() {
    let keybinds = KeybindSet {
        terminate_immediate: Keybind::new(vec![KeyCode::F1]),
        terminate_click: Keybind::new(vec![KeyCode::F2]),
        terminate_click_confirm: Keybind::new(vec![KeyCode::F3]),
        terminate_abort: Keybind::new(vec![KeyCode::F4]),
    };
    let mut app = App::with_keybinds(config(), String::from("c.cur"), keybinds);
    assert_eq!(app.state(), AppState::Standby);
    assert_eq!(app.handle(&keys(&[KeyCode::F1]), KeyCode::F1, KeyStatus::Pressed), Action::TerminateFocused);
    assert_eq!(app.handle(&keys(&[KeyCode::F2]), KeyCode::F2, KeyStatus::Pressed), Action::SetCursor);
    assert_eq!(app.handle(&keys(&[KeyCode::F4]), KeyCode::F4, KeyStatus::Pressed), Action::ResetCursor);
}

#[test]
fn only_cursor_actions_change_the_cursor() {
    for look in [CursorLook::System, CursorLook::Custom] {
        assert_eq!(Action::SetCursor.cursor(look), CursorLook::Custom);
        assert_eq!(Action::ResetCursor.cursor(look), CursorLook::System);
        assert_eq!(Action::TerminateAtPointer.cursor(look), CursorLook::System);
        for action in [
            Action::Ignore,
            Action::TerminateFocused,
            Action::ToggleAutostart,
            Action::ToggleAutoupdate,
            Action::OpenConfig,
            Action::OpenLoggingDirectory,
            Action::ShowAbout,
            Action::CheckForUpdates,
        ] {
            assert_eq!(action.cursor(look), look);
        }
    }
}

#[test]
fn paths_beside_the_executable() {
    let executable = "C:\\Program Files\\xterminate\\xterminate.exe";
    assert_eq!(make_rel_path_abs(executable, "logs"), "C:\\Program Files\\xterminate\\logs");
    assert_eq!(
        resource_path(executable, "sound.wav"),
        "C:\\Program Files\\xterminate\\res\\sound.wav"
    );
    assert_eq!(cursor_path(executable), "C:\\Program Files\\xterminate\\res\\cursor.cur");
    assert_eq!(icon_path(executable), "C:\\Program Files\\xterminate\\res\\icon.ico");
    assert_eq!(cursor_path("C:\\xterminate.exe"), "C:\\res\\cursor.cur");
    assert_eq!(cursor_path("xterminate.exe"), "res\\cursor.cur");
    assert_eq!(icon_path("D:/tools/xterminate.exe"), "D:/tools\\res\\icon.ico");
}

#[test]
fn paths_below_the_data_directory() {
    assert_eq!(appdata_path("C:\\ProgramData"), "C:\\ProgramData\\xterminate");
    assert_eq!(appdata_path("C:\\ProgramData\\"), "C:\\ProgramData\\xterminate");
    assert_eq!(
        make_rel_appdata_path_abs("C:\\ProgramData", "x.txt"),
        "C:\\ProgramData\\xterminate\\x.txt"
    );
    assert_eq!(config_path("C:\\ProgramData"), "C:\\ProgramData\\xterminate\\config.toml");
    assert_eq!(logfiles_path("C:\\ProgramData"), "C:\\ProgramData\\xterminate\\logs\\");
}
