use chrono::Datelike;
use windows::Win32::System::Registry as reg;
use windows::Win32::UI::Controls as controls;
use windows::Win32::UI::WindowsAndMessaging as wm;
use xterminate::config::{load, Compatibility, Config, Graceful, Keybinds};
use xterminate::cursor::{idc, ocr, set_all, Cursor, CursorChange, CursorType};
use xterminate::input::{KeyCode, Keybind};
use xterminate::logger::{expired, file_stem, initialize, is_expired, log, log_filepath};
use xterminate::registry::{
    autostart, autostart_key, autoupdate, set_autostart, set_autoupdate, settings_key, Change,
    HKey, ValueType,
};
use xterminate::tray::menu::{MenuItem, TrayMenu, MF_BYPOSITION, MF_DISABLED, MF_SEPARATOR};
use xterminate::tray::{
    show_menu, trayicon_input_callback, TrayEvent, TrayEventHandler, TrayMessage, TRAYICON_ID,
    WM_USER_TRAYICON,
};
use xterminate::ui::taskdialog::{
    pack_words, TaskDialogAction, TaskDialogBuilder, TaskDialogCallbackData, TaskDialogCommand,
    TaskDialogIcon, TaskDialogResult,
};
use xterminate::updater::{
    check, download_progress, download_url, query_all, query_latest, release_of_tag, update,
    update_choice, user_agent, ReleaseInfo, UpdateChoice, UpdateError, Version,
};

fn day(year: i32, month: u32, day: u32) -> i32 {
    chrono::NaiveDate::from_ymd_opt(year, month, day).unwrap().num_days_from_ce()
}

fn wide(text: &str) -> Vec<u16> {
    text.encode_utf16().chain(Some(0)).collect()
}

fn release(version: &str) -> ReleaseInfo {
    ReleaseInfo { version: version.to_string(), download_url: format!("url of {}", version) }
}

fn versions(releases: &[&str]) -> Vec<ReleaseInfo> {
    releases.iter().map(|version| release(version)).collect()
}

fn config(major: u32, minor: u32, patch: u32, timeout: u32) -> Config {
    Config {
        keybinds: Keybinds {
            terminate_immediate: vec![],
            terminate_click: vec![],
            terminate_click_confirm: vec![],
            terminate_abort: vec![],
        },
        graceful: Graceful { enabled: true, timeout },
        compatibility: Compatibility {
            version_major: major,
            version_minor: minor,
            version_patch: patch,
        },
    }
}

struct Selections(Vec<TrayEvent>);

impl TrayEventHandler for Selections {
    fn handle(&mut self, event: TrayEvent) {
        self.0.push(event);
    }
}

#[test]
fn an_outdated_configuration_gives_way_to_the_default() {
    let (chosen, replaced) = load(config(1, 9, 9, 1), config(2, 0, 0, 2));
    assert!(replaced);
    assert_eq!(chosen.graceful.timeout, 2);
    let (chosen, replaced) = load(config(2, 0, 0, 1), config(2, 0, 0, 2));
    assert!(!replaced);
    assert_eq!(chosen.graceful.timeout, 1);
    let (chosen, replaced) = load(config(3, 1, 1, 1), config(2, 0, 0, 2));
    assert!(!replaced);
    assert_eq!(chosen.graceful.timeout, 1);
}

#[test]
fn one_smaller_number_makes_a_configuration_outdated() {
    let current = Compatibility { version_major: 2, version_minor: 3, version_patch: 4 };
    let outdated = |major, minor, patch| {
        Compatibility { version_major: major, version_minor: minor, version_patch: patch }
            .is_outdated(&current)
    };
    assert!(!outdated(2, 3, 4));
    assert!(!outdated(9, 9, 9));
    assert!(outdated(1, 3, 4));
    assert!(outdated(2, 2, 4));
    assert!(outdated(2, 3, 3));
    assert!(outdated(3, 0, 9));
    assert!(outdated(3, 9, 0));
}

#[test]
fn cursor_identifiers_match_the_system_headers() {
    let table = [
        (CursorType::AppStarting, wm::OCR_APPSTARTING, wm::IDC_APPSTARTING),
        (CursorType::Normal, wm::OCR_NORMAL, wm::IDC_ARROW),
        (CursorType::Cross, wm::OCR_CROSS, wm::IDC_CROSS),
        (CursorType::Hand, wm::OCR_HAND, wm::IDC_HAND),
        (CursorType::Help, wm::OCR_HELP, wm::IDC_HELP),
        (CursorType::IBeam, wm::OCR_IBEAM, wm::IDC_IBEAM),
        (CursorType::No, wm::OCR_NO, wm::IDC_NO),
        (CursorType::SizeAll, wm::OCR_SIZEALL, wm::IDC_SIZEALL),
        (CursorType::SizeNESW, wm::OCR_SIZENESW, wm::IDC_SIZENESW),
        (CursorType::SizeNS, wm::OCR_SIZENS, wm::IDC_SIZENS),
        (CursorType::SizeNWSE, wm::OCR_SIZENWSE, wm::IDC_SIZENWSE),
        (CursorType::SizeWE, wm::OCR_SIZEWE, wm::IDC_SIZEWE),
        (CursorType::Up, wm::OCR_UP, wm::IDC_UPARROW),
        (CursorType::Wait, wm::OCR_WAIT, wm::IDC_WAIT),
    ];
    let changes = set_all(&Cursor::from_handle(0xC0));
    assert_eq!(changes.len(), 14);
    for (i, (cursor_type, system, resource)) in table.iter().enumerate() {
        assert_eq!(ocr(cursor_type), system.0);
        assert_eq!(usize::from(idc(cursor_type)), resource.0 as usize);
        assert_eq!(changes[i], CursorChange { id: system.0, source: 0xC0 });
        assert_eq!(
            xterminate::cursor::set(cursor_type, &Cursor::from_handle(5)),
            CursorChange { id: system.0, source: 5 }
        );
    }
    assert_eq!(ocr(&CursorType::Normal), 32512);
}

#[test]
fn a_cursor_that_cannot_be_loaded_is_an_error() {
    assert_eq!(Cursor::load_from_file(Some(0x77), 0).unwrap().handle(), 0x77);
    assert_eq!(Cursor::load_from_file(Some(0x77), 5).unwrap().handle(), 0x77);
    match Cursor::load_from_file(None, 2) {
        Err(e) => assert_eq!(e.to_string(), "failed to load cursor from file (error code 0x0002)."),
        Ok(cursor) => panic!("loaded {:?}", cursor),
    }
}

#[test]
fn registry_numbers_match_the_system_headers() {
    assert_eq!(HKey::HKeyClassesRoot.to_handle(), reg::HKEY_CLASSES_ROOT.0);
    assert_eq!(HKey::HKeyCurrentConfig.to_handle(), reg::HKEY_CURRENT_CONFIG.0);
    assert_eq!(HKey::HKeyCurrentUser.to_handle(), reg::HKEY_CURRENT_USER.0);
    assert_eq!(HKey::HKeyLocalMachine.to_handle(), reg::HKEY_LOCAL_MACHINE.0);
    assert_eq!(HKey::HKeyUsers.to_handle(), reg::HKEY_USERS.0);
    assert_eq!(ValueType::ExpandSZ.to_id(), reg::REG_EXPAND_SZ.0);
    assert_eq!(ValueType::Sz.to_id(), reg::REG_SZ.0);
    assert_eq!(ValueType::DWord.to_id(), reg::REG_DWORD.0);
    assert_eq!(ValueType::DwordBigEndian.to_id(), reg::REG_DWORD_BIG_ENDIAN.0);
    assert_eq!(ValueType::QWord.to_id(), reg::REG_QWORD.0);
    assert_eq!(ValueType::Binary.to_id(), reg::REG_BINARY.0);
    assert_eq!(ValueType::Link.to_id(), reg::REG_LINK.0);
}

#[test]
fn root_keys_are_shown_by_name() {
    assert_eq!(HKey::HKeyClassesRoot.to_string(), "HKEY_CLASSES_ROOT");
    assert_eq!(HKey::HKeyCurrentConfig.to_string(), "HKEY_CURRENT_CONFIG");
    assert_eq!(HKey::HKeyCurrentUser.as_str(), "HKEY_CURRENT_USER");
    assert_eq!(HKey::HKeyLocalMachine.as_str(), "HKEY_LOCAL_MACHINE");
    assert_eq!(HKey::HKeyUsers.as_str(), "HKEY_USERS");
    assert_eq!(autostart_key(), "SOFTWARE\\Microsoft\\Windows\\CurrentVersion\\Run");
    assert_eq!(settings_key(), "SOFTWARE\\xterminate");
}

#[test]
fn text_values_are_stored_with_their_terminator() {
    assert_eq!(ValueType::Sz.value_size(8), Some(9));
    assert_eq!(ValueType::ExpandSZ.value_size(0), Some(1));
    assert_eq!(ValueType::Binary.value_size(8), Some(8));
    assert_eq!(ValueType::DWord.value_size(4), Some(4));
    assert_eq!(ValueType::QWord.value_size(0), Some(0));
    assert_eq!(ValueType::Binary.value_size(0xFFFF_FFFF), Some(u32::MAX));
    assert_eq!(ValueType::Sz.value_size(0xFFFF_FFFE), Some(u32::MAX));
    assert_eq!(ValueType::Sz.value_size(0xFFFF_FFFF), None);
    assert_eq!(ValueType::Binary.value_size(0x1_0000_0000), None);
}

#[test]
fn registry_changes_make_the_switches_true() {
    assert_eq!(set_autostart(true, false), Change::Write);
    assert_eq!(set_autostart(true, true), Change::Write);
    assert_eq!(set_autostart(false, true), Change::Delete);
    assert_eq!(set_autostart(false, false), Change::Keep);
    assert_eq!(set_autoupdate(true, true), Change::Delete);
    assert_eq!(set_autoupdate(true, false), Change::Keep);
    assert_eq!(set_autoupdate(false, false), Change::Write);
    assert_eq!(set_autoupdate(false, true), Change::Keep);
    assert!(autostart(true));
    assert!(!autostart(false));
    assert!(autoupdate(false));
    assert!(!autoupdate(true));
}

#[test]
fn tray_events_have_their_numbers() {
    let all = [
        TrayEvent::OnMenuSelectExit,
        TrayEvent::OnMenuSelectStartWithWindows,
        TrayEvent::OnMenuSelectResetCursor,
        TrayEvent::OnMenuSelectOpenConfig,
        TrayEvent::OnMenuSelectEnterTerminationMode,
        TrayEvent::OnMenuSelectAbout,
        TrayEvent::OnMenuSelectOpenLoggingDirectory,
        TrayEvent::OnMenuSelectCheckForUpdates,
        TrayEvent::OnMenuSelectUpdateOnStartup,
    ];
    for (number, event) in all.iter().enumerate() {
        assert_eq!(usize::from(event.to_id()), number);
        assert_eq!(TrayEvent::from_id(event.to_id()), Some(*event));
    }
    assert_eq!(TrayEvent::from_id(9), None);
    assert_eq!(TrayEvent::from_id(15), None);
    assert_eq!(TrayEvent::from_id(u16::MAX), None);
}

#[test]
fn tray_messages_are_sorted() {
    assert_eq!(WM_USER_TRAYICON, wm::WM_USER + TRAYICON_ID);
    let click = wm::WM_LBUTTONDOWN as isize;
    assert_eq!(trayicon_input_callback(WM_USER_TRAYICON, 0, click), TrayMessage::ShowMenu);
    assert_eq!(
        trayicon_input_callback(WM_USER_TRAYICON, 0, wm::WM_RBUTTONDOWN as isize),
        TrayMessage::ShowMenu
    );
    assert_eq!(
        trayicon_input_callback(WM_USER_TRAYICON, 0, wm::WM_MOUSEMOVE as isize),
        TrayMessage::Default
    );
    assert_eq!(trayicon_input_callback(WM_USER_TRAYICON, 0, -1), TrayMessage::Default);
    assert_eq!(
        trayicon_input_callback(wm::WM_COMMAND, 0, 0),
        TrayMessage::Select(TrayEvent::OnMenuSelectExit)
    );
    assert_eq!(
        trayicon_input_callback(wm::WM_COMMAND, 4, 0),
        TrayMessage::Select(TrayEvent::OnMenuSelectEnterTerminationMode)
    );
    assert_eq!(
        trayicon_input_callback(wm::WM_COMMAND, 0x1_0005, 99),
        TrayMessage::Select(TrayEvent::OnMenuSelectAbout)
    );
    assert_eq!(
        trayicon_input_callback(wm::WM_COMMAND, 0x18, 0),
        TrayMessage::Select(TrayEvent::OnMenuSelectUpdateOnStartup)
    );
    assert_eq!(trayicon_input_callback(wm::WM_COMMAND, 9, 0), TrayMessage::Default);
    assert_eq!(trayicon_input_callback(wm::WM_COMMAND, 15, 0), TrayMessage::Default);
    assert_eq!(trayicon_input_callback(wm::WM_CLOSE, 0, click), TrayMessage::Default);
}

#[test]
fn selections_reach_the_handler() {
    let mut handler = Selections(vec![]);
    for wparam in [0usize, 2, 9, 4] {
        if let TrayMessage::Select(event) = trayicon_input_callback(wm::WM_COMMAND, wparam, 0) {
            handler.handle(event);
        }
    }
    assert_eq!(
        handler.0,
        vec![
            TrayEvent::OnMenuSelectExit,
            TrayEvent::OnMenuSelectResetCursor,
            TrayEvent::OnMenuSelectEnterTerminationMode
        ]
    );
}

fn item(item: &MenuItem) -> (u32, u32, usize, Option<&str>) {
    (item.position, item.flags, item.id, item.label.as_deref())
}

#[test]
fn menu_flags_match_the_system_headers() {
    assert_eq!(MF_BYPOSITION, wm::MF_BYPOSITION.0);
    assert_eq!(MF_DISABLED, wm::MF_DISABLED.0);
    assert_eq!(MF_SEPARATOR, wm::MF_SEPARATOR.0);
}

#[test]
fn the_menu_builder_numbers_its_items() {
    let mut builder = TrayMenu::new();
    builder
        .add_button("first", Some(TrayEvent::OnMenuSelectAbout))
        .add_separator()
        .add_button("greyed", None)
        .set_position((10, 20));
    let menu = builder.build((1, 2));
    assert_eq!(menu.position(), (10, 20));
    let items: Vec<_> = menu.items().iter().map(item).collect();
    assert_eq!(
        items,
        vec![
            (1, 0x400, 5, Some("first")),
            (2, 0x400 | 0x800, 0, None),
            (3, 0x400 | 0x2, 0, Some("greyed")),
        ]
    );
}

#[test]
fn a_menu_without_a_position_opens_at_the_pointer() {
    let menu = TrayMenu::new().build((300, 400));
    assert_eq!(menu.position(), (300, 400));
    assert!(menu.items().is_empty());
}

#[test]
fn the_tray_menu_lists_every_entry() {
    let click = Keybind::new(vec![KeyCode::LeftControl, KeyCode::LeftAlt, KeyCode::End]);
    let immediate = Keybind::new(vec![KeyCode::LeftControl, KeyCode::LeftAlt, KeyCode::F4]);
    let menu = show_menu(&click, &immediate, false, true, (5, 6));
    assert_eq!(menu.position(), (5, 6));
    let items: Vec<_> = menu.items().iter().map(item).collect();
    assert_eq!(
        items,
        vec![
            (1, 0x400, 5, Some("About xterminate...")),
            (2, 0x400, 3, Some("Edit config...")),
            (3, 0x400, 6, Some("Open logging directory...")),
            (4, 0x400, 7, Some("Check for updates...")),
            (5, 0xC00, 0, None),
            (6, 0x400, 4, Some("Enter termination mode (Left Control + Left Alt + End)")),
            (7, 0x402, 0, Some("Terminate active window (Left Control + Left Alt + F4)")),
            (8, 0x400, 2, Some("Reset cursor")),
            (9, 0xC00, 0, None),
            (10, 0x400, 1, Some("Enable autostart")),
            (11, 0x400, 8, Some("Disable update check on startup")),
            (12, 0xC00, 0, None),
            (13, 0x400, 0, Some("Exit xterminate")),
        ]
    );
    let menu = show_menu(&click, &immediate, true, false, (0, 0));
    assert_eq!(menu.items()[9].label.as_deref(), Some("Disable autostart"));
    assert_eq!(menu.items()[10].label.as_deref(), Some("Enable update check on startup"));
}

#[test]
fn dialog_numbers_match_the_system_headers() {
    assert_eq!(TaskDialogAction::Okay.to_id(), Some(wm::IDOK.0));
    assert_eq!(TaskDialogAction::Cancel.to_id(), Some(wm::IDCANCEL.0));
    assert_eq!(TaskDialogAction::Yes.to_id(), Some(wm::IDYES.0));
    assert_eq!(TaskDialogAction::No.to_id(), Some(wm::IDNO.0));
    assert_eq!(TaskDialogAction::NoAction.to_id(), None);
    assert_eq!(TaskDialogAction::Okay.to_common_button_flag(), controls::TDCBF_OK_BUTTON.0);
    assert_eq!(TaskDialogAction::Yes.to_common_button_flag(), controls::TDCBF_YES_BUTTON.0);
    assert_eq!(TaskDialogAction::No.to_common_button_flag(), controls::TDCBF_NO_BUTTON.0);
    assert_eq!(TaskDialogAction::Cancel.to_common_button_flag(), controls::TDCBF_CANCEL_BUTTON.0);
    assert_eq!(TaskDialogAction::NoAction.to_common_button_flag(), 0);
    assert_eq!(usize::from(TaskDialogIcon::ErrorIcon.to_icon_id()), controls::TD_ERROR_ICON.0 as usize);
    assert_eq!(
        usize::from(TaskDialogIcon::WarningIcon.to_icon_id()),
        controls::TD_WARNING_ICON.0 as usize
    );
    assert_eq!(
        usize::from(TaskDialogIcon::InformationIcon.to_icon_id()),
        controls::TD_INFORMATION_ICON.0 as usize
    );
    assert_eq!(usize::from(TaskDialogIcon::ShieldIcon.to_icon_id()), controls::TD_SHIELD_ICON.0 as usize);
    assert_eq!(TaskDialogIcon::NoIcon.to_icon_id(), 0);
}

#[test]
fn button_ids_are_read_back() {
    assert_eq!(TaskDialogAction::from_id(1), TaskDialogAction::Okay);
    assert_eq!(TaskDialogAction::from_id(2), TaskDialogAction::Cancel);
    assert_eq!(TaskDialogAction::from_id(6), TaskDialogAction::Yes);
    assert_eq!(TaskDialogAction::from_id(7), TaskDialogAction::No);
    assert_eq!(TaskDialogAction::from_id(0), TaskDialogAction::NoAction);
    assert_eq!(TaskDialogAction::from_id(3), TaskDialogAction::NoAction);
    assert_eq!(TaskDialogAction::from_id(-1), TaskDialogAction::NoAction);
}

#[test]
fn a_new_dialog_is_empty() {
    let dialog = TaskDialogBuilder::new();
    assert_eq!(dialog.title(), &vec![0]);
    assert_eq!(dialog.heading(), &vec![0]);
    assert_eq!(dialog.content(), &vec![0]);
    assert_eq!(dialog.footer(), &vec![0]);
    assert_eq!(dialog.verification_text(), &vec![0]);
    assert_eq!(dialog.icon(), TaskDialogIcon::NoIcon);
    assert_eq!(dialog.flags(), 0);
    assert_eq!(dialog.common_buttons(), 0);
    assert_eq!(
        dialog.callback_data(),
        TaskDialogCallbackData {
            dialog_handle: 0,
            dialog_progress: false,
            dialog_progress_min: 0,
            dialog_progress_max: 100
        }
    );
}

#[test]
fn dialog_settings_are_chained() {
    let mut dialog = TaskDialogBuilder::new();
    dialog
        .set_title("Update xterminate")
        .set_icon(TaskDialogIcon::InformationIcon)
        .set_heading("Update xterminate from v1.0.0 to v2.0.0?")
        .set_content("A new version was found! – ü")
        .set_footer("foot")
        .add_button(TaskDialogAction::Yes)
        .add_button(TaskDialogAction::No)
        .set_verification("Do not check for updates in the future", true);
    assert_eq!(dialog.title(), &wide("Update xterminate"));
    assert_eq!(dialog.heading(), &wide("Update xterminate from v1.0.0 to v2.0.0?"));
    assert_eq!(dialog.content(), &wide("A new version was found! – ü"));
    assert_eq!(dialog.footer(), &wide("foot"));
    assert_eq!(dialog.verification_text(), &wide("Do not check for updates in the future"));
    assert_eq!(dialog.icon(), TaskDialogIcon::InformationIcon);
    assert_eq!(dialog.common_buttons(), controls::TDCBF_YES_BUTTON.0 | controls::TDCBF_NO_BUTTON.0);
    assert_eq!(dialog.common_buttons(), 6);
    assert_eq!(dialog.flags(), controls::TDF_VERIFICATION_FLAG_CHECKED.0);
    dialog.set_title("again");
    assert_eq!(dialog.title(), &wide("again"));
    assert_eq!(dialog.heading(), &wide("Update xterminate from v1.0.0 to v2.0.0?"));
}

#[test]
fn dialog_flags_follow_the_settings() {
    let mut dialog = TaskDialogBuilder::new();
    dialog.set_hyperlinks_enabled(true);
    assert_eq!(dialog.flags(), controls::TDF_ENABLE_HYPERLINKS.0);
    dialog.set_progress(5, 50);
    assert_eq!(
        dialog.flags(),
        controls::TDF_ENABLE_HYPERLINKS.0
            | controls::TDF_CALLBACK_TIMER.0
            | controls::TDF_SHOW_PROGRESS_BAR.0
    );
    dialog.set_hyperlinks_enabled(false).set_verification("", true);
    assert_eq!(dialog.flags(), 0x0100 | 0x0800 | 0x0200);
    dialog.set_verification("x", false);
    assert_eq!(dialog.flags(), 0x0800 | 0x0200);
    assert_eq!(
        dialog.callback_data(),
        TaskDialogCallbackData {
            dialog_handle: 0,
            dialog_progress: true,
            dialog_progress_min: 5,
            dialog_progress_max: 50
        }
    );
    dialog
        .add_button(TaskDialogAction::Cancel)
        .add_button(TaskDialogAction::Okay)
        .add_button(TaskDialogAction::Cancel)
        .add_button(TaskDialogAction::NoAction);
    assert_eq!(dialog.common_buttons(), 9);
}

#[test]
fn words_are_packed_low_first() {
    assert_eq!(pack_words(0, 100), 100 << 16);
    assert_eq!(pack_words(1, 0), 1);
    assert_eq!(pack_words(0x1234, 0xABCD), 0xABCD_1234);
    assert_eq!(pack_words(u16::MAX, u16::MAX), u32::MAX);
}

#[test]
fn the_dialog_callback_follows_the_notifications() {
    let mut data = TaskDialogCallbackData {
        dialog_handle: 0,
        dialog_progress: true,
        dialog_progress_min: 0,
        dialog_progress_max: 100,
    };
    let constructed = controls::TDN_DIALOG_CONSTRUCTED.0 as u32;
    let timer = controls::TDN_TIMER.0 as u32;
    let link = controls::TDN_HYPERLINK_CLICKED.0 as u32;
    let button = controls::TDN_BUTTON_CLICKED.0 as u32;
    assert_eq!(
        data.dialog_notification_callback(0xD1, constructed, 0),
        (TaskDialogCommand::SetProgressRange(100 << 16), 0)
    );
    assert_eq!(data.dialog_handle, 0xD1);
    assert_eq!(
        data.dialog_notification_callback(0xD1, timer, 42),
        (TaskDialogCommand::SetProgressPosition(42), 0)
    );
    assert_eq!(data.dialog_notification_callback(0xD1, link, 42), (TaskDialogCommand::OpenHyperlink, 0));
    assert_eq!(data.dialog_notification_callback(0xD1, button, 99), (TaskDialogCommand::Nothing, 0));
    assert_eq!(data.dialog_notification_callback(0xD1, button, 100), (TaskDialogCommand::EndWithOk, 1));
    assert_eq!(data.dialog_notification_callback(0xD1, button, 101), (TaskDialogCommand::EndWithOk, 1));
    assert_eq!(
        data.dialog_notification_callback(0xD1, controls::TDN_CREATED.0 as u32, 100),
        (TaskDialogCommand::Nothing, 0)
    );
    assert_eq!(data.dialog_handle, 0xD1);
}

#[test]
fn a_dialog_without_progress_has_no_bar_to_move() {
    let mut data = TaskDialogCallbackData {
        dialog_handle: 0,
        dialog_progress: false,
        dialog_progress_min: 0,
        dialog_progress_max: 100,
    };
    assert_eq!(data.dialog_notification_callback(9, 7, 0), (TaskDialogCommand::Nothing, 0));
    assert_eq!(data.dialog_handle, 9);
    assert_eq!(data.dialog_notification_callback(9, 4, 50), (TaskDialogCommand::Nothing, 0));
    assert_eq!(data.dialog_notification_callback(9, 2, 100), (TaskDialogCommand::Nothing, 0));
    assert_eq!(data.dialog_notification_callback(9, 3, 0), (TaskDialogCommand::OpenHyperlink, 0));
}

#[test]
fn dialog_commands_match_the_system_headers() {
    assert_eq!(xterminate::ui::taskdialog::TDM_SET_PROGRESS_BAR_RANGE, controls::TDM_SET_PROGRESS_BAR_RANGE.0 as u32);
    assert_eq!(xterminate::ui::taskdialog::TDM_SET_PROGRESS_BAR_POS, controls::TDM_SET_PROGRESS_BAR_POS.0 as u32);
    assert_eq!(xterminate::ui::taskdialog::S_OK, windows::Win32::Foundation::S_OK.0);
    assert_eq!(xterminate::ui::taskdialog::S_FALSE, windows::Win32::Foundation::S_FALSE.0);
}

#[test]
fn a_dialog_result_reports_completed_progress_only() {
    assert_eq!(
        TaskDialogResult::new(6, true, None, 100),
        TaskDialogResult { verified: true, action: TaskDialogAction::Yes, progress: None }
    );
    assert_eq!(
        TaskDialogResult::new(2, false, Some(99), 100),
        TaskDialogResult { verified: false, action: TaskDialogAction::Cancel, progress: None }
    );
    assert_eq!(
        TaskDialogResult::new(1, false, Some(100), 100),
        TaskDialogResult { verified: false, action: TaskDialogAction::Okay, progress: Some(100) }
    );
    assert_eq!(TaskDialogResult::new(0, false, Some(7), 5).progress, Some(7));
    assert_eq!(TaskDialogResult::new(0, false, Some(0), 0).action, TaskDialogAction::NoAction);
}

#[test]
fn versions_are_read_digit_by_digit() {
    assert_eq!(Version::parse("2.1.0"), Some(Version { major: 2, minor: 1, patch: 0 }));
    assert_eq!(Version::parse("0.0.9"), Some(Version { major: 0, minor: 0, patch: 9 }));
    assert_eq!(Version::parse("1.2.3-beta"), Some(Version { major: 1, minor: 2, patch: 3 }));
    assert_eq!(Version::parse("1x2y3"), Some(Version { major: 1, minor: 2, patch: 3 }));
    assert_eq!(Version::parse("1.2"), None);
    assert_eq!(Version::parse("1.2."), None);
    assert_eq!(Version::parse(""), None);
    assert_eq!(Version::parse("v1.2.3"), None);
    assert_eq!(Version::parse("a.2.3"), None);
    assert_eq!(Version::parse("1.b.3"), None);
    assert_eq!(Version::parse("1.2.c"), None);
    assert_eq!(Version::parse("10.2.3"), None);
    assert_eq!(Version::parse("/.:.3"), None);
}

#[test]
fn versions_are_ordered_by_major_minor_patch() {
    let version = |major, minor, patch| Version { major, minor, patch };
    assert!(version(2, 0, 0).is_newer_than(&version(1, 9, 9)));
    assert!(version(1, 2, 0).is_newer_than(&version(1, 1, 9)));
    assert!(version(1, 1, 2).is_newer_than(&version(1, 1, 1)));
    assert!(!version(1, 1, 1).is_newer_than(&version(1, 1, 1)));
    assert!(!version(1, 9, 9).is_newer_than(&version(2, 0, 0)));
    assert!(!version(1, 1, 9).is_newer_than(&version(1, 2, 0)));
    assert!(!version(1, 1, 1).is_newer_than(&version(1, 1, 2)));
}

#[test]
fn the_latest_release_is_the_first_with_the_newest_version() {
    let releases = vec![
        ReleaseInfo { version: "1.0.0".into(), download_url: "a".into() },
        ReleaseInfo { version: "2.1.0".into(), download_url: "b".into() },
        ReleaseInfo { version: "2.0.5".into(), download_url: "c".into() },
        ReleaseInfo { version: "2.1.0".into(), download_url: "d".into() },
    ];
    let latest = query_latest(&releases).unwrap();
    assert_eq!(latest.version, "2.1.0");
    assert_eq!(latest.download_url, "b");
    assert_eq!(query_latest(&versions(&["1.0.0"])).unwrap().version, "1.0.0");
    assert_eq!(query_latest(&versions(&["0.0.1", "0.1.0", "0.0.9"])).unwrap().version, "0.1.0");
}

#[test]
fn releases_without_a_readable_version_are_passed_over() {
    assert!(query_latest(&vec![]).is_none());
    assert!(query_latest(&versions(&["0.0.0"])).is_none());
    assert!(query_latest(&versions(&["latest", "", "v1.0.0"])).is_none());
    assert_eq!(query_latest(&versions(&["nightly", "1.2.3", "x"])).unwrap().version, "1.2.3");
}

#[test]
fn only_a_newer_release_is_offered() {
    assert_eq!(check("2.0.0", Some(release("2.0.1"))).unwrap().version, "2.0.1");
    assert_eq!(check("1.9.9", Some(release("2.0.0"))).unwrap().download_url, "url of 2.0.0");
    assert!(check("2.0.0", Some(release("2.0.0"))).is_none());
    assert!(check("2.0.1", Some(release("2.0.0"))).is_none());
    assert!(check("2.0.0", None).is_none());
    assert!(check("dev", Some(release("9.9.9"))).is_none());
    assert!(check("1.0.0", Some(release("newest"))).is_none());
}

#[test]
fn releases_are_read_from_tag_names() {
    let release = release_of_tag("refs/tags/v2.1.0").unwrap();
    assert_eq!(release.version, "2.1.0");
    assert_eq!(
        release.download_url,
        "https://github.com/imxela/xterminate/releases/download/v2.1.0/xterminate-setup.exe"
    );
    assert_eq!(release_of_tag("a/bc").unwrap().version, "c");
    assert_eq!(release_of_tag("a/b").unwrap().version, "");
    assert!(release_of_tag("a/").is_none());
    assert!(release_of_tag("v2.1.0").is_none());
    assert!(release_of_tag("").is_none());
}

#[test]
fn all_releases_are_listed_in_order() {
    let tags: Vec<String> = ["refs/tags/v1.0.0", "broken", "refs/tags/v1.2.0", "refs/tags/", "refs/tags/v2.0.0"]
        .iter()
        .map(|tag| tag.to_string())
        .collect();
    let releases = query_all(&tags);
    let found: Vec<&str> = releases.iter().map(|release| release.version.as_str()).collect();
    assert_eq!(found, vec!["1.0.0", "1.2.0", "2.0.0"]);
    assert_eq!(
        releases[1].download_url,
        "https://github.com/imxela/xterminate/releases/download/v1.2.0/xterminate-setup.exe"
    );
    assert_eq!(query_latest(&releases).unwrap().version, "2.0.0");
    assert!(query_all(&vec![]).is_empty());
}

#[test]
fn download_addresses_are_built_from_the_version() {
    assert_eq!(
        download_url(&release("2.1.0")),
        "https://github.com/imxela/xterminate/releases/download/v2.1.0/xterminate-portable.zip"
    );
    assert_eq!(user_agent("2.0.0"), "xterminate/2.0.0");
}

#[test]
fn download_progress_is_a_percentage() {
    assert_eq!(download_progress(0, 1000), Some(0));
    assert_eq!(download_progress(500, 1000), Some(50));
    assert_eq!(download_progress(999, 1000), Some(99));
    assert_eq!(download_progress(1000, 1000), Some(100));
    assert_eq!(download_progress(1, 3), Some(33));
    assert_eq!(download_progress(2000, 1000), Some(200));
    assert_eq!(download_progress(5, 0), None);
    assert_eq!(download_progress(usize::MAX, 1000), None);
    assert_eq!(download_progress(usize::MAX / 100, 1), None);
}

#[test]
fn the_answer_to_an_offer_is_read_from_the_dialog() {
    let result = |verified, action| TaskDialogResult { verified, action, progress: None };
    assert_eq!(
        update_choice(&result(false, TaskDialogAction::Yes)),
        UpdateChoice { autoupdate: true, install: true }
    );
    assert_eq!(
        update_choice(&result(true, TaskDialogAction::Yes)),
        UpdateChoice { autoupdate: false, install: true }
    );
    assert_eq!(
        update_choice(&result(true, TaskDialogAction::No)),
        UpdateChoice { autoupdate: false, install: false }
    );
    assert_eq!(
        update_choice(&result(false, TaskDialogAction::Cancel)),
        UpdateChoice { autoupdate: true, install: false }
    );
    assert!(!update_choice(&result(false, TaskDialogAction::Okay)).install);
}

#[test]
fn an_update_is_complete_at_one_hundred_percent() {
    let result = |progress| TaskDialogResult { verified: false, action: TaskDialogAction::Cancel, progress };
    assert_eq!(update(&result(Some(100))), Ok(()));
    assert_eq!(update(&result(Some(250))), Ok(()));
    assert_eq!(update(&result(Some(99))), Err(UpdateError::Interrupted));
    assert_eq!(update(&result(Some(0))), Err(UpdateError::Interrupted));
    assert_eq!(update(&result(None)), Err(UpdateError::Interrupted));
}

#[test]
fn update_errors_have_their_messages() {
    assert_eq!(UpdateError::QueryReleases.to_string(), "unable to query releases from GitHub");
    assert_eq!(UpdateError::DownloadRelease.to_string(), "unable to download release from GitHub");
    assert_eq!(UpdateError::TokioRuntime.to_string(), "unable to construct Tokio runtime");
    assert_eq!(UpdateError::Zip.as_str(), "unable to extract update files");
    assert_eq!(UpdateError::Interrupted.as_str(), "update was interrupted by user");
    assert_eq!(UpdateError::RemoveOld.as_str(), "failed to remove previous version");
}

#[test]
fn log_files_are_kept_for_a_week() {
    assert!(!expired(day(2024, 1, 1), day(2024, 1, 1)));
    assert!(!expired(day(2024, 1, 1), day(2024, 1, 7)));
    assert!(!expired(day(2024, 1, 1), day(2024, 1, 8)));
    assert!(expired(day(2024, 1, 1), day(2024, 1, 9)));
    assert!(expired(day(2023, 12, 25), day(2024, 1, 2)));
    assert!(!expired(day(2024, 2, 1), day(2024, 1, 1)));
    assert!(!expired(i32::MAX, i32::MAX));
    assert!(expired(i32::MIN, i32::MAX));
    assert!(!expired(i32::MAX, i32::MIN));
}

#[test]
fn log_files_are_dated_by_their_names() {
    let today = day(2024, 3, 10);
    assert_eq!(is_expired("2024-03-10.log", today), Some(false));
    assert_eq!(is_expired("2024-03-03.log", today), Some(false));
    assert_eq!(is_expired("2024-03-02.log", today), Some(true));
    assert_eq!(is_expired("2024-02-29.log", today), Some(true));
    assert_eq!(is_expired("2023-03-09.log", today), Some(true));
    assert_eq!(is_expired("2024-03-02", today), Some(true));
    assert_eq!(is_expired("2024-03-02.log.old", today), None);
    assert_eq!(is_expired("2024-02-30.log", today), None);
    assert_eq!(is_expired("2024-13-01.log", today), None);
    assert_eq!(is_expired("notes.txt", today), None);
    assert_eq!(is_expired("", today), None);
    assert_eq!(is_expired("2024-03-02.backtrace", day(2024, 3, 9)), Some(false));
}

#[test]
fn the_log_directory_is_swept() {
    let entries: Vec<String> = ["2024-03-01.log", "readme.md", "2024-03-09.log", "2024-01-01.log", "2024-03-02.log"]
        .iter()
        .map(|name| name.to_string())
        .collect();
    assert_eq!(initialize(&entries, day(2024, 3, 10)), vec![true, false, false, true, true]);
    assert_eq!(initialize(&entries, day(2024, 3, 9)), vec![true, false, false, true, false]);
    assert_eq!(initialize(&entries, day(2024, 1, 1)), vec![false, false, false, false, false]);
    assert!(initialize(&vec![], day(2024, 1, 1)).is_empty());
}

#[test]
fn file_stems_are_cut_at_the_last_dot() {
    for name in ["2024-03-01.log", "a.b.c", "noext", ".hidden", "x.", "..", ".a.b", ""] {
        let expected = std::path::Path::new(name)
            .file_stem()
            .map(|stem| stem.to_str().unwrap().to_string())
            .unwrap_or_default();
        if name != ".." {
            assert_eq!(file_stem(name), expected, "{:?}", name);
        }
    }
    assert_eq!(file_stem("2024-03-01.log"), "2024-03-01");
    assert_eq!(file_stem(".hidden"), ".hidden");
    assert_eq!(file_stem("a.b.c"), "a.b");
}

#[test]
fn log_entries_are_formatted() {
    assert_eq!(
        log("12:00:00.000", "src\\main.rs", 42, "Running application"),
        "[12:00:00.000] [src\\main.rs:42] Running application"
    );
    assert_eq!(log("t", "f", 0, "a\nb\nc"), "[t] [f:0] a\n\tb\n\tc");
    assert_eq!(log("", "", u32::MAX, ""), "[] [:4294967295] ");
    assert_eq!(log_filepath("C:\\x\\logs", "2024-03-01"), "C:\\x\\logs\\2024-03-01.log");
}

#[test]
fn a_dialog_is_closed_by_a_click_on_ok() {
    assert_eq!(xterminate::ui::taskdialog::close(), (wm::WM_COMMAND, 1));
    assert_eq!(
        xterminate::ui::taskdialog::close().1,
        pack_words(wm::IDOK.0 as u16, wm::BN_CLICKED as u16)
    );
}

#[test]
fn instances_are_counted_by_the_name_of_the_executable() {
    let names = |names: &[&str]| -> Vec<Vec<u8>> {
        names.iter().map(|name| name.as_bytes().to_vec()).collect()
    };
    let own = b"xterminate.exe".to_vec();
    let listing = names(&[
        "System",
        "xterminate.exe",
        "explorer.exe",
        "xterminate.exe\0\0\0\0",
        "xterminate",
        "Xterminate.exe",
        "xterminate.exe.old",
        "",
    ]);
    assert_eq!(xterminate::process::instance_count(&listing, &own), 3);
    assert_eq!(xterminate::process::instance_count(&vec![], &own), 0);
    assert_eq!(xterminate::process::instance_count(&listing, &vec![]), 8);
    assert!(xterminate::process::starts_with(&b"abc".to_vec(), &b"ab".to_vec()));
    assert!(xterminate::process::starts_with(&b"abc".to_vec(), &b"abc".to_vec()));
    assert!(!xterminate::process::starts_with(&b"abc".to_vec(), &b"abcd".to_vec()));
    assert!(!xterminate::process::starts_with(&b"abc".to_vec(), &b"b".to_vec()));
}

#[test]
fn the_tooltip_fills_its_field() {
    let text = xterminate::tray::tooltip_text();
    assert_eq!(text, "xterminate says hi! :)");
    let field = xterminate::tray::tooltip(&text.as_bytes().to_vec());
    assert_eq!(&field[..text.len()], text.as_bytes());
    assert!(field[text.len()..].iter().all(|byte| *byte == 0));
    assert_eq!(xterminate::tray::tooltip(&vec![]), [0u8; 128]);
    let longest = vec![b'x'; 127];
    let field = xterminate::tray::tooltip(&longest);
    assert_eq!(&field[..127], longest.as_slice());
    assert_eq!(field[127], 0);
}

#[test]
fn a_failure_is_reported_with_its_reason() {
    assert_eq!(
        xterminate::error::on_panic(Some("boom"), "details", "C:\\logs\\x.backtrace"),
        "Unexpected error: boom.\n\nPanic Information:\n\ndetails\n\nBacktrace saved to 'C:\\logs\\x.backtrace'.\n\nSorry. :("
    );
    assert_eq!(
        xterminate::error::on_panic(None, "", ""),
        "An unexpected error ocurred but no additional error information was supplied.\n\nPanic Information:\n\n\n\nBacktrace saved to ''.\n\nSorry. :("
    );
}

#[test]
fn a_command_line_is_the_path_and_the_arguments() {
    let args = |args: &[&str]| -> Vec<String> { args.iter().map(|arg| arg.to_string()).collect() };
    assert_eq!(
        xterminate::app::command_line("C:\\Windows\\notepad.exe", &args(&["C:\\x\\config.toml"])),
        "C:\\Windows\\notepad.exe C:\\x\\config.toml"
    );
    assert_eq!(xterminate::app::command_line("a.exe", &args(&[])), "a.exe ");
    assert_eq!(xterminate::app::command_line("a.exe", &args(&["-x", " -y"])), "a.exe -x -y");
    assert_eq!(xterminate::app::command_line("a.exe", &args(&["b", "c"])), "a.exe bc");
}
