pub mod menu;

use vstd::prelude::*;

use crate::input::Keybind;
use crate::tray::menu::{MenuItemView, TrayMenu};

verus! {

/// The number of the tray icon among the icons of the application.
pub const TRAYICON_ID: u32 = 1;

/// The first window message that applications may define themselves.
pub const WM_USER: u32 = 0x0400;

/// The window message by which the tray icon reports mouse input.
pub const WM_USER_TRAYICON: u32 = 0x0401;

/// Window message sent when a menu item is selected.
pub const WM_COMMAND: u32 = 0x0111;

/// Window message sent when the left mouse button goes down.
pub const WM_LBUTTONDOWN: u32 = 0x0201;

/// Window message sent when the right mouse button goes down.
pub const WM_RBUTTONDOWN: u32 = 0x0204;

/// An entry of the menu of the tray icon that was selected.
#[derive(Clone, Copy, Debug, PartialEq, Eq, Structural)]
pub enum TrayEvent {
    OnMenuSelectExit,
    OnMenuSelectStartWithWindows,
    OnMenuSelectResetCursor,
    OnMenuSelectOpenConfig,
    OnMenuSelectEnterTerminationMode,
    OnMenuSelectAbout,
    OnMenuSelectOpenLoggingDirectory,
    OnMenuSelectCheckForUpdates,
    OnMenuSelectUpdateOnStartup,
}

/// What the window of the tray icon does with a window message.
#[derive(Clone, Copy, Debug, PartialEq, Eq, Structural)]
pub enum TrayMessage {
    /// The icon was clicked: show the menu.
    ShowMenu,
    /// An entry of the menu was selected: hand the event to the handler.
    Select(TrayEvent),
    /// Anything else: leave it to the default window procedure.
    Default,
}

/// The receiver of the selections made in the menu of the tray icon.
pub trait TrayEventHandler {
    /// Called once for every selection.
    fn handle(&mut self, event: TrayEvent);
}

impl TrayEvent {
    /// The number that a menu item reports for this event.
    pub open spec fn id(self) -> u16 {
        match self {
            TrayEvent::OnMenuSelectExit => 0,
            TrayEvent::OnMenuSelectStartWithWindows => 1,
            TrayEvent::OnMenuSelectResetCursor => 2,
            TrayEvent::OnMenuSelectOpenConfig => 3,
            TrayEvent::OnMenuSelectEnterTerminationMode => 4,
            TrayEvent::OnMenuSelectAbout => 5,
            TrayEvent::OnMenuSelectOpenLoggingDirectory => 6,
            TrayEvent::OnMenuSelectCheckForUpdates => 7,
            TrayEvent::OnMenuSelectUpdateOnStartup => 8,
        }
    }

    /// The event with the number `v`, if there is one.
    pub open spec fn of_id(v: u16) -> Option<TrayEvent> {
        match v {
            0 => Some(TrayEvent::OnMenuSelectExit),
            1 => Some(TrayEvent::OnMenuSelectStartWithWindows),
            2 => Some(TrayEvent::OnMenuSelectResetCursor),
            3 => Some(TrayEvent::OnMenuSelectOpenConfig),
            4 => Some(TrayEvent::OnMenuSelectEnterTerminationMode),
            5 => Some(TrayEvent::OnMenuSelectAbout),
            6 => Some(TrayEvent::OnMenuSelectOpenLoggingDirectory),
            7 => Some(TrayEvent::OnMenuSelectCheckForUpdates),
            8 => Some(TrayEvent::OnMenuSelectUpdateOnStartup),
            _ => None,
        }
    }

    /// Returns the number that a menu item reports for this event.
    pub fn to_id(self) -> (r: u16)
        ensures
            r == self.id(),
    {
        match self {
            TrayEvent::OnMenuSelectExit => 0,
            TrayEvent::OnMenuSelectStartWithWindows => 1,
            TrayEvent::OnMenuSelectResetCursor => 2,
            TrayEvent::OnMenuSelectOpenConfig => 3,
            TrayEvent::OnMenuSelectEnterTerminationMode => 4,
            TrayEvent::OnMenuSelectAbout => 5,
            TrayEvent::OnMenuSelectOpenLoggingDirectory => 6,
            TrayEvent::OnMenuSelectCheckForUpdates => 7,
            TrayEvent::OnMenuSelectUpdateOnStartup => 8,
        }
    }

    /// Returns the event with the number `v`; `None` for a number that no
    /// event has.
    pub fn from_id(v: u16) -> (r: Option<TrayEvent>)
        ensures
            r == Self::of_id(v),
            match r {
                Some(event) => event.id() == v,
                None => forall|event: TrayEvent| event.id() != v,
            },
    {
        match v {
            0 => Some(TrayEvent::OnMenuSelectExit),
            1 => Some(TrayEvent::OnMenuSelectStartWithWindows),
            2 => Some(TrayEvent::OnMenuSelectResetCursor),
            3 => Some(TrayEvent::OnMenuSelectOpenConfig),
            4 => Some(TrayEvent::OnMenuSelectEnterTerminationMode),
            5 => Some(TrayEvent::OnMenuSelectAbout),
            6 => Some(TrayEvent::OnMenuSelectOpenLoggingDirectory),
            7 => Some(TrayEvent::OnMenuSelectCheckForUpdates),
            8 => Some(TrayEvent::OnMenuSelectUpdateOnStartup),
            _ => None,
        }
    }
}

/// The number of an event leads back to the event.
pub proof fn lemma_event_id_round_trip(event: TrayEvent)
    ensures
        TrayEvent::of_id(event.id()) == Some(event),
        event.id() < 16,
{
}

/// What a window message means to the window of the tray icon. A mouse button
/// going down on the icon shows the menu. A command carries the number of the
/// selected entry in the lowest four bits of `wparam`; a number that no entry
/// has is left to the default window procedure, as is every other message.
pub open spec fn tray_message(msg: u32, wparam: usize, lparam: isize) -> TrayMessage {
    if msg == WM_USER_TRAYICON {
        if lparam == WM_LBUTTONDOWN || lparam == WM_RBUTTONDOWN {
            TrayMessage::ShowMenu
        } else {
            TrayMessage::Default
        }
    } else if msg == WM_COMMAND {
        match TrayEvent::of_id((wparam & 0xF) as u16) {
            Some(event) => TrayMessage::Select(event),
            None => TrayMessage::Default,
        }
    } else {
        TrayMessage::Default
    }
}

/// Sorts a window message of the window of the tray icon by what has to be
/// done for it.
pub fn trayicon_input_callback(msg: u32, wparam: usize, lparam: isize) -> (r: TrayMessage)
    ensures
        r == tray_message(msg, wparam, lparam),
{
    if msg == WM_USER_TRAYICON {
        if lparam == 0x0201 || lparam == 0x0204 {
            TrayMessage::ShowMenu
        } else {
            TrayMessage::Default
        }
    } else if msg == WM_COMMAND {
        let low: usize = wparam & 0xF;
        assert(wparam & 0xF <= 0xF) by (bit_vector);
        match TrayEvent::from_id(low as u16) {
            Some(event) => TrayMessage::Select(event),
            None => TrayMessage::Default,
        }
    } else {
        TrayMessage::Default
    }
}

/// The text that the tray icon shows when the mouse pointer rests on it.
pub fn tooltip_text() -> (r: &'static str)
    ensures
        r@ == "xterminate says hi! :)"@,
{
    "xterminate says hi! :)"
}

/// Fills the field that holds the tooltip of a tray icon: the bytes of
/// `text`, followed by zeros. The field has room for 127 bytes and the
/// terminating zero.
pub fn tooltip(text: &Vec<u8>) -> (r: [u8; 128])
    requires
        text.len() < 128,
    ensures
        forall|i: int| 0 <= i < text.len() ==> r[i] == text[i],
        forall|i: int| text.len() <= i < 128 ==> r[i] == 0,
{
    let mut field = [0u8; 128];
    let mut i: usize = 0;
    while i < text.len()
        invariant
            0 <= i <= text.len() < 128,
            forall|j: int| 0 <= j < i ==> field[j] == text[j],
            forall|j: int| i <= j < 128 ==> field[j] == 0,
        decreases text.len() - i,
    {
        field.set(i, text[i]);
        i = i + 1;
    }
    field
}

/// The text of the entry that switches starting with the system.
pub open spec fn autostart_label(enabled: bool) -> Seq<char> {
    if enabled {
        "Disable autostart"@
    } else {
        "Enable autostart"@
    }
}

/// The text of the entry that switches the update check at startup.
pub open spec fn autoupdate_label(enabled: bool) -> Seq<char> {
    if enabled {
        "Disable update check on startup"@
    } else {
        "Enable update check on startup"@
    }
}

/// The items of the menu of the tray icon, from top to bottom. `click` and
/// `immediate` are the texts of the keybinds that enter the targeting mode
/// and that terminate the focused window. The entry for the focused window is
/// there to show its keybind and cannot be selected.
pub open spec fn menu_entries(
    click: Seq<char>,
    immediate: Seq<char>,
    autostart_enabled: bool,
    autoupdate_enabled: bool,
) -> Seq<MenuItemView> {
    seq![
        MenuItemView::button(1, "About xterminate..."@, Some(TrayEvent::OnMenuSelectAbout)),
        MenuItemView::button(2, "Edit config..."@, Some(TrayEvent::OnMenuSelectOpenConfig)),
        MenuItemView::button(
            3,
            "Open logging directory..."@,
            Some(TrayEvent::OnMenuSelectOpenLoggingDirectory),
        ),
        MenuItemView::button(
            4,
            "Check for updates..."@,
            Some(TrayEvent::OnMenuSelectCheckForUpdates),
        ),
        MenuItemView::separator(5),
        MenuItemView::button(
            6,
            "Enter termination mode ("@ + click + ")"@,
            Some(TrayEvent::OnMenuSelectEnterTerminationMode),
        ),
        MenuItemView::button(7, "Terminate active window ("@ + immediate + ")"@, None),
        MenuItemView::button(8, "Reset cursor"@, Some(TrayEvent::OnMenuSelectResetCursor)),
        MenuItemView::separator(9),
        MenuItemView::button(
            10,
            autostart_label(autostart_enabled),
            Some(TrayEvent::OnMenuSelectStartWithWindows),
        ),
        MenuItemView::button(
            11,
            autoupdate_label(autoupdate_enabled),
            Some(TrayEvent::OnMenuSelectUpdateOnStartup),
        ),
        MenuItemView::separator(12),
        MenuItemView::button(13, "Exit xterminate"@, Some(TrayEvent::OnMenuSelectExit)),
    ]
}

/// Builds the menu of the tray icon. `terminate_click` and
/// `terminate_immediate` are the keybinds whose keys the menu shows;
/// `autostart_enabled` and `autoupdate_enabled` say which way the two
/// switches go; `cursor` is the position of the mouse pointer, where the menu
/// opens.
pub fn show_menu(
    terminate_click: &Keybind,
    terminate_immediate: &Keybind,
    autostart_enabled: bool,
    autoupdate_enabled: bool,
    cursor: (i32, i32),
) -> (r: TrayMenu)
    ensures
        r.entries() == menu_entries(
            Keybind::text_of(terminate_click@),
            Keybind::text_of(terminate_immediate@),
            autostart_enabled,
            autoupdate_enabled,
        ),
        r.place() == cursor,
{
    let mut enter = String::from_str("Enter termination mode (");
    enter.append(terminate_click.to_string().as_str());
    enter.append(")");
    let mut active = String::from_str("Terminate active window (");
    active.append(terminate_immediate.to_string().as_str());
    active.append(")");

    let mut menu = TrayMenu::new();
    menu.add_button("About xterminate...", Some(TrayEvent::OnMenuSelectAbout))
        .add_button("Edit config...", Some(TrayEvent::OnMenuSelectOpenConfig))
        .add_button("Open logging directory...", Some(TrayEvent::OnMenuSelectOpenLoggingDirectory))
        .add_button("Check for updates...", Some(TrayEvent::OnMenuSelectCheckForUpdates))
        .add_separator()
        .add_button(enter.as_str(), Some(TrayEvent::OnMenuSelectEnterTerminationMode))
        .add_button(active.as_str(), None)
        .add_button("Reset cursor", Some(TrayEvent::OnMenuSelectResetCursor))
        .add_separator()
        .add_button(
            if autostart_enabled {
                "Disable autostart"
            } else {
                "Enable autostart"
            },
            Some(TrayEvent::OnMenuSelectStartWithWindows),
        )
        .add_button(
            if autoupdate_enabled {
                "Disable update check on startup"
            } else {
                "Enable update check on startup"
            },
            Some(TrayEvent::OnMenuSelectUpdateOnStartup),
        )
        .add_separator()
        .add_button("Exit xterminate", Some(TrayEvent::OnMenuSelectExit));
    let built = menu.build(cursor);
    proof {
        assert(built.entries() =~= menu_entries(
            Keybind::text_of(terminate_click@),
            Keybind::text_of(terminate_immediate@),
            autostart_enabled,
            autoupdate_enabled,
        ));
    }
    built
}

} // verus!
