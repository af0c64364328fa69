use vstd::prelude::*;

use crate::config::{Config, Keybinds};
use crate::input::{KeyCode, KeyState, KeyStatus, Keybind};
use crate::process::Process;
use crate::termination::Termination;
use crate::text::{directory, directory_of, join_path, joined};
use crate::tray::TrayEvent;

verus! {

/// What the application is doing.
#[derive(Clone, Copy, Debug, PartialEq, Eq, Structural)]
pub enum AppState {
    /// Waiting for a keybind.
    Standby,
    /// Targeting: the next confirmation terminates the window under the
    /// pointer.
    Active,
    /// Exiting. Nothing leads out of this state.
    Shutdown,
}

/// What the system cursor looks like.
#[derive(Clone, Copy, Debug, PartialEq, Eq, Structural)]
pub enum CursorLook {
    /// The cursors that the user has chosen for the system.
    System,
    /// The cursor of the application, in place of every system cursor.
    Custom,
}

/// What has to be done on the desktop after the application has reacted to a
/// key or to a menu entry.
#[derive(Clone, Copy, Debug, PartialEq, Eq, Structural)]
pub enum Action {
    /// Nothing. For a key event this means that the event was not for the
    /// application and is passed on.
    Ignore,
    /// Load the cursor of the application and put it in place of every system
    /// cursor.
    SetCursor,
    /// Put the system cursors back.
    ResetCursor,
    /// Put the system cursors back, then terminate the process of the window
    /// under the pointer.
    TerminateAtPointer,
    /// Terminate the process of the window that has the focus.
    TerminateFocused,
    /// Switch starting with the system on or off.
    ToggleAutostart,
    /// Switch the update check at startup on or off.
    ToggleAutoupdate,
    /// Open the configuration file in an editor.
    OpenConfig,
    /// Open the directory of the log files.
    OpenLoggingDirectory,
    /// Show the dialog that describes the application.
    ShowAbout,
    /// Look for a newer version now and say so if there is none.
    CheckForUpdates,
}

/// An error in the configured keybinds.
#[derive(Debug)]
pub enum KeybindError {
    /// The name is no configuration name of a key.
    InvalidKeyName(String),
}

/// The four keybinds of the application.
#[derive(Debug)]
pub struct KeybindSet {
    /// Terminates the focused window at once.
    pub terminate_immediate: Keybind,
    /// Enters the targeting mode.
    pub terminate_click: Keybind,
    /// Confirms the termination of the window under the pointer.
    pub terminate_click_confirm: Keybind,
    /// Leaves the targeting mode.
    pub terminate_abort: Keybind,
}

/// The application as a mathematical value.
pub struct AppModel {
    pub state: AppState,
    pub terminate_immediate: Seq<KeyCode>,
    pub terminate_click: Seq<KeyCode>,
    pub terminate_click_confirm: Seq<KeyCode>,
    pub terminate_abort: Seq<KeyCode>,
    pub config: Config,
    pub cursor_path: Seq<char>,
}

impl Action {
    /// What the system cursor looks like once this action has been carried
    /// out, if it looked like `before`.
    pub open spec fn cursor_after(self, before: CursorLook) -> CursorLook {
        match self {
            Action::SetCursor => CursorLook::Custom,
            Action::ResetCursor | Action::TerminateAtPointer => CursorLook::System,
            _ => before,
        }
    }

    /// Whether a key event that led to this action is kept from other
    /// applications. `found` says whether the action found a window to
    /// terminate; it matters only for the focused window, whose keybind is
    /// passed on when no window has the focus.
    pub open spec fn consumes(self, found: bool) -> bool {
        match self {
            Action::Ignore => false,
            Action::TerminateFocused => found,
            _ => true,
        }
    }

    /// Returns what the system cursor looks like once this action has been
    /// carried out.
    pub fn cursor(self, before: CursorLook) -> (r: CursorLook)
        ensures
            r == self.cursor_after(before),
    {
        match self {
            Action::SetCursor => CursorLook::Custom,
            Action::ResetCursor | Action::TerminateAtPointer => CursorLook::System,
            _ => before,
        }
    }

    /// Returns whether a key event that led to this action is kept from other
    /// applications.
    pub fn consumed(self, found: bool) -> (r: bool)
        ensures
            r == self.consumes(found),
    {
        match self {
            Action::Ignore => false,
            Action::TerminateFocused => found,
            _ => true,
        }
    }
}

impl KeybindSet {
    /// Whether the keys of the four keybinds are `immediate`, `click`,
    /// `confirm` and `abort`.
    pub open spec fn holds(
        self,
        immediate: Seq<KeyCode>,
        click: Seq<KeyCode>,
        confirm: Seq<KeyCode>,
        abort: Seq<KeyCode>,
    ) -> bool {
        self.terminate_immediate@ == immediate && self.terminate_click@ == click
            && self.terminate_click_confirm@ == confirm && self.terminate_abort@ == abort
    }
}

impl AppModel {
    /// The same application in the state `state`.
    pub open spec fn in_state(self, state: AppState) -> AppModel {
        AppModel { state, ..self }
    }

    /// The action that the keys held down in `keys` call for. In standby only
    /// the keybinds that enter the targeting mode and that terminate the
    /// focused window count, the first before the second; while targeting
    /// only those that confirm and that abort, in this order; during shutdown
    /// none.
    pub open spec fn reaction(self, keys: &KeyState) -> Action {
        match self.state {
            AppState::Standby => if Keybind::triggers(self.terminate_click, keys) {
                Action::SetCursor
            } else if Keybind::triggers(self.terminate_immediate, keys) {
                Action::TerminateFocused
            } else {
                Action::Ignore
            },
            AppState::Active => if Keybind::triggers(self.terminate_click_confirm, keys) {
                Action::TerminateAtPointer
            } else if Keybind::triggers(self.terminate_abort, keys) {
                Action::ResetCursor
            } else {
                Action::Ignore
            },
            AppState::Shutdown => Action::Ignore,
        }
    }

    /// The application after it has entered the targeting mode. During
    /// shutdown nothing changes.
    pub open spec fn activated(self) -> (AppModel, Action) {
        if self.state == AppState::Shutdown {
            (self, Action::Ignore)
        } else {
            (self.in_state(AppState::Active), Action::SetCursor)
        }
    }

    /// The application after a termination has been confirmed.
    pub open spec fn confirmed(self) -> (AppModel, Action) {
        if self.state == AppState::Shutdown {
            (self, Action::Ignore)
        } else {
            (self.in_state(AppState::Standby), Action::TerminateAtPointer)
        }
    }

    /// The application after it has left the targeting mode.
    pub open spec fn deactivated(self) -> (AppModel, Action) {
        if self.state == AppState::Shutdown {
            (self, Action::Ignore)
        } else {
            (self.in_state(AppState::Standby), Action::ResetCursor)
        }
    }

    /// The application after it has been asked to terminate the focused
    /// window: its state stays as it is.
    pub open spec fn focused(self) -> (AppModel, Action) {
        if self.state == AppState::Shutdown {
            (self, Action::Ignore)
        } else {
            (self, Action::TerminateFocused)
        }
    }

    /// The application after it has been asked to exit. The system cursors
    /// are put back if it was targeting.
    pub open spec fn stopped(self) -> (AppModel, Action) {
        (
            self.in_state(AppState::Shutdown),
            if self.state == AppState::Active {
                Action::ResetCursor
            } else {
                Action::Ignore
            },
        )
    }

    /// The application after the keys held down in `keys` have been handled,
    /// and the action to carry out.
    pub open spec fn handled(self, keys: &KeyState) -> (AppModel, Action) {
        match self.reaction(keys) {
            Action::SetCursor => self.activated(),
            Action::TerminateFocused => self.focused(),
            Action::TerminateAtPointer => self.confirmed(),
            Action::ResetCursor => self.deactivated(),
            _ => (self, Action::Ignore),
        }
    }

    /// The application after the menu entry `event` has been handled, and the
    /// action to carry out. Exit, entering the targeting mode and resetting
    /// the cursor act as the corresponding keybinds do; the other entries
    /// leave the application as it is. During shutdown nothing is done.
    pub open spec fn selected(self, event: TrayEvent) -> (AppModel, Action) {
        if self.state == AppState::Shutdown {
            (self, Action::Ignore)
        } else {
            match event {
                TrayEvent::OnMenuSelectExit => self.stopped(),
                TrayEvent::OnMenuSelectStartWithWindows => (self, Action::ToggleAutostart),
                TrayEvent::OnMenuSelectResetCursor => self.deactivated(),
                TrayEvent::OnMenuSelectOpenConfig => (self, Action::OpenConfig),
                TrayEvent::OnMenuSelectEnterTerminationMode => self.activated(),
                TrayEvent::OnMenuSelectAbout => (self, Action::ShowAbout),
                TrayEvent::OnMenuSelectOpenLoggingDirectory => (self, Action::OpenLoggingDirectory),
                TrayEvent::OnMenuSelectCheckForUpdates => (self, Action::CheckForUpdates),
                TrayEvent::OnMenuSelectUpdateOnStartup => (self, Action::ToggleAutoupdate),
            }
        }
    }

    /// The system cursor is replaced only while the application is targeting.
    pub open spec fn agrees_with(self, look: CursorLook) -> bool {
        look == CursorLook::Custom ==> self.state == AppState::Active
    }
}

/// The application: its state, its keybinds and its settings.
pub struct App {
    config: Config,
    appstate: AppState,
    cursor_path: String,
    keybinds: KeybindSet,
}

impl View for App {
    type V = AppModel;

    closed spec fn view(&self) -> AppModel {
        AppModel {
            state: self.appstate,
            terminate_immediate: self.keybinds.terminate_immediate@,
            terminate_click: self.keybinds.terminate_click@,
            terminate_click_confirm: self.keybinds.terminate_click_confirm@,
            terminate_abort: self.keybinds.terminate_abort@,
            config: self.config,
            cursor_path: self.cursor_path@,
        }
    }
}

/// Whether `name` is the configuration name of a key.
pub open spec fn is_key_name(name: Seq<char>) -> bool {
    KeyCode::of_config_name(name) is Some
}

/// The keys that `names` name, one for one. It is meant for names that all
/// name a key.
pub open spec fn keys_named(names: Seq<String>) -> Seq<KeyCode> {
    Seq::new(names.len(), |i: int| KeyCode::of_config_name(names[i]@).unwrap())
}

/// Whether `keys` are the keys that `names` name, one for one.
pub open spec fn names_keys(names: Seq<String>, keys: Seq<KeyCode>) -> bool {
    keys == keys_named(names)
}

/// Whether `name` is the first of `names` that names no key.
pub open spec fn first_invalid(names: Seq<String>, name: Seq<char>) -> bool {
    exists|i: int|
        0 <= i < names.len() && (#[trigger] names[i])@ == name && !is_key_name(name) && forall|
            j: int,
        |
            0 <= j < i ==> is_key_name((#[trigger] names[j])@)
}

/// Whether every one of `names` names a key.
pub open spec fn all_key_names(names: Seq<String>) -> bool {
    forall|i: int| 0 <= i < names.len() ==> is_key_name((#[trigger] names[i])@)
}

/// What building a keybind from `names` has to give: the keys that the names
/// name if each of them names a key, and else the first name that does not.
pub open spec fn keybind_built(names: Seq<String>, r: Result<Keybind, KeybindError>) -> bool {
    match r {
        Ok(keybind) => all_key_names(names) && names_keys(names, keybind@),
        Err(KeybindError::InvalidKeyName(name)) => first_invalid(names, name@),
    }
}

/// Whether every key name of the four keybinds names a key.
pub open spec fn all_valid(keybinds: Keybinds) -> bool {
    all_key_names(keybinds.terminate_immediate@) && all_key_names(keybinds.terminate_click@)
        && all_key_names(keybinds.terminate_click_confirm@) && all_key_names(
        keybinds.terminate_abort@,
    )
}

/// Whether `immediate`, `click`, `confirm` and `abort` are the keys that the
/// four keybinds name.
pub open spec fn keybinds_name(
    keybinds: Keybinds,
    immediate: Seq<KeyCode>,
    click: Seq<KeyCode>,
    confirm: Seq<KeyCode>,
    abort: Seq<KeyCode>,
) -> bool {
    names_keys(keybinds.terminate_immediate@, immediate) && names_keys(
        keybinds.terminate_click@,
        click,
    ) && names_keys(keybinds.terminate_click_confirm@, confirm) && names_keys(
        keybinds.terminate_abort@,
        abort,
    )
}

/// Whether `name` is the first key name of the four keybinds that names no
/// key, going through the keybinds in the order immediate, click, confirm,
/// abort.
pub open spec fn first_invalid_of(keybinds: Keybinds, name: Seq<char>) -> bool {
    ||| first_invalid(keybinds.terminate_immediate@, name)
    ||| all_key_names(keybinds.terminate_immediate@) && first_invalid(
        keybinds.terminate_click@,
        name,
    )
    ||| all_key_names(keybinds.terminate_immediate@) && all_key_names(keybinds.terminate_click@)
        && first_invalid(keybinds.terminate_click_confirm@, name)
    ||| all_key_names(keybinds.terminate_immediate@) && all_key_names(keybinds.terminate_click@)
        && all_key_names(keybinds.terminate_click_confirm@) && first_invalid(
        keybinds.terminate_abort@,
        name,
    )
}

impl App {
    /// Builds a keybind from the configuration names of its keys. A name that
    /// names no key makes the whole keybind invalid.
    pub fn keybind_from_config(cfg_value: &Vec<String>) -> (r: Result<Keybind, KeybindError>)
        ensures
            keybind_built(cfg_value@, r),
            r is Ok <==> all_key_names(cfg_value@),
    {
        let mut keybind = Keybind::empty();
        let mut i: usize = 0;
        proof {
            assert(keybind@ =~= keys_named(cfg_value@.take(0)));
        }
        while i < cfg_value.len()
            invariant
                0 <= i <= cfg_value.len(),
                names_keys(cfg_value@.take(i as int), keybind@),
                forall|j: int| 0 <= j < i ==> is_key_name((#[trigger] cfg_value@[j])@),
            decreases cfg_value.len() - i,
        {
            match KeyCode::from_string(cfg_value[i].as_str()) {
                Some(keycode) => {
                    keybind.add(keycode);
                    proof {
                        assert(keybind@ =~= keys_named(cfg_value@.take(i + 1)));
                    }
                },
                None => {
                    let name = cfg_value[i].clone();
                    proof {
                        assert(cfg_value@[i as int]@ == name@);
                        assert(!is_key_name(name@));
                        assert(first_invalid(cfg_value@, name@));
                        assert(!all_key_names(cfg_value@));
                    }
                    return Err(KeybindError::InvalidKeyName(name));
                },
            }
            i = i + 1;
        }
        proof {
            assert(cfg_value@.take(i as int) =~= cfg_value@);
        }
        Ok(keybind)
    }

    /// Builds the four keybinds of `config`. The first keybind with an
    /// invalid name, in the order immediate, click, confirm, abort, decides
    /// the error.
    pub fn setup_keybinds(config: &Config) -> (r: Result<KeybindSet, KeybindError>)
        ensures
            match r {
                Ok(set) => keybinds_name(
                    config.keybinds,
                    set.terminate_immediate@,
                    set.terminate_click@,
                    set.terminate_click_confirm@,
                    set.terminate_abort@,
                ),
                Err(KeybindError::InvalidKeyName(name)) => first_invalid_of(config.keybinds, name@),
            },
            r is Ok <==> all_valid(config.keybinds),
    {
        let terminate_immediate = match Self::keybind_from_config(
            &config.keybinds.terminate_immediate,
        ) {
            Ok(keybind) => keybind,
            Err(e) => { return Err(e); },
        };
        let terminate_click = match Self::keybind_from_config(&config.keybinds.terminate_click) {
            Ok(keybind) => keybind,
            Err(e) => { return Err(e); },
        };
        let terminate_click_confirm = match Self::keybind_from_config(
            &config.keybinds.terminate_click_confirm,
        ) {
            Ok(keybind) => keybind,
            Err(e) => { return Err(e); },
        };
        let terminate_abort = match Self::keybind_from_config(&config.keybinds.terminate_abort) {
            Ok(keybind) => keybind,
            Err(e) => { return Err(e); },
        };
        Ok(KeybindSet { terminate_immediate, terminate_click, terminate_click_confirm, terminate_abort })
    }

    /// Creates the application from its configuration and the path of its
    /// cursor file. It starts in standby. A keybind with an invalid key name
    /// is an error.
    pub fn new(config: Config, cursor_path: String) -> (r: Result<Self, KeybindError>)
        ensures
            match r {
                Ok(app) => {
                    &&& app@.state == AppState::Standby
                    &&& keybinds_name(
                        config.keybinds,
                        app@.terminate_immediate,
                        app@.terminate_click,
                        app@.terminate_click_confirm,
                        app@.terminate_abort,
                    )
                    &&& app@.config == config
                    &&& app@.cursor_path == cursor_path@
                },
                Err(KeybindError::InvalidKeyName(name)) => first_invalid_of(config.keybinds, name@),
            },
            r is Ok <==> all_valid(config.keybinds),
    {
        let keybinds = match Self::setup_keybinds(&config) {
            Ok(keybinds) => keybinds,
            Err(e) => { return Err(e); },
        };
        Ok(Self { config, appstate: AppState::Standby, cursor_path, keybinds })
    }

    /// Creates the application from keybinds that have been built already.
    pub fn with_keybinds(config: Config, cursor_path: String, keybinds: KeybindSet) -> (r: Self)
        ensures
            r@.state == AppState::Standby,
            keybinds.holds(
                r@.terminate_immediate,
                r@.terminate_click,
                r@.terminate_click_confirm,
                r@.terminate_abort,
            ),
            r@.config == config,
            r@.cursor_path == cursor_path@,
    {
        Self { config, appstate: AppState::Standby, cursor_path, keybinds }
    }

    /// Returns the state of the application.
    pub fn state(&self) -> (r: AppState)
        ensures
            r == self@.state,
    {
        self.appstate
    }

    /// True until the application has been asked to exit. The event loop runs
    /// as long as this holds.
    pub fn running(&self) -> (r: bool)
        ensures
            r == (self@.state != AppState::Shutdown),
    {
        self.appstate != AppState::Shutdown
    }

    /// Returns the path of the cursor file.
    pub fn cursor_path(&self) -> (r: &str)
        ensures
            r@ == self@.cursor_path,
    {
        self.cursor_path.as_str()
    }

    /// Returns the configuration.
    pub fn config(&self) -> (r: &Config)
        ensures
            *r == self@.config,
    {
        &self.config
    }

    /// Returns the keybinds.
    pub fn keybinds(&self) -> (r: &KeybindSet)
        ensures
            r.holds(
                self@.terminate_immediate,
                self@.terminate_click,
                self@.terminate_click_confirm,
                self@.terminate_abort,
            ),
    {
        &self.keybinds
    }

    /// Prepares the attempt to terminate `target`, the process that owns the
    /// window that was found, with the settings of the configuration; `None`
    /// if no window was found.
    pub fn terminate(&self, target: Option<Process>) -> (r: Termination)
        ensures
            r@ == Termination::initial(
                target,
                self@.config.graceful.enabled,
                self@.config.graceful.timeout,
            ),
    {
        Termination::new(target, self.config.graceful.enabled, self.config.graceful.timeout)
    }

    /// Asks the application to exit.
    pub fn shutdown(&mut self) -> (action: Action)
        ensures
            (final(self)@, action) == old(self)@.stopped(),
    {
        let action = if self.appstate == AppState::Active {
            Action::ResetCursor
        } else {
            Action::Ignore
        };
        self.appstate = AppState::Shutdown;
        action
    }

    /// Enters the targeting mode: the cursor of the application has to
    /// replace the system cursors.
    pub fn termination_mode_activate(&mut self) -> (action: Action)
        ensures
            (final(self)@, action) == old(self)@.activated(),
    {
        if self.appstate == AppState::Shutdown {
            return Action::Ignore;
        }
        self.appstate = AppState::Active;
        Action::SetCursor
    }

    /// Confirms the termination: the system cursors have to be put back and
    /// the process of the window under the pointer terminated. Whether or not
    /// there is such a window, the application is in standby afterwards.
    pub fn termination_mode_confirm(&mut self) -> (action: Action)
        ensures
            (final(self)@, action) == old(self)@.confirmed(),
    {
        if self.appstate == AppState::Shutdown {
            return Action::Ignore;
        }
        self.appstate = AppState::Standby;
        Action::TerminateAtPointer
    }

    /// Leaves the targeting mode without terminating anything: the system
    /// cursors have to be put back.
    pub fn termination_mode_deactivate(&mut self) -> (action: Action)
        ensures
            (final(self)@, action) == old(self)@.deactivated(),
    {
        if self.appstate == AppState::Shutdown {
            return Action::Ignore;
        }
        self.appstate = AppState::Standby;
        Action::ResetCursor
    }

    /// Asks for the termination of the process of the focused window. The
    /// state of the application stays as it is.
    pub fn terminate_active(&mut self) -> (action: Action)
        ensures
            (final(self)@, action) == old(self)@.focused(),
    {
        if self.appstate == AppState::Shutdown {
            return Action::Ignore;
        }
        Action::TerminateFocused
    }

    /// Reacts to a key or button transition. `state` is the key table after
    /// the transition; which key changed does not matter, only which keys are
    /// down. The result is the action to carry out; `Action::Ignore` means that
    /// the event was not for the application and is passed on.
    pub fn handle(&mut self, state: &KeyState, _keycode: KeyCode, _keystatus: KeyStatus) -> (action:
        Action)
        ensures
            (final(self)@, action) == old(self)@.handled(state),
    {
        match self.appstate {
            AppState::Standby => {
                if self.keybinds.terminate_click.triggered(state) {
                    return self.termination_mode_activate();
                } else if self.keybinds.terminate_immediate.triggered(state) {
                    return self.terminate_active();
                }
            },
            AppState::Active => {
                if self.keybinds.terminate_click_confirm.triggered(state) {
                    return self.termination_mode_confirm();
                } else if self.keybinds.terminate_abort.triggered(state) {
                    return self.termination_mode_deactivate();
                }
            },
            AppState::Shutdown => {},
        }
        Action::Ignore
    }

    /// Reacts to the selection of a menu entry of the tray icon.
    pub fn handle_tray(&mut self, event: TrayEvent) -> (action: Action)
        ensures
            (final(self)@, action) == old(self)@.selected(event),
    {
        if self.appstate == AppState::Shutdown {
            return Action::Ignore;
        }
        match event {
            TrayEvent::OnMenuSelectExit => self.shutdown(),
            TrayEvent::OnMenuSelectStartWithWindows => Action::ToggleAutostart,
            TrayEvent::OnMenuSelectResetCursor => self.termination_mode_deactivate(),
            TrayEvent::OnMenuSelectOpenConfig => Action::OpenConfig,
            TrayEvent::OnMenuSelectEnterTerminationMode => self.termination_mode_activate(),
            TrayEvent::OnMenuSelectAbout => Action::ShowAbout,
            TrayEvent::OnMenuSelectOpenLoggingDirectory => Action::OpenLoggingDirectory,
            TrayEvent::OnMenuSelectCheckForUpdates => Action::CheckForUpdates,
            TrayEvent::OnMenuSelectUpdateOnStartup => Action::ToggleAutoupdate,
        }
    }
}

/// The path of `filename` in the directory of the application, given the path
/// `executable` of its executable.
pub open spec fn beside_executable(executable: Seq<char>, filename: Seq<char>) -> Seq<char> {
    joined(directory(executable), filename)
}

/// The path of the resource `path`, given the path `executable` of the
/// executable: resources lie in the directory "res" beside it.
pub open spec fn resource(executable: Seq<char>, path: Seq<char>) -> Seq<char> {
    beside_executable(executable, "res\\"@ + path)
}

/// The data directory of the application below `program_data`, the directory
/// that the system has for the data of programs.
pub open spec fn appdata(program_data: Seq<char>) -> Seq<char> {
    joined(program_data, "xterminate"@)
}

/// Returns the absolute path of a file or directory that is given relative to
/// the directory of the application. `executable` is the path of the
/// executable.
pub fn make_rel_path_abs(executable: &str, filename: &str) -> (r: String)
    ensures
        r@ == beside_executable(executable@, filename@),
{
    let root = directory_of(executable);
    join_path(root.as_str(), filename)
}

/// Returns the absolute path of a resource of the application.
pub fn resource_path(executable: &str, path: &str) -> (r: String)
    ensures
        r@ == resource(executable@, path@),
{
    let mut relative = String::from_str("res\\");
    relative.append(path);
    make_rel_path_abs(executable, relative.as_str())
}

/// Returns the absolute path of the cursor file.
pub fn cursor_path(executable: &str) -> (r: String)
    ensures
        r@ == resource(executable@, "cursor.cur"@),
{
    resource_path(executable, "cursor.cur")
}

/// Returns the absolute path of the icon file.
pub fn icon_path(executable: &str) -> (r: String)
    ensures
        r@ == resource(executable@, "icon.ico"@),
{
    resource_path(executable, "icon.ico")
}

/// Returns the data directory of the application.
pub fn appdata_path(program_data: &str) -> (r: String)
    ensures
        r@ == appdata(program_data@),
{
    join_path(program_data, "xterminate")
}

/// Returns the absolute path of a file or directory that is given relative to
/// the data directory of the application.
pub fn make_rel_appdata_path_abs(program_data: &str, filename: &str) -> (r: String)
    ensures
        r@ == joined(appdata(program_data@), filename@),
{
    let root = appdata_path(program_data);
    join_path(root.as_str(), filename)
}

/// Returns the absolute path of the configuration file.
pub fn config_path(program_data: &str) -> (r: String)
    ensures
        r@ == joined(appdata(program_data@), "config.toml"@),
{
    make_rel_appdata_path_abs(program_data, "config.toml")
}

/// Returns the absolute path of the directory of the log files.
pub fn logfiles_path(program_data: &str) -> (r: String)
    ensures
        r@ == joined(appdata(program_data@), "logs\\"@),
{
    make_rel_appdata_path_abs(program_data, "logs\\")
}

/// The texts `args`, one directly after the other.
pub open spec fn concatenated(args: Seq<String>) -> Seq<char>
    decreases args.len(),
{
    if args.len() == 0 {
        Seq::<char>::empty()
    } else {
        concatenated(args.drop_last()) + args.last()@
    }
}

/// Returns the command line that runs the executable `executable_path` with
/// the arguments `args`: the path, a space, and the arguments one directly
/// after the other. Arguments that are to be told apart bring their own
/// separators.
pub fn command_line(executable_path: &str, args: &Vec<String>) -> (r: String)
    ensures
        r@ == executable_path@ + " "@ + concatenated(args@),
{
    let mut line = String::from_str(executable_path);
    line.append(" ");
    let mut i: usize = 0;
    proof {
        assert(concatenated(args@.take(0)) =~= Seq::<char>::empty());
        assert(line@ =~= executable_path@ + " "@ + concatenated(args@.take(0)));
    }
    while i < args.len()
        invariant
            0 <= i <= args.len(),
            line@ == executable_path@ + " "@ + concatenated(args@.take(i as int)),
        decreases args.len() - i,
    {
        proof {
            assert(args@.take(i + 1).drop_last() =~= args@.take(i as int));
        }
        line.append(args[i].as_str());
        proof {
            assert(line@ =~= executable_path@ + " "@ + concatenated(args@.take(i + 1)));
        }
        i = i + 1;
    }
    proof {
        assert(args@.take(i as int) =~= args@);
    }
    line
}

/// Names that all name a key determine the keybind that is built from them:
/// its keys are the named keys, in the order of the names, and each key bears
/// the name that stands at its place.
pub proof fn lemma_names_determine_keys(names: Seq<String>, i: int)
    requires
        all_key_names(names),
        0 <= i < names.len(),
    ensures
        keys_named(names).len() == names.len(),
        keys_named(names)[i].config_name() == names[i]@,
        forall|keycode: KeyCode|
            keycode.config_name() == names[i]@ ==> keycode == keys_named(names)[i],
{
    assert(is_key_name(names[i]@));
    let named = keys_named(names)[i];
    assert forall|keycode: KeyCode| keycode.config_name() == names[i]@ implies keycode
        == named by {
        crate::input::keycode::lemma_config_name_injective(keycode, named);
    }
}

/// In standby only the keybinds that enter the targeting mode and that
/// terminate the focused window do anything. While neither of them is
/// triggered the application stays exactly as it is and the event is not
/// consumed, whatever the other keybinds are and whichever keys are down.
pub proof fn lemma_standby_ignores_other_keybinds(app: AppModel, keys: &KeyState)
    requires
        app.state == AppState::Standby,
        !Keybind::triggers(app.terminate_click, keys),
        !Keybind::triggers(app.terminate_immediate, keys),
    ensures
        app.handled(keys) == (app, Action::Ignore),
        forall|found: bool| !app.handled(keys).1.consumes(found),
        forall|look: CursorLook| app.handled(keys).1.cursor_after(look) == look,
{
}

/// In standby an event has an effect exactly when one of the two keybinds of
/// standby is triggered, and then the effect is that keybind's: entering the
/// targeting mode, or terminating the focused window in standby.
pub proof fn lemma_standby_transitions(app: AppModel, keys: &KeyState)
    requires
        app.state == AppState::Standby,
    ensures
        Keybind::triggers(app.terminate_click, keys) ==> app.handled(keys) == (
            app.in_state(AppState::Active),
            Action::SetCursor,
        ),
        !Keybind::triggers(app.terminate_click, keys) && Keybind::triggers(
            app.terminate_immediate,
            keys,
        ) ==> app.handled(keys) == (app, Action::TerminateFocused),
{
}

/// While targeting only the keybinds that confirm and that abort do
/// anything, and both lead back to standby with the system cursors put back.
pub proof fn lemma_active_transitions(app: AppModel, keys: &KeyState, look: CursorLook)
    requires
        app.state == AppState::Active,
    ensures
        app.handled(keys).1 != Action::Ignore ==> app.handled(keys).0 == app.in_state(
            AppState::Standby,
        ) && app.handled(keys).1.cursor_after(look) == CursorLook::System,
        app.handled(keys).1 == Action::Ignore <==> !Keybind::triggers(
            app.terminate_click_confirm,
            keys,
        ) && !Keybind::triggers(app.terminate_abort, keys),
        app.handled(keys).1 == Action::Ignore ==> app.handled(keys).0 == app,
{
}

/// Entering the targeting mode from standby and aborting it leads back to
/// where it began: the application is as it was before, and the system
/// cursors are back.
pub proof fn lemma_enter_then_abort(app: AppModel, look: CursorLook)
    requires
        app.state == AppState::Standby,
    ensures
        app.activated().0.state == AppState::Active,
        app.activated().1.cursor_after(look) == CursorLook::Custom,
        app.activated().0.deactivated().0 == app,
        app.activated().0.deactivated().1.cursor_after(app.activated().1.cursor_after(look))
            == CursorLook::System,
{
}

/// The same round trip by keys: if the keys down in `first` trigger the
/// keybind that enters the targeting mode, and the keys down in `second`
/// trigger the keybind that aborts it but not the one that confirms, then
/// handling the two leaves the application as it was, with the system cursors
/// back.
pub proof fn lemma_round_trip(app: AppModel, first: &KeyState, second: &KeyState, look: CursorLook)
    requires
        app.state == AppState::Standby,
        Keybind::triggers(app.terminate_click, first),
        Keybind::triggers(app.terminate_abort, second),
        !Keybind::triggers(app.terminate_click_confirm, second),
    ensures
        app.handled(first).0.handled(second).0 == app,
        app.handled(first).0.handled(second).1.cursor_after(
            app.handled(first).1.cursor_after(look),
        ) == CursorLook::System,
{
}

/// Nothing leads out of shutdown, and during shutdown nothing is done.
pub proof fn lemma_shutdown_is_final(app: AppModel, keys: &KeyState, event: TrayEvent)
    requires
        app.state == AppState::Shutdown,
    ensures
        app.handled(keys) == (app, Action::Ignore),
        app.selected(event) == (app, Action::Ignore),
        app.activated().0 == app,
        app.confirmed().0 == app,
        app.deactivated().0 == app,
        app.focused().0 == app,
        app.stopped().0 == app,
{
}

/// The system cursor is replaced only while the application is targeting:
/// if that holds before a key or a menu entry is handled, it holds after the
/// action has been carried out. So every way out of the targeting mode puts
/// the system cursors back.
pub proof fn lemma_cursor_follows_state(
    app: AppModel,
    look: CursorLook,
    keys: &KeyState,
    event: TrayEvent,
)
    requires
        app.agrees_with(look),
    ensures
        app.handled(keys).0.agrees_with(app.handled(keys).1.cursor_after(look)),
        app.selected(event).0.agrees_with(app.selected(event).1.cursor_after(look)),
        app.stopped().0.agrees_with(app.stopped().1.cursor_after(look)),
{
}

} // verus!
