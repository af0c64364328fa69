//! The decisions of a desktop utility that terminates the process behind a
//! window: by a keybind for the focused window, or by a keybind that enters a
//! targeting mode, followed by a click on the window.
//!
//! The library asks nothing of the operating system itself. It is handed what
//! was observed (raw input, window listings, results of system calls) and
//! says what to do next; the program around it performs that. What it says is
//! stated in contracts and proved:
//!
//! - `input` decodes raw input into key transitions, keeps the table of the
//!   keys that are down, and evaluates keybinds against it;
//! - `window` picks the windows of a process that can be asked to close;
//! - `termination` is the protocol of one attempt to terminate a process:
//!   close requests with a bounded wait first, then force;
//! - `app` is the state machine of the application, which decides in each
//!   state which keybinds and menu entries do what.
//!
//! The other modules hold the rules of the collaborators: the configuration,
//! the system cursors, the registry, the tray icon and its menu, the task
//! dialogs, the updater and the log.

pub mod app;
pub mod config;
pub mod cursor;
pub mod error;
pub mod input;
pub mod logger;
pub mod process;
pub mod registry;
pub mod termination;
pub mod text;
pub mod tray;
pub mod ui;
pub mod updater;
pub mod window;
