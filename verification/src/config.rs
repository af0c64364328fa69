use vstd::prelude::*;

verus! {

/// The version of the configuration format that a configuration was written
/// for.
#[derive(Clone, Copy, Debug, PartialEq, Eq, Structural)]
pub struct Compatibility {
    pub version_major: u32,
    pub version_minor: u32,
    pub version_patch: u32,
}

/// The four keybinds, each as the list of the configuration names of its keys.
#[derive(Debug)]
pub struct Keybinds {
    /// Terminates the focused window at once.
    pub terminate_immediate: Vec<String>,
    /// Enters the mode in which a click picks the window to terminate.
    pub terminate_click: Vec<String>,
    /// Confirms the termination of the window under the pointer.
    pub terminate_click_confirm: Vec<String>,
    /// Leaves that mode without terminating anything.
    pub terminate_abort: Vec<String>,
}

/// How a process is asked to exit before it is terminated by force.
#[derive(Clone, Copy, Debug, PartialEq, Eq, Structural)]
pub struct Graceful {
    /// Whether close requests are tried at all.
    pub enabled: bool,
    /// How long the waits after all close requests may take together, in
    /// milliseconds.
    pub timeout: u32,
}

/// The configuration of the application, as read from its file.
#[derive(Debug)]
pub struct Config {
    pub keybinds: Keybinds,
    pub graceful: Graceful,
    pub compatibility: Compatibility,
}

impl Compatibility {
    /// Whether a configuration of this version has to give way to one of the
    /// version `current`: that is so as soon as one of its three numbers is
    /// smaller than the corresponding number of `current`.
    pub open spec fn outdated_by(self, current: Compatibility) -> bool {
        self.version_major < current.version_major || self.version_minor < current.version_minor
            || self.version_patch < current.version_patch
    }

    /// True if a configuration of this version has to give way to one of the
    /// version `current`.
    pub fn is_outdated(&self, current: &Compatibility) -> (r: bool)
        ensures
            r == self.outdated_by(*current),
    {
        self.version_major < current.version_major || self.version_minor < current.version_minor
            || self.version_patch < current.version_patch
    }
}

/// Chooses between the configuration `stored` on disk and the configuration
/// `default_config` that ships with the application. The stored one is used
/// unless its version is outdated; then the default replaces it, and the
/// second part of the result says that the file has to be overwritten.
pub fn load(stored: Config, default_config: Config) -> (r: (Config, bool))
    ensures
        r.1 == stored.compatibility.outdated_by(default_config.compatibility),
        r.0 == (if r.1 {
            default_config
        } else {
            stored
        }),
{
    if stored.compatibility.is_outdated(&default_config.compatibility) {
        (default_config, true)
    } else {
        (stored, false)
    }
}

} // verus!
