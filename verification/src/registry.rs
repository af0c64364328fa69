use vstd::prelude::*;

verus! {

/// The predefined root keys of the registry.
#[derive(Clone, Copy, Debug, PartialEq, Eq, Structural)]
pub enum HKey {
    HKeyClassesRoot,
    HKeyCurrentConfig,
    HKeyCurrentUser,
    HKeyLocalMachine,
    HKeyUsers,
}

/// The types of registry values that can be written. Numbers are stored
/// little endian unless the type says otherwise.
#[derive(Clone, Copy, Debug, PartialEq, Eq, Structural)]
pub enum ValueType {
    ExpandSZ,
    Sz,
    DWord,
    DwordBigEndian,
    QWord,
    Binary,
    Link,
}

/// What has to be done to a registry value.
#[derive(Clone, Copy, Debug, PartialEq, Eq, Structural)]
pub enum Change {
    /// Leave the registry as it is.
    Keep,
    /// Create the value, or overwrite it.
    Write,
    /// Delete the value.
    Delete,
}

impl HKey {
    /// The handle of the root key.
    pub open spec fn handle(self) -> int {
        match self {
            HKey::HKeyClassesRoot => -2147483648,
            HKey::HKeyCurrentUser => -2147483647,
            HKey::HKeyLocalMachine => -2147483646,
            HKey::HKeyUsers => -2147483645,
            HKey::HKeyCurrentConfig => -2147483643,
        }
    }

    /// The name of the root key.
    pub open spec fn name(self) -> Seq<char> {
        match self {
            HKey::HKeyClassesRoot => "HKEY_CLASSES_ROOT"@,
            HKey::HKeyCurrentConfig => "HKEY_CURRENT_CONFIG"@,
            HKey::HKeyCurrentUser => "HKEY_CURRENT_USER"@,
            HKey::HKeyLocalMachine => "HKEY_LOCAL_MACHINE"@,
            HKey::HKeyUsers => "HKEY_USERS"@,
        }
    }

    /// Returns the handle of the root key.
    pub fn to_handle(self) -> (r: isize)
        ensures
            r == self.handle(),
    {
        match self {
            HKey::HKeyClassesRoot => -2147483648,
            HKey::HKeyCurrentUser => -2147483647,
            HKey::HKeyLocalMachine => -2147483646,
            HKey::HKeyUsers => -2147483645,
            HKey::HKeyCurrentConfig => -2147483643,
        }
    }

    /// Returns the name of the root key.
    pub fn as_str(self) -> (r: &'static str)
        ensures
            r@ == self.name(),
    {
        match self {
            HKey::HKeyClassesRoot => "HKEY_CLASSES_ROOT",
            HKey::HKeyCurrentConfig => "HKEY_CURRENT_CONFIG",
            HKey::HKeyCurrentUser => "HKEY_CURRENT_USER",
            HKey::HKeyLocalMachine => "HKEY_LOCAL_MACHINE",
            HKey::HKeyUsers => "HKEY_USERS",
        }
    }

    /// Returns the name of the root key as an owned string.
    pub fn to_string(&self) -> (r: String)
        ensures
            r@ == self.name(),
    {
        String::from_str(self.as_str())
    }
}

impl ValueType {
    /// The number (`REG_*`) of the value type.
    pub open spec fn id(self) -> u32 {
        match self {
            ValueType::Sz => 1,
            ValueType::ExpandSZ => 2,
            ValueType::Binary => 3,
            ValueType::DWord => 4,
            ValueType::DwordBigEndian => 5,
            ValueType::Link => 6,
            ValueType::QWord => 11,
        }
    }

    /// Whether values of this type are stored with a terminating zero.
    pub open spec fn is_text(self) -> bool {
        self == ValueType::Sz || self == ValueType::ExpandSZ
    }

    /// The number of bytes to store for a value of this type that is `len`
    /// bytes long: one more for text, which is stored with its terminating
    /// zero.
    pub open spec fn stored_len(self, len: nat) -> nat {
        if self.is_text() {
            len + 1
        } else {
            len
        }
    }

    /// Returns the number (`REG_*`) of the value type.
    pub fn to_id(self) -> (r: u32)
        ensures
            r == self.id(),
    {
        match self {
            ValueType::Sz => 1,
            ValueType::ExpandSZ => 2,
            ValueType::Binary => 3,
            ValueType::DWord => 4,
            ValueType::DwordBigEndian => 5,
            ValueType::Link => 6,
            ValueType::QWord => 11,
        }
    }

    /// Returns the number of bytes to store for a value of this type that is
    /// `len` bytes long, or `None` if that number does not fit the 32 bits
    /// that the registry has for it.
    pub fn value_size(self, len: usize) -> (r: Option<u32>)
        ensures
            r == (if self.stored_len(len as nat) <= u32::MAX {
                Some(self.stored_len(len as nat) as u32)
            } else {
                None
            }),
    {
        let terminator: usize = match self {
            ValueType::Sz | ValueType::ExpandSZ => 1,
            _ => 0,
        };
        if len > 0xFFFF_FFFF - terminator {
            None
        } else {
            Some((len + terminator) as u32)
        }
    }
}

/// The registry key below the current user's root that lists what starts with
/// the system.
pub fn autostart_key() -> (r: &'static str)
    ensures
        r@ == "SOFTWARE\\Microsoft\\Windows\\CurrentVersion\\Run"@,
{
    "SOFTWARE\\Microsoft\\Windows\\CurrentVersion\\Run"
}

/// The registry key below the current user's root that holds the settings of
/// the application.
pub fn settings_key() -> (r: &'static str)
    ensures
        r@ == "SOFTWARE\\xterminate"@,
{
    "SOFTWARE\\xterminate"
}

/// What to do to the value that starts the application with the system, so
/// that it does so exactly if `enabled`. `exists` says whether the value
/// exists now. Enabling always writes the value, since the executable may
/// have moved.
pub fn set_autostart(enabled: bool, exists: bool) -> (r: Change)
    ensures
        r == (if enabled {
            Change::Write
        } else if exists {
            Change::Delete
        } else {
            Change::Keep
        }),
{
    if enabled {
        Change::Write
    } else if exists {
        Change::Delete
    } else {
        Change::Keep
    }
}

/// Whether the application starts with the system: it does if the value
/// exists.
pub fn autostart(exists: bool) -> (r: bool)
    ensures
        r == exists,
{
    exists
}

/// Whether the application looks for updates when it starts: it does unless
/// the value that switches this off exists.
pub fn autoupdate(exists: bool) -> (r: bool)
    ensures
        r == !exists,
{
    !exists
}

/// What to do to the value that switches the update check at startup off, so
/// that the check is made exactly if `enabled`. `exists` says whether the
/// value exists now.
pub fn set_autoupdate(enabled: bool, exists: bool) -> (r: Change)
    ensures
        r == (if enabled && exists {
            Change::Delete
        } else if !enabled && !exists {
            Change::Write
        } else {
            Change::Keep
        }),
{
    if enabled == autoupdate(exists) {
        return Change::Keep;
    }
    if enabled {
        Change::Delete
    } else {
        Change::Write
    }
}

impl Change {
    /// Whether the value exists once this change has been made, if `exists`
    /// says whether it existed before.
    pub open spec fn exists_after(self, exists: bool) -> bool {
        match self {
            Change::Keep => exists,
            Change::Write => true,
            Change::Delete => false,
        }
    }
}

/// The changes take effect: once the change that `set_autostart` asks for has
/// been made, the application starts with the system exactly if that was to
/// be enabled, and once the change that `set_autoupdate` asks for has been
/// made, the update check is made exactly if that was to be enabled.
pub proof fn lemma_changes_take_effect(enabled: bool, exists: bool)
    ensures
        (if enabled {
            Change::Write
        } else if exists {
            Change::Delete
        } else {
            Change::Keep
        }).exists_after(exists) == enabled,
        !(if enabled && exists {
            Change::Delete
        } else if !enabled && !exists {
            Change::Write
        } else {
            Change::Keep
        }).exists_after(exists) == enabled,
{
}

} // verus!
