//! Modes, pages and actions of the user interface, and where a capture is
//! stored.
use vstd::prelude::*;
use vstd::string::*;
use crate::config::FilterMode;

verus! {

/// Pages of the application.
#[derive(Clone, Copy, Debug, PartialEq, Eq, Structural)]
pub enum Page {
    Dashboard,
    Connections,
    Whitelist,
    Settings,
}

impl Default for Page {
    fn default() -> (r: Self)
        ensures
            r == Page::Dashboard,
    {
        Page::Dashboard
    }
}

/// What the interface asks for.
#[derive(Clone, Debug)]
pub enum Action {
    /// Switch to a page.
    Navigate(Page),
    /// Set the session mode.
    SetMode(SessionMode),
    /// Toggle between light and dark theme.
    ToggleTheme,
    /// Add a whitelist entry.
    AddWhitelist { name: String, ip: String },
    /// Remove a whitelist entry by id.
    RemoveWhitelist(u64),
    /// Nothing.
    NoAction,
}

/// Session modes offered to the user: no filtering, or one of the policies.
#[derive(Clone, Copy, Debug, PartialEq, Eq, Structural)]
pub enum SessionMode {
    Standard,
    Solo,
    Locked,
    Disconnect,
}

impl Default for SessionMode {
    fn default() -> (r: Self)
        ensures
            r == SessionMode::Standard,
    {
        SessionMode::Standard
    }
}

impl SessionMode {
    /// The policy of this mode; none for `Standard`, where the guard is off.
    pub fn to_filter_mode(self) -> (r: Option<FilterMode>)
        ensures
            r == match self {
                SessionMode::Standard => None,
                SessionMode::Solo => Some(FilterMode::Solo),
                SessionMode::Locked => Some(FilterMode::Locked),
                SessionMode::Disconnect => Some(FilterMode::Disconnect),
            },
    {
        match self {
            SessionMode::Standard => None,
            SessionMode::Solo => Some(FilterMode::Solo),
            SessionMode::Locked => Some(FilterMode::Locked),
            SessionMode::Disconnect => Some(FilterMode::Disconnect),
        }
    }

    pub open spec fn name_of(self) -> Seq<char> {
        match self {
            SessionMode::Standard => "Standard"@,
            SessionMode::Solo => "Solo"@,
            SessionMode::Locked => "Locked"@,
            SessionMode::Disconnect => "Disconnect"@,
        }
    }

    /// Display name of the mode.
    pub fn name(&self) -> (r: &'static str)
        ensures
            r@ == self.name_of(),
    {
        match self {
            SessionMode::Standard => "Standard",
            SessionMode::Solo => "Solo",
            SessionMode::Locked => "Locked",
            SessionMode::Disconnect => "Disconnect",
        }
    }

    pub open spec fn description_of(self) -> Seq<char> {
        match self {
            SessionMode::Standard => "Unfiltered traffic"@,
            SessionMode::Solo => "Strictest firewall"@,
            SessionMode::Locked => "Blocks new connections"@,
            SessionMode::Disconnect => "Blocks all traffic"@,
        }
    }

    /// Short description of the mode.
    pub fn description(&self) -> (r: &'static str)
        ensures
            r@ == self.description_of(),
    {
        match self {
            SessionMode::Standard => "Unfiltered traffic",
            SessionMode::Solo => "Strictest firewall",
            SessionMode::Locked => "Blocks new connections",
            SessionMode::Disconnect => "Blocks all traffic",
        }
    }
}

/// Light or dark theme.
#[derive(Clone, Copy, Debug, PartialEq, Eq, Structural)]
pub enum ThemeMode {
    Dark,
    Light,
}

impl Default for ThemeMode {
    fn default() -> (r: Self)
        ensures
            r == ThemeMode::Dark,
    {
        ThemeMode::Dark
    }
}

impl ThemeMode {
    /// The other theme.
    pub fn toggle(self) -> (r: Self)
        ensures
            r == match self {
                ThemeMode::Dark => ThemeMode::Light,
                ThemeMode::Light => ThemeMode::Dark,
            },
    {
        match self {
            ThemeMode::Dark => ThemeMode::Light,
            ThemeMode::Light => ThemeMode::Dark,
        }
    }
}

/// Where a capture session is stored.
pub struct CaptureStorage {
    file_path: String,
}

impl CaptureStorage {
    pub closed spec fn path_of(&self) -> Seq<char> {
        self.file_path@
    }

    /// Storage at the given file path.
    pub fn new(file_path: &str) -> (r: Self)
        ensures
            r.path_of() == file_path@,
    {
        CaptureStorage { file_path: String::from_str(file_path) }
    }

    /// The file path.
    pub fn path(&self) -> (r: &str)
        ensures
            r@ == self.path_of(),
    {
        self.file_path.as_str()
    }
}

} // verus!
