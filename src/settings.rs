use vstd::prelude::*;

verus! {

/// User preferences, kept by the host as one stored record.
#[derive(Clone, Copy, Debug, PartialEq, Eq, Structural)]
pub struct AppSettings {
    /// Whether a submitted message starts a new conversation by default.
    pub new_chat_default: bool,
    /// Whether a finished response may raise a system notification.
    pub notifications_enabled: bool,
}

/// The settings in force when none were ever saved.
pub open spec fn default_settings() -> AppSettings {
    AppSettings { new_chat_default: true, notifications_enabled: true }
}

impl Default for AppSettings {
    fn default() -> (r: AppSettings)
        ensures
            r == default_settings(),
    {
        AppSettings { new_chat_default: true, notifications_enabled: true }
    }
}

/// What loading yields for a stored record: `None` when nothing was stored,
/// `Some(None)` when a record exists but could not be read.
pub open spec fn loaded_settings(record: Option<Option<AppSettings>>) -> AppSettings {
    match record {
        Some(Some(s)) => s,
        _ => default_settings(),
    }
}

/// Settles the settings from what the store held: a readable record is used
/// as it is, and a missing or unreadable one gives the defaults.
pub fn load_settings(record: Option<Option<AppSettings>>) -> (r: AppSettings)
    ensures
        r == loaded_settings(record),
{
    match record {
        Some(Some(s)) => s,
        _ => AppSettings::default(),
    }
}

/// Whether a finished response is announced: notifications must be enabled
/// (an unreadable or missing record counts as enabled) and the main window
/// must not be known to have focus.
pub open spec fn notify_on_complete(settings: Option<AppSettings>, main_focused: Option<bool>) -> bool {
    let enabled = match settings {
        Some(s) => s.notifications_enabled,
        None => true,
    };
    let focused = match main_focused {
        Some(f) => f,
        None => false,
    };
    enabled && !focused
}

pub fn should_notify(settings: Option<AppSettings>, main_focused: Option<bool>) -> (r: bool)
    ensures
        r == notify_on_complete(settings, main_focused),
{
    let enabled = match settings {
        Some(s) => s.notifications_enabled,
        None => true,
    };
    let focused = match main_focused {
        Some(f) => f,
        None => false,
    };
    enabled && !focused
}

/// A record that was saved and is read back is the record that was saved,
/// and loading where nothing was saved gives the defaults.
pub proof fn lemma_settings_round_trip(saved: AppSettings)
    ensures
        loaded_settings(Some(Some(saved))) == saved,
        loaded_settings(None) == default_settings(),
        default_settings().new_chat_default && default_settings().notifications_enabled,
{
}

} // verus!
