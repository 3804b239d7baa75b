//! The persisted user settings and the deterministic location of the
//! settings file under the application directory.

use vstd::prelude::*;

verus! {

/// The persisted user settings.
pub struct Settings {
    /// Whether the user allows notifications.
    pub allow_notification: Option<bool>,
}

impl Default for Settings {
    /// The settings before anything was persisted: nothing decided.
    fn default() -> (r: Settings)
        ensures
            r.allow_notification is None,
    {
        Settings { allow_notification: None }
    }
}

/// The path of the settings file: a fixed name under the application
/// directory.
pub fn get_settings_path(app_dir: &str) -> (r: String)
    ensures
        r@ == app_dir@ + "/.tauri-settings.json"@,
{
    let mut p = app_dir.to_owned();
    p.append("/.tauri-settings.json");
    p
}

} // verus!
