//! The user's application settings.
use vstd::prelude::*;

verus! {

/// What the user can switch on and off.
#[derive(Debug, Clone, Copy, PartialEq, Eq, Structural)]
pub struct AppSettings {
    pub tray_enabled: bool,
    pub notifications_enabled: bool,
    pub autostart_enabled: bool,
    pub rescan_while_open: bool,
    pub compact_sidebar: bool,
    pub follow_system_theme: bool,
}

impl Default for AppSettings {
    /// Tray, notifications, rescanning and following the system theme on;
    /// autostart and the compact sidebar off.
    fn default() -> (s: Self)
        ensures
            s == (AppSettings {
                tray_enabled: true,
                notifications_enabled: true,
                autostart_enabled: false,
                rescan_while_open: true,
                compact_sidebar: false,
                follow_system_theme: true,
            }),
    {
        AppSettings {
            tray_enabled: true,
            notifications_enabled: true,
            autostart_enabled: false,
            rescan_while_open: true,
            compact_sidebar: false,
            follow_system_theme: true,
        }
    }
}

} // verus!
