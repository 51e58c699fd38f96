//! The desktop entry that starts the app with the session.
use vstd::prelude::*;

use crate::text::push_str;

verus! {

/// Names the app's autostart entry.
#[derive(Debug, Clone)]
pub struct AutostartManager {
    pub desktop_id: &'static str,
    pub app_name: &'static str,
}

impl AutostartManager {
    pub fn new(desktop_id: &'static str, app_name: &'static str) -> (m: Self)
        ensures
            m.desktop_id == desktop_id,
            m.app_name == app_name,
    {
        AutostartManager { desktop_id, app_name }
    }

    /// The file name of the entry in the autostart directory.
    pub fn desktop_file_name(&self) -> (r: String)
        ensures
            r@ == self.desktop_id@ + ".desktop"@,
    {
        let mut s = self.desktop_id.to_owned();
        push_str(&mut s, ".desktop");
        s
    }

    /// The contents of the entry, which runs `exec`.
    pub fn desktop_entry(&self, exec: &str) -> (r: String)
        ensures
            r@ == "[Desktop Entry]\nType=Application\nVersion=1.0\nName="@ + self.app_name@ + "\nExec="@ + exec@
                + "\nTerminal=false\nX-GNOME-Autostart-enabled=true\n"@,
    {
        let mut s = "[Desktop Entry]\nType=Application\nVersion=1.0\nName=".to_owned();
        push_str(&mut s, self.app_name);
        push_str(&mut s, "\nExec=");
        push_str(&mut s, exec);
        push_str(&mut s, "\nTerminal=false\nX-GNOME-Autostart-enabled=true\n");
        s
    }
}

} // verus!
