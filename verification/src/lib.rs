//! Innu's verified core: the logic of a Wi-Fi manager that talks to
//! NetworkManager, apart from the D-Bus calls, the window toolkit and the
//! files it reads and writes.
use vstd::prelude::*;

pub mod app_state;
pub mod autostart;
pub mod backend;
pub mod cli;
pub mod components;
pub mod model;
pub mod settings;
pub mod text;
pub mod theme;
pub mod tray;
pub mod uninstall;
pub mod worker;

verus! {

} // verus!
