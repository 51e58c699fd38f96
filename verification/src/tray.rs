//! What the tray icon shows and offers, derived from the latest snapshot.
use vstd::prelude::*;

use crate::model::{
    AccessPointGroup, AppSnapshot, ConnectRequest, WifiCommand, kind_supported, passphrase_required,
    security_label, signal_bars, signal_bars_text,
};
use crate::text::{push_str};

verus! {

/// A request from the tray menu to the window.
#[derive(Debug, Clone, Copy, PartialEq, Eq, Structural)]
pub enum TraySignal {
    ShowWindow,
    QuitApp,
}

/// How many networks the tray menu lists.
pub const TRAY_NEARBY_LIMIT: usize = 6;

/// What the tray shows.
#[derive(Debug, Clone)]
pub struct TrayState {
    pub title: String,
    pub subtitle: String,
    pub icon_name: String,
    pub connected_ssid: Option<String>,
    pub nearby: Vec<AccessPointGroup>,
    pub manager_running: bool,
    pub wifi_available: bool,
    pub radio_enabled: bool,
}

/// The tray's tooltip title: the app's name, and the connected SSID if any.
pub open spec fn tray_title_text(connected: Option<String>) -> Seq<char> {
    match connected {
        Some(ssid) => "Innu - Network Management \u{b7} "@ + ssid@,
        None => "Innu - Network Management"@,
    }
}

/// The first line of the tray menu.
pub open spec fn tray_subtitle_text(s: AppSnapshot) -> Seq<char> {
    if !s.manager_running {
        "NetworkManager unavailable"@
    } else if !s.wifi_available {
        "No Wi-Fi adapter"@
    } else if s.current_connection is Some {
        "Connected \u{b7} "@ + signal_bars_text(s.current_connection->0.signal) + " "@
            + security_label(s.current_connection->0.security)
    } else if s.radio_enabled {
        "Not connected"@
    } else {
        "Wi-Fi unavailable"@
    }
}

/// The tray icon: offline without NetworkManager, an adapter or a radio,
/// connected while connected, else full signal (ready to connect).
pub open spec fn tray_icon_text(s: AppSnapshot) -> Seq<char> {
    if !s.manager_running || !s.wifi_available {
        "network-wireless-offline"@
    } else if s.current_connection is Some {
        "network-wireless"@
    } else if s.radio_enabled {
        "network-wireless-signal-excellent"@
    } else {
        "network-wireless-offline"@
    }
}

/// `t` is what the tray shows for the snapshot `s`.
pub open spec fn tray_shows(t: TrayState, s: AppSnapshot) -> bool {
    &&& t.connected_ssid == (match s.current_connection {
        Some(c) => Some(c.ssid),
        None => None::<String>,
    })
    &&& t.title@ == tray_title_text(t.connected_ssid)
    &&& t.subtitle@ == tray_subtitle_text(s)
    &&& t.icon_name@ == tray_icon_text(s)
    &&& t.nearby@ == s.visible_networks@.take(if s.visible_networks@.len() < 6 { s.visible_networks@.len() as int } else { 6 })
    &&& t.manager_running == s.manager_running
    &&& t.wifi_available == s.wifi_available
    &&& t.radio_enabled == s.radio_enabled
}

impl TrayState {
    /// What the tray shows before the first snapshot.
    pub fn initial() -> (t: Self)
        ensures
            t.title@ == "Innu - Network Management"@,
            t.subtitle@ == "Not connected"@,
            t.icon_name@ == "network-wireless-offline"@,
            t.connected_ssid is None,
            t.nearby@.len() == 0,
            !t.manager_running,
            !t.wifi_available,
            !t.radio_enabled,
    {
        TrayState {
            title: "Innu - Network Management".to_owned(),
            subtitle: "Not connected".to_owned(),
            icon_name: "network-wireless-offline".to_owned(),
            connected_ssid: None,
            nearby: Vec::new(),
            manager_running: false,
            wifi_available: false,
            radio_enabled: false,
        }
    }

    /// Replaces what the tray shows by what the snapshot says.
    pub fn apply_snapshot(&mut self, snapshot: &AppSnapshot)
        ensures
            tray_shows(*final(self), *snapshot),
    {
        self.connected_ssid = match &snapshot.current_connection {
            Some(c) => Some(c.ssid.clone()),
            None => None,
        };
        self.title = match &self.connected_ssid {
            Some(ssid) => {
                let mut t = "Innu - Network Management \u{b7} ".to_owned();
                push_str(&mut t, ssid.as_str());
                t
            },
            None => "Innu - Network Management".to_owned(),
        };
        self.subtitle = if !snapshot.manager_running {
            "NetworkManager unavailable".to_owned()
        } else if !snapshot.wifi_available {
            "No Wi-Fi adapter".to_owned()
        } else {
            match &snapshot.current_connection {
                Some(c) => {
                    let mut t = "Connected \u{b7} ".to_owned();
                    push_str(&mut t, signal_bars(c.signal));
                    push_str(&mut t, " ");
                    push_str(&mut t, c.security.label());
                    t
                },
                None => if snapshot.radio_enabled {
                    "Not connected".to_owned()
                } else {
                    "Wi-Fi unavailable".to_owned()
                },
            }
        };
        self.icon_name = if !snapshot.manager_running || !snapshot.wifi_available {
            "network-wireless-offline".to_owned()
        } else if snapshot.current_connection.is_some() {
            "network-wireless".to_owned()
        } else if snapshot.radio_enabled {
            "network-wireless-signal-excellent".to_owned()
        } else {
            "network-wireless-offline".to_owned()
        };
        let mut nearby: Vec<AccessPointGroup> = Vec::new();
        let limit = if snapshot.visible_networks.len() < TRAY_NEARBY_LIMIT {
            snapshot.visible_networks.len()
        } else {
            TRAY_NEARBY_LIMIT
        };
        let mut i: usize = 0;
        while i < limit
            invariant
                limit <= snapshot.visible_networks@.len(),
                i <= limit,
                nearby@ == snapshot.visible_networks@.take(i as int),
            decreases limit - i,
        {
            nearby.push(snapshot.visible_networks[i].duplicate());
            assert(snapshot.visible_networks@.take(i + 1) =~= snapshot.visible_networks@.take(i as int).push(snapshot.visible_networks@[i as int]));
            i = i + 1;
        }
        self.nearby = nearby;
        self.manager_running = snapshot.manager_running;
        self.wifi_available = snapshot.wifi_available;
        self.radio_enabled = snapshot.radio_enabled;
    }
}

/// What choosing a menu entry does.
#[derive(Debug, Clone)]
pub enum TrayAction {
    /// Nothing: the entry only informs.
    Inert,
    /// Send this command to the worker.
    Command(WifiCommand),
    /// Ask the window to do this.
    Signal(TraySignal),
}

/// A menu entry.
#[derive(Debug, Clone)]
pub struct TrayEntry {
    pub label: String,
    pub icon_name: String,
    pub enabled: bool,
    pub action: TrayAction,
}

/// A line of the tray menu.
#[derive(Debug, Clone)]
pub enum TrayMenuItem {
    Entry(TrayEntry),
    Separator,
    Submenu(String, Vec<TrayEntry>),
}

/// `e` has this label, icon, enabled state and action.
pub open spec fn entry_is(e: TrayEntry, label: Seq<char>, icon: Seq<char>, enabled: bool, action: TrayAction) -> bool {
    e.label@ == label && e.icon_name@ == icon && e.enabled == enabled && e.action == action
}

/// `item` is the entry described.
pub open spec fn item_is(item: TrayMenuItem, label: Seq<char>, icon: Seq<char>, enabled: bool, action: TrayAction) -> bool {
    item matches TrayMenuItem::Entry(e) && entry_is(e, label, icon, enabled, action)
}

/// The menu entry of a nearby network: bars, SSID, security and whether it is
/// saved. Choosing it connects directly, except that networks the app cannot
/// join, and secured networks without a saved profile, open the window.
pub open spec fn nearby_entry_is(e: TrayEntry, n: AccessPointGroup) -> bool {
    let label = signal_bars_text(n.signal) + "  "@ + n.ssid@ + "  "@ + security_label(n.security)
        + (if n.known { " \u{b7} Saved"@ } else { ""@ });
    let opens_window = !kind_supported(n.security) || (passphrase_required(n.security) && !n.known);
    let action = if opens_window {
        TrayAction::Signal(TraySignal::ShowWindow)
    } else {
        TrayAction::Command(WifiCommand::Connect(ConnectRequest {
            device_id: n.device_id,
            ssid: n.ssid,
            hidden: false,
            security: n.security,
            passphrase: None,
        }))
    };
    entry_is(e, label, ""@, true, action)
}

/// The number of menu lines about the connected network: its name, the
/// "Disconnect" entry and a separator, when there is one.
pub open spec fn connected_rows(t: TrayState) -> int {
    if t.connected_ssid is Some { 3 } else { 0 }
}

/// The number of menu lines about nearby networks: the submenu, "Join Hidden
/// Network" and a separator, when any network is nearby.
pub open spec fn nearby_rows(t: TrayState) -> int {
    if t.nearby@.len() > 0 { 3 } else { 0 }
}

/// `items` is the tray menu for the state `t`: the status line; the connected
/// network with a "Disconnect" entry, if any; the nearby networks with "Join
/// Hidden Network", if any; then "Open Window", "Refresh" and "Quit".
pub open spec fn menu_is(t: TrayState, items: Seq<TrayMenuItem>) -> bool {
    let c = connected_rows(t);
    let n = nearby_rows(t);
    &&& items.len() == 6 + c + n
    &&& item_is(items[0], t.subtitle@, ""@, false, TrayAction::Inert)
    &&& items[1] is Separator
    &&& t.connected_ssid matches Some(ssid) ==> {
        &&& item_is(items[2], "Connected: "@ + ssid@, ""@, false, TrayAction::Inert)
        &&& item_is(items[3], "Disconnect"@, "network-disconnect"@, true, TrayAction::Command(WifiCommand::Disconnect))
        &&& items[4] is Separator
    }
    &&& t.nearby@.len() > 0 ==> {
        &&& items[2 + c] matches TrayMenuItem::Submenu(label, entries) && label@ == "Nearby Networks"@
            && entries@.len() == t.nearby@.len()
            && forall|i: int| 0 <= i < entries@.len() ==> nearby_entry_is(#[trigger] entries@[i], t.nearby@[i])
        &&& item_is(items[3 + c], "Join Hidden Network"@, ""@, true, TrayAction::Signal(TraySignal::ShowWindow))
        &&& items[4 + c] is Separator
    }
    &&& item_is(items[2 + c + n], "Open Window"@, "preferences-system-network"@, true, TrayAction::Signal(TraySignal::ShowWindow))
    &&& item_is(items[3 + c + n], "Refresh"@, "view-refresh"@, true, TrayAction::Command(WifiCommand::Refresh))
    &&& items[4 + c + n] is Separator
    &&& item_is(items[5 + c + n], "Quit"@, "application-exit"@, true, TrayAction::Signal(TraySignal::QuitApp))
}

fn entry(label: String, icon: &str, enabled: bool, action: TrayAction) -> (item: TrayMenuItem)
    ensures
        item_is(item, label@, icon@, enabled, action),
{
    TrayMenuItem::Entry(TrayEntry { label, icon_name: icon.to_owned(), enabled, action })
}

fn nearby_entry(n: &AccessPointGroup) -> (e: TrayEntry)
    ensures
        nearby_entry_is(e, *n),
{
    let mut label = signal_bars(n.signal).to_owned();
    push_str(&mut label, "  ");
    push_str(&mut label, n.ssid.as_str());
    push_str(&mut label, "  ");
    push_str(&mut label, n.security.label());
    if n.known {
        push_str(&mut label, " \u{b7} Saved");
    } else {
        proof {
            reveal_strlit("");
        }
        assert(label@ + ""@ =~= label@);
    }
    let opens_window = !n.security.is_supported() || (n.security.requires_passphrase() && !n.known);
    let action = if opens_window {
        TrayAction::Signal(TraySignal::ShowWindow)
    } else {
        TrayAction::Command(WifiCommand::Connect(ConnectRequest {
            device_id: n.device_id.clone(),
            ssid: n.ssid.clone(),
            hidden: false,
            security: n.security,
            passphrase: None,
        }))
    };
    TrayEntry { label, icon_name: "".to_owned(), enabled: true, action }
}

impl TrayState {
    /// The tray menu.
    pub fn menu(&self) -> (items: Vec<TrayMenuItem>)
        ensures
            menu_is(*self, items@),
    {
        let mut items: Vec<TrayMenuItem> = Vec::new();
        items.push(entry(self.subtitle.clone(), "", false, TrayAction::Inert));
        items.push(TrayMenuItem::Separator);
        let ghost c: int = if self.connected_ssid is Some { 3 } else { 0 };
        match &self.connected_ssid {
            Some(ssid) => {
                let mut label = "Connected: ".to_owned();
                push_str(&mut label, ssid.as_str());
                items.push(entry(label, "", false, TrayAction::Inert));
                items.push(entry("Disconnect".to_owned(), "network-disconnect", true, TrayAction::Command(WifiCommand::Disconnect)));
                items.push(TrayMenuItem::Separator);
            },
            None => {},
        }
        assert(items@.len() == 2 + c);
        let ghost n: int = if self.nearby@.len() > 0 { 3 } else { 0 };
        if self.nearby.len() > 0 {
            let mut entries: Vec<TrayEntry> = Vec::new();
            let mut i: usize = 0;
            while i < self.nearby.len()
                invariant
                    i <= self.nearby@.len(),
                    entries@.len() == i,
                    forall|j: int| 0 <= j < i ==> nearby_entry_is(#[trigger] entries@[j], self.nearby@[j]),
                decreases self.nearby@.len() - i,
            {
                entries.push(nearby_entry(&self.nearby[i]));
                i = i + 1;
            }
            items.push(TrayMenuItem::Submenu("Nearby Networks".to_owned(), entries));
            items.push(entry("Join Hidden Network".to_owned(), "", true, TrayAction::Signal(TraySignal::ShowWindow)));
            items.push(TrayMenuItem::Separator);
        }
        assert(items@.len() == 2 + c + n);
        items.push(entry("Open Window".to_owned(), "preferences-system-network", true, TrayAction::Signal(TraySignal::ShowWindow)));
        items.push(entry("Refresh".to_owned(), "view-refresh", true, TrayAction::Command(WifiCommand::Refresh)));
        items.push(TrayMenuItem::Separator);
        items.push(entry("Quit".to_owned(), "application-exit", true, TrayAction::Signal(TraySignal::QuitApp)));
        items
    }
}

} // verus!
