use innu::backend::unavailable_snapshot;
use innu::model::{AccessPointGroup, CurrentConnection, SecurityKind, WifiCommand};
use innu::tray::{TrayAction, TrayMenuItem, TraySignal, TrayState};

fn net(ssid: &str, security: SecurityKind, known: bool) -> AccessPointGroup {
    AccessPointGroup {
        ssid: ssid.into(),
        device_id: "wlan0".into(),
        signal: Some(70),
        security,
        band_summary: "2.4 GHz".into(),
        known,
        in_use: false,
    }
}

#[test]
fn initial_tray_is_offline() {
    let t = TrayState::initial();
    assert_eq!(t.title, "Innu - Network Management");
    assert_eq!(t.subtitle, "Not connected");
    assert_eq!(t.icon_name, "network-wireless-offline");
}

#[test]
fn snapshot_sets_title_subtitle_and_icon() {
    let mut t = TrayState::initial();
    let mut s = unavailable_snapshot(false, None);
    t.apply_snapshot(&s);
    assert_eq!(t.subtitle, "NetworkManager unavailable");
    assert_eq!(t.icon_name, "network-wireless-offline");
    s.manager_running = true;
    t.apply_snapshot(&s);
    assert_eq!(t.subtitle, "No Wi-Fi adapter");
    s.wifi_available = true;
    t.apply_snapshot(&s);
    assert_eq!(t.subtitle, "Wi-Fi unavailable");
    assert_eq!(t.icon_name, "network-wireless-offline");
    s.radio_enabled = true;
    t.apply_snapshot(&s);
    assert_eq!(t.subtitle, "Not connected");
    assert_eq!(t.icon_name, "network-wireless-signal-excellent");
    s.current_connection = Some(CurrentConnection {
        device_id: "wlan0".into(),
        ssid: "home".into(),
        signal: Some(30),
        security: SecurityKind::Open,
        band_summary: "5 GHz".into(),
    });
    s.visible_networks = (0..9).map(|i| net(&format!("n{i}"), SecurityKind::Open, false)).collect();
    t.apply_snapshot(&s);
    assert_eq!(t.title, "Innu - Network Management \u{b7} home");
    assert_eq!(t.subtitle, "Connected \u{b7} \u{2582}\u{2584} Open");
    assert_eq!(t.icon_name, "network-wireless");
    assert_eq!(t.connected_ssid.as_deref(), Some("home"));
    assert_eq!(t.nearby.len(), 6);
    assert_eq!(t.nearby[5].ssid, "n5");
}

#[test]
fn minimal_menu() {
    let t = TrayState::initial();
    let items = t.menu();
    assert_eq!(items.len(), 6);
    match &items[0] {
        TrayMenuItem::Entry(e) => {
            assert_eq!(e.label, "Not connected");
            assert!(!e.enabled);
        }
        _ => panic!("status line expected"),
    }
    assert!(matches!(items[1], TrayMenuItem::Separator));
    match &items[5] {
        TrayMenuItem::Entry(e) => {
            assert_eq!(e.label, "Quit");
            assert!(matches!(e.action, TrayAction::Signal(TraySignal::QuitApp)));
        }
        _ => panic!("quit expected"),
    }
}

#[test]
fn full_menu_lists_connection_and_networks() {
    let mut t = TrayState::initial();
    t.connected_ssid = Some("home".into());
    t.nearby = vec![
        net("open", SecurityKind::Open, false),
        net("locked", SecurityKind::WpaPsk, false),
        net("saved", SecurityKind::WpaPsk, true),
        net("corp", SecurityKind::Enterprise, true),
    ];
    let items = t.menu();
    assert_eq!(items.len(), 12);
    match &items[2] {
        TrayMenuItem::Entry(e) => assert_eq!(e.label, "Connected: home"),
        _ => panic!(),
    }
    match &items[3] {
        TrayMenuItem::Entry(e) => assert!(matches!(e.action, TrayAction::Command(WifiCommand::Disconnect))),
        _ => panic!(),
    }
    match &items[5] {
        TrayMenuItem::Submenu(label, entries) => {
            assert_eq!(label, "Nearby Networks");
            assert_eq!(entries.len(), 4);
            assert_eq!(entries[0].label, "\u{2582}\u{2584}\u{2586}\u{2588}  open  Open");
            assert!(matches!(&entries[0].action, TrayAction::Command(WifiCommand::Connect(r)) if r.ssid == "open"));
            assert!(matches!(entries[1].action, TrayAction::Signal(TraySignal::ShowWindow)));
            assert_eq!(entries[2].label, "\u{2582}\u{2584}\u{2586}\u{2588}  saved  WPA Personal \u{b7} Saved");
            assert!(matches!(entries[2].action, TrayAction::Command(WifiCommand::Connect(_))));
            assert!(matches!(entries[3].action, TrayAction::Signal(TraySignal::ShowWindow)));
        }
        _ => panic!("submenu expected"),
    }
    match &items[9] {
        TrayMenuItem::Entry(e) => {
            assert_eq!(e.label, "Refresh");
            assert_eq!(e.icon_name, "view-refresh");
        }
        _ => panic!(),
    }
}
