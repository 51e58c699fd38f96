use innu::backend::{
    build_snapshot, classify_security_flags, connect_security, failure_message, group_visible_networks,
    humanize_nm_error, operation_finished_message, operation_started_message, saved_wifi_ids,
    unavailable_snapshot, ConnectFailure, ConnectSecurity, ConnectionSummary, VisibleNetwork,
};
use innu::model::{ConnectRequest, SecurityKind, WifiCommand};

fn ap(ssid: &str, device: &str, strength: Option<u8>, frequency: Option<u32>) -> VisibleNetwork {
    VisibleNetwork {
        device: device.into(),
        ssid: ssid.into(),
        strength,
        frequency,
        secured: true,
        is_psk: true,
        is_eap: false,
    }
}

#[test]
fn classifies_security_flags() {
    assert_eq!(classify_security_flags(false, true, true), SecurityKind::Open);
    assert_eq!(classify_security_flags(true, true, true), SecurityKind::Enterprise);
    assert_eq!(classify_security_flags(true, true, false), SecurityKind::WpaPsk);
    assert_eq!(classify_security_flags(true, false, false), SecurityKind::Unknown);
}

#[test]
fn unavailable_snapshot_carries_only_the_error() {
    let s = unavailable_snapshot(true, Some("boom".into()));
    assert!(s.manager_running);
    assert_eq!(s.transient_error.as_deref(), Some("boom"));
    assert!(s.visible_networks.is_empty());
    assert!(!s.wifi_available);
    let s = unavailable_snapshot(false, None);
    assert!(!s.manager_running);
    assert!(s.transient_error.is_none());
}

#[test]
fn groups_access_points_by_ssid_keeping_the_strongest() {
    let visible = vec![
        ap("home", "wlan0", Some(40), Some(2412)),
        ap("cafe", "wlan0", Some(70), Some(5180)),
        ap("home", "wlan1", Some(65), Some(5500)),
        ap("home", "wlan2", Some(20), Some(6100)),
    ];
    let saved = vec!["home".to_string()];
    let current = ap("cafe", "wlan0", Some(70), Some(5180));
    let list = group_visible_networks(visible, &saved, Some(&current));
    assert_eq!(list.len(), 2);
    assert_eq!(list[0].ssid, "cafe");
    assert!(list[0].in_use);
    assert!(!list[0].known);
    assert_eq!(list[0].band_summary, "5 GHz");
    assert_eq!(list[1].ssid, "home");
    assert!(list[1].known);
    assert_eq!(list[1].signal, Some(65));
    assert_eq!(list[1].device_id, "wlan1");
    assert_eq!(list[1].band_summary, "5 GHz");
    assert_eq!(list[1].security, SecurityKind::WpaPsk);
}

#[test]
fn equal_strength_prefers_the_later_access_point() {
    let visible = vec![ap("x", "first", Some(50), None), ap("x", "second", Some(50), Some(5950))];
    let list = group_visible_networks(visible, &Vec::new(), None);
    assert_eq!(list.len(), 1);
    assert_eq!(list[0].device_id, "second");
    assert_eq!(list[0].band_summary, "6 GHz");
    let visible = vec![ap("y", "first", None, None), ap("y", "second", None, None)];
    let list = group_visible_networks(visible, &Vec::new(), None);
    assert_eq!(list[0].device_id, "second");
    assert_eq!(list[0].band_summary, "Unknown band");
}

#[test]
fn empty_scan_gives_empty_list() {
    assert!(group_visible_networks(Vec::new(), &Vec::new(), None).is_empty());
}

#[test]
fn picks_saved_wifi_profile_names() {
    let profiles = vec![
        Some(ConnectionSummary { kind: Some("802-11-wireless".into()), id: Some("home".into()) }),
        Some(ConnectionSummary { kind: Some("802-3-ethernet".into()), id: Some("wired".into()) }),
        None,
        Some(ConnectionSummary { kind: None, id: Some("untyped".into()) }),
        Some(ConnectionSummary { kind: Some("802-11-wireless".into()), id: None }),
        Some(ConnectionSummary { kind: Some("802-11-wireless".into()), id: Some("office".into()) }),
    ];
    assert_eq!(saved_wifi_ids(profiles), vec!["home".to_string(), "office".to_string()]);
}

#[test]
fn builds_snapshot_from_manager_reports() {
    let current = ap("cafe", "wlan0", Some(70), Some(2437));
    let snapshot = build_snapshot(
        vec!["/org/freedesktop/NetworkManager/Devices/3".into()],
        None,
        Some(false),
        vec!["cafe".into()],
        Some(current.clone()),
        vec![current],
        Some("kept".into()),
    );
    assert_eq!(snapshot.primary_device_id.as_deref(), Some("/org/freedesktop/NetworkManager/Devices/3"));
    assert!(snapshot.wifi_available);
    assert!(snapshot.radio_enabled);
    assert!(snapshot.rfkill_blocked);
    assert!(snapshot.manager_running);
    assert_eq!(snapshot.transient_error.as_deref(), Some("kept"));
    let c = snapshot.current_connection.unwrap();
    assert_eq!(c.ssid, "cafe");
    assert_eq!(c.device_id, "wlan0");
    assert_eq!(c.band_summary, "2.4 GHz");
    assert_eq!(c.security, SecurityKind::WpaPsk);
    assert_eq!(snapshot.visible_networks.len(), 1);
    assert!(snapshot.visible_networks[0].in_use);
    assert!(snapshot.visible_networks[0].known);
}

#[test]
fn snapshot_without_devices() {
    let snapshot = build_snapshot(Vec::new(), Some(false), None, Vec::new(), None, Vec::new(), None);
    assert!(snapshot.primary_device_id.is_none());
    assert!(!snapshot.wifi_available);
    assert!(!snapshot.radio_enabled);
    assert!(!snapshot.rfkill_blocked);
    assert!(snapshot.current_connection.is_none());
}

#[test]
fn explains_connection_failures() {
    assert_eq!(humanize_nm_error(&ConnectFailure::AuthFailed), "Authentication failed. Re-enter the Wi-Fi password.");
    assert_eq!(
        humanize_nm_error(&ConnectFailure::DhcpFailed),
        "The network accepted the credentials but did not issue an IP address."
    );
    assert_eq!(
        humanize_nm_error(&ConnectFailure::NotFound),
        "The selected network is no longer visible. Refresh and try again."
    );
    assert_eq!(humanize_nm_error(&ConnectFailure::Timeout), "NetworkManager timed out while trying to connect.");
    assert_eq!(humanize_nm_error(&ConnectFailure::NoSavedConnection), "No saved profile exists for this network.");
    assert_eq!(humanize_nm_error(&ConnectFailure::Other("odd".into())), "odd");
}

#[test]
fn failure_message_prefers_the_kept_explanation() {
    assert_eq!(failure_message(&Some("kept".into()), "raw".into()), "kept");
    assert_eq!(failure_message(&None, "raw".into()), "raw");
}

#[test]
fn announces_operations() {
    let connect = WifiCommand::Connect(ConnectRequest {
        device_id: "d".into(),
        ssid: "cafe".into(),
        hidden: false,
        security: SecurityKind::Open,
        passphrase: None,
    });
    assert_eq!(operation_started_message(&WifiCommand::Refresh).as_deref(), Some("Refreshing nearby networks"));
    assert_eq!(operation_finished_message(&WifiCommand::Refresh).as_deref(), Some("Wi-Fi list updated"));
    assert_eq!(operation_started_message(&connect).as_deref(), Some("Connecting to cafe"));
    assert_eq!(operation_finished_message(&connect).as_deref(), Some("Connected to cafe"));
    assert_eq!(operation_started_message(&WifiCommand::Disconnect).as_deref(), Some("Disconnecting current network"));
    assert_eq!(operation_finished_message(&WifiCommand::Disconnect).as_deref(), Some("Disconnected"));
    let forget = WifiCommand::Forget("home".into());
    assert_eq!(operation_started_message(&forget).as_deref(), Some("Forgetting home"));
    assert_eq!(operation_finished_message(&forget).as_deref(), Some("Forgot home"));
    assert!(operation_started_message(&WifiCommand::Shutdown).is_none());
    assert!(operation_finished_message(&WifiCommand::Shutdown).is_none());
}

#[test]
fn chooses_credentials_by_security() {
    let mut request = ConnectRequest {
        device_id: "d".into(),
        ssid: "s".into(),
        hidden: false,
        security: SecurityKind::Open,
        passphrase: Some("ignored".into()),
    };
    assert_eq!(connect_security(&request), ConnectSecurity::Open);
    request.security = SecurityKind::WpaPsk;
    assert_eq!(connect_security(&request), ConnectSecurity::WpaPsk { psk: "ignored".into() });
    request.security = SecurityKind::Enterprise;
    request.passphrase = None;
    assert_eq!(connect_security(&request), ConnectSecurity::WpaPsk { psk: String::new() });
    request.security = SecurityKind::Unknown;
    assert_eq!(connect_security(&request), ConnectSecurity::WpaPsk { psk: String::new() });
}
