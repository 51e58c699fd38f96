use innu::model::{
    band_label, group_networks, signal_bars, AccessPointGroup, AppSnapshot, ConnectRequest, SecurityKind,
};

fn group(ssid: &str, signal: Option<u8>, known: bool, in_use: bool) -> AccessPointGroup {
    AccessPointGroup {
        ssid: ssid.into(),
        device_id: "wlp0".into(),
        signal,
        security: SecurityKind::WpaPsk,
        band_summary: "2.4 GHz".into(),
        known,
        in_use,
    }
}

#[test]
fn groups_visible_networks_by_priority() {
    let result = group_networks(vec![
        AccessPointGroup {
            ssid: "z".into(),
            device_id: "wlp0".into(),
            signal: Some(80),
            security: SecurityKind::WpaPsk,
            band_summary: "2.4 GHz".into(),
            known: false,
            in_use: false,
        },
        AccessPointGroup {
            ssid: "a".into(),
            device_id: "wlp0".into(),
            signal: Some(10),
            security: SecurityKind::Open,
            band_summary: "2.4 GHz".into(),
            known: true,
            in_use: true,
        },
    ]);

    assert_eq!(result[0].ssid, "a");
    assert!(result[0].in_use);
}

#[test]
fn marks_unknown_security_as_passphrase_based() {
    assert!(SecurityKind::Unknown.requires_passphrase());
    assert!(SecurityKind::Unknown.is_supported());
    assert!(!SecurityKind::Enterprise.is_supported());
}

#[test]
fn passphrase_and_support_rules_for_every_kind() {
    assert!(!SecurityKind::Open.requires_passphrase());
    assert!(SecurityKind::WpaPsk.requires_passphrase());
    assert!(!SecurityKind::Enterprise.requires_passphrase());
    assert!(SecurityKind::Open.is_supported());
    assert!(SecurityKind::WpaPsk.is_supported());
}

#[test]
fn security_labels() {
    assert_eq!(SecurityKind::Open.label(), "Open");
    assert_eq!(SecurityKind::WpaPsk.label(), "WPA Personal");
    assert_eq!(SecurityKind::Enterprise.label(), "Enterprise");
    assert_eq!(SecurityKind::Unknown.label(), "Secured");
    assert_eq!(SecurityKind::WpaPsk.to_string(), "WPA Personal");
    assert_eq!(SecurityKind::default(), SecurityKind::Unknown);
}

#[test]
fn signal_bars_steps_of_twenty_percent() {
    assert_eq!(signal_bars(None), "\u{2582}");
    assert_eq!(signal_bars(Some(0)), "\u{2582}");
    assert_eq!(signal_bars(Some(20)), "\u{2582}");
    assert_eq!(signal_bars(Some(21)), "\u{2582}\u{2584}");
    assert_eq!(signal_bars(Some(40)), "\u{2582}\u{2584}");
    assert_eq!(signal_bars(Some(41)), "\u{2582}\u{2584}\u{2586}");
    assert_eq!(signal_bars(Some(61)), "\u{2582}\u{2584}\u{2586}\u{2588}");
    assert_eq!(signal_bars(Some(80)), "\u{2582}\u{2584}\u{2586}\u{2588}");
    assert_eq!(signal_bars(Some(81)), "\u{2588}\u{2586}\u{2588}");
    assert_eq!(signal_bars(Some(255)), "\u{2588}\u{2586}\u{2588}");
}

#[test]
fn band_labels_by_frequency() {
    assert_eq!(band_label(None), "Unknown band");
    assert_eq!(band_label(Some(2412)), "2.4 GHz");
    assert_eq!(band_label(Some(4899)), "2.4 GHz");
    assert_eq!(band_label(Some(4900)), "5 GHz");
    assert_eq!(band_label(Some(5899)), "5 GHz");
    assert_eq!(band_label(Some(5900)), "6 GHz");
    assert_eq!(band_label(Some(6115)), "6 GHz");
}

#[test]
fn orders_by_use_then_saved_then_signal_then_name() {
    let result = group_networks(vec![
        group("weak", Some(10), false, false),
        group("strong", Some(90), false, false),
        group("saved", Some(5), true, false),
        group("b", Some(50), false, false),
        group("a", Some(50), false, false),
        group("current", None, true, true),
        group("silent", None, false, false),
    ]);
    let names: Vec<&str> = result.iter().map(|g| g.ssid.as_str()).collect();
    assert_eq!(names, vec!["current", "saved", "strong", "a", "b", "weak", "silent"]);
}

#[test]
fn ties_keep_their_input_order() {
    let mut first = group("same", Some(40), false, false);
    first.device_id = "wlan0".into();
    let mut second = group("same", Some(40), false, false);
    second.device_id = "wlan1".into();
    let result = group_networks(vec![first, group("other", Some(70), false, false), second]);
    assert_eq!(result[0].ssid, "other");
    assert_eq!(result[1].device_id, "wlan0");
    assert_eq!(result[2].device_id, "wlan1");
}

#[test]
fn ranking_is_idempotent() {
    let once = group_networks(vec![
        group("x", Some(30), false, false),
        group("y", Some(60), true, false),
        group("z", Some(60), false, false),
    ]);
    let twice = group_networks(once.clone());
    assert_eq!(once, twice);
}

#[test]
fn ssids_compare_by_code_point() {
    let result = group_networks(vec![
        group("b", Some(50), false, false),
        group("B", Some(50), false, false),
        group("ab", Some(50), false, false),
        group("a", Some(50), false, false),
        group("\u{e9}", Some(50), false, false),
    ]);
    let names: Vec<&str> = result.iter().map(|g| g.ssid.as_str()).collect();
    assert_eq!(names, vec!["B", "a", "ab", "b", "\u{e9}"]);
}

#[test]
fn empty_list_stays_empty() {
    assert!(group_networks(Vec::new()).is_empty());
}

#[test]
fn default_snapshot_knows_nothing() {
    let snapshot = AppSnapshot::default();
    assert!(snapshot.primary_device_id.is_none());
    assert!(snapshot.current_connection.is_none());
    assert!(snapshot.visible_networks.is_empty());
    assert!(!snapshot.wifi_available);
    assert!(!snapshot.radio_enabled);
    assert!(!snapshot.rfkill_blocked);
    assert!(!snapshot.manager_running);
    assert!(snapshot.transient_error.is_none());
}

#[test]
fn duplicates_are_equal() {
    let g = group("copy", Some(3), true, false);
    assert_eq!(g.duplicate(), g);
    let r = ConnectRequest {
        device_id: "/dev/1".into(),
        ssid: "n".into(),
        hidden: true,
        security: SecurityKind::Open,
        passphrase: Some("pw".into()),
    };
    assert_eq!(r.duplicate(), r);
}
