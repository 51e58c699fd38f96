use innu::app_state::{
    action_for_network, describe_signal, details_primary_action, format_elapsed, hidden_form_valid,
    is_refresh_finished, is_refresh_operation, network_badges, network_metadata, network_row_mode_for,
    network_row_state_for, passphrase_valid, saved_profile_label, signal_quality_label, split_status_title,
    status_label, AppState, DetailsClick, HiddenDialogState, MessageTone, MESSAGE_LIFETIME_NANOS,
};
use innu::app_state::{
    connect_dialog_title, forget_dialog_text, last_scanned_text, notice_kind_for, support_label, ForgetDialogState,
};
use innu::backend::unavailable_snapshot;
use innu::components::NoticeKind;
use innu::components::{AppActionKind, BadgeKind, NetworkRowState};
use innu::model::{AccessPointGroup, AppSnapshot, CurrentConnection, SecurityKind, WifiCommand, WifiEvent};
use innu::theme::{BaseMode, LayoutClass, ThemeChoice};
use innu::tray::TraySignal;

fn net(ssid: &str, security: SecurityKind, known: bool, in_use: bool) -> AccessPointGroup {
    AccessPointGroup {
        ssid: ssid.into(),
        device_id: "wlan0".into(),
        signal: Some(55),
        security,
        band_summary: "5 GHz".into(),
        known,
        in_use,
    }
}

fn online_snapshot() -> AppSnapshot {
    let mut s = unavailable_snapshot(true, None);
    s.wifi_available = true;
    s.radio_enabled = true;
    s.primary_device_id = Some("/dev/wlan0".into());
    s.visible_networks = vec![net("home", SecurityKind::WpaPsk, true, false)];
    s
}

fn state() -> AppState {
    AppState::new(ThemeChoice { base: BaseMode::Dark })
}

#[test]
fn passphrase_rules() {
    assert!(passphrase_valid(SecurityKind::Open, ""));
    assert!(passphrase_valid(SecurityKind::Enterprise, ""));
    assert!(!passphrase_valid(SecurityKind::WpaPsk, "1234567"));
    assert!(passphrase_valid(SecurityKind::WpaPsk, "12345678"));
    assert!(passphrase_valid(SecurityKind::Unknown, &"x".repeat(63)));
    assert!(!passphrase_valid(SecurityKind::Unknown, &"x".repeat(64)));
    assert!(passphrase_valid(SecurityKind::WpaPsk, "\u{e9}\u{e9}\u{e9}\u{e9}\u{e9}\u{e9}\u{e9}\u{e9}"));
}

#[test]
fn hidden_form_needs_a_name() {
    let mut d = HiddenDialogState {
        ssid: "  \t ".into(),
        security: SecurityKind::Open,
        passphrase: String::new(),
        reveal_password: false,
    };
    assert!(!hidden_form_valid(&d));
    d.ssid = " lab ".into();
    assert!(hidden_form_valid(&d));
    d.security = SecurityKind::WpaPsk;
    assert!(!hidden_form_valid(&d));
    d.passphrase = "long enough".into();
    assert!(hidden_form_valid(&d));
}

#[test]
fn labels_for_details() {
    assert_eq!(status_label(&net("a", SecurityKind::Open, true, true)), "Connected");
    assert_eq!(status_label(&net("a", SecurityKind::Open, true, false)), "Saved");
    assert_eq!(status_label(&net("a", SecurityKind::Open, false, false)), "Available");
    assert_eq!(saved_profile_label(&net("a", SecurityKind::Open, true, false)), "Saved");
    assert_eq!(saved_profile_label(&net("a", SecurityKind::Open, false, false)), "Not saved");
    assert_eq!(describe_signal(Some(42)), "\u{2582}\u{2584}\u{2586}  42%");
    assert_eq!(describe_signal(Some(0)), "\u{2582}  0%");
    assert_eq!(describe_signal(None), "Unknown");
    assert_eq!(signal_quality_label(None), "Weak");
    assert_eq!(signal_quality_label(Some(21)), "Fair");
    assert_eq!(signal_quality_label(Some(60)), "Good");
    assert_eq!(signal_quality_label(Some(80)), "Very good");
    assert_eq!(signal_quality_label(Some(100)), "Excellent");
}

#[test]
fn elapsed_time_text() {
    assert_eq!(format_elapsed(0), "Just now");
    assert_eq!(format_elapsed(4), "Just now");
    assert_eq!(format_elapsed(5), "5s ago");
    assert_eq!(format_elapsed(59), "59s ago");
    assert_eq!(format_elapsed(60), "1m ago");
    assert_eq!(format_elapsed(3599), "59m ago");
    assert_eq!(format_elapsed(3600), "1h ago");
    assert_eq!(format_elapsed(100_000), "27h ago");
}

#[test]
fn actions_for_networks() {
    assert_eq!(action_for_network(&net("a", SecurityKind::WpaPsk, true, true)), AppActionKind::Connected);
    assert_eq!(action_for_network(&net("a", SecurityKind::Enterprise, true, false)), AppActionKind::Unsupported);
    assert_eq!(action_for_network(&net("a", SecurityKind::WpaPsk, true, false)), AppActionKind::Reconnect);
    assert_eq!(action_for_network(&net("a", SecurityKind::Unknown, false, false)), AppActionKind::EnterPassword);
    assert_eq!(action_for_network(&net("a", SecurityKind::Open, false, false)), AppActionKind::Connect);
    assert_eq!(details_primary_action(&net("a", SecurityKind::Open, false, true)), Some(AppActionKind::Disconnect));
    assert_eq!(details_primary_action(&net("a", SecurityKind::Enterprise, false, false)), None);
    assert_eq!(details_primary_action(&net("a", SecurityKind::Open, false, false)), Some(AppActionKind::Connect));
}

#[test]
fn refresh_messages_are_recognised() {
    assert!(is_refresh_operation("Refreshing nearby networks"));
    assert!(!is_refresh_operation("Refreshing"));
    assert!(is_refresh_finished("Wi-Fi list updated"));
    assert!(!is_refresh_finished("Disconnected"));
}

#[test]
fn splits_connection_titles() {
    assert_eq!(split_status_title("Connected to home"), ("Connected to".to_string(), Some("home".to_string())));
    assert_eq!(split_status_title("Connecting to  x"), ("Connecting to".to_string(), Some(" x".to_string())));
    assert_eq!(split_status_title("Connected to "), ("Connected to".to_string(), Some(String::new())));
    assert_eq!(split_status_title("Disconnected"), ("Disconnected".to_string(), None));
}

#[test]
fn row_modes_badges_and_metadata() {
    let n = net("a", SecurityKind::Enterprise, true, true);
    assert!(network_row_mode_for(LayoutClass::Standard, false, &n).show_badges);
    assert!(network_row_mode_for(LayoutClass::Narrow, true, &n).show_badges);
    assert!(!network_row_mode_for(LayoutClass::Narrow, false, &n).show_badges);
    assert!(!network_row_mode_for(LayoutClass::Compact, true, &n).show_badges);
    assert!(!network_row_mode_for(LayoutClass::Compact, true, &n).action_below);
    assert_eq!(network_row_mode_for(LayoutClass::Compact, true, &n).action, AppActionKind::Connected);
    assert_eq!(network_row_state_for(&n), NetworkRowState::InUse);
    assert_eq!(network_row_state_for(&net("a", SecurityKind::Enterprise, false, false)), NetworkRowState::Unsupported);
    assert_eq!(network_row_state_for(&net("a", SecurityKind::Open, false, false)), NetworkRowState::Default);
    assert_eq!(
        network_badges(&n),
        vec![(BadgeKind::Neutral, "SAVED"), (BadgeKind::Active, "IN USE"), (BadgeKind::Warning, "UNSUPPORTED")]
    );
    assert!(network_badges(&net("a", SecurityKind::Open, false, false)).is_empty());
    assert_eq!(network_metadata(Some(55), SecurityKind::Open, "5 GHz"), "\u{2582}\u{2584}\u{2586}  Open  5 GHz");
}

#[test]
fn default_status_follows_the_snapshot() {
    let mut s = state();
    let m = s.default_status();
    assert_eq!(m.tone, MessageTone::Error);
    assert_eq!(m.title, "NetworkManager unavailable");
    s.snapshot = online_snapshot();
    assert_eq!(s.default_status().title, "Not connected");
    s.snapshot.radio_enabled = false;
    assert_eq!(s.default_status().title, "Wi-Fi radio is turned off");
    s.snapshot.rfkill_blocked = true;
    assert_eq!(s.default_status().title, "Wi-Fi blocked by hardware switch");
    s.snapshot.wifi_available = false;
    assert_eq!(s.default_status().title, "No Wi-Fi adapter");
    s.snapshot.current_connection = Some(CurrentConnection {
        device_id: "wlan0".into(),
        ssid: "home".into(),
        signal: Some(90),
        security: SecurityKind::WpaPsk,
        band_summary: "5 GHz".into(),
    });
    let m = s.default_status();
    assert_eq!(m.tone, MessageTone::Info);
    assert_eq!(m.title, "Connected to home");
    assert_eq!(m.detail.as_deref(), Some("\u{2588}\u{2586}\u{2588}  WPA Personal  5 GHz"));
}

#[test]
fn events_update_the_status() {
    let mut s = state();
    s.apply_event(WifiEvent::OperationStarted("Refreshing nearby networks".into()), 10);
    assert!(s.refreshing_networks);
    assert!(s.inline_message.is_none());
    assert_eq!(s.network_list_placeholder(), Some(("Scanning...", "Scanning for access points.")));
    s.apply_event(WifiEvent::OperationFinished("Wi-Fi list updated".into()), 20);
    assert!(!s.refreshing_networks);
    assert!(s.pending_operation.is_none());
    s.apply_event(WifiEvent::OperationStarted("Connecting to home".into()), 30);
    let m = s.inline_message.clone().unwrap();
    assert_eq!(m.tone, MessageTone::Info);
    assert_eq!(m.detail.as_deref(), Some("Waiting for NetworkManager."));
    assert_eq!(s.last_message_at, Some(30));
    let mut snap = online_snapshot();
    snap.transient_error = Some("bad password".into());
    s.apply_event(WifiEvent::SnapshotUpdated(Box::new(snap.clone())), 40);
    assert_eq!(s.inline_message.as_ref().unwrap().title, "Connecting to home");
    assert_eq!(s.last_snapshot_at, Some(40));
    s.apply_event(WifiEvent::ErrorRaised("bad password".into()), 50);
    assert_eq!(s.inline_message.as_ref().unwrap().tone, MessageTone::Error);
    assert!(s.pending_operation.is_none());
    s.dismiss_message();
    s.apply_event(WifiEvent::SnapshotUpdated(Box::new(snap)), 60);
    assert_eq!(s.inline_message.as_ref().unwrap().title, "bad password");
}

#[test]
fn informational_messages_expire_after_five_seconds() {
    let mut s = state();
    s.apply_event(WifiEvent::OperationFinished("Disconnected".into()), 1_000);
    s.expire_message(1_000 + MESSAGE_LIFETIME_NANOS);
    assert!(s.inline_message.is_some());
    s.expire_message(1_001 + MESSAGE_LIFETIME_NANOS);
    assert!(s.inline_message.is_none());
    s.apply_event(WifiEvent::ErrorRaised("oops".into()), 1_000);
    s.expire_message(u64::MAX);
    assert!(s.inline_message.is_some());
}

#[test]
fn connecting_from_the_list() {
    let mut s = state();
    assert!(s.begin_network_connect(&net("cur", SecurityKind::Open, false, true), 1).is_none());
    assert!(s.inline_message.is_none());
    assert!(s.begin_network_connect(&net("corp", SecurityKind::Enterprise, false, false), 1).is_none());
    assert_eq!(s.inline_message.as_ref().unwrap().title, "Enterprise Wi-Fi is not supported in this version.");
    assert!(s.begin_network_connect(&net("new", SecurityKind::WpaPsk, false, false), 1).is_none());
    assert_eq!(s.connect_dialog.as_ref().unwrap().network.ssid, "new");
    match s.begin_network_connect(&net("home", SecurityKind::WpaPsk, true, false), 1) {
        Some(WifiCommand::Connect(r)) => {
            assert_eq!(r.ssid, "home");
            assert_eq!(r.device_id, "wlan0");
            assert!(!r.hidden);
            assert!(r.passphrase.is_none());
        }
        _ => panic!("expected a connect command"),
    }
    assert_eq!(s.last_connect_attempt.as_ref().unwrap().ssid, "home");
}

#[test]
fn password_dialog_confirms_only_an_acceptable_passphrase() {
    let mut s = state();
    s.begin_network_connect(&net("new", SecurityKind::WpaPsk, false, false), 1);
    // First frame: the user types a short passphrase and clicks Connect.
    let mut edited = s.connect_dialog.clone().unwrap();
    edited.passphrase = "short".into();
    assert!(s.connect_dialog_frame(edited, true, false).is_none());
    assert_eq!(s.connect_dialog.as_ref().unwrap().passphrase, "short");
    // Next frame: still short when the frame began, so Connect does nothing.
    let mut edited = s.connect_dialog.clone().unwrap();
    edited.passphrase = "correct horse".into();
    assert!(s.connect_dialog_frame(edited, true, false).is_none());
    // Now the dialog as it stood is acceptable.
    let edited = s.connect_dialog.clone().unwrap();
    match s.connect_dialog_frame(edited, true, false) {
        Some(WifiCommand::Connect(r)) => {
            assert_eq!(r.ssid, "new");
            assert!(!r.hidden);
            assert_eq!(r.passphrase.as_deref(), Some("correct horse"));
        }
        _ => panic!("expected a connect command"),
    }
    assert!(s.connect_dialog.is_none());
    assert_eq!(s.last_connect_attempt.as_ref().unwrap().ssid, "new");
    match s.retry() {
        None => {}
        Some(_) => panic!("no message to retry"),
    }
    s.set_error("failed".into(), 5);
    assert!(matches!(s.retry(), Some(WifiCommand::Connect(_))));
}

#[test]
fn password_dialog_sends_the_passphrase_as_edited_in_the_frame() {
    let mut s = state();
    s.begin_network_connect(&net("new", SecurityKind::WpaPsk, false, false), 1);
    s.connect_dialog.as_mut().unwrap().passphrase = "correct horse".into();
    let mut edited = s.connect_dialog.clone().unwrap();
    edited.passphrase = "correct horse battery".into();
    match s.connect_dialog_frame(edited, true, false) {
        Some(WifiCommand::Connect(r)) => assert_eq!(r.passphrase.as_deref(), Some("correct horse battery")),
        _ => panic!("expected a connect command"),
    }
}

#[test]
fn password_dialog_cancel_and_idle_frames() {
    let mut s = state();
    s.begin_network_connect(&net("new", SecurityKind::WpaPsk, false, false), 1);
    let mut edited = s.connect_dialog.clone().unwrap();
    edited.reveal_password = true;
    assert!(s.connect_dialog_frame(edited, false, false).is_none());
    assert!(s.connect_dialog.as_ref().unwrap().reveal_password);
    let edited = s.connect_dialog.clone().unwrap();
    assert!(s.connect_dialog_frame(edited, false, true).is_none());
    assert!(s.connect_dialog.is_none());
    assert!(s.last_connect_attempt.is_none());
}

#[test]
fn hidden_dialog_submission() {
    let mut s = state();
    s.open_hidden_dialog(1);
    assert!(s.hidden_dialog.is_none());
    assert_eq!(
        s.inline_message.as_ref().unwrap().title,
        "No managed Wi-Fi adapter is available for joining a hidden network."
    );
    s.snapshot = online_snapshot();
    s.open_hidden_dialog(1);
    assert_eq!(s.hidden_dialog.as_ref().unwrap().security, SecurityKind::WpaPsk);
    let mut edited = s.hidden_dialog.clone().unwrap();
    edited.ssid = "  lab net  ".into();
    edited.security = SecurityKind::Open;
    edited.passphrase = "unused".into();
    // The empty form that the frame began with cannot be submitted.
    assert!(s.hidden_dialog_frame(edited, true, false, 2).is_none());
    let edited = s.hidden_dialog.clone().unwrap();
    match s.hidden_dialog_frame(edited, true, false, 2) {
        Some(WifiCommand::Connect(r)) => {
            assert_eq!(r.ssid, "lab net");
            assert!(r.hidden);
            assert_eq!(r.device_id, "/dev/wlan0");
            assert!(r.passphrase.is_none());
        }
        _ => panic!("expected a connect command"),
    }
    assert!(s.hidden_dialog.is_none());
}

#[test]
fn hidden_dialog_sends_the_fields_edited_after_the_check() {
    let mut s = state();
    s.snapshot = online_snapshot();
    s.open_hidden_dialog(1);
    let d = s.hidden_dialog.as_mut().unwrap();
    d.ssid = "lab".into();
    d.passphrase = "correct horse".into();
    assert!(hidden_form_valid(s.hidden_dialog.as_ref().unwrap()));
    let mut edited = s.hidden_dialog.clone().unwrap();
    edited.passphrase = "short".into();
    match s.hidden_dialog_frame(edited, true, false, 2) {
        Some(WifiCommand::Connect(r)) => {
            assert_eq!(r.ssid, "lab");
            assert_eq!(r.security, SecurityKind::WpaPsk);
            assert_eq!(r.passphrase.as_deref(), Some("short"));
        }
        _ => panic!("expected a connect command"),
    }
    assert!(s.hidden_dialog.is_none());
}

#[test]
fn hidden_dialog_cancel_drops_it() {
    let mut s = state();
    s.snapshot = online_snapshot();
    s.open_hidden_dialog(1);
    let edited = s.hidden_dialog.clone().unwrap();
    assert!(s.hidden_dialog_frame(edited, false, true, 2).is_none());
    assert!(s.hidden_dialog.is_none());
}

#[test]
fn hidden_dialog_without_device_reports_an_error() {
    let mut s = state();
    let d = HiddenDialogState {
        ssid: "x".into(),
        security: SecurityKind::Open,
        passphrase: String::new(),
        reveal_password: false,
    };
    s.hidden_dialog = Some(d.clone());
    assert!(s.hidden_dialog_frame(d, true, false, 3).is_none());
    assert!(s.hidden_dialog.is_none());
    assert_eq!(
        s.inline_message.as_ref().unwrap().title,
        "No managed Wi-Fi adapter is available for hidden network joins."
    );
}

#[test]
fn forgetting_and_details() {
    let mut s = state();
    s.open_forget_dialog(&net("x", SecurityKind::Open, false, false));
    assert!(s.forget_dialog.is_none());
    s.open_details_dialog(&net("home", SecurityKind::WpaPsk, true, false));
    assert!(s.details_clicked(DetailsClick::Forget, 1).is_none());
    assert!(s.details_dialog.is_none());
    match s.confirm_forget() {
        Some(WifiCommand::Forget(ssid)) => assert_eq!(ssid, "home"),
        _ => panic!("expected a forget command"),
    }
    assert!(s.forget_dialog.is_none());
    s.open_details_dialog(&net("home", SecurityKind::WpaPsk, true, true));
    assert!(matches!(s.details_clicked(DetailsClick::Disconnect, 1), Some(WifiCommand::Disconnect)));
    assert!(s.details_clicked(DetailsClick::Close, 1).is_none());
}

#[test]
fn details_follow_new_snapshots() {
    let mut s = state();
    let mut old = net("home", SecurityKind::WpaPsk, false, false);
    old.signal = Some(1);
    s.open_details_dialog(&old);
    s.apply_event(WifiEvent::SnapshotUpdated(Box::new(online_snapshot())), 1);
    let d = s.details_dialog.as_ref().unwrap();
    assert_eq!(d.network.signal, Some(55));
    assert!(d.network.known);
    s.open_details_dialog(&net("gone", SecurityKind::Open, false, true));
    s.sync_details_dialog();
    assert!(!s.details_dialog.as_ref().unwrap().network.in_use);
}

#[test]
fn tray_requests_and_theme() {
    let mut s = state();
    assert!(s.apply_tray_signal(TraySignal::ShowWindow));
    assert!(!s.quit_requested);
    assert!(!s.apply_tray_signal(TraySignal::QuitApp));
    assert!(s.quit_requested);
    s.toggle_theme();
    assert_eq!(s.theme_choice.base, BaseMode::Light);
    assert!(!s.shows_disconnect());
}

#[test]
fn list_placeholders() {
    let mut s = state();
    assert_eq!(s.network_list_placeholder().unwrap().0, "Wi-Fi is unavailable");
    s.snapshot = online_snapshot();
    assert_eq!(s.network_list_placeholder(), None);
    s.snapshot.radio_enabled = false;
    assert_eq!(s.network_list_placeholder().unwrap().0, "Nearby networks are unavailable");
    s.snapshot.radio_enabled = true;
    s.snapshot.visible_networks.clear();
    assert_eq!(s.network_list_placeholder().unwrap().0, "No nearby networks found");
}

#[test]
fn dialog_texts() {
    assert_eq!(connect_dialog_title("cafe"), "Connect to cafe");
    let (title, detail) = forget_dialog_text(&ForgetDialogState { ssid: "home".into(), in_use: true });
    assert_eq!(title, "Forget home?");
    assert_eq!(detail, "This will disconnect the current network and remove its saved profile.");
    let (_, detail) = forget_dialog_text(&ForgetDialogState { ssid: "home".into(), in_use: false });
    assert_eq!(detail, "This will remove the saved profile and password for this network.");
    assert_eq!(support_label(&net("a", SecurityKind::Enterprise, false, false)), "Unsupported in this version");
    assert_eq!(support_label(&net("a", SecurityKind::Open, false, false)), "Supported");
    assert_eq!(last_scanned_text(None, 5), "Just now");
    assert_eq!(last_scanned_text(Some(1_000_000_000), 8_000_000_000), "7s ago");
    assert_eq!(last_scanned_text(Some(9), 1), "Just now");
    assert_eq!(notice_kind_for(MessageTone::Error), NoticeKind::Error);
    assert_eq!(notice_kind_for(MessageTone::Info), NoticeKind::Info);
}
