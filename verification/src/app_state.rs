//! The window's state and the decisions behind it: what the status area says,
//! which dialogs are open, which command a click sends, and how events from
//! the worker change what is shown. Drawing is left to the caller.
use vstd::prelude::*;

use crate::components::{AppActionKind, BadgeKind, NetworkRowState};
use crate::model::{
    AccessPointGroup, AppSnapshot, ConnectRequest, SecurityKind, WifiCommand, WifiEvent, duplicate_request, duplicate_text, kind_supported, passphrase_required, security_label,
    signal_bars, signal_bars_text, signal_level,
};
use crate::text::{chars_of, decimal, push_decimal, push_str, strip_prefix_chars, string_from_chars, trim_chars, trimmed, has_prefix, same_text};
use crate::theme::{LayoutClass, ThemeChoice, flipped};
use crate::tray::TraySignal;

verus! {

/// A passphrase the form accepts: any, where none is needed, else 8 to 63
/// characters (the WPA limits).
pub open spec fn passphrase_ok(security: SecurityKind, passphrase: Seq<char>) -> bool {
    !passphrase_required(security) || (8 <= passphrase.len() && passphrase.len() <= 63)
}

/// Whether a passphrase is acceptable for the given security: always for open or
/// unsupported kinds, and 8 to 63 characters for passphrase-based ones.
pub fn passphrase_valid(security: SecurityKind, passphrase: &str) -> (r: bool)
    ensures
        r == passphrase_ok(security, passphrase@),
{
    if !security.requires_passphrase() {
        return true;
    }
    let length = chars_of(passphrase).len();
    8 <= length && length <= 63
}

/// The state of the dialog for joining a hidden network.
#[derive(Debug, Clone)]
pub struct HiddenDialogState {
    pub ssid: String,
    pub security: SecurityKind,
    pub passphrase: String,
    pub reveal_password: bool,
}

/// The hidden-network form can be sent: it names a network (not only white
/// space) and its passphrase is acceptable.
pub open spec fn hidden_form_ok(dialog: HiddenDialogState) -> bool {
    trimmed(dialog.ssid@).len() > 0 && passphrase_ok(dialog.security, dialog.passphrase@)
}

/// Whether the hidden-network form can be submitted: a non-blank SSID and an
/// acceptable passphrase for the chosen security.
pub fn hidden_form_valid(dialog: &HiddenDialogState) -> (r: bool)
    ensures
        r == hidden_form_ok(*dialog),
{
    let ssid = chars_of(dialog.ssid.as_str());
    let t = trim_chars(&ssid);
    t.len() > 0 && passphrase_valid(dialog.security, dialog.passphrase.as_str())
}

/// How the details dialog describes a network's state.
pub open spec fn status_text(network: AccessPointGroup) -> Seq<char> {
    if network.in_use {
        "Connected"@
    } else if network.known {
        "Saved"@
    } else {
        "Available"@
    }
}

/// The status word shown on a network row: connected, saved, or available.
pub fn status_label(network: &AccessPointGroup) -> (r: &'static str)
    ensures
        r@ == status_text(*network),
{
    if network.in_use {
        "Connected"
    } else if network.known {
        "Saved"
    } else {
        "Available"
    }
}

/// A signal strength as bars and percentage, or "Unknown".
pub open spec fn signal_description(signal: Option<u8>) -> Seq<char> {
    match signal {
        Some(strength) => signal_bars_text(signal) + "  "@ + decimal(strength as nat) + "%"@,
        None => "Unknown"@,
    }
}

/// The signal bars followed by the percentage, or `Unknown` when no strength is known.
pub fn describe_signal(signal: Option<u8>) -> (r: String)
    ensures
        r@ == signal_description(signal),
{
    match signal {
        Some(strength) => {
            let mut s = signal_bars(Some(strength)).to_owned();
            push_str(&mut s, "  ");
            push_decimal(&mut s, strength as u64);
            push_str(&mut s, "%");
            s
        },
        None => "Unknown".to_owned(),
    }
}

/// How long ago something happened, from the number of seconds: "Just now"
/// under five seconds, then whole seconds, minutes or hours.
pub open spec fn elapsed_text(seconds: u64) -> Seq<char> {
    if seconds <= 4 {
        "Just now"@
    } else if seconds <= 59 {
        decimal(seconds as nat) + "s ago"@
    } else if seconds <= 3599 {
        decimal((seconds / 60) as nat) + "m ago"@
    } else {
        decimal((seconds / 3600) as nat) + "h ago"@
    }
}

/// How long ago a scan happened, in words, from a number of seconds.
pub fn format_elapsed(seconds: u64) -> (r: String)
    ensures
        r@ == elapsed_text(seconds),
{
    if seconds <= 4 {
        "Just now".to_owned()
    } else if seconds <= 59 {
        let mut s = String::new();
        push_decimal(&mut s, seconds);
        push_str(&mut s, "s ago");
        s
    } else if seconds <= 3599 {
        let mut s = String::new();
        push_decimal(&mut s, seconds / 60);
        push_str(&mut s, "m ago");
        s
    } else {
        let mut s = String::new();
        push_decimal(&mut s, seconds / 3600);
        push_str(&mut s, "h ago");
        s
    }
}

/// A word for a signal strength, in the same steps of 20 % as the bars.
pub open spec fn quality_text(signal: Option<u8>) -> Seq<char> {
    let level = signal_level(signal);
    if level <= 20 {
        "Weak"@
    } else if level <= 40 {
        "Fair"@
    } else if level <= 60 {
        "Good"@
    } else if level <= 80 {
        "Very good"@
    } else {
        "Excellent"@
    }
}

/// The quality word for a signal strength, from `Weak` to `Excellent`.
pub fn signal_quality_label(signal: Option<u8>) -> (r: &'static str)
    ensures
        r@ == quality_text(signal),
{
    let level: u8 = match signal {
        Some(s) => s,
        None => 0,
    };
    if level <= 20 {
        "Weak"
    } else if level <= 40 {
        "Fair"
    } else if level <= 60 {
        "Good"
    } else if level <= 80 {
        "Very good"
    } else {
        "Excellent"
    }
}

/// Whether the network has a saved profile, as shown in the details dialog.
pub fn saved_profile_label(network: &AccessPointGroup) -> (r: &'static str)
    ensures
        r@ == (if network.known { "Saved"@ } else { "Not saved"@ }),
{
    if network.known {
        "Saved"
    } else {
        "Not saved"
    }
}

/// The main action offered for a network in the list.
pub open spec fn network_action(network: AccessPointGroup) -> AppActionKind {
    if network.in_use {
        AppActionKind::Connected
    } else if !kind_supported(network.security) {
        AppActionKind::Unsupported
    } else if network.known {
        AppActionKind::Reconnect
    } else if passphrase_required(network.security) {
        AppActionKind::EnterPassword
    } else {
        AppActionKind::Connect
    }
}

/// The action offered on a network row.
pub fn action_for_network(network: &AccessPointGroup) -> (r: AppActionKind)
    ensures
        r == network_action(*network),
{
    if network.in_use {
        AppActionKind::Connected
    } else if !network.security.is_supported() {
        AppActionKind::Unsupported
    } else if network.known {
        AppActionKind::Reconnect
    } else if network.security.requires_passphrase() {
        AppActionKind::EnterPassword
    } else {
        AppActionKind::Connect
    }
}

/// The main action of the details dialog: disconnect from the network in use,
/// nothing for an unsupported network, else the list's action.
pub open spec fn details_action_for(network: AccessPointGroup) -> Option<AppActionKind> {
    if network.in_use {
        Some(AppActionKind::Disconnect)
    } else if !kind_supported(network.security) {
        None
    } else {
        Some(network_action(network))
    }
}

/// The main action of the details dialog, if the network offers one.
pub fn details_primary_action(network: &AccessPointGroup) -> (r: Option<AppActionKind>)
    ensures
        r == details_action_for(*network),
{
    if network.in_use {
        Some(AppActionKind::Disconnect)
    } else if !network.security.is_supported() {
        None
    } else {
        Some(action_for_network(network))
    }
}

/// The progress message of a rescan.
pub fn is_refresh_operation(message: &str) -> (r: bool)
    ensures
        r == (message@ == "Refreshing nearby networks"@),
{
    same_text(message, "Refreshing nearby networks")
}

/// The completion message of a rescan.
pub fn is_refresh_finished(message: &str) -> (r: bool)
    ensures
        r == (message@ == "Wi-Fi list updated"@),
{
    same_text(message, "Wi-Fi list updated")
}

/// How the status area splits a title: "Connected to X" and "Connecting to X"
/// become the phrase and the emphasised SSID; any other title stays whole.
pub open spec fn status_title_split(title: Seq<char>) -> (Seq<char>, Option<Seq<char>>) {
    if has_prefix(title, "Connected to "@) {
        ("Connected to"@, Some(title.skip("Connected to "@.len() as int)))
    } else if has_prefix(title, "Connecting to "@) {
        ("Connecting to"@, Some(title.skip("Connecting to "@.len() as int)))
    } else {
        (title, None)
    }
}

/// Splits a status title of the form `Connected to <ssid>` into its heading and SSID.
pub fn split_status_title(title: &str) -> (r: (String, Option<String>))
    ensures
        (r.0@, match r.1 { Some(s) => Some(s@), None => None::<Seq<char>> }) == status_title_split(title@),
{
    let chars = chars_of(title);
    match strip_prefix_chars(&chars, "Connected to ") {
        Some(ssid) => ("Connected to".to_owned(), Some(string_from_chars(&ssid))),
        None => match strip_prefix_chars(&chars, "Connecting to ") {
            Some(ssid) => ("Connecting to".to_owned(), Some(string_from_chars(&ssid))),
            None => (title.to_owned(), None),
        },
    }
}

/// How a list row is laid out.
#[derive(Debug, Clone, Copy, PartialEq, Eq)]
pub struct NetworkRowMode {
    pub show_badges: bool,
    pub action_below: bool,
    pub action: AppActionKind,
}

/// Badges are shown in the standard layout, in the narrow one when
/// `badges_fit` (the row is at least 420 points wide), never in the compact
/// one; the action stays beside the text.
pub fn network_row_mode_for(layout: LayoutClass, badges_fit: bool, network: &AccessPointGroup) -> (r: NetworkRowMode)
    ensures
        r.show_badges == (match layout {
            LayoutClass::Standard => true,
            LayoutClass::Narrow => badges_fit,
            LayoutClass::Compact => false,
        }),
        !r.action_below,
        r.action == network_action(*network),
{
    let action = action_for_network(network);
    match layout {
        LayoutClass::Standard => NetworkRowMode { show_badges: true, action_below: false, action },
        LayoutClass::Narrow => NetworkRowMode { show_badges: badges_fit, action_below: false, action },
        LayoutClass::Compact => NetworkRowMode { show_badges: false, action_below: false, action },
    }
}

/// A row is highlighted when in use and marked when unsupported.
pub fn network_row_state_for(network: &AccessPointGroup) -> (r: NetworkRowState)
    ensures
        r == (if network.in_use {
            NetworkRowState::InUse
        } else if !kind_supported(network.security) {
            NetworkRowState::Unsupported
        } else {
            NetworkRowState::Default
        }),
{
    if network.in_use {
        NetworkRowState::InUse
    } else if !network.security.is_supported() {
        NetworkRowState::Unsupported
    } else {
        NetworkRowState::Default
    }
}

/// The badges of a network: saved, in use, unsupported, in that order.
pub open spec fn badges_of(network: AccessPointGroup) -> Seq<(BadgeKind, Seq<char>)> {
    let a = if network.known { seq![(BadgeKind::Neutral, "SAVED"@)] } else { Seq::empty() };
    let b = if network.in_use { seq![(BadgeKind::Active, "IN USE"@)] } else { Seq::empty() };
    let c = if !kind_supported(network.security) { seq![(BadgeKind::Warning, "UNSUPPORTED"@)] } else { Seq::empty() };
    a + b + c
}

/// The badges shown beside a network's name, in display order.
pub fn network_badges(network: &AccessPointGroup) -> (r: Vec<(BadgeKind, &'static str)>)
    ensures
        r@.map_values(|p: (BadgeKind, &'static str)| (p.0, p.1@)) == badges_of(*network),
{
    let mut r: Vec<(BadgeKind, &'static str)> = Vec::new();
    if network.known {
        r.push((BadgeKind::Neutral, "SAVED"));
    }
    if network.in_use {
        r.push((BadgeKind::Active, "IN USE"));
    }
    if !network.security.is_supported() {
        r.push((BadgeKind::Warning, "UNSUPPORTED"));
    }
    assert(r@.map_values(|p: (BadgeKind, &'static str)| (p.0, p.1@)) =~= badges_of(*network));
    r
}

/// The one-line summary of a network: bars, security and band, two spaces apart.
pub open spec fn metadata_text(signal: Option<u8>, security: SecurityKind, band: Seq<char>) -> Seq<char> {
    signal_bars_text(signal) + "  "@ + security_label(security) + "  "@ + band
}

/// The metadata line of a network row: bars, security label and band summary.
pub fn network_metadata(signal: Option<u8>, security: SecurityKind, band_summary: &str) -> (r: String)
    ensures
        r@ == metadata_text(signal, security, band_summary@),
{
    let mut s = signal_bars(signal).to_owned();
    push_str(&mut s, "  ");
    push_str(&mut s, security.label());
    push_str(&mut s, "  ");
    push_str(&mut s, band_summary);
    s
}


/// The tone of the status area.
#[derive(Debug, Clone, Copy, PartialEq, Eq, Structural)]
pub enum MessageTone {
    Info,
    Error,
}

/// A message in the status area, with the request a "Retry" button would send.
#[derive(Debug, Clone)]
pub struct InlineMessage {
    pub tone: MessageTone,
    pub title: String,
    pub detail: Option<String>,
    pub retry: Option<ConnectRequest>,
}

/// The dialog asking for a network's password.
#[derive(Debug, Clone)]
pub struct ConnectDialogState {
    pub network: AccessPointGroup,
    pub passphrase: String,
    pub reveal_password: bool,
}

/// The dialog confirming that a saved network is to be forgotten.
#[derive(Debug, Clone)]
pub struct ForgetDialogState {
    pub ssid: String,
    pub in_use: bool,
}

/// The dialog showing a network's details.
#[derive(Debug, Clone)]
pub struct NetworkDetailsState {
    pub network: AccessPointGroup,
}

/// How long an informational message stays once nothing is in progress, in
/// nanoseconds.
pub const MESSAGE_LIFETIME_NANOS: u64 = 5_000_000_000;

/// What the window knows and shows, apart from drawing. Times are nanoseconds
/// on a monotonic clock that the caller reads.
pub struct AppState {
    pub snapshot: AppSnapshot,
    pub pending_operation: Option<String>,
    pub refreshing_networks: bool,
    pub last_snapshot_at: Option<u64>,
    pub last_message_at: Option<u64>,
    pub inline_message: Option<InlineMessage>,
    pub connect_dialog: Option<ConnectDialogState>,
    pub hidden_dialog: Option<HiddenDialogState>,
    pub forget_dialog: Option<ForgetDialogState>,
    pub details_dialog: Option<NetworkDetailsState>,
    pub last_connect_attempt: Option<ConnectRequest>,
    pub quit_requested: bool,
    pub theme_choice: ThemeChoice,
}

/// `m` is a message with this tone, title, detail and retry request.
pub open spec fn message_is(
    m: Option<InlineMessage>,
    tone: MessageTone,
    title: Seq<char>,
    detail: Option<Seq<char>>,
    retry: Option<ConnectRequest>,
) -> bool {
    &&& m is Some
    &&& m->0.tone == tone
    &&& m->0.title@ == title
    &&& match detail {
        Some(d) => m->0.detail matches Some(t) && t@ == d,
        None => m->0.detail is None,
    }
    &&& m->0.retry == retry
}

/// The first index of a network named `ssid` in `s`.
pub open spec fn first_named(s: Seq<AccessPointGroup>, ssid: Seq<char>, i: int) -> bool {
    &&& 0 <= i < s.len()
    &&& s[i].ssid@ == ssid
    &&& forall|j: int| 0 <= j < i ==> (#[trigger] s[j]).ssid@ != ssid
}

/// The details dialog after a new snapshot: it follows the first listed
/// network of the same name, or, when the name is no longer listed, keeps the
/// network and only updates whether it is the connected one.
pub open spec fn details_synced(before: Option<NetworkDetailsState>, after: Option<NetworkDetailsState>, s: AppSnapshot) -> bool {
    match before {
        None => after is None,
        Some(d) => after matches Some(a) && if exists|i: int| first_named(s.visible_networks@, d.network.ssid@, i) {
            exists|i: int| first_named(s.visible_networks@, d.network.ssid@, i) && a.network == s.visible_networks@[i]
        } else {
            a.network == AccessPointGroup {
                in_use: s.current_connection matches Some(c) && c.ssid@ == d.network.ssid@,
                ..d.network
            }
        },
    }
}

/// The status shown when no message is pending: the connection if there is
/// one, else the first thing that keeps Wi-Fi from working, else "Not
/// connected".
pub open spec fn default_status_is(m: InlineMessage, s: AppSnapshot) -> bool {
    let o = Some(m);
    match s.current_connection {
        Some(c) => message_is(o, MessageTone::Info, "Connected to "@ + c.ssid@,
            Some(metadata_text(c.signal, c.security, c.band_summary@)), None),
        None => if !s.manager_running {
            message_is(o, MessageTone::Error, "NetworkManager unavailable"@, Some("Start NetworkManager and reopen the app."@), None)
        } else if !s.wifi_available {
            message_is(o, MessageTone::Error, "No Wi-Fi adapter"@, Some("No managed wireless interface was reported."@), None)
        } else if s.rfkill_blocked {
            message_is(o, MessageTone::Error, "Wi-Fi blocked by hardware switch"@,
                Some("Use the hardware radio key or rfkill to unblock wireless."@), None)
        } else if !s.radio_enabled {
            message_is(o, MessageTone::Error, "Wi-Fi radio is turned off"@,
                Some("Turn Wi-Fi back on from your system network controls."@), None)
        } else {
            message_is(o, MessageTone::Info, "Not connected"@, Some("Choose a nearby network or join a hidden one."@), None)
        },
    }
}

/// The placeholder shown instead of the network list, if any: while scanning,
/// without a usable adapter, with the radio off or blocked, or when nothing
/// was found.
pub open spec fn placeholder_for(refreshing: bool, s: AppSnapshot) -> Option<(Seq<char>, Seq<char>)> {
    if refreshing {
        Some(("Scanning..."@, "Scanning for access points."@))
    } else if !s.manager_running || !s.wifi_available {
        Some(("Wi-Fi is unavailable"@, "Nearby networks appear here when NetworkManager sees a managed adapter."@))
    } else if s.rfkill_blocked || !s.radio_enabled {
        Some(("Nearby networks are unavailable"@, "The Wi-Fi radio is currently unavailable."@))
    } else if s.visible_networks@.len() == 0 {
        Some(("No nearby networks found"@, "Refresh the list or move closer to the access point."@))
    } else {
        None
    }
}

/// A click in the details dialog.
#[derive(Debug, Clone, Copy, PartialEq, Eq, Structural)]
pub enum DetailsClick {
    Close,
    Connect,
    Disconnect,
    Forget,
}

fn info_message(title: String, detail: Option<String>) -> (m: InlineMessage)
    ensures
        m.tone == MessageTone::Info,
        m.title == title,
        m.detail == detail,
        m.retry is None,
{
    InlineMessage { tone: MessageTone::Info, title, detail, retry: None }
}

fn error_message(title: String, detail: Option<String>) -> (m: InlineMessage)
    ensures
        m.tone == MessageTone::Error,
        m.title == title,
        m.detail == detail,
        m.retry is None,
{
    InlineMessage { tone: MessageTone::Error, title, detail, retry: None }
}

/// What a click on a network's connect button does, from the state `pre` to
/// the state `post` with the command `c`.
pub open spec fn begins_connect(pre: AppState, network: AccessPointGroup, now: u64, post: AppState, c: Option<WifiCommand>) -> bool {
    if network.in_use {
        c is None && post == pre
    } else if !kind_supported(network.security) {
        &&& c is None
        &&& post == (AppState { inline_message: post.inline_message, last_message_at: Some(now), ..pre })
        &&& message_is(post.inline_message, MessageTone::Error,
            "Enterprise Wi-Fi is not supported in this version."@, None, pre.last_connect_attempt)
    } else if passphrase_required(network.security) && !network.known {
        &&& c is None
        &&& post == (AppState { connect_dialog: post.connect_dialog, ..pre })
        &&& post.connect_dialog matches Some(d) && d.network == network && d.passphrase@.len() == 0 && !d.reveal_password
    } else {
        &&& c matches Some(WifiCommand::Connect(r)) && r.device_id == network.device_id && r.ssid == network.ssid
            && !r.hidden && r.security == network.security && r.passphrase is None
            && post == (AppState { last_connect_attempt: Some(r), ..pre })
    }
}

/// The state once the message timer is checked at `now`: an informational
/// message shown for more than five seconds with nothing in progress is
/// cleared; anything else stays.
pub open spec fn after_expiry(pre: AppState, now: u64) -> AppState {
    let expired = pre.pending_operation is None && (pre.last_message_at matches Some(t)
        && now >= t && now - t > MESSAGE_LIFETIME_NANOS)
        && !(pre.inline_message matches Some(m) && m.tone == MessageTone::Error);
    if expired {
        AppState { inline_message: None, ..pre }
    } else {
        pre
    }
}

impl AppState {
    /// The state of a window that has not heard from the worker yet.
    pub fn new(theme_choice: ThemeChoice) -> (s: Self)
        ensures
            s.snapshot.is_blank(),
            s.pending_operation is None,
            !s.refreshing_networks,
            s.last_snapshot_at is None,
            s.last_message_at is None,
            s.inline_message is None,
            s.connect_dialog is None,
            s.hidden_dialog is None,
            s.forget_dialog is None,
            s.details_dialog is None,
            s.last_connect_attempt is None,
            !s.quit_requested,
            s.theme_choice == theme_choice,
    {
        AppState {
            snapshot: AppSnapshot::default(),
            pending_operation: None,
            refreshing_networks: false,
            last_snapshot_at: None,
            last_message_at: None,
            inline_message: None,
            connect_dialog: None,
            hidden_dialog: None,
            forget_dialog: None,
            details_dialog: None,
            last_connect_attempt: None,
            quit_requested: false,
            theme_choice,
        }
    }

    /// Shows an error, offering to retry the last connection attempt.
    pub fn set_error(&mut self, text: String, now: u64)
        ensures
            message_is(final(self).inline_message, MessageTone::Error, text@, None, old(self).last_connect_attempt),
            *final(self) == (AppState {
                inline_message: final(self).inline_message,
                last_message_at: Some(now),
                ..*old(self)
            }),
    {
        self.inline_message = Some(InlineMessage {
            tone: MessageTone::Error,
            title: text,
            detail: None,
            retry: duplicate_request(&self.last_connect_attempt),
        });
        self.last_message_at = Some(now);
    }

    /// Remembers the request for a retry and returns the command that sends it.
    pub fn submit_connect(&mut self, request: ConnectRequest) -> (c: WifiCommand)
        ensures
            c == WifiCommand::Connect(request),
            *final(self) == (AppState { last_connect_attempt: Some(request), ..*old(self) }),
    {
        self.last_connect_attempt = Some(request.duplicate());
        WifiCommand::Connect(request)
    }

    /// A click on a network's connect button: nothing for the network in use,
    /// an error for an unsupported one, the password dialog for a secured
    /// network without a saved profile, else a connection request with the
    /// network's device, SSID and security and no passphrase.
    pub fn begin_network_connect(&mut self, network: &AccessPointGroup, now: u64) -> (c: Option<WifiCommand>)
        ensures
            begins_connect(*old(self), *network, now, *final(self), c),
    {
        if network.in_use {
            return None;
        }
        if !network.security.is_supported() {
            self.set_error("Enterprise Wi-Fi is not supported in this version.".to_owned(), now);
            return None;
        }
        if network.security.requires_passphrase() && !network.known {
            self.connect_dialog = Some(ConnectDialogState {
                network: network.duplicate(),
                passphrase: String::new(),
                reveal_password: false,
            });
            return None;
        }
        let request = ConnectRequest {
            device_id: network.device_id.clone(),
            ssid: network.ssid.clone(),
            hidden: false,
            security: network.security,
            passphrase: None,
        };
        Some(self.submit_connect(request))
    }

    /// Opens the hidden-network dialog (WPA Personal, empty fields), or shows
    /// an error when there is no Wi-Fi device to join with.
    pub fn open_hidden_dialog(&mut self, now: u64)
        ensures
            old(self).snapshot.primary_device_id is None ==> *final(self) == (AppState {
                inline_message: final(self).inline_message,
                last_message_at: Some(now),
                ..*old(self)
            }) && message_is(final(self).inline_message, MessageTone::Error,
                "No managed Wi-Fi adapter is available for joining a hidden network."@, None, old(self).last_connect_attempt),
            old(self).snapshot.primary_device_id is Some ==> (*final(self) == (AppState { hidden_dialog: final(self).hidden_dialog, ..*old(self) })
                && (final(self).hidden_dialog matches Some(d) && d.ssid@.len() == 0 && d.security == SecurityKind::WpaPsk
                && d.passphrase@.len() == 0 && !d.reveal_password)),
    {
        if self.snapshot.primary_device_id.is_none() {
            self.set_error("No managed Wi-Fi adapter is available for joining a hidden network.".to_owned(), now);
            return;
        }
        self.hidden_dialog = Some(HiddenDialogState {
            ssid: String::new(),
            security: SecurityKind::WpaPsk,
            passphrase: String::new(),
            reveal_password: false,
        });
    }

    /// Asks for confirmation before forgetting a saved network; does nothing
    /// for a network without a saved profile.
    pub fn open_forget_dialog(&mut self, network: &AccessPointGroup)
        ensures
            !network.known ==> *final(self) == *old(self),
            network.known ==> (*final(self) == (AppState { forget_dialog: final(self).forget_dialog, ..*old(self) })
                && (final(self).forget_dialog matches Some(d) && d.ssid == network.ssid && d.in_use == network.in_use)),
    {
        if !network.known {
            return;
        }
        self.forget_dialog = Some(ForgetDialogState { ssid: network.ssid.clone(), in_use: network.in_use });
    }

    /// Shows the details of a network.
    pub fn open_details_dialog(&mut self, network: &AccessPointGroup)
        ensures
            *final(self) == (AppState { details_dialog: Some(NetworkDetailsState { network: *network }), ..*old(self) }),
    {
        self.details_dialog = Some(NetworkDetailsState { network: network.duplicate() });
    }

    /// Brings the details dialog up to date with the current snapshot.
    pub fn sync_details_dialog(&mut self)
        ensures
            details_synced(old(self).details_dialog, final(self).details_dialog, old(self).snapshot),
            *final(self) == (AppState { details_dialog: final(self).details_dialog, ..*old(self) }),
    {
        let dialog = match &self.details_dialog {
            Some(d) => d.network.duplicate(),
            None => return,
        };
        let mut i: usize = 0;
        while i < self.snapshot.visible_networks.len()
            invariant
                *self == *old(self),
                old(self).details_dialog matches Some(d) && d.network == dialog,
                i <= self.snapshot.visible_networks@.len(),
                forall|j: int| 0 <= j < i ==> (#[trigger] self.snapshot.visible_networks@[j]).ssid@ != dialog.ssid@,
            decreases self.snapshot.visible_networks@.len() - i,
        {
            if self.snapshot.visible_networks[i].ssid == dialog.ssid {
                let found = self.snapshot.visible_networks[i].duplicate();
                proof {
                    assert(first_named(self.snapshot.visible_networks@, dialog.ssid@, i as int));
                }
                self.details_dialog = Some(NetworkDetailsState { network: found });
                return;
            }
            i = i + 1;
        }
        let in_use = match &self.snapshot.current_connection {
            Some(c) => c.ssid == dialog.ssid,
            None => false,
        };
        let mut network = dialog;
        network.in_use = in_use;
        proof {
            if exists|k: int| first_named(self.snapshot.visible_networks@, network.ssid@, k) {
                let k = choose|k: int| first_named(self.snapshot.visible_networks@, network.ssid@, k);
                assert(self.snapshot.visible_networks@[k].ssid@ != network.ssid@);
            }
        }
        self.details_dialog = Some(NetworkDetailsState { network });
    }

    /// Takes an event from the worker. A snapshot replaces the shown one,
    /// updates the details dialog and, when no operation is pending, shows the
    /// worker's last error; a started operation is shown as pending (a rescan
    /// only marks the list as scanning); a finished one clears the pending
    /// operation and is shown, except a finished rescan; an error clears the
    /// pending operation and the scan and is shown with a retry.
    pub fn apply_event(&mut self, event: WifiEvent, now: u64)
        ensures
            match event {
                WifiEvent::SnapshotUpdated(s) => {
                    &&& final(self).snapshot == *s
                    &&& final(self).last_snapshot_at == Some(now)
                    &&& details_synced(old(self).details_dialog, final(self).details_dialog, *s)
                    &&& if old(self).pending_operation is None && s.transient_error is Some {
                        message_is(final(self).inline_message, MessageTone::Error, s.transient_error->0@, None,
                            old(self).last_connect_attempt)
                    } else {
                        final(self).inline_message == old(self).inline_message
                    }
                    &&& *final(self) == (AppState {
                        snapshot: final(self).snapshot,
                        last_snapshot_at: final(self).last_snapshot_at,
                        details_dialog: final(self).details_dialog,
                        inline_message: final(self).inline_message,
                        ..*old(self)
                    })
                },
                WifiEvent::OperationStarted(m) => {
                    &&& final(self).pending_operation == Some(m)
                    &&& if m@ == "Refreshing nearby networks"@ {
                        *final(self) == (AppState {
                            pending_operation: Some(m),
                            refreshing_networks: true,
                            ..*old(self)
                        })
                    } else {
                        &&& message_is(final(self).inline_message, MessageTone::Info, m@, Some("Waiting for NetworkManager."@), None)
                        &&& *final(self) == (AppState {
                            pending_operation: Some(m),
                            last_message_at: Some(now),
                            inline_message: final(self).inline_message,
                            ..*old(self)
                        })
                    }
                },
                WifiEvent::OperationFinished(m) => {
                    if m@ == "Wi-Fi list updated"@ {
                        *final(self) == (AppState {
                            pending_operation: None,
                            refreshing_networks: false,
                            ..*old(self)
                        })
                    } else {
                        &&& message_is(final(self).inline_message, MessageTone::Info, m@, None, None)
                        &&& *final(self) == (AppState {
                            pending_operation: None,
                            last_message_at: Some(now),
                            inline_message: final(self).inline_message,
                            ..*old(self)
                        })
                    }
                },
                WifiEvent::ErrorRaised(m) => {
                    &&& message_is(final(self).inline_message, MessageTone::Error, m@, None, old(self).last_connect_attempt)
                    &&& *final(self) == (AppState {
                        pending_operation: None,
                        refreshing_networks: false,
                        last_message_at: Some(now),
                        inline_message: final(self).inline_message,
                        ..*old(self)
                    })
                },
            },
    {
        match event {
            WifiEvent::SnapshotUpdated(snapshot) => {
                self.snapshot = *snapshot;
                self.last_snapshot_at = Some(now);
                self.sync_details_dialog();
                if self.pending_operation.is_none() {
                    match &self.snapshot.transient_error {
                        Some(error) => {
                            let title = error.clone();
                            self.inline_message = Some(InlineMessage {
                                tone: MessageTone::Error,
                                title,
                                detail: None,
                                retry: duplicate_request(&self.last_connect_attempt),
                            });
                        },
                        None => {},
                    }
                }
            },
            WifiEvent::OperationStarted(message) => {
                let refresh = is_refresh_operation(message.as_str());
                self.pending_operation = Some(message.clone());
                if refresh {
                    self.refreshing_networks = true;
                } else {
                    self.last_message_at = Some(now);
                    self.inline_message = Some(info_message(message, Some("Waiting for NetworkManager.".to_owned())));
                }
            },
            WifiEvent::OperationFinished(message) => {
                self.pending_operation = None;
                if is_refresh_finished(message.as_str()) {
                    self.refreshing_networks = false;
                } else {
                    self.last_message_at = Some(now);
                    self.inline_message = Some(info_message(message, None));
                }
            },
            WifiEvent::ErrorRaised(message) => {
                self.pending_operation = None;
                self.refreshing_networks = false;
                self.last_message_at = Some(now);
                self.inline_message = Some(InlineMessage {
                    tone: MessageTone::Error,
                    title: message,
                    detail: None,
                    retry: duplicate_request(&self.last_connect_attempt),
                });
            },
        }
    }

    /// Takes a request from the tray: quitting is remembered; showing the
    /// window is left to the caller, and the result says whether to do it.
    pub fn apply_tray_signal(&mut self, signal: TraySignal) -> (show_window: bool)
        ensures
            show_window == (signal == TraySignal::ShowWindow),
            signal == TraySignal::ShowWindow ==> *final(self) == *old(self),
            signal == TraySignal::QuitApp ==> *final(self) == (AppState { quit_requested: true, ..*old(self) }),
    {
        match signal {
            TraySignal::ShowWindow => true,
            TraySignal::QuitApp => {
                self.quit_requested = true;
                false
            },
        }
    }

    /// Clears an informational message once it has been shown for more than
    /// five seconds with nothing in progress; errors stay until dismissed.
    pub fn expire_message(&mut self, now: u64)
        ensures
            *final(self) == after_expiry(*old(self), now),
    {
        if self.pending_operation.is_none() {
            match self.last_message_at {
                Some(t) => {
                    let is_error = match &self.inline_message {
                        Some(m) => m.tone == MessageTone::Error,
                        None => false,
                    };
                    if now >= t && now - t > MESSAGE_LIFETIME_NANOS && !is_error {
                        self.inline_message = None;
                    }
                },
                None => {},
            }
        }
    }

    /// The status shown when there is no message.
    pub fn default_status(&self) -> (m: InlineMessage)
        ensures
            default_status_is(m, self.snapshot),
    {
        match &self.snapshot.current_connection {
            Some(connection) => {
                let mut title = "Connected to ".to_owned();
                push_str(&mut title, connection.ssid.as_str());
                let detail = network_metadata(connection.signal, connection.security, connection.band_summary.as_str());
                info_message(title, Some(detail))
            },
            None => if !self.snapshot.manager_running {
                error_message("NetworkManager unavailable".to_owned(), Some("Start NetworkManager and reopen the app.".to_owned()))
            } else if !self.snapshot.wifi_available {
                error_message("No Wi-Fi adapter".to_owned(), Some("No managed wireless interface was reported.".to_owned()))
            } else if self.snapshot.rfkill_blocked {
                error_message("Wi-Fi blocked by hardware switch".to_owned(),
                    Some("Use the hardware radio key or rfkill to unblock wireless.".to_owned()))
            } else if !self.snapshot.radio_enabled {
                error_message("Wi-Fi radio is turned off".to_owned(),
                    Some("Turn Wi-Fi back on from your system network controls.".to_owned()))
            } else {
                info_message("Not connected".to_owned(), Some("Choose a nearby network or join a hidden one.".to_owned()))
            },
        }
    }

    /// The status area's content: the current message, else the default status.
    pub fn status_message(&self) -> (m: InlineMessage)
        ensures
            match self.inline_message {
                Some(i) => m == i,
                None => default_status_is(m, self.snapshot),
            },
    {
        match &self.inline_message {
            Some(m) => InlineMessage {
                tone: m.tone,
                title: m.title.clone(),
                detail: duplicate_text(&m.detail),
                retry: duplicate_request(&m.retry),
            },
            None => self.default_status(),
        }
    }

    /// The "Dismiss" button of an error.
    pub fn dismiss_message(&mut self)
        ensures
            *final(self) == (AppState { inline_message: None, ..*old(self) }),
    {
        self.inline_message = None;
    }

    /// The "Retry" button of an error: sends the request the message carries.
    pub fn retry(&mut self) -> (c: Option<WifiCommand>)
        ensures
            match old(self).inline_message {
                Some(m) if m.retry is Some => c == Some(WifiCommand::Connect(m.retry->0))
                    && *final(self) == (AppState { last_connect_attempt: m.retry, ..*old(self) }),
                _ => c is None && *final(self) == *old(self),
            },
    {
        let request = match &self.inline_message {
            Some(m) => duplicate_request(&m.retry),
            None => None,
        };
        match request {
            Some(r) => Some(self.submit_connect(r)),
            None => None,
        }
    }

    /// The top bar offers "Disconnect" while connected and no message is shown.
    pub fn shows_disconnect(&self) -> (r: bool)
        ensures
            r == (self.snapshot.current_connection is Some && self.inline_message is None),
    {
        self.snapshot.current_connection.is_some() && self.inline_message.is_none()
    }

    /// The placeholder shown instead of the network list, if any.
    pub fn network_list_placeholder(&self) -> (r: Option<(&'static str, &'static str)>)
        ensures
            match r {
                Some(p) => placeholder_for(self.refreshing_networks, self.snapshot) == Some((p.0@, p.1@)),
                None => placeholder_for(self.refreshing_networks, self.snapshot) is None,
            },
    {
        if self.refreshing_networks {
            Some(("Scanning...", "Scanning for access points."))
        } else if !self.snapshot.manager_running || !self.snapshot.wifi_available {
            Some(("Wi-Fi is unavailable", "Nearby networks appear here when NetworkManager sees a managed adapter."))
        } else if self.snapshot.rfkill_blocked || !self.snapshot.radio_enabled {
            Some(("Nearby networks are unavailable", "The Wi-Fi radio is currently unavailable."))
        } else if self.snapshot.visible_networks.len() == 0 {
            Some(("No nearby networks found", "Refresh the list or move closer to the access point."))
        } else {
            None
        }
    }

    /// One frame of the password dialog. The state holds the dialog as it
    /// stood when the frame began; `edited` is the dialog after the frame's
    /// typing. "Connect" works only when the passphrase as it stood was
    /// acceptable, and then sends the connection with the passphrase as
    /// edited and closes the dialog; "Cancel" or closing the window drops the
    /// dialog; otherwise the dialog stays with the edits.
    pub fn connect_dialog_frame(&mut self, edited: ConnectDialogState, confirm: bool, close: bool) -> (c: Option<WifiCommand>)
        ensures
            match old(self).connect_dialog {
                None => c is None && *final(self) == *old(self),
                Some(d0) => if confirm && passphrase_ok(d0.network.security, d0.passphrase@) {
                    c matches Some(WifiCommand::Connect(r)) && r.device_id == d0.network.device_id
                        && r.ssid == d0.network.ssid && !r.hidden && r.security == d0.network.security
                        && r.passphrase == Some(edited.passphrase)
                        && *final(self) == (AppState { connect_dialog: None, last_connect_attempt: Some(r), ..*old(self) })
                } else if close {
                    c is None && *final(self) == (AppState { connect_dialog: None, ..*old(self) })
                } else {
                    c is None && *final(self) == (AppState { connect_dialog: Some(edited), ..*old(self) })
                },
            },
    {
        let mut before = None;
        std::mem::swap(&mut before, &mut self.connect_dialog);
        match before {
            None => None,
            Some(d0) => {
                if confirm && passphrase_valid(d0.network.security, d0.passphrase.as_str()) {
                    let request = ConnectRequest {
                        device_id: d0.network.device_id,
                        ssid: d0.network.ssid,
                        hidden: false,
                        security: d0.network.security,
                        passphrase: Some(edited.passphrase),
                    };
                    Some(self.submit_connect(request))
                } else if close {
                    None
                } else {
                    self.connect_dialog = Some(edited);
                    None
                }
            },
        }
    }

    /// One frame of the hidden-network dialog. The state holds the dialog as
    /// it stood when the frame began; `edited` is the dialog after the frame's
    /// edits. "Connect" works only when the form as it stood was acceptable;
    /// it then closes the dialog and, with a Wi-Fi device, requests a hidden
    /// connection on the first device with the fields as edited (the SSID
    /// trimmed, the passphrase only where the security kind takes one), or
    /// without one shows an error. "Cancel" or closing the window drops the
    /// dialog; otherwise the dialog stays with the edits.
    pub fn hidden_dialog_frame(&mut self, edited: HiddenDialogState, confirm: bool, close: bool, now: u64) -> (c: Option<WifiCommand>)
        ensures
            match old(self).hidden_dialog {
                None => c is None && *final(self) == *old(self),
                Some(d0) => if confirm && hidden_form_ok(d0) {
                    match old(self).snapshot.primary_device_id {
                        None => c is None && *final(self) == (AppState {
                            hidden_dialog: None,
                            inline_message: final(self).inline_message,
                            last_message_at: Some(now),
                            ..*old(self)
                        }) && message_is(final(self).inline_message, MessageTone::Error,
                            "No managed Wi-Fi adapter is available for hidden network joins."@, None, old(self).last_connect_attempt),
                        Some(device) => c matches Some(WifiCommand::Connect(r)) && r.device_id == device
                            && r.ssid@ == trimmed(edited.ssid@) && r.hidden && r.security == edited.security
                            && r.passphrase == (if passphrase_required(edited.security) { Some(edited.passphrase) } else { None::<String> })
                            && *final(self) == (AppState { hidden_dialog: None, last_connect_attempt: Some(r), ..*old(self) }),
                    }
                } else if close {
                    c is None && *final(self) == (AppState { hidden_dialog: None, ..*old(self) })
                } else {
                    c is None && *final(self) == (AppState { hidden_dialog: Some(edited), ..*old(self) })
                },
            },
    {
        let mut before = None;
        std::mem::swap(&mut before, &mut self.hidden_dialog);
        let d0 = match before {
            None => return None,
            Some(d0) => d0,
        };
        if !(confirm && hidden_form_valid(&d0)) {
            if !close {
                self.hidden_dialog = Some(edited);
            }
            return None;
        }
        let device_id = match &self.snapshot.primary_device_id {
            Some(d) => d.clone(),
            None => {
                self.set_error("No managed Wi-Fi adapter is available for hidden network joins.".to_owned(), now);
                return None;
            },
        };
        let ssid_chars = chars_of(edited.ssid.as_str());
        let ssid = string_from_chars(&trim_chars(&ssid_chars));
        let passphrase = if edited.security.requires_passphrase() {
            Some(edited.passphrase)
        } else {
            None
        };
        let request = ConnectRequest { device_id, ssid, hidden: true, security: edited.security, passphrase };
        Some(self.submit_connect(request))
    }

    /// The "Forget" button of the confirmation: closes it and requests that
    /// the network's saved profile be removed.
    pub fn confirm_forget(&mut self) -> (c: Option<WifiCommand>)
        ensures
            match old(self).forget_dialog {
                Some(d) => c == Some(WifiCommand::Forget(d.ssid)) && *final(self) == (AppState { forget_dialog: None, ..*old(self) }),
                None => c is None && *final(self) == *old(self),
            },
    {
        let mut taken = None;
        std::mem::swap(&mut taken, &mut self.forget_dialog);
        match taken {
            Some(d) => Some(WifiCommand::Forget(d.ssid)),
            None => None,
        }
    }

    /// Closes the forget confirmation.
    pub fn close_forget_dialog(&mut self)
        ensures
            *final(self) == (AppState { forget_dialog: None, ..*old(self) }),
    {
        self.forget_dialog = None;
    }

    /// A click in the details dialog. Every click closes it; "Connect" then
    /// acts as the list's connect button, "Disconnect" requests a disconnect,
    /// and "Forget" opens the confirmation.
    pub fn details_clicked(&mut self, click: DetailsClick, now: u64) -> (c: Option<WifiCommand>)
        ensures
            final(self).details_dialog is None,
            old(self).details_dialog is None ==> c is None && *final(self) == *old(self),
            old(self).details_dialog matches Some(d) ==> match click {
                DetailsClick::Close => c is None && *final(self) == (AppState { details_dialog: None, ..*old(self) }),
                DetailsClick::Disconnect => c == Some(WifiCommand::Disconnect)
                    && *final(self) == (AppState { details_dialog: None, ..*old(self) }),
                DetailsClick::Forget => c is None && (if d.network.known {
                    final(self).forget_dialog matches Some(f) && f.ssid == d.network.ssid && f.in_use == d.network.in_use
                        && *final(self) == (AppState { details_dialog: None, forget_dialog: final(self).forget_dialog, ..*old(self) })
                } else {
                    *final(self) == (AppState { details_dialog: None, ..*old(self) })
                }),
                DetailsClick::Connect => begins_connect(AppState { details_dialog: None, ..*old(self) }, d.network, now, *final(self), c),
            },
    {
        let network = match &self.details_dialog {
            Some(d) => d.network.duplicate(),
            None => return None,
        };
        self.details_dialog = None;
        match click {
            DetailsClick::Close => None,
            DetailsClick::Disconnect => Some(WifiCommand::Disconnect),
            DetailsClick::Forget => {
                self.open_forget_dialog(&network);
                None
            },
            DetailsClick::Connect => self.begin_network_connect(&network, now),
        }
    }

    /// Switches between light and dark.
    pub fn toggle_theme(&mut self)
        ensures
            *final(self) == (AppState { theme_choice: ThemeChoice { base: flipped(old(self).theme_choice.base) }, ..*old(self) }),
    {
        self.theme_choice.toggle_base();
    }
}


/// The title of the password dialog.
pub fn connect_dialog_title(ssid: &str) -> (r: String)
    ensures
        r@ == "Connect to "@ + ssid@,
{
    let mut s = "Connect to ".to_owned();
    push_str(&mut s, ssid);
    s
}

/// The title and explanation of the forget confirmation.
pub fn forget_dialog_text(dialog: &ForgetDialogState) -> (r: (String, &'static str))
    ensures
        r.0@ == "Forget "@ + dialog.ssid@ + "?"@,
        r.1@ == (if dialog.in_use {
            "This will disconnect the current network and remove its saved profile."@
        } else {
            "This will remove the saved profile and password for this network."@
        }),
{
    let mut title = "Forget ".to_owned();
    push_str(&mut title, dialog.ssid.as_str());
    push_str(&mut title, "?");
    let detail = if dialog.in_use {
        "This will disconnect the current network and remove its saved profile."
    } else {
        "This will remove the saved profile and password for this network."
    };
    (title, detail)
}

/// Whether the details dialog calls a network supported.
pub fn support_label(network: &AccessPointGroup) -> (r: &'static str)
    ensures
        r@ == (if kind_supported(network.security) { "Supported"@ } else { "Unsupported in this version"@ }),
{
    if network.security.is_supported() {
        "Supported"
    } else {
        "Unsupported in this version"
    }
}

/// When the list was last scanned, as the details dialog says it: the age of
/// the last snapshot in whole seconds, or "Just now" before the first one.
pub fn last_scanned_text(last_snapshot_at: Option<u64>, now: u64) -> (r: String)
    ensures
        r@ == (match last_snapshot_at {
            Some(t) => elapsed_text(if now >= t { ((now - t) / 1_000_000_000) as u64 } else { 0 }),
            None => "Just now"@,
        }),
{
    match last_snapshot_at {
        Some(t) => {
            let seconds = if now >= t { (now - t) / 1_000_000_000 } else { 0 };
            format_elapsed(seconds)
        },
        None => "Just now".to_owned(),
    }
}

/// The look of the status area for a message tone; only errors offer buttons.
pub fn notice_kind_for(tone: MessageTone) -> (r: crate::components::NoticeKind)
    ensures
        r == (if tone == MessageTone::Info { crate::components::NoticeKind::Info } else { crate::components::NoticeKind::Error }),
{
    match tone {
        MessageTone::Info => crate::components::NoticeKind::Info,
        MessageTone::Error => crate::components::NoticeKind::Error,
    }
}

/// A click on a network never asks to join a network the app cannot join or
/// the one already in use, and a direct request (without the password dialog)
/// carries no passphrase and only goes to an open or saved network.
pub proof fn lemma_direct_connects_are_safe(pre: AppState, network: AccessPointGroup, now: u64, post: AppState, c: Option<WifiCommand>)
    requires
        begins_connect(pre, network, now, post, c),
        c is Some,
    ensures
        c matches Some(WifiCommand::Connect(r)) && r.passphrase is None && r.ssid == network.ssid && !r.hidden
            && kind_supported(r.security) && !network.in_use && (network.known || !passphrase_required(network.security)),
        post.last_connect_attempt == Some(c->0->Connect_0),
{
}

/// An error stays in the status area however much time passes; only
/// informational messages expire.
pub proof fn lemma_errors_outlive_expiry(pre: AppState, now: u64)
    requires
        pre.inline_message matches Some(m) && m.tone == MessageTone::Error,
    ensures
        after_expiry(pre, now).inline_message == pre.inline_message,
{
}

/// What a click on a network's connect button leads to, by the network's
/// fields: a network that is not in use, not Enterprise, and either open or
/// saved is joined at once, with a request for its device, SSID and security,
/// not hidden and without a passphrase, and the password dialog is left as it
/// was; the password dialog is only ever opened for a network that is not in
/// use, not saved and secured with a passphrase (WPA Personal or of unknown
/// kind); nothing is requested in any other case.
pub proof fn lemma_network_click(pre: AppState, network: AccessPointGroup, now: u64, post: AppState, c: Option<WifiCommand>)
    requires
        begins_connect(pre, network, now, post, c),
    ensures
        (!network.in_use && network.security != SecurityKind::Enterprise
            && (network.security == SecurityKind::Open || network.known)) ==> {
            &&& c matches Some(WifiCommand::Connect(r)) && r.device_id == network.device_id && r.ssid == network.ssid
                && r.security == network.security && !r.hidden && r.passphrase is None
            &&& post.connect_dialog == pre.connect_dialog
        },
        post.connect_dialog != pre.connect_dialog ==> !network.in_use && !network.known
            && (network.security == SecurityKind::WpaPsk || network.security == SecurityKind::Unknown),
        c is Some <==> (!network.in_use && network.security != SecurityKind::Enterprise
            && (network.security == SecurityKind::Open || network.known)),
        network.in_use ==> post == pre,
{
}

/// The message timer: while an operation is in progress it changes nothing;
/// otherwise it clears the message exactly when more than five seconds have
/// passed since the message was set and the message is not an error, and it
/// never changes anything but the message.
pub proof fn lemma_message_timer(pre: AppState, now: u64)
    ensures
        pre.pending_operation is Some ==> after_expiry(pre, now) == pre,
        after_expiry(pre, now) == pre || after_expiry(pre, now) == (AppState { inline_message: None, ..pre }),
        (pre.pending_operation is None && (pre.last_message_at matches Some(t) && now >= t && now - t > 5_000_000_000)
            && !(pre.inline_message matches Some(m) && m.tone == MessageTone::Error))
            ==> after_expiry(pre, now).inline_message is None,
        after_expiry(pre, now).inline_message != pre.inline_message ==> {
            &&& pre.pending_operation is None
            &&& pre.last_message_at matches Some(t) && now >= t && now - t > 5_000_000_000
            &&& !(pre.inline_message matches Some(m) && m.tone == MessageTone::Error)
        },
{
}

/// Every network kind that asks for a passphrase is one the app can join.
pub proof fn lemma_passphrase_kinds_are_supported(kind: SecurityKind)
    ensures
        passphrase_required(kind) ==> kind_supported(kind),
{
}

} // verus!