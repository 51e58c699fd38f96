//! The decisions of the NetworkManager worker: how scan results become the
//! list of networks, how a snapshot is assembled, what the user is told about
//! failures, and which step the worker takes next.
use vstd::prelude::*;

use crate::text::join2;
use crate::model::{AccessPointGroup, AppSnapshot, ConnectRequest, CurrentConnection, WifiCommand, SecurityKind, band_label, band_text, group_networks, is_ranked, rank_class, rank_pred, signal_level};


verus! {

/// One access point as a scan reports it.
#[derive(Debug, Clone)]
pub struct VisibleNetwork {
    pub device: String,
    pub ssid: String,
    pub strength: Option<u8>,
    pub frequency: Option<u32>,
    pub secured: bool,
    pub is_psk: bool,
    pub is_eap: bool,
}

/// The security kind that NetworkManager's flags describe: unsecured is open,
/// then 802.1X wins over a pre-shared key, and a secured network with neither
/// is of unknown kind.
pub open spec fn security_of_flags(secured: bool, is_psk: bool, is_eap: bool) -> SecurityKind {
    if !secured {
        SecurityKind::Open
    } else if is_eap {
        SecurityKind::Enterprise
    } else if is_psk {
        SecurityKind::WpaPsk
    } else {
        SecurityKind::Unknown
    }
}

/// The security kind of an access point from its secured, PSK and EAP flags.
pub fn classify_security_flags(secured: bool, is_psk: bool, is_eap: bool) -> (r: SecurityKind)
    ensures
        r == security_of_flags(secured, is_psk, is_eap),
{
    if !secured {
        SecurityKind::Open
    } else if is_eap {
        SecurityKind::Enterprise
    } else if is_psk {
        SecurityKind::WpaPsk
    } else {
        SecurityKind::Unknown
    }
}

/// The snapshot shown while the worker cannot talk to NetworkManager: nothing
/// is known but whether the manager runs and what went wrong.
pub fn unavailable_snapshot(manager_running: bool, error: Option<String>) -> (s: AppSnapshot)
    ensures
        s.manager_running == manager_running,
        s.transient_error == error,
        s.primary_device_id is None,
        s.current_connection is None,
        s.visible_networks@.len() == 0,
        !s.wifi_available,
        !s.radio_enabled,
        !s.rfkill_blocked,
{
    AppSnapshot {
        primary_device_id: None,
        current_connection: None,
        visible_networks: Vec::new(),
        wifi_available: false,
        radio_enabled: false,
        rfkill_blocked: false,
        manager_running,
        transient_error: error,
    }
}

/// A saved profile exists under the name `ssid`.
pub open spec fn is_saved(saved_ids: Seq<String>, ssid: Seq<char>) -> bool {
    exists|i: int| 0 <= i < saved_ids.len() && (#[trigger] saved_ids[i])@ == ssid
}

/// The network a borrowed option refers to.
pub open spec fn deref_network(current: Option<&VisibleNetwork>) -> Option<VisibleNetwork> {
    match current {
        Some(c) => Some(*c),
        None => None,
    }
}

/// `ssid` is the network the device is connected to.
pub open spec fn is_current(current: Option<VisibleNetwork>, ssid: Seq<char>) -> bool {
    match current {
        Some(c) => c.ssid@ == ssid,
        None => false,
    }
}

/// `g` is the list entry that the access point `n` gives.
pub open spec fn entry_from(
    g: AccessPointGroup,
    n: VisibleNetwork,
    saved_ids: Seq<String>,
    current: Option<VisibleNetwork>,
) -> bool {
    &&& g.ssid@ == n.ssid@
    &&& g.device_id@ == n.device@
    &&& g.signal == n.strength
    &&& g.security == security_of_flags(n.secured, n.is_psk, n.is_eap)
    &&& g.band_summary@ == band_text(n.frequency)
    &&& g.known == is_saved(saved_ids, n.ssid@)
    &&& g.in_use == is_current(current, n.ssid@)
}

/// Among the access points of `v` named `ssid`, `b` is the one that stands
/// for the network: the strongest, and the last of the strongest.
pub open spec fn is_best(v: Seq<VisibleNetwork>, ssid: Seq<char>, b: int) -> bool {
    &&& 0 <= b < v.len()
    &&& v[b].ssid@ == ssid
    &&& forall|j: int| 0 <= j < v.len() && (#[trigger] v[j]).ssid@ == ssid ==> signal_level(v[j].strength) <= signal_level(v[b].strength)
    &&& forall|j: int| b < j < v.len() && (#[trigger] v[j]).ssid@ == ssid ==> signal_level(v[j].strength) < signal_level(v[b].strength)
}

/// No two entries of `s` share an SSID.
pub open spec fn distinct_ssids(s: Seq<AccessPointGroup>) -> bool {
    forall|i: int, j: int| 0 <= i < j < s.len() ==> (#[trigger] s[i]).ssid@ != (#[trigger] s[j]).ssid@
}

fn saved_contains(saved_ids: &Vec<String>, ssid: &String) -> (r: bool)
    ensures
        r == is_saved(saved_ids@, ssid@),
{
    let mut i: usize = 0;
    while i < saved_ids.len()
        invariant
            i <= saved_ids.len(),
            forall|j: int| 0 <= j < i ==> (#[trigger] saved_ids@[j])@ != ssid@,
        decreases saved_ids.len() - i,
    {
        if saved_ids[i] == *ssid {
            return true;
        }
        i = i + 1;
    }
    false
}

fn in_use_for(current: Option<&VisibleNetwork>, ssid: &String) -> (r: bool)
    ensures
        r == is_current(deref_network(current), ssid@),
{
    match current {
        Some(c) => c.ssid == *ssid,
        None => false,
    }
}

fn entry_for(n: &VisibleNetwork, saved_ids: &Vec<String>, current: Option<&VisibleNetwork>) -> (g: AccessPointGroup)
    ensures
        entry_from(g, *n, saved_ids@, deref_network(current)),
{
    AccessPointGroup {
        ssid: n.ssid.clone(),
        device_id: n.device.clone(),
        signal: n.strength,
        security: classify_security_flags(n.secured, n.is_psk, n.is_eap),
        band_summary: band_label(n.frequency),
        known: saved_contains(saved_ids, &n.ssid),
        in_use: in_use_for(current, &n.ssid),
    }
}

fn find_ssid(groups: &Vec<AccessPointGroup>, ssid: &String) -> (r: Option<usize>)
    ensures
        match r {
            Some(i) => i < groups@.len() && groups@[i as int].ssid@ == ssid@,
            None => forall|j: int| 0 <= j < groups@.len() ==> (#[trigger] groups@[j]).ssid@ != ssid@,
        },
{
    let mut i: usize = 0;
    while i < groups.len()
        invariant
            i <= groups.len(),
            forall|j: int| 0 <= j < i ==> (#[trigger] groups@[j]).ssid@ != ssid@,
        decreases groups.len() - i,
    {
        if groups[i].ssid == *ssid {
            return Some(i);
        }
        i = i + 1;
    }
    None
}

proof fn lemma_filter_two<A>(s: Seq<A>, pred: spec_fn(A) -> bool, i: int, j: int)
    requires
        0 <= i < j < s.len(),
        pred(s[i]),
        pred(s[j]),
    ensures
        s.filter(pred).len() >= 2,
    decreases s.len(),
{
    reveal(Seq::filter);
    let t = s.drop_last();
    if j == s.len() - 1 {
        assert(t[i] == s[i]);
        t.lemma_filter_contains(pred, i);
    } else {
        assert(t[i] == s[i] && t[j] == s[j]);
        lemma_filter_two(t, pred, i, j);
    }
}

proof fn lemma_filter_at_most_one<A>(s: Seq<A>, pred: spec_fn(A) -> bool)
    requires
        forall|i: int, j: int| 0 <= i < j < s.len() ==> !(pred(#[trigger] s[i]) && pred(#[trigger] s[j])),
    ensures
        s.filter(pred).len() <= 1,
    decreases s.len(),
{
    reveal(Seq::filter);
    if s.len() > 0 {
        let t = s.drop_last();
        assert forall|i: int, j: int| 0 <= i < j < t.len() implies !(pred(#[trigger] t[i]) && pred(#[trigger] t[j])) by {
            assert(t[i] == s[i] && t[j] == s[j]);
        }
        lemma_filter_at_most_one(t, pred);
        if pred(s.last()) {
            assert forall|j: int| 0 <= j < t.len() implies !pred(#[trigger] t[j]) by {
                assert(t[j] == s[j]);
                assert(s[s.len() - 1] == s.last());
            }
            lemma_filter_empty(t, pred);
        }
    }
}

proof fn lemma_filter_empty<A>(s: Seq<A>, pred: spec_fn(A) -> bool)
    requires
        forall|j: int| 0 <= j < s.len() ==> !pred(#[trigger] s[j]),
    ensures
        s.filter(pred).len() == 0,
    decreases s.len(),
{
    reveal(Seq::filter);
    if s.len() > 0 {
        let t = s.drop_last();
        assert forall|j: int| 0 <= j < t.len() implies !pred(#[trigger] t[j]) by {
            assert(t[j] == s[j]);
        }
        lemma_filter_empty(t, pred);
    }
}

proof fn lemma_class_member(r: Seq<AccessPointGroup>, s: Seq<AccessPointGroup>, i: int)
    requires
        0 <= i < r.len(),
        forall|k: AccessPointGroup| #[trigger] rank_class(r, k) == rank_class(s, k),
    ensures
        s.contains(r[i]),
{
    let y = r[i];
    r.lemma_filter_contains(rank_pred(y), i);
    assert(rank_class(r, y) == rank_class(s, y));
    s.lemma_filter_contains_rev(rank_pred(y), y);
}

/// Ranking a list with distinct SSIDs keeps exactly its entries, and the SSIDs
/// stay distinct.
proof fn lemma_ranking_keeps_entries(s: Seq<AccessPointGroup>, r: Seq<AccessPointGroup>)
    requires
        distinct_ssids(s),
        forall|k: AccessPointGroup| #[trigger] rank_class(r, k) == rank_class(s, k),
    ensures
        distinct_ssids(r),
        forall|i: int| 0 <= i < r.len() ==> s.contains(#[trigger] r[i]),
        forall|j: int| 0 <= j < s.len() ==> r.contains(#[trigger] s[j]),
{
    assert forall|i: int| 0 <= i < r.len() implies s.contains(#[trigger] r[i]) by {
        lemma_class_member(r, s, i);
    }
    assert forall|j: int| 0 <= j < s.len() implies r.contains(#[trigger] s[j]) by {
        assert forall|k: AccessPointGroup| #[trigger] rank_class(s, k) == rank_class(r, k) by {
            assert(rank_class(r, k) == rank_class(s, k));
        }
        lemma_class_member(s, r, j);
    }
    assert forall|i: int, j: int| 0 <= i < j < r.len() implies (#[trigger] r[i]).ssid@ != (#[trigger] r[j]).ssid@ by {
        if r[i].ssid@ == r[j].ssid@ {
            lemma_class_member(r, s, i);
            lemma_class_member(r, s, j);
            let a = choose|a: int| 0 <= a < s.len() && s[a] == r[i];
            let b = choose|b: int| 0 <= b < s.len() && s[b] == r[j];
            if a != b {
                if a < b {
                    assert(s[a].ssid@ != s[b].ssid@);
                } else {
                    assert(s[b].ssid@ != s[a].ssid@);
                }
            }
            let g = r[i];
            let pred = rank_pred(g);
            lemma_filter_two(r, pred, i, j);
            assert forall|x: int, y: int| 0 <= x < y < s.len() implies !(pred(#[trigger] s[x]) && pred(#[trigger] s[y])) by {
                assert(s[x].ssid@ != s[y].ssid@);
            }
            lemma_filter_at_most_one(s, pred);
            assert(rank_class(r, g) == rank_class(s, g));
        }
    }
}

/// Turns scan results into the network list: one entry per SSID, taken from
/// the strongest access point of that name (the last of them on a tie), then
/// ordered as `group_networks` orders.
pub fn group_visible_networks(
    visible: Vec<VisibleNetwork>,
    saved_ids: &Vec<String>,
    current: Option<&VisibleNetwork>,
) -> (r: Vec<AccessPointGroup>)
    ensures
        network_list_of(r@, visible@, saved_ids@, deref_network(current)),
{
    let ghost v = visible@;
    let mut groups: Vec<AccessPointGroup> = Vec::new();
    for network in it: visible
        invariant
            it.seq() == v,
            it.index() <= v.len(),
            distinct_ssids(groups@),
            forall|i: int| 0 <= i < groups@.len() ==> exists|b: int| is_best(v.take(it.index() as int), (#[trigger] groups@[i]).ssid@, b)
                && entry_from(groups@[i], v[b], saved_ids@, deref_network(current)),
            forall|j: int| 0 <= j < it.index() ==> exists|i: int| 0 <= i < groups@.len()
                && (#[trigger] groups@[i]).ssid@ == (#[trigger] v[j]).ssid@,
    {
        let ghost n = it.index() as int;
        let ghost old_groups = groups@;
        let ghost pre = v.take(n);
        let ghost post = v.take(n + 1);
        assert(network == v[n]);
        assert(post =~= pre.push(network));
        match find_ssid(&groups, &network.ssid) {
            None => {
                let entry = entry_for(&network, saved_ids, current);
                groups.push(entry);
                proof {
                    assert forall|i: int| 0 <= i < groups@.len() implies exists|b: int| is_best(post, (#[trigger] groups@[i]).ssid@, b)
                        && entry_from(groups@[i], v[b], saved_ids@, deref_network(current)) by {
                        if i < old_groups.len() {
                            let b = choose|b: int| is_best(pre, old_groups[i].ssid@, b) && entry_from(old_groups[i], v[b], saved_ids@, deref_network(current));
                            assert(groups@[i] == old_groups[i]);
                            assert(is_best(post, groups@[i].ssid@, b));
                        } else {
                            assert(is_best(post, groups@[i].ssid@, n));
                        }
                    }
                    assert forall|j: int| 0 <= j < n + 1 implies exists|i: int| 0 <= i < groups@.len()
                        && (#[trigger] groups@[i]).ssid@ == (#[trigger] v[j]).ssid@ by {
                        if j < n {
                            let i = choose|i: int| 0 <= i < old_groups.len() && old_groups[i].ssid@ == v[j].ssid@;
                            assert(groups@[i] == old_groups[i]);
                        } else {
                            assert(groups@[old_groups.len() as int].ssid@ == v[j].ssid@);
                        }
                    }
                }
            },
            Some(gi) => {
                let current_level: u8 = match groups[gi].signal {
                    Some(s) => s,
                    None => 0,
                };
                let level: u8 = match network.strength {
                    Some(s) => s,
                    None => 0,
                };
                let ghost bi = choose|b: int| is_best(pre, old_groups[gi as int].ssid@, b) && entry_from(old_groups[gi as int], v[b], saved_ids@, deref_network(current));
                if level >= current_level {
                    let entry = entry_for(&network, saved_ids, current);
                    groups.set(gi, entry);
                    proof {
                        assert(is_best(post, groups@[gi as int].ssid@, n));
                    }
                } else {
                    proof {
                        assert(is_best(post, groups@[gi as int].ssid@, bi));
                    }
                }
                proof {
                    assert forall|i: int| 0 <= i < groups@.len() implies exists|b: int| is_best(post, (#[trigger] groups@[i]).ssid@, b)
                        && entry_from(groups@[i], v[b], saved_ids@, deref_network(current)) by {
                        if i != gi {
                            let b = choose|b: int| is_best(pre, old_groups[i].ssid@, b) && entry_from(old_groups[i], v[b], saved_ids@, deref_network(current));
                            assert(groups@[i] == old_groups[i]);
                            if i < gi {
                                assert(old_groups[i].ssid@ != old_groups[gi as int].ssid@);
                            } else {
                                assert(old_groups[gi as int].ssid@ != old_groups[i].ssid@);
                            }
                            assert(is_best(post, groups@[i].ssid@, b));
                        } else if level >= current_level {
                            assert(is_best(post, groups@[i].ssid@, n));
                        } else {
                            assert(is_best(post, groups@[i].ssid@, bi));
                        }
                    }
                    assert forall|j: int| 0 <= j < n + 1 implies exists|i: int| 0 <= i < groups@.len()
                        && (#[trigger] groups@[i]).ssid@ == (#[trigger] v[j]).ssid@ by {
                        if j < n {
                            let i = choose|i: int| 0 <= i < old_groups.len() && old_groups[i].ssid@ == v[j].ssid@;
                            assert(groups@[i].ssid@ == old_groups[i].ssid@);
                        } else {
                            assert(groups@[gi as int].ssid@ == v[j].ssid@);
                        }
                    }
                    assert forall|x: int, y: int| 0 <= x < y < groups@.len() implies (#[trigger] groups@[x]).ssid@ != (#[trigger] groups@[y]).ssid@ by {
                        assert(groups@[x].ssid@ == old_groups[x].ssid@);
                        assert(groups@[y].ssid@ == old_groups[y].ssid@);
                    }
                }
            },
        }
    }
    proof {
        assert(v.take(v.len() as int) =~= v);
    }
    let ghost g = groups@;
    let r = group_networks(groups);
    proof {
        lemma_ranking_keeps_entries(g, r@);
        assert forall|i: int| 0 <= i < r@.len() implies exists|b: int| is_best(v, (#[trigger] r@[i]).ssid@, b)
            && entry_from(r@[i], v[b], saved_ids@, deref_network(current)) by {
            let a = choose|a: int| 0 <= a < g.len() && g[a] == r@[i];
            assert(r@[i] == g[a]);
        }
        assert forall|j: int| 0 <= j < v.len() implies exists|i: int| 0 <= i < r@.len()
            && (#[trigger] r@[i]).ssid@ == (#[trigger] v[j]).ssid@ by {
            let a = choose|a: int| 0 <= a < g.len() && g[a].ssid@ == v[j].ssid@;
            assert(r@.contains(g[a]));
        }
    }
    r
}


/// The four facts that make `r` the network list of a scan: ordered for
/// display, one entry per SSID, each entry taken from the access point that
/// stands for its SSID, and every scanned SSID listed.
pub open spec fn network_list_of(
    r: Seq<AccessPointGroup>,
    visible: Seq<VisibleNetwork>,
    saved_ids: Seq<String>,
    current: Option<VisibleNetwork>,
) -> bool {
    &&& is_ranked(r)
    &&& distinct_ssids(r)
    &&& forall|i: int| 0 <= i < r.len() ==> exists|b: int| is_best(visible, (#[trigger] r[i]).ssid@, b)
        && entry_from(r[i], visible[b], saved_ids, current)
    &&& forall|j: int| 0 <= j < visible.len() ==> exists|i: int| 0 <= i < r.len()
        && (#[trigger] r[i]).ssid@ == (#[trigger] visible[j]).ssid@
}

/// What each entry of a network list says about the scan it came from: it is
/// marked saved exactly when some saved profile, at any position among them,
/// has its SSID; it is marked in use exactly when the active network has its
/// SSID; and it reports the device, signal and band of an access point of that
/// SSID than which no access point of the same SSID is stronger (no reading
/// counts as 0), with that access point's security.
pub proof fn lemma_network_list_entries(
    r: Seq<AccessPointGroup>,
    visible: Seq<VisibleNetwork>,
    saved_ids: Seq<String>,
    current: Option<VisibleNetwork>,
    k: int,
)
    requires
        network_list_of(r, visible, saved_ids, current),
        0 <= k < r.len(),
    ensures
        r[k].known <==> exists|i: int| 0 <= i < saved_ids.len() && #[trigger] saved_ids[i]@ == r[k].ssid@,
        r[k].in_use <==> (current matches Some(c) && c.ssid@ == r[k].ssid@),
        exists|b: int| {
            &&& 0 <= b < visible.len()
            &&& #[trigger] visible[b].ssid@ == r[k].ssid@
            &&& r[k].device_id@ == visible[b].device@
            &&& r[k].signal == visible[b].strength
            &&& r[k].band_summary@ == band_text(visible[b].frequency)
            &&& r[k].security == (if !visible[b].secured {
                SecurityKind::Open
            } else if visible[b].is_eap {
                SecurityKind::Enterprise
            } else if visible[b].is_psk {
                SecurityKind::WpaPsk
            } else {
                SecurityKind::Unknown
            })
            &&& forall|j: int| 0 <= j < visible.len() && visible[j].ssid@ == r[k].ssid@ ==> (match visible[j].strength {
                Some(v) => v as int,
                None => 0int,
            }) <= (match r[k].signal {
                Some(v) => v as int,
                None => 0int,
            })
        },
{
    let b = choose|b: int| is_best(visible, r[k].ssid@, b) && entry_from(r[k], visible[b], saved_ids, current);
    assert(is_best(visible, r[k].ssid@, b) && entry_from(r[k], visible[b], saved_ids, current));
    assert forall|j: int| 0 <= j < visible.len() && visible[j].ssid@ == r[k].ssid@ implies (match visible[j].strength {
        Some(v) => v as int,
        None => 0int,
    }) <= (match r[k].signal {
        Some(v) => v as int,
        None => 0int,
    }) by {
        assert(signal_level(visible[j].strength) <= signal_level(visible[b].strength));
    }
}

/// The `connection` section of a saved NetworkManager profile: its type and
/// its name, where they are strings.
#[derive(Debug, Clone)]
pub struct ConnectionSummary {
    pub kind: Option<String>,
    pub id: Option<String>,
}

/// A profile is a saved Wi-Fi network when its type is `802-11-wireless` and
/// it has a name.
pub open spec fn wifi_profile_name(p: Option<ConnectionSummary>) -> Option<Seq<char>> {
    match p {
        Some(c) => {
            let kind = match c.kind {
                Some(k) => k@,
                None => Seq::<char>::empty(),
            };
            if kind == "802-11-wireless"@ {
                match c.id {
                    Some(id) => Some(id@),
                    None => None,
                }
            } else {
                None
            }
        },
        None => None,
    }
}

/// The names of the saved Wi-Fi profiles among `profiles`, in order.
pub open spec fn wifi_profile_names(profiles: Seq<Option<ConnectionSummary>>) -> Seq<Seq<char>>
    decreases profiles.len(),
{
    if profiles.len() == 0 {
        Seq::empty()
    } else {
        let rest = wifi_profile_names(profiles.drop_last());
        match wifi_profile_name(profiles.last()) {
            Some(name) => rest.push(name),
            None => rest,
        }
    }
}

/// Picks the names of saved Wi-Fi profiles out of the `connection` sections of
/// all saved profiles (`None` for a profile without that section).
pub fn saved_wifi_ids(profiles: Vec<Option<ConnectionSummary>>) -> (r: Vec<String>)
    ensures
        r@.map_values(|s: String| s@) == wifi_profile_names(profiles@),
{
    let ghost all = profiles@;
    let mut ids: Vec<String> = Vec::new();
    let wireless = "802-11-wireless".to_owned();
    for p in it: profiles
        invariant
            it.seq() == all,
            wireless@ == "802-11-wireless"@,
            ids@.map_values(|s: String| s@) == wifi_profile_names(all.take(it.index() as int)),
    {
        let ghost n = it.index() as int;
        let ghost before = ids@;
        assert(all.take(n + 1).drop_last() =~= all.take(n));
        assert(all.take(n + 1).last() == p);
        match p {
            Some(c) => {
                let is_wireless = match &c.kind {
                    Some(k) => *k == wireless,
                    None => false,
                };
                proof {
                    let kind = match c.kind {
                        Some(k) => k@,
                        None => Seq::<char>::empty(),
                    };
                    if c.kind is None {
                        reveal_strlit("802-11-wireless");
                        assert("802-11-wireless"@.len() == 15);
                        assert(kind.len() == 0);
                    }
                    assert(is_wireless == (kind == "802-11-wireless"@));
                }
                if is_wireless {
                    match c.id {
                        Some(id) => {
                            ids.push(id);
                            assert(ids@.map_values(|s: String| s@) =~= before.map_values(|s: String| s@).push(id@));
                        },
                        None => {},
                    }
                }
            },
            None => {},
        }
    }
    proof {
        assert(all.take(all.len() as int) =~= all);
    }
    ids
}

/// Builds the snapshot from what NetworkManager reported: the paths of the
/// wireless devices, whether Wi-Fi is enabled and whether the hardware switch
/// allows it (`None` where the query failed, read as "yes"), the saved
/// profile names, the active network and the scan results.
pub fn build_snapshot(
    device_paths: Vec<String>,
    wifi_enabled: Option<bool>,
    hardware_enabled: Option<bool>,
    saved_ids: Vec<String>,
    current: Option<VisibleNetwork>,
    visible: Vec<VisibleNetwork>,
    transient_error: Option<String>,
) -> (s: AppSnapshot)
    ensures
        s.primary_device_id == (if device_paths@.len() > 0 { Some(device_paths@[0]) } else { None::<String> }),
        s.wifi_available == (device_paths@.len() > 0),
        s.radio_enabled == (match wifi_enabled { Some(b) => b, None => true }),
        s.rfkill_blocked == (match hardware_enabled { Some(b) => !b, None => false }),
        s.manager_running,
        s.transient_error == transient_error,
        network_list_of(s.visible_networks@, visible@, saved_ids@, current),
        match current {
            Some(n) => s.current_connection matches Some(c) && c.device_id@ == n.device@ && c.ssid@ == n.ssid@
                && c.signal == n.strength && c.security == security_of_flags(n.secured, n.is_psk, n.is_eap)
                && c.band_summary@ == band_text(n.frequency),
            None => s.current_connection is None,
        },
{
    let primary_device_id = if device_paths.len() > 0 {
        Some(device_paths[0].clone())
    } else {
        None
    };
    let wifi_available = device_paths.len() > 0;
    let radio_enabled = match wifi_enabled {
        Some(b) => b,
        None => true,
    };
    let rfkill_blocked = match hardware_enabled {
        Some(b) => !b,
        None => false,
    };
    let visible_networks = group_visible_networks(visible, &saved_ids, current.as_ref());
    let current_connection = match current {
        Some(n) => {
            let security = classify_security_flags(n.secured, n.is_psk, n.is_eap);
            let band_summary = band_label(n.frequency);
            Some(CurrentConnection {
                device_id: n.device,
                ssid: n.ssid,
                signal: n.strength,
                security,
                band_summary,
            })
        },
        None => None,
    };
    AppSnapshot {
        primary_device_id,
        current_connection,
        visible_networks,
        wifi_available,
        radio_enabled,
        rfkill_blocked,
        manager_running: true,
        transient_error,
    }
}

/// Why NetworkManager could not connect, as far as the app tells causes apart.
#[derive(Debug, Clone, PartialEq, Eq)]
pub enum ConnectFailure {
    AuthFailed,
    DhcpFailed,
    NotFound,
    Timeout,
    NoSavedConnection,
    /// Any other failure, with the text NetworkManager gave for it.
    Other(String),
}

/// The sentence shown for a failed connection attempt.
pub open spec fn failure_text(failure: ConnectFailure) -> Seq<char> {
    match failure {
        ConnectFailure::AuthFailed => "Authentication failed. Re-enter the Wi-Fi password."@,
        ConnectFailure::DhcpFailed => "The network accepted the credentials but did not issue an IP address."@,
        ConnectFailure::NotFound => "The selected network is no longer visible. Refresh and try again."@,
        ConnectFailure::Timeout => "NetworkManager timed out while trying to connect."@,
        ConnectFailure::NoSavedConnection => "No saved profile exists for this network."@,
        ConnectFailure::Other(text) => text@,
    }
}

/// A readable sentence for a connection failure reported by the network manager.
pub fn humanize_nm_error(failure: &ConnectFailure) -> (r: String)
    ensures
        r@ == failure_text(*failure),
{
    match failure {
        ConnectFailure::AuthFailed => "Authentication failed. Re-enter the Wi-Fi password.".to_owned(),
        ConnectFailure::DhcpFailed => "The network accepted the credentials but did not issue an IP address.".to_owned(),
        ConnectFailure::NotFound => "The selected network is no longer visible. Refresh and try again.".to_owned(),
        ConnectFailure::Timeout => "NetworkManager timed out while trying to connect.".to_owned(),
        ConnectFailure::NoSavedConnection => "No saved profile exists for this network.".to_owned(),
        ConnectFailure::Other(text) => text.clone(),
    }
}

/// The message reported when a command fails: the explanation kept from the
/// last failed connection attempt if there is one, else the error's own text.
pub fn failure_message(transient_error: &Option<String>, error_text: String) -> (r: String)
    ensures
        r@ == (match transient_error {
            Some(t) => t@,
            None => error_text@,
        }),
{
    match transient_error {
        Some(t) => t.clone(),
        None => error_text,
    }
}

/// The progress message announced when the worker starts a command.
pub open spec fn started_text(command: WifiCommand) -> Option<Seq<char>> {
    match command {
        WifiCommand::Refresh => Some("Refreshing nearby networks"@),
        WifiCommand::Connect(request) => Some("Connecting to "@ + request.ssid@),
        WifiCommand::Disconnect => Some("Disconnecting current network"@),
        WifiCommand::Forget(ssid) => Some("Forgetting "@ + ssid@),
        WifiCommand::Shutdown => None,
    }
}

/// The message announced when a command has succeeded.
pub open spec fn finished_text(command: WifiCommand) -> Option<Seq<char>> {
    match command {
        WifiCommand::Refresh => Some("Wi-Fi list updated"@),
        WifiCommand::Connect(request) => Some("Connected to "@ + request.ssid@),
        WifiCommand::Disconnect => Some("Disconnected"@),
        WifiCommand::Forget(ssid) => Some("Forgot "@ + ssid@),
        WifiCommand::Shutdown => None,
    }
}

/// The status line shown while a command runs, for commands that have one.
pub fn operation_started_message(command: &WifiCommand) -> (r: Option<String>)
    ensures
        (match r { Some(s) => Some(s@), None => None::<Seq<char>> }) == started_text(*command),
{
    match command {
        WifiCommand::Refresh => Some("Refreshing nearby networks".to_owned()),
        WifiCommand::Connect(request) => Some(join2("Connecting to ", request.ssid.as_str())),
        WifiCommand::Disconnect => Some("Disconnecting current network".to_owned()),
        WifiCommand::Forget(ssid) => Some(join2("Forgetting ", ssid.as_str())),
        WifiCommand::Shutdown => None,
    }
}

/// The status line shown when a command has finished, for commands that have one.
pub fn operation_finished_message(command: &WifiCommand) -> (r: Option<String>)
    ensures
        (match r { Some(s) => Some(s@), None => None::<Seq<char>> }) == finished_text(*command),
{
    match command {
        WifiCommand::Refresh => Some("Wi-Fi list updated".to_owned()),
        WifiCommand::Connect(request) => Some(join2("Connected to ", request.ssid.as_str())),
        WifiCommand::Disconnect => Some("Disconnected".to_owned()),
        WifiCommand::Forget(ssid) => Some(join2("Forgot ", ssid.as_str())),
        WifiCommand::Shutdown => None,
    }
}

/// The credentials handed to NetworkManager for a connection.
#[derive(Debug, Clone, PartialEq, Eq)]
pub enum ConnectSecurity {
    Open,
    WpaPsk { psk: String },
}

/// Open networks connect without credentials; every other kind is tried as
/// WPA Personal with the given passphrase (empty when there is none).
pub fn connect_security(request: &ConnectRequest) -> (r: ConnectSecurity)
    ensures
        request.security == SecurityKind::Open ==> r == ConnectSecurity::Open,
        request.security != SecurityKind::Open ==> (r matches ConnectSecurity::WpaPsk { psk } && psk@ == (match request.passphrase {
            Some(p) => p@,
            None => Seq::<char>::empty(),
        })),
{
    match request.security {
        SecurityKind::Open => ConnectSecurity::Open,
        _ => {
            let psk = match &request.passphrase {
                Some(p) => p.clone(),
                None => String::new(),
            };
            ConnectSecurity::WpaPsk { psk }
        },
    }
}

} // verus!
