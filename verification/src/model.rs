//! The data that flows between the NetworkManager worker and the window: what
//! a scan found, what is connected, and the commands and events exchanged.
use vstd::prelude::*;

use crate::text::{chars_of, lemma_text_less_order, text_less, text_less_exec};

verus! {

/// Everything the window shows about the wireless state at one moment.
#[derive(Debug, Clone)]
pub struct AppSnapshot {
    pub primary_device_id: Option<String>,
    pub current_connection: Option<CurrentConnection>,
    pub visible_networks: Vec<AccessPointGroup>,
    pub wifi_available: bool,
    pub radio_enabled: bool,
    pub rfkill_blocked: bool,
    pub manager_running: bool,
    pub transient_error: Option<String>,
}

impl AppSnapshot {
    /// The snapshot of a machine about which nothing is known yet.
    pub open spec fn is_blank(self) -> bool {
        &&& self.primary_device_id is None
        &&& self.current_connection is None
        &&& self.visible_networks@.len() == 0
        &&& !self.wifi_available
        &&& !self.radio_enabled
        &&& !self.rfkill_blocked
        &&& !self.manager_running
        &&& self.transient_error is None
    }
}

impl Default for AppSnapshot {
    fn default() -> (s: Self)
        ensures
            s.is_blank(),
    {
        AppSnapshot {
            primary_device_id: None,
            current_connection: None,
            visible_networks: Vec::new(),
            wifi_available: false,
            radio_enabled: false,
            rfkill_blocked: false,
            manager_running: false,
            transient_error: None,
        }
    }
}

/// The network the primary device is connected to.
#[derive(Debug, Clone, PartialEq, Eq)]
pub struct CurrentConnection {
    pub device_id: String,
    pub ssid: String,
    pub signal: Option<u8>,
    pub security: SecurityKind,
    pub band_summary: String,
}

/// All access points that broadcast one SSID, seen as a single network.
#[derive(Debug, Clone, PartialEq, Eq)]
pub struct AccessPointGroup {
    pub ssid: String,
    pub device_id: String,
    pub signal: Option<u8>,
    pub security: SecurityKind,
    pub band_summary: String,
    pub known: bool,
    pub in_use: bool,
}

impl AccessPointGroup {
    /// A field-by-field copy.
    pub fn duplicate(&self) -> (r: Self)
        ensures
            r == *self,
    {
        AccessPointGroup {
            ssid: self.ssid.clone(),
            device_id: self.device_id.clone(),
            signal: self.signal,
            security: self.security,
            band_summary: self.band_summary.clone(),
            known: self.known,
            in_use: self.in_use,
        }
    }
}

/// A copy of an optional string.
pub fn duplicate_text(s: &Option<String>) -> (r: Option<String>)
    ensures
        r == *s,
{
    match s {
        Some(t) => Some(t.clone()),
        None => None,
    }
}

/// What the user asked to connect to.
#[derive(Debug, Clone, PartialEq, Eq)]
pub struct ConnectRequest {
    pub device_id: String,
    pub ssid: String,
    pub hidden: bool,
    pub security: SecurityKind,
    pub passphrase: Option<String>,
}

impl ConnectRequest {
    /// A field-by-field copy.
    pub fn duplicate(&self) -> (r: Self)
        ensures
            r == *self,
    {
        ConnectRequest {
            device_id: self.device_id.clone(),
            ssid: self.ssid.clone(),
            hidden: self.hidden,
            security: self.security,
            passphrase: duplicate_text(&self.passphrase),
        }
    }
}

/// A copy of an optional request.
pub fn duplicate_request(r: &Option<ConnectRequest>) -> (c: Option<ConnectRequest>)
    ensures
        c == *r,
{
    match r {
        Some(q) => Some(q.duplicate()),
        None => None,
    }
}

/// How a wireless network authenticates its clients.
#[derive(Debug, Clone, Copy, PartialEq, Eq)]
pub enum SecurityKind {
    Open,
    WpaPsk,
    Enterprise,
    Unknown,
}

impl Default for SecurityKind {
    fn default() -> (s: Self)
        ensures
            s == SecurityKind::Unknown,
    {
        SecurityKind::Unknown
    }
}

/// Joining a network of this kind takes a passphrase.
pub open spec fn passphrase_required(kind: SecurityKind) -> bool {
    kind == SecurityKind::WpaPsk || kind == SecurityKind::Unknown
}

/// The app can join a network of this kind.
pub open spec fn kind_supported(kind: SecurityKind) -> bool {
    kind != SecurityKind::Enterprise
}

/// The name under which a security kind is shown.
pub open spec fn security_label(kind: SecurityKind) -> Seq<char> {
    match kind {
        SecurityKind::Open => "Open"@,
        SecurityKind::WpaPsk => "WPA Personal"@,
        SecurityKind::Enterprise => "Enterprise"@,
        SecurityKind::Unknown => "Secured"@,
    }
}

impl SecurityKind {
    /// Joining such a network takes a passphrase: WPA Personal, and any
    /// secured network whose scheme was not recognised.
    pub fn requires_passphrase(self) -> (r: bool)
        ensures
            r == passphrase_required(self),
    {
        match self {
            SecurityKind::WpaPsk | SecurityKind::Unknown => true,
            _ => false,
        }
    }

    /// The app can join such a network: everything but enterprise (802.1X).
    pub fn is_supported(self) -> (r: bool)
        ensures
            r == kind_supported(self),
    {
        match self {
            SecurityKind::Enterprise => false,
            _ => true,
        }
    }

    pub fn label(self) -> (r: &'static str)
        ensures
            r@ == security_label(self),
    {
        match self {
            SecurityKind::Open => "Open",
            SecurityKind::WpaPsk => "WPA Personal",
            SecurityKind::Enterprise => "Enterprise",
            SecurityKind::Unknown => "Secured",
        }
    }

    /// The text under which the kind is displayed (its label).
    pub fn to_string(self) -> (r: String)
        ensures
            r@ == security_label(self),
    {
        self.label().to_owned()
    }
}

/// A request to the NetworkManager worker.
#[derive(Debug, Clone)]
pub enum WifiCommand {
    Refresh,
    Connect(ConnectRequest),
    Disconnect,
    Forget(String),
    Shutdown,
}

/// A report from the NetworkManager worker.
#[derive(Debug, Clone)]
pub enum WifiEvent {
    SnapshotUpdated(Box<AppSnapshot>),
    OperationStarted(String),
    OperationFinished(String),
    ErrorRaised(String),
}

/// A signal strength in percent, with "unknown" read as 0.
pub open spec fn signal_level(signal: Option<u8>) -> nat {
    match signal {
        Some(s) => s as nat,
        None => 0,
    }
}

/// The bar glyphs for a signal strength: one bar up to 20 %, then one more
/// bar for each further 20 %, and a full set above 80 %.
pub open spec fn signal_bars_text(signal: Option<u8>) -> Seq<char> {
    let level = signal_level(signal);
    if level <= 20 {
        "\u{2582}"@
    } else if level <= 40 {
        "\u{2582}\u{2584}"@
    } else if level <= 60 {
        "\u{2582}\u{2584}\u{2586}"@
    } else if level <= 80 {
        "\u{2582}\u{2584}\u{2586}\u{2588}"@
    } else {
        "\u{2588}\u{2586}\u{2588}"@
    }
}

/// The bar glyphs for a signal strength, in steps of 20 %.
pub fn signal_bars(signal: Option<u8>) -> (r: &'static str)
    ensures
        r@ == signal_bars_text(signal),
{
    let level: u8 = match signal {
        Some(s) => s,
        None => 0,
    };
    if level <= 20 {
        "\u{2582}"
    } else if level <= 40 {
        "\u{2582}\u{2584}"
    } else if level <= 60 {
        "\u{2582}\u{2584}\u{2586}"
    } else if level <= 80 {
        "\u{2582}\u{2584}\u{2586}\u{2588}"
    } else {
        "\u{2588}\u{2586}\u{2588}"
    }
}

/// The band of a frequency in MHz: 6 GHz from 5900, 5 GHz from 4900, 2.4 GHz
/// below that.
pub open spec fn band_text(frequency: Option<u32>) -> Seq<char> {
    match frequency {
        Some(freq) => if freq >= 5900 {
            "6 GHz"@
        } else if freq >= 4900 {
            "5 GHz"@
        } else {
            "2.4 GHz"@
        },
        None => "Unknown band"@,
    }
}

/// The band of a frequency in MHz (2.4 GHz, 5 GHz or 6 GHz), or `Unknown band`.
pub fn band_label(frequency: Option<u32>) -> (r: String)
    ensures
        r@ == band_text(frequency),
{
    match frequency {
        Some(freq) => if freq >= 5900 {
            "6 GHz".to_owned()
        } else if freq >= 4900 {
            "5 GHz".to_owned()
        } else {
            "2.4 GHz".to_owned()
        },
        None => "Unknown band".to_owned(),
    }
}


/// `a` is listed before `b`: the network in use first, then saved networks,
/// then stronger signals, then SSIDs in lexicographic order.
pub open spec fn ranks_before(a: AccessPointGroup, b: AccessPointGroup) -> bool {
    if a.in_use != b.in_use {
        a.in_use
    } else if a.known != b.known {
        a.known
    } else if signal_level(a.signal) != signal_level(b.signal) {
        signal_level(a.signal) > signal_level(b.signal)
    } else {
        text_less(a.ssid@, b.ssid@)
    }
}

/// `a` and `b` agree on everything the listing order looks at.
pub open spec fn same_rank(a: AccessPointGroup, b: AccessPointGroup) -> bool {
    &&& a.in_use == b.in_use
    &&& a.known == b.known
    &&& signal_level(a.signal) == signal_level(b.signal)
    &&& a.ssid@ == b.ssid@
}

/// No network is listed after one that ranks below it.
pub open spec fn is_ranked(s: Seq<AccessPointGroup>) -> bool {
    forall|i: int, j: int| 0 <= i < j < s.len() ==> !ranks_before(#[trigger] s[j], #[trigger] s[i])
}

/// Membership in the rank class of `k`.
pub open spec fn rank_pred(k: AccessPointGroup) -> spec_fn(AccessPointGroup) -> bool {
    |y: AccessPointGroup| same_rank(y, k)
}

/// The networks of `s` that rank the same as `k`, in their order in `s`.
pub open spec fn rank_class(s: Seq<AccessPointGroup>, k: AccessPointGroup) -> Seq<AccessPointGroup> {
    s.filter(rank_pred(k))
}

/// The listing order is a strict weak order whose ties are exactly the
/// networks of the same rank.
pub proof fn lemma_rank_order(a: AccessPointGroup, b: AccessPointGroup, c: AccessPointGroup)
    ensures
        !ranks_before(a, a),
        ranks_before(a, b) && ranks_before(b, c) ==> ranks_before(a, c),
        ranks_before(a, b) ==> !ranks_before(b, a),
        !same_rank(a, b) ==> ranks_before(a, b) || ranks_before(b, a),
        same_rank(a, b) ==> (ranks_before(a, c) == ranks_before(b, c) && ranks_before(c, a) == ranks_before(c, b)),
{
    lemma_text_less_order(a.ssid@, b.ssid@, c.ssid@);
    lemma_text_less_order(a.ssid@, a.ssid@, a.ssid@);
    lemma_text_less_order(b.ssid@, a.ssid@, b.ssid@);
}

fn ranks_before_exec(a: &AccessPointGroup, b: &AccessPointGroup) -> (r: bool)
    ensures
        r == ranks_before(*a, *b),
{
    if a.in_use != b.in_use {
        return a.in_use;
    }
    if a.known != b.known {
        return a.known;
    }
    let sa: u8 = match a.signal {
        Some(v) => v,
        None => 0,
    };
    let sb: u8 = match b.signal {
        Some(v) => v,
        None => 0,
    };
    if sa != sb {
        return sa > sb;
    }
    let ta = chars_of(a.ssid.as_str());
    let tb = chars_of(b.ssid.as_str());
    text_less_exec(&ta, &tb)
}

proof fn lemma_filter_none<A>(s: Seq<A>, pred: spec_fn(A) -> bool)
    requires
        forall|j: int| 0 <= j < s.len() ==> !pred(#[trigger] s[j]),
    ensures
        s.filter(pred) == Seq::<A>::empty(),
    decreases s.len(),
{
    reveal(Seq::filter);
    if s.len() > 0 {
        let t = s.drop_last();
        assert forall|j: int| 0 <= j < t.len() implies !pred(#[trigger] t[j]) by {
            assert(t[j] == s[j]);
        }
        lemma_filter_none(t, pred);
    }
}

proof fn lemma_filter_single<A>(x: A, pred: spec_fn(A) -> bool)
    ensures
        seq![x].filter(pred) == (if pred(x) { seq![x] } else { Seq::<A>::empty() }),
{
    reveal_with_fuel(Seq::filter, 2);
    assert(seq![x].drop_last() =~= Seq::<A>::empty());
}

proof fn lemma_filter_push<A>(s: Seq<A>, x: A, pred: spec_fn(A) -> bool)
    ensures
        s.push(x).filter(pred) == (if pred(x) { s.filter(pred).push(x) } else { s.filter(pred) }),
{
    reveal(Seq::filter);
    assert(s.push(x).drop_last() =~= s);
}

proof fn lemma_class_after_insert(s: Seq<AccessPointGroup>, p: int, x: AccessPointGroup, k: AccessPointGroup)
    requires
        0 <= p <= s.len(),
        forall|j: int| p <= j < s.len() ==> !same_rank(#[trigger] s[j], x),
    ensures
        rank_class(s.insert(p, x), k) == (if same_rank(x, k) {
            rank_class(s, k).push(x)
        } else {
            rank_class(s, k)
        }),
{
    let pred = rank_pred(k);
    let front = s.take(p);
    let back = s.skip(p);
    assert(s =~= front + back);
    assert(s.insert(p, x) =~= front + seq![x] + back);
    Seq::filter_distributes_over_add(front, back, pred);
    Seq::filter_distributes_over_add(front + seq![x], back, pred);
    Seq::filter_distributes_over_add(front, seq![x], pred);
    lemma_filter_single(x, pred);
    if same_rank(x, k) {
        assert forall|j: int| 0 <= j < back.len() implies !pred(#[trigger] back[j]) by {
            assert(back[j] == s[p + j]);
        }
        lemma_filter_none(back, pred);
        assert(front.filter(pred) + seq![x] =~= front.filter(pred).push(x));
        assert(front.filter(pred) + Seq::<AccessPointGroup>::empty() =~= front.filter(pred));
        assert(front.filter(pred).push(x) + Seq::<AccessPointGroup>::empty() =~= front.filter(pred).push(x));
    } else {
        assert(front.filter(pred) + Seq::<AccessPointGroup>::empty() =~= front.filter(pred));
    }
}

/// Inserts `x` after every network that does not rank below it.
fn insert_ranked(sorted: &mut Vec<AccessPointGroup>, x: AccessPointGroup)
    requires
        is_ranked(old(sorted)@),
    ensures
        is_ranked(final(sorted)@),
        final(sorted)@.len() == old(sorted)@.len() + 1,
        forall|k: AccessPointGroup| #[trigger] rank_class(final(sorted)@, k) == (if same_rank(x, k) {
            rank_class(old(sorted)@, k).push(x)
        } else {
            rank_class(old(sorted)@, k)
        }),
{
    let mut p: usize = 0;
    while p < sorted.len() && !ranks_before_exec(&x, &sorted[p])
        invariant
            p <= sorted.len(),
            forall|i: int| 0 <= i < p ==> !ranks_before(x, #[trigger] sorted@[i]),
        decreases sorted.len() - p,
    {
        p = p + 1;
    }
    let ghost s = sorted@;
    proof {
        assert forall|j: int| p <= j < s.len() implies !ranks_before(#[trigger] s[j], x) && !same_rank(s[j], x) by {
            lemma_rank_order(s[j], x, s[p as int]);
            lemma_rank_order(s[j], s[j], s[j]);
            if j > p {
                assert(!ranks_before(s[j], s[p as int]));
            }
        }
    }
    sorted.insert(p, x);
    proof {
        let t = sorted@;
        assert(t == s.insert(p as int, x));
        assert forall|i: int, j: int| 0 <= i < j < t.len() implies !ranks_before(#[trigger] t[j], #[trigger] t[i]) by {
            if j < p {
                assert(t[i] == s[i] && t[j] == s[j]);
            } else if j == p {
                assert(t[j] == x && t[i] == s[i]);
            } else if i == p {
                assert(t[i] == x && t[j] == s[j - 1]);
            } else if i < p {
                assert(t[i] == s[i] && t[j] == s[j - 1]);
            } else {
                assert(t[i] == s[i - 1] && t[j] == s[j - 1]);
            }
        }
        assert forall|k: AccessPointGroup| #[trigger] rank_class(t, k) == (if same_rank(x, k) {
            rank_class(s, k).push(x)
        } else {
            rank_class(s, k)
        }) by {
            lemma_class_after_insert(s, p as int, x, k);
        }
    }
}

/// Orders networks for display: the one in use first, then saved ones, then
/// by signal strength (strongest first), then by SSID. Networks that tie on
/// all of these keep their relative order.
pub fn group_networks(networks: Vec<AccessPointGroup>) -> (r: Vec<AccessPointGroup>)
    ensures
        r@.len() == networks@.len(),
        is_ranked(r@),
        forall|k: AccessPointGroup| #[trigger] rank_class(r@, k) == rank_class(networks@, k),
{
    let ghost input = networks@;
    let mut out: Vec<AccessPointGroup> = Vec::new();
    for x in it: networks
        invariant
            it.seq() == input,
            is_ranked(out@),
            out@.len() == it.index(),
            forall|k: AccessPointGroup| #[trigger] rank_class(out@, k) == rank_class(it.seq().take(it.index() as int), k),
    {
        let ghost before = out@;
        let ghost idx = it.index();
        insert_ranked(&mut out, x);
        proof {
            assert(it.seq().take(idx + 1) =~= it.seq().take(idx as int).push(x));
            assert forall|k: AccessPointGroup| #[trigger] rank_class(out@, k) == rank_class(it.seq().take(idx + 1), k) by {
                lemma_filter_push(it.seq().take(idx as int), x, rank_pred(k));
            }
        }
    }
    proof {
        assert(input.take(input.len() as int) =~= input);
    }
    out
}


proof fn lemma_class_cons(x: AccessPointGroup, rest: Seq<AccessPointGroup>, k: AccessPointGroup)
    ensures
        rank_class(seq![x] + rest, k) == (if same_rank(x, k) {
            seq![x] + rank_class(rest, k)
        } else {
            rank_class(rest, k)
        }),
{
    Seq::filter_distributes_over_add(seq![x], rest, rank_pred(k));
    lemma_filter_single(x, rank_pred(k));
    assert(Seq::<AccessPointGroup>::empty() + rank_class(rest, k) =~= rank_class(rest, k));
}

/// The display order, field by field: of two networks in a ranked list, a
/// later one is in use only if the earlier one is; among networks equally in
/// use, a later one is saved only if the earlier one is; among networks alike
/// in both, a later one never has a stronger signal (no reading counts as 0),
/// whatever their names; and among those with equal signal, a later SSID never
/// sorts before an earlier one.
pub proof fn lemma_ranked_list_order(s: Seq<AccessPointGroup>, i: int, j: int)
    requires
        is_ranked(s),
        0 <= i < j < s.len(),
    ensures
        s[j].in_use ==> s[i].in_use,
        s[i].in_use == s[j].in_use && s[j].known ==> s[i].known,
        s[i].in_use == s[j].in_use && s[i].known == s[j].known ==> (match s[j].signal {
            Some(v) => v as int,
            None => 0int,
        }) <= (match s[i].signal {
            Some(v) => v as int,
            None => 0int,
        }),
        s[i].in_use == s[j].in_use && s[i].known == s[j].known && (match s[j].signal {
            Some(v) => v as int,
            None => 0int,
        }) == (match s[i].signal {
            Some(v) => v as int,
            None => 0int,
        }) ==> !text_less(s[j].ssid@, s[i].ssid@),
{
    assert(!ranks_before(s[j], s[i]));
}

/// Two lists with the same rank classes hold the same networks: each network
/// of one occurs in the other.
pub proof fn lemma_same_classes_same_networks(r: Seq<AccessPointGroup>, s: Seq<AccessPointGroup>)
    requires
        forall|k: AccessPointGroup| #[trigger] rank_class(r, k) == rank_class(s, k),
    ensures
        forall|i: int| 0 <= i < r.len() ==> s.contains(#[trigger] r[i]),
        forall|j: int| 0 <= j < s.len() ==> r.contains(#[trigger] s[j]),
{
    assert forall|i: int| 0 <= i < r.len() implies s.contains(#[trigger] r[i]) by {
        let y = r[i];
        r.lemma_filter_contains(rank_pred(y), i);
        assert(rank_class(r, y) == rank_class(s, y));
        s.lemma_filter_contains_rev(rank_pred(y), y);
    }
    assert forall|j: int| 0 <= j < s.len() implies r.contains(#[trigger] s[j]) by {
        let y = s[j];
        s.lemma_filter_contains(rank_pred(y), j);
        assert(rank_class(r, y) == rank_class(s, y));
        r.lemma_filter_contains_rev(rank_pred(y), y);
    }
}

/// The display order is canonical: two ranked arrangements that hold the same
/// networks of each rank in the same order are the same list. In particular
/// ranking a list that is already ranked leaves it as it is.
pub proof fn lemma_ranking_is_canonical(a: Seq<AccessPointGroup>, b: Seq<AccessPointGroup>)
    requires
        is_ranked(a),
        is_ranked(b),
        forall|k: AccessPointGroup| #[trigger] rank_class(a, k) == rank_class(b, k),
    ensures
        a == b,
    decreases a.len(),
{
    if a.len() == 0 {
        if b.len() > 0 {
            b.lemma_filter_contains(rank_pred(b[0]), 0);
            assert(rank_class(a, b[0]) == rank_class(b, b[0]));
            lemma_filter_empty_seq(a, rank_pred(b[0]));
        }
        assert(a =~= b);
    } else if b.len() == 0 {
        a.lemma_filter_contains(rank_pred(a[0]), 0);
        assert(rank_class(a, a[0]) == rank_class(b, a[0]));
        lemma_filter_empty_seq(b, rank_pred(a[0]));
    } else {
        let x = a[0];
        let y = b[0];
        let ra = a.drop_first();
        let rb = b.drop_first();
        assert(a =~= seq![x] + ra);
        assert(b =~= seq![y] + rb);
        lemma_rank_order(x, y, x);
        // x occurs in b and y occurs in a, so neither ranks before the other.
        a.lemma_filter_contains(rank_pred(x), 0);
        assert(rank_class(a, x) == rank_class(b, x));
        b.lemma_filter_contains_rev(rank_pred(x), x);
        b.lemma_filter_contains(rank_pred(y), 0);
        assert(rank_class(a, y) == rank_class(b, y));
        a.lemma_filter_contains_rev(rank_pred(y), y);
        let jx = choose|j: int| 0 <= j < b.len() && b[j] == x;
        let jy = choose|j: int| 0 <= j < a.len() && a[j] == y;
        if ranks_before(x, y) {
            if jx > 0 {
                assert(!ranks_before(b[jx], b[0]));
            }
            lemma_rank_order(x, x, x);
        }
        if ranks_before(y, x) {
            if jy > 0 {
                assert(!ranks_before(a[jy], a[0]));
            }
            lemma_rank_order(y, y, y);
        }
        assert(same_rank(x, y));
        lemma_class_cons(x, ra, x);
        lemma_class_cons(y, rb, x);
        assert(rank_class(a, x)[0] == x);
        assert(rank_class(b, x)[0] == y);
        assert(x == y);
        assert forall|k: AccessPointGroup| #[trigger] rank_class(ra, k) == rank_class(rb, k) by {
            lemma_class_cons(x, ra, k);
            lemma_class_cons(x, rb, k);
            assert(rank_class(a, k) == rank_class(b, k));
            if same_rank(x, k) {
                assert(rank_class(ra, k) =~= rank_class(a, k).drop_first());
                assert(rank_class(rb, k) =~= rank_class(b, k).drop_first());
            }
        }
        assert forall|i: int, j: int| 0 <= i < j < ra.len() implies !ranks_before(#[trigger] ra[j], #[trigger] ra[i]) by {
            assert(ra[i] == a[i + 1] && ra[j] == a[j + 1]);
        }
        assert forall|i: int, j: int| 0 <= i < j < rb.len() implies !ranks_before(#[trigger] rb[j], #[trigger] rb[i]) by {
            assert(rb[i] == b[i + 1] && rb[j] == b[j + 1]);
        }
        lemma_ranking_is_canonical(ra, rb);
    }
}

proof fn lemma_filter_empty_seq<A>(s: Seq<A>, pred: spec_fn(A) -> bool)
    requires
        s.len() == 0,
    ensures
        s.filter(pred).len() == 0,
{
    reveal(Seq::filter);
}

} // verus!
