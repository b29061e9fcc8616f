//! Discovery by mDNS: what we announce, whom a resolved service stands for, and
//! whether the announcer sends more than it should.
//!
//! A service's instance name is the device id, and its TXT record holds `id`,
//! `name`, `type` and `protocol`. Nobody is dialed on account of a resolved
//! service: it only says who is where.

use vstd::prelude::*;

use crate::error::{Error, ErrorView};
use crate::net::{is_private, is_private_address, IpAddr};
use crate::outside::{
    escaped_label, info_addr_auto, info_fullname, info_host, info_port, info_txt, local_host_name,
    new_service_info, normal_host, service_error_text, txt_fits, txt_keys, txt_of, Announcement,
    ServicePlan,
};
use crate::packet::{Identity, DEFAULT_TCP_PORT};
use crate::protocol::device_id::{
    device_id_error, is_device_id, law_accepts_exactly_device_ids, validate_device_id,
};
use crate::table::Table;
use crate::text::{
    decimal, decimal_text, join2, lemma_decimal_spells, lemma_lex_total, lemma_lex_transitive,
    lex_lt, number_in, parse_u32, same_text, strip_suffix, suffix_stripped, text_before,
};

verus! {

/// KDE Connect's service type. It says UDP although links are made by TCP.
pub const SERVICE_TYPE: &'static str = "_kdeconnect._udp.local.";

/// How many packets in one sample make a storm.
pub const MDNS_STORM_THRESHOLD_PER_MIN: i64 = 600;

/// How often the announcer's counters are sampled, in seconds.
pub const MDNS_METRICS_SAMPLE_PERIOD_SECS: u64 = 60;

/// Whether a counter counts packets that were sent.
pub open spec fn is_send_counter(key: Seq<char>) -> bool {
    ||| key == "cache-refresh-addr"@
    ||| key == "cache-refresh-ptr"@
    ||| key == "cache-refresh-srv-txt"@
    ||| key == "register-resend"@
    ||| key == "respond"@
    ||| key == "unregister-resend"@
}

/// The value of a counter; one that is missing is zero.
pub open spec fn counter(metrics: Map<Seq<char>, i64>, key: Seq<char>) -> int {
    if metrics.contains_key(key) {
        metrics[key] as int
    } else {
        0
    }
}

/// By how much a counter moved, as far as 64 bits go.
pub open spec fn moved(prev: Map<Seq<char>, i64>, cur: Map<Seq<char>, i64>, key: Seq<char>) -> int {
    let d = counter(cur, key) - counter(prev, key);
    if d > i64::MAX {
        i64::MAX as int
    } else if d < i64::MIN {
        i64::MIN as int
    } else {
        d
    }
}

/// What one counter adds to the packets that were sent. One that went down was
/// reset, and adds nothing.
pub open spec fn sent_by(prev: Map<Seq<char>, i64>, cur: Map<Seq<char>, i64>, key: Seq<char>) -> int {
    if moved(prev, cur, key) > 0 {
        moved(prev, cur, key)
    } else {
        0
    }
}

/// How many packets were sent between two samples.
pub open spec fn sends_between(prev: Map<Seq<char>, i64>, cur: Map<Seq<char>, i64>) -> int {
    sent_by(prev, cur, "cache-refresh-addr"@) + sent_by(prev, cur, "cache-refresh-ptr"@) + sent_by(
        prev,
        cur,
        "cache-refresh-srv-txt"@,
    ) + sent_by(prev, cur, "register-resend"@) + sent_by(prev, cur, "respond"@) + sent_by(
        prev,
        cur,
        "unregister-resend"@,
    )
}

/// What moved between two samples, when it was a storm.
#[derive(Debug)]
pub struct StormReport {
    /// How many packets were sent.
    pub sends: i64,
    /// Every counter that went up, by name, with by how much.
    pub deltas: Vec<(String, i64)>,
}

/// `deltas` lists every counter that went up, once and in the order of names,
/// with by how much.
pub open spec fn lists_moves(
    deltas: Seq<(String, i64)>,
    prev: Map<Seq<char>, i64>,
    cur: Map<Seq<char>, i64>,
) -> bool {
    &&& in_order(deltas)
    &&& forall|i: int|
        0 <= i < deltas.len() ==> (#[trigger] deltas[i]).1 > 0 && deltas[i].1 == moved(
            prev,
            cur,
            deltas[i].0@,
        )
    &&& forall|key: Seq<char>|
        #[trigger] moved(prev, cur, key) > 0 ==> exists|i: int|
            0 <= i < deltas.len() && (#[trigger] deltas[i]).0@ == key
}

/// Names stand in strictly ascending order.
pub open spec fn in_order(deltas: Seq<(String, i64)>) -> bool {
    forall|i: int, j: int|
        #![trigger deltas[i], deltas[j]]
        0 <= i < j < deltas.len() ==> lex_lt(deltas[i].0@, deltas[j].0@)
}

/// The value of a counter; one that is missing is zero.
fn counter_value(metrics: &Table<i64>, key: &str) -> (r: i64)
    ensures
        r == counter(metrics@, key@),
{
    match metrics.get(key) {
        Some(v) => *v,
        None => 0,
    }
}

/// By how much a counter moved, as far as 64 bits go.
fn counter_move(prev: &Table<i64>, cur: &Table<i64>, key: &str) -> (r: i64)
    ensures
        r == moved(prev@, cur@, key@),
{
    let d: i128 = counter_value(cur, key) as i128 - counter_value(prev, key) as i128;
    if d > i64::MAX as i128 {
        i64::MAX
    } else if d < i64::MIN as i128 {
        i64::MIN
    } else {
        d as i64
    }
}

/// What one counter adds to the packets that were sent.
fn counter_sends(prev: &Table<i64>, cur: &Table<i64>, key: &str) -> (r: i128)
    ensures
        r == sent_by(prev@, cur@, key@),
        0 <= r <= i64::MAX,
{
    let d = counter_move(prev, cur, key);
    if d > 0 {
        d as i128
    } else {
        0
    }
}

/// How many packets were sent between two samples.
fn count_sends(prev: &Table<i64>, cur: &Table<i64>) -> (r: i128)
    ensures
        r == sends_between(prev@, cur@),
{
    counter_sends(prev, cur, "cache-refresh-addr") + counter_sends(prev, cur, "cache-refresh-ptr")
        + counter_sends(prev, cur, "cache-refresh-srv-txt") + counter_sends(
        prev,
        cur,
        "register-resend",
    ) + counter_sends(prev, cur, "respond") + counter_sends(prev, cur, "unregister-resend")
}

/// Whether the packets sent between two samples can be counted in 64 bits.
pub fn sends_are_countable(prev: &Table<i64>, cur: &Table<i64>) -> (r: bool)
    ensures
        r == (sends_between(prev@, cur@) <= i64::MAX),
{
    count_sends(prev, cur) <= i64::MAX as i128
}

/// Puts a counter that went up where its name belongs; one that is listed
/// already stays as it is.
fn list_move(deltas: &mut Vec<(String, i64)>, key: &String, delta: i64)
    requires
        in_order(old(deltas)@),
    ensures
        in_order(final(deltas)@),
        forall|i: int|
            0 <= i < final(deltas)@.len() ==> old(deltas)@.contains(#[trigger] final(deltas)@[i])
                || (final(deltas)@[i].0@ == key@ && final(deltas)@[i].1 == delta),
        forall|i: int|
            0 <= i < old(deltas)@.len() ==> final(deltas)@.contains(#[trigger] old(deltas)@[i]),
        exists|i: int| 0 <= i < final(deltas)@.len() && (#[trigger] final(deltas)@[i]).0@ == key@,
{
    let ghost before = deltas@;
    let mut at: usize = 0;
    while at < deltas.len() && text_before(deltas[at].0.as_str(), key.as_str())
        invariant
            deltas@ == before,
            at <= before.len(),
            forall|j: int| 0 <= j < at ==> lex_lt((#[trigger] before[j]).0@, key@),
        decreases before.len() - at,
    {
        at = at + 1;
    }
    if at < deltas.len() && same_text(deltas[at].0.as_str(), key.as_str()) {
        assert(deltas@[at as int].0@ == key@);
        assert forall|i: int| 0 <= i < before.len() implies deltas@.contains(
            #[trigger] before[i],
        ) by {
            assert(deltas@[i] == before[i]);
        }
        return;
    }
    proof {
        if at < before.len() {
            lemma_lex_total(before[at as int].0@, key@);
            assert forall|j: int| at <= j < before.len() implies lex_lt(
                key@,
                (#[trigger] before[j]).0@,
            ) by {
                if j > at {
                    lemma_lex_transitive(key@, before[at as int].0@, before[j].0@);
                }
            }
        }
    }
    deltas.insert(at, (key.clone(), delta));
    proof {
        let after = deltas@;
        assert(after[at as int].0@ == key@);
        assert forall|i: int, j: int|
            #![trigger after[i], after[j]]
            0 <= i < j < after.len() implies lex_lt(after[i].0@, after[j].0@) by {
            let i0 = if i < at { i } else { i - 1 };
            let j0 = if j < at { j } else { j - 1 };
            if i != at {
                assert(after[i] == before[i0]);
            }
            if j != at {
                assert(after[j] == before[j0]);
            }
        }
        assert forall|i: int| 0 <= i < after.len() implies before.contains(#[trigger] after[i]) || (
        after[i].0@ == key@ && after[i].1 == delta) by {
            if i < at {
                assert(before[i] == after[i]);
            } else if i > at {
                assert(before[i - 1] == after[i]);
            }
        }
        assert forall|i: int| 0 <= i < before.len() implies after.contains(#[trigger] before[i]) by {
            if i < at {
                assert(after[i] == before[i]);
            } else {
                assert(after[i + 1] == before[i]);
            }
        }
    }
}

/// Adds the counters of `keys` that went up.
fn list_moves_of(
    deltas: &mut Vec<(String, i64)>,
    keys: &Vec<String>,
    prev: &Table<i64>,
    cur: &Table<i64>,
)
    requires
        in_order(old(deltas)@),
        forall|i: int|
            0 <= i < old(deltas)@.len() ==> (#[trigger] old(deltas)@[i]).1 > 0 && old(deltas)@[i].1
                == moved(prev@, cur@, old(deltas)@[i].0@),
    ensures
        in_order(final(deltas)@),
        forall|i: int|
            0 <= i < final(deltas)@.len() ==> (#[trigger] final(deltas)@[i]).1 > 0
                && final(deltas)@[i].1 == moved(prev@, cur@, final(deltas)@[i].0@),
        forall|i: int|
            0 <= i < old(deltas)@.len() ==> final(deltas)@.contains(#[trigger] old(deltas)@[i]),
        forall|k: int|
            0 <= k < keys@.len() && moved(prev@, cur@, (#[trigger] keys@[k])@) > 0 ==> exists|i: int|
                0 <= i < final(deltas)@.len() && (#[trigger] final(deltas)@[i]).0@ == keys@[k]@,
{
    let ghost before = deltas@;
    assert forall|i: int| 0 <= i < before.len() implies deltas@.contains(#[trigger] before[i]) by {
        assert(deltas@[i] == before[i]);
    }
    let mut n: usize = 0;
    while n < keys.len()
        invariant
            n <= keys@.len(),
            in_order(deltas@),
            forall|i: int|
                0 <= i < deltas@.len() ==> (#[trigger] deltas@[i]).1 > 0 && deltas@[i].1 == moved(
                    prev@,
                    cur@,
                    deltas@[i].0@,
                ),
            forall|i: int| 0 <= i < before.len() ==> deltas@.contains(#[trigger] before[i]),
            forall|k: int|
                0 <= k < n && moved(prev@, cur@, (#[trigger] keys@[k])@) > 0 ==> exists|i: int|
                    0 <= i < deltas@.len() && (#[trigger] deltas@[i]).0@ == keys@[k]@,
        decreases keys@.len() - n,
    {
        let delta = counter_move(prev, cur, keys[n].as_str());
        if delta > 0 {
            let ghost mid = deltas@;
            list_move(deltas, &keys[n], delta);
            proof {
                assert forall|i: int| 0 <= i < deltas@.len() implies (#[trigger] deltas@[i]).1 > 0
                    && deltas@[i].1 == moved(prev@, cur@, deltas@[i].0@) by {
                    if mid.contains(deltas@[i]) {
                        let j = choose|j: int| 0 <= j < mid.len() && mid[j] == deltas@[i];
                        assert(mid[j].1 > 0);
                    }
                }
                assert forall|i: int| 0 <= i < before.len() implies deltas@.contains(
                    #[trigger] before[i],
                ) by {
                    let j = choose|j: int| 0 <= j < mid.len() && mid[j] == before[i];
                    assert(deltas@.contains(mid[j]));
                }
                assert forall|k: int|
                    0 <= k < n + 1 && moved(prev@, cur@, (#[trigger] keys@[k])@) > 0 implies exists|
                    i: int,
                | 0 <= i < deltas@.len() && (#[trigger] deltas@[i]).0@ == keys@[k]@ by {
                    if k < n {
                        let j = choose|j: int|
                            0 <= j < mid.len() && (#[trigger] mid[j]).0@ == keys@[k]@;
                        assert(deltas@.contains(mid[j]));
                        let i = choose|i: int| 0 <= i < deltas@.len() && deltas@[i] == mid[j];
                        assert(deltas@[i].0@ == keys@[k]@);
                    }
                }
            }
        }
        n = n + 1;
    }
}

/// What moved between two samples, where at least `threshold_per_sample` packets
/// were sent.
pub fn storm_verdict(prev: &Table<i64>, cur: &Table<i64>, threshold_per_sample: i64) -> (r: Option<
    StormReport,
>)
    requires
        sends_between(prev@, cur@) <= i64::MAX,
    ensures
        match r {
            Some(report) => report.sends == sends_between(prev@, cur@) && report.sends
                >= threshold_per_sample && lists_moves(report.deltas@, prev@, cur@),
            None => sends_between(prev@, cur@) < threshold_per_sample,
        },
{
    let sends: i64 = count_sends(prev, cur) as i64;
    if sends < threshold_per_sample {
        return None;
    }
    let mut deltas: Vec<(String, i64)> = Vec::new();
    let prev_keys = prev.keys();
    let cur_keys = cur.keys();
    list_moves_of(&mut deltas, &prev_keys, prev, cur);
    let ghost half = deltas@;
    list_moves_of(&mut deltas, &cur_keys, prev, cur);
    proof {
        assert forall|key: Seq<char>| #[trigger] moved(prev@, cur@, key) > 0 implies exists|i: int|
            0 <= i < deltas@.len() && (#[trigger] deltas@[i]).0@ == key by {
            if cur@.contains_key(key) {
                let k = choose|k: int| 0 <= k < cur_keys@.len() && (#[trigger] cur_keys@[k])@ == key;
                assert(moved(prev@, cur@, cur_keys@[k]@) > 0);
            } else {
                assert(prev@.contains_key(key));
                let k = choose|k: int|
                    0 <= k < prev_keys@.len() && (#[trigger] prev_keys@[k])@ == key;
                assert(moved(prev@, cur@, prev_keys@[k]@) > 0);
                let j = choose|j: int| 0 <= j < half.len() && (#[trigger] half[j]).0@ == key;
                assert(deltas@.contains(half[j]));
                let i = choose|i: int| 0 <= i < deltas@.len() && deltas@[i] == half[j];
                assert(deltas@[i].0@ == key);
            }
        }
    }
    Some(StormReport { sends, deltas })
}

/// The last sample of the announcer's counters.
pub struct Sampler {
    pub last: Option<Table<i64>>,
}

/// What a sample came to.
#[derive(Debug)]
pub enum Sample {
    /// There was none.
    Skipped,
    /// It is the first.
    Baseline,
    /// Nothing to report.
    Quiet,
    /// A storm.
    Storm(StormReport),
}

impl Sampler {
    /// A sampler without a sample.
    pub fn new() -> (r: Self)
        ensures
            r.last is None,
    {
        Sampler { last: None }
    }

    /// Takes a sample and holds it against the last one. Where there is none to
    /// take, the last one stays.
    pub fn sample_metrics(&mut self, snapshot: Option<Table<i64>>) -> (r: Sample)
        requires
            old(self).last matches Some(prev) && snapshot matches Some(cur) ==> sends_between(
                prev@,
                cur@,
            ) <= i64::MAX,
        ensures
            match (old(self).last, snapshot) {
                (_, None) => r is Skipped && final(self).last == old(self).last,
                (None, Some(cur)) => r is Baseline && final(self).last == Some(cur),
                (Some(prev), Some(cur)) => final(self).last == Some(cur) && if sends_between(
                    prev@,
                    cur@,
                ) >= MDNS_STORM_THRESHOLD_PER_MIN {
                    r matches Sample::Storm(report) && report.sends == sends_between(prev@, cur@)
                        && lists_moves(report.deltas@, prev@, cur@)
                } else {
                    r is Quiet
                },
            },
    {
        let cur = match snapshot {
            Some(cur) => cur,
            None => {
                return Sample::Skipped;
            },
        };
        let mut last: Option<Table<i64>> = None;
        std::mem::swap(&mut last, &mut self.last);
        match last {
            None => {
                self.last = Some(cur);
                Sample::Baseline
            },
            Some(prev) => {
                let verdict = storm_verdict(&prev, &cur, MDNS_STORM_THRESHOLD_PER_MIN);
                self.last = Some(cur);
                match verdict {
                    Some(report) => Sample::Storm(report),
                    None => Sample::Quiet,
                }
            },
        }
    }
}

/// The host name that is announced: the machine's, where it has one.
pub open spec fn announced_host(host: Option<Seq<char>>) -> Seq<char> {
    (match host {
        Some(h) => h,
        None => "rust-connect"@,
    }) + ".local."@
}

/// The TXT record that is announced for an identity.
pub open spec fn announced_txt(identity: Identity) -> Seq<(Seq<char>, Seq<char>)> {
    seq![
        ("id"@, identity.device_id@),
        ("name"@, identity.device_name@),
        ("type"@, identity.device_type@),
        ("protocol"@, decimal(identity.protocol_version as nat)),
    ]
}

/// The port that is announced for an identity.
pub open spec fn announced_port(identity: Identity) -> u16 {
    match identity.tcp_port {
        Some(port) => port,
        None => DEFAULT_TCP_PORT,
    }
}

/// What an identity is announced with, given the machine's name.
pub fn service_plan(identity: &Identity, host: Option<String>) -> (r: ServicePlan)
    ensures
        r.service_type@ == SERVICE_TYPE@,
        r.instance_name@ == identity.device_id@,
        r.host_name@ == announced_host(crate::error::text_of(host)),
        r.port == announced_port(*identity),
        txt_of(r.properties@) == announced_txt(*identity),
{
    let host_name = match host {
        Some(h) => join2(h.as_str(), ".local."),
        None => join2("rust-connect", ".local."),
    };
    let port: u16 = match identity.tcp_port {
        Some(port) => port,
        None => DEFAULT_TCP_PORT,
    };
    let mut properties: Vec<(String, String)> = Vec::new();
    properties.push(("id".to_owned(), identity.device_id.clone()));
    properties.push(("name".to_owned(), identity.device_name.clone()));
    properties.push(("type".to_owned(), identity.device_type.clone()));
    properties.push(("protocol".to_owned(), decimal_text(identity.protocol_version as u64)));
    assert(txt_of(properties@) =~= announced_txt(*identity));
    ServicePlan {
        service_type: SERVICE_TYPE.to_owned(),
        instance_name: identity.device_id.clone(),
        host_name,
        port,
        properties,
    }
}

/// Whether an announcement says what an identity is announced with on a machine
/// of the name `host`, and its description says the same and follows the
/// machine's addresses.
pub open spec fn announces(a: Announcement, identity: Identity, host: Option<Seq<char>>) -> bool {
    &&& a.fullname@ == escaped_label(identity.device_id@) + "."@ + SERVICE_TYPE@
    &&& a.host_name@ == normal_host(announced_host(host))
    &&& a.port == announced_port(identity)
    &&& txt_of(a.properties@) == announced_txt(identity)
    &&& info_fullname(a.info) == a.fullname@
    &&& info_host(a.info) == a.host_name@
    &&& info_port(a.info) == a.port
    &&& info_txt(a.info) == txt_of(a.properties@)
    &&& info_addr_auto(a.info)
}

/// Describes the service of an identity, on a machine of the name `host`: it
/// succeeds where its TXT record fits.
pub fn describe_service(identity: &Identity, host: Option<String>) -> (r: Result<
    Announcement,
    Error,
>)
    ensures
        match r {
            Ok(a) => txt_fits(announced_txt(*identity)) && announces(
                a,
                *identity,
                crate::error::text_of(host),
            ),
            Err(e) => !txt_fits(announced_txt(*identity)) && e@ == ErrorView::DiscoveryError(
                "Failed to build mDNS service info: "@ + service_error_text(
                    announced_txt(*identity),
                ),
            ),
        },
{
    let plan = service_plan(identity, host);
    assert(txt_keys(txt_of(plan.properties@)) =~= seq!["id"@, "name"@, "type"@, "protocol"@]);
    match new_service_info(&plan) {
        Ok(a) => Ok(a),
        Err(e) => Err(
            Error::DiscoveryError(join2("Failed to build mDNS service info: ", e.as_str())),
        ),
    }
}

/// Describes the service of an identity. The machine's name is whatever it is;
/// all else follows from the identity.
pub fn build_service_info(identity: &Identity) -> (r: Result<Announcement, Error>)
    ensures
        match r {
            Ok(a) => txt_fits(announced_txt(*identity)) && exists|host: Option<Seq<char>>|
                #[trigger] announces(a, *identity, host),
            Err(e) => !txt_fits(announced_txt(*identity)) && e@ == ErrorView::DiscoveryError(
                "Failed to build mDNS service info: "@ + service_error_text(
                    announced_txt(*identity),
                ),
            ),
        },
{
    describe_service(identity, local_host_name())
}

/// Remembers the name under which we are announced.
pub struct MdnsDiscoveryService {
    fullname: String,
}

impl MdnsDiscoveryService {
    /// The name under which we are announced.
    pub closed spec fn name(&self) -> Seq<char> {
        self.fullname@
    }

    /// A service that was announced.
    pub fn new(announcement: &Announcement) -> (r: Self)
        ensures
            r.name() == announcement.fullname@,
    {
        MdnsDiscoveryService { fullname: announcement.fullname.clone() }
    }

    /// Notes that the service was announced anew.
    pub fn reannounce(&mut self, announcement: &Announcement)
        ensures
            final(self).name() == announcement.fullname@,
    {
        self.fullname = announcement.fullname.clone();
    }

    /// The name to be withdrawn when announcing stops or starts anew.
    pub fn stop_announcing(&self) -> (r: String)
        ensures
            r@ == self.name(),
    {
        self.fullname.clone()
    }
}

/// What is known of a resolved service.
pub struct ServiceView {
    pub fullname: String,
    pub port: u16,
    pub addresses: Vec<IpAddr>,
    /// Its TXT record.
    pub txt: Table<String>,
}

/// Who a resolved service stands for and where it is. Its port is known, but
/// nobody is to dial it.
#[derive(Debug)]
pub struct MdnsPeer {
    pub device_id: String,
    pub device_name: String,
    pub device_type: String,
    pub protocol_version: u32,
    pub address: IpAddr,
    pub srv_port: u16,
}

/// A peer by its contents.
pub struct PeerView {
    pub device_id: Seq<char>,
    pub device_name: Seq<char>,
    pub device_type: Seq<char>,
    pub protocol_version: u32,
    pub address: IpAddr,
    pub srv_port: u16,
}

impl View for MdnsPeer {
    type V = PeerView;

    open spec fn view(&self) -> PeerView {
        PeerView {
            device_id: self.device_id@,
            device_name: self.device_name@,
            device_type: self.device_type@,
            protocol_version: self.protocol_version,
            address: self.address,
            srv_port: self.srv_port,
        }
    }
}

/// Whether a peer can be reached at an address: a private one of IPv4, which is
/// what we listen on.
pub open spec fn is_usable(ip: IpAddr) -> bool {
    ip is V4 && is_private(ip)
}

/// Whether a peer can be reached at an address.
pub fn usable_peer_address(ip: &IpAddr) -> (r: bool)
    ensures
        r == is_usable(*ip),
{
    match ip {
        IpAddr::V4(_) => is_private_address(ip),
        IpAddr::V6(_) => false,
    }
}

/// The first address at which a peer can be reached.
pub open spec fn first_usable(addresses: Seq<IpAddr>) -> Option<IpAddr>
    decreases addresses.len(),
{
    if addresses.len() == 0 {
        None
    } else if is_usable(addresses[0]) {
        Some(addresses[0])
    } else {
        first_usable(addresses.drop_first())
    }
}

/// The instance name in a full name.
pub open spec fn instance_name(fullname: Seq<char>) -> Seq<char> {
    match strip_suffix(fullname, SERVICE_TYPE@) {
        Some(prefix) => match strip_suffix(prefix, "."@) {
            Some(name) => name,
            None => fullname,
        },
        None => fullname,
    }
}

/// The value of a key of a TXT record.
pub open spec fn txt_value(txt: Map<Seq<char>, String>, key: Seq<char>) -> Option<Seq<char>> {
    if txt.contains_key(key) {
        Some(txt[key]@)
    } else {
        None
    }
}

/// A value, or what stands in for it.
pub open spec fn or_else(value: Option<Seq<char>>, default: Seq<char>) -> Seq<char> {
    match value {
        Some(v) => v,
        None => default,
    }
}

/// Who a resolved service stands for: nobody where its device id or its
/// protocol version is missing or malformed, or where it cannot be reached.
pub open spec fn peer_of(
    fullname: Seq<char>,
    port: u16,
    addresses: Seq<IpAddr>,
    txt: Map<Seq<char>, String>,
) -> Option<PeerView> {
    let id = or_else(txt_value(txt, "id"@), instance_name(fullname));
    if device_id_error(id) is Some {
        None
    } else {
        match txt_value(txt, "protocol"@) {
            None => None,
            Some(text) => match (number_in(text, u32::MAX as nat), first_usable(addresses)) {
                (Some(version), Some(address)) => Some(
                    PeerView {
                        device_id: id,
                        device_name: or_else(txt_value(txt, "name"@), id),
                        device_type: or_else(txt_value(txt, "type"@), "desktop"@),
                        protocol_version: version as u32,
                        address,
                        srv_port: port,
                    },
                ),
                _ => None,
            },
        }
    }
}

/// Why a resolved service that stands for nobody was passed over.
pub open spec fn skip_reason(addresses: Seq<IpAddr>) -> Seq<char> {
    if (exists|i: int| 0 <= i < addresses.len() && (#[trigger] addresses[i]) is V6) && !(exists|
        i: int,
    | 0 <= i < addresses.len() && is_usable(#[trigger] addresses[i])) {
        "ipv6_only"@
    } else {
        "unusable"@
    }
}

/// Why a resolved service that stands for nobody was passed over: it has
/// nothing but IPv6, or it is of no use otherwise.
pub fn resolve_skip_reason(addresses: &Vec<IpAddr>) -> (r: &'static str)
    ensures
        r@ == skip_reason(addresses@),
{
    let mut v6 = false;
    let mut usable = false;
    let mut i: usize = 0;
    while i < addresses.len()
        invariant
            i <= addresses@.len(),
            v6 == exists|j: int| 0 <= j < i && (#[trigger] addresses@[j]) is V6,
            usable == exists|j: int| 0 <= j < i && is_usable(#[trigger] addresses@[j]),
        decreases addresses@.len() - i,
    {
        let ghost (v6_before, usable_before) = (v6, usable);
        let here_v6 = match &addresses[i] {
            IpAddr::V6(_) => true,
            IpAddr::V4(_) => false,
        };
        let here_usable = usable_peer_address(&addresses[i]);
        if here_v6 {
            v6 = true;
            assert(addresses@[i as int] is V6);
        }
        if here_usable {
            usable = true;
            assert(is_usable(addresses@[i as int]));
        }
        i = i + 1;
    }
    if v6 && !usable {
        "ipv6_only"
    } else {
        "unusable"
    }
}

/// The first address at which a peer can be reached.
fn find_usable(addresses: &Vec<IpAddr>) -> (r: Option<IpAddr>)
    ensures
        r == first_usable(addresses@),
{
    let mut i: usize = 0;
    assert(addresses@.skip(0) =~= addresses@);
    while i < addresses.len()
        invariant
            i <= addresses@.len(),
            first_usable(addresses@) == first_usable(addresses@.skip(i as int)),
        decreases addresses@.len() - i,
    {
        assert(addresses@.skip(i as int)[0] == addresses@[i as int]);
        if usable_peer_address(&addresses[i]) {
            return Some(addresses[i]);
        }
        assert(addresses@.skip(i as int).drop_first() =~= addresses@.skip(i + 1));
        i = i + 1;
    }
    None
}

/// The instance name in a full name.
fn instance_of(fullname: &str) -> (r: String)
    ensures
        r@ == instance_name(fullname@),
{
    match suffix_stripped(fullname, SERVICE_TYPE) {
        Some(prefix) => match suffix_stripped(prefix.as_str(), ".") {
            Some(name) => name,
            None => fullname.to_owned(),
        },
        None => fullname.to_owned(),
    }
}

/// Who a resolved service stands for.
pub fn resolved_to_peer(service: &ServiceView) -> (r: Option<MdnsPeer>)
    ensures
        match r {
            Some(peer) => peer_of(
                service.fullname@,
                service.port,
                service.addresses@,
                service.txt@,
            ) == Some(peer@),
            None => peer_of(
                service.fullname@,
                service.port,
                service.addresses@,
                service.txt@,
            ) is None,
        },
{
    let device_id = match service.txt.get("id") {
        Some(id) => id.clone(),
        None => instance_of(service.fullname.as_str()),
    };
    if validate_device_id(device_id.as_str()).is_err() {
        return None;
    }
    let protocol_version = match service.txt.get("protocol") {
        Some(text) => match parse_u32(text.as_str()) {
            Some(version) => version,
            None => {
                return None;
            },
        },
        None => {
            return None;
        },
    };
    let device_name = match service.txt.get("name") {
        Some(name) => name.clone(),
        None => device_id.clone(),
    };
    let device_type = match service.txt.get("type") {
        Some(kind) => kind.clone(),
        None => "desktop".to_owned(),
    };
    match find_usable(&service.addresses) {
        Some(address) => Some(
            MdnsPeer {
                device_id,
                device_name,
                device_type,
                protocol_version,
                address,
                srv_port: service.port,
            },
        ),
        None => None,
    }
}

/// What the first usable address is.
proof fn lemma_first_usable(addresses: Seq<IpAddr>)
    ensures
        first_usable(addresses) is Some <==> exists|i: int|
            0 <= i < addresses.len() && is_usable(#[trigger] addresses[i]),
        first_usable(addresses) matches Some(a) ==> is_usable(a) && addresses.contains(a),
    decreases addresses.len(),
{
    if addresses.len() > 0 {
        let rest = addresses.drop_first();
        lemma_first_usable(rest);
        if is_usable(addresses[0]) {
            assert(addresses.contains(addresses[0]));
        } else {
            if first_usable(rest) is Some {
                let i = choose|i: int| 0 <= i < rest.len() && is_usable(#[trigger] rest[i]);
                assert(is_usable(addresses[i + 1]));
                let a = first_usable(rest)->0;
                let j = choose|j: int| 0 <= j < rest.len() && rest[j] == a;
                assert(addresses[j + 1] == a);
            }
            if exists|i: int| 0 <= i < addresses.len() && is_usable(#[trigger] addresses[i]) {
                let i = choose|i: int| 0 <= i < addresses.len() && is_usable(#[trigger] addresses[i]);
                assert(is_usable(rest[i - 1]));
            }
        }
    }
}

/// A peer is only ever given a private address of IPv4, out of those that were
/// resolved.
pub proof fn law_peers_are_reachable(
    fullname: Seq<char>,
    port: u16,
    addresses: Seq<IpAddr>,
    txt: Map<Seq<char>, String>,
)
    ensures
        peer_of(fullname, port, addresses, txt) matches Some(peer) ==> peer.address is V4
            && is_private(peer.address) && addresses.contains(peer.address) && is_device_id(
            peer.device_id,
        ),
{
    lemma_first_usable(addresses);
    law_accepts_exactly_device_ids(or_else(txt_value(txt, "id"@), instance_name(fullname)));
}

/// A service that stands for a peer is never said to have nothing but IPv6.
pub proof fn law_skip_reason_never_contradicts(
    fullname: Seq<char>,
    port: u16,
    addresses: Seq<IpAddr>,
    txt: Map<Seq<char>, String>,
)
    ensures
        skip_reason(addresses) == "ipv6_only"@ ==> peer_of(fullname, port, addresses, txt) is None,
{
    lemma_first_usable(addresses);
    reveal_strlit("ipv6_only");
    reveal_strlit("unusable");
    assert("ipv6_only"@.len() != "unusable"@.len());
}

/// A name without dots and backslashes is its own label.
proof fn lemma_plain_label(name: Seq<char>)
    requires
        forall|i: int| 0 <= i < name.len() ==> (#[trigger] name[i]) != '.' && name[i] != '\\',
    ensures
        escaped_label(name) == name,
    decreases name.len(),
{
    if name.len() > 0 {
        let rest = name.drop_last();
        assert forall|i: int| 0 <= i < rest.len() implies (#[trigger] rest[i]) != '.' && rest[i]
            != '\\' by {
            assert(rest[i] == name[i]);
        }
        lemma_plain_label(rest);
        assert(name =~= rest + seq![name.last()]);
    }
}

/// Whoever resolves what an identity is announced with, from an address of the
/// local network, finds that identity, even where the TXT record lost its id.
pub proof fn law_announced_identity_is_found(
    identity: Identity,
    addresses: Seq<IpAddr>,
    txt: Map<Seq<char>, String>,
)
    requires
        is_device_id(identity.device_id@),
        first_usable(addresses) is Some,
        forall|i: int|
            1 <= i < announced_txt(identity).len() ==> txt_value(
                txt,
                (#[trigger] announced_txt(identity)[i]).0,
            ) == Some(announced_txt(identity)[i].1),
        txt_value(txt, "id"@) is None || txt_value(txt, "id"@) == Some(identity.device_id@),
    ensures
        peer_of(
            escaped_label(identity.device_id@) + "."@ + SERVICE_TYPE@,
            announced_port(identity),
            addresses,
            txt,
        ) == Some(
            PeerView {
                device_id: identity.device_id@,
                device_name: identity.device_name@,
                device_type: identity.device_type@,
                protocol_version: identity.protocol_version,
                address: first_usable(addresses)->0,
                srv_port: announced_port(identity),
            },
        ),
{
    let id = identity.device_id@;
    law_accepts_exactly_device_ids(id);
    assert forall|i: int| 0 <= i < id.len() implies (#[trigger] id[i]) != '.' && id[i] != '\\' by {
        assert(crate::protocol::device_id::is_id_char(id[i]));
    }
    lemma_plain_label(id);
    let fullname = id + "."@ + SERVICE_TYPE@;
    let prefix = id + "."@;
    assert(fullname.subrange((fullname.len() - SERVICE_TYPE@.len()) as int, fullname.len() as int)
        =~= SERVICE_TYPE@);
    assert(fullname.take(fullname.len() - SERVICE_TYPE@.len()) =~= prefix);
    assert(prefix.subrange((prefix.len() - "."@.len()) as int, prefix.len() as int) =~= "."@);
    assert(prefix.take(prefix.len() - "."@.len()) =~= id);
    assert(instance_name(fullname) == id);
    lemma_decimal_spells(identity.protocol_version as nat, u32::MAX as nat);
    let t = announced_txt(identity);
    assert(txt_value(txt, t[1].0) == Some(t[1].1));
    assert(txt_value(txt, t[2].0) == Some(t[2].1));
    assert(txt_value(txt, t[3].0) == Some(t[3].1));
}

/// Counters that were reset add nothing, and nothing that is no counter of sent
/// packets does.
pub proof fn law_only_sent_packets_make_a_storm(
    prev: Map<Seq<char>, i64>,
    cur: Map<Seq<char>, i64>,
)
    requires
        forall|key: Seq<char>| is_send_counter(key) ==> #[trigger] moved(prev, cur, key) <= 0,
    ensures
        sends_between(prev, cur) == 0,
{
    assert(moved(prev, cur, "cache-refresh-addr"@) <= 0);
    assert(moved(prev, cur, "cache-refresh-ptr"@) <= 0);
    assert(moved(prev, cur, "cache-refresh-srv-txt"@) <= 0);
    assert(moved(prev, cur, "register-resend"@) <= 0);
    assert(moved(prev, cur, "respond"@) <= 0);
    assert(moved(prev, cur, "unregister-resend"@) <= 0);
}

/// The six counters of sent packets have six names.
proof fn lemma_send_counters_differ()
    ensures
        "cache-refresh-addr"@ != "cache-refresh-ptr"@,
        "cache-refresh-addr"@ != "cache-refresh-srv-txt"@,
        "cache-refresh-addr"@ != "register-resend"@,
        "cache-refresh-addr"@ != "respond"@,
        "cache-refresh-addr"@ != "unregister-resend"@,
        "cache-refresh-ptr"@ != "cache-refresh-srv-txt"@,
        "cache-refresh-ptr"@ != "register-resend"@,
        "cache-refresh-ptr"@ != "respond"@,
        "cache-refresh-ptr"@ != "unregister-resend"@,
        "cache-refresh-srv-txt"@ != "register-resend"@,
        "cache-refresh-srv-txt"@ != "respond"@,
        "cache-refresh-srv-txt"@ != "unregister-resend"@,
        "register-resend"@ != "respond"@,
        "register-resend"@ != "unregister-resend"@,
        "respond"@ != "unregister-resend"@,
{
    reveal_strlit("cache-refresh-addr");
    reveal_strlit("cache-refresh-ptr");
    reveal_strlit("cache-refresh-srv-txt");
    reveal_strlit("register-resend");
    reveal_strlit("respond");
    reveal_strlit("unregister-resend");
    assert("cache-refresh-addr"@.len() == 18);
    assert("cache-refresh-ptr"@.len() == 17);
    assert("cache-refresh-srv-txt"@.len() == 21);
    assert("register-resend"@.len() == 15);
    assert("respond"@.len() == 7);
    assert("unregister-resend"@.len() == 17);
    assert("cache-refresh-ptr"@[0] != "unregister-resend"@[0]);
}

/// A counter moves by the difference of its two values, where a missing one is
/// zero, as far as 64 bits go.
pub proof fn law_counters_move_by_their_difference(
    prev: Map<Seq<char>, i64>,
    cur: Map<Seq<char>, i64>,
    key: Seq<char>,
)
    ensures
        ({
            let before = if prev.contains_key(key) {
                prev[key] as int
            } else {
                0
            };
            let after = if cur.contains_key(key) {
                cur[key] as int
            } else {
                0
            };
            let d = after - before;
            &&& i64::MIN <= d <= i64::MAX ==> moved(prev, cur, key) == d
            &&& d > i64::MAX ==> moved(prev, cur, key) == i64::MAX
            &&& d < i64::MIN ==> moved(prev, cur, key) == i64::MIN
        }),
{
}

/// Each of the six counters of sent packets counts what it moved by, and no other
/// counter counts: a counter that grew by `n` between two otherwise equal samples
/// makes `n` sends if it is one of the six, and none if it is not; one that fell
/// makes none.
#[verifier::spinoff_prover]
pub proof fn law_sends_are_what_the_send_counters_moved_by(
    prev: Map<Seq<char>, i64>,
    key: Seq<char>,
    n: int,
)
    requires
        prev.contains_key(key),
        i64::MIN <= prev[key] + n <= i64::MAX,
        i64::MIN <= n <= i64::MAX,
    ensures
        ({
            let counts = key == "cache-refresh-addr"@ || key == "cache-refresh-ptr"@ || key
                == "cache-refresh-srv-txt"@ || key == "register-resend"@ || key == "respond"@ || key
                == "unregister-resend"@;
            sends_between(prev, prev.insert(key, (prev[key] + n) as i64)) == (if counts && n > 0 {
                n
            } else {
                0
            })
        }),
{
    lemma_send_counters_differ();
    lemma_other_counters_stay(prev, prev, key, (prev[key] + n) as i64);
}

/// What one counter adds to the sends does not depend on the others: where only
/// `key` differs between two later samples, the sends differ by what `key` adds.
#[verifier::spinoff_prover]
pub proof fn law_send_counters_add_up(
    prev: Map<Seq<char>, i64>,
    cur: Map<Seq<char>, i64>,
    key: Seq<char>,
    value: i64,
)
    requires
        key == "cache-refresh-addr"@ || key == "cache-refresh-ptr"@ || key
            == "cache-refresh-srv-txt"@ || key == "register-resend"@ || key == "respond"@ || key
            == "unregister-resend"@,
    ensures
        ({
            let later = cur.insert(key, value);
            let (a, b) = (moved(prev, cur, key), moved(prev, later, key));
            sends_between(prev, later) - sends_between(prev, cur) == (if b > 0 {
                b
            } else {
                0
            }) - (if a > 0 {
                a
            } else {
                0
            })
        }),
{
    lemma_send_counters_differ();
    lemma_other_counters_stay(prev, cur, key, value);
}

/// A new value of one counter moves no other.
proof fn lemma_other_counters_stay(
    prev: Map<Seq<char>, i64>,
    cur: Map<Seq<char>, i64>,
    key: Seq<char>,
    value: i64,
)
    ensures
        forall|other: Seq<char>|
            other != key ==> #[trigger] sent_by(prev, cur.insert(key, value), other) == sent_by(
                prev,
                cur,
                other,
            ),
{
}

/// A report lists exactly the counters that grew, each once, in the order of
/// their names, and each with what it grew by.
pub proof fn law_reports_list_what_grew(
    deltas: Seq<(String, i64)>,
    prev: Map<Seq<char>, i64>,
    cur: Map<Seq<char>, i64>,
    key: Seq<char>,
)
    requires
        lists_moves(deltas, prev, cur),
    ensures
        (exists|i: int| 0 <= i < deltas.len() && (#[trigger] deltas[i]).0@ == key) <==> moved(
            prev,
            cur,
            key,
        ) > 0,
        forall|i: int|
            0 <= i < deltas.len() && (#[trigger] deltas[i]).0@ == key ==> deltas[i].1 == moved(
                prev,
                cur,
                key,
            ),
        forall|i: int, j: int|
            #![trigger deltas[i], deltas[j]]
            0 <= i < j < deltas.len() ==> lex_lt(deltas[i].0@, deltas[j].0@),
{
}

/// A service is announced under the host's name in the local domain, with the
/// identity's port or 1716, and with the identity's id, name, type and protocol
/// version.
pub proof fn law_announcements_say_who_we_are(identity: Identity, host: Option<Seq<char>>)
    ensures
        host matches Some(h) ==> announced_host(host) == h + ".local."@,
        host is None ==> announced_host(host) == "rust-connect"@ + ".local."@,
        identity.tcp_port matches Some(p) ==> announced_port(identity) == p,
        identity.tcp_port is None ==> announced_port(identity) == 1716,
        announced_txt(identity).len() == 4,
        announced_txt(identity)[0].0 == "id"@ && announced_txt(identity)[0].1
            == identity.device_id@,
        announced_txt(identity)[1].0 == "name"@ && announced_txt(identity)[1].1
            == identity.device_name@,
        announced_txt(identity)[2].0 == "type"@ && announced_txt(identity)[2].1
            == identity.device_type@,
        announced_txt(identity)[3].0 == "protocol"@ && announced_txt(identity)[3].1 == decimal(
            identity.protocol_version as nat,
        ),
{
}

/// What is announced is what the description holds: its name, host, port and TXT
/// record are those of the identity, and its addresses follow the machine.
pub proof fn law_descriptions_hold_what_is_announced(
    a: Announcement,
    identity: Identity,
    host: Option<Seq<char>>,
)
    requires
        announces(a, identity, host),
    ensures
        info_fullname(a.info) == escaped_label(identity.device_id@) + "."@
            + "_kdeconnect._udp.local."@,
        info_host(a.info) == normal_host(announced_host(host)),
        info_port(a.info) == announced_port(identity),
        info_txt(a.info) == announced_txt(identity),
        info_addr_auto(a.info),
        a.fullname@ == info_fullname(a.info),
{
}

/// A label escapes dots and backslashes with a backslash, and nothing else.
pub proof fn law_labels_escape_dots_and_backslashes(name: Seq<char>, c: char)
    ensures
        escaped_label(Seq::<char>::empty()) == Seq::<char>::empty(),
        c == '.' || c == '\\' ==> escaped_label(name.push(c)) == escaped_label(name) + seq![
            '\\',
            c,
        ],
        c != '.' && c != '\\' ==> escaped_label(name.push(c)) == escaped_label(name) + seq![c],
{
    assert(name.push(c).drop_last() =~= name);
}

/// A peer can be reached at an address of IPv4 of the local network, by its
/// octets, and at no address of IPv6.
pub proof fn law_usable_addresses_by_octets(addr: u32, a: u8, b: u8, c: u8, d: u8, six: u128)
    requires
        addr == a * 0x100_0000 + b * 0x1_0000 + c * 0x100 + d,
    ensures
        is_usable(IpAddr::V4(addr)) <==> {
            ||| a == 127
            ||| a == 10
            ||| a == 172 && 16 <= b < 32
            ||| a == 192 && b == 168
            ||| a == 169 && b == 254
            ||| a == 100 && 64 <= b < 128
        },
        !is_usable(IpAddr::V6(six)),
{
    crate::net::law_private_ipv4_by_octets(addr, a, b, c, d);
}

/// The first address that can be used is the one before which none can.
pub proof fn law_first_usable_address_is_first(addresses: Seq<IpAddr>, i: int)
    requires
        0 <= i <= addresses.len(),
        forall|j: int| 0 <= j < i ==> !is_usable(#[trigger] addresses[j]),
        i < addresses.len() ==> is_usable(addresses[i]),
    ensures
        i < addresses.len() ==> first_usable(addresses) == Some(addresses[i]),
        i == addresses.len() ==> first_usable(addresses) is None,
    decreases addresses.len(),
{
    if i > 0 {
        assert(!is_usable(addresses[0]));
        let rest = addresses.drop_first();
        assert forall|j: int| 0 <= j < i - 1 implies !is_usable(#[trigger] rest[j]) by {
            assert(rest[j] == addresses[j + 1]);
        }
        law_first_usable_address_is_first(rest, i - 1);
    }
}

/// The name of an instance is what stands before the dot and the service type,
/// and the full name where it does not end in these.
pub proof fn law_instance_names_stand_before_the_type(name: Seq<char>, fullname: Seq<char>)
    ensures
        instance_name(name + "."@ + "_kdeconnect._udp.local."@) == name,
        !("."@ + "_kdeconnect._udp.local."@).is_suffix_of(fullname) ==> instance_name(fullname)
            == fullname,
{
    let ty = "_kdeconnect._udp.local."@;
    crate::text_laws::law_suffixes_come_off(fullname, ty, name + "."@);
    crate::text_laws::law_suffixes_come_off(name + "."@, "."@, name);
    if let Some(prefix) = strip_suffix(fullname, ty) {
        crate::text_laws::law_suffixes_come_off(prefix, "."@, name);
        if let Some(rest) = strip_suffix(prefix, "."@) {
            assert(fullname =~= rest + ("."@ + ty));
            assert(fullname.subrange(rest.len() as int, fullname.len() as int) =~= "."@ + ty);
            assert(("."@ + ty).is_suffix_of(fullname));
        }
    }
}

/// A service stands for a peer if and only if its id is a device id, its protocol
/// version is a number, and one of its addresses can be used; the id falls back
/// to the instance's name, the name to the id and the type to a desktop.
pub proof fn law_services_stand_for_peers(
    fullname: Seq<char>,
    port: u16,
    addresses: Seq<IpAddr>,
    txt: Map<Seq<char>, String>,
)
    ensures
        ({
            let id = if txt.contains_key("id"@) {
                txt["id"@]@
            } else {
                instance_name(fullname)
            };
            let version = number_in(txt["protocol"@]@, u32::MAX as nat);
            let peer = peer_of(fullname, port, addresses, txt);
            &&& peer is Some <==> is_device_id(id) && txt.contains_key("protocol"@) && version
                is Some && first_usable(addresses) is Some
            &&& peer matches Some(p) ==> {
                &&& p.device_id == id
                &&& p.device_name == (if txt.contains_key("name"@) {
                    txt["name"@]@
                } else {
                    id
                })
                &&& p.device_type == (if txt.contains_key("type"@) {
                    txt["type"@]@
                } else {
                    "desktop"@
                })
                &&& Some(p.protocol_version as nat) == version
                &&& Some(p.address) == first_usable(addresses)
                &&& p.srv_port == port
            }
        }),
{
    law_accepts_exactly_device_ids(or_else(txt_value(txt, "id"@), instance_name(fullname)));
}

/// A service is passed over for having nothing but IPv6 if and only if it has an
/// address of IPv6 and none that can be used.
pub proof fn law_skip_reasons_by_address(addresses: Seq<IpAddr>)
    ensures
        ({
            let six = exists|i: int|
                0 <= i < addresses.len() && ((#[trigger] addresses[i]) is V6);
            &&& skip_reason(addresses) == "ipv6_only"@ <==> six && first_usable(addresses) is None
            &&& skip_reason(addresses) == "unusable"@ <==> !six || first_usable(addresses) is Some
        }),
{
    lemma_first_usable(addresses);
    reveal_strlit("ipv6_only");
    reveal_strlit("unusable");
    assert("ipv6_only"@.len() != "unusable"@.len());
}

} // verus!
