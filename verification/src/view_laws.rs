//! What values are seen as: every part under its own name, and nothing lost; and
//! the limits that the daemon keeps.

use vstd::prelude::*;

use crate::error::{text_of, Error, ErrorView};
use crate::net::SocketAddr;
use crate::outside::{byte_strings, in_calendar, names_of, txt_of, Moment};
use crate::packet::{Identity, Packet};
use crate::plugins::systemvolume::backend::{
    after_op, can_make, channel_volumes, event_views, mock_outcome, BackendOp, EventView, MockView,
    OpView, SubscribeEvent,
};
use crate::plugins::systemvolume::plugin::{
    is_action, planned, PlannedOp, RequestView, VolumeAction,
};
use crate::plugins::systemvolume::supervisor::packet_views;
use crate::protocol::cert_store::{Directory, FileOp, StoredFile};
use crate::protocol::certificate::{found_text, is_generated};
use crate::protocol::connection::inbound::unchecked_link;
use crate::protocol::connection::manager::{cert_bytes, Connection, LinksView};
use crate::protocol::connection::outbound::{is_target, Target};
use crate::protocol::connection::tls::{identity_result, must_present, OwnIdentity};
use crate::protocol::crypto::{
    ensured_own, has_fingerprint, op_views, own_is_valid, CertificateManager,
};
use crate::protocol::mdns_discovery::MdnsPeer;
use crate::protocol::pem::decoded;
use crate::text::maybe_text;

verus! {

/// An error is seen by its kind and its texts.
pub proof fn law_errors_keep_kind_and_text(e: Error)
    ensures
        match (e, e@) {
            (Error::CertificateError(a), ErrorView::CertificateError(b)) => a@ == b,
            (Error::TlsError(a), ErrorView::TlsError(b)) => a@ == b,
            (Error::ConnectionError(a), ErrorView::ConnectionError(b)) => a@ == b,
            (Error::ConnectionTimeout(a), ErrorView::ConnectionTimeout(b)) => a@ == b,
            (Error::InvalidPacket(a), ErrorView::InvalidPacket(b)) => a@ == b,
            (Error::InvalidRequest(a), ErrorView::InvalidRequest(b)) => a@ == b,
            (Error::DiscoveryError(a), ErrorView::DiscoveryError(b)) => a@ == b,
            (Error::DeserializationError(a), ErrorView::DeserializationError(b)) => a@ == b,
            (
                Error::Validation { message: a, field: f },
                ErrorView::Validation { message: b, field: g },
            ) => a@ == b && text_of(f) == g,
            (Error::Io { message: a, path: f }, ErrorView::Io { message: b, path: g }) => a@ == b
                && text_of(f) == g,
            (
                Error::NotFound { resource: a, id: f },
                ErrorView::NotFound { resource: b, id: g },
            ) => a@ == b && text_of(f) == g,
            (
                Error::PacketTooLarge { size: a, max: f },
                ErrorView::PacketTooLarge { size: b, max: g },
            ) => a == b && f == g,
            (
                Error::CapabilityNotSupported { device_id: a, packet_type: f },
                ErrorView::CapabilityNotSupported { device_id: b, packet_type: g },
            ) => a@ == b && f@ == g,
            _ => false,
        },
{
}

/// An error of one text says that text; what is not there is named with its id;
/// a line over the cap tells its size and the cap, and a packet that is not taken
/// the device and the type.
pub proof fn law_errors_say_their_texts(e: ErrorView, m: Seq<char>, id: Seq<char>, a: nat, b: nat)
    ensures
        ErrorView::CertificateError(m).message() == m,
        ErrorView::TlsError(m).message() == m,
        ErrorView::ConnectionError(m).message() == m,
        ErrorView::ConnectionTimeout(m).message() == m,
        ErrorView::InvalidPacket(m).message() == m,
        ErrorView::InvalidRequest(m).message() == m,
        ErrorView::DiscoveryError(m).message() == m,
        ErrorView::DeserializationError(m).message() == m,
        e matches ErrorView::Validation { message, .. } ==> e.message() == message,
        e matches ErrorView::Io { message, .. } ==> e.message() == message,
        (ErrorView::NotFound { resource: m, id: None }).message() == m,
        (ErrorView::NotFound { resource: m, id: Some(id) }).message() == m + ": "@ + id,
        (ErrorView::PacketTooLarge { size: a, max: b }).message() == "Packet of "@
            + crate::text::decimal(a) + " bytes is over the cap of "@ + crate::text::decimal(b),
        (ErrorView::CapabilityNotSupported { device_id: id, packet_type: m }).message()
            == "Device "@ + id + " does not take packets of type "@ + m,
{
}

/// What may be missing is seen as missing or as what it is.
pub proof fn law_optional_values_keep_their_contents(
    text: Option<String>,
    borrowed: Option<&str>,
    cert: Option<Vec<u8>>,
    volumes: Option<Vec<Option<i64>>>,
)
    ensures
        text is Some <==> text_of(text) is Some,
        text matches Some(t) ==> text_of(text) == Some(t@),
        borrowed is Some <==> maybe_text(borrowed) is Some,
        borrowed matches Some(t) ==> maybe_text(borrowed) == Some(t@),
        cert is Some <==> cert_bytes(cert) is Some,
        cert matches Some(c) ==> cert_bytes(cert) == Some(c@),
        volumes is Some <==> channel_volumes(volumes) is Some,
        volumes matches Some(v) ==> channel_volumes(volumes) == Some(v@),
{
}

/// A result is seen as its value or its error.
pub proof fn law_results_keep_value_or_error(
    text: Result<String, Error>,
    bytes: Result<Vec<u8>, Error>,
    own: Result<OwnIdentity, Error>,
)
    ensures
        match text {
            Ok(t) => found_text(text) == Ok::<Seq<char>, ErrorView>(t@),
            Err(e) => found_text(text) == Err::<Seq<char>, ErrorView>(e@),
        },
        match bytes {
            Ok(b) => decoded(bytes) == Ok::<Seq<u8>, ErrorView>(b@),
            Err(e) => decoded(bytes) == Err::<Seq<u8>, ErrorView>(e@),
        },
        own matches Ok(i) ==> (identity_result(own) matches Ok(seen) && seen.0 == byte_strings(
            i.certs@,
        ) && seen.1.0 == i.key.kind && seen.1.1 == i.key.der@),
        own matches Err(e) ==> (identity_result(own) matches Err(seen) && seen == e@),
{
}

/// Lists are seen entry by entry, in order.
pub proof fn law_lists_keep_order(
    certs: Seq<Vec<u8>>,
    names: Seq<(Vec<u64>, String)>,
    txt: Seq<(String, String)>,
    packets: Seq<Packet>,
    events: Seq<SubscribeEvent>,
    ops: Seq<FileOp>,
    plans: Seq<PlannedOp>,
    i: int,
)
    ensures
        byte_strings(certs).len() == certs.len(),
        0 <= i < certs.len() ==> byte_strings(certs)[i] == certs[i]@,
        names_of(names).len() == names.len(),
        0 <= i < names.len() ==> names_of(names)[i] == (names[i].0@, names[i].1@),
        txt_of(txt).len() == txt.len(),
        0 <= i < txt.len() ==> txt_of(txt)[i] == (txt[i].0@, txt[i].1@),
        packet_views(packets).len() == packets.len(),
        0 <= i < packets.len() ==> packet_views(packets)[i] == packets[i]@,
        event_views(events).len() == events.len(),
        0 <= i < events.len() ==> event_views(events)[i] == events[i]@,
        op_views(ops).len() == ops.len(),
        0 <= i < ops.len() ==> op_views(ops)[i] == ops[i]@,
        planned(plans).len() == plans.len(),
        0 <= i < plans.len() ==> planned(plans)[i].op == plans[i].op@ && planned(plans)[i].required
            == plans[i].required,
{
}

/// A packet is seen by its type and its fields.
pub proof fn law_packets_keep_type_and_fields(p: Packet)
    ensures
        p@.packet_type == p.packet_type@,
        p@.body.len() == p.body@.len(),
        forall|i: int| 0 <= i < p.body@.len() ==> (#[trigger] p@.body[i]).0 == p.body@[i].0@,
        forall|i: int| 0 <= i < p.body@.len() ==> (#[trigger] p@.body[i]).1 == p.body@[i].1@,
{
}

/// An operation on the certificate directory is seen as what it is: a secret is
/// no ordinary file, and a file is moved from where it was.
pub proof fn law_file_operations_keep_their_kind(op: FileOp)
    ensures
        match (op, op@) {
            (FileOp::CreateDirectory, crate::protocol::cert_store::OpView::CreateDirectory) => true,
            (
                FileOp::RestrictDirectory,
                crate::protocol::cert_store::OpView::RestrictDirectory,
            ) => true,
            (
                FileOp::Write { name: a, contents: c },
                crate::protocol::cert_store::OpView::Write { name: b, contents: d },
            ) => a@ == b && c@ == d,
            (
                FileOp::WriteSecret { name: a, contents: c },
                crate::protocol::cert_store::OpView::WriteSecret { name: b, contents: d },
            ) => a@ == b && c@ == d,
            (
                FileOp::Restrict { name: a },
                crate::protocol::cert_store::OpView::Restrict { name: b },
            ) => a@ == b,
            (
                FileOp::Rename { from: a, to: c },
                crate::protocol::cert_store::OpView::Rename { from: b, to: d },
            ) => a@ == b && c@ == d,
            (
                FileOp::Remove { name: a },
                crate::protocol::cert_store::OpView::Remove { name: b },
            ) => a@ == b,
            _ => false,
        },
{
}

/// A file is seen by its contents and by who may read it, and a directory by
/// whether it is there, who may enter it, and its files.
pub proof fn law_files_keep_contents_and_owner(f: StoredFile, d: Directory, name: Seq<char>)
    ensures
        f@.contents == f.contents@,
        f@.owner_only == f.owner_only,
        d@.present == d.present,
        d@.owner_only == d.owner_only,
        d@.files.contains_key(name) <==> d.files@.contains_key(name),
        d@.files.contains_key(name) ==> d@.files[name] == d.files@[name]@,
{
}

/// A link is seen by its own facts.
pub proof fn law_links_keep_their_facts(c: Connection)
    ensures
        c@.generation == c.generation,
        c@.peer_cert == cert_bytes(c.peer_cert),
        c@.peer_addr == c.peer_addr,
        c@.local_addr == c.local_addr,
        c@.packets_sent == c.packets_sent,
        c@.packets_received == c.packets_received,
        c@.last_activity == c.last_activity,
{
}

/// A peer that was found is seen by its own facts.
pub proof fn law_found_peers_keep_their_facts(p: MdnsPeer)
    ensures
        p@.device_id == p.device_id@,
        p@.device_name == p.device_name@,
        p@.device_type == p.device_type@,
        p@.protocol_version == p.protocol_version,
        p@.address == p.address,
        p@.srv_port == p.srv_port,
{
}

/// A change that is asked of the sound server is seen by its kind, its sink and
/// its value.
pub proof fn law_changes_keep_sink_and_value(op: BackendOp)
    ensures
        match (op, op@) {
            (
                BackendOp::SetVolume { name: a, volume: c },
                OpView::SetVolume { name: b, volume: d },
            ) => a@ == b && c == d,
            (
                BackendOp::SetMuted { name: a, muted: c },
                OpView::SetMuted { name: b, muted: d },
            ) => a@ == b && c == d,
            (
                BackendOp::SetDefault { name: a, enabled: c },
                OpView::SetDefault { name: b, enabled: d },
            ) => a@ == b && c == d,
            _ => false,
        },
{
}

/// What the sound server tells is seen by its kind and its sink.
pub proof fn law_events_keep_kind_and_sink(e: SubscribeEvent)
    ensures
        match (e, e@) {
            (SubscribeEvent::SinkAdded { name: a }, EventView::SinkAdded { name: b }) => text_of(a)
                == b,
            (SubscribeEvent::SinkRemoved { name: a }, EventView::SinkRemoved { name: b }) => text_of(
                a,
            ) == b,
            (SubscribeEvent::SinkChanged { name: a }, EventView::SinkChanged { name: b }) => text_of(
                a,
            ) == b,
            (
                SubscribeEvent::DefaultSinkChanged { name: a },
                EventView::DefaultSinkChanged { name: b },
            ) => text_of(a) == b,
            (SubscribeEvent::Unclassified { line: a }, EventView::Unclassified { line: b }) => a@
                == b,
            _ => false,
        },
{
}

/// What is to be done is what was asked for.
pub proof fn law_actions_serve_their_requests(action: VolumeAction, request: RequestView)
    requires
        is_action(action, request),
    ensures
        action is Nothing <==> request is Ignore,
        action is ListSinks <==> request is ListSinks,
        action is Control <==> request is Control,
        action matches VolumeAction::Control(r) ==> request == RequestView::Control(r.remaining()),
{
}

/// A sound server that is only played makes a change and notes it, or says that
/// the sink is not there and changes nothing.
pub proof fn law_played_changes_succeed_or_change_nothing(
    before: MockView,
    after: MockView,
    op: OpView,
    r: Result<(), Error>,
)
    requires
        mock_outcome(before, after, op, r),
    ensures
        r is Ok <==> can_make(before, op),
        r is Ok ==> after == after_op(before, op),
        r is Err ==> after == before,
        r matches Err(e) ==> (e@ matches ErrorView::NotFound { id, .. } && id == Some(
            match op {
                OpView::SetVolume { name, .. } => name,
                OpView::SetMuted { name, .. } => name,
                OpView::SetDefault { name, .. } => name,
            },
        )),
{
}

/// A target is dialed at the address that was given, with the texts that were
/// given, and as the device that it said it was.
pub proof fn law_targets_are_as_given(
    target: Target,
    addr: SocketAddr,
    addr_text: String,
    ip_text: String,
    expected: Option<&Identity>,
    udp_port: u16,
)
    requires
        is_target(target, addr, addr_text, ip_text, expected, udp_port),
    ensures
        target.addr == addr,
        target.addr_text == addr_text,
        target.ip_text == ip_text,
        target.fallback_udp_port == udp_port,
        expected is Some <==> target.expected is Some,
        expected matches Some(i) ==> (target.expected matches Some(e) && e.device_id@ == i.device_id@
            && e.protocol_version == i.protocol_version),
{
}

/// A device that connected without being checked gets the next link, as it was
/// presented; where the exchange failed nothing changes.
pub proof fn law_unchecked_links_are_as_presented(
    before: LinksView,
    after: LinksView,
    id: Seq<char>,
    peer_addr: Option<SocketAddr>,
    local_addr: Option<SocketAddr>,
    now: Moment,
    exchange: Result<Option<Seq<u8>>, ErrorView>,
    r: Result<u64, Error>,
)
    requires
        unchecked_link(before, after, id, peer_addr, local_addr, now, exchange, r),
    ensures
        r is Ok <==> exchange is Ok,
        exchange matches Err(e) ==> (r matches Err(got) && got@ == e) && after == before,
        r matches Ok(g) ==> {
            &&& g == (if before.generations.contains_key(id) {
                before.generations[id] + 1
            } else {
                1
            })
            &&& after.connections.contains_key(id)
            &&& after.connections[id].generation == g
            &&& exchange matches Ok(cert) ==> after.connections[id].peer_cert == cert
            &&& after.connections[id].peer_addr == peer_addr
            &&& after.connections[id].local_addr == local_addr
            &&& after.connections[id].packets_sent == 0
            &&& after.connections[id].packets_received == 0
        },
{
}

/// What the manager of certificates did is outstanding after what it did before,
/// and led to the directory that it has.
pub proof fn law_done_operations_are_outstanding(
    before: CertificateManager,
    after: CertificateManager,
    ops: Seq<crate::protocol::cert_store::OpView>,
    d: crate::protocol::cert_store::DirView,
)
    ensures
        after.did(&before, ops, d) <==> after.location() == before.location()
            && after.outstanding() == before.outstanding() + ops && after.directory() == d
            && before.directory().replay(ops) == d,
        after.unchanged(&before) <==> after.location() == before.location() && after.outstanding()
            == before.outstanding() && after.directory() == before.directory(),
{
}

/// An own certificate that is there and valid is kept; where there is none, or
/// it is not valid, a new one takes its place, with its key closed to others, or
/// nothing changes and the failure is told.
pub proof fn law_own_certificate_is_kept_or_replaced(
    before: CertificateManager,
    after: CertificateManager,
    id: Seq<char>,
    now: Moment,
    r: Result<(), Error>,
)
    requires
        ensured_own(before, after, id, now, r),
    ensures
        ({
            let files = before.directory().files;
            let good = files.contains_key("own.crt"@) && files.contains_key("own.key"@)
                && own_is_valid(before.directory(), now);
            &&& good ==> r is Ok && after.unchanged(&before)
            &&& r is Err ==> after.unchanged(&before)
            &&& !good && r is Ok ==> after.directory().files.contains_key("own.crt"@)
                && after.directory().files.contains_key("own.key"@)
                && after.directory().files["own.key"@].owner_only && is_generated(
                id,
                Ok(
                    (
                        after.directory().files["own.crt"@].contents,
                        after.directory().files["own.key"@].contents,
                    ),
                ),
            )
        }),
{
    let files = before.directory().files;
    reveal_strlit("own.crt");
    reveal_strlit("own.key");
    assert("own.crt"@[4] != "own.key"@[4]);
    if !(files.contains_key("own.crt"@) && files.contains_key("own.key"@) && own_is_valid(
        before.directory(),
        now,
    )) && r is Ok {
        let pair = choose|pair: Result<(Seq<u8>, Seq<u8>), ErrorView>| #[trigger]
            is_generated(id, pair) && match pair {
                Err(e) => r matches Err(got) && got@ == e && after.unchanged(&before),
                Ok(p) => r is Ok && after.did(
                    &before,
                    crate::protocol::crypto::init_ops(before.directory())
                        + crate::protocol::crypto::store_pair_ops(
                        before.directory(),
                        "own.crt"@,
                        p.0,
                        "own.key"@,
                        p.1,
                    ),
                    crate::protocol::crypto::with_pair(
                        before.directory(),
                        "own.crt"@,
                        p.0,
                        "own.key"@,
                        p.1,
                    ),
                ),
            };
        assert(pair is Ok);
    }
}

/// A client has to present a certificate if and only if it is known and pinned.
pub proof fn law_pinned_clients_present_certificates(
    certs: CertificateManager,
    device_id: Option<Seq<char>>,
)
    ensures
        must_present(certs, device_id) <==> (device_id matches Some(id) && has_fingerprint(
            certs.directory(),
            id,
        )),
{
}

/// The calendar reaches a little over 262142 years to either side of the year 0.
pub proof fn law_calendar_reaches_far(seconds: int)
    ensures
        in_calendar(seconds) <==> -8_334_601_228_800 <= seconds < 8_210_266_876_800,
{
}

/// The limits that the daemon keeps, in bytes, counts and seconds.
pub proof fn law_limits_of_the_daemon()
    ensures
        crate::packet::PROTOCOL_VERSION == 8,
        crate::packet::MIN_PORT == 1716 && crate::packet::MAX_PORT == 1764,
        crate::packet::DEFAULT_TCP_PORT == 1716 && crate::packet::DEFAULT_UDP_PORT == 1716,
        crate::protocol::listener::MAX_INBOUND_CONNECTIONS == 64,
        crate::protocol::listener::ACCEPT_TIMEOUT_SECS == 30,
        crate::protocol::listener::EXCHANGE_TIMEOUT_SECS == 15,
        crate::protocol::connection::tls::HANDSHAKE_TIMEOUT_SECS == 10,
        crate::protocol::connection::framing::MAX_PACKET_SIZE == 512 * 1024,
        crate::protocol::connection::framing::MAX_STEADY_PACKET_SIZE == 32 * 1024 * 1024,
        crate::protocol::connection_loop::IDLE_CHECK_INTERVAL_SECS == 30,
        crate::protocol::keepalive::KEEPALIVE_IDLE_SECS == 30,
        crate::protocol::keepalive::KEEPALIVE_INTERVAL_SECS == 10,
        crate::protocol::keepalive::KEEPALIVE_RETRIES == 3,
        crate::protocol::keepalive::TCP_USER_TIMEOUT_SECS == 30,
        crate::protocol::mdns_discovery::MDNS_STORM_THRESHOLD_PER_MIN == 600,
        crate::protocol::mdns_discovery::MDNS_METRICS_SAMPLE_PERIOD_SECS == 60,
        crate::plugins::telephony::MAX_CALLS_PER_DEVICE == 100,
        crate::plugins::systemvolume::supervisor::SYNC_PERIOD_SECS == 5,
        crate::plugins::systemvolume::backend::PA_VOLUME_NORM == 0x1_0000,
{
}

} // verus!
