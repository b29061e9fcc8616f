//! What calls of the protocol come to, from what goes in to what comes out.

use vstd::prelude::*;
use vstd::utf8::encode_utf8;

use crate::error::{Error, ErrorView};
use crate::net::{is_private_address, IpAddr, SocketAddr};
use crate::outside::{hex_text, sha256_of, Moment};
use crate::packet::{Identity, Packet, ValueView};
use crate::protocol::connection::framing::SteadyLine;
use crate::protocol::connection::inbound::{
    accept_incoming, Arrival, Greeted, Linked, Remote,
};
use crate::protocol::connection::manager::{
    cert_bytes, ConnectionInfo, ConnectionManager, RecvEvent, SendOutcome,
};
use crate::protocol::connection::outbound::{
    check_outbound, DialFailure, DialOutcome, Dialing, Encrypted, Expected, HandshakeOutcome, Reached,
    Shaking, Target, WriteOutcome,
};
use crate::protocol::connection_loop::{
    idle_check_interval, pair_decision, pair_timestamp_is_fresh, reply_to_send, LoopAction,
    LoopEvent, LoopPhase, LoopResult, PacketLoop, PairCleanup, PairContext, PairState,
};
use crate::protocol::crypto::CertificateManager;
use crate::protocol::device_id::validate_device_id;
use crate::protocol::discovery::{
    is_message_too_large, BroadcastOutcome, BroadcastStep, DiscoveryService,
};
use crate::protocol::listener::{
    Exchange, ExchangeOutcome, InboundSlots, LinkAction, TcpListenerService,
};
use crate::protocol::verification_key::{
    compute_verification_key, law_equal_keys_are_hashed_twice, law_greater_key_comes_first,
    law_longer_key_comes_first,
};
use crate::text::signed_decimal;

verus! {

/// Both sides of a pairing show the same key. Where their public keys differ
/// first at `i`, or one begins with the other, the greater or longer key is hashed
/// first, then the other, then the decimal timestamp.
pub proof fn law_both_sides_show_the_same_key(
    a: &[u8],
    b: &[u8],
    i: int,
    timestamp: i64,
    ours: String,
    theirs: String,
)
    requires
        call_ensures(compute_verification_key, (a, b, timestamp), ours),
        call_ensures(compute_verification_key, (b, a, timestamp), theirs),
        0 <= i <= b@.len(),
        i < a@.len(),
        forall|j: int| 0 <= j < i ==> a@[j] == b@[j],
        i < b@.len() ==> a@[i] > b@[i],
    ensures
        ours@ == theirs@,
        ours@ == hex_text(
            sha256_of(a@ + b@ + encode_utf8(signed_decimal(timestamp as int))).take(4),
            'A',
        ),
{
    if i < b@.len() {
        law_greater_key_comes_first(a@, b@, i, timestamp as int);
    } else {
        law_longer_key_comes_first(a@, b@, timestamp as int);
    }
}

/// The manager of certificates shows the key that both sides show.
pub proof fn law_manager_shows_the_same_key(
    a: &[u8],
    b: &[u8],
    timestamp: i64,
    shown: String,
    key: String,
)
    requires
        call_ensures(CertificateManager::compute_verification_key, (a, b, timestamp), shown),
        call_ensures(compute_verification_key, (a, b, timestamp), key),
    ensures
        shown@ == key@,
        shown@.len() == 8,
        a@ == b@ ==> shown@ == hex_text(
            sha256_of(a@ + a@ + encode_utf8(signed_decimal(timestamp as int))).take(4),
            'A',
        ),
{
    law_equal_keys_are_hashed_twice(a@, timestamp as int);
}

/// An address of IPv4 is taken for private by its octets.
pub proof fn law_private_addresses_are_found_by_octets(
    addr: u32,
    a: u8,
    b: u8,
    c: u8,
    d: u8,
    r: bool,
)
    requires
        call_ensures(is_private_address, (&IpAddr::V4(addr),), r),
        addr == a * 0x100_0000 + b * 0x1_0000 + c * 0x100 + d,
    ensures
        r <==> {
            ||| a == 127
            ||| a == 10
            ||| a == 172 && 16 <= b < 32
            ||| a == 192 && b == 168
            ||| a == 169 && b == 254
            ||| a == 100 && 64 <= b < 128
        },
{
    crate::net::law_private_ipv4_by_octets(addr, a, b, c, d);
}

/// An address of IPv6 is taken for private by its first 16 bits, or for being the
/// loopback address.
pub proof fn law_private_ipv6_addresses_are_found_by_head(
    addr: u128,
    head: u16,
    rest: int,
    r: bool,
)
    requires
        call_ensures(is_private_address, (&IpAddr::V6(addr),), r),
        0 <= rest < 0x1_0000_0000_0000_0000_0000_0000_0000int,
        addr == head * 0x1_0000_0000_0000_0000_0000_0000_0000int + rest,
    ensures
        r <==> head == 0 && rest == 1 || 0xFE80 <= head <= 0xFEBF || 0xFC00 <= head <= 0xFDFF,
{
    crate::net::law_private_ipv6_by_head(addr, head, rest);
}

/// What the loop does on an event tells the event.
pub proof fn law_loop_acts_on_what_happened(
    l: &mut PacketLoop,
    manager: &mut ConnectionManager,
    event: LoopEvent,
    action: LoopAction,
)
    requires
        call_ensures(PacketLoop::run_packet_loop, (l, manager, event), action),
    ensures
        action == LoopAction::RollBack <==> event == LoopEvent::AcceptSent(false),
        action == LoopAction::InitPlugins <==> (event == LoopEvent::AcceptSent(true) || event
            == LoopEvent::Completed(true)),
        action == LoopAction::AnnounceRequest <==> event == (LoopEvent::Requested {
            processed: true,
            paired: false,
        }),
        action == LoopAction::SendAccept <==> event == (LoopEvent::Requested {
            processed: true,
            paired: true,
        }),
        action is LeaveIdle <==> event == LoopEvent::IdleTimedOut,
        action is End <==> (event == LoopEvent::RecvFailed || event == LoopEvent::ShuttingDown
            || event == LoopEvent::Cancelled),
        action matches LoopAction::End { result, cleanup, .. } ==> (result == LoopResult::Shutdown
            <==> event == LoopEvent::ShuttingDown) && cleanup == PairCleanup::Keep,
        final(l).device_id == old(l).device_id,
        final(l).generation == old(l).generation,
        final(l).memory.phase == LoopPhase::Accepting <==> action == LoopAction::SendAccept
            || old(l).memory.phase == LoopPhase::Accepting && (event == LoopEvent::RecvTimedOut
            || event == LoopEvent::IdleTimedOut),
        final(l).memory.unpair_notified == old(l).memory.unpair_notified,
{
}

/// The loop lets go of its link where receiving fails, the link is idle or the
/// daemon stops, and of nothing where a newer link is there.
pub proof fn law_loop_lets_go_of_its_own_link(
    l: &mut PacketLoop,
    manager: &mut ConnectionManager,
    event: LoopEvent,
    action: LoopAction,
    other: Seq<char>,
)
    requires
        call_ensures(PacketLoop::run_packet_loop, (l, manager, event), action),
    ensures
        ({
            let id = old(l).device_id@;
            let before = old(manager)@.connections;
            let after = final(manager)@.connections;
            let current = before.contains_key(id) && before[id].generation == old(l).generation;
            let lets_go = event == LoopEvent::RecvFailed || event == LoopEvent::IdleTimedOut
                || event == LoopEvent::ShuttingDown;
            &&& after.contains_key(other) <==> before.contains_key(other) && !(other == id
                && current && lets_go)
            &&& after.contains_key(other) ==> after[other] == before[other]
            &&& final(manager)@.generations == old(manager)@.generations
            &&& final(manager)@.peer_capabilities == old(manager)@.peer_capabilities
            &&& action matches LoopAction::End { mark_disconnected, .. } ==> (mark_disconnected
                ==> current || !before.contains_key(id))
        }),
{
    crate::protocol::connection_loop::law_events_let_go_of_the_own_link_only(
        old(l).memory,
        old(manager)@,
        old(l).device_id@,
        old(l).generation,
        event,
        other,
    );
}

/// What the loop does on a packet: one that is no pair packet goes to the plugins
/// if and only if the device is paired; a yes completes a pairing that we asked
/// for, and is a request otherwise, which is heard if it is dated within 1800
/// seconds of our clock or the device's version is known to be below 8; a no undoes
/// what there is.
pub proof fn law_loop_acts_on_what_arrived(
    l: &mut PacketLoop,
    packet: &Packet,
    context: PairContext,
    action: LoopAction,
)
    requires
        call_ensures(PacketLoop::packet_received, (l, packet, context), action),
    ensures
        ({
            let pair = packet.packet_type@ == "kdeconnect.pair"@;
            let says = crate::packet::field(packet@.body, "pair"@);
            let yes = pair && says == Some(ValueView::Bool(true));
            let no = pair && says == Some(ValueView::Bool(false));
            let dated = crate::packet::field(packet@.body, "timestamp"@);
            let fresh = dated matches Some(ValueView::Int(ts)) && -1800 <= ts - context.now <= 1800;
            let undated = context.protocol_version matches Some(v) && v < 8;
            let asked = context.pair_state == PairState::Requested;
            &&& action == LoopAction::Route <==> !pair && context.paired
            &&& action == LoopAction::NotifyUnpaired <==> !pair && !context.paired
                && !old(l).memory.unpair_notified
            &&& action == LoopAction::CompletePairing <==> yes && asked
            &&& action is RequestPairing <==> yes && !asked && (fresh || undated)
            &&& action matches LoopAction::RequestPairing { timestamp } ==> match timestamp {
                Some(ts) => dated == Some(ValueView::Int(ts)),
                None => !(dated matches Some(v) && v is Int),
            }
            &&& action is End <==> no && context.pair_state != PairState::NotPaired
            &&& action matches LoopAction::End {
                result,
                cleanup,
                mark_disconnected,
                notify_plugins,
            } ==> result == LoopResult::Disconnected && !mark_disconnected && !notify_plugins
                && cleanup == (if context.pair_state == PairState::Paired {
                PairCleanup::Unpair
            } else {
                PairCleanup::Reject
            })
            &&& final(l).device_id == old(l).device_id
            &&& final(l).generation == old(l).generation
        }),
{
}

/// What is sent of our own accord is a pair packet that says whether we accept.
pub proof fn law_replies_are_pair_packets(action: LoopAction, r: Option<Packet>)
    requires
        call_ensures(reply_to_send, (action,), r),
    ensures
        r is Some <==> action == LoopAction::SendAccept || action == LoopAction::NotifyUnpaired,
        r matches Some(p) ==> p.packet_type@ == "kdeconnect.pair"@ && p@.body.len() == 1
            && p@.body[0].0 == "pair"@ && p@.body[0].1 == ValueView::Bool(
            action == LoopAction::SendAccept,
        ),
{
}

/// A timestamp is fresh within half an hour of our clock, a pair packet says what
/// its field `pair` says, and idle links are looked for every 30 seconds where
/// links may not be idle for ever.
pub proof fn law_pairing_is_read_from_packet_and_clock(
    timestamp: i64,
    now: i64,
    fresh: bool,
    packet: &Packet,
    says: Option<bool>,
    timeout: u64,
    interval: Option<u64>,
)
    requires
        call_ensures(pair_timestamp_is_fresh, (timestamp, now), fresh),
        call_ensures(pair_decision, (packet,), says),
        call_ensures(idle_check_interval, (timeout,), interval),
    ensures
        fresh <==> -1800 <= timestamp - now <= 1800,
        says matches Some(b) ==> crate::packet::field(packet@.body, "pair"@) == Some(
            ValueView::Bool(b),
        ),
        says is None ==> !(crate::packet::field(packet@.body, "pair"@) matches Some(v) && v
            is Bool),
        interval is Some <==> timeout > 0,
        interval matches Some(s) ==> s == 30,
{
}

/// A link is idle if and only if more nanoseconds have passed since its last use
/// than the threshold has.
pub proof fn law_idle_links_are_found_by_the_clock(
    info: &ConnectionInfo,
    now: Moment,
    threshold_secs: u64,
    r: bool,
)
    requires
        call_ensures(ConnectionInfo::is_idle, (info, now, threshold_secs), r),
        info.last_activity.nanos < 1_000_000_000,
        now.nanos < 1_000_000_000,
    ensures
        r <==> (now.seconds - info.last_activity.seconds) * 1_000_000_000 + (now.nanos
            - info.last_activity.nanos) > threshold_secs * 1_000_000_000,
{
    crate::protocol::connection_loop::law_idle_counts_nanoseconds(
        info.last_activity,
        now,
        threshold_secs,
    );
}

/// A device id is accepted if and only if it has 32 to 38 ASCII letters, digits,
/// hyphens and underscores.
pub proof fn law_device_ids_are_accepted_by_character(id: &str, r: Result<(), Error>)
    requires
        call_ensures(validate_device_id, (id,), r),
    ensures
        r is Ok <==> 32 <= id@.len() <= 38 && forall|i: int|
            0 <= i < id@.len() ==> {
                ||| 'a' <= #[trigger] id@[i] <= 'z'
                ||| 'A' <= id@[i] <= 'Z'
                ||| '0' <= id@[i] <= '9'
                ||| id@[i] == '-'
                ||| id@[i] == '_'
            },
        r matches Err(e) ==> (e@ matches ErrorView::Validation { field, .. } && field == Some(
            "device_id"@,
        )),
{
    crate::protocol::device_id::law_device_ids_by_their_characters(id@);
    crate::protocol::device_id::law_device_id_complaints_tell_what_is_wrong(id@);
}

/// A connection from outside the local network is turned away; any other, and one
/// whose address is not known, is let in with its addresses.
pub proof fn law_connections_are_let_in_from_the_local_network(
    remote: Option<Remote>,
    local_addr: Option<SocketAddr>,
    r: Result<Arrival, Error>,
    private: bool,
)
    requires
        call_ensures(accept_incoming, (remote, local_addr), r),
        remote matches Some(from) ==> call_ensures(
            is_private_address,
            (&from.addr.ip,),
            private,
        ),
    ensures
        r is Ok <==> (remote is None || private),
        r matches Ok(a) ==> a.local_addr() == local_addr && match remote {
            Some(from) => a.peer_addr() == Some(from.addr),
            None => a.peer_addr() is None,
        },
        r matches Err(e) ==> e@ is ConnectionError,
{
}

/// After a peer's connection got a link, and both lists of its identity are
/// filled, a packet that is neither an identity nor a pair packet is refused to
/// that peer if and only if its type is not among the incoming capabilities of
/// that identity.
pub proof fn law_connected_peers_get_what_they_take(
    greeted: Greeted,
    manager: &mut ConnectionManager,
    cert: Option<Vec<u8>>,
    now: Moment,
    identity: Identity,
    link: Linked,
    later: &ConnectionManager,
    id: &str,
    packet: &Packet,
    r: Result<u64, Error>,
)
    requires
        call_ensures(
            Greeted::secured,
            (greeted, manager, cert, now),
            Ok::<(Identity, Linked), Error>((identity, link)),
        ),
        later@ == final(manager)@,
        id@ == identity.device_id@,
        call_ensures(ConnectionManager::check_send, (later, id, packet), r),
        packet.packet_type@ != "kdeconnect.identity"@,
        packet.packet_type@ != "kdeconnect.pair"@,
        identity.incoming_capabilities@.len() > 0,
        identity.outgoing_capabilities@.len() > 0,
    ensures
        r is Ok <==> exists|i: int|
            0 <= i < identity.incoming_capabilities@.len() && (
            #[trigger] identity.incoming_capabilities@[i])@ == packet.packet_type@,
        identity == greeted.identity(),
{
    crate::protocol::connection::inbound::law_inbound_link_takes_the_incoming_capabilities(
        old(manager)@,
        old(manager).certs().directory(),
        old(manager).certs().location(),
        greeted,
        cert_bytes(cert),
        now,
        packet@,
        id@,
    );
}

/// After a peer that we dialed got a link, and both lists of its identity are
/// filled, a packet that is neither an identity nor a pair packet is refused to
/// that peer if and only if its type is not among the incoming capabilities of
/// that identity.
pub proof fn law_dialed_peers_get_what_they_take(
    dialed: Encrypted,
    manager: &mut ConnectionManager,
    packet_type: &str,
    parsed: Result<Identity, Error>,
    local_addr: Option<SocketAddr>,
    now: Moment,
    identity: Identity,
    link: Linked,
    later: &ConnectionManager,
    id: &str,
    packet: &Packet,
    r: Result<u64, Error>,
)
    requires
        call_ensures(
            Encrypted::identified,
            (dialed, manager, packet_type, parsed, local_addr, now),
            Ok::<(Identity, Linked), Error>((identity, link)),
        ),
        later@ == final(manager)@,
        id@ == identity.device_id@,
        call_ensures(ConnectionManager::check_send, (later, id, packet), r),
        packet.packet_type@ != "kdeconnect.identity"@,
        packet.packet_type@ != "kdeconnect.pair"@,
        identity.incoming_capabilities@.len() > 0,
        identity.outgoing_capabilities@.len() > 0,
    ensures
        r is Ok <==> exists|i: int|
            0 <= i < identity.incoming_capabilities@.len() && (
            #[trigger] identity.incoming_capabilities@[i])@ == packet.packet_type@,
        parsed == Ok::<Identity, Error>(identity),
{
    crate::protocol::connection::outbound::law_outbound_link_takes_the_incoming_capabilities(
        old(manager)@,
        old(manager).certs().directory(),
        old(manager).certs().location(),
        identity,
        dialed.target(),
        dialed.peer_cert(),
        local_addr,
        now,
        packet@,
        id@,
    );
}

/// The link that a peer's connection got is live under the generation that was
/// handed back, with the certificate and the addresses of the connection, and is
/// read and let go of by whoever holds that generation.
pub proof fn law_connected_peers_have_their_link(
    greeted: Greeted,
    manager: &mut ConnectionManager,
    cert: Option<Vec<u8>>,
    now: Moment,
    identity: Identity,
    link: Linked,
    later: &ConnectionManager,
    id: &str,
    read: Result<u64, Error>,
)
    requires
        old(manager)@.next_generation(greeted.identity().device_id@) <= u64::MAX,
        call_ensures(
            Greeted::secured,
            (greeted, manager, cert, now),
            Ok::<(Identity, Linked), Error>((identity, link)),
        ),
        later@ == final(manager)@,
        id@ == identity.device_id@,
        call_ensures(
            ConnectionManager::recv_packet_current,
            (later, id, link.generation),
            read,
        ),
    ensures
        read is Ok,
        later@.connections[id@].peer_cert == cert_bytes(cert),
        later@.connections[id@].peer_addr == greeted.peer_addr(),
        later@.connections[id@].local_addr == greeted.local_addr(),
        link.evicted <==> old(manager)@.connections.contains_key(id@),
        link.evicted ==> old(manager)@.connections[id@].peer_cert == cert_bytes(cert),
{
    crate::protocol::connection::inbound::law_inbound_link_is_as_presented(
        old(manager)@,
        old(manager).certs().directory(),
        old(manager).certs().location(),
        greeted,
        cert_bytes(cert),
        now,
        id@,
    );
}

/// An identity is accepted from a connection if and only if it is one, of another
/// device with a proper id, and addressed to nobody or to us.
pub proof fn law_connections_are_greeted_when_meant_for_us(
    arrival: Arrival,
    manager: &ConnectionManager,
    packet_type: &str,
    parsed: Result<Identity, Error>,
    r: Result<Greeted, Error>,
)
    requires
        call_ensures(Arrival::identified, (arrival, manager, packet_type, parsed), r),
    ensures
        r is Ok <==> packet_type@ == "kdeconnect.identity"@ && (parsed matches Ok(i)
            && crate::protocol::device_id::is_device_id(i.device_id@) && i.device_id@
            != manager@.device_id && (i.target_device_id matches Some(t) ==> t@
            == manager@.device_id || t@ == crate::protocol::connection::inbound::echoed(
            manager@.device_id,
        )) && (i.target_protocol_version matches Some(v) ==> v == 8)),
        r matches Ok(g) ==> parsed == Ok::<Identity, Error>(g.identity()) && g.peer_addr()
            == arrival.peer_addr() && g.local_addr() == arrival.local_addr(),
{
    if let Ok(i) = parsed {
        crate::protocol::device_id::law_accepts_exactly_device_ids(i.device_id@);
    }
}

/// Within a second of a dial the same address is not dialed again; after it, it
/// is.
pub proof fn law_dials_keep_a_second_apart(
    first: &mut ConnectionManager,
    second: &mut ConnectionManager,
    one: Target,
    two: Target,
    t: u128,
    u: u128,
    r: Result<Dialing, Error>,
    s: Result<Dialing, Error>,
)
    requires
        call_ensures(
            ConnectionManager::connect_to_device_with_fallback_port,
            (first, one, t),
            r,
        ),
        r is Ok,
        old(second)@ == final(first)@,
        two.ip_text@ == one.ip_text@,
        call_ensures(
            ConnectionManager::connect_to_device_with_fallback_port,
            (second, two, u),
            s,
        ),
    ensures
        s is Ok <==> u - t >= 1_000_000_000,
        s matches Ok(d) ==> d.target() == two,
        s matches Err(e) ==> e@ is ConnectionError && final(second)@ == old(second)@,
{
    crate::protocol::link_laws::law_attempts_are_remembered_for_a_minute(
        old(first)@,
        one.ip_text@,
        t,
        one.ip_text@,
    );
}

/// A packet that is sent on a link is counted on it if and only if the link is
/// still the live one; a write that timed out ends that link.
pub proof fn law_sends_are_counted_or_end_the_link(
    manager: &mut ConnectionManager,
    id: &str,
    generation: u64,
    outcome: SendOutcome,
    r: Result<(), Error>,
)
    requires
        call_ensures(ConnectionManager::send_packet, (manager, id, generation, outcome), r),
        old(manager)@.connections.contains_key(id@),
        old(manager)@.connections[id@].generation == generation,
        old(manager)@.connections[id@].packets_sent < u64::MAX,
    ensures
        r is Ok <==> outcome is Sent,
        outcome is Sent ==> final(manager)@.connections[id@].packets_sent
            == old(manager)@.connections[id@].packets_sent + 1
            && final(manager)@.connections[id@].packets_received
            == old(manager)@.connections[id@].packets_received,
        outcome is WriteTimedOut || outcome is FlushTimedOut
            ==> !final(manager)@.connections.contains_key(id@) && (r matches Err(e) && e@
            is ConnectionTimeout),
        outcome is WriteFailed || outcome is FlushFailed ==> final(manager)@ == old(manager)@,
{
}

/// A line with something on it is a packet and is counted; a blank one and one
/// over the cap are passed over; everything else ends the reading.
pub proof fn law_received_lines_are_packets(
    manager: &mut ConnectionManager,
    id: &str,
    generation: u64,
    event: RecvEvent,
    line: &Vec<u8>,
    r: Result<bool, Error>,
)
    requires
        call_ensures(
            ConnectionManager::recv_packet_inner,
            (manager, id, generation, event, line),
            r,
        ),
        old(manager)@.connections.contains_key(id@),
        old(manager)@.connections[id@].generation == generation,
        old(manager)@.connections[id@].packets_received < u64::MAX,
    ensures
        ({
            let is_line = event matches RecvEvent::Read(l) && l is Line;
            let over = event == RecvEvent::Read(SteadyLine::OversizeSkipped);
            let filled = exists|i: int|
                0 <= i < line@.len() && !set![9u8, 10, 12, 13, 32].contains(#[trigger] line@[i]);
            &&& r is Ok <==> is_line || over
            &&& r == Ok::<bool, Error>(true) <==> is_line && filled
            &&& r == Ok::<bool, Error>(true)
                ==> final(manager)@.connections[id@].packets_received
                == old(manager)@.connections[id@].packets_received + 1
                && final(manager)@.connections[id@].packets_sent
                == old(manager)@.connections[id@].packets_sent
            &&& r != Ok::<bool, Error>(true) ==> final(manager)@ == old(manager)@
        }),
{
    crate::protocol::link_laws::law_reads_tell_packets_from_ends(id@, event, line@);
}

/// Whoever lets go of a link owns it unless a newer one has taken its place, which
/// then stays; other devices keep theirs.
pub proof fn law_links_are_let_go_of_by_their_owner(
    manager: &mut ConnectionManager,
    id: &str,
    generation: u64,
    r: Result<bool, Error>,
    other: Seq<char>,
)
    requires
        call_ensures(ConnectionManager::disconnect, (manager, id, generation), r),
    ensures
        ({
            let before = old(manager)@;
            let after = final(manager)@;
            let outdated = before.connections.contains_key(id@)
                && before.connections[id@].generation != generation;
            &&& r == Ok::<bool, Error>(!outdated)
            &&& after.connections.contains_key(id@) <==> outdated
            &&& after.cancel_tokens.contains_key(id@) <==> outdated
                && before.cancel_tokens.contains_key(id@)
            &&& other != id@ ==> after.connections.contains_key(other)
                == before.connections.contains_key(other) && after.connections[other]
                == before.connections[other]
            &&& after.generations == before.generations
        }),
{
}

/// A new link has the next generation of its device, and takes the place of the
/// one that is there.
pub proof fn law_registered_links_are_live(
    manager: &mut ConnectionManager,
    id: &str,
    cert: Option<Vec<u8>>,
    peer_addr: Option<SocketAddr>,
    local_addr: Option<SocketAddr>,
    now: Moment,
    generation: u64,
    later: &ConnectionManager,
    current: Option<u64>,
    addr: Option<SocketAddr>,
    local: Option<SocketAddr>,
)
    requires
        call_ensures(
            ConnectionManager::register_link,
            (manager, id, cert, peer_addr, local_addr, now),
            generation,
        ),
        later@ == final(manager)@,
        call_ensures(ConnectionManager::get_generation, (later, id), current),
        call_ensures(ConnectionManager::get_peer_addr, (later, id), addr),
        call_ensures(ConnectionManager::get_local_addr, (later, id), local),
    ensures
        current == Some(generation),
        addr == peer_addr,
        local == local_addr,
        old(manager)@.generations.contains_key(id@) ==> generation
            == old(manager)@.generations[id@] + 1,
        !old(manager)@.generations.contains_key(id@) ==> generation == 1,
{
}

/// The daemon says that it takes and sends what it was told that it does, under
/// the id and name that it was given, at the port that was bound or 1716.
pub proof fn law_identity_says_what_was_set(
    a: &mut ConnectionManager,
    incoming: Vec<String>,
    outgoing: Vec<String>,
    b: &mut ConnectionManager,
    id: &str,
    name: &str,
    c: &mut ConnectionManager,
    port: u16,
    d: &ConnectionManager,
    r: Option<Identity>,
)
    requires
        call_ensures(ConnectionManager::set_capabilities, (a, incoming, outgoing), ()),
        old(b)@ == final(a)@,
        call_ensures(ConnectionManager::set_device_identity, (b, id, name), ()),
        old(c)@ == final(b)@,
        call_ensures(ConnectionManager::set_tcp_port, (c, port), ()),
        d@ == final(c)@,
        call_ensures(ConnectionManager::get_identity, (d,), r),
    ensures
        r is Some <==> id@.len() > 0,
        r matches Some(i) ==> {
            &&& i.device_id@ == id@
            &&& i.device_name@ == name@
            &&& i.device_type@ == "desktop"@
            &&& i.protocol_version == 8
            &&& crate::table::texts(i.incoming_capabilities@) == crate::table::texts(incoming@)
            &&& crate::table::texts(i.outgoing_capabilities@) == crate::table::texts(outgoing@)
            &&& i.tcp_port == Some(port)
            &&& i.target_device_id is None
            &&& i.target_protocol_version is None
        },
{
}

/// On a link to a device the identity is addressed to that device and to version
/// 8, and carries the port of the link.
pub proof fn law_addressed_identity_names_the_device(
    manager: &ConnectionManager,
    id: &str,
    port: u16,
    r: Identity,
)
    requires
        call_ensures(ConnectionManager::identity_for, (manager, id, port), r),
    ensures
        r.target_device_id matches Some(t) && t@ == id@,
        r.target_protocol_version == Some(8u32),
        r.tcp_port == Some(port),
        r.device_id@ == manager@.device_id,
        r.device_name@ == manager@.device_name,
        crate::table::texts(r.incoming_capabilities@) == manager@.incoming_caps,
        crate::table::texts(r.outgoing_capabilities@) == manager@.outgoing_caps,
{
}

/// A token that is registered is the one that is cancelled; it is registered for a
/// link that is live, and no other.
pub proof fn law_registered_tokens_are_cancelled(
    manager: &mut ConnectionManager,
    id: &str,
    token: u64,
    generation: u64,
    r: bool,
    later: &ConnectionManager,
    cancelled: Option<u64>,
)
    requires
        call_ensures(
            ConnectionManager::register_cancel_token_if_current,
            (manager, id, token, generation),
            r,
        ),
        later@ == final(manager)@,
        call_ensures(ConnectionManager::cancel_loop, (later, id), cancelled),
    ensures
        r <==> old(manager)@.connections.contains_key(id@)
            && old(manager)@.connections[id@].generation == generation,
        r ==> cancelled == Some(token),
        !r ==> final(manager)@ == old(manager)@,
{
}

/// The identities of an exchange agree if and only if the second one arrived as an
/// identity of the same device and version.
pub proof fn law_exchanges_succeed_when_identities_agree(
    id: &str,
    version: u32,
    exchange: Exchange,
    r: Result<(), Error>,
)
    requires
        call_ensures(TcpListenerService::identity_exchange, (id, version, exchange), r),
    ensures
        r is Ok <==> (exchange matches Exchange::Received { packet_type, parsed } && packet_type@
            == "kdeconnect.identity"@ && (parsed matches Ok(i) && i.device_id@ == id@
            && i.protocol_version == version)),
{
}

/// After an exchange a live link is driven with its token set; the plugins
/// introduce themselves to paired devices only. A failed exchange drops the link
/// unless another one has taken its place.
pub proof fn law_handled_connections_are_driven_or_dropped(
    manager: &mut ConnectionManager,
    id: &str,
    generation: u64,
    outcome: ExchangeOutcome,
    token: u64,
    paired: bool,
    action: LinkAction,
)
    requires
        call_ensures(
            TcpListenerService::handle_connection,
            (manager, id, generation, outcome, token, paired),
            action,
        ),
    ensures
        ({
            let before = old(manager)@;
            let after = final(manager)@;
            let current = before.connections.contains_key(id@)
                && before.connections[id@].generation == generation;
            let outdated = before.connections.contains_key(id@) && !current;
            &&& action == (LinkAction::Drive { init_plugins: paired }) <==> outcome is Done
                && current
            &&& action == LinkAction::LeaveToReplacement <==> outcome is Done && !current
            &&& action == (LinkAction::Abort { owned: true }) <==> !(outcome is Done) && !outdated
            &&& action == (LinkAction::Abort { owned: false }) <==> !(outcome is Done) && outdated
            &&& action is Drive ==> after.cancel_tokens.contains_key(id@)
                && after.cancel_tokens[id@] == token
            &&& action == (LinkAction::Abort { owned: true })
                ==> !after.connections.contains_key(id@)
            &&& outdated ==> after == before
        }),
{
}

/// After its packet loop a link is let go of, and a paired device that was lost is
/// to be brought back unless the daemon stops.
pub proof fn law_lost_paired_devices_are_brought_back(
    manager: &mut ConnectionManager,
    id: &str,
    generation: u64,
    result: LoopResult,
    paired: bool,
    shutting_down: bool,
    r: bool,
)
    requires
        call_ensures(
            TcpListenerService::loop_ended,
            (manager, id, generation, result, paired, shutting_down),
            r,
        ),
    ensures
        r <==> result == LoopResult::Disconnected && paired && !shutting_down,
        !(final(manager)@.connections.contains_key(id@)
            && final(manager)@.connections[id@].generation == generation),
{
}

/// A slot is taken while fewer than 64 are, and a slot that is given back can be
/// taken again.
pub proof fn law_slots_are_limited(
    a: &mut InboundSlots,
    got: bool,
    b: &mut InboundSlots,
    c: &mut InboundSlots,
    again: bool,
)
    requires
        call_ensures(InboundSlots::try_acquire_inbound_slot, (a,), got),
        old(b).taken() == final(a).taken(),
        0 < old(b).taken() <= 64,
        call_ensures(InboundSlots::release, (b,), ()),
        old(c).taken() == final(b).taken(),
        call_ensures(InboundSlots::try_acquire_inbound_slot, (c,), again),
    ensures
        got <==> old(a).taken() < 64,
        final(a).taken() == old(a).taken() + (if got {
            1int
        } else {
            0
        }),
        again,
        final(c).taken() == old(b).taken(),
{
}

/// An announced identity is heard if and only if it is one, of another device, and
/// its port, if it names one, is one of 1716 to 1764.
pub proof fn law_announcements_are_heard(
    service: &DiscoveryService,
    packet_type: &str,
    parsed: Result<Identity, Error>,
    r: Result<Identity, Error>,
)
    requires
        call_ensures(DiscoveryService::listen, (service, packet_type, parsed), r),
    ensures
        r is Ok <==> packet_type@ == "kdeconnect.identity"@ && (parsed matches Ok(i) && i.device_id@
            != service.identity.device_id@ && (i.tcp_port matches Some(p) ==> 1716 <= p <= 1764)),
        r is Ok ==> r == parsed,
{
}

/// A broadcast that was too large, by the error numbers 90 and 40, is repeated
/// without capabilities; any other failure is reported.
pub proof fn law_large_broadcasts_are_repeated_smaller(
    service: &DiscoveryService,
    outcome: BroadcastOutcome,
    step: BroadcastStep,
    code: Option<i32>,
    large: bool,
)
    requires
        call_ensures(DiscoveryService::broadcast, (service, outcome), step),
        call_ensures(is_message_too_large, (code,), large),
    ensures
        large <==> code == Some(90i32) || code == Some(40i32),
        step is Done <==> outcome is Sent,
        outcome matches BroadcastOutcome::Failed { raw_os_error, .. } && raw_os_error == code ==> (
        step is Retry <==> large) && (step is Fail <==> !large),
        step matches BroadcastStep::Retry(small) ==> small.device_id == service.identity.device_id
            && small.incoming_capabilities@.len() == 0 && small.outgoing_capabilities@.len() == 0
            && small.tcp_port == service.identity.tcp_port,
{
}

/// A datagram is read if and only if it comes from the local network.
pub proof fn law_datagrams_come_from_the_local_network(
    ip: IpAddr,
    text: &str,
    r: Result<(), Error>,
    private: bool,
)
    requires
        call_ensures(DiscoveryService::check_sender, (ip, text), r),
        call_ensures(is_private_address, (&ip,), private),
    ensures
        r is Ok <==> private,
{
}

/// Once an identity with both lists filled was noted, packets of other types than
/// its incoming ones are refused to the device; an identity with a list empty
/// changes nothing.
pub proof fn law_noted_capabilities_decide_what_is_sent(
    manager: &mut ConnectionManager,
    id: &str,
    incoming: &Vec<String>,
    outgoing: &Vec<String>,
    later: &ConnectionManager,
    packet: &Packet,
    r: Result<u64, Error>,
)
    requires
        call_ensures(
            ConnectionManager::record_peer_capabilities,
            (manager, id, incoming, outgoing),
            (),
        ),
        later@ == final(manager)@,
        call_ensures(ConnectionManager::check_send, (later, id, packet), r),
        packet.packet_type@ != "kdeconnect.identity"@,
        packet.packet_type@ != "kdeconnect.pair"@,
        old(manager)@.connections.contains_key(id@),
    ensures
        incoming@.len() > 0 && outgoing@.len() > 0 ==> (r is Ok <==> crate::table::texts(
            incoming@,
        ).contains(packet.packet_type@)),
        incoming@.len() == 0 || outgoing@.len() == 0 ==> final(manager)@ == old(manager)@,
        r matches Ok(g) ==> g == old(manager)@.connections[id@].generation,
{
}

/// Use of a live link is noted as the time of its last use; its counts stay.
pub proof fn law_noted_activity_is_the_last_use(
    manager: &mut ConnectionManager,
    id: &str,
    generation: u64,
    now: Moment,
    before: &ConnectionManager,
    was: Option<ConnectionInfo>,
    later: &ConnectionManager,
    seen: Option<ConnectionInfo>,
)
    requires
        call_ensures(ConnectionManager::mark_activity, (manager, id, generation, now), ()),
        before@ == old(manager)@,
        call_ensures(ConnectionManager::get_connection_info, (before, id), was),
        later@ == final(manager)@,
        call_ensures(ConnectionManager::get_connection_info, (later, id), seen),
    ensures
        was is Some <==> seen is Some,
        was matches Some(a) ==> (seen matches Some(b) && b.device_id@ == id@ && b.generation
            == a.generation && b.packets_sent == a.packets_sent && b.packets_received
            == a.packets_received && b.last_activity == (if a.generation == generation {
            now
        } else {
            a.last_activity
        })),
{
}

/// A device is being connected from the time that it is noted until it is noted
/// no more, and is noted anew only where it was not.
pub proof fn law_pending_devices_are_noted_once(
    a: &mut ConnectionManager,
    id: &str,
    first: bool,
    b: &mut ConnectionManager,
    second: bool,
    c: &mut ConnectionManager,
    d: &mut ConnectionManager,
    third: bool,
)
    requires
        call_ensures(ConnectionManager::add_pending_connection, (a, id), first),
        old(b)@ == final(a)@,
        call_ensures(ConnectionManager::add_pending_connection, (b, id), second),
        old(c)@ == final(b)@,
        call_ensures(ConnectionManager::remove_pending_connection, (c, id), ()),
        old(d)@ == final(c)@,
        call_ensures(ConnectionManager::add_pending_connection, (d, id), third),
    ensures
        first <==> !old(a)@.pending.contains(id@),
        !second,
        third,
{
}

/// The devices that are listed as connected are those with a link.
pub proof fn law_connected_devices_have_a_link(
    manager: &ConnectionManager,
    ids: Vec<String>,
    id: &str,
    connected: bool,
    generation: u64,
    current: bool,
)
    requires
        call_ensures(ConnectionManager::connected_device_ids, (manager,), ids),
        call_ensures(ConnectionManager::is_connected, (manager, id), connected),
        call_ensures(
            ConnectionManager::is_current_generation,
            (manager, id, generation),
            current,
        ),
    ensures
        connected <==> manager@.connections.contains_key(id@),
        connected <==> exists|i: int| 0 <= i < ids@.len() && (#[trigger] ids@[i])@ == id@,
        current <==> connected && manager@.connections[id@].generation == generation,
{
    if connected {
        let i = choose|i: int| 0 <= i < ids@.len() && (#[trigger] ids@[i])@ == id@;
        assert(ids@[i]@ == id@);
    }
}

/// A token is dropped by whoever holds the live link, and by no one else.
pub proof fn law_tokens_are_dropped_by_the_live_link(
    manager: &mut ConnectionManager,
    id: &str,
    generation: u64,
    r: bool,
    other: Seq<char>,
)
    requires
        call_ensures(
            ConnectionManager::remove_cancel_token_if_current,
            (manager, id, generation),
            r,
        ),
    ensures
        r <==> old(manager)@.connections.contains_key(id@)
            && old(manager)@.connections[id@].generation == generation,
        final(manager)@.cancel_tokens.contains_key(other)
            <==> old(manager)@.cancel_tokens.contains_key(other) && !(r && other == id@),
        final(manager)@.connections == old(manager)@.connections,
{
}

/// A dial without an identity enters its link where the presented certificate is
/// accepted, and changes nothing where it is not; a generation is neither given
/// out nor forgotten for it.
pub proof fn law_plain_dials_enter_their_link(
    manager: &mut ConnectionManager,
    id: &str,
    generation: u64,
    cert: Option<Vec<u8>>,
    addr: SocketAddr,
    local_addr: Option<SocketAddr>,
    now: Moment,
    r: Result<u64, Error>,
    certs: &CertificateManager,
    der: &[u8],
    checked: Result<(), Error>,
)
    requires
        call_ensures(
            ConnectionManager::connect,
            (manager, id, generation, cert, addr, local_addr, now),
            r,
        ),
        certs.directory() == old(manager).certs().directory(),
        certs.location() == old(manager).certs().location(),
        call_ensures(CertificateManager::verify_peer_certificate, (certs, id, der), checked),
        cert matches Some(c) ==> der@ == c@,
    ensures
        r is Ok <==> cert is None || checked is Ok,
        r matches Ok(g) ==> g == generation && final(manager)@.connections.contains_key(id@)
            && final(manager)@.connections[id@].generation == generation
            && final(manager)@.connections[id@].peer_cert == cert_bytes(cert)
            && final(manager)@.connections[id@].peer_addr == Some(addr)
            && final(manager)@.connections[id@].local_addr == local_addr,
        r is Err ==> final(manager)@ == old(manager)@,
        final(manager)@.generations == old(manager)@.generations,
{
}

/// A device that connects without an identity gets a link where its certificate
/// is accepted, or where it presents none and none is pinned.
pub proof fn law_plain_clients_get_a_link(
    manager: &mut ConnectionManager,
    id: &str,
    cert: Option<Vec<u8>>,
    peer_addr: Option<SocketAddr>,
    local_addr: Option<SocketAddr>,
    now: Moment,
    r: Result<u64, Error>,
    certs: &CertificateManager,
    der: &[u8],
    checked: Result<(), Error>,
    pinned: bool,
)
    requires
        call_ensures(
            ConnectionManager::accept_as_client,
            (manager, id, cert, peer_addr, local_addr, now),
            r,
        ),
        certs.directory() == old(manager).certs().directory(),
        certs.location() == old(manager).certs().location(),
        call_ensures(CertificateManager::verify_peer_certificate, (certs, id, der), checked),
        call_ensures(CertificateManager::has_peer_fingerprint, (certs, id), pinned),
        cert matches Some(c) ==> der@ == c@,
    ensures
        cert is Some ==> (r is Ok <==> checked is Ok),
        cert is None ==> (r is Ok <==> !pinned),
        r matches Ok(g) ==> final(manager)@.connections.contains_key(id@)
            && final(manager)@.connections[id@].generation == g
            && final(manager)@.connections[id@].peer_cert == cert_bytes(cert)
            && final(manager)@.connections[id@].peer_addr == peer_addr
            && final(manager)@.connections[id@].local_addr == local_addr,
        r is Err ==> final(manager)@ == old(manager)@,
{
}

/// A peer is dialed unless its address was dialed within the last second; its
/// fallback goes to port 1716.
pub proof fn law_dials_fall_back_to_discovery(
    manager: &mut ConnectionManager,
    addr: SocketAddr,
    addr_text: String,
    ip_text: String,
    expected: Option<&Identity>,
    now: u128,
    dialing: Dialing,
    outcome: DialOutcome,
    reached: Result<Reached, DialFailure>,
)
    requires
        call_ensures(
            ConnectionManager::connect_to_device,
            (manager, addr, addr_text, ip_text, expected, now),
            Ok::<Dialing, Error>(dialing),
        ),
        call_ensures(Dialing::dialed, (dialing, outcome), reached),
    ensures
        old(manager)@.attempts.contains_key(ip_text@) ==> now - old(manager)@.attempts[ip_text@]
            >= 1_000_000_000,
        final(manager)@.attempts.contains_key(ip_text@) && final(manager)@.attempts[ip_text@]
            == now,
        reached is Ok <==> outcome is Connected,
        reached matches Ok(next) ==> next.target().addr == addr,
        reached matches Err(f) ==> f.fallback.target == (SocketAddr { ip: addr.ip, port: 1716 })
            && f.fallback.bind.port == 0 && (f.fallback.bind.ip is V4 <==> addr.ip is V4),
        reached matches Err(f) ==> (f.error@ is ConnectionTimeout <==> outcome is TimedOut),
{
}

/// An identity that was not written in plain text falls back as a dial that failed
/// does; a handshake that was made hands on the certificate that was presented.
pub proof fn law_reached_peers_are_shaken(
    reached: Reached,
    outcome: WriteOutcome,
    next: Result<Shaking, DialFailure>,
    shaking: Shaking,
    shake: HandshakeOutcome,
    encrypted: Result<Encrypted, Error>,
)
    requires
        call_ensures(Reached::identity_sent, (reached, outcome), next),
        call_ensures(Shaking::shaken, (shaking, shake), encrypted),
    ensures
        next is Ok <==> outcome is Written,
        next matches Ok(s) ==> s.target() == reached.target(),
        next matches Err(f) ==> f.fallback.target.ip == reached.target().addr.ip
            && f.fallback.target.port == reached.target().fallback_udp_port && f.error@
            is ConnectionError,
        encrypted is Ok <==> shake is Done,
        encrypted matches Ok(e) ==> e.target() == shaking.target() && (shake
            matches HandshakeOutcome::Done(cert) && e.peer_cert() == cert_bytes(cert)),
        shake matches HandshakeOutcome::Failed(e) ==> encrypted == Err::<Encrypted, Error>(e),
{
}

/// An identity under encryption is accepted from a peer that we dialed if and only
/// if it has a device id and is who was expected.
pub proof fn law_expected_peers_are_accepted(
    identity: &Identity,
    expected: &Option<Expected>,
    r: Result<(), Error>,
)
    requires
        call_ensures(check_outbound, (identity, expected), r),
    ensures
        r is Ok <==> crate::protocol::device_id::is_device_id(identity.device_id@) && (*expected
            matches Some(e) ==> e.device_id@ == identity.device_id@ && e.protocol_version
            == identity.protocol_version),
{
    crate::protocol::device_id::law_accepts_exactly_device_ids(identity.device_id@);
}

/// A broadcast goes to every address of the local network, at the given port.
pub proof fn law_broadcasts_go_to_everyone(identity: Identity, port: u16, r: DiscoveryService)
    requires
        call_ensures(DiscoveryService::new, (identity, port), r),
    ensures
        r.identity == identity,
        r.broadcast_addr.port == port,
        r.broadcast_addr.ip == IpAddr::V4(0xFFFF_FFFF),
{
}

/// A new loop waits for a packet and has told nobody anything.
pub proof fn law_new_loops_wait_for_packets(id: String, generation: u64, r: PacketLoop)
    requires
        call_ensures(PacketLoop::new, (id, generation), r),
    ensures
        r.device_id@ == id@,
        r.generation == generation,
        r.memory.phase == LoopPhase::Receiving,
        !r.memory.unpair_notified,
{
}

/// A pair packet says yes or no, a ping says nothing, and an identity is of
/// version 8 at port 1716, addressed to nobody.
pub proof fn law_packets_say_what_they_are_for(
    accepted: bool,
    pair: Packet,
    ping: Packet,
    id: String,
    name: String,
    kind: String,
    incoming: Vec<String>,
    outgoing: Vec<String>,
    identity: Identity,
)
    requires
        call_ensures(Packet::pair_response, (accepted,), pair),
        call_ensures(Packet::ping, (), ping),
        call_ensures(Identity::new, (id, name, kind, incoming, outgoing), identity),
    ensures
        pair.packet_type@ == "kdeconnect.pair"@,
        pair@.body.len() == 1,
        pair@.body[0] == ("pair"@, ValueView::Bool(accepted)),
        ping.packet_type@ == "kdeconnect.ping"@,
        ping@.body.len() == 0,
        identity.device_id == id,
        identity.device_name == name,
        identity.device_type == kind,
        identity.protocol_version == 8,
        identity.incoming_capabilities == incoming,
        identity.outgoing_capabilities == outgoing,
        identity.tcp_port == Some(1716u16),
        identity.target_device_id is None,
        identity.target_protocol_version is None,
{
}

} // verus!
