//! What the table of links, the exchange of identities and discovery come to,
//! field by field.

use vstd::prelude::*;

use crate::error::{Error, ErrorView};
use crate::net::SocketAddr;
use crate::outside::Moment;
use crate::packet::{Identity, PacketView};
use crate::protocol::connection::inbound::{
    carried_identity, echoed, inbound_refusal, may_replace, read_refusal, IdentityRead,
};
use crate::protocol::connection::manager::{
    after_send, disconnected, fresh_link, is_blank_line, is_rate_limited, own_identity,
    recorded, recv_outcome, send_error, with_activity, with_attempt, with_received, LinkView,
    LinksView, RecvEvent, SendOutcome,
};
use crate::protocol::connection::outbound::{
    dial_error, fallback_to, outbound_refusal, write_error, DialOutcome, Expected, WriteOutcome,
};
use crate::protocol::device_id::device_id_error;
use crate::protocol::discovery::{announcement_refusal, is_stripped};
use crate::protocol::listener::{
    after_exchange, exchange_refusal, Exchange, ExchangeOutcome, LinkAction,
};
use crate::table::texts;

verus! {

/// The first link to a device has the generation 1, and every other one the next
/// after the last that was given out.
pub proof fn law_generations_count_up(links: LinksView, id: Seq<char>)
    ensures
        !links.generations.contains_key(id) ==> links.next_generation(id) == 1,
        links.generations.contains_key(id) ==> links.next_generation(id) - links.generations[id]
            == 1,
{
}

/// Another link to a device takes the place of the one that is there and makes
/// its generation the last; nothing else changes, and no other device is
/// affected.
pub proof fn law_new_links_change_one_device(
    links: LinksView,
    id: Seq<char>,
    link: LinkView,
    other: Seq<char>,
)
    ensures
        ({
            let after = links.with_link(id, link);
            &&& after.connections.contains_key(id) && after.connections[id] == link
            &&& after.generations.contains_key(id) && after.generations[id] == link.generation
            &&& other != id ==> after.connections.contains_key(other)
                == links.connections.contains_key(other) && after.connections[other]
                == links.connections[other]
            &&& other != id ==> after.generations.contains_key(other)
                == links.generations.contains_key(other) && after.generations[other]
                == links.generations[other]
            &&& after.cancel_tokens == links.cancel_tokens
            &&& after.peer_capabilities == links.peer_capabilities
            &&& after.attempts == links.attempts
            &&& after.pending == links.pending
        }),
{
}

/// Whoever holds the live link to a device lets go of it with its token; whoever
/// holds an outdated one lets go of nothing. Nothing else changes.
pub proof fn law_disconnecting_removes_the_own_link(
    links: LinksView,
    id: Seq<char>,
    generation: u64,
    other: Seq<char>,
)
    ensures
        ({
            let after = disconnected(links, id, generation);
            let outdated = links.connections.contains_key(id) && links.connections[id].generation
                != generation;
            &&& after.connections.contains_key(other) <==> links.connections.contains_key(other)
                && (other != id || outdated)
            &&& after.connections.contains_key(other) ==> after.connections[other]
                == links.connections[other]
            &&& after.cancel_tokens.contains_key(other) <==> links.cancel_tokens.contains_key(other)
                && (other != id || outdated)
            &&& after.cancel_tokens.contains_key(other) ==> after.cancel_tokens[other]
                == links.cancel_tokens[other]
            &&& after.generations == links.generations
            &&& after.peer_capabilities == links.peer_capabilities
            &&& after.attempts == links.attempts
            &&& after.pending == links.pending
        }),
{
}

/// A packet that was sent on the live link is counted there, and nowhere else. A
/// write that timed out takes the link away; one that failed otherwise leaves
/// everything as it is.
pub proof fn law_sent_packets_are_counted(
    links: LinksView,
    id: Seq<char>,
    generation: u64,
    outcome: SendOutcome,
    other: Seq<char>,
)
    ensures
        ({
            let after = after_send(links, id, generation, outcome);
            let current = links.connections.contains_key(id) && links.connections[id].generation
                == generation;
            let timed_out = outcome is WriteTimedOut || outcome is FlushTimedOut;
            &&& outcome is Sent && current ==> after.connections.contains_key(id) && ({
                let before = links.connections[id];
                let now = after.connections[id];
                &&& before.packets_sent < u64::MAX ==> now.packets_sent == before.packets_sent + 1
                &&& before.packets_sent == u64::MAX ==> now.packets_sent == u64::MAX
                &&& now.packets_received == before.packets_received
                &&& now.generation == before.generation
                &&& now.last_activity == before.last_activity
                &&& now.peer_cert == before.peer_cert
                &&& now.peer_addr == before.peer_addr
                &&& now.local_addr == before.local_addr
            })
            &&& timed_out && current ==> !after.connections.contains_key(id)
            &&& !timed_out && !(outcome is Sent && current) ==> after == links
            &&& timed_out && links.connections.contains_key(id) && !current ==> after == links
            &&& other != id ==> after.connections.contains_key(other)
                == links.connections.contains_key(other) && after.connections[other]
                == links.connections[other]
        }),
{
}

/// A packet that was received on the live link is counted there, and nowhere
/// else.
pub proof fn law_received_packets_are_counted(
    links: LinksView,
    id: Seq<char>,
    generation: u64,
    other: Seq<char>,
)
    ensures
        ({
            let after = with_received(links, id, generation);
            let current = links.connections.contains_key(id) && links.connections[id].generation
                == generation;
            &&& current ==> after.connections.contains_key(id) && ({
                let before = links.connections[id];
                let now = after.connections[id];
                &&& before.packets_received < u64::MAX ==> now.packets_received
                    == before.packets_received + 1
                &&& before.packets_received == u64::MAX ==> now.packets_received == u64::MAX
                &&& now.packets_sent == before.packets_sent
                &&& now.generation == before.generation
                &&& now.last_activity == before.last_activity
                &&& now.peer_cert == before.peer_cert
                &&& now.peer_addr == before.peer_addr
                &&& now.local_addr == before.local_addr
            })
            &&& !current ==> after == links
            &&& other != id ==> after.connections.contains_key(other)
                == links.connections.contains_key(other) && after.connections[other]
                == links.connections[other]
        }),
{
}

/// The live link to a device was last used when it was last used; its other
/// facts, every other link, and an outdated link's successor stay as they are.
pub proof fn law_activity_is_noted_on_the_live_link(
    links: LinksView,
    id: Seq<char>,
    generation: u64,
    now: Moment,
    other: Seq<char>,
)
    ensures
        ({
            let after = with_activity(links, id, generation, now);
            let current = links.connections.contains_key(id) && links.connections[id].generation
                == generation;
            &&& current ==> after.connections.contains_key(id) && after.connections[id] == (
            LinkView { last_activity: now, ..links.connections[id] })
            &&& !current ==> after == links
            &&& other != id ==> after.connections.contains_key(other)
                == links.connections.contains_key(other) && after.connections[other]
                == links.connections[other]
        }),
{
}

/// Sending fails if and only if the packet was not sent: a timeout is reported as
/// one, and anything else as a broken link.
pub proof fn law_send_errors_tell_the_outcome(id: Seq<char>, outcome: SendOutcome)
    ensures
        send_error(id, outcome) is None <==> outcome is Sent,
        send_error(id, outcome) matches Some(e) ==> (e is ConnectionTimeout <==> outcome
            is WriteTimedOut || outcome is FlushTimedOut) && (e is ConnectionError <==> outcome
            is WriteFailed || outcome is FlushFailed),
{
}

/// A packet is sent to a device if and only if there is a link to it and, unless
/// the packet is an identity or a pair packet, the device is not known to take
/// other types only. The refusal tells which.
pub proof fn law_packets_are_sent_to_those_who_take_them(
    links: LinksView,
    id: Seq<char>,
    packet: PacketView,
)
    ensures
        ({
            let protocol = packet.packet_type == "kdeconnect.identity"@ || packet.packet_type
                == "kdeconnect.pair"@;
            let unwanted = links.peer_capabilities.contains_key(id)
                && !links.peer_capabilities[id].contains(packet.packet_type);
            match links.send_refusal(id, packet) {
                None => links.connections.contains_key(id) && (protocol || !unwanted),
                Some(ErrorView::CapabilityNotSupported { device_id, packet_type }) =>
                links.connections.contains_key(id) && !protocol && unwanted && device_id == id
                    && packet_type == packet.packet_type,
                Some(ErrorView::ConnectionError(m)) => !links.connections.contains_key(id) && m
                    == "No connection for device: "@ + id,
                _ => false,
            }
        }),
{
}

/// A link is read if and only if there is one and the reader holds its generation
/// or none.
pub proof fn law_links_are_read_by_their_holder(
    links: LinksView,
    id: Seq<char>,
    generation: Option<u64>,
)
    ensures
        links.recv_refusal(id, generation) is None <==> links.connections.contains_key(id) && (
        generation matches Some(g) ==> links.connections[id].generation == g),
        links.recv_refusal(id, generation) matches Some(e) ==> e is ConnectionError,
{
}

/// A line is blank if and only if it holds nothing but space, tab, line feed,
/// form feed and carriage return.
pub proof fn law_blank_lines_by_their_bytes(line: Seq<u8>)
    ensures
        is_blank_line(line) <==> forall|i: int|
            0 <= i < line.len() ==> set![9u8, 10, 12, 13, 32].contains(#[trigger] line[i]),
{
    let blank = set![9u8, 10, 12, 13, 32];
    if is_blank_line(line) {
        assert forall|i: int| 0 <= i < line.len() implies blank.contains(#[trigger] line[i]) by {
            assert(crate::protocol::connection::manager::is_blank_byte(line[i]));
        }
    }
    if forall|i: int| 0 <= i < line.len() ==> blank.contains(#[trigger] line[i]) {
        assert forall|i: int|
            0 <= i < line.len() implies crate::protocol::connection::manager::is_blank_byte(
            #[trigger] line[i],
        ) by {
            assert(blank.contains(line[i]));
        }
    }
}

/// What was read is a packet if and only if it is a line with something on it; a
/// line over the cap and a blank one are passed over, and everything else ends
/// the link: a timeout as such, a failure and the end of the stream as a broken
/// link.
pub proof fn law_reads_tell_packets_from_ends(id: Seq<char>, event: RecvEvent, line: Seq<u8>)
    ensures
        ({
            let is_line = event matches RecvEvent::Read(l) && l is Line;
            let skipped = event matches RecvEvent::Read(l) && l is OversizeSkipped;
            match recv_outcome(id, event, line) {
                Ok(taken) => (is_line || skipped) && (taken <==> is_line && exists|i: int|
                    0 <= i < line.len() && !set![9u8, 10, 12, 13, 32].contains(#[trigger] line[i])),
                Err(e) => !is_line && !skipped && (e is ConnectionTimeout <==> event is TimedOut)
                    && (e is ConnectionError <==> !(event is TimedOut)),
            }
        }),
{
    law_blank_lines_by_their_bytes(line);
}

/// An address may not be dialed within a second of the last time that it was
/// dialed, nor before that time; it may in every other case.
pub proof fn law_addresses_wait_a_second(links: LinksView, ip: Seq<char>, now: u128)
    ensures
        is_rate_limited(links, ip, now) <==> links.attempts.contains_key(ip) && now
            - links.attempts[ip] < 1_000_000_000,
{
}

/// An attempt is noted under its address with its time, and every other one is
/// remembered if and only if it is less than a minute old or lies in the future.
/// Nothing else changes.
pub proof fn law_attempts_are_remembered_for_a_minute(
    links: LinksView,
    ip: Seq<char>,
    now: u128,
    other: Seq<char>,
)
    ensures
        ({
            let after = with_attempt(links, ip, now);
            &&& after.attempts.contains_key(ip) && after.attempts[ip] == now
            &&& other != ip ==> (after.attempts.contains_key(other)
                <==> links.attempts.contains_key(other) && now - links.attempts[other]
                < 60_000_000_000)
            &&& other != ip && after.attempts.contains_key(other) ==> after.attempts[other]
                == links.attempts[other]
            &&& after.connections == links.connections
            &&& after.cancel_tokens == links.cancel_tokens
            &&& after.generations == links.generations
            &&& after.peer_capabilities == links.peer_capabilities
            &&& after.pending == links.pending
        }),
{
}

/// A new link has its own generation, certificate and addresses, has carried
/// nothing, and was last used when it was made.
pub proof fn law_fresh_links_have_carried_nothing(
    generation: u64,
    cert: Option<Seq<u8>>,
    peer_addr: Option<SocketAddr>,
    local_addr: Option<SocketAddr>,
    now: Moment,
)
    ensures
        ({
            let link = fresh_link(generation, cert, peer_addr, local_addr, now);
            &&& link.generation == generation
            &&& link.peer_cert == cert
            &&& link.peer_addr == peer_addr
            &&& link.local_addr == local_addr
            &&& link.packets_sent == 0
            &&& link.packets_received == 0
            &&& link.last_activity == now
        }),
{
}

/// An identity with both lists filled makes the incoming one what the device is
/// known to take; with a list empty it changes nothing. No other device, and
/// nothing else, is affected.
pub proof fn law_incoming_capabilities_are_recorded(
    links: LinksView,
    id: Seq<char>,
    incoming: Seq<Seq<char>>,
    outgoing: Seq<Seq<char>>,
    other: Seq<char>,
)
    ensures
        ({
            let after = recorded(links, id, incoming, outgoing);
            &&& incoming.len() > 0 && outgoing.len() > 0 ==> after.peer_capabilities.contains_key(
                id,
            ) && after.peer_capabilities[id] == incoming
            &&& incoming.len() == 0 || outgoing.len() == 0 ==> after == links
            &&& other != id ==> after.peer_capabilities.contains_key(other)
                == links.peer_capabilities.contains_key(other) && after.peer_capabilities[other]
                == links.peer_capabilities[other]
            &&& after.connections == links.connections
            &&& after.generations == links.generations
            &&& after.cancel_tokens == links.cancel_tokens
        }),
{
}

/// Generations are forgotten of exactly the devices without a link.
pub proof fn law_tidying_forgets_unlinked_devices(links: LinksView, id: Seq<char>)
    ensures
        links.tidied().generations.contains_key(id) <==> links.generations.contains_key(id)
            && links.connections.contains_key(id),
        links.tidied().generations.contains_key(id) ==> links.tidied().generations[id]
            == links.generations[id],
        links.tidied().connections == links.connections,
        links.tidied().cancel_tokens == links.cancel_tokens,
        links.tidied().peer_capabilities == links.peer_capabilities,
{
}

/// Who the daemon says it is: a desktop of protocol version 8, under its own id
/// and name, that takes what it takes and sends what it sends.
pub proof fn law_own_identity_says_who_we_are(i: Identity, links: LinksView)
    requires
        own_identity(i, links),
    ensures
        i.device_id@ == links.device_id,
        i.device_name@ == links.device_name,
        i.device_type@ == "desktop"@,
        i.protocol_version == 8,
        texts(i.incoming_capabilities@) == links.incoming_caps,
        texts(i.outgoing_capabilities@) == links.outgoing_caps,
{
}

/// An identity in plain text is accepted if and only if its device id is one and
/// is not ours, it is addressed to nobody or to one of the two spellings of our
/// id, and it is addressed to no protocol version or to version 8.
pub proof fn law_identities_are_accepted_when_meant_for_us(links: LinksView, identity: Identity)
    ensures
        ({
            let well_formed = device_id_error(identity.device_id@) is None;
            let ours = identity.device_id@ == links.device_id;
            let for_us = identity.target_device_id matches Some(t) ==> t@ == links.device_id || t@
                == echoed(links.device_id);
            let our_version = identity.target_protocol_version matches Some(v) ==> v == 8;
            &&& inbound_refusal(links, identity) is None <==> well_formed && !ours && for_us
                && our_version
            &&& inbound_refusal(links, identity) matches Some(e) ==> (e is Validation
                <==> !well_formed) && (well_formed ==> e is ConnectionError)
        }),
{
    crate::protocol::device_id::law_device_id_complaints_tell_what_is_wrong(identity.device_id@);
}

/// An id as it is written back has the letters and digits of the id where they
/// were, and underscores in every other place.
pub proof fn law_echoes_by_position(id: Seq<char>, i: int)
    requires
        0 <= i < id.len(),
    ensures
        echoed(id).len() == id.len(),
        ({
            let kept = 'a' <= id[i] <= 'z' || 'A' <= id[i] <= 'Z' || '0' <= id[i] <= '9';
            echoed(id)[i] == (if kept {
                id[i]
            } else {
                '_'
            })
        }),
{
}

/// A link gives way to another if and only if both presented a certificate and
/// it is the same one.
pub proof fn law_links_give_way_to_the_same_certificate(
    links: LinksView,
    id: Seq<char>,
    cert: Option<Seq<u8>>,
)
    ensures
        may_replace(links, id, cert) <==> (links.connections.contains_key(id) ==> (cert
            matches Some(new) && (links.connections[id].peer_cert matches Some(there) && new
            == there))),
{
}

/// A line with bytes on it, and only such a line, can hold an identity; a timeout
/// is reported as one, a line over the cap with its size and the cap, and
/// everything else as a broken link.
pub proof fn law_identity_lines_hold_something(
    read: IdentityRead,
    timed_out: Seq<char>,
    failed: Seq<char>,
)
    ensures
        match read_refusal(read, timed_out, failed) {
            None => read matches IdentityRead::Line(n) && n > 0,
            Some(ErrorView::ConnectionTimeout(m)) => read is TimedOut && m == timed_out,
            Some(ErrorView::PacketTooLarge { size, max }) => read matches IdentityRead::TooLarge {
                size: s,
                max: c,
            } && size == s && max == c,
            Some(ErrorView::ConnectionError(m)) => {
                ||| read matches IdentityRead::Failed(e) && m == failed + e@
                ||| read matches IdentityRead::Line(n) && n == 0 && m
                    == "Connection closed before sending identity"@
            },
            _ => false,
        },
{
}

/// A packet carries an identity if and only if its type says so and its body was
/// read as one.
pub proof fn law_identity_packets_carry_identities(
    packet_type: Seq<char>,
    parsed: Result<Identity, Error>,
    i: Identity,
)
    ensures
        carried_identity(packet_type, parsed) == Ok::<Identity, ErrorView>(i) <==> packet_type
            == "kdeconnect.identity"@ && parsed == Ok::<Identity, Error>(i),
        carried_identity(packet_type, parsed) matches Err(e) ==> e == (if packet_type
            == "kdeconnect.identity"@ {
            parsed->Err_0@
        } else {
            ErrorView::InvalidPacket("Expected identity packet, got "@ + packet_type)
        }),
{
}

/// An identity under encryption is accepted from a peer that we dialed if and
/// only if its device id is one and it is the peer that we expected, in the
/// version that we expected, where we expected one.
pub proof fn law_dialed_peers_are_who_they_were(identity: Identity, expected: Option<Expected>)
    ensures
        ({
            let well_formed = device_id_error(identity.device_id@) is None;
            let same = expected matches Some(e) ==> identity.device_id@ == e.device_id@
                && identity.protocol_version == e.protocol_version;
            &&& outbound_refusal(identity, expected) is None <==> well_formed && same
            &&& outbound_refusal(identity, expected) matches Some(e) ==> (e is Validation
                <==> !well_formed) && (well_formed ==> e is InvalidPacket)
        }),
{
    crate::protocol::device_id::law_device_id_complaints_tell_what_is_wrong(identity.device_id@);
}

/// Dialing failed if and only if it did not connect; a timeout is reported as
/// one. Writing an identity failed if and only if it was not written.
pub proof fn law_dial_errors_tell_the_outcome(
    addr: Seq<char>,
    dial: DialOutcome,
    which: Seq<char>,
    write: WriteOutcome,
)
    ensures
        dial_error(addr, dial) is None <==> dial is Connected,
        dial_error(addr, dial) matches Some(e) ==> (e is ConnectionTimeout <==> dial is TimedOut)
            && (e is ConnectionError <==> dial is Failed),
        write_error(which, write) is None <==> write is Written,
        write_error(which, write) matches Some(e) ==> e is ConnectionError,
{
}

/// The fallback goes to the peer's own address, at the port of its discovery,
/// from any address of the same family and any port.
pub proof fn law_fallback_goes_to_the_peer(ip: crate::net::IpAddr, udp_port: u16)
    ensures
        fallback_to(ip, udp_port).target.ip == ip,
        fallback_to(ip, udp_port).target.port == udp_port,
        fallback_to(ip, udp_port).bind.port == 0,
        ip is V4 ==> fallback_to(ip, udp_port).bind.ip == crate::net::IpAddr::V4(0),
        ip is V6 ==> fallback_to(ip, udp_port).bind.ip == crate::net::IpAddr::V6(0),
{
}

/// The identities in plain text and under encryption agree if and only if the
/// second one arrived as an identity and names the same device and version.
pub proof fn law_exchange_succeeds_when_identities_agree(
    device_id: Seq<char>,
    protocol_version: u32,
    exchange: Exchange,
)
    ensures
        exchange_refusal(device_id, protocol_version, exchange) is None <==> (exchange
            matches Exchange::Received { packet_type, parsed } && packet_type@
            == "kdeconnect.identity"@ && (parsed matches Ok(i) && i.device_id@ == device_id
            && i.protocol_version == protocol_version)),
        exchange_refusal(device_id, protocol_version, exchange) matches Some(e) ==> (e
            is ConnectionError <==> exchange is Unread) && (e is InvalidPacket <==> exchange
            is Received),
{
}

/// A link is driven if and only if the exchange succeeded and the link is still
/// the live one; then its packet loop's token is set, and the plugins introduce
/// themselves if and only if the device is paired. After a failed exchange the
/// link is gone, unless another one has taken its place.
pub proof fn law_live_links_are_driven(
    links: LinksView,
    id: Seq<char>,
    generation: u64,
    outcome: ExchangeOutcome,
    token: u64,
    paired: bool,
    other: Seq<char>,
)
    ensures
        ({
            let (after, action) = after_exchange(links, id, generation, outcome, token, paired);
            let current = links.connections.contains_key(id) && links.connections[id].generation
                == generation;
            let outdated = links.connections.contains_key(id) && !current;
            &&& action is Drive <==> outcome is Done && current
            &&& action matches LinkAction::Drive { init_plugins } ==> (init_plugins <==> paired)
                && after.cancel_tokens.contains_key(id) && after.cancel_tokens[id] == token
                && after.connections == links.connections
            &&& action is LeaveToReplacement <==> outcome is Done && !current
            &&& action is LeaveToReplacement ==> after == links
            &&& action is Abort <==> !(outcome is Done)
            &&& action matches LinkAction::Abort { owned } ==> (owned <==> !outdated) && (
            after.connections.contains_key(id) <==> outdated) && (after.cancel_tokens.contains_key(
                id,
            ) <==> outdated && links.cancel_tokens.contains_key(id))
            &&& other != id ==> after.connections.contains_key(other)
                == links.connections.contains_key(other) && after.connections[other]
                == links.connections[other] && after.cancel_tokens.contains_key(other)
                == links.cancel_tokens.contains_key(other) && after.cancel_tokens[other]
                == links.cancel_tokens[other]
            &&& after.generations == links.generations
        }),
{
}

/// An announced identity is heard if and only if it is not ours and its port, if
/// it names one, is one of 1716 to 1764. A wrong port is complained of first.
pub proof fn law_announcements_are_heard_by_port_and_device(own_id: Seq<char>, identity: Identity)
    ensures
        ({
            let port_fits = identity.tcp_port matches Some(p) ==> 1716 <= p <= 1764;
            let ours = identity.device_id@ == own_id;
            match announcement_refusal(own_id, identity) {
                None => port_fits && !ours,
                Some(ErrorView::DiscoveryError(m)) => if port_fits {
                    ours && m == "ignored_own"@
                } else {
                    m == "TCP port outside of kdeconnect's range"@
                },
                _ => false,
            }
        }),
{
}

/// A smaller identity says of the device what the full one says, and nothing of
/// its capabilities.
pub proof fn law_stripped_identities_keep_the_rest(small: Identity, identity: Identity)
    requires
        is_stripped(small, identity),
    ensures
        small.incoming_capabilities@.len() == 0,
        small.outgoing_capabilities@.len() == 0,
        small.device_id == identity.device_id,
        small.device_name == identity.device_name,
        small.device_type == identity.device_type,
        small.protocol_version == identity.protocol_version,
        small.tcp_port == identity.tcp_port,
        small.target_device_id == identity.target_device_id,
        small.target_protocol_version == identity.target_protocol_version,
{
}

} // verus!
