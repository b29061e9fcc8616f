//! Links that we open to peers.
//!
//! We dial, send our identity in plain text, let the peer make a TLS handshake
//! in which we are the server, exchange identities again under encryption, and
//! enter the link into the table. Where the dial or the plain identity fails,
//! the peer is sent our identity by UDP, once, so that it can dial us. The
//! outside work is done elsewhere; each step here takes how it ended and says
//! what follows.

use vstd::prelude::*;

use crate::error::{Error, ErrorView};
use crate::net::{IpAddr, SocketAddr};
use crate::outside::{in_calendar, Moment};
use crate::packet::{Identity, PacketView, DEFAULT_UDP_PORT};
use crate::protocol::cert_store::DirView;
use crate::protocol::connection::inbound::{
    carried_identity, cert_refusal, check_certificate, check_identity_read, linked, read_refusal,
    take_identity, with_new_link, IdentityRead, Linked,
};
use crate::protocol::connection::manager::{
    cert_bytes, fresh_link, is_rate_limited, recorded, with_attempt, ConnectionManager, LinksView,
};
use crate::protocol::crypto::{ensured_own, peer_refusal};
use crate::protocol::device_id::{device_id_error, validate_device_id};
use crate::table::texts;
use crate::text::{decimal, decimal_text, join2, join3, join4, join5, same_text};

verus! {

/// The address from which any address of the same family can be reached.
pub open spec fn unspecified_like(ip: IpAddr) -> SocketAddr {
    match ip {
        IpAddr::V4(_) => SocketAddr { ip: IpAddr::V4(0), port: 0 },
        IpAddr::V6(_) => SocketAddr { ip: IpAddr::V6(0), port: 0 },
    }
}

/// An identity that is to be sent to a peer by UDP, so that it dials us.
#[derive(Debug, Clone, Copy, PartialEq, Eq, Structural)]
pub struct Fallback {
    /// The address to send from, of the peer's family.
    pub bind: SocketAddr,
    pub target: SocketAddr,
}

/// The fallback for a peer.
pub open spec fn fallback_to(ip: IpAddr, udp_port: u16) -> Fallback {
    Fallback { bind: unspecified_like(ip), target: SocketAddr { ip, port: udp_port } }
}

/// Where our identity is to be sent so that a peer dials us.
pub fn send_reverse_connection_fallback(peer_ip: IpAddr, udp_port: u16) -> (r: Fallback)
    ensures
        r == fallback_to(peer_ip, udp_port),
{
    let ip = match peer_ip {
        IpAddr::V4(_) => IpAddr::V4(0),
        IpAddr::V6(_) => IpAddr::V6(0),
    };
    Fallback {
        bind: SocketAddr { ip, port: 0 },
        target: SocketAddr { ip: peer_ip, port: udp_port },
    }
}

/// A dial that came to nothing: what is reported, and what is tried instead.
#[derive(Debug)]
pub struct DialFailure {
    pub error: Error,
    pub fallback: Fallback,
}

/// How dialing ended.
#[derive(Debug)]
pub enum DialOutcome {
    Connected,
    Failed(String),
    TimedOut,
}

/// How writing an identity ended.
#[derive(Debug)]
pub enum WriteOutcome {
    Written,
    WriteFailed(String),
    FlushFailed(String),
}

/// How the handshake ended.
#[derive(Debug)]
pub enum HandshakeOutcome {
    /// With the certificate that the peer presented.
    Done(Option<Vec<u8>>),
    Failed(Error),
    TimedOut,
}

/// Why a dial failed, if it did.
pub open spec fn dial_error(addr: Seq<char>, outcome: DialOutcome) -> Option<ErrorView> {
    match outcome {
        DialOutcome::Connected => None,
        DialOutcome::Failed(e) => Some(
            ErrorView::ConnectionError("Failed to connect to "@ + addr + ": "@ + e@),
        ),
        DialOutcome::TimedOut => Some(
            ErrorView::ConnectionTimeout("TCP connect to "@ + addr + " timed out"@),
        ),
    }
}

/// Why an identity was not written, if it was not; `which` tells the plain one
/// from the encrypted one.
pub open spec fn write_error(which: Seq<char>, outcome: WriteOutcome) -> Option<ErrorView> {
    match outcome {
        WriteOutcome::Written => None,
        WriteOutcome::WriteFailed(e) => Some(
            ErrorView::ConnectionError("Failed to send "@ + which + " identity: "@ + e@),
        ),
        WriteOutcome::FlushFailed(e) => Some(
            ErrorView::ConnectionError("Failed to flush "@ + which + " identity: "@ + e@),
        ),
    }
}

/// Judges how writing an identity ended.
fn check_write(which: &str, outcome: WriteOutcome) -> (r: Result<(), Error>)
    ensures
        match r {
            Ok(_) => write_error(which@, outcome) is None,
            Err(e) => write_error(which@, outcome) == Some(e@),
        },
{
    match outcome {
        WriteOutcome::Written => Ok(()),
        WriteOutcome::WriteFailed(e) => Err(
            Error::ConnectionError(join4("Failed to send ", which, " identity: ", e.as_str())),
        ),
        WriteOutcome::FlushFailed(e) => Err(
            Error::ConnectionError(join4("Failed to flush ", which, " identity: ", e.as_str())),
        ),
    }
}

/// Who a peer said it was before the handshake.
#[derive(Debug)]
pub struct Expected {
    pub device_id: String,
    pub protocol_version: u32,
}

/// Why an identity that arrived under encryption is refused, if it is: its
/// device id is none, or it is not the one that we dialed.
pub open spec fn outbound_refusal(identity: Identity, expected: Option<Expected>) -> Option<
    ErrorView,
> {
    let id = identity.device_id@;
    if device_id_error(id) is Some {
        device_id_error(id)
    } else {
        match expected {
            None => None,
            Some(e) => if id != e.device_id@ {
                Some(
                    ErrorView::InvalidPacket(
                        "Encrypted identity deviceId '"@ + id
                            + "' does not match pre-TLS identity '"@ + e.device_id@ + "'"@,
                    ),
                )
            } else if identity.protocol_version != e.protocol_version {
                Some(
                    ErrorView::InvalidPacket(
                        "Encrypted identity protocolVersion "@ + decimal(
                            identity.protocol_version as nat,
                        ) + " differs from pre-TLS "@ + decimal(e.protocol_version as nat)
                            + " (mid-handshake change rejected)"@,
                    ),
                )
            } else {
                None
            },
        }
    }
}

/// Checks an identity that arrived under encryption.
pub fn check_outbound(identity: &Identity, expected: &Option<Expected>) -> (r: Result<(), Error>)
    ensures
        match r {
            Ok(_) => outbound_refusal(*identity, *expected) is None,
            Err(e) => outbound_refusal(*identity, *expected) == Some(e@),
        },
{
    let id = identity.device_id.as_str();
    match validate_device_id(id) {
        Ok(_) => {},
        Err(e) => {
            return Err(e);
        },
    }
    if let Some(e) = expected {
        if !same_text(id, e.device_id.as_str()) {
            return Err(
                Error::InvalidPacket(
                    join5(
                        "Encrypted identity deviceId '",
                        id,
                        "' does not match pre-TLS identity '",
                        e.device_id.as_str(),
                        "'",
                    ),
                ),
            );
        }
        if identity.protocol_version != e.protocol_version {
            let got = decimal_text(identity.protocol_version as u64);
            let wanted = decimal_text(e.protocol_version as u64);
            return Err(
                Error::InvalidPacket(
                    join5(
                        "Encrypted identity protocolVersion ",
                        got.as_str(),
                        " differs from pre-TLS ",
                        wanted.as_str(),
                        " (mid-handshake change rejected)",
                    ),
                ),
            );
        }
    }
    Ok(())
}

/// Who is dialed.
#[derive(Debug)]
pub struct Target {
    pub addr: SocketAddr,
    /// The address with its port, as text.
    pub addr_text: String,
    /// The IP address alone, as text.
    pub ip_text: String,
    /// Who the peer said it was before, where it said so.
    pub expected: Option<Expected>,
    /// The UDP port that the fallback goes to.
    pub fallback_udp_port: u16,
}

/// `target` says who is dialed, who it said it was, and where the fallback goes.
pub open spec fn is_target(
    target: Target,
    addr: SocketAddr,
    addr_text: String,
    ip_text: String,
    expected_identity: Option<&Identity>,
    fallback_udp_port: u16,
) -> bool {
    &&& target.addr == addr
    &&& target.addr_text == addr_text
    &&& target.ip_text == ip_text
    &&& target.fallback_udp_port == fallback_udp_port
    &&& match expected_identity {
        Some(i) => target.expected matches Some(e) && e.device_id == i.device_id
            && e.protocol_version == i.protocol_version,
        None => target.expected is None,
    }
}

impl Target {
    /// A peer to dial.
    pub fn new(
        addr: SocketAddr,
        addr_text: String,
        ip_text: String,
        expected_identity: Option<&Identity>,
        fallback_udp_port: u16,
    ) -> (r: Self)
        ensures
            is_target(r, addr, addr_text, ip_text, expected_identity, fallback_udp_port),
    {
        let expected = match expected_identity {
            Some(i) => Some(
                Expected { device_id: i.device_id.clone(), protocol_version: i.protocol_version },
            ),
            None => None,
        };
        Target { addr, addr_text, ip_text, expected, fallback_udp_port }
    }
}

/// A peer that is being dialed.
#[derive(Debug)]
pub struct Dialing {
    target: Target,
}

/// A peer that was reached, to which our plain identity goes.
#[derive(Debug)]
pub struct Reached {
    target: Target,
}

/// A peer that has our plain identity and drives the handshake.
#[derive(Debug)]
pub struct Shaking {
    target: Target,
}

/// A peer that the handshake was made with, whose identity is awaited.
#[derive(Debug)]
pub struct Encrypted {
    target: Target,
    peer_cert: Option<Vec<u8>>,
}

impl ConnectionManager {
    /// Begins to dial a peer whose fallback goes to the port of discovery, unless
    /// it was dialed too short a time ago. `now` is in nanoseconds.
    pub fn connect_to_device(
        &mut self,
        addr: SocketAddr,
        addr_text: String,
        ip_text: String,
        expected_identity: Option<&Identity>,
        now: u128,
    ) -> (r: Result<Dialing, Error>)
        ensures
            is_rate_limited(old(self)@, ip_text@, now) ==> final(self)@ == old(self)@ && (
            r matches Err(e) && e@ == ErrorView::ConnectionError(
                "Rate limited: too soon since last connection attempt to "@ + ip_text@,
            )),
            !is_rate_limited(old(self)@, ip_text@, now) ==> final(self)@ == with_attempt(
                old(self)@,
                ip_text@,
                now,
            ) && (r matches Ok(d) && is_target(
                d.target(),
                addr,
                addr_text,
                ip_text,
                expected_identity,
                DEFAULT_UDP_PORT,
            )),
            final(self).certs() == old(self).certs(),
    {
        let target = Target::new(addr, addr_text, ip_text, expected_identity, DEFAULT_UDP_PORT);
        self.connect_to_device_with_fallback_port(target, now)
    }

    /// Begins to dial a peer, unless it was dialed too short a time ago. `now`
    /// is in nanoseconds.
    pub fn connect_to_device_with_fallback_port(&mut self, target: Target, now: u128) -> (r: Result<
        Dialing,
        Error,
    >)
        ensures
            is_rate_limited(old(self)@, target.ip_text@, now) ==> final(self)@ == old(self)@ && (
            r matches Err(e) && e@ == ErrorView::ConnectionError(
                "Rate limited: too soon since last connection attempt to "@ + target.ip_text@,
            )),
            !is_rate_limited(old(self)@, target.ip_text@, now) ==> final(self)@ == with_attempt(
                old(self)@,
                target.ip_text@,
                now,
            ) && (r matches Ok(d) && d.target() == target),
            final(self).certs() == old(self).certs(),
    {
        match self.note_attempt(target.ip_text.as_str(), now) {
            Ok(_) => Ok(Dialing { target }),
            Err(e) => Err(e),
        }
    }

    /// Makes sure that there is an own certificate to serve the handshake with.
    pub fn ensure_own_identity(&mut self, device_name: &str) -> (r: Result<(), Error>)
        ensures
            final(self)@ == old(self)@,
            exists|now: Moment|
                0 <= now.seconds && in_calendar(now.seconds as int) && #[trigger] ensured_own(
                    old(self).certs(),
                    final(self).certs(),
                    old(self)@.device_id,
                    now,
                    r,
                ),
    {
        let id = self.own_device_id();
        self.certificates_mut().ensure_own_certificate(id.as_str(), device_name)
    }

    /// Enters the link of a dial without an identity, whose generation was given
    /// out before the handshake: the certificate has to be the pinned one, where
    /// one is presented and one is pinned. The link is entered even where the
    /// generation was forgotten since, and no generation is given out for it.
    pub fn connect(
        &mut self,
        device_id: &str,
        generation: u64,
        peer_cert: Option<Vec<u8>>,
        addr: SocketAddr,
        local_addr: Option<SocketAddr>,
        now: Moment,
    ) -> (r: Result<u64, Error>)
        ensures
            ({
                let refusal = match cert_bytes(peer_cert) {
                    Some(der) => peer_refusal(
                        old(self).certs().directory(),
                        old(self).certs().location(),
                        device_id@,
                        der,
                    ),
                    None => None,
                };
                match r {
                    Err(e) => refusal == Some(e@) && final(self)@ == old(self)@,
                    Ok(g) => refusal is None && g == generation && final(self)@ == (LinksView {
                        connections: old(self)@.connections.insert(
                            device_id@,
                            fresh_link(
                                generation,
                                cert_bytes(peer_cert),
                                Some(addr),
                                local_addr,
                                now,
                            ),
                        ),
                        ..old(self)@
                    }),
                }
            }),
            old(self)@.wf() && (r is Ok ==> old(self)@.is_given_out(device_id@, generation))
                ==> final(self)@.wf(),
            final(self).certs() == old(self).certs(),
    {
        if let Some(der) = &peer_cert {
            match self.certificates().verify_peer_certificate(device_id, der.as_slice()) {
                Ok(_) => {},
                Err(e) => {
                    return Err(e);
                },
            }
        }
        self.insert_link(device_id, generation, peer_cert, Some(addr), local_addr, now);
        Ok(generation)
    }
}

impl Dialing {
    /// Who is dialed.
    pub closed spec fn target(self) -> Target {
        self.target
    }

    /// Goes on from how dialing ended. A failed dial is reported as such, and
    /// the peer is to be sent the fallback.
    pub fn dialed(self, outcome: DialOutcome) -> (r: Result<Reached, DialFailure>)
        ensures
            match dial_error(self.target().addr_text@, outcome) {
                None => r matches Ok(next) && next.target() == self.target(),
                Some(e) => r matches Err(f) && f.error@ == e && f.fallback == fallback_to(
                    self.target().addr.ip,
                    self.target().fallback_udp_port,
                ),
            },
    {
        let addr = self.target.addr_text.as_str();
        let error = match outcome {
            DialOutcome::Connected => {
                return Ok(Reached { target: self.target });
            },
            DialOutcome::Failed(e) => Error::ConnectionError(
                join4("Failed to connect to ", addr, ": ", e.as_str()),
            ),
            DialOutcome::TimedOut => Error::ConnectionTimeout(
                join3("TCP connect to ", addr, " timed out"),
            ),
        };
        let fallback = send_reverse_connection_fallback(
            self.target.addr.ip,
            self.target.fallback_udp_port,
        );
        Err(DialFailure { error, fallback })
    }
}

impl Reached {
    /// Who was reached.
    pub closed spec fn target(self) -> Target {
        self.target
    }

    /// Goes on from how writing our plain identity ended. A failure is reported
    /// as such, and the peer is to be sent the fallback.
    pub fn identity_sent(self, outcome: WriteOutcome) -> (r: Result<Shaking, DialFailure>)
        ensures
            match write_error("plaintext"@, outcome) {
                None => r matches Ok(next) && next.target() == self.target(),
                Some(e) => r matches Err(f) && f.error@ == e && f.fallback == fallback_to(
                    self.target().addr.ip,
                    self.target().fallback_udp_port,
                ),
            },
    {
        match check_write("plaintext", outcome) {
            Ok(_) => Ok(Shaking { target: self.target }),
            Err(error) => {
                let fallback = send_reverse_connection_fallback(
                    self.target.addr.ip,
                    self.target.fallback_udp_port,
                );
                Err(DialFailure { error, fallback })
            },
        }
    }
}

impl Shaking {
    /// Who the handshake is made with.
    pub closed spec fn target(self) -> Target {
        self.target
    }

    /// Goes on from how the handshake ended.
    pub fn shaken(self, outcome: HandshakeOutcome) -> (r: Result<Encrypted, Error>)
        ensures
            match outcome {
                HandshakeOutcome::Done(cert) => r matches Ok(next) && next.target()
                    == self.target() && next.peer_cert() == cert_bytes(cert),
                HandshakeOutcome::Failed(e) => r matches Err(got) && got == e,
                HandshakeOutcome::TimedOut => r matches Err(got) && got@
                    == ErrorView::ConnectionError(
                    "TLS server handshake timed out connecting to "@ + self.target().addr_text@,
                ),
            },
    {
        match outcome {
            HandshakeOutcome::Done(peer_cert) => Ok(Encrypted { target: self.target, peer_cert }),
            HandshakeOutcome::Failed(e) => Err(e),
            HandshakeOutcome::TimedOut => Err(
                Error::ConnectionError(
                    join2(
                        "TLS server handshake timed out connecting to ",
                        self.target.addr_text.as_str(),
                    ),
                ),
            ),
        }
    }
}

/// The outcome of an exchange with a peer that we dialed: the link that it got
/// and the table afterwards, or why it got none.
pub open spec fn outbound_link(
    links: LinksView,
    d: DirView,
    cert_dir: Seq<char>,
    identity: Identity,
    target: Target,
    cert: Option<Seq<u8>>,
    local_addr: Option<SocketAddr>,
    now: Moment,
) -> (LinksView, Result<Linked, ErrorView>) {
    let id = identity.device_id@;
    match outbound_refusal(identity, target.expected) {
        Some(e) => (links, Err(e)),
        None => match cert_refusal(d, cert_dir, id, cert) {
            Some(e) => (links, Err(e)),
            None => {
                let known = recorded(
                    links,
                    id,
                    texts(identity.incoming_capabilities@),
                    texts(identity.outgoing_capabilities@),
                );
                (
                    with_new_link(known, id, cert, Some(target.addr), local_addr, now).tidied(),
                    Ok(linked(known, id)),
                )
            },
        },
    }
}

impl Encrypted {
    /// Who the handshake was made with.
    pub closed spec fn target(self) -> Target {
        self.target
    }

    /// The certificate that the peer presented.
    pub closed spec fn peer_cert(self) -> Option<Seq<u8>> {
        cert_bytes(self.peer_cert)
    }

    /// Judges how writing our identity under encryption ended.
    pub fn identity_sent(&self, outcome: WriteOutcome) -> (r: Result<(), Error>)
        ensures
            match r {
                Ok(_) => write_error("encrypted"@, outcome) is None,
                Err(e) => write_error("encrypted"@, outcome) == Some(e@),
            },
    {
        check_write("encrypted", outcome)
    }

    /// Judges how reading the peer's identity ended.
    pub fn line_read(&self, read: IdentityRead) -> (r: Result<(), Error>)
        ensures
            ({
                let refusal = read_refusal(
                    read,
                    "Timed out reading identity from "@ + self.target().addr_text@,
                    "Failed to read encrypted identity: "@,
                );
                match r {
                    Ok(_) => refusal is None,
                    Err(e) => refusal == Some(e@),
                }
            }),
    {
        let timed_out = join2("Timed out reading identity from ", self.target.addr_text.as_str());
        check_identity_read(read, timed_out.as_str(), "Failed to read encrypted identity: ")
    }

    /// Judges the peer's identity and its certificate, and enters the link into
    /// the table in place of the one that is there.
    pub fn identified(
        self,
        manager: &mut ConnectionManager,
        packet_type: &str,
        parsed: Result<Identity, Error>,
        local_addr: Option<SocketAddr>,
        now: Moment,
    ) -> (r: Result<(Identity, Linked), Error>)
        requires
            parsed matches Ok(i) ==> old(manager)@.next_generation(i.device_id@) <= u64::MAX,
        ensures
            match carried_identity(packet_type@, parsed) {
                Err(e) => r matches Err(got) && got@ == e && final(manager)@ == old(manager)@,
                Ok(identity) => {
                    let (links, outcome) = outbound_link(
                        old(manager)@,
                        old(manager).certs().directory(),
                        old(manager).certs().location(),
                        identity,
                        self.target(),
                        self.peer_cert(),
                        local_addr,
                        now,
                    );
                    &&& final(manager)@ == links
                    &&& match r {
                        Ok((i, link)) => i == identity && outcome == Ok::<Linked, ErrorView>(link),
                        Err(e) => outcome == Err::<Linked, ErrorView>(e@),
                    }
                },
            },
            old(manager)@.wf() ==> final(manager)@.wf(),
            final(manager).certs() == old(manager).certs(),
    {
        let identity = match take_identity(packet_type, parsed) {
            Ok(i) => i,
            Err(e) => {
                return Err(e);
            },
        };
        match check_outbound(&identity, &self.target.expected) {
            Ok(_) => {},
            Err(e) => {
                return Err(e);
            },
        }
        let id = identity.device_id.clone();
        match check_certificate(manager.certificates(), id.as_str(), &self.peer_cert) {
            Ok(_) => {},
            Err(e) => {
                return Err(e);
            },
        }
        manager.record_peer_capabilities(
            id.as_str(),
            &identity.incoming_capabilities,
            &identity.outgoing_capabilities,
        );
        let link = manager.enter_link(
            id.as_str(),
            self.peer_cert,
            Some(self.target.addr),
            local_addr,
            now,
        );
        manager.cleanup_stale_generations();
        Ok((identity, link))
    }
}

/// A peer that we dialed gets a link only where it is still who it said it was
/// before the handshake, and its certificate bears its device id and is the
/// pinned one, where one is pinned.
pub proof fn law_outbound_links_passed_every_check(
    links: LinksView,
    d: DirView,
    cert_dir: Seq<char>,
    identity: Identity,
    target: Target,
    cert: Option<Seq<u8>>,
    local_addr: Option<SocketAddr>,
    now: Moment,
)
    requires
        outbound_link(links, d, cert_dir, identity, target, cert, local_addr, now).1 is Ok,
    ensures
        crate::protocol::device_id::is_device_id(identity.device_id@),
        target.expected matches Some(e) ==> identity.device_id@ == e.device_id@
            && identity.protocol_version == e.protocol_version,
        cert matches Some(der) ==> crate::protocol::certificate::common_name_of(der) == Ok::<
            Seq<char>,
            ErrorView,
        >(identity.device_id@) && peer_refusal(d, cert_dir, identity.device_id@, der) is None,
        cert is None ==> !crate::protocol::crypto::has_fingerprint(d, identity.device_id@),
{
    crate::protocol::device_id::law_accepts_exactly_device_ids(identity.device_id@);
}

/// The link of a dial is live, the link whose place it took is outdated and its
/// packet loop is told to stop, and only devices with a link keep a generation.
pub proof fn law_outbound_link_is_live(
    links: LinksView,
    d: DirView,
    cert_dir: Seq<char>,
    identity: Identity,
    target: Target,
    cert: Option<Seq<u8>>,
    local_addr: Option<SocketAddr>,
    now: Moment,
)
    requires
        links.wf(),
        links.next_generation(identity.device_id@) <= u64::MAX,
    ensures
        ({
            let id = identity.device_id@;
            let (after, outcome) = outbound_link(
                links,
                d,
                cert_dir,
                identity,
                target,
                cert,
                local_addr,
                now,
            );
            outcome matches Ok(link) ==> {
                &&& after.is_current(id, link.generation)
                &&& links.connections.contains_key(id) ==> !after.is_current(
                    id,
                    links.connections[id].generation,
                )
                &&& links.connections.contains_key(id) && links.cancel_tokens.contains_key(id)
                    ==> link.cancel == Some(links.cancel_tokens[id])
                    && !after.cancel_tokens.contains_key(id)
                &&& after.generations.dom() == after.connections.dom()
            }
        }),
{
    let id = identity.device_id@;
    let (after, outcome) = outbound_link(
        links,
        d,
        cert_dir,
        identity,
        target,
        cert,
        local_addr,
        now,
    );
    if outcome is Ok {
        assert(after.generations.dom() =~= after.connections.dom());
    }
}

/// After a peer that we dialed got a link, and both lists of its identity are filled,
/// a packet that is neither an identity nor a pair packet is refused to that peer
/// if and only if its type is not among the incoming capabilities of that
/// identity; where either list is empty, what was known of the peer before
/// decides. No other peer is affected.
pub proof fn law_outbound_link_takes_the_incoming_capabilities(
    links: LinksView,
    d: DirView,
    cert_dir: Seq<char>,
    identity: Identity,
    target: Target,
    cert: Option<Seq<u8>>,
    local_addr: Option<SocketAddr>,
    now: Moment,
    packet: PacketView,
    other: Seq<char>,
)
    requires
        outbound_link(links, d, cert_dir, identity, target, cert, local_addr, now).1 is Ok,
        packet.packet_type != "kdeconnect.identity"@,
        packet.packet_type != "kdeconnect.pair"@,
    ensures
        ({
            let id = identity.device_id@;
            let incoming = identity.incoming_capabilities@;
            let outgoing = identity.outgoing_capabilities@;
            let after = outbound_link(links, d, cert_dir, identity, target, cert, local_addr, now).0;
            &&& incoming.len() > 0 && outgoing.len() > 0 ==> (after.send_refusal(id, packet)
                is Some <==> !(exists|i: int|
                0 <= i < incoming.len() && (#[trigger] incoming[i])@ == packet.packet_type))
            &&& incoming.len() == 0 || outgoing.len() == 0 ==> (after.send_refusal(id, packet)
                is Some <==> links.peer_capabilities.contains_key(id)
                && !links.peer_capabilities[id].contains(packet.packet_type))
            &&& other != id ==> after.send_refusal(other, packet) == links.send_refusal(
                other,
                packet,
            )
        }),
{
    let incoming = identity.incoming_capabilities@;
    if exists|i: int| 0 <= i < incoming.len() && (#[trigger] incoming[i])@ == packet.packet_type {
        let i = choose|i: int|
            0 <= i < incoming.len() && (#[trigger] incoming[i])@ == packet.packet_type;
        assert(texts(incoming)[i] == packet.packet_type);
    }
    if texts(incoming).contains(packet.packet_type) {
        let i = choose|i: int|
            0 <= i < texts(incoming).len() && texts(incoming)[i] == packet.packet_type;
        assert(incoming[i]@ == packet.packet_type);
    }
}

/// The link of a peer that we dialed has the next generation, the certificate
/// that the peer presented and the address that we dialed, and has carried
/// nothing. It tells whether another link made room for it, and which packet loop
/// is to be cancelled with that. No other device is affected.
pub proof fn law_outbound_link_is_as_dialed(
    links: LinksView,
    d: DirView,
    cert_dir: Seq<char>,
    identity: Identity,
    target: Target,
    cert: Option<Seq<u8>>,
    local_addr: Option<SocketAddr>,
    now: Moment,
    other: Seq<char>,
)
    requires
        links.next_generation(identity.device_id@) <= u64::MAX,
    ensures
        ({
            let id = identity.device_id@;
            let (after, outcome) = outbound_link(links, d, cert_dir, identity, target, cert, local_addr, now);
            let there = links.connections.contains_key(id);
            outcome matches Ok(link) ==> {
                &&& link.generation == (if links.generations.contains_key(id) {
                    links.generations[id] + 1
                } else {
                    1
                })
                &&& link.evicted <==> there
                &&& link.cancel is Some <==> there && links.cancel_tokens.contains_key(id)
                &&& link.cancel matches Some(token) ==> token == links.cancel_tokens[id]
                &&& after.connections.contains_key(id)
                &&& after.connections[id].generation == link.generation
                &&& after.connections[id].peer_cert == cert
                &&& after.connections[id].peer_addr == Some(target.addr)
                &&& after.connections[id].local_addr == local_addr
                &&& after.connections[id].packets_sent == 0
                &&& after.connections[id].packets_received == 0
                &&& after.connections[id].last_activity == now
                &&& after.generations.contains_key(id) && after.generations[id] == link.generation
                &&& after.cancel_tokens.contains_key(id) <==> !there
                    && links.cancel_tokens.contains_key(id)
                &&& other != id ==> after.connections.contains_key(other)
                    == links.connections.contains_key(other) && after.connections[other]
                    == links.connections[other] && after.cancel_tokens.contains_key(other)
                    == links.cancel_tokens.contains_key(other) && after.cancel_tokens[other]
                    == links.cancel_tokens[other]
            }
        }),
{
}

/// A peer that we dialed gets a link if and only if it has a device id, is who it
/// said it was before the handshake, where it said so, and its certificate bears
/// its device id and is the pinned one, where one is pinned; a peer without a
/// certificate gets one only where none is pinned. Whether a link is there does
/// not matter. Without a link the table stays as it is.
pub proof fn law_dialed_peers_get_links_by_certificate(
    links: LinksView,
    d: DirView,
    cert_dir: Seq<char>,
    identity: Identity,
    target: Target,
    cert: Option<Seq<u8>>,
    local_addr: Option<SocketAddr>,
    now: Moment,
)
    ensures
        ({
            let id = identity.device_id@;
            let (after, outcome) = outbound_link(
                links,
                d,
                cert_dir,
                identity,
                target,
                cert,
                local_addr,
                now,
            );
            &&& outcome is Ok <==> crate::protocol::device_id::is_device_id(id) && (target.expected
                matches Some(e) ==> id == e.device_id@ && identity.protocol_version
                == e.protocol_version) && match cert {
                Some(der) => crate::protocol::certificate::common_name_of(der) == Ok::<
                    Seq<char>,
                    ErrorView,
                >(id) && peer_refusal(d, cert_dir, id, der) is None,
                None => !crate::protocol::crypto::has_fingerprint(d, id),
            }
            &&& outcome is Err ==> after == links
        }),
{
    crate::protocol::device_id::law_accepts_exactly_device_ids(identity.device_id@);
}

} // verus!
