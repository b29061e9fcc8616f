//! The table of live links.
//!
//! Each link to a device carries a generation, which grows with every new link
//! to that device. Whoever drives a link holds its generation; once a newer link
//! has taken its place, what they ask for is refused and changes nothing.

use vstd::prelude::*;

use crate::error::{Error, ErrorView};
use crate::net::SocketAddr;
use crate::outside::Moment;
use crate::packet::{copy_texts, Identity, Packet, PacketView, DEFAULT_TCP_PORT, PROTOCOL_VERSION};
use crate::protocol::cert_store::copy_bytes;
use crate::protocol::connection::framing::SteadyLine;
use crate::protocol::crypto::CertificateManager;
use crate::table::{lists_keys, lists_text, texts, Table};
use crate::text::{decimal, decimal_text, join2, join4, join5};

verus! {

/// What is known of a link's traffic.
#[derive(Debug)]
pub struct ConnectionInfo {
    pub device_id: String,
    pub generation: u64,
    pub packets_sent: u64,
    pub packets_received: u64,
    pub last_activity: Moment,
}

/// A live link.
#[derive(Debug)]
pub struct Connection {
    pub generation: u64,
    pub peer_cert: Option<Vec<u8>>,
    pub peer_addr: Option<SocketAddr>,
    pub local_addr: Option<SocketAddr>,
    pub packets_sent: u64,
    pub packets_received: u64,
    pub last_activity: Moment,
}

/// A live link by its contents.
pub struct LinkView {
    pub generation: u64,
    pub peer_cert: Option<Seq<u8>>,
    pub peer_addr: Option<SocketAddr>,
    pub local_addr: Option<SocketAddr>,
    pub packets_sent: u64,
    pub packets_received: u64,
    pub last_activity: Moment,
}

/// A certificate that may be there, by its contents.
pub open spec fn cert_bytes(cert: Option<Vec<u8>>) -> Option<Seq<u8>> {
    match cert {
        Some(c) => Some(c@),
        None => None,
    }
}

impl View for Connection {
    type V = LinkView;

    open spec fn view(&self) -> LinkView {
        LinkView {
            generation: self.generation,
            peer_cert: cert_bytes(self.peer_cert),
            peer_addr: self.peer_addr,
            local_addr: self.local_addr,
            packets_sent: self.packets_sent,
            packets_received: self.packets_received,
            last_activity: self.last_activity,
        }
    }
}

/// Everything that the manager holds, by its contents.
#[verifier::ext_equal]
pub struct LinksView {
    /// The live links by device.
    pub connections: Map<Seq<char>, LinkView>,
    /// The tokens that stop the packet loops, by device.
    pub cancel_tokens: Map<Seq<char>, u64>,
    /// When each address was last dialed, in nanoseconds.
    pub attempts: Map<Seq<char>, u128>,
    /// The devices that are being connected.
    pub pending: Set<Seq<char>>,
    /// The packet types that each device takes, where it is known.
    pub peer_capabilities: Map<Seq<char>, Seq<Seq<char>>>,
    /// The last generation given out to each device.
    pub generations: Map<Seq<char>, u64>,
    pub device_id: Seq<char>,
    pub device_name: Seq<char>,
    pub incoming_caps: Seq<Seq<char>>,
    pub outgoing_caps: Seq<Seq<char>>,
    pub tcp_port: Option<u16>,
}

impl LinksView {
    /// No link has a generation that was not given out.
    pub open spec fn wf(self) -> bool {
        forall|id: Seq<char>| #[trigger]
            self.connections.contains_key(id) ==> self.is_given_out(
                id,
                self.connections[id].generation,
            )
    }

    /// Whether `generation` was given out to `id` and is not forgotten.
    pub open spec fn is_given_out(self, id: Seq<char>, generation: u64) -> bool {
        self.generations.contains_key(id) && generation <= self.generations[id]
    }

    /// The generation that the next link to `id` gets.
    pub open spec fn next_generation(self, id: Seq<char>) -> int {
        if self.generations.contains_key(id) {
            self.generations[id] + 1
        } else {
            1
        }
    }

    /// Whether the live link to `id` is exactly `generation`.
    pub open spec fn is_current(self, id: Seq<char>, generation: u64) -> bool {
        self.connections.contains_key(id) && self.connections[id].generation == generation
    }

    /// The table with another link to `id`.
    pub open spec fn with_link(self, id: Seq<char>, link: LinkView) -> LinksView {
        LinksView {
            connections: self.connections.insert(id, link),
            generations: self.generations.insert(id, link.generation),
            ..self
        }
    }

    /// The table without the link to `id` and its token.
    pub open spec fn without_link(self, id: Seq<char>) -> LinksView {
        LinksView {
            connections: self.connections.remove(id),
            cancel_tokens: self.cancel_tokens.remove(id),
            ..self
        }
    }

    /// The table without the token of `id`.
    pub open spec fn without_token(self, id: Seq<char>) -> LinksView {
        LinksView { cancel_tokens: self.cancel_tokens.remove(id), ..self }
    }

    /// The table without the generations of devices that have no link.
    pub open spec fn tidied(self) -> LinksView {
        LinksView { generations: self.generations.restrict(self.connections.dom()), ..self }
    }

    /// Why a packet is not sent to `id`, if it is not: there is no link, or the
    /// device is known not to take its type. Identities and pair packets are
    /// always taken, and so is everything by a device of which nothing is known.
    pub open spec fn send_refusal(self, id: Seq<char>, packet: PacketView) -> Option<ErrorView> {
        if !self.connections.contains_key(id) {
            Some(no_connection(id))
        } else if !packet.is_identity() && !packet.is_pair() && self.peer_capabilities.contains_key(
            id,
        ) && !self.peer_capabilities[id].contains(packet.packet_type) {
            Some(
                ErrorView::CapabilityNotSupported { device_id: id, packet_type: packet.packet_type },
            )
        } else {
            None
        }
    }

    /// Why nothing is read from the link to `id`, if nothing is: there is no
    /// link, or it is not the one that the reader holds.
    pub open spec fn recv_refusal(self, id: Seq<char>, generation: Option<u64>) -> Option<
        ErrorView,
    > {
        if !self.connections.contains_key(id) {
            Some(no_connection(id))
        } else {
            match generation {
                Some(g) => if self.connections[id].generation != g {
                    Some(stale_generation(id, g, self.connections[id].generation))
                } else {
                    None
                },
                None => None,
            }
        }
    }
}

/// There is no link.
pub open spec fn no_connection(id: Seq<char>) -> ErrorView {
    ErrorView::ConnectionError("No connection for device: "@ + id)
}

/// The link was replaced.
pub open spec fn stale_generation(id: Seq<char>, held: u64, current: u64) -> ErrorView {
    ErrorView::ConnectionError(
        "Stale generation "@ + decimal(held as nat) + " for device "@ + id
            + " (link replaced; current generation "@ + decimal(current as nat) + ")"@,
    )
}

/// Keeps the live links and what is known of the devices behind them.
pub struct ConnectionManager {
    cert_manager: CertificateManager,
    connections: Table<Connection>,
    cancel_tokens: Table<u64>,
    attempts: Table<u128>,
    pending: Table<()>,
    peer_capabilities: Table<Vec<String>>,
    generations: Table<u64>,
    device_id: String,
    device_name: String,
    incoming_caps: Vec<String>,
    outgoing_caps: Vec<String>,
    tcp_port: Option<u16>,
}

impl View for ConnectionManager {
    type V = LinksView;

    closed spec fn view(&self) -> LinksView {
        LinksView {
            connections: self.connections@.map_values(|c: Connection| c@),
            cancel_tokens: self.cancel_tokens@,
            attempts: self.attempts@,
            pending: self.pending@.dom(),
            peer_capabilities: self.peer_capabilities@.map_values(|v: Vec<String>| texts(v@)),
            generations: self.generations@,
            device_id: self.device_id@,
            device_name: self.device_name@,
            incoming_caps: texts(self.incoming_caps@),
            outgoing_caps: texts(self.outgoing_caps@),
            tcp_port: self.tcp_port,
        }
    }
}

impl ConnectionManager {
    /// The certificates of the daemon and its peers.
    pub closed spec fn certs(&self) -> CertificateManager {
        self.cert_manager
    }

    /// The certificates of the daemon and its peers.
    pub fn certificates(&self) -> (r: &CertificateManager)
        ensures
            *r == self.certs(),
    {
        &self.cert_manager
    }

    /// The certificates of the daemon and its peers, to be changed.
    pub fn certificates_mut(&mut self) -> (r: &mut CertificateManager)
        ensures
            *r == old(self).certs(),
            final(self).certs() == *final(r),
            final(self)@ == old(self)@,
    {
        &mut self.cert_manager
    }

    /// A manager without links.
    pub fn new(cert_manager: CertificateManager) -> (r: Result<Self, Error>)
        ensures
            r matches Ok(m) && m.certs() == cert_manager && m@.wf() && m@ == (LinksView {
                connections: Map::empty(),
                cancel_tokens: Map::empty(),
                attempts: Map::empty(),
                pending: Set::empty(),
                peer_capabilities: Map::empty(),
                generations: Map::empty(),
                device_id: Seq::empty(),
                device_name: "Rust Connect"@,
                incoming_caps: Seq::empty(),
                outgoing_caps: Seq::empty(),
                tcp_port: None,
            }),
    {
        let m = ConnectionManager {
            cert_manager,
            connections: Table::new(),
            cancel_tokens: Table::new(),
            attempts: Table::new(),
            pending: Table::new(),
            peer_capabilities: Table::new(),
            generations: Table::new(),
            device_id: String::new(),
            device_name: "Rust Connect".to_owned(),
            incoming_caps: Vec::new(),
            outgoing_caps: Vec::new(),
            tcp_port: None,
        };
        assert(m@.connections =~= Map::empty());
        assert(m@.pending =~= Set::empty());
        assert(m@.peer_capabilities =~= Map::empty());
        assert(m@.incoming_caps =~= Seq::empty());
        assert(m@.outgoing_caps =~= Seq::empty());
        Ok(m)
    }

    /// Notes that a device is being connected; `false` where it already was.
    pub fn add_pending_connection(&mut self, device_id: &str) -> (r: bool)
        ensures
            r == !old(self)@.pending.contains(device_id@),
            final(self)@ == (LinksView {
                pending: old(self)@.pending.insert(device_id@),
                ..old(self)@
            }),
            final(self).certs() == old(self).certs(),
    {
        let previous = self.pending.insert(device_id.to_owned(), ());
        assert(self@ =~= LinksView {
            pending: old(self)@.pending.insert(device_id@),
            ..old(self)@
        });
        previous.is_none()
    }

    /// Notes that a device is no longer being connected.
    pub fn remove_pending_connection(&mut self, device_id: &str)
        ensures
            final(self)@ == (LinksView {
                pending: old(self)@.pending.remove(device_id@),
                ..old(self)@
            }),
            final(self).certs() == old(self).certs(),
    {
        self.pending.remove(device_id);
        assert(self@ =~= LinksView {
            pending: old(self)@.pending.remove(device_id@),
            ..old(self)@
        });
    }

    /// Sets the packet types that this daemon takes and sends.
    pub fn set_capabilities(&mut self, incoming: Vec<String>, outgoing: Vec<String>)
        ensures
            final(self)@ == (LinksView {
                incoming_caps: texts(incoming@),
                outgoing_caps: texts(outgoing@),
                ..old(self)@
            }),
            final(self).certs() == old(self).certs(),
    {
        self.incoming_caps = incoming;
        self.outgoing_caps = outgoing;
    }

    /// Sets who this daemon says it is.
    pub fn set_device_identity(&mut self, device_id: &str, device_name: &str)
        ensures
            final(self)@ == (LinksView {
                device_id: device_id@,
                device_name: device_name@,
                ..old(self)@
            }),
            final(self).certs() == old(self).certs(),
    {
        self.device_id = device_id.to_owned();
        self.device_name = device_name.to_owned();
    }

    /// Sets the TCP port that was bound, which the identity then carries.
    pub fn set_tcp_port(&mut self, port: u16)
        ensures
            final(self)@ == (LinksView { tcp_port: Some(port), ..old(self)@ }),
            final(self).certs() == old(self).certs(),
    {
        self.tcp_port = Some(port);
    }

    /// The daemon's own device id.
    pub fn own_device_id(&self) -> (r: String)
        ensures
            r@ == self@.device_id,
    {
        self.device_id.clone()
    }

    /// Who this daemon says it is, once that was set.
    pub fn get_identity(&self) -> (r: Option<Identity>)
        ensures
            match r {
                Some(i) => self@.device_id.len() > 0 && own_identity(i, self@)
                    && i.target_device_id == None::<String> && i.target_protocol_version == None::<
                    u32,
                > && i.tcp_port == Some(
                    match self@.tcp_port {
                        Some(port) => port,
                        None => DEFAULT_TCP_PORT,
                    },
                ),
                None => self@.device_id.len() == 0,
            },
    {
        if self.device_id.as_str().unicode_len() == 0 {
            return None;
        }
        let mut identity = Identity::new(
            self.device_id.clone(),
            self.device_name.clone(),
            "desktop".to_owned(),
            copy_texts(&self.incoming_caps),
            copy_texts(&self.outgoing_caps),
        );
        if let Some(port) = self.tcp_port {
            identity.tcp_port = Some(port);
        }
        Some(identity)
    }

    /// Who this daemon says it is on a link to `device_id`: addressed to that
    /// device and this protocol version, with the port that the link came by.
    pub fn identity_for(&self, device_id: &str, tcp_port: u16) -> (r: Identity)
        ensures
            own_identity(r, self@),
            r.tcp_port == Some(tcp_port),
            r.target_device_id matches Some(t) && t@ == device_id@,
            r.target_protocol_version == Some(PROTOCOL_VERSION),
    {
        let mut identity = Identity::new(
            self.device_id.clone(),
            self.device_name.clone(),
            "desktop".to_owned(),
            copy_texts(&self.incoming_caps),
            copy_texts(&self.outgoing_caps),
        );
        identity.tcp_port = Some(tcp_port);
        identity.target_device_id = Some(device_id.to_owned());
        identity.target_protocol_version = Some(PROTOCOL_VERSION);
        identity
    }

    /// Notes the packet types that a device takes. An identity that leaves
    /// either list empty says nothing: it neither erases what is known nor
    /// claims that the device takes nothing.
    pub fn record_peer_capabilities(
        &mut self,
        device_id: &str,
        incoming: &Vec<String>,
        outgoing: &Vec<String>,
    )
        ensures
            final(self)@ == recorded(old(self)@, device_id@, texts(incoming@), texts(outgoing@)),
            final(self).certs() == old(self).certs(),
    {
        if incoming.len() == 0 || outgoing.len() == 0 {
            return;
        }
        self.peer_capabilities.insert(device_id.to_owned(), copy_texts(incoming));
        assert(self@ =~= recorded(old(self)@, device_id@, texts(incoming@), texts(outgoing@)));
    }
}

/// `i` says who the daemon is.
pub open spec fn own_identity(i: Identity, links: LinksView) -> bool {
    &&& i.device_id@ == links.device_id
    &&& i.device_name@ == links.device_name
    &&& i.device_type@ == "desktop"@
    &&& i.protocol_version == PROTOCOL_VERSION
    &&& texts(i.incoming_capabilities@) == links.incoming_caps
    &&& texts(i.outgoing_capabilities@) == links.outgoing_caps
}

/// The table after an identity with the given packet types.
pub open spec fn recorded(
    links: LinksView,
    id: Seq<char>,
    incoming: Seq<Seq<char>>,
    outgoing: Seq<Seq<char>>,
) -> LinksView {
    if incoming.len() == 0 || outgoing.len() == 0 {
        links
    } else {
        LinksView { peer_capabilities: links.peer_capabilities.insert(id, incoming), ..links }
    }
}

/// How an attempt to write a packet ended.
#[derive(Debug)]
pub enum SendOutcome {
    Sent,
    WriteFailed(String),
    WriteTimedOut,
    FlushFailed(String),
    FlushTimedOut,
}

/// Why a packet was not sent, if it was not.
pub open spec fn send_error(id: Seq<char>, outcome: SendOutcome) -> Option<ErrorView> {
    match outcome {
        SendOutcome::Sent => None,
        SendOutcome::WriteFailed(e) => Some(
            ErrorView::ConnectionError("Failed to send packet to "@ + id + ": "@ + e@),
        ),
        SendOutcome::WriteTimedOut => Some(
            ErrorView::ConnectionTimeout("Timed out sending packet to "@ + id),
        ),
        SendOutcome::FlushFailed(e) => Some(
            ErrorView::ConnectionError("Failed to flush packet to "@ + id + ": "@ + e@),
        ),
        SendOutcome::FlushTimedOut => Some(
            ErrorView::ConnectionTimeout("Timed out flushing packet to "@ + id),
        ),
    }
}

/// Whether an attempt to write left the link with half a packet on it.
pub open spec fn breaks_framing(outcome: SendOutcome) -> bool {
    outcome is WriteTimedOut || outcome is FlushTimedOut
}

/// A count with one more, as far as it goes.
pub open spec fn counted(n: u64) -> u64 {
    if n < u64::MAX {
        (n + 1) as u64
    } else {
        n
    }
}

/// The table after a packet was sent on the link `generation` to `id`.
pub open spec fn with_sent(links: LinksView, id: Seq<char>, generation: u64) -> LinksView {
    if links.is_current(id, generation) {
        let link = links.connections[id];
        LinksView {
            connections: links.connections.insert(
                id,
                LinkView { packets_sent: counted(link.packets_sent), ..link },
            ),
            ..links
        }
    } else {
        links
    }
}

/// The table after a packet was received on the link `generation` to `id`.
pub open spec fn with_received(links: LinksView, id: Seq<char>, generation: u64) -> LinksView {
    if links.is_current(id, generation) {
        let link = links.connections[id];
        LinksView {
            connections: links.connections.insert(
                id,
                LinkView { packets_received: counted(link.packets_received), ..link },
            ),
            ..links
        }
    } else {
        links
    }
}

/// The table after the link `generation` to `id` was used at `now`.
pub open spec fn with_activity(
    links: LinksView,
    id: Seq<char>,
    generation: u64,
    now: Moment,
) -> LinksView {
    if links.is_current(id, generation) {
        let link = links.connections[id];
        LinksView {
            connections: links.connections.insert(id, LinkView { last_activity: now, ..link }),
            ..links
        }
    } else {
        links
    }
}

/// The table after `generation` let go of the link to `id`: nothing changes
/// where a newer link has taken its place.
pub open spec fn disconnected(links: LinksView, id: Seq<char>, generation: u64) -> LinksView {
    if links.connections.contains_key(id) && links.connections[id].generation != generation {
        links
    } else {
        links.without_link(id)
    }
}

/// The table after an attempt to write a packet.
pub open spec fn after_send(
    links: LinksView,
    id: Seq<char>,
    generation: u64,
    outcome: SendOutcome,
) -> LinksView {
    if outcome is Sent {
        with_sent(links, id, generation)
    } else if breaks_framing(outcome) {
        disconnected(links, id, generation)
    } else {
        links
    }
}

/// How a read of one line ended.
#[derive(Debug)]
pub enum RecvEvent {
    TimedOut,
    Failed(String),
    Read(SteadyLine),
}

/// Whether a byte is white space of ASCII.
pub open spec fn is_blank_byte(b: u8) -> bool {
    b == 32 || b == 9 || b == 10 || b == 12 || b == 13
}

/// Whether a line holds nothing but white space.
pub open spec fn is_blank_line(line: Seq<u8>) -> bool {
    forall|i: int| 0 <= i < line.len() ==> is_blank_byte(#[trigger] line[i])
}

/// Whether what was read is to be taken for a packet. Lines over the cap and
/// blank lines are passed over.
pub open spec fn recv_outcome(id: Seq<char>, event: RecvEvent, line: Seq<u8>) -> Result<
    bool,
    ErrorView,
> {
    match event {
        RecvEvent::TimedOut => Err(
            ErrorView::ConnectionTimeout("Timed out receiving packet from "@ + id),
        ),
        RecvEvent::Failed(e) => Err(
            ErrorView::ConnectionError("Failed to receive packet from "@ + id + ": "@ + e@),
        ),
        RecvEvent::Read(SteadyLine::Eof) => Err(
            ErrorView::ConnectionError("Connection closed by "@ + id),
        ),
        RecvEvent::Read(SteadyLine::OversizeSkipped) => Ok(false),
        RecvEvent::Read(SteadyLine::Line(_)) => Ok(!is_blank_line(line)),
    }
}

/// Whether a line holds nothing but white space.
fn blank_line(line: &Vec<u8>) -> (r: bool)
    ensures
        r == is_blank_line(line@),
{
    let mut i: usize = 0;
    while i < line.len()
        invariant
            i <= line@.len(),
            forall|j: int| 0 <= j < i ==> is_blank_byte(#[trigger] line@[j]),
        decreases line@.len() - i,
    {
        let b = line[i];
        if !(b == 32 || b == 9 || b == 10 || b == 12 || b == 13) {
            assert(!is_blank_byte(line@[i as int]));
            return false;
        }
        i = i + 1;
    }
    true
}

/// A copy of a certificate that may be there.
pub fn copy_cert(cert: &Option<Vec<u8>>) -> (r: Option<Vec<u8>>)
    ensures
        cert_bytes(r) == cert_bytes(*cert),
{
    match cert {
        Some(c) => Some(copy_bytes(c)),
        None => None,
    }
}

impl ConnectionManager {
    /// Whether a packet may be sent to a device, with the generation of the link
    /// that it goes by.
    pub fn check_send(&self, device_id: &str, packet: &Packet) -> (r: Result<u64, Error>)
        ensures
            match r {
                Ok(generation) => self@.send_refusal(device_id@, packet@) is None
                    && self@.is_current(device_id@, generation),
                Err(e) => self@.send_refusal(device_id@, packet@) == Some(e@),
            },
    {
        let generation = match self.connections.get(device_id) {
            Some(c) => c.generation,
            None => {
                return Err(Error::ConnectionError(join2("No connection for device: ", device_id)));
            },
        };
        if !packet.is_identity() && !packet.is_pair() {
            if let Some(taken) = self.peer_capabilities.get(device_id) {
                if !lists_text(taken, packet.packet_type.as_str()) {
                    return Err(
                        Error::CapabilityNotSupported {
                            device_id: device_id.to_owned(),
                            packet_type: packet.packet_type.clone(),
                        },
                    );
                }
            }
        }
        Ok(generation)
    }

    /// Takes the link `generation` to a device out of the table, to be changed
    /// and put back.
    fn take_current(&mut self, device_id: &str, generation: u64) -> (r: Option<Connection>)
        ensures
            final(self).certs() == old(self).certs(),
            match r {
                Some(c) => old(self)@.is_current(device_id@, generation) && c@
                    == old(self)@.connections[device_id@] && final(self)@ == (LinksView {
                    connections: old(self)@.connections.remove(device_id@),
                    ..old(self)@
                }),
                None => !old(self)@.is_current(device_id@, generation) && final(self)@
                    == old(self)@,
            },
    {
        if !self.is_current_generation(device_id, generation) {
            return None;
        }
        let r = self.connections.remove(device_id);
        assert(self@ =~= LinksView {
            connections: old(self)@.connections.remove(device_id@),
            ..old(self)@
        });
        r
    }

    /// Puts a link into the table.
    fn put_link(&mut self, device_id: &str, connection: Connection)
        ensures
            final(self).certs() == old(self).certs(),
            final(self)@ == (LinksView {
                connections: old(self)@.connections.insert(device_id@, connection@),
                ..old(self)@
            }),
    {
        self.connections.insert(device_id.to_owned(), connection);
        assert(self@ =~= LinksView {
            connections: old(self)@.connections.insert(device_id@, connection@),
            ..old(self)@
        });
    }

    /// Notes that the link `generation` to a device is being used.
    pub fn mark_activity(&mut self, device_id: &str, generation: u64, now: Moment)
        ensures
            final(self)@ == with_activity(old(self)@, device_id@, generation, now),
            old(self)@.wf() ==> final(self)@.wf(),
            final(self).certs() == old(self).certs(),
    {
        if let Some(mut c) = self.take_current(device_id, generation) {
            c.last_activity = now;
            self.put_link(device_id, c);
            assert(self@ =~= with_activity(old(self)@, device_id@, generation, now));
        }
    }

    /// Ends an attempt to write a packet. A write that timed out may have left
    /// half a packet on the link, so the link is given up with it.
    pub fn send_packet(&mut self, device_id: &str, generation: u64, outcome: SendOutcome) -> (r:
        Result<(), Error>)
        ensures
            match r {
                Ok(_) => send_error(device_id@, outcome) is None,
                Err(e) => send_error(device_id@, outcome) == Some(e@),
            },
            final(self)@ == after_send(old(self)@, device_id@, generation, outcome),
            old(self)@.wf() ==> final(self)@.wf(),
            final(self).certs() == old(self).certs(),
    {
        match outcome {
            SendOutcome::Sent => {
                if let Some(mut c) = self.take_current(device_id, generation) {
                    if c.packets_sent < u64::MAX {
                        c.packets_sent = c.packets_sent + 1;
                    }
                    self.put_link(device_id, c);
                    assert(self@ =~= with_sent(old(self)@, device_id@, generation));
                }
                Ok(())
            },
            SendOutcome::WriteFailed(e) => Err(
                Error::ConnectionError(
                    join4("Failed to send packet to ", device_id, ": ", e.as_str()),
                ),
            ),
            SendOutcome::WriteTimedOut => {
                let _ = self.disconnect(device_id, generation);
                Err(Error::ConnectionTimeout(join2("Timed out sending packet to ", device_id)))
            },
            SendOutcome::FlushFailed(e) => Err(
                Error::ConnectionError(
                    join4("Failed to flush packet to ", device_id, ": ", e.as_str()),
                ),
            ),
            SendOutcome::FlushTimedOut => {
                let _ = self.disconnect(device_id, generation);
                Err(Error::ConnectionTimeout(join2("Timed out flushing packet to ", device_id)))
            },
        }
    }

    /// Whether there is a link to a device to be read, with its generation.
    pub fn recv_packet(&self, device_id: &str) -> (r: Result<u64, Error>)
        ensures
            match r {
                Ok(g) => self@.recv_refusal(device_id@, None) is None && self@.is_current(
                    device_id@,
                    g,
                ),
                Err(e) => self@.recv_refusal(device_id@, None) == Some(e@),
            },
    {
        self.check_recv(device_id, None)
    }

    /// Whether the link to a device may be read by whoever holds `generation`. A
    /// reader whose link was replaced must not take bytes off the link that
    /// replaced it.
    pub fn recv_packet_current(&self, device_id: &str, generation: u64) -> (r: Result<u64, Error>)
        ensures
            match r {
                Ok(g) => self@.recv_refusal(device_id@, Some(generation)) is None && g
                    == generation,
                Err(e) => self@.recv_refusal(device_id@, Some(generation)) == Some(e@),
            },
    {
        self.check_recv(device_id, Some(generation))
    }

    /// Whether the link to a device may be read by whoever holds `generation`;
    /// without one any link may.
    fn check_recv(&self, device_id: &str, generation: Option<u64>) -> (r: Result<u64, Error>)
        ensures
            match r {
                Ok(g) => self@.recv_refusal(device_id@, generation) is None && self@.is_current(
                    device_id@,
                    g,
                ),
                Err(e) => self@.recv_refusal(device_id@, generation) == Some(e@),
            },
    {
        let current = match self.connections.get(device_id) {
            Some(c) => c.generation,
            None => {
                return Err(Error::ConnectionError(join2("No connection for device: ", device_id)));
            },
        };
        if let Some(held) = generation {
            if current != held {
                let held_text = decimal_text(held);
                let current_text = decimal_text(current);
                let mut message = join5(
                    "Stale generation ",
                    held_text.as_str(),
                    " for device ",
                    device_id,
                    " (link replaced; current generation ",
                );
                message.append(current_text.as_str());
                message.append(")");
                return Err(Error::ConnectionError(message));
            }
        }
        Ok(current)
    }

    /// Judges what was read on the link `generation` to a device: `true` where
    /// the line is to be taken for a packet, `false` where the next line is to
    /// be read, and an error where the link is over.
    pub fn recv_packet_inner(
        &mut self,
        device_id: &str,
        generation: u64,
        event: RecvEvent,
        line: &Vec<u8>,
    ) -> (r: Result<bool, Error>)
        ensures
            match r {
                Ok(b) => recv_outcome(device_id@, event, line@) == Ok::<bool, ErrorView>(b),
                Err(e) => recv_outcome(device_id@, event, line@) == Err::<bool, ErrorView>(e@),
            },
            final(self)@ == (if r == Ok::<bool, Error>(true) {
                with_received(old(self)@, device_id@, generation)
            } else {
                old(self)@
            }),
            old(self)@.wf() ==> final(self)@.wf(),
            final(self).certs() == old(self).certs(),
    {
        match event {
            RecvEvent::TimedOut => Err(
                Error::ConnectionTimeout(join2("Timed out receiving packet from ", device_id)),
            ),
            RecvEvent::Failed(e) => Err(
                Error::ConnectionError(
                    join4("Failed to receive packet from ", device_id, ": ", e.as_str()),
                ),
            ),
            RecvEvent::Read(SteadyLine::Eof) => Err(
                Error::ConnectionError(join2("Connection closed by ", device_id)),
            ),
            RecvEvent::Read(SteadyLine::OversizeSkipped) => Ok(false),
            RecvEvent::Read(SteadyLine::Line(_)) => {
                if blank_line(line) {
                    return Ok(false);
                }
                if let Some(mut c) = self.take_current(device_id, generation) {
                    if c.packets_received < u64::MAX {
                        c.packets_received = c.packets_received + 1;
                    }
                    self.put_link(device_id, c);
                    assert(self@ =~= with_received(old(self)@, device_id@, generation));
                }
                Ok(true)
            },
        }
    }

    /// Lets go of the link to a device, for whoever holds `generation`. `true`
    /// where that generation still owned the link, or there was none; `false`
    /// where a newer one has taken its place, which then keeps the link, its
    /// token and everything that goes with it.
    pub fn disconnect(&mut self, device_id: &str, generation: u64) -> (r: Result<bool, Error>)
        ensures
            r matches Ok(owned) && owned == !(old(self)@.connections.contains_key(device_id@)
                && old(self)@.connections[device_id@].generation != generation),
            final(self)@ == disconnected(old(self)@, device_id@, generation),
            old(self)@.wf() ==> final(self)@.wf(),
            final(self).certs() == old(self).certs(),
    {
        if let Some(c) = self.connections.get(device_id) {
            if c.generation != generation {
                return Ok(false);
            }
        }
        self.cancel_tokens.remove(device_id);
        self.connections.remove(device_id);
        assert(self@ =~= old(self)@.without_link(device_id@));
        Ok(true)
    }

    /// Whether there is a link to a device.
    pub fn is_connected(&self, device_id: &str) -> (r: bool)
        ensures
            r == self@.connections.contains_key(device_id@),
    {
        self.connections.contains(device_id)
    }

    /// The generation of the link to a device.
    pub fn get_generation(&self, device_id: &str) -> (r: Option<u64>)
        ensures
            match r {
                Some(g) => self@.is_current(device_id@, g),
                None => !self@.connections.contains_key(device_id@),
            },
    {
        match self.connections.get(device_id) {
            Some(c) => Some(c.generation),
            None => None,
        }
    }

    /// Whether the live link to a device is exactly `generation`.
    pub fn is_current_generation(&self, device_id: &str, generation: u64) -> (r: bool)
        ensures
            r == self@.is_current(device_id@, generation),
    {
        match self.connections.get(device_id) {
            Some(c) => c.generation == generation,
            None => false,
        }
    }

    /// Sets the token that stops a device's packet loop, whoever owns the link.
    pub fn register_cancel_token(&mut self, device_id: &str, token: u64)
        ensures
            final(self)@ == (LinksView {
                cancel_tokens: old(self)@.cancel_tokens.insert(device_id@, token),
                ..old(self)@
            }),
            final(self).certs() == old(self).certs(),
    {
        self.cancel_tokens.insert(device_id.to_owned(), token);
        assert(self@ =~= LinksView {
            cancel_tokens: old(self)@.cancel_tokens.insert(device_id@, token),
            ..old(self)@
        });
    }

    /// Sets the token that stops a device's packet loop, for whoever holds
    /// `generation`; `false`, and nothing is set, where that is no longer the
    /// live link.
    pub fn register_cancel_token_if_current(
        &mut self,
        device_id: &str,
        token: u64,
        generation: u64,
    ) -> (r: bool)
        ensures
            r == old(self)@.is_current(device_id@, generation),
            final(self)@ == (if r {
                LinksView {
                    cancel_tokens: old(self)@.cancel_tokens.insert(device_id@, token),
                    ..old(self)@
                }
            } else {
                old(self)@
            }),
            final(self).certs() == old(self).certs(),
    {
        let current = self.is_current_generation(device_id, generation);
        if current {
            self.register_cancel_token(device_id, token);
        }
        current
    }

    /// The token that stops a device's packet loop, where there is one.
    pub fn cancel_loop(&self, device_id: &str) -> (r: Option<u64>)
        ensures
            match r {
                Some(token) => self@.cancel_tokens.contains_key(device_id@)
                    && self@.cancel_tokens[device_id@] == token,
                None => !self@.cancel_tokens.contains_key(device_id@),
            },
    {
        match self.cancel_tokens.get(device_id) {
            Some(token) => Some(*token),
            None => None,
        }
    }

    /// Drops the token of a device's packet loop.
    pub fn remove_cancel_token(&mut self, device_id: &str)
        ensures
            final(self)@ == old(self)@.without_token(device_id@),
            final(self).certs() == old(self).certs(),
    {
        self.cancel_tokens.remove(device_id);
        assert(self@ =~= old(self)@.without_token(device_id@));
    }

    /// Drops the token of a device's packet loop, for whoever holds
    /// `generation`; `false`, and nothing is dropped, where that is no longer
    /// the live link.
    pub fn remove_cancel_token_if_current(&mut self, device_id: &str, generation: u64) -> (r: bool)
        ensures
            r == old(self)@.is_current(device_id@, generation),
            final(self)@ == (if r {
                old(self)@.without_token(device_id@)
            } else {
                old(self)@
            }),
            final(self).certs() == old(self).certs(),
    {
        let current = self.is_current_generation(device_id, generation);
        if current {
            self.remove_cancel_token(device_id);
        }
        current
    }

    /// What is known of the traffic on the link to a device.
    pub fn get_connection_info(&self, device_id: &str) -> (r: Option<ConnectionInfo>)
        ensures
            match r {
                Some(info) => self@.connections.contains_key(device_id@) && {
                    let link = self@.connections[device_id@];
                    &&& info.device_id@ == device_id@
                    &&& info.generation == link.generation
                    &&& info.packets_sent == link.packets_sent
                    &&& info.packets_received == link.packets_received
                    &&& info.last_activity == link.last_activity
                },
                None => !self@.connections.contains_key(device_id@),
            },
    {
        match self.connections.get(device_id) {
            Some(c) => Some(
                ConnectionInfo {
                    device_id: device_id.to_owned(),
                    generation: c.generation,
                    packets_sent: c.packets_sent,
                    packets_received: c.packets_received,
                    last_activity: c.last_activity,
                },
            ),
            None => None,
        }
    }

    /// The certificate that a device presented on its link.
    pub fn get_peer_certificate(&self, device_id: &str) -> (r: Option<Vec<u8>>)
        ensures
            cert_bytes(r) == (if self@.connections.contains_key(device_id@) {
                self@.connections[device_id@].peer_cert
            } else {
                None
            }),
    {
        match self.connections.get(device_id) {
            Some(c) => copy_cert(&c.peer_cert),
            None => None,
        }
    }

    /// The remote address of the link to a device.
    pub fn get_peer_addr(&self, device_id: &str) -> (r: Option<SocketAddr>)
        ensures
            r == (if self@.connections.contains_key(device_id@) {
                self@.connections[device_id@].peer_addr
            } else {
                None
            }),
    {
        match self.connections.get(device_id) {
            Some(c) => c.peer_addr,
            None => None,
        }
    }

    /// The local address of the link to a device.
    pub fn get_local_addr(&self, device_id: &str) -> (r: Option<SocketAddr>)
        ensures
            r == (if self@.connections.contains_key(device_id@) {
                self@.connections[device_id@].local_addr
            } else {
                None
            }),
    {
        match self.connections.get(device_id) {
            Some(c) => c.local_addr,
            None => None,
        }
    }

    /// The devices that have a link, each once, in no particular order.
    pub fn connected_device_ids(&self) -> (r: Vec<String>)
        ensures
            lists_keys(r@, self@.connections),
    {
        let r = self.connections.keys();
        assert forall|k: Seq<char>| #[trigger] self@.connections.contains_key(k) implies exists|
            i: int,
        | 0 <= i < r@.len() && (#[trigger] r@[i])@ == k by {
            assert(self.connections@.contains_key(k));
        }
        r
    }

    /// Forgets the generations of devices that have no link.
    pub fn cleanup_stale_generations(&mut self)
        ensures
            final(self)@ == old(self)@.tidied(),
            old(self)@.wf() ==> final(self)@.wf(),
            final(self).certs() == old(self).certs(),
    {
        let connected = self.connected_device_ids();
        self.generations.retain(&connected);
        proof {
            let kept = texts(connected@).to_set();
            assert forall|k: Seq<char>| kept.contains(k)
                == old(self)@.connections.dom().contains(k) by {
                if kept.contains(k) {
                    let i = choose|i: int| 0 <= i < texts(connected@).len() && texts(connected@)[i]
                        == k;
                    assert(connected@[i]@ == k);
                }
                if old(self)@.connections.contains_key(k) {
                    let i = choose|i: int|
                        0 <= i < connected@.len() && (#[trigger] connected@[i])@ == k;
                    assert(texts(connected@)[i] == k);
                }
            }
            assert(kept =~= old(self)@.connections.dom());
            assert(self@ =~= old(self)@.tidied());
        }
    }

    /// How many packet loops can be stopped.
    pub fn cancel_token_count(&self) -> (r: usize)
        ensures
            r == self@.cancel_tokens.dom().len(),
    {
        self.cancel_tokens.len()
    }
}

/// The least time between two attempts to dial one address, in nanoseconds.
pub const CONNECTION_RATE_LIMIT: u128 = 1_000_000_000;

/// How long an attempt is remembered, in nanoseconds.
pub const ATTEMPT_MEMORY: u128 = 60_000_000_000;

/// The time from `then` to `now`; none where the clock has gone back.
pub open spec fn elapsed(now: u128, then: u128) -> int {
    if now >= then {
        now - then
    } else {
        0
    }
}

/// Whether an address was dialed too short a time ago.
pub open spec fn is_rate_limited(links: LinksView, ip: Seq<char>, now: u128) -> bool {
    links.attempts.contains_key(ip) && elapsed(now, links.attempts[ip]) < CONNECTION_RATE_LIMIT
}

/// The table after an attempt to dial an address: the attempt is noted, and old
/// ones are forgotten.
pub open spec fn with_attempt(links: LinksView, ip: Seq<char>, now: u128) -> LinksView {
    let noted = links.attempts.insert(ip, now);
    LinksView {
        attempts: noted.restrict(
            Set::new(|k: Seq<char>| elapsed(now, noted[k]) < ATTEMPT_MEMORY),
        ),
        ..links
    }
}

/// A link that has carried nothing yet.
pub open spec fn fresh_link(
    generation: u64,
    peer_cert: Option<Seq<u8>>,
    peer_addr: Option<SocketAddr>,
    local_addr: Option<SocketAddr>,
    now: Moment,
) -> LinkView {
    LinkView {
        generation,
        peer_cert,
        peer_addr,
        local_addr,
        packets_sent: 0,
        packets_received: 0,
        last_activity: now,
    }
}

/// The time from `then` to `now`.
fn time_since(now: u128, then: u128) -> (r: u128)
    ensures
        r == elapsed(now, then),
{
    if now >= then {
        now - then
    } else {
        0
    }
}

impl ConnectionManager {
    /// Whether a device can have another link: the generations have not run
    /// out.
    pub fn has_next_generation(&self, device_id: &str) -> (r: bool)
        ensures
            r == (self@.next_generation(device_id@) <= u64::MAX),
    {
        match self.generations.get(device_id) {
            Some(g) => *g < u64::MAX,
            None => true,
        }
    }

    /// Gives out the next generation of a device.
    pub fn bump_generation(&mut self, device_id: &str) -> (r: u64)
        requires
            old(self)@.next_generation(device_id@) <= u64::MAX,
        ensures
            r == old(self)@.next_generation(device_id@),
            final(self)@ == (LinksView {
                generations: old(self)@.generations.insert(device_id@, r),
                ..old(self)@
            }),
            old(self)@.wf() ==> final(self)@.wf(),
            final(self).certs() == old(self).certs(),
    {
        let generation: u64 = match self.generations.get(device_id) {
            Some(g) => *g + 1,
            None => 1,
        };
        self.generations.insert(device_id.to_owned(), generation);
        assert(self@ =~= LinksView {
            generations: old(self)@.generations.insert(device_id@, generation),
            ..old(self)@
        });
        generation
    }

    /// Puts a link with a generation of its own into the table, in place of the
    /// one that is there. The generations that were given out stay as they are.
    pub fn insert_link(
        &mut self,
        device_id: &str,
        generation: u64,
        peer_cert: Option<Vec<u8>>,
        peer_addr: Option<SocketAddr>,
        local_addr: Option<SocketAddr>,
        now: Moment,
    )
        ensures
            final(self)@ == (LinksView {
                connections: old(self)@.connections.insert(
                    device_id@,
                    fresh_link(generation, cert_bytes(peer_cert), peer_addr, local_addr, now),
                ),
                ..old(self)@
            }),
            old(self)@.wf() && old(self)@.is_given_out(device_id@, generation)
                ==> final(self)@.wf(),
            final(self).certs() == old(self).certs(),
    {
        self.put_link(
            device_id,
            Connection {
                generation,
                peer_cert,
                peer_addr,
                local_addr,
                packets_sent: 0,
                packets_received: 0,
                last_activity: now,
            },
        );
    }

    /// Puts a new link to a device into the table, in place of the one that is
    /// there, with the next generation.
    pub fn register_link(
        &mut self,
        device_id: &str,
        peer_cert: Option<Vec<u8>>,
        peer_addr: Option<SocketAddr>,
        local_addr: Option<SocketAddr>,
        now: Moment,
    ) -> (r: u64)
        requires
            old(self)@.next_generation(device_id@) <= u64::MAX,
        ensures
            r == old(self)@.next_generation(device_id@),
            final(self)@ == old(self)@.with_link(
                device_id@,
                fresh_link(r, cert_bytes(peer_cert), peer_addr, local_addr, now),
            ),
            old(self)@.wf() ==> final(self)@.wf(),
            final(self).certs() == old(self).certs(),
    {
        let generation = self.bump_generation(device_id);
        self.insert_link(device_id, generation, peer_cert, peer_addr, local_addr, now);
        generation
    }

    /// Notes an attempt to dial an address, or refuses it where the last one was
    /// too short a time ago. `now` is in nanoseconds.
    pub fn note_attempt(&mut self, remote_ip: &str, now: u128) -> (r: Result<(), Error>)
        ensures
            is_rate_limited(old(self)@, remote_ip@, now) ==> final(self)@ == old(self)@ && (
            r matches Err(e) && e@ == ErrorView::ConnectionError(
                "Rate limited: too soon since last connection attempt to "@ + remote_ip@,
            )),
            !is_rate_limited(old(self)@, remote_ip@, now) ==> r is Ok && final(self)@
                == with_attempt(old(self)@, remote_ip@, now),
            final(self).certs() == old(self).certs(),
    {
        if let Some(last) = self.attempts.get(remote_ip) {
            if time_since(now, *last) < CONNECTION_RATE_LIMIT {
                return Err(
                    Error::ConnectionError(
                        join2(
                            "Rate limited: too soon since last connection attempt to ",
                            remote_ip,
                        ),
                    ),
                );
            }
        }
        self.attempts.insert(remote_ip.to_owned(), now);
        let ghost noted = self.attempts@;
        let keys = self.attempts.keys();
        let mut keep: Vec<String> = Vec::new();
        let mut i: usize = 0;
        while i < keys.len()
            invariant
                i <= keys@.len(),
                noted == self.attempts@,
                lists_keys(keys@, noted),
                forall|k: Seq<char>| #[trigger]
                    texts(keep@).contains(k) <==> exists|j: int|
                        0 <= j < i && (#[trigger] keys@[j])@ == k && elapsed(now, noted[k])
                            < ATTEMPT_MEMORY,
            decreases keys@.len() - i,
        {
            let ghost before = keep@;
            let ghost here = keys@[i as int]@;
            let recent = match self.attempts.get(keys[i].as_str()) {
                Some(then) => time_since(now, *then) < ATTEMPT_MEMORY,
                None => false,
            };
            if recent {
                keep.push(keys[i].clone());
                assert(texts(keep@) =~= texts(before).push(here));
                assert forall|k: Seq<char>| #[trigger]
                    texts(keep@).contains(k) <==> texts(before).contains(k) || k == here by {
                    if texts(before).contains(k) {
                        let j = choose|j: int|
                            0 <= j < texts(before).len() && texts(before)[j] == k;
                        assert(texts(keep@)[j] == k);
                    }
                    if k == here {
                        assert(texts(keep@)[before.len() as int] == k);
                    }
                }
            }
            assert forall|k: Seq<char>| #[trigger]
                texts(keep@).contains(k) <==> exists|j: int|
                0 <= j < i + 1 && (#[trigger] keys@[j])@ == k && elapsed(now, noted[k])
                    < ATTEMPT_MEMORY by {
                if k == here && recent {
                    assert(keys@[i as int]@ == k);
                }
                if texts(before).contains(k) {
                    let j = choose|j: int|
                        0 <= j < i && (#[trigger] keys@[j])@ == k && elapsed(now, noted[k])
                            < ATTEMPT_MEMORY;
                    assert(keys@[j]@ == k);
                }
            }
            i = i + 1;
        }
        self.attempts.retain(&keep);
        proof {
            let recent = Set::new(|k: Seq<char>| elapsed(now, noted[k]) < ATTEMPT_MEMORY);
            assert forall|k: Seq<char>| noted.contains_key(k) implies texts(
                keep@,
            ).to_set().contains(k) == recent.contains(k) by {
                let j = choose|j: int| 0 <= j < keys@.len() && (#[trigger] keys@[j])@ == k;
                assert(keys@[j]@ == k);
                assert(texts(keep@).to_set().contains(k) == texts(keep@).contains(k));
            }
            assert(noted.restrict(texts(keep@).to_set()) =~= noted.restrict(recent));
            assert(self@ =~= with_attempt(old(self)@, remote_ip@, now));
        }
        Ok(())
    }
}

/// A newer link to a device has a greater generation than every link that the
/// device had before, so whoever holds the older one is told so.
pub proof fn law_replacement_outdates_the_old_link(links: LinksView, id: Seq<char>, link: LinkView)
    requires
        links.wf(),
        link.generation == links.next_generation(id),
        links.connections.contains_key(id),
    ensures
        links.connections[id].generation < link.generation,
        !links.with_link(id, link).is_current(id, links.connections[id].generation),
        links.with_link(id, link).recv_refusal(id, Some(links.connections[id].generation))
            is Some,
        disconnected(links.with_link(id, link), id, links.connections[id].generation)
            == links.with_link(id, link),
{
}

/// Once a link was let go of, there is none, and its packet loop has no token.
pub proof fn law_disconnected_link_is_gone(links: LinksView, id: Seq<char>, generation: u64)
    requires
        links.is_current(id, generation),
    ensures
        !disconnected(links, id, generation).connections.contains_key(id),
        !disconnected(links, id, generation).cancel_tokens.contains_key(id),
{
}

/// A send that timed out leaves no link behind on which half a packet stands.
pub proof fn law_timed_out_send_gives_the_link_up(
    links: LinksView,
    id: Seq<char>,
    generation: u64,
    outcome: SendOutcome,
)
    requires
        links.is_current(id, generation),
        breaks_framing(outcome),
    ensures
        !after_send(links, id, generation, outcome).connections.contains_key(id),
        send_error(id, outcome) matches Some(e) && e is ConnectionTimeout,
{
}

/// The table after a run of attempts, each with its address and its time.
pub open spec fn with_attempts(links: LinksView, attempts: Seq<(Seq<char>, u128)>) -> LinksView
    decreases attempts.len(),
{
    if attempts.len() == 0 {
        links
    } else {
        let (ip, now) = attempts.last();
        with_attempt(with_attempts(links, attempts.drop_last()), ip, now)
    }
}

/// The last attempt to dial an address is not forgotten while it counts.
proof fn lemma_attempts_are_remembered(
    links: LinksView,
    ip: Seq<char>,
    first: u128,
    attempts: Seq<(Seq<char>, u128)>,
    last: u128,
)
    requires
        links.attempts.contains_key(ip),
        first <= links.attempts[ip] <= last,
        last - first < CONNECTION_RATE_LIMIT,
        forall|i: int| 0 <= i < attempts.len() ==> first <= (#[trigger] attempts[i]).1 <= last,
    ensures
        with_attempts(links, attempts).attempts.contains_key(ip),
        first <= with_attempts(links, attempts).attempts[ip] <= last,
    decreases attempts.len(),
{
    if attempts.len() > 0 {
        let before = attempts.drop_last();
        assert forall|i: int| 0 <= i < before.len() implies first <= (#[trigger] before[i]).1
            <= last by {
            assert(before[i] == attempts[i]);
        }
        lemma_attempts_are_remembered(links, ip, first, before, last);
        assert(attempts.last() == attempts[attempts.len() - 1]);
    }
}

/// An address is not dialed again within the time that is kept between
/// attempts, whatever was dialed since.
pub proof fn law_attempts_keep_their_distance(
    links: LinksView,
    ip: Seq<char>,
    first: u128,
    since: Seq<(Seq<char>, u128)>,
    second: u128,
)
    requires
        first <= second < first + CONNECTION_RATE_LIMIT,
        forall|i: int| 0 <= i < since.len() ==> first <= (#[trigger] since[i]).1 <= second,
    ensures
        is_rate_limited(with_attempts(with_attempt(links, ip, first), since), ip, second),
{
    lemma_attempts_are_remembered(with_attempt(links, ip, first), ip, first, since, second);
}

/// What a device is known to take is not erased by an identity that leaves a
/// list empty.
pub proof fn law_empty_lists_erase_nothing(
    links: LinksView,
    id: Seq<char>,
    incoming: Seq<Seq<char>>,
    outgoing: Seq<Seq<char>>,
    packet: PacketView,
)
    requires
        incoming.len() == 0 || outgoing.len() == 0,
    ensures
        recorded(links, id, incoming, outgoing).send_refusal(id, packet) == links.send_refusal(
            id,
            packet,
        ),
{
}

/// Identities and pair packets are sent on every link, whatever is known of the
/// device.
pub proof fn law_protocol_packets_are_always_sent(
    links: LinksView,
    id: Seq<char>,
    packet: PacketView,
)
    requires
        links.connections.contains_key(id),
        packet.is_identity() || packet.is_pair(),
    ensures
        links.send_refusal(id, packet) is None,
{
}

} // verus!
