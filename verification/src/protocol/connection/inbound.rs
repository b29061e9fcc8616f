//! Links that peers open to us.
//!
//! A peer that connects sends its identity in plain text, then a TLS handshake
//! follows in which we are the client, and then the link is entered into the
//! table. Reading, parsing and the handshake happen elsewhere; what is decided
//! on the way is decided here, one event at a time.

use vstd::prelude::*;

use crate::error::{Error, ErrorView};
use crate::net::{is_private, is_private_address, SocketAddr};
use crate::outside::Moment;
use crate::packet::{Identity, PacketView, PROTOCOL_VERSION};
use crate::protocol::cert_store::DirView;
use crate::protocol::certificate::{common_name_of, extract_cn_from_der, same_bytes};
use crate::protocol::connection::manager::{
    cert_bytes, fresh_link, recorded, ConnectionManager, LinksView,
};
use crate::protocol::crypto::{has_fingerprint, peer_refusal, CertificateManager};
use crate::protocol::device_id::{device_id_error, validate_device_id};
use crate::table::texts;
use crate::text::{
    decimal, decimal_text, is_ascii_alphanumeric, join2, join3, join5, same_text, to_chars,
};

verus! {

/// An id as KDE Connect's desktop program writes it back: every character that
/// is no ASCII letter or digit is an underscore.
pub open spec fn echoed(id: Seq<char>) -> Seq<char> {
    id.map_values(
        |c: char|
            if is_ascii_alphanumeric(c) {
                c
            } else {
                '_'
            },
    )
}

/// Whether `target` is `id` written back.
pub fn is_echo(target: &str, id: &str) -> (r: bool)
    ensures
        r == (target@ == echoed(id@)),
{
    let t = to_chars(target);
    let c = to_chars(id);
    if t.len() != c.len() {
        assert(echoed(id@).len() != target@.len());
        return false;
    }
    let mut i: usize = 0;
    while i < t.len()
        invariant
            t@ == target@,
            c@ == id@,
            t.len() == c.len(),
            i <= t@.len(),
            forall|j: int| 0 <= j < i ==> target@[j] == echoed(id@)[j],
        decreases t@.len() - i,
    {
        let x = c[i];
        let keep = ('0' <= x && x <= '9') || ('A' <= x && x <= 'Z') || ('a' <= x && x <= 'z');
        let want = if keep {
            x
        } else {
            '_'
        };
        assert(want == echoed(id@)[i as int]);
        if t[i] != want {
            return false;
        }
        i = i + 1;
    }
    assert(target@ =~= echoed(id@));
    true
}

/// Why an identity that arrived in plain text is refused, if it is: its device
/// id is none or is ours, or it is addressed to someone else.
pub open spec fn inbound_refusal(links: LinksView, identity: Identity) -> Option<ErrorView> {
    let id = identity.device_id@;
    if device_id_error(id) is Some {
        device_id_error(id)
    } else if id == links.device_id {
        Some(
            ErrorView::ConnectionError(
                "Rejecting incoming connection from self (device_id "@ + id + ")"@,
            ),
        )
    } else if identity.target_device_id matches Some(target) && target@ != links.device_id
        && target@ != echoed(links.device_id) {
        Some(
            ErrorView::ConnectionError(
                "Received a connection request for a device that isn't us: "@
                    + identity.target_device_id->0@,
            ),
        )
    } else if identity.target_protocol_version matches Some(v) && v != PROTOCOL_VERSION {
        Some(
            ErrorView::ConnectionError(
                "Received a connection request for a protocol version that isn't ours: "@
                    + decimal(identity.target_protocol_version->0 as nat),
            ),
        )
    } else {
        None
    }
}

/// Why the certificate that a device presented is refused, if it is: its common
/// name is not the device id, or it is not the one that is pinned.
pub open spec fn cert_refusal(
    d: DirView,
    cert_dir: Seq<char>,
    id: Seq<char>,
    cert: Option<Seq<u8>>,
) -> Option<ErrorView> {
    match cert {
        Some(der) => match common_name_of(der) {
            Err(e) => Some(e),
            Ok(name) => if name != id {
                Some(
                    ErrorView::CertificateError(
                        "Certificate CN '"@ + name + "' does not match device ID '"@ + id
                            + "' from identity packet"@,
                    ),
                )
            } else {
                peer_refusal(d, cert_dir, id, der)
            },
        },
        None => missing_cert_refusal(d, id),
    }
}

/// Why a device that presented no certificate is refused, if it is.
pub open spec fn missing_cert_refusal(d: DirView, id: Seq<char>) -> Option<ErrorView> {
    if has_fingerprint(d, id) {
        Some(
            ErrorView::CertificateError(
                "Expected peer certificate for device "@ + id + " but none presented"@,
            ),
        )
    } else {
        None
    }
}

/// Whether a new link may take the place of the one that is there: both
/// presented the same certificate.
pub open spec fn may_replace(links: LinksView, id: Seq<char>, cert: Option<Seq<u8>>) -> bool {
    !links.connections.contains_key(id) || (links.connections[id].peer_cert is Some
        && links.connections[id].peer_cert == cert)
}

/// A device that is connected presented another certificate.
pub open spec fn replacement_refused(id: Seq<char>) -> ErrorView {
    ErrorView::CertificateError(
        "Device "@ + id
            + " already connected and presented a different certificate, rejecting replacement"@,
    )
}

/// A device that presented no certificate although one is pinned.
fn missing_cert_error(id: &str) -> (r: Error)
    ensures
        r@ == ErrorView::CertificateError(
            "Expected peer certificate for device "@ + id@ + " but none presented"@,
        ),
{
    Error::CertificateError(
        join3("Expected peer certificate for device ", id, " but none presented"),
    )
}

/// Checks the certificate that a device presented.
pub fn check_certificate(
    certs: &CertificateManager,
    device_id: &str,
    peer_cert: &Option<Vec<u8>>,
) -> (r: Result<(), Error>)
    ensures
        match r {
            Ok(_) => cert_refusal(
                certs.directory(),
                certs.location(),
                device_id@,
                cert_bytes(*peer_cert),
            ) is None,
            Err(e) => cert_refusal(
                certs.directory(),
                certs.location(),
                device_id@,
                cert_bytes(*peer_cert),
            ) == Some(e@),
        },
{
    match peer_cert {
        Some(der) => {
            let name = match extract_cn_from_der(der.as_slice()) {
                Ok(name) => name,
                Err(e) => {
                    return Err(e);
                },
            };
            if !same_text(name.as_str(), device_id) {
                return Err(
                    Error::CertificateError(
                        join5(
                            "Certificate CN '",
                            name.as_str(),
                            "' does not match device ID '",
                            device_id,
                            "' from identity packet",
                        ),
                    ),
                );
            }
            certs.verify_peer_certificate(device_id, der.as_slice())
        },
        None => {
            if certs.has_peer_fingerprint(device_id) {
                Err(missing_cert_error(device_id))
            } else {
                Ok(())
            }
        },
    }
}

/// The link that was entered into the table.
#[derive(Debug, Clone, Copy, PartialEq, Eq, Structural)]
pub struct Linked {
    pub generation: u64,
    /// Whether another link had to make room, which is to be closed.
    pub evicted: bool,
    /// The token of the packet loop of the link that made room, which is to be
    /// cancelled.
    pub cancel: Option<u64>,
}

/// The link that `id` gets.
pub open spec fn linked(links: LinksView, id: Seq<char>) -> Linked {
    let evicted = links.connections.contains_key(id);
    Linked {
        generation: links.next_generation(id) as u64,
        evicted,
        cancel: if evicted && links.cancel_tokens.contains_key(id) {
            Some(links.cancel_tokens[id])
        } else {
            None
        },
    }
}

/// The table with a new link to `id`, which takes the place of the one that is
/// there along with its token.
pub open spec fn with_new_link(
    links: LinksView,
    id: Seq<char>,
    cert: Option<Seq<u8>>,
    peer_addr: Option<SocketAddr>,
    local_addr: Option<SocketAddr>,
    now: Moment,
) -> LinksView {
    let link = fresh_link(linked(links, id).generation, cert, peer_addr, local_addr, now);
    let entered = links.with_link(id, link);
    if links.connections.contains_key(id) {
        entered.without_token(id)
    } else {
        entered
    }
}

impl ConnectionManager {
    /// Enters a new link into the table. A link that is there makes room: its
    /// packet loop is to be cancelled, and its token is dropped.
    pub fn enter_link(
        &mut self,
        device_id: &str,
        peer_cert: Option<Vec<u8>>,
        peer_addr: Option<SocketAddr>,
        local_addr: Option<SocketAddr>,
        now: Moment,
    ) -> (r: Linked)
        requires
            old(self)@.next_generation(device_id@) <= u64::MAX,
        ensures
            r == linked(old(self)@, device_id@),
            final(self)@ == with_new_link(
                old(self)@,
                device_id@,
                cert_bytes(peer_cert),
                peer_addr,
                local_addr,
                now,
            ),
            old(self)@.wf() ==> final(self)@.wf(),
            final(self).certs() == old(self).certs(),
    {
        let evicted = self.is_connected(device_id);
        let cancel = if evicted {
            self.cancel_loop(device_id)
        } else {
            None
        };
        let generation = self.register_link(device_id, peer_cert, peer_addr, local_addr, now);
        if evicted {
            self.remove_cancel_token(device_id);
        }
        Linked { generation, evicted, cancel }
    }
}

/// How reading the line of an identity ended.
#[derive(Debug)]
pub enum IdentityRead {
    TimedOut,
    TooLarge { size: usize, max: usize },
    Failed(String),
    /// A line of so many bytes; none where the stream ended.
    Line(usize),
}

/// Why there is no identity to parse, if there is none, where a timeout and a
/// failure are worded as given.
pub open spec fn read_refusal(
    read: IdentityRead,
    timed_out: Seq<char>,
    failed: Seq<char>,
) -> Option<ErrorView> {
    match read {
        IdentityRead::TimedOut => Some(ErrorView::ConnectionTimeout(timed_out)),
        IdentityRead::TooLarge { size, max } => Some(
            ErrorView::PacketTooLarge { size: size as nat, max: max as nat },
        ),
        IdentityRead::Failed(e) => Some(ErrorView::ConnectionError(failed + e@)),
        IdentityRead::Line(n) => if n == 0 {
            Some(ErrorView::ConnectionError("Connection closed before sending identity"@))
        } else {
            None
        },
    }
}

/// Judges how reading the line of an identity ended.
pub fn check_identity_read(read: IdentityRead, timed_out: &str, failed: &str) -> (r: Result<
    (),
    Error,
>)
    ensures
        match r {
            Ok(_) => read_refusal(read, timed_out@, failed@) is None,
            Err(e) => read_refusal(read, timed_out@, failed@) == Some(e@),
        },
{
    match read {
        IdentityRead::TimedOut => Err(Error::ConnectionTimeout(timed_out.to_owned())),
        IdentityRead::TooLarge { size, max } => Err(Error::PacketTooLarge { size, max }),
        IdentityRead::Failed(e) => Err(Error::ConnectionError(join2(failed, e.as_str()))),
        IdentityRead::Line(n) => if n == 0 {
            Err(Error::ConnectionError("Connection closed before sending identity".to_owned()))
        } else {
            Ok(())
        },
    }
}

/// The identity that a packet carries, where it is an identity packet; `parsed`
/// is what its body came to.
pub open spec fn carried_identity(packet_type: Seq<char>, parsed: Result<Identity, Error>) -> Result<
    Identity,
    ErrorView,
> {
    if packet_type != "kdeconnect.identity"@ {
        Err(ErrorView::InvalidPacket("Expected identity packet, got "@ + packet_type))
    } else {
        match parsed {
            Ok(i) => Ok(i),
            Err(e) => Err(e@),
        }
    }
}

/// Takes the identity out of a packet.
pub fn take_identity(packet_type: &str, parsed: Result<Identity, Error>) -> (r: Result<
    Identity,
    Error,
>)
    ensures
        match r {
            Ok(i) => carried_identity(packet_type@, parsed) == Ok::<Identity, ErrorView>(i),
            Err(e) => carried_identity(packet_type@, parsed) == Err::<Identity, ErrorView>(e@),
        },
{
    if !same_text(packet_type, "kdeconnect.identity") {
        return Err(Error::InvalidPacket(join2("Expected identity packet, got ", packet_type)));
    }
    parsed
}

/// Where a connection comes from: its address, and the IP address as text.
#[derive(Debug)]
pub struct Remote {
    pub addr: SocketAddr,
    pub ip_text: String,
}

/// A connection that was let in, of which the identity is awaited.
#[derive(Debug)]
pub struct Arrival {
    peer_addr: Option<SocketAddr>,
    local_addr: Option<SocketAddr>,
}

/// A connection whose identity was accepted, of which the handshake is awaited.
#[derive(Debug)]
pub struct Greeted {
    identity: Identity,
    peer_addr: Option<SocketAddr>,
    local_addr: Option<SocketAddr>,
}

/// Lets a connection in, unless it comes from outside the local network.
pub fn accept_incoming(remote: Option<Remote>, local_addr: Option<SocketAddr>) -> (r: Result<
    Arrival,
    Error,
>)
    ensures
        match r {
            Ok(a) => (remote matches Some(from) ==> is_private(from.addr.ip)) && a.peer_addr() == (
            match remote {
                Some(from) => Some(from.addr),
                None => None,
            }) && a.local_addr() == local_addr,
            Err(e) => remote matches Some(from) && !is_private(from.addr.ip) && e@
                == ErrorView::ConnectionError(
                "Discarding connection from a non-local IP: "@ + from.ip_text@,
            ),
        },
{
    match remote {
        Some(from) => {
            if !is_private_address(&from.addr.ip) {
                return Err(
                    Error::ConnectionError(
                        join2("Discarding connection from a non-local IP: ", from.ip_text.as_str()),
                    ),
                );
            }
            Ok(Arrival { peer_addr: Some(from.addr), local_addr })
        },
        None => Ok(Arrival { peer_addr: None, local_addr }),
    }
}

impl Arrival {
    /// The remote address.
    pub closed spec fn peer_addr(self) -> Option<SocketAddr> {
        self.peer_addr
    }

    /// The local address.
    pub closed spec fn local_addr(self) -> Option<SocketAddr> {
        self.local_addr
    }

    /// Judges how reading the plain identity ended.
    pub fn line_read(&self, read: IdentityRead) -> (r: Result<(), Error>)
        ensures
            match r {
                Ok(_) => read_refusal(
                    read,
                    "Timed out reading plaintext identity"@,
                    "Failed to read plaintext identity: "@,
                ) is None,
                Err(e) => read_refusal(
                    read,
                    "Timed out reading plaintext identity"@,
                    "Failed to read plaintext identity: "@,
                ) == Some(e@),
            },
    {
        check_identity_read(
            read,
            "Timed out reading plaintext identity",
            "Failed to read plaintext identity: ",
        )
    }

    /// Judges the plain identity: it has to be one, from another device, and
    /// meant for us.
    pub fn identified(
        self,
        manager: &ConnectionManager,
        packet_type: &str,
        parsed: Result<Identity, Error>,
    ) -> (r: Result<Greeted, Error>)
        ensures
            match carried_identity(packet_type@, parsed) {
                Err(e) => r matches Err(got) && got@ == e,
                Ok(identity) => match inbound_refusal(manager@, identity) {
                    Some(e) => r matches Err(got) && got@ == e,
                    None => r matches Ok(g) && g.identity() == identity && g.peer_addr()
                        == self.peer_addr() && g.local_addr() == self.local_addr(),
                },
            },
    {
        match take_identity(packet_type, parsed) {
            Ok(identity) => match manager.check_inbound(&identity) {
                Ok(_) => Ok(
                    Greeted {
                        identity,
                        peer_addr: self.peer_addr,
                        local_addr: self.local_addr,
                    },
                ),
                Err(e) => Err(e),
            },
            Err(e) => Err(e),
        }
    }
}

/// The outcome of a handshake with a peer that connected: the link that it got
/// and the table afterwards, or why it got none.
pub open spec fn inbound_link(
    links: LinksView,
    d: DirView,
    cert_dir: Seq<char>,
    greeted: Greeted,
    cert: Option<Seq<u8>>,
    now: Moment,
) -> (LinksView, Result<Linked, ErrorView>) {
    let id = greeted.identity().device_id@;
    match cert_refusal(d, cert_dir, id, cert) {
        Some(e) => (links, Err(e)),
        None => {
            let known = recorded(
                links,
                id,
                texts(greeted.identity().incoming_capabilities@),
                texts(greeted.identity().outgoing_capabilities@),
            );
            if !may_replace(links, id, cert) {
                (known, Err(replacement_refused(id)))
            } else {
                (
                    with_new_link(known, id, cert, greeted.peer_addr(), greeted.local_addr(), now),
                    Ok(linked(known, id)),
                )
            }
        },
    }
}

impl Greeted {
    /// The identity that was accepted.
    pub closed spec fn identity(self) -> Identity {
        self.identity
    }

    /// The remote address.
    pub closed spec fn peer_addr(self) -> Option<SocketAddr> {
        self.peer_addr
    }

    /// The local address.
    pub closed spec fn local_addr(self) -> Option<SocketAddr> {
        self.local_addr
    }

    /// The device that the handshake is made with.
    pub fn device_id(&self) -> (r: &str)
        ensures
            r@ == self.identity().device_id@,
    {
        self.identity.device_id.as_str()
    }

    /// Ends the handshake: the certificate has to be the device's own and the
    /// one that is pinned, and a link that is there gives way only to the same
    /// certificate. Hands back the identity with the link.
    pub fn secured(self, manager: &mut ConnectionManager, peer_cert: Option<Vec<u8>>, now: Moment) -> (r:
        Result<(Identity, Linked), Error>)
        requires
            old(manager)@.next_generation(self.identity().device_id@) <= u64::MAX,
        ensures
            ({
                let (links, outcome) = inbound_link(
                    old(manager)@,
                    old(manager).certs().directory(),
                    old(manager).certs().location(),
                    self,
                    cert_bytes(peer_cert),
                    now,
                );
                &&& final(manager)@ == links
                &&& match r {
                    Ok((identity, link)) => identity == self.identity() && outcome == Ok::<
                        Linked,
                        ErrorView,
                    >(link),
                    Err(e) => outcome == Err::<Linked, ErrorView>(e@),
                }
            }),
            old(manager)@.wf() ==> final(manager)@.wf(),
            final(manager).certs() == old(manager).certs(),
    {
        let id = self.identity.device_id.clone();
        match check_certificate(manager.certificates(), id.as_str(), &peer_cert) {
            Ok(_) => {},
            Err(e) => {
                return Err(e);
            },
        }
        manager.record_peer_capabilities(
            id.as_str(),
            &self.identity.incoming_capabilities,
            &self.identity.outgoing_capabilities,
        );
        if manager.is_connected(id.as_str()) {
            let same = match (manager.get_peer_certificate(id.as_str()), &peer_cert) {
                (Some(old_cert), Some(new_cert)) => same_bytes(&old_cert, new_cert),
                _ => false,
            };
            if !same {
                return Err(
                    Error::CertificateError(
                        join3(
                            "Device ",
                            id.as_str(),
                            " already connected and presented a different certificate, rejecting replacement",
                        ),
                    ),
                );
            }
        }
        let link = manager.enter_link(
            id.as_str(),
            peer_cert,
            self.peer_addr,
            self.local_addr,
            now,
        );
        Ok((self.identity, link))
    }
}

impl ConnectionManager {
    /// Checks an identity that arrived in plain text.
    pub fn check_inbound(&self, identity: &Identity) -> (r: Result<(), Error>)
        ensures
            match r {
                Ok(_) => inbound_refusal(self@, *identity) is None,
                Err(e) => inbound_refusal(self@, *identity) == Some(e@),
            },
    {
        let id = identity.device_id.as_str();
        match validate_device_id(id) {
            Ok(_) => {},
            Err(e) => {
                return Err(e);
            },
        }
        let our_id = self.own_device_id();
        if same_text(id, our_id.as_str()) {
            return Err(
                Error::ConnectionError(
                    join3("Rejecting incoming connection from self (device_id ", id, ")"),
                ),
            );
        }
        if let Some(target) = &identity.target_device_id {
            if !same_text(target.as_str(), our_id.as_str()) && !is_echo(
                target.as_str(),
                our_id.as_str(),
            ) {
                return Err(
                    Error::ConnectionError(
                        join2(
                            "Received a connection request for a device that isn't us: ",
                            target.as_str(),
                        ),
                    ),
                );
            }
        }
        if let Some(version) = identity.target_protocol_version {
            if version != PROTOCOL_VERSION {
                let text = decimal_text(version as u64);
                return Err(
                    Error::ConnectionError(
                        join2(
                            "Received a connection request for a protocol version that isn't ours: ",
                            text.as_str(),
                        ),
                    ),
                );
            }
        }
        Ok(())
    }

    /// Enters the link of a device that connected without an identity: its
    /// certificate has to be the pinned one, where one is pinned, but need not
    /// bear its name.
    pub fn accept_as_client(
        &mut self,
        device_id: &str,
        peer_cert: Option<Vec<u8>>,
        peer_addr: Option<SocketAddr>,
        local_addr: Option<SocketAddr>,
        now: Moment,
    ) -> (r: Result<u64, Error>)
        requires
            old(self)@.next_generation(device_id@) <= u64::MAX,
        ensures
            ({
                let refusal = match cert_bytes(peer_cert) {
                    Some(der) => peer_refusal(
                        old(self).certs().directory(),
                        old(self).certs().location(),
                        device_id@,
                        der,
                    ),
                    None => missing_cert_refusal(old(self).certs().directory(), device_id@),
                };
                match r {
                    Err(e) => refusal == Some(e@) && final(self)@ == old(self)@,
                    Ok(generation) => refusal is None && generation
                        == old(self)@.next_generation(device_id@) && final(self)@
                        == old(self)@.with_link(
                        device_id@,
                        fresh_link(generation, cert_bytes(peer_cert), peer_addr, local_addr, now),
                    ),
                }
            }),
            old(self)@.wf() ==> final(self)@.wf(),
            final(self).certs() == old(self).certs(),
    {
        match &peer_cert {
            Some(der) => {
                match self.certificates().verify_peer_certificate(device_id, der.as_slice()) {
                    Ok(_) => {},
                    Err(e) => {
                        return Err(e);
                    },
                }
            },
            None => {
                if self.certificates().has_peer_fingerprint(device_id) {
                    return Err(missing_cert_error(device_id));
                }
            },
        }
        Ok(self.register_link(device_id, peer_cert, peer_addr, local_addr, now))
    }
}

/// A peer that connected gets a link only where its identity was accepted and
/// its certificate bears its device id and is the pinned one, where one is
/// pinned. The table may have changed between the two.
pub proof fn law_inbound_links_passed_every_check(
    then: LinksView,
    links: LinksView,
    d: DirView,
    cert_dir: Seq<char>,
    greeted: Greeted,
    cert: Option<Seq<u8>>,
    now: Moment,
)
    requires
        inbound_refusal(then, greeted.identity()) is None,
        inbound_link(links, d, cert_dir, greeted, cert, now).1 is Ok,
    ensures
        ({
            let id = greeted.identity().device_id@;
            &&& crate::protocol::device_id::is_device_id(id)
            &&& id != then.device_id
            &&& cert matches Some(der) ==> common_name_of(der) == Ok::<Seq<char>, ErrorView>(id)
                && peer_refusal(d, cert_dir, id, der) is None
            &&& cert is None ==> !has_fingerprint(d, id)
        }),
{
    crate::protocol::device_id::law_accepts_exactly_device_ids(greeted.identity().device_id@);
}

/// A link that is there is given up only to a connection with the same
/// certificate; then the new one is live, the old one's packet loop is told to
/// stop, and its token is gone.
pub proof fn law_only_the_same_certificate_replaces(
    links: LinksView,
    d: DirView,
    cert_dir: Seq<char>,
    greeted: Greeted,
    cert: Option<Seq<u8>>,
    now: Moment,
)
    requires
        links.wf(),
        links.connections.contains_key(greeted.identity().device_id@),
        links.next_generation(greeted.identity().device_id@) <= u64::MAX,
    ensures
        ({
            let id = greeted.identity().device_id@;
            let (after, outcome) = inbound_link(links, d, cert_dir, greeted, cert, now);
            match outcome {
                Ok(link) => {
                    &&& links.connections[id].peer_cert == cert && cert is Some
                    &&& link.evicted
                    &&& links.cancel_tokens.contains_key(id) ==> link.cancel == Some(
                        links.cancel_tokens[id],
                    )
                    &&& after.is_current(id, link.generation)
                    &&& !after.is_current(id, links.connections[id].generation)
                    &&& !after.cancel_tokens.contains_key(id)
                },
                Err(_) => after.connections == links.connections && after.cancel_tokens
                    == links.cancel_tokens && after.generations == links.generations,
            }
        }),
{
}

/// An identity that is addressed to us is accepted in both spellings of our id.
pub proof fn law_both_spellings_of_our_id_are_ours(links: LinksView, identity: Identity)
    requires
        identity.target_device_id matches Some(t) && (t@ == links.device_id || t@ == echoed(
            links.device_id,
        )),
        identity.target_protocol_version is None || identity.target_protocol_version == Some(
            PROTOCOL_VERSION,
        ),
        device_id_error(identity.device_id@) is None,
        identity.device_id@ != links.device_id,
    ensures
        inbound_refusal(links, identity) is None,
{
}

/// After a peer that connected got a link, and both lists of its identity are filled,
/// a packet that is neither an identity nor a pair packet is refused to that peer
/// if and only if its type is not among the incoming capabilities of that
/// identity; where either list is empty, what was known of the peer before
/// decides. No other peer is affected.
pub proof fn law_inbound_link_takes_the_incoming_capabilities(
    links: LinksView,
    d: DirView,
    cert_dir: Seq<char>,
    greeted: Greeted,
    cert: Option<Seq<u8>>,
    now: Moment,
    packet: PacketView,
    other: Seq<char>,
)
    requires
        inbound_link(links, d, cert_dir, greeted, cert, now).1 is Ok,
        packet.packet_type != "kdeconnect.identity"@,
        packet.packet_type != "kdeconnect.pair"@,
    ensures
        ({
            let id = greeted.identity().device_id@;
            let incoming = greeted.identity().incoming_capabilities@;
            let outgoing = greeted.identity().outgoing_capabilities@;
            let after = inbound_link(links, d, cert_dir, greeted, cert, now).0;
            &&& incoming.len() > 0 && outgoing.len() > 0 ==> (after.send_refusal(id, packet)
                is Some <==> !(exists|i: int|
                0 <= i < incoming.len() && (#[trigger] incoming[i])@ == packet.packet_type))
            &&& incoming.len() == 0 || outgoing.len() == 0 ==> (after.send_refusal(id, packet)
                is Some <==> links.peer_capabilities.contains_key(id)
                && !links.peer_capabilities[id].contains(packet.packet_type))
            &&& other != id ==> after.send_refusal(other, packet) == links.send_refusal(
                other,
                packet,
            )
        }),
{
    let incoming = greeted.identity().incoming_capabilities@;
    if exists|i: int| 0 <= i < incoming.len() && (#[trigger] incoming[i])@ == packet.packet_type {
        let i = choose|i: int|
            0 <= i < incoming.len() && (#[trigger] incoming[i])@ == packet.packet_type;
        assert(texts(incoming)[i] == packet.packet_type);
    }
    if texts(incoming).contains(packet.packet_type) {
        let i = choose|i: int|
            0 <= i < texts(incoming).len() && texts(incoming)[i] == packet.packet_type;
        assert(incoming[i]@ == packet.packet_type);
    }
}

/// How an exchange of identities over a new link went wrong, when a device
/// connects without being checked.
#[derive(Debug)]
pub enum ExchangeFault {
    PlainReadFailed(String),
    PlainInvalid(String),
    SendFailed(String),
    FlushFailed(String),
    ReadTimedOut,
    ReadFailed(String),
    Closed,
    Invalid(String),
    /// The handshake failed.
    Handshake(Error),
}

/// What is said of a failed exchange.
pub open spec fn exchange_error(fault: ExchangeFault) -> ErrorView {
    match fault {
        ExchangeFault::PlainReadFailed(e) => ErrorView::ConnectionError(
            "Failed to read plaintext identity: "@ + e@,
        ),
        ExchangeFault::PlainInvalid(e) => ErrorView::DeserializationError(
            "Invalid plaintext identity: "@ + e@,
        ),
        ExchangeFault::SendFailed(e) => ErrorView::ConnectionError(
            "Failed to send encrypted identity: "@ + e@,
        ),
        ExchangeFault::FlushFailed(e) => ErrorView::ConnectionError(
            "Failed to flush encrypted identity: "@ + e@,
        ),
        ExchangeFault::ReadTimedOut => ErrorView::ConnectionError(
            "Timed out reading encrypted identity"@,
        ),
        ExchangeFault::ReadFailed(e) => ErrorView::ConnectionError(
            "Failed to read encrypted identity: "@ + e@,
        ),
        ExchangeFault::Closed => ErrorView::ConnectionError(
            "Connection closed during encrypted identity exchange"@,
        ),
        ExchangeFault::Invalid(e) => ErrorView::DeserializationError(
            "Invalid encrypted identity: "@ + e@,
        ),
        ExchangeFault::Handshake(e) => e@,
    }
}

/// What is said of a failed exchange.
pub fn exchange_failed(fault: ExchangeFault) -> (r: Error)
    ensures
        r@ == exchange_error(fault),
{
    match fault {
        ExchangeFault::PlainReadFailed(e) => Error::ConnectionError(
            join2("Failed to read plaintext identity: ", e.as_str()),
        ),
        ExchangeFault::PlainInvalid(e) => Error::DeserializationError(
            join2("Invalid plaintext identity: ", e.as_str()),
        ),
        ExchangeFault::SendFailed(e) => Error::ConnectionError(
            join2("Failed to send encrypted identity: ", e.as_str()),
        ),
        ExchangeFault::FlushFailed(e) => Error::ConnectionError(
            join2("Failed to flush encrypted identity: ", e.as_str()),
        ),
        ExchangeFault::ReadTimedOut => Error::ConnectionError(
            "Timed out reading encrypted identity".to_owned(),
        ),
        ExchangeFault::ReadFailed(e) => Error::ConnectionError(
            join2("Failed to read encrypted identity: ", e.as_str()),
        ),
        ExchangeFault::Closed => Error::ConnectionError(
            "Connection closed during encrypted identity exchange".to_owned(),
        ),
        ExchangeFault::Invalid(e) => Error::DeserializationError(
            join2("Invalid encrypted identity: ", e.as_str()),
        ),
        ExchangeFault::Handshake(e) => e,
    }
}

/// The link of a peer that connected has the next generation, the certificate
/// that the peer presented and the addresses that the connection came by, and has
/// carried nothing. It tells whether another link made room for it, and which
/// packet loop is to be cancelled with that. No other device is affected.
pub proof fn law_inbound_link_is_as_presented(
    links: LinksView,
    d: DirView,
    cert_dir: Seq<char>,
    greeted: Greeted,
    cert: Option<Seq<u8>>,
    now: Moment,
    other: Seq<char>,
)
    requires
        links.next_generation(greeted.identity().device_id@) <= u64::MAX,
    ensures
        ({
            let id = greeted.identity().device_id@;
            let (after, outcome) = inbound_link(links, d, cert_dir, greeted, cert, now);
            let there = links.connections.contains_key(id);
            outcome matches Ok(link) ==> {
                &&& link.generation == (if links.generations.contains_key(id) {
                    links.generations[id] + 1
                } else {
                    1
                })
                &&& link.evicted <==> there
                &&& link.cancel is Some <==> there && links.cancel_tokens.contains_key(id)
                &&& link.cancel matches Some(token) ==> token == links.cancel_tokens[id]
                &&& after.connections.contains_key(id)
                &&& after.connections[id].generation == link.generation
                &&& after.connections[id].peer_cert == cert
                &&& after.connections[id].peer_addr == greeted.peer_addr()
                &&& after.connections[id].local_addr == greeted.local_addr()
                &&& after.connections[id].packets_sent == 0
                &&& after.connections[id].packets_received == 0
                &&& after.connections[id].last_activity == now
                &&& after.generations.contains_key(id) && after.generations[id] == link.generation
                &&& after.cancel_tokens.contains_key(id) <==> !there
                    && links.cancel_tokens.contains_key(id)
                &&& other != id ==> after.connections.contains_key(other)
                    == links.connections.contains_key(other) && after.connections[other]
                    == links.connections[other] && after.cancel_tokens.contains_key(other)
                    == links.cancel_tokens.contains_key(other) && after.cancel_tokens[other]
                    == links.cancel_tokens[other]
            }
        }),
{
}

/// A peer that connected gets a link if and only if its certificate bears its
/// device id and is the pinned one, where one is pinned, and a link that is there
/// presented the same certificate. A peer without a certificate gets one only
/// where none is pinned and no link is there. Without a link the table of links
/// stays as it is.
pub proof fn law_inbound_peers_get_links_by_certificate(
    links: LinksView,
    d: DirView,
    cert_dir: Seq<char>,
    greeted: Greeted,
    cert: Option<Seq<u8>>,
    now: Moment,
)
    ensures
        ({
            let id = greeted.identity().device_id@;
            let (after, outcome) = inbound_link(links, d, cert_dir, greeted, cert, now);
            let there = links.connections.contains_key(id);
            &&& outcome is Ok <==> match cert {
                Some(der) => common_name_of(der) == Ok::<Seq<char>, ErrorView>(id) && peer_refusal(
                    d,
                    cert_dir,
                    id,
                    der,
                ) is None && (there ==> links.connections[id].peer_cert == Some(der)),
                None => !has_fingerprint(d, id) && !there,
            }
            &&& outcome is Err ==> after.connections == links.connections && after.cancel_tokens
                == links.cancel_tokens && after.generations == links.generations
        }),
{
}

/// What is said of a failed exchange: an identity that is none was not to be
/// read, a failed handshake speaks for itself, and everything else is a broken
/// link.
pub proof fn law_exchange_errors_tell_the_fault(fault: ExchangeFault)
    ensures
        fault matches ExchangeFault::Handshake(e) ==> exchange_error(fault) == e@,
        fault is PlainInvalid || fault is Invalid ==> exchange_error(fault)
            is DeserializationError,
        !(fault is Handshake) && !(fault is PlainInvalid) && !(fault is Invalid)
            ==> exchange_error(fault) is ConnectionError,
        fault matches ExchangeFault::PlainInvalid(e) ==> exchange_error(fault).message()
            == "Invalid plaintext identity: "@ + e@,
        fault matches ExchangeFault::Invalid(e) ==> exchange_error(fault).message()
            == "Invalid encrypted identity: "@ + e@,
{
}

/// The outcome of a device that connected without being checked: a link in
/// place of the one that is there, or what went wrong.
pub open spec fn unchecked_link(
    before: LinksView,
    after: LinksView,
    device_id: Seq<char>,
    peer_addr: Option<SocketAddr>,
    local_addr: Option<SocketAddr>,
    now: Moment,
    exchange: Result<Option<Seq<u8>>, ErrorView>,
    r: Result<u64, Error>,
) -> bool {
    match exchange {
        Ok(cert) => r matches Ok(g) && g == before.next_generation(device_id) && after
            == before.with_link(device_id, fresh_link(g, cert, peer_addr, local_addr, now)),
        Err(e) => r matches Err(got) && got@ == e && after == before,
    }
}

impl ConnectionManager {
    /// Enters the link of a device that only made a handshake in which we were
    /// the server.
    pub fn accept_test(
        &mut self,
        device_id: &str,
        handshake: Result<Option<Vec<u8>>, Error>,
        peer_addr: Option<SocketAddr>,
        local_addr: Option<SocketAddr>,
        now: Moment,
    ) -> (r: Result<u64, Error>)
        requires
            old(self)@.next_generation(device_id@) <= u64::MAX,
        ensures
            unchecked_link(
                old(self)@,
                final(self)@,
                device_id@,
                peer_addr,
                local_addr,
                now,
                match handshake {
                    Ok(cert) => Ok(cert_bytes(cert)),
                    Err(e) => Err(e@),
                },
                r,
            ),
            old(self)@.wf() ==> final(self)@.wf(),
            final(self).certs() == old(self).certs(),
    {
        match handshake {
            Ok(cert) => Ok(self.register_link(device_id, cert, peer_addr, local_addr, now)),
            Err(e) => Err(e),
        }
    }

    /// Enters the link of a device that sent its plain identity, made a handshake
    /// in which we were the client, and exchanged identities under encryption.
    pub fn accept_test_as_client(
        &mut self,
        device_id: &str,
        exchange: Result<Option<Vec<u8>>, ExchangeFault>,
        peer_addr: Option<SocketAddr>,
        local_addr: Option<SocketAddr>,
        now: Moment,
    ) -> (r: Result<u64, Error>)
        requires
            old(self)@.next_generation(device_id@) <= u64::MAX,
        ensures
            unchecked_link(
                old(self)@,
                final(self)@,
                device_id@,
                peer_addr,
                local_addr,
                now,
                match exchange {
                    Ok(cert) => Ok(cert_bytes(cert)),
                    Err(fault) => Err(exchange_error(fault)),
                },
                r,
            ),
            old(self)@.wf() ==> final(self)@.wf(),
            final(self).certs() == old(self).certs(),
    {
        match exchange {
            Ok(cert) => Ok(self.register_link(device_id, cert, peer_addr, local_addr, now)),
            Err(fault) => Err(exchange_failed(fault)),
        }
    }

    /// Enters the link of a device that was told of another port than ours in
    /// such an exchange.
    pub fn accept_test_with_port(
        &mut self,
        device_id: &str,
        exchange: Result<Option<Vec<u8>>, ExchangeFault>,
        peer_addr: Option<SocketAddr>,
        local_addr: Option<SocketAddr>,
        now: Moment,
    ) -> (r: Result<u64, Error>)
        requires
            old(self)@.next_generation(device_id@) <= u64::MAX,
        ensures
            unchecked_link(
                old(self)@,
                final(self)@,
                device_id@,
                peer_addr,
                local_addr,
                now,
                match exchange {
                    Ok(cert) => Ok(cert_bytes(cert)),
                    Err(fault) => Err(exchange_error(fault)),
                },
                r,
            ),
            old(self)@.wf() ==> final(self)@.wf(),
            final(self).certs() == old(self).certs(),
    {
        self.accept_test_as_client(device_id, exchange, peer_addr, local_addr, now)
    }
}

} // verus!
