//! Discovery by UDP: announcing our identity to the local network, and judging
//! the identities that others announce.

use vstd::prelude::*;

use crate::error::{Error, ErrorView};
use crate::net::{is_private, is_private_address, IpAddr, SocketAddr};
use crate::packet::{copy_text, Identity, MAX_PORT, MIN_PORT};
use crate::protocol::connection::inbound::{carried_identity, take_identity};
use crate::text::{join2, same_text};

verus! {

/// How many bytes of datagrams may wait to be read: 512 KiB.
pub const RECV_BUFFER_SIZE: usize = 524_288;

/// Whether an error number says that a datagram is too large: it is 90 on Linux
/// and 40 on macOS and FreeBSD.
pub fn is_message_too_large(raw_os_error: Option<i32>) -> (r: bool)
    ensures
        r == (raw_os_error == Some(90i32) || raw_os_error == Some(40i32)),
{
    match raw_os_error {
        Some(code) => code == 90 || code == 40,
        None => false,
    }
}

/// How sending a broadcast ended.
#[derive(Debug)]
pub enum BroadcastOutcome {
    Sent,
    Failed { raw_os_error: Option<i32>, cause: String },
}

/// What follows from how a broadcast ended.
#[derive(Debug)]
pub enum BroadcastStep {
    Done,
    /// Broadcast this smaller identity instead.
    Retry(Identity),
    Fail(Error),
}

/// `small` is `identity` without its capabilities.
pub open spec fn is_stripped(small: Identity, identity: Identity) -> bool {
    &&& small.device_id == identity.device_id
    &&& small.device_name == identity.device_name
    &&& small.device_type == identity.device_type
    &&& small.protocol_version == identity.protocol_version
    &&& small.incoming_capabilities@.len() == 0
    &&& small.outgoing_capabilities@.len() == 0
    &&& small.tcp_port == identity.tcp_port
    &&& small.target_device_id == identity.target_device_id
    &&& small.target_protocol_version == identity.target_protocol_version
}

/// Why an announced identity is passed over, if it is: its port is not one of
/// KDE Connect's, or it is our own.
pub open spec fn announcement_refusal(own_id: Seq<char>, identity: Identity) -> Option<ErrorView> {
    let port = match identity.tcp_port {
        Some(p) => p,
        None => MIN_PORT,
    };
    if !(MIN_PORT <= port <= MAX_PORT) {
        Some(ErrorView::DiscoveryError("TCP port outside of kdeconnect's range"@))
    } else if identity.device_id@ == own_id {
        Some(ErrorView::DiscoveryError("ignored_own"@))
    } else {
        None
    }
}

/// Announces an identity and hears those of others.
#[derive(Debug)]
pub struct DiscoveryService {
    pub identity: Identity,
    pub broadcast_addr: SocketAddr,
}

impl DiscoveryService {
    /// A service that announces `identity` to everyone on a port.
    pub fn new(identity: Identity, udp_port: u16) -> (r: Self)
        ensures
            r.identity == identity,
            r.broadcast_addr == (SocketAddr { ip: IpAddr::V4(0xFFFF_FFFF), port: udp_port }),
    {
        DiscoveryService {
            identity,
            broadcast_addr: SocketAddr { ip: IpAddr::V4(0xFFFF_FFFF), port: udp_port },
        }
    }

    /// Goes on from how a broadcast ended. One that was too large is repeated
    /// without the capabilities, which those who know them keep.
    pub fn broadcast(&self, outcome: BroadcastOutcome) -> (r: BroadcastStep)
        ensures
            match outcome {
                BroadcastOutcome::Sent => r is Done,
                BroadcastOutcome::Failed { raw_os_error, cause } => if raw_os_error == Some(90i32)
                    || raw_os_error == Some(40i32) {
                    r matches BroadcastStep::Retry(small) && is_stripped(small, self.identity)
                } else {
                    r matches BroadcastStep::Fail(e) && e@ == ErrorView::DiscoveryError(
                        "Failed to send broadcast: "@ + cause@,
                    )
                },
            },
    {
        match outcome {
            BroadcastOutcome::Sent => BroadcastStep::Done,
            BroadcastOutcome::Failed { raw_os_error, cause } => {
                if is_message_too_large(raw_os_error) {
                    BroadcastStep::Retry(
                        Identity {
                            device_id: self.identity.device_id.clone(),
                            device_name: self.identity.device_name.clone(),
                            device_type: self.identity.device_type.clone(),
                            protocol_version: self.identity.protocol_version,
                            incoming_capabilities: Vec::new(),
                            outgoing_capabilities: Vec::new(),
                            tcp_port: self.identity.tcp_port,
                            target_device_id: copy_text(&self.identity.target_device_id),
                            target_protocol_version: self.identity.target_protocol_version,
                        },
                    )
                } else {
                    BroadcastStep::Fail(
                        Error::DiscoveryError(join2("Failed to send broadcast: ", cause.as_str())),
                    )
                }
            },
        }
    }

    /// What is said when the smaller broadcast failed too.
    pub fn retry_failed(cause: &str) -> (r: Error)
        ensures
            r@ == ErrorView::DiscoveryError(
                "Failed to send broadcast (retry with emptied capabilities): "@ + cause@,
            ),
    {
        Error::DiscoveryError(
            join2("Failed to send broadcast (retry with emptied capabilities): ", cause),
        )
    }

    /// Whether a datagram is read at all: only where it comes from the local
    /// network.
    pub fn check_sender(ip: IpAddr, ip_text: &str) -> (r: Result<(), Error>)
        ensures
            match r {
                Ok(_) => is_private(ip),
                Err(e) => !is_private(ip) && e@ == ErrorView::DiscoveryError(
                    "Discarding UDP packet from a non-local IP: "@ + ip_text@,
                ),
            },
    {
        if is_private_address(&ip) {
            Ok(())
        } else {
            Err(
                Error::DiscoveryError(
                    join2("Discarding UDP packet from a non-local IP: ", ip_text),
                ),
            )
        }
    }

    /// Judges a datagram that came from the local network: it has to carry the
    /// identity of another device, with a port of KDE Connect's range.
    pub fn listen(&self, packet_type: &str, parsed: Result<Identity, Error>) -> (r: Result<
        Identity,
        Error,
    >)
        ensures
            match carried_identity(packet_type@, parsed) {
                Err(e) => r matches Err(got) && got@ == e,
                Ok(identity) => match announcement_refusal(self.identity.device_id@, identity) {
                    Some(e) => r matches Err(got) && got@ == e,
                    None => r matches Ok(i) && i == identity,
                },
            },
    {
        let identity = match take_identity(packet_type, parsed) {
            Ok(i) => i,
            Err(e) => {
                return Err(e);
            },
        };
        let port: u16 = match identity.tcp_port {
            Some(p) => p,
            None => MIN_PORT,
        };
        if !(MIN_PORT <= port && port <= MAX_PORT) {
            return Err(
                Error::DiscoveryError("TCP port outside of kdeconnect's range".to_owned()),
            );
        }
        if same_text(identity.device_id.as_str(), self.identity.device_id.as_str()) {
            return Err(Error::DiscoveryError("ignored_own".to_owned()));
        }
        Ok(identity)
    }

    /// Who we announce.
    pub fn identity(&self) -> (r: &Identity)
        ensures
            *r == self.identity,
    {
        &self.identity
    }
}

/// The smaller broadcast is heard wherever the full one would have been.
pub proof fn law_stripped_identity_is_heard_alike(
    own_id: Seq<char>,
    small: Identity,
    identity: Identity,
)
    requires
        is_stripped(small, identity),
    ensures
        announcement_refusal(own_id, small) == announcement_refusal(own_id, identity),
{
}

} // verus!
