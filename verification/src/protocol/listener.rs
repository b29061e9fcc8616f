//! Connections that arrive: how many are handled at once, the exchange of
//! identities under encryption, and what becomes of a link before and after its
//! packet loop.

use vstd::prelude::*;

use crate::error::{Error, ErrorView};
use crate::packet::Identity;
use crate::protocol::connection::manager::{disconnected, ConnectionManager, LinksView};
use crate::protocol::connection_loop::LoopResult;
use crate::text::{decimal, decimal_text, join2, join5, same_text};

verus! {

/// How many connections are handled at once. Each holds a socket and a
/// handshake, so their number has to be bounded; no local network has nearly as
/// many devices.
pub const MAX_INBOUND_CONNECTIONS: usize = 64;

/// How long a peer may take to be let in, in seconds.
pub const ACCEPT_TIMEOUT_SECS: u64 = 30;

/// How long the exchange of identities may take, in seconds.
pub const EXCHANGE_TIMEOUT_SECS: u64 = 15;

/// The slots for connections that are being handled.
#[derive(Debug)]
pub struct InboundSlots {
    taken: usize,
}

impl InboundSlots {
    /// How many slots are taken.
    pub closed spec fn taken(&self) -> nat {
        self.taken as nat
    }

    /// No more slots are taken than there are.
    #[verifier::type_invariant]
    spec fn bounded(self) -> bool {
        self.taken <= MAX_INBOUND_CONNECTIONS
    }

    /// All slots free.
    pub fn new() -> (r: Self)
        ensures
            r.taken() == 0,
    {
        InboundSlots { taken: 0 }
    }

    /// Takes a slot, where one is free.
    pub fn try_acquire_inbound_slot(&mut self) -> (r: bool)
        ensures
            r == (old(self).taken() < MAX_INBOUND_CONNECTIONS),
            final(self).taken() == (if r {
                old(self).taken() + 1
            } else {
                old(self).taken()
            }),
            final(self).taken() <= MAX_INBOUND_CONNECTIONS,
    {
        proof {
            use_type_invariant(&*self);
        }
        if self.taken < MAX_INBOUND_CONNECTIONS {
            self.taken = self.taken + 1;
            true
        } else {
            false
        }
    }

    /// Gives a slot back that was taken.
    pub fn release(&mut self)
        requires
            0 < old(self).taken(),
        ensures
            final(self).taken() == old(self).taken() - 1,
            final(self).taken() < MAX_INBOUND_CONNECTIONS,
    {
        proof {
            use_type_invariant(&*self);
        }
        self.taken = self.taken - 1;
    }
}

/// What is said when the port is not to be had.
pub open spec fn bind_error(port: u16, cause: Seq<char>) -> Seq<char> {
    "failed to bind protocol port "@ + decimal(port as nat) + ": "@ + cause
        + "; another rust-connect instance is already running"@
}

/// What is said when the port is not to be had: another port is never taken in
/// its place.
pub fn bind_port_error(port: u16, cause: &str) -> (r: String)
    ensures
        r@ == bind_error(port, cause@),
{
    let number = decimal_text(port as u64);
    join5(
        "failed to bind protocol port ",
        number.as_str(),
        ": ",
        cause,
        "; another rust-connect instance is already running",
    )
}

/// Handles the connections that arrive, as the device that `identity` says we
/// are.
#[derive(Debug)]
pub struct TcpListenerService {
    pub identity: Identity,
}

/// How the exchange of identities got as far as it did.
#[derive(Debug)]
pub enum Exchange {
    /// Nothing was received.
    Unread(Error),
    /// A packet was received, with what its body came to as an identity.
    Received { packet_type: String, parsed: Result<Identity, Error> },
}

/// Why the identity that arrived under encryption is refused, if it is: it is
/// none, or it is not the one that arrived in plain text.
pub open spec fn exchange_refusal(
    device_id: Seq<char>,
    protocol_version: u32,
    exchange: Exchange,
) -> Option<ErrorView> {
    match exchange {
        Exchange::Unread(e) => Some(
            ErrorView::ConnectionError("Failed to read encrypted identity: "@ + e@.message()),
        ),
        Exchange::Received { packet_type, parsed } => if packet_type@ != "kdeconnect.identity"@ {
            Some(
                ErrorView::InvalidPacket(
                    "Expected encrypted identity packet, got "@ + packet_type@,
                ),
            )
        } else {
            match parsed {
                Err(e) => Some(
                    ErrorView::InvalidPacket("Malformed encrypted identity: "@ + e@.message()),
                ),
                Ok(identity) => if identity.device_id@ != device_id {
                    Some(
                        ErrorView::InvalidPacket(
                            "Encrypted identity deviceId '"@ + identity.device_id@
                                + "' does not match plaintext identity '"@ + device_id + "'"@,
                        ),
                    )
                } else if identity.protocol_version != protocol_version {
                    Some(
                        ErrorView::InvalidPacket(
                            "Encrypted identity protocolVersion "@ + decimal(
                                identity.protocol_version as nat,
                            ) + " differs from plaintext "@ + decimal(protocol_version as nat)
                                + " (mid-handshake change rejected)"@,
                        ),
                    )
                } else {
                    None
                },
            }
        },
    }
}

/// How the exchange of identities ended.
#[derive(Debug)]
pub enum ExchangeOutcome {
    Done,
    Failed,
    TimedOut,
}

/// What is to be done with a link after the exchange of identities.
#[derive(Debug, Clone, Copy, PartialEq, Eq, Structural)]
pub enum LinkAction {
    /// Drop it, and where it was ours to drop, mark the device as disconnected
    /// and tell the plugins.
    Abort { owned: bool },
    /// Leave everything to the link that took its place.
    LeaveToReplacement,
    /// Mark the device as connected and run the packet loop; let the plugins
    /// introduce themselves where the device is paired.
    Drive { init_plugins: bool },
}

/// What follows from the end of the exchange of identities on the link
/// `generation` to `id`.
pub open spec fn after_exchange(
    links: LinksView,
    id: Seq<char>,
    generation: u64,
    outcome: ExchangeOutcome,
    token: u64,
    paired: bool,
) -> (LinksView, LinkAction) {
    match outcome {
        ExchangeOutcome::Done => if links.is_current(id, generation) {
            (
                LinksView { cancel_tokens: links.cancel_tokens.insert(id, token), ..links },
                LinkAction::Drive { init_plugins: paired },
            )
        } else {
            (links, LinkAction::LeaveToReplacement)
        },
        _ => (
            disconnected(links, id, generation),
            LinkAction::Abort {
                owned: !(links.connections.contains_key(id) && links.connections[id].generation
                    != generation),
            },
        ),
    }
}

impl TcpListenerService {
    /// A service for connections to the device that `identity` says we are.
    pub fn new(identity: Identity) -> (r: Self)
        ensures
            r.identity == identity,
    {
        TcpListenerService { identity }
    }

    /// Judges the identity that arrived under encryption against the one that
    /// arrived in plain text.
    pub fn identity_exchange(device_id: &str, protocol_version: u32, exchange: Exchange) -> (r:
        Result<(), Error>)
        ensures
            match r {
                Ok(_) => exchange_refusal(device_id@, protocol_version, exchange) is None,
                Err(e) => exchange_refusal(device_id@, protocol_version, exchange) == Some(e@),
            },
    {
        let (packet_type, parsed) = match exchange {
            Exchange::Received { packet_type, parsed } => (packet_type, parsed),
            Exchange::Unread(e) => {
                let message = e.message();
                return Err(
                    Error::ConnectionError(
                        join2("Failed to read encrypted identity: ", message.as_str()),
                    ),
                );
            },
        };
        if !same_text(packet_type.as_str(), "kdeconnect.identity") {
            return Err(
                Error::InvalidPacket(
                    join2("Expected encrypted identity packet, got ", packet_type.as_str()),
                ),
            );
        }
        let identity = match parsed {
            Ok(i) => i,
            Err(e) => {
                let message = e.message();
                return Err(
                    Error::InvalidPacket(
                        join2("Malformed encrypted identity: ", message.as_str()),
                    ),
                );
            },
        };
        if !same_text(identity.device_id.as_str(), device_id) {
            return Err(
                Error::InvalidPacket(
                    join5(
                        "Encrypted identity deviceId '",
                        identity.device_id.as_str(),
                        "' does not match plaintext identity '",
                        device_id,
                        "'",
                    ),
                ),
            );
        }
        if identity.protocol_version != protocol_version {
            let got = decimal_text(identity.protocol_version as u64);
            let wanted = decimal_text(protocol_version as u64);
            return Err(
                Error::InvalidPacket(
                    join5(
                        "Encrypted identity protocolVersion ",
                        got.as_str(),
                        " differs from plaintext ",
                        wanted.as_str(),
                        " (mid-handshake change rejected)",
                    ),
                ),
            );
        }
        Ok(())
    }

    /// What is said when our own identity could not be sent under encryption.
    pub fn identity_send_failed(cause: &Error) -> (r: Error)
        ensures
            r@ == ErrorView::ConnectionError(
                "Failed to send encrypted identity: "@ + cause@.message(),
            ),
    {
        let message = cause.message();
        Error::ConnectionError(join2("Failed to send encrypted identity: ", message.as_str()))
    }

    /// Goes on from the end of the exchange of identities. A failed exchange is
    /// a failed connection; after a successful one the packet loop's token is
    /// set in the same step in which the link is found to be live, so that it
    /// never lands on a link that took its place.
    pub fn handle_connection(
        manager: &mut ConnectionManager,
        device_id: &str,
        generation: u64,
        outcome: ExchangeOutcome,
        token: u64,
        paired: bool,
    ) -> (r: LinkAction)
        ensures
            (final(manager)@, r) == after_exchange(
                old(manager)@,
                device_id@,
                generation,
                outcome,
                token,
                paired,
            ),
            old(manager)@.wf() ==> final(manager)@.wf(),
            final(manager).certs() == old(manager).certs(),
    {
        match outcome {
            ExchangeOutcome::Done => {
                if manager.register_cancel_token_if_current(device_id, token, generation) {
                    LinkAction::Drive { init_plugins: paired }
                } else {
                    LinkAction::LeaveToReplacement
                }
            },
            _ => match manager.disconnect(device_id, generation) {
                Ok(owned) => LinkAction::Abort { owned },
                Err(_) => LinkAction::Abort { owned: false },
            },
        }
    }

    /// Lets go of a link after its packet loop, and tells whether it is for
    /// discovery to bring the device back.
    pub fn loop_ended(
        manager: &mut ConnectionManager,
        device_id: &str,
        generation: u64,
        result: LoopResult,
        paired: bool,
        shutting_down: bool,
    ) -> (r: bool)
        ensures
            r == (result == LoopResult::Disconnected && paired && !shutting_down),
            final(manager)@ == disconnected(old(manager)@, device_id@, generation),
            old(manager)@.wf() ==> final(manager)@.wf(),
            final(manager).certs() == old(manager).certs(),
    {
        let _ = manager.disconnect(device_id, generation);
        result == LoopResult::Disconnected && paired && !shutting_down
    }
}

/// A failed exchange never ends in a driven link, and the link is gone from the
/// table unless another one has taken its place.
pub proof fn law_failed_exchange_is_a_failed_connection(
    links: LinksView,
    id: Seq<char>,
    generation: u64,
    outcome: ExchangeOutcome,
    token: u64,
    paired: bool,
)
    requires
        !(outcome is Done),
    ensures
        ({
            let (after, action) = after_exchange(links, id, generation, outcome, token, paired);
            &&& action is Abort
            &&& !after.is_current(id, generation)
            &&& (links.connections.contains_key(id) && links.connections[id].generation
                != generation) ==> after == links && action == (LinkAction::Abort { owned: false })
        }),
{
}

/// A handler whose link was replaced sets no token and drives nothing.
pub proof fn law_outdated_handlers_set_no_token(
    links: LinksView,
    id: Seq<char>,
    generation: u64,
    token: u64,
    paired: bool,
)
    requires
        !links.is_current(id, generation),
    ensures
        after_exchange(links, id, generation, ExchangeOutcome::Done, token, paired) == (
            links,
            LinkAction::LeaveToReplacement,
        ),
{
}

/// The identity under encryption names the same device and the same version of
/// the protocol as the one in plain text.
pub proof fn law_identities_agree(device_id: Seq<char>, protocol_version: u32, exchange: Exchange)
    requires
        exchange_refusal(device_id, protocol_version, exchange) is None,
    ensures
        exchange matches Exchange::Received { packet_type, parsed } && parsed matches Ok(i)
            && i.device_id@ == device_id && i.protocol_version == protocol_version,
{
}

} // verus!
