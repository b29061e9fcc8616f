//! The loop that reads packets from an established link, handles pairing and
//! hands everything else to the plugins.
//!
//! The loop's outside work (receiving, pairing, sending, routing) is done
//! elsewhere. Each function here takes what has happened and says what is to be
//! done next; in between the loop remembers which step of a pairing it is at,
//! and whether it has already told an unpaired peer that it is not paired.

use vstd::prelude::*;

use crate::outside::Moment;
use crate::packet::{pair_packet, Packet, PacketView};
use crate::protocol::connection::manager::{
    disconnected, ConnectionInfo, ConnectionManager, LinksView,
};

verus! {

/// Why the loop ended.
#[derive(Debug, Clone, Copy, PartialEq, Eq, Structural)]
pub enum LoopResult {
    Shutdown,
    Disconnected,
}

/// How far the pairing with a device has come.
#[derive(Debug, Clone, Copy, PartialEq, Eq, Structural)]
pub enum PairState {
    NotPaired,
    /// We have asked.
    Requested,
    /// The peer has asked.
    RequestedByPeer,
    Paired,
}

/// How far a pair request's timestamp may be off, in seconds.
pub const PAIR_TIMESTAMP_WINDOW_SECS: i64 = 1800;

/// From this protocol version on, a pair request carries a timestamp.
pub const TIMESTAMPED_PAIRING_VERSION: u32 = 8;

/// How often an idle link is looked for, in seconds.
pub const IDLE_CHECK_INTERVAL_SECS: u64 = 30;

/// What a pair packet says: `true` asks or accepts, `false` rejects or unpairs,
/// and nothing else says anything.
pub fn pair_decision(packet: &Packet) -> (r: Option<bool>)
    ensures
        r == packet@.bool_field("pair"@),
{
    packet.get_bool("pair")
}

/// Whether a timestamp lies within the window around `now`.
pub open spec fn is_fresh(timestamp: i64, now: i64) -> bool {
    -PAIR_TIMESTAMP_WINDOW_SECS <= timestamp - now <= PAIR_TIMESTAMP_WINDOW_SECS
}

/// Whether a pair request's timestamp is within half an hour of our clock,
/// before or after.
pub fn pair_timestamp_is_fresh(timestamp: i64, now: i64) -> (r: bool)
    ensures
        r == is_fresh(timestamp, now),
{
    let distance: i128 = timestamp as i128 - now as i128;
    -(PAIR_TIMESTAMP_WINDOW_SECS as i128) <= distance && distance
        <= PAIR_TIMESTAMP_WINDOW_SECS as i128
}

/// How often an idle link is looked for; never where links may be idle for
/// ever.
pub fn idle_check_interval(idle_timeout_secs: u64) -> (r: Option<u64>)
    ensures
        r == (if idle_timeout_secs > 0 {
            Some(IDLE_CHECK_INTERVAL_SECS)
        } else {
            None
        }),
{
    if idle_timeout_secs > 0 {
        Some(IDLE_CHECK_INTERVAL_SECS)
    } else {
        None
    }
}

/// Whether more than `threshold_secs` lie between two moments.
pub open spec fn is_idle_for(last: Moment, now: Moment, threshold_secs: u64) -> bool {
    now.seconds - last.seconds > threshold_secs || (now.seconds - last.seconds == threshold_secs
        && now.nanos > last.nanos)
}

impl ConnectionInfo {
    /// Whether the link has been idle for longer than `threshold_secs`.
    pub fn is_idle(&self, now: Moment, threshold_secs: u64) -> (r: bool)
        ensures
            r == is_idle_for(self.last_activity, now, threshold_secs),
    {
        let idle: i128 = now.seconds as i128 - self.last_activity.seconds as i128;
        idle > threshold_secs as i128 || (idle == threshold_secs as i128 && now.nanos
            > self.last_activity.nanos)
    }
}

/// What is known when a packet arrives.
#[derive(Debug, Clone, Copy)]
pub struct PairContext {
    pub pair_state: PairState,
    /// Whether the device counts as paired.
    pub paired: bool,
    /// The protocol version of the device, where it is known.
    pub protocol_version: Option<u32>,
    /// Our clock, in seconds.
    pub now: i64,
}

/// The step that the loop is at.
#[derive(Debug, Clone, Copy, PartialEq, Eq, Structural)]
pub enum LoopPhase {
    /// A packet is awaited.
    Receiving,
    /// The peer has accepted, and the pairing is being completed.
    Completing,
    /// The peer's request is being processed.
    Requesting,
    /// Our acceptance is being sent.
    Accepting,
    /// The loop is over.
    Ended,
}

/// What happened, other than that a packet arrived.
#[derive(Debug, Clone, Copy, PartialEq, Eq, Structural)]
pub enum LoopEvent {
    /// Nothing arrived for a while.
    RecvTimedOut,
    /// Receiving failed.
    RecvFailed,
    /// A newer link has taken the place of this one.
    Cancelled,
    /// The daemon is stopping.
    ShuttingDown,
    /// The link has been idle for too long.
    IdleTimedOut,
    /// The pairing was completed, or not.
    Completed(bool),
    /// The peer's request was processed, or not, and the device is paired by it,
    /// or not.
    Requested { processed: bool, paired: bool },
    /// Our acceptance was sent, or not.
    AcceptSent(bool),
}

/// What becomes of a pairing when the loop ends.
#[derive(Debug, Clone, Copy, PartialEq, Eq, Structural)]
pub enum PairCleanup {
    Keep,
    /// Forget the pairing.
    Unpair,
    /// Forget the request.
    Reject,
}

/// What is to be done.
#[derive(Debug, Clone, Copy, PartialEq, Eq, Structural)]
pub enum LoopAction {
    /// Receive the next packet.
    Receive,
    /// Stage the peer's certificate and complete the pairing.
    CompletePairing,
    /// Process the peer's request, with its timestamp.
    RequestPairing { timestamp: Option<i64> },
    /// Tell the peer that we accept.
    SendAccept,
    /// Let the plugins introduce themselves, and receive the next packet.
    InitPlugins,
    /// Forget the pairing that could not be confirmed, and receive the next
    /// packet.
    RollBack,
    /// Announce that the peer has asked, and receive the next packet.
    AnnounceRequest,
    /// Tell the peer that it is not paired, and receive the next packet.
    NotifyUnpaired,
    /// Hand the packet to the plugins, send their replies, and receive the next
    /// packet.
    Route,
    /// Where the idle link was ours to let go of, mark the device as disconnected
    /// and tell the plugins; then receive the next packet, which tells that the
    /// link is gone.
    LeaveIdle { owned: bool },
    /// Stop.
    End {
        result: LoopResult,
        cleanup: PairCleanup,
        /// Whether the device counts as disconnected from now on.
        mark_disconnected: bool,
        /// Whether the plugins are told so.
        notify_plugins: bool,
    },
}

/// The packet that an action sends to the peer, where it sends one of ours.
pub open spec fn reply(action: LoopAction) -> Option<PacketView> {
    match action {
        LoopAction::SendAccept => Some(pair_packet(true)),
        LoopAction::NotifyUnpaired => Some(pair_packet(false)),
        _ => None,
    }
}

/// The packet that an action sends to the peer, where it sends one of ours.
pub fn reply_to_send(action: LoopAction) -> (r: Option<Packet>)
    ensures
        match r {
            Some(p) => reply(action) == Some(p@),
            None => reply(action) is None,
        },
{
    match action {
        LoopAction::SendAccept => Some(Packet::pair_response(true)),
        LoopAction::NotifyUnpaired => Some(Packet::pair_response(false)),
        _ => None,
    }
}

/// What is said of an end that leaves nothing but the link behind.
pub open spec fn plain_end(cleanup: PairCleanup) -> LoopAction {
    LoopAction::End {
        result: LoopResult::Disconnected,
        cleanup,
        mark_disconnected: false,
        notify_plugins: false,
    }
}

/// What the loop remembers.
#[derive(Debug, Clone, Copy, PartialEq, Eq, Structural)]
pub struct LoopMemory {
    pub phase: LoopPhase,
    /// Whether the peer was told that it is not paired, since the last pair
    /// packet.
    pub unpair_notified: bool,
}

/// Whether a pair request is heard: one of a device that dates its requests
/// needs a date near ours. A device of unknown version is taken for one that
/// does.
pub open spec fn request_is_heard(packet: PacketView, context: PairContext) -> bool {
    let version = match context.protocol_version {
        Some(v) => v,
        None => TIMESTAMPED_PAIRING_VERSION,
    };
    version >= TIMESTAMPED_PAIRING_VERSION ==> (packet.int_field("timestamp"@) matches Some(ts)
        && is_fresh(ts, context.now))
}

/// What follows from a packet.
pub open spec fn on_packet(memory: LoopMemory, packet: PacketView, context: PairContext) -> (
    LoopMemory,
    LoopAction,
) {
    if packet.is_pair() {
        let heard = LoopMemory { unpair_notified: false, ..memory };
        match packet.bool_field("pair"@) {
            None => (heard, LoopAction::Receive),
            Some(true) => if context.pair_state == PairState::Requested {
                (
                    LoopMemory { phase: LoopPhase::Completing, ..heard },
                    LoopAction::CompletePairing,
                )
            } else if request_is_heard(packet, context) {
                (
                    LoopMemory { phase: LoopPhase::Requesting, ..heard },
                    LoopAction::RequestPairing { timestamp: packet.int_field("timestamp"@) },
                )
            } else {
                (heard, LoopAction::Receive)
            },
            Some(false) => match context.pair_state {
                PairState::Paired => (
                    LoopMemory { phase: LoopPhase::Ended, ..heard },
                    plain_end(PairCleanup::Unpair),
                ),
                PairState::Requested => (
                    LoopMemory { phase: LoopPhase::Ended, ..heard },
                    plain_end(PairCleanup::Reject),
                ),
                PairState::RequestedByPeer => (
                    LoopMemory { phase: LoopPhase::Ended, ..heard },
                    plain_end(PairCleanup::Reject),
                ),
                PairState::NotPaired => (heard, LoopAction::Receive),
            },
        }
    } else if !context.paired {
        if memory.unpair_notified {
            (memory, LoopAction::Receive)
        } else {
            (LoopMemory { unpair_notified: true, ..memory }, LoopAction::NotifyUnpaired)
        }
    } else {
        (memory, LoopAction::Route)
    }
}

/// Whether an event can happen at the step that the loop is at.
pub open spec fn fits(phase: LoopPhase, event: LoopEvent) -> bool {
    match event {
        LoopEvent::Completed(_) => phase == LoopPhase::Completing,
        LoopEvent::Requested { .. } => phase == LoopPhase::Requesting,
        LoopEvent::AcceptSent(_) => phase == LoopPhase::Accepting,
        _ => phase == LoopPhase::Receiving,
    }
}

/// What follows from an event, given the link that the loop reads: what the
/// loop remembers, what is to be done, and the table of links afterwards.
pub open spec fn on_event(
    memory: LoopMemory,
    links: LinksView,
    id: Seq<char>,
    generation: u64,
    event: LoopEvent,
) -> (LoopMemory, LoopAction, LinksView) {
    let ended = LoopMemory { phase: LoopPhase::Ended, ..memory };
    let receiving = LoopMemory { phase: LoopPhase::Receiving, ..memory };
    // Whoever drives an outdated link owns nothing that goes with the new one.
    let owns = !(links.connections.contains_key(id) && links.connections[id].generation
        != generation);
    let let_go = |result: LoopResult|
        (
            ended,
            LoopAction::End {
                result,
                cleanup: PairCleanup::Keep,
                mark_disconnected: owns,
                notify_plugins: owns,
            },
            disconnected(links, id, generation),
        );
    match event {
        LoopEvent::RecvTimedOut => (memory, LoopAction::Receive, links),
        LoopEvent::RecvFailed => let_go(LoopResult::Disconnected),
        LoopEvent::IdleTimedOut => (
            memory,
            LoopAction::LeaveIdle { owned: owns },
            disconnected(links, id, generation),
        ),
        LoopEvent::ShuttingDown => let_go(LoopResult::Shutdown),
        LoopEvent::Cancelled => {
            let current = links.is_current(id, generation);
            (
                ended,
                LoopAction::End {
                    result: LoopResult::Disconnected,
                    cleanup: PairCleanup::Keep,
                    mark_disconnected: current,
                    notify_plugins: false,
                },
                if current {
                    links.without_token(id)
                } else {
                    links
                },
            )
        },
        LoopEvent::Completed(done) => (
            receiving,
            if done {
                LoopAction::InitPlugins
            } else {
                LoopAction::Receive
            },
            links,
        ),
        LoopEvent::Requested { processed, paired } => if !processed {
            (receiving, LoopAction::Receive, links)
        } else if paired {
            (LoopMemory { phase: LoopPhase::Accepting, ..memory }, LoopAction::SendAccept, links)
        } else {
            (receiving, LoopAction::AnnounceRequest, links)
        },
        LoopEvent::AcceptSent(sent) => (
            receiving,
            if sent {
                LoopAction::InitPlugins
            } else {
                LoopAction::RollBack
            },
            links,
        ),
    }
}

/// The loop of one link.
#[derive(Debug)]
pub struct PacketLoop {
    pub device_id: String,
    pub generation: u64,
    pub memory: LoopMemory,
}

impl PacketLoop {
    /// A loop that has received nothing yet.
    pub fn new(device_id: String, generation: u64) -> (r: Self)
        ensures
            r.device_id == device_id,
            r.generation == generation,
            r.memory == (LoopMemory { phase: LoopPhase::Receiving, unpair_notified: false }),
    {
        PacketLoop {
            device_id,
            generation,
            memory: LoopMemory { phase: LoopPhase::Receiving, unpair_notified: false },
        }
    }

    /// Takes a packet that arrived.
    pub fn packet_received(&mut self, packet: &Packet, context: PairContext) -> (r: LoopAction)
        requires
            old(self).memory.phase == LoopPhase::Receiving,
        ensures
            (final(self).memory, r) == on_packet(old(self).memory, packet@, context),
            final(self).device_id == old(self).device_id,
            final(self).generation == old(self).generation,
    {
        if !packet.is_pair() {
            if context.paired {
                return LoopAction::Route;
            }
            if self.memory.unpair_notified {
                return LoopAction::Receive;
            }
            self.memory.unpair_notified = true;
            return LoopAction::NotifyUnpaired;
        }
        self.memory.unpair_notified = false;
        let accepted = match pair_decision(packet) {
            Some(accepted) => accepted,
            None => {
                return LoopAction::Receive;
            },
        };
        if accepted {
            if context.pair_state == PairState::Requested {
                self.memory.phase = LoopPhase::Completing;
                return LoopAction::CompletePairing;
            }
            let timestamp = packet.get_int("timestamp");
            let version: u32 = match context.protocol_version {
                Some(v) => v,
                None => TIMESTAMPED_PAIRING_VERSION,
            };
            if version >= TIMESTAMPED_PAIRING_VERSION {
                match timestamp {
                    Some(ts) => {
                        if !pair_timestamp_is_fresh(ts, context.now) {
                            return LoopAction::Receive;
                        }
                    },
                    None => {
                        return LoopAction::Receive;
                    },
                }
            }
            self.memory.phase = LoopPhase::Requesting;
            return LoopAction::RequestPairing { timestamp };
        }
        let cleanup = match context.pair_state {
            PairState::Paired => PairCleanup::Unpair,
            PairState::Requested => PairCleanup::Reject,
            PairState::RequestedByPeer => PairCleanup::Reject,
            PairState::NotPaired => {
                return LoopAction::Receive;
            },
        };
        self.memory.phase = LoopPhase::Ended;
        LoopAction::End {
            result: LoopResult::Disconnected,
            cleanup,
            mark_disconnected: false,
            notify_plugins: false,
        }
    }

    /// Lets go of the link, and says whether anything is left to clean up.
    fn let_go(&mut self, manager: &mut ConnectionManager, result: LoopResult) -> (r: LoopAction)
        ensures
            final(self).device_id == old(self).device_id,
            final(self).generation == old(self).generation,
            final(self).memory == (LoopMemory {
                phase: LoopPhase::Ended,
                ..old(self).memory
            }),
            final(manager)@ == disconnected(
                old(manager)@,
                old(self).device_id@,
                old(self).generation,
            ),
            old(manager)@.wf() ==> final(manager)@.wf(),
            final(manager).certs() == old(manager).certs(),
            r == ({
                let owns = !(old(manager)@.connections.contains_key(old(self).device_id@)
                    && old(manager)@.connections[old(self).device_id@].generation
                    != old(self).generation);
                LoopAction::End {
                    result,
                    cleanup: PairCleanup::Keep,
                    mark_disconnected: owns,
                    notify_plugins: owns,
                }
            }),
    {
        let owns = match manager.disconnect(self.device_id.as_str(), self.generation) {
            Ok(owns) => owns,
            Err(_) => false,
        };
        self.memory.phase = LoopPhase::Ended;
        LoopAction::End {
            result,
            cleanup: PairCleanup::Keep,
            mark_disconnected: owns,
            notify_plugins: owns,
        }
    }

    /// Takes anything else that happened.
    pub fn run_packet_loop(&mut self, manager: &mut ConnectionManager, event: LoopEvent) -> (r:
        LoopAction)
        requires
            fits(old(self).memory.phase, event),
        ensures
            (final(self).memory, r, final(manager)@) == on_event(
                old(self).memory,
                old(manager)@,
                old(self).device_id@,
                old(self).generation,
                event,
            ),
            final(self).device_id == old(self).device_id,
            final(self).generation == old(self).generation,
            old(manager)@.wf() ==> final(manager)@.wf(),
            final(manager).certs() == old(manager).certs(),
    {
        match event {
            LoopEvent::RecvTimedOut => LoopAction::Receive,
            LoopEvent::RecvFailed => self.let_go(manager, LoopResult::Disconnected),
            LoopEvent::IdleTimedOut => {
                let owned = match manager.disconnect(self.device_id.as_str(), self.generation) {
                    Ok(owned) => owned,
                    Err(_) => false,
                };
                LoopAction::LeaveIdle { owned }
            },
            LoopEvent::ShuttingDown => self.let_go(manager, LoopResult::Shutdown),
            LoopEvent::Cancelled => {
                let current = manager.remove_cancel_token_if_current(
                    self.device_id.as_str(),
                    self.generation,
                );
                self.memory.phase = LoopPhase::Ended;
                LoopAction::End {
                    result: LoopResult::Disconnected,
                    cleanup: PairCleanup::Keep,
                    mark_disconnected: current,
                    notify_plugins: false,
                }
            },
            LoopEvent::Completed(done) => {
                self.memory.phase = LoopPhase::Receiving;
                if done {
                    LoopAction::InitPlugins
                } else {
                    LoopAction::Receive
                }
            },
            LoopEvent::Requested { processed, paired } => {
                if !processed {
                    self.memory.phase = LoopPhase::Receiving;
                    LoopAction::Receive
                } else if paired {
                    self.memory.phase = LoopPhase::Accepting;
                    LoopAction::SendAccept
                } else {
                    self.memory.phase = LoopPhase::Receiving;
                    LoopAction::AnnounceRequest
                }
            },
            LoopEvent::AcceptSent(sent) => {
                self.memory.phase = LoopPhase::Receiving;
                if sent {
                    LoopAction::InitPlugins
                } else {
                    LoopAction::RollBack
                }
            },
        }
    }
}

/// How often a run of packets makes the loop tell the peer that it is not
/// paired.
pub open spec fn notices(memory: LoopMemory, packets: Seq<(PacketView, PairContext)>) -> nat
    decreases packets.len(),
{
    if packets.len() == 0 {
        0
    } else {
        let (next, action) = on_packet(memory, packets[0].0, packets[0].1);
        (if action == LoopAction::NotifyUnpaired {
            1nat
        } else {
            0nat
        }) + notices(next, packets.drop_first())
    }
}

/// An unpaired peer is told so once, however many packets it sends until it
/// sends a pair packet.
pub proof fn law_unpaired_peer_is_told_once(
    memory: LoopMemory,
    packets: Seq<(PacketView, PairContext)>,
)
    requires
        forall|i: int|
            0 <= i < packets.len() ==> !(#[trigger] packets[i]).0.is_pair() && !packets[i].1.paired,
    ensures
        notices(memory, packets) == (if packets.len() > 0 && !memory.unpair_notified {
            1nat
        } else {
            0nat
        }),
    decreases packets.len(),
{
    if packets.len() > 0 {
        let (next, _) = on_packet(memory, packets[0].0, packets[0].1);
        assert(next.unpair_notified);
        let rest = packets.drop_first();
        assert forall|i: int| 0 <= i < rest.len() implies !(#[trigger] rest[i]).0.is_pair()
            && !rest[i].1.paired by {
            assert(rest[i] == packets[i + 1]);
        }
        law_unpaired_peer_is_told_once(next, rest);
    }
}

/// Nothing but a pair packet of an unpaired device has any effect: what else it
/// sends is never handed to the plugins.
pub proof fn law_unpaired_packets_are_dropped(
    memory: LoopMemory,
    packet: PacketView,
    context: PairContext,
)
    requires
        !context.paired,
    ensures
        on_packet(memory, packet, context).1 != LoopAction::Route,
        !packet.is_pair() ==> on_packet(memory, packet, context).0.phase == memory.phase,
{
}

/// A pair packet without a boolean decides nothing.
pub proof fn law_malformed_pair_packets_decide_nothing(
    memory: LoopMemory,
    packet: PacketView,
    context: PairContext,
)
    requires
        packet.is_pair(),
        packet.bool_field("pair"@) is None,
    ensures
        on_packet(memory, packet, context) == (
            LoopMemory { unpair_notified: false, ..memory },
            LoopAction::Receive,
        ),
{
}

/// A request is never answered with a request: the one acceptance that is ever
/// sent follows a request that was processed and found the device paired by it,
/// and an acceptance of the peer is answered with nothing.
pub proof fn law_acceptance_is_sent_only_when_mutual(
    memory: LoopMemory,
    links: LinksView,
    id: Seq<char>,
    generation: u64,
    event: LoopEvent,
    packet: PacketView,
    context: PairContext,
)
    ensures
        on_packet(memory, packet, context).1 != LoopAction::SendAccept,
        on_event(memory, links, id, generation, event).1 == LoopAction::SendAccept <==> event == (
        LoopEvent::Requested { processed: true, paired: true }),
{
}

/// An unpair cuts the pairing whatever its timestamp says.
pub proof fn law_unpair_needs_no_timestamp(
    memory: LoopMemory,
    packet: PacketView,
    context: PairContext,
)
    requires
        packet.is_pair(),
        packet.bool_field("pair"@) == Some(false),
        context.pair_state != PairState::NotPaired,
    ensures
        on_packet(memory, packet, context).0.phase == LoopPhase::Ended,
        on_packet(memory, packet, context).1 == plain_end(
            if context.pair_state == PairState::Paired {
                PairCleanup::Unpair
            } else {
                PairCleanup::Reject
            },
        ),
{
}

/// A loop whose link was replaced leaves the table of links as it is and claims
/// nothing about the device, however it ends.
pub proof fn law_outdated_loops_touch_nothing(
    memory: LoopMemory,
    links: LinksView,
    id: Seq<char>,
    generation: u64,
    event: LoopEvent,
)
    requires
        links.connections.contains_key(id),
        links.connections[id].generation != generation,
    ensures
        on_event(memory, links, id, generation, event).2 == links,
        on_event(memory, links, id, generation, event).1 matches LoopAction::End {
            mark_disconnected,
            notify_plugins,
            ..
        } ==> !mark_disconnected && !notify_plugins,
        on_event(memory, links, id, generation, event).1 matches LoopAction::LeaveIdle { owned }
            ==> !owned,
{
}

/// Once its link was idle for too long, a loop is refused to read from it, and
/// that refusal ends the loop without touching a link.
pub proof fn law_idle_links_are_read_no_more(
    memory: LoopMemory,
    links: LinksView,
    id: Seq<char>,
    generation: u64,
)
    ensures
        ({
            let (after, _, left) = on_event(
                memory,
                links,
                id,
                generation,
                LoopEvent::IdleTimedOut,
            );
            &&& left.recv_refusal(id, Some(generation)) is Some
            &&& on_event(after, left, id, generation, LoopEvent::RecvFailed).0.phase
                == LoopPhase::Ended
            &&& on_event(after, left, id, generation, LoopEvent::RecvFailed).2.connections
                == left.connections
        }),
{
    let left = disconnected(links, id, generation);
    assert(disconnected(left, id, generation).connections =~= left.connections);
}

/// A pairing that could not be confirmed to the peer is rolled back.
pub proof fn law_unconfirmed_pairing_is_rolled_back(
    memory: LoopMemory,
    links: LinksView,
    id: Seq<char>,
    generation: u64,
)
    ensures
        on_event(memory, links, id, generation, LoopEvent::AcceptSent(false)).1
            == LoopAction::RollBack,
{
}

/// The action on an event tells the event: a pairing is rolled back only where
/// our acceptance could not be sent, the plugins introduce themselves only where
/// a pairing was confirmed on both sides, and a request is announced only where
/// it was processed and did not pair the device.
pub proof fn law_actions_tell_their_events(
    memory: LoopMemory,
    links: LinksView,
    id: Seq<char>,
    generation: u64,
    event: LoopEvent,
)
    ensures
        ({
            let action = on_event(memory, links, id, generation, event).1;
            &&& action == LoopAction::RollBack <==> event == LoopEvent::AcceptSent(false)
            &&& action == LoopAction::InitPlugins <==> (event == LoopEvent::AcceptSent(true)
                || event == LoopEvent::Completed(true))
            &&& action == LoopAction::AnnounceRequest <==> event == (LoopEvent::Requested {
                processed: true,
                paired: false,
            })
            &&& action == LoopAction::SendAccept <==> event == (LoopEvent::Requested {
                processed: true,
                paired: true,
            })
            &&& action == LoopAction::Receive <==> (event == LoopEvent::RecvTimedOut || event
                == LoopEvent::Completed(false) || (event matches LoopEvent::Requested {
                processed,
                ..
            } && !processed))
            &&& action is LeaveIdle <==> event == LoopEvent::IdleTimedOut
            &&& action is End <==> (event == LoopEvent::RecvFailed || event
                == LoopEvent::ShuttingDown || event == LoopEvent::Cancelled)
        }),
{
}

/// The loop ends because the daemon stops if and only if the daemon stops;
/// nothing that happens to a link undoes a pairing, and an end by a newer link is
/// not told to the plugins.
pub proof fn law_ends_tell_their_reasons(
    memory: LoopMemory,
    links: LinksView,
    id: Seq<char>,
    generation: u64,
    event: LoopEvent,
)
    ensures
        on_event(memory, links, id, generation, event).1 matches LoopAction::End {
            result,
            cleanup,
            mark_disconnected,
            notify_plugins,
        } ==> {
            &&& result == LoopResult::Shutdown <==> event == LoopEvent::ShuttingDown
            &&& cleanup == PairCleanup::Keep
            &&& event == LoopEvent::Cancelled ==> !notify_plugins && (mark_disconnected
                <==> links.connections.contains_key(id) && links.connections[id].generation
                == generation)
            &&& event != LoopEvent::Cancelled ==> (mark_disconnected <==> (
            links.connections.contains_key(id) ==> links.connections[id].generation == generation))
                && (notify_plugins <==> mark_disconnected)
        },
        on_event(memory, links, id, generation, event).1 matches LoopAction::LeaveIdle { owned }
            ==> (owned <==> (links.connections.contains_key(id) ==> links.connections[id].generation
            == generation)),
{
}

/// An event can happen only at its own step: the end of a pairing while it is being
/// completed, the end of a request while it is being processed, the end of an
/// acceptance while it is being sent, and anything else while a packet is awaited.
pub proof fn law_events_happen_at_their_step(phase: LoopPhase, event: LoopEvent)
    requires
        fits(phase, event),
    ensures
        event is Completed <==> phase == LoopPhase::Completing,
        event is Requested <==> phase == LoopPhase::Requesting,
        event is AcceptSent <==> phase == LoopPhase::Accepting,
        !(event is Completed) && !(event is Requested) && !(event is AcceptSent) <==> phase
            == LoopPhase::Receiving,
        phase != LoopPhase::Ended,
{
}

/// What the loop is told to do next leads to an event that can happen: each action
/// is followed by the event that ends it.
pub proof fn law_actions_lead_to_their_events(
    memory: LoopMemory,
    packet: PacketView,
    context: PairContext,
    done: bool,
    paired: bool,
)
    requires
        memory.phase == LoopPhase::Receiving,
    ensures
        ({
            let (after, action) = on_packet(memory, packet, context);
            &&& action == LoopAction::CompletePairing ==> fits(
                after.phase,
                LoopEvent::Completed(done),
            )
            &&& action is RequestPairing ==> fits(
                after.phase,
                LoopEvent::Requested { processed: done, paired },
            )
            &&& action is Receive || action is Route || action is NotifyUnpaired ==> fits(
                after.phase,
                LoopEvent::RecvTimedOut,
            ) && fits(after.phase, LoopEvent::ShuttingDown)
        }),
{
}

/// After an event the loop waits for a packet, unless our acceptance is now to be
/// sent or the loop has ended; what an unpaired peer was told is not forgotten.
pub proof fn law_events_lead_back_to_receiving(
    memory: LoopMemory,
    links: LinksView,
    id: Seq<char>,
    generation: u64,
    event: LoopEvent,
)
    requires
        fits(memory.phase, event),
    ensures
        ({
            let (after, action, _) = on_event(memory, links, id, generation, event);
            &&& after.unpair_notified == memory.unpair_notified
            &&& after.phase == LoopPhase::Accepting <==> action == LoopAction::SendAccept
            &&& after.phase == LoopPhase::Ended <==> action is End
            &&& after.phase == LoopPhase::Receiving <==> !(action is End) && action
                != LoopAction::SendAccept
        }),
{
}

/// The loop lets go of its link when receiving fails, the link is idle or the
/// daemon stops, and then the link and its token are gone; a newer link's loop
/// keeps its own; nothing else touches a link, and no other device's link or
/// token is ever touched.
pub proof fn law_events_let_go_of_the_own_link_only(
    memory: LoopMemory,
    links: LinksView,
    id: Seq<char>,
    generation: u64,
    event: LoopEvent,
    other: Seq<char>,
)
    ensures
        ({
            let left = on_event(memory, links, id, generation, event).2;
            let lets_go = event == LoopEvent::RecvFailed || event == LoopEvent::IdleTimedOut
                || event == LoopEvent::ShuttingDown;
            let current = links.connections.contains_key(id) && links.connections[id].generation
                == generation;
            &&& left.connections.contains_key(other) <==> links.connections.contains_key(other)
                && !(other == id && current && lets_go)
            &&& left.connections.contains_key(other) ==> left.connections[other]
                == links.connections[other]
            &&& current ==> (left.cancel_tokens.contains_key(other)
                <==> links.cancel_tokens.contains_key(other) && !(other == id && (lets_go || event
                == LoopEvent::Cancelled)))
            &&& other != id ==> left.cancel_tokens.contains_key(other)
                == links.cancel_tokens.contains_key(other)
            &&& left.cancel_tokens.contains_key(other) ==> left.cancel_tokens[other]
                == links.cancel_tokens[other]
            &&& left.generations == links.generations
            &&& left.peer_capabilities == links.peer_capabilities
            &&& left.pending == links.pending
            &&& left.attempts == links.attempts
        }),
{
}

/// A packet that is no pair packet goes to the plugins if and only if the device
/// is paired, and an unpaired device is told so if and only if it was not told
/// before.
pub proof fn law_packets_are_routed_when_paired(
    memory: LoopMemory,
    packet: PacketView,
    context: PairContext,
)
    requires
        packet.packet_type != "kdeconnect.pair"@,
    ensures
        ({
            let (after, action) = on_packet(memory, packet, context);
            &&& action == LoopAction::Route <==> context.paired
            &&& action == LoopAction::NotifyUnpaired <==> !context.paired
                && !memory.unpair_notified
            &&& action == LoopAction::Receive <==> !context.paired && memory.unpair_notified
            &&& after.phase == memory.phase
            &&& after.unpair_notified <==> memory.unpair_notified || !context.paired
        }),
{
}

/// A pair packet that says yes completes the pairing if and only if we had
/// asked. Otherwise it is a request, which is passed on with its timestamp if it
/// is dated within 1800 seconds of our clock, before or after, or if the device
/// is known to speak a version below 8, which dates no requests; else it is
/// ignored.
pub proof fn law_requests_are_heard_when_fresh(
    memory: LoopMemory,
    packet: PacketView,
    context: PairContext,
)
    requires
        packet.packet_type == "kdeconnect.pair"@,
        packet.bool_field("pair"@) == Some(true),
    ensures
        ({
            let (after, action) = on_packet(memory, packet, context);
            let timestamp = packet.int_field("timestamp"@);
            let asked = context.pair_state == PairState::Requested;
            let old_version = context.protocol_version matches Some(v) && v < 8;
            let fresh = timestamp matches Some(ts) && ts - context.now <= 1800 && context.now - ts
                <= 1800;
            &&& action == LoopAction::CompletePairing <==> asked
            &&& action == (LoopAction::RequestPairing { timestamp }) <==> !asked && (old_version
                || fresh)
            &&& action == LoopAction::Receive <==> !asked && !old_version && !fresh
            &&& !after.unpair_notified
            &&& after.phase == (if asked {
                LoopPhase::Completing
            } else if old_version || fresh {
                LoopPhase::Requesting
            } else {
                memory.phase
            })
        }),
{
}

/// A pair packet that says no ends the loop if and only if something is paired or
/// asked for: a pairing is forgotten, a request of either side is dropped. The
/// device does not count as disconnected by it.
pub proof fn law_refusals_undo_what_there_is(
    memory: LoopMemory,
    packet: PacketView,
    context: PairContext,
)
    requires
        packet.packet_type == "kdeconnect.pair"@,
        packet.bool_field("pair"@) == Some(false),
    ensures
        ({
            let (after, action) = on_packet(memory, packet, context);
            &&& action == LoopAction::Receive <==> context.pair_state == PairState::NotPaired
            &&& action is End <==> context.pair_state != PairState::NotPaired
            &&& after.phase == (if context.pair_state == PairState::NotPaired {
                memory.phase
            } else {
                LoopPhase::Ended
            })
            &&& action matches LoopAction::End {
                result,
                cleanup,
                mark_disconnected,
                notify_plugins,
            } ==> result == LoopResult::Disconnected && !mark_disconnected && !notify_plugins && (
            cleanup == PairCleanup::Unpair <==> context.pair_state == PairState::Paired) && (cleanup
                == PairCleanup::Reject <==> context.pair_state != PairState::Paired)
            &&& !after.unpair_notified
        }),
{
}

/// What is sent of our own accord is a pair packet with one field: it says yes
/// where we accept, and no where an unpaired peer is told so.
pub proof fn law_own_replies_say_whether_we_are_paired(action: LoopAction)
    ensures
        reply(action) is Some <==> action == LoopAction::SendAccept || action
            == LoopAction::NotifyUnpaired,
        reply(action) matches Some(p) ==> p.packet_type == "kdeconnect.pair"@ && p.body.len() == 1
            && p.body[0].0 == "pair"@ && (p.body[0].1 matches crate::packet::ValueView::Bool(yes)
            && (yes <==> action == LoopAction::SendAccept)),
{
}

/// A link is idle if and only if more nanoseconds have passed than the threshold
/// has.
pub proof fn law_idle_counts_nanoseconds(last: Moment, now: Moment, threshold_secs: u64)
    requires
        last.nanos < 1_000_000_000,
        now.nanos < 1_000_000_000,
    ensures
        is_idle_for(last, now, threshold_secs) <==> (now.seconds - last.seconds) * 1_000_000_000 + (
        now.nanos - last.nanos) > threshold_secs * 1_000_000_000,
{
}

} // verus!
