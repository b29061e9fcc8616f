use rust_connect::outside::Moment;
use rust_connect::packet::{Packet, Value};
use rust_connect::protocol::connection::manager::{ConnectionInfo, ConnectionManager};
use rust_connect::protocol::connection_loop::{
    idle_check_interval, pair_decision, pair_timestamp_is_fresh, reply_to_send, LoopAction,
    LoopEvent, LoopPhase, LoopResult, PacketLoop, PairCleanup, PairContext, PairState,
};
use rust_connect::protocol::crypto::CertificateManager;

const DEVICE: &str = "peer-device-aaaaaaaaaaaaaaaaaaaaaa";
const NOW: i64 = 1_700_000_000;

fn pair_packet(fields: Vec<(&str, Value)>) -> Packet {
    let body = fields
        .into_iter()
        .map(|(k, v)| (k.to_string(), v))
        .collect();
    Packet::new("kdeconnect.pair".to_string(), body)
}

fn manager() -> ConnectionManager {
    ConnectionManager::new(CertificateManager::new("/certs".to_string())).expect("manager")
}

fn moment(seconds: i64) -> Moment {
    Moment { seconds, nanos: 0 }
}

fn context(pair_state: PairState, paired: bool) -> PairContext {
    PairContext {
        pair_state,
        paired,
        protocol_version: Some(8),
        now: NOW,
    }
}

fn new_loop() -> PacketLoop {
    PacketLoop::new(DEVICE.to_string(), 1)
}

#[test]
fn malformed_pair_values_are_not_rejections() {
    for fields in [
        vec![],
        vec![("pair", Value::Text("false".to_string()))],
        vec![("pair", Value::Int(0))],
        vec![("pair", Value::Null)],
    ] {
        let packet = pair_packet(fields);
        assert_eq!(pair_decision(&packet), None);
    }
}

#[test]
fn pair_timestamp_distance_is_overflow_safe() {
    assert!(pair_timestamp_is_fresh(100, 1900));
    assert!(!pair_timestamp_is_fresh(100, 1901));
    assert!(!pair_timestamp_is_fresh(i64::MIN, i64::MAX));
    assert!(!pair_timestamp_is_fresh(i64::MAX, i64::MIN));
}

#[test]
fn test_pair_packet_with_valid_timestamp_is_accepted() {
    let now = chrono::Utc::now().timestamp();
    let packet = pair_packet(vec![
        ("pair", Value::Bool(true)),
        ("timestamp", Value::Int(now)),
    ]);
    assert!(packet.is_pair());
    assert!(packet.get_int("timestamp").is_some());
}

#[test]
fn test_pair_packet_without_timestamp_carries_no_timestamp() {
    let packet = pair_packet(vec![("pair", Value::Bool(true))]);
    assert!(packet.is_pair());
    assert!(packet.get("timestamp").is_none());
}

#[test]
fn stale_and_undated_requests_are_not_heard() {
    for fields in [
        vec![("pair", Value::Bool(true))],
        vec![("pair", Value::Bool(true)), ("timestamp", Value::Int(NOW - 1801))],
        vec![("pair", Value::Bool(true)), ("timestamp", Value::Int(NOW + 1801))],
    ] {
        let mut l = new_loop();
        let action = l.packet_received(&pair_packet(fields), context(PairState::NotPaired, false));
        assert_eq!(action, LoopAction::Receive);
    }
    let mut l = new_loop();
    let fresh = pair_packet(vec![
        ("pair", Value::Bool(true)),
        ("timestamp", Value::Int(NOW - 1800)),
    ]);
    let action = l.packet_received(&fresh, context(PairState::NotPaired, false));
    assert_eq!(
        action,
        LoopAction::RequestPairing {
            timestamp: Some(NOW - 1800)
        }
    );
}

#[test]
fn older_devices_do_not_date_their_requests() {
    let mut l = new_loop();
    let old = PairContext {
        protocol_version: Some(7),
        ..context(PairState::NotPaired, false)
    };
    let action = l.packet_received(&pair_packet(vec![("pair", Value::Bool(true))]), old);
    assert_eq!(action, LoopAction::RequestPairing { timestamp: None });
    let mut unknown = new_loop();
    let context = PairContext {
        protocol_version: None,
        ..old
    };
    let action = unknown.packet_received(&pair_packet(vec![("pair", Value::Bool(true))]), context);
    assert_eq!(action, LoopAction::Receive);
}

#[test]
fn an_acceptance_needs_no_timestamp() {
    let mut l = new_loop();
    let mut m = manager();
    let action = l.packet_received(
        &pair_packet(vec![("pair", Value::Bool(true))]),
        context(PairState::Requested, false),
    );
    assert_eq!(action, LoopAction::CompletePairing);
    assert_eq!(l.memory.phase, LoopPhase::Completing);
    let action = l.run_packet_loop(&mut m, LoopEvent::Completed(true));
    assert_eq!(action, LoopAction::InitPlugins);
    assert_eq!(l.memory.phase, LoopPhase::Receiving);
}

#[test]
fn acceptance_is_sent_once_both_have_asked() {
    let request = pair_packet(vec![
        ("pair", Value::Bool(true)),
        ("timestamp", Value::Int(NOW)),
    ]);
    let mut m = manager();
    let mut l = new_loop();
    l.packet_received(&request, context(PairState::NotPaired, false));
    let action = l.run_packet_loop(
        &mut m,
        LoopEvent::Requested {
            processed: true,
            paired: false,
        },
    );
    assert_eq!(action, LoopAction::AnnounceRequest);

    l.packet_received(&request, context(PairState::RequestedByPeer, false));
    let action = l.run_packet_loop(
        &mut m,
        LoopEvent::Requested {
            processed: true,
            paired: true,
        },
    );
    assert_eq!(action, LoopAction::SendAccept);
    let reply = reply_to_send(action).expect("reply");
    assert_eq!(reply.packet_type, "kdeconnect.pair");
    assert_eq!(reply.get_bool("pair"), Some(true));
    let action = l.run_packet_loop(&mut m, LoopEvent::AcceptSent(false));
    assert_eq!(action, LoopAction::RollBack);
}

#[test]
fn an_unpaired_peer_is_told_so_once() {
    let mut l = new_loop();
    let ping = Packet::ping();
    let unpaired = context(PairState::NotPaired, false);
    let action = l.packet_received(&ping, unpaired);
    assert_eq!(action, LoopAction::NotifyUnpaired);
    assert_eq!(
        reply_to_send(action).expect("reply").get_bool("pair"),
        Some(false)
    );
    assert_eq!(l.packet_received(&ping, unpaired), LoopAction::Receive);
    l.packet_received(&pair_packet(vec![]), unpaired);
    assert_eq!(
        l.packet_received(&ping, unpaired),
        LoopAction::NotifyUnpaired
    );
    assert_eq!(
        l.packet_received(&ping, context(PairState::Paired, true)),
        LoopAction::Route
    );
}

#[test]
fn unpairing_ends_the_loop_and_rejecting_forgets_the_request() {
    let no = || pair_packet(vec![("pair", Value::Bool(false))]);
    for (state, expected) in [
        (PairState::Paired, Some(PairCleanup::Unpair)),
        (PairState::Requested, Some(PairCleanup::Reject)),
        (PairState::RequestedByPeer, Some(PairCleanup::Reject)),
        (PairState::NotPaired, None),
    ] {
        let mut l = new_loop();
        match (l.packet_received(&no(), context(state, false)), expected) {
            (
                LoopAction::End {
                    result, cleanup, ..
                },
                Some(wanted),
            ) => {
                assert_eq!(result, LoopResult::Disconnected);
                assert_eq!(cleanup, wanted);
            }
            (LoopAction::Receive, None) => {}
            other => panic!("unexpected {other:?}"),
        }
    }
}

#[test]
fn ends_let_go_of_the_link_unless_it_was_replaced() {
    let mut m = manager();
    let first = m.register_link(DEVICE, None, None, None, moment(1));
    let mut stale = PacketLoop::new(DEVICE.to_string(), first);
    let second = m.register_link(DEVICE, None, None, None, moment(2));
    let mut live = PacketLoop::new(DEVICE.to_string(), second);

    match stale.run_packet_loop(&mut m, LoopEvent::RecvFailed) {
        LoopAction::End {
            mark_disconnected,
            notify_plugins,
            ..
        } => assert!(!mark_disconnected && !notify_plugins),
        other => panic!("unexpected {other:?}"),
    }
    assert!(m.is_connected(DEVICE));

    match live.run_packet_loop(&mut m, LoopEvent::ShuttingDown) {
        LoopAction::End {
            result,
            mark_disconnected,
            notify_plugins,
            ..
        } => {
            assert_eq!(result, LoopResult::Shutdown);
            assert!(mark_disconnected && notify_plugins);
        }
        other => panic!("unexpected {other:?}"),
    }
    assert!(!m.is_connected(DEVICE));
}

#[test]
fn an_idle_link_is_let_go_of_and_the_loop_ends_with_the_next_read() {
    let mut m = manager();
    let generation = m.register_link(DEVICE, None, None, None, moment(1));
    let mut l = PacketLoop::new(DEVICE.to_string(), generation);
    assert_eq!(
        l.run_packet_loop(&mut m, LoopEvent::IdleTimedOut),
        LoopAction::LeaveIdle { owned: true }
    );
    assert!(!m.is_connected(DEVICE));
    assert!(m.recv_packet_current(DEVICE, generation).is_err());
    assert_eq!(
        l.run_packet_loop(&mut m, LoopEvent::RecvFailed),
        LoopAction::End {
            result: LoopResult::Disconnected,
            cleanup: PairCleanup::Keep,
            mark_disconnected: true,
            notify_plugins: true,
        }
    );

    let stale = m.register_link(DEVICE, None, None, None, moment(1));
    let mut l = PacketLoop::new(DEVICE.to_string(), stale);
    m.register_link(DEVICE, None, None, None, moment(2));
    assert_eq!(
        l.run_packet_loop(&mut m, LoopEvent::IdleTimedOut),
        LoopAction::LeaveIdle { owned: false }
    );
    assert!(m.is_connected(DEVICE));
}

#[test]
fn a_cancelled_loop_leaves_the_replacement_alone() {
    let mut m = manager();
    let first = m.register_link(DEVICE, None, None, None, moment(1));
    let mut stale = PacketLoop::new(DEVICE.to_string(), first);
    m.register_link(DEVICE, None, None, None, moment(2));
    m.register_cancel_token(DEVICE, 7);
    match stale.run_packet_loop(&mut m, LoopEvent::Cancelled) {
        LoopAction::End {
            mark_disconnected,
            notify_plugins,
            ..
        } => assert!(!mark_disconnected && !notify_plugins),
        other => panic!("unexpected {other:?}"),
    }
    assert!(m.is_connected(DEVICE));
    assert_eq!(m.cancel_loop(DEVICE), Some(7));
}

#[test]
fn quiet_links_are_kept_until_they_are_idle() {
    let mut m = manager();
    let mut l = new_loop();
    assert_eq!(
        l.run_packet_loop(&mut m, LoopEvent::RecvTimedOut),
        LoopAction::Receive
    );
    assert_eq!(idle_check_interval(0), None);
    assert_eq!(idle_check_interval(300), Some(30));
    let info = ConnectionInfo {
        device_id: DEVICE.to_string(),
        generation: 1,
        packets_sent: 0,
        packets_received: 0,
        last_activity: moment(100),
    };
    assert!(!info.is_idle(moment(400), 300));
    assert!(info.is_idle(moment(401), 300));
}
