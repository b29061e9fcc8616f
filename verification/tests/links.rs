use rust_connect::error::Error;
use rust_connect::net::{IpAddr, SocketAddr};
use rust_connect::outside::Moment;
use rust_connect::packet::{Identity, Packet, Value};
use rust_connect::protocol::connection::framing::SteadyLine;
use rust_connect::protocol::connection::inbound::{
    accept_incoming, is_echo, ExchangeFault, IdentityRead, Linked, Remote,
};
use rust_connect::protocol::connection::manager::{ConnectionManager, RecvEvent, SendOutcome};
use rust_connect::protocol::connection::outbound::{
    send_reverse_connection_fallback, DialOutcome, Encrypted, HandshakeOutcome, Target,
    WriteOutcome,
};
use rust_connect::protocol::connection::tls::{
    client_auth_mandatory, client_identity, handshake_failed, load_own_identity,
    verify_client_cert, verify_server_cert,
};
use rust_connect::protocol::connection_loop::LoopResult;
use rust_connect::protocol::crypto::CertificateManager;
use rust_connect::protocol::listener::{
    bind_port_error, Exchange, ExchangeOutcome, InboundSlots, LinkAction, TcpListenerService,
    MAX_INBOUND_CONNECTIONS,
};
use rust_connect::protocol::pem::pem_to_der;

const OUR_ID: &str = "server-self-aaaaaaaaaaaaaaaaaaaa";
const PEER_ID: &str = "peer-device-aaaaaaaaaaaaaaaaaaaaaa";

fn setup() -> ConnectionManager {
    let mut certs = CertificateManager::new("/certs".to_string());
    certs.init().expect("Value expected to be present");
    let mut cm = ConnectionManager::new(certs).expect("Value expected to be present");
    cm.set_device_identity(OUR_ID, "Us");
    cm
}

fn moment(seconds: i64) -> Moment {
    Moment { seconds, nanos: 0 }
}

fn addr(last: u32, port: u16) -> SocketAddr {
    SocketAddr {
        ip: IpAddr::V4(0xC0A8_0100 | last),
        port,
    }
}

fn link(cm: &mut ConnectionManager, id: &str, at: i64) -> u64 {
    cm.accept_test(
        id,
        Ok(None),
        Some(addr(5, 1716)),
        Some(addr(2, 1716)),
        moment(at),
    )
    .expect("Value expected to be present")
}

fn identity(id: &str, version: u32) -> Identity {
    let mut identity = Identity::new(
        id.to_string(),
        "Peer".to_string(),
        "phone".to_string(),
        vec!["kdeconnect.ping".to_string()],
        vec!["kdeconnect.ping".to_string()],
    );
    identity.protocol_version = version;
    identity
}

/// A new certificate for `id`, in DER.
fn certificate(id: &str) -> Vec<u8> {
    let certs = CertificateManager::new("/peer".to_string());
    let (pem, _) = certs
        .generate_certificate(id, "Peer")
        .expect("generate certificate");
    pem_to_der(&pem).expect("decode certificate")
}

/// Lets a peer in that presents `cert`.
fn inbound(
    cm: &mut ConnectionManager,
    who: Identity,
    cert: Option<Vec<u8>>,
) -> Result<(Identity, Linked), Error> {
    let arrival = accept_incoming(
        Some(Remote {
            addr: addr(5, 40000),
            ip_text: "192.168.1.5".to_string(),
        }),
        Some(addr(2, 1716)),
    )?;
    arrival.line_read(IdentityRead::Line(100))?;
    let greeted = arrival.identified(cm, "kdeconnect.identity", Ok(who))?;
    assert!(cm.has_next_generation(greeted.device_id()));
    greeted.secured(cm, cert, moment(10))
}

/// Dials a peer up to the exchange of identities under encryption.
fn dialed(
    cm: &mut ConnectionManager,
    expected: Option<&Identity>,
    cert: Option<Vec<u8>>,
    now_ms: u128,
) -> Encrypted {
    let dialing = cm
        .connect_to_device(
            addr(5, 1716),
            "192.168.1.5:1716".to_string(),
            "192.168.1.5".to_string(),
            expected,
            now_ms * 1_000_000,
        )
        .expect("may dial");
    let reached = dialing.dialed(DialOutcome::Connected).expect("reached");
    let shaking = reached
        .identity_sent(WriteOutcome::Written)
        .expect("identity sent");
    shaking
        .shaken(HandshakeOutcome::Done(cert))
        .expect("handshake")
}

#[test]
fn test_connection_manager_creation() {
    let cm = setup();
    assert!(cm.connected_device_ids().is_empty());
}

#[test]
fn test_send_to_nonexistent_device() {
    let cm = setup();
    let packet = Packet::ping();
    let result = cm.check_send("nonexistent", &packet);
    assert!(result.is_err());
}

#[test]
fn test_recv_from_nonexistent_device() {
    let cm = setup();
    let result = cm.recv_packet("nonexistent");
    assert!(result.is_err());
}

#[test]
fn test_disconnect_nonexistent_device() {
    let mut cm = setup();
    let result = cm.disconnect("nonexistent", 0);
    assert!(result.is_ok());
}

#[test]
fn test_is_connected() {
    let cm = setup();
    assert!(!cm.is_connected("test-device"));
}

#[test]
fn test_get_connection_info_nonexistent() {
    let cm = setup();
    assert!(cm.get_connection_info("nonexistent").is_none());
}

#[test]
fn test_send_timeout_tears_down_the_link() {
    let mut cm = setup();
    let generation = link(&mut cm, PEER_ID, 1);
    let err = cm
        .send_packet(PEER_ID, generation, SendOutcome::WriteTimedOut)
        .unwrap_err();
    assert!(matches!(err, Error::ConnectionTimeout(_)));
    assert!(!cm.is_connected(PEER_ID));
}

#[test]
fn sent_packets_are_counted() {
    let mut cm = setup();
    let generation = link(&mut cm, PEER_ID, 1);
    cm.send_packet(PEER_ID, generation, SendOutcome::Sent)
        .expect("sent");
    let failed = cm.send_packet(
        PEER_ID,
        generation,
        SendOutcome::WriteFailed("broken pipe".to_string()),
    );
    assert!(matches!(failed, Err(Error::ConnectionError(_))));
    let info = cm.get_connection_info(PEER_ID).expect("link");
    assert_eq!(info.packets_sent, 1);
}

#[test]
fn test_connection_records_its_local_address() {
    let mut cm = setup();
    link(&mut cm, PEER_ID, 1);
    assert_eq!(cm.get_local_addr(PEER_ID), Some(addr(2, 1716)));
    assert_eq!(cm.get_peer_addr(PEER_ID), Some(addr(5, 1716)));
}

#[test]
fn test_connect_disconnect_reconnect() {
    let mut cm = setup();
    let first = link(&mut cm, PEER_ID, 1);
    assert!(cm.is_connected(PEER_ID));
    cm.disconnect(PEER_ID, first).expect("disconnect");
    assert!(!cm.is_connected(PEER_ID));
    link(&mut cm, PEER_ID, 2);
    assert!(cm.is_connected(PEER_ID));
}

#[test]
fn test_connected_device_ids() {
    let mut cm = setup();
    for id in [
        "s1aaaaaaaaaaaaaaaaaaaaaaaaaaaaaa",
        "s2aaaaaaaaaaaaaaaaaaaaaaaaaaaaaa",
        "s3aaaaaaaaaaaaaaaaaaaaaaaaaaaaaa",
    ] {
        let generation = cm.bump_generation(id);
        cm.connect(id, generation, None, addr(5, 1716), None, moment(1))
            .expect("Value expected to be present");
    }

    let mut ids = cm.connected_device_ids();
    ids.sort();
    assert_eq!(
        ids,
        vec![
            "s1aaaaaaaaaaaaaaaaaaaaaaaaaaaaaa",
            "s2aaaaaaaaaaaaaaaaaaaaaaaaaaaaaa",
            "s3aaaaaaaaaaaaaaaaaaaaaaaaaaaaaa"
        ]
    );

    let generation = cm
        .get_generation("s2aaaaaaaaaaaaaaaaaaaaaaaaaaaaaa")
        .expect("Value expected to be present");
    cm.disconnect("s2aaaaaaaaaaaaaaaaaaaaaaaaaaaaaa", generation)
        .expect("Value expected to be present");
    let mut ids = cm.connected_device_ids();
    ids.sort();
    assert_eq!(
        ids,
        vec![
            "s1aaaaaaaaaaaaaaaaaaaaaaaaaaaaaa",
            "s3aaaaaaaaaaaaaaaaaaaaaaaaaaaaaa"
        ]
    );
}

#[test]
fn a_dial_gets_its_link_though_its_generation_was_forgotten() {
    let mut cm = setup();
    let generation = cm.bump_generation(PEER_ID);
    assert_eq!(generation, 1);
    let generation = cm.bump_generation(PEER_ID);
    assert_eq!(generation, 2);
    cm.cleanup_stale_generations();
    assert_eq!(
        cm.connect(PEER_ID, generation, None, addr(5, 1716), None, moment(1))
            .expect("link"),
        2
    );
    assert_eq!(cm.get_generation(PEER_ID), Some(2));
    assert_eq!(cm.bump_generation(PEER_ID), 1);
}

#[test]
fn test_get_connection_info_returns_info() {
    let mut cm = setup();
    let generation = link(&mut cm, PEER_ID, 77);
    let info = cm.get_connection_info(PEER_ID).expect("link");
    assert_eq!(info.device_id, PEER_ID);
    assert_eq!(info.generation, generation);
    assert_eq!(info.packets_sent, 0);
    assert_eq!(info.packets_received, 0);
    assert_eq!(info.last_activity.seconds, 77);
}

#[test]
fn test_generation_counter_increments_on_connect() {
    let mut cm = setup();
    let device_id = "serveraaaaaaaaaaaaaaaaaaaaaaaaaa";
    link(&mut cm, device_id, 1);
    let gen1 = cm
        .get_generation(device_id)
        .expect("Value expected to be present");
    assert_eq!(gen1, 1);
    cm.disconnect(device_id, gen1)
        .expect("Value expected to be present");
    link(&mut cm, device_id, 2);
    let gen2 = cm
        .get_generation(device_id)
        .expect("Value expected to be present");
    assert!(
        gen2 > gen1,
        "Generation should increment on reconnect, got gen1={} gen2={}",
        gen1,
        gen2
    );
}

#[test]
fn test_stale_disconnect_does_not_remove_current_connection() {
    let mut cm = setup();
    let gen1 = link(&mut cm, PEER_ID, 1);
    let gen2 = link(&mut cm, PEER_ID, 2);
    assert!(
        gen2 > gen1,
        "Generation should increment, got gen1={} gen2={}",
        gen1,
        gen2
    );

    let stale_result = cm.disconnect(PEER_ID, gen1);
    assert!(stale_result.is_ok());
    assert!(
        cm.is_connected(PEER_ID),
        "Stale disconnect should not remove current connection"
    );

    cm.disconnect(PEER_ID, gen2)
        .expect("Value expected to be present");
    assert!(!cm.is_connected(PEER_ID));
}

#[test]
fn test_send_packet_after_disconnect_fails() {
    let mut cm = setup();
    let generation = link(&mut cm, PEER_ID, 1);
    cm.disconnect(PEER_ID, generation)
        .expect("Value expected to be present");
    let result = cm.check_send(PEER_ID, &Packet::ping());
    assert!(result.is_err(), "Should fail to send after disconnect");
}

#[test]
fn test_recv_packet_timeout() {
    let mut cm = setup();
    let generation = link(&mut cm, PEER_ID, 1);
    let result = cm.recv_packet_inner(PEER_ID, generation, RecvEvent::TimedOut, &Vec::new());
    assert!(
        matches!(result, Err(Error::ConnectionTimeout(_))),
        "Should timeout when no packets are sent"
    );
    assert!(cm.is_connected(PEER_ID));
}

#[test]
fn test_blank_lines_are_skipped() {
    let mut cm = setup();
    let generation = link(&mut cm, PEER_ID, 1);
    for blank in [&b"\n"[..], &b"\r\n"[..], &b"   \n"[..]] {
        let line = blank.to_vec();
        let event = RecvEvent::Read(SteadyLine::Line(line.len()));
        assert!(!cm
            .recv_packet_inner(PEER_ID, generation, event, &line)
            .expect("blank lines must be skipped, not kill the link"));
    }
    let skipped = RecvEvent::Read(SteadyLine::OversizeSkipped);
    assert!(!cm
        .recv_packet_inner(PEER_ID, generation, skipped, &Vec::new())
        .expect("an oversize line must be skipped, not kill the link"));
    let line = b"{}\n".to_vec();
    assert!(cm
        .recv_packet_inner(
            PEER_ID,
            generation,
            RecvEvent::Read(SteadyLine::Line(3)),
            &line
        )
        .expect("a packet"));
    assert_eq!(
        cm.get_connection_info(PEER_ID)
            .expect("link")
            .packets_received,
        1
    );
    let closed = RecvEvent::Read(SteadyLine::Eof);
    assert!(cm
        .recv_packet_inner(PEER_ID, generation, closed, &Vec::new())
        .is_err());
}

#[test]
fn test_certificate_cn_mismatch_rejects_connection() {
    let mut cm = setup();
    let impostor = certificate("impostor-device-aaaaaaaaaaaaaaaaaaaa");
    let err = inbound(&mut cm, identity(PEER_ID, 8), Some(impostor)).unwrap_err();
    assert!(matches!(err, Error::CertificateError(_)), "{err:?}");
    assert!(!cm.is_connected(PEER_ID));
}

#[test]
fn test_certificate_cn_mismatch_rejects_outbound_connection() {
    let mut cm = setup();
    let impostor = certificate("impostor-device-aaaaaaaaaaaaaaaaaaaa");
    let encrypted = dialed(&mut cm, None, Some(impostor), 0);
    let err = encrypted
        .identified(
            &mut cm,
            "kdeconnect.identity",
            Ok(identity(PEER_ID, 8)),
            None,
            moment(1),
        )
        .unwrap_err();
    assert!(matches!(err, Error::CertificateError(_)), "{err:?}");
    assert!(!cm.is_connected(PEER_ID));
}

#[test]
fn test_outbound_rejects_device_id_change_vs_broadcast_identity() {
    let mut cm = setup();
    let broadcast = identity(PEER_ID, 8);
    let other = "impostor-device-aaaaaaaaaaaaaaaaaaaa";
    let encrypted = dialed(&mut cm, Some(&broadcast), None, 0);
    let err = encrypted
        .identified(
            &mut cm,
            "kdeconnect.identity",
            Ok(identity(other, 8)),
            None,
            moment(1),
        )
        .expect_err(
            "an encrypted deviceId that differs from the broadcast identity must be rejected",
        );
    assert!(
        err.message().contains("does not match pre-TLS identity"),
        "unexpected error: {err:?}"
    );
    assert!(
        !cm.is_connected(other),
        "rejected connection must not be registered"
    );
}

#[test]
fn test_outbound_rejects_protocol_version_change_vs_broadcast_identity() {
    let mut cm = setup();
    let broadcast = identity(PEER_ID, 8);
    let encrypted = dialed(&mut cm, Some(&broadcast), None, 0);
    let err = encrypted
        .identified(
            &mut cm,
            "kdeconnect.identity",
            Ok(identity(PEER_ID, 7)),
            None,
            moment(1),
        )
        .expect_err("a mid-handshake protocolVersion change must be rejected");
    assert!(
        err.message().contains("mid-handshake"),
        "unexpected error: {err:?}"
    );
    assert!(
        !cm.is_connected(PEER_ID),
        "rejected connection must not be registered"
    );
}

#[test]
fn a_dialed_peer_gets_a_link() {
    let mut cm = setup();
    let broadcast = identity(PEER_ID, 8);
    let encrypted = dialed(&mut cm, Some(&broadcast), Some(certificate(PEER_ID)), 0);
    encrypted
        .identity_sent(WriteOutcome::Written)
        .expect("identity sent");
    encrypted
        .line_read(IdentityRead::Line(100))
        .expect("identity read");
    let (who, linked) = encrypted
        .identified(
            &mut cm,
            "kdeconnect.identity",
            Ok(identity(PEER_ID, 8)),
            Some(addr(2, 50000)),
            moment(1),
        )
        .expect("link");
    assert_eq!(who.device_id, PEER_ID);
    assert!(!linked.evicted);
    assert!(cm.is_current_generation(PEER_ID, linked.generation));
    assert_eq!(cm.get_local_addr(PEER_ID), Some(addr(2, 50000)));
}

#[test]
fn test_accept_incoming_rejects_own_device_id() {
    let mut cm = setup();
    let err = inbound(&mut cm, identity(OUR_ID, 8), None)
        .expect_err("a peer claiming our own device id must be rejected");
    assert!(
        err.message()
            .contains("Rejecting incoming connection from self"),
        "unexpected error: {err:?}"
    );
    assert!(
        !cm.is_connected(OUR_ID),
        "a rejected self-connection must not be registered"
    );
}

#[test]
fn test_accept_incoming_rejects_target_device_id_not_us() {
    let mut cm = setup();
    let mut who = identity(PEER_ID, 8);
    who.target_device_id = Some("some-other-device-aaaaaaaaaaaaaaaa".to_string());
    let err = inbound(&mut cm, who, None)
        .expect_err("a connection request addressed to another device must be rejected");
    assert!(
        err.message().contains("isn't us"),
        "unexpected error: {err:?}"
    );
    assert!(!cm.is_connected(PEER_ID));
}

#[test]
fn test_accept_incoming_accepts_kde_normalized_target_device_id() {
    let mut cm = setup();
    let kde_echoed = OUR_ID.replace('-', "_");
    assert_ne!(kde_echoed, OUR_ID, "test requires a dashed own id");
    assert!(is_echo(&kde_echoed, OUR_ID));
    let mut who = identity(PEER_ID, 8);
    who.target_device_id = Some(kde_echoed);
    inbound(&mut cm, who, None).expect("kde-normalized targetDeviceId must not be rejected");
}

#[test]
fn test_accept_incoming_rejects_target_protocol_version_not_ours() {
    let mut cm = setup();
    let mut who = identity(PEER_ID, 8);
    who.target_protocol_version = Some(7);
    let err = inbound(&mut cm, who, None)
        .expect_err("a connection request for another protocol version must be rejected");
    assert!(
        err.message().contains("isn't ours"),
        "unexpected error: {err:?}"
    );
    assert!(!cm.is_connected(PEER_ID));
}

#[test]
fn connections_from_afar_are_not_let_in() {
    let afar = accept_incoming(
        Some(Remote {
            addr: SocketAddr {
                ip: IpAddr::V4(0x0808_0808),
                port: 1,
            },
            ip_text: "8.8.8.8".to_string(),
        }),
        None,
    );
    assert!(matches!(afar, Err(Error::ConnectionError(_))));
    let near = accept_incoming(None, None).expect("let in");
    assert!(matches!(
        near.line_read(IdentityRead::TooLarge { size: 9, max: 8 }),
        Err(Error::PacketTooLarge { size: 9, max: 8 })
    ));
    assert!(matches!(
        near.line_read(IdentityRead::TimedOut),
        Err(Error::ConnectionTimeout(_))
    ));
    assert!(near.line_read(IdentityRead::Line(0)).is_err());
    assert!(near
        .line_read(IdentityRead::Failed("reset".to_string()))
        .is_err());
    let other = near.identified(&setup(), "kdeconnect.ping", Ok(identity(PEER_ID, 8)));
    assert!(matches!(other, Err(Error::InvalidPacket(_))));
}

#[test]
fn test_inbound_same_cert_duplicate_replaces_when_healthy() {
    let mut cm = setup();
    let cert = certificate(PEER_ID);
    let (_, first) =
        inbound(&mut cm, identity(PEER_ID, 8), Some(cert.clone())).expect("first accept");
    cm.register_cancel_token(PEER_ID, 42);
    let (_, second) = inbound(&mut cm, identity(PEER_ID, 8), Some(cert))
        .expect("same-cert replacement must be accepted");
    assert!(second.evicted);
    assert_eq!(second.cancel, Some(42));
    assert!(cm.is_current_generation(PEER_ID, second.generation));
    assert!(!cm.is_current_generation(PEER_ID, first.generation));
    assert_eq!(cm.cancel_loop(PEER_ID), None);
}

#[test]
fn test_inbound_different_cert_replacement_rejected() {
    let mut cm = setup();
    let (_, first) = inbound(&mut cm, identity(PEER_ID, 8), Some(certificate(PEER_ID)))
        .expect("first accept must succeed");
    let err = inbound(&mut cm, identity(PEER_ID, 8), Some(certificate(PEER_ID)))
        .expect_err("a different certificate must not replace the link");
    assert!(
        err.message().contains("different certificate"),
        "unexpected error: {err:?}"
    );
    assert!(cm.is_current_generation(PEER_ID, first.generation));
    assert_eq!(
        cm.recv_packet_current(PEER_ID, first.generation)
            .expect("the untouched link must still be readable"),
        first.generation
    );
}

#[test]
fn test_stale_generation_recv_cannot_read_replacement_stream() {
    let mut cm = setup();
    let gen1 = link(&mut cm, PEER_ID, 1);
    let gen2 = link(&mut cm, PEER_ID, 2);
    assert!(cm.is_current_generation(PEER_ID, gen2));
    assert!(!cm.is_current_generation(PEER_ID, gen1));

    let err = cm
        .recv_packet_current(PEER_ID, gen1)
        .expect_err("a stale generation must not read the replacement's stream");
    assert!(
        err.message().contains("Stale generation"),
        "unexpected error: {err:?}"
    );
    assert_eq!(
        cm.recv_packet_current(PEER_ID, gen2)
            .expect("the live generation must read the replacement's stream"),
        gen2
    );
}

#[test]
fn test_stale_loop_cannot_remove_replacement_cancel_token() {
    let mut cm = setup();
    let gen1 = link(&mut cm, PEER_ID, 1);
    let gen2 = link(&mut cm, PEER_ID, 2);

    cm.register_cancel_token(PEER_ID, 1);
    assert!(
        !cm.remove_cancel_token_if_current(PEER_ID, gen1),
        "stale generation must report not-current and remove nothing"
    );
    assert_eq!(
        cm.cancel_loop(PEER_ID),
        Some(1),
        "the replacement's token must still be registered and cancellable"
    );

    cm.register_cancel_token(PEER_ID, 2);
    assert!(
        cm.remove_cancel_token_if_current(PEER_ID, gen2),
        "current generation must report current"
    );
    assert_eq!(
        cm.cancel_loop(PEER_ID),
        None,
        "a removed token must be gone from the map"
    );
}

#[test]
fn test_disconnect_reports_whether_generation_owns_link() {
    let mut cm = setup();
    let gen1 = link(&mut cm, PEER_ID, 1);
    let gen2 = link(&mut cm, PEER_ID, 2);

    let owned = cm
        .disconnect(PEER_ID, gen1)
        .expect("Value expected to be present");
    assert!(!owned, "stale generation must not own the link");
    assert!(cm.is_connected(PEER_ID));

    let owned = cm
        .disconnect(PEER_ID, gen2)
        .expect("Value expected to be present");
    assert!(owned, "current generation must own the link");
    assert!(!cm.is_connected(PEER_ID));

    let owned = cm
        .disconnect(PEER_ID, gen2)
        .expect("Value expected to be present");
    assert!(owned, "an empty slot has no newer owner");
}

#[test]
fn test_stale_generation_cannot_register_cancel_token() {
    let mut cm = setup();
    let gen1 = link(&mut cm, PEER_ID, 1);
    let gen2 = link(&mut cm, PEER_ID, 2);

    assert!(
        !cm.register_cancel_token_if_current(PEER_ID, 1, gen1),
        "stale generation must not register"
    );
    assert_eq!(
        cm.cancel_loop(PEER_ID),
        None,
        "a refused registration must not be in the token map"
    );
    assert!(
        cm.register_cancel_token_if_current(PEER_ID, 2, gen2),
        "current generation must register"
    );
    assert_eq!(cm.cancel_loop(PEER_ID), Some(2));
}

fn ping_only() -> Vec<String> {
    vec!["kdeconnect.ping".to_string()]
}

fn mousepad() -> Packet {
    Packet::new("kdeconnect.mousepad.request".to_string(), Vec::new())
}

#[test]
fn test_send_packet_refuses_unsupported_capability() {
    let mut cm = setup();
    link(&mut cm, PEER_ID, 1);
    cm.record_peer_capabilities(PEER_ID, &ping_only(), &ping_only());
    let err = cm
        .check_send(PEER_ID, &mousepad())
        .expect_err("a type the peer never advertised must be refused");
    match err {
        Error::CapabilityNotSupported {
            device_id,
            packet_type,
        } => {
            assert_eq!(device_id, PEER_ID);
            assert_eq!(packet_type, "kdeconnect.mousepad.request");
        }
        other => panic!("expected CapabilityNotSupported, got: {other:?}"),
    }
}

#[test]
fn test_send_packet_allows_advertised_capability() {
    let mut cm = setup();
    let generation = link(&mut cm, PEER_ID, 1);
    cm.record_peer_capabilities(PEER_ID, &ping_only(), &ping_only());
    assert_eq!(
        cm.check_send(PEER_ID, &Packet::ping())
            .expect("an advertised type must send"),
        generation
    );
}

#[test]
fn test_send_packet_exempts_identity_and_pair() {
    let mut cm = setup();
    link(&mut cm, PEER_ID, 1);
    cm.record_peer_capabilities(PEER_ID, &ping_only(), &ping_only());
    let ours = Identity::new(
        "us-aaaaaaaaaaaaaaaaaaaaaaaaaaaaaaaaaa".to_string(),
        "Us".to_string(),
        "desktop".to_string(),
        vec![],
        vec![],
    );
    let port = ours.tcp_port.expect("an identity carries a port");
    let identity_packet = Packet::new(
        "kdeconnect.identity".to_string(),
        vec![
            ("deviceId".to_string(), Value::Text(ours.device_id)),
            ("deviceName".to_string(), Value::Text(ours.device_name)),
            ("deviceType".to_string(), Value::Text(ours.device_type)),
            (
                "protocolVersion".to_string(),
                Value::Int(i64::from(ours.protocol_version)),
            ),
            ("incomingCapabilities".to_string(), Value::List(vec![])),
            ("outgoingCapabilities".to_string(), Value::List(vec![])),
            ("tcpPort".to_string(), Value::Int(i64::from(port))),
        ],
    );
    cm.check_send(PEER_ID, &identity_packet)
        .expect("kdeconnect.identity must be exempt from gating");
    let pair_request = Packet::with_fields(
        "kdeconnect.pair",
        "pair",
        Value::Bool(true),
        "timestamp",
        Value::Int(1_700_000_000),
    );
    cm.check_send(PEER_ID, &pair_request)
        .expect("kdeconnect.pair must be exempt from gating");
    assert!(identity_packet.is_identity());
    assert!(pair_request.is_pair());
}

#[test]
fn test_send_packet_allows_when_peer_capabilities_unknown() {
    let mut cm = setup();
    link(&mut cm, PEER_ID, 1);
    cm.check_send(PEER_ID, &mousepad())
        .expect("a device with no known capabilities must not be gated");
}

#[test]
fn test_capability_update_re_allows_previously_refused_type() {
    let mut cm = setup();
    link(&mut cm, PEER_ID, 1);
    cm.record_peer_capabilities(PEER_ID, &ping_only(), &ping_only());
    cm.check_send(PEER_ID, &mousepad())
        .expect_err("must be refused before the capability update");
    let more = vec![
        "kdeconnect.ping".to_string(),
        "kdeconnect.mousepad.request".to_string(),
    ];
    cm.record_peer_capabilities(PEER_ID, &more, &ping_only());
    cm.check_send(PEER_ID, &mousepad())
        .expect("must be allowed after the capability update");
}

#[test]
fn test_record_peer_capabilities_empty_update_does_not_erase_known_caps() {
    let mut cm = setup();
    link(&mut cm, PEER_ID, 1);
    cm.record_peer_capabilities(PEER_ID, &ping_only(), &ping_only());
    cm.record_peer_capabilities(PEER_ID, &Vec::new(), &Vec::new());
    cm.check_send(PEER_ID, &Packet::ping())
        .expect("previously-known capabilities must survive an empty update");
    assert!(cm.check_send(PEER_ID, &mousepad()).is_err());
}

#[test]
fn test_capability_gating_wired_from_real_identity_exchange() {
    let mut cm = setup();
    let encrypted = dialed(&mut cm, None, Some(certificate(PEER_ID)), 0);
    encrypted
        .identified(
            &mut cm,
            "kdeconnect.identity",
            Ok(identity(PEER_ID, 8)),
            None,
            moment(1),
        )
        .expect("link");
    assert!(cm.check_send(PEER_ID, &Packet::ping()).is_ok());
    assert!(cm.check_send(PEER_ID, &mousepad()).is_err());
}

#[test]
fn test_reverse_fallback_reaches_an_ipv6_peer() {
    let v6 = IpAddr::V6(1);
    let fallback = send_reverse_connection_fallback(v6, 1716);
    assert_eq!(fallback.bind.ip, IpAddr::V6(0));
    assert_eq!(
        fallback.target,
        SocketAddr { ip: v6, port: 1716 }
    );
    let v4 = send_reverse_connection_fallback(IpAddr::V4(0x7F00_0001), 9);
    assert_eq!(v4.bind.ip, IpAddr::V4(0));
    assert_eq!(v4.bind.port, 0);
}

#[test]
fn test_connect_to_device_dial_failure_sends_reverse_fallback_once() {
    let mut cm = setup();
    let target = Target::new(
        addr(5, 1716),
        "192.168.1.5:1716".to_string(),
        "192.168.1.5".to_string(),
        None,
        4242,
    );
    let dialing = cm
        .connect_to_device_with_fallback_port(target, 0)
        .expect("may dial");
    let failure = dialing
        .dialed(DialOutcome::Failed("refused".to_string()))
        .expect_err("a failed dial");
    assert!(matches!(failure.error, Error::ConnectionError(_)));
    assert_eq!(
        failure.fallback.target,
        SocketAddr {
            ip: addr(5, 0).ip,
            port: 4242
        }
    );
}

#[test]
fn test_connect_to_device_write_failure_triggers_the_write_failure_branch() {
    let mut cm = setup();
    let dialing = cm
        .connect_to_device(
            addr(5, 1716),
            "192.168.1.5:1716".to_string(),
            "192.168.1.5".to_string(),
            None,
            0,
        )
        .expect("may dial");
    let reached = dialing.dialed(DialOutcome::Connected).expect("reached");
    let failure = reached
        .identity_sent(WriteOutcome::WriteFailed("reset".to_string()))
        .expect_err("a failed write");
    assert!(failure
        .error
        .message()
        .contains("Failed to send plaintext identity"));
    assert_eq!(failure.fallback.target.port, 1716);
}

#[test]
fn dials_to_one_address_keep_their_distance() {
    let mut cm = setup();
    dialed(&mut cm, None, None, 10_000);
    let again = cm.connect_to_device(
        addr(5, 1716),
        "192.168.1.5:1716".to_string(),
        "192.168.1.5".to_string(),
        None,
        10_400_000_000,
    );
    match again {
        Err(Error::ConnectionError(message)) => assert!(message.contains("Rate limited")),
        other => panic!("expected a refusal, got {other:?}"),
    }
    dialed(&mut cm, None, None, 60_000);
}

#[test]
fn the_distance_of_dials_counts_fractions_of_a_millisecond() {
    let mut cm = setup();
    cm.note_attempt("192.168.1.5", 900_000).expect("may dial");
    assert!(cm.note_attempt("192.168.1.5", 1_000_500_000).is_err());
    assert!(cm.note_attempt("192.168.1.5", 1_000_899_999).is_err());
    cm.note_attempt("192.168.1.5", 1_000_900_000)
        .expect("may dial again");
}

#[test]
fn a_failed_handshake_is_reported() {
    let mut cm = setup();
    let dialing = cm
        .connect_to_device(
            addr(5, 1716),
            "192.168.1.5:1716".to_string(),
            "192.168.1.5".to_string(),
            None,
            0,
        )
        .expect("may dial");
    let late = dialing.dialed(DialOutcome::TimedOut).expect_err("timeout");
    assert!(matches!(late.error, Error::ConnectionTimeout(_)));
    match handshake_failed("TLS handshake", PEER_ID, Some("bad certificate".to_string())) {
        Error::TlsError(message) => assert!(message.ends_with(": bad certificate")),
        other => panic!("expected TlsError, got {other:?}"),
    }
    assert!(matches!(
        handshake_failed("TLS handshake", PEER_ID, None),
        Error::ConnectionTimeout(_)
    ));
}

#[test]
fn pinned_peers_are_held_to_their_certificate() {
    let mut cm = setup();
    let cert = certificate(PEER_ID);
    let other = certificate(PEER_ID);
    cm.certificates_mut()
        .store_peer_certificate(PEER_ID, &cert)
        .expect("pin");
    assert!(verify_server_cert(cm.certificates(), PEER_ID, &cert).is_ok());
    assert!(verify_server_cert(cm.certificates(), PEER_ID, &other).is_err());
    assert!(verify_client_cert(cm.certificates(), Some(PEER_ID), &other).is_err());
    assert!(verify_client_cert(cm.certificates(), None, &other).is_ok());
    assert!(client_auth_mandatory(cm.certificates(), Some(PEER_ID)));
    assert!(!client_auth_mandatory(cm.certificates(), None));
    assert!(inbound(&mut cm, identity(PEER_ID, 8), None).is_err());
    assert!(inbound(&mut cm, identity(PEER_ID, 8), Some(other)).is_err());
    assert!(inbound(&mut cm, identity(PEER_ID, 8), Some(cert)).is_ok());
}

#[test]
fn our_own_certificate_is_presented() {
    let mut cm = setup();
    assert!(client_identity(cm.certificates()).expect("none").is_none());
    assert!(load_own_identity(cm.certificates()).is_err());
    cm.ensure_own_identity("Us").expect("own certificate");
    let own = load_own_identity(cm.certificates()).expect("own identity");
    let (pem, _) = cm
        .certificates()
        .load_own_certificate()
        .expect("own certificate");
    assert_eq!(own.certs, vec![pem_to_der(&pem).expect("decode")]);
    assert!(!own.key.der.is_empty());
    assert!(client_identity(cm.certificates()).expect("own").is_some());
}

#[test]
fn unchecked_exchanges_end_in_a_link_or_an_error() {
    let mut cm = setup();
    let err = cm
        .accept_test_with_port(
            PEER_ID,
            Err(ExchangeFault::Closed),
            None,
            None,
            moment(1),
        )
        .unwrap_err();
    assert!(err.message().contains("Connection closed"));
    let generation = cm
        .accept_test_as_client(PEER_ID, Ok(Some(vec![1, 2, 3])), None, None, moment(1))
        .expect("link");
    assert!(cm.is_current_generation(PEER_ID, generation));
    assert_eq!(cm.get_peer_certificate(PEER_ID), Some(vec![1, 2, 3]));
    let ours = cm.identity_for(PEER_ID, 1739);
    assert_eq!(ours.tcp_port, Some(1739));
    assert_eq!(ours.target_device_id.as_deref(), Some(PEER_ID));
    assert_eq!(ours.target_protocol_version, Some(8));
}

#[test]
fn unnamed_links_are_still_held_to_the_pinned_certificate() {
    let mut cm = setup();
    let cert = certificate(PEER_ID);
    let generation = cm
        .accept_as_client(PEER_ID, Some(cert.clone()), Some(addr(5, 40000)), None, moment(1))
        .expect("link");
    assert_eq!(generation, 1);
    assert_eq!(cm.get_peer_addr(PEER_ID), Some(addr(5, 40000)));

    cm.certificates_mut()
        .store_peer_certificate(PEER_ID, &cert)
        .expect("pin");
    assert!(matches!(
        cm.accept_as_client(PEER_ID, Some(certificate(PEER_ID)), None, None, moment(2)),
        Err(Error::CertificateError(_))
    ));
    assert!(matches!(
        cm.accept_as_client(PEER_ID, None, None, None, moment(2)),
        Err(Error::CertificateError(_))
    ));
    assert_eq!(cm.get_generation(PEER_ID), Some(1));
    assert_eq!(
        cm.accept_as_client(PEER_ID, Some(cert), None, None, moment(2))
            .expect("link"),
        2
    );
}

#[test]
fn only_the_live_link_is_marked_as_used() {
    let mut cm = setup();
    let old = link(&mut cm, PEER_ID, 1);
    let new = link(&mut cm, PEER_ID, 2);
    cm.mark_activity(PEER_ID, old, moment(50));
    let info = cm.get_connection_info(PEER_ID).expect("info");
    assert_eq!(info.last_activity.seconds, 2);
    cm.mark_activity(PEER_ID, new, moment(60));
    let info = cm.get_connection_info(PEER_ID).expect("info");
    assert_eq!(info.last_activity.seconds, 60);
}

#[test]
fn tokens_go_with_their_links() {
    let mut cm = setup();
    let generation = link(&mut cm, PEER_ID, 1);
    assert_eq!(cm.cancel_token_count(), 0);
    assert!(cm.register_cancel_token_if_current(PEER_ID, 7, generation));
    cm.register_cancel_token("another-device-aaaaaaaaaaaaaaaaaaaa", 8);
    assert_eq!(cm.cancel_token_count(), 2);
    assert!(cm.disconnect(PEER_ID, generation).expect("disconnect"));
    assert_eq!(cm.cancel_token_count(), 1);
    assert_eq!(cm.cancel_loop(PEER_ID), None);
}

#[test]
fn an_identity_that_could_not_be_sent_is_reported() {
    let cause = Error::ConnectionError("Connection closed by peer".to_string());
    match TcpListenerService::identity_send_failed(&cause) {
        Error::ConnectionError(message) => assert_eq!(
            message,
            format!("Failed to send encrypted identity: {}", cause.message())
        ),
        other => panic!("expected ConnectionError, got {other:?}"),
    }
}

#[test]
fn pending_connections_are_noted_once() {
    let mut cm = setup();
    assert!(cm.add_pending_connection(PEER_ID));
    assert!(!cm.add_pending_connection(PEER_ID));
    cm.remove_pending_connection(PEER_ID);
    assert!(cm.add_pending_connection(PEER_ID));
}

#[test]
fn who_we_are_is_what_was_set() {
    let mut cm = setup();
    cm.set_capabilities(ping_only(), vec![]);
    cm.set_tcp_port(1740);
    let ours = cm.get_identity().expect("identity");
    assert_eq!(ours.device_id, OUR_ID);
    assert_eq!(ours.device_name, "Us");
    assert_eq!(ours.incoming_capabilities, ping_only());
    assert_eq!(ours.tcp_port, Some(1740));
}

#[test]
fn test_inbound_slot_cap_rejects_overflow_and_recovers() {
    let mut slots = InboundSlots::new();
    for _ in 0..MAX_INBOUND_CONNECTIONS {
        assert!(
            slots.try_acquire_inbound_slot(),
            "a slot below the cap must be available"
        );
    }
    assert!(
        !slots.try_acquire_inbound_slot(),
        "the cap must reject the next inbound connection"
    );
    slots.release();
    assert!(
        slots.try_acquire_inbound_slot(),
        "a freed slot must be reusable"
    );
}

#[test]
fn a_taken_port_is_an_error() {
    let message = bind_port_error(1716, "Address already in use");
    assert!(message.contains("1716"));
    assert!(message.contains("another rust-connect instance"));
}

fn received(packet_type: &str, who: Identity) -> Exchange {
    Exchange::Received {
        packet_type: packet_type.to_string(),
        parsed: Ok(who),
    }
}

#[test]
fn test_exchange_rejects_non_identity_packet() {
    let err = TcpListenerService::identity_exchange(
        PEER_ID,
        8,
        received("kdeconnect.ping", identity(PEER_ID, 8)),
    )
    .expect_err("non-identity packet must fail the exchange");
    assert!(
        err.message().contains("Expected encrypted identity"),
        "{err:?}"
    );
}

#[test]
fn test_exchange_rejects_device_id_mismatch() {
    let err = TcpListenerService::identity_exchange(
        PEER_ID,
        8,
        received(
            "kdeconnect.identity",
            identity("listener-impostor-device-aaaaaaaaaa", 8),
        ),
    )
    .expect_err("deviceId mismatch must fail the exchange");
    assert!(err.message().contains("does not match"), "{err:?}");
}

#[test]
fn test_exchange_rejects_protocol_version_change() {
    let err = TcpListenerService::identity_exchange(
        PEER_ID,
        8,
        received("kdeconnect.identity", identity(PEER_ID, 7)),
    )
    .expect_err("protocolVersion change must fail the exchange");
    assert!(err.message().contains("mid-handshake"), "{err:?}");
}

#[test]
fn an_exchange_that_agrees_succeeds() {
    TcpListenerService::identity_exchange(
        PEER_ID,
        8,
        received("kdeconnect.identity", identity(PEER_ID, 8)),
    )
    .expect("valid exchange must succeed");
    let unread = Exchange::Unread(Error::ConnectionError("reset".to_string()));
    let err = TcpListenerService::identity_exchange(PEER_ID, 8, unread).unwrap_err();
    assert_eq!(
        err.message(),
        "Failed to read encrypted identity: reset"
    );
}

#[test]
fn test_owned_exchange_failure_tears_down_lifecycle() {
    let mut cm = setup();
    link(&mut cm, PEER_ID, 1);
    let gen2 = link(&mut cm, PEER_ID, 2);
    let action = TcpListenerService::handle_connection(
        &mut cm,
        PEER_ID,
        gen2,
        ExchangeOutcome::Failed,
        1,
        false,
    );
    assert_eq!(
        action,
        LinkAction::Abort { owned: true },
        "the owning generation's exchange failure must mark the device Disconnected"
    );
    assert!(!cm.is_connected(PEER_ID));
}

#[test]
fn test_stale_exchange_failure_leaves_replacement_lifecycle_untouched() {
    let mut cm = setup();
    link(&mut cm, PEER_ID, 1);
    let gen2 = link(&mut cm, PEER_ID, 2);
    let gen3 = link(&mut cm, PEER_ID, 3);
    let driven = TcpListenerService::handle_connection(
        &mut cm,
        PEER_ID,
        gen3,
        ExchangeOutcome::Done,
        33,
        true,
    );
    assert_eq!(driven, LinkAction::Drive { init_plugins: true });
    let action = TcpListenerService::handle_connection(
        &mut cm,
        PEER_ID,
        gen2,
        ExchangeOutcome::TimedOut,
        22,
        true,
    );
    assert_eq!(action, LinkAction::Abort { owned: false });
    assert!(cm.is_current_generation(PEER_ID, gen3));
    assert_eq!(cm.cancel_loop(PEER_ID), Some(33));
    let late = TcpListenerService::handle_connection(
        &mut cm,
        PEER_ID,
        gen2,
        ExchangeOutcome::Done,
        22,
        true,
    );
    assert_eq!(late, LinkAction::LeaveToReplacement);
    assert_eq!(cm.cancel_loop(PEER_ID), Some(33));
}

#[test]
fn discovery_brings_paired_devices_back() {
    let mut cm = setup();
    let generation = link(&mut cm, PEER_ID, 1);
    assert!(TcpListenerService::loop_ended(
        &mut cm,
        PEER_ID,
        generation,
        LoopResult::Disconnected,
        true,
        false
    ));
    assert!(!cm.is_connected(PEER_ID));
    assert!(!TcpListenerService::loop_ended(
        &mut cm,
        PEER_ID,
        generation,
        LoopResult::Shutdown,
        true,
        true
    ));
}
