use rust_connect::error::Error;
use rust_connect::net::{is_private_address, IpAddr, SocketAddr};
use rust_connect::packet::Identity;
use rust_connect::protocol::discovery::{
    is_message_too_large, BroadcastOutcome, BroadcastStep, DiscoveryService, RECV_BUFFER_SIZE,
};
use rust_connect::protocol::mdns_discovery::{
    build_service_info, describe_service, resolve_skip_reason, resolved_to_peer,
    sends_are_countable, service_plan, storm_verdict, usable_peer_address, MdnsDiscoveryService, Sample, Sampler, ServiceView,
    SERVICE_TYPE,
};
use rust_connect::table::Table;

fn v4(a: u32, b: u32, c: u32, d: u32) -> IpAddr {
    IpAddr::V4((a << 24) | (b << 16) | (c << 8) | d)
}

/// An IPv6 address from its first two groups and its last one.
fn v6(first: u128, second: u128, last: u128) -> IpAddr {
    IpAddr::V6((first << 112) | (second << 96) | last)
}

const ULA: IpAddr = IpAddr::V6(0xFD12_3456_0000_0000_0000_0000_0000_0010);
const MAPPED: IpAddr = IpAddr::V6(0x0000_0000_0000_0000_0000_FFFF_C0A8_0105);

#[test]
fn test_is_private_address_matches_android_rules() {
    for allowed in [
        v4(127, 0, 0, 1),
        v4(10, 0, 0, 5),
        v4(172, 16, 0, 1),
        v4(172, 31, 255, 255),
        v4(192, 168, 1, 1),
        v4(169, 254, 1, 1),
        v4(100, 64, 0, 1),
        v4(100, 127, 255, 254),
        v6(0, 0, 1),
        v6(0xFE80, 0, 1),
        v6(0xFC00, 0, 1),
        v6(0xFD12, 0x3456, 1),
    ] {
        assert!(
            is_private_address(&allowed),
            "{allowed:?} must be allowed"
        );
    }
    for refused in [
        v4(8, 8, 8, 8),
        v4(172, 32, 0, 1),
        v4(100, 128, 0, 1),
        v4(11, 0, 0, 1),
        IpAddr::V6(0x2001_4860_4860_0000_0000_0000_0000_8888),
        v6(0xFE40, 0, 1),
    ] {
        assert!(
            !is_private_address(&refused),
            "{refused:?} must be refused"
        );
    }
}

fn create_test_identity(name: &str) -> Identity {
    Identity::new(
        "test-device-idaaaaaaaaaaaaaaaaaa".to_string(),
        name.to_string(),
        "desktop".to_string(),
        vec!["kdeconnect.ping".to_string()],
        vec!["kdeconnect.ping".to_string()],
    )
}

fn create_test_service(name: &str) -> DiscoveryService {
    DiscoveryService::new(create_test_identity(name), 1716)
}

fn other_identity(name: &str) -> Identity {
    let mut identity = create_test_identity(name);
    identity.device_id = "other-device-idaaaaaaaaaaaaaaaaa".to_string();
    identity
}

#[test]
fn test_discovery_service_creation() {
    let service = create_test_service("Test Device");
    assert_eq!(
        service.broadcast_addr,
        SocketAddr {
            ip: v4(255, 255, 255, 255),
            port: 1716
        }
    );
}

#[test]
fn test_recv_buffer_size_matches_android_target() {
    assert_eq!(RECV_BUFFER_SIZE, 512 * 1024);
}

#[test]
fn test_broadcast() {
    let service = create_test_service("Test Device");
    assert!(matches!(
        service.broadcast(BroadcastOutcome::Sent),
        BroadcastStep::Done
    ));
}

#[test]
fn test_is_message_too_large_matches_linux_and_macos_emsgsize() {
    assert!(is_message_too_large(
        std::io::Error::from_raw_os_error(90).raw_os_error()
    ));
    assert!(is_message_too_large(
        std::io::Error::from_raw_os_error(40).raw_os_error()
    ));
}

#[test]
fn test_is_message_too_large_rejects_other_errors() {
    assert!(!is_message_too_large(
        std::io::Error::from_raw_os_error(13).raw_os_error()
    ));
    assert!(!is_message_too_large(
        std::io::Error::from_raw_os_error(111).raw_os_error()
    ));
    assert!(!is_message_too_large(
        std::io::Error::other("generic error with no errno").raw_os_error()
    ));
}

#[test]
fn test_broadcast_retries_with_emptied_capabilities_on_oversized_identity() {
    let service = create_test_service("Oversized Broadcaster");
    let step = service.broadcast(BroadcastOutcome::Failed {
        raw_os_error: Some(90),
        cause: "Message too long".to_string(),
    });
    match step {
        BroadcastStep::Retry(small) => {
            assert!(
                small.incoming_capabilities.is_empty(),
                "retry must strip incomingCapabilities"
            );
            assert!(
                small.outgoing_capabilities.is_empty(),
                "retry must strip outgoingCapabilities"
            );
            assert_eq!(small.device_name, "Oversized Broadcaster");
        }
        other => panic!("expected Retry, got {other:?}"),
    }
    match DiscoveryService::retry_failed("still too long") {
        Error::DiscoveryError(message) => assert!(message.ends_with("still too long")),
        other => panic!("expected DiscoveryError, got {other:?}"),
    }
}

#[test]
fn other_failures_of_a_broadcast_are_reported() {
    let service = create_test_service("Broadcaster");
    let step = service.broadcast(BroadcastOutcome::Failed {
        raw_os_error: Some(13),
        cause: "Permission denied".to_string(),
    });
    match step {
        BroadcastStep::Fail(Error::DiscoveryError(message)) => {
            assert_eq!(message, "Failed to send broadcast: Permission denied");
        }
        other => panic!("expected Fail, got {other:?}"),
    }
}

#[test]
fn test_identity_getter() {
    let service = create_test_service("Test Device");
    assert_eq!(service.identity().device_name, "Test Device");
}

#[test]
fn test_mutual_discovery() {
    let service2 = create_test_service("Device 2");
    let identity = service2
        .listen("kdeconnect.identity", Ok(other_identity("Device 1")))
        .expect("heard");
    assert_eq!(identity.device_name, "Device 1");
}

#[test]
fn test_listen_ignores_own_broadcast() {
    let service = create_test_service("Self Device");
    let e = service
        .listen(
            "kdeconnect.identity",
            Ok(create_test_identity("Self Device")),
        )
        .unwrap_err();
    assert!(
        e.message().contains("ignored_own"),
        "Expected own broadcast to be filtered, got: {e:?}"
    );
}

#[test]
fn test_listen_rejects_tcp_port_outside_kdeconnect_range() {
    let service = create_test_service("Listener");
    let mut identity = other_identity("Bad Port");
    identity.tcp_port = Some(2000);
    let e = service
        .listen("kdeconnect.identity", Ok(identity))
        .unwrap_err();
    assert!(
        e.message().contains("TCP port outside"),
        "Expected tcpPort range rejection, got: {e:?}"
    );
}

#[test]
fn ports_of_the_range_and_missing_ports_are_heard() {
    let service = create_test_service("Listener");
    for port in [None, Some(1716), Some(1764)] {
        let mut identity = other_identity("Good Port");
        identity.tcp_port = port;
        assert!(service.listen("kdeconnect.identity", Ok(identity)).is_ok());
    }
    for port in [Some(1715), Some(1765), Some(0)] {
        let mut identity = other_identity("Bad Port");
        identity.tcp_port = port;
        assert!(service.listen("kdeconnect.identity", Ok(identity)).is_err());
    }
}

#[test]
fn other_packets_and_malformed_ones_are_passed_over() {
    let service = create_test_service("Listener");
    assert!(service
        .listen("kdeconnect.ping", Ok(other_identity("Other")))
        .is_err());
    let malformed = Err(Error::DeserializationError("no identity".to_string()));
    assert!(service.listen("kdeconnect.identity", malformed).is_err());
}

#[test]
fn datagrams_from_afar_are_not_read() {
    assert!(DiscoveryService::check_sender(v4(192, 168, 1, 5), "192.168.1.5").is_ok());
    match DiscoveryService::check_sender(v4(8, 8, 8, 8), "8.8.8.8") {
        Err(Error::DiscoveryError(message)) => assert!(message.ends_with("8.8.8.8")),
        other => panic!("expected DiscoveryError, got {other:?}"),
    }
}

fn our_identity() -> Identity {
    let mut identity = Identity::new(
        "mdns-our-device-aaaaaaaaaaaaaaaaa".to_string(),
        "mDNS Test Device".to_string(),
        "desktop".to_string(),
        vec![],
        vec![],
    );
    identity.tcp_port = Some(17161);
    identity
}

fn txt_of(properties: &[(&str, &str)]) -> Table<String> {
    let mut txt: Table<String> = Table::new();
    for (k, v) in properties {
        txt.insert(k.to_string(), v.to_string());
    }
    txt
}

fn service_view(
    fullname: &str,
    addresses: Vec<IpAddr>,
    port: u16,
    properties: &[(&str, &str)],
) -> ServiceView {
    ServiceView {
        fullname: fullname.to_string(),
        port,
        addresses,
        txt: txt_of(properties),
    }
}

fn good_name() -> String {
    format!("peer-device-aaaaaaaaaaaaaaaaaaaaaa.{SERVICE_TYPE}")
}

const GOOD_ID: (&str, &str) = ("id", "peer-device-aaaaaaaaaaaaaaaaaaaaaa");

#[test]
fn test_resolved_to_peer_reads_reference_shape() {
    let ip = v4(192, 168, 1, 50);
    let resolved = service_view(
        &good_name(),
        vec![ip],
        1716,
        &[
            GOOD_ID,
            ("name", "test phone"),
            ("type", "phone"),
            ("protocol", "8"),
        ],
    );

    let peer = resolved_to_peer(&resolved).expect("a reference-shaped service must convert");
    assert_eq!(peer.device_id, "peer-device-aaaaaaaaaaaaaaaaaaaaaa");
    assert_eq!(peer.device_name, "test phone");
    assert_eq!(peer.device_type, "phone");
    assert_eq!(peer.protocol_version, 8);
    assert_eq!(peer.address, ip);
    assert_eq!(peer.srv_port, 1716);
}

#[test]
fn test_resolved_to_peer_falls_back_to_instance_name_for_id() {
    let resolved = service_view(
        &good_name(),
        vec![v4(192, 168, 1, 50)],
        1716,
        &[("protocol", "8")],
    );

    let peer = resolved_to_peer(&resolved).expect("instance-name id must convert");
    assert_eq!(peer.device_id, "peer-device-aaaaaaaaaaaaaaaaaaaaaa");
    assert_eq!(peer.device_name, peer.device_id);
    assert_eq!(peer.device_type, "desktop");
}

#[test]
fn test_resolved_to_peer_rejects_unusable_services() {
    let good_ip = v4(192, 168, 1, 50);

    let no_protocol = service_view(&good_name(), vec![good_ip], 1716, &[GOOD_ID]);
    assert!(resolved_to_peer(&no_protocol).is_none());

    let bad_protocol = service_view(
        &good_name(),
        vec![good_ip],
        1716,
        &[("protocol", "eight"), GOOD_ID],
    );
    assert!(resolved_to_peer(&bad_protocol).is_none());

    let bad_id = service_view(
        &good_name(),
        vec![good_ip],
        1716,
        &[("protocol", "8"), ("id", "../etc/passwd")],
    );
    assert!(resolved_to_peer(&bad_id).is_none());

    let public = service_view(
        &good_name(),
        vec![v4(8, 8, 8, 8)],
        1716,
        &[("protocol", "8"), GOOD_ID],
    );
    assert!(resolved_to_peer(&public).is_none());
}

#[test]
fn test_resolved_to_peer_keeps_a_zero_srv_port_for_the_log() {
    let ip = v4(192, 168, 1, 50);
    let resolved = service_view(&good_name(), vec![ip], 0, &[GOOD_ID, ("protocol", "8")]);

    let peer = resolved_to_peer(&resolved).expect("SRV port 0 must still convert");
    assert_eq!(peer.srv_port, 0);
    assert_eq!(peer.address, ip);
}

#[test]
fn test_resolved_to_peer_skips_an_ipv6_only_service() {
    for v6 in [ULA, v6(0xFE80, 0, 1)] {
        let resolved = service_view(&good_name(), vec![v6], 1716, &[GOOD_ID, ("protocol", "8")]);
        assert!(
            resolved_to_peer(&resolved).is_none(),
            "an IPv6-only resolve ({v6:?}) must be skipped, not unicast to"
        );
    }
}

#[test]
fn test_resolved_to_peer_prefers_private_ipv4_over_ipv6() {
    let v4 = v4(192, 168, 1, 50);
    for addresses in [vec![ULA, v4], vec![v4, ULA]] {
        let view = service_view(&good_name(), addresses, 1716, &[GOOD_ID, ("protocol", "8")]);
        let peer = resolved_to_peer(&view).expect("a dual-stack peer converts");
        assert_eq!(peer.address, v4);
    }
}

#[test]
fn test_resolve_skip_reason_labels_the_diagnosis() {
    let private_v4 = v4(192, 168, 1, 50);
    let public_v4 = v4(8, 8, 8, 8);

    assert_eq!(resolve_skip_reason(&vec![ULA]), "ipv6_only");
    assert_eq!(resolve_skip_reason(&vec![MAPPED]), "ipv6_only");
    assert_eq!(resolve_skip_reason(&vec![ULA, public_v4]), "ipv6_only");
    assert_eq!(resolve_skip_reason(&vec![public_v4]), "unusable");
    assert_eq!(resolve_skip_reason(&vec![]), "unusable");
    assert_eq!(resolve_skip_reason(&vec![ULA, private_v4]), "unusable");
}

#[test]
fn test_resolve_skip_reason_never_contradicts_resolved_to_peer() {
    let private_v4 = v4(192, 168, 1, 50);
    let public_v4 = v4(8, 8, 8, 8);
    let sets: Vec<Vec<IpAddr>> = vec![
        vec![private_v4],
        vec![public_v4],
        vec![ULA],
        vec![MAPPED],
        vec![private_v4, ULA],
        vec![ULA, private_v4],
        vec![public_v4, ULA],
        vec![MAPPED, private_v4],
        vec![MAPPED, public_v4],
    ];
    for addresses in sets {
        let view = service_view(
            &good_name(),
            addresses.clone(),
            1716,
            &[GOOD_ID, ("protocol", "8")],
        );
        let accepted = resolved_to_peer(&view).is_some();
        let labeled_ipv6_only = resolve_skip_reason(&addresses) == "ipv6_only";
        assert!(
            !(accepted && labeled_ipv6_only),
            "selection and diagnosis disagree for {addresses:?}"
        );
    }
}

#[test]
fn only_private_ipv4_addresses_are_usable() {
    assert!(usable_peer_address(&v4(10, 0, 0, 1)));
    assert!(!usable_peer_address(&v4(8, 8, 8, 8)));
    assert!(!usable_peer_address(&ULA));
}

fn metrics(counters: &[(&str, i64)]) -> Table<i64> {
    let mut table: Table<i64> = Table::new();
    for (name, value) in counters {
        table.insert(name.to_string(), *value);
    }
    table
}

#[test]
fn test_storm_verdict_register_resend_over_threshold() {
    let prev = metrics(&[("register-resend", 100)]);
    let cur = metrics(&[("register-resend", 800)]);

    let report = storm_verdict(&prev, &cur, 600)
        .expect("700 outbound sends per minute must exceed threshold 600");
    assert_eq!(report.sends, 700);
    assert!(
        report
            .deltas
            .contains(&("register-resend".to_string(), 700)),
        "deltas must contain the moved counter, got {:?}",
        report.deltas
    );

    assert!(
        storm_verdict(&prev, &cur, 800).is_none(),
        "700 sends must NOT exceed threshold 800"
    );
}

#[test]
fn test_storm_verdict_counter_reset_contributes_zero() {
    let prev = metrics(&[("register-resend", 1000), ("respond", 500)]);
    let cur = metrics(&[("register-resend", 0), ("respond", 50)]);

    for threshold in [1, 100, 600, 100_000] {
        assert!(
            storm_verdict(&prev, &cur, threshold).is_none(),
            "counter-reset snapshot must not produce a storm at threshold {}",
            threshold
        );
    }
}

#[test]
fn test_storm_verdict_deltas_never_negative() {
    let prev = metrics(&[("register-resend", 100), ("respond", 500)]);
    let cur = metrics(&[("register-resend", 800), ("respond", 50)]);

    let report =
        storm_verdict(&prev, &cur, 600).expect("700 outbound sends must trigger the storm");
    assert_eq!(report.sends, 700);
    for (name, delta) in &report.deltas {
        assert!(
            *delta >= 0,
            "no delta may be negative, but {} = {}",
            name,
            delta
        );
    }
    assert!(
        !report.deltas.iter().any(|(n, _)| n == "respond"),
        "a reset counter must NOT appear in deltas (got {:?})",
        report.deltas
    );
    assert!(
        report
            .deltas
            .contains(&("register-resend".to_string(), 700)),
        "deltas must contain the moved register-resend, got {:?}",
        report.deltas
    );
}

#[test]
fn test_storm_verdict_cache_churn_is_not_a_storm() {
    let prev = metrics(&[("cached-ptr", 0)]);
    let cur = metrics(&[("cached-ptr", 10_000)]);

    for threshold in [1, 100, 600, 10_000_000] {
        assert!(
            storm_verdict(&prev, &cur, threshold).is_none(),
            "cached-ptr churn alone must not be a storm at threshold {}",
            threshold
        );
    }
}

#[test]
fn a_storm_lists_every_counter_that_went_up_by_name() {
    let prev = metrics(&[]);
    let cur = metrics(&[("respond", 5), ("cached-ptr", 3), ("known-answer", 0)]);
    assert!(sends_are_countable(&prev, &cur));
    let report = storm_verdict(&prev, &cur, 5).expect("storm");
    assert_eq!(report.sends, 5);
    assert_eq!(
        report.deltas,
        vec![("cached-ptr".to_string(), 3), ("respond".to_string(), 5)]
    );
}

#[test]
fn a_first_sample_is_only_remembered() {
    let mut sampler = Sampler::new();
    assert!(matches!(sampler.sample_metrics(None), Sample::Skipped));
    assert!(matches!(
        sampler.sample_metrics(Some(metrics(&[("respond", 1)]))),
        Sample::Baseline
    ));
    assert!(matches!(sampler.sample_metrics(None), Sample::Skipped));
    assert!(matches!(
        sampler.sample_metrics(Some(metrics(&[("respond", 600)]))),
        Sample::Quiet
    ));
    match sampler.sample_metrics(Some(metrics(&[("respond", 1200)]))) {
        Sample::Storm(report) => assert_eq!(report.sends, 600),
        other => panic!("expected Storm, got {other:?}"),
    }
}

#[test]
fn the_announced_service_carries_the_identity() {
    let announcement = build_service_info(&our_identity()).expect("announce");
    assert_eq!(
        announcement.fullname,
        format!("mdns-our-device-aaaaaaaaaaaaaaaaa.{SERVICE_TYPE}")
    );
    assert_eq!(announcement.info.get_port(), 17161);
    assert_eq!(
        announcement.info.get_property_val_str("id"),
        Some("mdns-our-device-aaaaaaaaaaaaaaaaa")
    );
    assert_eq!(
        announcement.info.get_property_val_str("name"),
        Some("mDNS Test Device")
    );
    assert_eq!(
        announcement.info.get_property_val_str("type"),
        Some("desktop")
    );
    assert_eq!(announcement.info.get_property_val_str("protocol"), Some("8"));
    assert!(announcement.info.is_addr_auto());
}

#[test]
fn an_announcement_says_what_its_description_says() {
    let announcement =
        describe_service(&our_identity(), Some("laptop".to_string())).expect("announce");
    assert_eq!(announcement.host_name, "laptop.local.");
    assert_eq!(announcement.host_name, announcement.info.get_hostname());
    assert_eq!(announcement.port, 17161);
    assert_eq!(announcement.port, announcement.info.get_port());
    assert!(announcement.info.is_addr_auto());
    let properties: Vec<(&str, &str)> = announcement
        .properties
        .iter()
        .map(|(k, v)| (k.as_str(), v.as_str()))
        .collect();
    assert_eq!(
        properties,
        vec![
            ("id", "mdns-our-device-aaaaaaaaaaaaaaaaa"),
            ("name", "mDNS Test Device"),
            ("type", "desktop"),
            ("protocol", "8"),
        ]
    );
}

#[test]
fn a_host_name_ends_in_local_once() {
    let announcement =
        describe_service(&our_identity(), Some("laptop.local".to_string())).expect("announce");
    assert_eq!(announcement.host_name, "laptop.local.");
    assert_eq!(announcement.info.get_hostname(), "laptop.local.");
}

#[test]
fn dots_in_an_instance_name_are_escaped() {
    let mut identity = our_identity();
    identity.device_id = "a.b\\c".to_string();
    let announcement = describe_service(&identity, None).expect("announce");
    assert_eq!(
        announcement.fullname,
        format!("a\\.b\\\\c.{SERVICE_TYPE}")
    );
    assert_eq!(announcement.fullname, announcement.info.get_fullname());
}

#[test]
fn a_name_that_is_too_long_for_a_txt_record_is_refused() {
    let mut identity = our_identity();
    identity.device_name = "n".repeat(300);
    assert!(matches!(
        build_service_info(&identity),
        Err(Error::DiscoveryError(_))
    ));
}

#[test]
fn the_plan_of_a_service_names_its_host() {
    let mut identity = our_identity();
    identity.tcp_port = None;
    let plan = service_plan(&identity, Some("laptop".to_string()));
    assert_eq!(plan.host_name, "laptop.local.");
    assert_eq!(plan.port, 1716);
}

#[test]
fn an_announced_identity_is_found_by_others() {
    let identity = our_identity();
    let announcement = build_service_info(&identity).expect("announce");
    let plan = service_plan(&identity, None);
    let properties: Vec<(&str, &str)> = plan
        .properties
        .iter()
        .map(|(k, v)| (k.as_str(), v.as_str()))
        .collect();
    let view = service_view(
        &announcement.fullname,
        vec![v4(192, 168, 1, 7)],
        plan.port,
        &properties,
    );
    let peer = resolved_to_peer(&view).expect("found");
    assert_eq!(peer.device_id, identity.device_id);
    assert_eq!(peer.device_name, identity.device_name);
    assert_eq!(peer.device_type, identity.device_type);
    assert_eq!(peer.protocol_version, identity.protocol_version);
    assert_eq!(peer.srv_port, 17161);
}

#[test]
fn the_name_that_was_announced_last_is_withdrawn() {
    let mut identity = our_identity();
    let mut service = MdnsDiscoveryService::new(&build_service_info(&identity).expect("announce"));
    identity.device_id = "mdns-renamed-device-aaaaaaaaaaaaa".to_string();
    service.reannounce(&build_service_info(&identity).expect("announce"));
    assert_eq!(
        service.stop_announcing(),
        format!("mdns-renamed-device-aaaaaaaaaaaaa.{SERVICE_TYPE}")
    );
}
