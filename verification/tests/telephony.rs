use rust_connect::error::Error;
use rust_connect::packet::{Packet, Value};
use rust_connect::plugins::telephony::{
    is_cancel_value, mask_number, TelephonyInfo, TelephonyPlugin, MAX_CALLS_PER_DEVICE,
    MUTE_REQUEST_PACKET_TYPE,
};

fn text(s: &str) -> Value {
    Value::Text(s.to_string())
}

fn telephony_packet(fields: Vec<(&str, Value)>) -> Packet {
    let body = fields
        .into_iter()
        .map(|(k, v)| (k.to_string(), v))
        .collect();
    Packet::new("kdeconnect.telephony".to_string(), body)
}

#[test]
fn test_mute_request_wire_shape_matches_upstream() {
    let packet = TelephonyPlugin::mute_request_packet();
    assert_eq!(packet.packet_type, MUTE_REQUEST_PACKET_TYPE);
    assert_eq!(packet.body.len(), 1);
    assert_eq!(packet.body[0].0, "action");
    assert!(matches!(&packet.body[0].1, Value::Text(t) if t == "mute"));
}

#[test]
fn test_mute_request_is_advertised_as_outgoing() {
    let plugin = TelephonyPlugin::new();
    assert!(
        plugin
            .outgoing_capabilities()
            .contains(&MUTE_REQUEST_PACKET_TYPE.to_string()),
        "outgoing was {:?}",
        plugin.outgoing_capabilities()
    );
}

#[test]
fn test_mute_request_is_not_claimed_as_incoming() {
    let plugin = TelephonyPlugin::new();
    assert!(!plugin
        .incoming_capabilities()
        .contains(&MUTE_REQUEST_PACKET_TYPE.to_string()));
}

#[test]
fn test_telephony_plugin_name_and_capabilities() {
    let plugin = TelephonyPlugin::new();
    assert_eq!(plugin.name(), "telephony");
    assert!(plugin
        .incoming_capabilities()
        .contains(&"kdeconnect.telephony".to_string()));
    assert_eq!(
        plugin.outgoing_capabilities(),
        vec![MUTE_REQUEST_PACKET_TYPE.to_string()]
    );
}

#[test]
fn test_ringing_real_wire_shape() {
    let mut plugin = TelephonyPlugin::new();
    plugin
        .handle_packet(
            "device1",
            &telephony_packet(vec![
                ("event", text("ringing")),
                ("phoneNumber", text("+1234567890")),
                ("contactName", text("John Doe")),
            ]),
        )
        .unwrap();
    let calls = plugin.get_calls("device1");
    assert_eq!(calls.len(), 1);
    assert_eq!(calls[0].event, "ringing");
    assert_eq!(calls[0].phone_number.as_deref(), Some("+1234567890"));
    assert_eq!(calls[0].contact_name.as_deref(), Some("John Doe"));
    assert!(!calls[0].is_cancel);
}

#[test]
fn test_invented_number_field_captures_nothing() {
    let mut plugin = TelephonyPlugin::new();
    plugin
        .handle_packet(
            "device1",
            &telephony_packet(vec![
                ("event", text("ringing")),
                ("number", text("+1234567890")),
            ]),
        )
        .unwrap();
    let calls = plugin.get_calls("device1");
    assert_eq!(calls.len(), 1);
    assert!(calls[0].phone_number.is_none());
}

#[test]
fn test_real_event_vocabulary_is_recorded() {
    let mut plugin = TelephonyPlugin::new();
    for event in ["ringing", "talking", "missedCall"] {
        plugin
            .handle_packet(
                "device1",
                &telephony_packet(vec![
                    ("event", text(event)),
                    ("phoneNumber", text("+1234567890")),
                ]),
            )
            .unwrap();
    }
    let calls = plugin.get_calls("device1");
    assert_eq!(calls.len(), 3);
    assert_eq!(calls[2].event, "missedCall");
}

#[test]
fn test_cancel_string_true_does_not_append_duplicate() {
    let mut plugin = TelephonyPlugin::new();
    let ringing = || {
        vec![
            ("event", text("ringing")),
            ("phoneNumber", text("+1234567890")),
            ("contactName", text("John Doe")),
        ]
    };
    plugin
        .handle_packet("device1", &telephony_packet(ringing()))
        .unwrap();

    let mut cancel = ringing();
    cancel.push(("isCancel", text("true")));
    plugin
        .handle_packet("device1", &telephony_packet(cancel))
        .unwrap();

    assert_eq!(plugin.get_calls("device1").len(), 1);
}

#[test]
fn test_cancel_bool_true_recognized() {
    let mut plugin = TelephonyPlugin::new();
    plugin
        .handle_packet(
            "device1",
            &telephony_packet(vec![("event", text("talking"))]),
        )
        .unwrap();
    plugin
        .handle_packet(
            "device1",
            &telephony_packet(vec![
                ("event", text("talking")),
                ("isCancel", Value::Bool(true)),
            ]),
        )
        .unwrap();
    assert_eq!(plugin.get_calls("device1").len(), 1);
}

#[test]
fn test_cancel_is_broadcast_with_flag_set() {
    let mut plugin = TelephonyPlugin::new();
    let update = plugin
        .handle_packet(
            "device1",
            &telephony_packet(vec![("event", text("ringing")), ("isCancel", text("true"))]),
        )
        .unwrap();
    assert!(update.is_cancel);
    assert!(plugin.get_calls("device1").is_empty());
}

#[test]
fn test_is_cancel_value_parsing() {
    assert!(is_cancel_value(&Value::Bool(true)));
    assert!(is_cancel_value(&text("true")));
    assert!(is_cancel_value(&text("TRUE")));
    assert!(!is_cancel_value(&Value::Bool(false)));
    assert!(!is_cancel_value(&text("false")));
    assert!(!is_cancel_value(&Value::Int(1)));
    assert!(!is_cancel_value(&Value::Null));
}

#[test]
fn test_phone_thumbnail_captured() {
    let mut plugin = TelephonyPlugin::new();
    plugin
        .handle_packet(
            "device1",
            &telephony_packet(vec![
                ("event", text("ringing")),
                ("phoneNumber", text("+1234567890")),
                ("phoneThumbnail", text("/9j/4AAQSkZJRg==")),
            ]),
        )
        .unwrap();
    assert_eq!(
        plugin.get_calls("device1")[0].phone_thumbnail.as_deref(),
        Some("/9j/4AAQSkZJRg==")
    );
}

#[test]
fn test_multibyte_phone_number_does_not_panic() {
    let mut plugin = TelephonyPlugin::new();
    assert!(plugin
        .handle_packet(
            "device1",
            &telephony_packet(vec![
                ("event", text("ringing")),
                ("phoneNumber", text("☎☎☎☎☎"))
            ]),
        )
        .is_ok());
    assert_eq!(plugin.get_calls("device1").len(), 1);
    assert_eq!(mask_number("☎☎☎☎☎"), "****☎☎☎☎");
}

#[test]
fn test_call_log_is_capped_per_device() {
    let mut plugin = TelephonyPlugin::new();
    for i in 0..(MAX_CALLS_PER_DEVICE + 25) {
        let packet = telephony_packet(vec![
            ("event", text("missedCall")),
            ("phoneNumber", Value::Text(format!("+1555{i:07}"))),
            ("contactName", Value::Text(format!("caller {i}"))),
        ]);
        plugin.handle_packet("phone1", &packet).expect("handle");
    }
    let calls = plugin.get_calls("phone1");
    assert_eq!(calls.len(), MAX_CALLS_PER_DEVICE, "call log must be capped");
    assert_eq!(
        calls.last().and_then(|c| c.contact_name.as_deref()),
        Some(format!("caller {}", MAX_CALLS_PER_DEVICE + 24).as_str()),
        "the newest call must survive eviction"
    );
    assert_eq!(calls[0].contact_name.as_deref(), Some("caller 25"));
}

#[test]
fn test_on_disconnected_clears_calls() {
    let mut plugin = TelephonyPlugin::new();
    plugin
        .handle_packet(
            "device1",
            &telephony_packet(vec![
                ("event", text("ringing")),
                ("phoneNumber", text("+1234567890")),
            ]),
        )
        .unwrap();
    assert_eq!(plugin.get_calls("device1").len(), 1);
    plugin.on_disconnected("device1");
    assert!(plugin.get_calls("device1").is_empty());
}

#[test]
fn test_telephony_info_defaults() {
    let info = TelephonyInfo::from_packet(&telephony_packet(vec![("event", text("ringing"))]))
        .expect("Value expected to be present");
    assert_eq!(info.event, "ringing");
    assert!(info.phone_number.is_none());
    assert!(info.contact_name.is_none());
    assert!(info.phone_thumbnail.is_none());
    assert!(!info.is_cancel);
}

#[test]
fn malformed_reports_are_refused() {
    let mut plugin = TelephonyPlugin::new();
    for fields in [
        vec![],
        vec![("event", Value::Int(1))],
        vec![("event", text("ringing")), ("contactName", Value::Bool(true))],
    ] {
        let err = plugin
            .handle_packet("device1", &telephony_packet(fields))
            .unwrap_err();
        assert!(matches!(err, Error::DeserializationError(_)));
    }
    let null = telephony_packet(vec![
        ("event", text("ringing")),
        ("contactName", Value::Null),
    ]);
    assert!(plugin.handle_packet("device1", &null).is_ok());
    assert_eq!(plugin.get_calls("device1").len(), 1);
}

#[test]
fn numbers_are_masked_but_for_their_end() {
    assert_eq!(mask_number("+1234567890"), "****7890");
    assert_eq!(mask_number("1234"), "1234");
    assert_eq!(mask_number("12345"), "****2345");
}

#[test]
fn devices_have_their_own_calls() {
    let mut plugin = TelephonyPlugin::new();
    let ring = telephony_packet(vec![("event", text("ringing"))]);
    plugin.handle_packet("a", &ring).unwrap();
    plugin.handle_packet("b", &ring).unwrap();
    plugin.on_disconnected("a");
    assert!(plugin.get_calls("a").is_empty());
    assert_eq!(plugin.get_calls("b").len(), 1);
}
