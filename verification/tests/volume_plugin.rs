use rust_connect::packet::{Packet, SinkState, Value};
use rust_connect::plugins::systemvolume::backend::{
    parse_subscribe_line, LocalSinkState, MockBackend, SubscribeEvent,
};
use rust_connect::plugins::systemvolume::plugin::{SystemVolumePlugin, VolumeAction};
use rust_connect::plugins::systemvolume::supervisor::{
    build_deltas, handle_subscribe_event, sync_peers, Supervisor, WatchAction, WatchEvent,
    INITIAL_BACKOFF_MS, MAX_BACKOFF_MS,
};
use rust_connect::table::Table;

fn text(s: &str) -> Value {
    Value::Text(s.to_string())
}

fn packet(packet_type: &str, fields: Vec<(&str, Value)>) -> Packet {
    let body = fields
        .into_iter()
        .map(|(k, v)| (k.to_string(), v))
        .collect();
    Packet::new(packet_type.to_string(), body)
}

fn controller_state_packet(fields: Vec<(&str, Value)>) -> Packet {
    packet("kdeconnect.systemvolume", fields)
}

fn request_packet(fields: Vec<(&str, Value)>) -> Packet {
    packet("kdeconnect.systemvolume.request", fields)
}

fn local(name: &str) -> LocalSinkState {
    LocalSinkState {
        name: name.to_string(),
        ..Default::default()
    }
}

fn sink(
    name: &str,
    description: &str,
    volume: i64,
    muted: bool,
    enabled: bool,
) -> LocalSinkState {
    LocalSinkState {
        name: name.to_string(),
        description: Some(description.to_string()),
        volume: Some(volume),
        max_volume: Some(65_536),
        muted: Some(muted),
        enabled: Some(enabled),
    }
}

/// An entry of a `sinkList` as it is read from JSON, where it describes a sink.
fn entry(json: &serde_json::Value) -> Option<SinkState> {
    let map = json.as_object()?;
    Some(SinkState {
        name: map.get("name")?.as_str()?.to_string(),
        description: map
            .get("description")
            .and_then(|v| v.as_str())
            .map(String::from),
        volume: map.get("volume").and_then(|v| v.as_i64()),
        max_volume: map.get("maxVolume").and_then(|v| v.as_i64()),
        muted: map.get("muted").and_then(|v| v.as_bool()),
        enabled: map.get("enabled").and_then(|v| v.as_bool()),
    })
}

fn sink_list_of(text: &str) -> Value {
    let json: serde_json::Value = serde_json::from_str(text).expect("json");
    Value::List(
        json["sinkList"]
            .as_array()
            .expect("sinkList")
            .iter()
            .map(entry)
            .collect(),
    )
}

fn kde_sink_list() -> Vec<(&'static str, Value)> {
    vec![(
        "sinkList",
        sink_list_of(
            r#"{
            "sinkList": [
                {
                    "name": "alsa_output.pci-0000_00_1f.3.analog-stereo",
                    "muted": false,
                    "description": "Built-in Audio Analog Stereo",
                    "volume": 45874,
                    "maxVolume": 65536,
                    "enabled": true
                },
                {
                    "name": "alsa_output.usb-Generic_USB_Audio-00.analog-stereo",
                    "muted": true,
                    "description": "USB Audio Analog Stereo",
                    "volume": 65536,
                    "maxVolume": 65536,
                    "enabled": false
                }
            ]
        }"#,
        ),
    )]
}

/// Serves a request with a recording sound server, as the program does.
fn serve(
    plugin: &mut SystemVolumePlugin,
    backend: &mut MockBackend,
    device: &str,
    packet: &Packet,
) -> Option<Packet> {
    match plugin.handle_packet(device, packet) {
        VolumeAction::Nothing => None,
        VolumeAction::ListSinks => match backend.list_sinks() {
            Ok(sinks) => Some(plugin.answer_request(&sinks)),
            Err(_) => None,
        },
        VolumeAction::Control(mut request) => {
            while let Some(op) = request.next_op() {
                let done = backend.apply(op).is_ok();
                request.op_finished(done);
            }
            None
        }
    }
}

fn with_backend(backend: &MockBackend) -> SystemVolumePlugin {
    let mut plugin = SystemVolumePlugin::new();
    plugin.set_backend(backend.is_available());
    plugin.disable_watcher_for_test();
    plugin
}

#[test]
fn test_systemvolume_name() {
    let plugin = SystemVolumePlugin::new();
    assert_eq!(plugin.name(), "systemvolume");
}

#[test]
fn test_caps_without_backend_are_controller_only() {
    let plugin = SystemVolumePlugin::new();
    let incoming = plugin.incoming_capabilities();
    let outgoing = plugin.outgoing_capabilities();
    assert_eq!(incoming, vec!["kdeconnect.systemvolume".to_string()]);
    assert_eq!(
        outgoing,
        vec!["kdeconnect.systemvolume.request".to_string()]
    );
    assert!(!plugin.is_backend_available());
}

#[test]
fn test_caps_with_backend_include_provider_both_directions() {
    let backend = MockBackend::new().with_sinks(vec![LocalSinkState {
        max_volume: Some(65_536),
        ..local("s")
    }]);
    let plugin = with_backend(&backend);

    let incoming = plugin.incoming_capabilities();
    let outgoing = plugin.outgoing_capabilities();
    assert!(incoming.contains(&"kdeconnect.systemvolume".to_string()));
    assert!(incoming.contains(&"kdeconnect.systemvolume.request".to_string()));
    assert!(outgoing.contains(&"kdeconnect.systemvolume.request".to_string()));
    assert!(outgoing.contains(&"kdeconnect.systemvolume".to_string()));
    assert!(plugin.is_backend_available());
}

#[test]
fn test_caps_follow_is_available_not_presence() {
    let mut backend = MockBackend::new();
    backend.set_available(false);
    let plugin = with_backend(&backend);

    let incoming = plugin.incoming_capabilities();
    assert_eq!(incoming, vec!["kdeconnect.systemvolume".to_string()]);
    assert!(!plugin.is_backend_available());
}

#[test]
fn capabilities_shrink_when_the_sound_server_goes_away() {
    let backend = MockBackend::new();
    let mut plugin = with_backend(&backend);
    assert_eq!(plugin.incoming_capabilities().len(), 2);
    plugin.set_backend_available_for_test(false);
    assert!(!plugin.is_backend_available());
    assert_eq!(
        plugin.incoming_capabilities(),
        vec!["kdeconnect.systemvolume".to_string()]
    );
    plugin.set_backend_available_for_test(true);
    assert_eq!(plugin.incoming_capabilities().len(), 2);
}

#[test]
fn test_sink_list_parsed_per_sink() {
    let mut plugin = SystemVolumePlugin::new();
    plugin.handle_packet("device1", &controller_state_packet(kde_sink_list()));

    let sinks = plugin.get_sinks("device1");
    assert_eq!(sinks.len(), 2);

    let builtin = plugin
        .get_sink("device1", "alsa_output.pci-0000_00_1f.3.analog-stereo")
        .expect("Value expected to be present");
    assert_eq!(builtin.volume, Some(45874));
    assert_eq!(builtin.max_volume, Some(65536));
    assert_eq!(builtin.muted, Some(false));
    assert_eq!(builtin.enabled, Some(true));
    assert_eq!(
        builtin.description.as_deref(),
        Some("Built-in Audio Analog Stereo")
    );

    let usb = plugin
        .get_sink(
            "device1",
            "alsa_output.usb-Generic_USB_Audio-00.analog-stereo",
        )
        .expect("Value expected to be present");
    assert_eq!(usb.volume, Some(65536));
    assert_eq!(usb.muted, Some(true));
    assert_eq!(usb.enabled, Some(false));
}

#[test]
fn test_sink_list_replaces_previous_set() {
    let mut plugin = SystemVolumePlugin::new();
    plugin.handle_packet("device1", &controller_state_packet(kde_sink_list()));
    plugin.handle_packet(
        "device1",
        &controller_state_packet(vec![(
            "sinkList",
            sink_list_of(
                r#"{"sinkList": [
                        { "name": "only-one", "muted": false, "description": "d",
                          "volume": 100, "maxVolume": 65536, "enabled": true }
                    ]}"#,
            ),
        )]),
    );
    let sinks = plugin.get_sinks("device1");
    assert_eq!(sinks.len(), 1);
    assert_eq!(sinks[0].name, "only-one");
}

#[test]
fn test_per_sink_volume_update_keyed_by_name() {
    let mut plugin = SystemVolumePlugin::new();
    plugin.handle_packet("device1", &controller_state_packet(kde_sink_list()));
    plugin.handle_packet(
        "device1",
        &controller_state_packet(vec![
            ("volume", Value::Int(32768)),
            ("name", text("alsa_output.pci-0000_00_1f.3.analog-stereo")),
        ]),
    );

    assert_eq!(
        plugin
            .get_sink("device1", "alsa_output.pci-0000_00_1f.3.analog-stereo")
            .expect("Value expected to be present")
            .volume,
        Some(32768)
    );
    assert_eq!(
        plugin
            .get_sink(
                "device1",
                "alsa_output.usb-Generic_USB_Audio-00.analog-stereo"
            )
            .expect("Value expected to be present")
            .volume,
        Some(65536)
    );
}

#[test]
fn test_per_sink_muted_and_enabled_updates() {
    let mut plugin = SystemVolumePlugin::new();
    plugin.handle_packet("device1", &controller_state_packet(kde_sink_list()));
    plugin.handle_packet(
        "device1",
        &controller_state_packet(vec![
            ("muted", Value::Bool(true)),
            ("name", text("alsa_output.pci-0000_00_1f.3.analog-stereo")),
        ]),
    );
    plugin.handle_packet(
        "device1",
        &controller_state_packet(vec![
            ("enabled", Value::Bool(false)),
            ("name", text("alsa_output.pci-0000_00_1f.3.analog-stereo")),
        ]),
    );

    let sink = plugin
        .get_sink("device1", "alsa_output.pci-0000_00_1f.3.analog-stereo")
        .expect("Value expected to be present");
    assert_eq!(sink.muted, Some(true));
    assert_eq!(sink.enabled, Some(false));
}

#[test]
fn test_update_for_unknown_sink_is_ignored() {
    let mut plugin = SystemVolumePlugin::new();
    plugin.handle_packet("device1", &controller_state_packet(kde_sink_list()));
    plugin.handle_packet(
        "device1",
        &controller_state_packet(vec![
            ("volume", Value::Int(1)),
            ("name", text("ghost-sink")),
        ]),
    );
    assert_eq!(plugin.get_sinks("device1").len(), 2);
    assert!(plugin.get_sink("device1", "ghost-sink").is_none());
}

#[test]
fn test_malformed_sink_entry_skipped() {
    let mut plugin = SystemVolumePlugin::new();
    plugin.handle_packet(
        "device1",
        &controller_state_packet(vec![(
            "sinkList",
            sink_list_of(
                r#"{"sinkList": [
                        { "name": "good", "volume": 100, "maxVolume": 65536,
                          "muted": false, "description": "d", "enabled": true },
                        { "volume": 200 },
                        "not-an-object"
                    ]}"#,
            ),
        )]),
    );
    let sinks = plugin.get_sinks("device1");
    assert_eq!(sinks.len(), 1);
    assert_eq!(sinks[0].name, "good");
}

#[test]
fn unnamed_sinks_are_dropped() {
    let mut plugin = SystemVolumePlugin::new();
    plugin.handle_packet(
        "device1",
        &controller_state_packet(vec![(
            "sinkList",
            Value::List(vec![Some(SinkState::default())]),
        )]),
    );
    assert!(plugin.get_sinks("device1").is_empty());
}

fn list_of(packet: &Packet) -> &Vec<Option<SinkState>> {
    packet.get_list("sinkList").expect("sinkList")
}

#[test]
fn test_request_sinks_returns_sinklist() {
    let sinks = vec![
        sink("s1", "Sink 1", 50_000, false, true),
        sink("s2", "Sink 2", 20_000, true, false),
    ];
    let mut backend = MockBackend::new().with_sinks(sinks).with_default("s1");
    let mut plugin = with_backend(&backend);
    let response = serve(
        &mut plugin,
        &mut backend,
        "phone1",
        &request_packet(vec![("requestSinks", Value::Bool(true))]),
    )
    .expect("response packet");
    assert_eq!(response.packet_type, "kdeconnect.systemvolume");
    let list = list_of(&response);
    assert_eq!(list.len(), 2);
    let names: Vec<&str> = list
        .iter()
        .map(|s| s.as_ref().unwrap().name.as_str())
        .collect();
    assert!(names.contains(&"s1"));
    assert!(names.contains(&"s2"));
    assert_eq!(plugin.get_default_sink().as_deref(), Some("s1"));
}

#[test]
fn test_volume_request_applies_to_backend() {
    let mut backend = MockBackend::new().with_sinks(vec![sink("s1", "d", 0, false, true)]);
    let mut plugin = with_backend(&backend);
    let r = serve(
        &mut plugin,
        &mut backend,
        "phone1",
        &request_packet(vec![("name", text("s1")), ("volume", Value::Int(32768))]),
    );
    assert!(r.is_none());
    let calls = backend.calls();
    assert!(calls.iter().any(|c| c.starts_with("set_volume:s1:32768")));
    assert!(calls.iter().any(|c| c == "set_muted:s1:false"));
}

#[test]
fn test_muted_request_applies_to_backend() {
    let mut backend = MockBackend::new().with_sinks(vec![sink("s1", "d", 0, false, true)]);
    let mut plugin = with_backend(&backend);
    serve(
        &mut plugin,
        &mut backend,
        "phone1",
        &request_packet(vec![("name", text("s1")), ("muted", Value::Bool(true))]),
    );
    let calls = backend.calls();
    assert!(calls.iter().any(|c| c == "set_muted:s1:true"));
}

#[test]
fn test_default_request_applies_to_backend() {
    let mut backend = MockBackend::new().with_sinks(vec![LocalSinkState {
        max_volume: Some(65_536),
        ..local("s1")
    }]);
    let mut plugin = with_backend(&backend);
    serve(
        &mut plugin,
        &mut backend,
        "phone1",
        &request_packet(vec![("name", text("s1")), ("enabled", Value::Bool(true))]),
    );
    let calls = backend.calls();
    assert!(calls.iter().any(|c| c == "set_default:s1:true"));
}

#[test]
fn test_request_without_backend_is_noop() {
    let mut plugin = SystemVolumePlugin::new();
    let r = plugin.handle_packet(
        "phone1",
        &request_packet(vec![("requestSinks", Value::Bool(true))]),
    );
    assert!(matches!(r, VolumeAction::Nothing));
}

#[test]
fn test_request_unknown_sink_name_does_not_crash() {
    let mut backend = MockBackend::new().with_sinks(vec![LocalSinkState {
        max_volume: Some(65_536),
        ..local("s1")
    }]);
    let mut plugin = with_backend(&backend);
    let r = serve(
        &mut plugin,
        &mut backend,
        "phone1",
        &request_packet(vec![("name", text("ghost")), ("volume", Value::Int(1))]),
    );
    assert!(r.is_none());
    assert!(backend.calls().is_empty());
}

#[test]
fn a_failed_volume_drops_the_rest_of_the_request() {
    let mut backend = MockBackend::new().with_sinks(vec![local("s1")]);
    let mut plugin = with_backend(&backend);
    serve(
        &mut plugin,
        &mut backend,
        "phone1",
        &request_packet(vec![
            ("name", text("ghost")),
            ("volume", Value::Int(1)),
            ("enabled", Value::Bool(true)),
        ]),
    );
    assert!(backend.calls().is_empty());
}

#[test]
fn test_volume_is_an_integer_on_the_max_volume_scale() {
    let json: serde_json::Value = serde_json::from_str(
        r#"{
            "name": "s",
            "muted": false,
            "description": "d",
            "volume": 65536,
            "maxVolume": 65536,
            "enabled": true
        }"#,
    )
    .unwrap();
    let sink = entry(&json).unwrap();
    assert_eq!(sink.volume, Some(65536));
    assert_eq!(sink.max_volume, Some(65536));
}

#[test]
fn test_on_connected_is_quiet_peer_sync_owns_handshake() {
    let plugin = SystemVolumePlugin::new();
    assert!(plugin.on_connected("device1").is_empty());
}

#[test]
fn test_on_disconnected_clears_sinks() {
    let mut plugin = SystemVolumePlugin::new();
    plugin.handle_packet("device1", &controller_state_packet(kde_sink_list()));
    plugin.on_disconnected("device1");
    assert!(plugin.get_sinks("device1").is_empty());
}

fn foo() -> SinkState {
    SinkState {
        name: "foo".to_string(),
        description: Some("Foo".to_string()),
        volume: Some(12_345),
        max_volume: Some(65_536),
        muted: Some(false),
        enabled: Some(true),
    }
}

#[test]
fn test_local_sinks_round_trip() {
    let mut plugin = SystemVolumePlugin::new();
    plugin.with_local_sinks_for_test(vec![foo()]);
    let got = plugin.get_local_sinks();
    assert_eq!(got.len(), 1);
    assert_eq!(got[0].name, "foo");
    assert_eq!(got[0].volume, Some(12_345));
    assert_eq!(plugin.get_default_sink().as_deref(), Some("foo"));
}

#[test]
fn test_local_sinks_apply_preserves_previous_fields() {
    let mut plugin = SystemVolumePlugin::new();
    plugin.with_local_sinks_for_test(vec![foo()]);
    plugin.apply_local_sinks(&vec![LocalSinkState {
        name: "foo".to_string(),
        description: None,
        max_volume: None,
        volume: Some(22_222),
        muted: Some(true),
        enabled: Some(true),
    }]);
    let got = plugin.get_local_sinks();
    assert_eq!(got.len(), 1);
    assert_eq!(got[0].description.as_deref(), Some("Foo"));
    assert_eq!(got[0].max_volume, Some(65_536));
    assert_eq!(got[0].volume, Some(22_222));
    assert_eq!(got[0].muted, Some(true));
}

fn named(name: &str) -> SinkState {
    SinkState {
        name: name.to_string(),
        ..Default::default()
    }
}

#[test]
fn test_apply_local_sinks_drops_disappeared() {
    let mut plugin = SystemVolumePlugin::new();
    plugin.with_local_sinks_for_test(vec![named("a"), named("b")]);
    plugin.apply_local_sinks(&vec![local("a")]);
    let sinks = plugin.get_local_sinks();
    let names: Vec<&str> = sinks.iter().map(|s| s.name.as_str()).collect();
    assert_eq!(names, vec!["a"]);
}

#[test]
fn local_sinks_come_in_the_order_of_their_names() {
    let mut plugin = SystemVolumePlugin::new();
    plugin.with_local_sinks_for_test(vec![named("c"), named("a"), named("B"), named("ab")]);
    let sinks = plugin.get_local_sinks();
    let names: Vec<&str> = sinks.iter().map(|s| s.name.as_str()).collect();
    assert_eq!(names, vec!["B", "a", "ab", "c"]);
    assert_eq!(plugin.get_default_sink(), None);
}

#[test]
fn test_delta_packet_shape_matches_upstream() {
    let mut old_map: Table<SinkState> = Table::new();
    old_map.insert(
        "s".to_string(),
        SinkState {
            name: "s".to_string(),
            volume: Some(10_000),
            muted: Some(false),
            enabled: Some(false),
            max_volume: Some(65_536),
            description: None,
        },
    );
    let new_sinks = vec![sink("s", "d", 20_000, true, true)];
    let deltas = build_deltas(&old_map, &new_sinks);
    assert_eq!(deltas.len(), 3);
    assert!(deltas.iter().any(|p| p.get_int("volume") == Some(20_000)
        && p.get_text("name").map(String::as_str) == Some("s")));
    assert!(deltas.iter().any(|p| p.get_bool("muted") == Some(true)));
    assert!(deltas.iter().any(|p| p.get_bool("enabled") == Some(true)));
}

#[test]
fn unknown_and_unchanged_sinks_make_no_delta() {
    let mut old_map: Table<SinkState> = Table::new();
    old_map.insert("s".to_string(), SinkState::from(sink("s", "d", 1, false, true)));
    let listed = vec![sink("s", "other", 1, false, true), sink("t", "d", 2, true, false)];
    assert!(build_deltas(&old_map, &listed).is_empty());
}

#[test]
fn a_value_that_is_gone_is_told_as_null() {
    let mut old_map: Table<SinkState> = Table::new();
    old_map.insert("s".to_string(), SinkState::from(sink("s", "d", 1, false, true)));
    let deltas = build_deltas(&old_map, &vec![local("s")]);
    assert_eq!(deltas.len(), 3);
    assert!(matches!(deltas[0].get("volume"), Some(Value::Null)));
}

#[test]
fn test_subscribe_event_triggers_relist() {
    let backend = MockBackend::new().with_sinks(vec![sink("s1", "d", 0, false, true)]);
    assert!(handle_subscribe_event(&SubscribeEvent::SinkChanged {
        name: Some("s1".to_string()),
    }));
    let list = backend.list_sinks().expect("relist");
    assert_eq!(list.len(), 1);
    assert_eq!(list[0].name, "s1");
}

#[test]
fn test_subscribe_unclassified_event_returns_none() {
    assert!(!handle_subscribe_event(&SubscribeEvent::Unclassified {
        line: "Event 'change' on client #3693".to_string(),
    }));
}

#[test]
fn test_enable_session_backend_keeps_controller_caps_when_pactl_missing() {
    let plugin = SystemVolumePlugin::new();
    let out = plugin.outgoing_capabilities();
    assert!(out.contains(&"kdeconnect.systemvolume.request".to_string()));
    let mut found = SystemVolumePlugin::new();
    found.enable_session_backend(&vec![sink("s", "d", 7, false, true)], true);
    assert!(found.backend());
    assert_eq!(found.get_default_sink().as_deref(), Some("s"));
    assert_eq!(found.get_local_sink("s").expect("sink").volume, Some(7));
}

#[test]
fn parse_kde_sink_list_fixture_end_to_end() {
    let body: serde_json::Value = serde_json::from_str(
        r#"{
                "sinkList": [
                    {
                        "name": "alsa_output.pci-0000_00_1f.3.analog-stereo",
                        "muted": false,
                        "description": "Built-in Audio Analog Stereo",
                        "volume": 45874,
                        "maxVolume": 65536,
                        "enabled": true
                    }
                ]
            }"#,
    )
    .unwrap();
    let sink = entry(&body.get("sinkList").unwrap().as_array().unwrap()[0]).unwrap();
    assert_eq!(sink.max_volume, Some(65536));
    assert_eq!(sink.volume, Some(45874));
}

#[test]
fn test_unrelated_packet_type_returned_none() {
    let mut plugin = SystemVolumePlugin::new();
    let r = plugin.handle_packet("device1", &packet("kdeconnect.ping", vec![]));
    assert!(matches!(r, VolumeAction::Nothing));
}

#[test]
fn test_request_sinks_only_handled_in_request_packet_type() {
    let mut backend = MockBackend::new().with_sinks(vec![LocalSinkState {
        max_volume: Some(65_536),
        ..local("s")
    }]);
    let mut plugin = with_backend(&backend);
    let r = serve(
        &mut plugin,
        &mut backend,
        "phone1",
        &packet(
            "kdeconnect.systemvolume",
            vec![("requestSinks", Value::Bool(true))],
        ),
    );
    assert!(r.is_none());
}

#[test]
fn test_volume_and_muted_combined() {
    let mut backend = MockBackend::new().with_sinks(vec![LocalSinkState {
        max_volume: Some(65_536),
        ..local("s")
    }]);
    let mut plugin = with_backend(&backend);
    serve(
        &mut plugin,
        &mut backend,
        "phone1",
        &request_packet(vec![
            ("name", text("s")),
            ("volume", Value::Int(1000)),
            ("muted", Value::Bool(true)),
        ]),
    );
    let calls = backend.calls();
    let volume_call = calls
        .iter()
        .find(|c| c.starts_with("set_volume:s:"))
        .expect("volume call");
    assert!(volume_call.ends_with(":1000"));
    assert!(calls.iter().any(|c| c == "set_muted:s:false"));
    assert!(calls.iter().any(|c| c == "set_muted:s:true"));
}

#[test]
fn a_change_reaches_every_copy() {
    let mut desktop = SystemVolumePlugin::new();
    desktop.enable_session_backend(&vec![sink("a", "A", 10, false, true)], true);
    let mut supervisor = Supervisor::new(&desktop);

    let mut phone = SystemVolumePlugin::new();
    let wants = vec!["kdeconnect.systemvolume".to_string()];
    let none: Vec<String> = Vec::new();
    for packet in sync_peers(&desktop, &wants, &none) {
        phone.handle_packet("desktop", &packet);
    }
    assert_eq!(phone.get_sink("desktop", "a").expect("sink").volume, Some(10));

    let push = supervisor.push_local_state(&mut desktop, &vec![sink("a", "A", 20, true, true)]);
    assert!(push.list.is_none());
    assert_eq!(push.deltas.len(), 2);
    for packet in &push.deltas {
        phone.handle_packet("desktop", packet);
    }
    let copy = phone.get_sink("desktop", "a").expect("sink");
    assert_eq!(copy.volume, Some(20));
    assert_eq!(copy.muted, Some(true));
    assert_eq!(desktop.get_local_sink("a").expect("sink").volume, Some(20));
}

#[test]
fn a_new_sink_or_default_is_told_with_a_list() {
    let mut desktop = SystemVolumePlugin::new();
    desktop.enable_session_backend(&vec![sink("a", "A", 10, false, true)], true);
    let mut supervisor = Supervisor::new(&desktop);
    let push = supervisor.push_local_state(
        &mut desktop,
        &vec![sink("b", "B", 1, false, false), sink("a", "A", 10, false, true)],
    );
    assert!(push.deltas.is_empty());
    let list = push.list.expect("list");
    let names: Vec<&str> = list_of(&list)
        .iter()
        .map(|s| s.as_ref().unwrap().name.as_str())
        .collect();
    assert_eq!(names, vec!["a", "b"]);
    assert_eq!(push.sinks.len(), 2);

    let moved = supervisor.push_local_state(
        &mut desktop,
        &vec![sink("b", "B", 1, false, true), sink("a", "A", 10, false, false)],
    );
    assert_eq!(moved.deltas.len(), 2);
    assert!(moved.list.is_some());
    assert_eq!(desktop.get_default_sink().as_deref(), Some("b"));

    let gone = supervisor.push_local_state(&mut desktop, &vec![sink("b", "B", 1, false, true)]);
    assert!(gone.list.is_some());
}

#[test]
fn peers_are_greeted_by_what_they_take_and_send() {
    let desktop = SystemVolumePlugin::new();
    let state = vec!["kdeconnect.systemvolume".to_string()];
    let none: Vec<String> = vec!["kdeconnect.ping".to_string()];
    assert!(sync_peers(&desktop, &none, &none).is_empty());
    let asked = sync_peers(&desktop, &none, &state);
    assert_eq!(asked.len(), 1);
    assert_eq!(asked[0].packet_type, "kdeconnect.systemvolume.request");
    assert_eq!(asked[0].get_bool("requestSinks"), Some(true));
    assert_eq!(sync_peers(&desktop, &state, &state).len(), 2);
}

#[test]
fn every_connection_is_greeted_once() {
    let mut supervisor = Supervisor::new(&SystemVolumePlugin::new());
    let both = vec!["a".to_string(), "b".to_string()];
    let only_b = vec!["b".to_string()];
    assert_eq!(supervisor.unsynced(&both), both);
    for device in both.clone() {
        supervisor.mark_synced(device);
    }
    assert!(supervisor.unsynced(&both).is_empty());
    assert!(supervisor.unsynced(&only_b).is_empty());
    assert_eq!(supervisor.unsynced(&both), vec!["a".to_string()]);
}

#[test]
fn waits_double_up_to_a_limit_and_start_over_when_healthy() {
    let mut supervisor = Supervisor::new(&SystemVolumePlugin::new());
    assert_eq!(supervisor.restart_delay(0), INITIAL_BACKOFF_MS);
    assert_eq!(supervisor.restart_delay(0), 1_000);
    assert_eq!(supervisor.restart_delay(4_999), 2_000);
    for _ in 0..4 {
        supervisor.restart_delay(0);
    }
    assert_eq!(supervisor.restart_delay(0), MAX_BACKOFF_MS);
    assert_eq!(supervisor.restart_delay(0), MAX_BACKOFF_MS);
    assert_eq!(supervisor.restart_delay(5_000), INITIAL_BACKOFF_MS);
}

#[test]
fn peers_are_looked_after_following_everything_but_the_end_of_a_watch() {
    let mut supervisor = Supervisor::new(&SystemVolumePlugin::new());
    let heard = |line: &str| WatchEvent::Heard(parse_subscribe_line(line).expect("event"));
    assert_eq!(
        supervisor.watch_step(heard("Event 'change' on sink #0 'speaker'")),
        WatchAction::ListThenSync
    );
    assert_eq!(
        supervisor.watch_step(heard("Event 'new' on client #42")),
        WatchAction::Sync
    );
    assert_eq!(supervisor.watch_step(WatchEvent::Tick), WatchAction::Sync);
    for delay_ms in [500, 1_000, 2_000] {
        assert_eq!(
            supervisor.watch_step(WatchEvent::Ended { lasted_ms: 10 }),
            WatchAction::WaitThenSubscribe { delay_ms }
        );
    }
    assert_eq!(
        supervisor.watch_step(WatchEvent::Ended { lasted_ms: 5_000 }),
        WatchAction::WaitThenSubscribe { delay_ms: 500 }
    );
}

#[test]
fn watching_starts_once_links_and_server_are_there() {
    let mut plugin = SystemVolumePlugin::new();
    assert!(!plugin.try_start_watcher());
    plugin.set_backend(true);
    assert!(!plugin.try_start_watcher());
    plugin.with_connection_manager();
    assert!(plugin.try_start_watcher());
    plugin.watcher_started();
    assert!(!plugin.try_start_watcher());
}
