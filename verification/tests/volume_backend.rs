use rust_connect::error::Error;
use rust_connect::plugins::systemvolume::backend::{
    default_sink_name, list_sinks, mark_default, pactl_args, pactl_failed, parse_subscribe_line,
    quoted_field, BackendOp, LocalSinkState, MockBackend, PactlSink, SubscribeEvent,
    PA_VOLUME_NORM,
};

fn local(name: &str) -> LocalSinkState {
    LocalSinkState {
        name: name.to_string(),
        ..Default::default()
    }
}

/// A sink of `pactl --format=json list sinks`, as the program reads it.
fn pactl_sink(entry: &serde_json::Value) -> PactlSink {
    PactlSink {
        name: entry["name"].as_str().expect("name").to_string(),
        description: entry["description"].as_str().map(String::from),
        volume: entry
            .get("volume")
            .and_then(|v| v.as_object())
            .map(|m| m.values().map(|c| c["value"].as_i64()).collect()),
        mute: entry["mute"].as_bool(),
    }
}

fn pactl_sinks(text: &str) -> Vec<PactlSink> {
    let parsed: serde_json::Value = serde_json::from_str(text).expect("parse");
    parsed
        .as_array()
        .expect("array")
        .iter()
        .map(pactl_sink)
        .collect()
}

#[test]
fn parse_subscribe_change_event() {
    let line = "Event 'change' on sink #0 'alsa_output.pci-0000_00_1f.3.analog-stereo'";
    match parse_subscribe_line(line).expect("parsed") {
        SubscribeEvent::SinkChanged { name } => {
            assert_eq!(
                name.as_deref(),
                Some("alsa_output.pci-0000_00_1f.3.analog-stereo")
            );
        }
        other => panic!("expected SinkChanged, got {other:?}"),
    }
}

#[test]
fn parse_subscribe_change_event_pipewire_no_name() {
    let line = "Event 'change' on sink #2516";
    match parse_subscribe_line(line).expect("parsed") {
        SubscribeEvent::SinkChanged { name } => assert_eq!(name, None),
        other => panic!("expected SinkChanged, got {other:?}"),
    }
}

#[test]
fn parse_subscribe_card_event_maps_to_sink_change() {
    let line = "Event 'change' on card #55";
    match parse_subscribe_line(line).expect("parsed") {
        SubscribeEvent::SinkChanged { name } => assert_eq!(name, None),
        other => panic!("expected SinkChanged, got {other:?}"),
    }
}

#[test]
fn parse_subscribe_server_event_maps_to_default_change() {
    let line = "Event 'change' on server";
    match parse_subscribe_line(line).expect("parsed") {
        SubscribeEvent::DefaultSinkChanged { name } => assert_eq!(name, None),
        other => panic!("expected DefaultSinkChanged, got {other:?}"),
    }
}

#[test]
fn parse_subscribe_new_event() {
    let line = "Event 'new' on sink #42 'foo'";
    assert!(matches!(
        parse_subscribe_line(line).expect("parsed"),
        SubscribeEvent::SinkAdded { name } if name.as_deref() == Some("foo")
    ));
}

#[test]
fn parse_subscribe_remove_event() {
    let line = "Event 'remove' on sink #42 'foo'";
    assert!(matches!(
        parse_subscribe_line(line).expect("parsed"),
        SubscribeEvent::SinkRemoved { name } if name.as_deref() == Some("foo")
    ));
}

#[test]
fn parse_subscribe_unclassified_event_passes_through() {
    let line = "Event 'change' on client #3693";
    match parse_subscribe_line(line).expect("parsed") {
        SubscribeEvent::Unclassified { .. } => {}
        other => panic!("expected Unclassified, got {other:?}"),
    }
}

#[test]
fn parse_subscribe_garbage_returns_none() {
    assert!(parse_subscribe_line("random noise").is_none());
    assert!(parse_subscribe_line("").is_none());
}

#[test]
fn unknown_verbs_are_unclassified() {
    for line in [
        "Event 'frobnicate' on sink #1 'x'",
        "Event 'remove' on server",
        "Event 'frobnicate' on card #1",
        "Event 'change' on sink-input #7",
    ] {
        match parse_subscribe_line(line).expect("parsed") {
            SubscribeEvent::Unclassified { line: kept } => assert_eq!(kept, line),
            other => panic!("expected Unclassified, got {other:?}"),
        }
    }
}

#[test]
fn surrounding_space_is_no_part_of_a_line() {
    match parse_subscribe_line("  Event 'change' on client #1 \n").expect("parsed") {
        SubscribeEvent::Unclassified { line } => assert_eq!(line, "Event 'change' on client #1"),
        other => panic!("expected Unclassified, got {other:?}"),
    }
}

#[test]
fn quoted_field_splits_at_the_closing_quote() {
    let (field, rest) = quoted_field("'a b' tail 'x'").expect("quoted");
    assert_eq!(field, "a b");
    assert_eq!(rest, " tail 'x'");
    assert!(quoted_field("a'b'").is_none());
    assert!(quoted_field("'open").is_none());
    assert_eq!(quoted_field("''").expect("empty").0, "");
}

const REAL_PACTL_LIST_SINKS: &str = r#"[
        {
            "index": 68,
            "name": "alsa_output.pci-0000_00_1f.3-platform-skl_hda_dsp_generic.HiFi__Headphones__sink",
            "description": "700 Series Chipset Family HD Audio Headphones",
            "mute": false,
            "volume": {
                "front-left": {
                    "value": 32760,
                    "value_percent": "50%",
                    "db": "-18.07 dB"
                },
                "front-right": {
                    "value": 32760,
                    "value_percent": "50%",
                    "db": "-18.07 dB"
                }
            },
            "state": "SUSPENDED"
        },
        {
            "index": 2516,
            "name": "alsa_output.pci-0000_01_00.1.hdmi-stereo",
            "description": "AD104 High Definition Audio Controller Digital Stereo (HDMI)",
            "mute": false,
            "volume": {
                "front-left": {
                    "value": 29437,
                    "value_percent": "45%",
                    "db": "-20.86 dB"
                },
                "front-right": {
                    "value": 29437,
                    "value_percent": "45%",
                    "db": "-20.86 dB"
                }
            },
            "state": "SUSPENDED"
        }
    ]"#;

#[test]
fn parse_pactl_sink_list_json() {
    let parsed = pactl_sinks(REAL_PACTL_LIST_SINKS);
    assert_eq!(parsed.len(), 2);
    let converted: Vec<LocalSinkState> = parsed.iter().map(|s| s.to_state(65_536)).collect();
    assert_eq!(
        converted[0].name,
        "alsa_output.pci-0000_00_1f.3-platform-skl_hda_dsp_generic.HiFi__Headphones__sink"
    );
    assert_eq!(converted[0].volume, Some(32_760));
    assert_eq!(converted[0].muted, Some(false));
    assert_eq!(converted[0].enabled, None);
    assert_eq!(converted[1].volume, Some(29_437));
    assert_eq!(converted[1].muted, Some(false));
}

#[test]
fn parse_pactl_sink_list_unknown_fields_ignored() {
    let raw = r#"[{
            "index": 1,
            "name": "s",
            "description": "d",
            "mute": false,
            "volume": { "front-left": { "value": 65536, "value_percent": "100%", "db": "0.00 dB" } },
            "state": "RUNNING",
            "future_field": "ignored"
        }]"#;
    let parsed = pactl_sinks(raw);
    assert_eq!(parsed.len(), 1);
    assert_eq!(parsed[0].to_state(65_536).volume, Some(65_536));
}

#[test]
fn parse_pactl_sink_list_missing_volume() {
    let raw = r#"[{ "name": "s", "description": "d", "mute": true }]"#;
    let parsed = pactl_sinks(raw);
    let state = parsed[0].to_state(65_536);
    assert_eq!(state.volume, Some(0));
    assert_eq!(state.muted, Some(true));
}

#[test]
fn the_loudest_channel_counts() {
    let sink = PactlSink {
        name: "s".to_string(),
        description: None,
        volume: Some(vec![Some(10), None, Some(30), Some(20)]),
        mute: None,
    };
    let state = sink.to_state(PA_VOLUME_NORM);
    assert_eq!(state.volume, Some(30));
    assert_eq!(state.max_volume, Some(65_536));
}

#[test]
fn mark_default_sets_enabled_only_on_match() {
    let mut states = vec![
        LocalSinkState {
            name: "a".to_string(),
            description: None,
            volume: Some(0),
            max_volume: Some(65_536),
            muted: None,
            enabled: None,
        },
        LocalSinkState {
            name: "b".to_string(),
            description: None,
            volume: Some(0),
            max_volume: Some(65_536),
            muted: None,
            enabled: None,
        },
    ];
    mark_default(&mut states, Some("b"));
    assert_eq!(states[0].enabled, Some(false));
    assert_eq!(states[1].enabled, Some(true));
    mark_default(&mut states, None);
    assert_eq!(states[0].enabled, Some(false));
    assert_eq!(states[1].enabled, Some(true));
}

#[test]
fn listed_sinks_know_the_default() {
    let sinks = pactl_sinks(REAL_PACTL_LIST_SINKS);
    let default = default_sink_name("alsa_output.pci-0000_01_00.1.hdmi-stereo\n");
    let listed = list_sinks(&sinks, PA_VOLUME_NORM, default.as_deref());
    assert_eq!(listed[0].enabled, Some(false));
    assert_eq!(listed[1].enabled, Some(true));
    let unknown = list_sinks(&sinks, PA_VOLUME_NORM, default_sink_name(" \n").as_deref());
    assert_eq!(unknown[1].enabled, None);
}

#[test]
fn changes_become_pactl_arguments() {
    let volume = BackendOp::SetVolume {
        name: "s".to_string(),
        volume: 32768,
    };
    assert_eq!(
        pactl_args(&volume),
        Some(vec![
            "set-sink-volume".to_string(),
            "s".to_string(),
            "32768".to_string()
        ])
    );
    let unset = BackendOp::SetDefault {
        name: "s".to_string(),
        enabled: false,
    };
    assert_eq!(pactl_args(&unset), None);
}

#[test]
fn failed_pactl_says_why() {
    match pactl_failed("info", Some(1), " no daemon \n") {
        Error::Io { message, path } => {
            assert_eq!(
                message,
                "pactl info exited with status Some(1): no daemon"
            );
            assert_eq!(path, None);
        }
        other => panic!("expected Io, got {other:?}"),
    }
}

#[test]
fn mock_backend_list_sinks_returns_clone() {
    let sinks = vec![LocalSinkState {
        name: "foo".to_string(),
        description: Some("Foo".to_string()),
        volume: Some(32_768),
        max_volume: Some(65_536),
        muted: Some(false),
        enabled: Some(true),
    }];
    let backend = MockBackend::new().with_sinks(sinks).with_default("foo");
    let got = backend.list_sinks().expect("list");
    assert_eq!(got.len(), 1);
    assert_eq!(got[0].name, "foo");
    assert_eq!(got[0].enabled, Some(true));
}

#[test]
fn mock_backend_set_volume_records_call() {
    let mut backend = MockBackend::new().with_sinks(vec![local("foo")]);
    backend.set_volume("foo", 12345).expect("set");
    assert_eq!(backend.calls(), vec!["set_volume:foo:12345".to_string()]);
}

#[test]
fn mock_backend_set_volume_unknown_sink_errors() {
    let mut backend = MockBackend::new();
    let err = backend.set_volume("ghost", 1).unwrap_err();
    assert!(matches!(err, Error::NotFound { .. }));
    assert!(backend.calls().is_empty());
}

#[test]
fn mock_backend_subscribe_starts_and_accepts_events() {
    let mut backend = MockBackend::new();
    backend.push_event(SubscribeEvent::SinkAdded { name: None });
    backend.start_subscribe().expect("start");
    backend.push_event(SubscribeEvent::SinkAdded {
        name: Some("x".to_string()),
    });
    let events = backend.events.expect("watched");
    assert_eq!(events.len(), 1);
    assert!(
        matches!(&events[0], SubscribeEvent::SinkAdded { name } if name.as_deref() == Some("x"))
    );
}

#[test]
fn mock_backend_unavailable_blocks_list() {
    let mut backend = MockBackend::new();
    backend.set_available(false);
    let err = backend.list_sinks().unwrap_err();
    assert!(matches!(err, Error::Io { .. }));
}

#[test]
fn test_subscribe_returns_err_when_force_fail() {
    let mut backend = MockBackend::new();
    backend.force_subscribe_error = true;
    let r = backend.start_subscribe();
    assert!(r.is_err());
}

#[test]
fn mock_backend_keeps_one_default() {
    let mut backend = MockBackend::new().with_sinks(vec![local("a"), local("b")]);
    backend.set_default("a", true).expect("set");
    backend.set_default("b", false).expect("set");
    assert_eq!(backend.list_sinks().expect("list")[0].enabled, Some(true));
    backend.set_default("a", false).expect("set");
    assert_eq!(backend.list_sinks().expect("list")[0].enabled, Some(false));
}
