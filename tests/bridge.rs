use tuya_to_mqtt::command::{build_command, parse_bool, DpCommand, DpValue};
use tuya_to_mqtt::config::{
    parse_dp_type, sanitize_topic_name, Config, ConfigError, DeviceConfig, DpInfo, DpType,
    MqttConfig, TuyaConfig,
};
use tuya_to_mqtt::publish::{plan_publish, DedupCache, DpUpdate, MqttMessage};
use tuya_to_mqtt::readings::{readings_of, DeviceMessage, DevicePayload, RawDpValue, TuyaClient};
use tuya_to_mqtt::router::route_command;
use tuya_to_mqtt::session::{DeviceSession, SessionAction, SessionEvent, SessionPhase};
use tuya_to_mqtt::topic::{is_retained, parse_command_topic, state_topic};
use tuya_to_mqtt::translate::{ha_to_tuya, tuya_to_ha};

fn s(x: &str) -> String {
    x.to_string()
}

fn info(code: &str, dp_type: DpType) -> DpInfo {
    DpInfo { code: s(code), dp_type }
}

fn heat_pump() -> DeviceConfig {
    DeviceConfig::from_listing(
        s("dev1"),
        s("k"),
        s("10.0.0.2"),
        Some(s("Solar Heat Pump")),
        vec![
            (s("1"), info("switch", DpType::Boolean)),
            (s("2"), info("target_temp", DpType::Integer)),
            (
                s("3"),
                info("mode", DpType::Enum(vec![s("cold"), s("hot"), s("wind"), s("auto")])),
            ),
            (s("4"), info("fan_speed_enum", DpType::Enum(vec![s("low"), s("mid"), s("high")]))),
            (s("5"), info("fault", DpType::Bitmap)),
        ],
    )
}

fn config(devices: Vec<DeviceConfig>) -> Config {
    Config {
        mqtt: MqttConfig {
            broker_host: s("broker"),
            broker_port: 1883,
            username: None,
            password: None,
            topic_prefix: s("P"),
            client_id: s("bridge"),
        },
        tuya: TuyaConfig { poll_interval_secs: 30 },
        devices,
    }
}

fn dps(cmd: &DpCommand) -> Vec<(String, DpValue)> {
    cmd.dps.clone()
}

#[test]
fn parse_topic_well_formed() {
    assert_eq!(
        parse_command_topic("P/kitchen/command/mode", "P"),
        Some((s("kitchen"), s("mode")))
    );
}

#[test]
fn parse_topic_rejects_state_topic() {
    assert_eq!(parse_command_topic("P/kitchen/state/mode", "P"), None);
}

#[test]
fn parse_topic_rejects_other_prefix() {
    assert_eq!(parse_command_topic("Other/kitchen/command/mode", "P"), None);
}

#[test]
fn parse_topic_rejects_empty_code() {
    assert_eq!(parse_command_topic("P/kitchen/command/", "P"), None);
}

#[test]
fn parse_topic_rejects_empty_name_and_missing_slash() {
    assert_eq!(parse_command_topic("P//command/mode", "P"), None);
    assert_eq!(parse_command_topic("Pkitchen/command/mode", "P"), None);
    assert_eq!(parse_command_topic("P/kitchen", "P"), None);
    assert_eq!(
        parse_command_topic("tuya/heat_pump/command/fan/speed", "tuya"),
        Some((s("heat_pump"), s("fan/speed")))
    );
}

#[test]
fn mode_off_only_switches_off() {
    let cmd = build_command(&heat_pump(), "mode", "off", None).unwrap();
    assert_eq!(dps(&cmd), vec![(s("1"), DpValue::Bool(false))]);
}

#[test]
fn mode_heat_switches_on_and_sets_mode() {
    let cmd = build_command(&heat_pump(), "mode", "heat", None).unwrap();
    assert_eq!(
        dps(&cmd),
        vec![(s("1"), DpValue::Bool(true)), (s("3"), DpValue::Text(s("hot")))]
    );
}

#[test]
fn mode_without_switch_is_plain_enum() {
    let dev = DeviceConfig::from_listing(
        s("d"),
        s("k"),
        s("10.0.0.3"),
        None,
        vec![(s("3"), info("mode", DpType::Enum(vec![])))],
    );
    let cmd = build_command(&dev, "mode", "cool", None).unwrap();
    assert_eq!(dps(&cmd), vec![(s("3"), DpValue::Text(s("cold")))]);
}

#[test]
fn boolean_coercion() {
    assert_eq!(parse_bool("on"), Some(true));
    assert_eq!(parse_bool("0"), Some(false));
    assert_eq!(parse_bool("maybe"), None);
    assert_eq!(parse_bool("true"), Some(true));
    assert_eq!(parse_bool("1"), Some(true));
    assert_eq!(parse_bool("false"), Some(false));
    assert_eq!(parse_bool("off"), Some(false));
    assert_eq!(parse_bool("ON"), None);
}

#[test]
fn boolean_command() {
    let dev = heat_pump();
    let cmd = build_command(&dev, "switch", "on", None).unwrap();
    assert_eq!(dps(&cmd), vec![(s("1"), DpValue::Bool(true))]);
    assert!(build_command(&dev, "switch", "maybe", None).is_none());
}

#[test]
fn integer_command() {
    let dev = heat_pump();
    let cmd = build_command(&dev, "target_temp", "21", None).unwrap();
    assert_eq!(dps(&cmd), vec![(s("2"), DpValue::Int(21))]);
    let cmd = build_command(&dev, "target_temp", "-5", None).unwrap();
    assert_eq!(dps(&cmd), vec![(s("2"), DpValue::Int(-5))]);
    let cmd = build_command(&dev, "target_temp", "+7", None).unwrap();
    assert_eq!(dps(&cmd), vec![(s("2"), DpValue::Int(7))]);
}

#[test]
fn integer_command_falls_back_to_truncated_float() {
    let dev = heat_pump();
    let truncated = "21.7".parse::<f64>().ok().map(|f| f as i64);
    let cmd = build_command(&dev, "target_temp", "21.7", truncated).unwrap();
    assert_eq!(dps(&cmd), vec![(s("2"), DpValue::Int(21))]);
    assert!(build_command(&dev, "target_temp", "warm", None).is_none());
}

#[test]
fn enum_command_translates_value() {
    let dev = heat_pump();
    let cmd = build_command(&dev, "fan_speed_enum", "medium", None).unwrap();
    assert_eq!(dps(&cmd), vec![(s("4"), DpValue::Text(s("mid")))]);
    // values outside the declared range are still sent
    let cmd = build_command(&dev, "fan_speed_enum", "turbo", None).unwrap();
    assert_eq!(dps(&cmd), vec![(s("4"), DpValue::Text(s("turbo")))]);
}

#[test]
fn bitmap_and_unknown_codes_give_no_command() {
    let dev = heat_pump();
    assert!(build_command(&dev, "fault", "1", None).is_none());
    assert!(build_command(&dev, "volume", "1", None).is_none());
}

#[test]
fn enum_tables() {
    assert_eq!(ha_to_tuya("mode", "cool"), "cold");
    assert_eq!(ha_to_tuya("mode", "heat"), "hot");
    assert_eq!(ha_to_tuya("mode", "fan_only"), "wind");
    assert_eq!(ha_to_tuya("mode", "auto"), "auto");
    assert_eq!(ha_to_tuya("fan_speed_enum", "medium"), "mid");
    assert_eq!(ha_to_tuya("other", "cool"), "cool");
    assert_eq!(tuya_to_ha("mode", "cold"), "cool");
    assert_eq!(tuya_to_ha("mode", "hot"), "heat");
    assert_eq!(tuya_to_ha("mode", "wind"), "fan_only");
    assert_eq!(tuya_to_ha("fan_speed_enum", "mid"), "medium");
    assert_eq!(tuya_to_ha("other", "mid"), "mid");
}

#[test]
fn enum_round_trip_on_declared_range() {
    for v in ["cold", "hot", "wind", "auto"] {
        assert_eq!(ha_to_tuya("mode", &tuya_to_ha("mode", v)), v);
    }
    for v in ["low", "mid", "high"] {
        assert_eq!(ha_to_tuya("fan_speed_enum", &tuya_to_ha("fan_speed_enum", v)), v);
    }
    assert_eq!(ha_to_tuya("power", &tuya_to_ha("power", "cold")), "cold");
}

#[test]
fn repeated_value_published_once() {
    let mut cache = DedupCache::new();
    let u1 = DpUpdate { topic_name: s("kitchen"), dp_code: s("mode"), value: s("heat") };
    let u2 = u1.clone();
    assert!(plan_publish(&mut cache, "P", &u1).is_some());
    assert!(plan_publish(&mut cache, "P", &u2).is_none());
}

#[test]
fn changed_value_published_twice() {
    let mut cache = DedupCache::new();
    let u1 = DpUpdate { topic_name: s("kitchen"), dp_code: s("mode"), value: s("heat") };
    let u2 = DpUpdate { topic_name: s("kitchen"), dp_code: s("mode"), value: s("cool") };
    assert!(plan_publish(&mut cache, "P", &u1).is_some());
    assert!(plan_publish(&mut cache, "P", &u2).is_some());
    assert!(plan_publish(&mut cache, "P", &u1).is_some());
}

#[test]
fn dedup_keys_are_separate() {
    let mut cache = DedupCache::new();
    assert!(cache.observe("a", "x", "1"));
    assert!(cache.observe("b", "x", "1"));
    assert!(cache.observe("a", "y", "1"));
    assert!(!cache.observe("a", "x", "1"));
    assert!(!cache.observe("b", "x", "1"));
}

#[test]
fn telemetry_not_retained() {
    assert!(!is_retained("solar_power"));
    assert!(!is_retained("grid_power"));
    assert!(!is_retained("grid_percent"));
    assert!(is_retained("switch"));
    let mut cache = DedupCache::new();
    let u = DpUpdate { topic_name: s("pump"), dp_code: s("grid_power"), value: s("120") };
    let p = plan_publish(&mut cache, "P", &u).unwrap();
    assert_eq!(p.topic, "P/pump/state/grid_power");
    assert_eq!(p.payload, "120");
    assert!(!p.retain);
}

#[test]
fn backoff_sequence() {
    let mut sess = DeviceSession::new();
    let mut waits = Vec::new();
    for _ in 0..7 {
        match sess.on_event(SessionEvent::ConnectFailed) {
            SessionAction::Reconnect { delay_secs } => waits.push(delay_secs),
            other => panic!("unexpected action {:?}", other),
        }
    }
    assert_eq!(waits, vec![5, 10, 20, 40, 60, 60, 60]);
}

#[test]
fn backoff_resets_after_active_period() {
    let mut sess = DeviceSession::new();
    sess.on_event(SessionEvent::ConnectFailed);
    sess.on_event(SessionEvent::ConnectFailed);
    assert_eq!(sess.on_event(SessionEvent::Connected), SessionAction::QueryAll);
    assert_eq!(sess.phase, SessionPhase::Active);
    assert_eq!(
        sess.on_event(SessionEvent::StreamEnded),
        SessionAction::Reconnect { delay_secs: 5 }
    );
    assert_eq!(sess.phase, SessionPhase::Connecting);
}

#[test]
fn active_session_events() {
    let mut sess = DeviceSession::new();
    sess.on_event(SessionEvent::Connected);
    assert_eq!(sess.on_event(SessionEvent::HeartbeatDue), SessionAction::SendHeartbeat);
    assert_eq!(sess.on_event(SessionEvent::PollDue), SessionAction::QueryAll);
    assert_eq!(sess.on_event(SessionEvent::MessagesReceived), SessionAction::ForwardReadings);
    assert_eq!(sess.on_event(SessionEvent::CommandReceived), SessionAction::WriteCommand);
    assert_eq!(sess.on_event(SessionEvent::CommandWriteFailed), SessionAction::Continue);
    assert_eq!(sess.phase, SessionPhase::Active);
    assert_eq!(
        sess.on_event(SessionEvent::HeartbeatFailed),
        SessionAction::Reconnect { delay_secs: 5 }
    );
    assert_eq!(
        sess.on_event(SessionEvent::ConnectFailed),
        SessionAction::Reconnect { delay_secs: 10 }
    );
}

#[test]
fn end_to_end_readings_are_published() {
    let dev = DeviceConfig::from_listing(
        s("d"),
        s("k"),
        s("10.0.0.4"),
        Some(s("Kitchen")),
        vec![
            (s("1"), info("switch", DpType::Boolean)),
            (s("2"), info("target_temp", DpType::Integer)),
        ],
    );
    let client = TuyaClient::new(dev);
    let readings = vec![
        (s("1"), RawDpValue::Bool(true)),
        (s("2"), RawDpValue::Number(s("21"))),
    ];
    let updates = client.process_message(&readings);
    assert_eq!(updates.len(), 2);
    assert_eq!(updates[0].dp_code, "switch");
    assert_eq!(updates[0].value, "true");
    assert_eq!(updates[1].dp_code, "target_temp");
    assert_eq!(updates[1].value, "21");
    let mut cache = DedupCache::new();
    let topics: Vec<String> = updates
        .iter()
        .filter_map(|u| plan_publish(&mut cache, "P", u))
        .map(|p| p.topic)
        .collect();
    assert_eq!(topics, vec![s("P/kitchen/state/switch"), s("P/kitchen/state/target_temp")]);
}

#[test]
fn readings_translate_and_keep_unknown_ids() {
    let client = TuyaClient::new(heat_pump());
    let readings = vec![
        (s("3"), RawDpValue::Text(s("hot"))),
        (s("99"), RawDpValue::Text(s("hot"))),
        (s("5"), RawDpValue::Other(s("[1,2]"))),
        (s("1"), RawDpValue::Bool(false)),
    ];
    let updates = client.process_message(&readings);
    assert_eq!(updates[0].topic_name, "solar_heat_pump");
    assert_eq!((updates[0].dp_code.as_str(), updates[0].value.as_str()), ("mode", "heat"));
    assert_eq!((updates[1].dp_code.as_str(), updates[1].value.as_str()), ("99", "hot"));
    assert_eq!((updates[2].dp_code.as_str(), updates[2].value.as_str()), ("fault", "[1,2]"));
    assert_eq!((updates[3].dp_code.as_str(), updates[3].value.as_str()), ("switch", "false"));
}

#[test]
fn sanitize_names() {
    assert_eq!(sanitize_topic_name("Solar Heat Pump"), "solar_heat_pump");
    assert_eq!(sanitize_topic_name("  Living-Room #2 "), "living_room__2");
    assert_eq!(sanitize_topic_name("___"), "");
    assert_eq!(sanitize_topic_name("Café"), "caf");
}

#[test]
fn device_from_listing() {
    let dev = heat_pump();
    assert_eq!(dev.name, "Solar Heat Pump");
    assert_eq!(dev.topic_name, "solar_heat_pump");
    assert_eq!(dev.reverse_mapping[2], (s("mode"), s("3")));
    let unnamed = DeviceConfig::from_listing(s("abc123"), s("k"), s("1.2.3.4"), None, vec![]);
    assert_eq!(unnamed.name, "abc123");
    assert_eq!(unnamed.topic_name, "abc123");
}

#[test]
fn dp_types_from_names() {
    assert!(matches!(parse_dp_type("Boolean", vec![]), DpType::Boolean));
    assert!(matches!(parse_dp_type("Integer", vec![]), DpType::Integer));
    assert!(matches!(parse_dp_type("Bitmap", vec![]), DpType::Bitmap));
    assert!(matches!(parse_dp_type("String", vec![]), DpType::Integer));
    match parse_dp_type("Enum", vec![s("a"), s("b")]) {
        DpType::Enum(r) => assert_eq!(r, vec![s("a"), s("b")]),
        other => panic!("unexpected {:?}", other),
    }
}

#[test]
fn config_validation() {
    assert_eq!(config(vec![heat_pump()]).validate(), Ok(()));
    let mut c = config(vec![heat_pump()]);
    c.mqtt.broker_host = s("");
    assert_eq!(c.validate(), Err(ConfigError::EmptyBrokerHost));
    assert_eq!(config(vec![]).validate(), Err(ConfigError::NoDevices));
    let mut c = config(vec![heat_pump()]);
    c.tuya.poll_interval_secs = 0;
    assert_eq!(c.validate(), Err(ConfigError::ZeroPollInterval));
}

#[test]
fn topics() {
    let c = config(vec![heat_pump()]);
    assert_eq!(c.device_status_topic("pump"), "P/pump/bridge_status");
    assert_eq!(c.device_command_topic("pump"), "P/pump/command/#");
    assert_eq!(c.last_will_topic(), "P/bridge_status");
    assert_eq!(c.status_topics(), vec![s("P/bridge_status")]);
    let mut other = heat_pump();
    other.topic_name = s("garage");
    let two = config(vec![heat_pump(), other]);
    assert_eq!(two.last_will_topic(), "P/bridge_status");
    assert_eq!(
        two.status_topics(),
        vec![s("P/solar_heat_pump/bridge_status"), s("P/garage/bridge_status")]
    );
    assert_eq!(state_topic("P", "pump", "mode"), "P/pump/state/mode");
}

#[test]
fn routing() {
    let devices = vec![heat_pump()];
    let msg = MqttMessage { topic: s("P/solar_heat_pump/command/target_temp"), payload: s("23") };
    let (i, cmd) = route_command(&devices, "P", &msg, None).unwrap();
    assert_eq!(i, 0);
    assert_eq!(dps(&cmd), vec![(s("2"), DpValue::Int(23))]);
    let unknown = MqttMessage { topic: s("P/garage/command/switch"), payload: s("on") };
    assert!(route_command(&devices, "P", &unknown, None).is_none());
    let bad = MqttMessage { topic: s("P/solar_heat_pump/state/switch"), payload: s("on") };
    assert!(route_command(&devices, "P", &bad, None).is_none());
}

#[test]
fn integer_command_at_the_bounds() {
    let dev = heat_pump();
    let cmd = build_command(&dev, "target_temp", "9223372036854775807", None).unwrap();
    assert_eq!(dps(&cmd), vec![(s("2"), DpValue::Int(i64::MAX))]);
    let cmd = build_command(&dev, "target_temp", "-9223372036854775808", None).unwrap();
    assert_eq!(dps(&cmd), vec![(s("2"), DpValue::Int(i64::MIN))]);
    assert!(build_command(&dev, "target_temp", "9223372036854775808", None).is_none());
    assert!(build_command(&dev, "target_temp", "", None).is_none());
}

fn pairs(v: &[(String, RawDpValue)]) -> Vec<(String, String)> {
    v.iter()
        .map(|(k, x)| {
            let t = match x {
                RawDpValue::Bool(b) => format!("bool:{b}"),
                RawDpValue::Number(n) => format!("num:{n}"),
                RawDpValue::Text(t) => format!("text:{t}"),
                RawDpValue::Other(o) => format!("other:{o}"),
            };
            (k.clone(), t)
        })
        .collect()
}

#[test]
fn readings_of_each_payload_shape() {
    let text = DevicePayload::Text(s(r#"{"devId":"d","dps":{"1":true,"2":21,"3":"hot","4":[1]}}"#));
    assert_eq!(
        pairs(&readings_of(&text)),
        vec![
            (s("1"), s("bool:true")),
            (s("2"), s("num:21")),
            (s("3"), s("text:hot")),
            (s("4"), s("other:[1]")),
        ]
    );
    assert!(readings_of(&DevicePayload::Text(s("not json"))).is_empty());
    assert!(readings_of(&DevicePayload::Text(s(r#"{"dps":5}"#))).is_empty());
    assert!(readings_of(&DevicePayload::Text(s(r#"{"other":{}}"#))).is_empty());
    assert!(readings_of(&DevicePayload::Raw).is_empty());
    assert!(readings_of(&DevicePayload::Struct(None)).is_empty());
    let st = DevicePayload::Struct(Some(vec![(s("1"), RawDpValue::Bool(false))]));
    assert_eq!(pairs(&readings_of(&st)), vec![(s("1"), s("bool:false"))]);
}

#[test]
fn process_messages_skips_heartbeats() {
    let client = TuyaClient::new(heat_pump());
    let msgs = vec![
        DeviceMessage {
            heartbeat: true,
            payload: DevicePayload::Struct(Some(vec![(s("1"), RawDpValue::Bool(true))])),
        },
        DeviceMessage {
            heartbeat: false,
            payload: DevicePayload::Text(s(r#"{"dps":{"3":"wind"}}"#)),
        },
        DeviceMessage { heartbeat: false, payload: DevicePayload::Raw },
        DeviceMessage {
            heartbeat: false,
            payload: DevicePayload::Struct(Some(vec![(s("2"), RawDpValue::Number(s("19")))])),
        },
    ];
    let updates = client.process_messages(&msgs);
    let got: Vec<(String, String)> =
        updates.iter().map(|u| (u.dp_code.clone(), u.value.clone())).collect();
    assert_eq!(got, vec![(s("mode"), s("fan_only")), (s("target_temp"), s("19"))]);
}
