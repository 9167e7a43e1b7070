use ruuvi_gateway::cnc::{BluetoothConfig, CNCCommand, CNCCommandMessage, CollectConfig,
    IOTCoreCNCMessageKind};
use ruuvi_gateway::configfile::{AppConfig, IdentityConfig, IotCoreConfig, PemError};
use ruuvi_gateway::iotcore::{reset_command, BeaconDisposition, CommandDecision, ConfigDecision,
    IotCoreClient};
use ruuvi_gateway::jsonin::{command_kind_of, parse_cnc_command, parse_collect_config};
use ruuvi_gateway::jsonout::{batch_json, beacon_json, state_json};
use ruuvi_gateway::jwt::{IotCoreAuthToken, JWTPayload, JwtError};
use ruuvi_gateway::mac::MacAddress;
use ruuvi_gateway::ruuvi::RuuviTagDataFormat5;
use ruuvi_gateway::scanner::{BeaconCheck, BluetoothScanner, RuuviBluetoothBeacon,
    ScannerCncOutcome};
use ruuvi_gateway::supervisor::{process_exits_clean, WorkerOutcome};
use ruuvi_gateway::tagmap::TagMap;

fn hx(s: &str) -> Vec<u8> {
    let b = s.as_bytes();
    let mut out = Vec::new();
    let mut i = 0;
    while i + 1 < b.len() {
        let d = |c: u8| -> u8 {
            match c {
                b'0'..=b'9' => c - b'0',
                b'a'..=b'f' => c - b'a' + 10,
                b'A'..=b'F' => c - b'A' + 10,
                _ => panic!("not hex"),
            }
        };
        out.push(d(b[i]) * 16 + d(b[i + 1]));
        i += 2;
    }
    out
}

fn sample_record() -> RuuviTagDataFormat5 {
    RuuviTagDataFormat5::decode(&hx("12FC5394C37C0004FFFC040CAC364200CD")).unwrap()
}

fn sample_beacon(ts: u64) -> RuuviBluetoothBeacon {
    RuuviBluetoothBeacon {
        data: sample_record(),
        timestamp: ts,
        address: MacAddress::from_bytes(&[0xcb, 0xb8, 0x33, 0x4c, 0x88, 0x4f]),
    }
}

fn test_config(collecting: bool, size: Option<usize>, adapter: usize) -> CollectConfig {
    CollectConfig {
        collecting,
        event_subfolder: None,
        stuck_data_threshold: Some(180),
        collection_size: size,
        bluetooth: Some(BluetoothConfig { adapter_index: adapter }),
    }
}

fn test_appconfig() -> AppConfig {
    AppConfig {
        identity: IdentityConfig {
            public_key: "pub.pem".to_string(),
            private_key: "key.pem".to_string(),
            ca_certs: None,
            token_lifetime: Some(3600),
        },
        iotcore: IotCoreConfig {
            device_id: "gw1".to_string(),
            project_id: "proj".to_string(),
            region: "europe-west1".to_string(),
            registry: "reg".to_string(),
        },
    }
}

fn test_client(now: u64) -> IotCoreClient {
    IotCoreClient::build(&test_appconfig(), b"not a real key".to_vec(), now)
}

#[test]
fn client_id_and_topics() {
    let app = test_appconfig();
    assert_eq!(
        app.iotcore.client_id(),
        "projects/proj/locations/europe-west1/registries/reg/devices/gw1"
    );
    let c = test_client(0);
    assert_eq!(c.config_topic, "/devices/gw1/config");
    assert_eq!(c.state_topic, "/devices/gw1/state");
    assert_eq!(c.command_topic_root, "/devices/gw1/commands");
    let (sub1, sub2) = c.subscription_topics();
    assert_eq!(sub1, "/devices/gw1/config");
    assert_eq!(sub2, "/devices/gw1/commands/#");
    let mac = MacAddress::from_bytes(&[0xcb, 0xb8, 0x33, 0x4c, 0x88, 0x4f]);
    assert_eq!(c.device_attach_topic(&mac), "/devices/CB-B8-33-4C-88-4F/attach");
    assert_eq!(c.device_detach_topic(&mac), "/devices/CB-B8-33-4C-88-4F/detach");
}

#[test]
fn dns_record_names() {
    let (p, r, reg) = ruuvi_gateway::configfile::dns_txt_record_names("sensors.example.org");
    assert_eq!(p, "_project_id.sensors.example.org");
    assert_eq!(r, "_region.sensors.example.org");
    assert_eq!(reg, "_registry.sensors.example.org");
}

#[test]
fn token_lifetime_defaults() {
    let mut app = test_appconfig();
    assert_eq!(app.identity.token_lifetime(), 3600);
    app.identity.token_lifetime = None;
    assert_eq!(app.identity.token_lifetime(), 3600);
    app.identity.token_lifetime = Some(120);
    assert_eq!(app.identity.token_lifetime(), 120);
    // A configured zero is not usable: it is clamped to the default.
    app.identity.token_lifetime = Some(0);
    assert_eq!(app.identity.token_lifetime(), 3600);
}

#[test]
fn pem_decoding() {
    let id = test_appconfig().identity;
    assert_eq!(id.key_as_vec(Some("aGVsbG8=")), Ok(b"hello".to_vec()));
    assert_eq!(id.key_as_vec(None), Err(PemError::Unreadable));
    assert_eq!(id.cert_as_vec(Some("!!!not base64!!!")), Err(PemError::Undecodable));
    // No CA bundle configured: nothing to decode, whatever was read.
    assert_eq!(id.ca_as_vec(None), Ok(None));
}

#[test]
fn jwt_lifecycle() {
    let payload = JWTPayload::new(&"proj".to_string(), &3600, 1000);
    assert_eq!(payload.iat, 1000);
    assert_eq!(payload.exp, 4600);
    assert_eq!(payload.claims_json(), b"{\"iat\":1000,\"exp\":4600,\"aud\":\"proj\"}".to_vec());

    let mut factory = IotCoreAuthToken::build(&test_appconfig(), b"garbage".to_vec(), 1000);
    // Within the guard window of expiry the token is invalid.
    assert!(factory.is_valid(60, 1000));
    assert!(factory.is_valid(60, 4540));
    assert!(!factory.is_valid(60, 4541));
    assert!(!factory.is_valid(60, 9999));
    // Unusable key bytes: issuing fails rather than producing a token.
    assert_eq!(factory.issue_new(), Err(JwtError::Signing));
    assert_eq!(factory.renew(2000), Err(JwtError::Signing));
    assert_eq!(factory.payload.iat, 2000);
    assert_eq!(factory.payload.exp, 5600);
}

#[test]
fn command_parsing() {
    assert_eq!(command_kind_of("collect"), Some(CNCCommand::COLLECT));
    assert_eq!(command_kind_of("pause"), Some(CNCCommand::PAUSE));
    assert_eq!(command_kind_of("shutdown"), Some(CNCCommand::SHUTDOWN));
    assert_eq!(command_kind_of("reset"), Some(CNCCommand::RESET));
    assert_eq!(command_kind_of("restart"), None);

    let msg = parse_cnc_command("{\"command\": \"pause\"}").unwrap();
    assert_eq!(msg.command, CNCCommand::PAUSE);
    assert!(parse_cnc_command("{\"command\": 5}").is_none());
    assert!(parse_cnc_command("not json").is_none());
    assert!(parse_cnc_command("{}").is_none());
}

#[test]
fn config_parsing() {
    let doc = "{\n  \"collecting\": true,\n  \"event_subfolder\": \"lab\",\n  \"stuck_data_threshold\": 90,\n  \"collection_size\": 4,\n  \"bluetooth\": {\"adapter_index\": 1}\n}";
    let c = parse_collect_config(doc).unwrap();
    assert!(c.collecting);
    assert_eq!(c.event_subfolder, Some("lab".to_string()));
    assert_eq!(c.stuck_data_threshold, Some(90));
    assert_eq!(c.collection_size, Some(4));
    assert_eq!(c.bluetooth, Some(BluetoothConfig { adapter_index: 1 }));
    assert_eq!(c.collection_size(), 4);

    let minimal = parse_collect_config("{\"collecting\": false}").unwrap();
    assert!(!minimal.collecting);
    assert_eq!(minimal.event_subfolder, None);
    assert_eq!(minimal.collection_size(), 0);

    // A required field of the wrong type rejects the whole document.
    assert!(parse_collect_config("{\"collecting\": 1}").is_none());
    assert!(parse_collect_config("{\"collecting\": true, \"collection_size\": \"x\"}").is_none());
    assert!(parse_collect_config("{}").is_none());
}

#[test]
fn config_equality_suppresses_reconfiguration() {
    let a = test_config(true, Some(1), 0);
    let b = test_config(true, Some(1), 0);
    let c = test_config(true, Some(2), 0);
    assert!(a.same_as(&b));
    assert!(!a.same_as(&c));
    let mut client = test_client(0);
    assert_eq!(client.handle_config_message(Some(a)), ConfigDecision::Apply { enable: true });
    assert_eq!(client.handle_config_message(Some(b)), ConfigDecision::Unchanged);
    assert_eq!(client.handle_config_message(Some(c)), ConfigDecision::Apply { enable: true });
    assert_eq!(client.handle_config_message(None), ConfigDecision::Unchanged);
}

#[test]
fn state_document() {
    let c = test_config(true, Some(1), 0);
    let expected = "{\n  \"collecting\": true,\n  \"event_subfolder\": null,\n  \"stuck_data_threshold\": 180,\n  \"collection_size\": 1,\n  \"bluetooth\": {\n    \"adapter_index\": 0\n  }\n}";
    assert_eq!(state_json(&c), expected.as_bytes().to_vec());
    // The document is well-formed JSON carrying the same values.
    let v: serde_json::Value = serde_json::from_slice(&state_json(&c)).unwrap();
    assert_eq!(v["collecting"], serde_json::Value::Bool(true));
    assert_eq!(v["bluetooth"]["adapter_index"], serde_json::Value::from(0u64));
}

#[test]
fn beacon_event_document() {
    let b = sample_beacon(123);
    let expected = "{\n  \"data\": {\n    \"temperature\": 24.3,\n    \"humidity\": 53.49,\n    \"atmospheric_pressure\": 1000.44,\n    \"acceleration\": {\n      \"on_x_axis\": 4.0,\n      \"on_y_axis\": -4.0,\n      \"on_z_axis\": 1036.0\n    },\n    \"powerinfo\": 2977,\n    \"movement_counter\": 66,\n    \"measurement_sequence_number\": 205\n  },\n  \"timestamp\": \"1970-01-01T00:00:00.123Z\",\n  \"address\": \"CB-B8-33-4C-88-4F\"\n}";
    assert_eq!(String::from_utf8(beacon_json(&b)).unwrap(), expected);
    let v: serde_json::Value = serde_json::from_slice(&beacon_json(&b)).unwrap();
    assert_eq!(v["data"]["powerinfo"], serde_json::Value::from(2977u64));

    let batch = batch_json(&vec![b, b]);
    let arr: serde_json::Value = serde_json::from_slice(&batch).unwrap();
    assert_eq!(arr.as_array().unwrap().len(), 2);
}

#[test]
fn scaled_decimal_formatting() {
    // The extreme vectors print as exact decimal fractions with
    // trailing zeros trimmed down to one digit.
    let min = RuuviTagDataFormat5::decode(&hx("8001000000008001800180010000000000")).unwrap();
    let b = RuuviBluetoothBeacon {
        data: min,
        timestamp: 0,
        address: MacAddress::from_bytes(&[0, 0, 0, 0, 0, 1]),
    };
    let text = String::from_utf8(beacon_json(&b)).unwrap();
    assert!(text.contains("\"temperature\": -163.835"));
    assert!(text.contains("\"atmospheric_pressure\": 500.0"));
    assert!(text.contains("\"humidity\": 0.0"));
    assert!(text.contains("\"on_x_axis\": -32767.0"));
    assert!(text.contains("\"timestamp\": \"1970-01-01T00:00:00.000Z\""));
    assert!(text.contains("\"address\": \"00-00-00-00-00-01\""));
}

#[test]
fn scenario_collect_one_beacon() {
    // Fresh start; a configuration with collecting on, size 1 and
    // adapter 0; one beacon: one attach publish, then one events
    // publish on the tag's topic.
    let mut client = test_client(0);
    let decision = client.handle_config_message(Some(test_config(true, Some(1), 0)));
    assert_eq!(decision, ConfigDecision::Apply { enable: true });
    let beacon = sample_beacon(100);
    match client.handle_beacon_arrival(&beacon, true, 100) {
        BeaconDisposition::NeedsAttach { topic, payload } => {
            assert_eq!(topic, "/devices/CB-B8-33-4C-88-4F/attach");
            assert_eq!(payload, b"{}".to_vec());
        }
        other => panic!("expected an attach first, got {:?}", disposition_name(&other)),
    }
    client.attach_result(&beacon.address, true);
    match client.handle_beacon_arrival(&beacon, true, 101) {
        BeaconDisposition::PublishSingle { topic, payload } => {
            assert_eq!(topic, "/devices/CB-B8-33-4C-88-4F/events");
            assert_eq!(payload, beacon_json(&beacon));
        }
        other => panic!("expected a single publish, got {:?}", disposition_name(&other)),
    }
}

fn disposition_name(d: &BeaconDisposition) -> &'static str {
    match d {
        BeaconDisposition::NeedsAttach { .. } => "NeedsAttach",
        BeaconDisposition::PublishSingle { .. } => "PublishSingle",
        BeaconDisposition::PublishBatch { .. } => "PublishBatch",
        BeaconDisposition::Queued => "Queued",
        BeaconDisposition::PauseKeepAlive { .. } => "PauseKeepAlive",
        BeaconDisposition::PausedIdle => "PausedIdle",
    }
}

#[test]
fn scenario_event_subfolder_topic() {
    let mut client = test_client(0);
    let mut cfg = test_config(true, Some(1), 0);
    cfg.event_subfolder = Some("lab".to_string());
    client.handle_config_message(Some(cfg));
    let beacon = sample_beacon(100);
    client.attach_result(&beacon.address, true);
    match client.handle_beacon_arrival(&beacon, true, 100) {
        BeaconDisposition::PublishSingle { topic, .. } => {
            assert_eq!(topic, "/devices/CB-B8-33-4C-88-4F/events/lab");
        }
        other => panic!("expected a single publish, got {:?}", disposition_name(&other)),
    }
}

#[test]
fn scenario_pause_and_keepalive() {
    // A pause: no events are published while paused; after four
    // minutes of pause the state is re-emitted once.
    let mut client = test_client(0);
    client.handle_config_message(Some(test_config(true, Some(1), 0)));
    assert_eq!(
        IotCoreClient::command_decision(&Some(CNCCommandMessage { command: CNCCommand::PAUSE })),
        CommandDecision::DisableCollect
    );
    let (topic, payload) = client.set_collecting_state(false).unwrap();
    assert_eq!(topic, "/devices/gw1/state");
    assert!(String::from_utf8(payload).unwrap().contains("\"collecting\": false"));
    client.record_state_publish(false, true, 1000);

    let beacon = sample_beacon(2000);
    match client.handle_beacon_arrival(&beacon, true, 2000) {
        BeaconDisposition::PausedIdle => {}
        other => panic!("expected no publish while paused, got {:?}", disposition_name(&other)),
    }
    // Four minutes later the paused state is re-emitted.
    match client.handle_beacon_arrival(&beacon, true, 1000 + 240_000) {
        BeaconDisposition::PauseKeepAlive { topic, payload } => {
            assert_eq!(topic, "/devices/gw1/state");
            assert!(String::from_utf8(payload).unwrap().contains("\"collecting\": false"));
        }
        other => panic!("expected the keep-alive, got {:?}", disposition_name(&other)),
    }
    // The successful re-emission restarts the pause clock: the next
    // beacon publishes nothing.
    client.record_state_publish(false, true, 1000 + 240_000);
    match client.handle_beacon_arrival(&beacon, true, 1000 + 241_000) {
        BeaconDisposition::PausedIdle => {}
        other => panic!("expected idling again, got {:?}", disposition_name(&other)),
    }
}

#[test]
fn scenario_shutdown_detaches_all_tags() {
    let mut client = test_client(0);
    client.handle_config_message(Some(test_config(true, Some(1), 0)));
    let a = MacAddress::from_bytes(&[1, 2, 3, 4, 5, 6]);
    let b = MacAddress::from_bytes(&[7, 8, 9, 10, 11, 12]);
    client.attach_result(&a, true);
    client.attach_result(&b, true);
    assert_eq!(
        IotCoreClient::command_decision(&Some(CNCCommandMessage { command: CNCCommand::SHUTDOWN })),
        CommandDecision::ShutdownDetach
    );
    let keys = client.tag_keys();
    assert_eq!(keys.len(), 2);
    let topics: Vec<String> = keys
        .iter()
        .map(|k| client.device_detach_topic(&MacAddress::from_bits(*k).unwrap()))
        .collect();
    assert!(topics.contains(&"/devices/01-02-03-04-05-06/detach".to_string()));
    assert!(topics.contains(&"/devices/07-08-09-0A-0B-0C/detach".to_string()));
    // Both workers leaving cleanly ends the process cleanly.
    assert!(process_exits_clean(WorkerOutcome::CleanExit, WorkerOutcome::CleanExit));
    assert!(!process_exits_clean(WorkerOutcome::CleanExit, WorkerOutcome::Restart));
    assert!(WorkerOutcome::Fault.should_respawn());
}

#[test]
fn scenario_adapter_change_restarts_scanner() {
    let mut scanner = BluetoothScanner::build();
    let first = IOTCoreCNCMessageKind::CONFIG(Some(test_config(true, Some(1), 0)));
    assert_eq!(scanner.handle_cnc_message(&first), ScannerCncOutcome::FirstConfig);
    assert_eq!(scanner.adapter_index, Some(0));
    // The same adapter again: only a precautionary scan restart.
    let same = IOTCoreCNCMessageKind::CONFIG(Some(test_config(true, Some(1), 0)));
    assert_eq!(scanner.handle_cnc_message(&same), ScannerCncOutcome::SameAdapter);
    // A different adapter: the worker restarts.
    let changed = IOTCoreCNCMessageKind::CONFIG(Some(test_config(true, Some(1), 1)));
    assert_eq!(scanner.handle_cnc_message(&changed), ScannerCncOutcome::AdapterChanged);
    assert_eq!(scanner.adapter_index, Some(1));
    // Commands.
    let shutdown = IOTCoreCNCMessageKind::COMMAND(Some(CNCCommandMessage {
        command: CNCCommand::SHUTDOWN,
    }));
    assert_eq!(scanner.handle_cnc_message(&shutdown), ScannerCncOutcome::Shutdown);
    let reset = IOTCoreCNCMessageKind::COMMAND(Some(CNCCommandMessage {
        command: CNCCommand::RESET,
    }));
    assert_eq!(scanner.handle_cnc_message(&reset), ScannerCncOutcome::Reset);
    let ignored = IOTCoreCNCMessageKind::COMMAND(None);
    assert_eq!(scanner.handle_cnc_message(&ignored), ScannerCncOutcome::Ignored);
}

#[test]
fn scenario_watchdog_fires_after_silence() {
    let mut client = test_client(1_000);
    client.note_run_start(1_000_000);
    client.handle_config_message(Some(test_config(true, Some(1), 0)));
    assert!(!client.watchdog_due(1_000_000 + 57_999));
    assert!(client.watchdog_due(1_000_000 + 58_000));
    assert!(client.watchdog_due(1_000_000 + 60_000));
    assert_eq!(reset_command().command, CNCCommand::RESET);
    // A beacon resets the silence clock.
    let beacon = sample_beacon(1_050_000);
    client.attach_result(&beacon.address, true);
    client.handle_beacon_arrival(&beacon, true, 1_050_000);
    assert!(!client.watchdog_due(1_050_000 + 57_999));
}

#[test]
fn scenario_stuck_stack_detection() {
    // The same payload repeated across the staleness threshold means
    // the stack is stuck; a differing payload only updates the record.
    let mut scanner = BluetoothScanner::build();
    scanner.handle_cnc_message(&IOTCoreCNCMessageKind::CONFIG(Some(test_config(
        true,
        Some(1),
        0,
    ))));
    scanner.begin_run();
    let t0: u64 = 1_000_000;
    let b0 = sample_beacon(t0);
    assert_eq!(scanner.observe_beacon(&b0, t0), BeaconCheck::FirstSeen);
    // Before the threshold nothing is compared.
    let b1 = RuuviBluetoothBeacon { timestamp: t0 + 1_000, ..b0 };
    assert_eq!(scanner.observe_beacon(&b1, t0 + 1_000), BeaconCheck::NotDue);
    // Identical payload at threshold + 1 s: stuck.
    let stuck_at = t0 + 181_000;
    let b2 = RuuviBluetoothBeacon { timestamp: stuck_at, ..b0 };
    assert_eq!(scanner.observe_beacon(&b2, stuck_at), BeaconCheck::Stuck);

    // A differing payload at the same distance is only recorded.
    let mut scanner2 = BluetoothScanner::build();
    scanner2.begin_run();
    assert_eq!(scanner2.stuck_data_threshold(), 180);
    assert_eq!(scanner2.observe_beacon(&b0, t0), BeaconCheck::FirstSeen);
    let mut moved = b0;
    moved.data = RuuviTagDataFormat5::decode(&hx("12FC5394C37C0004FFFC040CAC364200CE")).unwrap();
    moved.timestamp = stuck_at;
    assert_eq!(scanner2.observe_beacon(&moved, stuck_at), BeaconCheck::Updated);
    // The record moved: the same payload soon after is not yet due.
    assert_eq!(scanner2.observe_beacon(&moved, stuck_at + 1_000), BeaconCheck::NotDue);
}

#[test]
fn stuck_threshold_clamping() {
    let mut scanner = BluetoothScanner::build();
    let mut cfg = test_config(true, Some(1), 0);
    cfg.stuck_data_threshold = Some(-5);
    scanner.handle_cnc_message(&IOTCoreCNCMessageKind::CONFIG(Some(cfg)));
    assert_eq!(scanner.stuck_data_threshold(), 180);
    let mut cfg2 = test_config(true, Some(1), 0);
    cfg2.stuck_data_threshold = Some(60);
    scanner.handle_cnc_message(&IOTCoreCNCMessageKind::CONFIG(Some(cfg2)));
    assert_eq!(scanner.stuck_data_threshold(), 60);
}

#[test]
fn attach_is_idempotent() {
    let mut client = test_client(0);
    client.handle_config_message(Some(test_config(true, Some(1), 0)));
    let mac = MacAddress::from_bytes(&[1, 2, 3, 4, 5, 6]);
    client.attach_result(&mac, true);
    assert_eq!(client.tag_keys().len(), 1);
    client.attach_result(&mac, true);
    assert_eq!(client.tag_keys().len(), 1);
    // A failed attach adds nothing.
    let other = MacAddress::from_bytes(&[9, 9, 9, 9, 9, 9]);
    client.attach_result(&other, false);
    assert_eq!(client.tag_keys().len(), 1);
}

#[test]
fn batching_two_full_rounds() {
    // With collection_size 3, six beacons yield exactly two array
    // publishes and leave the pending batch empty.
    let n = 3;
    let mut client = test_client(0);
    client.handle_config_message(Some(test_config(true, Some(n), 0)));
    let beacon = sample_beacon(100);
    client.attach_result(&beacon.address, true);
    let mut publishes = 0;
    for i in 0..(2 * n as u64) {
        match client.handle_beacon_arrival(&beacon, true, 100 + i) {
            BeaconDisposition::PublishBatch { topic, payload } => {
                assert_eq!(topic, "/devices/CB-B8-33-4C-88-4F/events");
                let arr: serde_json::Value = serde_json::from_slice(&payload).unwrap();
                assert_eq!(arr.as_array().unwrap().len(), n);
                publishes += 1;
                client.batch_publish_result(&beacon.address, true);
            }
            BeaconDisposition::Queued => {}
            other => panic!("unexpected disposition {:?}", disposition_name(&other)),
        }
    }
    assert_eq!(publishes, 2);
    // The pending batch is empty again.
    match client.handle_beacon_arrival(&beacon, true, 999) {
        BeaconDisposition::Queued => {}
        other => panic!("expected queueing, got {:?}", disposition_name(&other)),
    }
}

#[test]
fn failed_batch_publish_is_retried() {
    let mut client = test_client(0);
    client.handle_config_message(Some(test_config(true, Some(2), 0)));
    let beacon = sample_beacon(100);
    client.attach_result(&beacon.address, true);
    match client.handle_beacon_arrival(&beacon, true, 100) {
        BeaconDisposition::Queued => {}
        other => panic!("unexpected {:?}", disposition_name(&other)),
    }
    match client.handle_beacon_arrival(&beacon, true, 101) {
        BeaconDisposition::PublishBatch { .. } => client.batch_publish_result(&beacon.address, false),
        other => panic!("unexpected {:?}", disposition_name(&other)),
    }
    // The unpublished batch is kept and grows with the next beacon.
    match client.handle_beacon_arrival(&beacon, true, 102) {
        BeaconDisposition::PublishBatch { payload, .. } => {
            let arr: serde_json::Value = serde_json::from_slice(&payload).unwrap();
            assert_eq!(arr.as_array().unwrap().len(), 3);
        }
        other => panic!("unexpected {:?}", disposition_name(&other)),
    }
}

#[test]
fn tagmap_basics() {
    let mut m: TagMap<u64> = TagMap::new();
    assert_eq!(m.len(), 0);
    assert!(!m.contains_key(7));
    m.insert(7, 70);
    m.insert(8, 80);
    m.insert(7, 71);
    assert_eq!(m.len(), 2);
    assert_eq!(m.get(7), Some(&71));
    assert_eq!(m.get(8), Some(&80));
    assert_eq!(m.key_at(0), 7);
    assert_eq!(*m.value_at(1), 80);
    m.remove(7);
    assert_eq!(m.len(), 1);
    assert!(m.get(7).is_none());
    m.remove(99);
    assert_eq!(m.len(), 1);
}

#[test]
fn scanner_recovery_resets_state() {
    let mut scanner = BluetoothScanner::build();
    scanner.handle_cnc_message(&IOTCoreCNCMessageKind::CONFIG(Some(test_config(true, Some(1), 0))));
    assert!(scanner.has_adapter_config());
    scanner.reset_state();
    assert!(!scanner.has_adapter_config());
    assert_eq!(scanner.adapter_index, None);
}
