use eg4_bridge::config::{Config, ConfigWrapper, Influx, Inverter, Mqtt};
use eg4_bridge::coordinator::{
    decode_words, route, ChannelData, Coordinator, DeviceFunction, Packet, PacketStats, ParamData,
    Route, TranslatedData,
};
use eg4_bridge::coordinator::{startup_step, LoopAction, LoopEvent, StartupAction, StartupEvent, Subscriber};
use eg4_bridge::register_cache::{CacheStep, ChannelData as CacheData};
use eg4_bridge::register_metadata::{default_scale, RegisterCatalog, RegisterGroup, RegisterMeta};
use eg4_bridge::Serial;

fn serial(s: &str) -> Serial {
    Serial::from_str(s).unwrap()
}

fn inverter(serial_text: &str, datalog_text: &str, read_only: Option<bool>) -> Inverter {
    Inverter {
        enabled: true,
        host: "10.0.0.1".to_string(),
        port: 8000,
        serial: Some(serial(serial_text)),
        datalog: Some(serial(datalog_text)),
        heartbeats: None,
        publish_holdings_on_connect: None,
        read_timeout: None,
        use_tcp_nodelay: None,
        register_block_size: None,
        delay_ms: None,
        read_only,
        register_read_interval: None,
    }
}

fn config(inverters: Vec<Inverter>, mqtt_enabled: bool, read_only: bool) -> Config {
    Config {
        inverters,
        mqtt: Mqtt {
            enabled: mqtt_enabled,
            host: "localhost".to_string(),
            port: Config::default_mqtt_port(),
            username: None,
            password: None,
            namespace: Config::default_mqtt_namespace(),
            homeassistant: Config::default_mqtt_homeassistant(),
            publish_individual_input: None,
        },
        influx: Influx {
            enabled: false,
            url: String::new(),
            username: None,
            password: None,
            database: "lxp".to_string(),
        },
        databases: Vec::new(),
        scheduler: None,
        loglevel: Config::default_loglevel(),
        read_only,
        homeassistant_enabled: Config::default_homeassistant_enabled(),
        strict_data_check: Config::default_strict_data_check(),
        datalog_file: None,
        register_file: None,
        register_read_interval: Config::default_register_read_interval(),
        verbose: Config::default_verbose(),
        human_timestamps: Config::default_human_timestamps(),
        show_unknown: Config::default_show_unknown(),
        inverter_timeout: Config::default_inverter_timeout(),
    }
}

fn coordinator(inverters: Vec<Inverter>, mqtt_enabled: bool, read_only: bool) -> Coordinator {
    Coordinator::new(ConfigWrapper::from_config(config(inverters, mqtt_enabled, read_only)))
}

fn catalog() -> RegisterCatalog {
    RegisterCatalog::from_groups(&vec![RegisterGroup {
        register_type: "input".to_string(),
        register_map: vec![RegisterMeta {
            register_number: 1,
            name: "pv1_voltage".to_string(),
            shortname: "v_pv_1".to_string(),
            datatype: "uint16".to_string(),
            unit: "V".to_string(),
            unit_scale: default_scale(),
            description: String::new(),
        }],
    }])
}

fn translated(datalog: &str, inverter: &str, f: DeviceFunction, register: u16, values: Vec<u8>) -> Packet {
    Packet::TranslatedData(TranslatedData {
        datalog: serial(datalog),
        inverter: serial(inverter),
        device_function: f,
        register,
        values,
    })
}

#[test]
fn decode_words_pairs_little_endian() {
    assert_eq!(decode_words(&vec![0x34, 0x12, 0x01, 0x00]), vec![0x1234, 0x0001]);
    assert_eq!(decode_words(&vec![0x34, 0x12, 0x07]), vec![0x1234, 0x0007]);
    assert_eq!(decode_words(&Vec::new()), Vec::<u16>::new());
}

#[test]
fn default_stats_are_zero() {
    let s = PacketStats::default();
    assert_eq!(s.packets_received, 0);
    assert_eq!(s.packets_sent, 0);
    assert_eq!(s.serial_mismatches, 0);
    assert!(s.inverter_disconnections.is_empty());
    assert!(s.last_messages.is_empty());
}

#[test]
fn increments_count_by_one() {
    let mut s = PacketStats::default();
    s.increment_serial_mismatches();
    s.increment_mqtt_errors();
    s.increment_mqtt_errors();
    s.increment_cache_errors();
    assert_eq!(s.serial_mismatches, 1);
    assert_eq!(s.mqtt_errors, 2);
    assert_eq!(s.register_cache_errors, 1);
    assert_eq!(s.packets_received, 0);
}

#[test]
fn copy_from_takes_every_counter() {
    let mut a = PacketStats::default();
    let mut b = PacketStats::default();
    b.packets_received = 7;
    b.influx_writes = 3;
    b.inverter_disconnections.push((serial("DL00000001"), 2));
    b.last_messages.push((serial("DL00000001"), "hello".to_string()));
    a.copy_from(&b);
    assert_eq!(a.packets_received, 7);
    assert_eq!(a.influx_writes, 3);
    assert_eq!(a.inverter_disconnections.len(), 1);
    assert_eq!(a.inverter_disconnections[0].1, 2);
    assert_eq!(a.last_messages[0].1, "hello");
}

#[test]
fn every_packet_is_counted_under_its_kind() {
    let mut c = coordinator(vec![inverter("SN00000001", "DL00000001", None)], false, false);
    let cat = catalog();
    c.process_packet(&Packet::Heartbeat(serial("DL00000001")), false, &cat);
    c.process_packet(
        &translated("DL00000001", "SN00000001", DeviceFunction::ReadHold, 0, vec![1, 0]),
        false,
        &cat,
    );
    c.process_packet(
        &Packet::ReadParam(ParamData { datalog: serial("DL00000001"), register: 0, values: vec![] }),
        true,
        &cat,
    );
    let s = c.stats();
    assert_eq!(s.packets_received, 3);
    assert_eq!(s.heartbeat_packets_received, 1);
    assert_eq!(s.translated_data_packets_received, 1);
    assert_eq!(s.read_param_packets_received, 1);
    assert_eq!(s.write_param_packets_received, 0);
}

#[test]
fn translated_data_takes_over_reported_serial() {
    let mut c = coordinator(vec![inverter("SN00000001", "DL00000001", None)], false, false);
    c.process_packet(
        &translated("DL00000001", "SN99999999", DeviceFunction::ReadInput, 0, vec![]),
        false,
        &catalog(),
    );
    let invs = c.config().inverters();
    assert_eq!(invs[0].serial.unwrap().to_string(), "SN99999999");
    assert_eq!(invs[0].datalog.unwrap().to_string(), "DL00000001");
}

#[test]
fn unknown_datalog_leaves_inverters_alone() {
    let mut c = coordinator(vec![inverter("SN00000001", "DL00000001", None)], false, false);
    c.process_packet(&Packet::Heartbeat(serial("DL00000009")), false, &catalog());
    let invs = c.config().inverters();
    assert_eq!(invs[0].serial.unwrap().to_string(), "SN00000001");
    assert_eq!(invs[0].datalog.unwrap().to_string(), "DL00000001");
}

#[test]
fn shutting_down_sends_nothing() {
    let mut c = coordinator(vec![inverter("SN00000001", "DL00000001", None)], true, false);
    c.set_sinks(true, true);
    c.start_register_cache();
    let out = c.process_packet(
        &translated("DL00000001", "SN00000001", DeviceFunction::ReadInput, 1, vec![0xe8, 0x03]),
        true,
        &catalog(),
    );
    assert!(!out.influx && !out.database && !out.mqtt && !out.read_only_rejected);
    assert!(out.cache.is_empty());
    assert!(out.snapshot.is_none());
    assert_eq!(c.stats().packets_received, 1);
}

#[test]
fn input_read_goes_everywhere() {
    let mut c = coordinator(vec![inverter("SN00000001", "DL00000001", None)], true, false);
    c.set_sinks(true, true);
    c.start_register_cache();
    let out = c.process_packet(
        &translated("DL00000001", "SN00000001", DeviceFunction::ReadInput, 1, vec![0xe8, 0x03, 0x05, 0x00]),
        false,
        &catalog(),
    );
    assert!(out.influx);
    assert!(out.database);
    assert!(out.mqtt);
    assert!(!out.read_only_rejected);
    assert_eq!(out.cache, vec![CacheData::RegisterData(1, 1000), CacheData::RegisterData(2, 5)]);
    let (topic, entries) = out.snapshot.unwrap();
    assert_eq!(topic, "DL00000001/inputs/all");
    assert_eq!(entries[0], ("v_pv_1".to_string(), 1000));
    assert_eq!(entries[1], ("r_2".to_string(), 5));
}

#[test]
fn write_acknowledgement_skips_influx() {
    let mut c = coordinator(vec![inverter("SN00000001", "DL00000001", None)], false, false);
    c.set_sinks(true, true);
    let out = c.process_packet(
        &translated("DL00000001", "SN00000001", DeviceFunction::WriteSingle, 21, vec![1, 0]),
        false,
        &catalog(),
    );
    assert!(!out.influx);
    assert!(!out.database);
    assert!(!out.mqtt);
    assert!(out.snapshot.is_none());
    assert_eq!(out.cache, vec![CacheData::RegisterData(21, 1)]);
}

#[test]
fn no_snapshot_without_mqtt() {
    let mut c = coordinator(vec![inverter("SN00000001", "DL00000001", None)], false, false);
    c.start_register_cache();
    let out = c.process_packet(
        &translated("DL00000001", "SN00000001", DeviceFunction::ReadInput, 1, vec![1, 0]),
        false,
        &catalog(),
    );
    assert!(out.snapshot.is_none());
    assert!(!out.mqtt);
}

#[test]
fn read_only_mode_refuses_parameter_writes() {
    let mut c = coordinator(vec![inverter("SN00000001", "DL00000001", None)], false, true);
    let out = c.process_packet(
        &Packet::WriteParam(ParamData { datalog: serial("DL00000001"), register: 7, values: vec![1, 0] }),
        false,
        &catalog(),
    );
    assert!(out.read_only_rejected);
    assert!(out.cache.is_empty());
}

#[test]
fn read_only_inverter_refuses_parameter_writes() {
    let mut c = coordinator(vec![inverter("SN00000001", "DL00000001", Some(true))], false, false);
    let out = c.process_packet(
        &Packet::WriteParam(ParamData { datalog: serial("DL00000001"), register: 7, values: vec![1, 0] }),
        false,
        &catalog(),
    );
    assert!(out.read_only_rejected);
    assert!(out.cache.is_empty());
}

#[test]
fn writable_inverter_stores_parameter_writes() {
    let mut c = coordinator(vec![inverter("SN00000001", "DL00000001", Some(false))], false, false);
    let out = c.process_packet(
        &Packet::WriteParam(ParamData { datalog: serial("DL00000001"), register: 7, values: vec![2, 1] }),
        false,
        &catalog(),
    );
    assert!(!out.read_only_rejected);
    assert_eq!(out.cache, vec![CacheData::RegisterData(7, 0x0102)]);
}

#[test]
fn cache_steps_need_a_started_cache() {
    let mut c = coordinator(vec![], false, false);
    assert_eq!(c.cache_getter_step(&CacheData::ReadRegister(3)), None);
    assert_eq!(c.cache_setter_step(&CacheData::RegisterData(3, 9)), None);
    c.start_register_cache();
    assert_eq!(c.cache_setter_step(&CacheData::RegisterData(3, 9)), Some(CacheStep::Stored));
    assert_eq!(c.cache_getter_step(&CacheData::ReadRegister(3)), Some(CacheStep::Reply(9)));
}

#[test]
fn cache_register_addresses_consecutive_registers() {
    let c = coordinator(vec![], false, false);
    assert_eq!(
        c.cache_register(100, &vec![1, 0, 2, 0, 3]),
        vec![CacheData::RegisterData(100, 1), CacheData::RegisterData(101, 2), CacheData::RegisterData(102, 3)]
    );
}

#[test]
fn routes_follow_the_message_kind() {
    assert_eq!(route(&ChannelData::Shutdown), Route::Stop);
    assert_eq!(route(&ChannelData::Packet(Packet::Heartbeat(serial("DL00000001")))), Route::Process);
    assert_eq!(route(&ChannelData::SendPacket(Packet::Heartbeat(serial("DL00000001")))), Route::Forward);
}

#[test]
fn summary_lists_counters_then_disconnections() {
    let mut s = PacketStats::default();
    s.packets_received = 12;
    s.mqtt_errors = 3;
    s.inverter_disconnections.push((serial("DL00000001"), 2));
    s.inverter_disconnections.push((serial("DL00000002"), 1));
    s.last_messages.push((serial("DL00000002"), "timeout".to_string()));
    let lines = s.summary_lines();
    assert_eq!(lines.len(), 30 + 3);
    assert_eq!(lines[0], "Packet Statistics:");
    assert_eq!(lines[1], "  Total packets received: 12");
    assert_eq!(lines[2], "  Total packets sent: 0");
    assert_eq!(lines[15], "    MQTT errors: 3");
    assert_eq!(lines[29], "    Inverter disconnections by serial:");
    assert_eq!(lines[30], "      DL00000001: 2");
    assert_eq!(lines[31], "      DL00000002: 1");
    assert_eq!(lines[32], "      Last message: timeout");
}

#[test]
fn startup_plan_follows_configuration() {
    let mut cfg = config(
        vec![inverter("SN00000001", "DL00000001", None), {
            let mut i = inverter("SN00000002", "DL00000002", None);
            i.enabled = false;
            i
        }],
        true,
        false,
    );
    cfg.datalog_file = Some("/tmp/datalog.json".to_string());
    cfg.databases.push(eg4_bridge::config::Database { enabled: true, url: "postgres://db/lxp".to_string() });
    cfg.databases.push(eg4_bridge::config::Database { enabled: false, url: "sqlite://x".to_string() });
    let c = Coordinator::new(ConfigWrapper::from_config(cfg));
    let plan = c.startup_plan(false);
    assert_eq!(plan.datalog_writer.as_deref(), Some("/tmp/datalog.json"));
    assert!(plan.mqtt_enabled && plan.mqtt_client);
    assert!(!plan.influx);
    assert_eq!(plan.databases.len(), 1);
    assert_eq!(plan.databases[0].url, "postgres://db/lxp");
    assert_eq!(plan.inverters.len(), 1);
    assert_eq!(plan.inverters[0].host, "10.0.0.1");
    let skipped = c.startup_plan(true);
    assert!(skipped.mqtt_enabled && !skipped.mqtt_client);
}

#[test]
fn influx_raw_data_keys_each_byte_by_register() {
    let r = eg4_bridge::coordinator::influx_raw_data(120, &vec![0x0a, 0xff, 0x00]);
    assert_eq!(
        r,
        vec![
            ("120".to_string(), "000a".to_string()),
            ("121".to_string(), "00ff".to_string()),
            ("122".to_string(), "0000".to_string()),
        ]
    );
    assert!(eg4_bridge::coordinator::influx_raw_data(7, &Vec::new()).is_empty());
}

#[test]
fn heartbeat_goes_nowhere() {
    let mut c = coordinator(vec![inverter("SN00000001", "DL00000001", None)], true, false);
    c.set_sinks(true, true);
    c.start_register_cache();
    let out = c.process_packet(&Packet::Heartbeat(serial("DL00000001")), false, &catalog());
    assert!(!out.influx && !out.database && !out.mqtt && !out.read_only_rejected);
    assert!(out.cache.is_empty());
    assert!(out.snapshot.is_none());
}

#[test]
fn loop_stops_on_shutdown_and_receive_errors() {
    use_loop_events(true);
    use_loop_events(false);
}

fn use_loop_events(mqtt_enabled: bool) {
    let c = coordinator(vec![], mqtt_enabled, false);
    assert_eq!(c.loop_step(LoopEvent::InverterPacket), LoopAction::ProcessPacket);
    assert_eq!(c.loop_step(LoopEvent::CoordinatorPacket), LoopAction::ProcessPacket);
    assert_eq!(c.loop_step(LoopEvent::CoordinatorSendPacket), LoopAction::ForwardPacket);
    assert_eq!(c.loop_step(LoopEvent::InverterShutdown), LoopAction::Stop);
    assert_eq!(c.loop_step(LoopEvent::InverterReceiveError), LoopAction::Stop);
    assert_eq!(c.loop_step(LoopEvent::CoordinatorShutdown), LoopAction::Stop);
    assert_eq!(c.loop_step(LoopEvent::CoordinatorReceiveError), LoopAction::Stop);
    assert_eq!(c.loop_step(LoopEvent::InverterConnected), LoopAction::Continue);
    assert_eq!(c.loop_step(LoopEvent::InverterModbusError), LoopAction::Continue);
    assert_eq!(c.loop_step(LoopEvent::MqttShutdown), LoopAction::Continue);
    assert_eq!(c.loop_step(LoopEvent::MqttReceiveError), LoopAction::Continue);
    let expected = if mqtt_enabled { LoopAction::ProcessMessage } else { LoopAction::Continue };
    assert_eq!(c.loop_step(LoopEvent::MqttMessage), expected);
}

#[test]
fn startup_steps_abort_with_their_error() {
    use_startup_steps();
}

fn use_startup_steps() {
    let abort = |e: StartupEvent| match startup_step(&e) {
        StartupAction::Abort(m) => Some(m),
        StartupAction::Continue => None,
    };
    assert_eq!(
        abort(StartupEvent::InfluxStarted(Err("connection refused".to_string()))).as_deref(),
        Some("Failed to start InfluxDB client: connection refused")
    );
    assert_eq!(abort(StartupEvent::InfluxStarted(Ok(()))), None);
    assert_eq!(
        abort(StartupEvent::DatalogWriterCreated(Err("permission denied".to_string()))).as_deref(),
        Some("permission denied")
    );
    assert_eq!(abort(StartupEvent::DatalogWriterCreated(Ok(()))), None);
    assert_eq!(
        abort(StartupEvent::SubscriberChecked(Subscriber::Influx, false)).as_deref(),
        Some("InfluxDB channel is closed")
    );
    assert_eq!(
        abort(StartupEvent::SubscriberChecked(Subscriber::DatalogWriter, false)).as_deref(),
        Some("Datalog writer channel is closed")
    );
    assert_eq!(
        abort(StartupEvent::SubscriberChecked(Subscriber::Mqtt, false)).as_deref(),
        Some("MQTT channel is closed")
    );
    assert_eq!(
        abort(StartupEvent::SubscriberChecked(Subscriber::Databases, false)).as_deref(),
        Some("Database channel is closed")
    );
    assert_eq!(abort(StartupEvent::SubscriberChecked(Subscriber::Mqtt, true)), None);
}

#[test]
fn subscriber_checks_follow_the_plan() {
    let mut cfg = config(vec![], true, false);
    cfg.datalog_file = Some("/tmp/d.json".to_string());
    cfg.databases.push(eg4_bridge::config::Database { enabled: true, url: "postgres://db/x".to_string() });
    let c = Coordinator::new(ConfigWrapper::from_config(cfg));
    assert_eq!(
        c.startup_plan(false).subscriber_checks(),
        vec![Subscriber::DatalogWriter, Subscriber::Mqtt, Subscriber::Databases]
    );
    let c = coordinator(vec![], false, false);
    assert!(c.startup_plan(false).subscriber_checks().is_empty());
}
