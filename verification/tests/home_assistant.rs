use eg4_bridge::config::{Config as BridgeConfig, ConfigWrapper, Inverter, Mqtt};
use eg4_bridge::home_assistant::{Config, Discovery, Entity};
use eg4_bridge::register_cache::RegisterCache;
use eg4_bridge::register_metadata::{RegisterCatalog, RegisterGroup, RegisterMeta};
use eg4_bridge::scale::ScaleDecimal;
use eg4_bridge::Serial;

fn meta(n: u16, short: &str, unit: &str, datatype: &str, scale: &str) -> RegisterMeta {
    RegisterMeta {
        register_number: n,
        name: format!("Register {}", short),
        shortname: short.to_string(),
        datatype: datatype.to_string(),
        unit: unit.to_string(),
        unit_scale: ScaleDecimal::parse(scale).unwrap(),
        description: String::new(),
    }
}

fn catalog() -> RegisterCatalog {
    RegisterCatalog::from_groups(&vec![
        RegisterGroup {
            register_type: "input".to_string(),
            register_map: vec![
                meta(1, "pv1_voltage", "V", "uint16", "0.1"),
                meta(5, "battery_status", "%", "uint16", "1"),
                meta(100, "extra", "", "uint16", "1"),
                meta(28, "pv1_energy_today", "kWh", "uint16", "0.1"),
            ],
        },
        RegisterGroup {
            register_type: "hold".to_string(),
            register_map: vec![meta(21, "func_en", "", "uint16", "1")],
        },
    ])
}

fn inverter() -> Inverter {
    Inverter {
        enabled: true,
        host: "10.0.0.1".to_string(),
        port: 8000,
        serial: Some(Serial::from_str("SN00000001").unwrap()),
        datalog: Some(Serial::from_str("AB12345678").unwrap()),
        heartbeats: None,
        publish_holdings_on_connect: None,
        read_timeout: None,
        use_tcp_nodelay: None,
        register_block_size: None,
        delay_ms: None,
        read_only: None,
        register_read_interval: None,
    }
}

fn mqtt(publish_all: bool) -> Mqtt {
    let mut ha = BridgeConfig::default_mqtt_homeassistant();
    ha.publish_all_registers = publish_all;
    Mqtt {
        enabled: true,
        host: "localhost".to_string(),
        port: 1883,
        username: None,
        password: None,
        namespace: "lxp".to_string(),
        homeassistant: ha,
        publish_individual_input: None,
    }
}

fn wrapper(ha_enabled: bool) -> ConfigWrapper {
    ConfigWrapper::from_config(BridgeConfig {
        inverters: vec![inverter()],
        mqtt: mqtt(false),
        influx: eg4_bridge::config::Influx {
            enabled: false,
            url: String::new(),
            username: None,
            password: None,
            database: String::new(),
        },
        databases: Vec::new(),
        scheduler: None,
        loglevel: "info".to_string(),
        read_only: false,
        homeassistant_enabled: ha_enabled,
        strict_data_check: false,
        datalog_file: None,
        register_file: None,
        register_read_interval: 60,
        verbose: false,
        human_timestamps: false,
        show_unknown: false,
        inverter_timeout: 300,
    })
}

fn sensor(d: &Discovery) -> &eg4_bridge::home_assistant::Sensor {
    match &d.entity {
        Entity::Sensor(s) => s,
        _ => panic!("not a sensor"),
    }
}

#[test]
fn disabled_home_assistant_announces_nothing() {
    let cfg = Config::new(&inverter(), &mqtt(false), &wrapper(false));
    assert!(cfg.all(&catalog()).is_empty());
}

#[test]
fn controls_come_first_then_sensors() {
    let cfg = Config::new(&inverter(), &mqtt(false), &wrapper(true));
    let all = cfg.all(&catalog());
    // 26 controls; curated registers known to the catalog: 1, 5 (as soc and soh) and 28.
    assert_eq!(all.len(), 26 + 4);
    assert_eq!(all[0].topic, "homeassistant/switch/lxp_AB12345678/ac_charge/config");
    assert!(all[0].retain);
    match &all[0].entity {
        Entity::Switch(s) => {
            assert_eq!(s.name, "AC Charge");
            assert_eq!(s.state_topic, "lxp/AB12345678/hold/21/bits");
            assert_eq!(s.command_topic, "lxp/cmd/AB12345678/set/ac_charge");
            assert_eq!(s.value_template, "{{ value_json.ac_charge_en }}");
            assert_eq!(s.unique_id, "lxp_AB12345678_ac_charge");
            assert_eq!(s.device.manufacturer, "LuxPower");
            assert_eq!(s.device.name, "lxp_AB12345678");
            assert_eq!(s.device.identifiers[0], "lxp_AB12345678");
            assert_eq!(s.availability.topic, "lxp/LWT");
        }
        _ => panic!("expected a switch"),
    }
    assert_eq!(all[3].topic, "homeassistant/number/lxp_AB12345678/ChargePowerPercentCmd/config");
    match &all[3].entity {
        Entity::Number(n) => {
            assert_eq!(n.name, "System Charge Rate (%)");
            assert_eq!(n.state_topic, "lxp/AB12345678/hold/64");
            assert_eq!(n.command_topic, "lxp/cmd/AB12345678/set/hold/64");
            assert_eq!(n.unique_id, "lxp_AB12345678_number_ChargePowerPercentCmd");
            assert_eq!(n.value_template, "{{ float(value) }}");
            assert_eq!((n.min, n.max, n.step), (0, 100, 1));
            assert_eq!(n.unit_of_measurement, "%");
        }
        _ => panic!("expected a number"),
    }
    match &all[13].entity {
        Entity::Number(n) => assert_eq!(n.state_topic, "lxp/AB12345678/hold/161"),
        _ => panic!("expected a number"),
    }
    assert_eq!(all[14].topic, "homeassistant/text/lxp_AB12345678/ac_charge_1/config");
    match &all[14].entity {
        Entity::Text(t) => {
            assert_eq!(t.name, "AC Charge Timeslot 1");
            assert_eq!(t.state_topic, "lxp/AB12345678/ac_charge/1");
            assert_eq!(t.command_topic, "lxp/cmd/AB12345678/set/ac_charge/1");
            assert_eq!(t.unique_id, "lxp_AB12345678_text_ac_charge/1");
            assert_eq!(
                t.pattern,
                r"([01]?[0-9]|2[0-3]):[0-5][0-9]-([01]?[0-9]|2[0-3]):[0-5][0-9]"
            );
            assert_eq!(t.value_template, r#"{{ value_json["start"] }}-{{ value_json["end"] }}"#);
        }
        _ => panic!("expected a text"),
    }
    assert_eq!(all[25].topic, "homeassistant/text/lxp_AB12345678/forced_discharge_3/config");
}

#[test]
fn curated_sensors_apply_scales() {
    let cfg = Config::new(&inverter(), &mqtt(false), &wrapper(true));
    let s = cfg.sensors(&catalog());
    assert_eq!(s.len(), 4);
    assert_eq!(s[0].topic, "homeassistant/sensor/lxp_AB12345678/pv1_voltage/config");
    let pv = sensor(&s[0]);
    assert_eq!(pv.value_template, "{{ (value_json.pv1_voltage * 0.1) | round(1) }}");
    assert_eq!(pv.state_topic, "lxp/AB12345678/inputs/all");
    assert_eq!(pv.device_class.as_deref(), Some("voltage"));
    assert_eq!(pv.state_class.as_deref(), Some("measurement"));
    assert_eq!(pv.unit_of_measurement.as_deref(), Some("V"));
    assert_eq!(pv.unique_id, "lxp_AB12345678_pv1_voltage");
    assert_eq!(pv.device.manufacturer, "EG4");
    let soc = sensor(&s[1]);
    assert_eq!(soc.name, "State of Charge");
    assert_eq!(soc.value_template, "{{ value_json.soc }}");
    assert_eq!(soc.device_class.as_deref(), Some("battery"));
    let soh = sensor(&s[2]);
    assert_eq!(soh.unique_id, "lxp_AB12345678_soh");
    let energy = sensor(&s[3]);
    assert_eq!(energy.state_class.as_deref(), Some("total_increasing"));
    assert_eq!(energy.device_class.as_deref(), Some("energy"));
}

#[test]
fn publishing_all_registers_sorts_by_number() {
    let cfg = Config::new(&inverter(), &mqtt(true), &wrapper(true));
    let s = cfg.sensors(&catalog());
    // 1, 5 (soc, soh), 28, 100
    assert_eq!(s.len(), 5);
    let extra = sensor(&s[4]);
    assert_eq!(extra.value_template, "{{ value_json.extra }}");
    assert!(extra.device_class.is_none());
    assert!(extra.state_class.is_none());
    assert!(extra.unit_of_measurement.is_none());
}

#[test]
fn unknown_datalog_leaves_the_serial_empty() {
    let mut inv = inverter();
    inv.datalog = None;
    let cfg = Config::new(&inv, &mqtt(false), &wrapper(true));
    let all = cfg.all(&catalog());
    assert_eq!(all[0].topic, "homeassistant/switch/lxp_/ac_charge/config");
}

#[test]
fn every_sensor_key_is_in_the_snapshot() {
    let cat = catalog();
    let cfg = Config::new(&inverter(), &mqtt(true), &wrapper(true));
    let sensors = cfg.sensors(&cat);
    let d = Serial::from_str("AB12345678").unwrap();
    let mut cache = RegisterCache::new();
    cache.record_input(d, 0, &[0; 128]);
    let snapshot = cache.input_snapshot(&d, &cat).unwrap();
    assert_eq!(sensors.len(), 5);
    for s in &sensors {
        let s = sensor(s);
        assert_eq!(s.state_topic, "lxp/AB12345678/inputs/all");
        let key = s.unique_id.strip_prefix("lxp_AB12345678_").unwrap();
        assert!(s.value_template.contains(&format!("value_json.{}", key)));
        assert!(snapshot.iter().any(|(k, _)| k == key), "{} missing", key);
    }
}
